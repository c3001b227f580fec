//! A plain JSON value model.
//!
//! Response bodies reach the library as values of [`Json`]; the embedding
//! application (or a test) builds them from the wire text. Numbers are modeled
//! as `i64`: the PayPal schemas handled here use whole numbers only, and a
//! conversion must reject anything else as undecodable.

use vstd::prelude::*;

verus! {

use crate::strutil::str_eq;

/// A JSON value, as plain data.
#[derive(Debug)]
pub enum Json {
    /// The JSON `null`.
    Null,
    /// A boolean.
    Bool(bool),
    /// A whole number.
    Int(i64),
    /// A string.
    Str(String),
    /// An array.
    Arr(Vec<Json>),
    /// An object: fields in document order.
    Obj(Vec<(String, Json)>),
}

/// The first value bound to `key` in the field list `es`, if any.
pub open spec fn spec_obj_get(es: Seq<(String, Json)>, key: Seq<char>) -> Option<Json>
    decreases es.len(),
{
    if es.len() == 0 {
        None
    } else if es[0].0@ == key {
        Some(es[0].1)
    } else {
        spec_obj_get(es.drop_first(), key)
    }
}

impl Json {
    /// The value bound to `key`, when this is an object that has that field.
    pub open spec fn spec_get(self, key: Seq<char>) -> Option<Json> {
        match self {
            Json::Obj(es) => spec_obj_get(es@, key),
            _ => None,
        }
    }

    /// The string value of the field `key`, when present and a string.
    pub open spec fn spec_field_string(self, key: Seq<char>) -> Option<String> {
        match self.spec_get(key) {
            Some(Json::Str(s)) => Some(s),
            _ => None,
        }
    }

    /// The whole-number value of the field `key`, when present and a number.
    pub open spec fn spec_field_int(self, key: Seq<char>) -> Option<i64> {
        match self.spec_get(key) {
            Some(Json::Int(n)) => Some(n),
            _ => None,
        }
    }

    /// The boolean value of the field `key`, when present and a boolean.
    pub open spec fn spec_field_bool(self, key: Seq<char>) -> Option<bool> {
        match self.spec_get(key) {
            Some(Json::Bool(b)) => Some(b),
            _ => None,
        }
    }

    /// The elements of the field `key`, when present and an array.
    pub open spec fn spec_field_arr(self, key: Seq<char>) -> Option<Seq<Json>> {
        match self.spec_get(key) {
            Some(Json::Arr(v)) => Some(v@),
            _ => None,
        }
    }

    /// Reads an optional string field: absent or `null` is `Some(None)`, a
    /// string is `Some(Some(..))`, any other shape is undecodable (`None`).
    pub open spec fn spec_field_opt_string(self, key: Seq<char>) -> Option<Option<String>> {
        match self.spec_get(key) {
            None => Some(None),
            Some(Json::Null) => Some(None),
            Some(Json::Str(s)) => Some(Some(s)),
            Some(_) => None,
        }
    }

    /// Reads an optional boolean field: absent or `null` is `Some(None)`, a
    /// boolean is `Some(Some(..))`, any other shape is undecodable (`None`).
    pub open spec fn spec_field_opt_bool(self, key: Seq<char>) -> Option<Option<bool>> {
        match self.spec_get(key) {
            None => Some(None),
            Some(Json::Null) => Some(None),
            Some(Json::Bool(b)) => Some(Some(b)),
            Some(_) => None,
        }
    }

    /// Looks up the first field named `key` of an object.
    pub fn get<'a>(&'a self, key: &str) -> (r: Option<&'a Json>)
        ensures
            match r {
                Some(j) => self.spec_get(key@) == Some(*j),
                None => self.spec_get(key@) is None,
            },
    {
        match self {
            Json::Obj(es) => {
                let n = es.len();
                let mut i: usize = 0;
                proof {
                    assert(es@.skip(0) =~= es@);
                }
                while i < n
                    invariant
                        i <= n,
                        n == es@.len(),
                        *self == Json::Obj(*es),
                        spec_obj_get(es@, key@) == spec_obj_get(es@.skip(i as int), key@),
                    decreases n - i,
                {
                    proof {
                        assert(es@.skip(i as int)[0] == es@[i as int]);
                    }
                    if str_eq(es[i].0.as_str(), key) {
                        proof {
                            assert(es@.skip(i as int)[0].0@ == key@);
                            assert(spec_obj_get(es@.skip(i as int), key@) == Some(es@[i as int].1));
                        }
                        return Some(&es[i].1);
                    }
                    proof {
                        assert(es@.skip(i as int).drop_first() =~= es@.skip(i as int + 1));
                    }
                    i += 1;
                }
                proof {
                    assert(es@.skip(n as int) =~= Seq::<(String, Json)>::empty());
                }
                None
            },
            _ => None,
        }
    }

    /// The string value of the field `key`, cloned, when present and a string.
    pub fn get_str(&self, key: &str) -> (r: Option<String>)
        ensures
            r == self.spec_field_string(key@),
    {
        match self.get(key) {
            Some(Json::Str(s)) => Some(s.clone()),
            _ => None,
        }
    }

    /// The whole-number value of the field `key`, when present and a number.
    pub fn get_i64(&self, key: &str) -> (r: Option<i64>)
        ensures
            r == self.spec_field_int(key@),
    {
        match self.get(key) {
            Some(Json::Int(n)) => Some(*n),
            _ => None,
        }
    }

    /// The boolean value of the field `key`, when present and a boolean.
    pub fn get_bool(&self, key: &str) -> (r: Option<bool>)
        ensures
            r == self.spec_field_bool(key@),
    {
        match self.get(key) {
            Some(Json::Bool(b)) => Some(*b),
            _ => None,
        }
    }

    /// The elements of the field `key`, when present and an array.
    pub fn get_arr<'a>(&'a self, key: &str) -> (r: Option<&'a Vec<Json>>)
        ensures
            match r {
                Some(v) => self.spec_field_arr(key@) == Some(v@),
                None => self.spec_field_arr(key@) is None,
            },
    {
        match self.get(key) {
            Some(Json::Arr(v)) => Some(v),
            _ => None,
        }
    }

    /// Reads an optional string field, cloned; `None` means the field was
    /// present with a shape other than string or `null`.
    pub fn get_opt_str(&self, key: &str) -> (r: Option<Option<String>>)
        ensures
            r == self.spec_field_opt_string(key@),
    {
        match self.get(key) {
            None => Some(None),
            Some(Json::Null) => Some(None),
            Some(Json::Str(s)) => Some(Some(s.clone())),
            Some(_) => None,
        }
    }

    /// Reads an optional boolean field, exactly as
    /// [`Json::spec_field_opt_bool`] says.
    pub fn get_opt_bool(&self, key: &str) -> (r: Option<Option<bool>>)
        ensures
            r == self.spec_field_opt_bool(key@),
    {
        match self.get(key) {
            None => Some(None),
            Some(Json::Null) => Some(None),
            Some(Json::Bool(b)) => Some(Some(*b)),
            Some(_) => None,
        }
    }
}

/// A typed view of a JSON document: the decoding relation every response
/// type supplies to the dispatcher. `spec_decodable` says exactly which
/// documents decode; `spec_matches` relates a decoded value to its document,
/// field by field.
pub trait FromJson: Sized {
    /// True when the document matches the type's schema.
    spec fn spec_decodable(j: Json) -> bool;

    /// Relates a decoded value to the document it was decoded from.
    spec fn spec_matches(self, j: Json) -> bool;

    /// Decodes the document: succeeds exactly on documents the schema
    /// accepts, and the result matches the document.
    fn from_json(j: &Json) -> (r: Option<Self>)
        ensures
            match r {
                Some(v) => Self::spec_decodable(*j) && v.spec_matches(*j),
                None => !Self::spec_decodable(*j),
            },
    ;
}

impl FromJson for String {
    /// A JSON string.
    open spec fn spec_decodable(j: Json) -> bool {
        j is Str
    }

    open spec fn spec_matches(self, j: Json) -> bool {
        match j {
            Json::Str(s) => self == s,
            _ => false,
        }
    }

    fn from_json(j: &Json) -> (r: Option<String>)
        ensures
            match r {
                Some(v) => Self::spec_decodable(*j) && v.spec_matches(*j),
                None => !Self::spec_decodable(*j),
            },
    {
        match j {
            Json::Str(s) => Some(s.clone()),
            _ => None,
        }
    }
}

impl FromJson for () {
    /// The unit response: any document is accepted and carries no data.
    open spec fn spec_decodable(j: Json) -> bool {
        true
    }

    open spec fn spec_matches(self, j: Json) -> bool {
        true
    }

    fn from_json(j: &Json) -> (r: Option<()>)
        ensures
            match r {
                Some(v) => Self::spec_decodable(*j) && v.spec_matches(*j),
                None => !Self::spec_decodable(*j),
            },
    {
        Some(())
    }
}

/// A required embedded object field holds a document `T` accepts.
pub open spec fn spec_obj_decodable<T: FromJson>(j: Json, key: Seq<char>) -> bool {
    match j.spec_get(key) {
        Some(x) => T::spec_decodable(x),
        None => false,
    }
}

/// A required embedded object field decoded to `v`.
pub open spec fn spec_obj_matches<T: FromJson>(v: T, j: Json, key: Seq<char>) -> bool {
    match j.spec_get(key) {
        Some(x) => v.spec_matches(x),
        None => false,
    }
}

/// Decodes a required embedded object field.
pub fn get_obj<T: FromJson>(j: &Json, key: &str) -> (r: Option<T>)
    ensures
        match r {
            Some(v) => spec_obj_decodable::<T>(*j, key@) && spec_obj_matches(v, *j, key@),
            None => !spec_obj_decodable::<T>(*j, key@),
        },
{
    match j.get(key) {
        Some(x) => T::from_json(x),
        None => None,
    }
}

/// An optional embedded object field is absent, `null`, or a document `T`
/// accepts.
pub open spec fn spec_opt_obj_decodable<T: FromJson>(j: Json, key: Seq<char>) -> bool {
    match j.spec_get(key) {
        None => true,
        Some(Json::Null) => true,
        Some(x) => T::spec_decodable(x),
    }
}

/// An optional embedded object field decoded to `v`: `None` for absent or
/// `null`, otherwise a matching value.
pub open spec fn spec_opt_obj_matches<T: FromJson>(v: Option<T>, j: Json, key: Seq<char>) -> bool {
    match j.spec_get(key) {
        None => v is None,
        Some(Json::Null) => v is None,
        Some(x) => v matches Some(t) && t.spec_matches(x),
    }
}

/// Decodes an optional embedded object field.
pub fn get_opt_obj<T: FromJson>(j: &Json, key: &str) -> (r: Option<Option<T>>)
    ensures
        match r {
            Some(v) => spec_opt_obj_decodable::<T>(*j, key@) && spec_opt_obj_matches(
                v,
                *j,
                key@,
            ),
            None => !spec_opt_obj_decodable::<T>(*j, key@),
        },
{
    match j.get(key) {
        None => Some(None),
        Some(Json::Null) => Some(None),
        Some(x) => match T::from_json(x) {
            Some(v) => Some(Some(v)),
            None => None,
        },
    }
}

/// Every element of `elems` is a document `T` accepts.
pub open spec fn spec_elems_decodable<T: FromJson>(elems: Seq<Json>) -> bool {
    forall|k: int| 0 <= k < elems.len() ==> T::spec_decodable(#[trigger] elems[k])
}

/// The elements of `vs` match the documents of `elems`, pointwise.
pub open spec fn spec_elems_match<T: FromJson>(vs: Seq<T>, elems: Seq<Json>) -> bool {
    vs.len() == elems.len() && forall|k: int|
        0 <= k < elems.len() ==> (#[trigger] vs[k]).spec_matches(elems[k])
}

/// Decodes an array of documents elementwise.
pub fn array_from_json<T: FromJson>(elems: &Vec<Json>) -> (r: Option<Vec<T>>)
    ensures
        match r {
            Some(v) => spec_elems_decodable::<T>(elems@) && spec_elems_match(v@, elems@),
            None => !spec_elems_decodable::<T>(elems@),
        },
{
    let n = elems.len();
    let mut out: Vec<T> = Vec::new();
    let mut i: usize = 0;
    while i < n
        invariant
            i <= n,
            n == elems@.len(),
            out@.len() == i,
            forall|k: int| 0 <= k < i ==> T::spec_decodable(#[trigger] elems@[k]),
            forall|k: int| 0 <= k < i ==> (#[trigger] out@[k]).spec_matches(elems@[k]),
        decreases n - i,
    {
        match T::from_json(&elems[i]) {
            Some(v) => {
                out.push(v);
            },
            None => {
                return None;
            },
        }
        i += 1;
    }
    Some(out)
}

/// A required array field holds elements `T` accepts.
pub open spec fn spec_arr_decodable<T: FromJson>(j: Json, key: Seq<char>) -> bool {
    match j.spec_field_arr(key) {
        Some(es) => spec_elems_decodable::<T>(es),
        None => false,
    }
}

/// A required array field decoded to `vs`, pointwise.
pub open spec fn spec_arr_matches<T: FromJson>(vs: Seq<T>, j: Json, key: Seq<char>) -> bool {
    match j.spec_field_arr(key) {
        Some(es) => spec_elems_match(vs, es),
        None => false,
    }
}

/// Decodes a required array field.
pub fn get_arr_of<T: FromJson>(j: &Json, key: &str) -> (r: Option<Vec<T>>)
    ensures
        match r {
            Some(v) => spec_arr_decodable::<T>(*j, key@) && spec_arr_matches(v@, *j, key@),
            None => !spec_arr_decodable::<T>(*j, key@),
        },
{
    match j.get_arr(key) {
        Some(es) => array_from_json::<T>(es),
        None => None,
    }
}

/// An optional array field is absent, `null`, or an array of documents `T`
/// accepts.
pub open spec fn spec_opt_arr_decodable<T: FromJson>(j: Json, key: Seq<char>) -> bool {
    match j.spec_get(key) {
        None => true,
        Some(Json::Null) => true,
        Some(Json::Arr(es)) => spec_elems_decodable::<T>(es@),
        Some(_) => false,
    }
}

/// An optional array field decoded to `v`: `None` for absent or `null`,
/// otherwise a pointwise match.
pub open spec fn spec_opt_arr_matches<T: FromJson>(
    v: Option<Seq<T>>,
    j: Json,
    key: Seq<char>,
) -> bool {
    match j.spec_get(key) {
        None => v is None,
        Some(Json::Null) => v is None,
        Some(Json::Arr(es)) => v matches Some(vs) && spec_elems_match(vs, es@),
        Some(_) => false,
    }
}

/// Decodes an optional array field.
pub fn get_opt_arr_of<T: FromJson>(j: &Json, key: &str) -> (r: Option<Option<Vec<T>>>)
    ensures
        match r {
            Some(Some(v)) => spec_opt_arr_decodable::<T>(*j, key@) && spec_opt_arr_matches(
                Some(v@),
                *j,
                key@,
            ),
            Some(None) => spec_opt_arr_decodable::<T>(*j, key@) && spec_opt_arr_matches(
                None::<Seq<T>>,
                *j,
                key@,
            ),
            None => !spec_opt_arr_decodable::<T>(*j, key@),
        },
{
    match j.get(key) {
        None => Some(None),
        Some(Json::Null) => Some(None),
        Some(Json::Arr(es)) => match array_from_json::<T>(es) {
            Some(vs) => Some(Some(vs)),
            None => None,
        },
        Some(_) => None,
    }
}

} // verus!

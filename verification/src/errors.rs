//! Errors surfaced by this crate, and the decoding of the provider's
//! structured error payload.

use vstd::prelude::*;

verus! {

use crate::data::common::LinkDescription;
use crate::json::{get_arr_of, spec_arr_decodable, spec_arr_matches, FromJson, Json};

/// A PayPal API response error payload.
#[derive(Debug, Clone)]
pub struct PaypalError {
    /// The error name.
    pub name: String,
    /// The error message.
    pub message: Option<String>,
    /// PayPal debug id.
    pub debug_id: Option<String>,
    /// Error details: one list of `(field, value)` pairs per entry, in
    /// document order.
    pub details: Vec<Vec<(String, String)>>,
    /// Only available on Identity errors.
    pub error: Option<String>,
    /// Only available on Identity errors.
    pub error_description: Option<String>,
    /// Links with more information about the error.
    pub links: Vec<LinkDescription>,
}

/// One `details` entry is decodable when it is an object all of whose field
/// values are strings.
pub open spec fn spec_detail_ok(j: Json) -> bool {
    match j {
        Json::Obj(es) => forall|k: int| 0 <= k < es@.len() ==> es@[k].1 is Str,
        _ => false,
    }
}

/// One decoded `details` entry holds exactly the object's fields, in order.
pub open spec fn spec_detail_matches(d: Seq<(String, String)>, j: Json) -> bool {
    match j {
        Json::Obj(es) => d.len() == es@.len() && forall|k: int|
            0 <= k < es@.len() ==> (match (#[trigger] es@[k]).1 {
                Json::Str(s) => d[k].0 == es@[k].0 && d[k].1 == s,
                _ => false,
            }),
        _ => false,
    }
}

/// A details array with an entry that is not a string-valued object makes the
/// whole payload undecodable.
proof fn lemma_detail_refutes(j: Json, ds: Seq<Json>, i: int)
    requires
        j.spec_field_arr("details"@) == Some(ds),
        0 <= i < ds.len(),
        !spec_detail_ok(ds[i]),
    ensures
        !PaypalError::spec_decodable(j),
{
    let dsx = j.spec_field_arr("details"@)->Some_0;
    assert(dsx == ds);
    assert(!spec_detail_ok(dsx[i]));
    if PaypalError::spec_decodable(j) {
        assert(forall|k: int| 0 <= k < dsx.len() ==> spec_detail_ok(#[trigger] dsx[k]));
        assert(spec_detail_ok(dsx[i]));
    }
}

impl PaypalError {
    /// True when the document matches the provider error shape: a string
    /// `name`, optional string `message`, `debug_id`, `error` and
    /// `error_description`, an array `details` of string-valued objects, and
    /// an array `links` of link objects.
    pub open spec fn spec_decodable(j: Json) -> bool {
        &&& j.spec_field_string("name"@) is Some
        &&& j.spec_field_opt_string("message"@) is Some
        &&& j.spec_field_opt_string("debug_id"@) is Some
        &&& j.spec_field_opt_string("error"@) is Some
        &&& j.spec_field_opt_string("error_description"@) is Some
        &&& match j.spec_field_arr("details"@) {
            Some(ds) => forall|k: int| 0 <= k < ds.len() ==> spec_detail_ok(#[trigger] ds[k]),
            None => false,
        }
        &&& spec_arr_decodable::<LinkDescription>(j, "links"@)
    }

    /// Relates a decoded error to the document it was decoded from, field by
    /// field; each `details` entry holds exactly its object's pairs.
    pub open spec fn spec_matches(self, j: Json) -> bool {
        &&& Some(self.name) == j.spec_field_string("name"@)
        &&& Some(self.message) == j.spec_field_opt_string("message"@)
        &&& Some(self.debug_id) == j.spec_field_opt_string("debug_id"@)
        &&& Some(self.error) == j.spec_field_opt_string("error"@)
        &&& Some(self.error_description) == j.spec_field_opt_string("error_description"@)
        &&& match j.spec_field_arr("details"@) {
            Some(ds) => self.details@.len() == ds.len() && forall|i: int|
                0 <= i < ds.len() ==> spec_detail_matches((#[trigger] self.details@[i])@, ds[i]),
            None => false,
        }
        &&& spec_arr_matches::<LinkDescription>(self.links@, j, "links"@)
    }

    /// Decodes a provider error payload: succeeds exactly on documents that
    /// [`PaypalError::spec_decodable`] accepts.
    pub fn from_json(j: &Json) -> (r: Option<PaypalError>)
        ensures
            match r {
                Some(e) => Self::spec_decodable(*j) && e.spec_matches(*j),
                None => !Self::spec_decodable(*j),
            },
    {
        let name = match j.get_str("name") {
            Some(n) => n,
            None => {
                return None;
            },
        };
        let message = match j.get_opt_str("message") {
            Some(m) => m,
            None => {
                return None;
            },
        };
        let debug_id = match j.get_opt_str("debug_id") {
            Some(d) => d,
            None => {
                return None;
            },
        };
        let error = match j.get_opt_str("error") {
            Some(e) => e,
            None => {
                return None;
            },
        };
        let error_description = match j.get_opt_str("error_description") {
            Some(e) => e,
            None => {
                return None;
            },
        };
        let ds = match j.get_arr("details") {
            Some(v) => v,
            None => {
                return None;
            },
        };
        let n = ds.len();
        let mut details: Vec<Vec<(String, String)>> = Vec::new();
        let mut i: usize = 0;
        while i < n
            invariant
                i <= n,
                n == ds@.len(),
                details@.len() == i,
                j.spec_field_arr("details"@) == Some(ds@),
                forall|k: int| 0 <= k < i ==> spec_detail_ok(#[trigger] ds@[k]),
                forall|k: int|
                    0 <= k < i ==> spec_detail_matches((#[trigger] details@[k])@, ds@[k]),
            decreases n - i,
        {
            match &ds[i] {
                Json::Obj(es) => {
                    let en = es.len();
                    let mut m: Vec<(String, String)> = Vec::new();
                    let mut k: usize = 0;
                    while k < en
                        invariant
                            k <= en,
                            en == es@.len(),
                            i < ds@.len(),
                            m@.len() == k,
                            j.spec_field_arr("details"@) == Some(ds@),
                            ds@[i as int] == Json::Obj(*es),
                            forall|q: int| 0 <= q < k ==> es@[q].1 is Str,
                            forall|q: int|
                                0 <= q < k ==> (match (#[trigger] es@[q]).1 {
                                    Json::Str(s) => m@[q].0 == es@[q].0 && m@[q].1 == s,
                                    _ => false,
                                }),
                        decreases en - k,
                    {
                        let entry = &es[k];
                        proof {
                            assert(*entry == es@[k as int]);
                        }
                        match &entry.1 {
                            Json::Str(s) => {
                                m.push((entry.0.clone(), s.clone()));
                            },
                            _ => {
                                proof {
                                    assert(!(es@[k as int].1 is Str));
                                    assert(!spec_detail_ok(ds@[i as int]));
                                    lemma_detail_refutes(*j, ds@, i as int);
                                }
                                return None;
                            },
                        }
                        k += 1;
                    }
                    proof {
                        assert(spec_detail_matches(m@, ds@[i as int]));
                    }
                    details.push(m);
                },
                _ => {
                    proof {
                        assert(!spec_detail_ok(ds@[i as int]));
                        lemma_detail_refutes(*j, ds@, i as int);
                    }
                    return None;
                },
            }
            i += 1;
        }
        let links = match get_arr_of::<LinkDescription>(j, "links") {
            Some(v) => v,
            None => {
                return None;
            },
        };
        Some(PaypalError { name, message, debug_id, details, error, error_description, links })
    }
}

/// A response error: either PayPal-related, a transport failure, or a body
/// that did not match the expected schema.
#[derive(Debug, Clone)]
pub enum ResponseError {
    /// A PayPal API error.
    ApiError(PaypalError),
    /// A network, connection or TLS-level failure, with a description.
    TransportError(String),
    /// A response body that did not match the expected schema, with a
    /// description of what was expected.
    DecodeError(String),
}

/// When a currency is invalid.
#[derive(Debug, Clone, PartialEq, Eq)]
pub struct InvalidCurrencyError(pub String);

/// When a country is invalid.
#[derive(Debug, Clone, PartialEq, Eq)]
pub struct InvalidCountryError(pub String);

} // verus!

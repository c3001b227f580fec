//! The endpoint trait used to implement API endpoints: a declarative, typed
//! description of one remote operation's path, method and payload shapes.

use vstd::prelude::*;

verus! {

use vstd::string::StringExecFns;
use crate::json::FromJson;

/// The HTTP method of a request.
#[derive(Debug, Clone, Copy, PartialEq, Eq)]
pub enum Method {
    /// An HTTP GET.
    Get,
    /// An HTTP POST.
    Post,
    /// An HTTP PUT.
    Put,
    /// An HTTP DELETE.
    Delete,
    /// An HTTP PATCH.
    Patch,
}

impl Method {
    /// The upper-case name of this method.
    pub open spec fn spec_code(self) -> Seq<char> {
        match self {
            Method::Get => "GET"@,
            Method::Post => "POST"@,
            Method::Put => "PUT"@,
            Method::Delete => "DELETE"@,
            Method::Patch => "PATCH"@,
        }
    }

    /// Renders the upper-case name of this method.
    pub fn to_string(&self) -> (r: String)
        ensures
            r@ == self.spec_code(),
    {
        match self {
            Method::Get => String::from_str("GET"),
            Method::Post => String::from_str("POST"),
            Method::Put => String::from_str("PUT"),
            Method::Delete => String::from_str("DELETE"),
            Method::Patch => String::from_str("PATCH"),
        }
    }
}

/// A trait implemented by API endpoints.
pub trait Endpoint {
    /// The query type.
    type Query;

    /// The body type.
    type Body;

    /// The response type, decodable from JSON.
    type Response: FromJson;

    /// The relative path of this endpoint, as a character sequence.
    spec fn spec_path(&self) -> Seq<char>;

    /// The method of this endpoint.
    spec fn spec_method(&self) -> Method;

    /// The serialized query string, when this endpoint carries a query.
    spec fn spec_query_string(&self) -> Option<Seq<char>>;

    /// The query this endpoint carries, if any.
    spec fn spec_query(&self) -> Option<Self::Query>;

    /// The body this endpoint carries, if any.
    spec fn spec_body(&self) -> Option<Self::Body>;

    /// The endpoint relative path. Must start with `/`.
    fn relative_path(&self) -> (r: String)
        ensures
            r@ == self.spec_path(),
            r@.len() > 0,
            r@[0] == '/',
    ;

    /// The request method of this endpoint.
    fn method(&self) -> (r: Method)
        ensures
            r == self.spec_method(),
    ;

    /// The serialized query string to append when calling this endpoint.
    fn query_string(&self) -> (r: Option<String>)
        ensures
            match r {
                Some(s) => self.spec_query_string() == Some(s@),
                None => self.spec_query_string() is None,
            },
    ;

    /// The query to be used when calling this endpoint: exactly the stored
    /// query value, when there is one.
    fn query<'a>(&'a self) -> (r: Option<&'a Self::Query>)
        ensures
            match r {
                Some(q) => self.spec_query() == Some(*q),
                None => self.spec_query() is None,
            },
    ;

    /// The body to be used when calling this endpoint: exactly the stored
    /// payload value, when there is one.
    fn body<'a>(&'a self) -> (r: Option<&'a Self::Body>)
        ensures
            match r {
                Some(b) => self.spec_body() == Some(*b),
                None => self.spec_body() is None,
            },
    ;
}

} // verus!

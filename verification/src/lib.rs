//! A typed client core for the PayPal REST API: endpoint descriptors, an
//! OAuth2 client-credentials token cache with expiry tracking, request
//! construction (headers, query strings, auth assertions) and typed
//! interpretation of JSON responses.
//!
//! Network transport is deliberately left to the embedding application: the
//! library decides *what* request to send and *what* a response means, as
//! plain values, so that every decision is verified.

use vstd::prelude::*;

pub mod api;
pub mod client;
pub mod countries;
pub mod data;
pub mod endpoint;
pub mod errors;
pub mod invoice;
pub mod json;
pub mod querystr;
pub mod request;
pub mod strutil;

verus! {

/// The PayPal API endpoint used on a live application.
pub const LIVE_ENDPOINT: &'static str = "https://api-m.paypal.com";

/// The PayPal API endpoint used when testing.
pub const SANDBOX_ENDPOINT: &'static str = "https://api-m.sandbox.paypal.com";

use crate::querystr::{
    i32_to_string, percent_encode, spec_decimal, spec_join_pairs, spec_pair_views, join_pairs,
    spec_pct_bytes, lemma_pair_views_concat,
};
use vstd::string::StringExecFns;
use vstd::string::StringSliceAdditionalSpecFns;
use vstd::utf8::encode_utf8;

/// One optional `key=value` pair: a one-pair segment when the value is set,
/// an empty segment when it is not.
pub open spec fn opt_seg(key: Seq<char>, v: Option<Seq<char>>) -> Seq<(Seq<char>, Seq<char>)> {
    match v {
        Some(s) => seq![(key, s)],
        None => Seq::empty(),
    }
}

/// The rendering of a boolean query value.
pub open spec fn spec_bool_str(b: bool) -> Seq<char> {
    if b {
        "true"@
    } else {
        "false"@
    }
}

/// Represents the query used in most GET API requests.
///
/// Reference: <https://developer.paypal.com/docs/api/reference/api-requests/#query-parameters>
///
/// The date-time bounds are RFC 3339 text, handed through as given.
#[derive(Debug, Default, Clone)]
pub struct Query {
    /// The number of items to list in the response.
    pub count: Option<i32>,
    /// The end date and time for the range to show in the response, as RFC 3339 text.
    pub end_time: Option<String>,
    /// The page number indicating which set of items will be returned in the response.
    pub page: Option<i32>,
    /// The number of items to return in the response.
    pub page_size: Option<i32>,
    /// Indicates whether to show the total count in the response. Its wire
    /// name is `total_required`.
    pub total_count_required: Option<bool>,
    /// Sorts the payments in the response by a specified value.
    pub sort_by: Option<String>,
    /// Sorts the items in the response in ascending or descending order.
    pub sort_order: Option<String>,
    /// The ID of the starting resource in the response.
    pub start_id: Option<String>,
    /// The start index of the payments to list.
    pub start_index: Option<i32>,
    /// The start date and time for the range to show in the response, as RFC 3339 text.
    pub start_time: Option<String>,
}

impl Query {
    /// The `count` segment of the query.
    pub open spec fn seg_count(self) -> Seq<(Seq<char>, Seq<char>)> {
        opt_seg(
            "count"@,
            match self.count {
                Some(n) => Some(spec_decimal(n as int)),
                None => None,
            },
        )
    }

    /// The `end_time` segment of the query.
    pub open spec fn seg_end_time(self) -> Seq<(Seq<char>, Seq<char>)> {
        opt_seg(
            "end_time"@,
            match self.end_time {
                Some(s) => Some(spec_pct_bytes(encode_utf8(s@))),
                None => None,
            },
        )
    }

    /// The `page` segment of the query.
    pub open spec fn seg_page(self) -> Seq<(Seq<char>, Seq<char>)> {
        opt_seg(
            "page"@,
            match self.page {
                Some(n) => Some(spec_decimal(n as int)),
                None => None,
            },
        )
    }

    /// The `page_size` segment of the query.
    pub open spec fn seg_page_size(self) -> Seq<(Seq<char>, Seq<char>)> {
        opt_seg(
            "page_size"@,
            match self.page_size {
                Some(n) => Some(spec_decimal(n as int)),
                None => None,
            },
        )
    }

    /// The `total_count_required` segment of the query, under its wire name
    /// `total_required`.
    pub open spec fn seg_total_count_required(self) -> Seq<(Seq<char>, Seq<char>)> {
        opt_seg(
            "total_required"@,
            match self.total_count_required {
                Some(b) => Some(spec_bool_str(b)),
                None => None,
            },
        )
    }

    /// The `sort_by` segment of the query.
    pub open spec fn seg_sort_by(self) -> Seq<(Seq<char>, Seq<char>)> {
        opt_seg(
            "sort_by"@,
            match self.sort_by {
                Some(s) => Some(spec_pct_bytes(encode_utf8(s@))),
                None => None,
            },
        )
    }

    /// The `sort_order` segment of the query.
    pub open spec fn seg_sort_order(self) -> Seq<(Seq<char>, Seq<char>)> {
        opt_seg(
            "sort_order"@,
            match self.sort_order {
                Some(s) => Some(spec_pct_bytes(encode_utf8(s@))),
                None => None,
            },
        )
    }

    /// The `start_id` segment of the query.
    pub open spec fn seg_start_id(self) -> Seq<(Seq<char>, Seq<char>)> {
        opt_seg(
            "start_id"@,
            match self.start_id {
                Some(s) => Some(spec_pct_bytes(encode_utf8(s@))),
                None => None,
            },
        )
    }

    /// The `start_index` segment of the query.
    pub open spec fn seg_start_index(self) -> Seq<(Seq<char>, Seq<char>)> {
        opt_seg(
            "start_index"@,
            match self.start_index {
                Some(n) => Some(spec_decimal(n as int)),
                None => None,
            },
        )
    }

    /// The `start_time` segment of the query.
    pub open spec fn seg_start_time(self) -> Seq<(Seq<char>, Seq<char>)> {
        opt_seg(
            "start_time"@,
            match self.start_time {
                Some(s) => Some(spec_pct_bytes(encode_utf8(s@))),
                None => None,
            },
        )
    }

    /// The `key=value` pairs of this query: set fields only, in field order,
    /// numbers in decimal, strings percent-encoded.
    pub open spec fn spec_pairs(self) -> Seq<(Seq<char>, Seq<char>)> {
        self.seg_count() + self.seg_end_time() + self.seg_page() + self.seg_page_size()
            + self.seg_total_count_required() + self.seg_sort_by() + self.seg_sort_order()
            + self.seg_start_id() + self.seg_start_index() + self.seg_start_time()
    }

    /// The serialized query string of this query: its pairs joined with `&`,
    /// empty when no field is set.
    pub open spec fn spec_query_string(self) -> Seq<char> {
        spec_join_pairs(self.spec_pairs())
    }

    /// Serializes the query, exactly as [`Query::spec_query_string`] says:
    /// unset optional fields are omitted, not emitted as empty.
    pub fn to_query_string(&self) -> (r: String)
        ensures
            r@ == self.spec_query_string(),
    {
        let mut ps = seg_i32("count", &self.count);
        proof {
            assert(spec_pair_views(ps@) == self.seg_count());
        }
        let ghost g1 = ps@;
        let mut s2 = seg_str("end_time", &self.end_time);
        let ghost h2 = s2@;
        ps.append(&mut s2);
        proof {
            lemma_pair_views_concat(g1, h2);
            assert(spec_pair_views(ps@) == self.seg_count() + self.seg_end_time());
        }
        let ghost g2 = ps@;
        let mut s3 = seg_i32("page", &self.page);
        let ghost h3 = s3@;
        ps.append(&mut s3);
        proof {
            lemma_pair_views_concat(g2, h3);
            assert(spec_pair_views(ps@) == self.seg_count() + self.seg_end_time()
                + self.seg_page());
        }
        let ghost g3 = ps@;
        let mut s4 = seg_i32("page_size", &self.page_size);
        let ghost h4 = s4@;
        ps.append(&mut s4);
        proof {
            lemma_pair_views_concat(g3, h4);
            assert(spec_pair_views(ps@) == self.seg_count() + self.seg_end_time()
                + self.seg_page() + self.seg_page_size());
        }
        let ghost g4 = ps@;
        let mut s5 = seg_bool("total_required", &self.total_count_required);
        let ghost h5 = s5@;
        ps.append(&mut s5);
        proof {
            lemma_pair_views_concat(g4, h5);
            assert(spec_pair_views(ps@) == self.seg_count() + self.seg_end_time()
                + self.seg_page() + self.seg_page_size() + self.seg_total_count_required());
        }
        let ghost g5 = ps@;
        let mut s6 = seg_str("sort_by", &self.sort_by);
        let ghost h6 = s6@;
        ps.append(&mut s6);
        proof {
            lemma_pair_views_concat(g5, h6);
            assert(spec_pair_views(ps@) == self.seg_count() + self.seg_end_time()
                + self.seg_page() + self.seg_page_size() + self.seg_total_count_required()
                + self.seg_sort_by());
        }
        let ghost g6 = ps@;
        let mut s7 = seg_str("sort_order", &self.sort_order);
        let ghost h7 = s7@;
        ps.append(&mut s7);
        proof {
            lemma_pair_views_concat(g6, h7);
            assert(spec_pair_views(ps@) == self.seg_count() + self.seg_end_time()
                + self.seg_page() + self.seg_page_size() + self.seg_total_count_required()
                + self.seg_sort_by() + self.seg_sort_order());
        }
        let ghost g7 = ps@;
        let mut s8 = seg_str("start_id", &self.start_id);
        let ghost h8 = s8@;
        ps.append(&mut s8);
        proof {
            lemma_pair_views_concat(g7, h8);
            assert(spec_pair_views(ps@) == self.seg_count() + self.seg_end_time()
                + self.seg_page() + self.seg_page_size() + self.seg_total_count_required()
                + self.seg_sort_by() + self.seg_sort_order() + self.seg_start_id());
        }
        let ghost g8 = ps@;
        let mut s9 = seg_i32("start_index", &self.start_index);
        let ghost h9 = s9@;
        ps.append(&mut s9);
        proof {
            lemma_pair_views_concat(g8, h9);
            assert(spec_pair_views(ps@) == self.seg_count() + self.seg_end_time()
                + self.seg_page() + self.seg_page_size() + self.seg_total_count_required()
                + self.seg_sort_by() + self.seg_sort_order() + self.seg_start_id()
                + self.seg_start_index());
        }
        let ghost g9 = ps@;
        let mut s10 = seg_str("start_time", &self.start_time);
        let ghost h10 = s10@;
        ps.append(&mut s10);
        proof {
            lemma_pair_views_concat(g9, h10);
            assert(spec_pair_views(ps@) == self.spec_pairs());
        }
        join_pairs(&ps)
    }
}


/// The segment of one optional decimal query field.
fn seg_i32(key: &str, v: &Option<i32>) -> (r: Vec<(String, String)>)
    ensures
        spec_pair_views(r@) == opt_seg(
            key@,
            match *v {
                Some(n) => Some(spec_decimal(n as int)),
                None => None,
            },
        ),
{
    match v {
        Some(n) => {
            let mut r: Vec<(String, String)> = Vec::new();
            r.push((String::from_str(key), i32_to_string(*n)));
            proof {
                assert(spec_pair_views(r@) =~= seq![(key@, spec_decimal(*n as int))]);
            }
            r
        },
        None => {
            let r: Vec<(String, String)> = Vec::new();
            proof {
                assert(spec_pair_views(r@) =~= Seq::<(Seq<char>, Seq<char>)>::empty());
            }
            r
        },
    }
}

/// The segment of one optional percent-encoded string query field.
fn seg_str(key: &str, v: &Option<String>) -> (r: Vec<(String, String)>)
    ensures
        spec_pair_views(r@) == opt_seg(
            key@,
            match *v {
                Some(s) => Some(spec_pct_bytes(encode_utf8(s@))),
                None => None,
            },
        ),
{
    match v {
        Some(s) => {
            let mut r: Vec<(String, String)> = Vec::new();
            r.push((String::from_str(key), percent_encode(s.as_str())));
            proof {
                assert(spec_pair_views(r@) =~= seq![(key@, spec_pct_bytes(encode_utf8(s@)))]);
            }
            r
        },
        None => {
            let r: Vec<(String, String)> = Vec::new();
            proof {
                assert(spec_pair_views(r@) =~= Seq::<(Seq<char>, Seq<char>)>::empty());
            }
            r
        },
    }
}

/// The segment of one optional boolean query field.
fn seg_bool(key: &str, v: &Option<bool>) -> (r: Vec<(String, String)>)
    ensures
        spec_pair_views(r@) == opt_seg(
            key@,
            match *v {
                Some(b) => Some(spec_bool_str(b)),
                None => None,
            },
        ),
{
    match v {
        Some(b) => {
            let mut r: Vec<(String, String)> = Vec::new();
            let val = if *b {
                String::from_str("true")
            } else {
                String::from_str("false")
            };
            r.push((String::from_str(key), val));
            proof {
                assert(spec_pair_views(r@) =~= seq![(key@, spec_bool_str(*b))]);
            }
            r
        },
        None => {
            let r: Vec<(String, String)> = Vec::new();
            proof {
                assert(spec_pair_views(r@) =~= Seq::<(Seq<char>, Seq<char>)>::empty());
            }
            r
        },
    }
}

/// Query omission: a query object with all optional fields unset has no
/// pairs, so it serializes to the empty query string, and the dispatcher then
/// appends no `?` at all.
pub proof fn lemma_empty_query_string(q: Query)
    requires
        q.count is None,
        q.end_time is None,
        q.page is None,
        q.page_size is None,
        q.total_count_required is None,
        q.sort_by is None,
        q.sort_order is None,
        q.start_id is None,
        q.start_index is None,
        q.start_time is None,
    ensures
        q.spec_query_string() == Seq::<char>::empty(),
{
    assert(q.spec_pairs() =~= Seq::<(Seq<char>, Seq<char>)>::empty());
}

/// Represents the optional header values used on PayPal requests.
///
/// <https://developer.paypal.com/docs/api/reference/api-requests/#paypal-auth-assertion>
#[derive(Debug, Clone)]
pub struct HeaderParams {
    /// The merchant payer id used on PayPal-Auth-Assertion.
    pub merchant_payer_id: Option<String>,
    /// Verifies that the payment originates from a valid, user-consented
    /// device and application, reducing fraud and declines.
    pub client_metadata_id: Option<String>,
    /// Identifies the caller as a PayPal partner, as a unique build notation
    /// code, for revenue attribution.
    pub partner_attribution_id: Option<String>,
    /// A unique user-generated ID that the server stores for a period of
    /// time, to enforce idempotency on REST API POST calls.
    pub request_id: Option<String>,
    /// The preferred server response upon successful completion, such as
    /// `return=minimal` or `return=representation`. When unset, no Prefer
    /// header is sent and the provider's default representation applies.
    pub prefer: Option<String>,
    /// The media type. Required for operations with a request body.
    pub content_type: Option<String>,
}

impl Default for HeaderParams {
    /// Header parameters with no override set.
    fn default() -> (r: Self)
        ensures
            r.merchant_payer_id is None,
            r.client_metadata_id is None,
            r.partner_attribution_id is None,
            r.request_id is None,
            r.prefer is None,
            r.content_type is None,
    {
        HeaderParams {
            merchant_payer_id: None,
            client_metadata_id: None,
            partner_attribution_id: None,
            request_id: None,
            prefer: None,
            content_type: None,
        }
    }
}

} // verus!

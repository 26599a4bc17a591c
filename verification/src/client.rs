//! Construction of the search request: the fixed endpoint, the fixed sort
//! expression and magazine query, and the query parameters of one call.
//! The caller sends the GET request and hands the response body back to the
//! response parser; nothing here touches the network.

use vstd::prelude::*;

verus! {

use crate::numfmt::{spec_decimal, usize_to_decimal};
use vstd::string::StringExecFns;

/// The fixed search endpoint.
pub const SEARCH_ENDPOINT: &'static str = "https://cordis.europa.eu/search/en";

/// The fixed sort expression: most recently updated articles first.
pub const SORT_EXPRESSION: &'static str = "/article/contentUpdateDate:decreasing";

/// The filter that selects English magazine articles.
pub const ENGLISH_MAGAZINE_QUERY: &'static str =
    "/article/relations/categories/collection/code='mag' AND language='en'";

/// The page size requested of the server on every search call. The same
/// value is stored in each parsed response, so the pagination arithmetic
/// and the requests it drives always agree.
pub const PAGE_LIMIT: usize = 10;

/// The query parameters of one search call, in order: the free-text query,
/// the page number and the page size in decimal, the fixed sort expression,
/// and the XML output format.
pub fn search_query_params(query: &str, page: usize, limit: usize) -> (r: Vec<(String, String)>)
    ensures
        r@.len() == 5,
        r@[0].0@ == "q"@ && r@[0].1@ == query@,
        r@[1].0@ == "p"@ && r@[1].1@ == spec_decimal(page as nat),
        r@[2].0@ == "num"@ && r@[2].1@ == spec_decimal(limit as nat),
        r@[3].0@ == "srt"@ && r@[3].1@ == SORT_EXPRESSION@,
        r@[4].0@ == "format"@ && r@[4].1@ == "xml"@,
{
    let mut r: Vec<(String, String)> = Vec::new();
    r.push((String::from_str("q"), query.to_owned()));
    r.push((String::from_str("p"), usize_to_decimal(page)));
    r.push((String::from_str("num"), usize_to_decimal(limit)));
    r.push((String::from_str("srt"), String::from_str(SORT_EXPRESSION)));
    r.push((String::from_str("format"), String::from_str("xml")));
    r
}

} // verus!

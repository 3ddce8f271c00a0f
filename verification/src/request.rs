//! The outbound request of a scan: its URL and its fixed headers.

use crate::text::{decimal, push_decimal};
use vstd::prelude::*;
use vstd::string::StringExecFns;

verus! {

/// The one GET request of a scan. The host sends it and hands the answer
/// back.
#[derive(Debug, Clone, PartialEq, Eq)]
pub struct Request {
    pub url: String,
    pub headers: Vec<(String, String)>,
}

/// The mathematical value of a [`Request`].
pub ghost struct RequestModel {
    pub url: Seq<char>,
    pub headers: Seq<(Seq<char>, Seq<char>)>,
}

/// The values of a list of headers.
pub open spec fn headers_model(headers: Seq<(String, String)>) -> Seq<(Seq<char>, Seq<char>)> {
    headers.map_values(|header: (String, String)| (header.0@, header.1@))
}

impl View for Request {
    type V = RequestModel;

    open spec fn view(&self) -> RequestModel {
        RequestModel { url: self.url@, headers: headers_model(self.headers@) }
    }
}

/// The address of the service where the server options name none.
pub open spec fn default_base_url() -> Seq<char> {
    "https://api.corrently.io"@
}

/// The headers of every request: who is asking, and for what format.
pub open spec fn fixed_headers() -> Seq<(Seq<char>, Seq<char>)> {
    seq![
        ("user-agent"@, "Supabase Wrappers Corrently FDW"@),
        ("accept"@, "application/json"@),
    ]
}

/// The hours-ahead limit that a scan takes from an integer: the integer
/// where it is not negative, and no limit otherwise.
pub open spec fn hours_limit(hours: Option<i64>) -> Option<i64> {
    match hours {
        Some(hours) if hours >= 0 => Some(hours),
        _ => None,
    }
}

/// The URL of the prediction endpoint under `base_url`, with the location
/// and the credential as query parameters and the hours after them where
/// the query limits them. A negative number of hours is no limit and is not
/// written. Nothing is escaped.
pub open spec fn request_url(
    base_url: Seq<char>,
    postal_code: Seq<char>,
    api_key: Seq<char>,
    hours: Option<i64>,
) -> Seq<char> {
    let required = base_url + "/v2.0/gsi/prediction?zip="@ + postal_code + "&token="@ + api_key;
    match hours_limit(hours) {
        Some(hours) => required + "&hours="@ + decimal(hours as int),
        None => required,
    }
}

/// Takes the hours-ahead limit from an integer: a negative one is dropped.
pub fn limit_hours(hours: Option<i64>) -> (r: Option<i64>)
    ensures
        r == hours_limit(hours),
{
    match hours {
        Some(hours) => if hours >= 0 {
            Some(hours)
        } else {
            None
        },
        None => None,
    }
}

/// Builds the URL of the request.
pub fn build_url(base_url: &str, postal_code: &str, api_key: &str, hours: Option<i64>) -> (r:
    String)
    ensures
        r@ == request_url(base_url@, postal_code@, api_key@, hours),
{
    let mut url = String::from_str(base_url);
    url.append("/v2.0/gsi/prediction?zip=");
    url.append(postal_code);
    url.append("&token=");
    url.append(api_key);
    if let Some(hours) = limit_hours(hours) {
        url.append("&hours=");
        push_decimal(&mut url, hours);
    }
    url
}

/// Builds the headers of the request.
pub fn build_headers() -> (r: Vec<(String, String)>)
    ensures
        headers_model(r@) == fixed_headers(),
{
    let mut headers: Vec<(String, String)> = Vec::new();
    headers.push((String::from_str("user-agent"), String::from_str("Supabase Wrappers Corrently FDW")));
    headers.push((String::from_str("accept"), String::from_str("application/json")));
    assert(headers_model(headers@) =~= fixed_headers());
    headers
}

/// Copies a list of headers.
pub fn copy_headers(headers: &Vec<(String, String)>) -> (r: Vec<(String, String)>)
    ensures
        headers_model(r@) == headers_model(headers@),
{
    let mut copy: Vec<(String, String)> = Vec::new();
    let mut index: usize = 0;
    while index < headers.len()
        invariant
            index <= headers.len(),
            copy.len() == index,
            forall|at: int|
                0 <= at < index ==> (#[trigger] copy[at]).0@ == headers[at].0@ && copy[at].1@
                    == headers[at].1@,
        decreases headers.len() - index,
    {
        let header = &headers[index];
        copy.push((header.0.clone(), header.1.clone()));
        index += 1;
    }
    assert(headers_model(copy@) =~= headers_model(headers@));
    copy
}

} // verus!

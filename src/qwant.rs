//! Qwant search: the domain shown for a result and the shapes of the API's
//! responses.

use vstd::prelude::*;

verus! {

pub uninterp spec fn url_host(s: Seq<char>) -> Option<Seq<char>>;

/// Relies on `url::Url::parse` and `Url::host_str`: the host of the URL, or
/// `None` where the text does not parse or the URL has no host. The result
/// depends on the text alone.
#[verifier::external_body]
fn parsed_host(s: &str) -> (r: Option<String>)
    ensures
        r matches Some(h) ==> url_host(s@) == Some(h@),
        r is None ==> url_host(s@) is None,
{
    match url::Url::parse(s) {
        Ok(u) => u.host_str().map(|h| h.to_owned()),
        Err(_) => None,
    }
}

/// The domain for a result given the parsed host: the host, else `unknown`.
pub open spec fn result_domain(host: Option<Seq<char>>) -> Seq<char> {
    match host {
        Some(h) => h,
        None => "unknown"@,
    }
}

/// The domain of a result URL: its host, or `unknown`.
pub fn extract_domain(url: &str) -> (r: String)
    ensures
        r@ == result_domain(url_host(url@)),
{
    match parsed_host(url) {
        Some(h) => h,
        None => "unknown".to_owned(),
    }
}

pub struct QwantResponse {
    pub status: String,
    pub data: Option<QwantData>,
}

pub struct QwantData {
    pub result: QwantResult,
}

pub struct QwantResult {
    pub items: Option<Vec<QwantItem>>,
    pub total: Option<u64>,
}

pub struct QwantItem {
    pub title: String,
    pub url: String,
    pub desc: Option<String>,
    pub favicon: Option<String>,
    pub source: Option<String>,
}

pub struct QwantImageResponse {
    pub data: Option<QwantImageData>,
}

pub struct QwantImageData {
    pub result: QwantImageResult,
}

pub struct QwantImageResult {
    pub items: Option<Vec<ImageResult>>,
}

#[derive(Debug, Clone)]
pub struct ImageResult {
    pub title: String,
    pub url: String,
    pub thumbnail: String,
    pub media: String,
    pub width: Option<u32>,
    pub height: Option<u32>,
}

pub struct QwantNewsResponse {
    pub data: Option<QwantNewsData>,
}

pub struct QwantNewsData {
    pub result: QwantNewsResult,
}

pub struct QwantNewsResult {
    pub items: Option<Vec<NewsResult>>,
}

#[derive(Debug, Clone)]
pub struct NewsResult {
    pub title: String,
    pub url: String,
    pub desc: Option<String>,
    pub source: Option<String>,
    pub date: Option<String>,
}

/// The items of a web search response; none where the response has no data
/// or no items.
pub fn response_items(resp: QwantResponse) -> (r: Vec<QwantItem>)
    ensures
        r@ == match resp.data {
            Some(d) => match d.result.items {
                Some(v) => v@,
                None => Seq::empty(),
            },
            None => Seq::empty(),
        },
{
    match resp.data {
        Some(d) => match d.result.items {
            Some(v) => v,
            None => Vec::new(),
        },
        None => Vec::new(),
    }
}

} // verus!

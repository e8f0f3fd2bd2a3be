//! Image search at DuckDuckGo: what is asked and what is made of the
//! answers.

use vstd::prelude::*;
use crate::api::artwork::{url_encode, url_encoded};
use crate::pattern::{capture_group, regex_capture};
use crate::text::{concat3, optional_view};

verus! {

/// User agent for requests where none is configured.
pub const DEFAULT_USER_AGENT: &'static str =
    "Mozilla/5.0 (Macintosh; Intel Mac OS X 10_15_7) AppleWebKit/537.36 (KHTML, like Gecko) Chrome/120.0.0.0 Safari/537.36";

/// One image that a search found.
#[derive(Debug, Clone)]
pub struct ImageResult {
    /// Address of the image in full size.
    pub image_url: String,
    /// Address of the thumbnail.
    pub thumbnail_url: String,
    /// Title of the image.
    pub title: String,
    /// Site of the image.
    pub source: String,
    /// Width, if known.
    pub width: Option<u32>,
    /// Height, if known.
    pub height: Option<u32>,
}

/// Pattern of a token in quotes.
pub open spec fn quoted_token_pattern() -> Seq<char> {
    r#"vqd=["']([^"']+)["']"#@
}

/// Pattern of a token in a query string.
pub open spec fn plain_token_pattern() -> Seq<char> {
    r#"vqd=([^&"']+)"#@
}

/// Pattern of a token in an encoded query string.
pub open spec fn encoded_token_pattern() -> Seq<char> {
    r#"vqd%3D([^&]+)"#@
}

/// Pattern of a token in a script.
pub open spec fn script_token_pattern() -> Seq<char> {
    r#"vqd\s*[:=]\s*["']?([a-zA-Z0-9_-]+)"#@
}

/// What the first group of a pattern captures in a page, if that is
/// longer than ten bytes.
pub open spec fn token_by(pattern: Seq<char>, page: Seq<char>) -> Option<Seq<char>> {
    match regex_capture(pattern, page, 1) {
        Some(token) => if vstd::utf8::encode_utf8(token).len() > 10 {
            Some(token)
        } else {
            None
        },
        None => None,
    }
}

/// The search token of a page: what the first of the four patterns that
/// finds a token long enough captures.
pub open spec fn token_of_page(page: Seq<char>) -> Option<Seq<char>> {
    if token_by(quoted_token_pattern(), page) is Some {
        token_by(quoted_token_pattern(), page)
    } else if token_by(plain_token_pattern(), page) is Some {
        token_by(plain_token_pattern(), page)
    } else if token_by(encoded_token_pattern(), page) is Some {
        token_by(encoded_token_pattern(), page)
    } else {
        token_by(script_token_pattern(), page)
    }
}

/// The address of the search page for a query.
pub fn search_page_url(query: &str) -> (r: String)
    ensures
        r@ == "https://duckduckgo.com/?q="@ + url_encoded(query@) + "&ia=images&iax=images"@,
{
    let encoded = url_encode(query);
    concat3("https://duckduckgo.com/?q=", encoded.as_str(), "&ia=images&iax=images")
}

/// The address of the image results for a query and its token.
pub fn image_results_url(query: &str, vqd: &str) -> (r: String)
    ensures
        r@ == "https://duckduckgo.com/i.js?l=us-en&o=json&q="@ + url_encoded(query@) + "&vqd="@
            + url_encoded(vqd@) + "&f=,,,,,&p=1"@,
{
    let q = url_encode(query);
    let v = url_encode(vqd);
    let head = concat3("https://duckduckgo.com/i.js?l=us-en&o=json&q=", q.as_str(), "&vqd=");
    concat3(head.as_str(), v.as_str(), "&f=,,,,,&p=1")
}

/// What the first group of a pattern captures in a page, if that is long
/// enough for a token.
fn token_with(pattern: &str, page: &str) -> (r: Option<String>)
    ensures
        optional_view(r) == token_by(pattern@, page@),
{
    match capture_group(pattern, page, 1) {
        Some(token) => {
            if token.as_str().as_bytes().len() > 10 {
                Some(token)
            } else {
                None
            }
        },
        None => None,
    }
}

/// Finds the search token in the text of a search page.
pub fn find_vqd_token(page: &str) -> (r: Result<String, String>)
    ensures
        match r {
            Ok(token) => token_of_page(page@) == Some(token@),
            Err(e) => token_of_page(page@) is None && e@
                == "Could not find vqd token in search page"@,
        },
{
    match token_with(r#"vqd=["']([^"']+)["']"#, page) {
        Some(token) => {
            return Ok(token);
        },
        None => {},
    }
    match token_with(r#"vqd=([^&"']+)"#, page) {
        Some(token) => {
            return Ok(token);
        },
        None => {},
    }
    match token_with(r#"vqd%3D([^&]+)"#, page) {
        Some(token) => {
            return Ok(token);
        },
        None => {},
    }
    match token_with(r#"vqd\s*[:=]\s*["']?([a-zA-Z0-9_-]+)"#, page) {
        Some(token) => Ok(token),
        None => Err("Could not find vqd token in search page".to_owned()),
    }
}

} // verus!

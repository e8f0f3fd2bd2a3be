//! The Discogs service: what is asked of it and what is made of its
//! answers.

use vstd::prelude::*;
use crate::api::artwork::{url_encode, url_encoded};
use crate::text::number::decimal_text;
use crate::text::search::{find_in, find_sub};
use crate::text::{
    chars_of, concat2, concat3, copy_range, lowercase_text, message_with_number, str_eq, string_of,
    string_views, to_lowercase,
};

verus! {

/// A result of a search at Discogs.
#[derive(Debug, Clone)]
pub struct DiscogsResult {
    /// Title of the release.
    pub title: String,
    /// Artist.
    pub artist: String,
    /// Year of the release.
    pub year: Option<u32>,
    /// Address of the image.
    pub image_url: Option<String>,
    /// Address of the thumbnail.
    pub thumbnail_url: Option<String>,
    /// Identifier at Discogs.
    pub discogs_id: u64,
    /// Kind of result, such as "release" or "master".
    pub result_type: String,
}

/// Whether an artist, in lower case, names nobody in particular.
pub open spec fn unnamed_artist(lower: Seq<char>) -> bool {
    lower == "various artists"@ || lower == "various"@ || lower == "va"@ || lower
        == "unknown artist"@
}

/// The text that is searched for: artist and title, or the title alone
/// where the artist names nobody in particular.
pub open spec fn query_of(artist: Seq<char>, title: Seq<char>) -> Seq<char> {
    if unnamed_artist(lowercase_text(artist)) {
        title
    } else {
        artist + " "@ + title
    }
}

/// Artist and title of a result's title: what stands before and after the
/// first " - "; without one, the artist is unknown.
pub open spec fn credits_of(title: Seq<char>) -> (Seq<char>, Seq<char>) {
    match find_sub(title, " - "@) {
        Some(at) => (title.take(at), title.skip(at + 3)),
        None => ("Unknown"@, title),
    }
}

/// The addresses of a release's images, the primary ones first: each
/// primary image goes to the front, each other image to the end, and an
/// image without an address is left out.
pub open spec fn ordered_images(images: Seq<(bool, Option<Seq<char>>)>) -> Seq<Seq<char>>
    decreases images.len(),
{
    if images.len() == 0 {
        Seq::empty()
    } else {
        let rest = ordered_images(images.drop_last());
        match images.last().1 {
            Some(uri) => if images.last().0 {
                rest.insert(0, uri)
            } else {
                rest.push(uri)
            },
            None => rest,
        }
    }
}

/// Images as plain values: whether it is primary, and its address.
pub open spec fn image_models(images: Seq<(bool, Option<String>)>) -> Seq<(bool, Option<Seq<char>>)> {
    Seq::new(images.len(), |i: int| (images[i].0, crate::text::optional_view(images[i].1)))
}

/// The text that is searched for.
pub fn search_query(artist: &str, title: &str) -> (r: String)
    ensures
        r@ == query_of(artist@, title@),
{
    let lower = to_lowercase(artist);
    if str_eq(lower.as_str(), "various artists") || str_eq(lower.as_str(), "various") || str_eq(
        lower.as_str(),
        "va",
    ) || str_eq(lower.as_str(), "unknown artist") {
        title.to_owned()
    } else {
        concat3(artist, " ", title)
    }
}

/// The address of a search for releases.
pub fn search_url(query: &str) -> (r: String)
    ensures
        r@ == "https://api.discogs.com/database/search?q="@ + url_encoded(query@)
            + "&type=release&per_page=10"@,
{
    let encoded = url_encode(query);
    concat3(
        "https://api.discogs.com/database/search?q=",
        encoded.as_str(),
        "&type=release&per_page=10",
    )
}

/// The address of the details of a release or of a master release.
pub fn release_url(release_id: u64, is_master: bool) -> (r: String)
    ensures
        r@ == (if is_master {
            "https://api.discogs.com/masters/"@
        } else {
            "https://api.discogs.com/releases/"@
        }) + decimal_text(release_id as nat),
{
    if is_master {
        message_with_number("https://api.discogs.com/masters/", release_id)
    } else {
        message_with_number("https://api.discogs.com/releases/", release_id)
    }
}

/// The value of the authorization header for a key and its secret.
pub fn authorization_value(consumer_key: &str, consumer_secret: &str) -> (r: String)
    ensures
        r@ == "Discogs key="@ + consumer_key@ + ", secret="@ + consumer_secret@,
{
    let head = concat3("Discogs key=", consumer_key, ", secret=");
    concat2(head.as_str(), consumer_secret)
}

/// Artist and title of a result's title.
pub fn split_credits(title: &str) -> (r: (String, String))
    ensures
        (r.0@, r.1@) == credits_of(title@),
{
    let text = chars_of(title);
    let dash = chars_of(" - ");
    proof {
        reveal_strlit(" - ");
    }
    match find_in(text.as_slice(), dash.as_slice()) {
        Some(at) => {
            proof {
                reveal_strlit(" - ");
                assert(dash@.len() == 3);
                vstd::std_specs::vec::axiom_spec_len(&text);
            }
            let artist = copy_range(text.as_slice(), 0, at);
            let rest = copy_range(text.as_slice(), at + 3, text.len());
            proof {
                assert(text@.take(at as int) =~= text@.subrange(0, at as int));
                assert(text@.skip(at + 3) =~= text@.subrange(at + 3, text@.len() as int));
            }
            (string_of(artist.as_slice()), string_of(rest.as_slice()))
        },
        None => ("Unknown".to_owned(), title.to_owned()),
    }
}

/// The addresses of a release's images, the primary ones first.
pub fn order_images(images: &Vec<(bool, Option<String>)>) -> (r: Vec<String>)
    ensures
        string_views(r@) == ordered_images(image_models(images@)),
{
    let mut out: Vec<String> = Vec::new();
    let mut i: usize = 0;
    while i < images.len()
        invariant
            i <= images@.len(),
            string_views(out@) == ordered_images(image_models(images@).take(i as int)),
        decreases images@.len() - i,
    {
        let ghost before = out@;
        proof {
            let all = image_models(images@);
            assert(all.take(i + 1).drop_last() =~= all.take(i as int));
        }
        match &images[i].1 {
            Some(uri) => {
                if images[i].0 {
                    out.insert(0, uri.clone());
                    assert(string_views(out@) =~= string_views(before).insert(0, uri@));
                } else {
                    out.push(uri.clone());
                    assert(string_views(out@) =~= string_views(before).push(uri@));
                }
            },
            None => {},
        }
        i = i + 1;
    }
    assert(image_models(images@).take(i as int) =~= image_models(images@));
    out
}

} // verus!

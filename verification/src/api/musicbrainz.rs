//! The MusicBrainz service and the Cover Art Archive: what is asked of
//! them and what is made of their answers.

use vstd::prelude::*;
use crate::text::{concat2, concat3, optional_view};

verus! {

/// A release found at MusicBrainz.
#[derive(Debug, Clone)]
pub struct MusicBrainzResult {
    /// Title of the release.
    pub title: String,
    /// Artist.
    pub artist: String,
    /// Date of the release.
    pub date: Option<String>,
    /// Identifier of the release.
    pub release_id: String,
    /// Address of the cover art.
    pub cover_art_url: Option<String>,
    /// Address of the thumbnail.
    pub thumbnail_url: Option<String>,
}

/// The thumbnails of an image of the archive, by size.
#[derive(Debug, Clone)]
pub struct CoverArtThumbnails {
    /// 250 pixels.
    pub small: Option<String>,
    /// 500 pixels.
    pub medium: Option<String>,
    /// 1200 pixels.
    pub large: Option<String>,
}

/// An image of the archive.
#[derive(Debug, Clone)]
pub struct CoverArtImage {
    /// Address of the image.
    pub image: String,
    /// Its thumbnails, if it has any.
    pub thumbnails: Option<CoverArtThumbnails>,
    /// Whether it shows the front.
    pub front: bool,
}

/// The position of the first image from `from` on that shows the front.
pub open spec fn first_front(images: Seq<CoverArtImage>, from: int) -> Option<int>
    decreases images.len() - from,
{
    if from < 0 || from >= images.len() {
        None
    } else if images[from].front {
        Some(from)
    } else {
        first_front(images, from + 1)
    }
}

/// The image that is taken as the cover: the first that shows the front;
/// if none does, the first; none of no images.
pub open spec fn cover_image(images: Seq<CoverArtImage>) -> Option<int> {
    if first_front(images, 0) is Some {
        first_front(images, 0)
    } else if images.len() > 0 {
        Some(0)
    } else {
        None
    }
}

/// The thumbnail that is taken: the largest that there is.
pub open spec fn best_thumbnail(thumbnails: Option<CoverArtThumbnails>) -> Option<Seq<char>> {
    match thumbnails {
        Some(t) => if t.large is Some {
            optional_view(t.large)
        } else if t.medium is Some {
            optional_view(t.medium)
        } else {
            optional_view(t.small)
        },
        None => None,
    }
}

/// The address at which a disc is looked up, with the table of contents
/// for a match by similarity where one is given.
pub fn lookup_url(disc_id: &str, toc_string: Option<&str>) -> (r: String)
    ensures
        r@ == "https://musicbrainz.org/ws/2/discid/"@ + disc_id@
            + "?fmt=json&inc=artist-credits+release-groups"@ + (match toc_string {
            Some(toc) => "&toc="@ + toc@,
            None => Seq::<char>::empty(),
        }),
{
    let base = concat3(
        "https://musicbrainz.org/ws/2/discid/",
        disc_id,
        "?fmt=json&inc=artist-credits+release-groups",
    );
    match toc_string {
        Some(toc) => {
            let r = concat3(base.as_str(), "&toc=", toc);
            assert(r@ =~= base@ + ("&toc="@ + toc@));
            r
        },
        None => {
            assert(base@ =~= base@ + Seq::<char>::empty());
            base
        },
    }
}

/// The address of the cover art of a release.
pub fn cover_art_address(release_id: &str) -> (r: String)
    ensures
        r@ == "https://coverartarchive.org/release/"@ + release_id@,
{
    concat2("https://coverartarchive.org/release/", release_id)
}

/// Picks the image that is taken as the cover.
pub fn choose_image(images: &Vec<CoverArtImage>) -> (r: Option<usize>)
    ensures
        match r {
            Some(k) => cover_image(images@) == Some(k as int) && k < images@.len(),
            None => cover_image(images@) is None,
        },
{
    let mut i: usize = 0;
    while i < images.len()
        invariant
            i <= images@.len(),
            first_front(images@, 0) == first_front(images@, i as int),
        decreases images@.len() - i,
    {
        if images[i].front {
            return Some(i);
        }
        i = i + 1;
    }
    if images.len() > 0 {
        Some(0)
    } else {
        None
    }
}

/// Picks the thumbnail of an image.
pub fn choose_thumbnail(thumbnails: &Option<CoverArtThumbnails>) -> (r: Option<String>)
    ensures
        optional_view(r) == best_thumbnail(*thumbnails),
{
    match thumbnails {
        Some(t) => {
            if t.large.is_some() {
                t.large.clone()
            } else if t.medium.is_some() {
                t.medium.clone()
            } else {
                t.small.clone()
            }
        },
        None => None,
    }
}

} // verus!

//! What the searches for cover art need from a disc: queries and the
//! records that services return.

pub mod artwork;
pub mod discogs;
pub mod mobygames;
pub mod musicbrainz;
pub mod redump;

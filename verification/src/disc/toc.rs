//! Tables of contents of audio-bearing discs and the two disc identifiers
//! that are computed from them.

use vstd::prelude::*;
use crate::bytes::{be32_bytes, push_be32};
use crate::text::number::{
    decimal_chars, decimal_text, fixed_chars, fixed_text, parse_u32_chars, parse_u32_text,
    two_digit_chars, two_digit_text,
};
use crate::text::search::{split_at_char, split_char};
use crate::text::trim::{join, join_chars};
use crate::text::{chars_of, string_of, views};

verus! {

/// Frames per second of CD audio.
pub const FRAMES_PER_SECOND: u32 = 75;

/// Frames of the pregap by which every offset is biased.
pub const PREGAP_FRAMES: u32 = 150;

/// Number of offset slots in the record that the public identifier hashes.
pub const OFFSET_SLOTS: usize = 99;

/// The SHA-1 digest of `data`, as the `sha1` crate computes it.
pub uninterp spec fn sha1_digest(data: Seq<u8>) -> Seq<u8>;

/// The base64 text of `data` in the URL-safe alphabet without padding, as
/// the `base64` crate computes it.
pub uninterp spec fn base64_url_unpadded(data: Seq<u8>) -> Seq<char>;

/// `Sha1::digest` of the `sha1` crate: the 20-byte SHA-1 digest.
#[verifier::external_body]
pub(crate) fn sha1_of(data: &[u8]) -> (r: Vec<u8>)
    ensures
        r@ == sha1_digest(data@),
        r@.len() == 20,
{
    <sha1::Sha1 as sha1::Digest>::digest(data).to_vec()
}

/// The length of the unpadded base64 text of `n` bytes: four characters
/// for every three bytes, and two or three for one or two bytes left over.
pub open spec fn unpadded_len(n: nat) -> nat {
    (n / 3) * 4 + (if n % 3 == 0 {
        0nat
    } else if n % 3 == 1 {
        2nat
    } else {
        3nat
    })
}

/// A character of the URL-safe base64 alphabet: a letter, a digit, `-` or
/// `_`.
pub open spec fn url_safe_char(c: char) -> bool {
    ('A' <= c <= 'Z') || ('a' <= c <= 'z') || ('0' <= c <= '9') || c == '-' || c == '_'
}

/// `Engine::encode` of the `base64` crate with its URL-safe, unpadded
/// engine: the text has the length that the crate computes for the input
/// and holds characters of the URL-safe alphabet only.
#[verifier::external_body]
pub(crate) fn base64_url_of(data: &[u8]) -> (r: String)
    requires
        data@.len() <= 0x1000_0000,
    ensures
        r@ == base64_url_unpadded(data@),
        r@.len() == unpadded_len(data@.len()),
        forall|i: int| 0 <= i < r@.len() ==> url_safe_char(#[trigger] r@[i]),
{
    base64::Engine::encode(&base64::engine::general_purpose::URL_SAFE_NO_PAD, data)
}

/// The table of contents of a disc.
#[derive(Debug, Clone)]
pub struct DiscTOC {
    /// Number of the first track, usually 1.
    pub first_track: u8,
    /// Number of the last track.
    pub last_track: u8,
    /// Offset of the lead-out in frames.
    pub lead_out: u32,
    /// Start offsets of the tracks in frames.
    pub track_offsets: Vec<u32>,
}

/// One track of a disc, as a track sheet or track metadata describe it.
#[derive(Debug, Clone)]
pub struct TrackInfo {
    /// Track number.
    pub number: u8,
    /// Offset in frames, without the pregap.
    pub offset: u32,
    /// Track type, such as "AUDIO" or "MODE1".
    pub track_type: String,
}

/// The sum of the decimal digits of `n`.
pub open spec fn digit_sum_of(n: nat) -> nat
    decreases n,
{
    if n == 0 {
        0
    } else {
        n % 10 + digit_sum_of(n / 10)
    }
}

/// The sum of the digit sums of the offsets, each taken in whole seconds.
pub open spec fn checksum_of(offsets: Seq<u32>) -> nat
    decreases offsets.len(),
{
    if offsets.len() == 0 {
        0
    } else {
        checksum_of(offsets.drop_last()) + digit_sum_of((offsets.last() / 75) as nat)
    }
}

/// The offset slot `i` of the hashed record: the offset of track `i`, or 0.
pub open spec fn offset_slot(offsets: Seq<u32>, i: int) -> u32 {
    if 0 <= i < offsets.len() {
        offsets[i]
    } else {
        0
    }
}

/// The first `count` offset slots, four bytes each, most significant first.
pub open spec fn slot_bytes(offsets: Seq<u32>, count: nat) -> Seq<u8>
    decreases count,
{
    if count == 0 {
        Seq::empty()
    } else {
        slot_bytes(offsets, (count - 1) as nat) + be32_bytes(offset_slot(offsets, count - 1))
    }
}

/// The frames that `mm:ss:ff` denotes: three decimal numbers between
/// colons, `(mm * 60 + ss) * 75 + ff`, if that fits in 32 bits.
pub open spec fn msf_frames(msf: Seq<char>) -> Option<u32> {
    let parts = split_char(msf, ':');
    if parts.len() != 3 {
        None
    } else {
        match (parse_u32_text(parts[0]), parse_u32_text(parts[1]), parse_u32_text(parts[2])) {
            (Some(m), Some(s), Some(f)) => {
                let frames = (m * 60 + s) * 75 + f;
                if frames <= u32::MAX {
                    Some(frames as u32)
                } else {
                    None
                }
            },
            _ => None,
        }
    }
}

impl DiscTOC {
    /// The offsets of the tracks, each biased by the pregap.
    pub open spec fn biased_offsets(tracks: Seq<TrackInfo>) -> Seq<u32> {
        Seq::new(tracks.len(), |i: int| (tracks[i].offset + 150) as u32)
    }

    /// The record that the public identifier hashes: first track, last
    /// track, lead-out (four bytes, most significant first), then exactly 99
    /// offset slots of four bytes each, unused slots zero.
    pub open spec fn record(&self) -> Seq<u8> {
        seq![self.first_track, self.last_track] + be32_bytes(self.lead_out) + slot_bytes(
            self.track_offsets@,
            99,
        )
    }

    /// The legacy identifier as a number: the checksum modulo 255 in the top
    /// byte, the length in seconds in the middle, the number of offsets in
    /// the low byte.
    pub open spec fn freedb_value(&self) -> u32 {
        let length: u32 = (self.lead_out / 75 - offset_slot(self.track_offsets@, 0) / 75) as u32;
        (((checksum_of(self.track_offsets@) % 255) as u32) << 24) | (length << 8) | (
        self.track_offsets@.len() as u32)
    }

    /// The fields of the fuzzy-lookup text: first track, track count,
    /// lead-out, then the offsets.
    pub open spec fn toc_fields(&self) -> Seq<Seq<char>> {
        seq![
            decimal_text(self.first_track as nat),
            decimal_text((self.last_track - self.first_track + 1) as nat),
            decimal_text(self.lead_out as nat),
        ] + Seq::new(self.track_offsets@.len(), |i: int| decimal_text(self.track_offsets@[i] as nat))
    }

    /// Builds the table of contents of a disc from its tracks and its total
    /// length in frames. Without tracks there is no table. The tracks are
    /// taken as they are given: that one of them is an audio track is asked
    /// for where the list is built, from a sheet or from track metadata.
    pub fn from_tracks(tracks: Vec<TrackInfo>, total_length_frames: u32) -> (r: Option<Self>)
        requires
            total_length_frames + 150 <= u32::MAX,
            forall|i: int| 0 <= i < tracks@.len() ==> (#[trigger] tracks@[i]).offset + 150 <= u32::MAX,
        ensures
            r is Some <==> tracks@.len() > 0,
            r matches Some(toc) ==> toc.first_track == tracks@[0].number && toc.last_track
                == tracks@.last().number && toc.lead_out == total_length_frames + 150
                && toc.track_offsets@ == Self::biased_offsets(tracks@),
    {
        if tracks.len() == 0 {
            return None;
        }
        let first_track: u8 = tracks[0].number;
        let last_track: u8 = tracks[tracks.len() - 1].number;
        let mut track_offsets: Vec<u32> = Vec::new();
        let mut i: usize = 0;
        while i < tracks.len()
            invariant
                i <= tracks@.len(),
                forall|k: int|
                    0 <= k < tracks@.len() ==> (#[trigger] tracks@[k]).offset + 150 <= u32::MAX,
                track_offsets@ == Self::biased_offsets(tracks@.take(i as int)),
            decreases tracks@.len() - i,
        {
            proof {
                assert(Self::biased_offsets(tracks@.take(i + 1)) =~= Self::biased_offsets(
                    tracks@.take(i as int),
                ).push((tracks@[i as int].offset + 150) as u32));
            }
            track_offsets.push(tracks[i].offset + PREGAP_FRAMES);
            i = i + 1;
        }
        proof {
            assert(tracks@.take(i as int) =~= tracks@);
        }
        Some(
            DiscTOC {
                first_track,
                last_track,
                lead_out: total_length_frames + PREGAP_FRAMES,
                track_offsets,
            },
        )
    }

    /// The record that the public identifier hashes.
    pub fn id_record(&self) -> (r: Vec<u8>)
        ensures
            r@ == self.record(),
            r@.len() == 402,
    {
        let mut data: Vec<u8> = Vec::new();
        data.push(self.first_track);
        data.push(self.last_track);
        push_be32(&mut data, self.lead_out);
        let ghost head = data@;
        proof {
            assert(head =~= seq![self.first_track, self.last_track] + be32_bytes(self.lead_out));
        }
        let mut i: usize = 0;
        while i < OFFSET_SLOTS
            invariant
                i <= OFFSET_SLOTS,
                head.len() == 6,
                data@ == head + slot_bytes(self.track_offsets@, i as nat),
                data@.len() == 6 + 4 * i,
            decreases OFFSET_SLOTS - i,
        {
            let offset: u32 = if i < self.track_offsets.len() {
                self.track_offsets[i]
            } else {
                0
            };
            proof {
                assert(head + slot_bytes(self.track_offsets@, i as nat) + be32_bytes(offset) =~= head
                    + slot_bytes(self.track_offsets@, (i + 1) as nat));
            }
            push_be32(&mut data, offset);
            i = i + 1;
        }
        data
    }

    /// The identifier of a given record: the base64 text of its SHA-1
    /// digest, in the URL-safe alphabet and without padding.
    pub fn id_of_digest(digest: &[u8]) -> (r: String)
        requires
            digest@.len() <= 0x1000_0000,
        ensures
            r@ == base64_url_unpadded(digest@),
            r@.len() == unpadded_len(digest@.len()),
            forall|i: int| 0 <= i < r@.len() ==> url_safe_char(#[trigger] r@[i]),
    {
        base64_url_of(digest)
    }

    /// The public disc identifier: the record is hashed with SHA-1 and the
    /// digest written as unpadded URL-safe base64, which gives 27
    /// characters of the URL-safe alphabet.
    pub fn calculate_musicbrainz_id(&self) -> (r: String)
        ensures
            r@ == base64_url_unpadded(sha1_digest(self.record())),
            r@.len() == 27,
            forall|i: int| 0 <= i < r@.len() ==> url_safe_char(#[trigger] r@[i]),
    {
        let data = self.id_record();
        let digest = sha1_of(data.as_slice());
        Self::id_of_digest(digest.as_slice())
    }

    /// The legacy disc identifier: eight lower-case hexadecimal digits.
    pub fn calculate_freedb_id(&self) -> (r: String)
        requires
            self.lead_out / 75 >= offset_slot(self.track_offsets@, 0) / 75,
        ensures
            r@ == fixed_text(self.freedb_value() as nat, 16, 8),
    {
        let mut checksum: u32 = 0;
        let mut i: usize = 0;
        while i < self.track_offsets.len()
            invariant
                i <= self.track_offsets@.len(),
                checksum == checksum_of(self.track_offsets@.take(i as int)) % 255,
            decreases self.track_offsets@.len() - i,
        {
            let seconds: u32 = self.track_offsets[i] / FRAMES_PER_SECOND;
            let sum: u32 = digit_sum(seconds);
            proof {
                let before = self.track_offsets@.take(i as int);
                let now = self.track_offsets@.take(i + 1);
                assert(now.drop_last() =~= before);
                assert(now.last() == self.track_offsets@[i as int]);
                vstd::arithmetic::div_mod::lemma_add_mod_noop(
                    checksum_of(before) as int,
                    sum as int,
                    255,
                );
            }
            checksum = ((checksum as u64 + sum as u64) % 255) as u32;
            i = i + 1;
        }
        proof {
            assert(self.track_offsets@.take(i as int) =~= self.track_offsets@);
        }
        let total_seconds: u32 = self.lead_out / FRAMES_PER_SECOND;
        let first_seconds: u32 = if self.track_offsets.len() > 0 {
            self.track_offsets[0] / FRAMES_PER_SECOND
        } else {
            0
        };
        let length: u32 = total_seconds - first_seconds;
        let count: u32 = #[verifier::truncate]
        (self.track_offsets.len() as u32);
        let disc_id: u32 = (checksum << 24) | (length << 8) | count;
        let digits = fixed_chars(disc_id as u64, 16, 8);
        string_of(digits.as_slice())
    }

    /// The total length of the disc in seconds.
    pub fn total_seconds(&self) -> (r: u32)
        ensures
            r == self.lead_out / 75,
    {
        self.lead_out / FRAMES_PER_SECOND
    }

    /// The total length of the disc as `MM:SS`.
    pub fn total_time_string(&self) -> (r: String)
        ensures
            r@ == two_digit_text((self.lead_out / 75 / 60) as nat) + seq![':'] + two_digit_text(
                (self.lead_out / 75 % 60) as nat,
            ),
    {
        let seconds: u32 = self.total_seconds();
        let mut out: Vec<char> = two_digit_chars((seconds / 60) as u64);
        out.push(':');
        let tail = two_digit_chars((seconds % 60) as u64);
        out.extend_from_slice(tail.as_slice());
        string_of(out.as_slice())
    }

    /// The number of tracks.
    pub fn track_count(&self) -> (r: u8)
        requires
            self.first_track <= self.last_track,
            self.last_track - self.first_track < 255,
        ensures
            r == self.last_track - self.first_track + 1,
    {
        self.last_track - self.first_track + 1
    }

    /// The text for a fuzzy lookup: first track, track count, lead-out and
    /// the offsets, joined by `+`.
    pub fn to_toc_string(&self) -> (r: String)
        requires
            self.first_track <= self.last_track,
            self.last_track - self.first_track < 255,
        ensures
            r@ == join(self.toc_fields(), seq!['+']),
    {
        let mut parts: Vec<Vec<char>> = Vec::new();
        parts.push(decimal_chars(self.first_track as u64));
        parts.push(decimal_chars(self.track_count() as u64));
        parts.push(decimal_chars(self.lead_out as u64));
        let ghost head = views(parts@);
        let mut i: usize = 0;
        while i < self.track_offsets.len()
            invariant
                i <= self.track_offsets@.len(),
                head.len() == 3,
                views(parts@) == head + Seq::new(
                    i as nat,
                    |k: int| decimal_text(self.track_offsets@[k] as nat),
                ),
            decreases self.track_offsets@.len() - i,
        {
            let text = decimal_chars(self.track_offsets[i] as u64);
            proof {
                assert(views(parts@.push(text)) =~= views(parts@).push(text@));
                assert(views(parts@).push(text@) =~= head + Seq::new(
                    (i + 1) as nat,
                    |k: int| decimal_text(self.track_offsets@[k] as nat),
                ));
            }
            parts.push(text);
            i = i + 1;
        }
        proof {
            assert(views(parts@) =~= self.toc_fields());
        }
        let sep: Vec<char> = vec!['+'];
        proof {
            assert(sep@ =~= seq!['+']);
        }
        let joined = join_chars(&parts, sep.as_slice());
        string_of(joined.as_slice())
    }
}

/// Parses a time `MM:SS:FF` from a track sheet into frames.
pub fn parse_msf(msf: &str) -> (r: Option<u32>)
    ensures
        r == msf_frames(msf@),
{
    let chars = chars_of(msf);
    let parts = split_at_char(chars.as_slice(), ':');
    if parts.len() != 3 {
        return None;
    }
    proof {
        assert(views(parts@)[0] == parts@[0]@);
        assert(views(parts@)[1] == parts@[1]@);
        assert(views(parts@)[2] == parts@[2]@);
    }
    let minutes: u32 = match parse_u32_chars(parts[0].as_slice()) {
        Some(v) => v,
        None => {
            return None;
        },
    };
    let seconds: u32 = match parse_u32_chars(parts[1].as_slice()) {
        Some(v) => v,
        None => {
            return None;
        },
    };
    let frames: u32 = match parse_u32_chars(parts[2].as_slice()) {
        Some(v) => v,
        None => {
            return None;
        },
    };
    let total: u64 = (minutes as u64 * 60 + seconds as u64) * 75 + frames as u64;
    if total > 0xffff_ffff {
        None
    } else {
        Some(total as u32)
    }
}

/// The sum of the decimal digits of `n`.
pub fn digit_sum(n: u32) -> (r: u32)
    ensures
        r == digit_sum_of(n as nat),
{
    let mut rest: u32 = n;
    let mut sum: u32 = 0;
    while rest > 0
        invariant
            sum + digit_sum_of(rest as nat) == digit_sum_of(n as nat),
            sum + rest <= n,
        decreases rest,
    {
        sum = sum + rest % 10;
        rest = rest / 10;
    }
    sum
}

/// The record determines the table: two tables of at most 99 tracks with
/// the same record agree in the first and last track, the lead-out and
/// every offset slot.
pub proof fn lemma_record_determines_toc(a: DiscTOC, b: DiscTOC)
    requires
        a.record() == b.record(),
    ensures
        a.first_track == b.first_track,
        a.last_track == b.last_track,
        a.lead_out == b.lead_out,
        forall|i: int| 0 <= i < 99 ==> offset_slot(a.track_offsets@, i) == offset_slot(b.track_offsets@, i),
{
    lemma_slot_bytes_len(a.track_offsets@, 99);
    lemma_slot_bytes_len(b.track_offsets@, 99);
    crate::bytes::lemma_be32_round_trip(a.lead_out);
    crate::bytes::lemma_be32_round_trip(b.lead_out);
    let ra = a.record();
    let rb = b.record();
    assert(ra[0] == a.first_track && rb[0] == b.first_track);
    assert(ra[1] == a.last_track && rb[1] == b.last_track);
    assert(ra.subrange(2, 6) =~= be32_bytes(a.lead_out));
    assert(rb.subrange(2, 6) =~= be32_bytes(b.lead_out));
    assert(ra.subrange(6, 402) =~= slot_bytes(a.track_offsets@, 99));
    assert(rb.subrange(6, 402) =~= slot_bytes(b.track_offsets@, 99));
    assert forall|i: int| 0 <= i < 99 implies offset_slot(a.track_offsets@, i) == offset_slot(
        b.track_offsets@,
        i,
    ) by {
        lemma_slot_bytes_at(a.track_offsets@, 99, i);
        lemma_slot_bytes_at(b.track_offsets@, 99, i);
        crate::bytes::lemma_be32_round_trip(offset_slot(a.track_offsets@, i));
        crate::bytes::lemma_be32_round_trip(offset_slot(b.track_offsets@, i));
    }
}

/// `count` slots take four bytes each.
pub proof fn lemma_slot_bytes_len(offsets: Seq<u32>, count: nat)
    ensures
        slot_bytes(offsets, count).len() == 4 * count,
    decreases count,
{
    if count > 0 {
        lemma_slot_bytes_len(offsets, (count - 1) as nat);
    }
}

/// Slot `i` of the record holds the four bytes of offset slot `i`.
pub proof fn lemma_slot_bytes_at(offsets: Seq<u32>, count: nat, i: int)
    requires
        0 <= i < count,
    ensures
        slot_bytes(offsets, count).len() == 4 * count,
        slot_bytes(offsets, count).subrange(4 * i, 4 * i + 4) == be32_bytes(offset_slot(offsets, i)),
    decreases count,
{
    lemma_slot_bytes_len(offsets, count);
    lemma_slot_bytes_len(offsets, (count - 1) as nat);
    let all = slot_bytes(offsets, count);
    let before = slot_bytes(offsets, (count - 1) as nat);
    if i == count - 1 {
        assert(all.subrange(4 * i, 4 * i + 4) =~= be32_bytes(offset_slot(offsets, i)));
    } else {
        lemma_slot_bytes_at(offsets, (count - 1) as nat, i);
        assert(all.subrange(4 * i, 4 * i + 4) =~= before.subrange(4 * i, 4 * i + 4));
    }
}

} // verus!

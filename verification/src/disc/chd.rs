//! Compressed-hunk images.
//!
//! The container is opened and its units are decoded by the caller. What is
//! decided here is what the track metadata say, where in the decoded stream
//! the volume descriptors lie, and what the table of contents is.

use vstd::prelude::*;
use crate::disc::apm::{find_hfs_partition_offset, hfs_partition_offset};
use crate::disc::browse::reader::{
    hunk_stream, in_range, lemma_whole_units, whole_units, ChdSectorReader, ReadError,
    SectorReader, SectorSource,
};
use crate::disc::detect::{
    hfs_kind_at, probe_hfs_at, probe_hfs_block, probe_pvd, pvd_at, Detection,
};
use crate::disc::formats::FilesystemType;
use crate::disc::hfs::MasterDirectoryBlock;
use crate::disc::hfsplus::HfsPlusVolumeHeader;
use crate::disc::iso9660::PrimaryVolumeDescriptor;
use crate::disc::toc::{DiscTOC, TrackInfo as TocTrackInfo};
use crate::text::number::{parse_u32_chars, parse_u32_text};
use crate::text::search::{
    contains_in, contains_sub, find_char, find_in, starts_with, starts_with_chars,
};
use crate::text::trim::{split_words, words};
use crate::text::{chars_of, concat2, copy_range, str_eq, string_of, views};
use vstd::slice::slice_subrange;

verus! {

/// Size of a raw CD sector.
pub const CD_SECTOR_SIZE_RAW: u32 = 2352;

/// Size of a cooked CD sector.
pub const CD_SECTOR_SIZE_COOKED: u32 = 2048;

/// Offset of the user data in a raw mode 1 sector.
pub const CD_MODE1_DATA_OFFSET: usize = 16;

/// Size of a frame: a raw sector and its subcode.
pub const CD_FRAME_SIZE: u32 = 2448;

/// Tag of the track metadata ("CHT2").
pub const CHT2_TAG: u32 = 0x43485432;

/// Errors of reading a compressed-hunk image.
#[derive(Debug)]
pub enum ChdError {
    /// A read failed.
    Io(String),
    /// The container could not be parsed.
    Parse(String),
    /// A sector could not be read.
    SectorRead(String),
    /// The ISO 9660 volume descriptor could not be parsed.
    Iso9660(String),
}

impl ChdError {
    /// The text of the message: what went wrong, then the detail.
    pub open spec fn message_text(self) -> Seq<char> {
        match self {
            ChdError::Io(e) => "IO error: "@ + e@,
            ChdError::Parse(s) => "CHD parse error: "@ + s@,
            ChdError::SectorRead(s) => "Sector read error: "@ + s@,
            ChdError::Iso9660(s) => "ISO9660 error: "@ + s@,
        }
    }

    /// The message of the error, as it is shown to a user.
    pub fn message(&self) -> (r: String)
        ensures
            r@ == self.message_text(),
    {
        match self {
            ChdError::Io(e) => concat2("IO error: ", e.as_str()),
            ChdError::Parse(s) => concat2("CHD parse error: ", s.as_str()),
            ChdError::SectorRead(s) => concat2("Sector read error: ", s.as_str()),
            ChdError::Iso9660(s) => concat2("ISO9660 error: ", s.as_str()),
        }
    }
}

/// What was found out about a compressed-hunk image.
#[derive(Debug, Clone)]
pub struct ChdInfo {
    /// Volume label, if one was found.
    pub volume_label: Option<String>,
    /// Primary volume descriptor, on ISO 9660.
    pub pvd: Option<PrimaryVolumeDescriptor>,
    /// Title from the metadata of the container, if there is one.
    pub metadata: Option<String>,
    /// Size of a decoded unit.
    pub hunk_size: u32,
    /// Size of the decoded data.
    pub logical_size: u64,
    /// Table of contents, on discs with audio tracks.
    pub toc: Option<DiscTOC>,
    /// Master directory block, on the classic filesystem.
    pub hfs_mdb: Option<MasterDirectoryBlock>,
    /// Volume header, on the extended filesystem.
    pub hfsplus_header: Option<HfsPlusVolumeHeader>,
    /// Filesystem that was found.
    pub filesystem: FilesystemType,
}

/// A track, as the metadata of the container describe it.
#[derive(Debug, Clone)]
pub struct TrackInfo {
    /// Track number.
    pub track_num: u32,
    /// Track type, such as "MODE1_RAW" or "AUDIO".
    pub track_type: String,
    /// Number of frames.
    pub frames: u32,
    /// Frames before this track.
    pub frame_offset: u32,
}

/// A track, as mathematical values.
pub struct ChdTrackModel {
    /// Track number.
    pub track_num: u32,
    /// Track type.
    pub track_type: Seq<char>,
    /// Number of frames.
    pub frames: u32,
    /// Frames before this track.
    pub frame_offset: u32,
}

impl View for TrackInfo {
    type V = ChdTrackModel;

    open spec fn view(&self) -> ChdTrackModel {
        ChdTrackModel {
            track_num: self.track_num,
            track_type: self.track_type@,
            frames: self.frames,
            frame_offset: self.frame_offset,
        }
    }
}

/// The models of a sequence of tracks.
pub open spec fn chd_models(tracks: Seq<TrackInfo>) -> Seq<ChdTrackModel> {
    Seq::new(tracks.len(), |i: int| tracks[i]@)
}

/// The number that a value denotes, or 0.
pub open spec fn number_or_zero(value: Seq<char>) -> u32 {
    match parse_u32_text(value) {
        Some(n) => n,
        None => 0,
    }
}

/// The fields after one more `KEY:VALUE` part: `TRACK` sets the number,
/// `TYPE` the type and `FRAMES` the frames; a part without a colon or with
/// another key changes nothing.
pub open spec fn fields_after(fields: (u32, Seq<char>, u32), part: Seq<char>) -> (u32, Seq<char>, u32) {
    match find_char(part, ':') {
        None => fields,
        Some(at) => {
            let key = part.take(at);
            let value = part.skip(at + 1);
            if key == "TRACK"@ {
                (number_or_zero(value), fields.1, fields.2)
            } else if key == "TYPE"@ {
                (fields.0, value, fields.2)
            } else if key == "FRAMES"@ {
                (fields.0, fields.1, number_or_zero(value))
            } else {
                fields
            }
        },
    }
}

/// The fields that the parts of an entry give.
pub open spec fn fields_of(parts: Seq<Seq<char>>) -> (u32, Seq<char>, u32)
    decreases parts.len(),
{
    if parts.len() == 0 {
        (0, Seq::empty(), 0)
    } else {
        fields_after(fields_of(parts.drop_last()), parts.last())
    }
}

/// The track that an entry of the metadata describes; none if it names no
/// track number above 0.
pub open spec fn cht2_track(content: Seq<char>, frame_offset: u32) -> Option<ChdTrackModel> {
    let fields = fields_of(words(content));
    if fields.0 > 0 {
        Some(
            ChdTrackModel {
                track_num: fields.0,
                track_type: fields.1,
                frames: fields.2,
                frame_offset,
            },
        )
    } else {
        None
    }
}

/// Whether a track type is one of data.
pub open spec fn data_type(track_type: Seq<char>) -> bool {
    starts_with(track_type, "MODE1"@) || starts_with(track_type, "MODE2"@)
}

/// Whether a track type is audio.
pub open spec fn audio_type(track_type: Seq<char>) -> bool {
    track_type == "AUDIO"@
}

/// The sector size of a track type and the offset of the user data in a
/// sector: raw types have 2352 bytes with the data at 16, others 2048.
pub open spec fn sector_geometry(track_type: Seq<char>) -> (u32, usize) {
    if contains_sub(track_type, "RAW"@) {
        (2352, 16)
    } else {
        (2048, 0)
    }
}

/// Parses one entry of the track metadata, such as
/// `TRACK:1 TYPE:MODE1_RAW SUBTYPE:NONE FRAMES:16227`.
pub fn parse_cht2_entry(content: &str, frame_offset: u32) -> (r: Option<TrackInfo>)
    ensures
        match r {
            Some(t) => cht2_track(content@, frame_offset) == Some(t@),
            None => cht2_track(content@, frame_offset) is None,
        },
{
    let chars = chars_of(content);
    let parts = split_words(chars.as_slice());
    let colon: Vec<char> = vec![':'];
    proof {
        assert(colon@ =~= seq![':']);
    }
    let mut track_num: u32 = 0;
    let mut track_type: Vec<char> = Vec::new();
    let mut frames: u32 = 0;
    let mut i: usize = 0;
    proof {
        assert(views(parts@).take(0) =~= Seq::<Seq<char>>::empty());
    }
    while i < parts.len()
        invariant
            i <= parts@.len(),
            colon@ == seq![':'],
            (track_num, track_type@, frames) == fields_of(views(parts@).take(i as int)),
        decreases parts@.len() - i,
    {
        let part = &parts[i];
        proof {
            let now = views(parts@).take(i + 1);
            assert(now.drop_last() =~= views(parts@).take(i as int));
            assert(now.last() == part@);
            crate::text::search::lemma_first_index_from(part@, seq![':'], 0);
        }
        let size: usize = part.len();
        match find_in(part.as_slice(), colon.as_slice()) {
            Some(at) => {
                let key = copy_range(part.as_slice(), 0, at);
                let value = copy_range(part.as_slice(), at + 1, part.len());
                proof {
                    assert(key@ =~= part@.take(at as int));
                    assert(value@ =~= part@.skip(at + 1));
                }
                let key_text = string_of(key.as_slice());
                if str_eq(key_text.as_str(), "TRACK") {
                    track_num = match parse_u32_chars(value.as_slice()) {
                        Some(n) => n,
                        None => 0,
                    };
                } else if str_eq(key_text.as_str(), "TYPE") {
                    track_type = value;
                } else if str_eq(key_text.as_str(), "FRAMES") {
                    frames = match parse_u32_chars(value.as_slice()) {
                        Some(n) => n,
                        None => 0,
                    };
                }
            },
            None => {},
        }
        i = i + 1;
    }
    proof {
        assert(views(parts@).take(i as int) =~= views(parts@));
    }
    if track_num > 0 {
        Some(
            TrackInfo { track_num, track_type: string_of(track_type.as_slice()), frames, frame_offset },
        )
    } else {
        None
    }
}

/// Whether a track type is one of data.
pub fn is_data_track(track_type: &str) -> (r: bool)
    ensures
        r == data_type(track_type@),
{
    let chars = chars_of(track_type);
    starts_with_chars(chars.as_slice(), chars_of("MODE1").as_slice()) || starts_with_chars(
        chars.as_slice(),
        chars_of("MODE2").as_slice(),
    )
}

/// Whether a track type is audio.
pub fn is_audio_track(track_type: &str) -> (r: bool)
    ensures
        r == audio_type(track_type@),
{
    str_eq(track_type, "AUDIO")
}

/// The sector size of a track type and the offset of the user data in a
/// sector.
pub fn get_track_sector_size(track_type: &str) -> (r: (u32, usize))
    ensures
        r == sector_geometry(track_type@),
{
    let chars = chars_of(track_type);
    if contains_in(chars.as_slice(), chars_of("RAW").as_slice()) {
        (CD_SECTOR_SIZE_RAW, CD_MODE1_DATA_OFFSET)
    } else {
        (CD_SECTOR_SIZE_COOKED, 0)
    }
}

/// The tracks that the entries describe, in the order of the entries.
pub open spec fn described_tracks(entries: Seq<Seq<char>>) -> Seq<ChdTrackModel>
    decreases entries.len(),
{
    if entries.len() == 0 {
        Seq::empty()
    } else {
        let before = described_tracks(entries.drop_last());
        match cht2_track(entries.last(), 0) {
            Some(t) => before.push(t),
            None => before,
        }
    }
}

/// Where a track goes among tracks in order of their numbers: before the
/// first whose number is not smaller.
pub open spec fn track_position(sorted: Seq<ChdTrackModel>, t: ChdTrackModel) -> int
    decreases sorted.len(),
{
    if sorted.len() == 0 || sorted[0].track_num >= t.track_num {
        0
    } else {
        1 + track_position(sorted.drop_first(), t)
    }
}

/// The tracks in order of their numbers; tracks with the same number keep
/// their order.
pub open spec fn tracks_in_order(raw: Seq<ChdTrackModel>) -> Seq<ChdTrackModel>
    decreases raw.len(),
{
    if raw.len() == 0 {
        Seq::empty()
    } else {
        let rest = tracks_in_order(raw.drop_first());
        rest.insert(track_position(rest, raw.first()), raw.first())
    }
}

/// The sum of two frame counts, cut to 32 bits.
pub open spec fn wrapped_sum(a: u32, b: u32) -> u32 {
    ((a + b) % 0x1_0000_0000) as u32
}

/// The frames before track `count`: the frames of the tracks before it,
/// summed and cut to 32 bits.
pub open spec fn frames_before(tracks: Seq<ChdTrackModel>, count: int) -> u32
    decreases count,
{
    if count <= 0 {
        0
    } else {
        wrapped_sum(frames_before(tracks, count - 1), tracks[count - 1].frames)
    }
}

/// The tracks, each with the frames before it as its offset.
pub open spec fn with_offsets(tracks: Seq<ChdTrackModel>) -> Seq<ChdTrackModel> {
    Seq::new(
        tracks.len(),
        |i: int| ChdTrackModel { frame_offset: frames_before(tracks, i), ..tracks[i] },
    )
}

/// The tracks of an image: those that the entries describe, in order of
/// their numbers, each with the frames before it as its offset.
pub open spec fn image_tracks(entries: Seq<Seq<char>>) -> Seq<ChdTrackModel> {
    with_offsets(tracks_in_order(described_tracks(entries)))
}

/// A track position lies within the tracks.
pub proof fn lemma_track_position(sorted: Seq<ChdTrackModel>, t: ChdTrackModel)
    ensures
        0 <= track_position(sorted, t) <= sorted.len(),
    decreases sorted.len(),
{
    if sorted.len() == 0 || sorted[0].track_num >= t.track_num {
    } else {
        lemma_track_position(sorted.drop_first(), t);
    }
}

/// Puts tracks in order of their numbers.
pub fn sort_tracks(tracks: Vec<TrackInfo>) -> (r: Vec<TrackInfo>)
    ensures
        chd_models(r@) == tracks_in_order(chd_models(tracks@)),
{
    let ghost raw = chd_models(tracks@);
    let mut rest: Vec<TrackInfo> = tracks;
    let mut out: Vec<TrackInfo> = Vec::new();
    proof {
        assert(raw.skip(raw.len() as int) =~= Seq::<ChdTrackModel>::empty());
        assert(chd_models(out@) =~= Seq::<ChdTrackModel>::empty());
    }
    while rest.len() > 0
        invariant
            rest@.len() <= raw.len(),
            chd_models(rest@) == raw.take(rest@.len() as int),
            chd_models(out@) == tracks_in_order(raw.skip(rest@.len() as int)),
        decreases rest@.len(),
    {
        let ghost before = rest@;
        let track = match rest.pop() {
            Some(t) => t,
            None => {
                return out;
            },
        };
        let ghost sorted = chd_models(out@);
        let ghost n = rest@.len() as int;
        proof {
            assert(track == before[n]);
            assert(track@ == raw[n]) by {
                assert(chd_models(before)[n] == raw.take(before.len() as int)[n]);
            }
            assert(chd_models(rest@) =~= raw.take(n)) by {
                assert forall|i: int| 0 <= i < n implies chd_models(rest@)[i] == raw.take(n)[i] by {
                    assert(chd_models(before)[i] == raw.take(before.len() as int)[i]);
                }
            }
            assert(raw.skip(n).drop_first() =~= raw.skip(n + 1));
            assert(raw.skip(n).first() == raw[n]);
            lemma_track_position(sorted, track@);
            assert(sorted.skip(0) =~= sorted);
        }
        let mut at: usize = 0;
        while at < out.len() && out[at].track_num < track.track_num
            invariant
                at <= out@.len(),
                sorted == chd_models(out@),
                track_position(sorted, track@) == at + track_position(sorted.skip(at as int), track@),
            decreases out@.len() - at,
        {
            proof {
                assert(sorted.skip(at as int)[0] == out@[at as int]@);
                assert(sorted.skip(at as int).drop_first() =~= sorted.skip(at + 1));
            }
            at = at + 1;
        }
        proof {
            if at < out@.len() {
                assert(sorted.skip(at as int)[0] == out@[at as int]@);
            }
            assert(chd_models(out@.insert(at as int, track)) =~= sorted.insert(at as int, track@));
        }
        out.insert(at, track);
    }
    proof {
        assert(raw.skip(0) =~= raw);
    }
    out
}

/// Reads the tracks of an image from the entries of its track metadata:
/// every entry that describes a track gives one; the tracks are put in
/// order of their numbers, and the offset of each is the sum of the frames
/// of the tracks before it.
pub fn parse_track_metadata(entries: &Vec<String>) -> (r: Vec<TrackInfo>)
    ensures
        chd_models(r@) == image_tracks(crate::text::string_views(entries@)),
{
    let ghost texts = crate::text::string_views(entries@);
    let mut tracks: Vec<TrackInfo> = Vec::new();
    let mut i: usize = 0;
    proof {
        assert(texts.take(0) =~= Seq::<Seq<char>>::empty());
        assert(chd_models(tracks@) =~= Seq::<ChdTrackModel>::empty());
    }
    while i < entries.len()
        invariant
            i <= entries@.len(),
            texts == crate::text::string_views(entries@),
            chd_models(tracks@) == described_tracks(texts.take(i as int)),
        decreases entries@.len() - i,
    {
        proof {
            let now = texts.take(i + 1);
            assert(now.drop_last() =~= texts.take(i as int));
            assert(now.last() == entries@[i as int]@);
        }
        match parse_cht2_entry(entries[i].as_str(), 0) {
            Some(track) => {
                proof {
                    assert(chd_models(tracks@.push(track)) =~= chd_models(tracks@).push(track@));
                }
                tracks.push(track);
            },
            None => {},
        }
        i = i + 1;
    }
    proof {
        assert(texts.take(i as int) =~= texts);
    }
    let sorted = sort_tracks(tracks);
    let ghost ordered = chd_models(sorted@);
    let mut out: Vec<TrackInfo> = Vec::new();
    let mut offset: u32 = 0;
    let mut k: usize = 0;
    while k < sorted.len()
        invariant
            k <= sorted@.len(),
            ordered == chd_models(sorted@),
            offset == frames_before(ordered, k as int),
            chd_models(out@) == with_offsets(ordered).take(k as int),
        decreases sorted@.len() - k,
    {
        let t = &sorted[k];
        let track = TrackInfo {
            track_num: t.track_num,
            track_type: t.track_type.clone(),
            frames: t.frames,
            frame_offset: offset,
        };
        proof {
            assert(ordered[k as int] == t@);
            assert(chd_models(out@.push(track)) =~= chd_models(out@).push(track@));
            assert(with_offsets(ordered)[k as int] == track@);
            assert(with_offsets(ordered).take(k + 1) =~= with_offsets(ordered).take(k as int).push(
                with_offsets(ordered)[k as int],
            ));
        }
        out.push(track);
        offset = offset.wrapping_add(t.frames);
        k = k + 1;
    }
    proof {
        assert(with_offsets(ordered).take(k as int) =~= with_offsets(ordered));
    }
    out
}

/// The index of the first data track at or after `from`.
pub open spec fn first_data_track_from(tracks: Seq<TrackInfo>, from: int) -> Option<int>
    decreases tracks.len() - from,
{
    if from < 0 || from >= tracks.len() {
        None
    } else if data_type(tracks[from].track_type@) {
        Some(from)
    } else {
        first_data_track_from(tracks, from + 1)
    }
}

/// The first data track.
pub fn first_data_track(tracks: &Vec<TrackInfo>) -> (r: Option<usize>)
    ensures
        match r {
            Some(k) => first_data_track_from(tracks@, 0) == Some(k as int) && k < tracks@.len(),
            None => first_data_track_from(tracks@, 0) is None,
        },
{
    let mut k: usize = 0;
    while k < tracks.len()
        invariant
            k <= tracks@.len(),
            first_data_track_from(tracks@, 0) == first_data_track_from(tracks@, k as int),
        decreases tracks@.len() - k,
    {
        if is_data_track(tracks[k].track_type.as_str()) {
            return Some(k);
        }
        k = k + 1;
    }
    None
}

/// The decoded stream of a compressed-hunk image, read unit by unit: a
/// read that crosses the end of a unit goes on in the next.
pub struct ChdReader {
    source: ChdSectorReader,
}

impl ChdReader {
    /// The units that are read.
    pub closed spec fn units(&self) -> ChdSectorReader {
        self.source
    }

    /// A reader of the decoded stream of an image.
    pub fn new(source: ChdSectorReader) -> (r: Self)
        requires
            source.intact(),
        ensures
            r.wf(),
            r.units() == source,
    {
        ChdReader { source }
    }

    /// Gives the units back.
    pub fn into_inner(self) -> (r: ChdSectorReader)
        requires
            self.wf(),
        ensures
            r == self.units(),
            r.intact(),
    {
        self.source
    }
}

impl SectorReader for ChdReader {
    open spec fn image(&self) -> Seq<u8> {
        hunk_stream(self.units().decoded(), self.units().unit_size())
    }

    open spec fn wf(&self) -> bool {
        self.units().intact()
    }

    proof fn image_fits(&self) {
        self.units().lemma_decoded_fits();
        if self.units().unit_size() > 0 {
            lemma_whole_units(self.units().decoded().len() as int, self.units().unit_size(), 0);
        }
    }

    fn read_sector(&mut self, lba: u64) -> (r: Result<Vec<u8>, ReadError>) {
        proof {
            self.image_fits();
        }
        match lba.checked_mul(2048) {
            Some(offset) => self.read_bytes(offset, 2048),
            None => Err(ReadError::InvalidHunk),
        }
    }

    fn read_sectors(&mut self, start_lba: u64, count: u64) -> (r: Result<Vec<u8>, ReadError>) {
        proof {
            self.image_fits();
        }
        if count == 0 {
            return Ok(Vec::new());
        }
        let offset: u64 = match start_lba.checked_mul(2048) {
            Some(v) => v,
            None => {
                return Err(ReadError::InvalidHunk);
            },
        };
        let length: u64 = match count.checked_mul(2048) {
            Some(v) => v,
            None => {
                return Err(ReadError::InvalidHunk);
            },
        };
        if length > usize::MAX as u64 {
            return Err(ReadError::InvalidHunk);
        }
        self.read_bytes(offset, length as usize)
    }

    fn read_bytes(&mut self, offset: u64, length: usize) -> (r: Result<Vec<u8>, ReadError>)
        ensures
            r is Ok <==> (length == 0 || in_range(
                old(self).image().len(),
                offset as int,
                length as int,
            )),
    {
        if length == 0 {
            return Ok(Vec::new());
        }
        let size: u64 = self.source.hunk_size() as u64;
        let total: usize = self.source.decoded_len();
        if size == 0 {
            return Err(ReadError::InvalidHunk);
        }
        let ghost data = self.units().decoded();
        let ghost stream = self.image();
        let ghost count = whole_units(total as int, size as int);
        proof {
            lemma_whole_units(total as int, size as int, 0);
            assert(stream.len() == count * size);
        }
        let mut out: Vec<u8> = Vec::new();
        let mut pos: u64 = offset;
        while out.len() < length
            invariant
                size > 0,
                size == self.units().unit_size(),
                total == data.len(),
                data == self.units().decoded(),
                self.units().kept(&old(self).units()),
                self.units().intact(),
                stream == old(self).image(),
                stream == hunk_stream(data, size as int),
                count == whole_units(total as int, size as int),
                stream.len() == count * size,
                stream.len() <= total,
                out@.len() <= length,
                pos == offset + out@.len(),
                out@.len() > 0 ==> pos <= stream.len() && out@ == stream.subrange(
                    offset as int,
                    pos as int,
                ),
            decreases length - out@.len(),
        {
            let index: u64 = pos / size;
            let within: u64 = pos % size;
            proof {
                vstd::arithmetic::div_mod::lemma_fundamental_div_mod(pos as int, size as int);
                vstd::arithmetic::div_mod::lemma_mod_bound(pos as int, size as int);
                lemma_whole_units(total as int, size as int, index as int);
                assert(size * index == index * size) by (nonlinear_arith);
                assert((index + 1) * size == index * size + size) by (nonlinear_arith);
                assert(index >= count ==> index * size >= count * size) by (nonlinear_arith)
                    requires
                        size > 0,
                ;
                assert(index < count ==> (index + 1) * size <= count * size) by (nonlinear_arith)
                    requires
                        size > 0,
                ;
            }
            let ghost before = self.source;
            let fetched = self.source.read_hunk(index);
            let hunk = match fetched {
                Ok(h) => h,
                Err(e) => {
                    return Err(e);
                },
            };
            let available: u64 = size - within;
            let want: u64 = (length - out.len()) as u64;
            let n: u64 = if want <= available {
                want
            } else {
                available
            };
            let ghost old_out = out@;
            out.extend_from_slice(
                slice_subrange(hunk.as_slice(), within as usize, (within + n) as usize),
            );
            proof {
                let chunk = hunk@.subrange(within as int, within + n);
                assert(chunk =~= stream.subrange(pos as int, pos + n));
                if old_out.len() > 0 {
                    assert(old_out + chunk =~= stream.subrange(offset as int, pos + n));
                } else {
                    assert(old_out + chunk =~= chunk);
                }
            }
            pos = pos + n;
        }
        Ok(out)
    }

    fn sector_size(&self) -> (r: u64) {
        2048
    }
}

/// What an audio track contributes to a table of contents.
pub struct AudioEntry {
    /// Track number, cut to eight bits.
    pub number: u8,
    /// Frames before the track.
    pub offset: u32,
}

/// The entries of the audio tracks, in order.
pub open spec fn audio_entries(tracks: Seq<TrackInfo>) -> Seq<AudioEntry>
    decreases tracks.len(),
{
    if tracks.len() == 0 {
        Seq::empty()
    } else {
        let before = audio_entries(tracks.drop_last());
        if audio_type(tracks.last().track_type@) {
            before.push(
                AudioEntry {
                    number: tracks.last().track_num as u8,
                    offset: tracks.last().frame_offset,
                },
            )
        } else {
            before
        }
    }
}

/// The length of the disc in frames: the furthest end of any track, each
/// end cut to 32 bits.
pub open spec fn disc_length(tracks: Seq<TrackInfo>) -> u32
    decreases tracks.len(),
{
    if tracks.len() == 0 {
        0
    } else {
        let before = disc_length(tracks.drop_last());
        let end = wrapped_sum(tracks.last().frame_offset, tracks.last().frames);
        if end > before {
            end
        } else {
            before
        }
    }
}

/// A table of contents can be built: there is an audio track, and the
/// biased offsets and the lead-out fit in 32 bits.
pub open spec fn chd_toc_possible(tracks: Seq<TrackInfo>) -> bool {
    &&& audio_entries(tracks).len() > 0
    &&& disc_length(tracks) + 150 <= u32::MAX
    &&& forall|i: int|
        0 <= i < audio_entries(tracks).len() ==> (#[trigger] audio_entries(tracks)[i]).offset + 150
            <= u32::MAX
}

/// `toc` is the table of contents of the tracks of an image: there is one
/// exactly where it is possible; its first and last track are those of
/// the first and the last entry, its lead-out is the length of the disc
/// and the pregap, and its offsets are those of the entries, each with
/// the pregap.
pub open spec fn is_image_toc(toc: Option<DiscTOC>, tracks: Seq<TrackInfo>) -> bool {
    &&& toc is Some <==> chd_toc_possible(tracks)
    &&& toc matches Some(t) ==> t.first_track == audio_entries(tracks)[0].number && t.last_track
        == audio_entries(tracks).last().number && t.lead_out == disc_length(tracks) + 150
        && t.track_offsets@.len() == audio_entries(tracks).len() && forall|i: int|
        0 <= i < t.track_offsets@.len() ==> #[trigger] t.track_offsets@[i] == audio_entries(
            tracks,
        )[i].offset + 150
}

/// Builds the table of contents from the tracks of an image. There is none
/// unless the image has an audio track.
pub fn extract_toc_from_tracks(tracks: &Vec<TrackInfo>) -> (r: Option<DiscTOC>)
    ensures
        is_image_toc(r, tracks@),
{
    let mut infos: Vec<TocTrackInfo> = Vec::new();
    let mut total: u32 = 0;
    let mut i: usize = 0;
    proof {
        assert(tracks@.take(0) =~= Seq::<TrackInfo>::empty());
    }
    while i < tracks.len()
        invariant
            i <= tracks@.len(),
            total == disc_length(tracks@.take(i as int)),
            infos@.len() == audio_entries(tracks@.take(i as int)).len(),
            forall|k: int|
                0 <= k < infos@.len() ==> (#[trigger] infos@[k]).number == audio_entries(
                    tracks@.take(i as int),
                )[k].number && infos@[k].offset == audio_entries(tracks@.take(i as int))[k].offset,
        decreases tracks@.len() - i,
    {
        let t = &tracks[i];
        proof {
            let now = tracks@.take(i + 1);
            assert(now.drop_last() =~= tracks@.take(i as int));
            assert(now.last() == tracks@[i as int]);
        }
        if is_audio_track(t.track_type.as_str()) {
            let ghost before = infos@;
            infos.push(
                TocTrackInfo {
                    number: #[verifier::truncate]
                    (t.track_num as u8),
                    offset: t.frame_offset,
                    track_type: t.track_type.clone(),
                },
            );
            proof {
                assert forall|k: int| 0 <= k < before.len() implies infos@[k] == before[k] by {}
            }
        }
        let end: u32 = t.frame_offset.wrapping_add(t.frames);
        if end > total {
            total = end;
        }
        i = i + 1;
    }
    proof {
        assert(tracks@.take(i as int) =~= tracks@);
    }
    if infos.len() == 0 || total > 0xffff_ffff - 150 {
        return None;
    }
    let ghost wanted = audio_entries(tracks@);
    let mut k: usize = 0;
    while k < infos.len()
        invariant
            k <= infos@.len(),
            wanted == audio_entries(tracks@),
            infos@.len() == wanted.len(),
            forall|j: int|
                0 <= j < infos@.len() ==> (#[trigger] infos@[j]).number == wanted[j].number
                    && infos@[j].offset == wanted[j].offset,
            forall|j: int| 0 <= j < k ==> (#[trigger] wanted[j]).offset + 150 <= u32::MAX,
        decreases infos@.len() - k,
    {
        if infos[k].offset > 0xffff_ffff - 150 {
            proof {
                assert(wanted[k as int].offset + 150 > u32::MAX);
            }
            return None;
        }
        k = k + 1;
    }
    proof {
        assert forall|j: int| 0 <= j < infos@.len() implies (#[trigger] infos@[j]).offset + 150
            <= u32::MAX by {
            assert(wanted[j].offset + 150 <= u32::MAX);
        }
    }
    let ghost given = infos@;
    let toc = DiscTOC::from_tracks(infos, total);
    proof {
        let t = toc->0;
        assert forall|j: int| 0 <= j < t.track_offsets@.len() implies #[trigger] t.track_offsets@[j]
            == wanted[j].offset + 150 by {
            assert(given[j].offset == wanted[j].offset);
        }
        assert(given.last() == given[given.len() - 1]);
    }
    toc
}

/// Where the volume descriptor of a track lies in the decoded stream:
/// sector 16 of the track, frames of 2448 bytes.
pub open spec fn track_pvd_offset(track: TrackInfo) -> int {
    track.frame_offset * 2448 + 16 * 2448 + sector_geometry(track.track_type@).1
}

/// Where the header of a hierarchical filesystem of a track lies in the
/// decoded stream.
pub open spec fn track_hfs_offset(track: TrackInfo) -> int {
    track.frame_offset * 2448 + sector_geometry(track.track_type@).1 + 1024
}

/// The offset of the volume descriptor of the first data track, at or
/// after `from`, that has one.
pub open spec fn first_pvd_from(image: Seq<u8>, tracks: Seq<TrackInfo>, from: int) -> Option<int>
    decreases tracks.len() - from,
{
    if from < 0 || from >= tracks.len() {
        None
    } else if data_type(tracks[from].track_type@) && pvd_at(image, track_pvd_offset(tracks[from])) {
        Some(track_pvd_offset(tracks[from]))
    } else {
        first_pvd_from(image, tracks, from + 1)
    }
}

/// Where the volume descriptor of an image lies: in the first data track
/// that has one; in an image without track metadata, at sector 16 of
/// cooked or of raw sectors.
pub open spec fn chd_pvd_offset(image: Seq<u8>, tracks: Seq<TrackInfo>) -> Option<int> {
    if tracks.len() == 0 {
        if pvd_at(image, 32768) {
            Some(32768)
        } else if pvd_at(image, 37648) {
            Some(37648)
        } else {
            None
        }
    } else {
        first_pvd_from(image, tracks, 0)
    }
}

/// Where the header of a hierarchical filesystem is probed: at logical
/// byte 1024 of the first data track; in an image without data tracks, at
/// byte 1024 and, if nothing is found there, at byte 1040.
pub open spec fn chd_hfs_offset(image: Seq<u8>, tracks: Seq<TrackInfo>) -> Option<int> {
    match first_data_track_from(tracks, 0) {
        Some(k) => if in_range(image.len(), track_hfs_offset(tracks[k]), 512) {
            Some(track_hfs_offset(tracks[k]))
        } else {
            None
        },
        None => {
            if in_range(image.len(), 1024, 512) && hfs_kind_at(image.subrange(1024, 1536), 0)
                != FilesystemType::Unknown {
                Some(1024)
            } else if in_range(image.len(), 1040, 512) {
                Some(1040)
            } else {
                None
            }
        },
    }
}

/// An image with tracks, none of which holds data.
pub open spec fn audio_only(tracks: Seq<TrackInfo>) -> bool {
    tracks.len() > 0 && first_data_track_from(tracks, 0) is None
}

/// The detection that the partition map of an image leads to.
pub open spec fn partition_probe(d: Detection, image: Seq<u8>) -> bool {
    hfs_partition_offset(image) matches Some(offset) && offset + 1024 <= u64::MAX && hfs_kind_at(
        image,
        offset + 1024,
    ) != FilesystemType::Unknown && d.is_hfs_probe(image, offset + 1024)
}

/// Whether the partition map of an image leads to a filesystem.
pub open spec fn partition_found(image: Seq<u8>) -> bool {
    hfs_partition_offset(image) matches Some(offset) && offset + 1024 <= u64::MAX && hfs_kind_at(
        image,
        offset + 1024,
    ) != FilesystemType::Unknown
}

/// This detection is what the decoded stream of an image holds: the
/// hierarchical filesystem that a partition map leads to; else the ISO
/// 9660 volume of a data track; else the hierarchical filesystem at the
/// fixed offset; else nothing. An image of audio tracks alone is not
/// probed.
pub open spec fn chd_detected(d: Detection, image: Seq<u8>, tracks: Seq<TrackInfo>) -> bool {
    if audio_only(tracks) {
        d.is_unknown()
    } else if partition_found(image) {
        partition_probe(d, image)
    } else {
        match chd_pvd_offset(image, tracks) {
            Some(offset) => d.is_iso(image.subrange(offset, offset + 2048)),
            None => match chd_hfs_offset(image, tracks) {
                Some(offset) => d.is_hfs_probe(image.subrange(offset, offset + 512), 0),
                None => d.is_unknown(),
            },
        }
    }
}

/// Reads the volume descriptor of an image from its decoded stream.
pub fn read_pvd_from_chd<R: SectorReader>(reader: &mut R, tracks: &Vec<TrackInfo>) -> (r: Option<
    PrimaryVolumeDescriptor,
>)
    requires
        old(reader).wf(),
    ensures
        final(reader).wf(),
        final(reader).image() == old(reader).image(),
        r is Some <==> chd_pvd_offset(old(reader).image(), tracks@) is Some,
        r matches Some(pvd) ==> pvd.holds(
            old(reader).image().subrange(
                chd_pvd_offset(old(reader).image(), tracks@)->0,
                chd_pvd_offset(old(reader).image(), tracks@)->0 + 2048,
            ),
        ),
{
    let ghost image = reader.image();
    if tracks.len() == 0 {
        return try_legacy_pvd_read(reader);
    }
    let mut k: usize = 0;
    while k < tracks.len()
        invariant
            k <= tracks@.len(),
            tracks@.len() > 0,
            reader.wf(),
            reader.image() == image,
            image == old(reader).image(),
            chd_pvd_offset(image, tracks@) == first_pvd_from(image, tracks@, k as int),
        decreases tracks@.len() - k,
    {
        let track = &tracks[k];
        if is_data_track(track.track_type.as_str()) {
            let (_, data_offset) = get_track_sector_size(track.track_type.as_str());
            let offset: u64 = track.frame_offset as u64 * 2448 + 16 * 2448 + data_offset as u64;
            match probe_pvd(reader, offset) {
                Some(pvd) => {
                    return Some(pvd);
                },
                None => {},
            }
        }
        k = k + 1;
    }
    None
}

/// Reads the volume descriptor of an image without track metadata: at
/// sector 16 of cooked sectors, then of raw sectors.
pub fn try_legacy_pvd_read<R: SectorReader>(reader: &mut R) -> (r: Option<PrimaryVolumeDescriptor>)
    requires
        old(reader).wf(),
    ensures
        final(reader).wf(),
        final(reader).image() == old(reader).image(),
        r is Some <==> chd_pvd_offset(old(reader).image(), Seq::empty()) is Some,
        r matches Some(pvd) ==> pvd.holds(
            old(reader).image().subrange(
                chd_pvd_offset(old(reader).image(), Seq::empty())->0,
                chd_pvd_offset(old(reader).image(), Seq::empty())->0 + 2048,
            ),
        ),
{
    match probe_pvd(reader, 16 * 2048) {
        Some(pvd) => {
            return Some(pvd);
        },
        None => {},
    }
    probe_pvd(reader, 16 * 2352 + 16)
}

/// Probes 512 bytes of the decoded stream for the header of a
/// hierarchical filesystem.
pub fn read_hfs_data_at_offset<R: SectorReader>(reader: &mut R, physical_offset: u64) -> (r: Detection)
    requires
        old(reader).wf(),
    ensures
        final(reader).wf(),
        final(reader).image() == old(reader).image(),
        if in_range(old(reader).image().len(), physical_offset as int, 512) {
            r.is_hfs_probe(
                old(reader).image().subrange(physical_offset as int, physical_offset + 512),
                0,
            )
        } else {
            r.is_unknown()
        },
{
    match reader.read_bytes(physical_offset, 512) {
        Ok(block) => probe_hfs_block(block.as_slice()),
        Err(_) => Detection::unknown(),
    }
}

/// Probes the header of a hierarchical filesystem of an image.
pub fn read_hfs_headers_from_chd<R: SectorReader>(reader: &mut R, tracks: &Vec<TrackInfo>) -> (r:
    Detection)
    requires
        old(reader).wf(),
    ensures
        final(reader).wf(),
        final(reader).image() == old(reader).image(),
        match chd_hfs_offset(old(reader).image(), tracks@) {
            Some(offset) => r.is_hfs_probe(old(reader).image().subrange(offset, offset + 512), 0),
            None => r.is_unknown(),
        },
{
    match first_data_track(tracks) {
        Some(k) => {
            let track = &tracks[k];
            let (_, data_offset) = get_track_sector_size(track.track_type.as_str());
            let offset: u64 = track.frame_offset as u64 * 2448 + data_offset as u64 + 1024;
            read_hfs_data_at_offset(reader, offset)
        },
        None => {
            let cooked = read_hfs_data_at_offset(reader, 1024);
            match cooked.filesystem {
                FilesystemType::Unknown => read_hfs_data_at_offset(reader, 1040),
                _ => cooked,
            }
        },
    }
}

/// Finds the filesystem on the decoded stream of an image.
pub fn detect_filesystem_from_chd<R: SectorReader>(reader: &mut R, tracks: &Vec<TrackInfo>) -> (r:
    Detection)
    requires
        old(reader).wf(),
    ensures
        final(reader).wf(),
        final(reader).image() == old(reader).image(),
        chd_detected(r, old(reader).image(), tracks@),
{
    if tracks.len() > 0 && first_data_track(tracks).is_none() {
        return Detection::unknown();
    }
    match find_hfs_partition_offset(reader) {
        Ok(offset) => match offset.checked_add(1024) {
            Some(position) => {
                let found = probe_hfs_at(reader, position);
                match found.filesystem {
                    FilesystemType::Unknown => {},
                    _ => {
                        return found;
                    },
                }
            },
            None => {},
        },
        Err(_) => {},
    }
    match read_pvd_from_chd(reader, tracks) {
        Some(pvd) => {
            return Detection::iso(pvd);
        },
        None => {},
    }
    read_hfs_headers_from_chd(reader, tracks)
}

/// Reads a compressed-hunk image: `reader` reads its decoded stream,
/// `entries` are the entries of its track metadata, and the sizes are
/// those that its header gives.
pub fn read_chd<R: SectorReader>(
    reader: &mut R,
    entries: &Vec<String>,
    hunk_size: u32,
    logical_size: u64,
) -> (r: ChdInfo)
    requires
        old(reader).wf(),
    ensures
        final(reader).wf(),
        final(reader).image() == old(reader).image(),
        r.hunk_size == hunk_size,
        r.logical_size == logical_size,
        r.metadata is None,
        exists|tracks: Seq<TrackInfo>|
            chd_models(tracks) == image_tracks(crate::text::string_views(entries@))
                && is_image_toc(r.toc, tracks) && chd_detected(
                Detection {
                    filesystem: r.filesystem,
                    volume_label: r.volume_label,
                    pvd: r.pvd,
                    hfs_mdb: r.hfs_mdb,
                    hfsplus_header: r.hfsplus_header,
                },
                old(reader).image(),
                tracks,
            ),
{
    let tracks = parse_track_metadata(entries);
    let detection = detect_filesystem_from_chd(reader, &tracks);
    let toc = extract_toc_from_tracks(&tracks);
    let info = ChdInfo {
        volume_label: detection.volume_label,
        pvd: detection.pvd,
        metadata: None,
        hunk_size,
        logical_size,
        toc,
        hfs_mdb: detection.hfs_mdb,
        hfsplus_header: detection.hfsplus_header,
        filesystem: detection.filesystem,
    };
    proof {
        assert(chd_models(tracks@) == image_tracks(crate::text::string_views(entries@)));
    }
    info
}

} // verus!

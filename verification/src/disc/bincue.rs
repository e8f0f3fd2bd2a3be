//! Track-sheet images: a sheet that describes the tracks of one or more
//! binary files.
//!
//! The sheet is text and the binary files are read by the caller; what is
//! decided here is which tracks the sheet describes, which file holds the
//! data track, where in it the volume descriptors lie, and what the table
//! of contents is.

use vstd::prelude::*;
use crate::disc::browse::reader::SectorReader;
use crate::disc::cue::{
    command_models, cue_commands, get_logical_sector_size, get_track_params, index_frames,
    index_frames_of, logical_sector_size, parse_cue_commands, track_params, CueCommand,
    CueCommandModel, CueTrackType,
};
use crate::disc::detect::{label_text, probe_hfs_block, probe_pvd, pvd_at, Detection};
use crate::disc::formats::FilesystemType;
use crate::disc::hfs::MasterDirectoryBlock;
use crate::disc::hfsplus::HfsPlusVolumeHeader;
use crate::disc::iso9660::{PrimaryVolumeDescriptor, PVD_SECTOR};
use crate::disc::toc::{DiscTOC, TrackInfo};
use crate::paths::{
    file_name_of, file_stem_of, join_path, path_file_name, path_file_stem, path_join,
};
use crate::text::search::{
    lines_of, replace_in, replace_sub, split_lines, starts_with, starts_with_chars,
};
use crate::text::trim::{trim, trim_chars};
use crate::text::{chars_of, concat2, string_of, views};

verus! {

/// Errors of reading a track-sheet image.
#[derive(Debug)]
pub enum BinCueError {
    /// A read failed.
    Io(String),
    /// The sheet could not be parsed.
    CueParse(String),
    /// The binary file was not found.
    BinNotFound(String),
    /// The sheet describes no data track.
    NoDataTrack,
    /// The ISO 9660 volume descriptor could not be parsed.
    Iso9660(String),
}

impl BinCueError {
    /// The text of the message: what went wrong, then the detail.
    pub open spec fn message_text(self) -> Seq<char> {
        match self {
            BinCueError::Io(e) => "IO error: "@ + e@,
            BinCueError::CueParse(s) => "CUE parse error: "@ + s@,
            BinCueError::BinNotFound(s) => "BIN file not found: "@ + s@,
            BinCueError::NoDataTrack => "No data track found in CUE sheet"@,
            BinCueError::Iso9660(s) => "ISO9660 error: "@ + s@,
        }
    }

    /// The message of the error, as it is shown to a user.
    pub fn message(&self) -> (r: String)
        ensures
            r@ == self.message_text(),
    {
        match self {
            BinCueError::Io(e) => concat2("IO error: ", e.as_str()),
            BinCueError::CueParse(s) => concat2("CUE parse error: ", s.as_str()),
            BinCueError::BinNotFound(s) => concat2("BIN file not found: ", s.as_str()),
            BinCueError::NoDataTrack => "No data track found in CUE sheet".to_owned(),
            BinCueError::Iso9660(s) => concat2("ISO9660 error: ", s.as_str()),
        }
    }
}

/// What was found out about a track-sheet image.
#[derive(Debug, Clone)]
pub struct BinCueInfo {
    /// Volume label, if one was found.
    pub volume_label: Option<String>,
    /// Primary volume descriptor, on ISO 9660.
    pub pvd: Option<PrimaryVolumeDescriptor>,
    /// Path of the binary file.
    pub bin_path: String,
    /// Number of tracks.
    pub track_count: usize,
    /// Table of contents, on discs with audio tracks.
    pub toc: Option<DiscTOC>,
    /// Master directory block, on the classic filesystem.
    pub hfs_mdb: Option<MasterDirectoryBlock>,
    /// Volume header, on the extended filesystem.
    pub hfsplus_header: Option<HfsPlusVolumeHeader>,
    /// Filesystem that was found.
    pub filesystem: FilesystemType,
}

/// A track of a sheet.
#[derive(Debug, Clone)]
pub struct ParsedTrack {
    /// Track number.
    pub track_no: u32,
    /// Track type.
    pub track_type: CueTrackType,
    /// Physical sector size.
    pub sector_size: u64,
    /// Offset of the user data in a sector.
    pub data_offset: u64,
    /// Whether the track holds data.
    pub is_data: bool,
    /// The binary file that holds the track.
    pub bin_filename: String,
    /// Position of index 01: minutes, seconds, frames.
    pub index_01: Option<(i32, i8, i8)>,
}

/// A track, as mathematical values.
pub struct TrackModel {
    /// Track number.
    pub track_no: u32,
    /// Track type.
    pub track_type: CueTrackType,
    /// The binary file that holds the track.
    pub bin_filename: Seq<char>,
    /// Position of index 01.
    pub index_01: Option<(i32, i8, i8)>,
}

impl View for ParsedTrack {
    type V = TrackModel;

    open spec fn view(&self) -> TrackModel {
        TrackModel {
            track_no: self.track_no,
            track_type: self.track_type,
            bin_filename: self.bin_filename@,
            index_01: self.index_01,
        }
    }
}

impl ParsedTrack {
    /// The geometry is the one that belongs to the track type.
    pub open spec fn consistent(&self) -> bool {
        (self.sector_size, self.data_offset, self.is_data) == track_params(self.track_type)
    }
}

/// The models of a sequence of tracks.
pub open spec fn track_models(tracks: Seq<ParsedTrack>) -> Seq<TrackModel> {
    Seq::new(tracks.len(), |i: int| tracks[i]@)
}

/// Every track has the geometry of its type.
pub open spec fn all_consistent(tracks: Seq<ParsedTrack>) -> bool {
    forall|i: int| 0 <= i < tracks.len() ==> (#[trigger] tracks[i]).consistent()
}

/// The lines that are kept: all but those that begin, after leading
/// whitespace, with `CATALOG`. Each kept line ends in a line feed.
pub open spec fn kept_lines(lines: Seq<Seq<char>>) -> Seq<char>
    decreases lines.len(),
{
    if lines.len() == 0 {
        Seq::empty()
    } else {
        let before = kept_lines(lines.drop_last());
        if starts_with(trim(lines.last()), "CATALOG"@) {
            before
        } else {
            before + lines.last() + seq!['\n']
        }
    }
}

/// The keywords of file formats in the spelling that the parser knows.
pub open spec fn fix_keywords(text: Seq<char>) -> Seq<char> {
    replace_sub(
        replace_sub(
            replace_sub(
                replace_sub(replace_sub(text, "BINARY"@, "Binary"@), "MOTOROLA"@, "Motorola"@),
                " WAVE"@,
                " Wave"@,
            ),
            " MP3"@,
            " Mp3"@,
        ),
        " AIFF"@,
        " Aiff"@,
    )
}

/// A sheet made fit for the parser.
pub open spec fn normalized_cue(content: Seq<char>) -> Seq<char> {
    fix_keywords(kept_lines(lines_of(content)))
}

/// The tracks after one more command: a file command names the file of
/// the tracks that follow; a track command adds a track in the current
/// file (`unknown.bin` if there is none yet); an index 01 sets the
/// position of the track added last.
pub open spec fn tracks_after(
    tracks: Seq<TrackModel>,
    file: Option<Seq<char>>,
    command: CueCommandModel,
) -> (Seq<TrackModel>, Option<Seq<char>>) {
    match command {
        CueCommandModel::File(name) => (tracks, Some(name)),
        CueCommandModel::Track(number, kind) => (
            tracks.push(
                TrackModel {
                    track_no: number,
                    track_type: kind,
                    bin_filename: match file {
                        Some(name) => name,
                        None => "unknown.bin"@,
                    },
                    index_01: None,
                },
            ),
            file,
        ),
        CueCommandModel::Index(number, m, s, f) => {
            if number == 1 && tracks.len() > 0 {
                (
                    tracks.update(
                        tracks.len() - 1,
                        TrackModel { index_01: Some((m, s, f)), ..tracks.last() },
                    ),
                    file,
                )
            } else {
                (tracks, file)
            }
        },
        CueCommandModel::Other => (tracks, file),
    }
}

/// The tracks that a sequence of commands describes.
pub open spec fn tracks_of(commands: Seq<CueCommandModel>) -> (Seq<TrackModel>, Option<Seq<char>>)
    decreases commands.len(),
{
    if commands.len() == 0 {
        (Seq::empty(), None)
    } else {
        let before = tracks_of(commands.drop_last());
        tracks_after(before.0, before.1, commands.last())
    }
}

/// The index of the first track that holds data.
pub open spec fn first_data_from(tracks: Seq<ParsedTrack>, from: int) -> Option<int>
    decreases tracks.len() - from,
{
    if from < 0 || from >= tracks.len() {
        None
    } else if tracks[from].is_data {
        Some(from)
    } else {
        first_data_from(tracks, from + 1)
    }
}

/// Normalizes a sheet for the parser: lines that begin with `CATALOG` are
/// dropped, and the keywords of file formats are spelled as the parser
/// knows them.
pub fn normalize_cue_keywords(content: &str) -> (r: String)
    ensures
        r@ == normalized_cue(content@),
{
    let chars = chars_of(content);
    let lines = split_lines(chars.as_slice());
    let catalog = chars_of("CATALOG");
    let mut result: Vec<char> = Vec::new();
    let mut i: usize = 0;
    proof {
        assert(views(lines@).take(0) =~= Seq::<Seq<char>>::empty());
    }
    while i < lines.len()
        invariant
            i <= lines@.len(),
            catalog@ == "CATALOG"@,
            result@ == kept_lines(views(lines@).take(i as int)),
        decreases lines@.len() - i,
    {
        let trimmed = trim_chars(lines[i].as_slice());
        proof {
            let now = views(lines@).take(i + 1);
            assert(now.drop_last() =~= views(lines@).take(i as int));
            assert(now.last() == lines@[i as int]@);
        }
        if !starts_with_chars(trimmed.as_slice(), catalog.as_slice()) {
            result.extend_from_slice(lines[i].as_slice());
            result.push('\n');
        }
        i = i + 1;
    }
    proof {
        assert(views(lines@).take(i as int) =~= views(lines@));
    }
    let fixed = fix_format_keywords(result.as_slice());
    string_of(fixed.as_slice())
}

/// Spells the keywords of file formats as the parser knows them.
pub fn fix_format_keywords(text: &[char]) -> (r: Vec<char>)
    ensures
        r@ == fix_keywords(text@),
{
    let a = replace_in(text, chars_of("BINARY").as_slice(), chars_of("Binary").as_slice());
    let b = replace_in(a.as_slice(), chars_of("MOTOROLA").as_slice(), chars_of("Motorola").as_slice());
    let c = replace_in(b.as_slice(), chars_of(" WAVE").as_slice(), chars_of(" Wave").as_slice());
    let d = replace_in(c.as_slice(), chars_of(" MP3").as_slice(), chars_of(" Mp3").as_slice());
    replace_in(d.as_slice(), chars_of(" AIFF").as_slice(), chars_of(" Aiff").as_slice())
}

/// The tracks that the commands of a sheet describe.
pub fn collect_tracks(commands: &Vec<CueCommand>) -> (r: Vec<ParsedTrack>)
    ensures
        track_models(r@) == tracks_of(command_models(commands@)).0,
        all_consistent(r@),
{
    let mut tracks: Vec<ParsedTrack> = Vec::new();
    let mut current: Option<String> = None;
    let mut i: usize = 0;
    proof {
        assert(command_models(commands@).take(0) =~= Seq::<CueCommandModel>::empty());
        assert(track_models(tracks@) =~= Seq::<TrackModel>::empty());
    }
    while i < commands.len()
        invariant
            i <= commands@.len(),
            all_consistent(tracks@),
            track_models(tracks@) == tracks_of(command_models(commands@).take(i as int)).0,
            label_text(current) == tracks_of(command_models(commands@).take(i as int)).1,
        decreases commands@.len() - i,
    {
        proof {
            let now = command_models(commands@).take(i + 1);
            assert(now.drop_last() =~= command_models(commands@).take(i as int));
            assert(now.last() == commands@[i as int]@);
        }
        let ghost before = track_models(tracks@);
        match &commands[i] {
            CueCommand::File(name) => {
                current = Some(name.clone());
            },
            CueCommand::Track(number, kind) => {
                let (sector_size, data_offset, is_data) = get_track_params(kind);
                let bin_filename: String = match &current {
                    Some(name) => name.clone(),
                    None => "unknown.bin".to_owned(),
                };
                let track = ParsedTrack {
                    track_no: *number,
                    track_type: *kind,
                    sector_size,
                    data_offset,
                    is_data,
                    bin_filename,
                    index_01: None,
                };
                proof {
                    assert(track_models(tracks@.push(track)) =~= before.push(track@));
                }
                tracks.push(track);
            },
            CueCommand::Index(number, m, s, f) => {
                if *number == 1 && tracks.len() > 0 {
                    let last: usize = tracks.len() - 1;
                    let ghost old_tracks = tracks@;
                    let mut track = tracks.pop().unwrap();
                    track.index_01 = Some((*m, *s, *f));
                    proof {
                        assert(track_models(tracks@.push(track)) =~= before.update(
                            before.len() - 1,
                            TrackModel { index_01: Some((*m, *s, *f)), ..before.last() },
                        )) by {
                            assert(before.last() == old_tracks[last as int]@);
                            assert(tracks@ =~= old_tracks.take(last as int));
                        }
                        assert(all_consistent(tracks@.push(track))) by {
                            assert(old_tracks[last as int].consistent());
                            assert forall|k: int| 0 <= k < tracks@.push(track).len() implies (
                            #[trigger] tracks@.push(track)[k]).consistent() by {
                                if k < last {
                                    assert(tracks@.push(track)[k] == old_tracks[k]);
                                }
                            }
                        }
                    }
                    tracks.push(track);
                }
            },
            CueCommand::Other => {},
        }
        i = i + 1;
    }
    proof {
        assert(command_models(commands@).take(i as int) =~= command_models(commands@));
    }
    tracks
}

/// Parses a sheet into its tracks. A sheet that the parser rejects, or
/// one without any track, is an error.
pub fn parse_tracks(cue_content: &str) -> (r: Result<Vec<ParsedTrack>, BinCueError>)
    ensures
        match r {
            Ok(tracks) => (cue_commands(normalized_cue(cue_content@)) matches Some(commands)
                && track_models(tracks@) == tracks_of(commands).0) && tracks@.len() > 0
                && all_consistent(tracks@),
            Err(e) => e is CueParse && match cue_commands(normalized_cue(cue_content@)) {
                Some(commands) => tracks_of(commands).0.len() == 0,
                None => true,
            },
        },
{
    let normalized = normalize_cue_keywords(cue_content);
    let commands = match parse_cue_commands(normalized.as_str()) {
        Ok(v) => v,
        Err(e) => {
            return Err(BinCueError::CueParse(e));
        },
    };
    let tracks = collect_tracks(&commands);
    if tracks.len() == 0 {
        return Err(BinCueError::CueParse("No TRACK entries in CUE sheet".to_owned()));
    }
    Ok(tracks)
}

/// The first track that holds data.
pub fn first_data_track(tracks: &Vec<ParsedTrack>) -> (r: Option<usize>)
    ensures
        match r {
            Some(k) => first_data_from(tracks@, 0) == Some(k as int) && k < tracks@.len()
                && tracks@[k as int].is_data,
            None => first_data_from(tracks@, 0) is None,
        },
{
    let mut k: usize = 0;
    while k < tracks.len()
        invariant
            k <= tracks@.len(),
            first_data_from(tracks@, 0) == first_data_from(tracks@, k as int),
        decreases tracks@.len() - k,
    {
        if tracks[k].is_data {
            return Some(k);
        }
        k = k + 1;
    }
    None
}

/// The index of the track whose binary file is the primary one: the first
/// data track, or the first track if there is no data track.
pub fn primary_track(tracks: &Vec<ParsedTrack>) -> (r: usize)
    requires
        tracks@.len() > 0,
    ensures
        r < tracks@.len(),
        r == match first_data_from(tracks@, 0) {
            Some(k) => k,
            None => 0,
        },
{
    match first_data_track(tracks) {
        Some(k) => k,
        None => 0,
    }
}

/// The extensions that a binary file may have.
pub open spec fn bin_extensions() -> Seq<Seq<char>> {
    seq!["bin"@, "BIN"@, "img"@, "IMG"@]
}

/// The paths `dir/stem.ext` for the four extensions of binary files.
pub open spec fn stem_candidates(dir: Seq<char>, stem: Seq<char>) -> Seq<Seq<char>> {
    Seq::new(4, |i: int| path_join(dir, stem + seq!['.'] + bin_extensions()[i]))
}

/// Where the binary file of a sheet may lie, in the order in which the
/// places are tried: the name as the sheet gives it, its last component,
/// its stem with each of the four extensions, and the stem of the sheet
/// itself with each of them.
pub open spec fn bin_candidates(dir: Seq<char>, name: Seq<char>, cue_path: Option<Seq<char>>) -> Seq<
    Seq<char>,
> {
    let direct = seq![path_join(dir, name)];
    let by_name = match path_file_name(name) {
        Some(last) => seq![path_join(dir, last)],
        None => Seq::empty(),
    };
    let by_stem = stem_candidates(
        dir,
        match path_file_stem(name) {
            Some(stem) => stem,
            None => Seq::empty(),
        },
    );
    let by_cue = match cue_path {
        Some(cue) => match path_file_stem(cue) {
            Some(stem) => stem_candidates(dir, stem),
            None => Seq::empty(),
        },
        None => Seq::empty(),
    };
    direct + by_name + by_stem + by_cue
}

/// Appends `dir/stem.ext` for the four extensions of binary files.
fn push_stem_candidates(out: &mut Vec<String>, dir: &str, stem: &str)
    ensures
        crate::text::string_views(final(out)@) == crate::text::string_views(old(out)@)
            + stem_candidates(dir@, stem@),
        final(out)@.len() == old(out)@.len() + 4,
{
    let ghost start = crate::text::string_views(out@);
    let a = join_path(dir, concat2(stem, ".bin").as_str());
    let b = join_path(dir, concat2(stem, ".BIN").as_str());
    let c = join_path(dir, concat2(stem, ".img").as_str());
    let d = join_path(dir, concat2(stem, ".IMG").as_str());
    proof {
        reveal_strlit(".bin");
        reveal_strlit(".BIN");
        reveal_strlit(".img");
        reveal_strlit(".IMG");
        reveal_strlit("bin");
        reveal_strlit("BIN");
        reveal_strlit("img");
        reveal_strlit("IMG");
        assert(".bin"@ =~= seq!['.'] + "bin"@);
        assert(".BIN"@ =~= seq!['.'] + "BIN"@);
        assert(".img"@ =~= seq!['.'] + "img"@);
        assert(".IMG"@ =~= seq!['.'] + "IMG"@);
        assert(stem@ + ".bin"@ =~= stem@ + seq!['.'] + "bin"@);
        assert(stem@ + ".BIN"@ =~= stem@ + seq!['.'] + "BIN"@);
        assert(stem@ + ".img"@ =~= stem@ + seq!['.'] + "img"@);
        assert(stem@ + ".IMG"@ =~= stem@ + seq!['.'] + "IMG"@);
    }
    out.push(a);
    out.push(b);
    out.push(c);
    out.push(d);
    proof {
        assert(crate::text::string_views(out@) =~= start + stem_candidates(dir@, stem@));
    }
}

/// The places where the binary file of a sheet may lie, in the order in
/// which they are tried.
pub fn bin_path_candidates(cue_dir: &str, bin_filename: &str, cue_path: Option<&str>) -> (r: Vec<
    String,
>)
    ensures
        crate::text::string_views(r@) == bin_candidates(
            cue_dir@,
            bin_filename@,
            match cue_path {
                Some(p) => Some(p@),
                None => None,
            },
        ),
        r@.len() >= 5,
{
    let mut out: Vec<String> = Vec::new();
    out.push(join_path(cue_dir, bin_filename));
    match file_name_of(bin_filename) {
        Some(last) => {
            out.push(join_path(cue_dir, last.as_str()));
        },
        None => {},
    }
    let stem: String = match file_stem_of(bin_filename) {
        Some(s) => s,
        None => String::new(),
    };
    let ghost head = crate::text::string_views(out@);
    proof {
        assert(head =~= seq![path_join(cue_dir@, bin_filename@)] + match path_file_name(
            bin_filename@,
        ) {
            Some(last) => seq![path_join(cue_dir@, last)],
            None => Seq::<Seq<char>>::empty(),
        });
    }
    push_stem_candidates(&mut out, cue_dir, stem.as_str());
    match cue_path {
        Some(cue) => match file_stem_of(cue) {
            Some(cue_stem) => {
                push_stem_candidates(&mut out, cue_dir, cue_stem.as_str());
            },
            None => {
                proof {
                    assert(crate::text::string_views(out@) + Seq::<Seq<char>>::empty()
                        =~= crate::text::string_views(out@));
                }
            },
        },
        None => {
            proof {
                assert(crate::text::string_views(out@) + Seq::<Seq<char>>::empty()
                    =~= crate::text::string_views(out@));
            }
        },
    }
    out
}

/// The index of the first candidate that exists.
pub open spec fn first_existing(exists: Seq<bool>, from: int) -> Option<int>
    decreases exists.len() - from,
{
    if from < 0 || from >= exists.len() {
        None
    } else if exists[from] {
        Some(from)
    } else {
        first_existing(exists, from + 1)
    }
}

/// Picks the binary file of a sheet: the first of the candidate places that
/// exists. `exists[i]` says whether candidate `i` does; candidates beyond
/// the flags count as missing. If none exists, the error names the first
/// place.
pub fn resolve_bin_path_with_cue_fallback(
    cue_dir: &str,
    bin_filename: &str,
    cue_path: Option<&str>,
    exists: &Vec<bool>,
) -> (r: Result<String, BinCueError>)
    ensures
        ({
            let candidates = bin_candidates(
                cue_dir@,
                bin_filename@,
                match cue_path {
                    Some(p) => Some(p@),
                    None => None,
                },
            );
            let flags = exists@.take(
                if exists@.len() <= candidates.len() {
                    exists@.len() as int
                } else {
                    candidates.len() as int
                },
            );
            match r {
                Ok(path) => (first_existing(flags, 0) matches Some(k) && path@ == candidates[k]),
                Err(e) => first_existing(flags, 0) is None && (e matches BinCueError::BinNotFound(p)
                    && p@ == candidates[0]),
            }
        }),
{
    let mut candidates = bin_path_candidates(cue_dir, bin_filename, cue_path);
    let count: usize = if exists.len() <= candidates.len() {
        exists.len()
    } else {
        candidates.len()
    };
    let ghost flags = exists@.take(count as int);
    let ghost places = crate::text::string_views(candidates@);
    let mut k: usize = 0;
    while k < count
        invariant
            k <= count <= candidates@.len(),
            candidates@.len() >= 5,
            places == crate::text::string_views(candidates@),
            places == bin_candidates(
                cue_dir@,
                bin_filename@,
                match cue_path {
                    Some(p) => Some(p@),
                    None => None,
                },
            ),
            count == if exists@.len() <= places.len() {
                exists@.len()
            } else {
                places.len()
            },
            count <= exists@.len(),
            flags == exists@.take(count as int),
            first_existing(flags, 0) == first_existing(flags, k as int),
        decreases count - k,
    {
        if exists[k] {
            proof {
                assert(crate::text::string_views(candidates@)[k as int] == candidates@[k as int]@);
            }
            return Ok(candidates.swap_remove(k));
        }
        k = k + 1;
    }
    proof {
        assert(crate::text::string_views(candidates@)[0] == candidates@[0]@);
    }
    Err(BinCueError::BinNotFound(candidates.swap_remove(0)))
}

/// The byte at which the volume descriptor of a layout lies.
pub open spec fn pvd_offset_of(sector_size: int, data_offset: int) -> int {
    16 * sector_size + data_offset
}

/// The byte at which the header of a hierarchical filesystem lies in a
/// track: logical byte 1024 of the data, mapped through the sectors.
pub open spec fn hfs_offset_of(sector_size: int, data_offset: int, kind: CueTrackType) -> int {
    let logical = logical_sector_size(kind) as int;
    (1024int / logical) * sector_size + data_offset + 1024int % logical
}

/// The first of the three fallback layouts at which a volume descriptor
/// lies: cooked, raw mode 1, raw mode 2.
pub open spec fn fallback_offset(image: Seq<u8>) -> Option<int> {
    if pvd_at(image, pvd_offset_of(2048, 0)) {
        Some(pvd_offset_of(2048, 0))
    } else if pvd_at(image, pvd_offset_of(2352, 16)) {
        Some(pvd_offset_of(2352, 16))
    } else if pvd_at(image, pvd_offset_of(2352, 24)) {
        Some(pvd_offset_of(2352, 24))
    } else {
        None
    }
}

/// The 512 bytes at `position`, if they lie within the image.
pub open spec fn block_512(image: Seq<u8>, position: int) -> Option<Seq<u8>> {
    if crate::disc::browse::reader::in_range(image.len(), position, 512) {
        Some(image.subrange(position, position + 512))
    } else {
        None
    }
}

/// This detection is what a binary file with the given layout holds: an
/// ISO 9660 volume if a descriptor lies at sector 16; else a hierarchical
/// filesystem if its header lies at logical byte 1024; else an ISO 9660
/// volume in one of the fallback layouts; else nothing.
pub open spec fn detected(
    d: Detection,
    image: Seq<u8>,
    sector_size: int,
    data_offset: int,
    kind: CueTrackType,
) -> bool {
    let at = pvd_offset_of(sector_size, data_offset);
    let header = hfs_offset_of(sector_size, data_offset, kind);
    if at <= u64::MAX && pvd_at(image, at) {
        d.is_iso(image.subrange(at, at + 2048))
    } else if header <= u64::MAX && block_512(image, header) is Some
        && crate::disc::detect::hfs_kind_at(block_512(image, header)->0, 0)
        != FilesystemType::Unknown {
        d.is_hfs_probe(block_512(image, header)->0, 0)
    } else {
        match fallback_offset(image) {
            Some(offset) => d.is_iso(image.subrange(offset, offset + 2048)),
            None => d.is_unknown(),
        }
    }
}

/// Reads the volume descriptor of a layout: sector 16 of the track.
pub fn read_pvd_from_bin<R: SectorReader>(reader: &mut R, sector_size: u64, data_offset: u64) -> (r:
    Option<PrimaryVolumeDescriptor>)
    requires
        old(reader).wf(),
    ensures
        final(reader).wf(),
        final(reader).image() == old(reader).image(),
        r is Some <==> pvd_offset_of(sector_size as int, data_offset as int) <= u64::MAX && pvd_at(
            old(reader).image(),
            pvd_offset_of(sector_size as int, data_offset as int),
        ),
        r matches Some(pvd) ==> pvd.holds(
            old(reader).image().subrange(
                pvd_offset_of(sector_size as int, data_offset as int),
                pvd_offset_of(sector_size as int, data_offset as int) + 2048,
            ),
        ),
{
    proof {
        reader.image_fits();
    }
    let base: u64 = match PVD_SECTOR.checked_mul(sector_size) {
        Some(v) => v,
        None => {
            return None;
        },
    };
    match base.checked_add(data_offset) {
        Some(offset) => probe_pvd(reader, offset),
        None => None,
    }
}

/// Tries the three fallback layouts in turn.
pub fn try_read_pvd_fallback<R: SectorReader>(reader: &mut R) -> (r: Option<PrimaryVolumeDescriptor>)
    requires
        old(reader).wf(),
    ensures
        final(reader).wf(),
        final(reader).image() == old(reader).image(),
        r is Some <==> fallback_offset(old(reader).image()) is Some,
        r matches Some(pvd) ==> pvd.holds(
            old(reader).image().subrange(
                fallback_offset(old(reader).image())->0,
                fallback_offset(old(reader).image())->0 + 2048,
            ),
        ),
{
    match read_pvd_from_bin(reader, 2048, 0) {
        Some(pvd) => {
            return Some(pvd);
        },
        None => {},
    }
    match read_pvd_from_bin(reader, 2352, 16) {
        Some(pvd) => {
            return Some(pvd);
        },
        None => {},
    }
    read_pvd_from_bin(reader, 2352, 24)
}

/// Reads the header of a hierarchical filesystem from a track: the 512
/// bytes at logical byte 1024.
pub fn read_hfs_headers_from_bin<R: SectorReader>(
    reader: &mut R,
    sector_size: u64,
    data_offset: u64,
    track_type: &CueTrackType,
) -> (r: Detection)
    requires
        old(reader).wf(),
        logical_sector_size(*track_type) > 0,
    ensures
        final(reader).wf(),
        final(reader).image() == old(reader).image(),
        ({
            let header = hfs_offset_of(sector_size as int, data_offset as int, *track_type);
            if header <= u64::MAX && block_512(old(reader).image(), header) is Some {
                r.is_hfs_probe(block_512(old(reader).image(), header)->0, 0)
            } else {
                r.is_unknown()
            }
        }),
{
    proof {
        reader.image_fits();
    }
    let logical: u64 = get_logical_sector_size(track_type);
    let sector: u64 = 1024 / logical;
    let inner: u64 = 1024 % logical;
    assert(sector * sector_size <= 1024 * 0xffff_ffff_ffff_ffff) by (nonlinear_arith)
        requires
            sector <= 1024,
            sector_size <= 0xffff_ffff_ffff_ffff,
    ;
    let physical: u128 = sector as u128 * sector_size as u128 + data_offset as u128 + inner as u128;
    if physical > 0xffff_ffff_ffff_ffff {
        return Detection::unknown();
    }
    match reader.read_bytes(physical as u64, 512) {
        Ok(block) => probe_hfs_block(block.as_slice()),
        Err(_) => Detection::unknown(),
    }
}

/// Finds the filesystem on a binary file with the given layout.
pub fn detect_filesystem<R: SectorReader>(
    reader: &mut R,
    sector_size: u64,
    data_offset: u64,
    track_type: &CueTrackType,
) -> (r: Detection)
    requires
        old(reader).wf(),
        logical_sector_size(*track_type) > 0,
    ensures
        final(reader).wf(),
        final(reader).image() == old(reader).image(),
        detected(r, old(reader).image(), sector_size as int, data_offset as int, *track_type),
{
    match read_pvd_from_bin(reader, sector_size, data_offset) {
        Some(pvd) => {
            return Detection::iso(pvd);
        },
        None => {},
    }
    let probe = read_hfs_headers_from_bin(reader, sector_size, data_offset, track_type);
    match probe.filesystem {
        FilesystemType::Unknown => {},
        _ => {
            return probe;
        },
    }
    match try_read_pvd_fallback(reader) {
        Some(pvd) => Detection::iso(pvd),
        None => Detection::unknown(),
    }
}

/// What a track contributes to a table of contents: its number, cut to
/// eight bits, the frames of its index 01, and its type.
pub struct TocEntry {
    /// Track number.
    pub number: u8,
    /// Offset in frames.
    pub offset: u32,
    /// Track type.
    pub kind: CueTrackType,
}

/// The entry of a track: none if the track has no index 01 or its
/// position is no number of frames.
pub open spec fn toc_entry(track: ParsedTrack) -> Option<TocEntry> {
    match track.index_01 {
        None => None,
        Some((m, s, f)) => match index_frames_of(m, s, f) {
            None => None,
            Some(offset) => Some(
                TocEntry { number: track.track_no as u8, offset, kind: track.track_type },
            ),
        },
    }
}

/// The entries of the tracks, in order.
pub open spec fn toc_entries(tracks: Seq<ParsedTrack>) -> Seq<TocEntry>
    decreases tracks.len(),
{
    if tracks.len() == 0 {
        Seq::empty()
    } else {
        let before = toc_entries(tracks.drop_last());
        match toc_entry(tracks.last()) {
            Some(e) => before.push(e),
            None => before,
        }
    }
}

/// Some track is an audio track.
pub open spec fn has_audio(tracks: Seq<ParsedTrack>) -> bool {
    exists|i: int| 0 <= i < tracks.len() && (#[trigger] tracks[i]).track_type == CueTrackType::Audio
}

/// The length of the disc in frames: the size of the binary file in
/// sectors of the first track if the size is known, else 5000 frames past
/// the last entry. None if the first track has no sector size.
pub open spec fn total_frames(tracks: Seq<ParsedTrack>, bin_size: Option<u64>) -> Option<int> {
    match bin_size {
        Some(size) => {
            let sector = if tracks.len() > 0 {
                tracks[0].sector_size
            } else {
                2352
            };
            if sector == 0 {
                None
            } else {
                Some(((size / sector) as u32) as int)
            }
        },
        None => Some(toc_entries(tracks).last().offset + 5000),
    }
}

/// A table of contents can be built: there is an audio track, there are
/// entries, and the biased offsets and the lead-out fit in 32 bits.
pub open spec fn toc_possible(tracks: Seq<ParsedTrack>, bin_size: Option<u64>) -> bool {
    &&& has_audio(tracks)
    &&& toc_entries(tracks).len() > 0
    &&& total_frames(tracks, bin_size) matches Some(total) && total + 150 <= u32::MAX
    &&& forall|i: int|
        0 <= i < toc_entries(tracks).len() ==> (#[trigger] toc_entries(tracks)[i]).offset + 150
            <= u32::MAX
}

/// The name of a track type in a table of contents.
pub open spec fn kind_name(kind: CueTrackType) -> Seq<char> {
    match kind {
        CueTrackType::Audio => "AUDIO"@,
        CueTrackType::Mode(mode, _) => if mode == 1 {
            "MODE1"@
        } else if mode == 2 {
            "MODE2"@
        } else {
            "OTHER"@
        },
        _ => "OTHER"@,
    }
}

/// The entries of a list of track infos.
pub open spec fn info_entries(infos: Seq<TrackInfo>, tracks: Seq<ParsedTrack>) -> bool {
    &&& infos.len() == toc_entries(tracks).len()
    &&& forall|i: int|
        0 <= i < infos.len() ==> (#[trigger] infos[i]).number == toc_entries(tracks)[i].number
            && infos[i].offset == toc_entries(tracks)[i].offset && infos[i].track_type@
            == kind_name(toc_entries(tracks)[i].kind)
}

/// `toc` is the table of contents of a sheet: there is one exactly where it
/// is possible; its first and last track are those of the first and the
/// last entry, its lead-out is the length of the disc and the pregap, and
/// its offsets are those of the entries, each with the pregap.
pub open spec fn is_sheet_toc(toc: Option<DiscTOC>, tracks: Seq<ParsedTrack>, bin_size: Option<u64>) -> bool {
    &&& toc is Some <==> toc_possible(tracks, bin_size)
    &&& toc matches Some(t) ==> t.first_track == toc_entries(tracks)[0].number && t.last_track
        == toc_entries(tracks).last().number && t.lead_out == total_frames(tracks, bin_size)->0
        + 150 && t.track_offsets@.len() == toc_entries(tracks).len() && forall|i: int|
        0 <= i < t.track_offsets@.len() ==> #[trigger] t.track_offsets@[i] == toc_entries(
            tracks,
        )[i].offset + 150
}

/// Builds the table of contents of a sheet. There is none unless the
/// sheet has an audio track and a track with an index 01.
pub fn extract_toc(tracks: &Vec<ParsedTrack>, bin_size: Option<u64>) -> (r: Option<DiscTOC>)
    ensures
        is_sheet_toc(r, tracks@, bin_size),
{
    let mut infos: Vec<TrackInfo> = Vec::new();
    let mut audio: bool = false;
    let mut i: usize = 0;
    proof {
        assert(tracks@.take(0) =~= Seq::<ParsedTrack>::empty());
    }
    while i < tracks.len()
        invariant
            i <= tracks@.len(),
            audio == has_audio(tracks@.take(i as int)),
            info_entries(infos@, tracks@.take(i as int)),
        decreases tracks@.len() - i,
    {
        let track = &tracks[i];
        proof {
            let now = tracks@.take(i + 1);
            assert(now.drop_last() =~= tracks@.take(i as int));
            assert(now.last() == tracks@[i as int]);
            if has_audio(tracks@.take(i as int)) {
                let w = choose|w: int|
                    0 <= w < i && (#[trigger] tracks@.take(i as int)[w]).track_type
                        == CueTrackType::Audio;
                assert(now[w].track_type == CueTrackType::Audio);
            }
            if has_audio(now) && track.track_type != CueTrackType::Audio {
                let w = choose|w: int|
                    0 <= w < now.len() && (#[trigger] now[w]).track_type == CueTrackType::Audio;
                assert(tracks@.take(i as int)[w].track_type == CueTrackType::Audio);
            }
        }
        match track.track_type {
            CueTrackType::Audio => {
                audio = true;
                proof {
                    assert(tracks@.take(i + 1)[i as int].track_type == CueTrackType::Audio);
                }
            },
            _ => {},
        }
        match track.index_01 {
            Some((m, s, f)) => match index_frames(m, s, f) {
                Some(offset) => {
                    let name: &str = match track.track_type {
                        CueTrackType::Audio => "AUDIO",
                        CueTrackType::Mode(mode, _) => if mode == 1 {
                            "MODE1"
                        } else if mode == 2 {
                            "MODE2"
                        } else {
                            "OTHER"
                        },
                        _ => "OTHER",
                    };
                    let ghost before = infos@;
                    infos.push(
                        TrackInfo {
                            number: #[verifier::truncate]
                            (track.track_no as u8),
                            offset,
                            track_type: name.to_owned(),
                        },
                    );
                    proof {
                        assert forall|k: int| 0 <= k < before.len() implies infos@[k]
                            == before[k] by {}
                    }
                },
                None => {},
            },
            None => {},
        }
        i = i + 1;
    }
    proof {
        assert(tracks@.take(i as int) =~= tracks@);
    }
    if !audio || infos.len() == 0 {
        return None;
    }
    let total: u32 = match bin_size {
        Some(size) => {
            let sector: u64 = if tracks.len() > 0 {
                tracks[0].sector_size
            } else {
                2352
            };
            if sector == 0 {
                return None;
            }
            #[verifier::truncate]
            ((size / sector) as u32)
        },
        None => {
            let last: u32 = infos[infos.len() - 1].offset;
            if last > 0xffff_ffff - 5000 {
                return None;
            }
            last + 5000
        },
    };
    if total > 0xffff_ffff - 150 {
        return None;
    }
    let ghost wanted = toc_entries(tracks@);
    let mut k: usize = 0;
    while k < infos.len()
        invariant
            k <= infos@.len(),
            info_entries(infos@, tracks@),
            wanted == toc_entries(tracks@),
            forall|j: int| 0 <= j < k ==> (#[trigger] wanted[j]).offset + 150 <= u32::MAX,
        decreases infos@.len() - k,
    {
        if infos[k].offset > 0xffff_ffff - 150 {
            proof {
                assert(wanted[k as int].offset + 150 > u32::MAX);
            }
            return None;
        }
        k = k + 1;
    }
    proof {
        assert forall|j: int| 0 <= j < infos@.len() implies (#[trigger] infos@[j]).offset + 150
            <= u32::MAX by {
            assert(wanted[j].offset + 150 <= u32::MAX);
        }
    }
    let ghost given = infos@;
    let toc = DiscTOC::from_tracks(infos, total);
    proof {
        let t = toc->0;
        assert forall|j: int| 0 <= j < t.track_offsets@.len() implies #[trigger] t.track_offsets@[j]
            == wanted[j].offset + 150 by {
            assert(given[j].offset == wanted[j].offset);
        }
        assert(given.last() == given[given.len() - 1]);
    }
    toc
}

/// The geometry with which the binary file of a sheet is probed: that of
/// the first data track, or cooked mode 1 if there is none.
pub open spec fn probe_layout(tracks: Seq<ParsedTrack>) -> (u64, u64, CueTrackType) {
    match first_data_from(tracks, 0) {
        Some(k) => (tracks[k].sector_size, tracks[k].data_offset, tracks[k].track_type),
        None => (2048, 0, CueTrackType::Mode(1, 2048)),
    }
}

/// Reads a track-sheet image: the tracks are those of the sheet, `reader`
/// reads the binary file of the first data track (of the first track, if
/// there is no data track), `bin_path` is the path of that file and
/// `bin_size` its size, if it could be had.
pub fn read_bincue<R: SectorReader>(
    tracks: &Vec<ParsedTrack>,
    bin_path: String,
    bin_size: Option<u64>,
    reader: &mut R,
) -> (r: BinCueInfo)
    requires
        old(reader).wf(),
    ensures
        final(reader).wf(),
        final(reader).image() == old(reader).image(),
        r.bin_path == bin_path,
        r.track_count == tracks@.len(),
        is_sheet_toc(r.toc, tracks@, bin_size),
        ({
            let layout = probe_layout(tracks@);
            let d = Detection {
                filesystem: r.filesystem,
                volume_label: r.volume_label,
                pvd: r.pvd,
                hfs_mdb: r.hfs_mdb,
                hfsplus_header: r.hfsplus_header,
            };
            if logical_sector_size(layout.2) > 0 {
                detected(d, old(reader).image(), layout.0 as int, layout.1 as int, layout.2)
            } else {
                d.is_unknown()
            }
        }),
{
    let detection: Detection = match first_data_track(tracks) {
        Some(k) => {
            let track = &tracks[k];
            if get_logical_sector_size(&track.track_type) == 0 {
                Detection::unknown()
            } else {
                detect_filesystem(reader, track.sector_size, track.data_offset, &track.track_type)
            }
        },
        None => {
            let fallback = CueTrackType::Mode(1, 2048);
            detect_filesystem(reader, 2048, 0, &fallback)
        },
    };
    let toc = extract_toc(tracks, bin_size);
    BinCueInfo {
        volume_label: detection.volume_label,
        pvd: detection.pvd,
        bin_path,
        track_count: tracks.len(),
        toc,
        hfs_mdb: detection.hfs_mdb,
        hfsplus_header: detection.hfsplus_header,
        filesystem: detection.filesystem,
    }
}

} // verus!

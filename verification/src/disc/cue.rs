//! Track sheets: the commands of a sheet and the geometry of its tracks.
//!
//! The text of a sheet is parsed by the `cue_sheet` crate; its commands are
//! taken over into types of this library, which hold what the logic reads.

use vstd::prelude::*;

verus! {

/// CD sector size for raw data.
pub const CD_SECTOR_SIZE_RAW: u64 = 2352;

/// CD sector size for cooked data.
pub const CD_SECTOR_SIZE_COOKED: u64 = 2048;

/// Offset of the user data in a raw mode 1 sector.
pub const MODE1_DATA_OFFSET: u64 = 16;

/// Offset of the user data in a raw mode 2 sector.
pub const MODE2_DATA_OFFSET: u64 = 24;

/// The type of a track.
#[derive(Debug, Clone, Copy, PartialEq, Eq, Structural)]
pub enum CueTrackType {
    /// Audio.
    Audio,
    /// Karaoke CD+G.
    Cdg,
    /// CD-ROM data: mode and sector size.
    Mode(u8, u16),
    /// CD-i data: sector size.
    Cdi(u16),
}

/// A command of a track sheet, as far as the library reads it.
#[derive(Debug, Clone)]
pub enum CueCommand {
    /// A file to which the following commands apply.
    File(String),
    /// A track: number and type.
    Track(u32, CueTrackType),
    /// An index of the current track: number, minutes, seconds, frames.
    Index(u32, i32, i8, i8),
    /// Any other command.
    Other,
}

/// A command, as mathematical values.
pub enum CueCommandModel {
    /// A file.
    File(Seq<char>),
    /// A track.
    Track(u32, CueTrackType),
    /// An index.
    Index(u32, i32, i8, i8),
    /// Any other command.
    Other,
}

impl View for CueCommand {
    type V = CueCommandModel;

    open spec fn view(&self) -> CueCommandModel {
        match *self {
            CueCommand::File(name) => CueCommandModel::File(name@),
            CueCommand::Track(number, kind) => CueCommandModel::Track(number, kind),
            CueCommand::Index(number, m, s, f) => CueCommandModel::Index(number, m, s, f),
            CueCommand::Other => CueCommandModel::Other,
        }
    }
}

/// The models of a sequence of commands.
pub open spec fn command_models(commands: Seq<CueCommand>) -> Seq<CueCommandModel> {
    Seq::new(commands.len(), |i: int| commands[i]@)
}

/// The commands that `parse_cue` of the `cue_sheet` crate reads from a
/// sheet; `None` where it rejects the sheet.
pub uninterp spec fn cue_commands(source: Seq<char>) -> Option<Seq<CueCommandModel>>;

/// The type of a track in the `cue_sheet` crate.
#[verifier::external_type_specification]
#[verifier::external_body]
pub struct ExTrackType(cue_sheet::parser::TrackType);

/// A command in the `cue_sheet` crate.
#[verifier::external_type_specification]
#[verifier::external_body]
pub struct ExCommand(cue_sheet::parser::Command);

/// Takes a `TrackType` of the `cue_sheet` crate over, variant by variant.
#[verifier::external_body]
fn convert_track_type(kind: &cue_sheet::parser::TrackType) -> CueTrackType {
    match kind {
        cue_sheet::parser::TrackType::Audio => CueTrackType::Audio,
        cue_sheet::parser::TrackType::Cdg => CueTrackType::Cdg,
        cue_sheet::parser::TrackType::Mode(mode, size) => CueTrackType::Mode(*mode, *size),
        cue_sheet::parser::TrackType::Cdi(size) => CueTrackType::Cdi(*size),
    }
}

/// Takes a `Command` of the `cue_sheet` crate over: files, tracks and
/// indexes with their fields, anything else as `Other`.
#[verifier::external_body]
fn convert_command(command: &cue_sheet::parser::Command) -> CueCommand {
    match command {
        cue_sheet::parser::Command::File(name, _) => CueCommand::File(name.clone()),
        cue_sheet::parser::Command::Track(n, kind) => CueCommand::Track(*n, convert_track_type(kind)),
        cue_sheet::parser::Command::Index(n, t) => CueCommand::Index(
            *n,
            t.minutes(),
            t.seconds(),
            t.frames(),
        ),
        _ => CueCommand::Other,
    }
}

/// `parse_cue` of the `cue_sheet` crate: the commands of a sheet in order,
/// or the parser's complaint.
#[verifier::external_body]
pub(crate) fn parse_cue_commands(source: &str) -> (r: Result<Vec<CueCommand>, String>)
    ensures
        r is Ok <==> cue_commands(source@) is Some,
        r matches Ok(v) ==> Some(command_models(v@)) == cue_commands(source@),
{
    match cue_sheet::parser::parse_cue(source) {
        Ok(commands) => Ok(commands.iter().map(convert_command).collect()),
        Err(e) => Err(format!("{:?}", e)),
    }
}

/// The physical sector size of a track, the offset of the user data in a
/// sector, and whether the track holds data.
pub open spec fn track_params(kind: CueTrackType) -> (u64, u64, bool) {
    match kind {
        CueTrackType::Audio => (2352, 0, false),
        CueTrackType::Cdg => (2448, 0, false),
        CueTrackType::Mode(mode, size) => (
            size as u64,
            if size == 2352 {
                if mode == 1 {
                    16u64
                } else {
                    24u64
                }
            } else {
                0u64
            },
            mode == 1 || mode == 2,
        ),
        CueTrackType::Cdi(size) => (size as u64, 8, true),
    }
}

/// The logical size of the data in a sector of a data track.
pub open spec fn logical_sector_size(kind: CueTrackType) -> u64 {
    match kind {
        CueTrackType::Mode(mode, size) => if mode == 1 {
            2048
        } else if mode == 2 && size == 2352 {
            2336
        } else if mode == 2 {
            size as u64
        } else {
            2048
        },
        CueTrackType::Cdi(size) => size as u64,
        _ => 2048,
    }
}

/// The frames of an index position `minutes:seconds:frames`, if no part is
/// negative and the sum fits in 32 bits.
pub open spec fn index_frames_of(minutes: i32, seconds: i8, frames: i8) -> Option<u32> {
    if minutes < 0 || seconds < 0 || frames < 0 {
        None
    } else if (minutes * 60 + seconds) * 75 + frames > u32::MAX {
        None
    } else {
        Some(((minutes * 60 + seconds) * 75 + frames) as u32)
    }
}

/// The physical sector size of a track, the offset of the user data in a
/// sector, and whether the track holds data.
pub fn get_track_params(track_type: &CueTrackType) -> (r: (u64, u64, bool))
    ensures
        r == track_params(*track_type),
{
    match track_type {
        CueTrackType::Audio => (CD_SECTOR_SIZE_RAW, 0, false),
        CueTrackType::Cdg => (2448, 0, false),
        CueTrackType::Mode(mode, size) => {
            let is_data: bool = *mode == 1 || *mode == 2;
            let data_offset: u64 = if *size == 2352 {
                if *mode == 1 {
                    MODE1_DATA_OFFSET
                } else {
                    MODE2_DATA_OFFSET
                }
            } else {
                0
            };
            (*size as u64, data_offset, is_data)
        },
        CueTrackType::Cdi(size) => (*size as u64, 8, true),
    }
}

/// The logical size of the data in a sector of a data track.
pub fn get_logical_sector_size(track_type: &CueTrackType) -> (r: u64)
    ensures
        r == logical_sector_size(*track_type),
{
    match track_type {
        CueTrackType::Mode(mode, size) => {
            if *mode == 1 {
                CD_SECTOR_SIZE_COOKED
            } else if *mode == 2 && *size == 2352 {
                2336
            } else if *mode == 2 {
                *size as u64
            } else {
                CD_SECTOR_SIZE_COOKED
            }
        },
        CueTrackType::Cdi(size) => *size as u64,
        _ => CD_SECTOR_SIZE_COOKED,
    }
}

/// The frames of an index position.
pub fn index_frames(minutes: i32, seconds: i8, frames: i8) -> (r: Option<u32>)
    ensures
        r == index_frames_of(minutes, seconds, frames),
{
    if minutes < 0 || seconds < 0 || frames < 0 {
        return None;
    }
    let total: u64 = (minutes as u64 * 60 + seconds as u64) * 75 + frames as u64;
    if total > 0xffff_ffff {
        None
    } else {
        Some(total as u32)
    }
}

} // verus!

//! The game-state data the splitter works on: the packed `AutoSplitterInfo`
//! struct the game exposes, and the per-tick `Info` snapshot derived from it.

use vstd::prelude::*;

use crate::mem::Error;
use crate::mem::spec_read_bytes;

verus! {

/// Size in bytes of the packed `AutoSplitterInfo` payload.
pub const ASI_SIZE: u64 = 64;

/// The `AutoSplitterInfo` struct the game exposes, read from a 64-byte
/// C-layout blob. Boolean fields are single bytes where any nonzero value
/// is true.
#[derive(Clone, Copy, Debug, PartialEq, Eq, Structural)]
pub struct AutoSplitterInfo {
    /// Pointer to the boxed name of the current room (0 outside a level).
    pub level: u64,
    /// Current chapter; -1 in menus.
    pub chapter: i32,
    /// 0, 1 or 2 for the A, B or C side; -1 in menus.
    pub mode: i32,
    /// The in-game timer is running.
    pub timer_active: bool,
    /// A chapter is in progress.
    pub chapter_started: bool,
    /// The current chapter has been completed.
    pub chapter_complete: bool,
    /// Chapter time in 100 ns ticks.
    pub chapter_time: i64,
    /// Strawberries collected in the chapter.
    pub chapter_strawberries: i32,
    /// The chapter's cassette has been collected.
    pub chapter_cassette: bool,
    /// The chapter's crystal heart has been collected.
    pub chapter_heart: bool,
    /// File time in 100 ns ticks.
    pub file_time: i64,
    /// Strawberries collected on the file.
    pub file_strawberries: i32,
    /// Cassettes collected on the file.
    pub file_cassettes: i32,
    /// Crystal hearts collected on the file.
    pub file_hearts: i32,
}

/// The `i32` held little-endian at byte offset `off` of `b`.
pub open spec fn spec_i32_at(b: Seq<u8>, off: int) -> i32 {
    (vstd::bytes::spec_u32_from_le_bytes(b.subrange(off, off + 4)) as i32)
}

/// The `i64` held little-endian at byte offset `off` of `b`.
pub open spec fn spec_i64_at(b: Seq<u8>, off: int) -> i64 {
    (vstd::bytes::spec_u64_from_le_bytes(b.subrange(off, off + 8)) as i64)
}

/// The `AutoSplitterInfo` a 64-byte blob holds, field by field at the
/// offsets of its C layout.
pub open spec fn spec_asi(b: Seq<u8>) -> AutoSplitterInfo
    recommends
        b.len() == ASI_SIZE,
{
    AutoSplitterInfo {
        level: vstd::bytes::spec_u64_from_le_bytes(b.subrange(0, 8)),
        chapter: spec_i32_at(b, 8),
        mode: spec_i32_at(b, 12),
        timer_active: b[16] != 0,
        chapter_started: b[17] != 0,
        chapter_complete: b[18] != 0,
        chapter_time: spec_i64_at(b, 24),
        chapter_strawberries: spec_i32_at(b, 32),
        chapter_cassette: b[36] != 0,
        chapter_heart: b[37] != 0,
        file_time: spec_i64_at(b, 40),
        file_strawberries: spec_i32_at(b, 48),
        file_cassettes: spec_i32_at(b, 52),
        file_hearts: spec_i32_at(b, 56),
    }
}

/// What reading the packed `AutoSplitterInfo` at `addr` returns.
pub open spec fn spec_read_asi(m: Map<int, u8>, addr: u64) -> Result<AutoSplitterInfo, Error> {
    match spec_read_bytes(m, addr, ASI_SIZE) {
        Ok(b) => Ok(spec_asi(b)),
        Err(e) => Err(e),
    }
}

/// Decode a 64-byte blob as an `AutoSplitterInfo`.
pub fn decode_asi(b: &Vec<u8>) -> (r: AutoSplitterInfo)
    requires
        b@.len() == ASI_SIZE,
    ensures
        r == spec_asi(b@),
{
    let s = b.as_slice();
    let level = vstd::bytes::u64_from_le_bytes(vstd::slice::slice_subrange(s, 0, 8));
    let chapter = vstd::bytes::u32_from_le_bytes(vstd::slice::slice_subrange(s, 8, 12)) as i32;
    let mode = vstd::bytes::u32_from_le_bytes(vstd::slice::slice_subrange(s, 12, 16)) as i32;
    let timer_active = b[16] != 0;
    let chapter_started = b[17] != 0;
    let chapter_complete = b[18] != 0;
    let chapter_time = vstd::bytes::u64_from_le_bytes(vstd::slice::slice_subrange(s, 24, 32))
        as i64;
    let chapter_strawberries = vstd::bytes::u32_from_le_bytes(
        vstd::slice::slice_subrange(s, 32, 36),
    ) as i32;
    let chapter_cassette = b[36] != 0;
    let chapter_heart = b[37] != 0;
    let file_time = vstd::bytes::u64_from_le_bytes(vstd::slice::slice_subrange(s, 40, 48)) as i64;
    let file_strawberries = vstd::bytes::u32_from_le_bytes(vstd::slice::slice_subrange(s, 48, 52))
        as i32;
    let file_cassettes = vstd::bytes::u32_from_le_bytes(vstd::slice::slice_subrange(s, 52, 56))
        as i32;
    let file_hearts = vstd::bytes::u32_from_le_bytes(vstd::slice::slice_subrange(s, 56, 60))
        as i32;
    AutoSplitterInfo {
        level,
        chapter,
        mode,
        timer_active,
        chapter_started,
        chapter_complete,
        chapter_time,
        chapter_strawberries,
        chapter_cassette,
        chapter_heart,
        file_time,
        file_strawberries,
        file_cassettes,
        file_hearts,
    }
}

/// One tick's snapshot of the derived game state.
#[derive(Clone, Debug, PartialEq)]
pub struct Info {
    /// The packed struct the game exposes.
    pub asi: AutoSplitterInfo,
    /// Total deaths recorded on the save file.
    pub death_count: u32,
    /// Checkpoints reached in the current chapter and mode.
    pub checkpoint: u32,
    /// A cutscene (or chapter card / completion screen) is showing.
    pub in_cutscene: bool,
    /// The name of the current room; empty outside a level.
    pub room: String,
}

/// The mathematical image of an `Info` snapshot: the same fields with the
/// room as a character sequence.
pub struct InfoV {
    /// The packed struct the game exposes.
    pub asi: AutoSplitterInfo,
    /// Total deaths recorded on the save file.
    pub death_count: u32,
    /// Checkpoints reached in the current chapter and mode.
    pub checkpoint: u32,
    /// A cutscene is showing.
    pub in_cutscene: bool,
    /// The name of the current room.
    pub room: Seq<char>,
}

impl View for Info {
    type V = InfoV;

    open spec fn view(&self) -> InfoV {
        InfoV {
            asi: self.asi,
            death_count: self.death_count,
            checkpoint: self.checkpoint,
            in_cutscene: self.in_cutscene,
            room: self.room@,
        }
    }
}

/// The file time of `asi` in whole milliseconds (the game stores 100 ns
/// ticks).
pub open spec fn spec_file_time_ms(asi: AutoSplitterInfo) -> u64 {
    (asi.file_time as u64) / 10000
}

/// The chapter time of `asi` in whole milliseconds.
pub open spec fn spec_chapter_time_ms(asi: AutoSplitterInfo) -> u64 {
    (asi.chapter_time as u64) / 10000
}

impl Info {
    /// The file time in whole milliseconds.
    pub fn file_time(&self) -> (r: u64)
        ensures
            r == spec_file_time_ms(self.asi),
    {
        (self.asi.file_time as u64) / 10000
    }

    /// The chapter time in whole milliseconds.
    pub fn chapter_time(&self) -> (r: u64)
        ensures
            r == spec_chapter_time_ms(self.asi),
    {
        (self.asi.chapter_time as u64) / 10000
    }
}

} // verus!

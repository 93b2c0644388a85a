//! Multi-pass overwrite scheduling for secure deletion.
//!
//! The library decides which pattern each pass writes and how the file's
//! length is cut into chunks; the caller performs the writes, syncs after
//! each pass, and removes the path. Overwriting cannot reach blocks that
//! flash storage has remapped, so this is defence in depth, not a guarantee.

use vstd::prelude::*;

use crate::crypto::random_bytes;
use crate::strings::{lowercase, str_equals};

verus! {

/// Secure deletion modes.
#[derive(Debug, Clone, Copy, PartialEq, Eq)]
pub enum SecureDeleteMode {
    /// One pass of random data.
    Quick,
    /// Three passes: random, zeros, random.
    Standard,
    /// Seven passes: random, ones, random, 0xAA, 0x55, random, random.
    Paranoid,
}

/// What one overwrite pass writes.
#[derive(Debug, Clone, Copy, PartialEq, Eq)]
pub enum OverwritePattern {
    Random,
    Zeros,
    Ones,
    Pattern(u8),
}

/// Size of each write during a pass.
pub const OVERWRITE_CHUNK_SIZE: usize = 64 * 1024;

/// Number of passes of a mode.
pub open spec fn passes_of(mode: SecureDeleteMode) -> nat {
    match mode {
        SecureDeleteMode::Quick => 1,
        SecureDeleteMode::Standard => 3,
        SecureDeleteMode::Paranoid => 7,
    }
}

/// The pattern of a pass of a mode.
pub open spec fn pattern_of(mode: SecureDeleteMode, pass: int) -> OverwritePattern {
    match mode {
        SecureDeleteMode::Quick => OverwritePattern::Random,
        SecureDeleteMode::Standard => if pass == 1 {
            OverwritePattern::Zeros
        } else {
            OverwritePattern::Random
        },
        SecureDeleteMode::Paranoid => if pass == 1 {
            OverwritePattern::Ones
        } else if pass == 3 {
            OverwritePattern::Pattern(0xAA)
        } else if pass == 4 {
            OverwritePattern::Pattern(0x55)
        } else {
            OverwritePattern::Random
        },
    }
}

/// The byte a fixed pattern writes; `None` for random data.
pub open spec fn pattern_byte(p: OverwritePattern) -> Option<u8> {
    match p {
        OverwritePattern::Random => None,
        OverwritePattern::Zeros => Some(0x00),
        OverwritePattern::Ones => Some(0xFF),
        OverwritePattern::Pattern(b) => Some(b),
    }
}

impl SecureDeleteMode {
    /// Number of overwrite passes.
    pub fn passes(&self) -> (r: u32)
        ensures
            r == passes_of(*self),
    {
        match self {
            SecureDeleteMode::Quick => 1,
            SecureDeleteMode::Standard => 3,
            SecureDeleteMode::Paranoid => 7,
        }
    }
}

/// The pattern written by a pass of a mode.
pub fn pass_pattern(mode: SecureDeleteMode, pass: u32) -> (r: OverwritePattern)
    ensures
        r == pattern_of(mode, pass as int),
{
    match mode {
        SecureDeleteMode::Quick => OverwritePattern::Random,
        SecureDeleteMode::Standard => match pass {
            1 => OverwritePattern::Zeros,
            _ => OverwritePattern::Random,
        },
        SecureDeleteMode::Paranoid => match pass {
            1 => OverwritePattern::Ones,
            3 => OverwritePattern::Pattern(0xAA),
            4 => OverwritePattern::Pattern(0x55),
            _ => OverwritePattern::Random,
        },
    }
}

/// The passes to run over a file of `file_size` bytes, in order. An empty
/// file has nothing to overwrite and gets no pass.
pub fn overwrite_schedule(mode: SecureDeleteMode, file_size: u64) -> (r: Vec<OverwritePattern>)
    ensures
        file_size == 0 ==> r@.len() == 0,
        file_size > 0 ==> r@.len() == passes_of(mode),
        forall|i: int| 0 <= i < r@.len() ==> r@[i] == pattern_of(mode, i),
{
    let mut r: Vec<OverwritePattern> = Vec::new();
    if file_size == 0 {
        return r;
    }
    let n = mode.passes();
    let mut pass: u32 = 0;
    while pass < n
        invariant
            pass <= n,
            n == passes_of(mode),
            r@.len() == pass,
            forall|i: int| 0 <= i < r@.len() ==> r@[i] == pattern_of(mode, i),
        decreases n - pass,
    {
        r.push(pass_pattern(mode, pass));
        pass = pass + 1;
    }
    r
}

/// Length of the next write when `remaining` bytes of the pass are left.
pub fn next_chunk_len(remaining: u64) -> (r: usize)
    ensures
        remaining < OVERWRITE_CHUNK_SIZE ==> r == remaining,
        remaining >= OVERWRITE_CHUNK_SIZE ==> r == OVERWRITE_CHUNK_SIZE,
{
    if remaining < OVERWRITE_CHUNK_SIZE as u64 {
        remaining as usize
    } else {
        OVERWRITE_CHUNK_SIZE
    }
}

/// A buffer of `len` bytes of a pattern: fresh random bytes, or the pattern's byte repeated.
pub fn fill_pattern(pattern: OverwritePattern, len: usize) -> (r: Vec<u8>)
    ensures
        r@.len() == len,
        pattern_byte(pattern) matches Some(b) ==> forall|i: int| 0 <= i < len ==> r@[i] == b,
{
    let byte: u8 = match pattern {
        OverwritePattern::Random => {
            return random_bytes(len);
        },
        OverwritePattern::Zeros => 0x00,
        OverwritePattern::Ones => 0xFF,
        OverwritePattern::Pattern(b) => b,
    };
    let mut r: Vec<u8> = Vec::new();
    let mut i: usize = 0;
    while i < len
        invariant
            i <= len,
            r@.len() == i,
            pattern_byte(pattern) == Some(byte),
            forall|j: int| 0 <= j < i ==> r@[j] == byte,
        decreases len - i,
    {
        r.push(byte);
        i = i + 1;
    }
    r
}

/// Where a wipe stands.
#[derive(Debug, Clone, Copy, PartialEq, Eq)]
pub enum WipeStage {
    /// The next pass starts: go back to the start of the file.
    Seek,
    /// The current pass is writing.
    Write,
    /// All passes are done: remove the path.
    Remove,
    /// Nothing is left to do.
    Done,
}

/// What the caller does next to the file being wiped.
#[derive(Debug)]
pub enum WipeAction {
    /// Seek to offset 0.
    SeekStart,
    /// Write these bytes at the current offset.
    Write(Vec<u8>),
    /// Flush the pass to durable storage.
    Sync,
    /// Release the file and unlink the path.
    Remove,
    /// The wipe is over.
    Done,
}

/// The state of a wipe, seen as plain values.
pub struct WipeView {
    pub schedule: Seq<OverwritePattern>,
    pub size: u64,
    pub pass: nat,
    pub written: u64,
    pub stage: WipeStage,
}

impl WipeView {
    /// Actions left before `Done`: each pass costs a seek, one write per byte
    /// at most and a sync; the removal costs one.
    pub open spec fn steps_left(self) -> int {
        let per_pass = self.size + 2;
        let passes_left = self.schedule.len() - self.pass;
        match self.stage {
            WipeStage::Seek => passes_left * per_pass + 1,
            WipeStage::Write => passes_left * per_pass - self.written,
            WipeStage::Remove => 1,
            WipeStage::Done => 0,
        }
    }
}

/// Progress of a wipe through its passes.
#[derive(Debug, Clone, Copy)]
struct WipeCursor {
    pass: usize,
    written: u64,
    stage: WipeStage,
}

/// Drives the overwrite passes of one file, one action at a time.
pub struct Wiper {
    schedule: Vec<OverwritePattern>,
    size: u64,
    cursor: WipeCursor,
}

impl View for Wiper {
    type V = WipeView;

    closed spec fn view(&self) -> WipeView {
        WipeView {
            schedule: self.schedule@,
            size: self.size,
            pass: self.cursor.pass as nat,
            written: self.cursor.written,
            stage: self.cursor.stage,
        }
    }
}

impl Wiper {
    #[verifier::type_invariant]
    spec fn inv(&self) -> bool {
        Self::wf_view(self@)
    }

    /// The state invariant, as seen from outside.
    pub open spec fn wf_view(v: WipeView) -> bool {
        &&& v.pass <= v.schedule.len()
        &&& v.written <= v.size
        &&& (v.stage == WipeStage::Seek ==> v.pass < v.schedule.len() && v.written == 0)
        &&& (v.stage == WipeStage::Write ==> v.pass < v.schedule.len())
        &&& (v.stage == WipeStage::Remove ==> v.pass == v.schedule.len())
    }

    /// A wipe of a file of `file_size` bytes in the given mode. An empty
    /// file goes straight to removal.
    pub fn new(mode: SecureDeleteMode, file_size: u64) -> (r: Wiper)
        ensures
            Self::wf_view(r@),
            r@.size == file_size,
            r@.pass == 0,
            r@.written == 0,
            file_size == 0 ==> r@.schedule.len() == 0 && r@.stage == WipeStage::Remove,
            file_size > 0 ==> r@.schedule.len() == passes_of(mode) && r@.stage == WipeStage::Seek,
            forall|i: int| 0 <= i < r@.schedule.len() ==> r@.schedule[i] == pattern_of(mode, i),
    {
        let schedule = overwrite_schedule(mode, file_size);
        let stage = if schedule.len() == 0 { WipeStage::Remove } else { WipeStage::Seek };
        Wiper { schedule, size: file_size, cursor: WipeCursor { pass: 0, written: 0, stage } }
    }

    /// The next action. Every action but `Done` brings the wipe closer to its
    /// end, so repeating this until `Done` terminates.
    pub fn next_action(&mut self) -> (r: WipeAction)
        ensures
            Self::wf_view(final(self)@),
            final(self)@.schedule == old(self)@.schedule,
            final(self)@.size == old(self)@.size,
            old(self)@.stage != WipeStage::Done ==> 0 <= final(self)@.steps_left() < old(self)@.steps_left(),
            old(self)@.stage == WipeStage::Seek ==> r is SeekStart && final(self)@.stage == WipeStage::Write
                && final(self)@.pass == old(self)@.pass && final(self)@.written == 0,
            old(self)@.stage == WipeStage::Write && old(self)@.written < old(self)@.size ==> ({
                let n = if old(self)@.size - old(self)@.written < OVERWRITE_CHUNK_SIZE {
                    old(self)@.size - old(self)@.written
                } else {
                    OVERWRITE_CHUNK_SIZE as int
                };
                &&& r matches WipeAction::Write(buf)
                &&& buf@.len() == n
                &&& (pattern_byte(old(self)@.schedule[old(self)@.pass as int]) matches Some(b)
                    ==> forall|i: int| 0 <= i < n ==> buf@[i] == b)
                &&& final(self)@.stage == WipeStage::Write
                &&& final(self)@.pass == old(self)@.pass
                &&& final(self)@.written == old(self)@.written + n
            }),
            old(self)@.stage == WipeStage::Write && old(self)@.written == old(self)@.size ==> ({
                &&& r is Sync
                &&& final(self)@.pass == old(self)@.pass + 1
                &&& final(self)@.written == 0
                &&& final(self)@.stage == if old(self)@.pass + 1 < old(self)@.schedule.len() {
                    WipeStage::Seek
                } else {
                    WipeStage::Remove
                }
            }),
            old(self)@.stage == WipeStage::Remove ==> r is Remove && final(self)@.stage == WipeStage::Done,
            old(self)@.stage == WipeStage::Done ==> r is Done && final(self)@ == old(self)@,
            final(self)@.stage == WipeStage::Done && old(self)@.stage != WipeStage::Done ==> r is Remove,
    {
        proof {
            use_type_invariant(&*self);
        }
        let ghost before = self@;
        let c = self.cursor;
        let len = self.schedule.len();
        match c.stage {
            WipeStage::Seek => {
                self.cursor = WipeCursor { pass: c.pass, written: 0, stage: WipeStage::Write };
                proof {
                    lemma_pass_cost(before.schedule.len() - before.pass, before.size as int);
                }
                WipeAction::SeekStart
            },
            WipeStage::Write => {
                if c.written < self.size {
                    let n = next_chunk_len(self.size - c.written);
                    let buf = fill_pattern(self.schedule[c.pass], n);
                    self.cursor = WipeCursor { pass: c.pass, written: c.written + n as u64, stage: WipeStage::Write };
                    proof {
                        lemma_pass_cost(before.schedule.len() - before.pass, before.size as int);
                    }
                    WipeAction::Write(buf)
                } else {
                    let next = c.pass + 1;
                    let stage = if next < len { WipeStage::Seek } else { WipeStage::Remove };
                    self.cursor = WipeCursor { pass: next, written: 0, stage };
                    proof {
                        lemma_pass_cost(before.schedule.len() - before.pass, before.size as int);
                    }
                    WipeAction::Sync
                }
            },
            WipeStage::Remove => {
                self.cursor = WipeCursor { pass: c.pass, written: c.written, stage: WipeStage::Done };
                WipeAction::Remove
            },
            WipeStage::Done => WipeAction::Done,
        }
    }
}

proof fn lemma_pass_cost(passes_left: int, size: int)
    requires
        passes_left >= 1,
        size >= 0,
    ensures
        passes_left * (size + 2) >= size + 2,
        passes_left * (size + 2) == (passes_left - 1) * (size + 2) + size + 2,
{
    assert(passes_left * (size + 2) >= size + 2) by (nonlinear_arith)
        requires
            passes_left >= 1,
            size >= 0,
    ;
    assert(passes_left * (size + 2) == (passes_left - 1) * (size + 2) + size + 2) by (nonlinear_arith);
}

/// The mode named by already lower-cased text: "quick"/"q", "standard"/"s",
/// "paranoid"/"p"; anything else is Standard.
pub open spec fn mode_named(lower: Seq<char>) -> SecureDeleteMode {
    if lower == "quick"@ || lower == "q"@ {
        SecureDeleteMode::Quick
    } else if lower == "paranoid"@ || lower == "p"@ {
        SecureDeleteMode::Paranoid
    } else {
        SecureDeleteMode::Standard
    }
}

/// Chooses the mode named by lower-cased text.
pub fn delete_mode_from_lowercase(lower: &str) -> (r: SecureDeleteMode)
    ensures
        r == mode_named(lower@),
{
    if str_equals(lower, "quick") || str_equals(lower, "q") {
        SecureDeleteMode::Quick
    } else if str_equals(lower, "paranoid") || str_equals(lower, "p") {
        SecureDeleteMode::Paranoid
    } else {
        SecureDeleteMode::Standard
    }
}

/// Parses a mode name, ignoring case.
pub fn parse_delete_mode(mode_str: &str) -> (r: SecureDeleteMode)
    ensures
        r == mode_named(crate::strings::lowercase_of(mode_str@)),
{
    let lower = lowercase(mode_str);
    delete_mode_from_lowercase(lower.as_str())
}

} // verus!

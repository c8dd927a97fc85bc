//! What reading a stretch of a rollout file asks for and comes to.
use vstd::prelude::*;

use crate::usage::SkillUsageEvidence;
use super::usage_pipeline::{FixedViewTail, TailStatus};

verus! {

/// Why a chunk could not be read.
#[derive(Clone, Copy, Debug, PartialEq, Eq, Structural)]
pub enum ChunkReadError {
    SourceSymlinkRejected,
    SourceNotRegularFile,
    SourceChangedBeforeRead,
    SourceChangedDuringRead,
    CheckpointOutOfRange,
    InvalidGuardPlan,
    CheckpointGuardMismatch,
    Io,
}

pub open spec fn error_code(error: ChunkReadError) -> Seq<char> {
    match error {
        ChunkReadError::SourceSymlinkRejected => "SOURCE_SYMLINK_REJECTED"@,
        ChunkReadError::SourceNotRegularFile => "SOURCE_NOT_REGULAR_FILE"@,
        ChunkReadError::SourceChangedBeforeRead => "SOURCE_CHANGED_BEFORE_READ"@,
        ChunkReadError::SourceChangedDuringRead => "SOURCE_CHANGED_DURING_READ"@,
        ChunkReadError::CheckpointOutOfRange => "CHECKPOINT_OUT_OF_RANGE"@,
        ChunkReadError::InvalidGuardPlan => "CHECKPOINT_GUARD_INVALID"@,
        ChunkReadError::CheckpointGuardMismatch => "CHECKPOINT_GUARD_MISMATCH"@,
        ChunkReadError::Io => "SOURCE_READ_FAILED"@,
    }
}

pub fn read_error_code(error: ChunkReadError) -> (r: &'static str)
    ensures
        r@ == error_code(error),
{
    match error {
        ChunkReadError::SourceSymlinkRejected => "SOURCE_SYMLINK_REJECTED",
        ChunkReadError::SourceNotRegularFile => "SOURCE_NOT_REGULAR_FILE",
        ChunkReadError::SourceChangedBeforeRead => "SOURCE_CHANGED_BEFORE_READ",
        ChunkReadError::SourceChangedDuringRead => "SOURCE_CHANGED_DURING_READ",
        ChunkReadError::CheckpointOutOfRange => "CHECKPOINT_OUT_OF_RANGE",
        ChunkReadError::InvalidGuardPlan => "CHECKPOINT_GUARD_INVALID",
        ChunkReadError::CheckpointGuardMismatch => "CHECKPOINT_GUARD_MISMATCH",
        ChunkReadError::Io => "SOURCE_READ_FAILED",
    }
}

impl ChunkReadError {
    /// The file is no longer the one that was observed.
    pub open spec fn stale(self) -> bool {
        self is CheckpointGuardMismatch || self is SourceChangedBeforeRead || self
            is SourceChangedDuringRead
    }

    pub fn is_stale(self) -> (r: bool)
        ensures
            r == self.stale(),
    {
        match self {
            ChunkReadError::CheckpointGuardMismatch
            | ChunkReadError::SourceChangedBeforeRead
            | ChunkReadError::SourceChangedDuringRead => true,
            _ => false,
        }
    }
}

/// A hash of the bytes before a checkpoint.
#[derive(Clone, Copy, Debug, PartialEq, Eq)]
pub struct GuardHash {
    bytes: [u8; 32],
}

impl View for GuardHash {
    type V = Seq<u8>;

    closed spec fn view(&self) -> Seq<u8> {
        self.bytes@
    }
}

pub open spec fn guard_view(guard: Option<GuardHash>) -> Option<Seq<u8>> {
    match guard {
        Some(guard) => Some(guard@),
        None => None,
    }
}

impl GuardHash {
    pub fn from_bytes(bytes: [u8; 32]) -> (r: Self)
        ensures
            r@ == bytes@,
    {
        GuardHash { bytes }
    }

    pub fn as_bytes(&self) -> (r: &[u8; 32])
        ensures
            r@ == self@,
    {
        &self.bytes
    }

    /// The hash as a vector.
    pub fn to_vec(&self) -> (r: Vec<u8>)
        ensures
            r@ == self@,
    {
        let mut r: Vec<u8> = Vec::new();
        let mut i: usize = 0;
        while i < 32
            invariant
                i <= 32,
                self.bytes@.len() == 32,
                r@ == self.bytes@.take(i as int),
            decreases 32 - i,
        {
            r.push(self.bytes[i]);
            assert(r@ =~= self.bytes@.take(i + 1));
            i = i + 1;
        }
        assert(self.bytes@.take(32) =~= self.bytes@);
        r
    }

    /// The hash with these bytes, if there are as many as a hash has.
    pub fn from_slice(bytes: &[u8]) -> (r: Option<Self>)
        ensures
            r is Some <==> bytes@.len() == 32,
            r matches Some(guard) ==> guard@ == bytes@,
    {
        if bytes.len() != 32 {
            return None;
        }
        let mut hash: [u8; 32] = [0u8;32];
        let mut i: usize = 0;
        while i < 32
            invariant
                i <= 32,
                hash@.len() == 32,
                bytes@.len() == 32,
                forall|j: int| 0 <= j < i ==> #[trigger] hash@[j] == bytes@[j],
            decreases 32 - i,
        {
            hash[i] = bytes[i];
            i = i + 1;
        }
        assert(hash@ =~= bytes@);
        Some(GuardHash { bytes: hash })
    }
}

/// Which file on disk.
#[derive(Clone, Copy, Debug, PartialEq, Eq, Structural)]
pub struct PhysicalIdentity {
    pub device_id: u64,
    pub inode: u64,
}

impl PhysicalIdentity {
    /// The identity of stored numbers, which are never negative.
    pub fn from_stored(device_id: i64, inode: i64) -> (r: Option<Self>)
        ensures
            r is Some <==> device_id >= 0 && inode >= 0,
            r matches Some(identity) ==> identity.device_id == device_id && identity.inode == inode,
    {
        if device_id < 0 || inode < 0 {
            None
        } else {
            Some(PhysicalIdentity { device_id: device_id as u64, inode: inode as u64 })
        }
    }
}

/// What to read: from `start_offset` to the size that was observed, if the bytes before the
/// start still have the expected hash.
#[derive(Clone, Copy, Debug, PartialEq, Eq)]
pub struct ChunkReadPlan {
    pub identity: PhysicalIdentity,
    pub start_offset: u64,
    pub observed_size: u64,
    pub expected_guard: Option<GuardHash>,
}

/// What reading came to.
#[derive(Clone, Copy, Debug, PartialEq, Eq)]
pub struct ChunkReadResult {
    pub last_complete_offset: u64,
    pub guard: Option<GuardHash>,
    pub bytes_read: u64,
    pub guard_bytes_read: u64,
    pub peak_buffered_body_bytes: u64,
    pub complete_line_count: u64,
    pub oversized_complete_line_count: u64,
    pub has_half_line: bool,
    pub fixed_view_exhausted: bool,
}

/// Whether to read on after an item.
#[derive(Clone, Copy, Debug, PartialEq, Eq, Structural)]
pub enum ReadControl {
    Continue,
    /// Stop, and count the item as read.
    StopAfter,
    /// Stop, and leave the item for the next time.
    StopBefore,
}

/// One complete line, with the skills that it shows in use.
pub struct FramedLine {
    pub start_offset: u64,
    pub bytes_with_newline: Vec<u8>,
    pub skill_usage: Option<SkillUsageEvidence>,
}

/// Where a line stands that is too long to be read.
#[derive(Clone, Copy, Debug, PartialEq, Eq, Structural)]
pub struct OversizedLine {
    pub start_offset: u64,
    pub end_offset: u64,
}

pub enum FramedItem {
    Line(FramedLine),
    OversizedCompleteLine(OversizedLine),
}

/// How the view ended: not yet, within a line, or at the end of one.
pub open spec fn tail_of(read: ChunkReadResult) -> FixedViewTail {
    FixedViewTail {
        exhausted: read.fixed_view_exhausted,
        status: if !read.fixed_view_exhausted {
            TailStatus::Unverified
        } else if read.has_half_line {
            TailStatus::HalfLine
        } else {
            TailStatus::NoTail
        },
        half_line_start: if read.fixed_view_exhausted && read.has_half_line {
            Some(read.last_complete_offset)
        } else {
            None
        },
    }
}

pub fn tail_from_read(read: &ChunkReadResult) -> (r: FixedViewTail)
    ensures
        r == tail_of(*read),
{
    if !read.fixed_view_exhausted {
        FixedViewTail { exhausted: false, status: TailStatus::Unverified, half_line_start: None }
    } else if read.has_half_line {
        FixedViewTail {
            exhausted: true,
            status: TailStatus::HalfLine,
            half_line_start: Some(read.last_complete_offset),
        }
    } else {
        FixedViewTail { exhausted: true, status: TailStatus::NoTail, half_line_start: None }
    }
}

} // verus!

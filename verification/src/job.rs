//! The copy and move engine: which steps a transfer takes, and what it
//! reports, as decisions on plain values. The caller performs the reads,
//! writes and renames and hands back what came of them.

use crate::cancellable::{checkpoint, Cancellable};
use crate::error::{IOErrorEnum, NpioError};
use crate::file_info::{size_of, FileInfo};
use vstd::prelude::*;

verus! {

/// Flags of a copy or a move.
#[derive(Debug, Clone, Copy, PartialEq, Eq, Structural)]
pub struct CopyFlags {
    pub overwrite: bool,
    pub backup: bool,
    pub no_fallback_for_move: bool,
    pub target_default_perms: bool,
}

/// The number that stands for a set of flags: 1 for overwrite, 2 for backup,
/// 4 for no fallback on move, 8 for default permissions on the target.
pub open spec fn flag_bits(f: CopyFlags) -> u32 {
    ((if f.overwrite {
        1int
    } else {
        0
    }) + (if f.backup {
        2int
    } else {
        0
    }) + (if f.no_fallback_for_move {
        4int
    } else {
        0
    }) + (if f.target_default_perms {
        8int
    } else {
        0
    })) as u32
}

/// The flags that a number stands for; what lies above the four flags is
/// dropped.
pub open spec fn flags_of_bits(bits: u32) -> CopyFlags {
    CopyFlags {
        overwrite: bits % 2 == 1,
        backup: (bits / 2) % 2 == 1,
        no_fallback_for_move: (bits / 4) % 2 == 1,
        target_default_perms: (bits / 8) % 2 == 1,
    }
}

impl CopyFlags {
    /// No flag.
    pub fn none() -> (r: Self)
        ensures
            r == flags_of_bits(0),
    {
        CopyFlags {
            overwrite: false,
            backup: false,
            no_fallback_for_move: false,
            target_default_perms: false,
        }
    }

    /// The flags that `bits` stands for.
    pub fn from_bits_truncate(bits: u32) -> (r: Self)
        ensures
            r == flags_of_bits(bits),
    {
        CopyFlags {
            overwrite: bits % 2 == 1,
            backup: (bits / 2) % 2 == 1,
            no_fallback_for_move: (bits / 4) % 2 == 1,
            target_default_perms: (bits / 8) % 2 == 1,
        }
    }

    /// The number that stands for the flags.
    pub fn bits(&self) -> (r: u32)
        ensures
            r == flag_bits(*self),
    {
        let a: u32 = if self.overwrite {
            1
        } else {
            0
        };
        let b: u32 = if self.backup {
            2
        } else {
            0
        };
        let c: u32 = if self.no_fallback_for_move {
            4
        } else {
            0
        };
        let d: u32 = if self.target_default_perms {
            8
        } else {
            0
        };
        a + b + c + d
    }

    /// Whether every flag of `other` is set in `self`.
    pub fn contains(&self, other: CopyFlags) -> (r: bool)
        ensures
            r == ((other.overwrite ==> self.overwrite) && (other.backup ==> self.backup) && (
            other.no_fallback_for_move ==> self.no_fallback_for_move) && (
            other.target_default_perms ==> self.target_default_perms)),
    {
        (!other.overwrite || self.overwrite) && (!other.backup || self.backup) && (
        !other.no_fallback_for_move || self.no_fallback_for_move) && (!other.target_default_perms
            || self.target_default_perms)
    }
}

/// Flags written as a number and read back are the same flags.
pub proof fn lemma_flag_bits_round_trip(f: CopyFlags)
    ensures
        flags_of_bits(flag_bits(f)) == f,
{
}

/// How the destination of a copy is opened.
#[derive(Debug, Clone, Copy, PartialEq, Eq, Structural)]
pub enum DestinationMode {
    /// Create the file or empty an existing one.
    Replace,
    /// Create the file, and fail with `Exists` if it is there.
    CreateNew,
}

/// How the destination is opened under `flags`.
pub fn destination_mode(flags: CopyFlags) -> (r: DestinationMode)
    ensures
        r == if flags.overwrite {
            DestinationMode::Replace
        } else {
            DestinationMode::CreateNew
        },
{
    if flags.overwrite {
        DestinationMode::Replace
    } else {
        DestinationMode::CreateNew
    }
}

/// The most bytes that one step of a copy reads.
pub const COPY_CHUNK_SIZE: usize = 8192;

/// The total that progress reports: the size that the source's metadata
/// states, or zero where the metadata could not be had.
pub open spec fn total_of(info: Option<&FileInfo>) -> u64 {
    match info {
        Some(i) => size_of(i@) as u64,
        None => 0,
    }
}

/// The total that progress reports.
pub fn copy_total(info: Option<&FileInfo>) -> (r: u64)
    ensures
        r == total_of(info),
{
    match info {
        Some(i) => {
            #[verifier::truncate]
            (i.get_size() as u64)
        },
        None => 0,
    }
}

/// What the pump does after a read.
#[derive(Debug, Clone, Copy, PartialEq, Eq, Structural)]
pub enum PumpStep {
    /// Write the bytes that were read, then report progress: the bytes
    /// moved so far, and the total.
    Write { current: u64, total: u64 },
    /// The source is at its end: close both streams.
    Finish,
}

/// The byte pump of a copy: how much has been moved, of how much.
#[derive(Debug, Clone, Copy, PartialEq, Eq, Structural)]
pub struct CopyPump {
    pub written: u64,
    pub total: u64,
}

impl CopyPump {
    /// A pump that has moved nothing yet.
    pub fn new(total: u64) -> (r: Self)
        ensures
            r == (CopyPump { written: 0, total }),
    {
        CopyPump { written: 0, total }
    }

    /// One step of the pump, after a read of `read` bytes. Under a cancelled
    /// token the step fails with `Cancelled` and moves nothing. A read of
    /// nothing ends the copy. Any other read is to be written, and counts.
    pub fn step(&mut self, cancellable: Option<&Cancellable>, read: usize) -> (r: Result<
        PumpStep,
        NpioError,
    >)
        requires
            old(self).written + read <= u64::MAX,
        ensures
            final(self).total == old(self).total,
            r is Err <==> (cancellable matches Some(c) && c@),
            r matches Err(e) ==> e.spec_kind() == IOErrorEnum::Cancelled && final(self).written
                == old(self).written,
            r matches Ok(step) ==> {
                &&& read == 0 ==> step == PumpStep::Finish && final(self).written == old(
                    self,
                ).written
                &&& read > 0 ==> final(self).written == old(self).written + read && step == (
                PumpStep::Write { current: final(self).written, total: old(self).total })
            },
    {
        match checkpoint(cancellable) {
            Err(e) => Err(e),
            Ok(()) => {
                if read == 0 {
                    Ok(PumpStep::Finish)
                } else {
                    self.written = self.written + read as u64;
                    Ok(PumpStep::Write { current: self.written, total: self.total })
                }
            },
        }
    }
}

/// How a rename ended.
#[derive(Debug, Clone, Copy, PartialEq, Eq, Structural)]
pub enum RenameOutcome {
    /// The rename was done.
    Done,
    /// Source and destination lie on different devices.
    CrossDevice,
    /// The rename failed for another reason.
    Failed,
}

/// What a move does next.
#[derive(Debug, Clone, Copy, PartialEq, Eq, Structural)]
pub enum MoveNext {
    /// The move is complete.
    Complete,
    /// Copy the source to the destination; delete the source only if the
    /// copy succeeded.
    CopyThenDelete,
    /// The move fails with an error of this kind.
    Fail(IOErrorEnum),
}

/// Whether a move may start: it fails with `Exists` exactly when the
/// destination is there and overwriting was not asked for.
pub fn move_precheck(destination_exists: bool, flags: CopyFlags) -> (r: Result<(), NpioError>)
    ensures
        r is Err <==> (destination_exists && !flags.overwrite),
        r matches Err(e) ==> e.spec_kind() == IOErrorEnum::Exists,
{
    if destination_exists && !flags.overwrite {
        Err(NpioError::new(IOErrorEnum::Exists, "Destination exists"))
    } else {
        Ok(())
    }
}

/// What a move does after its rename: done if the rename was; on different
/// devices a copy and a delete, unless the flags rule the fallback out; else
/// it fails, with what the rename reported.
pub open spec fn move_next(outcome: RenameOutcome, flags: CopyFlags) -> MoveNext {
    match outcome {
        RenameOutcome::Done => MoveNext::Complete,
        RenameOutcome::CrossDevice => if flags.no_fallback_for_move {
            MoveNext::Fail(IOErrorEnum::Failed)
        } else {
            MoveNext::CopyThenDelete
        },
        RenameOutcome::Failed => MoveNext::Fail(IOErrorEnum::Failed),
    }
}

/// What a move does after its rename.
pub fn move_after_rename(outcome: RenameOutcome, flags: CopyFlags) -> (r: MoveNext)
    ensures
        r == move_next(outcome, flags),
{
    match outcome {
        RenameOutcome::Done => MoveNext::Complete,
        RenameOutcome::CrossDevice => {
            if flags.no_fallback_for_move {
                MoveNext::Fail(IOErrorEnum::Failed)
            } else {
                MoveNext::CopyThenDelete
            }
        },
        RenameOutcome::Failed => MoveNext::Fail(IOErrorEnum::Failed),
    }
}

} // verus!

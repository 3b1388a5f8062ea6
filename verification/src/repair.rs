//! Repair loop: the two-trigger, single-retry policy for failing tag
//! operations, made explicit as a state machine. A read failure or a write
//! failure each earn one re-encode of the file (the write-failure repair
//! additionally strips existing metadata) into a sibling temporary file
//! that a successful re-encode atomically renames over the original; the
//! original operation is then re-run exactly once. A re-encode failure, or
//! a failure of the retried operation, is final.

use vstd::prelude::*;

verus! {

/// Where the repair loop stands.
#[derive(Clone, Copy, Debug, PartialEq, Eq, Structural)]
pub enum RepairPhase {
    /// First attempt to read the tag container.
    ReadAttempt,
    /// Re-encoding after a read failure, streams copied, metadata kept.
    ReadRepair,
    /// Reading again after a successful read repair.
    ReadRetry,
    /// Writing the inferred tags.
    WriteAttempt,
    /// Re-encoding after a write failure, metadata stripped.
    WriteRepair,
    /// Re-reading after a successful write repair.
    RetryRead,
    /// Writing again after the re-read.
    RetryWrite,
    /// The tags were saved.
    Done,
    /// The operation failed for good.
    Failed,
}

/// What the collaborators report back.
#[derive(Clone, Copy, Debug, PartialEq, Eq, Structural)]
pub enum RepairEvent {
    ReadOk,
    ReadErr,
    WriteOk,
    WriteErr,
    /// The re-encode succeeded and the temporary file replaced the original.
    EncodeOk,
    /// The re-encode failed; its temporary file is left behind.
    EncodeErr,
}

/// The machine's state: its phase and how many temporary artifacts exist.
#[derive(Clone, Copy, Debug, PartialEq, Eq, Structural)]
pub struct RepairState {
    pub phase: RepairPhase,
    pub temp_files: u32,
}

pub open spec fn spec_repair_init() -> RepairState {
    RepairState { phase: RepairPhase::ReadAttempt, temp_files: 0 }
}

/// One step of the repair loop. Events a phase does not wait for leave the
/// state unchanged; the terminal phases absorb everything.
pub open spec fn spec_repair_step(s: RepairState, e: RepairEvent) -> RepairState {
    match (s.phase, e) {
        (RepairPhase::ReadAttempt, RepairEvent::ReadOk) => RepairState {
            phase: RepairPhase::WriteAttempt,
            ..s
        },
        (RepairPhase::ReadAttempt, RepairEvent::ReadErr) => RepairState {
            phase: RepairPhase::ReadRepair,
            temp_files: 1,
        },
        (RepairPhase::ReadRepair, RepairEvent::EncodeOk) => RepairState {
            phase: RepairPhase::ReadRetry,
            temp_files: 0,
        },
        (RepairPhase::ReadRepair, RepairEvent::EncodeErr) => RepairState {
            phase: RepairPhase::Failed,
            ..s
        },
        (RepairPhase::ReadRetry, RepairEvent::ReadOk) => RepairState {
            phase: RepairPhase::WriteAttempt,
            ..s
        },
        (RepairPhase::ReadRetry, RepairEvent::ReadErr) => RepairState {
            phase: RepairPhase::Failed,
            ..s
        },
        (RepairPhase::WriteAttempt, RepairEvent::WriteOk) => RepairState {
            phase: RepairPhase::Done,
            ..s
        },
        (RepairPhase::WriteAttempt, RepairEvent::WriteErr) => RepairState {
            phase: RepairPhase::WriteRepair,
            temp_files: 1,
        },
        (RepairPhase::WriteRepair, RepairEvent::EncodeOk) => RepairState {
            phase: RepairPhase::RetryRead,
            temp_files: 0,
        },
        (RepairPhase::WriteRepair, RepairEvent::EncodeErr) => RepairState {
            phase: RepairPhase::Failed,
            ..s
        },
        (RepairPhase::RetryRead, RepairEvent::ReadOk) => RepairState {
            phase: RepairPhase::RetryWrite,
            ..s
        },
        (RepairPhase::RetryRead, RepairEvent::ReadErr) => RepairState {
            phase: RepairPhase::Failed,
            ..s
        },
        (RepairPhase::RetryWrite, RepairEvent::WriteOk) => RepairState {
            phase: RepairPhase::Done,
            ..s
        },
        (RepairPhase::RetryWrite, RepairEvent::WriteErr) => RepairState {
            phase: RepairPhase::Failed,
            ..s
        },
        _ => s,
    }
}

/// The state the driver starts a file's repair loop in.
pub fn repair_init() -> (s: RepairState)
    ensures
        s == spec_repair_init(),
{
    RepairState { phase: RepairPhase::ReadAttempt, temp_files: 0 }
}

/// Advance the repair loop by one collaborator report.
pub fn repair_step(s: RepairState, e: RepairEvent) -> (r: RepairState)
    ensures
        r == spec_repair_step(s, e),
{
    match (s.phase, e) {
        (RepairPhase::ReadAttempt, RepairEvent::ReadOk) => RepairState {
            phase: RepairPhase::WriteAttempt,
            ..s
        },
        (RepairPhase::ReadAttempt, RepairEvent::ReadErr) => RepairState {
            phase: RepairPhase::ReadRepair,
            temp_files: 1,
        },
        (RepairPhase::ReadRepair, RepairEvent::EncodeOk) => RepairState {
            phase: RepairPhase::ReadRetry,
            temp_files: 0,
        },
        (RepairPhase::ReadRepair, RepairEvent::EncodeErr) => RepairState {
            phase: RepairPhase::Failed,
            ..s
        },
        (RepairPhase::ReadRetry, RepairEvent::ReadOk) => RepairState {
            phase: RepairPhase::WriteAttempt,
            ..s
        },
        (RepairPhase::ReadRetry, RepairEvent::ReadErr) => RepairState {
            phase: RepairPhase::Failed,
            ..s
        },
        (RepairPhase::WriteAttempt, RepairEvent::WriteOk) => RepairState {
            phase: RepairPhase::Done,
            ..s
        },
        (RepairPhase::WriteAttempt, RepairEvent::WriteErr) => RepairState {
            phase: RepairPhase::WriteRepair,
            temp_files: 1,
        },
        (RepairPhase::WriteRepair, RepairEvent::EncodeOk) => RepairState {
            phase: RepairPhase::RetryRead,
            temp_files: 0,
        },
        (RepairPhase::WriteRepair, RepairEvent::EncodeErr) => RepairState {
            phase: RepairPhase::Failed,
            ..s
        },
        (RepairPhase::RetryRead, RepairEvent::ReadOk) => RepairState {
            phase: RepairPhase::RetryWrite,
            ..s
        },
        (RepairPhase::RetryRead, RepairEvent::ReadErr) => RepairState {
            phase: RepairPhase::Failed,
            ..s
        },
        (RepairPhase::RetryWrite, RepairEvent::WriteOk) => RepairState {
            phase: RepairPhase::Done,
            ..s
        },
        (RepairPhase::RetryWrite, RepairEvent::WriteErr) => RepairState {
            phase: RepairPhase::Failed,
            ..s
        },
        _ => s,
    }
}

/// The state after a whole run of collaborator reports.
pub open spec fn spec_repair_run(events: Seq<RepairEvent>) -> RepairState
    decreases events.len(),
{
    if events.len() == 0 {
        spec_repair_init()
    } else {
        spec_repair_step(spec_repair_run(events.drop_last()), events.last())
    }
}

/// Law: the terminal phases absorb every further event.
pub proof fn lemma_terminal_absorbing(s: RepairState, e: RepairEvent)
    requires
        s.phase == RepairPhase::Done || s.phase == RepairPhase::Failed,
    ensures
        spec_repair_step(s, e) == s,
{
}

/// A step that begins a repair: a first read or write attempt fails.
pub open spec fn starts_repair(s: RepairState, e: RepairEvent) -> bool {
    (s.phase == RepairPhase::ReadAttempt && e == RepairEvent::ReadErr) || (s.phase
        == RepairPhase::WriteAttempt && e == RepairEvent::WriteErr)
}

/// How many repairs a run has begun.
pub open spec fn spec_repairs_in_run(events: Seq<RepairEvent>) -> int
    decreases events.len(),
{
    if events.len() == 0 {
        0
    } else {
        spec_repairs_in_run(events.drop_last()) + if starts_repair(
            spec_repair_run(events.drop_last()),
            events.last(),
        ) {
            1int
        } else {
            0int
        }
    }
}

proof fn lemma_repair_run_invariant(events: Seq<RepairEvent>)
    ensures
        ({
            let s = spec_repair_run(events);
            let c = spec_repairs_in_run(events);
            &&& 0 <= c <= 2
            &&& (s.phase == RepairPhase::ReadAttempt ==> c == 0)
            &&& ((s.phase == RepairPhase::ReadRepair || s.phase == RepairPhase::ReadRetry
                || s.phase == RepairPhase::WriteAttempt) ==> c <= 1)
        }),
    decreases events.len(),
{
    if events.len() > 0 {
        lemma_repair_run_invariant(events.drop_last());
    }
}

/// Law: no run begins more than two repairs — at most one for a failing
/// read and one for a failing write; after that, failure is final.
pub proof fn lemma_at_most_two_repairs(events: Seq<RepairEvent>)
    ensures
        spec_repairs_in_run(events) <= 2,
{
    lemma_repair_run_invariant(events);
}

proof fn lemma_temp_invariant(events: Seq<RepairEvent>)
    requires
        forall|i: int| 0 <= i < events.len() ==> events[i] != RepairEvent::EncodeErr,
    ensures
        spec_repair_run(events).temp_files == (if spec_repair_run(events).phase
            == RepairPhase::ReadRepair || spec_repair_run(events).phase
            == RepairPhase::WriteRepair {
            1int
        } else {
            0int
        }),
    decreases events.len(),
{
    if events.len() > 0 {
        assert(forall|i: int|
            0 <= i < events.drop_last().len() ==> events.drop_last()[i] == events[i]);
        lemma_temp_invariant(events.drop_last());
    }
}

/// Law: a run in which every re-encode succeeds leaves no temporary file
/// behind once the machine is out of a repair phase — in particular in the
/// terminal phases. Only a failed re-encode can leak its temporary file.
pub proof fn lemma_no_leftover_temp(events: Seq<RepairEvent>)
    requires
        forall|i: int| 0 <= i < events.len() ==> events[i] != RepairEvent::EncodeErr,
        spec_repair_run(events).phase != RepairPhase::ReadRepair,
        spec_repair_run(events).phase != RepairPhase::WriteRepair,
    ensures
        spec_repair_run(events).temp_files == 0,
{
    lemma_temp_invariant(events);
}

} // verus!

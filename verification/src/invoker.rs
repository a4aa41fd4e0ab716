//! Trying the interpreter candidates in turn.
//!
//! Starting a process is not done here. The caller launches the candidate that
//! the invoker names and reports what happened; the invoker decides what comes
//! next. Only a launch that fails moves on to the next candidate: once a
//! process has been started, no other candidate is tried, whatever its exit
//! status and whether or not its outcome could be collected.

use crate::error::BridgeError;
use crate::paths::InterpreterCandidate;
use crate::response::{decode_response, decodes_to, CallResult, ProcessOutcome};
use vstd::prelude::*;

verus! {

/// What became of the attempt to run one candidate.
#[derive(Debug, PartialEq, Eq)]
pub enum LaunchEvent {
    /// The process was started and has ended.
    Exited(ProcessOutcome),
    /// The process could not be started. Carries the reason.
    LaunchFailed(String),
    /// The process was started, but waiting for it or collecting its output
    /// failed. Carries the reason.
    CaptureFailed(String),
}

/// What follows from an attempt.
pub enum Verdict {
    /// The candidate with this index is launched next.
    Launch(nat),
    /// A process has run: its outcome is decoded.
    Decode(ProcessOutcome),
    /// The call fails with a launch error that carries this reason.
    GiveUp(String),
}

/// What follows when the attempt on candidate `attempt`, of `candidates` in
/// all, ends with `event`.
pub open spec fn verdict(candidates: nat, attempt: nat, event: LaunchEvent) -> Verdict {
    match event {
        LaunchEvent::Exited(outcome) => Verdict::Decode(outcome),
        LaunchEvent::LaunchFailed(reason) => if attempt + 1 < candidates {
            Verdict::Launch(attempt + 1)
        } else {
            Verdict::GiveUp(reason)
        },
        LaunchEvent::CaptureFailed(reason) => Verdict::GiveUp(reason),
    }
}

/// Where a run stands that is about to launch candidate `attempt` and whose
/// attempts from there on end as `events` say, one event for each attempt.
/// Events behind the one that ends the run play no part.
pub open spec fn replay(candidates: nat, attempt: nat, events: Seq<LaunchEvent>) -> Verdict
    decreases events.len(),
{
    if events.len() == 0 {
        Verdict::Launch(attempt)
    } else {
        match verdict(candidates, attempt, events[0]) {
            Verdict::Launch(next) => replay(candidates, next, events.skip(1)),
            ended => ended,
        }
    }
}

/// The state of one call between two attempts: the candidates, and which of
/// them is being tried.
pub struct Invoker {
    candidates: Vec<InterpreterCandidate>,
    attempt: usize,
}

/// How a call goes on after an attempt.
pub enum Progress {
    /// The next candidate is to be launched.
    Retry(Invoker),
    /// The call is over, with this result.
    Finished(CallResult),
}

impl Invoker {
    #[verifier::type_invariant]
    spec fn well_formed(self) -> bool {
        self.attempt < self.candidates@.len()
    }

    /// The candidates, in the order in which they are tried.
    pub closed spec fn candidates(self) -> Seq<InterpreterCandidate> {
        self.candidates@
    }

    /// The index of the candidate that is being tried.
    pub closed spec fn attempt(self) -> nat {
        self.attempt as nat
    }

    /// Starts with the first candidate. Without any candidate the call fails
    /// at once, as if every launch had failed.
    pub fn begin(candidates: Vec<InterpreterCandidate>) -> (started: Result<Invoker, BridgeError>)
        ensures
            match started {
                Ok(invoker) => {
                    &&& candidates@.len() > 0
                    &&& invoker.candidates() == candidates@
                    &&& invoker.attempt() == 0
                },
                Err(error) => {
                    &&& candidates@.len() == 0
                    &&& error matches BridgeError::ProcessLaunch(reason)
                    &&& reason@ == "no interpreter candidate"@
                },
            },
    {
        if candidates.len() == 0 {
            Err(BridgeError::ProcessLaunch(String::from_str("no interpreter candidate")))
        } else {
            Ok(Invoker { candidates, attempt: 0 })
        }
    }

    /// The candidate to launch now.
    pub fn candidate(&self) -> (candidate: &InterpreterCandidate)
        ensures
            self.attempt() < self.candidates().len(),
            *candidate == self.candidates()[self.attempt() as int],
    {
        proof {
            use_type_invariant(self);
        }
        &self.candidates[self.attempt]
    }

    /// Takes in what became of the attempt on the current candidate. A failed
    /// launch moves on to the next candidate, or ends the call with a launch
    /// error where none is left. A process that has run ends the call with its
    /// decoded outcome. A process whose outcome was lost ends the call with a
    /// launch error.
    pub fn advance(self, event: LaunchEvent) -> (progress: Progress)
        ensures
            self.attempt() < self.candidates().len(),
            match verdict(self.candidates().len(), self.attempt(), event) {
                Verdict::Launch(next) => {
                    &&& progress matches Progress::Retry(invoker)
                    &&& invoker.candidates() == self.candidates()
                    &&& invoker.attempt() == next
                },
                Verdict::Decode(outcome) => {
                    &&& progress matches Progress::Finished(result)
                    &&& decodes_to(outcome, result)
                },
                Verdict::GiveUp(reason) => progress matches Progress::Finished(
                    Err(BridgeError::ProcessLaunch(kept)),
                ) && kept == reason,
            },
    {
        proof {
            use_type_invariant(&self);
        }
        let count = self.candidates.len();
        match event {
            LaunchEvent::Exited(outcome) => Progress::Finished(decode_response(&outcome)),
            LaunchEvent::LaunchFailed(reason) => {
                if self.attempt + 1 < count {
                    Progress::Retry(
                        Invoker { candidates: self.candidates, attempt: self.attempt + 1 },
                    )
                } else {
                    Progress::Finished(Err(BridgeError::ProcessLaunch(reason)))
                }
            },
            LaunchEvent::CaptureFailed(reason) => Progress::Finished(
                Err(BridgeError::ProcessLaunch(reason)),
            ),
        }
    }
}

/// Failed launches are passed over: while candidates are left, a run whose
/// first `failures` attempts fail to launch stands where a run stands that
/// starts that many candidates later.
pub proof fn lemma_failed_launches_move_on(
    candidates: nat,
    attempt: nat,
    events: Seq<LaunchEvent>,
    failures: nat,
)
    requires
        attempt + failures < candidates,
        failures <= events.len(),
        forall|i: int| 0 <= i < failures ==> (#[trigger] events[i]) is LaunchFailed,
    ensures
        replay(candidates, attempt, events) == replay(
            candidates,
            attempt + failures,
            events.skip(failures as int),
        ),
    decreases failures,
{
    if failures == 0 {
        assert(events.skip(0) =~= events);
    } else {
        assert(events[0] is LaunchFailed);
        let rest = events.skip(1);
        assert forall|i: int| 0 <= i < failures - 1 implies (#[trigger] rest[i]) is LaunchFailed by {
            assert(rest[i] == events[i + 1]);
        }
        lemma_failed_launches_move_on(candidates, attempt + 1, rest, (failures - 1) as nat);
        assert(rest.skip(failures - 1) =~= events.skip(failures as int));
    }
}

/// Fallback: where the candidates before `launched` fail to launch and that
/// one starts, every failure leads to the launch of the next candidate, no
/// error comes up on the way, and the outcome of the process that ran is what
/// gets decoded.
pub proof fn lemma_fallback_reaches_launch(
    candidates: nat,
    events: Seq<LaunchEvent>,
    launched: nat,
)
    requires
        launched < candidates,
        launched < events.len(),
        forall|i: int| 0 <= i < launched ==> (#[trigger] events[i]) is LaunchFailed,
        events[launched as int] is Exited,
    ensures
        forall|tried: nat|
            tried <= launched ==> #[trigger] replay(candidates, 0, events.take(tried as int))
                == Verdict::Launch(tried),
        replay(candidates, 0, events) == Verdict::Decode(events[launched as int]->Exited_0),
{
    assert forall|tried: nat| tried <= launched implies #[trigger] replay(
        candidates,
        0,
        events.take(tried as int),
    ) == Verdict::Launch(tried) by {
        let seen = events.take(tried as int);
        assert forall|i: int| 0 <= i < tried implies (#[trigger] seen[i]) is LaunchFailed by {
            assert(seen[i] == events[i]);
        }
        lemma_failed_launches_move_on(candidates, 0, seen, tried);
        assert(seen.skip(tried as int).len() == 0);
    }
    lemma_failed_launches_move_on(candidates, 0, events, launched);
    assert(events.skip(launched as int)[0] == events[launched as int]);
}

/// Exhaustion: where every candidate fails to launch, the call ends with a
/// launch error that carries the reason of the last attempt. No outcome is
/// decoded.
pub proof fn lemma_all_failures_give_up(candidates: nat, events: Seq<LaunchEvent>)
    requires
        candidates > 0,
        candidates <= events.len(),
        forall|i: int| 0 <= i < candidates ==> (#[trigger] events[i]) is LaunchFailed,
    ensures
        replay(candidates, 0, events) == Verdict::GiveUp(
            events[candidates - 1]->LaunchFailed_0,
        ),
{
    let last = (candidates - 1) as nat;
    lemma_failed_launches_move_on(candidates, 0, events, last);
    assert(events.skip(last as int)[0] == events[last as int]);
}

} // verus!

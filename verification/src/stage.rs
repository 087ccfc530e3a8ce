//! The life of one execution, as a state machine.
//!
//! A session walks `Created`, `MemoryLoaded`, `Instantiated`, `MemorySet`,
//! `Started`, `OutputCaptured`, one step at a time. A step that fails ends the
//! session in `Failed`, and nothing leaves a terminal stage. The last step,
//! reading the output back, cannot fail.

use vstd::prelude::*;

verus! {

/// The step at which a session failed.
#[derive(Clone, Copy, Debug, PartialEq, Eq)]
pub enum Failure {
    /// The module could not be loaded: the artifact did not deserialize, or
    /// the source did not compile.
    Deserialize,
    /// The environment could not be set up, the module's imports could not
    /// be bound to it, or the module could not be instantiated.
    Instantiation,
    /// The instance exports no linear memory to attach to the environment.
    MemoryExport,
    /// The instance exports no entry point, or running it ended in a trap.
    Trap,
}

/// Where a session stands.
#[derive(Clone, Copy, Debug, PartialEq, Eq)]
pub enum Stage {
    Created,
    MemoryLoaded,
    Instantiated,
    MemorySet,
    Started,
    OutputCaptured,
    Failed(Failure),
}

impl Stage {
    /// Whether the session is over.
    pub open spec fn spec_is_terminal(self) -> bool {
        self is OutputCaptured || self is Failed
    }

    /// How many steps have succeeded on the way to this stage. A failed
    /// session counts none.
    pub open spec fn spec_progress(self) -> nat {
        match self {
            Stage::Created => 0,
            Stage::MemoryLoaded => 1,
            Stage::Instantiated => 2,
            Stage::MemorySet => 3,
            Stage::Started => 4,
            Stage::OutputCaptured => 5,
            Stage::Failed(_) => 0,
        }
    }

    /// The failure that a failed step at this stage ends in.
    pub open spec fn spec_failure(self) -> Failure
        recommends
            self.spec_progress() < 4 && !(self is Failed),
    {
        match self {
            Stage::Created => Failure::Deserialize,
            Stage::MemoryLoaded => Failure::Instantiation,
            Stage::Instantiated => Failure::MemoryExport,
            _ => Failure::Trap,
        }
    }

    /// The stage after one step: the next one where the step succeeded,
    /// `Failed` where it did not. The step that follows `Started` reads the
    /// output back and always succeeds. A terminal stage stays.
    pub open spec fn spec_after(self, succeeded: bool) -> Stage {
        if self.spec_is_terminal() {
            self
        } else if self is Started {
            Stage::OutputCaptured
        } else if !succeeded {
            Stage::Failed(self.spec_failure())
        } else {
            match self {
                Stage::Created => Stage::MemoryLoaded,
                Stage::MemoryLoaded => Stage::Instantiated,
                Stage::Instantiated => Stage::MemorySet,
                _ => Stage::Started,
            }
        }
    }

    /// Whether the session is over.
    #[verifier::when_used_as_spec(spec_is_terminal)]
    pub fn is_terminal(self) -> (terminal: bool)
        ensures
            terminal == self.spec_is_terminal(),
    {
        match self {
            Stage::OutputCaptured => true,
            Stage::Failed(_) => true,
            _ => false,
        }
    }

    /// The stage after one step.
    #[verifier::when_used_as_spec(spec_after)]
    pub fn after(self, succeeded: bool) -> (next: Stage)
        ensures
            next == self.spec_after(succeeded),
    {
        match self {
            Stage::OutputCaptured => Stage::OutputCaptured,
            Stage::Failed(failure) => Stage::Failed(failure),
            Stage::Created => if succeeded {
                Stage::MemoryLoaded
            } else {
                Stage::Failed(Failure::Deserialize)
            },
            Stage::MemoryLoaded => if succeeded {
                Stage::Instantiated
            } else {
                Stage::Failed(Failure::Instantiation)
            },
            Stage::Instantiated => if succeeded {
                Stage::MemorySet
            } else {
                Stage::Failed(Failure::MemoryExport)
            },
            Stage::MemorySet => if succeeded {
                Stage::Started
            } else {
                Stage::Failed(Failure::Trap)
            },
            Stage::Started => Stage::OutputCaptured,
        }
    }
}

/// The stage a session that starts at `stage` is in after the steps whose
/// outcomes are `outcomes`, in order.
pub open spec fn after_all(stage: Stage, outcomes: Seq<bool>) -> Stage
    decreases outcomes.len(),
{
    if outcomes.len() == 0 {
        stage
    } else {
        after_all(stage.spec_after(outcomes[0]), outcomes.drop_first())
    }
}

/// Nothing leaves a terminal stage: a failed session stays failed, and a
/// session whose output was captured is done.
pub proof fn lemma_terminal_is_final(stage: Stage, outcomes: Seq<bool>)
    requires
        stage.spec_is_terminal(),
    ensures
        after_all(stage, outcomes) == stage,
    decreases outcomes.len(),
{
    if outcomes.len() > 0 {
        lemma_terminal_is_final(stage, outcomes.drop_first());
    }
}

/// A successful step moves a running session exactly one stage on. A failed
/// step ends it, but for the last step, which cannot fail.
pub proof fn lemma_one_step(stage: Stage, succeeded: bool)
    requires
        !stage.spec_is_terminal(),
    ensures
        succeeded ==> stage.spec_after(succeeded).spec_progress() == stage.spec_progress() + 1,
        !succeeded && !(stage is Started) ==> stage.spec_after(succeeded) is Failed,
        stage is Started ==> stage.spec_after(succeeded) is OutputCaptured,
{
}

/// The stages cannot be taken out of order: a session reaches
/// `OutputCaptured` exactly when every step still ahead of it was taken and
/// each of them that can fail succeeded, the first failure being final.
pub proof fn lemma_output_needs_every_step(stage: Stage, outcomes: Seq<bool>)
    requires
        !(stage is Failed),
    ensures
        after_all(stage, outcomes) is OutputCaptured <==> (outcomes.len() + stage.spec_progress()
            >= 5 && forall|i: int| 0 <= i < 4 - stage.spec_progress() ==> outcomes[i]),
    decreases outcomes.len(),
{
    if stage is OutputCaptured {
        lemma_terminal_is_final(stage, outcomes);
    } else if outcomes.len() == 0 {
    } else {
        let next = stage.spec_after(outcomes[0]);
        let rest = outcomes.drop_first();
        if next is Failed {
            lemma_terminal_is_final(next, rest);
        } else {
            lemma_output_needs_every_step(next, rest);
            assert(forall|i: int| 0 <= i < rest.len() ==> rest[i] == outcomes[i + 1]);
            if after_all(stage, outcomes) is OutputCaptured {
                assert forall|i: int| 0 <= i < 4 - stage.spec_progress() implies outcomes[i] by {
                    if i > 0 {
                        assert(rest[i - 1]);
                    }
                }
            }
        }
    }
}

} // verus!

//! The lifecycle controller: the attach/detach state machine, the fixed
//! order of the attach sequence with its failure policy, and the guarantee
//! that detaching reconciles without waiting for the delayed-cleanup task.

use vstd::prelude::*;

use crate::registry::reconcile_model;
use crate::registry::reconciled;
use crate::registry::RegistryModel;

verus! {

/// The controller's state. `Attached` is entered exactly once, after a
/// fully successful initialization; `CleanedUp` is terminal.
#[derive(Debug, Clone, Copy, PartialEq, Eq, Structural)]
pub enum LifecycleState {
    Idle,
    Attached,
    CleanupArmed,
    CleanedUp,
}

/// Tracks where the shim stands between the attach event, the delayed
/// cleanup and the detach event.
pub struct LifecycleController {
    pub state: LifecycleState,
}

impl LifecycleController {
    /// A controller for a process that has not yet seen the attach event.
    pub fn new() -> (c: Self)
        ensures
            c.state is Idle,
    {
        LifecycleController { state: LifecycleState::Idle }
    }

    /// Initialization succeeded in full: entered exactly once, from `Idle`.
    pub fn mark_attached(&mut self)
        requires
            old(self).state is Idle,
        ensures
            final(self).state is Attached,
    {
        self.state = LifecycleState::Attached;
    }

    /// The delayed-cleanup task has been spawned.
    pub fn arm_cleanup(&mut self)
        requires
            old(self).state is Attached,
        ensures
            final(self).state is CleanupArmed,
    {
        self.state = LifecycleState::CleanupArmed;
    }

    /// Enters the terminal state from any state, and reports whether this
    /// call was the first to do so: entering a second time is a no-op, not
    /// an error, and there is no transition back out. Both the delayed task
    /// and the detach event call this; the underlying registry
    /// reconciliation may run on both paths, only the recorded transition
    /// happens once.
    pub fn enter_cleaned_up(&mut self) -> (first: bool)
        ensures
            final(self).state is CleanedUp,
            first == !(old(self).state is CleanedUp),
    {
        let first = match self.state {
            LifecycleState::CleanedUp => false,
            _ => true,
        };
        self.state = LifecycleState::CleanedUp;
        first
    }
}

/// One unit of the attach sequence that the surrounding program performs.
#[derive(Debug, Clone, Copy, PartialEq, Eq, Structural)]
pub enum AttachStep {
    /// Set the impersonation environment variables; assignment cannot fail.
    ApplyEnvironment,
    /// Write the impersonation values to the registry.
    PatchRegistry,
    /// Load the client library; failure is fatal.
    LoadMandatory,
    /// Load the overlay library from the host executable's directory;
    /// absence is an expected configuration, and a present-but-unloadable
    /// file is reported without stopping initialization.
    LoadOptional,
}

/// What to do after a step: go on, finish and arm the delayed cleanup, or
/// terminate the process, since the shim must not run half-initialized.
#[derive(Debug, Clone, Copy, PartialEq, Eq, Structural)]
pub enum AttachDecision {
    Proceed(AttachStep),
    Complete,
    Abort,
}

/// The attach sequence starts by setting the environment, before any
/// registry write, so a racing reader sees a consistent impersonation.
pub fn first_attach_step() -> (s: AttachStep)
    ensures
        s is ApplyEnvironment,
{
    AttachStep::ApplyEnvironment
}

/// The fixed order of the attach sequence and its failure policy: the
/// registry is patched only after the environment is set, the mandatory
/// load is attempted only after the patch succeeded, a failed patch or
/// mandatory load aborts initialization, and the optional load never does.
pub fn next_attach_step(done: AttachStep, succeeded: bool) -> (d: AttachDecision)
    ensures
        done is ApplyEnvironment ==> d == AttachDecision::Proceed(AttachStep::PatchRegistry),
        done is PatchRegistry && succeeded ==> d == AttachDecision::Proceed(
            AttachStep::LoadMandatory,
        ),
        done is PatchRegistry && !succeeded ==> d is Abort,
        done is LoadMandatory && succeeded ==> d == AttachDecision::Proceed(
            AttachStep::LoadOptional,
        ),
        done is LoadMandatory && !succeeded ==> d is Abort,
        done is LoadOptional ==> d is Complete,
{
    match done {
        AttachStep::ApplyEnvironment => AttachDecision::Proceed(AttachStep::PatchRegistry),
        AttachStep::PatchRegistry => {
            if succeeded {
                AttachDecision::Proceed(AttachStep::LoadMandatory)
            } else {
                AttachDecision::Abort
            }
        },
        AttachStep::LoadMandatory => {
            if succeeded {
                AttachDecision::Proceed(AttachStep::LoadOptional)
            } else {
                AttachDecision::Abort
            }
        },
        AttachStep::LoadOptional => AttachDecision::Complete,
    }
}

/// Detaching reconciles on its own, without depending on the delayed task:
/// whatever the registry holds when the detach event runs — freshly
/// patched, or already rewritten by the timer's reconciliation — one
/// reconciliation with a readable true install record leaves the registry
/// fully reconciled.
pub proof fn lemma_detach_reconciles_without_timer(m: RegistryModel, install: Seq<char>)
    ensures
        reconciled(reconcile_model(m, Some(install)), install),
{
    crate::registry::lemma_reconcile_fields(m, install);
}

} // verus!

use coldloader::environment::impersonation_env;
use coldloader::lifecycle::{
    first_attach_step, next_attach_step, AttachDecision, AttachStep, LifecycleController,
    LifecycleState,
};
use coldloader::loader::{
    classify_optional_load, mandatory_load_outcome, LoadError, OptionalLoadOutcome,
};

#[test]
fn controller_walks_the_states_in_order() {
    let mut c = LifecycleController::new();
    assert_eq!(c.state, LifecycleState::Idle);
    c.mark_attached();
    assert_eq!(c.state, LifecycleState::Attached);
    c.arm_cleanup();
    assert_eq!(c.state, LifecycleState::CleanupArmed);
    assert!(c.enter_cleaned_up());
    assert_eq!(c.state, LifecycleState::CleanedUp);
}

#[test]
fn cleanup_is_recorded_once_and_terminal() {
    let mut c = LifecycleController::new();
    c.mark_attached();
    c.arm_cleanup();
    assert!(c.enter_cleaned_up());
    assert!(!c.enter_cleaned_up());
    assert_eq!(c.state, LifecycleState::CleanedUp);
}

#[test]
fn detach_before_timer_still_cleans_up() {
    let mut c = LifecycleController::new();
    c.mark_attached();
    c.arm_cleanup();
    // The delayed task has not fired; the detach event alone must reach the
    // terminal state.
    assert!(c.enter_cleaned_up());
    assert_eq!(c.state, LifecycleState::CleanedUp);
}

#[test]
fn attach_sequence_runs_in_the_specified_order() {
    let s0 = first_attach_step();
    assert_eq!(s0, AttachStep::ApplyEnvironment);
    assert_eq!(
        next_attach_step(s0, true),
        AttachDecision::Proceed(AttachStep::PatchRegistry)
    );
    assert_eq!(
        next_attach_step(AttachStep::PatchRegistry, true),
        AttachDecision::Proceed(AttachStep::LoadMandatory)
    );
    assert_eq!(
        next_attach_step(AttachStep::LoadMandatory, true),
        AttachDecision::Proceed(AttachStep::LoadOptional)
    );
    assert_eq!(
        next_attach_step(AttachStep::LoadOptional, true),
        AttachDecision::Complete
    );
}

#[test]
fn failed_patch_or_mandatory_load_aborts() {
    assert_eq!(
        next_attach_step(AttachStep::PatchRegistry, false),
        AttachDecision::Abort
    );
    assert_eq!(
        next_attach_step(AttachStep::LoadMandatory, false),
        AttachDecision::Abort
    );
}

#[test]
fn absent_optional_library_is_skipped_and_attach_completes() {
    let outcome = classify_optional_load(false, false);
    assert_eq!(outcome, OptionalLoadOutcome::Skipped);
    assert_eq!(
        next_attach_step(AttachStep::LoadOptional, false),
        AttachDecision::Complete
    );
}

#[test]
fn present_but_unloadable_optional_library_is_reported() {
    assert_eq!(
        classify_optional_load(true, false),
        OptionalLoadOutcome::FailedToLoad
    );
    assert_eq!(
        classify_optional_load(true, true),
        OptionalLoadOutcome::Loaded
    );
}

#[test]
fn mandatory_load_verdicts() {
    assert!(mandatory_load_outcome(true).is_ok());
    assert_eq!(
        mandatory_load_outcome(false).unwrap_err(),
        LoadError::MandatoryLoadFailed
    );
}

#[test]
fn impersonation_env_holds_the_four_variables() {
    let pairs = impersonation_env(730);
    assert_eq!(pairs.len(), 4);
    assert_eq!(pairs[0], (String::from("SteamAppId"), String::from("730")));
    assert_eq!(pairs[1], (String::from("SteamGameId"), String::from("730")));
    assert_eq!(
        pairs[2],
        (String::from("SteamClientLaunch"), String::from("1"))
    );
    assert_eq!(pairs[3], (String::from("SteamEnv"), String::from("1")));
}

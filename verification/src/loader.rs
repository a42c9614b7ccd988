//! The library-loading policy: a mandatory load whose failure is fatal, and
//! an optional load whose absence is an expected, supported configuration,
//! distinct from a present file that fails to load.

use vstd::prelude::*;

verus! {

#[derive(Debug, Clone, Copy, PartialEq, Eq, Structural)]
pub enum LoadError {
    /// The mandatory client library did not resolve to a loadable image.
    MandatoryLoadFailed,
}

/// How an optional load ended.
#[derive(Debug, Clone, Copy, PartialEq, Eq, Structural)]
pub enum OptionalLoadOutcome {
    /// The file was present and loaded.
    Loaded,
    /// The file was absent: skipped, initialization proceeds.
    Skipped,
    /// The file was present but did not load: a real problem worth
    /// reporting, though not fatal to initialization.
    FailedToLoad,
}

/// The mandatory load's verdict from whether the loader returned an image.
pub fn mandatory_load_outcome(got_image: bool) -> (r: Result<(), LoadError>)
    ensures
        r is Ok <==> got_image,
{
    if got_image {
        Ok(())
    } else {
        Err(LoadError::MandatoryLoadFailed)
    }
}

/// Tells an absent optional library (expected, skipped) apart from a
/// present one that failed to load (reported).
pub fn classify_optional_load(file_exists: bool, load_succeeded: bool) -> (o: OptionalLoadOutcome)
    ensures
        o is Skipped <==> !file_exists,
        o is Loaded <==> file_exists && load_succeeded,
        o is FailedToLoad <==> file_exists && !load_succeeded,
{
    if !file_exists {
        OptionalLoadOutcome::Skipped
    } else if load_succeeded {
        OptionalLoadOutcome::Loaded
    } else {
        OptionalLoadOutcome::FailedToLoad
    }
}

} // verus!

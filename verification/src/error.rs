use vstd::prelude::*;

verus! {

/// Why the repository is considered structurally malformed or corrupt.
#[derive(Debug)]
pub enum StructuralIssue {
    /// The head reference is symbolic-only and cannot be dereferenced to a
    /// concrete revision (e.g. an unborn branch).
    NoRefTarget,
    /// The revision object could not be loaded from the object store; the
    /// payload is the engine's own description of the failure.
    ObjectLoad(String),
    /// The revision has no summary line; the payload is the offending
    /// revision identifier.
    NoCommitSummary(String),
}

/// Why a detached signature blob was rejected as malformed.
#[derive(Debug)]
pub enum FormatIssue {
    /// The blob was empty.
    Empty,
    /// The blob was shorter than the smallest well-formed container.
    Truncated,
    /// The blob was long enough but did not begin with a recognised
    /// signature header.
    BadHeader,
}

/// Why a reset to a target revision failed.
#[derive(Debug)]
pub enum ResetIssue {
    /// The target identifier is not well formed for the repository's
    /// addressing scheme; the payload is the engine's own description.
    BadRevisionId(String),
    /// The underlying destructive operation failed; the payload is the
    /// engine's own description.
    Engine(String),
}

/// Everything that can go wrong in this crate, by kind.
///
/// Every failure is a typed result for the caller to act on; nothing in this
/// crate is fatal to the process.
#[derive(Debug)]
pub enum Error {
    /// The repository is structurally malformed or corrupt: head
    /// unresolvable, object unloadable, or missing summary.
    RepoStructural(StructuralIssue),
    /// Signature bytes were present but malformed. This is never folded into
    /// "no signature": once extraction has returned bytes, a parse failure
    /// is surfaced.
    SignatureFormat(FormatIssue),
    /// The freshness check failed: the head revision is older than the
    /// configured threshold. Carries both the threshold and the offending
    /// commit time so the failure is self-explanatory.
    StaleRepo { max_age_days: u32, last_commit_time: i64 },
    /// The reset target was malformed or the destructive reset itself
    /// failed.
    Reset(ResetIssue),
}

} // verus!

//! Trusted boundary with the version-control engine (the `git2` crate).
//!
//! Everything the library needs from the engine passes through the small
//! wrappers in this module. Their contracts are believed, not proved: each
//! doc comment names the `git2` items relied on. The wrappers state only
//! what holds of every outcome — what the engine returns depends on the
//! repository on disk — and all decisions are made by verified callers.
//! Engine failures are handed over as the engine's own message string.

use vstd::prelude::*;

verus! {

#[verifier::external_type_specification]
#[verifier::external_body]
pub struct ExGitRepository(git2::Repository);

#[verifier::external_type_specification]
#[verifier::external_body]
pub struct ExGitOid(git2::Oid);

#[verifier::external_type_specification]
#[verifier::external_body]
pub struct ExGitReference<'repo>(git2::Reference<'repo>);

#[verifier::external_type_specification]
#[verifier::external_body]
pub struct ExGitObject<'repo>(git2::Object<'repo>);

/// True of hexadecimal digit characters, either case.
pub open spec fn is_hex_digit(c: char) -> bool {
    ('0' <= c && c <= '9') || ('a' <= c && c <= 'f') || ('A' <= c && c <= 'F')
}

/// A well-formed textual object id for the engine's addressing scheme:
/// between one and forty hexadecimal digits.
pub open spec fn is_hex_oid(s: Seq<char>) -> bool {
    &&& 1 <= s.len() <= 40
    &&& forall|i: int| 0 <= i < s.len() ==> is_hex_digit(s[i])
}

/// The plain metadata of one loaded commit object, as the engine reports
/// it: author display string, optional summary line, and commit time in
/// seconds since the UNIX epoch.
#[derive(Debug)]
pub struct CommitMeta {
    /// Author rendered as `name <email>`.
    pub author: String,
    /// First line of the commit message; `None` when the message has none.
    pub summary: Option<String>,
    /// Committer time in seconds since the UNIX epoch (UTC).
    pub time: i64,
}

/// Relies on `git2::Repository::head`: retrieves and resolves the reference
/// pointed at by HEAD; errs e.g. on an unborn branch.
#[verifier::external_body]
pub(crate) fn repo_head<'r>(repo: &'r git2::Repository) -> Result<git2::Reference<'r>, String> {
    repo.head().map_err(|e| e.message().to_string())
}

/// Relies on `git2::Reference::target`: the object id the reference points
/// at, `None` when the reference is symbolic rather than direct.
#[verifier::external_body]
pub(crate) fn reference_target(reference: &git2::Reference<'_>) -> Option<git2::Oid> {
    reference.target()
}

/// Relies on the `Display` impl of `git2::Oid`: hex-encodes the id, which
/// is forty hexadecimal digits for the engine's SHA-1 addressing scheme.
#[verifier::external_body]
pub(crate) fn oid_hex(oid: &git2::Oid) -> (r: String)
    ensures
        r@.len() == 40,
        is_hex_oid(r@),
{
    format!("{}", oid)
}

/// Relies on `git2::Oid::from_str`: parses a hex-formatted object id, and
/// errs exactly when the string is empty, longer than forty characters, or
/// holds a character that is not a hex digit.
#[verifier::external_body]
pub(crate) fn oid_from_str(s: &str) -> (r: Result<git2::Oid, String>)
    ensures
        r is Ok <==> is_hex_oid(s@),
{
    git2::Oid::from_str(s).map_err(|e| e.message().to_string())
}

/// Relies on `git2::Repository::find_commit`, `git2::Commit::author` (with
/// the `Display` impl of `git2::Signature`), `git2::Commit::summary`, and
/// `git2::Commit::time` with `git2::Time::seconds`: loads the commit object
/// with the given id and hands its metadata over as plain values. A summary
/// that is not valid UTF-8 is reported as absent.
#[verifier::external_body]
pub(crate) fn load_commit_meta(repo: &git2::Repository, oid: &git2::Oid) -> Result<
    CommitMeta,
    String,
> {
    match repo.find_commit(*oid) {
        Ok(c) => Ok(CommitMeta {
            author: format!("{}", c.author()),
            summary: match c.summary() {
                Ok(s) => s.map(|line| line.to_string()),
                Err(_) => None,
            },
            time: c.time().seconds(),
        }),
        Err(e) => Err(e.message().to_string()),
    }
}

/// Relies on `git2::Repository::extract_signature` (with the default
/// signature field): the detached signature in the first component and the
/// signed data in the second; errs when the commit carries no signature or
/// the lookup fails.
#[verifier::external_body]
pub(crate) fn extract_signature(repo: &git2::Repository, oid: &git2::Oid) -> Result<
    (Vec<u8>, Vec<u8>),
    String,
> {
    match repo.extract_signature(oid, None) {
        Ok((sig, data)) => Ok((sig.to_vec(), data.to_vec())),
        Err(e) => Err(e.message().to_string()),
    }
}

/// Relies on `git2::Repository::find_object` with kind
/// `git2::ObjectType::Commit`: loads the object with the given id,
/// requiring it to be a commit.
#[verifier::external_body]
pub(crate) fn find_commit_object<'r>(repo: &'r git2::Repository, oid: &git2::Oid) -> Result<
    git2::Object<'r>,
    String,
> {
    repo.find_object(*oid, Some(git2::ObjectType::Commit)).map_err(|e| e.message().to_string())
}

/// Relies on `git2::Repository::reset` with `git2::ResetType::Hard`: moves
/// HEAD to the target and overwrites index and working tree to match it,
/// discarding uncommitted local modifications.
#[verifier::external_body]
pub(crate) fn hard_reset(repo: &git2::Repository, target: &git2::Object<'_>) -> Result<
    (),
    String,
> {
    repo.reset(target, git2::ResetType::Hard, None).map_err(|e| e.message().to_string())
}

} // verus!

//! The head-revision snapshot and the operations on it: extraction from a
//! repository, the freshness verdict, and the destructive reset back to a
//! known-good revision.

use vstd::prelude::*;

use crate::error::{Error, ResetIssue, StructuralIssue};
use crate::git;
use crate::git::{is_hex_oid, CommitMeta};
use crate::signature::{is_well_formed, spec_format_issue, Signature};

verus! {

/// True when a commit timestamp is fresh at the given moment: strictly
/// newer than `now` minus `max_age_days` whole days. The boundary is
/// exclusive on the fresh side: a revision exactly `max_age_days` old is
/// stale.
pub open spec fn spec_fresh_at(time: int, max_age_days: u32, now: i64) -> bool {
    time > now - 86400 * (max_age_days as int)
}

/// True when the engine reported a usable summary line: present and
/// non-empty.
pub open spec fn spec_has_summary(summary: Option<String>) -> bool {
    summary matches Some(s) && s@.len() > 0
}

/// The mathematical value of a snapshot: every field as a plain
/// mathematical object, the signature and the signed bytes as byte
/// sequences.
pub ghost struct CommitView {
    pub commit_id: Seq<char>,
    pub author: Seq<char>,
    pub summary: Seq<char>,
    pub time: int,
    pub signature: Option<Seq<u8>>,
    pub signed_data: Option<Seq<u8>>,
}

/// Information about the head commit of the repository: an immutable,
/// fully owned snapshot, valid after the repository handle is reused or
/// the working tree is reset.
#[derive(Debug)]
pub struct Commit {
    /// ID (i.e. SHA-1 hash) of the commit, in hexadecimal text form.
    pub commit_id: String,
    /// Display string for the author of the commit, as recorded in the
    /// revision metadata — not verified, not necessarily trustworthy.
    pub author: String,
    /// Summary line (first line) of the commit message; never empty.
    pub summary: String,
    /// Commit time in seconds since the UNIX epoch, interpreted in UTC.
    pub time: i64,
    /// Detached signature on the commit, when one is present.
    pub signature: Option<Signature>,
    /// Exact bytes covered by the signature, present if and only if
    /// `signature` is; reachable only through [`Commit::raw_signed_bytes`].
    signed_data: Option<Vec<u8>>,
}

impl View for Commit {
    type V = CommitView;

    closed spec fn view(&self) -> CommitView {
        CommitView {
            commit_id: self.commit_id@,
            author: self.author@,
            summary: self.summary@,
            time: self.time as int,
            signature: match self.signature {
                Some(s) => Some(s@),
                None => None,
            },
            signed_data: match self.signed_data {
                Some(v) => Some(v@),
                None => None,
            },
        }
    }
}

impl Commit {
    /// Well-formedness of a snapshot: the signature and the signed bytes
    /// are present or absent together, and a present signature is
    /// structurally well formed.
    pub open spec fn wf(&self) -> bool {
        &&& (self@.signature is Some <==> self@.signed_data is Some)
        &&& (self@.signature matches Some(s) ==> is_well_formed(s))
    }

    /// Build the snapshot from the plain values the engine reported:
    /// revision id, metadata, and — when extraction succeeded — the
    /// detached signature blob with the exact bytes it covers.
    ///
    /// Rejects a missing or empty summary line, carrying the offending
    /// revision id; rejects a malformed signature blob (extraction
    /// returned bytes, so the failure is surfaced, never folded into "no
    /// signature"); otherwise returns the snapshot with every field pinned
    /// to its input.
    pub fn from_parts(
        commit_id: String,
        meta: CommitMeta,
        extraction: Option<(Vec<u8>, Vec<u8>)>,
    ) -> (r: Result<Commit, Error>)
        ensures
            r is Ok <==> (spec_has_summary(meta.summary) && (extraction matches Some(p)
                ==> is_well_formed(p.0@))),
            !spec_has_summary(meta.summary) ==> (r matches Err(e) && e
                matches Error::RepoStructural(i) && i matches StructuralIssue::NoCommitSummary(id)
                && id@ == commit_id@),
            extraction matches Some(p) ==> (spec_has_summary(meta.summary) && !is_well_formed(p.0@)
                ==> (r matches Err(e) && e == Error::SignatureFormat(spec_format_issue(p.0@)))),
            r matches Err(e) ==> e is RepoStructural || e is SignatureFormat,
            r matches Ok(c) ==> ({
                &&& c.wf()
                &&& c@.commit_id == commit_id@
                &&& c@.author == meta.author@
                &&& (meta.summary matches Some(s) && c@.summary == s@)
                &&& c@.time == meta.time
                &&& (extraction matches Some(p) ==> c@.signature == Some(p.0@) && c@.signed_data
                    == Some(p.1@))
                &&& (extraction is None ==> c@.signature is None && c@.signed_data is None)
            }),
    {
        let CommitMeta { author, summary, time } = meta;
        let summary = match summary {
            Some(s) => {
                if s.as_str().is_empty() {
                    return Err(Error::RepoStructural(StructuralIssue::NoCommitSummary(commit_id)));
                }
                s
            },
            None => {
                return Err(Error::RepoStructural(StructuralIssue::NoCommitSummary(commit_id)));
            },
        };
        let (signature, signed_data) = match extraction {
            Some((sig_bytes, data)) => {
                match Signature::parse(sig_bytes) {
                    Ok(sig) => (Some(sig), Some(data)),
                    Err(e) => {
                        return Err(e);
                    },
                }
            },
            None => (None, None),
        };
        Ok(Commit { commit_id, author, summary, time, signature, signed_data })
    }

    /// Get information about HEAD: resolve the head reference to a
    /// concrete revision, read its author, summary line and commit time,
    /// and extract the detached signature together with the exact bytes it
    /// covers, when one is present.
    ///
    /// Absence of a signature is not an error; a failed extraction attempt
    /// is folded into absence as well. A missing or empty summary line is
    /// rejected before signature extraction is attempted. On success the
    /// snapshot is well formed and its id is the hex form of the resolved
    /// revision; staleness and reset failures cannot come from here.
    pub fn from_repo_head(repo: &git2::Repository) -> (r: Result<Commit, Error>)
        ensures
            r matches Ok(c) ==> c.wf() && is_hex_oid(c@.commit_id) && c@.commit_id.len() == 40,
            r matches Err(e) ==> e is RepoStructural || e is SignatureFormat,
    {
        let head = match git::repo_head(repo) {
            Ok(h) => h,
            Err(m) => {
                return Err(Error::RepoStructural(StructuralIssue::ObjectLoad(m)));
            },
        };
        let oid = match git::reference_target(&head) {
            Some(o) => o,
            None => {
                return Err(Error::RepoStructural(StructuralIssue::NoRefTarget));
            },
        };
        let commit_id = git::oid_hex(&oid);
        let meta = match git::load_commit_meta(repo, &oid) {
            Ok(m) => m,
            Err(m) => {
                return Err(Error::RepoStructural(StructuralIssue::ObjectLoad(m)));
            },
        };
        // A failure at an earlier step prevents any use of later state: the
        // summary is checked before signature extraction is attempted.
        let summary_ok = match &meta.summary {
            Some(s) => !s.as_str().is_empty(),
            None => false,
        };
        if !summary_ok {
            return Err(Error::RepoStructural(StructuralIssue::NoCommitSummary(commit_id)));
        }
        let extraction = match git::extract_signature(repo, &oid) {
            Ok(pair) => Some(pair),
            Err(_) => None,
        };
        Self::from_parts(commit_id, meta, extraction)
    }

    /// Get the raw bytes to be verified when verifying the commit
    /// signature: the exact byte sequence the engine reported as signed,
    /// with no re-encoding and no trimming, or `None` when the commit
    /// carries no signature.
    pub fn raw_signed_bytes(&self) -> (r: Option<&[u8]>)
        ensures
            r is Some <==> self@.signed_data is Some,
            r matches Some(b) ==> Some(b@) == self@.signed_data,
    {
        match &self.signed_data {
            Some(bytes) => Some(bytes.as_slice()),
            None => None,
        }
    }

    /// Determine whether the repository is fresh at the moment `now`
    /// (seconds since the UNIX epoch): its head commit must be strictly
    /// newer than `now` minus `max_age_days` days. `now` is an explicit
    /// input, so the verdict is deterministic and independently testable.
    ///
    /// On a stale repository the failure carries both the configured
    /// threshold and the offending commit time.
    pub fn ensure_fresh(&self, max_age_days: u32, now: i64) -> (r: Result<(), Error>)
        ensures
            r is Ok <==> spec_fresh_at(self@.time, max_age_days, now),
            r matches Err(e) ==> e matches (Error::StaleRepo {
                max_age_days: m,
                last_commit_time: t,
            }) && m == max_age_days && t == self@.time,
    {
        let threshold: i128 = (now as i128) - 86400i128 * (max_age_days as i128);
        if (self.time as i128) > threshold {
            Ok(())
        } else {
            Err(Error::StaleRepo { max_age_days, last_commit_time: self.time })
        }
    }

    /// Reset the repository's state to match this commit: working tree and
    /// index are overwritten to the target revision, and uncommitted local
    /// modifications are discarded irrecoverably. This is the designed
    /// recovery path for an untrusted checkout; it is never an implicit
    /// side effect of inspection.
    ///
    /// Fails on a target id that is not well formed for the engine's
    /// addressing scheme — exactly then is the failure `BadRevisionId` —
    /// and surfaces any engine failure of the lookup or of the reset
    /// itself.
    pub fn reset(&self, repo: &git2::Repository) -> (r: Result<(), Error>)
        ensures
            r matches Err(e) ==> e is Reset,
            !is_hex_oid(self@.commit_id) ==> (r matches Err(e) && e matches Error::Reset(i) && i
                is BadRevisionId),
            (r matches Err(e) && e matches Error::Reset(i) && i is BadRevisionId) ==> !is_hex_oid(
                self@.commit_id,
            ),
    {
        let oid = match git::oid_from_str(self.commit_id.as_str()) {
            Ok(o) => o,
            Err(m) => {
                return Err(Error::Reset(ResetIssue::BadRevisionId(m)));
            },
        };
        let target = match git::find_commit_object(repo, &oid) {
            Ok(t) => t,
            Err(m) => {
                return Err(Error::Reset(ResetIssue::Engine(m)));
            },
        };
        match git::hard_reset(repo, &target) {
            Ok(()) => Ok(()),
            Err(m) => Err(Error::Reset(ResetIssue::Engine(m))),
        }
    }
}

/// Law: a well-formed snapshot carries a parsed signature exactly when it
/// carries the raw signed bytes.
pub proof fn lemma_signature_pairing(c: &Commit)
    requires
        c.wf(),
    ensures
        c@.signature is Some <==> c@.signed_data is Some,
{
}

/// Law: the freshness boundary is exclusive. For every threshold and every
/// moment, one second beyond the threshold is stale, a revision exactly
/// `max_age_days` old is stale, and one second within the threshold is
/// fresh.
pub proof fn lemma_freshness_boundary(max_age_days: u32, now: i64)
    ensures
        !spec_fresh_at(now - 86400 * (max_age_days as int) - 1, max_age_days, now),
        !spec_fresh_at(now - 86400 * (max_age_days as int), max_age_days, now),
        spec_fresh_at(now - 86400 * (max_age_days as int) + 1, max_age_days, now),
{
}

} // verus!

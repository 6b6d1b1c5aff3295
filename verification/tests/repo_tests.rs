//! Scenarios against real repositories, built on disk with the same engine
//! the library itself relies on.

use git2::{Oid, Repository, Signature as GitSignature, Time};
use repo_trust::commit::Commit;
use repo_trust::error::{Error, FormatIssue, ResetIssue, StructuralIssue};
use repo_trust::git::CommitMeta;

const NOW: i64 = 1_700_000_000;

fn init_repo() -> (tempfile::TempDir, Repository) {
    let dir = tempfile::tempdir().unwrap();
    let repo = Repository::init(dir.path()).unwrap();
    (dir, repo)
}

fn author(secs: i64) -> GitSignature<'static> {
    GitSignature::new("Alice Example", "alice@example.com", &Time::new(secs, 0)).unwrap()
}

fn empty_tree(repo: &Repository) -> git2::Tree<'_> {
    let tree_id = {
        let mut index = repo.index().unwrap();
        index.write_tree().unwrap()
    };
    repo.find_tree(tree_id).unwrap()
}

fn commit_head(repo: &Repository, message: &str, secs: i64) -> Oid {
    let sig = author(secs);
    let tree = empty_tree(repo);
    let parents = match repo.head() {
        Ok(h) => vec![h.peel_to_commit().unwrap()],
        Err(_) => vec![],
    };
    let parent_refs: Vec<&git2::Commit> = parents.iter().collect();
    repo.commit(Some("HEAD"), &sig, &sig, message, &tree, &parent_refs).unwrap()
}

/// Create a commit carrying a detached signature and point the current
/// branch at it. Returns the new id and the exact signed content.
fn signed_commit_head(repo: &Repository, armor: &str, secs: i64) -> (Oid, Vec<u8>) {
    let sig = author(secs);
    let tree = empty_tree(repo);
    let parent = repo.head().unwrap().peel_to_commit().unwrap();
    let buf = repo
        .commit_create_buffer(&sig, &sig, "Signed update", &tree, &[&parent])
        .unwrap();
    let content = std::str::from_utf8(&buf).unwrap().to_string();
    let oid = repo.commit_signed(&content, armor, None).unwrap();
    let branch = repo.head().unwrap().name().unwrap().to_string();
    repo.reference(&branch, oid, true, "test").unwrap();
    (oid, content.into_bytes())
}

#[test]
fn inspect_head_reads_metadata_of_unsigned_head() {
    let (_dir, repo) = init_repo();
    let forty_days_ago = NOW - 40 * 86400;
    let oid = commit_head(&repo, "Update advisory DB", forty_days_ago);

    let c = Commit::from_repo_head(&repo).unwrap();
    assert_eq!(c.commit_id, oid.to_string());
    assert_eq!(c.author, "Alice Example <alice@example.com>");
    assert_eq!(c.summary, "Update advisory DB");
    assert_eq!(c.time, forty_days_ago);
    assert_eq!(c.signature.is_some(), c.raw_signed_bytes().is_some());
    assert!(c.signature.is_none());

    match c.ensure_fresh(30, NOW) {
        Err(Error::StaleRepo { max_age_days, last_commit_time }) => {
            assert_eq!(max_age_days, 30);
            assert_eq!(last_commit_time, forty_days_ago);
        }
        other => panic!("expected StaleRepo, got {:?}", other),
    }
}

#[test]
fn inspect_head_accepts_recent_head() {
    let (_dir, repo) = init_repo();
    commit_head(&repo, "Update advisory DB", NOW - 86400);
    let c = Commit::from_repo_head(&repo).unwrap();
    assert!(c.ensure_fresh(30, NOW).is_ok());
}

#[test]
fn inspect_head_fails_without_summary() {
    let (_dir, repo) = init_repo();
    let oid = commit_head(&repo, "", NOW);
    match Commit::from_repo_head(&repo) {
        Err(Error::RepoStructural(StructuralIssue::NoCommitSummary(id))) => {
            assert_eq!(id, oid.to_string());
        }
        other => panic!("expected NoCommitSummary, got {:?}", other),
    }
}

#[test]
fn inspect_head_fails_on_unborn_branch() {
    let (_dir, repo) = init_repo();
    assert!(matches!(
        Commit::from_repo_head(&repo),
        Err(Error::RepoStructural(StructuralIssue::ObjectLoad(_)))
    ));
}

#[test]
fn inspect_head_exposes_signature_and_exact_signed_bytes() {
    let (_dir, repo) = init_repo();
    commit_head(&repo, "Base", NOW - 10);
    let armor = "-----BEGIN PGP SIGNATURE-----\n\nabc123\n-----END PGP SIGNATURE-----";
    let (oid, signed_content) = signed_commit_head(&repo, armor, NOW - 5);

    let c = Commit::from_repo_head(&repo).unwrap();
    assert_eq!(c.commit_id, oid.to_string());
    assert_eq!(c.summary, "Signed update");
    let sig = c.signature.as_ref().expect("signature should be present");
    assert_eq!(sig.raw_bytes().as_slice(), armor.as_bytes());
    assert_eq!(c.raw_signed_bytes().unwrap(), signed_content.as_slice());
}

#[test]
fn inspect_head_surfaces_malformed_signature() {
    let (_dir, repo) = init_repo();
    commit_head(&repo, "Base", NOW - 10);
    signed_commit_head(&repo, "junk-signature", NOW - 5);
    assert!(matches!(
        Commit::from_repo_head(&repo),
        Err(Error::SignatureFormat(FormatIssue::Truncated))
    ));
}

#[test]
fn reset_returns_head_to_known_good_revision() {
    let (_dir, repo) = init_repo();
    let good = commit_head(&repo, "Known good", NOW - 20);
    let bad = commit_head(&repo, "Possibly bad", NOW - 10);

    let before = Commit::from_repo_head(&repo).unwrap();
    assert_eq!(before.commit_id, bad.to_string());

    let target = Commit::from_parts(
        good.to_string(),
        CommitMeta { author: "irrelevant".to_string(), summary: Some("Known good".to_string()), time: 0 },
        None,
    )
    .unwrap();
    target.reset(&repo).unwrap();

    let after = Commit::from_repo_head(&repo).unwrap();
    assert_eq!(after.commit_id, good.to_string());
}

#[test]
fn reset_rejects_malformed_revision_id() {
    let (_dir, repo) = init_repo();
    commit_head(&repo, "Base", NOW);
    let target = Commit::from_parts(
        "not-a-revision-id!".to_string(),
        CommitMeta { author: "a".to_string(), summary: Some("s".to_string()), time: 0 },
        None,
    )
    .unwrap();
    assert!(matches!(
        target.reset(&repo),
        Err(Error::Reset(ResetIssue::BadRevisionId(_)))
    ));
}

#[test]
fn reset_surfaces_engine_failure_for_unknown_revision() {
    let (_dir, repo) = init_repo();
    commit_head(&repo, "Base", NOW);
    let target = Commit::from_parts(
        "deadbeefdeadbeefdeadbeefdeadbeefdeadbeef".to_string(),
        CommitMeta { author: "a".to_string(), summary: Some("s".to_string()), time: 0 },
        None,
    )
    .unwrap();
    assert!(matches!(
        target.reset(&repo),
        Err(Error::Reset(ResetIssue::Engine(_)))
    ));
}

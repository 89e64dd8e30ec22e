use cargo_verison::error::{ErrorKind, GitFailure, VerisonError};
use cargo_verison::project::{Project, RepositoryState};
use cargo_verison::release::{CommitStage, GitReply, GitRequest, ObjectId, ReleaseCommitter};

fn id(byte: u8) -> ObjectId {
    ObjectId { bytes: [byte; 20] }
}

fn project_at(version: &str) -> Project {
    let manifest = format!("[package]\nname = \"demo\"\nversion = \"{version}\"\n");
    Project::create(false, None, RepositoryState::Present, Ok(manifest)).unwrap()
}

#[test]
fn a_release_with_a_template_commits_and_tags() {
    let project = project_at("2.0.0");
    let mut committer = project.commit(Some(String::from("release %s"))).unwrap();
    assert_eq!(committer.stage(), CommitStage::StageManifest);
    assert!(matches!(committer.request(), Some(GitRequest::StagePath { path }) if path == "Cargo.toml"));
    committer.advance(GitReply::Done).unwrap();
    assert!(matches!(committer.request(), Some(GitRequest::StagePath { path }) if path == "Cargo.lock"));
    committer.advance(GitReply::Done).unwrap();
    assert!(matches!(committer.request(), Some(GitRequest::WriteIndex)));
    committer.advance(GitReply::Done).unwrap();
    assert!(matches!(committer.request(), Some(GitRequest::WriteTree)));
    committer.advance(GitReply::Object(id(1))).unwrap();
    assert!(matches!(committer.request(), Some(GitRequest::ResolveHead)));
    committer.advance(GitReply::Object(id(2))).unwrap();
    match committer.request() {
        Some(GitRequest::CreateCommit { reference, message, tree, parent }) => {
            assert_eq!(reference, "HEAD");
            assert_eq!(message, "release 2.0.0");
            assert_eq!(tree, id(1));
            assert_eq!(parent, id(2));
        }
        other => panic!("{other:?}"),
    }
    committer.advance(GitReply::Object(id(3))).unwrap();
    match committer.request() {
        Some(GitRequest::CreateTag { name, target, force }) => {
            assert_eq!(name, "2.0.0");
            assert_eq!(target, id(3));
            assert!(!force);
        }
        other => panic!("{other:?}"),
    }
    assert!(!committer.is_finished());
    committer.advance(GitReply::Done).unwrap();
    assert!(committer.is_finished());
    assert_eq!(committer.stage(), CommitStage::Finished);
    assert!(committer.request().is_none());
}

#[test]
fn the_commit_message_defaults_to_the_version() {
    let mut project = project_at("0.9.9");
    assert_eq!(project.next_patch().unwrap(), "0.9.10");
    let mut committer = project.commit(None).unwrap();
    for reply in [
        GitReply::Done,
        GitReply::Done,
        GitReply::Done,
        GitReply::Object(id(7)),
        GitReply::Object(id(8)),
    ] {
        committer.advance(reply).unwrap();
    }
    assert_eq!(committer.stage(), CommitStage::CreateCommit { tree: id(7), parent: id(8) });
    assert!(matches!(
        committer.request(),
        Some(GitRequest::CreateCommit { message, .. }) if message == "0.9.10"
    ));
}

#[test]
fn a_release_stops_at_the_first_failure() {
    let mut committer = ReleaseCommitter::new(String::from("m"), String::from("1.0.0"));
    committer.advance(GitReply::Done).unwrap();
    let failure =
        GitFailure {
            code: -1,
            class: 10,
            message: String::from("could not stat Cargo.lock"),
            display: String::from("could not stat Cargo.lock; class=Index (10)"),
        };
    let error = committer.advance(GitReply::Failed(failure)).unwrap_err();
    assert_eq!(error.kind(), ErrorKind::Repository);
    match &error {
        VerisonError::Git(failure) => {
            assert_eq!(failure.code, -1);
            assert_eq!(failure.class, 10);
            assert_eq!(failure.message, "could not stat Cargo.lock");
        }
        other => panic!("{other:?}"),
    }
    assert_eq!(committer.stage(), CommitStage::Failed);
    assert!(committer.request().is_none());
    assert!(!committer.is_finished());
    let error = committer.advance(GitReply::Done).unwrap_err();
    assert_eq!(error.kind(), ErrorKind::Other);
    assert_eq!(committer.stage(), CommitStage::Failed);
}

#[test]
fn an_existing_tag_fails_the_release() {
    let mut committer = ReleaseCommitter::new(String::from("m"), String::from("1.0.0"));
    for reply in [
        GitReply::Done,
        GitReply::Done,
        GitReply::Done,
        GitReply::Object(id(1)),
        GitReply::Object(id(2)),
        GitReply::Object(id(3)),
    ] {
        committer.advance(reply).unwrap();
    }
    assert_eq!(committer.stage(), CommitStage::CreateTag { commit: id(3) });
    let exists =
        GitFailure {
            code: -4,
            class: 4,
            message: String::from("tag already exists"),
            display: String::from("tag already exists; class=Reference (4); code=Exists (-4)"),
        };
    let error = committer.advance(GitReply::Failed(exists)).unwrap_err();
    assert_eq!(error.kind(), ErrorKind::Repository);
    assert_eq!(error.to_string(), "tag already exists; class=Reference (4); code=Exists (-4)");
    assert_eq!(committer.stage(), CommitStage::Failed);
}

#[test]
fn a_reply_that_does_not_fit_fails_the_release() {
    let mut committer = ReleaseCommitter::new(String::from("m"), String::from("1.0.0"));
    let error = committer.advance(GitReply::Object(id(1))).unwrap_err();
    assert!(matches!(&error, VerisonError::Other(_)));
    assert_eq!(committer.stage(), CommitStage::Failed);

    let mut committer = ReleaseCommitter::new(String::from("m"), String::from("1.0.0"));
    for _ in 0..3 {
        committer.advance(GitReply::Done).unwrap();
    }
    assert_eq!(committer.stage(), CommitStage::WriteTree);
    let error = committer.advance(GitReply::Done).unwrap_err();
    assert!(matches!(&error, VerisonError::Other(_)));
    assert_eq!(committer.stage(), CommitStage::Failed);
}

#[test]
fn a_finished_release_accepts_nothing() {
    let mut committer = ReleaseCommitter::new(String::from("m"), String::from("1.0.0"));
    for reply in [
        GitReply::Done,
        GitReply::Done,
        GitReply::Done,
        GitReply::Object(id(1)),
        GitReply::Object(id(2)),
        GitReply::Object(id(3)),
        GitReply::Done,
    ] {
        committer.advance(reply).unwrap();
    }
    assert!(committer.is_finished());
    let failure = GitFailure {
        code: -1,
        class: 0,
        message: String::from("late"),
        display: String::from("late"),
    };
    let error = committer.advance(GitReply::Failed(failure)).unwrap_err();
    assert!(matches!(&error, VerisonError::Other(_)));
    assert!(committer.is_finished());
}

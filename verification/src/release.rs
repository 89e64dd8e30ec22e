//! The release commit as a conversation with a git repository.
//!
//! The library does not touch the repository. A [`ReleaseCommitter`] says which
//! operation comes next; the caller carries it out and reports how it went;
//! the committer then moves on, or stops at the first failure.

use crate::error::GitFailure;
use crate::error::GitFailureModel;
use crate::error::VerisonError;
use crate::error::UNEXPECTED_REPLY;
use crate::manifest::LOCKFILE;
use crate::manifest::MANIFEST_FILE;
use vstd::prelude::*;
use vstd::string::StringExecFns;

verus! {

/// The reference that the release commit moves.
pub const HEAD: &'static str = "HEAD";

/// The identifier of a git object.
#[derive(Clone, Copy, Debug, PartialEq, Eq)]
pub struct ObjectId {
    pub bytes: [u8; 20],
}

/// How far the release commit has come.
#[derive(Clone, Copy, Debug, PartialEq, Eq)]
pub enum CommitStage {
    /// The manifest is to be added to the index.
    StageManifest,
    /// The lockfile is to be added to the index.
    StageLockfile,
    /// The index is to be written.
    WriteIndex,
    /// A tree is to be built from the index.
    WriteTree,
    /// `HEAD` is to be resolved to the commit that becomes the parent.
    ResolveHead { tree: ObjectId },
    /// The commit is to be created.
    CreateCommit { tree: ObjectId, parent: ObjectId },
    /// The tag is to be created.
    CreateTag { commit: ObjectId },
    /// The commit and the tag exist.
    Finished,
    /// An operation failed, or a reply did not fit; nothing more is asked.
    Failed,
}

/// An operation that the caller is asked to carry out on the repository.
#[derive(Debug)]
pub enum GitRequest {
    /// Add the file at `path` to the index.
    StagePath { path: String },
    /// Write the index.
    WriteIndex,
    /// Build a tree from the index and report its identifier.
    WriteTree,
    /// Resolve `HEAD` to a commit and report its identifier.
    ResolveHead,
    /// Create a commit of `tree` with the one parent `parent`, signed by the
    /// repository's configured signature as author and committer, move
    /// `reference` to it, and report its identifier.
    CreateCommit { reference: String, message: String, tree: ObjectId, parent: ObjectId },
    /// Create a lightweight tag `name` on `target`; with `force` unset an
    /// existing tag of that name is an error.
    CreateTag { name: String, target: ObjectId, force: bool },
}

/// The mathematical content of a [`GitRequest`].
pub enum RequestModel {
    StagePath { path: Seq<char> },
    WriteIndex,
    WriteTree,
    ResolveHead,
    CreateCommit { reference: Seq<char>, message: Seq<char>, tree: ObjectId, parent: ObjectId },
    CreateTag { name: Seq<char>, target: ObjectId, force: bool },
}

impl View for GitRequest {
    type V = RequestModel;

    open spec fn view(&self) -> RequestModel {
        match self {
            GitRequest::StagePath { path } => RequestModel::StagePath { path: path@ },
            GitRequest::WriteIndex => RequestModel::WriteIndex,
            GitRequest::WriteTree => RequestModel::WriteTree,
            GitRequest::ResolveHead => RequestModel::ResolveHead,
            GitRequest::CreateCommit { reference, message, tree, parent } => {
                RequestModel::CreateCommit {
                    reference: reference@,
                    message: message@,
                    tree: *tree,
                    parent: *parent,
                }
            },
            GitRequest::CreateTag { name, target, force } => RequestModel::CreateTag {
                name: name@,
                target: *target,
                force: *force,
            },
        }
    }
}

/// How an operation went.
#[derive(Debug)]
pub enum GitReply {
    /// The operation succeeded and has nothing to report.
    Done,
    /// The operation succeeded and reports the object it found or made.
    Object(ObjectId),
    /// The operation failed.
    Failed(GitFailure),
}

/// The mathematical content of a [`GitReply`].
pub enum ReplyModel {
    Done,
    Object(ObjectId),
    Failed(GitFailureModel),
}

impl View for GitReply {
    type V = ReplyModel;

    open spec fn view(&self) -> ReplyModel {
        match self {
            GitReply::Done => ReplyModel::Done,
            GitReply::Object(id) => ReplyModel::Object(*id),
            GitReply::Failed(failure) => ReplyModel::Failed(failure@),
        }
    }
}

/// What a reply does to a committer.
pub enum Step {
    /// The reply fits and the committer moves on.
    Accepted,
    /// The operation failed with the given failure.
    Refused(GitFailureModel),
    /// The reply does not fit the request, or nothing was asked.
    Unexpected,
}

/// The mathematical content of a [`ReleaseCommitter`].
pub struct CommitterModel {
    pub stage: CommitStage,
    /// The message of the commit.
    pub message: Seq<char>,
    /// The version that is released, which is also the name of the tag.
    pub version: Seq<char>,
}

impl CommitterModel {
    /// The committer before anything is asked.
    pub open spec fn start(message: Seq<char>, version: Seq<char>) -> CommitterModel {
        CommitterModel { stage: CommitStage::StageManifest, message, version }
    }

    /// Whether nothing more will be asked.
    pub open spec fn terminal(self) -> bool {
        self.stage is Finished || self.stage is Failed
    }

    /// The operation that is asked for at this stage.
    pub open spec fn request(self) -> Option<RequestModel> {
        match self.stage {
            CommitStage::StageManifest => Some(RequestModel::StagePath { path: MANIFEST_FILE@ }),
            CommitStage::StageLockfile => Some(RequestModel::StagePath { path: LOCKFILE@ }),
            CommitStage::WriteIndex => Some(RequestModel::WriteIndex),
            CommitStage::WriteTree => Some(RequestModel::WriteTree),
            CommitStage::ResolveHead { .. } => Some(RequestModel::ResolveHead),
            CommitStage::CreateCommit { tree, parent } => Some(
                RequestModel::CreateCommit {
                    reference: HEAD@,
                    message: self.message,
                    tree,
                    parent,
                },
            ),
            CommitStage::CreateTag { commit } => Some(
                RequestModel::CreateTag { name: self.version, target: commit, force: false },
            ),
            CommitStage::Finished => None,
            CommitStage::Failed => None,
        }
    }

    /// The stage that follows when the operation of this stage succeeds with
    /// `reply`; `None` where the reply does not fit the operation.
    pub open spec fn successor(self, reply: ReplyModel) -> Option<CommitStage> {
        match (self.stage, reply) {
            (CommitStage::StageManifest, ReplyModel::Done) => Some(CommitStage::StageLockfile),
            (CommitStage::StageLockfile, ReplyModel::Done) => Some(CommitStage::WriteIndex),
            (CommitStage::WriteIndex, ReplyModel::Done) => Some(CommitStage::WriteTree),
            (CommitStage::WriteTree, ReplyModel::Object(tree)) => Some(
                CommitStage::ResolveHead { tree },
            ),
            (CommitStage::ResolveHead { tree }, ReplyModel::Object(parent)) => Some(
                CommitStage::CreateCommit { tree, parent },
            ),
            (CommitStage::CreateCommit { .. }, ReplyModel::Object(commit)) => Some(
                CommitStage::CreateTag { commit },
            ),
            (CommitStage::CreateTag { .. }, ReplyModel::Done) => Some(CommitStage::Finished),
            _ => None,
        }
    }

    /// What `reply` does to the committer.
    pub open spec fn step(self, reply: ReplyModel) -> Step {
        if self.terminal() {
            Step::Unexpected
        } else {
            match reply {
                ReplyModel::Failed(failure) => Step::Refused(failure),
                _ => if self.successor(reply) is Some {
                    Step::Accepted
                } else {
                    Step::Unexpected
                },
            }
        }
    }

    /// The committer after `reply`: at the next stage where the reply fits, and
    /// failed otherwise. A committer that has finished or failed stays as it is.
    pub open spec fn advance(self, reply: ReplyModel) -> CommitterModel {
        if self.terminal() {
            self
        } else {
            match self.step(reply) {
                Step::Accepted => CommitterModel { stage: self.successor(reply)->0, ..self },
                _ => CommitterModel { stage: CommitStage::Failed, ..self },
            }
        }
    }
}

/// Whether `outcome` is what a committer returns for `step`.
pub open spec fn answers(outcome: Result<(), VerisonError>, step: Step) -> bool {
    match step {
        Step::Accepted => outcome is Ok,
        Step::Refused(failure) => outcome matches Err(VerisonError::Git(reported)) && reported@
            == failure,
        Step::Unexpected => outcome matches Err(error) && error.is_other(UNEXPECTED_REPLY),
    }
}

/// The order of a release: where every operation succeeds, the manifest and
/// the lockfile are staged, the index is written, a tree is built, `HEAD` is
/// resolved, the commit is created on that tree with that one parent and the
/// given message, and the tag named as the version is put on the new commit,
/// without force. After that nothing is asked.
pub proof fn lemma_release_order(
    message: Seq<char>,
    version: Seq<char>,
    tree: ObjectId,
    parent: ObjectId,
    commit: ObjectId,
)
    ensures
        ({
            let staging = CommitterModel::start(message, version);
            let locking = staging.advance(ReplyModel::Done);
            let indexing = locking.advance(ReplyModel::Done);
            let building = indexing.advance(ReplyModel::Done);
            let resolving = building.advance(ReplyModel::Object(tree));
            let committing = resolving.advance(ReplyModel::Object(parent));
            let tagging = committing.advance(ReplyModel::Object(commit));
            let finished = tagging.advance(ReplyModel::Done);
            &&& staging.request() == Some(RequestModel::StagePath { path: MANIFEST_FILE@ })
            &&& locking.request() == Some(RequestModel::StagePath { path: LOCKFILE@ })
            &&& indexing.request() == Some(RequestModel::WriteIndex)
            &&& building.request() == Some(RequestModel::WriteTree)
            &&& resolving.request() == Some(RequestModel::ResolveHead)
            &&& committing.request() == Some(
                RequestModel::CreateCommit { reference: HEAD@, message, tree, parent },
            )
            &&& tagging.request() == Some(
                RequestModel::CreateTag { name: version, target: commit, force: false },
            )
            &&& finished.stage is Finished
            &&& finished.request() is None
        }),
{
}

/// A release stops at the first failure: a failed operation is reported with
/// its own failure, the committer has then failed, and a committer that has
/// failed or finished asks for nothing and accepts nothing.
pub proof fn lemma_release_fails_fast(
    committer: CommitterModel,
    failure: GitFailureModel,
    reply: ReplyModel,
)
    ensures
        !committer.terminal() ==> committer.step(ReplyModel::Failed(failure)) == Step::Refused(
            failure,
        ) && committer.advance(ReplyModel::Failed(failure)).stage is Failed,
        committer.terminal() ==> committer.request() is None && committer.step(reply)
            == Step::Unexpected && committer.advance(reply) == committer,
        committer.request() is None <==> committer.terminal(),
{
}

/// The conversation that creates the release commit and its tag.
#[derive(Debug)]
pub struct ReleaseCommitter {
    stage: CommitStage,
    message: String,
    version: String,
}

impl View for ReleaseCommitter {
    type V = CommitterModel;

    closed spec fn view(&self) -> CommitterModel {
        CommitterModel { stage: self.stage, message: self.message@, version: self.version@ }
    }
}

impl ReleaseCommitter {
    /// A committer that will commit with `message` and tag the commit as
    /// `version`.
    pub fn new(message: String, version: String) -> (committer: ReleaseCommitter)
        ensures
            committer@ == CommitterModel::start(message@, version@),
    {
        ReleaseCommitter { stage: CommitStage::StageManifest, message, version }
    }

    /// How far the release has come.
    pub fn stage(&self) -> (stage: CommitStage)
        ensures
            stage == self@.stage,
    {
        self.stage
    }

    /// Whether the commit and the tag exist.
    pub fn is_finished(&self) -> (finished: bool)
        ensures
            finished == (self@.stage is Finished),
    {
        match self.stage {
            CommitStage::Finished => true,
            _ => false,
        }
    }

    /// The operation to carry out next; `None` once the release has finished
    /// or failed.
    pub fn request(&self) -> (request: Option<GitRequest>)
        ensures
            match request {
                Some(asked) => self@.request() == Some(asked@),
                None => self@.request() is None,
            },
    {
        match self.stage {
            CommitStage::StageManifest => Some(
                GitRequest::StagePath { path: String::from_str(MANIFEST_FILE) },
            ),
            CommitStage::StageLockfile => Some(
                GitRequest::StagePath { path: String::from_str(LOCKFILE) },
            ),
            CommitStage::WriteIndex => Some(GitRequest::WriteIndex),
            CommitStage::WriteTree => Some(GitRequest::WriteTree),
            CommitStage::ResolveHead { .. } => Some(GitRequest::ResolveHead),
            CommitStage::CreateCommit { tree, parent } => Some(
                GitRequest::CreateCommit {
                    reference: String::from_str(HEAD),
                    message: self.message.clone(),
                    tree,
                    parent,
                },
            ),
            CommitStage::CreateTag { commit } => Some(
                GitRequest::CreateTag { name: self.version.clone(), target: commit, force: false },
            ),
            CommitStage::Finished => None,
            CommitStage::Failed => None,
        }
    }

    /// Takes the reply to the operation that was asked for and moves on.
    ///
    /// A failure is handed back as a repository error and ends the release. A
    /// reply that does not fit what was asked ends it too.
    pub fn advance(&mut self, reply: GitReply) -> (outcome: Result<(), VerisonError>)
        ensures
            final(self)@ == old(self)@.advance(reply@),
            answers(outcome, old(self)@.step(reply@)),
    {
        let next = match (self.stage, reply) {
            (CommitStage::Finished, _) => {
                return Err(VerisonError::Other(String::from_str(UNEXPECTED_REPLY)));
            },
            (CommitStage::Failed, _) => {
                return Err(VerisonError::Other(String::from_str(UNEXPECTED_REPLY)));
            },
            (_, GitReply::Failed(failure)) => {
                self.stage = CommitStage::Failed;
                return Err(VerisonError::Git(failure));
            },
            (CommitStage::StageManifest, GitReply::Done) => Some(CommitStage::StageLockfile),
            (CommitStage::StageLockfile, GitReply::Done) => Some(CommitStage::WriteIndex),
            (CommitStage::WriteIndex, GitReply::Done) => Some(CommitStage::WriteTree),
            (CommitStage::WriteTree, GitReply::Object(tree)) => Some(
                CommitStage::ResolveHead { tree },
            ),
            (CommitStage::ResolveHead { tree }, GitReply::Object(parent)) => Some(
                CommitStage::CreateCommit { tree, parent },
            ),
            (CommitStage::CreateCommit { .. }, GitReply::Object(commit)) => Some(
                CommitStage::CreateTag { commit },
            ),
            (CommitStage::CreateTag { .. }, GitReply::Done) => Some(CommitStage::Finished),
            _ => None,
        };
        match next {
            Some(stage) => {
                self.stage = stage;
                Ok(())
            },
            None => {
                self.stage = CommitStage::Failed;
                Err(VerisonError::Other(String::from_str(UNEXPECTED_REPLY)))
            },
        }
    }
}

} // verus!

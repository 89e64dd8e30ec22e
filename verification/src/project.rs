//! The project whose version is read, bumped, written back and released.

use crate::document::lemma_located_text;
use crate::document::lemma_rewrite_bytes;
use crate::document::lemma_rewrite_isolated;
use crate::document::locate_version;
use crate::document::reports_location;
use crate::document::version_span;
use crate::document::DocumentModel;
use crate::document::LocateFailure;
use crate::document::ManifestDocument;
use crate::error::GitFailure;
use crate::error::GitFailureModel;
use crate::error::VerisonError;
use crate::error::PATCH_OVERFLOW;
use crate::error::UNCONFIRMED_WRITE;
use crate::manifest::reports;
use crate::manifest::resolve;
use crate::manifest::resolve_manifest;
use crate::manifest::ResolveFailure;
use crate::message::commit_message;
use crate::message::commit_message_of;
use crate::release::CommitterModel;
use crate::release::ReleaseCommitter;
use crate::version::lemma_canonical_plain;
use crate::version::plain;
use crate::version::read_version;
use crate::version::SemanticVersion;
use crate::version::VersionModel;
use vstd::prelude::*;
use vstd::string::StringExecFns;
use vstd::utf8::encode_utf8;

verus! {

/// Whether a git repository was found where the project lives.
#[derive(Debug)]
pub enum RepositoryState {
    /// A repository was opened.
    Present,
    /// No repository could be opened; the failure says why. It is kept, not
    /// reported, until a commit is asked for.
    Unavailable(GitFailure),
}

/// The mathematical content of a [`RepositoryState`].
pub enum RepositoryModel {
    Present,
    Unavailable(GitFailureModel),
}

impl View for RepositoryState {
    type V = RepositoryModel;

    open spec fn view(&self) -> RepositoryModel {
        match self {
            RepositoryState::Present => RepositoryModel::Present,
            RepositoryState::Unavailable(failure) => RepositoryModel::Unavailable(failure@),
        }
    }
}

/// The view of an optional text.
pub open spec fn text_of(text: Option<String>) -> Option<Seq<char>> {
    match text {
        Some(text) => Some(text@),
        None => None,
    }
}

/// The value that stands for `version` in a manifest: the version between
/// double quotes.
pub open spec fn quoted(version: Seq<char>) -> Seq<char> {
    seq!['"'] + version + seq!['"']
}

/// Why a manifest text cannot be rewritten.
pub enum WriteFailure {
    /// The version field cannot be located in the text.
    Unlocated(LocateFailure),
    /// The text with the new value does not resolve to the version that was
    /// to be written.
    Unconfirmed,
}

/// Whether `error` is the error that reports `failure`.
pub open spec fn reports_write(
    error: VerisonError,
    failure: WriteFailure,
    workspace: bool,
) -> bool {
    match failure {
        WriteFailure::Unlocated(cause) => reports_location(error, cause, workspace),
        WriteFailure::Unconfirmed => error.is_other(UNCONFIRMED_WRITE),
    }
}

/// The mathematical content of a [`Project`].
pub struct ProjectModel {
    /// Whether the version is that of a workspace.
    pub workspace: bool,
    /// The current version.
    pub version: VersionModel,
    /// Whether a repository was found.
    pub repository: RepositoryModel,
    /// The directory of the project; `None` stands for the working directory.
    pub directory: Option<Seq<char>>,
}

impl ProjectModel {
    /// The project that is made from a manifest text.
    pub open spec fn created(
        workspace: bool,
        directory: Option<Seq<char>>,
        repository: RepositoryModel,
        contents: Seq<char>,
    ) -> Result<ProjectModel, ResolveFailure> {
        match resolve_manifest(contents, workspace) {
            Ok(version) => Ok(ProjectModel { workspace, version, repository, directory }),
            Err(failure) => Err(failure),
        }
    }

    /// The project at another version.
    pub open spec fn with_version(self, version: VersionModel) -> ProjectModel {
        ProjectModel { version, ..self }
    }

    /// The document with the project's version written into it.
    pub open spec fn updated(self, document: DocumentModel) -> DocumentModel {
        document.with_token(quoted(self.version.canonical()))
    }

    /// Whether a manifest text already declares the project's version, in
    /// whatever way the value is written.
    pub open spec fn declared_by(self, contents: Seq<char>) -> bool {
        resolve_manifest(contents, self.workspace) == Ok::<VersionModel, ResolveFailure>(
            self.version,
        )
    }

    /// The manifest text that replaces `contents` when the project's version
    /// is written into it. A manifest that already declares the version stays
    /// as it is. Otherwise the text is the same but for the value of the
    /// version field, provided that the new text declares the project's
    /// version.
    pub open spec fn written(self, contents: Seq<char>) -> Result<Seq<char>, WriteFailure> {
        if self.declared_by(contents) {
            Ok(contents)
        } else {
            match locate_version(contents, self.workspace) {
                Ok(document) => {
                    let text = self.updated(document).text();
                    if self.declared_by(text) {
                        Ok(text)
                    } else {
                        Err(WriteFailure::Unconfirmed)
                    }
                },
                Err(failure) => Err(WriteFailure::Unlocated(failure)),
            }
        }
    }

    /// The committer that releases the project's version, or the failure that
    /// was met when the repository was looked for.
    pub open spec fn committer(self, template: Option<Seq<char>>) -> Result<
        CommitterModel,
        GitFailureModel,
    > {
        match self.repository {
            RepositoryModel::Present => Ok(
                CommitterModel::start(
                    commit_message_of(template, self.version.canonical()),
                    self.version.canonical(),
                ),
            ),
            RepositoryModel::Unavailable(failure) => Err(failure),
        }
    }
}

/// A project does not need a repository until a commit is asked for: without
/// one it is made from the same manifests and writes the same text as with
/// one, and only the commit fails, with the failure that was met when the
/// repository was looked for.
pub proof fn lemma_repository_absence_tolerated(
    workspace: bool,
    directory: Option<Seq<char>>,
    failure: GitFailureModel,
    contents: Seq<char>,
    on_disk: Seq<char>,
    template: Option<Seq<char>>,
)
    ensures
        ({
            let with = ProjectModel::created(
                workspace,
                directory,
                RepositoryModel::Present,
                contents,
            );
            let without = ProjectModel::created(
                workspace,
                directory,
                RepositoryModel::Unavailable(failure),
                contents,
            );
            &&& with is Ok <==> without is Ok
            &&& with is Err ==> with->Err_0 == without->Err_0
            &&& with is Ok ==> {
                &&& without->Ok_0.version == with->Ok_0.version
                &&& without->Ok_0.written(on_disk) == with->Ok_0.written(on_disk)
                &&& with->Ok_0.committer(template) is Ok
                &&& without->Ok_0.committer(template) == Err::<CommitterModel, GitFailureModel>(
                    failure,
                )
            }
        }),
{
}

/// What is written is what is read: a project that is made from the text that
/// `written` gives has the version that was written.
pub proof fn lemma_written_reads_back(
    project: ProjectModel,
    contents: Seq<char>,
    directory: Option<Seq<char>>,
    repository: RepositoryModel,
)
    requires
        project.written(contents) is Ok,
    ensures
        ProjectModel::created(
            project.workspace,
            directory,
            repository,
            project.written(contents)->Ok_0,
        ) matches Ok(read) && read.version == project.version,
{
}

/// Writing back the version that a manifest already declares reproduces the
/// manifest as it is, whatever the quotes, the spacing and the comments of
/// the version line. This holds in particular of the manifest that a project
/// was made from, as long as the version of the project is not changed.
pub proof fn lemma_written_unchanged(project: ProjectModel, contents: Seq<char>)
    requires
        project.declared_by(contents),
    ensures
        project.written(contents) == Ok::<Seq<char>, WriteFailure>(contents),
        ProjectModel::created(
            project.workspace,
            project.directory,
            project.repository,
            contents,
        ) == Ok::<ProjectModel, ResolveFailure>(project),
{
}

/// Writing a version into a manifest that declares another one changes the
/// value of the version field and nothing else: the text before the value
/// and the text after it are kept character for character, and in bytes the
/// version between double quotes stands in place of the byte range of the
/// old value.
pub proof fn lemma_written_isolated(project: ProjectModel, contents: Seq<char>)
    requires
        project.written(contents) is Ok,
        !project.declared_by(contents),
    ensures
        ({
            let document = locate_version(contents, project.workspace)->Ok_0;
            let span = version_span(contents, project.workspace)->Ok_0;
            let value = quoted(project.version.canonical());
            let text = project.written(contents)->Ok_0;
            let head = document.head.len() as int;
            let bytes = encode_utf8(contents);
            &&& contents == document.head + document.token + document.tail
            &&& text == document.head + value + document.tail
            &&& text.subrange(0, head) == contents.subrange(0, head)
            &&& text.subrange(head + value.len(), text.len() as int) == contents.subrange(
                head + document.token.len(),
                contents.len() as int,
            )
            &&& encode_utf8(text) == bytes.subrange(0, span.0 as int) + encode_utf8(value)
                + bytes.subrange(span.1 as int, bytes.len() as int)
        }),
{
    let document = locate_version(contents, project.workspace)->Ok_0;
    let span = version_span(contents, project.workspace)->Ok_0;
    let value = quoted(project.version.canonical());
    lemma_located_text(contents, project.workspace);
    lemma_rewrite_isolated(document, value);
    lemma_rewrite_bytes(contents, span.0 as int, span.1 as int, value);
}

/// The lockfile regeneration, as a command for the caller to run.
#[derive(Debug)]
pub struct LockfileCommand {
    pub program: String,
    pub arguments: Vec<String>,
}

impl LockfileCommand {
    /// Whether this is the command that regenerates the lockfile: the package
    /// manager, asked to generate the lockfile and to be verbose.
    pub open spec fn regenerates(&self) -> bool {
        &&& self.program@ == "cargo"@
        &&& self.arguments@.len() == 2
        &&& self.arguments@[0]@ == "generate-lockfile"@
        &&& self.arguments@[1]@ == "--verbose"@
    }

    /// What the run of the command comes to: the text it printed where it
    /// exited with success, and an execution error, which carries the
    /// diagnostics, where it did not or could not be started.
    pub fn outcome(&self, succeeded: bool, output: String, diagnostics: String) -> (outcome:
        Result<String, VerisonError>)
        ensures
            match outcome {
                Ok(text) => succeeded && text@ == output@,
                Err(error) => !succeeded && (error matches VerisonError::Execution(message)
                    && message@ == diagnostics@),
            },
    {
        if succeeded {
            Ok(output)
        } else {
            Err(VerisonError::Execution(diagnostics))
        }
    }
}

/// A package, or a workspace, with the version that its manifest declares.
#[derive(Debug)]
pub struct Project {
    workspace: bool,
    semver: SemanticVersion,
    repository: RepositoryState,
    directory: Option<String>,
}

impl View for Project {
    type V = ProjectModel;

    closed spec fn view(&self) -> ProjectModel {
        ProjectModel {
            workspace: self.workspace,
            version: self.semver@,
            repository: self.repository@,
            directory: text_of(self.directory),
        }
    }
}

impl Project {
    /// Makes the project from the text of its manifest.
    ///
    /// `directory` is where the project lives (`None` for the working
    /// directory), `repository` says whether a git repository was found there,
    /// and `manifest` is what reading the manifest file gave. A manifest that
    /// could not be read is reported with the error of the read. Otherwise the
    /// version is resolved under the schema chosen by `workspace`. That there
    /// is no repository is no error here.
    pub fn create(
        workspace: bool,
        directory: Option<String>,
        repository: RepositoryState,
        manifest: Result<String, std::io::Error>,
    ) -> (created: Result<Project, VerisonError>)
        ensures
            match manifest {
                Ok(contents) => match created {
                    Ok(project) => ProjectModel::created(
                        workspace,
                        text_of(directory),
                        repository@,
                        contents@,
                    ) == Ok::<ProjectModel, ResolveFailure>(project@) && project@.version.valid(),
                    Err(error) => resolve_manifest(contents@, workspace) matches Err(failure)
                        && reports(error, failure, workspace),
                },
                Err(unreadable) => created matches Err(VerisonError::IO(reported)) && reported
                    == unreadable,
            },
    {
        let contents = match manifest {
            Ok(contents) => contents,
            Err(unreadable) => {
                return Err(VerisonError::IO(unreadable));
            },
        };
        match resolve(contents.as_str(), workspace) {
            Ok(semver) => Ok(Project { workspace, semver, repository, directory }),
            Err(error) => Err(error),
        }
    }

    /// Whether the version is that of a workspace.
    pub fn workspace(&self) -> (workspace: bool)
        ensures
            workspace == self@.workspace,
    {
        self.workspace
    }

    /// The directory of the project; `None` stands for the working directory.
    pub fn directory(&self) -> (directory: Option<&str>)
        ensures
            match directory {
                Some(text) => self@.directory == Some(text@),
                None => self@.directory is None,
            },
    {
        match &self.directory {
            Some(text) => Some(text.as_str()),
            None => None,
        }
    }

    /// Whether a repository was found.
    pub fn repository(&self) -> (repository: &RepositoryState)
        ensures
            repository@ == self@.repository,
    {
        &self.repository
    }

    /// The current version.
    pub fn version(&self) -> (version: &SemanticVersion)
        ensures
            version@ == self@.version,
            version@.valid(),
    {
        self.semver.validity();
        &self.semver
    }

    /// Replaces the current version by the one that `version` spells.
    pub fn set_version(&mut self, version: &str) -> (outcome: Result<(), VerisonError>)
        ensures
            match outcome {
                Ok(_) => {
                    &&& read_version(version@) == Some(final(self)@.version)
                    &&& final(self)@.version.valid()
                    &&& final(self)@.version.canonical() == version@
                    &&& final(self)@ == old(self)@.with_version(final(self)@.version)
                },
                Err(error) => {
                    &&& final(self)@ == old(self)@
                    &&& read_version(version@) is None
                    &&& error is SemVer
                },
            },
    {
        match SemanticVersion::parse(version) {
            Ok(semver) => {
                self.semver = semver;
                Ok(())
            },
            Err(error) => Err(error),
        }
    }

    /// Raises the patch number of the current version by one, leaving
    /// everything else as it is, and returns the new version as text.
    ///
    /// A patch number that is already the largest that 64 bits hold cannot be
    /// raised: that is an error, and the version stays.
    pub fn next_patch(&mut self) -> (outcome: Result<String, VerisonError>)
        ensures
            match outcome {
                Ok(text) => {
                    &&& old(self)@.version.patch < u64::MAX
                    &&& final(self)@ == old(self)@.with_version(old(self)@.version.next_patch())
                    &&& final(self)@.version.valid()
                    &&& text@ == final(self)@.version.canonical()
                },
                Err(error) => {
                    &&& old(self)@.version.patch == u64::MAX
                    &&& final(self)@ == old(self)@
                    &&& error.is_other(PATCH_OVERFLOW)
                },
            },
    {
        match self.semver.next_patch() {
            Some(next) => {
                self.semver = next;
                Ok(self.get_current_version())
            },
            None => Err(VerisonError::Other(String::from_str(PATCH_OVERFLOW))),
        }
    }

    /// The current version in its canonical text.
    pub fn get_current_version(&self) -> (text: String)
        ensures
            text@ == self@.version.canonical(),
    {
        self.semver.to_string()
    }

    /// The command that regenerates the lockfile, which the caller runs after
    /// the manifest is written and before the commit.
    pub fn cargo_update(&self) -> (command: LockfileCommand)
        ensures
            command.regenerates(),
    {
        let mut arguments: Vec<String> = Vec::new();
        arguments.push(String::from_str("generate-lockfile"));
        arguments.push(String::from_str("--verbose"));
        LockfileCommand { program: String::from_str("cargo"), arguments }
    }

    /// Writes the current version into the document, in place of the value of
    /// the version field and of nothing else. The value is the version
    /// between double quotes; the version holds no character that would have
    /// to be escaped there. The value is written whatever stood there before:
    /// [`Project::write`] calls this only for a manifest that does not declare
    /// the current version yet.
    pub fn update_version(&self, document: &mut ManifestDocument)
        ensures
            final(document)@ == self@.updated(old(document)@),
            plain(self@.version.canonical()),
    {
        self.semver.validity();
        proof {
            lemma_canonical_plain(self@.version);
        }
        let mut token = String::from_str("\"");
        token.append(self.get_current_version().as_str());
        token.append("\"");
        proof {
            reveal_strlit("\"");
            assert(token@ =~= quoted(self@.version.canonical()));
        }
        document.set_token(token);
    }

    /// Whether a manifest text declares the current version.
    pub fn is_declared_by(&self, contents: &str) -> (declared: bool)
        ensures
            declared == self@.declared_by(contents@),
    {
        match resolve(contents, self.workspace) {
            Ok(version) => version.same(&self.semver),
            Err(_) => false,
        }
    }

    /// The manifest text that is to replace the manifest on disk.
    ///
    /// `manifest` is what reading the manifest file gave just now. A manifest
    /// that could not be read is reported with the error of the read. A
    /// manifest that already declares the current version is handed back as
    /// it is, byte for byte. Otherwise the result is the same text with the
    /// current version, between double quotes, as the value of the version
    /// field; it is handed out only if it declares the current version when
    /// it is read again.
    pub fn write(&self, manifest: Result<String, std::io::Error>) -> (written: Result<
        String,
        VerisonError,
    >)
        ensures
            match manifest {
                Ok(contents) => match written {
                    Ok(text) => self@.written(contents@) == Ok::<Seq<char>, WriteFailure>(text@),
                    Err(error) => self@.written(contents@) matches Err(failure) && reports_write(
                        error,
                        failure,
                        self@.workspace,
                    ),
                },
                Err(unreadable) => written matches Err(VerisonError::IO(reported)) && reported
                    == unreadable,
            },
    {
        let contents = match manifest {
            Ok(contents) => contents,
            Err(unreadable) => {
                return Err(VerisonError::IO(unreadable));
            },
        };
        if self.is_declared_by(contents.as_str()) {
            return Ok(contents);
        }
        let mut document = match ManifestDocument::parse(contents.as_str(), self.workspace) {
            Ok(document) => document,
            Err(error) => {
                return Err(error);
            },
        };
        self.update_version(&mut document);
        let text = document.to_string();
        if self.is_declared_by(text.as_str()) {
            Ok(text)
        } else {
            Err(VerisonError::Other(String::from_str(UNCONFIRMED_WRITE)))
        }
    }

    /// Begins the release commit of the current version.
    ///
    /// Where no repository was found, the failure that was met then is
    /// returned as it was. Otherwise the committer is returned that stages the
    /// manifest and the lockfile, commits them with the message, and tags the
    /// commit as the version. The message is `message` with every `%s`
    /// replaced by the version, or the version itself where there is none.
    pub fn commit(&self, message: Option<String>) -> (begun: Result<
        ReleaseCommitter,
        VerisonError,
    >)
        ensures
            match begun {
                Ok(committer) => self@.committer(text_of(message)) == Ok::<
                    CommitterModel,
                    GitFailureModel,
                >(committer@),
                Err(error) => error matches VerisonError::Git(failure) && self@.committer(
                    text_of(message),
                ) == Err::<CommitterModel, GitFailureModel>(failure@),
            },
    {
        let version = self.get_current_version();
        let text = match &message {
            Some(template) => commit_message(Some(template.as_str()), version.as_str()),
            None => commit_message(None, version.as_str()),
        };
        match &self.repository {
            RepositoryState::Present => Ok(ReleaseCommitter::new(text, version)),
            RepositoryState::Unavailable(failure) => Err(VerisonError::Git(failure.clone())),
        }
    }
}

} // verus!

//! The failures that the library reports, and the families they fall into.

use vstd::prelude::*;
use vstd::string::to_string_from_display_ensures;
use vstd::string::StringExecFns;

verus! {

/// `std::io::Error`, carried through unopened.
#[verifier::external_type_specification]
#[verifier::external_body]
pub struct ExIoError(std::io::Error);

/// `toml::de::Error`, carried through unopened.
#[verifier::external_type_specification]
#[verifier::external_body]
pub struct ExTomlError(toml::de::Error);

/// `toml_edit::TomlError`, carried through unopened.
#[verifier::external_type_specification]
#[verifier::external_body]
pub struct ExTomlEditError(toml_edit::TomlError);

/// `semver::Error`, carried through unopened.
#[verifier::external_type_specification]
#[verifier::external_body]
pub struct ExSemverError(semver::Error);

/// What a git operation reported when it failed, kept as plain values so that
/// the failure can be stored, copied and surfaced unchanged.
#[derive(Debug)]
pub struct GitFailure {
    /// The numeric code of the error.
    pub code: i32,
    /// The numeric class of the error.
    pub class: i32,
    /// The message of the error.
    pub message: String,
    /// What the error displays as: the message, followed by the class and by
    /// the code where they are not the generic ones.
    pub display: String,
}

/// The mathematical content of a [`GitFailure`].
pub struct GitFailureModel {
    pub code: int,
    pub class: int,
    pub message: Seq<char>,
    pub display: Seq<char>,
}

impl View for GitFailure {
    type V = GitFailureModel;

    open spec fn view(&self) -> GitFailureModel {
        GitFailureModel {
            code: self.code as int,
            class: self.class as int,
            message: self.message@,
            display: self.display@,
        }
    }
}

impl Clone for GitFailure {
    fn clone(&self) -> (copy: Self)
        ensures
            copy@ == self@,
    {
        GitFailure {
            code: self.code,
            class: self.class,
            message: self.message.clone(),
            display: self.display.clone(),
        }
    }
}

/// The families of failure.
#[derive(Clone, Copy, Debug, PartialEq, Eq, Structural)]
pub enum ErrorKind {
    /// A file is missing, unreadable or unwritable.
    Io,
    /// The manifest is not TOML, or does not have the expected tables and fields.
    Parse,
    /// A version string does not follow the semantic-version grammar.
    SemanticVersion,
    /// A git operation failed; this includes a missing repository and a tag
    /// that exists already.
    Repository,
    /// The lockfile could not be regenerated.
    Execution,
    /// Anything else.
    Other,
}

/// A failure of the library or of one of the systems it works with.
#[derive(Debug)]
pub enum VerisonError {
    Other(String),
    IO(std::io::Error),
    Toml(toml::de::Error),
    TomlEdit(toml_edit::TomlError),
    /// The manifest is valid TOML but lacks the table or the string field named
    /// by the dotted path.
    Schema(String),
    SemVer(semver::Error),
    Git(GitFailure),
    /// The lockfile regeneration failed; the text says how.
    Execution(String),
}

/// The message of the error for a patch number that cannot be raised.
pub const PATCH_OVERFLOW: &'static str = "the patch number cannot be raised";

/// The message of the error for a version field whose place in the manifest
/// text cannot be determined.
pub const UNLOCATED_VERSION: &'static str = "the version field cannot be located";

/// The message of the error for a rewritten manifest that does not resolve to
/// the version that was written.
pub const UNCONFIRMED_WRITE: &'static str = "the rewritten manifest does not declare the version";

/// The message of the error for a reply that a release does not expect.
pub const UNEXPECTED_REPLY: &'static str = "the release does not expect this reply";

impl VerisonError {
    /// Whether the failure is of the uncategorized kind and carries `message`.
    pub open spec fn is_other(&self, message: &str) -> bool {
        self matches VerisonError::Other(text) && text@ == message@
    }

    /// The family that the failure belongs to.
    pub open spec fn spec_kind(&self) -> ErrorKind {
        match self {
            VerisonError::Other(_) => ErrorKind::Other,
            VerisonError::IO(_) => ErrorKind::Io,
            VerisonError::Toml(_) => ErrorKind::Parse,
            VerisonError::TomlEdit(_) => ErrorKind::Parse,
            VerisonError::Schema(_) => ErrorKind::Parse,
            VerisonError::SemVer(_) => ErrorKind::SemanticVersion,
            VerisonError::Git(_) => ErrorKind::Repository,
            VerisonError::Execution(_) => ErrorKind::Execution,
        }
    }

    /// The family that the failure belongs to.
    #[verifier::when_used_as_spec(spec_kind)]
    pub fn kind(&self) -> (kind: ErrorKind)
        ensures
            kind == self.spec_kind(),
    {
        match self {
            VerisonError::Other(_) => ErrorKind::Other,
            VerisonError::IO(_) => ErrorKind::Io,
            VerisonError::Toml(_) => ErrorKind::Parse,
            VerisonError::TomlEdit(_) => ErrorKind::Parse,
            VerisonError::Schema(_) => ErrorKind::Parse,
            VerisonError::SemVer(_) => ErrorKind::SemanticVersion,
            VerisonError::Git(_) => ErrorKind::Repository,
            VerisonError::Execution(_) => ErrorKind::Execution,
        }
    }

    /// An uncategorized failure with the given message.
    pub fn other(message: &str) -> (error: VerisonError)
        ensures
            error.is_other(message),
    {
        VerisonError::Other(String::from_str(message))
    }

    /// Whether `text` is the message of the failure: the text it carries, or
    /// what the outside error displays as. For a git failure it is what the
    /// git error displayed as.
    pub open spec fn is_message(&self, text: String) -> bool {
        match self {
            VerisonError::Other(message) => text@ == message@,
            VerisonError::IO(error) => to_string_from_display_ensures::<std::io::Error>(
                error,
                text,
            ),
            VerisonError::Toml(error) => to_string_from_display_ensures::<toml::de::Error>(
                error,
                text,
            ),
            VerisonError::TomlEdit(error) => to_string_from_display_ensures::<
                toml_edit::TomlError,
            >(error, text),
            VerisonError::Schema(path) => text@ == schema_message(path@),
            VerisonError::SemVer(error) => to_string_from_display_ensures::<semver::Error>(
                error,
                text,
            ),
            VerisonError::Git(failure) => text@ == failure.display@,
            VerisonError::Execution(message) => text@ == message@,
        }
    }

    /// The human-readable message of the failure.
    pub fn to_string(&self) -> (text: String)
        ensures
            self.is_message(text),
    {
        match self {
            VerisonError::Other(message) => message.clone(),
            VerisonError::IO(error) => error.to_string(),
            VerisonError::Toml(error) => error.to_string(),
            VerisonError::TomlEdit(error) => error.to_string(),
            VerisonError::Schema(path) => {
                let mut text = String::from_str("missing field `");
                text.append(path.as_str());
                text.append("`");
                text
            },
            VerisonError::SemVer(error) => error.to_string(),
            VerisonError::Git(failure) => failure.display.clone(),
            VerisonError::Execution(message) => message.clone(),
        }
    }
}

impl From<String> for VerisonError {
    fn from(err: String) -> (error: Self) {
        VerisonError::Other(err)
    }
}

impl vstd::std_specs::convert::FromSpecImpl<String> for VerisonError {
    open spec fn obeys_from_spec() -> bool {
        true
    }

    open spec fn from_spec(err: String) -> Self {
        VerisonError::Other(err)
    }
}

impl<'a> From<&'a str> for VerisonError {
    fn from(err: &'a str) -> (error: Self) {
        VerisonError::other(err)
    }
}

/// The failure is `VerisonError::other` of the text. No law is stated for the
/// conversion itself: a spec function cannot make a string from a text.
impl<'a> vstd::std_specs::convert::FromSpecImpl<&'a str> for VerisonError {
    open spec fn obeys_from_spec() -> bool {
        false
    }

    open spec fn from_spec(err: &'a str) -> Self {
        arbitrary()
    }
}

impl From<std::io::Error> for VerisonError {
    fn from(err: std::io::Error) -> (error: Self) {
        VerisonError::IO(err)
    }
}

impl vstd::std_specs::convert::FromSpecImpl<std::io::Error> for VerisonError {
    open spec fn obeys_from_spec() -> bool {
        true
    }

    open spec fn from_spec(err: std::io::Error) -> Self {
        VerisonError::IO(err)
    }
}

impl From<toml::de::Error> for VerisonError {
    fn from(err: toml::de::Error) -> (error: Self) {
        VerisonError::Toml(err)
    }
}

impl vstd::std_specs::convert::FromSpecImpl<toml::de::Error> for VerisonError {
    open spec fn obeys_from_spec() -> bool {
        true
    }

    open spec fn from_spec(err: toml::de::Error) -> Self {
        VerisonError::Toml(err)
    }
}

impl From<toml_edit::TomlError> for VerisonError {
    fn from(err: toml_edit::TomlError) -> (error: Self) {
        VerisonError::TomlEdit(err)
    }
}

impl vstd::std_specs::convert::FromSpecImpl<toml_edit::TomlError> for VerisonError {
    open spec fn obeys_from_spec() -> bool {
        true
    }

    open spec fn from_spec(err: toml_edit::TomlError) -> Self {
        VerisonError::TomlEdit(err)
    }
}

impl From<semver::Error> for VerisonError {
    fn from(err: semver::Error) -> (error: Self) {
        VerisonError::SemVer(err)
    }
}

impl vstd::std_specs::convert::FromSpecImpl<semver::Error> for VerisonError {
    open spec fn obeys_from_spec() -> bool {
        true
    }

    open spec fn from_spec(err: semver::Error) -> Self {
        VerisonError::SemVer(err)
    }
}

impl From<GitFailure> for VerisonError {
    fn from(err: GitFailure) -> (error: Self) {
        VerisonError::Git(err)
    }
}

impl vstd::std_specs::convert::FromSpecImpl<GitFailure> for VerisonError {
    open spec fn obeys_from_spec() -> bool {
        true
    }

    open spec fn from_spec(err: GitFailure) -> Self {
        VerisonError::Git(err)
    }
}

/// The message of a schema failure at the dotted `path`.
pub open spec fn schema_message(path: Seq<char>) -> Seq<char> {
    "missing field `"@ + path + "`"@
}

} // verus!

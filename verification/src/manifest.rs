//! Reading the version that a manifest declares, for a standalone package
//! (`package.version`) or for a workspace (`workspace.package.version`).

use crate::error::VerisonError;
use crate::version::read_version;
use crate::version::SemanticVersion;
use crate::version::VersionModel;
use vstd::prelude::*;
use vstd::string::StringExecFns;

verus! {

/// The name of the manifest file in the project directory.
pub const MANIFEST_FILE: &'static str = "Cargo.toml";

/// The name of the lockfile, which lies beside the manifest.
pub const LOCKFILE: &'static str = "Cargo.lock";

/// `toml::Value`, carried through unopened.
#[verifier::external_type_specification]
#[verifier::external_body]
pub struct ExTomlValue(toml::Value);

/// What the library reads of a TOML value.
pub enum TomlModel {
    /// A string, with its text.
    Text(Seq<char>),
    /// A table, with the values under its keys.
    Table(Map<Seq<char>, TomlModel>),
    /// A value that is neither a string nor a table.
    Other,
}

impl TomlModel {
    /// The value under `key`, where this is a table that has the key.
    pub open spec fn member(self, key: Seq<char>) -> Option<TomlModel> {
        match self {
            TomlModel::Table(entries) => if entries.dom().contains(key) {
                Some(entries[key])
            } else {
                None
            },
            _ => None,
        }
    }

    /// The text, where this is a string.
    pub open spec fn text(self) -> Option<Seq<char>> {
        match self {
            TomlModel::Text(text) => Some(text),
            _ => None,
        }
    }
}

/// What a `toml::Value` holds: the text of a string and the entries of a
/// table, each entry with what it holds in turn.
pub uninterp spec fn toml_model(value: toml::Value) -> TomlModel;

/// What `toml::from_str` makes of a manifest text when it is asked for a
/// `toml::Value`: what the document holds, or `None` where the text is
/// rejected.
pub uninterp spec fn toml_parse(text: Seq<char>) -> Option<TomlModel>;

/// Calls `toml::from_str` for a `toml::Value`. The contract gives the outcome
/// its name, [`toml_parse`]: an error where the text is rejected, and else a
/// value that holds what the name says.
#[verifier::external_body]
fn parse_toml(text: &str) -> (parsed: Result<toml::Value, toml::de::Error>)
    ensures
        match parsed {
            Ok(root) => toml_parse(text@) == Some(toml_model(root)),
            Err(_) => toml_parse(text@) is None,
        },
{
    toml::from_str::<toml::Value>(text)
}

/// Calls `toml::Value::get` with a string key: the value under the key where
/// the value is a table that has the key, and nothing otherwise.
#[verifier::external_body]
fn toml_get<'a>(value: &'a toml::Value, key: &str) -> (member: Option<&'a toml::Value>)
    ensures
        match member {
            Some(found) => toml_model(*value).member(key@) == Some(toml_model(*found)),
            None => toml_model(*value).member(key@) is None,
        },
{
    value.get(key)
}

/// Calls `toml::Value::as_str`: the text where the value is a string, and
/// nothing otherwise.
#[verifier::external_body]
fn toml_as_str<'a>(value: &'a toml::Value) -> (text: Option<&'a str>)
    ensures
        match text {
            Some(found) => toml_model(*value).text() == Some(found@),
            None => toml_model(*value).text() is None,
        },
{
    value.as_str()
}

/// The table that holds the version field: `package`, under `workspace` in
/// workspace mode and at the top otherwise.
pub open spec fn package_table(root: TomlModel, workspace: bool) -> Option<TomlModel> {
    if workspace {
        match root.member("workspace"@) {
            Some(table) => table.member("package"@),
            None => None,
        }
    } else {
        root.member("package"@)
    }
}

/// The version string that a manifest declares under the schema chosen by
/// `workspace`; `None` where a table or the field is missing, or the field
/// is not a string.
pub open spec fn declared_version(root: TomlModel, workspace: bool) -> Option<Seq<char>> {
    match package_table(root, workspace) {
        Some(package) => match package.member("version"@) {
            Some(field) => field.text(),
            None => None,
        },
        None => None,
    }
}

/// The dotted path of the version field.
pub open spec fn version_path(workspace: bool) -> Seq<char> {
    if workspace {
        "workspace.package.version"@
    } else {
        "package.version"@
    }
}

/// Why a manifest text does not resolve to a version.
pub enum ResolveFailure {
    /// The text is not TOML.
    NotToml,
    /// The tables or the string field of the schema are missing.
    Schema,
    /// The version field is not written as a semantic version.
    NotSemver,
}

/// What a manifest text resolves to under the schema chosen by `workspace`.
pub open spec fn resolve_manifest(text: Seq<char>, workspace: bool) -> Result<
    VersionModel,
    ResolveFailure,
> {
    match toml_parse(text) {
        None => Err(ResolveFailure::NotToml),
        Some(root) => match declared_version(root, workspace) {
            None => Err(ResolveFailure::Schema),
            Some(version) => match read_version(version) {
                None => Err(ResolveFailure::NotSemver),
                Some(model) => Ok(model),
            },
        },
    }
}

/// Whether `error` is the error that reports `failure`.
pub open spec fn reports(error: VerisonError, failure: ResolveFailure, workspace: bool) -> bool {
    match failure {
        ResolveFailure::NotToml => error is Toml,
        ResolveFailure::Schema => error matches VerisonError::Schema(path) && path@
            == version_path(workspace),
        ResolveFailure::NotSemver => error is SemVer,
    }
}

/// A manifest resolves under a schema only if it holds that schema's section:
/// one without a `workspace` table does not resolve in workspace mode, and one
/// without a top-level `package` table does not resolve in standalone mode.
pub proof fn lemma_schema_exclusive(text: Seq<char>, root: TomlModel)
    requires
        toml_parse(text) == Some(root),
    ensures
        root.member("workspace"@) is None ==> resolve_manifest(text, true) == Err::<
            VersionModel,
            ResolveFailure,
        >(ResolveFailure::Schema),
        root.member("package"@) is None ==> resolve_manifest(text, false) == Err::<
            VersionModel,
            ResolveFailure,
        >(ResolveFailure::Schema),
{
}

/// Where the manifest of a project is found.
#[derive(Debug)]
pub struct ManifestLocation {
    /// The directory that holds the manifest; `None` stands for the working
    /// directory of the process.
    pub directory: Option<String>,
    /// The name of the manifest file in that directory.
    pub file_name: String,
}

/// Locates the manifest of the project in `directory`: the file of the fixed
/// name in that directory, or in the working directory where none is given.
/// Whether the file exists is not looked at.
pub fn locate(directory: Option<&str>) -> (location: ManifestLocation)
    ensures
        location.file_name@ == MANIFEST_FILE@,
        match directory {
            Some(given) => location.directory matches Some(base) && base@ == given@,
            None => location.directory is None,
        },
{
    ManifestLocation {
        directory: match directory {
            Some(given) => Some(String::from_str(given)),
            None => None,
        },
        file_name: String::from_str(MANIFEST_FILE),
    }
}

/// Looks up the version string of a parsed manifest.
pub fn find_declared_version<'a>(root: &'a toml::Value, workspace: bool) -> (found: Option<
    &'a str,
>)
    ensures
        match found {
            Some(text) => declared_version(toml_model(*root), workspace) == Some(text@),
            None => declared_version(toml_model(*root), workspace) is None,
        },
{
    let package = if workspace {
        match toml_get(root, "workspace") {
            Some(table) => toml_get(table, "package"),
            None => None,
        }
    } else {
        toml_get(root, "package")
    };
    match package {
        Some(table) => match toml_get(table, "version") {
            Some(field) => toml_as_str(field),
            None => None,
        },
        None => None,
    }
}

/// Resolves the version that a manifest text declares.
///
/// The text must be TOML, hold the tables and the string field of the chosen
/// schema, and the field must be a semantic version; each failure is reported
/// by an error of its own.
pub fn resolve(contents: &str, workspace: bool) -> (resolved: Result<
    SemanticVersion,
    VerisonError,
>)
    ensures
        match resolved {
            Ok(version) => resolve_manifest(contents@, workspace) == Ok::<
                VersionModel,
                ResolveFailure,
            >(version@),
            Err(error) => resolve_manifest(contents@, workspace) matches Err(failure) && reports(
                error,
                failure,
                workspace,
            ),
        },
{
    let root = match parse_toml(contents) {
        Ok(root) => root,
        Err(error) => {
            return Err(VerisonError::Toml(error));
        },
    };
    match find_declared_version(&root, workspace) {
        Some(text) => SemanticVersion::parse(text),
        None => {
            let path = if workspace {
                "workspace.package.version"
            } else {
                "package.version"
            };
            Err(VerisonError::Schema(String::from_str(path)))
        },
    }
}

} // verus!

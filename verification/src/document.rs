//! The manifest as a document that can be rewritten without disturbing
//! anything but the version: the text before the version's value, the value
//! as it is written, and the text after it.

use crate::error::VerisonError;
use crate::error::UNLOCATED_VERSION;
use crate::manifest::version_path;
use vstd::prelude::*;
use vstd::string::StringExecFns;
use vstd::string::StringSliceAdditionalSpecFns;
use vstd::utf8::decode_utf8;
use vstd::utf8::decode_utf8_encode_utf8;
use vstd::utf8::decode_utf8_split;
use vstd::utf8::encode_utf8;
use vstd::utf8::encode_utf8_decode_utf8;
use vstd::utf8::encode_utf8_valid_utf8;
use vstd::utf8::is_char_boundary;
use vstd::utf8::is_char_boundary_iff_not_is_continuation_byte;
use vstd::utf8::is_char_boundary_start_end_of_seq;
use vstd::utf8::valid_utf8;
use vstd::utf8::valid_utf8_split;

verus! {

/// `toml_edit::ImDocument`, carried through unopened.
#[verifier::external_type_specification]
#[verifier::external_body]
#[verifier::reject_recursive_types(S)]
pub struct ExImDocument<S>(toml_edit::ImDocument<S>);

/// `toml_edit::Item`, carried through unopened.
#[verifier::external_type_specification]
#[verifier::external_body]
pub struct ExItem(toml_edit::Item);

/// What the library reads of an item of a parsed manifest.
pub struct ItemModel {
    /// The items under the string keys of the item, where it is a table or an
    /// inline table; empty otherwise.
    pub members: Map<Seq<char>, ItemModel>,
    /// Whether the item is a string.
    pub is_string: bool,
    /// The byte range at which the item stands in the text it was parsed
    /// from, where that is known.
    pub span: Option<(usize, usize)>,
}

impl ItemModel {
    /// The item under `key`, where there is one.
    pub open spec fn member(self, key: Seq<char>) -> Option<ItemModel> {
        if self.members.dom().contains(key) {
            Some(self.members[key])
        } else {
            None
        }
    }
}

/// What a `toml_edit::Item` holds: the items that `Item::get` finds under its
/// string keys, whether it is a string, and its span.
pub uninterp spec fn item_model(item: toml_edit::Item) -> ItemModel;

/// What the root item of a `toml_edit::ImDocument` holds.
pub uninterp spec fn document_model(document: toml_edit::ImDocument<String>) -> ItemModel;

/// What `toml_edit::ImDocument::parse` makes of a manifest text: what the root
/// of the document holds, or `None` where the text is rejected.
pub uninterp spec fn edit_parse(text: Seq<char>) -> Option<ItemModel>;

/// Calls `toml_edit::ImDocument::parse` on a copy of the text. The contract
/// gives the outcome its name, [`edit_parse`]: an error where the text is
/// rejected, and else a document whose root holds what the name says.
#[verifier::external_body]
fn parse_document(text: &str) -> (parsed: Result<
    toml_edit::ImDocument<String>,
    toml_edit::TomlError,
>)
    ensures
        match parsed {
            Ok(document) => edit_parse(text@) == Some(document_model(document)),
            Err(_) => edit_parse(text@) is None,
        },
{
    toml_edit::ImDocument::parse(text.to_owned())
}

/// Calls `toml_edit::ImDocument::as_item`: the root item of the document.
#[verifier::external_body]
fn document_root<'a>(document: &'a toml_edit::ImDocument<String>) -> (root: &'a toml_edit::Item)
    ensures
        item_model(*root) == document_model(*document),
{
    document.as_item()
}

/// Calls `toml_edit::Item::get` with a string key: the item under the key
/// where the item is a table or an inline table that has it, and nothing
/// otherwise.
#[verifier::external_body]
fn item_get<'a>(item: &'a toml_edit::Item, key: &str) -> (member: Option<&'a toml_edit::Item>)
    ensures
        match member {
            Some(found) => item_model(*item).member(key@) == Some(item_model(*found)),
            None => item_model(*item).member(key@) is None,
        },
{
    item.get(key)
}

/// Calls `toml_edit::Item::is_str`: whether the item is a string.
#[verifier::external_body]
fn item_is_str(item: &toml_edit::Item) -> (string: bool)
    ensures
        string == item_model(*item).is_string,
{
    item.is_str()
}

/// Calls `toml_edit::Item::span` and hands out the two ends of the range: the
/// place of the item in the text it was parsed from.
#[verifier::external_body]
fn item_span(item: &toml_edit::Item) -> (span: Option<(usize, usize)>)
    ensures
        span == item_model(*item).span,
{
    item.span().map(|range| (range.start, range.end))
}

/// The mathematical content of a manifest document: three texts that, put
/// together, are the manifest.
pub struct DocumentModel {
    /// Everything before the value of the version field.
    pub head: Seq<char>,
    /// The value of the version field as it is written, quotes included.
    pub token: Seq<char>,
    /// Everything after the value of the version field.
    pub tail: Seq<char>,
}

impl DocumentModel {
    /// The whole manifest.
    pub open spec fn text(self) -> Seq<char> {
        self.head + self.token + self.tail
    }

    /// The document with another value written for the version.
    pub open spec fn with_token(self, token: Seq<char>) -> DocumentModel {
        DocumentModel { token, ..self }
    }
}

/// Whether the byte range from `start` to `end` cuts `text` into three texts:
/// the range lies in the UTF-8 encoding of the text, and neither end falls
/// inside the encoding of a character.
pub open spec fn splits_at(text: Seq<char>, start: int, end: int) -> bool {
    let bytes = encode_utf8(text);
    &&& 0 <= start <= end <= bytes.len()
    &&& is_char_boundary(bytes, start)
    &&& is_char_boundary(bytes, end)
}

/// The document that the byte range from `start` to `end` cuts `text` into.
pub open spec fn split_model(text: Seq<char>, start: int, end: int) -> DocumentModel {
    let bytes = encode_utf8(text);
    DocumentModel {
        head: decode_utf8(bytes.subrange(0, start)),
        token: decode_utf8(bytes.subrange(start, end)),
        tail: decode_utf8(bytes.subrange(end, bytes.len() as int)),
    }
}

/// A position before a character boundary is a boundary of the whole text
/// exactly when it is one of the part up to that boundary.
proof fn lemma_boundary_of_front(bytes: Seq<u8>, start: int, end: int)
    requires
        valid_utf8(bytes),
        0 <= start <= end <= bytes.len(),
        is_char_boundary(bytes, end),
    ensures
        valid_utf8(bytes.subrange(0, end)),
        is_char_boundary(bytes.subrange(0, end), start) == is_char_boundary(bytes, start),
{
    let front = bytes.subrange(0, end);
    valid_utf8_split(bytes, end);
    if start < end {
        is_char_boundary_iff_not_is_continuation_byte(bytes, start);
        is_char_boundary_iff_not_is_continuation_byte(front, start);
        assert(front[start] == bytes[start]);
    } else {
        is_char_boundary_start_end_of_seq(front);
    }
}

/// Cutting a text and putting the three parts together again gives the text:
/// a document that is not changed is written back as it was read.
pub proof fn lemma_split_text(text: Seq<char>, start: int, end: int)
    requires
        splits_at(text, start, end),
    ensures
        split_model(text, start, end).text() == text,
{
    let bytes = encode_utf8(text);
    let front = bytes.subrange(0, end);
    encode_utf8_valid_utf8(text);
    encode_utf8_decode_utf8(text);
    lemma_boundary_of_front(bytes, start, end);
    decode_utf8_split(bytes, end);
    decode_utf8_split(front, start);
    assert(front.subrange(0, start) =~= bytes.subrange(0, start));
    assert(front.subrange(start, front.len() as int) =~= bytes.subrange(start, end));
}

/// Writing another value for the version changes nothing else: the text before
/// the value and the text after it stay as they were, character for character.
pub proof fn lemma_rewrite_isolated(document: DocumentModel, token: Seq<char>)
    ensures
        ({
            let before = document.text();
            let after = document.with_token(token).text();
            let head = document.head.len() as int;
            &&& after.len() == before.len() - document.token.len() + token.len()
            &&& after.subrange(0, head) == before.subrange(0, head)
            &&& after.subrange(head, head + token.len()) == token
            &&& after.subrange(head + token.len(), after.len() as int) == before.subrange(
                head + document.token.len(),
                before.len() as int,
            )
        }),
{
    let before = document.text();
    let after = document.with_token(token).text();
    let head = document.head.len() as int;
    assert(after.subrange(0, head) =~= before.subrange(0, head));
    assert(after.subrange(head, head + token.len()) =~= token);
    assert(after.subrange(head + token.len(), after.len() as int) =~= before.subrange(
        head + document.token.len(),
        before.len() as int,
    ));
}

/// The encoding of two texts put together is their encodings put together.
pub proof fn lemma_encode_concat(first: Seq<char>, second: Seq<char>)
    ensures
        encode_utf8(first + second) == encode_utf8(first) + encode_utf8(second),
    decreases first.len(),
{
    if first.len() == 0 {
        assert(first + second =~= second);
        assert(encode_utf8(first) + encode_utf8(second) =~= encode_utf8(second));
    } else {
        assert((first + second).drop_first() =~= first.drop_first() + second);
        lemma_encode_concat(first.drop_first(), second);
        assert(encode_utf8(first + second) =~= encode_utf8(first) + encode_utf8(second));
    }
}

/// In bytes: writing another value for the version puts the bytes of the new
/// value in place of the byte range of the old one, and keeps every byte
/// before the range and every byte after it.
pub proof fn lemma_rewrite_bytes(text: Seq<char>, start: int, end: int, token: Seq<char>)
    requires
        splits_at(text, start, end),
    ensures
        ({
            let bytes = encode_utf8(text);
            encode_utf8(split_model(text, start, end).with_token(token).text())
                == bytes.subrange(0, start) + encode_utf8(token) + bytes.subrange(
                end,
                bytes.len() as int,
            )
        }),
{
    let bytes = encode_utf8(text);
    let document = split_model(text, start, end);
    encode_utf8_valid_utf8(text);
    valid_utf8_split(bytes, start);
    valid_utf8_split(bytes, end);
    decode_utf8_encode_utf8(bytes.subrange(0, start));
    decode_utf8_encode_utf8(bytes.subrange(end, bytes.len() as int));
    lemma_encode_concat(document.head, token);
    lemma_encode_concat(document.head + token, document.tail);
}

/// Writing the value that is already there changes nothing at all.
pub proof fn lemma_rewrite_same(document: DocumentModel)
    ensures
        document.with_token(document.token).text() == document.text(),
{
}

/// Why the version field of a manifest text cannot be located.
pub enum LocateFailure {
    /// The text is not TOML.
    NotToml,
    /// The tables or the string field of the schema are missing.
    Schema,
    /// The field is there, but its place in the text is unknown or does not
    /// cut the text.
    Unlocated,
}

/// The item of the table that holds the version field.
pub open spec fn package_item(root: ItemModel, workspace: bool) -> Option<ItemModel> {
    if workspace {
        match root.member("workspace"@) {
            Some(table) => table.member("package"@),
            None => None,
        }
    } else {
        root.member("package"@)
    }
}

/// The item of the version field, where the schema's tables exist and the
/// field is a string.
pub open spec fn version_item(root: ItemModel, workspace: bool) -> Option<ItemModel> {
    match package_item(root, workspace) {
        Some(package) => match package.member("version"@) {
            Some(field) => if field.is_string {
                Some(field)
            } else {
                None
            },
            None => None,
        },
        None => None,
    }
}

/// The byte range at which the value of the version field stands in a
/// manifest text, under the schema chosen by `workspace`.
pub open spec fn version_span(text: Seq<char>, workspace: bool) -> Result<
    (usize, usize),
    LocateFailure,
> {
    match edit_parse(text) {
        None => Err(LocateFailure::NotToml),
        Some(root) => match version_item(root, workspace) {
            None => Err(LocateFailure::Schema),
            Some(field) => match field.span {
                None => Err(LocateFailure::Unlocated),
                Some(span) => if splits_at(text, span.0 as int, span.1 as int) {
                    Ok(span)
                } else {
                    Err(LocateFailure::Unlocated)
                },
            },
        },
    }
}

/// The document that a manifest text is read as under the schema chosen by
/// `workspace`: the text, cut at the value of the version field.
pub open spec fn locate_version(text: Seq<char>, workspace: bool) -> Result<
    DocumentModel,
    LocateFailure,
> {
    match version_span(text, workspace) {
        Ok(span) => Ok(split_model(text, span.0 as int, span.1 as int)),
        Err(failure) => Err(failure),
    }
}

/// Reading a manifest as a document and writing it back unchanged gives the
/// manifest as it was, character for character.
pub proof fn lemma_located_text(text: Seq<char>, workspace: bool)
    requires
        locate_version(text, workspace) is Ok,
    ensures
        locate_version(text, workspace)->Ok_0.text() == text,
{
    let span = version_span(text, workspace)->Ok_0;
    lemma_split_text(text, span.0 as int, span.1 as int);
}

/// A manifest is read as a document under a schema only if it holds that
/// schema's section.
pub proof fn lemma_location_exclusive(text: Seq<char>, root: ItemModel)
    requires
        edit_parse(text) == Some(root),
    ensures
        root.member("workspace"@) is None ==> locate_version(text, true) == Err::<
            DocumentModel,
            LocateFailure,
        >(LocateFailure::Schema),
        root.member("package"@) is None ==> locate_version(text, false) == Err::<
            DocumentModel,
            LocateFailure,
        >(LocateFailure::Schema),
{
}

/// Whether `error` is the error that reports `failure`.
pub open spec fn reports_location(
    error: VerisonError,
    failure: LocateFailure,
    workspace: bool,
) -> bool {
    match failure {
        LocateFailure::NotToml => error is TomlEdit,
        LocateFailure::Schema => error matches VerisonError::Schema(path) && path@ == version_path(
            workspace,
        ),
        LocateFailure::Unlocated => error.is_other(UNLOCATED_VERSION),
    }
}

/// A manifest, held so that the value of its version field can be replaced
/// while every other character stays in place.
#[derive(Debug)]
pub struct ManifestDocument {
    head: String,
    token: String,
    tail: String,
}

impl View for ManifestDocument {
    type V = DocumentModel;

    closed spec fn view(&self) -> DocumentModel {
        DocumentModel { head: self.head@, token: self.token@, tail: self.tail@ }
    }
}

impl ManifestDocument {
    /// Cuts `text` at the byte range from `start` to `end`, which is where the
    /// value of the version field stands. There is no document where the range
    /// does not cut the text.
    pub fn split(text: &str, start: usize, end: usize) -> (document: Option<ManifestDocument>)
        ensures
            match document {
                Some(cut) => splits_at(text@, start as int, end as int) && cut@ == split_model(
                    text@,
                    start as int,
                    end as int,
                ),
                None => !splits_at(text@, start as int, end as int),
            },
    {
        let ghost bytes = encode_utf8(text@);
        proof {
            encode_utf8_valid_utf8(text@);
        }
        if start > end || end > text.as_bytes().len() || !text.is_char_boundary(end) {
            return None;
        }
        proof {
            lemma_boundary_of_front(bytes, start as int, end as int);
        }
        let (front, tail) = text.split_at(end);
        if !front.is_char_boundary(start) {
            return None;
        }
        let (head, token) = front.split_at(start);
        proof {
            encode_utf8_decode_utf8(head@);
            encode_utf8_decode_utf8(token@);
            encode_utf8_decode_utf8(tail@);
            assert(front.spec_bytes().subrange(0, start as int) =~= bytes.subrange(
                0,
                start as int,
            ));
            assert(front.spec_bytes().subrange(start as int, front.spec_bytes().len() as int)
                =~= bytes.subrange(start as int, end as int));
        }
        Some(
            ManifestDocument {
                head: String::from_str(head),
                token: String::from_str(token),
                tail: String::from_str(tail),
            },
        )
    }

    /// Reads a manifest text as a document, under the schema chosen by
    /// `workspace`.
    ///
    /// The text is parsed by `toml_edit`, which also says where the value of
    /// the version field stands; the text is then cut there.
    pub fn parse(text: &str, workspace: bool) -> (parsed: Result<ManifestDocument, VerisonError>)
        ensures
            match parsed {
                Ok(document) => locate_version(text@, workspace) == Ok::<
                    DocumentModel,
                    LocateFailure,
                >(document@),
                Err(error) => locate_version(text@, workspace) matches Err(failure)
                    && reports_location(error, failure, workspace),
            },
    {
        let document = match parse_document(text) {
            Ok(document) => document,
            Err(error) => {
                return Err(VerisonError::TomlEdit(error));
            },
        };
        let root = document_root(&document);
        let package = if workspace {
            match item_get(root, "workspace") {
                Some(table) => item_get(table, "package"),
                None => None,
            }
        } else {
            item_get(root, "package")
        };
        let field = match package {
            Some(table) => match item_get(table, "version") {
                Some(field) => if item_is_str(field) {
                    Some(field)
                } else {
                    None
                },
                None => None,
            },
            None => None,
        };
        let field = match field {
            Some(field) => field,
            None => {
                let path = if workspace {
                    "workspace.package.version"
                } else {
                    "package.version"
                };
                return Err(VerisonError::Schema(String::from_str(path)));
            },
        };
        let cut = match item_span(field) {
            Some(span) => ManifestDocument::split(text, span.0, span.1),
            None => None,
        };
        match cut {
            Some(document) => Ok(document),
            None => Err(VerisonError::Other(String::from_str(UNLOCATED_VERSION))),
        }
    }

    /// The value of the version field as it is written.
    pub fn token(&self) -> (token: &str)
        ensures
            token@ == self@.token,
    {
        self.token.as_str()
    }

    /// Writes another value for the version field.
    pub fn set_token(&mut self, token: String)
        ensures
            final(self)@ == old(self)@.with_token(token@),
    {
        self.token = token;
    }

    /// The whole manifest as text.
    pub fn to_string(&self) -> (text: String)
        ensures
            text@ == self@.text(),
    {
        let mut text = self.head.clone();
        text.append(self.token.as_str());
        text.append(self.tail.as_str());
        text
    }
}

} // verus!

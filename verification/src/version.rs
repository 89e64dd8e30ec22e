//! Semantic versions: their model, their canonical text and the patch bump.

use crate::error::VerisonError;
use vstd::prelude::*;
use vstd::string::is_ascii_spec_bytes;
use vstd::string::StrSliceExecFns;
use vstd::string::StringExecFns;
use vstd::utf8::is_ascii_chars;

verus! {

/// The ten decimal digits, in order.
pub open spec fn digits() -> Seq<char> {
    seq!['0', '1', '2', '3', '4', '5', '6', '7', '8', '9']
}

/// The character that writes the decimal digit `d`.
pub open spec fn digit_char(d: nat) -> char
    recommends
        d < 10,
{
    digits()[d as int]
}

/// The decimal numeral of `n`, without leading zeros.
pub open spec fn decimal(n: nat) -> Seq<char>
    decreases n,
{
    if n < 10 {
        seq![digit_char(n)]
    } else {
        decimal(n / 10).push(digit_char(n % 10))
    }
}

fn digit_text(d: u64) -> (text: &'static str)
    requires
        d < 10,
    ensures
        text@ == seq![digit_char(d as nat)],
{
    proof {
        reveal_strlit("0123456789");
    }
    let all = "0123456789";
    assert(all@ =~= digits());
    let text = all.substring_ascii(d as usize, d as usize + 1);
    assert(text@ =~= seq![digit_char(d as nat)]);
    text
}

/// Writes `n` in decimal.
pub fn render_decimal(n: u64) -> (text: String)
    ensures
        text@ == decimal(n as nat),
    decreases n,
{
    if n < 10 {
        String::from_str(digit_text(n))
    } else {
        let mut text = render_decimal(n / 10);
        text.append(digit_text(n % 10));
        text
    }
}

/// Whether `c` is an ASCII decimal digit.
pub open spec fn is_digit(c: char) -> bool {
    '0' <= c <= '9'
}

/// Whether `c` may stand in an identifier of a pre-release or of build
/// metadata: an ASCII letter, a digit or a hyphen.
pub open spec fn is_identifier_char(c: char) -> bool {
    is_digit(c) || 'A' <= c <= 'Z' || 'a' <= c <= 'z' || c == '-'
}

/// Whether `segment` is one identifier: not empty, made of identifier
/// characters and, under the numeric rule, without a leading zero where it is
/// a number of more than one digit.
pub open spec fn valid_segment(segment: Seq<char>, numeric_rule: bool) -> bool {
    &&& segment.len() > 0
    &&& forall|i: int| 0 <= i < segment.len() ==> is_identifier_char(#[trigger] segment[i])
    &&& numeric_rule && segment.len() > 1 && segment[0] == '0' ==> exists|i: int|
        0 <= i < segment.len() && !is_digit(#[trigger] segment[i])
}

/// The position of the first dot of `text`, or its length where it has none.
pub open spec fn first_dot(text: Seq<char>) -> nat
    decreases text.len(),
{
    if text.len() == 0 || text[0] == '.' {
        0
    } else {
        1 + first_dot(text.drop_first())
    }
}

/// Whether `text` is a dot-separated list of one or more identifiers.
pub open spec fn valid_segments(text: Seq<char>, numeric_rule: bool) -> bool
    decreases text.len(),
{
    let dot = first_dot(text);
    &&& valid_segment(text.take(dot as int), numeric_rule)
    &&& dot < text.len() ==> valid_segments(text.skip(dot as int + 1), numeric_rule)
}

/// Whether `text` can be the pre-release (with the numeric rule) or the build
/// metadata (without it) of a version: empty, or a list of identifiers.
pub open spec fn valid_identifiers(text: Seq<char>, numeric_rule: bool) -> bool {
    text.len() == 0 || valid_segments(text, numeric_rule)
}

/// The mathematical content of a semantic version.
pub struct VersionModel {
    pub major: nat,
    pub minor: nat,
    pub patch: nat,
    pub pre: Seq<char>,
    pub build: Seq<char>,
}

impl VersionModel {
    /// Whether the version is syntactically valid: its numbers fit in 64 bits
    /// and its pre-release and build metadata are well-formed.
    pub open spec fn valid(self) -> bool {
        &&& self.major <= u64::MAX
        &&& self.minor <= u64::MAX
        &&& self.patch <= u64::MAX
        &&& valid_identifiers(self.pre, true)
        &&& valid_identifiers(self.build, false)
    }

    /// The version with its patch number raised by one and nothing else
    /// changed.
    pub open spec fn next_patch(self) -> VersionModel {
        VersionModel { patch: self.patch + 1, ..self }
    }

    /// The canonical text: `major.minor.patch`, then `-` and the pre-release
    /// where there is one, then `+` and the build metadata where there is any.
    pub open spec fn canonical(self) -> Seq<char> {
        decimal(self.major) + seq!['.'] + decimal(self.minor) + seq!['.'] + decimal(self.patch)
            + canonical_suffix(self.pre, self.build)
    }
}

/// Where the first dot of a text lies.
pub proof fn lemma_first_dot(text: Seq<char>)
    ensures
        first_dot(text) <= text.len(),
        forall|j: int| 0 <= j < first_dot(text) ==> text[j] != '.',
        first_dot(text) < text.len() ==> text[first_dot(text) as int] == '.',
    decreases text.len(),
{
    if text.len() == 0 || text[0] == '.' {
    } else {
        let rest = text.drop_first();
        lemma_first_dot(rest);
        assert forall|j: int| 0 <= j < first_dot(text) implies text[j] != '.' by {
            if j > 0 {
                assert(text[j] == rest[j - 1]);
            }
        }
        if first_dot(text) < text.len() {
            assert(text[first_dot(text) as int] == rest[first_dot(rest) as int]);
        }
    }
}

/// A position that no dot precedes and that holds a dot, or is the end, is the
/// first dot.
pub proof fn lemma_first_dot_is(text: Seq<char>, position: int)
    requires
        0 <= position <= text.len(),
        forall|j: int| 0 <= j < position ==> text[j] != '.',
        position < text.len() ==> text[position] == '.',
    ensures
        first_dot(text) == position,
    decreases text.len(),
{
    if text.len() == 0 || text[0] == '.' {
    } else {
        let rest = text.drop_first();
        assert forall|j: int| 0 <= j < position - 1 implies rest[j] != '.' by {
            assert(rest[j] == text[j + 1]);
        }
        lemma_first_dot_is(rest, position - 1);
    }
}

/// Every character of a valid identifier list is an identifier character or a
/// dot, hence ASCII.
pub proof fn lemma_valid_segments_chars(text: Seq<char>, numeric_rule: bool)
    requires
        valid_segments(text, numeric_rule),
    ensures
        forall|i: int|
            0 <= i < text.len() ==> is_identifier_char(#[trigger] text[i]) || text[i] == '.',
        is_ascii_chars(text),
    decreases text.len(),
{
    let dot = first_dot(text);
    lemma_first_dot(text);
    let segment = text.take(dot as int);
    if dot < text.len() {
        let rest = text.skip(dot as int + 1);
        lemma_valid_segments_chars(rest, numeric_rule);
        assert forall|i: int| 0 <= i < text.len() implies is_identifier_char(#[trigger] text[i])
            || text[i] == '.' by {
            if i < dot {
                assert(text[i] == segment[i]);
            } else if i > dot {
                assert(text[i] == rest[i - dot - 1]);
            }
        }
    } else {
        assert forall|i: int| 0 <= i < text.len() implies is_identifier_char(#[trigger] text[i])
            || text[i] == '.' by {
            assert(text[i] == segment[i]);
        }
    }
}

/// Whether `c` may stand in the canonical text of a valid version: an
/// identifier character, a dot or a plus sign.
pub open spec fn is_version_char(c: char) -> bool {
    is_identifier_char(c) || c == '.' || c == '+'
}

/// Whether `text` is made of characters that a version is written with.
pub open spec fn plain(text: Seq<char>) -> bool {
    forall|i: int| 0 <= i < text.len() ==> is_version_char(#[trigger] text[i])
}

/// A decimal numeral is not empty, is made of digits, and begins with a zero
/// only where it is the numeral of zero.
pub proof fn lemma_decimal_digits(n: nat)
    ensures
        decimal(n).len() > 0,
        forall|i: int| 0 <= i < decimal(n).len() ==> is_digit(#[trigger] decimal(n)[i]),
        n > 0 ==> decimal(n)[0] != '0',
    decreases n,
{
    if n >= 10 {
        lemma_decimal_digits(n / 10);
    }
}

/// The canonical text of a valid version holds nothing but letters, digits,
/// hyphens, dots and plus signs. Between double quotes it is therefore a
/// string that needs no escaping.
pub proof fn lemma_canonical_plain(version: VersionModel)
    requires
        version.valid(),
    ensures
        plain(version.canonical()),
{
    lemma_decimal_digits(version.major);
    lemma_decimal_digits(version.minor);
    lemma_decimal_digits(version.patch);
    if version.pre.len() > 0 {
        lemma_valid_segments_chars(version.pre, true);
    }
    if version.build.len() > 0 {
        lemma_valid_segments_chars(version.build, false);
    }
    let numbers = decimal(version.major) + seq!['.'] + decimal(version.minor) + seq!['.']
        + decimal(version.patch);
    let pre = if version.pre.len() > 0 {
        seq!['-'] + version.pre
    } else {
        Seq::empty()
    };
    let build = if version.build.len() > 0 {
        seq!['+'] + version.build
    } else {
        Seq::empty()
    };
    assert(plain(numbers));
    assert(plain(pre));
    assert(plain(build));
    assert(version.canonical() == numbers + pre + build);
}

/// The number that a digit writes.
pub open spec fn digit_value(c: char) -> nat {
    if c == '1' {
        1
    } else if c == '2' {
        2
    } else if c == '3' {
        3
    } else if c == '4' {
        4
    } else if c == '5' {
        5
    } else if c == '6' {
        6
    } else if c == '7' {
        7
    } else if c == '8' {
        8
    } else if c == '9' {
        9
    } else {
        0
    }
}

/// The number that a decimal numeral writes.
pub open spec fn numeral_value(numeral: Seq<char>) -> nat
    decreases numeral.len(),
{
    if numeral.len() == 0 {
        0
    } else {
        numeral_value(numeral.drop_last()) * 10 + digit_value(numeral.last())
    }
}

/// The decimal numeral of a number writes that number.
pub proof fn lemma_decimal_value(n: nat)
    ensures
        numeral_value(decimal(n)) == n,
    decreases n,
{
    if n < 10 {
        assert(decimal(n).drop_last() =~= Seq::<char>::empty());
        assert(numeral_value(decimal(n).drop_last()) == 0);
    } else {
        lemma_decimal_value(n / 10);
        assert(decimal(n).drop_last() =~= decimal(n / 10));
    }
}

/// A text is cut in one way only into a beginning whose characters all have a
/// property and a rest that is empty or begins with a character without it.
proof fn lemma_run_unique(
    run_a: Seq<char>,
    rest_a: Seq<char>,
    run_b: Seq<char>,
    rest_b: Seq<char>,
    within: spec_fn(char) -> bool,
)
    requires
        run_a + rest_a == run_b + rest_b,
        forall|i: int| 0 <= i < run_a.len() ==> within(#[trigger] run_a[i]),
        forall|i: int| 0 <= i < run_b.len() ==> within(#[trigger] run_b[i]),
        rest_a.len() > 0 ==> !within(rest_a[0]),
        rest_b.len() > 0 ==> !within(rest_b[0]),
    ensures
        run_a == run_b,
        rest_a == rest_b,
{
    let whole = run_a + rest_a;
    assert(whole.len() == run_a.len() + rest_a.len());
    assert(whole.len() == run_b.len() + rest_b.len());
    if run_a.len() < run_b.len() {
        assert(whole[run_a.len() as int] == rest_a[0]);
        assert(whole[run_a.len() as int] == run_b[run_a.len() as int]);
    } else if run_b.len() < run_a.len() {
        assert(whole[run_b.len() as int] == rest_b[0]);
        assert(whole[run_b.len() as int] == run_a[run_b.len() as int]);
    }
    assert(run_a =~= whole.take(run_a.len() as int));
    assert(run_b =~= whole.take(run_b.len() as int));
    assert(rest_a =~= whole.skip(run_a.len() as int));
    assert(rest_b =~= whole.skip(run_b.len() as int));
}

/// What follows the three numbers in the canonical text: the pre-release
/// after a hyphen and the build metadata after a plus sign, each only where
/// it is not empty.
pub open spec fn canonical_suffix(pre: Seq<char>, build: Seq<char>) -> Seq<char> {
    (if pre.len() > 0 {
        seq!['-'] + pre
    } else {
        Seq::empty()
    }) + (if build.len() > 0 {
        seq!['+'] + build
    } else {
        Seq::empty()
    })
}

/// A numeral that is followed by something that is no digit can be told from
/// what follows it, and tells its number.
proof fn lemma_number_unique(x: nat, rest_x: Seq<char>, y: nat, rest_y: Seq<char>)
    requires
        decimal(x) + rest_x == decimal(y) + rest_y,
        rest_x.len() > 0 ==> !is_digit(rest_x[0]),
        rest_y.len() > 0 ==> !is_digit(rest_y[0]),
    ensures
        x == y,
        rest_x == rest_y,
{
    lemma_decimal_digits(x);
    lemma_decimal_digits(y);
    lemma_run_unique(decimal(x), rest_x, decimal(y), rest_y, |c: char| is_digit(c));
    lemma_decimal_value(x);
    lemma_decimal_value(y);
}

/// The pre-release and the build metadata can be read off what follows the
/// three numbers.
proof fn lemma_suffix_unique(
    pre_a: Seq<char>,
    build_a: Seq<char>,
    pre_b: Seq<char>,
    build_b: Seq<char>,
)
    requires
        valid_identifiers(pre_a, true),
        valid_identifiers(pre_b, true),
        canonical_suffix(pre_a, build_a) == canonical_suffix(pre_b, build_b),
    ensures
        pre_a == pre_b,
        build_a == build_b,
{
    let suffix_a = canonical_suffix(pre_a, build_a);
    let suffix_b = canonical_suffix(pre_b, build_b);
    let tail_a = canonical_suffix(Seq::empty(), build_a);
    let tail_b = canonical_suffix(Seq::empty(), build_b);
    assert(tail_a.len() > 0 ==> tail_a[0] == '+' && tail_a.skip(1) =~= build_a);
    assert(tail_b.len() > 0 ==> tail_b[0] == '+' && tail_b.skip(1) =~= build_b);
    assert(tail_a.len() == 0 ==> build_a =~= Seq::<char>::empty());
    assert(tail_b.len() == 0 ==> build_b =~= Seq::<char>::empty());
    if pre_a.len() > 0 {
        lemma_valid_segments_chars(pre_a, true);
        assert(suffix_a[0] == '-');
        assert(pre_a + tail_a =~= suffix_a.skip(1));
    } else {
        assert(suffix_a =~= tail_a);
    }
    if pre_b.len() > 0 {
        lemma_valid_segments_chars(pre_b, true);
        assert(suffix_b[0] == '-');
        assert(pre_b + tail_b =~= suffix_b.skip(1));
    } else {
        assert(suffix_b =~= tail_b);
    }
    if pre_a.len() > 0 && pre_b.len() > 0 {
        lemma_run_unique(pre_a, tail_a, pre_b, tail_b, |c: char| c != '+');
    } else if pre_a.len() == 0 && pre_b.len() == 0 {
        assert(pre_a =~= pre_b);
    }
}

/// The canonical text tells versions apart: two valid versions that are
/// written alike are the same version.
pub proof fn lemma_canonical_unique(a: VersionModel, b: VersionModel)
    requires
        a.valid(),
        b.valid(),
        a.canonical() == b.canonical(),
    ensures
        a == b,
{
    let dot = seq!['.'];
    let suffix_a = canonical_suffix(a.pre, a.build);
    let suffix_b = canonical_suffix(b.pre, b.build);
    let after_minor_a = dot + (decimal(a.patch) + suffix_a);
    let after_minor_b = dot + (decimal(b.patch) + suffix_b);
    let after_major_a = dot + (decimal(a.minor) + after_minor_a);
    let after_major_b = dot + (decimal(b.minor) + after_minor_b);
    assert(a.canonical() =~= decimal(a.major) + after_major_a);
    assert(b.canonical() =~= decimal(b.major) + after_major_b);
    assert(after_major_a[0] == '.' && after_major_b[0] == '.');
    lemma_number_unique(a.major, after_major_a, b.major, after_major_b);
    assert(decimal(a.minor) + after_minor_a =~= after_major_a.skip(1));
    assert(decimal(b.minor) + after_minor_b =~= after_major_b.skip(1));
    assert(after_minor_a[0] == '.' && after_minor_b[0] == '.');
    lemma_number_unique(a.minor, after_minor_a, b.minor, after_minor_b);
    assert(decimal(a.patch) + suffix_a =~= after_minor_a.skip(1));
    assert(decimal(b.patch) + suffix_b =~= after_minor_b.skip(1));
    assert(suffix_a.len() > 0 ==> suffix_a[0] == '-' || suffix_a[0] == '+');
    assert(suffix_b.len() > 0 ==> suffix_b[0] == '-' || suffix_b[0] == '+');
    lemma_number_unique(a.patch, suffix_a, b.patch, suffix_b);
    lemma_suffix_unique(a.pre, a.build, b.pre, b.build);
}

/// A bump is a new release: the next patch version of a valid version is
/// valid, and it is not written as the version it follows.
pub proof fn lemma_next_patch_is_new(version: VersionModel)
    requires
        version.valid(),
        version.patch < u64::MAX,
    ensures
        version.next_patch().valid(),
        version.next_patch().canonical() != version.canonical(),
{
    if version.next_patch().canonical() == version.canonical() {
        lemma_canonical_unique(version.next_patch(), version);
    }
}

/// The ASCII codes of the characters that bound the ranges of identifier
/// characters, and of the hyphen and the dot.
const ZERO: u8 = 48;

const NINE: u8 = 57;

const UPPER_A: u8 = 65;

const UPPER_Z: u8 = 90;

const LOWER_A: u8 = 97;

const LOWER_Z: u8 = 122;

const HYPHEN: u8 = 45;

const DOT: u8 = 46;

/// Whether the bytes `start..end` of an ASCII text are one identifier.
fn check_segment(
    bytes: &[u8],
    start: usize,
    end: usize,
    numeric_rule: bool,
    Ghost(text): Ghost<Seq<char>>,
) -> (ok: bool)
    requires
        start <= end <= bytes.len(),
        bytes.len() == text.len(),
        forall|i: int| 0 <= i < text.len() ==> text[i] == #[trigger] bytes[i] as char,
    ensures
        ok == valid_segment(text.subrange(start as int, end as int), numeric_rule),
{
    let ghost segment = text.subrange(start as int, end as int);
    if start == end {
        return false;
    }
    let mut only_digits = true;
    let mut position = start;
    while position < end
        invariant
            start <= position <= end <= bytes.len(),
            bytes.len() == text.len(),
            segment == text.subrange(start as int, end as int),
            forall|i: int| 0 <= i < text.len() ==> text[i] == #[trigger] bytes[i] as char,
            forall|i: int| 0 <= i < position - start ==> is_identifier_char(#[trigger] segment[i]),
            only_digits == forall|i: int|
                0 <= i < position - start ==> is_digit(#[trigger] segment[i]),
        decreases end - position,
    {
        let byte = bytes[position];
        assert(segment[position - start] == text[position as int]);
        let digit = ZERO <= byte && byte <= NINE;
        let letter = (UPPER_A <= byte && byte <= UPPER_Z) || (LOWER_A <= byte && byte <= LOWER_Z);
        if !(digit || letter || byte == HYPHEN) {
            assert(!is_identifier_char(segment[position - start]));
            return false;
        }
        if !digit {
            assert(!is_digit(segment[position - start]));
            only_digits = false;
        }
        position += 1;
    }
    assert(segment[0] == text[start as int]);
    !(numeric_rule && end - start > 1 && bytes[start] == ZERO && only_digits)
}

/// Whether `text` is a well-formed pre-release (with the numeric rule) or
/// well-formed build metadata (without it).
pub fn check_identifiers(text: &str, numeric_rule: bool) -> (ok: bool)
    ensures
        ok == valid_identifiers(text@, numeric_rule),
{
    if !text.is_ascii() {
        proof {
            if valid_segments(text@, numeric_rule) {
                lemma_valid_segments_chars(text@, numeric_rule);
            }
        }
        return false;
    }
    let bytes = text.as_bytes();
    proof {
        is_ascii_spec_bytes(text);
        assert forall|i: int| 0 <= i < text@.len() implies text@[i]
            == #[trigger] bytes[i] as char by {
            assert(bytes[i] == text@[i] as u8);
        }
    }
    let length = bytes.len();
    if length == 0 {
        return true;
    }
    assert(text@.skip(0) =~= text@);
    let mut start: usize = 0;
    loop
        invariant
            start <= length,
            length == bytes.len(),
            bytes.len() == text@.len(),
            forall|i: int| 0 <= i < text@.len() ==> text@[i] == #[trigger] bytes[i] as char,
            valid_identifiers(text@, numeric_rule) == valid_segments(
                text@.skip(start as int),
                numeric_rule,
            ),
        decreases length - start,
    {
        let ghost rest = text@.skip(start as int);
        let mut end = start;
        while end < length && bytes[end] != DOT
            invariant
                start <= end <= length,
                length == bytes.len(),
                bytes.len() == text@.len(),
                forall|i: int| 0 <= i < text@.len() ==> text@[i] == #[trigger] bytes[i] as char,
                forall|j: int| start <= j < end ==> text@[j] != '.',
            decreases length - end,
        {
            end += 1;
        }
        proof {
            assert forall|j: int| 0 <= j < end - start implies rest[j] != '.' by {
                assert(rest[j] == text@[start + j]);
            }
            if end < length {
                assert(rest[end - start] == text@[end as int]);
            }
            lemma_first_dot_is(rest, end - start);
            assert(rest.take(end - start) =~= text@.subrange(start as int, end as int));
            if end < length {
                assert(rest.skip(end - start + 1) =~= text@.skip(end + 1));
            }
        }
        if !check_segment(bytes, start, end, numeric_rule, Ghost(text@)) {
            return false;
        }
        if end == length {
            return true;
        }
        start = end + 1;
    }
}

/// Whether `text` writes `version`: the version is valid and the text is its
/// canonical text.
pub open spec fn writes(text: Seq<char>, version: VersionModel) -> bool {
    version.valid() && version.canonical() == text
}

/// The version that `text` writes; `None` where it writes none.
pub open spec fn read_version(text: Seq<char>) -> Option<VersionModel> {
    if exists|version: VersionModel| writes(text, version) {
        Some(choose|version: VersionModel| writes(text, version))
    } else {
        None
    }
}

/// A text writes one version at most, so a version that it writes is the one
/// that is read from it. In particular the canonical text of a valid version
/// reads back as that version.
pub proof fn lemma_read_version(text: Seq<char>, version: VersionModel)
    requires
        writes(text, version),
    ensures
        read_version(text) == Some(version),
{
    let read = choose|read: VersionModel| writes(text, read);
    lemma_canonical_unique(read, version);
}

/// The model that the five parts of a parsed version stand for.
pub open spec fn parts_model(parts: (u64, u64, u64, String, String)) -> VersionModel {
    VersionModel {
        major: parts.0 as nat,
        minor: parts.1 as nat,
        patch: parts.2 as nat,
        pre: parts.3@,
        build: parts.4@,
    }
}

/// Calls `semver::Version::parse` and hands out the parts of the version it
/// returns: the three numbers, the pre-release and the build metadata as text.
///
/// The contract states the grammar that the parser accepts. A version that
/// it returns is valid and is written canonically by the text, which is to say
/// that the parser takes numbers without leading zeros that fit in 64 bits
/// and well-formed identifiers, and nothing besides. A text that it rejects
/// is the canonical text of no valid version.
#[verifier::external_body]
fn parse_version_parts(text: &str) -> (parsed: Result<
    (u64, u64, u64, String, String),
    semver::Error,
>)
    ensures
        match parsed {
            Ok(parts) => writes(text@, parts_model(parts)),
            Err(_) => forall|version: VersionModel| !writes(text@, version),
        },
{
    match semver::Version::parse(text) {
        Ok(version) => Ok(
            (
                version.major,
                version.minor,
                version.patch,
                version.pre.as_str().to_owned(),
                version.build.as_str().to_owned(),
            ),
        ),
        Err(error) => Err(error),
    }
}

/// A semantic version: `major.minor.patch` with an optional pre-release and
/// optional build metadata, always syntactically valid.
#[derive(Debug)]
pub struct SemanticVersion {
    major: u64,
    minor: u64,
    patch: u64,
    pre: String,
    build: String,
}

impl View for SemanticVersion {
    type V = VersionModel;

    closed spec fn view(&self) -> VersionModel {
        VersionModel {
            major: self.major as nat,
            minor: self.minor as nat,
            patch: self.patch as nat,
            pre: self.pre@,
            build: self.build@,
        }
    }
}

impl Clone for SemanticVersion {
    fn clone(&self) -> (copy: Self)
        ensures
            copy@ == self@,
    {
        proof {
            use_type_invariant(self);
        }
        SemanticVersion {
            major: self.major,
            minor: self.minor,
            patch: self.patch,
            pre: self.pre.clone(),
            build: self.build.clone(),
        }
    }
}

impl SemanticVersion {
    #[verifier::type_invariant]
    spec fn well_formed(self) -> bool {
        self@.valid()
    }

    /// The version with the given parts, where the pre-release and the build
    /// metadata are well-formed; `None` where one of them is not.
    pub fn new(major: u64, minor: u64, patch: u64, pre: String, build: String) -> (version: Option<
        SemanticVersion,
    >)
        ensures
            match version {
                Some(v) => v@ == parts_model((major, minor, patch, pre, build)) && v@.valid(),
                None => !parts_model((major, minor, patch, pre, build)).valid(),
            },
    {
        if check_identifiers(pre.as_str(), true) && check_identifiers(build.as_str(), false) {
            Some(SemanticVersion { major, minor, patch, pre, build })
        } else {
            None
        }
    }

    /// Reads a version from its text.
    ///
    /// The text is parsed by the `semver` crate, which accepts the canonical
    /// texts of the valid versions and no other text; what it rejects gives
    /// its error.
    pub fn parse(text: &str) -> (parsed: Result<SemanticVersion, VerisonError>)
        ensures
            match parsed {
                Ok(version) => read_version(text@) == Some(version@) && writes(text@, version@),
                Err(error) => read_version(text@) is None && error is SemVer,
            },
    {
        match parse_version_parts(text) {
            Ok(parts) => {
                proof {
                    lemma_read_version(text@, parts_model(parts));
                }
                Ok(
                    SemanticVersion {
                        major: parts.0,
                        minor: parts.1,
                        patch: parts.2,
                        pre: parts.3,
                        build: parts.4,
                    },
                )
            },
            Err(error) => Err(VerisonError::SemVer(error)),
        }
    }

    /// States what holds of every version: it is valid. The call does nothing
    /// when the program runs.
    pub fn validity(&self)
        ensures
            self@.valid(),
    {
        proof {
            use_type_invariant(self);
        }
    }

    /// The major number.
    pub fn major(&self) -> (major: u64)
        ensures
            major == self@.major,
    {
        self.major
    }

    /// The minor number.
    pub fn minor(&self) -> (minor: u64)
        ensures
            minor == self@.minor,
    {
        self.minor
    }

    /// The patch number.
    pub fn patch(&self) -> (patch: u64)
        ensures
            patch == self@.patch,
    {
        self.patch
    }

    /// The pre-release; empty where the version has none.
    pub fn pre(&self) -> (pre: &str)
        ensures
            pre@ == self@.pre,
    {
        self.pre.as_str()
    }

    /// The build metadata; empty where the version has none.
    pub fn build(&self) -> (build: &str)
        ensures
            build@ == self@.build,
    {
        self.build.as_str()
    }

    /// Whether the two versions are the same in every part.
    pub fn same(&self, other: &SemanticVersion) -> (same: bool)
        ensures
            same == (self@ == other@),
    {
        self.major == other.major && self.minor == other.minor && self.patch == other.patch
            && self.pre == other.pre && self.build == other.build
    }

    /// The version that follows this one at the patch level: the patch number
    /// raised by one, everything else kept. There is none where the patch
    /// number is the largest that 64 bits hold.
    pub fn next_patch(&self) -> (next: Option<SemanticVersion>)
        ensures
            match next {
                Some(version) => version@ == self@.next_patch() && version@.valid(),
                None => self@.patch == u64::MAX,
            },
    {
        proof {
            use_type_invariant(self);
        }
        if self.patch == u64::MAX {
            None
        } else {
            Some(
                SemanticVersion {
                    major: self.major,
                    minor: self.minor,
                    patch: self.patch + 1,
                    pre: self.pre.clone(),
                    build: self.build.clone(),
                },
            )
        }
    }

    /// The canonical text of the version.
    pub fn to_string(&self) -> (text: String)
        ensures
            text@ == self@.canonical(),
    {
        let mut text = render_decimal(self.major);
        text.append(".");
        text.append(render_decimal(self.minor).as_str());
        text.append(".");
        text.append(render_decimal(self.patch).as_str());
        if !self.pre.as_str().is_empty() {
            text.append("-");
            text.append(self.pre.as_str());
        }
        if !self.build.as_str().is_empty() {
            text.append("+");
            text.append(self.build.as_str());
        }
        proof {
            reveal_strlit(".");
            reveal_strlit("-");
            reveal_strlit("+");
            assert("."@ =~= seq!['.']);
            assert("-"@ =~= seq!['-']);
            assert("+"@ =~= seq!['+']);
            assert(text@ =~= self@.canonical());
        }
        text
    }
}

} // verus!

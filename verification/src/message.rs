//! Commit messages: a template in which every `%s` stands for the version.

use vstd::prelude::*;
use vstd::string::StrSliceExecFns;
use vstd::string::StringExecFns;

verus! {

/// The two characters that a template writes where the version belongs.
pub open spec fn placeholder() -> Seq<char> {
    seq!['%', 's']
}

/// Whether the placeholder stands at position `i` of `text`.
pub open spec fn placeholder_at(text: Seq<char>, i: int) -> bool {
    0 <= i && i + 1 < text.len() && text[i] == '%' && text[i + 1] == 's'
}

/// The template with every placeholder replaced by `version`, read from the
/// left: a placeholder is taken as soon as it is met, so occurrences never
/// overlap, and what is put in is not read again.
pub open spec fn expand(template: Seq<char>, version: Seq<char>) -> Seq<char>
    decreases template.len(),
{
    if template.len() == 0 {
        Seq::empty()
    } else if placeholder_at(template, 0) {
        version + expand(template.skip(2), version)
    } else {
        seq![template[0]] + expand(template.skip(1), version)
    }
}

/// The message of a release commit: the expanded template, or the version
/// itself where no template is given.
pub open spec fn commit_message_of(template: Option<Seq<char>>, version: Seq<char>) -> Seq<char> {
    match template {
        Some(text) => expand(text, version),
        None => version,
    }
}

/// A template without a placeholder is used verbatim.
pub proof fn lemma_expand_verbatim(template: Seq<char>, version: Seq<char>)
    requires
        forall|i: int| !placeholder_at(template, i),
    ensures
        expand(template, version) == template,
    decreases template.len(),
{
    if template.len() > 0 {
        assert(!placeholder_at(template, 0));
        let rest = template.skip(1);
        assert forall|i: int| !placeholder_at(rest, i) by {
            assert(!placeholder_at(template, i + 1));
        }
        lemma_expand_verbatim(rest, version);
        assert(seq![template[0]] + rest =~= template);
    }
}

/// Every occurrence is replaced: a template that is put together from a
/// beginning, a placeholder and an end expands to the expanded beginning, the
/// version and the expanded end.
pub proof fn lemma_expand_occurrence(before: Seq<char>, after: Seq<char>, version: Seq<char>)
    ensures
        expand(before + placeholder() + after, version) == expand(before, version) + version
            + expand(after, version),
    decreases before.len(),
{
    let whole = before + placeholder() + after;
    if before.len() == 0 {
        assert(placeholder_at(whole, 0));
        assert(whole.skip(2) =~= after);
        assert(expand(before, version) + version =~= version);
    } else if placeholder_at(before, 0) {
        assert(placeholder_at(whole, 0));
        assert(whole.skip(2) =~= before.skip(2) + placeholder() + after);
        lemma_expand_occurrence(before.skip(2), after, version);
        assert(version + (expand(before.skip(2), version) + version + expand(after, version))
            =~= (version + expand(before.skip(2), version)) + version + expand(after, version));
    } else {
        assert(!placeholder_at(whole, 0));
        assert(whole.skip(1) =~= before.skip(1) + placeholder() + after);
        lemma_expand_occurrence(before.skip(1), after, version);
        assert(seq![whole[0]] + (expand(before.skip(1), version) + version + expand(
            after,
            version,
        )) =~= (seq![before[0]] + expand(before.skip(1), version)) + version + expand(
            after,
            version,
        ));
    }
}

/// Replaces every `%s` of `template` by `version`.
pub fn expand_template(template: &str, version: &str) -> (message: String)
    ensures
        message@ == expand(template@, version@),
{
    let length = template.unicode_len();
    let mut message = String::new();
    let mut position: usize = 0;
    assert(template@.skip(0) =~= template@);
    while position < length
        invariant
            position <= length,
            length == template@.len(),
            message@ + expand(template@.skip(position as int), version@) == expand(
                template@,
                version@,
            ),
        decreases length - position,
    {
        let ghost rest = template@.skip(position as int);
        let ghost done = message@;
        assert(rest[0] == template@[position as int]);
        if position + 1 < length && template.get_char(position) == '%' && template.get_char(
            position + 1,
        ) == 's' {
            assert(rest[1] == template@[position + 1]);
            assert(placeholder_at(rest, 0));
            assert(rest.skip(2) =~= template@.skip(position + 2));
            message.append(version);
            position += 2;
            assert((done + version@) + expand(rest.skip(2), version@) =~= done + (version@
                + expand(rest.skip(2), version@)));
        } else {
            if position + 1 < length {
                assert(rest[1] == template@[position + 1]);
            }
            assert(!placeholder_at(rest, 0));
            assert(rest.skip(1) =~= template@.skip(position + 1));
            let single = template.substring_char(position, position + 1);
            assert(single@ =~= seq![rest[0]]);
            message.append(single);
            position += 1;
            assert((done + seq![rest[0]]) + expand(rest.skip(1), version@) =~= done + (seq![
                rest[0],
            ] + expand(rest.skip(1), version@)));
        }
    }
    assert(message@ + Seq::<char>::empty() =~= message@);
    message
}

/// The message of the commit that releases `version`: the template with every
/// `%s` replaced by the version, or the version itself without a template.
pub fn commit_message(template: Option<&str>, version: &str) -> (message: String)
    ensures
        message@ == commit_message_of(
            match template {
                Some(text) => Some(text@),
                None => None,
            },
            version@,
        ),
{
    match template {
        Some(text) => expand_template(text, version),
        None => String::from_str(version),
    }
}

} // verus!

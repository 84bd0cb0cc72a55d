//! The document that the user edits: a block of metadata, the separator
//! line, and the text of the tip below it.

use crate::error::TipsError;
use crate::text::{find_first, first_occurrence, lemma_first_occurrence,
    lemma_first_occurrence_is, occurs_at, occurs_in, starts_with, to_chars};
use vstd::prelude::*;

verus! {

/// The line that parts the metadata from the text of the tip. It is no part
/// of the tip that is stored.
pub const SEPARATOR: &'static str = "----- TIP BELOW THIS LINE -----";

/// The metadata block that a new tip starts from.
pub const STARTER: &'static str = "subject:\ntags:\n  - notag";

/// What the editor shows for a new tip, above the text: the starter
/// metadata and the separator line.
pub const TEMPLATE: &'static str = "subject:\ntags:\n  - notag\n----- TIP BELOW THIS LINE -----\n";

/// The template of a new tip together with the separator.
pub struct TipTemplate {
    pub template: &'static str,
    pub separator: &'static str,
}

/// The template and the separator that this library uses.
pub fn tip_template() -> (t: TipTemplate)
    ensures
        t.template@ == TEMPLATE@,
        t.separator@ == SEPARATOR@,
{
    TipTemplate { template: TEMPLATE, separator: SEPARATOR }
}

/// The document made of a metadata block and the text of a tip: the
/// metadata, a line break, the separator, a line break, the text.
pub open spec fn encoded(metadata: Seq<char>, content: Seq<char>) -> Seq<char> {
    metadata + seq!['\n'] + SEPARATOR@ + seq!['\n'] + content
}

/// What follows the separator, without the line break that ends the
/// separator line.
pub open spec fn below_separator(rest: Seq<char>) -> Seq<char> {
    if rest.len() > 0 && rest[0] == '\n' {
        rest.skip(1)
    } else {
        rest
    }
}

/// The two parts of a document: all that stands before the first
/// separator, and all that stands after it and the line break that
/// follows it. `None` where the document holds no separator.
pub open spec fn decoded(document: Seq<char>) -> Option<(Seq<char>, Seq<char>)> {
    match first_occurrence(document, SEPARATOR@) {
        Some(i) => Some(
            (document.take(i), below_separator(document.skip(i + SEPARATOR@.len()))),
        ),
        None => None,
    }
}

/// The document is the template of a new tip with nothing changed above
/// the text.
pub open spec fn unchanged(document: Seq<char>) -> bool {
    TEMPLATE@.is_prefix_of(document)
}

/// Puts a metadata block and the text of a tip together into the document
/// that the editor is to show.
pub fn encode(metadata: &str, content: &str) -> (document: String)
    ensures
        document@ == encoded(metadata@, content@),
{
    proof {
        reveal_strlit("\n");
    }
    let mut document = metadata.to_owned();
    document.append("\n");
    document.append(SEPARATOR);
    document.append("\n");
    document.append(content);
    assert("\n"@ =~= seq!['\n']);
    document
}

/// Takes an edited document apart at its first separator.
pub fn decode(document: &str) -> (r: Result<(String, String), TipsError>)
    ensures
        match r {
            Ok((metadata, content)) => decoded(document@) == Some((metadata@, content@)),
            Err(e) => e == TipsError::MalformedDocument && decoded(document@) is None,
        },
        r is Err <==> !occurs_in(document@, SEPARATOR@),
{
    let chars = to_chars(document);
    let separator = to_chars(SEPARATOR);
    proof {
        lemma_first_occurrence(document@, SEPARATOR@);
    }
    match find_first(&chars, &separator) {
        None => Err(TipsError::MalformedDocument),
        Some(at) => {
            assert(occurs_at(document@, SEPARATOR@, at as int));
            let end: usize = chars.len();
            let below: usize = at + separator.len();
            let from: usize = if below < end && chars[below] == '\n' {
                below + 1
            } else {
                below
            };
            let metadata = document.substring_char(0, at).to_owned();
            let content = document.substring_char(from, end).to_owned();
            assert(metadata@ =~= document@.take(at as int));
            assert(content@ =~= below_separator(document@.skip(at + SEPARATOR@.len())));
            Ok((metadata, content))
        },
    }
}

/// Whether the user left the template of a new tip as it was, whatever
/// stands below it.
pub fn is_unchanged(document: &str) -> (r: bool)
    ensures
        r == unchanged(document@),
{
    let chars = to_chars(document);
    let template = to_chars(TEMPLATE);
    starts_with(&chars, &template)
}

/// No line break stands in the separator.
pub proof fn lemma_separator_is_one_line()
    ensures
        SEPARATOR@.len() == 31,
        forall|k: int| 0 <= k < SEPARATOR@.len() ==> SEPARATOR@[k] != '\n',
{
    reveal_strlit("----- TIP BELOW THIS LINE -----");
}

/// The template of a new tip is the document made of the starter metadata
/// and an empty text.
pub proof fn lemma_template_is_encoded_starter()
    ensures
        TEMPLATE@ == encoded(STARTER@, Seq::empty()),
{
    reveal_strlit("----- TIP BELOW THIS LINE -----");
    reveal_strlit("subject:\ntags:\n  - notag");
    reveal_strlit("subject:\ntags:\n  - notag\n----- TIP BELOW THIS LINE -----\n");
    assert(TEMPLATE@ =~= encoded(STARTER@, Seq::empty()));
}

/// Taking apart a document that was put together gives back its two
/// parts: the metadata block, which ends with the line break that stands
/// before the separator, and the text of the tip. This holds of every
/// metadata block in which no separator stands, and of every text.
pub proof fn law_round_trip(metadata: Seq<char>, content: Seq<char>)
    requires
        !occurs_in(metadata, SEPARATOR@),
    ensures
        decoded(encoded(metadata, content)) == Some((metadata + seq!['\n'], content)),
{
    lemma_separator_is_one_line();
    let document = encoded(metadata, content);
    let at = metadata.len() as int + 1;
    let width = SEPARATOR@.len() as int;
    assert(document.subrange(at, at + width) =~= SEPARATOR@);
    assert forall|j: int| 0 <= j < at implies !occurs_at(document, SEPARATOR@, j) by {
        if occurs_at(document, SEPARATOR@, j) {
            let found = document.subrange(j, j + width);
            if j + width <= metadata.len() {
                assert(metadata.subrange(j, j + width) =~= found);
                assert(occurs_at(metadata, SEPARATOR@, j));
            } else {
                let k = metadata.len() - j;
                assert(found[k] == document[metadata.len() as int]);
                assert(SEPARATOR@[k] != '\n');
            }
        }
    }
    lemma_first_occurrence_is(document, SEPARATOR@, at);
    let rest = document.skip(at + width);
    assert(rest =~= seq!['\n'] + content);
    assert(below_separator(rest) =~= content);
    assert(document.take(at) =~= metadata + seq!['\n']);
}

/// A document without the separator cannot be taken apart.
pub proof fn law_separator_mandatory(document: Seq<char>)
    requires
        !occurs_in(document, SEPARATOR@),
    ensures
        decoded(document) is None,
{
}

/// The template of a new tip counts as unchanged whatever text stands
/// below it.
pub proof fn law_template_unchanged(content: Seq<char>)
    ensures
        unchanged(TEMPLATE@ + content),
        unchanged(encoded(STARTER@, content)),
{
    lemma_template_is_encoded_starter();
    assert(encoded(STARTER@, content) =~= TEMPLATE@ + content);
}

} // verus!

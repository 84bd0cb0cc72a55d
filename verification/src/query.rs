//! Search for a pattern in the parts of a tip.

use crate::error::TipsError;
use crate::tip::{Tip, TipView};
use crate::tips::Tips;
use vstd::prelude::*;

verus! {

/// A regular expression of the `regex` crate, compiled.
#[verifier::external_type_specification]
#[verifier::external_body]
pub struct ExRegex(regex::Regex);

/// Why the `regex` crate did not compile a pattern.
#[verifier::external_type_specification]
#[verifier::external_body]
pub struct ExRegexError(regex::Error);

/// Whether `regex::Regex::new` compiles `pattern`: the pattern is free of
/// syntax errors, and its program stays within the size that the `regex`
/// crate allows by default.
pub uninterp spec fn regex_compiles(pattern: Seq<char>) -> bool;

/// Whether the regular expression that `regex::Regex::new` compiles from
/// `pattern` has a match somewhere in `text`.
pub uninterp spec fn regex_finds(pattern: Seq<char>, text: Seq<char>) -> bool;

/// The text that the `Debug` formatting of `str` writes for `text`: the
/// text between double quotes, with escapes.
pub uninterp spec fn debug_text(text: Seq<char>) -> Seq<char>;

/// The parts of a tip that a search can look at.
#[derive(Debug, Clone, Copy, PartialEq, Eq, Structural)]
pub enum Component {
    /// The subject.
    Subject,
    /// The text of the tip.
    Data,
    /// The tags.
    Tag,
    /// Each of the three.
    All,
}

/// A search pattern, compiled once and then used on many texts.
pub struct Pattern {
    source: String,
    regex: regex::Regex,
}

impl Pattern {
    /// The pattern as it was written.
    pub closed spec fn source(&self) -> Seq<char> {
        self.source@
    }

    /// Compiles `pattern`.
    ///
    /// Calls `regex::Regex::new`, which refuses a pattern with a syntax
    /// error and one whose program would be too large. The contract names
    /// the outcome, `regex_compiles`, and fixes what the result was
    /// compiled from.
    #[verifier::external_body]
    fn compile(pattern: &str) -> (r: Result<Pattern, regex::Error>)
        ensures
            r is Ok == regex_compiles(pattern@),
            r matches Ok(p) ==> p.source() == pattern@,
    {
        match regex::Regex::new(pattern) {
            Ok(regex) => Ok(Pattern { source: pattern.to_owned(), regex }),
            Err(e) => Err(e),
        }
    }

    /// Whether the pattern has a match somewhere in `text`.
    ///
    /// Calls `regex::Regex::find` on the expression that `compile` got
    /// from `Regex::new`, and tells whether it returned a match.
    #[verifier::external_body]
    fn found_in(&self, text: &str) -> (b: bool)
        ensures
            b == regex_finds(self.source(), text@),
    {
        self.regex.find(text).is_some()
    }

    /// What the `regex` crate says against a pattern that it refused.
    ///
    /// Calls the `Display` of `regex::Error` through `to_string`. Nothing
    /// is claimed of the text.
    #[verifier::external_body]
    fn refusal(error: &regex::Error) -> String {
        error.to_string()
    }

    /// Compiles `pattern`, or says that it is no regular expression.
    pub fn new(pattern: &str) -> (r: Result<Pattern, TipsError>)
        ensures
            r is Ok == regex_compiles(pattern@),
            match r {
                Ok(p) => p.source() == pattern@,
                Err(e) => e == TipsError::InvalidPattern,
            },
    {
        match Pattern::compile(pattern) {
            Ok(p) => Ok(p),
            Err(_) => Err(TipsError::InvalidPattern),
        }
    }

    /// What is wrong with `pattern`, in the words of the `regex` crate;
    /// `None` where the pattern compiles.
    pub fn diagnose(pattern: &str) -> (r: Option<String>)
        ensures
            r is Some == !regex_compiles(pattern@),
    {
        match Pattern::compile(pattern) {
            Ok(_) => None,
            Err(error) => Some(Pattern::refusal(&error)),
        }
    }
}

/// The `Debug` formatting of `tag`.
///
/// Holds one `format!` with `{:?}` on a `str`, which writes the text
/// between double quotes and escapes what cannot stand there.
#[verifier::external_body]
fn debug_format(tag: &str) -> (s: String)
    ensures
        s@ == debug_text(tag@),
{
    format!("{:?}", tag)
}

/// The pattern has a match in the `Debug` formatting of one of `tags`.
pub open spec fn tag_found(pattern: Seq<char>, tags: Seq<Seq<char>>) -> bool {
    exists|i: int| 0 <= i < tags.len() && regex_finds(pattern, debug_text(#[trigger] tags[i]))
}

/// Whether a search in `component` is a hit, given for each part of the
/// tip whether the pattern has a match in it.
pub open spec fn is_hit(component: Component, subject: bool, data: bool, tag: bool) -> bool {
    match component {
        Component::Subject => subject,
        Component::Data => data,
        Component::Tag => tag,
        Component::All => subject || data || tag,
    }
}

/// Whether a search for `pattern` in `component` finds the tip `tip`
/// whose text is `data`.
pub open spec fn found(pattern: Seq<char>, tip: TipView, data: Seq<char>, component: Component) -> bool {
    is_hit(
        component,
        regex_finds(pattern, tip.metadata.subject),
        regex_finds(pattern, data),
        tag_found(pattern, tip.metadata.tags),
    )
}

impl Component {
    /// Whether a search in this component is a hit, given for each part
    /// of the tip whether the pattern has a match in it.
    pub fn hit(&self, subject: bool, data: bool, tag: bool) -> (r: bool)
        ensures
            r == is_hit(*self, subject, data, tag),
    {
        match self {
            Component::Subject => subject,
            Component::Data => data,
            Component::Tag => tag,
            Component::All => subject || data || tag,
        }
    }
}

/// Whether a search for `pattern` in `component` has to look at the text
/// of the tip `tip`: a search in the text always, a search in all parts
/// where the subject gives no match.
pub open spec fn text_needed(pattern: Seq<char>, tip: TipView, component: Component) -> bool {
    component == Component::Data || (component == Component::All && !regex_finds(
        pattern,
        tip.metadata.subject,
    ))
}

/// Whether a search in `component` has to look at the text of `tip`, so
/// that the text is read only where the search depends on it.
pub fn needs_data(pattern: &Pattern, tip: &Tip, component: &Component) -> (r: bool)
    ensures
        r == text_needed(pattern.source(), tip@, *component),
{
    match component {
        Component::Data => true,
        Component::All => !pattern.found_in(tip.metadata.subject.as_str()),
        _ => false,
    }
}

/// Whether the pattern has a match in the `Debug` formatting of one of
/// `tags`.
pub fn find_in_tags(pattern: &Pattern, tags: &Vec<String>) -> (r: bool)
    ensures
        r == tag_found(pattern.source(), tags.deep_view()),
{
    let mut i: usize = 0;
    while i < tags.len()
        invariant
            i <= tags.len(),
            forall|j: int|
                0 <= j < i ==> !regex_finds(pattern.source(), debug_text(#[trigger] tags.deep_view()[j])),
        decreases tags.len() - i,
    {
        let written = debug_format(tags[i].as_str());
        if pattern.found_in(written.as_str()) {
            assert(tags.deep_view()[i as int] == tags@[i as int]@);
            return true;
        }
        assert(tags.deep_view()[i as int] == tags@[i as int]@);
        i += 1;
    }
    false
}

/// Looks for the pattern in `component` of `tip`, whose text is `data`,
/// and hands the tip back where it is found. With `Component::All` the
/// subject is tried first, then the text, then the tags, and the first
/// match decides.
pub fn find<'a, 'b, 'c>(pattern: &'a Pattern, tip: &'b Tip, data: &str, component: &'c Component) -> (r:
    Option<&'b Tip>)
    ensures
        r is Some == found(pattern.source(), tip@, data@, *component),
        r matches Some(t) ==> *t == *tip,
{
    let subject = match component {
        Component::Subject | Component::All => pattern.found_in(tip.metadata.subject.as_str()),
        _ => false,
    };
    let in_data = match component {
        Component::Data => pattern.found_in(data),
        Component::All => !subject && pattern.found_in(data),
        _ => false,
    };
    let tag = match component {
        Component::Tag => find_in_tags(pattern, &tip.metadata.tags),
        Component::All => !subject && !in_data && find_in_tags(pattern, &tip.metadata.tags),
        _ => false,
    };
    if component.hit(subject, in_data, tag) {
        Some(tip)
    } else {
        None
    }
}

/// Compiles `pattern` and looks for it in `component` of `tip`, whose
/// text is `data`.
pub fn search<'a, 'b>(pattern: &'a str, tip: &'b Tip, data: &str, component: &Component) -> (r: Result<
    Option<&'b Tip>,
    TipsError,
>)
    ensures
        r is Ok == regex_compiles(pattern@),
        match r {
            Ok(hit) => hit is Some == found(pattern@, tip@, data@, *component) && (hit matches Some(t)
                ==> *t == *tip),
            Err(e) => e == TipsError::InvalidPattern,
        },
{
    match Pattern::new(pattern) {
        Ok(compiled) => Ok(find(&compiled, tip, data, component)),
        Err(e) => Err(e),
    }
}

/// The positions of the tips that a search for `pattern` in `component`
/// finds among the first `upto` of `tips`, in ascending order. The text of
/// the tip at position `i` is `data[i]`.
pub open spec fn hits(
    pattern: Seq<char>,
    tips: Seq<TipView>,
    data: Seq<Seq<char>>,
    component: Component,
    upto: int,
) -> Seq<int>
    decreases upto,
{
    if upto <= 0 {
        Seq::empty()
    } else {
        let before = hits(pattern, tips, data, component, upto - 1);
        if found(pattern, tips[upto - 1], data[upto - 1], component) {
            before.push(upto - 1)
        } else {
            before
        }
    }
}

/// The positions of `hits` are those of the tips found, each once, in
/// ascending order.
pub proof fn lemma_hits(
    pattern: Seq<char>,
    tips: Seq<TipView>,
    data: Seq<Seq<char>>,
    component: Component,
    upto: int,
)
    ensures
        forall|k: int|
            0 <= k < hits(pattern, tips, data, component, upto).len() ==> {
                let i = #[trigger] hits(pattern, tips, data, component, upto)[k];
                0 <= i < upto && found(pattern, tips[i], data[i], component)
            },
        forall|k: int, l: int|
            0 <= k < l < hits(pattern, tips, data, component, upto).len() ==> hits(
                pattern,
                tips,
                data,
                component,
                upto,
            )[k] < hits(pattern, tips, data, component, upto)[l],
        forall|i: int|
            0 <= i < upto && found(pattern, tips[i], data[i], component) ==> hits(
                pattern,
                tips,
                data,
                component,
                upto,
            ).contains(i),
    decreases upto,
{
    if upto > 0 {
        lemma_hits(pattern, tips, data, component, upto - 1);
        let before = hits(pattern, tips, data, component, upto - 1);
        let all = hits(pattern, tips, data, component, upto);
        if found(pattern, tips[upto - 1], data[upto - 1], component) {
            assert(all == before.push(upto - 1));
            assert forall|i: int|
                0 <= i < upto && found(pattern, tips[i], data[i], component) implies all.contains(
                i,
            ) by {
                if i < upto - 1 {
                    assert(before.contains(i));
                    let k = choose|k: int| 0 <= k < before.len() && before[k] == i;
                    assert(all[k] == i);
                } else {
                    assert(all[all.len() - 1] == i);
                }
            }
        }
    }
}

/// The positions of the tips of the collection in which the pattern is
/// found in `component`, in ascending order. The text of the tip at
/// position `i` is `data[i]`.
pub fn search_all(pattern: &Pattern, tips: &Tips, data: &Vec<String>, component: &Component) -> (r: Vec<
    usize,
>)
    requires
        data.len() == tips@.len(),
    ensures
        r@.map_values(|i: usize| i as int) == hits(
            pattern.source(),
            tips@,
            data.deep_view(),
            *component,
            tips@.len() as int,
        ),
{
    let mut r: Vec<usize> = Vec::new();
    let mut i: usize = 0;
    while i < tips.tips.len()
        invariant
            i <= tips.tips.len(),
            data.len() == tips@.len(),
            r@.map_values(|i: usize| i as int) == hits(
                pattern.source(),
                tips@,
                data.deep_view(),
                *component,
                i as int,
            ),
        decreases tips.tips.len() - i,
    {
        let ghost before = r@;
        assert(data.deep_view()[i as int] == data@[i as int]@);
        assert(tips@[i as int] == tips.tips@[i as int]@);
        if find(pattern, &tips.tips[i], data[i].as_str(), component).is_some() {
            r.push(i);
            assert(r@.map_values(|i: usize| i as int) =~= before.map_values(|i: usize| i as int).push(
                i as int,
            ));
        }
        i += 1;
    }
    r
}

/// Where a search need not look at the text of a tip, its outcome is the
/// same whatever the text is.
pub proof fn law_text_counts_only_where_needed(
    pattern: Seq<char>,
    tip: TipView,
    component: Component,
    data: Seq<char>,
    other: Seq<char>,
)
    requires
        !text_needed(pattern, tip, component),
    ensures
        found(pattern, tip, data, component) == found(pattern, tip, other, component),
{
}

/// A search in all parts finds every tip that a search in one part finds.
pub proof fn law_all_covers_each_part(
    pattern: Seq<char>,
    tip: TipView,
    data: Seq<char>,
    component: Component,
)
    requires
        found(pattern, tip, data, component),
    ensures
        found(pattern, tip, data, Component::All),
{
}

} // verus!

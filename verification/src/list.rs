//! The listing of all tips, or of those that a pattern finds.

use crate::error::TipsError;
use crate::query::{hits, regex_compiles, search_all, Component, Pattern};
use crate::tip::{header_texts, TipView};
use crate::tips::{ids_assigned, summary_of, Tips};
use vstd::prelude::*;

verus! {

/// The part of a tip that the word `part` names.
pub open spec fn component_named(part: Seq<char>) -> Option<Component> {
    if part == "*"@ {
        Some(Component::All)
    } else if part == "subject"@ {
        Some(Component::Subject)
    } else if part == "tag"@ {
        Some(Component::Tag)
    } else if part == "data"@ {
        Some(Component::Data)
    } else {
        None
    }
}

/// The word that was given, if one was.
pub open spec fn word_of(part: Option<&str>) -> Option<Seq<char>> {
    match part {
        Some(word) => Some(word@),
        None => None,
    }
}

/// The part of a tip that `part` names: `*` for all parts, `subject`,
/// `tag` or `data`. No word and any other word name none.
pub fn component_of(part: Option<&str>) -> (r: Result<Component, TipsError>)
    ensures
        match r {
            Ok(component) => part matches Some(word) && component_named(word@) == Some(component),
            Err(e) => e == TipsError::UnknownPart && (part matches Some(word) ==> component_named(word@)
                is None),
        },
{
    match part {
        None => Err(TipsError::UnknownPart),
        Some(word) => {
            let word = word.to_owned();
            if word == "*".to_owned() {
                Ok(Component::All)
            } else if word == "subject".to_owned() {
                Ok(Component::Subject)
            } else if word == "tag".to_owned() {
                Ok(Component::Tag)
            } else if word == "data".to_owned() {
                Ok(Component::Data)
            } else {
                Err(TipsError::UnknownPart)
            }
        },
    }
}

/// The header texts of the tips at `positions`, one row for each.
pub open spec fn rows_of(tips: Seq<TipView>, positions: Seq<int>) -> Seq<Seq<Seq<char>>> {
    positions.map_values(|i: int| header_texts(tips[i]))
}

/// What a search for `pattern` in the part named `part` lists: the rows
/// of the tips found, in the order of the collection. `None` where `part`
/// names no part.
pub open spec fn matching_rows(
    tips: Seq<TipView>,
    data: Seq<Seq<char>>,
    pattern: Seq<char>,
    part: Option<Seq<char>>,
) -> Option<Seq<Seq<Seq<char>>>> {
    match part {
        Some(word) => match component_named(word) {
            Some(component) => Some(
                rows_of(tips, hits(pattern, tips, data, component, tips.len() as int)),
            ),
            None => None,
        },
        None => None,
    }
}

/// The rows of the tips in which `pattern` is found in the part that
/// `part` names, in the order of the collection. The text of the tip at
/// position `i` is `data[i]`. The search succeeds exactly where `part`
/// names a part and the pattern compiles; an unknown part is reported
/// before a pattern that does not compile. That no tip is found is no
/// error: the rows are then none.
pub fn match_pattern(tips: &Tips, data: &Vec<String>, pattern: &str, part: Option<&str>) -> (r: Result<
    Vec<Vec<String>>,
    TipsError,
>)
    requires
        data.len() == tips@.len(),
        ids_assigned(tips@),
    ensures
        r is Ok == (matching_rows(tips@, data.deep_view(), pattern@, word_of(part)) is Some
            && regex_compiles(pattern@)),
        match r {
            Ok(rows) => matching_rows(
                tips@,
                data.deep_view(),
                pattern@,
                word_of(part),
            ) == Some(rows.deep_view()),
            Err(e) => if matching_rows(
                tips@,
                data.deep_view(),
                pattern@,
                word_of(part),
            ) is None {
                e == TipsError::UnknownPart
            } else {
                e == TipsError::InvalidPattern
            },
        },
{
    let component = match component_of(part) {
        Ok(component) => component,
        Err(e) => {
            return Err(e);
        },
    };
    let compiled = match Pattern::new(pattern) {
        Ok(compiled) => compiled,
        Err(e) => {
            return Err(e);
        },
    };
    let found = search_all(&compiled, tips, data, &component);
    let ghost positions = hits(pattern@, tips@, data.deep_view(), component, tips@.len() as int);
    proof {
        crate::query::lemma_hits(pattern@, tips@, data.deep_view(), component, tips@.len() as int);
        assert(found@.len() == positions.len());
    }
    let mut rows: Vec<Vec<String>> = Vec::new();
    let mut k: usize = 0;
    while k < found.len()
        invariant
            k <= found.len(),
            rows.len() == k,
            ids_assigned(tips@),
            found@.map_values(|i: usize| i as int) == positions,
            forall|l: int| 0 <= l < positions.len() ==> 0 <= #[trigger] positions[l] < tips@.len(),
            forall|l: int| 0 <= l < k ==> (#[trigger] rows@[l]).deep_view() == header_texts(tips@[positions[l]]),
        decreases found.len() - k,
    {
        let at = found[k];
        assert(positions[k as int] == at as int);
        assert(tips@[at as int] == tips.tips@[at as int]@);
        assert(tips@[at as int].metadata.id is Some);
        rows.push(tips.tips[at].header_cells());
        k += 1;
    }
    assert(rows.deep_view() =~= rows_of(tips@, positions));
    Ok(rows)
}

/// The listing of the collection: with a pattern, the rows of the tips
/// that it finds in the part that `part` names; without one, the rows of
/// all tips.
pub fn list(tips: &Tips, data: &Vec<String>, pattern: Option<&str>, part: Option<&str>) -> (r: Result<
    Vec<Vec<String>>,
    TipsError,
>)
    requires
        pattern is Some ==> data.len() == tips@.len(),
        ids_assigned(tips@),
    ensures
        pattern matches Some(p) ==> (r is Ok == (matching_rows(
            tips@,
            data.deep_view(),
            p@,
            word_of(part),
        ) is Some && regex_compiles(p@))),
        match pattern {
            None => r matches Ok(rows) && rows.deep_view() == summary_of(tips@),
            Some(p) => match r {
                Ok(rows) => matching_rows(
                    tips@,
                    data.deep_view(),
                    p@,
                    word_of(part),
                ) == Some(rows.deep_view()),
                Err(e) => if matching_rows(
                    tips@,
                    data.deep_view(),
                    p@,
                    word_of(part),
                ) is None {
                    e == TipsError::UnknownPart
                } else {
                    e == TipsError::InvalidPattern
                },
            },
        },
{
    match pattern {
        Some(p) => match_pattern(tips, data, p, part),
        None => Ok(tips.summary()),
    }
}

} // verus!

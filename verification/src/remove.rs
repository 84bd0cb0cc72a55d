//! The removal of a tip, after the user has confirmed it.

use crate::error::TipsError;
use crate::text::{decimal, decimal_string, digit_char, to_chars};
use crate::tip::{data_file, data_path, TipView};
use crate::tips::{has_id, ids_assigned, ids_unique, is_first_with_id, law_remove, Tips};
use vstd::prelude::*;

verus! {

/// A tip that is to be removed.
#[derive(Debug, Clone)]
pub struct RemoveTip {
    /// The position of the tip in the collection.
    pub index: usize,
    /// The path of the file that holds its text.
    pub data: String,
}

/// `c` is white space: one of the characters with the Unicode property
/// `White_Space`.
pub open spec fn is_white_space(c: char) -> bool {
    ||| '\u{9}' <= c <= '\u{d}'
    ||| c == ' '
    ||| c == '\u{85}'
    ||| c == '\u{a0}'
    ||| c == '\u{1680}'
    ||| '\u{2000}' <= c <= '\u{200a}'
    ||| c == '\u{2028}'
    ||| c == '\u{2029}'
    ||| c == '\u{202f}'
    ||| c == '\u{205f}'
    ||| c == '\u{3000}'
}

/// The answer says yes: it is `y` or `Y`, with nothing but white space
/// before and after it.
pub open spec fn confirms(answer: Seq<char>) -> bool {
    exists|i: int|
        0 <= i < answer.len() && (#[trigger] answer[i] == 'y' || answer[i] == 'Y') && forall|j: int|
            0 <= j < answer.len() && j != i ==> is_white_space(#[trigger] answer[j])
}

/// Whether `c` is white space.
pub fn white_space(c: char) -> (r: bool)
    ensures
        r == is_white_space(c),
{
    ('\u{9}' <= c && c <= '\u{d}') || c == ' ' || c == '\u{85}' || c == '\u{a0}' || c == '\u{1680}' || (
    '\u{2000}' <= c && c <= '\u{200a}') || c == '\u{2028}' || c == '\u{2029}' || c == '\u{202f}' || c
        == '\u{205f}' || c == '\u{3000}'
}

/// Whether the answer to "remove it?" says yes.
pub fn is_confirmed(answer: &str) -> (r: bool)
    ensures
        r == confirms(answer@),
{
    let chars = to_chars(answer);
    let mut yes: Option<usize> = None;
    let mut i: usize = 0;
    while i < chars.len()
        invariant
            i <= chars.len(),
            chars@ == answer@,
            match yes {
                Some(at) => at < i && (chars@[at as int] == 'y' || chars@[at as int] == 'Y') && forall|
                    j: int,
                | 0 <= j < i && j != at ==> is_white_space(#[trigger] chars@[j]),
                None => forall|j: int| 0 <= j < i ==> is_white_space(#[trigger] chars@[j]),
            },
        decreases chars.len() - i,
    {
        let c = chars[i];
        if !white_space(c) {
            if yes.is_none() && (c == 'y' || c == 'Y') {
                yes = Some(i);
            } else {
                proof {
                    assert(!is_white_space(answer@[i as int]));
                    if confirms(answer@) {
                        let w = choose|w: int|
                            0 <= w < answer@.len() && (#[trigger] answer@[w] == 'y' || answer@[w] == 'Y')
                                && forall|j: int|
                                0 <= j < answer@.len() && j != w ==> is_white_space(
                                    #[trigger] answer@[j],
                                );
                        if w != i {
                            assert(is_white_space(answer@[i as int]));
                        } else {
                            match yes {
                                Some(at) => {
                                    assert(is_white_space(answer@[at as int]));
                                },
                                None => {},
                            }
                        }
                    }
                }
                return false;
            }
        }
        i += 1;
    }
    proof {
        match yes {
            Some(at) => {
                assert(answer@[at as int] == 'y' || answer@[at as int] == 'Y');
            },
            None => {
                if confirms(answer@) {
                    let w = choose|w: int|
                        0 <= w < answer@.len() && (#[trigger] answer@[w] == 'y' || answer@[w] == 'Y');
                    assert(is_white_space(answer@[w]));
                }
            },
        }
    }
    yes.is_some()
}

/// The tip writes its id as `id`.
pub open spec fn writes_id(tip: TipView, id: Seq<char>) -> bool {
    match tip.metadata.id {
        Some(n) => decimal(n as nat) == id,
        None => false,
    }
}

/// The tip at position `i` is the first of `tips` that writes its id as
/// `id`.
pub open spec fn is_first_written(tips: Seq<TipView>, id: Seq<char>, i: int) -> bool {
    &&& 0 <= i < tips.len()
    &&& writes_id(tips[i], id)
    &&& forall|j: int| 0 <= j < i ==> !writes_id(#[trigger] tips[j], id)
}

/// Some tip of `tips` writes its id as `id`.
pub open spec fn has_written_id(tips: Seq<TipView>, id: Seq<char>) -> bool {
    exists|i: int| 0 <= i < tips.len() && writes_id(#[trigger] tips[i], id)
}

/// A number written in decimal digits has at least one digit.
pub proof fn lemma_decimal_is_not_empty(n: nat)
    ensures
        decimal(n).len() >= 1,
        n >= 10 ==> decimal(n).len() >= 2,
    decreases n,
{
    if n >= 10 {
        lemma_decimal_is_not_empty(n / 10);
    }
}

/// Two numbers that are written alike are the same number.
pub proof fn lemma_decimal_is_injective(a: nat, b: nat)
    requires
        decimal(a) == decimal(b),
    ensures
        a == b,
    decreases a,
{
    lemma_decimal_is_not_empty(a);
    lemma_decimal_is_not_empty(b);
    if a < 10 && b < 10 {
        assert(decimal(a)[0] == digit_char(a as int));
        assert(decimal(b)[0] == digit_char(b as int));
    } else if a < 10 {
        assert(decimal(a).len() == 1);
    } else if b < 10 {
        assert(decimal(b).len() == 1);
    } else {
        let x = decimal(a / 10);
        let y = decimal(b / 10);
        assert(decimal(a).drop_last() =~= x);
        assert(decimal(b).drop_last() =~= y);
        assert(decimal(a).last() == digit_char((a % 10) as int));
        assert(decimal(b).last() == digit_char((b % 10) as int));
        lemma_decimal_is_injective(a / 10, b / 10);
        assert(a % 10 == b % 10);
    }
}

/// A tip writes its id as the digits of `n` exactly where `n` is its id.
pub proof fn lemma_written_id(tips: Seq<TipView>, n: usize)
    ensures
        forall|i: int|
            0 <= i < tips.len() ==> (writes_id(#[trigger] tips[i], decimal(n as nat))
                <==> tips[i].metadata.id == Some(n)),
{
    assert forall|i: int| 0 <= i < tips.len() implies (writes_id(#[trigger] tips[i], decimal(n as nat))
        <==> tips[i].metadata.id == Some(n)) by {
        match tips[i].metadata.id {
            Some(m) => {
                if decimal(m as nat) == decimal(n as nat) {
                    lemma_decimal_is_injective(m as nat, n as nat);
                }
            },
            None => {},
        }
    }
}

/// The position of the first tip that writes its id as `id`.
pub fn find_written_id(tips: &Tips, id: &str) -> (r: Option<usize>)
    ensures
        match r {
            Some(i) => is_first_written(tips@, id@, i as int),
            None => !has_written_id(tips@, id@),
        },
{
    let wanted = id.to_owned();
    let mut index: usize = 0;
    while index < tips.tips.len()
        invariant
            index <= tips.tips.len(),
            wanted@ == id@,
            forall|j: int| 0 <= j < index ==> !writes_id(#[trigger] tips@[j], id@),
        decreases tips.tips.len() - index,
    {
        assert(tips@[index as int] == tips.tips@[index as int]@);
        match tips.tips[index].metadata.id {
            Some(n) => {
                let written = decimal_string(n);
                if written == wanted {
                    return Some(index);
                }
            },
            None => {},
        }
        index += 1;
    }
    None
}

/// What is decided on a removal: `r` for the tips `tips`, the id as the
/// user wrote it, the user's answer, and the directory of the texts.
pub open spec fn removal(
    tips: Seq<TipView>,
    id: Seq<char>,
    answer: Seq<char>,
    data_dir: Seq<char>,
    r: Result<RemoveTip, TipsError>,
) -> bool {
    match r {
        Ok(found) => {
            &&& is_first_written(tips, id, found.index as int)
            &&& confirms(answer)
            &&& found.data@ == data_path(data_dir, tips[found.index as int].data)
        },
        Err(e) => if has_written_id(tips, id) {
            e == TipsError::Declined && !confirms(answer)
        } else {
            e == TipsError::NotFound
        },
    }
}

/// Decides on the removal of the first tip that writes its id as `id`,
/// given the user's answer to the question whether to remove it. The
/// answer is looked at only where there is such a tip.
pub fn confirm_removal(tips: &Tips, id: &str, answer: &str, data_dir: &str) -> (r: Result<
    RemoveTip,
    TipsError,
>)
    ensures
        removal(tips@, id@, answer@, data_dir@, r),
{
    match find_written_id(tips, id) {
        None => Err(TipsError::NotFound),
        Some(index) => {
            assert(tips@[index as int] == tips.tips@[index as int]@);
            if is_confirmed(answer) {
                Ok(RemoveTip { index, data: data_file(data_dir, &tips.tips[index].data) })
            } else {
                Err(TipsError::Declined)
            }
        },
    }
}

/// Removes the first tip that writes its id as `id`, where the user's
/// answer confirms it, and hands back the path of the file that holds its
/// text, which is to be deleted.
pub fn remove(tips: &mut Tips, id: &str, answer: &str, data_dir: &str) -> (r: Result<String, TipsError>)
    ensures
        match r {
            Ok(path) => exists|i: int|
                {
                    &&& #[trigger] is_first_written(old(tips)@, id@, i)
                    &&& confirms(answer@)
                    &&& path@ == data_path(data_dir@, old(tips)@[i].data)
                    &&& final(tips)@ == old(tips)@.remove(i)
                },
            Err(e) => final(tips)@ == old(tips)@ && if has_written_id(old(tips)@, id@) {
                e == TipsError::Declined && !confirms(answer@)
            } else {
                e == TipsError::NotFound
            },
        },
        ids_assigned(old(tips)@) ==> ids_assigned(final(tips)@),
        ids_unique(old(tips)@) ==> ids_unique(final(tips)@),
        r is Ok && ids_unique(old(tips)@) ==> !has_written_id(final(tips)@, id@),
{
    match confirm_removal(tips, id, answer, data_dir) {
        Err(e) => Err(e),
        Ok(found) => {
            assert(is_first_written(tips@, id@, found.index as int));
            proof {
                if ids_unique(tips@) {
                    match tips@[found.index as int].metadata.id {
                        Some(n) => {
                            law_removed_id_is_gone(tips@, n, found.index as int);
                        },
                        None => {},
                    }
                }
            }
            tips.remove(found.index);
            Ok(found.data)
        },
    }
}

/// After the removal of the first tip that writes its id as the digits of
/// `n`, no tip of a collection with unique ids has the id `n`, and the ids
/// are still unique.
pub proof fn law_removed_id_is_gone(tips: Seq<TipView>, n: usize, i: int)
    requires
        ids_unique(tips),
        is_first_written(tips, decimal(n as nat), i),
    ensures
        is_first_with_id(tips, n, i),
        !has_id(tips.remove(i), n),
        !has_written_id(tips.remove(i), decimal(n as nat)),
        ids_unique(tips.remove(i)),
{
    lemma_written_id(tips, n);
    lemma_written_id(tips.remove(i), n);
    law_remove(tips, i, n);
    let after = tips.remove(i);
    assert forall|k: int| 0 <= k < after.len() implies !writes_id(
        #[trigger] after[k],
        decimal(n as nat),
    ) by {
        assert(after[k].metadata.id != Some(n));
    }
}

} // verus!

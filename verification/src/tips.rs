//! The collection of all tips, in the order in which they were added.

use crate::tip::{header_texts, Tip, TipView};
use vstd::prelude::*;

verus! {

/// All tips. Every operation on the whole collection is a method of it.
#[derive(Debug, Clone)]
pub struct Tips {
    /// The tips, oldest first. The order is that of insertion, not of ids.
    pub tips: Vec<Tip>,
}

impl View for Tips {
    type V = Seq<TipView>;

    open spec fn view(&self) -> Seq<TipView> {
        self.tips@.map_values(|t: Tip| t@)
    }
}

/// Some tip of `tips` has the id `id`.
pub open spec fn has_id(tips: Seq<TipView>, id: usize) -> bool {
    exists|i: int| 0 <= i < tips.len() && (#[trigger] tips[i]).metadata.id == Some(id)
}

/// Every tip of `tips` has an id.
pub open spec fn ids_assigned(tips: Seq<TipView>) -> bool {
    forall|i: int| 0 <= i < tips.len() ==> (#[trigger] tips[i]).metadata.id is Some
}

/// No id is held by two tips of `tips`.
pub open spec fn ids_unique(tips: Seq<TipView>) -> bool {
    forall|i: int, j: int|
        0 <= i < j < tips.len() && (#[trigger] tips[i]).metadata.id is Some ==> tips[i].metadata.id
            != (#[trigger] tips[j]).metadata.id
}

/// The collection is in order: every tip has an id, and no two tips share
/// one.
pub open spec fn well_formed(tips: Seq<TipView>) -> bool {
    ids_assigned(tips) && ids_unique(tips)
}

/// The tip at position `i` is the first of `tips` with the id `id`.
pub open spec fn is_first_with_id(tips: Seq<TipView>, id: usize, i: int) -> bool {
    &&& 0 <= i < tips.len()
    &&& tips[i].metadata.id == Some(id)
    &&& forall|j: int| 0 <= j < i ==> (#[trigger] tips[j]).metadata.id != Some(id)
}

/// The header texts of all tips, one row for each, in their order.
pub open spec fn summary_of(tips: Seq<TipView>) -> Seq<Seq<Seq<char>>> {
    tips.map_values(|t: TipView| header_texts(t))
}

/// The greatest id that a tip of `tips` has; `None` where none has an id.
pub open spec fn greatest_id(tips: Seq<TipView>) -> Option<usize>
    decreases tips.len(),
{
    if tips.len() == 0 {
        None
    } else {
        match (tips.last().metadata.id, greatest_id(tips.drop_last())) {
            (Some(a), Some(b)) => Some(if a >= b { a } else { b }),
            (Some(a), None) => Some(a),
            (None, rest) => rest,
        }
    }
}

/// The id that the next tip gets: one more than the greatest id in use.
/// `None` where no id is in use, or where the greatest has no successor.
pub open spec fn next_id_of(tips: Seq<TipView>) -> Option<usize> {
    match greatest_id(tips) {
        Some(m) => if m < usize::MAX {
            Some((m + 1) as usize)
        } else {
            None
        },
        None => None,
    }
}

/// The greatest id is the id of some tip and no tip has a greater one;
/// there is none exactly where no tip has an id.
pub proof fn lemma_greatest_id(tips: Seq<TipView>)
    ensures
        match greatest_id(tips) {
            Some(m) => has_id(tips, m) && forall|i: int|
                0 <= i < tips.len() ==> match (#[trigger] tips[i]).metadata.id {
                    Some(x) => x <= m,
                    None => true,
                },
            None => forall|i: int| 0 <= i < tips.len() ==> (#[trigger] tips[i]).metadata.id is None,
        },
    decreases tips.len(),
{
    if tips.len() > 0 {
        let rest = tips.drop_last();
        lemma_greatest_id(rest);
        assert(forall|i: int| 0 <= i < rest.len() ==> rest[i] == tips[i]);
        match greatest_id(tips) {
            Some(m) => {
                if tips.last().metadata.id == Some(m) {
                    assert(tips[tips.len() - 1].metadata.id == Some(m));
                } else {
                    assert(has_id(rest, m));
                    let i = choose|i: int| 0 <= i < rest.len() && rest[i].metadata.id == Some(m);
                    assert(tips[i].metadata.id == Some(m));
                }
                assert forall|i: int| 0 <= i < tips.len() implies match (#[trigger] tips[i]).metadata.id {
                    Some(x) => x <= m,
                    None => true,
                } by {
                    if i < rest.len() {
                        assert(rest[i] == tips[i]);
                    }
                }
            },
            None => {
                assert forall|i: int| 0 <= i < tips.len() implies (#[trigger] tips[i]).metadata.id is None by {
                    if i < rest.len() {
                        assert(rest[i] == tips[i]);
                    }
                }
            },
        }
    }
}

/// Taking a tip out leaves the ids of the others as they were: assigned
/// where they were assigned, unique where they were unique.
pub proof fn lemma_remove_keeps_ids(tips: Seq<TipView>, index: int)
    requires
        0 <= index < tips.len(),
    ensures
        ids_assigned(tips) ==> ids_assigned(tips.remove(index)),
        ids_unique(tips) ==> ids_unique(tips.remove(index)),
{
    let after = tips.remove(index);
    if ids_assigned(tips) {
        assert forall|i: int| 0 <= i < after.len() implies (#[trigger] after[i]).metadata.id is Some by {
            let a = if i < index { i } else { i + 1 };
            assert(after[i] == tips[a]);
        }
    }
    if ids_unique(tips) {
        assert forall|i: int, j: int|
            0 <= i < j < after.len() && (#[trigger] after[i]).metadata.id is Some implies after[i].metadata.id
            != (#[trigger] after[j]).metadata.id by {
            let a = if i < index { i } else { i + 1 };
            let b = if j < index { j } else { j + 1 };
            assert(after[i] == tips[a]);
            assert(after[j] == tips[b]);
        }
    }
}

/// Putting a tip in the place of one with the same id leaves the ids as
/// they were: assigned where they were assigned, unique where they were
/// unique.
pub proof fn lemma_update_keeps_ids(tips: Seq<TipView>, index: int, tip: TipView)
    requires
        0 <= index < tips.len(),
        tip.metadata.id == tips[index].metadata.id,
    ensures
        ids_assigned(tips) ==> ids_assigned(tips.update(index, tip)),
        ids_unique(tips) ==> ids_unique(tips.update(index, tip)),
        forall|id: usize| has_id(tips, id) == has_id(tips.update(index, tip), id),
        greatest_id(tips.update(index, tip)) == greatest_id(tips),
{
    let after = tips.update(index, tip);
    assert forall|i: int| 0 <= i < tips.len() implies (#[trigger] after[i]).metadata.id
        == tips[i].metadata.id by {}
    if ids_assigned(tips) {
        assert forall|i: int| 0 <= i < after.len() implies (#[trigger] after[i]).metadata.id is Some by {
            assert(after[i].metadata.id == tips[i].metadata.id);
        }
    }
    if ids_unique(tips) {
        assert forall|i: int, j: int|
            0 <= i < j < after.len() && (#[trigger] after[i]).metadata.id is Some implies after[i].metadata.id
            != (#[trigger] after[j]).metadata.id by {
            assert(after[i].metadata.id == tips[i].metadata.id);
            assert(after[j].metadata.id == tips[j].metadata.id);
        }
    }
    assert forall|id: usize| has_id(tips, id) == has_id(after, id) by {
        if has_id(tips, id) {
            let i = choose|i: int| 0 <= i < tips.len() && (#[trigger] tips[i]).metadata.id == Some(id);
            assert(after[i].metadata.id == Some(id));
        }
        if has_id(after, id) {
            let i = choose|i: int| 0 <= i < after.len() && (#[trigger] after[i]).metadata.id == Some(id);
            assert(tips[i].metadata.id == Some(id));
        }
    }
    lemma_greatest_id_of_same_ids(tips, after);
}

/// Two collections whose tips have the same ids, place by place, have
/// the same greatest id.
pub proof fn lemma_greatest_id_of_same_ids(a: Seq<TipView>, b: Seq<TipView>)
    requires
        a.len() == b.len(),
        forall|i: int| 0 <= i < a.len() ==> (#[trigger] a[i]).metadata.id == b[i].metadata.id,
    ensures
        greatest_id(a) == greatest_id(b),
    decreases a.len(),
{
    if a.len() > 0 {
        assert(a.last().metadata.id == b.last().metadata.id) by {
            assert(a[a.len() - 1].metadata.id == b[a.len() - 1].metadata.id);
        }
        assert forall|i: int| 0 <= i < a.drop_last().len() implies (#[trigger] a.drop_last()[i]).metadata.id
            == b.drop_last()[i].metadata.id by {
            assert(a[i].metadata.id == b[i].metadata.id);
        }
        lemma_greatest_id_of_same_ids(a.drop_last(), b.drop_last());
    }
}

impl Tips {
    /// A collection without tips.
    pub fn new() -> (tips: Tips)
        ensures
            tips@ == Seq::<TipView>::empty(),
            well_formed(tips@),
    {
        let tips = Tips { tips: Vec::new() };
        assert(tips@ =~= Seq::<TipView>::empty());
        tips
    }

    /// The position of the first tip with the id `id`.
    pub fn get_tip_index(&self, id: &usize) -> (r: Option<usize>)
        ensures
            match r {
                Some(i) => is_first_with_id(self@, *id, i as int),
                None => !has_id(self@, *id),
            },
    {
        let mut index: usize = 0;
        while index < self.tips.len()
            invariant
                index <= self.tips.len(),
                forall|j: int| 0 <= j < index ==> (#[trigger] self@[j]).metadata.id != Some(*id),
            decreases self.tips.len() - index,
        {
            match self.tips[index].metadata.id {
                Some(found) => {
                    if found == *id {
                        assert(self@[index as int].metadata.id == Some(*id));
                        return Some(index);
                    }
                },
                None => {},
            }
            assert(self@[index as int].metadata.id != Some(*id));
            index += 1;
        }
        None
    }

    /// Whether every tip has an id.
    pub fn all_ids_assigned(&self) -> (r: bool)
        ensures
            r == ids_assigned(self@),
    {
        let mut index: usize = 0;
        while index < self.tips.len()
            invariant
                index <= self.tips.len(),
                forall|j: int| 0 <= j < index ==> (#[trigger] self@[j]).metadata.id is Some,
            decreases self.tips.len() - index,
        {
            if self.tips[index].metadata.id.is_none() {
                assert(self@[index as int].metadata.id is None);
                return false;
            }
            assert(self@[index as int].metadata.id is Some);
            index += 1;
        }
        true
    }

    /// Whether no id is held by two tips.
    pub fn all_ids_unique(&self) -> (r: bool)
        ensures
            r == ids_unique(self@),
    {
        let mut first: usize = 0;
        while first < self.tips.len()
            invariant
                first <= self.tips.len(),
                forall|i: int, j: int|
                    0 <= i < first && i < j < self@.len() && (#[trigger] self@[i]).metadata.id is Some
                        ==> self@[i].metadata.id != (#[trigger] self@[j]).metadata.id,
            decreases self.tips.len() - first,
        {
            match self.tips[first].metadata.id {
                Some(id) => {
                    assert(self@[first as int].metadata.id == Some(id));
                    let mut second: usize = first + 1;
                    while second < self.tips.len()
                        invariant
                            first < second <= self.tips.len(),
                            self@[first as int].metadata.id == Some(id),
                            forall|j: int|
                                first < j < second ==> (#[trigger] self@[j]).metadata.id != Some(id),
                        decreases self.tips.len() - second,
                    {
                        match self.tips[second].metadata.id {
                            Some(other) => {
                                if other == id {
                                    assert(self@[second as int].metadata.id == Some(id));
                                    return false;
                                }
                            },
                            None => {},
                        }
                        assert(self@[second as int].metadata.id != Some(id));
                        second += 1;
                    }
                },
                None => {
                    assert(self@[first as int].metadata.id is None);
                },
            }
            first += 1;
        }
        true
    }

    /// The texts that head each tip in a listing, one row for each tip,
    /// in the order of the collection.
    pub fn summary(&self) -> (rows: Vec<Vec<String>>)
        requires
            ids_assigned(self@),
        ensures
            rows.deep_view() == summary_of(self@),
    {
        let mut rows: Vec<Vec<String>> = Vec::new();
        let mut index: usize = 0;
        while index < self.tips.len()
            invariant
                index <= self.tips.len(),
                ids_assigned(self@),
                rows.len() == index,
                forall|i: int|
                    0 <= i < rows.len() ==> (#[trigger] rows@[i]).deep_view() == header_texts(self@[i]),
            decreases self.tips.len() - index,
        {
            assert(self@[index as int].metadata.id is Some);
            let cells = self.tips[index].header_cells();
            rows.push(cells);
            index += 1;
        }
        assert(rows.deep_view() =~= summary_of(self@));
        rows
    }

    /// The id for the next tip: one more than the greatest id in use.
    /// `None` where no tip has an id yet, or the greatest id is the
    /// greatest number there is.
    pub fn next_id(&self) -> (r: Option<usize>)
        ensures
            r == next_id_of(self@),
    {
        let mut greatest: Option<usize> = None;
        let mut index: usize = 0;
        while index < self.tips.len()
            invariant
                index <= self.tips.len(),
                greatest == greatest_id(self@.take(index as int)),
            decreases self.tips.len() - index,
        {
            proof {
                let upto = self@.take(index + 1);
                assert(upto.last() == self@[index as int]);
                assert(upto.drop_last() =~= self@.take(index as int));
            }
            match (self.tips[index].metadata.id, greatest) {
                (Some(a), Some(b)) => {
                    if a >= b {
                        greatest = Some(a);
                    }
                },
                (Some(a), None) => {
                    greatest = Some(a);
                },
                (None, _) => {},
            }
            index += 1;
        }
        assert(self@.take(index as int) =~= self@);
        match greatest {
            Some(m) => if m < usize::MAX {
                Some(m + 1)
            } else {
                None
            },
            None => None,
        }
    }

    /// Puts `tip` at the end of the collection. The ids stay unique where
    /// the tip comes with an id that no tip has yet, or with none.
    pub fn add(&mut self, tip: Tip)
        ensures
            final(self)@ == old(self)@.push(tip@),
            ids_unique(old(self)@) && (tip@.metadata.id matches Some(id) ==> !has_id(old(self)@, id))
                ==> ids_unique(final(self)@),
            ids_assigned(old(self)@) && tip@.metadata.id is Some ==> ids_assigned(final(self)@),
    {
        self.tips.push(tip);
        assert(self@ =~= old(self)@.push(tip@));
        proof {
            let before = old(self)@;
            let after = before.push(tip@);
            if ids_unique(before) && (tip@.metadata.id matches Some(id) ==> !has_id(before, id)) {
                assert forall|i: int, j: int|
                    0 <= i < j < after.len() && (#[trigger] after[i]).metadata.id is Some implies after[i].metadata.id
                    != (#[trigger] after[j]).metadata.id by {
                    assert(after[i] == before[i]);
                    if j < before.len() {
                        assert(after[j] == before[j]);
                    }
                }
            }
            if ids_assigned(before) && tip@.metadata.id is Some {
                assert forall|i: int| 0 <= i < after.len() implies (#[trigger] after[i]).metadata.id is Some by {
                    if i < before.len() {
                        assert(after[i] == before[i]);
                    }
                }
            }
        }
    }

    /// Takes the tip at position `index` out of the collection and hands
    /// it back; the tips behind it move up.
    pub fn remove(&mut self, index: usize) -> (tip: Tip)
        requires
            index < old(self)@.len(),
        ensures
            tip@ == old(self)@[index as int],
            final(self)@ == old(self)@.remove(index as int),
            ids_assigned(old(self)@) ==> ids_assigned(final(self)@),
            ids_unique(old(self)@) ==> ids_unique(final(self)@),
    {
        proof {
            lemma_remove_keeps_ids(self@, index as int);
        }
        let tip = self.tips.remove(index);
        assert(self@ =~= old(self)@.remove(index as int));
        tip
    }
}

/// The next id is greater than every id in use, so no tip has it.
pub proof fn law_next_id_is_new(tips: Seq<TipView>)
    ensures
        next_id_of(tips) matches Some(n) ==> !has_id(tips, n) && forall|i: int|
            0 <= i < tips.len() ==> match (#[trigger] tips[i]).metadata.id {
                Some(x) => x < n,
                None => true,
            },
{
    lemma_greatest_id(tips);
}

/// Adding a tip under the next id leaves every earlier tip as it was,
/// keeps the ids unique, and moves the next id up by one.
pub proof fn law_add_under_next_id(tips: Seq<TipView>, tip: TipView)
    requires
        ids_unique(tips),
        next_id_of(tips) is Some,
        tip.metadata.id == next_id_of(tips),
    ensures
        forall|i: int| 0 <= i < tips.len() ==> tips.push(tip)[i] == tips[i],
        ids_unique(tips.push(tip)),
        greatest_id(tips.push(tip)) == next_id_of(tips),
        next_id_of(tips.push(tip)) matches Some(m) ==> m == next_id_of(tips).unwrap() + 1,
{
    lemma_greatest_id(tips);
    let after = tips.push(tip);
    assert(after.last() == tip);
    assert(after.drop_last() =~= tips);
    let n = next_id_of(tips).unwrap();
    assert forall|i: int, j: int|
        0 <= i < j < after.len() && (#[trigger] after[i]).metadata.id is Some implies after[i].metadata.id
        != (#[trigger] after[j]).metadata.id by {
        assert(after[i] == tips[i]);
        if j < tips.len() {
            assert(after[j] == tips[j]);
        }
    }
}

/// After the removal of a tip no tip has its id any more, provided that
/// the ids were unique; the ids stay unique, and the next id does not
/// change unless the tip removed held the greatest id.
pub proof fn law_remove(tips: Seq<TipView>, index: int, id: usize)
    requires
        ids_unique(tips),
        0 <= index < tips.len(),
        tips[index].metadata.id == Some(id),
    ensures
        !has_id(tips.remove(index), id),
        ids_unique(tips.remove(index)),
        greatest_id(tips) != Some(id) ==> next_id_of(tips.remove(index)) == next_id_of(tips),
{
    let after = tips.remove(index);
    lemma_remove_keeps_ids(tips, index);
    assert forall|i: int| 0 <= i < after.len() implies (#[trigger] after[i]).metadata.id != Some(id) by {
        if i < index {
            assert(after[i] == tips[i]);
        } else {
            assert(after[i] == tips[i + 1]);
        }
    }
    if greatest_id(tips) != Some(id) {
        lemma_greatest_id(tips);
        lemma_greatest_id(after);
        match greatest_id(tips) {
            Some(m) => {
                let k = choose|k: int| 0 <= k < tips.len() && tips[k].metadata.id == Some(m);
                let moved = if k < index { k } else { k - 1 };
                assert(after[moved] == tips[k]);
                assert(has_id(after, m));
                match greatest_id(after) {
                    Some(w) => {
                        let l = choose|l: int| 0 <= l < after.len() && after[l].metadata.id == Some(w);
                        let from = if l < index { l } else { l + 1 };
                        assert(after[l] == tips[from]);
                    },
                    None => {
                        assert(after[moved].metadata.id is None);
                    },
                }
            },
            None => {
                assert(tips[index].metadata.id is None);
            },
        }
    }
}

} // verus!

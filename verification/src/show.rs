//! The look-up of the tip that is to be shown.

use crate::error::TipsError;
use crate::tip::Tip;
use crate::tips::{has_id, is_first_with_id, Tips};
use vstd::prelude::*;

verus! {

/// The tip with the id `id`: the first one, should there be several.
pub fn show<'a>(tips: &'a Tips, id: &usize) -> (r: Result<&'a Tip, TipsError>)
    ensures
        match r {
            Ok(tip) => exists|i: int| #[trigger] is_first_with_id(tips@, *id, i) && tip@ == tips@[i],
            Err(e) => e == TipsError::NotFound && !has_id(tips@, *id),
        },
{
    match tips.get_tip_index(id) {
        Some(index) => {
            assert(tips@[index as int] == tips.tips@[index as int]@);
            Ok(&tips.tips[index])
        },
        None => Err(TipsError::NotFound),
    }
}

} // verus!

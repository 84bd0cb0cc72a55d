//! The change of a tip after the user has edited it.

use crate::error::TipsError;
use crate::metadata::{optional_view, Metadata, MetadataView, Timestamp};
use crate::template::{decode, decoded, SEPARATOR};
use crate::text::occurs_in;
use crate::tip::{Tip, TipView};
use crate::tips::{has_id, ids_assigned, ids_unique, is_first_with_id, lemma_update_keeps_ids, next_id_of, Tips};
use vstd::prelude::*;

verus! {

/// The two parts of an edited document.
#[derive(Debug, Clone)]
pub struct MetadataAndData {
    /// All that stands before the separator.
    pub metadata: String,
    /// The text of the tip.
    pub data: String,
}

/// Takes an edited document apart at its first separator.
pub fn extrace_metadata_data(contents: &String) -> (r: Result<MetadataAndData, TipsError>)
    ensures
        match r {
            Ok(parts) => decoded(contents@) == Some((parts.metadata@, parts.data@)),
            Err(e) => e == TipsError::MalformedDocument && decoded(contents@) is None,
        },
        r is Err <==> !occurs_in(contents@, SEPARATOR@),
{
    match decode(contents.as_str()) {
        Ok((metadata, data)) => Ok(MetadataAndData { metadata, data }),
        Err(e) => Err(e),
    }
}

/// The tip of the collection with the id `id`: the first one, should
/// there be several.
pub fn get_tip_with_id<'a>(id: &usize, tips: &'a mut Tips) -> (r: Result<&'a mut Tip, TipsError>)
    ensures
        match r {
            Ok(tip) => exists|i: int| is_first_with_id(old(tips)@, *id, i) && (*tip)@ == old(tips)@[i]
                && final(tips)@ == old(tips)@.update(i, (*final(tip))@),
            Err(e) => e == TipsError::NotFound && !has_id(old(tips)@, *id) && final(tips)@ == old(tips)@,
        },
{
    match tips.get_tip_index(id) {
        Some(index) => {
            let tip = &mut tips.tips[index];
            Ok(tip)
        },
        None => Err(TipsError::NotFound),
    }
}

/// Whether the text of a tip has to be written anew: the edited text
/// `data` differs from the text `stored` on disk.
pub fn update_data(stored: &str, data: &String) -> (rewrite: bool)
    ensures
        rewrite == (data@ != stored@),
{
    let stored = stored.to_owned();
    *data != stored
}

/// The metadata `before` after an edit that deserialized to `edited`: where
/// subject or tags differ, both are taken from the edit and the time of
/// the last update is set to `now`. Nothing else is taken from the edit.
pub open spec fn metadata_updated(before: MetadataView, edited: MetadataView, now: Timestamp) -> MetadataView {
    if before.subject != edited.subject || before.tags != edited.tags {
        MetadataView {
            subject: edited.subject,
            tags: edited.tags,
            last_updated: Some(now),
            ..before
        }
    } else {
        before
    }
}

/// Where subject or tags of the edited metadata differ from those of the
/// tip, takes both from the edit and notes `now` as the time of the last
/// update. Tells whether they differed.
pub fn update_metadata(tip: &mut Tip, edited: Metadata, now: Timestamp) -> (changed: bool)
    ensures
        changed == (old(tip)@.metadata.subject != edited@.subject || old(tip)@.metadata.tags
            != edited@.tags),
        final(tip)@.metadata == metadata_updated(old(tip)@.metadata, edited@, now),
        final(tip)@.data == old(tip)@.data,
{
    let same = tip.metadata.subject == edited.subject && crate::metadata::same_texts(
        &tip.metadata.tags,
        &edited.tags,
    );
    if !same {
        tip.metadata.subject = edited.subject;
        tip.metadata.tags = edited.tags;
        tip.metadata.last_updated = Some(now);
    }
    !same
}

/// The tip `before` after an edit: `stored` is its text on disk, `data` the
/// text that came back from the editor, `edited` the metadata that came
/// back. Subject and tags are those of the edit. The time of the last
/// update is `now` where the text, the subject or the tags were changed.
pub open spec fn modified(
    before: TipView,
    stored: Seq<char>,
    data: Seq<char>,
    edited: MetadataView,
    now: Timestamp,
) -> TipView {
    let after = metadata_updated(before.metadata, edited, now);
    TipView {
        metadata: if data != stored {
            MetadataView { last_updated: Some(now), ..after }
        } else {
            after
        },
        data: before.data,
    }
}

/// Applies an edit to a tip, and tells whether the text has to be written
/// to disk anew.
pub fn modify(tip: &mut Tip, stored: &str, data: &String, edited: Metadata, now: Timestamp) -> (rewrite:
    bool)
    ensures
        rewrite == (data@ != stored@),
        final(tip)@ == modified(old(tip)@, stored@, data@, edited@, now),
{
    let rewrite = update_data(stored, data);
    update_metadata(tip, edited, now);
    if rewrite {
        tip.metadata.last_updated = Some(now);
    }
    rewrite
}

/// An edit that changes the text alone leaves subject and tags as they
/// were, has the text written anew, and sets the time of the last update.
/// Id, time of creation, extension and the name of the text never change.
pub proof fn law_content_only_edit(
    before: TipView,
    stored: Seq<char>,
    data: Seq<char>,
    edited: MetadataView,
    now: Timestamp,
)
    ensures
        modified(before, stored, data, edited, now).metadata.id == before.metadata.id,
        modified(before, stored, data, edited, now).metadata.created == before.metadata.created,
        modified(before, stored, data, edited, now).metadata.data_extension
            == before.metadata.data_extension,
        modified(before, stored, data, edited, now).data == before.data,
        modified(before, stored, data, edited, now).metadata.subject == edited.subject,
        modified(before, stored, data, edited, now).metadata.tags == edited.tags,
        edited.subject == before.metadata.subject && edited.tags == before.metadata.tags && data != stored ==> {
            &&& modified(before, stored, data, edited, now).metadata.subject == before.metadata.subject
            &&& modified(before, stored, data, edited, now).metadata.tags == before.metadata.tags
            &&& modified(before, stored, data, edited, now).metadata.last_updated == Some(now)
        },
        edited.subject == before.metadata.subject && edited.tags == before.metadata.tags && data == stored
            ==> modified(before, stored, data, edited, now) == before,
{
}

/// What `update` leaves behind: `before` and `after` are the collection
/// before and after it, `r` is what it returned, and `now` the time that
/// it noted.
pub open spec fn update_result(
    before: Seq<TipView>,
    after: Seq<TipView>,
    r: Result<bool, TipsError>,
    id: usize,
    stored: Seq<char>,
    data: Seq<char>,
    edited: Option<MetadataView>,
    now: Timestamp,
) -> bool {
    match r {
        Ok(rewrite) => {
            &&& has_id(before, id)
            &&& edited is Some
            &&& rewrite == (data != stored)
            &&& exists|i: int|
                is_first_with_id(before, id, i) && after == before.update(
                    i,
                    modified(before[i], stored, data, edited.unwrap(), now),
                )
        },
        Err(e) => {
            &&& after == before
            &&& if !has_id(before, id) {
                e == TipsError::NotFound
            } else {
                e == TipsError::InvalidMetadata && edited is None
            }
        },
    }
}

/// Applies an edit to the tip with the id `id`, with `now` as the time of
/// the edit. `stored` is the text of the tip on disk, `data` the text that
/// came back from the editor, and `edited` the metadata that the block
/// above the separator deserialized to, `None` where it did not. Tells
/// whether the text has to be written to disk anew.
pub fn update_at(
    tips: &mut Tips,
    id: &usize,
    stored: &str,
    data: &String,
    edited: Option<Metadata>,
    now: Timestamp,
) -> (r: Result<bool, TipsError>)
    ensures
        update_result(
            old(tips)@,
            final(tips)@,
            r,
            *id,
            stored@,
            data@,
            optional_view(edited),
            now,
        ),
        ids_assigned(old(tips)@) ==> ids_assigned(final(tips)@),
        ids_unique(old(tips)@) ==> ids_unique(final(tips)@),
        next_id_of(final(tips)@) == next_id_of(old(tips)@),
{
    match tips.get_tip_index(id) {
        None => Err(TipsError::NotFound),
        Some(index) => match edited {
            None => Err(TipsError::InvalidMetadata),
            Some(metadata) => {
                let tip = &mut tips.tips[index];
                let rewrite = modify(tip, stored, data, metadata, now);
                assert(tips@ =~= old(tips)@.update(
                    index as int,
                    modified(old(tips)@[index as int], stored@, data@, metadata@, now),
                ));
                proof {
                    lemma_update_keeps_ids(
                        old(tips)@,
                        index as int,
                        modified(old(tips)@[index as int], stored@, data@, metadata@, now),
                    );
                }
                Ok(rewrite)
            },
        },
    }
}

/// Applies an edit to the tip with the id `id`, at the time of the call.
/// `stored` is the text of the tip on disk, `data` the text that came
/// back from the editor, and `edited` the metadata that the block above
/// the separator deserialized to, `None` where it did not. Tells whether
/// the text has to be written to disk anew.
pub fn update(tips: &mut Tips, id: &usize, stored: &str, data: &String, edited: Option<Metadata>) -> (r:
    Result<bool, TipsError>)
    ensures
        exists|now: Timestamp| #[trigger]
            update_result(old(tips)@, final(tips)@, r, *id, stored@, data@, optional_view(edited), now),
        ids_assigned(old(tips)@) ==> ids_assigned(final(tips)@),
        ids_unique(old(tips)@) ==> ids_unique(final(tips)@),
        next_id_of(final(tips)@) == next_id_of(old(tips)@),
{
    let now = Timestamp::now();
    update_at(tips, id, stored, data, edited, now)
}

} // verus!

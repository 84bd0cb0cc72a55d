//! The making of a new tip: the document that the editor shows, the check
//! of what comes back, and the entry into the collection.

use crate::error::TipsError;
use crate::metadata::{optional_view, Metadata, MetadataView, Timestamp};
use crate::template::{decode, decoded, is_unchanged, lemma_template_is_encoded_starter, unchanged,
    encoded, STARTER, TEMPLATE};
use crate::tip::{ContentRef, Tip, TipView};
use crate::tips::{ids_assigned, ids_unique, law_add_under_next_id, next_id_of, Tips};
use crate::update::MetadataAndData;
use vstd::prelude::*;

verus! {

/// The text that a new tip starts with where the user gave none.
pub const PLACEHOLDER: &'static str = "<replace me>";

/// Where the text of a new tip comes from.
#[derive(Debug, Clone)]
pub enum Input {
    /// From a file; this is the text that was read from it.
    File(String),
    /// From a pipe; this is the text that came through it.
    Stdin(String),
    /// From the user, in the editor.
    Interactive,
}

/// The source of a new tip.
#[derive(Debug, Clone)]
pub struct Source {
    pub origin: Input,
}

/// The text that a new tip starts with.
pub open spec fn initial_text(source: Source) -> Seq<char> {
    match source.origin {
        Input::File(text) => text@,
        Input::Stdin(text) => text@,
        Input::Interactive => PLACEHOLDER@,
    }
}

/// The text that a new tip starts with: what the file or the pipe gave,
/// or a placeholder.
pub fn get_tip_data(s: Source) -> (data: String)
    ensures
        data@ == initial_text(s),
{
    match s.origin {
        Input::File(text) => text,
        Input::Stdin(text) => text,
        Input::Interactive => PLACEHOLDER.to_owned(),
    }
}

/// The document that the editor shows for a new tip: the template, and
/// below it the text that the tip starts with.
pub fn write_template(source: Source) -> (document: String)
    ensures
        document@ == TEMPLATE@ + initial_text(source),
        document@ == encoded(STARTER@, initial_text(source)),
        unchanged(document@),
{
    let data = get_tip_data(source);
    let mut template = TEMPLATE.to_owned();
    template.append(data.as_str());
    proof {
        lemma_template_is_encoded_starter();
        assert(encoded(STARTER@, data@) =~= TEMPLATE@ + data@);
    }
    template
}

/// What `read_template` makes of a document.
pub open spec fn template_read(contents: Seq<char>) -> Result<(Seq<char>, Seq<char>), TipsError> {
    if unchanged(contents) {
        Err(TipsError::Unchanged)
    } else {
        match decoded(contents) {
            Some(parts) => Ok(parts),
            None => Err(TipsError::MalformedDocument),
        }
    }
}

/// Reads what the editor left of the document of a new tip. Where the
/// template still stands unchanged at its head, nothing was entered and
/// no tip is to be made; else the document is taken apart at its first
/// separator.
pub fn read_template(contents: &str) -> (r: Result<MetadataAndData, TipsError>)
    ensures
        match r {
            Ok(parts) => template_read(contents@) == Ok::<(Seq<char>, Seq<char>), TipsError>(
                (parts.metadata@, parts.data@),
            ),
            Err(e) => template_read(contents@) == Err::<(Seq<char>, Seq<char>), TipsError>(e),
        },
{
    if is_unchanged(contents) {
        return Err(TipsError::Unchanged);
    }
    match decode(contents) {
        Ok((metadata, data)) => Ok(MetadataAndData { metadata, data }),
        Err(e) => Err(e),
    }
}

/// The tip made of the metadata `metadata`, with its text under the name
/// `data`, created at the time `now`.
pub open spec fn created(metadata: MetadataView, data: ContentRef, now: Timestamp) -> TipView {
    TipView { metadata: MetadataView { created: Some(now), ..metadata }, data }
}

/// Makes a tip of the metadata that the user entered: notes `now` as the
/// time of its creation and `data` as the name of its text.
pub fn create_at(metadata: Metadata, data: ContentRef, now: Timestamp) -> (tip: Tip)
    ensures
        tip@ == created(metadata@, data, now),
{
    let mut md = metadata;
    md.created = Some(now);
    Tip { metadata: md, data }
}

/// Makes a tip of the metadata that the user entered: notes the time of
/// the call as the time of its creation, and gives its text a new name.
pub fn create(metadata: Metadata) -> (tip: Tip)
    ensures
        exists|data: ContentRef, now: Timestamp| tip@ == #[trigger] created(metadata@, data, now),
{
    let now = Timestamp::now();
    let data = ContentRef::fresh();
    create_at(metadata, data, now)
}

/// What `add_tip` leaves behind: `before` and `after` are the collection
/// before and after it, `r` is what it returned, and `tip` the tip that it
/// was given.
pub open spec fn add_result(
    before: Seq<TipView>,
    after: Seq<TipView>,
    r: Result<usize, TipsError>,
    tip: TipView,
) -> bool {
    match r {
        Ok(id) => {
            &&& next_id_of(before) == Some(id)
            &&& after == before.push(
                TipView { metadata: MetadataView { id: Some(id), ..tip.metadata }, data: tip.data },
            )
        },
        Err(e) => {
            &&& e == TipsError::NoNextId
            &&& next_id_of(before) is None
            &&& after == before
        },
    }
}

/// Enters a new tip into the collection under the next id, which it
/// returns. The id that the tip came with is not looked at.
pub fn add_tip(tips: &mut Tips, tip: Tip) -> (r: Result<usize, TipsError>)
    ensures
        add_result(old(tips)@, final(tips)@, r, tip@),
        ids_unique(old(tips)@) ==> ids_unique(final(tips)@),
        ids_assigned(old(tips)@) ==> ids_assigned(final(tips)@),
{
    match tips.next_id() {
        None => Err(TipsError::NoNextId),
        Some(id) => {
            let mut tip = tip;
            tip.metadata.id = Some(id);
            proof {
                if ids_unique(tips@) {
                    law_add_under_next_id(tips@, tip@);
                }
            }
            tips.add(tip);
            Ok(id)
        },
    }
}

/// What `add_edited` leaves behind.
pub open spec fn add_edited_result(
    before: Seq<TipView>,
    after: Seq<TipView>,
    r: Result<Tip, TipsError>,
    edited: Option<MetadataView>,
    data: ContentRef,
    now: Timestamp,
) -> bool {
    match r {
        Ok(tip) => {
            &&& edited is Some
            &&& next_id_of(before) is Some
            &&& tip@ == TipView {
                metadata: MetadataView {
                    id: next_id_of(before),
                    created: Some(now),
                    ..edited.unwrap()
                },
                data,
            }
            &&& after == before.push(tip@)
        },
        Err(e) => {
            &&& after == before
            &&& if edited is None {
                e == TipsError::InvalidMetadata
            } else {
                e == TipsError::NoNextId && next_id_of(before) is None
            }
        },
    }
}

/// Makes a tip of what the user entered and enters it into the
/// collection under the next id. `edited` is the metadata that the block
/// above the separator deserialized to, `None` where it did not; `data`
/// names the text of the tip and `now` is the time of creation. Hands
/// back a copy of the tip as it stands in the collection.
pub fn add_edited_at(tips: &mut Tips, edited: Option<Metadata>, data: ContentRef, now: Timestamp) -> (r:
    Result<Tip, TipsError>)
    ensures
        add_edited_result(old(tips)@, final(tips)@, r, optional_view(edited), data, now),
        r is Ok == (edited is Some && next_id_of(old(tips)@) is Some),
        ids_unique(old(tips)@) ==> ids_unique(final(tips)@),
        ids_assigned(old(tips)@) ==> ids_assigned(final(tips)@),
{
    match edited {
        None => Err(TipsError::InvalidMetadata),
        Some(metadata) => {
            let tip = create_at(metadata, data, now);
            match add_tip(tips, tip) {
                Err(e) => Err(e),
                Ok(_) => {
                    assert(tips@.len() == old(tips)@.len() + 1);
                    assert(tips.tips@.len() == tips@.len());
                    let last = tips.tips.len() - 1;
                    let copy = tips.tips[last].copy();
                    assert(tips@[last as int] == tips.tips@[last as int]@);
                    assert(tips@ =~= old(tips)@.push(copy@));
                    Ok(copy)
                },
            }
        },
    }
}

/// Makes a tip of what the user entered and enters it into the
/// collection under the next id, with the time of the call as the time
/// of creation and a new name for its text. `edited` is the metadata that
/// the block above the separator deserialized to, `None` where it did not.
/// Hands back a copy of the tip as it stands in the collection.
pub fn add_edited(tips: &mut Tips, edited: Option<Metadata>) -> (r: Result<Tip, TipsError>)
    ensures
        exists|data: ContentRef, now: Timestamp| #[trigger]
            add_edited_result(old(tips)@, final(tips)@, r, optional_view(edited), data, now),
        r is Ok == (edited is Some && next_id_of(old(tips)@) is Some),
        ids_unique(old(tips)@) ==> ids_unique(final(tips)@),
        ids_assigned(old(tips)@) ==> ids_assigned(final(tips)@),
{
    let now = Timestamp::now();
    let data = ContentRef::fresh();
    add_edited_at(tips, edited, data, now)
}

/// The making of a new tip is given up exactly where the template heads
/// what the editor left, whatever follows it.
pub proof fn law_abort_exactly_on_template(contents: Seq<char>)
    ensures
        template_read(contents) == Err::<(Seq<char>, Seq<char>), TipsError>(TipsError::Unchanged)
            <==> unchanged(contents),
        !unchanged(contents) ==> (template_read(contents) is Ok <==> decoded(contents) is Some),
{
}

/// Where the metadata deserialized and the collection offers a next id,
/// exactly one tip is entered: it stands last, under the next id, and
/// every tip that was there stays where and as it was. Where either
/// fails, the collection stays as it was.
pub proof fn law_one_tip_is_entered(
    before: Seq<TipView>,
    after: Seq<TipView>,
    r: Result<Tip, TipsError>,
    edited: Option<MetadataView>,
    data: ContentRef,
    now: Timestamp,
)
    requires
        add_edited_result(before, after, r, edited, data, now),
    ensures
        r is Ok <==> edited is Some && next_id_of(before) is Some,
        r is Ok ==> {
            &&& after.len() == before.len() + 1
            &&& after.drop_last() == before
            &&& after.last().metadata.id == next_id_of(before)
            &&& after.last().metadata.subject == edited.unwrap().subject
            &&& after.last().metadata.tags == edited.unwrap().tags
            &&& after.last().metadata.created == Some(now)
            &&& after.last().data == data
        },
        r is Err ==> after == before,
{
    if r is Ok {
        assert(after.drop_last() =~= before);
    }
}

} // verus!

use tips::add::{add_edited, add_edited_at, add_tip, create, create_at};
use tips::error::TipsError;
use tips::metadata::{Metadata, Timestamp};
use tips::show::show;
use tips::tip::{data_file, ContentRef, Tip};
use tips::tips::Tips;
use tips::update::{get_tip_with_id, modify, update, update_at, update_data, update_metadata};

fn metadata(subject: &str, id: Option<usize>, tags: &[&str]) -> Metadata {
    Metadata {
        subject: subject.to_string(),
        id,
        tags: tags.iter().map(|t| t.to_string()).collect(),
        created: None,
        last_updated: None,
        data_extension: None,
    }
}

fn tip(subject: &str, id: Option<usize>, tags: &[&str], bits: u128) -> Tip {
    Tip { metadata: metadata(subject, id, tags), data: ContentRef { bits } }
}

fn collection(ids: &[usize]) -> Tips {
    Tips { tips: ids.iter().map(|id| tip("s", Some(*id), &["t"], *id as u128)).collect() }
}

fn ids_of(tips: &Tips) -> Vec<Option<usize>> {
    tips.tips.iter().map(|t| t.metadata.id).collect()
}

#[test]
fn next_id_is_one_more_than_the_greatest() {
    assert_eq!(collection(&[1, 3, 7]).next_id(), Some(8));
    assert_eq!(collection(&[7, 3, 1]).next_id(), Some(8));
    assert_eq!(collection(&[3, 7, 1]).next_id(), Some(8));
    assert_eq!(collection(&[1]).next_id(), Some(2));
    assert_eq!(collection(&[0]).next_id(), Some(1));
}

#[test]
fn next_id_of_an_empty_collection_fails() {
    assert_eq!(Tips::new().next_id(), None);
    assert_eq!(Tips { tips: vec![] }.next_id(), None);
}

#[test]
fn next_id_skips_tips_without_id() {
    let tips = Tips { tips: vec![tip("a", None, &[], 1), tip("b", Some(4), &[], 2), tip("c", None, &[], 3)] };
    assert_eq!(tips.next_id(), Some(5));
    let none = Tips { tips: vec![tip("a", None, &[], 1)] };
    assert_eq!(none.next_id(), None);
}

#[test]
fn next_id_after_the_greatest_number_fails() {
    assert_eq!(collection(&[1, usize::MAX]).next_id(), None);
    assert_eq!(collection(&[usize::MAX - 1]).next_id(), Some(usize::MAX));
}

#[test]
fn add_puts_the_tip_last() {
    let mut tips = collection(&[1, 3]);
    tips.add(tip("new", Some(9), &["x"], 77));
    assert_eq!(ids_of(&tips), vec![Some(1), Some(3), Some(9)]);
    assert_eq!(tips.tips[2].metadata.subject, "new");
    assert_eq!(tips.tips[2].data, ContentRef { bits: 77 });
}

#[test]
fn add_tip_assigns_the_next_id() {
    let mut tips = collection(&[1, 3, 7]);
    let before = tips.clone();
    let r = add_tip(&mut tips, tip("new", None, &["x"], 77));
    assert_eq!(r, Ok(8));
    assert_eq!(ids_of(&tips), vec![Some(1), Some(3), Some(7), Some(8)]);
    assert_eq!(tips.tips[..3], before.tips[..]);
    assert_eq!(tips.tips[3].metadata.subject, "new");
    assert_eq!(tips.tips[3].metadata.tags, vec!["x".to_string()]);
    assert_eq!(tips.next_id(), Some(9));
}

#[test]
fn add_tip_overrides_the_id_that_came_with_the_tip() {
    let mut tips = collection(&[5]);
    assert_eq!(add_tip(&mut tips, tip("new", Some(5), &[], 1)), Ok(6));
    assert_eq!(ids_of(&tips), vec![Some(5), Some(6)]);
}

#[test]
fn add_tip_to_an_empty_collection_fails() {
    let mut tips = Tips::new();
    assert_eq!(add_tip(&mut tips, tip("new", None, &[], 1)), Err(TipsError::NoNextId));
    assert_eq!(tips.tips.len(), 0);
}

#[test]
fn get_tip_index_finds_the_first_tip_with_the_id() {
    let tips = collection(&[1, 3, 7, 3]);
    assert_eq!(tips.get_tip_index(&1), Some(0));
    assert_eq!(tips.get_tip_index(&3), Some(1));
    assert_eq!(tips.get_tip_index(&7), Some(2));
    assert_eq!(tips.get_tip_index(&2), None);
    assert_eq!(Tips::new().get_tip_index(&1), None);
}

#[test]
fn get_tip_index_passes_over_tips_without_id() {
    let tips = Tips { tips: vec![tip("a", None, &[], 1), tip("b", Some(0), &[], 2)] };
    assert_eq!(tips.get_tip_index(&0), Some(1));
}

#[test]
fn all_ids_assigned_tells_whether_an_id_is_missing() {
    assert!(collection(&[1, 2]).all_ids_assigned());
    assert!(Tips::new().all_ids_assigned());
    assert!(!Tips { tips: vec![tip("a", Some(1), &[], 1), tip("b", None, &[], 2)] }.all_ids_assigned());
}

#[test]
fn all_ids_unique_tells_whether_an_id_is_shared() {
    assert!(collection(&[1, 3, 7]).all_ids_unique());
    assert!(Tips::new().all_ids_unique());
    assert!(!collection(&[1, 3, 1]).all_ids_unique());
    assert!(!collection(&[3, 3]).all_ids_unique());
    assert!(!collection(&[1, 2, 3, 4, 4]).all_ids_unique());
    let missing = Tips { tips: vec![tip("a", None, &[], 1), tip("b", None, &[], 2), tip("c", Some(1), &[], 3)] };
    assert!(missing.all_ids_unique());
}

#[test]
fn remove_takes_the_tip_out() {
    let mut tips = collection(&[1, 3, 7]);
    let removed = tips.remove(1);
    assert_eq!(removed.metadata.id, Some(3));
    assert_eq!(ids_of(&tips), vec![Some(1), Some(7)]);
    assert_eq!(tips.get_tip_index(&3), None);
    assert_eq!(tips.next_id(), Some(8));
}

#[test]
fn remove_of_a_smaller_id_leaves_the_next_id() {
    let mut tips = collection(&[1, 3, 7]);
    tips.remove(0);
    assert_eq!(tips.next_id(), Some(8));
    let r = add_tip(&mut tips, tip("new", None, &[], 9));
    assert_eq!(r, Ok(8));
    assert_eq!(ids_of(&tips), vec![Some(3), Some(7), Some(8)]);
}

#[test]
fn remove_of_the_greatest_id_lowers_the_next_id() {
    let mut tips = collection(&[1, 3, 7]);
    tips.remove(2);
    assert_eq!(tips.next_id(), Some(4));
}

#[test]
fn show_finds_the_tip() {
    let tips = Tips { tips: vec![tip("brew coffee", Some(1), &["kitchen"], 1), tip("fix bike", Some(2), &["garage"], 2)] };
    assert_eq!(show(&tips, &2).map(|t| t.metadata.subject.clone()), Ok("fix bike".to_string()));
    assert_eq!(show(&tips, &3).err(), Some(TipsError::NotFound));
}

#[test]
fn get_tip_with_id_hands_out_the_tip_for_change() {
    let mut tips = collection(&[1, 3, 7]);
    {
        let found = get_tip_with_id(&3, &mut tips).unwrap();
        assert_eq!(found.metadata.id, Some(3));
        found.metadata.subject = "changed".to_string();
    }
    assert_eq!(tips.tips[1].metadata.subject, "changed");
    assert_eq!(tips.tips[0].metadata.subject, "s");
    assert_eq!(get_tip_with_id(&4, &mut tips).err(), Some(TipsError::NotFound));
}

#[test]
fn tips_are_equal_whatever_their_timestamps() {
    let mut a = tip("s", Some(1), &["t", "u"], 5);
    let mut b = tip("s", Some(1), &["t", "u"], 5);
    a.metadata.created = Some(Timestamp { seconds: 1, nanos: 2 });
    b.metadata.last_updated = Some(Timestamp { seconds: 3, nanos: 4 });
    assert_eq!(a, b);
    assert!(a.same_record(&b));
    assert!(a.metadata.same_record(&b.metadata));
}

#[test]
fn tips_differ_in_each_field_that_counts() {
    let a = tip("s", Some(1), &["t", "u"], 5);
    assert_ne!(a, tip("x", Some(1), &["t", "u"], 5));
    assert_ne!(a, tip("s", Some(2), &["t", "u"], 5));
    assert_ne!(a, tip("s", None, &["t", "u"], 5));
    assert_ne!(a, tip("s", Some(1), &["t"], 5));
    assert_ne!(a, tip("s", Some(1), &["u", "t"], 5));
    assert_ne!(a, tip("s", Some(1), &["t", "u"], 6));
    let mut b = tip("s", Some(1), &["t", "u"], 5);
    b.metadata.data_extension = Some("rs".to_string());
    assert_ne!(a, b);
    let mut c = tip("s", Some(1), &["t", "u"], 5);
    c.metadata.data_extension = Some("rs".to_string());
    assert_eq!(b, c);
    c.metadata.data_extension = Some("py".to_string());
    assert_ne!(b, c);
}

#[test]
fn copy_keeps_every_field() {
    let mut a = tip("s", Some(1), &["t", "u"], 5);
    a.metadata.created = Some(Timestamp { seconds: 1, nanos: 2 });
    a.metadata.last_updated = Some(Timestamp { seconds: 3, nanos: 4 });
    a.metadata.data_extension = Some("rs".to_string());
    let b = a.copy();
    assert_eq!(a, b);
    assert_eq!(b.metadata.created, Some(Timestamp { seconds: 1, nanos: 2 }));
    assert_eq!(b.metadata.last_updated, Some(Timestamp { seconds: 3, nanos: 4 }));
}

#[test]
fn create_at_notes_time_and_name() {
    let now = Timestamp { seconds: 1_600_000_000, nanos: 5 };
    let made = create_at(metadata("brew coffee", None, &["kitchen"]), ContentRef { bits: 42 }, now);
    assert_eq!(made.metadata.subject, "brew coffee");
    assert_eq!(made.metadata.tags, vec!["kitchen".to_string()]);
    assert_eq!(made.metadata.id, None);
    assert_eq!(made.metadata.created, Some(now));
    assert_eq!(made.metadata.last_updated, None);
    assert_eq!(made.data, ContentRef { bits: 42 });
}

#[test]
fn create_notes_a_time_and_a_new_name() {
    let a = create(metadata("a", None, &[]));
    let b = create(metadata("b", None, &[]));
    assert!(a.metadata.created.is_some());
    assert_eq!(a.metadata.subject, "a");
    assert_ne!(a.data, b.data);
    assert!(a.metadata.created.unwrap().seconds > 1_000_000_000);
}

#[test]
fn add_edited_at_enters_the_tip() {
    let mut tips = collection(&[1, 3, 7]);
    let now = Timestamp { seconds: 10, nanos: 0 };
    let r = add_edited_at(&mut tips, Some(metadata("new", None, &["x"])), ContentRef { bits: 99 }, now);
    let made = r.unwrap();
    assert_eq!(made.metadata.id, Some(8));
    assert_eq!(made.metadata.created, Some(now));
    assert_eq!(made.data, ContentRef { bits: 99 });
    assert_eq!(tips.tips.len(), 4);
    assert_eq!(tips.tips[3], made);
    assert_eq!(tips.tips[3].metadata.created, Some(now));
    assert_eq!(ids_of(&tips), vec![Some(1), Some(3), Some(7), Some(8)]);
}

#[test]
fn add_edited_at_without_metadata_is_invalid() {
    let mut tips = collection(&[1]);
    let r = add_edited_at(&mut tips, None, ContentRef { bits: 99 }, Timestamp { seconds: 0, nanos: 0 });
    assert_eq!(r.err(), Some(TipsError::InvalidMetadata));
    assert_eq!(tips.tips.len(), 1);
}

#[test]
fn add_edited_at_on_an_empty_collection_fails() {
    let mut tips = Tips::new();
    let r = add_edited_at(
        &mut tips,
        Some(metadata("new", None, &[])),
        ContentRef { bits: 99 },
        Timestamp { seconds: 0, nanos: 0 },
    );
    assert_eq!(r.err(), Some(TipsError::NoNextId));
    assert_eq!(tips.tips.len(), 0);
}

#[test]
fn add_edited_enters_the_tip() {
    let mut tips = collection(&[1, 3, 7]);
    let made = add_edited(&mut tips, Some(metadata("new", None, &["x"]))).unwrap();
    assert_eq!(made.metadata.id, Some(8));
    assert!(made.metadata.created.is_some());
    assert_eq!(tips.tips[3], made);
    assert_eq!(add_edited(&mut tips, None).err(), Some(TipsError::InvalidMetadata));
}

#[test]
fn update_data_tells_whether_the_text_changed() {
    assert!(update_data("old text", &"new text".to_string()));
    assert!(!update_data("same", &"same".to_string()));
    assert!(update_data("", &"x".to_string()));
    assert!(update_data("same", &"same\n".to_string()));
}

#[test]
fn update_metadata_takes_subject_and_tags() {
    let now = Timestamp { seconds: 50, nanos: 1 };
    let mut t = tip("brew coffee", Some(4), &["kitchen"], 9);
    t.metadata.created = Some(Timestamp { seconds: 1, nanos: 1 });
    let mut edited = metadata("brew tea", Some(999), &["kitchen", "hot"]);
    edited.data_extension = Some("md".to_string());
    edited.created = Some(Timestamp { seconds: 7, nanos: 7 });
    assert!(update_metadata(&mut t, edited, now));
    assert_eq!(t.metadata.subject, "brew tea");
    assert_eq!(t.metadata.tags, vec!["kitchen".to_string(), "hot".to_string()]);
    assert_eq!(t.metadata.last_updated, Some(now));
    assert_eq!(t.metadata.id, Some(4));
    assert_eq!(t.metadata.created, Some(Timestamp { seconds: 1, nanos: 1 }));
    assert_eq!(t.metadata.data_extension, None);
    assert_eq!(t.data, ContentRef { bits: 9 });
}

#[test]
fn update_metadata_leaves_an_unchanged_tip() {
    let now = Timestamp { seconds: 50, nanos: 1 };
    let mut t = tip("brew coffee", Some(4), &["kitchen"], 9);
    assert!(!update_metadata(&mut t, metadata("brew coffee", None, &["kitchen"]), now));
    assert_eq!(t.metadata.last_updated, None);
    assert_eq!(t.metadata.id, Some(4));
}

#[test]
fn modify_with_new_text_alone() {
    let now = Timestamp { seconds: 50, nanos: 1 };
    let mut t = tip("brew coffee", Some(4), &["kitchen"], 9);
    let rewrite = modify(&mut t, "old", &"new".to_string(), metadata("brew coffee", Some(4), &["kitchen"]), now);
    assert!(rewrite);
    assert_eq!(t.metadata.subject, "brew coffee");
    assert_eq!(t.metadata.tags, vec!["kitchen".to_string()]);
    assert_eq!(t.metadata.last_updated, Some(now));
}

#[test]
fn modify_with_nothing_new() {
    let now = Timestamp { seconds: 50, nanos: 1 };
    let mut t = tip("brew coffee", Some(4), &["kitchen"], 9);
    t.metadata.last_updated = Some(Timestamp { seconds: 2, nanos: 2 });
    let rewrite = modify(&mut t, "same", &"same".to_string(), metadata("brew coffee", Some(4), &["kitchen"]), now);
    assert!(!rewrite);
    assert_eq!(t.metadata.last_updated, Some(Timestamp { seconds: 2, nanos: 2 }));
}

#[test]
fn modify_with_new_tags_alone() {
    let now = Timestamp { seconds: 50, nanos: 1 };
    let mut t = tip("brew coffee", Some(4), &["kitchen"], 9);
    let rewrite = modify(&mut t, "same", &"same".to_string(), metadata("brew coffee", Some(4), &["home"]), now);
    assert!(!rewrite);
    assert_eq!(t.metadata.tags, vec!["home".to_string()]);
    assert_eq!(t.metadata.last_updated, Some(now));
}

#[test]
fn update_at_changes_the_tip_with_the_id() {
    let now = Timestamp { seconds: 50, nanos: 1 };
    let mut tips = collection(&[1, 3, 7]);
    let r = update_at(&mut tips, &3, "old", &"new".to_string(), Some(metadata("fix bike", None, &["garage"])), now);
    assert_eq!(r, Ok(true));
    assert_eq!(tips.tips[1].metadata.subject, "fix bike");
    assert_eq!(tips.tips[1].metadata.tags, vec!["garage".to_string()]);
    assert_eq!(tips.tips[1].metadata.id, Some(3));
    assert_eq!(tips.tips[1].metadata.last_updated, Some(now));
    assert_eq!(tips.tips[0], tip("s", Some(1), &["t"], 1));
    assert_eq!(tips.tips[0].metadata.last_updated, None);
    assert_eq!(tips.tips[2], tip("s", Some(7), &["t"], 7));
}

#[test]
fn update_at_of_a_missing_id_is_not_found() {
    let now = Timestamp { seconds: 50, nanos: 1 };
    let mut tips = collection(&[1, 3, 7]);
    let r = update_at(&mut tips, &2, "old", &"new".to_string(), Some(metadata("x", None, &[])), now);
    assert_eq!(r, Err(TipsError::NotFound));
    let none = update_at(&mut tips, &2, "old", &"new".to_string(), None, now);
    assert_eq!(none, Err(TipsError::NotFound));
    assert_eq!(tips.tips, collection(&[1, 3, 7]).tips);
}

#[test]
fn update_at_without_metadata_is_invalid() {
    let now = Timestamp { seconds: 50, nanos: 1 };
    let mut tips = collection(&[1, 3, 7]);
    let r = update_at(&mut tips, &3, "old", &"new".to_string(), None, now);
    assert_eq!(r, Err(TipsError::InvalidMetadata));
    assert_eq!(tips.tips[1].metadata.last_updated, None);
}

#[test]
fn update_notes_the_time_of_the_call() {
    let mut tips = collection(&[1, 3, 7]);
    let r = update(&mut tips, &7, "old", &"new".to_string(), Some(metadata("s", None, &["t"])));
    assert_eq!(r, Ok(true));
    assert!(tips.tips[2].metadata.last_updated.is_some());
    assert_eq!(tips.tips[2].metadata.subject, "s");
    let same = update(&mut tips, &1, "old", &"old".to_string(), Some(metadata("s", None, &["t"])));
    assert_eq!(same, Ok(false));
    assert_eq!(tips.tips[0].metadata.last_updated, None);
}

#[test]
fn data_file_is_the_hyphenated_name_in_the_directory() {
    let data = ContentRef { bits: 0x936da01f_9abd_4d9d_80c7_02af85c822a8 };
    assert_eq!(data_file("/home/u/.tips/data", &data), "/home/u/.tips/data/936da01f-9abd-4d9d-80c7-02af85c822a8");
    assert_eq!(data_file("", &ContentRef { bits: 0 }), "/00000000-0000-0000-0000-000000000000");
    assert_eq!(
        data_file("d", &ContentRef { bits: u128::MAX }),
        "d/ffffffff-ffff-ffff-ffff-ffffffffffff"
    );
    assert_eq!(
        data_file("d", &ContentRef { bits: 0x0123_4567_89ab_cdef_0123_4567_89ab_cdef }),
        "d/01234567-89ab-cdef-0123-456789abcdef"
    );
}

//! What is known of a tip besides its text.

use vstd::prelude::*;

verus! {

/// A point in time: seconds since the Unix epoch, and the nanoseconds
/// since the last full second.
#[derive(Debug, Clone, Copy, PartialEq, Eq, Structural)]
pub struct Timestamp {
    pub seconds: i64,
    pub nanos: u32,
}

impl Timestamp {
    /// The time at which it is called.
    ///
    /// Calls `chrono::offset::Local::now`, and reads the result with
    /// `DateTime::timestamp` and `DateTime::timestamp_subsec_nanos`.
    /// Nothing is claimed of the result. The call panics where the clock
    /// of the machine stands before 1970, or where its time zone data
    /// gives no offset for the present time.
    #[verifier::external_body]
    pub(crate) fn now() -> Timestamp {
        let now = chrono::offset::Local::now();
        Timestamp { seconds: now.timestamp(), nanos: now.timestamp_subsec_nanos() }
    }
}

/// The metadata of a tip.
#[derive(Debug, Clone)]
pub struct Metadata {
    /// Free text; two tips may share a subject.
    pub subject: String,
    /// Identifies the tip within its collection. `None` only until the
    /// collection has assigned one.
    pub id: Option<usize>,
    /// In the order in which they were given; a tag may occur twice.
    pub tags: Vec<String>,
    /// Set once, when the tip is created.
    pub created: Option<Timestamp>,
    /// Set whenever an edit of the tip is accepted.
    pub last_updated: Option<Timestamp>,
    /// Names the syntax of the tip's text by a file extension.
    pub data_extension: Option<String>,
}

/// The mathematical value of a `Metadata`.
pub struct MetadataView {
    pub subject: Seq<char>,
    pub id: Option<usize>,
    pub tags: Seq<Seq<char>>,
    pub created: Option<Timestamp>,
    pub last_updated: Option<Timestamp>,
    pub data_extension: Option<Seq<char>>,
}

impl View for Metadata {
    type V = MetadataView;

    open spec fn view(&self) -> MetadataView {
        MetadataView {
            subject: self.subject@,
            id: self.id,
            tags: self.tags.deep_view(),
            created: self.created,
            last_updated: self.last_updated,
            data_extension: match self.data_extension {
                Some(e) => Some(e@),
                None => None,
            },
        }
    }
}

/// The value of a metadata that may be absent.
pub open spec fn optional_view(metadata: Option<Metadata>) -> Option<MetadataView> {
    match metadata {
        Some(m) => Some(m@),
        None => None,
    }
}

impl MetadataView {
    /// Two metadata describe the same record: they agree on everything
    /// but the two timestamps.
    pub open spec fn same_record(self, other: MetadataView) -> bool {
        &&& self.subject == other.subject
        &&& self.id == other.id
        &&& self.tags == other.tags
        &&& self.data_extension == other.data_extension
    }
}

/// Whether two lists hold the same texts in the same order.
pub fn same_texts(a: &Vec<String>, b: &Vec<String>) -> (r: bool)
    ensures
        r == (a.deep_view() == b.deep_view()),
{
    if a.len() != b.len() {
        assert(a.deep_view().len() != b.deep_view().len());
        return false;
    }
    let mut i: usize = 0;
    while i < a.len()
        invariant
            i <= a.len(),
            a.len() == b.len(),
            forall|j: int| 0 <= j < i ==> a@[j]@ == b@[j]@,
        decreases a.len() - i,
    {
        if a[i] != b[i] {
            assert(a.deep_view()[i as int] != b.deep_view()[i as int]);
            return false;
        }
        i += 1;
    }
    assert(a.deep_view() =~= b.deep_view());
    true
}

/// Whether two optional texts are both absent or both the same text.
pub fn same_optional_text(a: &Option<String>, b: &Option<String>) -> (r: bool)
    ensures
        r == (match (*a, *b) {
            (Some(x), Some(y)) => x@ == y@,
            (None, None) => true,
            _ => false,
        }),
{
    match (a, b) {
        (Some(x), Some(y)) => *x == *y,
        (None, None) => true,
        _ => false,
    }
}

/// A copy of a list of texts.
pub fn copy_of_texts(texts: &Vec<String>) -> (copy: Vec<String>)
    ensures
        copy.deep_view() == texts.deep_view(),
{
    let mut copy: Vec<String> = Vec::new();
    let mut i: usize = 0;
    while i < texts.len()
        invariant
            i <= texts.len(),
            copy.len() == i,
            forall|j: int| 0 <= j < i ==> copy@[j]@ == texts@[j]@,
        decreases texts.len() - i,
    {
        copy.push(texts[i].clone());
        i += 1;
    }
    assert(copy.deep_view() =~= texts.deep_view());
    copy
}

impl Metadata {
    /// A copy of the metadata.
    pub fn copy(&self) -> (copy: Metadata)
        ensures
            copy@ == self@,
    {
        Metadata {
            subject: self.subject.clone(),
            id: self.id,
            tags: copy_of_texts(&self.tags),
            created: self.created,
            last_updated: self.last_updated,
            data_extension: match &self.data_extension {
                Some(e) => Some(e.clone()),
                None => None,
            },
        }
    }

    /// Whether `self` and `other` describe the same record: the timestamps
    /// are not compared.
    pub fn same_record(&self, other: &Metadata) -> (r: bool)
        ensures
            r == self@.same_record(other@),
    {
        self.subject == other.subject && self.id == other.id && same_texts(
            &self.tags,
            &other.tags,
        ) && same_optional_text(&self.data_extension, &other.data_extension)
    }
}

impl PartialEq for Metadata {
    fn eq(&self, other: &Metadata) -> (r: bool) {
        self.same_record(other)
    }
}

impl vstd::std_specs::cmp::PartialEqSpecImpl for Metadata {
    open spec fn obeys_eq_spec() -> bool {
        true
    }

    open spec fn eq_spec(&self, other: &Metadata) -> bool {
        self@.same_record(other@)
    }
}

} // verus!

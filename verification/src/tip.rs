//! A tip: its metadata, and the name of the file that holds its text.

use crate::metadata::{Metadata, MetadataView};
use crate::text::{decimal, decimal_string};
use vstd::arithmetic::power::pow;
use vstd::prelude::*;

verus! {

/// Names the file that holds the text of a tip: the 128 bits of a UUID.
#[derive(Debug, Clone, Copy, PartialEq, Eq, Structural)]
pub struct ContentRef {
    pub bits: u128,
}

/// The character that writes `v` as one hexadecimal digit, in lower case.
pub open spec fn hex_digit(v: int) -> char {
    if v == 0 {
        '0'
    } else if v == 1 {
        '1'
    } else if v == 2 {
        '2'
    } else if v == 3 {
        '3'
    } else if v == 4 {
        '4'
    } else if v == 5 {
        '5'
    } else if v == 6 {
        '6'
    } else if v == 7 {
        '7'
    } else if v == 8 {
        '8'
    } else if v == 9 {
        '9'
    } else if v == 10 {
        'a'
    } else if v == 11 {
        'b'
    } else if v == 12 {
        'c'
    } else if v == 13 {
        'd'
    } else if v == 14 {
        'e'
    } else {
        'f'
    }
}

/// The hexadecimal digit of `bits` at place `k`, place 0 being the most
/// significant of the 32.
pub open spec fn hex_place(bits: u128, k: int) -> int {
    (bits as int / pow(16, (31 - k) as nat)) % 16
}

/// The 36 characters that write a UUID: its 32 hexadecimal digits in lower
/// case, most significant first, in groups of 8, 4, 4, 4 and 12 with a
/// hyphen between two groups.
pub open spec fn hyphenated(bits: u128) -> Seq<char> {
    Seq::new(
        36,
        |i: int|
            if i == 8 || i == 13 || i == 18 || i == 23 {
                '-'
            } else if i < 8 {
                hex_digit(hex_place(bits, i))
            } else if i < 13 {
                hex_digit(hex_place(bits, i - 1))
            } else if i < 18 {
                hex_digit(hex_place(bits, i - 2))
            } else if i < 23 {
                hex_digit(hex_place(bits, i - 3))
            } else {
                hex_digit(hex_place(bits, i - 4))
            },
    )
}

impl ContentRef {
    /// A name that no tip has yet: a random UUID.
    ///
    /// Calls `uuid::Uuid::new_v4`, which draws the bits from the operating
    /// system, and `Uuid::as_u128`. Nothing is claimed of the result. The
    /// call panics where the system hands out no random bytes.
    #[verifier::external_body]
    pub(crate) fn fresh() -> ContentRef {
        ContentRef { bits: uuid::Uuid::new_v4().as_u128() }
    }

    /// The name as it is written in a path: `hyphenated(self.bits)`.
    ///
    /// Calls `uuid::Uuid::from_u128` and the `Display` of `Uuid`, which
    /// writes the lower-case hyphenated form.
    #[verifier::external_body]
    pub(crate) fn written(&self) -> (s: String)
        ensures
            s@ == hyphenated(self.bits),
    {
        uuid::Uuid::from_u128(self.bits).to_string()
    }
}

/// The path of the file that holds the text named by `data`, in the
/// directory `data_dir`.
pub open spec fn data_path(data_dir: Seq<char>, data: ContentRef) -> Seq<char> {
    data_dir + seq!['/'] + hyphenated(data.bits)
}

/// The path of the file that holds the text named by `data`, in the
/// directory `data_dir`.
pub fn data_file(data_dir: &str, data: &ContentRef) -> (path: String)
    ensures
        path@ == data_path(data_dir@, *data),
{
    proof {
        reveal_strlit("/");
    }
    let mut path = data_dir.to_owned();
    path.append("/");
    let name = data.written();
    path.append(name.as_str());
    assert("/"@ =~= seq!['/']);
    path
}

/// A tip. Its text is kept apart, in a file named by `data`.
#[derive(Debug, Clone)]
pub struct Tip {
    /// All that is known of the tip besides its text.
    pub metadata: Metadata,
    /// The name of the file that holds the text.
    pub data: ContentRef,
}

/// The mathematical value of a `Tip`.
pub struct TipView {
    pub metadata: MetadataView,
    pub data: ContentRef,
}

impl View for Tip {
    type V = TipView;

    open spec fn view(&self) -> TipView {
        TipView { metadata: self.metadata@, data: self.data }
    }
}

impl TipView {
    /// Two tips are the same record: their metadata agree but for the
    /// timestamps, and they name the same text.
    pub open spec fn same_record(self, other: TipView) -> bool {
        self.metadata.same_record(other.metadata) && self.data == other.data
    }
}

/// The tags of a tip as one text: each tag followed by a blank, the last
/// tag first.
pub open spec fn tags_text(tags: Seq<Seq<char>>) -> Seq<char>
    decreases tags.len(),
{
    if tags.len() == 0 {
        Seq::empty()
    } else {
        tags.last() + seq![' '] + tags_text(tags.drop_last())
    }
}

/// The three texts that head a tip in a listing: its id, its subject and
/// its tags.
pub open spec fn header_texts(tip: TipView) -> Seq<Seq<char>> {
    seq![
        decimal(tip.metadata.id.unwrap() as nat),
        tip.metadata.subject,
        tags_text(tip.metadata.tags),
    ]
}

impl Tip {
    /// A copy of the tip.
    pub fn copy(&self) -> (copy: Tip)
        ensures
            copy@ == self@,
    {
        Tip { metadata: self.metadata.copy(), data: self.data }
    }

    /// Whether `self` and `other` are the same record.
    pub fn same_record(&self, other: &Tip) -> (r: bool)
        ensures
            r == self@.same_record(other@),
    {
        self.metadata.same_record(&other.metadata) && self.data == other.data
    }

    /// The id of the tip in decimal digits.
    pub fn id_cell(&self) -> (cell: String)
        requires
            self.metadata.id is Some,
        ensures
            cell@ == decimal(self@.metadata.id.unwrap() as nat),
    {
        match self.metadata.id {
            Some(id) => decimal_string(id),
            None => String::new(),
        }
    }

    /// The subject of the tip.
    pub fn subject_cell(&self) -> (cell: String)
        ensures
            cell@ == self@.metadata.subject,
    {
        self.metadata.subject.clone()
    }

    /// The tags of the tip, each followed by a blank, the last tag first.
    pub fn tags_cell(&self) -> (cell: String)
        ensures
            cell@ == tags_text(self@.metadata.tags),
    {
        proof {
            reveal_strlit(" ");
        }
        let mut cell = String::new();
        let mut i: usize = 0;
        while i < self.metadata.tags.len()
            invariant
                i <= self.metadata.tags.len(),
                cell@ == tags_text(self@.metadata.tags.take(i as int)),
                " "@ == seq![' '],
            decreases self.metadata.tags.len() - i,
        {
            let mut next = self.metadata.tags[i].clone();
            next.append(" ");
            next.append(cell.as_str());
            proof {
                let tags = self@.metadata.tags;
                let upto = tags.take(i + 1);
                assert(upto.last() == self.metadata.tags@[i as int]@);
                assert(upto.drop_last() =~= tags.take(i as int));
            }
            cell = next;
            i += 1;
        }
        assert(self@.metadata.tags.take(i as int) =~= self@.metadata.tags);
        cell
    }

    /// The texts that head the tip in a listing: id, subject and tags.
    pub fn header_cells(&self) -> (cells: Vec<String>)
        requires
            self.metadata.id is Some,
        ensures
            cells.deep_view() == header_texts(self@),
    {
        let mut cells: Vec<String> = Vec::new();
        cells.push(self.id_cell());
        cells.push(self.subject_cell());
        cells.push(self.tags_cell());
        assert(cells.deep_view() =~= header_texts(self@));
        cells
    }
}

impl PartialEq for Tip {
    fn eq(&self, other: &Tip) -> (r: bool) {
        self.same_record(other)
    }
}

impl vstd::std_specs::cmp::PartialEqSpecImpl for Tip {
    open spec fn obeys_eq_spec() -> bool {
        true
    }

    open spec fn eq_spec(&self, other: &Tip) -> bool {
        self@.same_record(other@)
    }
}

} // verus!

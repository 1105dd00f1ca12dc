use vstd::prelude::*;

use crate::download::model::{Bytes, DownloadStatus};
use crate::text::chars_of;
use crate::ui::format::{byte_sort_value, status_order, status_rank};

verus! {

/// Columns of the downloads table.
#[derive(Debug, Clone, Copy, PartialEq, Eq, Structural)]
pub enum TableColumn {
    Name,
    Size,
    Status,
    Speed,
    TimeLeft,
    DateAdded,
}

impl TableColumn {
    /// Header text of the column.
    pub fn label(self) -> (r: &'static str)
        ensures
            r@ == match self {
                TableColumn::Name => "Name"@,
                TableColumn::Size => "Size"@,
                TableColumn::Status => "Status"@,
                TableColumn::Speed => "Speed"@,
                TableColumn::TimeLeft => "Time Left"@,
                TableColumn::DateAdded => "Date Added"@,
            },
    {
        match self {
            TableColumn::Name => "Name",
            TableColumn::Size => "Size",
            TableColumn::Status => "Status",
            TableColumn::Speed => "Speed",
            TableColumn::TimeLeft => "Time Left",
            TableColumn::DateAdded => "Date Added",
        }
    }

    /// Only the last column stretches to fill the table's width.
    pub fn fills_remaining_width(self) -> (r: bool)
        ensures
            r == (self == TableColumn::DateAdded),
    {
        match self {
            TableColumn::DateAdded => true,
            _ => false,
        }
    }
}

/// Direction of the table's sort.
#[derive(Debug, Clone, Copy, PartialEq, Eq, Structural)]
pub enum SortDirection {
    Ascending,
    Descending,
}

impl SortDirection {
    /// The other direction.
    pub fn toggled(self) -> (r: Self)
        ensures
            r != self,
    {
        match self {
            SortDirection::Ascending => SortDirection::Descending,
            SortDirection::Descending => SortDirection::Ascending,
        }
    }
}

/// Column and direction the table is sorted by.
#[derive(Debug, Clone, Copy, PartialEq, Eq, Structural)]
pub struct SortState {
    pub column: TableColumn,
    pub direction: SortDirection,
}

impl SortState {
    /// The sort after clicking a column header: the same column flips its direction,
    /// another column sorts ascending.
    pub fn next_for(self, column: TableColumn) -> (r: Self)
        ensures
            r.column == column,
            r.direction == (if self.column == column {
                if self.direction == SortDirection::Ascending {
                    SortDirection::Descending
                } else {
                    SortDirection::Ascending
                }
            } else {
                SortDirection::Ascending
            }),
    {
        if self.column == column {
            SortState { column, direction: self.direction.toggled() }
        } else {
            SortState { column, direction: SortDirection::Ascending }
        }
    }
}

/// How two rows compare: the first sorts before, together with, or after the second.
#[derive(Debug, Clone, Copy, PartialEq, Eq, Structural)]
pub enum RowOrder {
    Less,
    Equal,
    Greater,
}

impl RowOrder {
    /// The comparison seen from the other side.
    pub open spec fn flipped(self) -> RowOrder {
        match self {
            RowOrder::Less => RowOrder::Greater,
            RowOrder::Equal => RowOrder::Equal,
            RowOrder::Greater => RowOrder::Less,
        }
    }

    /// The comparison seen from the other side.
    pub fn reverse(self) -> (r: RowOrder)
        ensures
            r == self.flipped(),
    {
        match self {
            RowOrder::Less => RowOrder::Greater,
            RowOrder::Equal => RowOrder::Equal,
            RowOrder::Greater => RowOrder::Less,
        }
    }
}

/// How two numbers compare.
pub open spec fn number_order(a: int, b: int) -> RowOrder {
    if a < b {
        RowOrder::Less
    } else if a == b {
        RowOrder::Equal
    } else {
        RowOrder::Greater
    }
}

/// How two texts compare, as `String`'s `Ord` orders them: character by character by
/// code point (the order of their UTF-8 bytes), a proper prefix first.
pub open spec fn text_order(a: Seq<char>, b: Seq<char>) -> RowOrder
    decreases a.len(),
{
    if a.len() == 0 {
        if b.len() == 0 {
            RowOrder::Equal
        } else {
            RowOrder::Less
        }
    } else if b.len() == 0 {
        RowOrder::Greater
    } else if a[0] != b[0] {
        number_order(a[0] as int, b[0] as int)
    } else {
        text_order(a.drop_first(), b.drop_first())
    }
}

fn number_compare(a: u64, b: u64) -> (r: RowOrder)
    ensures
        r == number_order(a as int, b as int),
{
    if a < b {
        RowOrder::Less
    } else if a == b {
        RowOrder::Equal
    } else {
        RowOrder::Greater
    }
}

/// Compares two texts as `String`'s `Ord` does.
pub fn text_compare(a: &str, b: &str) -> (r: RowOrder)
    ensures
        r == text_order(a@, b@),
{
    let x = chars_of(a);
    let y = chars_of(b);
    let mut i: usize = 0;
    assert(x@.skip(0) =~= x@);
    assert(y@.skip(0) =~= y@);
    while i < x.len() && i < y.len()
        invariant
            i <= x.len(),
            i <= y.len(),
            text_order(a@, b@) == text_order(x@.skip(i as int), y@.skip(i as int)),
            x@ == a@,
            y@ == b@,
        decreases x.len() - i,
    {
        let ghost xs = x@.skip(i as int);
        let ghost ys = y@.skip(i as int);
        assert(xs[0] == x@[i as int]);
        assert(ys[0] == y@[i as int]);
        if x[i] != y[i] {
            if x[i] < y[i] {
                return RowOrder::Less;
            } else {
                return RowOrder::Greater;
            }
        }
        assert(xs.drop_first() =~= x@.skip(i + 1));
        assert(ys.drop_first() =~= y@.skip(i + 1));
        i = i + 1;
    }
    let ghost xs = x@.skip(i as int);
    let ghost ys = y@.skip(i as int);
    if i < y.len() {
        assert(xs.len() == 0);
        RowOrder::Less
    } else if i < x.len() {
        assert(ys.len() == 0);
        RowOrder::Greater
    } else {
        assert(xs.len() == 0 && ys.len() == 0);
        RowOrder::Equal
    }
}

/// The fields of a table row that the table sorts by.
#[derive(Debug, Clone, PartialEq, Eq)]
pub struct DownloadRowKeys {
    pub file_name: String,
    pub size_bytes: Option<Bytes>,
    pub status: DownloadStatus,
    pub speed_bps: u64,
    pub time_left: Option<u64>,
    pub date_added: String,
}

/// Sort key of a remaining time: an unknown time sorts after every known one.
pub open spec fn time_left_key(time_left: Option<u64>) -> u64 {
    match time_left {
        Some(t) => t,
        None => u64::MAX,
    }
}

/// Sort key of an optional size: an unknown size sorts as zero.
pub open spec fn size_key(size: Option<Bytes>) -> u64 {
    match size {
        Some(b) => b@,
        None => 0,
    }
}

impl SortState {
    /// How row `a` compares to row `b` under this sort, in ascending order of the
    /// column's key, reversed when descending.
    pub open spec fn row_order(self, a: DownloadRowKeys, b: DownloadRowKeys) -> RowOrder {
        let ascending = match self.column {
            TableColumn::Name => text_order(a.file_name@, b.file_name@),
            TableColumn::Size => number_order(size_key(a.size_bytes) as int, size_key(b.size_bytes) as int),
            TableColumn::Status => number_order(status_rank(a.status) as int, status_rank(b.status) as int),
            TableColumn::Speed => number_order(a.speed_bps as int, b.speed_bps as int),
            TableColumn::TimeLeft => number_order(time_left_key(a.time_left) as int, time_left_key(b.time_left) as int),
            TableColumn::DateAdded => text_order(a.date_added@, b.date_added@),
        };
        match self.direction {
            SortDirection::Ascending => ascending,
            SortDirection::Descending => ascending.flipped(),
        }
    }

    /// Compares two rows under this sort.
    pub fn compare(self, a: &DownloadRowKeys, b: &DownloadRowKeys) -> (r: RowOrder)
        ensures
            r == self.row_order(*a, *b),
    {
        let ordering = match self.column {
            TableColumn::Name => text_compare(a.file_name.as_str(), b.file_name.as_str()),
            TableColumn::Size => number_compare(byte_sort_value(a.size_bytes), byte_sort_value(b.size_bytes)),
            TableColumn::Status => number_compare(status_order(a.status) as u64, status_order(b.status) as u64),
            TableColumn::Speed => number_compare(a.speed_bps, b.speed_bps),
            TableColumn::TimeLeft => {
                let x = match a.time_left {
                    Some(t) => t,
                    None => u64::MAX,
                };
                let y = match b.time_left {
                    Some(t) => t,
                    None => u64::MAX,
                };
                number_compare(x, y)
            },
            TableColumn::DateAdded => text_compare(a.date_added.as_str(), b.date_added.as_str()),
        };
        match self.direction {
            SortDirection::Ascending => ordering,
            SortDirection::Descending => ordering.reverse(),
        }
    }
}

/// Texts compare as a total order: a text equals only itself, swapping the texts flips
/// the outcome, and "sorts before" is transitive.
pub proof fn lemma_text_order_total(a: Seq<char>, b: Seq<char>, c: Seq<char>)
    ensures
        text_order(a, a) == RowOrder::Equal,
        text_order(b, a) == text_order(a, b).flipped(),
        text_order(a, b) == RowOrder::Equal ==> a == b,
        text_order(a, b) == RowOrder::Less && text_order(b, c) == RowOrder::Less ==> text_order(a, c)
            == RowOrder::Less,
    decreases a.len(),
{
    if a.len() > 0 && b.len() > 0 && c.len() > 0 {
        lemma_text_order_total(a.drop_first(), b.drop_first(), c.drop_first());
    } else if a.len() > 0 && b.len() > 0 {
        lemma_text_order_total(a.drop_first(), b.drop_first(), b.drop_first());
    } else if a.len() > 0 {
        lemma_text_order_total(a.drop_first(), a.drop_first(), a.drop_first());
    }
    if text_order(a, b) == RowOrder::Equal {
        if a.len() > 0 {
            assert(b.len() > 0);
            assert(a[0] == b[0]) by {
                if a[0] != b[0] {
                    assert((a[0] as int) != (b[0] as int));
                }
            }
            assert(a.drop_first() == b.drop_first());
            assert forall|i: int| 0 <= i < a.len() implies a[i] == b[i] by {
                if i > 0 {
                    assert(a[i] == a.drop_first()[i - 1]);
                    assert(b[i] == b.drop_first()[i - 1]);
                }
            }
        }
        assert(a =~= b);
    }
}

/// Under any sort, rows compare as a total preorder, as sorting requires: a row sorts
/// with itself, swapping two rows flips the outcome, "sorts before" is transitive, and
/// rows that sort together compare alike with every other row.
pub proof fn lemma_row_order_total(
    sort: SortState,
    a: DownloadRowKeys,
    b: DownloadRowKeys,
    c: DownloadRowKeys,
)
    ensures
        sort.row_order(a, a) == RowOrder::Equal,
        sort.row_order(b, a) == sort.row_order(a, b).flipped(),
        sort.row_order(a, b) == RowOrder::Less && sort.row_order(b, c) == RowOrder::Less
            ==> sort.row_order(a, c) == RowOrder::Less,
        sort.row_order(a, b) == RowOrder::Equal ==> sort.row_order(a, c) == sort.row_order(b, c),
{
    lemma_text_order_total(a.file_name@, b.file_name@, c.file_name@);
    lemma_text_order_total(c.file_name@, b.file_name@, a.file_name@);
    lemma_text_order_total(a.file_name@, c.file_name@, b.file_name@);
    lemma_text_order_total(b.file_name@, c.file_name@, a.file_name@);
    lemma_text_order_total(a.date_added@, b.date_added@, c.date_added@);
    lemma_text_order_total(c.date_added@, b.date_added@, a.date_added@);
    lemma_text_order_total(a.date_added@, c.date_added@, b.date_added@);
    lemma_text_order_total(b.date_added@, c.date_added@, a.date_added@);
}

} // verus!

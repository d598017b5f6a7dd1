//! The two kinds of snapshot: a chart series and a status table.
//!
//! Numeric samples are held in millionths of a unit (`250_000` stands for
//! `0.25`), so every snapshot is made of integers and strings alone.
use vstd::prelude::*;

verus! {

/// The state of a table row.
#[derive(Clone, Copy, Debug, PartialEq, Eq, Structural)]
pub enum Status {
    Active,
    Pending,
    Inactive,
}

/// The name under which a status is published.
pub open spec fn status_name(s: Status) -> Seq<char> {
    match s {
        Status::Active => seq!['A', 'c', 't', 'i', 'v', 'e'],
        Status::Pending => seq!['P', 'e', 'n', 'd', 'i', 'n', 'g'],
        Status::Inactive => seq!['I', 'n', 'a', 'c', 't', 'i', 'v', 'e'],
    }
}

impl Status {
    /// The published name of the status.
    pub fn as_str(&self) -> (r: &'static str)
        ensures
            r@ == status_name(*self),
    {
        proof {
            reveal_strlit("Active");
            reveal_strlit("Pending");
            reveal_strlit("Inactive");
        }
        match self {
            Status::Active => "Active",
            Status::Pending => "Pending",
            Status::Inactive => "Inactive",
        }
    }
}

/// A chart: a timestamp and a series of samples, each with its label.
#[derive(Clone, Debug)]
pub struct ChartSnapshot {
    /// Seconds since the Unix epoch.
    pub timestamp: i64,
    /// Samples, in millionths.
    pub values: Vec<i64>,
    /// `labels[i]` names `values[i]`.
    pub labels: Vec<String>,
}

/// What a chart snapshot holds, as mathematical values.
pub ghost struct ChartView {
    pub timestamp: int,
    pub values: Seq<int>,
    pub labels: Seq<Seq<char>>,
}

impl View for ChartSnapshot {
    type V = ChartView;

    open spec fn view(&self) -> ChartView {
        ChartView {
            timestamp: self.timestamp as int,
            values: self.values@.map_values(|v: i64| v as int),
            labels: self.labels@.map_values(|l: String| l@),
        }
    }
}

impl ChartView {
    /// Each sample has exactly one label, at the same position.
    pub open spec fn aligned(self) -> bool {
        self.values.len() == self.labels.len()
    }
}

/// Copies a list of strings, element by element.
fn copy_strings(v: &Vec<String>) -> (r: Vec<String>)
    ensures
        r@.map_values(|s: String| s@) == v@.map_values(|s: String| s@),
{
    let mut r: Vec<String> = Vec::new();
    let mut i: usize = 0;
    while i < v.len()
        invariant
            i <= v.len(),
            r@.len() == i,
            forall|j: int| 0 <= j < i ==> #[trigger] r@[j]@ == v@[j]@,
        decreases v.len() - i,
    {
        r.push(v[i].clone());
        i = i + 1;
    }
    proof {
        assert(r@.map_values(|s: String| s@) =~= v@.map_values(|s: String| s@));
    }
    r
}

/// Copies a list of integers.
fn copy_ints(v: &Vec<i64>) -> (r: Vec<i64>)
    ensures
        r@ == v@,
{
    let mut r: Vec<i64> = Vec::new();
    let mut i: usize = 0;
    while i < v.len()
        invariant
            i <= v.len(),
            r@ == v@.subrange(0, i as int),
        decreases v.len() - i,
    {
        r.push(v[i]);
        i = i + 1;
    }
    r
}

impl ChartSnapshot {
    /// The chart of a freshly started store: timestamp zero, no samples.
    pub fn empty() -> (r: ChartSnapshot)
        ensures
            r@.timestamp == 0,
            r@.values == Seq::<int>::empty(),
            r@.labels == Seq::<Seq<char>>::empty(),
    {
        let r = ChartSnapshot { timestamp: 0, values: Vec::new(), labels: Vec::new() };
        proof {
            assert(r@.values =~= Seq::<int>::empty());
            assert(r@.labels =~= Seq::<Seq<char>>::empty());
        }
        r
    }

    /// An independent copy of the chart, equal to it in every field.
    pub fn deep_copy(&self) -> (r: ChartSnapshot)
        ensures
            r@ == self@,
    {
        ChartSnapshot {
            timestamp: self.timestamp,
            values: copy_ints(&self.values),
            labels: copy_strings(&self.labels),
        }
    }
}

/// One row of the table.
#[derive(Clone, Debug)]
pub struct TableRow {
    pub id: i32,
    pub name: String,
    /// In millionths.
    pub value: i64,
    pub status: Status,
}

/// What a table row holds, as mathematical values.
pub ghost struct RowView {
    pub id: int,
    pub name: Seq<char>,
    pub value: int,
    pub status: Status,
}

impl View for TableRow {
    type V = RowView;

    open spec fn view(&self) -> RowView {
        RowView { id: self.id as int, name: self.name@, value: self.value as int, status: self.status }
    }
}

/// A table: its rows, in order.
#[derive(Clone, Debug)]
pub struct TableSnapshot {
    pub rows: Vec<TableRow>,
}

impl View for TableSnapshot {
    type V = Seq<RowView>;

    open spec fn view(&self) -> Seq<RowView> {
        self.rows@.map_values(|r: TableRow| r@)
    }
}

/// Rows are numbered by their position: the row at `i` has id `i`, so ids
/// are unique.
pub open spec fn numbered(rows: Seq<RowView>) -> bool {
    forall|i: int| 0 <= i < rows.len() ==> #[trigger] rows[i].id == i
}

impl TableRow {
    /// An independent copy of the row.
    pub fn deep_copy(&self) -> (r: TableRow)
        ensures
            r@ == self@,
    {
        TableRow { id: self.id, name: self.name.clone(), value: self.value, status: self.status }
    }
}

impl TableSnapshot {
    /// The table of a freshly started store: no rows.
    pub fn empty() -> (r: TableSnapshot)
        ensures
            r@ == Seq::<RowView>::empty(),
    {
        let r = TableSnapshot { rows: Vec::new() };
        proof {
            assert(r@ =~= Seq::<RowView>::empty());
        }
        r
    }

    /// An independent copy of the table, equal to it row by row.
    pub fn deep_copy(&self) -> (r: TableSnapshot)
        ensures
            r@ == self@,
    {
        let mut rows: Vec<TableRow> = Vec::new();
        let mut i: usize = 0;
        while i < self.rows.len()
            invariant
                i <= self.rows.len(),
                rows@.len() == i,
                forall|j: int| 0 <= j < i ==> #[trigger] rows@[j]@ == self.rows@[j]@,
            decreases self.rows.len() - i,
        {
            rows.push(self.rows[i].deep_copy());
            i = i + 1;
        }
        proof {
            assert(rows@.map_values(|r: TableRow| r@) =~= self.rows@.map_values(|r: TableRow| r@));
        }
        TableSnapshot { rows }
    }
}

} // verus!

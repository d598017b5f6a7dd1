//! Regeneration of the snapshots on each tick: a chart of labelled samples and
//! a table of numbered items, drawn at random and published to the store.
use crate::snapshot::{
    numbered, ChartSnapshot, ChartView, RowView, Status, TableRow, TableSnapshot,
};
use crate::store::SnapshotStore;
use crate::text::{append_decimal, decimal};
use vstd::prelude::*;

verus! {

/// Samples in each generated chart.
pub const CHART_POINTS: usize = 5;

/// Rows in each generated table.
pub const TABLE_ROWS: usize = 10;

/// Chart samples lie in `[-CHART_VALUE_BOUND, CHART_VALUE_BOUND]`, in
/// millionths (so within one hundred units of zero).
pub const CHART_VALUE_BOUND: i64 = 100_000_000;

/// Table values lie in `[0, TABLE_VALUE_LIMIT)`, in millionths (so below one
/// thousand units).
pub const TABLE_VALUE_LIMIT: i64 = 1_000_000_000;

/// Seconds between two ticks unless configured otherwise.
pub const DEFAULT_PERIOD_SECS: u64 = 5;

/// The label of the sample at position `i`: `Series {i}`.
pub open spec fn series_label(i: nat) -> Seq<char> {
    seq!['S', 'e', 'r', 'i', 'e', 's', ' '] + decimal(i)
}

/// The name of the item with id `i`: `Item {i}`.
pub open spec fn item_name(i: nat) -> Seq<char> {
    seq!['I', 't', 'e', 'm', ' '] + decimal(i)
}

/// The status that a draw `k` out of three selects.
pub open spec fn status_of_index(k: nat) -> Status {
    if k == 0 {
        Status::Active
    } else if k == 1 {
        Status::Pending
    } else {
        Status::Inactive
    }
}

/// The chart made of `values` taken at `timestamp`, labelled by position.
pub open spec fn chart_of(timestamp: int, values: Seq<int>) -> ChartView {
    ChartView {
        timestamp,
        values,
        labels: Seq::new(values.len(), |i: int| series_label(i as nat)),
    }
}

/// The row at position `i`, with the given value and status.
pub open spec fn row_of(i: nat, value: int, status: Status) -> RowView {
    RowView { id: i as int, name: item_name(i), value, status }
}

/// The shape of every chart a tick produces: five samples, each within the
/// chart bound, labelled `Series 0` to `Series 4` in order.
pub open spec fn refreshed_chart(c: ChartView) -> bool {
    &&& c.values.len() == CHART_POINTS
    &&& c.labels.len() == CHART_POINTS
    &&& forall|i: int| 0 <= i < c.labels.len() ==> #[trigger] c.labels[i] == series_label(i as nat)
    &&& forall|i: int|
        0 <= i < c.values.len() ==> -CHART_VALUE_BOUND <= #[trigger] c.values[i]
            <= CHART_VALUE_BOUND
}

/// The shape of every table a tick produces: ten rows with ids 0 to 9 in
/// order, each named `Item {id}`, with a value in `[0, TABLE_VALUE_LIMIT)`.
pub open spec fn refreshed_table(t: Seq<RowView>) -> bool {
    &&& t.len() == TABLE_ROWS
    &&& forall|i: int|
        0 <= i < t.len() ==> {
            &&& #[trigger] t[i].id == i
            &&& t[i].name == item_name(i as nat)
            &&& 0 <= t[i].value < TABLE_VALUE_LIMIT
        }
}

/// `prefix` followed by the decimal digits of `n`.
fn prefixed_number(prefix: &str, n: u64) -> (r: String)
    ensures
        r@ == prefix@ + decimal(n as nat),
{
    let mut s = String::from_str(prefix);
    append_decimal(&mut s, n);
    s
}

/// The label of the sample at position `i`.
pub fn series_label_string(i: u64) -> (r: String)
    ensures
        r@ == series_label(i as nat),
{
    proof {
        reveal_strlit("Series ");
    }
    prefixed_number("Series ", i)
}

/// The name of the item with id `i`.
pub fn item_name_string(i: u64) -> (r: String)
    ensures
        r@ == item_name(i as nat),
{
    proof {
        reveal_strlit("Item ");
    }
    prefixed_number("Item ", i)
}

/// The status selected by a draw `k` out of three.
pub fn status_from_index(k: usize) -> (r: Status)
    requires
        k < 3,
    ensures
        r == status_of_index(k as nat),
{
    if k == 0 {
        Status::Active
    } else if k == 1 {
        Status::Pending
    } else {
        Status::Inactive
    }
}

/// The chart made of the samples `values` taken at `timestamp`, labelled
/// `Series {i}` at each position `i`.
pub fn chart_from_samples(timestamp: i64, values: Vec<i64>) -> (r: ChartSnapshot)
    ensures
        r@ == chart_of(timestamp as int, values@.map_values(|v: i64| v as int)),
{
    let mut labels: Vec<String> = Vec::new();
    let mut i: usize = 0;
    while i < values.len()
        invariant
            i <= values.len(),
            labels@.len() == i,
            forall|j: int| 0 <= j < i ==> #[trigger] labels@[j]@ == series_label(j as nat),
        decreases values.len() - i,
    {
        labels.push(series_label_string(i as u64));
        i = i + 1;
    }
    let r = ChartSnapshot { timestamp, values, labels };
    proof {
        assert(r@.labels =~= Seq::new(values@.len(), |i: int| series_label(i as nat)));
    }
    r
}

/// The table whose row `i` has id `i`, name `Item {i}`, value `values[i]` and
/// the status selected by `statuses[i]`.
pub fn table_from_samples(values: Vec<i64>, statuses: Vec<usize>) -> (r: TableSnapshot)
    requires
        values.len() == statuses.len(),
        values.len() <= i32::MAX,
        forall|i: int| 0 <= i < statuses.len() ==> #[trigger] statuses[i] < 3,
    ensures
        r@ == Seq::new(
            values.len() as nat,
            |i: int| row_of(i as nat, values[i] as int, status_of_index(statuses[i] as nat)),
        ),
{
    let mut rows: Vec<TableRow> = Vec::new();
    let mut i: usize = 0;
    while i < values.len()
        invariant
            i <= values.len(),
            values.len() == statuses.len(),
            values.len() <= i32::MAX,
            forall|j: int| 0 <= j < statuses.len() ==> #[trigger] statuses[j] < 3,
            rows@.len() == i,
            forall|j: int|
                0 <= j < i ==> #[trigger] rows@[j]@ == row_of(
                    j as nat,
                    values[j] as int,
                    status_of_index(statuses[j] as nat),
                ),
        decreases values.len() - i,
    {
        let row = TableRow {
            id: i as i32,
            name: item_name_string(i as u64),
            value: values[i],
            status: status_from_index(statuses[i]),
        };
        rows.push(row);
        i = i + 1;
    }
    let r = TableSnapshot { rows };
    proof {
        assert(r@ =~= Seq::new(
            values.len() as nat,
            |i: int| row_of(i as nat, values[i] as int, status_of_index(statuses[i] as nat)),
        ));
    }
    r
}

/// Relies on `rand::Rng::gen_range` over `thread_rng`: an integer drawn from
/// the inclusive range `[lo, hi]`, which must not be empty.
#[verifier::external_body]
fn draw_between(lo: i64, hi: i64) -> (r: i64)
    requires
        lo <= hi,
    ensures
        lo <= r <= hi,
{
    rand::Rng::gen_range(&mut rand::thread_rng(), lo..=hi)
}

/// Relies on `chrono::Utc::now` and `DateTime::timestamp`: the current time,
/// in whole seconds since the Unix epoch.
#[verifier::external_body]
fn now_timestamp() -> (r: i64) {
    chrono::Utc::now().timestamp()
}

/// `n` samples drawn from `[lo, hi]`.
fn draw_samples(n: usize, lo: i64, hi: i64) -> (r: Vec<i64>)
    requires
        lo <= hi,
    ensures
        r@.len() == n,
        forall|i: int| 0 <= i < n ==> lo <= #[trigger] r@[i] <= hi,
{
    let mut r: Vec<i64> = Vec::new();
    let mut i: usize = 0;
    while i < n
        invariant
            i <= n,
            lo <= hi,
            r@.len() == i,
            forall|j: int| 0 <= j < i ==> lo <= #[trigger] r@[j] <= hi,
        decreases n - i,
    {
        r.push(draw_between(lo, hi));
        i = i + 1;
    }
    r
}

/// A new chart, taken now: five samples drawn from the chart range, labelled
/// by position.
pub fn generate_chart() -> (r: ChartSnapshot)
    ensures
        refreshed_chart(r@),
{
    let timestamp = now_timestamp();
    let values = draw_samples(CHART_POINTS, -CHART_VALUE_BOUND, CHART_VALUE_BOUND);
    chart_from_samples(timestamp, values)
}

/// A new table: ten numbered rows, each with a value drawn from the table
/// range and a status drawn from the three statuses.
pub fn generate_table() -> (r: TableSnapshot)
    ensures
        refreshed_table(r@),
{
    let values = draw_samples(TABLE_ROWS, 0, TABLE_VALUE_LIMIT - 1);
    let draws = draw_samples(TABLE_ROWS, 0, 2);
    let mut statuses: Vec<usize> = Vec::new();
    let mut i: usize = 0;
    while i < draws.len()
        invariant
            i <= draws.len(),
            statuses@.len() == i,
            forall|j: int| 0 <= j < draws.len() ==> 0 <= #[trigger] draws@[j] <= 2,
            forall|j: int| 0 <= j < i ==> #[trigger] statuses@[j] == draws@[j] as usize,
        decreases draws.len() - i,
    {
        statuses.push(draws[i] as usize);
        i = i + 1;
    }
    table_from_samples(values, statuses)
}

/// How often the refresher ticks.
#[derive(Clone, Copy, Debug, PartialEq, Eq, Structural)]
pub struct RefreshConfig {
    /// Seconds between two ticks.
    pub period_secs: u64,
}

impl Default for RefreshConfig {
    /// Ticks every `DEFAULT_PERIOD_SECS` seconds.
    fn default() -> (r: RefreshConfig)
        ensures
            r.period_secs == DEFAULT_PERIOD_SECS,
    {
        RefreshConfig { period_secs: DEFAULT_PERIOD_SECS }
    }
}

/// One tick: generates a new chart and a new table and publishes both.
pub fn tick(store: &SnapshotStore) {
    let chart = generate_chart();
    let table = generate_table();
    proof {
        lemma_refreshed_chart_aligned(chart@);
        lemma_refreshed_table_numbered(table@);
    }
    store.replace_chart(chart);
    store.replace_table(table);
}

/// Every chart a tick produces is aligned, so the store accepts it.
pub proof fn lemma_refreshed_chart_aligned(c: ChartView)
    requires
        refreshed_chart(c),
    ensures
        c.aligned(),
{
}

/// Every table a tick produces is numbered by position, so the store accepts
/// it.
pub proof fn lemma_refreshed_table_numbered(t: Seq<RowView>)
    requires
        refreshed_table(t),
    ensures
        numbered(t),
{
}

} // verus!

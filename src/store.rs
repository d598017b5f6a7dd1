//! The store of current snapshots: one lock per kind of snapshot, each holding
//! a shared pointer to an immutable snapshot. A writer swaps the pointer; a
//! reader takes a second pointer to the same snapshot and copies it after the
//! lock is released, so no lock is held for longer than a pointer swap.
use crate::snapshot::{numbered, ChartSnapshot, TableSnapshot};
use std::sync::Arc;
use vstd::prelude::*;
use vstd::rwlock::{RwLock, RwLockPredicate};

verus! {

/// What every chart held by the store satisfies: its samples and labels are
/// aligned.
pub struct ChartAligned {}

impl RwLockPredicate<Arc<ChartSnapshot>> for ChartAligned {
    open spec fn inv(self, v: Arc<ChartSnapshot>) -> bool {
        v@.aligned()
    }
}

/// What every table held by the store satisfies: its rows are numbered by
/// position.
pub struct TableNumbered {}

impl RwLockPredicate<Arc<TableSnapshot>> for TableNumbered {
    open spec fn inv(self, v: Arc<TableSnapshot>) -> bool {
        numbered(v@)
    }
}

/// Relies on `Arc::clone`: the new pointer points to the same value.
#[verifier::external_body]
fn share<T>(a: &Arc<T>) -> (r: Arc<T>)
    ensures
        *r == **a,
{
    Arc::clone(a)
}

/// The current chart and the current table, each replaced wholesale and read
/// as a whole.
pub struct SnapshotStore {
    chart: RwLock<Arc<ChartSnapshot>, ChartAligned>,
    table: RwLock<Arc<TableSnapshot>, TableNumbered>,
}

impl SnapshotStore {
    /// A store that holds the empty chart and the empty table.
    pub fn new() -> (r: SnapshotStore) {
        let chart = Arc::new(ChartSnapshot::empty());
        let table = Arc::new(TableSnapshot::empty());
        SnapshotStore {
            chart: RwLock::new(chart, Ghost(ChartAligned {})),
            table: RwLock::new(table, Ghost(TableNumbered {})),
        }
    }

    /// Makes `new` the current chart. The previous chart is released after
    /// the lock is.
    pub fn replace_chart(&self, new: ChartSnapshot)
        requires
            new@.aligned(),
    {
        let (_previous, handle) = self.chart.acquire_write();
        handle.release_write(Arc::new(new));
    }

    /// Makes `new` the current table. The previous table is released after
    /// the lock is.
    pub fn replace_table(&self, new: TableSnapshot)
        requires
            numbered(new@),
    {
        let (_previous, handle) = self.table.acquire_write();
        handle.release_write(Arc::new(new));
    }

    /// A copy of the chart that is current at the moment of the call.
    pub fn read_chart(&self) -> (r: ChartSnapshot)
        ensures
            r@.aligned(),
    {
        let handle = self.chart.acquire_read();
        let current = share(handle.borrow());
        handle.release_read();
        current.deep_copy()
    }

    /// A copy of the table that is current at the moment of the call.
    pub fn read_table(&self) -> (r: TableSnapshot)
        ensures
            numbered(r@),
    {
        let handle = self.table.acquire_read();
        let current = share(handle.borrow());
        handle.release_read();
        current.deep_copy()
    }
}

} // verus!

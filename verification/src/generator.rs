//! The pull-based record generator: produces records one at a time so a
//! caller controls memory and backpressure, suspending between rows simply by
//! not calling `next`.

use vstd::prelude::*;

use crate::record::BenchmarkLog;
use crate::record::is_log_for;
use crate::record::log_for_id;

verus! {

/// A lazy sequence of exactly `num_rows` records with ids `0..num_rows`, in
/// order. Each call to [`LogGenerator::next`] yields the next record.
pub struct LogGenerator {
    /// How many records the sequence holds in total.
    pub num_rows: u64,
    /// The index of the next record to yield.
    pub next_id: u64,
}

/// Starts the record sequence for `num_rows` rows.
pub fn generate_logs(num_rows: u64) -> (g: LogGenerator)
    ensures
        g.num_rows == num_rows,
        g.next_id == 0,
{
    LogGenerator { num_rows, next_id: 0 }
}

impl LogGenerator {
    /// Yields the record with the next index, or `None` once `num_rows`
    /// records have been produced.
    pub fn next(&mut self) -> (r: Option<BenchmarkLog>)
        ensures
            final(self).num_rows == old(self).num_rows,
            match r {
                Some(rec) => {
                    &&& old(self).next_id < old(self).num_rows
                    &&& is_log_for(rec, old(self).next_id as int)
                    &&& final(self).next_id == old(self).next_id + 1
                },
                None => {
                    &&& old(self).next_id >= old(self).num_rows
                    &&& final(self).next_id == old(self).next_id
                },
            },
    {
        if self.next_id < self.num_rows {
            let rec = log_for_id(self.next_id);
            self.next_id = self.next_id + 1;
            Some(rec)
        } else {
            None
        }
    }
}

} // verus!

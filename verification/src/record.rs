//! The log record: every field is a pure function of the record index and the
//! fixed tables, so generation is deterministic and replayable.

use vstd::prelude::*;

use crate::tables::TABLE_SIZE;
use crate::tables::country_at;
use crate::tables::label_at;
use crate::tables::message_at;
use crate::tables::spec_country;
use crate::tables::spec_label;
use crate::tables::spec_message;
use crate::text::metadata_string;
use crate::text::spec_json_metadata;

verus! {

/// The epoch seconds of the start of the two-year timestamp window.
pub const BASE_TIMESTAMP: u64 = 1577836800;

/// Seconds in one day.
pub const SECONDS_PER_DAY: u64 = 86400;

/// Timestamps cycle through this many consecutive days.
pub const TIMESTAMP_DAY_CYCLE: u64 = 731;

/// Severity cycles through this many levels, starting at 1.
pub const SEVERITY_LEVELS: u64 = 5;

/// The metadata value cycles through `1..=METADATA_VALUE_CYCLE`.
pub const METADATA_VALUE_CYCLE: u64 = 1000;

/// One synthesized log record.
#[derive(Debug)]
pub struct BenchmarkLog {
    pub id: u64,
    pub message: &'static str,
    pub country: &'static str,
    pub severity: i32,
    pub timestamp: u64,
    pub metadata: String,
}

/// The severity of the record with index `id`: `(id mod 5) + 1`.
pub open spec fn spec_severity(id: int) -> int {
    id % (SEVERITY_LEVELS as int) + 1
}

/// The timestamp of the record with index `id`: the base epoch plus a whole
/// number of days, cycling through a two-year window.
pub open spec fn spec_timestamp(id: int) -> int {
    BASE_TIMESTAMP as int + SECONDS_PER_DAY as int * (id % (TIMESTAMP_DAY_CYCLE as int))
}

/// The metadata value of the record with index `id`: `(id mod 1000) + 1`.
pub open spec fn spec_metadata_value(id: int) -> int {
    id % (METADATA_VALUE_CYCLE as int) + 1
}

/// The serialized metadata of the record with index `id`.
pub open spec fn spec_metadata(id: int) -> Seq<char> {
    spec_json_metadata(spec_metadata_value(id), spec_label(id % (TABLE_SIZE as int)))
}

/// The record with index `id`: each field pinned to its defining formula.
pub open spec fn is_log_for(r: BenchmarkLog, id: int) -> bool {
    &&& r.id == id
    &&& r.message@ == spec_message(id % (TABLE_SIZE as int))
    &&& r.country@ == spec_country(id % (TABLE_SIZE as int))
    &&& r.severity == spec_severity(id)
    &&& r.timestamp == spec_timestamp(id)
    &&& r.metadata@ == spec_metadata(id)
}

/// Synthesizes the record with index `id`.
pub fn log_for_id(id: u64) -> (r: BenchmarkLog)
    ensures
        is_log_for(r, id as int),
{
    let message = message_at(id % TABLE_SIZE);
    let country = country_at(id % TABLE_SIZE);
    let label = label_at(id % TABLE_SIZE);
    let severity: i32 = (id % SEVERITY_LEVELS) as i32 + 1;
    let days: u64 = id % TIMESTAMP_DAY_CYCLE;
    let timestamp: u64 = BASE_TIMESTAMP + SECONDS_PER_DAY * days;
    let value: u64 = id % METADATA_VALUE_CYCLE + 1;
    let metadata = metadata_string(value, label);
    BenchmarkLog { id, message, country, severity, timestamp, metadata }
}

/// Severity always lies in `{1, 2, 3, 4, 5}` and follows its formula.
pub proof fn lemma_severity_bounds(id: int)
    requires
        id >= 0,
    ensures
        spec_severity(id) == id % 5 + 1,
        1 <= spec_severity(id) <= 5,
{
}

/// Timestamps follow their formula and stay within the two-year window
/// `[BASE_TIMESTAMP, BASE_TIMESTAMP + 86400 * 730]`.
pub proof fn lemma_timestamp_bounds(id: int)
    requires
        id >= 0,
    ensures
        spec_timestamp(id) == BASE_TIMESTAMP + 86400 * (id % 731),
        BASE_TIMESTAMP <= spec_timestamp(id) <= BASE_TIMESTAMP + 86400 * 730,
{
}

/// Generation is deterministic: any two records synthesized for the same
/// index agree byte for byte on every field.
pub proof fn lemma_generation_deterministic(r1: BenchmarkLog, r2: BenchmarkLog, id: int)
    requires
        is_log_for(r1, id),
        is_log_for(r2, id),
    ensures
        r1.id == r2.id,
        r1.message@ == r2.message@,
        r1.country@ == r2.country@,
        r1.severity == r2.severity,
        r1.timestamp == r2.timestamp,
        r1.metadata@ == r2.metadata@,
{
}

} // verus!

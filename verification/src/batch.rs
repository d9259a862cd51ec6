//! The chunked columnar builder: drives the record generator, partitions the
//! record sequence into fixed-size chunks, and materializes each chunk as an
//! immutable columnar batch with one equal-length typed column per field.

use vstd::prelude::*;

use vstd::arithmetic::div_mod::lemma_basic_div;
use vstd::arithmetic::div_mod::lemma_div_plus_one;
use vstd::arithmetic::mul::lemma_mul_inequality;

use crate::generator::LogGenerator;
use crate::generator::generate_logs;
use crate::record::spec_metadata;
use crate::record::spec_severity;
use crate::record::spec_timestamp;
use crate::tables::TABLE_SIZE;
use crate::tables::message_at;
use crate::tables::spec_country;
use crate::tables::spec_message;
use crate::text::contains_str;
use crate::text::spec_contains;

verus! {

/// The smaller of two integers.
pub open spec fn spec_min(a: int, b: int) -> int {
    if a <= b {
        a
    } else {
        b
    }
}

/// The scalar type of one schema field.
#[derive(Clone, Copy, Debug, PartialEq, Eq, Structural)]
pub enum FieldType {
    U64,
    Utf8,
    Bool,
    I32,
}

/// One field of the batch schema.
#[derive(Clone, Copy, Debug)]
pub struct Field {
    pub name: &'static str,
    pub dtype: FieldType,
    pub nullable: bool,
}

/// The fixed output schema, in positional order. Downstream consumers infer
/// row identity from position, so the order matters.
pub fn benchmark_log_schema() -> (s: Vec<Field>)
    ensures
        s@.len() == 8,
        s@[0].name@ == "id"@ && s@[0].dtype == FieldType::U64,
        s@[1].name@ == "message"@ && s@[1].dtype == FieldType::Utf8,
        s@[2].name@ == "message_matches_research"@ && s@[2].dtype == FieldType::Bool,
        s@[3].name@ == "message_matches_team"@ && s@[3].dtype == FieldType::Bool,
        s@[4].name@ == "country"@ && s@[4].dtype == FieldType::Utf8,
        s@[5].name@ == "severity"@ && s@[5].dtype == FieldType::I32,
        s@[6].name@ == "timestamp"@ && s@[6].dtype == FieldType::U64,
        s@[7].name@ == "metadata"@ && s@[7].dtype == FieldType::Utf8,
        forall|k: int| 0 <= k < 8 ==> !(#[trigger] s@[k].nullable),
{
    let mut s: Vec<Field> = Vec::new();
    s.push(Field { name: "id", dtype: FieldType::U64, nullable: false });
    s.push(Field { name: "message", dtype: FieldType::Utf8, nullable: false });
    s.push(Field { name: "message_matches_research", dtype: FieldType::Bool, nullable: false });
    s.push(Field { name: "message_matches_team", dtype: FieldType::Bool, nullable: false });
    s.push(Field { name: "country", dtype: FieldType::Utf8, nullable: false });
    s.push(Field { name: "severity", dtype: FieldType::I32, nullable: false });
    s.push(Field { name: "timestamp", dtype: FieldType::U64, nullable: false });
    s.push(Field { name: "metadata", dtype: FieldType::Utf8, nullable: false });
    s
}

/// One chunk's rows in columnar form: one typed column per schema field, all
/// columns of equal length, none nullable. Never mutated after finalization.
#[derive(Debug)]
pub struct ColumnarBatch {
    pub id: Vec<u64>,
    pub message: Vec<&'static str>,
    pub message_matches_research: Vec<bool>,
    pub message_matches_team: Vec<bool>,
    pub country: Vec<&'static str>,
    pub severity: Vec<i32>,
    pub timestamp: Vec<u64>,
    pub metadata: Vec<String>,
}

/// Row `j` of the batch holds exactly the fields of the record with index
/// `id`, with the two derived booleans computed by substring containment
/// against the message.
pub open spec fn row_is(b: ColumnarBatch, j: int, id: int) -> bool {
    &&& b.id@[j] == id
    &&& b.message@[j]@ == spec_message(id % (TABLE_SIZE as int))
    &&& b.message_matches_research@[j] == spec_contains(
        spec_message(id % (TABLE_SIZE as int)),
        "research"@,
    )
    &&& b.message_matches_team@[j] == spec_contains(
        spec_message(id % (TABLE_SIZE as int)),
        "team"@,
    )
    &&& b.country@[j]@ == spec_country(id % (TABLE_SIZE as int))
    &&& b.severity@[j] == spec_severity(id)
    &&& b.timestamp@[j] == spec_timestamp(id)
    &&& b.metadata@[j]@ == spec_metadata(id)
}

impl ColumnarBatch {
    /// All eight columns have the same length.
    pub open spec fn well_formed(self) -> bool {
        &&& self.message@.len() == self.id@.len()
        &&& self.message_matches_research@.len() == self.id@.len()
        &&& self.message_matches_team@.len() == self.id@.len()
        &&& self.country@.len() == self.id@.len()
        &&& self.severity@.len() == self.id@.len()
        &&& self.timestamp@.len() == self.id@.len()
        &&& self.metadata@.len() == self.id@.len()
    }

    /// The batch's row count.
    pub open spec fn spec_rows(self) -> int {
        self.id@.len() as int
    }

    /// The batch holds, in generation order, the records with indices
    /// `start..start + spec_rows()`.
    pub open spec fn covers(self, start: int) -> bool {
        &&& self.well_formed()
        &&& forall|j: int| 0 <= j < self.spec_rows() ==> #[trigger] row_is(self, j, start + j)
    }

    /// The row count of the batch.
    pub fn row_count(&self) -> (n: usize)
        ensures
            n == self.spec_rows(),
    {
        self.id.len()
    }
}

/// A configuration rejected before generation starts.
#[derive(Clone, Copy, Debug, PartialEq, Eq, Structural)]
pub enum ConfigError {
    /// The chunk size must be at least 1.
    ZeroChunkSize,
}

/// A lazy sequence of columnar batches: each call to
/// [`BatchStream::next_batch`] drives the generator for up to one chunk of
/// records and finalizes them into one batch.
pub struct BatchStream {
    pub gen: LogGenerator,
    pub chunk_size: usize,
    pub research_flags: Vec<bool>,
    pub team_flags: Vec<bool>,
}

impl BatchStream {
    /// The stream's internal invariant: a positive chunk size, a generator
    /// position within bounds, and one correctly precomputed derived flag per
    /// corpus entry and token.
    pub open spec fn wf(self) -> bool {
        &&& self.chunk_size >= 1
        &&& self.gen.next_id <= self.gen.num_rows
        &&& self.research_flags@.len() == TABLE_SIZE
        &&& self.team_flags@.len() == TABLE_SIZE
        &&& forall|k: int|
            0 <= k < TABLE_SIZE ==> #[trigger] self.research_flags@[k] == spec_contains(
                spec_message(k),
                "research"@,
            )
        &&& forall|k: int|
            0 <= k < TABLE_SIZE ==> #[trigger] self.team_flags@[k] == spec_contains(
                spec_message(k),
                "team"@,
            )
    }

    /// Builds and yields the next batch: `chunk_size` rows, or the shorter
    /// final chunk, or `None` once the record sequence is exhausted.
    pub fn next_batch(&mut self) -> (r: Option<ColumnarBatch>)
        requires
            old(self).wf(),
        ensures
            final(self).wf(),
            final(self).chunk_size == old(self).chunk_size,
            final(self).gen.num_rows == old(self).gen.num_rows,
            match r {
                Some(b) => {
                    &&& old(self).gen.next_id < old(self).gen.num_rows
                    &&& b.covers(old(self).gen.next_id as int)
                    &&& b.spec_rows() == spec_min(
                        old(self).chunk_size as int,
                        old(self).gen.num_rows - old(self).gen.next_id,
                    )
                    &&& final(self).gen.next_id == old(self).gen.next_id + b.spec_rows()
                },
                None => {
                    &&& old(self).gen.next_id == old(self).gen.num_rows
                    &&& final(self).gen.next_id == old(self).gen.next_id
                },
            },
    {
        if self.gen.next_id >= self.gen.num_rows {
            return None;
        }
        let ghost start = self.gen.next_id as int;
        let mut id_col: Vec<u64> = Vec::new();
        let mut message_col: Vec<&'static str> = Vec::new();
        let mut research_col: Vec<bool> = Vec::new();
        let mut team_col: Vec<bool> = Vec::new();
        let mut country_col: Vec<&'static str> = Vec::new();
        let mut severity_col: Vec<i32> = Vec::new();
        let mut timestamp_col: Vec<u64> = Vec::new();
        let mut metadata_col: Vec<String> = Vec::new();
        let mut built: usize = 0;
        while built < self.chunk_size && self.gen.next_id < self.gen.num_rows
            invariant
                self.wf(),
                self.chunk_size == old(self).chunk_size,
                self.gen.num_rows == old(self).gen.num_rows,
                self.gen.next_id == start + built,
                built <= self.chunk_size,
                start == old(self).gen.next_id,
                id_col@.len() == built,
                message_col@.len() == built,
                research_col@.len() == built,
                team_col@.len() == built,
                country_col@.len() == built,
                severity_col@.len() == built,
                timestamp_col@.len() == built,
                metadata_col@.len() == built,
                forall|j: int| 0 <= j < built ==> #[trigger] id_col@[j] == start + j,
                forall|j: int|
                    0 <= j < built ==> #[trigger] message_col@[j]@ == spec_message(
                        (start + j) % (TABLE_SIZE as int),
                    ),
                forall|j: int|
                    0 <= j < built ==> #[trigger] research_col@[j] == spec_contains(
                        spec_message((start + j) % (TABLE_SIZE as int)),
                        "research"@,
                    ),
                forall|j: int|
                    0 <= j < built ==> #[trigger] team_col@[j] == spec_contains(
                        spec_message((start + j) % (TABLE_SIZE as int)),
                        "team"@,
                    ),
                forall|j: int|
                    0 <= j < built ==> #[trigger] country_col@[j]@ == spec_country(
                        (start + j) % (TABLE_SIZE as int),
                    ),
                forall|j: int|
                    0 <= j < built ==> #[trigger] severity_col@[j] == spec_severity(start + j),
                forall|j: int|
                    0 <= j < built ==> #[trigger] timestamp_col@[j] == spec_timestamp(start + j),
                forall|j: int|
                    0 <= j < built ==> #[trigger] metadata_col@[j]@ == spec_metadata(start + j),
            decreases self.chunk_size - built,
        {
            let rec_opt = self.gen.next();
            let rec = rec_opt.unwrap();
            let flag_index = (rec.id % TABLE_SIZE) as usize;
            id_col.push(rec.id);
            message_col.push(rec.message);
            research_col.push(self.research_flags[flag_index]);
            team_col.push(self.team_flags[flag_index]);
            country_col.push(rec.country);
            severity_col.push(rec.severity);
            timestamp_col.push(rec.timestamp);
            metadata_col.push(rec.metadata);
            built = built + 1;
        }
        let b = ColumnarBatch {
            id: id_col,
            message: message_col,
            message_matches_research: research_col,
            message_matches_team: team_col,
            country: country_col,
            severity: severity_col,
            timestamp: timestamp_col,
            metadata: metadata_col,
        };
        proof {
            assert forall|j: int| 0 <= j < b.spec_rows() implies #[trigger] row_is(
                b,
                j,
                start + j,
            ) by {}
            assert(b.covers(start));
        }
        Some(b)
    }
}

/// Starts the batch sequence for `row_count` rows in chunks of `chunk_size`.
/// A zero chunk size is rejected synchronously, before generation starts.
pub fn generate_columnar_batches(row_count: u64, chunk_size: usize) -> (r: Result<
    BatchStream,
    ConfigError,
>)
    ensures
        match r {
            Ok(s) => {
                &&& chunk_size >= 1
                &&& s.wf()
                &&& s.gen.num_rows == row_count
                &&& s.gen.next_id == 0
                &&& s.chunk_size == chunk_size
            },
            Err(e) => chunk_size == 0 && e == ConfigError::ZeroChunkSize,
        },
{
    if chunk_size == 0 {
        return Err(ConfigError::ZeroChunkSize);
    }
    let mut research_flags: Vec<bool> = Vec::new();
    let mut team_flags: Vec<bool> = Vec::new();
    let mut k: u64 = 0;
    while k < TABLE_SIZE
        invariant
            k <= TABLE_SIZE,
            research_flags@.len() == k,
            team_flags@.len() == k,
            forall|j: int|
                0 <= j < k ==> #[trigger] research_flags@[j] == spec_contains(
                    spec_message(j),
                    "research"@,
                ),
            forall|j: int|
                0 <= j < k ==> #[trigger] team_flags@[j] == spec_contains(
                    spec_message(j),
                    "team"@,
                ),
        decreases TABLE_SIZE - k,
    {
        let msg = message_at(k);
        research_flags.push(contains_str(msg, "research"));
        team_flags.push(contains_str(msg, "team"));
        k = k + 1;
    }
    Ok(BatchStream { gen: generate_logs(row_count), chunk_size, research_flags, team_flags })
}

/// The total number of rows over a sequence of batches.
pub open spec fn total_rows(s: Seq<ColumnarBatch>) -> int
    decreases s.len(),
{
    if s.len() == 0 {
        0
    } else {
        total_rows(s.drop_last()) + s.last().spec_rows()
    }
}

/// How many chunks `n` rows fall into at `c` rows per chunk: one per full
/// chunk plus one for a partial final chunk, i.e. the ceiling of `n / c`
/// (see [`lemma_num_batches_is_ceil`]).
pub open spec fn spec_num_batches(n: int, c: int) -> int
    decreases n,
{
    if n <= 0 || c <= 0 {
        0
    } else if n <= c {
        1
    } else {
        1 + spec_num_batches(n - c, c)
    }
}

/// The chunk count is the ceiling of `n / c`.
pub proof fn lemma_num_batches_is_ceil(n: int, c: int)
    requires
        n >= 0,
        c >= 1,
    ensures
        spec_num_batches(n, c) == (n + c - 1) / c,
    decreases n,
{
    if n == 0 {
        lemma_basic_div(c - 1, c);
    } else {
        lemma_div_plus_one(n - 1, c);
        if n <= c {
            lemma_basic_div(n - 1, c);
        } else {
            lemma_num_batches_is_ceil(n - c, c);
        }
    }
}

/// A sequence of `len` batches, all full but the last and none empty, counts
/// exactly the chunks of `n` rows.
proof fn lemma_batch_count(n: int, c: int, len: int)
    requires
        c >= 1,
        n >= 0,
        len >= 0,
        n <= len * c,
        len > 0 ==> (len - 1) * c < n,
        len == 0 ==> n == 0,
    ensures
        len == spec_num_batches(n, c),
    decreases len,
{
    if len == 0 {
    } else if len == 1 {
    } else {
        assert((len - 1) * c == len * c - c) by (nonlinear_arith);
        assert((len - 2) * c == (len - 1) * c - c) by (nonlinear_arith);
        lemma_mul_inequality(1, len - 1, c);
        assert(c <= (len - 1) * c);
        lemma_batch_count(n - c, c, len - 1);
    }
}

/// Drives the whole batch sequence for `row_count` rows in chunks of
/// `chunk_size` and collects every yielded batch, in order.
///
/// The contract gathers the pipeline's global guarantees: the number of
/// batches is the ceiling of `row_count / chunk_size`, their row counts sum
/// to `row_count`, every batch but the last is full, the last holds the
/// remainder, and batch `k` holds exactly the records with indices
/// `k * chunk_size` onward, in generation order.
pub fn collect_batches(row_count: u64, chunk_size: usize) -> (r: Result<
    Vec<ColumnarBatch>,
    ConfigError,
>)
    ensures
        match r {
            Ok(batches) => {
                &&& chunk_size >= 1
                &&& batches@.len() == spec_num_batches(row_count as int, chunk_size as int)
                &&& batches@.len() == (row_count + chunk_size - 1) / (chunk_size as int)
                &&& total_rows(batches@) == row_count
                &&& forall|k: int|
                    0 <= k < batches@.len() ==> #[trigger] batches@[k].covers(k * chunk_size)
                &&& forall|k: int|
                    0 <= k < batches@.len() ==> #[trigger] batches@[k].spec_rows() == spec_min(
                        chunk_size as int,
                        row_count - k * chunk_size,
                    )
                &&& forall|k: int|
                    0 <= k < batches@.len() - 1 ==> #[trigger] batches@[k].spec_rows()
                        == chunk_size
                &&& batches@.len() > 0 ==> batches@.last().spec_rows() == row_count - chunk_size
                    * (batches@.len() - 1)
            },
            Err(e) => chunk_size == 0 && e == ConfigError::ZeroChunkSize,
        },
{
    let ghost n = row_count as int;
    let ghost c = chunk_size as int;
    let mut stream = match generate_columnar_batches(row_count, chunk_size) {
        Ok(s) => s,
        Err(e) => {
            return Err(e);
        },
    };
    let mut batches: Vec<ColumnarBatch> = Vec::new();
    loop
        invariant
            stream.wf(),
            stream.chunk_size == chunk_size,
            stream.gen.num_rows == row_count,
            n == row_count as int,
            c == chunk_size as int,
            c >= 1,
            total_rows(batches@) == stream.gen.next_id,
            stream.gen.next_id as int == spec_min(batches@.len() * c, n),
            forall|k: int| 0 <= k < batches@.len() ==> #[trigger] (k * c) < n,
            forall|k: int| 0 <= k < batches@.len() ==> #[trigger] batches@[k].covers(k * c),
            forall|k: int|
                0 <= k < batches@.len() ==> #[trigger] batches@[k].spec_rows() == spec_min(
                    c,
                    n - k * c,
                ),
        decreases n - stream.gen.next_id,
    {
        let ghost len = batches@.len() as int;
        let ghost prev = batches@;
        match stream.next_batch() {
            Some(b) => {
                proof {
                    assert((len + 1) * c == len * c + c) by (nonlinear_arith);
                    assert(batches@.push(b).drop_last() =~= batches@);
                }
                batches.push(b);
            },
            None => {
                proof {
                    let l = batches@.len() as int;
                    assert(n <= l * c);
                    if l == 0 {
                        assert(n == 0);
                    }
                    lemma_batch_count(n, c, l);
                    lemma_num_batches_is_ceil(n, c);
                    assert forall|k: int| 0 <= k < l - 1 implies #[trigger] batches@[k].spec_rows()
                        == chunk_size by {
                        lemma_mul_inequality(k + 1, l - 1, c);
                        assert((k + 1) * c == k * c + c) by (nonlinear_arith);
                    }
                    if l > 0 {
                        assert((l - 1) * c == l * c - c) by (nonlinear_arith);
                        assert(batches@.last().spec_rows() == spec_min(c, n - (l - 1) * c));
                        assert(n - (l - 1) * c <= c);
                    }
                }
                return Ok(batches);
            },
        }
    }
}

} // verus!

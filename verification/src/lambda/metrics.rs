//! The decisions of invocation metrics: the conditions and texts of the
//! queries, the conversion between invocation records and database rows,
//! and the cutoff of the retention policy.
use vstd::prelude::*;

use crate::ids::{uuid_error_text, uuid_parse, uuid_text};
use crate::lambda::types::{
    invocation_type_of, invocation_type_text, FunctionId, InvocationId, InvocationRecord,
    InvocationType, LambdaError,
};
use crate::text::{join, join_strings, opt_string_view, push_str, string_views};

verus! {

/// The conditions of a metrics query: the function, then (for duration
/// statistics) only invocations with a duration, then the optional start
/// and end of the time range.
pub open spec fn query_conditions(has_start: bool, has_end: bool, with_duration: bool) -> Seq<
    Seq<char>,
> {
    seq!["function_id = ?"@] + (if with_duration {
        seq!["duration_ms IS NOT NULL"@]
    } else {
        Seq::<Seq<char>>::empty()
    }) + (if has_start {
        seq!["started_at >= ?"@]
    } else {
        Seq::<Seq<char>>::empty()
    }) + (if has_end {
        seq!["started_at <= ?"@]
    } else {
        Seq::<Seq<char>>::empty()
    })
}

/// The `WHERE` clause of a metrics query: its conditions joined by `AND`.
pub fn where_clause(start_time: Option<u64>, end_time: Option<u64>, with_duration: bool) -> (r:
    String)
    ensures
        r@ == join(
            query_conditions(start_time is Some, end_time is Some, with_duration),
            " AND "@,
        ),
{
    let mut conditions: Vec<String> = Vec::new();
    conditions.push("function_id = ?".to_owned());
    if with_duration {
        conditions.push("duration_ms IS NOT NULL".to_owned());
    }
    if start_time.is_some() {
        conditions.push("started_at >= ?".to_owned());
    }
    if end_time.is_some() {
        conditions.push("started_at <= ?".to_owned());
    }
    assert(string_views(conditions@) =~= query_conditions(
        start_time is Some,
        end_time is Some,
        with_duration,
    ));
    join_strings(&conditions, " AND ")
}

/// A fixed part of a metrics query.
pub const AGGREGATE_QUERY_HEAD: &'static str = "\n            SELECT\n                COUNT(*) as total_invocations,\n                SUM(CASE WHEN success = 1 THEN 1 ELSE 0 END) as successful_invocations,\n                SUM(CASE WHEN success = 0 THEN 1 ELSE 0 END) as failed_invocations,\n                SUM(CASE WHEN cold_start = 1 THEN 1 ELSE 0 END) as cold_starts,\n                AVG(CASE WHEN duration_ms IS NOT NULL THEN duration_ms ELSE 0 END) as avg_duration_ms\n            FROM invocations\n            WHERE ";

/// A fixed part of a metrics query.
pub const AGGREGATE_QUERY_TAIL: &'static str = "\n            ";

/// A fixed part of a metrics query.
pub const COUNT_QUERY_HEAD: &'static str = "SELECT COUNT(*) as count FROM invocations WHERE ";

/// A fixed part of a metrics query.
pub const PERCENTILE_QUERY_HEAD: &'static str = "\n            SELECT duration_ms\n            FROM invocations\n            WHERE ";

/// A fixed part of a metrics query.
pub const PERCENTILE_QUERY_TAIL: &'static str = "\n            ORDER BY duration_ms\n            LIMIT 1 OFFSET ?\n            ";

/// The query of a function's aggregate counts and average duration.
pub fn aggregate_query(where_clause: &str) -> (r: String)
    ensures
        r@ == AGGREGATE_QUERY_HEAD@ + where_clause@ + AGGREGATE_QUERY_TAIL@,
{
    let mut r = AGGREGATE_QUERY_HEAD.to_owned();
    push_str(&mut r, where_clause);
    push_str(&mut r, AGGREGATE_QUERY_TAIL);
    r
}

/// The query of the number of invocations with a duration.
pub fn count_query(where_clause: &str) -> (r: String)
    ensures
        r@ == COUNT_QUERY_HEAD@ + where_clause@,
{
    let mut r = COUNT_QUERY_HEAD.to_owned();
    push_str(&mut r, where_clause);
    r
}

/// The query of the duration at a given offset in duration order.
pub fn percentile_query(where_clause: &str) -> (r: String)
    ensures
        r@ == PERCENTILE_QUERY_HEAD@ + where_clause@ + PERCENTILE_QUERY_TAIL@,
{
    let mut r = PERCENTILE_QUERY_HEAD.to_owned();
    push_str(&mut r, where_clause);
    push_str(&mut r, PERCENTILE_QUERY_TAIL);
    r
}

/// The oldest start time the retention policy keeps: `retention_ms` before
/// `now`, or 0.
pub fn cleanup_cutoff(now: u64, retention_ms: u64) -> (r: u64)
    ensures
        r == (if now >= retention_ms { now - retention_ms } else { 0 }),
{
    now.saturating_sub(retention_ms)
}

/// An invocation record as the database stores it.
#[derive(Debug, Clone)]
pub struct InvocationRow {
    pub invocation_id: String,
    pub function_id: String,
    pub function_name: String,
    pub version: Option<i64>,
    pub invocation_type: String,
    pub cold_start: i64,
    pub duration_ms: Option<i64>,
    pub memory_used_bytes: Option<i64>,
    pub cpu_time_ms: Option<i64>,
    pub success: i64,
    pub error_message: Option<String>,
    pub error_type: Option<String>,
    pub started_at: i64,
    pub completed_at: Option<i64>,
}

/// What an invocation record holds, as plain values.
pub struct RecordView {
    pub invocation_id: u128,
    pub function_id: u128,
    pub function_name: Seq<char>,
    pub version: Option<u32>,
    pub invocation_type: InvocationType,
    pub cold_start: bool,
    pub duration_ms: Option<u64>,
    pub memory_used_bytes: Option<u64>,
    pub cpu_time_ms: Option<u64>,
    pub success: bool,
    pub error_message: Option<Seq<char>>,
    pub error_type: Option<Seq<char>>,
    pub started_at: u64,
    pub completed_at: Option<u64>,
}

impl View for InvocationRecord {
    type V = RecordView;

    open spec fn view(&self) -> RecordView {
        RecordView {
            invocation_id: self.invocation_id.0,
            function_id: self.function_id.0,
            function_name: self.function_name@,
            version: self.version,
            invocation_type: self.invocation_type,
            cold_start: self.cold_start,
            duration_ms: self.duration_ms,
            memory_used_bytes: self.memory_used_bytes,
            cpu_time_ms: self.cpu_time_ms,
            success: self.success,
            error_message: opt_string_view(self.error_message),
            error_type: opt_string_view(self.error_type),
            started_at: self.started_at,
            completed_at: self.completed_at,
        }
    }
}

/// What a database row holds, as plain values.
pub struct RowView {
    pub invocation_id: Seq<char>,
    pub function_id: Seq<char>,
    pub function_name: Seq<char>,
    pub version: Option<i64>,
    pub invocation_type: Seq<char>,
    pub cold_start: i64,
    pub duration_ms: Option<i64>,
    pub memory_used_bytes: Option<i64>,
    pub cpu_time_ms: Option<i64>,
    pub success: i64,
    pub error_message: Option<Seq<char>>,
    pub error_type: Option<Seq<char>>,
    pub started_at: i64,
    pub completed_at: Option<i64>,
}

impl View for InvocationRow {
    type V = RowView;

    open spec fn view(&self) -> RowView {
        RowView {
            invocation_id: self.invocation_id@,
            function_id: self.function_id@,
            function_name: self.function_name@,
            version: self.version,
            invocation_type: self.invocation_type@,
            cold_start: self.cold_start,
            duration_ms: self.duration_ms,
            memory_used_bytes: self.memory_used_bytes,
            cpu_time_ms: self.cpu_time_ms,
            success: self.success,
            error_message: opt_string_view(self.error_message),
            error_type: opt_string_view(self.error_type),
            started_at: self.started_at,
            completed_at: self.completed_at,
        }
    }
}

/// A `u64` as the database stores it (`as i64`).
pub open spec fn stored(x: Option<u64>) -> Option<i64> {
    match x {
        Some(v) => Some(v as i64),
        None => None,
    }
}

/// A stored integer read back as a `u64` (`as u64`).
pub open spec fn loaded(x: Option<i64>) -> Option<u64> {
    match x {
        Some(v) => Some(v as u64),
        None => None,
    }
}

/// The flag a database stores for a boolean.
pub open spec fn flag(b: bool) -> i64 {
    if b {
        1
    } else {
        0
    }
}

/// The row a record is stored as.
pub open spec fn row_of(r: RecordView) -> RowView {
    RowView {
        invocation_id: uuid_text(r.invocation_id),
        function_id: uuid_text(r.function_id),
        function_name: r.function_name,
        version: match r.version {
            Some(v) => Some(v as i64),
            None => None,
        },
        invocation_type: invocation_type_text(r.invocation_type),
        cold_start: flag(r.cold_start),
        duration_ms: stored(r.duration_ms),
        memory_used_bytes: stored(r.memory_used_bytes),
        cpu_time_ms: stored(r.cpu_time_ms),
        success: flag(r.success),
        error_message: r.error_message,
        error_type: r.error_type,
        started_at: r.started_at as i64,
        completed_at: stored(r.completed_at),
    }
}

/// The record a row reads as, where its identifiers and invocation type
/// read.
pub open spec fn record_of(row: RowView) -> Option<RecordView> {
    match (uuid_parse(row.invocation_id), uuid_parse(row.function_id), invocation_type_of(
        row.invocation_type,
    )) {
        (Some(inv), Some(fid), Some(t)) => Some(
            RecordView {
                invocation_id: inv,
                function_id: fid,
                function_name: row.function_name,
                version: match row.version {
                    Some(v) => Some(v as u32),
                    None => None,
                },
                invocation_type: t,
                cold_start: row.cold_start != 0,
                duration_ms: loaded(row.duration_ms),
                memory_used_bytes: loaded(row.memory_used_bytes),
                cpu_time_ms: loaded(row.cpu_time_ms),
                success: row.success != 0,
                error_message: row.error_message,
                error_type: row.error_type,
                started_at: row.started_at as u64,
                completed_at: loaded(row.completed_at),
            },
        ),
        _ => None,
    }
}

fn store(x: Option<u64>) -> (r: Option<i64>)
    ensures
        r == stored(x),
{
    match x {
        Some(v) => Some(v as i64),
        None => None,
    }
}

fn load(x: Option<i64>) -> (r: Option<u64>)
    ensures
        r == loaded(x),
{
    match x {
        Some(v) => Some(v as u64),
        None => None,
    }
}

/// The row a record is stored as.
pub fn record_to_row(record: InvocationRecord) -> (r: InvocationRow)
    ensures
        r@ == row_of(record@),
        record_of(r@) == Some(record@),
{
    let ghost v = record@;
    let row = InvocationRow {
        invocation_id: record.invocation_id.to_text(),
        function_id: record.function_id.to_text(),
        function_name: record.function_name,
        version: match record.version {
            Some(v) => Some(v as i64),
            None => None,
        },
        invocation_type: record.invocation_type.to_text(),
        cold_start: if record.cold_start { 1 } else { 0 },
        duration_ms: store(record.duration_ms),
        memory_used_bytes: store(record.memory_used_bytes),
        cpu_time_ms: store(record.cpu_time_ms),
        success: if record.success { 1 } else { 0 },
        error_message: record.error_message,
        error_type: record.error_type,
        started_at: record.started_at as i64,
        completed_at: store(record.completed_at),
    };
    proof {
        lemma_record_roundtrip(v);
    }
    row
}

fn prefixed_error(prefix: &str, detail: &String) -> (r: LambdaError)
    ensures
        r matches LambdaError::Internal(m) && m@ == prefix@ + detail@,
{
    let mut m = prefix.to_owned();
    push_str(&mut m, detail.as_str());
    LambdaError::Internal(m)
}

/// Reads a row back as a record; an identifier or invocation type that does
/// not read is an internal error naming the field.
pub fn record_from_row(row: InvocationRow) -> (r: Result<InvocationRecord, LambdaError>)
    ensures
        match record_of(row@) {
            Some(v) => r matches Ok(rec) && rec@ == v,
            None => r matches Err(e) && e is Internal,
        },
{
    let invocation_id = match InvocationId::parse(row.invocation_id.as_str()) {
        Ok(id) => id,
        Err(e) => {
            return Err(prefixed_error("Invalid invocation_id: ", &uuid_error_text(&e)));
        },
    };
    let function_id = match FunctionId::parse(row.function_id.as_str()) {
        Ok(id) => id,
        Err(e) => {
            return Err(prefixed_error("Invalid function_id: ", &uuid_error_text(&e)));
        },
    };
    let invocation_type = match InvocationType::parse(row.invocation_type.as_str()) {
        Ok(t) => t,
        Err(e) => {
            return Err(prefixed_error("Invalid invocation_type: ", &e));
        },
    };
    Ok(
        InvocationRecord {
            invocation_id,
            function_id,
            function_name: row.function_name,
            version: match row.version {
                Some(v) => Some(v as u32),
                None => None,
            },
            invocation_type,
            cold_start: row.cold_start != 0,
            duration_ms: load(row.duration_ms),
            memory_used_bytes: load(row.memory_used_bytes),
            cpu_time_ms: load(row.cpu_time_ms),
            success: row.success != 0,
            error_message: row.error_message,
            error_type: row.error_type,
            started_at: row.started_at as u64,
            completed_at: load(row.completed_at),
        },
    )
}

/// A stored `u64` reads back as itself.
proof fn lemma_stored_loaded(x: Option<u64>)
    ensures
        loaded(stored(x)) == x,
{
    match x {
        Some(v) => {
            assert(((v as i64) as u64) == v) by (bit_vector);
        },
        None => {},
    }
}

/// A record whose identifiers read back from their text reads back from
/// its row as the same record.
pub proof fn lemma_record_roundtrip(r: RecordView)
    requires
        uuid_parse(uuid_text(r.invocation_id)) == Some(r.invocation_id),
        uuid_parse(uuid_text(r.function_id)) == Some(r.function_id),
    ensures
        record_of(row_of(r)) == Some(r),
{
    crate::lambda::types::lemma_invocation_type_roundtrip(r.invocation_type);
    lemma_stored_loaded(r.duration_ms);
    lemma_stored_loaded(r.memory_used_bytes);
    lemma_stored_loaded(r.cpu_time_ms);
    lemma_stored_loaded(r.completed_at);
    let s = r.started_at;
    assert(((s as i64) as u64) == s) by (bit_vector);
    match r.version {
        Some(v) => {
            assert(((v as i64) as u32) == v) by (bit_vector);
        },
        None => {},
    }
}

} // verus!

//! Queries against the time series and the shape of what comes back.

use vstd::prelude::*;
use crate::error::AppError;
use crate::instant::{
    Instant, canonical, is_canonical, parsed_timestamp, MAX_NANOS, MAX_SPAN_DAYS, MIN_NANOS,
};
use crate::json::{json_reads, json_text, json_value, print_json, read_json};
use crate::time_filter::{TimeRange, bound_of, is_rejected, resolve_range};
use crate::utils::{lemma_sampled_len, lemma_sampled_pointwise, sample, sampled, sampled_len};

verus! {

/// Rows fetched when a request names no limit.
pub const DEFAULT_LIMIT: u32 = 100;

/// The limit that stands for "all rows".
pub const UNBOUNDED: u32 = 0xffff_ffff;

/// The query parameters of a fetch over HTTP.
#[derive(Debug)]
pub struct GetDataFilters {
    pub from: Option<String>,
    pub to: Option<String>,
    pub past_days: Option<u32>,
    pub limit: Option<u32>,
    pub sample: Option<u32>,
    pub bucket: Option<String>,
}

/// The query parameters of a bulk delete over HTTP.
#[derive(Debug)]
pub struct DeleteDataFilters {
    pub from: Option<String>,
    pub to: Option<String>,
    pub past_days: Option<u32>,
    pub bucket: Option<String>,
}

/// A resolved fetch: `limit` bounds the rows read from the store, most
/// recent first; `sample` bounds the rows handed to the client.
#[derive(Debug)]
pub struct QueryFilter {
    pub range: TimeRange,
    pub bucket: Option<String>,
    pub limit: Option<u32>,
    pub sample: Option<u32>,
}

/// What the store is asked: the rows from `from` on and before `to`, which is
/// the half-open range `[from, to)`, of `bucket` where one is named and of
/// every bucket where none is, most recent first, at most `limit` of them.
/// `from` and `to` are canonical instant texts.
#[derive(Debug)]
pub struct StoreQuery {
    pub bucket: Option<String>,
    pub from: String,
    pub to: String,
    pub limit: u32,
}

/// A data point as the store holds it: the payload is JSON text.
#[derive(Debug)]
pub struct StoredRow {
    pub timestamp: String,
    pub bucket: String,
    pub payload: String,
}

/// An incoming data point.
#[derive(Debug)]
pub struct Data {
    pub timestamp: Option<String>,
    pub bucket: String,
    pub payload: serde_json::Value,
}

/// A data point as a client gets it: the payload is structured JSON.
#[derive(Debug)]
pub struct DataResponse {
    pub timestamp: String,
    pub bucket: String,
    pub payload: serde_json::Value,
}

/// The answer to a bulk delete.
#[derive(Clone, Copy, Debug)]
pub struct DataDeleteResponse {
    pub affected_rows: usize,
}

/// The views of an optional text.
pub open spec fn text_of(text: Option<String>) -> Option<Seq<char>> {
    match text {
        None => None,
        Some(text) => Some(text@),
    }
}

/// The limit that a request's `limit` stands for.
pub open spec fn limit_of(limit: Option<u32>) -> u32 {
    match limit {
        None => DEFAULT_LIMIT,
        Some(limit) => limit,
    }
}

/// Whether `query` asks for exactly what `filter` describes.
pub open spec fn asks_for(query: StoreQuery, filter: QueryFilter) -> bool {
    &&& text_of(query.bucket) == text_of(filter.bucket)
    &&& canonical(Some(filter.range.from@), query.from@)
    &&& canonical(Some(filter.range.to@), query.to@)
    &&& query.limit == limit_of(filter.limit)
}

/// Whether `query` asks for the rows that a request with the given filter
/// parameters is after: the bucket and the limit as given, and the bounds of
/// the resolved range in canonical text. For a relative window the clock
/// decides the bounds: they are canonical texts, and the window is no longer
/// than the calendar can hold.
pub open spec fn is_query_of(
    query: StoreQuery,
    from: Option<String>,
    to: Option<String>,
    past_days: Option<u32>,
    bucket: Option<Seq<char>>,
    limit: u32,
) -> bool {
    &&& text_of(query.bucket) == bucket
    &&& query.limit == limit
    &&& match past_days {
        None => {
            &&& canonical(bound_of(from, MIN_NANOS as int), query.from@)
            &&& canonical(bound_of(to, MAX_NANOS as int), query.to@)
        },
        Some(days) => {
            &&& days <= MAX_SPAN_DAYS
            &&& is_canonical(query.from@)
            &&& is_canonical(query.to@)
        },
    }
}

/// Copies an optional text.
pub fn copy_text(text: &Option<String>) -> (r: Option<String>)
    ensures
        r == *text,
{
    match text {
        None => None,
        Some(text) => Some(text.clone()),
    }
}

/// The one bounded fetch that a filter stands for.
pub fn fetch_query(filter: &QueryFilter) -> (query: StoreQuery)
    ensures
        asks_for(query, *filter),
{
    StoreQuery {
        bucket: copy_text(&filter.bucket),
        from: filter.range.from.to_text(),
        to: filter.range.to.to_text(),
        limit: match filter.limit {
            None => DEFAULT_LIMIT,
            Some(limit) => limit,
        },
    }
}

/// Resolves the time filter of a request and composes it with the bucket and
/// the limit into the query for the store.
pub fn store_query(
    from: &Option<String>,
    to: &Option<String>,
    past_days: Option<u32>,
    bucket: Option<String>,
    limit: u32,
) -> (r: Result<StoreQuery, AppError>)
    ensures
        match r {
            Ok(query) => is_query_of(query, *from, *to, past_days, text_of(bucket), limit),
            Err(e) => is_rejected(e, *from, *to, past_days),
        },
{
    match resolve_range(from, to, past_days) {
        Err(e) => Err(e),
        Ok(range) => {
            let filter = QueryFilter { range, bucket, limit: Some(limit), sample: None };
            Ok(fetch_query(&filter))
        },
    }
}

/// The query behind a fetch over HTTP: the named bucket or all of them, the
/// resolved range, and the given limit or `DEFAULT_LIMIT`.
pub fn get_data(filters: &GetDataFilters) -> (r: Result<StoreQuery, AppError>)
    ensures
        match r {
            Ok(query) => is_query_of(
                query,
                filters.from,
                filters.to,
                filters.past_days,
                text_of(filters.bucket),
                limit_of(filters.limit),
            ),
            Err(e) => is_rejected(e, filters.from, filters.to, filters.past_days),
        },
{
    let limit = match filters.limit {
        None => DEFAULT_LIMIT,
        Some(limit) => limit,
    };
    store_query(&filters.from, &filters.to, filters.past_days, copy_text(&filters.bucket), limit)
}

/// The query behind a bulk delete over HTTP: every row of the named bucket,
/// or of all of them, in the resolved range.
pub fn delete_data(filters: &DeleteDataFilters) -> (r: Result<StoreQuery, AppError>)
    ensures
        match r {
            Ok(query) => is_query_of(
                query,
                filters.from,
                filters.to,
                filters.past_days,
                text_of(filters.bucket),
                UNBOUNDED,
            ),
            Err(e) => is_rejected(e, filters.from, filters.to, filters.past_days),
        },
{
    store_query(
        &filters.from,
        &filters.to,
        filters.past_days,
        copy_text(&filters.bucket),
        UNBOUNDED,
    )
}

/// The canonical text of the instant that a stored text denotes. A stored
/// text that does not parse is the server's fault.
pub fn canonical_timestamp(text: &str) -> (r: Result<String, AppError>)
    ensures
        match r {
            Ok(out) => canonical(parsed_timestamp(text@), out@),
            Err(e) => e is DateError && parsed_timestamp(text@) is None,
        },
{
    match Instant::parse(text) {
        Ok(t) => Ok(t.to_text()),
        Err(e) => Err(AppError::DateError(e)),
    }
}

/// Whether `out` is `row` decoded: the same bucket, the timestamp of `row` in
/// canonical text, and the value that the payload of `row` reads as.
pub open spec fn is_decoded(row: StoredRow, out: DataResponse) -> bool {
    &&& out.bucket@ == row.bucket@
    &&& canonical(parsed_timestamp(row.timestamp@), out.timestamp@)
    &&& json_value(row.payload@) == Some(out.payload)
}

/// Whether the timestamp of `row` parses.
pub open spec fn is_readable(row: StoredRow) -> bool {
    parsed_timestamp(row.timestamp@) is Some
}

/// Whether `row` can be decoded: its timestamp parses and its payload reads
/// as JSON.
pub open spec fn is_decodable(row: StoredRow) -> bool {
    is_readable(row) && json_reads(row.payload@)
}

/// Whether `error` is what fails the decoding of `row`: the server's fault
/// over a stored timestamp where that does not parse, else one over a
/// payload that does not read as JSON.
pub open spec fn is_row_failure(error: AppError, row: StoredRow) -> bool {
    if is_readable(row) {
        error is SerdeError && !json_reads(row.payload@)
    } else {
        error is DateError
    }
}

/// Whether `error` is what fails a fetch of `rows`: the failure of the first
/// row that cannot be decoded.
pub open spec fn is_decode_failure(error: AppError, rows: Seq<StoredRow>) -> bool {
    exists|i: int|
        {
            &&& 0 <= i < rows.len()
            &&& forall|j: int| 0 <= j < i ==> is_decodable(#[trigger] rows[j])
            &&& #[trigger] is_row_failure(error, rows[i])
        }
}

/// Puts a decoded row together from its canonical timestamp and from what
/// reading the payload gave.
pub fn decoded_row(
    timestamp: String,
    bucket: String,
    payload: Result<serde_json::Value, serde_json::Error>,
) -> (r: Result<DataResponse, AppError>)
    ensures
        r == match payload {
            Ok(payload) => Ok(DataResponse { timestamp, bucket, payload }),
            Err(e) => Err::<DataResponse, AppError>(AppError::SerdeError(e)),
        },
{
    match payload {
        Ok(payload) => Ok(DataResponse { timestamp, bucket, payload }),
        Err(e) => Err(AppError::SerdeError(e)),
    }
}

/// Decodes one stored row: the timestamp in canonical text, the payload as
/// structured JSON. It succeeds exactly when the timestamp parses and the
/// payload reads as JSON; a timestamp that does not parse is reported first.
pub fn decode_row(row: StoredRow) -> (r: Result<DataResponse, AppError>)
    ensures
        r is Ok <==> is_readable(row) && json_reads(row.payload@),
        match r {
            Ok(out) => is_decoded(row, out),
            Err(e) => is_row_failure(e, row),
        },
{
    match canonical_timestamp(row.timestamp.as_str()) {
        Err(e) => Err(e),
        Ok(timestamp) => {
            let payload = read_json(row.payload.as_str());
            decoded_row(timestamp, row.bucket, payload)
        },
    }
}

/// Decodes the rows of a fetch, in order. It succeeds exactly when every row
/// can be decoded; else the first row that cannot fails the whole fetch.
pub fn decode_rows(rows: Vec<StoredRow>) -> (r: Result<Vec<DataResponse>, AppError>)
    ensures
        r is Ok <==> forall|i: int|
            0 <= i < rows@.len() ==> is_readable(rows@[i]) && json_reads(rows@[i].payload@),
        match r {
            Ok(out) => {
                &&& out@.len() == rows@.len()
                &&& forall|i: int| 0 <= i < out@.len() ==> is_decoded(rows@[i], #[trigger] out@[i])
            },
            Err(e) => is_decode_failure(e, rows@),
        },
{
    let ghost all = rows@;
    let mut out: Vec<DataResponse> = Vec::with_capacity(rows.len());
    for row in it: rows
        invariant
            it.seq() == all,
            all == rows@,
            out@.len() == it.index(),
            forall|i: int| 0 <= i < out@.len() ==> is_decoded(all[i], #[trigger] out@[i]),
    {
        match decode_row(row) {
            Err(e) => {
                proof {
                    let at = it.index() as int;
                    assert forall|j: int| 0 <= j < at implies is_decodable(#[trigger] all[j]) by {
                        assert(is_decoded(all[j], out@[j]));
                    }
                    assert(is_row_failure(e, all[at]));
                    assert(!(is_readable(all[at]) && json_reads(all[at].payload@)));
                }
                return Err(e);
            },
            Ok(decoded) => {
                out.push(decoded);
            },
        }
    }
    proof {
        assert forall|i: int| 0 <= i < all.len() implies is_readable(all[i]) && json_reads(
            all[i].payload@,
        ) by {
            assert(is_decoded(all[i], out@[i]));
        }
    }
    Ok(out)
}

/// Turns the rows of a fetch into what the client gets: every row decoded,
/// then the whole reduced to at most `sample_to` points by `sample`, which
/// keeps the order. It succeeds exactly when every row of the fetch can be
/// decoded, and what is returned decodes the rows that `sample` keeps of the
/// fetch itself.
pub fn data_response(rows: Vec<StoredRow>, sample_to: Option<u32>) -> (r: Result<
    Vec<DataResponse>,
    AppError,
>)
    ensures
        r is Ok <==> forall|i: int|
            0 <= i < rows@.len() ==> is_readable(rows@[i]) && json_reads(rows@[i].payload@),
        match r {
            Ok(out) => {
                &&& out@.len() == sampled(sample_to, rows@).len()
                &&& out@.len() == sampled_len(sample_to, rows@.len())
                &&& forall|j: int|
                    0 <= j < out@.len() ==> is_decoded(
                        sampled(sample_to, rows@)[j],
                        #[trigger] out@[j],
                    )
            },
            Err(e) => is_decode_failure(e, rows@),
        },
{
    match decode_rows(rows) {
        Err(e) => Err(e),
        Ok(decoded) => {
            let ghost related = |row: StoredRow, out: DataResponse| is_decoded(row, out);
            proof {
                assert forall|i: int| 0 <= i < rows@.len() implies #[trigger] related(
                    rows@[i],
                    decoded@[i],
                ) by {
                    assert(is_decoded(rows@[i], decoded@[i]));
                }
                lemma_sampled_pointwise(sample_to, rows@, decoded@, related);
                lemma_sampled_len(sample_to, rows@);
            }
            let out = sample(sample_to, decoded);
            proof {
                assert forall|j: int| 0 <= j < out@.len() implies is_decoded(
                    sampled(sample_to, rows@)[j],
                    #[trigger] out@[j],
                ) by {
                    assert(related(sampled(sample_to, rows@)[j], sampled(sample_to, decoded@)[j]));
                }
            }
            Ok(out)
        },
    }
}

/// The canonical text of an instant that a client supplied. A text that does
/// not parse is the client's fault.
pub fn supplied_timestamp(text: &str) -> (r: Result<String, AppError>)
    ensures
        match r {
            Ok(out) => canonical(parsed_timestamp(text@), out@),
            Err(e) => e is DateInputError && parsed_timestamp(text@) is None,
        },
{
    match Instant::parse(text) {
        Ok(t) => Ok(t.to_text()),
        Err(e) => Err(AppError::DateInputError(e)),
    }
}

/// The canonical text of what the clock read. A clock that cannot be read is
/// the server's fault.
pub fn clock_timestamp(now: Result<Instant, jiff::Error>) -> (r: Result<String, AppError>)
    ensures
        match now {
            Ok(t) => r matches Ok(out) && canonical(Some(t@), out@),
            Err(e) => r == Err::<String, AppError>(AppError::DateError(e)),
        },
{
    match now {
        Ok(t) => Ok(t.to_text()),
        Err(e) => Err(AppError::DateError(e)),
    }
}

/// Whether `r` is an outcome of fixing the timestamp of an incoming point: the
/// supplied text in canonical form, or the canonical text of some instant
/// where none was supplied.
pub open spec fn is_ingest_timestamp(r: Result<String, AppError>, supplied: Option<String>) -> bool {
    match supplied {
        Some(text) => match r {
            Ok(out) => canonical(parsed_timestamp(text@), out@),
            Err(e) => e is DateInputError && parsed_timestamp(text@) is None,
        },
        None => match r {
            Ok(out) => is_canonical(out@),
            Err(e) => e is DateError,
        },
    }
}

/// The timestamp that an incoming point is stored under: the supplied text in
/// canonical form, else the current instant by the system clock.
pub fn ingest_timestamp(supplied: &Option<String>) -> (r: Result<String, AppError>)
    ensures
        is_ingest_timestamp(r, *supplied),
{
    match supplied {
        Some(text) => supplied_timestamp(text.as_str()),
        None => clock_timestamp(Instant::now()),
    }
}

/// The text of a printed payload, or `None` where printing failed.
pub open spec fn printed(payload: Result<String, serde_json::Error>) -> Option<Seq<char>> {
    match payload {
        Ok(text) => Some(text@),
        Err(_) => None,
    }
}

/// Whether `r` is an outcome of ingesting a point with the given timestamp
/// and bucket, whose payload prints as `payload`: a payload that does not
/// print fails the request, as the server's fault, before the timestamp is
/// looked at; else the row keeps the bucket, holds the printed payload, and
/// has its timestamp fixed as for any ingest.
pub open spec fn is_ingested(
    r: Result<StoredRow, AppError>,
    supplied: Option<String>,
    bucket: Seq<char>,
    payload: Option<Seq<char>>,
) -> bool {
    match payload {
        None => r matches Err(e) && e is SerdeError,
        Some(payload) => match r {
            Ok(row) => {
                &&& row.bucket@ == bucket
                &&& row.payload@ == payload
                &&& is_ingest_timestamp(Ok(row.timestamp), supplied)
            },
            Err(e) => is_ingest_timestamp(Err(e), supplied),
        },
    }
}

/// What an ingest stores, a fetch reads: the timestamp of the stored row
/// parses, so that decoding the row can fail over its payload alone, and
/// decoding keeps the timestamp letter for letter, along with the bucket.
pub proof fn lemma_ingested_row_decodes(
    row: StoredRow,
    supplied: Option<String>,
    bucket: Seq<char>,
    payload: Option<Seq<char>>,
)
    requires
        is_ingested(Ok(row), supplied, bucket, payload),
    ensures
        is_readable(row),
        forall|e: AppError| #[trigger] is_row_failure(e, row) ==> e is SerdeError,
        forall|out: DataResponse| #[trigger]
            is_decoded(row, out) ==> out.timestamp@ == row.timestamp@ && out.bucket@ == bucket,
{
}

/// Puts the row to store together from the parts of an incoming point and
/// from what printing its payload gave.
pub fn stored_row(
    bucket: String,
    supplied: &Option<String>,
    payload: Result<String, serde_json::Error>,
) -> (r: Result<StoredRow, AppError>)
    ensures
        is_ingested(r, *supplied, bucket@, printed(payload)),
        payload matches Err(e) ==> r == Err::<StoredRow, AppError>(AppError::SerdeError(e)),
{
    match payload {
        Err(e) => Err(AppError::SerdeError(e)),
        Ok(payload) => match ingest_timestamp(supplied) {
            Err(e) => Err(e),
            Ok(timestamp) => Ok(StoredRow { timestamp, bucket, payload }),
        },
    }
}

/// Turns an incoming data point into the row to append to the store. The
/// payload is printed as it is; its shape is not looked at.
pub fn upload_data(request: Data) -> (r: Result<StoredRow, AppError>)
    ensures
        is_ingested(r, request.timestamp, request.bucket@, json_text(request.payload)),
        json_text(request.payload) is None ==> (r matches Err(e) && e is SerdeError),
        json_text(request.payload) matches Some(text) ==> match r {
            Ok(row) => {
                &&& row.bucket@ == request.bucket@
                &&& row.payload@ == text
                &&& is_ingest_timestamp(Ok(row.timestamp), request.timestamp)
            },
            Err(e) => is_ingest_timestamp(Err(e), request.timestamp),
        },
{
    let payload = print_json(&request.payload);
    stored_row(request.bucket, &request.timestamp, payload)
}

/// One key of a query string with its value.
#[derive(Debug)]
pub struct Parameter {
    pub key: String,
    pub value: String,
}

/// The position at or after `from` of the first parameter named `key`.
pub open spec fn find_parameter(parameters: Seq<Parameter>, key: Seq<char>, from: int) -> Option<
    int,
>
    decreases parameters.len() - from,
{
    if from < 0 || from >= parameters.len() {
        None
    } else if parameters[from].key@ == key {
        Some(from)
    } else {
        find_parameter(parameters, key, from + 1)
    }
}

/// The value of the first parameter named `key`.
pub open spec fn parameter_of(parameters: Seq<Parameter>, key: Seq<char>) -> Option<String> {
    match find_parameter(parameters, key, 0) {
        Some(i) => Some(parameters[i].value),
        None => None,
    }
}

/// Looks a parameter up by its name.
pub fn query_parameter(parameters: &Vec<Parameter>, key: &str) -> (r: Option<String>)
    ensures
        r == parameter_of(parameters@, key@),
{
    let wanted = key.to_owned();
    let mut i: usize = 0;
    while i < parameters.len()
        invariant
            i <= parameters@.len(),
            wanted@ == key@,
            find_parameter(parameters@, key@, 0) == find_parameter(parameters@, key@, i as int),
        decreases parameters@.len() - i,
    {
        if parameters[i].key == wanted {
            assert(find_parameter(parameters@, key@, i as int) == Some(i as int));
            return Some(parameters[i].value.clone());
        }
        i += 1;
    }
    None
}

/// Turns a point that came as a URL alone into the row to append to the
/// store: the bucket from the path, the payload as the JSON text of the query
/// parameters, the timestamp from the parameter named `timestamp`.
pub fn upload_data_url_only(bucket: String, parameters: &Vec<Parameter>, payload: String) -> (r:
    Result<StoredRow, AppError>)
    ensures
        is_ingested(r, parameter_of(parameters@, "timestamp"@), bucket@, Some(payload@)),
{
    let timestamp = query_parameter(parameters, "timestamp");
    stored_row(bucket, &timestamp, Ok(payload))
}

} // verus!

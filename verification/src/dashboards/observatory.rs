//! The overview of everything the store holds: when each point arrived, and
//! in which bucket.

use vstd::prelude::*;
use crate::data::{QueryFilter, StoreQuery, UNBOUNDED, canonical_timestamp, fetch_query, is_query_of};
use crate::error::AppError;
use crate::instant::{Instant, canonical, parsed_timestamp};
use crate::time_filter::TimeRange;

verus! {

/// The overview.
#[derive(Debug)]
pub struct ObservatoryInfoResponse {
    pub data_points: Vec<DataPoint>,
}

/// One stored point, without its payload.
#[derive(Debug)]
pub struct DataPoint {
    pub timestamp: String,
    pub bucket: String,
}

/// Whether `out` is `row` with its timestamp in canonical text.
pub open spec fn is_normalized(row: DataPoint, out: DataPoint) -> bool {
    &&& out.bucket == row.bucket
    &&& canonical(parsed_timestamp(row.timestamp@), out.timestamp@)
}

/// The query behind the overview: every point of every bucket.
pub fn observatory_query() -> (query: StoreQuery)
    ensures
        is_query_of(query, None, None, None, None, UNBOUNDED),
{
    let range = TimeRange { from: Instant::earliest(), to: Instant::latest() };
    fetch_query(&QueryFilter { range, bucket: None, limit: Some(UNBOUNDED), sample: None })
}

/// Builds the overview from the rows of the store, in their order, with
/// every timestamp in canonical text. A stored timestamp that does not parse
/// fails the request as the server's fault.
pub fn get_observatory_info(rows: Vec<DataPoint>) -> (r: Result<ObservatoryInfoResponse, AppError>)
    ensures
        match r {
            Ok(response) => {
                &&& response.data_points@.len() == rows@.len()
                &&& forall|i: int|
                    0 <= i < rows@.len() ==> is_normalized(
                        rows@[i],
                        #[trigger] response.data_points@[i],
                    )
            },
            Err(e) => {
                &&& e is DateError
                &&& exists|i: int|
                    0 <= i < rows@.len() && parsed_timestamp(
                        (#[trigger] rows@[i]).timestamp@,
                    ) is None
            },
        },
{
    let ghost all = rows@;
    let mut data_points: Vec<DataPoint> = Vec::with_capacity(rows.len());
    for row in it: rows
        invariant
            it.seq() == all,
            data_points@.len() == it.index(),
            forall|i: int|
                0 <= i < data_points@.len() ==> is_normalized(all[i], #[trigger] data_points@[i]),
    {
        match canonical_timestamp(row.timestamp.as_str()) {
            Err(e) => {
                return Err(e);
            },
            Ok(timestamp) => {
                data_points.push(DataPoint { timestamp, bucket: row.bucket });
            },
        }
    }
    Ok(ObservatoryInfoResponse { data_points })
}

} // verus!

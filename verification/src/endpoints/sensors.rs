//! Readings of the CO2 sensor.

use vstd::prelude::*;
use crate::dashboards::weight::oldest_first;
use crate::data::{StoreQuery, UNBOUNDED, canonical_timestamp, is_query_of, store_query};
use crate::error::AppError;
use crate::instant::{canonical, parsed_timestamp};
use crate::time_filter::is_rejected;

verus! {

/// The query parameters of the CO2 view.
#[derive(Debug)]
pub struct GetHomeDataFilters {
    pub from: Option<String>,
    pub to: Option<String>,
    pub past_days: Option<u32>,
}

/// The CO2 view.
#[derive(Debug)]
pub struct CO2Response {
    pub data: Vec<DataPoint>,
}

/// One CO2 reading.
#[derive(Debug)]
pub struct DataPoint {
    pub timestamp: String,
    pub co2: u32,
}

/// The bucket that holds the CO2 readings.
pub open spec fn co2_bucket() -> Seq<char> {
    "co2-sensor-living-room"@
}

/// Whether `out` is `row` with its timestamp in canonical text.
pub open spec fn is_normalized(row: DataPoint, out: DataPoint) -> bool {
    &&& out.co2 == row.co2
    &&& canonical(parsed_timestamp(row.timestamp@), out.timestamp@)
}

/// The query behind the CO2 view: every reading of the CO2 bucket in the
/// resolved range.
pub fn get_co2(filters: &GetHomeDataFilters) -> (r: Result<StoreQuery, AppError>)
    ensures
        match r {
            Ok(query) => is_query_of(
                query,
                filters.from,
                filters.to,
                filters.past_days,
                Some(co2_bucket()),
                UNBOUNDED,
            ),
            Err(e) => is_rejected(e, filters.from, filters.to, filters.past_days),
        },
{
    store_query(
        &filters.from,
        &filters.to,
        filters.past_days,
        Some("co2-sensor-living-room".to_owned()),
        UNBOUNDED,
    )
}

/// Builds the CO2 view from the rows of a fetch, which come most recent
/// first: the readings oldest first, every timestamp in canonical text. A
/// stored timestamp that does not parse fails the request as the server's
/// fault.
pub fn co2_response(rows: Vec<DataPoint>) -> (r: Result<CO2Response, AppError>)
    ensures
        match r {
            Ok(response) => {
                &&& response.data@.len() == rows@.len()
                &&& forall|i: int|
                    0 <= i < rows@.len() ==> is_normalized(
                        rows@[rows@.len() - 1 - i],
                        #[trigger] response.data@[i],
                    )
            },
            Err(e) => {
                &&& e is DateError
                &&& exists|i: int|
                    0 <= i < rows@.len() && parsed_timestamp(
                        (#[trigger] rows@[i]).timestamp@,
                    ) is None
            },
        },
{
    let ghost all = rows@;
    let ordered = oldest_first(rows);
    let mut data: Vec<DataPoint> = Vec::with_capacity(ordered.len());
    for row in it: ordered
        invariant
            it.seq() == all.reverse(),
            all == rows@,
            data@.len() == it.index(),
            forall|i: int|
                0 <= i < data@.len() ==> is_normalized(
                    all[all.len() - 1 - i],
                    #[trigger] data@[i],
                ),
    {
        match canonical_timestamp(row.timestamp.as_str()) {
            Err(e) => {
                proof {
                    let at = all.len() - 1 - it.index();
                    assert(all.reverse()[it.index() as int] == all[at]);
                    assert(parsed_timestamp(all[at].timestamp@) is None);
                }
                return Err(e);
            },
            Ok(timestamp) => {
                data.push(DataPoint { timestamp, co2: row.co2 });
            },
        }
    }
    Ok(CO2Response { data })
}

} // verus!

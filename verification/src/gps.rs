//! Ingest of GPS positions, several to an upload.

use vstd::prelude::*;
use crate::data::{StoredRow, is_ingest_timestamp, ingest_timestamp};
use crate::error::AppError;

verus! {

/// The answer to an upload.
#[derive(Debug)]
pub struct GPSUploadResponse {
    pub result: String,
}

/// One position of an upload: the timestamp among its properties, if it has
/// one, and the position as JSON text.
#[derive(Debug)]
pub struct LocationUpload {
    pub timestamp: Option<String>,
    pub payload: String,
}

/// What an upload comes to: the rows to append, in order, and the failure
/// that stopped it, if one did. The rows before a failure are still stored.
#[derive(Debug)]
pub struct GpsIngest {
    pub rows: Vec<StoredRow>,
    pub failure: Option<AppError>,
}

/// Whether `row` is what `location` is stored as in `bucket`.
pub open spec fn is_location_row(row: StoredRow, location: LocationUpload, bucket: Seq<char>) -> bool {
    &&& row.bucket@ == bucket
    &&& row.payload@ == location.payload@
    &&& is_ingest_timestamp(Ok(row.timestamp), location.timestamp)
}

impl GPSUploadResponse {
    /// The answer to an upload that went through.
    pub fn ok() -> (r: GPSUploadResponse)
        ensures
            r.result@ == "ok"@,
    {
        GPSUploadResponse { result: "ok".to_owned() }
    }
}

/// Turns the positions of one upload into rows of `bucket`, one by one and in
/// order, each under its own timestamp or under the current instant where it
/// has none. The first position whose timestamp cannot be fixed stops the
/// upload.
pub fn upload_gps_data(bucket: &String, locations: Vec<LocationUpload>) -> (r: GpsIngest)
    ensures
        r.rows@.len() <= locations@.len(),
        r.failure is None <==> r.rows@.len() == locations@.len(),
        forall|i: int|
            0 <= i < r.rows@.len() ==> is_location_row(#[trigger] r.rows@[i], locations@[i], bucket@),
        r.failure matches Some(e) ==> is_ingest_timestamp(
            Err(e),
            locations@[r.rows@.len() as int].timestamp,
        ),
{
    let ghost all = locations@;
    let mut rows: Vec<StoredRow> = Vec::with_capacity(locations.len());
    for location in it: locations
        invariant
            it.seq() == all,
            rows@.len() == it.index(),
            forall|i: int|
                0 <= i < rows@.len() ==> is_location_row(#[trigger] rows@[i], all[i], bucket@),
    {
        match ingest_timestamp(&location.timestamp) {
            Err(e) => {
                return GpsIngest { rows, failure: Some(e) };
            },
            Ok(timestamp) => {
                rows.push(StoredRow { timestamp, bucket: bucket.clone(), payload: location.payload });
            },
        }
    }
    GpsIngest { rows, failure: None }
}

} // verus!

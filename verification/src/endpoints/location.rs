//! Positions of one GPS bucket.

use vstd::prelude::*;
use crate::data::{StoreQuery, UNBOUNDED, is_query_of, store_query};
use crate::error::AppError;
use crate::time_filter::is_rejected;

verus! {

/// The query parameters of a position fetch.
#[derive(Debug)]
pub struct DataFilter {
    pub from: Option<String>,
    pub to: Option<String>,
    /// Return only the last `limit` positions.
    pub limit: Option<u32>,
}

/// The limit that a position fetch stands for: all rows unless one is named.
pub open spec fn position_limit(limit: Option<u32>) -> u32 {
    match limit {
        None => UNBOUNDED,
        Some(limit) => limit,
    }
}

/// The query behind a position fetch: the rows of `bucket` in the range that
/// `from` and `to` spell out, most recent first.
pub fn get_gps_coords(bucket: String, filters: &DataFilter) -> (r: Result<StoreQuery, AppError>)
    ensures
        match r {
            Ok(query) => is_query_of(
                query,
                filters.from,
                filters.to,
                None,
                Some(bucket@),
                position_limit(filters.limit),
            ),
            Err(e) => is_rejected(e, filters.from, filters.to, None),
        },
{
    let limit = match filters.limit {
        None => UNBOUNDED,
        Some(limit) => limit,
    };
    store_query(&filters.from, &filters.to, None, Some(bucket), limit)
}

} // verus!

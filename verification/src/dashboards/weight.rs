//! Body-weight samples: the query that fetches them, and the trailing
//! windows that the week-over-week and month-over-month changes compare.
//!
//! The library decides which samples fall into which window and whether a
//! change is reported at all. The averages and the percentage are the
//! caller's, over samples of its own number type.

use vstd::prelude::*;
use crate::data::{StoreQuery, UNBOUNDED, is_query_of, store_query};
use crate::error::{AppError, INTERNAL_SERVER_ERROR};
use crate::instant::{Instant, parsed_timestamp, NANOS_PER_DAY};
use crate::time_filter::is_rejected;

verus! {

/// Days in the window of the week-over-week change.
pub const WEEK_DAYS: u32 = 7;

/// Days in the window of the month-over-month change.
pub const MONTH_DAYS: u32 = 30;

/// The query parameters of the weight dashboard.
#[derive(Debug)]
pub struct GetWeightFilters {
    pub from: Option<String>,
    pub to: Option<String>,
    pub past_days: Option<u32>,
}

/// One of the two trailing windows that a change compares.
#[derive(Clone, Copy, Debug)]
pub enum Window {
    /// At most the given number of days before the last sample.
    Recent,
    /// More than the given number of days and less than twice as many before
    /// the last sample.
    Previous,
}

/// The samples that a change compares, as positions in the series: the
/// average over `recent` is held against the average over `previous`.
#[derive(Debug)]
pub struct ChangeWindow {
    pub recent: Vec<usize>,
    pub previous: Vec<usize>,
}

/// What to report of a series of weight samples.
#[derive(Debug)]
pub struct WeightPlan {
    /// The number of samples.
    pub count: usize,
    /// The windows of the week-over-week change; `None` where it is omitted.
    pub change_week_over_week: Option<ChangeWindow>,
    /// The windows of the month-over-month change; `None` where it is omitted.
    pub change_month_over_month: Option<ChangeWindow>,
}

/// The bucket that holds the weight samples.
pub open spec fn weight_bucket() -> Seq<char> {
    "weight-florian"@
}

/// Whether a sample that lies `age` nanoseconds before the last one falls
/// into `window` of `days` days.
pub open spec fn in_window(window: Window, days: int, age: int) -> bool {
    match window {
        Window::Recent => age <= days * NANOS_PER_DAY,
        Window::Previous => days * NANOS_PER_DAY < age < 2 * days * NANOS_PER_DAY,
    }
}

/// How long before the last sample the sample at `i` was taken.
pub open spec fn age(times: Seq<Instant>, i: int) -> int {
    times.last()@ - times[i]@
}

/// The positions below `k` of the samples that fall into `window`, ascending.
pub open spec fn window_indices(times: Seq<Instant>, window: Window, days: int, k: int) -> Seq<
    usize,
>
    decreases k,
{
    if k <= 0 {
        Seq::empty()
    } else if in_window(window, days, age(times, k - 1)) {
        window_indices(times, window, days, k - 1).push((k - 1) as usize)
    } else {
        window_indices(times, window, days, k - 1)
    }
}

/// Whether the series spans both windows of `days` days: first and last
/// sample lie at least twice that many days apart.
pub open spec fn covers(times: Seq<Instant>, days: int) -> bool {
    times.len() > 0 && span_of(times) >= 2 * days * NANOS_PER_DAY
}

/// The two windows of the change over `days` days, or `None` where the change
/// is omitted: the series does not span both windows, or one of them is empty.
pub open spec fn change_window_of(times: Seq<Instant>, days: int) -> Option<
    (Seq<usize>, Seq<usize>),
> {
    let recent = window_indices(times, Window::Recent, days, times.len() as int);
    let previous = window_indices(times, Window::Previous, days, times.len() as int);
    if covers(times, days) && recent.len() > 0 && previous.len() > 0 {
        Some((recent, previous))
    } else {
        None
    }
}

/// The positions of a window are those, and only those, of the samples that
/// fall into it; they are listed in ascending order.
pub proof fn lemma_window_indices(times: Seq<Instant>, window: Window, days: int, k: int)
    requires
        0 <= k <= times.len(),
        times.len() <= usize::MAX,
    ensures
        window_indices(times, window, days, k).len() <= k,
        forall|j: int|
            0 <= j < window_indices(times, window, days, k).len() ==> {
                let i = #[trigger] window_indices(times, window, days, k)[j];
                0 <= i < k && in_window(window, days, age(times, i as int))
            },
        forall|i: int|
            0 <= i < k && in_window(window, days, age(times, i)) ==> window_indices(
                times,
                window,
                days,
                k,
            ).contains(i as usize),
        forall|a: int, b: int|
            0 <= a < b < window_indices(times, window, days, k).len() ==> window_indices(
                times,
                window,
                days,
                k,
            )[a] < window_indices(times, window, days, k)[b],
    decreases k,
{
    if k > 0 {
        let prior = k - 1;
        lemma_window_indices(times, window, days, prior);
        let before = window_indices(times, window, days, prior);
        let now = window_indices(times, window, days, k);
        if in_window(window, days, age(times, prior)) {
            assert(now == before.push(prior as usize));
            assert(now[before.len() as int] == prior as usize);
            assert forall|i: int|
                0 <= i < k && in_window(window, days, age(times, i)) implies now.contains(
                i as usize,
            ) by {
                if i < prior {
                    let j = choose|j: int| 0 <= j < before.len() && before[j] == i as usize;
                    assert(now[j] == i as usize);
                }
            }
        } else {
            assert(now == before);
        }
    }
}

/// The two windows share no sample: a position is listed in at most one of
/// them.
pub proof fn lemma_windows_disjoint(times: Seq<Instant>, days: int, position: usize)
    requires
        times.len() <= usize::MAX,
    ensures
        !(window_indices(times, Window::Recent, days, times.len() as int).contains(position)
            && window_indices(times, Window::Previous, days, times.len() as int).contains(
            position,
        )),
{
    let recent = window_indices(times, Window::Recent, days, times.len() as int);
    let previous = window_indices(times, Window::Previous, days, times.len() as int);
    lemma_window_indices(times, Window::Recent, days, times.len() as int);
    lemma_window_indices(times, Window::Previous, days, times.len() as int);
    if recent.contains(position) && previous.contains(position) {
        let a = choose|a: int| 0 <= a < recent.len() && recent[a] == position;
        let b = choose|b: int| 0 <= b < previous.len() && previous[b] == position;
        assert(in_window(Window::Recent, days, age(times, recent[a] as int)));
        assert(in_window(Window::Previous, days, age(times, previous[b] as int)));
    }
}

/// How long the series spans: from its first sample to its last.
pub open spec fn span_of(times: Seq<Instant>) -> int {
    times.last()@ - times.first()@
}

/// What a series reports goes by its span. Under fourteen days it reports no
/// change at all. From fourteen days on and under sixty it reports no
/// month-over-month change, and the week-over-week change exactly when a
/// sample lies in each of the two windows of seven days.
pub proof fn lemma_changes_by_span(times: Seq<Instant>)
    requires
        times.len() > 0,
    ensures
        span_of(times) < 14 * NANOS_PER_DAY ==> {
            &&& change_window_of(times, WEEK_DAYS as int) is None
            &&& change_window_of(times, MONTH_DAYS as int) is None
        },
        14 * NANOS_PER_DAY <= span_of(times) < 60 * NANOS_PER_DAY ==> {
            &&& change_window_of(times, MONTH_DAYS as int) is None
            &&& change_window_of(times, WEEK_DAYS as int) is Some <==> {
                &&& window_indices(times, Window::Recent, WEEK_DAYS as int, times.len() as int).len()
                    > 0
                &&& window_indices(
                    times,
                    Window::Previous,
                    WEEK_DAYS as int,
                    times.len() as int,
                ).len() > 0
            }
        },
{
}

/// The query behind the weight dashboard: every sample of the weight bucket
/// in the resolved range.
pub fn get_weight(filters: &GetWeightFilters) -> (r: Result<StoreQuery, AppError>)
    ensures
        match r {
            Ok(query) => is_query_of(
                query,
                filters.from,
                filters.to,
                filters.past_days,
                Some(weight_bucket()),
                UNBOUNDED,
            ),
            Err(e) => is_rejected(e, filters.from, filters.to, filters.past_days),
        },
{
    store_query(
        &filters.from,
        &filters.to,
        filters.past_days,
        Some("weight-florian".to_owned()),
        UNBOUNDED,
    )
}

/// Turns a fetch, which comes most recent first, into a series that starts
/// with the oldest row.
pub fn oldest_first<T>(rows: Vec<T>) -> (r: Vec<T>)
    ensures
        r@ == rows@.reverse(),
{
    let ghost all = rows@;
    let mut rows = rows;
    let mut out: Vec<T> = Vec::with_capacity(rows.len());
    while rows.len() > 0
        invariant
            rows@.len() + out@.len() == all.len(),
            forall|i: int| 0 <= i < rows@.len() ==> rows@[i] == all[i],
            forall|i: int| 0 <= i < out@.len() ==> out@[i] == all[all.len() - 1 - i],
        decreases rows@.len(),
    {
        match rows.pop() {
            Some(row) => {
                out.push(row);
            },
            None => {},
        }
    }
    out
}

/// Reads the timestamps of a series as the store gave them. A text that does
/// not parse is the server's fault.
pub fn stored_instants(texts: &Vec<String>) -> (r: Result<Vec<Instant>, AppError>)
    ensures
        match r {
            Ok(times) => {
                &&& times@.len() == texts@.len()
                &&& forall|i: int|
                    0 <= i < times@.len() ==> parsed_timestamp(texts@[i]@) == Some(
                        (#[trigger] times@[i])@,
                    )
            },
            Err(e) => {
                &&& e is DateError
                &&& exists|i: int|
                    0 <= i < texts@.len() && parsed_timestamp(#[trigger] texts@[i]@) is None
            },
        },
{
    let mut times: Vec<Instant> = Vec::with_capacity(texts.len());
    let mut i: usize = 0;
    while i < texts.len()
        invariant
            i <= texts@.len(),
            times@.len() == i,
            forall|j: int|
                0 <= j < times@.len() ==> parsed_timestamp(texts@[j]@) == Some(
                    (#[trigger] times@[j])@,
                ),
        decreases texts@.len() - i,
    {
        match Instant::parse(texts[i].as_str()) {
            Ok(t) => {
                times.push(t);
            },
            Err(e) => {
                return Err(AppError::DateError(e));
            },
        }
        i += 1;
    }
    Ok(times)
}

/// Lists the positions of the samples that fall into `window`, ascending.
pub fn collect_window(times: &Vec<Instant>, window: Window, days: u32) -> (r: Vec<usize>)
    ensures
        r@ == window_indices(times@, window, days as int, times@.len() as int),
        forall|j: int| 0 <= j < r@.len() ==> #[trigger] r@[j] < times@.len(),
{
    let mut out: Vec<usize> = Vec::new();
    if times.len() == 0 {
        return out;
    }
    let last = times[times.len() - 1];
    let near: i128 = days as i128 * NANOS_PER_DAY;
    let far: i128 = 2 * near;
    let mut i: usize = 0;
    while i < times.len()
        invariant
            i <= times@.len(),
            times@.len() > 0,
            last == times@.last(),
            near == days * NANOS_PER_DAY,
            far == 2 * days * NANOS_PER_DAY,
            out@ == window_indices(times@, window, days as int, i as int),
            forall|j: int| 0 <= j < out@.len() ==> #[trigger] out@[j] < times@.len(),
        decreases times@.len() - i,
    {
        let age = last.nanos_since(&times[i]);
        let inside = match window {
            Window::Recent => age <= near,
            Window::Previous => near < age && age < far,
        };
        if inside {
            out.push(i);
        }
        i += 1;
    }
    out
}

/// Decides whether the change over `days` days is reported and, if so, over
/// which samples: the series must span twice that many days, and both
/// windows must hold a sample.
pub fn change_window(times: &Vec<Instant>, days: u32) -> (r: Option<ChangeWindow>)
    ensures
        match r {
            Some(w) => {
                &&& change_window_of(times@, days as int) == Some((w.recent@, w.previous@))
                &&& forall|j: int| 0 <= j < w.recent@.len() ==> #[trigger] w.recent@[j] < times@.len()
                &&& forall|j: int|
                    0 <= j < w.previous@.len() ==> #[trigger] w.previous@[j] < times@.len()
            },
            None => change_window_of(times@, days as int) is None,
        },
{
    if times.len() == 0 {
        return None;
    }
    let span = times[times.len() - 1].nanos_since(&times[0]);
    if span < 2 * (days as i128 * NANOS_PER_DAY) {
        return None;
    }
    let recent = collect_window(times, Window::Recent, days);
    let previous = collect_window(times, Window::Previous, days);
    if recent.len() > 0 && previous.len() > 0 {
        Some(ChangeWindow { recent, previous })
    } else {
        None
    }
}

/// Plans the report on a series of weight samples, given their instants in
/// ascending order. An empty series is refused rather than indexed into.
pub fn plan_changes(times: &Vec<Instant>) -> (r: Result<WeightPlan, AppError>)
    ensures
        r is Err <==> times@.len() == 0,
        r matches Err(e) ==> e == AppError::Status(INTERNAL_SERVER_ERROR),
        r matches Ok(plan) ==> {
            &&& plan.count == times@.len()
            &&& is_change(plan.change_week_over_week, times@, WEEK_DAYS as int)
            &&& is_change(plan.change_month_over_month, times@, MONTH_DAYS as int)
        },
{
    if times.len() == 0 {
        return Err(AppError::Status(INTERNAL_SERVER_ERROR));
    }
    Ok(
        WeightPlan {
            count: times.len(),
            change_week_over_week: change_window(times, WEEK_DAYS),
            change_month_over_month: change_window(times, MONTH_DAYS),
        },
    )
}

/// Whether `change` is the decision on the change over `days` days.
pub open spec fn is_change(change: Option<ChangeWindow>, times: Seq<Instant>, days: int) -> bool {
    match change {
        Some(w) => change_window_of(times, days) == Some((w.recent@, w.previous@)),
        None => change_window_of(times, days) is None,
    }
}

} // verus!

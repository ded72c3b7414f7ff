//! The public overview: service cards with their daily history, and the
//! summary of all services.
use chrono::Datelike;
use crate::models::service::Service;
use crate::models::uptime::DailyAggregate;
use crate::text::{spec_to_lowercase, text_eq, to_lowercase};
use vstd::prelude::*;

verus! {

// ── Service cards ─────────────────────────────────────────

/// A service as the overview shows it: the service, one aggregate per day,
/// and its uptime over the shown days (a binary64 number, carried as its
/// bit pattern).
#[derive(Debug)]
pub struct ServiceCard {
    pub service: Service,
    pub days: Vec<DailyAggregate>,
    pub uptime_pct_90d_bits: u64,
}

impl ServiceCard {
    /// The service's category in lower case.
    pub fn category_lower(&self) -> (r: String)
        ensures
            r@ == spec_to_lowercase(self.service.category@),
    {
        to_lowercase(self.service.category.as_str())
    }

    /// The service's name in lower case.
    pub fn name_lower(&self) -> (r: String)
        ensures
            r@ == spec_to_lowercase(self.service.name@),
    {
        to_lowercase(self.service.name.as_str())
    }
}

// ── The daily history ─────────────────────────────────────

/// The last aggregate in `sparse` for the day `date`: when several are for
/// the same day, the later one wins.
pub open spec fn latest_for(sparse: Seq<DailyAggregate>, date: Seq<char>) -> Option<
    DailyAggregate,
>
    decreases sparse.len(),
{
    if sparse.len() == 0 {
        None
    } else if sparse.last().date@ == date {
        Some(sparse.last())
    } else {
        latest_for(sparse.drop_last(), date)
    }
}

/// `a` is the slot for day `date`: the latest aggregate for that day, or,
/// when there is none, an empty day of the service.
pub open spec fn is_slot(
    a: DailyAggregate,
    service_id: Seq<char>,
    sparse: Seq<DailyAggregate>,
    date: Seq<char>,
) -> bool {
    match latest_for(sparse, date) {
        Some(x) => a == x,
        None => a.service_id@ == service_id && a.date@ == date && a.total_checks == 0
            && a.ok_checks == 0 && a.avg_latency_ms_bits == 0,
    }
}

fn latest_index(sparse: &Vec<DailyAggregate>, date: &str) -> (r: Option<usize>)
    ensures
        match latest_for(sparse@, date@) {
            Some(x) => r matches Some(i) && i < sparse@.len() && sparse@[i as int] == x,
            None => r is None,
        },
{
    let mut i: usize = sparse.len();
    assert(sparse@.take(i as int) =~= sparse@);
    while i > 0
        invariant
            i <= sparse@.len(),
            latest_for(sparse@, date@) == latest_for(sparse@.take(i as int), date@),
        decreases i,
    {
        let ghost p = sparse@.take(i as int);
        assert(p.drop_last() =~= sparse@.take(i - 1));
        assert(p.last() == sparse@[i - 1]);
        if text_eq(sparse[i - 1].date.as_str(), date) {
            return Some(i - 1);
        }
        i = i - 1;
    }
    None
}

/// One slot per day of `dates`, in order: the latest aggregate of `sparse`
/// for that day, or an empty day of the service where there is none.
pub fn expand_days_for(service_id: &str, sparse: &Vec<DailyAggregate>, dates: &Vec<String>) -> (r:
    Vec<DailyAggregate>)
    ensures
        r@.len() == dates@.len(),
        forall|i: int|
            0 <= i < dates@.len() ==> is_slot(#[trigger] r@[i], service_id@, sparse@, dates@[i]@),
{
    let mut r: Vec<DailyAggregate> = Vec::new();
    let n = dates.len();
    let mut i: usize = 0;
    while i < n
        invariant
            n == dates@.len(),
            i <= n,
            r@.len() == i,
            forall|k: int|
                0 <= k < i ==> is_slot(#[trigger] r@[k], service_id@, sparse@, dates@[k]@),
        decreases n - i,
    {
        let date = dates[i].as_str();
        match latest_index(sparse, date) {
            Some(j) => r.push(sparse[j].clone()),
            None => r.push(DailyAggregate::no_data(service_id, date)),
        }
        i = i + 1;
    }
    r
}

/// Each slot of the history is for its own day: the slot at position `i`
/// carries the date of day `i`.
pub proof fn law_slot_has_its_date(
    a: DailyAggregate,
    service_id: Seq<char>,
    sparse: Seq<DailyAggregate>,
    date: Seq<char>,
)
    requires
        is_slot(a, service_id, sparse, date),
    ensures
        a.date@ == date,
    decreases sparse.len(),
{
    if sparse.len() > 0 && sparse.last().date@ != date {
        if latest_for(sparse.drop_last(), date) is Some {
            law_slot_has_its_date(a, service_id, sparse.drop_last(), date);
        }
    }
}

/// The `%Y-%m-%d` text of the day numbered `day` from the Common Era
/// (1 January of year 1 is day 1), as `chrono` writes it, or `None` when
/// `chrono` has no date with that number. It depends on the number alone.
pub uninterp spec fn iso_date_of_day(day: int) -> Option<Seq<char>>;

/// The date text of a day number, `None` outside the 32-bit range that
/// `chrono` takes.
pub open spec fn date_text(day: int) -> Option<Seq<char>> {
    if i32::MIN <= day <= i32::MAX {
        iso_date_of_day(day)
    } else {
        None
    }
}

/// `s` is the date text of day `day`.
pub open spec fn is_text_of_day(s: String, day: int) -> bool {
    date_text(day) matches Some(d) && s@ == d
}

/// `a` is the slot for day `day` of the history.
pub open spec fn is_slot_on_day(
    a: DailyAggregate,
    service_id: Seq<char>,
    sparse: Seq<DailyAggregate>,
    day: int,
) -> bool {
    date_text(day) matches Some(d) && is_slot(a, service_id, sparse, d)
}

/// Calls `NaiveDate::from_num_days_from_ce_opt` and formats the date with
/// `format("%Y-%m-%d")`. The contract claims that the text is a function of
/// the day number alone (named `iso_date_of_day`); the calendar is not
/// restated.
#[verifier::external_body]
fn iso_date(day: i32) -> (r: Option<String>)
    ensures
        match iso_date_of_day(day as int) {
            Some(d) => r matches Some(s) && s@ == d,
            None => r is None,
        },
{
    match chrono::NaiveDate::from_num_days_from_ce_opt(day) {
        Some(d) => Some(d.format("%Y-%m-%d").to_string()),
        None => None,
    }
}

/// Calls `Utc::now().date_naive().num_days_from_ce()`: today's day number
/// in UTC. Which day it is depends on the clock and is not claimed; the
/// contract claims only that it is the number of a date that `chrono` holds,
/// so that `NaiveDate::from_num_days_from_ce_opt` gives a date back for it.
#[verifier::external_body]
fn utc_today() -> (r: i32)
    ensures
        iso_date_of_day(r as int) is Some,
{
    chrono::Utc::now().date_naive().num_days_from_ce()
}

/// The date texts of the `num_days` days that end with day `today`, oldest
/// first, or `None` when one of them has no date.
pub fn day_dates(today: i32, num_days: usize) -> (r: Option<Vec<String>>)
    ensures
        match r {
            Some(v) => v@.len() == num_days && forall|i: int|
                0 <= i < num_days ==> is_text_of_day(#[trigger] v@[i], today - (num_days - 1 - i)),
            None => exists|i: int|
                0 <= i < num_days && #[trigger] date_text(today - (num_days - 1 - i)) is None,
        },
{
    let mut v: Vec<String> = Vec::new();
    let mut i: usize = 0;
    while i < num_days
        invariant
            i <= num_days,
            v@.len() == i,
            forall|k: int|
                0 <= k < i ==> is_text_of_day(#[trigger] v@[k], today - (num_days - 1 - k)),
        decreases num_days - i,
    {
        let back = num_days - 1 - i;
        if (back as u64) > 0xffff_ffffu64 {
            assert(date_text(today - (num_days - 1 - i)) is None);
            return None;
        }
        let day = (today as i64) - (back as i64);
        if day < i32::MIN as i64 {
            assert(date_text(today - (num_days - 1 - i)) is None);
            return None;
        }
        assert(day == today - (num_days - 1 - i));
        match iso_date(day as i32) {
            Some(d) => {
                let ghost before = v@;
                v.push(d);
                assert forall|k: int| 0 <= k < i + 1 implies is_text_of_day(
                    #[trigger] v@[k],
                    today - (num_days - 1 - k),
                ) by {
                    if k < i {
                        assert(v@[k] == before[k]);
                    }
                }
            },
            None => {
                assert(date_text(today - (num_days - 1 - i)) is None);
                return None;
            },
        }
        i = i + 1;
    }
    Some(v)
}

/// `v` is the daily history of a service over the `num_days` days that end
/// with day `today`: one slot per day, oldest first.
pub open spec fn is_history(
    v: Seq<DailyAggregate>,
    service_id: Seq<char>,
    sparse: Seq<DailyAggregate>,
    today: int,
    num_days: int,
) -> bool {
    &&& v.len() == num_days
    &&& forall|i: int|
        0 <= i < num_days ==> is_slot_on_day(#[trigger] v[i], service_id, sparse, today - (num_days
            - 1 - i))
}

/// A history ends on its own day: its last slot carries the date of day
/// `today` and is that day's slot, and its first slot is the slot of the
/// day `num_days - 1` days earlier.
pub proof fn law_history_ends_on_its_day(
    v: Seq<DailyAggregate>,
    service_id: Seq<char>,
    sparse: Seq<DailyAggregate>,
    today: int,
    num_days: int,
)
    requires
        is_history(v, service_id, sparse, today, num_days),
        num_days > 0,
    ensures
        date_text(today) matches Some(d) && v[num_days - 1].date@ == d,
        is_slot_on_day(v[num_days - 1], service_id, sparse, today),
        is_slot_on_day(v[0], service_id, sparse, today - (num_days - 1)),
{
    assert(is_slot_on_day(v[num_days - 1], service_id, sparse, today - (num_days - 1 - (num_days
        - 1))));
    assert(is_slot_on_day(v[0], service_id, sparse, today - (num_days - 1 - 0)));
    let d = date_text(today)->0;
    law_slot_has_its_date(v[num_days - 1], service_id, sparse, d);
}

/// The daily history of a service over the `num_days` days that end today
/// (UTC): one slot per day, oldest first, so the last slot is today's. A
/// day of `sparse` fills its slot; a day without data is an empty day.
/// `None` exactly when one of the days has no date in `chrono`.
pub fn expand_days(service_id: &str, sparse: &Vec<DailyAggregate>, num_days: usize) -> (r: Option<
    Vec<DailyAggregate>,
>)
    ensures
        exists|today: int|
            #[trigger] date_text(today) is Some && match r {
                Some(v) => is_history(v@, service_id@, sparse@, today, num_days as int),
                None => exists|i: int|
                    0 <= i < num_days && #[trigger] date_text(today - (num_days - 1 - i)) is None,
            },
{
    let today = utc_today();
    match day_dates(today, num_days) {
        Some(dates) => {
            let v = expand_days_for(service_id, sparse, &dates);
            assert forall|i: int| 0 <= i < num_days implies is_slot_on_day(
                #[trigger] v@[i],
                service_id@,
                sparse@,
                today - (num_days - 1 - i),
            ) by {
                assert(is_text_of_day(dates@[i], today - (num_days - 1 - i)));
            }
            assert(is_history(v@, service_id@, sparse@, today as int, num_days as int));
            let r = Some(v);
            assert(r matches Some(w) && w@ == v@);
            assert(date_text(today as int) is Some && match r {
                Some(w) => is_history(w@, service_id@, sparse@, today as int, num_days as int),
                None => false,
            });
            r
        },
        None => {
            let r: Option<Vec<DailyAggregate>> = None;
            assert(date_text(today as int) is Some && match r {
                Some(w) => false,
                None => exists|i: int|
                    0 <= i < num_days && #[trigger] date_text(today - (num_days - 1 - i)) is None,
            });
            r
        },
    }
}

// ── The summary of all services ───────────────────────────

/// Some service has this status.
pub open spec fn some_with_status(services: Seq<Service>, status: Seq<char>) -> bool {
    exists|i: int| 0 <= i < services.len() && (#[trigger] services[i]).status@ == status
}

/// The state of the whole site: down when some service is down, degraded
/// when some service is degraded, and ok otherwise.
pub open spec fn overall_of(services: Seq<Service>) -> Seq<char> {
    if some_with_status(services, "down"@) {
        "down"@
    } else if some_with_status(services, "degraded"@) {
        "degraded"@
    } else {
        "ok"@
    }
}

/// The number of services with this status.
pub open spec fn count_with_status(services: Seq<Service>, status: Seq<char>) -> nat
    decreases services.len(),
{
    if services.len() == 0 {
        0
    } else {
        count_with_status(services.drop_last(), status) + if services.last().status@ == status {
            1nat
        } else {
            0nat
        }
    }
}

fn has_status(services: &Vec<Service>, status: &str) -> (r: bool)
    ensures
        r == some_with_status(services@, status@),
{
    let n = services.len();
    let mut i: usize = 0;
    while i < n
        invariant
            n == services@.len(),
            i <= n,
            forall|k: int| 0 <= k < i ==> (#[trigger] services@[k]).status@ != status@,
        decreases n - i,
    {
        if text_eq(services[i].status.as_str(), status) {
            return true;
        }
        i = i + 1;
    }
    false
}

/// The state of the whole site.
pub fn overall_status(services: &Vec<Service>) -> (r: &'static str)
    ensures
        r@ == overall_of(services@),
{
    if has_status(services, "down") {
        "down"
    } else if has_status(services, "degraded") {
        "degraded"
    } else {
        "ok"
    }
}

/// How many services are ok, degraded and down.
#[derive(Debug)]
pub struct StatusCounts {
    pub ok: usize,
    pub degraded: usize,
    pub down: usize,
}

proof fn lemma_count_le(services: Seq<Service>, status: Seq<char>)
    ensures
        count_with_status(services, status) <= services.len(),
    decreases services.len(),
{
    if services.len() > 0 {
        lemma_count_le(services.drop_last(), status);
    }
}

fn count_status(services: &Vec<Service>, status: &str) -> (r: usize)
    ensures
        r == count_with_status(services@, status@),
{
    let n = services.len();
    let mut c: usize = 0;
    let mut i: usize = 0;
    assert(services@.take(0) =~= Seq::<Service>::empty());
    while i < n
        invariant
            n == services@.len(),
            i <= n,
            c == count_with_status(services@.take(i as int), status@),
        decreases n - i,
    {
        proof {
            let p = services@.take(i + 1);
            assert(p.drop_last() =~= services@.take(i as int));
            lemma_count_le(services@.take(i as int), status@);
        }
        if text_eq(services[i].status.as_str(), status) {
            c = c + 1;
        }
        i = i + 1;
    }
    assert(services@.take(n as int) =~= services@);
    c
}

/// How many services are `ok`, `degraded` and `down`.
pub fn status_counts(services: &Vec<Service>) -> (r: StatusCounts)
    ensures
        r.ok == count_with_status(services@, "ok"@),
        r.degraded == count_with_status(services@, "degraded"@),
        r.down == count_with_status(services@, "down"@),
{
    StatusCounts {
        ok: count_status(services, "ok"),
        degraded: count_status(services, "degraded"),
        down: count_status(services, "down"),
    }
}

/// The site is shown as ok exactly when no service is down or degraded.
pub proof fn law_overall_ok(services: Seq<Service>)
    ensures
        (overall_of(services) == "ok"@) <==> (!some_with_status(services, "down"@)
            && !some_with_status(services, "degraded"@)),
{
    reveal_strlit("ok");
    reveal_strlit("down");
    reveal_strlit("degraded");
    assert("ok"@.len() == 2 && "down"@.len() == 4 && "degraded"@.len() == 8);
}

/// The site's state follows its services: `down` exactly when some service
/// is down; `degraded` exactly when none is down and some is degraded; `ok`
/// exactly when none is down or degraded.
pub proof fn law_overall_status_cases(services: Seq<Service>)
    ensures
        (overall_of(services) == "down"@) <==> (exists|i: int|
            0 <= i < services.len() && (#[trigger] services[i]).status@ == "down"@),
        (overall_of(services) == "degraded"@) <==> ((forall|i: int|
            0 <= i < services.len() ==> (#[trigger] services[i]).status@ != "down"@) && (exists|
            i: int|
            0 <= i < services.len() && (#[trigger] services[i]).status@ == "degraded"@)),
        (overall_of(services) == "ok"@) <==> (forall|i: int|
            0 <= i < services.len() ==> (#[trigger] services[i]).status@ != "down"@
                && services[i].status@ != "degraded"@),
{
    reveal_strlit("ok");
    reveal_strlit("down");
    reveal_strlit("degraded");
    assert("ok"@.len() == 2 && "down"@.len() == 4 && "degraded"@.len() == 8);
}

/// The site is shown as down exactly when some service is counted down.
pub proof fn law_overall_down_iff_counted(services: Seq<Service>)
    ensures
        (overall_of(services) == "down"@) <==> count_with_status(services, "down"@) > 0,
    decreases services.len(),
{
    reveal_strlit("ok");
    reveal_strlit("down");
    reveal_strlit("degraded");
    assert("ok"@.len() == 2 && "down"@.len() == 4 && "degraded"@.len() == 8);
    lemma_count_positive(services, "down"@);
}

proof fn lemma_count_positive(services: Seq<Service>, status: Seq<char>)
    ensures
        count_with_status(services, status) > 0 <==> some_with_status(services, status),
    decreases services.len(),
{
    if services.len() > 0 {
        let p = services.drop_last();
        lemma_count_positive(p, status);
        if some_with_status(p, status) {
            let k = choose|k: int| 0 <= k < p.len() && (#[trigger] p[k]).status@ == status;
            assert(services[k] == p[k]);
        }
        if some_with_status(services, status) {
            let k = choose|k: int|
                0 <= k < services.len() && (#[trigger] services[k]).status@ == status;
            if k < p.len() {
                assert(services[k] == p[k]);
            }
        }
        if services.last().status@ == status {
            assert(services[services.len() - 1] == services.last());
        }
    }
}

/// The three counts never exceed the number of services.
pub proof fn law_counts_within_total(services: Seq<Service>)
    ensures
        count_with_status(services, "ok"@) + count_with_status(services, "degraded"@)
            + count_with_status(services, "down"@) <= services.len(),
    decreases services.len(),
{
    reveal_strlit("ok");
    reveal_strlit("down");
    reveal_strlit("degraded");
    assert("ok"@.len() == 2 && "down"@.len() == 4 && "degraded"@.len() == 8);
    if services.len() > 0 {
        law_counts_within_total(services.drop_last());
    }
}

} // verus!

//! Per-day check counts of a service.
use crate::models::service::ZERO_BITS;
use crate::text::text_eq;
use vstd::prelude::*;

verus! {

/// The checks of one service on one day. The mean latency is a binary64
/// number carried as its bit pattern (`f64::to_bits`).
#[derive(Debug)]
pub struct DailyAggregate {
    pub service_id: String,
    pub date: String,
    pub total_checks: i64,
    pub ok_checks: i64,
    pub avg_latency_ms_bits: u64,
}

/// `ok / total >= num / den` on the rationals, for `total != 0` and
/// `den > 0`.
pub open spec fn ratio_at_least(ok: int, total: int, num: int, den: int) -> bool {
    if total > 0 {
        ok * den >= num * total
    } else {
        ok * den <= num * total
    }
}

/// The state of a day: no data when nothing was checked, `ok` when at least
/// 99 % of the checks passed, `degraded` from 90 %, `down` below.
pub open spec fn day_status_of(total: int, ok: int) -> Seq<char> {
    if total == 0 {
        "nodata"@
    } else if ratio_at_least(ok, total, 99, 100) {
        "ok"@
    } else if ratio_at_least(ok, total, 90, 100) {
        "degraded"@
    } else {
        "down"@
    }
}

/// The style class of a day state.
pub open spec fn day_class_of(status: Seq<char>) -> Seq<char> {
    if status == "ok"@ {
        "ok"@
    } else if status == "degraded"@ {
        "warn"@
    } else if status == "down"@ {
        "bad"@
    } else {
        "nodata"@
    }
}

/// `ok / total >= num / den`, computed without overflow.
fn ratio_reaches(ok: i64, total: i64, num: i64, den: i64) -> (r: bool)
    requires
        total != 0,
        0 < den <= 100,
        0 <= num <= den,
    ensures
        r == ratio_at_least(ok as int, total as int, num as int, den as int),
{
    let (o, d, n, t) = (ok as i128, den as i128, num as i128, total as i128);
    assert(-0x1_0000_0000_0000_0000_0000 <= o * d <= 0x1_0000_0000_0000_0000_0000) by (nonlinear_arith)
        requires
            -0x8000_0000_0000_0000 <= o <= 0x7fff_ffff_ffff_ffff,
            0 < d <= 100,
    ;
    assert(-0x1_0000_0000_0000_0000_0000 <= n * t <= 0x1_0000_0000_0000_0000_0000) by (nonlinear_arith)
        requires
            -0x8000_0000_0000_0000 <= t <= 0x7fff_ffff_ffff_ffff,
            0 <= n <= 100,
    ;
    let lhs = o * d;
    let rhs = n * t;
    if total > 0 {
        lhs >= rhs
    } else {
        lhs <= rhs
    }
}

impl DailyAggregate {
    /// A day with no checks, shown as a gap.
    pub fn no_data(service_id: &str, date: &str) -> (r: DailyAggregate)
        ensures
            r.service_id@ == service_id@,
            r.date@ == date@,
            r.total_checks == 0,
            r.ok_checks == 0,
            r.avg_latency_ms_bits == ZERO_BITS,
    {
        DailyAggregate {
            service_id: String::from_str(service_id),
            date: String::from_str(date),
            total_checks: 0,
            ok_checks: 0,
            avg_latency_ms_bits: ZERO_BITS,
        }
    }

    /// The state of this day.
    pub fn status(&self) -> (r: &str)
        ensures
            r@ == day_status_of(self.total_checks as int, self.ok_checks as int),
    {
        if self.total_checks == 0 {
            return "nodata";
        }
        if ratio_reaches(self.ok_checks, self.total_checks, 99, 100) {
            "ok"
        } else if ratio_reaches(self.ok_checks, self.total_checks, 90, 100) {
            "degraded"
        } else {
            "down"
        }
    }

    /// The style class of this day's state.
    pub fn status_class(&self) -> (r: &str)
        ensures
            r@ == day_class_of(day_status_of(self.total_checks as int, self.ok_checks as int)),
    {
        let s = self.status();
        if text_eq(s, "ok") {
            "ok"
        } else if text_eq(s, "degraded") {
            "warn"
        } else if text_eq(s, "down") {
            "bad"
        } else {
            "nodata"
        }
    }
}

/// What a check adds to the day's count of passed checks: 1 for status
/// `ok`, 0 otherwise.
pub fn ok_increment(status: &str) -> (r: i64)
    ensures
        r == (if status@ == "ok"@ {
            1int
        } else {
            0int
        }),
{
    if text_eq(status, "ok") {
        1
    } else {
        0
    }
}

impl Clone for DailyAggregate {
    fn clone(&self) -> (r: Self)
        ensures
            r == *self,
    {
        DailyAggregate {
            service_id: self.service_id.clone(),
            date: self.date.clone(),
            total_checks: self.total_checks,
            ok_checks: self.ok_checks,
            avg_latency_ms_bits: self.avg_latency_ms_bits,
        }
    }
}

/// A day with checks is `ok` exactly when at least 99 % of its checks
/// passed, `degraded` exactly when at least 90 % but under 99 % passed, and
/// `down` exactly when under 90 % passed; its class is then `ok`, `warn` or
/// `bad`. A day without checks has no data.
pub proof fn law_day_status_thresholds(total: int, ok: int)
    ensures
        total == 0 ==> day_status_of(total, ok) == "nodata"@,
        total > 0 ==> (day_status_of(total, ok) == "ok"@ <==> 100 * ok >= 99 * total),
        total > 0 ==> (day_status_of(total, ok) == "degraded"@ <==> 90 * total <= 100 * ok < 99
            * total),
        total > 0 ==> (day_status_of(total, ok) == "down"@ <==> 100 * ok < 90 * total),
        total > 0 ==> (day_class_of(day_status_of(total, ok)) == "bad"@ <==> 100 * ok < 90
            * total),
        total > 0 ==> (day_class_of(day_status_of(total, ok)) == "ok"@ <==> 100 * ok >= 99
            * total),
{
    reveal_strlit("nodata");
    reveal_strlit("ok");
    reveal_strlit("degraded");
    reveal_strlit("down");
    reveal_strlit("warn");
    reveal_strlit("bad");
    assert("nodata"@.len() == 6 && "ok"@.len() == 2 && "degraded"@.len() == 8 && "down"@.len()
        == 4 && "warn"@.len() == 4 && "bad"@.len() == 3);
    assert("down"@[0] != "warn"@[0]);
}

/// The state of a day depends on the share of passed checks alone: the same
/// share over `k` times as many checks gives the same state.
pub proof fn law_day_status_depends_on_share(total: int, ok: int, k: int)
    requires
        k > 0,
    ensures
        day_status_of(k * total, k * ok) == day_status_of(total, ok),
{
    assert((k * total == 0) <==> (total == 0)) by (nonlinear_arith)
        requires
            k > 0,
    ;
    assert((k * total > 0) <==> (total > 0)) by (nonlinear_arith)
        requires
            k > 0,
    ;
    assert(((k * ok) * 100 >= 99 * (k * total)) <==> (ok * 100 >= 99 * total)) by (nonlinear_arith)
        requires
            k > 0,
    ;
    assert(((k * ok) * 100 <= 99 * (k * total)) <==> (ok * 100 <= 99 * total)) by (nonlinear_arith)
        requires
            k > 0,
    ;
    assert(((k * ok) * 100 >= 90 * (k * total)) <==> (ok * 100 >= 90 * total)) by (nonlinear_arith)
        requires
            k > 0,
    ;
    assert(((k * ok) * 100 <= 90 * (k * total)) <==> (ok * 100 <= 90 * total)) by (nonlinear_arith)
        requires
            k > 0,
    ;
}

} // verus!

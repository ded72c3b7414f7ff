//! Monitored services.
use crate::text::{spec_to_lowercase, text_eq, to_lowercase};
use vstd::prelude::*;

verus! {

/// The IEEE-754 bit pattern of `100.0_f64`, the uptime of a service that
/// has not been checked yet.
pub const FULL_UPTIME_BITS: u64 = 0x4059_0000_0000_0000u64;

/// The IEEE-754 bit pattern of `0.0_f64`.
pub const ZERO_BITS: u64 = 0u64;

/// A monitored service. The two measured figures, uptime in percent and
/// mean latency in milliseconds, are binary64 numbers; they are carried
/// here as their bit patterns (`f64::to_bits`), and nothing in this crate
/// computes with them.
#[derive(Debug)]
pub struct Service {
    pub id: String,
    pub name: String,
    pub category: String,
    pub url: String,
    pub probe_type: String,
    pub probe_config: String,
    pub interval_secs: i64,
    pub status: String,
    pub uptime_pct_bits: u64,
    pub avg_latency_ms_bits: u64,
    pub region: String,
    pub is_public: bool,
    pub enabled: bool,
    pub sort_order: i64,
    pub created_at: String,
    pub updated_at: String,
}

/// The label shown for a service status.
pub open spec fn status_label_of(status: Seq<char>) -> Seq<char> {
    if status == "ok"@ {
        "operational"@
    } else if status == "degraded"@ {
        "degraded"@
    } else if status == "down"@ {
        "down"@
    } else if status == "paused"@ {
        "paused"@
    } else {
        "unknown"@
    }
}

/// The style class of a service status.
pub open spec fn status_class_of(status: Seq<char>) -> Seq<char> {
    if status == "ok"@ {
        "ok"@
    } else if status == "degraded"@ {
        "warn"@
    } else if status == "down"@ {
        "bad"@
    } else {
        "maint"@
    }
}

impl Clone for Service {
    fn clone(&self) -> (r: Self)
        ensures
            r == *self,
    {
        Service {
            id: self.id.clone(),
            name: self.name.clone(),
            category: self.category.clone(),
            url: self.url.clone(),
            probe_type: self.probe_type.clone(),
            probe_config: self.probe_config.clone(),
            interval_secs: self.interval_secs,
            status: self.status.clone(),
            uptime_pct_bits: self.uptime_pct_bits,
            avg_latency_ms_bits: self.avg_latency_ms_bits,
            region: self.region.clone(),
            is_public: self.is_public,
            enabled: self.enabled,
            sort_order: self.sort_order,
            created_at: self.created_at.clone(),
            updated_at: self.updated_at.clone(),
        }
    }
}

impl Service {
    /// The label shown for this service's status.
    pub fn status_label(&self) -> (r: &str)
        ensures
            r@ == status_label_of(self.status@),
    {
        let s = self.status.as_str();
        if text_eq(s, "ok") {
            "operational"
        } else if text_eq(s, "degraded") {
            "degraded"
        } else if text_eq(s, "down") {
            "down"
        } else if text_eq(s, "paused") {
            "paused"
        } else {
            "unknown"
        }
    }

    /// The style class of this service's status.
    pub fn status_class(&self) -> (r: &str)
        ensures
            r@ == status_class_of(self.status@),
    {
        let s = self.status.as_str();
        if text_eq(s, "ok") {
            "ok"
        } else if text_eq(s, "degraded") {
            "warn"
        } else if text_eq(s, "down") {
            "bad"
        } else {
            "maint"
        }
    }

    /// The category in lower case.
    pub fn category_lower(&self) -> (r: String)
        ensures
            r@ == spec_to_lowercase(self.category@),
    {
        to_lowercase(self.category.as_str())
    }
}

} // verus!

//! Planned maintenance windows.
use crate::text::text_eq;
use vstd::prelude::*;

verus! {

/// A maintenance window as stored.
#[derive(Debug)]
pub struct Maintenance {
    pub id: String,
    pub title: String,
    pub status: String,
    pub start_time: String,
    pub end_time: String,
    pub impact: String,
    pub notes: String,
    pub created_at: String,
}

/// A maintenance window with the names of the services it touches.
#[derive(Debug)]
pub struct MaintenanceWithServices {
    pub maintenance: Maintenance,
    pub service_names: Vec<String>,
}

/// The style class of a maintenance impact: `degraded` is a warning, `down`
/// is bad, anything else is shown as maintenance.
pub open spec fn impact_class_of(impact: Seq<char>) -> Seq<char> {
    if impact == "degraded"@ {
        "warn"@
    } else if impact == "down"@ {
        "bad"@
    } else {
        "maint"@
    }
}

impl Maintenance {
    /// The style class of this window's impact.
    pub fn impact_class(&self) -> (r: &str)
        ensures
            r@ == impact_class_of(self.impact@),
    {
        if text_eq(self.impact.as_str(), "degraded") {
            "warn"
        } else if text_eq(self.impact.as_str(), "down") {
            "bad"
        } else {
            "maint"
        }
    }
}

} // verus!

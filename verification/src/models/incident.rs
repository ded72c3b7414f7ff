//! Incidents and the updates posted on them.
use crate::text::text_eq;
use vstd::prelude::*;

verus! {

/// An incident as stored: its state, its severity and when it began and
/// ended.
#[derive(Debug)]
pub struct Incident {
    pub id: String,
    pub title: String,
    pub status: String,
    pub severity: String,
    pub started_at: String,
    pub resolved_at: Option<String>,
    pub is_public: bool,
    pub created_at: String,
}

/// A message posted on an incident, with the state it moved the incident to.
#[derive(Debug)]
pub struct IncidentUpdate {
    pub id: String,
    pub incident_id: String,
    pub status: String,
    pub message: String,
    pub created_by: String,
    pub created_at: String,
}

/// An incident together with its updates and the names of the services it
/// touches.
#[derive(Debug)]
pub struct IncidentWithUpdates {
    pub incident: Incident,
    pub updates: Vec<IncidentUpdate>,
    pub service_names: Vec<String>,
}

/// The style class of an incident severity: `degraded` is a warning, `down`
/// is bad, anything else is shown like maintenance.
pub open spec fn severity_class_of(severity: Seq<char>) -> Seq<char> {
    if severity == "degraded"@ {
        "warn"@
    } else if severity == "down"@ {
        "bad"@
    } else {
        "maint"@
    }
}

impl Incident {
    /// The style class of this incident's severity.
    pub fn severity_class(&self) -> (r: &str)
        ensures
            r@ == severity_class_of(self.severity@),
    {
        if text_eq(self.severity.as_str(), "degraded") {
            "warn"
        } else if text_eq(self.severity.as_str(), "down") {
            "bad"
        } else {
            "maint"
        }
    }

    /// The label shown for this incident's status. The known states
    /// (investigating, identified, monitoring, resolved) are shown by their
    /// own name, and any other state is shown as stored: the label is the
    /// status itself.
    pub fn status_label(&self) -> (r: &str)
        ensures
            r@ == self.status@,
    {
        let s = self.status.as_str();
        if text_eq(s, "investigating") {
            "investigating"
        } else if text_eq(s, "identified") {
            "identified"
        } else if text_eq(s, "monitoring") {
            "monitoring"
        } else if text_eq(s, "resolved") {
            "resolved"
        } else {
            s
        }
    }
}

impl IncidentUpdate {
    /// Whether posting this update resolves its incident, which then gets
    /// its resolution time.
    pub fn resolves(&self) -> (r: bool)
        ensures
            r == (self.status@ == "resolved"@),
    {
        text_eq(self.status.as_str(), "resolved")
    }
}

} // verus!

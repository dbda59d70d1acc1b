//! The consumer that turns supervisor status into user-facing signals.
//!
//! The publisher polls the supervisor's status on its own timer and emits
//! a change signal only on an actual transition edge, never on every poll,
//! so downstream listeners see each transition at most once. It also
//! decides what the status and metrics rows display, and shows metrics
//! only while the service is `Running` — never stale data from an earlier
//! running period.

use vstd::prelude::*;

use crate::status::{ServiceStatus, StatusView};
use crate::text::{decimal_string, spec_decimal};

verus! {

/// Edge-triggered observer of the supervisor's status: remembers the last
/// status seen and reports whether a new observation differs from it.
pub struct StatusPublisher {
    last: Option<ServiceStatus>,
}

impl View for StatusPublisher {
    type V = Option<StatusView>;

    closed spec fn view(&self) -> Option<StatusView> {
        match &self.last {
            Some(s) => Some(s@),
            None => None,
        }
    }
}

impl StatusPublisher {
    /// A fresh publisher that has observed nothing yet; its first
    /// observation always counts as a change.
    pub fn new() -> (r: Self)
        ensures
            r@ is None,
    {
        StatusPublisher { last: None }
    }

    /// Observe one status snapshot. Returns true exactly when it differs
    /// from the last observed one (or nothing was observed yet): the edge
    /// on which a notification is due. The snapshot becomes the new last
    /// observation either way.
    pub fn observe(&mut self, status: &ServiceStatus) -> (changed: bool)
        ensures
            final(self)@ == Some(status@),
            changed == (old(self)@ != Some(status@)),
    {
        let changed = match &self.last {
            None => true,
            Some(prev) => !prev.eq(status),
        };
        self.last = Some(status.clone());
        changed
    }
}

/// The status row's label for each service state.
pub open spec fn spec_status_label(v: StatusView) -> Seq<char> {
    match v {
        StatusView::Starting => "Status: Starting"@,
        StatusView::Running => "Status: Running"@,
        StatusView::Restarting => "Status: Restarting"@,
        StatusView::Stopped => "Status: Stopped"@,
        StatusView::Error(_) => "Status: Error"@,
    }
}

/// The label of the status row shown for the given status.
pub fn status_label(status: &ServiceStatus) -> (r: &'static str)
    ensures
        r@ == spec_status_label(status@),
{
    match status {
        ServiceStatus::Starting => "Status: Starting",
        ServiceStatus::Running => "Status: Running",
        ServiceStatus::Restarting => "Status: Restarting",
        ServiceStatus::Stopped => "Status: Stopped",
        ServiceStatus::Error(_) => "Status: Error",
    }
}

/// The restart row offers a restart while the service is up or on its way
/// up, and a plain start once it is stopped or failed.
pub open spec fn spec_restart_label(v: StatusView) -> Seq<char> {
    match v {
        StatusView::Starting => "Restart Service"@,
        StatusView::Running => "Restart Service"@,
        StatusView::Restarting => "Restart Service"@,
        StatusView::Stopped => "Start Service"@,
        StatusView::Error(_) => "Start Service"@,
    }
}

/// The label of the restart row shown for the given status.
pub fn restart_label(status: &ServiceStatus) -> (r: &'static str)
    ensures
        r@ == spec_restart_label(status@),
{
    match status {
        ServiceStatus::Starting => "Restart Service",
        ServiceStatus::Running => "Restart Service",
        ServiceStatus::Restarting => "Restart Service",
        ServiceStatus::Stopped => "Start Service",
        ServiceStatus::Error(_) => "Start Service",
    }
}

/// The memory-count row: the fetched count in decimal, or a dash while
/// there is no data.
pub open spec fn spec_memory_count_label(count: Option<u64>) -> Seq<char> {
    match count {
        Some(v) => "Memories: "@ + spec_decimal(v as int),
        None => "Memories: -"@,
    }
}

/// The label of the memory-count row for the given fetched count.
pub fn memory_count_label(count: Option<u64>) -> (r: String)
    ensures
        r@ == spec_memory_count_label(count),
{
    match count {
        Some(v) => {
            let mut s = "Memories: ".to_owned();
            let digits = decimal_string(v);
            s.append(digits.as_str());
            s
        },
        None => "Memories: -".to_owned(),
    }
}

/// Metrics pass through only while the service is `Running`; in every
/// other state the report is "no data", whatever was fetched before.
pub fn metrics_value(status: &ServiceStatus, fetched: Option<u64>) -> (r: Option<u64>)
    ensures
        r == (if status@ is Running {
            fetched
        } else {
            None::<u64>
        }),
{
    match status {
        ServiceStatus::Running => fetched,
        _ => None,
    }
}

} // verus!

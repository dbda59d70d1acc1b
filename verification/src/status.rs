//! The service status cell and the health payload.

use vstd::prelude::*;

verus! {

/// Mathematical model of a service status value.
pub ghost enum StatusView {
    Starting,
    Running,
    Restarting,
    Stopped,
    Error(Seq<char>),
}

/// Status of the supervised service, exactly one variant active at a time.
///
/// `Starting`: spawn issued, health not yet confirmed. `Running`: the last
/// health probe succeeded. `Restarting`: a stop-then-start cycle is in
/// progress. `Stopped`: intentionally terminated. `Error` carries the reason:
/// spawn failure, health timeout, process exit, or unresponsiveness.
#[derive(Debug)]
pub enum ServiceStatus {
    Starting,
    Running,
    Restarting,
    Stopped,
    Error(String),
}

impl View for ServiceStatus {
    type V = StatusView;

    open spec fn view(&self) -> StatusView {
        match self {
            ServiceStatus::Starting => StatusView::Starting,
            ServiceStatus::Running => StatusView::Running,
            ServiceStatus::Restarting => StatusView::Restarting,
            ServiceStatus::Stopped => StatusView::Stopped,
            ServiceStatus::Error(msg) => StatusView::Error(msg@),
        }
    }
}

impl Clone for ServiceStatus {
    fn clone(&self) -> (r: Self)
        ensures
            r@ == self@,
    {
        match self {
            ServiceStatus::Starting => ServiceStatus::Starting,
            ServiceStatus::Running => ServiceStatus::Running,
            ServiceStatus::Restarting => ServiceStatus::Restarting,
            ServiceStatus::Stopped => ServiceStatus::Stopped,
            ServiceStatus::Error(msg) => ServiceStatus::Error(msg.clone()),
        }
    }
}

impl PartialEq for ServiceStatus {
    fn eq(&self, other: &Self) -> (r: bool) {
        match (self, other) {
            (ServiceStatus::Starting, ServiceStatus::Starting) => true,
            (ServiceStatus::Running, ServiceStatus::Running) => true,
            (ServiceStatus::Restarting, ServiceStatus::Restarting) => true,
            (ServiceStatus::Stopped, ServiceStatus::Stopped) => true,
            (ServiceStatus::Error(a), ServiceStatus::Error(b)) => a.eq(b),
            _ => false,
        }
    }
}

impl vstd::std_specs::cmp::PartialEqSpecImpl for ServiceStatus {
    open spec fn obeys_eq_spec() -> bool {
        true
    }

    open spec fn eq_spec(&self, other: &Self) -> bool {
        self@ == other@
    }
}

/// Mathematical model of a health payload.
pub ghost struct HealthView {
    pub status: Seq<char>,
    pub version: Seq<char>,
}

/// Payload of a successful health probe: the service's reported state and
/// version, taken from the health endpoint's response body.
#[derive(Debug)]
pub struct HealthResponse {
    pub status: String,
    pub version: String,
}

impl View for HealthResponse {
    type V = HealthView;

    open spec fn view(&self) -> HealthView {
        HealthView { status: self.status@, version: self.version@ }
    }
}

impl Clone for HealthResponse {
    fn clone(&self) -> (r: Self)
        ensures
            r@ == self@,
    {
        HealthResponse { status: self.status.clone(), version: self.version.clone() }
    }
}

} // verus!

//! Where link events come from.

use crate::text::cat;
use vstd::prelude::*;

verus! {

/// Something that wakes the supervisor.
#[derive(Debug, Clone, PartialEq, Eq)]
pub enum LinkEvent {
    /// A periodic tick.
    PeriodicTick,
    /// An interface's carrier or address changed.
    InterfaceStateChanged {
        /// The interface, where the source could tell.
        interface: Option<String>,
    },
    /// The daemon's verdict on connectivity changed.
    ConnectivityChanged,
    /// A Wi-Fi association came up or went down.
    WifiAssociationChanged {
        /// Whether it is up now.
        associated: bool,
    },
    /// The activation of a connection moved on.
    ConnectionActivationChanged,
}

/// The identifier of an event.
pub open spec fn event_kind(e: LinkEvent) -> Seq<char> {
    match e {
        LinkEvent::PeriodicTick => "periodic_tick"@,
        LinkEvent::InterfaceStateChanged { .. } => "interface_state_changed"@,
        LinkEvent::ConnectivityChanged => "connectivity_changed"@,
        LinkEvent::WifiAssociationChanged { .. } => "wifi_association_changed"@,
        LinkEvent::ConnectionActivationChanged => "connection_activation_changed"@,
    }
}

impl LinkEvent {
    /// A short stable identifier.
    pub fn kind(&self) -> (r: &'static str)
        ensures
            r@ == event_kind(*self),
    {
        match self {
            LinkEvent::PeriodicTick => "periodic_tick",
            LinkEvent::InterfaceStateChanged { .. } => "interface_state_changed",
            LinkEvent::ConnectivityChanged => "connectivity_changed",
            LinkEvent::WifiAssociationChanged { .. } => "wifi_association_changed",
            LinkEvent::ConnectionActivationChanged => "connection_activation_changed",
        }
    }
}

/// What a source can observe.
#[derive(Debug, Clone, Copy, PartialEq, Eq, Structural)]
pub struct LinkSourceCapabilities {
    /// The carrier of a wired link.
    pub observes_carrier: bool,
    /// Addresses coming and going.
    pub observes_address: bool,
    /// Wi-Fi association.
    pub observes_wifi_association: bool,
    /// A daemon's verdict on connectivity.
    pub observes_connectivity_verdict: bool,
}

impl Default for LinkSourceCapabilities {
    fn default() -> (r: Self)
        ensures
            !r.observes_carrier,
            !r.observes_address,
            !r.observes_wifi_association,
            !r.observes_connectivity_verdict,
    {
        LinkSourceCapabilities {
            observes_carrier: false,
            observes_address: false,
            observes_wifi_association: false,
            observes_connectivity_verdict: false,
        }
    }
}

impl LinkSourceCapabilities {
    /// The polling source looks at everything on each tick.
    pub fn polling() -> (r: Self)
        ensures
            r.observes_carrier,
            r.observes_address,
            r.observes_wifi_association,
            r.observes_connectivity_verdict,
    {
        LinkSourceCapabilities {
            observes_carrier: true,
            observes_address: true,
            observes_wifi_association: true,
            observes_connectivity_verdict: true,
        }
    }
}

/// What a source's health probe reports.
#[derive(Debug, Clone, PartialEq, Eq)]
pub enum LinkSourceError {
    /// The source lost its connection.
    Disconnected(String),
    /// No event came for longer than expected.
    Silent,
    /// The daemon behind the source reported an error.
    DaemonError(String),
    /// Any other failure.
    Other(String),
}

/// The message of a probe's report.
pub open spec fn error_text(e: LinkSourceError) -> Seq<char> {
    match e {
        LinkSourceError::Disconnected(m) => "source disconnected: "@ + m@,
        LinkSourceError::Silent => "source silent past expected cadence"@,
        LinkSourceError::DaemonError(m) => "source daemon reported error: "@ + m@,
        LinkSourceError::Other(m) => "source failure: "@ + m@,
    }
}

impl LinkSourceError {
    /// The message of the report.
    pub fn to_text(&self) -> (r: String)
        ensures
            r@ == error_text(*self),
    {
        match self {
            LinkSourceError::Disconnected(m) => cat("source disconnected: ", m.as_str()),
            LinkSourceError::Silent => "source silent past expected cadence".to_owned(),
            LinkSourceError::DaemonError(m) => cat("source daemon reported error: ", m.as_str()),
            LinkSourceError::Other(m) => cat("source failure: ", m.as_str()),
        }
    }
}

/// Every kind of event has a name of its own, whatever it carries, and every failure
/// says what failed before its message.
pub proof fn events_and_failures_have_names(m: String, i: Option<String>, b: bool)
    ensures
        event_kind(LinkEvent::PeriodicTick) == "periodic_tick"@,
        event_kind(LinkEvent::InterfaceStateChanged { interface: i }) == "interface_state_changed"@,
        event_kind(LinkEvent::ConnectivityChanged) == "connectivity_changed"@,
        event_kind(LinkEvent::WifiAssociationChanged { associated: b }) == "wifi_association_changed"@,
        event_kind(LinkEvent::ConnectionActivationChanged) == "connection_activation_changed"@,
        error_text(LinkSourceError::Disconnected(m)) == "source disconnected: "@ + m@,
        error_text(LinkSourceError::Silent) == "source silent past expected cadence"@,
        error_text(LinkSourceError::DaemonError(m)) == "source daemon reported error: "@ + m@,
        error_text(LinkSourceError::Other(m)) == "source failure: "@ + m@,
{
}

} // verus!

//! The error taxonomy of the hub.
//!
//! A fault is either startup-fatal (configuration incomplete, bind or connect
//! refused) or runtime-fatal for the one unit it struck (a send or receive
//! failure on an established socket). Nothing is retried or reconnected. A
//! payload that fails to decode is no fault at all: the session substitutes
//! the sentinel text locally and goes on.

use crate::config::SettingKey;
use vstd::prelude::*;

verus! {

/// A fault of the hub or of one of its units.
#[derive(Clone, Copy, PartialEq, Eq, Structural, Debug)]
pub enum Fault {
    /// A required setting is absent from the configuration snapshot.
    MissingSetting(SettingKey),
    /// The publisher could not bind its endpoint.
    BindFailed,
    /// A subscriber session could not connect to its endpoint.
    ConnectFailed,
    /// A send on an established socket failed.
    SendFailed,
    /// A receive on an established socket failed.
    RecvFailed,
}

/// How a fault is treated: fatal before any unit runs, or fatal at runtime
/// for the one unit it struck, siblings unaffected.
#[derive(Clone, Copy, PartialEq, Eq, Structural, Debug)]
pub enum Severity {
    StartupFatal,
    RuntimeFatal,
}

impl Fault {
    /// The class the fault falls in.
    pub open spec fn spec_severity(self) -> Severity {
        match self {
            Fault::MissingSetting(_) => Severity::StartupFatal,
            Fault::BindFailed => Severity::StartupFatal,
            Fault::ConnectFailed => Severity::StartupFatal,
            Fault::SendFailed => Severity::RuntimeFatal,
            Fault::RecvFailed => Severity::RuntimeFatal,
        }
    }

    /// The class the fault falls in.
    pub fn severity(&self) -> (r: Severity)
        ensures
            r == self.spec_severity(),
    {
        match self {
            Fault::MissingSetting(_) => Severity::StartupFatal,
            Fault::BindFailed => Severity::StartupFatal,
            Fault::ConnectFailed => Severity::StartupFatal,
            Fault::SendFailed => Severity::RuntimeFatal,
            Fault::RecvFailed => Severity::RuntimeFatal,
        }
    }
}

} // verus!

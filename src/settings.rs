//! The configuration record and the workload it names.
use vstd::prelude::*;

verus! {

/// The proxy's configuration.
#[derive(Debug)]
pub struct Settings {
    /// The listen address, such as `0.0.0.0:3000`.
    pub host: String,
    pub target: Target,
}

/// The workload the proxy fronts.
#[derive(Debug)]
pub struct Target {
    pub service: Service,
    /// Reserved; only TCP is proxied.
    pub protocol: String,
    pub deployment: String,
    pub timeout: Timeout,
}

/// The service in front of the workload.
#[derive(Debug)]
pub struct Service {
    pub name: String,
    pub port: i32,
    /// Reserved.
    pub inject: bool,
}

/// Timeouts, in milliseconds.
#[derive(Debug)]
pub struct Timeout {
    /// Reserved.
    pub forward: i32,
    /// The deadline of one scale-up attempt.
    pub scale_up: i32,
    /// The idle interval before the workload is scaled to zero.
    pub scale_down: i32,
}

/// Why a configuration cannot be used.
#[derive(Debug, Clone, Copy, PartialEq, Eq, Structural)]
pub enum SettingsError {
    /// The service port is not a TCP port number.
    PortOutOfRange,
    /// A scale timeout is negative.
    NegativeTimeout,
}

/// The workload's identity and timing, fixed at startup.
#[derive(Debug)]
pub struct Workload {
    pub service_name: String,
    pub deployment: String,
    pub port: u16,
    pub scale_up_ms: u64,
    pub scale_down_ms: u64,
}

/// A TCP port number.
pub open spec fn valid_port(port: i32) -> bool {
    1 <= port <= 65535
}

impl Settings {
    /// The workload that the configuration names, or why it names none.
    pub fn workload(&self) -> (r: Result<Workload, SettingsError>)
        ensures
            !valid_port(self.target.service.port) ==> r == Err::<Workload, SettingsError>(
                SettingsError::PortOutOfRange,
            ),
            valid_port(self.target.service.port) && (self.target.timeout.scale_up < 0
                || self.target.timeout.scale_down < 0) ==> r == Err::<Workload, SettingsError>(
                SettingsError::NegativeTimeout,
            ),
            r is Ok <==> valid_port(self.target.service.port) && self.target.timeout.scale_up >= 0
                && self.target.timeout.scale_down >= 0,
            r matches Ok(w) ==> {
                &&& w.service_name@ == self.target.service.name@
                &&& w.deployment@ == self.target.deployment@
                &&& w.port as int == self.target.service.port as int
                &&& w.scale_up_ms as int == self.target.timeout.scale_up as int
                &&& w.scale_down_ms as int == self.target.timeout.scale_down as int
            },
    {
        let port = self.target.service.port;
        if port < 1 || port > 65535 {
            return Err(SettingsError::PortOutOfRange);
        }
        let up = self.target.timeout.scale_up;
        let down = self.target.timeout.scale_down;
        if up < 0 || down < 0 {
            return Err(SettingsError::NegativeTimeout);
        }
        Ok(
            Workload {
                service_name: self.target.service.name.clone(),
                deployment: self.target.deployment.clone(),
                port: port as u16,
                scale_up_ms: up as u64,
                scale_down_ms: down as u64,
            },
        )
    }
}

} // verus!

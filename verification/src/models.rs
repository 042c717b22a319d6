//! The data exchanged between the proxy, its web frontend and the terminal
//! client: machines, their port forwards, and access histories.

use vstd::prelude::*;
use vstd::string::*;

verus! {

/// A TCP port forwarded from the proxy to a machine.
#[derive(Debug, Clone, PartialEq, Eq)]
pub struct PortForward {
    pub name: Option<String>,
    pub local_port: u16,
    pub target_port: u16,
}

/// A machine that can be woken (and possibly turned off) by the proxy.
#[derive(Debug, Clone, PartialEq, Eq)]
pub struct Machine {
    pub name: String,
    pub mac: String,
    pub ip: String,
    pub description: Option<String>,
    pub turn_off_port: Option<u16>,
    pub can_be_turned_off: bool,
    pub inactivity_period: u32,
    pub port_forwards: Vec<PortForward>,
}

impl Default for Machine {
    /// An unnamed machine without addresses, not to be turned off, with an
    /// inactivity period of 60 minutes and no port forwards.
    fn default() -> (m: Machine)
        ensures
            m.name@ == Seq::<char>::empty(),
            m.mac@ == Seq::<char>::empty(),
            m.ip@ == Seq::<char>::empty(),
            m.description is None,
            m.turn_off_port is None,
            !m.can_be_turned_off,
            m.inactivity_period == 60,
            m.port_forwards@.len() == 0,
    {
        Machine {
            name: String::new(),
            mac: String::new(),
            ip: String::new(),
            description: None,
            turn_off_port: None,
            can_be_turned_off: false,
            inactivity_period: 60,
            port_forwards: Vec::new(),
        }
    }
}

/// A request to add a machine.
#[derive(Debug, Clone, PartialEq, Eq)]
pub struct AddMachinePayload {
    pub mac: String,
    pub ip: String,
    pub name: String,
    pub description: Option<String>,
    pub turn_off_port: Option<u16>,
    pub can_be_turned_off: bool,
    pub inactivity_period: Option<u32>,
    pub port_forwards: Option<Vec<PortForward>>,
}

/// A request to change a machine.
#[derive(Debug, Clone, PartialEq, Eq)]
pub struct UpdateMachinePayload {
    pub mac: String,
    pub ip: String,
    pub name: String,
    pub description: Option<String>,
    pub turn_off_port: Option<u16>,
    pub can_be_turned_off: bool,
    pub inactivity_period: Option<u32>,
    pub port_forwards: Option<Vec<PortForward>>,
}

/// A request to delete a machine.
#[derive(Debug, Clone, PartialEq, Eq)]
pub struct DeleteMachinePayload {
    pub mac: String,
}

/// A network interface of the proxy host.
#[derive(Debug, Clone, PartialEq, Eq)]
pub struct NetworkInterface {
    pub name: String,
    pub ip: String,
    pub mac: String,
    pub is_up: bool,
}

/// A device found by a network scan.
#[derive(Debug, Clone, PartialEq, Eq)]
pub struct DiscoveredDevice {
    pub ip: String,
    pub mac: String,
    pub hostname: Option<String>,
}

/// The recorded accesses of one forwarded service.
#[derive(Debug, Clone, PartialEq, Eq)]
pub struct ServiceAccessHistory {
    pub name: Option<String>,
    pub local_port: u16,
    pub target_port: u16,
    pub timestamps: Vec<i64>,
}

/// The recorded accesses of all services of a machine.
#[derive(Debug, Clone, PartialEq, Eq)]
pub struct AccessHistory {
    pub services: Vec<ServiceAccessHistory>,
}

} // verus!

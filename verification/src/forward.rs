//! The proxy's bookkeeping: turning machines off after a window of
//! inactivity, the address of the turn-off endpoint, and what happens to an
//! accepted connection before it is forwarded.

use std::collections::HashMap;
use vstd::prelude::*;
use vstd::string::*;
use vstd::std_specs::hash::spec_keys_iter;
use vstd::std_specs::iter::IteratorSpec;
use crate::access_log::{recorded, service_key, spec_service_key, AccessLog};
use crate::text::{decimal, push_decimal};

verus! {

broadcast use vstd::std_specs::hash::group_hash_axioms;

/// The turn-off endpoint of the agent on a remote machine.
pub open spec fn spec_turn_off_url(remote_ip: Seq<char>, turn_off_port: u16) -> Seq<char> {
    "http://"@ + remote_ip + ":"@ + decimal(turn_off_port as nat) + "/machines/turn-off"@
}

pub fn turn_off_url(remote_ip: &str, turn_off_port: u16) -> (url: String)
    ensures
        url@ == spec_turn_off_url(remote_ip@, turn_off_port),
{
    let mut url = String::from_str("http://");
    url.append(remote_ip);
    url.append(":");
    push_decimal(&mut url, turn_off_port as u64);
    url.append("/machines/turn-off");
    url
}

fn keys_of<V>(m: &HashMap<u32, V>) -> (ks: Vec<u32>)
    ensures
        ks@.to_set() == m@.dom(),
        ks@.no_duplicates(),
{
    let mut ks: Vec<u32> = Vec::new();
    for k in it: m.keys()
        invariant
            ks@ == it.history().unref(),
    {
        ks.push(*k);
    }
    assert(ks@ =~= spec_keys_iter(m).remaining().unref());
    ks
}


/// The inactivity window for a configured inactivity period in minutes:
/// at least one minute, the seconds saturating at `u32::MAX`, in nanoseconds.
pub open spec fn spec_window_nanos(inactivity_period: u32) -> u64 {
    let minutes: int = if inactivity_period < 1 { 1 } else { inactivity_period as int };
    let secs: int = if minutes * 60 > u32::MAX { u32::MAX as int } else { minutes * 60 };
    (secs * 1_000_000_000) as u64
}

pub fn window_nanos(inactivity_period: u32) -> (w: u64)
    ensures
        w == spec_window_nanos(inactivity_period),
{
    let minutes: u32 = if inactivity_period < 1 { 1 } else { inactivity_period };
    let secs: u32 = if minutes > u32::MAX / 60 { u32::MAX } else { minutes * 60 };
    (secs as u64) * 1_000_000_000
}

/// The time from `since` to `now`, zero when `now` is earlier (as
/// `Instant::duration_since` saturates).
pub open spec fn elapsed(now: u64, since: u64) -> u64 {
    if now >= since { (now - since) as u64 } else { 0 }
}

/// The fields of a proxied machine that inactivity monitoring reads. The IP
/// address is an IPv4 address in its 32-bit big-endian form.
pub struct WatchedMachine {
    pub ip: u32,
    pub mac: String,
    pub inactivity_period: u32,
    pub can_be_turned_off: bool,
    pub turn_off_port: Option<u16>,
}

/// What is kept of one monitored machine. Times are nanoseconds of a
/// monotonic clock.
pub struct MachineWatch {
    pub window_nanos: u64,
    pub turn_off_port: u16,
    pub mac: String,
    pub triggered: bool,
    pub last_request: u64,
}

/// A machine that is to be sent a turn-off request.
pub struct TurnOffRequest {
    pub ip: u32,
    pub turn_off_port: u16,
    pub mac: String,
}

/// A watch is due when it has not fired since its last request and the time
/// since that request exceeds its window.
pub open spec fn is_due(w: MachineWatch, now: u64) -> bool {
    !w.triggered && elapsed(now, w.last_request) > w.window_nanos
}

/// A watch after its turn-off request has been issued.
pub open spec fn fired(w: MachineWatch) -> MachineWatch {
    MachineWatch { triggered: true, ..w }
}

/// The watches after a monitoring pass at `now`: each due watch is fired.
pub open spec fn after_pass(m: Map<u32, MachineWatch>, now: u64) -> Map<u32, MachineWatch> {
    Map::new(|ip: u32| m.dom().contains(ip), |ip: u32| if is_due(m[ip], now) { fired(m[ip]) } else { m[ip] })
}

/// A fresh watch for a machine whose last request is `now`.
pub open spec fn fresh_watch(inactivity_period: u32, turn_off_port: u16, mac: String, now: u64) -> MachineWatch {
    MachineWatch {
        window_nanos: spec_window_nanos(inactivity_period),
        turn_off_port,
        mac,
        triggered: false,
        last_request: now,
    }
}

/// A watch reconfigured from new settings; its last request is kept.
pub open spec fn reconfigured(w: MachineWatch, inactivity_period: u32, turn_off_port: u16, mac: String) -> MachineWatch {
    MachineWatch {
        window_nanos: spec_window_nanos(inactivity_period),
        turn_off_port,
        mac,
        triggered: false,
        last_request: w.last_request,
    }
}

/// Tracks, per machine, when it was last used and whether it has already
/// been sent a turn-off request since.
pub struct TurnOffLimiter {
    machines: HashMap<u32, MachineWatch>,
}

impl TurnOffLimiter {
    /// The watches by IP address.
    pub closed spec fn watches(&self) -> Map<u32, MachineWatch> {
        self.machines@
    }

    pub fn new() -> (l: TurnOffLimiter)
        ensures
            l.watches() == Map::<u32, MachineWatch>::empty(),
    {
        TurnOffLimiter { machines: HashMap::new() }
    }

    /// Starts watching `machine` with the given turn-off port; its last
    /// request is `now`. Replaces any earlier watch of the same address.
    pub fn initialize_machine(&mut self, machine: &WatchedMachine, turn_off_port: u16, now: u64)
        ensures
            final(self).watches() == old(self).watches().insert(
                machine.ip,
                fresh_watch(machine.inactivity_period, turn_off_port, machine.mac, now),
            ),
    {
        let w = MachineWatch {
            window_nanos: window_nanos(machine.inactivity_period),
            turn_off_port,
            mac: machine.mac.clone(),
            triggered: false,
            last_request: now,
        };
        self.machines.insert(machine.ip, w);
    }

    /// Updates the settings of a watched machine and lets it fire again; a
    /// machine not yet watched is watched from `now`.
    pub fn update_machine(&mut self, machine: &WatchedMachine, turn_off_port: u16, now: u64)
        ensures
            final(self).watches() == if old(self).watches().dom().contains(machine.ip) {
                old(self).watches().insert(
                    machine.ip,
                    reconfigured(old(self).watches()[machine.ip], machine.inactivity_period, turn_off_port, machine.mac),
                )
            } else {
                old(self).watches().insert(
                    machine.ip,
                    fresh_watch(machine.inactivity_period, turn_off_port, machine.mac, now),
                )
            },
    {
        match self.machines.remove(&machine.ip) {
            Some(old_watch) => {
                let w = MachineWatch {
                    window_nanos: window_nanos(machine.inactivity_period),
                    turn_off_port,
                    mac: machine.mac.clone(),
                    triggered: false,
                    last_request: old_watch.last_request,
                };
                self.machines.insert(machine.ip, w);
                assert(self.machines@ =~= old(self).watches().insert(
                    machine.ip,
                    reconfigured(old(self).watches()[machine.ip], machine.inactivity_period, turn_off_port, machine.mac),
                ));
            }
            None => {
                self.initialize_machine(machine, turn_off_port, now);
            }
        }
    }

    /// Notes a request to the machine at `ip` at time `now`, which also lets
    /// it fire again. Unwatched addresses are ignored.
    pub fn update_last_request(&mut self, ip: u32, now: u64)
        ensures
            final(self).watches() == if old(self).watches().dom().contains(ip) {
                old(self).watches().insert(
                    ip,
                    MachineWatch { last_request: now, triggered: false, ..old(self).watches()[ip] },
                )
            } else {
                old(self).watches()
            },
    {
        match self.machines.remove(&ip) {
            Some(w) => {
                let nw = MachineWatch {
                    window_nanos: w.window_nanos,
                    turn_off_port: w.turn_off_port,
                    mac: w.mac,
                    triggered: false,
                    last_request: now,
                };
                self.machines.insert(ip, nw);
                assert(self.machines@ =~= old(self).watches().insert(
                    ip,
                    MachineWatch { last_request: now, triggered: false, ..old(self).watches()[ip] },
                ));
            }
            None => {
                assert(self.machines@ =~= old(self).watches());
            }
        }
    }

    /// One pass of the inactivity monitor at time `now`: every watch that is
    /// due fires, and a turn-off request is returned for each, once.
    pub fn collect_inactive(&mut self, now: u64) -> (out: Vec<TurnOffRequest>)
        ensures
            final(self).watches() == after_pass(old(self).watches(), now),
            forall|k: int| 0 <= k < out@.len() ==> {
                let ip = #[trigger] out@[k].ip;
                &&& old(self).watches().dom().contains(ip)
                &&& is_due(old(self).watches()[ip], now)
                &&& out@[k].turn_off_port == old(self).watches()[ip].turn_off_port
                &&& out@[k].mac == old(self).watches()[ip].mac
            },
            forall|ip: u32| #[trigger] old(self).watches().dom().contains(ip) && is_due(old(self).watches()[ip], now)
                ==> exists|k: int| 0 <= k < out@.len() && out@[k].ip == ip,
            forall|a: int, b: int| 0 <= a < out@.len() && 0 <= b < out@.len() && a != b
                ==> out@[a].ip != out@[b].ip,
    {
        let ghost old_m = self.machines@;
        let ips = keys_of(&self.machines);
        let mut out: Vec<TurnOffRequest> = Vec::new();
        let n = ips.len();
        let mut i: usize = 0;
        while i < n
            invariant
                n == ips@.len(),
                i <= n,
                ips@.to_set() == old_m.dom(),
                ips@.no_duplicates(),
                self.machines@.dom() == old_m.dom(),
                forall|j: int| 0 <= j < i ==> #[trigger] self.machines@[ips@[j]] == (if is_due(old_m[ips@[j]], now) { fired(old_m[ips@[j]]) } else { old_m[ips@[j]] }),
                forall|j: int| i <= j < n ==> #[trigger] self.machines@[ips@[j]] == old_m[ips@[j]],
                forall|k: int| 0 <= k < out@.len() ==> {
                    let ip = #[trigger] out@[k].ip;
                    &&& old_m.dom().contains(ip)
                    &&& is_due(old_m[ip], now)
                    &&& out@[k].turn_off_port == old_m[ip].turn_off_port
                    &&& out@[k].mac == old_m[ip].mac
                    &&& exists|j: int| 0 <= j < i && ips@[j] == ip
                },
                forall|j: int| 0 <= j < i && is_due(old_m[#[trigger] ips@[j]], now)
                    ==> exists|k: int| 0 <= k < out@.len() && out@[k].ip == ips@[j],
                forall|a: int, b: int| 0 <= a < out@.len() && 0 <= b < out@.len() && a != b
                    ==> out@[a].ip != out@[b].ip,
            decreases n - i,
        {
            let ip = ips[i];
            let ghost out_before = out@;
            assert(ips@.to_set().contains(ip));
            let w = self.machines.remove(&ip).unwrap();
            let since = if now >= w.last_request { now - w.last_request } else { 0 };
            let due = !w.triggered && since > w.window_nanos;
            let nw = if due {
                out.push(TurnOffRequest { ip, turn_off_port: w.turn_off_port, mac: w.mac.clone() });
                MachineWatch { triggered: true, ..w }
            } else {
                w
            };
            self.machines.insert(ip, nw);
            proof {
                assert forall|j: int| i < j < n implies #[trigger] self.machines@[ips@[j]] == old_m[ips@[j]] by {
                    assert(ips@[j] != ips@[i as int]);
                };
                assert(forall|k: int| 0 <= k < out_before.len() ==> out@[k] == out_before[k]);
                assert forall|j: int| 0 <= j <= i && is_due(old_m[#[trigger] ips@[j]], now)
                    implies exists|k: int| 0 <= k < out@.len() && out@[k].ip == ips@[j] by {
                    if j < i {
                        let k = choose|k: int| 0 <= k < out_before.len() && out_before[k].ip == ips@[j];
                        assert(out@[k] == out_before[k]);
                    } else {
                        assert(out@[out@.len() - 1].ip == ips@[j]);
                    }
                };
                assert forall|j: int| 0 <= j < i implies #[trigger] self.machines@[ips@[j]] == (if is_due(old_m[ips@[j]], now) { fired(old_m[ips@[j]]) } else { old_m[ips@[j]] }) by {
                    assert(ips@[j] != ips@[i as int]);
                };
            }
            i = i + 1;
        }
        proof {
            assert forall|ip: u32| old_m.dom().contains(ip) && is_due(old_m[ip], now)
                implies exists|k: int| 0 <= k < out@.len() && out@[k].ip == ip by {
                assert(ips@.to_set().contains(ip));
                let j = choose|j: int| 0 <= j < n && ips@[j] == ip;
                assert(is_due(old_m[ips@[j]], now));
            };
            assert forall|ip: u32| #[trigger] self.machines@.dom().contains(ip)
                implies self.machines@[ip] == after_pass(old_m, now)[ip] by {
                assert(ips@.to_set().contains(ip));
                let j = choose|j: int| 0 <= j < n && ips@[j] == ip;
                assert(self.machines@[ips@[j]] == (if is_due(old_m[ips@[j]], now) { fired(old_m[ips@[j]]) } else { old_m[ips@[j]] }));
            };
            assert(self.machines@ =~= after_pass(old_m, now));
        }
        out
    }

    /// What setting up a proxy does to monitoring: a machine that may be
    /// turned off and has a turn-off port is watched from `now`; otherwise
    /// nothing changes. Returns whether the machine is now watched.
    pub fn monitor_for_proxy(&mut self, machine: &WatchedMachine, now: u64) -> (watched: bool)
        ensures
            watched == (machine.can_be_turned_off && machine.turn_off_port.is_some()),
            watched ==> final(self).watches() == old(self).watches().insert(
                machine.ip,
                fresh_watch(machine.inactivity_period, machine.turn_off_port.unwrap(), machine.mac, now),
            ),
            !watched ==> final(self).watches() == old(self).watches(),
    {
        if machine.can_be_turned_off {
            match machine.turn_off_port {
                Some(port) => {
                    self.initialize_machine(machine, port, now);
                    true
                }
                None => false,
            }
        } else {
            false
        }
    }
}

impl Default for TurnOffLimiter {
    fn default() -> (l: TurnOffLimiter)
        ensures
            l.watches() == Map::<u32, MachineWatch>::empty(),
    {
        TurnOffLimiter::new()
    }
}

/// What an accepted connection does to the books at wall-clock time
/// `millis` and monotonic time `now`: the access is recorded under the
/// service's key, and the machine counts as used at `now`.
pub fn note_connection(
    log: &mut AccessLog,
    limiter: &mut TurnOffLimiter,
    mac: &str,
    local_port: u16,
    ip: u32,
    millis: i64,
    now: u64,
)
    requires
        old(log).wf(),
    ensures
        final(log).wf(),
        final(log).limit() == old(log).limit(),
        final(log)@ == recorded(old(log)@, old(log).limit(), spec_service_key(mac@, local_port), millis),
        final(limiter).watches() == if old(limiter).watches().dom().contains(ip) {
            old(limiter).watches().insert(
                ip,
                MachineWatch { last_request: now, triggered: false, ..old(limiter).watches()[ip] },
            )
        } else {
            old(limiter).watches()
        },
{
    let key = service_key(mac, local_port);
    log.record(key.as_str(), millis);
    limiter.update_last_request(ip, now);
}

/// How long a woken machine is waited for, in nanoseconds.
pub const WAKE_WAIT_NANOS: u64 = 60_000_000_000;

/// The pause between two reachability checks while waiting, in nanoseconds.
pub const PROBE_PAUSE_NANOS: u64 = 2_000_000_000;

/// The timeout of one reachability check, in milliseconds.
pub const PROBE_TIMEOUT_MILLIS: u64 = 1000;

/// The timeout for connecting to the machine once it is up, in seconds.
pub const CONNECT_TIMEOUT_SECS: u64 = 30;

/// Where getting an accepted connection through to its machine stands.
#[derive(PartialEq, Eq, Structural, Debug, Clone, Copy)]
pub enum WakePhase {
    /// The machine is being checked for the first time.
    FirstProbe,
    /// Wake-on-LAN packets are being sent.
    Waking,
    /// Waiting for the machine until `deadline` (monotonic nanoseconds).
    Waiting { deadline: u64 },
    /// The machine is being checked again before `deadline`.
    Probing { deadline: u64 },
    /// The machine is up: connect and forward.
    Connected,
    /// The connection is dropped.
    Dropped,
}

/// What the surroundings report back.
#[derive(PartialEq, Eq, Structural, Debug, Clone, Copy)]
pub enum WakeEvent {
    /// A reachability check finished.
    Reachable(bool),
    /// The wake packets were sent (the MAC read and the sending worked), or
    /// not; `now` is the time afterwards.
    WakeSent { sent: bool, now: u64 },
    /// The monotonic clock reads `now`.
    Clock(u64),
}

/// What the surroundings are asked to do next.
#[derive(PartialEq, Eq, Structural, Debug, Clone, Copy)]
pub enum WakeAction {
    /// Check whether the machine accepts connections.
    Probe,
    /// Send wake-on-LAN packets to the machine's MAC.
    SendWake,
    /// Report the time.
    ReadClock,
    /// Sleep this many nanoseconds, then report the time.
    Sleep(u64),
    /// Connect to the machine and forward the connection.
    Connect,
    /// Drop the connection.
    DropConnection,
}

/// The first step: check the machine.
pub fn wake_start() -> (r: (WakePhase, WakeAction))
    ensures
        r == (WakePhase::FirstProbe, WakeAction::Probe),
{
    (WakePhase::FirstProbe, WakeAction::Probe)
}

/// The step after `event` in `phase`, or none when the event is not one
/// the phase waits for. A reachable machine is connected to at once;
/// otherwise it is woken and checked every two seconds for a minute after
/// the packets went out, and the connection is dropped when sending fails
/// or time runs out.
pub open spec fn spec_wake_step(phase: WakePhase, event: WakeEvent) -> Option<(WakePhase, WakeAction)> {
    match (phase, event) {
        (WakePhase::FirstProbe, WakeEvent::Reachable(up)) => Some(
            if up { (WakePhase::Connected, WakeAction::Connect) } else { (WakePhase::Waking, WakeAction::SendWake) },
        ),
        (WakePhase::Waking, WakeEvent::WakeSent { sent, now }) => Some(
            if sent {
                (WakePhase::Waiting { deadline: (now + WAKE_WAIT_NANOS) as u64 }, WakeAction::ReadClock)
            } else {
                (WakePhase::Dropped, WakeAction::DropConnection)
            },
        ),
        (WakePhase::Waiting { deadline }, WakeEvent::Clock(now)) => Some(
            if now < deadline { (WakePhase::Probing { deadline }, WakeAction::Probe) } else { (WakePhase::Dropped, WakeAction::DropConnection) },
        ),
        (WakePhase::Probing { deadline }, WakeEvent::Reachable(up)) => Some(
            if up {
                (WakePhase::Connected, WakeAction::Connect)
            } else {
                (WakePhase::Waiting { deadline }, WakeAction::Sleep(PROBE_PAUSE_NANOS))
            },
        ),
        _ => None,
    }
}

/// Advances the wake sequence of a connection.
pub fn wake_step(phase: WakePhase, event: WakeEvent) -> (r: Option<(WakePhase, WakeAction)>)
    requires
        (phase, event) matches (WakePhase::Waking, WakeEvent::WakeSent { sent: true, now }) ==> now <= u64::MAX - WAKE_WAIT_NANOS,
    ensures
        r == spec_wake_step(phase, event),
{
    match (phase, event) {
        (WakePhase::FirstProbe, WakeEvent::Reachable(up)) => Some(
            if up { (WakePhase::Connected, WakeAction::Connect) } else { (WakePhase::Waking, WakeAction::SendWake) },
        ),
        (WakePhase::Waking, WakeEvent::WakeSent { sent, now }) => Some(
            if sent {
                (WakePhase::Waiting { deadline: now + WAKE_WAIT_NANOS }, WakeAction::ReadClock)
            } else {
                (WakePhase::Dropped, WakeAction::DropConnection)
            },
        ),
        (WakePhase::Waiting { deadline }, WakeEvent::Clock(now)) => Some(
            if now < deadline { (WakePhase::Probing { deadline }, WakeAction::Probe) } else { (WakePhase::Dropped, WakeAction::DropConnection) },
        ),
        (WakePhase::Probing { deadline }, WakeEvent::Reachable(up)) => Some(
            if up {
                (WakePhase::Connected, WakeAction::Connect)
            } else {
                (WakePhase::Waiting { deadline }, WakeAction::Sleep(PROBE_PAUSE_NANOS))
            },
        ),
        _ => None,
    }
}

} // verus!

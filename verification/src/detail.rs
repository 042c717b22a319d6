//! The machine detail page of the web frontend: its form state and what its
//! inputs and buttons do to it.

use vstd::prelude::*;
use vstd::string::*;
use crate::models::{Machine, PortForward, UpdateMachinePayload};
use crate::parse::{parse_u16, parse_u32};
use crate::tui::{opt_u16, opt_u32, opt_view};
use crate::validation::{is_blank, is_whitespace};
use crate::text::chars_of;

verus! {

fn blank_text(s: &str) -> (b: bool)
    ensures
        b == is_blank(s@),
{
    let cs = chars_of(s);
    let n = cs.len();
    let mut i: usize = 0;
    while i < n
        invariant
            n == cs@.len(),
            cs@ == s@,
            i <= n,
            forall|j: int| 0 <= j < i ==> is_whitespace(#[trigger] cs@[j]),
        decreases n - i,
    {
        let v = cs[i] as u32;
        let ws = (0x09 <= v && v <= 0x0D) || v == 0x20 || v == 0x85 || v == 0xA0 || v == 0x1680
            || (0x2000 <= v && v <= 0x200A) || v == 0x2028 || v == 0x2029 || v == 0x202F || v == 0x205F
            || v == 0x3000;
        if !ws {
            assert(!is_whitespace(cs@[i as int]));
            return false;
        }
        i = i + 1;
    }
    true
}

fn copy_opt(o: &Option<String>) -> (c: Option<String>)
    ensures
        opt_view(c) == opt_view(*o),
{
    match o {
        Some(s) => Some(s.clone()),
        None => None,
    }
}

pub open spec fn forward_view(p: PortForward) -> (Option<Seq<char>>, u16, u16) {
    (opt_view(p.name), p.local_port, p.target_port)
}

pub open spec fn forwards_view(v: Seq<PortForward>) -> Seq<(Option<Seq<char>>, u16, u16)> {
    v.map_values(|p: PortForward| forward_view(p))
}

fn copy_forwards(v: &Vec<PortForward>) -> (c: Vec<PortForward>)
    ensures
        forwards_view(c@) == forwards_view(v@),
{
    let mut out: Vec<PortForward> = Vec::new();
    let n = v.len();
    let mut i: usize = 0;
    while i < n
        invariant
            n == v@.len(),
            i <= n,
            forwards_view(out@) == forwards_view(v@).take(i as int),
        decreases n - i,
    {
        let p = &v[i];
        let ghost before = out@;
        let item = PortForward { name: copy_opt(&p.name), local_port: p.local_port, target_port: p.target_port };
        assert(forward_view(item) == forwards_view(v@)[i as int]);
        out.push(item);
        assert(out@ == before.push(item));
        assert(forwards_view(out@) =~= forwards_view(before).push(forward_view(item)));
        assert(forwards_view(v@).take(i as int + 1) =~= forwards_view(v@).take(i as int).push(forwards_view(v@)[i as int]));
        i = i + 1;
    }
    assert(forwards_view(v@).take(n as int) =~= forwards_view(v@));
    out
}

/// Whether the page offers to turn the machine off: it must allow it and
/// have a turn-off port.
pub fn can_turn_off_machine(machine: &Machine) -> (b: bool)
    ensures
        b == (machine.can_be_turned_off && machine.turn_off_port is Some),
{
    machine.can_be_turned_off && machine.turn_off_port.is_some()
}

/// The page heading: the machine's name, or a generic title while the name
/// is blank.
pub fn card_title(name: &str) -> (title: String)
    ensures
        title@ == if is_blank(name@) { "Machine Overview"@ } else { name@ },
{
    if blank_text(name) {
        String::from_str("Machine Overview")
    } else {
        String::from_str(name)
    }
}

/// The values of the detail form.
pub struct DetailForm {
    pub name: String,
    pub ip: String,
    pub description: String,
    pub turn_off_port: Option<u16>,
    pub can_be_turned_off: bool,
    pub port_forwards: Vec<PortForward>,
    pub inactivity_period: u32,
}

impl DetailForm {
    /// The form for a machine as loaded; a missing description is empty.
    pub fn from_machine(m: &Machine) -> (f: DetailForm)
        ensures
            f.name@ == m.name@,
            f.ip@ == m.ip@,
            f.description@ == match m.description {
                Some(d) => d@,
                None => Seq::<char>::empty(),
            },
            f.turn_off_port == m.turn_off_port,
            f.can_be_turned_off == m.can_be_turned_off,
            forwards_view(f.port_forwards@) == forwards_view(m.port_forwards@),
            f.inactivity_period == m.inactivity_period,
    {
        DetailForm {
            name: m.name.clone(),
            ip: m.ip.clone(),
            description: match &m.description {
                Some(d) => d.clone(),
                None => String::new(),
            },
            turn_off_port: m.turn_off_port,
            can_be_turned_off: m.can_be_turned_off,
            port_forwards: copy_forwards(&m.port_forwards),
            inactivity_period: m.inactivity_period,
        }
    }

    /// A turn-off port typed into the form: the number, or none when it does
    /// not read as one.
    pub fn set_turn_off_port(&mut self, value: &str)
        ensures
            final(self).turn_off_port == opt_u16(value@),
            final(self).name == old(self).name,
            final(self).ip == old(self).ip,
            final(self).description == old(self).description,
            final(self).can_be_turned_off == old(self).can_be_turned_off,
            final(self).port_forwards == old(self).port_forwards,
            final(self).inactivity_period == old(self).inactivity_period,
    {
        self.turn_off_port = parse_u16(value);
    }

    /// An inactivity period typed into the form; text that does not read
    /// as a number is ignored.
    pub fn set_inactivity_period(&mut self, value: &str)
        ensures
            final(self).inactivity_period == match opt_u32(value@) {
                Some(v) => v,
                None => old(self).inactivity_period,
            },
            final(self).name == old(self).name,
            final(self).ip == old(self).ip,
            final(self).description == old(self).description,
            final(self).turn_off_port == old(self).turn_off_port,
            final(self).can_be_turned_off == old(self).can_be_turned_off,
            final(self).port_forwards == old(self).port_forwards,
    {
        if let Some(v) = parse_u32(value) {
            self.inactivity_period = v;
        }
    }

    /// Adds an unnamed port forward with both ports 0.
    pub fn add_port_forward(&mut self)
        ensures
            forwards_view(final(self).port_forwards@) == forwards_view(old(self).port_forwards@).push((None, 0u16, 0u16)),
    {
        self.port_forwards.push(PortForward { name: None, local_port: 0, target_port: 0 });
        assert(forwards_view(self.port_forwards@) =~= forwards_view(old(self).port_forwards@).push((None, 0u16, 0u16)));
    }

    /// Removes a port forward; an index past the end changes nothing.
    pub fn remove_port_forward(&mut self, idx: usize)
        ensures
            forwards_view(final(self).port_forwards@) == if idx < old(self).port_forwards@.len() {
                forwards_view(old(self).port_forwards@).remove(idx as int)
            } else {
                forwards_view(old(self).port_forwards@)
            },
    {
        if idx < self.port_forwards.len() {
            self.port_forwards.remove(idx);
            assert(forwards_view(self.port_forwards@) =~= forwards_view(old(self).port_forwards@).remove(idx as int));
        }
    }

    /// A service name typed for a port forward: none while blank.
    pub fn set_port_forward_name(&mut self, idx: usize, value: &str)
        ensures
            forwards_view(final(self).port_forwards@) == if idx < old(self).port_forwards@.len() {
                let p = forwards_view(old(self).port_forwards@)[idx as int];
                forwards_view(old(self).port_forwards@).update(
                    idx as int,
                    (if is_blank(value@) { None } else { Some(value@) }, p.1, p.2),
                )
            } else {
                forwards_view(old(self).port_forwards@)
            },
    {
        if idx < self.port_forwards.len() {
            let name = if blank_text(value) { None } else { Some(String::from_str(value)) };
            let pf = &mut self.port_forwards[idx];
            pf.name = name;
            assert(forwards_view(self.port_forwards@) =~= forwards_view(old(self).port_forwards@).update(
                idx as int,
                (if is_blank(value@) { None } else { Some(value@) }, old(self).port_forwards@[idx as int].local_port, old(self).port_forwards@[idx as int].target_port),
            ));
        }
    }

    /// A local port typed for a port forward: 0 when it does not read.
    pub fn set_port_forward_local(&mut self, idx: usize, value: &str)
        ensures
            forwards_view(final(self).port_forwards@) == if idx < old(self).port_forwards@.len() {
                let p = forwards_view(old(self).port_forwards@)[idx as int];
                forwards_view(old(self).port_forwards@).update(
                    idx as int,
                    (p.0, match opt_u16(value@) { Some(v) => v, None => 0u16 }, p.2),
                )
            } else {
                forwards_view(old(self).port_forwards@)
            },
    {
        if idx < self.port_forwards.len() {
            let port = match parse_u16(value) {
                Some(v) => v,
                None => 0,
            };
            let pf = &mut self.port_forwards[idx];
            pf.local_port = port;
            assert(forwards_view(self.port_forwards@) =~= forwards_view(old(self).port_forwards@).update(
                idx as int,
                (opt_view(old(self).port_forwards@[idx as int].name), port, old(self).port_forwards@[idx as int].target_port),
            ));
        }
    }

    /// A target port typed for a port forward: 0 when it does not read.
    pub fn set_port_forward_target(&mut self, idx: usize, value: &str)
        ensures
            forwards_view(final(self).port_forwards@) == if idx < old(self).port_forwards@.len() {
                let p = forwards_view(old(self).port_forwards@)[idx as int];
                forwards_view(old(self).port_forwards@).update(
                    idx as int,
                    (p.0, p.1, match opt_u16(value@) { Some(v) => v, None => 0u16 }),
                )
            } else {
                forwards_view(old(self).port_forwards@)
            },
    {
        if idx < self.port_forwards.len() {
            let port = match parse_u16(value) {
                Some(v) => v,
                None => 0,
            };
            let pf = &mut self.port_forwards[idx];
            pf.target_port = port;
            assert(forwards_view(self.port_forwards@) =~= forwards_view(old(self).port_forwards@).update(
                idx as int,
                (opt_view(old(self).port_forwards@[idx as int].name), old(self).port_forwards@[idx as int].local_port, port),
            ));
        }
    }

    /// The saved machine and the update request for the form: a blank
    /// description is none, and the turn-off port is kept only while the
    /// machine may be turned off.
    pub fn to_update(&self, mac: &str) -> (r: (Machine, UpdateMachinePayload))
        ensures
            ({
                let (m, p) = r;
                let description = if is_blank(self.description@) { None } else { Some(self.description@) };
                let port = if self.can_be_turned_off { self.turn_off_port } else { None };
                &&& m.name@ == self.name@ && m.mac@ == mac@ && m.ip@ == self.ip@
                &&& opt_view(m.description) == description
                &&& m.turn_off_port == port
                &&& m.can_be_turned_off == self.can_be_turned_off
                &&& m.inactivity_period == self.inactivity_period
                &&& forwards_view(m.port_forwards@) == forwards_view(self.port_forwards@)
                &&& p.mac@ == mac@ && p.ip@ == self.ip@ && p.name@ == self.name@
                &&& opt_view(p.description) == description
                &&& p.turn_off_port == port
                &&& p.can_be_turned_off == self.can_be_turned_off
                &&& p.inactivity_period == Some(self.inactivity_period)
                &&& (p.port_forwards matches Some(v) && forwards_view(v@) == forwards_view(self.port_forwards@))
            }),
    {
        let description = if blank_text(self.description.as_str()) { None } else { Some(self.description.clone()) };
        let port = if self.can_be_turned_off { self.turn_off_port } else { None };
        let machine = Machine {
            name: self.name.clone(),
            mac: String::from_str(mac),
            ip: self.ip.clone(),
            description: copy_opt(&description),
            turn_off_port: port,
            can_be_turned_off: self.can_be_turned_off,
            inactivity_period: self.inactivity_period,
            port_forwards: copy_forwards(&self.port_forwards),
        };
        let payload = UpdateMachinePayload {
            mac: String::from_str(mac),
            ip: self.ip.clone(),
            name: self.name.clone(),
            description,
            turn_off_port: port,
            can_be_turned_off: self.can_be_turned_off,
            inactivity_period: Some(self.inactivity_period),
            port_forwards: Some(copy_forwards(&self.port_forwards)),
        };
        (machine, payload)
    }
}

/// The alert shown after a failed turn-off request.
pub fn turn_off_failed_message(message: &str) -> (m: String)
    ensures
        m@ == "Failed to turn off machine: "@ + message@,
{
    let mut m = String::from_str("Failed to turn off machine: ");
    m.append(message);
    m
}

/// The alert shown after a failed wake request.
pub fn wake_failed_message(message: &str) -> (m: String)
    ensures
        m@ == "Failed to wake machine: "@ + message@,
{
    let mut m = String::from_str("Failed to wake machine: ");
    m.append(message);
    m
}

/// The alert shown after a failed update.
pub fn update_failed_message(error: &str) -> (m: String)
    ensures
        m@ == "Error updating machine: "@ + error@,
{
    let mut m = String::from_str("Error updating machine: ");
    m.append(error);
    m
}

/// The subtitle that names the machine's MAC.
pub fn mac_subtitle(mac: &str) -> (m: String)
    ensures
        m@ == "MAC "@ + mac@,
{
    let mut m = String::from_str("MAC ");
    m.append(mac);
    m
}

/// A button of the page that sends a request (turn off, wake): whether a
/// request is under way, and whether the last one succeeded with what
/// message.
pub struct RequestButton {
    pub loading: bool,
    pub feedback: Option<(bool, String)>,
}

pub open spec fn feedback_view(f: Option<(bool, String)>) -> Option<(bool, Seq<char>)> {
    match f {
        Some((ok, m)) => Some((ok, m@)),
        None => None,
    }
}

impl RequestButton {
    /// Idle, with no answer yet.
    pub fn new() -> (b: RequestButton)
        ensures
            !b.loading,
            b.feedback is None,
    {
        RequestButton { loading: false, feedback: None }
    }

    /// A click. When the action is offered and no request is under way, a
    /// request starts and the old answer is cleared; returns whether to send
    /// it. Otherwise nothing changes.
    pub fn press(&mut self, offered: bool) -> (send: bool)
        ensures
            send == (offered && !old(self).loading),
            send ==> final(self).loading && final(self).feedback is None,
            !send ==> final(self).loading == old(self).loading && feedback_view(final(self).feedback) == feedback_view(old(self).feedback),
    {
        if !offered || self.loading {
            return false;
        }
        self.loading = true;
        self.feedback = None;
        true
    }

    /// The answer to the request: it is kept, the request ends, and the
    /// alert to show is returned: the message on success, the failure with
    /// `failure_prefix` before it otherwise.
    pub fn finish(&mut self, answer: Result<String, String>, failure_prefix: &str) -> (alert: String)
        ensures
            !final(self).loading,
            match answer {
                Ok(m) => feedback_view(final(self).feedback) == Some((true, m@)) && alert@ == m@,
                Err(e) => feedback_view(final(self).feedback) == Some((false, e@)) && alert@ == failure_prefix@ + e@,
            },
    {
        let alert = match answer {
            Ok(m) => {
                let alert = m.clone();
                self.feedback = Some((true, m));
                alert
            }
            Err(e) => {
                let mut alert = String::from_str(failure_prefix);
                alert.append(e.as_str());
                self.feedback = Some((false, e));
                alert
            }
        };
        self.loading = false;
        alert
    }
}

/// The alert after saving the form.
pub fn update_alert(result: Result<(), String>) -> (m: String)
    ensures
        match result {
            Ok(()) => m@ == "Machine updated successfully!"@,
            Err(e) => m@ == "Error updating machine: "@ + e@,
        },
{
    match result {
        Ok(()) => String::from_str("Machine updated successfully!"),
        Err(e) => update_failed_message(e.as_str()),
    }
}

} // verus!

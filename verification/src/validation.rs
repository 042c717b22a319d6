//! Checking a machine entered in a form before it is saved.

use vstd::prelude::*;
use vstd::string::*;
use crate::ip::{is_ip_addr, is_ip_addr_text};
use crate::models::Machine;
use crate::text::{chars_of, str_eq};

verus! {

/// The characters with the Unicode `White_Space` property, which
/// `char::is_whitespace` (and so `str::trim`) recognizes.
pub open spec fn is_whitespace(c: char) -> bool {
    let v = c as u32;
    (0x09 <= v && v <= 0x0D) || v == 0x20 || v == 0x85 || v == 0xA0 || v == 0x1680
        || (0x2000 <= v && v <= 0x200A) || v == 0x2028 || v == 0x2029 || v == 0x202F || v == 0x205F
        || v == 0x3000
}

/// A text that trims to nothing.
pub open spec fn is_blank(s: Seq<char>) -> bool {
    forall|i: int| 0 <= i < s.len() ==> is_whitespace(#[trigger] s[i])
}

pub open spec fn is_mac_char(c: char) -> bool {
    ('0' <= c && c <= '9') || ('a' <= c && c <= 'f') || ('A' <= c && c <= 'F') || c == ':' || c == '-'
}

/// A MAC address as the form accepts it: only hexadecimal digits, colons and
/// hyphens, 12 or 17 of them. (All such characters take one byte, so this is
/// the byte-length test of the form.)
pub open spec fn is_valid_mac(s: Seq<char>) -> bool {
    (forall|i: int| 0 <= i < s.len() ==> is_mac_char(#[trigger] s[i])) && (s.len() == 12 || s.len() == 17)
}

fn blank(s: &str) -> (b: bool)
    ensures
        b == is_blank(s@),
{
    let cs = chars_of(s);
    let n = cs.len();
    let mut i: usize = 0;
    while i < n
        invariant
            n == cs@.len(),
            cs@ == s@,
            i <= n,
            forall|j: int| 0 <= j < i ==> is_whitespace(#[trigger] cs@[j]),
        decreases n - i,
    {
        let v = cs[i] as u32;
        let ws = (0x09 <= v && v <= 0x0D) || v == 0x20 || v == 0x85 || v == 0xA0 || v == 0x1680
            || (0x2000 <= v && v <= 0x200A) || v == 0x2028 || v == 0x2029 || v == 0x202F || v == 0x205F
            || v == 0x3000;
        if !ws {
            assert(!is_whitespace(cs@[i as int]));
            return false;
        }
        i = i + 1;
    }
    true
}

fn valid_mac(s: &str) -> (b: bool)
    ensures
        b == is_valid_mac(s@),
{
    let cs = chars_of(s);
    let n = cs.len();
    let mut i: usize = 0;
    while i < n
        invariant
            n == cs@.len(),
            cs@ == s@,
            i <= n,
            forall|j: int| 0 <= j < i ==> is_mac_char(#[trigger] cs@[j]),
        decreases n - i,
    {
        let c = cs[i];
        if !(('0' <= c && c <= '9') || ('a' <= c && c <= 'f') || ('A' <= c && c <= 'F') || c == ':' || c == '-') {
            assert(!is_mac_char(cs@[i as int]));
            return false;
        }
        i = i + 1;
    }
    n == 12 || n == 17
}

/// The problems found in a machine form, at most one message per field.
pub struct FormErrors {
    name: Option<String>,
    ip: Option<String>,
    turn_off_port: Option<String>,
    mac: Option<String>,
}

pub open spec fn entry(key: Seq<char>, msg: Option<String>) -> Map<Seq<char>, Seq<Seq<char>>> {
    match msg {
        Some(m) => map![key => seq![m@]],
        None => Map::empty(),
    }
}

impl View for FormErrors {
    type V = Map<Seq<char>, Seq<Seq<char>>>;

    /// Each field with a problem maps to its messages.
    closed spec fn view(&self) -> Map<Seq<char>, Seq<Seq<char>>> {
        entry("name"@, self.name).union_prefer_right(entry("ip"@, self.ip)).union_prefer_right(
            entry("turn_off_port"@, self.turn_off_port),
        ).union_prefer_right(entry("mac"@, self.mac))
    }
}

/// The problems of a machine: a blank name; an address that is not an IP
/// address; a turn-off port of 0; a blank MAC, or one that is not 12 or 17
/// hexadecimal digits, colons and hyphens.
pub open spec fn spec_form_errors(m: Machine) -> Map<Seq<char>, Seq<Seq<char>>> {
    let name = if is_blank(m.name@) { map!["name"@ => seq!["Name is required"@]] } else { Map::empty() };
    let ip = if !is_ip_addr(m.ip@) { map!["ip"@ => seq!["Invalid IP address"@]] } else { Map::empty() };
    let port = if m.turn_off_port == Some(0u16) {
        map!["turn_off_port"@ => seq!["Port must be between 1 and 65535"@]]
    } else {
        Map::empty()
    };
    let mac = if is_blank(m.mac@) {
        map!["mac"@ => seq!["MAC address is required"@]]
    } else if !is_valid_mac(m.mac@) {
        map!["mac"@ => seq!["Invalid MAC address"@]]
    } else {
        Map::empty()
    };
    name.union_prefer_right(ip).union_prefer_right(port).union_prefer_right(mac)
}

pub fn validate_machine_form(machine: &Machine) -> (errors: FormErrors)
    ensures
        errors@ == spec_form_errors(*machine),
{
    let name = if blank(machine.name.as_str()) { Some(String::from_str("Name is required")) } else { None };
    let ip = if !is_ip_addr_text(machine.ip.as_str()) { Some(String::from_str("Invalid IP address")) } else { None };
    let turn_off_port = match machine.turn_off_port {
        Some(port) => if port == 0 { Some(String::from_str("Port must be between 1 and 65535")) } else { None },
        None => None,
    };
    let mac = if blank(machine.mac.as_str()) {
        Some(String::from_str("MAC address is required"))
    } else if !valid_mac(machine.mac.as_str()) {
        Some(String::from_str("Invalid MAC address"))
    } else {
        None
    };
    let errors = FormErrors { name, ip, turn_off_port, mac };
    proof {
        assert(errors@ =~= spec_form_errors(*machine));
    }
    errors
}

impl FormErrors {
    proof fn lemma_view(&self, k: Seq<char>)
        ensures
            self@.dom().contains(k) <==> ((k == "name"@ && self.name is Some) || (k == "ip"@ && self.ip is Some)
                || (k == "turn_off_port"@ && self.turn_off_port is Some) || (k == "mac"@ && self.mac is Some)),
            k == "name"@ && self.name is Some ==> self@[k] == seq![self.name->0@],
            k == "ip"@ && self.ip is Some ==> self@[k] == seq![self.ip->0@],
            k == "turn_off_port"@ && self.turn_off_port is Some ==> self@[k] == seq![self.turn_off_port->0@],
            k == "mac"@ && self.mac is Some ==> self@[k] == seq![self.mac->0@],
    {
        reveal_strlit("name");
        reveal_strlit("ip");
        reveal_strlit("turn_off_port");
        reveal_strlit("mac");
        assert("name"@.len() == 4 && "ip"@.len() == 2 && "turn_off_port"@.len() == 13 && "mac"@.len() == 3);
        let m1 = entry("name"@, self.name);
        let m2 = entry("ip"@, self.ip);
        let m3 = entry("turn_off_port"@, self.turn_off_port);
        let m4 = entry("mac"@, self.mac);
        assert(self@ == m1.union_prefer_right(m2).union_prefer_right(m3).union_prefer_right(m4));
        if k == "name"@ {
            assert(!m2.dom().contains(k) && !m3.dom().contains(k) && !m4.dom().contains(k));
        }
        if k == "ip"@ {
            assert(!m3.dom().contains(k) && !m4.dom().contains(k));
        }
        if k == "turn_off_port"@ {
            assert(!m4.dom().contains(k));
        }
    }

    /// Whether the field named `key` has a problem.
    pub fn contains_key(&self, key: &str) -> (b: bool)
        ensures
            b == self@.dom().contains(key@),
    {
        let r = (str_eq(key, "name") && self.name.is_some()) || (str_eq(key, "ip") && self.ip.is_some())
            || (str_eq(key, "turn_off_port") && self.turn_off_port.is_some()) || (str_eq(key, "mac")
            && self.mac.is_some());
        proof {
            reveal_strlit("name");
            reveal_strlit("ip");
            reveal_strlit("turn_off_port");
            reveal_strlit("mac");
        }
        r
    }

    /// Whether the form has no problem.
    pub fn is_empty(&self) -> (b: bool)
        ensures
            b == (self@.dom() =~= Set::<Seq<char>>::empty()),
    {
        let r = self.name.is_none() && self.ip.is_none() && self.turn_off_port.is_none() && self.mac.is_none();
        proof {
            reveal_strlit("name");
            reveal_strlit("ip");
            reveal_strlit("turn_off_port");
            reveal_strlit("mac");
            if !r {
                if self.name.is_some() { assert(self@.dom().contains("name"@)); }
                if self.ip.is_some() { assert(self@.dom().contains("ip"@)); }
                if self.turn_off_port.is_some() { assert(self@.dom().contains("turn_off_port"@)); }
                if self.mac.is_some() { assert(self@.dom().contains("mac"@)); }
            }
        }
        r
    }

    /// The messages of the field named `key`, if it has a problem.
    pub fn get(&self, key: &str) -> (msgs: Option<Vec<String>>)
        ensures
            msgs is Some <==> self@.dom().contains(key@),
            msgs matches Some(v) ==> v@.map_values(|m: String| m@) == self@[key@],
    {
        proof {
            reveal_strlit("name");
            reveal_strlit("ip");
            reveal_strlit("turn_off_port");
            reveal_strlit("mac");
        }
        proof {
            self.lemma_view(key@);
            assert("name"@.len() == 4 && "ip"@.len() == 2 && "turn_off_port"@.len() == 13 && "mac"@.len() == 3);
        }
        if str_eq(key, "name") {
            one(&self.name)
        } else if str_eq(key, "ip") {
            one(&self.ip)
        } else if str_eq(key, "turn_off_port") {
            one(&self.turn_off_port)
        } else if str_eq(key, "mac") {
            one(&self.mac)
        } else {
            assert(key@ != "name"@ && key@ != "ip"@ && key@ != "turn_off_port"@ && key@ != "mac"@);
            assert(!self@.dom().contains(key@));
            None
        }
    }
}

fn one(msg: &Option<String>) -> (v: Option<Vec<String>>)
    ensures
        v is Some <==> msg is Some,
        v matches Some(v) ==> v@.map_values(|m: String| m@) == seq![msg->0@],
{
    match msg {
        Some(m) => {
            let mut v: Vec<String> = Vec::new();
            v.push(m.clone());
            assert(v@.map_values(|m: String| m@) =~= seq![m@]);
            Some(v)
        }
        None => None,
    }
}

} // verus!

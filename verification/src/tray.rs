//! The desktop tray: labels, menu state, messages, and the command lines and
//! files it writes to open terminals and install itself at login.

use vstd::prelude::*;
use vstd::string::*;
use base64::Engine;
use crate::text::{decimal, escaped, joined, push_decimal, push_escaped, str_eq};

verus! {

/// The two services the tray controls.
#[derive(Clone, Copy, PartialEq, Eq, Debug)]
pub enum Mode {
    Proxy,
    Client,
}

/// A control action on a service.
#[derive(Clone, Copy, PartialEq, Eq, Debug)]
pub enum ServiceControl {
    Start,
    Stop,
    Restart,
}

pub open spec fn spec_verb(control: ServiceControl) -> Seq<char> {
    match control {
        ServiceControl::Start => "start"@,
        ServiceControl::Stop => "stop"@,
        ServiceControl::Restart => "restart"@,
    }
}

impl ServiceControl {
    /// The command-line verb of the action.
    pub fn verb(self) -> (v: &'static str)
        ensures
            v@ == spec_verb(self),
    {
        match self {
            ServiceControl::Start => "start",
            ServiceControl::Stop => "stop",
            ServiceControl::Restart => "restart",
        }
    }
}

pub open spec fn spec_mode_label(mode: Mode) -> Seq<char> {
    match mode {
        Mode::Proxy => "Proxy"@,
        Mode::Client => "Client"@,
    }
}

/// The name of a service as the menu shows it.
pub fn mode_label(mode: Mode) -> (label: &'static str)
    ensures
        label@ == spec_mode_label(mode),
{
    match mode {
        Mode::Proxy => "Proxy",
        Mode::Client => "Client",
    }
}

/// Whether a service is installed and whether it runs.
#[derive(Clone, Copy, PartialEq, Eq, Debug)]
pub struct ModeStatus {
    pub installed: bool,
    pub running: bool,
}

/// The status from the two probes; a service that is not installed is not
/// counted as running, whatever the second probe said.
pub fn query_mode_status(installed: bool, running: bool) -> (status: ModeStatus)
    ensures
        status.installed == installed,
        status.running == (installed && running),
{
    ModeStatus { installed, running: installed && running }
}

pub open spec fn spec_status_label(status: ModeStatus) -> Seq<char> {
    if !status.installed {
        "not installed"@
    } else if status.running {
        "running"@
    } else {
        "stopped"@
    }
}

pub fn service_status_label(status: ModeStatus) -> (label: &'static str)
    ensures
        label@ == spec_status_label(status),
{
    if !status.installed {
        "not installed"
    } else if status.running {
        "running"
    } else {
        "stopped"
    }
}

/// The address of the dashboard served by the local proxy.
pub open spec fn spec_dashboard_url(proxy_port: u16) -> Seq<char> {
    "http://127.0.0.1:"@ + decimal(proxy_port as nat)
}

pub fn dashboard_url(proxy_port: u16) -> (url: String)
    ensures
        url@ == spec_dashboard_url(proxy_port),
{
    let mut url = String::from_str("http://127.0.0.1:");
    push_decimal(&mut url, proxy_port as u64);
    url
}

pub open spec fn shell_table() -> Seq<(char, &'static str)> {
    seq![('\'', "'\\''")]
}

/// A string quoted for a POSIX shell: wrapped in single quotes, each single
/// quote inside written as `'\''`.
pub open spec fn spec_shell_quote(value: Seq<char>) -> Seq<char> {
    "'"@ + escaped(value, shell_table()) + "'"@
}

/// `w` with `c` in front, when there is a `w`.
pub open spec fn prepend(c: char, o: Option<Seq<char>>) -> Option<Seq<char>> {
    match o {
        Some(w) => Some(seq![c] + w),
        None => None,
    }
}

/// `w` with `v` in front, when there is a `w`.
pub open spec fn prepend_all(v: Seq<char>, o: Option<Seq<char>>) -> Option<Seq<char>> {
    match o {
        Some(w) => Some(v + w),
        None => None,
    }
}

/// How a POSIX shell reads a word made of single-quoted parts and
/// backslash-escaped characters (`in_quotes` while inside single quotes,
/// where every character but the closing quote stands for itself): the
/// characters the word stands for, or none when the text is not one such
/// word (it ends inside quotes, or holds an unquoted character other than a
/// quote or a backslash escape, such as a space or `$`).
pub open spec fn sh_word(s: Seq<char>, in_quotes: bool) -> Option<Seq<char>>
    decreases s.len(),
{
    if s.len() == 0 {
        if in_quotes { None } else { Some(Seq::empty()) }
    } else if in_quotes {
        if s[0] == '\'' {
            sh_word(s.drop_first(), false)
        } else {
            prepend(s[0], sh_word(s.drop_first(), true))
        }
    } else if s[0] == '\'' {
        sh_word(s.drop_first(), true)
    } else if s[0] == '\\' && s.len() >= 2 {
        prepend(s[1], sh_word(s.subrange(2, s.len() as int), false))
    } else {
        None
    }
}

pub fn shell_quote(value: &str) -> (quoted: String)
    ensures
        quoted@ == spec_shell_quote(value@),
{
    let table = [('\'', "'\\''")];
    assert(table@ == shell_table());
    let mut out = String::from_str("'");
    push_escaped(&mut out, value, &table);
    out.append("'");
    out
}


/// A string wrapped in single quotes, its characters replaced as `table` says.
pub open spec fn single_quoted(value: Seq<char>, table: Seq<(char, &'static str)>) -> Seq<char> {
    "'"@ + escaped(value, table) + "'"@
}

/// Each part single-quoted as `table` says, joined with `sep`.
pub open spec fn quoted_join(parts: Seq<Seq<char>>, table: Seq<(char, &'static str)>, sep: Seq<char>) -> Seq<char> {
    joined(parts.map_values(|p: Seq<char>| single_quoted(p, table)), sep)
}

/// The views of a list of strings.
pub open spec fn views(parts: Seq<String>) -> Seq<Seq<char>> {
    parts.map_values(|p: String| p@)
}

fn push_quoted_join(out: &mut String, parts: &Vec<String>, table: &[(char, &'static str)], sep: &str)
    ensures
        final(out)@ == old(out)@ + quoted_join(views(parts@), table@, sep@),
{
    let ghost q = views(parts@).map_values(|p: Seq<char>| single_quoted(p, table@));
    let ghost start = out@;
    let n = parts.len();
    let mut i: usize = 0;
    while i < n
        invariant
            n == parts@.len(),
            i <= n,
            q == views(parts@).map_values(|p: Seq<char>| single_quoted(p, table@)),
            out@ == start + joined(q.take(i as int), sep@),
        decreases n - i,
    {
        if i > 0 {
            out.append(sep);
        }
        out.append("'");
        push_escaped(out, parts[i].as_str(), table);
        out.append("'");
        proof {
            assert(q.take(i + 1).drop_last() =~= q.take(i as int));
            assert(q.take(i + 1).last() == q[i as int]);
            assert(q[i as int] == single_quoted(parts@[i as int]@, table@));
            if i == 0 {
                assert(q.take(1)[0] == q[0]);
            }
        }
        i = i + 1;
    }
    assert(q.take(n as int) =~= q);
}

/// Quotes each part for a POSIX shell and joins them with spaces.
pub fn shell_command_line(parts: &Vec<String>) -> (line: String)
    ensures
        line@ == quoted_join(views(parts@), shell_table(), " "@),
{
    let table = [('\'', "'\\''")];
    assert(table@ == shell_table());
    let mut out = String::new();
    push_quoted_join(&mut out, parts, &table, " ");
    out
}

/// The shell script that runs the quoted command; when the terminal should
/// stay open it waits for Enter afterwards.
pub open spec fn spec_shell_script(parts: Seq<Seq<char>>, keep_open: bool) -> Seq<char> {
    let command = quoted_join(parts, shell_table(), " "@);
    if keep_open {
        command + "; echo; printf 'Press Enter to close...'; read _"@
    } else {
        command
    }
}

pub fn shell_script(parts: &Vec<String>, keep_open: bool) -> (script: String)
    ensures
        script@ == spec_shell_script(views(parts@), keep_open),
{
    let mut command = shell_command_line(parts);
    if keep_open {
        command.append("; echo; printf 'Press Enter to close...'; read _");
    }
    command
}

pub open spec fn powershell_table() -> Seq<(char, &'static str)> {
    seq![('\'', "''")]
}

/// The typographic single quotes (U+2018 to U+201B), which PowerShell also
/// takes as single quotes.
pub open spec fn is_typographic_quote(c: char) -> bool {
    '\u{2018}' <= c && c <= '\u{201B}'
}

/// How PowerShell reads the inside of a single-quoted string literal that
/// must close at the end of the text: a doubled quote stands for one quote,
/// every other character for itself. Text with a typographic quote is not
/// read here (none), nor text that does not close exactly at its end.
pub open spec fn ps_literal_body(s: Seq<char>) -> Option<Seq<char>>
    decreases s.len(),
{
    if s.len() == 0 {
        None
    } else if is_typographic_quote(s[0]) {
        None
    } else if s[0] == '\'' {
        if s.len() >= 2 && s[1] == '\'' {
            prepend('\'', ps_literal_body(s.subrange(2, s.len() as int)))
        } else if s.len() == 1 {
            Some(Seq::empty())
        } else {
            None
        }
    } else {
        prepend(s[0], ps_literal_body(s.drop_first()))
    }
}

/// How PowerShell reads a text that is one single-quoted string literal:
/// its value, or none when the text is not one.
pub open spec fn ps_literal(s: Seq<char>) -> Option<Seq<char>> {
    if s.len() > 0 && s[0] == '\'' {
        ps_literal_body(s.drop_first())
    } else {
        None
    }
}

/// A string quoted for PowerShell: in single quotes, each single quote doubled.
pub fn powershell_quote(value: &str) -> (quoted: String)
    ensures
        quoted@ == single_quoted(value@, powershell_table()),
{
    let table = [('\'', "''")];
    assert(table@ == powershell_table());
    let mut out = String::from_str("'");
    push_escaped(&mut out, value, &table);
    out.append("'");
    out
}

/// A PowerShell array literal body: each value quoted, joined with commas.
pub fn powershell_array_literal(values: &Vec<String>) -> (literal: String)
    ensures
        literal@ == quoted_join(views(values@), powershell_table(), ","@),
{
    let table = [('\'', "''")];
    assert(table@ == powershell_table());
    let mut out = String::new();
    push_quoted_join(&mut out, values, &table, ",");
    out
}

/// The PowerShell call operator applied to the executable and its arguments,
/// each quoted.
pub open spec fn spec_powershell_invocation(exe: Seq<char>, args: Seq<Seq<char>>) -> Seq<char> {
    "& "@ + quoted_join(seq![exe] + args, powershell_table(), " "@)
}

pub fn powershell_invocation(exe: &str, args: &Vec<String>) -> (invocation: String)
    ensures
        invocation@ == spec_powershell_invocation(exe@, views(args@)),
{
    let mut parts: Vec<String> = Vec::new();
    parts.push(String::from_str(exe));
    let n = args.len();
    let mut i: usize = 0;
    while i < n
        invariant
            n == args@.len(),
            i <= n,
            views(parts@) == seq![exe@] + views(args@).take(i as int),
        decreases n - i,
    {
        let ghost before = parts@;
        let a = args[i].clone();
        assert(a@ == args@[i as int]@);
        parts.push(a);
        proof {
            assert(parts@ == before.push(a));
            assert(views(parts@) == views(before).push(a@));
            assert(views(parts@) =~= seq![exe@] + views(args@).take(i + 1));
        }
        i = i + 1;
    }
    assert(views(args@).take(n as int) =~= views(args@));
    let table = [('\'', "''")];
    assert(table@ == powershell_table());
    let mut out = String::from_str("& ");
    push_quoted_join(&mut out, &parts, &table, " ");
    out
}

pub open spec fn desktop_entry_table() -> Seq<(char, &'static str)> {
    seq![('\\', "\\\\"), ('"', "\\\""), ('%', "%%")]
}

/// A value for the `Exec` key of a desktop entry: in double quotes, with
/// backslashes and double quotes escaped and percent signs doubled.
pub open spec fn spec_desktop_entry_quote(value: Seq<char>) -> Seq<char> {
    "\""@ + escaped(value, desktop_entry_table()) + "\""@
}

pub fn desktop_entry_quote(value: &str) -> (quoted: String)
    ensures
        quoted@ == spec_desktop_entry_quote(value@),
{
    let table = [('\\', "\\\\"), ('"', "\\\""), ('%', "%%")];
    assert(table@ == desktop_entry_table());
    let mut out = String::from_str("\"");
    push_escaped(&mut out, value, &table);
    out.append("\"");
    out
}

pub open spec fn xml_table() -> Seq<(char, &'static str)> {
    seq![('&', "&amp;"), ('<', "&lt;"), ('>', "&gt;"), ('"', "&quot;"), ('\'', "&apos;")]
}

/// Text with the five XML special characters written as entities.
pub fn xml_escape(value: &str) -> (escaped_value: String)
    ensures
        escaped_value@ == escaped(value@, xml_table()),
{
    let table = [('&', "&amp;"), ('<', "&lt;"), ('>', "&gt;"), ('"', "&quot;"), ('\'', "&apos;")];
    assert(table@ == xml_table());
    let mut out = String::new();
    push_escaped(&mut out, value, &table);
    out
}


/// The words of a command line that runs `exe` with `args`, behind `sudo`
/// when elevated.
pub open spec fn spec_command_parts(elevated: bool, exe: Seq<char>, args: Seq<Seq<char>>) -> Seq<Seq<char>> {
    (if elevated { seq!["sudo"@] } else { Seq::empty() }) + seq![exe] + args
}

pub fn command_parts(elevated: bool, exe: &str, args: &Vec<String>) -> (parts: Vec<String>)
    ensures
        views(parts@) == spec_command_parts(elevated, exe@, views(args@)),
{
    let mut parts: Vec<String> = Vec::new();
    if elevated {
        parts.push(String::from_str("sudo"));
    }
    parts.push(String::from_str(exe));
    let ghost head = views(parts@);
    let n = args.len();
    let mut i: usize = 0;
    while i < n
        invariant
            n == args@.len(),
            i <= n,
            views(parts@) == head + views(args@).take(i as int),
        decreases n - i,
    {
        let ghost before = parts@;
        let a = args[i].clone();
        parts.push(a);
        proof {
            assert(views(parts@) == views(before).push(a@));
            assert(views(parts@) =~= head + views(args@).take(i + 1));
        }
        i = i + 1;
    }
    proof {
        assert(views(args@).take(n as int) =~= views(args@));
        assert(head =~= (if elevated { seq!["sudo"@] } else { Seq::<Seq<char>>::empty() }) + seq![exe@]);
    }
    parts
}

pub open spec fn apple_script_table() -> Seq<(char, &'static str)> {
    seq![('\\', "\\\\"), ('"', "\\\"")]
}

/// The AppleScript that has Terminal run a shell script, the script written
/// as an AppleScript string.
pub open spec fn spec_apple_script(script: Seq<char>) -> Seq<char> {
    "tell application \"Terminal\" to do script \""@ + escaped(script, apple_script_table()) + "\""@
}

pub fn apple_script(script: &str) -> (apple: String)
    ensures
        apple@ == spec_apple_script(script@),
{
    let table = [('\\', "\\\\"), ('"', "\\\"")];
    assert(table@ == apple_script_table());
    let mut out = String::from_str("tell application \"Terminal\" to do script \"");
    push_escaped(&mut out, script, &table);
    out.append("\"");
    out
}

/// One terminal emulator to try: its program and its arguments.
pub struct TerminalCandidate {
    pub program: String,
    pub args: Vec<String>,
}

fn strings(items: &[&str]) -> (out: Vec<String>)
    ensures
        out@.len() == items@.len(),
        forall|i: int| 0 <= i < items@.len() ==> #[trigger] out@[i]@ == items@[i]@,
{
    let mut out: Vec<String> = Vec::new();
    let n = items.len();
    let mut i: usize = 0;
    while i < n
        invariant
            n == items@.len(),
            i <= n,
            out@.len() == i,
            forall|j: int| 0 <= j < i ==> #[trigger] out@[j]@ == items@[j]@,
        decreases n - i,
    {
        out.push(String::from_str(items[i]));
        i = i + 1;
    }
    out
}

/// The terminal emulators tried in turn on Linux, each running `script`.
pub open spec fn spec_linux_terminals(script: Seq<char>) -> Seq<(Seq<char>, Seq<Seq<char>>)> {
    seq![
        ("x-terminal-emulator"@, seq!["-e"@, "sh"@, "-lc"@, script]),
        ("gnome-terminal"@, seq!["--"@, "sh"@, "-lc"@, script]),
        ("konsole"@, seq!["-e"@, "sh"@, "-lc"@, script]),
        ("xfce4-terminal"@, seq!["-e"@, script]),
        ("xterm"@, seq!["-e"@, "sh"@, "-lc"@, script]),
    ]
}

pub open spec fn candidate_views(c: Seq<TerminalCandidate>) -> Seq<(Seq<char>, Seq<Seq<char>>)> {
    c.map_values(|t: TerminalCandidate| (t.program@, views(t.args@)))
}

fn candidate(program: &str, args: &[&str]) -> (c: TerminalCandidate)
    ensures
        c.program@ == program@,
        views(c.args@) == args@.map_values(|a: &str| a@),
{
    let owned = strings(args);
    assert(views(owned@) =~= args@.map_values(|a: &str| a@));
    TerminalCandidate { program: String::from_str(program), args: owned }
}

pub fn linux_terminal_candidates(script: &str) -> (candidates: Vec<TerminalCandidate>)
    ensures
        candidate_views(candidates@) == spec_linux_terminals(script@),
{
    let a1 = ["-e", "sh", "-lc", script];
    let a2 = ["--", "sh", "-lc", script];
    let a3 = ["-e", "sh", "-lc", script];
    let a4 = ["-e", script];
    let a5 = ["-e", "sh", "-lc", script];
    let c1 = candidate("x-terminal-emulator", &a1);
    let c2 = candidate("gnome-terminal", &a2);
    let c3 = candidate("konsole", &a3);
    let c4 = candidate("xfce4-terminal", &a4);
    let c5 = candidate("xterm", &a5);
    assert(a1@.map_values(|a: &str| a@) =~= seq!["-e"@, "sh"@, "-lc"@, script@]);
    assert(a2@.map_values(|a: &str| a@) =~= seq!["--"@, "sh"@, "-lc"@, script@]);
    assert(a3@.map_values(|a: &str| a@) =~= seq!["-e"@, "sh"@, "-lc"@, script@]);
    assert(a4@.map_values(|a: &str| a@) =~= seq!["-e"@, script@]);
    assert(a5@.map_values(|a: &str| a@) =~= seq!["-e"@, "sh"@, "-lc"@, script@]);
    let mut out: Vec<TerminalCandidate> = Vec::new();
    out.push(c1);
    out.push(c2);
    out.push(c3);
    out.push(c4);
    out.push(c5);
    assert(candidate_views(out@) =~= spec_linux_terminals(script@));
    out
}


/// The UTF-16 code units of one character.
pub open spec fn utf16_units(c: char) -> Seq<u16> {
    let v = c as u32;
    if v < 0x10000 {
        seq![v as u16]
    } else {
        let u = (v - 0x10000) as u32;
        seq![(0xD800 + u / 1024) as u16, (0xDC00 + u % 1024) as u16]
    }
}

/// The little-endian bytes of UTF-16 code units.
pub open spec fn le_bytes(units: Seq<u16>) -> Seq<u8>
    decreases units.len(),
{
    if units.len() == 0 {
        Seq::empty()
    } else {
        le_bytes(units.drop_last()) + seq![(units.last() % 256) as u8, (units.last() / 256) as u8]
    }
}

/// A string encoded as UTF-16 in little-endian byte order.
pub open spec fn utf16le(s: Seq<char>) -> Seq<u8>
    decreases s.len(),
{
    if s.len() == 0 {
        Seq::empty()
    } else {
        utf16le(s.drop_last()) + le_bytes(utf16_units(s.last()))
    }
}

fn push_le(out: &mut Vec<u8>, unit: u16)
    ensures
        final(out)@ == old(out)@ + seq![(unit % 256) as u8, (unit / 256) as u8],
{
    out.push((unit % 256) as u8);
    out.push((unit / 256) as u8);
}

pub fn utf16le_bytes(s: &str) -> (bytes: Vec<u8>)
    ensures
        bytes@ == utf16le(s@),
{
    broadcast use vstd::string::group_string_axioms;
    let mut out: Vec<u8> = Vec::new();
    for c in it: s.chars()
        invariant
            out@ == utf16le(it.seq().take(it.index())),
            it.seq() == s@,
    {
        let ghost h = it.seq().take(it.index());
        let ghost before = out@;
        proof {
            assert(it.seq()[it.index()] == c);
            assert(it.seq().take(it.index() + 1).drop_last() =~= h);
            assert(it.seq().take(it.index() + 1).last() == c);
            assert(utf16le(it.seq().take(it.index() + 1)) == utf16le(h) + le_bytes(utf16_units(c)));
            vstd::utf8::char_is_scalar(c);
        }
        let v = c as u32;
        if v < 0x10000 {
            let w: u16 = v as u16;
            push_le(&mut out, w);
            proof {
                assert(utf16_units(c) == seq![w]);
                assert(seq![w].drop_last() =~= Seq::<u16>::empty());
                assert(le_bytes(Seq::<u16>::empty()) == Seq::<u8>::empty());
                assert(le_bytes(seq![w]) =~= seq![(w % 256) as u8, (w / 256) as u8]);
                assert(out@ =~= before + le_bytes(utf16_units(c)));
            }
        } else {
            let u: u32 = v - 0x10000;
            let hi: u16 = (0xD800 + u / 1024) as u16;
            let lo: u16 = (0xDC00 + u % 1024) as u16;
            push_le(&mut out, hi);
            push_le(&mut out, lo);
            proof {
                let us = seq![hi, lo];
                assert(us.drop_last() =~= seq![hi]);
                assert(seq![hi].drop_last() =~= Seq::<u16>::empty());
                assert(utf16_units(c) == us);
                assert(le_bytes(Seq::<u16>::empty()) == Seq::<u8>::empty());
                assert(le_bytes(seq![hi]) =~= seq![(hi % 256) as u8, (hi / 256) as u8]);
                assert(le_bytes(us) == le_bytes(seq![hi]) + seq![(lo % 256) as u8, (lo / 256) as u8]);
                assert(out@ =~= before + le_bytes(utf16_units(c)));
            }
        }
    }
    assert(s@.take(s@.len() as int) =~= s@);
    out
}

/// The character of a six-bit value in the standard base64 alphabet:
/// `A`-`Z`, `a`-`z`, `0`-`9`, `+`, `/`.
pub open spec fn base64_char(v: int) -> char {
    if v < 26 {
        (65 + v) as char
    } else if v < 52 {
        (97 + v - 26) as char
    } else if v < 62 {
        (48 + v - 52) as char
    } else if v == 62 {
        '+'
    } else {
        '/'
    }
}

/// The standard base64 encoding of a byte string: each group of three
/// bytes becomes four characters of six bits each; a last group of one or
/// two bytes is padded with `=` to four characters.
pub open spec fn base64_standard(b: Seq<u8>) -> Seq<char>
    decreases b.len(),
{
    if b.len() == 0 {
        Seq::empty()
    } else if b.len() == 1 {
        seq![base64_char((b[0] as int) / 4), base64_char(((b[0] as int) % 4) * 16), '=', '=']
    } else if b.len() == 2 {
        seq![base64_char((b[0] as int) / 4), base64_char(((b[0] as int) % 4) * 16 + (b[1] as int) / 16), base64_char(((b[1] as int) % 16) * 4), '=']
    } else {
        seq![
            base64_char((b[0] as int) / 4),
            base64_char(((b[0] as int) % 4) * 16 + (b[1] as int) / 16),
            base64_char(((b[1] as int) % 16) * 4 + (b[2] as int) / 64),
            base64_char((b[2] as int) % 64),
        ] + base64_standard(b.skip(3))
    }
}

/// `base64::engine::general_purpose::STANDARD.encode`: the standard
/// alphabet with padding, as `base64_standard` spells out.
#[verifier::external_body]
fn base64_encode(bytes: &[u8]) -> (encoded: String)
    ensures
        encoded@ == base64_standard(bytes@),
{
    base64::engine::general_purpose::STANDARD.encode(bytes)
}

/// A PowerShell command in the form `-EncodedCommand` takes: base64 of its
/// UTF-16LE bytes.
pub fn powershell_encoded_command(command: &str) -> (encoded: String)
    ensures
        encoded@ == base64_standard(utf16le(command@)),
{
    let bytes = utf16le_bytes(command);
    base64_encode(bytes.as_slice())
}

/// The arguments of the PowerShell that runs an encoded command.
pub open spec fn spec_powershell_args(keep_open: bool, encoded: Seq<char>) -> Seq<Seq<char>> {
    seq!["-NoProfile"@, "-ExecutionPolicy"@, "Bypass"@] + (if keep_open { seq!["-NoExit"@] } else { Seq::empty() })
        + seq!["-EncodedCommand"@, encoded]
}

pub fn powershell_args(keep_open: bool, encoded: &str) -> (args: Vec<String>)
    ensures
        views(args@) == spec_powershell_args(keep_open, encoded@),
{
    let mut args: Vec<String> = Vec::new();
    args.push(String::from_str("-NoProfile"));
    args.push(String::from_str("-ExecutionPolicy"));
    args.push(String::from_str("Bypass"));
    if keep_open {
        args.push(String::from_str("-NoExit"));
    }
    args.push(String::from_str("-EncodedCommand"));
    args.push(String::from_str(encoded));
    assert(views(args@) =~= spec_powershell_args(keep_open, encoded@));
    args
}

/// The script that starts a new PowerShell with the given argument list,
/// elevated through `RunAs` when asked.
pub open spec fn spec_start_process_script(elevated: bool, argument_list: Seq<char>) -> Seq<char> {
    if elevated {
        "Start-Process -FilePath powershell -Verb RunAs -ArgumentList @("@ + argument_list + ")"@
    } else {
        "Start-Process -FilePath powershell -ArgumentList @("@ + argument_list + ")"@
    }
}

pub fn start_process_script(elevated: bool, argument_list: &str) -> (script: String)
    ensures
        script@ == spec_start_process_script(elevated, argument_list@),
{
    let mut script = if elevated {
        String::from_str("Start-Process -FilePath powershell -Verb RunAs -ArgumentList @(")
    } else {
        String::from_str("Start-Process -FilePath powershell -ArgumentList @(")
    };
    script.append(argument_list);
    script.append(")");
    script
}

/// The whole PowerShell script that opens a window running `exe` with
/// `args` on Windows.
pub open spec fn spec_windows_open_script(elevated: bool, exe: Seq<char>, args: Seq<Seq<char>>, keep_open: bool) -> Seq<char> {
    let encoded = base64_standard(utf16le(spec_powershell_invocation(exe, args)));
    spec_start_process_script(
        elevated,
        quoted_join(spec_powershell_args(keep_open, encoded), powershell_table(), ","@),
    )
}

pub fn windows_open_script(elevated: bool, exe: &str, args: &Vec<String>, keep_open: bool) -> (script: String)
    ensures
        script@ == spec_windows_open_script(elevated, exe@, views(args@), keep_open),
{
    let invocation = powershell_invocation(exe, args);
    let encoded = powershell_encoded_command(invocation.as_str());
    let ps_args = powershell_args(keep_open, encoded.as_str());
    let list = powershell_array_literal(&ps_args);
    start_process_script(elevated, list.as_str())
}


/// The status line shown while a control action runs.
pub open spec fn spec_requested_message(mode: Mode, control: ServiceControl) -> Seq<char> {
    spec_mode_label(mode) + " "@ + spec_verb(control) + " requested..."@
}

pub fn requested_message(mode: Mode, control: ServiceControl) -> (msg: String)
    ensures
        msg@ == spec_requested_message(mode, control),
{
    let mut msg = String::from_str(mode_label(mode));
    msg.append(" ");
    msg.append(control.verb());
    msg.append(" requested...");
    msg
}

/// The command-line arguments that run a control action on a service; the
/// service is named by its command-line mode argument.
pub open spec fn spec_control_args(control: ServiceControl, service_arg: Seq<char>) -> Seq<Seq<char>> {
    seq!["--no-update-check"@, "service"@, spec_verb(control), "--mode"@, service_arg]
}

pub fn service_control_args(control: ServiceControl, service_arg: &str) -> (args: Vec<String>)
    ensures
        views(args@) == spec_control_args(control, service_arg@),
{
    let mut args: Vec<String> = Vec::new();
    args.push(String::from_str("--no-update-check"));
    args.push(String::from_str("service"));
    args.push(String::from_str(control.verb()));
    args.push(String::from_str("--mode"));
    args.push(String::from_str(service_arg));
    assert(views(args@) =~= spec_control_args(control, service_arg@));
    args
}

/// The result of a control action. With privileges the action ran in place:
/// success is reported as completed, a failure as the failed action. Without
/// privileges an elevated terminal was opened for it: success says so, and
/// a failure to open it is passed on.
pub open spec fn spec_control_outcome(
    mode: Mode,
    control: ServiceControl,
    elevated: bool,
    outcome: Result<(), Seq<char>>,
) -> Result<Seq<char>, Seq<char>> {
    if elevated {
        match outcome {
            Ok(()) => Ok(spec_mode_label(mode) + " "@ + spec_verb(control) + " completed."@),
            Err(_) => Err("failed to "@ + spec_verb(control) + " "@ + spec_mode_label(mode) + " service"@),
        }
    } else {
        match outcome {
            Ok(()) => Ok("Opened elevated "@ + spec_mode_label(mode) + " "@ + spec_verb(control) + " command."@),
            Err(e) => Err(e),
        }
    }
}

pub open spec fn result_view(r: Result<(), String>) -> Result<(), Seq<char>> {
    match r {
        Ok(()) => Ok(()),
        Err(e) => Err(e@),
    }
}

pub open spec fn string_result_view(r: Result<String, String>) -> Result<Seq<char>, Seq<char>> {
    match r {
        Ok(v) => Ok(v@),
        Err(e) => Err(e@),
    }
}

/// Completes a control action from the outcome of the work it did: the
/// service operation when `elevated`, the opening of an elevated terminal
/// otherwise.
pub fn run_service_control(mode: Mode, control: ServiceControl, elevated: bool, outcome: Result<(), String>) -> (r: Result<String, String>)
    ensures
        string_result_view(r) == spec_control_outcome(mode, control, elevated, result_view(outcome)),
{
    let label = mode_label(mode);
    let verb = control.verb();
    if elevated {
        match outcome {
            Ok(()) => {
                let mut msg = String::from_str(label);
                msg.append(" ");
                msg.append(verb);
                msg.append(" completed.");
                Ok(msg)
            }
            Err(_) => {
                let mut msg = String::from_str("failed to ");
                msg.append(verb);
                msg.append(" ");
                msg.append(label);
                msg.append(" service");
                Err(msg)
            }
        }
    } else {
        match outcome {
            Ok(()) => {
                let mut msg = String::from_str("Opened elevated ");
                msg.append(label);
                msg.append(" ");
                msg.append(verb);
                msg.append(" command.");
                Ok(msg)
            }
            Err(e) => Err(e),
        }
    }
}

/// The status line after a control action has finished.
pub open spec fn spec_control_report(mode: Mode, control: ServiceControl, r: Result<Seq<char>, Seq<char>>) -> Seq<char> {
    match r {
        Ok(m) => m,
        Err(e) => spec_mode_label(mode) + " "@ + spec_verb(control) + " failed: "@ + e,
    }
}

pub fn control_report(mode: Mode, control: ServiceControl, r: Result<String, String>) -> (msg: String)
    ensures
        msg@ == spec_control_report(mode, control, string_result_view(r)),
{
    match r {
        Ok(m) => m,
        Err(e) => {
            let mut msg = String::from_str(mode_label(mode));
            msg.append(" ");
            msg.append(control.verb());
            msg.append(" failed: ");
            msg.append(e.as_str());
            msg
        }
    }
}

/// The arguments that show the last hundred log lines of a service.
pub open spec fn spec_logs_args(service_arg: Seq<char>) -> Seq<Seq<char>> {
    seq!["--no-update-check"@, "service"@, "logs"@, "--mode"@, service_arg, "--lines"@, "100"@]
}

pub fn logs_args(service_arg: &str) -> (args: Vec<String>)
    ensures
        views(args@) == spec_logs_args(service_arg@),
{
    let mut args: Vec<String> = Vec::new();
    args.push(String::from_str("--no-update-check"));
    args.push(String::from_str("service"));
    args.push(String::from_str("logs"));
    args.push(String::from_str("--mode"));
    args.push(String::from_str(service_arg));
    args.push(String::from_str("--lines"));
    args.push(String::from_str("100"));
    assert(views(args@) =~= spec_logs_args(service_arg@));
    args
}

pub open spec fn spec_logs_message(mode: Mode, r: Result<(), Seq<char>>) -> Seq<char> {
    match r {
        Ok(()) => "Opened "@ + spec_mode_label(mode) + " logs."@,
        Err(e) => "Failed to open "@ + spec_mode_label(mode) + " logs: "@ + e,
    }
}

pub fn logs_message(mode: Mode, r: Result<(), String>) -> (msg: String)
    ensures
        msg@ == spec_logs_message(mode, result_view(r)),
{
    match r {
        Ok(()) => {
            let mut msg = String::from_str("Opened ");
            msg.append(mode_label(mode));
            msg.append(" logs.");
            msg
        }
        Err(e) => {
            let mut msg = String::from_str("Failed to open ");
            msg.append(mode_label(mode));
            msg.append(" logs: ");
            msg.append(e.as_str());
            msg
        }
    }
}

/// The status line after setting up startup: where the autostart entry went
/// (or why it failed) and whether the service setup opened.
pub open spec fn spec_startup_message(autostart: Result<Seq<char>, Seq<char>>, setup: Result<(), Seq<char>>) -> Seq<char> {
    match (autostart, setup) {
        (Ok(path), Ok(())) => "Tray autostart installed at "@ + path + "; opened service setup."@,
        (Ok(path), Err(e)) => "Tray autostart installed at "@ + path + "; failed to open service setup: "@ + e,
        (Err(e), Ok(())) => "Failed to install tray autostart: "@ + e + "; opened service setup."@,
        (Err(a), Err(b)) => "Startup setup failed: "@ + a + "; service setup failed: "@ + b,
    }
}

pub fn startup_message(autostart: Result<String, String>, setup: Result<(), String>) -> (msg: String)
    ensures
        msg@ == spec_startup_message(string_result_view(autostart), result_view(setup)),
{
    match (autostart, setup) {
        (Ok(path), Ok(())) => {
            let mut msg = String::from_str("Tray autostart installed at ");
            msg.append(path.as_str());
            msg.append("; opened service setup.");
            msg
        }
        (Ok(path), Err(e)) => {
            let mut msg = String::from_str("Tray autostart installed at ");
            msg.append(path.as_str());
            msg.append("; failed to open service setup: ");
            msg.append(e.as_str());
            msg
        }
        (Err(e), Ok(())) => {
            let mut msg = String::from_str("Failed to install tray autostart: ");
            msg.append(e.as_str());
            msg.append("; opened service setup.");
            msg
        }
        (Err(a), Err(b)) => {
            let mut msg = String::from_str("Startup setup failed: ");
            msg.append(a.as_str());
            msg.append("; service setup failed: ");
            msg.append(b.as_str());
            msg
        }
    }
}

pub open spec fn spec_open_dashboard_message(url: Seq<char>, r: Result<(), Seq<char>>) -> Seq<char> {
    match r {
        Ok(()) => "Opened "@ + url,
        Err(e) => "Failed to open dashboard: "@ + e,
    }
}

pub fn open_dashboard_message(url: &str, r: Result<(), String>) -> (msg: String)
    ensures
        msg@ == spec_open_dashboard_message(url@, result_view(r)),
{
    match r {
        Ok(()) => {
            let mut msg = String::from_str("Opened ");
            msg.append(url);
            msg
        }
        Err(e) => {
            let mut msg = String::from_str("Failed to open dashboard: ");
            msg.append(e.as_str());
            msg
        }
    }
}

pub open spec fn spec_copy_url_message(r: Result<(), Seq<char>>) -> Seq<char> {
    match r {
        Ok(()) => "Dashboard URL copied."@,
        Err(e) => "Failed to copy dashboard URL: "@ + e,
    }
}

pub fn copy_url_message(r: Result<(), String>) -> (msg: String)
    ensures
        msg@ == spec_copy_url_message(result_view(r)),
{
    match r {
        Ok(()) => String::from_str("Dashboard URL copied."),
        Err(e) => {
            let mut msg = String::from_str("Failed to copy dashboard URL: ");
            msg.append(e.as_str());
            msg
        }
    }
}

/// What an update check found.
pub enum UpdateStatus {
    Current { current: String },
    Available { current: String, latest: String },
}

pub open spec fn spec_update_message(r: Result<UpdateStatus, Seq<char>>) -> Seq<char> {
    match r {
        Ok(UpdateStatus::Current { current }) => "Wakezilla is up to date ("@ + current@ + ")."@,
        Ok(UpdateStatus::Available { current, latest }) => "Wakezilla "@ + latest@ + " is available (current "@ + current@ + ")."@,
        Err(e) => "Update check failed: "@ + e,
    }
}

pub open spec fn update_result_view(r: Result<UpdateStatus, String>) -> Result<UpdateStatus, Seq<char>> {
    match r {
        Ok(s) => Ok(s),
        Err(e) => Err(e@),
    }
}

pub fn update_message(r: Result<UpdateStatus, String>) -> (msg: String)
    ensures
        msg@ == spec_update_message(update_result_view(r)),
{
    match r {
        Ok(UpdateStatus::Current { current }) => {
            let mut msg = String::from_str("Wakezilla is up to date (");
            msg.append(current.as_str());
            msg.append(").");
            msg
        }
        Ok(UpdateStatus::Available { current, latest }) => {
            let mut msg = String::from_str("Wakezilla ");
            msg.append(latest.as_str());
            msg.append(" is available (current ");
            msg.append(current.as_str());
            msg.append(").");
            msg
        }
        Err(e) => {
            let mut msg = String::from_str("Update check failed: ");
            msg.append(e.as_str());
            msg
        }
    }
}


/// What a click on a tray menu item asks for.
#[derive(Clone, Copy, PartialEq, Eq, Debug)]
pub enum MenuAction {
    OpenDashboard,
    CopyDashboardUrl,
    ConfigureStartup,
    CheckUpdates,
    Quit,
    Control(Mode, ServiceControl),
    Logs(Mode),
}

/// The action of the menu item with the given id; unknown ids do nothing.
pub open spec fn spec_menu_action(id: Seq<char>) -> Option<MenuAction> {
    if id == "open_dashboard"@ {
        Some(MenuAction::OpenDashboard)
    } else if id == "copy_dashboard_url"@ {
        Some(MenuAction::CopyDashboardUrl)
    } else if id == "setup_services"@ {
        Some(MenuAction::ConfigureStartup)
    } else if id == "check_updates"@ {
        Some(MenuAction::CheckUpdates)
    } else if id == "quit_tray"@ {
        Some(MenuAction::Quit)
    } else if id == "proxy_start"@ {
        Some(MenuAction::Control(Mode::Proxy, ServiceControl::Start))
    } else if id == "proxy_stop"@ {
        Some(MenuAction::Control(Mode::Proxy, ServiceControl::Stop))
    } else if id == "proxy_restart"@ {
        Some(MenuAction::Control(Mode::Proxy, ServiceControl::Restart))
    } else if id == "proxy_logs"@ {
        Some(MenuAction::Logs(Mode::Proxy))
    } else if id == "client_start"@ {
        Some(MenuAction::Control(Mode::Client, ServiceControl::Start))
    } else if id == "client_stop"@ {
        Some(MenuAction::Control(Mode::Client, ServiceControl::Stop))
    } else if id == "client_restart"@ {
        Some(MenuAction::Control(Mode::Client, ServiceControl::Restart))
    } else if id == "client_logs"@ {
        Some(MenuAction::Logs(Mode::Client))
    } else {
        None
    }
}

pub fn menu_action(id: &str) -> (action: Option<MenuAction>)
    ensures
        action == spec_menu_action(id@),
{
    if str_eq(id, "open_dashboard") {
        Some(MenuAction::OpenDashboard)
    } else if str_eq(id, "copy_dashboard_url") {
        Some(MenuAction::CopyDashboardUrl)
    } else if str_eq(id, "setup_services") {
        Some(MenuAction::ConfigureStartup)
    } else if str_eq(id, "check_updates") {
        Some(MenuAction::CheckUpdates)
    } else if str_eq(id, "quit_tray") {
        Some(MenuAction::Quit)
    } else if str_eq(id, "proxy_start") {
        Some(MenuAction::Control(Mode::Proxy, ServiceControl::Start))
    } else if str_eq(id, "proxy_stop") {
        Some(MenuAction::Control(Mode::Proxy, ServiceControl::Stop))
    } else if str_eq(id, "proxy_restart") {
        Some(MenuAction::Control(Mode::Proxy, ServiceControl::Restart))
    } else if str_eq(id, "proxy_logs") {
        Some(MenuAction::Logs(Mode::Proxy))
    } else if str_eq(id, "client_start") {
        Some(MenuAction::Control(Mode::Client, ServiceControl::Start))
    } else if str_eq(id, "client_stop") {
        Some(MenuAction::Control(Mode::Client, ServiceControl::Stop))
    } else if str_eq(id, "client_restart") {
        Some(MenuAction::Control(Mode::Client, ServiceControl::Restart))
    } else if str_eq(id, "client_logs") {
        Some(MenuAction::Logs(Mode::Client))
    } else {
        None
    }
}

/// The ids of the items of one service's submenu.
pub struct ModeMenuIds {
    pub status: &'static str,
    pub start: &'static str,
    pub stop: &'static str,
    pub restart: &'static str,
    pub logs: &'static str,
}

pub open spec fn spec_mode_menu_ids(mode: Mode) -> (Seq<char>, Seq<char>, Seq<char>, Seq<char>, Seq<char>) {
    match mode {
        Mode::Proxy => ("proxy_status"@, "proxy_start"@, "proxy_stop"@, "proxy_restart"@, "proxy_logs"@),
        Mode::Client => ("client_status"@, "client_start"@, "client_stop"@, "client_restart"@, "client_logs"@),
    }
}

pub fn mode_menu_ids(mode: Mode) -> (ids: ModeMenuIds)
    ensures
        (ids.status@, ids.start@, ids.stop@, ids.restart@, ids.logs@) == spec_mode_menu_ids(mode),
{
    match mode {
        Mode::Proxy => ModeMenuIds {
            status: "proxy_status",
            start: "proxy_start",
            stop: "proxy_stop",
            restart: "proxy_restart",
            logs: "proxy_logs",
        },
        Mode::Client => ModeMenuIds {
            status: "client_status",
            start: "client_start",
            stop: "client_stop",
            restart: "client_restart",
            logs: "client_logs",
        },
    }
}

/// The status line a submenu shows before the first status arrives.
pub fn unknown_status_text(mode: Mode) -> (text: String)
    ensures
        text@ == spec_mode_label(mode) + ": unknown"@,
{
    let mut text = String::from_str(mode_label(mode));
    text.append(": unknown");
    text
}

/// One item of a tray menu: its id, its text, and whether it can be
/// clicked.
pub struct MenuItemSpec {
    pub id: String,
    pub text: String,
    pub enabled: bool,
}

/// A service's submenu as it is built: its id (the service's command-line
/// argument) and title, its status line, and its four action items.
pub struct ModeSubmenu {
    pub id: String,
    pub title: String,
    pub status: MenuItemSpec,
    pub start: MenuItemSpec,
    pub stop: MenuItemSpec,
    pub restart: MenuItemSpec,
    pub logs: MenuItemSpec,
}

pub open spec fn item_is(item: MenuItemSpec, id: Seq<char>, text: Seq<char>, enabled: bool) -> bool {
    item.id@ == id && item.text@ == text && item.enabled == enabled
}

fn menu_item(id: &str, text: &str, enabled: bool) -> (item: MenuItemSpec)
    ensures
        item_is(item, id@, text@, enabled),
{
    MenuItemSpec { id: String::from_str(id), text: String::from_str(text), enabled }
}

/// The submenu of a service before its status is known: titled with the
/// service's name, its status line "<name>: unknown" and not clickable,
/// then Start, Stop, Restart and Logs, all clickable.
pub fn mode_submenu(mode: Mode, service_arg: &str) -> (menu: ModeSubmenu)
    ensures
        menu.id@ == service_arg@,
        menu.title@ == spec_mode_label(mode),
        ({
            let ids = spec_mode_menu_ids(mode);
            &&& item_is(menu.status, ids.0, spec_mode_label(mode) + ": unknown"@, false)
            &&& item_is(menu.start, ids.1, "Start"@, true)
            &&& item_is(menu.stop, ids.2, "Stop"@, true)
            &&& item_is(menu.restart, ids.3, "Restart"@, true)
            &&& item_is(menu.logs, ids.4, "Logs"@, true)
        }),
{
    let ids = mode_menu_ids(mode);
    let status = MenuItemSpec { id: String::from_str(ids.status), text: unknown_status_text(mode), enabled: false };
    ModeSubmenu {
        id: String::from_str(service_arg),
        title: String::from_str(mode_label(mode)),
        status,
        start: menu_item(ids.start, "Start", true),
        stop: menu_item(ids.stop, "Stop", true),
        restart: menu_item(ids.restart, "Restart", true),
        logs: menu_item(ids.logs, "Logs", true),
    }
}

/// An entry of the tray's root menu.
pub enum MenuEntry {
    Item(MenuItemSpec),
    Separator,
    Submenu(ModeSubmenu),
}

pub open spec fn entry_is_item(e: MenuEntry, id: Seq<char>, text: Seq<char>, enabled: bool) -> bool {
    e matches MenuEntry::Item(item) && item_is(item, id, text, enabled)
}

/// The tray's root menu, top to bottom: the message line ("Ready", not
/// clickable), the two dashboard items, the proxy and client submenus
/// (with the services' command-line arguments as ids), the startup and
/// update items, and Quit, with separators between the groups.
pub fn tray_menu(proxy_arg: &str, client_arg: &str) -> (entries: Vec<MenuEntry>)
    ensures
        entries@.len() == 12,
        entry_is_item(entries@[0], "tray_message"@, "Ready"@, false),
        entries@[1] is Separator,
        entry_is_item(entries@[2], "open_dashboard"@, "Open dashboard"@, true),
        entry_is_item(entries@[3], "copy_dashboard_url"@, "Copy dashboard URL"@, true),
        entries@[4] is Separator,
        entries@[5] matches MenuEntry::Submenu(m) && m.id@ == proxy_arg@ && m.title@ == spec_mode_label(Mode::Proxy),
        entries@[6] matches MenuEntry::Submenu(m) && m.id@ == client_arg@ && m.title@ == spec_mode_label(Mode::Client),
        entries@[7] is Separator,
        entry_is_item(entries@[8], "setup_services"@, "Configure startup"@, true),
        entry_is_item(entries@[9], "check_updates"@, "Check for updates"@, true),
        entries@[10] is Separator,
        entry_is_item(entries@[11], "quit_tray"@, "Quit tray"@, true),
{
    let mut entries: Vec<MenuEntry> = Vec::new();
    entries.push(MenuEntry::Item(menu_item("tray_message", "Ready", false)));
    entries.push(MenuEntry::Separator);
    entries.push(MenuEntry::Item(menu_item("open_dashboard", "Open dashboard", true)));
    entries.push(MenuEntry::Item(menu_item("copy_dashboard_url", "Copy dashboard URL", true)));
    entries.push(MenuEntry::Separator);
    entries.push(MenuEntry::Submenu(mode_submenu(Mode::Proxy, proxy_arg)));
    entries.push(MenuEntry::Submenu(mode_submenu(Mode::Client, client_arg)));
    entries.push(MenuEntry::Separator);
    entries.push(MenuEntry::Item(menu_item("setup_services", "Configure startup", true)));
    entries.push(MenuEntry::Item(menu_item("check_updates", "Check for updates", true)));
    entries.push(MenuEntry::Separator);
    entries.push(MenuEntry::Item(menu_item("quit_tray", "Quit tray", true)));
    entries
}

/// How one service's submenu looks for a status.
pub struct ModeMenuView {
    pub status_text: String,
    pub start_enabled: bool,
    pub stop_enabled: bool,
    pub restart_enabled: bool,
    pub logs_enabled: bool,
}

/// The submenu for a status: the status line, Start only for an installed
/// stopped service, Stop only for a running one, Restart and Logs for any
/// installed one.
pub fn mode_menu_view(mode: Mode, status: ModeStatus) -> (view: ModeMenuView)
    ensures
        view.status_text@ == spec_mode_label(mode) + ": "@ + spec_status_label(status),
        view.start_enabled == (status.installed && !status.running),
        view.stop_enabled == (status.installed && status.running),
        view.restart_enabled == status.installed,
        view.logs_enabled == status.installed,
{
    let mut text = String::from_str(mode_label(mode));
    text.append(": ");
    text.append(service_status_label(status));
    ModeMenuView {
        status_text: text,
        start_enabled: status.installed && !status.running,
        stop_enabled: status.installed && status.running,
        restart_enabled: status.installed,
        logs_enabled: status.installed,
    }
}

/// The desktop entry that starts the tray at login on Linux.
pub open spec fn spec_desktop_entry(exe: Seq<char>) -> Seq<char> {
    "[Desktop Entry]\nType=Application\nName=Wakezilla Tray\nExec="@ + spec_desktop_entry_quote(exe)
        + " tray\nTerminal=false\nX-GNOME-Autostart-enabled=true\n"@
}

pub fn desktop_entry(exe: &str) -> (content: String)
    ensures
        content@ == spec_desktop_entry(exe@),
{
    let mut content = String::from_str("[Desktop Entry]\nType=Application\nName=Wakezilla Tray\nExec=");
    let quoted = desktop_entry_quote(exe);
    content.append(quoted.as_str());
    content.append(" tray\nTerminal=false\nX-GNOME-Autostart-enabled=true\n");
    content
}

/// The launch agent that starts the tray at login on macOS.
pub open spec fn spec_launch_agent(exe: Seq<char>) -> Seq<char> {
    "<?xml version=\"1.0\" encoding=\"UTF-8\"?>\n<!DOCTYPE plist PUBLIC \"-//Apple//DTD PLIST 1.0//EN\" \"http://www.apple.com/DTDs/PropertyList-1.0.dtd\">\n<plist version=\"1.0\">\n<dict>\n\t<key>Label</key>\n\t<string>dev.wakezilla.tray</string>\n\t<key>ProgramArguments</key>\n\t<array>\n\t\t<string>"@
        + escaped(exe, xml_table())
        + "</string>\n\t\t<string>tray</string>\n\t</array>\n\t<key>RunAtLoad</key>\n\t<true/>\n</dict>\n</plist>\n"@
}

pub fn launch_agent(exe: &str) -> (content: String)
    ensures
        content@ == spec_launch_agent(exe@),
{
    let mut content = String::from_str("<?xml version=\"1.0\" encoding=\"UTF-8\"?>\n<!DOCTYPE plist PUBLIC \"-//Apple//DTD PLIST 1.0//EN\" \"http://www.apple.com/DTDs/PropertyList-1.0.dtd\">\n<plist version=\"1.0\">\n<dict>\n\t<key>Label</key>\n\t<string>dev.wakezilla.tray</string>\n\t<key>ProgramArguments</key>\n\t<array>\n\t\t<string>");
    let esc = xml_escape(exe);
    content.append(esc.as_str());
    content.append("</string>\n\t\t<string>tray</string>\n\t</array>\n\t<key>RunAtLoad</key>\n\t<true/>\n</dict>\n</plist>\n");
    content
}

/// The registry command value that starts the tray at login on Windows.
pub fn windows_autostart_command(exe: &str) -> (command: String)
    ensures
        command@ == "\""@ + exe@ + "\" tray"@,
{
    let mut command = String::from_str("\"");
    command.append(exe);
    command.append("\" tray");
    command
}

/// The pixel layouts a decoded PNG frame can have.
#[derive(Clone, Copy, PartialEq, Eq, Debug)]
pub enum PngColor {
    Grayscale,
    Rgb,
    Indexed,
    GrayscaleAlpha,
    Rgba,
}

/// Why the tray icon could not be made.
#[derive(Clone, Copy, PartialEq, Eq, Debug)]
pub enum IconError {
    /// The PNG header could not be read.
    Decode,
    /// The decoded image would not fit in memory.
    BufferTooLarge,
    /// The first frame could not be read.
    Frame,
    /// The decoder reported a colour type PNG does not define.
    UnknownColor,
    /// A palette frame reached the conversion without being expanded.
    IndexedNotExpanded,
}

/// The first frame of a PNG image, decoded with palettes expanded and
/// 16-bit samples stripped: its bytes, its PNG colour type code, its width
/// and height; or the step at which decoding failed.
pub uninterp spec fn png_first_frame(png: Seq<u8>) -> Result<(Seq<u8>, u8, u32, u32), IconError>;

pub open spec fn frame_view(r: Result<(Vec<u8>, u8, u32, u32), IconError>) -> Result<(Seq<u8>, u8, u32, u32), IconError> {
    match r {
        Ok((px, c, w, h)) => Ok((px@, c, w, h)),
        Err(e) => Err(e),
    }
}

/// Decodes the first frame of a PNG image with the `png` crate
/// (`Decoder::new` with the `EXPAND` and `STRIP_16` transformations,
/// `read_info`, `output_buffer_size`, `next_frame`, the frame's
/// `buffer_size`). The claim is only that the result depends on the bytes
/// alone (it is named by `png_first_frame`) and which step failed; what the
/// pixels are is not stated.
#[verifier::external_body]
fn decode_png(png: &[u8]) -> (frame: Result<(Vec<u8>, u8, u32, u32), IconError>)
    ensures
        frame_view(frame) == png_first_frame(png@),
{
    let mut decoder = png::Decoder::new(std::io::Cursor::new(png));
    decoder.set_transformations(png::Transformations::EXPAND | png::Transformations::STRIP_16);
    let mut reader = match decoder.read_info() { Ok(r) => r, Err(_) => return Err(IconError::Decode) };
    let size = match reader.output_buffer_size() { Some(n) => n, None => return Err(IconError::BufferTooLarge) };
    let mut pixels = vec![0u8; size];
    let info = match reader.next_frame(&mut pixels) { Ok(i) => i, Err(_) => return Err(IconError::Frame) };
    pixels.truncate(info.buffer_size());
    Ok((pixels, info.color_type as u8, info.width, info.height))
}

/// The pixel layout of a PNG colour type code.
pub open spec fn png_color(code: u8) -> Option<PngColor> {
    if code == 0 {
        Some(PngColor::Grayscale)
    } else if code == 2 {
        Some(PngColor::Rgb)
    } else if code == 3 {
        Some(PngColor::Indexed)
    } else if code == 4 {
        Some(PngColor::GrayscaleAlpha)
    } else if code == 6 {
        Some(PngColor::Rgba)
    } else {
        None
    }
}

fn color_of_code(code: u8) -> (c: Option<PngColor>)
    ensures
        c == png_color(code),
{
    if code == 0 {
        Some(PngColor::Grayscale)
    } else if code == 2 {
        Some(PngColor::Rgb)
    } else if code == 3 {
        Some(PngColor::Indexed)
    } else if code == 4 {
        Some(PngColor::GrayscaleAlpha)
    } else if code == 6 {
        Some(PngColor::Rgba)
    } else {
        None
    }
}

/// The tray icon as RGBA pixels and its size.
pub struct IconImage {
    pub rgba: Vec<u8>,
    pub width: u32,
    pub height: u32,
}

/// The RGBA pixels of a frame: RGBA as is; RGB with an opaque alpha after
/// each complete triple; gray repeated into R, G and B with an opaque alpha;
/// gray-alpha with the gray repeated. Trailing bytes of an incomplete pixel
/// are dropped. Palette frames have no conversion.
pub open spec fn spec_rgba(bytes: Seq<u8>, color: PngColor) -> Option<Seq<u8>> {
    match color {
        PngColor::Rgba => Some(bytes),
        PngColor::Rgb => Some(Seq::new((bytes.len() / 3 * 4) as nat, |i: int|
            if i % 4 == 3 { 255u8 } else { bytes[(i / 4) * 3 + i % 4] })),
        PngColor::Grayscale => Some(Seq::new((bytes.len() * 4) as nat, |i: int|
            if i % 4 == 3 { 255u8 } else { bytes[i / 4] })),
        PngColor::GrayscaleAlpha => Some(Seq::new((bytes.len() / 2 * 4) as nat, |i: int|
            if i % 4 == 3 { bytes[(i / 4) * 2 + 1] } else { bytes[(i / 4) * 2] })),
        PngColor::Indexed => None,
    }
}

/// Appends one RGBA pixel.
fn push_pixel(out: &mut Vec<u8>, r: u8, g: u8, b: u8, a: u8)
    ensures
        final(out)@ == old(out)@ + seq![r, g, b, a],
{
    out.push(r);
    out.push(g);
    out.push(b);
    out.push(a);
}

pub fn rgba_from_png_frame(bytes: &[u8], color: PngColor) -> (rgba: Result<Vec<u8>, IconError>)
    ensures
        match rgba {
            Ok(v) => spec_rgba(bytes@, color) == Some(v@),
            Err(e) => spec_rgba(bytes@, color) is None && e == IconError::IndexedNotExpanded,
        },
{
    let n = bytes.len();
    match color {
        PngColor::Rgba => {
            let mut out: Vec<u8> = Vec::new();
            let mut i: usize = 0;
            while i < n
                invariant
                    n == bytes@.len(),
                    i <= n,
                    out@ == bytes@.subrange(0, i as int),
                decreases n - i,
            {
                out.push(bytes[i]);
                i = i + 1;
                assert(out@ =~= bytes@.subrange(0, i as int));
            }
            assert(out@ =~= bytes@);
            Ok(out)
        }
        PngColor::Rgb => {
            let m = n / 3;
            let mut out: Vec<u8> = Vec::new();
            let mut k: usize = 0;
            while k < m
                invariant
                    n == bytes@.len(),
                    m == n / 3,
                    k <= m,
                    out@.len() == 4 * k,
                    forall|i: int| 0 <= i < out@.len() ==> #[trigger] out@[i] == (if i % 4 == 3 { 255u8 } else { bytes@[(i / 4) * 3 + i % 4] }),
                decreases m - k,
            {
                let ghost before = out@;
                push_pixel(&mut out, bytes[3 * k], bytes[3 * k + 1], bytes[3 * k + 2], 255);
                assert forall|i: int| 0 <= i < out@.len() implies #[trigger] out@[i] == (if i % 4 == 3 { 255u8 } else { bytes@[(i / 4) * 3 + i % 4] }) by {
                    if i >= before.len() {
                        assert(i / 4 == k as int);
                    }
                };
                k = k + 1;
            }
            assert(out@ =~= spec_rgba(bytes@, color)->0);
            Ok(out)
        }
        PngColor::Grayscale => {
            let mut out: Vec<u8> = Vec::new();
            let mut k: usize = 0;
            while k < n
                invariant
                    n == bytes@.len(),
                    k <= n,
                    out@.len() == 4 * k,
                    forall|i: int| 0 <= i < out@.len() ==> #[trigger] out@[i] == (if i % 4 == 3 { 255u8 } else { bytes@[i / 4] }),
                decreases n - k,
            {
                let ghost before = out@;
                let g = bytes[k];
                push_pixel(&mut out, g, g, g, 255);
                assert forall|i: int| 0 <= i < out@.len() implies #[trigger] out@[i] == (if i % 4 == 3 { 255u8 } else { bytes@[i / 4] }) by {
                    if i >= before.len() {
                        assert(i / 4 == k as int);
                    }
                };
                k = k + 1;
            }
            assert(out@ =~= spec_rgba(bytes@, color)->0);
            Ok(out)
        }
        PngColor::GrayscaleAlpha => {
            let m = n / 2;
            let mut out: Vec<u8> = Vec::new();
            let mut k: usize = 0;
            while k < m
                invariant
                    n == bytes@.len(),
                    m == n / 2,
                    k <= m,
                    out@.len() == 4 * k,
                    forall|i: int| 0 <= i < out@.len() ==> #[trigger] out@[i] == (if i % 4 == 3 { bytes@[(i / 4) * 2 + 1] } else { bytes@[(i / 4) * 2] }),
                decreases m - k,
            {
                let ghost before = out@;
                let g = bytes[2 * k];
                let a = bytes[2 * k + 1];
                push_pixel(&mut out, g, g, g, a);
                assert forall|i: int| 0 <= i < out@.len() implies #[trigger] out@[i] == (if i % 4 == 3 { bytes@[(i / 4) * 2 + 1] } else { bytes@[(i / 4) * 2] }) by {
                    if i >= before.len() {
                        assert(i / 4 == k as int);
                    }
                };
                k = k + 1;
            }
            assert(out@ =~= spec_rgba(bytes@, color)->0);
            Ok(out)
        }
        PngColor::Indexed => Err(IconError::IndexedNotExpanded),
    }
}

/// The tray icon from the bytes of a PNG image: the first frame, turned
/// into RGBA pixels.
pub fn load_tray_icon(png: &[u8]) -> (icon: Result<IconImage, IconError>)
    ensures
        match png_first_frame(png@) {
            Err(e) => icon matches Err(x) && x == e,
            Ok((px, code, w, h)) => match png_color(code) {
                None => icon matches Err(x) && x == IconError::UnknownColor,
                Some(color) => match spec_rgba(px, color) {
                    Some(rgba) => icon matches Ok(img) && img.rgba@ == rgba && img.width == w && img.height == h,
                    None => icon matches Err(x) && x == IconError::IndexedNotExpanded,
                },
            },
        },
{
    let (pixels, code, width, height) = match decode_png(png) {
        Ok(frame) => frame,
        Err(e) => return Err(e),
    };
    let color = match color_of_code(code) {
        Some(c) => c,
        None => return Err(IconError::UnknownColor),
    };
    match rgba_from_png_frame(pixels.as_slice(), color) {
        Ok(rgba) => Ok(IconImage { rgba, width, height }),
        Err(e) => Err(e),
    }
}

/// What the tray application keeps between events: whether its icon and
/// menu are up, whether a status query is under way, and why it could not
/// start, if it could not.
pub struct TrayState {
    pub icon_built: bool,
    pub refresh_in_flight: bool,
    pub startup_error: Option<String>,
}

/// What reaches the tray application.
pub enum TrayEvent {
    /// The event loop started.
    Started,
    /// Building the icon and its menu finished, or failed with this error.
    IconBuilt(Result<(), String>),
    /// The menu item with this id was clicked.
    Menu(String),
    /// The periodic refresh timer fired.
    Refresh,
    /// The statuses of the proxy and client services arrived.
    Status(ModeStatus, ModeStatus),
    /// A message for the menu arrived.
    Message(String),
}

/// What the tray application asks of its surroundings.
#[derive(PartialEq, Eq, Debug)]
pub enum TrayCommand {
    Nothing,
    /// Build the icon and its menu.
    BuildIcon,
    /// Leave the event loop.
    Exit,
    /// Query the statuses of both services in the background.
    QueryStatus,
    /// Show these statuses of the proxy and client services.
    ShowStatus(ModeStatus, ModeStatus),
    /// Show this message in the menu.
    ShowMessage(String),
    /// Carry out a menu action.
    Perform(MenuAction),
}

pub open spec fn tray_view(s: TrayState) -> (bool, bool, Option<Seq<char>>) {
    (s.icon_built, s.refresh_in_flight, match s.startup_error {
        Some(e) => Some(e@),
        None => None,
    })
}

impl TrayState {
    /// Before the event loop starts.
    pub fn new() -> (s: TrayState)
        ensures
            tray_view(s) == (false, false, None::<Seq<char>>),
    {
        TrayState { icon_built: false, refresh_in_flight: false, startup_error: None }
    }

    /// What an event does. The icon is built once, at start; a failure to
    /// build it is kept and ends the loop. Status queries run one at a time
    /// and only once the menu is up; statuses and messages are shown only
    /// then. A menu click quits or asks for its action; unknown ids do
    /// nothing.
    pub fn handle(&mut self, event: TrayEvent) -> (cmd: TrayCommand)
        ensures
            match event {
                TrayEvent::Started => tray_view(*final(self)) == tray_view(*old(self))
                    && cmd == if old(self).icon_built { TrayCommand::Nothing } else { TrayCommand::BuildIcon },
                TrayEvent::IconBuilt(Ok(())) => tray_view(*final(self)) == (true, true, tray_view(*old(self)).2)
                    && cmd == if old(self).refresh_in_flight { TrayCommand::Nothing } else { TrayCommand::QueryStatus },
                TrayEvent::IconBuilt(Err(e)) => tray_view(*final(self)) == (old(self).icon_built, old(self).refresh_in_flight, Some(e@))
                    && cmd == TrayCommand::Exit,
                TrayEvent::Refresh => if old(self).icon_built && !old(self).refresh_in_flight {
                    tray_view(*final(self)) == (true, true, tray_view(*old(self)).2) && cmd == TrayCommand::QueryStatus
                } else {
                    tray_view(*final(self)) == tray_view(*old(self)) && cmd == TrayCommand::Nothing
                },
                TrayEvent::Status(p, c) => tray_view(*final(self)) == (old(self).icon_built, false, tray_view(*old(self)).2)
                    && cmd == if old(self).icon_built { TrayCommand::ShowStatus(p, c) } else { TrayCommand::Nothing },
                TrayEvent::Message(m) => tray_view(*final(self)) == tray_view(*old(self))
                    && if old(self).icon_built { cmd matches TrayCommand::ShowMessage(x) && x@ == m@ } else { cmd == TrayCommand::Nothing },
                TrayEvent::Menu(id) => tray_view(*final(self)) == tray_view(*old(self)) && cmd == match spec_menu_action(id@) {
                    None => TrayCommand::Nothing,
                    Some(MenuAction::Quit) => TrayCommand::Exit,
                    Some(a) => TrayCommand::Perform(a),
                },
            },
    {
        match event {
            TrayEvent::Started => {
                if self.icon_built {
                    TrayCommand::Nothing
                } else {
                    TrayCommand::BuildIcon
                }
            }
            TrayEvent::IconBuilt(Ok(())) => {
                self.icon_built = true;
                self.refresh()
            }
            TrayEvent::IconBuilt(Err(e)) => {
                self.startup_error = Some(e);
                TrayCommand::Exit
            }
            TrayEvent::Refresh => self.refresh(),
            TrayEvent::Status(p, c) => {
                self.refresh_in_flight = false;
                if self.icon_built {
                    TrayCommand::ShowStatus(p, c)
                } else {
                    TrayCommand::Nothing
                }
            }
            TrayEvent::Message(m) => {
                if self.icon_built {
                    TrayCommand::ShowMessage(m)
                } else {
                    TrayCommand::Nothing
                }
            }
            TrayEvent::Menu(id) => match menu_action(id.as_str()) {
                None => TrayCommand::Nothing,
                Some(MenuAction::Quit) => TrayCommand::Exit,
                Some(a) => TrayCommand::Perform(a),
            },
        }
    }

    /// Starts a status query unless the menu is not up or one is under way.
    fn refresh(&mut self) -> (cmd: TrayCommand)
        ensures
            if old(self).icon_built && !old(self).refresh_in_flight {
                tray_view(*final(self)) == (true, true, tray_view(*old(self)).2) && cmd == TrayCommand::QueryStatus
            } else {
                tray_view(*final(self)) == tray_view(*old(self)) && cmd == TrayCommand::Nothing
            },
    {
        if !self.icon_built || self.refresh_in_flight {
            return TrayCommand::Nothing;
        }
        self.refresh_in_flight = true;
        TrayCommand::QueryStatus
    }
}

} // verus!

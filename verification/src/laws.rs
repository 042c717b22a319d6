//! Properties that relate several operations of the library.

use vstd::prelude::*;
use crate::access_log::{spec_service_key, history_in, histories_map, keep_last, keys_distinct, recorded, to_map, AccessLog};
use crate::forward::{
    after_pass, elapsed, is_due, spec_wake_step, spec_window_nanos, MachineWatch, WakeAction, WakeEvent, WakePhase,
    WAKE_WAIT_NANOS,
};
use crate::parse::{digit_value, digits_value, spec_parse_unsigned, unsigned_digits};
use crate::text::{decimal, digit_char, escaped, subst};
use crate::tray::{
    is_typographic_quote, powershell_table, prepend, prepend_all, ps_literal, ps_literal_body, sh_word, shell_table,
    single_quoted, spec_shell_quote, spec_menu_action, spec_mode_menu_ids, MenuAction, Mode, ServiceControl};
use crate::tui::{
    form_add_row, form_delete_row, is_first_position, key_step, spec_close_tab, spec_next_tab, spec_open_tab, spec_prev_tab,
    edit_focused, edit_selected_row, form_key, AddFocusArea, AppView, DetailAction, DetailFocus, DetailMode, Edit, FormView, KeyCode, KeyEffect, KeyPress, MachinesAction,
    prefilled, ScannerPanel, ScreenContext, TabView,
};
use crate::usage::{bucketed, lemma_chart_counts_every_access, total};
use crate::screens::{
    key_applied, machines_loaded_after, populated, reply_applied, selected_mac, spec_context, update_submitted, Client,
    MachinesScreen, Reply, Request,
};
use crate::models::{AddMachinePayload, Machine, UpdateMachinePayload};
use crate::validation::spec_form_errors;
use crate::ip::is_ip_addr;
use crate::validation::is_blank;
use crate::tui::{opt_u16, opt_u32, opt_view, parsed_rows, forward_views, submitted, AddMachineState, FormOutcome};
use crate::screens::forward_row;
use crate::models::PortForward;

verus! {

/// Reading a key right after recording an access to it gives its earlier
/// history with the new timestamp appended, cut to the newest `limit`.
pub proof fn law_record_then_get(m: Map<Seq<char>, Seq<i64>>, limit: nat, key: Seq<char>, ts: i64)
    requires
        limit > 0,
    ensures
        history_in(recorded(m, limit, key, ts), key) == keep_last(history_in(m, key).push(ts), limit),
{
}

/// After an access is recorded under a key, that key holds at most `limit`
/// timestamps, the newest of them the one just recorded.
pub proof fn law_record_caps(m: Map<Seq<char>, Seq<i64>>, limit: nat, key: Seq<char>, ts: i64)
    requires
        limit > 0,
    ensures
        history_in(recorded(m, limit, key, ts), key).len() <= limit,
        history_in(recorded(m, limit, key, ts), key).last() == ts,
{
    let full = history_in(m, key).push(ts);
    if full.len() > limit {
        assert(keep_last(full, limit).last() == full.last());
    }
}

/// Recording under one key leaves every other key's history as it was.
pub proof fn law_record_other_keys(m: Map<Seq<char>, Seq<i64>>, limit: nat, key: Seq<char>, other: Seq<char>, ts: i64)
    requires
        other != key,
    ensures
        history_in(recorded(m, limit, key, ts), other) == history_in(m, other),
{
}

/// A log with a limit of zero records nothing.
pub proof fn law_zero_limit_records_nothing(m: Map<Seq<char>, Seq<i64>>, key: Seq<char>, ts: i64)
    ensures
        recorded(m, 0, key, ts) == m,
{
}

proof fn lemma_distinct_map(h: Seq<(Seq<char>, Seq<i64>)>)
    requires
        keys_distinct(h),
    ensures
        histories_map(h) == to_map(h),
    decreases h.len(),
{
    if h.len() > 0 {
        let init = h.drop_last();
        assert(keys_distinct(init)) by {
            assert forall|i: int, j: int| 0 <= i < init.len() && 0 <= j < init.len() && i != j implies init[i].0 != init[j].0 by {
                assert(init[i] == h[i] && init[j] == h[j]);
            };
        };
        lemma_distinct_map(init);
        let last = h.last();
        assert forall|k: Seq<char>| #[trigger] to_map(h).dom().contains(k) == histories_map(h).dom().contains(k) by {
            if k != last.0 && to_map(h).dom().contains(k) {
                let j = choose|j: int| 0 <= j < h.len() && h[j].0 == k;
                assert(j < h.len() - 1);
                assert(init[j] == h[j]);
            }
            if k != last.0 && to_map(init).dom().contains(k) {
                let j = choose|j: int| 0 <= j < init.len() && init[j].0 == k;
                assert(h[j] == init[j]);
            }
            if k == last.0 {
                assert(h[h.len() - 1].0 == k);
            }
        };
        assert forall|k: Seq<char>| to_map(h).dom().contains(k) implies #[trigger] to_map(h)[k] == histories_map(h)[k] by {
            let j = choose|j: int| 0 <= j < h.len() && h[j].0 == k;
            let jj = choose|jj: int| 0 <= jj < h.len() && h[jj].0 == k;
            assert(j == jj);
            if k != last.0 {
                assert(j < h.len() - 1);
                assert(init[j] == h[j]);
                assert(to_map(init).dom().contains(k));
                let i2 = choose|i2: int| 0 <= i2 < init.len() && init[i2].0 == k;
                assert(i2 == j);
            } else {
                assert(j == h.len() - 1);
            }
        };
        assert(to_map(h) =~= histories_map(h));
    }
}

/// Saving a log as a list of histories and restoring it gives back the same
/// histories: the list names each key once.
pub proof fn law_histories_restore(log: AccessLog, saved: Seq<(Seq<char>, Seq<i64>)>)
    requires
        log.wf(),
        keys_distinct(saved),
        to_map(saved) == log@,
    ensures
        histories_map(saved) == log@,
{
    lemma_distinct_map(saved);
}

/// A monitoring pass leaves nothing due at the same time: each machine is
/// asked to turn off at most once until it is used again.
pub proof fn law_pass_fires_once(m: Map<u32, MachineWatch>, now: u64, ip: u32)
    requires
        m.dom().contains(ip),
    ensures
        !is_due(after_pass(m, now)[ip], now),
{
}

/// A watch whose last request is now is not due now.
pub proof fn law_fresh_request_not_due(w: MachineWatch, now: u64)
    ensures
        !is_due(MachineWatch { last_request: now, triggered: false, ..w }, now),
{
    assert(elapsed(now, now) == 0);
}

/// The inactivity window is at least one minute.
pub proof fn law_window_at_least_a_minute(inactivity_period: u32)
    ensures
        spec_window_nanos(inactivity_period) >= 60_000_000_000,
{
}

/// Each control item of a service's submenu asks for that control of that
/// service, and its logs item for that service's logs.
pub proof fn law_menu_ids_map_to_actions(mode: Mode)
    ensures
        spec_menu_action(spec_mode_menu_ids(mode).1) == Some(MenuAction::Control(mode, ServiceControl::Start)),
        spec_menu_action(spec_mode_menu_ids(mode).2) == Some(MenuAction::Control(mode, ServiceControl::Stop)),
        spec_menu_action(spec_mode_menu_ids(mode).3) == Some(MenuAction::Control(mode, ServiceControl::Restart)),
        spec_menu_action(spec_mode_menu_ids(mode).4) == Some(MenuAction::Logs(mode)),
{
    reveal_strlit("open_dashboard");
    reveal_strlit("copy_dashboard_url");
    reveal_strlit("setup_services");
    reveal_strlit("check_updates");
    reveal_strlit("quit_tray");
    reveal_strlit("proxy_start");
    reveal_strlit("proxy_stop");
    reveal_strlit("proxy_restart");
    reveal_strlit("proxy_logs");
    reveal_strlit("client_start");
    reveal_strlit("client_stop");
    reveal_strlit("client_restart");
    reveal_strlit("client_logs");
    assert("open_dashboard"@.len() == 14 && "copy_dashboard_url"@.len() == 18 && "setup_services"@.len() == 14);
    assert("check_updates"@.len() == 13 && "quit_tray"@.len() == 9 && "proxy_start"@.len() == 11);
    assert("proxy_stop"@.len() == 10 && "proxy_restart"@.len() == 13 && "proxy_logs"@.len() == 10);
    assert("client_start"@.len() == 12 && "client_stop"@.len() == 11 && "client_restart"@.len() == 14);
    assert("client_logs"@.len() == 11);
    assert("proxy_restart"@[0] != "check_updates"@[0]);
    assert("proxy_logs"@[6] != "proxy_stop"@[6]);
    assert("client_stop"@[0] != "proxy_start"@[0]);
    assert("client_restart"@[0] != "open_dashboard"@[0]);
    assert("client_restart"@[0] != "setup_services"@[0]);
    assert("client_logs"@[0] != "proxy_start"@[0]);
    assert("client_logs"@[7] != "client_stop"@[7]);
}

/// Asking for a tab makes it the active one.
pub proof fn law_open_tab_activates(a: AppView, t: TabView)
    requires
        a.tabs.len() < usize::MAX,
    ensures
        ({
            let b = spec_open_tab(a, t);
            b.active < b.tabs.len() && b.tabs[b.active as int] == t
        }),
{
    if exists|i: int| is_first_position(a.tabs, t, i) {
        let i = choose|i: int| is_first_position(a.tabs, t, i);
        assert(is_first_position(a.tabs, t, i));
    }
}

/// Asking again for the active tab changes nothing.
pub proof fn law_open_tab_idempotent(a: AppView, t: TabView)
    requires
        a.tabs.len() < usize::MAX - 1,
    ensures
        spec_open_tab(spec_open_tab(a, t), t) == spec_open_tab(a, t),
{
    let b = spec_open_tab(a, t);
    law_open_tab_activates(a, t);
    if exists|i: int| is_first_position(a.tabs, t, i) {
        let i = choose|i: int| is_first_position(a.tabs, t, i);
        assert(b.tabs == a.tabs);
        assert(is_first_position(b.tabs, t, b.active as int));
        let j = choose|j: int| is_first_position(b.tabs, t, j);
        assert(j == b.active as int) by {
            if j < b.active as int {
                assert(b.tabs[j] == t);
            }
            if j > b.active as int {
                assert(b.tabs[b.active as int] == t);
            }
        };
        assert(spec_open_tab(b, t) =~= b);
    } else {
        let k = a.tabs.len() as int;
        assert forall|j: int| 0 <= j < k implies b.tabs[j] != t by {
            if b.tabs[j] == t {
                let first = choose|f: int| 0 <= f <= j && b.tabs[f] == t && forall|g: int| 0 <= g < f ==> b.tabs[g] != t;
                assert(false) by {
                    // the first position of `t` in the old tabs would exist
                    assert(!is_first_position(a.tabs, t, j));
                    lemma_first_position_exists(a.tabs, t, j);
                };
            }
        };
        assert(is_first_position(b.tabs, t, k));
        let j = choose|j: int| is_first_position(b.tabs, t, j);
        assert(j == k);
        assert(spec_open_tab(b, t) =~= b);
    }
}

/// When `t` occurs in `tabs`, it has a first position.
proof fn lemma_first_position_exists(tabs: Seq<TabView>, t: TabView, j: int)
    requires
        0 <= j < tabs.len(),
        tabs[j] == t,
    ensures
        exists|i: int| is_first_position(tabs, t, i),
    decreases j,
{
    if forall|g: int| 0 <= g < j ==> tabs[g] != t {
        assert(is_first_position(tabs, t, j));
    } else {
        let g = choose|g: int| 0 <= g < j && tabs[g] == t;
        lemma_first_position_exists(tabs, t, g);
    }
}

/// Closing a tab never closes the scanner or the machine list.
pub proof fn law_close_keeps_fixed_tabs(a: AppView)
    requires
        a.active < a.tabs.len(),
    ensures
        spec_close_tab(a).tabs.len() >= if a.tabs.len() >= 2 { 2 } else { a.tabs.len() as int },
        !(a.tabs[a.active as int] is AddMachine || a.tabs[a.active as int] is Detail) ==> spec_close_tab(a).tabs == a.tabs,
{
}

/// Deleting the row just added gives back the rows from before.
pub proof fn law_add_then_delete_row(f: FormView)
    requires
        f.rows.len() < usize::MAX,
    ensures
        form_delete_row(form_add_row(f)).rows == f.rows,
{
    let g = form_add_row(f);
    assert(g.rows.remove(g.pf_selected as int) =~= f.rows);
}

/// Reading the decimal rendering of a number gives the number back.
pub proof fn law_decimal_reads_back(n: nat, max: nat)
    requires
        n <= max,
    ensures
        spec_parse_unsigned(decimal(n), max) == Some(n),
    decreases n,
{
    lemma_decimal_digits(n);
}

proof fn lemma_decimal_digits(n: nat)
    ensures
        decimal(n).len() >= 1,
        decimal(n)[0] != '+',
        forall|i: int| 0 <= i < decimal(n).len() ==> '0' <= #[trigger] decimal(n)[i] && decimal(n)[i] <= '9',
        digits_value(decimal(n)) == n,
        unsigned_digits(decimal(n)) == decimal(n),
    decreases n,
{
    let c = digit_char(n % 10);
    assert(c as u32 == (n % 10) + 48);
    if n >= 10 {
        lemma_decimal_digits(n / 10);
        let d = decimal(n);
        assert(d.drop_last() =~= decimal(n / 10));
        assert forall|i: int| 0 <= i < d.len() implies '0' <= #[trigger] d[i] && d[i] <= '9' by {
            if i < d.len() - 1 {
                assert(d[i] == decimal(n / 10)[i]);
            }
        };
        assert(d[0] == decimal(n / 10)[0]);
        assert(d.last() == c);
        assert(digit_value(c) == n % 10);
        assert(digits_value(d) == digits_value(decimal(n / 10)) * 10 + digit_value(c));
    } else {
        let d = decimal(n);
        assert(d.drop_last() =~= Seq::<char>::empty());
        assert(d.last() == c);
        assert(digit_value(c) == n % 10);
        assert(digits_value(d) == digits_value(d.drop_last()) * 10 + digit_value(c));
    }
}

/// Switching to the next tab and back returns to the tab one started on,
/// and so does switching back and then forward.
pub proof fn law_next_then_previous_tab(a: AppView)
    requires
        a.active < a.tabs.len(),
        a.tabs.len() <= usize::MAX,
    ensures
        spec_prev_tab(spec_next_tab(a)) == a,
        spec_next_tab(spec_prev_tab(a)) == a,
{
    let n = a.tabs.len() as int;
    if a.active + 1 == n {
        assert((a.active + 1) % n == 0) by (nonlinear_arith)
            requires a.active + 1 == n, n > 0;
    } else {
        assert((a.active + 1) % n == a.active + 1) by (nonlinear_arith)
            requires 0 <= a.active + 1 < n;
    }
    if a.active == 0 {
        assert((n - 1 + 1) % n == 0) by (nonlinear_arith)
            requires n > 0;
    } else {
        assert((a.active - 1 + 1) % n == a.active) by (nonlinear_arith)
            requires 0 <= a.active < n;
    }
    assert(spec_prev_tab(spec_next_tab(a)) =~= a);
    assert(spec_next_tab(spec_prev_tab(a)) =~= a);
}

/// Control-C quits, whatever the client and its screens show.
pub proof fn law_control_c_quits(a: AppView, ctx: ScreenContext)
    ensures
        key_step(a, ctx, KeyPress { code: KeyCode::Char('c'), ctrl: true }).0.quit,
{
}

/// The usage chart counts every access of a service, each on exactly one
/// day: a service's counts add up to its number of accesses.
pub proof fn law_chart_counts_every_access(
    services: Seq<(Seq<char>, Seq<Seq<char>>)>,
    labels: Seq<Seq<char>>,
    sets: Seq<(Seq<char>, Seq<u32>)>,
    i: int,
)
    requires
        bucketed(services, labels, sets),
        0 <= i < services.len(),
    ensures
        total(sets[i].1) == services[i].1.len(),
{
    lemma_chart_counts_every_access(services, labels, sets, i);
}

/// The deadline of a woken machine: a minute after the wake packets went
/// out.
pub open spec fn deadline_of(p: WakePhase) -> Option<u64> {
    match p {
        WakePhase::Waiting { deadline } => Some(deadline),
        WakePhase::Probing { deadline } => Some(deadline),
        _ => None,
    }
}

/// Waiting for a woken machine never moves its deadline: a step from a
/// phase with a deadline leads to a phase with the same deadline, or ends
/// the sequence.
pub proof fn law_wake_deadline_fixed(phase: WakePhase, event: WakeEvent)
    requires
        deadline_of(phase) is Some,
        spec_wake_step(phase, event) is Some,
    ensures
        ({
            let (next, _) = spec_wake_step(phase, event)->0;
            deadline_of(next) == deadline_of(phase) || next == WakePhase::Connected || next == WakePhase::Dropped
        }),
{
}

/// Sending the wake packets starts a wait of one minute from then; once
/// the clock reaches the deadline, the connection is dropped.
pub proof fn law_wake_waits_one_minute(t: u64, now: u64)
    requires
        t <= u64::MAX - WAKE_WAIT_NANOS,
    ensures
        ({
            let (p, a) = spec_wake_step(WakePhase::Waking, WakeEvent::WakeSent { sent: true, now: t })->0;
            &&& deadline_of(p) == Some((t + WAKE_WAIT_NANOS) as u64)
            &&& a == WakeAction::ReadClock
            &&& now >= t + WAKE_WAIT_NANOS ==> spec_wake_step(p, WakeEvent::Clock(now)) == Some((WakePhase::Dropped, WakeAction::DropConnection))
        }),
{
}

/// A connection that was forwarded or dropped takes no further step.
pub proof fn law_wake_ends(event: WakeEvent)
    ensures
        spec_wake_step(WakePhase::Connected, event) is None,
        spec_wake_step(WakePhase::Dropped, event) is None,
{
}

/// Two services share a key only when they have the same MAC and the same
/// local port.
pub proof fn law_service_key_injective(m1: Seq<char>, p1: u16, m2: Seq<char>, p2: u16)
    requires
        spec_service_key(m1, p1) == spec_service_key(m2, p2),
    ensures
        m1 == m2,
        p1 == p2,
{
    let d1 = decimal(p1 as nat);
    let d2 = decimal(p2 as nat);
    let s = spec_service_key(m1, p1);
    lemma_decimal_digits(p1 as nat);
    lemma_decimal_digits(p2 as nat);
    assert(s == m1 + seq!['-'] + d1);
    assert(s == m2 + seq!['-'] + d2);
    let n = s.len();
    assert(n == m1.len() + 1 + d1.len());
    assert(n == m2.len() + 1 + d2.len());
    assert forall|i: int| 0 <= i < d1.len() implies s[n - d1.len() + i] == d1[i] by {
        assert((m1 + seq!['-'] + d1)[(m1.len() + 1 + i) as int] == d1[i]);
    };
    assert forall|i: int| 0 <= i < d2.len() implies s[n - d2.len() + i] == d2[i] by {
        assert((m2 + seq!['-'] + d2)[(m2.len() + 1 + i) as int] == d2[i]);
    };
    assert(s[m1.len() as int] == '-') by {
        assert((m1 + seq!['-'] + d1)[m1.len() as int] == '-');
    };
    assert(s[m2.len() as int] == '-') by {
        assert((m2 + seq!['-'] + d2)[m2.len() as int] == '-');
    };
    if d1.len() < d2.len() {
        let j = m1.len() - (n - d2.len());
        assert(s[n - d2.len() + j] == d2[j]);
        assert('0' <= d2[j] && d2[j] <= '9');
    }
    if d2.len() < d1.len() {
        let j = m2.len() - (n - d1.len());
        assert(s[n - d1.len() + j] == d1[j]);
        assert('0' <= d1[j] && d1[j] <= '9');
    }
    assert(d1.len() == d2.len());
    assert(d1 =~= d2) by {
        assert forall|i: int| 0 <= i < d1.len() implies d1[i] == d2[i] by {
            assert(s[n - d1.len() + i] == d1[i]);
            assert(s[n - d2.len() + i] == d2[i]);
        };
    };
    assert(m1 =~= m2) by {
        assert forall|i: int| 0 <= i < m1.len() implies m1[i] == m2[i] by {
            assert((m1 + seq!['-'] + d1)[i] == m1[i]);
            assert((m2 + seq!['-'] + d2)[i] == m2[i]);
        };
    };
    law_decimal_reads_back(p1 as nat, 65535);
    law_decimal_reads_back(p2 as nat, 65535);
}

/// While the machine list is being filtered, a typed character goes into
/// the filter and does nothing else: no tab, deletion or command changes.
pub proof fn law_filter_takes_typed_characters(a: AppView, ctx: ScreenContext, c: char)
    requires
        a.active < a.tabs.len(),
        a.tabs[a.active as int] is Machines,
        !a.confirm_delete,
        !a.colon,
        ctx.machines_filtering,
    ensures
        key_step(a, ctx, KeyPress { code: KeyCode::Char(c), ctrl: false })
            == (a, KeyEffect::Machines(MachinesAction::EditFilter(Edit::Push(c)))),
{
}

/// In insert mode on the detail screen, a typed character goes into the
/// focused field (or the selected column of the selected row) and does
/// nothing else; Esc returns to normal mode.
pub proof fn law_detail_insert_types(a: AppView, ctx: ScreenContext, c: char)
    requires
        a.active < a.tabs.len(),
        a.tabs[a.active as int] is Detail,
        !a.confirm_delete,
        !a.colon,
        ctx.detail matches Some(d) && d.mode == DetailMode::Insert,
    ensures
        key_step(a, ctx, KeyPress { code: KeyCode::Char(c), ctrl: false }) == (a, KeyEffect::Detail(
            if ctx.detail->0.focus == DetailFocus::PortForwards {
                DetailAction::EditRow(Edit::Push(c))
            } else {
                DetailAction::EditField(Edit::Push(c))
            },
        )),
        key_step(a, ctx, KeyPress { code: KeyCode::Esc, ctrl: false })
            == (a, KeyEffect::Detail(DetailAction::SetMode(DetailMode::Normal))),
{
}

proof fn lemma_sh_one(c: char, rest: Seq<char>)
    ensures
        sh_word(subst(shell_table(), c) + rest, true) == prepend(c, sh_word(rest, true)),
{
    reveal_with_fuel(subst, 2);
    let s = subst(shell_table(), c) + rest;
    if c == '\'' {
        reveal_strlit("'\\''");
        assert(subst(shell_table(), c) == "'\\''"@);
        let s1 = s.drop_first();
        let s2 = s1.subrange(2, s1.len() as int);
        assert(s[0] == '\'');
        assert(s1[0] == '\\' && s1[1] == '\'');
        assert(s2[0] == '\'');
        assert(s2.drop_first() =~= rest);
        assert(sh_word(s2, false) == sh_word(rest, true));
        assert(sh_word(s1, false) == prepend('\'', sh_word(s2, false)));
        assert(sh_word(s, true) == sh_word(s1, false));
    } else {
        assert(subst(shell_table(), c) == seq![c]);
        assert(s.drop_first() =~= rest);
    }
}

proof fn lemma_sh_escaped(v: Seq<char>, rest: Seq<char>)
    ensures
        sh_word(escaped(v, shell_table()) + rest, true) == prepend_all(v, sh_word(rest, true)),
    decreases v.len(),
{
    if v.len() == 0 {
        assert(escaped(v, shell_table()) + rest =~= rest);
        assert(prepend_all(v, sh_word(rest, true)) =~~= sh_word(rest, true));
    } else {
        let c = v.last();
        let init = v.drop_last();
        let tail = subst(shell_table(), c) + rest;
        assert(escaped(v, shell_table()) + rest =~= escaped(init, shell_table()) + tail);
        lemma_sh_escaped(init, tail);
        lemma_sh_one(c, rest);
        match sh_word(rest, true) {
            Some(w) => {
                assert(init + (seq![c] + w) =~= v + w);
            }
            None => {}
        }
    }
}

/// A POSIX shell reads what `shell_quote` gives as one word: the value
/// itself, whatever characters it holds.
pub proof fn law_shell_quote_reads_back(value: Seq<char>)
    ensures
        sh_word(spec_shell_quote(value), false) == Some(value),
{
    let q = spec_shell_quote(value);
    reveal_strlit("'");
    assert(q[0] == '\'');
    assert(q.drop_first() =~= escaped(value, shell_table()) + "'"@);
    lemma_sh_escaped(value, "'"@);
    let e = "'"@;
    assert(e[0] == '\'');
    assert(e.drop_first() =~= Seq::<char>::empty());
    assert(sh_word(Seq::<char>::empty(), false) == Some(Seq::<char>::empty()));
    assert(sh_word(e, true) == Some(Seq::<char>::empty()));
    assert(value + Seq::<char>::empty() =~= value);
}

proof fn lemma_ps_one(c: char, rest: Seq<char>)
    requires
        !is_typographic_quote(c),
    ensures
        ps_literal_body(subst(powershell_table(), c) + rest) == prepend(c, ps_literal_body(rest)),
{
    reveal_with_fuel(subst, 2);
    let s = subst(powershell_table(), c) + rest;
    if c == '\'' {
        reveal_strlit("''");
        assert(subst(powershell_table(), c) == "''"@);
        assert(s[0] == '\'' && s[1] == '\'');
        assert(s.subrange(2, s.len() as int) =~= rest);
    } else {
        assert(subst(powershell_table(), c) == seq![c]);
        assert(s.drop_first() =~= rest);
    }
}

proof fn lemma_ps_escaped(v: Seq<char>, rest: Seq<char>)
    requires
        forall|i: int| 0 <= i < v.len() ==> !is_typographic_quote(#[trigger] v[i]),
    ensures
        ps_literal_body(escaped(v, powershell_table()) + rest) == prepend_all(v, ps_literal_body(rest)),
    decreases v.len(),
{
    if v.len() == 0 {
        assert(escaped(v, powershell_table()) + rest =~= rest);
        assert(prepend_all(v, ps_literal_body(rest)) =~~= ps_literal_body(rest));
    } else {
        let c = v.last();
        let init = v.drop_last();
        let tail = subst(powershell_table(), c) + rest;
        assert(escaped(v, powershell_table()) + rest =~= escaped(init, powershell_table()) + tail);
        assert forall|i: int| 0 <= i < init.len() implies !is_typographic_quote(#[trigger] init[i]) by {
            assert(init[i] == v[i]);
        };
        assert(!is_typographic_quote(v[v.len() - 1]));
        lemma_ps_escaped(init, tail);
        lemma_ps_one(c, rest);
        match ps_literal_body(rest) {
            Some(w) => {
                assert(init + (seq![c] + w) =~= v + w);
            }
            None => {}
        }
    }
}

/// PowerShell reads what `powershell_quote` gives as one single-quoted
/// literal whose value is the value itself, when the value holds no
/// typographic single quote (PowerShell takes those as quotes too, and
/// they are not doubled).
pub proof fn law_powershell_quote_reads_back(value: Seq<char>)
    requires
        forall|i: int| 0 <= i < value.len() ==> !is_typographic_quote(#[trigger] value[i]),
    ensures
        ps_literal(single_quoted(value, powershell_table())) == Some(value),
{
    let q = single_quoted(value, powershell_table());
    reveal_strlit("'");
    assert(q[0] == '\'');
    assert(q.drop_first() =~= escaped(value, powershell_table()) + "'"@);
    lemma_ps_escaped(value, "'"@);
    assert(ps_literal_body("'"@) == Some(Seq::<char>::empty()));
    assert(value + Seq::<char>::empty() =~= value);
}

/// The ranges the add-machine form keeps: a real field and column, and a
/// real row selected (the first position while there are no rows).
pub open spec fn form_in_range(f: FormView) -> bool {
    &&& f.focused_field < 7
    &&& f.pf_column < 3
    &&& f.rows.len() > 0 ==> f.pf_selected < f.rows.len()
    &&& f.rows.len() == 0 ==> f.pf_selected == 0
}

/// Every key keeps the add-machine form in range, so its field and row
/// edits always reach a real field or row.
pub proof fn law_form_key_keeps_ranges(f: FormView, k: KeyCode)
    requires
        form_in_range(f),
        f.rows.len() < usize::MAX,
    ensures
        form_in_range(form_key(f, k).0),
{
    let g = form_key(f, k).0;
    if f.rows.len() > 0 {
        assert((f.pf_selected + 1) % (f.rows.len() as int) < f.rows.len()) by (nonlinear_arith)
            requires f.rows.len() > 0;
    }
    assert((f.focused_field + 1) % 7 < 7);
    assert((f.pf_column + 1) % 3 < 3);
}

/// Whatever a key does to the client, the add-machine form stays in range:
/// the form's own keys keep it so, and a new or prefilled form starts so.
pub proof fn law_keys_keep_form_ranges(a: AppView, ctx: ScreenContext, key: KeyPress)
    requires
        form_in_range(a.form),
        a.form.rows.len() < usize::MAX,
    ensures
        form_in_range(key_step(a, ctx, key).0.form),
{
    law_form_key_keeps_ranges(a.form, key.code);
}

/// In insert mode on the detail screen, a typed character (even `:`, `s`,
/// `d` or `q`) goes into the focused field, or the selected column of the
/// selected row when the rows have the focus; the tabs, flags and other
/// screens stay as they were and nothing is sent. Esc returns to normal
/// mode. (The hypotheses are what `Client::handle_key` ensures.)
pub proof fn law_client_detail_insert(o: Client, n: Client, key: KeyPress, reqs: Seq<Request>)
    requires
        o.app@.active < o.app@.tabs.len(),
        o.app@.tabs[o.app@.active as int] is Detail,
        !o.app@.confirm_delete,
        !o.app@.colon,
        o.detail matches Some(d) && d.form@.inserting,
        !key.ctrl,
        key.code is Char || key.code == KeyCode::Esc,
        n.app@ == key_step(o.app@, spec_context(o), key).0,
        key_applied(o, n, key_step(o.app@, spec_context(o), key).1, n.app@.form, reqs),
    ensures
        n.app@ == o.app@,
        reqs.len() == 0,
        n.machines == o.machines,
        n.scanner == o.scanner,
        ({
            let d = o.detail->0;
            &&& n.detail matches Some(d2)
            &&& d2.mac == d.mac
            &&& d2.form@ == match key.code {
                KeyCode::Char(c) => if d.form@.focus_area == AddFocusArea::PortForwards {
                    edit_selected_row(d.form@, Edit::Push(c))
                } else {
                    edit_focused(d.form@, Edit::Push(c))
                },
                _ => FormView { inserting: false, ..d.form@ },
            }
        }),
{
}

/// While the machine list is being filtered: Esc ends filtering and clears
/// the filter; Backspace takes its last character; a character (even `d`,
/// `w`, `a` or `:`) is appended; Enter ends filtering and keeps it. The
/// tabs, flags and other screens stay as they were and nothing is sent.
/// (The hypotheses are what `Client::handle_key` ensures.)
pub proof fn law_client_filter_keys(o: Client, n: Client, key: KeyPress, reqs: Seq<Request>)
    requires
        o.app@.active < o.app@.tabs.len(),
        o.app@.tabs[o.app@.active as int] is Machines,
        !o.app@.confirm_delete,
        !o.app@.colon,
        o.machines.filtering,
        !key.ctrl,
        n.app@ == key_step(o.app@, spec_context(o), key).0,
        key_applied(o, n, key_step(o.app@, spec_context(o), key).1, n.app@.form, reqs),
    ensures
        n.app@ == o.app@,
        reqs.len() == 0,
        n.scanner == o.scanner,
        n.detail == o.detail,
        n.machines.machines == o.machines.machines,
        n.machines.selected == o.machines.selected,
        match key.code {
            KeyCode::Esc => !n.machines.filtering && n.machines.filter@.len() == 0,
            KeyCode::Backspace => n.machines.filtering && n.machines.filter@ == (if o.machines.filter@.len() > 0 {
                o.machines.filter@.drop_last()
            } else {
                o.machines.filter@
            }),
            KeyCode::Char(c) => n.machines.filtering && n.machines.filter@ == o.machines.filter@.push(c),
            KeyCode::Enter => !n.machines.filtering && n.machines.filter@ == o.machines.filter@,
            _ => n.machines == o.machines,
        },
{
}

/// On the detail screen in normal mode with the fields focused, the client
/// sends for `t` a turn-off request for the screen's machine, for `w` a wake
/// request for it, and for `s` an update of that machine carrying the form's
/// name, IP and flag; `d` only asks for confirmation and sends nothing.
/// (The hypotheses are what `Client::handle_key` ensures.)
pub proof fn law_client_detail_actions(o: Client, n: Client, key: KeyPress, reqs: Seq<Request>)
    requires
        o.app@.active < o.app@.tabs.len(),
        o.app@.tabs[o.app@.active as int] is Detail,
        !o.app@.confirm_delete,
        !o.app@.colon,
        o.detail matches Some(d) && !d.form@.inserting && d.form@.focus_area != AddFocusArea::PortForwards,
        !key.ctrl,
        n.app@ == key_step(o.app@, spec_context(o), key).0,
        key_applied(o, n, key_step(o.app@, spec_context(o), key).1, n.app@.form, reqs),
    ensures
        ({
            let d = o.detail->0;
            &&& key.code == KeyCode::Char('t') ==> reqs.len() == 1 && (reqs[0] matches Request::TurnOff(x) && x@ == d.mac@)
            &&& key.code == KeyCode::Char('w') ==> reqs.len() == 1 && (reqs[0] matches Request::Wake(x) && x@ == d.mac@)
            &&& key.code == KeyCode::Char('s') ==> reqs.len() == 1 && (reqs[0] matches Request::UpdateMachine(x, p)
                && x@ == d.mac@ && p.name@ == d.form@.name && p.ip@ == d.form@.ip
                && p.can_be_turned_off == d.form@.can_be_turned_off)
            &&& key.code == KeyCode::Char('d') ==> reqs.len() == 0 && n.app@.confirm_delete
        }),
{
    let d = o.detail->0;
    if key.code == KeyCode::Char('s') {
        if let Request::UpdateMachine(x, p) = reqs[0] {
            law_update_request_copies_form(d.mac@, d.form@, p);
        }
    }
}

/// On the machine list (not filtering) with a machine selected, the client
/// sends for `w` a wake request and for `t` a turn-off request for the
/// selected machine, and for Enter opens its detail screen and asks for it.
/// (The hypotheses are what `Client::handle_key` ensures.)
pub proof fn law_client_list_actions(o: Client, n: Client, key: KeyPress, reqs: Seq<Request>)
    requires
        o.app@.active < o.app@.tabs.len(),
        o.app@.tabs[o.app@.active as int] is Machines,
        !o.app@.confirm_delete,
        !o.app@.colon,
        !o.machines.filtering,
        selected_mac(o.machines) is Some,
        !key.ctrl,
        n.app@ == key_step(o.app@, spec_context(o), key).0,
        key_applied(o, n, key_step(o.app@, spec_context(o), key).1, n.app@.form, reqs),
    ensures
        ({
            let m = selected_mac(o.machines)->0;
            &&& key.code == KeyCode::Char('w') ==> reqs.len() == 1 && (reqs[0] matches Request::Wake(x) && x@ == m@)
            &&& key.code == KeyCode::Char('t') ==> reqs.len() == 1 && (reqs[0] matches Request::TurnOff(x) && x@ == m@)
            &&& key.code == KeyCode::Enter ==> reqs.len() == 1 && (reqs[0] matches Request::MachineDetail(x) && x@ == m@)
                && (n.detail matches Some(d) && d.mac@ == m@)
        }),
{
}

/// On the scanner, Enter scans the selected interface when the interface
/// list is shown, and opens the add-machine form filled in from the
/// selected device when the device list is shown; Tab and BackTab move to
/// the next and previous tab, and `:` starts a command, on the scanner and
/// on the machine list alike.
pub proof fn law_scanner_and_tab_keys(a: AppView, ctx: ScreenContext, k: KeyCode)
    requires
        a.active < a.tabs.len(),
        a.tabs[a.active as int] is Scanner || (a.tabs[a.active as int] is Machines && !ctx.machines_filtering),
        !a.confirm_delete,
        !a.colon,
        a.tabs.len() < usize::MAX,
    ensures
        ({
            let (b, e) = key_step(a, ctx, KeyPress { code: k, ctrl: false });
            &&& k == KeyCode::Tab ==> b == spec_next_tab(a) && e == KeyEffect::Nothing
            &&& k == KeyCode::BackTab ==> b == spec_prev_tab(a) && e == KeyEffect::Nothing
            &&& k == KeyCode::Char(':') ==> b == (AppView { colon: true, ..a }) && e == KeyEffect::Nothing
            &&& (a.tabs[a.active as int] is Scanner && k == KeyCode::Enter) ==> match ctx.scanner_panel {
                ScannerPanel::Interfaces => b == a && e == match opt_view(ctx.selected_interface) {
                    Some(name) => KeyEffect::Scan(name),
                    None => KeyEffect::Nothing,
                },
                ScannerPanel::Devices => match ctx.selected_device {
                    Some(dev) => e == KeyEffect::Nothing && b.form == prefilled(dev)
                        && b.tabs[b.active as int] == TabView::AddMachine,
                    None => b == a && e == KeyEffect::Nothing,
                },
            }
        }),
{
    if a.tabs[a.active as int] is Scanner && k == KeyCode::Enter && ctx.scanner_panel == ScannerPanel::Devices
        && ctx.selected_device is Some {
        law_open_tab_activates(AppView { form: prefilled(ctx.selected_device->0), ..a }, TabView::AddMachine);
    }
}

/// A MAC of 12 or 17 characters, each an ASCII hexadecimal digit
/// (`0`-`9`, `a`-`f`, `A`-`F`), a colon or a hyphen, gets no complaint;
/// any other MAC gets one: "MAC address is required" when it is blank,
/// "Invalid MAC address" otherwise. The other fields are checked on their
/// own: a blank name, an address that is no IP address, a turn-off port of
/// 0.
pub proof fn law_form_errors(m: Machine)
    ensures
        ({
            let mac = m.mac@;
            let well_formed = (mac.len() == 12 || mac.len() == 17) && forall|i: int| 0 <= i < mac.len() ==> {
                let c = #[trigger] mac[i];
                ('0' <= c && c <= '9') || ('a' <= c && c <= 'f') || ('A' <= c && c <= 'F') || c == ':' || c == '-'
            };
            let errors = spec_form_errors(m);
            &&& errors.dom().contains("mac"@) <==> !well_formed
            &&& !well_formed ==> errors["mac"@] == if is_blank(mac) {
                seq!["MAC address is required"@]
            } else {
                seq!["Invalid MAC address"@]
            }
            &&& errors.dom().contains("name"@) <==> is_blank(m.name@)
            &&& errors.dom().contains("ip"@) <==> !is_ip_addr(m.ip@)
            &&& errors.dom().contains("turn_off_port"@) <==> m.turn_off_port == Some(0u16)
            &&& forall|k: Seq<char>| #[trigger] errors.dom().contains(k) ==> k == "name"@ || k == "ip"@
                || k == "turn_off_port"@ || k == "mac"@
        }),
{
    reveal_strlit("mac");
    reveal_strlit("name");
    reveal_strlit("ip");
    reveal_strlit("turn_off_port");
    let mac = m.mac@;
    if mac.len() == 12 || mac.len() == 17 {
        if forall|i: int| 0 <= i < mac.len() ==> {
            let c = #[trigger] mac[i];
            ('0' <= c && c <= '9') || ('a' <= c && c <= 'f') || ('A' <= c && c <= 'F') || c == ':' || c == '-'
        } {
            assert(!crate::validation::is_whitespace(mac[0]));
            assert(!is_blank(mac));
        }
    }
    assert("mac"@.len() == 3 && "name"@.len() == 4 && "ip"@.len() == 2 && "turn_off_port"@.len() == 13);
    assert("mac"@ != "name"@ && "mac"@ != "ip"@ && "mac"@ != "turn_off_port"@);
    assert("name"@ != "ip"@ && "name"@ != "turn_off_port"@ && "ip"@ != "turn_off_port"@);
}

/// On the detail screen in normal mode: with the fields focused, `t` turns
/// the screen's machine off, `w` wakes it, `s` saves the form, `d` asks to
/// delete, space toggles the flag, `i` starts typing, `j`/`k` move between
/// fields and `l` moves to the rows; with the rows focused, `j`/`k` move
/// between rows, `h` goes back to the fields, `a` adds a row, `x` deletes
/// one, `s` saves, and `w` and `t` do nothing.
pub proof fn law_detail_normal_keys(a: AppView, ctx: ScreenContext, k: KeyCode)
    requires
        a.active < a.tabs.len(),
        a.tabs[a.active as int] is Detail,
        !a.confirm_delete,
        !a.colon,
        ctx.detail matches Some(d) && d.mode == DetailMode::Normal,
    ensures
        ({
            let d = ctx.detail->0;
            let (b, e) = key_step(a, ctx, KeyPress { code: k, ctrl: false });
            if d.focus == DetailFocus::Fields {
                &&& k == KeyCode::Char('t') ==> b == a && e == KeyEffect::TurnOff(d.mac@)
                &&& k == KeyCode::Char('w') ==> b == a && e == KeyEffect::Wake(d.mac@)
                &&& k == KeyCode::Char('s') ==> b == a && e == KeyEffect::SubmitUpdate
                &&& k == KeyCode::Char('d') ==> b == (AppView { confirm_delete: true, ..a }) && e == KeyEffect::Nothing
                &&& k == KeyCode::Char(' ') ==> b == a && e == KeyEffect::Detail(DetailAction::Toggle)
                &&& k == KeyCode::Char('i') ==> b == a && e == KeyEffect::Detail(DetailAction::SetMode(DetailMode::Insert))
                &&& k == KeyCode::Char('j') ==> b == a && e == KeyEffect::Detail(DetailAction::NextField)
                &&& k == KeyCode::Char('k') ==> b == a && e == KeyEffect::Detail(DetailAction::PrevField)
                &&& k == KeyCode::Char('l') ==> b == a && e == KeyEffect::Detail(DetailAction::Focus(DetailFocus::PortForwards))
            } else {
                &&& k == KeyCode::Char('t') ==> b == a && e == KeyEffect::Nothing
                &&& k == KeyCode::Char('w') ==> b == a && e == KeyEffect::Nothing
                &&& k == KeyCode::Char('s') ==> b == a && e == KeyEffect::SubmitUpdate
                &&& k == KeyCode::Char('j') ==> b == a && e == KeyEffect::Detail(DetailAction::NextRow)
                &&& k == KeyCode::Char('k') ==> b == a && e == KeyEffect::Detail(DetailAction::PreviousRow)
                &&& k == KeyCode::Char('h') ==> b == a && e == KeyEffect::Detail(DetailAction::Focus(DetailFocus::Fields))
                &&& k == KeyCode::Char('a') ==> b == a && e == KeyEffect::Detail(DetailAction::AddRowAndInsert)
                &&& k == KeyCode::Char('x') ==> b == a && e == KeyEffect::Detail(DetailAction::DeleteRow)
            }
        }),
{
}

/// On the machine list (not filtering): `w` wakes and `t` turns off the
/// selected machine, `d` asks to delete it, Enter opens its detail tab and
/// loads it; without a selection these keys do nothing.
pub proof fn law_machine_list_keys(a: AppView, ctx: ScreenContext, k: KeyCode)
    requires
        a.active < a.tabs.len(),
        a.tabs[a.active as int] is Machines,
        !a.confirm_delete,
        !a.colon,
        !ctx.machines_filtering,
        a.tabs.len() < usize::MAX,
    ensures
        ({
            let (b, e) = key_step(a, ctx, KeyPress { code: k, ctrl: false });
            match ctx.selected_machine {
                Some(m) => {
                    &&& k == KeyCode::Char('w') ==> b == a && e == KeyEffect::Wake(m@)
                    &&& k == KeyCode::Char('t') ==> b == a && e == KeyEffect::TurnOff(m@)
                    &&& k == KeyCode::Char('d') ==> b == (AppView { confirm_delete: true, ..a }) && e == KeyEffect::Nothing
                    &&& k == KeyCode::Enter ==> e == KeyEffect::LoadDetail(m@) && b.tabs[b.active as int] == TabView::Detail(m@)
                }
                None => (k == KeyCode::Char('w') || k == KeyCode::Char('t') || k == KeyCode::Char('d') || k == KeyCode::Enter)
                    ==> b == a && e == KeyEffect::Nothing,
            }
        }),
{
    if ctx.selected_machine is Some && k == KeyCode::Enter {
        law_open_tab_activates(a, TabView::Detail(ctx.selected_machine->0@));
    }
}

/// An empty text reads as no number.
proof fn lemma_empty_reads_as_none(max: nat)
    ensures
        spec_parse_unsigned(Seq::<char>::empty(), max) is None,
{
    assert(crate::parse::unsigned_digits(Seq::<char>::empty()) =~= Seq::<char>::empty());
}

/// The add request carries the form as typed: its name, MAC and IP; its
/// description when one was typed (none only for an empty one); its flag;
/// a port or period typed as a decimal number as that number, and an empty
/// one as none; and a list of port forwards.
pub proof fn law_add_request_copies_form(f: FormView, p: AddMachinePayload)
    requires
        submitted(f, p),
    ensures
        p.name@ == f.name,
        p.mac@ == f.mac,
        p.ip@ == f.ip,
        f.description.len() > 0 ==> opt_view(p.description) == Some(f.description),
        f.description.len() == 0 ==> p.description is None,
        p.can_be_turned_off == f.can_be_turned_off,
        forall|n: u16| f.turn_off_port == #[trigger] decimal(n as nat) ==> p.turn_off_port == Some(n),
        f.turn_off_port.len() == 0 ==> p.turn_off_port is None,
        forall|n: u32| f.inactivity_period == #[trigger] decimal(n as nat) ==> p.inactivity_period == Some(n),
        f.inactivity_period.len() == 0 ==> p.inactivity_period is None,
        p.port_forwards matches Some(v) && v@.len() == parsed_rows(f.rows).len() && forall|i: int| 0 <= i < v@.len() ==> {
            &&& opt_view(#[trigger] v@[i].name) == parsed_rows(f.rows)[i].0
            &&& v@[i].local_port == parsed_rows(f.rows)[i].1
            &&& v@[i].target_port == parsed_rows(f.rows)[i].2
        },
{
    let v = p.port_forwards->0;
    assert forall|i: int| 0 <= i < v@.len() implies {
        &&& opt_view(#[trigger] v@[i].name) == parsed_rows(f.rows)[i].0
        &&& v@[i].local_port == parsed_rows(f.rows)[i].1
        &&& v@[i].target_port == parsed_rows(f.rows)[i].2
    } by {
        assert(forward_views(v@)[i] == (opt_view(v@[i].name), v@[i].local_port, v@[i].target_port));
    };
    assert forall|n: u16| f.turn_off_port == #[trigger] decimal(n as nat) implies p.turn_off_port == Some(n) by {
        law_decimal_reads_back(n as nat, 65535);
    };
    assert forall|n: u32| f.inactivity_period == #[trigger] decimal(n as nat) implies p.inactivity_period == Some(n) by {
        law_decimal_reads_back(n as nat, 4294967295);
    };
    lemma_empty_reads_as_none(65535);
    lemma_empty_reads_as_none(4294967295);
}

/// The ports of port forwards shown as rows read back as the same ports.
proof fn lemma_rows_read_back(pfs: Seq<PortForward>)
    ensures
        ({
            let rows = pfs.map_values(|q: PortForward| forward_row(q));
            let v = parsed_rows(rows);
            &&& v.len() == pfs.len()
            &&& forall|i: int| 0 <= i < v.len() ==> #[trigger] v[i].1 == pfs[i].local_port && v[i].2 == pfs[i].target_port
        }),
    decreases pfs.len(),
{
    let rows = pfs.map_values(|q: PortForward| forward_row(q));
    if pfs.len() > 0 {
        let init = pfs.drop_last();
        lemma_rows_read_back(init);
        assert(rows.drop_last() =~= init.map_values(|q: PortForward| forward_row(q)));
        let q = pfs.last();
        assert(rows.last() == forward_row(q));
        law_decimal_reads_back(q.local_port as nat, 65535);
        law_decimal_reads_back(q.target_port as nat, 65535);
        let prev = parsed_rows(init.map_values(|q: PortForward| forward_row(q)));
        assert(parsed_rows(rows) == prev + seq![(Some(forward_row(q).0), q.local_port, q.target_port)]);
        assert forall|i: int| 0 <= i < parsed_rows(rows).len() implies #[trigger] parsed_rows(rows)[i].1 == pfs[i].local_port
            && parsed_rows(rows)[i].2 == pfs[i].target_port by {
            if i < prev.len() {
                assert(parsed_rows(rows)[i] == prev[i]);
                assert(pfs[i] == init[i]);
            }
        };
    } else {
        assert(rows =~= Seq::<(Seq<char>, Seq<char>, Seq<char>)>::empty());
    }
}

/// The update request carries the detail form: the screen's MAC; the form's
/// name, IP and flag; its description when one was typed (none only for an
/// empty one); a port or period typed as a decimal number as that number,
/// an empty one as none; and the port forwards of its rows.
pub proof fn law_update_request_copies_form(mac: Seq<char>, f: FormView, p: UpdateMachinePayload)
    ensures
        update_submitted(mac, f, p) ==> {
            &&& p.mac@ == mac
            &&& p.name@ == f.name
            &&& p.ip@ == f.ip
            &&& p.can_be_turned_off == f.can_be_turned_off
            &&& (f.description.len() > 0 ==> opt_view(p.description) == Some(f.description))
            &&& (f.description.len() == 0 ==> p.description is None)
            &&& (forall|n: u16| f.turn_off_port == #[trigger] decimal(n as nat) ==> p.turn_off_port == Some(n))
            &&& (f.turn_off_port.len() == 0 ==> p.turn_off_port is None)
            &&& (forall|n: u32| f.inactivity_period == #[trigger] decimal(n as nat) ==> p.inactivity_period == Some(n))
            &&& (f.inactivity_period.len() == 0 ==> p.inactivity_period is None)
            &&& p.port_forwards matches Some(v) && v@.len() == parsed_rows(f.rows).len()
                && forall|i: int| 0 <= i < v@.len() ==> {
                    &&& opt_view(#[trigger] v@[i].name) == parsed_rows(f.rows)[i].0
                    &&& v@[i].local_port == parsed_rows(f.rows)[i].1
                    &&& v@[i].target_port == parsed_rows(f.rows)[i].2
                }
        },
{
    if update_submitted(mac, f, p) {
        assert forall|n: u16| f.turn_off_port == #[trigger] decimal(n as nat) implies p.turn_off_port == Some(n) by {
            law_decimal_reads_back(n as nat, 65535);
        };
        assert forall|n: u32| f.inactivity_period == #[trigger] decimal(n as nat) implies p.inactivity_period == Some(n) by {
            law_decimal_reads_back(n as nat, 4294967295);
        };
        lemma_empty_reads_as_none(65535);
        lemma_empty_reads_as_none(4294967295);
        let v = p.port_forwards->0;
        assert forall|i: int| 0 <= i < v@.len() implies {
            &&& opt_view(#[trigger] v@[i].name) == parsed_rows(f.rows)[i].0
            &&& v@[i].local_port == parsed_rows(f.rows)[i].1
            &&& v@[i].target_port == parsed_rows(f.rows)[i].2
        } by {
            assert(forward_views(v@)[i] == (opt_view(v@[i].name), v@[i].local_port, v@[i].target_port));
        };
    }
}

/// A machine loaded into the detail form and saved unchanged is sent back as
/// it was: name, IP, description, turn-off port, flag, inactivity period,
/// and the ports of its port forwards.
#[verifier::spinoff_prover]
pub proof fn law_saved_machine_round_trip(mac: Seq<char>, f: FormView, m: Machine, p: UpdateMachinePayload)
    ensures
        update_submitted(mac, populated(f, m), p) ==> {
            &&& p.name@ == m.name@
            &&& p.ip@ == m.ip@
            &&& p.can_be_turned_off == m.can_be_turned_off
            &&& p.turn_off_port == m.turn_off_port
            &&& p.inactivity_period == Some(m.inactivity_period)
            &&& (m.description is Some && m.description->0@.len() > 0 ==> opt_view(p.description) == Some(m.description->0@))
            &&& (m.description is None ==> p.description is None)
            &&& p.port_forwards matches Some(v) && v@.len() == m.port_forwards@.len()
                && forall|i: int| 0 <= i < v@.len() ==> #[trigger] v@[i].local_port == m.port_forwards@[i].local_port
                    && v@[i].target_port == m.port_forwards@[i].target_port
        },
{
    if update_submitted(mac, populated(f, m), p) {
        law_decimal_reads_back(m.inactivity_period as nat, 4294967295);
        lemma_empty_reads_as_none(65535);
        if m.turn_off_port is Some {
            law_decimal_reads_back(m.turn_off_port->0 as nat, 65535);
        }
        lemma_rows_read_back(m.port_forwards@);
        let rows = m.port_forwards@.map_values(|q: PortForward| forward_row(q));
        assert(populated(f, m).rows == rows);
        let v = p.port_forwards->0;
        assert(forward_views(v@) == parsed_rows(rows));
        assert forall|i: int| 0 <= i < v@.len() implies #[trigger] v@[i].local_port == m.port_forwards@[i].local_port
            && v@[i].target_port == m.port_forwards@[i].target_port by {
            assert(forward_views(v@)[i] == (opt_view(v@[i].name), v@[i].local_port, v@[i].target_port));
            assert(parsed_rows(rows)[i].1 == m.port_forwards@[i].local_port);
        };
        assert(p.port_forwards is Some);
        assert(v@.len() == m.port_forwards@.len());
    }
}

/// A new machine list replaces the old one and ends loading; an existing
/// selection stays where it is, and only a list with no selection gets the
/// first row selected (when it has one). Power states and the filter stay.
pub proof fn law_reload_keeps_selection(o: MachinesScreen, n: MachinesScreen, machines: Vec<Machine>)
    requires
        machines_loaded_after(o, n, machines),
    ensures
        n.machines@ == machines@,
        !n.loading,
        o.selected matches Some(i) ==> n.selected == Some(i),
        o.selected is None && machines@.len() > 0 ==> n.selected == Some(0usize),
        o.selected is None && machines@.len() == 0 ==> n.selected is None,
        n.statuses == o.statuses,
        n.filter == o.filter,
        n.filtering == o.filtering,
{
}

/// The client's handling of a machine-list reply keeps the selected row,
/// and asks for the power state of each listed machine, in order.
pub proof fn law_client_reload_keeps_selection(o: Client, n: Client, ms: Vec<Machine>, now: u64, reqs: Seq<Request>)
    requires
        reply_applied(o, n, Reply::Machines(Ok(ms)), now, reqs),
    ensures
        o.machines.selected matches Some(i) ==> n.machines.selected == Some(i),
        n.machines.machines@ == ms@,
        reqs.len() == ms@.len(),
        forall|i: int| 0 <= i < reqs.len() ==> (#[trigger] reqs[i] matches Request::MachineStatus(x) && x == ms@[i].mac),
{
}

/// How typed rows become port forwards: none from no rows; a row whose two
/// ports are typed as decimal numbers adds a port forward named by the row
/// with those ports, after the ones before it; a row with an empty port adds
/// nothing.
pub proof fn law_rows_to_forwards(rows: Seq<(Seq<char>, Seq<char>, Seq<char>)>, r: (Seq<char>, Seq<char>, Seq<char>), l: u16, t: u16)
    ensures
        parsed_rows(Seq::empty()) == Seq::<(Option<Seq<char>>, u16, u16)>::empty(),
        parsed_rows(rows.push((r.0, decimal(l as nat), decimal(t as nat)))) == parsed_rows(rows).push((Some(r.0), l, t)),
        r.1.len() == 0 || r.2.len() == 0 ==> parsed_rows(rows.push(r)) == parsed_rows(rows),
{
    law_decimal_reads_back(l as nat, 65535);
    law_decimal_reads_back(t as nat, 65535);
    lemma_empty_reads_as_none(65535);
    assert(rows.push((r.0, decimal(l as nat), decimal(t as nat))).drop_last() =~= rows);
    assert(rows.push(r).drop_last() =~= rows);
    assert(parsed_rows(rows) + Seq::<(Option<Seq<char>>, u16, u16)>::empty() =~= parsed_rows(rows));
    assert(parsed_rows(rows) + seq![(Some(r.0), l, t)] =~= parsed_rows(rows).push((Some(r.0), l, t)));
}

/// Typing into a form: a character is appended to the focused text field
/// (by position: name, MAC, IP, description, turn-off port, -, inactivity
/// period; the flag field takes no text) or to the selected column (name,
/// local port, target port) of the selected row; Backspace takes the last
/// character of the focused field away. Nothing else changes.
pub proof fn law_typed_character(f: FormView, c: char)
    ensures
        f.focused_field == 0 ==> edit_focused(f, Edit::Push(c)) == (FormView { name: f.name.push(c), ..f }),
        f.focused_field == 1 ==> edit_focused(f, Edit::Push(c)) == (FormView { mac: f.mac.push(c), ..f }),
        f.focused_field == 2 ==> edit_focused(f, Edit::Push(c)) == (FormView { ip: f.ip.push(c), ..f }),
        f.focused_field == 3 ==> edit_focused(f, Edit::Push(c)) == (FormView { description: f.description.push(c), ..f }),
        f.focused_field == 4 ==> edit_focused(f, Edit::Push(c)) == (FormView { turn_off_port: f.turn_off_port.push(c), ..f }),
        f.focused_field == 5 ==> edit_focused(f, Edit::Push(c)) == f,
        f.focused_field == 6 ==> edit_focused(f, Edit::Push(c)) == (FormView { inactivity_period: f.inactivity_period.push(c), ..f }),
        f.focused_field == 0 && f.name.len() > 0 ==> edit_focused(f, Edit::Pop) == (FormView { name: f.name.drop_last(), ..f }),
        f.focused_field == 1 && f.mac.len() > 0 ==> edit_focused(f, Edit::Pop) == (FormView { mac: f.mac.drop_last(), ..f }),
        f.focused_field == 2 && f.ip.len() > 0 ==> edit_focused(f, Edit::Pop) == (FormView { ip: f.ip.drop_last(), ..f }),
        f.focused_field == 3 && f.description.len() > 0 ==> edit_focused(f, Edit::Pop) == (FormView { description: f.description.drop_last(), ..f }),
        f.focused_field == 4 && f.turn_off_port.len() > 0 ==> edit_focused(f, Edit::Pop) == (FormView { turn_off_port: f.turn_off_port.drop_last(), ..f }),
        f.focused_field == 6 && f.inactivity_period.len() > 0 ==> edit_focused(f, Edit::Pop) == (FormView { inactivity_period: f.inactivity_period.drop_last(), ..f }),
        ({
            let sel = f.pf_selected as int;
            let r = f.rows[sel];
            &&& f.pf_selected < f.rows.len() && f.pf_column == 0 ==> edit_selected_row(f, Edit::Push(c)) == (FormView { rows: f.rows.update(sel, (r.0.push(c), r.1, r.2)), ..f })
            &&& f.pf_selected < f.rows.len() && f.pf_column == 1 ==> edit_selected_row(f, Edit::Push(c)) == (FormView { rows: f.rows.update(sel, (r.0, r.1.push(c), r.2)), ..f })
            &&& f.pf_selected < f.rows.len() && f.pf_column == 2 ==> edit_selected_row(f, Edit::Push(c)) == (FormView { rows: f.rows.update(sel, (r.0, r.1, r.2.push(c))), ..f })
            &&& f.pf_selected >= f.rows.len() ==> edit_selected_row(f, Edit::Push(c)) == f
        }),
{
}

/// In the add-machine form in insert mode, a character (even `s`, `j` or
/// `:`) is typed into the focused field, or the selected row when the rows
/// have the focus, and nothing else happens; Enter submits from the fields.
pub proof fn law_add_form_typing(f: FormView, c: char)
    requires
        f.inserting,
    ensures
        f.focus_area == AddFocusArea::Fields ==> form_key(f, KeyCode::Char(c)) == (edit_focused(f, Edit::Push(c)), FormOutcome::Stay),
        f.focus_area == AddFocusArea::Fields ==> form_key(f, KeyCode::Enter) == (f, FormOutcome::Submit),
        f.focus_area == AddFocusArea::PortForwards ==> form_key(f, KeyCode::Char(c)) == (edit_selected_row(f, Edit::Push(c)), FormOutcome::Stay),
        form_key(f, KeyCode::Esc) == ((FormView { inserting: false, ..f }), FormOutcome::Stay),
{
}

} // verus!

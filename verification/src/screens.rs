//! The terminal client's screens: the machine list, the network scanner and
//! the machine detail form, and what their actions and the server's replies
//! do to them.

use vstd::prelude::*;
use vstd::string::*;
use crate::models::{AddMachinePayload, DiscoveredDevice, Machine, NetworkInterface, PortForward, UpdateMachinePayload};
use crate::parse::{parse_u16, parse_u32};
use crate::text::{decimal, push_decimal, str_eq};
use crate::tui::{
    apply_edit, edit_focused, edit_selected_row, edit_string, empty_row, form_add_row, form_delete_row, form_pf_next,
    form_pf_previous, forward_views, key_step, opt_u16, opt_u32, opt_view, optional_description, outcome_step,
    parse_rows, parsed_rows, row_view, submitted, AddFocusArea, AddMachineState, ApiOutcome, App, AppView, Command,
    DetailAction, DetailContext, DetailFocus, DetailMode, FormView, KeyEffect, KeyPress, MachinesAction,
    PortForwardRow, ScannerAction, ScannerPanel, ScreenContext,
};

verus! {

/// The selection after moving down a list of `len` rows: from the last row
/// (or from no selection) to the first; an empty list keeps its selection.
pub open spec fn select_next(sel: Option<usize>, len: nat) -> Option<usize> {
    if len == 0 {
        sel
    } else {
        match sel {
            Some(i) => if i + 1 >= len { Some(0usize) } else { Some((i + 1) as usize) },
            None => Some(0usize),
        }
    }
}

/// The selection after moving up a list of `len` rows: from the first row
/// to the last; no selection goes to the first row; an empty list keeps its
/// selection.
pub open spec fn select_previous(sel: Option<usize>, len: nat) -> Option<usize> {
    if len == 0 {
        sel
    } else {
        match sel {
            Some(i) => if i == 0 { Some((len - 1) as usize) } else { Some((i - 1) as usize) },
            None => Some(0usize),
        }
    }
}

fn next_selection(sel: Option<usize>, len: usize) -> (r: Option<usize>)
    ensures
        r == select_next(sel, len as nat),
{
    if len == 0 {
        return sel;
    }
    match sel {
        Some(i) => if i >= len - 1 { Some(0) } else { Some(i + 1) },
        None => Some(0),
    }
}

fn previous_selection(sel: Option<usize>, len: usize) -> (r: Option<usize>)
    ensures
        r == select_previous(sel, len as nat),
{
    if len == 0 {
        return sel;
    }
    match sel {
        Some(i) => if i == 0 { Some(len - 1) } else { Some(i - 1) },
        None => Some(0),
    }
}

/// The power states known by MAC: a later entry for a MAC replaces an
/// earlier one.
pub open spec fn status_map(s: Seq<(String, bool)>) -> Map<Seq<char>, bool>
    decreases s.len(),
{
    if s.len() == 0 {
        Map::empty()
    } else {
        status_map(s.drop_last()).insert(s.last().0@, s.last().1)
    }
}

/// The entries whose MAC is not `mac`, in order.
pub open spec fn without_mac(s: Seq<(String, bool)>, mac: Seq<char>) -> Seq<(String, bool)>
    decreases s.len(),
{
    if s.len() == 0 {
        s
    } else if s.last().0@ == mac {
        without_mac(s.drop_last(), mac)
    } else {
        without_mac(s.drop_last(), mac).push(s.last())
    }
}

proof fn lemma_without_mac(s: Seq<(String, bool)>, mac: Seq<char>)
    ensures
        status_map(without_mac(s, mac)) == status_map(s).remove(mac),
    decreases s.len(),
{
    if s.len() > 0 {
        lemma_without_mac(s.drop_last(), mac);
        let rest = status_map(s.drop_last());
        if s.last().0@ == mac {
            assert(rest.insert(mac, s.last().1).remove(mac) =~= rest.remove(mac));
        } else {
            let w = without_mac(s.drop_last(), mac).push(s.last());
            assert(w.drop_last() =~= without_mac(s.drop_last(), mac));
            assert(rest.remove(mac).insert(s.last().0@, s.last().1) =~= rest.insert(s.last().0@, s.last().1).remove(mac));
        }
    }
}

/// The machine list screen: the machines, their power states, whether they
/// are being loaded, the filter and whether it is being typed, and the
/// selected row.
pub struct MachinesScreen {
    pub machines: Vec<Machine>,
    pub statuses: Vec<(String, bool)>,
    pub loading: bool,
    pub filtering: bool,
    pub filter: String,
    pub selected: Option<usize>,
}

/// The MAC of the selected machine, when a row is selected.
pub open spec fn selected_mac(s: MachinesScreen) -> Option<String> {
    match s.selected {
        Some(i) => if i < s.machines@.len() { Some(s.machines@[i as int].mac) } else { None },
        None => None,
    }
}

/// The machine list after an action.
pub open spec fn machines_after(o: MachinesScreen, n: MachinesScreen, a: MachinesAction) -> bool {
    &&& n.machines == o.machines
    &&& n.statuses == o.statuses
    &&& n.loading == o.loading
    &&& match a {
        MachinesAction::CloseFilter => !n.filtering && n.filter@.len() == 0
            && n.selected == o.selected,
        MachinesAction::EditFilter(e) => n.filtering == o.filtering
            && n.filter@ == apply_edit(o.filter@, e) && n.selected == o.selected,
        MachinesAction::EndFilter => !n.filtering && n.filter@ == o.filter@
            && n.selected == o.selected,
        MachinesAction::StartFilter => n.filtering && n.filter@.len() == 0
            && n.selected == o.selected,
        MachinesAction::Next => n.filtering == o.filtering && n.filter@ == o.filter@
            && n.selected == select_next(o.selected, o.machines@.len()),
        MachinesAction::Previous => n.filtering == o.filtering && n.filter@ == o.filter@
            && n.selected == select_previous(o.selected, o.machines@.len())
    }
}

/// The machine list after a new list arrived.
pub open spec fn machines_loaded_after(o: MachinesScreen, n: MachinesScreen, machines: Vec<Machine>) -> bool {
    &&& n.machines@ == machines@
    &&& !n.loading
    &&& n.selected == if o.selected is None && machines@.len() > 0 { Some(0usize) } else { o.selected }
    &&& n.statuses == o.statuses
    &&& n.filtering == o.filtering
    &&& n.filter == o.filter
}

/// The machine list after a power state arrived.
pub open spec fn status_set_after(o: MachinesScreen, n: MachinesScreen, mac: String, on: bool) -> bool {
    &&& status_map(n.statuses@) == status_map(o.statuses@).insert(mac@, on)
    &&& n.machines == o.machines
    &&& n.loading == o.loading
    &&& n.filtering == o.filtering
    &&& n.filter == o.filter
    &&& n.selected == o.selected
}

impl MachinesScreen {
    /// An empty list, loading, not filtering, nothing selected.
    pub fn new() -> (s: MachinesScreen)
        ensures
            s.machines@.len() == 0,
            s.statuses@.len() == 0,
            s.loading,
            !s.filtering,
            s.filter@.len() == 0,
            s.selected is None,
    {
        MachinesScreen {
            machines: Vec::new(),
            statuses: Vec::new(),
            loading: true,
            filtering: false,
            filter: String::new(),
            selected: None,
        }
    }

    /// The selected machine, when a row is selected.
    pub fn selected_machine(&self) -> (m: Option<&Machine>)
        ensures
            match self.selected {
                Some(i) => if i < self.machines@.len() { m == Some(&self.machines@[i as int]) } else { m is None },
                None => m is None,
            },
    {
        match self.selected {
            Some(i) => if i < self.machines.len() { Some(&self.machines[i]) } else { None },
            None => None,
        }
    }

    /// What an action does to the list. Closing the filter ends filtering
    /// and clears it; an edit changes the filter; ending the filter keeps
    /// it; starting it clears it; moving wraps around the machines.
    pub fn apply(&mut self, a: MachinesAction)
        ensures
            machines_after(*old(self), *final(self), a),
    {
        match a {
            MachinesAction::CloseFilter => {
                self.filtering = false;
                self.filter = String::new();
            }
            MachinesAction::EditFilter(e) => edit_string(&mut self.filter, e),
            MachinesAction::EndFilter => {
                self.filtering = false;
            }
            MachinesAction::StartFilter => {
                self.filtering = true;
                self.filter = String::new();
            }
            MachinesAction::Next => {
                self.selected = next_selection(self.selected, self.machines.len());
            }
            MachinesAction::Previous => {
                self.selected = previous_selection(self.selected, self.machines.len());
            }
        }
    }

    /// The machine list arrived: it replaces the old one, loading ends, and
    /// the first row is selected when nothing was.
    pub fn machines_loaded(&mut self, machines: Vec<Machine>)
        ensures
            machines_loaded_after(*old(self), *final(self), machines),
    {
        let nonempty = machines.len() > 0;
        self.machines = machines;
        self.loading = false;
        if self.selected.is_none() && nonempty {
            self.selected = Some(0);
        }
    }

    /// The power state of the machine with MAC `mac` arrived.
    pub fn set_status(&mut self, mac: String, on: bool)
        ensures
            status_set_after(*old(self), *final(self), mac, on),
    {
        let ghost all = self.statuses@;
        let mut rest: Vec<(String, bool)> = Vec::new();
        std::mem::swap(&mut rest, &mut self.statuses);
        let mut kept: Vec<(String, bool)> = Vec::new();
        for x in it: rest
            invariant
                it.seq() == all,
                kept@ == without_mac(all.take(it.index()), mac@),
        {
            proof {
                assert(it.seq()[it.index()] == x);
                assert(all.take(it.index() + 1).drop_last() =~= all.take(it.index()));
            }
            if !str_eq(x.0.as_str(), mac.as_str()) {
                kept.push(x);
            }
        }
        assert(all.take(all.len() as int) =~= all);
        proof {
            lemma_without_mac(all, mac@);
        }
        let ghost m = mac@;
        kept.push((mac, on));
        assert(kept@.drop_last() =~= without_mac(all, m));
        assert(status_map(all).remove(m).insert(m, on) =~= status_map(all).insert(m, on));
        self.statuses = kept;
    }
}

/// The scanner screen: the network interfaces, the devices found by the
/// last scan, the panel with the focus, whether interfaces are being loaded
/// or a scan runs, and the selected row of each panel.
pub struct ScannerScreen {
    pub interfaces: Vec<NetworkInterface>,
    pub devices: Vec<DiscoveredDevice>,
    pub active_panel: ScannerPanel,
    pub loading_interfaces: bool,
    pub scanning: bool,
    pub interface_selected: Option<usize>,
    pub device_selected: Option<usize>,
}

/// The name of the selected interface, when one is selected.
pub open spec fn selected_interface_name(s: ScannerScreen) -> Option<String> {
    match s.interface_selected {
        Some(i) => if i < s.interfaces@.len() { Some(s.interfaces@[i as int].name) } else { None },
        None => None,
    }
}

/// The selected device, when one is selected.
pub open spec fn selected_device(s: ScannerScreen) -> Option<DiscoveredDevice> {
    match s.device_selected {
        Some(i) => if i < s.devices@.len() { Some(s.devices@[i as int]) } else { None },
        None => None,
    }
}

/// A copy of a discovered device.
pub fn copy_device(d: &DiscoveredDevice) -> (c: DiscoveredDevice)
    ensures
        c == *d,
{
    DiscoveredDevice {
        ip: d.ip.clone(),
        mac: d.mac.clone(),
        hostname: match &d.hostname {
            Some(h) => Some(h.clone()),
            None => None,
        },
    }
}

/// The scanner after an action.
pub open spec fn scanner_after(o: ScannerScreen, n: ScannerScreen, a: ScannerAction) -> bool {
    &&& n.interfaces == o.interfaces
    &&& n.devices == o.devices
    &&& n.loading_interfaces == o.loading_interfaces
    &&& n.scanning == o.scanning
    &&& match a {
        ScannerAction::ShowPanel(p) => n.active_panel == p
            && n.interface_selected == o.interface_selected
            && n.device_selected == o.device_selected,
        ScannerAction::Next => n.active_panel == o.active_panel && if o.active_panel == ScannerPanel::Interfaces {
            n.interface_selected == select_next(o.interface_selected, o.interfaces@.len())
                && n.device_selected == o.device_selected
        } else {
            n.device_selected == select_next(o.device_selected, o.devices@.len())
                && n.interface_selected == o.interface_selected
        },
        ScannerAction::Previous => n.active_panel == o.active_panel && if o.active_panel == ScannerPanel::Interfaces {
            n.interface_selected == select_previous(o.interface_selected, o.interfaces@.len())
                && n.device_selected == o.device_selected
        } else {
            n.device_selected == select_previous(o.device_selected, o.devices@.len())
                && n.interface_selected == o.interface_selected
        }
    }
}

/// The scanner once a scan starts.
pub open spec fn scan_started(o: ScannerScreen, n: ScannerScreen) -> bool {
    &&& n.scanning
    &&& n.devices@.len() == 0
    &&& n.interfaces == o.interfaces
    &&& n.active_panel == o.active_panel
    &&& n.loading_interfaces == o.loading_interfaces
    &&& n.interface_selected == o.interface_selected
    &&& n.device_selected == o.device_selected
}

/// The scanner after the interfaces arrived or failed to load.
pub open spec fn interfaces_after(o: ScannerScreen, n: ScannerScreen, interfaces: Option<Vec<NetworkInterface>>) -> bool {
    &&& !n.loading_interfaces
    &&& match interfaces {
        Some(v) => n.interfaces@ == v@
            && n.interface_selected == if v@.len() > 0 { Some(0usize) } else { o.interface_selected },
        None => n.interfaces == o.interfaces && n.interface_selected == o.interface_selected
    }
    &&& n.devices == o.devices
    &&& n.active_panel == o.active_panel
    &&& n.scanning == o.scanning
    &&& n.device_selected == o.device_selected
}

/// The scanner after a scan finished or failed.
pub open spec fn scan_finished_after(o: ScannerScreen, n: ScannerScreen, devices: Option<Vec<DiscoveredDevice>>) -> bool {
    &&& !n.scanning
    &&& match devices {
        Some(v) => n.devices@ == v@
            && n.device_selected == if v@.len() > 0 { Some(0usize) } else { o.device_selected },
        None => n.devices == o.devices && n.device_selected == o.device_selected
    }
    &&& n.interfaces == o.interfaces
    &&& n.active_panel == o.active_panel
    &&& n.loading_interfaces == o.loading_interfaces
    &&& n.interface_selected == o.interface_selected
}

impl ScannerScreen {
    /// No interfaces yet (they are being loaded), no devices, the interface
    /// panel focused, nothing selected.
    pub fn new() -> (s: ScannerScreen)
        ensures
            s.interfaces@.len() == 0,
            s.devices@.len() == 0,
            s.active_panel == ScannerPanel::Interfaces,
            s.loading_interfaces,
            !s.scanning,
            s.interface_selected is None,
            s.device_selected is None,
    {
        ScannerScreen {
            interfaces: Vec::new(),
            devices: Vec::new(),
            active_panel: ScannerPanel::Interfaces,
            loading_interfaces: true,
            scanning: false,
            interface_selected: None,
            device_selected: None,
        }
    }

    /// What an action does: moving wraps around the list of the focused
    /// panel; the other action focuses a panel.
    pub fn apply(&mut self, a: ScannerAction)
        ensures
            scanner_after(*old(self), *final(self), a),
    {
        match a {
            ScannerAction::ShowPanel(p) => {
                self.active_panel = p;
            }
            ScannerAction::Next => match self.active_panel {
                ScannerPanel::Interfaces => {
                    self.interface_selected = next_selection(self.interface_selected, self.interfaces.len());
                }
                ScannerPanel::Devices => {
                    self.device_selected = next_selection(self.device_selected, self.devices.len());
                }
            },
            ScannerAction::Previous => match self.active_panel {
                ScannerPanel::Interfaces => {
                    self.interface_selected = previous_selection(self.interface_selected, self.interfaces.len());
                }
                ScannerPanel::Devices => {
                    self.device_selected = previous_selection(self.device_selected, self.devices.len());
                }
            },
        }
    }

    /// A scan starts: the scanner is busy and the old devices are gone.
    pub fn start_scan(&mut self)
        ensures
            scan_started(*old(self), *final(self)),
    {
        self.scanning = true;
        self.devices = Vec::new();
    }

    /// The interfaces arrived (`Some`), or loading them failed: loading ends;
    /// new interfaces replace the old and the first is selected when there
    /// is one.
    pub fn interfaces_loaded(&mut self, interfaces: Option<Vec<NetworkInterface>>)
        ensures
            interfaces_after(*old(self), *final(self), interfaces),
    {
        self.loading_interfaces = false;
        if let Some(v) = interfaces {
            let nonempty = v.len() > 0;
            self.interfaces = v;
            if nonempty {
                self.interface_selected = Some(0);
            }
        }
    }

    /// A scan finished with these devices (`Some`), or failed: the scanner
    /// is no longer busy; found devices replace the old and the first is
    /// selected when there is one.
    pub fn scan_finished(&mut self, devices: Option<Vec<DiscoveredDevice>>)
        ensures
            scan_finished_after(*old(self), *final(self), devices),
    {
        self.scanning = false;
        if let Some(v) = devices {
            let nonempty = v.len() > 0;
            self.devices = v;
            if nonempty {
                self.device_selected = Some(0);
            }
        }
    }
}

/// The machine detail screen: the machine's MAC, its form (the same seven
/// fields and port-forward rows as the add-machine form; the form's insert
/// flag is the screen's insert mode and its focus area the screen's
/// focus), whether the machine is being loaded, and the error shown.
pub struct MachineDetailState {
    pub mac: String,
    pub form: AddMachineState,
    pub loading: bool,
    pub error: Option<String>,
}

pub open spec fn detail_mode(f: FormView) -> DetailMode {
    if f.inserting { DetailMode::Insert } else { DetailMode::Normal }
}

pub open spec fn detail_focus(f: FormView) -> DetailFocus {
    if f.focus_area == AddFocusArea::PortForwards { DetailFocus::PortForwards } else { DetailFocus::Fields }
}

/// The detail form after an action: modes and focus switch; fields and
/// columns are moved through with wrap-around; text is typed into the
/// focused field or the selected column of the selected row; rows are
/// added (and typed into) or deleted; the flag field toggles.
pub open spec fn detail_apply(f: FormView, a: DetailAction) -> FormView {
    match a {
        DetailAction::SetMode(m) => FormView { inserting: m == DetailMode::Insert, ..f },
        DetailAction::NextColumn => FormView { pf_column: ((f.pf_column + 1) % 3) as usize, ..f },
        DetailAction::EditRow(e) => edit_selected_row(f, e),
        DetailAction::NextField => FormView { focused_field: ((f.focused_field + 1) % 7) as usize, ..f },
        DetailAction::PrevField => FormView {
            focused_field: if f.focused_field == 0 { 6 } else { (f.focused_field - 1) as usize },
            ..f
        },
        DetailAction::EditField(e) => edit_focused(f, e),
        DetailAction::NextRow => form_pf_next(f),
        DetailAction::PreviousRow => form_pf_previous(f),
        DetailAction::Focus(d) => FormView {
            focus_area: if d == DetailFocus::PortForwards { AddFocusArea::PortForwards } else { AddFocusArea::Fields },
            ..f
        },
        DetailAction::AddRowAndInsert => FormView { inserting: true, ..form_add_row(f) },
        DetailAction::DeleteRow => form_delete_row(f),
        DetailAction::Toggle => if f.focused_field == 5 { FormView { can_be_turned_off: !f.can_be_turned_off, ..f } } else { f },
    }
}

/// The row shown for a port forward: its name (empty when it has none) and
/// its ports in decimal.
pub open spec fn forward_row(p: PortForward) -> (Seq<char>, Seq<char>, Seq<char>) {
    (
        match p.name {
            Some(n) => n@,
            None => Seq::empty(),
        },
        decimal(p.local_port as nat),
        decimal(p.target_port as nat),
    )
}

/// The detail form filled in from a machine: its texts, a missing
/// description and turn-off port as empty text, numbers in decimal, one
/// row per port forward with the first selected.
pub open spec fn populated(f: FormView, m: Machine) -> FormView {
    FormView {
        name: m.name@,
        mac: m.mac@,
        ip: m.ip@,
        description: match m.description {
            Some(d) => d@,
            None => Seq::empty(),
        },
        turn_off_port: match m.turn_off_port {
            Some(p) => decimal(p as nat),
            None => Seq::empty(),
        },
        can_be_turned_off: m.can_be_turned_off,
        inactivity_period: decimal(m.inactivity_period as nat),
        rows: m.port_forwards@.map_values(|p: PortForward| forward_row(p)),
        pf_selected: 0,
        ..f
    }
}

/// The update request the detail form makes for the machine `mac`: the
/// texts as typed, an empty description as none, the numbers as they read
/// (unreadable ones as none), and the rows whose ports read.
pub open spec fn update_submitted(mac: Seq<char>, f: FormView, p: UpdateMachinePayload) -> bool {
    &&& p.mac@ == mac
    &&& p.ip@ == f.ip
    &&& p.name@ == f.name
    &&& opt_view(p.description) == (if f.description.len() == 0 { None } else { Some(f.description) })
    &&& p.turn_off_port == opt_u16(f.turn_off_port)
    &&& p.can_be_turned_off == f.can_be_turned_off
    &&& p.inactivity_period == opt_u32(f.inactivity_period)
    &&& p.port_forwards matches Some(v) && forward_views(v@) == parsed_rows(f.rows)
}

fn decimal_string(n: u64) -> (s: String)
    ensures
        s@ == decimal(n as nat),
{
    let mut s = String::new();
    push_decimal(&mut s, n);
    assert(s@ =~= decimal(n as nat));
    s
}

impl MachineDetailState {
    /// The screen for `mac` before its machine has loaded: an empty form,
    /// loading, no error.
    pub fn new(mac: String) -> (s: MachineDetailState)
        ensures
            s.mac == mac,
            s.form@ == AddMachineState::new_view(),
            s.form.wf(),
            s.loading,
            s.error is None,
    {
        let form = AddMachineState::new();
        assert(form@ =~= AddMachineState::new_view());
        MachineDetailState { mac, form, loading: true, error: None }
    }

    /// What the screen shows to its keys: its mode, focus and MAC.
    pub fn context(&self) -> (c: DetailContext)
        ensures
            c.mode == detail_mode(self.form@),
            c.focus == detail_focus(self.form@),
            c.mac == self.mac,
    {
        DetailContext {
            mode: if self.form.inserting { DetailMode::Insert } else { DetailMode::Normal },
            focus: if self.form.focus_area == AddFocusArea::PortForwards { DetailFocus::PortForwards } else { DetailFocus::Fields },
            mac: self.mac.clone(),
        }
    }

    /// Applies an action to the form.
    pub fn apply(&mut self, a: DetailAction)
        requires
            old(self).form.wf(),
        ensures
            final(self).form.wf(),
            final(self).form@ == detail_apply(old(self).form@, a),
            final(self).mac == old(self).mac,
            final(self).loading == old(self).loading,
            final(self).error == old(self).error,
    {
        let ghost f = self.form@;
        let ghost old_rows = self.form.port_forwards@;
        match a {
            DetailAction::SetMode(m) => {
                self.form.inserting = m == DetailMode::Insert;
            }
            DetailAction::NextColumn => self.form.pf_next_column(),
            DetailAction::EditRow(e) => self.form.edit_current_row(e),
            DetailAction::NextField => self.form.next_field(),
            DetailAction::PrevField => self.form.prev_field(),
            DetailAction::EditField(e) => self.form.edit_current_field(e),
            DetailAction::NextRow => {
                let _rows = self.form.port_forwards.len();
                self.form.pf_next();
            }
            DetailAction::PreviousRow => self.form.pf_previous(),
            DetailAction::Focus(d) => {
                self.form.focus_area = match d {
                    DetailFocus::PortForwards => AddFocusArea::PortForwards,
                    DetailFocus::Fields => AddFocusArea::Fields,
                };
            }
            DetailAction::AddRowAndInsert => {
                self.form.pf_add_row();
                self.form.inserting = true;
                proof {
                    let rows = self.form.port_forwards@;
                    assert forall|i: int| 0 <= i < self.form@.rows.len() implies self.form@.rows[i]
                        == f.rows.push(empty_row())[i] by {
                        if i < old_rows.len() {
                            assert(rows[i] == old_rows[i]);
                        } else {
                            assert(rows[i] == rows.last());
                        }
                    };
                    assert(self.form@.rows =~= f.rows.push(empty_row()));
                }
            }
            DetailAction::DeleteRow => {
                self.form.pf_delete_row();
                proof {
                    if old_rows.len() > 0 {
                        assert(self.form@.rows =~= f.rows.remove(f.pf_selected as int));
                    }
                }
            }
            DetailAction::Toggle => self.form.toggle_boolean(),
        }
        proof {
            assert(self.form@.rows =~= detail_apply(f, a).rows);
            assert(self.form@ =~= detail_apply(f, a));
        }
    }

    /// The machine arrived: the form is filled in from it and loading ends.
    pub fn populate_from_machine(&mut self, m: &Machine)
        requires
            old(self).form.wf(),
        ensures
            final(self).form.wf(),
            final(self).form@ == populated(old(self).form@, *m),
            !final(self).loading,
            final(self).mac == old(self).mac,
            final(self).error == old(self).error,
    {
        let ghost pfs = m.port_forwards@;
        let mut rows: Vec<PortForwardRow> = Vec::new();
        let n = m.port_forwards.len();
        let mut i: usize = 0;
        while i < n
            invariant
                n == pfs.len(),
                pfs == m.port_forwards@,
                i <= n,
                rows@.map_values(|r: PortForwardRow| row_view(r)) == pfs.take(i as int).map_values(|p: PortForward| forward_row(p)),
            decreases n - i,
        {
            let p = &m.port_forwards[i];
            let name = match &p.name {
                Some(x) => x.clone(),
                None => String::new(),
            };
            let row = PortForwardRow { name, local_port: decimal_string(p.local_port as u64), target_port: decimal_string(p.target_port as u64) };
            let ghost before = rows@;
            rows.push(row);
            proof {
                assert(row_view(row) == forward_row(pfs[i as int]));
                assert(pfs.take(i + 1) =~= pfs.take(i as int).push(pfs[i as int]));
                assert(rows@.map_values(|r: PortForwardRow| row_view(r)) =~= before.map_values(|r: PortForwardRow| row_view(r)).push(row_view(row)));
                assert(pfs.take(i + 1).map_values(|p: PortForward| forward_row(p)) =~= pfs.take(i as int).map_values(|p: PortForward| forward_row(p)).push(forward_row(pfs[i as int])));
            }
            i = i + 1;
        }
        assert(pfs.take(n as int) =~= pfs);
        self.form.name = m.name.clone();
        self.form.mac = m.mac.clone();
        self.form.ip = m.ip.clone();
        self.form.description = match &m.description {
            Some(d) => d.clone(),
            None => String::new(),
        };
        self.form.turn_off_port = match m.turn_off_port {
            Some(p) => decimal_string(p as u64),
            None => String::new(),
        };
        self.form.can_be_turned_off = m.can_be_turned_off;
        self.form.inactivity_period = decimal_string(m.inactivity_period as u64);
        self.form.port_forwards = rows;
        self.form.pf_selected = 0;
        self.loading = false;
        proof {
            assert(self.form@ =~= populated(old(self).form@, *m));
        }
    }

    /// Loading the machine failed: loading ends and the error is shown.
    pub fn load_failed(&mut self, error: &str)
        ensures
            !final(self).loading,
            opt_view(final(self).error) == Some("Failed to load: "@ + error@),
            final(self).mac == old(self).mac,
            final(self).form == old(self).form,
    {
        let mut m = String::from_str("Failed to load: ");
        m.append(error);
        self.error = Some(m);
        self.loading = false;
    }

    /// The update request for the form as it stands.
    pub fn to_update_payload(&self) -> (p: UpdateMachinePayload)
        ensures
            update_submitted(self.mac@, self.form@, p),
    {
        UpdateMachinePayload {
            mac: self.mac.clone(),
            ip: self.form.ip.clone(),
            name: self.form.name.clone(),
            description: optional_description(&self.form.description),
            turn_off_port: parse_u16(self.form.turn_off_port.as_str()),
            can_be_turned_off: self.form.can_be_turned_off,
            inactivity_period: parse_u32(self.form.inactivity_period.as_str()),
            port_forwards: Some(parse_rows(&self.form.port_forwards)),
        }
    }
}

/// The detail screen after an action on its form.
pub open spec fn detail_after(o: MachineDetailState, n: MachineDetailState, a: DetailAction) -> bool {
    &&& n.form@ == detail_apply(o.form@, a)
    &&& n.form.wf()
    &&& n.mac == o.mac
    &&& n.loading == o.loading
    &&& n.error == o.error
}

/// A request to the server.
#[derive(PartialEq, Eq, Debug)]
pub enum Request {
    ListMachines,
    MachineStatus(String),
    MachineDetail(String),
    ListInterfaces,
    ScanNetwork(String),
    Wake(String),
    TurnOff(String),
    AddMachine(AddMachinePayload),
    UpdateMachine(String, UpdateMachinePayload),
    DeleteMachine(String),
}

/// A reply from the server; errors are their messages.
pub enum Reply {
    Machines(Result<Vec<Machine>, String>),
    MachineStatus(String, Result<bool, String>),
    MachineDetail(Result<Machine, String>),
    Interfaces(Result<Vec<NetworkInterface>, String>),
    ScanResult(Result<Vec<DiscoveredDevice>, String>),
    ActionResult(Result<String, String>),
    AddResult(Result<(), String>),
    UpdateResult(Result<(), String>),
    DeleteResult(Result<(), String>),
}

/// The terminal client: its tabs and forms, and the state of its three
/// screens (the detail screen once one was opened).
pub struct Client {
    pub app: App,
    pub machines: MachinesScreen,
    pub scanner: ScannerScreen,
    pub detail: Option<MachineDetailState>,
}

/// What the keys see of the screens.
pub open spec fn spec_context(c: Client) -> ScreenContext {
    ScreenContext {
        machines_filtering: c.machines.filtering,
        selected_machine: selected_mac(c.machines),
        scanner_panel: c.scanner.active_panel,
        selected_interface: selected_interface_name(c.scanner),
        selected_device: selected_device(c.scanner),
        detail: match c.detail {
            Some(d) => Some(DetailContext { mode: detail_mode(d.form@), focus: detail_focus(d.form@), mac: d.mac }),
            None => None,
        },
    }
}

/// `reqs` is the one request `r`.
pub open spec fn just(reqs: Seq<Request>, r: Request) -> bool {
    reqs.len() == 1 && reqs[0] == r
}

/// The screens and requests after a key whose effect beyond the tabs and
/// forms is `e`: screen actions are applied to their screen; opening a
/// detail starts a fresh detail screen and loads its machine; a scan marks
/// the scanner busy and clears its devices; saving the detail form sends
/// its update; the other effects are sent as requests.
pub open spec fn key_applied(o: Client, n: Client, e: KeyEffect, form: FormView, reqs: Seq<Request>) -> bool {
    match e {
        KeyEffect::Machines(a) => machines_after(o.machines, n.machines, a) && n.scanner == o.scanner
            && n.detail == o.detail && reqs.len() == 0,
        KeyEffect::Scanner(a) => scanner_after(o.scanner, n.scanner, a) && n.machines == o.machines
            && n.detail == o.detail && reqs.len() == 0,
        KeyEffect::Detail(a) => n.machines == o.machines && n.scanner == o.scanner && reqs.len() == 0 && match o.detail {
            Some(d) => (n.detail matches Some(d2) && detail_after(d, d2, a)),
            None => n.detail is None,
        },
        KeyEffect::LoadDetail(m) => n.machines == o.machines && n.scanner == o.scanner
            && (n.detail matches Some(d) && d.mac@ == m && d.form@ == AddMachineState::new_view() && d.form.wf()
                && d.loading && d.error is None)
            && reqs.len() == 1 && (reqs[0] matches Request::MachineDetail(x) && x@ == m),
        KeyEffect::Scan(name) => scan_started(o.scanner, n.scanner) && n.machines == o.machines && n.detail == o.detail
            && reqs.len() == 1 && (reqs[0] matches Request::ScanNetwork(x) && x@ == name),
        KeyEffect::SubmitUpdate => n.machines == o.machines && n.scanner == o.scanner && n.detail == o.detail && match o.detail {
            Some(d) => reqs.len() == 1 && (reqs[0] matches Request::UpdateMachine(m, p) && m == d.mac
                && update_submitted(d.mac@, d.form@, p)),
            None => reqs.len() == 0,
        },
        KeyEffect::Submit => n.machines == o.machines && n.scanner == o.scanner && n.detail == o.detail
            && reqs.len() == 1 && (reqs[0] matches Request::AddMachine(p) && submitted(form, p)),
        KeyEffect::Delete(m) => n.machines == o.machines && n.scanner == o.scanner && n.detail == o.detail
            && reqs.len() == 1 && (reqs[0] matches Request::DeleteMachine(x) && x@ == m),
        KeyEffect::Wake(m) => n.machines == o.machines && n.scanner == o.scanner && n.detail == o.detail
            && reqs.len() == 1 && (reqs[0] matches Request::Wake(x) && x@ == m),
        KeyEffect::TurnOff(m) => n.machines == o.machines && n.scanner == o.scanner && n.detail == o.detail
            && reqs.len() == 1 && (reqs[0] matches Request::TurnOff(x) && x@ == m),
        KeyEffect::Nothing => n.machines == o.machines && n.scanner == o.scanner && n.detail == o.detail && reqs.len() == 0,
    }
}

/// The screens unchanged.
pub open spec fn screens_kept(o: Client, n: Client) -> bool {
    n.machines == o.machines && n.scanner == o.scanner && n.detail == o.detail
}

/// The client after a reply at `now`, and the requests it makes:
/// - a machine list replaces the old one and asks for each machine's power
///   state; a failure ends loading and is shown;
/// - a power state is kept for its MAC (a failed query counts as off);
/// - a machine fills in the open detail screen; a failure is shown there;
/// - interfaces replace the old ones; a failure ends loading and is shown;
/// - a scan's devices replace the old ones and the scan is reported;
/// - action, add, update and delete results are shown as the tabs handle
///   them; a machine added, updated or deleted reloads the list, and a
///   failed update is shown on the detail screen.
pub open spec fn reply_applied(o: Client, n: Client, r: Reply, now: u64, reqs: Seq<Request>) -> bool {
    match r {
        Reply::Machines(Ok(ms)) => machines_loaded_after(o.machines, n.machines, ms) && n.scanner == o.scanner
            && n.detail == o.detail && n.app@ == o.app@
            && reqs.len() == ms@.len()
            && forall|i: int| 0 <= i < reqs.len() ==> (#[trigger] reqs[i] matches Request::MachineStatus(x) && x == ms@[i].mac),
        Reply::Machines(Err(e)) => n.machines == (MachinesScreen { loading: false, ..o.machines }) && n.scanner == o.scanner
            && n.detail == o.detail && outcome_step(o.app@, n.app@, ApiOutcome::MachinesFailed(e), Command::Nothing, now)
            && reqs.len() == 0,
        Reply::MachineStatus(mac, res) => status_set_after(o.machines, n.machines, mac, match res {
            Ok(on) => on,
            Err(_) => false,
        }) && n.scanner == o.scanner && n.detail == o.detail && n.app@ == o.app@ && reqs.len() == 0,
        Reply::MachineDetail(res) => n.machines == o.machines && n.scanner == o.scanner && n.app@ == o.app@ && reqs.len() == 0
            && match o.detail {
                None => n.detail is None,
                Some(d) => (n.detail matches Some(d2) && d2.mac == d.mac && !d2.loading && d2.form.wf() && match res {
                    Ok(m) => d2.form@ == populated(d.form@, m) && d2.error == d.error,
                    Err(e) => d2.form == d.form && opt_view(d2.error) == Some("Failed to load: "@ + e@),
                }),
            },
        Reply::Interfaces(Ok(v)) => interfaces_after(o.scanner, n.scanner, Some(v)) && n.machines == o.machines
            && n.detail == o.detail && n.app@ == o.app@ && reqs.len() == 0,
        Reply::Interfaces(Err(e)) => interfaces_after(o.scanner, n.scanner, None) && n.machines == o.machines
            && n.detail == o.detail && outcome_step(o.app@, n.app@, ApiOutcome::InterfacesFailed(e), Command::Nothing, now)
            && reqs.len() == 0,
        Reply::ScanResult(Ok(v)) => scan_finished_after(o.scanner, n.scanner, Some(v)) && n.machines == o.machines
            && n.detail == o.detail && outcome_step(o.app@, n.app@, ApiOutcome::ScanResult(Ok(())), Command::Nothing, now)
            && reqs.len() == 0,
        Reply::ScanResult(Err(e)) => scan_finished_after(o.scanner, n.scanner, None) && n.machines == o.machines
            && n.detail == o.detail && outcome_step(o.app@, n.app@, ApiOutcome::ScanResult(Err(e)), Command::Nothing, now)
            && reqs.len() == 0,
        Reply::ActionResult(res) => screens_kept(o, n)
            && outcome_step(o.app@, n.app@, ApiOutcome::ActionResult(res), Command::Nothing, now) && reqs.len() == 0,
        Reply::AddResult(Ok(())) => screens_kept(o, n)
            && outcome_step(o.app@, n.app@, ApiOutcome::AddResult(Ok(())), Command::FetchMachines, now)
            && just(reqs, Request::ListMachines),
        Reply::AddResult(Err(e)) => screens_kept(o, n)
            && outcome_step(o.app@, n.app@, ApiOutcome::AddResult(Err(e)), Command::Nothing, now) && reqs.len() == 0,
        Reply::UpdateResult(Ok(())) => screens_kept(o, n)
            && outcome_step(o.app@, n.app@, ApiOutcome::UpdateResult(Ok(())), Command::FetchMachines, now)
            && just(reqs, Request::ListMachines),
        Reply::UpdateResult(Err(e)) => n.machines == o.machines && n.scanner == o.scanner && n.app@ == o.app@
            && reqs.len() == 0 && match o.detail {
                None => n.detail is None,
                Some(d) => (n.detail matches Some(d2) && d2.mac == d.mac && d2.form == d.form && d2.loading == d.loading
                    && opt_view(d2.error) == Some("Save failed: "@ + e@)),
            },
        Reply::DeleteResult(Ok(())) => screens_kept(o, n)
            && outcome_step(o.app@, n.app@, ApiOutcome::DeleteResult(Ok(())), Command::FetchMachines, now)
            && just(reqs, Request::ListMachines),
        Reply::DeleteResult(Err(e)) => screens_kept(o, n)
            && outcome_step(o.app@, n.app@, ApiOutcome::DeleteResult(Err(e)), Command::Nothing, now) && reqs.len() == 0,
    }
}

impl Client {
    /// The tabs, forms and detail form are in order.
    pub open spec fn wf(&self) -> bool {
        &&& self.app.wf()
        &&& self.detail matches Some(d) ==> d.form.wf()
    }

    /// A client at time `now`: the tabs as `App::new` makes them, fresh
    /// screens and no detail screen.
    pub fn new(now: u64) -> (c: Client)
        ensures
            c.wf(),
            c.app.tab_list() == seq![crate::tui::TabView::Scanner, crate::tui::TabView::Machines],
            c.app.active() == 1,
            c.app@.last_refresh == now,
            c.app.notices().len() == 0,
            !c.app.quitting(),
            c.machines.machines@.len() == 0 && c.machines.statuses@.len() == 0 && c.machines.loading,
            !c.machines.filtering && c.machines.filter@.len() == 0 && c.machines.selected is None,
            c.scanner.interfaces@.len() == 0 && c.scanner.devices@.len() == 0,
            c.scanner.loading_interfaces && !c.scanner.scanning,
            c.scanner.active_panel == ScannerPanel::Interfaces,
            c.scanner.interface_selected is None && c.scanner.device_selected is None,
            c.detail is None,
    {
        Client { app: App::new(now), machines: MachinesScreen::new(), scanner: ScannerScreen::new(), detail: None }
    }

    /// The first requests: the machine list and the network interfaces.
    pub fn init(&self) -> (reqs: Vec<Request>)
        ensures
            reqs@ == seq![Request::ListMachines, Request::ListInterfaces],
    {
        let mut reqs = Vec::new();
        reqs.push(Request::ListMachines);
        reqs.push(Request::ListInterfaces);
        reqs
    }

    /// What the keys see of the screens.
    pub fn context(&self) -> (ctx: ScreenContext)
        ensures
            ctx == spec_context(*self),
    {
        let selected_machine = match self.machines.selected_machine() {
            Some(m) => Some(m.mac.clone()),
            None => None,
        };
        let selected_interface = match self.scanner.interface_selected {
            Some(i) => if i < self.scanner.interfaces.len() { Some(self.scanner.interfaces[i].name.clone()) } else { None },
            None => None,
        };
        let selected_device = match self.scanner.device_selected {
            Some(i) => if i < self.scanner.devices.len() { Some(copy_device(&self.scanner.devices[i])) } else { None },
            None => None,
        };
        let detail = match &self.detail {
            Some(d) => Some(d.context()),
            None => None,
        };
        ScreenContext {
            machines_filtering: self.machines.filtering,
            selected_machine,
            scanner_panel: self.scanner.active_panel,
            selected_interface,
            selected_device,
            detail,
        }
    }

    /// What a key press does: the tabs and forms change as `key_step` says
    /// for what the screens show, and the key's effect is carried out on
    /// the screens or sent as requests.
    pub fn handle_key(&mut self, key: KeyPress) -> (reqs: Vec<Request>)
        requires
            old(self).wf(),
        ensures
            final(self).wf(),
            ({
                let (a, e) = key_step(old(self).app@, spec_context(*old(self)), key);
                &&& final(self).app@ == a
                &&& key_applied(*old(self), *final(self), e, a.form, reqs@)
            }),
    {
        let ctx = self.context();
        let cmd = self.app.handle_key(key, &ctx);
        let mut reqs: Vec<Request> = Vec::new();
        match cmd {
            Command::Nothing => {}
            Command::Delete(m) => reqs.push(Request::DeleteMachine(m)),
            Command::SubmitAddMachine(p) => reqs.push(Request::AddMachine(p)),
            Command::SubmitUpdateMachine => {
                if let Some(d) = &self.detail {
                    reqs.push(Request::UpdateMachine(d.mac.clone(), d.to_update_payload()));
                }
            }
            Command::Wake(m) => reqs.push(Request::Wake(m)),
            Command::TurnOff(m) => reqs.push(Request::TurnOff(m)),
            Command::LoadDetail(m) => {
                self.detail = Some(MachineDetailState::new(m.clone()));
                reqs.push(Request::MachineDetail(m));
            }
            Command::Scan(name) => {
                self.scanner.start_scan();
                reqs.push(Request::ScanNetwork(name));
            }
            Command::Machines(a) => self.machines.apply(a),
            Command::Scanner(a) => self.scanner.apply(a),
            Command::Detail(a) => {
                match self.detail.take() {
                    Some(mut d) => {
                        d.apply(a);
                        self.detail = Some(d);
                    }
                    None => {}
                }
            }
            Command::FetchMachines => {}
            Command::DetailError(_) => {}
        }
        reqs
    }

    /// Shows an error on the detail screen, when there is one.
    fn detail_error(&mut self, message: String)
        ensures
            final(self).app == old(self).app,
            final(self).machines == old(self).machines,
            final(self).scanner == old(self).scanner,
            match old(self).detail {
                None => final(self).detail is None,
                Some(d) => (final(self).detail matches Some(d2) && d2.mac == d.mac && d2.form == d.form
                    && d2.loading == d.loading && opt_view(d2.error) == Some(message@)),
            },
    {
        match self.detail.take() {
            Some(mut d) => {
                d.error = Some(message);
                self.detail = Some(d);
            }
            None => {}
        }
    }

    /// Takes in a reply from the server at time `now`.
    pub fn handle_reply(&mut self, reply: Reply, now: u64) -> (reqs: Vec<Request>)
        requires
            old(self).wf(),
        ensures
            final(self).wf(),
            reply_applied(*old(self), *final(self), reply, now, reqs@),
    {
        let mut reqs: Vec<Request> = Vec::new();
        match reply {
            Reply::Machines(Ok(ms)) => {
                let n = ms.len();
                let mut i: usize = 0;
                while i < n
                    invariant
                        n == ms@.len(),
                        i <= n,
                        reqs@.len() == i,
                        forall|k: int| 0 <= k < i ==> (#[trigger] reqs@[k] matches Request::MachineStatus(x) && x == ms@[k].mac),
                    decreases n - i,
                {
                    reqs.push(Request::MachineStatus(ms[i].mac.clone()));
                    i = i + 1;
                }
                self.machines.machines_loaded(ms);
            }
            Reply::Machines(Err(e)) => {
                self.machines.loading = false;
                let _ = self.app.handle_api_outcome(ApiOutcome::MachinesFailed(e), now);
            }
            Reply::MachineStatus(mac, res) => {
                let on = match res {
                    Ok(on) => on,
                    Err(_) => false,
                };
                self.machines.set_status(mac, on);
            }
            Reply::MachineDetail(res) => {
                match self.detail.take() {
                    Some(mut d) => {
                        match res {
                            Ok(m) => d.populate_from_machine(&m),
                            Err(e) => d.load_failed(e.as_str()),
                        }
                        self.detail = Some(d);
                    }
                    None => {}
                }
            }
            Reply::Interfaces(Ok(v)) => self.scanner.interfaces_loaded(Some(v)),
            Reply::Interfaces(Err(e)) => {
                self.scanner.interfaces_loaded(None);
                let _ = self.app.handle_api_outcome(ApiOutcome::InterfacesFailed(e), now);
            }
            Reply::ScanResult(Ok(v)) => {
                self.scanner.scan_finished(Some(v));
                let _ = self.app.handle_api_outcome(ApiOutcome::ScanResult(Ok(())), now);
            }
            Reply::ScanResult(Err(e)) => {
                self.scanner.scan_finished(None);
                let _ = self.app.handle_api_outcome(ApiOutcome::ScanResult(Err(e)), now);
            }
            Reply::ActionResult(res) => {
                let _ = self.app.handle_api_outcome(ApiOutcome::ActionResult(res), now);
            }
            Reply::AddResult(res) => {
                if let Command::FetchMachines = self.app.handle_api_outcome(ApiOutcome::AddResult(res), now) {
                    reqs.push(Request::ListMachines);
                }
            }
            Reply::UpdateResult(res) => {
                match self.app.handle_api_outcome(ApiOutcome::UpdateResult(res), now) {
                    Command::FetchMachines => reqs.push(Request::ListMachines),
                    Command::DetailError(m) => self.detail_error(m),
                    _ => {}
                }
            }
            Reply::DeleteResult(res) => {
                if let Command::FetchMachines = self.app.handle_api_outcome(ApiOutcome::DeleteResult(res), now) {
                    reqs.push(Request::ListMachines);
                }
            }
        }
        reqs
    }

    /// Whether the machine list is due for a reload at `now`; when it is,
    /// the list and the power state of each listed machine are asked for.
    pub fn check_refresh(&mut self, now: u64) -> (reqs: Vec<Request>)
        requires
            old(self).wf(),
        ensures
            final(self).wf(),
            screens_kept(*old(self), *final(self)),
            final(self).app@ == if crate::tui::refresh_due(old(self).app@.last_refresh, now) {
                AppView { last_refresh: now, ..old(self).app@ }
            } else {
                old(self).app@
            },
            crate::tui::refresh_due(old(self).app@.last_refresh, now) ==> {
                &&& reqs@.len() == old(self).machines.machines@.len() + 1
                &&& reqs@[0] == Request::ListMachines
                &&& forall|i: int| 1 <= i < reqs@.len() ==> (#[trigger] reqs@[i] matches Request::MachineStatus(x)
                    && x == old(self).machines.machines@[i - 1].mac)
            },
            !crate::tui::refresh_due(old(self).app@.last_refresh, now) ==> reqs@.len() == 0,
    {
        let mut reqs: Vec<Request> = Vec::new();
        if !self.app.check_refresh(now) {
            return reqs;
        }
        reqs.push(Request::ListMachines);
        let n = self.machines.machines.len();
        let mut i: usize = 0;
        while i < n
            invariant
                n == self.machines.machines@.len(),
                i <= n,
                reqs@.len() == i + 1,
                reqs@[0] == Request::ListMachines,
                forall|k: int| 1 <= k < i + 1 ==> (#[trigger] reqs@[k] matches Request::MachineStatus(x)
                    && x == self.machines.machines@[k - 1].mac),
            decreases n - i,
        {
            reqs.push(Request::MachineStatus(self.machines.machines[i].mac.clone()));
            i = i + 1;
        }
        reqs
    }
}

} // verus!

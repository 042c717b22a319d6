//! The terminal client's state: its tabs, notifications and the form for
//! adding a machine, and what a key press does to them.

use vstd::prelude::*;
use vstd::string::*;
use crate::models::{AddMachinePayload, DiscoveredDevice, PortForward};
use crate::parse::{parse_u16, parse_u32, spec_parse_unsigned};
use crate::text::{push_char, str_eq};

verus! {

/// Removes the last character of a string, if any (`String::pop`).
#[verifier::external_body]
fn pop_char(s: &mut String)
    ensures
        final(s)@ == if old(s)@.len() > 0 { old(s)@.drop_last() } else { old(s)@ },
{
    s.pop();
}

/// Which part of the add-machine form has the focus.
#[derive(PartialEq, Eq, Structural, Debug, Clone, Copy)]
pub enum AddFocusArea {
    Fields,
    PortForwards,
}

/// One port-forward row of a form, as typed.
#[derive(Debug, Clone, PartialEq, Eq)]
pub struct PortForwardRow {
    pub name: String,
    pub local_port: String,
    pub target_port: String,
}

/// The add-machine form. Fields are numbered in the order the form shows
/// them: name, MAC, IP, description, turn-off port, the can-be-turned-off
/// flag and the inactivity period.
pub struct AddMachineState {
    pub name: String,
    pub mac: String,
    pub ip: String,
    pub description: String,
    pub turn_off_port: String,
    pub can_be_turned_off: bool,
    pub inactivity_period: String,
    pub focused_field: usize,
    pub inserting: bool,
    pub error: Option<String>,
    pub port_forwards: Vec<PortForwardRow>,
    pub focus_area: AddFocusArea,
    pub pf_selected: usize,
    pub pf_column: usize,
}

/// The number of fields of the form.
pub const FIELD_COUNT: usize = 7;

/// The text field with the given number, if it is one.
pub open spec fn field_text(s: AddMachineState, i: int) -> Option<String> {
    if i == 0 {
        Some(s.name)
    } else if i == 1 {
        Some(s.mac)
    } else if i == 2 {
        Some(s.ip)
    } else if i == 3 {
        Some(s.description)
    } else if i == 4 {
        Some(s.turn_off_port)
    } else if i == 6 {
        Some(s.inactivity_period)
    } else {
        None
    }
}

/// The form with text field `i` set to `v`.
pub open spec fn with_field_text(s: AddMachineState, i: int, v: String) -> AddMachineState {
    if i == 0 {
        AddMachineState { name: v, ..s }
    } else if i == 1 {
        AddMachineState { mac: v, ..s }
    } else if i == 2 {
        AddMachineState { ip: v, ..s }
    } else if i == 3 {
        AddMachineState { description: v, ..s }
    } else if i == 4 {
        AddMachineState { turn_off_port: v, ..s }
    } else if i == 6 {
        AddMachineState { inactivity_period: v, ..s }
    } else {
        s
    }
}

/// The column of a port-forward row with the given number.
pub open spec fn row_field(r: PortForwardRow, col: int) -> String {
    if col == 0 {
        r.name
    } else if col == 1 {
        r.local_port
    } else {
        r.target_port
    }
}

/// The row with column `col` set to `v`.
pub open spec fn with_row_field(r: PortForwardRow, col: int, v: String) -> PortForwardRow {
    if col == 0 {
        PortForwardRow { name: v, ..r }
    } else if col == 1 {
        PortForwardRow { local_port: v, ..r }
    } else {
        PortForwardRow { target_port: v, ..r }
    }
}

impl AddMachineState {
    /// An empty form with the inactivity period set to 30 minutes and the
    /// focus on the first field.
    pub fn new() -> (s: AddMachineState)
        ensures
            s.name@.len() == 0,
            s.mac@.len() == 0,
            s.ip@.len() == 0,
            s.description@.len() == 0,
            s.turn_off_port@.len() == 0,
            !s.can_be_turned_off,
            s.inactivity_period@ == "30"@,
            s.focused_field == 0,
            !s.inserting,
            s.error is None,
            s.port_forwards@.len() == 0,
            s.focus_area == AddFocusArea::Fields,
            s.pf_selected == 0,
            s.pf_column == 0,
    {
        AddMachineState {
            name: String::new(),
            mac: String::new(),
            ip: String::new(),
            description: String::new(),
            turn_off_port: String::new(),
            can_be_turned_off: false,
            inactivity_period: String::from_str("30"),
            focused_field: 0,
            inserting: false,
            error: None,
            port_forwards: Vec::new(),
            focus_area: AddFocusArea::Fields,
            pf_selected: 0,
            pf_column: 0,
        }
    }

    /// The text field that has the focus, for editing.
    pub fn current_field_mut(&mut self) -> (field: Option<&mut String>)
        ensures
            field is Some <==> field_text(*old(self), old(self).focused_field as int) is Some,
            field matches Some(f) ==> *f == field_text(*old(self), old(self).focused_field as int)->0
                && *final(self) == with_field_text(*old(self), old(self).focused_field as int, *final(f)),
            field is None ==> *final(self) == *old(self),
    {
        match self.focused_field {
            0 => Some(&mut self.name),
            1 => Some(&mut self.mac),
            2 => Some(&mut self.ip),
            3 => Some(&mut self.description),
            4 => Some(&mut self.turn_off_port),
            6 => Some(&mut self.inactivity_period),
            _ => None,
        }
    }

    /// Fills in a discovered device: its MAC and IP, and its host name as
    /// the machine's name when it has one.
    pub fn prefill(&mut self, mac: &str, ip: &str, hostname: Option<&str>)
        ensures
            final(self).mac@ == mac@,
            final(self).ip@ == ip@,
            final(self).name@ == match hostname {
                Some(h) => h@,
                None => old(self).name@,
            },
            final(self).description == old(self).description,
            final(self).turn_off_port == old(self).turn_off_port,
            final(self).can_be_turned_off == old(self).can_be_turned_off,
            final(self).inactivity_period == old(self).inactivity_period,
            final(self).focused_field == old(self).focused_field,
            final(self).inserting == old(self).inserting,
            final(self).error == old(self).error,
            final(self).port_forwards == old(self).port_forwards,
            final(self).focus_area == old(self).focus_area,
            final(self).pf_selected == old(self).pf_selected,
            final(self).pf_column == old(self).pf_column,
    {
        self.mac = String::from_str(mac);
        self.ip = String::from_str(ip);
        if let Some(h) = hostname {
            self.name = String::from_str(h);
        }
    }

    /// Moves the focus to the next field, from the last back to the first.
    pub fn next_field(&mut self)
        requires
            old(self).focused_field < usize::MAX,
        ensures
            *final(self) == (AddMachineState { focused_field: ((old(self).focused_field + 1) % 7) as usize, ..*old(self) }),
    {
        self.focused_field = (self.focused_field + 1) % FIELD_COUNT;
    }

    /// Moves the focus to the previous field, from the first to the last.
    pub fn prev_field(&mut self)
        ensures
            *final(self) == (AddMachineState {
                focused_field: if old(self).focused_field == 0 { 6 } else { (old(self).focused_field - 1) as usize },
                ..*old(self)
            }),
    {
        self.focused_field = if self.focused_field == 0 {
            FIELD_COUNT - 1
        } else {
            self.focused_field - 1
        };
    }

    /// Flips the can-be-turned-off flag when it has the focus.
    pub fn toggle_boolean(&mut self)
        ensures
            *final(self) == if old(self).focused_field == 5 {
                AddMachineState { can_be_turned_off: !old(self).can_be_turned_off, ..*old(self) }
            } else {
                *old(self)
            },
    {
        if self.focused_field == 5 {
            self.can_be_turned_off = !self.can_be_turned_off;
        }
    }

    /// Selects the next port-forward row, from the last back to the first.
    pub fn pf_next(&mut self)
        requires
            old(self).port_forwards@.len() > 0 ==> old(self).pf_selected < usize::MAX,
        ensures
            *final(self) == if old(self).port_forwards@.len() > 0 {
                AddMachineState {
                    pf_selected: ((old(self).pf_selected + 1) % old(self).port_forwards@.len() as int) as usize,
                    ..*old(self)
                }
            } else {
                *old(self)
            },
    {
        if self.port_forwards.len() > 0 {
            self.pf_selected = (self.pf_selected + 1) % self.port_forwards.len();
        }
    }

    /// Selects the previous port-forward row, from the first to the last.
    pub fn pf_previous(&mut self)
        ensures
            *final(self) == if old(self).port_forwards@.len() > 0 {
                AddMachineState {
                    pf_selected: if old(self).pf_selected == 0 {
                        (old(self).port_forwards@.len() - 1) as usize
                    } else {
                        (old(self).pf_selected - 1) as usize
                    },
                    ..*old(self)
                }
            } else {
                *old(self)
            },
    {
        if self.port_forwards.len() > 0 {
            self.pf_selected = if self.pf_selected == 0 {
                self.port_forwards.len() - 1
            } else {
                self.pf_selected - 1
            };
        }
    }

    /// Moves to the next of the three columns of a port-forward row.
    pub fn pf_next_column(&mut self)
        requires
            old(self).pf_column < usize::MAX,
        ensures
            *final(self) == (AddMachineState { pf_column: ((old(self).pf_column + 1) % 3) as usize, ..*old(self) }),
    {
        self.pf_column = (self.pf_column + 1) % 3;
    }

    /// The selected column of the selected port-forward row, for editing.
    pub fn pf_current_field_mut(&mut self) -> (field: Option<&mut String>)
        ensures
            field is Some <==> (old(self).pf_selected < old(self).port_forwards@.len() && old(self).pf_column < 3),
            field matches Some(f) ==> {
                let sel = old(self).pf_selected as int;
                let row = old(self).port_forwards@[sel];
                &&& *f == row_field(row, old(self).pf_column as int)
                &&& final(self).port_forwards@ == old(self).port_forwards@.update(
                    sel,
                    with_row_field(row, old(self).pf_column as int, *final(f)),
                )
                &&& *final(self) == (AddMachineState { port_forwards: final(self).port_forwards, ..*old(self) })
            },
            field is None ==> *final(self) == *old(self),
    {
        if self.pf_selected >= self.port_forwards.len() || self.pf_column >= 3 {
            return None;
        }
        let col = self.pf_column;
        let sel = self.pf_selected;
        let row = &mut self.port_forwards[sel];
        if col == 0 {
            Some(&mut row.name)
        } else if col == 1 {
            Some(&mut row.local_port)
        } else {
            Some(&mut row.target_port)
        }
    }

    /// Adds an empty port-forward row and selects its first column.
    pub fn pf_add_row(&mut self)
        ensures
            final(self).port_forwards@.len() == old(self).port_forwards@.len() + 1,
            forall|i: int| 0 <= i < old(self).port_forwards@.len() ==> final(self).port_forwards@[i] == old(self).port_forwards@[i],
            final(self).port_forwards@.last().name@.len() == 0,
            final(self).port_forwards@.last().local_port@.len() == 0,
            final(self).port_forwards@.last().target_port@.len() == 0,
            *final(self) == (AddMachineState {
                port_forwards: final(self).port_forwards,
                pf_selected: old(self).port_forwards@.len() as usize,
                pf_column: 0,
                ..*old(self)
            }),
    {
        self.port_forwards.push(PortForwardRow {
            name: String::new(),
            local_port: String::new(),
            target_port: String::new(),
        });
        self.pf_selected = self.port_forwards.len() - 1;
        self.pf_column = 0;
    }

    /// Deletes the selected port-forward row, keeping a valid selection.
    pub fn pf_delete_row(&mut self)
        requires
            old(self).port_forwards@.len() > 0 ==> old(self).pf_selected < old(self).port_forwards@.len(),
        ensures
            old(self).port_forwards@.len() == 0 ==> *final(self) == *old(self),
            old(self).port_forwards@.len() > 0 ==> {
                let rows = old(self).port_forwards@.remove(old(self).pf_selected as int);
                &&& final(self).port_forwards@ == rows
                &&& *final(self) == (AddMachineState {
                    port_forwards: final(self).port_forwards,
                    pf_selected: if old(self).pf_selected >= rows.len() && old(self).pf_selected > 0 {
                        (old(self).pf_selected - 1) as usize
                    } else {
                        old(self).pf_selected
                    },
                    ..*old(self)
                })
            },
    {
        if self.port_forwards.len() > 0 {
            self.port_forwards.remove(self.pf_selected);
            if self.pf_selected >= self.port_forwards.len() && self.pf_selected > 0 {
                self.pf_selected = self.pf_selected - 1;
            }
        }
    }
}


/// A change typed into a text field.
#[derive(PartialEq, Eq, Structural, Debug, Clone, Copy)]
pub enum Edit {
    Push(char),
    Pop,
}

pub open spec fn apply_edit(s: Seq<char>, e: Edit) -> Seq<char> {
    match e {
        Edit::Push(c) => s.push(c),
        Edit::Pop => if s.len() > 0 { s.drop_last() } else { s },
    }
}

pub(crate) fn edit_string(s: &mut String, e: Edit)
    ensures
        final(s)@ == apply_edit(old(s)@, e),
{
    match e {
        Edit::Push(c) => push_char(s, c),
        Edit::Pop => pop_char(s),
    }
}

/// The contents of the add-machine form as plain values.
#[verifier::ext_equal]
pub struct FormView {
    pub name: Seq<char>,
    pub mac: Seq<char>,
    pub ip: Seq<char>,
    pub description: Seq<char>,
    pub turn_off_port: Seq<char>,
    pub can_be_turned_off: bool,
    pub inactivity_period: Seq<char>,
    pub focused_field: usize,
    pub inserting: bool,
    pub error: Option<Seq<char>>,
    pub rows: Seq<(Seq<char>, Seq<char>, Seq<char>)>,
    pub focus_area: AddFocusArea,
    pub pf_selected: usize,
    pub pf_column: usize,
}

pub open spec fn row_view(r: PortForwardRow) -> (Seq<char>, Seq<char>, Seq<char>) {
    (r.name@, r.local_port@, r.target_port@)
}

pub open spec fn opt_view(o: Option<String>) -> Option<Seq<char>> {
    match o {
        Some(s) => Some(s@),
        None => None,
    }
}

impl View for AddMachineState {
    type V = FormView;

    open spec fn view(&self) -> FormView {
        FormView {
            name: self.name@,
            mac: self.mac@,
            ip: self.ip@,
            description: self.description@,
            turn_off_port: self.turn_off_port@,
            can_be_turned_off: self.can_be_turned_off,
            inactivity_period: self.inactivity_period@,
            focused_field: self.focused_field,
            inserting: self.inserting,
            error: opt_view(self.error),
            rows: self.port_forwards@.map_values(|r: PortForwardRow| row_view(r)),
            focus_area: self.focus_area,
            pf_selected: self.pf_selected,
            pf_column: self.pf_column,
        }
    }
}

/// The form with `e` applied to the focused text field (the flag field and
/// numbers past the last field take no text).
pub open spec fn edit_focused(f: FormView, e: Edit) -> FormView {
    let i = f.focused_field;
    if i == 0 {
        FormView { name: apply_edit(f.name, e), ..f }
    } else if i == 1 {
        FormView { mac: apply_edit(f.mac, e), ..f }
    } else if i == 2 {
        FormView { ip: apply_edit(f.ip, e), ..f }
    } else if i == 3 {
        FormView { description: apply_edit(f.description, e), ..f }
    } else if i == 4 {
        FormView { turn_off_port: apply_edit(f.turn_off_port, e), ..f }
    } else if i == 6 {
        FormView { inactivity_period: apply_edit(f.inactivity_period, e), ..f }
    } else {
        f
    }
}

pub open spec fn edit_row(r: (Seq<char>, Seq<char>, Seq<char>), col: usize, e: Edit) -> (Seq<char>, Seq<char>, Seq<char>) {
    if col == 0 {
        (apply_edit(r.0, e), r.1, r.2)
    } else if col == 1 {
        (r.0, apply_edit(r.1, e), r.2)
    } else {
        (r.0, r.1, apply_edit(r.2, e))
    }
}

/// The form with `e` applied to the selected column of the selected row.
pub open spec fn edit_selected_row(f: FormView, e: Edit) -> FormView {
    if f.pf_selected < f.rows.len() && f.pf_column < 3 {
        FormView { rows: f.rows.update(f.pf_selected as int, edit_row(f.rows[f.pf_selected as int], f.pf_column, e)), ..f }
    } else {
        f
    }
}

impl AddMachineState {
    /// The selections of the form are in range.
    pub open spec fn wf(&self) -> bool {
        &&& self.focused_field < 7
        &&& self.pf_column < 3
        &&& self.port_forwards@.len() > 0 ==> self.pf_selected < self.port_forwards@.len()
    }

    /// Applies an edit to the focused text field.
    pub fn edit_current_field(&mut self, e: Edit)
        ensures
            final(self)@ == edit_focused(old(self)@, e),
    {
        if let Some(field) = self.current_field_mut() {
            edit_string(field, e);
        }
        proof {
            let f = old(self)@;
            assert(final(self)@ =~= edit_focused(f, e)) by {
                assert(final(self)@.rows =~= f.rows);
            };
        }
    }

    /// Applies an edit to the selected column of the selected row.
    pub fn edit_current_row(&mut self, e: Edit)
        ensures
            final(self)@ == edit_selected_row(old(self)@, e),
    {
        if let Some(field) = self.pf_current_field_mut() {
            edit_string(field, e);
        }
        proof {
            let f = old(self)@;
            assert(final(self)@.rows =~= edit_selected_row(f, e).rows);
        }
    }
}


/// A key as the terminal reports it: its code and whether Control was held.
#[derive(PartialEq, Eq, Structural, Debug, Clone, Copy)]
pub enum KeyCode {
    Char(char),
    Esc,
    Backspace,
    Enter,
    Tab,
    BackTab,
    Up,
    Down,
    Left,
    Right,
    Other,
}

#[derive(PartialEq, Eq, Structural, Debug, Clone, Copy)]
pub struct KeyPress {
    pub code: KeyCode,
    pub ctrl: bool,
}

/// What a key does in the add-machine form besides changing it.
#[derive(PartialEq, Eq, Structural, Debug, Clone, Copy)]
pub enum FormOutcome {
    Stay,
    Submit,
    NextTab,
    PrevTab,
    Colon,
}

pub open spec fn empty_row() -> (Seq<char>, Seq<char>, Seq<char>) {
    (Seq::empty(), Seq::empty(), Seq::empty())
}

pub open spec fn form_pf_next(f: FormView) -> FormView {
    if f.rows.len() > 0 {
        FormView { pf_selected: ((f.pf_selected + 1) % (f.rows.len() as int)) as usize, ..f }
    } else {
        f
    }
}

pub open spec fn form_pf_previous(f: FormView) -> FormView {
    if f.rows.len() > 0 {
        FormView {
            pf_selected: if f.pf_selected == 0 { (f.rows.len() - 1) as usize } else { (f.pf_selected - 1) as usize },
            ..f
        }
    } else {
        f
    }
}

pub open spec fn form_add_row(f: FormView) -> FormView {
    FormView { rows: f.rows.push(empty_row()), pf_selected: f.rows.len() as usize, pf_column: 0, ..f }
}

pub open spec fn form_delete_row(f: FormView) -> FormView {
    if f.rows.len() > 0 {
        let rows = f.rows.remove(f.pf_selected as int);
        FormView {
            rows,
            pf_selected: if f.pf_selected >= rows.len() && f.pf_selected > 0 { (f.pf_selected - 1) as usize } else { f.pf_selected },
            ..f
        }
    } else {
        f
    }
}

/// The add-machine form after a key, and what else the key asks for. In
/// insert mode keys type into the focused field or the selected row;
/// otherwise they move, switch modes and areas, add and delete rows, submit
/// or switch tabs.
pub open spec fn form_key(f: FormView, k: KeyCode) -> (FormView, FormOutcome) {
    if f.inserting && f.focus_area == AddFocusArea::PortForwards {
        match k {
            KeyCode::Esc => (FormView { inserting: false, ..f }, FormOutcome::Stay),
            KeyCode::Tab => (FormView { pf_column: ((f.pf_column + 1) % 3) as usize, ..f }, FormOutcome::Stay),
            KeyCode::Backspace => (edit_selected_row(f, Edit::Pop), FormOutcome::Stay),
            KeyCode::Char(c) => (edit_selected_row(f, Edit::Push(c)), FormOutcome::Stay),
            _ => (f, FormOutcome::Stay),
        }
    } else if f.inserting {
        match k {
            KeyCode::Esc => (FormView { inserting: false, ..f }, FormOutcome::Stay),
            KeyCode::Tab => (FormView { focused_field: ((f.focused_field + 1) % 7) as usize, ..f }, FormOutcome::Stay),
            KeyCode::Backspace => (edit_focused(f, Edit::Pop), FormOutcome::Stay),
            KeyCode::Char(c) => (edit_focused(f, Edit::Push(c)), FormOutcome::Stay),
            KeyCode::Enter => (f, FormOutcome::Submit),
            _ => (f, FormOutcome::Stay),
        }
    } else if f.focus_area == AddFocusArea::PortForwards {
        if k == KeyCode::Char('j') || k == KeyCode::Down {
            (form_pf_next(f), FormOutcome::Stay)
        } else if k == KeyCode::Char('k') || k == KeyCode::Up {
            (form_pf_previous(f), FormOutcome::Stay)
        } else if k == KeyCode::Char('h') || k == KeyCode::Left {
            (FormView { focus_area: AddFocusArea::Fields, ..f }, FormOutcome::Stay)
        } else if k == KeyCode::Char('i') {
            (FormView { inserting: true, ..f }, FormOutcome::Stay)
        } else if k == KeyCode::Char('a') {
            (FormView { inserting: true, ..form_add_row(f) }, FormOutcome::Stay)
        } else if k == KeyCode::Char('x') {
            (form_delete_row(f), FormOutcome::Stay)
        } else if k == KeyCode::Char('s') {
            (f, FormOutcome::Submit)
        } else if k == KeyCode::Tab {
            (f, FormOutcome::NextTab)
        } else if k == KeyCode::BackTab {
            (f, FormOutcome::PrevTab)
        } else if k == KeyCode::Char(':') {
            (f, FormOutcome::Colon)
        } else {
            (f, FormOutcome::Stay)
        }
    } else {
        if k == KeyCode::Char('j') || k == KeyCode::Down {
            (FormView { focused_field: ((f.focused_field + 1) % 7) as usize, ..f }, FormOutcome::Stay)
        } else if k == KeyCode::Char('k') || k == KeyCode::Up {
            (FormView { focused_field: if f.focused_field == 0 { 6 } else { (f.focused_field - 1) as usize }, ..f }, FormOutcome::Stay)
        } else if k == KeyCode::Char('l') || k == KeyCode::Right {
            (FormView { focus_area: AddFocusArea::PortForwards, ..f }, FormOutcome::Stay)
        } else if k == KeyCode::Char('i') {
            (FormView { inserting: true, ..f }, FormOutcome::Stay)
        } else if k == KeyCode::Char(' ') {
            (if f.focused_field == 5 { FormView { can_be_turned_off: !f.can_be_turned_off, ..f } } else { f }, FormOutcome::Stay)
        } else if k == KeyCode::Char('s') || k == KeyCode::Enter {
            (f, FormOutcome::Submit)
        } else if k == KeyCode::Tab {
            (f, FormOutcome::NextTab)
        } else if k == KeyCode::BackTab {
            (f, FormOutcome::PrevTab)
        } else if k == KeyCode::Char(':') {
            (f, FormOutcome::Colon)
        } else {
            (f, FormOutcome::Stay)
        }
    }
}

impl AddMachineState {
    /// Applies a key to the form and says what else it asks for.
    pub fn apply_key(&mut self, k: KeyCode) -> (outcome: FormOutcome)
        requires
            old(self).wf(),
        ensures
            final(self).wf(),
            (final(self)@, outcome) == form_key(old(self)@, k),
    {
        let in_insert = self.inserting;
        let in_pf = self.focus_area == AddFocusArea::PortForwards;
        let ghost f = self@;
        if in_insert && in_pf {
            match k {
                KeyCode::Esc => { self.inserting = false; }
                KeyCode::Tab => { self.pf_next_column(); }
                KeyCode::Backspace => { self.edit_current_row(Edit::Pop); }
                KeyCode::Char(c) => { self.edit_current_row(Edit::Push(c)); }
                _ => {}
            }
            proof { assert(self@.rows =~= form_key(f, k).0.rows); }
            return FormOutcome::Stay;
        }
        if in_insert {
            let out = match k {
                KeyCode::Esc => { self.inserting = false; FormOutcome::Stay }
                KeyCode::Tab => { self.next_field(); FormOutcome::Stay }
                KeyCode::Backspace => { self.edit_current_field(Edit::Pop); FormOutcome::Stay }
                KeyCode::Char(c) => { self.edit_current_field(Edit::Push(c)); FormOutcome::Stay }
                KeyCode::Enter => FormOutcome::Submit,
                _ => FormOutcome::Stay,
            };
            proof { assert(self@.rows =~= form_key(f, k).0.rows); }
            return out;
        }
        if in_pf {
            let _rows_len = self.port_forwards.len();
            let out = if k == KeyCode::Char('j') || k == KeyCode::Down {
                self.pf_next();
                FormOutcome::Stay
            } else if k == KeyCode::Char('k') || k == KeyCode::Up {
                self.pf_previous();
                FormOutcome::Stay
            } else if k == KeyCode::Char('h') || k == KeyCode::Left {
                self.focus_area = AddFocusArea::Fields;
                FormOutcome::Stay
            } else if k == KeyCode::Char('i') {
                self.inserting = true;
                FormOutcome::Stay
            } else if k == KeyCode::Char('a') {
                self.pf_add_row();
                self.inserting = true;
                FormOutcome::Stay
            } else if k == KeyCode::Char('x') {
                self.pf_delete_row();
                FormOutcome::Stay
            } else if k == KeyCode::Char('s') {
                FormOutcome::Submit
            } else if k == KeyCode::Tab {
                FormOutcome::NextTab
            } else if k == KeyCode::BackTab {
                FormOutcome::PrevTab
            } else if k == KeyCode::Char(':') {
                FormOutcome::Colon
            } else {
                FormOutcome::Stay
            };
            proof {
                let ghost_rows = old(self).port_forwards@;
                if k == KeyCode::Char('a') {
                    assert(self@.rows =~= ghost_rows.map_values(|r: PortForwardRow| row_view(r)).push(empty_row())) by {
                        assert forall|i: int| 0 <= i < self@.rows.len() implies self@.rows[i] == ghost_rows.map_values(|r: PortForwardRow| row_view(r)).push(empty_row())[i] by {
                            if i < ghost_rows.len() {
                                assert(self.port_forwards@[i] == ghost_rows[i]);
                            } else {
                                assert(self.port_forwards@[i] == self.port_forwards@.last());
                            }
                        };
                    };
                } else if k == KeyCode::Char('x') && ghost_rows.len() > 0 {
                    assert(self@.rows =~= f.rows.remove(f.pf_selected as int));
                }
                assert(self@.rows =~= form_key(f, k).0.rows);
            }
            return out;
        }
        let out = if k == KeyCode::Char('j') || k == KeyCode::Down {
            self.next_field();
            FormOutcome::Stay
        } else if k == KeyCode::Char('k') || k == KeyCode::Up {
            self.prev_field();
            FormOutcome::Stay
        } else if k == KeyCode::Char('l') || k == KeyCode::Right {
            self.focus_area = AddFocusArea::PortForwards;
            FormOutcome::Stay
        } else if k == KeyCode::Char('i') {
            self.inserting = true;
            FormOutcome::Stay
        } else if k == KeyCode::Char(' ') {
            self.toggle_boolean();
            FormOutcome::Stay
        } else if k == KeyCode::Char('s') || k == KeyCode::Enter {
            FormOutcome::Submit
        } else if k == KeyCode::Tab {
            FormOutcome::NextTab
        } else if k == KeyCode::BackTab {
            FormOutcome::PrevTab
        } else if k == KeyCode::Char(':') {
            FormOutcome::Colon
        } else {
            FormOutcome::Stay
        };
        proof { assert(self@.rows =~= form_key(f, k).0.rows); }
        out
    }
}


/// The number of a text, when it is a `u16` as `str::parse` reads it.
pub open spec fn opt_u16(s: Seq<char>) -> Option<u16> {
    match spec_parse_unsigned(s, 65535) {
        Some(v) => Some(v as u16),
        None => None,
    }
}

/// The number of a text, when it is a `u32` as `str::parse` reads it.
pub open spec fn opt_u32(s: Seq<char>) -> Option<u32> {
    match spec_parse_unsigned(s, 4294967295) {
        Some(v) => Some(v as u32),
        None => None,
    }
}

/// The port forwards of the rows whose two ports both read as numbers, in
/// row order, each named by its row.
pub open spec fn parsed_rows(rows: Seq<(Seq<char>, Seq<char>, Seq<char>)>) -> Seq<(Option<Seq<char>>, u16, u16)>
    decreases rows.len(),
{
    if rows.len() == 0 {
        Seq::empty()
    } else {
        let r = rows.last();
        parsed_rows(rows.drop_last()) + match (opt_u16(r.1), opt_u16(r.2)) {
            (Some(l), Some(t)) => seq![(Some(r.0), l, t)],
            _ => Seq::empty(),
        }
    }
}

pub open spec fn forward_views(v: Seq<PortForward>) -> Seq<(Option<Seq<char>>, u16, u16)> {
    v.map_values(|p: PortForward| (opt_view(p.name), p.local_port, p.target_port))
}

/// The request a submitted form makes: the texts as typed, an empty
/// description as none, the numbers as they read (unreadable ones as none),
/// and the rows whose ports read.
pub open spec fn submitted(f: FormView, p: AddMachinePayload) -> bool {
    &&& p.mac@ == f.mac
    &&& p.ip@ == f.ip
    &&& p.name@ == f.name
    &&& opt_view(p.description) == (if f.description.len() == 0 { None } else { Some(f.description) })
    &&& p.turn_off_port == opt_u16(f.turn_off_port)
    &&& p.can_be_turned_off == f.can_be_turned_off
    &&& p.inactivity_period == opt_u32(f.inactivity_period)
    &&& p.port_forwards matches Some(v) && forward_views(v@) == parsed_rows(f.rows)
}

/// The port forwards of the rows whose ports both read as numbers.
pub(crate) fn parse_rows(rows: &Vec<PortForwardRow>) -> (forwards: Vec<PortForward>)
    ensures
        forward_views(forwards@) == parsed_rows(rows@.map_values(|r: PortForwardRow| row_view(r))),
{
    let ghost views = rows@.map_values(|r: PortForwardRow| row_view(r));
    let mut forwards: Vec<PortForward> = Vec::new();
    let n = rows.len();
    let mut i: usize = 0;
    while i < n
        invariant
            n == rows@.len(),
            i <= n,
            views == rows@.map_values(|r: PortForwardRow| row_view(r)),
            forward_views(forwards@) == parsed_rows(views.take(i as int)),
        decreases n - i,
    {
        let row = &rows[i];
        let ghost before = forwards@;
        proof {
            assert(views.take(i + 1).drop_last() =~= views.take(i as int));
            assert(views.take(i + 1).last() == row_view(*row));
        }
        match (parse_u16(row.local_port.as_str()), parse_u16(row.target_port.as_str())) {
            (Some(l), Some(t)) => {
                forwards.push(PortForward { name: Some(row.name.clone()), local_port: l, target_port: t });
                proof {
                    assert(forward_views(forwards@) =~= forward_views(before).push((Some(row.name@), l, t)));
                }
            }
            _ => {
                proof {
                    assert(forward_views(forwards@) =~= forward_views(before) + Seq::empty());
                }
            }
        }
        i = i + 1;
    }
    assert(views.take(n as int) =~= views);
    forwards
}

/// A description as sent: none while empty.
pub(crate) fn optional_description(d: &String) -> (o: Option<String>)
    ensures
        opt_view(o) == (if d@.len() == 0 { None } else { Some(d@) }),
{
    if d.as_str().is_empty() {
        None
    } else {
        Some(d.clone())
    }
}

impl AddMachineState {
    /// The add-machine request for the form as it stands.
    pub fn to_payload(&self) -> (p: AddMachinePayload)
        ensures
            submitted(self@, p),
    {
        AddMachinePayload {
            mac: self.mac.clone(),
            ip: self.ip.clone(),
            name: self.name.clone(),
            description: optional_description(&self.description),
            turn_off_port: parse_u16(self.turn_off_port.as_str()),
            can_be_turned_off: self.can_be_turned_off,
            inactivity_period: parse_u32(self.inactivity_period.as_str()),
            port_forwards: Some(parse_rows(&self.port_forwards)),
        }
    }
}

/// A tab of the client: the two fixed ones, a machine's detail (by MAC) and
/// the add-machine form.
#[derive(Clone, PartialEq, Eq, Debug)]
pub enum Tab {
    Scanner,
    Machines,
    Detail(String),
    AddMachine,
}

/// A tab as a plain value.
pub enum TabView {
    Scanner,
    Machines,
    Detail(Seq<char>),
    AddMachine,
}

pub open spec fn tab_view(t: Tab) -> TabView {
    match t {
        Tab::Scanner => TabView::Scanner,
        Tab::Machines => TabView::Machines,
        Tab::Detail(mac) => TabView::Detail(mac@),
        Tab::AddMachine => TabView::AddMachine,
    }
}

pub open spec fn tab_views(tabs: Seq<Tab>) -> Seq<TabView> {
    tabs.map_values(|t: Tab| tab_view(t))
}

/// Whether two tabs are the same tab.
pub fn same_tab(a: &Tab, b: &Tab) -> (eq: bool)
    ensures
        eq == (tab_view(*a) == tab_view(*b)),
{
    match (a, b) {
        (Tab::Scanner, Tab::Scanner) => true,
        (Tab::Machines, Tab::Machines) => true,
        (Tab::AddMachine, Tab::AddMachine) => true,
        (Tab::Detail(x), Tab::Detail(y)) => str_eq(x.as_str(), y.as_str()),
        _ => false,
    }
}


#[derive(PartialEq, Eq, Structural, Debug, Clone, Copy)]
pub enum NotificationLevel {
    Success,
    Error,
    Info,
}

/// A message shown in the footer for a while. Times are nanoseconds of a
/// monotonic clock.
pub struct Notification {
    pub message: String,
    pub level: NotificationLevel,
    pub created_at: u64,
}

/// How long a notification is shown.
pub const NOTIFICATION_NANOS: u64 = 3_000_000_000;

pub open spec fn is_recent(n: Notification, now: u64) -> bool {
    (if now >= n.created_at { now - n.created_at } else { 0 }) < NOTIFICATION_NANOS
}

/// The notifications still shown at `now`, in order.
pub open spec fn recent_notices(s: Seq<Notification>, now: u64) -> Seq<Notification>
    decreases s.len(),
{
    if s.len() == 0 {
        s
    } else if is_recent(s.last(), now) {
        recent_notices(s.drop_last(), now).push(s.last())
    } else {
        recent_notices(s.drop_last(), now)
    }
}

/// What a key asks of the surroundings of the client state.
#[derive(PartialEq, Eq, Debug)]
pub enum Command {
    Nothing,
    /// Delete the machine with this MAC.
    Delete(String),
    /// Send this add-machine request.
    SubmitAddMachine(AddMachinePayload),
    /// Send the machine detail screen's form as an update.
    SubmitUpdateMachine,
    /// Wake the machine with this MAC.
    Wake(String),
    /// Turn off the machine with this MAC.
    TurnOff(String),
    /// Start a fresh detail screen for this MAC and load its machine.
    LoadDetail(String),
    /// Mark the scanner busy, clear its devices and scan this interface.
    Scan(String),
    /// A change to the machine list screen.
    Machines(MachinesAction),
    /// A change to the scanner screen.
    Scanner(ScannerAction),
    /// A change to the machine detail screen.
    Detail(DetailAction),
    /// Reload the machine list.
    FetchMachines,
    /// Show this error on the machine detail screen.
    DetailError(String),
}

/// The two panels of the scanner screen.
#[derive(PartialEq, Eq, Structural, Debug, Clone, Copy)]
pub enum ScannerPanel {
    Interfaces,
    Devices,
}

/// Whether keys on the detail screen move around or type.
#[derive(PartialEq, Eq, Structural, Debug, Clone, Copy)]
pub enum DetailMode {
    Normal,
    Insert,
}

/// Which part of the detail screen has the focus.
#[derive(PartialEq, Eq, Structural, Debug, Clone, Copy)]
pub enum DetailFocus {
    Fields,
    PortForwards,
}

/// What the detail screen shows to its keys.
#[derive(Debug, Clone)]
pub struct DetailContext {
    pub mode: DetailMode,
    pub focus: DetailFocus,
    pub mac: String,
}

/// What the key handlers read of the machine list, scanner and detail
/// screens: whether the list is being filtered and the machine it has
/// selected, the scanner's panel and the interface and device it has
/// selected, and the detail screen, when one was opened.
#[derive(Debug, Clone)]
pub struct ScreenContext {
    pub machines_filtering: bool,
    pub selected_machine: Option<String>,
    pub scanner_panel: ScannerPanel,
    pub selected_interface: Option<String>,
    pub selected_device: Option<DiscoveredDevice>,
    pub detail: Option<DetailContext>,
}

/// A change a key makes to the machine list screen.
#[derive(PartialEq, Eq, Structural, Debug, Clone, Copy)]
pub enum MachinesAction {
    /// Stop filtering and clear the filter.
    CloseFilter,
    EditFilter(Edit),
    /// Stop filtering and keep the filter.
    EndFilter,
    /// Start filtering with an empty filter.
    StartFilter,
    Next,
    Previous,
}

/// A change a key makes to the scanner screen.
#[derive(PartialEq, Eq, Structural, Debug, Clone, Copy)]
pub enum ScannerAction {
    Next,
    Previous,
    ShowPanel(ScannerPanel),
}

/// A change a key makes to the machine detail screen.
#[derive(PartialEq, Eq, Structural, Debug, Clone, Copy)]
pub enum DetailAction {
    SetMode(DetailMode),
    NextColumn,
    EditRow(Edit),
    NextField,
    PrevField,
    EditField(Edit),
    NextRow,
    PreviousRow,
    Focus(DetailFocus),
    /// Add a port-forward row and start typing into it.
    AddRowAndInsert,
    DeleteRow,
    Toggle,
}

/// The state of the terminal client that its keys and replies act on.
pub struct App {
    pub active_tab_index: usize,
    tabs: Vec<Tab>,
    pub add_machine_state: AddMachineState,
    pub confirm_delete: bool,
    notifications: Vec<Notification>,
    colon_pressed: bool,
    quit: bool,
    last_refresh: u64,
}

/// The first position of `t` in `tabs`.
pub open spec fn is_first_position(tabs: Seq<TabView>, t: TabView, i: int) -> bool {
    0 <= i < tabs.len() && tabs[i] == t && forall|j: int| 0 <= j < i ==> tabs[j] != t
}

impl App {
    pub closed spec fn tab_list(&self) -> Seq<TabView> {
        tab_views(self.tabs@)
    }

    pub closed spec fn notices(&self) -> Seq<Notification> {
        self.notifications@
    }

    pub closed spec fn active(&self) -> usize {
        self.active_tab_index
    }

    pub closed spec fn form(&self) -> AddMachineState {
        self.add_machine_state
    }

    pub closed spec fn confirming(&self) -> bool {
        self.confirm_delete
    }

    pub closed spec fn quitting(&self) -> bool {
        self.quit
    }

    pub closed spec fn colon(&self) -> bool {
        self.colon_pressed
    }

    /// The tabs always include the two fixed ones, the active index is in
    /// range, and the form's selections are valid.
    pub closed spec fn wf(&self) -> bool {
        &&& self.tab_list().len() >= 2
        &&& self.active_tab_index < self.tab_list().len()
        &&& self.add_machine_state.wf()
    }

    /// The scanner and machine tabs, with the machine list active.
    pub fn new(now: u64) -> (app: App)
        ensures
            app@.last_refresh == now,
            app.wf(),
            app.tab_list() == seq![TabView::Scanner, TabView::Machines],
            app.active() == 1,
            app.form()@ == AddMachineState::new_view(),
            !app.confirming(),
            app.notices().len() == 0,
            !app.colon(),
            !app.quitting(),
    {
        let mut tabs: Vec<Tab> = Vec::new();
        tabs.push(Tab::Scanner);
        tabs.push(Tab::Machines);
        let app = App {
            active_tab_index: 1,
            tabs,
            add_machine_state: AddMachineState::new(),
            confirm_delete: false,
            notifications: Vec::new(),
            colon_pressed: false,
            quit: false,
            last_refresh: now,
        };
        assert(app.tab_list() =~= seq![TabView::Scanner, TabView::Machines]);
        assert(app.form()@.rows =~= Seq::<(Seq<char>, Seq<char>, Seq<char>)>::empty());
        assert(app.form()@ =~= AddMachineState::new_view());
        app
    }

    pub fn should_quit(&self) -> (q: bool)
        ensures
            q == self.quitting(),
    {
        self.quit
    }

    pub fn tabs(&self) -> (tabs: &[Tab])
        ensures
            tab_views(tabs@) == self.tab_list(),
    {
        self.tabs.as_slice()
    }

    pub fn active_tab(&self) -> (t: Option<&Tab>)
        ensures
            match t {
                Some(tab) => self.active() < self.tab_list().len() && tab_view(*tab) == self.tab_list()[self.active() as int],
                None => self.active() >= self.tab_list().len(),
            },
    {
        if self.active_tab_index < self.tabs.len() {
            Some(&self.tabs[self.active_tab_index])
        } else {
            None
        }
    }

    /// The newest notification, while it is less than three seconds old.
    pub fn current_notification(&self, now: u64) -> (n: Option<&Notification>)
        ensures
            match n {
                Some(x) => self.notices().len() > 0 && *x == self.notices().last() && is_recent(*x, now),
                None => self.notices().len() == 0 || !is_recent(self.notices().last(), now),
            },
    {
        let len = self.notifications.len();
        if len == 0 {
            return None;
        }
        let last = &self.notifications[len - 1];
        let age = if now >= last.created_at { now - last.created_at } else { 0 };
        if age < NOTIFICATION_NANOS {
            Some(last)
        } else {
            None
        }
    }

    /// Shows a message from `now` on.
    pub fn notify(&mut self, message: String, level: NotificationLevel, now: u64)
        ensures
            final(self).notices() == old(self).notices().push(Notification { message, level, created_at: now }),
            final(self).tab_list() == old(self).tab_list(),
            final(self).active() == old(self).active(),
            final(self).form() == old(self).form(),
            final(self).confirming() == old(self).confirming(),
            final(self).colon() == old(self).colon(),
            final(self).quitting() == old(self).quitting(),
    {
        self.notifications.push(Notification { message, level, created_at: now });
    }

    /// Drops the notifications that are no longer shown.
    pub fn retain_recent(&mut self, now: u64)
        ensures
            final(self).notices() == recent_notices(old(self).notices(), now),
            final(self).tab_list() == old(self).tab_list(),
            final(self).active() == old(self).active(),
            final(self).form() == old(self).form(),
            final(self).confirming() == old(self).confirming(),
            final(self).colon() == old(self).colon(),
            final(self).quitting() == old(self).quitting(),
    {
        let ghost all = self.notifications@;
        let mut kept: Vec<Notification> = Vec::new();
        let mut rest: Vec<Notification> = Vec::new();
        std::mem::swap(&mut rest, &mut self.notifications);
        for x in it: rest
            invariant
                it.seq() == all,
                kept@ == recent_notices(all.take(it.index()), now),
        {
            proof {
                assert(it.seq()[it.index()] == x);
                assert(all.take(it.index() + 1).drop_last() =~= all.take(it.index()));
            }
            let age = if now >= x.created_at { now - x.created_at } else { 0 };
            if age < NOTIFICATION_NANOS {
                kept.push(x);
            }
        }
        assert(all.take(all.len() as int) =~= all);
        self.notifications = kept;
    }
}

/// How often the machine list is reloaded, in nanoseconds.
pub const REFRESH_NANOS: u64 = 30_000_000_000;

/// Whether a reload made at `last` is due again at `now`; a clock reading
/// before `last` counts as no time passed.
pub open spec fn refresh_due(last: u64, now: u64) -> bool {
    now >= last && now - last >= REFRESH_NANOS
}

impl App {
    /// Whether the machine list is due for a reload at `now`; when it is,
    /// `now` becomes the time of the last reload.
    pub fn check_refresh(&mut self, now: u64) -> (due: bool)
        requires
            old(self).wf(),
        ensures
            final(self).wf(),
            due == refresh_due(old(self)@.last_refresh, now),
            final(self)@ == if due { AppView { last_refresh: now, ..old(self)@ } } else { old(self)@ },
    {
        let elapsed = if now >= self.last_refresh { now - self.last_refresh } else { 0 };
        if elapsed >= REFRESH_NANOS {
            self.last_refresh = now;
            assert(self@ =~= AppView { last_refresh: now, ..old(self)@ });
            true
        } else {
            false
        }
    }
}

impl AddMachineState {
    pub open spec fn new_view() -> FormView {
        FormView {
            name: Seq::empty(),
            mac: Seq::empty(),
            ip: Seq::empty(),
            description: Seq::empty(),
            turn_off_port: Seq::empty(),
            can_be_turned_off: false,
            inactivity_period: "30"@,
            focused_field: 0,
            inserting: false,
            error: None,
            rows: Seq::empty(),
            focus_area: AddFocusArea::Fields,
            pf_selected: 0,
            pf_column: 0,
        }
    }
}


/// The client state as plain values.
#[verifier::ext_equal]
pub struct AppView {
    pub tabs: Seq<TabView>,
    pub active: usize,
    pub form: FormView,
    pub confirm_delete: bool,
    pub colon: bool,
    pub quit: bool,
    pub last_refresh: u64,
    pub notices: Seq<Notification>,
}

impl View for App {
    type V = AppView;

    closed spec fn view(&self) -> AppView {
        AppView {
            tabs: tab_views(self.tabs@),
            active: self.active_tab_index,
            form: self.add_machine_state@,
            confirm_delete: self.confirm_delete,
            colon: self.colon_pressed,
            quit: self.quit,
            last_refresh: self.last_refresh,
            notices: self.notifications@,
        }
    }
}

/// The tabs after asking for `t`: an open tab is activated where it first
/// occurs; another is added at the end and activated.
pub open spec fn spec_open_tab(a: AppView, t: TabView) -> AppView {
    if exists|i: int| is_first_position(a.tabs, t, i) {
        AppView { active: (choose|i: int| is_first_position(a.tabs, t, i)) as usize, ..a }
    } else {
        AppView { tabs: a.tabs.push(t), active: a.tabs.len() as usize, ..a }
    }
}

/// The tabs after closing the active one. The scanner and machine tabs stay,
/// as do the last two tabs; the index stays in range.
pub open spec fn spec_close_tab(a: AppView) -> AppView {
    if a.tabs.len() <= 2 {
        a
    } else if a.tabs[a.active as int] is Scanner || a.tabs[a.active as int] is Machines {
        a
    } else {
        let tabs = a.tabs.remove(a.active as int);
        AppView { tabs, active: if a.active >= tabs.len() { (tabs.len() - 1) as usize } else { a.active }, ..a }
    }
}

pub open spec fn spec_next_tab(a: AppView) -> AppView {
    AppView { active: ((a.active + 1) % (a.tabs.len() as int)) as usize, ..a }
}

pub open spec fn spec_prev_tab(a: AppView) -> AppView {
    AppView { active: if a.active == 0 { (a.tabs.len() - 1) as usize } else { (a.active - 1) as usize }, ..a }
}

/// What a key asks for beyond the client state, with the MACs and
/// interface names as plain values.
pub enum KeyEffect {
    Nothing,
    Submit,
    SubmitUpdate,
    Delete(Seq<char>),
    Wake(Seq<char>),
    TurnOff(Seq<char>),
    LoadDetail(Seq<char>),
    Scan(Seq<char>),
    Machines(MachinesAction),
    Scanner(ScannerAction),
    Detail(DetailAction),
}

/// The machine a confirmed deletion is for: the detail screen's, else the
/// one selected in the list.
pub open spec fn spec_delete_target(ctx: ScreenContext) -> Option<Seq<char>> {
    match ctx.detail {
        Some(d) => Some(d.mac@),
        None => opt_view(ctx.selected_machine),
    }
}

/// The keys every screen shares: Tab and BackTab switch tabs, `:` starts a
/// command.
pub open spec fn common_key(a: AppView, k: KeyCode) -> (AppView, KeyEffect) {
    if k == KeyCode::Tab {
        (spec_next_tab(a), KeyEffect::Nothing)
    } else if k == KeyCode::BackTab {
        (spec_prev_tab(a), KeyEffect::Nothing)
    } else if k == KeyCode::Char(':') {
        (AppView { colon: true, ..a }, KeyEffect::Nothing)
    } else {
        (a, KeyEffect::Nothing)
    }
}

/// A key on the machine list. While filtering, keys edit the filter;
/// otherwise they move, wake, turn off, ask to delete, add a machine or
/// open the selected machine's detail.
pub open spec fn machines_key(a: AppView, ctx: ScreenContext, k: KeyCode) -> (AppView, KeyEffect) {
    let sel = opt_view(ctx.selected_machine);
    if ctx.machines_filtering {
        (a, match k {
            KeyCode::Esc => KeyEffect::Machines(MachinesAction::CloseFilter),
            KeyCode::Backspace => KeyEffect::Machines(MachinesAction::EditFilter(Edit::Pop)),
            KeyCode::Char(c) => KeyEffect::Machines(MachinesAction::EditFilter(Edit::Push(c))),
            KeyCode::Enter => KeyEffect::Machines(MachinesAction::EndFilter),
            _ => KeyEffect::Nothing,
        })
    } else if k == KeyCode::Char('j') || k == KeyCode::Down {
        (a, KeyEffect::Machines(MachinesAction::Next))
    } else if k == KeyCode::Char('k') || k == KeyCode::Up {
        (a, KeyEffect::Machines(MachinesAction::Previous))
    } else if k == KeyCode::Char('/') {
        (a, KeyEffect::Machines(MachinesAction::StartFilter))
    } else if k == KeyCode::Char('w') {
        (a, match sel { Some(m) => KeyEffect::Wake(m), None => KeyEffect::Nothing })
    } else if k == KeyCode::Char('t') {
        (a, match sel { Some(m) => KeyEffect::TurnOff(m), None => KeyEffect::Nothing })
    } else if k == KeyCode::Char('d') {
        (if sel is Some { AppView { confirm_delete: true, ..a } } else { a }, KeyEffect::Nothing)
    } else if k == KeyCode::Char('a') {
        (spec_open_tab(AppView { form: AddMachineState::new_view(), ..a }, TabView::AddMachine), KeyEffect::Nothing)
    } else if k == KeyCode::Enter {
        match sel {
            Some(m) => (spec_open_tab(a, TabView::Detail(m)), KeyEffect::LoadDetail(m)),
            None => (a, KeyEffect::Nothing),
        }
    } else {
        common_key(a, k)
    }
}

/// An empty add-machine form filled in from a discovered device.
pub open spec fn prefilled(d: DiscoveredDevice) -> FormView {
    FormView {
        mac: d.mac@,
        ip: d.ip@,
        name: match d.hostname {
            Some(h) => h@,
            None => Seq::empty(),
        },
        ..AddMachineState::new_view()
    }
}

/// A key on the scanner. Enter scans the selected interface, or opens the
/// add-machine form for the selected device.
pub open spec fn scanner_key(a: AppView, ctx: ScreenContext, k: KeyCode) -> (AppView, KeyEffect) {
    if k == KeyCode::Char('j') || k == KeyCode::Down {
        (a, KeyEffect::Scanner(ScannerAction::Next))
    } else if k == KeyCode::Char('k') || k == KeyCode::Up {
        (a, KeyEffect::Scanner(ScannerAction::Previous))
    } else if k == KeyCode::Char('h') || k == KeyCode::Left {
        (a, KeyEffect::Scanner(ScannerAction::ShowPanel(ScannerPanel::Interfaces)))
    } else if k == KeyCode::Char('l') || k == KeyCode::Right {
        (a, KeyEffect::Scanner(ScannerAction::ShowPanel(ScannerPanel::Devices)))
    } else if k == KeyCode::Enter {
        match ctx.scanner_panel {
            ScannerPanel::Interfaces => (a, match opt_view(ctx.selected_interface) {
                Some(n) => KeyEffect::Scan(n),
                None => KeyEffect::Nothing,
            }),
            ScannerPanel::Devices => match ctx.selected_device {
                Some(d) => (spec_open_tab(AppView { form: prefilled(d), ..a }, TabView::AddMachine), KeyEffect::Nothing),
                None => (a, KeyEffect::Nothing),
            },
        }
    } else {
        common_key(a, k)
    }
}

/// A key on the machine detail screen; nothing happens before the screen
/// exists. In insert mode keys type into the focused field or row;
/// otherwise they move, switch modes and areas, add and delete rows, save,
/// wake, turn off or ask to delete.
pub open spec fn detail_key(a: AppView, ctx: ScreenContext, k: KeyCode) -> (AppView, KeyEffect) {
    match ctx.detail {
        None => (a, KeyEffect::Nothing),
        Some(d) => if d.mode == DetailMode::Insert && d.focus == DetailFocus::PortForwards {
            (a, match k {
                KeyCode::Esc => KeyEffect::Detail(DetailAction::SetMode(DetailMode::Normal)),
                KeyCode::Tab => KeyEffect::Detail(DetailAction::NextColumn),
                KeyCode::Backspace => KeyEffect::Detail(DetailAction::EditRow(Edit::Pop)),
                KeyCode::Char(c) => KeyEffect::Detail(DetailAction::EditRow(Edit::Push(c))),
                _ => KeyEffect::Nothing,
            })
        } else if d.mode == DetailMode::Insert {
            (a, match k {
                KeyCode::Esc => KeyEffect::Detail(DetailAction::SetMode(DetailMode::Normal)),
                KeyCode::Tab => KeyEffect::Detail(DetailAction::NextField),
                KeyCode::Backspace => KeyEffect::Detail(DetailAction::EditField(Edit::Pop)),
                KeyCode::Char(c) => KeyEffect::Detail(DetailAction::EditField(Edit::Push(c))),
                _ => KeyEffect::Nothing,
            })
        } else if d.focus == DetailFocus::PortForwards {
            if k == KeyCode::Char('j') || k == KeyCode::Down {
                (a, KeyEffect::Detail(DetailAction::NextRow))
            } else if k == KeyCode::Char('k') || k == KeyCode::Up {
                (a, KeyEffect::Detail(DetailAction::PreviousRow))
            } else if k == KeyCode::Char('h') || k == KeyCode::Left {
                (a, KeyEffect::Detail(DetailAction::Focus(DetailFocus::Fields)))
            } else if k == KeyCode::Char('i') {
                (a, KeyEffect::Detail(DetailAction::SetMode(DetailMode::Insert)))
            } else if k == KeyCode::Char('a') {
                (a, KeyEffect::Detail(DetailAction::AddRowAndInsert))
            } else if k == KeyCode::Char('x') {
                (a, KeyEffect::Detail(DetailAction::DeleteRow))
            } else if k == KeyCode::Char('s') {
                (a, KeyEffect::SubmitUpdate)
            } else {
                common_key(a, k)
            }
        } else {
            if k == KeyCode::Char('j') || k == KeyCode::Down {
                (a, KeyEffect::Detail(DetailAction::NextField))
            } else if k == KeyCode::Char('k') || k == KeyCode::Up {
                (a, KeyEffect::Detail(DetailAction::PrevField))
            } else if k == KeyCode::Char('l') || k == KeyCode::Right {
                (a, KeyEffect::Detail(DetailAction::Focus(DetailFocus::PortForwards)))
            } else if k == KeyCode::Char('i') {
                (a, KeyEffect::Detail(DetailAction::SetMode(DetailMode::Insert)))
            } else if k == KeyCode::Char(' ') {
                (a, KeyEffect::Detail(DetailAction::Toggle))
            } else if k == KeyCode::Char('s') {
                (a, KeyEffect::SubmitUpdate)
            } else if k == KeyCode::Char('w') {
                (a, KeyEffect::Wake(d.mac@))
            } else if k == KeyCode::Char('t') {
                (a, KeyEffect::TurnOff(d.mac@))
            } else if k == KeyCode::Char('d') {
                (AppView { confirm_delete: true, ..a }, KeyEffect::Nothing)
            } else {
                common_key(a, k)
            }
        },
    }
}

/// The client after a key. Control-C quits; while a deletion waits for
/// confirmation, `y` confirms it and any key ends the wait; after `:` the
/// next key ends the command, `q` quitting; otherwise the key goes to the
/// screen of the active tab.
pub open spec fn key_step(a: AppView, ctx: ScreenContext, key: KeyPress) -> (AppView, KeyEffect) {
    if key.ctrl && key.code == KeyCode::Char('c') {
        (AppView { quit: true, ..a }, KeyEffect::Nothing)
    } else if a.confirm_delete {
        (AppView { confirm_delete: false, ..a }, if key.code == KeyCode::Char('y') {
            match spec_delete_target(ctx) {
                Some(m) => KeyEffect::Delete(m),
                None => KeyEffect::Nothing,
            }
        } else {
            KeyEffect::Nothing
        })
    } else if a.colon {
        (AppView { colon: false, quit: a.quit || key.code == KeyCode::Char('q'), ..a }, KeyEffect::Nothing)
    } else if a.active < a.tabs.len() {
        match a.tabs[a.active as int] {
            TabView::AddMachine => {
                let (f, o) = form_key(a.form, key.code);
                let b = AppView { form: f, ..a };
                match o {
                    FormOutcome::Stay => (b, KeyEffect::Nothing),
                    FormOutcome::Submit => (b, KeyEffect::Submit),
                    FormOutcome::NextTab => (spec_next_tab(b), KeyEffect::Nothing),
                    FormOutcome::PrevTab => (spec_prev_tab(b), KeyEffect::Nothing),
                    FormOutcome::Colon => (AppView { colon: true, ..b }, KeyEffect::Nothing),
                }
            },
            TabView::Machines => machines_key(a, ctx, key.code),
            TabView::Scanner => scanner_key(a, ctx, key.code),
            TabView::Detail(_) => detail_key(a, ctx, key.code),
        }
    } else {
        (AppView { colon: a.colon || key.code == KeyCode::Char(':'), ..a }, KeyEffect::Nothing)
    }
}

/// A command carries out an effect: a submission carries the request for
/// the form, the others their MAC or interface.
pub open spec fn command_for(c: Command, e: KeyEffect, form: FormView) -> bool {
    match e {
        KeyEffect::Nothing => c is Nothing,
        KeyEffect::Submit => c matches Command::SubmitAddMachine(p) && submitted(form, p),
        KeyEffect::SubmitUpdate => c is SubmitUpdateMachine,
        KeyEffect::Delete(m) => c matches Command::Delete(x) && x@ == m,
        KeyEffect::Wake(m) => c matches Command::Wake(x) && x@ == m,
        KeyEffect::TurnOff(m) => c matches Command::TurnOff(x) && x@ == m,
        KeyEffect::LoadDetail(m) => c matches Command::LoadDetail(x) && x@ == m,
        KeyEffect::Scan(m) => c matches Command::Scan(x) && x@ == m,
        KeyEffect::Machines(x) => c == Command::Machines(x),
        KeyEffect::Scanner(x) => c == Command::Scanner(x),
        KeyEffect::Detail(x) => c == Command::Detail(x),
    }
}

fn delete_target(ctx: &ScreenContext) -> (m: Option<String>)
    ensures
        opt_view(m) == spec_delete_target(*ctx),
{
    match &ctx.detail {
        Some(d) => Some(d.mac.clone()),
        None => match &ctx.selected_machine {
            Some(s) => Some(s.clone()),
            None => None,
        },
    }
}


impl App {
    /// Activates `tab`, adding it when it is not open.
    pub fn open_tab(&mut self, tab: Tab)
        requires
            old(self).wf(),
        ensures
            final(self).wf(),
            final(self)@ == spec_open_tab(old(self)@, tab_view(tab)),
    {
        let ghost t = tab_view(tab);
        let n = self.tabs.len();
        let mut i: usize = 0;
        while i < n
            invariant
                n == self.tabs@.len(),
                i <= n,
                *self == *old(self),
                old(self).wf(),
                t == tab_view(tab),
                forall|j: int| 0 <= j < i ==> tab_view(self.tabs@[j]) != t,
            decreases n - i,
        {
            if same_tab(&self.tabs[i], &tab) {
                self.active_tab_index = i;
                proof {
                    let tabs = old(self)@.tabs;
                    assert(is_first_position(tabs, t, i as int));
                    assert forall|k: int| is_first_position(tabs, t, k) implies k == i by {
                        if k < i {
                            assert(tab_view(self.tabs@[k]) != t);
                        }
                        if k > i {
                            assert(tabs[i as int] == t);
                        }
                    };
                    assert(self@ =~= spec_open_tab(old(self)@, t));
                    assert(self.tab_list().len() == n);
                    assert(self.add_machine_state.wf());
                }
                return;
            }
            i = i + 1;
        }
        proof {
            let tabs = old(self)@.tabs;
            assert forall|k: int| !is_first_position(tabs, t, k) by {
                if 0 <= k < n {
                    assert(tab_view(self.tabs@[k]) != t);
                }
            };
        }
        self.tabs.push(tab);
        self.active_tab_index = self.tabs.len() - 1;
        proof {
            assert(self@.tabs =~= old(self)@.tabs.push(t));
            assert(self@ =~= spec_open_tab(old(self)@, t));
        }
    }

    /// Closes the active tab unless it is one of the two fixed ones.
    pub fn close_current_tab(&mut self)
        requires
            old(self).wf(),
        ensures
            final(self).wf(),
            final(self)@ == spec_close_tab(old(self)@),
    {
        if self.tabs.len() <= 2 {
            return;
        }
        let idx = self.active_tab_index;
        match &self.tabs[idx] {
            Tab::Scanner | Tab::Machines => {
                return;
            }
            _ => {}
        }
        self.tabs.remove(idx);
        if self.active_tab_index >= self.tabs.len() {
            self.active_tab_index = self.tabs.len() - 1;
        }
        proof {
            assert(self@.tabs =~= old(self)@.tabs.remove(idx as int));
            assert(self@ =~= spec_close_tab(old(self)@));
        }
    }

    /// Activates the next tab, from the last to the first.
    pub fn next_tab(&mut self)
        requires
            old(self).wf(),
        ensures
            final(self).wf(),
            final(self)@ == spec_next_tab(old(self)@),
    {
        let n = self.tabs.len();
        self.active_tab_index = (self.active_tab_index + 1) % n;
        assert(self@ =~= spec_next_tab(old(self)@));
    }

    /// Activates the previous tab, from the first to the last.
    pub fn previous_tab(&mut self)
        requires
            old(self).wf(),
        ensures
            final(self).wf(),
            final(self)@ == spec_prev_tab(old(self)@),
    {
        self.active_tab_index = if self.active_tab_index == 0 {
            self.tabs.len() - 1
        } else {
            self.active_tab_index - 1
        };
        assert(self@ =~= spec_prev_tab(old(self)@));
    }

    /// A key in the add-machine tab.
    fn handle_add_machine_key(&mut self, key: KeyPress) -> (cmd: Command)
        requires
            old(self).wf(),
            old(self)@.active < old(self)@.tabs.len(),
            old(self)@.tabs[old(self)@.active as int] is AddMachine,
        ensures
            final(self).wf(),
            ({
                let (f, o) = form_key(old(self)@.form, key.code);
                let b = AppView { form: f, ..old(self)@ };
                &&& final(self)@ == match o {
                    FormOutcome::NextTab => spec_next_tab(b),
                    FormOutcome::PrevTab => spec_prev_tab(b),
                    FormOutcome::Colon => AppView { colon: true, ..b },
                    _ => b,
                }
                &&& command_for(cmd, if o == FormOutcome::Submit { KeyEffect::Submit } else { KeyEffect::Nothing }, final(self)@.form)
            }),
    {
        let outcome = self.add_machine_state.apply_key(key.code);
        proof {
            assert(self@ =~= AppView { form: self.add_machine_state@, ..old(self)@ });
        }
        match outcome {
            FormOutcome::Stay => Command::Nothing,
            FormOutcome::Submit => Command::SubmitAddMachine(self.add_machine_state.to_payload()),
            FormOutcome::NextTab => {
                self.next_tab();
                Command::Nothing
            }
            FormOutcome::PrevTab => {
                self.previous_tab();
                Command::Nothing
            }
            FormOutcome::Colon => {
                self.colon_pressed = true;
                assert(self@ =~= AppView { colon: true, form: self.add_machine_state@, ..old(self)@ });
                Command::Nothing
            }
        }
    }

    /// Tab and BackTab switch tabs, `:` starts a command.
    fn handle_common_key(&mut self, k: KeyCode) -> (cmd: Command)
        requires
            old(self).wf(),
        ensures
            final(self).wf(),
            final(self)@ == common_key(old(self)@, k).0,
            command_for(cmd, common_key(old(self)@, k).1, final(self)@.form),
    {
        if k == KeyCode::Tab {
            self.next_tab();
        } else if k == KeyCode::BackTab {
            self.previous_tab();
        } else if k == KeyCode::Char(':') {
            self.colon_pressed = true;
            assert(self@ =~= AppView { colon: true, ..old(self)@ });
        }
        Command::Nothing
    }

    /// Replaces the add-machine form and activates its tab.
    fn open_add_machine(&mut self, form: AddMachineState)
        requires
            old(self).wf(),
            form.wf(),
        ensures
            final(self).wf(),
            final(self)@ == spec_open_tab(AppView { form: form@, ..old(self)@ }, TabView::AddMachine),
    {
        self.add_machine_state = form;
        assert(self@ =~= AppView { form: form@, ..old(self)@ });
        self.open_tab(Tab::AddMachine);
    }

    /// A key on the machine list.
    fn handle_machines_key(&mut self, k: KeyCode, ctx: &ScreenContext) -> (cmd: Command)
        requires
            old(self).wf(),
        ensures
            final(self).wf(),
            final(self)@ == machines_key(old(self)@, *ctx, k).0,
            command_for(cmd, machines_key(old(self)@, *ctx, k).1, final(self)@.form),
    {
        if ctx.machines_filtering {
            return match k {
                KeyCode::Esc => Command::Machines(MachinesAction::CloseFilter),
                KeyCode::Backspace => Command::Machines(MachinesAction::EditFilter(Edit::Pop)),
                KeyCode::Char(c) => Command::Machines(MachinesAction::EditFilter(Edit::Push(c))),
                KeyCode::Enter => Command::Machines(MachinesAction::EndFilter),
                _ => Command::Nothing,
            };
        }
        if k == KeyCode::Char('j') || k == KeyCode::Down {
            Command::Machines(MachinesAction::Next)
        } else if k == KeyCode::Char('k') || k == KeyCode::Up {
            Command::Machines(MachinesAction::Previous)
        } else if k == KeyCode::Char('/') {
            Command::Machines(MachinesAction::StartFilter)
        } else if k == KeyCode::Char('w') {
            match &ctx.selected_machine {
                Some(m) => Command::Wake(m.clone()),
                None => Command::Nothing,
            }
        } else if k == KeyCode::Char('t') {
            match &ctx.selected_machine {
                Some(m) => Command::TurnOff(m.clone()),
                None => Command::Nothing,
            }
        } else if k == KeyCode::Char('d') {
            if ctx.selected_machine.is_some() {
                self.confirm_delete = true;
                assert(self@ =~= AppView { confirm_delete: true, ..old(self)@ });
            }
            Command::Nothing
        } else if k == KeyCode::Char('a') {
            let form = AddMachineState::new();
            assert(form@ =~= AddMachineState::new_view());
            self.open_add_machine(form);
            Command::Nothing
        } else if k == KeyCode::Enter {
            match &ctx.selected_machine {
                Some(m) => {
                    self.open_tab(Tab::Detail(m.clone()));
                    Command::LoadDetail(m.clone())
                }
                None => Command::Nothing,
            }
        } else {
            self.handle_common_key(k)
        }
    }

    /// A key on the scanner.
    fn handle_scanner_key(&mut self, k: KeyCode, ctx: &ScreenContext) -> (cmd: Command)
        requires
            old(self).wf(),
        ensures
            final(self).wf(),
            final(self)@ == scanner_key(old(self)@, *ctx, k).0,
            command_for(cmd, scanner_key(old(self)@, *ctx, k).1, final(self)@.form),
    {
        if k == KeyCode::Char('j') || k == KeyCode::Down {
            Command::Scanner(ScannerAction::Next)
        } else if k == KeyCode::Char('k') || k == KeyCode::Up {
            Command::Scanner(ScannerAction::Previous)
        } else if k == KeyCode::Char('h') || k == KeyCode::Left {
            Command::Scanner(ScannerAction::ShowPanel(ScannerPanel::Interfaces))
        } else if k == KeyCode::Char('l') || k == KeyCode::Right {
            Command::Scanner(ScannerAction::ShowPanel(ScannerPanel::Devices))
        } else if k == KeyCode::Enter {
            match ctx.scanner_panel {
                ScannerPanel::Interfaces => match &ctx.selected_interface {
                    Some(name) => Command::Scan(name.clone()),
                    None => Command::Nothing,
                },
                ScannerPanel::Devices => match &ctx.selected_device {
                    Some(d) => {
                        let mut form = AddMachineState::new();
                        let hostname: Option<&str> = match &d.hostname {
                            Some(h) => Some(h.as_str()),
                            None => None,
                        };
                        form.prefill(d.mac.as_str(), d.ip.as_str(), hostname);
                        assert(form@ =~= prefilled(*d));
                        self.open_add_machine(form);
                        Command::Nothing
                    }
                    None => Command::Nothing,
                },
            }
        } else {
            self.handle_common_key(k)
        }
    }

    /// A key on the machine detail screen.
    fn handle_detail_key(&mut self, k: KeyCode, ctx: &ScreenContext) -> (cmd: Command)
        requires
            old(self).wf(),
        ensures
            final(self).wf(),
            final(self)@ == detail_key(old(self)@, *ctx, k).0,
            command_for(cmd, detail_key(old(self)@, *ctx, k).1, final(self)@.form),
    {
        let d = match &ctx.detail {
            Some(d) => d,
            None => {
                return Command::Nothing;
            }
        };
        let in_insert = d.mode == DetailMode::Insert;
        let in_pf = d.focus == DetailFocus::PortForwards;
        if in_insert && in_pf {
            return match k {
                KeyCode::Esc => Command::Detail(DetailAction::SetMode(DetailMode::Normal)),
                KeyCode::Tab => Command::Detail(DetailAction::NextColumn),
                KeyCode::Backspace => Command::Detail(DetailAction::EditRow(Edit::Pop)),
                KeyCode::Char(c) => Command::Detail(DetailAction::EditRow(Edit::Push(c))),
                _ => Command::Nothing,
            };
        }
        if in_insert {
            return match k {
                KeyCode::Esc => Command::Detail(DetailAction::SetMode(DetailMode::Normal)),
                KeyCode::Tab => Command::Detail(DetailAction::NextField),
                KeyCode::Backspace => Command::Detail(DetailAction::EditField(Edit::Pop)),
                KeyCode::Char(c) => Command::Detail(DetailAction::EditField(Edit::Push(c))),
                _ => Command::Nothing,
            };
        }
        if in_pf {
            if k == KeyCode::Char('j') || k == KeyCode::Down {
                Command::Detail(DetailAction::NextRow)
            } else if k == KeyCode::Char('k') || k == KeyCode::Up {
                Command::Detail(DetailAction::PreviousRow)
            } else if k == KeyCode::Char('h') || k == KeyCode::Left {
                Command::Detail(DetailAction::Focus(DetailFocus::Fields))
            } else if k == KeyCode::Char('i') {
                Command::Detail(DetailAction::SetMode(DetailMode::Insert))
            } else if k == KeyCode::Char('a') {
                Command::Detail(DetailAction::AddRowAndInsert)
            } else if k == KeyCode::Char('x') {
                Command::Detail(DetailAction::DeleteRow)
            } else if k == KeyCode::Char('s') {
                Command::SubmitUpdateMachine
            } else {
                self.handle_common_key(k)
            }
        } else {
            if k == KeyCode::Char('j') || k == KeyCode::Down {
                Command::Detail(DetailAction::NextField)
            } else if k == KeyCode::Char('k') || k == KeyCode::Up {
                Command::Detail(DetailAction::PrevField)
            } else if k == KeyCode::Char('l') || k == KeyCode::Right {
                Command::Detail(DetailAction::Focus(DetailFocus::PortForwards))
            } else if k == KeyCode::Char('i') {
                Command::Detail(DetailAction::SetMode(DetailMode::Insert))
            } else if k == KeyCode::Char(' ') {
                Command::Detail(DetailAction::Toggle)
            } else if k == KeyCode::Char('s') {
                Command::SubmitUpdateMachine
            } else if k == KeyCode::Char('w') {
                Command::Wake(d.mac.clone())
            } else if k == KeyCode::Char('t') {
                Command::TurnOff(d.mac.clone())
            } else if k == KeyCode::Char('d') {
                self.confirm_delete = true;
                assert(self@ =~= AppView { confirm_delete: true, ..old(self)@ });
                Command::Nothing
            } else {
                self.handle_common_key(k)
            }
        }
    }

    /// What a key press does to the client, given what the screens show.
    pub fn handle_key(&mut self, key: KeyPress, ctx: &ScreenContext) -> (cmd: Command)
        requires
            old(self).wf(),
        ensures
            final(self).wf(),
            final(self)@ == key_step(old(self)@, *ctx, key).0,
            command_for(cmd, key_step(old(self)@, *ctx, key).1, final(self)@.form),
    {
        if key.ctrl && key.code == KeyCode::Char('c') {
            self.quit = true;
            assert(self@ =~= AppView { quit: true, ..old(self)@ });
            return Command::Nothing;
        }
        if self.confirm_delete {
            self.confirm_delete = false;
            assert(self@ =~= AppView { confirm_delete: false, ..old(self)@ });
            if key.code == KeyCode::Char('y') {
                return match delete_target(ctx) {
                    Some(m) => Command::Delete(m),
                    None => Command::Nothing,
                };
            }
            return Command::Nothing;
        }
        if self.colon_pressed {
            self.colon_pressed = false;
            if key.code == KeyCode::Char('q') {
                self.quit = true;
            }
            assert(self@ =~= AppView { colon: false, quit: old(self)@.quit || key.code == KeyCode::Char('q'), ..old(self)@ });
            return Command::Nothing;
        }
        if self.active_tab_index >= self.tabs.len() {
            if key.code == KeyCode::Char(':') {
                self.colon_pressed = true;
            }
            assert(self@ =~= AppView { colon: old(self)@.colon || key.code == KeyCode::Char(':'), ..old(self)@ });
            return Command::Nothing;
        }
        let idx = self.active_tab_index;
        assert(tab_view(self.tabs@[idx as int]) == self@.tabs[idx as int]);
        match &self.tabs[idx] {
            Tab::AddMachine => self.handle_add_machine_key(key),
            Tab::Machines => self.handle_machines_key(key.code, ctx),
            Tab::Scanner => self.handle_scanner_key(key.code, ctx),
            Tab::Detail(_) => self.handle_detail_key(key.code, ctx),
        }
    }
}


/// A reply from the server, as far as the client state takes it in.
pub enum ApiOutcome {
    /// A wake or turn-off request finished with this message or error.
    ActionResult(Result<String, String>),
    AddResult(Result<(), String>),
    UpdateResult(Result<(), String>),
    DeleteResult(Result<(), String>),
    /// A network scan finished (its devices go to the scanner screen).
    ScanResult(Result<(), String>),
    MachinesFailed(String),
    InterfacesFailed(String),
}

/// `new` is `old` with one more notification at `now`.
pub open spec fn notified(old: Seq<Notification>, new: Seq<Notification>, msg: Seq<char>, level: NotificationLevel, now: u64) -> bool {
    &&& new.len() == old.len() + 1
    &&& new.drop_last() == old
    &&& new.last().message@ == msg
    &&& new.last().level == level
    &&& new.last().created_at == now
}

/// What a reply does: success and failure messages are shown; an added or
/// deleted machine closes its tab and reloads the list; an updated machine
/// reloads it; a failed addition is shown in the form and a failed update on
/// the detail screen.
pub open spec fn outcome_step(a: AppView, b: AppView, o: ApiOutcome, cmd: Command, now: u64) -> bool {
    match o {
        ApiOutcome::ActionResult(Ok(m)) =>
            notified(a.notices, b.notices, m@, NotificationLevel::Success, now) && b == AppView { notices: b.notices, ..a } && cmd is Nothing,
        ApiOutcome::ActionResult(Err(e)) =>
            notified(a.notices, b.notices, "Action failed: "@ + e@, NotificationLevel::Error, now) && b == AppView { notices: b.notices, ..a } && cmd is Nothing,
        ApiOutcome::AddResult(Ok(())) =>
            notified(a.notices, b.notices, "Machine added"@, NotificationLevel::Success, now)
                && b == AppView { notices: b.notices, ..spec_close_tab(a) } && cmd is FetchMachines,
        ApiOutcome::AddResult(Err(e)) =>
            b == AppView { form: FormView { error: Some("Failed: "@ + e@), ..a.form }, ..a } && cmd is Nothing,
        ApiOutcome::UpdateResult(Ok(())) =>
            notified(a.notices, b.notices, "Machine updated"@, NotificationLevel::Success, now) && b == AppView { notices: b.notices, ..a } && cmd is FetchMachines,
        ApiOutcome::UpdateResult(Err(e)) =>
            b == a && (cmd matches Command::DetailError(m) && m@ == "Save failed: "@ + e@),
        ApiOutcome::DeleteResult(Ok(())) =>
            notified(a.notices, b.notices, "Machine deleted"@, NotificationLevel::Success, now)
                && b == AppView { notices: b.notices, ..spec_close_tab(a) } && cmd is FetchMachines,
        ApiOutcome::DeleteResult(Err(e)) =>
            notified(a.notices, b.notices, "Delete failed: "@ + e@, NotificationLevel::Error, now) && b == AppView { notices: b.notices, ..a } && cmd is Nothing,
        ApiOutcome::ScanResult(Ok(())) =>
            notified(a.notices, b.notices, "Scan complete"@, NotificationLevel::Success, now) && b == AppView { notices: b.notices, ..a } && cmd is Nothing,
        ApiOutcome::ScanResult(Err(e)) =>
            notified(a.notices, b.notices, "Scan failed: "@ + e@, NotificationLevel::Error, now) && b == AppView { notices: b.notices, ..a } && cmd is Nothing,
        ApiOutcome::MachinesFailed(e) =>
            notified(a.notices, b.notices, "Failed to load machines: "@ + e@, NotificationLevel::Error, now) && b == AppView { notices: b.notices, ..a } && cmd is Nothing,
        ApiOutcome::InterfacesFailed(e) =>
            notified(a.notices, b.notices, "Failed to load interfaces: "@ + e@, NotificationLevel::Error, now) && b == AppView { notices: b.notices, ..a } && cmd is Nothing,
    }
}

fn prefixed(prefix: &str, text: &str) -> (s: String)
    ensures
        s@ == prefix@ + text@,
{
    let mut s = String::from_str(prefix);
    s.append(text);
    s
}

impl App {
    fn push_notice(&mut self, message: String, level: NotificationLevel, now: u64)
        requires
            old(self).wf(),
        ensures
            final(self).wf(),
            notified(old(self)@.notices, final(self)@.notices, message@, level, now),
            final(self)@ == (AppView { notices: final(self)@.notices, ..old(self)@ }),
    {
        self.notifications.push(Notification { message, level, created_at: now });
        assert(self@.notices.drop_last() =~= old(self)@.notices);
        assert(self@ =~= AppView { notices: self@.notices, ..old(self)@ });
    }

    /// Takes in a reply from the server at time `now`.
    pub fn handle_api_outcome(&mut self, outcome: ApiOutcome, now: u64) -> (cmd: Command)
        requires
            old(self).wf(),
        ensures
            final(self).wf(),
            outcome_step(old(self)@, final(self)@, outcome, cmd, now),
    {
        match outcome {
            ApiOutcome::ActionResult(Ok(m)) => {
                self.push_notice(m, NotificationLevel::Success, now);
                Command::Nothing
            }
            ApiOutcome::ActionResult(Err(e)) => {
                self.push_notice(prefixed("Action failed: ", e.as_str()), NotificationLevel::Error, now);
                Command::Nothing
            }
            ApiOutcome::AddResult(Ok(())) => {
                self.push_notice(String::from_str("Machine added"), NotificationLevel::Success, now);
                let ghost mid = self@;
                self.close_current_tab();
                proof {
                    assert(self@ =~= AppView { notices: self@.notices, ..spec_close_tab(old(self)@) });
                }
                Command::FetchMachines
            }
            ApiOutcome::AddResult(Err(e)) => {
                self.add_machine_state.error = Some(prefixed("Failed: ", e.as_str()));
                proof {
                    assert(self@.form =~= FormView { error: Some("Failed: "@ + e@), ..old(self)@.form });
                    assert(self@ =~= AppView { form: FormView { error: Some("Failed: "@ + e@), ..old(self)@.form }, ..old(self)@ });
                }
                Command::Nothing
            }
            ApiOutcome::UpdateResult(Ok(())) => {
                self.push_notice(String::from_str("Machine updated"), NotificationLevel::Success, now);
                Command::FetchMachines
            }
            ApiOutcome::UpdateResult(Err(e)) => {
                Command::DetailError(prefixed("Save failed: ", e.as_str()))
            }
            ApiOutcome::DeleteResult(Ok(())) => {
                self.push_notice(String::from_str("Machine deleted"), NotificationLevel::Success, now);
                self.close_current_tab();
                proof {
                    assert(self@ =~= AppView { notices: self@.notices, ..spec_close_tab(old(self)@) });
                }
                Command::FetchMachines
            }
            ApiOutcome::DeleteResult(Err(e)) => {
                self.push_notice(prefixed("Delete failed: ", e.as_str()), NotificationLevel::Error, now);
                Command::Nothing
            }
            ApiOutcome::ScanResult(Ok(())) => {
                self.push_notice(String::from_str("Scan complete"), NotificationLevel::Success, now);
                Command::Nothing
            }
            ApiOutcome::ScanResult(Err(e)) => {
                self.push_notice(prefixed("Scan failed: ", e.as_str()), NotificationLevel::Error, now);
                Command::Nothing
            }
            ApiOutcome::MachinesFailed(e) => {
                self.push_notice(prefixed("Failed to load machines: ", e.as_str()), NotificationLevel::Error, now);
                Command::Nothing
            }
            ApiOutcome::InterfacesFailed(e) => {
                self.push_notice(prefixed("Failed to load interfaces: ", e.as_str()), NotificationLevel::Error, now);
                Command::Nothing
            }
        }
    }
}

/// The title of a tab in the tab bar: a detail tab shows its MAC.
pub fn tab_label(t: &Tab) -> (label: String)
    ensures
        label@ == match tab_view(*t) {
            TabView::Scanner => "Scanner"@,
            TabView::Machines => "Machines"@,
            TabView::Detail(mac) => mac,
            TabView::AddMachine => "Add Machine"@,
        },
{
    match t {
        Tab::Scanner => String::from_str("Scanner"),
        Tab::Machines => String::from_str("Machines"),
        Tab::Detail(mac) => mac.clone(),
        Tab::AddMachine => String::from_str("Add Machine"),
    }
}

/// How the footer line is coloured: by the level of the notification it
/// shows, or as a key hint.
#[derive(PartialEq, Eq, Structural, Debug, Clone, Copy)]
pub enum FooterTone {
    Success,
    Error,
    Info,
    Hint,
}

pub open spec fn tone_of(level: NotificationLevel) -> FooterTone {
    match level {
        NotificationLevel::Success => FooterTone::Success,
        NotificationLevel::Error => FooterTone::Error,
        NotificationLevel::Info => FooterTone::Info,
    }
}

/// The key hints for the active tab (none when the index is out of range).
pub open spec fn key_hint(t: Option<TabView>, filtering: bool) -> Seq<char> {
    match t {
        Some(TabView::Machines) => if filtering {
            "ESC close filter \u{2502} type to filter"@
        } else {
            "j/k navigate \u{2502} / filter \u{2502} w wake \u{2502} t turn off \u{2502} d delete \u{2502} a add \u{2502} Enter detail \u{2502} Tab switch tab \u{2502} :q quit"@
        },
        Some(TabView::Scanner) => "j/k navigate \u{2502} h/l switch panel \u{2502} Enter scan/add \u{2502} Tab switch tab \u{2502} :q quit"@,
        Some(TabView::Detail(_)) => "j/k fields \u{2502} i insert \u{2502} Esc normal \u{2502} Space toggle \u{2502} s save \u{2502} w wake \u{2502} t turn off \u{2502} d delete \u{2502} Tab switch tab \u{2502} :q quit"@,
        Some(TabView::AddMachine) => "j/k fields \u{2502} i insert \u{2502} Esc normal \u{2502} Space toggle \u{2502} s/Enter submit \u{2502} Tab switch tab \u{2502} :q quit"@,
        None => ":q quit"@,
    }
}

impl App {
    /// The footer at `now`: the current notification, else the key hints
    /// of the active tab (the machine list's depend on whether it is being
    /// filtered).
    pub fn footer(&self, now: u64, machines_filtering: bool) -> (line: (String, FooterTone))
        ensures
            ({
                let notices = self@.notices;
                let tab = if self@.active < self@.tabs.len() { Some(self@.tabs[self@.active as int]) } else { None };
                if notices.len() > 0 && is_recent(notices.last(), now) {
                    line.0@ == notices.last().message@ && line.1 == tone_of(notices.last().level)
                } else {
                    line.0@ == key_hint(tab, machines_filtering) && line.1 == FooterTone::Hint
                }
            }),
    {
        if let Some(n) = self.current_notification(now) {
            let tone = match n.level {
                NotificationLevel::Success => FooterTone::Success,
                NotificationLevel::Error => FooterTone::Error,
                NotificationLevel::Info => FooterTone::Info,
            };
            return (n.message.clone(), tone);
        }
        let hint = match self.active_tab() {
            Some(Tab::Machines) => if machines_filtering {
                "ESC close filter \u{2502} type to filter"
            } else {
                "j/k navigate \u{2502} / filter \u{2502} w wake \u{2502} t turn off \u{2502} d delete \u{2502} a add \u{2502} Enter detail \u{2502} Tab switch tab \u{2502} :q quit"
            },
            Some(Tab::Scanner) => "j/k navigate \u{2502} h/l switch panel \u{2502} Enter scan/add \u{2502} Tab switch tab \u{2502} :q quit",
            Some(Tab::Detail(_)) => "j/k fields \u{2502} i insert \u{2502} Esc normal \u{2502} Space toggle \u{2502} s save \u{2502} w wake \u{2502} t turn off \u{2502} d delete \u{2502} Tab switch tab \u{2502} :q quit",
            Some(Tab::AddMachine) => "j/k fields \u{2502} i insert \u{2502} Esc normal \u{2502} Space toggle \u{2502} s/Enter submit \u{2502} Tab switch tab \u{2502} :q quit",
            None => ":q quit",
        };
        (String::from_str(hint), FooterTone::Hint)
    }
}

/// A line of the add-machine form as drawn: its label, its value, and
/// whether it has the focus.
pub struct FieldLine {
    pub label: &'static str,
    pub value: String,
    pub focused: bool,
}

pub open spec fn field_label(i: int) -> Seq<char> {
    if i == 0 {
        "Name"@
    } else if i == 1 {
        "MAC"@
    } else if i == 2 {
        "IP"@
    } else if i == 3 {
        "Description"@
    } else if i == 4 {
        "Turn Off Port"@
    } else if i == 5 {
        "Can Be Turned Off"@
    } else {
        "Inactivity Period"@
    }
}

/// The shown value of a field: the flag as Yes or No, the others as typed.
pub open spec fn field_value(f: FormView, i: int) -> Seq<char> {
    if i == 0 {
        f.name
    } else if i == 1 {
        f.mac
    } else if i == 2 {
        f.ip
    } else if i == 3 {
        f.description
    } else if i == 4 {
        f.turn_off_port
    } else if i == 5 {
        if f.can_be_turned_off { "Yes"@ } else { "No"@ }
    } else {
        f.inactivity_period
    }
}

impl AddMachineState {
    /// The seven lines of the form in order; a line has the focus when the
    /// fields have it and it is the focused field.
    pub fn field_lines(&self) -> (lines: Vec<FieldLine>)
        ensures
            lines@.len() == 7,
            forall|i: int| 0 <= i < 7 ==> {
                &&& (#[trigger] lines@[i]).label@ == field_label(i)
                &&& lines@[i].value@ == field_value(self@, i)
                &&& lines@[i].focused == (self.focus_area == AddFocusArea::Fields && i == self.focused_field)
            },
    {
        let mut lines: Vec<FieldLine> = Vec::new();
        let flag = if self.can_be_turned_off { String::from_str("Yes") } else { String::from_str("No") };
        let on_fields = self.focus_area == AddFocusArea::Fields;
        lines.push(FieldLine { label: "Name", value: self.name.clone(), focused: on_fields && self.focused_field == 0 });
        lines.push(FieldLine { label: "MAC", value: self.mac.clone(), focused: on_fields && self.focused_field == 1 });
        lines.push(FieldLine { label: "IP", value: self.ip.clone(), focused: on_fields && self.focused_field == 2 });
        lines.push(FieldLine { label: "Description", value: self.description.clone(), focused: on_fields && self.focused_field == 3 });
        lines.push(FieldLine { label: "Turn Off Port", value: self.turn_off_port.clone(), focused: on_fields && self.focused_field == 4 });
        lines.push(FieldLine { label: "Can Be Turned Off", value: flag, focused: on_fields && self.focused_field == 5 });
        lines.push(FieldLine {
            label: "Inactivity Period",
            value: self.inactivity_period.clone(),
            focused: on_fields && self.focused_field == 6,
        });
        lines
    }

    /// The mode shown in the form's border.
    pub fn mode_indicator(&self) -> (text: &'static str)
        ensures
            text@ == if self.inserting { " [INSERT] "@ } else { " [NORMAL] "@ },
    {
        if self.inserting { " [INSERT] " } else { " [NORMAL] " }
    }

    /// The title of the port-forward table: with a hint while it is empty.
    pub fn port_forwards_title(&self) -> (text: &'static str)
        ensures
            text@ == if self.port_forwards@.len() == 0 { " Port Forwards (a to add) "@ } else { " Port Forwards "@ },
    {
        if self.port_forwards.len() == 0 { " Port Forwards (a to add) " } else { " Port Forwards " }
    }

    /// For each port-forward row: whether it is selected (the rows have the
    /// focus and it is the selected row) and whether it is being typed into.
    pub fn row_marks(&self) -> (marks: Vec<(bool, bool)>)
        ensures
            marks@.len() == self.port_forwards@.len(),
            forall|i: int| 0 <= i < marks@.len() ==> {
                let selected = self.focus_area == AddFocusArea::PortForwards && i == self.pf_selected;
                #[trigger] marks@[i] == (selected, selected && self.inserting)
            },
    {
        let n = self.port_forwards.len();
        let on_rows = self.focus_area == AddFocusArea::PortForwards;
        let mut marks: Vec<(bool, bool)> = Vec::new();
        let mut i: usize = 0;
        while i < n
            invariant
                n == self.port_forwards@.len(),
                on_rows == (self.focus_area == AddFocusArea::PortForwards),
                i <= n,
                marks@.len() == i,
                forall|k: int| 0 <= k < i ==> {
                    let selected = on_rows && k == self.pf_selected;
                    #[trigger] marks@[k] == (selected, selected && self.inserting)
                },
            decreases n - i,
        {
            let selected = on_rows && i == self.pf_selected;
            marks.push((selected, selected && self.inserting));
            i = i + 1;
        }
        marks
    }
}

} // verus!

use wakezilla::models::DiscoveredDevice;
use wakezilla::tui::{
    tab_label, AddFocusArea, AddMachineState, ApiOutcome, App, Command, DetailAction, DetailContext,
    DetailFocus, DetailMode, Edit, FooterTone, KeyCode, KeyPress, MachinesAction,
    NotificationLevel, ScannerAction, ScannerPanel, ScreenContext, Tab,
};

fn key(code: KeyCode) -> KeyPress {
    KeyPress { code, ctrl: false }
}

fn ch(c: char) -> KeyPress {
    key(KeyCode::Char(c))
}

fn screens() -> ScreenContext {
    ScreenContext {
        machines_filtering: false,
        selected_machine: None,
        scanner_panel: ScannerPanel::Interfaces,
        selected_interface: None,
        selected_device: None,
        detail: None,
    }
}

fn press(app: &mut App, k: KeyPress) -> Command {
    app.handle_key(k, &screens())
}

#[test]
fn new_app_shows_machines() {
    let app = App::new(0);
    assert_eq!(app.tabs().to_vec(), vec![Tab::Scanner, Tab::Machines]);
    assert_eq!(app.active_tab(), Some(&Tab::Machines));
    assert!(!app.should_quit());
}

#[test]
fn ctrl_c_quits() {
    let mut app = App::new(0);
    let cmd = press(&mut app, KeyPress { code: KeyCode::Char('c'), ctrl: true });
    assert!(matches!(cmd, Command::Nothing));
    assert!(app.should_quit());
}

#[test]
fn colon_q_quits_only_from_screens_through_app() {
    let mut app = App::new(0);
    app.open_tab(Tab::AddMachine);
    press(&mut app, ch(':'));
    assert!(!app.should_quit());
    press(&mut app, ch('q'));
    assert!(app.should_quit());
}

#[test]
fn machine_list_keys() {
    let mut app = App::new(0);
    assert_eq!(press(&mut app, ch('j')), Command::Machines(MachinesAction::Next));
    assert_eq!(press(&mut app, key(KeyCode::Up)), Command::Machines(MachinesAction::Previous));
    assert_eq!(press(&mut app, ch('w')), Command::Nothing);
    assert_eq!(press(&mut app, ch('d')), Command::Nothing);
    assert!(!app.confirm_delete);
    let mut ctx = screens();
    ctx.selected_machine = Some("AA".to_string());
    assert_eq!(app.handle_key(ch('w'), &ctx), Command::Wake("AA".to_string()));
    assert_eq!(app.handle_key(ch('t'), &ctx), Command::TurnOff("AA".to_string()));
    assert_eq!(app.handle_key(ch('d'), &ctx), Command::Nothing);
    assert!(app.confirm_delete);
    assert_eq!(app.handle_key(ch('y'), &ctx), Command::Delete("AA".to_string()));
    assert_eq!(app.handle_key(key(KeyCode::Enter), &ctx), Command::LoadDetail("AA".to_string()));
    assert_eq!(app.active_tab(), Some(&Tab::Detail("AA".to_string())));
    ctx.machines_filtering = true;
    app.open_tab(Tab::Machines);
    assert_eq!(app.handle_key(ch('w'), &ctx), Command::Machines(MachinesAction::EditFilter(Edit::Push('w'))));
    assert_eq!(app.handle_key(key(KeyCode::Esc), &ctx), Command::Machines(MachinesAction::CloseFilter));
    ctx.machines_filtering = false;
    assert_eq!(app.handle_key(ch('/'), &ctx), Command::Machines(MachinesAction::StartFilter));
    app.add_machine_state.name.push_str("old");
    assert_eq!(app.handle_key(ch('a'), &ctx), Command::Nothing);
    assert_eq!(app.active_tab(), Some(&Tab::AddMachine));
    assert_eq!(app.add_machine_state.name, "");
}

#[test]
fn scanner_keys() {
    let mut app = App::new(0);
    app.open_tab(Tab::Scanner);
    let mut ctx = screens();
    assert_eq!(app.handle_key(ch('l'), &ctx), Command::Scanner(ScannerAction::ShowPanel(ScannerPanel::Devices)));
    assert_eq!(app.handle_key(key(KeyCode::Enter), &ctx), Command::Nothing);
    ctx.selected_interface = Some("eth0".to_string());
    assert_eq!(app.handle_key(key(KeyCode::Enter), &ctx), Command::Scan("eth0".to_string()));
    ctx.scanner_panel = ScannerPanel::Devices;
    ctx.selected_device = Some(DiscoveredDevice {
        ip: "10.0.0.2".to_string(),
        mac: "BB".to_string(),
        hostname: Some("nas".to_string()),
    });
    assert_eq!(app.handle_key(key(KeyCode::Enter), &ctx), Command::Nothing);
    assert_eq!(app.active_tab(), Some(&Tab::AddMachine));
    assert_eq!(app.add_machine_state.name, "nas");
    assert_eq!(app.add_machine_state.mac, "BB");
    assert_eq!(app.add_machine_state.ip, "10.0.0.2");
    assert_eq!(app.add_machine_state.inactivity_period, "30");
    assert_eq!(app.handle_key(key(KeyCode::BackTab), &ctx), Command::Nothing);
    assert_eq!(app.active_tab(), Some(&Tab::Machines));
}

#[test]
fn detail_keys() {
    let mut app = App::new(0);
    app.open_tab(Tab::Detail("CC".to_string()));
    assert_eq!(press(&mut app, ch('s')), Command::Nothing);
    let mut ctx = screens();
    ctx.detail = Some(DetailContext { mode: DetailMode::Normal, focus: DetailFocus::Fields, mac: "CC".to_string() });
    assert_eq!(app.handle_key(ch('s'), &ctx), Command::SubmitUpdateMachine);
    assert_eq!(app.handle_key(ch('w'), &ctx), Command::Wake("CC".to_string()));
    assert_eq!(app.handle_key(ch(' '), &ctx), Command::Detail(DetailAction::Toggle));
    assert_eq!(app.handle_key(ch('l'), &ctx), Command::Detail(DetailAction::Focus(DetailFocus::PortForwards)));
    assert_eq!(app.handle_key(ch('d'), &ctx), Command::Nothing);
    assert!(app.confirm_delete);
    ctx.selected_machine = Some("AA".to_string());
    assert_eq!(app.handle_key(ch('y'), &ctx), Command::Delete("CC".to_string()));
    ctx.detail = Some(DetailContext { mode: DetailMode::Normal, focus: DetailFocus::PortForwards, mac: "CC".to_string() });
    assert_eq!(app.handle_key(ch('a'), &ctx), Command::Detail(DetailAction::AddRowAndInsert));
    assert_eq!(app.handle_key(ch('x'), &ctx), Command::Detail(DetailAction::DeleteRow));
    assert_eq!(app.handle_key(ch('w'), &ctx), Command::Nothing);
    ctx.detail = Some(DetailContext { mode: DetailMode::Insert, focus: DetailFocus::PortForwards, mac: "CC".to_string() });
    assert_eq!(app.handle_key(ch('s'), &ctx), Command::Detail(DetailAction::EditRow(Edit::Push('s'))));
    assert_eq!(app.handle_key(key(KeyCode::Tab), &ctx), Command::Detail(DetailAction::NextColumn));
    ctx.detail = Some(DetailContext { mode: DetailMode::Insert, focus: DetailFocus::Fields, mac: "CC".to_string() });
    assert_eq!(app.handle_key(key(KeyCode::Backspace), &ctx), Command::Detail(DetailAction::EditField(Edit::Pop)));
    assert_eq!(app.handle_key(key(KeyCode::Esc), &ctx), Command::Detail(DetailAction::SetMode(DetailMode::Normal)));
    assert_eq!(app.active_tab(), Some(&Tab::Detail("CC".to_string())));
}

#[test]
fn labels_footer_and_refresh() {
    assert_eq!(tab_label(&Tab::Detail("AA:BB".to_string())), "AA:BB");
    assert_eq!(tab_label(&Tab::AddMachine), "Add Machine");
    let mut app = App::new(5);
    let (text, tone) = app.footer(0, false);
    assert!(text.starts_with("j/k navigate \u{2502} / filter"));
    assert_eq!(tone, FooterTone::Hint);
    assert_eq!(app.footer(0, true).0, "ESC close filter \u{2502} type to filter");
    app.notify("hi".to_string(), NotificationLevel::Info, 100);
    assert_eq!(app.footer(200, false), ("hi".to_string(), FooterTone::Info));
    assert!(!app.check_refresh(29_999_999_999));
    assert!(app.check_refresh(30_000_000_005));
    assert!(!app.check_refresh(30_000_000_006));
    assert!(!app.check_refresh(1));
}


#[test]
fn confirm_delete_needs_y() {
    let mut app = App::new(0);
    app.confirm_delete = true;
    assert!(matches!(press(&mut app, ch('n')), Command::Nothing));
    assert!(!app.confirm_delete);
    app.confirm_delete = true;
    assert!(matches!(press(&mut app, ch('y')), Command::Nothing));
}

#[test]
fn open_tab_reuses_and_close_keeps_fixed_tabs() {
    let mut app = App::new(0);
    app.open_tab(Tab::Detail("aa".into()));
    app.open_tab(Tab::AddMachine);
    assert_eq!(app.active_tab_index, 3);
    app.open_tab(Tab::Detail("aa".into()));
    assert_eq!(app.active_tab_index, 2);
    assert_eq!(app.tabs().len(), 4);
    app.close_current_tab();
    assert_eq!(app.tabs().to_vec(), vec![Tab::Scanner, Tab::Machines, Tab::AddMachine]);
    assert_eq!(app.active_tab_index, 2);
    app.close_current_tab();
    assert_eq!(app.tabs().len(), 2);
    assert_eq!(app.active_tab_index, 1);
    app.close_current_tab();
    assert_eq!(app.tabs().len(), 2);
    app.next_tab();
    assert_eq!(app.active_tab_index, 0);
    app.previous_tab();
    assert_eq!(app.active_tab_index, 1);
}

fn type_text(app: &mut App, text: &str) {
    for c in text.chars() {
        press(app, ch(c));
    }
}

#[test]
fn add_machine_form_typing_and_submit() {
    let mut app = App::new(0);
    app.open_tab(Tab::AddMachine);
    press(&mut app, ch('i'));
    type_text(&mut app, "desk");
    press(&mut app, key(KeyCode::Tab));
    type_text(&mut app, "AA:BB:CC:DD:EE:FF");
    press(&mut app, key(KeyCode::Tab));
    type_text(&mut app, "10.0.0.9");
    press(&mut app, key(KeyCode::Backspace));
    type_text(&mut app, "8");
    press(&mut app, key(KeyCode::Tab));
    press(&mut app, key(KeyCode::Tab));
    type_text(&mut app, "+3000");
    press(&mut app, key(KeyCode::Esc));
    press(&mut app, ch('j'));
    press(&mut app, ch(' '));
    press(&mut app, ch('l'));
    press(&mut app, ch('a'));
    type_text(&mut app, "web");
    press(&mut app, key(KeyCode::Tab));
    type_text(&mut app, "80");
    press(&mut app, key(KeyCode::Tab));
    type_text(&mut app, "8080");
    press(&mut app, key(KeyCode::Esc));
    press(&mut app, ch('a'));
    type_text(&mut app, "bad");
    press(&mut app, key(KeyCode::Tab));
    type_text(&mut app, "x");
    press(&mut app, key(KeyCode::Esc));
    let cmd = press(&mut app, ch('s'));
    match cmd {
        Command::SubmitAddMachine(p) => {
            assert_eq!(p.name, "desk");
            assert_eq!(p.mac, "AA:BB:CC:DD:EE:FF");
            assert_eq!(p.ip, "10.0.0.8");
            assert_eq!(p.description, None);
            assert_eq!(p.turn_off_port, Some(3000));
            assert!(p.can_be_turned_off);
            assert_eq!(p.inactivity_period, Some(30));
            let pfs = p.port_forwards.unwrap();
            assert_eq!(pfs.len(), 1);
            assert_eq!(pfs[0].name, Some("web".to_string()));
            assert_eq!(pfs[0].local_port, 80);
            assert_eq!(pfs[0].target_port, 8080);
        }
        _ => panic!("expected a submission"),
    }
}

#[test]
fn form_navigation_wraps() {
    let mut s = AddMachineState::new();
    s.prev_field();
    assert_eq!(s.focused_field, 6);
    s.next_field();
    assert_eq!(s.focused_field, 0);
    assert!(s.current_field_mut().is_some());
    s.focused_field = 5;
    assert!(s.current_field_mut().is_none());
    s.toggle_boolean();
    assert!(s.can_be_turned_off);
    s.pf_next();
    assert_eq!(s.pf_selected, 0);
    s.pf_add_row();
    s.pf_add_row();
    assert_eq!(s.pf_selected, 1);
    s.pf_next();
    assert_eq!(s.pf_selected, 0);
    s.pf_previous();
    assert_eq!(s.pf_selected, 1);
    s.pf_delete_row();
    assert_eq!(s.port_forwards.len(), 1);
    assert_eq!(s.pf_selected, 0);
    s.pf_next_column();
    s.pf_next_column();
    s.pf_next_column();
    assert_eq!(s.pf_column, 0);
    s.pf_current_field_mut().unwrap().push('7');
    assert_eq!(s.port_forwards[0].name, "7");
    s.prefill("m", "1.1.1.1", Some("host"));
    assert_eq!((s.mac.as_str(), s.ip.as_str(), s.name.as_str()), ("m", "1.1.1.1", "host"));
    assert_eq!(s.focus_area, AddFocusArea::Fields);
}

#[test]
fn api_outcomes_notify_and_close() {
    let mut app = App::new(0);
    app.open_tab(Tab::AddMachine);
    let cmd = app.handle_api_outcome(ApiOutcome::AddResult(Err("dup".into())), 0);
    assert!(matches!(cmd, Command::Nothing));
    assert_eq!(app.add_machine_state.error, Some("Failed: dup".to_string()));
    let cmd = app.handle_api_outcome(ApiOutcome::AddResult(Ok(())), 10);
    assert!(matches!(cmd, Command::FetchMachines));
    assert_eq!(app.tabs().len(), 2);
    let n = app.current_notification(10 + 2_999_999_999).unwrap();
    assert_eq!(n.message, "Machine added");
    assert_eq!(n.level, NotificationLevel::Success);
    assert!(app.current_notification(10 + 3_000_000_000).is_none());
    app.handle_api_outcome(ApiOutcome::ActionResult(Err("off".into())), 20);
    assert_eq!(app.current_notification(20).unwrap().message, "Action failed: off");
    let cmd = app.handle_api_outcome(ApiOutcome::UpdateResult(Err("e".into())), 30);
    assert!(matches!(cmd, Command::DetailError(m) if m == "Save failed: e"));
    app.retain_recent(3_000_000_005);
    assert_eq!(app.current_notification(3_000_000_005).unwrap().message, "Action failed: off");
    app.retain_recent(10_000_000_000);
    assert!(app.current_notification(0).is_none());
}

#[test]
fn add_form_lines_as_drawn() {
    let mut s = AddMachineState::new();
    s.name.push_str("desk");
    let lines = s.field_lines();
    assert_eq!(lines.len(), 7);
    assert_eq!((lines[0].label, lines[0].value.as_str(), lines[0].focused), ("Name", "desk", true));
    assert_eq!((lines[5].label, lines[5].value.as_str(), lines[5].focused), ("Can Be Turned Off", "No", false));
    assert_eq!(s.mode_indicator(), " [NORMAL] ");
    assert_eq!(s.port_forwards_title(), " Port Forwards (a to add) ");
    s.pf_add_row();
    s.pf_add_row();
    s.focus_area = AddFocusArea::PortForwards;
    s.inserting = true;
    assert_eq!(s.row_marks(), vec![(false, false), (true, true)]);
    assert!(!s.field_lines()[0].focused);
    assert_eq!(s.port_forwards_title(), " Port Forwards ");
    assert_eq!(s.mode_indicator(), " [INSERT] ");
}

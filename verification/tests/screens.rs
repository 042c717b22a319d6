use wakezilla::models::{DiscoveredDevice, Machine, NetworkInterface, PortForward};
use wakezilla::screens::{Client, MachineDetailState, MachinesScreen, Reply, Request, ScannerScreen};
use wakezilla::tui::{
    AddFocusArea, DetailAction, DetailFocus, DetailMode, Edit, KeyCode, KeyPress, MachinesAction, PortForwardRow,
    ScannerAction, ScannerPanel, Tab,
};

fn key(code: KeyCode) -> KeyPress {
    KeyPress { code, ctrl: false }
}

fn ch(c: char) -> KeyPress {
    key(KeyCode::Char(c))
}

fn machine(name: &str, mac: &str) -> Machine {
    Machine {
        name: name.to_string(),
        mac: mac.to_string(),
        ip: "10.0.0.5".to_string(),
        description: None,
        turn_off_port: Some(3000),
        can_be_turned_off: true,
        inactivity_period: 45,
        port_forwards: vec![PortForward { name: Some("web".to_string()), local_port: 80, target_port: 8080 }],
    }
}

fn device() -> DiscoveredDevice {
    DiscoveredDevice { ip: "10.0.0.9".to_string(), mac: "DD".to_string(), hostname: None }
}

#[test]
fn filter_keys_edit_the_filter() {
    let mut c = Client::new(0);
    assert!(c.handle_key(ch('/')).is_empty());
    assert!(c.machines.filtering);
    for x in ['d', 'e', 'w'] {
        assert!(c.handle_key(ch(x)).is_empty());
    }
    assert_eq!(c.machines.filter, "dew");
    assert!(!c.app.confirm_delete);
    c.handle_key(key(KeyCode::Backspace));
    assert_eq!(c.machines.filter, "de");
    c.handle_key(key(KeyCode::Enter));
    assert!(!c.machines.filtering);
    assert_eq!(c.machines.filter, "de");
    c.handle_key(ch('/'));
    c.handle_key(ch('x'));
    c.handle_key(key(KeyCode::Esc));
    assert!(!c.machines.filtering);
    assert_eq!(c.machines.filter, "");
}

#[test]
fn machine_list_reply_selects_and_asks_for_states() {
    let mut c = Client::new(0);
    assert_eq!(c.init(), vec![Request::ListMachines, Request::ListInterfaces]);
    let reqs = c.handle_reply(Reply::Machines(Ok(vec![machine("a", "AA"), machine("b", "BB")])), 1);
    assert_eq!(reqs, vec![Request::MachineStatus("AA".to_string()), Request::MachineStatus("BB".to_string())]);
    assert!(!c.machines.loading);
    assert_eq!(c.machines.selected, Some(0));
    c.handle_key(ch('j'));
    assert_eq!(c.machines.selected, Some(1));
    c.handle_key(ch('j'));
    assert_eq!(c.machines.selected, Some(0));
    c.handle_key(ch('k'));
    assert_eq!(c.machines.selected, Some(1));
    assert_eq!(c.handle_key(ch('w')), vec![Request::Wake("BB".to_string())]);
    c.handle_reply(Reply::MachineStatus("BB".to_string(), Ok(true)), 2);
    c.handle_reply(Reply::MachineStatus("BB".to_string(), Err("x".to_string())), 3);
    assert_eq!(c.machines.statuses, vec![("BB".to_string(), false)]);
    assert!(c.check_refresh(10).is_empty());
    assert_eq!(
        c.check_refresh(30_000_000_000),
        vec![Request::ListMachines, Request::MachineStatus("AA".to_string()), Request::MachineStatus("BB".to_string())]
    );
    let reqs = c.handle_reply(Reply::Machines(Err("down".to_string())), 40);
    assert!(reqs.is_empty());
    assert_eq!(c.app.current_notification(40).unwrap().message, "Failed to load machines: down");
}

#[test]
fn detail_screen_opens_loads_edits_and_saves() {
    let mut c = Client::new(0);
    c.handle_reply(Reply::Machines(Ok(vec![machine("desk", "AA")])), 0);
    assert_eq!(c.handle_key(key(KeyCode::Enter)), vec![Request::MachineDetail("AA".to_string())]);
    assert_eq!(c.app.active_tab(), Some(&Tab::Detail("AA".to_string())));
    assert!(c.detail.as_ref().unwrap().loading);
    c.handle_reply(Reply::MachineDetail(Ok(machine("desk", "AA"))), 1);
    let d = c.detail.as_ref().unwrap();
    assert!(!d.loading);
    assert_eq!(d.form.name, "desk");
    assert_eq!(d.form.turn_off_port, "3000");
    assert_eq!(d.form.inactivity_period, "45");
    assert_eq!(d.form.port_forwards[0], PortForwardRow { name: "web".to_string(), local_port: "80".to_string(), target_port: "8080".to_string() });
    c.handle_key(ch('i'));
    for x in ['2', 's', 'd', ':'] {
        assert!(c.handle_key(ch(x)).is_empty());
    }
    assert_eq!(c.detail.as_ref().unwrap().form.name, "desk2sd:");
    assert!(!c.app.confirm_delete);
    c.handle_key(key(KeyCode::Esc));
    assert!(!c.detail.as_ref().unwrap().form.inserting);
    let reqs = c.handle_key(ch('s'));
    match &reqs[..] {
        [Request::UpdateMachine(mac, p)] => {
            assert_eq!(mac, "AA");
            assert_eq!(p.name, "desk2sd:");
            assert_eq!(p.turn_off_port, Some(3000));
            assert_eq!(p.inactivity_period, Some(45));
            assert_eq!(p.port_forwards.as_ref().unwrap().len(), 1);
        }
        _ => panic!("expected one update"),
    }
    c.handle_reply(Reply::UpdateResult(Err("500".to_string())), 2);
    assert_eq!(c.detail.as_ref().unwrap().error, Some("Save failed: 500".to_string()));
    assert_eq!(c.handle_reply(Reply::UpdateResult(Ok(())), 3), vec![Request::ListMachines]);
    c.handle_reply(Reply::MachineDetail(Err("gone".to_string())), 4);
    assert_eq!(c.detail.as_ref().unwrap().error, Some("Failed to load: gone".to_string()));
}

#[test]
fn detail_actions_on_the_form() {
    let mut d = MachineDetailState::new("AA".to_string());
    d.apply(DetailAction::Focus(DetailFocus::PortForwards));
    assert_eq!(d.form.focus_area, AddFocusArea::PortForwards);
    assert_eq!(d.context().focus, DetailFocus::PortForwards);
    d.apply(DetailAction::AddRowAndInsert);
    assert_eq!(d.context().mode, DetailMode::Insert);
    d.apply(DetailAction::EditRow(Edit::Push('x')));
    d.apply(DetailAction::NextColumn);
    d.apply(DetailAction::EditRow(Edit::Push('9')));
    assert_eq!(d.form.port_forwards[0], PortForwardRow { name: "x".to_string(), local_port: "9".to_string(), target_port: String::new() });
    d.apply(DetailAction::SetMode(DetailMode::Normal));
    d.apply(DetailAction::DeleteRow);
    assert!(d.form.port_forwards.is_empty());
    d.apply(DetailAction::Focus(DetailFocus::Fields));
    d.apply(DetailAction::PrevField);
    assert_eq!(d.form.focused_field, 6);
    d.apply(DetailAction::PrevField);
    d.apply(DetailAction::Toggle);
    assert!(d.form.can_be_turned_off);
    d.apply(DetailAction::NextField);
    d.apply(DetailAction::EditField(Edit::Pop));
    assert_eq!(d.form.inactivity_period, "3");
}

#[test]
fn scanner_scans_and_prefills_the_add_form() {
    let mut c = Client::new(0);
    c.handle_reply(
        Reply::Interfaces(Ok(vec![NetworkInterface { name: "eth0".to_string(), ip: "10.0.0.1".to_string(), mac: "EE".to_string(), is_up: true }])),
        0,
    );
    assert!(!c.scanner.loading_interfaces);
    assert_eq!(c.scanner.interface_selected, Some(0));
    c.handle_key(key(KeyCode::BackTab));
    assert_eq!(c.app.active_tab(), Some(&Tab::Scanner));
    c.scanner.devices.push(device());
    assert_eq!(c.handle_key(key(KeyCode::Enter)), vec![Request::ScanNetwork("eth0".to_string())]);
    assert!(c.scanner.scanning);
    assert!(c.scanner.devices.is_empty());
    c.handle_reply(Reply::ScanResult(Ok(vec![device()])), 1);
    assert!(!c.scanner.scanning);
    assert_eq!(c.scanner.device_selected, Some(0));
    assert_eq!(c.app.current_notification(1).unwrap().message, "Scan complete");
    c.handle_key(ch('l'));
    assert_eq!(c.scanner.active_panel, ScannerPanel::Devices);
    c.handle_key(key(KeyCode::Enter));
    assert_eq!(c.app.active_tab(), Some(&Tab::AddMachine));
    assert_eq!(c.app.add_machine_state.mac, "DD");
}

#[test]
fn screens_on_their_own() {
    let mut m = MachinesScreen::new();
    m.apply(MachinesAction::Next);
    assert_eq!(m.selected, None);
    m.machines_loaded(vec![machine("a", "AA")]);
    m.apply(MachinesAction::StartFilter);
    m.apply(MachinesAction::EditFilter(Edit::Push('q')));
    m.apply(MachinesAction::EndFilter);
    assert_eq!((m.filtering, m.filter.as_str()), (false, "q"));
    assert_eq!(m.selected_machine().unwrap().mac, "AA");
    let mut s = ScannerScreen::new();
    s.apply(ScannerAction::Previous);
    assert_eq!(s.interface_selected, None);
    s.scan_finished(None);
    s.apply(ScannerAction::ShowPanel(ScannerPanel::Devices));
    s.scan_finished(Some(vec![device(), device()]));
    s.apply(ScannerAction::Previous);
    assert_eq!(s.device_selected, Some(1));
}

use wakezilla::detail::{
    can_turn_off_machine, card_title, mac_subtitle, turn_off_failed_message, update_failed_message,
    update_alert, wake_failed_message, DetailForm, RequestButton,
};
use wakezilla::models::{Machine, PortForward};

fn machine() -> Machine {
    Machine {
        name: "desk".to_string(),
        mac: "AA:BB".to_string(),
        ip: "10.0.0.5".to_string(),
        description: None,
        turn_off_port: Some(3000),
        can_be_turned_off: true,
        inactivity_period: 45,
        port_forwards: vec![PortForward { name: Some("web".to_string()), local_port: 80, target_port: 8080 }],
    }
}

#[test]
fn turn_off_offered_only_with_port_and_permission() {
    let mut m = machine();
    assert!(can_turn_off_machine(&m));
    m.turn_off_port = None;
    assert!(!can_turn_off_machine(&m));
    m.turn_off_port = Some(1);
    m.can_be_turned_off = false;
    assert!(!can_turn_off_machine(&m));
}

#[test]
fn title_falls_back_while_name_blank() {
    assert_eq!(card_title("desk"), "desk");
    assert_eq!(card_title(" \t"), "Machine Overview");
    assert_eq!(card_title(""), "Machine Overview");
}

#[test]
fn messages_prefix_their_cause() {
    assert_eq!(turn_off_failed_message("boom"), "Failed to turn off machine: boom");
    assert_eq!(wake_failed_message("x"), "Failed to wake machine: x");
    assert_eq!(update_failed_message("e"), "Error updating machine: e");
    assert_eq!(mac_subtitle("AA"), "MAC AA");
}

#[test]
fn form_edits_and_update() {
    let mut f = DetailForm::from_machine(&machine());
    assert_eq!(f.description, "");
    assert_eq!(f.port_forwards.len(), 1);
    f.set_turn_off_port("abc");
    assert_eq!(f.turn_off_port, None);
    f.set_turn_off_port("4000");
    assert_eq!(f.turn_off_port, Some(4000));
    f.set_inactivity_period("x");
    assert_eq!(f.inactivity_period, 45);
    f.set_inactivity_period("90");
    assert_eq!(f.inactivity_period, 90);
    f.add_port_forward();
    assert_eq!(f.port_forwards[1], PortForward { name: None, local_port: 0, target_port: 0 });
    f.set_port_forward_name(1, "  ");
    assert_eq!(f.port_forwards[1].name, None);
    f.set_port_forward_name(1, "ssh");
    f.set_port_forward_local(1, "2222");
    f.set_port_forward_target(1, "oops");
    assert_eq!(f.port_forwards[1], PortForward { name: Some("ssh".to_string()), local_port: 2222, target_port: 0 });
    f.set_port_forward_local(7, "1");
    f.remove_port_forward(0);
    f.remove_port_forward(5);
    assert_eq!(f.port_forwards.len(), 1);
    f.description = "  ".to_string();
    let (m, p) = f.to_update("AA:BB");
    assert_eq!(m.description, None);
    assert_eq!(m.turn_off_port, Some(4000));
    assert_eq!(m.mac, "AA:BB");
    assert_eq!(p.inactivity_period, Some(90));
    assert_eq!(p.port_forwards.unwrap().len(), 1);
    f.can_be_turned_off = false;
    f.description = "main box".to_string();
    let (m, p) = f.to_update("AA:BB");
    assert_eq!(m.turn_off_port, None);
    assert_eq!(p.turn_off_port, None);
    assert_eq!(p.description, Some("main box".to_string()));
}

#[test]
fn request_button_runs_one_request_at_a_time() {
    let mut b = RequestButton::new();
    assert!(!b.press(false));
    assert!(!b.loading);
    assert!(b.press(true));
    assert!(b.loading);
    assert!(!b.press(true));
    let alert = b.finish(Err("timeout".to_string()), "Failed to turn off machine: ");
    assert_eq!(alert, "Failed to turn off machine: timeout");
    assert_eq!(b.feedback, Some((false, "timeout".to_string())));
    assert!(!b.loading);
    assert!(b.press(true));
    assert_eq!(b.feedback, None);
    assert_eq!(b.finish(Ok("Waking".to_string()), "x"), "Waking");
    assert_eq!(b.feedback, Some((true, "Waking".to_string())));
}

#[test]
fn update_alerts() {
    assert_eq!(update_alert(Ok(())), "Machine updated successfully!");
    assert_eq!(update_alert(Err("500".to_string())), "Error updating machine: 500");
}

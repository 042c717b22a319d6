use wakezilla::access_log::AccessLog;
use wakezilla::forward::{
    note_connection, turn_off_url, wake_start, wake_step, window_nanos, TurnOffLimiter, WakeAction, WakeEvent,
    WakePhase, WatchedMachine,
};

#[test]
fn turn_off_url_formats_expected_path() {
    let url = turn_off_url("192.168.1.10", 8080);
    assert_eq!(url, "http://192.168.1.10:8080/machines/turn-off");
}

fn machine(ip: u32, period: u32) -> WatchedMachine {
    WatchedMachine {
        ip,
        mac: "AA:BB:CC:DD:EE:FF".to_string(),
        inactivity_period: period,
        can_be_turned_off: true,
        turn_off_port: Some(3000),
    }
}

const MIN: u64 = 60_000_000_000;

#[test]
fn window_is_at_least_a_minute_and_saturates() {
    assert_eq!(window_nanos(0), MIN);
    assert_eq!(window_nanos(1), MIN);
    assert_eq!(window_nanos(30), 30 * MIN);
    assert_eq!(window_nanos(u32::MAX), u64::from(u32::MAX) * 1_000_000_000);
}

#[test]
fn inactive_machine_fires_once() {
    let mut limiter = TurnOffLimiter::new();
    limiter.initialize_machine(&machine(7, 1), 3000, 0);
    assert!(limiter.collect_inactive(MIN).is_empty());
    let out = limiter.collect_inactive(MIN + 1);
    assert_eq!(out.len(), 1);
    assert_eq!(out[0].ip, 7);
    assert_eq!(out[0].turn_off_port, 3000);
    assert_eq!(out[0].mac, "AA:BB:CC:DD:EE:FF");
    assert!(limiter.collect_inactive(MIN + 2).is_empty());
    assert!(limiter.collect_inactive(10 * MIN).is_empty());
}

#[test]
fn request_rearms_the_watch() {
    let mut limiter = TurnOffLimiter::new();
    limiter.initialize_machine(&machine(7, 1), 3000, 0);
    assert_eq!(limiter.collect_inactive(2 * MIN).len(), 1);
    limiter.update_last_request(7, 2 * MIN);
    assert!(limiter.collect_inactive(3 * MIN).is_empty());
    assert_eq!(limiter.collect_inactive(3 * MIN + 1).len(), 1);
}

#[test]
fn unknown_address_is_ignored() {
    let mut limiter = TurnOffLimiter::new();
    limiter.update_last_request(9, 5);
    assert!(limiter.collect_inactive(100 * MIN).is_empty());
}

#[test]
fn update_machine_keeps_last_request_and_changes_window() {
    let mut limiter = TurnOffLimiter::new();
    limiter.initialize_machine(&machine(1, 1), 3000, 0);
    limiter.update_machine(&machine(1, 5), 4000, 4 * MIN);
    assert!(limiter.collect_inactive(5 * MIN).is_empty());
    let out = limiter.collect_inactive(5 * MIN + 1);
    assert_eq!(out.len(), 1);
    assert_eq!(out[0].turn_off_port, 4000);
}

#[test]
fn update_machine_watches_new_machine_from_now() {
    let mut limiter = TurnOffLimiter::new();
    limiter.update_machine(&machine(2, 1), 3000, 10 * MIN);
    assert!(limiter.collect_inactive(11 * MIN).is_empty());
    assert_eq!(limiter.collect_inactive(11 * MIN + 1).len(), 1);
}

#[test]
fn proxy_setup_watches_only_turn_off_capable_machines() {
    let mut limiter = TurnOffLimiter::new();
    let mut m = machine(3, 1);
    m.turn_off_port = None;
    assert!(!limiter.monitor_for_proxy(&m, 0));
    m.turn_off_port = Some(1);
    m.can_be_turned_off = false;
    assert!(!limiter.monitor_for_proxy(&m, 0));
    m.can_be_turned_off = true;
    assert!(limiter.monitor_for_proxy(&m, 0));
    let out = limiter.collect_inactive(MIN + 1);
    assert_eq!(out.len(), 1);
    assert_eq!(out[0].turn_off_port, 1);
}

#[test]
fn clock_going_backwards_counts_as_no_time() {
    let mut limiter = TurnOffLimiter::new();
    limiter.initialize_machine(&machine(4, 1), 3000, 10 * MIN);
    assert!(limiter.collect_inactive(0).is_empty());
}

#[test]
fn several_machines_each_fire_once() {
    let mut limiter = TurnOffLimiter::new();
    limiter.initialize_machine(&machine(1, 1), 3000, 0);
    limiter.initialize_machine(&machine(2, 1), 3001, 0);
    limiter.initialize_machine(&machine(3, 10), 3002, 0);
    let mut ips: Vec<u32> = limiter.collect_inactive(2 * MIN).iter().map(|r| r.ip).collect();
    ips.sort();
    assert_eq!(ips, vec![1, 2]);
}

#[test]
fn connection_is_recorded_and_counts_as_use() {
    let mut log = AccessLog::new(1000);
    let mut limiter = TurnOffLimiter::default();
    limiter.initialize_machine(&machine(7, 1), 3000, 0);
    note_connection(&mut log, &mut limiter, "AA:BB:CC:DD:EE:FF", 8080, 7, 1_700_000_000_000, 2 * MIN);
    assert_eq!(log.get("AA:BB:CC:DD:EE:FF-8080"), vec![1_700_000_000_000]);
    assert!(limiter.collect_inactive(3 * MIN).is_empty());
    assert_eq!(limiter.collect_inactive(3 * MIN + 1).len(), 1);
}

#[test]
fn reachable_machine_is_connected_at_once() {
    let (phase, action) = wake_start();
    assert_eq!(action, WakeAction::Probe);
    assert_eq!(wake_step(phase, WakeEvent::Reachable(true)), Some((WakePhase::Connected, WakeAction::Connect)));
    assert_eq!(wake_step(WakePhase::Connected, WakeEvent::Reachable(true)), None);
}

#[test]
fn sleeping_machine_is_woken_and_polled_until_the_deadline() {
    let (phase, _) = wake_start();
    let (phase, action) = wake_step(phase, WakeEvent::Reachable(false)).unwrap();
    assert_eq!((phase, action), (WakePhase::Waking, WakeAction::SendWake));
    let (phase, action) = wake_step(phase, WakeEvent::WakeSent { sent: true, now: 10 }).unwrap();
    assert_eq!((phase, action), (WakePhase::Waiting { deadline: 10 + MIN }, WakeAction::ReadClock));
    let (phase, action) = wake_step(phase, WakeEvent::Clock(20)).unwrap();
    assert_eq!((phase, action), (WakePhase::Probing { deadline: 10 + MIN }, WakeAction::Probe));
    let (phase, action) = wake_step(phase, WakeEvent::Reachable(false)).unwrap();
    assert_eq!((phase, action), (WakePhase::Waiting { deadline: 10 + MIN }, WakeAction::Sleep(2_000_000_000)));
    assert_eq!(wake_step(phase, WakeEvent::Clock(10 + MIN)), Some((WakePhase::Dropped, WakeAction::DropConnection)));
    let (phase, _) = wake_step(phase, WakeEvent::Clock(MIN)).unwrap();
    assert_eq!(wake_step(phase, WakeEvent::Reachable(true)), Some((WakePhase::Connected, WakeAction::Connect)));
}

#[test]
fn failed_wake_drops_the_connection() {
    assert_eq!(
        wake_step(WakePhase::Waking, WakeEvent::WakeSent { sent: false, now: 0 }),
        Some((WakePhase::Dropped, WakeAction::DropConnection))
    );
    assert_eq!(wake_step(WakePhase::Waking, WakeEvent::Clock(0)), None);
}

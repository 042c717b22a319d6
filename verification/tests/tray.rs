use wakezilla::tray::{
    apple_script, command_parts, control_report, copy_url_message, dashboard_url, desktop_entry,
    desktop_entry_quote, launch_agent, linux_terminal_candidates, logs_args, logs_message,
    menu_action, mode_label, mode_menu_ids, mode_menu_view, open_dashboard_message,
    powershell_array_literal, powershell_encoded_command, powershell_invocation, powershell_quote,
    query_mode_status, requested_message, rgba_from_png_frame, run_service_control,
    service_control_args, service_status_label, shell_quote, shell_script, start_process_script,
    startup_message, unknown_status_text, update_message, utf16le_bytes, windows_autostart_command,
    windows_open_script, xml_escape, load_tray_icon, mode_submenu, tray_menu, MenuEntry, IconError, MenuAction, Mode, ModeStatus, PngColor,
    ServiceControl, TrayCommand, TrayEvent, TrayState, UpdateStatus,
};

fn strings(v: &[&str]) -> Vec<String> {
    v.iter().map(|s| s.to_string()).collect()
}

#[test]
fn dashboard_url_uses_proxy_port_from_config() {
    let proxy_port: u16 = 4567;
    assert_eq!(dashboard_url(proxy_port), "http://127.0.0.1:4567");
}

#[test]
fn mode_labels_match_menu_text() {
    assert_eq!(mode_label(Mode::Proxy), "Proxy");
    assert_eq!(mode_label(Mode::Client), "Client");
}

#[test]
fn service_status_labels_match_state() {
    assert_eq!(
        service_status_label(ModeStatus {
            installed: false,
            running: false
        }),
        "not installed"
    );
    assert_eq!(
        service_status_label(ModeStatus {
            installed: true,
            running: false
        }),
        "stopped"
    );
    assert_eq!(
        service_status_label(ModeStatus {
            installed: true,
            running: true
        }),
        "running"
    );
}

#[test]
fn shell_quote_wraps_single_quotes() {
    assert_eq!(shell_quote("a'b"), "'a'\\''b'");
}

#[test]
fn desktop_entry_quote_escapes_quotes() {
    assert_eq!(desktop_entry_quote("/tmp/a\"b%20"), "\"/tmp/a\\\"b%%20\"");
}

#[test]
fn desktop_entry_quote_escapes_backslashes() {
    assert_eq!(desktop_entry_quote("a\\b"), "\"a\\\\b\"");
}

#[test]
fn verbs_match_commands() {
    assert_eq!(ServiceControl::Start.verb(), "start");
    assert_eq!(ServiceControl::Stop.verb(), "stop");
    assert_eq!(ServiceControl::Restart.verb(), "restart");
}

#[test]
fn status_of_uninstalled_service_is_not_running() {
    let s = query_mode_status(false, true);
    assert!(!s.installed);
    assert!(!s.running);
    let s = query_mode_status(true, true);
    assert!(s.installed && s.running);
}

#[test]
fn xml_escape_replaces_all_five() {
    assert_eq!(xml_escape("a&b<c>d\"e'f"), "a&amp;b&lt;c&gt;d&quot;e&apos;f");
}

#[test]
fn powershell_quote_doubles_quotes() {
    assert_eq!(powershell_quote("it's"), "'it''s'");
}

#[test]
fn shell_script_quotes_and_waits() {
    let parts = strings(&["sudo", "/usr/bin/wake zilla", "it's"]);
    assert_eq!(shell_script(&parts, false), "'sudo' '/usr/bin/wake zilla' 'it'\\''s'");
    assert_eq!(
        shell_script(&parts, true),
        "'sudo' '/usr/bin/wake zilla' 'it'\\''s'; echo; printf 'Press Enter to close...'; read _"
    );
    assert_eq!(shell_script(&Vec::new(), false), "");
}

#[test]
fn command_parts_prepend_sudo_when_elevated() {
    let args = strings(&["service", "logs"]);
    assert_eq!(command_parts(true, "/bin/w", &args), strings(&["sudo", "/bin/w", "service", "logs"]));
    assert_eq!(command_parts(false, "/bin/w", &args), strings(&["/bin/w", "service", "logs"]));
}

#[test]
fn apple_script_escapes_script() {
    assert_eq!(
        apple_script("echo \"a\\b\""),
        "tell application \"Terminal\" to do script \"echo \\\"a\\\\b\\\"\""
    );
}

#[test]
fn linux_terminals_in_order() {
    let c = linux_terminal_candidates("S");
    let programs: Vec<&str> = c.iter().map(|t| t.program.as_str()).collect();
    assert_eq!(programs, vec!["x-terminal-emulator", "gnome-terminal", "konsole", "xfce4-terminal", "xterm"]);
    assert_eq!(c[1].args, strings(&["--", "sh", "-lc", "S"]));
    assert_eq!(c[3].args, strings(&["-e", "S"]));
}

#[test]
fn powershell_invocation_quotes_every_part() {
    let args = strings(&["service"]);
    assert_eq!(powershell_invocation("C:\\wakezilla.exe", &args), "& 'C:\\wakezilla.exe' 'service'");
}

#[test]
fn powershell_array_literal_joins_with_commas() {
    assert_eq!(powershell_array_literal(&strings(&["-NoProfile", "x'y"])), "'-NoProfile','x''y'");
}

#[test]
fn utf16le_bytes_encode_surrogates() {
    assert_eq!(utf16le_bytes("A"), vec![65, 0]);
    assert_eq!(utf16le_bytes("é😀"), vec![233, 0, 61, 216, 0, 222]);
}

#[test]
fn encoded_command_is_base64_of_utf16le() {
    assert_eq!(
        powershell_encoded_command("& 'C:\\wakezilla.exe' 'service'"),
        "JgAgACcAQwA6AFwAdwBhAGsAZQB6AGkAbABsAGEALgBlAHgAZQAnACAAJwBzAGUAcgB2AGkAYwBlACcA"
    );
}

#[test]
fn start_process_script_elevates_with_runas() {
    assert_eq!(start_process_script(true, "'a'"), "Start-Process -FilePath powershell -Verb RunAs -ArgumentList @('a')");
    assert_eq!(start_process_script(false, "'a'"), "Start-Process -FilePath powershell -ArgumentList @('a')");
}

#[test]
fn windows_open_script_assembles_arguments() {
    let args = strings(&["service"]);
    let script = windows_open_script(false, "C:\\wakezilla.exe", &args, true);
    assert_eq!(
        script,
        "Start-Process -FilePath powershell -ArgumentList @('-NoProfile','-ExecutionPolicy','Bypass','-NoExit','-EncodedCommand','JgAgACcAQwA6AFwAdwBhAGsAZQB6AGkAbABsAGEALgBlAHgAZQAnACAAJwBzAGUAcgB2AGkAYwBlACcA')"
    );
}

#[test]
fn control_messages() {
    assert_eq!(requested_message(Mode::Proxy, ServiceControl::Restart), "Proxy restart requested...");
    assert_eq!(
        run_service_control(Mode::Client, ServiceControl::Start, true, Ok(())),
        Ok("Client start completed.".to_string())
    );
    assert_eq!(
        run_service_control(Mode::Client, ServiceControl::Stop, true, Err("boom".to_string())),
        Err("failed to stop Client service".to_string())
    );
    assert_eq!(
        run_service_control(Mode::Proxy, ServiceControl::Stop, false, Ok(())),
        Ok("Opened elevated Proxy stop command.".to_string())
    );
    assert_eq!(
        run_service_control(Mode::Proxy, ServiceControl::Stop, false, Err("no terminal".to_string())),
        Err("no terminal".to_string())
    );
    assert_eq!(
        control_report(Mode::Proxy, ServiceControl::Start, Err("x".to_string())),
        "Proxy start failed: x"
    );
    assert_eq!(control_report(Mode::Proxy, ServiceControl::Start, Ok("done".to_string())), "done");
}

#[test]
fn control_and_log_arguments() {
    assert_eq!(
        service_control_args(ServiceControl::Restart, "proxy"),
        strings(&["--no-update-check", "service", "restart", "--mode", "proxy"])
    );
    assert_eq!(
        logs_args("client"),
        strings(&["--no-update-check", "service", "logs", "--mode", "client", "--lines", "100"])
    );
    assert_eq!(logs_message(Mode::Client, Ok(())), "Opened Client logs.");
    assert_eq!(logs_message(Mode::Proxy, Err("e".to_string())), "Failed to open Proxy logs: e");
}

#[test]
fn startup_messages_cover_all_outcomes() {
    assert_eq!(
        startup_message(Ok("/p".to_string()), Ok(())),
        "Tray autostart installed at /p; opened service setup."
    );
    assert_eq!(
        startup_message(Ok("/p".to_string()), Err("e".to_string())),
        "Tray autostart installed at /p; failed to open service setup: e"
    );
    assert_eq!(
        startup_message(Err("a".to_string()), Ok(())),
        "Failed to install tray autostart: a; opened service setup."
    );
    assert_eq!(
        startup_message(Err("a".to_string()), Err("b".to_string())),
        "Startup setup failed: a; service setup failed: b"
    );
}

#[test]
fn dashboard_and_update_messages() {
    assert_eq!(open_dashboard_message("http://x", Ok(())), "Opened http://x");
    assert_eq!(open_dashboard_message("http://x", Err("e".to_string())), "Failed to open dashboard: e");
    assert_eq!(copy_url_message(Ok(())), "Dashboard URL copied.");
    assert_eq!(copy_url_message(Err("e".to_string())), "Failed to copy dashboard URL: e");
    assert_eq!(
        update_message(Ok(UpdateStatus::Current { current: "1.0.0".to_string() })),
        "Wakezilla is up to date (1.0.0)."
    );
    assert_eq!(
        update_message(Ok(UpdateStatus::Available { current: "1.0.0".to_string(), latest: "1.1.0".to_string() })),
        "Wakezilla 1.1.0 is available (current 1.0.0)."
    );
    assert_eq!(update_message(Err("offline".to_string())), "Update check failed: offline");
}

#[test]
fn menu_ids_lead_back_to_their_actions() {
    for mode in [Mode::Proxy, Mode::Client] {
        let ids = mode_menu_ids(mode);
        assert_eq!(menu_action(ids.start), Some(MenuAction::Control(mode, ServiceControl::Start)));
        assert_eq!(menu_action(ids.stop), Some(MenuAction::Control(mode, ServiceControl::Stop)));
        assert_eq!(menu_action(ids.restart), Some(MenuAction::Control(mode, ServiceControl::Restart)));
        assert_eq!(menu_action(ids.logs), Some(MenuAction::Logs(mode)));
        assert_eq!(menu_action(ids.status), None);
    }
    assert_eq!(menu_action("open_dashboard"), Some(MenuAction::OpenDashboard));
    assert_eq!(menu_action("copy_dashboard_url"), Some(MenuAction::CopyDashboardUrl));
    assert_eq!(menu_action("setup_services"), Some(MenuAction::ConfigureStartup));
    assert_eq!(menu_action("check_updates"), Some(MenuAction::CheckUpdates));
    assert_eq!(menu_action("quit_tray"), Some(MenuAction::Quit));
    assert_eq!(menu_action("tray_message"), None);
}

#[test]
fn mode_menu_enables_by_status() {
    let v = mode_menu_view(Mode::Proxy, ModeStatus { installed: true, running: false });
    assert_eq!(v.status_text, "Proxy: stopped");
    assert!(v.start_enabled && !v.stop_enabled && v.restart_enabled && v.logs_enabled);
    let v = mode_menu_view(Mode::Client, ModeStatus { installed: true, running: true });
    assert_eq!(v.status_text, "Client: running");
    assert!(!v.start_enabled && v.stop_enabled);
    let v = mode_menu_view(Mode::Client, ModeStatus { installed: false, running: false });
    assert_eq!(v.status_text, "Client: not installed");
    assert!(!v.start_enabled && !v.stop_enabled && !v.restart_enabled && !v.logs_enabled);
    assert_eq!(unknown_status_text(Mode::Proxy), "Proxy: unknown");
}

#[test]
fn autostart_files() {
    assert_eq!(
        desktop_entry("/opt/w z"),
        "[Desktop Entry]\nType=Application\nName=Wakezilla Tray\nExec=\"/opt/w z\" tray\nTerminal=false\nX-GNOME-Autostart-enabled=true\n"
    );
    let plist = launch_agent("/A&B");
    assert!(plist.contains("\t\t<string>/A&amp;B</string>\n\t\t<string>tray</string>\n"));
    assert!(plist.starts_with("<?xml version=\"1.0\" encoding=\"UTF-8\"?>\n<!DOCTYPE plist"));
    assert!(plist.ends_with("\t<key>RunAtLoad</key>\n\t<true/>\n</dict>\n</plist>\n"));
    assert_eq!(windows_autostart_command("C:\\w.exe"), "\"C:\\w.exe\" tray");
}

#[test]
fn rgba_conversions() {
    assert_eq!(rgba_from_png_frame(&[1, 2, 3, 4], PngColor::Rgba), Ok(vec![1, 2, 3, 4]));
    assert_eq!(rgba_from_png_frame(&[1, 2, 3, 4, 5, 6, 7], PngColor::Rgb), Ok(vec![1, 2, 3, 255, 4, 5, 6, 255]));
    assert_eq!(rgba_from_png_frame(&[9, 8], PngColor::Grayscale), Ok(vec![9, 9, 9, 255, 8, 8, 8, 255]));
    assert_eq!(rgba_from_png_frame(&[9, 1, 7], PngColor::GrayscaleAlpha), Ok(vec![9, 9, 9, 1]));
    assert_eq!(rgba_from_png_frame(&[0], PngColor::Indexed), Err(IconError::IndexedNotExpanded));
}

fn encode_png(width: u32, height: u32, color: png::ColorType, data: &[u8]) -> Vec<u8> {
    let mut out = Vec::new();
    {
        let mut encoder = png::Encoder::new(&mut out, width, height);
        encoder.set_color(color);
        encoder.set_depth(png::BitDepth::Eight);
        let mut writer = encoder.write_header().unwrap();
        writer.write_image_data(data).unwrap();
    }
    out
}

#[test]
fn tray_icon_from_png() {
    let rgb = encode_png(2, 1, png::ColorType::Rgb, &[1, 2, 3, 4, 5, 6]);
    let icon = load_tray_icon(&rgb).unwrap();
    assert_eq!((icon.width, icon.height), (2, 1));
    assert_eq!(icon.rgba, vec![1, 2, 3, 255, 4, 5, 6, 255]);
    let gray = encode_png(1, 2, png::ColorType::GrayscaleAlpha, &[7, 8, 9, 10]);
    let icon = load_tray_icon(&gray).unwrap();
    assert_eq!(icon.rgba, vec![7, 7, 7, 8, 9, 9, 9, 10]);
}

#[test]
fn tray_icon_from_garbage_fails_to_decode() {
    assert!(matches!(load_tray_icon(b"not a png"), Err(IconError::Decode)));
}

#[test]
fn tray_builds_icon_once_and_queries_status_one_at_a_time() {
    let mut t = TrayState::new();
    assert_eq!(t.handle(TrayEvent::Refresh), TrayCommand::Nothing);
    assert_eq!(t.handle(TrayEvent::Message("early".to_string())), TrayCommand::Nothing);
    assert_eq!(t.handle(TrayEvent::Started), TrayCommand::BuildIcon);
    assert_eq!(t.handle(TrayEvent::IconBuilt(Ok(()))), TrayCommand::QueryStatus);
    assert_eq!(t.handle(TrayEvent::Started), TrayCommand::Nothing);
    assert_eq!(t.handle(TrayEvent::Refresh), TrayCommand::Nothing);
    let up = ModeStatus { installed: true, running: true };
    let off = ModeStatus { installed: false, running: false };
    assert_eq!(t.handle(TrayEvent::Status(up, off)), TrayCommand::ShowStatus(up, off));
    assert_eq!(t.handle(TrayEvent::Refresh), TrayCommand::QueryStatus);
    assert_eq!(t.handle(TrayEvent::Message("hi".to_string())), TrayCommand::ShowMessage("hi".to_string()));
}

#[test]
fn tray_menu_clicks_and_startup_failure() {
    let mut t = TrayState::new();
    assert_eq!(t.handle(TrayEvent::Menu("quit_tray".to_string())), TrayCommand::Exit);
    assert_eq!(
        t.handle(TrayEvent::Menu("client_restart".to_string())),
        TrayCommand::Perform(MenuAction::Control(Mode::Client, ServiceControl::Restart))
    );
    assert_eq!(t.handle(TrayEvent::Menu("nope".to_string())), TrayCommand::Nothing);
    assert_eq!(t.handle(TrayEvent::IconBuilt(Err("no display".to_string()))), TrayCommand::Exit);
    assert_eq!(t.startup_error, Some("no display".to_string()));
    assert!(!t.icon_built);
}

#[test]
fn service_submenu_as_built() {
    let m = mode_submenu(Mode::Proxy, "proxy");
    assert_eq!((m.id.as_str(), m.title.as_str()), ("proxy", "Proxy"));
    assert_eq!((m.status.id.as_str(), m.status.text.as_str(), m.status.enabled), ("proxy_status", "Proxy: unknown", false));
    assert_eq!((m.start.id.as_str(), m.start.text.as_str(), m.start.enabled), ("proxy_start", "Start", true));
    assert_eq!((m.logs.id.as_str(), m.logs.text.as_str(), m.logs.enabled), ("proxy_logs", "Logs", true));
    let c = mode_submenu(Mode::Client, "client");
    assert_eq!((c.restart.id.as_str(), c.restart.text.as_str()), ("client_restart", "Restart"));
    let menu = tray_menu("proxy", "client");
    assert_eq!(menu.len(), 12);
    assert!(matches!(&menu[0], MenuEntry::Item(i) if i.text == "Ready" && !i.enabled));
    assert!(matches!(&menu[6], MenuEntry::Submenu(s) if s.id == "client"));
    assert!(matches!(&menu[11], MenuEntry::Item(i) if i.id == "quit_tray" && i.text == "Quit tray"));
}

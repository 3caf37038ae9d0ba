use eefoctui::app::{App, AppEvent, Outcome, Task, MAX_CONSOLE_LINES};
use eefoctui::config::Config;
use eefoctui::container::Container;
use eefoctui::metrics::{DiskUsage, MemoryUsage, NetworkUsage, SystemMetrics};
use eefoctui::network::{NetworkInterface, NetworkSubView, PortInputFocus, PortPreset};
use eefoctui::view::View;

fn container(id: &str, name: &str) -> Container {
    Container {
        id: id.to_string(),
        name: name.to_string(),
        image: "img".to_string(),
        status: "Up 2 hours".to_string(),
        cpu_hundredths: 0,
        memory: "n/a".to_string(),
        uptime: "2 hours".to_string(),
    }
}

fn app_with_containers(names: &[&str]) -> App {
    let mut app = App::new(Config::default());
    let cs = names.iter().enumerate().map(|(i, n)| container(&format!("id{i}"), n)).collect();
    app.update(AppEvent::DockerContainersUpdated(cs));
    app
}

fn send(app: &mut App, ev: AppEvent) -> Outcome {
    assert!(app.can_handle(&ev));
    app.update(ev)
}

#[test]
fn new_app_starts_on_docker_view() {
    let app = App::new(Config::default());
    assert_eq!(app.current_view, View::Docker);
    assert!(!app.should_quit);
    assert_eq!(app.tick_count, 0);
    assert_eq!(app.config.tick_rate_ms, 120);
    assert_eq!(app.config.metrics_interval_ms, 1000);
    assert_eq!(app.network.port_preset, PortPreset::Custom);
    assert_eq!(app.network.sub_view, NetworkSubView::Manager);
    assert_eq!(app.network.input_focus, PortInputFocus::Host);
    assert!(app.docker.containers.is_empty());
}

#[test]
fn quit_sets_flag() {
    let mut app = App::new(Config::default());
    let o = send(&mut app, AppEvent::Quit);
    assert!(app.should_quit);
    assert!(o.task.is_none() && o.console_active.is_none());
    send(&mut app, AppEvent::Tick);
    assert!(app.should_quit);
}

#[test]
fn views_cycle_both_ways() {
    let mut app = App::new(Config::default());
    send(&mut app, AppEvent::NextView);
    assert_eq!(app.current_view, View::System);
    send(&mut app, AppEvent::PrevView);
    assert_eq!(app.current_view, View::Docker);
    send(&mut app, AppEvent::PrevView);
    assert_eq!(app.current_view, View::Help);
    for _ in 0..4 {
        send(&mut app, AppEvent::NextView);
    }
    assert_eq!(app.current_view, View::Help);
}

#[test]
fn tick_counter_wraps() {
    let mut app = App::new(Config::default());
    send(&mut app, AppEvent::Tick);
    assert_eq!(app.tick_count, 1);
    app.tick_count = u64::MAX;
    send(&mut app, AppEvent::Tick);
    assert_eq!(app.tick_count, 0);
}

#[test]
fn selection_wraps_around_the_container_list() {
    let mut app = app_with_containers(&["a", "b", "c"]);
    assert!(!app.docker.loading);
    send(&mut app, AppEvent::MoveSelectionUp);
    assert_eq!(app.docker.selected, 2);
    send(&mut app, AppEvent::MoveSelectionDown);
    assert_eq!(app.docker.selected, 0);
    send(&mut app, AppEvent::MoveSelectionDown);
    assert_eq!(app.docker.selected, 1);
}

#[test]
fn table_scroll_follows_selection_past_ten_rows() {
    let names: Vec<String> = (0..12).map(|i| format!("c{i}")).collect();
    let refs: Vec<&str> = names.iter().map(|s| s.as_str()).collect();
    let mut app = app_with_containers(&refs);
    for _ in 0..10 {
        send(&mut app, AppEvent::MoveSelectionDown);
    }
    assert_eq!(app.docker.selected, 10);
    assert_eq!(app.docker.table_scroll, 1);
    send(&mut app, AppEvent::MoveSelectionUp);
    assert_eq!(app.docker.table_scroll, 1);
    send(&mut app, AppEvent::DockerTableScrollUp);
    assert_eq!(app.docker.table_scroll, 0);
    send(&mut app, AppEvent::DockerTableScrollUp);
    assert_eq!(app.docker.table_scroll, 0);
    for _ in 0..20 {
        send(&mut app, AppEvent::DockerTableScrollDown);
    }
    assert_eq!(app.docker.table_scroll, 11);
}

#[test]
fn shrinking_list_resets_selection() {
    let mut app = app_with_containers(&["a", "b", "c"]);
    send(&mut app, AppEvent::MoveSelectionUp);
    assert_eq!(app.docker.selected, 2);
    send(&mut app, AppEvent::DockerContainersUpdated(vec![container("x", "x")]));
    assert_eq!(app.docker.selected, 0);
}

#[test]
fn container_actions_name_the_selected_container() {
    let mut app = app_with_containers(&["web", "db"]);
    send(&mut app, AppEvent::MoveSelectionDown);
    match send(&mut app, AppEvent::DockerStopSelected).task {
        Some(Task::StopContainer { id, name }) => {
            assert_eq!(id, "id1");
            assert_eq!(name, "db");
        }
        other => panic!("unexpected {other:?}"),
    }
    match send(&mut app, AppEvent::DockerStartSelected).task {
        Some(Task::StartContainer { id, .. }) => assert_eq!(id, "id1"),
        other => panic!("unexpected {other:?}"),
    }
    match send(&mut app, AppEvent::DockerRestartSelected).task {
        Some(Task::RestartContainer { name, .. }) => assert_eq!(name, "db"),
        other => panic!("unexpected {other:?}"),
    }
    send(&mut app, AppEvent::NextView);
    assert!(send(&mut app, AppEvent::DockerStartSelected).task.is_none());
}

#[test]
fn delete_needs_the_exact_name() {
    let mut app = app_with_containers(&["web"]);
    let o = send(&mut app, AppEvent::DockerDeleteKey);
    assert_eq!(o.console_active, Some(true));
    assert!(app.docker.confirm_delete);
    for ch in "wex".chars() {
        send(&mut app, AppEvent::DockerConsoleKey(ch));
    }
    assert!(send(&mut app, AppEvent::DockerConsoleEnter).task.is_none());
    assert!(app.docker.confirm_delete);
    send(&mut app, AppEvent::DockerConsoleBackspace);
    send(&mut app, AppEvent::DockerConsoleKey('b'));
    send(&mut app, AppEvent::DockerConsoleKey(' '));
    send(&mut app, AppEvent::DockerConsoleKey('\u{7}'));
    assert_eq!(app.docker.delete_input, "web ");
    let o = send(&mut app, AppEvent::DockerConsoleEnter);
    assert_eq!(o.console_active, Some(false));
    match o.task {
        Some(Task::DeleteContainer { id, name }) => {
            assert_eq!(id, "id0");
            assert_eq!(name, "web");
        }
        other => panic!("unexpected {other:?}"),
    }
    assert!(!app.docker.confirm_delete);
    assert!(app.docker.delete_input.is_empty());
}

#[test]
fn delete_confirmation_can_be_cancelled() {
    let mut app = app_with_containers(&["web"]);
    send(&mut app, AppEvent::DockerDeleteKey);
    send(&mut app, AppEvent::DockerConsoleKey('w'));
    let o = send(&mut app, AppEvent::DockerConsoleDetach);
    assert_eq!(o.console_active, Some(false));
    assert!(o.task.is_none());
    assert!(!app.docker.confirm_delete);
    send(&mut app, AppEvent::DockerDeleteKey);
    send(&mut app, AppEvent::DockerError("boom".to_string()));
    assert_eq!(app.docker.error.as_deref(), Some("boom"));
    let o = send(&mut app, AppEvent::ClearError);
    assert_eq!(o.console_active, Some(false));
    assert!(app.docker.error.is_none());
    assert!(!app.docker.confirm_delete);
}

#[test]
fn console_attach_type_and_send() {
    let mut app = app_with_containers(&["shell"]);
    let o = send(&mut app, AppEvent::DockerAttachSelected);
    assert_eq!(o.console_active, Some(true));
    match o.task {
        Some(Task::OpenConsole { id, name }) => {
            assert_eq!(id, "id0");
            assert_eq!(name, "shell");
        }
        other => panic!("unexpected {other:?}"),
    }
    assert!(app.docker.console_open);
    assert_eq!(app.docker.console_title.as_deref(), Some("shell"));
    for ch in "ls".chars() {
        send(&mut app, AppEvent::DockerConsoleKey(ch));
    }
    send(&mut app, AppEvent::DockerConsoleCursorLeft);
    send(&mut app, AppEvent::DockerConsoleKey('x'));
    assert_eq!(app.docker.console_input, "lxs");
    assert_eq!(app.docker.console_cursor, 2);
    send(&mut app, AppEvent::DockerConsoleBackspace);
    assert_eq!(app.docker.console_input, "ls");
    send(&mut app, AppEvent::DockerConsoleCursorRight);
    send(&mut app, AppEvent::DockerConsoleCursorRight);
    assert_eq!(app.docker.console_cursor, 2);
    match send(&mut app, AppEvent::DockerConsoleEnter).task {
        Some(Task::SendConsoleLine { line }) => assert_eq!(line, "ls"),
        other => panic!("unexpected {other:?}"),
    }
    assert!(app.docker.console_input.is_empty());
    assert_eq!(app.docker.console_cursor, 0);
    let o = send(&mut app, AppEvent::DockerConsoleDetach);
    assert!(matches!(o.task, Some(Task::DetachConsole)));
    assert!(!app.docker.console_open);
    assert!(app.docker.console_container_id.is_none());
}

#[test]
fn console_keeps_the_latest_lines() {
    let mut app = App::new(Config::default());
    let lines: Vec<String> = (0..2500).map(|i| format!("line {i}")).collect();
    let o = send(&mut app, AppEvent::DockerConsoleReset(lines));
    assert_eq!(o.console_active, Some(true));
    assert_eq!(app.docker.console_lines.len(), MAX_CONSOLE_LINES);
    assert_eq!(app.docker.console_lines[0], "line 500");
    send(&mut app, AppEvent::DockerConsoleOutput("newest".to_string()));
    assert_eq!(app.docker.console_lines.len(), MAX_CONSOLE_LINES);
    assert_eq!(app.docker.console_lines[0], "line 501");
    assert_eq!(app.docker.console_lines.last().unwrap(), "newest");
}

#[test]
fn console_scrolls_within_its_lines() {
    let mut app = App::new(Config::default());
    let lines: Vec<String> = (0..15).map(|i| format!("{i}")).collect();
    send(&mut app, AppEvent::DockerConsoleReset(lines));
    send(&mut app, AppEvent::DockerConsoleScrollUp);
    assert_eq!(app.docker.console_scroll_offset, 10);
    send(&mut app, AppEvent::DockerConsoleScrollUp);
    assert_eq!(app.docker.console_scroll_offset, 14);
    send(&mut app, AppEvent::DockerConsoleScrollDown);
    assert_eq!(app.docker.console_scroll_offset, 4);
    send(&mut app, AppEvent::DockerConsoleScrollDown);
    assert_eq!(app.docker.console_scroll_offset, 0);
    send(&mut app, AppEvent::DockerConsoleScrollUp);
    send(&mut app, AppEvent::DockerConsoleScrollToBottom);
    assert_eq!(app.docker.console_scroll_offset, 0);
    let o = send(&mut app, AppEvent::DockerConsoleClosed);
    assert_eq!(o.console_active, Some(false));
    assert!(!app.docker.console_open);
}

fn metrics(disks: usize) -> SystemMetrics {
    SystemMetrics {
        cpu_total: 5,
        cpu_cores: Vec::new(),
        memory: MemoryUsage { used: 1, total: 2 },
        disks: (0..disks)
            .map(|i| DiskUsage {
                name: format!("d{i}"),
                mount_point: format!("/m{i}"),
                used: 0,
                total: 0,
            })
            .collect(),
        network: NetworkUsage { received: 0, transmitted: 0 },
    }
}

#[test]
fn disk_selection_wraps_and_resets() {
    let mut app = App::new(Config::default());
    send(&mut app, AppEvent::NextView);
    send(&mut app, AppEvent::Tick);
    send(&mut app, AppEvent::SystemMetricsUpdated(metrics(3)));
    assert_eq!(app.system.last_updated_tick, 1);
    send(&mut app, AppEvent::MoveSelectionUp);
    assert_eq!(app.system.selected_disk, 2);
    send(&mut app, AppEvent::MoveSelectionDown);
    assert_eq!(app.system.selected_disk, 0);
    send(&mut app, AppEvent::MoveSelectionUp);
    send(&mut app, AppEvent::SystemMetricsUpdated(metrics(1)));
    assert_eq!(app.system.selected_disk, 0);
}

fn iface(name: &str) -> NetworkInterface {
    NetworkInterface { name: name.to_string(), ip: String::new(), mac: String::new(), is_up: true }
}

#[test]
fn interface_selection_in_network_manager() {
    let mut app = App::new(Config::default());
    send(&mut app, AppEvent::NextView);
    send(&mut app, AppEvent::NextView);
    assert_eq!(app.current_view, View::Network);
    send(&mut app, AppEvent::NetworkUpdated(vec![iface("lo"), iface("eth0")], Vec::new()));
    send(&mut app, AppEvent::MoveSelectionUp);
    assert_eq!(app.network.selected_interface, 0);
    send(&mut app, AppEvent::MoveSelectionDown);
    assert_eq!(app.network.selected_interface, 1);
    send(&mut app, AppEvent::MoveSelectionDown);
    assert_eq!(app.network.selected_interface, 0);
    send(&mut app, AppEvent::MoveSelectionDown);
    send(&mut app, AppEvent::NetworkUpdated(vec![iface("lo")], Vec::new()));
    assert_eq!(app.network.selected_interface, 0);
    send(&mut app, AppEvent::NetworkNextSubView);
    assert_eq!(app.network.sub_view, NetworkSubView::PortChecker);
    send(&mut app, AppEvent::NetworkPrevSubView);
    assert_eq!(app.network.sub_view, NetworkSubView::Manager);
}

fn port_checker() -> App {
    let mut app = App::new(Config::default());
    app.current_view = View::Network;
    send(&mut app, AppEvent::NetworkInputEnter);
    assert_eq!(app.network.sub_view, NetworkSubView::PortChecker);
    app
}

#[test]
fn preset_fills_ports_and_scan_reads_them_back() {
    let mut app = port_checker();
    send(&mut app, AppEvent::NetworkCyclePreset);
    assert_eq!(app.network.port_preset, PortPreset::Common);
    assert_eq!(
        app.network.port_input_ports,
        "21,22,23,25,53,80,110,143,443,993,995,3306,3389,5432,8080,8443"
    );
    assert_eq!(app.network.port_input_ports_cursor, app.network.port_input_ports.len());
    for ch in "localhost".chars() {
        send(&mut app, AppEvent::NetworkPortInputKey(ch));
    }
    let o = send(&mut app, AppEvent::NetworkPortScanStart);
    assert_eq!(app.network.scanning_status.as_deref(), Some("Scanning..."));
    match o.task {
        Some(Task::ScanPorts { host, ports }) => {
            assert_eq!(host, "localhost");
            assert_eq!(ports, PortPreset::Common.ports());
        }
        other => panic!("unexpected {other:?}"),
    }
}

#[test]
fn preset_cycle_has_five_steps() {
    let mut app = port_checker();
    let order = [
        PortPreset::Common,
        PortPreset::Web,
        PortPreset::Database,
        PortPreset::All,
        PortPreset::Custom,
    ];
    for p in order {
        send(&mut app, AppEvent::NetworkCyclePreset);
        assert_eq!(app.network.port_preset, p);
    }
    assert!(app.network.port_input_ports.starts_with("1,2,3,"));
    assert!(app.network.port_input_ports.ends_with(",1024"));
}

#[test]
fn port_fields_edit_at_the_cursor() {
    let mut app = port_checker();
    for ch in "hst".chars() {
        send(&mut app, AppEvent::NetworkPortInputKey(ch));
    }
    send(&mut app, AppEvent::NetworkPortInputCursorLeft);
    send(&mut app, AppEvent::NetworkPortInputCursorLeft);
    send(&mut app, AppEvent::NetworkPortInputKey('o'));
    assert_eq!(app.network.port_input_host, "host");
    send(&mut app, AppEvent::NetworkPortInputCursorRight);
    send(&mut app, AppEvent::NetworkPortInputCursorRight);
    send(&mut app, AppEvent::NetworkPortInputCursorRight);
    assert_eq!(app.network.port_input_host_cursor, 4);
    send(&mut app, AppEvent::NetworkPortInputBackspace);
    assert_eq!(app.network.port_input_host, "hos");
    send(&mut app, AppEvent::NetworkPortInputTab);
    assert_eq!(app.network.input_focus, PortInputFocus::Ports);
    for ch in "22, 80".chars() {
        send(&mut app, AppEvent::NetworkPortInputKey(ch));
    }
    send(&mut app, AppEvent::NetworkPortInputBackspace);
    assert_eq!(app.network.port_input_ports, "22, 8");
    send(&mut app, AppEvent::NetworkPortInputTab);
    assert_eq!(app.network.input_focus, PortInputFocus::Host);
}

#[test]
fn cursor_counts_bytes_of_wide_characters() {
    let mut app = port_checker();
    send(&mut app, AppEvent::NetworkPortInputKey('é'));
    assert_eq!(app.network.port_input_host, "é");
    assert_eq!(app.network.port_input_host_cursor, 1);
    // The cursor now sits inside the two bytes of 'é': typing there is refused.
    assert!(!app.can_handle(&AppEvent::NetworkPortInputKey('x')));
    send(&mut app, AppEvent::NetworkPortInputCursorRight);
    assert_eq!(app.network.port_input_host_cursor, 2);
    send(&mut app, AppEvent::NetworkPortInputKey('x'));
    assert_eq!(app.network.port_input_host, "éx");
}

#[test]
fn scan_results_are_collected() {
    let mut app = port_checker();
    send(&mut app, AppEvent::NetworkPortScanStart);
    send(&mut app, AppEvent::NetworkPortScanResult(22, true, "SSH".to_string()));
    send(&mut app, AppEvent::NetworkPortScanResult(81, false, String::new()));
    assert_eq!(app.network.open_ports.len(), 1);
    assert_eq!(app.network.open_ports[0].port, 22);
    assert_eq!(app.network.open_ports[0].service, "SSH");
    assert_eq!(app.network.closed_ports, vec![81]);
    assert!(app.network.scanning_status.is_some());
    send(&mut app, AppEvent::NetworkPortScanResult(0, false, String::new()));
    assert!(app.network.scanning_status.is_none());
}

#[test]
fn network_keys_outside_port_checker_do_nothing() {
    let mut app = App::new(Config::default());
    send(&mut app, AppEvent::NetworkPortInputKey('a'));
    send(&mut app, AppEvent::NetworkCyclePreset);
    assert!(app.network.port_input_host.is_empty());
    assert_eq!(app.network.port_preset, PortPreset::Custom);
    assert!(send(&mut app, AppEvent::NetworkPortScanStart).task.is_none());
    send(&mut app, AppEvent::NetworkInputExit);
}

#[test]
fn overflowing_selection_is_refused() {
    let mut app = app_with_containers(&["a"]);
    app.docker.selected = usize::MAX;
    assert!(!app.can_handle(&AppEvent::MoveSelectionDown));
    app.docker.selected = 0;
    assert!(app.can_handle(&AppEvent::MoveSelectionDown));
}

#[test]
fn key_then_backspace_restores_the_input() {
    let mut app = app_with_containers(&["shell"]);
    send(&mut app, AppEvent::DockerAttachSelected);
    send(&mut app, AppEvent::DockerConsoleReset(vec![]));
    for ch in "ab".chars() {
        send(&mut app, AppEvent::DockerConsoleKey(ch));
    }
    send(&mut app, AppEvent::DockerConsoleCursorLeft);
    send(&mut app, AppEvent::DockerConsoleKey('é'));
    assert_eq!(app.docker.console_input, "aéb");
    send(&mut app, AppEvent::DockerConsoleBackspace);
    assert_eq!(app.docker.console_input, "ab");
    assert_eq!(app.docker.console_cursor, 1);

    let mut app = port_checker();
    send(&mut app, AppEvent::NetworkPortInputKey('z'));
    send(&mut app, AppEvent::NetworkPortInputBackspace);
    assert_eq!(app.network.port_input_host, "");
    assert_eq!(app.network.port_input_host_cursor, 0);
}

#[test]
fn down_then_up_restores_the_selection() {
    let mut app = app_with_containers(&["a", "b", "c"]);
    for start in 0..3 {
        app.docker.selected = start;
        send(&mut app, AppEvent::MoveSelectionDown);
        assert_eq!(app.docker.selected, (start + 1) % 3);
        send(&mut app, AppEvent::MoveSelectionUp);
        assert_eq!(app.docker.selected, start);
    }
}

#[test]
fn console_reset_opens_at_the_bottom() {
    let mut app = App::new(Config::default());
    let o = send(&mut app, AppEvent::DockerConsoleReset(vec!["x".to_string(), "y".to_string()]));
    assert_eq!(o.console_active, Some(true));
    assert!(o.task.is_none());
    assert_eq!(app.docker.console_lines, vec!["x".to_string(), "y".to_string()]);
    assert!(app.docker.console_open);
    assert_eq!(app.docker.console_cursor, 0);
    assert_eq!(app.docker.console_scroll_offset, 0);
}

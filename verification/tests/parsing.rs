use eefoctui::ansi::{ansi_color, parse_ansi_line, TermColor, TextStyle};
use eefoctui::container::{
    console_log_lines, container_from_summary, cpu_text, derive_uptime_from_status,
    accent_of_lowercase, get_container_color, keep_ansi_line, parse_docker_stats, status_kind, StatusKind,
};
use eefoctui::input::{route_key, KeyCode, KeyPress, MOD_ALT, MOD_CONTROL, MOD_NONE};
use eefoctui::app::AppEvent;
use eefoctui::ui::input_pieces;
use eefoctui::metrics::{
    cpu_core_name, dedup_disks, disk_label, disk_label_lowered, disk_usage, network_totals, DiskUsage,
};
use eefoctui::network::{
    interface_is_up, mac_from_sysfs, parse_connections, parse_ip_brief, parse_ipconfig, ConnectionTable,
};

#[test]
fn console_line_endings() {
    assert_eq!(keep_ansi_line("abc\r\n\n"), "abc");
    assert_eq!(keep_ansi_line("\x1b[31mred\x1b[0m\n"), "\x1b[31mred\x1b[0m");
    assert_eq!(keep_ansi_line("\n\r"), "");
}

#[test]
fn uptime_from_status() {
    assert_eq!(derive_uptime_from_status("Up 3 hours (healthy)"), "3 hours (healthy)");
    assert_eq!(derive_uptime_from_status("Exited (0) 2 days ago"), "n/a");
    assert_eq!(derive_uptime_from_status("Up  5 seconds "), "5 seconds");
    assert_eq!(derive_uptime_from_status("Up"), "n/a");
}

#[test]
fn docker_stats_lines() {
    let out = "abc123\t/web\t12,5%\t10MiB / 1GiB\nshort\tline\n\tdb\t0.07%\t1MiB\nxyz\t\tjunk%\t2MiB\n";
    let e = parse_docker_stats(out);
    let keys: Vec<&str> = e.iter().map(|x| x.key.as_str()).collect();
    assert_eq!(keys, vec!["abc123", "web", "db", "xyz"]);
    assert_eq!(e[0].cpu_hundredths, 1250);
    assert_eq!(e[1].memory, "10MiB / 1GiB");
    assert_eq!(e[2].cpu_hundredths, 7);
    assert_eq!(e[3].cpu_hundredths, 0);
}

#[test]
fn container_from_api_summary() {
    let stats = parse_docker_stats("abc\tweb\t1.5%\t3MiB\nabc\tweb\t2.25%\t4MiB\n");
    let c = container_from_summary(
        Some("abc".to_string()),
        Some(vec!["/web".to_string()]),
        Some("nginx".to_string()),
        Some("Up 2 minutes".to_string()),
        &stats,
    );
    assert_eq!(c.name, "web");
    assert_eq!(c.cpu_hundredths, 225);
    assert_eq!(c.memory, "4MiB");
    assert_eq!(c.uptime, "2 minutes");
    assert_eq!(cpu_text(&c), "2.25%");
    let d = container_from_summary(Some("zz".to_string()), Some(Vec::new()), None, None, &stats);
    assert_eq!(d.name, "zz");
    assert_eq!(d.image, "");
    assert_eq!(d.status, "unknown");
    assert_eq!(d.memory, "n/a");
    assert_eq!(d.cpu_hundredths, 0);
    assert_eq!(d.uptime, "n/a");
    assert_eq!(cpu_text(&d), "0%");
    let by_name = container_from_summary(None, Some(vec!["web".to_string()]), None, None, &stats);
    assert_eq!(by_name.memory, "4MiB");
}

#[test]
fn cpu_text_like_float_display() {
    let mk = |h: u64| {
        let mut c = container_from_summary(None, None, None, None, &Vec::new());
        c.cpu_hundredths = h;
        cpu_text(&c)
    };
    assert_eq!(mk(1250), "12.5%");
    assert_eq!(mk(5), "0.05%");
    assert_eq!(mk(10000), "100%");
    assert_eq!(mk(1234), format!("{}%", 12.34f64));
}

#[test]
fn log_lines_keep_the_last_two_thousand() {
    let mut out = String::new();
    for i in 0..2100 {
        out.push_str(&format!("l{i}\r\n"));
    }
    let v = console_log_lines(&out);
    assert_eq!(v.len(), 2000);
    assert_eq!(v[0], "l100");
    assert_eq!(v[1999], "l2099");
}

#[test]
fn status_and_colors() {
    assert_eq!(status_kind("Up 3 hours"), StatusKind::Running);
    assert_eq!(status_kind("Exited (1)"), StatusKind::Stopped);
    assert_eq!(status_kind("Created"), StatusKind::Other);
    assert_eq!(get_container_color("MineCraft-1", "x"), Some(TermColor::Rgb(85, 170, 85)));
    assert_eq!(get_container_color("web", "TTYD:latest"), Some(TermColor::Rgb(100, 200, 220)));
    assert_eq!(get_container_color("web", "nginx"), None);
}

#[test]
fn ansi_styles() {
    let spans = parse_ansi_line("\x1b[1;31mERR\x1b[0m ok");
    assert_eq!(spans.len(), 2);
    assert_eq!(spans[0].text, "ERR");
    assert_eq!(spans[0].style, TextStyle { fg: Some(TermColor::Red), bold: true });
    assert_eq!(spans[1].text, " ok");
    assert_eq!(spans[1].style, TextStyle { fg: None, bold: false });
    let plain = parse_ansi_line("hello");
    assert_eq!(plain.len(), 1);
    assert_eq!(plain[0].text, "hello");
    let only_escape = parse_ansi_line("\x1b[2J");
    assert_eq!(only_escape.len(), 1);
    assert_eq!(only_escape[0].text, "\x1b[2J");
    assert_eq!(ansi_color(&vec![1, 38, 5, 200]), Some(TermColor::Indexed(200)));
    assert_eq!(ansi_color(&vec![38, 2, 1, 2, 3]), Some(TermColor::Rgb(1, 2, 3)));
    assert_eq!(ansi_color(&vec![38, 5]), None);
    assert_eq!(ansi_color(&vec![97]), Some(TermColor::White));
    assert_eq!(ansi_color(&vec![1, 22]), None);
}

#[test]
fn ip_brief_output() {
    let out = "lo               UNKNOWN        127.0.0.1/8 ::1/128\neth0             UP             10.0.0.5/24 fe80::1/64\nwlan0            DOWN\nbad\n";
    let v = parse_ip_brief(out);
    assert_eq!(v.len(), 3);
    assert_eq!(v[0].name, "lo");
    assert_eq!(v[0].ip, "127.0.0.1");
    assert!(!v[0].is_up);
    assert!(v[1].is_up);
    assert_eq!(v[1].ip, "10.0.0.5");
    assert_eq!(v[2].ip, "");
    assert!(!v[2].is_up);
    assert_eq!(mac_from_sysfs("aa:bb:cc:dd:ee:ff\n"), "aa:bb:cc:dd:ee:ff");
}

#[test]
fn ss_output() {
    let out = "Netid State Recv-Q Send-Q Local Address:Port Peer Address:Port Process\ntcp ESTAB 0 0 10.0.0.5:22 10.0.0.9:5000 users:((\"sshd\",pid=812,fd=4))\nudp UNCONN 0 0 0.0.0.0:68\nx y\n";
    let v = parse_connections(ConnectionTable::Ss, out);
    assert_eq!(v.len(), 2);
    assert_eq!(v[0].protocol, "TCP");
    assert_eq!(v[0].local_addr, "10.0.0.5:22");
    assert_eq!(v[0].remote_addr, "10.0.0.9:5000");
    assert_eq!(v[0].state, "ESTAB");
    assert_eq!(v[0].pid, 0);
    assert_eq!(v[1].protocol, "UDP");
    assert_eq!(v[1].remote_addr, "*");
    let pid_line = "h\ntcp LISTEN 0 0 a b 42,x\n";
    assert_eq!(parse_connections(ConnectionTable::Ss, pid_line)[0].pid, 42);
}

#[test]
fn netstat_output() {
    let out = "\nActive Connections\n\n  Proto  Local Address          Foreign Address        State           PID\n  TCP    0.0.0.0:135            0.0.0.0:0              LISTENING       1044\n  UDP    0.0.0.0:5353           *:*                    x\n";
    let v = parse_connections(ConnectionTable::Netstat, out);
    assert_eq!(v.len(), 2);
    assert_eq!(v[0].protocol, "TCP");
    assert_eq!(v[0].pid, 1044);
    assert_eq!(v[1].state, "x");
    assert_eq!(v[1].pid, 0);
    assert!(parse_connections(ConnectionTable::Netstat, "a\nb\n").is_empty());
}

#[test]
fn ipconfig_output() {
    let out = "Windows IP Configuration\n\nEthernet adapter Ethernet:\n   Physical Address. . . : 00-11-22\n   IPv4 Address. . . . . : 192.168.1.2\n\nWireless LAN adapter Wi-Fi:\n   Media State . . . : disconnected\n";
    let v = parse_ipconfig(out);
    assert_eq!(v.len(), 2);
    assert_eq!(v[0].name, "Ethernet adapter Ethernet");
    assert_eq!(v[0].ip, "192.168.1.2");
    assert_eq!(v[0].mac, "00-11-22");
    assert!(v[0].is_up);
    assert_eq!(v[1].name, "Wireless LAN adapter Wi-Fi");
    assert!(!v[1].is_up);
}

fn disk(name: &str, mount: &str, used: u64) -> DiskUsage {
    DiskUsage { name: name.to_string(), mount_point: mount.to_string(), used, total: 100 }
}

#[test]
fn disks_one_per_mount_in_order() {
    let disks = vec![
        disk("overlay", "/", 1),
        disk("sda1", "/boot", 2),
        disk("overlay", "/", 3),
        disk("sdb", "/a", 4),
        disk("sdc", "/boot", 5),
    ];
    let d = dedup_disks(&disks);
    let mounts: Vec<&str> = d.iter().map(|x| x.mount_point.as_str()).collect();
    assert_eq!(mounts, vec!["/", "/a", "/boot"]);
    assert_eq!(d[0].used, 1);
    assert_eq!(d[2].used, 2);
    let mut expected = disks.clone();
    expected.sort_by(|a, b| a.mount_point.cmp(&b.mount_point));
    expected.dedup_by(|a, b| a.mount_point == b.mount_point);
    let used: Vec<u64> = expected.iter().map(|x| x.used).collect();
    assert_eq!(d.iter().map(|x| x.used).collect::<Vec<_>>(), used);
}

#[test]
fn disk_figures_and_labels() {
    let d = disk_usage("sda".to_string(), "/".to_string(), 100, 30);
    assert_eq!(d.used, 70);
    assert_eq!(disk_usage(String::new(), String::new(), 10, 30).used, 0);
    assert_eq!(disk_label(&disk("sda1", "/boot", 0)), "sda1 (/boot)");
    assert_eq!(disk_label(&disk("OverLay", "/", 0)), "/");
    assert_eq!(disk_label(&disk("", "/x", 0)), "/x");
    let t = network_totals(&vec![(1, 2), (u64::MAX, 3)]);
    assert_eq!(t.received, u64::MAX);
    assert_eq!(t.transmitted, 5);
    assert_eq!(cpu_core_name(3), "CPU 3");
}

fn key(code: KeyCode, modifiers: u8) -> KeyPress {
    KeyPress { code, modifiers }
}

#[test]
fn keys_route_by_mode() {
    let r = route_key(key(KeyCode::Char('q'), MOD_NONE), false, false);
    assert!(matches!(r.event, Some(AppEvent::Quit)));
    let r = route_key(key(KeyCode::Char('q'), MOD_NONE), true, false);
    assert!(matches!(r.event, Some(AppEvent::DockerConsoleKey('q'))));
    let r = route_key(key(KeyCode::Char('q'), MOD_NONE), false, true);
    assert!(matches!(r.event, Some(AppEvent::NetworkPortInputKey('q'))));
    let r = route_key(key(KeyCode::Char('i'), MOD_NONE), false, false);
    assert!(matches!(r.event, Some(AppEvent::NetworkInputEnter)));
    assert_eq!(r.network_input, Some(true));
    let r = route_key(key(KeyCode::Esc, MOD_NONE), false, true);
    assert!(matches!(r.event, Some(AppEvent::NetworkInputExit)));
    assert_eq!(r.network_input, Some(false));
    let r = route_key(key(KeyCode::Up, MOD_ALT), true, false);
    assert!(matches!(r.event, Some(AppEvent::DockerTableScrollUp)));
    let r = route_key(key(KeyCode::Up, MOD_NONE), false, false);
    assert!(matches!(r.event, Some(AppEvent::MoveSelectionUp)));
    let r = route_key(key(KeyCode::Left, MOD_CONTROL), false, true);
    assert!(matches!(r.event, Some(AppEvent::PrevView)));
    let r = route_key(key(KeyCode::Tab, MOD_CONTROL), false, false);
    assert!(r.event.is_none());
    let r = route_key(key(KeyCode::Char('p'), MOD_NONE), false, true);
    assert!(matches!(r.event, Some(AppEvent::NetworkCyclePreset)));
    let r = route_key(key(KeyCode::Other, MOD_NONE), true, false);
    assert!(r.event.is_none());
}

#[test]
fn lowered_forms() {
    assert_eq!(accent_of_lowercase("minecraft", "x"), Some(TermColor::Rgb(85, 170, 85)));
    assert_eq!(accent_of_lowercase("MineCraft", "x"), None);
    assert_eq!(accent_of_lowercase("web", "alpine"), None);
    assert_eq!(accent_of_lowercase("alpine-1", "x"), Some(TermColor::Rgb(100, 200, 220)));
    assert!(interface_is_up("UP", "up"));
    assert!(interface_is_up("LOWER_UP", "lower_up"));
    assert!(!interface_is_up("DOWN", "down"));
    assert!(!interface_is_up("Up", "Up"));
    assert_eq!(disk_label_lowered(&disk("OverLay", "/", 0), "overlay"), "/");
    assert_eq!(disk_label_lowered(&disk("OverLay", "/", 0), "OverLay"), "OverLay (/)");
}

#[test]
fn keep_ansi_line_strips_only_the_trailing_run() {
    let s = "a\r\nb\n\r\n";
    let r = keep_ansi_line(s);
    assert_eq!(r, "a\r\nb");
    assert_eq!(keep_ansi_line(&r), r);
    assert_eq!(keep_ansi_line("\r\n"), "");
    assert_eq!(keep_ansi_line("x\ry"), "x\ry");
}

#[test]
fn input_field_pieces() {
    assert_eq!(input_pieces("abc", 1, true), ("a", "b", "bc"));
    assert_eq!(input_pieces("abc", 3, true), ("abc", " ", ""));
    assert_eq!(input_pieces("abc", 3, false), ("abc", "", ""));
    assert_eq!(input_pieces("", 0, true), ("", " ", ""));
    assert_eq!(input_pieces("éa", 2, false), ("é", "a", "a"));
}

use eefoctui::network::{format_port_list, get_service_name, parse_port_list, PortPreset};
use eefoctui::number::parse_u16_chars;
use eefoctui::text::{lines_of, trim_str, words_of};
use eefoctui::ui::{console_selection, spinner_frame, view_name};
use eefoctui::view::View;

fn s(v: &[Vec<char>]) -> Vec<String> {
    v.iter().map(|x| x.iter().collect()).collect()
}

#[test]
fn preset_ports_and_labels() {
    assert!(PortPreset::Custom.ports().is_empty());
    assert_eq!(PortPreset::Common.ports().len(), 16);
    assert_eq!(PortPreset::Web.ports(), vec![80, 443, 8080, 8443, 3000, 4000, 5000, 8000, 9000]);
    assert_eq!(PortPreset::Database.ports(), vec![3306, 5432, 27017, 6379, 11211, 9200, 9300]);
    let all = PortPreset::All.ports();
    assert_eq!(all.len(), 1024);
    assert_eq!(all[0], 1);
    assert_eq!(all[1023], 1024);
    assert_eq!(PortPreset::All.label(), "All (1-1024)");
    assert_eq!(PortPreset::Custom.label(), "Custom");
    assert_eq!(PortPreset::Database.label(), "Database");
}

#[test]
fn service_names() {
    assert_eq!(get_service_name(22), "SSH");
    assert_eq!(get_service_name(443), "HTTPS");
    assert_eq!(get_service_name(27017), "MongoDB");
    assert_eq!(get_service_name(9300), "Elasticsearch");
    assert_eq!(get_service_name(1), "Unknown");
}

#[test]
fn port_list_parsing() {
    assert_eq!(parse_port_list(" 22, 80,abc,,+443, 70000,-1"), vec![22, 80, 443]);
    assert_eq!(parse_port_list(""), Vec::<u16>::new());
    assert_eq!(parse_port_list("65535,0"), vec![65535, 0]);
}

#[test]
fn port_list_round_trip() {
    for p in [PortPreset::Common, PortPreset::Web, PortPreset::Database, PortPreset::All] {
        let ports = p.ports();
        let text = format_port_list(&ports);
        assert_eq!(parse_port_list(&text), ports);
    }
    assert_eq!(format_port_list(&vec![21, 22, 0]), "21,22,0");
    assert_eq!(format_port_list(&Vec::new()), "");
}

#[test]
fn u16_parsing_edges() {
    let c = |t: &str| t.chars().collect::<Vec<char>>();
    assert_eq!(parse_u16_chars(&c("+7")), Some(7));
    assert_eq!(parse_u16_chars(&c("+")), None);
    assert_eq!(parse_u16_chars(&c("")), None);
    assert_eq!(parse_u16_chars(&c("00080")), Some(80));
    assert_eq!(parse_u16_chars(&c("65536")), None);
    assert_eq!(parse_u16_chars(&c("1 2")), None);
}

#[test]
fn trimming_and_words() {
    assert_eq!(trim_str("\u{3000} a b\t\n"), "a b");
    assert_eq!(trim_str("   "), "");
    let w = words_of(&" a  bc\td ".chars().collect());
    assert_eq!(s(&w), vec!["a", "bc", "d"]);
}

#[test]
fn lines_like_std() {
    for t in ["", "a", "a\n", "a\r\nb", "a\n\nb\n", "x\r", "\n", "a\rb\r\n"] {
        let ours = s(&lines_of(t));
        let std: Vec<String> = t.lines().map(|l| l.to_string()).collect();
        assert_eq!(ours, std, "input {t:?}");
    }
}

#[test]
fn ui_helpers() {
    assert_eq!(spinner_frame(0), "|");
    assert_eq!(spinner_frame(5), "/");
    assert_eq!(spinner_frame(7), "\\");
    assert_eq!(view_name(View::Network), "Network");
    assert_eq!(console_selection(0, 0), None);
    assert_eq!(console_selection(5, 0), Some(4));
    assert_eq!(console_selection(5, 2), Some(2));
    assert_eq!(console_selection(5, 9), Some(0));
}

#[test]
fn view_cycle() {
    assert_eq!(View::Docker.next(), View::System);
    assert_eq!(View::Help.next(), View::Docker);
    assert_eq!(View::Docker.prev(), View::Help);
    for v in [View::Docker, View::System, View::Network, View::Help] {
        assert_eq!(v.next().prev(), v);
        assert_eq!(v.next().next().next().next(), v);
    }
}

//! The dashboard's state and how each event changes it.
use vstd::prelude::*;
use crate::config::Config;
use crate::container::Container;
use crate::metrics::SystemMetrics;
use crate::network::{
    NetworkConnection, NetworkInterface, NetworkSubView, PortInputFocus, PortPreset,
    PortScanResult, join_ports, port_list, preset_after, preset_ports, format_port_list,
    parse_port_list,
};
use crate::text::{trim, chars_of, string_from, string_of, trim_str, push_char};
use crate::textbuf::{
    at_boundary, byte_len, insert_at, remove_at, string_at_boundary, string_byte_len,
    string_insert, string_remove,
};
use crate::view::{view_after, view_before};

verus! {

/// The most console lines that the dashboard keeps.
pub const MAX_CONSOLE_LINES: usize = 2000;

/// How many container rows the table shows before it scrolls.
pub const MAX_VISIBLE_ROWS: usize = 10;

/// State of the Docker view, including the in-app console and the delete
/// confirmation.
#[derive(Debug)]
pub struct DockerState {
    pub containers: Vec<Container>,
    pub selected: usize,
    pub table_scroll: usize,
    pub loading: bool,
    pub error: Option<String>,
    pub confirm_delete: bool,
    pub delete_input: String,
    pub console_open: bool,
    pub console_container_id: Option<String>,
    pub console_title: Option<String>,
    pub console_lines: Vec<String>,
    pub console_input: String,
    pub console_cursor: usize,
    /// Scroll position of the console: 0 is the bottom, higher is further up.
    pub console_scroll_offset: usize,
}

/// State of the system view.
#[derive(Debug)]
pub struct SystemState {
    pub metrics: Option<SystemMetrics>,
    pub last_updated_tick: u64,
    pub selected_disk: usize,
}

/// State of the network view and its port checker.
#[derive(Debug)]
pub struct NetworkState {
    pub sub_view: NetworkSubView,
    pub interfaces: Vec<NetworkInterface>,
    pub connections: Vec<NetworkConnection>,
    pub selected_interface: usize,
    pub selected_connection: usize,
    pub port_input_host: String,
    pub port_input_host_cursor: usize,
    pub port_input_ports: String,
    pub port_input_ports_cursor: usize,
    pub port_preset: PortPreset,
    pub input_focus: PortInputFocus,
    pub open_ports: Vec<PortScanResult>,
    pub closed_ports: Vec<u16>,
    pub scanning_status: Option<String>,
}

/// The whole state of the dashboard.
#[derive(Debug)]
pub struct App {
    pub config: Config,
    pub current_view: crate::view::View,
    pub docker: DockerState,
    pub system: SystemState,
    pub network: NetworkState,
    pub should_quit: bool,
    pub tick_count: u64,
}

/// Everything that can happen to the dashboard: keys, timer ticks and the
/// results of background work.
#[derive(Debug)]
pub enum AppEvent {
    Tick,
    Quit,
    NextView,
    PrevView,
    MoveSelectionUp,
    MoveSelectionDown,
    DockerStartSelected,
    DockerStopSelected,
    DockerRestartSelected,
    DockerDeleteKey,
    DockerAttachSelected,
    DockerConsoleReset(Vec<String>),
    DockerConsoleOutput(String),
    DockerConsoleClosed,
    DockerConsoleKey(char),
    DockerConsoleBackspace,
    DockerConsoleCursorLeft,
    DockerConsoleCursorRight,
    DockerConsoleEnter,
    DockerConsoleDetach,
    DockerConsoleScrollUp,
    DockerConsoleScrollDown,
    DockerConsoleScrollToBottom,
    DockerContainersUpdated(Vec<Container>),
    DockerError(String),
    DockerTableScrollUp,
    DockerTableScrollDown,
    SystemMetricsUpdated(SystemMetrics),
    NetworkUpdated(Vec<NetworkInterface>, Vec<NetworkConnection>),
    NetworkNextSubView,
    NetworkPrevSubView,
    NetworkInputEnter,
    NetworkInputExit,
    NetworkCyclePreset,
    NetworkPortInputKey(char),
    NetworkPortInputBackspace,
    NetworkPortInputCursorLeft,
    NetworkPortInputCursorRight,
    NetworkPortInputTab,
    NetworkPortScanStart,
    NetworkPortScanResult(u16, bool, String),
    ClearError,
}

/// Background work that an event asks for.
#[derive(Debug)]
pub enum Task {
    StartContainer { id: String, name: String },
    StopContainer { id: String, name: String },
    RestartContainer { id: String, name: String },
    DeleteContainer { id: String, name: String },
    OpenConsole { id: String, name: String },
    SendConsoleLine { line: String },
    DetachConsole,
    ScanPorts { host: String, ports: Vec<u16> },
}

/// What handling an event asks of the world outside the state: a new value for
/// the "console is active" flag that routes keys, and background work.
#[derive(Debug)]
pub struct Outcome {
    pub console_active: Option<bool>,
    pub task: Option<Task>,
}

/// The content of a task.
pub enum TaskView {
    StartContainer { id: Seq<char>, name: Seq<char> },
    StopContainer { id: Seq<char>, name: Seq<char> },
    RestartContainer { id: Seq<char>, name: Seq<char> },
    DeleteContainer { id: Seq<char>, name: Seq<char> },
    OpenConsole { id: Seq<char>, name: Seq<char> },
    SendConsoleLine { line: Seq<char> },
    DetachConsole,
    ScanPorts { host: Seq<char>, ports: Seq<u16> },
}

/// The content of an outcome.
#[verifier::ext_equal]
pub struct OutcomeView {
    pub console_active: Option<bool>,
    pub task: Option<TaskView>,
}

impl View for Task {
    type V = TaskView;

    open spec fn view(&self) -> TaskView {
        match self {
            Task::StartContainer { id, name } => TaskView::StartContainer { id: id@, name: name@ },
            Task::StopContainer { id, name } => TaskView::StopContainer { id: id@, name: name@ },
            Task::RestartContainer { id, name } => TaskView::RestartContainer {
                id: id@,
                name: name@,
            },
            Task::DeleteContainer { id, name } => TaskView::DeleteContainer {
                id: id@,
                name: name@,
            },
            Task::OpenConsole { id, name } => TaskView::OpenConsole { id: id@, name: name@ },
            Task::SendConsoleLine { line } => TaskView::SendConsoleLine { line: line@ },
            Task::DetachConsole => TaskView::DetachConsole,
            Task::ScanPorts { host, ports } => TaskView::ScanPorts { host: host@, ports: ports@ },
        }
    }
}

impl View for Outcome {
    type V = OutcomeView;

    open spec fn view(&self) -> OutcomeView {
        OutcomeView {
            console_active: self.console_active,
            task: match self.task {
                Some(t) => Some(t@),
                None => None,
            },
        }
    }
}

/// The content of an optional string.
pub open spec fn opt_view(o: Option<String>) -> Option<Seq<char>> {
    match o {
        Some(s) => Some(s@),
        None => None,
    }
}

/// The content of the Docker view's state.
#[verifier::ext_equal]
pub struct DockerView {
    pub containers: Seq<Container>,
    pub selected: usize,
    pub table_scroll: usize,
    pub loading: bool,
    pub error: Option<Seq<char>>,
    pub confirm_delete: bool,
    pub delete_input: Seq<char>,
    pub console_open: bool,
    pub console_container_id: Option<Seq<char>>,
    pub console_title: Option<Seq<char>>,
    pub console_lines: Seq<String>,
    pub console_input: Seq<char>,
    pub console_cursor: usize,
    pub console_scroll_offset: usize,
}

/// The content of the network view's state.
#[verifier::ext_equal]
pub struct NetworkView {
    pub sub_view: NetworkSubView,
    pub interfaces: Seq<NetworkInterface>,
    pub connections: Seq<NetworkConnection>,
    pub selected_interface: usize,
    pub selected_connection: usize,
    pub port_input_host: Seq<char>,
    pub port_input_host_cursor: usize,
    pub port_input_ports: Seq<char>,
    pub port_input_ports_cursor: usize,
    pub port_preset: PortPreset,
    pub input_focus: PortInputFocus,
    pub open_ports: Seq<PortScanResult>,
    pub closed_ports: Seq<u16>,
    pub scanning_status: Option<Seq<char>>,
}

/// The content of the whole state.
#[verifier::ext_equal]
pub struct AppView {
    pub config: Config,
    pub current_view: crate::view::View,
    pub docker: DockerView,
    pub system: SystemState,
    pub network: NetworkView,
    pub should_quit: bool,
    pub tick_count: u64,
}

impl View for DockerState {
    type V = DockerView;

    open spec fn view(&self) -> DockerView {
        DockerView {
            containers: self.containers@,
            selected: self.selected,
            table_scroll: self.table_scroll,
            loading: self.loading,
            error: opt_view(self.error),
            confirm_delete: self.confirm_delete,
            delete_input: self.delete_input@,
            console_open: self.console_open,
            console_container_id: opt_view(self.console_container_id),
            console_title: opt_view(self.console_title),
            console_lines: self.console_lines@,
            console_input: self.console_input@,
            console_cursor: self.console_cursor,
            console_scroll_offset: self.console_scroll_offset,
        }
    }
}

impl View for NetworkState {
    type V = NetworkView;

    open spec fn view(&self) -> NetworkView {
        NetworkView {
            sub_view: self.sub_view,
            interfaces: self.interfaces@,
            connections: self.connections@,
            selected_interface: self.selected_interface,
            selected_connection: self.selected_connection,
            port_input_host: self.port_input_host@,
            port_input_host_cursor: self.port_input_host_cursor,
            port_input_ports: self.port_input_ports@,
            port_input_ports_cursor: self.port_input_ports_cursor,
            port_preset: self.port_preset,
            input_focus: self.input_focus,
            open_ports: self.open_ports@,
            closed_ports: self.closed_ports@,
            scanning_status: opt_view(self.scanning_status),
        }
    }
}

impl View for App {
    type V = AppView;

    open spec fn view(&self) -> AppView {
        AppView {
            config: self.config,
            current_view: self.current_view,
            docker: self.docker@,
            system: self.system,
            network: self.network@,
            should_quit: self.should_quit,
            tick_count: self.tick_count,
        }
    }
}

} // verus!

verus! {

/// An outcome that asks nothing of the outside world.
pub open spec fn quiet() -> OutcomeView {
    OutcomeView { console_active: None, task: None }
}

/// An outcome that only sets the console flag.
pub open spec fn set_console(active: bool) -> OutcomeView {
    OutcomeView { console_active: Some(active), task: None }
}

/// The last `n` lines of `lines`.
pub open spec fn keep_last(lines: Seq<String>, n: nat) -> Seq<String> {
    if lines.len() > n {
        lines.skip(lines.len() - n)
    } else {
        lines
    }
}

/// `a - b`, or 0 where that is negative.
pub open spec fn sat_sub(a: int, b: int) -> int {
    if a > b {
        a - b
    } else {
        0
    }
}

/// The tick counter after one tick: it wraps around at its maximum.
pub open spec fn tick_after(t: u64) -> u64 {
    if t == u64::MAX {
        0
    } else {
        (t + 1) as u64
    }
}

/// Whether `c` is a control character (Unicode category Cc), as `char::is_control` tests.
pub open spec fn is_control_char(c: char) -> bool {
    let u = c as u32;
    u <= 0x1f || (0x7f <= u && u <= 0x9f)
}

/// The number of disks in the latest metrics sample.
pub open spec fn disk_count(s: SystemState) -> nat {
    match s.metrics {
        Some(m) => m.disks@.len(),
        None => 0,
    }
}

/// The container under the selection, if the selection is within the list.
pub open spec fn selected_container(d: DockerView) -> Option<Container> {
    if d.selected < d.containers.len() {
        Some(d.containers[d.selected as int])
    } else {
        None
    }
}

/// Whether the port checker of the network view is showing.
pub open spec fn in_port_checker(s: AppView) -> bool {
    s.current_view == crate::view::View::Network && s.network.sub_view
        == NetworkSubView::PortChecker
}

/// The state after moving the selection of the current view up.
pub open spec fn move_up(s: AppView) -> AppView {
    match s.current_view {
        crate::view::View::Docker => {
            let n = s.docker.containers.len();
            if n > 0 {
                let sel = if s.docker.selected == 0 {
                    (n - 1) as usize
                } else {
                    (s.docker.selected - 1) as usize
                };
                let scroll = if sel < s.docker.table_scroll {
                    sel
                } else {
                    s.docker.table_scroll
                };
                AppView { docker: DockerView { selected: sel, table_scroll: scroll, ..s.docker }, ..s }
            } else {
                s
            }
        },
        crate::view::View::System => {
            let n = disk_count(s.system);
            if n > 0 {
                let d = if s.system.selected_disk == 0 {
                    (n - 1) as usize
                } else {
                    (s.system.selected_disk - 1) as usize
                };
                AppView { system: SystemState { selected_disk: d, ..s.system }, ..s }
            } else {
                s
            }
        },
        crate::view::View::Network => {
            if s.network.sub_view == NetworkSubView::Manager && s.network.selected_interface > 0 {
                AppView {
                    network: NetworkView {
                        selected_interface: (s.network.selected_interface - 1) as usize,
                        ..s.network
                    },
                    ..s
                }
            } else {
                s
            }
        },
        crate::view::View::Help => s,
    }
}

/// The state after moving the selection of the current view down.
pub open spec fn move_down(s: AppView) -> AppView {
    match s.current_view {
        crate::view::View::Docker => {
            let n = s.docker.containers.len();
            if n > 0 {
                let sel = ((s.docker.selected + 1) % (n as int)) as usize;
                let scroll = if sel >= s.docker.table_scroll + MAX_VISIBLE_ROWS {
                    (sel - MAX_VISIBLE_ROWS + 1) as usize
                } else {
                    s.docker.table_scroll
                };
                AppView { docker: DockerView { selected: sel, table_scroll: scroll, ..s.docker }, ..s }
            } else {
                s
            }
        },
        crate::view::View::System => {
            let n = disk_count(s.system);
            if n > 0 {
                AppView {
                    system: SystemState {
                        selected_disk: ((s.system.selected_disk + 1) % (n as int)) as usize,
                        ..s.system
                    },
                    ..s
                }
            } else {
                s
            }
        },
        crate::view::View::Network => {
            let n = s.network.interfaces.len();
            if s.network.sub_view == NetworkSubView::Manager && n > 0 {
                AppView {
                    network: NetworkView {
                        selected_interface: ((s.network.selected_interface + 1) % (
                        n as int)) as usize,
                        ..s.network
                    },
                    ..s
                }
            } else {
                s
            }
        },
        crate::view::View::Help => s,
    }
}

/// Which container action a key asked for.
pub enum ContainerAction {
    Start,
    Stop,
    Restart,
}

/// The outcome of asking to start, stop or restart the selected container: the
/// action runs on it when the Docker view shows and the selection is in the list.
pub open spec fn container_action(s: AppView, a: ContainerAction) -> OutcomeView {
    if s.current_view == crate::view::View::Docker {
        match selected_container(s.docker) {
            Some(c) => OutcomeView {
                console_active: None,
                task: Some(
                    match a {
                        ContainerAction::Start => TaskView::StartContainer {
                            id: c.id@,
                            name: c.name@,
                        },
                        ContainerAction::Stop => TaskView::StopContainer {
                            id: c.id@,
                            name: c.name@,
                        },
                        ContainerAction::Restart => TaskView::RestartContainer {
                            id: c.id@,
                            name: c.name@,
                        },
                    },
                ),
            },
            None => quiet(),
        }
    } else {
        quiet()
    }
}

/// Opening the console on the selected container.
pub open spec fn attach_selected(s: AppView) -> (AppView, OutcomeView) {
    if s.current_view == crate::view::View::Docker {
        match selected_container(s.docker) {
            Some(c) => (
                AppView {
                    docker: DockerView {
                        console_open: true,
                        console_container_id: Some(c.id@),
                        console_title: Some(c.name@),
                        console_lines: seq![],
                        console_input: seq![],
                        console_cursor: 0,
                        console_scroll_offset: 0,
                        ..s.docker
                    },
                    ..s
                },
                OutcomeView {
                    console_active: Some(true),
                    task: Some(TaskView::OpenConsole { id: c.id@, name: c.name@ }),
                },
            ),
            None => (s, quiet()),
        }
    } else {
        (s, quiet())
    }
}

/// A key typed while the console or the delete confirmation has the keyboard.
pub open spec fn console_key(s: AppView, ch: char) -> AppView {
    if is_control_char(ch) {
        s
    } else if s.docker.confirm_delete {
        AppView { docker: DockerView { delete_input: s.docker.delete_input.push(ch), ..s.docker }, ..s }
    } else if s.docker.console_open {
        AppView {
            docker: DockerView {
                console_input: insert_at(s.docker.console_input, s.docker.console_cursor as int, ch),
                console_cursor: (s.docker.console_cursor + 1) as usize,
                ..s.docker
            },
            ..s
        }
    } else {
        s
    }
}

/// Backspace while the console or the delete confirmation has the keyboard.
pub open spec fn console_backspace(s: AppView) -> AppView {
    if s.docker.confirm_delete {
        let d = s.docker.delete_input;
        AppView {
            docker: DockerView {
                delete_input: if d.len() > 0 {
                    d.drop_last()
                } else {
                    d
                },
                ..s.docker
            },
            ..s
        }
    } else if s.docker.console_open && s.docker.console_cursor > 0 {
        let c = (s.docker.console_cursor - 1) as usize;
        AppView {
            docker: DockerView {
                console_cursor: c,
                console_input: remove_at(s.docker.console_input, c as int),
                ..s.docker
            },
            ..s
        }
    } else {
        s
    }
}

/// Enter while the console or the delete confirmation has the keyboard: the
/// confirmation deletes the selected container when the typed text, trimmed, is
/// its name; the console sends its input line.
pub open spec fn console_enter(s: AppView) -> (AppView, OutcomeView) {
    if s.docker.confirm_delete {
        match selected_container(s.docker) {
            Some(c) => if trim(s.docker.delete_input) == c.name@ {
                (
                    AppView {
                        docker: DockerView { confirm_delete: false, delete_input: seq![], ..s.docker },
                        ..s
                    },
                    OutcomeView {
                        console_active: Some(false),
                        task: Some(TaskView::DeleteContainer { id: c.id@, name: c.name@ }),
                    },
                )
            } else {
                (s, quiet())
            },
            None => (s, quiet()),
        }
    } else if s.docker.console_open && s.docker.console_input.len() > 0 {
        (
            AppView {
                docker: DockerView { console_input: seq![], console_cursor: 0, ..s.docker },
                ..s
            },
            OutcomeView {
                console_active: None,
                task: Some(TaskView::SendConsoleLine { line: s.docker.console_input }),
            },
        )
    } else {
        (s, quiet())
    }
}

/// Detaching: cancels a delete confirmation, or else leaves the console.
pub open spec fn console_detach(s: AppView) -> (AppView, OutcomeView) {
    if s.docker.confirm_delete {
        (
            AppView {
                docker: DockerView { confirm_delete: false, delete_input: seq![], ..s.docker },
                ..s
            },
            set_console(false),
        )
    } else if s.docker.console_open {
        (
            AppView {
                docker: DockerView {
                    console_open: false,
                    console_container_id: None,
                    console_title: None,
                    console_input: seq![],
                    console_scroll_offset: 0,
                    ..s.docker
                },
                ..s
            },
            OutcomeView { console_active: Some(false), task: Some(TaskView::DetachConsole) },
        )
    } else {
        (s, quiet())
    }
}

/// The other pane of the network view.
pub open spec fn other_sub_view(v: NetworkSubView) -> NetworkSubView {
    match v {
        NetworkSubView::Manager => NetworkSubView::PortChecker,
        NetworkSubView::PortChecker => NetworkSubView::Manager,
    }
}

/// The other input field of the port checker.
pub open spec fn other_focus(f: PortInputFocus) -> PortInputFocus {
    match f {
        PortInputFocus::Host => PortInputFocus::Ports,
        PortInputFocus::Ports => PortInputFocus::Host,
    }
}

/// Cycling the port preset; a preset other than Custom fills the ports field.
pub open spec fn cycle_preset(s: AppView) -> AppView {
    if in_port_checker(s) {
        let p = preset_after(s.network.port_preset);
        if p != PortPreset::Custom {
            let text = join_ports(preset_ports(p));
            AppView {
                network: NetworkView {
                    port_preset: p,
                    port_input_ports: text,
                    port_input_ports_cursor: byte_len(text) as usize,
                    ..s.network
                },
                ..s
            }
        } else {
            AppView { network: NetworkView { port_preset: p, ..s.network }, ..s }
        }
    } else {
        s
    }
}

/// A key typed into the focused field of the port checker.
pub open spec fn port_input_key(s: AppView, ch: char) -> AppView {
    if in_port_checker(s) {
        match s.network.input_focus {
            PortInputFocus::Host => AppView {
                network: NetworkView {
                    port_input_host: insert_at(
                        s.network.port_input_host,
                        s.network.port_input_host_cursor as int,
                        ch,
                    ),
                    port_input_host_cursor: (s.network.port_input_host_cursor + 1) as usize,
                    ..s.network
                },
                ..s
            },
            PortInputFocus::Ports => AppView {
                network: NetworkView {
                    port_input_ports: insert_at(
                        s.network.port_input_ports,
                        s.network.port_input_ports_cursor as int,
                        ch,
                    ),
                    port_input_ports_cursor: (s.network.port_input_ports_cursor + 1) as usize,
                    ..s.network
                },
                ..s
            },
        }
    } else {
        s
    }
}

/// Backspace in the focused field of the port checker.
pub open spec fn port_input_backspace(s: AppView) -> AppView {
    if in_port_checker(s) {
        match s.network.input_focus {
            PortInputFocus::Host => if s.network.port_input_host_cursor > 0 {
                let c = (s.network.port_input_host_cursor - 1) as usize;
                AppView {
                    network: NetworkView {
                        port_input_host_cursor: c,
                        port_input_host: remove_at(s.network.port_input_host, c as int),
                        ..s.network
                    },
                    ..s
                }
            } else {
                s
            },
            PortInputFocus::Ports => if s.network.port_input_ports_cursor > 0 {
                let c = (s.network.port_input_ports_cursor - 1) as usize;
                AppView {
                    network: NetworkView {
                        port_input_ports_cursor: c,
                        port_input_ports: remove_at(s.network.port_input_ports, c as int),
                        ..s.network
                    },
                    ..s
                }
            } else {
                s
            },
        }
    } else {
        s
    }
}

/// Moving the cursor of the focused port-checker field one byte left.
pub open spec fn port_cursor_left(s: AppView) -> AppView {
    if in_port_checker(s) {
        match s.network.input_focus {
            PortInputFocus::Host => if s.network.port_input_host_cursor > 0 {
                AppView {
                    network: NetworkView {
                        port_input_host_cursor: (s.network.port_input_host_cursor - 1) as usize,
                        ..s.network
                    },
                    ..s
                }
            } else {
                s
            },
            PortInputFocus::Ports => if s.network.port_input_ports_cursor > 0 {
                AppView {
                    network: NetworkView {
                        port_input_ports_cursor: (s.network.port_input_ports_cursor - 1) as usize,
                        ..s.network
                    },
                    ..s
                }
            } else {
                s
            },
        }
    } else {
        s
    }
}

/// Moving the cursor of the focused port-checker field one byte right, up to its end.
pub open spec fn port_cursor_right(s: AppView) -> AppView {
    if in_port_checker(s) {
        match s.network.input_focus {
            PortInputFocus::Host => if s.network.port_input_host_cursor < byte_len(
                s.network.port_input_host,
            ) {
                AppView {
                    network: NetworkView {
                        port_input_host_cursor: (s.network.port_input_host_cursor + 1) as usize,
                        ..s.network
                    },
                    ..s
                }
            } else {
                s
            },
            PortInputFocus::Ports => if s.network.port_input_ports_cursor < byte_len(
                s.network.port_input_ports,
            ) {
                AppView {
                    network: NetworkView {
                        port_input_ports_cursor: (s.network.port_input_ports_cursor + 1) as usize,
                        ..s.network
                    },
                    ..s
                }
            } else {
                s
            },
        }
    } else {
        s
    }
}

/// Starting a port scan: the result lists are emptied and the scan of the
/// ports named in the ports field, on the host in the host field, is asked for.
pub open spec fn scan_start(s: AppView) -> (AppView, OutcomeView) {
    if in_port_checker(s) {
        (
            AppView {
                network: NetworkView {
                    open_ports: seq![],
                    closed_ports: seq![],
                    scanning_status: Some("Scanning..."@),
                    ..s.network
                },
                ..s
            },
            OutcomeView {
                console_active: None,
                task: Some(
                    TaskView::ScanPorts {
                        host: s.network.port_input_host,
                        ports: port_list(s.network.port_input_ports),
                    },
                ),
            },
        )
    } else {
        (s, quiet())
    }
}

/// The result of scanning one port; port 0 marks the end of the scan.
pub open spec fn scan_result(s: AppView, port: u16, open: bool, service: String) -> AppView {
    if port == 0 {
        AppView { network: NetworkView { scanning_status: None, ..s.network }, ..s }
    } else if open {
        AppView {
            network: NetworkView {
                open_ports: s.network.open_ports.push(PortScanResult { port, service }),
                ..s.network
            },
            ..s
        }
    } else {
        AppView {
            network: NetworkView { closed_ports: s.network.closed_ports.push(port), ..s.network },
            ..s
        }
    }
}

/// How the dashboard handles one event: the next state and what it asks of the
/// outside world.
pub open spec fn step(s: AppView, e: AppEvent) -> (AppView, OutcomeView) {
    let in_docker = s.current_view == crate::view::View::Docker;
    let in_network = s.current_view == crate::view::View::Network;
    match e {
        AppEvent::Quit => (AppView { should_quit: true, ..s }, quiet()),
        AppEvent::NextView => (AppView { current_view: view_after(s.current_view), ..s }, quiet()),
        AppEvent::PrevView => (AppView { current_view: view_before(s.current_view), ..s }, quiet()),
        AppEvent::Tick => (AppView { tick_count: tick_after(s.tick_count), ..s }, quiet()),
        AppEvent::DockerContainersUpdated(cs) => (
            AppView {
                docker: DockerView {
                    loading: false,
                    containers: cs@,
                    selected: if s.docker.selected >= cs@.len() {
                        0
                    } else {
                        s.docker.selected
                    },
                    ..s.docker
                },
                ..s
            },
            quiet(),
        ),
        AppEvent::DockerError(err) => (
            AppView { docker: DockerView { loading: false, error: Some(err@), ..s.docker }, ..s },
            quiet(),
        ),
        AppEvent::MoveSelectionUp => (move_up(s), quiet()),
        AppEvent::MoveSelectionDown => (move_down(s), quiet()),
        AppEvent::DockerStartSelected => (s, container_action(s, ContainerAction::Start)),
        AppEvent::DockerStopSelected => (s, container_action(s, ContainerAction::Stop)),
        AppEvent::DockerRestartSelected => (s, container_action(s, ContainerAction::Restart)),
        AppEvent::DockerDeleteKey => if in_docker && !s.docker.console_open {
            (
                AppView {
                    docker: DockerView { confirm_delete: true, delete_input: seq![], ..s.docker },
                    ..s
                },
                set_console(true),
            )
        } else {
            (s, quiet())
        },
        AppEvent::DockerTableScrollUp => if in_docker && s.docker.table_scroll > 0 {
            (
                AppView {
                    docker: DockerView {
                        table_scroll: (s.docker.table_scroll - 1) as usize,
                        ..s.docker
                    },
                    ..s
                },
                quiet(),
            )
        } else {
            (s, quiet())
        },
        AppEvent::DockerTableScrollDown => if in_docker && s.docker.table_scroll < sat_sub(
            s.docker.containers.len() as int,
            1,
        ) {
            (
                AppView {
                    docker: DockerView {
                        table_scroll: (s.docker.table_scroll + 1) as usize,
                        ..s.docker
                    },
                    ..s
                },
                quiet(),
            )
        } else {
            (s, quiet())
        },
        AppEvent::SystemMetricsUpdated(m) => (
            AppView {
                system: SystemState {
                    metrics: Some(m),
                    last_updated_tick: s.tick_count,
                    selected_disk: if s.system.selected_disk >= m.disks@.len() {
                        0
                    } else {
                        s.system.selected_disk
                    },
                },
                ..s
            },
            quiet(),
        ),
        AppEvent::ClearError => if s.docker.confirm_delete {
            (
                AppView {
                    docker: DockerView {
                        error: None,
                        confirm_delete: false,
                        delete_input: seq![],
                        ..s.docker
                    },
                    ..s
                },
                set_console(false),
            )
        } else {
            (AppView { docker: DockerView { error: None, ..s.docker }, ..s }, quiet())
        },
        AppEvent::DockerAttachSelected => attach_selected(s),
        AppEvent::DockerConsoleReset(lines) => (
            AppView {
                docker: DockerView {
                    console_lines: keep_last(lines@, MAX_CONSOLE_LINES as nat),
                    console_open: true,
                    console_cursor: 0,
                    console_scroll_offset: 0,
                    ..s.docker
                },
                ..s
            },
            set_console(true),
        ),
        AppEvent::DockerConsoleOutput(line) => (
            AppView {
                docker: DockerView {
                    console_lines: keep_last(
                        s.docker.console_lines.push(line),
                        MAX_CONSOLE_LINES as nat,
                    ),
                    ..s.docker
                },
                ..s
            },
            quiet(),
        ),
        AppEvent::DockerConsoleScrollUp => if s.docker.console_open {
            let max = sat_sub(s.docker.console_lines.len() as int, 1);
            let up = s.docker.console_scroll_offset + 10;
            (
                AppView {
                    docker: DockerView {
                        console_scroll_offset: (if up < max {
                            up
                        } else {
                            max
                        }) as usize,
                        ..s.docker
                    },
                    ..s
                },
                quiet(),
            )
        } else {
            (s, quiet())
        },
        AppEvent::DockerConsoleScrollDown => if s.docker.console_open {
            (
                AppView {
                    docker: DockerView {
                        console_scroll_offset: sat_sub(
                            s.docker.console_scroll_offset as int,
                            10,
                        ) as usize,
                        ..s.docker
                    },
                    ..s
                },
                quiet(),
            )
        } else {
            (s, quiet())
        },
        AppEvent::DockerConsoleScrollToBottom => if s.docker.console_open {
            (AppView { docker: DockerView { console_scroll_offset: 0, ..s.docker }, ..s }, quiet())
        } else {
            (s, quiet())
        },
        AppEvent::DockerConsoleClosed => (
            AppView {
                docker: DockerView {
                    console_open: false,
                    console_container_id: None,
                    console_title: None,
                    console_input: seq![],
                    ..s.docker
                },
                ..s
            },
            set_console(false),
        ),
        AppEvent::DockerConsoleKey(ch) => (console_key(s, ch), quiet()),
        AppEvent::DockerConsoleBackspace => (console_backspace(s), quiet()),
        AppEvent::DockerConsoleCursorLeft => if s.docker.console_open && s.docker.console_cursor
            > 0 {
            (
                AppView {
                    docker: DockerView {
                        console_cursor: (s.docker.console_cursor - 1) as usize,
                        ..s.docker
                    },
                    ..s
                },
                quiet(),
            )
        } else {
            (s, quiet())
        },
        AppEvent::DockerConsoleCursorRight => if s.docker.console_open && s.docker.console_cursor
            < byte_len(s.docker.console_input) {
            (
                AppView {
                    docker: DockerView {
                        console_cursor: (s.docker.console_cursor + 1) as usize,
                        ..s.docker
                    },
                    ..s
                },
                quiet(),
            )
        } else {
            (s, quiet())
        },
        AppEvent::DockerConsoleEnter => console_enter(s),
        AppEvent::DockerConsoleDetach => console_detach(s),
        AppEvent::NetworkNextSubView => if in_network {
            (
                AppView {
                    network: NetworkView {
                        sub_view: other_sub_view(s.network.sub_view),
                        ..s.network
                    },
                    ..s
                },
                quiet(),
            )
        } else {
            (s, quiet())
        },
        AppEvent::NetworkPrevSubView => if in_network {
            (
                AppView {
                    network: NetworkView {
                        sub_view: other_sub_view(s.network.sub_view),
                        ..s.network
                    },
                    ..s
                },
                quiet(),
            )
        } else {
            (s, quiet())
        },
        AppEvent::NetworkInputEnter => if in_network {
            (
                AppView {
                    network: NetworkView { sub_view: NetworkSubView::PortChecker, ..s.network },
                    ..s
                },
                quiet(),
            )
        } else {
            (s, quiet())
        },
        AppEvent::NetworkInputExit => (s, quiet()),
        AppEvent::NetworkCyclePreset => (cycle_preset(s), quiet()),
        AppEvent::NetworkUpdated(ifs, conns) => (
            AppView {
                network: NetworkView {
                    interfaces: ifs@,
                    connections: conns@,
                    selected_interface: if s.network.selected_interface >= ifs@.len() {
                        0
                    } else {
                        s.network.selected_interface
                    },
                    selected_connection: if s.network.selected_connection >= conns@.len() {
                        0
                    } else {
                        s.network.selected_connection
                    },
                    ..s.network
                },
                ..s
            },
            quiet(),
        ),
        AppEvent::NetworkPortInputKey(ch) => (port_input_key(s, ch), quiet()),
        AppEvent::NetworkPortInputBackspace => (port_input_backspace(s), quiet()),
        AppEvent::NetworkPortInputCursorLeft => (port_cursor_left(s), quiet()),
        AppEvent::NetworkPortInputCursorRight => (port_cursor_right(s), quiet()),
        AppEvent::NetworkPortInputTab => if in_port_checker(s) {
            (
                AppView {
                    network: NetworkView {
                        input_focus: other_focus(s.network.input_focus),
                        ..s.network
                    },
                    ..s
                },
                quiet(),
            )
        } else {
            (s, quiet())
        },
        AppEvent::NetworkPortScanStart => scan_start(s),
        AppEvent::NetworkPortScanResult(port, open, service) => (
            scan_result(s, port, open, service),
            quiet(),
        ),
    }
}

/// The states and events on which handling the event does not fail: it never
/// overflows a counter, and edits its text fields only at character boundaries
/// (elsewhere `String::insert` and `String::remove` panic).
pub open spec fn accepts(s: AppView, e: AppEvent) -> bool {
    match e {
        AppEvent::MoveSelectionDown => match s.current_view {
            crate::view::View::Docker => s.docker.containers.len() > 0 ==> (s.docker.selected
                < usize::MAX && s.docker.table_scroll + MAX_VISIBLE_ROWS <= usize::MAX),
            crate::view::View::System => disk_count(s.system) > 0 ==> s.system.selected_disk
                < usize::MAX,
            crate::view::View::Network => (s.network.sub_view == NetworkSubView::Manager
                && s.network.interfaces.len() > 0) ==> s.network.selected_interface < usize::MAX,
            crate::view::View::Help => true,
        },
        AppEvent::DockerConsoleScrollUp => s.docker.console_open ==> s.docker.console_scroll_offset
            + 10 <= usize::MAX,
        AppEvent::DockerConsoleKey(ch) => (!is_control_char(ch) && !s.docker.confirm_delete
            && s.docker.console_open) ==> (at_boundary(
            s.docker.console_input,
            s.docker.console_cursor as int,
        ) && s.docker.console_cursor < usize::MAX),
        AppEvent::DockerConsoleBackspace => (!s.docker.confirm_delete && s.docker.console_open
            && s.docker.console_cursor > 0) ==> (at_boundary(
            s.docker.console_input,
            s.docker.console_cursor - 1,
        ) && s.docker.console_cursor - 1 < byte_len(s.docker.console_input)),
        AppEvent::NetworkPortInputKey(_) => in_port_checker(s) ==> match s.network.input_focus {
            PortInputFocus::Host => at_boundary(
                s.network.port_input_host,
                s.network.port_input_host_cursor as int,
            ) && s.network.port_input_host_cursor < usize::MAX,
            PortInputFocus::Ports => at_boundary(
                s.network.port_input_ports,
                s.network.port_input_ports_cursor as int,
            ) && s.network.port_input_ports_cursor < usize::MAX,
        },
        AppEvent::NetworkPortInputBackspace => in_port_checker(s) ==> match s.network.input_focus {
            PortInputFocus::Host => s.network.port_input_host_cursor > 0 ==> (at_boundary(
                s.network.port_input_host,
                s.network.port_input_host_cursor - 1,
            ) && s.network.port_input_host_cursor - 1 < byte_len(s.network.port_input_host)),
            PortInputFocus::Ports => s.network.port_input_ports_cursor > 0 ==> (at_boundary(
                s.network.port_input_ports,
                s.network.port_input_ports_cursor - 1,
            ) && s.network.port_input_ports_cursor - 1 < byte_len(s.network.port_input_ports)),
        },
        _ => true,
    }
}

} // verus!

verus! {

/// The Docker state at start-up: nothing listed, nothing selected, no console.
pub open spec fn docker_initial() -> DockerView {
    DockerView {
        containers: seq![],
        selected: 0,
        table_scroll: 0,
        loading: false,
        error: None,
        confirm_delete: false,
        delete_input: seq![],
        console_open: false,
        console_container_id: None,
        console_title: None,
        console_lines: seq![],
        console_input: seq![],
        console_cursor: 0,
        console_scroll_offset: 0,
    }
}

/// The network state at start-up: the manager pane, empty port checker.
pub open spec fn network_initial() -> NetworkView {
    NetworkView {
        sub_view: NetworkSubView::Manager,
        interfaces: seq![],
        connections: seq![],
        selected_interface: 0,
        selected_connection: 0,
        port_input_host: seq![],
        port_input_host_cursor: 0,
        port_input_ports: seq![],
        port_input_ports_cursor: 0,
        port_preset: PortPreset::Custom,
        input_focus: PortInputFocus::Host,
        open_ports: seq![],
        closed_ports: seq![],
        scanning_status: None,
    }
}

/// The whole state at start-up with the given settings: the Docker view shows.
pub open spec fn app_initial(config: Config) -> AppView {
    AppView {
        config,
        current_view: crate::view::View::Docker,
        docker: docker_initial(),
        system: SystemState { metrics: None, last_updated_tick: 0, selected_disk: 0 },
        network: network_initial(),
        should_quit: false,
        tick_count: 0,
    }
}

impl Default for DockerState {
    fn default() -> (r: Self)
        ensures
            r@ == docker_initial(),
    {
        DockerState {
            containers: Vec::new(),
            selected: 0,
            table_scroll: 0,
            loading: false,
            error: None,
            confirm_delete: false,
            delete_input: String::new(),
            console_open: false,
            console_container_id: None,
            console_title: None,
            console_lines: Vec::new(),
            console_input: String::new(),
            console_cursor: 0,
            console_scroll_offset: 0,
        }
    }
}

impl Default for SystemState {
    fn default() -> (r: Self)
        ensures
            r == (SystemState { metrics: None, last_updated_tick: 0, selected_disk: 0 }),
    {
        SystemState { metrics: None, last_updated_tick: 0, selected_disk: 0 }
    }
}

impl Default for NetworkState {
    fn default() -> (r: Self)
        ensures
            r@ == network_initial(),
    {
        NetworkState {
            sub_view: NetworkSubView::Manager,
            interfaces: Vec::new(),
            connections: Vec::new(),
            selected_interface: 0,
            selected_connection: 0,
            port_input_host: String::new(),
            port_input_host_cursor: 0,
            port_input_ports: String::new(),
            port_input_ports_cursor: 0,
            port_preset: PortPreset::Custom,
            input_focus: PortInputFocus::Host,
            open_ports: Vec::new(),
            closed_ports: Vec::new(),
            scanning_status: None,
        }
    }
}

/// Whether `c` is a control character (Unicode category Cc), as `char::is_control` tests.
pub fn is_control(c: char) -> (b: bool)
    ensures
        b == is_control_char(c),
{
    let u = c as u32;
    u <= 0x1f || (0x7f <= u && u <= 0x9f)
}

fn no_outcome() -> (o: Outcome)
    ensures
        o@ == quiet(),
{
    Outcome { console_active: None, task: None }
}

fn console_outcome(active: bool) -> (o: Outcome)
    ensures
        o@ == set_console(active),
{
    Outcome { console_active: Some(active), task: None }
}

/// Keeps the last `MAX_CONSOLE_LINES` lines.
fn keep_recent(lines: Vec<String>) -> (r: Vec<String>)
    ensures
        r@ == keep_last(lines@, MAX_CONSOLE_LINES as nat),
{
    let mut lines = lines;
    if lines.len() > MAX_CONSOLE_LINES {
        let excess = lines.len() - MAX_CONSOLE_LINES;
        let tail = lines.split_off(excess);
        assert(tail@ =~= keep_last(lines@.add(tail@), MAX_CONSOLE_LINES as nat)) by {
            assert(lines@.add(tail@).len() > MAX_CONSOLE_LINES);
        }
        tail
    } else {
        lines
    }
}

impl App {
    /// The dashboard at start-up with the given settings.
    pub fn new(config: Config) -> (app: App)
        ensures
            app@ == app_initial(config),
    {
        App {
            config,
            current_view: crate::view::View::Docker,
            docker: DockerState::default(),
            system: SystemState::default(),
            network: NetworkState::default(),
            should_quit: false,
            tick_count: 0,
        }
    }

    /// Shows the next view.
    pub fn next_view(&mut self)
        ensures
            final(self)@ == (AppView { current_view: view_after(old(self)@.current_view), ..old(self)@ }),
    {
        self.current_view = self.current_view.next();
    }

    /// Shows the previous view.
    pub fn prev_view(&mut self)
        ensures
            final(self)@ == (AppView { current_view: view_before(old(self)@.current_view), ..old(self)@ }),
    {
        self.current_view = self.current_view.prev();
    }

    /// Counts one tick of the UI clock; the counter wraps around.
    pub fn on_tick(&mut self)
        ensures
            final(self)@ == (AppView { tick_count: tick_after(old(self)@.tick_count), ..old(self)@ }),
    {
        self.tick_count = if self.tick_count == u64::MAX {
            0
        } else {
            self.tick_count + 1
        };
    }

    fn move_selection_up(&mut self)
        ensures
            final(self)@ == move_up(old(self)@),
    {
        match self.current_view {
            crate::view::View::Docker => {
                let n = self.docker.containers.len();
                if n > 0 {
                    if self.docker.selected == 0 {
                        self.docker.selected = n - 1;
                    } else {
                        self.docker.selected = self.docker.selected - 1;
                    }
                    if self.docker.selected < self.docker.table_scroll {
                        self.docker.table_scroll = self.docker.selected;
                    }
                }
            },
            crate::view::View::System => {
                let n = match &self.system.metrics {
                    Some(m) => m.disks.len(),
                    None => 0,
                };
                if n > 0 {
                    if self.system.selected_disk == 0 {
                        self.system.selected_disk = n - 1;
                    } else {
                        self.system.selected_disk = self.system.selected_disk - 1;
                    }
                }
            },
            crate::view::View::Network => {
                if self.network.sub_view == NetworkSubView::Manager
                    && self.network.selected_interface > 0 {
                    self.network.selected_interface = self.network.selected_interface - 1;
                }
            },
            crate::view::View::Help => {},
        }
    }

    fn move_selection_down(&mut self)
        requires
            accepts(old(self)@, AppEvent::MoveSelectionDown),
        ensures
            final(self)@ == move_down(old(self)@),
    {
        match self.current_view {
            crate::view::View::Docker => {
                let n = self.docker.containers.len();
                if n > 0 {
                    self.docker.selected = (self.docker.selected + 1) % n;
                    if self.docker.selected >= self.docker.table_scroll + MAX_VISIBLE_ROWS {
                        self.docker.table_scroll = self.docker.selected - MAX_VISIBLE_ROWS + 1;
                    }
                }
            },
            crate::view::View::System => {
                let n = match &self.system.metrics {
                    Some(m) => m.disks.len(),
                    None => 0,
                };
                if n > 0 {
                    self.system.selected_disk = (self.system.selected_disk + 1) % n;
                }
            },
            crate::view::View::Network => {
                let n = self.network.interfaces.len();
                if self.network.sub_view == NetworkSubView::Manager && n > 0 {
                    self.network.selected_interface = (self.network.selected_interface + 1) % n;
                }
            },
            crate::view::View::Help => {},
        }
    }

    fn selected_action(&self, a: ContainerAction) -> (o: Outcome)
        ensures
            o@ == container_action(self@, a),
    {
        if self.current_view == crate::view::View::Docker && self.docker.selected
            < self.docker.containers.len() {
            let c = &self.docker.containers[self.docker.selected];
            let id = c.id.clone();
            let name = c.name.clone();
            let task = match a {
                ContainerAction::Start => Task::StartContainer { id, name },
                ContainerAction::Stop => Task::StopContainer { id, name },
                ContainerAction::Restart => Task::RestartContainer { id, name },
            };
            Outcome { console_active: None, task: Some(task) }
        } else {
            no_outcome()
        }
    }
}

} // verus!

verus! {

impl App {
    fn attach(&mut self) -> (o: Outcome)
        ensures
            final(self)@ == attach_selected(old(self)@).0,
            o@ == attach_selected(old(self)@).1,
    {
        if self.current_view == crate::view::View::Docker && self.docker.selected
            < self.docker.containers.len() {
            let id = self.docker.containers[self.docker.selected].id.clone();
            let name = self.docker.containers[self.docker.selected].name.clone();
            self.docker.console_open = true;
            self.docker.console_container_id = Some(id.clone());
            self.docker.console_title = Some(name.clone());
            self.docker.console_lines = Vec::new();
            self.docker.console_input = String::new();
            self.docker.console_cursor = 0;
            self.docker.console_scroll_offset = 0;
            Outcome { console_active: Some(true), task: Some(Task::OpenConsole { id, name }) }
        } else {
            no_outcome()
        }
    }

    fn type_console_key(&mut self, ch: char)
        requires
            accepts(old(self)@, AppEvent::DockerConsoleKey(ch)),
        ensures
            final(self)@ == console_key(old(self)@, ch),
    {
        if !is_control(ch) {
            if self.docker.confirm_delete {
                push_char(&mut self.docker.delete_input, ch);
            } else if self.docker.console_open {
                string_insert(&mut self.docker.console_input, self.docker.console_cursor, ch);
                self.docker.console_cursor = self.docker.console_cursor + 1;
            }
        }
    }

    fn console_backspace_key(&mut self)
        requires
            accepts(old(self)@, AppEvent::DockerConsoleBackspace),
        ensures
            final(self)@ == console_backspace(old(self)@),
    {
        if self.docker.confirm_delete {
            let mut v = chars_of(self.docker.delete_input.as_str());
            let ghost before = v@;
            v.pop();
            self.docker.delete_input = string_from(v.as_slice());
            assert(before.len() > 0 ==> v@ == before.drop_last());
            assert(before.len() == 0 ==> v@ == before);
        } else if self.docker.console_open && self.docker.console_cursor > 0 {
            self.docker.console_cursor = self.docker.console_cursor - 1;
            string_remove(&mut self.docker.console_input, self.docker.console_cursor);
        }
    }

    fn console_enter_key(&mut self) -> (o: Outcome)
        ensures
            final(self)@ == console_enter(old(self)@).0,
            o@ == console_enter(old(self)@).1,
    {
        if self.docker.confirm_delete {
            if self.docker.selected < self.docker.containers.len() {
                let typed = trim_str(self.docker.delete_input.as_str());
                let matches = typed == self.docker.containers[self.docker.selected].name;
                if matches {
                    let id = self.docker.containers[self.docker.selected].id.clone();
                    let name = self.docker.containers[self.docker.selected].name.clone();
                    self.docker.confirm_delete = false;
                    self.docker.delete_input = String::new();
                    Outcome {
                        console_active: Some(false),
                        task: Some(Task::DeleteContainer { id, name }),
                    }
                } else {
                    no_outcome()
                }
            } else {
                no_outcome()
            }
        } else if self.docker.console_open && !self.docker.console_input.as_str().is_empty() {
            let line = self.docker.console_input.clone();
            self.docker.console_input = String::new();
            self.docker.console_cursor = 0;
            Outcome { console_active: None, task: Some(Task::SendConsoleLine { line }) }
        } else {
            no_outcome()
        }
    }

    fn console_detach_key(&mut self) -> (o: Outcome)
        ensures
            final(self)@ == console_detach(old(self)@).0,
            o@ == console_detach(old(self)@).1,
    {
        if self.docker.confirm_delete {
            self.docker.confirm_delete = false;
            self.docker.delete_input = String::new();
            console_outcome(false)
        } else if self.docker.console_open {
            self.docker.console_open = false;
            self.docker.console_container_id = None;
            self.docker.console_title = None;
            self.docker.console_input = String::new();
            self.docker.console_scroll_offset = 0;
            Outcome { console_active: Some(false), task: Some(Task::DetachConsole) }
        } else {
            no_outcome()
        }
    }

    fn cycle_port_preset(&mut self)
        ensures
            final(self)@ == cycle_preset(old(self)@),
    {
        if self.current_view == crate::view::View::Network && self.network.sub_view
            == NetworkSubView::PortChecker {
            let p = match self.network.port_preset {
                PortPreset::Custom => PortPreset::Common,
                PortPreset::Common => PortPreset::Web,
                PortPreset::Web => PortPreset::Database,
                PortPreset::Database => PortPreset::All,
                PortPreset::All => PortPreset::Custom,
            };
            self.network.port_preset = p;
            if p != PortPreset::Custom {
                let ports = p.ports();
                let text = format_port_list(&ports);
                let n = string_byte_len(&text);
                self.network.port_input_ports = text;
                self.network.port_input_ports_cursor = n;
            }
        }
    }

    fn type_port_key(&mut self, ch: char)
        requires
            accepts(old(self)@, AppEvent::NetworkPortInputKey(ch)),
        ensures
            final(self)@ == port_input_key(old(self)@, ch),
    {
        if self.current_view == crate::view::View::Network && self.network.sub_view
            == NetworkSubView::PortChecker {
            match self.network.input_focus {
                PortInputFocus::Host => {
                    string_insert(
                        &mut self.network.port_input_host,
                        self.network.port_input_host_cursor,
                        ch,
                    );
                    self.network.port_input_host_cursor = self.network.port_input_host_cursor + 1;
                },
                PortInputFocus::Ports => {
                    string_insert(
                        &mut self.network.port_input_ports,
                        self.network.port_input_ports_cursor,
                        ch,
                    );
                    self.network.port_input_ports_cursor = self.network.port_input_ports_cursor
                        + 1;
                },
            }
        }
    }

    fn port_backspace_key(&mut self)
        requires
            accepts(old(self)@, AppEvent::NetworkPortInputBackspace),
        ensures
            final(self)@ == port_input_backspace(old(self)@),
    {
        if self.current_view == crate::view::View::Network && self.network.sub_view
            == NetworkSubView::PortChecker {
            match self.network.input_focus {
                PortInputFocus::Host => {
                    if self.network.port_input_host_cursor > 0 {
                        self.network.port_input_host_cursor = self.network.port_input_host_cursor
                            - 1;
                        string_remove(
                            &mut self.network.port_input_host,
                            self.network.port_input_host_cursor,
                        );
                    }
                },
                PortInputFocus::Ports => {
                    if self.network.port_input_ports_cursor > 0 {
                        self.network.port_input_ports_cursor = self.network.port_input_ports_cursor
                            - 1;
                        string_remove(
                            &mut self.network.port_input_ports,
                            self.network.port_input_ports_cursor,
                        );
                    }
                },
            }
        }
    }

    fn port_cursor_left_key(&mut self)
        ensures
            final(self)@ == port_cursor_left(old(self)@),
    {
        if self.current_view == crate::view::View::Network && self.network.sub_view
            == NetworkSubView::PortChecker {
            match self.network.input_focus {
                PortInputFocus::Host => {
                    if self.network.port_input_host_cursor > 0 {
                        self.network.port_input_host_cursor = self.network.port_input_host_cursor
                            - 1;
                    }
                },
                PortInputFocus::Ports => {
                    if self.network.port_input_ports_cursor > 0 {
                        self.network.port_input_ports_cursor = self.network.port_input_ports_cursor
                            - 1;
                    }
                },
            }
        }
    }

    fn port_cursor_right_key(&mut self)
        ensures
            final(self)@ == port_cursor_right(old(self)@),
    {
        if self.current_view == crate::view::View::Network && self.network.sub_view
            == NetworkSubView::PortChecker {
            match self.network.input_focus {
                PortInputFocus::Host => {
                    if self.network.port_input_host_cursor < string_byte_len(
                        &self.network.port_input_host,
                    ) {
                        self.network.port_input_host_cursor = self.network.port_input_host_cursor
                            + 1;
                    }
                },
                PortInputFocus::Ports => {
                    if self.network.port_input_ports_cursor < string_byte_len(
                        &self.network.port_input_ports,
                    ) {
                        self.network.port_input_ports_cursor = self.network.port_input_ports_cursor
                            + 1;
                    }
                },
            }
        }
    }

    fn start_scan(&mut self) -> (o: Outcome)
        ensures
            final(self)@ == scan_start(old(self)@).0,
            o@ == scan_start(old(self)@).1,
    {
        if self.current_view == crate::view::View::Network && self.network.sub_view
            == NetworkSubView::PortChecker {
            self.network.open_ports = Vec::new();
            self.network.closed_ports = Vec::new();
            self.network.scanning_status = Some(string_of("Scanning..."));
            let host = self.network.port_input_host.clone();
            let ports = parse_port_list(self.network.port_input_ports.as_str());
            Outcome { console_active: None, task: Some(Task::ScanPorts { host, ports }) }
        } else {
            no_outcome()
        }
    }
}

} // verus!

verus! {

impl App {
    /// Whether handling `event` in the current state goes through; see `accepts`.
    pub fn can_handle(&self, event: &AppEvent) -> (b: bool)
        ensures
            b == accepts(self@, *event),
    {
        match event {
            AppEvent::MoveSelectionDown => match self.current_view {
                crate::view::View::Docker => self.docker.containers.len() == 0 || (
                self.docker.selected < usize::MAX && self.docker.table_scroll <= usize::MAX
                    - MAX_VISIBLE_ROWS),
                crate::view::View::System => {
                    let n = match &self.system.metrics {
                        Some(m) => m.disks.len(),
                        None => 0,
                    };
                    n == 0 || self.system.selected_disk < usize::MAX
                },
                crate::view::View::Network => !(self.network.sub_view == NetworkSubView::Manager
                    && self.network.interfaces.len() > 0) || self.network.selected_interface
                    < usize::MAX,
                crate::view::View::Help => true,
            },
            AppEvent::DockerConsoleScrollUp => !self.docker.console_open
                || self.docker.console_scroll_offset <= usize::MAX - 10,
            AppEvent::DockerConsoleKey(ch) => !(!is_control(*ch) && !self.docker.confirm_delete
                && self.docker.console_open) || (string_at_boundary(
                &self.docker.console_input,
                self.docker.console_cursor,
            ) && self.docker.console_cursor < usize::MAX),
            AppEvent::DockerConsoleBackspace => !(!self.docker.confirm_delete
                && self.docker.console_open && self.docker.console_cursor > 0) || (
            string_at_boundary(&self.docker.console_input, self.docker.console_cursor - 1)
                && self.docker.console_cursor - 1 < string_byte_len(&self.docker.console_input)),
            AppEvent::NetworkPortInputKey(_) => {
                if self.current_view == crate::view::View::Network && self.network.sub_view
                    == NetworkSubView::PortChecker {
                    match self.network.input_focus {
                        PortInputFocus::Host => string_at_boundary(
                            &self.network.port_input_host,
                            self.network.port_input_host_cursor,
                        ) && self.network.port_input_host_cursor < usize::MAX,
                        PortInputFocus::Ports => string_at_boundary(
                            &self.network.port_input_ports,
                            self.network.port_input_ports_cursor,
                        ) && self.network.port_input_ports_cursor < usize::MAX,
                    }
                } else {
                    true
                }
            },
            AppEvent::NetworkPortInputBackspace => {
                if self.current_view == crate::view::View::Network && self.network.sub_view
                    == NetworkSubView::PortChecker {
                    match self.network.input_focus {
                        PortInputFocus::Host => self.network.port_input_host_cursor == 0 || (
                        string_at_boundary(
                            &self.network.port_input_host,
                            self.network.port_input_host_cursor - 1,
                        ) && self.network.port_input_host_cursor - 1 < string_byte_len(
                            &self.network.port_input_host,
                        )),
                        PortInputFocus::Ports => self.network.port_input_ports_cursor == 0 || (
                        string_at_boundary(
                            &self.network.port_input_ports,
                            self.network.port_input_ports_cursor - 1,
                        ) && self.network.port_input_ports_cursor - 1 < string_byte_len(
                            &self.network.port_input_ports,
                        )),
                    }
                } else {
                    true
                }
            },
            _ => true,
        }
    }

    /// Handles one event: changes the state as `step` says and returns what the
    /// event asks of the outside world (the console flag, background work).
    #[verifier::spinoff_prover]
    #[verifier::rlimit(80)]
    pub fn update(&mut self, event: AppEvent) -> (o: Outcome)
        requires
            accepts(old(self)@, event),
        ensures
            final(self)@ == step(old(self)@, event).0,
            o@ == step(old(self)@, event).1,
    {
        match event {
            AppEvent::Quit => {
                self.should_quit = true;
                no_outcome()
            },
            AppEvent::NextView => {
                self.next_view();
                no_outcome()
            },
            AppEvent::PrevView => {
                self.prev_view();
                no_outcome()
            },
            AppEvent::Tick => {
                self.on_tick();
                no_outcome()
            },
            AppEvent::DockerContainersUpdated(containers) => {
                self.docker.loading = false;
                self.docker.containers = containers;
                if self.docker.selected >= self.docker.containers.len() {
                    self.docker.selected = 0;
                }
                no_outcome()
            },
            AppEvent::DockerError(err) => {
                self.docker.loading = false;
                self.docker.error = Some(err);
                no_outcome()
            },
            AppEvent::MoveSelectionUp => {
                self.move_selection_up();
                no_outcome()
            },
            AppEvent::MoveSelectionDown => {
                self.move_selection_down();
                no_outcome()
            },
            AppEvent::DockerStartSelected => self.selected_action(ContainerAction::Start),
            AppEvent::DockerStopSelected => self.selected_action(ContainerAction::Stop),
            AppEvent::DockerRestartSelected => self.selected_action(ContainerAction::Restart),
            AppEvent::DockerDeleteKey => {
                if self.current_view == crate::view::View::Docker && !self.docker.console_open {
                    self.docker.confirm_delete = true;
                    self.docker.delete_input = String::new();
                    console_outcome(true)
                } else {
                    no_outcome()
                }
            },
            AppEvent::DockerTableScrollUp => {
                if self.current_view == crate::view::View::Docker && self.docker.table_scroll > 0 {
                    self.docker.table_scroll = self.docker.table_scroll - 1;
                }
                no_outcome()
            },
            AppEvent::DockerTableScrollDown => {
                if self.current_view == crate::view::View::Docker {
                    let n = self.docker.containers.len();
                    let max_scroll = if n > 1 {
                        n - 1
                    } else {
                        0
                    };
                    if self.docker.table_scroll < max_scroll {
                        self.docker.table_scroll = self.docker.table_scroll + 1;
                    }
                }
                no_outcome()
            },
            AppEvent::SystemMetricsUpdated(metrics) => {
                let n = metrics.disks.len();
                self.system.metrics = Some(metrics);
                self.system.last_updated_tick = self.tick_count;
                if self.system.selected_disk >= n {
                    self.system.selected_disk = 0;
                }
                no_outcome()
            },
            AppEvent::ClearError => {
                self.docker.error = None;
                if self.docker.confirm_delete {
                    self.docker.confirm_delete = false;
                    self.docker.delete_input = String::new();
                    console_outcome(false)
                } else {
                    no_outcome()
                }
            },
            AppEvent::DockerAttachSelected => self.attach(),
            AppEvent::DockerConsoleReset(lines) => {
                self.docker.console_lines = keep_recent(lines);
                self.docker.console_open = true;
                self.docker.console_cursor = 0;
                self.docker.console_scroll_offset = 0;
                console_outcome(true)
            },
            AppEvent::DockerConsoleOutput(line) => {
                let mut lines = Vec::new();
                std::mem::swap(&mut lines, &mut self.docker.console_lines);
                lines.push(line);
                self.docker.console_lines = keep_recent(lines);
                no_outcome()
            },
            AppEvent::DockerConsoleScrollUp => {
                if self.docker.console_open {
                    let n = self.docker.console_lines.len();
                    let max_offset = if n > 1 {
                        n - 1
                    } else {
                        0
                    };
                    let up = self.docker.console_scroll_offset + 10;
                    self.docker.console_scroll_offset = if up < max_offset {
                        up
                    } else {
                        max_offset
                    };
                }
                no_outcome()
            },
            AppEvent::DockerConsoleScrollDown => {
                if self.docker.console_open {
                    self.docker.console_scroll_offset = if self.docker.console_scroll_offset > 10 {
                        self.docker.console_scroll_offset - 10
                    } else {
                        0
                    };
                }
                no_outcome()
            },
            AppEvent::DockerConsoleScrollToBottom => {
                if self.docker.console_open {
                    self.docker.console_scroll_offset = 0;
                }
                no_outcome()
            },
            AppEvent::DockerConsoleClosed => {
                self.docker.console_open = false;
                self.docker.console_container_id = None;
                self.docker.console_title = None;
                self.docker.console_input = String::new();
                console_outcome(false)
            },
            AppEvent::DockerConsoleKey(ch) => {
                self.type_console_key(ch);
                no_outcome()
            },
            AppEvent::DockerConsoleBackspace => {
                self.console_backspace_key();
                no_outcome()
            },
            AppEvent::DockerConsoleCursorLeft => {
                if self.docker.console_open && self.docker.console_cursor > 0 {
                    self.docker.console_cursor = self.docker.console_cursor - 1;
                }
                no_outcome()
            },
            AppEvent::DockerConsoleCursorRight => {
                if self.docker.console_open && self.docker.console_cursor < string_byte_len(
                    &self.docker.console_input,
                ) {
                    self.docker.console_cursor = self.docker.console_cursor + 1;
                }
                no_outcome()
            },
            AppEvent::DockerConsoleEnter => self.console_enter_key(),
            AppEvent::DockerConsoleDetach => self.console_detach_key(),
            AppEvent::NetworkNextSubView | AppEvent::NetworkPrevSubView => {
                if self.current_view == crate::view::View::Network {
                    self.network.sub_view = match self.network.sub_view {
                        NetworkSubView::Manager => NetworkSubView::PortChecker,
                        NetworkSubView::PortChecker => NetworkSubView::Manager,
                    };
                }
                no_outcome()
            },
            AppEvent::NetworkInputEnter => {
                if self.current_view == crate::view::View::Network {
                    self.network.sub_view = NetworkSubView::PortChecker;
                }
                no_outcome()
            },
            AppEvent::NetworkInputExit => no_outcome(),
            AppEvent::NetworkCyclePreset => {
                self.cycle_port_preset();
                no_outcome()
            },
            AppEvent::NetworkUpdated(interfaces, connections) => {
                self.network.interfaces = interfaces;
                self.network.connections = connections;
                if self.network.selected_interface >= self.network.interfaces.len() {
                    self.network.selected_interface = 0;
                }
                if self.network.selected_connection >= self.network.connections.len() {
                    self.network.selected_connection = 0;
                }
                no_outcome()
            },
            AppEvent::NetworkPortInputKey(ch) => {
                self.type_port_key(ch);
                no_outcome()
            },
            AppEvent::NetworkPortInputBackspace => {
                self.port_backspace_key();
                no_outcome()
            },
            AppEvent::NetworkPortInputCursorLeft => {
                self.port_cursor_left_key();
                no_outcome()
            },
            AppEvent::NetworkPortInputCursorRight => {
                self.port_cursor_right_key();
                no_outcome()
            },
            AppEvent::NetworkPortInputTab => {
                if self.current_view == crate::view::View::Network && self.network.sub_view
                    == NetworkSubView::PortChecker {
                    self.network.input_focus = match self.network.input_focus {
                        PortInputFocus::Host => PortInputFocus::Ports,
                        PortInputFocus::Ports => PortInputFocus::Host,
                    };
                }
                no_outcome()
            },
            AppEvent::NetworkPortScanStart => self.start_scan(),
            AppEvent::NetworkPortScanResult(port, open, service) => {
                if port == 0 {
                    self.network.scanning_status = None;
                } else if open {
                    self.network.open_ports.push(PortScanResult { port, service });
                } else {
                    self.network.closed_ports.push(port);
                }
                no_outcome()
            },
        }
    }
}

} // verus!

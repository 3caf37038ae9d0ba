//! Properties of the dashboard's event handling that span events and states.
use vstd::prelude::*;
use crate::app::{
    AppView, AppEvent, TaskView, step, accepts, disk_count, in_port_checker, MAX_CONSOLE_LINES,
    sat_sub,
};
use crate::network::{
    PortInputFocus, PortPreset, preset_after, preset_ports, law_port_list_round_trip,
};
use crate::text::trim;
use crate::textbuf::{at_boundary, byte_len, lemma_insert_at_len, lemma_insert_then_remove, lemma_remove_at_len};

verus! {

/// Every selection points into its list, or is 0.
pub open spec fn selections_valid(s: AppView) -> bool {
    &&& (s.docker.selected < s.docker.containers.len() || s.docker.selected == 0)
    &&& (s.system.selected_disk < disk_count(s.system) || s.system.selected_disk == 0)
    &&& (s.network.selected_interface < s.network.interfaces.len()
        || s.network.selected_interface == 0)
    &&& (s.network.selected_connection < s.network.connections.len()
        || s.network.selected_connection == 0)
}

/// Law: once the dashboard is asked to quit, no event takes that back.
pub proof fn law_quit_is_final(s: AppView, e: AppEvent)
    requires
        s.should_quit,
    ensures
        step(s, e).0.should_quit,
{
}

/// Law: switching to the next view and back to the previous one restores the
/// whole state.
pub proof fn law_next_then_prev_view(s: AppView)
    ensures
        step(step(s, AppEvent::NextView).0, AppEvent::PrevView).0 == s,
        step(step(s, AppEvent::PrevView).0, AppEvent::NextView).0 == s,
{
    crate::view::law_view_next_prev_inverse(s.current_view);
    assert(step(step(s, AppEvent::NextView).0, AppEvent::PrevView).0 =~= s);
    assert(step(step(s, AppEvent::PrevView).0, AppEvent::NextView).0 =~= s);
}

/// Law: the console never holds more than `MAX_CONSOLE_LINES` lines.
pub proof fn law_console_lines_bounded(s: AppView, e: AppEvent)
    requires
        s.docker.console_lines.len() <= MAX_CONSOLE_LINES,
    ensures
        step(s, e).0.docker.console_lines.len() <= MAX_CONSOLE_LINES,
{
}

/// Law: a line of console output is kept as the newest line, after the lines
/// that were there, of which the oldest are dropped beyond the limit.
pub proof fn law_console_output_is_newest(s: AppView, line: String)
    ensures
        step(s, AppEvent::DockerConsoleOutput(line)).0.docker.console_lines.last() == line,
        step(s, AppEvent::DockerConsoleOutput(line)).0.docker.console_lines.is_suffix_of(
            s.docker.console_lines.push(line),
        ),
        s.docker.console_lines.len() < MAX_CONSOLE_LINES ==> step(
            s,
            AppEvent::DockerConsoleOutput(line),
        ).0.docker.console_lines == s.docker.console_lines.push(line),
{
    let all = s.docker.console_lines.push(line);
    let kept = step(s, AppEvent::DockerConsoleOutput(line)).0.docker.console_lines;
    if all.len() > MAX_CONSOLE_LINES {
        assert(kept =~= all.subrange(all.len() - MAX_CONSOLE_LINES, all.len() as int));
    } else {
        assert(kept =~= all.subrange(0, all.len() as int));
    }
}

/// Law: every selection stays within its list (or at 0) whatever event comes.
pub proof fn law_selections_stay_valid(s: AppView, e: AppEvent)
    requires
        selections_valid(s),
        accepts(s, e),
    ensures
        selections_valid(step(s, e).0),
{
    match e {
        AppEvent::Tick => {},
        AppEvent::Quit => {},
        AppEvent::NextView => {},
        AppEvent::PrevView => {},
        AppEvent::MoveSelectionUp => {},
        AppEvent::MoveSelectionDown => {},
        AppEvent::DockerStartSelected => {},
        AppEvent::DockerStopSelected => {},
        AppEvent::DockerRestartSelected => {},
        AppEvent::DockerDeleteKey => {},
        AppEvent::DockerAttachSelected => {},
        AppEvent::DockerConsoleReset(_) => {},
        AppEvent::DockerConsoleOutput(_) => {},
        AppEvent::DockerConsoleClosed => {},
        AppEvent::DockerConsoleKey(_) => {},
        AppEvent::DockerConsoleBackspace => {},
        AppEvent::DockerConsoleCursorLeft => {},
        AppEvent::DockerConsoleCursorRight => {},
        AppEvent::DockerConsoleEnter => {},
        AppEvent::DockerConsoleDetach => {},
        AppEvent::DockerConsoleScrollUp => {},
        AppEvent::DockerConsoleScrollDown => {},
        AppEvent::DockerConsoleScrollToBottom => {},
        AppEvent::DockerContainersUpdated(_) => {},
        AppEvent::DockerError(_) => {},
        AppEvent::DockerTableScrollUp => {},
        AppEvent::DockerTableScrollDown => {},
        AppEvent::SystemMetricsUpdated(_) => {},
        AppEvent::NetworkUpdated(_,_) => {},
        AppEvent::NetworkNextSubView => {},
        AppEvent::NetworkPrevSubView => {},
        AppEvent::NetworkInputEnter => {},
        AppEvent::NetworkInputExit => {},
        AppEvent::NetworkCyclePreset => {},
        AppEvent::NetworkPortInputKey(_) => {},
        AppEvent::NetworkPortInputBackspace => {},
        AppEvent::NetworkPortInputCursorLeft => {},
        AppEvent::NetworkPortInputCursorRight => {},
        AppEvent::NetworkPortInputTab => {},
        AppEvent::NetworkPortScanStart => {},
        AppEvent::NetworkPortScanResult(_,_,_) => {},
        AppEvent::ClearError => {},
    }
}

/// Law: a container is deleted only from the delete confirmation, on Enter,
/// when the typed text, trimmed, is the name of the selected container; and it
/// is that container.
pub proof fn law_delete_needs_confirmation(s: AppView, e: AppEvent)
    ensures
        match step(s, e).1.task {
            Some(TaskView::DeleteContainer { id, name }) => {
                &&& e is DockerConsoleEnter
                &&& s.docker.confirm_delete
                &&& s.docker.selected < s.docker.containers.len()
                &&& id == s.docker.containers[s.docker.selected as int].id@
                &&& name == s.docker.containers[s.docker.selected as int].name@
                &&& trim(s.docker.delete_input) == name
            },
            _ => true,
        },
{
}

/// Law: in the network view, switching the pane twice, either way, restores
/// the whole state.
pub proof fn law_sub_view_toggle(s: AppView)
    requires
        s.current_view == crate::view::View::Network,
    ensures
        step(step(s, AppEvent::NetworkNextSubView).0, AppEvent::NetworkNextSubView).0 == s,
        step(step(s, AppEvent::NetworkNextSubView).0, AppEvent::NetworkPrevSubView).0 == s,
{
    assert(step(step(s, AppEvent::NetworkNextSubView).0, AppEvent::NetworkNextSubView).0 =~= s);
    assert(step(step(s, AppEvent::NetworkNextSubView).0, AppEvent::NetworkPrevSubView).0 =~= s);
}

/// Law: in the port checker, Tab twice restores the whole state.
pub proof fn law_focus_toggle(s: AppView)
    requires
        in_port_checker(s),
    ensures
        step(step(s, AppEvent::NetworkPortInputTab).0, AppEvent::NetworkPortInputTab).0 == s,
{
    assert(step(step(s, AppEvent::NetworkPortInputTab).0, AppEvent::NetworkPortInputTab).0 =~= s);
}

/// Cycling the preset in the port checker moves to the next preset and stays
/// in the port checker.
proof fn lemma_cycle_step(s: AppView)
    requires
        in_port_checker(s),
    ensures
        in_port_checker(step(s, AppEvent::NetworkCyclePreset).0),
        step(s, AppEvent::NetworkCyclePreset).0.network.port_preset == preset_after(
            s.network.port_preset,
        ),
{
}

/// Law: in the port checker, cycling the preset five times comes back to the
/// preset it started from.
pub proof fn law_preset_cycle(s: AppView)
    requires
        in_port_checker(s),
    ensures
        ({
            let s1 = step(s, AppEvent::NetworkCyclePreset).0;
            let s2 = step(s1, AppEvent::NetworkCyclePreset).0;
            let s3 = step(s2, AppEvent::NetworkCyclePreset).0;
            let s4 = step(s3, AppEvent::NetworkCyclePreset).0;
            let s5 = step(s4, AppEvent::NetworkCyclePreset).0;
            s5.network.port_preset == s.network.port_preset
        }),
{
    let s1 = step(s, AppEvent::NetworkCyclePreset).0;
    lemma_cycle_step(s);
    let s2 = step(s1, AppEvent::NetworkCyclePreset).0;
    lemma_cycle_step(s1);
    let s3 = step(s2, AppEvent::NetworkCyclePreset).0;
    lemma_cycle_step(s2);
    let s4 = step(s3, AppEvent::NetworkCyclePreset).0;
    lemma_cycle_step(s3);
    lemma_cycle_step(s4);
}

/// Law: after choosing a preset other than Custom, starting a scan scans
/// exactly the preset's ports, in order, on the host that was typed.
pub proof fn law_preset_then_scan(s: AppView)
    requires
        in_port_checker(s),
        preset_after(s.network.port_preset) != PortPreset::Custom,
    ensures
        step(step(s, AppEvent::NetworkCyclePreset).0, AppEvent::NetworkPortScanStart).1.task
            == Some(
            TaskView::ScanPorts {
                host: s.network.port_input_host,
                ports: preset_ports(preset_after(s.network.port_preset)),
            },
        ),
{
    law_port_list_round_trip(preset_ports(preset_after(s.network.port_preset)));
}


/// The cursors of the port checker's fields lie within their text.
pub open spec fn port_cursors_in_fields(s: AppView) -> bool {
    &&& s.network.port_input_host_cursor <= byte_len(s.network.port_input_host)
    &&& s.network.port_input_ports_cursor <= byte_len(s.network.port_input_ports)
}

/// Law: the cursors of the port checker's fields never leave their text.
pub proof fn law_port_cursors_stay_in_fields(s: AppView, e: AppEvent)
    requires
        port_cursors_in_fields(s),
        accepts(s, e),
    ensures
        port_cursors_in_fields(step(s, e).0),
{
    match e {
        AppEvent::NetworkPortInputKey(ch) => {
            if in_port_checker(s) {
                match s.network.input_focus {
                    crate::network::PortInputFocus::Host => lemma_insert_at_len(
                        s.network.port_input_host,
                        s.network.port_input_host_cursor as int,
                        ch,
                    ),
                    crate::network::PortInputFocus::Ports => lemma_insert_at_len(
                        s.network.port_input_ports,
                        s.network.port_input_ports_cursor as int,
                        ch,
                    ),
                }
            }
        },
        AppEvent::NetworkPortInputBackspace => {
            if in_port_checker(s) {
                match s.network.input_focus {
                    crate::network::PortInputFocus::Host => if s.network.port_input_host_cursor > 0 {
                        lemma_remove_at_len(
                            s.network.port_input_host,
                            s.network.port_input_host_cursor - 1,
                        );
                    },
                    crate::network::PortInputFocus::Ports => if s.network.port_input_ports_cursor
                        > 0 {
                        lemma_remove_at_len(
                            s.network.port_input_ports,
                            s.network.port_input_ports_cursor - 1,
                        );
                    },
                }
            }
        },
        AppEvent::Tick => {},
        AppEvent::Quit => {},
        AppEvent::NextView => {},
        AppEvent::PrevView => {},
        AppEvent::MoveSelectionUp => {},
        AppEvent::MoveSelectionDown => {},
        AppEvent::DockerStartSelected => {},
        AppEvent::DockerStopSelected => {},
        AppEvent::DockerRestartSelected => {},
        AppEvent::DockerDeleteKey => {},
        AppEvent::DockerAttachSelected => {},
        AppEvent::DockerConsoleReset(_) => {},
        AppEvent::DockerConsoleOutput(_) => {},
        AppEvent::DockerConsoleClosed => {},
        AppEvent::DockerConsoleKey(_) => {},
        AppEvent::DockerConsoleBackspace => {},
        AppEvent::DockerConsoleCursorLeft => {},
        AppEvent::DockerConsoleCursorRight => {},
        AppEvent::DockerConsoleEnter => {},
        AppEvent::DockerConsoleDetach => {},
        AppEvent::DockerConsoleScrollUp => {},
        AppEvent::DockerConsoleScrollDown => {},
        AppEvent::DockerConsoleScrollToBottom => {},
        AppEvent::DockerContainersUpdated(_) => {},
        AppEvent::DockerError(_) => {},
        AppEvent::DockerTableScrollUp => {},
        AppEvent::DockerTableScrollDown => {},
        AppEvent::SystemMetricsUpdated(_) => {},
        AppEvent::NetworkUpdated(_,_) => {},
        AppEvent::NetworkNextSubView => {},
        AppEvent::NetworkPrevSubView => {},
        AppEvent::NetworkInputEnter => {},
        AppEvent::NetworkInputExit => {},
        AppEvent::NetworkCyclePreset => {},
        AppEvent::NetworkPortInputCursorLeft => {},
        AppEvent::NetworkPortInputCursorRight => {},
        AppEvent::NetworkPortInputTab => {},
        AppEvent::NetworkPortScanStart => {},
        AppEvent::NetworkPortScanResult(_,_,_) => {},
        AppEvent::ClearError => {},
    }
}

/// The console's cursor lies within its input line.
pub open spec fn console_cursor_in_input(s: AppView) -> bool {
    s.docker.console_cursor <= byte_len(s.docker.console_input)
}

/// Law: the console's cursor stays within its input line, except when the
/// console closes or is detached with the cursor away from the start: both
/// empty the line and leave the cursor where it was.
#[verifier::spinoff_prover]
#[verifier::rlimit(40)]
pub proof fn law_console_cursor_stays_in_input(s: AppView, e: AppEvent)
    requires
        console_cursor_in_input(s),
        accepts(s, e),
        !(e is DockerConsoleClosed && s.docker.console_cursor > 0),
        !(e is DockerConsoleDetach && !s.docker.confirm_delete && s.docker.console_open
            && s.docker.console_cursor > 0),
    ensures
        console_cursor_in_input(step(s, e).0),
{
    match e {
        AppEvent::DockerConsoleKey(ch) => {
            if !crate::app::is_control_char(ch) && !s.docker.confirm_delete
                && s.docker.console_open {
                lemma_insert_at_len(s.docker.console_input, s.docker.console_cursor as int, ch);
            }
        },
        AppEvent::DockerConsoleBackspace => {
            if !s.docker.confirm_delete && s.docker.console_open && s.docker.console_cursor > 0 {
                lemma_remove_at_len(s.docker.console_input, s.docker.console_cursor - 1);
            }
        },
        AppEvent::DockerConsoleDetach => {
            if !s.docker.confirm_delete && s.docker.console_open {
                assert(byte_len(Seq::<char>::empty()) == 0);
            }
        },
        AppEvent::DockerConsoleClosed => {
            assert(byte_len(Seq::<char>::empty()) == 0);
        },
        AppEvent::DockerConsoleEnter => {
            assert(byte_len(Seq::<char>::empty()) == 0);
        },
        AppEvent::DockerAttachSelected => {
            assert(byte_len(Seq::<char>::empty()) == 0);
        },
        _ => {},
    }
}

/// Law: scrolling the console up never goes past its oldest line, and
/// scrolling down or to the bottom never goes below the bottom.
pub proof fn law_console_scroll_in_range(s: AppView)
    requires
        s.docker.console_open,
        s.docker.console_scroll_offset + 10 <= usize::MAX,
    ensures
        step(s, AppEvent::DockerConsoleScrollUp).0.docker.console_scroll_offset <= sat_sub(
            s.docker.console_lines.len() as int,
            1,
        ),
        step(s, AppEvent::DockerConsoleScrollDown).0.docker.console_scroll_offset
            <= s.docker.console_scroll_offset,
        step(s, AppEvent::DockerConsoleScrollToBottom).0.docker.console_scroll_offset == 0,
{
}

/// Law: new console output keeps the scroll position, so a console at the
/// bottom stays at the bottom.
pub proof fn law_console_output_keeps_scroll(s: AppView, line: String)
    ensures
        step(s, AppEvent::DockerConsoleOutput(line)).0.docker.console_scroll_offset
            == s.docker.console_scroll_offset,
{
}

/// Law: in the open console, typing a character and then Backspace gives back
/// the whole state: the input line and its cursor are as before.
pub proof fn law_console_key_then_backspace(s: AppView, ch: char)
    requires
        s.docker.console_open,
        !s.docker.confirm_delete,
        !crate::app::is_control_char(ch),
        at_boundary(s.docker.console_input, s.docker.console_cursor as int),
        s.docker.console_cursor < usize::MAX,
    ensures
        step(step(s, AppEvent::DockerConsoleKey(ch)).0, AppEvent::DockerConsoleBackspace).0 == s,
        step(step(s, AppEvent::DockerConsoleKey(ch)).0, AppEvent::DockerConsoleBackspace).1
            == crate::app::quiet(),
{
    lemma_insert_then_remove(s.docker.console_input, s.docker.console_cursor as int, ch);
    assert(step(step(s, AppEvent::DockerConsoleKey(ch)).0, AppEvent::DockerConsoleBackspace).0
        =~= s);
}

/// Law: in the port checker, typing a character into the focused field and
/// then Backspace gives back the whole state.
pub proof fn law_port_key_then_backspace(s: AppView, ch: char)
    requires
        in_port_checker(s),
        s.network.input_focus == PortInputFocus::Host ==> (at_boundary(
            s.network.port_input_host,
            s.network.port_input_host_cursor as int,
        ) && s.network.port_input_host_cursor < usize::MAX),
        s.network.input_focus == PortInputFocus::Ports ==> (at_boundary(
            s.network.port_input_ports,
            s.network.port_input_ports_cursor as int,
        ) && s.network.port_input_ports_cursor < usize::MAX),
    ensures
        step(
            step(s, AppEvent::NetworkPortInputKey(ch)).0,
            AppEvent::NetworkPortInputBackspace,
        ).0 == s,
{
    match s.network.input_focus {
        PortInputFocus::Host => lemma_insert_then_remove(
            s.network.port_input_host,
            s.network.port_input_host_cursor as int,
            ch,
        ),
        PortInputFocus::Ports => lemma_insert_then_remove(
            s.network.port_input_ports,
            s.network.port_input_ports_cursor as int,
            ch,
        ),
    }
    assert(step(
        step(s, AppEvent::NetworkPortInputKey(ch)).0,
        AppEvent::NetworkPortInputBackspace,
    ).0 =~= s);
}

/// The position after `i` in a ring of `n` positions.
proof fn lemma_ring_next(i: int, n: int)
    requires
        0 <= i < n,
    ensures
        (i + 1) % n == if i + 1 < n {
            i + 1
        } else {
            0
        },
{
    if i + 1 < n {
        vstd::arithmetic::div_mod::lemma_small_mod((i + 1) as nat, n as nat);
    } else {
        vstd::arithmetic::div_mod::lemma_mod_self_0(n);
    }
}

/// Law: in the Docker view with containers listed and the selection inside the
/// list, moving down selects the next container (the last wraps to the first)
/// and scrolls the table only to keep it in sight; moving up right after
/// selects the container that was selected before, and the other way round.
pub proof fn law_docker_down_then_up(s: AppView)
    requires
        s.current_view == crate::view::View::Docker,
        s.docker.containers.len() > 0,
        s.docker.containers.len() <= usize::MAX,
        s.docker.selected < s.docker.containers.len(),
    ensures
        step(s, AppEvent::MoveSelectionDown).0.docker.selected == (s.docker.selected + 1)
            % (s.docker.containers.len() as int),
        step(s, AppEvent::MoveSelectionDown).0.docker.table_scroll == if step(
            s,
            AppEvent::MoveSelectionDown,
        ).0.docker.selected >= s.docker.table_scroll + crate::app::MAX_VISIBLE_ROWS {
            step(s, AppEvent::MoveSelectionDown).0.docker.selected - crate::app::MAX_VISIBLE_ROWS
                + 1
        } else {
            s.docker.table_scroll as int
        },
        step(step(s, AppEvent::MoveSelectionDown).0, AppEvent::MoveSelectionUp).0.docker.selected
            == s.docker.selected,
        step(step(s, AppEvent::MoveSelectionUp).0, AppEvent::MoveSelectionDown).0.docker.selected
            == s.docker.selected,
{
    let n = s.docker.containers.len() as int;
    lemma_ring_next(s.docker.selected as int, n);
    let up = if s.docker.selected == 0 {
        n - 1
    } else {
        s.docker.selected - 1
    };
    lemma_ring_next(up, n);
}

/// Law: in the system view, moving down and then up (or up and then down) gives
/// back the selected disk. In the network manager, where moving up stops at the
/// first interface, the same holds away from the ends: down then up from any
/// interface but the last, up then down from any but the first.
pub proof fn law_list_down_then_up(s: AppView)
    requires
        disk_count(s.system) <= usize::MAX,
        s.network.interfaces.len() <= usize::MAX,
        s.current_view == crate::view::View::System ==> s.system.selected_disk < disk_count(
            s.system,
        ),
        s.current_view == crate::view::View::Network ==> s.network.selected_interface
            < s.network.interfaces.len() || s.network.selected_interface == 0,
    ensures
        s.current_view == crate::view::View::System ==> step(
            step(s, AppEvent::MoveSelectionDown).0,
            AppEvent::MoveSelectionUp,
        ).0.system.selected_disk == s.system.selected_disk && step(
            step(s, AppEvent::MoveSelectionUp).0,
            AppEvent::MoveSelectionDown,
        ).0.system.selected_disk == s.system.selected_disk,
        s.current_view == crate::view::View::Network && s.network.selected_interface + 1
            < s.network.interfaces.len() ==> step(
            step(s, AppEvent::MoveSelectionDown).0,
            AppEvent::MoveSelectionUp,
        ).0.network.selected_interface == s.network.selected_interface,
        s.current_view == crate::view::View::Network && s.network.selected_interface > 0 ==> step(
            step(s, AppEvent::MoveSelectionUp).0,
            AppEvent::MoveSelectionDown,
        ).0.network.selected_interface == s.network.selected_interface,
{
    if s.current_view == crate::view::View::System {
        let n = disk_count(s.system) as int;
        let i = s.system.selected_disk as int;
        lemma_ring_next(i, n);
        lemma_ring_next(if i == 0 { n - 1 } else { i - 1 }, n);
    }
    if s.current_view == crate::view::View::Network && s.network.interfaces.len() > 0 {
        let n = s.network.interfaces.len() as int;
        let i = s.network.selected_interface as int;
        lemma_ring_next(i, n);
        lemma_ring_next(if i == 0 { n - 1 } else { i - 1 }, n);
    }
}

/// Law: resetting the console with the recent log lines keeps the last
/// `MAX_CONSOLE_LINES` of them, in order, opens the console with an empty
/// cursor position at the bottom, and gives it the keyboard.
pub proof fn law_console_reset(s: AppView, lines: Vec<String>)
    ensures
        step(s, AppEvent::DockerConsoleReset(lines)).0.docker.console_lines
            == crate::app::keep_last(lines@, MAX_CONSOLE_LINES as nat),
        step(s, AppEvent::DockerConsoleReset(lines)).0.docker.console_lines.len()
            <= MAX_CONSOLE_LINES,
        lines@.len() <= MAX_CONSOLE_LINES ==> step(
            s,
            AppEvent::DockerConsoleReset(lines),
        ).0.docker.console_lines == lines@,
        step(s, AppEvent::DockerConsoleReset(lines)).0.docker.console_open,
        step(s, AppEvent::DockerConsoleReset(lines)).0.docker.console_cursor == 0,
        step(s, AppEvent::DockerConsoleReset(lines)).0.docker.console_scroll_offset == 0,
        step(s, AppEvent::DockerConsoleReset(lines)).1 == crate::app::set_console(true),
{
}

/// Law: starting a scan in the port checker forgets the results of any earlier
/// scan (no open and no closed ports are listed), shows "Scanning...", and asks
/// for the typed host to be scanned; nothing else of the state changes. Out of
/// the port checker it does nothing.
pub proof fn law_scan_start_clears_results(s: AppView)
    ensures
        in_port_checker(s) ==> step(s, AppEvent::NetworkPortScanStart).0.network.open_ports.len()
            == 0,
        in_port_checker(s) ==> step(s, AppEvent::NetworkPortScanStart).0.network.closed_ports.len()
            == 0,
        in_port_checker(s) ==> step(s, AppEvent::NetworkPortScanStart).0.network.scanning_status
            == Some("Scanning..."@),
        in_port_checker(s) ==> (step(s, AppEvent::NetworkPortScanStart).1.task matches Some(
            TaskView::ScanPorts { host, .. },
        ) && host == s.network.port_input_host),
        step(s, AppEvent::NetworkPortScanStart).0.docker == s.docker,
        step(s, AppEvent::NetworkPortScanStart).0.network.port_input_host
            == s.network.port_input_host,
        step(s, AppEvent::NetworkPortScanStart).0.network.port_input_ports
            == s.network.port_input_ports,
        !in_port_checker(s) ==> step(s, AppEvent::NetworkPortScanStart).0 == s,
        !in_port_checker(s) ==> step(s, AppEvent::NetworkPortScanStart).1.task is None,
{
}

/// Law: after a scan starts, the first result reported is the only one listed:
/// an open port with its service, or a closed port; the end of the scan (port
/// 0) lists nothing and clears the status.
pub proof fn law_scan_start_then_result(s: AppView, port: u16, open: bool, service: String)
    requires
        in_port_checker(s),
    ensures
        ({
            let t = step(
                step(s, AppEvent::NetworkPortScanStart).0,
                AppEvent::NetworkPortScanResult(port, open, service),
            ).0;
            &&& port != 0 && open ==> t.network.open_ports == seq![
                crate::network::PortScanResult { port, service },
            ] && t.network.closed_ports.len() == 0
            &&& port != 0 && !open ==> t.network.closed_ports == seq![port]
                && t.network.open_ports.len() == 0
            &&& port == 0 ==> t.network.open_ports.len() == 0 && t.network.closed_ports.len() == 0
                && t.network.scanning_status is None
        }),
{
    let t = step(
        step(s, AppEvent::NetworkPortScanStart).0,
        AppEvent::NetworkPortScanResult(port, open, service),
    ).0;
    if port != 0 && open {
        assert(t.network.open_ports =~= seq![crate::network::PortScanResult { port, service }]);
    }
    if port != 0 && !open {
        assert(t.network.closed_ports =~= seq![port]);
    }
}

} // verus!

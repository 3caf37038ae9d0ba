//! Which event a key press stands for, in each input mode.
use vstd::prelude::*;
use crate::app::AppEvent;

verus! {

/// A key of the keyboard, as far as the dashboard tells keys apart.
#[derive(Debug, Clone, Copy, PartialEq, Eq, Structural)]
pub enum KeyCode {
    Backspace,
    Enter,
    Left,
    Right,
    Up,
    Down,
    Home,
    End,
    PageUp,
    PageDown,
    Tab,
    BackTab,
    Delete,
    Insert,
    Esc,
    Char(char),
    /// Any other key.
    Other,
}

/// No modifier key held.
pub const MOD_NONE: u8 = 0;
/// The shift bit of the modifier set.
pub const MOD_SHIFT: u8 = 1;
/// The control bit of the modifier set.
pub const MOD_CONTROL: u8 = 2;
/// The alt bit of the modifier set.
pub const MOD_ALT: u8 = 4;

/// A key press: the key and the exact set of modifier keys held, one bit each.
#[derive(Debug, Clone, Copy, PartialEq, Eq, Structural)]
pub struct KeyPress {
    pub code: KeyCode,
    pub modifiers: u8,
}

/// What a key press asks for: an event for the dashboard, and a new value of
/// the "network input is active" flag.
#[derive(Debug)]
pub struct KeyOutcome {
    pub event: Option<AppEvent>,
    pub network_input: Option<bool>,
}

/// The event a key press stands for while the Docker console (or the delete
/// confirmation) has the keyboard.
pub open spec fn console_key_event(k: KeyPress) -> Option<AppEvent> {
    match k.code {
        KeyCode::Esc => Some(AppEvent::ClearError),
        KeyCode::Enter => Some(AppEvent::DockerConsoleEnter),
        KeyCode::Insert => Some(AppEvent::DockerConsoleDetach),
        KeyCode::Backspace => Some(AppEvent::DockerConsoleBackspace),
        KeyCode::PageUp => Some(AppEvent::DockerConsoleScrollUp),
        KeyCode::PageDown => Some(AppEvent::DockerConsoleScrollDown),
        KeyCode::Up => if k.modifiers == MOD_ALT {
            Some(AppEvent::DockerTableScrollUp)
        } else {
            Some(AppEvent::DockerConsoleScrollUp)
        },
        KeyCode::Down => if k.modifiers == MOD_ALT {
            Some(AppEvent::DockerTableScrollDown)
        } else {
            Some(AppEvent::DockerConsoleScrollDown)
        },
        KeyCode::Left => Some(AppEvent::DockerConsoleCursorLeft),
        KeyCode::Right => Some(AppEvent::DockerConsoleCursorRight),
        KeyCode::End => Some(AppEvent::DockerConsoleScrollToBottom),
        KeyCode::Char(ch) => Some(AppEvent::DockerConsoleKey(ch)),
        _ => None,
    }
}

/// The event a key press stands for while the port checker's input has the
/// keyboard; Esc also ends that input mode.
pub open spec fn network_key_event(k: KeyPress) -> (Option<AppEvent>, Option<bool>) {
    match k.code {
        KeyCode::Esc => (Some(AppEvent::NetworkInputExit), Some(false)),
        KeyCode::Left => if k.modifiers == MOD_CONTROL {
            (Some(AppEvent::PrevView), None)
        } else {
            (Some(AppEvent::NetworkPortInputCursorLeft), None)
        },
        KeyCode::Right => if k.modifiers == MOD_CONTROL {
            (Some(AppEvent::NextView), None)
        } else {
            (Some(AppEvent::NetworkPortInputCursorRight), None)
        },
        KeyCode::Tab => if k.modifiers == MOD_NONE {
            (Some(AppEvent::NetworkPortInputTab), None)
        } else {
            (None, None)
        },
        KeyCode::Enter => (Some(AppEvent::NetworkPortScanStart), None),
        KeyCode::Backspace => (Some(AppEvent::NetworkPortInputBackspace), None),
        KeyCode::Char(ch) => if ch == 'p' {
            (Some(AppEvent::NetworkCyclePreset), None)
        } else {
            (Some(AppEvent::NetworkPortInputKey(ch)), None)
        },
        _ => (None, None),
    }
}

/// The event a key press stands for in the normal mode; `i` also starts the
/// port checker's input mode.
pub open spec fn main_key_event(k: KeyPress) -> (Option<AppEvent>, Option<bool>) {
    match k.code {
        KeyCode::Char(ch) => if ch == 'q' {
            (Some(AppEvent::Quit), None)
        } else if ch == 'h' {
            (Some(AppEvent::PrevView), None)
        } else if ch == 'l' {
            (Some(AppEvent::NextView), None)
        } else if ch == 'o' {
            (Some(AppEvent::DockerStartSelected), None)
        } else if ch == 's' {
            (Some(AppEvent::DockerStopSelected), None)
        } else if ch == 'r' {
            (Some(AppEvent::DockerRestartSelected), None)
        } else if ch == 'i' {
            (Some(AppEvent::NetworkInputEnter), Some(true))
        } else {
            (None, None)
        },
        KeyCode::Left => if k.modifiers == MOD_CONTROL {
            (Some(AppEvent::PrevView), None)
        } else {
            (None, None)
        },
        KeyCode::Right => if k.modifiers == MOD_CONTROL {
            (Some(AppEvent::NextView), None)
        } else {
            (None, None)
        },
        KeyCode::Up => if k.modifiers == MOD_ALT {
            (Some(AppEvent::DockerTableScrollUp), None)
        } else {
            (Some(AppEvent::MoveSelectionUp), None)
        },
        KeyCode::Down => if k.modifiers == MOD_ALT {
            (Some(AppEvent::DockerTableScrollDown), None)
        } else {
            (Some(AppEvent::MoveSelectionDown), None)
        },
        KeyCode::Delete => (Some(AppEvent::DockerDeleteKey), None),
        KeyCode::Enter => (Some(AppEvent::DockerAttachSelected), None),
        KeyCode::Tab => if k.modifiers == MOD_NONE {
            (Some(AppEvent::NetworkNextSubView), None)
        } else {
            (None, None)
        },
        KeyCode::BackTab => (Some(AppEvent::NetworkPrevSubView), None),
        KeyCode::Esc => (Some(AppEvent::ClearError), None),
        _ => (None, None),
    }
}

/// What a key press asks for: the console has the keyboard first, then the
/// port checker's input, then the normal mode.
pub open spec fn key_outcome(k: KeyPress, console_active: bool, network_input_active: bool) -> (
    Option<AppEvent>,
    Option<bool>,
) {
    if console_active {
        (console_key_event(k), None)
    } else if network_input_active {
        network_key_event(k)
    } else {
        main_key_event(k)
    }
}

/// The event a key press stands for while the console has the keyboard.
pub fn handle_console_input(key: KeyPress) -> (r: Option<AppEvent>)
    ensures
        r == console_key_event(key),
{
    match key.code {
        KeyCode::Esc => Some(AppEvent::ClearError),
        KeyCode::Enter => Some(AppEvent::DockerConsoleEnter),
        KeyCode::Insert => Some(AppEvent::DockerConsoleDetach),
        KeyCode::Backspace => Some(AppEvent::DockerConsoleBackspace),
        KeyCode::PageUp => Some(AppEvent::DockerConsoleScrollUp),
        KeyCode::PageDown => Some(AppEvent::DockerConsoleScrollDown),
        KeyCode::Up => if key.modifiers == MOD_ALT {
            Some(AppEvent::DockerTableScrollUp)
        } else {
            Some(AppEvent::DockerConsoleScrollUp)
        },
        KeyCode::Down => if key.modifiers == MOD_ALT {
            Some(AppEvent::DockerTableScrollDown)
        } else {
            Some(AppEvent::DockerConsoleScrollDown)
        },
        KeyCode::Left => Some(AppEvent::DockerConsoleCursorLeft),
        KeyCode::Right => Some(AppEvent::DockerConsoleCursorRight),
        KeyCode::End => Some(AppEvent::DockerConsoleScrollToBottom),
        KeyCode::Char(ch) => Some(AppEvent::DockerConsoleKey(ch)),
        _ => None,
    }
}

/// The event a key press stands for while the port checker's input has the
/// keyboard, and whether it ends that mode.
pub fn handle_network_input(key: KeyPress) -> (r: KeyOutcome)
    ensures
        (r.event, r.network_input) == network_key_event(key),
{
    let (event, network_input) = match key.code {
        KeyCode::Esc => (Some(AppEvent::NetworkInputExit), Some(false)),
        KeyCode::Left => if key.modifiers == MOD_CONTROL {
            (Some(AppEvent::PrevView), None)
        } else {
            (Some(AppEvent::NetworkPortInputCursorLeft), None)
        },
        KeyCode::Right => if key.modifiers == MOD_CONTROL {
            (Some(AppEvent::NextView), None)
        } else {
            (Some(AppEvent::NetworkPortInputCursorRight), None)
        },
        KeyCode::Tab => if key.modifiers == MOD_NONE {
            (Some(AppEvent::NetworkPortInputTab), None)
        } else {
            (None, None)
        },
        KeyCode::Enter => (Some(AppEvent::NetworkPortScanStart), None),
        KeyCode::Backspace => (Some(AppEvent::NetworkPortInputBackspace), None),
        KeyCode::Char(ch) => if ch == 'p' {
            (Some(AppEvent::NetworkCyclePreset), None)
        } else {
            (Some(AppEvent::NetworkPortInputKey(ch)), None)
        },
        _ => (None, None),
    };
    KeyOutcome { event, network_input }
}

/// The event a key press stands for in the normal mode, and whether it starts
/// the port checker's input mode.
pub fn handle_main_input(key: KeyPress) -> (r: KeyOutcome)
    ensures
        (r.event, r.network_input) == main_key_event(key),
{
    let (event, network_input) = match key.code {
        KeyCode::Char(ch) => if ch == 'q' {
            (Some(AppEvent::Quit), None)
        } else if ch == 'h' {
            (Some(AppEvent::PrevView), None)
        } else if ch == 'l' {
            (Some(AppEvent::NextView), None)
        } else if ch == 'o' {
            (Some(AppEvent::DockerStartSelected), None)
        } else if ch == 's' {
            (Some(AppEvent::DockerStopSelected), None)
        } else if ch == 'r' {
            (Some(AppEvent::DockerRestartSelected), None)
        } else if ch == 'i' {
            (Some(AppEvent::NetworkInputEnter), Some(true))
        } else {
            (None, None)
        },
        KeyCode::Left => if key.modifiers == MOD_CONTROL {
            (Some(AppEvent::PrevView), None)
        } else {
            (None, None)
        },
        KeyCode::Right => if key.modifiers == MOD_CONTROL {
            (Some(AppEvent::NextView), None)
        } else {
            (None, None)
        },
        KeyCode::Up => if key.modifiers == MOD_ALT {
            (Some(AppEvent::DockerTableScrollUp), None)
        } else {
            (Some(AppEvent::MoveSelectionUp), None)
        },
        KeyCode::Down => if key.modifiers == MOD_ALT {
            (Some(AppEvent::DockerTableScrollDown), None)
        } else {
            (Some(AppEvent::MoveSelectionDown), None)
        },
        KeyCode::Delete => (Some(AppEvent::DockerDeleteKey), None),
        KeyCode::Enter => (Some(AppEvent::DockerAttachSelected), None),
        KeyCode::Tab => if key.modifiers == MOD_NONE {
            (Some(AppEvent::NetworkNextSubView), None)
        } else {
            (None, None)
        },
        KeyCode::BackTab => (Some(AppEvent::NetworkPrevSubView), None),
        KeyCode::Esc => (Some(AppEvent::ClearError), None),
        _ => (None, None),
    };
    KeyOutcome { event, network_input }
}

/// What a key press asks for, given which mode has the keyboard.
pub fn route_key(key: KeyPress, console_active: bool, network_input_active: bool) -> (r: KeyOutcome)
    ensures
        (r.event, r.network_input) == key_outcome(key, console_active, network_input_active),
{
    if console_active {
        KeyOutcome { event: handle_console_input(key), network_input: None }
    } else if network_input_active {
        handle_network_input(key)
    } else {
        handle_main_input(key)
    }
}

/// Law: the console keeps the keyboard: while it is active no key leaves the
/// Docker view, quits, or changes the input mode.
pub proof fn law_console_keeps_keyboard(k: KeyPress, network_input_active: bool)
    ensures
        key_outcome(k, true, network_input_active).1 is None,
        !(key_outcome(k, true, network_input_active).0 matches Some(AppEvent::Quit)),
        !(key_outcome(k, true, network_input_active).0 matches Some(AppEvent::NextView)),
        !(key_outcome(k, true, network_input_active).0 matches Some(AppEvent::PrevView)),
{
}

/// Law: while the port checker's input is active, every character except `p`
/// is typed into the focused field (`q` does not quit).
pub proof fn law_port_input_takes_characters(ch: char, modifiers: u8)
    requires
        ch != 'p',
    ensures
        key_outcome(KeyPress { code: KeyCode::Char(ch), modifiers }, false, true).0 == Some(
            AppEvent::NetworkPortInputKey(ch),
        ),
{
}

/// The outcome of a key press in the normal mode.
pub open spec fn normal(code: KeyCode, m: u8) -> (Option<AppEvent>, Option<bool>) {
    key_outcome(KeyPress { code, modifiers: m }, false, false)
}

/// Law: the key bindings of the normal mode, whatever modifiers are held
/// unless one is named: `q` quits; `h` and Ctrl+Left go to the previous view,
/// `l` and Ctrl+Right to the next; `o`, `s` and `r` start, stop and restart
/// the selected container; Delete asks to delete it and Enter attaches to it;
/// Up and Down move the selection, or with Alt alone scroll the container
/// table; Tab alone and BackTab switch the network pane; `i` starts the port
/// checker's input (and only `i` changes the input mode); Esc dismisses errors.
/// Any other character does nothing.
pub proof fn law_normal_mode_keys(m: u8, ch: char)
    ensures
        normal(KeyCode::Char('q'), m) == (Some(AppEvent::Quit), None::<bool>),
        normal(KeyCode::Char('h'), m) == (Some(AppEvent::PrevView), None::<bool>),
        normal(KeyCode::Char('l'), m) == (Some(AppEvent::NextView), None::<bool>),
        normal(KeyCode::Char('o'), m) == (Some(AppEvent::DockerStartSelected), None::<bool>),
        normal(KeyCode::Char('s'), m) == (Some(AppEvent::DockerStopSelected), None::<bool>),
        normal(KeyCode::Char('r'), m) == (Some(AppEvent::DockerRestartSelected), None::<bool>),
        normal(KeyCode::Char('i'), m) == (Some(AppEvent::NetworkInputEnter), Some(true)),
        normal(KeyCode::Delete, m) == (Some(AppEvent::DockerDeleteKey), None::<bool>),
        normal(KeyCode::Enter, m) == (Some(AppEvent::DockerAttachSelected), None::<bool>),
        normal(KeyCode::BackTab, m) == (Some(AppEvent::NetworkPrevSubView), None::<bool>),
        normal(KeyCode::Esc, m) == (Some(AppEvent::ClearError), None::<bool>),
        normal(KeyCode::Tab, MOD_NONE) == (Some(AppEvent::NetworkNextSubView), None::<bool>),
        m != MOD_NONE ==> normal(KeyCode::Tab, m) == (None::<AppEvent>, None::<bool>),
        normal(KeyCode::Left, MOD_CONTROL) == (Some(AppEvent::PrevView), None::<bool>),
        normal(KeyCode::Right, MOD_CONTROL) == (Some(AppEvent::NextView), None::<bool>),
        m != MOD_CONTROL ==> normal(KeyCode::Left, m) == (None::<AppEvent>, None::<bool>),
        m != MOD_CONTROL ==> normal(KeyCode::Right, m) == (None::<AppEvent>, None::<bool>),
        normal(KeyCode::Up, MOD_ALT) == (Some(AppEvent::DockerTableScrollUp), None::<bool>),
        normal(KeyCode::Down, MOD_ALT) == (Some(AppEvent::DockerTableScrollDown), None::<bool>),
        m != MOD_ALT ==> normal(KeyCode::Up, m) == (Some(AppEvent::MoveSelectionUp), None::<bool>),
        m != MOD_ALT ==> normal(KeyCode::Down, m) == (
            Some(AppEvent::MoveSelectionDown),
            None::<bool>,
        ),
        ch != 'q' && ch != 'h' && ch != 'l' && ch != 'o' && ch != 's' && ch != 'r' && ch != 'i'
            ==> normal(KeyCode::Char(ch), m) == (None::<AppEvent>, None::<bool>),
        normal(KeyCode::Backspace, m) == (None::<AppEvent>, None::<bool>),
        normal(KeyCode::Other, m) == (None::<AppEvent>, None::<bool>),
{
}

/// The event of a key press while the console has the keyboard.
pub open spec fn in_console(code: KeyCode, m: u8) -> Option<AppEvent> {
    key_outcome(KeyPress { code, modifiers: m }, true, false).0
}

/// Law: the key bindings of the console: every character is typed into it;
/// Enter sends the line, Insert detaches, Backspace deletes, Left and Right
/// move the cursor; PageUp and Up (without Alt alone) scroll up, PageDown and
/// Down scroll down, End goes to the bottom; Up and Down with Alt alone scroll
/// the container table; Esc dismisses errors; Tab does nothing.
pub proof fn law_console_keys(m: u8, ch: char)
    ensures
        in_console(KeyCode::Char(ch), m) == Some(AppEvent::DockerConsoleKey(ch)),
        in_console(KeyCode::Enter, m) == Some(AppEvent::DockerConsoleEnter),
        in_console(KeyCode::Insert, m) == Some(AppEvent::DockerConsoleDetach),
        in_console(KeyCode::Backspace, m) == Some(AppEvent::DockerConsoleBackspace),
        in_console(KeyCode::Left, m) == Some(AppEvent::DockerConsoleCursorLeft),
        in_console(KeyCode::Right, m) == Some(AppEvent::DockerConsoleCursorRight),
        in_console(KeyCode::PageUp, m) == Some(AppEvent::DockerConsoleScrollUp),
        in_console(KeyCode::PageDown, m) == Some(AppEvent::DockerConsoleScrollDown),
        in_console(KeyCode::End, m) == Some(AppEvent::DockerConsoleScrollToBottom),
        in_console(KeyCode::Esc, m) == Some(AppEvent::ClearError),
        in_console(KeyCode::Up, MOD_ALT) == Some(AppEvent::DockerTableScrollUp),
        in_console(KeyCode::Down, MOD_ALT) == Some(AppEvent::DockerTableScrollDown),
        m != MOD_ALT ==> in_console(KeyCode::Up, m) == Some(AppEvent::DockerConsoleScrollUp),
        m != MOD_ALT ==> in_console(KeyCode::Down, m) == Some(AppEvent::DockerConsoleScrollDown),
        in_console(KeyCode::Tab, m) is None,
        in_console(KeyCode::Delete, m) is None,
{
}

/// The outcome of a key press while the port checker's input has the keyboard.
pub open spec fn in_port_input(code: KeyCode, m: u8) -> (Option<AppEvent>, Option<bool>) {
    key_outcome(KeyPress { code, modifiers: m }, false, true)
}

/// Law: the key bindings of the port checker's input: Esc leaves the input
/// mode; `p` cycles the preset and every other character is typed; Enter
/// starts the scan; Backspace deletes; Left and Right move the cursor, or with
/// Ctrl alone switch views; Tab alone switches field.
pub proof fn law_port_input_keys(m: u8)
    ensures
        in_port_input(KeyCode::Esc, m) == (Some(AppEvent::NetworkInputExit), Some(false)),
        in_port_input(KeyCode::Char('p'), m) == (Some(AppEvent::NetworkCyclePreset), None::<bool>),
        in_port_input(KeyCode::Enter, m) == (Some(AppEvent::NetworkPortScanStart), None::<bool>),
        in_port_input(KeyCode::Backspace, m) == (
            Some(AppEvent::NetworkPortInputBackspace),
            None::<bool>,
        ),
        in_port_input(KeyCode::Left, MOD_CONTROL) == (Some(AppEvent::PrevView), None::<bool>),
        in_port_input(KeyCode::Right, MOD_CONTROL) == (Some(AppEvent::NextView), None::<bool>),
        m != MOD_CONTROL ==> in_port_input(KeyCode::Left, m) == (
            Some(AppEvent::NetworkPortInputCursorLeft),
            None::<bool>,
        ),
        m != MOD_CONTROL ==> in_port_input(KeyCode::Right, m) == (
            Some(AppEvent::NetworkPortInputCursorRight),
            None::<bool>,
        ),
        in_port_input(KeyCode::Tab, MOD_NONE) == (Some(AppEvent::NetworkPortInputTab), None::<bool>),
        m != MOD_NONE ==> in_port_input(KeyCode::Tab, m) == (None::<AppEvent>, None::<bool>),
        in_port_input(KeyCode::Up, m) == (None::<AppEvent>, None::<bool>),
{
}

} // verus!

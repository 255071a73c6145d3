//! Terminal keys as the dashboards read them, and the commands they give the log view.
use vstd::prelude::*;

verus! {

/// A terminal key, as the dashboards tell keys apart.
#[derive(Debug, Clone, Copy, PartialEq, Eq, Structural)]
pub enum KeyCode {
    Char(char),
    Tab,
    BackTab,
    Up,
    Down,
    Left,
    Right,
    PageUp,
    PageDown,
    End,
    Enter,
    Esc,
    Backspace,
    /// Any key no dashboard binds.
    Other,
}

/// Whether a key went down, repeated, or came up.
#[derive(Debug, Clone, Copy, PartialEq, Eq, Structural)]
pub enum KeyKind {
    Press,
    Repeat,
    Release,
}

/// Modifier keys held with a key.
#[derive(Debug, Clone, Copy, PartialEq, Eq, Structural)]
pub struct KeyModifiers {
    pub shift: bool,
    pub control: bool,
    pub alt: bool,
    /// Super, hyper, or meta.
    pub other: bool,
}

/// One key event of the terminal.
#[derive(Debug, Clone, Copy, PartialEq, Eq, Structural)]
pub struct KeyInput {
    pub code: KeyCode,
    pub kind: KeyKind,
    pub modifiers: KeyModifiers,
}

/// Whether a key event is a press or an auto-repeat, the only kinds the dashboards act on.
pub open spec fn is_actionable(key: KeyInput) -> bool {
    key.kind == KeyKind::Press || key.kind == KeyKind::Repeat
}

/// Whether a key event is Ctrl+C, which always quits.
pub open spec fn is_interrupt(key: KeyInput) -> bool {
    key.modifiers.control && key.code == KeyCode::Char('c')
}

/// A command to the log view of a dashboard.
#[derive(Debug, Clone, Copy, PartialEq, Eq, Structural)]
pub enum LogCommand {
    CycleViewLevel,
    CycleCaptureLevel,
    BeginFilterEdit,
    ClearFilter,
    TogglePause,
    ClearEvents,
    ScrollUp(usize),
    ScrollDown(usize),
    Follow,
}

/// A command to the log filter while it is being edited.
#[derive(Debug, Clone, Copy, PartialEq, Eq, Structural)]
pub enum FilterCommand {
    Commit,
    Cancel,
    Backspace,
    Insert(char),
}

/// The log-view command bound to a key on the log page, if any.
pub open spec fn spec_log_command(code: KeyCode) -> Option<LogCommand> {
    match code {
        KeyCode::Char('l') => Some(LogCommand::CycleViewLevel),
        KeyCode::Char('L') => Some(LogCommand::CycleCaptureLevel),
        KeyCode::Char('/') => Some(LogCommand::BeginFilterEdit),
        KeyCode::Esc => Some(LogCommand::ClearFilter),
        KeyCode::Char('p') => Some(LogCommand::TogglePause),
        KeyCode::Char('c') => Some(LogCommand::ClearEvents),
        KeyCode::Up => Some(LogCommand::ScrollUp(1)),
        KeyCode::Down => Some(LogCommand::ScrollDown(1)),
        KeyCode::PageUp => Some(LogCommand::ScrollUp(10)),
        KeyCode::PageDown => Some(LogCommand::ScrollDown(10)),
        KeyCode::End => Some(LogCommand::Follow),
        _ => None,
    }
}

/// Return the log-view command bound to a key on the log page, if any.
pub fn log_command(code: KeyCode) -> (command: Option<LogCommand>)
    ensures
        command == spec_log_command(code),
{
    match code {
        KeyCode::Char('l') => Some(LogCommand::CycleViewLevel),
        KeyCode::Char('L') => Some(LogCommand::CycleCaptureLevel),
        KeyCode::Char('/') => Some(LogCommand::BeginFilterEdit),
        KeyCode::Esc => Some(LogCommand::ClearFilter),
        KeyCode::Char('p') => Some(LogCommand::TogglePause),
        KeyCode::Char('c') => Some(LogCommand::ClearEvents),
        KeyCode::Up => Some(LogCommand::ScrollUp(1)),
        KeyCode::Down => Some(LogCommand::ScrollDown(1)),
        KeyCode::PageUp => Some(LogCommand::ScrollUp(10)),
        KeyCode::PageDown => Some(LogCommand::ScrollDown(10)),
        KeyCode::End => Some(LogCommand::Follow),
        _ => None,
    }
}

/// Whether a key points up the log (towards older events).
pub open spec fn points_up(code: KeyCode) -> bool {
    code == KeyCode::Up || code == KeyCode::PageUp
}

/// Whether a key points down the log (towards newer events).
pub open spec fn points_down(code: KeyCode) -> bool {
    code == KeyCode::Down || code == KeyCode::PageDown
}

/// The log scrolls the way the key points: exactly the upward keys scroll up and
/// exactly the downward keys scroll down, an arrow by one line and a page key by more
/// lines than an arrow, the same distance either way.
pub proof fn lemma_scrolling_follows_the_key(code: KeyCode)
    ensures
        (spec_log_command(code) matches Some(LogCommand::ScrollUp(_))) <==> points_up(code),
        (spec_log_command(code) matches Some(LogCommand::ScrollDown(_))) <==> points_down(code),
        spec_log_command(KeyCode::Up) == Some(LogCommand::ScrollUp(1)),
        spec_log_command(KeyCode::Down) == Some(LogCommand::ScrollDown(1)),
        spec_log_command(KeyCode::PageUp) matches Some(LogCommand::ScrollUp(page)) && page > 1
            && spec_log_command(KeyCode::PageDown) == Some(LogCommand::ScrollDown(page)),
{
}

/// No two keys give the same log command, and only letters, `/`, Esc, the arrows, the
/// page keys, and End give one.
pub proof fn lemma_log_keys_are_distinct(a: KeyCode, b: KeyCode)
    ensures
        spec_log_command(a) is Some && spec_log_command(a) == spec_log_command(b) ==> a == b,
        spec_log_command(a) is Some ==> (a matches KeyCode::Char(_) || a == KeyCode::Esc
            || points_up(a) || points_down(a) || a == KeyCode::End),
        spec_log_command(KeyCode::End) == Some(LogCommand::Follow),
        spec_log_command(KeyCode::Esc) == Some(LogCommand::ClearFilter),
{
}

/// The filter-editing command of a key, given whether the held modifiers let a
/// character be typed into the filter.
pub open spec fn spec_filter_command(code: KeyCode, may_type: bool) -> Option<FilterCommand> {
    match code {
        KeyCode::Enter => Some(FilterCommand::Commit),
        KeyCode::Esc => Some(FilterCommand::Cancel),
        KeyCode::Backspace => Some(FilterCommand::Backspace),
        KeyCode::Char(c) => if may_type {
            Some(FilterCommand::Insert(c))
        } else {
            None
        },
        _ => None,
    }
}

/// Return the filter-editing command of a key, given whether the held modifiers let a
/// character be typed into the filter.
pub fn filter_command(code: KeyCode, may_type: bool) -> (command: Option<FilterCommand>)
    ensures
        command == spec_filter_command(code, may_type),
{
    match code {
        KeyCode::Enter => Some(FilterCommand::Commit),
        KeyCode::Esc => Some(FilterCommand::Cancel),
        KeyCode::Backspace => Some(FilterCommand::Backspace),
        KeyCode::Char(c) => if may_type {
            Some(FilterCommand::Insert(c))
        } else {
            None
        },
        _ => None,
    }
}

} // verus!

//! Page navigation and value formatting of the agent terminal dashboard.
use vstd::prelude::*;
use vstd::string::StringExecFns;
use super::keys::{
    filter_command, is_actionable, is_interrupt, log_command, spec_filter_command,
    spec_log_command, FilterCommand, KeyCode, KeyInput, KeyKind, LogCommand,
};
use crate::text::{decimal, decimal_pad2, push_decimal, push_decimal_pad2};

verus! {

/// Number of pages of the dashboard.
pub const AGENT_PAGE_COUNT: usize = 9;

/// One page of the terminal dashboard, in tab order.
#[derive(Debug, Clone, Copy, PartialEq, Eq, Structural)]
pub enum Page {
    Overview,
    Logs,
    Agents,
    Sensorium,
    Decisions,
    Session,
    Prediction,
    Navigation,
    Host,
}

impl Default for Page {
    fn default() -> (page: Self)
        ensures
            page == Page::Overview,
    {
        Page::Overview
    }
}

impl Page {
    /// Every page in tab order.
    pub const ALL: [Page; 9] = [
        Page::Overview,
        Page::Logs,
        Page::Agents,
        Page::Sensorium,
        Page::Decisions,
        Page::Session,
        Page::Prediction,
        Page::Navigation,
        Page::Host,
    ];

    /// Position of the page in tab order.
    pub open spec fn position(self) -> nat {
        match self {
            Page::Overview => 0,
            Page::Logs => 1,
            Page::Agents => 2,
            Page::Sensorium => 3,
            Page::Decisions => 4,
            Page::Session => 5,
            Page::Prediction => 6,
            Page::Navigation => 7,
            Page::Host => 8,
        }
    }

    /// The page at a position in tab order.
    pub open spec fn at(i: nat) -> Page {
        if i == 0 {
            Page::Overview
        } else if i == 1 {
            Page::Logs
        } else if i == 2 {
            Page::Agents
        } else if i == 3 {
            Page::Sensorium
        } else if i == 4 {
            Page::Decisions
        } else if i == 5 {
            Page::Session
        } else if i == 6 {
            Page::Prediction
        } else if i == 7 {
            Page::Navigation
        } else {
            Page::Host
        }
    }

    /// The full tab title.
    pub open spec fn spec_title(self) -> Seq<char> {
        match self {
            Page::Overview => "Overview"@,
            Page::Logs => "Logs"@,
            Page::Agents => "Agents"@,
            Page::Sensorium => "Sensorium"@,
            Page::Decisions => "Decisions"@,
            Page::Session => "Session"@,
            Page::Prediction => "Prediction"@,
            Page::Navigation => "Navigation"@,
            Page::Host => "Host"@,
        }
    }

    /// Return the full tab title.
    pub fn title(self) -> (title: &'static str)
        ensures
            title@ == self.spec_title(),
    {
        match self {
            Page::Overview => "Overview",
            Page::Logs => "Logs",
            Page::Agents => "Agents",
            Page::Sensorium => "Sensorium",
            Page::Decisions => "Decisions",
            Page::Session => "Session",
            Page::Prediction => "Prediction",
            Page::Navigation => "Navigation",
            Page::Host => "Host",
        }
    }

    /// The abbreviated tab title for narrow terminals.
    pub open spec fn spec_short_title(self) -> Seq<char> {
        match self {
            Page::Overview => "Ovr"@,
            Page::Logs => "Logs"@,
            Page::Agents => "Agents"@,
            Page::Sensorium => "Sense"@,
            Page::Decisions => "Dec"@,
            Page::Session => "Sess"@,
            Page::Prediction => "Pred"@,
            Page::Navigation => "Nav"@,
            Page::Host => "Host"@,
        }
    }

    /// Return the abbreviated tab title for narrow terminals.
    pub fn short_title(self) -> (title: &'static str)
        ensures
            title@ == self.spec_short_title(),
    {
        match self {
            Page::Overview => "Ovr",
            Page::Logs => "Logs",
            Page::Agents => "Agents",
            Page::Sensorium => "Sense",
            Page::Decisions => "Dec",
            Page::Session => "Sess",
            Page::Prediction => "Pred",
            Page::Navigation => "Nav",
            Page::Host => "Host",
        }
    }

    /// Return the position of the page in tab order.
    pub fn index(self) -> (i: usize)
        ensures
            i == self.position(),
            i < AGENT_PAGE_COUNT,
    {
        match self {
            Page::Overview => 0,
            Page::Logs => 1,
            Page::Agents => 2,
            Page::Sensorium => 3,
            Page::Decisions => 4,
            Page::Session => 5,
            Page::Prediction => 6,
            Page::Navigation => 7,
            Page::Host => 8,
        }
    }

    /// The page after this one, wrapping from the last page to the first.
    pub fn next(self) -> (page: Page)
        ensures
            page.position() == (self.position() + 1) % (AGENT_PAGE_COUNT as nat),
    {
        let all = Page::ALL;
        all[(self.index() + 1) % all.len()]
    }

    /// The page before this one, wrapping from the first page to the last.
    pub fn previous(self) -> (page: Page)
        ensures
            page.position() == (self.position() + AGENT_PAGE_COUNT - 1) % (AGENT_PAGE_COUNT as int),
    {
        let all = Page::ALL;
        all[(self.index() + all.len() - 1) % all.len()]
    }
}

/// Tab index of a page for the navigation widget.
pub fn page_index(page: Page) -> (i: usize)
    ensures
        i == page.position(),
{
    page.index()
}

/// Every position names exactly one page: positions and pages are in bijection.
pub proof fn lemma_page_positions_are_a_bijection(page: Page, i: nat)
    requires
        i < AGENT_PAGE_COUNT,
    ensures
        Page::at(page.position()) == page,
        Page::at(i).position() == i,
        page.position() < AGENT_PAGE_COUNT,
{
}

/// Moving to the next page and back, or back and then forward, returns to the start;
/// pages are visited in the order of `Page::ALL`.
pub proof fn lemma_navigation_round_trip(page: Page)
    ensures
        Page::at((Page::at((page.position() + 1) % 9).position() + 8) % 9) == page,
        Page::at((Page::at((page.position() + 8) % 9).position() + 1) % 9) == page,
        Page::ALL@.len() == AGENT_PAGE_COUNT,
        forall|i: int| 0 <= i < 9 ==> (#[trigger] Page::ALL@[i]).position() == i,
{
}

/// Render uptime as `HH:MM:SS`, prefixed with `Nd ` once it spans at least one day.
pub open spec fn uptime_text(total_seconds: nat) -> Seq<char> {
    let days = total_seconds / 86400;
    let clock = decimal_pad2((total_seconds % 86400) / 3600) + seq![':'] + decimal_pad2(
        (total_seconds % 3600) / 60,
    ) + seq![':'] + decimal_pad2(total_seconds % 60);
    if days > 0 {
        decimal(days) + seq!['d', ' '] + clock
    } else {
        clock
    }
}

/// Format process uptime, given in whole seconds, as `[Nd ]HH:MM:SS`.
pub fn format_uptime(total_seconds: u64) -> (text: String)
    ensures
        text@ == uptime_text(total_seconds as nat),
{
    let days = total_seconds / 86400;
    let mut text = String::new();
    proof {
        reveal_strlit(":");
        reveal_strlit("d ");
    }
    if days > 0 {
        push_decimal(&mut text, days);
        text.append("d ");
    }
    push_decimal_pad2(&mut text, (total_seconds % 86400) / 3600);
    text.append(":");
    push_decimal_pad2(&mut text, (total_seconds % 3600) / 60);
    text.append(":");
    push_decimal_pad2(&mut text, total_seconds % 60);
    text
}

/// Render a composition flag for the overview panel.
pub open spec fn configured_text(value: bool) -> Seq<char> {
    if value {
        "configured"@
    } else {
        "not configured"@
    }
}

/// Describe whether an agent subsystem is configured.
pub fn configured(value: bool) -> (text: String)
    ensures
        text@ == configured_text(value),
{
    if value {
        String::from_str("configured")
    } else {
        String::from_str("not configured")
    }
}

/// Render a navigation-asset flag for the overview panel.
pub open spec fn loaded_text(value: bool) -> Seq<char> {
    if value {
        "loaded"@
    } else {
        "not loaded"@
    }
}

/// Describe whether the cooked navigation asset is loaded.
pub fn loaded(value: bool) -> (text: String)
    ensures
        text@ == loaded_text(value),
{
    if value {
        String::from_str("loaded")
    } else {
        String::from_str("not loaded")
    }
}

/// Static status of the deliberately incomplete agent shell.
#[derive(Debug, Clone, Copy, PartialEq, Eq)]
pub struct AgentCapabilities {
    /// Whether deployment inputs have established an agent runtime.
    pub runtime_configured: bool,
    /// Whether a gameplay observation encoder and policy are installed.
    pub policy_configured: bool,
    /// Whether a cooked navigation asset is loaded.
    pub navigation_loaded: bool,
    /// Navigation library version compiled into the runtime.
    pub recastnavigation_version: (u32, u32, u32),
    /// Navigation mesh data version accepted by the runtime.
    pub detour_navmesh_version: u32,
}

impl AgentCapabilities {
    /// Describe the process-only shell before deployment and gameplay wiring, given the
    /// navigation library and mesh versions compiled into the runtime.
    pub fn shell(
        recastnavigation_version: (u32, u32, u32),
        detour_navmesh_version: u32,
    ) -> (capabilities: Self)
        ensures
            capabilities == (AgentCapabilities {
                runtime_configured: false,
                policy_configured: false,
                navigation_loaded: false,
                recastnavigation_version,
                detour_navmesh_version,
            }),
    {
        AgentCapabilities {
            runtime_configured: false,
            policy_configured: false,
            navigation_loaded: false,
            recastnavigation_version,
            detour_navmesh_version,
        }
    }
}

/// A change of the agent and decision selected on the diagnostic pages.
#[derive(Debug, Clone, Copy, PartialEq, Eq, Structural)]
pub enum SelectionCommand {
    NextAgent,
    PreviousAgent,
    OlderDecision,
    NewerDecision,
    NewestDecision,
}

/// What a dashboard key asks of the log view or of the agent selection.
#[derive(Debug, Clone, Copy, PartialEq, Eq, Structural)]
pub enum KeyEffect {
    Nothing,
    Log(LogCommand),
    Filter(FilterCommand),
    Selection(SelectionCommand),
}

/// Navigation state of the agent dashboard.
#[derive(Debug, Clone, Copy, PartialEq, Eq, Structural)]
pub struct Dashboard {
    /// The page on screen.
    pub page: Page,
    /// Whether the key help overlay is shown.
    pub show_help: bool,
    /// Whether the operator asked to leave the dashboard.
    pub should_quit: bool,
}

/// The page a digit key selects directly, if any.
pub open spec fn digit_page(c: char) -> Option<Page> {
    if c == '1' {
        Some(Page::Overview)
    } else if c == '2' {
        Some(Page::Logs)
    } else if c == '3' {
        Some(Page::Agents)
    } else if c == '4' {
        Some(Page::Sensorium)
    } else if c == '5' {
        Some(Page::Decisions)
    } else if c == '6' {
        Some(Page::Session)
    } else if c == '7' {
        Some(Page::Prediction)
    } else if c == '8' {
        Some(Page::Navigation)
    } else if c == '9' {
        Some(Page::Host)
    } else {
        None
    }
}

/// Whether a page lists agents that the arrow keys move between.
pub open spec fn lists_agents(page: Page) -> bool {
    page == Page::Agents || page == Page::Sensorium || page == Page::Decisions
}

/// The selection command of a key on a page other than the log page, if any.
pub open spec fn spec_selection_command(page: Page, code: KeyCode) -> Option<SelectionCommand> {
    match code {
        KeyCode::Down => if lists_agents(page) {
            Some(SelectionCommand::NextAgent)
        } else {
            None
        },
        KeyCode::Up => if lists_agents(page) {
            Some(SelectionCommand::PreviousAgent)
        } else {
            None
        },
        KeyCode::Left => if page == Page::Decisions {
            Some(SelectionCommand::OlderDecision)
        } else {
            None
        },
        KeyCode::Right => if page == Page::Decisions {
            Some(SelectionCommand::NewerDecision)
        } else {
            None
        },
        KeyCode::End => if page == Page::Decisions {
            Some(SelectionCommand::NewestDecision)
        } else {
            None
        },
        _ => None,
    }
}

/// The dashboard on a page.
pub open spec fn on_page(d: Dashboard, page: Page) -> Dashboard {
    Dashboard { page, show_help: d.show_help, should_quit: d.should_quit }
}

/// Dashboard state and effect after one key event, given whether the log filter is
/// being edited. Releases are ignored and Ctrl+C always quits; while the filter is
/// edited every other key goes to the filter (characters only with no modifier but
/// Shift); an open help overlay is closed by any key; otherwise `q` quits, `?` opens
/// help, Tab and BackTab cycle pages, digits select pages, other keys on the log page
/// go to the log view, and the arrow and End keys move the agent and decision selection
/// on the pages that show them.
pub open spec fn key_outcome(d: Dashboard, key: KeyInput, filter_editing: bool) -> (
    Dashboard,
    KeyEffect,
) {
    if !is_actionable(key) {
        (d, KeyEffect::Nothing)
    } else if is_interrupt(key) {
        (Dashboard { page: d.page, show_help: d.show_help, should_quit: true }, KeyEffect::Nothing)
    } else if filter_editing {
        let may_type = !key.modifiers.control && !key.modifiers.alt && !key.modifiers.other;
        (
            d,
            match spec_filter_command(key.code, may_type) {
                Some(command) => KeyEffect::Filter(command),
                None => KeyEffect::Nothing,
            },
        )
    } else if d.show_help {
        (Dashboard { page: d.page, show_help: false, should_quit: d.should_quit }, KeyEffect::Nothing)
    } else {
        match key.code {
            KeyCode::Char('q') => (
                Dashboard { page: d.page, show_help: d.show_help, should_quit: true },
                KeyEffect::Nothing,
            ),
            KeyCode::Char('?') => (
                Dashboard { page: d.page, show_help: true, should_quit: d.should_quit },
                KeyEffect::Nothing,
            ),
            KeyCode::Tab => (
                on_page(d, Page::at((d.page.position() + 1) % (AGENT_PAGE_COUNT as nat))),
                KeyEffect::Nothing,
            ),
            KeyCode::BackTab => (
                on_page(
                    d,
                    Page::at(((d.page.position() + AGENT_PAGE_COUNT - 1) % (AGENT_PAGE_COUNT as int)) as nat),
                ),
                KeyEffect::Nothing,
            ),
            KeyCode::Char(c) if digit_page(c) is Some => (
                on_page(d, digit_page(c)->Some_0),
                KeyEffect::Nothing,
            ),
            _ => if d.page == Page::Logs {
                (
                    d,
                    match spec_log_command(key.code) {
                        Some(command) => KeyEffect::Log(command),
                        None => KeyEffect::Nothing,
                    },
                )
            } else {
                (
                    d,
                    match spec_selection_command(d.page, key.code) {
                        Some(command) => KeyEffect::Selection(command),
                        None => KeyEffect::Nothing,
                    },
                )
            },
        }
    }
}

fn selection_command(page: Page, code: KeyCode) -> (command: Option<SelectionCommand>)
    ensures
        command == spec_selection_command(page, code),
{
    let lists = page == Page::Agents || page == Page::Sensorium || page == Page::Decisions;
    let decisions = page == Page::Decisions;
    match code {
        KeyCode::Down => if lists {
            Some(SelectionCommand::NextAgent)
        } else {
            None
        },
        KeyCode::Up => if lists {
            Some(SelectionCommand::PreviousAgent)
        } else {
            None
        },
        KeyCode::Left => if decisions {
            Some(SelectionCommand::OlderDecision)
        } else {
            None
        },
        KeyCode::Right => if decisions {
            Some(SelectionCommand::NewerDecision)
        } else {
            None
        },
        KeyCode::End => if decisions {
            Some(SelectionCommand::NewestDecision)
        } else {
            None
        },
        _ => None,
    }
}

/// Ctrl+C pressed or repeated quits from any state, even while the filter is edited,
/// and releasing any key changes nothing.
pub proof fn lemma_interrupt_quits_and_releases_are_ignored(
    d: Dashboard,
    key: KeyInput,
    filter_editing: bool,
)
    ensures
        is_actionable(key) && is_interrupt(key) ==> key_outcome(d, key, filter_editing).0.should_quit,
        !is_actionable(key) ==> key_outcome(d, key, filter_editing) == (d, KeyEffect::Nothing),
{
}

impl Dashboard {
    /// The dashboard as it opens: overview page, no help, running.
    pub fn new() -> (d: Dashboard)
        ensures
            d == (Dashboard { page: Page::Overview, show_help: false, should_quit: false }),
    {
        Dashboard { page: Page::Overview, show_help: false, should_quit: false }
    }

    /// Apply one key event, given whether the log filter is being edited, and return
    /// what it asks of the log view or of the agent selection.
    pub fn handle_key(&mut self, key: KeyInput, filter_editing: bool) -> (effect: KeyEffect)
        ensures
            (*final(self), effect) == key_outcome(*old(self), key, filter_editing),
    {
        if !(key.kind == KeyKind::Press || key.kind == KeyKind::Repeat) {
            return KeyEffect::Nothing;
        }
        if key.modifiers.control && key.code == KeyCode::Char('c') {
            self.should_quit = true;
            return KeyEffect::Nothing;
        }
        if filter_editing {
            let may_type = !key.modifiers.control && !key.modifiers.alt && !key.modifiers.other;
            return match filter_command(key.code, may_type) {
                Some(command) => KeyEffect::Filter(command),
                None => KeyEffect::Nothing,
            };
        }
        if self.show_help {
            self.show_help = false;
            return KeyEffect::Nothing;
        }
        let page = match key.code {
            KeyCode::Char('1') => Some(Page::Overview),
            KeyCode::Char('2') => Some(Page::Logs),
            KeyCode::Char('3') => Some(Page::Agents),
            KeyCode::Char('4') => Some(Page::Sensorium),
            KeyCode::Char('5') => Some(Page::Decisions),
            KeyCode::Char('6') => Some(Page::Session),
            KeyCode::Char('7') => Some(Page::Prediction),
            KeyCode::Char('8') => Some(Page::Navigation),
            KeyCode::Char('9') => Some(Page::Host),
            _ => None,
        };
        if let Some(page) = page {
            self.page = page;
            return KeyEffect::Nothing;
        }
        match key.code {
            KeyCode::Char('q') => {
                self.should_quit = true;
                KeyEffect::Nothing
            },
            KeyCode::Char('?') => {
                self.show_help = true;
                KeyEffect::Nothing
            },
            KeyCode::Tab => {
                self.page = self.page.next();
                KeyEffect::Nothing
            },
            KeyCode::BackTab => {
                self.page = self.page.previous();
                KeyEffect::Nothing
            },
            _ => {
                if self.page == Page::Logs {
                    match log_command(key.code) {
                        Some(command) => KeyEffect::Log(command),
                        None => KeyEffect::Nothing,
                    }
                } else {
                    match selection_command(self.page, key.code) {
                        Some(command) => KeyEffect::Selection(command),
                        None => KeyEffect::Nothing,
                    }
                }
            },
        }
    }
}

/// Failure while starting or running foreground diagnostics.
#[derive(Debug)]
pub enum ForegroundError {
    /// The metrics polling worker could not be started.
    MetricsPoller(std::io::Error),
    /// The terminal backend failed.
    Terminal(std::io::Error),
}

} // verus!

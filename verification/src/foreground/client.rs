//! Page navigation and value formatting of the client terminal dashboard.
use vstd::prelude::*;
use super::keys::{
    filter_command, is_actionable, is_interrupt, log_command, spec_filter_command,
    spec_log_command, FilterCommand, KeyCode, KeyInput, KeyKind, LogCommand,
};
use crate::text::{decimal, decimal_pad2, push_decimal, push_decimal_pad2};
use vstd::string::StringExecFns;

verus! {

/// Number of pages of the client dashboard.
pub const CLIENT_PAGE_COUNT: usize = 6;

/// One page of the client terminal dashboard, in tab order.
#[derive(Debug, Clone, Copy, PartialEq, Eq, Structural)]
pub enum Page {
    Overview,
    Logs,
    Session,
    Prediction,
    Presentation,
    Host,
}

impl Default for Page {
    fn default() -> (page: Self)
        ensures
            page == Page::Overview,
    {
        Page::Overview
    }
}

impl Page {
    /// Every page in tab order.
    pub const ALL: [Page; 6] = [
        Page::Overview,
        Page::Logs,
        Page::Session,
        Page::Prediction,
        Page::Presentation,
        Page::Host,
    ];

    /// Position of the page in tab order.
    pub open spec fn position(self) -> nat {
        match self {
            Page::Overview => 0,
            Page::Logs => 1,
            Page::Session => 2,
            Page::Prediction => 3,
            Page::Presentation => 4,
            Page::Host => 5,
        }
    }

    /// The page at a position in tab order.
    pub open spec fn at(i: nat) -> Page {
        if i == 0 {
            Page::Overview
        } else if i == 1 {
            Page::Logs
        } else if i == 2 {
            Page::Session
        } else if i == 3 {
            Page::Prediction
        } else if i == 4 {
            Page::Presentation
        } else {
            Page::Host
        }
    }

    /// Full tab title.
    pub open spec fn spec_title(self) -> Seq<char> {
        match self {
            Page::Overview => "Overview"@,
            Page::Logs => "Logs"@,
            Page::Session => "Session"@,
            Page::Prediction => "Prediction"@,
            Page::Presentation => "Presentation"@,
            Page::Host => "Host"@,
        }
    }

    /// Abbreviated tab title for narrow terminals.
    pub open spec fn spec_short_title(self) -> Seq<char> {
        match self {
            Page::Overview => "Ovr"@,
            Page::Logs => "Logs"@,
            Page::Session => "Sess"@,
            Page::Prediction => "Pred"@,
            Page::Presentation => "Pres"@,
            Page::Host => "Host"@,
        }
    }

    /// Return the full tab title.
    pub fn title(self) -> (title: &'static str)
        ensures
            title@ == self.spec_title(),
    {
        match self {
            Page::Overview => "Overview",
            Page::Logs => "Logs",
            Page::Session => "Session",
            Page::Prediction => "Prediction",
            Page::Presentation => "Presentation",
            Page::Host => "Host",
        }
    }

    /// Return the abbreviated tab title.
    pub fn short_title(self) -> (title: &'static str)
        ensures
            title@ == self.spec_short_title(),
    {
        match self {
            Page::Overview => "Ovr",
            Page::Logs => "Logs",
            Page::Session => "Sess",
            Page::Prediction => "Pred",
            Page::Presentation => "Pres",
            Page::Host => "Host",
        }
    }

    /// Return the position of the page in tab order.
    pub fn index(self) -> (i: usize)
        ensures
            i == self.position(),
            i < CLIENT_PAGE_COUNT,
    {
        match self {
            Page::Overview => 0,
            Page::Logs => 1,
            Page::Session => 2,
            Page::Prediction => 3,
            Page::Presentation => 4,
            Page::Host => 5,
        }
    }

    /// The page after this one, wrapping from the last page to the first.
    pub fn next(self) -> (page: Page)
        ensures
            page.position() == (self.position() + 1) % (CLIENT_PAGE_COUNT as nat),
    {
        let all = Page::ALL;
        all[(self.index() + 1) % all.len()]
    }

    /// The page before this one, wrapping from the first page to the last.
    pub fn previous(self) -> (page: Page)
        ensures
            page.position() == (self.position() + CLIENT_PAGE_COUNT - 1) % (CLIENT_PAGE_COUNT as int),
    {
        let all = Page::ALL;
        all[(self.index() + all.len() - 1) % all.len()]
    }
}

/// Tab index of a page for the navigation widget.
pub fn page_index(page: Page) -> (i: usize)
    ensures
        i == page.position(),
{
    page.index()
}

/// Every position names exactly one page: positions and pages are in bijection.
pub proof fn lemma_page_positions_are_a_bijection(page: Page, i: nat)
    requires
        i < CLIENT_PAGE_COUNT,
    ensures
        Page::at(page.position()) == page,
        Page::at(i).position() == i,
        page.position() < CLIENT_PAGE_COUNT,
{
}

/// Moving to the next page and back, or back and then forward, returns to the start;
/// pages are visited in the order of `Page::ALL`.
pub proof fn lemma_navigation_round_trip(page: Page)
    ensures
        Page::at((Page::at((page.position() + 1) % 6).position() + 5) % 6) == page,
        Page::at((Page::at((page.position() + 5) % 6).position() + 1) % 6) == page,
        Page::ALL@.len() == CLIENT_PAGE_COUNT,
        forall|i: int| 0 <= i < 6 ==> (#[trigger] Page::ALL@[i]).position() == i,
{
}

/// Render uptime as `HH:MM:SS`, where hours are not wrapped into days.
pub open spec fn uptime_text(total_seconds: nat) -> Seq<char> {
    decimal_pad2(total_seconds / 3600) + seq![':'] + decimal_pad2((total_seconds % 3600) / 60)
        + seq![':'] + decimal_pad2(total_seconds % 60)
}

/// Format process uptime, given in whole seconds, as `HH:MM:SS`.
pub fn format_uptime(total_seconds: u64) -> (text: String)
    ensures
        text@ == uptime_text(total_seconds as nat),
{
    let mut text = String::new();
    push_decimal_pad2(&mut text, total_seconds / 3600);
    proof {
        reveal_strlit(":");
    }
    text.append(":");
    push_decimal_pad2(&mut text, (total_seconds % 3600) / 60);
    text.append(":");
    push_decimal_pad2(&mut text, total_seconds % 60);
    text
}

/// Render a composition flag for the overview panel.
pub open spec fn configured_text(value: bool) -> Seq<char> {
    if value {
        "configured"@
    } else {
        "not configured"@
    }
}

/// Describe whether a client subsystem is configured.
pub fn configured(value: bool) -> (text: String)
    ensures
        text@ == configured_text(value),
{
    if value {
        String::from_str("configured")
    } else {
        String::from_str("not configured")
    }
}

/// Static composition status of the current client executable.
#[derive(Debug, Clone, Copy, PartialEq, Eq)]
pub struct ClientCapabilities {
    /// Whether the native application loop is part of this process.
    pub native_application: bool,
    /// Whether an established shared client harness was supplied.
    pub session_configured: bool,
    /// Whether the client-only presentation world is running.
    pub presentation_configured: bool,
    /// Whether a renderer backend is submitting presentation frames.
    pub renderer_configured: bool,
}

impl ClientCapabilities {
    /// Describe the bootstrap-only client with an established shared harness: native
    /// loop, session, and presentation, but no renderer yet.
    pub fn connected() -> (capabilities: Self)
        ensures
            capabilities == (ClientCapabilities {
                native_application: true,
                session_configured: true,
                presentation_configured: true,
                renderer_configured: false,
            }),
    {
        ClientCapabilities {
            native_application: true,
            session_configured: true,
            presentation_configured: true,
            renderer_configured: false,
        }
    }
}

/// Header status of the metrics scrape, given the age of the last successful scrape as
/// whole seconds and sub-second nanoseconds (none before the first success) and whether
/// a scrape has failed: live up to three seconds, then stale with its age in whole
/// seconds; before any success, an error or the start-up state.
pub open spec fn scrape_status_text(age: Option<(u64, u32)>, has_error: bool) -> Seq<char> {
    match age {
        Some((seconds, nanos)) => if seconds * 1_000_000_000 + nanos <= 3_000_000_000 {
            "LIVE"@
        } else {
            "STALE "@ + decimal(seconds as nat) + "s"@
        },
        None => if has_error {
            "ERROR"@
        } else {
            "STARTING"@
        },
    }
}

/// Render the header status of the metrics scrape.
pub fn scrape_status(age: Option<(u64, u32)>, has_error: bool) -> (text: String)
    ensures
        text@ == scrape_status_text(age, has_error),
{
    match age {
        Some((seconds, nanos)) => {
            if (seconds as u128) * 1_000_000_000 + (nanos as u128) <= 3_000_000_000 {
                String::from_str("LIVE")
            } else {
                let mut text = String::from_str("STALE ");
                push_decimal(&mut text, seconds);
                proof {
                    reveal_strlit("s");
                }
                text.append("s");
                text
            }
        },
        None => if has_error {
            String::from_str("ERROR")
        } else {
            String::from_str("STARTING")
        },
    }
}

/// What a dashboard key asks of the log view, beyond the dashboard's own state.
#[derive(Debug, Clone, Copy, PartialEq, Eq, Structural)]
pub enum KeyEffect {
    Nothing,
    Log(LogCommand),
    Filter(FilterCommand),
}

/// Navigation state of the client dashboard.
#[derive(Debug, Clone, Copy, PartialEq, Eq, Structural)]
pub struct Dashboard {
    /// The page on screen.
    pub page: Page,
    /// Whether the key help overlay is shown.
    pub show_help: bool,
    /// Whether the operator asked to leave the dashboard.
    pub should_quit: bool,
}

/// The page a digit key selects directly, if any.
pub open spec fn digit_page(c: char) -> Option<Page> {
    if c == '1' {
        Some(Page::Overview)
    } else if c == '2' {
        Some(Page::Logs)
    } else if c == '3' {
        Some(Page::Session)
    } else if c == '4' {
        Some(Page::Prediction)
    } else if c == '5' {
        Some(Page::Presentation)
    } else if c == '6' {
        Some(Page::Host)
    } else {
        None
    }
}

/// The dashboard on a page.
pub open spec fn on_page(d: Dashboard, page: Page) -> Dashboard {
    Dashboard { page, show_help: d.show_help, should_quit: d.should_quit }
}

/// Dashboard state and log effect after one key event, given whether the log filter is
/// being edited. Releases are ignored and Ctrl+C always quits; while the filter is
/// edited every other key goes to the filter (characters only without Ctrl or Alt); an
/// open help overlay is closed by any key; otherwise `q` quits, `?` opens help, Tab and
/// BackTab cycle pages, digits select pages, and other keys on the log page go to the
/// log view.
pub open spec fn key_outcome(d: Dashboard, key: KeyInput, filter_editing: bool) -> (
    Dashboard,
    KeyEffect,
) {
    if !is_actionable(key) {
        (d, KeyEffect::Nothing)
    } else if is_interrupt(key) {
        (Dashboard { page: d.page, show_help: d.show_help, should_quit: true }, KeyEffect::Nothing)
    } else if filter_editing {
        let may_type = !key.modifiers.control && !key.modifiers.alt;
        (
            d,
            match spec_filter_command(key.code, may_type) {
                Some(command) => KeyEffect::Filter(command),
                None => KeyEffect::Nothing,
            },
        )
    } else if d.show_help {
        (Dashboard { page: d.page, show_help: false, should_quit: d.should_quit }, KeyEffect::Nothing)
    } else {
        match key.code {
            KeyCode::Char('q') => (
                Dashboard { page: d.page, show_help: d.show_help, should_quit: true },
                KeyEffect::Nothing,
            ),
            KeyCode::Char('?') => (
                Dashboard { page: d.page, show_help: true, should_quit: d.should_quit },
                KeyEffect::Nothing,
            ),
            KeyCode::Tab => (
                on_page(d, Page::at((d.page.position() + 1) % (CLIENT_PAGE_COUNT as nat))),
                KeyEffect::Nothing,
            ),
            KeyCode::BackTab => (
                on_page(
                    d,
                    Page::at(((d.page.position() + CLIENT_PAGE_COUNT - 1) % (CLIENT_PAGE_COUNT as int)) as nat),
                ),
                KeyEffect::Nothing,
            ),
            KeyCode::Char(c) if digit_page(c) is Some => (
                on_page(d, digit_page(c)->Some_0),
                KeyEffect::Nothing,
            ),
            _ => if d.page == Page::Logs {
                (
                    d,
                    match spec_log_command(key.code) {
                        Some(command) => KeyEffect::Log(command),
                        None => KeyEffect::Nothing,
                    },
                )
            } else {
                (d, KeyEffect::Nothing)
            },
        }
    }
}

/// Ctrl+C pressed or repeated quits from any state, even while the filter is edited,
/// and releasing any key changes nothing.
pub proof fn lemma_interrupt_quits_and_releases_are_ignored(
    d: Dashboard,
    key: KeyInput,
    filter_editing: bool,
)
    ensures
        is_actionable(key) && is_interrupt(key) ==> key_outcome(d, key, filter_editing).0.should_quit,
        !is_actionable(key) ==> key_outcome(d, key, filter_editing) == (d, KeyEffect::Nothing),
{
}

impl Dashboard {
    /// The dashboard as it opens: overview page, no help, running.
    pub fn new() -> (d: Dashboard)
        ensures
            d == (Dashboard { page: Page::Overview, show_help: false, should_quit: false }),
    {
        Dashboard { page: Page::Overview, show_help: false, should_quit: false }
    }

    /// Apply one key event, given whether the log filter is being edited, and return
    /// what it asks of the log view.
    pub fn handle_key(&mut self, key: KeyInput, filter_editing: bool) -> (effect: KeyEffect)
        ensures
            (*final(self), effect) == key_outcome(*old(self), key, filter_editing),
    {
        if !(key.kind == KeyKind::Press || key.kind == KeyKind::Repeat) {
            return KeyEffect::Nothing;
        }
        if key.modifiers.control && key.code == KeyCode::Char('c') {
            self.should_quit = true;
            return KeyEffect::Nothing;
        }
        if filter_editing {
            let may_type = !key.modifiers.control && !key.modifiers.alt;
            return match filter_command(key.code, may_type) {
                Some(command) => KeyEffect::Filter(command),
                None => KeyEffect::Nothing,
            };
        }
        if self.show_help {
            self.show_help = false;
            return KeyEffect::Nothing;
        }
        match key.code {
            KeyCode::Char('q') => {
                self.should_quit = true;
                KeyEffect::Nothing
            },
            KeyCode::Char('?') => {
                self.show_help = true;
                KeyEffect::Nothing
            },
            KeyCode::Tab => {
                self.page = self.page.next();
                KeyEffect::Nothing
            },
            KeyCode::BackTab => {
                self.page = self.page.previous();
                KeyEffect::Nothing
            },
            KeyCode::Char('1') => {
                self.page = Page::Overview;
                KeyEffect::Nothing
            },
            KeyCode::Char('2') => {
                self.page = Page::Logs;
                KeyEffect::Nothing
            },
            KeyCode::Char('3') => {
                self.page = Page::Session;
                KeyEffect::Nothing
            },
            KeyCode::Char('4') => {
                self.page = Page::Prediction;
                KeyEffect::Nothing
            },
            KeyCode::Char('5') => {
                self.page = Page::Presentation;
                KeyEffect::Nothing
            },
            KeyCode::Char('6') => {
                self.page = Page::Host;
                KeyEffect::Nothing
            },
            _ => {
                if self.page == Page::Logs {
                    match log_command(key.code) {
                        Some(command) => KeyEffect::Log(command),
                        None => KeyEffect::Nothing,
                    }
                } else {
                    KeyEffect::Nothing
                }
            },
        }
    }
}

/// Failure while starting or running client terminal diagnostics.
#[derive(Debug)]
pub enum ForegroundError {
    /// The metrics polling worker could not be started.
    MetricsPoller(std::io::Error),
    /// The terminal backend failed.
    Terminal(std::io::Error),
}

} // verus!

//! Page navigation and value formatting of the server terminal dashboard.
use vstd::prelude::*;
pub use super::agent::{format_uptime, uptime_text};
use vstd::string::StringExecFns;
use crate::text::{decimal, push_decimal};

verus! {

/// Number of pages of the dashboard.
pub const SERVER_PAGE_COUNT: usize = 8;

/// One page of the terminal dashboard, in tab order.
#[derive(Debug, Clone, Copy, PartialEq, Eq, Structural)]
pub enum Page {
    Overview,
    Logs,
    Simulation,
    Transport,
    Sessions,
    Replication,
    World,
    Host,
}

impl Default for Page {
    fn default() -> (page: Self)
        ensures
            page == Page::Overview,
    {
        Page::Overview
    }
}

impl Page {
    /// Every page in tab order.
    pub const ALL: [Page; 8] = [
        Page::Overview,
        Page::Logs,
        Page::Simulation,
        Page::Transport,
        Page::Sessions,
        Page::Replication,
        Page::World,
        Page::Host,
    ];

    /// Position of the page in tab order.
    pub open spec fn position(self) -> nat {
        match self {
            Page::Overview => 0,
            Page::Logs => 1,
            Page::Simulation => 2,
            Page::Transport => 3,
            Page::Sessions => 4,
            Page::Replication => 5,
            Page::World => 6,
            Page::Host => 7,
        }
    }

    /// The page at a position in tab order.
    pub open spec fn at(i: nat) -> Page {
        if i == 0 {
            Page::Overview
        } else if i == 1 {
            Page::Logs
        } else if i == 2 {
            Page::Simulation
        } else if i == 3 {
            Page::Transport
        } else if i == 4 {
            Page::Sessions
        } else if i == 5 {
            Page::Replication
        } else if i == 6 {
            Page::World
        } else {
            Page::Host
        }
    }

    /// Return the position of the page in tab order.
    pub fn index(self) -> (i: usize)
        ensures
            i == self.position(),
            i < SERVER_PAGE_COUNT,
    {
        match self {
            Page::Overview => 0,
            Page::Logs => 1,
            Page::Simulation => 2,
            Page::Transport => 3,
            Page::Sessions => 4,
            Page::Replication => 5,
            Page::World => 6,
            Page::Host => 7,
        }
    }

    /// The page after this one, wrapping from the last page to the first.
    pub fn next(self) -> (page: Page)
        ensures
            page.position() == (self.position() + 1) % (SERVER_PAGE_COUNT as nat),
    {
        let all = Page::ALL;
        all[(self.index() + 1) % all.len()]
    }

    /// The page before this one, wrapping from the first page to the last.
    pub fn previous(self) -> (page: Page)
        ensures
            page.position() == (self.position() + SERVER_PAGE_COUNT - 1) % (SERVER_PAGE_COUNT as int),
    {
        let all = Page::ALL;
        all[(self.index() + all.len() - 1) % all.len()]
    }
}

/// Tab index of a page for the navigation widget.
pub fn page_index(page: Page) -> (i: usize)
    ensures
        i == page.position(),
{
    page.index()
}

/// Every position names exactly one page: positions and pages are in bijection.
pub proof fn lemma_page_positions_are_a_bijection(page: Page, i: nat)
    requires
        i < SERVER_PAGE_COUNT,
    ensures
        Page::at(page.position()) == page,
        Page::at(i).position() == i,
        page.position() < SERVER_PAGE_COUNT,
{
}

/// Moving to the next page and back, or back and then forward, returns to the start;
/// pages are visited in the order of `Page::ALL`.
pub proof fn lemma_navigation_round_trip(page: Page)
    ensures
        Page::at((Page::at((page.position() + 1) % 8).position() + 7) % 8) == page,
        Page::at((Page::at((page.position() + 7) % 8).position() + 1) % 8) == page,
        Page::ALL@.len() == SERVER_PAGE_COUNT,
        forall|i: int| 0 <= i < 8 ==> (#[trigger] Page::ALL@[i]).position() == i,
{
}

/// State word of the log view: paused, following new events, or scrolled back.
pub open spec fn log_state_text(paused: bool, follow: bool) -> Seq<char> {
    if paused {
        "PAUSED"@
    } else if follow {
        "FOLLOW"@
    } else {
        "SCROLL"@
    }
}

/// Return the state word of the log view.
pub fn log_state(paused: bool, follow: bool) -> (state: &'static str)
    ensures
        state@ == log_state_text(paused, follow),
{
    proof {
        reveal_strlit("PAUSED");
        reveal_strlit("FOLLOW");
        reveal_strlit("SCROLL");
    }
    if paused {
        "PAUSED"
    } else if follow {
        "FOLLOW"
    } else {
        "SCROLL"
    }
}

/// Footer of the log view: the one-based range of shown events among `total`, starting
/// at index `first` with room for `visible_rows`, the dropped count, and whether the
/// log source has closed.
pub open spec fn log_range_text(first: nat, visible_rows: nat, total: nat, dropped: nat, disconnected: bool) -> Seq<char> {
    let start: nat = if total == 0 {
        0
    } else {
        first + 1
    };
    let remaining: nat = if total > first {
        (total - first) as nat
    } else {
        0
    };
    let end: nat = first + if visible_rows < remaining {
        visible_rows
    } else {
        remaining
    };
    decimal(start) + "-"@ + decimal(end) + " of "@ + decimal(total) + " · dropped "@ + decimal(dropped)
        + if disconnected {
        " · source closed"@
    } else {
        ""@
    }
}

/// Render the footer of the log view.
pub fn log_range(first: usize, visible_rows: usize, total: usize, dropped: u64, disconnected: bool) -> (text: String)
    requires
        first < usize::MAX,
    ensures
        text@ == log_range_text(first as nat, visible_rows as nat, total as nat, dropped as nat, disconnected),
{
    let start: usize = if total == 0 {
        0
    } else {
        first + 1
    };
    let remaining = total.saturating_sub(first);
    let shown = if visible_rows < remaining {
        visible_rows
    } else {
        remaining
    };
    let end: usize = first + shown;
    proof {
        reveal_strlit("-");
        reveal_strlit(" of ");
        reveal_strlit(" · dropped ");
        reveal_strlit(" · source closed");
        reveal_strlit("");
    }
    let mut text = String::new();
    push_decimal(&mut text, start as u64);
    text.append("-");
    push_decimal(&mut text, end as u64);
    text.append(" of ");
    push_decimal(&mut text, total as u64);
    text.append(" · dropped ");
    push_decimal(&mut text, dropped);
    if disconnected {
        text.append(" · source closed");
    }
    proof {
        assert(text@ =~= log_range_text(first as nat, visible_rows as nat, total as nat, dropped as nat, disconnected));
    }
    text
}

} // verus!

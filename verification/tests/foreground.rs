use blackflower::foreground::history::History;
use blackflower::foreground::server::Page;
use blackflower::foreground::{agent, client, server};

#[test]
fn page_navigation_wraps() {
    assert_eq!(Page::Host.next(), Page::Overview);
    assert_eq!(Page::Overview.previous(), Page::Host);
    assert_eq!(
        Page::ALL,
        [
            Page::Overview,
            Page::Logs,
            Page::Simulation,
            Page::Transport,
            Page::Sessions,
            Page::Replication,
            Page::World,
            Page::Host,
        ]
    );
}

#[test]
fn client_pages_cycle_in_tab_order() {
    let mut page = client::Page::default();
    assert_eq!(page, client::Page::Overview);
    for expected in client::Page::ALL.iter().skip(1) {
        page = page.next();
        assert_eq!(page, *expected);
    }
    assert_eq!(page.next(), client::Page::Overview);
    assert_eq!(client::Page::Overview.previous(), client::Page::Host);
    assert_eq!(client::page_index(client::Page::Prediction), 3);
    assert_eq!(client::Page::Presentation.title(), "Presentation");
    assert_eq!(client::Page::Presentation.short_title(), "Pres");
}

#[test]
fn agent_pages_cycle_in_tab_order() {
    for (index, page) in agent::Page::ALL.iter().enumerate() {
        assert_eq!(agent::page_index(*page), index);
        assert_eq!(page.next().previous(), *page);
    }
    assert_eq!(agent::Page::Host.next(), agent::Page::Overview);
    assert_eq!(agent::Page::Sensorium.short_title(), "Sense");
    assert_eq!(agent::Page::Navigation.title(), "Navigation");
}

#[test]
fn server_page_index_matches_tab_order() {
    for (index, page) in server::Page::ALL.iter().enumerate() {
        assert_eq!(server::page_index(*page), index);
    }
    assert_eq!(server::Page::Replication.previous(), server::Page::Sessions);
}

#[test]
fn formats_operational_values() {
    assert_eq!(client::format_uptime(3_661), "01:01:01");
    assert_eq!(client::format_uptime(360_000), "100:00:00");
    assert_eq!(agent::format_uptime(0), "00:00:00");
    assert_eq!(agent::format_uptime(90_061), "1d 01:01:01");
    assert_eq!(server::format_uptime(86_399), "23:59:59");
    assert_eq!(server::format_uptime(12 * 86_400 + 59), "12d 00:00:59");
    assert_eq!(client::configured(true), "configured");
    assert_eq!(agent::configured(false), "not configured");
    assert_eq!(agent::loaded(true), "loaded");
    assert_eq!(agent::loaded(false), "not loaded");
}

#[test]
fn history_keeps_only_the_most_recent_samples() {
    let mut history = History::default();
    assert!(history.values().is_empty());
    for value in 0..75_u64 {
        history.push(value);
    }
    let values = history.values();
    assert_eq!(values.len(), 60);
    assert_eq!(values[0], 15);
    assert_eq!(values[59], 74);
}

#[test]
fn server_log_footer_counts_shown_events() {
    assert_eq!(server::log_range(0, 10, 0, 0, false), "0-0 of 0 · dropped 0");
    assert_eq!(server::log_range(5, 10, 12, 3, true), "6-12 of 12 · dropped 3 · source closed");
    assert_eq!(server::log_range(0, 4, 100, 0, false), "1-4 of 100 · dropped 0");
    assert_eq!(server::log_state(true, true), "PAUSED");
    assert_eq!(server::log_state(false, true), "FOLLOW");
    assert_eq!(server::log_state(false, false), "SCROLL");
}

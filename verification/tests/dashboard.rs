use blackflower::diagnostics::identity::AgentId;
use blackflower::foreground::agent;
use blackflower::foreground::client;
use blackflower::foreground::keys::{
    filter_command, log_command, FilterCommand, KeyCode, KeyInput, KeyKind, KeyModifiers,
    LogCommand,
};
use blackflower::foreground::roster::{
    admits_agent, diagnostic_stream_status, AgentSelection, DecisionHistory, DECISION_HISTORY_CAPACITY, MAX_VISIBLE_AGENTS,
};

const NONE: KeyModifiers = KeyModifiers { shift: false, control: false, alt: false, other: false };

fn press(code: KeyCode) -> KeyInput {
    KeyInput { code, kind: KeyKind::Press, modifiers: NONE }
}

fn with(code: KeyCode, modifiers: KeyModifiers) -> KeyInput {
    KeyInput { code, kind: KeyKind::Press, modifiers }
}

#[test]
fn client_dashboard_navigates_by_tab_and_digits() {
    let mut d = client::Dashboard::new();
    assert_eq!(d.handle_key(press(KeyCode::Tab), false), client::KeyEffect::Nothing);
    assert_eq!(d.page, client::Page::Logs);
    d.handle_key(press(KeyCode::BackTab), false);
    d.handle_key(press(KeyCode::BackTab), false);
    assert_eq!(d.page, client::Page::Host);
    d.handle_key(press(KeyCode::Char('5')), false);
    assert_eq!(d.page, client::Page::Presentation);
    d.handle_key(press(KeyCode::Char('7')), false);
    assert_eq!(d.page, client::Page::Presentation);
    assert!(!d.should_quit);
}

#[test]
fn client_dashboard_ignores_releases_and_quits_on_interrupt() {
    let mut d = client::Dashboard::new();
    let release = KeyInput { code: KeyCode::Char('q'), kind: KeyKind::Release, modifiers: NONE };
    d.handle_key(release, false);
    assert!(!d.should_quit);
    let ctrl = KeyModifiers { control: true, ..NONE };
    assert_eq!(d.handle_key(with(KeyCode::Char('c'), ctrl), true), client::KeyEffect::Nothing);
    assert!(d.should_quit);
}

#[test]
fn help_overlay_swallows_the_next_key() {
    let mut d = client::Dashboard::new();
    d.handle_key(press(KeyCode::Char('?')), false);
    assert!(d.show_help);
    d.handle_key(press(KeyCode::Char('q')), false);
    assert!(!d.show_help);
    assert!(!d.should_quit);
    d.handle_key(press(KeyCode::Char('q')), false);
    assert!(d.should_quit);
}

#[test]
fn log_page_keys_reach_the_log_view() {
    let mut d = client::Dashboard::new();
    d.handle_key(press(KeyCode::Char('2')), false);
    assert_eq!(
        d.handle_key(press(KeyCode::PageUp), false),
        client::KeyEffect::Log(LogCommand::ScrollUp(10))
    );
    assert_eq!(
        d.handle_key(press(KeyCode::Char('c')), false),
        client::KeyEffect::Log(LogCommand::ClearEvents)
    );
    d.handle_key(press(KeyCode::Char('1')), false);
    assert_eq!(d.handle_key(press(KeyCode::PageUp), false), client::KeyEffect::Nothing);
}

#[test]
fn filter_editing_takes_characters_by_modifier_rule() {
    let mut c = client::Dashboard::new();
    let shift = KeyModifiers { shift: true, ..NONE };
    let meta = KeyModifiers { other: true, ..NONE };
    let alt = KeyModifiers { alt: true, ..NONE };
    assert_eq!(
        c.handle_key(with(KeyCode::Char('X'), shift), true),
        client::KeyEffect::Filter(FilterCommand::Insert('X'))
    );
    assert_eq!(
        c.handle_key(with(KeyCode::Char('x'), meta), true),
        client::KeyEffect::Filter(FilterCommand::Insert('x'))
    );
    assert_eq!(c.handle_key(with(KeyCode::Char('x'), alt), true), client::KeyEffect::Nothing);
    assert_eq!(c.page, client::Page::Overview);
    let mut a = agent::Dashboard::new();
    assert_eq!(
        a.handle_key(with(KeyCode::Char('X'), shift), true),
        agent::KeyEffect::Filter(FilterCommand::Insert('X'))
    );
    assert_eq!(a.handle_key(with(KeyCode::Char('x'), meta), true), agent::KeyEffect::Nothing);
    assert_eq!(
        a.handle_key(press(KeyCode::Enter), true),
        agent::KeyEffect::Filter(FilterCommand::Commit)
    );
    assert_eq!(filter_command(KeyCode::Backspace, false), Some(FilterCommand::Backspace));
    assert_eq!(log_command(KeyCode::Char('L')), Some(LogCommand::CycleCaptureLevel));
    assert_eq!(log_command(KeyCode::Char('q')), None);
}

#[test]
fn agent_dashboard_routes_arrows_to_the_selection() {
    let mut d = agent::Dashboard::new();
    assert_eq!(d.handle_key(press(KeyCode::Down), false), agent::KeyEffect::Nothing);
    d.handle_key(press(KeyCode::Char('5')), false);
    assert_eq!(d.page, agent::Page::Decisions);
    assert_eq!(
        d.handle_key(press(KeyCode::Down), false),
        agent::KeyEffect::Selection(agent::SelectionCommand::NextAgent)
    );
    assert_eq!(
        d.handle_key(press(KeyCode::Left), false),
        agent::KeyEffect::Selection(agent::SelectionCommand::OlderDecision)
    );
    assert_eq!(
        d.handle_key(press(KeyCode::End), false),
        agent::KeyEffect::Selection(agent::SelectionCommand::NewestDecision)
    );
    d.handle_key(press(KeyCode::Char('3')), false);
    assert_eq!(
        d.handle_key(press(KeyCode::Up), false),
        agent::KeyEffect::Selection(agent::SelectionCommand::PreviousAgent)
    );
    assert_eq!(d.handle_key(press(KeyCode::Left), false), agent::KeyEffect::Nothing);
    d.handle_key(press(KeyCode::Char('9')), false);
    assert_eq!(d.page, agent::Page::Host);
}

#[test]
fn agent_selection_cycles_and_clamps_decisions() {
    let ids = [AgentId::new(3), AgentId::new(7), AgentId::new(9)];
    let mut selection = AgentSelection::new();
    selection.select_previous(&[]);
    assert_eq!(selection, AgentSelection::new());
    selection.observe(AgentId::new(7));
    selection.observe(AgentId::new(9));
    assert_eq!(selection.selected, Some(AgentId::new(7)));
    selection.select_older(Some(4));
    selection.select_older(Some(4));
    selection.select_older(Some(4));
    selection.select_older(Some(4));
    assert_eq!(selection.decision_offset, 3);
    assert_eq!(selection.decision_index(4), Some(0));
    assert_eq!(selection.decision_index(3), None);
    selection.select_newer();
    assert_eq!(selection.decision_offset, 2);
    selection.select_next(&ids);
    assert_eq!(selection.selected, Some(AgentId::new(9)));
    assert_eq!(selection.decision_offset, 0);
    selection.select_next(&ids);
    assert_eq!(selection.selected, Some(AgentId::new(3)));
    selection.select_previous(&ids);
    assert_eq!(selection.selected, Some(AgentId::new(9)));
    selection.select_newer();
    assert_eq!(selection.decision_offset, 0);
    selection.select_older(None);
    assert_eq!(selection.decision_offset, 0);
    let mut lost = AgentSelection { selected: Some(AgentId::new(5)), decision_offset: 2 };
    lost.select_previous(&ids);
    assert_eq!(lost, AgentSelection { selected: Some(AgentId::new(3)), decision_offset: 0 });
}

#[test]
fn agent_roster_and_decisions_are_bounded() {
    assert!(admits_agent(false, MAX_VISIBLE_AGENTS - 1));
    assert!(!admits_agent(false, MAX_VISIBLE_AGENTS));
    assert!(admits_agent(true, MAX_VISIBLE_AGENTS));
    let mut history = DecisionHistory::new();
    for sequence in 0..(DECISION_HISTORY_CAPACITY as u64 + 5) {
        history.push(sequence);
    }
    assert_eq!(history.len(), DECISION_HISTORY_CAPACITY);
    assert_eq!(history.get(0), Some(&5));
    assert_eq!(history.get(DECISION_HISTORY_CAPACITY - 1), Some(&(DECISION_HISTORY_CAPACITY as u64 + 4)));
    assert_eq!(history.get(DECISION_HISTORY_CAPACITY), None);
}

#[test]
fn client_scrape_status_reports_liveness() {
    assert_eq!(client::scrape_status(None, false), "STARTING");
    assert_eq!(client::scrape_status(None, true), "ERROR");
    assert_eq!(client::scrape_status(Some((3, 0)), true), "LIVE");
    assert_eq!(client::scrape_status(Some((0, 5)), false), "LIVE");
    assert_eq!(client::scrape_status(Some((3, 1)), false), "STALE 3s");
    assert_eq!(client::scrape_status(Some((125, 999_999_999)), false), "STALE 125s");
}

#[test]
fn agent_stream_status_follows_the_runtime() {
    assert_eq!(
        diagnostic_stream_status(false, true, true),
        "diagnostic stream unavailable: process-only shell"
    );
    assert_eq!(diagnostic_stream_status(true, true, true), "diagnostic stream closed");
    assert_eq!(
        diagnostic_stream_status(true, false, false),
        "diagnostic stream live: waiting for runtime records"
    );
    assert_eq!(diagnostic_stream_status(true, false, true), "diagnostic stream live");
}

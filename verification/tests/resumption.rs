use blackflower::peer_progress::{control_within_window, detach, ClockNotReady, PeerProgress};
use blackflower::resumption::{
    apply_pending_resumes, expire_detached_sessions, DetachedSession, ResumingPeer,
};

fn peer(
    name: &'static str,
    session: Option<u64>,
    pending_replacement: Option<u64>,
    binding: Option<u32>,
) -> ResumingPeer<&'static str, u32> {
    ResumingPeer { peer: name, session, pending_replacement, binding, binding_announced: true, spawn_pending: false }
}

fn names(peers: &[ResumingPeer<&'static str, u32>]) -> Vec<&'static str> {
    peers.iter().map(|p| p.peer).collect()
}

#[test]
fn a_resumed_connection_adopts_the_binding_of_the_one_it_replaces() {
    let mut peers = vec![
        peer("old", Some(5), None, Some(50)),
        peer("other", Some(8), None, Some(80)),
        peer("new", Some(5), Some(5), None),
    ];
    let mut detached = Vec::new();
    let (despawn, closed) = apply_pending_resumes(&mut peers, &mut detached);
    assert!(despawn.is_empty());
    assert_eq!(closed, vec!["old"]);
    assert_eq!(names(&peers), vec!["other", "new"]);
    let adopted = &peers[1];
    assert_eq!(adopted.binding, Some(50));
    assert_eq!(adopted.pending_replacement, None);
    assert!(!adopted.binding_announced);
    assert!(adopted.spawn_pending);
    assert_eq!(peers[0].binding, Some(80));
}

#[test]
fn a_retained_detached_session_is_adopted_and_consumed() {
    let mut peers = vec![peer("new", Some(6), Some(6), None)];
    let mut detached = vec![
        DetachedSession { session: 4, binding: 40, expires_at: 100 },
        DetachedSession { session: 6, binding: 60, expires_at: 100 },
    ];
    let (despawn, closed) = apply_pending_resumes(&mut peers, &mut detached);
    assert!(despawn.is_empty());
    assert!(closed.is_empty());
    assert_eq!(peers[0].binding, Some(60));
    assert_eq!(detached, vec![DetachedSession { session: 4, binding: 40, expires_at: 100 }]);
}

#[test]
fn a_resume_without_retained_state_removes_the_waiting_connection() {
    let mut peers = vec![
        peer("lost", Some(7), Some(7), None),
        peer("first", Some(1), None, Some(10)),
        peer("last", Some(2), None, Some(20)),
    ];
    let mut detached = vec![DetachedSession { session: 3, binding: 30, expires_at: 9 }];
    let (despawn, closed) = apply_pending_resumes(&mut peers, &mut detached);
    assert!(despawn.is_empty());
    assert_eq!(closed, vec!["lost"]);
    assert_eq!(names(&peers), vec!["last", "first"]);
    assert_eq!(detached.len(), 1);
}

#[test]
fn nothing_waits_so_nothing_changes() {
    let mut peers = vec![peer("a", Some(1), None, Some(10)), peer("b", None, None, None)];
    let mut detached = vec![DetachedSession { session: 3, binding: 30, expires_at: 9 }];
    let (despawn, closed) = apply_pending_resumes(&mut peers, &mut detached);
    assert!(despawn.is_empty() && closed.is_empty());
    assert_eq!(names(&peers), vec!["a", "b"]);
    assert_eq!(detached.len(), 1);
}

#[test]
fn expired_detached_sessions_are_despawned_in_order() {
    let mut detached = vec![
        DetachedSession { session: 1, binding: 10, expires_at: 5 },
        DetachedSession { session: 2, binding: 20, expires_at: 9 },
        DetachedSession { session: 3, binding: 30, expires_at: 4 },
    ];
    assert!(expire_detached_sessions(&mut detached, 3).is_empty());
    assert_eq!(expire_detached_sessions(&mut detached, 5), vec![10, 30]);
    assert_eq!(detached, vec![DetachedSession { session: 2, binding: 20, expires_at: 9 }]);
    assert_eq!(expire_detached_sessions(&mut detached, 9), vec![20]);
    assert!(detached.is_empty());
}

#[test]
fn synchronization_restarts_and_gates_clock_activation_and_snapshots() {
    let mut progress = PeerProgress::new();
    assert!(!progress.spawn_pending);
    assert_eq!(progress.clock_synchronized(3), Err(ClockNotReady { uncertainty_ticks: 3 }));
    assert_eq!(progress.clock_uncertainty_ticks, None);
    assert_eq!(progress.clock_synchronized(2), Ok(()));
    assert_eq!(progress.activation_due(true), None);
    progress.bootstrap_applied = true;
    assert_eq!(progress.activation_due(false), None);
    assert_eq!(progress.activation_due(true), Some(2));
    progress.activation_scheduled = true;
    assert_eq!(progress.activation_due(true), None);

    assert!(progress.snapshot_due(true, 20, 10));
    assert!(!progress.snapshot_due(false, 20, 10));
    assert!(!progress.snapshot_due(true, 25, 10));
    progress.last_snapshot_tick = Some(20);
    assert!(!progress.snapshot_due(true, 20, 10));
    assert!(progress.snapshot_due(true, 30, 10));

    progress.restart_synchronization();
    assert_eq!(
        progress,
        PeerProgress {
            bootstrap_applied: false,
            clock_uncertainty_ticks: None,
            activation_scheduled: false,
            active_reported: false,
            last_snapshot_tick: None,
            spawn_pending: true,
        }
    );
    assert!(!progress.snapshot_due(true, 40, 10));
}

#[test]
fn controls_stay_within_the_future_window_and_dropped_sessions_are_retained() {
    assert!(control_within_window(110, 100, 10));
    assert!(!control_within_window(111, 100, 10));
    assert!(control_within_window(u64::MAX, u64::MAX - 1, 10));
    assert_eq!(
        detach(Some(4), Some(40u32), 100, 30),
        Some(DetachedSession { session: 4, binding: 40, expires_at: 130 })
    );
    assert_eq!(
        detach(Some(4), Some(40u32), u64::MAX - 1, 30),
        Some(DetachedSession { session: 4, binding: 40, expires_at: u64::MAX })
    );
    assert_eq!(detach(None, Some(40u32), 100, 30), None);
    assert_eq!(detach::<u32>(Some(4), None, 100, 30), None);
}

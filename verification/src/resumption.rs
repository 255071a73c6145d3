//! The dedicated server's bookkeeping when reconnecting clients resume their sessions:
//! which connection keeps a session's control binding, which bindings are despawned, and
//! which connections are closed.
//!
//! Connections are carried as `P` and control bindings as `B`; the runtime performs the
//! despawns and closes the connections that these decisions return.
use vstd::prelude::*;

verus! {

/// What the runtime keeps of one connected peer that bears on resumption.
pub struct ResumingPeer<P, B> {
    /// The connection itself.
    pub peer: P,
    /// The session the connection serves, once admitted or resumed.
    pub session: Option<u64>,
    /// The session whose earlier connection this one replaces, until it takes over.
    pub pending_replacement: Option<u64>,
    /// The control binding of the session's actor, if the connection holds one.
    pub binding: Option<B>,
    /// Whether the binding was announced to the client.
    pub binding_announced: bool,
    /// Whether the actor still has to be spawned or announced.
    pub spawn_pending: bool,
}

/// A session whose connection dropped, kept until it expires so it can be resumed.
#[derive(Debug, Clone, Copy, PartialEq, Eq)]
pub struct DetachedSession<B> {
    pub session: u64,
    pub binding: B,
    /// When the retained session expires, in nanoseconds of the server clock.
    pub expires_at: u64,
}

/// Abstract bookkeeping: the peers in order, the detached sessions, the bindings to
/// despawn, and the connections to close, each in the order they arose.
pub type ResumeBook<P, B> = (Seq<ResumingPeer<P, B>>, Seq<DetachedSession<B>>, Seq<B>, Seq<P>);

/// Whether `i` is the first position of `s` whose element satisfies `pred`.
pub open spec fn is_first<T>(s: Seq<T>, i: int, pred: spec_fn(T) -> bool) -> bool {
    &&& 0 <= i < s.len()
    &&& pred(s[i])
    &&& forall|j: int| 0 <= j < i ==> !pred(#[trigger] s[j])
}

/// The first position of `s` whose element satisfies `pred`, if any.
pub open spec fn first_where<T>(s: Seq<T>, pred: spec_fn(T) -> bool) -> Option<int> {
    if exists|i: int| is_first(s, i, pred) {
        Some(choose|i: int| is_first(s, i, pred))
    } else {
        None
    }
}

/// Whether a peer still holds `session` with its binding, and replaces nothing.
pub open spec fn holds_session<P, B>(p: ResumingPeer<P, B>, session: u64) -> bool {
    p.session == Some(session) && p.pending_replacement is None && p.binding is Some
}

/// Whether a peer waits to take over `session`.
pub open spec fn replaces_session<P, B>(p: ResumingPeer<P, B>, session: u64) -> bool {
    p.pending_replacement == Some(session)
}

/// The test for a peer still holding `session`.
pub open spec fn holder_of<P, B>(session: u64) -> spec_fn(ResumingPeer<P, B>) -> bool {
    |p: ResumingPeer<P, B>| holds_session(p, session)
}

/// The test for a peer waiting to take over `session`.
pub open spec fn replacer_of<P, B>(session: u64) -> spec_fn(ResumingPeer<P, B>) -> bool {
    |p: ResumingPeer<P, B>| replaces_session(p, session)
}

/// The test for the retained session `session`.
pub open spec fn retained_of<B>(session: u64) -> spec_fn(DetachedSession<B>) -> bool {
    |d: DetachedSession<B>| d.session == session
}

/// The sessions that peers wait to take over, in peer order.
pub open spec fn pending_sessions<P, B>(peers: Seq<ResumingPeer<P, B>>) -> Seq<u64>
    decreases peers.len(),
{
    if peers.len() == 0 {
        Seq::empty()
    } else {
        let earlier = pending_sessions(peers.drop_last());
        match peers.last().pending_replacement {
            Some(session) => earlier.push(session),
            None => earlier,
        }
    }
}

/// A replacing peer after it takes over `binding`.
pub open spec fn adopted<P, B>(p: ResumingPeer<P, B>, binding: B) -> ResumingPeer<P, B> {
    ResumingPeer {
        binding: Some(binding),
        binding_announced: false,
        spawn_pending: true,
        pending_replacement: None,
        ..p
    }
}

/// One session's takeover. The binding comes from the first peer still holding the
/// session, which is closed, or else from the retained detached session, which is
/// consumed. Then the first peer waiting for the session adopts the binding; without a
/// waiting peer the binding is despawned; and a waiting peer with no binding to adopt is
/// removed (the last peer takes its place), its own binding despawned and its connection
/// closed.
pub open spec fn resume_step<P, B>(book: ResumeBook<P, B>, session: u64) -> ResumeBook<P, B> {
    let (peers, detached, despawned, closed) = book;
    let holder = first_where(peers, holder_of(session));
    let (peers1, closed1, taken) = match holder {
        Some(i) => (peers.remove(i), closed.push(peers[i].peer), peers[i].binding),
        None => (peers, closed, None),
    };
    let retained = first_where(detached, retained_of(session));
    let (detached1, binding) = if taken is Some {
        (detached, taken)
    } else {
        match retained {
            Some(k) => (detached.remove(k), Some(detached[k].binding)),
            None => (detached, None),
        }
    };
    match first_where(peers1, replacer_of(session)) {
        None => (
            peers1,
            detached1,
            match binding {
                Some(b) => despawned.push(b),
                None => despawned,
            },
            closed1,
        ),
        Some(n) => match binding {
            Some(b) => (peers1.update(n, adopted(peers1[n], b)), detached1, despawned, closed1),
            None => (
                peers1.update(n, peers1.last()).drop_last(),
                detached1,
                match peers1[n].binding {
                    Some(own) => despawned.push(own),
                    None => despawned,
                },
                closed1.push(peers1[n].peer),
            ),
        },
    }
}

/// The bookkeeping after the takeovers of `sessions`, in order.
pub open spec fn resume_all<P, B>(book: ResumeBook<P, B>, sessions: Seq<u64>) -> ResumeBook<P, B>
    decreases sessions.len(),
{
    if sessions.len() == 0 {
        book
    } else {
        resume_step(resume_all(book, sessions.drop_last()), sessions.last())
    }
}

proof fn lemma_first_is_unique<T>(s: Seq<T>, i: int, pred: spec_fn(T) -> bool)
    requires
        is_first(s, i, pred),
    ensures
        first_where(s, pred) == Some(i),
{
    let k = choose|k: int| is_first(s, k, pred);
    assert(is_first(s, k, pred));
    if k < i {
        assert(!pred(s[k]));
    } else if k > i {
        assert(!pred(s[i]));
    }
}

proof fn lemma_none_first<T>(s: Seq<T>, pred: spec_fn(T) -> bool)
    requires
        forall|j: int| 0 <= j < s.len() ==> !pred(#[trigger] s[j]),
    ensures
        first_where(s, pred) is None,
{
}

/// Position of the first peer still holding `session`.
fn find_holder<P, B: Copy>(peers: &Vec<ResumingPeer<P, B>>, session: u64) -> (index: Option<usize>)
    ensures
        match index {
            Some(k) => first_where(peers@, holder_of(session)) == Some(k as int) && k < peers@.len(),
            None => first_where(peers@, holder_of(session)) is None,
        },
{
    let ghost pred = holder_of::<P, B>(session);
    let mut i: usize = 0;
    while i < peers.len()
        invariant
            i <= peers@.len(),
            pred == holder_of::<P, B>(session),
            forall|j: int| 0 <= j < i ==> !pred(#[trigger] peers@[j]),
        decreases peers@.len() - i,
    {
        let p = &peers[i];
        let holds = match p.session {
            Some(s) => s == session && p.pending_replacement.is_none() && p.binding.is_some(),
            None => false,
        };
        if holds {
            proof {
                assert(pred(peers@[i as int]));
                lemma_first_is_unique(peers@, i as int, pred);
            }
            return Some(i);
        }
        i = i + 1;
    }
    proof {
        lemma_none_first(peers@, pred);
    }
    None
}

/// Position of the first peer waiting to take over `session`.
fn find_replacer<P, B: Copy>(peers: &Vec<ResumingPeer<P, B>>, session: u64) -> (index: Option<usize>)
    ensures
        match index {
            Some(k) => first_where(peers@, replacer_of(session)) == Some(k as int) && k < peers@.len(),
            None => first_where(peers@, replacer_of(session)) is None,
        },
{
    let ghost pred = replacer_of::<P, B>(session);
    let mut i: usize = 0;
    while i < peers.len()
        invariant
            i <= peers@.len(),
            pred == replacer_of::<P, B>(session),
            forall|j: int| 0 <= j < i ==> !pred(#[trigger] peers@[j]),
        decreases peers@.len() - i,
    {
        let replaces = match peers[i].pending_replacement {
            Some(s) => s == session,
            None => false,
        };
        if replaces {
            proof {
                lemma_first_is_unique(peers@, i as int, pred);
            }
            return Some(i);
        }
        i = i + 1;
    }
    proof {
        lemma_none_first(peers@, pred);
    }
    None
}

/// Position of the retained detached session `session`.
fn find_detached<B: Copy>(detached: &Vec<DetachedSession<B>>, session: u64) -> (index: Option<usize>)
    ensures
        match index {
            Some(k) => first_where(detached@, retained_of(session)) == Some(k as int) && k < detached@.len(),
            None => first_where(detached@, retained_of(session)) is None,
        },
{
    let ghost pred = retained_of::<B>(session);
    let mut i: usize = 0;
    while i < detached.len()
        invariant
            i <= detached@.len(),
            pred == retained_of::<B>(session),
            forall|j: int| 0 <= j < i ==> !pred(#[trigger] detached@[j]),
        decreases detached@.len() - i,
    {
        if detached[i].session == session {
            proof {
                lemma_first_is_unique(detached@, i as int, pred);
            }
            return Some(i);
        }
        i = i + 1;
    }
    proof {
        lemma_none_first(detached@, pred);
    }
    None
}

/// Carry out one session's takeover on the bookkeeping.
fn resume_session<P, B: Copy>(
    peers: &mut Vec<ResumingPeer<P, B>>,
    detached: &mut Vec<DetachedSession<B>>,
    despawn: &mut Vec<B>,
    closed: &mut Vec<P>,
    session: u64,
)
    ensures
        (final(peers)@, final(detached)@, final(despawn)@, final(closed)@) == resume_step(
            (old(peers)@, old(detached)@, old(despawn)@, old(closed)@),
            session,
        ),
{
    let ghost peers0 = peers@;
    let ghost detached0 = detached@;
    let ghost closed0 = closed@;
    let found = find_holder(peers, session);
    let taken: Option<B> = match found {
        Some(i) => {
            let old_peer = peers.remove(i);
            let binding = old_peer.binding;
            closed.push(old_peer.peer);
            binding
        },
        None => None,
    };
    let ghost peers1 = peers@;
    let ghost closed1 = closed@;
    proof {
        match found {
            Some(i) => {
                assert(peers1 =~= peers0.remove(i as int));
                assert(closed1 =~= closed0.push(peers0[i as int].peer));
                assert(taken == peers0[i as int].binding);
            },
            None => {},
        }
    }
    let kept_at = if taken.is_some() {
        None
    } else {
        find_detached(detached, session)
    };
    let binding: Option<B> = if taken.is_some() {
        taken
    } else {
        match kept_at {
            Some(k) => {
                let kept = detached.remove(k);
                Some(kept.binding)
            },
            None => None,
        }
    };
    let ghost detached1 = detached@;
    proof {
        if taken is None {
            match kept_at {
                Some(k) => {
                    assert(detached1 =~= detached0.remove(k as int));
                    assert(binding == Some(detached0[k as int].binding));
                },
                None => {},
            }
        }
    }
    match find_replacer(peers, session) {
        None => {
            if let Some(b) = binding {
                despawn.push(b);
            }
        },
        Some(n) => match binding {
            Some(b) => {
                let mut p = peers.remove(n);
                p.binding = Some(b);
                p.binding_announced = false;
                p.spawn_pending = true;
                p.pending_replacement = None;
                proof {
                    assert(p == adopted(peers1[n as int], b));
                }
                peers.insert(n, p);
                proof {
                    assert(peers@ =~= peers1.update(n as int, adopted(peers1[n as int], b)));
                }
            },
            None => {
                let removed = peers.swap_remove(n);
                if let Some(own) = removed.binding {
                    despawn.push(own);
                }
                closed.push(removed.peer);
            },
        },
    }
}

/// Let every waiting peer take over its session, in peer order (the runtime's step after
/// new resumptions were accepted): each takeover moves the session's binding to the
/// waiting peer and closes the connection it replaces, or despawns what can no longer
/// be adopted. Returns the bindings to despawn and the connections to close, in order.
pub fn apply_pending_resumes<P, B: Copy>(
    peers: &mut Vec<ResumingPeer<P, B>>,
    detached: &mut Vec<DetachedSession<B>>,
) -> (result: (Vec<B>, Vec<P>))
    ensures
        (final(peers)@, final(detached)@, result.0@, result.1@) == resume_all(
            (old(peers)@, old(detached)@, Seq::empty(), Seq::empty()),
            pending_sessions(old(peers)@),
        ),
        forall|j: int|
            0 <= j < final(peers)@.len() ==> (#[trigger] final(peers)@[j]).pending_replacement is None,
{
    proof {
        lemma_no_peer_left_waiting(old(peers)@, old(detached)@);
    }
    let mut sessions: Vec<u64> = Vec::new();
    let mut i: usize = 0;
    while i < peers.len()
        invariant
            i <= peers@.len(),
            sessions@ == pending_sessions(peers@.subrange(0, i as int)),
        decreases peers@.len() - i,
    {
        if let Some(s) = peers[i].pending_replacement {
            sessions.push(s);
        }
        proof {
            assert(peers@.subrange(0, i as int + 1).drop_last() =~= peers@.subrange(0, i as int));
        }
        i = i + 1;
    }
    proof {
        assert(peers@.subrange(0, peers@.len() as int) =~= peers@);
    }
    let ghost start: ResumeBook<P, B> = (peers@, detached@, Seq::empty(), Seq::empty());
    let mut despawn: Vec<B> = Vec::new();
    let mut closed: Vec<P> = Vec::new();
    let mut k: usize = 0;
    while k < sessions.len()
        invariant
            k <= sessions@.len(),
            (peers@, detached@, despawn@, closed@) == resume_all(start, sessions@.subrange(0, k as int)),
        decreases sessions@.len() - k,
    {
        let session = sessions[k];
        resume_session(peers, detached, &mut despawn, &mut closed, session);
        proof {
            let done = sessions@.subrange(0, k as int + 1);
            assert(done.drop_last() =~= sessions@.subrange(0, k as int));
            assert(done.last() == session);
        }
        k = k + 1;
    }
    proof {
        assert(sessions@.subrange(0, sessions@.len() as int) =~= sessions@);
    }
    (despawn, closed)
}

/// How many elements of `s` satisfy `pred`.
pub open spec fn count_where<T>(s: Seq<T>, pred: spec_fn(T) -> bool) -> nat
    decreases s.len(),
{
    if s.len() == 0 {
        0
    } else {
        count_where(s.drop_last(), pred) + if pred(s.last()) {
            1nat
        } else {
            0nat
        }
    }
}

/// How many times `session` occurs in `sessions`.
pub open spec fn occurrences(sessions: Seq<u64>, session: u64) -> nat
    decreases sessions.len(),
{
    if sessions.len() == 0 {
        0
    } else {
        occurrences(sessions.drop_last(), session) + if sessions.last() == session {
            1nat
        } else {
            0nat
        }
    }
}

proof fn lemma_count_update<T>(s: Seq<T>, i: int, v: T, pred: spec_fn(T) -> bool)
    requires
        0 <= i < s.len(),
    ensures
        count_where(s.update(i, v), pred) + (if pred(s[i]) {
            1int
        } else {
            0int
        }) == count_where(s, pred) + (if pred(v) {
            1int
        } else {
            0int
        }),
    decreases s.len(),
{
    let u = s.update(i, v);
    if i == s.len() - 1 {
        assert(u.drop_last() =~= s.drop_last());
    } else {
        assert(u.drop_last() =~= s.drop_last().update(i, v));
        lemma_count_update(s.drop_last(), i, v, pred);
    }
}

proof fn lemma_count_remove<T>(s: Seq<T>, i: int, pred: spec_fn(T) -> bool)
    requires
        0 <= i < s.len(),
    ensures
        count_where(s.remove(i), pred) + (if pred(s[i]) {
            1int
        } else {
            0int
        }) == count_where(s, pred),
    decreases s.len(),
{
    let r = s.remove(i);
    if i == s.len() - 1 {
        assert(r =~= s.drop_last());
    } else {
        assert(r.drop_last() =~= s.drop_last().remove(i));
        assert(r.last() == s.last());
        lemma_count_remove(s.drop_last(), i, pred);
    }
}

proof fn lemma_count_positive<T>(s: Seq<T>, j: int, pred: spec_fn(T) -> bool)
    requires
        0 <= j < s.len(),
        pred(s[j]),
    ensures
        count_where(s, pred) > 0,
    decreases s.len(),
{
    if j < s.len() - 1 {
        assert(s.drop_last()[j] == s[j]);
        lemma_count_positive(s.drop_last(), j, pred);
    }
}

proof fn lemma_some_first<T>(s: Seq<T>, j: int, pred: spec_fn(T) -> bool)
    requires
        0 <= j < s.len(),
        pred(s[j]),
    ensures
        first_where(s, pred) is Some,
    decreases j,
{
    if exists|k: int| 0 <= k < j && pred(s[k]) {
        let k = choose|k: int| 0 <= k < j && pred(s[k]);
        lemma_some_first(s, k, pred);
    } else {
        assert(is_first(s, j, pred));
    }
}

proof fn lemma_count_zero_when_none<T>(s: Seq<T>, pred: spec_fn(T) -> bool)
    requires
        first_where(s, pred) is None,
    ensures
        count_where(s, pred) == 0,
    decreases s.len(),
{
    if s.len() > 0 {
        if pred(s.last()) {
            lemma_some_first(s, s.len() - 1, pred);
        }
        assert forall|j: int| 0 <= j < s.drop_last().len() implies !pred(#[trigger] s.drop_last()[j]) by {
            if pred(s.drop_last()[j]) {
                assert(s.drop_last()[j] == s[j]);
                lemma_some_first(s, j, pred);
            }
        }
        if first_where(s.drop_last(), pred) is Some {
            let i = choose|i: int| is_first(s.drop_last(), i, pred);
            assert(pred(s.drop_last()[i]));
        }
        lemma_count_zero_when_none(s.drop_last(), pred);
    }
}

/// One takeover of `session` settles exactly one peer waiting for it, when any waits,
/// and leaves the peers waiting for every other session as they were.
proof fn lemma_step_settles_one_waiter<P, B>(book: ResumeBook<P, B>, session: u64, other: u64)
    ensures
        count_where(resume_step(book, session).0, replacer_of(other)) + (if other == session
            && count_where(book.0, replacer_of(session)) > 0 {
            1int
        } else {
            0int
        }) == count_where(book.0, replacer_of(other)),
{
    let (peers, detached, despawned, closed) = book;
    let f = replacer_of::<P, B>(other);
    let g = replacer_of::<P, B>(session);
    let peers1 = match first_where(peers, holder_of(session)) {
        Some(i) => peers.remove(i),
        None => peers,
    };
    match first_where(peers, holder_of(session)) {
        Some(i) => {
            assert(is_first(peers, i, holder_of(session)));
            lemma_count_remove(peers, i, f);
            lemma_count_remove(peers, i, g);
        },
        None => {},
    }
    assert(count_where(peers1, f) == count_where(peers, f));
    assert(count_where(peers1, g) == count_where(peers, g));
    match first_where(peers1, g) {
        None => {
            lemma_count_zero_when_none(peers1, g);
        },
        Some(n) => {
            assert(is_first(peers1, n, g));
            let taken = match first_where(peers, holder_of(session)) {
                Some(i) => peers[i].binding,
                None => None,
            };
            let binding = if taken is Some {
                taken
            } else {
                match first_where(detached, retained_of(session)) {
                    Some(k) => Some(detached[k].binding),
                    None => None,
                }
            };
            lemma_count_positive(peers1, n, g);
            match binding {
                Some(b) => {
                    lemma_count_update(peers1, n, adopted(peers1[n], b), f);
                },
                None => {
                    let u = peers1.update(n, peers1.last());
                    lemma_count_update(peers1, n, peers1.last(), f);
                    lemma_count_remove(u, u.len() - 1, f);
                    assert(u.remove(u.len() - 1) =~= u.drop_last());
                    if n == peers1.len() - 1 {
                        assert(u[u.len() - 1] == peers1.last());
                    } else {
                        assert(u[u.len() - 1] == peers1.last());
                    }
                },
            }
        },
    }
}

proof fn lemma_takeovers_settle_waiters<P, B>(book: ResumeBook<P, B>, sessions: Seq<u64>, other: u64)
    requires
        forall|s: u64| occurrences(sessions, s) <= #[trigger] count_where(book.0, replacer_of(s)),
    ensures
        count_where(resume_all(book, sessions).0, replacer_of(other)) + occurrences(sessions, other)
            == count_where(book.0, replacer_of(other)),
    decreases sessions.len(),
{
    if sessions.len() > 0 {
        let earlier = sessions.drop_last();
        let x = sessions.last();
        assert forall|s: u64| occurrences(earlier, s) <= #[trigger] count_where(book.0, replacer_of(s)) by {
            assert(occurrences(earlier, s) <= occurrences(sessions, s));
        }
        lemma_takeovers_settle_waiters(book, earlier, other);
        lemma_takeovers_settle_waiters(book, earlier, x);
        assert(occurrences(sessions, x) <= count_where(book.0, replacer_of(x)));
        lemma_step_settles_one_waiter(resume_all(book, earlier), x, other);
    }
}

proof fn lemma_pending_sessions_count_waiters<P, B>(peers: Seq<ResumingPeer<P, B>>, session: u64)
    ensures
        occurrences(pending_sessions(peers), session) == count_where(peers, replacer_of(session)),
    decreases peers.len(),
{
    if peers.len() > 0 {
        lemma_pending_sessions_count_waiters(peers.drop_last(), session);
        let earlier = pending_sessions(peers.drop_last());
        match peers.last().pending_replacement {
            Some(s) => {
                assert(earlier.push(s).drop_last() =~= earlier);
            },
            None => {},
        }
    }
}

/// Every waiting peer is settled: after the takeovers of all pending sessions, whatever
/// the peers and detached sessions, no peer waits to take over a session any more.
pub proof fn lemma_no_peer_left_waiting<P, B>(peers: Seq<ResumingPeer<P, B>>, detached: Seq<DetachedSession<B>>)
    ensures
        forall|j: int|
            0 <= j < resume_all((peers, detached, Seq::empty(), Seq::empty()), pending_sessions(peers)).0.len()
                ==> (#[trigger] resume_all(
                (peers, detached, Seq::empty(), Seq::empty()),
                pending_sessions(peers),
            ).0[j]).pending_replacement is None,
{
    let book: ResumeBook<P, B> = (peers, detached, Seq::empty(), Seq::empty());
    let after = resume_all(book, pending_sessions(peers)).0;
    assert forall|s: u64| occurrences(pending_sessions(peers), s) <= #[trigger] count_where(book.0, replacer_of(s)) by {
        lemma_pending_sessions_count_waiters(peers, s);
    }
    assert forall|j: int| 0 <= j < after.len() implies (#[trigger] after[j]).pending_replacement is None by {
        if after[j].pending_replacement is Some {
            let s = after[j].pending_replacement->Some_0;
            lemma_takeovers_settle_waiters(book, pending_sessions(peers), s);
            lemma_pending_sessions_count_waiters(peers, s);
            assert(replacer_of::<P, B>(s)(after[j]));
            lemma_count_positive(after, j, replacer_of(s));
        }
    }
}

/// The test for a peer holding binding `b`.
pub open spec fn holding<P, B>(b: B) -> spec_fn(ResumingPeer<P, B>) -> bool {
    |p: ResumingPeer<P, B>| p.binding == Some(b)
}

/// The test for a retained session with binding `b`.
pub open spec fn retaining<B>(b: B) -> spec_fn(DetachedSession<B>) -> bool {
    |d: DetachedSession<B>| d.binding == b
}

/// The test for the value `x`.
pub open spec fn equal_to<T>(x: T) -> spec_fn(T) -> bool {
    |y: T| y == x
}

/// The test for a peer on connection `x`.
pub open spec fn on_connection<P, B>(x: P) -> spec_fn(ResumingPeer<P, B>) -> bool {
    |p: ResumingPeer<P, B>| p.peer == x
}

/// Where a binding can be: held by a peer, retained by a detached session, or despawned.
pub open spec fn binding_count<P, B>(book: ResumeBook<P, B>, b: B) -> nat {
    count_where(book.0, holding(b)) + count_where(book.1, retaining(b)) + count_where(
        book.2,
        equal_to(b),
    )
}

/// Where a connection can be: serving a peer or closed.
pub open spec fn connection_count<P, B>(book: ResumeBook<P, B>, x: P) -> nat {
    count_where(book.0, on_connection(x)) + count_where(book.3, equal_to(x))
}

/// Whether every waiting peer still lacks a binding of its own.
pub open spec fn waiting_peers_unbound<P, B>(peers: Seq<ResumingPeer<P, B>>) -> bool {
    forall|j: int| 0 <= j < peers.len() && (#[trigger] peers[j]).pending_replacement is Some ==> peers[j].binding is None
}

proof fn lemma_count_push<T>(s: Seq<T>, v: T, pred: spec_fn(T) -> bool)
    ensures
        count_where(s.push(v), pred) == count_where(s, pred) + if pred(v) {
            1nat
        } else {
            0nat
        },
{
    assert(s.push(v).drop_last() =~= s);
}

proof fn lemma_swap_out<T>(s: Seq<T>, n: int, pred: spec_fn(T) -> bool)
    requires
        0 <= n < s.len(),
    ensures
        count_where(s.update(n, s.last()).drop_last(), pred) + (if pred(s[n]) {
            1int
        } else {
            0int
        }) == count_where(s, pred),
{
    let u = s.update(n, s.last());
    lemma_count_update(s, n, s.last(), pred);
    lemma_count_remove(u, u.len() - 1, pred);
    assert(u.remove(u.len() - 1) =~= u.drop_last());
    assert(u[u.len() - 1] == s.last());
}

/// One takeover moves bindings and connections without creating or losing any: every
/// binding is still held, retained, or despawned as often as before, and every
/// connection still serves a peer or is closed, provided waiting peers hold no binding of
/// their own; and waiting peers still hold none afterwards.
proof fn lemma_step_conserves<P, B>(book: ResumeBook<P, B>, session: u64, b: B, x: P)
    requires
        waiting_peers_unbound(book.0),
    ensures
        binding_count(resume_step(book, session), b) == binding_count(book, b),
        connection_count(resume_step(book, session), x) == connection_count(book, x),
        waiting_peers_unbound(resume_step(book, session).0),
{
    let (peers, detached, despawned, closed) = book;
    let hb = holding::<P, B>(b);
    let rb = retaining::<B>(b);
    let eb = equal_to::<B>(b);
    let cx = on_connection::<P, B>(x);
    let ex = equal_to::<P>(x);
    let holder = first_where(peers, holder_of(session));
    let peers1 = match holder {
        Some(i) => peers.remove(i),
        None => peers,
    };
    let closed1 = match holder {
        Some(i) => closed.push(peers[i].peer),
        None => closed,
    };
    let taken = match holder {
        Some(i) => peers[i].binding,
        None => None,
    };
    match holder {
        Some(i) => {
            assert(is_first(peers, i, holder_of(session)));
            lemma_count_remove(peers, i, hb);
            lemma_count_remove(peers, i, cx);
            lemma_count_push(closed, peers[i].peer, ex);
            assert forall|j: int| 0 <= j < peers1.len() && (#[trigger] peers1[j]).pending_replacement is Some implies peers1[j].binding is None by {
                if j < i {
                    assert(peers1[j] == peers[j]);
                } else {
                    assert(peers1[j] == peers[j + 1]);
                }
            }
        },
        None => {},
    }
    let retained = first_where(detached, retained_of(session));
    let detached1 = if taken is Some {
        detached
    } else {
        match retained {
            Some(k) => detached.remove(k),
            None => detached,
        }
    };
    let binding = if taken is Some {
        taken
    } else {
        match retained {
            Some(k) => Some(detached[k].binding),
            None => None,
        }
    };
    if taken is None {
        match retained {
            Some(k) => {
                assert(is_first(detached, k, retained_of(session)));
                lemma_count_remove(detached, k, rb);
            },
            None => {},
        }
    }
    match first_where(peers1, replacer_of(session)) {
        None => {
            match binding {
                Some(bb) => lemma_count_push(despawned, bb, eb),
                None => {},
            }
        },
        Some(n) => {
            assert(is_first(peers1, n, replacer_of(session)));
            assert(peers1[n].binding is None);
            match binding {
                Some(bb) => {
                    let a = adopted(peers1[n], bb);
                    lemma_count_update(peers1, n, a, hb);
                    lemma_count_update(peers1, n, a, cx);
                    let u = peers1.update(n, a);
                    assert forall|j: int| 0 <= j < u.len() && (#[trigger] u[j]).pending_replacement is Some implies u[j].binding is None by {
                        if j != n {
                            assert(u[j] == peers1[j]);
                        }
                    }
                },
                None => {
                    lemma_swap_out(peers1, n, hb);
                    lemma_swap_out(peers1, n, cx);
                    lemma_count_push(closed1, peers1[n].peer, ex);
                    let u = peers1.update(n, peers1.last()).drop_last();
                    assert forall|j: int| 0 <= j < u.len() && (#[trigger] u[j]).pending_replacement is Some implies u[j].binding is None by {
                        if j == n {
                            assert(u[j] == peers1[peers1.len() - 1]);
                        } else {
                            assert(u[j] == peers1[j]);
                        }
                    }
                },
            }
        },
    }
}

proof fn lemma_takeovers_conserve<P, B>(book: ResumeBook<P, B>, sessions: Seq<u64>, b: B, x: P)
    requires
        waiting_peers_unbound(book.0),
    ensures
        binding_count(resume_all(book, sessions), b) == binding_count(book, b),
        connection_count(resume_all(book, sessions), x) == connection_count(book, x),
        waiting_peers_unbound(resume_all(book, sessions).0),
    decreases sessions.len(),
{
    if sessions.len() > 0 {
        lemma_takeovers_conserve(book, sessions.drop_last(), b, x);
        lemma_step_conserves(resume_all(book, sessions.drop_last()), sessions.last(), b, x);
    }
}

/// Resumption moves bindings and connections without creating or losing any: when no
/// waiting peer holds a binding of its own, every binding ends up held by a peer,
/// retained by a detached session, or returned to despawn exactly as often as it was held
/// or retained before, and every connection ends up serving a peer or returned to close
/// exactly as often as it served a peer before.
pub proof fn lemma_resumption_conserves_bindings_and_connections<P, B>(
    peers: Seq<ResumingPeer<P, B>>,
    detached: Seq<DetachedSession<B>>,
    b: B,
    x: P,
)
    requires
        waiting_peers_unbound(peers),
    ensures
        ({
            let after = resume_all((peers, detached, Seq::empty(), Seq::empty()), pending_sessions(peers));
            &&& count_where(after.0, holding(b)) + count_where(after.1, retaining(b)) + count_where(
                after.2,
                equal_to(b),
            ) == count_where(peers, holding(b)) + count_where(detached, retaining(b))
            &&& count_where(after.0, on_connection(x)) + count_where(after.3, equal_to(x))
                == count_where(peers, on_connection(x))
        }),
{
    let book: ResumeBook<P, B> = (peers, detached, Seq::empty(), Seq::empty());
    lemma_takeovers_conserve(book, pending_sessions(peers), b, x);
}

/// The retained sessions still unexpired at `now`, in order.
pub open spec fn unexpired<B>(detached: Seq<DetachedSession<B>>, now: u64) -> Seq<DetachedSession<B>>
    decreases detached.len(),
{
    if detached.len() == 0 {
        Seq::empty()
    } else {
        let earlier = unexpired(detached.drop_last(), now);
        if now >= detached.last().expires_at {
            earlier
        } else {
            earlier.push(detached.last())
        }
    }
}

/// The bindings of the retained sessions expired at `now`, in order.
pub open spec fn expired_bindings<B>(detached: Seq<DetachedSession<B>>, now: u64) -> Seq<B>
    decreases detached.len(),
{
    if detached.len() == 0 {
        Seq::empty()
    } else {
        let earlier = expired_bindings(detached.drop_last(), now);
        if now >= detached.last().expires_at {
            earlier.push(detached.last().binding)
        } else {
            earlier
        }
    }
}

/// Drop the retained sessions that expired at `now`; returns their bindings to despawn.
pub fn expire_detached_sessions<B: Copy>(detached: &mut Vec<DetachedSession<B>>, now: u64) -> (despawn: Vec<B>)
    ensures
        final(detached)@ == unexpired(old(detached)@, now),
        despawn@ == expired_bindings(old(detached)@, now),
{
    let mut kept: Vec<DetachedSession<B>> = Vec::new();
    let mut despawn: Vec<B> = Vec::new();
    let mut i: usize = 0;
    while i < detached.len()
        invariant
            i <= detached@.len(),
            kept@ == unexpired(detached@.subrange(0, i as int), now),
            despawn@ == expired_bindings(detached@.subrange(0, i as int), now),
        decreases detached@.len() - i,
    {
        let d = detached[i];
        if now >= d.expires_at {
            despawn.push(d.binding);
        } else {
            kept.push(d);
        }
        proof {
            assert(detached@.subrange(0, i as int + 1).drop_last() =~= detached@.subrange(0, i as int));
        }
        i = i + 1;
    }
    proof {
        assert(detached@.subrange(0, detached@.len() as int) =~= detached@);
    }
    *detached = kept;
    despawn
}

} // verus!

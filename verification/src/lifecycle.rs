//! Idempotent platform and window lifetime of the native client application.
use vstd::prelude::*;

verus! {

/// Process-facing state of the native client application.
#[derive(Debug, Clone, Copy, PartialEq, Eq, Structural)]
pub enum ClientLifecycleState {
    /// The event loop has not delivered its first resume event.
    Cold,
    /// Platform resources may be used and the window is active.
    Active,
    /// The platform has temporarily suspended application resources.
    Suspended,
    /// Orderly shutdown has started.
    Stopping,
    /// The event loop has irreversibly exited.
    Exited,
}

impl ClientLifecycleState {
    /// Whether platform notifications may still change the lifecycle.
    pub open spec fn accepts_platform_transitions(self) -> bool {
        self is Cold || self is Active || self is Suspended
    }
}

impl Default for ClientLifecycleState {
    fn default() -> (state: Self)
        ensures
            state == ClientLifecycleState::Cold,
    {
        ClientLifecycleState::Cold
    }
}

/// Action required after a platform resume notification.
#[derive(Debug, Clone, Copy, PartialEq, Eq, Structural)]
pub enum ResumeAction {
    /// Construct the native window inside the active event loop.
    CreateWindow,
    /// Retain the window that survived suspension or a duplicate resume.
    RetainWindow,
    /// Ignore the notification because shutdown is already irreversible.
    Ignore,
}

/// Abstract value of a [`ClientLifecycle`]: its state and whether it owns a window.
pub struct LifecycleView {
    pub state: ClientLifecycleState,
    pub window_present: bool,
}

/// Lifecycle after a platform resume notification, with the action it requires.
pub open spec fn resumed_spec(v: LifecycleView) -> (LifecycleView, ResumeAction) {
    if v.state.accepts_platform_transitions() {
        (
            LifecycleView { state: ClientLifecycleState::Active, window_present: v.window_present },
            if v.window_present {
                ResumeAction::RetainWindow
            } else {
                ResumeAction::CreateWindow
            },
        )
    } else {
        (v, ResumeAction::Ignore)
    }
}

/// Lifecycle after a platform suspension notification.
pub open spec fn suspended_spec(v: LifecycleView) -> LifecycleView {
    if v.state.accepts_platform_transitions() {
        LifecycleView { state: ClientLifecycleState::Suspended, window_present: v.window_present }
    } else {
        v
    }
}

/// Lifecycle after a stop request, with whether the request changed the state.
pub open spec fn request_stop_spec(v: LifecycleView) -> (LifecycleView, bool) {
    if v.state.accepts_platform_transitions() {
        (LifecycleView { state: ClientLifecycleState::Stopping, window_present: v.window_present }, true)
    } else {
        (v, false)
    }
}

/// Small idempotent state machine for platform and window lifetime.
#[derive(Debug, Clone, Copy, PartialEq, Eq, Structural)]
pub struct ClientLifecycle {
    state: ClientLifecycleState,
    window_present: bool,
}

impl View for ClientLifecycle {
    type V = LifecycleView;

    closed spec fn view(&self) -> LifecycleView {
        LifecycleView { state: self.state, window_present: self.window_present }
    }
}

impl Default for ClientLifecycle {
    fn default() -> (lifecycle: Self)
        ensures
            lifecycle@.state == ClientLifecycleState::Cold,
            !lifecycle@.window_present,
    {
        ClientLifecycle { state: ClientLifecycleState::Cold, window_present: false }
    }
}

impl ClientLifecycle {
    /// Return the current process-facing lifecycle state.
    pub fn state(self) -> (state: ClientLifecycleState)
        ensures
            state == self@.state,
    {
        self.state
    }

    /// Return whether the shell currently owns its native window.
    pub fn window_present(self) -> (present: bool)
        ensures
            present == self@.window_present,
    {
        self.window_present
    }

    /// Handle one possibly redundant platform resume notification.
    pub fn resumed(&mut self) -> (action: ResumeAction)
        ensures
            (final(self)@, action) == resumed_spec(old(self)@),
    {
        match self.state {
            ClientLifecycleState::Cold
            | ClientLifecycleState::Active
            | ClientLifecycleState::Suspended => {
                self.state = ClientLifecycleState::Active;
                if self.window_present {
                    ResumeAction::RetainWindow
                } else {
                    ResumeAction::CreateWindow
                }
            },
            ClientLifecycleState::Stopping | ClientLifecycleState::Exited => ResumeAction::Ignore,
        }
    }

    /// Record successful native-window creation.
    pub fn window_created(&mut self)
        ensures
            final(self)@.state == old(self)@.state,
            final(self)@.window_present,
    {
        self.window_present = true;
    }

    /// Record destruction of the native window.
    pub fn window_destroyed(&mut self)
        ensures
            final(self)@.state == old(self)@.state,
            !final(self)@.window_present,
    {
        self.window_present = false;
    }

    /// Handle one possibly redundant platform suspension notification.
    pub fn suspended(&mut self)
        ensures
            final(self)@ == suspended_spec(old(self)@),
    {
        match self.state {
            ClientLifecycleState::Cold
            | ClientLifecycleState::Active
            | ClientLifecycleState::Suspended => {
                self.state = ClientLifecycleState::Suspended;
            },
            ClientLifecycleState::Stopping | ClientLifecycleState::Exited => {},
        }
    }

    /// Begin shutdown once and report whether this call changed the state.
    pub fn request_stop(&mut self) -> (changed: bool)
        ensures
            (final(self)@, changed) == request_stop_spec(old(self)@),
    {
        match self.state {
            ClientLifecycleState::Cold
            | ClientLifecycleState::Active
            | ClientLifecycleState::Suspended => {
                self.state = ClientLifecycleState::Stopping;
                true
            },
            ClientLifecycleState::Stopping | ClientLifecycleState::Exited => false,
        }
    }

    /// Commit irreversible event-loop exit.
    pub fn exited(&mut self)
        ensures
            final(self)@.state == ClientLifecycleState::Exited,
            !final(self)@.window_present,
    {
        self.state = ClientLifecycleState::Exited;
        self.window_present = false;
    }
}

/// A duplicate resume never asks for a second window: once a window exists, every
/// resume that is not ignored retains it.
pub proof fn lemma_resume_never_duplicates_window(v: LifecycleView)
    requires
        v.window_present,
    ensures
        resumed_spec(v).1 != ResumeAction::CreateWindow,
        resumed_spec(v).0.window_present,
        v.state.accepts_platform_transitions() ==> resumed_spec(resumed_spec(v).0).1
            == ResumeAction::RetainWindow,
{
}

/// Resuming is idempotent: a second resume leaves the lifecycle as the first one left it.
pub proof fn lemma_resume_idempotent(v: LifecycleView)
    ensures
        resumed_spec(resumed_spec(v).0).0 == resumed_spec(v).0,
{
}

/// Suspension is idempotent and keeps any existing window.
pub proof fn lemma_suspend_idempotent_and_retains_window(v: LifecycleView)
    ensures
        suspended_spec(suspended_spec(v)) == suspended_spec(v),
        suspended_spec(v).window_present == v.window_present,
{
}

/// Shutdown begins at most once: a second stop request reports no change, and once
/// shutdown has begun, late platform resume and suspend notifications change nothing.
pub proof fn lemma_shutdown_is_final(v: LifecycleView)
    ensures
        !request_stop_spec(request_stop_spec(v).0).1,
        request_stop_spec(request_stop_spec(v).0).0 == request_stop_spec(v).0,
        resumed_spec(request_stop_spec(v).0) == (request_stop_spec(v).0, ResumeAction::Ignore),
        suspended_spec(request_stop_spec(v).0) == request_stop_spec(v).0,
        v.state.accepts_platform_transitions() == request_stop_spec(v).1,
{
}

/// After exit, no platform notification changes the state again.
pub proof fn lemma_exit_is_absorbing(v: LifecycleView)
    requires
        v.state == ClientLifecycleState::Exited,
    ensures
        resumed_spec(v) == (v, ResumeAction::Ignore),
        suspended_spec(v) == v,
        request_stop_spec(v) == (v, false),
{
}

} // verus!

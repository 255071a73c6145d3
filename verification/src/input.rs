//! Focus-gated reduction of native keyboard and pointing-device edges.
//!
//! Keys and buttons are identified by integer codes and modifiers by their bit set, as
//! the platform layer reports them.
use std::collections::BTreeSet;
use vstd::prelude::*;

verus! {

broadcast use {vstd::std_specs::btree::group_btree_axioms, vstd::laws_cmp::group_laws_cmp};

/// Active consumer of native keyboard and pointing-device state.
#[derive(Debug, Clone, Copy, PartialEq, Eq, Structural)]
pub enum InputContext {
    /// Pointer movement and text-oriented input remain under desktop control.
    UserInterface,
    /// Relative pointing-device motion may drive gameplay controls.
    GameplayCaptured,
}

impl Default for InputContext {
    fn default() -> (context: Self)
        ensures
            context == InputContext::UserInterface,
    {
        InputContext::UserInterface
    }
}

/// Physical edge of one key or button.
#[derive(Debug, Clone, Copy, PartialEq, Eq, Structural)]
pub enum ElementState {
    Pressed,
    Released,
}

/// Holds and edges of one device class.
#[verifier::ext_equal]
pub struct EdgesView {
    pub held: Set<u32>,
    pub pressed: Set<u32>,
    pub released: Set<u32>,
}

/// Device edges after one physical edge: a press of an unheld control holds it and
/// records the press; a release of a held control records the release.
pub open spec fn edge_applied(e: EdgesView, value: u32, state: ElementState) -> EdgesView {
    match state {
        ElementState::Pressed => if e.held.contains(value) {
            e
        } else {
            EdgesView { held: e.held.insert(value), pressed: e.pressed.insert(value), released: e.released }
        },
        ElementState::Released => if e.held.contains(value) {
            EdgesView { held: e.held.remove(value), pressed: e.pressed, released: e.released.insert(value) }
        } else {
            e
        },
    }
}

/// No holds and no edges.
pub open spec fn no_edges() -> EdgesView {
    EdgesView { held: Set::empty(), pressed: Set::empty(), released: Set::empty() }
}

/// Holds and edge sets of one device class.
#[derive(Debug)]
pub struct DeviceEdges {
    held: BTreeSet<u32>,
    pressed: BTreeSet<u32>,
    released: BTreeSet<u32>,
}

impl View for DeviceEdges {
    type V = EdgesView;

    closed spec fn view(&self) -> EdgesView {
        EdgesView { held: self.held@, pressed: self.pressed@, released: self.released@ }
    }
}

impl DeviceEdges {
    /// No holds and no edges.
    pub fn new() -> (edges: Self)
        ensures
            edges@ == no_edges(),
    {
        DeviceEdges { held: BTreeSet::new(), pressed: BTreeSet::new(), released: BTreeSet::new() }
    }

    /// Apply one physical edge.
    pub fn apply(&mut self, value: u32, state: ElementState)
        ensures
            final(self)@ == edge_applied(old(self)@, value, state),
    {
        match state {
            ElementState::Pressed => {
                let ghost before = self.held@;
                let inserted = self.held.insert(value);
                if inserted {
                    let _ = self.pressed.insert(value);
                } else {
                    assert(self.held@ =~= before);
                }
            },
            ElementState::Released => {
                if self.held.remove(&value) {
                    self.released.insert(value);
                }
            },
        }
    }

    /// Whether a control is held.
    pub fn is_held(&self, value: u32) -> (held: bool)
        ensures
            held == self@.held.contains(value),
    {
        self.held.contains(&value)
    }

    /// Whether a control gained its edge in this sample.
    pub fn was_pressed(&self, value: u32) -> (pressed: bool)
        ensures
            pressed == self@.pressed.contains(value),
    {
        self.pressed.contains(&value)
    }

    /// Whether a control lost its edge in this sample.
    pub fn was_released(&self, value: u32) -> (released: bool)
        ensures
            released == self@.released.contains(value),
    {
        self.released.contains(&value)
    }

    /// Copy the holds and take the edges, leaving the holds in place.
    pub fn take_sample(&mut self) -> (sample: DeviceEdges)
        ensures
            sample@ == old(self)@,
            final(self)@ == (EdgesView {
                held: old(self)@.held,
                pressed: Set::empty(),
                released: Set::empty(),
            }),
    {
        let mut pressed = BTreeSet::new();
        let mut released = BTreeSet::new();
        std::mem::swap(&mut pressed, &mut self.pressed);
        std::mem::swap(&mut released, &mut self.released);
        DeviceEdges { held: self.held.clone(), pressed, released }
    }
}

/// Abstract value of an [`InputCore`].
#[verifier::ext_equal]
pub struct InputView {
    pub context: InputContext,
    pub focused: bool,
    pub cursor_inside: bool,
    pub modifiers: u32,
    pub keys: EdgesView,
    pub buttons: EdgesView,
}

/// The input state with every device released and accumulated motion discarded.
pub open spec fn devices_reset(v: InputView) -> InputView {
    InputView { modifiers: 0, keys: no_edges(), buttons: no_edges(), ..v }
}

/// Reducer of device events before action mapping: focus and routing context gate
/// which events count, and crossing a routing boundary neutralizes every device.
#[derive(Debug)]
pub struct InputCore {
    context: InputContext,
    focused: bool,
    cursor_inside: bool,
    modifiers: u32,
    keys: DeviceEdges,
    buttons: DeviceEdges,
}

impl View for InputCore {
    type V = InputView;

    closed spec fn view(&self) -> InputView {
        InputView {
            context: self.context,
            focused: self.focused,
            cursor_inside: self.cursor_inside,
            modifiers: self.modifiers,
            keys: self.keys@,
            buttons: self.buttons@,
        }
    }
}

/// Holds and edges sampled since the previous sample.
#[derive(Debug)]
pub struct EdgeSample {
    pub context: InputContext,
    pub focused: bool,
    pub modifiers: u32,
    pub keys: DeviceEdges,
    pub buttons: DeviceEdges,
}

impl InputCore {
    /// An unfocused user-interface input state with nothing held.
    pub fn new() -> (core: Self)
        ensures
            core@ == (InputView {
                context: InputContext::UserInterface,
                focused: false,
                cursor_inside: false,
                modifiers: 0,
                keys: no_edges(),
                buttons: no_edges(),
            }),
    {
        InputCore {
            context: InputContext::UserInterface,
            focused: false,
            cursor_inside: false,
            modifiers: 0,
            keys: DeviceEdges::new(),
            buttons: DeviceEdges::new(),
        }
    }

    /// Return the active input-routing context.
    pub fn context(&self) -> (context: InputContext)
        ensures
            context == self@.context,
    {
        self.context
    }

    /// Return whether the native window currently has focus.
    pub fn focused(&self) -> (focused: bool)
        ensures
            focused == self@.focused,
    {
        self.focused
    }

    /// Return whether the desktop cursor lies inside the native window.
    pub fn cursor_inside(&self) -> (inside: bool)
        ensures
            inside == self@.cursor_inside,
    {
        self.cursor_inside
    }

    fn reset_devices(&mut self)
        ensures
            final(self)@ == devices_reset(old(self)@),
    {
        self.modifiers = 0;
        self.keys = DeviceEdges::new();
        self.buttons = DeviceEdges::new();
    }

    /// Change the active consumer; crossing the boundary neutralizes every device.
    /// Returns whether the devices were neutralized.
    pub fn set_context(&mut self, context: InputContext) -> (reset: bool)
        ensures
            reset == (old(self)@.context != context),
            final(self)@ == (if reset {
                devices_reset(InputView { context, ..old(self)@ })
            } else {
                old(self)@
            }),
    {
        if self.context != context {
            self.context = context;
            self.reset_devices();
            true
        } else {
            false
        }
    }

    /// Apply one focus transition, neutralizing every device on focus loss. Returns
    /// whether the devices were neutralized.
    pub fn set_focused(&mut self, focused: bool) -> (reset: bool)
        ensures
            reset == !focused,
            final(self)@ == (if focused {
                InputView { focused: true, ..old(self)@ }
            } else {
                devices_reset(
                    InputView {
                        focused: false,
                        cursor_inside: false,
                        context: InputContext::UserInterface,
                        ..old(self)@
                    },
                )
            }),
    {
        self.focused = focused;
        if !focused {
            self.cursor_inside = false;
            self.context = InputContext::UserInterface;
            self.reset_devices();
        }
        !focused
    }

    /// Apply one physical keyboard edge; unfocused input and synthetic presses that the
    /// platform replays on focus gain are ignored.
    pub fn keyboard_input(&mut self, key: u32, state: ElementState, synthetic: bool)
        ensures
            final(self)@ == (if !old(self)@.focused || (synthetic && state
                == ElementState::Pressed) {
                old(self)@
            } else {
                InputView { keys: edge_applied(old(self)@.keys, key, state), ..old(self)@ }
            }),
    {
        if !self.focused || synthetic && state == ElementState::Pressed {
            return;
        }
        self.keys.apply(key, state);
    }

    /// Replace the active keyboard modifier bit set while focused.
    pub fn modifiers_changed(&mut self, modifiers: u32)
        ensures
            final(self)@ == (if old(self)@.focused {
                InputView { modifiers, ..old(self)@ }
            } else {
                old(self)@
            }),
    {
        if self.focused {
            self.modifiers = modifiers;
        }
    }

    /// Apply one physical pointing-device button edge while focused.
    pub fn mouse_input(&mut self, button: u32, state: ElementState)
        ensures
            final(self)@ == (if !old(self)@.focused {
                old(self)@
            } else {
                InputView { buttons: edge_applied(old(self)@.buttons, button, state), ..old(self)@ }
            }),
    {
        if !self.focused {
            return;
        }
        self.buttons.apply(button, state);
    }

    /// Whether raw pointer motion counts: only while gameplay owns the focused pointer.
    pub fn accepts_raw_motion(&self) -> (accepts: bool)
        ensures
            accepts == (self@.focused && self@.context == InputContext::GameplayCaptured),
    {
        self.focused && self.context == InputContext::GameplayCaptured
    }

    /// Record that the desktop cursor moved within or entered the focused window;
    /// returns whether the position counts.
    pub fn cursor_entered(&mut self) -> (counted: bool)
        ensures
            counted == old(self)@.focused,
            final(self)@ == (if old(self)@.focused {
                InputView { cursor_inside: true, ..old(self)@ }
            } else {
                old(self)@
            }),
    {
        if self.focused {
            self.cursor_inside = true;
        }
        self.focused
    }

    /// Record that the desktop cursor left the window.
    pub fn cursor_left(&mut self)
        ensures
            final(self)@ == (InputView { cursor_inside: false, ..old(self)@ }),
    {
        self.cursor_inside = false;
    }

    /// Snapshot current holds and consume every accumulated edge.
    pub fn take_sample(&mut self) -> (sample: EdgeSample)
        ensures
            sample.context == old(self)@.context,
            sample.focused == old(self)@.focused,
            sample.modifiers == old(self)@.modifiers,
            sample.keys@ == old(self)@.keys,
            sample.buttons@ == old(self)@.buttons,
            final(self)@ == (InputView {
                keys: EdgesView {
                    held: old(self)@.keys.held,
                    pressed: Set::empty(),
                    released: Set::empty(),
                },
                buttons: EdgesView {
                    held: old(self)@.buttons.held,
                    pressed: Set::empty(),
                    released: Set::empty(),
                },
                ..old(self)@
            }),
    {
        let keys = self.keys.take_sample();
        let buttons = self.buttons.take_sample();
        EdgeSample {
            context: self.context,
            focused: self.focused,
            modifiers: self.modifiers,
            keys,
            buttons,
        }
    }
}

/// Losing focus neutralizes every device: no key or button stays held, no edge or
/// modifier survives, and routing returns to the user interface.
pub proof fn lemma_focus_loss_neutralizes(v: InputView)
    ensures
        ({
            let w = devices_reset(
                InputView {
                    focused: false,
                    cursor_inside: false,
                    context: InputContext::UserInterface,
                    ..v
                },
            );
            &&& w.keys.held.is_empty() && w.keys.pressed.is_empty() && w.keys.released.is_empty()
            &&& w.buttons.held.is_empty() && w.buttons.pressed.is_empty()
                && w.buttons.released.is_empty()
            &&& w.modifiers == 0 && !w.cursor_inside && w.context == InputContext::UserInterface
        }),
{
}

/// Each press and release edge is recorded once per hold: pressing a held control or
/// releasing an unheld one changes nothing, and a press followed by a release leaves
/// the control unheld with both edges recorded.
pub proof fn lemma_edges_follow_holds(e: EdgesView, value: u32)
    ensures
        e.held.contains(value) ==> edge_applied(e, value, ElementState::Pressed) == e,
        !e.held.contains(value) ==> edge_applied(e, value, ElementState::Released) == e,
        !e.held.contains(value) ==> ({
            let after = edge_applied(
                edge_applied(e, value, ElementState::Pressed),
                value,
                ElementState::Released,
            );
            &&& !after.held.contains(value)
            &&& after.pressed.contains(value)
            &&& after.released.contains(value)
        }),
{
    if !e.held.contains(value) {
        assert(e.held.insert(value).remove(value).contains(value) == false);
    }
}

} // verus!

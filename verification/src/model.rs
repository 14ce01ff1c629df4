//! The reconciler as a state machine over plain values: its state, the
//! notifications it takes, the requests it makes, and the step from one
//! state to the next.

use crate::config::ConfigView;
use crate::mode::InputMode;
use crate::program::{classify, default_mode, ClassifierView};
use crate::registry::PaneId;
use crate::snapshot::{active_position, focused_terminal, PaneView, TabInfo};
use vstd::prelude::*;

verus! {

/// What the reconciler asks of the host.
#[derive(Clone, Copy, Debug, PartialEq, Eq, Structural)]
pub enum Request {
    /// Switch the host-wide input mode to the given one.
    SwitchMode(InputMode),
    /// Take this component out of the panes that can be selected, and,
    /// where `hidden` is set, out of sight as well.
    Withdraw { hidden: bool },
}

/// What handling one notification comes to, besides the new state.
#[derive(Clone, Copy, Debug, PartialEq, Eq, Structural)]
pub struct Outcome {
    /// The one request to pass on to the host, if any.
    pub request: Option<Request>,
    /// Whether the host should draw this component again.
    pub redraw: bool,
}

impl Outcome {
    /// Nothing to ask, nothing to draw.
    pub open spec fn nothing() -> Outcome {
        Outcome { request: None, redraw: false }
    }

    /// A switch to `mode`, nothing to draw.
    pub open spec fn switch(mode: InputMode) -> Outcome {
        Outcome { request: Some(Request::SwitchMode(mode)), redraw: false }
    }
}

/// The side channel on which program updates arrive.
pub open spec fn program_update_channel() -> Seq<char> {
    "Event::CommandUpdate"@
}

/// A notification from the host, as plain values.
pub enum Event {
    /// The answer to the request for permissions: granted or not.
    PermissionResult(bool),
    /// The host-wide input mode is now the given one.
    ModeUpdate(InputMode),
    /// The list of tabs, one of them marked active.
    TabUpdate(Seq<TabInfo>),
    /// A report of all panes, by tab position.
    PaneUpdate(Map<usize, Seq<PaneView>>),
    /// The pane is gone.
    PaneClosed(PaneId),
    /// A message on a named side channel.
    Message { name: Seq<char>, payload: Option<Seq<char>> },
}

/// All that the reconciler keeps track of.
#[verifier::ext_equal]
pub struct State {
    /// Whether the permissions were granted.
    pub initialized: bool,
    /// The mode remembered for each pane.
    pub registry: Map<PaneId, InputMode>,
    /// The pane that input goes to, as far as known.
    pub focused: Option<PaneId>,
    /// The position of the tab on display.
    pub active_tab: usize,
    /// The host-wide input mode, as last reported.
    pub input_mode: InputMode,
    /// The last report of the panes.
    pub last_snapshot: Option<Map<usize, Seq<PaneView>>>,
}

impl State {
    /// The state at startup: nothing registered, nothing focused, the first
    /// tab on display, `Normal` mode, no report yet.
    pub open spec fn initial() -> State {
        State {
            initialized: false,
            registry: Map::empty(),
            focused: None,
            active_tab: 0,
            input_mode: InputMode::Normal,
            last_snapshot: None,
        }
    }

    /// Every pane with an entry is a terminal and its entry is `Normal` or
    /// `Locked`, and so is the focused pane a terminal.
    pub open spec fn well_formed(self) -> bool {
        &&& forall|p: PaneId| #[trigger]
            self.registry.contains_key(p) ==> p.is_terminal() && self.registry[p].is_assignable()
        &&& self.focused matches Some(p) ==> p.is_terminal()
    }
}

/// The answer to the request for permissions. Granted: the reconciler is
/// initialized, asks to be withdrawn, hidden or not as `hidden` says, and to
/// be drawn again. Denied: nothing.
pub open spec fn on_permission_result(s: State, hidden: bool, granted: bool) -> (State, Outcome) {
    if granted {
        (
            State { initialized: true, ..s },
            Outcome { request: Some(Request::Withdraw { hidden }), redraw: true },
        )
    } else {
        (s, Outcome::nothing())
    }
}

/// Whether a change to `new` while the mode was `old` is the user's own
/// choice for the focused pane: any change to `Locked`, and a change to
/// `Normal` from `Normal` or `Locked`.
pub open spec fn is_user_choice(old: InputMode, new: InputMode) -> bool {
    new == InputMode::Locked || (new == InputMode::Normal && old.is_assignable())
}

/// Whether a change to `new` while the mode was `old` is the return from a
/// mode of the host's own, which is not to stand.
pub open spec fn is_return_from_other(old: InputMode, new: InputMode) -> bool {
    new == InputMode::Normal && !old.is_assignable()
}

/// The host-wide mode changed to `new`. With a pane focused, the user's
/// choice is recorded for it, and a return from another mode is answered by
/// a switch back to the pane's entry. The new mode is taken note of either
/// way.
pub open spec fn on_mode_update(s: State, new: InputMode) -> (State, Outcome) {
    let noted = State { input_mode: new, ..s };
    match s.focused {
        None => (noted, Outcome::nothing()),
        Some(p) => if is_user_choice(s.input_mode, new) {
            (State { registry: s.registry.insert(p, new), ..noted }, Outcome::nothing())
        } else if is_return_from_other(s.input_mode, new) && s.registry.contains_key(p) {
            (noted, Outcome::switch(s.registry[p]))
        } else {
            (noted, Outcome::nothing())
        },
    }
}

/// The registry once `pane` is seen focused: it gets the mode of its
/// program unless it has an entry.
pub open spec fn registered(
    registry: Map<PaneId, InputMode>,
    rules: ClassifierView,
    pane: PaneView,
) -> Map<PaneId, InputMode> {
    let id = PaneId::Terminal(pane.id);
    if registry.contains_key(id) {
        registry
    } else {
        registry.insert(id, rules.mode_for(pane.terminal_command))
    }
}

/// Brings focus and mode in line with `snapshot`. Without the active tab in
/// it nothing happens. Else the tab's focused terminal is registered if need
/// be and becomes the focused pane; where that is a change, and the host is
/// in `Normal` or `Locked` mode, the mode is switched to the pane's entry.
pub open spec fn reconcile(s: State, rules: ClassifierView, snapshot: Map<usize, Seq<PaneView>>) -> (
    State,
    Outcome,
) {
    if !snapshot.contains_key(s.active_tab) {
        (s, Outcome::nothing())
    } else {
        match focused_terminal(snapshot[s.active_tab]) {
            None => (State { focused: None, ..s }, Outcome::nothing()),
            Some(pane) => {
                let id = PaneId::Terminal(pane.id);
                let registry = registered(s.registry, rules, pane);
                let next = State { registry, focused: Some(id), ..s };
                if s.focused != Some(id) && s.input_mode.is_assignable() {
                    (next, Outcome::switch(registry[id]))
                } else {
                    (next, Outcome::nothing())
                }
            },
        }
    }
}

/// A report of the panes arrived: it is kept, and focus and mode are brought
/// in line with it.
pub open spec fn on_pane_update(
    s: State,
    rules: ClassifierView,
    snapshot: Map<usize, Seq<PaneView>>,
) -> (State, Outcome) {
    reconcile(State { last_snapshot: Some(snapshot), ..s }, rules, snapshot)
}

/// The list of tabs arrived. Where another tab is on display than before,
/// its position is taken note of, and focus and mode are brought in line
/// with the last report of the panes, if there is one.
pub open spec fn on_tab_update(s: State, rules: ClassifierView, tabs: Seq<TabInfo>) -> (
    State,
    Outcome,
) {
    match active_position(tabs) {
        None => (s, Outcome::nothing()),
        Some(position) => if position == s.active_tab {
            (s, Outcome::nothing())
        } else {
            let moved = State { active_tab: position, ..s };
            match s.last_snapshot {
                Some(snapshot) => reconcile(moved, rules, snapshot),
                None => (moved, Outcome::nothing()),
            }
        },
    }
}

/// A pane is gone: so is its entry.
pub open spec fn on_pane_closed(s: State, pane: PaneId) -> (State, Outcome) {
    (State { registry: s.registry.remove(pane), ..s }, Outcome::nothing())
}

/// A program was started with `cmdline`: the mode is switched to the one
/// that program wants, whatever is registered.
pub open spec fn on_program_update(s: State, rules: ClassifierView, cmdline: Seq<char>) -> (
    State,
    Outcome,
) {
    (s, Outcome::switch(default_mode(rules.locked, classify(cmdline, rules.default_shell))))
}

/// A message arrived on a side channel. On the channel for program updates,
/// and with a payload, it is a program update; else it is passed over.
pub open spec fn on_message(
    s: State,
    rules: ClassifierView,
    name: Seq<char>,
    payload: Option<Seq<char>>,
) -> (State, Outcome) {
    match payload {
        Some(cmdline) => if name == program_update_channel() {
            on_program_update(s, rules, cmdline)
        } else {
            (s, Outcome::nothing())
        },
        None => (s, Outcome::nothing()),
    }
}

/// The state after `event`, and what handling it comes to, under the
/// options the component was started with.
pub open spec fn step(s: State, options: ConfigView, event: Event) -> (State, Outcome) {
    match event {
        Event::PermissionResult(granted) => on_permission_result(s, options.hide_self, granted),
        Event::ModeUpdate(mode) => on_mode_update(s, mode),
        Event::TabUpdate(tabs) => on_tab_update(s, options.rules, tabs),
        Event::PaneUpdate(snapshot) => on_pane_update(s, options.rules, snapshot),
        Event::PaneClosed(pane) => on_pane_closed(s, pane),
        Event::Message { name, payload } => on_message(s, options.rules, name, payload),
    }
}

} // verus!

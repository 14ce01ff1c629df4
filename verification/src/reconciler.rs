//! The reconciler: it takes the host's notifications one at a time, keeps
//! the bookkeeping, and says which request to make of the host.

use crate::config::{Config, ConfigView};
use crate::mode::InputMode;
use crate::model::{
    on_message, on_mode_update, on_pane_closed, on_pane_update, on_permission_result,
    on_program_update, on_tab_update, reconcile, step, Event, Outcome, Request, State,
};
use crate::registry::{PaneId, PaneModeRegistry};
use crate::snapshot::{active_tab_position, find_focused, PaneSnapshot, PaneView, TabInfo};
use crate::text::same_text;
use vstd::prelude::*;

verus! {

/// A notification from the host.
pub enum Notification {
    /// The answer to the request for permissions: granted or not.
    PermissionResult(bool),
    /// The host-wide input mode is now the given one.
    ModeUpdate(InputMode),
    /// The list of tabs, one of them marked active.
    TabUpdate(Vec<TabInfo>),
    /// A report of all panes.
    PaneUpdate(PaneSnapshot),
    /// The pane is gone.
    PaneClosed(PaneId),
    /// A message on a named side channel.
    Message { name: String, payload: Option<String> },
}

impl View for Notification {
    type V = Event;

    open spec fn view(&self) -> Event {
        match self {
            Notification::PermissionResult(granted) => Event::PermissionResult(*granted),
            Notification::ModeUpdate(mode) => Event::ModeUpdate(*mode),
            Notification::TabUpdate(tabs) => Event::TabUpdate(tabs@),
            Notification::PaneUpdate(snapshot) => Event::PaneUpdate(snapshot@),
            Notification::PaneClosed(pane) => Event::PaneClosed(*pane),
            Notification::Message { name, payload } => Event::Message {
                name: name@,
                payload: match payload {
                    Some(p) => Some(p@),
                    None => None,
                },
            },
        }
    }
}

/// The view of an optional report.
pub open spec fn opt_snapshot(o: Option<PaneSnapshot>) -> Option<Map<usize, Seq<PaneView>>> {
    match o {
        Some(s) => Some(s@),
        None => None,
    }
}

/// Owns all the bookkeeping, and is the only one to change it.
pub struct ModeReconciler {
    config: Config,
    initialized: bool,
    registry: PaneModeRegistry,
    focused: Option<PaneId>,
    active_tab: usize,
    input_mode: InputMode,
    last_snapshot: Option<PaneSnapshot>,
}

impl View for ModeReconciler {
    type V = State;

    closed spec fn view(&self) -> State {
        State {
            initialized: self.initialized,
            registry: self.registry@,
            focused: self.focused,
            active_tab: self.active_tab,
            input_mode: self.input_mode,
            last_snapshot: opt_snapshot(self.last_snapshot),
        }
    }
}

impl ModeReconciler {
    /// The options the reconciler was made with.
    pub closed spec fn options(&self) -> ConfigView {
        self.config@
    }

    /// A reconciler at startup.
    pub fn new(config: Config) -> (r: Self)
        ensures
            r@ == State::initial(),
            r.options() == config@,
    {
        ModeReconciler {
            config,
            initialized: false,
            registry: PaneModeRegistry::new(),
            focused: None,
            active_tab: 0,
            input_mode: InputMode::Normal,
            last_snapshot: None,
        }
    }

    /// The options the reconciler was made with.
    pub fn config(&self) -> (r: &Config)
        ensures
            r@ == self.options(),
    {
        &self.config
    }

    /// Whether the permissions were granted.
    pub fn is_initialized(&self) -> (r: bool)
        ensures
            r == self@.initialized,
    {
        self.initialized
    }

    /// The mode remembered for each pane.
    pub fn registry(&self) -> (r: &PaneModeRegistry)
        ensures
            r@ == self@.registry,
    {
        &self.registry
    }

    /// The pane that input goes to, as far as known.
    pub fn focused_pane(&self) -> (r: Option<PaneId>)
        ensures
            r == self@.focused,
    {
        self.focused
    }

    /// The position of the tab on display.
    pub fn active_tab(&self) -> (r: usize)
        ensures
            r == self@.active_tab,
    {
        self.active_tab
    }

    /// The last report of the panes, where one arrived.
    pub fn last_snapshot(&self) -> (r: Option<&PaneSnapshot>)
        ensures
            self@.last_snapshot == match r {
                Some(snapshot) => Some(snapshot@),
                None => None,
            },
    {
        self.last_snapshot.as_ref()
    }

    /// The host-wide input mode, as last reported.
    pub fn input_mode(&self) -> (r: InputMode)
        ensures
            r == self@.input_mode,
    {
        self.input_mode
    }

    /// Whether the host is in `Normal` or `Locked` mode.
    pub fn is_in_normal_or_locked_mode(&self) -> (r: bool)
        ensures
            r == self@.input_mode.is_assignable(),
    {
        self.input_mode.is_normal_or_locked()
    }

    /// Handles one notification: the bookkeeping moves on by one step, and
    /// the outcome says what to ask of the host.
    pub fn handle(&mut self, notification: Notification) -> (out: Outcome)
        ensures
            (final(self)@, out) == step(old(self)@, old(self).options(), notification@),
            final(self).options() == old(self).options(),
            old(self)@.well_formed() ==> final(self)@.well_formed(),
            old(self)@.well_formed() ==> (out.request matches Some(Request::SwitchMode(mode))
                ==> mode.is_assignable()),
    {
        match notification {
            Notification::PermissionResult(granted) => self.on_permission_result(granted),
            Notification::ModeUpdate(mode) => self.on_mode_update(mode),
            Notification::TabUpdate(tabs) => self.on_tab_update(&tabs),
            Notification::PaneUpdate(snapshot) => self.on_pane_update(snapshot),
            Notification::PaneClosed(pane) => self.on_pane_closed(pane),
            Notification::Message { name, payload } => {
                let payload = match &payload {
                    Some(p) => Some(p.as_str()),
                    None => None,
                };
                self.on_message(name.as_str(), payload)
            },
        }
    }

    /// The answer to the request for permissions.
    pub fn on_permission_result(&mut self, granted: bool) -> (out: Outcome)
        ensures
            (final(self)@, out) == on_permission_result(
                old(self)@,
                old(self).options().hide_self,
                granted,
            ),
            final(self).options() == old(self).options(),
    {
        if granted {
            self.initialized = true;
            Outcome { request: Some(Request::Withdraw { hidden: self.config.hide_self() }), redraw: true }
        } else {
            Outcome { request: None, redraw: false }
        }
    }

    /// The host-wide input mode changed to `mode`.
    pub fn on_mode_update(&mut self, mode: InputMode) -> (out: Outcome)
        ensures
            (final(self)@, out) == on_mode_update(old(self)@, mode),
            final(self).options() == old(self).options(),
    {
        let was_assignable = self.input_mode.is_normal_or_locked();
        let mut request: Option<Request> = None;
        match self.focused {
            Some(pane) => {
                match mode {
                    InputMode::Locked => {
                        self.registry.set(pane, mode);
                    },
                    InputMode::Normal => {
                        if was_assignable {
                            self.registry.set(pane, mode);
                        } else {
                            match self.registry.get(pane) {
                                Some(saved) => {
                                    request = Some(Request::SwitchMode(saved));
                                },
                                None => {},
                            }
                        }
                    },
                    InputMode::Other => {},
                }
            },
            None => {},
        }
        self.input_mode = mode;
        Outcome { request, redraw: false }
    }

    /// The list of tabs arrived.
    pub fn on_tab_update(&mut self, tabs: &Vec<TabInfo>) -> (out: Outcome)
        ensures
            (final(self)@, out) == on_tab_update(old(self)@, old(self).options().rules, tabs@),
            final(self).options() == old(self).options(),
    {
        match active_tab_position(tabs) {
            Some(position) => {
                if position != self.active_tab {
                    self.active_tab = position;
                    match self.last_snapshot.take() {
                        Some(snapshot) => {
                            let out = self.reconcile(&snapshot);
                            self.last_snapshot = Some(snapshot);
                            out
                        },
                        None => Outcome { request: None, redraw: false },
                    }
                } else {
                    Outcome { request: None, redraw: false }
                }
            },
            None => Outcome { request: None, redraw: false },
        }
    }

    /// A report of the panes arrived.
    pub fn on_pane_update(&mut self, snapshot: PaneSnapshot) -> (out: Outcome)
        ensures
            (final(self)@, out) == on_pane_update(old(self)@, old(self).options().rules, snapshot@),
            final(self).options() == old(self).options(),
    {
        let out = self.reconcile(&snapshot);
        self.last_snapshot = Some(snapshot);
        out
    }

    /// A pane is gone.
    pub fn on_pane_closed(&mut self, pane: PaneId) -> (out: Outcome)
        ensures
            (final(self)@, out) == on_pane_closed(old(self)@, pane),
            final(self).options() == old(self).options(),
    {
        self.registry.remove(pane);
        Outcome { request: None, redraw: false }
    }

    /// A message arrived on the side channel `name`.
    pub fn on_message(&mut self, name: &str, payload: Option<&str>) -> (out: Outcome)
        ensures
            (final(self)@, out) == on_message(
                old(self)@,
                old(self).options().rules,
                name@,
                crate::program::opt_text(payload),
            ),
            final(self).options() == old(self).options(),
    {
        match payload {
            Some(cmdline) => {
                if same_text(name, "Event::CommandUpdate") {
                    self.on_program_update(cmdline)
                } else {
                    Outcome { request: None, redraw: false }
                }
            },
            None => Outcome { request: None, redraw: false },
        }
    }

    /// A program was started with `cmdline`.
    pub fn on_program_update(&mut self, cmdline: &str) -> (out: Outcome)
        ensures
            (final(self)@, out) == on_program_update(
                old(self)@,
                old(self).options().rules,
                cmdline@,
            ),
            final(self).options() == old(self).options(),
    {
        let classifier = self.config.classifier();
        let mode = classifier.default_mode(classifier.classify(cmdline));
        Outcome { request: Some(Request::SwitchMode(mode)), redraw: false }
    }

    /// Brings focus and mode in line with `snapshot`.
    pub fn reconcile(&mut self, snapshot: &PaneSnapshot) -> (out: Outcome)
        ensures
            (final(self)@, out) == reconcile(old(self)@, old(self).options().rules, snapshot@),
            final(self).options() == old(self).options(),
    {
        let panes = match snapshot.panes(self.active_tab) {
            Some(panes) => panes,
            None => {
                return Outcome { request: None, redraw: false };
            },
        };
        let pane = match find_focused(panes) {
            Some(pane) => pane,
            None => {
                self.focused = None;
                return Outcome { request: None, redraw: false };
            },
        };
        let id = PaneId::Terminal(pane.id);
        if !self.registry.contains(id) {
            let command = match &pane.terminal_command {
                Some(c) => Some(c.as_str()),
                None => None,
            };
            let mode = self.config.classifier().mode_for(command);
            self.registry.register_if_absent(id, mode);
        }
        let mut request: Option<Request> = None;
        if self.focused != Some(id) {
            if self.input_mode.is_normal_or_locked() {
                match self.registry.get(id) {
                    Some(mode) => {
                        request = Some(Request::SwitchMode(mode));
                    },
                    None => {},
                }
            }
            self.focused = Some(id);
        }
        Outcome { request, redraw: false }
    }
}

} // verus!

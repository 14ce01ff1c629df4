//! What holds of the reconciler whatever it is fed, proved from the model.

use crate::mode::InputMode;
use crate::model::{on_pane_update, step, Event, Outcome, Request, State};
use crate::config::ConfigView;
use crate::program::default_mode;
use crate::registry::PaneId;
use crate::snapshot::{active_position, focused_terminal, PaneView, TabInfo};
use vstd::prelude::*;

verus! {

/// Whether `snapshot` shows `pane` as the focused terminal of the tab at
/// `position`.
pub open spec fn shows_focus(
    snapshot: Map<usize, Seq<PaneView>>,
    position: usize,
    pane: PaneView,
) -> bool {
    snapshot.contains_key(position) && focused_terminal(snapshot[position]) == Some(pane)
}

/// A program gets `Locked` mode exactly where it is among the locked ones,
/// and `Normal` mode exactly where it is not.
pub proof fn law_default_mode(locked: Set<Seq<char>>, program: Seq<char>)
    ensures
        default_mode(locked, program) == InputMode::Locked <==> locked.contains(program),
        default_mode(locked, program) == InputMode::Normal <==> !locked.contains(program),
{
}

/// The state at startup is well formed.
pub proof fn law_initial_is_well_formed()
    ensures
        State::initial().well_formed(),
{
}

/// A step keeps a well-formed state well formed.
pub proof fn law_step_keeps_well_formed(s: State, options: ConfigView, event: Event)
    requires
        s.well_formed(),
    ensures
        step(s, options, event).0.well_formed(),
{
}

/// From a well-formed state the host is only ever asked to switch to
/// `Normal` or `Locked` mode.
pub proof fn law_switch_is_normal_or_locked(
    s: State,
    options: ConfigView,
    event: Event,
    mode: InputMode,
)
    requires
        s.well_formed(),
        step(s, options, event).1.request == Some(Request::SwitchMode(mode)),
    ensures
        mode.is_assignable(),
{
}

/// The mode on record is always the one last reported: a mode update sets
/// it, and nothing else touches it.
pub proof fn law_mode_is_last_reported(s: State, options: ConfigView, event: Event)
    ensures
        event matches Event::ModeUpdate(mode) ==> step(s, options, event).0.input_mode == mode,
        !(event is ModeUpdate) ==> step(s, options, event).0.input_mode == s.input_mode,
{
}

/// An entry stays as it is unless the user chooses a mode for the focused
/// pane or the pane is closed: a mode update changes at most the entry of
/// the focused pane, the closing of a pane removes only that pane's entry,
/// and nothing else changes or removes any entry.
pub proof fn law_entries_persist(s: State, options: ConfigView, event: Event, pane: PaneId)
    requires
        s.registry.contains_key(pane),
        !(event is ModeUpdate && s.focused == Some(pane)),
        event != Event::PaneClosed(pane),
    ensures
        step(s, options, event).0.registry.contains_key(pane),
        step(s, options, event).0.registry[pane] == s.registry[pane],
{
}

/// An entry is only ever made for the pane that a report shows focused in
/// the tab on display, or for the focused pane when the user chooses a mode.
pub proof fn law_entries_appear_on_focus(s: State, options: ConfigView, event: Event, pane: PaneId)
    requires
        !s.registry.contains_key(pane),
        step(s, options, event).0.registry.contains_key(pane),
    ensures
        step(s, options, event).0.focused == Some(pane),
{
}

/// A report that shows the pane already focused, which has an entry, asks
/// nothing of the host and changes nothing but the report that is kept.
pub proof fn law_known_focus_is_silent(
    s: State,
    options: ConfigView,
    snapshot: Map<usize, Seq<PaneView>>,
    pane: PaneView,
)
    requires
        shows_focus(snapshot, s.active_tab, pane),
        s.focused == Some(PaneId::Terminal(pane.id)),
        s.registry.contains_key(PaneId::Terminal(pane.id)),
    ensures
        step(s, options, Event::PaneUpdate(snapshot)) == (
            State { last_snapshot: Some(snapshot), ..s },
            Outcome::nothing(),
        ),
{
    let next = step(s, options, Event::PaneUpdate(snapshot)).0;
    assert(next =~= State { last_snapshot: Some(snapshot), ..s });
}

/// The same report twice in a row: the second time nothing is asked of the
/// host and nothing changes.
pub proof fn law_repeated_snapshot_is_silent(
    s: State,
    options: ConfigView,
    snapshot: Map<usize, Seq<PaneView>>,
)
    ensures
        ({
            let first = step(s, options, Event::PaneUpdate(snapshot));
            step(first.0, options, Event::PaneUpdate(snapshot)) == (first.0, Outcome::nothing())
        }),
{
    let first = step(s, options, Event::PaneUpdate(snapshot));
    let second = step(first.0, options, Event::PaneUpdate(snapshot));
    assert(second.0 =~= first.0);
}

/// When a report shows another registered pane focused than before, and the
/// host is in `Normal` or `Locked` mode, the one request made is a switch to
/// that pane's entry; no entry changes.
pub proof fn law_focus_move_switches_to_entry(
    s: State,
    options: ConfigView,
    snapshot: Map<usize, Seq<PaneView>>,
    pane: PaneView,
)
    requires
        shows_focus(snapshot, s.active_tab, pane),
        s.focused != Some(PaneId::Terminal(pane.id)),
        s.registry.contains_key(PaneId::Terminal(pane.id)),
        s.input_mode.is_assignable(),
    ensures
        step(s, options, Event::PaneUpdate(snapshot)).1 == Outcome::switch(
            s.registry[PaneId::Terminal(pane.id)],
        ),
        step(s, options, Event::PaneUpdate(snapshot)).0.focused == Some(PaneId::Terminal(pane.id)),
        step(s, options, Event::PaneUpdate(snapshot)).0.registry == s.registry,
{
}

/// Focus moves from pane `a` to pane `b` and back, both registered, while
/// the host is in `Normal` or `Locked` mode: the first move asks for one
/// switch to the entry of `b`, the second for one switch to the entry of
/// `a`, and both entries are as before.
pub proof fn law_focus_there_and_back(
    s: State,
    options: ConfigView,
    there: Map<usize, Seq<PaneView>>,
    back: Map<usize, Seq<PaneView>>,
    a: PaneView,
    b: PaneView,
)
    requires
        s.input_mode.is_assignable(),
        a.id != b.id,
        s.focused == Some(PaneId::Terminal(a.id)),
        s.registry.contains_key(PaneId::Terminal(a.id)),
        s.registry.contains_key(PaneId::Terminal(b.id)),
        shows_focus(there, s.active_tab, b),
        shows_focus(back, s.active_tab, a),
    ensures
        ({
            let first = step(s, options, Event::PaneUpdate(there));
            let second = step(first.0, options, Event::PaneUpdate(back));
            &&& first.1 == Outcome::switch(s.registry[PaneId::Terminal(b.id)])
            &&& second.1 == Outcome::switch(s.registry[PaneId::Terminal(a.id)])
            &&& second.0.registry == s.registry
            &&& second.0.focused == s.focused
        }),
{
}

/// While the host is in a mode of its own, a report that shows another pane
/// focused asks nothing of the host, and the focus is taken note of all the
/// same.
pub proof fn law_focus_is_tracked_in_other_modes(
    s: State,
    options: ConfigView,
    snapshot: Map<usize, Seq<PaneView>>,
    pane: PaneView,
)
    requires
        shows_focus(snapshot, s.active_tab, pane),
        !s.input_mode.is_assignable(),
    ensures
        step(s, options, Event::PaneUpdate(snapshot)).1 == Outcome::nothing(),
        step(s, options, Event::PaneUpdate(snapshot)).0.focused == Some(PaneId::Terminal(pane.id)),
{
}

/// When the host returns to `Normal` from a mode of its own while a
/// registered pane is focused, the one request made is a switch to that
/// pane's entry, and the entry stays.
pub proof fn law_return_from_other_mode_is_answered(s: State, options: ConfigView, pane: PaneId)
    requires
        !s.input_mode.is_assignable(),
        s.focused == Some(pane),
        s.registry.contains_key(pane),
    ensures
        step(s, options, Event::ModeUpdate(InputMode::Normal)) == (
            State { input_mode: InputMode::Normal, ..s },
            Outcome::switch(s.registry[pane]),
        ),
{
}

/// Without a focused pane a mode update is only taken note of.
pub proof fn law_mode_update_without_focus(s: State, options: ConfigView, mode: InputMode)
    requires
        s.focused is None,
    ensures
        step(s, options, Event::ModeUpdate(mode)) == (
            State { input_mode: mode, ..s },
            Outcome::nothing(),
        ),
{
}

/// A mode the user chose for the focused pane comes back with the focus.
/// While pane `a` is focused the user switches to `mode`, `Locked` or
/// `Normal`: that becomes the entry of `a`, and nothing is asked of the
/// host. When the focus then moves to pane `b` and back, the switch asked
/// for on the way back is to `mode`.
pub proof fn law_user_choice_is_restored(
    s: State,
    options: ConfigView,
    mode: InputMode,
    away: Map<usize, Seq<PaneView>>,
    back: Map<usize, Seq<PaneView>>,
    a: PaneView,
    b: PaneView,
)
    requires
        s.input_mode.is_assignable(),
        mode.is_assignable(),
        a.id != b.id,
        s.focused == Some(PaneId::Terminal(a.id)),
        shows_focus(away, s.active_tab, b),
        shows_focus(back, s.active_tab, a),
    ensures
        ({
            let chosen = step(s, options, Event::ModeUpdate(mode));
            let left = step(chosen.0, options, Event::PaneUpdate(away));
            let returned = step(left.0, options, Event::PaneUpdate(back));
            &&& chosen.1 == Outcome::nothing()
            &&& chosen.0.registry == s.registry.insert(PaneId::Terminal(a.id), mode)
            &&& left.0.focused == Some(PaneId::Terminal(b.id))
            &&& returned.1 == Outcome::switch(mode)
            &&& returned.0.focused == Some(PaneId::Terminal(a.id))
            &&& returned.0.registry[PaneId::Terminal(a.id)] == mode
        }),
{
}

/// A closed pane is forgotten: its entry is gone, and when a report next
/// shows a pane of that number focused, the pane is registered afresh,
/// with the mode of the program it runs now.
pub proof fn law_closed_pane_is_registered_afresh(
    s: State,
    options: ConfigView,
    snapshot: Map<usize, Seq<PaneView>>,
    pane: PaneView,
)
    requires
        shows_focus(snapshot, s.active_tab, pane),
    ensures
        ({
            let id = PaneId::Terminal(pane.id);
            let closed = step(s, options, Event::PaneClosed(id));
            let seen = step(closed.0, options, Event::PaneUpdate(snapshot));
            &&& closed.1 == Outcome::nothing()
            &&& closed.0.registry == s.registry.remove(id)
            &&& !closed.0.registry.contains_key(id)
            &&& seen.0.registry == s.registry.insert(id, options.rules.mode_for(pane.terminal_command))
        }),
{
    let id = PaneId::Terminal(pane.id);
    let closed = step(s, options, Event::PaneClosed(id));
    let seen = step(closed.0, options, Event::PaneUpdate(snapshot));
    assert(seen.0.registry =~= s.registry.insert(id, options.rules.mode_for(pane.terminal_command)));
}

/// Closing a pane that has no entry changes nothing.
pub proof fn law_closing_unknown_pane_changes_nothing(s: State, options: ConfigView, pane: PaneId)
    requires
        !s.registry.contains_key(pane),
    ensures
        step(s, options, Event::PaneClosed(pane)) == (s, Outcome::nothing()),
{
    assert(step(s, options, Event::PaneClosed(pane)).0 =~= s);
}

/// When another tab comes on display, focus and mode are brought in line
/// with the last report of the panes, as if that report had just arrived
/// for the new tab: with that tab in the report, the focus is the tab's
/// focused terminal.
pub proof fn law_tab_switch_uses_last_snapshot(
    s: State,
    options: ConfigView,
    tabs: Seq<TabInfo>,
    position: usize,
    snapshot: Map<usize, Seq<PaneView>>,
)
    requires
        active_position(tabs) == Some(position),
        position != s.active_tab,
        s.last_snapshot == Some(snapshot),
    ensures
        step(s, options, Event::TabUpdate(tabs)) == on_pane_update(
            State { active_tab: position, ..s },
            options.rules,
            snapshot,
        ),
        step(s, options, Event::TabUpdate(tabs)).0.active_tab == position,
        step(s, options, Event::TabUpdate(tabs)).0.last_snapshot == Some(snapshot),
        snapshot.contains_key(position) ==> step(s, options, Event::TabUpdate(tabs)).0.focused
            == match focused_terminal(snapshot[position]) {
            Some(pane) => Some(PaneId::Terminal(pane.id)),
            None => None,
        },
{
    let moved = State { active_tab: position, ..s };
    assert(State { last_snapshot: Some(snapshot), ..moved } =~= moved);
}

/// A list of tabs that marks none active, or the tab already on display,
/// changes nothing; nor does a tab that the last report does not hold,
/// beyond its position being taken note of.
pub proof fn law_tab_update_without_effect(
    s: State,
    options: ConfigView,
    tabs: Seq<TabInfo>,
)
    ensures
        (active_position(tabs) is None || active_position(tabs) == Some(s.active_tab)) ==> step(
            s,
            options,
            Event::TabUpdate(tabs),
        ) == (s, Outcome::nothing()),
        (active_position(tabs) matches Some(position) && (s.last_snapshot matches Some(snapshot)
            ==> !snapshot.contains_key(position))) ==> step(s, options, Event::TabUpdate(tabs)) == (
            State { active_tab: active_position(tabs)->0, ..s },
            Outcome::nothing(),
        ),
{
    if active_position(tabs) == Some(s.active_tab) {
        assert(State { active_tab: s.active_tab, ..s } =~= s);
    }
}

} // verus!

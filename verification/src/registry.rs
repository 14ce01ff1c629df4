//! The mode that each pane is remembered to be in.

use crate::mode::InputMode;
use std::collections::HashMap;
use vstd::prelude::*;

verus! {

/// Names a pane. Terminal panes and plugin panes are numbered apart.
#[derive(Clone, Copy, Debug, PartialEq, Eq, Structural)]
pub enum PaneId {
    Terminal(u32),
    Plugin(u32),
}

impl PaneId {
    /// The number under which the pane is filed: terminal panes keep theirs,
    /// plugin panes come after all of them.
    pub open spec fn key(self) -> u64 {
        match self {
            PaneId::Terminal(n) => n as u64,
            PaneId::Plugin(n) => (0x1_0000_0000 + n) as u64,
        }
    }

    /// Whether this is a terminal pane.
    pub open spec fn is_terminal(self) -> bool {
        self is Terminal
    }

    /// Computes `key`.
    fn to_key(&self) -> (k: u64)
        ensures
            k == self.key(),
    {
        match self {
            PaneId::Terminal(n) => *n as u64,
            PaneId::Plugin(n) => 0x1_0000_0000u64 + *n as u64,
        }
    }
}

/// No two panes are filed under one number.
pub proof fn law_keys_tell_panes_apart(a: PaneId, b: PaneId)
    ensures
        a.key() == b.key() <==> a == b,
{
}

/// Remembers a mode for each pane it was told of. It starts empty; an entry
/// stays as it is until it is overwritten or removed.
pub struct PaneModeRegistry {
    modes: HashMap<u64, InputMode>,
}

impl View for PaneModeRegistry {
    type V = Map<PaneId, InputMode>;

    closed spec fn view(&self) -> Map<PaneId, InputMode> {
        Map::new(|p: PaneId| self.modes@.contains_key(p.key()), |p: PaneId| self.modes@[p.key()])
    }
}

impl PaneModeRegistry {
    /// A registry without entries.
    pub fn new() -> (r: Self)
        ensures
            r@ == Map::<PaneId, InputMode>::empty(),
    {
        let r = PaneModeRegistry { modes: HashMap::new() };
        assert(r@ =~= Map::<PaneId, InputMode>::empty());
        r
    }

    /// Whether `pane` has an entry.
    pub fn contains(&self, pane: PaneId) -> (r: bool)
        ensures
            r == self@.contains_key(pane),
    {
        broadcast use vstd::std_specs::hash::group_hash_axioms;

        let k = pane.to_key();
        self.modes.contains_key(&k)
    }

    /// The mode remembered for `pane`, where it has an entry.
    pub fn get(&self, pane: PaneId) -> (r: Option<InputMode>)
        ensures
            r == if self@.contains_key(pane) {
                Some(self@[pane])
            } else {
                None
            },
    {
        broadcast use vstd::std_specs::hash::group_hash_axioms;

        let k = pane.to_key();
        match self.modes.get(&k) {
            Some(m) => Some(*m),
            None => None,
        }
    }

    /// Gives `pane` the entry `mode` unless it has one already. Returns
    /// whether the entry was made.
    pub fn register_if_absent(&mut self, pane: PaneId, mode: InputMode) -> (added: bool)
        ensures
            added == !old(self)@.contains_key(pane),
            final(self)@ == if old(self)@.contains_key(pane) {
                old(self)@
            } else {
                old(self)@.insert(pane, mode)
            },
    {
        broadcast use vstd::std_specs::hash::group_hash_axioms;

        let k = pane.to_key();
        if self.modes.contains_key(&k) {
            false
        } else {
            self.modes.insert(k, mode);
            assert(self@ =~= old(self)@.insert(pane, mode));
            true
        }
    }

    /// Makes `mode` the entry of `pane`, whether or not it had one.
    pub fn set(&mut self, pane: PaneId, mode: InputMode)
        ensures
            final(self)@ == old(self)@.insert(pane, mode),
    {
        broadcast use vstd::std_specs::hash::group_hash_axioms;

        let k = pane.to_key();
        self.modes.insert(k, mode);
        assert(self@ =~= old(self)@.insert(pane, mode));
    }

    /// Drops the entry of `pane`, and returns the mode it held. Without an
    /// entry nothing changes.
    pub fn remove(&mut self, pane: PaneId) -> (r: Option<InputMode>)
        ensures
            final(self)@ == old(self)@.remove(pane),
            r == if old(self)@.contains_key(pane) {
                Some(old(self)@[pane])
            } else {
                None
            },
    {
        broadcast use vstd::std_specs::hash::group_hash_axioms;

        let k = pane.to_key();
        let r = self.modes.remove(&k);
        assert(self@ =~= old(self)@.remove(pane));
        r
    }
}

} // verus!

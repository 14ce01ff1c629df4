//! What the host reports of its tabs and panes, and which pane has the
//! focus according to such a report.

use std::collections::HashMap;
use vstd::prelude::*;

verus! {

/// One tab in the host's list of tabs.
#[derive(Clone, Copy, Debug, PartialEq, Eq, Structural)]
pub struct TabInfo {
    /// Where the tab stands, counting from 0.
    pub position: usize,
    /// Whether it is the tab on display.
    pub active: bool,
}

/// One pane in a report of the panes.
#[derive(Clone, Debug)]
pub struct PaneInfo {
    /// The pane's number among the panes of its kind.
    pub id: u32,
    /// Whether a plugin draws the pane, rather than a terminal.
    pub is_plugin: bool,
    /// Whether the pane has the focus within its tab.
    pub is_focused: bool,
    /// The command line the pane was started with, where it was started with
    /// one.
    pub terminal_command: Option<String>,
}

/// A `PaneInfo` as plain values.
pub struct PaneView {
    pub id: u32,
    pub is_plugin: bool,
    pub is_focused: bool,
    pub terminal_command: Option<Seq<char>>,
}

impl View for PaneInfo {
    type V = PaneView;

    open spec fn view(&self) -> PaneView {
        PaneView {
            id: self.id,
            is_plugin: self.is_plugin,
            is_focused: self.is_focused,
            terminal_command: match self.terminal_command {
                Some(c) => Some(c@),
                None => None,
            },
        }
    }
}

/// The panes of a list, each as plain values.
pub open spec fn panes_view(panes: Seq<PaneInfo>) -> Seq<PaneView> {
    panes.map_values(|p: PaneInfo| p@)
}

/// Whether the pane can be the one that input goes to: it has the focus and
/// is a terminal.
pub open spec fn takes_input(p: PaneView) -> bool {
    p.is_focused && !p.is_plugin
}

/// The first index at or after `from` of a pane that takes input, or
/// `panes.len()` where there is none.
pub open spec fn first_input_pane(panes: Seq<PaneView>, from: int) -> int
    decreases panes.len() - from,
{
    if 0 <= from < panes.len() && !takes_input(panes[from]) {
        first_input_pane(panes, from + 1)
    } else {
        from
    }
}

/// The pane of a tab that input goes to: the first one that takes input.
pub open spec fn focused_terminal(panes: Seq<PaneView>) -> Option<PaneView> {
    let i = first_input_pane(panes, 0);
    if 0 <= i < panes.len() {
        Some(panes[i])
    } else {
        None
    }
}

/// The first index at or after `from` of a tab marked active, or
/// `tabs.len()` where there is none.
pub open spec fn first_active_tab(tabs: Seq<TabInfo>, from: int) -> int
    decreases tabs.len() - from,
{
    if 0 <= from < tabs.len() && !tabs[from].active {
        first_active_tab(tabs, from + 1)
    } else {
        from
    }
}

/// The position of the tab on display: that of the first tab marked active.
pub open spec fn active_position(tabs: Seq<TabInfo>) -> Option<usize> {
    let i = first_active_tab(tabs, 0);
    if 0 <= i < tabs.len() {
        Some(tabs[i].position)
    } else {
        None
    }
}

/// `first_input_pane` lies between `from` and the end, no pane it passed
/// over takes input, and it stops at the end or at one that does.
pub proof fn lemma_first_input_pane(panes: Seq<PaneView>, from: int)
    requires
        0 <= from <= panes.len(),
    ensures
        from <= first_input_pane(panes, from) <= panes.len(),
        forall|i: int| from <= i < first_input_pane(panes, from) ==> !takes_input(#[trigger] panes[i]),
        first_input_pane(panes, from) < panes.len() ==> takes_input(
            panes[first_input_pane(panes, from)],
        ),
    decreases panes.len() - from,
{
    if from < panes.len() && !takes_input(panes[from]) {
        lemma_first_input_pane(panes, from + 1);
    }
}

/// A tab has a focused terminal exactly where one of its panes takes input,
/// and that pane is then one of the tab's that does.
pub proof fn law_focused_terminal_takes_input(panes: Seq<PaneView>)
    ensures
        focused_terminal(panes) is Some <==> exists|i: int|
            0 <= i < panes.len() && takes_input(#[trigger] panes[i]),
        focused_terminal(panes) matches Some(p) ==> takes_input(p) && panes.contains(p),
{
    lemma_first_input_pane(panes, 0);
    let k = first_input_pane(panes, 0);
    if k < panes.len() {
        assert(takes_input(panes[k]));
    }
}

/// `first_active_tab` lies between `from` and the end, no tab it passed over
/// is active, and it stops at the end or at one that is.
pub proof fn lemma_first_active_tab(tabs: Seq<TabInfo>, from: int)
    requires
        0 <= from <= tabs.len(),
    ensures
        from <= first_active_tab(tabs, from) <= tabs.len(),
        forall|i: int| from <= i < first_active_tab(tabs, from) ==> !(#[trigger] tabs[i]).active,
        first_active_tab(tabs, from) < tabs.len() ==> tabs[first_active_tab(tabs, from)].active,
    decreases tabs.len() - from,
{
    if from < tabs.len() && !tabs[from].active {
        lemma_first_active_tab(tabs, from + 1);
    }
}

/// A list of tabs has an active position exactly where one of its tabs is
/// marked active, and the position is then that of the first such tab.
pub proof fn law_active_position_is_first_active(tabs: Seq<TabInfo>)
    ensures
        active_position(tabs) is Some <==> exists|i: int|
            0 <= i < tabs.len() && (#[trigger] tabs[i]).active,
        active_position(tabs) matches Some(position) ==> exists|i: int|
            0 <= i < tabs.len() && (#[trigger] tabs[i]).active && tabs[i].position == position
                && forall|j: int| 0 <= j < i ==> !(#[trigger] tabs[j]).active,
{
    lemma_first_active_tab(tabs, 0);
    let k = first_active_tab(tabs, 0);
    if k < tabs.len() {
        assert(tabs[k].active);
    }
}

/// The pane of a tab that input goes to.
pub fn find_focused(panes: &Vec<PaneInfo>) -> (r: Option<&PaneInfo>)
    ensures
        focused_terminal(panes_view(panes@)) == match r {
            Some(p) => Some(p@),
            None => None,
        },
{
    let ghost views = panes_view(panes@);
    let mut i: usize = 0;
    while i < panes.len()
        invariant
            i <= panes.len(),
            views == panes_view(panes@),
            first_input_pane(views, 0) == first_input_pane(views, i as int),
        decreases panes.len() - i,
    {
        let p = &panes[i];
        assert(views[i as int] == p@);
        if p.is_focused && !p.is_plugin {
            return Some(p);
        }
        i += 1;
    }
    None
}

/// The position of the tab on display.
pub fn active_tab_position(tabs: &Vec<TabInfo>) -> (r: Option<usize>)
    ensures
        r == active_position(tabs@),
{
    let mut i: usize = 0;
    while i < tabs.len()
        invariant
            i <= tabs.len(),
            first_active_tab(tabs@, 0) == first_active_tab(tabs@, i as int),
        decreases tabs.len() - i,
    {
        if tabs[i].active {
            return Some(tabs[i].position);
        }
        i += 1;
    }
    None
}

/// A report of all panes, tab by tab: for each tab position the panes of
/// that tab, in the host's order.
pub struct PaneSnapshot {
    tabs: HashMap<usize, Vec<PaneInfo>>,
}

impl View for PaneSnapshot {
    type V = Map<usize, Seq<PaneView>>;

    closed spec fn view(&self) -> Map<usize, Seq<PaneView>> {
        Map::new(|t: usize| self.tabs@.contains_key(t), |t: usize| panes_view(self.tabs@[t]@))
    }
}

impl PaneSnapshot {
    /// A report without tabs.
    pub fn new() -> (r: Self)
        ensures
            r@ == Map::<usize, Seq<PaneView>>::empty(),
    {
        let r = PaneSnapshot { tabs: HashMap::new() };
        assert(r@ =~= Map::<usize, Seq<PaneView>>::empty());
        r
    }

    /// Makes `panes` the panes of the tab at `position`.
    pub fn set_tab(&mut self, position: usize, panes: Vec<PaneInfo>)
        ensures
            final(self)@ == old(self)@.insert(position, panes_view(panes@)),
    {
        broadcast use vstd::std_specs::hash::group_hash_axioms;

        self.tabs.insert(position, panes);
        assert(self@ =~= old(self)@.insert(position, panes_view(panes@)));
    }

    /// The panes of the tab at `position`, where the report holds that tab.
    pub fn panes(&self, position: usize) -> (r: Option<&Vec<PaneInfo>>)
        ensures
            match r {
                Some(panes) => self@.contains_key(position) && self@[position] == panes_view(
                    panes@,
                ),
                None => !self@.contains_key(position),
            },
    {
        broadcast use vstd::std_specs::hash::group_hash_axioms;

        self.tabs.get(&position)
    }
}

} // verus!

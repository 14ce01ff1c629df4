use autolock::snapshot::{active_tab_position, find_focused, PaneInfo, PaneSnapshot, TabInfo};

fn pane(id: u32, is_plugin: bool, is_focused: bool, command: Option<&str>) -> PaneInfo {
    PaneInfo { id, is_plugin, is_focused, terminal_command: command.map(|c| c.to_string()) }
}

#[test]
fn the_focused_terminal_is_found() {
    let panes = vec![
        pane(0, false, false, Some("htop")),
        pane(1, false, true, Some("vim")),
        pane(2, false, false, None),
    ];
    let found = find_focused(&panes).unwrap();
    assert_eq!(found.id, 1);
    assert_eq!(found.terminal_command.as_deref(), Some("vim"));
}

#[test]
fn a_focused_plugin_is_passed_over() {
    let panes = vec![pane(0, true, true, None), pane(0, false, true, Some("sh"))];
    let found = find_focused(&panes).unwrap();
    assert_eq!(found.id, 0);
    assert!(!found.is_plugin);
    let only_plugin = vec![pane(4, true, true, None), pane(5, false, false, None)];
    assert!(find_focused(&only_plugin).is_none());
}

#[test]
fn of_two_focused_terminals_the_first_counts() {
    let panes = vec![pane(8, false, true, None), pane(9, false, true, None)];
    assert_eq!(find_focused(&panes).unwrap().id, 8);
}

#[test]
fn a_tab_without_focus_has_no_focused_terminal() {
    assert!(find_focused(&Vec::new()).is_none());
    assert!(find_focused(&vec![pane(0, false, false, None)]).is_none());
}

#[test]
fn the_first_active_tab_gives_the_position() {
    let tabs = vec![
        TabInfo { position: 0, active: false },
        TabInfo { position: 4, active: true },
        TabInfo { position: 2, active: true },
    ];
    assert_eq!(active_tab_position(&tabs), Some(4));
    assert_eq!(active_tab_position(&Vec::new()), None);
    assert_eq!(active_tab_position(&vec![TabInfo { position: 1, active: false }]), None);
}

#[test]
fn a_snapshot_hands_back_the_panes_of_each_tab() {
    let mut s = PaneSnapshot::new();
    assert!(s.panes(0).is_none());
    s.set_tab(0, vec![pane(1, false, true, Some("a"))]);
    s.set_tab(3, vec![pane(2, false, false, None), pane(3, true, true, None)]);
    assert_eq!(s.panes(0).unwrap().len(), 1);
    assert_eq!(s.panes(0).unwrap()[0].id, 1);
    assert_eq!(s.panes(3).unwrap().len(), 2);
    assert!(s.panes(1).is_none());
    s.set_tab(0, Vec::new());
    assert_eq!(s.panes(0).unwrap().len(), 0);
    assert_eq!(s.panes(3).unwrap()[1].id, 3);
}

use autolock::mode::InputMode;
use autolock::registry::{PaneId, PaneModeRegistry};

#[test]
fn a_new_registry_is_empty() {
    let r = PaneModeRegistry::new();
    assert!(!r.contains(PaneId::Terminal(0)));
    assert_eq!(r.get(PaneId::Terminal(0)), None);
    assert_eq!(r.get(PaneId::Plugin(0)), None);
}

#[test]
fn registering_twice_keeps_the_first_mode() {
    let mut r = PaneModeRegistry::new();
    assert!(r.register_if_absent(PaneId::Terminal(7), InputMode::Locked));
    assert!(!r.register_if_absent(PaneId::Terminal(7), InputMode::Normal));
    assert_eq!(r.get(PaneId::Terminal(7)), Some(InputMode::Locked));
    assert!(!r.register_if_absent(PaneId::Terminal(7), InputMode::Locked));
    assert_eq!(r.get(PaneId::Terminal(7)), Some(InputMode::Locked));
}

#[test]
fn set_overwrites_and_creates() {
    let mut r = PaneModeRegistry::new();
    r.set(PaneId::Terminal(1), InputMode::Normal);
    assert_eq!(r.get(PaneId::Terminal(1)), Some(InputMode::Normal));
    r.set(PaneId::Terminal(1), InputMode::Locked);
    assert_eq!(r.get(PaneId::Terminal(1)), Some(InputMode::Locked));
    r.set(PaneId::Terminal(1), InputMode::Other);
    assert_eq!(r.get(PaneId::Terminal(1)), Some(InputMode::Other));
}

#[test]
fn remove_drops_only_the_named_pane() {
    let mut r = PaneModeRegistry::new();
    r.set(PaneId::Terminal(1), InputMode::Normal);
    r.set(PaneId::Terminal(2), InputMode::Locked);
    assert_eq!(r.remove(PaneId::Terminal(1)), Some(InputMode::Normal));
    assert!(!r.contains(PaneId::Terminal(1)));
    assert_eq!(r.get(PaneId::Terminal(2)), Some(InputMode::Locked));
    assert_eq!(r.remove(PaneId::Terminal(1)), None);
    assert_eq!(r.remove(PaneId::Terminal(9)), None);
    assert_eq!(r.get(PaneId::Terminal(2)), Some(InputMode::Locked));
}

#[test]
fn a_removed_pane_can_be_registered_again() {
    let mut r = PaneModeRegistry::new();
    r.register_if_absent(PaneId::Terminal(3), InputMode::Locked);
    r.remove(PaneId::Terminal(3));
    assert!(r.register_if_absent(PaneId::Terminal(3), InputMode::Normal));
    assert_eq!(r.get(PaneId::Terminal(3)), Some(InputMode::Normal));
}

#[test]
fn terminal_and_plugin_panes_of_one_number_are_kept_apart() {
    let mut r = PaneModeRegistry::new();
    r.set(PaneId::Terminal(5), InputMode::Locked);
    assert!(!r.contains(PaneId::Plugin(5)));
    r.set(PaneId::Plugin(5), InputMode::Normal);
    assert_eq!(r.get(PaneId::Terminal(5)), Some(InputMode::Locked));
    assert_eq!(r.get(PaneId::Plugin(5)), Some(InputMode::Normal));
    r.remove(PaneId::Plugin(5));
    assert_eq!(r.get(PaneId::Terminal(5)), Some(InputMode::Locked));
    r.set(PaneId::Terminal(u32::MAX), InputMode::Normal);
    r.set(PaneId::Plugin(0), InputMode::Locked);
    r.set(PaneId::Plugin(u32::MAX), InputMode::Other);
    assert_eq!(r.get(PaneId::Terminal(u32::MAX)), Some(InputMode::Normal));
    assert_eq!(r.get(PaneId::Plugin(0)), Some(InputMode::Locked));
    assert_eq!(r.get(PaneId::Plugin(u32::MAX)), Some(InputMode::Other));
    assert_eq!(r.get(PaneId::Terminal(0)), None);
}

#[test]
fn only_normal_and_locked_are_assignable() {
    assert!(InputMode::Normal.is_normal_or_locked());
    assert!(InputMode::Locked.is_normal_or_locked());
    assert!(!InputMode::Other.is_normal_or_locked());
}

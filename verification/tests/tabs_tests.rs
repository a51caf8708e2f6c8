use crab_launcher::tabs::{CrabTab, CrabTabs};

#[test]
fn tab_values() {
    assert_eq!(CrabTab::Programs.to_value(), 0);
    assert_eq!(CrabTab::Music.to_value(), 1);
    assert_eq!(CrabTab::from_value(0), CrabTab::Programs);
    assert_eq!(CrabTab::from_value(1), CrabTab::Music);
    assert_eq!(CrabTab::from_value(7), CrabTab::Programs);
    assert_eq!(CrabTab::default(), CrabTab::Programs);
}

#[test]
fn toggling_switches_between_tabs() {
    let mut t = CrabTabs::new();
    assert_eq!(t.get_current_tab(), CrabTab::Programs);
    t.change_tab(None);
    assert_eq!(t.get_current_tab(), CrabTab::Music);
    assert!(t.music_active && !t.programs_active);
    t.change_tab(None);
    assert_eq!(t.get_current_tab(), CrabTab::Programs);
}

#[test]
fn naming_a_tab_selects_it() {
    let mut t = CrabTabs::new();
    t.change_tab(Some(CrabTab::Music));
    assert_eq!(t.current_tab, CrabTab::Music);
    t.change_tab(Some(CrabTab::Music));
    assert_eq!(t.current_tab, CrabTab::Music);
    t.change_tab(Some(CrabTab::Programs));
    assert_eq!(t.current_tab, CrabTab::Programs);
    assert!(t.programs_active && !t.music_active);
}

#[test]
fn reading_the_property_takes_it() {
    let mut t = CrabTabs::new();
    t.change_tab(Some(CrabTab::Music));
    assert_eq!(t.take_current_tab_property(), 1);
    assert_eq!(t.take_current_tab_property(), 0);
    assert_eq!(t.get_current_tab(), CrabTab::Music);
    t.set_current_tab_property(1);
    assert_eq!(t.current_tab, CrabTab::Music);
}

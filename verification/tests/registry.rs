use tray_controls::{
    CheckMenuItem, CheckMenuKind, IconMenuItem, MenuControl, MenuId, MenuItem, MenuManager,
};

#[derive(Clone, Debug, PartialEq, Eq)]
enum Group {
    Colour,
    Language,
    Display,
}

fn plain(id: &str, text: &str) -> MenuControl<Group> {
    MenuControl::MenuItem(MenuItem::new(MenuId::new(id), text))
}

fn icon(id: &str, text: &str) -> MenuControl<Group> {
    MenuControl::IconMenu(IconMenuItem::new(MenuId::new(id), text))
}

fn separate(id: &str, text: &str, checked: bool) -> MenuControl<Group> {
    MenuControl::CheckMenu(CheckMenuKind::Separate(CheckMenuItem::new(
        MenuId::new(id),
        text,
        checked,
    )))
}

fn checkbox(id: &str, text: &str, checked: bool, group: Group) -> MenuControl<Group> {
    MenuControl::CheckMenu(CheckMenuKind::CheckBox(
        CheckMenuItem::new(MenuId::new(id), text, checked),
        group,
    ))
}

fn radio(id: &str, text: &str, checked: bool, group: Group) -> MenuControl<Group> {
    MenuControl::CheckMenu(CheckMenuKind::Radio(
        CheckMenuItem::new(MenuId::new(id), text, checked),
        None,
        group,
    ))
}

fn member_ids(manager: &MenuManager<Group>, group: Group) -> Vec<String> {
    let mut ids: Vec<String> = match manager.get_check_items_from_grouped(&group) {
        Some(items) => items.iter().map(|item| item.id().as_str().to_string()).collect(),
        None => Vec::new(),
    };
    ids.sort();
    ids
}

#[test]
fn menu_id_holds_its_text() {
    let id = MenuId::new("open");
    assert_eq!(id.as_str(), "open");
    assert_eq!(id.0, "open");
    assert_eq!(id, MenuId::new("open"));
    assert_ne!(id, MenuId::new("close"));
    assert_ne!(id, MenuId::new(""));
}

#[test]
fn items_expose_what_they_were_made_with() {
    let item = MenuItem::new(MenuId::new("open"), "Open");
    assert_eq!(item.id(), &MenuId::new("open"));
    assert_eq!(item.text(), "Open");
    let item = IconMenuItem::new(MenuId::new("about"), "About");
    assert_eq!(item.id(), &MenuId::new("about"));
    assert_eq!(item.text(), "About");
    let mut item = CheckMenuItem::new(MenuId::new("wrap"), "Wrap lines", true);
    assert_eq!(item.id(), &MenuId::new("wrap"));
    assert_eq!(item.text(), "Wrap lines");
    assert!(item.is_checked());
    item.set_checked(false);
    assert!(!item.is_checked());
    assert_eq!(item.id(), &MenuId::new("wrap"));
    assert_eq!(item.text(), "Wrap lines");
    item.set_checked(true);
    assert!(item.is_checked());
}

#[test]
fn control_id_and_text_follow_the_kind() {
    let cases = vec![
        (plain("a", "Plain"), "a", "Plain"),
        (icon("b", "Icon"), "b", "Icon"),
        (separate("c", "Separate", true), "c", "Separate"),
        (checkbox("d", "Box", false, Group::Display), "d", "Box"),
        (radio("e", "Radio", true, Group::Colour), "e", "Radio"),
    ];
    for (control, id, text) in cases {
        assert_eq!(control.id().as_str(), id);
        assert_eq!(control.text(), text);
    }
}

#[test]
fn control_casts_match_the_kind() {
    let control = plain("a", "Plain");
    assert_eq!(control.as_menu_item().map(|item| item.text()), Some("Plain".to_string()));
    assert!(control.as_icon_menu().is_none());
    assert!(control.as_check_menu().is_none());
    assert!(control.group().is_none());

    let control = icon("b", "Icon");
    assert!(control.as_menu_item().is_none());
    assert_eq!(control.as_icon_menu().map(|item| item.text()), Some("Icon".to_string()));
    assert!(control.as_check_menu().is_none());
    assert!(control.group().is_none());

    let control = separate("c", "Separate", true);
    assert!(control.as_menu_item().is_none());
    assert!(control.as_icon_menu().is_none());
    assert_eq!(control.as_check_menu().map(|item| item.is_checked()), Some(true));
    assert!(control.group().is_none());

    let control = checkbox("d", "Box", false, Group::Display);
    assert_eq!(control.as_check_menu().map(|item| item.is_checked()), Some(false));
    assert_eq!(control.group(), Some(&Group::Display));

    let control = radio("e", "Radio", true, Group::Colour);
    assert_eq!(control.as_check_menu().map(|item| item.id().clone()), Some(MenuId::new("e")));
    assert_eq!(control.group(), Some(&Group::Colour));
}

#[test]
fn control_set_checked_keeps_kind_and_group() {
    let mut control = radio("e", "Radio", false, Group::Colour);
    control.set_checked(true);
    assert_eq!(control.as_check_menu().map(|item| item.is_checked()), Some(true));
    assert_eq!(control.group(), Some(&Group::Colour));
    assert!(matches!(
        control,
        MenuControl::CheckMenu(CheckMenuKind::Radio(_, None, Group::Colour))
    ));

    let mut control = plain("a", "Plain");
    control.set_checked(true);
    assert!(control.as_check_menu().is_none());
    assert_eq!(control.text(), "Plain");
}

#[test]
fn new_manager_holds_nothing() {
    let manager: MenuManager<Group> = MenuManager::new();
    assert!(manager.get_menu_item_from_id(&MenuId::new("a")).is_none());
    assert!(manager.get_menu_item_from_id(&MenuId::new("")).is_none());
    assert!(manager.get_check_items_from_grouped(&Group::Colour).is_none());
}

#[test]
fn default_manager_holds_nothing() {
    let manager: MenuManager<Group> = MenuManager::default();
    assert!(manager.get_menu_item_from_id(&MenuId::new("a")).is_none());
    assert!(manager.get_check_items_from_grouped(&Group::Display).is_none());
}

#[test]
fn insert_then_lookup_finds_each_kind() {
    let mut manager = MenuManager::new();
    manager.insert(plain("a", "Plain"));
    manager.insert(icon("b", "Icon"));
    manager.insert(separate("c", "Separate", true));
    manager.insert(checkbox("d", "Box", false, Group::Display));
    manager.insert(radio("e", "Radio", true, Group::Colour));

    let found = manager.get_menu_item_from_id(&MenuId::new("a")).unwrap();
    assert!(found.as_menu_item().is_some());
    assert_eq!(found.text(), "Plain");
    let found = manager.get_menu_item_from_id(&MenuId::new("b")).unwrap();
    assert!(found.as_icon_menu().is_some());
    let found = manager.get_menu_item_from_id(&MenuId::new("c")).unwrap();
    assert!(matches!(found, MenuControl::CheckMenu(CheckMenuKind::Separate(_))));
    let found = manager.get_menu_item_from_id(&MenuId::new("d")).unwrap();
    assert!(matches!(found, MenuControl::CheckMenu(CheckMenuKind::CheckBox(_, Group::Display))));
    let found = manager.get_menu_item_from_id(&MenuId::new("e")).unwrap();
    assert!(matches!(found, MenuControl::CheckMenu(CheckMenuKind::Radio(_, None, Group::Colour))));
    assert!(manager.get_menu_item_from_id(&MenuId::new("f")).is_none());
}

#[test]
fn second_insert_under_an_identifier_wins() {
    let mut manager = MenuManager::new();
    manager.insert(plain("a", "First"));
    manager.insert(plain("b", "Other"));
    manager.insert(plain("a", "Second"));
    let found = manager.get_menu_item_from_id(&MenuId::new("a")).unwrap();
    assert_eq!(found.text(), "Second");
    let found = manager.get_menu_item_from_id(&MenuId::new("b")).unwrap();
    assert_eq!(found.text(), "Other");
}

#[test]
fn second_insert_may_change_the_kind() {
    let mut manager = MenuManager::new();
    manager.insert(checkbox("a", "Box", true, Group::Display));
    assert_eq!(member_ids(&manager, Group::Display), vec!["a".to_string()]);
    manager.insert(icon("a", "Icon"));
    let found = manager.get_menu_item_from_id(&MenuId::new("a")).unwrap();
    assert!(found.as_icon_menu().is_some());
    assert!(found.as_check_menu().is_none());
    assert!(manager.get_check_items_from_grouped(&Group::Display).is_none());
}

#[test]
fn second_insert_may_change_the_group() {
    let mut manager = MenuManager::new();
    manager.insert(radio("a", "Radio", true, Group::Colour));
    manager.insert(radio("a", "Radio", false, Group::Language));
    assert!(manager.get_check_items_from_grouped(&Group::Colour).is_none());
    let members = manager.get_check_items_from_grouped(&Group::Language).unwrap();
    assert_eq!(members.len(), 1);
    assert_eq!(members[0].id(), &MenuId::new("a"));
    assert!(!members[0].is_checked());
}

#[test]
fn group_lists_its_members_once_each() {
    let mut manager = MenuManager::new();
    manager.insert(radio("red", "Red", true, Group::Colour));
    manager.insert(plain("quit", "Quit"));
    manager.insert(radio("green", "Green", false, Group::Colour));
    manager.insert(checkbox("toolbar", "Toolbar", true, Group::Display));
    manager.insert(separate("autosave", "Auto-save", true));
    manager.insert(radio("blue", "Blue", false, Group::Colour));
    manager.insert(radio("green", "Green again", false, Group::Colour));

    assert_eq!(
        member_ids(&manager, Group::Colour),
        vec!["blue".to_string(), "green".to_string(), "red".to_string()]
    );
    assert_eq!(member_ids(&manager, Group::Display), vec!["toolbar".to_string()]);
    assert!(manager.get_check_items_from_grouped(&Group::Language).is_none());

    let members = manager.get_check_items_from_grouped(&Group::Colour).unwrap();
    let green = members.iter().find(|item| item.id().as_str() == "green").unwrap();
    assert_eq!(green.text(), "Green again");
    let red = members.iter().find(|item| item.id().as_str() == "red").unwrap();
    assert!(red.is_checked());
}

#[test]
fn standalone_and_plain_controls_are_in_no_group() {
    let mut manager = MenuManager::new();
    manager.insert(separate("autosave", "Auto-save", true));
    manager.insert(plain("quit", "Quit"));
    manager.insert(icon("about", "About"));
    assert!(manager.get_check_items_from_grouped(&Group::Colour).is_none());
    assert!(manager.get_check_items_from_grouped(&Group::Language).is_none());
    assert!(manager.get_check_items_from_grouped(&Group::Display).is_none());
}

#[test]
fn remove_unknown_identifier_changes_nothing() {
    let mut manager = MenuManager::new();
    manager.remove(&MenuId::new("ghost"));
    manager.insert(radio("red", "Red", true, Group::Colour));
    manager.insert(plain("quit", "Quit"));
    manager.remove(&MenuId::new("ghost"));
    assert!(manager.get_menu_item_from_id(&MenuId::new("red")).is_some());
    assert!(manager.get_menu_item_from_id(&MenuId::new("quit")).is_some());
    assert_eq!(member_ids(&manager, Group::Colour), vec!["red".to_string()]);
}

#[test]
fn remove_cleans_lookup_and_group() {
    let mut manager = MenuManager::new();
    manager.insert(radio("red", "Red", true, Group::Colour));
    manager.insert(radio("green", "Green", false, Group::Colour));
    manager.insert(checkbox("toolbar", "Toolbar", true, Group::Display));
    manager.remove(&MenuId::new("red"));
    assert!(manager.get_menu_item_from_id(&MenuId::new("red")).is_none());
    assert_eq!(member_ids(&manager, Group::Colour), vec!["green".to_string()]);
    assert_eq!(member_ids(&manager, Group::Display), vec!["toolbar".to_string()]);
    assert!(manager.get_menu_item_from_id(&MenuId::new("green")).is_some());
}

#[test]
fn remove_last_member_leaves_group_absent() {
    let mut manager = MenuManager::new();
    manager.insert(checkbox("toolbar", "Toolbar", true, Group::Display));
    manager.remove(&MenuId::new("toolbar"));
    assert!(manager.get_check_items_from_grouped(&Group::Display).is_none());
    assert!(manager.get_menu_item_from_id(&MenuId::new("toolbar")).is_none());
}

#[test]
fn remove_then_insert_registers_again() {
    let mut manager = MenuManager::new();
    manager.insert(plain("a", "First"));
    manager.insert(plain("b", "Second"));
    manager.insert(plain("c", "Third"));
    manager.remove(&MenuId::new("a"));
    manager.insert(plain("a", "Again"));
    assert_eq!(manager.get_menu_item_from_id(&MenuId::new("a")).unwrap().text(), "Again");
    assert_eq!(manager.get_menu_item_from_id(&MenuId::new("b")).unwrap().text(), "Second");
    assert_eq!(manager.get_menu_item_from_id(&MenuId::new("c")).unwrap().text(), "Third");
}

#[test]
fn set_checked_records_the_mark() {
    let mut manager = MenuManager::new();
    manager.insert(radio("red", "Red", false, Group::Colour));
    manager.insert(radio("green", "Green", false, Group::Colour));
    assert!(manager.set_checked(&MenuId::new("red"), true));
    let red = manager.get_menu_item_from_id(&MenuId::new("red")).unwrap();
    assert_eq!(red.as_check_menu().map(|item| item.is_checked()), Some(true));
    assert_eq!(red.text(), "Red");
    let green = manager.get_menu_item_from_id(&MenuId::new("green")).unwrap();
    assert_eq!(green.as_check_menu().map(|item| item.is_checked()), Some(false));
    assert!(manager.set_checked(&MenuId::new("red"), false));
    let red = manager.get_menu_item_from_id(&MenuId::new("red")).unwrap();
    assert_eq!(red.as_check_menu().map(|item| item.is_checked()), Some(false));
}

#[test]
fn set_checked_is_seen_through_the_group() {
    let mut manager = MenuManager::new();
    manager.insert(checkbox("toolbar", "Toolbar", false, Group::Display));
    assert!(manager.set_checked(&MenuId::new("toolbar"), true));
    let members = manager.get_check_items_from_grouped(&Group::Display).unwrap();
    assert_eq!(members.len(), 1);
    assert!(members[0].is_checked());
}

#[test]
fn set_checked_finds_only_checkable_controls() {
    let mut manager = MenuManager::new();
    manager.insert(plain("quit", "Quit"));
    manager.insert(icon("about", "About"));
    assert!(!manager.set_checked(&MenuId::new("quit"), true));
    assert!(!manager.set_checked(&MenuId::new("about"), true));
    assert!(!manager.set_checked(&MenuId::new("ghost"), true));
    assert!(manager.get_menu_item_from_id(&MenuId::new("quit")).unwrap().as_menu_item().is_some());
    assert!(manager.get_menu_item_from_id(&MenuId::new("ghost")).is_none());
}

#[test]
fn identifiers_differ_by_any_character() {
    let mut manager = MenuManager::new();
    manager.insert(plain("a", "Lower"));
    manager.insert(plain("A", "Upper"));
    manager.insert(plain("a ", "Padded"));
    manager.insert(plain("", "Empty"));
    assert_eq!(manager.get_menu_item_from_id(&MenuId::new("a")).unwrap().text(), "Lower");
    assert_eq!(manager.get_menu_item_from_id(&MenuId::new("A")).unwrap().text(), "Upper");
    assert_eq!(manager.get_menu_item_from_id(&MenuId::new("a ")).unwrap().text(), "Padded");
    assert_eq!(manager.get_menu_item_from_id(&MenuId::new("")).unwrap().text(), "Empty");
}

#[test]
fn clones_keep_what_the_control_holds() {
    let id = MenuId::new("wrap");
    assert_eq!(id.clone(), id);

    let mut item = CheckMenuItem::new(MenuId::new("wrap"), "Wrap lines", true);
    let copy = item.clone();
    item.set_checked(false);
    assert_eq!(copy.id(), &MenuId::new("wrap"));
    assert_eq!(copy.text(), "Wrap lines");
    assert!(copy.is_checked());
    assert!(!item.is_checked());

    let control = MenuControl::CheckMenu(CheckMenuKind::Radio(
        CheckMenuItem::new(MenuId::new("red"), "Red", true),
        Some(MenuId::new("green")),
        Group::Colour,
    ));
    let copy = control.clone();
    match copy {
        MenuControl::CheckMenu(CheckMenuKind::Radio(item, fallback, group)) => {
            assert_eq!(item.id(), &MenuId::new("red"));
            assert_eq!(item.text(), "Red");
            assert!(item.is_checked());
            assert_eq!(fallback, Some(MenuId::new("green")));
            assert_eq!(group, Group::Colour);
        }
        _ => panic!("a radio member clones as a radio member"),
    }

    let copy = plain("quit", "Quit").clone();
    assert_eq!(copy.as_menu_item().map(|item| item.text()), Some("Quit".to_string()));
    let copy = icon("about", "About").clone();
    assert_eq!(copy.as_icon_menu().map(|item| item.text()), Some("About".to_string()));
    let copy = checkbox("toolbar", "Toolbar", false, Group::Display).clone();
    assert_eq!(copy.group(), Some(&Group::Display));
    assert_eq!(copy.as_check_menu().map(|item| item.is_checked()), Some(false));
    let copy = separate("autosave", "Auto-save", true).clone();
    assert!(copy.group().is_none());
    assert_eq!(copy.as_check_menu().map(|item| item.is_checked()), Some(true));
}

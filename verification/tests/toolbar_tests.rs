use gridix::tab_bar::{QueryTabBar, TabBarActions, TabBarFocusTransfer, TabBarKeys};
use gridix::toolbar::{
    move_marker, DropdownState, MenuKeys, ThemeComboState, ThemePreset, Toolbar, ToolbarActions,
    ToolbarFocusTransfer, ToolbarKeys, TOOLBAR_ITEMS,
};

fn no_menu_keys() -> MenuKeys {
    MenuKeys { down: false, up: false, confirm: false, cancel: false, first: false, last: false }
}

fn no_toolbar_keys() -> ToolbarKeys {
    ToolbarKeys { left: false, right: false, down: false, enter: false, escape: false }
}

fn no_tab_keys() -> TabBarKeys {
    TabBarKeys { left: false, right: false, down: false, up: false, enter: false, d: false, escape: false }
}

#[test]
fn themes_split_into_night_and_day() {
    let dark = ThemePreset::dark_themes();
    let light = ThemePreset::light_themes();
    assert_eq!(dark.len(), 13);
    assert_eq!(light.len(), 6);
    assert!(dark.iter().all(|t| t.is_dark()));
    assert!(light.iter().all(|t| !t.is_dark()));
    assert_eq!(dark[0], ThemePreset::TokyoNight);
    assert_eq!(dark[12], ThemePreset::GithubDark);
    assert_eq!(light[0], ThemePreset::TokyoNightLight);
    assert_eq!(light[5], ThemePreset::GithubLight);
    assert_eq!(ThemePreset::index_in(&dark, ThemePreset::Nord), 9);
    assert_eq!(ThemePreset::index_in(&dark, ThemePreset::OneLight), 0);
    assert_eq!(ThemePreset::index_in(&light, ThemePreset::OneLight), 2);
    assert_eq!(ThemePreset::index_in(&Vec::new(), ThemePreset::Nord), 0);
}

#[test]
fn the_marker_moves_inside_the_list() {
    assert_eq!(move_marker(&MenuKeys { down: true, ..no_menu_keys() }, 0, 4), 1);
    assert_eq!(move_marker(&MenuKeys { down: true, ..no_menu_keys() }, 3, 4), 3);
    assert_eq!(move_marker(&MenuKeys { down: true, ..no_menu_keys() }, usize::MAX, 4), usize::MAX);
    assert_eq!(move_marker(&MenuKeys { up: true, ..no_menu_keys() }, 3, 4), 2);
    assert_eq!(move_marker(&MenuKeys { up: true, ..no_menu_keys() }, 0, 4), 0);
    assert_eq!(move_marker(&MenuKeys { up: true, down: true, ..no_menu_keys() }, 2, 4), 1);
    assert_eq!(move_marker(&MenuKeys { up: true, down: true, ..no_menu_keys() }, 0, 4), 1);
    assert_eq!(move_marker(&MenuKeys { first: true, down: true, ..no_menu_keys() }, 2, 4), 0);
    assert_eq!(move_marker(&MenuKeys { last: true, first: true, ..no_menu_keys() }, 2, 4), 3);
    assert_eq!(move_marker(&MenuKeys { last: true, ..no_menu_keys() }, 2, 0), 0);
    assert_eq!(move_marker(&no_menu_keys(), 2, 4), 2);
}

#[test]
fn menus_open_close_and_take_entries() {
    let mut menu = DropdownState::default();
    assert_eq!(menu, DropdownState { is_open: false, selected_index: 0 });
    menu.selected_index = 3;
    menu.toggle();
    assert_eq!(menu, DropdownState { is_open: true, selected_index: 0 });
    assert_eq!(menu.handle_keys(&MenuKeys { down: true, ..no_menu_keys() }, 4), None);
    assert_eq!(menu, DropdownState { is_open: true, selected_index: 1 });
    assert_eq!(menu.handle_keys(&MenuKeys { down: true, confirm: true, ..no_menu_keys() }, 4), Some(2));
    assert!(!menu.is_open);
    menu.toggle();
    assert_eq!(menu.handle_keys(&MenuKeys { cancel: true, ..no_menu_keys() }, 4), None);
    assert!(!menu.is_open);
    menu.toggle();
    menu.toggle();
    assert!(!menu.is_open);

    let mut actions = ToolbarActions::default();
    Toolbar::take_action(0, false, &mut actions);
    assert!(!actions.export);
    Toolbar::take_action(0, true, &mut actions);
    assert!(actions.export && !actions.import);
    Toolbar::take_action(1, false, &mut actions);
    Toolbar::take_action(2, false, &mut actions);
    Toolbar::take_action(3, false, &mut actions);
    Toolbar::take_action(4, true, &mut actions);
    assert!(actions.import && actions.toggle_er_diagram && actions.show_history);
    assert!(!actions.create_table && !actions.show_help);
    let mut actions = ToolbarActions::default();
    Toolbar::take_creation(1, &mut actions);
    assert!(!actions.create_table && actions.create_database && !actions.create_user);
    Toolbar::take_creation(0, &mut actions);
    Toolbar::take_creation(2, &mut actions);
    Toolbar::take_creation(3, &mut actions);
    assert!(actions.create_table && actions.create_user && !actions.export);
}

#[test]
fn the_list_of_themes_follows_the_theme_in_use_while_closed() {
    let mut combo = ThemeComboState::default();
    combo.begin_frame(false, 4, false);
    assert_eq!(combo, ThemeComboState { selected_index: 4, is_open: false });
    combo.begin_frame(true, 7, false);
    assert_eq!(combo, ThemeComboState { selected_index: 4, is_open: true });
    combo.begin_frame(false, 7, false);
    assert_eq!(combo, ThemeComboState { selected_index: 4, is_open: true });
    assert_eq!(combo.handle_keys(&MenuKeys { last: true, ..no_menu_keys() }, 13), None);
    assert_eq!(combo.selected_index, 12);
    assert_eq!(combo.handle_keys(&MenuKeys { up: true, confirm: true, ..no_menu_keys() }, 13), Some(11));
    assert!(!combo.is_open);
    combo.begin_frame(false, 2, true);
    assert_eq!(combo, ThemeComboState { selected_index: 2, is_open: true });
    combo.begin_frame(false, 5, true);
    assert_eq!(combo, ThemeComboState { selected_index: 2, is_open: false });
    combo.begin_frame(true, 5, true);
    assert_eq!(combo, ThemeComboState { selected_index: 2, is_open: false });
}

#[test]
fn toolbar_keys() {
    assert_eq!(TOOLBAR_ITEMS, 7);
    let mut index = 0;
    let mut actions = ToolbarActions::default();
    Toolbar::handle_keyboard(&ToolbarKeys { left: true, ..no_toolbar_keys() }, &mut index, &mut actions);
    assert_eq!(index, 0);
    Toolbar::handle_keyboard(&ToolbarKeys { right: true, enter: true, ..no_toolbar_keys() }, &mut index, &mut actions);
    assert_eq!(index, 1);
    assert!(actions.toggle_editor && !actions.toggle_sidebar);
    for _ in 0..9 {
        Toolbar::handle_keyboard(&ToolbarKeys { right: true, ..no_toolbar_keys() }, &mut index, &mut actions);
    }
    assert_eq!(index, 6);
    Toolbar::handle_keyboard(&ToolbarKeys { left: true, right: true, enter: true, ..no_toolbar_keys() }, &mut index, &mut actions);
    assert_eq!(index, 6);
    assert!(actions.show_help);
    assert!(actions.focus_transfer.is_none());

    for (place, check) in [(0usize, 0u8), (2, 2), (3, 9), (4, 9), (5, 5)] {
        let mut index = place;
        let mut actions = ToolbarActions::default();
        Toolbar::handle_keyboard(&ToolbarKeys { enter: true, down: true, ..no_toolbar_keys() }, &mut index, &mut actions);
        assert_eq!(actions.toggle_sidebar, check == 0);
        assert_eq!(actions.refresh_tables, check == 2);
        assert_eq!(actions.show_keybindings, check == 5);
        assert!(!actions.toggle_editor && !actions.show_help);
        assert_eq!(actions.focus_transfer, Some(ToolbarFocusTransfer::ToQueryTabs));
    }
    let mut index = 9;
    let mut actions = ToolbarActions::default();
    Toolbar::handle_keyboard(&ToolbarKeys { escape: true, enter: true, left: true, ..no_toolbar_keys() }, &mut index, &mut actions);
    assert_eq!(index, 8);
    assert_eq!(actions.focus_transfer, Some(ToolbarFocusTransfer::ToQueryTabs));
    assert!(!actions.show_help);
    assert_eq!(Toolbar::move_index(&ToolbarKeys { right: true, ..no_toolbar_keys() }, 9), 9);
}

#[test]
fn tab_bar_keys() {
    let none = TabBarActions::default();
    let mut actions = none;
    QueryTabBar::handle_keyboard(&TabBarKeys { right: true, d: true, down: true, ..no_tab_keys() }, 0, 0, &mut actions);
    assert_eq!(actions, none);

    QueryTabBar::handle_keyboard(&TabBarKeys { left: true, ..no_tab_keys() }, 3, 0, &mut actions);
    assert_eq!(actions, none);
    QueryTabBar::handle_keyboard(&TabBarKeys { left: true, ..no_tab_keys() }, 3, 2, &mut actions);
    assert_eq!(actions.switch_to, Some(1));
    let mut actions = none;
    QueryTabBar::handle_keyboard(&TabBarKeys { right: true, ..no_tab_keys() }, 3, 2, &mut actions);
    assert_eq!(actions, none);
    QueryTabBar::handle_keyboard(&TabBarKeys { right: true, left: true, ..no_tab_keys() }, 3, 1, &mut actions);
    assert_eq!(actions.switch_to, Some(2));

    let mut actions = none;
    QueryTabBar::handle_keyboard(&TabBarKeys { down: true, up: true, ..no_tab_keys() }, 3, 1, &mut actions);
    assert_eq!(actions.focus_transfer, Some(TabBarFocusTransfer::ToToolbar));
    QueryTabBar::handle_keyboard(&TabBarKeys { up: true, enter: true, ..no_tab_keys() }, 3, 1, &mut actions);
    assert_eq!(actions.focus_transfer, Some(TabBarFocusTransfer::ToDataGrid));
    let mut actions = none;
    QueryTabBar::handle_keyboard(&TabBarKeys { up: true, escape: true, ..no_tab_keys() }, 3, 1, &mut actions);
    assert_eq!(actions.focus_transfer, Some(TabBarFocusTransfer::ToDataGrid));
    let mut actions = none;
    QueryTabBar::handle_keyboard(&TabBarKeys { down: true, ..no_tab_keys() }, 1, 0, &mut actions);
    assert_eq!(actions.focus_transfer, Some(TabBarFocusTransfer::ToDataGrid));

    let mut actions = none;
    QueryTabBar::handle_keyboard(&TabBarKeys { d: true, ..no_tab_keys() }, 1, 0, &mut actions);
    assert_eq!(actions, none);
    QueryTabBar::handle_keyboard(&TabBarKeys { d: true, ..no_tab_keys() }, 2, 1, &mut actions);
    assert_eq!(actions.close_tab, Some(1));
    assert!(!actions.new_tab && !actions.close_others && !actions.close_right);
}

#[test]
fn each_place_of_the_toolbar_asks_for_its_own_thing() {
    let asked = |index: usize| {
        let mut actions = ToolbarActions::default();
        Toolbar::activate(index, &mut actions);
        assert!(actions.focus_transfer.is_none() && actions.theme_changed.is_none());
        assert!(!actions.export && !actions.import && !actions.show_history);
        assert!(!actions.create_table && !actions.toggle_er_diagram && !actions.show_about);
        (
            actions.toggle_sidebar,
            actions.toggle_editor,
            actions.refresh_tables,
            actions.show_keybindings,
            actions.show_help,
        )
    };
    assert_eq!(asked(0), (true, false, false, false, false));
    assert_eq!(asked(1), (false, true, false, false, false));
    assert_eq!(asked(2), (false, false, true, false, false));
    assert_eq!(asked(3), (false, false, false, false, false));
    assert_eq!(asked(4), (false, false, false, false, false));
    assert_eq!(asked(5), (false, false, false, true, false));
    assert_eq!(asked(6), (false, false, false, false, true));
    assert_eq!(asked(7), (false, false, false, false, false));
    let mut kept = ToolbarActions::default();
    kept.show_help = true;
    Toolbar::activate(0, &mut kept);
    assert!(kept.show_help && kept.toggle_sidebar);
}

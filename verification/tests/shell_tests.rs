use gridix::focus::{cycle, FocusArea, SidebarSection};
use gridix::shell::{
    section_for, Chord, FocusTransfer, Key, PanelSwitches, Request, Surroundings, Warning,
    Workbench,
};
use gridix::sidebar::{SidebarActions, SidebarFocusTransfer};
use gridix::sql_editor::SqlEditorActions;
use gridix::tab_bar::TabBarFocusTransfer;
use gridix::toolbar::ToolbarActions;

fn ctrl(key: Key) -> Chord {
    Chord { key, ctrl: true, shift: false, alt: false }
}

fn ctrl_shift(key: Key) -> Chord {
    Chord { key, ctrl: true, shift: true, alt: false }
}

fn plain(key: Key) -> Chord {
    Chord { key, ctrl: false, shift: false, alt: false }
}

fn quiet() -> Surroundings {
    Surroundings {
        dialog_open: false,
        connected: false,
        sqlite: false,
        database_selected: false,
        has_result: false,
        has_column: false,
    }
}

fn after(w: Workbench, chord: Chord, around: Surroundings) -> (Workbench, Request) {
    let mut w = w;
    let request = w.handle_keyboard_shortcut(&chord, &around);
    (w, request)
}

#[test]
fn the_window_starts_with_the_keyboard_in_the_grid() {
    let w = Workbench::new();
    assert_eq!(w, Workbench::default());
    assert_eq!(w.focus_area, FocusArea::DataGrid);
    assert_eq!(w.sidebar_section, SidebarSection::Connections);
    assert!(w.grid_focused);
    assert!(!w.show_sidebar && !w.show_sql_editor && !w.show_er_diagram);
    assert!(!w.has_modal_dialog_open());
    assert_eq!(
        w.panels,
        PanelSwitches { connections: true, filters: true, triggers: true, routines: true }
    );
    assert_eq!(FocusArea::default(), FocusArea::DataGrid);
    assert_eq!(SidebarSection::default(), SidebarSection::Connections);
}

#[test]
fn every_dialog_counts_as_modal() {
    let w = Workbench::new();
    let with = [
        Workbench { show_connection_dialog: true, ..w },
        Workbench { show_export_dialog: true, ..w },
        Workbench { show_import_dialog: true, ..w },
        Workbench { show_delete_confirm: true, ..w },
        Workbench { show_help: true, ..w },
        Workbench { show_about: true, ..w },
        Workbench { show_history_panel: true, ..w },
        Workbench { show_ddl_dialog: true, ..w },
        Workbench { show_create_db_dialog: true, ..w },
        Workbench { show_create_user_dialog: true, ..w },
        Workbench { show_keybindings_dialog: true, ..w },
    ];
    for state in with {
        assert!(state.has_modal_dialog_open());
    }
    assert!(!Workbench { show_sidebar: true, show_er_diagram: true, ..w }.has_modal_dialog_open());
}

#[test]
fn tab_walks_the_ring_of_shown_areas() {
    assert_eq!(cycle(FocusArea::DataGrid, true, true, false), FocusArea::SqlEditor);
    assert_eq!(cycle(FocusArea::SqlEditor, true, true, false), FocusArea::Sidebar);
    assert_eq!(cycle(FocusArea::Sidebar, true, true, false), FocusArea::DataGrid);
    assert_eq!(cycle(FocusArea::Sidebar, true, true, true), FocusArea::SqlEditor);
    assert_eq!(cycle(FocusArea::DataGrid, true, true, true), FocusArea::Sidebar);
    assert_eq!(cycle(FocusArea::DataGrid, true, false, false), FocusArea::Sidebar);
    assert_eq!(cycle(FocusArea::Sidebar, true, false, true), FocusArea::DataGrid);
    assert_eq!(cycle(FocusArea::DataGrid, false, true, false), FocusArea::SqlEditor);
    assert_eq!(cycle(FocusArea::DataGrid, false, true, true), FocusArea::SqlEditor);
    assert_eq!(cycle(FocusArea::DataGrid, false, false, false), FocusArea::DataGrid);
    assert_eq!(cycle(FocusArea::Toolbar, false, false, true), FocusArea::Toolbar);
    assert_eq!(cycle(FocusArea::Toolbar, true, true, false), FocusArea::DataGrid);
    assert_eq!(cycle(FocusArea::QueryTabs, true, true, true), FocusArea::SqlEditor);
    assert_eq!(cycle(FocusArea::SqlEditor, true, false, false), FocusArea::DataGrid);
    assert_eq!(cycle(FocusArea::Sidebar, false, true, false), FocusArea::SqlEditor);

    let mut w = Workbench { show_sidebar: true, show_sql_editor: true, ..Workbench::new() };
    w.cycle_focus(false);
    assert_eq!((w.focus_area, w.grid_focused, w.focus_sql_editor), (FocusArea::SqlEditor, false, true));
    w.cycle_focus(false);
    assert_eq!((w.focus_area, w.grid_focused, w.focus_sql_editor), (FocusArea::Sidebar, false, false));
    w.cycle_focus(true);
    w.cycle_focus(true);
    assert_eq!((w.focus_area, w.grid_focused, w.focus_sql_editor), (FocusArea::DataGrid, true, false));
    let mut alone = Workbench { focus_area: FocusArea::Toolbar, grid_focused: false, ..Workbench::new() };
    alone.cycle_focus(false);
    assert_eq!(alone.focus_area, FocusArea::Toolbar);
}

#[test]
fn f1_works_even_with_a_dialog_and_nothing_else_does() {
    let w = Workbench { show_export_dialog: true, ..Workbench::new() };
    let around = Surroundings { dialog_open: true, connected: true, has_result: true, ..quiet() };
    let (next, request) = after(w, plain(Key::F1), around);
    assert_eq!(next, Workbench { show_help: true, ..w });
    assert_eq!(request, Request::Idle);
    for chord in [ctrl(Key::N), ctrl(Key::B), plain(Key::Escape), plain(Key::F5), ctrl(Key::Num1), plain(Key::Tab), ctrl(Key::I)] {
        assert_eq!(after(w, chord, around), (w, Request::Idle));
    }
    let (closed, _) = after(next, ctrl_shift(Key::F1), around);
    assert_eq!(closed, w);
}

#[test]
fn shortcuts_that_ask_the_owner() {
    let w = Workbench::new();
    let around = Surroundings { connected: true, database_selected: true, has_result: true, has_column: true, ..quiet() };
    assert_eq!(after(w, plain(Key::F5), around), (w, Request::Reconnect));
    assert_eq!(after(w, plain(Key::F5), quiet()), (w, Request::Idle));
    assert_eq!(after(w, ctrl(Key::I), around), (w, Request::Import));
    assert_eq!(after(w, ctrl(Key::L), around), (w, Request::ClearCommandLine));
    assert_eq!(after(w, ctrl(Key::K), around), (w, Request::ClearSearch));
    assert_eq!(after(w, ctrl(Key::F), around), (w, Request::AddFilter));
    assert_eq!(after(w, ctrl(Key::F), quiet()), (w, Request::Idle));
    assert_eq!(after(w, ctrl_shift(Key::F), quiet()), (w, Request::ClearFilters));
    assert_eq!(after(w, ctrl(Key::S), around), (w, Request::Save));
    assert_eq!(after(w, ctrl(Key::G), around), (w, Request::OpenGoto));
    assert_eq!(after(w, ctrl(Key::Tab), around), (w, Request::NextTab));
    assert_eq!(after(w, ctrl_shift(Key::Tab), around), (w, Request::PrevTab));
    assert_eq!(after(w, ctrl(Key::W), around), (w, Request::CloseActiveTab));
    assert_eq!(after(w, plain(Key::S), around), (w, Request::Idle));
    assert_eq!(after(w, plain(Key::K), around), (w, Request::Idle));
    assert_eq!(after(w, ctrl(Key::T), around), (w, Request::Idle));
    assert_eq!(after(w, ctrl(Key::U), around), (w, Request::Idle));
}

#[test]
fn shortcuts_that_open_dialogs() {
    let w = Workbench::new();
    let around = Surroundings { connected: true, database_selected: true, has_result: true, ..quiet() };
    assert_eq!(after(w, ctrl(Key::N), quiet()), (Workbench { show_connection_dialog: true, ..w }, Request::Idle));
    assert_eq!(after(w, ctrl_shift(Key::N), around), (Workbench { show_ddl_dialog: true, ..w }, Request::OpenCreateTable));
    assert_eq!(after(w, ctrl_shift(Key::N), quiet()), (w, Request::Idle));
    assert_eq!(
        after(w, ctrl_shift(Key::N), Surroundings { connected: true, ..quiet() }),
        (w, Request::Idle)
    );
    assert_eq!(after(w, ctrl_shift(Key::D), quiet()), (Workbench { show_create_db_dialog: true, ..w }, Request::OpenCreateDatabase));
    assert_eq!(after(w, ctrl(Key::D), quiet()), (Workbench { pending_toggle_dark_mode: true, ..w }, Request::Idle));
    assert_eq!(after(w, ctrl_shift(Key::U), quiet()), (w, Request::Warn(Warning::NotConnected)));
    assert_eq!(
        after(w, ctrl_shift(Key::U), Surroundings { connected: true, sqlite: true, ..quiet() }),
        (w, Request::Warn(Warning::NoUsersInSqlite))
    );
    assert_eq!(after(w, ctrl_shift(Key::U), around), (Workbench { show_create_user_dialog: true, ..w }, Request::OpenCreateUser));
    assert_eq!(after(w, ctrl(Key::E), around), (Workbench { show_export_dialog: true, ..w }, Request::ResetExportStatus));
    assert_eq!(after(w, ctrl(Key::E), quiet()), (w, Request::Idle));
    assert_eq!(after(w, ctrl(Key::H), quiet()), (Workbench { show_history_panel: true, ..w }, Request::Idle));
    let alt_k = Chord { key: Key::K, ctrl: false, shift: false, alt: true };
    assert_eq!(after(w, alt_k, quiet()), (Workbench { show_keybindings_dialog: true, ..w }, Request::OpenKeybindings));
    let ctrl_alt_k = Chord { key: Key::K, ctrl: true, shift: false, alt: true };
    assert_eq!(after(w, ctrl_alt_k, quiet()), (w, Request::ClearSearch));
}

#[test]
fn diagram_editor_and_sidebar_toggle() {
    let w = Workbench::new();
    let (open, request) = after(w, ctrl(Key::R), quiet());
    assert_eq!((open, request), (Workbench { show_er_diagram: true, ..w }, Request::DiagramOpened));
    assert_eq!(after(open, ctrl(Key::R), quiet()), (w, Request::DiagramClosed));
    assert_eq!(after(w, ctrl_shift(Key::R), quiet()), (w, Request::Idle));

    let (editor, _) = after(w, ctrl(Key::J), quiet());
    assert_eq!(
        editor,
        Workbench {
            show_sql_editor: true,
            focus_area: FocusArea::SqlEditor,
            focus_sql_editor: true,
            grid_focused: false,
            ..w
        }
    );
    let (closed, _) = after(editor, ctrl(Key::J), quiet());
    assert_eq!(closed, Workbench { focus_sql_editor: true, ..w });

    let (side, _) = after(w, ctrl(Key::B), quiet());
    assert_eq!(side, Workbench { show_sidebar: true, focus_area: FocusArea::Sidebar, grid_focused: false, ..w });
    assert_eq!(after(side, ctrl(Key::B), quiet()).0, w);
    let elsewhere = Workbench { focus_area: FocusArea::SqlEditor, ..side };
    assert_eq!(after(elsewhere, ctrl(Key::B), quiet()).0, Workbench { show_sidebar: false, ..elsewhere });
}

#[test]
fn tab_key_cycles_and_escape_closes_in_order() {
    let w = Workbench { show_sidebar: true, ..Workbench::new() };
    let (next, request) = after(w, plain(Key::Tab), quiet());
    assert_eq!(request, Request::Idle);
    assert_eq!((next.focus_area, next.grid_focused), (FocusArea::Sidebar, false));
    let shift_tab = Chord { key: Key::Tab, ctrl: false, shift: true, alt: false };
    assert_eq!(after(next, shift_tab, quiet()).0, w);
    let alt_tab = Chord { key: Key::Tab, ctrl: false, shift: false, alt: true };
    assert_eq!(after(w, alt_tab, quiet()), (w, Request::Idle));

    let all = Workbench { show_help: true, show_history_panel: true, show_er_diagram: true, ..w };
    let (a, _) = after(all, plain(Key::Escape), quiet());
    assert_eq!(a, Workbench { show_help: false, ..all });
    let (b, _) = after(a, plain(Key::Escape), quiet());
    assert_eq!(b, Workbench { show_history_panel: false, ..a });
    let (c, _) = after(b, plain(Key::Escape), quiet());
    assert_eq!(c, w);
    assert_eq!(after(c, plain(Key::Escape), quiet()).0, w);
}

#[test]
fn digits_lead_into_the_sidebar() {
    let w = Workbench { panels: PanelSwitches { connections: true, filters: false, triggers: true, routines: true }, ..Workbench::new() };
    let (filters, request) = after(w, ctrl(Key::Num4), quiet());
    assert_eq!(request, Request::Idle);
    assert_eq!(
        filters,
        Workbench {
            show_sidebar: true,
            focus_area: FocusArea::Sidebar,
            sidebar_section: SidebarSection::Filters,
            grid_focused: false,
            panels: PanelSwitches { filters: true, ..w.panels },
            ..w
        }
    );
    let (hidden, _) = after(filters, ctrl(Key::Num4), quiet());
    assert_eq!(hidden, Workbench { panels: PanelSwitches { filters: false, ..filters.panels }, ..filters });
    let (again, _) = after(hidden, ctrl(Key::Num4), quiet());
    assert_eq!(again, filters);

    let (tables, _) = after(filters, ctrl(Key::Num3), quiet());
    assert_eq!(tables.sidebar_section, SidebarSection::Tables);
    let (still, _) = after(tables, ctrl(Key::Num3), quiet());
    assert_eq!(still, tables);
    let (dbs, _) = after(Workbench { panels: PanelSwitches { connections: false, ..w.panels }, ..w }, ctrl(Key::Num2), quiet());
    assert!(dbs.panels.connections);
    assert_eq!(dbs.sidebar_section, SidebarSection::Databases);
    let (conn, _) = after(w, ctrl(Key::Num1), quiet());
    assert_eq!(after(conn, ctrl(Key::Num1), quiet()).0.panels.connections, false);
    assert_eq!(after(w, ctrl(Key::Num5), quiet()).0.sidebar_section, SidebarSection::Triggers);
    assert_eq!(after(w, ctrl(Key::Num6), quiet()).0.sidebar_section, SidebarSection::Routines);
    assert_eq!(after(w, ctrl_shift(Key::Num1), quiet()), (w, Request::Idle));
    assert_eq!(after(w, plain(Key::Num1), quiet()), (w, Request::Idle));
}

#[test]
fn shortcuts_looked_at_before_drawing() {
    let w = Workbench { focus_sql_editor: true, ..Workbench::new() };
    let busy = Surroundings { dialog_open: true, ..quiet() };
    let mut state = w;
    assert_eq!(state.handle_focus_shortcut(&ctrl_shift(Key::T), &busy), Request::OpenThemeSelector);
    assert_eq!(state.handle_focus_shortcut(&ctrl(Key::T), &busy), Request::Idle);
    assert_eq!(state.handle_focus_shortcut(&ctrl(Key::T), &quiet()), Request::NewTab);
    assert_eq!(state.handle_focus_shortcut(&ctrl(Key::D), &quiet()), Request::ToggleDarkMode);
    assert_eq!(state.handle_focus_shortcut(&ctrl_shift(Key::D), &quiet()), Request::Idle);
    assert_eq!(state.handle_focus_shortcut(&plain(Key::Num2), &quiet()), Request::Idle);
    assert_eq!(state.handle_focus_shortcut(&ctrl(Key::Num2), &busy), Request::Idle);
    assert_eq!(state, w);
    assert_eq!(
        state.handle_focus_shortcut(&ctrl_shift(Key::Num2), &quiet()),
        Request::AnnounceSection(SidebarSection::Databases)
    );
    assert_eq!(
        state,
        Workbench {
            show_sidebar: true,
            focus_area: FocusArea::Sidebar,
            sidebar_section: SidebarSection::Databases,
            grid_focused: false,
            focus_sql_editor: false,
            ..w
        }
    );
}

#[test]
fn keyboard_handed_over_between_parts() {
    let w = Workbench { focus_area: FocusArea::QueryTabs, grid_focused: false, ..Workbench::new() };
    let mut state = w;
    state.apply_tab_bar_transfer(TabBarFocusTransfer::ToToolbar);
    assert_eq!(state, Workbench { focus_area: FocusArea::Toolbar, ..w });
    state.apply_tab_bar_transfer(TabBarFocusTransfer::ToDataGrid);
    assert_eq!(state, Workbench { focus_area: FocusArea::DataGrid, grid_focused: true, ..w });

    state.apply_grid_transfer(FocusTransfer::ToSidebar);
    assert_eq!((state.focus_area, state.show_sidebar, state.grid_focused), (FocusArea::Sidebar, true, false));
    state.apply_grid_transfer(FocusTransfer::ToSqlEditor);
    assert_eq!((state.focus_area, state.show_sql_editor, state.focus_sql_editor), (FocusArea::SqlEditor, true, true));
    state.apply_grid_transfer(FocusTransfer::ToQueryTabs);
    assert_eq!((state.focus_area, state.grid_focused), (FocusArea::QueryTabs, false));
    state.grid_clicked();
    assert_eq!((state.focus_area, state.grid_focused), (FocusArea::DataGrid, true));
    state.grid_focused = false;
    state.grid_clicked();
    assert!(!state.grid_focused);

    let mut state = Workbench { panels: PanelSwitches { connections: true, filters: false, triggers: false, routines: false }, ..Workbench::new() };
    state.open_filter_panel();
    assert!(state.show_sidebar && state.panels.filters && !state.panels.triggers);
    assert_eq!((state.focus_area, state.sidebar_section), (FocusArea::Sidebar, SidebarSection::Filters));
    assert!(state.grid_focused);
    state.sync_grid_focus();
    assert!(!state.grid_focused);
    state.focus_area = FocusArea::DataGrid;
    state.sync_grid_focus();
    assert!(state.grid_focused);
    state.show_about = true;
    state.sync_grid_focus();
    assert!(!state.grid_focused);
}

#[test]
fn editor_sidebar_and_toolbar_actions_change_the_window() {
    let w = Workbench { focus_area: FocusArea::SqlEditor, grid_focused: false, show_sql_editor: true, ..Workbench::new() };
    let mut state = w;
    state.apply_editor_actions(&SqlEditorActions { focus_to_grid: true, ..SqlEditorActions::default() });
    assert_eq!((state.focus_area, state.grid_focused), (FocusArea::DataGrid, true));
    state.apply_editor_actions(&SqlEditorActions { request_focus: true, ..SqlEditorActions::default() });
    assert_eq!((state.focus_area, state.grid_focused, state.focus_sql_editor), (FocusArea::SqlEditor, false, true));
    state.focus_sql_editor = false;
    state.apply_editor_actions(&SqlEditorActions { request_focus: true, execute: true, ..SqlEditorActions::default() });
    assert!(!state.focus_sql_editor);
    state.apply_editor_actions(&SqlEditorActions { request_focus: true, focus_to_grid: true, ..SqlEditorActions::default() });
    assert_eq!((state.focus_area, state.grid_focused), (FocusArea::SqlEditor, false));

    let w = Workbench { show_sidebar: true, focus_area: FocusArea::Sidebar, grid_focused: false, ..Workbench::new() };
    let mut state = w;
    state.apply_sidebar_actions(&SidebarActions::default());
    assert_eq!(state, w);
    state.apply_sidebar_actions(&SidebarActions {
        section_change: Some(SidebarSection::Tables),
        focus_transfer: Some(SidebarFocusTransfer::ToDataGrid),
        ..SidebarActions::default()
    });
    assert_eq!((state.focus_area, state.grid_focused, state.sidebar_section), (FocusArea::DataGrid, true, SidebarSection::Tables));
    state.apply_sidebar_actions(&SidebarActions {
        section_change: Some(SidebarSection::Tables),
        connect: Some("local".to_string()),
        delete: Some("old".to_string()),
        ..SidebarActions::default()
    });
    assert_eq!(state.sidebar_section, SidebarSection::Databases);
    assert!(state.show_delete_confirm);
    assert!(!state.show_sql_editor);
    state.apply_sidebar_actions(&SidebarActions {
        show_routine_definition: Some("create function f()".to_string()),
        ..SidebarActions::default()
    });
    assert!(state.show_sql_editor && state.focus_sql_editor);

    let w = Workbench { show_sidebar: true, pending_toggle_dark_mode: true, ..Workbench::new() };
    let mut state = w;
    let around = Surroundings { connected: true, ..quiet() };
    assert!(state.apply_toolbar_actions(&ToolbarActions::default(), &around));
    assert_eq!(state, Workbench { pending_toggle_dark_mode: false, ..w });
    let actions = ToolbarActions {
        toggle_sidebar: true,
        toggle_editor: true,
        export: true,
        create_table: true,
        create_database: true,
        create_user: true,
        toggle_er_diagram: true,
        show_history: true,
        show_help: true,
        show_about: true,
        show_keybindings: true,
        toggle_dark_mode: true,
        ..ToolbarActions::default()
    };
    assert!(state.apply_toolbar_actions(&actions, &around));
    assert!(!state.show_sidebar && state.show_sql_editor && state.show_er_diagram);
    assert!(state.show_export_dialog && state.show_ddl_dialog && state.show_create_db_dialog);
    assert!(state.show_create_user_dialog && state.show_history_panel && state.show_help);
    assert!(state.show_about && state.show_keybindings_dialog);
    assert_eq!(state.focus_area, FocusArea::DataGrid);
    let mut state = Workbench::new();
    let only_user = ToolbarActions { create_user: true, ..ToolbarActions::default() };
    assert!(!state.apply_toolbar_actions(&only_user, &quiet()));
    assert!(!state.show_create_user_dialog);
    state.apply_toolbar_actions(&only_user, &Surroundings { connected: true, sqlite: true, ..quiet() });
    assert!(!state.show_create_user_dialog);
}

#[test]
fn the_grid_reacts_to_keys_exactly_when_it_has_the_keyboard() {
    let keys = [
        Key::F1, Key::F5, Key::Escape, Key::Tab, Key::B, Key::D, Key::E, Key::F, Key::G, Key::H,
        Key::I, Key::J, Key::K, Key::L, Key::N, Key::R, Key::S, Key::T, Key::U, Key::W, Key::Num1,
        Key::Num2, Key::Num3, Key::Num4, Key::Num5, Key::Num6,
    ];
    let around = Surroundings { connected: true, database_selected: true, has_result: true, has_column: true, ..quiet() };
    let mut state = Workbench::new();
    for round in 0..3 {
        for (i, key) in keys.iter().enumerate() {
            for bits in 0..8u8 {
                let chord = Chord { key: *key, ctrl: bits & 1 != 0, shift: bits & 2 != 0, alt: bits & 4 != 0 };
                if (i + round + bits as usize) % 3 == 0 {
                    continue;
                }
                state.handle_keyboard_shortcut(&chord, &around);
                assert_eq!(state.grid_focused, state.focus_area == FocusArea::DataGrid, "{:?}", chord);
            }
        }
    }
}

#[test]
fn digits_lead_to_the_sections_of_the_sidebar() {
    assert_eq!(section_for(Key::Num1), Some(SidebarSection::Connections));
    assert_eq!(section_for(Key::Num2), Some(SidebarSection::Databases));
    assert_eq!(section_for(Key::Num3), Some(SidebarSection::Tables));
    assert_eq!(section_for(Key::Num4), Some(SidebarSection::Filters));
    assert_eq!(section_for(Key::Num5), Some(SidebarSection::Triggers));
    assert_eq!(section_for(Key::Num6), Some(SidebarSection::Routines));
    assert_eq!(section_for(Key::Tab), None);
}

#[test]
fn panels_are_shown_by_their_switches() {
    let switches = PanelSwitches { connections: true, filters: false, triggers: true, routines: false };
    assert!(switches.is_shown(SidebarSection::Connections));
    assert!(switches.is_shown(SidebarSection::Databases));
    assert!(switches.is_shown(SidebarSection::Tables));
    assert!(!switches.is_shown(SidebarSection::Filters));
    assert!(switches.is_shown(SidebarSection::Triggers));
    assert!(!switches.is_shown(SidebarSection::Routines));
}

#[test]
fn the_keyboard_goes_where_it_is_sent() {
    let mut w = Workbench::new();
    w.focus_on(FocusArea::SqlEditor);
    assert_eq!(w.focus_area, FocusArea::SqlEditor);
    assert!(w.focus_sql_editor && !w.grid_focused);
    w.focus_on(FocusArea::DataGrid);
    assert_eq!(w.focus_area, FocusArea::DataGrid);
    assert!(w.grid_focused && !w.focus_sql_editor);
    w.focus_on(FocusArea::Sidebar);
    assert_eq!(w.focus_area, FocusArea::Sidebar);
    assert!(!w.grid_focused && !w.focus_sql_editor);
    let before = w;
    w.focus_on(FocusArea::Dialog);
    assert_eq!(w, Workbench { focus_area: FocusArea::Dialog, ..before });
}

use gridix::sidebar::{
    filter_status_text, title_with_count, FilterPanel, RoutineInfo, RoutinePanel, RoutineType,
    SidebarActions, SidebarPanelState, SidebarSelectionState, TriggerInfo, TriggerPanel,
};

fn routine(name: &str, kind: RoutineType, parameters: &str, returns: Option<&str>) -> RoutineInfo {
    RoutineInfo {
        name: name.to_string(),
        routine_type: kind,
        parameters: parameters.to_string(),
        return_type: returns.map(|s| s.to_string()),
        definition: String::new(),
    }
}

fn trigger(name: &str) -> TriggerInfo {
    TriggerInfo {
        name: name.to_string(),
        table_name: "orders".to_string(),
        timing: "BEFORE".to_string(),
        event: "INSERT".to_string(),
        definition: "...".to_string(),
    }
}

#[test]
fn sidebar_actions_on_connections_databases_and_tables() {
    let none = SidebarActions::default();
    assert!(!none.has_action());
    assert!(SidebarActions { connect: Some("a".into()), ..SidebarActions::default() }.has_action());
    assert!(SidebarActions { disconnect: Some("a".into()), ..SidebarActions::default() }.has_action());
    assert!(SidebarActions { delete: Some("a".into()), ..SidebarActions::default() }.has_action());
    assert!(SidebarActions { select_database: Some("a".into()), ..SidebarActions::default() }.has_action());
    assert!(SidebarActions { show_table_schema: Some("a".into()), ..SidebarActions::default() }.has_action());
    assert!(SidebarActions { query_table: Some("a".into()), ..SidebarActions::default() }.has_action());
    let other = SidebarActions {
        show_trigger_definition: Some("t".into()),
        show_routine_definition: Some("r".into()),
        edit_connection: Some("c".into()),
        refresh: true,
        filter_changed: true,
        add_filter: true,
        clear_filters: true,
        toggle_filter_logic: Some(0),
        focus_filter_input: Some(1),
        cycle_filter_column: Some((0, true)),
        ..SidebarActions::default()
    };
    assert!(!other.has_action());
}

#[test]
fn selection_resets() {
    let all = SidebarSelectionState { connections: 1, databases: 2, tables: 3, triggers: 4, routines: 5, filters: 6 };
    let mut a = all;
    a.reset_for_connection_change();
    assert_eq!(a, SidebarSelectionState { connections: 1, databases: 0, tables: 0, triggers: 0, routines: 0, filters: 6 });
    let mut b = all;
    b.reset_for_database_change();
    assert_eq!(b, SidebarSelectionState { connections: 1, databases: 2, tables: 0, triggers: 0, routines: 0, filters: 6 });
    b.reset_for_connection_change();
    assert_eq!(a, b);
    assert_eq!(SidebarSelectionState::default().filters, 0);
}

#[test]
fn panel_lists_are_set_and_cleared() {
    let mut state = SidebarPanelState::default();
    assert!(state.show_connections && state.show_triggers && state.show_routines && state.show_filters);
    state.loading_triggers = true;
    state.loading_routines = true;
    state.trigger_selected_index = 3;
    state.selection.triggers = 3;
    state.selection.tables = 8;
    state.set_triggers(vec![trigger("a"), trigger("b")]);
    assert_eq!(state.triggers.len(), 2);
    assert_eq!((state.trigger_selected_index, state.selection.triggers), (0, 0));
    assert!(!state.loading_triggers && state.loading_routines);
    assert_eq!(state.selection.tables, 8);
    assert_eq!(state.trigger_title(), "触发器 (2)");

    state.routine_selected_index = 2;
    state.selection.routines = 2;
    state.set_routines(vec![
        routine("p", RoutineType::Procedure, "", None),
        routine("f", RoutineType::Function, "a INT", Some("INT")),
        routine("g", RoutineType::Function, "", Some("TEXT")),
    ]);
    assert_eq!((state.routine_selected_index, state.selection.routines), (0, 0));
    assert!(!state.loading_routines);
    assert_eq!(state.routine_counts(), (1, 2));
    assert_eq!(state.routine_title(), "过程/函数 (1P/2F)");
    assert_eq!(state.triggers.len(), 2);

    state.loading_triggers = true;
    state.trigger_selected_index = 1;
    state.clear_triggers();
    assert!(state.triggers.is_empty());
    assert!(state.loading_triggers);
    assert_eq!(state.trigger_selected_index, 0);
    assert_eq!(state.trigger_title(), "触发器");
    state.clear_routines();
    assert!(state.routines.is_empty());
    assert_eq!(state.routine_title(), "过程/函数");
    assert_eq!(state.routine_counts(), (0, 0));
}

#[test]
fn headings_and_status_lines() {
    assert_eq!(title_with_count("筛选", 0), "筛选");
    assert_eq!(title_with_count("筛选", 3), "筛选 (3)");
    assert_eq!(title_with_count("触发器", 120), "触发器 (120)");
    assert_eq!(filter_status_text(3, 3), "筛选: 3 条");
    assert_eq!(filter_status_text(2, 3), "筛选: 2/3 条");
    assert_eq!(filter_status_text(0, 10), "筛选: 0/10 条");
    assert_eq!(TriggerPanel::summary(&trigger("t")), "BEFORE INSERT ON orders");
    assert_eq!(FilterPanel::title(0), "筛选");
    assert_eq!(FilterPanel::title(2), "筛选 (2)");
    assert_eq!(FilterPanel::empty_hint(true), "点击 + 添加筛选");
    assert_eq!(FilterPanel::empty_hint(false), "请先查询数据");
    assert_eq!(FilterPanel::column_label("customer"), "custom…");
    assert_eq!(FilterPanel::column_label("id"), "id");
}

#[test]
fn routine_lines() {
    assert_eq!(RoutinePanel::summary(&routine("f", RoutineType::Function, "a INT, b INT", Some("INT"))), "(a INT, b INT) -> INT");
    assert_eq!(RoutinePanel::summary(&routine("p", RoutineType::Procedure, "", None)), "()");
    let forty = "x".repeat(40);
    assert_eq!(RoutinePanel::summary(&routine("p", RoutineType::Procedure, &forty, None)), format!("({})", forty));
    let long = "y".repeat(41);
    assert_eq!(
        RoutinePanel::summary(&routine("p", RoutineType::Procedure, &long, Some("T"))),
        format!("({}...) -> T", "y".repeat(37))
    );
    let wide = "参".repeat(14);
    assert_eq!(RoutinePanel::try_summary(&routine("p", RoutineType::Procedure, &wide, None)), None);
    assert!(RoutinePanel::shows_parameters_on_hover(&routine("p", RoutineType::Procedure, &long, None)));
    assert!(!RoutinePanel::shows_parameters_on_hover(&routine("p", RoutineType::Procedure, &forty, None)));
    let fits = format!("a{}", "参".repeat(14));
    assert_eq!(
        RoutinePanel::try_summary(&routine("p", RoutineType::Procedure, &fits, None)),
        Some(format!("(a{}...)", "参".repeat(12)))
    );
}

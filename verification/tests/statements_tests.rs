use gridix::focus::SidebarSection;
use gridix::grid::hash::DataGrid;
use gridix::result::QueryResult;
use gridix::statements::{
    arrival_text, done_message_text, error_message, explain_sql, failure_text, is_error_message,
    is_routine_error_shown, schema_sql, section_text, table_query, try_status_text, Arrival, DatabaseType,
    Failure, Outcome,
};

fn strings(items: &[&str]) -> Vec<String> {
    items.iter().map(|s| s.to_string()).collect()
}

#[test]
fn schema_statements_escape_the_table_name() {
    assert_eq!(schema_sql(DatabaseType::SQLite, "users"), "PRAGMA table_info('users');");
    assert_eq!(schema_sql(DatabaseType::SQLite, "it's"), "PRAGMA table_info('it''s');");
    assert_eq!(
        schema_sql(DatabaseType::PostgreSQL, "o'x"),
        "SELECT column_name, data_type, is_nullable, column_default FROM information_schema.columns WHERE table_name = 'o''x' ORDER BY ordinal_position;"
    );
    assert_eq!(schema_sql(DatabaseType::MySQL, "users"), "DESCRIBE `users`;");
    assert_eq!(schema_sql(DatabaseType::MySQL, "a`b.c"), "DESCRIBE `a``b_c`;");
    assert_eq!(schema_sql(DatabaseType::MySQL, "it's"), "DESCRIBE `it's`;");
}

#[test]
fn explain_statements_depend_on_the_database() {
    assert_eq!(explain_sql(DatabaseType::MySQL, " select 1 \n"), "EXPLAIN FORMAT=TRADITIONAL select 1");
    assert_eq!(
        explain_sql(DatabaseType::PostgreSQL, "select 1"),
        "EXPLAIN (ANALYZE, BUFFERS, FORMAT TEXT) select 1"
    );
    assert_eq!(explain_sql(DatabaseType::SQLite, "select 1;"), "EXPLAIN QUERY PLAN select 1;");
    assert_eq!(explain_sql(DatabaseType::SQLite, "  "), "EXPLAIN QUERY PLAN ");
}

#[test]
fn messages_about_statements() {
    let changed = Outcome { has_columns: false, affected_rows: 3, shown_rows: 0, cut_from: None, elapsed_ms: 12 };
    assert_eq!(done_message_text(&changed), "执行成功，影响 3 行 (12ms)");
    let rows = Outcome { has_columns: true, affected_rows: 0, shown_rows: 25, cut_from: None, elapsed_ms: 0 };
    assert_eq!(done_message_text(&rows), "查询完成，返回 25 行 (0ms)");
    let cut = Outcome { has_columns: true, affected_rows: 0, shown_rows: 1000, cut_from: Some(250000), elapsed_ms: 1530 };
    assert_eq!(
        done_message_text(&cut),
        "查询完成，返回 1000 行（已截断，原始 250000 行，建议使用 LIMIT）(1530ms)"
    );
    assert_eq!(error_message("no such table: t"), "错误: no such table: t");
    assert!(is_error_message("错误: x"));
    assert!(is_error_message("Error 1064"));
    assert!(is_error_message("连接失败"));
    assert!(!is_error_message("error in lower case"));
    assert!(!is_error_message("查询完成"));
    assert!(is_routine_error_shown("timeout"));
    assert!(!is_routine_error_shown("SQLite 不支持存储过程"));
}

#[test]
fn status_bar_cuts_long_messages() {
    assert_eq!(try_status_text("ok").as_deref(), Some("ok"));
    let long = "m".repeat(60);
    assert_eq!(try_status_text(&long), Some(format!("{}...", "m".repeat(47))));
    let wide = "错".repeat(20);
    assert_eq!(try_status_text(&wide), None);
    let fits = format!("ab{}", "错".repeat(20));
    assert_eq!(try_status_text(&fits), Some(format!("ab{}...", "错".repeat(15))));
}

#[test]
fn results_are_cut_to_a_limit() {
    let mut result = QueryResult::default();
    assert!(result.columns.is_empty() && result.rows.is_empty());
    assert!(!result.truncated && result.original_row_count.is_none());
    result.columns = strings(&["id", "name", "id"]);
    result.rows = vec![strings(&["1", "a"]), strings(&["2", "b"]), strings(&["3", "c"])];
    result.affected_rows = 7;
    assert!(!result.limit_rows(3));
    assert_eq!(result.rows.len(), 3);
    assert!(!result.truncated);
    assert!(result.limit_rows(2));
    assert_eq!(result.rows, vec![strings(&["1", "a"]), strings(&["2", "b"])]);
    assert!(result.truncated);
    assert_eq!(result.original_row_count, Some(3));
    assert_eq!(result.affected_rows, 7);
    assert!(result.limit_rows(0));
    assert_eq!(result.original_row_count, Some(2));
    assert_eq!(result.column_index("id"), Some(0));
    assert_eq!(result.column_index("name"), Some(1));
    assert_eq!(result.column_index("Name"), None);
}

#[test]
fn the_data_hash_covers_names_indices_and_samples() {
    let columns = strings(&["id", "name"]);
    let row0 = strings(&["1", "alice"]);
    let row1 = strings(&["2", "bob"]);
    let row2 = strings(&["3", "carol"]);
    let rows = vec![(0usize, &row0), (1, &row1), (2, &row2)];
    let base = DataGrid::calculate_data_hash(&columns, &rows, 2);
    assert_eq!(base, DataGrid::calculate_data_hash(&columns, &rows, 2));

    let other2 = strings(&["9", "zed"]);
    assert_eq!(base, DataGrid::calculate_data_hash(&columns, &vec![(0, &row0), (1, &row1), (7, &other2)], 2));
    assert_eq!(base, DataGrid::calculate_data_hash(&columns, &vec![(0, &row0), (1, &row1)], 100));
    assert_ne!(base, DataGrid::calculate_data_hash(&columns, &rows, 3));
    assert_ne!(base, DataGrid::calculate_data_hash(&columns, &vec![(0, &row0), (5, &row1)], 2));
    assert_ne!(base, DataGrid::calculate_data_hash(&strings(&["id", "Name"]), &rows, 2));
    assert_ne!(base, DataGrid::calculate_data_hash(&columns, &vec![(0, &row0), (1, &strings(&["2", "bobby"]))], 2));

    let joined = strings(&["1alice"]);
    let split = strings(&["1", "alice"]);
    let shifted = strings(&["1a", "lice"]);
    let a = DataGrid::calculate_data_hash(&columns, &vec![(0, &joined)], 1);
    let b = DataGrid::calculate_data_hash(&columns, &vec![(0, &split)], 1);
    let c = DataGrid::calculate_data_hash(&columns, &vec![(0, &shifted)], 1);
    assert!(a != b && b != c && a != c);

    let long_a = vec![format!("{}{}", "x".repeat(50), "tail one")];
    let long_b = vec![format!("{}{}", "x".repeat(50), "another tail")];
    let long_c = vec![format!("{}y{}", "x".repeat(49), "tail")];
    let ha = DataGrid::calculate_data_hash(&columns, &vec![(0, &long_a)], 1);
    assert_eq!(ha, DataGrid::calculate_data_hash(&columns, &vec![(0, &long_b)], 1));
    assert_ne!(ha, DataGrid::calculate_data_hash(&columns, &vec![(0, &long_c)], 1));
    let wide_a = vec![format!("{}甲", "宽".repeat(50))];
    let wide_b = vec![format!("{}乙", "宽".repeat(50))];
    assert_eq!(
        DataGrid::calculate_data_hash(&columns, &vec![(0, &wide_a)], 1),
        DataGrid::calculate_data_hash(&columns, &vec![(0, &wide_b)], 1)
    );
    assert_ne!(DataGrid::calculate_data_hash(&Vec::new(), &Vec::new(), 0), DataGrid::calculate_data_hash(&strings(&[""]), &Vec::new(), 0));
    assert_eq!(DataGrid::sample_count(7), 7);
    assert_eq!(DataGrid::sample_count(100), 100);
    assert_eq!(DataGrid::sample_count(5000), 100);
}

#[test]
fn connections_report_what_they_brought() {
    assert_eq!(arrival_text(Arrival::Tables, "local", 12), "已连接到 local (12 张表)");
    assert_eq!(arrival_text(Arrival::Databases, "server", 3), "已连接到 server (3 个数据库)");
    assert_eq!(arrival_text(Arrival::Database, "shop", 0), "已选择数据库 shop (0 张表)");
    assert_eq!(failure_text(Failure::SelectDatabase, "denied"), "选择数据库失败: denied");
    assert_eq!(failure_text(Failure::LoadTriggers, "denied"), "加载触发器失败: denied");
    assert_eq!(failure_text(Failure::LoadRoutines, ""), "加载存储过程失败: ");
}

#[test]
fn a_table_is_read_with_a_limit() {
    assert_eq!(table_query("`users`", 1000), "SELECT * FROM `users` LIMIT 1000;");
    assert_eq!(table_query("\"t\"", 0), "SELECT * FROM \"t\" LIMIT 0;");
}

#[test]
fn a_shortcut_names_the_section_it_went_to() {
    assert_eq!(section_text(SidebarSection::Connections), "切换到: 连接列表");
    assert_eq!(section_text(SidebarSection::Databases), "切换到: 数据库列表");
    assert_eq!(section_text(SidebarSection::Tables), "切换到: 表列表");
    assert_eq!(section_text(SidebarSection::Filters), "切换到: 筛选面板");
    assert_eq!(section_text(SidebarSection::Triggers), "切换到: 触发器列表");
    assert_eq!(section_text(SidebarSection::Routines), "切换到: 存储过程列表");
}

#[test]
fn a_result_that_was_cut_warns_of_it() {
    let mut result = QueryResult::default();
    assert_eq!(result.truncation_text(), None);
    result.original_row_count = Some(5);
    assert_eq!(result.truncation_text(), None);
    result.truncated = true;
    assert_eq!(result.truncation_text().as_deref(), Some("! 已截断 (原5行)"));
    result.original_row_count = None;
    assert_eq!(result.truncation_text().as_deref(), Some("! 已截断"));
    let mut rows = QueryResult::default();
    rows.rows = vec![strings(&["a"]), strings(&["b"]), strings(&["c"])];
    assert!(rows.limit_rows(1));
    assert_eq!(rows.truncation_text().as_deref(), Some("! 已截断 (原3行)"));
}

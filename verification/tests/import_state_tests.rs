use gridix::import::state::{ImportAction, ImportDialog, ImportKeys, ImportState, KeyOutcome};
use gridix::import::types::{
    join, CsvImportConfig, ImportFormat, ImportMode, ImportPreview, JsonImportConfig,
    SqlImportConfig,
};
use std::path::PathBuf;

fn no_keys() -> ImportKeys {
    ImportKeys {
        text_focus: false,
        close: false,
        confirm: false,
        sql: false,
        csv: false,
        json: false,
        left: false,
        right: false,
    }
}

fn preview(statements: &[&str]) -> ImportPreview {
    ImportPreview {
        sql_statements: statements.iter().map(|s| s.to_string()).collect(),
        statement_count: statements.len(),
        total_rows: statements.len(),
        ..ImportPreview::default()
    }
}

#[test]
fn format_from_extension() {
    assert_eq!(ImportFormat::from_extension("csv"), ImportFormat::Csv);
    assert_eq!(ImportFormat::from_extension("CSV"), ImportFormat::Csv);
    assert_eq!(ImportFormat::from_extension("tsv"), ImportFormat::Csv);
    assert_eq!(ImportFormat::from_extension("Json"), ImportFormat::Json);
    assert_eq!(ImportFormat::from_extension("sql"), ImportFormat::Sql);
    assert_eq!(ImportFormat::from_extension("txt"), ImportFormat::Sql);
    assert_eq!(ImportFormat::from_extension(""), ImportFormat::Sql);
    assert_eq!(ImportFormat::from_lowercase_extension("CSV"), ImportFormat::Sql);
    assert_eq!(ImportFormat::from_lowercase_extension("json"), ImportFormat::Json);
    assert_eq!(ImportFormat::default(), ImportFormat::Sql);
}

#[test]
fn format_names_and_icons() {
    assert_eq!(ImportFormat::Sql.name(), "SQL");
    assert_eq!(ImportFormat::Csv.name(), "CSV");
    assert_eq!(ImportFormat::Json.name(), "JSON");
    assert_eq!(ImportFormat::Sql.icon(), "📝");
    assert_eq!(ImportFormat::Csv.icon(), "📊");
    assert_eq!(ImportFormat::Json.icon(), "🔧");
}

#[test]
fn formats_form_a_cycle() {
    for format in [ImportFormat::Sql, ImportFormat::Csv, ImportFormat::Json] {
        assert_eq!(format.next().prev(), format);
        assert_eq!(format.prev().next(), format);
        assert_eq!(format.next().next().next(), format);
    }
    assert_eq!(ImportFormat::Sql.next(), ImportFormat::Csv);
    assert_eq!(ImportFormat::Sql.prev(), ImportFormat::Json);
}

#[test]
fn configurations_start_from_their_defaults() {
    let sql = SqlImportConfig::default();
    assert!(sql.strip_comments && sql.strip_empty_lines);
    assert!(!sql.stop_on_error && !sql.use_transaction);
    let csv = CsvImportConfig::default();
    assert_eq!(csv.delimiter, ',');
    assert_eq!(csv.skip_rows, 0);
    assert!(csv.has_header);
    assert_eq!(csv.table_name, "");
    assert_eq!(csv.quote_char, '"');
    assert_eq!(csv.encoding, "UTF-8");
    let json = JsonImportConfig::default();
    assert_eq!(json.json_path, "");
    assert_eq!(json.table_name, "");
    assert!(!json.flatten_nested);
    assert_eq!(ImportMode::default(), ImportMode::Execute);
    assert!(matches!(ImportAction::default(), ImportAction::NoAction));
    let preview = ImportPreview::default();
    assert!(preview.columns.is_empty() && preview.preview_rows.is_empty());
    assert_eq!((preview.total_rows, preview.statement_count), (0, 0));
}

#[test]
fn choosing_a_file_sets_format_and_table_names() {
    let mut state = ImportState::new();
    state.preview = Some(preview(&["select 1;"]));
    state.error = Some("old".to_string());
    state.mode = ImportMode::CopyToEditor;
    state.set_file(PathBuf::from("/tmp/data/users.CSV"));
    assert_eq!(state.format, ImportFormat::Csv);
    assert_eq!(state.csv_config.table_name, "users");
    assert_eq!(state.json_config.table_name, "users");
    assert_eq!(state.file_path, Some(PathBuf::from("/tmp/data/users.CSV")));
    assert!(state.preview.is_none());
    assert!(state.error.is_none());
    assert_eq!(state.mode, ImportMode::CopyToEditor);

    state.set_file(PathBuf::from("dump"));
    assert_eq!(state.format, ImportFormat::Sql);
    assert_eq!(state.csv_config.table_name, "dump");

    state.set_file(PathBuf::from("a.b.json"));
    assert_eq!(state.format, ImportFormat::Json);
    assert_eq!(state.json_config.table_name, "a.b");

    state.set_file(PathBuf::from("/"));
    assert_eq!(state.format, ImportFormat::Sql);
    assert_eq!(state.csv_config.table_name, "imported_data");
    assert_eq!(state.json_config.table_name, "imported_data");
}

#[test]
fn file_parts_decide_without_the_path() {
    let mut state = ImportState::new();
    state.set_file_parts(PathBuf::from("whatever.sql"), Some("TSV"), Some("orders"));
    assert_eq!(state.format, ImportFormat::Csv);
    assert_eq!(state.csv_config.table_name, "orders");
    assert_eq!(state.file_path, Some(PathBuf::from("whatever.sql")));
    state.set_file_parts(PathBuf::from("x.csv"), None, None);
    assert_eq!(state.format, ImportFormat::Sql);
    assert_eq!(state.json_config.table_name, "imported_data");
}

#[test]
fn clear_goes_back_to_the_start() {
    let mut state = ImportState::new();
    state.set_file(PathBuf::from("x.json"));
    state.loading = true;
    state.sql_config.use_transaction = true;
    state.csv_config.delimiter = ';';
    state.clear();
    assert!(state.file_path.is_none());
    assert_eq!(state.format, ImportFormat::Sql);
    assert!(!state.loading);
    assert!(!state.sql_config.use_transaction);
    assert_eq!(state.csv_config.delimiter, ',');
    assert_eq!(state.csv_config.table_name, "");
    let fresh = ImportState::default();
    assert!(fresh.file_path.is_none() && fresh.preview.is_none() && fresh.error.is_none());
}

#[test]
fn import_can_start_with_file_and_preview_and_no_error() {
    let mut state = ImportState::new();
    assert!(!state.can_import());
    state.set_file(PathBuf::from("x.sql"));
    assert!(!state.can_import());
    state.preview = Some(preview(&["a;"]));
    assert!(state.can_import());
    state.error = Some("bad".to_string());
    assert!(!state.can_import());
}

#[test]
fn confirming_runs_or_copies() {
    let mut state = ImportState::new();
    state.preview = Some(preview(&["select 1;", "select 2;", "x"]));
    assert!(matches!(state.confirm_action(), ImportAction::Execute));
    state.mode = ImportMode::CopyToEditor;
    match state.confirm_action() {
        ImportAction::CopyToEditor(text) => assert_eq!(text, "select 1;\n\nselect 2;\n\nx"),
        other => panic!("{:?}", other),
    }
    state.preview = None;
    assert!(matches!(state.confirm_action(), ImportAction::NoAction));
}

#[test]
fn join_puts_the_separator_between_parts() {
    assert_eq!(join(&Vec::new(), ", "), "");
    assert_eq!(join(&vec!["a".to_string()], ", "), "a");
    assert_eq!(join(&vec!["a".to_string(), "".to_string(), "c".to_string()], ", "), "a, , c");
}

#[test]
fn dialog_keys() {
    let mut state = ImportState::new();
    state.set_file(PathBuf::from("x.sql"));
    state.preview = Some(preview(&["a;"]));
    let mut show = true;

    let keys = ImportKeys { text_focus: true, close: true, csv: true, ..no_keys() };
    assert!(matches!(state.handle_keys(&mut show, &keys), KeyOutcome::Draw));
    assert!(show);
    assert_eq!(state.format, ImportFormat::Sql);
    assert!(state.preview.is_some());

    let keys = ImportKeys { confirm: true, csv: true, ..no_keys() };
    assert!(matches!(
        state.handle_keys(&mut show, &keys),
        KeyOutcome::Done(ImportAction::Execute)
    ));
    assert_eq!(state.format, ImportFormat::Sql);

    let keys = ImportKeys { right: true, ..no_keys() };
    assert!(matches!(state.handle_keys(&mut show, &keys), KeyOutcome::Draw));
    assert_eq!(state.format, ImportFormat::Csv);
    assert!(state.preview.is_none());

    let keys = ImportKeys { confirm: true, left: true, ..no_keys() };
    assert!(matches!(state.handle_keys(&mut show, &keys), KeyOutcome::Draw));
    assert_eq!(state.format, ImportFormat::Sql);

    let keys = ImportKeys { sql: true, csv: true, json: true, left: true, right: true, ..no_keys() };
    state.handle_keys(&mut show, &keys);
    assert_eq!(state.format, ImportFormat::Json);
    let keys = ImportKeys { csv: true, left: true, ..no_keys() };
    state.handle_keys(&mut show, &keys);
    assert_eq!(state.format, ImportFormat::Sql);

    let keys = ImportKeys { close: true, confirm: true, json: true, ..no_keys() };
    assert!(matches!(state.handle_keys(&mut show, &keys), KeyOutcome::Done(ImportAction::Close)));
    assert!(!show);
    assert_eq!(state.format, ImportFormat::Sql);
}

#[test]
fn dialog_texts() {
    assert_eq!(ImportDialog::path_display("/tmp/x.sql").as_deref(), Some("/tmp/x.sql"));
    let long = format!("/home/{}/dump.sql", "d".repeat(60));
    let shown = ImportDialog::path_display(&long).unwrap();
    assert_eq!(shown.len(), 60);
    assert_eq!(shown, format!("...{}", &long[long.len() - 57..]));
    let wide = format!("{}/a.sql", "目录".repeat(10));
    assert_eq!(wide.len(), 66);
    assert_eq!(
        ImportDialog::path_display(&wide),
        Some(format!("...录{}/a.sql", "目录".repeat(8)))
    );
    let split = format!("{}a.sql", "目".repeat(19));
    assert_eq!(split.len(), 62);
    assert_eq!(ImportDialog::path_display(&split), None);

    assert_eq!(ImportDialog::statement_display("select 1;").as_deref(), Some("select 1;"));
    let stmt = "s".repeat(101);
    assert_eq!(ImportDialog::statement_display(&stmt), Some(format!("{}...", "s".repeat(100))));
    assert_eq!(ImportDialog::statement_display(&"语".repeat(34)), None);
    assert_eq!(ImportDialog::cell_display("cell").as_deref(), Some("cell"));
    assert_eq!(ImportDialog::cell_display(&"c".repeat(31)), Some(format!("{}...", "c".repeat(27))));
    assert_eq!(ImportDialog::cell_display(&"c".repeat(30)), Some("c".repeat(30)));

    let mut p = preview(&["a;"]);
    p.statement_count = 12;
    p.total_rows = 12;
    p.columns = vec!["x".to_string(), "y".to_string()];
    p.preview_rows = vec![vec!["1".to_string()]; 10];
    assert_eq!(ImportDialog::preview_header(ImportFormat::Sql, &p), "预览 (12 条 SQL 语句)");
    assert_eq!(ImportDialog::preview_header(ImportFormat::Csv, &p), "预览 (2 列 × 12 行)");
    assert_eq!(ImportDialog::preview_header(ImportFormat::Json, &p), "预览 (2 列 × 12 行)");
    assert_eq!(ImportDialog::more_statements(&p).as_deref(), Some("... 还有 2 条语句"));
    assert_eq!(ImportDialog::more_rows(&p).as_deref(), Some("... 还有 2 行数据"));
    p.statement_count = 10;
    p.total_rows = 10;
    assert_eq!(ImportDialog::more_statements(&p), None);
    assert_eq!(ImportDialog::more_rows(&p), None);
}

#[test]
fn selecting_a_format_drops_the_preview() {
    let mut state = ImportState::new();
    state.preview = Some(preview(&["SELECT 1;"]));
    state.loading = true;
    state.select_format(ImportFormat::Json);
    assert_eq!(state.format, ImportFormat::Json);
    assert!(state.preview.is_none());
    assert!(state.loading);
    state.select_format(ImportFormat::Json);
    assert_eq!(state.format, ImportFormat::Json);
}

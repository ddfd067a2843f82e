use gridix::import::parser::parse_sql_file;
use gridix::import::types::SqlImportConfig;

fn statements(content: &str, config: &SqlImportConfig) -> Vec<String> {
    parse_sql_file(content, config).sql_statements
}

#[test]
fn splits_statements_at_semicolons() {
    let config = SqlImportConfig::default();
    let got = statements("SELECT 1;\nSELECT 2;\n", &config);
    assert_eq!(got, vec!["SELECT 1;".to_string(), "SELECT 2;".to_string()]);
}

#[test]
fn strips_comments_when_asked() {
    let config = SqlImportConfig::default();
    let got = statements(
        "-- head\nSELECT a /* inline */ FROM t; # tail\n/* multi\nline */ DELETE FROM t;",
        &config,
    );
    assert_eq!(got, vec!["SELECT a  FROM t;".to_string(), "DELETE FROM t;".to_string()]);
}

#[test]
fn kept_comment_joins_the_statement_that_follows() {
    let config = SqlImportConfig { strip_comments: false, ..SqlImportConfig::default() };
    let got = statements("SELECT 1; -- note\nSELECT 2;", &config);
    assert_eq!(got, vec!["SELECT 1;".to_string(), "-- noteSELECT 2;".to_string()]);
}

#[test]
fn semicolon_inside_string_does_not_split() {
    let config = SqlImportConfig::default();
    let got = statements("INSERT INTO t VALUES ('a;b', \"c;d\", 'it''s');", &config);
    assert_eq!(got, vec!["INSERT INTO t VALUES ('a;b', \"c;d\", 'it''s');".to_string()]);
}

#[test]
fn last_statement_without_semicolon_warns() {
    let config = SqlImportConfig::default();
    let preview = parse_sql_file("SELECT 1;\nSELECT 2", &config);
    assert_eq!(preview.sql_statements, vec!["SELECT 1;".to_string(), "SELECT 2".to_string()]);
    assert_eq!(preview.warnings, vec!["最后一条语句没有分号".to_string()]);
    assert_eq!(preview.statement_count, 2);
    assert_eq!(preview.total_rows, 2);
    assert_eq!(preview.columns, vec!["SQL 语句".to_string()]);
}

#[test]
fn preview_shows_ten_statements_at_most() {
    let config = SqlImportConfig::default();
    let mut content = String::new();
    for i in 0..12 {
        content.push_str(&format!("SELECT {};\n", i));
    }
    let preview = parse_sql_file(&content, &config);
    assert_eq!(preview.statement_count, 12);
    assert_eq!(preview.preview_rows.len(), 10);
    assert_eq!(preview.preview_rows[9], vec!["SELECT 9;".to_string()]);
    assert!(preview.warnings.is_empty());
}

#[test]
fn lines_join_with_line_breaks_but_the_closing_line_does_not() {
    let config = SqlImportConfig::default();
    let got = statements("CREATE TABLE t (\r\n  id INT,\r\n\r\n  name TEXT\r\n);\r\n", &config);
    assert_eq!(got, vec!["CREATE TABLE t (\nid INT,\nname TEXT);".to_string()]);
}

#[test]
fn empty_lines_stay_when_not_stripped() {
    let config = SqlImportConfig { strip_empty_lines: false, ..SqlImportConfig::default() };
    let got = statements("SELECT\n\n1;", &config);
    assert_eq!(got, vec!["SELECT\n1;".to_string()]);
}

#[test]
fn lone_semicolons_and_blank_input_give_nothing() {
    let config = SqlImportConfig::default();
    assert!(statements(";;\n ; \n", &config).is_empty());
    let preview = parse_sql_file("   \n\n", &config);
    assert!(preview.sql_statements.is_empty());
    assert!(preview.warnings.is_empty());
}

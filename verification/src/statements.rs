//! The SQL statements and the messages that the window makes up itself.

use crate::focus::SidebarSection;
use crate::text::{
    chars_of, clip_ok, clipped, contains_text, decimal, has_text, push_decimal,
    push_decimal_u64, push_range, push_replaced, push_str, replaced, string_of, trim, trim_bounds,
    try_clip,
};
use vstd::prelude::*;

verus! {

/// The kind of database behind a connection.
#[derive(Debug, Clone, Copy, PartialEq, Eq, Structural)]
pub enum DatabaseType {
    SQLite,
    PostgreSQL,
    MySQL,
}

/// The statement that lists the columns of `table`: a `PRAGMA` for SQLite, a
/// query of the information schema for PostgreSQL, both with every `'` of
/// the name doubled; a `DESCRIBE` for MySQL, with every backtick of the name
/// doubled and then every `.` turned into `_`.
pub open spec fn schema_statement(db: DatabaseType, table: Seq<char>) -> Seq<char> {
    match db {
        DatabaseType::SQLite => "PRAGMA table_info('"@ + replaced(table, '\'', "''"@) + "');"@,
        DatabaseType::PostgreSQL =>
            "SELECT column_name, data_type, is_nullable, column_default FROM information_schema.columns WHERE table_name = '"@
                + replaced(table, '\'', "''"@) + "' ORDER BY ordinal_position;"@,
        DatabaseType::MySQL => "DESCRIBE `"@ + replaced(replaced(table, '`', "``"@), '.', "_"@)
            + "`;"@,
    }
}

/// The statement that lists the columns of `table`.
pub fn schema_sql(db: DatabaseType, table: &str) -> (sql: String)
    ensures
        sql@ == schema_statement(db, table@),
{
    match db {
        DatabaseType::SQLite => {
            let mut out = chars_of("PRAGMA table_info('");
            push_replaced(&mut out, table, '\'', "''");
            push_str(&mut out, "');");
            string_of(&out)
        },
        DatabaseType::PostgreSQL => {
            let mut out = chars_of(
                "SELECT column_name, data_type, is_nullable, column_default FROM information_schema.columns WHERE table_name = '",
            );
            push_replaced(&mut out, table, '\'', "''");
            push_str(&mut out, "' ORDER BY ordinal_position;");
            string_of(&out)
        },
        DatabaseType::MySQL => {
            let mut doubled: Vec<char> = Vec::new();
            push_replaced(&mut doubled, table, '`', "``");
            assert(doubled@ =~= replaced(table@, '`', "``"@));
            let escaped = string_of(&doubled);
            let mut out = chars_of("DESCRIBE `");
            push_replaced(&mut out, escaped.as_str(), '.', "_");
            push_str(&mut out, "`;");
            string_of(&out)
        },
    }
}

/// The words that ask a database of kind `db` for the plan of a statement.
pub open spec fn explain_prefix(db: DatabaseType) -> Seq<char> {
    match db {
        DatabaseType::MySQL => "EXPLAIN FORMAT=TRADITIONAL "@,
        DatabaseType::PostgreSQL => "EXPLAIN (ANALYZE, BUFFERS, FORMAT TEXT) "@,
        DatabaseType::SQLite => "EXPLAIN QUERY PLAN "@,
    }
}

/// The statement that asks for the plan of `sql`: the words for the kind of
/// database, then `sql` trimmed.
pub fn explain_sql(db: DatabaseType, sql: &str) -> (out: String)
    ensures
        out@ == explain_prefix(db) + trim(sql@),
{
    let prefix: &str = match db {
        DatabaseType::MySQL => "EXPLAIN FORMAT=TRADITIONAL ",
        DatabaseType::PostgreSQL => "EXPLAIN (ANALYZE, BUFFERS, FORMAT TEXT) ",
        DatabaseType::SQLite => "EXPLAIN QUERY PLAN ",
    };
    let mut out = chars_of(prefix);
    let v = chars_of(sql);
    let (a, b) = trim_bounds(&v);
    push_range(&mut out, &v, a, b);
    string_of(&out)
}

/// The statement that reads the first `limit` rows of a table, given the
/// table's name in quotes.
pub fn table_query(quoted_table: &str, limit: usize) -> (sql: String)
    ensures
        sql@ == "SELECT * FROM "@ + quoted_table@ + " LIMIT "@ + decimal(limit as nat) + ";"@,
{
    let mut out = chars_of("SELECT * FROM ");
    push_str(&mut out, quoted_table);
    push_str(&mut out, " LIMIT ");
    push_decimal(&mut out, limit);
    push_str(&mut out, ";");
    string_of(&out)
}

/// What a statement that ran left behind.
#[derive(Debug, Clone, Copy, PartialEq, Eq, Structural)]
pub struct Outcome {
    /// Whether the result has columns.
    pub has_columns: bool,
    /// How many rows the statement changed.
    pub affected_rows: u64,
    /// How many rows are shown.
    pub shown_rows: usize,
    /// How many rows there were, if rows were cut off.
    pub cut_from: Option<usize>,
    /// How long the statement took, in milliseconds.
    pub elapsed_ms: u64,
}

/// The message about a statement that ran: how many rows it changed if it
/// returned no columns; else how many rows it returned, and from how many
/// they were cut.
pub open spec fn done_message(outcome: Outcome) -> Seq<char> {
    let time = "("@ + decimal(outcome.elapsed_ms as nat) + "ms)"@;
    if !outcome.has_columns {
        "执行成功，影响 "@ + decimal(outcome.affected_rows as nat) + " 行 "@ + time
    } else {
        match outcome.cut_from {
            Some(all) => "查询完成，返回 "@ + decimal(outcome.shown_rows as nat) + " 行（已截断，原始 "@
                + decimal(all as nat) + " 行，建议使用 LIMIT）"@ + time,
            None => "查询完成，返回 "@ + decimal(outcome.shown_rows as nat) + " 行 "@ + time,
        }
    }
}

/// The message about a statement that ran.
pub fn done_message_text(outcome: &Outcome) -> (text: String)
    ensures
        text@ == done_message(*outcome),
{
    let mut out: Vec<char> = Vec::new();
    if !outcome.has_columns {
        push_str(&mut out, "执行成功，影响 ");
        push_decimal_u64(&mut out, outcome.affected_rows);
        push_str(&mut out, " 行 ");
    } else {
        push_str(&mut out, "查询完成，返回 ");
        push_decimal(&mut out, outcome.shown_rows);
        match outcome.cut_from {
            Some(all) => {
                push_str(&mut out, " 行（已截断，原始 ");
                push_decimal(&mut out, all);
                push_str(&mut out, " 行，建议使用 LIMIT）");
            },
            None => {
                push_str(&mut out, " 行 ");
            },
        }
    }
    let ghost head = out@;
    push_str(&mut out, "(");
    push_decimal_u64(&mut out, outcome.elapsed_ms);
    push_str(&mut out, "ms)");
    assert(out@ =~= head + ("("@ + decimal(outcome.elapsed_ms as nat) + "ms)"@));
    string_of(&out)
}

/// The message about a statement that failed.
pub fn error_message(error: &str) -> (text: String)
    ensures
        text@ == "错误: "@ + error@,
{
    let mut out = chars_of("错误: ");
    push_str(&mut out, error);
    string_of(&out)
}

/// Whether a message tells of a failure: it holds `错误`, `Error` or `失败`.
pub open spec fn tells_failure(message: Seq<char>) -> bool {
    contains_text(message, "错误"@) || contains_text(message, "Error"@) || contains_text(
        message,
        "失败"@,
    )
}

/// Whether a message tells of a failure.
pub fn is_error_message(message: &str) -> (r: bool)
    ensures
        r == tells_failure(message@),
{
    let v = chars_of(message);
    has_text(&v, "错误") || has_text(&v, "Error") || has_text(&v, "失败")
}

/// Whether a failure to load the routines is worth a message: it is, unless
/// the database says that it has no routines.
pub fn is_routine_error_shown(error: &str) -> (r: bool)
    ensures
        r == !contains_text(error@, "不支持"@),
{
    let v = chars_of(error);
    !has_text(&v, "不支持")
}

/// Whether a message can be shown in the status bar: it is at most 50 bytes
/// long, or a character starts at byte 47.
pub open spec fn status_ok(message: Seq<char>) -> bool {
    clip_ok(message, 50, 47)
}

/// A message as the status bar shows it: cut down to 47 bytes and three
/// dots if it is longer than 50 bytes, if that can be done.
pub fn try_status_text(message: &str) -> (text: Option<String>)
    ensures
        text is Some == status_ok(message@),
        text is Some ==> text->0@ == clipped(message@, 50, 47),
{
    try_clip(message, 50, 47)
}

/// What a connection brought with it.
#[derive(Debug, Clone, Copy, PartialEq, Eq, Structural)]
pub enum Arrival {
    /// A connection with its tables.
    Tables,
    /// A connection with its databases.
    Databases,
    /// A database of a connection, with its tables.
    Database,
}

/// The message about what a connection brought: the name of the connection
/// or of the database, and how much came with it.
pub open spec fn arrival_message(arrival: Arrival, name: Seq<char>, count: nat) -> Seq<char> {
    match arrival {
        Arrival::Tables => "已连接到 "@ + name + " ("@ + decimal(count) + " 张表)"@,
        Arrival::Databases => "已连接到 "@ + name + " ("@ + decimal(count) + " 个数据库)"@,
        Arrival::Database => "已选择数据库 "@ + name + " ("@ + decimal(count) + " 张表)"@,
    }
}

/// The message about what a connection brought.
pub fn arrival_text(arrival: Arrival, name: &str, count: usize) -> (text: String)
    ensures
        text@ == arrival_message(arrival, name@, count as nat),
{
    let mut out = match arrival {
        Arrival::Tables | Arrival::Databases => chars_of("已连接到 "),
        Arrival::Database => chars_of("已选择数据库 "),
    };
    push_str(&mut out, name);
    push_str(&mut out, " (");
    push_decimal(&mut out, count);
    match arrival {
        Arrival::Tables | Arrival::Database => push_str(&mut out, " 张表)"),
        Arrival::Databases => push_str(&mut out, " 个数据库)"),
    }
    string_of(&out)
}

/// What could not be loaded.
#[derive(Debug, Clone, Copy, PartialEq, Eq, Structural)]
pub enum Failure {
    /// A database could not be chosen.
    SelectDatabase,
    /// The triggers could not be loaded.
    LoadTriggers,
    /// The routines could not be loaded.
    LoadRoutines,
}

/// The words that begin the message about a failure.
pub open spec fn failure_head(failure: Failure) -> Seq<char> {
    match failure {
        Failure::SelectDatabase => "选择数据库失败: "@,
        Failure::LoadTriggers => "加载触发器失败: "@,
        Failure::LoadRoutines => "加载存储过程失败: "@,
    }
}

/// The message about a failure: what failed, then the error.
pub fn failure_text(failure: Failure, error: &str) -> (text: String)
    ensures
        text@ == failure_head(failure) + error@,
{
    let mut out = match failure {
        Failure::SelectDatabase => chars_of("选择数据库失败: "),
        Failure::LoadTriggers => chars_of("加载触发器失败: "),
        Failure::LoadRoutines => chars_of("加载存储过程失败: "),
    };
    push_str(&mut out, error);
    string_of(&out)
}

/// The name by which the window calls a section of the sidebar.
pub open spec fn section_name(section: SidebarSection) -> Seq<char> {
    match section {
        SidebarSection::Connections => "连接列表"@,
        SidebarSection::Databases => "数据库列表"@,
        SidebarSection::Tables => "表列表"@,
        SidebarSection::Filters => "筛选面板"@,
        SidebarSection::Triggers => "触发器列表"@,
        SidebarSection::Routines => "存储过程列表"@,
    }
}

/// The message about the section of the sidebar that a shortcut went to.
pub fn section_text(section: SidebarSection) -> (text: String)
    ensures
        text@ == "切换到: "@ + section_name(section),
{
    let mut out = chars_of("切换到: ");
    match section {
        SidebarSection::Connections => push_str(&mut out, "连接列表"),
        SidebarSection::Databases => push_str(&mut out, "数据库列表"),
        SidebarSection::Tables => push_str(&mut out, "表列表"),
        SidebarSection::Filters => push_str(&mut out, "筛选面板"),
        SidebarSection::Triggers => push_str(&mut out, "触发器列表"),
        SidebarSection::Routines => push_str(&mut out, "存储过程列表"),
    }
    string_of(&out)
}

} // verus!

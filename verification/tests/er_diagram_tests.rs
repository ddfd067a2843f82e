use gridix::er_diagram::{
    all_loaded, column_row, columns_error_message, columns_fetched, columns_of, database_label,
    diagram_message, empty_tables, foreign_keys_fetched, guessed_message,
    infer_relationships_from_columns, is_called, keys_error_message, loading_message,
    mark_foreign_key, mark_foreign_keys, no_tables_message, reference_of,
    relationships_from_keys, ColumnInfo, ColumnsArrived, DiagramKeys, ERColumn,
    ERDiagramResponse, ERTable, ForeignKeyInfo, RelationType, Relationship,
};

fn column(name: &str, primary: bool) -> ERColumn {
    ERColumn {
        name: name.to_string(),
        data_type: "INT".to_string(),
        is_primary_key: primary,
        is_foreign_key: false,
        nullable: false,
        default_value: None,
    }
}

fn table(name: &str, columns: &[(&str, bool)]) -> ERTable {
    let mut t = ERTable::new(name.to_string());
    t.columns = columns.iter().map(|(n, p)| column(n, *p)).collect();
    t
}

fn key(from_table: &str, from_column: &str, to_table: &str, to_column: &str) -> ForeignKeyInfo {
    ForeignKeyInfo {
        from_table: from_table.to_string(),
        from_column: from_column.to_string(),
        to_table: to_table.to_string(),
        to_column: to_column.to_string(),
    }
}

fn found(tables: &Vec<ERTable>) -> Vec<(String, String, String, String)> {
    infer_relationships_from_columns(tables)
        .into_iter()
        .map(|r| {
            assert_eq!(r.relation_type, RelationType::OneToMany);
            (r.from_table, r.from_column, r.to_table, r.to_column)
        })
        .collect()
}

fn link(a: &str, b: &str, c: &str) -> (String, String, String, String) {
    (a.to_string(), b.to_string(), c.to_string(), "id".to_string())
}

#[test]
fn column_names_refer_to_tables() {
    assert_eq!(reference_of("user_id").as_deref(), Some("user"));
    assert_eq!(reference_of("userid").as_deref(), Some("user"));
    assert_eq!(reference_of("user_id_id").as_deref(), Some("user"));
    assert_eq!(reference_of("paid").as_deref(), Some("pa"));
    assert_eq!(reference_of("idid").as_deref(), Some(""));
    assert_eq!(reference_of("_id").as_deref(), Some(""));
    assert_eq!(reference_of("id"), None);
    assert_eq!(reference_of("name"), None);
    assert_eq!(reference_of("user_ID"), None);
    assert_eq!(reference_of("xid").as_deref(), Some("x"));
    assert_eq!(reference_of("用户_id").as_deref(), Some("用户"));
}

#[test]
fn tables_go_by_names() {
    assert!(is_called("user", "user"));
    assert!(is_called("users", "user"));
    assert!(is_called("user_info", "user"));
    assert!(is_called("user_accounts", "user"));
    assert!(!is_called("userx", "user"));
    assert!(!is_called("use", "user"));
    assert!(!is_called("superuser", "user"));
    assert!(is_called("s", ""));
    assert!(is_called("_x", ""));
    assert!(!is_called("x", ""));
}

#[test]
fn relationships_are_guessed_from_column_names() {
    let tables = vec![
        table("orders", &[("id", true), ("User_ID", false), ("productid", false), ("note", false)]),
        table("Users", &[("id", true), ("order_id", true)]),
        table("product_info", &[("id", true), ("orders_id", false)]),
        table("products", &[("id", true)]),
    ];
    assert_eq!(
        found(&tables),
        vec![
            link("orders", "User_ID", "Users"),
            link("orders", "productid", "product_info"),
            link("product_info", "orders_id", "orders"),
        ]
    );
    assert!(found(&Vec::new()).is_empty());
}

#[test]
fn a_table_is_not_related_to_itself() {
    let tables = vec![
        table("node", &[("id", true), ("node_id", false)]),
        table("nodes", &[("id", true), ("node_id", false)]),
    ];
    assert_eq!(found(&tables), vec![link("node", "node_id", "nodes"), link("nodes", "node_id", "node")]);
    let twins = vec![table("t", &[("t_id", false)]), table("t", &[("t_id", false)])];
    assert!(found(&twins).is_empty());
}

#[test]
fn foreign_keys_become_relationships_and_marks() {
    let keys = vec![key("orders", "user_id", "users", "id"), key("orders", "missing", "x", "y"), key("none", "a", "b", "c")];
    let relationships = relationships_from_keys(&keys);
    assert_eq!(relationships.len(), 3);
    assert_eq!(relationships[0].from_table, "orders");
    assert_eq!(relationships[0].from_column, "user_id");
    assert_eq!(relationships[0].to_table, "users");
    assert_eq!(relationships[0].to_column, "id");
    assert_eq!(relationships[2].relation_type, RelationType::OneToMany);

    let mut tables = vec![
        table("users", &[("id", true)]),
        table("orders", &[("id", true), ("user_id", false), ("user_id", false)]),
        table("orders", &[("user_id", false)]),
    ];
    mark_foreign_keys(&mut tables, &keys);
    let marks: Vec<Vec<bool>> = tables.iter().map(|t| t.columns.iter().map(|c| c.is_foreign_key).collect()).collect();
    assert_eq!(marks, vec![vec![false], vec![false, true, false], vec![false]]);
    assert_eq!(tables[1].columns[1].name, "user_id");
    assert!(tables[1].columns[0].is_primary_key);
    mark_foreign_key(&mut tables, "users", "id");
    mark_foreign_key(&mut tables, "users", "nothing");
    assert!(tables[0].columns[0].is_foreign_key);
    assert!(tables[1].columns[1].is_foreign_key);
}

#[test]
fn the_diagram_is_loaded_when_every_table_has_columns() {
    assert!(all_loaded(&Vec::new()));
    assert!(all_loaded(&vec![table("a", &[("id", true)])]));
    assert!(!all_loaded(&vec![table("a", &[("id", true)]), table("b", &[])]));
    let t = ERTable::new("fresh".to_string());
    assert!(t.columns.is_empty() && !t.selected);
    assert_eq!(t.name, "fresh");
}

#[test]
fn diagram_keys_add_to_the_response() {
    let none = ERDiagramResponse::default();
    assert!(!none.refresh_requested && !none.layout_requested && !none.fit_view_requested);
    let r = none.with_keys(&DiagramKeys { r: true, l: false, f: true });
    assert_eq!(r, ERDiagramResponse { refresh_requested: true, layout_requested: false, fit_view_requested: true });
    let r = r.with_keys(&DiagramKeys { r: false, l: true, f: false });
    assert_eq!(r, ERDiagramResponse { refresh_requested: true, layout_requested: true, fit_view_requested: true });
}

fn info(name: &str, primary: bool) -> ColumnInfo {
    ColumnInfo {
        name: name.to_string(),
        data_type: "TEXT".to_string(),
        is_primary_key: primary,
        is_nullable: !primary,
        default_value: if primary { None } else { Some("x".to_string()) },
    }
}

#[test]
fn described_columns_become_columns_of_the_diagram() {
    let columns = columns_of(&vec![info("id", true), info("user_id", false)]);
    assert_eq!(columns.len(), 2);
    assert_eq!(columns[0].name, "id");
    assert_eq!(columns[0].data_type, "TEXT");
    assert!(columns[0].is_primary_key && !columns[0].nullable && !columns[0].is_foreign_key);
    assert_eq!(columns[0].default_value, None);
    assert_eq!(columns[1].name, "user_id");
    assert!(!columns[1].is_primary_key && columns[1].nullable && !columns[1].is_foreign_key);
    assert_eq!(columns[1].default_value.as_deref(), Some("x"));
    assert!(columns_of(&Vec::new()).is_empty());
}

#[test]
fn arriving_keys_mark_columns_and_give_the_relationships() {
    let mut tables = vec![
        table("users", &[("id", true)]),
        table("orders", &[("id", true), ("user_id", false)]),
    ];
    let stated = foreign_keys_fetched(&mut tables, &vec![key("orders", "id", "users", "id")]);
    assert_eq!(stated.len(), 1);
    assert_eq!(stated[0].from_column, "id");
    assert!(tables[1].columns[0].is_foreign_key);
    assert!(!tables[1].columns[1].is_foreign_key);

    let mut plain = vec![
        table("users", &[("id", true)]),
        table("orders", &[("id", true), ("user_id", false)]),
    ];
    let guessed = foreign_keys_fetched(&mut plain, &Vec::new());
    assert_eq!(guessed.len(), 1);
    assert_eq!(guessed[0].from_table, "orders");
    assert_eq!(guessed[0].from_column, "user_id");
    assert_eq!(guessed[0].to_table, "users");
    assert_eq!(guessed[0].to_column, "id");
    assert!(!plain[1].columns[1].is_foreign_key);
}

#[test]
fn arriving_columns_fill_the_first_table_of_the_name() {
    let mut tables = empty_tables(&vec!["users".to_string(), "orders".to_string(), "orders".to_string()]);
    assert_eq!(tables.len(), 3);
    assert_eq!(tables[1].name, "orders");
    assert!(tables.iter().all(|t| t.columns.is_empty() && !t.selected));
    let mut relationships: Vec<Relationship> = Vec::new();

    let r = columns_fetched(&mut tables, &mut relationships, "orders", &vec![info("id", true), info("user_id", false)]);
    assert_eq!(r, ColumnsArrived { measured: Some(1), laid_out: false, guessed: None });
    assert_eq!(tables[1].columns.len(), 2);
    assert!(tables[0].columns.is_empty() && tables[2].columns.is_empty());
    assert!(relationships.is_empty());

    let r = columns_fetched(&mut tables, &mut relationships, "missing", &vec![info("id", true)]);
    assert_eq!(r, ColumnsArrived { measured: None, laid_out: false, guessed: None });

    let r = columns_fetched(&mut tables, &mut relationships, "users", &vec![info("id", true)]);
    assert_eq!(r, ColumnsArrived { measured: Some(0), laid_out: false, guessed: None });

    tables.pop();
    let r = columns_fetched(&mut tables, &mut relationships, "users", &vec![info("id", true), info("name", false)]);
    assert_eq!(r, ColumnsArrived { measured: Some(0), laid_out: true, guessed: Some(1) });
    assert_eq!(tables[0].columns.len(), 2);
    assert_eq!(relationships.len(), 1);
    assert_eq!(relationships[0].from_table, "orders");
    assert_eq!(relationships[0].to_table, "users");

    let r = columns_fetched(&mut tables, &mut relationships, "orders", &vec![info("id", true)]);
    assert_eq!(r, ColumnsArrived { measured: Some(1), laid_out: true, guessed: None });
    assert_eq!(relationships.len(), 1);

    relationships.clear();
    let r = columns_fetched(&mut tables, &mut relationships, "nothing", &Vec::new());
    assert_eq!(r, ColumnsArrived { measured: None, laid_out: true, guessed: None });
    assert!(relationships.is_empty());

    let r = columns_fetched(&mut tables, &mut relationships, "orders", &Vec::new());
    assert_eq!(r, ColumnsArrived { measured: Some(1), laid_out: false, guessed: None });

    let mut none: Vec<ERTable> = Vec::new();
    let r = columns_fetched(&mut none, &mut relationships, "orders", &vec![info("id", true)]);
    assert_eq!(r, ColumnsArrived { measured: None, laid_out: false, guessed: None });
}

#[test]
fn the_diagram_reports_what_it_loaded() {
    assert_eq!(diagram_message(3, 2), "ER图: 3 张表, 2 个关系");
    assert_eq!(diagram_message(12, 0), "ER图: 12 张表（未发现外键关系）");
    assert_eq!(diagram_message(0, 0), "ER图: 0 张表（未发现外键关系）");
    assert_eq!(guessed_message(4), "ER图: 推断出 4 个关系");
    assert_eq!(loading_message(7, "shop"), "ER图: 加载 7 张表，正在获取结构... (shop)");
    assert_eq!(no_tables_message("shop"), "数据库 shop 没有表，请先选择数据库");
    assert_eq!(database_label(&Some("shop".to_string())), "shop");
    assert_eq!(database_label(&None), "未选择");
    assert_eq!(columns_error_message("users", "timeout"), "获取表 users 结构失败: timeout");
    assert_eq!(keys_error_message("timeout"), "加载外键关系失败: timeout");
}

#[test]
fn a_column_is_drawn_in_the_row_of_its_first_namesake() {
    let t = table("orders", &[("id", true), ("user_id", false), ("total", false), ("user_id", false)]);
    assert_eq!(column_row(&t, "id"), 0);
    assert_eq!(column_row(&t, "user_id"), 1);
    assert_eq!(column_row(&t, "total"), 2);
    assert_eq!(column_row(&t, "missing"), 0);
    assert_eq!(column_row(&t, "USER_ID"), 0);
    assert_eq!(column_row(&table("empty", &[]), "id"), 0);
}

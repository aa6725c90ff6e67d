use connector::api::{export_format, export_query, format_sql, ArrowResponse, FAILURE_CODE};
use connector::dialect::{
    command_names_dialect, connector_for_command, get_ast_dialect, get_dialect, select_connector, AstDialect, Connector, DialectPayload, DuckDbConnection,
    FileConnection, FolderConnection,
};
use connector::ident::{is_identifier, validate_fragment};
use connector::import::csv_import_sql;
use connector::model::{ConnectorError, RawArrowData, Title};
use connector::path::{extension, file_name};
use connector::separator::detect_separator_in;
use connector::sql::{
    count_sql, drop_table_sql, paging_sql, qualify, query_table_sql, resolve_name, show_column_sql,
    table_count_sql,
};
use connector::state::OpenedFiles;
use connector::text::decimal_string;

fn duck() -> DuckDbConnection {
    DuckDbConnection { path: "data/main.duckdb".to_string(), cwd: None }
}

#[test]
fn validator_accepts_allowed_shapes() {
    let c = duck();
    assert!(c.validator("'2024-01-01'"));
    assert!(c.validator("count(*)"));
    assert!(c.validator("user_id"));
    assert!(c.validator("_x9"));
    assert!(c.validator("sum(a, b)"));
}

#[test]
fn validator_rejects_injection() {
    let c = duck();
    assert!(!c.validator(""));
    assert!(!c.validator("1abc"));
    assert!(!c.validator("a; drop table x"));
    assert!(!c.validator("a b"));
    assert!(!c.validator("f(a)) or (1"));
    assert!(!c.validator("x--"));
    assert!(!c.validator("(a)"));
}

#[test]
fn identifier_shape() {
    assert!(is_identifier("abc_1"));
    assert!(!is_identifier("9a"));
    assert!(!is_identifier("a-b"));
    assert!(!validate_fragment("'"));
    assert!(!validate_fragment("'a'; drop table x; 'b'"));
    assert!(!validate_fragment("'it's'"));
    assert!(validate_fragment("'it''s'"));
    assert!(validate_fragment("''"));
    assert!(validate_fragment("'a b; c'"));
}

#[test]
fn normalize_quotes_names_with_space() {
    let c = duck();
    assert_eq!(c.normalize("my table"), "\"my table\"");
    assert_eq!(c.normalize("plain"), "plain");
    let f = FileConnection { path: "a.csv".to_string() };
    assert_eq!(f.normalize("my table"), "my table");
    assert_eq!(c.start_quote(), "\"");
    assert_eq!(c.end_quote(), "\"");
}

#[test]
fn table_count_without_condition() {
    assert_eq!(duck().table_count_sql("t", ""), "select count(*) from t");
    assert_eq!(table_count_sql("t", ""), "select count(*) from t");
}

#[test]
fn table_count_with_condition() {
    let q = duck().table_count_sql("t", "x>1");
    assert!(q.contains("where x>1"));
    assert_eq!(q, "select count(*) from t where x>1");
}

#[test]
fn paging_wraps_query_and_counts_unbounded() {
    let c = Connector::DuckDb(duck());
    let (page, count) = c.paging_plan("select * from t", Some(10), Some(0));
    assert_eq!(page, "select * from (select * from t) limit 10 offset 0");
    assert_eq!(count, "select count(*) from (select * from t)");
    assert_eq!(paging_sql("q", None, None), "q");
    assert_eq!(paging_sql("q", Some(5), None), "select * from (q) limit 5");
    assert_eq!(paging_sql("q", None, Some(7)), "select * from (q) offset 7");
    assert_eq!(count_sql("q"), "select count(*) from (q)");
}

#[test]
fn paged_total_is_the_unbounded_count() {
    let page: RawArrowData<Vec<u8>> = RawArrowData::from_query(Vec::new(), vec![1, 2], 10, "q");
    assert_eq!(page.total, 10);
    let paged = page.with_total(500);
    assert_eq!(paged.total, 500);
    assert_eq!(paged.batch, vec![1, 2]);
    assert_eq!(paged.sql.as_deref(), Some("q"));
}

#[test]
fn query_table_clauses() {
    assert_eq!(query_table_sql("t", "", ""), "select * from t");
    assert_eq!(query_table_sql("t", "a=1", "b desc"), "select * from t where a=1 order by b desc");
    let c = Connector::File(FileConnection { path: "a.csv".to_string() });
    let (page, count) = c.query_table_plan("t", 500, 0, "a=1", "");
    assert_eq!(page, "select * from (select * from t where a=1) limit 500 offset 0");
    assert_eq!(count, "select count(*) from (select * from t where a=1)");
}

#[test]
fn decimal_text() {
    assert_eq!(decimal_string(0), "0");
    assert_eq!(decimal_string(1234), "1234");
    assert_eq!(decimal_string(usize::MAX), usize::MAX.to_string());
}

#[test]
fn show_column_split_matches_explicit_schema() {
    let c = duck();
    let a = c.show_column_sql(None, "db.tbl");
    let b = c.show_column_sql(Some("db"), "tbl");
    assert_eq!(a, b);
    assert_eq!(
        a,
        "select * from information_schema.columns where table_schema='db' and table_name='tbl'"
    );
    assert_eq!(
        show_column_sql(None, "tbl"),
        "select * from information_schema.columns where table_schema='' and table_name='tbl'"
    );
    assert_eq!(show_column_sql(None, "a.b.c"), show_column_sql(Some("a"), "b.c"));
}

#[test]
fn name_resolution_and_drop() {
    assert_eq!(resolve_name(None, "s.t"), ("s".to_string(), "t".to_string()));
    assert_eq!(resolve_name(None, "t"), (String::new(), "t".to_string()));
    assert_eq!(resolve_name(Some("s"), "t"), ("s".to_string(), "t".to_string()));
    assert_eq!(qualify("", "t"), "t");
    assert_eq!(qualify("s", "t"), "s.t");
    assert_eq!(drop_table_sql(None, "s.t"), "drop table s.t");
    assert_eq!(drop_table_sql(Some("s"), "t"), "drop table s.t");
    assert_eq!(drop_table_sql(None, "t"), "drop table t");
    let f = Connector::File(FileConnection { path: "a.csv".to_string() });
    assert!(f.drop_table_sql(None, "t").is_err());
    assert!(f.show_column_sql(None, "t").is_err());
}

#[test]
fn separator_comma_majority() {
    assert_eq!(detect_separator_in("a,b,c\n1,2,3\n4;5,6\n"), ',');
}

#[test]
fn separator_semicolon_majority() {
    assert_eq!(detect_separator_in("a;b;c\n1;2;3,4\n"), ';');
}

#[test]
fn separator_other_and_default() {
    assert_eq!(detect_separator_in("a\tb\tc\n1\t2\t3\n"), '\t');
    assert_eq!(detect_separator_in("a|b\n1|2\n"), '|');
    assert_eq!(detect_separator_in("abc\n"), ',');
    assert_eq!(detect_separator_in(""), ',');
    assert_eq!(detect_separator_in("a;b,c"), ',');
}

#[test]
fn file_get_db_single_leaf() {
    let f = FileConnection { path: "D:/data/sales.csv".to_string() };
    let node = f.get_db().unwrap();
    assert_eq!(node.node_type, "csv");
    assert_eq!(node.name, "sales.csv");
    assert_eq!(node.path, "D:/data/sales.csv");
    assert!(node.children.is_none());
    let p = FileConnection { path: "/x/y.tar.parquet".to_string() };
    assert_eq!(p.get_db().unwrap().node_type, "parquet");
    let t = FileConnection { path: "/d/s.csv/".to_string() }.get_db().unwrap();
    assert_eq!(t.node_type, "csv");
    assert_eq!(t.name, "s.csv");
    assert_eq!(FileConnection { path: "/d/s.json/.".to_string() }.get_db().unwrap().node_type, "json");
}

#[test]
fn file_get_db_without_extension() {
    assert!(FileConnection { path: "/data/README".to_string() }.get_db().is_err());
    assert!(FileConnection { path: "/data/.hidden".to_string() }.get_db().is_err());
    assert!(FileConnection { path: "/d/..".to_string() }.get_db().is_err());
    assert!(FileConnection { path: "/".to_string() }.get_db().is_err());
    assert_eq!(file_name("/a/b/c.json"), Some("c.json".to_string()));
    assert_eq!(file_name("a//b//"), Some("b".to_string()));
    assert_eq!(file_name("/d/.."), None);
    assert_eq!(file_name("."), None);
    assert_eq!(extension("a."), Some(String::new()));
    assert_eq!(extension(".bashrc"), None);
    assert_eq!(extension("/a.b/c"), None);
    assert_eq!(extension("x.json"), Some("json".to_string()));
}

#[test]
fn response_from_success() {
    let titles = vec![Title { name: "a".to_string(), data_type: "Int32".to_string() }];
    let raw = RawArrowData::from_query(titles, Ok(vec![7u8, 8]), 3, "select 1");
    let r = ArrowResponse::from_raw_data(Ok(raw), Some(12));
    assert_eq!(r.code, 0);
    assert_eq!(r.total, 3);
    assert_eq!(r.data, vec![7, 8]);
    assert_eq!(r.sql.as_deref(), Some("select 1"));
    assert_eq!(r.titles.unwrap()[0].name, "a");
    assert_eq!(r.message, "");
    assert_eq!(r.elapsed, Some(12));
}

#[test]
fn response_from_failures() {
    let raw = RawArrowData::from_batch(Err::<Vec<u8>, String>("cannot encode".to_string()), 3);
    let r = ArrowResponse::from_raw_data(Ok(raw), None);
    assert_eq!(r.code, FAILURE_CODE);
    assert_eq!(r.code, 401);
    assert_eq!(r.message, "cannot encode");
    assert_eq!(r.total, 0);
    assert!(r.data.is_empty());
    let e = ArrowResponse::from_raw_data(Err(ConnectorError::Engine("no table t".to_string())), Some(1));
    assert_eq!(e.code, 401);
    assert_eq!(e.message, "no table t");
    assert_eq!(e.elapsed, Some(1));
}

#[test]
fn error_messages() {
    assert_eq!(ConnectorError::UnsupportedDialect("mysql".to_string()).message(), "not support dialect mysql");
    assert_eq!(ConnectorError::Rejected("a;b".to_string()).message(), "rejected identifier: a;b");
}

#[test]
fn format_sql_reflows() {
    let out = format_sql("select a, b from t where a = 1");
    assert_ne!(out, "select a, b from t where a = 1");
    assert!(out.contains('\n'));
}

#[test]
fn export_strips_preview_wrapper() {
    assert_eq!(export_query("select * from (select a from t) ____ limit 500 offset 0"), "select a from t");
    assert_eq!(export_query("select a from t"), "select a from t");
    assert_eq!(export_format(None, "out/result.parquet"), "parquet");
    assert_eq!(export_format(Some("json"), "out/result.parquet"), "json");
    assert_eq!(export_format(None, "result"), "result");
}

#[test]
fn dispatch_by_dialect() {
    let p = |d: &str, path: Option<&str>| DialectPayload {
        dialect: d.to_string(),
        path: path.map(|s| s.to_string()),
        cwd: Some("/w".to_string()),
    };
    match get_dialect(p("duckdb", Some("a.db"))) {
        Some(Connector::DuckDb(c)) => {
            assert_eq!(c.path, "a.db");
            assert_eq!(c.cwd.as_deref(), Some("/w"));
        },
        _ => panic!("expected duckdb"),
    }
    assert!(matches!(get_dialect(p("file", Some("a.csv"))), Some(Connector::File(_))));
    assert!(matches!(get_dialect(p("folder", Some("/d"))), Some(Connector::Folder(_))));
    assert!(get_dialect(p("mysql", Some("a"))).is_none());
    assert!(get_dialect(p("duckdb", None)).is_none());
    assert_eq!(get_dialect(p("folder", Some("/d"))).unwrap().dialect(), "folder");
}

#[test]
fn connect_targets() {
    let c = Connector::DuckDb(DuckDbConnection { path: "a.db".to_string(), cwd: Some("/w".to_string()) });
    let t = c.connect();
    assert_eq!(t.path.as_deref(), Some("a.db"));
    assert_eq!(t.cwd.as_deref(), Some("/w"));
    let f = Connector::File(FileConnection { path: "a.csv".to_string() }).connect();
    assert!(f.path.is_none());
    let d = Connector::Folder(FolderConnection { path: "/d".to_string(), cwd: None }).connect();
    assert_eq!(d.cwd.as_deref(), Some("/d"));
}

#[test]
fn ast_dialects() {
    assert_eq!(get_ast_dialect("duckdb"), AstDialect::DuckDb);
    assert_eq!(get_ast_dialect("file"), AstDialect::DuckDb);
    assert_eq!(get_ast_dialect("folder"), AstDialect::DuckDb);
    assert_eq!(get_ast_dialect("postgres"), AstDialect::Generic);
}

#[test]
fn csv_import_statement() {
    assert_eq!(
        csv_import_sql("t", "a.csv", "true", ';', "\""),
        "CREATE TABLE t AS SELECT * FROM read_csv('a.csv', all_varchar=true, sep=';', quote='\"');"
    );
}

#[test]
fn opened_files_listing() {
    assert!(OpenedFiles(None).opened_files().is_empty());
    let o = OpenedFiles(Some(vec!["a.csv".to_string(), "b.db".to_string()]));
    assert_eq!(o.opened_files(), vec!["a.csv".to_string(), "b.db".to_string()]);
}

#[test]
fn checked_builders_reject_unsafe_names() {
    let c = Connector::DuckDb(duck());
    assert_eq!(c.checked_table_count_sql("t", "x>1").unwrap(), "select count(*) from t where x>1");
    match c.checked_table_count_sql("t; drop table u", "") {
        Err(ConnectorError::Rejected(s)) => assert_eq!(s, "t; drop table u"),
        _ => panic!("expected a rejection"),
    }
    assert!(c.check_identifier("orders").is_ok());
    assert!(c.checked_query_table_plan("1t", 10, 0, "", "").is_err());
    let (page, _) = c.checked_query_table_plan("t", 10, 20, "", "a").unwrap();
    assert_eq!(page, "select * from (select * from t order by a) limit 10 offset 20");
}

#[test]
fn database_tree_lists_tables() {
    let c = duck();
    let t = c.database_tree(vec![
        ("main".to_string(), "orders".to_string()),
        (String::new(), "loose".to_string()),
    ]);
    assert_eq!(t.name, "main.duckdb");
    assert_eq!(t.node_type, "database");
    let ch = t.children.unwrap();
    assert_eq!(ch.len(), 2);
    assert_eq!(ch[0].path, "data/main.duckdb#0/main.orders");
    assert_eq!(ch[0].name, "orders");
    assert_eq!(ch[1].path, "data/main.duckdb#1/loose");
    let amb = c.database_tree(vec![
        ("a".to_string(), "b.c".to_string()),
        ("a.b".to_string(), "c".to_string()),
    ]);
    let kids = amb.children.unwrap();
    assert_ne!(kids[0].path, kids[1].path);
    assert!(ch[1].children.is_none());
    assert!(c.tables_sql().starts_with("select table_schema"));
}

#[test]
fn folder_tree_types_entries() {
    let f = FolderConnection { path: "/data/lake".to_string(), cwd: None };
    let t = f.folder_tree(vec![
        ("/data/lake/a.parquet".to_string(), false),
        ("/data/lake/raw".to_string(), true),
        ("/data/lake/NOTES".to_string(), false),
    ]);
    assert_eq!(t.name, "lake");
    assert_eq!(t.node_type, "folder");
    let ch = t.children.unwrap();
    assert_eq!(ch[0].node_type, "parquet");
    assert_eq!(ch[0].name, "a.parquet");
    assert!(ch[0].children.is_none());
    assert_eq!(ch[1].node_type, "directory");
    assert_eq!(ch[1].children.as_ref().map(|c| c.len()), Some(0));
    assert_eq!(ch[2].node_type, "file");
}

#[test]
fn catalog_and_export_statements() {
    let c = duck();
    assert_eq!(
        c.show_schema_sql("main"),
        "select * from information_schema.tables where table_schema='main'"
    );
    assert!(c.all_columns_sql().contains("from information_schema.columns"));
    assert_eq!(
        c.export_sql("select * from (select a from t) ____ limit 500 offset 0", "out/a.parquet", None),
        "COPY (select a from t) TO 'out/a.parquet' (FORMAT parquet)"
    );
    assert_eq!(
        c.export_sql("select 1", "out/a.txt", Some("csv")),
        "COPY (select 1) TO 'out/a.txt' (FORMAT csv)"
    );
}

#[test]
fn checked_show_and_drop_reject_unsafe_names() {
    let c = Connector::DuckDb(duck());
    assert_eq!(c.checked_show_column_sql(None, "db.tbl").unwrap(), c.show_column_sql(Some("db"), "tbl").unwrap());
    assert_eq!(c.checked_drop_table_sql(None, "t").unwrap(), "drop table t");
    assert!(matches!(c.checked_drop_table_sql(None, "t; drop table u"), Err(ConnectorError::Rejected(_))));
    assert!(matches!(c.checked_show_column_sql(Some("a b"), "t"), Err(ConnectorError::Rejected(_))));
    assert!(matches!(c.checked_show_column_sql(None, "s.x'y"), Err(ConnectorError::Rejected(_))));
    let f = Connector::File(FileConnection { path: "a.csv".to_string() });
    assert!(matches!(f.checked_drop_table_sql(None, "t"), Err(ConnectorError::Unsupported(_))));
}

#[test]
fn select_connector_tells_failures_apart() {
    let p = |d: &str, path: Option<&str>| DialectPayload {
        dialect: d.to_string(),
        path: path.map(|s| s.to_string()),
        cwd: None,
    };
    assert!(matches!(select_connector(p("file", Some("a.csv"))), Ok(Connector::File(_))));
    match select_connector(p("mysql", Some("a"))) {
        Err(ConnectorError::UnsupportedDialect(d)) => assert_eq!(d, "mysql"),
        _ => panic!("expected an unsupported dialect"),
    }
    assert!(matches!(select_connector(p("duckdb", None)), Err(ConnectorError::MissingPath)));
    assert_eq!(ConnectorError::MissingPath.message(), "missing path");
}

#[test]
fn paged_join_takes_the_count() {
    let page: Result<RawArrowData<Vec<u8>>, ConnectorError> =
        Ok(RawArrowData::from_query(Vec::new(), vec![0; 10], 10, "select * from (t) limit 10 offset 0"));
    let r = RawArrowData::paged(page, Ok(500)).unwrap();
    assert_eq!(r.total, 500);
    assert_eq!(r.batch.len(), 10);
    let failed = RawArrowData::<Vec<u8>>::paged(Ok(RawArrowData::from_batch(vec![], 0)), Err(ConnectorError::Engine("boom".to_string())));
    assert!(matches!(failed, Err(ConnectorError::Engine(m)) if m == "boom"));
}

#[test]
fn preview_wrapper_edges() {
    let multi = "select * from (select a\nfrom t) ____ limit 500 offset 0";
    assert_eq!(export_query(multi), multi);
    assert_eq!(
        export_query("x select * from (a) ____ limit 500 offset 0 y select * from (b) ____ limit 500 offset 0"),
        "x a y select * from (b) ____ limit 500 offset 0"
    );
}

#[test]
fn unsupported_dialect_text_per_command() {
    let p = || DialectPayload { dialect: "mysql".to_string(), path: None, cwd: None };
    for cmd in ["query", "paging_query", "table_row_count", "export", "get_db"] {
        assert!(!command_names_dialect(cmd));
        let e = connector_for_command(p(), cmd).unwrap_err();
        assert_eq!(e.message(), "not support dialect");
    }
    for cmd in ["query_table", "show_schema", "show_column", "drop_table", "find", "all_columns"] {
        assert!(command_names_dialect(cmd));
        let e = connector_for_command(p(), cmd).unwrap_err();
        assert_eq!(e.message(), "not support dialect mysql");
    }
    assert!(matches!(
        connector_for_command(DialectPayload { dialect: "file".to_string(), path: None, cwd: None }, "query"),
        Err(ConnectorError::MissingPath)
    ));
    assert_eq!(ConnectorError::Engine("x".to_string()).for_command(false).message(), "x");
}

#[test]
fn database_tree_keeps_schema() {
    let t = duck().database_tree(vec![("main".to_string(), "orders".to_string())]);
    assert_eq!(t.children.unwrap()[0].schema.as_deref(), Some("main"));
}

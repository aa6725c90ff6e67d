use vstd::prelude::*;
use crate::ident::{is_safe_fragment, normalized, validate_fragment};
use crate::model::{ConnectorError, TreeNode};
use crate::path::{display_name, display_name_of, extension, extension_of};
use crate::sql::{
    count_sql, count_text, drop_table_sql, drop_table_text, normalize_name, paging_sql,
    paging_text, query_table_sql, query_table_text, show_column_sql, show_column_text,
    qualified, qualify, resolve_name, resolved_name, table_count_sql, table_count_text, show_schema_sql, show_schema_text,
    export_sql, export_text,
};
use crate::api::{export_format, export_format_of, export_query, preview_unwrapped};
use crate::text::{decimal, decimal_string, lemma_decimal_digits, lemma_decimal_injective, str_equal};

verus! {

/// Which source a request is about, and where it lies.
#[derive(Debug, Clone)]
pub struct DialectPayload {
    pub dialect: String,
    pub path: Option<String>,
    pub cwd: Option<String>,
}

/// What the embedded engine is opened on: a database file, or memory when
/// `path` is `None`; `cwd` is the directory to resolve relative paths from.
#[derive(Debug, Clone)]
pub struct OpenTarget {
    pub path: Option<String>,
    pub cwd: Option<String>,
}

/// A database file opened directly by the embedded engine.
#[derive(Debug, Clone)]
pub struct DuckDbConnection {
    pub path: String,
    pub cwd: Option<String>,
}

/// A single flat file, queried through an in-memory engine.
#[derive(Debug, Clone)]
pub struct FileConnection {
    pub path: String,
}

/// A directory whose files are the tables.
#[derive(Debug, Clone)]
pub struct FolderConnection {
    pub path: String,
    pub cwd: Option<String>,
}

/// One connector of each supported source kind.
#[derive(Debug, Clone)]
pub enum Connector {
    DuckDb(DuckDbConnection),
    File(FileConnection),
    Folder(FolderConnection),
}

/// The grammar a statement of a dialect is parsed with.
#[derive(Debug, Clone, Copy, PartialEq, Eq)]
pub enum AstDialect {
    DuckDb,
    Generic,
}

pub open spec fn opt_str_view(o: Option<&str>) -> Option<Seq<char>> {
    match o {
        Some(s) => Some(s@),
        None => None,
    }
}

/// Both parts of a resolved table argument pass the validator; an empty
/// schema part is left out.
pub open spec fn resolved_name_safe(schema: Option<Seq<char>>, table: Seq<char>) -> bool {
    let (db, tbl) = resolved_name(schema, table);
    (db.len() == 0 || is_safe_fragment(db)) && is_safe_fragment(tbl)
}

pub open spec fn opt_view(o: Option<String>) -> Option<Seq<char>> {
    match o {
        Some(s) => Some(s@),
        None => None,
    }
}

impl DuckDbConnection {
    pub fn dialect(&self) -> (r: &'static str)
        ensures
            r@ == "duckdb"@,
    {
        "duckdb"
    }

    /// The engine is opened on the database file, from the working directory.
    pub fn connect(&self) -> (r: OpenTarget)
        ensures
            opt_view(r.path) == Some(self.path@),
            opt_view(r.cwd) == opt_view(self.cwd),
    {
        OpenTarget { path: Some(self.path.clone()), cwd: self.cwd.clone() }
    }

    /// Double-quotes a name that holds a space.
    pub fn normalize(&self, name: &str) -> (r: String)
        ensures
            r@ == normalized(name@),
    {
        normalize_name(name)
    }

    pub fn start_quote(&self) -> (r: &'static str)
        ensures
            r@ == "\""@,
    {
        "\""
    }

    pub fn end_quote(&self) -> (r: &'static str)
        ensures
            r@ == "\""@,
    {
        "\""
    }

    /// Accepts a single-quoted literal, a call `name(args)`, or a bare identifier.
    pub fn validator(&self, id: &str) -> (r: bool)
        ensures
            r == is_safe_fragment(id@),
    {
        validate_fragment(id)
    }

    /// `select count(*) from <table> [where <cond>]`.
    pub fn table_count_sql(&self, table: &str, cond: &str) -> (r: String)
        ensures
            r@ == table_count_text(table@, cond@),
    {
        table_count_sql(table, cond)
    }

    /// The information-schema query behind `show_column`.
    pub fn show_column_sql(&self, schema: Option<&str>, table: &str) -> (r: String)
        ensures
            r@ == show_column_text(
                match schema {
                    Some(s) => Some(s@),
                    None => None,
                },
                table@,
            ),
    {
        show_column_sql(schema, table)
    }

    /// The statement behind `drop_table`.
    pub fn drop_table_sql(&self, schema: Option<&str>, table: &str) -> (r: String)
        ensures
            r@ == drop_table_text(
                match schema {
                    Some(s) => Some(s@),
                    None => None,
                },
                table@,
            ),
    {
        drop_table_sql(schema, table)
    }
}

/// Locator of the `i`-th table of a database file in its schema tree.
pub open spec fn table_locator(root: Seq<char>, i: nat, schema: Seq<char>, table: Seq<char>) -> Seq<
    char,
> {
    root + seq!['#'] + decimal(i) + seq!['/'] + qualified(schema, table)
}

/// Tables at different positions get different locators, and none of them is
/// the locator of the database itself.
pub proof fn lemma_table_locators_distinct(
    root: Seq<char>,
    i: nat,
    j: nat,
    s1: Seq<char>,
    t1: Seq<char>,
    s2: Seq<char>,
    t2: Seq<char>,
)
    requires
        i != j,
    ensures
        table_locator(root, i, s1, t1) != table_locator(root, j, s2, t2),
        table_locator(root, i, s1, t1) != root,
{
    let a = table_locator(root, i, s1, t1);
    let b = table_locator(root, j, s2, t2);
    let di = decimal(i);
    let dj = decimal(j);
    lemma_decimal_digits(i);
    lemma_decimal_digits(j);
    let l: int = root.len() as int + 1;
    assert(a.len() > root.len());
    if a == b {
        assert forall|k: int| 0 <= k < di.len() implies a[l + k] == di[k] by {}
        assert forall|k: int| 0 <= k < dj.len() implies b[l + k] == dj[k] by {}
        assert(a[l + di.len() as int] == '/');
        assert(b[l + dj.len() as int] == '/');
        if di.len() < dj.len() {
            assert(b[l + di.len() as int] == dj[di.len() as int]);
        } else if dj.len() < di.len() {
            assert(a[l + dj.len() as int] == di[dj.len() as int]);
        } else {
            assert(di =~= dj) by {
                assert forall|k: int| 0 <= k < di.len() implies di[k] == dj[k] by {
                    assert(a[l + k] == di[k]);
                    assert(b[l + k] == dj[k]);
                }
            }
            lemma_decimal_injective(i, j);
        }
    }
}

impl DuckDbConnection {
    /// The catalog query behind `show_schema`.
    pub fn show_schema_sql(&self, schema: &str) -> (r: String)
        ensures
            r@ == show_schema_text(schema@),
    {
        show_schema_sql(schema)
    }

    /// The catalog query behind `all_columns`: database, schema, table,
    /// column, type and nullability of every column, in catalog order.
    pub fn all_columns_sql(&self) -> (r: &'static str)
        ensures
            r@ == "select table_catalog, table_schema, table_name, column_name, data_type, is_nullable = 'YES' from information_schema.columns order by table_catalog, table_schema, table_name, ordinal_position"@,
    {
        "select table_catalog, table_schema, table_name, column_name, data_type, is_nullable = 'YES' from information_schema.columns order by table_catalog, table_schema, table_name, ordinal_position"
    }

    /// The copy statement behind `export`: the previewed query without its
    /// preview wrapper, written to `file` in the chosen format.
    pub fn export_sql(&self, sql: &str, file: &str, format: Option<&str>) -> (r: String)
        ensures
            r@ == export_text(
                preview_unwrapped(sql@),
                file@,
                export_format_of(
                    match format {
                        Some(f) => Some(f@),
                        None => None,
                    },
                    file@,
                ),
            ),
    {
        let q = export_query(sql);
        let f = export_format(format, file);
        export_sql(q.as_str(), file, f.as_str())
    }

    /// The catalog query whose rows `database_tree` arranges.
    pub fn tables_sql(&self) -> (r: &'static str)
        ensures
            r@ == "select table_schema, table_name from information_schema.tables order by table_schema, table_name"@,
    {
        "select table_schema, table_name from information_schema.tables order by table_schema, table_name"
    }

    /// The schema tree of a database file: a root for the file with one leaf
    /// per `(schema, table)` row of the catalog, in the rows' order. A leaf's
    /// path is the file's path, `#`, the row's position and `/schema.table`,
    /// so no two nodes of the tree share a path.
    pub fn database_tree(&self, tables: Vec<(String, String)>) -> (r: TreeNode)
        ensures
            r.path@ == self.path@,
            r.name@ == display_name_of(self.path@),
            r.node_type@ == "database"@,
            r.children matches Some(ch) && ch@.len() == tables@.len() && forall|i: int|
                0 <= i < tables@.len() ==> {
                    &&& (#[trigger] ch@[i]).path@ == table_locator(
                        self.path@,
                        i as nat,
                        tables@[i].0@,
                        tables@[i].1@,
                    )
                    &&& ch@[i].name@ == tables@[i].1@
                    &&& ch@[i].node_type@ == "table"@
                    &&& opt_view(ch@[i].schema) == Some(tables@[i].0@)
                    &&& ch@[i].children is None
                },
            r.children matches Some(ch) && forall|i: int, j: int|
                0 <= i < ch@.len() && 0 <= j < ch@.len() && i != j ==> (#[trigger] ch@[i]).path@
                    != (#[trigger] ch@[j]).path@ && ch@[i].path@ != r.path@,
    {
        let mut children: Vec<TreeNode> = Vec::new();
        let mut i: usize = 0;
        while i < tables.len()
            invariant
                i <= tables@.len(),
                children@.len() == i,
                forall|j: int|
                    0 <= j < i ==> {
                        &&& (#[trigger] children@[j]).path@ == table_locator(
                            self.path@,
                            j as nat,
                            tables@[j].0@,
                            tables@[j].1@,
                        )
                        &&& children@[j].name@ == tables@[j].1@
                        &&& children@[j].node_type@ == "table"@
                        &&& opt_view(children@[j].schema) == Some(tables@[j].0@)
                        &&& children@[j].children is None
                    },
            decreases tables@.len() - i,
        {
            let (schema, table) = &tables[i];
            let mut path = self.path.clone();
            path.append("#");
            let d = decimal_string(i);
            path.append(d.as_str());
            path.append("/");
            let q = qualify(schema.as_str(), table.as_str());
            path.append(q.as_str());
            proof {
                reveal_strlit("#");
                reveal_strlit("/");
                assert(path@ =~= table_locator(self.path@, i as nat, schema@, table@));
            }
            children.push(
                TreeNode {
                    path,
                    name: table.clone(),
                    node_type: String::from_str("table"),
                    schema: Some(schema.clone()),
                    children: None,
                    size: None,
                    comment: None,
                },
            );
            i = i + 1;
        }
        proof {
            assert forall|a: int, b: int|
                0 <= a < children@.len() && 0 <= b < children@.len() && a != b implies (
                #[trigger] children@[a]).path@ != (#[trigger] children@[b]).path@
                && children@[a].path@ != self.path@ by {
                lemma_table_locators_distinct(
                    self.path@,
                    a as nat,
                    b as nat,
                    tables@[a].0@,
                    tables@[a].1@,
                    tables@[b].0@,
                    tables@[b].1@,
                );
            }
        }
        TreeNode {
            path: self.path.clone(),
            name: display_name(self.path.as_str()),
            node_type: String::from_str("database"),
            schema: None,
            children: Some(children),
            size: None,
            comment: None,
        }
    }
}

impl FileConnection {
    pub fn dialect(&self) -> (r: &'static str)
        ensures
            r@ == "file"@,
    {
        "file"
    }

    /// The file is read by an engine that lives in memory.
    pub fn connect(&self) -> (r: OpenTarget)
        ensures
            r.path is None,
            r.cwd is None,
    {
        OpenTarget { path: None, cwd: None }
    }

    /// Names need no quoting in the scope of a single file.
    pub fn normalize(&self, name: &str) -> (r: String)
        ensures
            r@ == name@,
    {
        String::from_str(name)
    }

    /// `select count(*) from <table> [where <cond>]`.
    pub fn table_count_sql(&self, table: &str, cond: &str) -> (r: String)
        ensures
            r@ == table_count_text(table@, cond@),
    {
        table_count_sql(table, cond)
    }

    /// The schema tree of a file: one leaf typed by the file's extension.
    /// A path without an extension has no type to give it.
    pub fn get_db(&self) -> (r: Result<TreeNode, ConnectorError>)
        ensures
            r is Ok <==> extension_of(self.path@) is Some,
            r matches Ok(node) ==> {
                &&& node.path@ == self.path@
                &&& node.name@ == display_name_of(self.path@)
                &&& extension_of(self.path@) == Some(node.node_type@)
                &&& node.children is None
                &&& node.schema is None
                &&& node.size is None
                &&& node.comment is None
            },
    {
        match extension(self.path.as_str()) {
            Some(ext) => Ok(
                TreeNode {
                    path: self.path.clone(),
                    name: display_name(self.path.as_str()),
                    node_type: ext,
                    schema: None,
                    children: None,
                    size: None,
                    comment: None,
                },
            ),
            None => Err(ConnectorError::Unsupported(String::from_str("file has no extension"))),
        }
    }
}

impl FolderConnection {
    pub fn dialect(&self) -> (r: &'static str)
        ensures
            r@ == "folder"@,
    {
        "folder"
    }

    /// Files are read by an in-memory engine that resolves table names
    /// relative to the folder.
    pub fn connect(&self) -> (r: OpenTarget)
        ensures
            r.path is None,
            opt_view(r.cwd) == Some(self.path@),
    {
        OpenTarget { path: None, cwd: Some(self.path.clone()) }
    }
}

/// The tree type of a directory entry: `directory` for a directory, the
/// extension for a file that has one, `file` for one that has none.
pub open spec fn entry_type(path: Seq<char>, is_dir: bool) -> Seq<char> {
    if is_dir {
        "directory"@
    } else {
        match extension_of(path) {
            Some(e) => e,
            None => "file"@,
        }
    }
}

impl FolderConnection {
    /// The schema tree of a folder: a root with one node per entry, in the
    /// entries' order; directories are empty containers, files are leaves.
    pub fn folder_tree(&self, entries: Vec<(String, bool)>) -> (r: TreeNode)
        ensures
            r.path@ == self.path@,
            r.name@ == display_name_of(self.path@),
            r.node_type@ == "folder"@,
            r.children matches Some(ch) && ch@.len() == entries@.len() && forall|i: int|
                0 <= i < entries@.len() ==> {
                    &&& (#[trigger] ch@[i]).path@ == entries@[i].0@
                    &&& ch@[i].name@ == display_name_of(entries@[i].0@)
                    &&& ch@[i].node_type@ == entry_type(entries@[i].0@, entries@[i].1)
                    &&& (ch@[i].children is Some <==> entries@[i].1)
                },
    {
        let mut children: Vec<TreeNode> = Vec::new();
        let mut i: usize = 0;
        while i < entries.len()
            invariant
                i <= entries@.len(),
                children@.len() == i,
                forall|j: int|
                    0 <= j < i ==> {
                        &&& (#[trigger] children@[j]).path@ == entries@[j].0@
                        &&& children@[j].name@ == display_name_of(entries@[j].0@)
                        &&& children@[j].node_type@ == entry_type(entries@[j].0@, entries@[j].1)
                        &&& (children@[j].children is Some <==> entries@[j].1)
                    },
            decreases entries@.len() - i,
        {
            let (path, is_dir) = &entries[i];
            let node_type = if *is_dir {
                String::from_str("directory")
            } else {
                match extension(path.as_str()) {
                    Some(e) => e,
                    None => String::from_str("file"),
                }
            };
            let kids: Option<Vec<TreeNode>> = if *is_dir {
                Some(Vec::new())
            } else {
                None
            };
            children.push(
                TreeNode {
                    path: path.clone(),
                    name: display_name(path.as_str()),
                    node_type,
                    schema: None,
                    children: kids,
                    size: None,
                    comment: None,
                },
            );
            i = i + 1;
        }
        TreeNode {
            path: self.path.clone(),
            name: display_name(self.path.as_str()),
            node_type: String::from_str("folder"),
            schema: None,
            children: Some(children),
            size: None,
            comment: None,
        }
    }
}

/// Whether a dialect name selects one of the known connectors.
pub open spec fn is_known_dialect(d: Seq<char>) -> bool {
    d == "duckdb"@ || d == "file"@ || d == "folder"@
}

impl Connector {
    pub open spec fn kind(&self) -> Seq<char> {
        match self {
            Connector::DuckDb(_) => "duckdb"@,
            Connector::File(_) => "file"@,
            Connector::Folder(_) => "folder"@,
        }
    }

    pub open spec fn source_path(&self) -> Seq<char> {
        match self {
            Connector::DuckDb(c) => c.path@,
            Connector::File(c) => c.path@,
            Connector::Folder(c) => c.path@,
        }
    }

    /// The discriminator of the connector kind.
    pub fn dialect(&self) -> (r: &'static str)
        ensures
            r@ == self.kind(),
    {
        match self {
            Connector::DuckDb(c) => c.dialect(),
            Connector::File(c) => c.dialect(),
            Connector::Folder(c) => c.dialect(),
        }
    }

    /// What the engine is opened on for this source.
    pub fn connect(&self) -> (r: OpenTarget)
        ensures
            match self {
                Connector::DuckDb(c) => opt_view(r.path) == Some(c.path@) && opt_view(r.cwd)
                    == opt_view(c.cwd),
                Connector::File(_) => r.path is None && r.cwd is None,
                Connector::Folder(c) => r.path is None && opt_view(r.cwd) == Some(c.path@),
            },
    {
        match self {
            Connector::DuckDb(c) => c.connect(),
            Connector::File(c) => c.connect(),
            Connector::Folder(c) => c.connect(),
        }
    }

    /// Quotes a name as the source needs it: double quotes around a name
    /// with a space for a database file, the name as it is otherwise.
    pub fn normalize(&self, name: &str) -> (r: String)
        ensures
            r@ == match self {
                Connector::DuckDb(_) => normalized(name@),
                _ => name@,
            },
    {
        match self {
            Connector::DuckDb(c) => c.normalize(name),
            _ => String::from_str(name),
        }
    }

    /// The allow-list check shared by every connector.
    pub fn validator(&self, id: &str) -> (r: bool)
        ensures
            r == is_safe_fragment(id@),
    {
        validate_fragment(id)
    }

    /// `select count(*) from <table> [where <cond>]`.
    pub fn table_count_sql(&self, table: &str, cond: &str) -> (r: String)
        ensures
            r@ == table_count_text(table@, cond@),
    {
        table_count_sql(table, cond)
    }

    /// Gate for a name that is spliced into generated SQL: passes when the
    /// validator accepts it, a rejection before any SQL is built otherwise.
    pub fn check_identifier(&self, id: &str) -> (r: Result<(), ConnectorError>)
        ensures
            r is Ok <==> is_safe_fragment(id@),
            r matches Err(e) ==> e matches ConnectorError::Rejected(s) && s@ == id@,
    {
        if self.validator(id) {
            Ok(())
        } else {
            Err(ConnectorError::Rejected(String::from_str(id)))
        }
    }

    /// `table_count_sql` for a table name that passes the validator.
    pub fn checked_table_count_sql(&self, table: &str, cond: &str) -> (r: Result<
        String,
        ConnectorError,
    >)
        ensures
            r is Ok <==> is_safe_fragment(table@),
            r matches Ok(q) ==> q@ == table_count_text(table@, cond@),
            r matches Err(e) ==> e matches ConnectorError::Rejected(s) && s@ == table@,
    {
        match self.check_identifier(table) {
            Ok(()) => Ok(self.table_count_sql(table, cond)),
            Err(e) => Err(e),
        }
    }

    /// `query_table_plan` for a table name that passes the validator.
    pub fn checked_query_table_plan(
        &self,
        table: &str,
        limit: usize,
        offset: usize,
        cond: &str,
        order_by: &str,
    ) -> (r: Result<(String, String), ConnectorError>)
        ensures
            r is Ok <==> is_safe_fragment(table@),
            r matches Ok(p) ==> p.0@ == paging_text(
                query_table_text(table@, cond@, order_by@),
                Some(limit),
                Some(offset),
            ) && p.1@ == count_text(query_table_text(table@, cond@, order_by@)),
            r matches Err(e) ==> e matches ConnectorError::Rejected(s) && s@ == table@,
    {
        match self.check_identifier(table) {
            Ok(()) => Ok(self.query_table_plan(table, limit, offset, cond, order_by)),
            Err(e) => Err(e),
        }
    }

    /// The two statements of a paged query: the bounded window, and the count
    /// of the unbounded query that gives the result's `total`.
    pub fn paging_plan(&self, sql: &str, limit: Option<usize>, offset: Option<usize>) -> (r: (
        String,
        String,
    ))
        ensures
            r.0@ == paging_text(sql@, limit, offset),
            r.1@ == count_text(sql@),
    {
        (paging_sql(sql, limit, offset), count_sql(sql))
    }

    /// The two statements of a table browse: a `select *` with the optional
    /// filter and order, paged, and its count.
    pub fn query_table_plan(
        &self,
        table: &str,
        limit: usize,
        offset: usize,
        cond: &str,
        order_by: &str,
    ) -> (r: (String, String))
        ensures
            r.0@ == paging_text(query_table_text(table@, cond@, order_by@), Some(limit), Some(offset)),
            r.1@ == count_text(query_table_text(table@, cond@, order_by@)),
    {
        let base = query_table_sql(table, cond, order_by);
        self.paging_plan(base.as_str(), Some(limit), Some(offset))
    }

    /// The column listing query; only a database file has a catalog to ask.
    pub fn show_column_sql(&self, schema: Option<&str>, table: &str) -> (r: Result<
        String,
        ConnectorError,
    >)
        ensures
            r is Ok <==> self is DuckDb,
            r matches Ok(q) ==> q@ == show_column_text(
                match schema {
                    Some(s) => Some(s@),
                    None => None,
                },
                table@,
            ),
    {
        match self {
            Connector::DuckDb(c) => Ok(c.show_column_sql(schema, table)),
            _ => Err(ConnectorError::Unsupported(String::from_str("show_column is not supported"))),
        }
    }

    /// Gate for a table argument as `show_column` and `drop_table` resolve it:
    /// the table part, and the schema part when it is not empty, must pass
    /// the validator.
    pub fn check_resolved_name(&self, schema: Option<&str>, table: &str) -> (r: Result<
        (),
        ConnectorError,
    >)
        ensures
            r is Ok <==> resolved_name_safe(opt_str_view(schema), table@),
            r matches Err(e) ==> e is Rejected,
    {
        let (db, tbl) = resolve_name(schema, table);
        if db.as_str().unicode_len() != 0 {
            self.check_identifier(db.as_str())?;
        }
        self.check_identifier(tbl.as_str())
    }

    /// `show_column_sql` for names that pass the validator.
    pub fn checked_show_column_sql(&self, schema: Option<&str>, table: &str) -> (r: Result<
        String,
        ConnectorError,
    >)
        ensures
            r is Ok <==> self is DuckDb && resolved_name_safe(opt_str_view(schema), table@),
            r matches Ok(q) ==> q@ == show_column_text(opt_str_view(schema), table@),
            self is DuckDb && !resolved_name_safe(opt_str_view(schema), table@) ==> (r matches Err(
                e,
            ) && e is Rejected),
    {
        if let Connector::DuckDb(_) = self {
            self.check_resolved_name(schema, table)?;
        }
        self.show_column_sql(schema, table)
    }

    /// `drop_table_sql` for names that pass the validator.
    pub fn checked_drop_table_sql(&self, schema: Option<&str>, table: &str) -> (r: Result<
        String,
        ConnectorError,
    >)
        ensures
            r is Ok <==> self is DuckDb && resolved_name_safe(opt_str_view(schema), table@),
            r matches Ok(q) ==> q@ == drop_table_text(opt_str_view(schema), table@),
            self is DuckDb && !resolved_name_safe(opt_str_view(schema), table@) ==> (r matches Err(
                e,
            ) && e is Rejected),
    {
        if let Connector::DuckDb(_) = self {
            self.check_resolved_name(schema, table)?;
        }
        self.drop_table_sql(schema, table)
    }

    /// The drop statement; only a database file holds tables to drop.
    pub fn drop_table_sql(&self, schema: Option<&str>, table: &str) -> (r: Result<
        String,
        ConnectorError,
    >)
        ensures
            r is Ok <==> self is DuckDb,
            r matches Ok(q) ==> q@ == drop_table_text(
                match schema {
                    Some(s) => Some(s@),
                    None => None,
                },
                table@,
            ),
    {
        match self {
            Connector::DuckDb(c) => Ok(c.drop_table_sql(schema, table)),
            _ => Err(ConnectorError::Unsupported(String::from_str("drop_table is not supported"))),
        }
    }
}

/// Whether a command reports an unsupported dialect with the dialect's name.
pub open spec fn names_dialect_spec(command: Seq<char>) -> bool {
    command == "query_table"@ || command == "show_schema"@ || command == "show_column"@
        || command == "drop_table"@ || command == "find"@ || command == "all_columns"@
}

/// Whether a command reports an unsupported dialect with the dialect's name:
/// the catalog and table commands do, `query`, `paging_query`,
/// `table_row_count`, `export` and `get_db` do not.
pub fn command_names_dialect(command: &str) -> (r: bool)
    ensures
        r == names_dialect_spec(command@),
{
    str_equal(command, "query_table") || str_equal(command, "show_schema") || str_equal(
        command,
        "show_column",
    ) || str_equal(command, "drop_table") || str_equal(command, "find") || str_equal(
        command,
        "all_columns",
    )
}

/// Picks the connector for a command, reporting an unsupported dialect the
/// way that command does.
pub fn connector_for_command(payload: DialectPayload, command: &str) -> (r: Result<
    Connector,
    ConnectorError,
>)
    ensures
        !is_known_dialect(payload.dialect@) && names_dialect_spec(command@) ==> (r matches Err(
            ConnectorError::UnsupportedDialect(d),
        ) && d@ == payload.dialect@),
        !is_known_dialect(payload.dialect@) && !names_dialect_spec(command@) ==> r matches Err(
            ConnectorError::UnknownDialect,
        ),
        is_known_dialect(payload.dialect@) && payload.path is None ==> r matches Err(
            ConnectorError::MissingPath,
        ),
        r matches Ok(c) ==> {
            &&& is_known_dialect(payload.dialect@)
            &&& c.kind() == payload.dialect@
            &&& opt_view(payload.path) == Some(c.source_path())
        },
        is_known_dialect(payload.dialect@) && payload.path is Some ==> r is Ok,
{
    let named = command_names_dialect(command);
    match select_connector(payload) {
        Ok(c) => Ok(c),
        Err(e) => Err(e.for_command(named)),
    }
}

/// Picks the connector a descriptor names, telling an unknown dialect apart
/// from a missing path.
pub fn select_connector(payload: DialectPayload) -> (r: Result<Connector, ConnectorError>)
    ensures
        !is_known_dialect(payload.dialect@) ==> (r matches Err(
            ConnectorError::UnsupportedDialect(d),
        ) && d@ == payload.dialect@),
        is_known_dialect(payload.dialect@) && payload.path is None ==> r matches Err(
            ConnectorError::MissingPath,
        ),
        r matches Ok(c) ==> {
            &&& is_known_dialect(payload.dialect@)
            &&& c.kind() == payload.dialect@
            &&& opt_view(payload.path) == Some(c.source_path())
            &&& c matches Connector::DuckDb(d) ==> opt_view(d.cwd) == opt_view(payload.cwd)
            &&& c matches Connector::Folder(f) ==> opt_view(f.cwd) == opt_view(payload.cwd)
        },
        is_known_dialect(payload.dialect@) && payload.path is Some ==> r is Ok,
{
    let d = payload.dialect.clone();
    let known = str_equal(d.as_str(), "folder") || str_equal(d.as_str(), "file") || str_equal(
        d.as_str(),
        "duckdb",
    );
    if !known {
        return Err(ConnectorError::UnsupportedDialect(d));
    }
    if payload.path.is_none() {
        return Err(ConnectorError::MissingPath);
    }
    match get_dialect(payload) {
        Some(c) => Ok(c),
        None => Err(ConnectorError::MissingPath),
    }
}

/// Picks the connector a descriptor names. There is none for an unknown
/// dialect, nor for a descriptor without a path.
pub fn get_dialect(payload: DialectPayload) -> (r: Option<Connector>)
    ensures
        r is Some <==> is_known_dialect(payload.dialect@) && payload.path is Some,
        r matches Some(c) ==> {
            &&& c.kind() == payload.dialect@
            &&& opt_view(payload.path) == Some(c.source_path())
            &&& c matches Connector::DuckDb(d) ==> opt_view(d.cwd) == opt_view(payload.cwd)
            &&& c matches Connector::Folder(f) ==> opt_view(f.cwd) == opt_view(payload.cwd)
        },
{
    let DialectPayload { dialect, path, cwd } = payload;
    let path = match path {
        Some(p) => p,
        None => return None,
    };
    if str_equal(dialect.as_str(), "folder") {
        Some(Connector::Folder(FolderConnection { path, cwd }))
    } else if str_equal(dialect.as_str(), "file") {
        Some(Connector::File(FileConnection { path }))
    } else if str_equal(dialect.as_str(), "duckdb") {
        Some(Connector::DuckDb(DuckDbConnection { path, cwd }))
    } else {
        None
    }
}

/// The parser grammar for a dialect name: the engine's own for the sources it
/// reads, the generic one for anything else.
pub fn get_ast_dialect(dialect: &str) -> (r: AstDialect)
    ensures
        r == (if is_known_dialect(dialect@) {
            AstDialect::DuckDb
        } else {
            AstDialect::Generic
        }),
{
    if str_equal(dialect, "folder") || str_equal(dialect, "file") || str_equal(dialect, "duckdb") {
        AstDialect::DuckDb
    } else {
        AstDialect::Generic
    }
}

} // verus!

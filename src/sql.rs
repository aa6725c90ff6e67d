use vstd::prelude::*;
use crate::ident::normalized;
use crate::text::{contains_char, decimal, decimal_string, find_char, first_index_of, lemma_first_index};

verus! {

/// Schema and table that a possibly qualified table argument stands for: an
/// explicit schema wins; otherwise `schema.table` is split at its first `.`;
/// otherwise the schema is empty.
pub open spec fn resolved_name(schema: Option<Seq<char>>, table: Seq<char>) -> (Seq<char>, Seq<char>) {
    match schema {
        Some(s) => (s, table),
        None => match first_index_of(table, '.') {
            Some(k) => (table.subrange(0, k), table.subrange(k + 1, table.len() as int)),
            None => (Seq::empty(), table),
        },
    }
}

/// `schema.table`, or `table` alone when the schema is empty.
pub open spec fn qualified(schema: Seq<char>, table: Seq<char>) -> Seq<char> {
    if schema.len() == 0 {
        table
    } else {
        schema + seq!['.'] + table
    }
}

pub open spec fn show_column_text(schema: Option<Seq<char>>, table: Seq<char>) -> Seq<char> {
    let (db, tbl) = resolved_name(schema, table);
    "select * from information_schema.columns where table_schema='"@ + db + "' and table_name='"@
        + tbl + "'"@
}

pub open spec fn drop_table_text(schema: Option<Seq<char>>, table: Seq<char>) -> Seq<char> {
    let (db, tbl) = resolved_name(schema, table);
    "drop table "@ + qualified(db, tbl)
}

/// ` where <cond>` when a condition is given, nothing otherwise.
pub open spec fn where_clause(cond: Seq<char>) -> Seq<char> {
    if cond.len() == 0 {
        Seq::empty()
    } else {
        " where "@ + cond
    }
}

pub open spec fn table_count_text(table: Seq<char>, cond: Seq<char>) -> Seq<char> {
    "select count(*) from "@ + table + where_clause(cond)
}

pub open spec fn count_text(sql: Seq<char>) -> Seq<char> {
    "select count(*) from ("@ + sql + ")"@
}

pub open spec fn bound_clause(word: Seq<char>, n: Option<usize>) -> Seq<char> {
    match n {
        Some(v) => " "@ + word + " "@ + decimal(v as nat),
        None => Seq::empty(),
    }
}

/// `select * from (<sql>) limit <n> offset <m>`, each bound only when given;
/// the query itself when neither is.
pub open spec fn paging_text(sql: Seq<char>, limit: Option<usize>, offset: Option<usize>) -> Seq<char> {
    if limit is None && offset is None {
        sql
    } else {
        "select * from ("@ + sql + ")"@ + bound_clause("limit"@, limit) + bound_clause(
            "offset"@,
            offset,
        )
    }
}

pub open spec fn query_table_text(table: Seq<char>, cond: Seq<char>, order_by: Seq<char>) -> Seq<char> {
    "select * from "@ + table + where_clause(cond) + if order_by.len() == 0 {
        Seq::empty()
    } else {
        " order by "@ + order_by
    }
}

/// Splits a table argument into its schema and table parts.
pub fn resolve_name(schema: Option<&str>, table: &str) -> (r: (String, String))
    ensures
        (r.0@, r.1@) == resolved_name(
            match schema {
                Some(s) => Some(s@),
                None => None,
            },
            table@,
        ),
{
    match schema {
        Some(s) => (String::from_str(s), String::from_str(table)),
        None => match find_char(table, '.') {
            Some(k) => {
                proof {
                    lemma_first_index(table@, '.', k as int);
                }
                let n = table.unicode_len();
                (
                    String::from_str(table.substring_char(0, k)),
                    String::from_str(table.substring_char(k + 1, n)),
                )
            },
            None => {
                proof {
                    reveal_strlit("");
                }
                (String::from_str(""), String::from_str(table))
            },
        },
    }
}

/// Joins schema and table with a `.`, leaving out an empty schema.
pub fn qualify(schema: &str, table: &str) -> (r: String)
    ensures
        r@ == qualified(schema@, table@),
{
    if schema.unicode_len() == 0 {
        String::from_str(table)
    } else {
        let mut r = String::from_str(schema);
        r.append(".");
        proof {
            reveal_strlit(".");
        }
        r.append(table);
        r
    }
}

/// Quotes an identifier with double quotes when it holds a space.
pub fn normalize_name(name: &str) -> (r: String)
    ensures
        r@ == normalized(name@),
{
    if contains_char(name, ' ') {
        proof {
            reveal_strlit("\"");
        }
        let mut r = String::from_str("\"");
        r.append(name);
        r.append("\"");
        r
    } else {
        String::from_str(name)
    }
}

/// Builds the information-schema query that lists the columns of a table.
pub fn show_column_sql(schema: Option<&str>, table: &str) -> (r: String)
    ensures
        r@ == show_column_text(
            match schema {
                Some(s) => Some(s@),
                None => None,
            },
            table@,
        ),
{
    let (db, tbl) = resolve_name(schema, table);
    let mut r = String::from_str(
        "select * from information_schema.columns where table_schema='",
    );
    r.append(db.as_str());
    r.append("' and table_name='");
    r.append(tbl.as_str());
    r.append("'");
    r
}

/// Builds the statement that drops a possibly qualified table.
pub fn drop_table_sql(schema: Option<&str>, table: &str) -> (r: String)
    ensures
        r@ == drop_table_text(
            match schema {
                Some(s) => Some(s@),
                None => None,
            },
            table@,
        ),
{
    let (db, tbl) = resolve_name(schema, table);
    let name = qualify(db.as_str(), tbl.as_str());
    let mut r = String::from_str("drop table ");
    r.append(name.as_str());
    r
}

fn append_where(r: &mut String, cond: &str)
    ensures
        final(r)@ == old(r)@ + where_clause(cond@),
{
    if cond.unicode_len() != 0 {
        r.append(" where ");
        r.append(cond);
    } else {
        assert(final(r)@ =~= old(r)@ + where_clause(cond@));
    }
}

/// `select count(*) from <table>`, with ` where <cond>` when a condition is given.
pub fn table_count_sql(table: &str, cond: &str) -> (r: String)
    ensures
        r@ == table_count_text(table@, cond@),
{
    let mut r = String::from_str("select count(*) from ");
    r.append(table);
    append_where(&mut r, cond);
    r
}

/// Counts the rows of an arbitrary query, wrapped as a sub-query.
pub fn count_sql(sql: &str) -> (r: String)
    ensures
        r@ == count_text(sql@),
{
    let mut r = String::from_str("select count(*) from (");
    r.append(sql);
    r.append(")");
    r
}

fn append_bound(r: &mut String, word: &str, n: Option<usize>)
    ensures
        final(r)@ == old(r)@ + bound_clause(word@, n),
{
    match n {
        Some(v) => {
            r.append(" ");
            r.append(word);
            r.append(" ");
            let d = decimal_string(v);
            r.append(d.as_str());
        },
        None => {
            assert(final(r)@ =~= old(r)@ + bound_clause(word@, n));
        },
    }
}

/// Wraps a query as a bounded sub-query for paging.
pub fn paging_sql(sql: &str, limit: Option<usize>, offset: Option<usize>) -> (r: String)
    ensures
        r@ == paging_text(sql@, limit, offset),
{
    if limit.is_none() && offset.is_none() {
        return String::from_str(sql);
    }
    let mut r = String::from_str("select * from (");
    r.append(sql);
    r.append(")");
    append_bound(&mut r, "limit", limit);
    append_bound(&mut r, "offset", offset);
    r
}

/// `select * from <table>`, with optional ` where` and ` order by` clauses.
pub fn query_table_sql(table: &str, cond: &str, order_by: &str) -> (r: String)
    ensures
        r@ == query_table_text(table@, cond@, order_by@),
{
    let mut r = String::from_str("select * from ");
    r.append(table);
    append_where(&mut r, cond);
    if order_by.unicode_len() != 0 {
        r.append(" order by ");
        r.append(order_by);
    }
    assert(r@ =~= query_table_text(table@, cond@, order_by@));
    r
}

/// Naming the schema explicitly and writing it in front of the table with a
/// `.` resolve to the same schema and table, so they generate the same SQL.
pub proof fn lemma_explicit_schema_same_as_qualified(db: Seq<char>, tbl: Seq<char>)
    requires
        !db.contains('.'),
    ensures
        show_column_text(None, db + seq!['.'] + tbl) == show_column_text(Some(db), tbl),
        drop_table_text(None, db + seq!['.'] + tbl) == drop_table_text(Some(db), tbl),
{
    let t = db + seq!['.'] + tbl;
    assert(t[db.len() as int] == '.');
    assert forall|j: int| 0 <= j < db.len() implies t[j] != '.' by {
        assert(t[j] == db[j]);
        if t[j] == '.' {
            assert(db.contains('.'));
        }
    }
    lemma_first_index(t, '.', db.len() as int);
    assert(t.subrange(0, db.len() as int) =~= db);
    assert(t.subrange(db.len() as int + 1, t.len() as int) =~= tbl);
}

pub open spec fn show_schema_text(schema: Seq<char>) -> Seq<char> {
    "select * from information_schema.tables where table_schema='"@ + schema + "'"@
}

/// Lists the tables and views of one schema.
pub fn show_schema_sql(schema: &str) -> (r: String)
    ensures
        r@ == show_schema_text(schema@),
{
    let mut r = String::from_str("select * from information_schema.tables where table_schema='");
    r.append(schema);
    r.append("'");
    r
}

pub open spec fn export_text(sql: Seq<char>, file: Seq<char>, format: Seq<char>) -> Seq<char> {
    "COPY ("@ + sql + ") TO '"@ + file + "' (FORMAT "@ + format + ")"@
}

/// The engine's copy statement that writes a query's result to a file.
pub fn export_sql(sql: &str, file: &str, format: &str) -> (r: String)
    ensures
        r@ == export_text(sql@, file@, format@),
{
    let mut r = String::from_str("COPY (");
    r.append(sql);
    r.append(") TO '");
    r.append(file);
    r.append("' (FORMAT ");
    r.append(format);
    r.append(")");
    r
}

} // verus!

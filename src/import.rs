use vstd::prelude::*;

verus! {

/// The statement that creates `table` from the delimited file at `path`.
pub open spec fn csv_import_text(
    table: Seq<char>,
    path: Seq<char>,
    all_varchar: Seq<char>,
    sep: char,
    quote: Seq<char>,
) -> Seq<char> {
    "CREATE TABLE "@ + table + " AS SELECT * FROM read_csv('"@ + path + "', all_varchar="@
        + all_varchar + ", sep='"@ + seq![sep] + "', quote='"@ + quote + "');"@
}

/// The text of one of the separators the detection picks from.
pub fn separator_text(sep: char) -> (r: &'static str)
    requires
        sep == ',' || sep == ';' || sep == '\t' || sep == '|',
    ensures
        r@ == seq![sep],
{
    proof {
        reveal_strlit(",");
        reveal_strlit(";");
        reveal_strlit("\t");
        reveal_strlit("|");
    }
    if sep == ',' {
        ","
    } else if sep == ';' {
        ";"
    } else if sep == '\t' {
        "\t"
    } else {
        "|"
    }
}

/// Builds the statement that loads a delimited file into a new table.
pub fn csv_import_sql(table: &str, path: &str, all_varchar: &str, sep: char, quote: &str) -> (r:
    String)
    requires
        sep == ',' || sep == ';' || sep == '\t' || sep == '|',
    ensures
        r@ == csv_import_text(table@, path@, all_varchar@, sep, quote@),
{
    let mut r = String::from_str("CREATE TABLE ");
    r.append(table);
    r.append(" AS SELECT * FROM read_csv('");
    r.append(path);
    r.append("', all_varchar=");
    r.append(all_varchar);
    r.append(", sep='");
    r.append(separator_text(sep));
    r.append("', quote='");
    r.append(quote);
    r.append("');");
    r
}

} // verus!

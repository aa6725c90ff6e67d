use vstd::prelude::*;
use crate::model::{ConnectorError, RawArrowData, Title};
use crate::text::{find_last_char, after_last};

verus! {

/// Code of a response whose query or encoding failed.
pub const FAILURE_CODE: i32 = 401;

/// What the command layer hands back for a query: the encoded preview and its
/// row count on success, or the failure in-band with a non-zero `code`.
#[derive(Debug)]
pub struct ArrowResponse {
    /// Rows of the whole result.
    pub total: usize,
    /// The preview batch in Arrow's IPC stream format.
    pub data: Vec<u8>,
    pub titles: Option<Vec<Title>>,
    pub sql: Option<String>,
    pub code: i32,
    pub message: String,
    pub elapsed: Option<u128>,
}

impl ArrowResponse {
    pub open spec fn is_failure(&self, message: Seq<char>, elapsed: Option<u128>) -> bool {
        &&& self.code == FAILURE_CODE
        &&& self.message@ == message
        &&& self.total == 0
        &&& self.data@.len() == 0
        &&& self.titles is None
        &&& self.sql is None
        &&& self.elapsed == elapsed
    }

    /// A response that reports a failure.
    pub fn failure(message: String, elapsed: Option<u128>) -> (r: ArrowResponse)
        ensures
            r.is_failure(message@, elapsed),
    {
        ArrowResponse {
            total: 0,
            data: Vec::new(),
            titles: None,
            sql: None,
            code: FAILURE_CODE,
            message,
            elapsed,
        }
    }

    /// Builds the response from a query's outcome whose batch was already
    /// encoded (or failed to encode).
    pub fn from_raw_data(
        res: Result<RawArrowData<Result<Vec<u8>, String>>, ConnectorError>,
        elapsed: Option<u128>,
    ) -> (r: ArrowResponse)
        ensures
            match res {
                Ok(raw) => match raw.batch {
                    Ok(data) => {
                        &&& r.code == 0
                        &&& r.total == raw.total
                        &&& r.data == data
                        &&& r.titles == raw.titles
                        &&& r.sql == raw.sql
                        &&& r.message@.len() == 0
                        &&& r.elapsed == elapsed
                    },
                    Err(m) => r.is_failure(m@, elapsed),
                },
                Err(e) => r.is_failure(e.message_of(), elapsed),
            },
    {
        match res {
            Ok(raw) => match raw.batch {
                Ok(data) => ArrowResponse {
                    total: raw.total,
                    data,
                    titles: raw.titles,
                    sql: raw.sql,
                    code: 0,
                    message: String::new(),
                    elapsed,
                },
                Err(m) => ArrowResponse::failure(m, elapsed),
            },
            Err(e) => ArrowResponse::failure(e.message(), elapsed),
        }
    }
}

/// What sqlformat::format makes of a statement with default options.
pub uninterp spec fn formatted_sql(sql: Seq<char>) -> Seq<char>;

/// Relies on sqlformat::format, called with no parameters and default options.
#[verifier::external_body]
fn sqlformat_default(sql: &str) -> (r: String)
    ensures
        r@ == formatted_sql(sql@),
{
    sqlformat::format(sql, &sqlformat::QueryParams::default(), &sqlformat::FormatOptions::default())
}

/// Pretty-prints SQL text.
pub fn format_sql(sql: &str) -> (r: String)
    ensures
        r@ == formatted_sql(sql@),
{
    sqlformat_default(sql)
}

/// The export format: the one given, else the destination's text after its
/// last `.`, else the whole destination.
pub open spec fn export_format_of(format: Option<Seq<char>>, file: Seq<char>) -> Seq<char> {
    match format {
        Some(f) => f,
        None => match after_last(file, '.') {
            Some(ext) => ext,
            None => file,
        },
    }
}

/// Chooses the format an export writes.
pub fn export_format(format: Option<&str>, file: &str) -> (r: String)
    ensures
        r@ == export_format_of(
            match format {
                Some(f) => Some(f@),
                None => None,
            },
            file@,
        ),
{
    match format {
        Some(f) => String::from_str(f),
        None => match find_last_char(file, '.') {
            Some(k) => {
                let n = file.unicode_len();
                String::from_str(file.substring_char(k + 1, n))
            },
            None => String::from_str(file),
        },
    }
}

/// Opening of the wrapper that limits a previewed query.
pub open spec fn preview_open() -> Seq<char> {
    "select * from ("@
}

/// Closing of the wrapper that limits a previewed query.
pub open spec fn preview_close() -> Seq<char> {
    ") ____ limit 500 offset 0"@
}

/// `s[st..]` holds the preview wrapper whose inner query ends at `k`; the
/// inner query holds no newline.
pub open spec fn preview_match_at(s: Seq<char>, st: int, k: int) -> bool {
    &&& 0 <= st
    &&& st + preview_open().len() <= k
    &&& k + preview_close().len() <= s.len()
    &&& s.subrange(st, st + preview_open().len()) == preview_open()
    &&& forall|x: int| st + preview_open().len() <= x < k ==> s[x] != '\n'
    &&& s.subrange(k, k + preview_close().len()) == preview_close()
}

pub open spec fn preview_starts_at(s: Seq<char>, st: int) -> bool {
    exists|k: int| #[trigger] preview_match_at(s, st, k)
}

/// The statement with its first preview wrapper, the one that starts
/// leftmost and has the shortest inner query, replaced by that inner query;
/// the statement itself when it holds none.
pub open spec fn preview_unwrapped(s: Seq<char>) -> Seq<char> {
    if exists|st: int| #[trigger] preview_starts_at(s, st) {
        let st = choose|st: int|
            #[trigger] preview_starts_at(s, st) && forall|st2: int|
                st2 < st ==> !#[trigger] preview_starts_at(s, st2);
        let k = choose|k: int|
            #[trigger] preview_match_at(s, st, k) && forall|k2: int|
                k2 < k ==> !#[trigger] preview_match_at(s, st, k2);
        s.subrange(0, st) + s.subrange(st + preview_open().len(), k) + s.subrange(
            k + preview_close().len(),
            s.len() as int,
        )
    } else {
        s
    }
}

/// Relies on regex::Regex::new and Regex::replace: `replace` substitutes the
/// leftmost-first match of the pattern, where the lazy `(.*?)` takes the
/// shortest inner text and `.` matches anything but a newline, by the text
/// its group captured.
#[verifier::external_body]
fn strip_preview_wrapper(sql: &str) -> (r: String)
    ensures
        r@ == preview_unwrapped(sql@),
{
    match regex::Regex::new(r"select \* from \((.*?)\) ____ limit 500 offset 0") {
        Ok(re) => re.replace(sql, |caps: &regex::Captures| caps[1].to_string()).into_owned(),
        Err(_) => sql.to_string(),
    }
}

/// The statement an export runs: the previewed query without its preview wrapper.
pub fn export_query(sql: &str) -> (r: String)
    ensures
        r@ == preview_unwrapped(sql@),
{
    strip_preview_wrapper(sql)
}

} // verus!

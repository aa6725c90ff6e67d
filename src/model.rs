use vstd::prelude::*;

verus! {

/// A column's display title and type name.
#[derive(Debug, Clone)]
pub struct Title {
    pub name: String,
    pub data_type: String,
}

/// Result of a query: `total` counts the rows of the whole result, `batch`
/// may hold only a window of them. The batch is carried as it is: the engine's
/// columnar batch, or its encoding for transport.
pub struct RawArrowData<B> {
    pub total: usize,
    pub batch: B,
    pub titles: Option<Vec<Title>>,
    pub sql: Option<String>,
}

impl<B> RawArrowData<B> {
    /// A batch with no titles and no echoed statement.
    pub fn from_batch(batch: B, rows: usize) -> (r: RawArrowData<B>)
        ensures
            r.total == rows,
            r.batch == batch,
            r.titles is None,
            r.sql is None,
    {
        RawArrowData { total: rows, batch, titles: None, sql: None }
    }

    /// The outcome of running `sql` verbatim: every row of it is in `batch`.
    pub fn from_query(titles: Vec<Title>, batch: B, rows: usize, sql: &str) -> (r: RawArrowData<B>)
        ensures
            r.total == rows,
            r.batch == batch,
            r.titles == Some(titles),
            r.sql matches Some(s) && s@ == sql@,
    {
        RawArrowData { total: rows, batch, titles: Some(titles), sql: Some(String::from_str(sql)) }
    }

    /// A window of a result, carrying the row count of the unbounded query.
    pub fn with_total(self, total: usize) -> (r: RawArrowData<B>)
        ensures
            r.total == total,
            r.batch == self.batch,
            r.titles == self.titles,
            r.sql == self.sql,
    {
        RawArrowData { total, ..self }
    }

    /// Joins a window of a result with the count of the unbounded query: the
    /// window with `total` set to that count when both succeeded, the first
    /// failure otherwise.
    pub fn paged<E>(page: Result<RawArrowData<B>, E>, count: Result<usize, E>) -> (r: Result<
        RawArrowData<B>,
        E,
    >)
        ensures
            r is Ok <==> page is Ok && count is Ok,
            r matches Ok(p) ==> page matches Ok(w) && count matches Ok(n) && p.total == n
                && p.batch == w.batch && p.titles == w.titles && p.sql == w.sql,
            page matches Err(e) ==> r == Err::<RawArrowData<B>, E>(e),
            page is Ok ==> (count matches Err(e) ==> r == Err::<RawArrowData<B>, E>(e)),
    {
        match page {
            Ok(w) => match count {
                Ok(n) => Ok(w.with_total(n)),
                Err(e) => Err(e),
            },
            Err(e) => Err(e),
        }
    }

    /// The same result with its batch replaced, for instance by its encoding.
    pub fn with_batch<C>(self, batch: C) -> (r: RawArrowData<C>)
        ensures
            r.total == self.total,
            r.batch == batch,
            r.titles == self.titles,
            r.sql == self.sql,
    {
        RawArrowData { total: self.total, batch, titles: self.titles, sql: self.sql }
    }
}

/// A node of the browsable schema tree. `children` is `None` for a leaf and
/// `Some` of a possibly empty list for a container.
#[derive(Debug)]
pub struct TreeNode {
    pub path: String,
    pub name: String,
    pub node_type: String,
    pub schema: Option<String>,
    pub children: Option<Vec<TreeNode>>,
    pub size: Option<u64>,
    pub comment: Option<String>,
}

/// One column of a fully qualified table.
#[derive(Debug, Clone)]
pub struct Metadata {
    pub database: String,
    pub schema: String,
    pub table: String,
    pub column: String,
    pub data_type: String,
    pub nullable: bool,
}

/// How an operation failed.
#[derive(Debug, Clone)]
pub enum ConnectorError {
    /// The engine refused or failed; its message.
    Engine(String),
    /// An identifier or fragment was not accepted for interpolation.
    Rejected(String),
    /// The descriptor names no known connector kind; reported with its name.
    UnsupportedDialect(String),
    /// The descriptor names no known connector kind; reported without its name.
    UnknownDialect,
    /// The source lacks something the operation needs.
    Unsupported(String),
    /// The descriptor of a source that needs a path names none.
    MissingPath,
}

impl ConnectorError {
    pub open spec fn message_of(&self) -> Seq<char> {
        match self {
            ConnectorError::Engine(m) => m@,
            ConnectorError::Rejected(s) => "rejected identifier: "@ + s@,
            ConnectorError::UnsupportedDialect(d) => "not support dialect "@ + d@,
            ConnectorError::Unsupported(m) => m@,
            ConnectorError::MissingPath => "missing path"@,
            ConnectorError::UnknownDialect => "not support dialect"@,
        }
    }

    /// The error as a command reports it: the commands that do not name the
    /// dialect turn an unsupported dialect into the bare report.
    pub fn for_command(self, names_dialect: bool) -> (r: ConnectorError)
        ensures
            r == (match self {
                ConnectorError::UnsupportedDialect(_) => if names_dialect {
                    self
                } else {
                    ConnectorError::UnknownDialect
                },
                _ => self,
            }),
    {
        match self {
            ConnectorError::UnsupportedDialect(d) => if names_dialect {
                ConnectorError::UnsupportedDialect(d)
            } else {
                ConnectorError::UnknownDialect
            },
            other => other,
        }
    }

    /// Human-readable text of the failure.
    pub fn message(&self) -> (r: String)
        ensures
            r@ == self.message_of(),
    {
        match self {
            ConnectorError::Engine(m) => m.clone(),
            ConnectorError::Rejected(s) => {
                let mut r = String::from_str("rejected identifier: ");
                r.append(s.as_str());
                r
            },
            ConnectorError::UnsupportedDialect(d) => {
                let mut r = String::from_str("not support dialect ");
                r.append(d.as_str());
                r
            },
            ConnectorError::Unsupported(m) => m.clone(),
            ConnectorError::MissingPath => String::from_str("missing path"),
            ConnectorError::UnknownDialect => String::from_str("not support dialect"),
        }
    }
}

} // verus!

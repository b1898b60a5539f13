//! The four SQL dialects and what distinguishes their syntax.

use vstd::prelude::*;

verus! {

/// A supported database SQL-syntax variant.
#[derive(Clone, Copy, Debug, PartialEq, Eq, Structural)]
pub enum Dialect {
    Postgres,
    Mysql,
    Sqlite,
    Mssql,
}

impl Dialect {
    /// The character sequence that opens a quoted identifier.
    pub open spec fn quote_open(self) -> Seq<char> {
        match self {
            Dialect::Postgres => "\""@,
            Dialect::Mysql => "`"@,
            Dialect::Sqlite => "`"@,
            Dialect::Mssql => "["@,
        }
    }

    /// The character sequence that closes a quoted identifier.
    pub open spec fn quote_close(self) -> Seq<char> {
        match self {
            Dialect::Postgres => "\""@,
            Dialect::Mysql => "`"@,
            Dialect::Sqlite => "`"@,
            Dialect::Mssql => "]"@,
        }
    }

    /// The wildcard of `LIKE` patterns.
    pub open spec fn wildcard(self) -> Seq<char> {
        "%"@
    }

    /// The product name used in messages.
    pub open spec fn product(self) -> Seq<char> {
        match self {
            Dialect::Postgres => "PostgreSQL"@,
            Dialect::Mysql => "MySQL"@,
            Dialect::Sqlite => "SQLite"@,
            Dialect::Mssql => "SQL Server"@,
        }
    }

    /// True where a row constructor can be compared with another row or a
    /// set of rows.
    pub open spec fn compares_rows(self) -> bool {
        self != Dialect::Mssql
    }

    /// True where `INSERT` can skip conflicting rows by itself.
    pub open spec fn skips_conflicts(self) -> bool {
        self != Dialect::Mssql
    }

    pub fn open_quote(self) -> (s: &'static str)
        ensures
            s@ == self.quote_open(),
    {
        match self {
            Dialect::Postgres => "\"",
            Dialect::Mysql => "`",
            Dialect::Sqlite => "`",
            Dialect::Mssql => "[",
        }
    }

    pub fn close_quote(self) -> (s: &'static str)
        ensures
            s@ == self.quote_close(),
    {
        match self {
            Dialect::Postgres => "\"",
            Dialect::Mysql => "`",
            Dialect::Sqlite => "`",
            Dialect::Mssql => "]",
        }
    }

    pub fn wildcard_str(self) -> (s: &'static str)
        ensures
            s@ == self.wildcard(),
    {
        "%"
    }

    pub fn product_name(self) -> (s: &'static str)
        ensures
            s@ == self.product(),
    {
        match self {
            Dialect::Postgres => "PostgreSQL",
            Dialect::Mysql => "MySQL",
            Dialect::Sqlite => "SQLite",
            Dialect::Mssql => "SQL Server",
        }
    }

    pub fn supports_row_comparison(self) -> (b: bool)
        ensures
            b == self.compares_rows(),
    {
        !matches!(self, Dialect::Mssql)
    }

    pub fn supports_conflict_clause(self) -> (b: bool)
        ensures
            b == self.skips_conflicts(),
    {
        !matches!(self, Dialect::Mssql)
    }
}

} // verus!

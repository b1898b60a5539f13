//! Errors: why a query cannot be compiled, and what a database reports.

use vstd::prelude::*;
use crate::ast::value::text_view;
use crate::ast::value::ValueKind;
use crate::dialect::Dialect;

verus! {

/// The constraint that a statement violated.
#[derive(Debug, PartialEq, Eq)]
pub enum DatabaseConstraint {
    Fields(Vec<String>),
    Index(String),
    ForeignKey,
    CannotParse,
}

impl DatabaseConstraint {
    /// The constraint on the fields with the given names.
    pub fn fields(names: Vec<String>) -> (c: DatabaseConstraint)
        ensures
            c matches DatabaseConstraint::Fields(f) && f == names,
    {
        DatabaseConstraint::Fields(names)
    }
}

/// The name of a database object, where the database told it.
#[derive(Debug, PartialEq, Eq)]
pub enum Name {
    Available(String),
    Unavailable,
}

impl Name {
    /// The text that stands for the name.
    pub open spec fn text(self) -> Seq<char> {
        match self {
            Name::Available(name) => name@,
            Name::Unavailable => "(not available)"@,
        }
    }

    /// A name that is known.
    pub fn available(name: &str) -> (n: Name)
        ensures
            n matches Name::Available(s) && s@ == name@,
    {
        Name::Available(String::from_str(name))
    }

    /// A name that is known or not.
    pub fn from_option(name: Option<&str>) -> (n: Name)
        ensures
            match name {
                Some(given) => n matches Name::Available(s) && s@ == given@,
                None => n is Unavailable,
            },
    {
        match name {
            Some(name) => Name::available(name),
            None => Name::Unavailable,
        }
    }

    /// The name, or a note that it is not available.
    pub fn to_text(&self) -> (s: String)
        ensures
            s@ == self.text(),
    {
        match self {
            Name::Available(name) => name.clone(),
            Name::Unavailable => String::from_str("(not available)"),
        }
    }
}

/// Why a query cannot be compiled for a dialect.
#[derive(Clone, Copy, Debug, PartialEq, Eq)]
pub enum Fault {
    /// JSON extraction or containment on a dialect without them.
    JsonFiltering,
    /// A JSON type test on a dialect without it.
    JsonTypeTest,
    /// Full-text search on a dialect without it.
    FullTextSearch,
    /// A JSON path in a notation that the dialect does not read.
    JsonPathNotation,
    /// `ROW_TO_JSON` on a dialect without it.
    RowToJson,
    /// A tuple as one side of a comparison on a dialect that cannot
    /// compare rows.
    RowComparison,
    /// A literal of a kind that has no literal form.
    NoLiteral(ValueKind),
    /// A value of a kind that the dialect's driver cannot bind.
    Unbindable(ValueKind),
    /// An insert without a table that has to become a merge.
    InsertWithoutTable,
    /// An insert that has to become a merge, into a table without unique
    /// indices.
    MissingSchemaMetadata,
    /// An insert that has to become a merge, of something else than rows
    /// or a selection.
    InsertSourceUnsupported,
    /// A unique column that the insert does not name and that has no
    /// default.
    UniqueColumnWithoutDefault,
    /// An insert of no rows that has to become a merge.
    EmptyValues,
    /// An insert that returns columns without a table.
    ReturningWithoutTable,
    /// A common table expression named like a generated one.
    ClashingNames,
    /// A union without a type between two of its selects.
    MalformedUnion,
    /// More generated names than can be counted.
    NamesExhausted,
}

impl Fault {
    /// True where a value cannot be represented for the dialect; false
    /// where the dialect lacks a requested feature.
    pub open spec fn is_conversion(self) -> bool {
        match self {
            Fault::Unbindable(_) => true,
            Fault::InsertWithoutTable => true,
            Fault::MissingSchemaMetadata => true,
            Fault::InsertSourceUnsupported => true,
            Fault::UniqueColumnWithoutDefault => true,
            Fault::EmptyValues => true,
            _ => false,
        }
    }

    /// The message of the error.
    pub open spec fn message(self, dialect: Dialect) -> Seq<char> {
        match self {
            Fault::JsonFiltering => "JSON filtering is not yet supported on "@ + dialect.product(),
            Fault::JsonTypeTest => "JSON_TYPE is not yet supported on "@ + dialect.product(),
            Fault::FullTextSearch => "Full-text search is not yet supported on "@
                + dialect.product(),
            Fault::JsonPathNotation => "This JSON path notation is not supported on "@
                + dialect.product(),
            Fault::RowToJson => "ROW_TO_JSON is not supported on "@ + dialect.product(),
            Fault::RowComparison => "Comparing rows is not supported on "@ + dialect.product(),
            Fault::NoLiteral(kind) => kind.name() + " cannot be written as a literal on "@
                + dialect.product(),
            Fault::Unbindable(kind) => if kind.postgres_only() {
                kind.name() + " are only supported by SQLx with PostgreSQL, but not "@
                    + dialect.product() + "."@
            } else {
                kind.name() + " are not supported by SQLx with "@ + dialect.product() + "."@
            },
            Fault::InsertWithoutTable => "Insert needs to point to a table for conversion to Merge."@,
            Fault::MissingSchemaMetadata => "Insert table needs schema metadata for conversion to Merge."@,
            Fault::InsertSourceUnsupported => "Insert type not supported."@,
            Fault::UniqueColumnWithoutDefault => "A unique column missing from insert and table has no default."@,
            Fault::EmptyValues => "Insert needs at least one row for conversion to Merge."@,
            Fault::ReturningWithoutTable => "Insert needs to point to a table to return columns."@,
            Fault::ClashingNames => "A common table expression is named like a generated one."@,
            Fault::MalformedUnion => "Union needs one type between each two selects."@,
            Fault::NamesExhausted => "Too many common table expressions."@,
        }
    }

    /// True where the error carries the message as the original message
    /// too.
    pub open spec fn keeps_original(self) -> bool {
        self is Unbindable
    }

    pub fn describe(self, dialect: Dialect) -> (s: String)
        ensures
            s@ == self.message(dialect),
    {
        match self {
            Fault::JsonFiltering => String::from_str("JSON filtering is not yet supported on ").concat(
                dialect.product_name(),
            ),
            Fault::JsonTypeTest => String::from_str("JSON_TYPE is not yet supported on ").concat(
                dialect.product_name(),
            ),
            Fault::FullTextSearch => String::from_str(
                "Full-text search is not yet supported on ",
            ).concat(dialect.product_name()),
            Fault::JsonPathNotation => String::from_str(
                "This JSON path notation is not supported on ",
            ).concat(dialect.product_name()),
            Fault::RowToJson => String::from_str("ROW_TO_JSON is not supported on ").concat(
                dialect.product_name(),
            ),
            Fault::RowComparison => String::from_str("Comparing rows is not supported on ").concat(
                dialect.product_name(),
            ),
            Fault::NoLiteral(kind) => String::from_str(kind.name_str()).concat(
                " cannot be written as a literal on ",
            ).concat(dialect.product_name()),
            Fault::Unbindable(kind) => if kind.is_postgres_only() {
                String::from_str(kind.name_str()).concat(
                    " are only supported by SQLx with PostgreSQL, but not ",
                ).concat(dialect.product_name()).concat(".")
            } else {
                String::from_str(kind.name_str()).concat(
                    " are not supported by SQLx with ",
                ).concat(dialect.product_name()).concat(".")
            },
            Fault::InsertWithoutTable => String::from_str(
                "Insert needs to point to a table for conversion to Merge.",
            ),
            Fault::MissingSchemaMetadata => String::from_str(
                "Insert table needs schema metadata for conversion to Merge.",
            ),
            Fault::InsertSourceUnsupported => String::from_str("Insert type not supported."),
            Fault::UniqueColumnWithoutDefault => String::from_str(
                "A unique column missing from insert and table has no default.",
            ),
            Fault::EmptyValues => String::from_str(
                "Insert needs at least one row for conversion to Merge.",
            ),
            Fault::ReturningWithoutTable => String::from_str(
                "Insert needs to point to a table to return columns.",
            ),
            Fault::ClashingNames => String::from_str(
                "A common table expression is named like a generated one.",
            ),
            Fault::MalformedUnion => String::from_str(
                "Union needs one type between each two selects.",
            ),
            Fault::NamesExhausted => String::from_str("Too many common table expressions."),
        }
    }

    pub fn conversion(self) -> (b: bool)
        ensures
            b == self.is_conversion(),
    {
        matches!(
            self,
            Fault::Unbindable(_) | Fault::InsertWithoutTable | Fault::MissingSchemaMetadata
                | Fault::InsertSourceUnsupported | Fault::UniqueColumnWithoutDefault
                | Fault::EmptyValues
        )
    }
}

/// A more specific error type for matching.
#[derive(Debug, PartialEq, Eq)]
#[non_exhaustive]
pub enum ErrorKind {
    QueryError(String),
    DatabaseDoesNotExist { db_name: Name },
    DatabaseAccessDenied { db_name: Name },
    DatabaseAlreadyExists { db_name: Name },
    AuthenticationFailed { user: Name },
    TableDoesNotExist { table: Name },
    UniqueConstraintViolation { constraint: DatabaseConstraint },
    NullConstraintViolation { constraint: DatabaseConstraint },
    ForeignKeyConstraintViolation { constraint: DatabaseConstraint },
    ConnectionError(String),
    ColumnReadFailure(String),
    ResultIndexOutOfBounds(usize),
    ResultTypeMismatch(String),
    DatabaseUrlIsInvalid(String),
    /// A value cannot be represented or bound for the dialect or driver.
    ConversionError(String),
    /// A requested feature has no rendering on the dialect.
    UnsupportedOperation(String),
    /// The text buffer could not be written.
    FormatError,
    LengthMismatch { column: Name },
    InvalidConnectionArguments,
    ConnectTimeout,
    ConnectionClosed,
    PoolTimeout { max_open: u64, in_use: u64 },
    SocketTimeout,
    TlsError { message: String },
    ValueOutOfRange { message: String },
    IncorrectNumberOfParameters { expected: usize, actual: usize },
}

impl ErrorKind {
    pub fn value_out_of_range(msg: &str) -> (k: ErrorKind)
        ensures
            k matches ErrorKind::ValueOutOfRange { message } && message@ == msg@,
    {
        ErrorKind::ValueOutOfRange { message: String::from_str(msg) }
    }

    pub fn conversion(msg: &str) -> (k: ErrorKind)
        ensures
            k matches ErrorKind::ConversionError(m) && m@ == msg@,
    {
        ErrorKind::ConversionError(String::from_str(msg))
    }

    pub fn database_url_is_invalid(msg: &str) -> (k: ErrorKind)
        ensures
            k matches ErrorKind::DatabaseUrlIsInvalid(m) && m@ == msg@,
    {
        ErrorKind::DatabaseUrlIsInvalid(String::from_str(msg))
    }

    pub fn pool_timeout(max_open: u64, in_use: u64) -> (k: ErrorKind)
        ensures
            k == (ErrorKind::PoolTimeout { max_open, in_use }),
    {
        ErrorKind::PoolTimeout { max_open, in_use }
    }
}

/// The error of compiling or running a query.
#[derive(Debug, PartialEq, Eq)]
pub struct Error {
    pub kind: ErrorKind,
    pub original_code: Option<String>,
    pub original_message: Option<String>,
}

impl Error {
    /// True of the error that reports `fault` for `dialect`.
    pub open spec fn reports(self, fault: Fault, dialect: Dialect) -> bool {
        &&& if fault.is_conversion() {
            self.kind matches ErrorKind::ConversionError(m) && m@ == fault.message(dialect)
        } else {
            self.kind matches ErrorKind::UnsupportedOperation(m) && m@ == fault.message(dialect)
        }
        &&& self.original_code is None
        &&& text_view(self.original_message) == if fault.keeps_original() {
            Some(fault.message(dialect))
        } else {
            None
        }
    }

    /// An error of the given kind, with nothing from the database.
    pub fn new(kind: ErrorKind) -> (e: Error)
        ensures
            e.kind == kind,
            e.original_code is None,
            e.original_message is None,
    {
        Error { kind, original_code: None, original_message: None }
    }

    /// The error that reports `fault` for `dialect`.
    pub fn of_fault(fault: Fault, dialect: Dialect) -> (e: Error)
        ensures
            e.reports(fault, dialect),
    {
        let message = fault.describe(dialect);
        let original = match fault {
            Fault::Unbindable(_) => Some(message.clone()),
            _ => None,
        };
        let kind = if fault.conversion() {
            ErrorKind::ConversionError(message)
        } else {
            ErrorKind::UnsupportedOperation(message)
        };
        Error { kind, original_code: None, original_message: original }
    }

    /// Sets the error code sent by the database.
    pub fn set_original_code(self, code: &str) -> (e: Error)
        ensures
            e.kind == self.kind,
            e.original_message == self.original_message,
            text_view(e.original_code) == Some(code@),
    {
        Error {
            kind: self.kind,
            original_code: Some(String::from_str(code)),
            original_message: self.original_message,
        }
    }

    /// Sets the error message sent by the database.
    pub fn set_original_message(self, message: &str) -> (e: Error)
        ensures
            e.kind == self.kind,
            e.original_code == self.original_code,
            text_view(e.original_message) == Some(message@),
    {
        Error {
            kind: self.kind,
            original_code: self.original_code,
            original_message: Some(String::from_str(message)),
        }
    }

    /// The error code sent by the database, if available.
    pub fn original_code(&self) -> (r: Option<&str>)
        ensures
            match r {
                Some(s) => text_view(self.original_code) == Some(s@),
                None => self.original_code is None,
            },
    {
        match &self.original_code {
            Some(s) => Some(s.as_str()),
            None => None,
        }
    }

    /// The original error message sent by the database, if available.
    pub fn original_message(&self) -> (r: Option<&str>)
        ensures
            match r {
                Some(s) => text_view(self.original_message) == Some(s@),
                None => self.original_message is None,
            },
    {
        match &self.original_message {
            Some(s) => Some(s.as_str()),
            None => None,
        }
    }

    /// A more specific error type for matching.
    pub fn kind(&self) -> (k: &ErrorKind)
        ensures
            *k == self.kind,
    {
        &self.kind
    }

    /// Determines if the error was associated with closed connection.
    pub fn is_closed(&self) -> (b: bool)
        ensures
            b == (self.kind is ConnectionClosed),
    {
        matches!(self.kind, ErrorKind::ConnectionClosed)
    }
}

} // verus!

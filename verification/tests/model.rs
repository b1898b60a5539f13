use xiayu::ast::node::{Column, Delete, Expression, Insert, Row, Select, Table, Update, Values};
use xiayu::ast::value::Value;
use xiayu::databases::execution::{
    DeletingExecution, InsertingExecution, SavingExecution, SelectingExecution,
};
use xiayu::dialect::Dialect;
use xiayu::error::{DatabaseConstraint, Error, ErrorKind, Fault, Name};
use xiayu::prelude::{ColumnOptions, Dual, Entity, HasVisitor, IntoRaw};
use xiayu::visitors::compile::{Mssql, Mysql, Postgres, Sqlite};

fn num(i: i32) -> Expression {
    Expression::value(Value::I32(Some(i)))
}

fn row(items: Vec<i32>) -> Row {
    let mut r = Row::new();
    for i in items {
        r.push(num(i));
    }
    r
}

#[test]
fn values_grow_row_by_row() {
    let mut values = Values::empty();
    assert!(values.is_empty());
    assert_eq!(0, values.len());
    assert_eq!(0, values.row_len());
    values.push(row(vec![1, 2]));
    values.push(row(vec![3]));
    assert!(!values.is_empty());
    assert_eq!(2, values.len());
    assert_eq!(2, values.row_len());
    assert_eq!(Values::new(vec![row(vec![1, 2]), row(vec![3])]), values);
    assert_eq!(0, Values::with_capacity(8).len());
}

#[test]
fn rows_of_a_table_have_one_width() {
    assert!(Values::empty().is_uniform());
    assert!(Values::new(vec![row(vec![1, 2]), row(vec![3, 4])]).is_uniform());
    assert!(!Values::new(vec![row(vec![1, 2]), row(vec![3])]).is_uniform());
    assert!(!Values::new(vec![row(vec![]), row(vec![3])]).is_uniform());
}

#[test]
fn flatten_row_takes_the_last_item_of_every_row() {
    let values = Values::new(vec![row(vec![1, 2]), row(vec![3]), row(vec![4, 5, 6])]);
    assert_eq!(Some(row(vec![2, 3, 6])), values.flatten_row());
    let values = Values::new(vec![row(vec![1]), row(vec![])]);
    assert_eq!(None, values.flatten_row());
    assert_eq!(Some(Row::new()), Values::empty().flatten_row());
}

#[test]
fn rows_grow_and_shrink() {
    let mut r = Row::with_capacity(2);
    assert!(r.is_empty());
    r.push(num(1));
    r.push(num(2));
    assert_eq!(2, r.len());
    assert_eq!(Some(num(2)), r.pop());
    assert_eq!(Some(num(1)), r.pop());
    assert_eq!(None, r.pop());
    assert_eq!(
        Row::from_columns(vec![Column::new("a"), Column::new("b")]),
        Row::from_expressions(vec![
            Expression::column(Column::new("a")),
            Expression::column(Column::new("b"))
        ])
    );
}

#[test]
fn names_and_constraints() {
    assert_eq!(Name::Available("users".to_string()), Name::available("users"));
    assert_eq!(Name::Available("x".to_string()), Name::from_option(Some("x")));
    assert_eq!(Name::Unavailable, Name::from_option(None));
    assert_eq!("users", Name::available("users").to_text());
    assert_eq!("(not available)", Name::Unavailable.to_text());
    assert_eq!(
        DatabaseConstraint::Fields(vec!["a".to_string(), "b".to_string()]),
        DatabaseConstraint::fields(vec!["a".to_string(), "b".to_string()])
    );
}

#[test]
fn errors_carry_what_the_database_sent() {
    let error = Error::new(ErrorKind::conversion("bad"))
        .set_original_code("42")
        .set_original_message("worse");
    assert_eq!(Some("42"), error.original_code());
    assert_eq!(Some("worse"), error.original_message());
    assert_eq!(&ErrorKind::ConversionError("bad".to_string()), error.kind());
    assert!(!error.is_closed());
    assert!(Error::new(ErrorKind::ConnectionClosed).is_closed());
    assert_eq!(
        ErrorKind::ValueOutOfRange { message: "m".to_string() },
        ErrorKind::value_out_of_range("m")
    );
    assert_eq!(
        ErrorKind::DatabaseUrlIsInvalid("u".to_string()),
        ErrorKind::database_url_is_invalid("u")
    );
    assert_eq!(ErrorKind::PoolTimeout { max_open: 3, in_use: 2 }, ErrorKind::pool_timeout(3, 2));
}

#[test]
fn every_fault_has_its_message_and_kind() {
    let cases = vec![
        (Fault::JsonFiltering, false, "JSON filtering is not yet supported on SQLite"),
        (Fault::JsonTypeTest, false, "JSON_TYPE is not yet supported on SQLite"),
        (Fault::FullTextSearch, false, "Full-text search is not yet supported on SQLite"),
        (Fault::JsonPathNotation, false, "This JSON path notation is not supported on SQLite"),
        (Fault::RowToJson, false, "ROW_TO_JSON is not supported on SQLite"),
        (Fault::RowComparison, false, "Comparing rows is not supported on SQLite"),
        (Fault::InsertWithoutTable, true, "Insert needs to point to a table for conversion to Merge."),
        (Fault::MissingSchemaMetadata, true, "Insert table needs schema metadata for conversion to Merge."),
        (Fault::InsertSourceUnsupported, true, "Insert type not supported."),
        (Fault::UniqueColumnWithoutDefault, true, "A unique column missing from insert and table has no default."),
        (Fault::EmptyValues, true, "Insert needs at least one row for conversion to Merge."),
        (Fault::ReturningWithoutTable, false, "Insert needs to point to a table to return columns."),
        (Fault::ClashingNames, false, "A common table expression is named like a generated one."),
        (Fault::MalformedUnion, false, "Union needs one type between each two selects."),
        (Fault::NamesExhausted, false, "Too many common table expressions."),
    ];
    for (fault, conversion, message) in cases {
        assert_eq!(message, fault.describe(Dialect::Sqlite));
        assert_eq!(conversion, fault.conversion());
        let error = Error::of_fault(fault, Dialect::Sqlite);
        if conversion {
            assert_eq!(ErrorKind::ConversionError(message.to_string()), error.kind);
        } else {
            assert_eq!(ErrorKind::UnsupportedOperation(message.to_string()), error.kind);
        }
        assert_eq!(None, error.original_message);
    }
}

#[test]
fn dialects_differ_in_quotes_and_names() {
    assert_eq!(("\"", "\""), (Dialect::Postgres.open_quote(), Dialect::Postgres.close_quote()));
    assert_eq!(("`", "`"), (Dialect::Mysql.open_quote(), Dialect::Mysql.close_quote()));
    assert_eq!(("`", "`"), (Dialect::Sqlite.open_quote(), Dialect::Sqlite.close_quote()));
    assert_eq!(("[", "]"), (Dialect::Mssql.open_quote(), Dialect::Mssql.close_quote()));
    for d in vec![Dialect::Postgres, Dialect::Mysql, Dialect::Sqlite, Dialect::Mssql] {
        assert_eq!("%", d.wildcard_str());
        assert_eq!(d != Dialect::Mssql, d.supports_row_comparison());
        assert_eq!(d != Dialect::Mssql, d.supports_conflict_clause());
    }
    assert_eq!("SQL Server", Dialect::Mssql.product_name());
    assert_eq!("PostgreSQL", Dialect::Postgres.product_name());
}

#[test]
fn column_options_describe_a_column_of_a_table() {
    let options = ColumnOptions::new("id", "users", true, true, None, Some("key"), false, Some(4), false, None);
    assert_eq!(Column::of("users", "id"), options.column());
    assert_eq!(Column::of("users", "id"), options.c());
    assert_eq!(Table::new("users"), options.table());
    assert_eq!(Table::new("users"), options.t());
    assert_eq!(Expression::column(Column::of("users", "id")), options.expression());
    assert_eq!(Column::of("users", "id").alias("x"), options.alias("x"));
    assert_eq!(Column::of("users", "id").order(None), options.into_order_definition());
    assert!(options.primary_key && options.autoincrement && !options.unique && !options.quote);
    assert_eq!((Some("key"), None, Some(4)), (options.comment, options.foreign_key, options.length));
}

#[test]
fn the_table_of_a_merge_source() {
    assert_eq!("dual", <Dual as Entity>::tablename());
    assert_eq!(Table::new("dual"), <Dual as Entity>::table());
    assert!(<Dual as Entity>::columns().is_empty());
}

#[test]
fn every_dialect_has_a_visitor() {
    assert_eq!(Dialect::Postgres, <Postgres as HasVisitor>::visitor().dialect);
    assert_eq!(Dialect::Mysql, <Mysql as HasVisitor>::visitor().dialect);
    assert_eq!(Dialect::Sqlite, <Sqlite as HasVisitor>::visitor().dialect);
    let mut writer = <Mssql as HasVisitor>::visitor();
    assert_eq!(Dialect::Mssql, writer.dialect);
    writer.write("SELECT ");
    writer.visit_parameterized(Value::I32(Some(1)));
    writer.write_quoted("a");
    assert_eq!("SELECT @P1[a]", writer.query);
    assert_eq!(vec![Value::I32(Some(1))], writer.parameters);
    assert_eq!(Value::text("x"), IntoRaw::raw(Value::text("x")).value);
}

#[test]
fn executions_compile_their_statement() {
    let mut fetch = SelectingExecution::from(Select::from_table(Table::new("users")));
    assert_eq!(None, fetch.compiled);
    let values = fetch.compile(Dialect::Sqlite).unwrap();
    assert!(values.is_empty());
    assert_eq!(Some("SELECT `users`.* FROM `users`".to_string()), fetch.compiled);

    let delete = Delete::from_table(Table::new("users"))
        .so_that(Expression::column(Column::new("id")).equals(num(1)).into_tree());
    let mut deletion = DeletingExecution::new(delete, 7u8);
    assert_eq!(vec![Value::I32(Some(1))], deletion.compile(Dialect::Postgres).unwrap());
    assert_eq!(Some("DELETE FROM \"users\" WHERE \"id\" = $1".to_string()), deletion.compiled);
    assert_eq!(7u8, deletion.entity);

    let update = Update::table(Table::new("users")).set(Column::new("a"), num(2));
    let mut saving = SavingExecution::new(update, "entity");
    assert_eq!(vec![Value::I32(Some(2))], saving.compile(Dialect::Mssql).unwrap());
    assert_eq!(Some("UPDATE [users] SET [a] = @P1".to_string()), saving.compiled);

    let single = InsertingExecution::from_single(Insert::single_into(Table::new("t")))
        .value(Column::new("a"), num(1))
        .value(Column::new("b"), num(2));
    let mut insert = InsertingExecution::from(single.insertion.build());
    assert_eq!(2, insert.compile(Dialect::Mysql).unwrap().len());
    assert_eq!(Some("INSERT INTO `t` (`a`,`b`) VALUES (?,?)".to_string()), insert.compiled);

    let multi = InsertingExecution::from_multi(Insert::multi_into(Table::new("t"), vec![Column::new("a")]))
        .values(row(vec![1]))
        .values(row(vec![2]));
    let mut insert = InsertingExecution::from(multi.insertion.build());
    assert_eq!(2, insert.compile(Dialect::Postgres).unwrap().len());
    assert_eq!(Some("INSERT INTO \"t\" (\"a\") VALUES ($1), ($2)".to_string()), insert.compiled);
}

#[test]
fn a_refused_statement_keeps_what_was_compiled_before() {
    let mut fetch = SelectingExecution::from(
        Select::default().value(Expression::column(Column::new("a")).matches("x").into_expression()),
    );
    fetch.compiled = Some("earlier".to_string());
    let error = fetch.compile(Dialect::Sqlite).unwrap_err();
    assert!(matches!(error.kind, ErrorKind::UnsupportedOperation(_)));
    assert_eq!(Some("earlier".to_string()), fetch.compiled);
}

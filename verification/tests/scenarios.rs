use xiayu::ast::node::{
    Column, Expression, IndexDefinition, Insert, OnConflict, Row, Select, Table, Values,
};
use xiayu::ast::value::Value;
use xiayu::visitors::compile::{Mssql, Mysql, Postgres, Sqlite};

fn num(i: i32) -> Expression {
    Expression::value(Value::I32(Some(i)))
}

fn select_one() -> Select {
    Select::default().value(num(1))
}

#[test]
fn select_value_uses_the_placeholder_of_each_dialect() {
    let (sql, params) = Postgres::build(select_one().into_query()).unwrap();
    assert_eq!("SELECT $1", sql);
    assert_eq!(vec![Value::I32(Some(1))], params);

    let (sql, params) = Sqlite::build(select_one().into_query()).unwrap();
    assert_eq!("SELECT ?", sql);
    assert_eq!(vec![Value::I32(Some(1))], params);

    let (sql, params) = Mysql::build(select_one().into_query()).unwrap();
    assert_eq!("SELECT ?", sql);
    assert_eq!(vec![Value::I32(Some(1))], params);

    let (sql, params) = Mssql::build(select_one().into_query()).unwrap();
    assert_eq!("SELECT @P1", sql);
    assert_eq!(vec![Value::I32(Some(1))], params);
}

#[test]
fn sqlite_offset_without_limit_binds_the_sentinel() {
    let query = Select::from_table(Table::new("T")).offset(10);
    let (sql, params) = Sqlite::build(query.into_query()).unwrap();
    assert_eq!("SELECT `T`.* FROM `T` LIMIT ? OFFSET ?", sql);
    assert!(sql.ends_with("LIMIT ? OFFSET ?"));
    assert_eq!(vec![Value::I32(Some(-1)), Value::I64(Some(10))], params);
}

#[test]
fn mssql_expands_a_tuple_in_rows_to_an_or_of_ands() {
    let mut values = Values::empty();
    for (a, b) in vec![(1, 2), (3, 4)] {
        let mut row = Row::new();
        row.push(num(a));
        row.push(num(b));
        values.push(row);
    }
    let tuple = Expression::row(Row::from_columns(vec![Column::new("id1"), Column::new("id2")]));
    let query = Select::from_table(Table::new("T"))
        .so_that(tuple.in_selection(Expression::values(values)).into_tree());
    let (sql, params) = Mssql::build(query.into_query()).unwrap();
    assert_eq!(
        "SELECT [T].* FROM [T] WHERE (([id1] = @P1 AND [id2] = @P2) OR ([id1] = @P3 AND [id2] = @P4))",
        sql
    );
    assert_eq!(
        vec![Value::I32(Some(1)), Value::I32(Some(2)), Value::I32(Some(3)), Value::I32(Some(4))],
        params
    );
}

#[test]
fn mssql_turns_an_insert_that_skips_conflicts_into_a_merge() {
    let table = Table::new("T").add_unique_index(IndexDefinition::single(Column::of("T", "col")));
    let insert = Insert::single_into(table)
        .value(Column::of("T", "col"), Expression::value(Value::text("lol")))
        .build()
        .on_conflict(OnConflict::DoNothing);
    let (sql, params) = Mssql::build(insert.into_query()).unwrap();
    assert_eq!(
        "MERGE INTO [T] USING (SELECT @P1 AS [col]) AS [dual] ([col]) ON [dual].[col] = [T].[col] WHEN NOT MATCHED THEN INSERT ([col]) VALUES ([dual].[col]);",
        sql
    );
    assert_eq!(vec![Value::text("lol")], params);
}

#[test]
fn mssql_lifts_a_tuple_in_a_selection_into_one_common_table_expression() {
    let inner = Select::default().value(num(1).alias("a")).value(num(2).alias("b"));
    let tuple = Expression::row(Row::from_columns(vec![Column::new("x"), Column::new("y")]));
    let query = Select::from_table(Table::new("T"))
        .so_that(tuple.in_selection(Expression::select(inner)).into_tree());
    let (sql, params) = Mssql::build(query.into_query()).unwrap();
    assert_eq!(
        "WITH [cte_0] AS (SELECT @P1 AS [a], @P2 AS [b]) SELECT [T].* FROM [T] WHERE [x] IN (SELECT [a] FROM [cte_0] WHERE [b] = [y])",
        sql
    );
    assert_eq!(1, sql.matches("WITH [cte_0] AS (").count());
    assert_eq!(vec![Value::I32(Some(1)), Value::I32(Some(2))], params);
}

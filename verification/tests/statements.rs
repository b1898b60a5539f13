use xiayu::ast::node::{
    Column, CommonTableExpression, Comparison, ConditionTree, Delete, Expression, Insert,
    JsonArrayTest, JsonPath, JsonType, OnConflict, Operator, Order, Over, Query, Row, Select,
    SelectQuery, Table, TypeDataLength, TypeFamily, Union, UnionType, Update, Values,
};
use xiayu::ast::statement::{
    aggregate_to_string, avg, coalesce, count, json_extract, lower, max, min, row_number,
    row_to_json, sum, text_search, upper,
};
use xiayu::ast::value::Value;
use xiayu::dialect::Dialect;
use xiayu::error::ErrorKind;
use xiayu::visitors::compile::{build, Mssql, Mysql, Postgres, Sqlite};

fn col(table: &str, name: &str) -> Column {
    Column::of(table, name)
}

fn ce(table: &str, name: &str) -> Expression {
    Expression::column(col(table, name))
}

fn bare(name: &str) -> Expression {
    Expression::column(Column::new(name))
}

fn num(i: i32) -> Expression {
    Expression::value(Value::I32(Some(i)))
}

fn text(s: &str) -> Expression {
    Expression::value(Value::text(s))
}

fn all_dialects() -> Vec<Dialect> {
    vec![Dialect::Postgres, Dialect::Mysql, Dialect::Sqlite, Dialect::Mssql]
}

#[test]
fn update_sets_columns_in_order() {
    let query = Update::table(Table::new("users"))
        .set(Column::new("foo"), num(10))
        .set(Column::new("bar"), Expression::value(Value::boolean(false)));
    let (sql, params) = Sqlite::build(query.into_query()).unwrap();
    assert_eq!("UPDATE `users` SET `foo` = ?, `bar` = ?", sql);
    assert_eq!(vec![Value::I32(Some(10)), Value::boolean(false)], params);
}

#[test]
fn update_with_a_condition() {
    let query = Update::table(Table::new("users"))
        .set(Column::new("foo"), num(1))
        .so_that(bare("bar").equals(Expression::value(Value::boolean(false))).into_tree());
    let (sql, params) = Sqlite::build(query.into_query()).unwrap();
    assert_eq!("UPDATE `users` SET `foo` = ? WHERE `bar` = ?", sql);
    assert_eq!(vec![Value::I32(Some(1)), Value::boolean(false)], params);
}

#[test]
fn update_with_a_nested_select() {
    let select = Select::from_table(Table::new("bars"))
        .column(Column::new("id"))
        .so_that(bare("uniq_val").equals(num(3)).into_tree());
    let query = Update::table(Table::new("users"))
        .set(Column::new("foo"), num(1))
        .so_that(bare("bar").equals(Expression::select(select)).into_tree());
    let (sql, params) = Sqlite::build(query.into_query()).unwrap();
    assert_eq!(
        "UPDATE `users` SET `foo` = ? WHERE `bar` = (SELECT `id` FROM `bars` WHERE `uniq_val` = ?)",
        sql
    );
    assert_eq!(vec![Value::I32(Some(1)), Value::I32(Some(3))], params);
}

#[test]
fn update_leaves_out_a_column_without_a_value() {
    let mut query = Update::table(Table::new("users")).set(Column::new("foo"), num(1));
    query.columns.push(Column::new("orphan"));
    let (sql, params) = Postgres::build(query.into_query()).unwrap();
    assert_eq!("UPDATE \"users\" SET \"foo\" = $1", sql);
    assert_eq!(vec![Value::I32(Some(1))], params);
}

#[test]
fn delete_with_and_without_a_condition() {
    let (sql, params) = Mssql::build(Delete::from_table(Table::new("users")).into_query()).unwrap();
    assert_eq!("DELETE FROM [users]", sql);
    assert!(params.is_empty());

    let query = Delete::from_table(Table::new("users")).so_that(bare("bar").equals(num(7)).into_tree());
    let (sql, params) = Postgres::build(query.into_query()).unwrap();
    assert_eq!("DELETE FROM \"users\" WHERE \"bar\" = $1", sql);
    assert_eq!(vec![Value::I32(Some(7))], params);
}

#[test]
fn union_writes_its_selects_in_order() {
    let union = Union::new(Select::default().value(num(1)))
        .all(Select::default().value(num(2)))
        .distinct(Select::default().value(num(3)));
    let (sql, params) = Postgres::build(union.into_query()).unwrap();
    assert_eq!("SELECT $1 UNION ALL SELECT $2 UNION SELECT $3", sql);
    assert_eq!(vec![Value::I32(Some(1)), Value::I32(Some(2)), Value::I32(Some(3))], params);
}

#[test]
fn union_without_a_type_between_two_selects_is_refused() {
    let mut union = Union::new(Select::default().value(num(1))).all(Select::default().value(num(2)));
    union.types = Vec::<UnionType>::new();
    let error = Postgres::build(union.into_query()).unwrap_err();
    assert!(matches!(error.kind, ErrorKind::UnsupportedOperation(_)));
}

#[test]
fn select_without_tables_and_columns() {
    let (sql, params) = Postgres::build(Select::default().into_query()).unwrap();
    assert_eq!("SELECT  *", sql);
    assert!(params.is_empty());
}

#[test]
fn select_clauses_stand_in_their_order() {
    let query = Select::from_table(Table::new("t"))
        .column(Column::new("a"))
        .inner_join(Table::new("u").on(bare("x").equals(num(1)).into_tree()))
        .so_that(bare("b").equals(num(2)).into_tree())
        .group_by(bare("c"))
        .having(bare("d").greater_than(num(3)).into_tree())
        .order_by(bare("e").order(Some(Order::Desc)))
        .limit(4)
        .offset(5);
    let (sql, params) = Postgres::build(query.into_query()).unwrap();
    assert_eq!(
        "SELECT \"a\" FROM \"t\" INNER JOIN \"u\" ON \"x\" = $1 WHERE \"b\" = $2 GROUP BY \"c\" HAVING \"d\" > $3 ORDER BY \"e\" DESC LIMIT $4 OFFSET $5",
        sql
    );
    assert_eq!(
        vec![
            Value::I32(Some(1)),
            Value::I32(Some(2)),
            Value::I32(Some(3)),
            Value::I64(Some(4)),
            Value::I64(Some(5))
        ],
        params
    );
}

#[test]
fn or_where_joins_conditions() {
    let query = Select::from_table(Table::new("t"))
        .so_that(bare("a").equals(num(1)).into_tree())
        .or_where(bare("b").equals(num(2)).into_tree());
    let (sql, _) = Sqlite::build(query.into_query()).unwrap();
    assert_eq!("SELECT `t`.* FROM `t` WHERE (`a` = ? OR `b` = ?)", sql);
}

#[test]
fn comparisons_have_their_operators() {
    let cases = vec![
        (Comparison::LessThan, " < "),
        (Comparison::LessThanOrEquals, " <= "),
        (Comparison::GreaterThan, " > "),
        (Comparison::GreaterThanOrEquals, " >= "),
        (Comparison::Equals, " = "),
        (Comparison::NotEquals, " <> "),
    ];
    for (comparison, operator) in cases {
        let query = Select::from_table(Table::new("t"))
            .so_that(bare("a").compare(comparison, num(1)).into_tree());
        let (sql, _) = Sqlite::build(query.into_query()).unwrap();
        assert_eq!(format!("SELECT `t`.* FROM `t` WHERE `a`{}?", operator), sql);
    }
}

#[test]
fn null_tests_and_ranges() {
    let query = Select::from_table(Table::new("t")).so_that(
        bare("a")
            .is_null()
            .and(bare("b").is_not_null().into_expression())
            .and(bare("c").between(num(1), num(2)).into_expression())
            .and(bare("d").not_between(num(3), num(4)).into_expression()),
    );
    let (sql, params) = Mssql::build(query.into_query()).unwrap();
    assert_eq!(
        "SELECT [t].* FROM [t] WHERE ([a] IS NULL AND [b] IS NOT NULL AND [c] BETWEEN @P1 AND @P2 AND [d] NOT BETWEEN @P3 AND @P4)",
        sql
    );
    assert_eq!(4, params.len());
}

#[test]
fn membership_in_an_empty_row_never_holds() {
    let query = Select::from_table(Table::new("t"))
        .so_that(bare("a").in_selection(Expression::row(Row::new())).into_tree());
    let (sql, params) = Postgres::build(query.into_query()).unwrap();
    assert_eq!("SELECT \"t\".* FROM \"t\" WHERE 1=0", sql);
    assert!(params.is_empty());

    let query = Select::from_table(Table::new("t"))
        .so_that(bare("a").not_in_selection(Expression::row(Row::new())).into_tree());
    let (sql, _) = Postgres::build(query.into_query()).unwrap();
    assert_eq!("SELECT \"t\".* FROM \"t\" WHERE 1=1", sql);
}

#[test]
fn membership_in_a_bound_value_and_in_a_row() {
    let query = Select::from_table(Table::new("t"))
        .so_that(bare("a").in_selection(num(1)).into_tree());
    let (sql, _) = Postgres::build(query.into_query()).unwrap();
    assert_eq!("SELECT \"t\".* FROM \"t\" WHERE \"a\" IN ($1)", sql);

    let mut row = Row::new();
    row.push(num(1));
    row.push(num(2));
    let query = Select::from_table(Table::new("t"))
        .so_that(bare("a").not_in_selection(Expression::row(row)).into_tree());
    let (sql, _) = Postgres::build(query.into_query()).unwrap();
    assert_eq!("SELECT \"t\".* FROM \"t\" WHERE \"a\" NOT IN ($1,$2)", sql);
}

#[test]
fn row_equality_is_expanded_where_rows_cannot_be_compared() {
    let mut left = Row::new();
    left.push(bare("a"));
    left.push(bare("b"));
    let mut right = Row::new();
    right.push(num(1));
    right.push(num(2));
    let condition = Expression::row(left).equals(Expression::row(right)).into_tree();
    let query = Select::from_table(Table::new("t")).so_that(condition);
    let (sql, params) = Mssql::build(query.into_query()).unwrap();
    assert_eq!("SELECT [t].* FROM [t] WHERE (([a] = @P1 AND [b] = @P2))", sql);
    assert_eq!(vec![Value::I32(Some(1)), Value::I32(Some(2))], params);
}

#[test]
fn row_inequality_is_negated_where_rows_cannot_be_compared() {
    let mut left = Row::new();
    left.push(bare("a"));
    let mut right = Row::new();
    right.push(num(1));
    let condition = Expression::row(left).not_equals(Expression::row(right)).into_tree();
    let query = Select::from_table(Table::new("t")).so_that(condition);
    let (sql, _) = Mssql::build(query.into_query()).unwrap();
    assert_eq!("SELECT [t].* FROM [t] WHERE NOT (([a] = @P1))", sql);
}

#[test]
fn row_equality_stays_where_rows_can_be_compared() {
    let mut left = Row::new();
    left.push(bare("a"));
    left.push(bare("b"));
    let mut right = Row::new();
    right.push(num(1));
    right.push(num(2));
    let condition = Expression::row(left).equals(Expression::row(right)).into_tree();
    let query = Select::from_table(Table::new("t")).so_that(condition);
    let (sql, _) = Postgres::build(query.into_query()).unwrap();
    assert_eq!("SELECT \"t\".* FROM \"t\" WHERE (\"a\",\"b\") = ($1,$2)", sql);
}

#[test]
fn arithmetic_stands_in_parentheses() {
    let cases = vec![
        (Operator::Add, "+"),
        (Operator::Sub, "-"),
        (Operator::Mul, "*"),
        (Operator::Div, "/"),
        (Operator::Rem, "%"),
    ];
    for (operator, sign) in cases {
        let query = Select::default().value(num(1).operation(operator, num(2)));
        let (sql, _) = Sqlite::build(query.into_query()).unwrap();
        assert_eq!(format!("SELECT (? {} ?)", sign), sql);
    }
}

#[test]
fn functions_of_every_dialect() {
    let query = |f| Select::from_table(Table::new("t")).value(Expression::function(f)).into_query();
    let (sql, _) = Postgres::build(query(count(vec![]))).unwrap();
    assert_eq!("SELECT COUNT(*) FROM \"t\"", sql);
    let (sql, _) = Postgres::build(query(count(vec![bare("a"), bare("b")]))).unwrap();
    assert_eq!("SELECT COUNT(\"a\", \"b\") FROM \"t\"", sql);
    let (sql, _) = Postgres::build(query(sum(bare("a")).alias("total"))).unwrap();
    assert_eq!("SELECT SUM(\"a\") AS \"total\" FROM \"t\"", sql);
    let (sql, _) = Postgres::build(query(lower(bare("a")))).unwrap();
    assert_eq!("SELECT LOWER(\"a\") FROM \"t\"", sql);
    let (sql, _) = Postgres::build(query(upper(bare("a")))).unwrap();
    assert_eq!("SELECT UPPER(\"a\") FROM \"t\"", sql);
    let (sql, _) = Postgres::build(query(min(Column::new("a")))).unwrap();
    assert_eq!("SELECT MIN(\"a\") FROM \"t\"", sql);
    let (sql, _) = Postgres::build(query(max(Column::new("a")))).unwrap();
    assert_eq!("SELECT MAX(\"a\") FROM \"t\"", sql);
    let (sql, _) = Postgres::build(query(coalesce(vec![bare("a"), num(1)]))).unwrap();
    assert_eq!("SELECT COALESCE(\"a\", $1) FROM \"t\"", sql);
    let (sql, _) = Postgres::build(query(avg(Column::new("a")))).unwrap();
    assert_eq!("SELECT AVG(\"a\") FROM \"t\"", sql);
    let (sql, _) = Mssql::build(query(avg(Column::new("a")))).unwrap();
    assert_eq!("SELECT AVG(CONVERT(DECIMAL(32,16),[a])) FROM [t]", sql);
}

#[test]
fn aggregate_to_string_of_every_dialect() {
    let query = || {
        Select::from_table(Table::new("t"))
            .value(Expression::function(aggregate_to_string(bare("a"))))
            .into_query()
    };
    let (sql, _) = Postgres::build(query()).unwrap();
    assert_eq!("SELECT ARRAY_TO_STRING(ARRAY_AGG(\"a\")',') FROM \"t\"", sql);
    let (sql, _) = Mysql::build(query()).unwrap();
    assert_eq!("SELECT GROUP_CONCAT(`a` SEPARATOR ',') FROM `t`", sql);
    let (sql, _) = Sqlite::build(query()).unwrap();
    assert_eq!("SELECT GROUP_CONCAT(`a`) FROM `t`", sql);
    let (sql, _) = Mssql::build(query()).unwrap();
    assert_eq!("SELECT STRING_AGG([a],\",\") FROM [t]", sql);
}

#[test]
fn row_number_over_a_window() {
    let query = |over| {
        Select::from_table(Table::new("t")).value(Expression::function(row_number(over))).into_query()
    };
    let (sql, _) = Postgres::build(query(Over::new())).unwrap();
    assert_eq!("SELECT ROW_NUMBER() OVER() FROM \"t\"", sql);
    let over = Over::new()
        .partition_by(Column::new("a"))
        .partition_by(Column::new("b"))
        .order_by(bare("c").order(Some(Order::Asc)));
    let (sql, _) = Postgres::build(query(over)).unwrap();
    assert_eq!(
        "SELECT ROW_NUMBER() OVER(PARTITION BY \"a\", \"b\" ORDER BY \"c\" ASC) FROM \"t\"",
        sql
    );
    let over = Over::new().order_by(bare("c").order(None));
    let (sql, _) = Postgres::build(query(over)).unwrap();
    assert_eq!("SELECT ROW_NUMBER() OVER(ORDER BY \"c\") FROM \"t\"", sql);
}

#[test]
fn json_extract_on_postgres() {
    let extract = json_extract(
        ce("users", "json"),
        JsonPath::array(vec!["a".to_string(), "b".to_string()]),
        false,
    );
    let query = Select::from_table(Table::new("users"))
        .so_that(Expression::function(extract).equals(text("c")).into_tree());
    let (sql, params) = Postgres::build(query.into_query()).unwrap();
    assert_eq!(
        "SELECT \"users\".* FROM \"users\" WHERE (\"users\".\"json\"#>ARRAY[$1, $2]::text[]) = $3",
        sql
    );
    assert_eq!(vec![Value::text("a"), Value::text("b"), Value::text("c")], params);
}

#[test]
fn json_extract_as_string_on_postgres() {
    let extract = json_extract(ce("users", "json"), JsonPath::array(vec!["a".to_string()]), true);
    let query = Select::default().value(Expression::function(extract));
    let (sql, _) = Postgres::build(query.into_query()).unwrap();
    assert_eq!("SELECT (\"users\".\"json\"#>>ARRAY[$1]::text[])", sql);
}

#[test]
fn json_extract_on_mysql() {
    let extract = json_extract(ce("users", "json"), JsonPath::string("$.a.b"), false);
    let query = Select::from_table(Table::new("users"))
        .so_that(Expression::function(extract).equals(text("c")).into_tree());
    let (sql, params) = Mysql::build(query.into_query()).unwrap();
    assert_eq!("SELECT `users`.* FROM `users` WHERE JSON_EXTRACT(`users`.`json`, ?) = ?", sql);
    assert_eq!(vec![Value::text("$.a.b"), Value::text("c")], params);

    let extract = json_extract(ce("users", "json"), JsonPath::string("$.a.b"), true);
    let (sql, _) =
        Mysql::build(Select::default().value(Expression::function(extract)).into_query()).unwrap();
    assert_eq!("SELECT JSON_UNQUOTE(JSON_EXTRACT(`users`.`json`, ?))", sql);
}

#[test]
fn json_extract_is_refused_elsewhere() {
    for (d, path) in vec![
        (Dialect::Sqlite, JsonPath::string("$.a")),
        (Dialect::Mssql, JsonPath::string("$.a")),
        (Dialect::Postgres, JsonPath::string("$.a")),
        (Dialect::Mysql, JsonPath::array(vec!["a".to_string()])),
    ] {
        let extract = json_extract(bare("json"), path, false);
        let query = Select::default().value(Expression::function(extract));
        let error = build(d, query.into_query()).unwrap_err();
        assert!(matches!(error.kind, ErrorKind::UnsupportedOperation(_)));
    }
}

#[test]
fn json_array_tests_on_postgres() {
    let query = |test, negated| {
        Select::from_table(Table::new("t"))
            .so_that(bare("j").json_array(test, negated, num(1)).into_tree())
            .into_query()
    };
    let (sql, _) = Postgres::build(query(JsonArrayTest::Contains, false)).unwrap();
    assert_eq!("SELECT \"t\".* FROM \"t\" WHERE \"j\" @> $1", sql);
    let (sql, _) = Postgres::build(query(JsonArrayTest::BeginsWith, false)).unwrap();
    assert_eq!("SELECT \"t\".* FROM \"t\" WHERE \"j\"->0 = $1", sql);
    let (sql, _) = Postgres::build(query(JsonArrayTest::EndsInto, true)).unwrap();
    assert_eq!("SELECT \"t\".* FROM \"t\" WHERE ( NOT \"j\"->-1 = $1 )", sql);
}

#[test]
fn json_array_tests_on_mysql() {
    let query = |test, negated| {
        Select::from_table(Table::new("t"))
            .so_that(bare("j").json_array(test, negated, num(1)).into_tree())
            .into_query()
    };
    let (sql, params) = Mysql::build(query(JsonArrayTest::Contains, false)).unwrap();
    assert_eq!("SELECT `t`.* FROM `t` WHERE JSON_CONTAINS(`j`, ?)", sql);
    assert_eq!(vec![Value::I32(Some(1))], params);
    let (sql, params) = Mysql::build(query(JsonArrayTest::BeginsWith, false)).unwrap();
    assert_eq!("SELECT `t`.* FROM `t` WHERE JSON_EXTRACT(`j`, ?) = ?", sql);
    assert_eq!(vec![Value::text("$[0]"), Value::I32(Some(1))], params);
    let (sql, params) = Mysql::build(query(JsonArrayTest::EndsInto, true)).unwrap();
    assert_eq!("SELECT `t`.* FROM `t` WHERE ( NOT JSON_EXTRACT(`j`, ?) = ? )", sql);
    assert_eq!(vec![Value::text("$[last]"), Value::I32(Some(1))], params);
}

#[test]
fn json_type_tests() {
    let query = |t| {
        Select::from_table(Table::new("t")).so_that(bare("j").json_type_equals(t).into_tree()).into_query()
    };
    let (sql, params) = Postgres::build(query(JsonType::Array)).unwrap();
    assert_eq!("SELECT \"t\".* FROM \"t\" WHERE JSONB_TYPEOF(\"j\") = $1", sql);
    assert_eq!(vec![Value::text("array")], params);
    let (_, params) = Postgres::build(query(JsonType::Null)).unwrap();
    assert_eq!(vec![Value::text("null")], params);
    let (sql, params) = Mysql::build(query(JsonType::Object)).unwrap();
    assert_eq!("SELECT `t`.* FROM `t` WHERE JSON_TYPE(`j`) = ?", sql);
    assert_eq!(vec![Value::text("OBJECT")], params);
    let (sql, params) = Mysql::build(query(JsonType::Number)).unwrap();
    assert_eq!("SELECT `t`.* FROM `t` WHERE JSON_TYPE(`j`) IN (?, ?)", sql);
    assert_eq!(vec![Value::text("INTEGER"), Value::text("DOUBLE")], params);
    for d in vec![Dialect::Sqlite, Dialect::Mssql] {
        let error = build(d, query(JsonType::String)).unwrap_err();
        assert!(matches!(error.kind, ErrorKind::UnsupportedOperation(_)));
    }
}

#[test]
fn full_text_search_on_postgres() {
    let search = text_search(vec![Column::new("name"), Column::new("ingredients")]);
    let query = Select::from_table(Table::new("recipes"))
        .so_that(Expression::function(search).matches("chicken").into_tree());
    let (sql, params) = Postgres::build(query.into_query()).unwrap();
    assert_eq!(
        "SELECT \"recipes\".* FROM \"recipes\" WHERE to_tsvector(\"name\"|| ' ' ||\"ingredients\") @@ to_tsquery($1)",
        sql
    );
    assert_eq!(vec![Value::text("chicken")], params);

    let search = text_search(vec![Column::new("name")]);
    let query = Select::from_table(Table::new("recipes"))
        .so_that(Expression::function(search).not_matches("chicken").into_tree());
    let (sql, _) = Postgres::build(query.into_query()).unwrap();
    assert_eq!(
        "SELECT \"recipes\".* FROM \"recipes\" WHERE (NOT to_tsvector(\"name\") @@ to_tsquery($1))",
        sql
    );
}

#[test]
fn full_text_search_is_refused_elsewhere() {
    for d in vec![Dialect::Mysql, Dialect::Sqlite, Dialect::Mssql] {
        let search = text_search(vec![Column::new("name")]);
        let query = Select::default().value(Expression::function(search));
        let error = build(d, query.into_query()).unwrap_err();
        assert!(matches!(error.kind, ErrorKind::UnsupportedOperation(_)));
        let query = Select::default().value(bare("a").matches("x").into_expression());
        let error = build(d, query.into_query()).unwrap_err();
        assert!(matches!(error.kind, ErrorKind::UnsupportedOperation(_)));
    }
}

#[test]
fn row_to_json_on_postgres_only() {
    let query = || {
        Select::from_table(Table::new("one"))
            .value(Expression::function(row_to_json(Table::new("one"), false)))
            .into_query()
    };
    let (sql, _) = Postgres::build(query()).unwrap();
    assert_eq!("SELECT ROW_TO_JSON(\"one\") FROM \"one\"", sql);
    for d in vec![Dialect::Mysql, Dialect::Sqlite, Dialect::Mssql] {
        let error = build(d, query()).unwrap_err();
        assert!(matches!(error.kind, ErrorKind::UnsupportedOperation(_)));
    }
}

#[test]
fn common_table_expressions_of_a_select() {
    let cte = Select::default().value(text("hello_world").alias("toto")).into_cte("one");
    let query = Select::from_table(Table::new("one")).with(cte);
    let (sql, params) = Postgres::build(query.into_query()).unwrap();
    assert_eq!("WITH \"one\" AS (SELECT $1 AS \"toto\") SELECT \"one\".* FROM \"one\"", sql);
    assert_eq!(vec![Value::text("hello_world")], params);
}

#[test]
fn common_table_expression_with_columns() {
    let cte = CommonTableExpression {
        identifier: "one".to_string(),
        columns: vec!["a".to_string(), "b".to_string()],
        selection: SelectQuery::Select(Box::new(Select::default().value(num(1)).value(num(2)))),
    };
    let query = Select::from_table(Table::new("one")).with(cte);
    let (sql, _) = Sqlite::build(query.into_query()).unwrap();
    assert_eq!("WITH `one` (`a`,`b`) AS (SELECT ?, ?) SELECT `one`.* FROM `one`", sql);
}

#[test]
fn star_of_aliased_and_derived_tables() {
    let query = Select::from_table(Table::new("t").alias("x"));
    let (sql, _) = Postgres::build(query.into_query()).unwrap();
    assert_eq!("SELECT \"x\".* FROM \"t\" AS \"x\"", sql);

    let query = Select::from_table(Table::from_select(Select::default().value(num(1))));
    let (sql, _) = Postgres::build(query.into_query()).unwrap();
    assert_eq!("SELECT * FROM (SELECT $1)", sql);

    let query = Select::from_table(Table::new("t").database("db"));
    let (sql, _) = Postgres::build(query.into_query()).unwrap();
    assert_eq!("SELECT \"db\".\"t\".* FROM \"db\".\"t\"", sql);
}

#[test]
fn values_as_a_table_outside_sqlite() {
    let mut values = Values::empty();
    let mut row = Row::new();
    row.push(num(1));
    values.push(row);
    let query = Select::from_table(Table::from_values(values).alias("v"));
    let (sql, _) = Postgres::build(query.into_query()).unwrap();
    assert_eq!("SELECT \"v\".* FROM (($1)) AS \"v\"", sql);
}

#[test]
fn right_and_full_joins() {
    let query = Select::from_table(Table::new("a"))
        .right_join(Table::new("b").on(ConditionTree::NoCondition))
        .full_join(Table::new("c").on(ConditionTree::NegativeCondition));
    let (sql, _) = Postgres::build(query.into_query()).unwrap();
    assert_eq!("SELECT \"a\".* FROM \"a\" RIGHT JOIN \"b\" ON 1=1 FULL JOIN \"c\" ON 1=0", sql);
}

#[test]
fn raw_query_is_written_as_it_is() {
    for d in all_dialects() {
        let (sql, params) = build(d, Query::raw("SELECT 1")).unwrap();
        assert_eq!("SELECT 1", sql);
        assert!(params.is_empty());
    }
}

#[test]
fn mysql_inserts() {
    let insert = Insert::single_into(Table::new("foo")).build();
    let (sql, _) = Mysql::build(insert.into_query()).unwrap();
    assert_eq!("INSERT INTO `foo` () VALUES ()", sql);

    let insert = Insert::single_into(Table::new("foo"))
        .value(Column::new("a"), num(1))
        .value(Column::new("b"), num(2))
        .build()
        .on_conflict(OnConflict::DoNothing);
    let (sql, params) = Mysql::build(insert.into_query()).unwrap();
    assert_eq!("INSERT IGNORE INTO `foo` (`a`,`b`) VALUES (?,?)", sql);
    assert_eq!(vec![Value::I32(Some(1)), Value::I32(Some(2))], params);
}

#[test]
fn mysql_offset_without_limit_binds_the_greatest_limit() {
    let query = Select::from_table(Table::new("t")).offset(10);
    let (sql, params) = Mysql::build(query.into_query()).unwrap();
    assert_eq!("SELECT `t`.* FROM `t` LIMIT ? OFFSET ?", sql);
    assert_eq!(vec![Value::I64(Some(i64::MAX)), Value::I64(Some(10))], params);
}

#[test]
fn insert_that_skips_conflicts_where_the_dialect_can() {
    let insert = |table: &str| {
        Insert::single_into(Table::new(table))
            .value(Column::new("a"), num(1))
            .build()
            .on_conflict(OnConflict::DoNothing)
            .into_query()
    };
    let (sql, _) = Postgres::build(insert("foo")).unwrap();
    assert_eq!("INSERT INTO \"foo\" (\"a\") VALUES ($1) ON CONFLICT DO NOTHING", sql);
    let (sql, _) = Sqlite::build(insert("foo")).unwrap();
    assert_eq!("INSERT OR IGNORE INTO `foo` (`a`) VALUES (?)", sql);
}

#[test]
fn sqlite_returns_bare_names() {
    let insert = Insert::single_into(Table::new("foo"))
        .value(Column::new("a"), num(1))
        .build()
        .returning(vec![col("foo", "a"), col("foo", "b")]);
    let (sql, _) = Sqlite::build(insert.into_query()).unwrap();
    assert_eq!("INSERT INTO `foo` (`a`) VALUES (?) RETURNING a, b", sql);
}

#[test]
fn insert_from_a_selection() {
    let source = Expression::select(Select::from_table(Table::new("bar")).column(Column::new("a")));
    let insert = Insert::expression_into(Table::new("foo"), vec![Column::new("a")], source);
    let (sql, _) = Sqlite::build(insert.into_query()).unwrap();
    assert_eq!("INSERT INTO `foo`(SELECT `a` FROM `bar`)", sql);
    let source = Expression::select(Select::from_table(Table::new("bar")).column(Column::new("a")));
    let insert = Insert::expression_into(Table::new("foo"), vec![Column::new("a")], source);
    let (sql, _) = Postgres::build(insert.into_query()).unwrap();
    assert_eq!("INSERT INTO \"foo\"((SELECT \"a\" FROM \"bar\"))", sql);
}

#[test]
fn mssql_table_variable_has_the_types_of_the_columns() {
    let columns = vec![
        Column::new("a").type_family(TypeFamily::Text(None)),
        Column::new("b").type_family(TypeFamily::Text(Some(TypeDataLength::Constant(12)))),
        Column::new("c").type_family(TypeFamily::Text(Some(TypeDataLength::Maximum))),
        Column::new("d").type_family(TypeFamily::Int),
        Column::new("e").type_family(TypeFamily::Float),
        Column::new("f").type_family(TypeFamily::Double),
        Column::new("g").type_family(TypeFamily::Decimal(None)),
        Column::new("h").type_family(TypeFamily::Decimal(Some((10, 2)))),
        Column::new("i").type_family(TypeFamily::Boolean),
        Column::new("j").type_family(TypeFamily::Uuid),
        Column::new("k").type_family(TypeFamily::DateTime),
        Column::new("l").type_family(TypeFamily::Bytes(None)),
        Column::new("m").type_family(TypeFamily::Bytes(Some(TypeDataLength::Constant(7)))),
        Column::new("n").type_family(TypeFamily::Bytes(Some(TypeDataLength::Maximum))),
    ];
    let insert = Insert::single_into(Table::new("foo")).build().returning(columns);
    let (sql, _) = Mssql::build(insert.into_query()).unwrap();
    assert!(sql.starts_with(
        "DECLARE @generated_keys table([a] NVARCHAR(4000),[b] NVARCHAR(12),[c] NVARCHAR(MAX),[d] BIGINT,[e] FLOAT(24),[f] FLOAT(53),[g] DECIMAL(32,16),[h] DECIMAL(10,2),[i] BIT,[j] UNIQUEIDENTIFIER,[k] DATETIMEOFFSET,[l] VARBINARY(8000),[m] VARBINARY(7),[n] VARBINARY(MAX)) INSERT INTO [foo] OUTPUT "
    ));
    assert!(sql.ends_with(" INTO @generated_keys DEFAULT VALUES SELECT [t].[a],[t].[b],[t].[c],[t].[d],[t].[e],[t].[f],[t].[g],[t].[h],[t].[i],[t].[j],[t].[k],[t].[l],[t].[m],[t].[n] FROM @generated_keys AS g INNER JOIN [foo] AS [t] ON ([t].[a] = [g].[a] AND [t].[b] = [g].[b] AND [t].[c] = [g].[c] AND [t].[d] = [g].[d] AND [t].[e] = [g].[e] AND [t].[f] = [g].[f] AND [t].[g] = [g].[g] AND [t].[h] = [g].[h] AND [t].[i] = [g].[i] AND [t].[j] = [g].[j] AND [t].[k] = [g].[k] AND [t].[l] = [g].[l] AND [t].[m] = [g].[m] AND [t].[n] = [g].[n]) WHERE @@ROWCOUNT > 0"));
}

#[test]
fn mssql_returning_without_a_table_is_refused() {
    let insert = Insert::single().build().returning(vec![Column::new("a")]);
    let error = Mssql::build(insert.into_query()).unwrap_err();
    assert!(matches!(error.kind, ErrorKind::UnsupportedOperation(_)));
    assert_eq!(Some("Insert needs to point to a table to return columns."), match &error.kind {
        ErrorKind::UnsupportedOperation(m) => Some(m.as_str()),
        _ => None,
    });
}

#[test]
fn mssql_returning_nothing_joins_on_a_condition_that_holds() {
    let insert = Insert::single_into(Table::new("foo")).build().returning(vec![]);
    let (sql, _) = Mssql::build(insert.into_query()).unwrap();
    assert_eq!(
        "DECLARE @generated_keys table() INSERT INTO [foo] OUTPUT  INTO @generated_keys DEFAULT VALUES SELECT  FROM @generated_keys AS g INNER JOIN [foo] AS [t] ON 1=1 WHERE @@ROWCOUNT > 0",
        sql
    );
}

#[test]
fn mssql_offset_of_zero_without_order_is_left_out() {
    let query = Select::from_table(Table::new("t")).offset(0);
    let (sql, params) = Mssql::build(query.into_query()).unwrap();
    assert_eq!("SELECT [t].* FROM [t]", sql);
    assert!(params.is_empty());

    let query = Select::from_table(Table::new("t")).offset(3);
    let (sql, params) = Mssql::build(query.into_query()).unwrap();
    assert_eq!("SELECT [t].* FROM [t] ORDER BY 1 OFFSET @P1 ROWS", sql);
    assert_eq!(vec![Value::I64(Some(3))], params);

    let query = Select::from_table(Table::new("t")).limit(3);
    let (sql, params) = Mssql::build(query.into_query()).unwrap();
    assert_eq!("SELECT [t].* FROM [t] ORDER BY 1 OFFSET @P1 ROWS FETCH NEXT @P2 ROWS ONLY", sql);
    assert_eq!(vec![Value::I32(Some(0)), Value::I64(Some(3))], params);
}

#[test]
fn a_tuple_that_stays_whole_is_refused_where_rows_are_not_compared() {
    let pair = || Expression::row(Row::from_expressions(vec![num(1), num(2)]));
    let columns = || Expression::row(Row::from_columns(vec![col("s", "a"), col("s", "b")]));
    let inner = || {
        Expression::select(Select::from_table(Table::new("t")).value(num(3)).value(num(4)))
    };
    let refused = ErrorKind::UnsupportedOperation("Comparing rows is not supported on SQL Server".to_string());
    let cases = vec![
        pair().in_selection(inner()),
        pair().not_in_selection(inner()),
        pair().in_selection(columns()),
        pair().equals(num(1)),
        num(1).not_equals(pair()),
        pair().equals(inner()),
        pair().less_than(columns()),
        columns().greater_than_or_equals(num(1)),
        num(1).less_than_or_equals(pair()),
    ];
    for case in cases {
        let query = || Select::from_table(Table::new("s")).so_that(case.duplicate().into_tree()).into_query();
        assert_eq!(refused, Mssql::build(query()).unwrap_err().kind);
        for d in vec![Dialect::Postgres, Dialect::Mysql, Dialect::Sqlite] {
            assert!(build(d, query()).is_ok());
        }
    }
}

#[test]
fn tuples_that_are_taken_apart_are_written_everywhere() {
    let pair = || Expression::row(Row::from_expressions(vec![num(1), num(2)]));
    let columns = || Expression::row(Row::from_columns(vec![col("s", "a"), col("s", "b")]));
    let one = |tree: ConditionTree| Select::from_table(Table::new("s")).so_that(tree).into_query();
    let (sql, params) = Mssql::build(one(columns().equals(pair()).into_tree())).unwrap();
    assert_eq!("SELECT [s].* FROM [s] WHERE (([s].[a] = @P1 AND [s].[b] = @P2))", sql);
    assert_eq!(vec![Value::I32(Some(1)), Value::I32(Some(2))], params);
    let (sql, _) = Mssql::build(one(columns().in_selection(Expression::row(Row::new())).into_tree())).unwrap();
    assert_eq!("SELECT [s].* FROM [s] WHERE 1=0", sql);
    let (sql, _) = Mssql::build(one(bare("a").in_selection(pair()).into_tree())).unwrap();
    assert_eq!("SELECT [s].* FROM [s] WHERE [a] IN (@P1,@P2)", sql);
    let (sql, _) = Postgres::build(one(columns().equals(pair()).into_tree())).unwrap();
    assert_eq!("SELECT \"s\".* FROM \"s\" WHERE (\"s\".\"a\",\"s\".\"b\") = ($1,$2)", sql);
}

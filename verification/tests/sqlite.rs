use xiayu::ast::node::{
    Column, ConditionTree, Expression, Insert, Query, Row, Select, Table, Values,
};
use xiayu::ast::calendar::{Date, DateTime, Time};
use xiayu::ast::value::{Uuid, Value};
use xiayu::visitors::compile::Sqlite;

fn col(table: &str, name: &str) -> Column {
    Column::of(table, name)
}

fn ce(table: &str, name: &str) -> Expression {
    Expression::column(col(table, name))
}

fn num(i: i32) -> Expression {
    Expression::value(Value::I32(Some(i)))
}

fn text(s: &str) -> Expression {
    Expression::value(Value::text(s))
}

#[allow(dead_code)]
fn boolean(b: bool) -> Expression {
    Expression::value(Value::boolean(b))
}

#[allow(dead_code)]
fn row_of(columns: Vec<Column>) -> Expression {
    Expression::row(Row::from_columns(columns))
}

fn num_rows(rows: Vec<Vec<i32>>) -> Values {
    let mut values = Values::empty();
    for row in rows {
        let mut r = Row::new();
        for i in row {
            r.push(num(i));
        }
        values.push(r);
    }
    values
}

#[allow(dead_code)]
fn text_row(items: Vec<&str>) -> Row {
    let mut r = Row::new();
    for i in items {
        r.push(text(i));
    }
    r
}

fn build(query: Query) -> (String, Vec<Value>) {
    Sqlite::build(query).unwrap()
}
#[test]
fn sqlite_test_select_1() {
    let query = Select::default().value(num(1)).into_query();
    let (sql, params) = build(query);
    assert_eq!("SELECT ?", sql);
    assert_eq!(vec![Value::I32(Some(1))], params);
}

#[test]
fn sqlite_test_aliased_value() {
    let query = Select::default().value(num(1).alias("test")).into_query();
    let (sql, params) = build(query);
    assert_eq!("SELECT ? AS `test`", sql);
    assert_eq!(vec![Value::I32(Some(1))], params);
}

#[test]
fn sqlite_test_select_star_from() {
    let query = Select::from_table(Table::new("musti")).into_query();
    let (sql, params) = build(query);
    assert_eq!("SELECT `musti`.* FROM `musti`", sql);
    assert_eq!(Vec::<Value>::new(), params);
}

#[test]
fn sqlite_test_select_order_by() {
    let query = Select::from_table(Table::new("musti"))
        .order_by(col("musti", "foo").order(None))
        .order_by(col("musti", "baz").ascend())
        .order_by(col("musti", "bar").descend())
        .into_query();
    let (sql, params) = build(query);
    assert_eq!("SELECT `musti`.* FROM `musti` ORDER BY `musti`.`foo`, `musti`.`baz` ASC, `musti`.`bar` DESC", sql);
    assert_eq!(Vec::<Value>::new(), params);
}

#[test]
fn sqlite_test_select_fields_from() {
    let query = Select::from_table(Table::new("musti").database("cat"))
        .column(col("musti", "paw"))
        .column(col("musti", "nose"))
        .into_query();
    let (sql, params) = build(query);
    assert_eq!("SELECT `musti`.`paw`, `musti`.`nose` FROM `cat`.`musti`", sql);
    assert_eq!(Vec::<Value>::new(), params);
}

#[test]
fn sqlite_test_select_where_equals() {
    let query = Select::from_table(Table::new("naukio")).so_that(ce("naukio", "word").equals(text("meow")).into_tree()).into_query();
    let (sql, params) = build(query);
    assert_eq!("SELECT `naukio`.* FROM `naukio` WHERE `naukio`.`word` = ?", sql);
    assert_eq!(vec![Value::text("meow")], params);
}

#[test]
fn sqlite_test_select_where_like() {
    let query = Select::from_table(Table::new("naukio")).so_that(ce("naukio", "word").like("meow").into_tree()).into_query();
    let (sql, params) = build(query);
    assert_eq!("SELECT `naukio`.* FROM `naukio` WHERE `naukio`.`word` LIKE ?", sql);
    assert_eq!(vec![Value::text("%meow%")], params);
}

#[test]
fn sqlite_test_select_where_not_like() {
    let query = Select::from_table(Table::new("naukio")).so_that(ce("naukio", "word").not_like("meow").into_tree()).into_query();
    let (sql, params) = build(query);
    assert_eq!("SELECT `naukio`.* FROM `naukio` WHERE `naukio`.`word` NOT LIKE ?", sql);
    assert_eq!(vec![Value::text("%meow%")], params);
}

#[test]
fn sqlite_test_select_where_begins_with() {
    let query = Select::from_table(Table::new("naukio")).so_that(ce("naukio", "word").begins_with("meow").into_tree()).into_query();
    let (sql, params) = build(query);
    assert_eq!("SELECT `naukio`.* FROM `naukio` WHERE `naukio`.`word` LIKE ?", sql);
    assert_eq!(vec![Value::text("meow%")], params);
}

#[test]
fn sqlite_test_select_where_not_begins_with() {
    let query = Select::from_table(Table::new("naukio")).so_that(ce("naukio", "word").not_begins_with("meow").into_tree()).into_query();
    let (sql, params) = build(query);
    assert_eq!("SELECT `naukio`.* FROM `naukio` WHERE `naukio`.`word` NOT LIKE ?", sql);
    assert_eq!(vec![Value::text("meow%")], params);
}

#[test]
fn sqlite_test_select_where_ends_into() {
    let query = Select::from_table(Table::new("naukio")).so_that(ce("naukio", "word").ends_into("meow").into_tree()).into_query();
    let (sql, params) = build(query);
    assert_eq!("SELECT `naukio`.* FROM `naukio` WHERE `naukio`.`word` LIKE ?", sql);
    assert_eq!(vec![Value::text("%meow")], params);
}

#[test]
fn sqlite_test_select_where_not_ends_into() {
    let query = Select::from_table(Table::new("naukio")).so_that(ce("naukio", "word").not_ends_into("meow").into_tree()).into_query();
    let (sql, params) = build(query);
    assert_eq!("SELECT `naukio`.* FROM `naukio` WHERE `naukio`.`word` NOT LIKE ?", sql);
    assert_eq!(vec![Value::text("%meow")], params);
}

#[test]
fn sqlite_test_select_and() {
    let query = {
        let conditions = ce("naukio", "word")
            .equals(text("meow"))
            .and(ce("naukio", "age").less_than(num(10)).into_expression())
            .and(ce("naukio", "paw").equals(text("warm")).into_expression());
        Select::from_table(Table::new("naukio")).so_that(conditions).into_query()
    };
    let (sql, params) = build(query);
    assert_eq!("SELECT `naukio`.* FROM `naukio` WHERE (`naukio`.`word` = ? AND `naukio`.`age` < ? AND `naukio`.`paw` = ?)", sql);
    assert_eq!(vec![Value::text("meow"), Value::I32(Some(10)), Value::text("warm")], params);
}

#[test]
fn sqlite_test_select_and_different_execution_order() {
    let query = {
        let inner = ce("naukio", "age")
            .less_than(num(10))
            .and(ce("naukio", "paw").equals(text("warm")).into_expression());
        let conditions = ce("naukio", "word").equals(text("meow")).and(inner.into_expression());
        Select::from_table(Table::new("naukio")).so_that(conditions).into_query()
    };
    let (sql, params) = build(query);
    assert_eq!("SELECT `naukio`.* FROM `naukio` WHERE (`naukio`.`word` = ? AND (`naukio`.`age` < ? AND `naukio`.`paw` = ?))", sql);
    assert_eq!(vec![Value::text("meow"), Value::I32(Some(10)), Value::text("warm")], params);
}

#[test]
fn sqlite_test_select_or() {
    let query = {
        let conditions = ce("naukio", "word")
            .equals(text("meow"))
            .or(ce("naukio", "age").less_than(num(10)).into_expression())
            .and(ce("naukio", "paw").equals(text("warm")).into_expression());
        Select::from_table(Table::new("naukio")).so_that(conditions).into_query()
    };
    let (sql, params) = build(query);
    assert_eq!("SELECT `naukio`.* FROM `naukio` WHERE ((`naukio`.`word` = ? OR `naukio`.`age` < ?) AND `naukio`.`paw` = ?)", sql);
    assert_eq!(vec![Value::text("meow"), Value::I32(Some(10)), Value::text("warm")], params);
}

#[test]
fn sqlite_test_select_negation() {
    let query = {
        let conditions = ce("naukio", "word")
            .equals(text("meow"))
            .or(ce("naukio", "age").less_than(num(10)).into_expression())
            .and(ce("naukio", "paw").equals(text("warm")).into_expression())
            .not();
        Select::from_table(Table::new("naukio")).so_that(conditions).into_query()
    };
    let (sql, params) = build(query);
    assert_eq!("SELECT `naukio`.* FROM `naukio` WHERE (NOT ((`naukio`.`word` = ? OR `naukio`.`age` < ?) AND `naukio`.`paw` = ?))", sql);
    assert_eq!(vec![Value::text("meow"), Value::I32(Some(10)), Value::text("warm")], params);
}

#[test]
fn sqlite_test_with_raw_condition_tree() {
    let query = {
        let conditions = ConditionTree::Not(Box::new(
            ce("naukio", "word")
                .equals(text("meow"))
                .or(ce("naukio", "age").less_than(num(10)).into_expression())
                .and(ce("naukio", "paw").equals(text("warm")).into_expression())
                .into_expression(),
        ));
        Select::from_table(Table::new("naukio")).so_that(conditions).into_query()
    };
    let (sql, params) = build(query);
    assert_eq!("SELECT `naukio`.* FROM `naukio` WHERE (NOT ((`naukio`.`word` = ? OR `naukio`.`age` < ?) AND `naukio`.`paw` = ?))", sql);
    assert_eq!(vec![Value::text("meow"), Value::I32(Some(10)), Value::text("warm")], params);
}

#[test]
fn sqlite_test_simple_inner_join() {
    let query = Select::from_table(Table::new("users"))
        .inner_join(Table::new("posts").on(ce("users", "id").equals(ce("posts", "user_id")).into_tree()))
        .into_query();
    let (sql, params) = build(query);
    assert_eq!("SELECT `users`.* FROM `users` INNER JOIN `posts` ON `users`.`id` = `posts`.`user_id`", sql);
    assert_eq!(Vec::<Value>::new(), params);
}

#[test]
fn sqlite_test_additional_condition_inner_join() {
    let query = Select::from_table(Table::new("users"))
        .inner_join(Table::new("posts").on(
            ce("users", "id")
                .equals(ce("posts", "user_id"))
                .and(ce("posts", "published").equals(boolean(true)).into_expression()),
        ))
        .into_query();
    let (sql, params) = build(query);
    assert_eq!("SELECT `users`.* FROM `users` INNER JOIN `posts` ON (`users`.`id` = `posts`.`user_id` AND `posts`.`published` = ?)", sql);
    assert_eq!(vec![Value::boolean(true)], params);
}

#[test]
fn sqlite_test_simple_left_join() {
    let query = Select::from_table(Table::new("users"))
        .left_join(Table::new("posts").on(ce("users", "id").equals(ce("posts", "user_id")).into_tree()))
        .into_query();
    let (sql, params) = build(query);
    assert_eq!("SELECT `users`.* FROM `users` LEFT JOIN `posts` ON `users`.`id` = `posts`.`user_id`", sql);
    assert_eq!(Vec::<Value>::new(), params);
}

#[test]
fn sqlite_test_additional_condition_left_join() {
    let query = Select::from_table(Table::new("users"))
        .left_join(Table::new("posts").on(
            ce("users", "id")
                .equals(ce("posts", "user_id"))
                .and(ce("posts", "published").equals(boolean(true)).into_expression()),
        ))
        .into_query();
    let (sql, params) = build(query);
    assert_eq!("SELECT `users`.* FROM `users` LEFT JOIN `posts` ON (`users`.`id` = `posts`.`user_id` AND `posts`.`published` = ?)", sql);
    assert_eq!(vec![Value::boolean(true)], params);
}

#[test]
fn sqlite_test_column_aliasing() {
    let query = Select::from_table(Table::new("meow")).column(col("meow", "bar").alias("foo")).into_query();
    let (sql, params) = build(query);
    assert_eq!("SELECT `meow`.`bar` AS `foo` FROM `meow`", sql);
    assert_eq!(Vec::<Value>::new(), params);
}

#[test]
fn sqlite_test_distinct() {
    let query = Select::from_table(Table::new("test")).column(col("test", "bar")).distinct().into_query();
    let (sql, params) = build(query);
    assert_eq!("SELECT DISTINCT `test`.`bar` FROM `test`", sql);
    let _ = params;
}

#[test]
fn sqlite_test_distinct_with_subquery() {
    let query = Select::from_table(Table::new("test"))
        .value(Expression::select(Select::from_table(Table::new("test2")).value(num(1))))
        .column(col("test", "bar"))
        .distinct()
        .into_query();
    let (sql, params) = build(query);
    assert_eq!("SELECT DISTINCT (SELECT ? FROM `test2`), `test`.`bar` FROM `test`", sql);
    let _ = params;
}

#[test]
fn sqlite_test_aliased_null() {
    let query = Select::default().value(Expression::value(Value::Text(None)).alias("test")).into_query();
    let (sql, params) = build(query);
    assert_eq!("SELECT ? AS `test`", sql);
    assert_eq!(vec![Value::Text(None)], params);
}

#[test]
fn sqlite_test_raw_null() {
    let query = Select::default().value(Expression::raw(Value::Text(None))).into_query();
    let (sql, params) = build(query);
    assert_eq!("SELECT null", sql);
    assert_eq!(Vec::<Value>::new(), params);
}

#[test]
fn sqlite_test_raw_int() {
    let query = Select::default().value(Value::I32(Some(1)).raw().into_expression()).into_query();
    let (sql, params) = build(query);
    assert_eq!("SELECT 1", sql);
    assert_eq!(Vec::<Value>::new(), params);
}

#[test]
fn sqlite_test_raw_real() {
    let query = Select::default().value(Expression::raw(Value::double(1.3f64.to_bits(), &format!("{:?}", 1.3f64)))).into_query();
    let (sql, params) = build(query);
    assert_eq!("SELECT 1.3", sql);
    assert_eq!(Vec::<Value>::new(), params);
}

#[test]
fn sqlite_test_raw_text() {
    let query = Select::default().value(Expression::raw(Value::text("foo"))).into_query();
    let (sql, params) = build(query);
    assert_eq!("SELECT 'foo'", sql);
    assert_eq!(Vec::<Value>::new(), params);
}

#[test]
fn sqlite_test_raw_char() {
    let query = Select::default().value(Expression::raw(Value::text("a"))).into_query();
    let (sql, params) = build(query);
    assert_eq!("SELECT 'a'", sql);
    assert_eq!(Vec::<Value>::new(), params);
}

#[test]
fn sqlite_test_raw_json() {
    let query = Select::default().value(Expression::raw(Value::json("{\"foo\":\"bar\"}"))).into_query();
    let (sql, params) = build(query);
    assert_eq!("SELECT '{\"foo\":\"bar\"}'", sql);
    assert_eq!(Vec::<Value>::new(), params);
}

#[test]
fn test_select_from_values() {
    let values = Table::from_values(num_rows(vec![vec![1, 2], vec![3, 4]])).alias("vals");
    let (sql, params) = build(Select::from_table(values).into_query());
    assert_eq!("SELECT `vals`.* FROM (VALUES (?,?),(?,?)) AS `vals`", sql);
    assert_eq!(
        vec![Value::I32(Some(1)), Value::I32(Some(2)), Value::I32(Some(3)), Value::I32(Some(4))],
        params
    );
}

#[test]
fn sqlite_test_in_values() {
    let query = Select::from_table(Table::new("test")).so_that(
        row_of(vec![col("test", "id1"), col("test", "id2")])
            .in_selection(Expression::values(num_rows(vec![vec![1, 2], vec![3, 4]])))
            .into_tree(),
    );
    let (sql, params) = build(query.into_query());
    assert_eq!(
        "SELECT `test`.* FROM `test` WHERE (`test`.`id1`,`test`.`id2`) IN (VALUES (?,?),(?,?))",
        sql
    );
    assert_eq!(
        vec![Value::I32(Some(1)), Value::I32(Some(2)), Value::I32(Some(3)), Value::I32(Some(4))],
        params
    );
}

#[test]
fn sqlite_test_in_values_singular() {
    let mut cols = Row::new();
    cols.push(ce("test", "id1"));
    let mut vals = Values::new(vec![]);
    {
        let mut row1 = Row::new();
        row1.push(num(1));
        let mut row2 = Row::new();
        row2.push(num(2));
        vals.push(row1);
        vals.push(row2);
    }
    let query = Select::from_table(Table::new("test"))
        .so_that(Expression::row(cols).in_selection(Expression::values(vals)).into_tree());
    let (sql, params) = build(query.into_query());
    assert_eq!("SELECT `test`.* FROM `test` WHERE `test`.`id1` IN (?,?)", sql);
    assert_eq!(vec![Value::I32(Some(1)), Value::I32(Some(2))], params)
}

#[test]
fn sqlite_test_from() {
    let query = Select::default()
        .and_from(Table::new("foo"))
        .and_from(Table::from_select(Select::from_table(Table::new("baz")).column(col("baz", "a"))).alias("bar"))
        .value(Table::new("foo").asterisk())
        .column(col("bar", "a"));
    let (sql, _) = build(query.into_query());
    assert_eq!("SELECT `foo`.*, `bar`.`a` FROM `foo`, (SELECT `baz`.`a` FROM `baz`) AS `bar`", sql);
}

#[test]
fn sqlite_test_raw_bytes() {
    let (sql, params) = build(Select::default().value(Expression::raw(Value::bytes(vec![1, 2, 3]))).into_query());
    assert_eq!("SELECT x'010203'", sql);
    assert!(params.is_empty());
}

#[test]
fn sqlite_test_raw_boolean() {
    let (sql, params) = build(Select::default().value(Expression::raw(Value::boolean(true))).into_query());
    assert_eq!("SELECT true", sql);
    assert!(params.is_empty());

    let (sql, params) = build(Select::default().value(Expression::raw(Value::boolean(false))).into_query());
    assert_eq!("SELECT false", sql);
    assert!(params.is_empty());
}

#[test]
fn sqlite_test_raw_uuid() {
    let uuid = Uuid { bytes: [0x93, 0x6d, 0xa0, 0x1f, 0x9a, 0xbd, 0x4d, 0x9d, 0x80, 0xc7, 0x02, 0xaf, 0x85, 0xc8, 0x22, 0xa8] };
    let (sql, params) = build(Select::default().value(Expression::raw(Value::uuid(uuid))).into_query());
    assert_eq!("SELECT '936da01f-9abd-4d9d-80c7-02af85c822a8'", sql);
    assert!(params.is_empty());
}

#[test]
fn sqlite_test_raw_datetime() {
    let dt = DateTime {
        date: Date::new(2019, 7, 27).unwrap(),
        time: Time::new(5, 30, 30, 0).unwrap(),
    };
    let (sql, params) = build(Select::default().value(Expression::raw(Value::UtcDateTime(Some(dt)))).into_query());
    assert_eq!("SELECT '2019-07-27T05:30:30+00:00'", sql);
    assert!(params.is_empty());
}

#[test]
fn sqlite_test_default_insert() {
    let insert = Insert::single_into(Table::new("foo"))
        .value(col("foo", "foo"), text("bar"))
        .value(col("foo", "baz"), Expression::default_value())
        .build();
    let (sql, _) = build(insert.into_query());
    assert_eq!("INSERT INTO `foo` (`foo`.`foo`, `foo`.`baz`) VALUES (?,DEFAULT)", sql);
}

#[test]
fn sqlite_join_is_inserted_positionally() {
    let joined_table = Table::new("users").left_join(
        Table::new("posts").alias("p").on(ce("p", "user_id").equals(ce("user", "id")).into_tree()),
    );
    let q = Select::from_table(joined_table).and_from(Table::new("Toto"));
    let (sql, _) = build(q.into_query());
    assert_eq!(
        "SELECT `users`.*, `Toto`.* FROM `users` LEFT JOIN `posts` AS `p` ON `p`.`user_id` = `user`.`id`, `Toto`",
        sql
    );
}

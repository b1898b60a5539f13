use xiayu::ast::node::{
    Column, ConditionTree, DefaultValue, Expression, IndexDefinition, Insert, OnConflict, Query, Row,
    Select, Table, Values,
};
use xiayu::ast::calendar::{Date, DateTime, Time};
use xiayu::ast::value::{Uuid, Value};
use xiayu::visitors::compile::Mssql;

fn col(table: &str, name: &str) -> Column {
    Column::of(table, name)
}

fn ce(table: &str, name: &str) -> Expression {
    Expression::column(col(table, name))
}

fn num(i: i32) -> Expression {
    Expression::value(Value::I32(Some(i)))
}

fn text(s: &str) -> Expression {
    Expression::value(Value::text(s))
}

#[allow(dead_code)]
fn boolean(b: bool) -> Expression {
    Expression::value(Value::boolean(b))
}

#[allow(dead_code)]
fn row_of(columns: Vec<Column>) -> Expression {
    Expression::row(Row::from_columns(columns))
}

fn num_rows(rows: Vec<Vec<i32>>) -> Values {
    let mut values = Values::empty();
    for row in rows {
        let mut r = Row::new();
        for i in row {
            r.push(num(i));
        }
        values.push(r);
    }
    values
}

#[allow(dead_code)]
fn text_row(items: Vec<&str>) -> Row {
    let mut r = Row::new();
    for i in items {
        r.push(text(i));
    }
    r
}

fn build(query: Query) -> (String, Vec<Value>) {
    Mssql::build(query).unwrap()
}
#[test]
fn mssql_test_select_1() {
    let query = Select::default().value(num(1)).into_query();
    let (sql, params) = build(query);
    assert_eq!("SELECT @P1", sql);
    assert_eq!(vec![Value::I32(Some(1))], params);
}

#[test]
fn mssql_test_aliased_value() {
    let query = Select::default().value(num(1).alias("test")).into_query();
    let (sql, params) = build(query);
    assert_eq!("SELECT @P1 AS [test]", sql);
    assert_eq!(vec![Value::I32(Some(1))], params);
}

#[test]
fn mssql_test_select_star_from() {
    let query = Select::from_table(Table::new("musti")).into_query();
    let (sql, params) = build(query);
    assert_eq!("SELECT [musti].* FROM [musti]", sql);
    assert_eq!(Vec::<Value>::new(), params);
}

#[test]
fn mssql_test_select_order_by() {
    let query = Select::from_table(Table::new("musti"))
        .order_by(col("musti", "foo").order(None))
        .order_by(col("musti", "baz").ascend())
        .order_by(col("musti", "bar").descend())
        .into_query();
    let (sql, params) = build(query);
    assert_eq!("SELECT [musti].* FROM [musti] ORDER BY [musti].[foo], [musti].[baz] ASC, [musti].[bar] DESC", sql);
    assert_eq!(Vec::<Value>::new(), params);
}

#[test]
fn mssql_test_select_fields_from() {
    let query = Select::from_table(Table::new("musti").database("cat"))
        .column(col("musti", "paw"))
        .column(col("musti", "nose"))
        .into_query();
    let (sql, params) = build(query);
    assert_eq!("SELECT [musti].[paw], [musti].[nose] FROM [cat].[musti]", sql);
    assert_eq!(Vec::<Value>::new(), params);
}

#[test]
fn mssql_test_select_where_equals() {
    let query = Select::from_table(Table::new("naukio")).so_that(ce("naukio", "word").equals(text("meow")).into_tree()).into_query();
    let (sql, params) = build(query);
    assert_eq!("SELECT [naukio].* FROM [naukio] WHERE [naukio].[word] = @P1", sql);
    assert_eq!(vec![Value::text("meow")], params);
}

#[test]
fn mssql_test_select_where_like() {
    let query = Select::from_table(Table::new("naukio")).so_that(ce("naukio", "word").like("meow").into_tree()).into_query();
    let (sql, params) = build(query);
    assert_eq!("SELECT [naukio].* FROM [naukio] WHERE [naukio].[word] LIKE @P1", sql);
    assert_eq!(vec![Value::text("%meow%")], params);
}

#[test]
fn mssql_test_select_where_not_like() {
    let query = Select::from_table(Table::new("naukio")).so_that(ce("naukio", "word").not_like("meow").into_tree()).into_query();
    let (sql, params) = build(query);
    assert_eq!("SELECT [naukio].* FROM [naukio] WHERE [naukio].[word] NOT LIKE @P1", sql);
    assert_eq!(vec![Value::text("%meow%")], params);
}

#[test]
fn mssql_test_select_where_begins_with() {
    let query = Select::from_table(Table::new("naukio")).so_that(ce("naukio", "word").begins_with("meow").into_tree()).into_query();
    let (sql, params) = build(query);
    assert_eq!("SELECT [naukio].* FROM [naukio] WHERE [naukio].[word] LIKE @P1", sql);
    assert_eq!(vec![Value::text("meow%")], params);
}

#[test]
fn mssql_test_select_where_not_begins_with() {
    let query = Select::from_table(Table::new("naukio")).so_that(ce("naukio", "word").not_begins_with("meow").into_tree()).into_query();
    let (sql, params) = build(query);
    assert_eq!("SELECT [naukio].* FROM [naukio] WHERE [naukio].[word] NOT LIKE @P1", sql);
    assert_eq!(vec![Value::text("meow%")], params);
}

#[test]
fn mssql_test_select_where_ends_into() {
    let query = Select::from_table(Table::new("naukio")).so_that(ce("naukio", "word").ends_into("meow").into_tree()).into_query();
    let (sql, params) = build(query);
    assert_eq!("SELECT [naukio].* FROM [naukio] WHERE [naukio].[word] LIKE @P1", sql);
    assert_eq!(vec![Value::text("%meow")], params);
}

#[test]
fn mssql_test_select_where_not_ends_into() {
    let query = Select::from_table(Table::new("naukio")).so_that(ce("naukio", "word").not_ends_into("meow").into_tree()).into_query();
    let (sql, params) = build(query);
    assert_eq!("SELECT [naukio].* FROM [naukio] WHERE [naukio].[word] NOT LIKE @P1", sql);
    assert_eq!(vec![Value::text("%meow")], params);
}

#[test]
fn mssql_test_select_and() {
    let query = {
        let conditions = ce("naukio", "word")
            .equals(text("meow"))
            .and(ce("naukio", "age").less_than(num(10)).into_expression())
            .and(ce("naukio", "paw").equals(text("warm")).into_expression());
        Select::from_table(Table::new("naukio")).so_that(conditions).into_query()
    };
    let (sql, params) = build(query);
    assert_eq!("SELECT [naukio].* FROM [naukio] WHERE ([naukio].[word] = @P1 AND [naukio].[age] < @P2 AND [naukio].[paw] = @P3)", sql);
    assert_eq!(vec![Value::text("meow"), Value::I32(Some(10)), Value::text("warm")], params);
}

#[test]
fn mssql_test_select_and_different_execution_order() {
    let query = {
        let inner = ce("naukio", "age")
            .less_than(num(10))
            .and(ce("naukio", "paw").equals(text("warm")).into_expression());
        let conditions = ce("naukio", "word").equals(text("meow")).and(inner.into_expression());
        Select::from_table(Table::new("naukio")).so_that(conditions).into_query()
    };
    let (sql, params) = build(query);
    assert_eq!("SELECT [naukio].* FROM [naukio] WHERE ([naukio].[word] = @P1 AND ([naukio].[age] < @P2 AND [naukio].[paw] = @P3))", sql);
    assert_eq!(vec![Value::text("meow"), Value::I32(Some(10)), Value::text("warm")], params);
}

#[test]
fn mssql_test_select_or() {
    let query = {
        let conditions = ce("naukio", "word")
            .equals(text("meow"))
            .or(ce("naukio", "age").less_than(num(10)).into_expression())
            .and(ce("naukio", "paw").equals(text("warm")).into_expression());
        Select::from_table(Table::new("naukio")).so_that(conditions).into_query()
    };
    let (sql, params) = build(query);
    assert_eq!("SELECT [naukio].* FROM [naukio] WHERE (([naukio].[word] = @P1 OR [naukio].[age] < @P2) AND [naukio].[paw] = @P3)", sql);
    assert_eq!(vec![Value::text("meow"), Value::I32(Some(10)), Value::text("warm")], params);
}

#[test]
fn mssql_test_select_negation() {
    let query = {
        let conditions = ce("naukio", "word")
            .equals(text("meow"))
            .or(ce("naukio", "age").less_than(num(10)).into_expression())
            .and(ce("naukio", "paw").equals(text("warm")).into_expression())
            .not();
        Select::from_table(Table::new("naukio")).so_that(conditions).into_query()
    };
    let (sql, params) = build(query);
    assert_eq!("SELECT [naukio].* FROM [naukio] WHERE (NOT (([naukio].[word] = @P1 OR [naukio].[age] < @P2) AND [naukio].[paw] = @P3))", sql);
    assert_eq!(vec![Value::text("meow"), Value::I32(Some(10)), Value::text("warm")], params);
}

#[test]
fn mssql_test_with_raw_condition_tree() {
    let query = {
        let conditions = ConditionTree::Not(Box::new(
            ce("naukio", "word")
                .equals(text("meow"))
                .or(ce("naukio", "age").less_than(num(10)).into_expression())
                .and(ce("naukio", "paw").equals(text("warm")).into_expression())
                .into_expression(),
        ));
        Select::from_table(Table::new("naukio")).so_that(conditions).into_query()
    };
    let (sql, params) = build(query);
    assert_eq!("SELECT [naukio].* FROM [naukio] WHERE (NOT (([naukio].[word] = @P1 OR [naukio].[age] < @P2) AND [naukio].[paw] = @P3))", sql);
    assert_eq!(vec![Value::text("meow"), Value::I32(Some(10)), Value::text("warm")], params);
}

#[test]
fn mssql_test_simple_inner_join() {
    let query = Select::from_table(Table::new("users"))
        .inner_join(Table::new("posts").on(ce("users", "id").equals(ce("posts", "user_id")).into_tree()))
        .into_query();
    let (sql, params) = build(query);
    assert_eq!("SELECT [users].* FROM [users] INNER JOIN [posts] ON [users].[id] = [posts].[user_id]", sql);
    assert_eq!(Vec::<Value>::new(), params);
}

#[test]
fn mssql_test_additional_condition_inner_join() {
    let query = Select::from_table(Table::new("users"))
        .inner_join(Table::new("posts").on(
            ce("users", "id")
                .equals(ce("posts", "user_id"))
                .and(ce("posts", "published").equals(boolean(true)).into_expression()),
        ))
        .into_query();
    let (sql, params) = build(query);
    assert_eq!("SELECT [users].* FROM [users] INNER JOIN [posts] ON ([users].[id] = [posts].[user_id] AND [posts].[published] = @P1)", sql);
    assert_eq!(vec![Value::boolean(true)], params);
}

#[test]
fn mssql_test_simple_left_join() {
    let query = Select::from_table(Table::new("users"))
        .left_join(Table::new("posts").on(ce("users", "id").equals(ce("posts", "user_id")).into_tree()))
        .into_query();
    let (sql, params) = build(query);
    assert_eq!("SELECT [users].* FROM [users] LEFT JOIN [posts] ON [users].[id] = [posts].[user_id]", sql);
    assert_eq!(Vec::<Value>::new(), params);
}

#[test]
fn mssql_test_additional_condition_left_join() {
    let query = Select::from_table(Table::new("users"))
        .left_join(Table::new("posts").on(
            ce("users", "id")
                .equals(ce("posts", "user_id"))
                .and(ce("posts", "published").equals(boolean(true)).into_expression()),
        ))
        .into_query();
    let (sql, params) = build(query);
    assert_eq!("SELECT [users].* FROM [users] LEFT JOIN [posts] ON ([users].[id] = [posts].[user_id] AND [posts].[published] = @P1)", sql);
    assert_eq!(vec![Value::boolean(true)], params);
}

#[test]
fn mssql_test_column_aliasing() {
    let query = Select::from_table(Table::new("meow")).column(col("meow", "bar").alias("foo")).into_query();
    let (sql, params) = build(query);
    assert_eq!("SELECT [meow].[bar] AS [foo] FROM [meow]", sql);
    assert_eq!(Vec::<Value>::new(), params);
}

#[test]
fn mssql_test_distinct() {
    let query = Select::from_table(Table::new("test")).column(col("test", "bar")).distinct().into_query();
    let (sql, params) = build(query);
    assert_eq!("SELECT DISTINCT [test].[bar] FROM [test]", sql);
    let _ = params;
}

#[test]
fn mssql_test_distinct_with_subquery() {
    let query = Select::from_table(Table::new("test"))
        .value(Expression::select(Select::from_table(Table::new("test2")).value(num(1))))
        .column(col("test", "bar"))
        .distinct()
        .into_query();
    let (sql, params) = build(query);
    assert_eq!("SELECT DISTINCT (SELECT @P1 FROM [test2]), [test].[bar] FROM [test]", sql);
    let _ = params;
}

#[test]
fn mssql_test_aliased_null() {
    let query = Select::default().value(Expression::value(Value::I32(None)).alias("test")).into_query();
    let (sql, params) = build(query);
    assert_eq!("SELECT @P1 AS [test]", sql);
    assert_eq!(vec![Value::I32(None)], params);
}

#[test]
fn mssql_test_raw_null() {
    let query = Select::default().value(Expression::raw(Value::Text(None))).into_query();
    let (sql, params) = build(query);
    assert_eq!("SELECT null", sql);
    assert_eq!(Vec::<Value>::new(), params);
}

#[test]
fn mssql_test_raw_int() {
    let query = Select::default().value(Value::I32(Some(1)).raw().into_expression()).into_query();
    let (sql, params) = build(query);
    assert_eq!("SELECT 1", sql);
    assert_eq!(Vec::<Value>::new(), params);
}

#[test]
fn mssql_test_raw_real() {
    let query = Select::default().value(Expression::raw(Value::double(1.3f64.to_bits(), &format!("{:?}", 1.3f64)))).into_query();
    let (sql, params) = build(query);
    assert_eq!("SELECT 1.3", sql);
    assert_eq!(Vec::<Value>::new(), params);
}

#[test]
fn mssql_test_raw_text() {
    let query = Select::default().value(Expression::raw(Value::text("foo"))).into_query();
    let (sql, params) = build(query);
    assert_eq!("SELECT 'foo'", sql);
    assert_eq!(Vec::<Value>::new(), params);
}

#[test]
fn mssql_test_raw_char() {
    let query = Select::default().value(Expression::raw(Value::text("a"))).into_query();
    let (sql, params) = build(query);
    assert_eq!("SELECT 'a'", sql);
    assert_eq!(Vec::<Value>::new(), params);
}

#[test]
fn mssql_test_raw_json() {
    let query = Select::default().value(Expression::raw(Value::json("{\"foo\":\"bar\"}"))).into_query();
    let (sql, params) = build(query);
    assert_eq!("SELECT '{\"foo\":\"bar\"}'", sql);
    assert_eq!(Vec::<Value>::new(), params);
}

fn foo(name: &str) -> Column {
    col("foo", name)
}

fn conflict_query(table: Table, pairs: Vec<(&str, &str)>) -> Insert {
    let mut insert = Insert::single_into(table);
    for (name, value) in pairs {
        insert = insert.value(foo(name), text(value));
    }
    insert.build().on_conflict(OnConflict::DoNothing)
}

fn provided(column: Column, value: &str) -> Column {
    column.default(DefaultValue::Provided(Value::text(value)))
}

fn generated(column: Column) -> Column {
    column.default(DefaultValue::Generated)
}

#[test]
fn mssql_test_in_values() {
    let query = Select::from_table(Table::new("test")).so_that(
        row_of(vec![col("test", "id1"), col("test", "id2")])
            .in_selection(Expression::values(num_rows(vec![vec![1, 2], vec![3, 4]])))
            .into_tree(),
    );
    let (sql, params) = build(query.into_query());
    assert_eq!(
        "SELECT [test].* FROM [test] WHERE (([test].[id1] = @P1 AND [test].[id2] = @P2) OR ([test].[id1] = @P3 AND [test].[id2] = @P4))",
        sql
    );
    assert_eq!(
        vec![Value::I32(Some(1)), Value::I32(Some(2)), Value::I32(Some(3)), Value::I32(Some(4))],
        params
    );
}

#[test]
fn test_not_in_values() {
    let query = Select::from_table(Table::new("test")).so_that(
        row_of(vec![col("test", "id1"), col("test", "id2")])
            .not_in_selection(Expression::values(num_rows(vec![vec![1, 2], vec![3, 4]])))
            .into_tree(),
    );
    let (sql, params) = build(query.into_query());
    assert_eq!(
        "SELECT [test].* FROM [test] WHERE NOT (([test].[id1] = @P1 AND [test].[id2] = @P2) OR ([test].[id1] = @P3 AND [test].[id2] = @P4))",
        sql
    );
    assert_eq!(
        vec![Value::I32(Some(1)), Value::I32(Some(2)), Value::I32(Some(3)), Value::I32(Some(4))],
        params
    );
}

#[test]
fn mssql_test_in_values_singular() {
    let mut cols = Row::new();
    cols.push(ce("test", "id1"));
    let mut vals = Values::new(vec![]);
    {
        let mut row1 = Row::new();
        row1.push(num(1));
        let mut row2 = Row::new();
        row2.push(num(2));
        vals.push(row1);
        vals.push(row2);
    }
    let query = Select::from_table(Table::new("test"))
        .so_that(Expression::row(cols).in_selection(Expression::values(vals)).into_tree());
    let (sql, params) = build(query.into_query());
    assert_eq!("SELECT [test].* FROM [test] WHERE [test].[id1] IN (@P1,@P2)", sql);
    assert_eq!(vec![Value::I32(Some(1)), Value::I32(Some(2))], params)
}

#[test]
fn test_limit_with_no_offset() {
    let query = Select::from_table(Table::new("bar"))
        .column(col("bar", "foo"))
        .order_by(col("bar", "id").order(None))
        .limit(10);
    let (sql, params) = build(query.into_query());
    assert_eq!(
        "SELECT [bar].[foo] FROM [bar] ORDER BY [bar].[id] OFFSET @P1 ROWS FETCH NEXT @P2 ROWS ONLY",
        sql
    );
    assert_eq!(vec![Value::I32(Some(0)), Value::I64(Some(10))], params);
}

#[test]
fn test_offset_no_limit() {
    let query = Select::from_table(Table::new("bar"))
        .column(col("bar", "foo"))
        .order_by(col("bar", "id").order(None))
        .offset(10);
    let (sql, params) = build(query.into_query());
    assert_eq!("SELECT [bar].[foo] FROM [bar] ORDER BY [bar].[id] OFFSET @P1 ROWS", sql);
    assert_eq!(vec![Value::I64(Some(10))], params);
}

#[test]
fn test_limit_with_offset() {
    let query = Select::from_table(Table::new("bar"))
        .column(col("bar", "foo"))
        .order_by(col("bar", "id").order(None))
        .limit(9)
        .offset(10);
    let (sql, params) = build(query.into_query());
    assert_eq!(
        "SELECT [bar].[foo] FROM [bar] ORDER BY [bar].[id] OFFSET @P1 ROWS FETCH NEXT @P2 ROWS ONLY",
        sql
    );
    assert_eq!(vec![Value::I64(Some(10)), Value::I64(Some(9))], params);
}

#[test]
fn test_limit_with_offset_no_given_order() {
    let query = Select::from_table(Table::new("bar")).column(col("bar", "foo")).limit(9).offset(10);
    let (sql, params) = build(query.into_query());
    assert_eq!(
        "SELECT [bar].[foo] FROM [bar] ORDER BY 1 OFFSET @P1 ROWS FETCH NEXT @P2 ROWS ONLY",
        sql
    );
    assert_eq!(vec![Value::I64(Some(10)), Value::I64(Some(9))], params);
}

#[test]
fn mssql_test_raw_bytes() {
    let (sql, params) = build(Select::default().value(Expression::raw(Value::bytes(vec![1, 2, 3]))).into_query());
    assert_eq!("SELECT 0x010203", sql);
    assert!(params.is_empty());
}

#[test]
fn mssql_test_raw_boolean() {
    let (sql, params) = build(Select::default().value(Expression::raw(Value::boolean(true))).into_query());
    assert_eq!("SELECT 1", sql);
    assert!(params.is_empty());

    let (sql, params) = build(Select::default().value(Expression::raw(Value::boolean(false))).into_query());
    assert_eq!("SELECT 0", sql);
    assert!(params.is_empty());
}

#[test]
fn mssql_test_raw_uuid() {
    let uuid = Uuid { bytes: [0x93, 0x6d, 0xa0, 0x1f, 0x9a, 0xbd, 0x4d, 0x9d, 0x80, 0xc7, 0x02, 0xaf, 0x85, 0xc8, 0x22, 0xa8] };
    let (sql, params) = build(Select::default().value(Expression::raw(Value::uuid(uuid))).into_query());
    assert_eq!("SELECT CONVERT(uniqueidentifier, N'936da01f-9abd-4d9d-80c7-02af85c822a8')", sql);
    assert!(params.is_empty());
}

#[test]
fn mssql_test_raw_datetime() {
    let dt = DateTime {
        date: Date::new(2019, 7, 27).unwrap(),
        time: Time::new(5, 30, 30, 0).unwrap(),
    };
    let (sql, params) = build(Select::default().value(Expression::raw(Value::UtcDateTime(Some(dt)))).into_query());
    assert_eq!("SELECT CONVERT(datetimeoffset, N'2019-07-27T05:30:30+00:00')", sql);
    assert!(params.is_empty());
}

#[test]
fn test_single_insert() {
    let insert = Insert::single_into(Table::new("foo"))
        .value(foo("bar"), text("lol"))
        .value(foo("wtf"), text("meow"))
        .build();
    let (sql, params) = build(insert.into_query());
    assert_eq!("INSERT INTO [foo] ([foo].[bar],[foo].[wtf]) VALUES (@P1,@P2)", sql);
    assert_eq!(vec![Value::text("lol"), Value::text("meow")], params);
}

#[test]
fn test_single_insert_default() {
    let insert = Insert::single_into(Table::new("foo")).build();
    let (sql, params) = build(insert.into_query());
    assert_eq!("INSERT INTO [foo] DEFAULT VALUES", sql);
    assert!(params.is_empty());
}

#[test]
fn mssql_test_returning_insert() {
    let insert = Insert::single_into(Table::new("foo")).value(foo("bar"), text("lol")).build();
    let (sql, params) = build(insert.returning(vec![foo("bar")]).into_query());
    assert_eq!("DECLARE @generated_keys table([bar] NVARCHAR(255)) INSERT INTO [foo] ([foo].[bar]) OUTPUT [Inserted].[bar] INTO @generated_keys VALUES (@P1) SELECT [t].[bar] FROM @generated_keys AS g INNER JOIN [foo] AS [t] ON [t].[bar] = [g].[bar] WHERE @@ROWCOUNT > 0", sql);
    assert_eq!(vec![Value::text("lol")], params);
}

#[test]
fn test_multi_insert() {
    let insert = Insert::multi_into(Table::new("foo"), vec![foo("bar"), foo("wtf")])
        .values(text_row(vec!["lol", "meow"]))
        .values(text_row(vec!["omg", "hey"]))
        .build();
    let (sql, params) = build(insert.into_query());
    assert_eq!("INSERT INTO [foo] ([foo].[bar],[foo].[wtf]) VALUES (@P1,@P2),(@P3,@P4)", sql);
    assert_eq!(
        vec![Value::text("lol"), Value::text("meow"), Value::text("omg"), Value::text("hey")],
        params
    );
}

#[test]
fn test_single_insert_conflict_do_nothing_single_unique() {
    let table = Table::new("foo").add_unique_index(IndexDefinition::single(foo("bar")));
    let insert = conflict_query(table, vec![("bar", "lol"), ("wtf", "meow")]);
    let (sql, params) = build(insert.into_query());
    let expected_sql = "MERGE INTO [foo] USING (SELECT @P1 AS [bar], @P2 AS [wtf]) AS [dual] ([bar],[wtf]) ON [dual].[bar] = [foo].[bar] WHEN NOT MATCHED THEN INSERT ([bar],[wtf]) VALUES ([dual].[bar],[dual].[wtf]);";
    assert_eq!(expected_sql, sql);
    assert_eq!(vec![Value::text("lol"), Value::text("meow")], params);
}

#[test]
fn test_single_insert_conflict_do_nothing_single_unique_with_default() {
    let table = Table::new("foo").add_unique_index(IndexDefinition::single(provided(foo("bar"), "purr")));
    let insert = conflict_query(table, vec![("wtf", "meow")]);
    let (sql, params) = build(insert.into_query());
    let expected_sql = "MERGE INTO [foo] USING (SELECT @P1 AS [wtf]) AS [dual] ([wtf]) ON [foo].[bar] = @P2 WHEN NOT MATCHED THEN INSERT ([wtf]) VALUES ([dual].[wtf]);";
    assert_eq!(expected_sql, sql);
    assert_eq!(vec![Value::text("meow"), Value::text("purr")], params);
}

#[test]
fn test_single_insert_conflict_with_returning_clause() {
    let table = Table::new("foo").add_unique_index(IndexDefinition::single(foo("bar")));
    let insert = conflict_query(table, vec![("bar", "lol"), ("wtf", "meow")])
        .returning(vec![foo("bar"), foo("wtf")]);
    let (sql, params) = build(insert.into_query());
    let expected_sql = "DECLARE @generated_keys table([bar] NVARCHAR(255),[wtf] NVARCHAR(255)) MERGE INTO [foo] USING (SELECT @P1 AS [bar], @P2 AS [wtf]) AS [dual] ([bar],[wtf]) ON [dual].[bar] = [foo].[bar] WHEN NOT MATCHED THEN INSERT ([bar],[wtf]) VALUES ([dual].[bar],[dual].[wtf]) OUTPUT [Inserted].[bar],[Inserted].[wtf] INTO @generated_keys; SELECT [t].[bar],[t].[wtf] FROM @generated_keys AS g INNER JOIN [foo] AS [t] ON ([t].[bar] = [g].[bar] AND [t].[wtf] = [g].[wtf]) WHERE @@ROWCOUNT > 0";
    assert_eq!(expected_sql, sql);
    assert_eq!(vec![Value::text("lol"), Value::text("meow")], params);
}

#[test]
fn test_single_insert_conflict_do_nothing_two_uniques() {
    let table = Table::new("foo")
        .add_unique_index(IndexDefinition::single(foo("bar")))
        .add_unique_index(IndexDefinition::single(foo("wtf")));
    let insert = conflict_query(table, vec![("bar", "lol"), ("wtf", "meow")]);
    let (sql, params) = build(insert.into_query());
    let expected_sql = "MERGE INTO [foo] USING (SELECT @P1 AS [bar], @P2 AS [wtf]) AS [dual] ([bar],[wtf]) ON [dual].[bar] = [foo].[bar] WHEN NOT MATCHED THEN INSERT ([bar],[wtf]) VALUES ([dual].[bar],[dual].[wtf]);";
    assert_eq!(expected_sql, sql);
    assert_eq!(vec![Value::text("lol"), Value::text("meow")], params);
}

#[test]
fn test_single_insert_conflict_do_nothing_two_uniques_with_default() {
    let table = Table::new("foo")
        .add_unique_index(IndexDefinition::single(provided(foo("bar"), "purr")))
        .add_unique_index(IndexDefinition::single(foo("wtf")));
    let insert = conflict_query(table, vec![("wtf", "meow")]);
    let (sql, params) = build(insert.into_query());
    let expected_sql = "MERGE INTO [foo] USING (SELECT @P1 AS [wtf]) AS [dual] ([wtf]) ON [foo].[bar] = @P2 WHEN NOT MATCHED THEN INSERT ([wtf]) VALUES ([dual].[wtf]);";
    assert_eq!(expected_sql, sql);
    assert_eq!(vec![Value::text("meow"), Value::text("purr")], params);
}

#[test]
fn generated_unique_defaults_should_not_be_part_of_the_join_when_value_is_not_provided() {
    let table = Table::new("foo")
        .add_unique_index(IndexDefinition::single(provided(foo("bar"), "purr")))
        .add_unique_index(IndexDefinition::single(generated(foo("lol"))))
        .add_unique_index(IndexDefinition::single(foo("wtf")));
    let insert = conflict_query(table, vec![("wtf", "meow")]);
    let (sql, params) = build(insert.into_query());
    let expected_sql = "MERGE INTO [foo] USING (SELECT @P1 AS [wtf]) AS [dual] ([wtf]) ON [foo].[bar] = @P2 WHEN NOT MATCHED THEN INSERT ([wtf]) VALUES ([dual].[wtf]);";
    assert_eq!(expected_sql, sql);
    assert_eq!(vec![Value::text("meow"), Value::text("purr")], params);
}

#[test]
fn with_generated_unique_defaults_the_value_should_be_part_of_the_join() {
    let table = Table::new("foo")
        .add_unique_index(IndexDefinition::single(provided(foo("bar"), "purr")))
        .add_unique_index(IndexDefinition::single(generated(foo("lol"))))
        .add_unique_index(IndexDefinition::single(foo("wtf")));
    let insert = conflict_query(table, vec![("wtf", "meow"), ("lol", "hiss")]);
    let (sql, params) = build(insert.into_query());
    let expected_sql = "MERGE INTO [foo] USING (SELECT @P1 AS [wtf], @P2 AS [lol]) AS [dual] ([wtf],[lol]) ON [foo].[bar] = @P3 WHEN NOT MATCHED THEN INSERT ([wtf],[lol]) VALUES ([dual].[wtf],[dual].[lol]);";
    assert_eq!(expected_sql, sql);
    assert_eq!(vec![Value::text("meow"), Value::text("hiss"), Value::text("purr")], params);
}

#[test]
fn test_single_insert_conflict_do_nothing_compound_unique() {
    let table = Table::new("foo").add_unique_index(IndexDefinition::compound(vec![foo("bar"), foo("wtf")]));
    let insert = conflict_query(table, vec![("bar", "lol"), ("wtf", "meow")]);
    let (sql, params) = build(insert.into_query());
    let expected_sql = "MERGE INTO [foo] USING (SELECT @P1 AS [bar], @P2 AS [wtf]) AS [dual] ([bar],[wtf]) ON ([dual].[bar] = [foo].[bar] AND [dual].[wtf] = [foo].[wtf]) WHEN NOT MATCHED THEN INSERT ([bar],[wtf]) VALUES ([dual].[bar],[dual].[wtf]);";
    assert_eq!(expected_sql, sql);
    assert_eq!(vec![Value::text("lol"), Value::text("meow")], params);
}

#[test]
fn test_single_insert_conflict_do_nothing_compound_unique_with_default() {
    let table = Table::new("foo")
        .add_unique_index(IndexDefinition::compound(vec![provided(foo("bar"), "purr"), foo("wtf")]));
    let insert = conflict_query(table, vec![("wtf", "meow")]);
    let (sql, params) = build(insert.into_query());
    let expected_sql = "MERGE INTO [foo] USING (SELECT @P1 AS [wtf]) AS [dual] ([wtf]) ON ([foo].[bar] = @P2 AND [dual].[wtf] = [foo].[wtf]) WHEN NOT MATCHED THEN INSERT ([wtf]) VALUES ([dual].[wtf]);";
    assert_eq!(expected_sql, sql);
    assert_eq!(vec![Value::text("meow"), Value::text("purr")], params);
}

#[test]
fn one_generated_value_in_compound_unique_removes_the_whole_index_from_the_join() {
    let table = Table::new("foo")
        .add_unique_index(IndexDefinition::compound(vec![provided(foo("bar"), "purr"), foo("wtf")]))
        .add_unique_index(IndexDefinition::compound(vec![generated(foo("omg")), foo("lol")]));
    let insert = conflict_query(table, vec![("wtf", "meow"), ("lol", "hiss")]);
    let (sql, params) = build(insert.into_query());
    let expected_sql = "MERGE INTO [foo] USING (SELECT @P1 AS [wtf], @P2 AS [lol]) AS [dual] ([wtf],[lol]) ON ([foo].[bar] = @P3 AND [dual].[wtf] = [foo].[wtf]) WHEN NOT MATCHED THEN INSERT ([wtf],[lol]) VALUES ([dual].[wtf],[dual].[lol]);";
    assert_eq!(expected_sql, sql);
    assert_eq!(vec![Value::text("meow"), Value::text("hiss"), Value::text("purr")], params);
}

#[test]
fn mssql_test_from() {
    let query = Select::default()
        .and_from(Table::new("foo"))
        .and_from(Table::from_select(Select::from_table(Table::new("baz")).column(Column::new("a"))).alias("bar"))
        .value(Table::new("foo").asterisk())
        .column(col("bar", "a"));
    let (sql, _) = build(query.into_query());
    assert_eq!("SELECT [foo].*, [bar].[a] FROM [foo], (SELECT [a] FROM [baz]) AS [bar]", sql);
}

fn a(name: &str) -> Column {
    col("A", name)
}

fn inner_select(first: (i32, &str), second: (i32, &str)) -> Expression {
    Expression::select(
        Select::default().value(num(first.0).alias(first.1)).value(num(second.0).alias(second.1)),
    )
}

#[test]
fn test_cte_conversion_top_level_in() {
    let row = row_of(vec![a("x"), a("y")]);
    let query = Select::from_table(Table::new("A"))
        .so_that(row.in_selection(inner_select((1, "a"), (2, "b"))).into_tree());
    let (sql, params) = build(query.into_query());
    assert_eq!(
        "WITH [cte_0] AS (SELECT @P1 AS [a], @P2 AS [b]) SELECT [A].* FROM [A] WHERE [A].[x] IN (SELECT [a] FROM [cte_0] WHERE [b] = [A].[y])",
        sql
    );
    assert_eq!(vec![Value::I32(Some(1)), Value::I32(Some(2))], params);
}

#[test]
fn test_cte_conversion_top_level_not_in() {
    let row = row_of(vec![a("x"), a("y")]);
    let query = Select::from_table(Table::new("A"))
        .so_that(row.not_in_selection(inner_select((1, "a"), (2, "b"))).into_tree());
    let (sql, params) = build(query.into_query());
    assert_eq!(
        "WITH [cte_0] AS (SELECT @P1 AS [a], @P2 AS [b]) SELECT [A].* FROM [A] WHERE [A].[x] NOT IN (SELECT [a] FROM [cte_0] WHERE [b] = [A].[y])",
        sql
    );
    assert_eq!(vec![Value::I32(Some(1)), Value::I32(Some(2))], params);
}

#[test]
fn test_cte_conversion_in_a_tree_top_level() {
    let row = row_of(vec![a("x"), a("y")]);
    let query = Select::from_table(Table::new("A"))
        .so_that(Expression::column(a("y")).equals(text("bar")).into_tree())
        .and_where(Expression::column(a("z")).equals(text("foo")).into_tree())
        .and_where(row.in_selection(inner_select((1, "a"), (2, "b"))).into_tree());
    let (sql, params) = build(query.into_query());
    assert_eq!(
        "WITH [cte_0] AS (SELECT @P1 AS [a], @P2 AS [b]) SELECT [A].* FROM [A] WHERE ([A].[y] = @P3 AND [A].[z] = @P4 AND [A].[x] IN (SELECT [a] FROM [cte_0] WHERE [b] = [A].[y]))",
        sql
    );
    assert_eq!(
        vec![Value::I32(Some(1)), Value::I32(Some(2)), Value::text("bar"), Value::text("foo")],
        params
    );
}

#[test]
fn test_cte_conversion_in_a_tree_nested() {
    let row = row_of(vec![a("x"), a("y")]);
    let cond = Expression::column(a("y")).equals(text("bar")).or(
        Expression::column(a("z"))
            .equals(text("foo"))
            .and(row.in_selection(inner_select((1, "a"), (2, "b"))).into_expression())
            .into_expression(),
    );
    let query = Select::from_table(Table::new("A")).so_that(cond);
    let (sql, params) = build(query.into_query());
    assert_eq!(
        "WITH [cte_0] AS (SELECT @P1 AS [a], @P2 AS [b]) SELECT [A].* FROM [A] WHERE ([A].[y] = @P3 OR ([A].[z] = @P4 AND [A].[x] IN (SELECT [a] FROM [cte_0] WHERE [b] = [A].[y])))",
        sql
    );
    assert_eq!(
        vec![Value::I32(Some(1)), Value::I32(Some(2)), Value::text("bar"), Value::text("foo")],
        params
    );
}

#[test]
fn test_multiple_cte_conversions_in_the_ast() {
    let row_0 = row_of(vec![a("x"), a("y")]);
    let row_1 = row_of(vec![a("u"), a("z")]);
    let query = Select::from_table(Table::new("A"))
        .so_that(row_0.in_selection(inner_select((1, "a"), (2, "b"))).into_tree())
        .and_where(row_1.not_in_selection(inner_select((3, "c"), (4, "d"))).into_tree());
    let (sql, params) = build(query.into_query());
    assert_eq!(
        "WITH [cte_0] AS (SELECT @P1 AS [a], @P2 AS [b]), [cte_1] AS (SELECT @P3 AS [c], @P4 AS [d]) SELECT [A].* FROM [A] WHERE ([A].[x] IN (SELECT [a] FROM [cte_0] WHERE [b] = [A].[y]) AND [A].[u] NOT IN (SELECT [c] FROM [cte_1] WHERE [d] = [A].[z]))",
        sql
    );
    assert_eq!(
        vec![Value::I32(Some(1)), Value::I32(Some(2)), Value::I32(Some(3)), Value::I32(Some(4))],
        params
    );
}

#[test]
fn mssql_test_default_insert() {
    let insert = Insert::single_into(Table::new("foo"))
        .value(foo("foo"), text("bar"))
        .value(foo("baz"), Expression::default_value())
        .build();
    let (sql, _) = build(insert.into_query());
    assert_eq!("INSERT INTO [foo] ([foo].[foo],[foo].[baz]) VALUES (@P1,DEFAULT)", sql);
}

#[test]
fn mssql_join_is_inserted_positionally() {
    let joined_table = Table::new("users").left_join(
        Table::new("posts").alias("p").on(ce("p", "user_id").equals(ce("users", "id")).into_tree()),
    );
    let q = Select::from_table(joined_table).and_from(Table::new("Toto"));
    let (sql, _) = build(q.into_query());
    assert_eq!(
        "SELECT [users].*, [Toto].* FROM [users] LEFT JOIN [posts] AS [p] ON [p].[user_id] = [users].[id], [Toto]",
        sql
    );
}

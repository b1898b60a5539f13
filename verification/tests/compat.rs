use xiayu::ast::node::{
    Column, CommonTableExpression, ConditionTree, DefaultValue, Expression, IndexDefinition, Insert,
    Merge, OnConflict, Query, Row, Select, SelectQuery, Table, Union, Using, Values,
};
use xiayu::ast::value::Value;
use xiayu::compat::adapt::compatibility_modifications;
use xiayu::compat::cte::convert_tuple_selects_to_ctes;
use xiayu::dialect::Dialect;
use xiayu::error::{ErrorKind, Fault};
use xiayu::visitors::compile::{Mssql, Postgres};

fn num(i: i32) -> Expression {
    Expression::value(Value::I32(Some(i)))
}

fn text(s: &str) -> Expression {
    Expression::value(Value::text(s))
}

fn a(name: &str) -> Column {
    Column::of("A", name)
}

fn pair(x: &str, y: &str) -> Expression {
    Expression::row(Row::from_columns(vec![a(x), a(y)]))
}

fn inner(first: &str, second: &str) -> Select {
    Select::default().value(num(1).alias(first)).value(num(2).alias(second))
}

fn message(kind: &ErrorKind) -> &str {
    match kind {
        ErrorKind::ConversionError(m) => m,
        ErrorKind::UnsupportedOperation(m) => m,
        _ => "",
    }
}

#[test]
fn hoisting_leaves_other_dialects_alone() {
    let query = Select::from_table(Table::new("A"))
        .so_that(pair("x", "y").in_selection(Expression::select(inner("a", "b"))).into_tree());
    let (sql, _) = Postgres::build(query.into_query()).unwrap();
    assert_eq!(
        "SELECT \"A\".* FROM \"A\" WHERE (\"A\".\"x\",\"A\".\"y\") IN (SELECT $1 AS \"a\", $2 AS \"b\")",
        sql
    );
}

#[test]
fn hoisting_writes_exactly_one_cte_for_one_membership() {
    let query = Select::from_table(Table::new("A"))
        .so_that(pair("x", "y").in_selection(Expression::select(inner("a", "b"))).into_tree());
    let (sql, _) = Mssql::build(query.into_query()).unwrap();
    assert_eq!(1, sql.matches("WITH ").count());
    assert_eq!(2, sql.matches("[cte_0]").count());
    assert_eq!(0, sql.matches("[cte_1]").count());
}

#[test]
fn hoisting_is_idempotent() {
    let query = Select::from_table(Table::new("A"))
        .so_that(pair("x", "y").in_selection(Expression::select(inner("a", "b"))).into_tree());
    let once = convert_tuple_selects_to_ctes(query).unwrap();
    let twice = convert_tuple_selects_to_ctes(once.duplicate()).unwrap();
    assert_eq!(once, twice);
    assert_eq!(1, once.ctes.len());
}

#[test]
fn hoisting_keeps_a_select_without_memberships() {
    let query = || {
        Select::from_table(Table::new("A"))
            .so_that(Expression::column(a("x")).equals(num(1)).into_tree())
            .with(inner("a", "b").into_cte("mine"))
    };
    assert_eq!(query(), convert_tuple_selects_to_ctes(query()).unwrap());
    let without = || Select::from_table(Table::new("A"));
    assert_eq!(without(), convert_tuple_selects_to_ctes(without()).unwrap());
}

#[test]
fn hoisting_numbers_from_left_to_right_through_the_tree() {
    let membership = |x: &str, y: &str, n: &str, m: &str| {
        pair(x, y).in_selection(Expression::select(inner(n, m))).into_expression()
    };
    let tree = membership("x", "y", "a", "b")
        .or(membership("u", "z", "c", "d").not().into_expression())
        .and(membership("p", "q", "e", "f"));
    let query = Select::from_table(Table::new("A")).so_that(tree);
    let (sql, params) = Mssql::build(query.into_query()).unwrap();
    assert_eq!(
        "WITH [cte_0] AS (SELECT @P1 AS [a], @P2 AS [b]), [cte_1] AS (SELECT @P3 AS [c], @P4 AS [d]), [cte_2] AS (SELECT @P5 AS [e], @P6 AS [f]) SELECT [A].* FROM [A] WHERE (([A].[x] IN (SELECT [a] FROM [cte_0] WHERE [b] = [A].[y]) OR (NOT [A].[u] IN (SELECT [c] FROM [cte_1] WHERE [d] = [A].[z]))) AND [A].[p] IN (SELECT [e] FROM [cte_2] WHERE [f] = [A].[q]))",
        sql
    );
    assert_eq!(6, params.len());
}

#[test]
fn hoisting_reaches_into_the_lifted_selection() {
    let deepest = inner("c", "d");
    let middle = Select::from_table(Table::new("B"))
        .value(num(3).alias("a"))
        .value(num(4).alias("b"))
        .so_that(pair("u", "z").in_selection(Expression::select(deepest)).into_tree());
    let query = Select::from_table(Table::new("A"))
        .so_that(pair("x", "y").in_selection(Expression::select(middle)).into_tree());
    let converted = convert_tuple_selects_to_ctes(query).unwrap();
    let names: Vec<&str> = converted.ctes.iter().map(|c| c.identifier.as_str()).collect();
    assert_eq!(vec!["cte_0", "cte_1"], names);
    let (sql, _) = Mssql::build(converted.into_query()).unwrap();
    assert!(sql.starts_with(
        "WITH [cte_0] AS (SELECT @P1 AS [a], @P2 AS [b] FROM [B] WHERE [A].[u] IN (SELECT [c] FROM [cte_1] WHERE [d] = [A].[z])), [cte_1] AS (SELECT @P3 AS [c], @P4 AS [d]) SELECT [A].* FROM [A] WHERE "
    ));
}

#[test]
fn hoisting_a_tuple_of_three() {
    let row = Expression::row(Row::from_columns(vec![a("x"), a("y"), a("z")]));
    let selection = Select::default()
        .value(num(1).alias("a"))
        .value(num(2).alias("b"))
        .value(num(3).alias("c"));
    let query = Select::from_table(Table::new("A"))
        .so_that(row.in_selection(Expression::select(selection)).into_tree());
    let (sql, _) = Mssql::build(query.into_query()).unwrap();
    assert_eq!(
        "WITH [cte_0] AS (SELECT @P1 AS [a], @P2 AS [b], @P3 AS [c]) SELECT [A].* FROM [A] WHERE [A].[x] IN (SELECT [a] FROM [cte_0] WHERE ([b] = [A].[y] AND [c] = [A].[z]))",
        sql
    );
}

#[test]
fn hoisting_skips_what_is_not_a_tuple_of_columns_in_a_named_selection() {
    let mut row = Row::new();
    row.push(Expression::column(a("x")));
    row.push(num(5));
    let query = || {
        let mut row = Row::new();
        row.push(Expression::column(a("x")));
        row.push(num(5));
        Select::from_table(Table::new("A"))
            .so_that(Expression::row(row).in_selection(Expression::select(inner("a", "b"))).into_tree())
    };
    assert_eq!(query(), convert_tuple_selects_to_ctes(query()).unwrap());
    let nameless = || {
        Select::from_table(Table::new("A")).so_that(
            pair("x", "y")
                .in_selection(Expression::select(Select::default().value(num(1)).value(num(2))))
                .into_tree(),
        )
    };
    assert_eq!(nameless(), convert_tuple_selects_to_ctes(nameless()).unwrap());
    let _ = row;
}

#[test]
fn hoisting_takes_the_names_of_a_union_from_its_first_select() {
    let union = Union::new(inner("a", "b")).all(inner("c", "d"));
    let selection = Expression::selection(SelectQuery::Union(Box::new(union)));
    let query = Select::from_table(Table::new("A"))
        .so_that(pair("x", "y").not_in_selection(selection).into_tree());
    let (sql, _) = Mssql::build(query.into_query()).unwrap();
    assert_eq!(
        "WITH [cte_0] AS (SELECT @P1 AS [a], @P2 AS [b] UNION ALL SELECT @P3 AS [c], @P4 AS [d]) SELECT [A].* FROM [A] WHERE [A].[x] NOT IN (SELECT [a] FROM [cte_0] WHERE [b] = [A].[y])",
        sql
    );
}

#[test]
fn a_cte_named_like_a_generated_one_is_refused() {
    let query = Select::from_table(Table::new("A"))
        .with(CommonTableExpression {
            identifier: "cte_0".to_string(),
            columns: vec![],
            selection: SelectQuery::Select(Box::new(inner("a", "b"))),
        })
        .so_that(pair("x", "y").in_selection(Expression::select(inner("a", "b"))).into_tree());
    assert_eq!(Err(Fault::ClashingNames), convert_tuple_selects_to_ctes(query.duplicate()));
    let error = Mssql::build(query.into_query()).unwrap_err();
    assert_eq!(
        ErrorKind::UnsupportedOperation(
            "A common table expression is named like a generated one.".to_string()
        ),
        error.kind
    );
}

fn keyed() -> Table {
    Table::new("foo").add_unique_index(IndexDefinition::single(Column::of("foo", "bar")))
}

#[test]
fn merge_needs_a_table() {
    let insert = Insert::single().value(Column::new("bar"), text("lol")).build();
    let error = Merge::try_from(insert).err().unwrap();
    assert_eq!(
        "Insert needs to point to a table for conversion to Merge.",
        message(&error.kind)
    );
    assert!(matches!(error.kind, ErrorKind::ConversionError(_)));
}

#[test]
fn merge_needs_a_unique_index() {
    let insert = Insert::single_into(Table::new("foo")).value(Column::new("bar"), text("lol")).build();
    let error = Mssql::build(insert.on_conflict(OnConflict::DoNothing).into_query()).unwrap_err();
    assert_eq!(
        "Insert table needs schema metadata for conversion to Merge.",
        message(&error.kind)
    );
    assert!(matches!(error.kind, ErrorKind::ConversionError(_)));
}

#[test]
fn merge_needs_a_default_for_a_unique_column_that_is_not_inserted() {
    let insert = Insert::single_into(keyed()).value(Column::of("foo", "wtf"), text("meow")).build();
    let error = Merge::try_from(insert).err().unwrap();
    assert_eq!(
        "A unique column missing from insert and table has no default.",
        message(&error.kind)
    );
}

#[test]
fn merge_needs_rows_or_a_selection() {
    let insert = Insert::expression_into(keyed(), vec![Column::of("foo", "bar")], num(1));
    let error = Merge::try_from(insert).err().unwrap();
    assert_eq!("Insert type not supported.", message(&error.kind));

    let insert = Insert::multi_into(keyed(), vec![Column::of("foo", "bar")]).build();
    let error = Merge::try_from(insert).err().unwrap();
    assert_eq!("Insert needs at least one row for conversion to Merge.", message(&error.kind));
}

#[test]
fn merge_of_several_rows_unites_them_with_the_last_row_first() {
    let mut first = Row::new();
    first.push(text("one"));
    let mut second = Row::new();
    second.push(text("two"));
    let mut third = Row::new();
    third.push(text("three"));
    let insert = Insert::multi_into(keyed(), vec![Column::of("foo", "bar")])
        .values(first)
        .values(second)
        .values(third)
        .build()
        .on_conflict(OnConflict::DoNothing);
    let (sql, params) = Mssql::build(insert.into_query()).unwrap();
    assert_eq!(
        "MERGE INTO [foo] USING (SELECT @P1 AS [bar] UNION ALL SELECT @P2 AS [bar] UNION ALL SELECT @P3 AS [bar]) AS [dual] ([bar]) ON [dual].[bar] = [foo].[bar] WHEN NOT MATCHED THEN INSERT ([bar]) VALUES ([dual].[bar]);",
        sql
    );
    assert_eq!(vec![Value::text("three"), Value::text("one"), Value::text("two")], params);
}

#[test]
fn merge_from_a_selection() {
    let source = Select::from_table(Table::new("other")).column(Column::new("bar"));
    let insert =
        Insert::expression_into(keyed(), vec![Column::of("foo", "bar")], Expression::select(source))
            .on_conflict(OnConflict::DoNothing);
    let (sql, _) = Mssql::build(insert.into_query()).unwrap();
    assert_eq!(
        "MERGE INTO [foo] USING (SELECT [bar] FROM [other]) AS [dual] ([bar]) ON [dual].[bar] = [foo].[bar] WHEN NOT MATCHED THEN INSERT ([bar]) VALUES ([dual].[bar]);",
        sql
    );
}

#[test]
fn merge_only_where_the_insert_skips_conflicts_and_the_dialect_cannot() {
    let insert = || Insert::single_into(keyed()).value(Column::of("foo", "bar"), text("lol")).build();
    let plain = compatibility_modifications(Dialect::Mssql, insert().into_query()).unwrap();
    assert!(matches!(plain, Query::Insert(_)));
    let skipping = || insert().on_conflict(OnConflict::DoNothing).into_query();
    assert!(matches!(
        compatibility_modifications(Dialect::Mssql, skipping()).unwrap(),
        Query::Merge(_)
    ));
    for d in vec![Dialect::Postgres, Dialect::Mysql, Dialect::Sqlite] {
        assert!(matches!(compatibility_modifications(d, skipping()).unwrap(), Query::Insert(_)));
    }
}

#[test]
fn join_conditions_of_a_table() {
    let table = Table::new("foo")
        .add_unique_index(IndexDefinition::single(
            Column::of("foo", "bar").default(DefaultValue::Provided(Value::text("purr"))),
        ))
        .add_unique_index(IndexDefinition::single(Column::of("foo", "gen").default(DefaultValue::Generated)));
    let conditions = table.join_conditions(&vec![Column::of("foo", "wtf")]).unwrap();
    assert!(matches!(conditions, ConditionTree::Single(_)));
    let none = Table::new("foo").join_conditions(&vec![]).unwrap();
    assert_eq!(ConditionTree::NegativeCondition, none);
    let missing = Table::new("foo")
        .add_unique_index(IndexDefinition::single(Column::of("foo", "bar")))
        .join_conditions(&vec![Column::of("other", "bar")]);
    assert_eq!(Err(Fault::UniqueColumnWithoutDefault), missing);
}

#[test]
fn only_the_first_unique_index_joins() {
    let bar = || Column::of("foo", "bar");
    let wtf = || Column::of("foo", "wtf");
    let generated = |c: Column| c.default(DefaultValue::Generated);
    let inserted = vec![bar(), wtf()];

    let first = Table::new("foo").add_unique_index(IndexDefinition::single(bar()));
    let both = Table::new("foo")
        .add_unique_index(IndexDefinition::single(bar()))
        .add_unique_index(IndexDefinition::single(wtf()));
    assert_eq!(first.join_conditions(&inserted), both.join_conditions(&inserted));
    assert_eq!(
        Ok(Expression::column(Column::of("dual", "bar")).equals(Expression::column(bar())).into_tree()),
        both.join_conditions(&inserted)
    );

    let swapped = Table::new("foo")
        .add_unique_index(IndexDefinition::single(wtf()))
        .add_unique_index(IndexDefinition::single(bar()));
    assert_eq!(
        Ok(Expression::column(Column::of("dual", "wtf")).equals(Expression::column(wtf())).into_tree()),
        swapped.join_conditions(&inserted)
    );

    let unknown = Table::new("foo")
        .add_unique_index(IndexDefinition::single(generated(Column::of("foo", "id"))))
        .add_unique_index(IndexDefinition::single(bar()));
    assert_eq!(Ok(ConditionTree::NegativeCondition), unknown.join_conditions(&inserted));

    let compound = Table::new("foo")
        .add_unique_index(IndexDefinition::compound(vec![bar(), generated(Column::of("foo", "id")), wtf()]));
    assert_eq!(Ok(ConditionTree::NegativeCondition), compound.join_conditions(&inserted));

    let later = Table::new("foo")
        .add_unique_index(IndexDefinition::single(bar()))
        .add_unique_index(IndexDefinition::single(Column::of("foo", "lol")));
    assert!(later.join_conditions(&inserted).is_ok());
    let broken = Table::new("foo")
        .add_unique_index(IndexDefinition::compound(vec![generated(Column::of("foo", "id")), Column::of("foo", "lol")]));
    assert_eq!(Err(Fault::UniqueColumnWithoutDefault), broken.join_conditions(&inserted));
}

#[test]
fn a_generated_first_index_matches_no_row() {
    let table = Table::new("foo")
        .add_unique_index(IndexDefinition::single(Column::of("foo", "id").default(DefaultValue::Generated)))
        .add_unique_index(IndexDefinition::single(Column::of("foo", "bar")));
    let insert = Insert::single_into(table)
        .value(Column::of("foo", "bar"), Expression::value(Value::text("lol")))
        .build()
        .on_conflict(OnConflict::DoNothing);
    let (sql, params) = Mssql::build(insert.into_query()).unwrap();
    assert_eq!(
        "MERGE INTO [foo] USING (SELECT @P1 AS [bar]) AS [dual] ([bar]) ON 1=0 WHEN NOT MATCHED THEN INSERT ([bar]) VALUES ([dual].[bar]);",
        sql
    );
    assert_eq!(vec![Value::text("lol")], params);
}

#[test]
fn columns_are_told_apart_by_name_and_table() {
    assert!(Column::of("t", "a").same_as(&Column::of("t", "a").alias("x")));
    assert!(!Column::of("t", "a").same_as(&Column::of("u", "a")));
    assert!(!Column::of("t", "a").same_as(&Column::of("t", "b")));
    assert!(!Column::of("t", "a").same_as(&Column::new("a")));
    assert!(Column::new("a").same_as(&Column::new("a")));
    assert!(Column::new("a").table(Table::new("t").database("d")).same_as(
        &Column::new("a").table(Table::new("t").database("d").alias("z"))
    ));
    assert!(!Column::new("a").table(Table::new("t").database("d")).same_as(&Column::of("t", "a")));
    assert!(Column::of("t", "a").is_among(&vec![Column::of("t", "z"), Column::of("t", "a")]));
    assert!(!Column::of("t", "a").is_among(&vec![]));
    let derived = || Table::from_values(Values::empty());
    assert!(!derived().same_as(&derived()));
}

#[test]
fn a_merge_built_by_hand() {
    let using = Using::new(
        Select::default().value(num(1).alias("a")).into_query(),
        Table::new("dual"),
        vec![Column::new("a")],
    )
    .on(Expression::column(Column::of("dual", "a")).equals(Expression::column(Column::of("t", "a"))).into_tree());
    let merge = Merge::new(Table::new("t"), using)
        .when_not_matched(Insert::multi(vec![Column::new("a")]).build().into_query())
        .returning(vec![Column::new("a")]);
    let (sql, _) = Mssql::build(merge.into_query()).unwrap();
    assert_eq!(
        "DECLARE @generated_keys table([a] NVARCHAR(255)) MERGE INTO [t] USING (SELECT @P1 AS [a]) AS [dual] ([a]) ON [dual].[a] = [t].[a] WHEN NOT MATCHED THEN INSERT ([a]) VALUES  OUTPUT [Inserted].[a] INTO @generated_keys; SELECT [t].[a] FROM @generated_keys AS g INNER JOIN [t] AS [t] ON [t].[a] = [g].[a] WHERE @@ROWCOUNT > 0",
        sql
    );
}

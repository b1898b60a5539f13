use xiayu::ast::node::{
    Column, ConditionTree, Delete, Expression, Insert, JsonArrayTest, JsonPath, JsonType, OnConflict, Operator,
    Query, Row, Select, Table, Update, Values,
};
use xiayu::ast::statement::{
    aggregate_to_string, coalesce, count, json_extract, lower, row_to_json, sum, text_search, upper,
};
use xiayu::ast::value::Value;
use xiayu::dialect::Dialect;
use xiayu::error::ErrorKind;
use xiayu::visitors::compile::build;

fn all_dialects() -> Vec<Dialect> {
    vec![Dialect::Postgres, Dialect::Mysql, Dialect::Sqlite, Dialect::Mssql]
}

fn bare(name: &str) -> Expression {
    Expression::column(Column::new(name))
}

fn num(i: i32) -> Expression {
    Expression::value(Value::I32(Some(i)))
}

/// A generator of numbers that depends on its seed alone.
struct Sequence {
    state: u64,
}

impl Sequence {
    fn next(&mut self, below: u64) -> u64 {
        self.state = self.state.wrapping_mul(6364136223846793005).wrapping_add(1442695040888963407);
        (self.state >> 33) % below
    }
}

fn some_value(s: &mut Sequence) -> Value {
    match s.next(8) {
        0 => Value::I32(Some(s.next(100) as i32)),
        1 => Value::text("word"),
        2 => Value::boolean(true),
        3 => Value::I64(None),
        4 => Value::json("{}"),
        5 => Value::U64(Some(7)),
        6 => Value::bytes(vec![1, 2]),
        _ => Value::xml("<a/>"),
    }
}

fn some_expression(s: &mut Sequence, depth: u32) -> Expression {
    if depth == 0 {
        return match s.next(4) {
            0 => Expression::value(some_value(s)),
            1 => bare("leaf"),
            2 => Expression::raw(some_value(s)),
            _ => Expression::column(Column::of("t", "c")),
        };
    }
    match s.next(14) {
        0 => some_expression(s, depth - 1).equals(some_expression(s, depth - 1)).into_expression(),
        1 => some_expression(s, depth - 1).not_equals(some_expression(s, depth - 1)).into_expression(),
        2 => some_expression(s, depth - 1).less_than(some_expression(s, depth - 1)).into_expression(),
        3 => some_expression(s, depth - 1)
            .and(some_expression(s, depth - 1))
            .and(some_expression(s, depth - 1))
            .into_expression(),
        4 => some_expression(s, depth - 1).or(some_expression(s, depth - 1)).into_expression(),
        5 => some_expression(s, depth - 1).not().into_expression(),
        6 => some_expression(s, depth - 1).like("x").into_expression(),
        7 => {
            let mut left = Row::new();
            left.push(Expression::column(Column::of("t", "a")));
            left.push(Expression::column(Column::of("t", "b")));
            let inner = Select::from_table(Table::new("u"))
                .value(num(1).alias("a"))
                .column(Column::new("b"))
                .so_that(ConditionTree::single(some_expression(s, depth - 1)));
            Expression::row(left).in_selection(Expression::select(inner)).into_expression()
        },
        8 => {
            let mut left = Row::new();
            left.push(some_expression(s, depth - 1));
            left.push(some_expression(s, depth - 1));
            let mut values = Values::empty();
            for _ in 0..s.next(3) {
                let mut row = Row::new();
                for _ in 0..s.next(3) {
                    row.push(some_expression(s, depth - 1));
                }
                values.push(row);
            }
            Expression::row(left).not_in_selection(Expression::values(values)).into_expression()
        },
        9 => Expression::function(count(vec![some_expression(s, depth - 1)])),
        10 => Expression::function(lower(some_expression(s, depth - 1))).alias("l"),
        11 => some_expression(s, depth - 1).json_type_equals(xiayu::ast::node::JsonType::Array).into_expression(),
        12 => some_expression(s, depth - 1).matches("q").into_expression(),
        _ => Expression::select(
            Select::from_table(Table::new("v"))
                .value(some_expression(s, depth - 1))
                .so_that(ConditionTree::single(some_expression(s, depth - 1)))
                .limit(s.next(5) as usize),
        ),
    }
}

fn some_query(s: &mut Sequence, depth: u32) -> Query {
    match s.next(5) {
        0 => Select::from_table(Table::new("t"))
            .value(some_expression(s, depth))
            .so_that(ConditionTree::single(some_expression(s, depth)))
            .and_where(ConditionTree::single(some_expression(s, depth)))
            .order_by(some_expression(s, depth).order(None))
            .offset(s.next(3) as usize)
            .into_query(),
        1 => {
            let mut insert = Insert::single_into(
                Table::new("t")
                    .add_unique_index(xiayu::ast::node::IndexDefinition::single(Column::of("t", "a"))),
            )
            .value(Column::of("t", "a"), some_expression(s, depth))
            .build();
            if s.next(2) == 0 {
                insert = insert.on_conflict(OnConflict::DoNothing);
            }
            if s.next(2) == 0 {
                insert = insert.returning(vec![Column::new("a")]);
            }
            insert.into_query()
        },
        2 => Update::table(Table::new("t"))
            .set(Column::new("a"), some_expression(s, depth))
            .so_that(ConditionTree::single(some_expression(s, depth)))
            .into_query(),
        3 => xiayu::ast::node::Delete::from_table(Table::new("t"))
            .so_that(ConditionTree::single(some_expression(s, depth)))
            .into_query(),
        _ => xiayu::ast::node::Union::new(Select::default().value(some_expression(s, depth)))
            .all(Select::default().value(some_expression(s, depth)))
            .into_query(),
    }
}

fn placeholders(d: Dialect, sql: &str) -> Vec<String> {
    let chars: Vec<char> = sql.chars().collect();
    let mut found = Vec::new();
    let mut i = 0;
    while i < chars.len() {
        let mark = match d {
            Dialect::Postgres => chars[i] == '$',
            Dialect::Mssql => chars[i] == '@' && i + 1 < chars.len() && chars[i + 1] == 'P',
            _ => chars[i] == '?',
        };
        if mark {
            let mut j = i + if d == Dialect::Mssql { 2 } else { 1 };
            let mut digits = String::new();
            while j < chars.len() && chars[j].is_ascii_digit() {
                digits.push(chars[j]);
                j += 1;
            }
            match d {
                Dialect::Postgres | Dialect::Mssql => {
                    if !digits.is_empty() {
                        found.push(digits);
                    }
                },
                _ => found.push(String::new()),
            }
            i = j;
        } else {
            i += 1;
        }
    }
    found
}

#[test]
fn building_twice_gives_the_same_text_and_values() {
    let mut s = Sequence { state: 11 };
    for round in 0..200 {
        let depth = round % 4;
        let mut first = Sequence { state: s.state };
        let mut second = Sequence { state: s.state };
        for d in all_dialects() {
            let mut a = Sequence { state: first.state };
            let mut b = Sequence { state: second.state };
            let one = build(d, some_query(&mut a, depth));
            let two = build(d, some_query(&mut b, depth));
            assert_eq!(one, two);
        }
        let _ = (first.next(2), second.next(2));
        s.next(1000);
    }
}

#[test]
fn every_placeholder_has_its_value_in_order() {
    let mut s = Sequence { state: 5 };
    let mut compiled = 0;
    for round in 0..400 {
        let depth = round % 4;
        let seed = s.state;
        for d in all_dialects() {
            let mut g = Sequence { state: seed };
            match build(d, some_query(&mut g, depth)) {
                Ok((sql, values)) => {
                    compiled += 1;
                    let found = placeholders(d, &sql);
                    assert_eq!(values.len(), found.len(), "{}", sql);
                    if d == Dialect::Postgres || d == Dialect::Mssql {
                        for (i, digits) in found.iter().enumerate() {
                            assert_eq!(&(i + 1).to_string(), digits, "{}", sql);
                        }
                    }
                },
                Err(e) => {
                    assert!(matches!(
                        e.kind,
                        ErrorKind::UnsupportedOperation(_) | ErrorKind::ConversionError(_)
                    ));
                },
            }
        }
        s.next(1000);
    }
    assert!(compiled > 100);
}

#[test]
fn values_come_out_in_the_order_of_the_clauses() {
    for d in all_dialects() {
        let query = Select::from_table(Table::new("t"))
            .value(num(1))
            .inner_join(Table::new("u").on(bare("a").equals(num(2)).into_tree()))
            .so_that(bare("b").equals(num(3)).into_tree())
            .group_by(num(4))
            .having(bare("c").equals(num(5)).into_tree())
            .order_by(num(6).order(None))
            .limit(7)
            .offset(8);
        let (_, values) = build(d, query.into_query()).unwrap();
        let expected: Vec<Value> = if d == Dialect::Mssql {
            vec![1, 2, 3, 4, 5, 6].into_iter().map(|i| Value::I32(Some(i))).chain(
                vec![Value::I64(Some(8)), Value::I64(Some(7))],
            ).collect()
        } else {
            vec![1, 2, 3, 4, 5, 6].into_iter().map(|i| Value::I32(Some(i))).chain(
                vec![Value::I64(Some(7)), Value::I64(Some(8))],
            ).collect()
        };
        assert_eq!(expected, values);
    }
}

fn grouping(sql: &str) -> Vec<(usize, usize)> {
    let mut open = Vec::new();
    let mut pairs = Vec::new();
    for (i, c) in sql.chars().enumerate() {
        if c == '(' {
            open.push(i);
        } else if c == ')' {
            pairs.push((open.pop().unwrap(), i));
        }
    }
    assert!(open.is_empty());
    pairs
}

#[test]
fn nested_conditions_keep_their_grouping() {
    let a = || bare("a").equals(num(1)).into_expression();
    let b = || bare("b").equals(num(2)).into_expression();
    let c = || bare("c").equals(num(3)).into_expression();
    let left = a().and(b().or(c()).into_expression());
    let right = a().and(b()).or(c());
    let (first, _) = build(Dialect::Sqlite, Select::from_table(Table::new("t")).so_that(left).into_query()).unwrap();
    let (second, _) = build(Dialect::Sqlite, Select::from_table(Table::new("t")).so_that(right).into_query()).unwrap();
    assert_eq!("SELECT `t`.* FROM `t` WHERE (`a` = ? AND (`b` = ? OR `c` = ?))", first);
    assert_eq!("SELECT `t`.* FROM `t` WHERE ((`a` = ? AND `b` = ?) OR `c` = ?)", second);
    assert_ne!(grouping(&first), grouping(&second));

    let nested = a().not().and(b().and(c()).not().into_expression()).not();
    let (sql, _) = build(Dialect::Postgres, Select::from_table(Table::new("t")).so_that(nested).into_query()).unwrap();
    assert_eq!(
        "SELECT \"t\".* FROM \"t\" WHERE (NOT ((NOT \"a\" = $1) AND (NOT (\"b\" = $2 AND \"c\" = $3))))",
        sql
    );
    assert_eq!(5, grouping(&sql).len());
}

#[test]
fn empty_connectives_are_parenthesised_too() {
    let query = Select::from_table(Table::new("t")).so_that(ConditionTree::And(vec![]));
    let (sql, _) = build(Dialect::Postgres, query.into_query()).unwrap();
    assert_eq!("SELECT \"t\".* FROM \"t\" WHERE ()", sql);
}

#[test]
fn arbitrary_queries_compile_or_are_refused_with_a_documented_error() {
    let mut s = Sequence { state: 2024 };
    let mut refused = 0;
    for round in 0..1500 {
        let depth = round % 5;
        let seed = s.state;
        for d in all_dialects() {
            let mut g = Sequence { state: seed };
            match build(d, some_query(&mut g, depth)) {
                Ok((sql, values)) => {
                    assert!(!sql.is_empty());
                    assert_eq!(values.len(), placeholders(d, &sql).len());
                },
                Err(e) => {
                    refused += 1;
                    match e.kind {
                        ErrorKind::UnsupportedOperation(m) | ErrorKind::ConversionError(m) => {
                            assert!(!m.is_empty())
                        },
                        other => panic!("{:?}", other),
                    }
                },
            }
        }
        s.next(1000);
    }
    assert!(refused > 0);
}

fn unsupported_on_sqlite() -> Vec<Expression> {
    let extraction = || Expression::function(json_extract(bare("doc"), JsonPath::string("$.a"), false));
    vec![
        Expression::comparison(bare("doc").json_array(JsonArrayTest::Contains, false, num(1))),
        Expression::comparison(bare("doc").json_array(JsonArrayTest::BeginsWith, true, num(1))),
        Expression::comparison(bare("doc").json_array(JsonArrayTest::EndsInto, false, num(1))),
        Expression::comparison(bare("doc").json_type_equals(JsonType::Array)),
        Expression::comparison(bare("doc").matches("cat")),
        extraction(),
        Expression::function(text_search(vec![Column::new("a")])),
        Expression::function(row_to_json(Table::new("t"), false)),
        Expression::comparison(extraction().equals(num(1))),
        Expression::comparison(num(1).less_than(extraction())),
        Expression::comparison(extraction().like("x")),
        Expression::comparison(extraction().is_null()),
        Expression::comparison(bare("a").between(num(1), extraction())),
        num(1).operation(Operator::Add, extraction()),
        Expression::function(lower(extraction())),
        Expression::function(upper(extraction())),
        Expression::function(sum(extraction())),
        Expression::function(count(vec![num(1), extraction()])),
        Expression::function(coalesce(vec![extraction(), num(1)])),
        Expression::function(aggregate_to_string(extraction())),
    ]
}

fn wrapped(e: Expression, depth: u32) -> ConditionTree {
    if depth == 0 {
        ConditionTree::single(e)
    } else {
        let inner = Expression::tree(wrapped(e, depth - 1));
        match depth % 3 {
            0 => ConditionTree::And(vec![Expression::comparison(bare("x").equals(num(1))), inner]),
            1 => ConditionTree::Or(vec![inner, Expression::comparison(bare("y").equals(num(2)))]),
            _ => ConditionTree::Not(Box::new(inner)),
        }
    }
}

#[test]
fn what_sqlite_has_no_form_for_is_refused_at_any_depth() {
    for depth in 0..6 {
        for e in unsupported_on_sqlite() {
            let places = vec![
                Select::from_table(Table::new("t")).so_that(wrapped(e.duplicate(), depth)),
                Select::from_table(Table::new("t")).having(wrapped(e.duplicate(), depth)),
                Select::from_table(Table::new("t")).value(Expression::tree(wrapped(e.duplicate(), depth))),
                Select::from_table(Table::new("t")).group_by(Expression::tree(wrapped(e.duplicate(), depth))),
                Select::default().value(Expression::tree(wrapped(e.duplicate(), depth))),
                Select::from_table(Table::new("t"))
                    .inner_join(Table::new("u").on(wrapped(e.duplicate(), depth))),
                Select::from_table(Table::new("t"))
                    .order_by(Expression::tree(wrapped(e.duplicate(), depth)).order(None)),
            ];
            for select in places {
                let error = build(Dialect::Sqlite, select.into_query()).unwrap_err();
                assert!(matches!(error.kind, ErrorKind::UnsupportedOperation(_)));
            }
            let update = Update::table(Table::new("t"))
                .set(Column::new("a"), num(1))
                .so_that(wrapped(e.duplicate(), depth));
            let delete = Delete::from_table(Table::new("t")).so_that(wrapped(e.duplicate(), depth));
            for query in vec![update.into_query(), delete.into_query()] {
                let error = build(Dialect::Sqlite, query).unwrap_err();
                assert!(matches!(error.kind, ErrorKind::UnsupportedOperation(_)));
            }
        }
    }
}

#[test]
fn one_expression_in_parentheses_is_written_alike_under_and_and_or() {
    let a = || bare("a").equals(num(1)).into_expression();
    let text = |tree: ConditionTree| {
        build(Dialect::Postgres, Select::from_table(Table::new("t")).so_that(tree).into_query()).unwrap().0
    };
    assert_eq!(text(ConditionTree::And(vec![a()])), text(ConditionTree::Or(vec![a()])));
    assert_eq!("SELECT \"t\".* FROM \"t\" WHERE (\"a\" = $1)", text(ConditionTree::And(vec![a()])));
    assert_eq!(
        text(ConditionTree::single(Expression::tree(ConditionTree::Or(vec![a(), a()])))),
        text(ConditionTree::Or(vec![a(), a()]))
    );
    assert_ne!(text(ConditionTree::And(vec![a(), a()])), text(ConditionTree::Or(vec![a(), a()])));
}

#[test]
fn literals_are_written_and_never_bound() {
    for d in all_dialects() {
        let query = Select::from_table(Table::new("t"))
            .value(Expression::raw(Value::I32(Some(1))))
            .value(num(2))
            .so_that(
                bare("a")
                    .equals(Expression::raw(Value::text("x")))
                    .and(bare("b").between(num(3), Expression::raw(Value::I32(Some(4)))).into_expression()),
            )
            .limit(5);
        let (sql, values) = build(d, query.into_query()).unwrap();
        assert!(sql.contains("'x'"));
        let limit = Value::I64(Some(5));
        let expected = if d == Dialect::Mssql {
            vec![Value::I32(Some(2)), Value::I32(Some(3)), Value::I32(Some(0)), limit]
        } else {
            vec![Value::I32(Some(2)), Value::I32(Some(3)), limit]
        };
        assert_eq!(expected, values);
    }
}

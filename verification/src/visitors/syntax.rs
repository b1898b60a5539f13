//! The syntax of every node in every dialect: what it compiles to.

use vstd::prelude::*;
use crate::ast::model::{
    ColumnView,
    CommonTableExpressionView,
    CompareView,
    ConditionTreeView,
    DeleteView,
    ExpressionKindView,
    ExpressionView,
    FunctionTypeView,
    FunctionView,
    InsertView,
    JoinDataView,
    JoinView,
    JsonExtractView,
    JsonPathView,
    MergeView,
    OrderDefinitionView,
    OverView,
    QueryView,
    RowView,
    SelectQueryView,
    SelectView,
    TableTypeView,
    TableView,
    TextSearchView,
    UnionView,
    UpdateView,
    ValuesView,
};
use crate::ast::node::{
    Comparison,
    JsonArrayTest,
    JsonType,
    OnConflict,
    Operator,
    Order,
    Pattern,
    TypeDataLength,
    TypeFamily,
    UnionType,
};
use crate::ast::value::ValueView;
use crate::dialect::Dialect;
use crate::error::Fault;
use crate::text::nat_text;
use crate::visitors::literal::render_raw;
use crate::visitors::model::{
    concat,
    fail,
    join,
    nothing,
    param,
    surround,
    text,
    then,
    only_if,
    Rendered,
};

verus! {

broadcast use vstd::seq::group_seq_axioms;

/// An identifier between the quotes of the dialect.
#[verifier::opaque]
pub open spec fn quoted(d: Dialect, name: Seq<char>) -> Rendered {
    then(text(d.quote_open()), then(text(name), text(d.quote_close())))
}

/// ` AS alias`, where there is an alias.
#[verifier::opaque]
pub open spec fn alias_suffix(d: Dialect, alias: Option<Seq<char>>) -> Rendered {
    match alias {
        Some(a) => then(text(" AS "@), quoted(d, a)),
        None => nothing(),
    }
}

/// The name of a table, qualified by its database where it has one.
#[verifier::opaque]
pub open spec fn table_name(d: Dialect, database: Option<Seq<char>>, name: Seq<char>) -> Rendered {
    match database {
        Some(db) => then(quoted(d, db), then(text("."@), quoted(d, name))),
        None => quoted(d, name),
    }
}

/// A column under the name of another table.
#[verifier::opaque]
pub open spec fn qualified(d: Dialect, qualifier: Seq<char>, c: ColumnView) -> Rendered {
    then(quoted(d, qualifier), then(text("."@), then(quoted(d, c.name), alias_suffix(d, c.alias))))
}

/// The columns, each under the name of another table.
pub open spec fn qualified_columns(d: Dialect, qualifier: Seq<char>, cs: Seq<ColumnView>) -> Seq<Rendered> {
    Seq::new(cs.len(), |i: int| qualified(d, qualifier, cs[i]))
}

/// A text value bound for each string.
pub open spec fn text_params(items: Seq<Seq<char>>) -> Seq<Rendered> {
    Seq::new(items.len(), |i: int| param(ValueView::Text(Some(items[i]))))
}

/// A quoted identifier for each string.
pub open spec fn quoted_names(d: Dialect, items: Seq<Seq<char>>) -> Seq<Rendered> {
    Seq::new(items.len(), |i: int| quoted(d, items[i]))
}

/// The text of an arithmetic operator, between spaces.
pub open spec fn operator_text(op: Operator) -> Seq<char> {
    match op {
        Operator::Add => " + "@,
        Operator::Sub => " - "@,
        Operator::Mul => " * "@,
        Operator::Div => " / "@,
        Operator::Rem => " % "@,
    }
}

/// The text of an ordering comparison, between spaces.
pub open spec fn comparison_text(op: Comparison) -> Seq<char> {
    match op {
        Comparison::Equals => " = "@,
        Comparison::NotEquals => " <> "@,
        Comparison::LessThan => " < "@,
        Comparison::LessThanOrEquals => " <= "@,
        Comparison::GreaterThan => " > "@,
        Comparison::GreaterThanOrEquals => " >= "@,
        Comparison::In => " IN "@,
        Comparison::NotIn => " NOT IN "@,
    }
}

/// The keyword of a pattern comparison, between spaces.
pub open spec fn pattern_keyword(p: Pattern) -> Seq<char> {
    match p {
        Pattern::Like => " LIKE "@,
        Pattern::BeginsWith => " LIKE "@,
        Pattern::EndsInto => " LIKE "@,
        Pattern::NotLike => " NOT LIKE "@,
        Pattern::NotBeginsWith => " NOT LIKE "@,
        Pattern::NotEndsInto => " NOT LIKE "@,
    }
}

/// The pattern that is bound: the given text with the wildcard where any
/// text may stand.
pub open spec fn pattern_text(d: Dialect, p: Pattern, s: Seq<char>) -> Seq<char> {
    match p {
        Pattern::Like => d.wildcard() + s + d.wildcard(),
        Pattern::NotLike => d.wildcard() + s + d.wildcard(),
        Pattern::BeginsWith => s + d.wildcard(),
        Pattern::NotBeginsWith => s + d.wildcard(),
        Pattern::EndsInto => d.wildcard() + s,
        Pattern::NotEndsInto => d.wildcard() + s,
    }
}

/// The direction of an ordering; empty where none is given.
pub open spec fn direction_text(order: Option<Order>) -> Seq<char> {
    match order {
        Some(Order::Asc) => " ASC"@,
        Some(Order::Desc) => " DESC"@,
        None => ""@,
    }
}

/// The keyword between two united selects.
pub open spec fn union_text(t: UnionType) -> Seq<char> {
    match t {
        UnionType::All => "UNION ALL"@,
        UnionType::Distinct => "UNION"@,
    }
}

/// The name of a JSON type as PostgreSQL reports it.
pub open spec fn json_type_name(t: JsonType) -> Seq<char> {
    match t {
        JsonType::Array => "array"@,
        JsonType::Boolean => "boolean"@,
        JsonType::Number => "number"@,
        JsonType::Object => "object"@,
        JsonType::String => "string"@,
        JsonType::Null => "null"@,
    }
}

/// The name of a JSON type as MySQL reports it; a number is an `INTEGER`
/// or a `DOUBLE`.
pub open spec fn json_type_name_mysql(t: JsonType) -> Seq<char> {
    match t {
        JsonType::Array => "ARRAY"@,
        JsonType::Boolean => "BOOLEAN"@,
        JsonType::Number => "INTEGER"@,
        JsonType::Object => "OBJECT"@,
        JsonType::String => "STRING"@,
        JsonType::Null => "NULL"@,
    }
}

/// The SQL Server type of a table variable's column.
#[verifier::opaque]
pub open spec fn type_family(tf: TypeFamily) -> Rendered {
    match tf {
        TypeFamily::Text(len) => then(
            text("NVARCHAR("@),
            then(
                match len {
                    Some(TypeDataLength::Constant(n)) => text(nat_text(n as nat)),
                    Some(TypeDataLength::Maximum) => text("MAX"@),
                    None => text("4000"@),
                },
                text(")"@),
            ),
        ),
        TypeFamily::Int => text("BIGINT"@),
        TypeFamily::Float => text("FLOAT(24)"@),
        TypeFamily::Double => text("FLOAT(53)"@),
        TypeFamily::Decimal(size) => then(
            text("DECIMAL("@),
            then(
                match size {
                    Some((p, s)) => then(
                        text(nat_text(p as nat)),
                        then(text(","@), text(nat_text(s as nat))),
                    ),
                    None => text("32,16"@),
                },
                text(")"@),
            ),
        ),
        TypeFamily::Boolean => text("BIT"@),
        TypeFamily::Uuid => text("UNIQUEIDENTIFIER"@),
        TypeFamily::DateTime => text("DATETIMEOFFSET"@),
        TypeFamily::Bytes(len) => then(
            text("VARBINARY("@),
            then(
                match len {
                    Some(TypeDataLength::Constant(n)) => text(nat_text(n as nat)),
                    Some(TypeDataLength::Maximum) => text("MAX"@),
                    None => text("8000"@),
                },
                text(")"@),
            ),
        ),
    }
}

/// `LIMIT` and `OFFSET` in the form of the dialect. `ordered` tells
/// whether the select has an `ORDER BY` of its own.
#[verifier::opaque]
pub open spec fn limit_and_offset(
    d: Dialect,
    limit: Option<ValueView>,
    offset: Option<ValueView>,
    ordered: bool,
) -> Rendered {
    match d {
        Dialect::Mssql => {
            let ordering = only_if(!ordered, then(text(" ORDER BY "@), text("1"@)));
            match (limit, offset) {
                (Some(l), Some(o)) => then(
                    ordering,
                    then(
                        text(" OFFSET "@),
                        then(
                            param(o),
                            then(text(" ROWS FETCH NEXT "@), then(param(l), text(" ROWS ONLY"@))),
                        ),
                    ),
                ),
                (None, Some(o)) => if ordered || (o.as_i64() matches Some(n) && n > 0) {
                    then(ordering, then(text(" OFFSET "@), then(param(o), text(" ROWS"@))))
                } else {
                    nothing()
                },
                (Some(l), None) => then(
                    ordering,
                    then(
                        text(" OFFSET "@),
                        then(
                            param(ValueView::I32(Some(0i32))),
                            then(text(" ROWS FETCH NEXT "@), then(param(l), text(" ROWS ONLY"@))),
                        ),
                    ),
                ),
                (None, None) => nothing(),
            }
        },
        _ => match (limit, offset) {
            (Some(l), Some(o)) => then(
                text(" LIMIT "@),
                then(param(l), then(text(" OFFSET "@), param(o))),
            ),
            (None, Some(o)) => match d {
                Dialect::Sqlite => then(
                    text(" LIMIT "@),
                    then(param(ValueView::I32(Some(-1i32))), then(text(" OFFSET "@), param(o))),
                ),
                Dialect::Mysql => then(
                    text(" LIMIT "@),
                    then(
                        param(ValueView::I64(Some(0x7fff_ffff_ffff_ffffi64))),
                        then(text(" OFFSET "@), param(o)),
                    ),
                ),
                _ => then(text(" OFFSET "@), param(o)),
            },
            (Some(l), None) => then(text(" LIMIT "@), param(l)),
            (None, None) => nothing(),
        },
    }
}

/// The number of pairs that two tuples make.
pub open spec fn pairs(lefts: Seq<Rendered>, rights: Seq<Rendered>) -> nat {
    if lefts.len() <= rights.len() {
        lefts.len()
    } else {
        rights.len()
    }
}

/// The pairs of one row of a tuple comparison without row constructors:
/// `left = right`, with `AND` after each but the last item of the left
/// tuple.
pub open spec fn tuple_pairs(lefts: Seq<Rendered>, rights: Seq<Rendered>) -> Seq<Rendered> {
    Seq::new(
        pairs(lefts, rights),
        |j: int|
            then(
                lefts[j],
                then(
                    text(" = "@),
                    then(rights[j], only_if(j + 1 < lefts.len(), text(" AND "@))),
                ),
            ),
    )
}

/// The rows of a tuple comparison without row constructors: the pairs of
/// each row in parentheses, with `OR` after each but the last.
pub open spec fn tuple_groups(lefts: Seq<Rendered>, rows: Seq<Seq<Rendered>>) -> Seq<Rendered> {
    Seq::new(
        rows.len(),
        |i: int|
            then(
                surround("("@, concat(tuple_pairs(lefts, rows[i])), ")"@),
                only_if(i + 1 < rows.len(), text(" OR "@)),
            ),
    )
}

/// A tuple compared with rows, without row constructors: an `OR` of
/// `AND`s.
#[verifier::opaque]
pub open spec fn tuple_expansion(lefts: Seq<Rendered>, rows: Seq<Seq<Rendered>>, negated: bool) -> Rendered {
    then(only_if(negated, text("NOT "@)), surround("("@, concat(tuple_groups(lefts, rows)), ")"@))
}

/// A tuple compared with rows.
#[verifier::opaque]
pub open spec fn tuple_comparison(
    d: Dialect,
    lefts: Seq<Rendered>,
    rows: Seq<Seq<Rendered>>,
    negated: bool,
) -> Rendered {
    if d.compares_rows() {
        then(
            surround("("@, join(lefts, ","@), ")"@),
            then(
                text(if negated { " NOT IN "@ } else { " IN "@ }),
                surround(values_open(d), join(rows_in_parentheses(rows), ","@), ")"@),
            ),
        )
    } else {
        tuple_expansion(lefts, rows, negated)
    }
}

/// Each row between parentheses, its items joined by commas.
pub open spec fn rows_in_parentheses(rows: Seq<Seq<Rendered>>) -> Seq<Rendered> {
    Seq::new(rows.len(), |i: int| surround("("@, join(rows[i], ","@), ")"@))
}

/// What opens an in-memory table of values.
pub open spec fn values_open(d: Dialect) -> Seq<char> {
    if d == Dialect::Sqlite {
        "(VALUES "@
    } else {
        "("@
    }
}

/// The number of columns of the first row.
pub open spec fn row_len(v: ValuesView) -> nat {
    if v.rows.len() == 0 {
        0
    } else {
        v.rows[0].values.len()
    }
}

/// True where every row has a last item.
pub open spec fn flattens(v: ValuesView) -> bool {
    forall|i: int| 0 <= i < v.rows.len() ==> (#[trigger] v.rows[i]).values.len() > 0
}

/// True for a JSON value, bound as a parameter, possibly nested.
pub open spec fn is_json_value(e: ExpressionView) -> bool
    decreases e,
{
    match e.kind {
        ExpressionKindView::Parameterized(ValueView::Json(_)) => true,
        ExpressionKindView::Value(inner) => is_json_value(*inner),
        _ => false,
    }
}

/// True for an XML value, bound as a parameter, possibly nested.
pub open spec fn is_xml_value(e: ExpressionView) -> bool
    decreases e,
{
    match e.kind {
        ExpressionKindView::Parameterized(ValueView::Xml(_)) => true,
        ExpressionKindView::Value(inner) => is_xml_value(*inner),
        _ => false,
    }
}

/// The cast that PostgreSQL needs on an operand that is compared with
/// `other`.
pub open spec fn cast_against(d: Dialect, other: ExpressionView) -> Seq<char> {
    if d != Dialect::Postgres {
        ""@
    } else if is_json_value(other) {
        "::jsonb"@
    } else if is_xml_value(other) {
        "::text"@
    } else {
        ""@
    }
}

/// The expressions, each compiled, in order.
pub open spec fn render_expressions(d: Dialect, es: Seq<ExpressionView>) -> Seq<Rendered>
    decreases es,
{
    Seq::new(
        es.len(),
        |i: int|
            if 0 <= i < es.len() {
                render_expression(d, es[i])
            } else {
                arbitrary()
            },
    )
}

/// The items of every row, each compiled, in order.
pub open spec fn render_row_items(d: Dialect, rows: Seq<RowView>) -> Seq<Seq<Rendered>>
    decreases rows,
{
    Seq::new(
        rows.len(),
        |i: int|
            if 0 <= i < rows.len() {
                render_expressions(d, rows[i].values)
            } else {
                arbitrary()
            },
    )
}

/// The last item of every row, each compiled, in order.
pub open spec fn render_last_items(d: Dialect, rows: Seq<RowView>) -> Seq<Rendered>
    decreases rows,
{
    Seq::new(
        rows.len(),
        |i: int|
            if 0 <= i < rows.len() && rows[i].values.len() > 0 {
                render_expression(d, rows[i].values.last())
            } else {
                arbitrary()
            },
    )
}

/// The columns, each compiled, in order.
pub open spec fn render_columns(d: Dialect, cs: Seq<ColumnView>) -> Seq<Rendered>
    decreases cs,
{
    Seq::new(
        cs.len(),
        |i: int|
            if 0 <= i < cs.len() {
                render_column(d, cs[i])
            } else {
                arbitrary()
            },
    )
}

/// The tables of a `FROM` clause, each compiled with its alias, in order.
pub open spec fn render_tables(d: Dialect, ts: Seq<TableView>) -> Seq<Rendered>
    decreases ts,
{
    Seq::new(
        ts.len(),
        |i: int|
            if 0 <= i < ts.len() {
                render_table(d, ts[i], true)
            } else {
                arbitrary()
            },
    )
}

/// The joins, each compiled, in order.
pub open spec fn render_joins(d: Dialect, js: Seq<JoinView>) -> Seq<Rendered>
    decreases js,
{
    Seq::new(
        js.len(),
        |i: int|
            if 0 <= i < js.len() {
                render_join(d, js[i])
            } else {
                arbitrary()
            },
    )
}

/// The order definitions, each compiled, in order.
pub open spec fn render_order_definitions(d: Dialect, os: Seq<OrderDefinitionView>) -> Seq<Rendered>
    decreases os,
{
    Seq::new(
        os.len(),
        |i: int|
            if 0 <= i < os.len() {
                then(render_expression(d, os[i].expression), text(direction_text(os[i].order)))
            } else {
                arbitrary()
            },
    )
}

/// The common table expressions, each compiled, in order.
pub open spec fn render_ctes(d: Dialect, cs: Seq<CommonTableExpressionView>) -> Seq<Rendered>
    decreases cs,
{
    Seq::new(
        cs.len(),
        |i: int|
            if 0 <= i < cs.len() {
                render_cte(d, cs[i])
            } else {
                arbitrary()
            },
    )
}

/// The selects of a union, each followed by the keyword that unites it
/// with the next.
pub open spec fn render_united(d: Dialect, selects: Seq<SelectView>, types: Seq<UnionType>) -> Seq<Rendered>
    decreases selects,
{
    Seq::new(
        selects.len(),
        |i: int|
            if 0 <= i < selects.len() {
                then(
                    render_select(d, selects[i]),
                    if i + 1 < selects.len() {
                        if i < types.len() {
                            then(text(" "@), then(text(union_text(types[i])), text(" "@)))
                        } else {
                            fail(Fault::MalformedUnion)
                        }
                    } else {
                        nothing()
                    },
                )
            } else {
                arbitrary()
            },
    )
}

/// A table, with its alias where `include_alias` asks for it.
#[verifier::opaque]
pub open spec fn render_table(d: Dialect, t: TableView, include_alias: bool) -> Rendered
    decreases t,
{
    then(
        match t.typ {
            TableTypeView::Table(name) => table_name(d, t.database, name),
            TableTypeView::JoinedTable(name, joins) => then(
                table_name(d, t.database, name),
                concat(render_joins(d, joins)),
            ),
            TableTypeView::Query(select) => surround("("@, render_select(d, *select), ")"@),
            TableTypeView::Values(values) => render_values(d, values),
        },
        only_if(include_alias, alias_suffix(d, t.alias)),
    )
}

/// `table.*` for a table of a projection without columns.
#[verifier::opaque]
pub open spec fn render_star(d: Dialect, t: TableView) -> Rendered {
    match t.alias {
        Some(a) => then(quoted(d, a), text(".*"@)),
        None => match t.typ {
            TableTypeView::Table(name) => then(table_name(d, t.database, name), text(".*"@)),
            TableTypeView::JoinedTable(name, _) => then(
                table_name(d, t.database, name),
                text(".*"@),
            ),
            TableTypeView::Query(_) => text("*"@),
            TableTypeView::Values(_) => text("*"@),
        },
    }
}

/// `table.*` for every table, in order.
pub open spec fn render_stars(d: Dialect, ts: Seq<TableView>) -> Seq<Rendered> {
    Seq::new(ts.len(), |i: int| render_star(d, ts[i]))
}

/// A join.
#[verifier::opaque]
pub open spec fn render_join(d: Dialect, j: JoinView) -> Rendered
    decreases j,
{
    match j {
        JoinView::Inner(data) => then(text(" INNER JOIN "@), render_join_data(d, data)),
        JoinView::Left(data) => then(text(" LEFT JOIN "@), render_join_data(d, data)),
        JoinView::Right(data) => then(text(" RIGHT JOIN "@), render_join_data(d, data)),
        JoinView::Full(data) => then(text(" FULL JOIN "@), render_join_data(d, data)),
    }
}

/// The table of a join and its condition.
#[verifier::opaque]
pub open spec fn render_join_data(d: Dialect, data: JoinDataView) -> Rendered
    decreases data,
{
    then(
        render_table(d, data.table, true),
        then(text(" ON "@), render_conditions(d, data.conditions)),
    )
}

/// A column: qualified by its table where it has one, with its alias.
#[verifier::opaque]
pub open spec fn render_column(d: Dialect, c: ColumnView) -> Rendered
    decreases c,
{
    then(
        match c.table {
            Some(t) => then(render_table(d, t, false), then(text("."@), quoted(d, c.name))),
            None => quoted(d, c.name),
        },
        alias_suffix(d, c.alias),
    )
}

/// A tuple.
#[verifier::opaque]
pub open spec fn render_row(d: Dialect, r: RowView) -> Rendered
    decreases r,
{
    surround("("@, join(render_expressions(d, r.values), ","@), ")"@)
}

/// An in-memory table of rows.
#[verifier::opaque]
pub open spec fn render_values(d: Dialect, v: ValuesView) -> Rendered
    decreases v,
{
    surround(values_open(d), join(rows_in_parentheses(render_row_items(d, v.rows)), ","@), ")"@)
}

/// A select or a union.
#[verifier::opaque]
pub open spec fn render_selection(d: Dialect, s: SelectQueryView) -> Rendered
    decreases s,
{
    match s {
        SelectQueryView::Select(select) => render_select(d, *select),
        SelectQueryView::Union(union) => render_union(d, *union),
    }
}

/// An expression, with its alias.
#[verifier::opaque]
pub open spec fn render_expression(d: Dialect, e: ExpressionView) -> Rendered
    decreases e,
{
    then(
        match e.kind {
            ExpressionKindView::Parameterized(v) => param(v),
            ExpressionKindView::RawValue(v) => render_raw(d, v),
            ExpressionKindView::Column(c) => render_column(d, *c),
            ExpressionKindView::Row(r) => render_row(d, r),
            ExpressionKindView::Selection(s) => surround("("@, render_selection(d, s), ")"@),
            ExpressionKindView::Function(f) => render_function(d, *f),
            ExpressionKindView::Asterisk(t) => match t {
                Some(t) => then(render_table(d, *t, false), text(".*"@)),
                None => text("*"@),
            },
            ExpressionKindView::Op(l, op, r) => surround(
                "("@,
                then(
                    render_expression(d, *l),
                    then(text(operator_text(op)), render_expression(d, *r)),
                ),
                ")"@,
            ),
            ExpressionKindView::Values(v) => render_values(d, *v),
            ExpressionKindView::ConditionTree(t) => render_conditions(d, t),
            ExpressionKindView::Compare(c) => render_compare(d, c),
            ExpressionKindView::Value(inner) => render_expression(d, *inner),
            ExpressionKindView::Default => text("DEFAULT"@),
        },
        alias_suffix(d, e.alias),
    )
}

/// A condition tree. Every `AND`, `OR` and `NOT` stands in parentheses.
#[verifier::opaque]
pub open spec fn render_conditions(d: Dialect, t: ConditionTreeView) -> Rendered
    decreases t,
{
    match t {
        ConditionTreeView::And(es) => surround("("@, join(render_expressions(d, es), " AND "@), ")"@),
        ConditionTreeView::Or(es) => surround("("@, join(render_expressions(d, es), " OR "@), ")"@),
        ConditionTreeView::Not(e) => surround(
            "("@,
            then(text("NOT "@), render_expression(d, *e)),
            ")"@,
        ),
        ConditionTreeView::Single(e) => render_expression(d, *e),
        ConditionTreeView::NoCondition => text("1=1"@),
        ConditionTreeView::NegativeCondition => text("1=0"@),
    }
}

/// An equality or inequality.
#[verifier::opaque]
pub open spec fn render_equality(d: Dialect, c: CompareView, negated: bool) -> Rendered
    recommends
        c is Binary,
    decreases c, 0nat,
{
    match c {
        CompareView::Binary(l, _, r) => match (l.kind, r.kind) {
            (ExpressionKindView::Row(lr), ExpressionKindView::Row(rr)) if !d.compares_rows() => {
                tuple_expansion(
                    render_expressions(d, lr.values),
                    seq![render_expressions(d, rr.values)],
                    negated,
                )
            },
            _ => then(
                render_expression(d, *l),
                then(
                    text(cast_against(d, *r)),
                    then(
                        text(if negated { " <> "@ } else { " = "@ }),
                        then(render_expression(d, *r), text(cast_against(d, *l))),
                    ),
                ),
            ),
        },
        _ => nothing(),
    }
}

/// A tuple tested for membership in rows.
#[verifier::opaque]
pub open spec fn render_tuple_membership(d: Dialect, c: CompareView, negated: bool) -> Rendered
    recommends
        c is Binary,
    decreases c, 0nat,
{
    match c {
        CompareView::Binary(l, _, r) => match (l.kind, r.kind) {
            (ExpressionKindView::Row(cols), ExpressionKindView::Values(vals)) => if cols.values.len()
                == 1 && row_len(*vals) == 1 && flattens(*vals) {
                then(
                    render_expression(d, cols.values[0]),
                    then(
                        text(if negated { " NOT IN "@ } else { " IN "@ }),
                        surround("("@, join(render_last_items(d, vals.rows), ","@), ")"@),
                    ),
                )
            } else {
                tuple_comparison(
                    d,
                    render_expressions(d, cols.values),
                    render_row_items(d, vals.rows),
                    negated,
                )
            },
            _ => nothing(),
        },
        _ => nothing(),
    }
}

/// True for a tuple without items.
pub open spec fn is_empty_row(kind: ExpressionKindView) -> bool {
    kind matches ExpressionKindView::Row(row) && row.values.len() == 0
}

/// A membership test.
#[verifier::opaque]
pub open spec fn render_membership(d: Dialect, c: CompareView, negated: bool) -> Rendered
    recommends
        c is Binary,
    decreases c, 1nat,
{
    match c {
        CompareView::Binary(l, _, r) => if is_empty_row(r.kind) {
            text(if negated { "1=1"@ } else { "1=0"@ })
        } else if l.kind is Row && r.kind is Values {
            render_tuple_membership(d, c, negated)
        } else {
            then(
                render_expression(d, *l),
                then(
                    text(if negated { " NOT IN "@ } else { " IN "@ }),
                    match r.kind {
                        ExpressionKindView::Parameterized(v) => surround("("@, param(v), ")"@),
                        _ => render_expression(d, *r),
                    },
                ),
            )
        },
        _ => nothing(),
    }
}

/// True where the comparison has a tuple on a side of it and is none of
/// the forms that are written without a tuple: two tuples that are equal
/// or differ, a tuple among rows of values, anything among no values.
pub open spec fn compares_a_whole_row(c: CompareView) -> bool {
    match c {
        CompareView::Binary(l, op, r) => match op {
            Comparison::Equals => (l.kind is Row) != (r.kind is Row),
            Comparison::NotEquals => (l.kind is Row) != (r.kind is Row),
            Comparison::In => l.kind is Row && !(r.kind is Values) && !is_empty_row(r.kind),
            Comparison::NotIn => l.kind is Row && !(r.kind is Values) && !is_empty_row(r.kind),
            _ => l.kind is Row || r.kind is Row,
        },
        _ => false,
    }
}

/// A comparison. A dialect that cannot compare rows refuses one that has
/// to be written with a tuple.
#[verifier::opaque]
pub open spec fn render_compare(d: Dialect, c: CompareView) -> Rendered
    decreases c, 2nat,
{
    match c {
        CompareView::Binary(l, op, r) => if !d.compares_rows() && compares_a_whole_row(c) {
            fail(Fault::RowComparison)
        } else {
            match op {
                Comparison::Equals => render_equality(d, c, false),
                Comparison::NotEquals => render_equality(d, c, true),
                Comparison::In => render_membership(d, c, false),
                Comparison::NotIn => render_membership(d, c, true),
                _ => then(
                    render_expression(d, *l),
                    then(text(comparison_text(op)), render_expression(d, *r)),
                ),
            }
        },
        CompareView::Pattern(l, p, s) => then(
            render_expression(d, *l),
            then(text(pattern_keyword(p)), param(ValueView::Text(Some(pattern_text(d, p, s))))),
        ),
        CompareView::Null(e) => then(render_expression(d, *e), text(" IS NULL"@)),
        CompareView::NotNull(e) => then(render_expression(d, *e), text(" IS NOT NULL"@)),
        CompareView::Between(v, l, r) => then(
            render_expression(d, *v),
            then(
                text(" BETWEEN "@),
                then(render_expression(d, *l), then(text(" AND "@), render_expression(d, *r))),
            ),
        ),
        CompareView::NotBetween(v, l, r) => then(
            render_expression(d, *v),
            then(
                text(" NOT BETWEEN "@),
                then(render_expression(d, *l), then(text(" AND "@), render_expression(d, *r))),
            ),
        ),
        CompareView::Raw(l, comparator, r) => then(
            render_expression(d, *l),
            then(
                text(" "@),
                then(text(comparator), then(text(" "@), render_expression(d, *r))),
            ),
        ),
        CompareView::JsonArray(l, test, negated, r) => match d {
            Dialect::Postgres => then(
                only_if(negated, text("( NOT "@)),
                then(
                    render_expression(d, *l),
                    then(
                        text(
                            match test {
                                JsonArrayTest::Contains => " @> "@,
                                JsonArrayTest::BeginsWith => "->0 = "@,
                                JsonArrayTest::EndsInto => "->-1 = "@,
                            },
                        ),
                        then(render_expression(d, *r), only_if(negated, text(" )"@))),
                    ),
                ),
            ),
            Dialect::Mysql => then(
                only_if(negated, text("( NOT "@)),
                then(
                    text(
                        match test {
                            JsonArrayTest::Contains => "JSON_CONTAINS("@,
                            _ => "JSON_EXTRACT("@,
                        },
                    ),
                    then(
                        render_expression(d, *l),
                        then(
                            match test {
                                JsonArrayTest::Contains => text(", "@),
                                JsonArrayTest::BeginsWith => then(
                                    text(", "@),
                                    then(param(ValueView::Text(Some("$[0]"@))), text(") = "@)),
                                ),
                                JsonArrayTest::EndsInto => then(
                                    text(", "@),
                                    then(param(ValueView::Text(Some("$[last]"@))), text(") = "@)),
                                ),
                            },
                            then(
                                render_expression(d, *r),
                                then(
                                    only_if(test == JsonArrayTest::Contains, text(")"@)),
                                    only_if(negated, text(" )"@)),
                                ),
                            ),
                        ),
                    ),
                ),
            ),
            _ => fail(Fault::JsonFiltering),
        },
        CompareView::JsonType(l, t) => match d {
            Dialect::Postgres => then(
                text("JSONB_TYPEOF"@),
                then(
                    surround("("@, render_expression(d, *l), ")"@),
                    then(text(" = "@), param(ValueView::Text(Some(json_type_name(t))))),
                ),
            ),
            Dialect::Mysql => then(
                text("JSON_TYPE"@),
                then(
                    surround("("@, render_expression(d, *l), ")"@),
                    if t == JsonType::Number {
                        then(
                            text(" IN ("@),
                            then(
                                param(ValueView::Text(Some("INTEGER"@))),
                                then(
                                    text(", "@),
                                    then(param(ValueView::Text(Some("DOUBLE"@))), text(")"@)),
                                ),
                            ),
                        )
                    } else {
                        then(text(" = "@), param(ValueView::Text(Some(json_type_name_mysql(t)))))
                    },
                ),
            ),
            _ => fail(Fault::JsonTypeTest),
        },
        CompareView::Matches(l, query, negated) => match d {
            Dialect::Postgres => then(
                only_if(negated, text("(NOT "@)),
                then(
                    render_expression(d, *l),
                    then(
                        text(" @@ "@),
                        then(
                            surround("to_tsquery("@, param(ValueView::Text(Some(query))), ")"@),
                            only_if(negated, text(")"@)),
                        ),
                    ),
                ),
            ),
            _ => fail(Fault::FullTextSearch),
        },
    }
}

/// The window of a window function.
#[verifier::opaque]
pub open spec fn render_partitioning(d: Dialect, over: OverView) -> Rendered
    decreases over,
{
    then(
        only_if(
            over.partitioning.len() > 0,
            then(
                text("PARTITION BY "@),
                then(
                    join(render_columns(d, over.partitioning), ", "@),
                    only_if(over.ordering.len() > 0, text(" "@)),
                ),
            ),
        ),
        only_if(
            over.ordering.len() > 0,
            then(text("ORDER BY "@), join(render_order_definitions(d, over.ordering), ", "@)),
        ),
    )
}

/// The extraction of a part of a JSON document.
#[verifier::opaque]
pub open spec fn render_json_extract(d: Dialect, j: JsonExtractView) -> Rendered
    decreases j,
{
    match d {
        Dialect::Postgres => match j.path {
            JsonPathView::Array(keys) => surround(
                "("@,
                then(
                    render_expression(d, *j.column),
                    then(
                        text(if j.extract_as_string { "#>>"@ } else { "#>"@ }),
                        surround("ARRAY["@, join(text_params(keys), ", "@), "]::text[]"@),
                    ),
                ),
                ")"@,
            ),
            JsonPathView::String(_) => fail(Fault::JsonPathNotation),
        },
        Dialect::Mysql => match j.path {
            JsonPathView::String(path) => then(
                only_if(j.extract_as_string, text("JSON_UNQUOTE("@)),
                then(
                    text("JSON_EXTRACT("@),
                    then(
                        render_expression(d, *j.column),
                        then(
                            text(", "@),
                            then(
                                param(ValueView::Text(Some(path))),
                                then(text(")"@), only_if(j.extract_as_string, text(")"@))),
                            ),
                        ),
                    ),
                ),
            ),
            JsonPathView::Array(_) => fail(Fault::JsonPathNotation),
        },
        _ => fail(Fault::JsonFiltering),
    }
}

/// The vector of a full-text search.
#[verifier::opaque]
pub open spec fn render_text_search(d: Dialect, t: TextSearchView) -> Rendered
    decreases t,
{
    match d {
        Dialect::Postgres => surround(
            "to_tsvector("@,
            join(render_columns(d, t.columns), "|| ' ' ||"@),
            ")"@,
        ),
        _ => fail(Fault::FullTextSearch),
    }
}

/// A function call, with its alias.
#[verifier::opaque]
pub open spec fn render_function(d: Dialect, f: FunctionView) -> Rendered
    decreases f,
{
    then(
        match f.typ_ {
            FunctionTypeView::RowToJson(r) => match d {
                Dialect::Postgres => then(
                    text("ROW_TO_JSON"@),
                    surround("("@, render_table(d, r.expr, false), ")"@),
                ),
                _ => fail(Fault::RowToJson),
            },
            FunctionTypeView::RowNumber(over) => if over.ordering.len() == 0
                && over.partitioning.len() == 0 {
                text("ROW_NUMBER() OVER()"@)
            } else {
                then(
                    text("ROW_NUMBER() OVER"@),
                    surround("("@, render_partitioning(d, over), ")"@),
                )
            },
            FunctionTypeView::Count(es) => if es.len() == 0 {
                text("COUNT(*)"@)
            } else {
                then(text("COUNT"@), surround("("@, join(render_expressions(d, es), ", "@), ")"@))
            },
            FunctionTypeView::AggregateToString(e) => match d {
                Dialect::Postgres => then(
                    text("ARRAY_TO_STRING"@),
                    then(
                        text("("@),
                        then(
                            text("ARRAY_AGG"@),
                            then(
                                text("("@),
                                then(
                                    render_expression(d, *e),
                                    then(text(")"@), then(text("','"@), text(")"@))),
                                ),
                            ),
                        ),
                    ),
                ),
                Dialect::Mysql => then(
                    text("GROUP_CONCAT"@),
                    surround(
                        "("@,
                        then(render_expression(d, *e), text(" SEPARATOR ','"@)),
                        ")"@,
                    ),
                ),
                Dialect::Sqlite => then(
                    text("GROUP_CONCAT"@),
                    surround("("@, render_expression(d, *e), ")"@),
                ),
                Dialect::Mssql => then(
                    text("STRING_AGG"@),
                    surround(
                        "("@,
                        then(render_expression(d, *e), then(text(","@), text("\",\""@))),
                        ")"@,
                    ),
                ),
            },
            FunctionTypeView::Average(c) => match d {
                Dialect::Mssql => then(
                    text("AVG"@),
                    surround(
                        "("@,
                        then(
                            text("CONVERT"@),
                            surround(
                                "("@,
                                then(text("DECIMAL(32,16),"@), render_column(d, c)),
                                ")"@,
                            ),
                        ),
                        ")"@,
                    ),
                ),
                _ => then(text("AVG"@), surround("("@, render_column(d, c), ")"@)),
            },
            FunctionTypeView::Sum(e) => then(
                text("SUM"@),
                surround("("@, render_expression(d, *e), ")"@),
            ),
            FunctionTypeView::Lower(e) => then(
                text("LOWER"@),
                surround("("@, render_expression(d, *e), ")"@),
            ),
            FunctionTypeView::Upper(e) => then(
                text("UPPER"@),
                surround("("@, render_expression(d, *e), ")"@),
            ),
            FunctionTypeView::Minimum(c) => then(
                text("MIN"@),
                surround("("@, render_column(d, c), ")"@),
            ),
            FunctionTypeView::Maximum(c) => then(
                text("MAX"@),
                surround("("@, render_column(d, c), ")"@),
            ),
            FunctionTypeView::Coalesce(es) => then(
                text("COALESCE"@),
                surround("("@, join(render_expressions(d, es), ", "@), ")"@),
            ),
            FunctionTypeView::JsonExtract(j) => render_json_extract(d, j),
            FunctionTypeView::TextSearch(t) => render_text_search(d, t),
        },
        alias_suffix(d, f.alias),
    )
}

/// A named sub-query of a `WITH` clause.
#[verifier::opaque]
pub open spec fn render_cte(d: Dialect, c: CommonTableExpressionView) -> Rendered
    decreases c,
{
    then(
        quoted(d, c.identifier),
        then(
            only_if(
                c.columns.len() > 0,
                then(text(" "@), surround("("@, join(quoted_names(d, c.columns), ","@), ")"@)),
            ),
            then(text(" AS "@), surround("("@, render_selection(d, c.selection), ")"@)),
        ),
    )
}

/// The `WITH` clause of the common table expressions, where there are
/// any.
#[verifier::opaque]
pub open spec fn with_clause(items: Seq<Rendered>) -> Rendered {
    only_if(items.len() > 0, then(text("WITH "@), then(join(items, ", "@), text(" "@))))
}

/// A `SELECT` statement. Its parts stand in this order: the projection,
/// `FROM`, the joins, `WHERE`, `GROUP BY`, `HAVING`, `ORDER BY`, then
/// `LIMIT` and `OFFSET`.
#[verifier::opaque]
pub open spec fn render_select(d: Dialect, s: SelectView) -> Rendered
    decreases s,
{
    then(
        with_clause(render_ctes(d, s.ctes)),
        then(
            text("SELECT "@),
            then(
                only_if(s.distinct, text("DISTINCT "@)),
                if s.tables.len() > 0 {
                    then(
                        if s.columns.len() == 0 {
                            join(render_stars(d, s.tables), ", "@)
                        } else {
                            join(render_expressions(d, s.columns), ", "@)
                        },
                        then(
                            text(" FROM "@),
                            then(
                                join(render_tables(d, s.tables), ", "@),
                                then(
                                    concat(render_joins(d, s.joins)),
                                    then(
                                        match s.conditions {
                                            Some(t) => then(
                                                text(" WHERE "@),
                                                render_conditions(d, t),
                                            ),
                                            None => nothing(),
                                        },
                                        then(
                                            only_if(
                                                s.grouping.len() > 0,
                                                then(
                                                    text(" GROUP BY "@),
                                                    join(render_expressions(d, s.grouping), ", "@),
                                                ),
                                            ),
                                            then(
                                                match s.having {
                                                    Some(t) => then(
                                                        text(" HAVING "@),
                                                        render_conditions(d, t),
                                                    ),
                                                    None => nothing(),
                                                },
                                                then(
                                                    only_if(
                                                        s.ordering.len() > 0,
                                                        then(
                                                            text(" ORDER BY "@),
                                                            join(
                                                                render_order_definitions(
                                                                    d,
                                                                    s.ordering,
                                                                ),
                                                                ", "@,
                                                            ),
                                                        ),
                                                    ),
                                                    limit_and_offset(
                                                        d,
                                                        s.limit,
                                                        s.offset,
                                                        s.ordering.len() > 0,
                                                    ),
                                                ),
                                            ),
                                        ),
                                    ),
                                ),
                            ),
                        ),
                    )
                } else if s.columns.len() == 0 {
                    text(" *"@)
                } else {
                    join(render_expressions(d, s.columns), ", "@)
                },
            ),
        ),
    )
}

/// A `UNION` of selects.
#[verifier::opaque]
pub open spec fn render_union(d: Dialect, u: UnionView) -> Rendered
    decreases u,
{
    then(with_clause(render_ctes(d, u.ctes)), concat(render_united(d, u.selects, u.types)))
}

/// The assignments of an update: `column = value` for each column that
/// has a value.
pub open spec fn render_assignments(d: Dialect, u: UpdateView) -> Seq<Rendered>
    decreases u, 0nat,
{
    Seq::new(
        if u.columns.len() <= u.values.len() {
            u.columns.len()
        } else {
            u.values.len()
        },
        |i: int|
            if 0 <= i < u.columns.len() && i < u.values.len() {
                then(
                    render_column(d, u.columns[i]),
                    then(text(" = "@), render_expression(d, u.values[i])),
                )
            } else {
                arbitrary()
            },
    )
}

/// An `UPDATE` statement. A column without a value, or a value without a
/// column, is left out.
#[verifier::opaque]
pub open spec fn render_update(d: Dialect, u: UpdateView) -> Rendered
    decreases u, 1nat,
{
    then(
        text("UPDATE "@),
        then(
            render_table(d, u.table, true),
            then(
                text(" SET "@),
                then(
                    join(
                        render_assignments(d, u),
                        ", "@,
                    ),
                    match u.conditions {
                        Some(t) => then(text(" WHERE "@), render_conditions(d, t)),
                        None => nothing(),
                    },
                ),
            ),
        ),
    )
}

/// A `DELETE` statement.
#[verifier::opaque]
pub open spec fn render_delete(d: Dialect, q: DeleteView) -> Rendered
    decreases q,
{
    then(
        text("DELETE FROM "@),
        then(
            render_table(d, q.table, true),
            match q.conditions {
                Some(t) => then(text(" WHERE "@), render_conditions(d, t)),
                None => nothing(),
            },
        ),
    )
}

/// The columns of the SQL Server table variable: the bare name of each
/// returned column, with its type.
pub open spec fn key_columns(d: Dialect, cs: Seq<ColumnView>) -> Seq<Rendered> {
    Seq::new(
        cs.len(),
        |i: int|
            then(
                quoted(d, cs[i].name),
                then(
                    text(" "@),
                    match cs[i].type_family {
                        Some(tf) => type_family(tf),
                        None => text("NVARCHAR(255)"@),
                    },
                ),
            ),
    )
}

/// The declaration of the SQL Server table variable that receives the
/// returned columns.
#[verifier::opaque]
pub open spec fn generated_keys_declaration(d: Dialect, cs: Seq<ColumnView>) -> Rendered {
    then(
        text("DECLARE "@),
        then(
            text("@generated_keys"@),
            then(
                text(" table"@),
                surround(
                    "("@,
                    join(key_columns(d, cs), ","@),
                    ")"@,
                ),
            ),
        ),
    )
}

/// The SQL Server `OUTPUT` clause that fills the table variable.
#[verifier::opaque]
pub open spec fn output_clause(d: Dialect, cs: Seq<ColumnView>) -> Rendered {
    then(
        text(" OUTPUT "@),
        then(
            join(qualified_columns(d, "Inserted"@, cs), ","@),
            then(text(" INTO "@), text("@generated_keys"@)),
        ),
    )
}

/// The predicate that joins the table variable `g` back to the target
/// `t` on the returned columns.
#[verifier::opaque]
pub open spec fn generated_keys_condition(d: Dialect, cs: Seq<ColumnView>) -> Rendered {
    if cs.len() == 0 {
        text("1=1"@)
    } else if cs.len() == 1 {
        key_pair(d, cs[0])
    } else {
        surround("("@, join(key_pairs(d, cs), " AND "@), ")"@)
    }
}

/// `t.column = g.column`
#[verifier::opaque]
pub open spec fn key_pair(d: Dialect, c: ColumnView) -> Rendered {
    then(
        quoted(d, "t"@),
        then(
            text("."@),
            then(
                quoted(d, c.name),
                then(text(" = "@), then(quoted(d, "g"@), then(text("."@), quoted(d, c.name)))),
            ),
        ),
    )
}

/// `t.column = g.column` for every column, in order.
pub open spec fn key_pairs(d: Dialect, cs: Seq<ColumnView>) -> Seq<Rendered> {
    Seq::new(cs.len(), |i: int| key_pair(d, cs[i]))
}

/// The names of the columns as they are, in order.
pub open spec fn bare_names(cs: Seq<ColumnView>) -> Seq<Rendered> {
    Seq::new(cs.len(), |i: int| text(cs[i].name))
}

/// The select that reads the final values of the returned columns by
/// joining the table variable back to the target. `target` is the target
/// table compiled without its alias.
#[verifier::opaque]
pub open spec fn generated_keys_select(d: Dialect, cs: Seq<ColumnView>, target: Rendered) -> Rendered {
    then(
        text("SELECT "@),
        then(
            join(qualified_columns(d, "t"@, cs), ","@),
            then(
                text(" FROM "@),
                then(
                    text("@generated_keys"@),
                    then(
                        text(" AS g"@),
                        then(
                            text(" INNER JOIN "@),
                            then(
                                target,
                                then(
                                    text(" AS "@),
                                    then(
                                        quoted(d, "t"@),
                                        then(
                                            text(" ON "@),
                                            then(
                                                generated_keys_condition(d, cs),
                                                text(" WHERE @@ROWCOUNT > 0"@),
                                            ),
                                        ),
                                    ),
                                ),
                            ),
                        ),
                    ),
                ),
            ),
        ),
    )
}

/// The columns of an insert, in parentheses.
#[verifier::opaque]
pub open spec fn insert_columns(d: Dialect, i: InsertView) -> Rendered
    decreases i, 0nat,
{
    match d {
        Dialect::Mssql => then(
            text(" "@),
            surround("("@, join(render_columns(d, i.columns), ","@), ")"@),
        ),
        Dialect::Sqlite => surround(" ("@, join(render_columns(d, i.columns), ", "@), ")"@),
        _ => surround(" ("@, join(render_columns(d, i.columns), ","@), ")"@),
    }
}

/// The columns and the rows of an insert. `output` stands between the
/// columns and the rows.
#[verifier::opaque]
pub open spec fn insert_source(d: Dialect, i: InsertView, output: Rendered) -> Rendered
    decreases i, 1nat,
{
    let columns = insert_columns(d, i);
    match i.values.kind {
        ExpressionKindView::Row(row) => if row.values.len() == 0 {
            then(
                output,
                text(
                    if d == Dialect::Mysql {
                        " () VALUES ()"@
                    } else {
                        " DEFAULT VALUES"@
                    },
                ),
            )
        } else {
            then(columns, then(output, then(text(" VALUES "@), render_row(d, row))))
        },
        ExpressionKindView::Values(values) => then(
            columns,
            then(
                output,
                then(
                    text(" VALUES "@),
                    join(
                        rows_in_parentheses(render_row_items(d, values.rows)),
                        if d == Dialect::Mssql {
                            ","@
                        } else {
                            ", "@
                        },
                    ),
                ),
            ),
        ),
        _ => if d == Dialect::Sqlite {
            render_expression(d, i.values)
        } else {
            surround("("@, render_expression(d, i.values), ")"@)
        },
    }
}

/// An `INSERT` statement in PostgreSQL.
#[verifier::opaque]
pub open spec fn render_insert_postgres(i: InsertView) -> Rendered
    decreases i, 2nat,
{
    let d = Dialect::Postgres;
    let skip = i.on_conflict matches Some(OnConflict::DoNothing);
    then(
        text("INSERT "@),
        then(
            match i.table {
                Some(t) => then(text("INTO "@), render_table(d, t, true)),
                None => nothing(),
            },
            then(
                insert_source(d, i, nothing()),
                then(
                    only_if(skip, text(" ON CONFLICT DO NOTHING"@)),
                    match i.returning {
                        Some(cs) => only_if(
                            cs.len() > 0,
                            then(text(" RETURNING "@), join(render_columns(d, cs), ", "@)),
                        ),
                        None => nothing(),
                    },
                ),
            ),
        ),
    )
}

/// An `INSERT` statement in MySQL.
#[verifier::opaque]
pub open spec fn render_insert_mysql(i: InsertView) -> Rendered
    decreases i, 2nat,
{
    let d = Dialect::Mysql;
    let skip = i.on_conflict matches Some(OnConflict::DoNothing);
    then(
        text(if skip { "INSERT IGNORE "@ } else { "INSERT "@ }),
        then(
            match i.table {
                Some(t) => then(text("INTO "@), render_table(d, t, true)),
                None => nothing(),
            },
            insert_source(d, i, nothing()),
        ),
    )
}

/// An `INSERT` statement in SQLite.
#[verifier::opaque]
pub open spec fn render_insert_sqlite(i: InsertView) -> Rendered
    decreases i, 2nat,
{
    let d = Dialect::Sqlite;
    let skip = i.on_conflict matches Some(OnConflict::DoNothing);
    then(
        text(if skip { "INSERT OR IGNORE"@ } else { "INSERT"@ }),
        then(
            match i.table {
                Some(t) => then(text(" INTO "@), render_table(d, t, true)),
                None => nothing(),
            },
            then(
                insert_source(d, i, nothing()),
                match i.returning {
                    Some(cs) => only_if(
                        cs.len() > 0,
                        then(
                            text(" RETURNING "@),
                            join(bare_names(cs), ", "@),
                        ),
                    ),
                    None => nothing(),
                },
            ),
        ),
    )
}

/// An `INSERT` statement in SQL Server. The returned columns are read
/// back through a table variable.
#[verifier::opaque]
pub open spec fn render_insert_mssql(i: InsertView) -> Rendered
    decreases i, 2nat,
{
    let d = Dialect::Mssql;
    let skip = i.on_conflict matches Some(OnConflict::DoNothing);
    then(
        match i.returning {
            Some(cs) => then(
                generated_keys_declaration(d, cs),
                text(" "@),
            ),
            None => nothing(),
        },
        then(
            text("INSERT"@),
            then(
                match i.table {
                    Some(t) => then(text(" INTO "@), render_table(d, t, true)),
                    None => nothing(),
                },
                then(
                    insert_source(
                        d,
                        i,
                        match i.returning {
                            Some(cs) => output_clause(d, cs),
                            None => nothing(),
                        },
                    ),
                    match i.returning {
                        Some(cs) => match i.table {
                            Some(t) => then(
                                text(" "@),
                                generated_keys_select(d, cs, render_table(d, t, false)),
                            ),
                            None => fail(Fault::ReturningWithoutTable),
                        },
                        None => nothing(),
                    },
                ),
            ),
        ),
    )
}

/// An `INSERT` statement.
#[verifier::opaque]
pub open spec fn render_insert(d: Dialect, i: InsertView) -> Rendered
    decreases i, 3nat,
{
    match d {
        Dialect::Postgres => render_insert_postgres(i),
        Dialect::Mysql => render_insert_mysql(i),
        Dialect::Sqlite => render_insert_sqlite(i),
        Dialect::Mssql => render_insert_mssql(i),
    }
}

/// A `MERGE` statement.
#[verifier::opaque]
pub open spec fn render_merge(d: Dialect, m: MergeView) -> Rendered
    decreases m,
{
    then(
        match m.returning {
            Some(cs) => then(generated_keys_declaration(d, cs), text(" "@)),
            None => nothing(),
        },
        then(
            text("MERGE INTO "@),
            then(
                render_table(d, m.table, true),
                then(
                    text(" USING "@),
                    then(
                        surround("("@, render_query(d, m.using.base_query), ")"@),
                        then(
                            text(" AS "@),
                            then(
                                render_table(d, m.using.as_table, false),
                                then(
                                    text(" "@),
                                    then(
                                        surround(
                                            "("@,
                                            join(render_columns(d, m.using.columns), ","@),
                                            ")"@,
                                        ),
                                        then(
                                            text(" ON "@),
                                            then(
                                                render_conditions(d, m.using.on_conditions),
                                                then(
                                                    match m.when_not_matched {
                                                        Some(q) => then(
                                                            text(" WHEN NOT MATCHED THEN "@),
                                                            render_query(d, q),
                                                        ),
                                                        None => nothing(),
                                                    },
                                                    match m.returning {
                                                        Some(cs) => then(
                                                            output_clause(d, cs),
                                                            then(
                                                                text("; "@),
                                                                generated_keys_select(
                                                                    d,
                                                                    cs,
                                                                    render_table(d, m.table, false),
                                                                ),
                                                            ),
                                                        ),
                                                        None => text(";"@),
                                                    },
                                                ),
                                            ),
                                        ),
                                    ),
                                ),
                            ),
                        ),
                    ),
                ),
            ),
        ),
    )
}

/// A statement, as it stands.
#[verifier::opaque]
pub open spec fn render_query(d: Dialect, q: QueryView) -> Rendered
    decreases q,
{
    match q {
        QueryView::Select(s) => render_select(d, *s),
        QueryView::Insert(i) => render_insert(d, *i),
        QueryView::Update(u) => render_update(d, *u),
        QueryView::Delete(x) => render_delete(d, *x),
        QueryView::Union(u) => render_union(d, *u),
        QueryView::Merge(m) => render_merge(d, *m),
        QueryView::Raw(s) => text(s),
    }
}

} // verus!

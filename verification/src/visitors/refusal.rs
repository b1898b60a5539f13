//! Refusals: what a dialect has no form for is refused wherever it is
//! written, at any depth of a condition.

use vstd::prelude::*;
use crate::ast::model::{
    CompareView,
    ConditionTreeView,
    DeleteView,
    JoinView,
    OrderDefinitionView,
    UpdateView,
    ExpressionKindView,
    ExpressionView,
    FunctionTypeView,
    FunctionView,
    QueryView,
    SelectView,
};
use crate::ast::node::Comparison;
use crate::dialect::Dialect;
use crate::visitors::binding::join_data;
use crate::visitors::compile::compiled;
use crate::visitors::model::{
    concat,
    concat_after,
    fail,
    lemma_concat_fails,
    lemma_concat_take,
    text,
    join,
    join_after,
    lemma_join_fails,
    lemma_join_take,
    then,
    Piece,
    Rendered,
};
use crate::visitors::syntax::{
    direction_text,
    render_delete,
    render_join,
    render_join_data,
    render_joins,
    render_order_definitions,
    render_update,
    render_compare,
    render_conditions,
    render_equality,
    render_expression,
    render_expressions,
    render_function,
    render_json_extract,
    render_query,
    render_select,
    render_text_search,
};
use crate::error::Fault;

verus! {

broadcast use vstd::seq::group_seq_axioms;

/// True where the rendering fails after whatever was written before it.
pub open spec fn refused(r: Rendered) -> bool {
    forall|before: Seq<Piece>| (#[trigger] r(before)) is Err
}

/// A failure is refused.
pub broadcast proof fn lemma_failure_is_refused(f: Fault)
    ensures
        #[trigger] refused(fail(f)),
{
}

/// Two renderings in a row are refused where one of them is.
pub broadcast proof fn lemma_then_is_refused(a: Rendered, b: Rendered)
    requires
        refused(a) || refused(b),
    ensures
        #[trigger] refused(then(a, b)),
{
    assert forall|before: Seq<Piece>| (#[trigger] then(a, b)(before)) is Err by {
        match a(before) {
            Err(_) => {},
            Ok(middle) => {
                assert(b(middle) is Err);
            },
        }
    }
}

/// A list is refused where one of its items is.
pub proof fn lemma_join_is_refused(items: Seq<Rendered>, separator: Seq<char>, i: int)
    requires
        0 <= i < items.len(),
        refused(items[i]),
    ensures
        refused(join(items, separator)),
{
    assert forall|before: Seq<Piece>| (#[trigger] join(items, separator)(before)) is Err by {
        lemma_join_take(items, separator, i, before);
        match join_after(items.take(i), separator, before) {
            Err(_) => {},
            Ok(middle) => {
                if i == 0 {
                    assert((items[i])(middle) is Err);
                } else {
                    assert((items[i])(middle.push(Piece::Text(separator))) is Err);
                }
            },
        }
        lemma_join_fails(items, separator, i + 1, before);
    }
}

/// True for a comparison that the dialect has no form for: a test on a
/// JSON array or on the type of a JSON value outside PostgreSQL and
/// MySQL, a full-text search outside PostgreSQL.
pub open spec fn lacks_comparison(d: Dialect, c: CompareView) -> bool {
    match c {
        CompareView::JsonArray(_, _, _, _) => d == Dialect::Sqlite || d == Dialect::Mssql,
        CompareView::JsonType(_, _) => d == Dialect::Sqlite || d == Dialect::Mssql,
        CompareView::Matches(_, _, _) => d != Dialect::Postgres,
        _ => false,
    }
}

/// True for a function that the dialect has no form for: the extraction
/// of a part of a JSON document outside PostgreSQL and MySQL, the vector
/// of a full-text search and a row as JSON outside PostgreSQL.
pub open spec fn lacks_function(d: Dialect, f: FunctionView) -> bool {
    match f.typ_ {
        FunctionTypeView::JsonExtract(_) => d == Dialect::Sqlite || d == Dialect::Mssql,
        FunctionTypeView::TextSearch(_) => d != Dialect::Postgres,
        FunctionTypeView::RowToJson(_) => d != Dialect::Postgres,
        _ => false,
    }
}

/// True where the expression is something that the dialect has no form
/// for, or holds it as an operand, as the argument of a function, as a
/// side of a comparison or in a condition, at any depth.
pub open spec fn holds_unsupported(d: Dialect, e: ExpressionView) -> bool
    decreases e,
{
    match e.kind {
        ExpressionKindView::Compare(c) => comparison_holds_unsupported(d, c),
        ExpressionKindView::Function(f) => function_holds_unsupported(d, *f),
        ExpressionKindView::ConditionTree(t) => conditions_hold_unsupported(d, t),
        ExpressionKindView::Value(inner) => holds_unsupported(d, *inner),
        ExpressionKindView::Op(l, _, r) => holds_unsupported(d, *l) || holds_unsupported(d, *r),
        _ => false,
    }
}

/// True where the function is one that the dialect has no form for, or
/// has an argument that holds such a thing.
pub open spec fn function_holds_unsupported(d: Dialect, f: FunctionView) -> bool
    decreases f,
{
    lacks_function(d, f) || match f.typ_ {
        FunctionTypeView::Count(es) => some_holds_unsupported(d, es),
        FunctionTypeView::Coalesce(es) => some_holds_unsupported(d, es),
        FunctionTypeView::AggregateToString(e) => holds_unsupported(d, *e),
        FunctionTypeView::Sum(e) => holds_unsupported(d, *e),
        FunctionTypeView::Lower(e) => holds_unsupported(d, *e),
        FunctionTypeView::Upper(e) => holds_unsupported(d, *e),
        _ => false,
    }
}

/// True where one of the expressions holds something that the dialect
/// has no form for.
pub open spec fn some_holds_unsupported(d: Dialect, es: Seq<ExpressionView>) -> bool
    decreases es,
{
    exists|i: int| 0 <= i < es.len() && holds_unsupported(d, #[trigger] es[i])
}

/// True where the condition holds something that the dialect has no form
/// for.
pub open spec fn conditions_hold_unsupported(d: Dialect, t: ConditionTreeView) -> bool
    decreases t,
{
    match t {
        ConditionTreeView::And(es) => some_holds_unsupported(d, es),
        ConditionTreeView::Or(es) => some_holds_unsupported(d, es),
        ConditionTreeView::Not(e) => holds_unsupported(d, *e),
        ConditionTreeView::Single(e) => holds_unsupported(d, *e),
        _ => false,
    }
}

/// True where the comparison is one that the dialect has no form for, or
/// has a side that holds such a thing. A membership test is left out: it
/// is written without its left side where the right side is empty.
pub open spec fn comparison_holds_unsupported(d: Dialect, c: CompareView) -> bool
    decreases c,
{
    lacks_comparison(d, c) || match c {
        CompareView::Binary(l, op, r) => op != Comparison::In && op != Comparison::NotIn && (
        holds_unsupported(d, *l) || holds_unsupported(d, *r)),
        CompareView::Pattern(l, _, _) => holds_unsupported(d, *l),
        CompareView::Null(e) => holds_unsupported(d, *e),
        CompareView::NotNull(e) => holds_unsupported(d, *e),
        CompareView::Between(v, l, r) => holds_unsupported(d, *v) || holds_unsupported(d, *l)
            || holds_unsupported(d, *r),
        CompareView::NotBetween(v, l, r) => holds_unsupported(d, *v) || holds_unsupported(d, *l)
            || holds_unsupported(d, *r),
        CompareView::Raw(l, _, r) => holds_unsupported(d, *l) || holds_unsupported(d, *r),
        _ => false,
    }
}

/// A function that the dialect has no form for is refused.
pub proof fn lemma_unsupported_function_is_refused(d: Dialect, f: FunctionView)
    requires
        lacks_function(d, f),
    ensures
        refused(render_function(d, f)),
{
    broadcast use {lemma_failure_is_refused, lemma_then_is_refused};

    reveal(render_function);
    reveal(render_json_extract);
    reveal(render_text_search);
}

/// A function is refused where an argument of it is.
proof fn lemma_function_step(d: Dialect, f: FunctionView)
    requires
        match f.typ_ {
            FunctionTypeView::Count(es) => es.len() > 0 && refused(
                join(render_expressions(d, es), ", "@),
            ),
            FunctionTypeView::Coalesce(es) => refused(join(render_expressions(d, es), ", "@)),
            FunctionTypeView::AggregateToString(e) => refused(render_expression(d, *e)),
            FunctionTypeView::Sum(e) => refused(render_expression(d, *e)),
            FunctionTypeView::Lower(e) => refused(render_expression(d, *e)),
            FunctionTypeView::Upper(e) => refused(render_expression(d, *e)),
            _ => false,
        },
    ensures
        refused(render_function(d, f)),
{
    broadcast use {lemma_failure_is_refused, lemma_then_is_refused};

    reveal(render_function);
    reveal(render_expression);
}

/// An expression is refused where a part of it that is always written
/// is.
proof fn lemma_expression_step(d: Dialect, e: ExpressionView)
    requires
        match e.kind {
            ExpressionKindView::Compare(c) => refused(render_compare(d, c)),
            ExpressionKindView::Function(f) => refused(render_function(d, *f)),
            ExpressionKindView::ConditionTree(t) => refused(render_conditions(d, t)),
            ExpressionKindView::Value(inner) => refused(render_expression(d, *inner)),
            ExpressionKindView::Op(l, _, r) => refused(render_expression(d, *l)) || refused(
                render_expression(d, *r),
            ),
            _ => false,
        },
    ensures
        refused(render_expression(d, e)),
{
    broadcast use {lemma_failure_is_refused, lemma_then_is_refused};

    reveal(render_expression);
    reveal(render_compare);
    reveal(render_conditions);
    reveal(render_function);
}

/// The rendering of the item of a list is the item of the renderings.
proof fn lemma_expressions_step(d: Dialect, es: Seq<ExpressionView>, i: int)
    requires
        0 <= i < es.len(),
    ensures
        render_expressions(d, es).len() == es.len(),
        render_expressions(d, es)[i] == render_expression(d, es[i]),
{
    reveal(render_expression);
}

/// A condition is refused where an expression of it is.
proof fn lemma_conditions_step(d: Dialect, t: ConditionTreeView)
    requires
        match t {
            ConditionTreeView::And(es) => refused(join(render_expressions(d, es), " AND "@)),
            ConditionTreeView::Or(es) => refused(join(render_expressions(d, es), " OR "@)),
            ConditionTreeView::Not(e) => refused(render_expression(d, *e)),
            ConditionTreeView::Single(e) => refused(render_expression(d, *e)),
            _ => false,
        },
    ensures
        refused(render_conditions(d, t)),
{
    broadcast use {lemma_failure_is_refused, lemma_then_is_refused};

    reveal(render_conditions);
    reveal(render_expression);
}

/// A comparison is refused where the dialect has no form for it, or
/// where a side of it that is always written is refused.
proof fn lemma_comparison_step(d: Dialect, c: CompareView)
    requires
        lacks_comparison(d, c) || match c {
            CompareView::Binary(l, op, r) => op != Comparison::In && op != Comparison::NotIn && (
            (refused(render_expression(d, *l)) && !(l.kind is Row)) || (refused(
                render_expression(d, *r),
            ) && !(r.kind is Row))),
            CompareView::Pattern(l, _, _) => refused(render_expression(d, *l)),
            CompareView::Null(e) => refused(render_expression(d, *e)),
            CompareView::NotNull(e) => refused(render_expression(d, *e)),
            CompareView::Between(v, l, r) => refused(render_expression(d, *v)) || refused(
                render_expression(d, *l),
            ) || refused(render_expression(d, *r)),
            CompareView::NotBetween(v, l, r) => refused(render_expression(d, *v)) || refused(
                render_expression(d, *l),
            ) || refused(render_expression(d, *r)),
            CompareView::Raw(l, _, r) => refused(render_expression(d, *l)) || refused(
                render_expression(d, *r),
            ),
            _ => false,
        },
    ensures
        refused(render_compare(d, c)),
{
    broadcast use {lemma_failure_is_refused, lemma_then_is_refused};

    reveal(render_compare);
    reveal(render_equality);
    reveal(render_expression);
}

/// An expression that holds something that the dialect has no form for
/// is refused.
pub proof fn lemma_unsupported_expression_is_refused(d: Dialect, e: ExpressionView)
    requires
        holds_unsupported(d, e),
    ensures
        refused(render_expression(d, e)),
    decreases e,
{
    match e.kind {
        ExpressionKindView::Compare(c) => lemma_unsupported_comparison_is_refused(d, c),
        ExpressionKindView::Function(f) => lemma_function_holding_unsupported_is_refused(d, *f),
        ExpressionKindView::ConditionTree(t) => lemma_unsupported_conditions_are_refused(d, t),
        ExpressionKindView::Value(inner) => lemma_unsupported_expression_is_refused(d, *inner),
        ExpressionKindView::Op(l, _, r) => {
            if holds_unsupported(d, *l) {
                lemma_unsupported_expression_is_refused(d, *l);
            } else {
                lemma_unsupported_expression_is_refused(d, *r);
            }
        },
        _ => {},
    }
    lemma_expression_step(d, e);
}

/// A function that the dialect has no form for, or with an argument
/// that holds such a thing, is refused.
pub proof fn lemma_function_holding_unsupported_is_refused(d: Dialect, f: FunctionView)
    requires
        function_holds_unsupported(d, f),
    ensures
        refused(render_function(d, f)),
    decreases f,
{
    if lacks_function(d, f) {
        lemma_unsupported_function_is_refused(d, f);
    } else {
        match f.typ_ {
            FunctionTypeView::Count(es) => lemma_unsupported_expressions_are_refused(d, es, ", "@),
            FunctionTypeView::Coalesce(es) => lemma_unsupported_expressions_are_refused(
                d,
                es,
                ", "@,
            ),
            FunctionTypeView::AggregateToString(e) => lemma_unsupported_expression_is_refused(d, *e),
            FunctionTypeView::Sum(e) => lemma_unsupported_expression_is_refused(d, *e),
            FunctionTypeView::Lower(e) => lemma_unsupported_expression_is_refused(d, *e),
            FunctionTypeView::Upper(e) => lemma_unsupported_expression_is_refused(d, *e),
            _ => {},
        }
        lemma_function_step(d, f);
    }
}

/// A list of expressions of which one holds something that the dialect
/// has no form for is refused.
pub proof fn lemma_unsupported_expressions_are_refused(
    d: Dialect,
    es: Seq<ExpressionView>,
    separator: Seq<char>,
)
    requires
        some_holds_unsupported(d, es),
    ensures
        refused(join(render_expressions(d, es), separator)),
    decreases es,
{
    let i = choose|i: int| 0 <= i < es.len() && holds_unsupported(d, #[trigger] es[i]);
    lemma_unsupported_expression_is_refused(d, es[i]);
    lemma_expressions_step(d, es, i);
    lemma_join_is_refused(render_expressions(d, es), separator, i);
}

/// A condition that holds something that the dialect has no form for is
/// refused.
pub proof fn lemma_unsupported_conditions_are_refused(d: Dialect, t: ConditionTreeView)
    requires
        conditions_hold_unsupported(d, t),
    ensures
        refused(render_conditions(d, t)),
    decreases t,
{
    match t {
        ConditionTreeView::And(es) => lemma_unsupported_expressions_are_refused(d, es, " AND "@),
        ConditionTreeView::Or(es) => lemma_unsupported_expressions_are_refused(d, es, " OR "@),
        ConditionTreeView::Not(e) => lemma_unsupported_expression_is_refused(d, *e),
        ConditionTreeView::Single(e) => lemma_unsupported_expression_is_refused(d, *e),
        _ => {},
    }
    lemma_conditions_step(d, t);
}

/// A comparison that the dialect has no form for, or with a side that
/// holds such a thing, is refused.
pub proof fn lemma_unsupported_comparison_is_refused(d: Dialect, c: CompareView)
    requires
        comparison_holds_unsupported(d, c),
    ensures
        refused(render_compare(d, c)),
    decreases c,
{
    if !lacks_comparison(d, c) {
        match c {
            CompareView::Binary(l, _, r) => {
                if holds_unsupported(d, *l) {
                    lemma_unsupported_expression_is_refused(d, *l);
                } else {
                    lemma_unsupported_expression_is_refused(d, *r);
                }
            },
            CompareView::Pattern(l, _, _) => lemma_unsupported_expression_is_refused(d, *l),
            CompareView::Null(e) => lemma_unsupported_expression_is_refused(d, *e),
            CompareView::NotNull(e) => lemma_unsupported_expression_is_refused(d, *e),
            CompareView::Between(v, l, r) => {
                if holds_unsupported(d, *v) {
                    lemma_unsupported_expression_is_refused(d, *v);
                } else if holds_unsupported(d, *l) {
                    lemma_unsupported_expression_is_refused(d, *l);
                } else {
                    lemma_unsupported_expression_is_refused(d, *r);
                }
            },
            CompareView::NotBetween(v, l, r) => {
                if holds_unsupported(d, *v) {
                    lemma_unsupported_expression_is_refused(d, *v);
                } else if holds_unsupported(d, *l) {
                    lemma_unsupported_expression_is_refused(d, *l);
                } else {
                    lemma_unsupported_expression_is_refused(d, *r);
                }
            },
            CompareView::Raw(l, _, r) => {
                if holds_unsupported(d, *l) {
                    lemma_unsupported_expression_is_refused(d, *l);
                } else {
                    lemma_unsupported_expression_is_refused(d, *r);
                }
            },
            _ => {},
        }
    }
    lemma_comparison_step(d, c);
}

/// A row of parts is refused where one of the parts is.
pub proof fn lemma_concat_is_refused(items: Seq<Rendered>, i: int)
    requires
        0 <= i < items.len(),
        refused(items[i]),
    ensures
        refused(concat(items)),
{
    assert forall|before: Seq<Piece>| (#[trigger] concat(items)(before)) is Err by {
        lemma_concat_take(items, i, before);
        match concat_after(items.take(i), before) {
            Err(_) => {},
            Ok(middle) => {
                assert((items[i])(middle) is Err);
            },
        }
        lemma_concat_fails(items, i + 1, before);
    }
}

/// True where the condition of one of the joins holds something that
/// the dialect has no form for.
pub open spec fn some_join_holds_unsupported(d: Dialect, js: Seq<JoinView>) -> bool {
    exists|i: int|
        0 <= i < js.len() && conditions_hold_unsupported(d, join_data(#[trigger] js[i]).conditions)
}

/// True where one of the expressions by which a select orders holds
/// something that the dialect has no form for.
pub open spec fn some_order_holds_unsupported(d: Dialect, os: Seq<OrderDefinitionView>) -> bool {
    exists|i: int| 0 <= i < os.len() && holds_unsupported(d, (#[trigger] os[i]).expression)
}

/// A join is refused where its condition is.
proof fn lemma_join_step(d: Dialect, j: JoinView)
    requires
        refused(render_conditions(d, join_data(j).conditions)),
    ensures
        refused(render_join(d, j)),
{
    broadcast use lemma_then_is_refused;

    reveal(render_join);
    reveal(render_join_data);
    reveal(render_conditions);
}

/// Joins are refused where the condition of one of them holds something
/// that the dialect has no form for.
pub proof fn lemma_unsupported_joins_are_refused(d: Dialect, js: Seq<JoinView>)
    requires
        some_join_holds_unsupported(d, js),
    ensures
        refused(concat(render_joins(d, js))),
{
    let i = choose|i: int|
        0 <= i < js.len() && conditions_hold_unsupported(d, join_data(#[trigger] js[i]).conditions);
    lemma_unsupported_conditions_are_refused(d, join_data(js[i]).conditions);
    lemma_join_step(d, js[i]);
    reveal(render_join);
    assert(render_joins(d, js)[i] == render_join(d, js[i]));
    lemma_concat_is_refused(render_joins(d, js), i);
}

/// An ordering is refused where one of its expressions holds something
/// that the dialect has no form for.
pub proof fn lemma_unsupported_ordering_is_refused(d: Dialect, os: Seq<OrderDefinitionView>)
    requires
        some_order_holds_unsupported(d, os),
    ensures
        refused(join(render_order_definitions(d, os), ", "@)),
{
    broadcast use lemma_then_is_refused;

    let i = choose|i: int| 0 <= i < os.len() && holds_unsupported(d, (#[trigger] os[i]).expression);
    lemma_unsupported_expression_is_refused(d, os[i].expression);
    reveal(render_expression);
    assert(render_order_definitions(d, os)[i] == then(
        render_expression(d, os[i].expression),
        text(direction_text(os[i].order)),
    ));
    lemma_join_is_refused(render_order_definitions(d, os), ", "@, i);
}

/// True where the select holds something that the dialect has no form
/// for: in what it selects, or, where it selects from a table, in the
/// condition of a join, in its `WHERE`, its `GROUP BY`, its `HAVING` or
/// its `ORDER BY`.
pub open spec fn select_holds_unsupported(d: Dialect, s: SelectView) -> bool {
    ||| some_holds_unsupported(d, s.columns)
    ||| s.tables.len() > 0 && {
        ||| some_join_holds_unsupported(d, s.joins)
        ||| s.conditions matches Some(t) && conditions_hold_unsupported(d, t)
        ||| some_holds_unsupported(d, s.grouping)
        ||| s.having matches Some(t) && conditions_hold_unsupported(d, t)
        ||| some_order_holds_unsupported(d, s.ordering)
    }
}

/// A select that holds something that the dialect has no form for is
/// refused.
pub proof fn lemma_unsupported_select_is_refused(d: Dialect, s: SelectView)
    requires
        select_holds_unsupported(d, s),
    ensures
        refused(render_select(d, s)),
{
    broadcast use {lemma_failure_is_refused, lemma_then_is_refused};

    reveal(render_select);
    reveal(render_conditions);
    reveal(render_expression);
    if some_holds_unsupported(d, s.columns) {
        lemma_unsupported_expressions_are_refused(d, s.columns, ", "@);
    } else if some_join_holds_unsupported(d, s.joins) {
        lemma_unsupported_joins_are_refused(d, s.joins);
    } else if some_order_holds_unsupported(d, s.ordering) {
        lemma_unsupported_ordering_is_refused(d, s.ordering);
    } else if s.conditions matches Some(t) && conditions_hold_unsupported(d, t) {
        lemma_unsupported_conditions_are_refused(d, s.conditions->Some_0);
    } else if some_holds_unsupported(d, s.grouping) {
        lemma_unsupported_expressions_are_refused(d, s.grouping, ", "@);
    } else {
        lemma_unsupported_conditions_are_refused(d, s.having->Some_0);
    }
}

/// On a dialect that compiles a select as it stands, a select that holds
/// something that the dialect has no form for does not compile: neither
/// text nor values come back.
pub proof fn lemma_unsupported_select_does_not_compile(d: Dialect, s: SelectView)
    requires
        d.compares_rows(),
        select_holds_unsupported(d, s),
    ensures
        compiled(d, QueryView::Select(Box::new(s))) is Err,
{
    reveal(render_query);
    lemma_unsupported_select_is_refused(d, s);
    assert(render_select(d, s)(Seq::<Piece>::empty()) is Err);
}

/// An update with a `WHERE` that holds something that the dialect has
/// no form for does not compile.
pub proof fn lemma_unsupported_update_does_not_compile(d: Dialect, u: UpdateView)
    requires
        u.conditions matches Some(t) && conditions_hold_unsupported(d, t),
    ensures
        compiled(d, QueryView::Update(Box::new(u))) is Err,
{
    broadcast use lemma_then_is_refused;

    reveal(render_query);
    reveal(render_update);
    reveal(render_conditions);
    lemma_unsupported_conditions_are_refused(d, u.conditions->Some_0);
    assert(render_update(d, u)(Seq::<Piece>::empty()) is Err);
}

/// A delete with a `WHERE` that holds something that the dialect has no
/// form for does not compile.
pub proof fn lemma_unsupported_delete_does_not_compile(d: Dialect, x: DeleteView)
    requires
        x.conditions matches Some(t) && conditions_hold_unsupported(d, t),
    ensures
        compiled(d, QueryView::Delete(Box::new(x))) is Err,
{
    broadcast use lemma_then_is_refused;

    reveal(render_query);
    reveal(render_delete);
    reveal(render_conditions);
    lemma_unsupported_conditions_are_refused(d, x.conditions->Some_0);
    assert(render_delete(d, x)(Seq::<Piece>::empty()) is Err);
}

} // verus!

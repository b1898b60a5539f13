//! Bound values: the values of a tree in the order in which it is
//! visited, stated on the tree alone, and the proof that these are the
//! values that its text binds.

use vstd::prelude::*;
use crate::ast::model::{
    ColumnView,
    CompareView,
    ConditionTreeView,
    ExpressionKindView,
    ExpressionView,
    JoinDataView,
    JoinView,
    OrderDefinitionView,
    QueryView,
    SelectView,
    TableView,
};
use crate::error::Fault;
use crate::visitors::compile::compiled;
use crate::ast::value::ValueView;
use crate::dialect::Dialect;
use crate::visitors::compose::{
    lemma_join_composes,
    lemma_nothing_composes,
    lemma_text_composes,
    lemma_then_composes,
    all_compositional,
    compositional,
    group_composition,
    lemma_appends,
    own,
};
use crate::visitors::independence::group_syntax_composition;
use crate::visitors::induction::{
    lemma_select_composes,
    lemma_table_composes,
    lemma_ctes_compose,
    lemma_joins_compose,
    lemma_order_definitions_compose,
    lemma_tables_compose,
    lemma_column_composes,
    lemma_compare_composes,
    lemma_conditions_compose,
    lemma_expression_composes,
    lemma_expressions_compose,
};
use crate::visitors::laws::{lemma_params_of_add, lemma_values_of_parts};
use crate::visitors::literal::render_raw;
use crate::visitors::model::{
    concat,
    concat_after,
    only_if,
    join,
    join_after,
    nothing,
    param,
    params_of,
    text,
    then,
    Piece,
    Rendered,
};
use crate::visitors::syntax::{
    direction_text,
    render_join,
    render_join_data,
    limit_and_offset,
    render_ctes,
    render_joins,
    render_order_definitions,
    render_query,
    render_select,
    render_star,
    render_stars,
    render_tables,
    with_clause,
    alias_suffix,
    quoted,
    render_column,
    render_compare,
    render_conditions,
    render_equality,
    render_expression,
    render_expressions,
    render_membership,
    render_table,
    table_name,
};

verus! {

broadcast use {vstd::seq::group_seq_axioms, group_composition, group_syntax_composition};

/// The values that a rendering binds on its own, in order; none where it
/// fails.
pub open spec fn bound_values(r: Rendered) -> Seq<ValueView> {
    match own(r) {
        Ok(pieces) => params_of(pieces),
        Err(_) => Seq::empty(),
    }
}

/// The sequences one after another.
pub open spec fn flattened(parts: Seq<Seq<ValueView>>) -> Seq<ValueView>
    decreases parts.len(),
{
    if parts.len() == 0 {
        Seq::empty()
    } else {
        flattened(parts.drop_last()) + parts.last()
    }
}

/// Text binds nothing.
pub broadcast proof fn lemma_text_binds_nothing(s: Seq<char>)
    ensures
        #[trigger] bound_values(text(s)) == Seq::<ValueView>::empty(),
{
    let pieces = Seq::<Piece>::empty().push(Piece::Text(s));
    assert(pieces.drop_last() =~= Seq::<Piece>::empty());
    assert(params_of(pieces) == params_of(pieces.drop_last()));
}

/// A parameter binds its value.
pub broadcast proof fn lemma_param_binds_its_value(v: ValueView)
    ensures
        #[trigger] bound_values(param(v)) == seq![v],
{
    let pieces = Seq::<Piece>::empty().push(Piece::Param(v));
    assert(pieces.drop_last() =~= Seq::<Piece>::empty());
    assert(params_of(pieces) == params_of(pieces.drop_last()).push(v));
    assert(params_of(pieces) =~= seq![v]);
}

/// Nothing binds nothing.
pub broadcast proof fn lemma_nothing_binds_nothing(r: Rendered)
    requires
        r == nothing(),
    ensures
        #[trigger] bound_values(r) == Seq::<ValueView>::empty(),
{
}

/// Nothing is dropped, doubled or reordered between two parts: where
/// one part followed by another succeeds, both succeed, and the values
/// are those of the first followed by those of the second.
pub broadcast proof fn lemma_then_binds_in_order(a: Rendered, b: Rendered)
    requires
        compositional(a),
        compositional(b),
        own(then(a, b)) is Ok,
    ensures
        own(a) is Ok,
        own(b) is Ok,
        #[trigger] bound_values(then(a, b)) == bound_values(a) + bound_values(b),
{
    lemma_values_of_parts(a, b);
}

/// Nothing is dropped, doubled or reordered in a list: where the list
/// succeeds, every item succeeds, and the values are those of the items
/// one after another.
pub proof fn lemma_join_binds_in_order(items: Seq<Rendered>, separator: Seq<char>)
    requires
        all_compositional(items),
        own(join(items, separator)) is Ok,
    ensures
        forall|i: int| 0 <= i < items.len() ==> own(#[trigger] items[i]) is Ok,
        bound_values(join(items, separator)) == flattened(
            Seq::new(items.len(), |i: int| bound_values(items[i])),
        ),
    decreases items.len(),
{
    let parts = Seq::new(items.len(), |i: int| bound_values(items[i]));
    if items.len() > 0 {
        let rest = items.drop_last();
        let last = items.last();
        let empty = Seq::<Piece>::empty();
        assert(compositional(last));
        assert(all_compositional(rest)) by {
            assert forall|i: int| 0 <= i < rest.len() implies compositional(#[trigger] rest[i]) by {
                assert(rest[i] == items[i]);
            }
        }
        let middle = join_after(rest, separator, empty)->Ok_0;
        let start = if items.len() == 1 {
            middle
        } else {
            middle.push(Piece::Text(separator))
        };
        assert(own(join(rest, separator)) is Ok);
        lemma_join_binds_in_order(rest, separator);
        lemma_appends(last, start);
        assert(own(last) is Ok);
        lemma_params_of_add(start, own(last)->Ok_0);
        assert(params_of(start) == params_of(middle)) by {
            if items.len() > 1 {
                assert(start.drop_last() =~= middle);
            }
        }
        let before = Seq::new(rest.len(), |i: int| bound_values(rest[i]));
        assert(parts.drop_last() =~= before);
        assert(parts.last() == bound_values(last));
        assert forall|i: int| 0 <= i < items.len() implies own(#[trigger] items[i]) is Ok by {
            if i < rest.len() {
                assert(rest[i] == items[i]);
            }
        }
    }
}

/// True for a column of no table or of a table that is a name.
pub open spec fn plain_column(c: ColumnView) -> bool {
    c.table matches Some(t) ==> t.typ is Table
}

/// True for an expression made of columns, of values that are bound or
/// written as literals, of operations, comparisons and conditions on
/// such expressions, at any depth.
pub open spec fn plain(e: ExpressionView) -> bool
    decreases e,
{
    match e.kind {
        ExpressionKindView::Parameterized(_) => true,
        ExpressionKindView::RawValue(_) => true,
        ExpressionKindView::Column(c) => plain_column(*c),
        ExpressionKindView::Op(l, _, r) => plain(*l) && plain(*r),
        ExpressionKindView::ConditionTree(t) => plain_conditions(t),
        ExpressionKindView::Compare(c) => plain_comparison(c),
        ExpressionKindView::Value(inner) => plain(*inner),
        ExpressionKindView::Default => true,
        _ => false,
    }
}

/// True where every expression is plain.
pub open spec fn all_plain(es: Seq<ExpressionView>) -> bool
    decreases es,
{
    forall|i: int| 0 <= i < es.len() ==> plain(#[trigger] es[i])
}

/// True for a condition on plain expressions.
pub open spec fn plain_conditions(t: ConditionTreeView) -> bool
    decreases t,
{
    match t {
        ConditionTreeView::And(es) => all_plain(es),
        ConditionTreeView::Or(es) => all_plain(es),
        ConditionTreeView::Not(e) => plain(*e),
        ConditionTreeView::Single(e) => plain(*e),
        _ => true,
    }
}

/// True for a comparison of plain expressions: one with another, with
/// null, or with two bounds.
pub open spec fn plain_comparison(c: CompareView) -> bool
    decreases c,
{
    match c {
        CompareView::Binary(l, _, r) => plain(*l) && plain(*r),
        CompareView::Null(e) => plain(*e),
        CompareView::NotNull(e) => plain(*e),
        CompareView::Between(v, l, r) => plain(*v) && plain(*l) && plain(*r),
        CompareView::NotBetween(v, l, r) => plain(*v) && plain(*l) && plain(*r),
        _ => false,
    }
}

/// The values of a plain expression that are to be bound, in the order
/// in which the expression is visited: a bound value itself, a literal
/// none, the left side before the right side.
pub open spec fn values_of(e: ExpressionView) -> Seq<ValueView>
    decreases e,
{
    match e.kind {
        ExpressionKindView::Parameterized(v) => seq![v],
        ExpressionKindView::Op(l, _, r) => values_of(*l) + values_of(*r),
        ExpressionKindView::ConditionTree(t) => values_of_conditions(t),
        ExpressionKindView::Compare(c) => values_of_comparison(c),
        ExpressionKindView::Value(inner) => values_of(*inner),
        _ => Seq::empty(),
    }
}

/// The values of each expression.
pub open spec fn values_of_each(es: Seq<ExpressionView>) -> Seq<Seq<ValueView>>
    decreases es,
{
    Seq::new(
        es.len(),
        |i: int|
            if 0 <= i < es.len() {
                values_of(es[i])
            } else {
                Seq::empty()
            },
    )
}

/// The values of a condition: those of its expressions, one after
/// another.
pub open spec fn values_of_conditions(t: ConditionTreeView) -> Seq<ValueView>
    decreases t,
{
    match t {
        ConditionTreeView::And(es) => flattened(values_of_each(es)),
        ConditionTreeView::Or(es) => flattened(values_of_each(es)),
        ConditionTreeView::Not(e) => values_of(*e),
        ConditionTreeView::Single(e) => values_of(*e),
        _ => Seq::empty(),
    }
}

/// The values of a comparison: those of its sides, from the left.
pub open spec fn values_of_comparison(c: CompareView) -> Seq<ValueView>
    decreases c,
{
    match c {
        CompareView::Binary(l, _, r) => values_of(*l) + values_of(*r),
        CompareView::Null(e) => values_of(*e),
        CompareView::NotNull(e) => values_of(*e),
        CompareView::Between(v, l, r) => values_of(*v) + values_of(*l) + values_of(*r),
        CompareView::NotBetween(v, l, r) => values_of(*v) + values_of(*l) + values_of(*r),
        _ => Seq::empty(),
    }
}

/// True where the rendering, if it succeeds, binds exactly the values.
pub open spec fn binds_exactly(r: Rendered, values: Seq<ValueView>) -> bool {
    own(r) is Ok ==> bound_values(r) == values
}

/// A value written as a literal is never bound.
pub proof fn lemma_literal_binds_nothing(d: Dialect, v: ValueView)
    ensures
        bound_values(render_raw(d, v)) == Seq::<ValueView>::empty(),
{
    broadcast use {lemma_text_binds_nothing, lemma_nothing_binds_nothing, lemma_then_binds_in_order};

}

/// A plain column binds nothing.
pub proof fn lemma_column_binds_nothing(d: Dialect, c: ColumnView)
    requires
        plain_column(c),
    ensures
        bound_values(render_column(d, c)) == Seq::<ValueView>::empty(),
{
    broadcast use {lemma_text_binds_nothing, lemma_nothing_binds_nothing, lemma_then_binds_in_order};

    reveal(render_column);
    reveal(render_table);
    reveal(table_name);
    reveal(alias_suffix);
    reveal(quoted);
}

/// An expression binds the values of its kind: its alias binds nothing.
proof fn lemma_expression_step(d: Dialect, e: ExpressionView)
    requires
        plain(e),
        match e.kind {
            ExpressionKindView::Column(c) => bound_values(render_column(d, *c)) == Seq::<
                ValueView,
            >::empty(),
            ExpressionKindView::RawValue(v) => bound_values(render_raw(d, v)) == Seq::<
                ValueView,
            >::empty(),
            ExpressionKindView::Op(l, _, r) => binds_exactly(
                render_expression(d, *l),
                values_of(*l),
            ) && binds_exactly(render_expression(d, *r), values_of(*r)) && compositional(
                render_expression(d, *l),
            ) && compositional(render_expression(d, *r)),
            ExpressionKindView::ConditionTree(t) => binds_exactly(
                render_conditions(d, t),
                values_of_conditions(t),
            ),
            ExpressionKindView::Compare(c) => binds_exactly(
                render_compare(d, c),
                values_of_comparison(c),
            ),
            ExpressionKindView::Value(inner) => binds_exactly(
                render_expression(d, *inner),
                values_of(*inner),
            ),
            _ => true,
        },
        compositional(render_expression(d, e)),
        match e.kind {
            ExpressionKindView::Column(c) => compositional(render_column(d, *c)),
            ExpressionKindView::ConditionTree(t) => compositional(render_conditions(d, t)),
            ExpressionKindView::Compare(c) => compositional(render_compare(d, c)),
            ExpressionKindView::Value(inner) => compositional(render_expression(d, *inner)),
            _ => true,
        },
    ensures
        binds_exactly(render_expression(d, e), values_of(e)),
{
    broadcast use {
        lemma_text_binds_nothing,
        lemma_param_binds_its_value,
        lemma_nothing_binds_nothing,
        lemma_then_binds_in_order,
    };

    reveal(render_expression);
    reveal(render_column);
    reveal(render_conditions);
    reveal(render_compare);
    reveal(alias_suffix);
    reveal(quoted);
    if own(render_expression(d, e)) is Ok {
        assert(bound_values(render_expression(d, e)) =~= values_of(e));
    }
}

/// The rendering of the item of a list is the item of the renderings.
proof fn lemma_expressions_step(d: Dialect, es: Seq<ExpressionView>)
    ensures
        render_expressions(d, es).len() == es.len(),
        forall|i: int|
            0 <= i < es.len() ==> #[trigger] render_expressions(d, es)[i] == render_expression(
                d,
                es[i],
            ),
{
    reveal(render_expression);
}

/// A condition binds the values of its expressions, one after another.
proof fn lemma_conditions_step(d: Dialect, t: ConditionTreeView)
    requires
        match t {
            ConditionTreeView::And(es) => binds_exactly(
                join(render_expressions(d, es), " AND "@),
                flattened(values_of_each(es)),
            ),
            ConditionTreeView::Or(es) => binds_exactly(
                join(render_expressions(d, es), " OR "@),
                flattened(values_of_each(es)),
            ),
            ConditionTreeView::Not(e) => binds_exactly(render_expression(d, *e), values_of(*e))
                && compositional(render_expression(d, *e)),
            ConditionTreeView::Single(e) => binds_exactly(render_expression(d, *e), values_of(*e)),
            _ => true,
        },
        match t {
            ConditionTreeView::And(es) => all_compositional(render_expressions(d, es)),
            ConditionTreeView::Or(es) => all_compositional(render_expressions(d, es)),
            _ => true,
        },
    ensures
        binds_exactly(render_conditions(d, t), values_of_conditions(t)),
{
    broadcast use {
        lemma_text_binds_nothing,
        lemma_param_binds_its_value,
        lemma_nothing_binds_nothing,
        lemma_then_binds_in_order,
    };

    reveal(render_conditions);
    reveal(render_expression);
    if own(render_conditions(d, t)) is Ok {
        assert(bound_values(render_conditions(d, t)) =~= values_of_conditions(t));
    }
}

/// A comparison binds the values of its sides, from the left.
proof fn lemma_comparison_step(d: Dialect, c: CompareView)
    requires
        plain_comparison(c),
        match c {
            CompareView::Binary(l, _, r) => binds_exactly(render_expression(d, *l), values_of(*l))
                && binds_exactly(render_expression(d, *r), values_of(*r)) && compositional(
                render_expression(d, *l),
            ) && compositional(render_expression(d, *r)),
            CompareView::Null(e) => binds_exactly(render_expression(d, *e), values_of(*e))
                && compositional(render_expression(d, *e)),
            CompareView::NotNull(e) => binds_exactly(render_expression(d, *e), values_of(*e))
                && compositional(render_expression(d, *e)),
            CompareView::Between(v, l, r) => binds_exactly(render_expression(d, *v), values_of(*v))
                && binds_exactly(render_expression(d, *l), values_of(*l)) && binds_exactly(
                render_expression(d, *r),
                values_of(*r),
            ) && compositional(render_expression(d, *v)) && compositional(
                render_expression(d, *l),
            ) && compositional(render_expression(d, *r)),
            CompareView::NotBetween(v, l, r) => binds_exactly(
                render_expression(d, *v),
                values_of(*v),
            ) && binds_exactly(render_expression(d, *l), values_of(*l)) && binds_exactly(
                render_expression(d, *r),
                values_of(*r),
            ) && compositional(render_expression(d, *v)) && compositional(
                render_expression(d, *l),
            ) && compositional(render_expression(d, *r)),
            _ => true,
        },
    ensures
        binds_exactly(render_compare(d, c), values_of_comparison(c)),
{
    broadcast use {
        lemma_text_binds_nothing,
        lemma_param_binds_its_value,
        lemma_nothing_binds_nothing,
        lemma_then_binds_in_order,
    };

    reveal(render_compare);
    reveal(render_equality);
    reveal(render_membership);
    reveal(render_expression);
    if own(render_compare(d, c)) is Ok {
        assert(bound_values(render_compare(d, c)) =~= values_of_comparison(c));
    }
}

/// No value is dropped, doubled or reordered: a plain expression that
/// compiles binds exactly its values to be bound, in the order in which
/// it is visited, and none of its literals.
pub proof fn lemma_expression_binds_its_values(d: Dialect, e: ExpressionView)
    requires
        plain(e),
    ensures
        binds_exactly(render_expression(d, e), values_of(e)),
    decreases e,
{
    lemma_expression_composes(d, e);
    match e.kind {
        ExpressionKindView::Column(c) => {
            lemma_column_binds_nothing(d, *c);
            lemma_column_composes(d, *c);
        },
        ExpressionKindView::RawValue(v) => {
            lemma_literal_binds_nothing(d, v);
        },
        ExpressionKindView::Op(l, _, r) => {
            lemma_expression_binds_its_values(d, *l);
            lemma_expression_binds_its_values(d, *r);
            lemma_expression_composes(d, *l);
            lemma_expression_composes(d, *r);
        },
        ExpressionKindView::ConditionTree(t) => {
            lemma_conditions_bind_their_values(d, t);
            lemma_conditions_compose(d, t);
        },
        ExpressionKindView::Compare(c) => {
            lemma_comparison_binds_its_values(d, c);
            lemma_compare_composes(d, c);
        },
        ExpressionKindView::Value(inner) => {
            lemma_expression_binds_its_values(d, *inner);
            lemma_expression_composes(d, *inner);
        },
        _ => {},
    }
    lemma_expression_step(d, e);
}

/// A list of plain expressions that compiles binds the values of its
/// expressions, one after another.
pub proof fn lemma_expressions_bind_their_values(
    d: Dialect,
    es: Seq<ExpressionView>,
    separator: Seq<char>,
)
    requires
        all_plain(es),
    ensures
        binds_exactly(join(render_expressions(d, es), separator), flattened(values_of_each(es))),
    decreases es,
{
    let items = render_expressions(d, es);
    lemma_expressions_compose(d, es);
    lemma_expressions_step(d, es);
    if own(join(items, separator)) is Ok {
        lemma_join_binds_in_order(items, separator);
        assert forall|i: int| 0 <= i < es.len() implies bound_values(#[trigger] items[i])
            == values_of(es[i]) by {
            lemma_expression_binds_its_values(d, es[i]);
            assert(own(items[i]) is Ok);
        }
        assert(Seq::new(items.len(), |i: int| bound_values(items[i])) =~= values_of_each(es));
    }
}

/// A plain condition that compiles binds exactly its values, in the
/// order of its expressions.
pub proof fn lemma_conditions_bind_their_values(d: Dialect, t: ConditionTreeView)
    requires
        plain_conditions(t),
    ensures
        binds_exactly(render_conditions(d, t), values_of_conditions(t)),
    decreases t,
{
    match t {
        ConditionTreeView::And(es) => {
            lemma_expressions_bind_their_values(d, es, " AND "@);
            lemma_expressions_compose(d, es);
        },
        ConditionTreeView::Or(es) => {
            lemma_expressions_bind_their_values(d, es, " OR "@);
            lemma_expressions_compose(d, es);
        },
        ConditionTreeView::Not(e) => {
            lemma_expression_binds_its_values(d, *e);
            lemma_expression_composes(d, *e);
        },
        ConditionTreeView::Single(e) => {
            lemma_expression_binds_its_values(d, *e);
        },
        _ => {},
    }
    lemma_conditions_step(d, t);
}

/// A plain comparison that compiles binds exactly the values of its
/// sides, from the left.
pub proof fn lemma_comparison_binds_its_values(d: Dialect, c: CompareView)
    requires
        plain_comparison(c),
    ensures
        binds_exactly(render_compare(d, c), values_of_comparison(c)),
    decreases c,
{
    match c {
        CompareView::Binary(l, _, r) => {
            lemma_expression_binds_its_values(d, *l);
            lemma_expression_binds_its_values(d, *r);
            lemma_expression_composes(d, *l);
            lemma_expression_composes(d, *r);
        },
        CompareView::Null(e) => {
            lemma_expression_binds_its_values(d, *e);
            lemma_expression_composes(d, *e);
        },
        CompareView::NotNull(e) => {
            lemma_expression_binds_its_values(d, *e);
            lemma_expression_composes(d, *e);
        },
        CompareView::Between(v, l, r) => {
            lemma_expression_binds_its_values(d, *v);
            lemma_expression_binds_its_values(d, *l);
            lemma_expression_binds_its_values(d, *r);
            lemma_expression_composes(d, *v);
            lemma_expression_composes(d, *l);
            lemma_expression_composes(d, *r);
        },
        CompareView::NotBetween(v, l, r) => {
            lemma_expression_binds_its_values(d, *v);
            lemma_expression_binds_its_values(d, *l);
            lemma_expression_binds_its_values(d, *r);
            lemma_expression_composes(d, *v);
            lemma_expression_composes(d, *l);
            lemma_expression_composes(d, *r);
        },
        _ => {},
    }
    lemma_comparison_step(d, c);
}

/// Parts that are all empty make nothing.
pub proof fn lemma_flattened_nothing(parts: Seq<Seq<ValueView>>)
    requires
        forall|i: int| 0 <= i < parts.len() ==> (#[trigger] parts[i]).len() == 0,
    ensures
        flattened(parts) == Seq::<ValueView>::empty(),
    decreases parts.len(),
{
    if parts.len() > 0 {
        lemma_flattened_nothing(parts.drop_last());
        assert(flattened(parts) =~= Seq::<ValueView>::empty());
    }
}

/// A list of which no item binds a value binds none.
pub proof fn lemma_join_binds_nothing(items: Seq<Rendered>, separator: Seq<char>)
    requires
        all_compositional(items),
        forall|i: int|
            0 <= i < items.len() ==> bound_values(#[trigger] items[i]) == Seq::<ValueView>::empty(),
    ensures
        bound_values(join(items, separator)) == Seq::<ValueView>::empty(),
{
    if own(join(items, separator)) is Ok {
        lemma_join_binds_in_order(items, separator);
        lemma_flattened_nothing(Seq::new(items.len(), |i: int| bound_values(items[i])));
    }
}

/// The values of `LIMIT` and `OFFSET` in the order in which the dialect
/// writes them: the limit before the offset, but on SQL Server the
/// offset before the limit. A dialect that cannot write one without the
/// other binds a value of its own in the place of the one that is
/// missing.
pub open spec fn values_of_limits(
    d: Dialect,
    limit: Option<ValueView>,
    offset: Option<ValueView>,
    ordered: bool,
) -> Seq<ValueView> {
    match (limit, offset) {
        (Some(l), Some(o)) => if d == Dialect::Mssql {
            seq![o, l]
        } else {
            seq![l, o]
        },
        (Some(l), None) => if d == Dialect::Mssql {
            seq![ValueView::I32(Some(0i32)), l]
        } else {
            seq![l]
        },
        (None, Some(o)) => match d {
            Dialect::Mssql => if ordered || (o.as_i64() matches Some(n) && n > 0) {
                seq![o]
            } else {
                Seq::empty()
            },
            Dialect::Sqlite => seq![ValueView::I32(Some(-1i32)), o],
            Dialect::Mysql => seq![ValueView::I64(Some(0x7fff_ffff_ffff_ffffi64)), o],
            Dialect::Postgres => seq![o],
        },
        (None, None) => Seq::empty(),
    }
}

/// `LIMIT` and `OFFSET` bind their values.
pub proof fn lemma_limits_bind_their_values(
    d: Dialect,
    limit: Option<ValueView>,
    offset: Option<ValueView>,
    ordered: bool,
)
    ensures
        bound_values(limit_and_offset(d, limit, offset, ordered)) == values_of_limits(
            d,
            limit,
            offset,
            ordered,
        ),
{
    broadcast use {
        lemma_text_binds_nothing,
        lemma_param_binds_its_value,
        lemma_nothing_binds_nothing,
        lemma_then_binds_in_order,
    };

    reveal(limit_and_offset);
    let r = limit_and_offset(d, limit, offset, ordered);
    lemma_limits_succeed(d, limit, offset, ordered);
    assert(bound_values(r) =~= values_of_limits(d, limit, offset, ordered));
}

/// `LIMIT` and `OFFSET` are never refused.
proof fn lemma_limits_succeed(
    d: Dialect,
    limit: Option<ValueView>,
    offset: Option<ValueView>,
    ordered: bool,
)
    ensures
        own(limit_and_offset(d, limit, offset, ordered)) is Ok,
{
    reveal(limit_and_offset);
}

/// Nothing is dropped, doubled or reordered in a row of parts: where the
/// row succeeds, every part succeeds, and the values are those of the
/// parts one after another.
pub proof fn lemma_concat_binds_in_order(items: Seq<Rendered>)
    requires
        all_compositional(items),
        own(concat(items)) is Ok,
    ensures
        forall|i: int| 0 <= i < items.len() ==> own(#[trigger] items[i]) is Ok,
        bound_values(concat(items)) == flattened(
            Seq::new(items.len(), |i: int| bound_values(items[i])),
        ),
    decreases items.len(),
{
    let parts = Seq::new(items.len(), |i: int| bound_values(items[i]));
    if items.len() > 0 {
        let rest = items.drop_last();
        let last = items.last();
        let empty = Seq::<Piece>::empty();
        assert(compositional(last));
        assert(all_compositional(rest)) by {
            assert forall|i: int| 0 <= i < rest.len() implies compositional(#[trigger] rest[i]) by {
                assert(rest[i] == items[i]);
            }
        }
        let middle = concat_after(rest, empty)->Ok_0;
        assert(own(concat(rest)) is Ok);
        lemma_concat_binds_in_order(rest);
        lemma_appends(last, middle);
        assert(own(last) is Ok);
        lemma_params_of_add(middle, own(last)->Ok_0);
        let before = Seq::new(rest.len(), |i: int| bound_values(rest[i]));
        assert(parts.drop_last() =~= before);
        assert(parts.last() == bound_values(last));
        assert forall|i: int| 0 <= i < items.len() implies own(#[trigger] items[i]) is Ok by {
            if i < rest.len() {
                assert(rest[i] == items[i]);
            }
        }
    }
}

/// The table and the condition of a join.
pub open spec fn join_data(j: JoinView) -> JoinDataView {
    match j {
        JoinView::Inner(data) => data,
        JoinView::Left(data) => data,
        JoinView::Right(data) => data,
        JoinView::Full(data) => data,
    }
}

/// True for a join with a table that is a name, on a plain condition.
pub open spec fn plain_join(j: JoinView) -> bool {
    join_data(j).table.typ is Table && plain_conditions(join_data(j).conditions)
}

/// The values of the condition of each join.
pub open spec fn values_of_joins(js: Seq<JoinView>) -> Seq<Seq<ValueView>> {
    Seq::new(js.len(), |i: int| values_of_conditions(join_data(js[i]).conditions))
}

/// A table that is a name binds nothing.
proof fn lemma_named_table_binds_nothing(d: Dialect, t: TableView, include_alias: bool)
    requires
        t.typ is Table,
    ensures
        bound_values(render_table(d, t, include_alias)) == Seq::<ValueView>::empty(),
{
    broadcast use {lemma_text_binds_nothing, lemma_nothing_binds_nothing, lemma_then_binds_in_order};

    reveal(render_table);
    reveal(table_name);
    reveal(alias_suffix);
    reveal(quoted);
}

/// A join with a table that is a name binds what its condition binds.
proof fn lemma_join_step(d: Dialect, j: JoinView)
    requires
        join_data(j).table.typ is Table,
        own(render_join(d, j)) is Ok,
        compositional(render_table(d, join_data(j).table, true)),
        compositional(render_conditions(d, join_data(j).conditions)),
        bound_values(render_table(d, join_data(j).table, true)) == Seq::<ValueView>::empty(),
    ensures
        own(render_conditions(d, join_data(j).conditions)) is Ok,
        bound_values(render_join(d, j)) == bound_values(
            render_conditions(d, join_data(j).conditions),
        ),
{
    reveal(render_join);
    reveal(render_join_data);
    reveal(render_conditions);
    reveal(render_table);
    let data = join_data(j);
    let keyword = match j {
        JoinView::Inner(_) => " INNER JOIN "@,
        JoinView::Left(_) => " LEFT JOIN "@,
        JoinView::Right(_) => " RIGHT JOIN "@,
        JoinView::Full(_) => " FULL JOIN "@,
    };
    let table = render_table(d, data.table, true);
    let conditions = render_conditions(d, data.conditions);
    let on = then(text(" ON "@), conditions);
    assert(render_join_data(d, data) == then(table, on));
    assert(render_join(d, j) == then(text(keyword), then(table, on)));
    lemma_text_composes(" ON "@);
    lemma_then_composes(text(" ON "@), conditions);
    lemma_then_composes(table, on);
    lemma_keyword_binds_nothing(keyword, then(table, on));
    lemma_then_binds_in_order(table, on);
    lemma_keyword_binds_nothing(" ON "@, conditions);
    assert(bound_values(table) + bound_values(on) =~= bound_values(conditions));
}

/// A plain join binds the values of its condition.
proof fn lemma_join_binds_its_values(d: Dialect, j: JoinView)
    requires
        plain_join(j),
        own(render_join(d, j)) is Ok,
    ensures
        bound_values(render_join(d, j)) == values_of_conditions(join_data(j).conditions),
{
    let data = join_data(j);
    lemma_conditions_compose(d, data.conditions);
    lemma_conditions_bind_their_values(d, data.conditions);
    lemma_table_composes(d, data.table, true);
    lemma_named_table_binds_nothing(d, data.table, true);
    lemma_join_step(d, j);
}

/// Plain joins bind the values of their conditions, one after another.
proof fn lemma_joins_bind_their_values(d: Dialect, js: Seq<JoinView>)
    requires
        forall|i: int| 0 <= i < js.len() ==> plain_join(#[trigger] js[i]),
        own(concat(render_joins(d, js))) is Ok,
    ensures
        bound_values(concat(render_joins(d, js))) == flattened(values_of_joins(js)),
{
    let items = render_joins(d, js);
    lemma_joins_compose(d, js);
    lemma_concat_binds_in_order(items);
    reveal(render_join);
    assert forall|i: int| 0 <= i < items.len() implies bound_values(#[trigger] items[i])
        == values_of_conditions(join_data(js[i]).conditions) by {
        assert(items[i] == render_join(d, js[i]));
        assert(own(items[i]) is Ok);
        lemma_join_binds_its_values(d, js[i]);
    }
    assert(Seq::new(items.len(), |i: int| bound_values(items[i])) =~= values_of_joins(js));
}

/// True for a select of plain expressions from tables that are names,
/// joined with such tables on plain conditions, without common table
/// expressions.
pub open spec fn plain_select(s: SelectView) -> bool {
    &&& s.ctes.len() == 0
    &&& forall|i: int| 0 <= i < s.joins.len() ==> plain_join(#[trigger] s.joins[i])
    &&& forall|i: int| 0 <= i < s.tables.len() ==> (#[trigger] s.tables[i]).typ is Table
    &&& all_plain(s.columns)
    &&& s.conditions matches Some(t) ==> plain_conditions(t)
    &&& all_plain(s.grouping)
    &&& s.having matches Some(t) ==> plain_conditions(t)
    &&& forall|i: int| 0 <= i < s.ordering.len() ==> plain((#[trigger] s.ordering[i]).expression)
}

/// The values of the expressions by which a select orders.
pub open spec fn values_of_ordering(os: Seq<OrderDefinitionView>) -> Seq<Seq<ValueView>> {
    Seq::new(os.len(), |i: int| values_of(os[i].expression))
}

/// The values of a plain select in the order in which it is visited:
/// those of the projection, of the joins, of `WHERE`, of `GROUP BY`, of `HAVING`, of
/// `ORDER BY`, then those of `LIMIT` and `OFFSET`. A select from no
/// table has its projection alone.
pub open spec fn values_of_select(d: Dialect, s: SelectView) -> Seq<ValueView> {
    if s.tables.len() == 0 {
        flattened(values_of_each(s.columns))
    } else {
        flattened(values_of_each(s.columns)) + flattened(values_of_joins(s.joins)) + (match s.conditions {
            Some(t) => values_of_conditions(t),
            None => Seq::empty(),
        }) + flattened(values_of_each(s.grouping)) + (match s.having {
            Some(t) => values_of_conditions(t),
            None => Seq::empty(),
        }) + flattened(values_of_ordering(s.ordering)) + values_of_limits(
            d,
            s.limit,
            s.offset,
            s.ordering.len() > 0,
        )
    }
}

/// The tables of a plain select bind nothing.
proof fn lemma_tables_bind_nothing(d: Dialect, s: SelectView)
    requires
        plain_select(s),
    ensures
        bound_values(join(render_tables(d, s.tables), ", "@)) == Seq::<ValueView>::empty(),
        bound_values(join(render_stars(d, s.tables), ", "@)) == Seq::<ValueView>::empty(),
{
    broadcast use {lemma_text_binds_nothing, lemma_nothing_binds_nothing, lemma_then_binds_in_order};

    reveal(render_table);
    reveal(render_star);
    reveal(table_name);
    reveal(alias_suffix);
    reveal(quoted);
    lemma_tables_compose(d, s.tables);
    let tables = render_tables(d, s.tables);
    assert forall|i: int| 0 <= i < tables.len() implies bound_values(#[trigger] tables[i])
        == Seq::<ValueView>::empty() by {
        assert(s.tables[i].typ is Table);
        assert(tables[i] == render_table(d, s.tables[i], true));
        assert(compositional(tables[i]));
    }
    lemma_join_binds_nothing(tables, ", "@);
    let stars = render_stars(d, s.tables);
    assert forall|i: int| 0 <= i < stars.len() implies bound_values(#[trigger] stars[i])
        == Seq::<ValueView>::empty() by {
        assert(s.tables[i].typ is Table);
        assert(stars[i] == render_star(d, s.tables[i]));
    }
    lemma_join_binds_nothing(stars, ", "@);
}

/// The ordering of a plain select binds the values of its expressions.
proof fn lemma_ordering_binds_its_values(d: Dialect, s: SelectView)
    requires
        plain_select(s),
    ensures
        binds_exactly(
            join(render_order_definitions(d, s.ordering), ", "@),
            flattened(values_of_ordering(s.ordering)),
        ),
{
    broadcast use {lemma_text_binds_nothing, lemma_then_binds_in_order};

    let items = render_order_definitions(d, s.ordering);
    lemma_order_definitions_compose(d, s.ordering);
    reveal(render_expression);
    if own(join(items, ", "@)) is Ok {
        lemma_join_binds_in_order(items, ", "@);
        assert forall|i: int| 0 <= i < items.len() implies bound_values(#[trigger] items[i])
            == values_of(s.ordering[i].expression) by {
            let e = s.ordering[i].expression;
            lemma_expression_binds_its_values(d, e);
            lemma_expression_composes(d, e);
            assert(items[i] == then(render_expression(d, e), text(direction_text(s.ordering[i].order))));
            assert(own(items[i]) is Ok);
            assert(bound_values(items[i]) =~= values_of(e));
        }
        assert(Seq::new(items.len(), |i: int| bound_values(items[i])) =~= values_of_ordering(
            s.ordering,
        ));
    }
}

/// What follows the projection of a select from tables: `FROM`, the
/// joins, `WHERE`, `GROUP BY`, `HAVING`, `ORDER BY`, then `LIMIT` and
/// `OFFSET`.
pub open spec fn clauses(
    tables: Rendered,
    joins: Rendered,
    conditions: Rendered,
    grouping: Rendered,
    having: Rendered,
    ordering: Rendered,
    limits: Rendered,
) -> Rendered {
    then(
        text(" FROM "@),
        then(
            tables,
            then(joins, then(conditions, then(grouping, then(having, then(ordering, limits))))),
        ),
    )
}

/// A keyword before a part binds nothing of its own.
proof fn lemma_keyword_binds_nothing(keyword: Seq<char>, part: Rendered)
    requires
        compositional(part),
        own(then(text(keyword), part)) is Ok,
    ensures
        own(part) is Ok,
        bound_values(then(text(keyword), part)) == bound_values(part),
{
    lemma_text_binds_nothing(keyword);
    lemma_then_binds_in_order(text(keyword), part);
    assert(bound_values(text(keyword)) + bound_values(part) =~= bound_values(part));
}

/// The clauses of a select bind their values one after another.
proof fn lemma_clauses_bind_in_order(
    projection: Rendered,
    tables: Rendered,
    joins: Rendered,
    conditions: Rendered,
    grouping: Rendered,
    having: Rendered,
    ordering: Rendered,
    limits: Rendered,
)
    requires
        compositional(projection),
        compositional(tables),
        compositional(joins),
        compositional(conditions),
        compositional(grouping),
        compositional(having),
        compositional(ordering),
        compositional(limits),
        own(
            then(projection, clauses(tables, joins, conditions, grouping, having, ordering, limits)),
        ) is Ok,
    ensures
        own(projection) is Ok,
        own(tables) is Ok,
        own(joins) is Ok,
        own(conditions) is Ok,
        own(grouping) is Ok,
        own(having) is Ok,
        own(ordering) is Ok,
        own(limits) is Ok,
        bound_values(
            then(projection, clauses(tables, joins, conditions, grouping, having, ordering, limits)),
        ) == bound_values(projection) + bound_values(tables) + bound_values(joins) + bound_values(
            conditions,
        ) + bound_values(grouping) + bound_values(having) + bound_values(ordering) + bound_values(
            limits,
        ),
{
    let after_having = then(ordering, limits);
    let after_grouping = then(having, after_having);
    let after_conditions = then(grouping, after_grouping);
    let after_joins = then(conditions, after_conditions);
    let after_tables = then(joins, after_joins);
    let after_from = then(tables, after_tables);
    let rest = clauses(tables, joins, conditions, grouping, having, ordering, limits);
    lemma_then_binds_in_order(projection, rest);
    lemma_keyword_binds_nothing(" FROM "@, after_from);
    lemma_then_binds_in_order(tables, after_tables);
    lemma_then_binds_in_order(joins, after_joins);
    lemma_then_binds_in_order(conditions, after_conditions);
    lemma_then_binds_in_order(grouping, after_grouping);
    lemma_then_binds_in_order(having, after_having);
    lemma_then_binds_in_order(ordering, limits);
    assert(bound_values(then(projection, rest)) =~= bound_values(projection) + bound_values(tables)
        + bound_values(joins) + bound_values(conditions) + bound_values(grouping) + bound_values(
        having,
    ) + bound_values(ordering) + bound_values(limits));
}

/// The projection of a select: what it selects, or everything of its
/// tables.
pub open spec fn projection_of(d: Dialect, s: SelectView) -> Rendered {
    if s.columns.len() == 0 {
        join(render_stars(d, s.tables), ", "@)
    } else {
        join(render_expressions(d, s.columns), ", "@)
    }
}

/// A condition after its keyword, where there is one.
pub open spec fn condition_clause(
    d: Dialect,
    keyword: Seq<char>,
    conditions: Option<ConditionTreeView>,
) -> Rendered {
    match conditions {
        Some(t) => then(text(keyword), render_conditions(d, t)),
        None => nothing(),
    }
}

/// A list after its keyword, where it has items.
pub open spec fn list_clause(keyword: Seq<char>, items: Seq<Rendered>) -> Rendered {
    only_if(items.len() > 0, then(text(keyword), join(items, ", "@)))
}

/// A select from tables without common table expressions is `SELECT`,
/// its projection and its clauses.
proof fn lemma_select_shape(d: Dialect, s: SelectView)
    requires
        s.ctes.len() == 0,
        s.tables.len() > 0,
    ensures
        render_select(d, s) == then(
            nothing(),
            then(
                text("SELECT "@),
                then(
                    only_if(s.distinct, text("DISTINCT "@)),
                    then(
                        projection_of(d, s),
                        clauses(
                            join(render_tables(d, s.tables), ", "@),
                            concat(render_joins(d, s.joins)),
                            condition_clause(d, " WHERE "@, s.conditions),
                            list_clause(" GROUP BY "@, render_expressions(d, s.grouping)),
                            condition_clause(d, " HAVING "@, s.having),
                            list_clause(" ORDER BY "@, render_order_definitions(d, s.ordering)),
                            limit_and_offset(d, s.limit, s.offset, s.ordering.len() > 0),
                        ),
                    ),
                ),
            ),
        ),
{
    reveal(render_select);
    reveal(render_conditions);
    reveal(with_clause);
    assert(render_ctes(d, s.ctes).len() == 0);
}

/// A select from no table without common table expressions is `SELECT`
/// and its projection.
proof fn lemma_bare_select_shape(d: Dialect, s: SelectView)
    requires
        s.ctes.len() == 0,
        s.tables.len() == 0,
    ensures
        render_select(d, s) == then(
            nothing(),
            then(
                text("SELECT "@),
                then(
                    only_if(s.distinct, text("DISTINCT "@)),
                    if s.columns.len() == 0 {
                        text(" *"@)
                    } else {
                        join(render_expressions(d, s.columns), ", "@)
                    },
                ),
            ),
        ),
{
    reveal(render_select);
    reveal(with_clause);
    assert(render_ctes(d, s.ctes).len() == 0);
}

/// What stands before the projection binds nothing.
proof fn lemma_select_head_binds_nothing(distinct: bool, body: Rendered)
    requires
        compositional(body),
        own(then(nothing(), then(text("SELECT "@), then(only_if(distinct, text("DISTINCT "@)), body))))
            is Ok,
    ensures
        own(body) is Ok,
        bound_values(
            then(nothing(), then(text("SELECT "@), then(only_if(distinct, text("DISTINCT "@)), body))),
        ) == bound_values(body),
{
    let word = only_if(distinct, text("DISTINCT "@));
    lemma_nothing_binds_nothing(nothing());
    lemma_text_binds_nothing("DISTINCT "@);
    lemma_nothing_composes(nothing());
    lemma_text_composes("DISTINCT "@);
    lemma_text_composes("SELECT "@);
    lemma_then_composes(word, body);
    lemma_then_composes(text("SELECT "@), then(word, body));
    lemma_then_binds_in_order(nothing(), then(text("SELECT "@), then(word, body)));
    lemma_keyword_binds_nothing("SELECT "@, then(word, body));
    lemma_then_binds_in_order(word, body);
    assert(bound_values(word) + bound_values(body) =~= bound_values(body));
    assert(Seq::<ValueView>::empty() + bound_values(body) =~= bound_values(body));
}

/// A condition after its keyword binds the values of the condition.
proof fn lemma_condition_clause_binds(
    d: Dialect,
    keyword: Seq<char>,
    conditions: Option<ConditionTreeView>,
)
    requires
        conditions matches Some(t) ==> plain_conditions(t),
        own(condition_clause(d, keyword, conditions)) is Ok,
    ensures
        compositional(condition_clause(d, keyword, conditions)),
        bound_values(condition_clause(d, keyword, conditions)) == match conditions {
            Some(t) => values_of_conditions(t),
            None => Seq::<ValueView>::empty(),
        },
{
    match conditions {
        Some(t) => {
            lemma_conditions_compose(d, t);
            lemma_conditions_bind_their_values(d, t);
            lemma_text_composes(keyword);
            lemma_then_composes(text(keyword), render_conditions(d, t));
            lemma_keyword_binds_nothing(keyword, render_conditions(d, t));
        },
        None => {
            lemma_nothing_composes(nothing());
            lemma_nothing_binds_nothing(nothing());
        },
    }
}

/// A list after its keyword binds the values of its items.
proof fn lemma_list_clause_binds(keyword: Seq<char>, items: Seq<Rendered>, values: Seq<Seq<ValueView>>)
    requires
        all_compositional(items),
        binds_exactly(join(items, ", "@), flattened(values)),
        items.len() == values.len(),
        own(list_clause(keyword, items)) is Ok,
    ensures
        compositional(list_clause(keyword, items)),
        bound_values(list_clause(keyword, items)) == flattened(values),
{
    lemma_join_composes(items, ", "@);
    lemma_text_composes(keyword);
    lemma_then_composes(text(keyword), join(items, ", "@));
    lemma_nothing_composes(nothing());
    if items.len() > 0 {
        lemma_keyword_binds_nothing(keyword, join(items, ", "@));
    } else {
        lemma_nothing_binds_nothing(nothing());
        assert(flattened(values) =~= Seq::<ValueView>::empty());
    }
}

/// No value is dropped, doubled or reordered: a plain select that is
/// written binds exactly its values to be bound, in the order of its
/// clauses.
pub proof fn lemma_select_binds_its_values(d: Dialect, s: SelectView)
    requires
        plain_select(s),
        own(render_select(d, s)) is Ok,
    ensures
        bound_values(render_select(d, s)) == values_of_select(d, s),
{
    lemma_expressions_compose(d, s.columns);
    lemma_expressions_bind_their_values(d, s.columns, ", "@);
    lemma_join_composes(render_expressions(d, s.columns), ", "@);
    if s.tables.len() == 0 {
        lemma_bare_select_shape(d, s);
        let body = if s.columns.len() == 0 {
            text(" *"@)
        } else {
            join(render_expressions(d, s.columns), ", "@)
        };
        lemma_text_composes(" *"@);
        lemma_text_binds_nothing(" *"@);
        lemma_select_head_binds_nothing(s.distinct, body);
        if s.columns.len() == 0 {
            assert(values_of_each(s.columns) =~= Seq::<Seq<ValueView>>::empty());
            assert(flattened(values_of_each(s.columns)) =~= Seq::<ValueView>::empty());
        }
    } else {
        lemma_select_shape(d, s);
        let projection = projection_of(d, s);
        let tables = join(render_tables(d, s.tables), ", "@);
        let joins = concat(render_joins(d, s.joins));
        let conditions = condition_clause(d, " WHERE "@, s.conditions);
        let grouping = list_clause(" GROUP BY "@, render_expressions(d, s.grouping));
        let having = condition_clause(d, " HAVING "@, s.having);
        let ordering = list_clause(" ORDER BY "@, render_order_definitions(d, s.ordering));
        let limits = limit_and_offset(d, s.limit, s.offset, s.ordering.len() > 0);
        let rest = clauses(tables, joins, conditions, grouping, having, ordering, limits);
        lemma_select_composes(d, s);
        lemma_select_parts_compose(d, s);
        lemma_select_head_binds_nothing(s.distinct, then(projection, rest));
        lemma_clauses_bind_in_order(
            projection,
            tables,
            joins,
            conditions,
            grouping,
            having,
            ordering,
            limits,
        );
        lemma_tables_bind_nothing(d, s);
        if s.columns.len() == 0 {
            assert(values_of_each(s.columns) =~= Seq::<Seq<ValueView>>::empty());
            assert(flattened(values_of_each(s.columns)) =~= Seq::<ValueView>::empty());
        }
        lemma_joins_bind_their_values(d, s.joins);
        lemma_condition_clause_binds(d, " WHERE "@, s.conditions);
        lemma_condition_clause_binds(d, " HAVING "@, s.having);
        lemma_expressions_compose(d, s.grouping);
        lemma_expressions_bind_their_values(d, s.grouping, ", "@);
        lemma_list_clause_binds(
            " GROUP BY "@,
            render_expressions(d, s.grouping),
            values_of_each(s.grouping),
        );
        lemma_order_definitions_compose(d, s.ordering);
        lemma_ordering_binds_its_values(d, s);
        lemma_list_clause_binds(
            " ORDER BY "@,
            render_order_definitions(d, s.ordering),
            values_of_ordering(s.ordering),
        );
        lemma_limits_bind_their_values(d, s.limit, s.offset, s.ordering.len() > 0);
        assert(bound_values(render_select(d, s)) =~= values_of_select(d, s));
    }
}

/// The parts of a select are compositional.
proof fn lemma_select_parts_compose(d: Dialect, s: SelectView)
    ensures
        compositional(projection_of(d, s)),
        compositional(join(render_tables(d, s.tables), ", "@)),
        compositional(concat(render_joins(d, s.joins))),
        compositional(condition_clause(d, " WHERE "@, s.conditions)),
        compositional(list_clause(" GROUP BY "@, render_expressions(d, s.grouping))),
        compositional(condition_clause(d, " HAVING "@, s.having)),
        compositional(list_clause(" ORDER BY "@, render_order_definitions(d, s.ordering))),
        compositional(limit_and_offset(d, s.limit, s.offset, s.ordering.len() > 0)),
        compositional(
            then(
                projection_of(d, s),
                clauses(
                    join(render_tables(d, s.tables), ", "@),
                    concat(render_joins(d, s.joins)),
                    condition_clause(d, " WHERE "@, s.conditions),
                    list_clause(" GROUP BY "@, render_expressions(d, s.grouping)),
                    condition_clause(d, " HAVING "@, s.having),
                    list_clause(" ORDER BY "@, render_order_definitions(d, s.ordering)),
                    limit_and_offset(d, s.limit, s.offset, s.ordering.len() > 0),
                ),
            ),
        ),
{
    lemma_ctes_compose(d, s.ctes);
    lemma_expressions_compose(d, s.columns);
    lemma_tables_compose(d, s.tables);
    lemma_joins_compose(d, s.joins);
    lemma_expressions_compose(d, s.grouping);
    lemma_order_definitions_compose(d, s.ordering);
    match s.conditions {
        Some(t) => lemma_conditions_compose(d, t),
        None => {},
    }
    match s.having {
        Some(t) => lemma_conditions_compose(d, t),
        None => {},
    }
}

/// On a dialect that compiles a select as it stands, the values that
/// come back for a plain select are exactly its values to be bound, in
/// the order of its clauses.
pub proof fn lemma_compiled_select_binds_its_values(d: Dialect, s: SelectView, pieces: Seq<Piece>)
    requires
        d.compares_rows(),
        plain_select(s),
        compiled(d, QueryView::Select(Box::new(s))) == Ok::<Seq<Piece>, Fault>(pieces),
    ensures
        params_of(pieces) == values_of_select(d, s),
{
    reveal(render_query);
    lemma_select_binds_its_values(d, s);
}

} // verus!

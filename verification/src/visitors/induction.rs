//! Every node is compositional, by induction on the syntax tree: it
//! writes the same pieces whatever was written before it, so that the
//! pieces of a statement are those of its parts in the order of the
//! syntax.

use vstd::prelude::*;
use crate::ast::model::{
    ColumnView,
    CommonTableExpressionView,
    CompareView,
    ConditionTreeView,
    DeleteView,
    ExpressionKindView,
    ExpressionView,
    FunctionTypeView,
    FunctionView,
    InsertView,
    JoinDataView,
    JoinView,
    JsonExtractView,
    MergeView,
    OrderDefinitionView,
    OverView,
    QueryView,
    RowView,
    SelectQueryView,
    SelectView,
    TableTypeView,
    TableView,
    TextSearchView,
    UnionView,
    UpdateView,
    ValuesView,
};
use crate::ast::node::{TypeFamily, UnionType};
use crate::ast::value::ValueView;
use crate::dialect::Dialect;
use crate::visitors::compose::{
    after,
    all_compositional,
    compositional,
    lemma_appends,
    own,
};
use crate::visitors::independence::all_rows_compositional;
use crate::visitors::model::{join, surround, text, then, Piece, Rendered};
use crate::visitors::syntax::{
    alias_suffix,
    bare_names,
    generated_keys_condition,
    generated_keys_declaration,
    generated_keys_select,
    insert_columns,
    insert_source,
    key_columns,
    key_pair,
    key_pairs,
    limit_and_offset,
    output_clause,
    qualified,
    qualified_columns,
    quoted,
    quoted_names,
    render_assignments,
    render_column,
    render_columns,
    render_compare,
    render_conditions,
    render_cte,
    render_ctes,
    render_delete,
    render_equality,
    render_expression,
    render_expressions,
    render_function,
    render_insert,
    render_insert_mssql,
    render_insert_mysql,
    render_insert_postgres,
    render_insert_sqlite,
    render_join,
    render_join_data,
    render_joins,
    render_json_extract,
    render_last_items,
    render_membership,
    render_merge,
    render_order_definitions,
    render_partitioning,
    render_query,
    render_row,
    render_row_items,
    render_select,
    render_selection,
    render_star,
    render_stars,
    render_table,
    render_tables,
    render_text_search,
    render_tuple_membership,
    render_union,
    render_united,
    render_update,
    render_values,
    rows_in_parentheses,
    table_name,
    text_params,
    tuple_comparison,
    tuple_expansion,
    tuple_groups,
    tuple_pairs,
    type_family,
    with_clause,
};

verus! {

broadcast use {
    vstd::seq::group_seq_axioms,
    crate::visitors::compose::group_composition,
    crate::visitors::independence::group_syntax_composition,
};

/// The items are compositional where each of them is.
pub proof fn lemma_expressions_step(d: Dialect, xs: Seq<ExpressionView>)
    requires
        forall|i: int| 0 <= i < xs.len() ==> compositional(#[trigger] render_expression(d, xs[i])),
    ensures
        all_compositional(render_expressions(d, xs)),
{
    reveal(render_expression);
    assert forall|i: int| 0 <= i < render_expressions(d, xs).len() implies compositional(
        #[trigger] render_expressions(d, xs)[i],
    ) by {
        assert(compositional(render_expression(d, xs[i])));
    }
}

pub proof fn lemma_expressions_compose(d: Dialect, xs: Seq<ExpressionView>)
    ensures
        all_compositional(render_expressions(d, xs)),
    decreases xs,
{
    assert forall|i: int| 0 <= i < xs.len() implies compositional(#[trigger] render_expression(d, xs[i])) by {
        lemma_expression_composes(d, xs[i]);
    }
    lemma_expressions_step(d, xs);
}

/// The items are compositional where each of them is.
pub proof fn lemma_columns_step(d: Dialect, xs: Seq<ColumnView>)
    requires
        forall|i: int| 0 <= i < xs.len() ==> compositional(#[trigger] render_column(d, xs[i])),
    ensures
        all_compositional(render_columns(d, xs)),
{
    reveal(render_column);
    assert forall|i: int| 0 <= i < render_columns(d, xs).len() implies compositional(
        #[trigger] render_columns(d, xs)[i],
    ) by {
        assert(compositional(render_column(d, xs[i])));
    }
}

pub proof fn lemma_columns_compose(d: Dialect, xs: Seq<ColumnView>)
    ensures
        all_compositional(render_columns(d, xs)),
    decreases xs,
{
    assert forall|i: int| 0 <= i < xs.len() implies compositional(#[trigger] render_column(d, xs[i])) by {
        lemma_column_composes(d, xs[i]);
    }
    lemma_columns_step(d, xs);
}

/// The items are compositional where each of them is.
pub proof fn lemma_tables_step(d: Dialect, xs: Seq<TableView>)
    requires
        forall|i: int| 0 <= i < xs.len() ==> compositional(#[trigger] render_table(d, xs[i], true)),
    ensures
        all_compositional(render_tables(d, xs)),
{
    reveal(render_table);
    assert forall|i: int| 0 <= i < render_tables(d, xs).len() implies compositional(
        #[trigger] render_tables(d, xs)[i],
    ) by {
        assert(compositional(render_table(d, xs[i], true)));
    }
}

pub proof fn lemma_tables_compose(d: Dialect, xs: Seq<TableView>)
    ensures
        all_compositional(render_tables(d, xs)),
    decreases xs,
{
    assert forall|i: int| 0 <= i < xs.len() implies compositional(#[trigger] render_table(d, xs[i], true)) by {
        lemma_table_composes(d, xs[i], true);
    }
    lemma_tables_step(d, xs);
}

/// The items are compositional where each of them is.
pub proof fn lemma_joins_step(d: Dialect, xs: Seq<JoinView>)
    requires
        forall|i: int| 0 <= i < xs.len() ==> compositional(#[trigger] render_join(d, xs[i])),
    ensures
        all_compositional(render_joins(d, xs)),
{
    reveal(render_join);
    assert forall|i: int| 0 <= i < render_joins(d, xs).len() implies compositional(
        #[trigger] render_joins(d, xs)[i],
    ) by {
        assert(compositional(render_join(d, xs[i])));
    }
}

pub proof fn lemma_joins_compose(d: Dialect, xs: Seq<JoinView>)
    ensures
        all_compositional(render_joins(d, xs)),
    decreases xs,
{
    assert forall|i: int| 0 <= i < xs.len() implies compositional(#[trigger] render_join(d, xs[i])) by {
        lemma_join_composes_node(d, xs[i]);
    }
    lemma_joins_step(d, xs);
}

/// The items are compositional where each of them is.
pub proof fn lemma_order_definitions_step(d: Dialect, xs: Seq<OrderDefinitionView>)
    requires
        forall|i: int| 0 <= i < xs.len() ==> compositional(#[trigger] render_expression(d, xs[i].expression)),
    ensures
        all_compositional(render_order_definitions(d, xs)),
{
    reveal(render_expression);
    assert forall|i: int| 0 <= i < render_order_definitions(d, xs).len() implies compositional(
        #[trigger] render_order_definitions(d, xs)[i],
    ) by {
        assert(compositional(render_expression(d, xs[i].expression)));
    }
}

pub proof fn lemma_order_definitions_compose(d: Dialect, xs: Seq<OrderDefinitionView>)
    ensures
        all_compositional(render_order_definitions(d, xs)),
    decreases xs,
{
    assert forall|i: int| 0 <= i < xs.len() implies compositional(#[trigger] render_expression(d, xs[i].expression)) by {
        lemma_expression_composes(d, xs[i].expression);
    }
    lemma_order_definitions_step(d, xs);
}

/// The items are compositional where each of them is.
pub proof fn lemma_ctes_step(d: Dialect, xs: Seq<CommonTableExpressionView>)
    requires
        forall|i: int| 0 <= i < xs.len() ==> compositional(#[trigger] render_cte(d, xs[i])),
    ensures
        all_compositional(render_ctes(d, xs)),
{
    reveal(render_cte);
    assert forall|i: int| 0 <= i < render_ctes(d, xs).len() implies compositional(
        #[trigger] render_ctes(d, xs)[i],
    ) by {
        assert(compositional(render_cte(d, xs[i])));
    }
}

pub proof fn lemma_ctes_compose(d: Dialect, xs: Seq<CommonTableExpressionView>)
    ensures
        all_compositional(render_ctes(d, xs)),
    decreases xs,
{
    assert forall|i: int| 0 <= i < xs.len() implies compositional(#[trigger] render_cte(d, xs[i])) by {
        lemma_cte_composes(d, xs[i]);
    }
    lemma_ctes_step(d, xs);
}

/// The items are compositional where each of them is.
pub proof fn lemma_united_step(d: Dialect, xs: Seq<SelectView>, types: Seq<UnionType>)
    requires
        forall|i: int| 0 <= i < xs.len() ==> compositional(#[trigger] render_select(d, xs[i])),
    ensures
        all_compositional(render_united(d, xs, types)),
{
    reveal(render_select);
    assert forall|i: int| 0 <= i < render_united(d, xs, types).len() implies compositional(
        #[trigger] render_united(d, xs, types)[i],
    ) by {
        assert(compositional(render_select(d, xs[i])));
    }
}

pub proof fn lemma_united_compose(d: Dialect, xs: Seq<SelectView>, types: Seq<UnionType>)
    ensures
        all_compositional(render_united(d, xs, types)),
    decreases xs,
{
    assert forall|i: int| 0 <= i < xs.len() implies compositional(#[trigger] render_select(d, xs[i])) by {
        lemma_select_composes(d, xs[i]);
    }
    lemma_united_step(d, xs, types);
}

/// The items of the rows are compositional where each of them is.
pub proof fn lemma_row_items_step(d: Dialect, rows: Seq<RowView>)
    requires
        forall|i: int|
            0 <= i < rows.len() ==> all_compositional(#[trigger] render_expressions(d, rows[i].values)),
    ensures
        all_rows_compositional(render_row_items(d, rows)),
{
    assert forall|i: int| 0 <= i < render_row_items(d, rows).len() implies all_compositional(
        #[trigger] render_row_items(d, rows)[i],
    ) by {
        assert(all_compositional(render_expressions(d, rows[i].values)));
    }
}

pub proof fn lemma_row_items_compose(d: Dialect, rows: Seq<RowView>)
    ensures
        all_rows_compositional(render_row_items(d, rows)),
    decreases rows,
{
    assert forall|i: int| 0 <= i < rows.len() implies all_compositional(
        #[trigger] render_expressions(d, rows[i].values),
    ) by {
        lemma_expressions_compose(d, rows[i].values);
    }
    lemma_row_items_step(d, rows);
}

/// The last items of the rows are compositional where each of them is.
pub proof fn lemma_last_items_step(d: Dialect, rows: Seq<RowView>)
    requires
        forall|i: int| 0 <= i < rows.len() ==> (#[trigger] rows[i]).values.len() > 0,
        forall|i: int|
            0 <= i < rows.len() ==> compositional(
                #[trigger] render_expression(d, rows[i].values.last()),
            ),
    ensures
        all_compositional(render_last_items(d, rows)),
{
    reveal(render_expression);
    assert forall|i: int| 0 <= i < render_last_items(d, rows).len() implies compositional(
        #[trigger] render_last_items(d, rows)[i],
    ) by {
        assert(rows[i].values.len() > 0);
        assert(compositional(render_expression(d, rows[i].values.last())));
    }
}

pub proof fn lemma_last_items_compose(d: Dialect, rows: Seq<RowView>)
    requires
        forall|i: int| 0 <= i < rows.len() ==> (#[trigger] rows[i]).values.len() > 0,
    ensures
        all_compositional(render_last_items(d, rows)),
    decreases rows,
{
    assert forall|i: int| 0 <= i < rows.len() implies compositional(
        #[trigger] render_expression(d, rows[i].values.last()),
    ) by {
        assert(rows[i].values.len() > 0);
        lemma_expression_composes(d, rows[i].values.last());
    }
    lemma_last_items_step(d, rows);
}

/// The assignments are compositional where their columns and values are.
pub proof fn lemma_assignments_step(d: Dialect, u: UpdateView)
    requires
        forall|i: int|
            0 <= i < u.columns.len() ==> compositional(#[trigger] render_column(d, u.columns[i])),
        forall|i: int|
            0 <= i < u.values.len() ==> compositional(
                #[trigger] render_expression(d, u.values[i]),
            ),
    ensures
        all_compositional(render_assignments(d, u)),
{
    reveal(render_column);
    reveal(render_expression);
    assert forall|i: int| 0 <= i < render_assignments(d, u).len() implies compositional(
        #[trigger] render_assignments(d, u)[i],
    ) by {
        assert(compositional(render_column(d, u.columns[i])));
        assert(compositional(render_expression(d, u.values[i])));
    }
}

/// A node is compositional where its parts are.
pub proof fn lemma_table_composes_step(d: Dialect, t: TableView, include_alias: bool)
    requires
        match t.typ {
            TableTypeView::Table(_) => true,
            TableTypeView::JoinedTable(_, joins) => all_compositional(render_joins(d, joins)),
            TableTypeView::Query(select) => compositional(render_select(d, *select)),
            TableTypeView::Values(values) => compositional(render_values(d, values)),
        },
    ensures
        compositional(render_table(d, t, include_alias)),
{
    reveal(render_select);
    reveal(render_values);
    reveal(render_table);
}

pub proof fn lemma_table_composes(d: Dialect, t: TableView, include_alias: bool)
    ensures
        compositional(render_table(d, t, include_alias)),
    decreases t,
{
    match t.typ {
        TableTypeView::Table(_) => {},
        TableTypeView::JoinedTable(_, joins) => lemma_joins_compose(d, joins),
        TableTypeView::Query(select) => lemma_select_composes(d, *select),
        TableTypeView::Values(values) => lemma_values_compose(d, values),
    }
    lemma_table_composes_step(d, t, include_alias);
}

/// A node is compositional where its parts are.
pub proof fn lemma_join_composes_node_step(d: Dialect, j: JoinView)
    requires
        match j {
            JoinView::Inner(data) => compositional(render_join_data(d, data)),
            JoinView::Left(data) => compositional(render_join_data(d, data)),
            JoinView::Right(data) => compositional(render_join_data(d, data)),
            JoinView::Full(data) => compositional(render_join_data(d, data)),
        },
    ensures
        compositional(render_join(d, j)),
{
    reveal(render_join_data);
    reveal(render_join);
}

pub proof fn lemma_join_composes_node(d: Dialect, j: JoinView)
    ensures
        compositional(render_join(d, j)),
    decreases j,
{
    match j {
        JoinView::Inner(data) => lemma_join_data_composes(d, data),
        JoinView::Left(data) => lemma_join_data_composes(d, data),
        JoinView::Right(data) => lemma_join_data_composes(d, data),
        JoinView::Full(data) => lemma_join_data_composes(d, data),
    }
    lemma_join_composes_node_step(d, j);
}

/// A node is compositional where its parts are.
pub proof fn lemma_join_data_composes_step(d: Dialect, data: JoinDataView)
    requires
        compositional(render_table(d, data.table, true)),
        compositional(render_conditions(d, data.conditions)),
    ensures
        compositional(render_join_data(d, data)),
{
    reveal(render_join_data);
    reveal(render_table);
    reveal(render_conditions);
}

pub proof fn lemma_join_data_composes(d: Dialect, data: JoinDataView)
    ensures
        compositional(render_join_data(d, data)),
    decreases data,
{
    lemma_table_composes(d, data.table, true);
    lemma_conditions_compose(d, data.conditions);
    lemma_join_data_composes_step(d, data);
}

/// A node is compositional where its parts are.
pub proof fn lemma_column_composes_step(d: Dialect, c: ColumnView)
    requires
        c.table matches Some(t) ==> compositional(render_table(d, t, false)),
    ensures
        compositional(render_column(d, c)),
{
    reveal(render_table);
    reveal(render_column);
}

pub proof fn lemma_column_composes(d: Dialect, c: ColumnView)
    ensures
        compositional(render_column(d, c)),
    decreases c,
{
    match c.table {
        Some(t) => lemma_table_composes(d, t, false),
        None => {},
    }
    lemma_column_composes_step(d, c);
}

/// A node is compositional where its parts are.
pub proof fn lemma_row_composes_step(d: Dialect, r: RowView)
    requires
        all_compositional(render_expressions(d, r.values)),
    ensures
        compositional(render_row(d, r)),
{
    reveal(render_row);
}

pub proof fn lemma_row_composes(d: Dialect, r: RowView)
    ensures
        compositional(render_row(d, r)),
    decreases r,
{
    lemma_expressions_compose(d, r.values);
    lemma_row_composes_step(d, r);
}

/// A node is compositional where its parts are.
pub proof fn lemma_values_compose_step(d: Dialect, v: ValuesView)
    requires
        all_rows_compositional(render_row_items(d, v.rows)),
    ensures
        compositional(render_values(d, v)),
{
    reveal(render_values);
}

pub proof fn lemma_values_compose(d: Dialect, v: ValuesView)
    ensures
        compositional(render_values(d, v)),
    decreases v,
{
    lemma_row_items_compose(d, v.rows);
    lemma_values_compose_step(d, v);
}

/// A node is compositional where its parts are.
pub proof fn lemma_selection_composes_step(d: Dialect, s: SelectQueryView)
    requires
        match s {
            SelectQueryView::Select(select) => compositional(render_select(d, *select)),
            SelectQueryView::Union(union) => compositional(render_union(d, *union)),
        },
    ensures
        compositional(render_selection(d, s)),
{
    reveal(render_select);
    reveal(render_union);
    reveal(render_selection);
}

pub proof fn lemma_selection_composes(d: Dialect, s: SelectQueryView)
    ensures
        compositional(render_selection(d, s)),
    decreases s,
{
    match s {
        SelectQueryView::Select(select) => lemma_select_composes(d, *select),
        SelectQueryView::Union(union) => lemma_union_composes(d, *union),
    }
    lemma_selection_composes_step(d, s);
}

/// A node is compositional where its parts are.
pub proof fn lemma_expression_composes_step(d: Dialect, e: ExpressionView)
    requires
        match e.kind {
            ExpressionKindView::Column(c) => compositional(render_column(d, *c)),
            ExpressionKindView::Row(r) => compositional(render_row(d, r)),
            ExpressionKindView::Selection(s) => compositional(render_selection(d, s)),
            ExpressionKindView::Function(f) => compositional(render_function(d, *f)),
            ExpressionKindView::Asterisk(Some(t)) => compositional(render_table(d, *t, false)),
            ExpressionKindView::Op(l, _, r) => compositional(render_expression(d, *l))
                && compositional(render_expression(d, *r)),
            ExpressionKindView::Values(v) => compositional(render_values(d, *v)),
            ExpressionKindView::ConditionTree(t) => compositional(render_conditions(d, t)),
            ExpressionKindView::Compare(c) => compositional(render_compare(d, c)),
            ExpressionKindView::Value(inner) => compositional(render_expression(d, *inner)),
            _ => true,
        },
    ensures
        compositional(render_expression(d, e)),
{
    reveal(render_column);
    reveal(render_row);
    reveal(render_selection);
    reveal(render_function);
    reveal(render_table);
    reveal(render_values);
    reveal(render_conditions);
    reveal(render_compare);
    reveal(render_expression);
}

pub proof fn lemma_expression_composes(d: Dialect, e: ExpressionView)
    ensures
        compositional(render_expression(d, e)),
    decreases e,
{
    match e.kind {
        ExpressionKindView::Column(c) => lemma_column_composes(d, *c),
        ExpressionKindView::Row(r) => lemma_row_composes(d, r),
        ExpressionKindView::Selection(s) => lemma_selection_composes(d, s),
        ExpressionKindView::Function(f) => lemma_function_composes(d, *f),
        ExpressionKindView::Asterisk(Some(t)) => lemma_table_composes(d, *t, false),
        ExpressionKindView::Op(l, _, r) => {
            lemma_expression_composes(d, *l);
            lemma_expression_composes(d, *r);
        },
        ExpressionKindView::Values(v) => lemma_values_compose(d, *v),
        ExpressionKindView::ConditionTree(t) => lemma_conditions_compose(d, t),
        ExpressionKindView::Compare(c) => lemma_compare_composes(d, c),
        ExpressionKindView::Value(inner) => lemma_expression_composes(d, *inner),
        _ => {},
    }
    lemma_expression_composes_step(d, e);
}

/// A node is compositional where its parts are.
pub proof fn lemma_conditions_compose_step(d: Dialect, t: ConditionTreeView)
    requires
        match t {
            ConditionTreeView::And(es) => all_compositional(render_expressions(d, es)),
            ConditionTreeView::Or(es) => all_compositional(render_expressions(d, es)),
            ConditionTreeView::Not(e) => compositional(render_expression(d, *e)),
            ConditionTreeView::Single(e) => compositional(render_expression(d, *e)),
            _ => true,
        },
    ensures
        compositional(render_conditions(d, t)),
{
    reveal(render_expression);
    reveal(render_conditions);
}

pub proof fn lemma_conditions_compose(d: Dialect, t: ConditionTreeView)
    ensures
        compositional(render_conditions(d, t)),
    decreases t,
{
    match t {
        ConditionTreeView::And(es) => lemma_expressions_compose(d, es),
        ConditionTreeView::Or(es) => lemma_expressions_compose(d, es),
        ConditionTreeView::Not(e) => lemma_expression_composes(d, *e),
        ConditionTreeView::Single(e) => lemma_expression_composes(d, *e),
        _ => {},
    }
    lemma_conditions_compose_step(d, t);
}

/// A node is compositional where its parts are.
pub proof fn lemma_equality_composes_step(d: Dialect, c: CompareView, negated: bool)
    requires
        match c {
            CompareView::Binary(l, _, r) => compositional(render_expression(d, *l))
                && compositional(render_expression(d, *r)),
            _ => true,
        },
        match c {
            CompareView::Binary(l, _, r) => match (l.kind, r.kind) {
                (ExpressionKindView::Row(lr), ExpressionKindView::Row(rr)) => all_compositional(
                    render_expressions(d, lr.values),
                ) && all_compositional(render_expressions(d, rr.values)),
                _ => true,
            },
            _ => true,
        },
    ensures
        compositional(render_equality(d, c, negated)),
{
    reveal(render_expression);
    reveal(render_equality);
}

pub proof fn lemma_equality_composes(d: Dialect, c: CompareView, negated: bool)
    ensures
        compositional(render_equality(d, c, negated)),
    decreases c, 0nat,
{
    match c {
        CompareView::Binary(l, _, r) => {
            lemma_expression_composes(d, *l);
            lemma_expression_composes(d, *r);
            match (l.kind, r.kind) {
                (ExpressionKindView::Row(lr), ExpressionKindView::Row(rr)) => {
                    lemma_expressions_compose(d, lr.values);
                    lemma_expressions_compose(d, rr.values);
                },
                _ => {},
            }
        },
        _ => {},
    }
    lemma_equality_composes_step(d, c, negated);
}

/// A node is compositional where its parts are.
pub proof fn lemma_tuple_membership_composes_step(d: Dialect, c: CompareView, negated: bool)
    requires
        match c {
            CompareView::Binary(l, _, r) => match (l.kind, r.kind) {
                (ExpressionKindView::Row(cols), ExpressionKindView::Values(vals)) => {
                    &&& all_compositional(render_expressions(d, cols.values))
                    &&& all_rows_compositional(render_row_items(d, vals.rows))
                    &&& cols.values.len() == 1 ==> compositional(
                        render_expression(d, cols.values[0]),
                    )
                    &&& crate::visitors::syntax::flattens(*vals) ==> all_compositional(
                        render_last_items(d, vals.rows),
                    )
                },
                _ => true,
            },
            _ => true,
        },
    ensures
        compositional(render_tuple_membership(d, c, negated)),
{
    reveal(render_expression);
    reveal(render_tuple_membership);
}

pub proof fn lemma_tuple_membership_composes(d: Dialect, c: CompareView, negated: bool)
    ensures
        compositional(render_tuple_membership(d, c, negated)),
    decreases c, 0nat,
{
    match c {
        CompareView::Binary(l, _, r) => match (l.kind, r.kind) {
            (ExpressionKindView::Row(cols), ExpressionKindView::Values(vals)) => {
                lemma_expressions_compose(d, cols.values);
                lemma_row_items_compose(d, vals.rows);
                if cols.values.len() == 1 {
                    lemma_expression_composes(d, cols.values[0]);
                }
                if crate::visitors::syntax::flattens(*vals) {
                    lemma_last_items_compose(d, vals.rows);
                }
            },
            _ => {},
        },
        _ => {},
    }
    lemma_tuple_membership_composes_step(d, c, negated);
}

/// A node is compositional where its parts are.
pub proof fn lemma_membership_composes_step(d: Dialect, c: CompareView, negated: bool)
    requires
        match c {
            CompareView::Binary(l, _, r) => compositional(render_expression(d, *l))
                && compositional(render_expression(d, *r)),
            _ => true,
        },
        compositional(render_tuple_membership(d, c, negated)),
    ensures
        compositional(render_membership(d, c, negated)),
{
    reveal(render_expression);
    reveal(render_tuple_membership);
    reveal(render_membership);
}

pub proof fn lemma_membership_composes(d: Dialect, c: CompareView, negated: bool)
    ensures
        compositional(render_membership(d, c, negated)),
    decreases c, 1nat,
{
    lemma_tuple_membership_composes(d, c, negated);
    match c {
        CompareView::Binary(l, _, r) => {
            lemma_expression_composes(d, *l);
            lemma_expression_composes(d, *r);
        },
        _ => {},
    }
    lemma_membership_composes_step(d, c, negated);
}

/// A node is compositional where its parts are.
pub proof fn lemma_compare_composes_step(d: Dialect, c: CompareView)
    requires
        match c {
            CompareView::Binary(l, _, r) => {
                &&& compositional(render_expression(d, *l))
                &&& compositional(render_expression(d, *r))
                &&& compositional(render_equality(d, c, false))
                &&& compositional(render_equality(d, c, true))
                &&& compositional(render_membership(d, c, false))
                &&& compositional(render_membership(d, c, true))
            },
            CompareView::Pattern(l, _, _) => compositional(render_expression(d, *l)),
            CompareView::Null(e) => compositional(render_expression(d, *e)),
            CompareView::NotNull(e) => compositional(render_expression(d, *e)),
            CompareView::Between(v, l, r) => compositional(render_expression(d, *v))
                && compositional(render_expression(d, *l)) && compositional(
                render_expression(d, *r),
            ),
            CompareView::NotBetween(v, l, r) => compositional(render_expression(d, *v))
                && compositional(render_expression(d, *l)) && compositional(
                render_expression(d, *r),
            ),
            CompareView::Raw(l, _, r) => compositional(render_expression(d, *l))
                && compositional(render_expression(d, *r)),
            CompareView::JsonArray(l, _, _, r) => compositional(render_expression(d, *l))
                && compositional(render_expression(d, *r)),
            CompareView::JsonType(l, _) => compositional(render_expression(d, *l)),
            CompareView::Matches(l, _, _) => compositional(render_expression(d, *l)),
        },
    ensures
        compositional(render_compare(d, c)),
{
    reveal(render_expression);
    reveal(render_equality);
    reveal(render_membership);
    reveal(render_compare);
}

pub proof fn lemma_compare_composes(d: Dialect, c: CompareView)
    ensures
        compositional(render_compare(d, c)),
    decreases c, 2nat,
{
    match c {
        CompareView::Binary(l, _, r) => {
            lemma_equality_composes(d, c, false);
            lemma_equality_composes(d, c, true);
            lemma_membership_composes(d, c, false);
            lemma_membership_composes(d, c, true);
            lemma_expression_composes(d, *l);
            lemma_expression_composes(d, *r);
        },
        CompareView::Pattern(l, _, _) => lemma_expression_composes(d, *l),
        CompareView::Null(e) => lemma_expression_composes(d, *e),
        CompareView::NotNull(e) => lemma_expression_composes(d, *e),
        CompareView::Between(v, l, r) => {
            lemma_expression_composes(d, *v);
            lemma_expression_composes(d, *l);
            lemma_expression_composes(d, *r);
        },
        CompareView::NotBetween(v, l, r) => {
            lemma_expression_composes(d, *v);
            lemma_expression_composes(d, *l);
            lemma_expression_composes(d, *r);
        },
        CompareView::Raw(l, _, r) => {
            lemma_expression_composes(d, *l);
            lemma_expression_composes(d, *r);
        },
        CompareView::JsonArray(l, _, _, r) => {
            lemma_expression_composes(d, *l);
            lemma_expression_composes(d, *r);
        },
        CompareView::JsonType(l, _) => lemma_expression_composes(d, *l),
        CompareView::Matches(l, _, _) => lemma_expression_composes(d, *l),
    }
    lemma_compare_composes_step(d, c);
}

/// A node is compositional where its parts are.
pub proof fn lemma_partitioning_composes_step(d: Dialect, over: OverView)
    requires
        all_compositional(render_columns(d, over.partitioning)),
        all_compositional(render_order_definitions(d, over.ordering)),
    ensures
        compositional(render_partitioning(d, over)),
{
    reveal(render_partitioning);
}

pub proof fn lemma_partitioning_composes(d: Dialect, over: OverView)
    ensures
        compositional(render_partitioning(d, over)),
    decreases over,
{
    lemma_columns_compose(d, over.partitioning);
    lemma_order_definitions_compose(d, over.ordering);
    lemma_partitioning_composes_step(d, over);
}

/// A node is compositional where its parts are.
pub proof fn lemma_json_extract_composes_step(d: Dialect, j: JsonExtractView)
    requires
        compositional(render_expression(d, *j.column)),
    ensures
        compositional(render_json_extract(d, j)),
{
    reveal(render_expression);
    reveal(render_json_extract);
}

pub proof fn lemma_json_extract_composes(d: Dialect, j: JsonExtractView)
    ensures
        compositional(render_json_extract(d, j)),
    decreases j,
{
    lemma_expression_composes(d, *j.column);
    lemma_json_extract_composes_step(d, j);
}

/// A node is compositional where its parts are.
pub proof fn lemma_text_search_composes_step(d: Dialect, t: TextSearchView)
    requires
        all_compositional(render_columns(d, t.columns)),
    ensures
        compositional(render_text_search(d, t)),
{
    reveal(render_text_search);
}

pub proof fn lemma_text_search_composes(d: Dialect, t: TextSearchView)
    ensures
        compositional(render_text_search(d, t)),
    decreases t,
{
    lemma_columns_compose(d, t.columns);
    lemma_text_search_composes_step(d, t);
}

/// A node is compositional where its parts are.
pub proof fn lemma_function_composes_step(d: Dialect, f: FunctionView)
    requires
        match f.typ_ {
            FunctionTypeView::RowToJson(r) => compositional(render_table(d, r.expr, false)),
            FunctionTypeView::RowNumber(over) => compositional(render_partitioning(d, over)),
            FunctionTypeView::Count(es) => all_compositional(render_expressions(d, es)),
            FunctionTypeView::AggregateToString(e) => compositional(render_expression(d, *e)),
            FunctionTypeView::Average(c) => compositional(render_column(d, c)),
            FunctionTypeView::Sum(e) => compositional(render_expression(d, *e)),
            FunctionTypeView::Lower(e) => compositional(render_expression(d, *e)),
            FunctionTypeView::Upper(e) => compositional(render_expression(d, *e)),
            FunctionTypeView::Minimum(c) => compositional(render_column(d, c)),
            FunctionTypeView::Maximum(c) => compositional(render_column(d, c)),
            FunctionTypeView::Coalesce(es) => all_compositional(render_expressions(d, es)),
            FunctionTypeView::JsonExtract(j) => compositional(render_json_extract(d, j)),
            FunctionTypeView::TextSearch(t) => compositional(render_text_search(d, t)),
        },
    ensures
        compositional(render_function(d, f)),
{
    reveal(render_table);
    reveal(render_partitioning);
    reveal(render_expression);
    reveal(render_column);
    reveal(render_json_extract);
    reveal(render_text_search);
    reveal(render_function);
}

pub proof fn lemma_function_composes(d: Dialect, f: FunctionView)
    ensures
        compositional(render_function(d, f)),
    decreases f,
{
    match f.typ_ {
        FunctionTypeView::RowToJson(r) => lemma_table_composes(d, r.expr, false),
        FunctionTypeView::RowNumber(over) => lemma_partitioning_composes(d, over),
        FunctionTypeView::Count(es) => lemma_expressions_compose(d, es),
        FunctionTypeView::AggregateToString(e) => lemma_expression_composes(d, *e),
        FunctionTypeView::Average(c) => lemma_column_composes(d, c),
        FunctionTypeView::Sum(e) => lemma_expression_composes(d, *e),
        FunctionTypeView::Lower(e) => lemma_expression_composes(d, *e),
        FunctionTypeView::Upper(e) => lemma_expression_composes(d, *e),
        FunctionTypeView::Minimum(c) => lemma_column_composes(d, c),
        FunctionTypeView::Maximum(c) => lemma_column_composes(d, c),
        FunctionTypeView::Coalesce(es) => lemma_expressions_compose(d, es),
        FunctionTypeView::JsonExtract(j) => lemma_json_extract_composes(d, j),
        FunctionTypeView::TextSearch(t) => lemma_text_search_composes(d, t),
    }
    lemma_function_composes_step(d, f);
}

/// A node is compositional where its parts are.
pub proof fn lemma_cte_composes_step(d: Dialect, c: CommonTableExpressionView)
    requires
        compositional(render_selection(d, c.selection)),
    ensures
        compositional(render_cte(d, c)),
{
    reveal(render_selection);
    reveal(render_cte);
}

pub proof fn lemma_cte_composes(d: Dialect, c: CommonTableExpressionView)
    ensures
        compositional(render_cte(d, c)),
    decreases c,
{
    lemma_selection_composes(d, c.selection);
    lemma_cte_composes_step(d, c);
}

/// A node is compositional where its parts are.
pub proof fn lemma_select_composes_step(d: Dialect, s: SelectView)
    requires
        all_compositional(render_ctes(d, s.ctes)),
        all_compositional(render_expressions(d, s.columns)),
        all_compositional(render_tables(d, s.tables)),
        all_compositional(render_joins(d, s.joins)),
        all_compositional(render_expressions(d, s.grouping)),
        all_compositional(render_order_definitions(d, s.ordering)),
        s.conditions matches Some(t) ==> compositional(render_conditions(d, t)),
        s.having matches Some(t) ==> compositional(render_conditions(d, t)),
    ensures
        compositional(render_select(d, s)),
{
    reveal(render_conditions);
    reveal(render_select);
}

pub proof fn lemma_select_composes(d: Dialect, s: SelectView)
    ensures
        compositional(render_select(d, s)),
    decreases s,
{
    lemma_ctes_compose(d, s.ctes);
    lemma_expressions_compose(d, s.columns);
    lemma_tables_compose(d, s.tables);
    lemma_joins_compose(d, s.joins);
    lemma_expressions_compose(d, s.grouping);
    lemma_order_definitions_compose(d, s.ordering);
    match s.conditions {
        Some(t) => lemma_conditions_compose(d, t),
        None => {},
    }
    match s.having {
        Some(t) => lemma_conditions_compose(d, t),
        None => {},
    }
    lemma_select_composes_step(d, s);
}

/// A node is compositional where its parts are.
pub proof fn lemma_union_composes_step(d: Dialect, u: UnionView)
    requires
        all_compositional(render_ctes(d, u.ctes)),
        all_compositional(render_united(d, u.selects, u.types)),
    ensures
        compositional(render_union(d, u)),
{
    reveal(render_union);
}

pub proof fn lemma_union_composes(d: Dialect, u: UnionView)
    ensures
        compositional(render_union(d, u)),
    decreases u,
{
    lemma_ctes_compose(d, u.ctes);
    lemma_united_compose(d, u.selects, u.types);
    lemma_union_composes_step(d, u);
}

/// A node is compositional where its parts are.
pub proof fn lemma_update_composes_step(d: Dialect, u: UpdateView)
    requires
        compositional(render_table(d, u.table, true)),
        all_compositional(render_assignments(d, u)),
        u.conditions matches Some(t) ==> compositional(render_conditions(d, t)),
    ensures
        compositional(render_update(d, u)),
{
    reveal(render_table);
    reveal(render_conditions);
    reveal(render_update);
}

pub proof fn lemma_update_composes(d: Dialect, u: UpdateView)
    ensures
        compositional(render_update(d, u)),
    decreases u, 1nat,
{
    lemma_table_composes(d, u.table, true);
    assert forall|i: int| 0 <= i < u.columns.len() implies compositional(
        #[trigger] render_column(d, u.columns[i]),
    ) by {
        lemma_column_composes(d, u.columns[i]);
    }
    assert forall|i: int| 0 <= i < u.values.len() implies compositional(
        #[trigger] render_expression(d, u.values[i]),
    ) by {
        lemma_expression_composes(d, u.values[i]);
    }
    lemma_assignments_step(d, u);
    match u.conditions {
        Some(t) => lemma_conditions_compose(d, t),
        None => {},
    }
    lemma_update_composes_step(d, u);
}

/// A node is compositional where its parts are.
pub proof fn lemma_delete_composes_step(d: Dialect, q: DeleteView)
    requires
        compositional(render_table(d, q.table, true)),
        q.conditions matches Some(t) ==> compositional(render_conditions(d, t)),
    ensures
        compositional(render_delete(d, q)),
{
    reveal(render_table);
    reveal(render_conditions);
    reveal(render_delete);
}

pub proof fn lemma_delete_composes(d: Dialect, q: DeleteView)
    ensures
        compositional(render_delete(d, q)),
    decreases q,
{
    lemma_table_composes(d, q.table, true);
    match q.conditions {
        Some(t) => lemma_conditions_compose(d, t),
        None => {},
    }
    lemma_delete_composes_step(d, q);
}

/// A node is compositional where its parts are.
pub proof fn lemma_insert_columns_compose_step(d: Dialect, i: InsertView)
    requires
        all_compositional(render_columns(d, i.columns)),
    ensures
        compositional(insert_columns(d, i)),
{
    reveal(insert_columns);
}

pub proof fn lemma_insert_columns_compose(d: Dialect, i: InsertView)
    ensures
        compositional(insert_columns(d, i)),
    decreases i, 0nat,
{
    lemma_columns_compose(d, i.columns);
    lemma_insert_columns_compose_step(d, i);
}

/// A node is compositional where its parts are.
pub proof fn lemma_insert_source_composes_step(d: Dialect, i: InsertView, output: Rendered)
    requires
        compositional(output),
        compositional(insert_columns(d, i)),
        compositional(render_expression(d, i.values)),
        match i.values.kind {
            ExpressionKindView::Row(row) => compositional(render_row(d, row)),
            ExpressionKindView::Values(values) => all_rows_compositional(
                render_row_items(d, values.rows),
            ),
            _ => true,
        },
    ensures
        compositional(insert_source(d, i, output)),
{
    reveal(insert_columns);
    reveal(render_expression);
    reveal(render_row);
    reveal(insert_source);
}

pub proof fn lemma_insert_source_composes(d: Dialect, i: InsertView, output: Rendered)
    requires
        compositional(output),
    ensures
        compositional(insert_source(d, i, output)),
    decreases i, 1nat,
{
    lemma_insert_columns_compose(d, i);
    lemma_expression_composes(d, i.values);
    match i.values.kind {
        ExpressionKindView::Row(row) => lemma_row_composes(d, row),
        ExpressionKindView::Values(values) => lemma_row_items_compose(d, values.rows),
        _ => {},
    }
    lemma_insert_source_composes_step(d, i, output);
}

/// A node is compositional where its parts are.
pub proof fn lemma_insert_composes_step(d: Dialect, i: InsertView)
    requires
        compositional(insert_source(d, i, crate::visitors::model::nothing())),
        i.returning matches Some(cs) ==> compositional(insert_source(d, i, output_clause(d, cs))) && all_compositional(render_columns(d, cs)),
        i.table matches Some(t) ==> compositional(render_table(d, t, true)) && compositional(render_table(d, t, false)),
    ensures
        compositional(render_insert(d, i)),
{
    reveal(insert_source);
    reveal(render_table);
    reveal(render_insert);
    reveal(render_insert_postgres);
    reveal(render_insert_mysql);
    reveal(render_insert_sqlite);
    reveal(render_insert_mssql);
}

pub proof fn lemma_insert_composes(d: Dialect, i: InsertView)
    ensures
        compositional(render_insert(d, i)),
    decreases i, 3nat,
{
    lemma_insert_source_composes(d, i, crate::visitors::model::nothing());
    match i.table {
        Some(t) => {
            lemma_table_composes(d, t, true);
            lemma_table_composes(d, t, false);
        },
        None => {},
    }
    match i.returning {
        Some(cs) => {
            lemma_columns_compose(d, cs);
            lemma_insert_source_composes(d, i, output_clause(d, cs));
        },
        None => {},
    }
    lemma_insert_composes_step(d, i);
}

/// A node is compositional where its parts are.
pub proof fn lemma_merge_composes_step(d: Dialect, m: MergeView)
    requires
        compositional(render_table(d, m.table, true)),
        compositional(render_table(d, m.table, false)),
        compositional(render_query(d, m.using.base_query)),
        compositional(render_table(d, m.using.as_table, false)),
        all_compositional(render_columns(d, m.using.columns)),
        compositional(render_conditions(d, m.using.on_conditions)),
        m.when_not_matched matches Some(q) ==> compositional(render_query(d, q)),
    ensures
        compositional(render_merge(d, m)),
{
    reveal(render_table);
    reveal(render_query);
    reveal(render_conditions);
    reveal(render_merge);
}

pub proof fn lemma_merge_composes(d: Dialect, m: MergeView)
    ensures
        compositional(render_merge(d, m)),
    decreases m,
{
    lemma_table_composes(d, m.table, true);
    lemma_table_composes(d, m.table, false);
    lemma_query_composes(d, m.using.base_query);
    lemma_table_composes(d, m.using.as_table, false);
    lemma_columns_compose(d, m.using.columns);
    lemma_conditions_compose(d, m.using.on_conditions);
    match m.when_not_matched {
        Some(q) => lemma_query_composes(d, q),
        None => {},
    }
    lemma_merge_composes_step(d, m);
}

/// A statement is compositional where its parts are.
pub proof fn lemma_query_composes_step(d: Dialect, q: QueryView)
    requires
        match q {
            QueryView::Select(s) => compositional(render_select(d, *s)),
            QueryView::Insert(i) => compositional(render_insert(d, *i)),
            QueryView::Update(u) => compositional(render_update(d, *u)),
            QueryView::Delete(x) => compositional(render_delete(d, *x)),
            QueryView::Union(u) => compositional(render_union(d, *u)),
            QueryView::Merge(m) => compositional(render_merge(d, *m)),
            QueryView::Raw(_) => true,
        },
    ensures
        compositional(render_query(d, q)),
{
    reveal(render_select);
    reveal(render_insert);
    reveal(render_update);
    reveal(render_delete);
    reveal(render_union);
    reveal(render_merge);
    reveal(render_query);
}

/// A statement writes the same pieces whatever was written before it,
/// and so does every node of it.
pub proof fn lemma_query_composes(d: Dialect, q: QueryView)
    ensures
        compositional(render_query(d, q)),
    decreases q,
{
    match q {
        QueryView::Select(s) => lemma_select_composes(d, *s),
        QueryView::Insert(i) => lemma_insert_composes(d, *i),
        QueryView::Update(u) => lemma_update_composes(d, *u),
        QueryView::Delete(x) => lemma_delete_composes(d, *x),
        QueryView::Union(u) => lemma_union_composes(d, *u),
        QueryView::Merge(m) => lemma_merge_composes(d, *m),
        QueryView::Raw(_) => {},
    }
    lemma_query_composes_step(d, q);
}

/// The pieces of `first` followed by `second` are those of `first`
/// followed by those of `second`.
pub proof fn lemma_pieces_of_then(first: Rendered, second: Rendered)
    requires
        compositional(first),
        compositional(second),
    ensures
        own(then(first, second)) == match own(first) {
            Err(f) => Err::<Seq<Piece>, crate::error::Fault>(f),
            Ok(a) => after(a, own(second)),
        },
{
    if own(first) is Ok {
        lemma_appends(second, own(first)->Ok_0);
    }
}

/// Every `AND`, `OR` and `NOT` opens with a parenthesis of its own and
/// closes with one, with what it joins between them.
pub proof fn lemma_connectives_are_enclosed(d: Dialect, t: ConditionTreeView)
    requires
        t is And || t is Or || t is Not,
        own(render_conditions(d, t)) is Ok,
    ensures
        ({
            let inner = match t {
                ConditionTreeView::And(es) => join(render_expressions(d, es), " AND "@),
                ConditionTreeView::Or(es) => join(render_expressions(d, es), " OR "@),
                ConditionTreeView::Not(e) => then(text("NOT "@), render_expression(d, *e)),
                _ => crate::visitors::model::nothing(),
            };
            &&& own(inner) is Ok
            &&& own(render_conditions(d, t))->Ok_0 == seq![Piece::Text("("@)] + own(inner)->Ok_0
                + seq![Piece::Text(")"@)]
        }),
{
    reveal(render_conditions);
    reveal(render_expression);
    let inner = match t {
        ConditionTreeView::And(es) => join(render_expressions(d, es), " AND "@),
        ConditionTreeView::Or(es) => join(render_expressions(d, es), " OR "@),
        ConditionTreeView::Not(e) => then(text("NOT "@), render_expression(d, *e)),
        _ => crate::visitors::model::nothing(),
    };
    match t {
        ConditionTreeView::And(es) => lemma_expressions_compose(d, es),
        ConditionTreeView::Or(es) => lemma_expressions_compose(d, es),
        ConditionTreeView::Not(e) => lemma_expression_composes(d, *e),
        _ => {},
    }
    assert(compositional(inner));
    let opened = seq![Piece::Text("("@)];
    assert(Seq::<Piece>::empty().push(Piece::Text("("@)) =~= opened);
    lemma_appends(inner, opened);
    assert(render_conditions(d, t) == surround("("@, inner, ")"@));
    let written = own(inner)->Ok_0;
    assert((opened + written).push(Piece::Text(")"@)) =~= opened + written + seq![
        Piece::Text(")"@),
    ]);
}

} // verus!

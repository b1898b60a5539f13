//! Lifting tuple memberships in selections into common table
//! expressions, for dialects that cannot compare rows.

use vstd::prelude::*;
use vstd::std_specs::vec::axiom_vec_index_decreases;
use crate::ast::builder::{
    push_column,
    push_common_table_expression,
    push_expression,
    push_select,
    push_string,
};
use crate::ast::model::{
    ColumnView,
    CommonTableExpressionView,
    CompareView,
    ConditionTreeView,
    ExpressionKindView,
    ExpressionView,
    RowView,
    SelectQueryView,
    SelectView,
    TableView,
    UnionView,
};
use crate::ast::node::{
    Column,
    CommonTableExpression,
    Compare,
    Comparison,
    ConditionTree,
    Expression,
    ExpressionKind,
    Row,
    Select,
    SelectQuery,
    Table,
    Union,
};
use crate::ast::view::{
    column_views,
    common_table_expression_views,
    expression_views,
    select_views,
    string_views,
};
use crate::compat::model::{
    clashes,
    columns_of,
    correlated,
    correlation,
    cte_name,
    hoistable,
    hoisted_compare,
    hoisted_expression,
    hoisted_expressions,
    hoisted_select,
    hoisted_selection,
    hoisted_selects,
    hoisted_tree,
    lowered,
    name_of,
    named_columns,
    named_selection,
    only_columns,
    selection_of,
    tuple_of,
    with_hoisted_ctes,
    Hoisted,
};
use crate::error::Fault;
use crate::text::push_nat;

verus! {

broadcast use {vstd::seq::group_seq_axioms, vstd::std_specs::vec::group_vec_axioms};

/// Where the first `k` expressions cannot be rewritten, more of them
/// cannot either, for the same reason.
pub proof fn lemma_hoisted_expressions_fail(es: Seq<ExpressionView>, level: nat, k: int, n: int)
    requires
        0 <= k <= n <= es.len(),
        hoisted_expressions(es.take(k), level) is Err,
    ensures
        hoisted_expressions(es.take(n), level) == hoisted_expressions(es.take(k), level),
    decreases n,
{
    if n > k {
        lemma_hoisted_expressions_fail(es, level, k, n - 1);
        assert(es.take(n).drop_last() =~= es.take(n - 1));
    }
}

/// Where the first `k` selects cannot be rewritten, more of them cannot
/// either, for the same reason.
pub proof fn lemma_hoisted_selects_fail(ss: Seq<SelectView>, level: nat, k: int, n: int)
    requires
        0 <= k <= n <= ss.len(),
        hoisted_selects(ss.take(k), level) is Err,
    ensures
        hoisted_selects(ss.take(n), level) == hoisted_selects(ss.take(k), level),
    decreases n,
{
    if n > k {
        lemma_hoisted_selects_fail(ss, level, k, n - 1);
        assert(ss.take(n).drop_last() =~= ss.take(n - 1));
    }
}

/// Appends common table expressions; the views follow.
pub fn append_ctes(to: &mut Vec<CommonTableExpression>, more: Vec<CommonTableExpression>)
    ensures
        common_table_expression_views(final(to)@) == common_table_expression_views(old(to)@)
            + common_table_expression_views(more@),
{
    let mut more = more;
    let ghost added = more@;
    to.append(&mut more);
    assert(to@ == old(to)@ + added);
    assert(common_table_expression_views(to@) =~= common_table_expression_views(old(to)@)
        + common_table_expression_views(added));
}

/// The name of the generated common table expression of a number.
pub fn generated_name(level: u64) -> (s: String)
    ensures
        s@ == cte_name(level as nat),
{
    let mut s = String::from_str("cte_");
    push_nat(&mut s, level as u128);
    s
}

/// The name under which a select exposes an expression.
pub fn exposed_name(e: &Expression) -> (r: Option<String>)
    ensures
        match r {
            Some(s) => name_of(e@) == Some(s@),
            None => name_of(e@) is None,
        },
{
    assert(e@.kind == e.kind@);
    assert(e@.alias == crate::ast::value::text_view(e.alias));
    match &e.kind {
        ExpressionKind::Column(c) => {
            assert(e.kind@ == ExpressionKindView::Column(Box::new(c@)));
            assert(c@.alias == crate::ast::value::text_view(c.alias));
            assert(c@.name == c.name@);
            match &c.alias {
                Some(a) => Some(a.clone()),
                None => Some(c.name.clone()),
            }
        },
        ExpressionKind::Parameterized(v) => {
            assert(e.kind@ == ExpressionKindView::Parameterized(v@));
            match &e.alias {
                Some(a) => Some(a.clone()),
                None => None,
            }
        },
        _ => None,
    }
}

/// The names of the expressions that have one, in order.
pub fn exposed_names(es: &Vec<Expression>) -> (r: Vec<String>)
    ensures
        string_views(r@) == named_columns(expression_views(es@)),
{
    let ghost all = expression_views(es@);
    let mut r: Vec<String> = Vec::new();
    let mut i: usize = 0;
    assert(string_views(r@) =~= named_columns(all.take(0)));
    while i < es.len()
        invariant
            i <= es.len(),
            all == expression_views(es@),
            string_views(r@) == named_columns(all.take(i as int)),
        decreases es.len() - i,
    {
        assert(all.take(i as int + 1).drop_last() =~= all.take(i as int));
        assert(all.take(i as int + 1).last() == es@[i as int]@);
        match exposed_name(&es[i]) {
            Some(name) => push_string(&mut r, name),
            None => {},
        }
        i += 1;
    }
    assert(all.take(es.len() as int) =~= all);
    r
}

/// The names of the columns that a selection exposes.
pub fn selection_names(s: &SelectQuery) -> (r: Vec<String>)
    ensures
        string_views(r@) == named_selection(s@),
{
    match s {
        SelectQuery::Select(select) => exposed_names(&select.columns),
        SelectQuery::Union(union) => {
            if union.selects.len() > 0 {
                exposed_names(&union.selects[0].columns)
            } else {
                let r: Vec<String> = Vec::new();
                assert(string_views(r@) =~= Seq::empty());
                r
            }
        },
    }
}

/// The columns of a tuple of columns; none for another tuple.
pub fn row_columns(row: &Row) -> (r: Option<Vec<Column>>)
    ensures
        match r {
            Some(cs) => only_columns(row@) && column_views(cs@) == columns_of(row@),
            None => !only_columns(row@),
        },
{
    let mut cs: Vec<Column> = Vec::new();
    let mut i: usize = 0;
    while i < row.values.len()
        invariant
            i <= row.values.len(),
            cs@.len() == i,
            forall|j: int| 0 <= j < i ==> (#[trigger] row@.values[j]).kind is Column,
            forall|j: int| 0 <= j < i ==> (#[trigger] cs@[j])@ == *row@.values[j].kind->Column_0,
        decreases row.values.len() - i,
    {
        match &row.values[i].kind {
            ExpressionKind::Column(c) => {
                let copy = c.duplicate();
                assert(row@.values[i as int].kind == ExpressionKindView::Column(Box::new(c@)));
                cs.push(copy);
            },
            _ => {
                assert(!(row@.values[i as int].kind is Column));
                return None;
            },
        }
        i += 1;
    }
    assert(column_views(cs@) =~= columns_of(row@));
    Some(cs)
}

/// The comparison that stands for a tuple membership once the selection
/// is the common table expression `identifier`.
pub fn lower(columns: &Vec<Column>, op: Comparison, names: &Vec<String>, identifier: &str) -> (c:
    Compare)
    requires
        columns@.len() > 0,
        names@.len() == columns@.len(),
    ensures
        c@ == lowered(column_views(columns@), op, string_views(names@), identifier@),
{
    let ghost cols = column_views(columns@);
    let ghost ns = string_views(names@);
    let mut select = Select::from_table(Table::new(identifier)).column(
        Column::new(names[0].as_str()),
    );
    let ghost base = select@;
    let mut j: usize = 1;
    while j < columns.len()
        invariant
            1 <= j <= columns.len(),
            names@.len() == columns@.len(),
            cols == column_views(columns@),
            ns == string_views(names@),
            select@ == correlated(base, cols, ns, j as nat),
        decreases columns.len() - j,
    {
        let condition = Expression::column(Column::new(names[j].as_str())).equals(
            Expression::column(columns[j].duplicate()),
        ).into_tree();
        assert(condition@ == correlation(ns[j as int], cols[j as int]));
        select = select.and_where(condition);
        j += 1;
    }
    Expression::column(columns[0].duplicate()).compare(op, Expression::select(select))
}

/// Rewrites the expressions from left to right.
pub fn hoist_expressions(es: &Vec<Expression>, level: u64) -> (r: Result<
    (Vec<Expression>, Vec<CommonTableExpression>, u64),
    Fault,
>)
    ensures
        match r {
            Ok((nodes, ctes, next)) => hoisted_expressions(expression_views(es@), level as nat)
                == Ok::<Hoisted<Seq<ExpressionView>>, Fault>(
                Hoisted {
                    node: expression_views(nodes@),
                    ctes: common_table_expression_views(ctes@),
                    level: next as nat,
                },
            ),
            Err(f) => hoisted_expressions(expression_views(es@), level as nat) == Err::<
                Hoisted<Seq<ExpressionView>>,
                Fault,
            >(f),
        },
    decreases es,
{
    let ghost all = expression_views(es@);
    let mut nodes: Vec<Expression> = Vec::new();
    let mut ctes: Vec<CommonTableExpression> = Vec::new();
    let mut next = level;
    let mut i: usize = 0;
    assert(expression_views(nodes@) =~= Seq::empty());
    assert(common_table_expression_views(ctes@) =~= Seq::empty());
    while i < es.len()
        invariant
            i <= es.len(),
            all == expression_views(es@),
            hoisted_expressions(all.take(i as int), level as nat) == Ok::<
                Hoisted<Seq<ExpressionView>>,
                Fault,
            >(
                Hoisted {
                    node: expression_views(nodes@),
                    ctes: common_table_expression_views(ctes@),
                    level: next as nat,
                },
            ),
        decreases es.len() - i,
    {
        proof {
            axiom_vec_index_decreases(*es, i as int);
            assert(all.take(i as int + 1).drop_last() =~= all.take(i as int));
            assert(all.take(i as int + 1).last() == es@[i as int]@);
        }
        match hoist_expression(&es[i], next) {
            Ok((node, more, after)) => {
                push_expression(&mut nodes, node);
                append_ctes(&mut ctes, more);
                next = after;
            },
            Err(f) => {
                proof {
                    lemma_hoisted_expressions_fail(
                        all,
                        level as nat,
                        i as int + 1,
                        es.len() as int,
                    );
                    assert(all.take(es.len() as int) =~= all);
                }
                return Err(f);
            },
        }
        i += 1;
    }
    assert(all.take(es.len() as int) =~= all);
    Ok((nodes, ctes, next))
}

/// Rewrites the selects from left to right.
pub fn hoist_selects(ss: &Vec<Select>, level: u64) -> (r: Result<
    (Vec<Select>, Vec<CommonTableExpression>, u64),
    Fault,
>)
    ensures
        match r {
            Ok((nodes, ctes, next)) => hoisted_selects(select_views(ss@), level as nat) == Ok::<
                Hoisted<Seq<SelectView>>,
                Fault,
            >(
                Hoisted {
                    node: select_views(nodes@),
                    ctes: common_table_expression_views(ctes@),
                    level: next as nat,
                },
            ),
            Err(f) => hoisted_selects(select_views(ss@), level as nat) == Err::<
                Hoisted<Seq<SelectView>>,
                Fault,
            >(f),
        },
    decreases ss,
{
    let ghost all = select_views(ss@);
    let mut nodes: Vec<Select> = Vec::new();
    let mut ctes: Vec<CommonTableExpression> = Vec::new();
    let mut next = level;
    let mut i: usize = 0;
    assert(select_views(nodes@) =~= Seq::empty());
    assert(common_table_expression_views(ctes@) =~= Seq::empty());
    while i < ss.len()
        invariant
            i <= ss.len(),
            all == select_views(ss@),
            hoisted_selects(all.take(i as int), level as nat) == Ok::<Hoisted<Seq<SelectView>>, Fault>(
                Hoisted {
                    node: select_views(nodes@),
                    ctes: common_table_expression_views(ctes@),
                    level: next as nat,
                },
            ),
        decreases ss.len() - i,
    {
        proof {
            axiom_vec_index_decreases(*ss, i as int);
            assert(all.take(i as int + 1).drop_last() =~= all.take(i as int));
            assert(all.take(i as int + 1).last() == ss@[i as int]@);
        }
        match hoist_select(&ss[i], next) {
            Ok((node, more, after)) => {
                push_select(&mut nodes, node);
                append_ctes(&mut ctes, more);
                next = after;
            },
            Err(f) => {
                proof {
                    lemma_hoisted_selects_fail(all, level as nat, i as int + 1, ss.len() as int);
                    assert(all.take(ss.len() as int) =~= all);
                }
                return Err(f);
            },
        }
        i += 1;
    }
    assert(all.take(ss.len() as int) =~= all);
    Ok((nodes, ctes, next))
}

/// Rewrites an expression.
pub fn hoist_expression(e: &Expression, level: u64) -> (r: Result<
    (Expression, Vec<CommonTableExpression>, u64),
    Fault,
>)
    ensures
        match r {
            Ok((node, ctes, next)) => hoisted_expression(e@, level as nat) == Ok::<
                Hoisted<ExpressionView>,
                Fault,
            >(
                Hoisted {
                    node: node@,
                    ctes: common_table_expression_views(ctes@),
                    level: next as nat,
                },
            ),
            Err(f) => hoisted_expression(e@, level as nat) == Err::<Hoisted<ExpressionView>, Fault>(f),
        },
    decreases e,
{
    match &e.kind {
        ExpressionKind::Selection(s) => {
            let (node, ctes, next) = hoist_selection(s, level)?;
            Ok(
                (
                    Expression {
                        kind: ExpressionKind::Selection(node),
                        alias: crate::ast::value::copy_text(&e.alias),
                    },
                    ctes,
                    next,
                ),
            )
        },
        ExpressionKind::Compare(c) => {
            let (node, ctes, next) = hoist_compare(c, level)?;
            Ok(
                (
                    Expression {
                        kind: ExpressionKind::Compare(node),
                        alias: crate::ast::value::copy_text(&e.alias),
                    },
                    ctes,
                    next,
                ),
            )
        },
        ExpressionKind::ConditionTree(t) => {
            let (node, ctes, next) = hoist_tree(t, level)?;
            Ok(
                (
                    Expression {
                        kind: ExpressionKind::ConditionTree(node),
                        alias: crate::ast::value::copy_text(&e.alias),
                    },
                    ctes,
                    next,
                ),
            )
        },
        _ => {
            let ctes: Vec<CommonTableExpression> = Vec::new();
            assert(common_table_expression_views(ctes@) =~= Seq::empty());
            Ok((e.duplicate(), ctes, level))
        },
    }
}

/// Rewrites a condition tree; its shape stays.
pub fn hoist_tree(t: &ConditionTree, level: u64) -> (r: Result<
    (ConditionTree, Vec<CommonTableExpression>, u64),
    Fault,
>)
    ensures
        match r {
            Ok((node, ctes, next)) => hoisted_tree(t@, level as nat) == Ok::<
                Hoisted<ConditionTreeView>,
                Fault,
            >(
                Hoisted {
                    node: node@,
                    ctes: common_table_expression_views(ctes@),
                    level: next as nat,
                },
            ),
            Err(f) => hoisted_tree(t@, level as nat) == Err::<Hoisted<ConditionTreeView>, Fault>(f),
        },
    decreases t,
{
    match t {
        ConditionTree::And(es) => {
            let (nodes, ctes, next) = hoist_expressions(es, level)?;
            Ok((ConditionTree::And(nodes), ctes, next))
        },
        ConditionTree::Or(es) => {
            let (nodes, ctes, next) = hoist_expressions(es, level)?;
            Ok((ConditionTree::Or(nodes), ctes, next))
        },
        ConditionTree::Not(e) => {
            let (node, ctes, next) = hoist_expression(e, level)?;
            Ok((ConditionTree::Not(Box::new(node)), ctes, next))
        },
        ConditionTree::Single(e) => {
            let (node, ctes, next) = hoist_expression(e, level)?;
            Ok((ConditionTree::Single(Box::new(node)), ctes, next))
        },
        _ => {
            let ctes: Vec<CommonTableExpression> = Vec::new();
            assert(common_table_expression_views(ctes@) =~= Seq::empty());
            Ok((t.duplicate(), ctes, level))
        },
    }
}

/// The parts of a tuple membership that is lifted out: the columns of
/// the tuple and the names that the selection exposes; none for any
/// other comparison.
pub fn hoistable_parts(c: &Compare) -> (r: Option<(Vec<Column>, Vec<String>)>)
    ensures
        match r {
            Some((columns, names)) => {
                &&& hoistable(c@)
                &&& column_views(columns@) == columns_of(tuple_of(c@))
                &&& string_views(names@) == named_selection(selection_of(c@))
                &&& columns@.len() > 0
                &&& names@.len() == columns@.len()
            },
            None => !hoistable(c@),
        },
{
    match c {
        Compare::Binary(left, op, right) => {
            assert(c@ == CompareView::Binary(Box::new(left@), *op, Box::new(right@)));
            assert(left@.kind == left.kind@);
            assert(right@.kind == right.kind@);
            let member = match op {
                Comparison::In => true,
                Comparison::NotIn => true,
                _ => false,
            };
            match (&left.kind, &right.kind) {
                (ExpressionKind::Row(row), ExpressionKind::Selection(s)) => {
                    assert(row@.values.len() == row.values@.len());
                    if !member || row.values.len() == 0 {
                        return None;
                    }
                    match row_columns(row) {
                        Some(columns) => {
                            let names = selection_names(s);
                            assert(string_views(names@).len() == names@.len());
                            assert(column_views(columns@).len() == columns@.len());
                            if names.len() == columns.len() {
                                Some((columns, names))
                            } else {
                                None
                            }
                        },
                        None => None,
                    }
                },
                _ => None,
            }
        },
        _ => None,
    }
}

/// Rewrites a comparison.
pub fn hoist_compare(c: &Compare, level: u64) -> (r: Result<
    (Compare, Vec<CommonTableExpression>, u64),
    Fault,
>)
    ensures
        match r {
            Ok((node, ctes, next)) => hoisted_compare(c@, level as nat) == Ok::<
                Hoisted<CompareView>,
                Fault,
            >(
                Hoisted {
                    node: node@,
                    ctes: common_table_expression_views(ctes@),
                    level: next as nat,
                },
            ),
            Err(f) => hoisted_compare(c@, level as nat) == Err::<Hoisted<CompareView>, Fault>(f),
        },
    decreases c,
{
    match hoistable_parts(c) {
        Some((columns, names)) => match c {
            Compare::Binary(left, op, right) => {
                assert(c@ == CompareView::Binary(Box::new(left@), *op, Box::new(right@)));
                assert(left@.kind == left.kind@);
                assert(right@.kind == right.kind@);
                match &right.kind {
                    ExpressionKind::Selection(s) => {
                        if level == u64::MAX {
                            return Err(Fault::NamesExhausted);
                        }
                        let (selection, inner, next) = hoist_selection(s, level + 1)?;
                        let name = generated_name(level);
                        let node = lower(&columns, *op, &names, name.as_str());
                        let mut ctes: Vec<CommonTableExpression> = Vec::new();
                        let cte = selection.into_cte(name.as_str());
                        ctes.push(cte);
                        assert(common_table_expression_views(ctes@) =~= seq![cte@]);
                        append_ctes(&mut ctes, inner);
                        Ok((node, ctes, next))
                    },
                    _ => {
                        let ctes: Vec<CommonTableExpression> = Vec::new();
                        assert(common_table_expression_views(ctes@) =~= Seq::empty());
                        Ok((c.duplicate(), ctes, level))
                    },
                }
            },
            _ => {
                let ctes: Vec<CommonTableExpression> = Vec::new();
                assert(common_table_expression_views(ctes@) =~= Seq::empty());
                Ok((c.duplicate(), ctes, level))
            },
        },
        None => {
            let ctes: Vec<CommonTableExpression> = Vec::new();
            assert(common_table_expression_views(ctes@) =~= Seq::empty());
            Ok((c.duplicate(), ctes, level))
        },
    }
}

/// Rewrites a selection.
pub fn hoist_selection(s: &SelectQuery, level: u64) -> (r: Result<
    (SelectQuery, Vec<CommonTableExpression>, u64),
    Fault,
>)
    ensures
        match r {
            Ok((node, ctes, next)) => hoisted_selection(s@, level as nat) == Ok::<
                Hoisted<SelectQueryView>,
                Fault,
            >(
                Hoisted {
                    node: node@,
                    ctes: common_table_expression_views(ctes@),
                    level: next as nat,
                },
            ),
            Err(f) => hoisted_selection(s@, level as nat) == Err::<Hoisted<SelectQueryView>, Fault>(
                f,
            ),
        },
    decreases s,
{
    match s {
        SelectQuery::Select(select) => {
            let (node, ctes, next) = hoist_select(select, level)?;
            Ok((SelectQuery::Select(Box::new(node)), ctes, next))
        },
        SelectQuery::Union(union) => {
            let (nodes, ctes, next) = hoist_selects(&union.selects, level)?;
            let node = Union {
                selects: nodes,
                types: crate::ast::copy::duplicate_union_types(&union.types),
                ctes: crate::ast::copy::duplicate_common_table_expressions(&union.ctes),
            };
            Ok((SelectQuery::Union(Box::new(node)), ctes, next))
        },
    }
}

/// Rewrites the conditions of a select. Everything else stays as it is.
pub fn hoist_select(s: &Select, level: u64) -> (r: Result<
    (Select, Vec<CommonTableExpression>, u64),
    Fault,
>)
    ensures
        match r {
            Ok((node, ctes, next)) => hoisted_select(s@, level as nat) == Ok::<
                Hoisted<SelectView>,
                Fault,
            >(
                Hoisted {
                    node: node@,
                    ctes: common_table_expression_views(ctes@),
                    level: next as nat,
                },
            ),
            Err(f) => hoisted_select(s@, level as nat) == Err::<Hoisted<SelectView>, Fault>(f),
        },
    decreases s,
{
    match &s.conditions {
        Some(t) => {
            let (tree, ctes, next) = hoist_tree(t, level)?;
            let mut node = s.duplicate();
            node.conditions = Some(tree);
            Ok((node, ctes, next))
        },
        None => {
            let ctes: Vec<CommonTableExpression> = Vec::new();
            assert(common_table_expression_views(ctes@) =~= Seq::empty());
            Ok((s.duplicate(), ctes, level))
        },
    }
}

/// Tells whether a common table expression of the first vector is named
/// like one of the second.
pub fn names_clash(own: &Vec<CommonTableExpression>, generated: &Vec<CommonTableExpression>) -> (b:
    bool)
    ensures
        b == clashes(
            common_table_expression_views(own@),
            common_table_expression_views(generated@),
        ),
{
    let ghost a = common_table_expression_views(own@);
    let ghost g = common_table_expression_views(generated@);
    let mut i: usize = 0;
    while i < own.len()
        invariant
            i <= own.len(),
            a == common_table_expression_views(own@),
            g == common_table_expression_views(generated@),
            forall|x: int, y: int|
                0 <= x < i && 0 <= y < g.len() ==> (#[trigger] a[x]).identifier != (
                #[trigger] g[y]).identifier,
        decreases own.len() - i,
    {
        let mut j: usize = 0;
        while j < generated.len()
            invariant
                i < own.len(),
                j <= generated.len(),
                a == common_table_expression_views(own@),
                g == common_table_expression_views(generated@),
                forall|x: int, y: int|
                    0 <= x < i && 0 <= y < g.len() ==> (#[trigger] a[x]).identifier != (
                    #[trigger] g[y]).identifier,
                forall|y: int| 0 <= y < j ==> a[i as int].identifier != (#[trigger] g[y]).identifier,
            decreases generated.len() - j,
        {
            if own[i].identifier == generated[j].identifier {
                assert(a[i as int].identifier == g[j as int].identifier);
                return true;
            }
            j += 1;
        }
        i += 1;
    }
    false
}

/// Lifts every tuple membership in a selection out of a statement into a
/// common table expression of the statement, numbered from zero from
/// left to right.
pub fn convert_tuple_selects_to_ctes(s: Select) -> (r: Result<Select, Fault>)
    ensures
        match r {
            Ok(node) => with_hoisted_ctes(s@) == Ok::<SelectView, Fault>(node@),
            Err(f) => with_hoisted_ctes(s@) == Err::<SelectView, Fault>(f),
        },
{
    let (node, generated, _) = hoist_select(&s, 0)?;
    if names_clash(&s.ctes, &generated) {
        return Err(Fault::ClashingNames);
    }
    let mut node = node;
    append_ctes(&mut node.ctes, generated);
    Ok(node)
}

} // verus!

//! What holds of the compatibility rewrites.

use vstd::prelude::*;
use crate::ast::model::{
    CommonTableExpressionView,
    CompareView,
    ConditionTreeView,
    ExpressionKindView,
    ExpressionView,
    QueryView,
    SelectQueryView,
    SelectView,
};
use crate::compat::model::{
    adapted,
    clashes,
    hoistable,
    hoisted_compare,
    hoisted_expression,
    hoisted_expressions,
    hoisted_select,
    hoisted_selection,
    hoisted_selects,
    hoisted_tree,
    with_hoisted_ctes,
    Hoisted,
};
use crate::dialect::Dialect;
use crate::error::Fault;

verus! {

broadcast use vstd::seq::group_seq_axioms;

/// A node from which nothing is lifted out, at whatever number the
/// rewrite starts.
pub open spec fn settled<T>(node: T, level: nat) -> Hoisted<T> {
    Hoisted { node, ctes: Seq::empty(), level }
}

/// What was rewritten once stays as it is when rewritten again.
pub proof fn lemma_expressions_settle(es: Seq<ExpressionView>, level: nat, again: nat)
    requires
        hoisted_expressions(es, level) is Ok,
    ensures
        hoisted_expressions(hoisted_expressions(es, level)->Ok_0.node, again) == Ok::<
            Hoisted<Seq<ExpressionView>>,
            Fault,
        >(settled(hoisted_expressions(es, level)->Ok_0.node, again)),
    decreases es,
{
    if es.len() > 0 {
        let init = hoisted_expressions(es.drop_last(), level)->Ok_0;
        let last = hoisted_expression(es.last(), init.level)->Ok_0;
        lemma_expressions_settle(es.drop_last(), level, again);
        lemma_expression_settles(es.last(), init.level, again);
        let out = init.node.push(last.node);
        assert(out.drop_last() =~= init.node);
        assert(out.last() == last.node);
        assert(Seq::<CommonTableExpressionView>::empty() + Seq::<CommonTableExpressionView>::empty()
            =~= Seq::<CommonTableExpressionView>::empty());
    }
}

/// What was rewritten once stays as it is when rewritten again.
pub proof fn lemma_selects_settle(ss: Seq<SelectView>, level: nat, again: nat)
    requires
        hoisted_selects(ss, level) is Ok,
    ensures
        hoisted_selects(hoisted_selects(ss, level)->Ok_0.node, again) == Ok::<
            Hoisted<Seq<SelectView>>,
            Fault,
        >(settled(hoisted_selects(ss, level)->Ok_0.node, again)),
    decreases ss,
{
    if ss.len() > 0 {
        let init = hoisted_selects(ss.drop_last(), level)->Ok_0;
        let last = hoisted_select(ss.last(), init.level)->Ok_0;
        lemma_selects_settle(ss.drop_last(), level, again);
        lemma_select_settles(ss.last(), init.level, again);
        let out = init.node.push(last.node);
        assert(out.drop_last() =~= init.node);
        assert(out.last() == last.node);
        assert(Seq::<CommonTableExpressionView>::empty() + Seq::<CommonTableExpressionView>::empty()
            =~= Seq::<CommonTableExpressionView>::empty());
    }
}

/// What was rewritten once stays as it is when rewritten again.
pub proof fn lemma_expression_settles(e: ExpressionView, level: nat, again: nat)
    requires
        hoisted_expression(e, level) is Ok,
    ensures
        hoisted_expression(hoisted_expression(e, level)->Ok_0.node, again) == Ok::<
            Hoisted<ExpressionView>,
            Fault,
        >(settled(hoisted_expression(e, level)->Ok_0.node, again)),
    decreases e,
{
    match e.kind {
        ExpressionKindView::Selection(s) => {
            lemma_selection_settles(s, level, again);
        },
        ExpressionKindView::Compare(c) => {
            lemma_compare_settles(c, level, again);
        },
        ExpressionKindView::ConditionTree(t) => {
            lemma_tree_settles(t, level, again);
        },
        _ => {},
    }
}

/// What was rewritten once stays as it is when rewritten again.
pub proof fn lemma_tree_settles(t: ConditionTreeView, level: nat, again: nat)
    requires
        hoisted_tree(t, level) is Ok,
    ensures
        hoisted_tree(hoisted_tree(t, level)->Ok_0.node, again) == Ok::<
            Hoisted<ConditionTreeView>,
            Fault,
        >(settled(hoisted_tree(t, level)->Ok_0.node, again)),
    decreases t,
{
    match t {
        ConditionTreeView::And(es) => {
            lemma_expressions_settle(es, level, again);
        },
        ConditionTreeView::Or(es) => {
            lemma_expressions_settle(es, level, again);
        },
        ConditionTreeView::Not(e) => {
            lemma_expression_settles(*e, level, again);
        },
        ConditionTreeView::Single(e) => {
            lemma_expression_settles(*e, level, again);
        },
        _ => {},
    }
}

/// What was rewritten once stays as it is when rewritten again: a lowered
/// membership tests a column, not a tuple.
pub proof fn lemma_compare_settles(c: CompareView, level: nat, again: nat)
    requires
        hoisted_compare(c, level) is Ok,
    ensures
        !hoistable(hoisted_compare(c, level)->Ok_0.node),
        hoisted_compare(hoisted_compare(c, level)->Ok_0.node, again) == Ok::<
            Hoisted<CompareView>,
            Fault,
        >(settled(hoisted_compare(c, level)->Ok_0.node, again)),
{
}

/// What was rewritten once stays as it is when rewritten again.
pub proof fn lemma_selection_settles(s: SelectQueryView, level: nat, again: nat)
    requires
        hoisted_selection(s, level) is Ok,
    ensures
        hoisted_selection(hoisted_selection(s, level)->Ok_0.node, again) == Ok::<
            Hoisted<SelectQueryView>,
            Fault,
        >(settled(hoisted_selection(s, level)->Ok_0.node, again)),
    decreases s,
{
    match s {
        SelectQueryView::Select(select) => {
            lemma_select_settles(*select, level, again);
        },
        SelectQueryView::Union(union) => {
            lemma_selects_settle(union.selects, level, again);
        },
    }
}

/// What was rewritten once stays as it is when rewritten again.
pub proof fn lemma_select_settles(s: SelectView, level: nat, again: nat)
    requires
        hoisted_select(s, level) is Ok,
    ensures
        hoisted_select(hoisted_select(s, level)->Ok_0.node, again) == Ok::<
            Hoisted<SelectView>,
            Fault,
        >(settled(hoisted_select(s, level)->Ok_0.node, again)),
    decreases s,
{
    match s.conditions {
        Some(t) => {
            lemma_tree_settles(t, level, again);
        },
        None => {},
    }
}

/// Lifting is idempotent: a select whose tuple memberships were lifted
/// out stays as it is when they are lifted out again.
pub proof fn lemma_hoisting_is_idempotent(s: SelectView)
    requires
        with_hoisted_ctes(s) is Ok,
    ensures
        with_hoisted_ctes(with_hoisted_ctes(s)->Ok_0) == with_hoisted_ctes(s),
{
    let h = hoisted_select(s, 0)->Ok_0;
    let once = with_hoisted_ctes(s)->Ok_0;
    lemma_select_settles(s, 0, 0);
    assert(once.conditions == h.node.conditions);
    assert(hoisted_select(once, 0) == Ok::<Hoisted<SelectView>, Fault>(settled(once, 0))) by {
        match once.conditions {
            Some(t) => {
                assert(hoisted_select(h.node, 0) == Ok::<Hoisted<SelectView>, Fault>(
                    settled(h.node, 0),
                ));
            },
            None => {},
        }
    }
    assert(!clashes(once.ctes, Seq::empty()));
    assert(once.ctes + Seq::<CommonTableExpressionView>::empty() =~= once.ctes);
}

/// The rewrite for a dialect is idempotent on selects, and leaves the
/// statements alone that the dialect can compile as they are.
pub proof fn lemma_adapting_is_idempotent(d: Dialect, q: QueryView)
    requires
        adapted(d, q) is Ok,
        q is Select || d.skips_conflicts(),
    ensures
        adapted(d, adapted(d, q)->Ok_0) == adapted(d, q),
        d.compares_rows() && d.skips_conflicts() ==> adapted(d, q) == Ok::<QueryView, Fault>(q),
{
    match q {
        QueryView::Select(s) => {
            if !d.compares_rows() {
                lemma_hoisting_is_idempotent(*s);
            }
        },
        _ => {},
    }
}

} // verus!

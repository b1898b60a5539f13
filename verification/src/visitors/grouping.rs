//! Grouping: the connectives of a condition can be read back from what
//! is written, so that conditions that group differently are never
//! written alike.

use vstd::prelude::*;
use crate::ast::model::{ConditionTreeView, ExpressionKindView, ExpressionView};
use crate::dialect::Dialect;
use crate::error::Fault;
use crate::visitors::model::{
    concat,
    concat_after,
    join,
    join_after,
    lemma_join_take,
    nothing,
    surround,
    text,
    then,
    Piece,
    Rendered,
};
use crate::visitors::syntax::{
    alias_suffix,
    render_conditions,
    render_expression,
    render_expressions,
};

verus! {

broadcast use vstd::seq::group_seq_axioms;

/// What a condition is written with: parentheses, connectives, and the
/// expressions that it connects, each as a whole.
pub ghost enum Token {
    Open,
    Close,
    And,
    Or,
    Not,
    Always,
    Never,
    Leaf(ExpressionView),
}

/// How a condition groups its expressions.
pub ghost enum Group {
    /// An expression that is no condition tree.
    Atom(ExpressionView),
    /// The condition that always holds.
    Always,
    /// The condition that never holds.
    Never,
    /// Groups in parentheses, connected by `AND` where `all` is set and
    /// by `OR` where it is not. Fewer than two groups have no connective
    /// between them, and count as connected by `AND`.
    Bracket(Seq<Group>, bool),
    /// The negation of a group, in parentheses.
    Negation(Box<Group>),
}

/// The connective between the groups of a bracket.
pub open spec fn connective(all: bool) -> Token {
    if all {
        Token::And
    } else {
        Token::Or
    }
}

/// What a group is written with.
pub open spec fn written(g: Group) -> Seq<Token>
    decreases g, 0nat,
{
    match g {
        Group::Atom(e) => seq![Token::Leaf(e)],
        Group::Always => seq![Token::Always],
        Group::Never => seq![Token::Never],
        Group::Bracket(groups, all) => seq![Token::Open] + written_from(groups, all, 0) + seq![
            Token::Close,
        ],
        Group::Negation(inner) => seq![Token::Open, Token::Not] + written(*inner) + seq![
            Token::Close,
        ],
    }
}

/// What the groups from the one at `i` on are written with, the
/// connective between each two of them.
pub open spec fn written_from(groups: Seq<Group>, all: bool, i: int) -> Seq<Token>
    decreases groups, (groups.len() - i) as nat,
{
    if 0 <= i < groups.len() {
        written(groups[i]) + (if i + 1 < groups.len() {
            seq![connective(all)] + written_from(groups, all, i + 1)
        } else {
            Seq::empty()
        })
    } else {
        Seq::empty()
    }
}

/// True where every bracket of fewer than two groups counts as
/// connected by `AND`.
pub open spec fn normal(g: Group) -> bool
    decreases g,
{
    match g {
        Group::Bracket(groups, all) => (groups.len() < 2 ==> all) && forall|i: int|
            0 <= i < groups.len() ==> normal(#[trigger] groups[i]),
        Group::Negation(inner) => normal(*inner),
        _ => true,
    }
}

/// True for a token with which a group begins.
pub open spec fn begins_a_group(t: Token) -> bool {
    t is Open || t is Always || t is Never || t is Leaf
}

/// A group is written with something, and begins with a parenthesis or
/// with what it is.
pub proof fn lemma_group_begins(g: Group)
    ensures
        written(g).len() > 0,
        begins_a_group(written(g)[0]),
{
}

/// Two sequences that are equal have the same first item and the same
/// rest.
proof fn lemma_same_rest(a: Token, x: Seq<Token>, b: Token, y: Seq<Token>)
    requires
        seq![a] + x == seq![b] + y,
    ensures
        a == b,
        x == y,
{
    assert((seq![a] + x)[0] == a);
    assert((seq![b] + y)[0] == b);
    assert((seq![a] + x).drop_first() =~= x);
    assert((seq![b] + y).drop_first() =~= y);
}

/// What is written can be read in one way only: where a group with
/// something after it is written like another group with something
/// after it, the groups are the same, and so is what comes after them.
pub proof fn lemma_one_reading(g1: Group, g2: Group, r1: Seq<Token>, r2: Seq<Token>)
    requires
        normal(g1),
        normal(g2),
        written(g1) + r1 == written(g2) + r2,
    ensures
        g1 == g2,
        r1 == r2,
    decreases g1, 0nat,
{
    lemma_group_begins(g1);
    lemma_group_begins(g2);
    let w1 = written(g1);
    let w2 = written(g2);
    assert((w1 + r1)[0] == w1[0]);
    assert((w2 + r2)[0] == w2[0]);
    match g1 {
        Group::Atom(e) => {
            assert(w1 + r1 =~= seq![Token::Leaf(e)] + r1);
            assert(g2 is Atom);
            assert(w2 + r2 =~= seq![w2[0]] + r2);
            lemma_same_rest(Token::Leaf(e), r1, w2[0], r2);
        },
        Group::Always => {
            assert(w1 + r1 =~= seq![Token::Always] + r1);
            assert(g2 is Always);
            assert(w2 + r2 =~= seq![Token::Always] + r2);
            lemma_same_rest(Token::Always, r1, Token::Always, r2);
        },
        Group::Never => {
            assert(w1 + r1 =~= seq![Token::Never] + r1);
            assert(g2 is Never);
            assert(w2 + r2 =~= seq![Token::Never] + r2);
            lemma_same_rest(Token::Never, r1, Token::Never, r2);
        },
        Group::Negation(h1) => {
            let x1 = seq![Token::Not] + (written(*h1) + (seq![Token::Close] + r1));
            assert(w1 + r1 =~= seq![Token::Open] + x1);
            assert(g2 is Bracket || g2 is Negation);
            match g2 {
                Group::Negation(h2) => {
                    let x2 = seq![Token::Not] + (written(*h2) + (seq![Token::Close] + r2));
                    assert(w2 + r2 =~= seq![Token::Open] + x2);
                    lemma_same_rest(Token::Open, x1, Token::Open, x2);
                    lemma_same_rest(
                        Token::Not,
                        written(*h1) + (seq![Token::Close] + r1),
                        Token::Not,
                        written(*h2) + (seq![Token::Close] + r2),
                    );
                    lemma_one_reading(*h1, *h2, seq![Token::Close] + r1, seq![Token::Close] + r2);
                    lemma_same_rest(Token::Close, r1, Token::Close, r2);
                },
                Group::Bracket(groups2, all2) => {
                    let x2 = written_from(groups2, all2, 0) + (seq![Token::Close] + r2);
                    assert(w2 + r2 =~= seq![Token::Open] + x2);
                    lemma_same_rest(Token::Open, x1, Token::Open, x2);
                    assert(x1[0] == Token::Not);
                    if groups2.len() == 0 {
                        assert(x2[0] == Token::Close);
                    } else {
                        lemma_group_begins(groups2[0]);
                        assert(x2[0] == written(groups2[0])[0]);
                    }
                    assert(false);
                },
                _ => {},
            }
        },
        Group::Bracket(groups1, all1) => {
            let x1 = written_from(groups1, all1, 0) + (seq![Token::Close] + r1);
            assert(w1 + r1 =~= seq![Token::Open] + x1);
            assert(g2 is Bracket || g2 is Negation);
            match g2 {
                Group::Negation(h2) => {
                    let x2 = seq![Token::Not] + (written(*h2) + (seq![Token::Close] + r2));
                    assert(w2 + r2 =~= seq![Token::Open] + x2);
                    lemma_same_rest(Token::Open, x1, Token::Open, x2);
                    assert(x2[0] == Token::Not);
                    if groups1.len() == 0 {
                        assert(x1[0] == Token::Close);
                    } else {
                        lemma_group_begins(groups1[0]);
                        assert(x1[0] == written(groups1[0])[0]);
                    }
                    assert(false);
                },
                Group::Bracket(groups2, all2) => {
                    let x2 = written_from(groups2, all2, 0) + (seq![Token::Close] + r2);
                    assert(w2 + r2 =~= seq![Token::Open] + x2);
                    lemma_same_rest(Token::Open, x1, Token::Open, x2);
                    if groups1.len() == 0 {
                        assert(x1 =~= seq![Token::Close] + r1);
                        if groups2.len() > 0 {
                            lemma_group_begins(groups2[0]);
                            assert(x2[0] == written(groups2[0])[0]);
                            assert(x1[0] == Token::Close);
                            assert(false);
                        }
                        assert(x2 =~= seq![Token::Close] + r2);
                        lemma_same_rest(Token::Close, r1, Token::Close, r2);
                        assert(groups1 =~= groups2);
                    } else {
                        if groups2.len() == 0 {
                            lemma_group_begins(groups1[0]);
                            assert(x1[0] == written(groups1[0])[0]);
                            assert(x2[0] == Token::Close);
                            assert(false);
                        }
                        lemma_one_reading_from(groups1, all1, groups2, all2, 0, r1, r2);
                        assert(groups1 =~= groups2);
                    }
                },
                _ => {},
            }
        },
    }
}

/// The groups of a bracket can be read in one way only.
pub proof fn lemma_one_reading_from(
    groups1: Seq<Group>,
    all1: bool,
    groups2: Seq<Group>,
    all2: bool,
    i: int,
    r1: Seq<Token>,
    r2: Seq<Token>,
)
    requires
        0 <= i < groups1.len(),
        i < groups2.len(),
        forall|k: int| 0 <= k < groups1.len() ==> normal(#[trigger] groups1[k]),
        forall|k: int| 0 <= k < groups2.len() ==> normal(#[trigger] groups2[k]),
        written_from(groups1, all1, i) + (seq![Token::Close] + r1) == written_from(groups2, all2, i)
            + (seq![Token::Close] + r2),
    ensures
        groups1.len() == groups2.len(),
        forall|k: int| i <= k < groups1.len() ==> groups1[k] == groups2[k],
        i + 1 < groups1.len() ==> all1 == all2,
        r1 == r2,
    decreases groups1, (groups1.len() - i) as nat,
{
    let close1 = seq![Token::Close] + r1;
    let close2 = seq![Token::Close] + r2;
    let tail1 = if i + 1 < groups1.len() {
        seq![connective(all1)] + written_from(groups1, all1, i + 1)
    } else {
        Seq::empty()
    };
    let tail2 = if i + 1 < groups2.len() {
        seq![connective(all2)] + written_from(groups2, all2, i + 1)
    } else {
        Seq::empty()
    };
    assert(written_from(groups1, all1, i) + close1 =~= written(groups1[i]) + (tail1 + close1));
    assert(written_from(groups2, all2, i) + close2 =~= written(groups2[i]) + (tail2 + close2));
    lemma_one_reading(groups1[i], groups2[i], tail1 + close1, tail2 + close2);
    if i + 1 < groups1.len() {
        let next1 = written_from(groups1, all1, i + 1) + close1;
        assert(tail1 + close1 =~= seq![connective(all1)] + next1);
        if i + 1 < groups2.len() {
            let next2 = written_from(groups2, all2, i + 1) + close2;
            assert(tail2 + close2 =~= seq![connective(all2)] + next2);
            lemma_same_rest(connective(all1), next1, connective(all2), next2);
            lemma_one_reading_from(groups1, all1, groups2, all2, i + 1, r1, r2);
        } else {
            assert(tail2 + close2 =~= seq![Token::Close] + r2);
            lemma_same_rest(connective(all1), next1, Token::Close, r2);
            assert(false);
        }
    } else {
        assert(tail1 + close1 =~= seq![Token::Close] + r1);
        if i + 1 < groups2.len() {
            let next2 = written_from(groups2, all2, i + 1) + close2;
            assert(tail2 + close2 =~= seq![connective(all2)] + next2);
            lemma_same_rest(Token::Close, r1, connective(all2), next2);
            assert(false);
        } else {
            assert(tail2 + close2 =~= seq![Token::Close] + r2);
            lemma_same_rest(Token::Close, r1, Token::Close, r2);
        }
    }
}

/// Groups that are written alike are the same.
pub proof fn lemma_written_alike(g1: Group, g2: Group)
    requires
        normal(g1),
        normal(g2),
        written(g1) == written(g2),
    ensures
        g1 == g2,
{
    assert(written(g1) + Seq::<Token>::empty() =~= written(g2) + Seq::<Token>::empty());
    lemma_one_reading(g1, g2, Seq::empty(), Seq::empty());
}

/// How an expression of a condition groups: as the condition that it
/// is, where it is one without an alias, else as itself.
pub open spec fn grouping_of(e: ExpressionView) -> Group
    decreases e,
{
    match e.kind {
        ExpressionKindView::ConditionTree(t) => if e.alias is None {
            grouping(t)
        } else {
            Group::Atom(e)
        },
        _ => Group::Atom(e),
    }
}

/// How each expression groups.
pub open spec fn groupings(es: Seq<ExpressionView>) -> Seq<Group>
    decreases es,
{
    Seq::new(
        es.len(),
        |i: int|
            if 0 <= i < es.len() {
                grouping_of(es[i])
            } else {
                Group::Always
            },
    )
}

/// How a condition groups its expressions.
pub open spec fn grouping(t: ConditionTreeView) -> Group
    decreases t,
{
    match t {
        ConditionTreeView::And(es) => Group::Bracket(groupings(es), true),
        ConditionTreeView::Or(es) => Group::Bracket(groupings(es), es.len() < 2),
        ConditionTreeView::Not(e) => Group::Negation(Box::new(grouping_of(*e))),
        ConditionTreeView::Single(e) => grouping_of(*e),
        ConditionTreeView::NoCondition => Group::Always,
        ConditionTreeView::NegativeCondition => Group::Never,
    }
}

/// The grouping of an expression is normal.
pub proof fn lemma_grouping_of_is_normal(e: ExpressionView)
    ensures
        normal(grouping_of(e)),
    decreases e,
{
    match e.kind {
        ExpressionKindView::ConditionTree(t) => {
            if e.alias is None {
                lemma_grouping_is_normal(t);
            }
        },
        _ => {},
    }
}

/// A condition groups normally where its expressions do.
proof fn lemma_grouping_step(t: ConditionTreeView)
    requires
        match t {
            ConditionTreeView::And(es) => forall|i: int|
                0 <= i < es.len() ==> normal(#[trigger] grouping_of(es[i])),
            ConditionTreeView::Or(es) => forall|i: int|
                0 <= i < es.len() ==> normal(#[trigger] grouping_of(es[i])),
            ConditionTreeView::Not(e) => normal(grouping_of(*e)),
            ConditionTreeView::Single(e) => normal(grouping_of(*e)),
            _ => true,
        },
    ensures
        normal(grouping(t)),
{
    match t {
        ConditionTreeView::And(es) => {
            let groups = groupings(es);
            assert forall|i: int| 0 <= i < groups.len() implies normal(#[trigger] groups[i]) by {
                assert(groups[i] == grouping_of(es[i]));
            }
            assert(grouping(t) == Group::Bracket(groups, true));
        },
        ConditionTreeView::Or(es) => {
            let groups = groupings(es);
            assert forall|i: int| 0 <= i < groups.len() implies normal(#[trigger] groups[i]) by {
                assert(groups[i] == grouping_of(es[i]));
            }
            assert(grouping(t) == Group::Bracket(groups, es.len() < 2));
        },
        _ => {},
    }
}

/// The grouping of a condition is normal.
pub proof fn lemma_grouping_is_normal(t: ConditionTreeView)
    ensures
        normal(grouping(t)),
    decreases t,
{
    match t {
        ConditionTreeView::And(es) => {
            assert forall|i: int| 0 <= i < es.len() implies normal(#[trigger] grouping_of(es[i])) by {
                lemma_grouping_of_is_normal(es[i]);
            }
        },
        ConditionTreeView::Or(es) => {
            assert forall|i: int| 0 <= i < es.len() implies normal(#[trigger] grouping_of(es[i])) by {
                lemma_grouping_of_is_normal(es[i]);
            }
        },
        ConditionTreeView::Not(e) => lemma_grouping_of_is_normal(*e),
        ConditionTreeView::Single(e) => lemma_grouping_of_is_normal(*e),
        _ => {},
    }
    lemma_grouping_step(t);
}

/// What a condition is written with.
pub open spec fn tokens(t: ConditionTreeView) -> Seq<Token> {
    written(grouping(t))
}

/// Precedence is kept: conditions that are written with the same
/// parentheses, connectives and expressions group their expressions in
/// the same way, so that conditions that group differently are never
/// written alike.
pub proof fn lemma_grouping_is_read_back(a: ConditionTreeView, b: ConditionTreeView)
    requires
        tokens(a) == tokens(b),
    ensures
        grouping(a) == grouping(b),
{
    lemma_grouping_is_normal(a);
    lemma_grouping_is_normal(b);
    lemma_written_alike(grouping(a), grouping(b));
}

/// What a token is written as: a text of its own, or the expression.
pub open spec fn token_rendering(d: Dialect, t: Token) -> Rendered {
    match t {
        Token::Open => text("("@),
        Token::Close => text(")"@),
        Token::And => text(" AND "@),
        Token::Or => text(" OR "@),
        Token::Not => text("NOT "@),
        Token::Always => text("1=1"@),
        Token::Never => text("1=0"@),
        Token::Leaf(e) => render_expression(d, e),
    }
}

/// What each of the tokens is written as.
pub open spec fn token_renderings(d: Dialect, ts: Seq<Token>) -> Seq<Rendered> {
    Seq::new(ts.len(), |i: int| token_rendering(d, ts[i]))
}

/// The tokens written one after another.
pub open spec fn spelled(d: Dialect, ts: Seq<Token>) -> Rendered {
    concat(token_renderings(d, ts))
}

/// True where two renderings write the same after whatever was written
/// before, and fail alike.
pub open spec fn same(a: Rendered, b: Rendered) -> bool {
    forall|before: Seq<Piece>| #[trigger] a(before) == b(before)
}

/// Parts written one after another are the first of them and then the
/// others.
proof fn lemma_concat_add(a: Seq<Rendered>, b: Seq<Rendered>, before: Seq<Piece>)
    ensures
        concat_after(a + b, before) == match concat_after(a, before) {
            Err(f) => Err::<Seq<Piece>, Fault>(f),
            Ok(middle) => concat_after(b, middle),
        },
    decreases b.len(),
{
    if b.len() == 0 {
        assert(a + b =~= a);
    } else {
        assert((a + b).drop_last() =~= a + b.drop_last());
        assert((a + b).last() == b.last());
        lemma_concat_add(a, b.drop_last(), before);
    }
}

/// Tokens after tokens are written as the first and then the others.
proof fn lemma_spelled_add(d: Dialect, a: Seq<Token>, b: Seq<Token>)
    ensures
        same(spelled(d, a + b), then(spelled(d, a), spelled(d, b))),
{
    assert(token_renderings(d, a + b) =~= token_renderings(d, a) + token_renderings(d, b));
    assert forall|before: Seq<Piece>| #[trigger]
        spelled(d, a + b)(before) == then(spelled(d, a), spelled(d, b))(before) by {
        lemma_concat_add(token_renderings(d, a), token_renderings(d, b), before);
    }
}

/// One token is written as what it is written as.
proof fn lemma_spelled_one(d: Dialect, t: Token)
    ensures
        same(spelled(d, seq![t]), token_rendering(d, t)),
{
    let items = token_renderings(d, seq![t]);
    assert(items.len() == 1);
    assert(items.last() == token_rendering(d, t));
    assert(items.drop_last() =~= Seq::<Rendered>::empty());
    assert forall|before: Seq<Piece>| #[trigger]
        spelled(d, seq![t])(before) == token_rendering(d, t)(before) by {
        assert(concat_after(items.drop_last(), before) == Ok::<Seq<Piece>, Fault>(before));
    }
}

/// No tokens are written as nothing.
proof fn lemma_spelled_none(d: Dialect)
    ensures
        same(spelled(d, Seq::<Token>::empty()), nothing()),
{
    assert(token_renderings(d, Seq::<Token>::empty()).len() == 0);
}

/// The items of a list from the one at `i` on, the separator between
/// each two of them.
pub open spec fn join_from(items: Seq<Rendered>, separator: Seq<char>, i: int) -> Rendered
    decreases items.len() - i,
{
    if 0 <= i < items.len() {
        then(
            items[i],
            if i + 1 < items.len() {
                then(text(separator), join_from(items, separator, i + 1))
            } else {
                nothing()
            },
        )
    } else {
        nothing()
    }
}

/// A list is its first `i` items and then the others.
proof fn lemma_join_from(items: Seq<Rendered>, separator: Seq<char>, i: int, before: Seq<Piece>)
    requires
        0 <= i < items.len(),
    ensures
        join_after(items, separator, before) == match join_after(items.take(i), separator, before) {
            Err(f) => Err::<Seq<Piece>, Fault>(f),
            Ok(middle) => join_from(items, separator, i)(
                if i == 0 {
                    middle
                } else {
                    middle.push(Piece::Text(separator))
                },
            ),
        },
    decreases items.len() - i,
{
    lemma_join_take(items, separator, i, before);
    if i + 1 < items.len() {
        lemma_join_from(items, separator, i + 1, before);
    } else {
        assert(items.take(i + 1) =~= items);
    }
}

/// A list is its items from the first on.
proof fn lemma_join_is_join_from(items: Seq<Rendered>, separator: Seq<char>)
    ensures
        same(join(items, separator), join_from(items, separator, 0)),
{
    assert forall|before: Seq<Piece>| #[trigger]
        join(items, separator)(before) == join_from(items, separator, 0)(before) by {
        if items.len() > 0 {
            lemma_join_from(items, separator, 0, before);
            assert(items.take(0) =~= Seq::<Rendered>::empty());
        }
    }
}

/// The groups of a bracket from the one at `i` on are written as the
/// list of what each of them is written as.
proof fn lemma_groups_are_spelled(
    d: Dialect,
    groups: Seq<Group>,
    all: bool,
    items: Seq<Rendered>,
    separator: Seq<char>,
    i: int,
)
    requires
        0 <= i <= groups.len(),
        items.len() == groups.len(),
        forall|k: int|
            0 <= k < groups.len() ==> same(#[trigger] items[k], spelled(d, written(groups[k]))),
        groups.len() >= 2 ==> token_rendering(d, connective(all)) == text(separator),
    ensures
        same(join_from(items, separator, i), spelled(d, written_from(groups, all, i))),
    decreases groups.len() - i,
{
    if i < groups.len() {
        let first = written(groups[i]);
        if i + 1 < groups.len() {
            let others = written_from(groups, all, i + 1);
            lemma_groups_are_spelled(d, groups, all, items, separator, i + 1);
            lemma_spelled_add(d, first, seq![connective(all)] + others);
            lemma_spelled_add(d, seq![connective(all)], others);
            lemma_spelled_one(d, connective(all));
            assert(written_from(groups, all, i) == first + (seq![connective(all)] + others));
            assert(same(items[i], spelled(d, first)));
            assert forall|before: Seq<Piece>| #[trigger]
                join_from(items, separator, i)(before) == spelled(
                    d,
                    written_from(groups, all, i),
                )(before) by {
                match items[i](before) {
                    Ok(middle) => {
                        assert(spelled(d, seq![connective(all)])(middle) == text(separator)(middle));
                        let next = middle.push(Piece::Text(separator));
                        assert(join_from(items, separator, i + 1)(next) == spelled(d, others)(next));
                    },
                    Err(_) => {},
                }
            }
        } else {
            lemma_spelled_none(d);
            assert(written_from(groups, all, i) =~= first);
            assert(same(items[i], spelled(d, first)));
            assert forall|before: Seq<Piece>| #[trigger]
                join_from(items, separator, i)(before) == spelled(
                    d,
                    written_from(groups, all, i),
                )(before) by {
                assert(items[i](before) == spelled(d, first)(before));
            }
        }
    } else {
        lemma_spelled_none(d);
        assert(written_from(groups, all, i) =~= Seq::<Token>::empty());
    }
}

/// What stands in parentheses is spelled between the tokens of the
/// parentheses.
proof fn lemma_bracket_is_spelled(d: Dialect, inner: Rendered, ts: Seq<Token>)
    requires
        same(inner, spelled(d, ts)),
    ensures
        same(
            surround("("@, inner, ")"@),
            spelled(d, seq![Token::Open] + ts + seq![Token::Close]),
        ),
{
    lemma_spelled_add(d, seq![Token::Open] + ts, seq![Token::Close]);
    lemma_spelled_add(d, seq![Token::Open], ts);
    lemma_spelled_one(d, Token::Open);
    lemma_spelled_one(d, Token::Close);
    assert forall|before: Seq<Piece>| #[trigger]
        surround("("@, inner, ")"@)(before) == spelled(
            d,
            seq![Token::Open] + ts + seq![Token::Close],
        )(before) by {
        let opened = before.push(Piece::Text("("@));
        assert(spelled(d, seq![Token::Open])(before) == text("("@)(before));
        assert(inner(opened) == spelled(d, ts)(opened));
        match inner(opened) {
            Ok(middle) => {
                assert(spelled(d, seq![Token::Close])(middle) == text(")"@)(middle));
            },
            Err(_) => {},
        }
    }
}

/// An expression is written as the tokens of its grouping, where what
/// it holds is.
proof fn lemma_expression_step(d: Dialect, e: ExpressionView)
    requires
        match e.kind {
            ExpressionKindView::ConditionTree(t) => e.alias is None ==> same(
                render_conditions(d, t),
                spelled(d, tokens(t)),
            ),
            _ => true,
        },
    ensures
        same(render_expression(d, e), spelled(d, written(grouping_of(e)))),
{
    reveal(render_expression);
    reveal(render_conditions);
    reveal(alias_suffix);
    match e.kind {
        ExpressionKindView::ConditionTree(t) => {
            if e.alias is None {
                assert forall|before: Seq<Piece>| #[trigger]
                    render_expression(d, e)(before) == spelled(d, written(grouping_of(e)))(
                        before,
                    ) by {
                    assert(render_conditions(d, t)(before) == spelled(d, tokens(t))(before));
                }
            } else {
                lemma_spelled_one(d, Token::Leaf(e));
            }
        },
        _ => {
            lemma_spelled_one(d, Token::Leaf(e));
        },
    }
}

/// A condition is written as its tokens, where its expressions are.
proof fn lemma_conditions_step(d: Dialect, t: ConditionTreeView)
    requires
        match t {
            ConditionTreeView::And(es) => same(
                join(render_expressions(d, es), " AND "@),
                spelled(d, written_from(groupings(es), true, 0)),
            ),
            ConditionTreeView::Or(es) => same(
                join(render_expressions(d, es), " OR "@),
                spelled(d, written_from(groupings(es), es.len() < 2, 0)),
            ),
            ConditionTreeView::Not(e) => same(
                render_expression(d, *e),
                spelled(d, written(grouping_of(*e))),
            ),
            ConditionTreeView::Single(e) => same(
                render_expression(d, *e),
                spelled(d, written(grouping_of(*e))),
            ),
            _ => true,
        },
    ensures
        same(render_conditions(d, t), spelled(d, tokens(t))),
{
    reveal(render_conditions);
    reveal(render_expression);
    match t {
        ConditionTreeView::And(es) => {
            lemma_bracket_is_spelled(
                d,
                join(render_expressions(d, es), " AND "@),
                written_from(groupings(es), true, 0),
            );
        },
        ConditionTreeView::Or(es) => {
            lemma_bracket_is_spelled(
                d,
                join(render_expressions(d, es), " OR "@),
                written_from(groupings(es), es.len() < 2, 0),
            );
        },
        ConditionTreeView::Not(e) => {
            let inner = written(grouping_of(*e));
            let negated = then(text("NOT "@), render_expression(d, *e));
            lemma_spelled_add(d, seq![Token::Not], inner);
            lemma_spelled_one(d, Token::Not);
            assert(same(negated, spelled(d, seq![Token::Not] + inner))) by {
                assert forall|before: Seq<Piece>| #[trigger]
                    negated(before) == spelled(d, seq![Token::Not] + inner)(before) by {
                    let next = before.push(Piece::Text("NOT "@));
                    assert(spelled(d, seq![Token::Not])(before) == text("NOT "@)(before));
                    assert(render_expression(d, *e)(next) == spelled(d, inner)(next));
                }
            }
            lemma_bracket_is_spelled(d, negated, seq![Token::Not] + inner);
            assert(tokens(t) =~= seq![Token::Open] + (seq![Token::Not] + inner) + seq![Token::Close]);
        },
        ConditionTreeView::Single(e) => {},
        ConditionTreeView::NoCondition => {
            lemma_spelled_one(d, Token::Always);
        },
        ConditionTreeView::NegativeCondition => {
            lemma_spelled_one(d, Token::Never);
        },
    }
}

/// The renderings of the expressions of a list, and their groupings.
proof fn lemma_list_step(d: Dialect, es: Seq<ExpressionView>)
    ensures
        render_expressions(d, es).len() == es.len(),
        groupings(es).len() == es.len(),
        forall|i: int|
            0 <= i < es.len() ==> #[trigger] render_expressions(d, es)[i] == render_expression(
                d,
                es[i],
            ),
        forall|i: int| 0 <= i < es.len() ==> #[trigger] groupings(es)[i] == grouping_of(es[i]),
{
    reveal(render_expression);
}

/// An expression of a condition is written as the tokens of its
/// grouping.
pub proof fn lemma_expression_is_written_with_its_tokens(d: Dialect, e: ExpressionView)
    ensures
        same(render_expression(d, e), spelled(d, written(grouping_of(e)))),
    decreases e,
{
    match e.kind {
        ExpressionKindView::ConditionTree(t) => {
            if e.alias is None {
                lemma_condition_is_written_with_its_tokens(d, t);
            }
        },
        _ => {},
    }
    lemma_expression_step(d, e);
}

/// A list of expressions of a condition is written as the tokens of
/// their groupings, the connective between each two of them.
pub proof fn lemma_list_is_written_with_its_tokens(
    d: Dialect,
    es: Seq<ExpressionView>,
    all: bool,
    separator: Seq<char>,
)
    requires
        es.len() >= 2 ==> token_rendering(d, connective(all)) == text(separator),
    ensures
        same(
            join(render_expressions(d, es), separator),
            spelled(d, written_from(groupings(es), all, 0)),
        ),
    decreases es,
{
    let items = render_expressions(d, es);
    let groups = groupings(es);
    lemma_list_step(d, es);
    assert forall|k: int| 0 <= k < groups.len() implies same(
        #[trigger] items[k],
        spelled(d, written(groups[k])),
    ) by {
        lemma_expression_is_written_with_its_tokens(d, es[k]);
    }
    lemma_groups_are_spelled(d, groups, all, items, separator, 0);
    lemma_join_is_join_from(items, separator);
    assert forall|before: Seq<Piece>| #[trigger]
        join(items, separator)(before) == spelled(d, written_from(groups, all, 0))(before) by {
        assert(join(items, separator)(before) == join_from(items, separator, 0)(before));
        assert(join_from(items, separator, 0)(before) == spelled(d, written_from(groups, all, 0))(
            before,
        ));
    }
}

/// A condition is written as its tokens, one after another: every
/// `AND`, `OR` and `NOT` in parentheses of its own, the expressions in
/// their order, the connective between each two of them.
pub proof fn lemma_condition_is_written_with_its_tokens(d: Dialect, t: ConditionTreeView)
    ensures
        same(render_conditions(d, t), spelled(d, tokens(t))),
    decreases t,
{
    match t {
        ConditionTreeView::And(es) => lemma_list_is_written_with_its_tokens(d, es, true, " AND "@),
        ConditionTreeView::Or(es) => lemma_list_is_written_with_its_tokens(
            d,
            es,
            es.len() < 2,
            " OR "@,
        ),
        ConditionTreeView::Not(e) => lemma_expression_is_written_with_its_tokens(d, *e),
        ConditionTreeView::Single(e) => lemma_expression_is_written_with_its_tokens(d, *e),
        _ => {},
    }
    lemma_conditions_step(d, t);
}

} // verus!

//! What holds of every compiled query.

use vstd::prelude::*;
use crate::ast::model::{ConditionTreeView, QueryView};
use crate::ast::value::{value_views, Value};
use crate::dialect::Dialect;
use crate::error::{Error, ErrorKind};
use crate::visitors::compile::{compiled, is_compiled, is_refused};
use crate::visitors::compose::{compositional, lemma_appends, own};
use crate::visitors::induction::lemma_query_composes;
use crate::visitors::model::Rendered;
use crate::visitors::syntax::render_query;
use crate::visitors::model::{
    join,
    params_of,
    piece_text,
    placeholder,
    surround,
    text,
    text_of,
    then,
    Piece,
};
use crate::visitors::syntax::{render_conditions, render_expression, render_expressions};

verus! {

broadcast use vstd::seq::group_seq_axioms;

/// The number of bound values among the pieces.
pub open spec fn count_params(pieces: Seq<Piece>) -> nat
    decreases pieces.len(),
{
    if pieces.len() == 0 {
        0
    } else {
        count_params(pieces.drop_last()) + if pieces.last() is Param {
            1nat
        } else {
            0nat
        }
    }
}

/// True where `prefix` is the beginning of `whole`.
pub open spec fn begins<A>(whole: Seq<A>, prefix: Seq<A>) -> bool {
    prefix.len() <= whole.len() && whole.take(prefix.len() as int) == prefix
}

/// Compiling is a function of the dialect and the query: two outcomes of
/// compiling one query for one dialect have the same text and the same
/// values.
pub proof fn lemma_build_is_deterministic(
    d: Dialect,
    q: QueryView,
    first_text: Seq<char>,
    first_values: Seq<Value>,
    second_text: Seq<char>,
    second_values: Seq<Value>,
)
    requires
        is_compiled(d, q, first_text, first_values),
        is_compiled(d, q, second_text, second_values),
    ensures
        first_text == second_text,
        value_views(first_values) == value_views(second_values),
{
}

/// A query is never both compiled and refused, and two refusals of one
/// query for one dialect are of one kind with one message.
pub proof fn lemma_outcome_is_unique(
    d: Dialect,
    q: QueryView,
    text: Seq<char>,
    values: Seq<Value>,
    e: Error,
    other: Error,
)
    ensures
        !(is_compiled(d, q, text, values) && is_refused(d, q, e)),
        is_refused(d, q, e) && is_refused(d, q, other) ==> (e.kind is ConversionError
            <==> other.kind is ConversionError) && (e.kind matches ErrorKind::ConversionError(m)
            ==> other.kind matches ErrorKind::ConversionError(n) && m@ == n@) && (
        e.kind matches ErrorKind::UnsupportedOperation(m)
            ==> other.kind matches ErrorKind::UnsupportedOperation(n) && m@ == n@),
{
}

/// A query that cannot be compiled is refused with one of two kinds of
/// error: a conversion error or an unsupported operation.
pub proof fn lemma_refusal_is_documented(d: Dialect, q: QueryView, e: Error)
    requires
        is_refused(d, q, e),
    ensures
        e.kind is ConversionError || e.kind is UnsupportedOperation,
{
}

/// There are as many bound values as there are parameters among the
/// pieces.
pub proof fn lemma_values_count(pieces: Seq<Piece>)
    ensures
        params_of(pieces).len() == count_params(pieces),
    decreases pieces.len(),
{
    if pieces.len() > 0 {
        lemma_values_count(pieces.drop_last());
    }
}

/// The values bound by the first pieces are the first of the values bound
/// by all of them.
pub proof fn lemma_params_of_prefix(pieces: Seq<Piece>, i: int)
    requires
        0 <= i <= pieces.len(),
    ensures
        begins(params_of(pieces), params_of(pieces.take(i))),
    decreases pieces.len() - i,
{
    if i == pieces.len() {
        assert(pieces.take(i) =~= pieces);
        assert(params_of(pieces).take(params_of(pieces).len() as int) =~= params_of(pieces));
    } else {
        lemma_params_of_prefix(pieces, i + 1);
        let next = pieces.take(i + 1);
        assert(next.drop_last() =~= pieces.take(i));
        let all = params_of(pieces);
        let more = params_of(next);
        let less = params_of(pieces.take(i));
        assert(all.take(more.len() as int) == more);
        assert(all.take(less.len() as int) =~= more.take(less.len() as int));
        assert(more.take(less.len() as int) =~= less);
    }
}

/// The text of the first pieces is the beginning of the text of all of
/// them.
pub proof fn lemma_text_of_prefix(d: Dialect, pieces: Seq<Piece>, i: int)
    requires
        0 <= i <= pieces.len(),
    ensures
        begins(text_of(d, pieces), text_of(d, pieces.take(i))),
    decreases pieces.len() - i,
{
    if i == pieces.len() {
        assert(pieces.take(i) =~= pieces);
        assert(text_of(d, pieces).take(text_of(d, pieces).len() as int) =~= text_of(d, pieces));
    } else {
        lemma_text_of_prefix(d, pieces, i + 1);
        let next = pieces.take(i + 1);
        assert(next.drop_last() =~= pieces.take(i));
        let all = text_of(d, pieces);
        let more = text_of(d, next);
        let less = text_of(d, pieces.take(i));
        assert(all.take(more.len() as int) == more);
        assert(all.take(less.len() as int) =~= more.take(less.len() as int));
        assert(more.take(less.len() as int) =~= less);
    }
}

/// The parameter-order invariant. Take the parameter at position `i`
/// among the pieces, with `k` parameters before it. Its value is the
/// value at position `k` of the bound values, and its placeholder is that
/// of position `k + 1`, written right after the text of the pieces
/// before it, within the text of the query.
pub proof fn lemma_parameter_order(d: Dialect, pieces: Seq<Piece>, i: int)
    requires
        0 <= i < pieces.len(),
        pieces[i] is Param,
    ensures
        ({
            let k = count_params(pieces.take(i));
            &&& k < params_of(pieces).len()
            &&& params_of(pieces)[k as int] == pieces[i]->Param_0
            &&& text_of(d, pieces.take(i + 1)) == text_of(d, pieces.take(i)) + placeholder(
                d,
                k + 1,
            )
            &&& begins(text_of(d, pieces), text_of(d, pieces.take(i + 1)))
        }),
{
    let before = pieces.take(i);
    let upto = pieces.take(i + 1);
    lemma_values_count(before);
    assert(upto.drop_last() =~= before);
    assert(upto.last() == pieces[i]);
    lemma_params_of_prefix(pieces, i + 1);
    lemma_text_of_prefix(d, pieces, i + 1);
    let k = params_of(before).len();
    assert(params_of(upto) == params_of(before).push(pieces[i]->Param_0));
    assert(params_of(pieces).take(params_of(upto).len() as int) == params_of(upto));
    assert(params_of(pieces)[k as int] == params_of(upto)[k as int]);
}

/// A piece of text binds no value and stands in the query text as it is.
pub proof fn lemma_text_is_kept(d: Dialect, pieces: Seq<Piece>, i: int)
    requires
        0 <= i < pieces.len(),
        pieces[i] is Text,
    ensures
        params_of(pieces.take(i + 1)) == params_of(pieces.take(i)),
        text_of(d, pieces.take(i + 1)) == text_of(d, pieces.take(i)) + pieces[i]->Text_0,
        begins(text_of(d, pieces), text_of(d, pieces.take(i + 1))),
{
    let upto = pieces.take(i + 1);
    assert(upto.drop_last() =~= pieces.take(i));
    assert(upto.last() == pieces[i]);
    lemma_text_of_prefix(d, pieces, i + 1);
}

/// The values of a compiled query are as many as the parameters among
/// its pieces, whatever the dialect and the query.
pub proof fn lemma_compiled_values_match_placeholders(
    d: Dialect,
    q: QueryView,
    text: Seq<char>,
    values: Seq<Value>,
)
    requires
        is_compiled(d, q, text, values),
    ensures
        compiled(d, q) matches Ok(pieces) && values.len() == count_params(pieces),
{
    lemma_values_count(compiled(d, q)->Ok_0);
}

/// Every `AND`, `OR` and `NOT` of a condition tree stands between
/// parentheses of its own, with its items in order.
pub proof fn lemma_connectives_stand_in_parentheses(d: Dialect, t: ConditionTreeView)
    ensures
        t matches ConditionTreeView::And(es) ==> render_conditions(d, t) == surround(
            "("@,
            join(render_expressions(d, es), " AND "@),
            ")"@,
        ),
        t matches ConditionTreeView::Or(es) ==> render_conditions(d, t) == surround(
            "("@,
            join(render_expressions(d, es), " OR "@),
            ")"@,
        ),
        t matches ConditionTreeView::Not(e) ==> render_conditions(d, t) == surround(
            "("@,
            then(text("NOT "@), render_expression(d, *e)),
            ")"@,
        ),
{
    reveal(render_conditions);
}

/// What an `AND`, `OR` or `NOT` writes ends with a closing parenthesis.
pub proof fn lemma_connectives_close(d: Dialect, t: ConditionTreeView, before: Seq<Piece>)
    requires
        t is And || t is Or || t is Not,
        render_conditions(d, t)(before) is Ok,
    ensures
        render_conditions(d, t)(before)->Ok_0.len() > 0,
        render_conditions(d, t)(before)->Ok_0.last() == Piece::Text(")"@),
{
    reveal(render_conditions);
}

/// The values bound by pieces followed by more pieces are those of the
/// first followed by those of the others.
pub proof fn lemma_params_of_add(a: Seq<Piece>, b: Seq<Piece>)
    ensures
        params_of(a + b) == params_of(a) + params_of(b),
    decreases b.len(),
{
    if b.len() == 0 {
        assert(a + b =~= a);
        assert(params_of(a) + params_of(b) =~= params_of(a));
    } else {
        assert((a + b).drop_last() =~= a + b.drop_last());
        assert((a + b).last() == b.last());
        lemma_params_of_add(a, b.drop_last());
        assert(params_of(a + b) =~= params_of(a) + params_of(b));
    }
}

/// Nothing is dropped and nothing is reordered: the values of one part
/// followed by another are the values of the first followed by the
/// values of the second, each part with the values that it binds on its
/// own.
pub proof fn lemma_values_of_parts(first: Rendered, second: Rendered)
    requires
        compositional(first),
        compositional(second),
        own(then(first, second)) is Ok,
    ensures
        own(first) is Ok,
        own(second) is Ok,
        own(then(first, second))->Ok_0 == own(first)->Ok_0 + own(second)->Ok_0,
        params_of(own(then(first, second))->Ok_0) == params_of(own(first)->Ok_0) + params_of(
            own(second)->Ok_0,
        ),
{
    lemma_appends(second, own(first)->Ok_0);
    lemma_params_of_add(own(first)->Ok_0, own(second)->Ok_0);
}

/// What a statement writes does not depend on where it stands: after
/// whatever was written before, it writes the pieces that it writes on
/// its own, and it is refused for the same reason.
pub proof fn lemma_statement_is_compositional(d: Dialect, q: QueryView, before: Seq<Piece>)
    ensures
        render_query(d, q)(before) == match own(render_query(d, q)) {
            Ok(pieces) => Ok::<Seq<Piece>, crate::error::Fault>(before + pieces),
            Err(f) => Err::<Seq<Piece>, crate::error::Fault>(f),
        },
{
    lemma_query_composes(d, q);
    lemma_appends(render_query(d, q), before);
}

} // verus!

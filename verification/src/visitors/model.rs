//! What a compiled query is made of: pieces of text and bound values, in
//! the order in which they are written.

use vstd::prelude::*;
use crate::ast::value::ValueView;
use crate::dialect::Dialect;
use crate::error::Fault;
use crate::text::nat_text;

verus! {

broadcast use vstd::seq::group_seq_axioms;

/// One step of writing a query: a piece of text, or a value that is bound
/// as the next parameter and leaves its placeholder in the text.
pub ghost enum Piece {
    Text(Seq<char>),
    Param(ValueView),
}

/// The outcome of writing: the pieces written so far, or the reason why
/// the query cannot be compiled.
pub type Outcome = Result<Seq<Piece>, Fault>;

/// What a node compiles to: how it extends the pieces written before it,
/// or the reason why it cannot be compiled.
pub type Rendered = spec_fn(Seq<Piece>) -> Outcome;

/// The placeholder of the `n`-th parameter, counted from one.
pub open spec fn placeholder(dialect: Dialect, n: nat) -> Seq<char> {
    match dialect {
        Dialect::Postgres => "$"@ + nat_text(n),
        Dialect::Mssql => "@P"@ + nat_text(n),
        Dialect::Mysql => "?"@,
        Dialect::Sqlite => "?"@,
    }
}

/// The values bound by the pieces, in order.
pub open spec fn params_of(pieces: Seq<Piece>) -> Seq<ValueView>
    decreases pieces.len(),
{
    if pieces.len() == 0 {
        Seq::empty()
    } else {
        match pieces.last() {
            Piece::Text(_) => params_of(pieces.drop_last()),
            Piece::Param(v) => params_of(pieces.drop_last()).push(v),
        }
    }
}

/// The text of a piece written after `bound` parameters.
pub open spec fn piece_text(dialect: Dialect, piece: Piece, bound: nat) -> Seq<char> {
    match piece {
        Piece::Text(s) => s,
        Piece::Param(_) => placeholder(dialect, bound + 1),
    }
}

/// The query text of the pieces: every text as it is, every parameter as
/// the placeholder of its position.
pub open spec fn text_of(dialect: Dialect, pieces: Seq<Piece>) -> Seq<char>
    decreases pieces.len(),
{
    if pieces.len() == 0 {
        Seq::empty()
    } else {
        text_of(dialect, pieces.drop_last()) + piece_text(
            dialect,
            pieces.last(),
            params_of(pieces.drop_last()).len(),
        )
    }
}

/// A piece of text.
pub open spec fn text(s: Seq<char>) -> Rendered {
    |before: Seq<Piece>| Ok::<Seq<Piece>, Fault>(before.push(Piece::Text(s)))
}

/// A bound value.
pub open spec fn param(v: ValueView) -> Rendered {
    |before: Seq<Piece>| Ok::<Seq<Piece>, Fault>(before.push(Piece::Param(v)))
}

/// Nothing at all.
pub open spec fn nothing() -> Rendered {
    |before: Seq<Piece>| Ok::<Seq<Piece>, Fault>(before)
}

/// What cannot be compiled.
pub open spec fn fail(fault: Fault) -> Rendered {
    |before: Seq<Piece>| Err::<Seq<Piece>, Fault>(fault)
}

/// `first` followed by `second`; the first failure wins.
pub open spec fn then(first: Rendered, second: Rendered) -> Rendered {
    |before: Seq<Piece>|
        match first(before) {
            Err(f) => Err::<Seq<Piece>, Fault>(f),
            Ok(middle) => second(middle),
        }
}

/// `inner` between an opening and a closing text.
pub open spec fn surround(open: Seq<char>, inner: Rendered, close: Seq<char>) -> Rendered {
    then(text(open), then(inner, text(close)))
}

/// `inner` where `condition` holds, nothing otherwise.
pub open spec fn only_if(condition: bool, inner: Rendered) -> Rendered {
    if condition {
        inner
    } else {
        nothing()
    }
}

/// The items written in order after `before`, with `separator` between
/// each two of them.
pub open spec fn join_after(items: Seq<Rendered>, separator: Seq<char>, before: Seq<Piece>) -> Outcome
    decreases items.len(),
{
    if items.len() == 0 {
        Ok(before)
    } else {
        match join_after(items.drop_last(), separator, before) {
            Err(f) => Err(f),
            Ok(middle) => (items.last())(
                if items.len() == 1 {
                    middle
                } else {
                    middle.push(Piece::Text(separator))
                },
            ),
        }
    }
}

/// The items in order, with `separator` between each two of them.
pub open spec fn join(items: Seq<Rendered>, separator: Seq<char>) -> Rendered {
    |before: Seq<Piece>| join_after(items, separator, before)
}

/// The items written in order after `before`, with nothing between them.
pub open spec fn concat_after(items: Seq<Rendered>, before: Seq<Piece>) -> Outcome
    decreases items.len(),
{
    if items.len() == 0 {
        Ok(before)
    } else {
        match concat_after(items.drop_last(), before) {
            Err(f) => Err(f),
            Ok(middle) => (items.last())(middle),
        }
    }
}

/// The items in order, with nothing between them.
pub open spec fn concat(items: Seq<Rendered>) -> Rendered {
    |before: Seq<Piece>| concat_after(items, before)
}

/// The pieces of what is compiled on its own.
pub open spec fn pieces_of(rendered: Rendered) -> Outcome {
    rendered(Seq::empty())
}

/// Joining one more item writes the separator, unless the item is the
/// first, and then the item.
pub proof fn lemma_join_take(items: Seq<Rendered>, separator: Seq<char>, i: int, before: Seq<Piece>)
    requires
        0 <= i < items.len(),
    ensures
        join_after(items.take(i + 1), separator, before) == match join_after(
            items.take(i),
            separator,
            before,
        ) {
            Err(f) => Err::<Seq<Piece>, Fault>(f),
            Ok(middle) => (items[i])(
                if i == 0 {
                    middle
                } else {
                    middle.push(Piece::Text(separator))
                },
            ),
        },
{
    assert(items.take(i + 1).drop_last() =~= items.take(i));
    assert(items.take(i + 1).last() == items[i]);
}

/// Where the first `k` items fail, more of them fail in the same way.
pub proof fn lemma_join_fails_upto(
    items: Seq<Rendered>,
    separator: Seq<char>,
    k: int,
    n: int,
    before: Seq<Piece>,
)
    requires
        0 <= k <= n <= items.len(),
        join_after(items.take(k), separator, before) is Err,
    ensures
        join_after(items.take(n), separator, before) == join_after(items.take(k), separator, before),
    decreases n,
{
    if n > k {
        lemma_join_take(items, separator, n - 1, before);
        lemma_join_fails_upto(items, separator, k, n - 1, before);
    }
}

/// Where the first `k` items fail, all of them fail in the same way.
pub proof fn lemma_join_fails(items: Seq<Rendered>, separator: Seq<char>, k: int, before: Seq<Piece>)
    requires
        0 <= k <= items.len(),
        join_after(items.take(k), separator, before) is Err,
    ensures
        join_after(items, separator, before) == join_after(items.take(k), separator, before),
{
    lemma_join_fails_upto(items, separator, k, items.len() as int, before);
    assert(items.take(items.len() as int) =~= items);
}

/// Concatenating one more item writes it.
pub proof fn lemma_concat_take(items: Seq<Rendered>, i: int, before: Seq<Piece>)
    requires
        0 <= i < items.len(),
    ensures
        concat_after(items.take(i + 1), before) == match concat_after(items.take(i), before) {
            Err(f) => Err::<Seq<Piece>, Fault>(f),
            Ok(middle) => (items[i])(middle),
        },
{
    assert(items.take(i + 1).drop_last() =~= items.take(i));
    assert(items.take(i + 1).last() == items[i]);
}

/// Where the first `k` items fail, more of them fail in the same way.
pub proof fn lemma_concat_fails_upto(items: Seq<Rendered>, k: int, n: int, before: Seq<Piece>)
    requires
        0 <= k <= n <= items.len(),
        concat_after(items.take(k), before) is Err,
    ensures
        concat_after(items.take(n), before) == concat_after(items.take(k), before),
    decreases n,
{
    if n > k {
        lemma_concat_take(items, n - 1, before);
        lemma_concat_fails_upto(items, k, n - 1, before);
    }
}

/// Where the first `k` items fail, all of them fail in the same way.
pub proof fn lemma_concat_fails(items: Seq<Rendered>, k: int, before: Seq<Piece>)
    requires
        0 <= k <= items.len(),
        concat_after(items.take(k), before) is Err,
    ensures
        concat_after(items, before) == concat_after(items.take(k), before),
{
    lemma_concat_fails_upto(items, k, items.len() as int, before);
    assert(items.take(items.len() as int) =~= items);
}

} // verus!

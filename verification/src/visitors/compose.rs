//! Rendering is compositional: what a node writes does not depend on
//! what was written before it.

use vstd::prelude::*;
use crate::ast::value::ValueView;
use crate::error::Fault;
use crate::visitors::model::{
    concat,
    concat_after,
    fail,
    join,
    join_after,
    nothing,
    only_if,
    param,
    surround,
    text,
    then,
    Outcome,
    Piece,
    Rendered,
};

verus! {

broadcast use vstd::seq::group_seq_axioms;

/// What `r` writes on its own.
pub open spec fn own(r: Rendered) -> Outcome {
    r(Seq::empty())
}

/// The outcome of writing `pieces` after `before`.
pub open spec fn after(before: Seq<Piece>, written: Outcome) -> Outcome {
    match written {
        Ok(pieces) => Ok(before + pieces),
        Err(f) => Err(f),
    }
}

/// True where `r` after `before` writes what it writes on its own.
pub open spec fn appends(r: Rendered, before: Seq<Piece>) -> bool {
    r(before) == after(before, own(r))
}

/// True where `r` writes the same pieces after whatever was written
/// before, and fails in the same way.
#[verifier::opaque]
pub open spec fn compositional(r: Rendered) -> bool {
    forall|before: Seq<Piece>| #[trigger] appends(r, before)
}

/// A compositional rendering after `before`.
pub proof fn lemma_appends(r: Rendered, before: Seq<Piece>)
    requires
        compositional(r),
    ensures
        r(before) == after(before, own(r)),
{
    reveal(compositional);
    assert(appends(r, before));
}

/// A piece of text is compositional.
pub broadcast proof fn lemma_text_composes(s: Seq<char>)
    ensures
        #[trigger] compositional(text(s)),
{
    reveal(compositional);
    assert forall|before: Seq<Piece>| #[trigger] appends(text(s), before) by {
        assert(before.push(Piece::Text(s)) =~= before + Seq::<Piece>::empty().push(Piece::Text(s)));
    }
}

/// A bound value is compositional.
pub broadcast proof fn lemma_param_composes(v: ValueView)
    ensures
        #[trigger] compositional(param(v)),
{
    reveal(compositional);
    assert forall|before: Seq<Piece>| #[trigger] appends(param(v), before) by {
        assert(before.push(Piece::Param(v)) =~= before + Seq::<Piece>::empty().push(
            Piece::Param(v),
        ));
    }
}

/// Nothing is compositional.
pub broadcast proof fn lemma_nothing_composes(r: Rendered)
    requires
        r == nothing(),
    ensures
        #[trigger] compositional(r),
{
    reveal(compositional);
    assert forall|before: Seq<Piece>| #[trigger] appends(r, before) by {
        assert(before =~= before + Seq::<Piece>::empty());
    }
}

/// A failure is compositional.
pub broadcast proof fn lemma_fail_composes(f: Fault)
    ensures
        #[trigger] compositional(fail(f)),
{
    reveal(compositional);
    assert forall|before: Seq<Piece>| #[trigger] appends(fail(f), before) by {}
}

/// One compositional rendering followed by another is compositional.
pub broadcast proof fn lemma_then_composes(a: Rendered, b: Rendered)
    requires
        compositional(a),
        compositional(b),
    ensures
        #[trigger] compositional(then(a, b)),
{
    assert forall|before: Seq<Piece>| #[trigger] appends(then(a, b), before) by {
        lemma_appends(a, before);
        lemma_appends(a, Seq::empty());
        match own(a) {
            Ok(first) => {
                lemma_appends(b, before + first);
                lemma_appends(b, Seq::<Piece>::empty() + first);
                assert(Seq::<Piece>::empty() + first =~= first);
                match own(b) {
                    Ok(second) => {
                        assert((before + first) + second =~= before + (first + second));
                    },
                    Err(_) => {},
                }
            },
            Err(_) => {},
        }
    }
    reveal(compositional);
}

/// A compositional rendering between two texts is compositional.
pub broadcast proof fn lemma_surround_composes(open: Seq<char>, inner: Rendered, close: Seq<char>)
    requires
        compositional(inner),
    ensures
        #[trigger] compositional(surround(open, inner, close)),
{
    lemma_text_composes(open);
    lemma_text_composes(close);
    lemma_then_composes(inner, text(close));
    lemma_then_composes(text(open), then(inner, text(close)));
}

/// A compositional rendering under a condition is compositional.
pub broadcast proof fn lemma_only_if_composes(condition: bool, inner: Rendered)
    requires
        compositional(inner),
    ensures
        #[trigger] compositional(only_if(condition, inner)),
{
    lemma_nothing_composes(nothing());
}

/// True where every item is compositional.
pub open spec fn all_compositional(items: Seq<Rendered>) -> bool {
    forall|i: int| 0 <= i < items.len() ==> compositional(#[trigger] items[i])
}

/// Compositional renderings joined by a separator after `before`.
pub proof fn lemma_join_after(items: Seq<Rendered>, separator: Seq<char>, before: Seq<Piece>)
    requires
        all_compositional(items),
    ensures
        join_after(items, separator, before) == after(
            before,
            join_after(items, separator, Seq::empty()),
        ),
    decreases items.len(),
{
    if items.len() == 0 {
        assert(before =~= before + Seq::<Piece>::empty());
    } else {
        let init = items.drop_last();
        assert(all_compositional(init));
        lemma_join_after(init, separator, before);
        match join_after(init, separator, Seq::empty()) {
            Ok(first) => {
                let middle = if items.len() == 1 {
                    first
                } else {
                    first.push(Piece::Text(separator))
                };
                let shifted = if items.len() == 1 {
                    before + first
                } else {
                    (before + first).push(Piece::Text(separator))
                };
                assert(shifted =~= before + middle);
                lemma_appends(items.last(), shifted);
                lemma_appends(items.last(), middle);
                match own(items.last()) {
                    Ok(second) => {
                        assert((before + middle) + second =~= before + (middle + second));
                    },
                    Err(_) => {},
                }
            },
            Err(_) => {},
        }
    }
}

/// Compositional renderings joined by a separator are compositional.
pub broadcast proof fn lemma_join_composes(items: Seq<Rendered>, separator: Seq<char>)
    requires
        all_compositional(items),
    ensures
        #[trigger] compositional(join(items, separator)),
{
    assert forall|before: Seq<Piece>| #[trigger] appends(join(items, separator), before) by {
        lemma_join_after(items, separator, before);
    }
    reveal(compositional);
}

/// Compositional renderings one after the other after `before`.
pub proof fn lemma_concat_after(items: Seq<Rendered>, before: Seq<Piece>)
    requires
        all_compositional(items),
    ensures
        concat_after(items, before) == after(before, concat_after(items, Seq::empty())),
    decreases items.len(),
{
    if items.len() == 0 {
        assert(before =~= before + Seq::<Piece>::empty());
    } else {
        let init = items.drop_last();
        assert(all_compositional(init));
        lemma_concat_after(init, before);
        match concat_after(init, Seq::empty()) {
            Ok(first) => {
                lemma_appends(items.last(), before + first);
                lemma_appends(items.last(), first);
                match own(items.last()) {
                    Ok(second) => {
                        assert((before + first) + second =~= before + (first + second));
                    },
                    Err(_) => {},
                }
            },
            Err(_) => {},
        }
    }
}

/// Compositional renderings one after the other are compositional.
pub broadcast proof fn lemma_concat_composes(items: Seq<Rendered>)
    requires
        all_compositional(items),
    ensures
        #[trigger] compositional(concat(items)),
{
    assert forall|before: Seq<Piece>| #[trigger] appends(concat(items), before) by {
        lemma_concat_after(items, before);
    }
    reveal(compositional);
}

pub broadcast group group_composition {
    lemma_text_composes,
    lemma_param_composes,
    lemma_nothing_composes,
    lemma_fail_composes,
    lemma_then_composes,
    lemma_surround_composes,
    lemma_only_if_composes,
    lemma_join_composes,
    lemma_concat_composes,
}

} // verus!

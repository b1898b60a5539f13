//! The rewrite that a dialect needs before a query is compiled.

use vstd::prelude::*;
use crate::ast::model::QueryView;
use crate::ast::node::{OnConflict, Query};
use crate::compat::cte::convert_tuple_selects_to_ctes;
use crate::compat::merge::merge_from;
use crate::compat::model::adapted;
use crate::dialect::Dialect;
use crate::error::Fault;

verus! {

/// Rewrites a query into one that the dialect can compile: tuple
/// memberships in selections become common table expressions where rows
/// cannot be compared, and an insert that skips conflicts becomes a merge
/// where the insert cannot skip them.
pub fn compatibility_modifications(d: Dialect, query: Query) -> (r: Result<Query, Fault>)
    ensures
        match r {
            Ok(q) => adapted(d, query@) == Ok::<QueryView, Fault>(q@),
            Err(f) => adapted(d, query@) == Err::<QueryView, Fault>(f),
        },
{
    match query {
        Query::Select(select) => {
            if d.supports_row_comparison() {
                Ok(Query::Select(select))
            } else {
                let converted = convert_tuple_selects_to_ctes(*select)?;
                Ok(Query::Select(Box::new(converted)))
            }
        },
        Query::Insert(insert) => {
            assert(insert@.on_conflict == insert.on_conflict);
            let skips = match insert.on_conflict {
                Some(OnConflict::DoNothing) => true,
                None => false,
            };
            if !d.supports_conflict_clause() && skips {
                let merge = merge_from(*insert)?;
                Ok(Query::Merge(Box::new(merge)))
            } else {
                Ok(Query::Insert(insert))
            }
        },
        other => Ok(other),
    }
}

} // verus!

//! Statements on their way to a database: what is to be executed, and
//! the text it was compiled to.

use vstd::prelude::*;
use crate::ast::model::{DeleteView, MultiRowInsertView, SelectView, SingleRowInsertView, UpdateView};
use crate::ast::node::{
    Column,
    Delete,
    Expression,
    Insert,
    MultiRowInsert,
    Query,
    Row,
    Select,
    SingleRowInsert,
    Update,
};
use crate::ast::value::{text_view, Value};
use crate::dialect::Dialect;
use crate::error::Error;
use crate::visitors::compile::{build, is_compiled, is_refused};

verus! {

/// Compiles a statement and keeps its text: the text is stored and the
/// values are handed out, to be bound in order.
pub fn compile_into(compiled: &mut Option<String>, d: Dialect, query: Query) -> (r: Result<
    Vec<Value>,
    Error,
>)
    ensures
        match r {
            Ok(values) => *final(compiled) matches Some(text) && is_compiled(
                d,
                query@,
                text@,
                values@,
            ),
            Err(e) => is_refused(d, query@, e) && *final(compiled) == *old(compiled),
        },
{
    match build(d, query) {
        Ok((text, values)) => {
            *compiled = Some(text);
            Ok(values)
        },
        Err(e) => Err(e),
    }
}

/// The fetch of an entity from its table.
pub struct SelectingExecution {
    pub select: Select,
    pub compiled: Option<String>,
}

impl SelectingExecution {
    /// The fetch by a select that is not yet compiled.
    pub fn from(select: Select) -> (e: SelectingExecution)
        ensures
            e.select == select,
            e.compiled is None,
    {
        SelectingExecution { select, compiled: None }
    }

    /// Compiles the select for a dialect: the text is kept, the values
    /// are handed out.
    pub fn compile(&mut self, d: Dialect) -> (r: Result<Vec<Value>, Error>)
        ensures
            final(self).select@ == old(self).select@,
            match r {
                Ok(values) => final(self).compiled matches Some(text) && is_compiled(
                    d,
                    old(self).select@.into_statement(),
                    text@,
                    values@,
                ),
                Err(e) => is_refused(d, old(self).select@.into_statement(), e),
            },
    {
        let query = self.select.duplicate().into_query();
        compile_into(&mut self.compiled, d, query)
    }
}

/// The deletion of an entity from its table.
pub struct DeletingExecution<E> {
    pub delete: Delete,
    pub compiled: Option<String>,
    pub entity: E,
}

impl<E> DeletingExecution<E> {
    /// The deletion of `entity` by a statement that is not yet compiled.
    pub fn new(delete: Delete, entity: E) -> (e: DeletingExecution<E>)
        ensures
            e.delete == delete,
            e.entity == entity,
            e.compiled is None,
    {
        DeletingExecution { delete, compiled: None, entity }
    }

    /// Compiles the deletion for a dialect: the text is kept, the values
    /// are handed out.
    pub fn compile(&mut self, d: Dialect) -> (r: Result<Vec<Value>, Error>)
        ensures
            final(self).delete@ == old(self).delete@,
            final(self).entity == old(self).entity,
            match r {
                Ok(values) => final(self).compiled matches Some(text) && is_compiled(
                    d,
                    old(self).delete@.into_statement(),
                    text@,
                    values@,
                ),
                Err(e) => is_refused(d, old(self).delete@.into_statement(), e),
            },
    {
        let query = self.delete.duplicate().into_query();
        compile_into(&mut self.compiled, d, query)
    }
}

/// The update of an entity in its table.
pub struct SavingExecution<E> {
    pub saving: Update,
    pub compiled: Option<String>,
    pub entity: E,
}

impl<E> SavingExecution<E> {
    /// The update of `entity` by a statement that is not yet compiled.
    pub fn new(saving: Update, entity: E) -> (e: SavingExecution<E>)
        ensures
            e.saving == saving,
            e.entity == entity,
            e.compiled is None,
    {
        SavingExecution { saving, compiled: None, entity }
    }

    /// Compiles the update for a dialect: the text is kept, the values
    /// are handed out.
    pub fn compile(&mut self, d: Dialect) -> (r: Result<Vec<Value>, Error>)
        ensures
            final(self).saving@ == old(self).saving@,
            final(self).entity == old(self).entity,
            match r {
                Ok(values) => final(self).compiled matches Some(text) && is_compiled(
                    d,
                    old(self).saving@.into_statement(),
                    text@,
                    values@,
                ),
                Err(e) => is_refused(d, old(self).saving@.into_statement(), e),
            },
    {
        let query = self.saving.duplicate().into_query();
        compile_into(&mut self.compiled, d, query)
    }
}

/// The creation of a table.
pub struct CreateTableExecution {
    pub compiled: Option<String>,
}

/// An insert into a table.
pub struct InsertingExecution<I> {
    pub insertion: I,
    pub compiled: Option<String>,
}

impl InsertingExecution<MultiRowInsert> {
    /// The insert of rows that is not yet compiled.
    pub fn from_multi(insertion: MultiRowInsert) -> (e: InsertingExecution<MultiRowInsert>)
        ensures
            e.insertion == insertion,
            e.compiled is None,
    {
        InsertingExecution { insertion, compiled: None }
    }

    /// Adds a row.
    pub fn values(self, values: Row) -> (e: InsertingExecution<MultiRowInsert>)
        ensures
            e.insertion@ == self.insertion@.values(values@),
            e.compiled == self.compiled,
    {
        InsertingExecution { insertion: self.insertion.values(values), compiled: self.compiled }
    }
}

impl InsertingExecution<SingleRowInsert> {
    /// The insert of one row that is not yet compiled.
    pub fn from_single(insertion: SingleRowInsert) -> (e: InsertingExecution<SingleRowInsert>)
        ensures
            e.insertion == insertion,
            e.compiled is None,
    {
        InsertingExecution { insertion, compiled: None }
    }

    /// Adds a column and its value.
    pub fn value(self, key: Column, val: Expression) -> (e: InsertingExecution<SingleRowInsert>)
        ensures
            e.insertion@ == self.insertion@.value(key@, val@),
            e.compiled == self.compiled,
    {
        InsertingExecution { insertion: self.insertion.value(key, val), compiled: self.compiled }
    }
}

impl InsertingExecution<Insert> {
    /// The insert that is not yet compiled.
    pub fn from(insertion: Insert) -> (e: InsertingExecution<Insert>)
        ensures
            e.insertion == insertion,
            e.compiled is None,
    {
        InsertingExecution { insertion, compiled: None }
    }

    /// Compiles the insert for a dialect: the text is kept, the values
    /// are handed out.
    pub fn compile(&mut self, d: Dialect) -> (r: Result<Vec<Value>, Error>)
        ensures
            final(self).insertion@ == old(self).insertion@,
            match r {
                Ok(values) => final(self).compiled matches Some(text) && is_compiled(
                    d,
                    old(self).insertion@.into_statement(),
                    text@,
                    values@,
                ),
                Err(e) => is_refused(d, old(self).insertion@.into_statement(), e),
            },
    {
        let query = self.insertion.duplicate().into_query();
        compile_into(&mut self.compiled, d, query)
    }
}

} // verus!

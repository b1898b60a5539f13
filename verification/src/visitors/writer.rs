//! The state of one compilation: the text buffer and the bound values.

use vstd::prelude::*;
use crate::ast::value::value_views;
use crate::ast::value::Value;
use crate::dialect::Dialect;
use crate::error::Fault;
use crate::text::push_nat;
use crate::visitors::model::param;
use crate::visitors::model::params_of;
use crate::visitors::model::placeholder;
use crate::visitors::model::text;
use crate::visitors::model::text_of;
use crate::visitors::model::Piece;
use crate::visitors::model::Rendered;

verus! {

broadcast use vstd::seq::group_seq_axioms;

/// The output of a compilation in progress.
pub struct Writer {
    pub dialect: Dialect,
    pub query: String,
    pub parameters: Vec<Value>,
    /// The pieces written so far.
    pub trace: Ghost<Seq<Piece>>,
}

impl Writer {
    /// The buffers hold what the pieces written so far amount to.
    pub open spec fn wf(&self) -> bool {
        &&& self.query@ == text_of(self.dialect, self.trace@)
        &&& value_views(self.parameters@) == params_of(self.trace@)
    }

    /// True where this writer is what `before` becomes by a step that
    /// ended in `result` while the node at hand compiles to `rendered`: on
    /// success the pieces written are those that the node adds to the
    /// pieces written before, and a failure is the one that the node
    /// compiles to.
    pub open spec fn follows(&self, before: Writer, result: Result<(), Fault>, rendered: Rendered) -> bool {
        match result {
            Ok(_) => {
                &&& rendered(before.trace@) == Ok::<Seq<Piece>, Fault>(self.trace@)
                &&& self.wf()
                &&& self.dialect == before.dialect
            },
            Err(f) => rendered(before.trace@) == Err::<Seq<Piece>, Fault>(f),
        }
    }

    /// A writer that has written nothing.
    pub fn new(dialect: Dialect) -> (w: Writer)
        ensures
            w.wf(),
            w.dialect == dialect,
            w.trace@ == Seq::<Piece>::empty(),
    {
        let w = Writer { dialect, query: String::new(), parameters: Vec::new(), trace: Ghost(Seq::empty()) };
        assert(value_views(w.parameters@) =~= params_of(w.trace@));
        w
    }

    /// Writes a piece of text.
    pub fn write(&mut self, s: &str)
        requires
            old(self).wf(),
        ensures
            final(self).follows(*old(self), Ok(()), text(s@)),
    {
        self.query.append(s);
        proof {
            let ghost after = self.trace@.push(Piece::Text(s@));
            assert(after.drop_last() =~= self.trace@);
            self.trace = Ghost(after);
        }
    }

    /// Binds a value as the next parameter and writes its placeholder.
    pub fn visit_parameterized(&mut self, value: Value)
        requires
            old(self).wf(),
        ensures
            final(self).follows(*old(self), Ok(()), param(value@)),
    {
        let ghost before = self.parameters@;
        self.parameters.push(value);
        match self.dialect {
            Dialect::Postgres => {
                self.query.append("$");
                push_nat(&mut self.query, self.parameters.len() as u128);
            },
            Dialect::Mssql => {
                self.query.append("@P");
                push_nat(&mut self.query, self.parameters.len() as u128);
            },
            Dialect::Mysql => {
                self.query.append("?");
            },
            Dialect::Sqlite => {
                self.query.append("?");
            },
        }
        proof {
            let ghost after = self.trace@.push(Piece::Param(value@));
            assert(after.drop_last() =~= self.trace@);
            assert(value_views(before).len() == before.len());
            assert(value_views(self.parameters@) =~= value_views(before).push(value@));
            assert(self.query@ =~= old(self).query@ + placeholder(self.dialect, (before.len() + 1) as nat));
            self.trace = Ghost(after);
        }
    }
}

} // verus!

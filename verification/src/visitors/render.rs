//! The renderer: it walks a query and writes what the syntax prescribes.

use vstd::prelude::*;
use crate::ast::node::{
    Column,
    TypeDataLength,
    TypeFamily,
};
use crate::ast::value::{text_view, Value};
use crate::dialect::Dialect;
use crate::error::Fault;
use crate::text::{nat_text, push_nat};
use crate::visitors::literal::{can_write_literal, literal, render_raw};
use crate::visitors::model::{
    text,
    Rendered,
};
use crate::visitors::syntax::{
    alias_suffix,
    limit_and_offset,
    qualified,
    quoted,
    table_name,
    type_family,
};
use crate::visitors::writer::Writer;
use crate::databases::can_bind;

verus! {

broadcast use vstd::seq::group_seq_axioms;

impl Writer {
    /// Writes an identifier between the quotes of the dialect.
    pub fn write_quoted(&mut self, name: &str)
        requires
            old(self).wf(),
        ensures
            final(self).follows(*old(self), Ok(()), quoted(old(self).dialect, name@)),
    {
        proof {
            reveal(quoted);
        }
        let d = self.dialect;
        self.write(d.open_quote());
        self.write(name);
        self.write(d.close_quote());
    }

    /// Writes ` AS alias`, where there is an alias.
    pub fn write_alias(&mut self, alias: &Option<String>)
        requires
            old(self).wf(),
        ensures
            final(self).follows(
                *old(self),
                Ok(()),
                alias_suffix(old(self).dialect, text_view(*alias)),
            ),
    {
        proof {
            reveal(alias_suffix);
        }
        match alias {
            Some(a) => {
                self.write(" AS ");
                self.write_quoted(a.as_str());
            },
            None => {},
        }
    }

    /// Writes the name of a table, qualified by its database where it has
    /// one.
    pub fn write_table_name(&mut self, database: &Option<String>, name: &str)
        requires
            old(self).wf(),
        ensures
            final(self).follows(
                *old(self),
                Ok(()),
                table_name(old(self).dialect, text_view(*database), name@),
            ),
    {
        proof {
            reveal(table_name);
        }
        match database {
            Some(db) => {
                self.write_quoted(db.as_str());
                self.write(".");
                self.write_quoted(name);
            },
            None => {
                self.write_quoted(name);
            },
        }
    }

    /// Writes a column under the name of another table.
    pub fn write_qualified(&mut self, qualifier: &str, c: &Column)
        requires
            old(self).wf(),
        ensures
            final(self).follows(*old(self), Ok(()), qualified(old(self).dialect, qualifier@, c@)),
    {
        proof {
            reveal(qualified);
        }
        self.write_quoted(qualifier);
        self.write(".");
        self.write_quoted(c.name.as_str());
        self.write_alias(&c.alias);
    }

    /// Writes a natural number.
    pub fn write_nat(&mut self, n: u64)
        requires
            old(self).wf(),
        ensures
            final(self).follows(*old(self), Ok(()), text(nat_text(n as nat))),
    {
        let mut s = String::new();
        push_nat(&mut s, n as u128);
        self.write(s.as_str());
    }

    /// Writes the SQL Server type of a table variable's column.
    pub fn visit_type_family(&mut self, tf: TypeFamily)
        requires
            old(self).wf(),
        ensures
            final(self).follows(*old(self), Ok(()), type_family(tf)),
    {
        proof {
            reveal(type_family);
        }
        match tf {
            TypeFamily::Text(len) => {
                self.write("NVARCHAR(");
                match len {
                    Some(TypeDataLength::Constant(n)) => self.write_nat(n as u64),
                    Some(TypeDataLength::Maximum) => self.write("MAX"),
                    None => self.write("4000"),
                }
                self.write(")");
            },
            TypeFamily::Int => self.write("BIGINT"),
            TypeFamily::Float => self.write("FLOAT(24)"),
            TypeFamily::Double => self.write("FLOAT(53)"),
            TypeFamily::Decimal(size) => {
                self.write("DECIMAL(");
                match size {
                    Some((p, s)) => {
                        self.write_nat(p as u64);
                        self.write(",");
                        self.write_nat(s as u64);
                    },
                    None => self.write("32,16"),
                }
                self.write(")");
            },
            TypeFamily::Boolean => self.write("BIT"),
            TypeFamily::Uuid => self.write("UNIQUEIDENTIFIER"),
            TypeFamily::DateTime => self.write("DATETIMEOFFSET"),
            TypeFamily::Bytes(len) => {
                self.write("VARBINARY(");
                match len {
                    Some(TypeDataLength::Constant(n)) => self.write_nat(n as u64),
                    Some(TypeDataLength::Maximum) => self.write("MAX"),
                    None => self.write("8000"),
                }
                self.write(")");
            },
        }
    }

    /// Writes a value as a literal.
    pub fn visit_raw_value(&mut self, v: &Value) -> (r: Result<(), Fault>)
        requires
            old(self).wf(),
        ensures
            final(self).follows(*old(self), r, render_raw(old(self).dialect, v@)),
    {
        let d = self.dialect;
        let kind = v.kind();
        if can_write_literal(d, kind) {
            let s = literal(d, v);
            self.write(s.as_str());
            Ok(())
        } else if can_bind(d, kind) {
            Err(Fault::NoLiteral(kind))
        } else {
            Err(Fault::Unbindable(kind))
        }
    }

    /// Writes `LIMIT` and `OFFSET` in the form of the dialect.
    pub fn visit_limit_and_offset(&mut self, limit: &Option<Value>, offset: &Option<Value>, ordered: bool)
        requires
            old(self).wf(),
        ensures
            final(self).follows(
                *old(self),
                Ok(()),
                limit_and_offset(
                    old(self).dialect,
                    match *limit {
                        Some(l) => Some(l@),
                        None => None,
                    },
                    match *offset {
                        Some(o) => Some(o@),
                        None => None,
                    },
                    ordered,
                ),
            ),
    {
        proof {
            reveal(limit_and_offset);
        }
        let d = self.dialect;
        match d {
            Dialect::Mssql => {
                match (limit, offset) {
                    (Some(l), Some(o)) => {
                        if !ordered {
                            self.write(" ORDER BY ");
                            self.write("1");
                        }
                        self.write(" OFFSET ");
                        self.visit_parameterized(o.duplicate());
                        self.write(" ROWS FETCH NEXT ");
                        self.visit_parameterized(l.duplicate());
                        self.write(" ROWS ONLY");
                    },
                    (None, Some(o)) => {
                        let positive = match o.as_i64() {
                            Some(n) => n > 0,
                            None => false,
                        };
                        if ordered || positive {
                            if !ordered {
                                self.write(" ORDER BY ");
                                self.write("1");
                            }
                            self.write(" OFFSET ");
                            self.visit_parameterized(o.duplicate());
                            self.write(" ROWS");
                        }
                    },
                    (Some(l), None) => {
                        if !ordered {
                            self.write(" ORDER BY ");
                            self.write("1");
                        }
                        self.write(" OFFSET ");
                        self.visit_parameterized(Value::I32(Some(0)));
                        self.write(" ROWS FETCH NEXT ");
                        self.visit_parameterized(l.duplicate());
                        self.write(" ROWS ONLY");
                    },
                    (None, None) => {},
                }
            },
            _ => {
                match (limit, offset) {
                    (Some(l), Some(o)) => {
                        self.write(" LIMIT ");
                        self.visit_parameterized(l.duplicate());
                        self.write(" OFFSET ");
                        self.visit_parameterized(o.duplicate());
                    },
                    (None, Some(o)) => {
                        match d {
                            Dialect::Sqlite => {
                                self.write(" LIMIT ");
                                self.visit_parameterized(Value::I32(Some(-1)));
                                self.write(" OFFSET ");
                                self.visit_parameterized(o.duplicate());
                            },
                            Dialect::Mysql => {
                                self.write(" LIMIT ");
                                self.visit_parameterized(Value::I64(Some(0x7fff_ffff_ffff_ffff)));
                                self.write(" OFFSET ");
                                self.visit_parameterized(o.duplicate());
                            },
                            _ => {
                                self.write(" OFFSET ");
                                self.visit_parameterized(o.duplicate());
                            },
                        }
                    },
                    (Some(l), None) => {
                        self.write(" LIMIT ");
                        self.visit_parameterized(l.duplicate());
                    },
                    (None, None) => {},
                }
            },
        }
    }
}

} // verus!

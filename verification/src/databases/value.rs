//! The values that the driver of each dialect binds.

use vstd::prelude::*;
use crate::ast::value::{Value, ValueView};
use crate::databases::{binds, can_bind};
use crate::dialect::Dialect;
use crate::error::{Error, Fault};

verus! {

/// The value itself where the driver of the dialect binds its kind; the
/// reason why not otherwise.
pub fn bindable(d: Dialect, v: Value) -> (r: Result<Value, Fault>)
    ensures
        match r {
            Ok(same) => binds(d, v@.kind()) && same@ == v@,
            Err(f) => !binds(d, v@.kind()) && f == Fault::Unbindable(v@.kind()),
        },
{
    let kind = v.kind();
    if can_bind(d, kind) {
        Ok(v)
    } else {
        Err(Fault::Unbindable(kind))
    }
}

/// A value of a kind that SQL Server binds.
pub struct MsValue {
    value: Value,
}

impl MsValue {
    #[verifier::type_invariant]
    spec fn bound(self) -> bool {
        binds(Dialect::Mssql, self.value@.kind())
    }

    /// The value that is bound.
    pub closed spec fn view(&self) -> ValueView {
        self.value@
    }

    /// The value for the driver, where the driver binds its kind; a
    /// conversion error that names the kind otherwise.
    pub fn try_from(v: Value) -> (r: Result<MsValue, Error>)
        ensures
            match r {
                Ok(bound) => binds(Dialect::Mssql, v@.kind()) && bound@ == v@,
                Err(e) => !binds(Dialect::Mssql, v@.kind()) && e.reports(
                    Fault::Unbindable(v@.kind()),
                    Dialect::Mssql,
                ),
            },
    {
        match bindable(Dialect::Mssql, v) {
            Ok(value) => Ok(MsValue { value }),
            Err(f) => Err(Error::of_fault(f, Dialect::Mssql)),
        }
    }

    /// The value, of a kind that the driver binds.
    pub fn into_value(self) -> (v: Value)
        ensures
            v@ == self@,
            binds(Dialect::Mssql, v@.kind()),
    {
        proof {
            use_type_invariant(&self);
        }
        self.value
    }
}

/// A value of a kind that MySQL binds.
pub struct MyValue {
    value: Value,
}

impl MyValue {
    #[verifier::type_invariant]
    spec fn bound(self) -> bool {
        binds(Dialect::Mysql, self.value@.kind())
    }

    /// The value that is bound.
    pub closed spec fn view(&self) -> ValueView {
        self.value@
    }

    /// The value for the driver, where the driver binds its kind; a
    /// conversion error that names the kind otherwise.
    pub fn try_from(v: Value) -> (r: Result<MyValue, Error>)
        ensures
            match r {
                Ok(bound) => binds(Dialect::Mysql, v@.kind()) && bound@ == v@,
                Err(e) => !binds(Dialect::Mysql, v@.kind()) && e.reports(
                    Fault::Unbindable(v@.kind()),
                    Dialect::Mysql,
                ),
            },
    {
        match bindable(Dialect::Mysql, v) {
            Ok(value) => Ok(MyValue { value }),
            Err(f) => Err(Error::of_fault(f, Dialect::Mysql)),
        }
    }

    /// The value, of a kind that the driver binds.
    pub fn into_value(self) -> (v: Value)
        ensures
            v@ == self@,
            binds(Dialect::Mysql, v@.kind()),
    {
        proof {
            use_type_invariant(&self);
        }
        self.value
    }
}

/// A value of a kind that PostgreSQL binds.
pub struct PgValue {
    value: Value,
}

impl PgValue {
    #[verifier::type_invariant]
    spec fn bound(self) -> bool {
        binds(Dialect::Postgres, self.value@.kind())
    }

    /// The value that is bound.
    pub closed spec fn view(&self) -> ValueView {
        self.value@
    }

    /// The value for the driver, where the driver binds its kind; a
    /// conversion error that names the kind otherwise.
    pub fn try_from(v: Value) -> (r: Result<PgValue, Error>)
        ensures
            match r {
                Ok(bound) => binds(Dialect::Postgres, v@.kind()) && bound@ == v@,
                Err(e) => !binds(Dialect::Postgres, v@.kind()) && e.reports(
                    Fault::Unbindable(v@.kind()),
                    Dialect::Postgres,
                ),
            },
    {
        match bindable(Dialect::Postgres, v) {
            Ok(value) => Ok(PgValue { value }),
            Err(f) => Err(Error::of_fault(f, Dialect::Postgres)),
        }
    }

    /// The value, of a kind that the driver binds.
    pub fn into_value(self) -> (v: Value)
        ensures
            v@ == self@,
            binds(Dialect::Postgres, v@.kind()),
    {
        proof {
            use_type_invariant(&self);
        }
        self.value
    }
}

/// A value of a kind that SQLite binds.
pub struct SQLiteValue {
    value: Value,
}

impl SQLiteValue {
    #[verifier::type_invariant]
    spec fn bound(self) -> bool {
        binds(Dialect::Sqlite, self.value@.kind())
    }

    /// The value that is bound.
    pub closed spec fn view(&self) -> ValueView {
        self.value@
    }

    /// The value for the driver, where the driver binds its kind; a
    /// conversion error that names the kind otherwise.
    pub fn try_from(v: Value) -> (r: Result<SQLiteValue, Error>)
        ensures
            match r {
                Ok(bound) => binds(Dialect::Sqlite, v@.kind()) && bound@ == v@,
                Err(e) => !binds(Dialect::Sqlite, v@.kind()) && e.reports(
                    Fault::Unbindable(v@.kind()),
                    Dialect::Sqlite,
                ),
            },
    {
        match bindable(Dialect::Sqlite, v) {
            Ok(value) => Ok(SQLiteValue { value }),
            Err(f) => Err(Error::of_fault(f, Dialect::Sqlite)),
        }
    }

    /// The value, of a kind that the driver binds.
    pub fn into_value(self) -> (v: Value)
        ensures
            v@ == self@,
            binds(Dialect::Sqlite, v@.kind()),
    {
        proof {
            use_type_invariant(&self);
        }
        self.value
    }
}

} // verus!

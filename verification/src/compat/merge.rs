//! Turning an insert that skips conflicting rows into a merge, for
//! dialects whose insert cannot skip them.

use vstd::prelude::*;
use crate::ast::builder::{push_column, push_expression, push_select};
use crate::ast::model::{
    ColumnView,
    ConditionTreeView,
    ExpressionKindView,
    ExpressionView,
    IndexDefinitionView,
    InsertView,
    MergeView,
    QueryView,
    RowView,
    SelectView,
    TableView,
    UnionView,
};
use crate::ast::node::{
    Column,
    ConditionTree,
    DefaultValue,
    Expression,
    ExpressionKind,
    IndexDefinition,
    Insert,
    Merge,
    Query,
    Row,
    Select,
    Table,
    Union,
    UnionType,
    Using,
};
use crate::ast::view::{column_views, expression_views, row_views, select_views};
use crate::compat::model::{
    bare_columns,
    compound_condition,
    dual_columns,
    index_condition,
    join_conditions,
    merge_of,
    source_query,
    unique_condition,
    values_select,
    values_union,
};
use crate::dialect::Dialect;
use crate::error::{Error, Fault};

verus! {

broadcast use {vstd::seq::group_seq_axioms, vstd::std_specs::vec::group_vec_axioms};

/// Where the first `k` columns of a compound index have no condition,
/// more of them have none either, for the same reason.
pub proof fn lemma_compound_condition_fails(
    columns: Seq<ColumnView>,
    inserted: Seq<ColumnView>,
    k: nat,
    n: nat,
)
    requires
        k <= n <= columns.len(),
        compound_condition(columns, inserted, k) is Err,
    ensures
        compound_condition(columns, inserted, n) == compound_condition(columns, inserted, k),
    decreases n,
{
    if n > k {
        lemma_compound_condition_fails(columns, inserted, k, (n - 1) as nat);
    }
}

/// The condition under which a row to insert matches an existing row on
/// one unique column.
pub fn unique_condition_of(column: &Column, inserted: &Vec<Column>) -> (r: Result<
    Option<ConditionTree>,
    Fault,
>)
    ensures
        match r {
            Ok(Some(t)) => unique_condition(column@, column_views(inserted@)) == Ok::<
                Option<ConditionTreeView>,
                Fault,
            >(Some(t@)),
            Ok(None) => unique_condition(column@, column_views(inserted@)) == Ok::<
                Option<ConditionTreeView>,
                Fault,
            >(None),
            Err(f) => unique_condition(column@, column_views(inserted@)) == Err::<
                Option<ConditionTreeView>,
                Fault,
            >(f),
        },
{
    if column.is_among(inserted) {
        let dual = column.duplicate().table(Table::new("dual"));
        Ok(
            Some(
                Expression::column(dual).equals(Expression::column(column.duplicate())).into_tree(),
            ),
        )
    } else {
        match &column.default {
            Some(DefaultValue::Provided(v)) => Ok(
                Some(
                    Expression::column(column.duplicate()).equals(
                        Expression::value(v.duplicate()),
                    ).into_tree(),
                ),
            ),
            Some(DefaultValue::Generated) => Ok(None),
            None => Err(Fault::UniqueColumnWithoutDefault),
        }
    }
}

/// The condition of a compound index; none where the database generates
/// the value of one of its columns.
pub fn compound_condition_of(columns: &Vec<Column>, inserted: &Vec<Column>) -> (r: Result<
    Option<ConditionTree>,
    Fault,
>)
    ensures
        match r {
            Ok(Some(t)) => compound_condition(
                column_views(columns@),
                column_views(inserted@),
                columns@.len(),
            ) == Ok::<Option<ConditionTreeView>, Fault>(Some(t@)),
            Ok(None) => compound_condition(
                column_views(columns@),
                column_views(inserted@),
                columns@.len(),
            ) == Ok::<Option<ConditionTreeView>, Fault>(None),
            Err(f) => compound_condition(
                column_views(columns@),
                column_views(inserted@),
                columns@.len(),
            ) == Err::<Option<ConditionTreeView>, Fault>(f),
        },
{
    let ghost cs = column_views(columns@);
    let ghost ins = column_views(inserted@);
    let mut result: Option<ConditionTree> = Some(ConditionTree::NoCondition);
    let mut i: usize = 0;
    while i < columns.len()
        invariant
            i <= columns.len(),
            cs == column_views(columns@),
            ins == column_views(inserted@),
            match result {
                Some(t) => compound_condition(cs, ins, i as nat) == Ok::<
                    Option<ConditionTreeView>,
                    Fault,
                >(Some(t@)),
                None => compound_condition(cs, ins, i as nat) == Ok::<
                    Option<ConditionTreeView>,
                    Fault,
                >(None),
            },
        decreases columns.len() - i,
    {
        let found = match unique_condition_of(&columns[i], inserted) {
            Ok(found) => found,
            Err(f) => {
                proof {
                    lemma_compound_condition_fails(cs, ins, (i + 1) as nat, columns@.len());
                }
                return Err(f);
            },
        };
        result = match (result, found) {
            (Some(ConditionTree::NoCondition), Some(next)) => Some(next),
            (Some(left), Some(next)) => Some(left.and(Expression::tree(next))),
            _ => None,
        };
        i += 1;
    }
    Ok(result)
}

impl Table {
    /// The condition under which a row to insert into the given columns
    /// matches an existing row of the table: that of the unique index
    /// that the table declares first.
    pub fn join_conditions(&self, inserted: &Vec<Column>) -> (r: Result<ConditionTree, Fault>)
        ensures
            match r {
                Ok(t) => join_conditions(self@, column_views(inserted@)) == Ok::<
                    ConditionTreeView,
                    Fault,
                >(t@),
                Err(f) => join_conditions(self@, column_views(inserted@)) == Err::<
                    ConditionTreeView,
                    Fault,
                >(f),
            },
    {
        if self.index_definitions.len() == 0 {
            return Ok(ConditionTree::NegativeCondition);
        }
        assert(self@.index_definitions[0] == self.index_definitions@[0]@);
        let found = match &self.index_definitions[0] {
            IndexDefinition::Single(column) => unique_condition_of(column, inserted),
            IndexDefinition::Compound(columns) => compound_condition_of(columns, inserted),
        };
        match found {
            Ok(Some(t)) => Ok(t),
            Ok(None) => Ok(ConditionTree::NegativeCondition),
            Err(f) => Err(f),
        }
    }
}

/// The select of the values of a row, each under the name of its column.
pub fn values_select_of(columns: &Vec<Column>, values: &Vec<Expression>) -> (s: Select)
    ensures
        s@ == values_select(column_views(columns@), expression_views(values@)),
{
    let n: usize = if columns.len() <= values.len() {
        columns.len()
    } else {
        values.len()
    };
    let mut s = Select::default();
    let mut i: usize = 0;
    while i < n
        invariant
            i <= n,
            n <= columns.len(),
            n <= values.len(),
            s@ == (SelectView { columns: s@.columns, ..SelectView::empty() }),
            s@.columns.len() == i,
            forall|j: int|
                0 <= j < i ==> (#[trigger] s@.columns[j]) == values@[j]@.aliased(columns@[j]@.name),
        decreases n - i,
    {
        let e = values[i].duplicate().alias(columns[i].name.as_str());
        s = s.value(e);
        i += 1;
    }
    assert(s@.columns =~= values_select(
        column_views(columns@),
        expression_views(values@),
    ).columns);
    s
}

/// The union of the selects of the rows: the last row first, then the
/// others in order.
pub fn values_union_of(columns: &Vec<Column>, rows: &Vec<Row>) -> (u: Union)
    requires
        rows@.len() > 0,
    ensures
        u@ == values_union(column_views(columns@), row_views(rows@)),
{
    let ghost cs = column_views(columns@);
    let ghost rs = row_views(rows@);
    let ghost target = values_union(cs, rs);
    let first = values_select_of(columns, &rows[rows.len() - 1].values);
    assert(first@ == target.selects[0]);
    let mut u = Union::new(first);
    let mut i: usize = 0;
    while i < rows.len() - 1
        invariant
            rows@.len() > 0,
            i <= rows.len() - 1,
            cs == column_views(columns@),
            rs == row_views(rows@),
            target == values_union(cs, rs),
            u@.ctes == Seq::<crate::ast::model::CommonTableExpressionView>::empty(),
            u@.selects == target.selects.take(i as int + 1),
            u@.types == target.types.take(i as int),
        decreases rows.len() - 1 - i,
    {
        let next = values_select_of(columns, &rows[i].values);
        assert(next@ == target.selects[i as int + 1]);
        u = u.all(next);
        assert(u@.selects =~= target.selects.take(i as int + 2));
        assert(u@.types =~= target.types.take(i as int + 1));
        i += 1;
    }
    assert(target.selects.take(rows.len() as int) =~= target.selects);
    assert(target.types.take(rows.len() as int - 1) =~= target.types);
    u
}

/// The query that yields the rows of an insert.
pub fn source_query_of(i: &Insert) -> (r: Result<Query, Fault>)
    ensures
        match r {
            Ok(q) => source_query(i@) == Ok::<QueryView, Fault>(q@),
            Err(f) => source_query(i@) == Err::<QueryView, Fault>(f),
        },
{
    assert(i@.values == i.values@);
    assert(i.values@.kind == i.values.kind@);
    match &i.values.kind {
        ExpressionKind::Row(row) => Ok(
            Query::Select(Box::new(values_select_of(&i.columns, &row.values))),
        ),
        ExpressionKind::Values(values) => {
            assert(values@.rows.len() == values.rows@.len());
            if values.rows.len() == 0 {
                Err(Fault::EmptyValues)
            } else {
                Ok(Query::Union(Box::new(values_union_of(&i.columns, &values.rows))))
            }
        },
        ExpressionKind::Selection(s) => Ok(s.duplicate().into_query()),
        _ => Err(Fault::InsertSourceUnsupported),
    }
}

/// The columns with nothing but their names.
pub fn bare_columns_of(columns: &Vec<Column>) -> (r: Vec<Column>)
    ensures
        column_views(r@) == bare_columns(column_views(columns@)),
{
    let mut r: Vec<Column> = Vec::new();
    let mut i: usize = 0;
    while i < columns.len()
        invariant
            i <= columns.len(),
            r@.len() == i,
            forall|j: int| 0 <= j < i ==> (#[trigger] r@[j])@ == columns@[j]@.bare(),
        decreases columns.len() - i,
    {
        r.push(Column::new(columns[i].name.as_str()));
        i += 1;
    }
    assert(column_views(r@) =~= bare_columns(column_views(columns@)));
    r
}

/// The columns in the table `dual`.
pub fn dual_columns_of(columns: &Vec<Column>) -> (r: Vec<Column>)
    ensures
        column_views(r@) == dual_columns(column_views(columns@)),
{
    let mut r: Vec<Column> = Vec::new();
    let mut i: usize = 0;
    while i < columns.len()
        invariant
            i <= columns.len(),
            r@.len() == i,
            forall|j: int|
                0 <= j < i ==> (#[trigger] r@[j])@ == columns@[j]@.of_table(
                    TableView::named("dual"@),
                ),
        decreases columns.len() - i,
    {
        r.push(columns[i].duplicate().table(Table::new("dual")));
        i += 1;
    }
    assert(column_views(r@) =~= dual_columns(column_views(columns@)));
    r
}

/// The merge that stands for an insert that skips conflicting rows.
pub fn merge_from(insert: Insert) -> (r: Result<Merge, Fault>)
    ensures
        match r {
            Ok(m) => merge_of(insert@) == Ok::<MergeView, Fault>(m@),
            Err(f) => merge_of(insert@) == Err::<MergeView, Fault>(f),
        },
{
    let query = source_query_of(&insert);
    let Insert { table, columns, values, on_conflict, returning } = insert;
    let table = match table {
        Some(table) => table,
        None => {
            return Err(Fault::InsertWithoutTable);
        },
    };
    assert(table@.index_definitions.len() == table.index_definitions@.len());
    if table.index_definitions.len() == 0 {
        return Err(Fault::MissingSchemaMetadata);
    }
    let query = query?;
    let conditions = table.join_conditions(&columns)?;
    let using = Using::new(query, Table::new("dual"), bare_columns_of(&columns)).on(conditions);
    let not_matched = Insert::multi(bare_columns_of(&columns)).values(
        Row::from_columns(dual_columns_of(&columns)),
    ).build();
    let merge = Merge {
        table,
        using,
        when_not_matched: Some(Query::Insert(Box::new(not_matched))),
        returning,
    };
    Ok(merge)
}

impl Merge {
    /// The merge that stands for an insert that skips conflicting rows.
    /// The insert needs a table with a unique index, and every unique
    /// column that it does not name needs a default.
    pub fn try_from(insert: Insert) -> (r: Result<Merge, Error>)
        ensures
            match r {
                Ok(m) => merge_of(insert@) == Ok::<MergeView, Fault>(m@),
                Err(e) => merge_of(insert@) matches Err(f) && e.reports(f, Dialect::Mssql),
            },
    {
        match merge_from(insert) {
            Ok(m) => Ok(m),
            Err(f) => Err(Error::of_fault(f, Dialect::Mssql)),
        }
    }
}

} // verus!

//! The compatibility rewrites, stated on the model: what a query becomes
//! before it is compiled for a dialect that lacks a feature.

use vstd::prelude::*;
use crate::ast::model::{
    ColumnView,
    CommonTableExpressionView,
    CompareView,
    ConditionTreeView,
    DefaultValueView,
    ExpressionKindView,
    ExpressionView,
    IndexDefinitionView,
    InsertView,
    MergeView,
    MultiRowInsertView,
    QueryView,
    RowView,
    SelectQueryView,
    SelectView,
    TableView,
    UnionView,
    UsingView,
};
use crate::ast::node::{Comparison, OnConflict, UnionType};
use crate::dialect::Dialect;
use crate::error::Fault;
use crate::text::nat_text;

verus! {

broadcast use vstd::seq::group_seq_axioms;

/// A rewritten node, the common table expressions that were lifted out of
/// it, and the number of the next one.
pub ghost struct Hoisted<T> {
    pub node: T,
    pub ctes: Seq<CommonTableExpressionView>,
    pub level: nat,
}

/// The name of the generated common table expression of a number.
pub open spec fn cte_name(level: nat) -> Seq<char> {
    "cte_"@ + nat_text(level)
}

/// The name under which a select exposes an expression: the alias or the
/// name of a column, the alias of a bound value, none for anything else.
pub open spec fn name_of(e: ExpressionView) -> Option<Seq<char>> {
    match e.kind {
        ExpressionKindView::Column(c) => Some(
            match c.alias {
                Some(a) => a,
                None => c.name,
            },
        ),
        ExpressionKindView::Parameterized(_) => e.alias,
        _ => None,
    }
}

/// The names of the expressions that have one, in order.
pub open spec fn named_columns(es: Seq<ExpressionView>) -> Seq<Seq<char>>
    decreases es.len(),
{
    if es.len() == 0 {
        Seq::empty()
    } else {
        match name_of(es.last()) {
            Some(n) => named_columns(es.drop_last()).push(n),
            None => named_columns(es.drop_last()),
        }
    }
}

/// The names of the columns that a selection exposes; for a union, those
/// of its first select.
pub open spec fn named_selection(s: SelectQueryView) -> Seq<Seq<char>> {
    match s {
        SelectQueryView::Select(select) => named_columns(select.columns),
        SelectQueryView::Union(union) => if union.selects.len() > 0 {
            named_columns(union.selects[0].columns)
        } else {
            Seq::empty()
        },
    }
}

/// True for a tuple of columns only.
pub open spec fn only_columns(row: RowView) -> bool {
    forall|i: int| 0 <= i < row.values.len() ==> (#[trigger] row.values[i]).kind is Column
}

/// The columns of a tuple of columns.
pub open spec fn columns_of(row: RowView) -> Seq<ColumnView> {
    Seq::new(row.values.len(), |i: int| *row.values[i].kind->Column_0)
}

/// True for a comparison that is lifted into a common table expression: a
/// tuple of columns tested for membership in a selection that exposes as
/// many named columns as the tuple has items.
pub open spec fn hoistable(c: CompareView) -> bool {
    match c {
        CompareView::Binary(l, op, r) => match (l.kind, r.kind) {
            (ExpressionKindView::Row(row), ExpressionKindView::Selection(s)) => {
                &&& op is In || op is NotIn
                &&& row.values.len() > 0
                &&& only_columns(row)
                &&& named_selection(s).len() == row.values.len()
            },
            _ => false,
        },
        _ => false,
    }
}

/// The tuple of a tuple membership.
pub open spec fn tuple_of(c: CompareView) -> RowView
    recommends
        hoistable(c),
{
    c->Binary_0.kind->Row_0
}

/// The selection of a tuple membership.
pub open spec fn selection_of(c: CompareView) -> SelectQueryView
    recommends
        hoistable(c),
{
    c->Binary_2.kind->Selection_0
}

/// `name = column`, as a condition.
pub open spec fn correlation(name: Seq<char>, column: ColumnView) -> ConditionTreeView {
    ExpressionView::column(ColumnView::named(name)).compared(
        Comparison::Equals,
        ExpressionView::column(column),
    ).into_tree()
}

/// The select with the correlation of the items from the second up to
/// `upto`, each joined by `AND`.
pub open spec fn correlated(
    base: SelectView,
    columns: Seq<ColumnView>,
    names: Seq<Seq<char>>,
    upto: nat,
) -> SelectView
    decreases upto,
{
    if upto <= 1 || upto > columns.len() || upto > names.len() {
        base
    } else {
        correlated(base, columns, names, (upto - 1) as nat).and_where(
            correlation(names[upto - 1], columns[upto - 1]),
        )
    }
}

/// The comparison that stands for `(c1, c2, ..) IN (SELECT n1, n2, ..)`
/// once the selection is the common table expression `identifier`:
/// `c1 IN (SELECT n1 FROM identifier WHERE n2 = c2 AND ..)`.
pub open spec fn lowered(
    columns: Seq<ColumnView>,
    op: Comparison,
    names: Seq<Seq<char>>,
    identifier: Seq<char>,
) -> CompareView
    recommends
        columns.len() > 0,
        names.len() == columns.len(),
{
    ExpressionView::column(columns[0]).compared(
        op,
        ExpressionView::select(
            correlated(
                SelectView::from_table(TableView::named(identifier)).column(
                    ColumnView::named(names[0]),
                ),
                columns,
                names,
                columns.len(),
            ),
        ),
    )
}

/// The expressions rewritten from left to right.
pub open spec fn hoisted_expressions(es: Seq<ExpressionView>, level: nat) -> Result<
    Hoisted<Seq<ExpressionView>>,
    Fault,
>
    decreases es,
{
    if es.len() == 0 {
        Ok(Hoisted { node: Seq::empty(), ctes: Seq::empty(), level })
    } else {
        match hoisted_expressions(es.drop_last(), level) {
            Err(f) => Err(f),
            Ok(init) => match hoisted_expression(es.last(), init.level) {
                Err(f) => Err(f),
                Ok(last) => Ok(
                    Hoisted {
                        node: init.node.push(last.node),
                        ctes: init.ctes + last.ctes,
                        level: last.level,
                    },
                ),
            },
        }
    }
}

/// The selects rewritten from left to right.
pub open spec fn hoisted_selects(ss: Seq<SelectView>, level: nat) -> Result<
    Hoisted<Seq<SelectView>>,
    Fault,
>
    decreases ss,
{
    if ss.len() == 0 {
        Ok(Hoisted { node: Seq::empty(), ctes: Seq::empty(), level })
    } else {
        match hoisted_selects(ss.drop_last(), level) {
            Err(f) => Err(f),
            Ok(init) => match hoisted_select(ss.last(), init.level) {
                Err(f) => Err(f),
                Ok(last) => Ok(
                    Hoisted {
                        node: init.node.push(last.node),
                        ctes: init.ctes + last.ctes,
                        level: last.level,
                    },
                ),
            },
        }
    }
}

/// An expression with every tuple membership in a selection lifted out.
pub open spec fn hoisted_expression(e: ExpressionView, level: nat) -> Result<
    Hoisted<ExpressionView>,
    Fault,
>
    decreases e,
{
    match e.kind {
        ExpressionKindView::Selection(s) => match hoisted_selection(s, level) {
            Err(f) => Err(f),
            Ok(h) => Ok(
                Hoisted {
                    node: ExpressionView { kind: ExpressionKindView::Selection(h.node), alias: e.alias },
                    ctes: h.ctes,
                    level: h.level,
                },
            ),
        },
        ExpressionKindView::Compare(c) => match hoisted_compare(c, level) {
            Err(f) => Err(f),
            Ok(h) => Ok(
                Hoisted {
                    node: ExpressionView { kind: ExpressionKindView::Compare(h.node), alias: e.alias },
                    ctes: h.ctes,
                    level: h.level,
                },
            ),
        },
        ExpressionKindView::ConditionTree(t) => match hoisted_tree(t, level) {
            Err(f) => Err(f),
            Ok(h) => Ok(
                Hoisted {
                    node: ExpressionView {
                        kind: ExpressionKindView::ConditionTree(h.node),
                        alias: e.alias,
                    },
                    ctes: h.ctes,
                    level: h.level,
                },
            ),
        },
        _ => Ok(Hoisted { node: e, ctes: Seq::empty(), level }),
    }
}

/// A condition tree with every tuple membership in a selection lifted
/// out; the shape of the tree stays.
pub open spec fn hoisted_tree(t: ConditionTreeView, level: nat) -> Result<
    Hoisted<ConditionTreeView>,
    Fault,
>
    decreases t,
{
    match t {
        ConditionTreeView::And(es) => match hoisted_expressions(es, level) {
            Err(f) => Err(f),
            Ok(h) => Ok(Hoisted { node: ConditionTreeView::And(h.node), ctes: h.ctes, level: h.level }),
        },
        ConditionTreeView::Or(es) => match hoisted_expressions(es, level) {
            Err(f) => Err(f),
            Ok(h) => Ok(Hoisted { node: ConditionTreeView::Or(h.node), ctes: h.ctes, level: h.level }),
        },
        ConditionTreeView::Not(e) => match hoisted_expression(*e, level) {
            Err(f) => Err(f),
            Ok(h) => Ok(
                Hoisted {
                    node: ConditionTreeView::Not(Box::new(h.node)),
                    ctes: h.ctes,
                    level: h.level,
                },
            ),
        },
        ConditionTreeView::Single(e) => match hoisted_expression(*e, level) {
            Err(f) => Err(f),
            Ok(h) => Ok(
                Hoisted {
                    node: ConditionTreeView::Single(Box::new(h.node)),
                    ctes: h.ctes,
                    level: h.level,
                },
            ),
        },
        _ => Ok(Hoisted { node: t, ctes: Seq::empty(), level }),
    }
}

/// A comparison with a tuple membership in a selection lifted out. The
/// selection becomes the common table expression of the next number;
/// what is lifted out of the selection itself follows it.
pub open spec fn hoisted_compare(c: CompareView, level: nat) -> Result<Hoisted<CompareView>, Fault>
    decreases c,
{
    if hoistable(c) {
        match c {
            CompareView::Binary(l, op, r) => match (l.kind, r.kind) {
                (ExpressionKindView::Row(row), ExpressionKindView::Selection(s)) => if level
                    >= u64::MAX {
                    Err(Fault::NamesExhausted)
                } else {
                    match hoisted_selection(s, level + 1) {
                        Err(f) => Err(f),
                        Ok(h) => Ok(
                            Hoisted {
                                node: lowered(
                                    columns_of(row),
                                    op,
                                    named_selection(s),
                                    cte_name(level),
                                ),
                                ctes: seq![h.node.into_cte(cte_name(level))] + h.ctes,
                                level: h.level,
                            },
                        ),
                    }
                },
                _ => Ok(Hoisted { node: c, ctes: Seq::empty(), level }),
            },
            _ => Ok(Hoisted { node: c, ctes: Seq::empty(), level }),
        }
    } else {
        Ok(Hoisted { node: c, ctes: Seq::empty(), level })
    }
}

/// A selection with every tuple membership in a selection lifted out of
/// its conditions.
pub open spec fn hoisted_selection(s: SelectQueryView, level: nat) -> Result<
    Hoisted<SelectQueryView>,
    Fault,
>
    decreases s,
{
    match s {
        SelectQueryView::Select(select) => match hoisted_select(*select, level) {
            Err(f) => Err(f),
            Ok(h) => Ok(
                Hoisted {
                    node: SelectQueryView::Select(Box::new(h.node)),
                    ctes: h.ctes,
                    level: h.level,
                },
            ),
        },
        SelectQueryView::Union(union) => match hoisted_selects(union.selects, level) {
            Err(f) => Err(f),
            Ok(h) => Ok(
                Hoisted {
                    node: SelectQueryView::Union(
                        Box::new(UnionView { selects: h.node, ..*union }),
                    ),
                    ctes: h.ctes,
                    level: h.level,
                },
            ),
        },
    }
}

/// A select with every tuple membership in a selection lifted out of its
/// conditions. Everything else stays as it is.
pub open spec fn hoisted_select(s: SelectView, level: nat) -> Result<Hoisted<SelectView>, Fault>
    decreases s,
{
    match s.conditions {
        Some(t) => match hoisted_tree(t, level) {
            Err(f) => Err(f),
            Ok(h) => Ok(
                Hoisted {
                    node: SelectView { conditions: Some(h.node), ..s },
                    ctes: h.ctes,
                    level: h.level,
                },
            ),
        },
        None => Ok(Hoisted { node: s, ctes: Seq::empty(), level }),
    }
}

/// True where a common table expression of the first sequence is named
/// like one of the second.
pub open spec fn clashes(
    own: Seq<CommonTableExpressionView>,
    generated: Seq<CommonTableExpressionView>,
) -> bool {
    exists|i: int, j: int|
        0 <= i < own.len() && 0 <= j < generated.len() && (#[trigger] own[i]).identifier == (
        #[trigger] generated[j]).identifier
}

/// The statement `select` with every tuple membership in a selection
/// lifted into a common table expression, numbered from zero from left to
/// right; they follow the common table expressions that the select has
/// already.
pub open spec fn with_hoisted_ctes(s: SelectView) -> Result<SelectView, Fault> {
    match hoisted_select(s, 0) {
        Err(f) => Err(f),
        Ok(h) => if clashes(s.ctes, h.ctes) {
            Err(Fault::ClashingNames)
        } else {
            Ok(SelectView { ctes: s.ctes + h.ctes, ..h.node })
        },
    }
}

/// The condition under which a row to insert matches an existing row on
/// one unique column: the column of the source equals that of the target
/// where the insert names the column; else the column equals its static
/// default; none where the database generates the value.
pub open spec fn unique_condition(column: ColumnView, inserted: Seq<ColumnView>) -> Result<
    Option<ConditionTreeView>,
    Fault,
> {
    if column.among(inserted) {
        Ok(
            Some(
                ExpressionView::column(column.of_table(TableView::named("dual"@))).compared(
                    Comparison::Equals,
                    ExpressionView::column(column),
                ).into_tree(),
            ),
        )
    } else {
        match column.default {
            Some(DefaultValueView::Provided(v)) => Ok(
                Some(
                    ExpressionView::column(column).compared(
                        Comparison::Equals,
                        ExpressionView::value(v),
                    ).into_tree(),
                ),
            ),
            Some(DefaultValueView::Generated) => Ok(None),
            None => Err(Fault::UniqueColumnWithoutDefault),
        }
    }
}

/// The condition of the first `upto` columns of a compound index, joined
/// by `AND`; none where the database generates the value of one of them,
/// which takes the whole index out of the comparison.
pub open spec fn compound_condition(
    columns: Seq<ColumnView>,
    inserted: Seq<ColumnView>,
    upto: nat,
) -> Result<Option<ConditionTreeView>, Fault>
    decreases upto,
{
    if upto == 0 || upto > columns.len() {
        Ok(Some(ConditionTreeView::NoCondition))
    } else {
        match compound_condition(columns, inserted, (upto - 1) as nat) {
            Err(f) => Err(f),
            Ok(previous) => match unique_condition(columns[upto - 1], inserted) {
                Err(f) => Err(f),
                Ok(found) => Ok(
                    match (previous, found) {
                        (Some(ConditionTreeView::NoCondition), Some(next)) => Some(next),
                        (Some(left), Some(next)) => Some(left.and(next.into_expression())),
                        _ => None,
                    },
                ),
            },
        }
    }
}

/// The condition of one unique index; none where the database generates
/// the value of one of its columns.
pub open spec fn index_condition(index: IndexDefinitionView, inserted: Seq<ColumnView>) -> Result<
    Option<ConditionTreeView>,
    Fault,
> {
    match index {
        IndexDefinitionView::Single(c) => unique_condition(*c, inserted),
        IndexDefinitionView::Compound(cs) => compound_condition(cs, inserted, cs.len()),
    }
}

/// The condition under which a row to insert matches an existing row of
/// the table: that of the unique index that the table declares first.
/// Where the table declares none, or that index has no condition, no row
/// matches.
pub open spec fn join_conditions(table: TableView, inserted: Seq<ColumnView>) -> Result<
    ConditionTreeView,
    Fault,
> {
    if table.index_definitions.len() == 0 {
        Ok(ConditionTreeView::NegativeCondition)
    } else {
        match index_condition(table.index_definitions[0], inserted) {
            Err(f) => Err(f),
            Ok(None) => Ok(ConditionTreeView::NegativeCondition),
            Ok(Some(t)) => Ok(t),
        }
    }
}

/// The select of the values of a row, each under the name of its column.
pub open spec fn values_select(columns: Seq<ColumnView>, values: Seq<ExpressionView>) -> SelectView {
    SelectView {
        columns: Seq::new(
            if columns.len() <= values.len() {
                columns.len()
            } else {
                values.len()
            },
            |i: int| values[i].aliased(columns[i].name),
        ),
        ..SelectView::empty()
    }
}

/// The union of the selects of the rows: the last row first, then the
/// others in order, all united by `UNION ALL`.
pub open spec fn values_union(columns: Seq<ColumnView>, rows: Seq<RowView>) -> UnionView
    recommends
        rows.len() > 0,
{
    UnionView {
        selects: Seq::new(
            rows.len(),
            |i: int|
                if i == 0 {
                    values_select(columns, rows.last().values)
                } else {
                    values_select(columns, rows[i - 1].values)
                },
        ),
        types: Seq::new((rows.len() - 1) as nat, |i: int| UnionType::All),
        ctes: Seq::empty(),
    }
}

/// The query that yields the rows of an insert.
pub open spec fn source_query(i: InsertView) -> Result<QueryView, Fault> {
    match i.values.kind {
        ExpressionKindView::Row(row) => Ok(
            QueryView::Select(Box::new(values_select(i.columns, row.values))),
        ),
        ExpressionKindView::Values(values) => if values.rows.len() == 0 {
            Err(Fault::EmptyValues)
        } else {
            Ok(QueryView::Union(Box::new(values_union(i.columns, values.rows))))
        },
        ExpressionKindView::Selection(s) => Ok(s.into_query()),
        _ => Err(Fault::InsertSourceUnsupported),
    }
}

/// The columns with nothing but their names.
pub open spec fn bare_columns(columns: Seq<ColumnView>) -> Seq<ColumnView> {
    Seq::new(columns.len(), |i: int| columns[i].bare())
}

/// The columns in the table `dual`.
pub open spec fn dual_columns(columns: Seq<ColumnView>) -> Seq<ColumnView> {
    Seq::new(columns.len(), |i: int| columns[i].of_table(TableView::named("dual"@)))
}

/// The merge that stands for an insert that skips conflicting rows: the
/// rows come from a query named `dual`, are matched with the target on
/// its unique indices, and are inserted where nothing matches.
pub open spec fn merge_of(i: InsertView) -> Result<MergeView, Fault> {
    match i.table {
        None => Err(Fault::InsertWithoutTable),
        Some(table) => if table.index_definitions.len() == 0 {
            Err(Fault::MissingSchemaMetadata)
        } else {
            match source_query(i) {
                Err(f) => Err(f),
                Ok(query) => match join_conditions(table, i.columns) {
                    Err(f) => Err(f),
                    Ok(conditions) => Ok(
                        MergeView {
                            table,
                            using: UsingView::of(
                                query,
                                TableView::named("dual"@),
                                bare_columns(i.columns),
                            ).on(conditions),
                            when_not_matched: Some(
                                QueryView::Insert(
                                    Box::new(
                                        MultiRowInsertView::into(
                                            None,
                                            bare_columns(i.columns),
                                        ).values(RowView::of_columns(dual_columns(i.columns))).build(),
                                    ),
                                ),
                            ),
                            returning: i.returning,
                        },
                    ),
                },
            }
        },
    }
}

/// What a query becomes before it is compiled for a dialect: on a dialect
/// without row comparison, a select has its tuple memberships in
/// selections lifted into common table expressions; on a dialect that
/// cannot skip conflicts, an insert that skips them becomes a merge.
pub open spec fn adapted(d: Dialect, q: QueryView) -> Result<QueryView, Fault> {
    match q {
        QueryView::Select(s) => if d.compares_rows() {
            Ok(q)
        } else {
            match with_hoisted_ctes(*s) {
                Err(f) => Err(f),
                Ok(s2) => Ok(QueryView::Select(Box::new(s2))),
            }
        },
        QueryView::Insert(i) => if !d.skips_conflicts() && i.on_conflict matches Some(
            OnConflict::DoNothing,
        ) {
            match merge_of(*i) {
                Err(f) => Err(f),
                Ok(m) => Ok(QueryView::Merge(Box::new(m))),
            }
        } else {
            Ok(q)
        },
        _ => Ok(q),
    }
}

} // verus!

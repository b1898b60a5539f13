//! The building blocks of the syntax are compositional: they write the
//! same pieces whatever was written before them.

use vstd::prelude::*;
use crate::ast::model::{
    ColumnView,
    CommonTableExpressionView,
    CompareView,
    ConditionTreeView,
    DeleteView,
    ExpressionKindView,
    ExpressionView,
    FunctionTypeView,
    FunctionView,
    InsertView,
    JoinDataView,
    JoinView,
    JsonExtractView,
    MergeView,
    OrderDefinitionView,
    OverView,
    QueryView,
    RowView,
    SelectQueryView,
    SelectView,
    TableTypeView,
    TableView,
    TextSearchView,
    UnionView,
    UpdateView,
    ValuesView,
};
use crate::ast::node::{TypeFamily, UnionType};
use crate::ast::value::ValueView;
use crate::dialect::Dialect;
use crate::visitors::compose::{
    after,
    all_compositional,
    compositional,
    lemma_appends,
    own,
};
use crate::visitors::literal::render_raw;
use crate::visitors::model::{join, surround, text, then, Piece, Rendered};
use crate::visitors::syntax::{
    alias_suffix,
    bare_names,
    generated_keys_condition,
    generated_keys_declaration,
    generated_keys_select,
    insert_columns,
    insert_source,
    key_columns,
    key_pair,
    key_pairs,
    limit_and_offset,
    output_clause,
    qualified,
    qualified_columns,
    quoted,
    quoted_names,
    render_assignments,
    render_column,
    render_columns,
    render_compare,
    render_conditions,
    render_cte,
    render_ctes,
    render_delete,
    render_equality,
    render_expression,
    render_expressions,
    render_function,
    render_insert,
    render_insert_mssql,
    render_insert_mysql,
    render_insert_postgres,
    render_insert_sqlite,
    render_join,
    render_join_data,
    render_joins,
    render_json_extract,
    render_last_items,
    render_membership,
    render_merge,
    render_order_definitions,
    render_partitioning,
    render_query,
    render_row,
    render_row_items,
    render_select,
    render_selection,
    render_star,
    render_stars,
    render_table,
    render_tables,
    render_text_search,
    render_tuple_membership,
    render_union,
    render_united,
    render_update,
    render_values,
    rows_in_parentheses,
    table_name,
    text_params,
    tuple_comparison,
    tuple_expansion,
    tuple_groups,
    tuple_pairs,
    type_family,
    with_clause,
};

verus! {

broadcast use {vstd::seq::group_seq_axioms, crate::visitors::compose::group_composition};

/// True where the items of every row are compositional.
pub open spec fn all_rows_compositional(rows: Seq<Seq<Rendered>>) -> bool {
    forall|i: int| 0 <= i < rows.len() ==> all_compositional(#[trigger] rows[i])
}

pub broadcast proof fn lemma_quoted_composes(d: Dialect, name: Seq<char>)
    ensures
        #[trigger] compositional(quoted(d, name)),
{
    reveal(quoted);
}

pub broadcast proof fn lemma_alias_suffix_composes(d: Dialect, alias: Option<Seq<char>>)
    ensures
        #[trigger] compositional(alias_suffix(d, alias)),
{
    reveal(alias_suffix);
    if alias is Some {
        lemma_quoted_composes(d, alias->Some_0);
    }
}

pub broadcast proof fn lemma_table_name_composes(
    d: Dialect,
    database: Option<Seq<char>>,
    name: Seq<char>,
)
    ensures
        #[trigger] compositional(table_name(d, database, name)),
{
    reveal(table_name);
    lemma_quoted_composes(d, name);
    if database is Some {
        lemma_quoted_composes(d, database->Some_0);
    }
}

pub broadcast proof fn lemma_qualified_composes(d: Dialect, qualifier: Seq<char>, c: ColumnView)
    ensures
        #[trigger] compositional(qualified(d, qualifier, c)),
{
    reveal(qualified);
    lemma_quoted_composes(d, qualifier);
    lemma_quoted_composes(d, c.name);
    lemma_alias_suffix_composes(d, c.alias);
}

pub broadcast proof fn lemma_qualified_columns_compose(
    d: Dialect,
    qualifier: Seq<char>,
    cs: Seq<ColumnView>,
)
    ensures
        #[trigger] all_compositional(qualified_columns(d, qualifier, cs)),
{
    assert forall|i: int| 0 <= i < cs.len() implies compositional(
        #[trigger] qualified_columns(d, qualifier, cs)[i],
    ) by {
        lemma_qualified_composes(d, qualifier, cs[i]);
    }
}

pub broadcast proof fn lemma_text_params_compose(items: Seq<Seq<char>>)
    ensures
        #[trigger] all_compositional(text_params(items)),
{
}

pub broadcast proof fn lemma_quoted_names_compose(d: Dialect, items: Seq<Seq<char>>)
    ensures
        #[trigger] all_compositional(quoted_names(d, items)),
{
    assert forall|i: int| 0 <= i < items.len() implies compositional(
        #[trigger] quoted_names(d, items)[i],
    ) by {
        lemma_quoted_composes(d, items[i]);
    }
}

pub broadcast proof fn lemma_bare_names_compose(cs: Seq<ColumnView>)
    ensures
        #[trigger] all_compositional(bare_names(cs)),
{
}

pub broadcast proof fn lemma_key_pair_composes(d: Dialect, c: ColumnView)
    ensures
        #[trigger] compositional(key_pair(d, c)),
{
    reveal(key_pair);
    lemma_quoted_composes(d, "t"@);
    lemma_quoted_composes(d, "g"@);
    lemma_quoted_composes(d, c.name);
}

pub broadcast proof fn lemma_key_pairs_compose(d: Dialect, cs: Seq<ColumnView>)
    ensures
        #[trigger] all_compositional(key_pairs(d, cs)),
{
    assert forall|i: int| 0 <= i < cs.len() implies compositional(#[trigger] key_pairs(d, cs)[i]) by {
        lemma_key_pair_composes(d, cs[i]);
    }
}

pub broadcast proof fn lemma_type_family_composes(tf: TypeFamily)
    ensures
        #[trigger] compositional(type_family(tf)),
{
    reveal(type_family);
}

pub broadcast proof fn lemma_key_columns_compose(d: Dialect, cs: Seq<ColumnView>)
    ensures
        #[trigger] all_compositional(key_columns(d, cs)),
{
    assert forall|i: int| 0 <= i < cs.len() implies compositional(
        #[trigger] key_columns(d, cs)[i],
    ) by {
        lemma_quoted_composes(d, cs[i].name);
        if cs[i].type_family is Some {
            lemma_type_family_composes(cs[i].type_family->Some_0);
        }
    }
}

pub broadcast proof fn lemma_generated_keys_condition_composes(d: Dialect, cs: Seq<ColumnView>)
    ensures
        #[trigger] compositional(generated_keys_condition(d, cs)),
{
    reveal(generated_keys_condition);
    lemma_key_pairs_compose(d, cs);
    if cs.len() == 1 {
        lemma_key_pair_composes(d, cs[0]);
    }
}

pub broadcast proof fn lemma_generated_keys_declaration_composes(d: Dialect, cs: Seq<ColumnView>)
    ensures
        #[trigger] compositional(generated_keys_declaration(d, cs)),
{
    reveal(generated_keys_declaration);
    lemma_key_columns_compose(d, cs);
}

pub broadcast proof fn lemma_output_clause_composes(d: Dialect, cs: Seq<ColumnView>)
    ensures
        #[trigger] compositional(output_clause(d, cs)),
{
    reveal(output_clause);
    lemma_qualified_columns_compose(d, "Inserted"@, cs);
}

pub broadcast proof fn lemma_generated_keys_select_composes(
    d: Dialect,
    cs: Seq<ColumnView>,
    target: Rendered,
)
    requires
        compositional(target),
    ensures
        #[trigger] compositional(generated_keys_select(d, cs, target)),
{
    reveal(generated_keys_select);
    lemma_qualified_columns_compose(d, "t"@, cs);
    lemma_quoted_composes(d, "t"@);
    lemma_generated_keys_condition_composes(d, cs);
}

pub broadcast proof fn lemma_with_clause_composes(items: Seq<Rendered>)
    requires
        all_compositional(items),
    ensures
        #[trigger] compositional(with_clause(items)),
{
    reveal(with_clause);
}

pub broadcast proof fn lemma_limit_and_offset_composes(
    d: Dialect,
    limit: Option<ValueView>,
    offset: Option<ValueView>,
    ordered: bool,
)
    ensures
        #[trigger] compositional(limit_and_offset(d, limit, offset, ordered)),
{
    reveal(limit_and_offset);
}

pub broadcast proof fn lemma_raw_composes(d: Dialect, v: ValueView)
    ensures
        #[trigger] compositional(render_raw(d, v)),
{
}

pub broadcast proof fn lemma_star_composes(d: Dialect, t: TableView)
    ensures
        #[trigger] compositional(render_star(d, t)),
{
    reveal(render_star);
    if t.alias is Some {
        lemma_quoted_composes(d, t.alias->Some_0);
    }
    match t.typ {
        TableTypeView::Table(name) => lemma_table_name_composes(d, t.database, name),
        TableTypeView::JoinedTable(name, _) => lemma_table_name_composes(d, t.database, name),
        _ => {},
    }
}

pub broadcast proof fn lemma_stars_compose(d: Dialect, ts: Seq<TableView>)
    ensures
        #[trigger] all_compositional(render_stars(d, ts)),
{
    assert forall|i: int| 0 <= i < ts.len() implies compositional(#[trigger] render_stars(d, ts)[i]) by {
        lemma_star_composes(d, ts[i]);
    }
}

pub broadcast proof fn lemma_rows_in_parentheses_compose(rows: Seq<Seq<Rendered>>)
    requires
        all_rows_compositional(rows),
    ensures
        #[trigger] all_compositional(rows_in_parentheses(rows)),
{
    assert forall|i: int| 0 <= i < rows.len() implies compositional(
        #[trigger] rows_in_parentheses(rows)[i],
    ) by {
        assert(all_compositional(rows[i]));
    }
}

pub broadcast proof fn lemma_tuple_pairs_compose(lefts: Seq<Rendered>, rights: Seq<Rendered>)
    requires
        all_compositional(lefts),
        all_compositional(rights),
    ensures
        #[trigger] all_compositional(tuple_pairs(lefts, rights)),
{
    assert forall|j: int| 0 <= j < tuple_pairs(lefts, rights).len() implies compositional(
        #[trigger] tuple_pairs(lefts, rights)[j],
    ) by {
        assert(compositional(lefts[j]));
        assert(compositional(rights[j]));
    }
}

pub broadcast proof fn lemma_tuple_groups_compose(lefts: Seq<Rendered>, rows: Seq<Seq<Rendered>>)
    requires
        all_compositional(lefts),
        all_rows_compositional(rows),
    ensures
        #[trigger] all_compositional(tuple_groups(lefts, rows)),
{
    assert forall|i: int| 0 <= i < rows.len() implies compositional(
        #[trigger] tuple_groups(lefts, rows)[i],
    ) by {
        assert(all_compositional(rows[i]));
        lemma_tuple_pairs_compose(lefts, rows[i]);
    }
}

pub broadcast proof fn lemma_tuple_expansion_composes(
    lefts: Seq<Rendered>,
    rows: Seq<Seq<Rendered>>,
    negated: bool,
)
    requires
        all_compositional(lefts),
        all_rows_compositional(rows),
    ensures
        #[trigger] compositional(tuple_expansion(lefts, rows, negated)),
{
    reveal(tuple_expansion);
    lemma_tuple_groups_compose(lefts, rows);
}

pub broadcast proof fn lemma_tuple_comparison_composes(
    d: Dialect,
    lefts: Seq<Rendered>,
    rows: Seq<Seq<Rendered>>,
    negated: bool,
)
    requires
        all_compositional(lefts),
        all_rows_compositional(rows),
    ensures
        #[trigger] compositional(tuple_comparison(d, lefts, rows, negated)),
{
    reveal(tuple_comparison);
    lemma_tuple_expansion_composes(lefts, rows, negated);
    lemma_rows_in_parentheses_compose(rows);
}

pub broadcast group group_syntax_composition {
    lemma_quoted_composes,
    lemma_alias_suffix_composes,
    lemma_table_name_composes,
    lemma_qualified_composes,
    lemma_qualified_columns_compose,
    lemma_text_params_compose,
    lemma_quoted_names_compose,
    lemma_bare_names_compose,
    lemma_key_pair_composes,
    lemma_key_pairs_compose,
    lemma_type_family_composes,
    lemma_key_columns_compose,
    lemma_generated_keys_condition_composes,
    lemma_generated_keys_declaration_composes,
    lemma_output_clause_composes,
    lemma_generated_keys_select_composes,
    lemma_with_clause_composes,
    lemma_limit_and_offset_composes,
    lemma_raw_composes,
    lemma_star_composes,
    lemma_stars_compose,
    lemma_rows_in_parentheses_compose,
    lemma_tuple_pairs_compose,
    lemma_tuple_groups_compose,
    lemma_tuple_expansion_composes,
    lemma_tuple_comparison_composes,
}

} // verus!

//! The renderer of the recursive nodes: expressions, conditions, tables
//! and statements.

use vstd::prelude::*;
use vstd::std_specs::vec::axiom_vec_index_decreases;
use crate::ast::node::{
    Column,
    CommonTableExpression,
    Compare,
    Comparison,
    ConditionTree,
    Delete,
    Expression,
    ExpressionKind,
    Function,
    FunctionType,
    Insert,
    Join,
    JoinData,
    JsonArrayTest,
    JsonExtract,
    JsonPath,
    JsonType,
    Merge,
    OnConflict,
    Operator,
    Order,
    OrderDefinition,
    Over,
    Pattern,
    Query,
    Row,
    Select,
    SelectQuery,
    Table,
    TableType,
    TextSearch,
    Union,
    UnionType,
    Update,
    Values,
};
use crate::ast::model::{CompareView, ExpressionKindView};
use crate::ast::value::Value;
use crate::ast::view::{
    column_views,
    common_table_expression_views,
    expression_views,
    join_views,
    order_definition_views,
    row_views,
    select_views,
    string_views,
    table_views,
};
use crate::dialect::Dialect;
use crate::error::Fault;
use crate::visitors::model::{
    concat,
    join,
    lemma_concat_fails,
    lemma_concat_take,
    lemma_join_fails,
    lemma_join_take,
    nothing,
    surround,
    text,
    then,
    Rendered,
};
use crate::visitors::syntax::{
    bare_names,
    cast_against,
    comparison_text,
    compares_a_whole_row,
    direction_text,
    flattens,
    generated_keys_condition,
    generated_keys_declaration,
    generated_keys_select,
    insert_columns,
    insert_source,
    is_json_value,
    is_xml_value,
    json_type_name,
    json_type_name_mysql,
    key_columns,
    key_pair,
    key_pairs,
    operator_text,
    output_clause,
    pairs,
    pattern_keyword,
    pattern_text,
    qualified_columns,
    quoted_names,
    render_assignments,
    render_column,
    render_columns,
    render_compare,
    render_conditions,
    render_cte,
    render_ctes,
    render_delete,
    render_equality,
    render_expression,
    render_expressions,
    render_function,
    render_insert,
    render_insert_mssql,
    render_insert_mysql,
    render_insert_postgres,
    render_insert_sqlite,
    render_join,
    render_join_data,
    render_joins,
    render_json_extract,
    render_last_items,
    render_membership,
    render_tuple_membership,
    render_merge,
    render_order_definitions,
    render_partitioning,
    render_query,
    render_row,
    render_row_items,
    rows_in_parentheses,
    render_select,
    render_selection,
    render_star,
    render_stars,
    render_table,
    render_tables,
    render_text_search,
    render_union,
    render_united,
    render_update,
    render_values,
    row_len,
    text_params,
    tuple_comparison,
    tuple_expansion,
    tuple_groups,
    tuple_pairs,
    union_text,
    values_open,
    with_clause,
};
use crate::visitors::model::Piece;
use crate::visitors::writer::Writer;

verus! {

broadcast use {vstd::seq::group_seq_axioms, vstd::std_specs::vec::group_vec_axioms};

/// The text of an arithmetic operator, between spaces.
pub fn operator_str(op: Operator) -> (s: &'static str)
    ensures
        s@ == operator_text(op),
{
    match op {
        Operator::Add => " + ",
        Operator::Sub => " - ",
        Operator::Mul => " * ",
        Operator::Div => " / ",
        Operator::Rem => " % ",
    }
}

/// The text of a comparison, between spaces.
pub fn comparison_str(op: Comparison) -> (s: &'static str)
    ensures
        s@ == comparison_text(op),
{
    match op {
        Comparison::Equals => " = ",
        Comparison::NotEquals => " <> ",
        Comparison::LessThan => " < ",
        Comparison::LessThanOrEquals => " <= ",
        Comparison::GreaterThan => " > ",
        Comparison::GreaterThanOrEquals => " >= ",
        Comparison::In => " IN ",
        Comparison::NotIn => " NOT IN ",
    }
}

/// True where the comparison has a tuple on a side of it and is none of
/// the forms that are written without a tuple.
pub fn has_a_whole_row(c: &Compare) -> (b: bool)
    ensures
        b == compares_a_whole_row(c@),
{
    match c {
        Compare::Binary(left, op, right) => {
            assert(c@ matches CompareView::Binary(l, o, r) && *l == left@ && *r == right@ && o == *op);
            assert(left@.kind == left.kind@);
            assert(right@.kind == right.kind@);
            let left_row = matches!(&left.kind, ExpressionKind::Row(_));
            let right_row = matches!(&right.kind, ExpressionKind::Row(_));
            let right_values = matches!(&right.kind, ExpressionKind::Values(_));
            let right_empty = match &right.kind {
                ExpressionKind::Row(row) => {
                    assert(row@.values.len() == row.values@.len());
                    row.values.len() == 0
                },
                _ => false,
            };
            match op {
                Comparison::Equals => left_row != right_row,
                Comparison::NotEquals => left_row != right_row,
                Comparison::In => left_row && !right_values && !right_empty,
                Comparison::NotIn => left_row && !right_values && !right_empty,
                _ => left_row || right_row,
            }
        },
        _ => false,
    }
}

/// The keyword of a pattern comparison, between spaces.
pub fn pattern_keyword_str(p: Pattern) -> (s: &'static str)
    ensures
        s@ == pattern_keyword(p),
{
    match p {
        Pattern::Like => " LIKE ",
        Pattern::BeginsWith => " LIKE ",
        Pattern::EndsInto => " LIKE ",
        Pattern::NotLike => " NOT LIKE ",
        Pattern::NotBeginsWith => " NOT LIKE ",
        Pattern::NotEndsInto => " NOT LIKE ",
    }
}

/// The pattern that is bound for a pattern comparison.
pub fn pattern_string(d: Dialect, p: Pattern, s: &str) -> (out: String)
    ensures
        out@ == pattern_text(d, p, s@),
{
    let mut out = String::new();
    match p {
        Pattern::Like => {
            out.append(d.wildcard_str());
            out.append(s);
            out.append(d.wildcard_str());
        },
        Pattern::NotLike => {
            out.append(d.wildcard_str());
            out.append(s);
            out.append(d.wildcard_str());
        },
        Pattern::BeginsWith => {
            out.append(s);
            out.append(d.wildcard_str());
        },
        Pattern::NotBeginsWith => {
            out.append(s);
            out.append(d.wildcard_str());
        },
        Pattern::EndsInto => {
            out.append(d.wildcard_str());
            out.append(s);
        },
        Pattern::NotEndsInto => {
            out.append(d.wildcard_str());
            out.append(s);
        },
    }
    assert(out@ =~= pattern_text(d, p, s@));
    out
}

/// The direction of an ordering; empty where none is given.
pub fn direction_str(order: Option<Order>) -> (s: &'static str)
    ensures
        s@ == direction_text(order),
{
    match order {
        Some(Order::Asc) => " ASC",
        Some(Order::Desc) => " DESC",
        None => "",
    }
}

/// The keyword between two united selects.
pub fn union_str(t: UnionType) -> (s: &'static str)
    ensures
        s@ == union_text(t),
{
    match t {
        UnionType::All => "UNION ALL",
        UnionType::Distinct => "UNION",
    }
}

/// The name of a JSON type as PostgreSQL reports it.
pub fn json_type_str(t: JsonType) -> (s: &'static str)
    ensures
        s@ == json_type_name(t),
{
    match t {
        JsonType::Array => "array",
        JsonType::Boolean => "boolean",
        JsonType::Number => "number",
        JsonType::Object => "object",
        JsonType::String => "string",
        JsonType::Null => "null",
    }
}

/// The name of a JSON type as MySQL reports it.
pub fn json_type_mysql_str(t: JsonType) -> (s: &'static str)
    ensures
        s@ == json_type_name_mysql(t),
{
    match t {
        JsonType::Array => "ARRAY",
        JsonType::Boolean => "BOOLEAN",
        JsonType::Number => "INTEGER",
        JsonType::Object => "OBJECT",
        JsonType::String => "STRING",
        JsonType::Null => "NULL",
    }
}

/// Tells whether an expression is a JSON value bound as a parameter.
pub fn is_json(e: &Expression) -> (b: bool)
    ensures
        b == is_json_value(e@),
    decreases e,
{
    match &e.kind {
        ExpressionKind::Parameterized(Value::Json(_)) => true,
        ExpressionKind::Value(inner) => is_json(inner),
        _ => false,
    }
}

/// Tells whether an expression is an XML value bound as a parameter.
pub fn is_xml(e: &Expression) -> (b: bool)
    ensures
        b == is_xml_value(e@),
    decreases e,
{
    match &e.kind {
        ExpressionKind::Parameterized(Value::Xml(_)) => true,
        ExpressionKind::Value(inner) => is_xml(inner),
        _ => false,
    }
}

/// The cast that PostgreSQL needs on an operand that is compared with
/// `other`.
pub fn cast_str(d: Dialect, other: &Expression) -> (s: &'static str)
    ensures
        s@ == cast_against(d, other@),
{
    match d {
        Dialect::Postgres => {
            if is_json(other) {
                "::jsonb"
            } else if is_xml(other) {
                "::text"
            } else {
                ""
            }
        },
        _ => "",
    }
}

/// Tells whether every row has a last item.
pub fn rows_have_items(v: &Values) -> (b: bool)
    ensures
        b == flattens(v@),
{
    let mut i: usize = 0;
    while i < v.rows.len()
        invariant
            i <= v.rows.len(),
            forall|j: int| 0 <= j < i ==> (#[trigger] v@.rows[j]).values.len() > 0,
        decreases v.rows.len() - i,
    {
        if v.rows[i].values.len() == 0 {
            assert(v@.rows[i as int].values.len() == 0);
            return false;
        }
        assert(v@.rows[i as int].values.len() > 0);
        i += 1;
    }
    true
}

impl Writer {
    /// Writes the expressions, with the separator between each two.
    #[verifier::spinoff_prover]
    pub fn visit_expressions(&mut self, v: &Vec<Expression>, separator: &str) -> (r: Result<(), Fault>)
        requires
            old(self).wf(),
        ensures
            final(self).follows(*old(self), r, join(render_expressions(old(self).dialect, expression_views(v@)), separator@)),
        decreases v, 0nat,
    {
        let ghost d = self.dialect;
        let ghost items = render_expressions(d, expression_views(v@));
        let mut i: usize = 0;
        while i < v.len()
            invariant
                i <= v.len(),
                d == old(self).dialect,
                items == render_expressions(d, expression_views(v@)),
                items.len() == v.len(),
                self.follows(*old(self), Ok(()), join(items.take(i as int), separator@)),
            decreases v.len() - i,
        {
            proof {
                axiom_vec_index_decreases(*v, i as int);
                lemma_join_take(items, separator@, i as int, old(self).trace@);
            }
            if i > 0 {
                self.write(separator);
            }
            match self.visit_expression(&v[i]) {
                Ok(()) => {},
                Err(f) => {
                    proof {
                        lemma_join_fails(items, separator@, i as int + 1, old(self).trace@);
                    }
                    return Err(f);
                },
            }
            i += 1;
        }
        proof {
            assert(items.take(v.len() as int) =~= items);
        }
        Ok(())
    }

    /// Writes the columns, with the separator between each two.
    #[verifier::spinoff_prover]
    pub fn visit_columns(&mut self, v: &Vec<Column>, separator: &str) -> (r: Result<(), Fault>)
        requires
            old(self).wf(),
        ensures
            final(self).follows(*old(self), r, join(render_columns(old(self).dialect, column_views(v@)), separator@)),
        decreases v, 0nat,
    {
        let ghost d = self.dialect;
        let ghost items = render_columns(d, column_views(v@));
        let mut i: usize = 0;
        while i < v.len()
            invariant
                i <= v.len(),
                d == old(self).dialect,
                items == render_columns(d, column_views(v@)),
                items.len() == v.len(),
                self.follows(*old(self), Ok(()), join(items.take(i as int), separator@)),
            decreases v.len() - i,
        {
            proof {
                axiom_vec_index_decreases(*v, i as int);
                lemma_join_take(items, separator@, i as int, old(self).trace@);
            }
            if i > 0 {
                self.write(separator);
            }
            match self.visit_column(&v[i]) {
                Ok(()) => {},
                Err(f) => {
                    proof {
                        lemma_join_fails(items, separator@, i as int + 1, old(self).trace@);
                    }
                    return Err(f);
                },
            }
            i += 1;
        }
        proof {
            assert(items.take(v.len() as int) =~= items);
        }
        Ok(())
    }

    /// Writes the rows, each in parentheses, with the separator between each two.
    #[verifier::spinoff_prover]
    pub fn visit_rows(&mut self, v: &Vec<Row>, separator: &str) -> (r: Result<(), Fault>)
        requires
            old(self).wf(),
        ensures
            final(self).follows(*old(self), r, join(rows_in_parentheses(render_row_items(old(self).dialect, row_views(v@))), separator@)),
        decreases v, 0nat,
    {
        proof {
            reveal(render_row);
        }
        let ghost d = self.dialect;
        let ghost items = rows_in_parentheses(render_row_items(d, row_views(v@)));
        let mut i: usize = 0;
        while i < v.len()
            invariant
                i <= v.len(),
                d == old(self).dialect,
                items == rows_in_parentheses(render_row_items(d, row_views(v@))),
                items.len() == v.len(),
                self.follows(*old(self), Ok(()), join(items.take(i as int), separator@)),
            decreases v.len() - i,
        {
            proof {
                reveal(render_row);
                axiom_vec_index_decreases(*v, i as int);
                lemma_join_take(items, separator@, i as int, old(self).trace@);
            }
            if i > 0 {
                self.write(separator);
            }
            assert(render_row_items(d, row_views(v@))[i as int] == render_expressions(d, v@[i as int]@.values));
            assert(items[i as int] == render_row(d, v@[i as int]@));
            match self.visit_row(&v[i]) {
                Ok(()) => {},
                Err(f) => {
                    proof {
                        lemma_join_fails(items, separator@, i as int + 1, old(self).trace@);
                    }
                    return Err(f);
                },
            }
            i += 1;
        }
        proof {
            assert(items.take(v.len() as int) =~= items);
        }
        Ok(())
    }

    /// Writes the last item of every row, with commas between them.
    #[verifier::spinoff_prover]
    pub fn visit_last_items(&mut self, v: &Vec<Row>) -> (r: Result<(), Fault>)
        requires
            old(self).wf(),
            forall|j: int| 0 <= j < v@.len() ==> (#[trigger] v@[j]).values@.len() > 0,
        ensures
            final(self).follows(*old(self), r, join(render_last_items(old(self).dialect, row_views(v@)), ","@)),
        decreases v, 0nat,
    {
        let ghost d = self.dialect;
        let ghost items = render_last_items(d, row_views(v@));
        let mut i: usize = 0;
        while i < v.len()
            invariant
                i <= v.len(),
                d == old(self).dialect,
                items == render_last_items(d, row_views(v@)),
                items.len() == v.len(),
                forall|j: int| 0 <= j < v@.len() ==> (#[trigger] v@[j]).values@.len() > 0,
                self.follows(*old(self), Ok(()), join(items.take(i as int), ","@)),
            decreases v.len() - i,
        {
            proof {
                axiom_vec_index_decreases(*v, i as int);
                lemma_join_take(items, ","@, i as int, old(self).trace@);
            }
            if i > 0 {
                self.write(",");
            }
            match self.visit_expression(&v[i].values[v[i].values.len() - 1]) {
                Ok(()) => {},
                Err(f) => {
                    proof {
                        lemma_join_fails(items, ","@, i as int + 1, old(self).trace@);
                    }
                    return Err(f);
                },
            }
            i += 1;
        }
        proof {
            assert(items.take(v.len() as int) =~= items);
        }
        Ok(())
    }

    /// Writes the tables of a `FROM` clause, with commas between them.
    #[verifier::spinoff_prover]
    pub fn visit_tables(&mut self, v: &Vec<Table>) -> (r: Result<(), Fault>)
        requires
            old(self).wf(),
        ensures
            final(self).follows(*old(self), r, join(render_tables(old(self).dialect, table_views(v@)), ", "@)),
        decreases v, 0nat,
    {
        let ghost d = self.dialect;
        let ghost items = render_tables(d, table_views(v@));
        let mut i: usize = 0;
        while i < v.len()
            invariant
                i <= v.len(),
                d == old(self).dialect,
                items == render_tables(d, table_views(v@)),
                items.len() == v.len(),
                self.follows(*old(self), Ok(()), join(items.take(i as int), ", "@)),
            decreases v.len() - i,
        {
            proof {
                axiom_vec_index_decreases(*v, i as int);
                lemma_join_take(items, ", "@, i as int, old(self).trace@);
            }
            if i > 0 {
                self.write(", ");
            }
            match self.visit_table(&v[i], true) {
                Ok(()) => {},
                Err(f) => {
                    proof {
                        lemma_join_fails(items, ", "@, i as int + 1, old(self).trace@);
                    }
                    return Err(f);
                },
            }
            i += 1;
        }
        proof {
            assert(items.take(v.len() as int) =~= items);
        }
        Ok(())
    }

    /// Writes the joins, one after the other.
    #[verifier::spinoff_prover]
    pub fn visit_joins(&mut self, v: &Vec<Join>) -> (r: Result<(), Fault>)
        requires
            old(self).wf(),
        ensures
            final(self).follows(*old(self), r, concat(render_joins(old(self).dialect, join_views(v@)))),
        decreases v, 0nat,
    {
        let ghost d = self.dialect;
        let ghost items = render_joins(d, join_views(v@));
        let mut i: usize = 0;
        while i < v.len()
            invariant
                i <= v.len(),
                d == old(self).dialect,
                items == render_joins(d, join_views(v@)),
                items.len() == v.len(),
                self.follows(*old(self), Ok(()), concat(items.take(i as int))),
            decreases v.len() - i,
        {
            proof {
                axiom_vec_index_decreases(*v, i as int);
                lemma_concat_take(items, i as int, old(self).trace@);
            }
            match self.visit_join(&v[i]) {
                Ok(()) => {},
                Err(f) => {
                    proof {
                        lemma_concat_fails(items, i as int + 1, old(self).trace@);
                    }
                    return Err(f);
                },
            }
            i += 1;
        }
        proof {
            assert(items.take(v.len() as int) =~= items);
        }
        Ok(())
    }

    /// Writes the order definitions, with commas between them.
    #[verifier::spinoff_prover]
    pub fn visit_ordering(&mut self, v: &Vec<OrderDefinition>) -> (r: Result<(), Fault>)
        requires
            old(self).wf(),
        ensures
            final(self).follows(*old(self), r, join(render_order_definitions(old(self).dialect, order_definition_views(v@)), ", "@)),
        decreases v, 0nat,
    {
        let ghost d = self.dialect;
        let ghost items = render_order_definitions(d, order_definition_views(v@));
        let mut i: usize = 0;
        while i < v.len()
            invariant
                i <= v.len(),
                d == old(self).dialect,
                items == render_order_definitions(d, order_definition_views(v@)),
                items.len() == v.len(),
                self.follows(*old(self), Ok(()), join(items.take(i as int), ", "@)),
            decreases v.len() - i,
        {
            proof {
                axiom_vec_index_decreases(*v, i as int);
                lemma_join_take(items, ", "@, i as int, old(self).trace@);
            }
            if i > 0 {
                self.write(", ");
            }
            match self.visit_expression(&v[i].expression) {
                Ok(()) => {},
                Err(f) => {
                    proof {
                        lemma_join_fails(items, ", "@, i as int + 1, old(self).trace@);
                    }
                    return Err(f);
                },
            }
            self.write(direction_str(v[i].order));
            i += 1;
        }
        proof {
            assert(items.take(v.len() as int) =~= items);
        }
        Ok(())
    }

    /// Writes the common table expressions, with commas between them.
    #[verifier::spinoff_prover]
    pub fn visit_ctes(&mut self, v: &Vec<CommonTableExpression>) -> (r: Result<(), Fault>)
        requires
            old(self).wf(),
        ensures
            final(self).follows(*old(self), r, join(render_ctes(old(self).dialect, common_table_expression_views(v@)), ", "@)),
        decreases v, 0nat,
    {
        let ghost d = self.dialect;
        let ghost items = render_ctes(d, common_table_expression_views(v@));
        let mut i: usize = 0;
        while i < v.len()
            invariant
                i <= v.len(),
                d == old(self).dialect,
                items == render_ctes(d, common_table_expression_views(v@)),
                items.len() == v.len(),
                self.follows(*old(self), Ok(()), join(items.take(i as int), ", "@)),
            decreases v.len() - i,
        {
            proof {
                axiom_vec_index_decreases(*v, i as int);
                lemma_join_take(items, ", "@, i as int, old(self).trace@);
            }
            if i > 0 {
                self.write(", ");
            }
            match self.visit_cte(&v[i]) {
                Ok(()) => {},
                Err(f) => {
                    proof {
                        lemma_join_fails(items, ", "@, i as int + 1, old(self).trace@);
                    }
                    return Err(f);
                },
            }
            i += 1;
        }
        proof {
            assert(items.take(v.len() as int) =~= items);
        }
        Ok(())
    }

    /// Writes the selects of a union, with the keyword that unites each with the next.
    #[verifier::spinoff_prover]
    pub fn visit_united(&mut self, v: &Vec<Select>, types: &Vec<UnionType>) -> (r: Result<(), Fault>)
        requires
            old(self).wf(),
        ensures
            final(self).follows(*old(self), r, concat(render_united(old(self).dialect, select_views(v@), types@))),
        decreases v, 0nat,
    {
        let ghost d = self.dialect;
        let ghost items = render_united(d, select_views(v@), types@);
        let mut i: usize = 0;
        while i < v.len()
            invariant
                i <= v.len(),
                d == old(self).dialect,
                items == render_united(d, select_views(v@), types@),
                items.len() == v.len(),
                self.follows(*old(self), Ok(()), concat(items.take(i as int))),
            decreases v.len() - i,
        {
            proof {
                axiom_vec_index_decreases(*v, i as int);
                lemma_concat_take(items, i as int, old(self).trace@);
            }
            match self.visit_select(&v[i]) {
                Ok(()) => {},
                Err(f) => {
                    proof {
                        lemma_concat_fails(items, i as int + 1, old(self).trace@);
                    }
                    return Err(f);
                },
            }
            if i + 1 < v.len() {
                if i < types.len() {
                    self.write(" ");
                    self.write(union_str(types[i]));
                    self.write(" ");
                } else {
                    proof {
                        lemma_concat_fails(items, i as int + 1, old(self).trace@);
                    }
                    return Err(Fault::MalformedUnion);
                }
            }
            i += 1;
        }
        proof {
            assert(items.take(v.len() as int) =~= items);
        }
        Ok(())
    }

    /// Writes `table.*` for every table, with commas between them.
    #[verifier::spinoff_prover]
    pub fn visit_stars(&mut self, v: &Vec<Table>)
        requires
            old(self).wf(),
        ensures
            final(self).follows(*old(self), Ok(()), join(render_stars(old(self).dialect, table_views(v@)), ", "@)),
    {
        let ghost d = self.dialect;
        let ghost items = render_stars(d, table_views(v@));
        let mut i: usize = 0;
        while i < v.len()
            invariant
                i <= v.len(),
                d == old(self).dialect,
                items == render_stars(d, table_views(v@)),
                items.len() == v.len(),
                self.follows(*old(self), Ok(()), join(items.take(i as int), ", "@)),
            decreases v.len() - i,
        {
            proof {
                axiom_vec_index_decreases(*v, i as int);
                lemma_join_take(items, ", "@, i as int, old(self).trace@);
            }
            if i > 0 {
                self.write(", ");
            }
            self.visit_star(&v[i]);
            i += 1;
        }
        proof {
            assert(items.take(v.len() as int) =~= items);
        }
    }

    /// Writes the columns under the name of another table, with commas between them.
    #[verifier::spinoff_prover]
    pub fn write_qualified_columns(&mut self, v: &Vec<Column>, qualifier: &str)
        requires
            old(self).wf(),
        ensures
            final(self).follows(*old(self), Ok(()), join(qualified_columns(old(self).dialect, qualifier@, column_views(v@)), ","@)),
    {
        let ghost d = self.dialect;
        let ghost items = qualified_columns(d, qualifier@, column_views(v@));
        let mut i: usize = 0;
        while i < v.len()
            invariant
                i <= v.len(),
                d == old(self).dialect,
                items == qualified_columns(d, qualifier@, column_views(v@)),
                items.len() == v.len(),
                self.follows(*old(self), Ok(()), join(items.take(i as int), ","@)),
            decreases v.len() - i,
        {
            proof {
                axiom_vec_index_decreases(*v, i as int);
                lemma_join_take(items, ","@, i as int, old(self).trace@);
            }
            if i > 0 {
                self.write(",");
            }
            self.write_qualified(qualifier, &v[i]);
            i += 1;
        }
        proof {
            assert(items.take(v.len() as int) =~= items);
        }
    }

    /// Binds a text value for each string, with commas between the placeholders.
    #[verifier::spinoff_prover]
    pub fn write_text_params(&mut self, v: &Vec<String>)
        requires
            old(self).wf(),
        ensures
            final(self).follows(*old(self), Ok(()), join(text_params(string_views(v@)), ", "@)),
    {
        let ghost d = self.dialect;
        let ghost items = text_params(string_views(v@));
        let mut i: usize = 0;
        while i < v.len()
            invariant
                i <= v.len(),
                d == old(self).dialect,
                items == text_params(string_views(v@)),
                items.len() == v.len(),
                self.follows(*old(self), Ok(()), join(items.take(i as int), ", "@)),
            decreases v.len() - i,
        {
            proof {
                axiom_vec_index_decreases(*v, i as int);
                lemma_join_take(items, ", "@, i as int, old(self).trace@);
            }
            if i > 0 {
                self.write(", ");
            }
            self.visit_parameterized(Value::text(v[i].as_str()));
            i += 1;
        }
        proof {
            assert(items.take(v.len() as int) =~= items);
        }
    }

    /// Writes a quoted identifier for each string, with commas between them.
    #[verifier::spinoff_prover]
    pub fn write_quoted_names(&mut self, v: &Vec<String>)
        requires
            old(self).wf(),
        ensures
            final(self).follows(*old(self), Ok(()), join(quoted_names(old(self).dialect, string_views(v@)), ","@)),
    {
        let ghost d = self.dialect;
        let ghost items = quoted_names(d, string_views(v@));
        let mut i: usize = 0;
        while i < v.len()
            invariant
                i <= v.len(),
                d == old(self).dialect,
                items == quoted_names(d, string_views(v@)),
                items.len() == v.len(),
                self.follows(*old(self), Ok(()), join(items.take(i as int), ","@)),
            decreases v.len() - i,
        {
            proof {
                axiom_vec_index_decreases(*v, i as int);
                lemma_join_take(items, ","@, i as int, old(self).trace@);
            }
            if i > 0 {
                self.write(",");
            }
            self.write_quoted(v[i].as_str());
            i += 1;
        }
        proof {
            assert(items.take(v.len() as int) =~= items);
        }
    }

    /// Writes the names of the columns as they are, with commas between them.
    #[verifier::spinoff_prover]
    pub fn write_bare_names(&mut self, v: &Vec<Column>)
        requires
            old(self).wf(),
        ensures
            final(self).follows(*old(self), Ok(()), join(bare_names(column_views(v@)), ", "@)),
    {
        let ghost d = self.dialect;
        let ghost items = bare_names(column_views(v@));
        let mut i: usize = 0;
        while i < v.len()
            invariant
                i <= v.len(),
                d == old(self).dialect,
                items == bare_names(column_views(v@)),
                items.len() == v.len(),
                self.follows(*old(self), Ok(()), join(items.take(i as int), ", "@)),
            decreases v.len() - i,
        {
            proof {
                axiom_vec_index_decreases(*v, i as int);
                lemma_join_take(items, ", "@, i as int, old(self).trace@);
            }
            if i > 0 {
                self.write(", ");
            }
            self.write(v[i].name.as_str());
            i += 1;
        }
        proof {
            assert(items.take(v.len() as int) =~= items);
        }
    }

    /// Writes `t.column = g.column` for every column, joined by `AND`.
    #[verifier::spinoff_prover]
    pub fn write_key_pairs(&mut self, v: &Vec<Column>)
        requires
            old(self).wf(),
        ensures
            final(self).follows(*old(self), Ok(()), join(key_pairs(old(self).dialect, column_views(v@)), " AND "@)),
    {
        let ghost d = self.dialect;
        let ghost items = key_pairs(d, column_views(v@));
        let mut i: usize = 0;
        while i < v.len()
            invariant
                i <= v.len(),
                d == old(self).dialect,
                items == key_pairs(d, column_views(v@)),
                items.len() == v.len(),
                self.follows(*old(self), Ok(()), join(items.take(i as int), " AND "@)),
            decreases v.len() - i,
        {
            proof {
                axiom_vec_index_decreases(*v, i as int);
                lemma_join_take(items, " AND "@, i as int, old(self).trace@);
            }
            if i > 0 {
                self.write(" AND ");
            }
            self.write_key_pair(&v[i]);
            i += 1;
        }
        proof {
            assert(items.take(v.len() as int) =~= items);
        }
    }

    /// Writes the columns of the table variable: the bare name of each, with its type.
    #[verifier::spinoff_prover]
    pub fn write_key_columns(&mut self, v: &Vec<Column>)
        requires
            old(self).wf(),
        ensures
            final(self).follows(*old(self), Ok(()), join(key_columns(old(self).dialect, column_views(v@)), ","@)),
    {
        let ghost d = self.dialect;
        let ghost items = key_columns(d, column_views(v@));
        let mut i: usize = 0;
        while i < v.len()
            invariant
                i <= v.len(),
                d == old(self).dialect,
                items == key_columns(d, column_views(v@)),
                items.len() == v.len(),
                self.follows(*old(self), Ok(()), join(items.take(i as int), ","@)),
            decreases v.len() - i,
        {
            proof {
                axiom_vec_index_decreases(*v, i as int);
                lemma_join_take(items, ","@, i as int, old(self).trace@);
            }
            if i > 0 {
                self.write(",");
            }
            self.write_quoted(v[i].name.as_str());
            self.write(" ");
            match v[i].type_family {
                Some(tf) => self.visit_type_family(tf),
                None => self.write("NVARCHAR(255)"),
            }
            i += 1;
        }
        proof {
            assert(items.take(v.len() as int) =~= items);
        }
    }

    /// Writes `table.*` for a table of a projection without columns.
    #[verifier::spinoff_prover]
    pub fn visit_star(&mut self, t: &Table)
        requires
            old(self).wf(),
        ensures
            final(self).follows(*old(self), Ok(()), render_star(old(self).dialect, t@)),
    {
        proof {
            reveal(render_star);
        }
        match &t.alias {
            Some(a) => {
                self.write_quoted(a.as_str());
                self.write(".*");
            },
            None => match &t.typ {
                TableType::Table(name) => {
                    self.write_table_name(&t.database, name.as_str());
                    self.write(".*");
                },
                TableType::JoinedTable(name, _) => {
                    self.write_table_name(&t.database, name.as_str());
                    self.write(".*");
                },
                TableType::Query(_) => {
                    self.write("*");
                },
                TableType::Values(_) => {
                    self.write("*");
                },
            },
        }
    }

    /// Writes `t.column = g.column`.
    #[verifier::spinoff_prover]
    pub fn write_key_pair(&mut self, c: &Column)
        requires
            old(self).wf(),
        ensures
            final(self).follows(*old(self), Ok(()), key_pair(old(self).dialect, c@)),
    {
        proof {
            reveal(key_pair);
        }
        self.write_quoted("t");
        self.write(".");
        self.write_quoted(c.name.as_str());
        self.write(" = ");
        self.write_quoted("g");
        self.write(".");
        self.write_quoted(c.name.as_str());
    }

    /// Writes the `WITH` clause of the common table expressions, where
    /// there are any.
    #[verifier::spinoff_prover]
    pub fn visit_with_clause(&mut self, v: &Vec<CommonTableExpression>) -> (r: Result<(), Fault>)
        requires
            old(self).wf(),
        ensures
            final(self).follows(
                *old(self),
                r,
                with_clause(render_ctes(old(self).dialect, common_table_expression_views(v@))),
            ),
        decreases v, 1nat,
    {
        proof {
            reveal(with_clause);
        }
        if v.len() > 0 {
            self.write("WITH ");
            self.visit_ctes(v)?;
            self.write(" ");
        }
        Ok(())
    }

    /// Writes a table, with its alias where `include_alias` asks for it.
    #[verifier::spinoff_prover]
    pub fn visit_table(&mut self, t: &Table, include_alias: bool) -> (r: Result<(), Fault>)
        requires
            old(self).wf(),
        ensures
            final(self).follows(*old(self), r, render_table(old(self).dialect, t@, include_alias)),
        decreases t, 0nat,
    {
        proof {
            reveal(render_table);
        }
        match &t.typ {
            TableType::Table(name) => {
                self.write_table_name(&t.database, name.as_str());
            },
            TableType::JoinedTable(name, joins) => {
                self.write_table_name(&t.database, name.as_str());
                self.visit_joins(joins)?;
            },
            TableType::Query(select) => {
                self.write("(");
                self.visit_select(select)?;
                self.write(")");
            },
            TableType::Values(values) => {
                self.visit_values(values)?;
            },
        }
        if include_alias {
            self.write_alias(&t.alias);
        }
        Ok(())
    }

    /// Writes a join.
    #[verifier::spinoff_prover]
    pub fn visit_join(&mut self, j: &Join) -> (r: Result<(), Fault>)
        requires
            old(self).wf(),
        ensures
            final(self).follows(*old(self), r, render_join(old(self).dialect, j@)),
        decreases j,
    {
        proof {
            reveal(render_join);
        }
        match j {
            Join::Inner(data) => {
                self.write(" INNER JOIN ");
                self.visit_join_data(data)
            },
            Join::Left(data) => {
                self.write(" LEFT JOIN ");
                self.visit_join_data(data)
            },
            Join::Right(data) => {
                self.write(" RIGHT JOIN ");
                self.visit_join_data(data)
            },
            Join::Full(data) => {
                self.write(" FULL JOIN ");
                self.visit_join_data(data)
            },
        }
    }

    /// Writes the table of a join and its condition.
    #[verifier::spinoff_prover]
    pub fn visit_join_data(&mut self, data: &JoinData) -> (r: Result<(), Fault>)
        requires
            old(self).wf(),
        ensures
            final(self).follows(*old(self), r, render_join_data(old(self).dialect, data@)),
        decreases data,
    {
        proof {
            reveal(render_join_data);
        }
        self.visit_table(&data.table, true)?;
        self.write(" ON ");
        self.visit_conditions(&data.conditions)
    }

    /// Writes a column: qualified by its table where it has one, with its
    /// alias.
    #[verifier::spinoff_prover]
    pub fn visit_column(&mut self, c: &Column) -> (r: Result<(), Fault>)
        requires
            old(self).wf(),
        ensures
            final(self).follows(*old(self), r, render_column(old(self).dialect, c@)),
        decreases c, 0nat,
    {
        proof {
            reveal(render_column);
        }
        match &c.table {
            Some(t) => {
                self.visit_table(t, false)?;
                self.write(".");
                self.write_quoted(c.name.as_str());
            },
            None => {
                self.write_quoted(c.name.as_str());
            },
        }
        self.write_alias(&c.alias);
        Ok(())
    }

    /// Writes a tuple.
    #[verifier::spinoff_prover]
    pub fn visit_row(&mut self, row: &Row) -> (r: Result<(), Fault>)
        requires
            old(self).wf(),
        ensures
            final(self).follows(*old(self), r, render_row(old(self).dialect, row@)),
        decreases row,
    {
        proof {
            reveal(render_row);
        }
        self.write("(");
        self.visit_expressions(&row.values, ",")?;
        self.write(")");
        Ok(())
    }

    /// Writes what opens an in-memory table of values.
    #[verifier::spinoff_prover]
    pub fn write_values_open(&mut self)
        requires
            old(self).wf(),
        ensures
            final(self).follows(
                *old(self),
                Ok(()),
                text(values_open(old(self).dialect)),
            ),
    {
        match self.dialect {
            Dialect::Sqlite => self.write("(VALUES "),
            _ => self.write("("),
        }
    }

    /// Writes an in-memory table of rows.
    #[verifier::spinoff_prover]
    pub fn visit_values(&mut self, v: &Values) -> (r: Result<(), Fault>)
        requires
            old(self).wf(),
        ensures
            final(self).follows(*old(self), r, render_values(old(self).dialect, v@)),
        decreases v,
    {
        proof {
            reveal(render_values);
        }
        self.write_values_open();
        self.visit_rows(&v.rows, ",")?;
        self.write(")");
        Ok(())
    }

    /// Writes a select or a union.
    #[verifier::spinoff_prover]
    pub fn visit_selection(&mut self, s: &SelectQuery) -> (r: Result<(), Fault>)
        requires
            old(self).wf(),
        ensures
            final(self).follows(*old(self), r, render_selection(old(self).dialect, s@)),
        decreases s,
    {
        proof {
            reveal(render_selection);
        }
        match s {
            SelectQuery::Select(select) => self.visit_select(select),
            SelectQuery::Union(union) => self.visit_union(union),
        }
    }

    /// Writes an expression, with its alias.
    #[verifier::spinoff_prover]
    pub fn visit_expression(&mut self, e: &Expression) -> (r: Result<(), Fault>)
        requires
            old(self).wf(),
        ensures
            final(self).follows(*old(self), r, render_expression(old(self).dialect, e@)),
        decreases e, 0nat,
    {
        proof {
            reveal(render_expression);
        }
        match &e.kind {
            ExpressionKind::Parameterized(v) => {
                self.visit_parameterized(v.duplicate());
            },
            ExpressionKind::RawValue(raw) => {
                self.visit_raw_value(&raw.value)?;
            },
            ExpressionKind::Column(c) => {
                self.visit_column(c)?;
            },
            ExpressionKind::Row(row) => {
                self.visit_row(row)?;
            },
            ExpressionKind::Selection(s) => {
                self.write("(");
                self.visit_selection(s)?;
                self.write(")");
            },
            ExpressionKind::Function(f) => {
                self.visit_function(f)?;
            },
            ExpressionKind::Asterisk(t) => match t {
                Some(t) => {
                    self.visit_table(t, false)?;
                    self.write(".*");
                },
                None => {
                    self.write("*");
                },
            },
            ExpressionKind::Op(left, op, right) => {
                self.write("(");
                self.visit_expression(left)?;
                self.write(operator_str(*op));
                self.visit_expression(right)?;
                self.write(")");
            },
            ExpressionKind::Values(v) => {
                self.visit_values(v)?;
            },
            ExpressionKind::ConditionTree(t) => {
                self.visit_conditions(t)?;
            },
            ExpressionKind::Compare(c) => {
                self.visit_compare(c)?;
            },
            ExpressionKind::Value(inner) => {
                self.visit_expression(inner)?;
            },
            ExpressionKind::Default => {
                self.write("DEFAULT");
            },
        }
        self.write_alias(&e.alias);
        Ok(())
    }

    /// Writes a condition tree. Every `AND`, `OR` and `NOT` stands in
    /// parentheses.
    #[verifier::spinoff_prover]
    pub fn visit_conditions(&mut self, t: &ConditionTree) -> (r: Result<(), Fault>)
        requires
            old(self).wf(),
        ensures
            final(self).follows(*old(self), r, render_conditions(old(self).dialect, t@)),
        decreases t,
    {
        proof {
            reveal(render_conditions);
        }
        match t {
            ConditionTree::And(es) => {
                self.write("(");
                self.visit_expressions(es, " AND ")?;
                self.write(")");
            },
            ConditionTree::Or(es) => {
                self.write("(");
                self.visit_expressions(es, " OR ")?;
                self.write(")");
            },
            ConditionTree::Not(e) => {
                self.write("(");
                self.write("NOT ");
                self.visit_expression(e)?;
                self.write(")");
            },
            ConditionTree::Single(e) => {
                self.visit_expression(e)?;
            },
            ConditionTree::NoCondition => {
                self.write("1=1");
            },
            ConditionTree::NegativeCondition => {
                self.write("1=0");
            },
        }
        Ok(())
    }

    /// Writes the pairs of one row of a tuple comparison without row
    /// constructors.
    #[verifier::spinoff_prover]
    fn visit_tuple_pairs(&mut self, left: &Row, right: &Row, Ghost(parent): Ghost<Compare>) -> (r: Result<(), Fault>)
        requires
            old(self).wf(),
            decreases_to!(parent => left),
            decreases_to!(parent => right),
        ensures
            final(self).follows(
                *old(self),
                r,
                concat(
                    tuple_pairs(
                        render_expressions(old(self).dialect, left@.values),
                        render_expressions(old(self).dialect, right@.values),
                    ),
                ),
            ),
        decreases parent, 0nat,
    {
        let ghost d = self.dialect;
        let ghost lefts = render_expressions(d, left@.values);
        let ghost rights = render_expressions(d, right@.values);
        let ghost items = tuple_pairs(lefts, rights);
        let n: usize = if left.values.len() <= right.values.len() {
            left.values.len()
        } else {
            right.values.len()
        };
        let mut j: usize = 0;
        while j < n
            invariant
                j <= n,
                n <= left.values.len(),
                n <= right.values.len(),
                n == pairs(lefts, rights),
                d == old(self).dialect,
                lefts == render_expressions(d, left@.values),
                rights == render_expressions(d, right@.values),
                items == tuple_pairs(lefts, rights),
                items.len() == n,
                decreases_to!(parent => left),
                decreases_to!(parent => right),
                self.follows(*old(self), Ok(()), concat(items.take(j as int))),
            decreases n - j,
        {
            proof {
                axiom_vec_index_decreases(left.values, j as int);
                axiom_vec_index_decreases(right.values, j as int);
                lemma_concat_take(items, j as int, old(self).trace@);
            }
            match self.visit_expression(&left.values[j]) {
                Ok(()) => {},
                Err(f) => {
                    proof {
                        lemma_concat_fails(items, j as int + 1, old(self).trace@);
                    }
                    return Err(f);
                },
            }
            self.write(" = ");
            match self.visit_expression(&right.values[j]) {
                Ok(()) => {},
                Err(f) => {
                    proof {
                        lemma_concat_fails(items, j as int + 1, old(self).trace@);
                    }
                    return Err(f);
                },
            }
            if j + 1 < left.values.len() {
                self.write(" AND ");
            }
            j += 1;
        }
        proof {
            assert(items.take(n as int) =~= items);
        }
        Ok(())
    }

    /// Writes an equality or inequality.
    #[verifier::spinoff_prover]
    pub fn visit_equality(&mut self, c: &Compare, negated: bool) -> (r: Result<(), Fault>)
        requires
            old(self).wf(),
            c is Binary,
        ensures
            final(self).follows(*old(self), r, render_equality(old(self).dialect, c@, negated)),
        decreases c, 1nat,
    {
        proof {
            reveal(tuple_expansion);
            reveal(render_equality);
        }
        let d = self.dialect;
        match c {
            Compare::Binary(left, _, right) => {
                let expand = !d.supports_row_comparison();
                match (&left.kind, &right.kind) {
                    (ExpressionKind::Row(lr), ExpressionKind::Row(rr)) if expand => {
                        let ghost lefts = render_expressions(d, lr@.values);
                        let ghost rows = seq![render_expressions(d, rr@.values)];
                        let ghost groups = tuple_groups(lefts, rows);
                        if negated {
                            self.write("NOT ");
                        }
                        self.write("(");
                        let ghost start = self.trace@;
                        proof {
                            lemma_concat_take(groups, 0, start);
                            assert(groups.take(1) =~= groups);
                        }
                        self.write("(");
                        self.visit_tuple_pairs(lr, rr, Ghost(*c))?;
                        self.write(")");
                        self.write(")");
                        Ok(())
                    },
                    _ => {
                        self.visit_expression(left)?;
                        self.write(cast_str(d, right));
                        if negated {
                            self.write(" <> ");
                        } else {
                            self.write(" = ");
                        }
                        self.visit_expression(right)?;
                        self.write(cast_str(d, left));
                        Ok(())
                    },
                }
            },
            _ => Ok(()),
        }
    }

    /// Writes the rows of a tuple comparison without row constructors.
    #[verifier::spinoff_prover]
    fn visit_tuple_groups(&mut self, left: &Row, rows: &Vec<Row>, Ghost(parent): Ghost<Compare>) -> (r: Result<(), Fault>)
        requires
            old(self).wf(),
            decreases_to!(parent => left),
            decreases_to!(parent => rows),
        ensures
            final(self).follows(
                *old(self),
                r,
                concat(
                    tuple_groups(
                        render_expressions(old(self).dialect, left@.values),
                        render_row_items(old(self).dialect, row_views(rows@)),
                    ),
                ),
            ),
        decreases parent, 1nat,
    {
        let ghost d = self.dialect;
        let ghost lefts = render_expressions(d, left@.values);
        let ghost rights = render_row_items(d, row_views(rows@));
        let ghost items = tuple_groups(lefts, rights);
        let mut i: usize = 0;
        while i < rows.len()
            invariant
                i <= rows.len(),
                d == old(self).dialect,
                lefts == render_expressions(d, left@.values),
                rights == render_row_items(d, row_views(rows@)),
                items == tuple_groups(lefts, rights),
                items.len() == rows.len(),
                decreases_to!(parent => left),
                decreases_to!(parent => rows),
                self.follows(*old(self), Ok(()), concat(items.take(i as int))),
            decreases rows.len() - i,
        {
            proof {
                axiom_vec_index_decreases(*rows, i as int);
                lemma_concat_take(items, i as int, old(self).trace@);
            }
            self.write("(");
            match self.visit_tuple_pairs(left, &rows[i], Ghost(parent)) {
                Ok(()) => {},
                Err(f) => {
                    proof {
                        lemma_concat_fails(items, i as int + 1, old(self).trace@);
                    }
                    return Err(f);
                },
            }
            self.write(")");
            if i + 1 < rows.len() {
                self.write(" OR ");
            }
            i += 1;
        }
        proof {
            assert(items.take(rows.len() as int) =~= items);
        }
        Ok(())
    }

    /// Writes ` IN ` or ` NOT IN `.
    #[verifier::spinoff_prover]
    pub fn write_in(&mut self, negated: bool)
        requires
            old(self).wf(),
        ensures
            final(self).follows(
                *old(self),
                Ok(()),
                text(if negated { " NOT IN "@ } else { " IN "@ }),
            ),
    {
        if negated {
            self.write(" NOT IN ");
        } else {
            self.write(" IN ");
        }
    }

    /// Writes a tuple tested for membership in rows.
    #[verifier::spinoff_prover]
    pub fn visit_tuple_membership(&mut self, c: &Compare, negated: bool) -> (r: Result<(), Fault>)
        requires
            old(self).wf(),
            c is Binary,
        ensures
            final(self).follows(
                *old(self),
                r,
                render_tuple_membership(old(self).dialect, c@, negated),
            ),
        decreases c, 2nat,
    {
        proof {
            reveal(render_tuple_membership);
            reveal(tuple_expansion);
            reveal(tuple_comparison);
        }
        let d = self.dialect;
        match c {
            Compare::Binary(left, _, right) => {
                assert(c@ matches CompareView::Binary(l, _, r) && *l == left@ && *r == right@);
                assert(left@.kind == left.kind@);
                assert(right@.kind == right.kind@);
                match (&left.kind, &right.kind) {
                    (ExpressionKind::Row(cols), ExpressionKind::Values(vals)) => {
                        assert(left.kind@ == ExpressionKindView::Row(cols@));
                        assert(right.kind@ == ExpressionKindView::Values(Box::new(vals@)));
                        assert(cols@.values == expression_views(cols.values@));
                        assert(vals@.rows == row_views(vals.rows@));
                        if cols.values.len() == 1 && vals.row_len() == 1 && rows_have_items(vals) {
                            assert forall|j: int| 0 <= j < vals.rows@.len() implies (
                            #[trigger] vals.rows@[j]).values@.len() > 0 by {
                                assert(vals@.rows[j].values.len() > 0);
                            }
                            assert(cols@.values[0] == cols.values@[0]@);
                            self.visit_expression(&cols.values[0])?;
                            self.write_in(negated);
                            self.write("(");
                            self.visit_last_items(&vals.rows)?;
                            self.write(")");
                            Ok(())
                        } else if d.supports_row_comparison() {
                            self.write("(");
                            self.visit_expressions(&cols.values, ",")?;
                            self.write(")");
                            self.write_in(negated);
                            self.write_values_open();
                            self.visit_rows(&vals.rows, ",")?;
                            self.write(")");
                            Ok(())
                        } else {
                            if negated {
                                self.write("NOT ");
                            }
                            self.write("(");
                            self.visit_tuple_groups(cols, &vals.rows, Ghost(*c))?;
                            self.write(")");
                            Ok(())
                        }
                    },
                    _ => Ok(()),
                }
            },
            _ => Ok(()),
        }
    }

    /// Writes a membership test.
    #[verifier::spinoff_prover]
    pub fn visit_membership(&mut self, c: &Compare, negated: bool) -> (r: Result<(), Fault>)
        requires
            old(self).wf(),
            c is Binary,
        ensures
            final(self).follows(*old(self), r, render_membership(old(self).dialect, c@, negated)),
        decreases c, 3nat,
    {
        proof {
            reveal(render_membership);
        }
        match c {
            Compare::Binary(left, _, right) => {
                assert(c@ matches CompareView::Binary(l, _, r) && *l == left@ && *r == right@);
                assert(left@.kind == left.kind@);
                assert(right@.kind == right.kind@);
                let empty = match &right.kind {
                    ExpressionKind::Row(row) => {
                        assert(row@.values.len() == row.values@.len());
                        row.values.len() == 0
                    },
                    _ => false,
                };
                let tuples = match (&left.kind, &right.kind) {
                    (ExpressionKind::Row(_), ExpressionKind::Values(_)) => true,
                    _ => false,
                };
                if empty {
                    if negated {
                        self.write("1=1");
                    } else {
                        self.write("1=0");
                    }
                    Ok(())
                } else if tuples {
                    self.visit_tuple_membership(c, negated)
                } else {
                    self.visit_expression(left)?;
                    self.write_in(negated);
                    match &right.kind {
                        ExpressionKind::Parameterized(v) => {
                            self.write("(");
                            self.visit_parameterized(v.duplicate());
                            self.write(")");
                        },
                        _ => {
                            self.visit_expression(right)?;
                        },
                    }
                    Ok(())
                }
            },
            _ => Ok(()),
        }
    }

    /// Writes a comparison.
    #[verifier::spinoff_prover]
    pub fn visit_compare(&mut self, c: &Compare) -> (r: Result<(), Fault>)
        requires
            old(self).wf(),
        ensures
            final(self).follows(*old(self), r, render_compare(old(self).dialect, c@)),
        decreases c, 4nat,
    {
        proof {
            reveal(render_compare);
        }
        let d = self.dialect;
        match c {
            Compare::Binary(left, op, right) => {
                if !d.supports_row_comparison() && has_a_whole_row(c) {
                    return Err(Fault::RowComparison);
                }
                match op {
                    Comparison::Equals => self.visit_equality(c, false),
                    Comparison::NotEquals => self.visit_equality(c, true),
                    Comparison::In => self.visit_membership(c, false),
                    Comparison::NotIn => self.visit_membership(c, true),
                    _ => {
                        self.visit_expression(left)?;
                        self.write(comparison_str(*op));
                        self.visit_expression(right)?;
                        Ok(())
                    },
                }
            },
            Compare::Pattern(left, p, s) => {
                self.visit_expression(left)?;
                self.write(pattern_keyword_str(*p));
                let pattern = pattern_string(d, *p, s.as_str());
                self.visit_parameterized(Value::Text(Some(pattern)));
                Ok(())
            },
            Compare::Null(e) => {
                self.visit_expression(e)?;
                self.write(" IS NULL");
                Ok(())
            },
            Compare::NotNull(e) => {
                self.visit_expression(e)?;
                self.write(" IS NOT NULL");
                Ok(())
            },
            Compare::Between(v, low, high) => {
                self.visit_expression(v)?;
                self.write(" BETWEEN ");
                self.visit_expression(low)?;
                self.write(" AND ");
                self.visit_expression(high)?;
                Ok(())
            },
            Compare::NotBetween(v, low, high) => {
                self.visit_expression(v)?;
                self.write(" NOT BETWEEN ");
                self.visit_expression(low)?;
                self.write(" AND ");
                self.visit_expression(high)?;
                Ok(())
            },
            Compare::Raw(left, comparator, right) => {
                self.visit_expression(left)?;
                self.write(" ");
                self.write(comparator.as_str());
                self.write(" ");
                self.visit_expression(right)?;
                Ok(())
            },
            Compare::JsonArray(left, test, negated, right) => match d {
                Dialect::Postgres => {
                    if *negated {
                        self.write("( NOT ");
                    }
                    self.visit_expression(left)?;
                    match test {
                        JsonArrayTest::Contains => self.write(" @> "),
                        JsonArrayTest::BeginsWith => self.write("->0 = "),
                        JsonArrayTest::EndsInto => self.write("->-1 = "),
                    }
                    self.visit_expression(right)?;
                    if *negated {
                        self.write(" )");
                    }
                    Ok(())
                },
                Dialect::Mysql => {
                    if *negated {
                        self.write("( NOT ");
                    }
                    match test {
                        JsonArrayTest::Contains => self.write("JSON_CONTAINS("),
                        _ => self.write("JSON_EXTRACT("),
                    }
                    self.visit_expression(left)?;
                    match test {
                        JsonArrayTest::Contains => {
                            self.write(", ");
                        },
                        JsonArrayTest::BeginsWith => {
                            self.write(", ");
                            self.visit_parameterized(Value::text("$[0]"));
                            self.write(") = ");
                        },
                        JsonArrayTest::EndsInto => {
                            self.write(", ");
                            self.visit_parameterized(Value::text("$[last]"));
                            self.write(") = ");
                        },
                    }
                    self.visit_expression(right)?;
                    match test {
                        JsonArrayTest::Contains => {
                            self.write(")");
                        },
                        _ => {},
                    }
                    if *negated {
                        self.write(" )");
                    }
                    Ok(())
                },
                _ => Err(Fault::JsonFiltering),
            },
            Compare::JsonType(left, t) => match d {
                Dialect::Postgres => {
                    self.write("JSONB_TYPEOF");
                    self.write("(");
                    self.visit_expression(left)?;
                    self.write(")");
                    self.write(" = ");
                    self.visit_parameterized(Value::text(json_type_str(*t)));
                    Ok(())
                },
                Dialect::Mysql => {
                    self.write("JSON_TYPE");
                    self.write("(");
                    self.visit_expression(left)?;
                    self.write(")");
                    match t {
                        JsonType::Number => {
                            self.write(" IN (");
                            self.visit_parameterized(Value::text("INTEGER"));
                            self.write(", ");
                            self.visit_parameterized(Value::text("DOUBLE"));
                            self.write(")");
                        },
                        _ => {
                            self.write(" = ");
                            self.visit_parameterized(Value::text(json_type_mysql_str(*t)));
                        },
                    }
                    Ok(())
                },
                _ => Err(Fault::JsonTypeTest),
            },
            Compare::Matches(left, query, negated) => match d {
                Dialect::Postgres => {
                    if *negated {
                        self.write("(NOT ");
                    }
                    self.visit_expression(left)?;
                    self.write(" @@ ");
                    self.write("to_tsquery(");
                    self.visit_parameterized(Value::text(query.as_str()));
                    self.write(")");
                    if *negated {
                        self.write(")");
                    }
                    Ok(())
                },
                _ => Err(Fault::FullTextSearch),
            },
        }
    }

    /// Writes the window of a window function.
    #[verifier::spinoff_prover]
    pub fn visit_partitioning(&mut self, over: &Over) -> (r: Result<(), Fault>)
        requires
            old(self).wf(),
        ensures
            final(self).follows(*old(self), r, render_partitioning(old(self).dialect, over@)),
        decreases over,
    {
        proof {
            reveal(render_partitioning);
        }
        if over.partitioning.len() > 0 {
            self.write("PARTITION BY ");
            self.visit_columns(&over.partitioning, ", ")?;
            if over.ordering.len() > 0 {
                self.write(" ");
            }
        }
        if over.ordering.len() > 0 {
            self.write("ORDER BY ");
            self.visit_ordering(&over.ordering)?;
        }
        Ok(())
    }

    /// Writes the extraction of a part of a JSON document.
    #[verifier::spinoff_prover]
    pub fn visit_json_extract(&mut self, j: &JsonExtract) -> (r: Result<(), Fault>)
        requires
            old(self).wf(),
        ensures
            final(self).follows(*old(self), r, render_json_extract(old(self).dialect, j@)),
        decreases j,
    {
        proof {
            reveal(render_json_extract);
        }
        match self.dialect {
            Dialect::Postgres => match &j.path {
                JsonPath::Array(keys) => {
                    self.write("(");
                    self.visit_expression(&j.column)?;
                    if j.extract_as_string {
                        self.write("#>>");
                    } else {
                        self.write("#>");
                    }
                    self.write("ARRAY[");
                    self.write_text_params(keys);
                    self.write("]::text[]");
                    self.write(")");
                    Ok(())
                },
                JsonPath::String(_) => Err(Fault::JsonPathNotation),
            },
            Dialect::Mysql => match &j.path {
                JsonPath::String(path) => {
                    if j.extract_as_string {
                        self.write("JSON_UNQUOTE(");
                    }
                    self.write("JSON_EXTRACT(");
                    self.visit_expression(&j.column)?;
                    self.write(", ");
                    self.visit_parameterized(Value::text(path.as_str()));
                    self.write(")");
                    if j.extract_as_string {
                        self.write(")");
                    }
                    Ok(())
                },
                JsonPath::Array(_) => Err(Fault::JsonPathNotation),
            },
            _ => Err(Fault::JsonFiltering),
        }
    }

    /// Writes the vector of a full-text search.
    #[verifier::spinoff_prover]
    pub fn visit_text_search(&mut self, t: &TextSearch) -> (r: Result<(), Fault>)
        requires
            old(self).wf(),
        ensures
            final(self).follows(*old(self), r, render_text_search(old(self).dialect, t@)),
        decreases t,
    {
        proof {
            reveal(render_text_search);
        }
        match self.dialect {
            Dialect::Postgres => {
                self.write("to_tsvector(");
                self.visit_columns(&t.columns, "|| ' ' ||")?;
                self.write(")");
                Ok(())
            },
            _ => Err(Fault::FullTextSearch),
        }
    }

    /// Writes `name(expression)`.
    #[verifier::spinoff_prover]
    pub fn visit_call(&mut self, name: &str, e: &Expression) -> (r: Result<(), Fault>)
        requires
            old(self).wf(),
        ensures
            final(self).follows(
                *old(self),
                r,
                then(
                    text(name@),
                    surround(
                        "("@,
                        render_expression(old(self).dialect, e@),
                        ")"@,
                    ),
                ),
            ),
        decreases e, 1nat,
    {
        self.write(name);
        self.write("(");
        self.visit_expression(e)?;
        self.write(")");
        Ok(())
    }

    /// Writes `name(column)`.
    #[verifier::spinoff_prover]
    pub fn visit_column_call(&mut self, name: &str, c: &Column) -> (r: Result<(), Fault>)
        requires
            old(self).wf(),
        ensures
            final(self).follows(
                *old(self),
                r,
                then(
                    text(name@),
                    surround(
                        "("@,
                        render_column(old(self).dialect, c@),
                        ")"@,
                    ),
                ),
            ),
        decreases c, 1nat,
    {
        self.write(name);
        self.write("(");
        self.visit_column(c)?;
        self.write(")");
        Ok(())
    }

    /// Writes a function call, with its alias.
    #[verifier::spinoff_prover]
    pub fn visit_function(&mut self, f: &Function) -> (r: Result<(), Fault>)
        requires
            old(self).wf(),
        ensures
            final(self).follows(*old(self), r, render_function(old(self).dialect, f@)),
        decreases f,
    {
        proof {
            reveal(render_function);
        }
        let d = self.dialect;
        match &f.typ_ {
            FunctionType::RowToJson(row) => match d {
                Dialect::Postgres => {
                    self.write("ROW_TO_JSON");
                    self.write("(");
                    self.visit_table(&row.expr, false)?;
                    self.write(")");
                },
                _ => {
                    return Err(Fault::RowToJson);
                },
            },
            FunctionType::RowNumber(over) => {
                if over.ordering.len() == 0 && over.partitioning.len() == 0 {
                    self.write("ROW_NUMBER() OVER()");
                } else {
                    self.write("ROW_NUMBER() OVER");
                    self.write("(");
                    self.visit_partitioning(over)?;
                    self.write(")");
                }
            },
            FunctionType::Count(es) => {
                if es.len() == 0 {
                    self.write("COUNT(*)");
                } else {
                    self.write("COUNT");
                    self.write("(");
                    self.visit_expressions(es, ", ")?;
                    self.write(")");
                }
            },
            FunctionType::AggregateToString(e) => match d {
                Dialect::Postgres => {
                    self.write("ARRAY_TO_STRING");
                    self.write("(");
                    self.write("ARRAY_AGG");
                    self.write("(");
                    self.visit_expression(e)?;
                    self.write(")");
                    self.write("','");
                    self.write(")");
                },
                Dialect::Mysql => {
                    self.write("GROUP_CONCAT");
                    self.write("(");
                    self.visit_expression(e)?;
                    self.write(" SEPARATOR ','");
                    self.write(")");
                },
                Dialect::Sqlite => {
                    self.write("GROUP_CONCAT");
                    self.write("(");
                    self.visit_expression(e)?;
                    self.write(")");
                },
                Dialect::Mssql => {
                    self.write("STRING_AGG");
                    self.write("(");
                    self.visit_expression(e)?;
                    self.write(",");
                    self.write("\",\"");
                    self.write(")");
                },
            },
            FunctionType::Average(c) => match d {
                Dialect::Mssql => {
                    self.write("AVG");
                    self.write("(");
                    self.write("CONVERT");
                    self.write("(");
                    self.write("DECIMAL(32,16),");
                    self.visit_column(c)?;
                    self.write(")");
                    self.write(")");
                },
                _ => {
                    self.visit_column_call("AVG", c)?;
                },
            },
            FunctionType::Sum(e) => {
                self.visit_call("SUM", e)?;
            },
            FunctionType::Lower(e) => {
                self.visit_call("LOWER", e)?;
            },
            FunctionType::Upper(e) => {
                self.visit_call("UPPER", e)?;
            },
            FunctionType::Minimum(c) => {
                self.visit_column_call("MIN", c)?;
            },
            FunctionType::Maximum(c) => {
                self.visit_column_call("MAX", c)?;
            },
            FunctionType::Coalesce(es) => {
                self.write("COALESCE");
                self.write("(");
                self.visit_expressions(es, ", ")?;
                self.write(")");
            },
            FunctionType::JsonExtract(j) => {
                self.visit_json_extract(j)?;
            },
            FunctionType::TextSearch(t) => {
                self.visit_text_search(t)?;
            },
        }
        self.write_alias(&f.alias);
        Ok(())
    }

    /// Writes a named sub-query of a `WITH` clause.
    #[verifier::spinoff_prover]
    pub fn visit_cte(&mut self, c: &CommonTableExpression) -> (r: Result<(), Fault>)
        requires
            old(self).wf(),
        ensures
            final(self).follows(*old(self), r, render_cte(old(self).dialect, c@)),
        decreases c,
    {
        proof {
            reveal(render_cte);
        }
        self.write_quoted(c.identifier.as_str());
        if c.columns.len() > 0 {
            self.write(" ");
            self.write("(");
            self.write_quoted_names(&c.columns);
            self.write(")");
        }
        self.write(" AS ");
        self.write("(");
        self.visit_selection(&c.selection)?;
        self.write(")");
        Ok(())
    }

    /// Writes ` WHERE ` or ` HAVING ` and the condition, where there is
    /// one.
    #[verifier::spinoff_prover]
    pub fn visit_filter(&mut self, keyword: &str, conditions: &Option<ConditionTree>) -> (r: Result<(), Fault>)
        requires
            old(self).wf(),
        ensures
            final(self).follows(
                *old(self),
                r,
                match *conditions {
                    Some(t) => then(
                        text(keyword@),
                        render_conditions(old(self).dialect, t@),
                    ),
                    None => nothing(),
                },
            ),
        decreases conditions, 1nat,
    {
        match conditions {
            Some(t) => {
                self.write(keyword);
                self.visit_conditions(t)
            },
            None => Ok(()),
        }
    }

    /// Writes a `SELECT` statement.
    #[verifier::spinoff_prover]
    pub fn visit_select(&mut self, s: &Select) -> (r: Result<(), Fault>)
        requires
            old(self).wf(),
        ensures
            final(self).follows(*old(self), r, render_select(old(self).dialect, s@)),
        decreases s,
    {
        proof {
            reveal(render_select);
        }
        self.visit_with_clause(&s.ctes)?;
        self.write("SELECT ");
        if s.distinct {
            self.write("DISTINCT ");
        }
        if s.tables.len() > 0 {
            if s.columns.len() == 0 {
                self.visit_stars(&s.tables);
            } else {
                self.visit_expressions(&s.columns, ", ")?;
            }
            self.write(" FROM ");
            self.visit_tables(&s.tables)?;
            self.visit_joins(&s.joins)?;
            self.visit_filter(" WHERE ", &s.conditions)?;
            if s.grouping.len() > 0 {
                self.write(" GROUP BY ");
                self.visit_expressions(&s.grouping, ", ")?;
            }
            self.visit_filter(" HAVING ", &s.having)?;
            if s.ordering.len() > 0 {
                self.write(" ORDER BY ");
                self.visit_ordering(&s.ordering)?;
            }
            self.visit_limit_and_offset(&s.limit, &s.offset, s.ordering.len() > 0);
        } else if s.columns.len() == 0 {
            self.write(" *");
        } else {
            self.visit_expressions(&s.columns, ", ")?;
        }
        Ok(())
    }

    /// Writes a `UNION` of selects.
    #[verifier::spinoff_prover]
    pub fn visit_union(&mut self, u: &Union) -> (r: Result<(), Fault>)
        requires
            old(self).wf(),
        ensures
            final(self).follows(*old(self), r, render_union(old(self).dialect, u@)),
        decreases u,
    {
        proof {
            reveal(render_union);
        }
        self.visit_with_clause(&u.ctes)?;
        self.visit_united(&u.selects, &u.types)
    }

    /// Writes the assignments of an update.
    #[verifier::spinoff_prover]
    pub fn visit_assignments(&mut self, u: &Update) -> (r: Result<(), Fault>)
        requires
            old(self).wf(),
        ensures
            final(self).follows(
                *old(self),
                r,
                join(render_assignments(old(self).dialect, u@), ", "@),
            ),
        decreases u, 0nat,
    {
        let ghost d = self.dialect;
        let ghost items = render_assignments(d, u@);
        let n: usize = if u.columns.len() <= u.values.len() {
            u.columns.len()
        } else {
            u.values.len()
        };
        let mut i: usize = 0;
        while i < n
            invariant
                i <= n,
                n <= u.columns.len(),
                n <= u.values.len(),
                d == old(self).dialect,
                items == render_assignments(d, u@),
                items.len() == n,
                self.follows(*old(self), Ok(()), join(items.take(i as int), ", "@)),
            decreases n - i,
        {
            proof {
                axiom_vec_index_decreases(u.columns, i as int);
                axiom_vec_index_decreases(u.values, i as int);
                lemma_join_take(items, ", "@, i as int, old(self).trace@);
            }
            if i > 0 {
                self.write(", ");
            }
            match self.visit_column(&u.columns[i]) {
                Ok(()) => {},
                Err(f) => {
                    proof {
                        lemma_join_fails(items, ", "@, i as int + 1, old(self).trace@);
                    }
                    return Err(f);
                },
            }
            self.write(" = ");
            match self.visit_expression(&u.values[i]) {
                Ok(()) => {},
                Err(f) => {
                    proof {
                        lemma_join_fails(items, ", "@, i as int + 1, old(self).trace@);
                    }
                    return Err(f);
                },
            }
            i += 1;
        }
        proof {
            assert(items.take(n as int) =~= items);
        }
        Ok(())
    }

    /// Writes an `UPDATE` statement.
    #[verifier::spinoff_prover]
    pub fn visit_update(&mut self, u: &Update) -> (r: Result<(), Fault>)
        requires
            old(self).wf(),
        ensures
            final(self).follows(*old(self), r, render_update(old(self).dialect, u@)),
        decreases u, 1nat,
    {
        proof {
            reveal(render_update);
        }
        self.write("UPDATE ");
        self.visit_table(&u.table, true)?;
        self.write(" SET ");
        self.visit_assignments(u)?;
        self.visit_filter(" WHERE ", &u.conditions)
    }

    /// Writes a `DELETE` statement.
    #[verifier::spinoff_prover]
    pub fn visit_delete(&mut self, q: &Delete) -> (r: Result<(), Fault>)
        requires
            old(self).wf(),
        ensures
            final(self).follows(*old(self), r, render_delete(old(self).dialect, q@)),
        decreases q,
    {
        proof {
            reveal(render_delete);
        }
        self.write("DELETE FROM ");
        self.visit_table(&q.table, true)?;
        self.visit_filter(" WHERE ", &q.conditions)
    }

    /// Writes the declaration of the SQL Server table variable that
    /// receives the returned columns.
    #[verifier::spinoff_prover]
    pub fn write_generated_keys_declaration(&mut self, cs: &Vec<Column>)
        requires
            old(self).wf(),
        ensures
            final(self).follows(
                *old(self),
                Ok(()),
                generated_keys_declaration(old(self).dialect, column_views(cs@)),
            ),
    {
        proof {
            reveal(generated_keys_declaration);
        }
        self.write("DECLARE ");
        self.write("@generated_keys");
        self.write(" table");
        self.write("(");
        self.write_key_columns(cs);
        self.write(")");
    }

    /// Writes the SQL Server `OUTPUT` clause that fills the table
    /// variable.
    #[verifier::spinoff_prover]
    pub fn write_output_clause(&mut self, cs: &Vec<Column>)
        requires
            old(self).wf(),
        ensures
            final(self).follows(*old(self), Ok(()), output_clause(old(self).dialect, column_views(cs@))),
    {
        proof {
            reveal(output_clause);
        }
        self.write(" OUTPUT ");
        self.write_qualified_columns(cs, "Inserted");
        self.write(" INTO ");
        self.write("@generated_keys");
    }

    /// Writes the predicate that joins the table variable back to the
    /// target.
    #[verifier::spinoff_prover]
    pub fn write_generated_keys_condition(&mut self, cs: &Vec<Column>)
        requires
            old(self).wf(),
        ensures
            final(self).follows(
                *old(self),
                Ok(()),
                generated_keys_condition(old(self).dialect, column_views(cs@)),
            ),
    {
        proof {
            reveal(generated_keys_condition);
        }
        if cs.len() == 0 {
            self.write("1=1");
        } else if cs.len() == 1 {
            self.write_key_pair(&cs[0]);
        } else {
            self.write("(");
            self.write_key_pairs(cs);
            self.write(")");
        }
    }

    /// Writes the select that reads the final values of the returned
    /// columns.
    #[verifier::spinoff_prover]
    pub fn visit_generated_keys_select(&mut self, cs: &Vec<Column>, target: &Table) -> (r: Result<(), Fault>)
        requires
            old(self).wf(),
        ensures
            final(self).follows(
                *old(self),
                r,
                generated_keys_select(
                    old(self).dialect,
                    column_views(cs@),
                    render_table(old(self).dialect, target@, false),
                ),
            ),
        decreases target, 1nat,
    {
        proof {
            reveal(generated_keys_select);
        }
        self.write("SELECT ");
        self.write_qualified_columns(cs, "t");
        self.write(" FROM ");
        self.write("@generated_keys");
        self.write(" AS g");
        self.write(" INNER JOIN ");
        self.visit_table(target, false)?;
        self.write(" AS ");
        self.write_quoted("t");
        self.write(" ON ");
        self.write_generated_keys_condition(cs);
        self.write(" WHERE @@ROWCOUNT > 0");
        Ok(())
    }

    /// Writes the `OUTPUT` clause, where columns are returned.
    #[verifier::spinoff_prover]
    pub fn write_output(&mut self, output: Option<&Vec<Column>>)
        requires
            old(self).wf(),
        ensures
            final(self).follows(
                *old(self),
                Ok(()),
                match output {
                    Some(cs) => output_clause(old(self).dialect, column_views(cs@)),
                    None => nothing(),
                },
            ),
    {
        match output {
            Some(cs) => self.write_output_clause(cs),
            None => {},
        }
    }

    /// Writes the columns of an insert.
    #[verifier::spinoff_prover]
    pub fn visit_insert_columns(&mut self, i: &Insert) -> (r: Result<(), Fault>)
        requires
            old(self).wf(),
        ensures
            final(self).follows(
                *old(self),
                r,
                insert_columns(old(self).dialect, i@),
            ),
        decreases i, 0nat,
    {
        proof {
            reveal(insert_columns);
        }
        match self.dialect {
            Dialect::Mssql => {
                self.write(" ");
                self.write("(");
                self.visit_columns(&i.columns, ",")?;
                self.write(")");
            },
            Dialect::Sqlite => {
                self.write(" (");
                self.visit_columns(&i.columns, ", ")?;
                self.write(")");
            },
            _ => {
                self.write(" (");
                self.visit_columns(&i.columns, ",")?;
                self.write(")");
            },
        }
        Ok(())
    }

    /// Writes the columns and the rows of an insert.
    #[verifier::spinoff_prover]
    pub fn visit_insert_source(&mut self, i: &Insert, output: Option<&Vec<Column>>) -> (r: Result<(), Fault>)
        requires
            old(self).wf(),
        ensures
            final(self).follows(
                *old(self),
                r,
                insert_source(
                    old(self).dialect,
                    i@,
                    match output {
                        Some(cs) => output_clause(old(self).dialect, column_views(cs@)),
                        None => nothing(),
                    },
                ),
            ),
        decreases i, 1nat,
    {
        proof {
            reveal(insert_source);
        }
        let d = self.dialect;
        assert(i@.values == i.values@);
        assert(i.values@.kind == i.values.kind@);
        match &i.values.kind {
            ExpressionKind::Row(row) => {
                assert(row@.values.len() == row.values@.len());
                if row.values.len() == 0 {
                    self.write_output(output);
                    match d {
                        Dialect::Mysql => self.write(" () VALUES ()"),
                        _ => self.write(" DEFAULT VALUES"),
                    }
                } else {
                    self.visit_insert_columns(i)?;
                    self.write_output(output);
                    self.write(" VALUES ");
                    self.visit_row(row)?;
                }
            },
            ExpressionKind::Values(values) => {
                self.visit_insert_columns(i)?;
                self.write_output(output);
                self.write(" VALUES ");
                match d {
                    Dialect::Mssql => self.visit_rows(&values.rows, ",")?,
                    _ => self.visit_rows(&values.rows, ", ")?,
                }
            },
            _ => match d {
                Dialect::Sqlite => {
                    self.visit_expression(&i.values)?;
                },
                _ => {
                    self.write("(");
                    self.visit_expression(&i.values)?;
                    self.write(")");
                },
            },
        }
        Ok(())
    }

    /// Writes the table of an insert after the given keyword, where there
    /// is one.
    #[verifier::spinoff_prover]
    pub fn visit_into(&mut self, keyword: &str, table: &Option<Table>) -> (r: Result<(), Fault>)
        requires
            old(self).wf(),
        ensures
            final(self).follows(
                *old(self),
                r,
                match *table {
                    Some(t) => then(
                        text(keyword@),
                        render_table(old(self).dialect, t@, true),
                    ),
                    None => nothing(),
                },
            ),
        decreases table, 1nat,
    {
        match table {
            Some(t) => {
                self.write(keyword);
                self.visit_table(t, true)
            },
            None => Ok(()),
        }
    }

    /// Writes an `INSERT` statement in PostgreSQL.
    #[verifier::spinoff_prover]
    pub fn visit_insert_postgres(&mut self, i: &Insert) -> (r: Result<(), Fault>)
        requires
            old(self).wf(),
            old(self).dialect == Dialect::Postgres,
        ensures
            final(self).follows(*old(self), r, render_insert_postgres(i@)),
        decreases i, 2nat,
    {
        proof {
            reveal(render_insert_postgres);
        }
        assert(i@.on_conflict == i.on_conflict);
        self.write("INSERT ");
        self.visit_into("INTO ", &i.table)?;
        self.visit_insert_source(i, None)?;
        match i.on_conflict {
            Some(OnConflict::DoNothing) => self.write(" ON CONFLICT DO NOTHING"),
            None => {},
        }
        match &i.returning {
            Some(cs) => {
                assert(i@.returning == Some(column_views(cs@)));
                if cs.len() > 0 {
                    self.write(" RETURNING ");
                    self.visit_columns(cs, ", ")?;
                }
            },
            None => {},
        }
        Ok(())
    }

    /// Writes an `INSERT` statement in MySQL.
    #[verifier::spinoff_prover]
    pub fn visit_insert_mysql(&mut self, i: &Insert) -> (r: Result<(), Fault>)
        requires
            old(self).wf(),
            old(self).dialect == Dialect::Mysql,
        ensures
            final(self).follows(*old(self), r, render_insert_mysql(i@)),
        decreases i, 2nat,
    {
        proof {
            reveal(render_insert_mysql);
        }
        assert(i@.on_conflict == i.on_conflict);
        match i.on_conflict {
            Some(OnConflict::DoNothing) => self.write("INSERT IGNORE "),
            None => self.write("INSERT "),
        }
        self.visit_into("INTO ", &i.table)?;
        self.visit_insert_source(i, None)
    }

    /// Writes an `INSERT` statement in SQLite.
    #[verifier::spinoff_prover]
    pub fn visit_insert_sqlite(&mut self, i: &Insert) -> (r: Result<(), Fault>)
        requires
            old(self).wf(),
            old(self).dialect == Dialect::Sqlite,
        ensures
            final(self).follows(*old(self), r, render_insert_sqlite(i@)),
        decreases i, 2nat,
    {
        proof {
            reveal(render_insert_sqlite);
        }
        assert(i@.on_conflict == i.on_conflict);
        match i.on_conflict {
            Some(OnConflict::DoNothing) => self.write("INSERT OR IGNORE"),
            None => self.write("INSERT"),
        }
        self.visit_into(" INTO ", &i.table)?;
        self.visit_insert_source(i, None)?;
        match &i.returning {
            Some(cs) => {
                assert(i@.returning == Some(column_views(cs@)));
                if cs.len() > 0 {
                    self.write(" RETURNING ");
                    self.write_bare_names(cs);
                }
            },
            None => {},
        }
        Ok(())
    }

    /// Writes an `INSERT` statement in SQL Server.
    #[verifier::spinoff_prover]
    pub fn visit_insert_mssql(&mut self, i: &Insert) -> (r: Result<(), Fault>)
        requires
            old(self).wf(),
            old(self).dialect == Dialect::Mssql,
        ensures
            final(self).follows(*old(self), r, render_insert_mssql(i@)),
        decreases i, 2nat,
    {
        proof {
            reveal(render_insert_mssql);
        }
        match &i.returning {
            Some(cs) => {
                assert(i@.returning == Some(column_views(cs@)));
                self.write_generated_keys_declaration(cs);
                self.write(" ");
                self.write("INSERT");
                self.visit_into(" INTO ", &i.table)?;
                self.visit_insert_source(i, Some(cs))?;
                match &i.table {
                    Some(t) => {
                        assert(i@.table == Some(t@));
                        self.write(" ");
                        self.visit_generated_keys_select(cs, t)
                    },
                    None => Err(Fault::ReturningWithoutTable),
                }
            },
            None => {
                self.write("INSERT");
                self.visit_into(" INTO ", &i.table)?;
                self.visit_insert_source(i, None)
            },
        }
    }

    /// Writes an `INSERT` statement.
    #[verifier::spinoff_prover]
    pub fn visit_insert(&mut self, i: &Insert) -> (r: Result<(), Fault>)
        requires
            old(self).wf(),
        ensures
            final(self).follows(*old(self), r, render_insert(old(self).dialect, i@)),
        decreases i, 3nat,
    {
        proof {
            reveal(render_insert);
        }
        match self.dialect {
            Dialect::Postgres => self.visit_insert_postgres(i),
            Dialect::Mysql => self.visit_insert_mysql(i),
            Dialect::Sqlite => self.visit_insert_sqlite(i),
            Dialect::Mssql => self.visit_insert_mssql(i),
        }
    }

    /// Writes a `MERGE` statement.
    #[verifier::spinoff_prover]
    pub fn visit_merge(&mut self, m: &Merge) -> (r: Result<(), Fault>)
        requires
            old(self).wf(),
        ensures
            final(self).follows(*old(self), r, render_merge(old(self).dialect, m@)),
        decreases m,
    {
        proof {
            reveal(render_merge);
        }
        match &m.returning {
            Some(cs) => {
                self.write_generated_keys_declaration(cs);
                self.write(" ");
            },
            None => {},
        }
        self.write("MERGE INTO ");
        self.visit_table(&m.table, true)?;
        self.write(" USING ");
        self.write("(");
        self.visit_query(&m.using.base_query)?;
        self.write(")");
        self.write(" AS ");
        self.visit_table(&m.using.as_table, false)?;
        self.write(" ");
        self.write("(");
        self.visit_columns(&m.using.columns, ",")?;
        self.write(")");
        self.write(" ON ");
        self.visit_conditions(&m.using.on_conditions)?;
        match &m.when_not_matched {
            Some(q) => {
                self.write(" WHEN NOT MATCHED THEN ");
                self.visit_query(q)?;
            },
            None => {},
        }
        match &m.returning {
            Some(cs) => {
                self.write_output_clause(cs);
                self.write("; ");
                self.visit_generated_keys_select(cs, &m.table)?;
            },
            None => {
                self.write(";");
            },
        }
        Ok(())
    }

    /// Writes a statement, as it stands.
    #[verifier::spinoff_prover]
    pub fn visit_query(&mut self, q: &Query) -> (r: Result<(), Fault>)
        requires
            old(self).wf(),
        ensures
            final(self).follows(*old(self), r, render_query(old(self).dialect, q@)),
        decreases q,
    {
        proof {
            reveal(render_query);
        }
        match q {
            Query::Select(s) => self.visit_select(s),
            Query::Insert(i) => self.visit_insert(i),
            Query::Update(u) => self.visit_update(u),
            Query::Delete(x) => self.visit_delete(x),
            Query::Union(u) => self.visit_union(u),
            Query::Merge(m) => self.visit_merge(m),
            Query::Raw(s) => {
                self.write(s.as_str());
                Ok(())
            },
        }
    }
}

} // verus!

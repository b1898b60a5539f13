//! Copies of nodes: a new node with the same view.

use vstd::prelude::*;
use vstd::std_specs::vec::axiom_vec_index_decreases;
use crate::ast::node::{
    Column,
    CommonTableExpression,
    Compare,
    Comparison,
    ConditionTree,
    DefaultValue,
    Delete,
    Expression,
    ExpressionKind,
    Function,
    FunctionType,
    IndexDefinition,
    Insert,
    Join,
    JoinData,
    JsonArrayTest,
    JsonExtract,
    JsonPath,
    JsonType,
    Merge,
    MultiRowInsert,
    OnConflict,
    Operator,
    Order,
    OrderDefinition,
    Over,
    Pattern,
    Query,
    Row,
    RowToJson,
    Select,
    SelectQuery,
    SingleRowInsert,
    Table,
    TableType,
    TextSearch,
    TypeDataLength,
    TypeFamily,
    Union,
    UnionType,
    Update,
    Using,
    Values,
};
use crate::ast::value::{copy_text, Raw};
use crate::ast::view::{
    column_views,
    common_table_expression_views,
    expression_views,
    index_definition_views,
    join_views,
    order_definition_views,
    row_views,
    select_views,
    string_views,
    table_views,
};

verus! {

broadcast use {vstd::seq::group_seq_axioms, vstd::std_specs::vec::group_vec_axioms};

/// A copy of the vector: new nodes with the same views, in order.
pub fn duplicate_columns(v: &Vec<Column>) -> (r: Vec<Column>)
    ensures
        column_views(r@) == column_views(v@),
    decreases v,
{
    let mut r: Vec<Column> = Vec::new();
    let mut i: usize = 0;
    while i < v.len()
        invariant
            i <= v.len(),
            r@.len() == i,
            forall|j: int| 0 <= j < i ==> (#[trigger] r@[j])@ == v@[j]@,
        decreases v.len() - i,
    {
        proof {
            axiom_vec_index_decreases(*v, i as int);
        }
        let item = v[i].duplicate();
        r.push(item);
        i += 1;
    }
    assert(column_views(r@) =~= column_views(v@));
    r
}

/// A copy of the vector: new nodes with the same views, in order.
pub fn duplicate_common_table_expressions(v: &Vec<CommonTableExpression>) -> (r: Vec<CommonTableExpression>)
    ensures
        common_table_expression_views(r@) == common_table_expression_views(v@),
    decreases v,
{
    let mut r: Vec<CommonTableExpression> = Vec::new();
    let mut i: usize = 0;
    while i < v.len()
        invariant
            i <= v.len(),
            r@.len() == i,
            forall|j: int| 0 <= j < i ==> (#[trigger] r@[j])@ == v@[j]@,
        decreases v.len() - i,
    {
        proof {
            axiom_vec_index_decreases(*v, i as int);
        }
        let item = v[i].duplicate();
        r.push(item);
        i += 1;
    }
    assert(common_table_expression_views(r@) =~= common_table_expression_views(v@));
    r
}

/// A copy of the vector: new nodes with the same views, in order.
pub fn duplicate_expressions(v: &Vec<Expression>) -> (r: Vec<Expression>)
    ensures
        expression_views(r@) == expression_views(v@),
    decreases v,
{
    let mut r: Vec<Expression> = Vec::new();
    let mut i: usize = 0;
    while i < v.len()
        invariant
            i <= v.len(),
            r@.len() == i,
            forall|j: int| 0 <= j < i ==> (#[trigger] r@[j])@ == v@[j]@,
        decreases v.len() - i,
    {
        proof {
            axiom_vec_index_decreases(*v, i as int);
        }
        let item = v[i].duplicate();
        r.push(item);
        i += 1;
    }
    assert(expression_views(r@) =~= expression_views(v@));
    r
}

/// A copy of the vector: new nodes with the same views, in order.
pub fn duplicate_index_definitions(v: &Vec<IndexDefinition>) -> (r: Vec<IndexDefinition>)
    ensures
        index_definition_views(r@) == index_definition_views(v@),
    decreases v,
{
    let mut r: Vec<IndexDefinition> = Vec::new();
    let mut i: usize = 0;
    while i < v.len()
        invariant
            i <= v.len(),
            r@.len() == i,
            forall|j: int| 0 <= j < i ==> (#[trigger] r@[j])@ == v@[j]@,
        decreases v.len() - i,
    {
        proof {
            axiom_vec_index_decreases(*v, i as int);
        }
        let item = v[i].duplicate();
        r.push(item);
        i += 1;
    }
    assert(index_definition_views(r@) =~= index_definition_views(v@));
    r
}

/// A copy of the vector: new nodes with the same views, in order.
pub fn duplicate_joins(v: &Vec<Join>) -> (r: Vec<Join>)
    ensures
        join_views(r@) == join_views(v@),
    decreases v,
{
    let mut r: Vec<Join> = Vec::new();
    let mut i: usize = 0;
    while i < v.len()
        invariant
            i <= v.len(),
            r@.len() == i,
            forall|j: int| 0 <= j < i ==> (#[trigger] r@[j])@ == v@[j]@,
        decreases v.len() - i,
    {
        proof {
            axiom_vec_index_decreases(*v, i as int);
        }
        let item = v[i].duplicate();
        r.push(item);
        i += 1;
    }
    assert(join_views(r@) =~= join_views(v@));
    r
}

/// A copy of the vector: new nodes with the same views, in order.
pub fn duplicate_order_definitions(v: &Vec<OrderDefinition>) -> (r: Vec<OrderDefinition>)
    ensures
        order_definition_views(r@) == order_definition_views(v@),
    decreases v,
{
    let mut r: Vec<OrderDefinition> = Vec::new();
    let mut i: usize = 0;
    while i < v.len()
        invariant
            i <= v.len(),
            r@.len() == i,
            forall|j: int| 0 <= j < i ==> (#[trigger] r@[j])@ == v@[j]@,
        decreases v.len() - i,
    {
        proof {
            axiom_vec_index_decreases(*v, i as int);
        }
        let item = v[i].duplicate();
        r.push(item);
        i += 1;
    }
    assert(order_definition_views(r@) =~= order_definition_views(v@));
    r
}

/// A copy of the vector: new nodes with the same views, in order.
pub fn duplicate_rows(v: &Vec<Row>) -> (r: Vec<Row>)
    ensures
        row_views(r@) == row_views(v@),
    decreases v,
{
    let mut r: Vec<Row> = Vec::new();
    let mut i: usize = 0;
    while i < v.len()
        invariant
            i <= v.len(),
            r@.len() == i,
            forall|j: int| 0 <= j < i ==> (#[trigger] r@[j])@ == v@[j]@,
        decreases v.len() - i,
    {
        proof {
            axiom_vec_index_decreases(*v, i as int);
        }
        let item = v[i].duplicate();
        r.push(item);
        i += 1;
    }
    assert(row_views(r@) =~= row_views(v@));
    r
}

/// A copy of the vector: new nodes with the same views, in order.
pub fn duplicate_selects(v: &Vec<Select>) -> (r: Vec<Select>)
    ensures
        select_views(r@) == select_views(v@),
    decreases v,
{
    let mut r: Vec<Select> = Vec::new();
    let mut i: usize = 0;
    while i < v.len()
        invariant
            i <= v.len(),
            r@.len() == i,
            forall|j: int| 0 <= j < i ==> (#[trigger] r@[j])@ == v@[j]@,
        decreases v.len() - i,
    {
        proof {
            axiom_vec_index_decreases(*v, i as int);
        }
        let item = v[i].duplicate();
        r.push(item);
        i += 1;
    }
    assert(select_views(r@) =~= select_views(v@));
    r
}

/// A copy of the vector: new nodes with the same views, in order.
pub fn duplicate_strings(v: &Vec<String>) -> (r: Vec<String>)
    ensures
        string_views(r@) == string_views(v@),
{
    let mut r: Vec<String> = Vec::new();
    let mut i: usize = 0;
    while i < v.len()
        invariant
            i <= v.len(),
            r@.len() == i,
            forall|j: int| 0 <= j < i ==> (#[trigger] r@[j])@ == v@[j]@,
        decreases v.len() - i,
    {
        let item = v[i].clone();
        r.push(item);
        i += 1;
    }
    assert(string_views(r@) =~= string_views(v@));
    r
}

/// A copy of the vector: new nodes with the same views, in order.
pub fn duplicate_tables(v: &Vec<Table>) -> (r: Vec<Table>)
    ensures
        table_views(r@) == table_views(v@),
    decreases v,
{
    let mut r: Vec<Table> = Vec::new();
    let mut i: usize = 0;
    while i < v.len()
        invariant
            i <= v.len(),
            r@.len() == i,
            forall|j: int| 0 <= j < i ==> (#[trigger] r@[j])@ == v@[j]@,
        decreases v.len() - i,
    {
        proof {
            axiom_vec_index_decreases(*v, i as int);
        }
        let item = v[i].duplicate();
        r.push(item);
        i += 1;
    }
    assert(table_views(r@) =~= table_views(v@));
    r
}

/// A copy of the vector.
pub fn duplicate_union_types(v: &Vec<UnionType>) -> (r: Vec<UnionType>)
    ensures
        r@ == v@,
{
    let mut r: Vec<UnionType> = Vec::new();
    let mut i: usize = 0;
    while i < v.len()
        invariant
            i <= v.len(),
            r@ == v@.take(i as int),
        decreases v.len() - i,
    {
        r.push(v[i]);
        assert(r@ =~= v@.take(i as int + 1));
        i += 1;
    }
    assert(v@.take(v.len() as int) =~= v@);
    r
}

impl DefaultValue {
    /// A copy of the node.
    pub fn duplicate(&self) -> (r: DefaultValue)
        ensures
            r@ == self@,
        decreases self,
    {
        match self {
            DefaultValue::Provided(a0) => DefaultValue::Provided(
                a0.duplicate(),
            ),
            DefaultValue::Generated => DefaultValue::Generated,
        }
    }
}

impl Column {
    /// A copy of the node.
    pub fn duplicate(&self) -> (r: Column)
        ensures
            r@ == self@,
        decreases self,
    {
        Column {
            name: self.name.clone(),
            table: match &self.table {
                Some(x) => Some(x.duplicate()),
                None => None,
            },
            alias: copy_text(&self.alias),
            default: match &self.default {
                Some(x) => Some(x.duplicate()),
                None => None,
            },
            type_family: self.type_family,
        }
    }
}

impl IndexDefinition {
    /// A copy of the node.
    pub fn duplicate(&self) -> (r: IndexDefinition)
        ensures
            r@ == self@,
        decreases self,
    {
        match self {
            IndexDefinition::Single(a0) => IndexDefinition::Single(
                Box::new(a0.duplicate()),
            ),
            IndexDefinition::Compound(a0) => IndexDefinition::Compound(
                duplicate_columns(a0),
            ),
        }
    }
}

impl TableType {
    /// A copy of the node.
    pub fn duplicate(&self) -> (r: TableType)
        ensures
            r@ == self@,
        decreases self,
    {
        match self {
            TableType::Table(a0) => TableType::Table(
                a0.clone(),
            ),
            TableType::JoinedTable(a0, a1) => TableType::JoinedTable(
                a0.clone(),
                duplicate_joins(a1),
            ),
            TableType::Query(a0) => TableType::Query(
                Box::new(a0.duplicate()),
            ),
            TableType::Values(a0) => TableType::Values(
                a0.duplicate(),
            ),
        }
    }
}

impl Table {
    /// A copy of the node.
    pub fn duplicate(&self) -> (r: Table)
        ensures
            r@ == self@,
        decreases self,
    {
        Table {
            typ: self.typ.duplicate(),
            alias: copy_text(&self.alias),
            database: copy_text(&self.database),
            index_definitions: duplicate_index_definitions(&self.index_definitions),
        }
    }
}

impl JoinData {
    /// A copy of the node.
    pub fn duplicate(&self) -> (r: JoinData)
        ensures
            r@ == self@,
        decreases self,
    {
        JoinData {
            table: self.table.duplicate(),
            conditions: self.conditions.duplicate(),
        }
    }
}

impl Join {
    /// A copy of the node.
    pub fn duplicate(&self) -> (r: Join)
        ensures
            r@ == self@,
        decreases self,
    {
        match self {
            Join::Inner(a0) => Join::Inner(
                a0.duplicate(),
            ),
            Join::Left(a0) => Join::Left(
                a0.duplicate(),
            ),
            Join::Right(a0) => Join::Right(
                a0.duplicate(),
            ),
            Join::Full(a0) => Join::Full(
                a0.duplicate(),
            ),
        }
    }
}

impl Row {
    /// A copy of the node.
    pub fn duplicate(&self) -> (r: Row)
        ensures
            r@ == self@,
        decreases self,
    {
        Row {
            values: duplicate_expressions(&self.values),
        }
    }
}

impl Values {
    /// A copy of the node.
    pub fn duplicate(&self) -> (r: Values)
        ensures
            r@ == self@,
        decreases self,
    {
        Values {
            rows: duplicate_rows(&self.rows),
        }
    }
}

impl OrderDefinition {
    /// A copy of the node.
    pub fn duplicate(&self) -> (r: OrderDefinition)
        ensures
            r@ == self@,
        decreases self,
    {
        OrderDefinition {
            expression: self.expression.duplicate(),
            order: self.order,
        }
    }
}

impl Over {
    /// A copy of the node.
    pub fn duplicate(&self) -> (r: Over)
        ensures
            r@ == self@,
        decreases self,
    {
        Over {
            ordering: duplicate_order_definitions(&self.ordering),
            partitioning: duplicate_columns(&self.partitioning),
        }
    }
}

impl JsonPath {
    /// A copy of the node.
    pub fn duplicate(&self) -> (r: JsonPath)
        ensures
            r@ == self@,
        decreases self,
    {
        match self {
            JsonPath::String(a0) => JsonPath::String(
                a0.clone(),
            ),
            JsonPath::Array(a0) => JsonPath::Array(
                duplicate_strings(a0),
            ),
        }
    }
}

impl JsonExtract {
    /// A copy of the node.
    pub fn duplicate(&self) -> (r: JsonExtract)
        ensures
            r@ == self@,
        decreases self,
    {
        JsonExtract {
            column: Box::new(self.column.duplicate()),
            path: self.path.duplicate(),
            extract_as_string: self.extract_as_string,
        }
    }
}

impl RowToJson {
    /// A copy of the node.
    pub fn duplicate(&self) -> (r: RowToJson)
        ensures
            r@ == self@,
        decreases self,
    {
        RowToJson {
            expr: self.expr.duplicate(),
            pretty_print: self.pretty_print,
        }
    }
}

impl TextSearch {
    /// A copy of the node.
    pub fn duplicate(&self) -> (r: TextSearch)
        ensures
            r@ == self@,
        decreases self,
    {
        TextSearch {
            columns: duplicate_columns(&self.columns),
        }
    }
}

impl FunctionType {
    /// A copy of the node.
    pub fn duplicate(&self) -> (r: FunctionType)
        ensures
            r@ == self@,
        decreases self,
    {
        match self {
            FunctionType::RowToJson(a0) => FunctionType::RowToJson(
                a0.duplicate(),
            ),
            FunctionType::RowNumber(a0) => FunctionType::RowNumber(
                a0.duplicate(),
            ),
            FunctionType::Count(a0) => FunctionType::Count(
                duplicate_expressions(a0),
            ),
            FunctionType::AggregateToString(a0) => FunctionType::AggregateToString(
                Box::new(a0.duplicate()),
            ),
            FunctionType::Average(a0) => FunctionType::Average(
                a0.duplicate(),
            ),
            FunctionType::Sum(a0) => FunctionType::Sum(
                Box::new(a0.duplicate()),
            ),
            FunctionType::Lower(a0) => FunctionType::Lower(
                Box::new(a0.duplicate()),
            ),
            FunctionType::Upper(a0) => FunctionType::Upper(
                Box::new(a0.duplicate()),
            ),
            FunctionType::Minimum(a0) => FunctionType::Minimum(
                a0.duplicate(),
            ),
            FunctionType::Maximum(a0) => FunctionType::Maximum(
                a0.duplicate(),
            ),
            FunctionType::Coalesce(a0) => FunctionType::Coalesce(
                duplicate_expressions(a0),
            ),
            FunctionType::JsonExtract(a0) => FunctionType::JsonExtract(
                a0.duplicate(),
            ),
            FunctionType::TextSearch(a0) => FunctionType::TextSearch(
                a0.duplicate(),
            ),
        }
    }
}

impl Function {
    /// A copy of the node.
    pub fn duplicate(&self) -> (r: Function)
        ensures
            r@ == self@,
        decreases self,
    {
        Function {
            typ_: self.typ_.duplicate(),
            alias: copy_text(&self.alias),
        }
    }
}

impl Compare {
    /// A copy of the node.
    pub fn duplicate(&self) -> (r: Compare)
        ensures
            r@ == self@,
        decreases self,
    {
        match self {
            Compare::Binary(a0, a1, a2) => Compare::Binary(
                Box::new(a0.duplicate()),
                *a1,
                Box::new(a2.duplicate()),
            ),
            Compare::Pattern(a0, a1, a2) => Compare::Pattern(
                Box::new(a0.duplicate()),
                *a1,
                a2.clone(),
            ),
            Compare::Null(a0) => Compare::Null(
                Box::new(a0.duplicate()),
            ),
            Compare::NotNull(a0) => Compare::NotNull(
                Box::new(a0.duplicate()),
            ),
            Compare::Between(a0, a1, a2) => Compare::Between(
                Box::new(a0.duplicate()),
                Box::new(a1.duplicate()),
                Box::new(a2.duplicate()),
            ),
            Compare::NotBetween(a0, a1, a2) => Compare::NotBetween(
                Box::new(a0.duplicate()),
                Box::new(a1.duplicate()),
                Box::new(a2.duplicate()),
            ),
            Compare::Raw(a0, a1, a2) => Compare::Raw(
                Box::new(a0.duplicate()),
                a1.clone(),
                Box::new(a2.duplicate()),
            ),
            Compare::JsonArray(a0, a1, a2, a3) => Compare::JsonArray(
                Box::new(a0.duplicate()),
                *a1,
                *a2,
                Box::new(a3.duplicate()),
            ),
            Compare::JsonType(a0, a1) => Compare::JsonType(
                Box::new(a0.duplicate()),
                *a1,
            ),
            Compare::Matches(a0, a1, a2) => Compare::Matches(
                Box::new(a0.duplicate()),
                a1.clone(),
                *a2,
            ),
        }
    }
}

impl ConditionTree {
    /// A copy of the node.
    pub fn duplicate(&self) -> (r: ConditionTree)
        ensures
            r@ == self@,
        decreases self,
    {
        match self {
            ConditionTree::And(a0) => ConditionTree::And(
                duplicate_expressions(a0),
            ),
            ConditionTree::Or(a0) => ConditionTree::Or(
                duplicate_expressions(a0),
            ),
            ConditionTree::Not(a0) => ConditionTree::Not(
                Box::new(a0.duplicate()),
            ),
            ConditionTree::Single(a0) => ConditionTree::Single(
                Box::new(a0.duplicate()),
            ),
            ConditionTree::NoCondition => ConditionTree::NoCondition,
            ConditionTree::NegativeCondition => ConditionTree::NegativeCondition,
        }
    }
}

impl SelectQuery {
    /// A copy of the node.
    pub fn duplicate(&self) -> (r: SelectQuery)
        ensures
            r@ == self@,
        decreases self,
    {
        match self {
            SelectQuery::Select(a0) => SelectQuery::Select(
                Box::new(a0.duplicate()),
            ),
            SelectQuery::Union(a0) => SelectQuery::Union(
                Box::new(a0.duplicate()),
            ),
        }
    }
}

impl ExpressionKind {
    /// A copy of the node.
    pub fn duplicate(&self) -> (r: ExpressionKind)
        ensures
            r@ == self@,
        decreases self,
    {
        match self {
            ExpressionKind::Parameterized(a0) => ExpressionKind::Parameterized(
                a0.duplicate(),
            ),
            ExpressionKind::RawValue(a0) => ExpressionKind::RawValue(
                Raw { value: a0.value.duplicate() },
            ),
            ExpressionKind::Column(a0) => ExpressionKind::Column(
                Box::new(a0.duplicate()),
            ),
            ExpressionKind::Row(a0) => ExpressionKind::Row(
                a0.duplicate(),
            ),
            ExpressionKind::Selection(a0) => ExpressionKind::Selection(
                a0.duplicate(),
            ),
            ExpressionKind::Function(a0) => ExpressionKind::Function(
                Box::new(a0.duplicate()),
            ),
            ExpressionKind::Asterisk(a0) => ExpressionKind::Asterisk(
                match a0 {
                    Some(x) => Some(Box::new(x.duplicate())),
                    None => None,
                },
            ),
            ExpressionKind::Op(a0, a1, a2) => ExpressionKind::Op(
                Box::new(a0.duplicate()),
                *a1,
                Box::new(a2.duplicate()),
            ),
            ExpressionKind::Values(a0) => ExpressionKind::Values(
                Box::new(a0.duplicate()),
            ),
            ExpressionKind::ConditionTree(a0) => ExpressionKind::ConditionTree(
                a0.duplicate(),
            ),
            ExpressionKind::Compare(a0) => ExpressionKind::Compare(
                a0.duplicate(),
            ),
            ExpressionKind::Value(a0) => ExpressionKind::Value(
                Box::new(a0.duplicate()),
            ),
            ExpressionKind::Default => ExpressionKind::Default,
        }
    }
}

impl Expression {
    /// A copy of the node.
    pub fn duplicate(&self) -> (r: Expression)
        ensures
            r@ == self@,
        decreases self,
    {
        Expression {
            kind: self.kind.duplicate(),
            alias: copy_text(&self.alias),
        }
    }
}

impl CommonTableExpression {
    /// A copy of the node.
    pub fn duplicate(&self) -> (r: CommonTableExpression)
        ensures
            r@ == self@,
        decreases self,
    {
        CommonTableExpression {
            identifier: self.identifier.clone(),
            columns: duplicate_strings(&self.columns),
            selection: self.selection.duplicate(),
        }
    }
}

impl Select {
    /// A copy of the node.
    pub fn duplicate(&self) -> (r: Select)
        ensures
            r@ == self@,
        decreases self,
    {
        Select {
            distinct: self.distinct,
            tables: duplicate_tables(&self.tables),
            columns: duplicate_expressions(&self.columns),
            conditions: match &self.conditions {
                Some(x) => Some(x.duplicate()),
                None => None,
            },
            ordering: duplicate_order_definitions(&self.ordering),
            grouping: duplicate_expressions(&self.grouping),
            having: match &self.having {
                Some(x) => Some(x.duplicate()),
                None => None,
            },
            limit: match &self.limit {
                Some(x) => Some(x.duplicate()),
                None => None,
            },
            offset: match &self.offset {
                Some(x) => Some(x.duplicate()),
                None => None,
            },
            joins: duplicate_joins(&self.joins),
            ctes: duplicate_common_table_expressions(&self.ctes),
        }
    }
}

impl Union {
    /// A copy of the node.
    pub fn duplicate(&self) -> (r: Union)
        ensures
            r@ == self@,
        decreases self,
    {
        Union {
            selects: duplicate_selects(&self.selects),
            types: duplicate_union_types(&self.types),
            ctes: duplicate_common_table_expressions(&self.ctes),
        }
    }
}

impl Insert {
    /// A copy of the node.
    pub fn duplicate(&self) -> (r: Insert)
        ensures
            r@ == self@,
        decreases self,
    {
        Insert {
            table: match &self.table {
                Some(x) => Some(x.duplicate()),
                None => None,
            },
            columns: duplicate_columns(&self.columns),
            values: self.values.duplicate(),
            on_conflict: self.on_conflict,
            returning: match &self.returning {
                Some(x) => Some(duplicate_columns(x)),
                None => None,
            },
        }
    }
}

impl SingleRowInsert {
    /// A copy of the node.
    pub fn duplicate(&self) -> (r: SingleRowInsert)
        ensures
            r@ == self@,
        decreases self,
    {
        SingleRowInsert {
            table: match &self.table {
                Some(x) => Some(x.duplicate()),
                None => None,
            },
            columns: duplicate_columns(&self.columns),
            values: self.values.duplicate(),
        }
    }
}

impl MultiRowInsert {
    /// A copy of the node.
    pub fn duplicate(&self) -> (r: MultiRowInsert)
        ensures
            r@ == self@,
        decreases self,
    {
        MultiRowInsert {
            table: match &self.table {
                Some(x) => Some(x.duplicate()),
                None => None,
            },
            columns: duplicate_columns(&self.columns),
            values: duplicate_rows(&self.values),
        }
    }
}

impl Update {
    /// A copy of the node.
    pub fn duplicate(&self) -> (r: Update)
        ensures
            r@ == self@,
        decreases self,
    {
        Update {
            table: self.table.duplicate(),
            columns: duplicate_columns(&self.columns),
            values: duplicate_expressions(&self.values),
            conditions: match &self.conditions {
                Some(x) => Some(x.duplicate()),
                None => None,
            },
        }
    }
}

impl Delete {
    /// A copy of the node.
    pub fn duplicate(&self) -> (r: Delete)
        ensures
            r@ == self@,
        decreases self,
    {
        Delete {
            table: self.table.duplicate(),
            conditions: match &self.conditions {
                Some(x) => Some(x.duplicate()),
                None => None,
            },
        }
    }
}

impl Using {
    /// A copy of the node.
    pub fn duplicate(&self) -> (r: Using)
        ensures
            r@ == self@,
        decreases self,
    {
        Using {
            base_query: self.base_query.duplicate(),
            columns: duplicate_columns(&self.columns),
            as_table: self.as_table.duplicate(),
            on_conditions: self.on_conditions.duplicate(),
        }
    }
}

impl Merge {
    /// A copy of the node.
    pub fn duplicate(&self) -> (r: Merge)
        ensures
            r@ == self@,
        decreases self,
    {
        Merge {
            table: self.table.duplicate(),
            using: self.using.duplicate(),
            when_not_matched: match &self.when_not_matched {
                Some(x) => Some(x.duplicate()),
                None => None,
            },
            returning: match &self.returning {
                Some(x) => Some(duplicate_columns(x)),
                None => None,
            },
        }
    }
}

impl Query {
    /// A copy of the node.
    pub fn duplicate(&self) -> (r: Query)
        ensures
            r@ == self@,
        decreases self,
    {
        match self {
            Query::Select(a0) => Query::Select(
                Box::new(a0.duplicate()),
            ),
            Query::Insert(a0) => Query::Insert(
                Box::new(a0.duplicate()),
            ),
            Query::Update(a0) => Query::Update(
                Box::new(a0.duplicate()),
            ),
            Query::Delete(a0) => Query::Delete(
                Box::new(a0.duplicate()),
            ),
            Query::Union(a0) => Query::Union(
                Box::new(a0.duplicate()),
            ),
            Query::Merge(a0) => Query::Merge(
                Box::new(a0.duplicate()),
            ),
            Query::Raw(a0) => Query::Raw(
                a0.clone(),
            ),
        }
    }
}

} // verus!

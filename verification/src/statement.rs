//! What the translator reads of a parsed statement, as plain values.

use vstd::prelude::*;
use crate::value::names_view;

verus! {

/// What may stand behind a `*` to change what it selects: whether each is
/// there.
#[derive(Debug, PartialEq, Eq, Clone, Copy)]
pub struct WildcardOptions {
    pub exclude: bool,
    pub except: bool,
    pub rename: bool,
    pub replace: bool,
}

impl WildcardOptions {
    /// Nothing behind the `*`.
    pub open spec fn spec_bare() -> WildcardOptions {
        WildcardOptions { exclude: false, except: false, rename: false, replace: false }
    }

    /// Nothing behind the `*`.
    pub fn bare() -> (options: WildcardOptions)
        ensures
            options == WildcardOptions::spec_bare(),
    {
        WildcardOptions { exclude: false, except: false, rename: false, replace: false }
    }
}

/// The mathematical value of one item of a select list.
pub enum ItemShape {
    /// A plain column identifier.
    Column(Seq<char>),
    /// A `*`, and what stands behind it.
    Wildcard(WildcardOptions),
    /// A wildcard behind a qualifier, such as `t.*`.
    QualifiedWildcard,
    /// An expression that is no plain identifier.
    Expression,
    /// An expression with an alias.
    Aliased,
}

/// One item of a select list.
#[derive(Debug, PartialEq, Eq)]
pub enum ProjectionItem {
    Column(String),
    Wildcard(WildcardOptions),
    QualifiedWildcard,
    Expression,
    Aliased,
}

impl View for ProjectionItem {
    type V = ItemShape;

    open spec fn view(&self) -> ItemShape {
        match self {
            ProjectionItem::Column(name) => ItemShape::Column(name@),
            ProjectionItem::Wildcard(options) => ItemShape::Wildcard(*options),
            ProjectionItem::QualifiedWildcard => ItemShape::QualifiedWildcard,
            ProjectionItem::Expression => ItemShape::Expression,
            ProjectionItem::Aliased => ItemShape::Aliased,
        }
    }
}

/// The `WHERE` clause of a select, as far as the translator tells clauses
/// apart. A range predicate is accepted and never evaluated.
#[derive(Debug, PartialEq, Eq, Clone, Copy)]
pub enum Filter {
    Absent,
    Between,
    Other,
}

/// The clauses of a query around its body: whether each is there, and for a
/// list how many items it holds.
#[derive(Debug, PartialEq, Eq, Clone, Copy)]
pub struct QueryClauses {
    pub with: bool,
    pub order_by: usize,
    pub limit: bool,
    pub limit_by: usize,
    pub offset: bool,
    pub fetch: bool,
    pub locks: usize,
}

impl QueryClauses {
    /// A query that is its body and nothing more.
    pub open spec fn spec_bare() -> QueryClauses {
        QueryClauses {
            with: false,
            order_by: 0,
            limit: false,
            limit_by: 0,
            offset: false,
            fetch: false,
            locks: 0,
        }
    }

    /// A query that is its body and nothing more.
    pub fn bare() -> (clauses: QueryClauses)
        ensures
            clauses == QueryClauses::spec_bare(),
    {
        QueryClauses {
            with: false,
            order_by: 0,
            limit: false,
            limit_by: 0,
            offset: false,
            fetch: false,
            locks: 0,
        }
    }
}

/// The clauses of a select beside its select list, its `FROM` and its
/// `WHERE`: whether each is there, and for a list how many items it holds.
#[derive(Debug, PartialEq, Eq, Clone, Copy)]
pub struct SelectClauses {
    pub distinct: bool,
    pub top: bool,
    pub into: bool,
    pub lateral_views: usize,
    /// The number of grouping expressions; `None` for `GROUP BY ALL`.
    pub group_by: Option<usize>,
    pub cluster_by: usize,
    pub distribute_by: usize,
    pub sort_by: usize,
    pub having: bool,
    pub named_window: usize,
    pub qualify: bool,
}

impl SelectClauses {
    /// A select of a list, a `FROM` and a `WHERE` at most.
    pub open spec fn spec_bare() -> SelectClauses {
        SelectClauses {
            distinct: false,
            top: false,
            into: false,
            lateral_views: 0,
            group_by: Some(0usize),
            cluster_by: 0,
            distribute_by: 0,
            sort_by: 0,
            having: false,
            named_window: 0,
            qualify: false,
        }
    }

    /// A select of a list, a `FROM` and a `WHERE` at most.
    pub fn bare() -> (clauses: SelectClauses)
        ensures
            clauses == SelectClauses::spec_bare(),
    {
        SelectClauses {
            distinct: false,
            top: false,
            into: false,
            lateral_views: 0,
            group_by: Some(0),
            cluster_by: 0,
            distribute_by: 0,
            sort_by: 0,
            having: false,
            named_window: 0,
            qualify: false,
        }
    }
}

/// The mathematical value of a table named in a `FROM` clause.
pub struct TableShape {
    /// The parts of the table's name.
    pub parts: Seq<Seq<char>>,
    /// Whether the table is given an alias.
    pub alias: bool,
    /// Whether arguments stand behind the name, as in a call.
    pub arguments: bool,
    /// How many hints stand behind the name.
    pub hints: nat,
    /// Whether a version of the table is asked for.
    pub version: bool,
    /// How many partitions are selected.
    pub partitions: nat,
}

/// A table named in a `FROM` clause, with what stands behind its name.
#[derive(Debug, PartialEq, Eq)]
pub struct TableReference {
    pub parts: Vec<String>,
    pub alias: bool,
    pub arguments: bool,
    pub hints: usize,
    pub version: bool,
    pub partitions: usize,
}

impl View for TableReference {
    type V = TableShape;

    open spec fn view(&self) -> TableShape {
        TableShape {
            parts: names_view(self.parts@),
            alias: self.alias,
            arguments: self.arguments,
            hints: self.hints as nat,
            version: self.version,
            partitions: self.partitions as nat,
        }
    }
}

impl TableReference {
    /// A table of the given name with nothing behind it.
    pub fn plain(parts: Vec<String>) -> (table: TableReference)
        ensures
            table@ == (TableShape {
                parts: names_view(parts@),
                alias: false,
                arguments: false,
                hints: 0,
                version: false,
                partitions: 0,
            }),
    {
        TableReference {
            parts,
            alias: false,
            arguments: false,
            hints: 0,
            version: false,
            partitions: 0,
        }
    }
}

/// The mathematical value of one target of a `FROM` clause.
pub struct TargetShape {
    /// The table, where the target is a table named.
    pub table: Option<TableShape>,
    /// How many joins hang on the target.
    pub joins: nat,
}

/// One target of a `FROM` clause.
#[derive(Debug, PartialEq, Eq)]
pub struct FromTarget {
    pub table: Option<TableReference>,
    pub joins: usize,
}

impl View for FromTarget {
    type V = TargetShape;

    open spec fn view(&self) -> TargetShape {
        TargetShape {
            table: match self.table {
                Some(table) => Some(table@),
                None => None,
            },
            joins: self.joins as nat,
        }
    }
}

/// The mathematical value of a parsed statement.
pub enum StatementShape {
    /// A query whose body is one select.
    Select {
        query_clauses: QueryClauses,
        select_clauses: SelectClauses,
        projection: Seq<ItemShape>,
        from: Seq<TargetShape>,
        filter: Filter,
    },
    /// A query of another body: a set operation, a list of values, a nested
    /// query.
    CompoundQuery,
    /// A statement that is no query.
    Other,
}

/// A parsed statement.
#[derive(Debug, PartialEq, Eq)]
pub enum ParsedStatement {
    Select {
        query_clauses: QueryClauses,
        select_clauses: SelectClauses,
        projection: Vec<ProjectionItem>,
        from: Vec<FromTarget>,
        filter: Filter,
    },
    CompoundQuery,
    Other,
}

/// The values of a select list.
pub open spec fn items_view(items: Seq<ProjectionItem>) -> Seq<ItemShape> {
    items.map_values(|item: ProjectionItem| item@)
}

/// The values of the targets of a `FROM` clause.
pub open spec fn targets_view(targets: Seq<FromTarget>) -> Seq<TargetShape> {
    targets.map_values(|target: FromTarget| target@)
}

impl View for ParsedStatement {
    type V = StatementShape;

    open spec fn view(&self) -> StatementShape {
        match self {
            ParsedStatement::Select {
                query_clauses,
                select_clauses,
                projection,
                from,
                filter,
            } => StatementShape::Select {
                query_clauses: *query_clauses,
                select_clauses: *select_clauses,
                projection: items_view(projection@),
                from: targets_view(from@),
                filter: *filter,
            },
            ParsedStatement::CompoundQuery => StatementShape::CompoundQuery,
            ParsedStatement::Other => StatementShape::Other,
        }
    }
}

} // verus!

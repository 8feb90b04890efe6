//! The statement translator: from a parsed statement to a query descriptor,
//! or to the construct that is not supported.

use vstd::prelude::*;
use crate::query::{Fields, Projection, Selection, SqlQuery};
use crate::reader::{parsed_text, read_sql, ParseError};
use crate::statement::{
    items_view, targets_view, Filter, FromTarget, ItemShape, ParsedStatement, ProjectionItem,
    QueryClauses, SelectClauses, StatementShape, TableReference, TableShape, TargetShape,
    WildcardOptions,
};
use crate::value::names_view;

verus! {

/// A construct that parses and that the translator does not take.
#[derive(Debug, PartialEq, Eq, Clone, Copy)]
pub enum UnsupportedConstruct {
    /// A statement that is no query, such as an insert.
    Statement,
    /// A query whose body is no plain select: a set operation, a list of
    /// values, a nested query.
    CompoundQuery,
    /// A `WITH` clause.
    With,
    /// An `ORDER BY` clause.
    OrderBy,
    /// A `LIMIT` clause.
    Limit,
    /// A `LIMIT ... BY` clause.
    LimitBy,
    /// An `OFFSET` clause.
    Offset,
    /// A `FETCH` clause.
    Fetch,
    /// A locking clause, such as `FOR UPDATE`.
    Lock,
    /// `DISTINCT`.
    Distinct,
    /// `TOP`.
    Top,
    /// An `INTO` clause.
    Into,
    /// A `LATERAL VIEW`.
    LateralView,
    /// A `GROUP BY` clause.
    GroupBy,
    /// A `CLUSTER BY` clause.
    ClusterBy,
    /// A `DISTRIBUTE BY` clause.
    DistributeBy,
    /// A `SORT BY` clause.
    SortBy,
    /// A `HAVING` clause.
    Having,
    /// A `WINDOW` clause.
    Window,
    /// A `QUALIFY` clause.
    Qualify,
    /// A `WHERE` clause that is no range predicate.
    Predicate,
    /// A select without a `FROM` target.
    MissingTable,
    /// A select with more than one `FROM` target.
    MultipleTables,
    /// A `FROM` target with a join.
    Join,
    /// A `FROM` target that is no table named: a derived table, a function.
    TableExpression,
    /// A table with arguments behind its name, as in a call.
    TableArguments,
    /// A table with hints behind its name.
    TableHints,
    /// A table of which a version is asked for.
    TableVersion,
    /// A table of which partitions are selected.
    TablePartitions,
    /// A `*` with an option behind it, such as `EXCLUDE`.
    WildcardOption,
    /// A wildcard behind a qualifier.
    QualifiedWildcard,
    /// A select item that is an expression and no plain column.
    Expression,
    /// A select item with an alias.
    Alias,
}

/// The name of a construct, for a message to the user.
pub open spec fn construct_name(construct: UnsupportedConstruct) -> Seq<char> {
    match construct {
        UnsupportedConstruct::Statement => "statement other than a query"@,
        UnsupportedConstruct::CompoundQuery => "query other than a plain select"@,
        UnsupportedConstruct::With => "WITH"@,
        UnsupportedConstruct::OrderBy => "ORDER BY"@,
        UnsupportedConstruct::Limit => "LIMIT"@,
        UnsupportedConstruct::LimitBy => "LIMIT BY"@,
        UnsupportedConstruct::Offset => "OFFSET"@,
        UnsupportedConstruct::Fetch => "FETCH"@,
        UnsupportedConstruct::Lock => "locking clause"@,
        UnsupportedConstruct::Distinct => "DISTINCT"@,
        UnsupportedConstruct::Top => "TOP"@,
        UnsupportedConstruct::Into => "INTO"@,
        UnsupportedConstruct::LateralView => "LATERAL VIEW"@,
        UnsupportedConstruct::GroupBy => "GROUP BY"@,
        UnsupportedConstruct::ClusterBy => "CLUSTER BY"@,
        UnsupportedConstruct::DistributeBy => "DISTRIBUTE BY"@,
        UnsupportedConstruct::SortBy => "SORT BY"@,
        UnsupportedConstruct::Having => "HAVING"@,
        UnsupportedConstruct::Window => "WINDOW"@,
        UnsupportedConstruct::Qualify => "QUALIFY"@,
        UnsupportedConstruct::Predicate => "predicate other than a range"@,
        UnsupportedConstruct::MissingTable => "select without a table"@,
        UnsupportedConstruct::MultipleTables => "more than one table"@,
        UnsupportedConstruct::Join => "join"@,
        UnsupportedConstruct::TableExpression => "table expression"@,
        UnsupportedConstruct::TableArguments => "table with arguments"@,
        UnsupportedConstruct::TableHints => "table with hints"@,
        UnsupportedConstruct::TableVersion => "table version"@,
        UnsupportedConstruct::TablePartitions => "table partitions"@,
        UnsupportedConstruct::WildcardOption => "wildcard with options"@,
        UnsupportedConstruct::QualifiedWildcard => "qualified wildcard"@,
        UnsupportedConstruct::Expression => "computed column"@,
        UnsupportedConstruct::Alias => "aliased column"@,
    }
}

impl UnsupportedConstruct {
    /// The name of the construct, for a message to the user.
    pub fn name(&self) -> (name: &'static str)
        ensures
            name@ == construct_name(*self),
    {
        match self {
            UnsupportedConstruct::Statement => "statement other than a query",
            UnsupportedConstruct::CompoundQuery => "query other than a plain select",
            UnsupportedConstruct::With => "WITH",
            UnsupportedConstruct::OrderBy => "ORDER BY",
            UnsupportedConstruct::Limit => "LIMIT",
            UnsupportedConstruct::LimitBy => "LIMIT BY",
            UnsupportedConstruct::Offset => "OFFSET",
            UnsupportedConstruct::Fetch => "FETCH",
            UnsupportedConstruct::Lock => "locking clause",
            UnsupportedConstruct::Distinct => "DISTINCT",
            UnsupportedConstruct::Top => "TOP",
            UnsupportedConstruct::Into => "INTO",
            UnsupportedConstruct::LateralView => "LATERAL VIEW",
            UnsupportedConstruct::GroupBy => "GROUP BY",
            UnsupportedConstruct::ClusterBy => "CLUSTER BY",
            UnsupportedConstruct::DistributeBy => "DISTRIBUTE BY",
            UnsupportedConstruct::SortBy => "SORT BY",
            UnsupportedConstruct::Having => "HAVING",
            UnsupportedConstruct::Window => "WINDOW",
            UnsupportedConstruct::Qualify => "QUALIFY",
            UnsupportedConstruct::Predicate => "predicate other than a range",
            UnsupportedConstruct::MissingTable => "select without a table",
            UnsupportedConstruct::MultipleTables => "more than one table",
            UnsupportedConstruct::Join => "join",
            UnsupportedConstruct::TableExpression => "table expression",
            UnsupportedConstruct::TableArguments => "table with arguments",
            UnsupportedConstruct::TableHints => "table with hints",
            UnsupportedConstruct::TableVersion => "table version",
            UnsupportedConstruct::TablePartitions => "table partitions",
            UnsupportedConstruct::WildcardOption => "wildcard with options",
            UnsupportedConstruct::QualifiedWildcard => "qualified wildcard",
            UnsupportedConstruct::Expression => "computed column",
            UnsupportedConstruct::Alias => "aliased column",
        }
    }
}

/// The first clause around a query's body that is there, if any is: none of
/// them is supported.
pub open spec fn query_offence(clauses: QueryClauses) -> Option<UnsupportedConstruct> {
    if clauses.with {
        Some(UnsupportedConstruct::With)
    } else if clauses.order_by > 0 {
        Some(UnsupportedConstruct::OrderBy)
    } else if clauses.limit {
        Some(UnsupportedConstruct::Limit)
    } else if clauses.limit_by > 0 {
        Some(UnsupportedConstruct::LimitBy)
    } else if clauses.offset {
        Some(UnsupportedConstruct::Offset)
    } else if clauses.fetch {
        Some(UnsupportedConstruct::Fetch)
    } else if clauses.locks > 0 {
        Some(UnsupportedConstruct::Lock)
    } else {
        None
    }
}

/// The first clause of a select, beside its list, its `FROM` and its `WHERE`,
/// that is there, if any is: none of them is supported.
pub open spec fn select_offence(clauses: SelectClauses) -> Option<UnsupportedConstruct> {
    if clauses.distinct {
        Some(UnsupportedConstruct::Distinct)
    } else if clauses.top {
        Some(UnsupportedConstruct::Top)
    } else if clauses.into {
        Some(UnsupportedConstruct::Into)
    } else if clauses.lateral_views > 0 {
        Some(UnsupportedConstruct::LateralView)
    } else if clauses.group_by != Some(0usize) {
        Some(UnsupportedConstruct::GroupBy)
    } else if clauses.cluster_by > 0 {
        Some(UnsupportedConstruct::ClusterBy)
    } else if clauses.distribute_by > 0 {
        Some(UnsupportedConstruct::DistributeBy)
    } else if clauses.sort_by > 0 {
        Some(UnsupportedConstruct::SortBy)
    } else if clauses.having {
        Some(UnsupportedConstruct::Having)
    } else if clauses.named_window > 0 {
        Some(UnsupportedConstruct::Window)
    } else if clauses.qualify {
        Some(UnsupportedConstruct::Qualify)
    } else {
        None
    }
}

/// Why an item of a select list is not taken, if it is not.
pub open spec fn item_offence(item: ItemShape) -> Option<UnsupportedConstruct> {
    match item {
        ItemShape::Column(_) => None,
        ItemShape::Wildcard(options) => if options == WildcardOptions::spec_bare() {
            None
        } else {
            Some(UnsupportedConstruct::WildcardOption)
        },
        ItemShape::QualifiedWildcard => Some(UnsupportedConstruct::QualifiedWildcard),
        ItemShape::Expression => Some(UnsupportedConstruct::Expression),
        ItemShape::Aliased => Some(UnsupportedConstruct::Alias),
    }
}

/// Whether `at` is the first item of the list that is not taken.
pub open spec fn is_first_offence(items: Seq<ItemShape>, at: int) -> bool {
    &&& 0 <= at < items.len()
    &&& item_offence(items[at]) is Some
    &&& forall|before: int| 0 <= before < at ==> item_offence(#[trigger] items[before]) is None
}

/// Why the first item that is not taken is not, if there is such an item.
pub open spec fn first_offence(items: Seq<ItemShape>) -> Option<UnsupportedConstruct> {
    if exists|at: int| is_first_offence(items, at) {
        item_offence(items[choose|at: int| is_first_offence(items, at)])
    } else {
        None
    }
}

/// Whether an item is a plain column.
pub open spec fn is_column() -> spec_fn(ItemShape) -> bool {
    |item: ItemShape| item is Column
}

/// The name of a plain column.
pub open spec fn column_name() -> spec_fn(ItemShape) -> Seq<char> {
    |item: ItemShape| item->Column_0
}

/// The plain columns of a select list, in the order written, repeats kept.
pub open spec fn named_columns(items: Seq<ItemShape>) -> Seq<Seq<char>> {
    items.filter(is_column()).map_values(column_name())
}

/// What a select list of columns and wildcards asks for: the named columns
/// where there is one, every column otherwise.
pub open spec fn requested(items: Seq<ItemShape>) -> Projection {
    if named_columns(items).len() > 0 {
        Projection::Named(named_columns(items))
    } else {
        Projection::Every
    }
}

/// The name under which a table named in a `FROM` clause is looked up: the
/// last part of its name. A table with arguments, hints, a version or
/// partitions behind its name is no plain table and is refused, in this
/// order; an alias is taken and changes nothing.
pub open spec fn table_name(table: TableShape) -> Result<Seq<char>, UnsupportedConstruct> {
    if table.arguments {
        Err(UnsupportedConstruct::TableArguments)
    } else if table.hints > 0 {
        Err(UnsupportedConstruct::TableHints)
    } else if table.version {
        Err(UnsupportedConstruct::TableVersion)
    } else if table.partitions > 0 {
        Err(UnsupportedConstruct::TablePartitions)
    } else if table.parts.len() == 0 {
        Err(UnsupportedConstruct::TableExpression)
    } else {
        Ok(table.parts.last())
    }
}

/// The table that a `FROM` clause names: its one target, without a join, a
/// plain table.
pub open spec fn target_table(from: Seq<TargetShape>) -> Result<Seq<char>, UnsupportedConstruct> {
    if from.len() == 0 {
        Err(UnsupportedConstruct::MissingTable)
    } else if from.len() > 1 {
        Err(UnsupportedConstruct::MultipleTables)
    } else if from[0].joins > 0 {
        Err(UnsupportedConstruct::Join)
    } else {
        match from[0].table {
            Some(table) => table_name(table),
            None => Err(UnsupportedConstruct::TableExpression),
        }
    }
}

/// The query that a select list, a `FROM` clause and a `WHERE` clause stand
/// for, or the first construct among them that is not supported: the `WHERE`
/// clause, then the `FROM` clause, then the select list from left to right.
pub open spec fn select_translation(
    projection: Seq<ItemShape>,
    from: Seq<TargetShape>,
    filter: Filter,
) -> Result<Selection, UnsupportedConstruct> {
    if filter is Other {
        Err(UnsupportedConstruct::Predicate)
    } else {
        match target_table(from) {
            Err(construct) => Err(construct),
            Ok(table) => match first_offence(projection) {
                Some(construct) => Err(construct),
                None => Ok(Selection { projection: requested(projection), table }),
            },
        }
    }
}

/// The query that a statement stands for, or the first construct of it that
/// is not supported: the statement's kind, then the clauses around the
/// query's body, then the further clauses of the select, then its `WHERE`
/// clause, its `FROM` clause and its select list.
pub open spec fn translation(statement: StatementShape) -> Result<
    Selection,
    UnsupportedConstruct,
> {
    match statement {
        StatementShape::Other => Err(UnsupportedConstruct::Statement),
        StatementShape::CompoundQuery => Err(UnsupportedConstruct::CompoundQuery),
        StatementShape::Select { query_clauses, select_clauses, projection, from, filter } =>
            match query_offence(query_clauses) {
            Some(construct) => Err(construct),
            None => match select_offence(select_clauses) {
                Some(construct) => Err(construct),
                None => select_translation(projection, from, filter),
            },
        },
    }
}

/// The value of what translating one statement gave.
pub open spec fn outcome_view(outcome: Result<SqlQuery, UnsupportedConstruct>) -> Result<
    Selection,
    UnsupportedConstruct,
> {
    match outcome {
        Ok(query) => Ok(query@),
        Err(construct) => Err(construct),
    }
}

/// The values of what translating a list of statements gave.
pub open spec fn outcomes_view(outcomes: Seq<Result<SqlQuery, UnsupportedConstruct>>) -> Seq<
    Result<Selection, UnsupportedConstruct>,
> {
    outcomes.map_values(|outcome: Result<SqlQuery, UnsupportedConstruct>| outcome_view(outcome))
}

/// What translating a text gives: for each of its statements, in source
/// order, its translation; or why the text is not handed to the parser; or
/// the parser's message where the text does not parse.
pub open spec fn translated_text(sql: Seq<char>) -> Result<
    Seq<Result<Selection, UnsupportedConstruct>>,
    Seq<char>,
> {
    match parsed_text(sql) {
        Ok(statements) => Ok(
            statements.map_values(|statement: StatementShape| translation(statement)),
        ),
        Err(message) => Err(message),
    }
}

/// The value of what translating a text gave.
pub open spec fn batch_view(
    outcome: Result<Vec<Result<SqlQuery, UnsupportedConstruct>>, ParseError>,
) -> Result<Seq<Result<Selection, UnsupportedConstruct>>, Seq<char>> {
    match outcome {
        Ok(outcomes) => Ok(outcomes_view(outcomes@)),
        Err(error) => Err(error@),
    }
}

/// Whether what a translation handed back is the translation of the text.
pub open spec fn is_translation(
    outcome: Result<Vec<Result<SqlQuery, UnsupportedConstruct>>, ParseError>,
    sql: Seq<char>,
) -> bool {
    batch_view(outcome) == translated_text(sql)
}

/// Translating one text twice yields the same outcome: the same queries and
/// the same refusals in the same order, or the same message.
pub proof fn lemma_translation_repeats(
    first: Result<Vec<Result<SqlQuery, UnsupportedConstruct>>, ParseError>,
    second: Result<Vec<Result<SqlQuery, UnsupportedConstruct>>, ParseError>,
    sql: Seq<char>,
)
    requires
        is_translation(first, sql),
        is_translation(second, sql),
    ensures
        batch_view(first) == batch_view(second),
{
}

/// A statement that is no select, a select with a clause beside its list,
/// its `FROM` and its `WHERE`, a select that does not name exactly one table
/// without a join, a select from a table with arguments, hints, a version or
/// partitions, a select with a `WHERE` clause that is no range predicate,
/// and a select with an item that is neither a plain column nor a lone
/// wildcard are each refused: none is translated into a query.
pub proof fn lemma_unsupported_refused(statement: StatementShape)
    ensures
        statement is Other ==> translation(statement) == Err::<Selection, UnsupportedConstruct>(
            UnsupportedConstruct::Statement,
        ),
        statement is CompoundQuery ==> translation(statement) == Err::<
            Selection,
            UnsupportedConstruct,
        >(UnsupportedConstruct::CompoundQuery),
        statement is Select && query_offence(statement->query_clauses) is Some ==> translation(
            statement,
        ) is Err,
        statement is Select && select_offence(statement->select_clauses) is Some ==> translation(
            statement,
        ) is Err,
        statement is Select && statement->filter is Other ==> translation(statement) is Err,
        statement is Select && statement->from.len() != 1 ==> translation(statement) is Err,
        statement is Select && statement->from.len() == 1 && (statement->from[0].joins > 0
            || statement->from[0].table is None) ==> translation(statement) is Err,
        statement is Select && statement->from.len() == 1 && statement->from[0].table is Some
            && (statement->from[0].table->Some_0.arguments || statement->from[0].table->Some_0.hints
            > 0 || statement->from[0].table->Some_0.version
            || statement->from[0].table->Some_0.partitions > 0) ==> translation(statement) is Err,
        statement is Select && (exists|at: int|
            0 <= at < statement->projection.len() && item_offence(
                #[trigger] statement->projection[at],
            ) is Some) ==> translation(statement) is Err,
{
    if statement is Select {
        let items = statement->projection;
        if exists|at: int| 0 <= at < items.len() && item_offence(#[trigger] items[at]) is Some {
            let at = choose|at: int|
                0 <= at < items.len() && item_offence(#[trigger] items[at]) is Some;
            lemma_offence_found(items, at);
        }
    }
}

/// Where some item up to `at` is not taken, there is a first such item.
proof fn lemma_offence_found(items: Seq<ItemShape>, at: int)
    requires
        0 <= at < items.len(),
        item_offence(items[at]) is Some,
    ensures
        first_offence(items) is Some,
    decreases at,
{
    if exists|before: int| 0 <= before < at && item_offence(#[trigger] items[before]) is Some {
        let before = choose|before: int|
            0 <= before < at && item_offence(#[trigger] items[before]) is Some;
        lemma_offence_found(items, before);
    } else {
        assert(is_first_offence(items, at));
        lemma_first_offence(items, at);
    }
}

fn find_query_offence(clauses: &QueryClauses) -> (found: Option<UnsupportedConstruct>)
    ensures
        found == query_offence(*clauses),
{
    if clauses.with {
        Some(UnsupportedConstruct::With)
    } else if clauses.order_by > 0 {
        Some(UnsupportedConstruct::OrderBy)
    } else if clauses.limit {
        Some(UnsupportedConstruct::Limit)
    } else if clauses.limit_by > 0 {
        Some(UnsupportedConstruct::LimitBy)
    } else if clauses.offset {
        Some(UnsupportedConstruct::Offset)
    } else if clauses.fetch {
        Some(UnsupportedConstruct::Fetch)
    } else if clauses.locks > 0 {
        Some(UnsupportedConstruct::Lock)
    } else {
        None
    }
}

fn find_select_offence(clauses: &SelectClauses) -> (found: Option<UnsupportedConstruct>)
    ensures
        found == select_offence(*clauses),
{
    let grouped = match clauses.group_by {
        Some(count) => count > 0,
        None => true,
    };
    if clauses.distinct {
        Some(UnsupportedConstruct::Distinct)
    } else if clauses.top {
        Some(UnsupportedConstruct::Top)
    } else if clauses.into {
        Some(UnsupportedConstruct::Into)
    } else if clauses.lateral_views > 0 {
        Some(UnsupportedConstruct::LateralView)
    } else if grouped {
        Some(UnsupportedConstruct::GroupBy)
    } else if clauses.cluster_by > 0 {
        Some(UnsupportedConstruct::ClusterBy)
    } else if clauses.distribute_by > 0 {
        Some(UnsupportedConstruct::DistributeBy)
    } else if clauses.sort_by > 0 {
        Some(UnsupportedConstruct::SortBy)
    } else if clauses.having {
        Some(UnsupportedConstruct::Having)
    } else if clauses.named_window > 0 {
        Some(UnsupportedConstruct::Window)
    } else if clauses.qualify {
        Some(UnsupportedConstruct::Qualify)
    } else {
        None
    }
}

fn find_table(from: &Vec<FromTarget>) -> (found: Result<String, UnsupportedConstruct>)
    ensures
        match found {
            Ok(table) => target_table(targets_view(from@)) == Ok::<
                Seq<char>,
                UnsupportedConstruct,
            >(table@),
            Err(construct) => target_table(targets_view(from@)) == Err::<
                Seq<char>,
                UnsupportedConstruct,
            >(construct),
        },
{
    if from.len() == 0 {
        return Err(UnsupportedConstruct::MissingTable);
    }
    if from.len() > 1 {
        return Err(UnsupportedConstruct::MultipleTables);
    }
    let target = &from[0];
    assert(targets_view(from@)[0] == target@);
    if target.joins > 0 {
        return Err(UnsupportedConstruct::Join);
    }
    match &target.table {
        None => Err(UnsupportedConstruct::TableExpression),
        Some(table) => find_name(table),
    }
}

fn find_name(table: &TableReference) -> (found: Result<String, UnsupportedConstruct>)
    ensures
        match found {
            Ok(name) => table_name(table@) == Ok::<Seq<char>, UnsupportedConstruct>(name@),
            Err(construct) => table_name(table@) == Err::<Seq<char>, UnsupportedConstruct>(
                construct,
            ),
        },
{
    if table.arguments {
        Err(UnsupportedConstruct::TableArguments)
    } else if table.hints > 0 {
        Err(UnsupportedConstruct::TableHints)
    } else if table.version {
        Err(UnsupportedConstruct::TableVersion)
    } else if table.partitions > 0 {
        Err(UnsupportedConstruct::TablePartitions)
    } else if table.parts.len() == 0 {
        Err(UnsupportedConstruct::TableExpression)
    } else {
        let last = table.parts[table.parts.len() - 1].clone();
        assert(names_view(table.parts@).last() == last@);
        Ok(last)
    }
}

fn collect_columns(items: &Vec<ProjectionItem>) -> (found: Result<
    Vec<String>,
    UnsupportedConstruct,
>)
    ensures
        match found {
            Ok(names) => first_offence(items_view(items@)) is None && names_view(names@)
                == named_columns(items_view(items@)),
            Err(construct) => first_offence(items_view(items@)) == Some(construct),
        },
{
    let ghost shapes = items_view(items@);
    let mut names: Vec<String> = Vec::new();
    let mut i: usize = 0;
    assert(shapes.take(0).filter(is_column()) =~= Seq::<ItemShape>::empty()) by {
        reveal(Seq::filter);
    }
    assert(names_view(names@) =~= shapes.take(0).filter(is_column()).map_values(column_name()));
    while i < items.len()
        invariant
            i <= items@.len(),
            shapes == items_view(items@),
            forall|before: int| 0 <= before < i ==> item_offence(#[trigger] shapes[before]) is None,
            names_view(names@) == shapes.take(i as int).filter(is_column()).map_values(
                column_name(),
            ),
        decreases items@.len() - i,
    {
        let ghost before = names@;
        let ghost kept = shapes.take(i as int).filter(is_column());
        proof {
            let next = shapes.take(i + 1);
            assert(next.drop_last() =~= shapes.take(i as int));
            assert(next.last() == items@[i as int]@);
            reveal(Seq::filter);
        }
        match &items[i] {
            ProjectionItem::Column(name) => {
                names.push(name.clone());
                assert(names_view(names@) =~= names_view(before).push(name@));
                assert(kept.push(shapes[i as int]).map_values(column_name()) =~= kept.map_values(
                    column_name(),
                ).push(name@));
            },
            ProjectionItem::Wildcard(options) => {
                if options.exclude || options.except || options.rename || options.replace {
                    proof {
                        lemma_first_offence(shapes, i as int);
                    }
                    return Err(UnsupportedConstruct::WildcardOption);
                }
            },
            ProjectionItem::QualifiedWildcard => {
                proof {
                    lemma_first_offence(shapes, i as int);
                }
                return Err(UnsupportedConstruct::QualifiedWildcard);
            },
            ProjectionItem::Expression => {
                proof {
                    lemma_first_offence(shapes, i as int);
                }
                return Err(UnsupportedConstruct::Expression);
            },
            ProjectionItem::Aliased => {
                proof {
                    lemma_first_offence(shapes, i as int);
                }
                return Err(UnsupportedConstruct::Alias);
            },
        }
        i += 1;
    }
    assert(shapes.take(items@.len() as int) =~= shapes);
    Ok(names)
}

/// The first item that is not taken decides the offence.
proof fn lemma_first_offence(items: Seq<ItemShape>, at: int)
    requires
        is_first_offence(items, at),
    ensures
        first_offence(items) == item_offence(items[at]),
{
    let chosen = choose|other: int| is_first_offence(items, other);
    if chosen < at {
        assert(item_offence(items[chosen]) is None);
    }
    if at < chosen {
        assert(item_offence(items[at]) is None);
    }
}

/// Translates one parsed statement. The statement is a query of one select
/// from one plain table, without a join and without a further clause, whose
/// select list holds plain columns and wildcards only and whose `WHERE`
/// clause, if it has one, is a range predicate: then the query is the
/// table's name (the last part of it) and the plain columns in the order
/// written, or every column where none is named. Otherwise the first
/// construct that is not supported is returned.
pub fn translate(statement: &ParsedStatement) -> (outcome: Result<SqlQuery, UnsupportedConstruct>)
    ensures
        outcome_view(outcome) == translation(statement@),
{
    match statement {
        ParsedStatement::Other => Err(UnsupportedConstruct::Statement),
        ParsedStatement::CompoundQuery => Err(UnsupportedConstruct::CompoundQuery),
        ParsedStatement::Select { query_clauses, select_clauses, projection, from, filter } => {
            match find_query_offence(query_clauses) {
                Some(construct) => {
                    return Err(construct);
                },
                None => {},
            }
            match find_select_offence(select_clauses) {
                Some(construct) => {
                    return Err(construct);
                },
                None => {},
            }
            match filter {
                Filter::Other => {
                    return Err(UnsupportedConstruct::Predicate);
                },
                _ => {},
            }
            let table = match find_table(from) {
                Err(construct) => {
                    return Err(construct);
                },
                Ok(table) => table,
            };
            let names = match collect_columns(projection) {
                Err(construct) => {
                    return Err(construct);
                },
                Ok(names) => names,
            };
            if names.len() > 0 {
                Ok(SqlQuery::Select(Fields::Columns(names), table))
            } else {
                Ok(SqlQuery::Select(Fields::All, table))
            }
        },
    }
}

/// Translates every statement of a list, each by itself: a statement that is
/// not supported does not stop the translation of those after it.
pub fn translate_all(statements: &Vec<ParsedStatement>) -> (outcomes: Vec<
    Result<SqlQuery, UnsupportedConstruct>,
>)
    ensures
        outcomes@.len() == statements@.len(),
        forall|at: int|
            0 <= at < statements@.len() ==> outcome_view(#[trigger] outcomes@[at]) == translation(
                statements@[at]@,
            ),
{
    let mut outcomes: Vec<Result<SqlQuery, UnsupportedConstruct>> = Vec::new();
    let mut i: usize = 0;
    while i < statements.len()
        invariant
            i <= statements@.len(),
            outcomes@.len() == i,
            forall|at: int|
                0 <= at < i ==> outcome_view(#[trigger] outcomes@[at]) == translation(
                    statements@[at]@,
                ),
        decreases statements@.len() - i,
    {
        outcomes.push(translate(&statements[i]));
        i += 1;
    }
    outcomes
}

/// Parses a text and translates each of its statements, in source order. The
/// text is parsed as a whole, so a text that does not parse yields the
/// parser's message and no translation. A text that is not handed to the
/// parser yields the words of its refusal.
pub fn parse_sql(sql: &str) -> (outcome: Result<
    Vec<Result<SqlQuery, UnsupportedConstruct>>,
    ParseError,
>)
    ensures
        is_translation(outcome, sql@),
{
    match read_sql(sql) {
        Err(error) => Err(error),
        Ok(statements) => {
            let outcomes = translate_all(&statements);
            assert(outcomes_view(outcomes@) =~= parsed_text(sql@)->Ok_0.map_values(
                |statement: StatementShape| translation(statement),
            ));
            Ok(outcomes)
        },
    }
}

} // verus!

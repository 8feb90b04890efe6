//! Reads SQL text into parsed statements.

use vstd::prelude::*;
use sqlparser::ast::{SelectItem, Statement, TableWithJoins};
use crate::limits::{examine, refusal, refusal_text};
use crate::sql_ast::{
    error_message, error_text, filter_of, from_of, item_shape, parse_outcome, parse_statements,
    projection_of, query_clauses, query_clauses_of, query_of, query_select, read_item,
    read_target, select_clauses, select_clauses_of, select_filter, select_from, select_of,
    select_projection, statement_query, target_shape,
};
use crate::statement::{
    items_view, targets_view, FromTarget, ParsedStatement, ProjectionItem, StatementShape,
};

verus! {

/// The text did not parse, or was not handed to the parser. No statement of
/// it is translated.
#[derive(Debug, PartialEq, Eq)]
pub struct ParseError {
    /// What the parser said, or why the text was not handed to it.
    pub message: String,
}

impl View for ParseError {
    type V = Seq<char>;

    open spec fn view(&self) -> Seq<char> {
        self.message@
    }
}

/// What the translator reads of a statement of the syntax tree.
pub open spec fn statement_shape(statement: Statement) -> StatementShape {
    match query_of(statement) {
        None => StatementShape::Other,
        Some(query) => match select_of(query) {
            None => StatementShape::CompoundQuery,
            Some(select) => StatementShape::Select {
                query_clauses: query_clauses_of(query),
                select_clauses: select_clauses_of(select),
                projection: projection_of(select).map_values(|item: SelectItem| item_shape(item)),
                from: from_of(select).map_values(|target: TableWithJoins| target_shape(target)),
                filter: filter_of(select),
            },
        },
    }
}

/// The statements of a text in source order; or why the text is not handed
/// to the parser; or the parser's message where the text does not parse.
pub open spec fn parsed_text(sql: Seq<char>) -> Result<Seq<StatementShape>, Seq<char>> {
    match refusal(sql) {
        Some(reason) => Err(refusal_text(reason)),
        None => match parse_outcome(sql) {
            Ok(statements) => Ok(
                statements.map_values(|statement: Statement| statement_shape(statement)),
            ),
            Err(error) => Err(error_text(error)),
        },
    }
}

/// The values of a list of parsed statements.
pub open spec fn statements_view(statements: Seq<ParsedStatement>) -> Seq<StatementShape> {
    statements.map_values(|statement: ParsedStatement| statement@)
}

/// The value of what reading a text gave.
pub open spec fn reading_view(outcome: Result<Vec<ParsedStatement>, ParseError>) -> Result<
    Seq<StatementShape>,
    Seq<char>,
> {
    match outcome {
        Ok(statements) => Ok(statements_view(statements@)),
        Err(error) => Err(error@),
    }
}

fn read_items(items: &Vec<SelectItem>) -> (read: Vec<ProjectionItem>)
    ensures
        items_view(read@) == items@.map_values(|item: SelectItem| item_shape(item)),
{
    let mut read: Vec<ProjectionItem> = Vec::new();
    let mut i: usize = 0;
    while i < items.len()
        invariant
            i <= items@.len(),
            read@.len() == i,
            forall|at: int| 0 <= at < i ==> read@[at]@ == item_shape(items@[at]),
        decreases items@.len() - i,
    {
        read.push(read_item(&items[i]));
        i += 1;
    }
    assert(items_view(read@) =~= items@.map_values(|item: SelectItem| item_shape(item)));
    read
}

fn read_targets(targets: &Vec<TableWithJoins>) -> (read: Vec<FromTarget>)
    ensures
        targets_view(read@) == targets@.map_values(
            |target: TableWithJoins| target_shape(target),
        ),
{
    let mut read: Vec<FromTarget> = Vec::new();
    let mut i: usize = 0;
    while i < targets.len()
        invariant
            i <= targets@.len(),
            read@.len() == i,
            forall|at: int| 0 <= at < i ==> read@[at]@ == target_shape(targets@[at]),
        decreases targets@.len() - i,
    {
        read.push(read_target(&targets[i]));
        i += 1;
    }
    assert(targets_view(read@) =~= targets@.map_values(
        |target: TableWithJoins| target_shape(target),
    ));
    read
}

/// Reads one statement of the syntax tree.
fn read_statement(statement: &Statement) -> (read: ParsedStatement)
    ensures
        read@ == statement_shape(*statement),
{
    match statement_query(statement) {
        None => ParsedStatement::Other,
        Some(query) => match query_select(query) {
            None => ParsedStatement::CompoundQuery,
            Some(select) => ParsedStatement::Select {
                query_clauses: query_clauses(query),
                select_clauses: select_clauses(select),
                projection: read_items(select_projection(select)),
                from: read_targets(select_from(select)),
                filter: select_filter(select),
            },
        },
    }
}

/// Parses a text of one or more statements. The text is parsed as a whole:
/// where it does not parse, no statement is handed out. A text that nests
/// too deeply for the parser, or that may hold a statement on which the
/// parser fails, is not parsed and is reported with the words of its
/// refusal.
pub fn read_sql(sql: &str) -> (outcome: Result<Vec<ParsedStatement>, ParseError>)
    ensures
        reading_view(outcome) == parsed_text(sql@),
{
    match examine(sql) {
        Some(reason) => {
            return Err(ParseError { message: reason.text().to_owned() });
        },
        None => {},
    }
    match parse_statements(sql) {
        Err(error) => Err(ParseError { message: error_message(&error) }),
        Ok(statements) => {
            let mut read: Vec<ParsedStatement> = Vec::new();
            let mut i: usize = 0;
            while i < statements.len()
                invariant
                    i <= statements@.len(),
                    read@.len() == i,
                    forall|at: int| 0 <= at < i ==> read@[at]@ == statement_shape(statements@[at]),
                decreases statements@.len() - i,
            {
                read.push(read_statement(&statements[i]));
                i += 1;
            }
            assert(statements_view(read@) =~= statements@.map_values(
                |statement: Statement| statement_shape(statement),
            ));
            Ok(read)
        },
    }
}

} // verus!

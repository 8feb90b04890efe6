//! The parser and its syntax tree. The tree is read through the functions
//! below, one step each; nothing here is proved.

use vstd::prelude::*;
use sqlparser::ast::{
    Expr, GroupByExpr, Query, Select, SelectItem, SetExpr, Statement, TableFactor, TableWithJoins,
};
use sqlparser::dialect::GenericDialect;
use sqlparser::keywords::Keyword;
use sqlparser::parser::{Parser, ParserError};
use sqlparser::tokenizer::Token;
use crate::limits::refusal;
use crate::statement::{
    Filter, FromTarget, ItemShape, ProjectionItem, QueryClauses, SelectClauses, TableReference,
    TargetShape, WildcardOptions,
};

verus! {

/// `sqlparser::ast::Statement`, one parsed statement. Opaque.
#[verifier::external_type_specification]
#[verifier::external_body]
pub struct ExStatement(sqlparser::ast::Statement);

/// `sqlparser::ast::Query`, a query with its clauses. Opaque.
#[verifier::external_type_specification]
#[verifier::external_body]
pub struct ExQuery(sqlparser::ast::Query);

/// `sqlparser::ast::Select`, one plain select. Opaque.
#[verifier::external_type_specification]
#[verifier::external_body]
pub struct ExSelect(sqlparser::ast::Select);

/// `sqlparser::ast::SelectItem`, one item of a select list. Opaque.
#[verifier::external_type_specification]
#[verifier::external_body]
pub struct ExSelectItem(sqlparser::ast::SelectItem);

/// `sqlparser::ast::TableWithJoins`, one target of a `FROM` clause. Opaque.
#[verifier::external_type_specification]
#[verifier::external_body]
pub struct ExTableWithJoins(sqlparser::ast::TableWithJoins);

/// `sqlparser::parser::ParserError`, why a text did not parse. Opaque.
#[verifier::external_type_specification]
#[verifier::external_body]
pub struct ExParserError(sqlparser::parser::ParserError);

/// The upper-case form of a text, as `str::to_uppercase` gives it. The
/// parser's tokenizer finds a keyword by comparing the upper-case form of a
/// word with the keyword.
pub uninterp spec fn uppercased(text: Seq<char>) -> Seq<char>;

/// Whether the tokenizer takes an unquoted word for a keyword: whether
/// `Token::make_word` gives it another keyword than `Keyword::NoKeyword`.
pub uninterp spec fn keyword_word(word: Seq<char>) -> bool;

/// What `Parser::parse_sql` returns for a text in the generic dialect.
pub uninterp spec fn parse_outcome(sql: Seq<char>) -> Result<Seq<Statement>, ParserError>;

/// The message that a `ParserError` displays.
pub uninterp spec fn error_text(error: ParserError) -> Seq<char>;

/// The query of a `Statement::Query`; `None` for every other variant.
pub uninterp spec fn query_of(statement: Statement) -> Option<Query>;

/// The select of a query whose body is a `SetExpr::Select`; `None` for every
/// other body.
pub uninterp spec fn select_of(query: Query) -> Option<Select>;

/// Which of the fields of a `Query` beside `body` hold something, and how
/// many items its lists hold.
pub uninterp spec fn query_clauses_of(query: Query) -> QueryClauses;

/// Which of the fields of a `Select` beside `projection`, `from` and
/// `selection` hold something, and how many items its lists hold.
pub uninterp spec fn select_clauses_of(select: Select) -> SelectClauses;

/// The field `projection` of a `Select`.
pub uninterp spec fn projection_of(select: Select) -> Seq<SelectItem>;

/// The field `from` of a `Select`.
pub uninterp spec fn from_of(select: Select) -> Seq<TableWithJoins>;

/// The kind of the field `selection` of a `Select`.
pub uninterp spec fn filter_of(select: Select) -> Filter;

/// The variant of a `SelectItem`, with the identifier's value where the item
/// is an unnamed expression that is a plain identifier, and with which of
/// its options are there where it is a wildcard.
pub uninterp spec fn item_shape(item: SelectItem) -> ItemShape;

/// Of a target whose relation is a `TableFactor::Table`: the parts of its
/// name, whether it has an alias, arguments and a version, and how many
/// hints and partitions. Of every target the number of its joins.
pub uninterp spec fn target_shape(target: TableWithJoins) -> TargetShape;

/// Calls `str::to_uppercase` of std, which replaces each character by its
/// upper-case form, one character or several. The contract names the result.
#[verifier::external_body]
pub(crate) fn uppercase(text: &str) -> (upper: String)
    ensures
        upper@ == uppercased(text@),
{
    text.to_uppercase()
}

/// Calls `sqlparser::tokenizer::Token::make_word` on the characters from
/// `from` up to `to` as an unquoted word, as the tokenizer does for each word
/// of a text, and tells `Keyword::NoKeyword` from the other keywords. The
/// contract names the result.
#[verifier::external_body]
pub(crate) fn is_keyword(text: &Vec<char>, from: usize, to: usize) -> (keyword: bool)
    requires
        from <= to <= text@.len(),
    ensures
        keyword == keyword_word(text@.subrange(from as int, to as int)),
{
    let word: String = text[from..to].iter().collect();
    match Token::make_word(&word, None) {
        Token::Word(made) => match made.keyword {
            Keyword::NoKeyword => false,
            _ => true,
        },
        _ => false,
    }
}

/// Calls `sqlparser::parser::Parser::parse_sql` with `GenericDialect`. The
/// parser reads nothing but the text, so its outcome is a function of the
/// text, which the contract names.
///
/// The call is made only on a text that `refusal` lets through, because on
/// other texts the parser may fail, overflow the stack or run beyond any
/// useful time:
/// - In `parse_grant` and `parse_revoke` it forces a result behind the
///   keywords `GRANTED BY`, and in `parse_create_table` behind the keyword
///   `AUTO_INCREMENT`. These are reached only from the keywords `GRANT`,
///   `REVOKE` and `CREATE`. A word is a keyword where its upper-case form is,
///   so a text whose upper-case form does not spell both has no such
///   statement.
/// - It is a recursive descent. It limits the depth of statements, of
///   expressions and of queries together to 50, and it calls itself without
///   that limit behind a sign, `NOT` or `INTERVAL`, for a nested type, and
///   for a parenthesised `FROM` target. Every such call is made on a keyword
///   or on a sign, never on a name, a number or a comma, so the parser nests
///   no deeper than the text holds nesting tokens. The largest frames are
///   those of a statement inside a statement (`parse_explain`,
///   `parse_prepare`, `parse_create_procedure`) and of an opening bracket.
///   The limits of `refusal` keep the depth within what a stack of 2 MB
///   holds, the stack of a thread as std starts one; on a smaller stack the
///   call may still overflow.
/// - In `parse_prefix` it tries a typed literal first and, where that fails,
///   reads the same tokens again. Behind `INTERVAL` both readings descend
///   into the operand, so a chain of `INTERVAL` that ends in a failure is
///   read twice at each level. The limit on `INTERVAL` keeps this to 16
///   readings. The other attempts that it rewinds (a derived table behind an
///   opening parenthesis, a statement behind `EXPLAIN`) are bounded by the
///   limits on brackets and on statement words.
#[verifier::external_body]
pub(crate) fn parse_statements(sql: &str) -> (outcome: Result<Vec<Statement>, ParserError>)
    requires
        refusal(sql@) is None,
    ensures
        match outcome {
            Ok(statements) => parse_outcome(sql@) == Ok::<Seq<Statement>, ParserError>(
                statements@,
            ),
            Err(error) => parse_outcome(sql@) == Err::<Seq<Statement>, ParserError>(error),
        },
{
    Parser::parse_sql(&GenericDialect {}, sql)
}

/// Renders a `ParserError` through its `Display` impl. The contract names the
/// text.
#[verifier::external_body]
pub(crate) fn error_message(error: &ParserError) -> (message: String)
    ensures
        message@ == error_text(*error),
{
    error.to_string()
}

/// Tells `Statement::Query` from the other variants of `Statement` and hands
/// out the query it holds.
#[verifier::external_body]
pub(crate) fn statement_query(statement: &Statement) -> (query: Option<&Query>)
    ensures
        match query {
            Some(held) => query_of(*statement) == Some(*held),
            None => query_of(*statement) is None,
        },
{
    match statement {
        Statement::Query(query) => Some(query.as_ref()),
        _ => None,
    }
}

/// Tells `SetExpr::Select` from the other variants of a query's `body` and
/// hands out the select it holds.
#[verifier::external_body]
pub(crate) fn query_select(query: &Query) -> (select: Option<&Select>)
    ensures
        match select {
            Some(held) => select_of(*query) == Some(*held),
            None => select_of(*query) is None,
        },
{
    match query.body.as_ref() {
        SetExpr::Select(select) => Some(select.as_ref()),
        _ => None,
    }
}

/// Reads the fields of a `Query` beside `body`: of each `Option` whether it
/// is `Some`, of each `Vec` its length.
#[verifier::external_body]
pub(crate) fn query_clauses(query: &Query) -> (clauses: QueryClauses)
    ensures
        clauses == query_clauses_of(*query),
{
    QueryClauses {
        with: query.with.is_some(),
        order_by: query.order_by.len(),
        limit: query.limit.is_some(),
        limit_by: query.limit_by.len(),
        offset: query.offset.is_some(),
        fetch: query.fetch.is_some(),
        locks: query.locks.len(),
    }
}

/// Reads the fields of a `Select` beside `projection`, `from` and
/// `selection`: of each `Option` whether it is `Some`, of each `Vec` its
/// length, and of `group_by` the length of `GroupByExpr::Expressions`.
#[verifier::external_body]
pub(crate) fn select_clauses(select: &Select) -> (clauses: SelectClauses)
    ensures
        clauses == select_clauses_of(*select),
{
    SelectClauses {
        distinct: select.distinct.is_some(),
        top: select.top.is_some(),
        into: select.into.is_some(),
        lateral_views: select.lateral_views.len(),
        group_by: match &select.group_by { GroupByExpr::All => None, GroupByExpr::Expressions(list) => Some(list.len()) },
        cluster_by: select.cluster_by.len(),
        distribute_by: select.distribute_by.len(),
        sort_by: select.sort_by.len(),
        having: select.having.is_some(),
        named_window: select.named_window.len(),
        qualify: select.qualify.is_some(),
    }
}

/// Hands out the field `projection` of a `Select`.
#[verifier::external_body]
pub(crate) fn select_projection(select: &Select) -> (items: &Vec<SelectItem>)
    ensures
        items@ == projection_of(*select),
{
    &select.projection
}

/// Hands out the field `from` of a `Select`.
#[verifier::external_body]
pub(crate) fn select_from(select: &Select) -> (targets: &Vec<TableWithJoins>)
    ensures
        targets@ == from_of(*select),
{
    &select.from
}

/// Tells apart a `Select` without `selection`, one whose `selection` is an
/// `Expr::Between`, and one with any other `selection`.
#[verifier::external_body]
pub(crate) fn select_filter(select: &Select) -> (filter: Filter)
    ensures
        filter == filter_of(*select),
{
    match &select.selection {
        None => Filter::Absent,
        Some(Expr::Between { .. }) => Filter::Between,
        Some(_) => Filter::Other,
    }
}

/// Tells the variants of `SelectItem` apart, and among the unnamed
/// expressions `Expr::Identifier`, whose `value` it copies. Of a wildcard it
/// reads which of the four fields of `WildcardAdditionalOptions` are `Some`.
#[verifier::external_body]
pub(crate) fn read_item(item: &SelectItem) -> (read: ProjectionItem)
    ensures
        read@ == item_shape(*item),
{
    match item {
        SelectItem::UnnamedExpr(Expr::Identifier(ident)) => ProjectionItem::Column(
            ident.value.clone(),
        ),
        SelectItem::UnnamedExpr(_) => ProjectionItem::Expression,
        SelectItem::ExprWithAlias { .. } => ProjectionItem::Aliased,
        SelectItem::QualifiedWildcard(..) => ProjectionItem::QualifiedWildcard,
        SelectItem::Wildcard(options) => ProjectionItem::Wildcard(WildcardOptions {
            exclude: options.opt_exclude.is_some(),
            except: options.opt_except.is_some(),
            rename: options.opt_rename.is_some(),
            replace: options.opt_replace.is_some(),
        }),
    }
}

/// Tells `TableFactor::Table` from the other variants of a target's
/// `relation`. Of a table it reads all six fields: it copies the `value` of
/// each part of `name`, says whether `alias`, `args` and `version` are
/// `Some`, and counts `with_hints` and `partitions`. It counts the target's
/// `joins`.
#[verifier::external_body]
pub(crate) fn read_target(target: &TableWithJoins) -> (read: FromTarget)
    ensures
        read@ == target_shape(*target),
{
    let table = match &target.relation {
        TableFactor::Table { name, alias, args, with_hints, version, partitions } => {
            Some(TableReference {
                parts: name.0.iter().map(|part| part.value.clone()).collect(),
                alias: alias.is_some(),
                arguments: args.is_some(),
                hints: with_hints.len(),
                version: version.is_some(),
                partitions: partitions.len(),
            })
        },
        _ => None,
    };
    FromTarget { table, joins: target.joins.len() }
}

} // verus!

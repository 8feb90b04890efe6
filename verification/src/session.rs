//! One step of an interactive session: from a line of input to what is to be
//! shown for it.

use vstd::prelude::*;
use crate::engine::{execute, get_result, ResultSet};
use crate::query::Selection;
use crate::reader::ParseError;
use crate::store::{database_view, Columns, Database, Tables};
use crate::translate::{outcome_view, parse_sql, translated_text, UnsupportedConstruct};
use crate::value::{names_view, rows_view, SqlDataType};

verus! {

/// What one statement of a line comes to: the header and rows of its result,
/// or the construct for which it was refused.
pub type Answer = Result<(Vec<String>, Vec<Vec<SqlDataType>>), UnsupportedConstruct>;

/// The result of a translated statement on a database; a refusal stays one.
pub open spec fn answer_to(
    outcome: Result<Selection, UnsupportedConstruct>,
    db: Database,
) -> Result<ResultSet, UnsupportedConstruct> {
    match outcome {
        Ok(query) => Ok(execute(query, db)),
        Err(construct) => Err(construct),
    }
}

/// What a line of input comes to on a database: for each of its statements,
/// in source order, its result or its refusal; or why the line is not handed
/// to the parser; or the parser's message where the line does not parse.
pub open spec fn answers_to(sql: Seq<char>, db: Database) -> Result<
    Seq<Result<ResultSet, UnsupportedConstruct>>,
    Seq<char>,
> {
    match translated_text(sql) {
        Ok(outcomes) => Ok(
            outcomes.map_values(
                |outcome: Result<Selection, UnsupportedConstruct>| answer_to(outcome, db),
            ),
        ),
        Err(message) => Err(message),
    }
}

/// The value of one answer.
pub open spec fn answer_view(answer: Answer) -> Result<ResultSet, UnsupportedConstruct> {
    match answer {
        Ok(out) => Ok(ResultSet { header: names_view(out.0@), rows: rows_view(out.1@) }),
        Err(construct) => Err(construct),
    }
}

/// The value of what a line came to.
pub open spec fn answers_view(outcome: Result<Vec<Answer>, ParseError>) -> Result<
    Seq<Result<ResultSet, UnsupportedConstruct>>,
    Seq<char>,
> {
    match outcome {
        Ok(answers) => Ok(answers@.map_values(|answer: Answer| answer_view(answer))),
        Err(error) => Err(error@),
    }
}

/// Answers one line of input. Each statement of the line is translated and
/// executed by itself, so a statement that is refused keeps no other from its
/// result; a line that does not parse, or is not handed to the parser,
/// yields the message alone. The database is read and never changed.
pub fn answer(input: &str, tables: &Tables, columns: &Columns) -> (outcome: Result<
    Vec<Answer>,
    ParseError,
>)
    ensures
        answers_view(outcome) == answers_to(input@, database_view(tables, columns)),
{
    let ghost db = database_view(tables, columns);
    match parse_sql(input) {
        Err(error) => Err(error),
        Ok(translated) => {
            let ghost expected = translated_text(input@)->Ok_0;
            let ghost outcomes = translated@;
            let mut answers: Vec<Answer> = Vec::new();
            for next in iter: translated.into_iter()
                invariant
                    db == database_view(tables, columns),
                    iter.seq() == outcomes,
                    outcomes.len() == expected.len(),
                    forall|at: int|
                        0 <= at < outcomes.len() ==> outcome_view(#[trigger] outcomes[at])
                            == expected[at],
                    answers@.len() == iter.index(),
                    forall|at: int|
                        0 <= at < answers@.len() ==> answer_view(#[trigger] answers@[at])
                            == answer_to(expected[at], db),
            {
                match next {
                    Ok(query) => {
                        let ghost selection = query@;
                        let out = get_result(query, tables, columns);
                        assert(answer_view(Ok::<
                            (Vec<String>, Vec<Vec<SqlDataType>>),
                            UnsupportedConstruct,
                        >(out)) == answer_to(
                            Ok::<Selection, UnsupportedConstruct>(selection),
                            db,
                        ));
                        answers.push(Ok(out));
                    },
                    Err(construct) => {
                        answers.push(Err(construct));
                    },
                }
            }
            assert(answers@.map_values(|answer: Answer| answer_view(answer))
                =~= expected.map_values(
                |outcome: Result<Selection, UnsupportedConstruct>| answer_to(outcome, db),
            ));
            Ok(answers)
        },
    }
}

} // verus!

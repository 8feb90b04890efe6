//! Cells as text, for whoever prints a result.

use vstd::prelude::*;
use vstd::string::StringExecFns;
use crate::value::{names_view, CellValue, SqlDataType};

verus! {

/// The character of a decimal digit.
pub open spec fn digit_char(digit: nat) -> char {
    if digit == 0 {
        '0'
    } else if digit == 1 {
        '1'
    } else if digit == 2 {
        '2'
    } else if digit == 3 {
        '3'
    } else if digit == 4 {
        '4'
    } else if digit == 5 {
        '5'
    } else if digit == 6 {
        '6'
    } else if digit == 7 {
        '7'
    } else if digit == 8 {
        '8'
    } else {
        '9'
    }
}

/// A number in decimal digits, without leading zeros.
pub open spec fn decimal(number: nat) -> Seq<char>
    decreases number,
{
    if number < 10 {
        seq![digit_char(number)]
    } else {
        decimal(number / 10).push(digit_char(number % 10))
    }
}

/// A cell as text: a text as it is, a number in decimal digits, a boolean as
/// `true` or `false`, and null as `Null`.
pub open spec fn cell_text(cell: CellValue) -> Seq<char> {
    match cell {
        CellValue::Text(text) => text,
        CellValue::Integer(number) => decimal(number),
        CellValue::Boolean(truth) => if truth {
            "true"@
        } else {
            "false"@
        },
        CellValue::Null => "Null"@,
    }
}

/// The cells of a row as text.
pub open spec fn row_text(row: Seq<SqlDataType>) -> Seq<Seq<char>> {
    row.map_values(|cell: SqlDataType| cell_text(cell@))
}

/// The rows of a result as text.
pub open spec fn rows_text(rows: Seq<Vec<SqlDataType>>) -> Seq<Seq<Seq<char>>> {
    rows.map_values(|row: Vec<SqlDataType>| row_text(row@))
}

/// The texts of a list of rows of text.
pub open spec fn lines_view(lines: Seq<Vec<String>>) -> Seq<Seq<Seq<char>>> {
    lines.map_values(|line: Vec<String>| names_view(line@))
}

fn digit_text(digit: usize) -> (text: &'static str)
    requires
        digit < 10,
    ensures
        text@ == seq![digit_char(digit as nat)],
{
    proof {
        reveal_strlit("0");
        reveal_strlit("1");
        reveal_strlit("2");
        reveal_strlit("3");
        reveal_strlit("4");
        reveal_strlit("5");
        reveal_strlit("6");
        reveal_strlit("7");
        reveal_strlit("8");
        reveal_strlit("9");
    }
    let text = if digit == 0 {
        "0"
    } else if digit == 1 {
        "1"
    } else if digit == 2 {
        "2"
    } else if digit == 3 {
        "3"
    } else if digit == 4 {
        "4"
    } else if digit == 5 {
        "5"
    } else if digit == 6 {
        "6"
    } else if digit == 7 {
        "7"
    } else if digit == 8 {
        "8"
    } else {
        "9"
    };
    assert(text@ =~= seq![digit_char(digit as nat)]);
    text
}

/// Writes a number in decimal digits.
pub fn decimal_text(number: usize) -> (text: String)
    ensures
        text@ == decimal(number as nat),
    decreases number,
{
    if number < 10 {
        digit_text(number).to_owned()
    } else {
        let mut text = decimal_text(number / 10);
        text.append(digit_text(number % 10));
        assert(text@ =~= decimal(number as nat));
        text
    }
}

impl SqlDataType {
    /// The cell as text.
    pub fn to_text(&self) -> (text: String)
        ensures
            text@ == cell_text(self@),
    {
        match self {
            SqlDataType::String(held) => held.clone(),
            SqlDataType::Usize(number) => decimal_text(*number),
            SqlDataType::Bool(truth) => if *truth {
                "true".to_owned()
            } else {
                "false".to_owned()
            },
            SqlDataType::Null => "Null".to_owned(),
        }
    }
}

/// The cells of a row as text, in the row's order.
pub fn render_row(row: &Vec<SqlDataType>) -> (line: Vec<String>)
    ensures
        names_view(line@) == row_text(row@),
{
    let mut line: Vec<String> = Vec::new();
    let mut i: usize = 0;
    while i < row.len()
        invariant
            i <= row@.len(),
            line@.len() == i,
            forall|at: int| 0 <= at < i ==> line@[at]@ == cell_text(row@[at]@),
        decreases row@.len() - i,
    {
        line.push(row[i].to_text());
        i += 1;
    }
    assert(names_view(line@) =~= row_text(row@));
    line
}

/// The rows of a result as text, in the result's order.
pub fn render_rows(rows: &Vec<Vec<SqlDataType>>) -> (lines: Vec<Vec<String>>)
    ensures
        lines_view(lines@) == rows_text(rows@),
{
    let mut lines: Vec<Vec<String>> = Vec::new();
    let mut i: usize = 0;
    while i < rows.len()
        invariant
            i <= rows@.len(),
            lines@.len() == i,
            forall|at: int| 0 <= at < i ==> names_view(lines@[at]@) == row_text(rows@[at]@),
        decreases rows@.len() - i,
    {
        lines.push(render_row(&rows[i]));
        i += 1;
    }
    assert(lines_view(lines@) =~= rows_text(rows@));
    lines
}

} // verus!

//! Cell values: the typed contents of one table position.

use vstd::prelude::*;

verus! {

/// The mathematical value of a cell.
pub enum CellValue {
    Text(Seq<char>),
    Integer(nat),
    Boolean(bool),
    Null,
}

/// One cell of a row. A column carries no declared type, so the cells of a
/// column may differ in variant from row to row.
#[derive(Debug, PartialEq, Eq)]
pub enum SqlDataType {
    String(String),
    Usize(usize),
    Bool(bool),
    Null,
}

impl View for SqlDataType {
    type V = CellValue;

    open spec fn view(&self) -> CellValue {
        match self {
            SqlDataType::String(s) => CellValue::Text(s@),
            SqlDataType::Usize(n) => CellValue::Integer(*n as nat),
            SqlDataType::Bool(b) => CellValue::Boolean(*b),
            SqlDataType::Null => CellValue::Null,
        }
    }
}

impl Clone for SqlDataType {
    fn clone(&self) -> (copy: Self)
        ensures
            copy == *self,
    {
        match self {
            SqlDataType::String(s) => SqlDataType::String(s.clone()),
            SqlDataType::Usize(n) => SqlDataType::Usize(*n),
            SqlDataType::Bool(b) => SqlDataType::Bool(*b),
            SqlDataType::Null => SqlDataType::Null,
        }
    }
}

impl Default for SqlDataType {
    fn default() -> (cell: Self)
        ensures
            cell@ == CellValue::Integer(0),
    {
        SqlDataType::Usize(0)
    }
}

impl From<String> for SqlDataType {
    fn from(value: String) -> (cell: Self) {
        SqlDataType::String(value)
    }
}

impl vstd::std_specs::convert::FromSpecImpl<String> for SqlDataType {
    open spec fn obeys_from_spec() -> bool {
        true
    }

    open spec fn from_spec(value: String) -> Self {
        SqlDataType::String(value)
    }
}

impl From<&str> for SqlDataType {
    fn from(value: &str) -> (cell: Self)
        ensures
            cell@ == CellValue::Text(value@),
    {
        SqlDataType::String(value.to_owned())
    }
}

/// Two strings of the same characters are not known to be the same value, so
/// the conversion from a string slice is specified by its own `ensures` alone.
impl vstd::std_specs::convert::FromSpecImpl<&str> for SqlDataType {
    open spec fn obeys_from_spec() -> bool {
        false
    }

    open spec fn from_spec(value: &str) -> Self {
        arbitrary()
    }
}

impl From<bool> for SqlDataType {
    fn from(value: bool) -> (cell: Self) {
        SqlDataType::Bool(value)
    }
}

impl vstd::std_specs::convert::FromSpecImpl<bool> for SqlDataType {
    open spec fn obeys_from_spec() -> bool {
        true
    }

    open spec fn from_spec(value: bool) -> Self {
        SqlDataType::Bool(value)
    }
}

impl From<usize> for SqlDataType {
    fn from(value: usize) -> (cell: Self) {
        SqlDataType::Usize(value)
    }
}

impl vstd::std_specs::convert::FromSpecImpl<usize> for SqlDataType {
    open spec fn obeys_from_spec() -> bool {
        true
    }

    open spec fn from_spec(value: usize) -> Self {
        SqlDataType::Usize(value)
    }
}

/// A cell that may be missing altogether, as distinct from one that is
/// present and null.
#[derive(Debug, PartialEq, Eq)]
pub enum SqlData {
    Missing,
    Present(SqlDataType),
}

impl Default for SqlData {
    fn default() -> (data: Self)
        ensures
            data is Missing,
    {
        SqlData::Missing
    }
}

impl Clone for SqlData {
    fn clone(&self) -> (copy: Self)
        ensures
            copy == *self,
    {
        match self {
            SqlData::Missing => SqlData::Missing,
            SqlData::Present(cell) => SqlData::Present(cell.clone()),
        }
    }
}

/// The values of a row's cells, position by position.
pub open spec fn row_view(cells: Seq<SqlDataType>) -> Seq<CellValue> {
    cells.map_values(|cell: SqlDataType| cell@)
}

/// The values of a sequence of rows.
pub open spec fn rows_view(rows: Seq<Vec<SqlDataType>>) -> Seq<Seq<CellValue>> {
    rows.map_values(|row: Vec<SqlDataType>| row_view(row@))
}

/// The characters of each of a sequence of names.
pub open spec fn names_view(names: Seq<String>) -> Seq<Seq<char>> {
    names.map_values(|name: String| name@)
}

/// Copies a row cell by cell.
pub fn clone_row(row: &Vec<SqlDataType>) -> (copy: Vec<SqlDataType>)
    ensures
        copy@ == row@,
{
    let mut copy: Vec<SqlDataType> = Vec::new();
    let mut i: usize = 0;
    while i < row.len()
        invariant
            i <= row.len(),
            copy@ == row@.subrange(0, i as int),
        decreases row.len() - i,
    {
        copy.push(row[i].clone());
        assert(copy@ =~= row@.subrange(0, i + 1));
        i += 1;
    }
    assert(row@.subrange(0, row.len() as int) =~= row@);
    copy
}

/// Copies a list of names.
pub fn clone_names(names: &Vec<String>) -> (copy: Vec<String>)
    ensures
        copy@ == names@,
{
    let mut copy: Vec<String> = Vec::new();
    let mut i: usize = 0;
    while i < names.len()
        invariant
            i <= names.len(),
            copy@ == names@.subrange(0, i as int),
        decreases names.len() - i,
    {
        copy.push(names[i].clone());
        assert(copy@ =~= names@.subrange(0, i + 1));
        i += 1;
    }
    assert(names@.subrange(0, names.len() as int) =~= names@);
    copy
}

} // verus!

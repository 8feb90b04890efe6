//! The execution engine: projects the rows of one table onto the columns that
//! a query asks for.

use vstd::prelude::*;
use crate::query::{Fields, Projection, Selection, SqlQuery};
use crate::store::{database_view, table_view, Columns, Database, Tables};
use crate::table_order::{key_order, lemma_key_order, ordered_rows};
use crate::value::{clone_names, clone_row, names_view, row_view, rows_view, CellValue, SqlDataType};

verus! {

/// What a query yields: the column names, and under them the rows.
pub struct ResultSet {
    pub header: Seq<Seq<char>>,
    pub rows: Seq<Seq<CellValue>>,
}

/// The rows of a table in ascending order of their keys.
pub open spec fn rows_by_key(table: Map<i32, Seq<CellValue>>) -> Seq<Seq<CellValue>> {
    key_order(table.dom()).map_values(|key: i32| table[key])
}

/// Whether a column is among the requested names.
pub open spec fn is_requested(requested: Seq<Seq<char>>) -> spec_fn(Seq<char>) -> bool {
    |column: Seq<char>| requested.contains(column)
}

/// Whether a cell stands under a requested column.
pub open spec fn under_requested(requested: Seq<Seq<char>>) -> spec_fn(
    (Seq<char>, CellValue),
) -> bool {
    |pair: (Seq<char>, CellValue)| requested.contains(pair.0)
}

/// The cell of a pair of column and cell.
pub open spec fn cell_of() -> spec_fn((Seq<char>, CellValue)) -> CellValue {
    |pair: (Seq<char>, CellValue)| pair.1
}

/// The columns of the schema that were requested, in schema order. How often
/// and in which order a name was requested makes no difference.
pub open spec fn header_of(schema: Seq<Seq<char>>, requested: Seq<Seq<char>>) -> Seq<Seq<char>> {
    schema.filter(is_requested(requested))
}

/// Each cell of a row beside the column it stands under.
pub open spec fn aligned(schema: Seq<Seq<char>>, row: Seq<CellValue>) -> Seq<
    (Seq<char>, CellValue),
> {
    Seq::new(
        if schema.len() <= row.len() {
            schema.len()
        } else {
            row.len()
        },
        |at: int| (schema[at], row[at]),
    )
}

/// The cells of a row that stand under a requested column, in schema order.
pub open spec fn cells_of(
    schema: Seq<Seq<char>>,
    requested: Seq<Seq<char>>,
    row: Seq<CellValue>,
) -> Seq<CellValue> {
    aligned(schema, row).filter(under_requested(requested)).map_values(cell_of())
}

/// The rows of a table, each cut down to the requested columns.
pub open spec fn project_rows(
    schema: Seq<Seq<char>>,
    requested: Seq<Seq<char>>,
    rows: Seq<Seq<CellValue>>,
) -> Seq<Seq<CellValue>> {
    rows.map_values(|row: Seq<CellValue>| cells_of(schema, requested, row))
}

/// What a query yields on a database. A table that the database does not know
/// yields no column and no row.
pub open spec fn execute(query: Selection, db: Database) -> ResultSet {
    if db.tables.contains_key(query.table) && db.schemas.contains_key(query.table) {
        let schema = db.schemas[query.table];
        let rows = rows_by_key(db.tables[query.table]);
        match query.projection {
            Projection::Every => ResultSet { header: schema, rows },
            Projection::Named(requested) => ResultSet {
                header: header_of(schema, requested),
                rows: project_rows(schema, requested, rows),
            },
        }
    } else {
        ResultSet { header: Seq::empty(), rows: Seq::empty() }
    }
}

/// Whether `name` is among `names`.
fn holds_name(names: &Vec<String>, name: &String) -> (held: bool)
    ensures
        held == names_view(names@).contains(name@),
{
    let mut i: usize = 0;
    while i < names.len()
        invariant
            i <= names@.len(),
            forall|k: int| 0 <= k < i ==> names@[k]@ != name@,
        decreases names@.len() - i,
    {
        if names[i] == *name {
            assert(names_view(names@)[i as int] == name@);
            return true;
        }
        i += 1;
    }
    false
}

/// For each column of the schema, whether it was requested.
fn requested_columns(schema: &Vec<String>, requested: &Vec<String>) -> (keep: Vec<bool>)
    ensures
        keep@.len() == schema@.len(),
        forall|at: int|
            0 <= at < schema@.len() ==> keep@[at] == names_view(requested@).contains(schema@[at]@),
{
    let mut keep: Vec<bool> = Vec::new();
    let mut i: usize = 0;
    while i < schema.len()
        invariant
            i <= schema@.len(),
            keep@.len() == i,
            forall|at: int|
                0 <= at < i ==> keep@[at] == names_view(requested@).contains(schema@[at]@),
        decreases schema@.len() - i,
    {
        keep.push(holds_name(requested, &schema[i]));
        i += 1;
    }
    keep
}

/// The requested columns of the schema, in schema order.
fn project_header(
    schema: &Vec<String>,
    keep: &Vec<bool>,
    Ghost(requested): Ghost<Seq<Seq<char>>>,
) -> (header: Vec<String>)
    requires
        keep@.len() == schema@.len(),
        forall|at: int| 0 <= at < schema@.len() ==> keep@[at] == requested.contains(schema@[at]@),
    ensures
        names_view(header@) == header_of(names_view(schema@), requested),
{
    let ghost columns = names_view(schema@);
    let mut header: Vec<String> = Vec::new();
    let mut i: usize = 0;
    assert(columns.take(0).filter(is_requested(requested)) =~= Seq::<Seq<char>>::empty()) by {
        reveal(Seq::filter);
    }
    assert(names_view(header@) =~= Seq::<Seq<char>>::empty());
    while i < schema.len()
        invariant
            i <= schema@.len(),
            columns == names_view(schema@),
            keep@.len() == schema@.len(),
            forall|at: int|
                0 <= at < schema@.len() ==> keep@[at] == requested.contains(schema@[at]@),
            names_view(header@) == columns.take(i as int).filter(is_requested(requested)),
        decreases schema@.len() - i,
    {
        let ghost before = header@;
        proof {
            let next = columns.take(i + 1);
            assert(next.drop_last() =~= columns.take(i as int));
            assert(next.last() == schema@[i as int]@);
            reveal(Seq::filter);
        }
        if keep[i] {
            header.push(schema[i].clone());
            assert(names_view(header@) =~= names_view(before).push(schema@[i as int]@));
        }
        i += 1;
    }
    assert(columns.take(schema@.len() as int) =~= columns);
    header
}

/// The cells of a row that stand under a requested column, in schema order.
fn project_row(
    row: &Vec<SqlDataType>,
    keep: &Vec<bool>,
    Ghost(schema): Ghost<Seq<Seq<char>>>,
    Ghost(requested): Ghost<Seq<Seq<char>>>,
) -> (cells: Vec<SqlDataType>)
    requires
        keep@.len() == schema.len(),
        forall|at: int| 0 <= at < schema.len() ==> keep@[at] == requested.contains(schema[at]),
    ensures
        row_view(cells@) == cells_of(schema, requested, row_view(row@)),
{
    let ghost pairs = aligned(schema, row_view(row@));
    let limit: usize = if keep.len() <= row.len() {
        keep.len()
    } else {
        row.len()
    };
    let mut cells: Vec<SqlDataType> = Vec::new();
    let mut i: usize = 0;
    assert(pairs.take(0).filter(under_requested(requested)) =~= Seq::<
        (Seq<char>, CellValue),
    >::empty()) by {
        reveal(Seq::filter);
    }
    assert(row_view(cells@) =~= pairs.take(0).filter(under_requested(requested)).map_values(
        cell_of(),
    ));
    while i < limit
        invariant
            i <= limit,
            limit == pairs.len(),
            limit <= row@.len(),
            limit <= keep@.len(),
            keep@.len() == schema.len(),
            pairs == aligned(schema, row_view(row@)),
            forall|at: int| 0 <= at < schema.len() ==> keep@[at] == requested.contains(schema[at]),
            row_view(cells@) == pairs.take(i as int).filter(under_requested(requested)).map_values(
                cell_of(),
            ),
        decreases limit - i,
    {
        let ghost before = cells@;
        let ghost kept = pairs.take(i as int).filter(under_requested(requested));
        proof {
            let next = pairs.take(i + 1);
            assert(next.drop_last() =~= pairs.take(i as int));
            assert(next.last() == (schema[i as int], row@[i as int]@));
            reveal(Seq::filter);
        }
        if keep[i] {
            cells.push(row[i].clone());
            assert(row_view(cells@) =~= row_view(before).push(row@[i as int]@));
            assert(kept.push(pairs[i as int]).map_values(cell_of()) =~= kept.map_values(
                cell_of(),
            ).push(row@[i as int]@));
        }
        i += 1;
    }
    assert(pairs.take(limit as int) =~= pairs);
    cells
}

/// Executes a query: the header, and under it the rows of the target table in
/// ascending order of their keys. A table that is missing from either mapping
/// yields an empty header and no row; a requested column that the schema does
/// not hold is passed over.
pub fn get_result(res: SqlQuery, tables: &Tables, columns: &Columns) -> (out: (
    Vec<String>,
    Vec<Vec<SqlDataType>>,
))
    ensures
        is_result(out, res@, database_view(tables, columns)),
{
    let ghost db = database_view(tables, columns);
    let SqlQuery::Select(fields, name) = res;
    let found_table = tables.get(&name);
    let found_schema = columns.get(&name);
    if found_table.is_none() || found_schema.is_none() {
        let header: Vec<String> = Vec::new();
        let rows: Vec<Vec<SqlDataType>> = Vec::new();
        assert(names_view(header@) =~= Seq::<Seq<char>>::empty());
        assert(rows_view(rows@) =~= Seq::<Seq<CellValue>>::empty());
        return (header, rows);
    }
    let table = found_table.unwrap();
    let schema = found_schema.unwrap();
    let ghost schema_names = names_view(schema@);
    let ghost stored = rows_by_key(table_view(*table));
    assert(db.schemas[name@] == schema_names);
    assert(db.tables[name@] == table_view(*table));
    let ordered = ordered_rows(table);
    proof {
        let keys = key_order(table@.dom());
        assert(table_view(*table).dom() =~= table@.dom());
        assert(ordered@.len() == stored.len());
        assert forall|at: int| 0 <= at < stored.len() implies stored[at] == row_view(
            (#[trigger] ordered@[at])@,
        ) by {
            assert(keys.contains(keys[at]));
            assert(table@.dom().contains(keys[at]));
        }
    }
    match fields {
        Fields::All => {
            let header = clone_names(schema);
            let mut rows: Vec<Vec<SqlDataType>> = Vec::new();
            let mut i: usize = 0;
            while i < ordered.len()
                invariant
                    i <= ordered@.len(),
                    ordered@.len() == stored.len(),
                    forall|at: int|
                        0 <= at < stored.len() ==> stored[at] == row_view(
                            (#[trigger] ordered@[at])@,
                        ),
                    rows_view(rows@) == stored.take(i as int),
                decreases ordered@.len() - i,
            {
                let ghost before = rows@;
                rows.push(clone_row(ordered[i]));
                assert(rows_view(rows@) =~= rows_view(before).push(stored[i as int]));
                assert(stored.take(i + 1) =~= stored.take(i as int).push(stored[i as int]));
                i += 1;
            }
            assert(stored.take(stored.len() as int) =~= stored);
            (header, rows)
        },
        Fields::Columns(requested) => {
            let ghost wanted = names_view(requested@);
            let keep = requested_columns(schema, &requested);
            let header = project_header(schema, &keep, Ghost(wanted));
            let mut rows: Vec<Vec<SqlDataType>> = Vec::new();
            let mut i: usize = 0;
            let ghost projected = project_rows(schema_names, wanted, stored);
            while i < ordered.len()
                invariant
                    i <= ordered@.len(),
                    ordered@.len() == stored.len(),
                    schema_names == names_view(schema@),
                    projected == project_rows(schema_names, wanted, stored),
                    keep@.len() == schema@.len(),
                    forall|at: int|
                        0 <= at < schema@.len() ==> keep@[at] == wanted.contains(schema@[at]@),
                    forall|at: int|
                        0 <= at < stored.len() ==> stored[at] == row_view(
                            (#[trigger] ordered@[at])@,
                        ),
                    rows_view(rows@) == projected.take(i as int),
                decreases ordered@.len() - i,
            {
                let ghost before = rows@;
                rows.push(project_row(ordered[i], &keep, Ghost(schema_names), Ghost(wanted)));
                assert(rows_view(rows@) =~= rows_view(before).push(projected[i as int]));
                assert(projected.take(i + 1) =~= projected.take(i as int).push(
                    projected[i as int],
                ));
                i += 1;
            }
            assert(projected.take(projected.len() as int) =~= projected);
            (header, rows)
        },
    }
}

/// The column of a pair of column and cell.
pub open spec fn column_of() -> spec_fn((Seq<char>, CellValue)) -> Seq<char> {
    |pair: (Seq<char>, CellValue)| pair.0
}

/// Where a row has one cell for each column, the columns under which its
/// projected cells stand are the projected header.
proof fn lemma_cells_under_header(
    schema: Seq<Seq<char>>,
    requested: Seq<Seq<char>>,
    row: Seq<CellValue>,
    upto: int,
)
    requires
        row.len() == schema.len(),
        0 <= upto <= schema.len(),
    ensures
        aligned(schema, row).take(upto).filter(under_requested(requested)).map_values(column_of())
            == schema.take(upto).filter(is_requested(requested)),
    decreases upto,
{
    reveal(Seq::filter);
    let pairs = aligned(schema, row);
    if upto == 0 {
        assert(pairs.take(upto).filter(under_requested(requested)).map_values(column_of())
            =~= schema.take(upto).filter(is_requested(requested)));
    } else {
        lemma_cells_under_header(schema, requested, row, upto - 1);
        assert(pairs.take(upto).drop_last() =~= pairs.take(upto - 1));
        assert(schema.take(upto).drop_last() =~= schema.take(upto - 1));
        assert(pairs.take(upto).last() == (schema[upto - 1], row[upto - 1]));
        assert(schema.take(upto).last() == schema[upto - 1]);
        assert(pairs.take(upto).filter(under_requested(requested)).map_values(column_of())
            =~= schema.take(upto).filter(is_requested(requested)));
    }
}

/// The rows of a table with finitely many rows, read in key order, are as
/// many as the table holds, and each is the row of its key.
proof fn lemma_rows_by_key(table: Map<i32, Seq<CellValue>>)
    requires
        table.dom().finite(),
    ensures
        rows_by_key(table).len() == table.dom().len(),
        forall|at: int|
            0 <= at < rows_by_key(table).len() ==> table.contains_key(
                #[trigger] key_order(table.dom())[at],
            ) && rows_by_key(table)[at] == table[key_order(table.dom())[at]],
{
    lemma_key_order(table.dom());
    let keys = key_order(table.dom());
    assert forall|at: int| 0 <= at < keys.len() implies table.contains_key(
        #[trigger] keys[at],
    ) by {
        assert(keys.contains(keys[at]));
        assert(keys.to_set().contains(keys[at]));
    }
}

/// A query for every column of a table that the database knows yields the
/// table's schema as header, and one row for each row of the table: the rows
/// as stored, in ascending order of their keys.
pub proof fn lemma_every_column(table: Seq<char>, db: Database)
    requires
        db.consistent(),
        db.finite(),
        db.tables.contains_key(table),
    ensures
        execute(Selection { projection: Projection::Every, table }, db).header
            == db.schemas[table],
        execute(Selection { projection: Projection::Every, table }, db).rows.len()
            == db.tables[table].dom().len(),
        execute(Selection { projection: Projection::Every, table }, db).rows == rows_by_key(
            db.tables[table],
        ),
        forall|at: int|
            0 <= at < rows_by_key(db.tables[table]).len() ==> db.tables[table].contains_key(
                #[trigger] key_order(db.tables[table].dom())[at],
            ) && rows_by_key(db.tables[table])[at] == db.tables[table][key_order(
                db.tables[table].dom(),
            )[at]],
{
    assert(db.schemas.dom().contains(table));
    lemma_rows_by_key(db.tables[table]);
}

/// Whether `cell` is the cell of `row` at a position of the schema that
/// holds `column`.
pub open spec fn stands_under(
    schema: Seq<Seq<char>>,
    row: Seq<CellValue>,
    column: Seq<char>,
    cell: CellValue,
) -> bool {
    exists|position: int|
        0 <= position < schema.len() && position < row.len() && schema[position] == column
            && row[position] == cell
}

/// A query for named columns yields as header columns of the target's schema
/// that were requested, and every such column; a requested name that the
/// schema does not hold is passed over and makes no failure. Each row of the
/// result has one cell under each column of the header, and that cell is the
/// stored row's cell at a position of the schema which holds that column.
pub proof fn lemma_named_columns(requested: Seq<Seq<char>>, table: Seq<char>, db: Database)
    requires
        db.consistent(),
        db.finite(),
    ensures
        ({
            let result = execute(
                Selection { projection: Projection::Named(requested), table },
                db,
            );
            &&& forall|at: int|
                0 <= at < result.header.len() ==> db.schemas.contains_key(table)
                    && db.schemas[table].contains(#[trigger] result.header[at])
                    && requested.contains(result.header[at])
            &&& forall|column: Seq<char>|
                db.schemas.contains_key(table) && #[trigger] db.schemas[table].contains(column)
                    && requested.contains(column) ==> result.header.contains(column)
            &&& db.tables.contains_key(table) ==> result.rows.len()
                == db.tables[table].dom().len()
            &&& forall|row: int|
                0 <= row < result.rows.len() ==> (#[trigger] result.rows[row]).len()
                    == result.header.len()
            &&& forall|row: int, at: int|
                0 <= row < result.rows.len() && 0 <= at < result.rows[row].len()
                    ==> stands_under(
                    db.schemas[table],
                    rows_by_key(db.tables[table])[row],
                    result.header[at],
                    #[trigger] result.rows[row][at],
                )
        }),
{
    let result = execute(Selection { projection: Projection::Named(requested), table }, db);
    if db.tables.contains_key(table) {
        assert(db.schemas.dom().contains(table));
        let schema = db.schemas[table];
        let stored = rows_by_key(db.tables[table]);
        lemma_rows_by_key(db.tables[table]);
        assert forall|at: int| 0 <= at < result.header.len() implies schema.contains(
            #[trigger] result.header[at],
        ) && requested.contains(result.header[at]) by {
            schema.lemma_filter_pred(is_requested(requested), at);
            assert(schema.filter(is_requested(requested)).contains(result.header[at]));
            schema.lemma_filter_contains_rev(is_requested(requested), result.header[at]);
        }
        assert forall|column: Seq<char>| #[trigger]
            schema.contains(column) && requested.contains(column) implies result.header.contains(
            column,
        ) by {
            let position = choose|position: int|
                0 <= position < schema.len() && schema[position] == column;
            schema.lemma_filter_contains(is_requested(requested), position);
        }
        assert forall|row: int| 0 <= row < result.rows.len() implies (
        #[trigger] result.rows[row]).len() == result.header.len() && forall|at: int|
            0 <= at < result.rows[row].len() ==> stands_under(
                schema,
                stored[row],
                result.header[at],
                #[trigger] result.rows[row][at],
            ) by {
            let cells = stored[row];
            let key = key_order(db.tables[table].dom())[row];
            assert(db.tables[table].contains_key(key));
            assert(cells.len() == schema.len());
            let pairs = aligned(schema, cells);
            let kept = pairs.filter(under_requested(requested));
            lemma_cells_under_header(schema, requested, cells, schema.len() as int);
            assert(pairs.take(schema.len() as int) =~= pairs);
            assert(schema.take(schema.len() as int) =~= schema);
            assert(kept.map_values(column_of()) == result.header);
            assert(result.rows[row] == kept.map_values(cell_of()));
            assert forall|at: int| 0 <= at < result.rows[row].len() implies stands_under(
                schema,
                stored[row],
                result.header[at],
                #[trigger] result.rows[row][at],
            ) by {
                assert(kept.contains(kept[at]));
                pairs.lemma_filter_contains_rev(under_requested(requested), kept[at]);
                let position = choose|position: int|
                    0 <= position < pairs.len() && pairs[position] == kept[at];
                assert(kept.map_values(column_of())[at] == kept[at].0);
                assert(schema[position] == result.header[at]);
                assert(stored[row][position] == result.rows[row][at]);
            }
        }
    } else {
        assert(!db.schemas.dom().contains(table));
    }
}

/// Whether what an execution handed back is the result of the query on the
/// database.
pub open spec fn is_result(
    out: (Vec<String>, Vec<Vec<SqlDataType>>),
    query: Selection,
    db: Database,
) -> bool {
    &&& names_view(out.0@) == execute(query, db).header
    &&& rows_view(out.1@) == execute(query, db).rows
}

/// Executing one query twice on a database that did not change yields the
/// same header and the same rows.
pub proof fn lemma_execution_repeats(
    first: (Vec<String>, Vec<Vec<SqlDataType>>),
    second: (Vec<String>, Vec<Vec<SqlDataType>>),
    query: Selection,
    db: Database,
)
    requires
        is_result(first, query, db),
        is_result(second, query, db),
    ensures
        names_view(first.0@) == names_view(second.0@),
        rows_view(first.1@) == rows_view(second.1@),
{
}

} // verus!

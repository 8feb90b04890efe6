//! The in-memory store: tables of rows, and the schema of each table.

use vstd::prelude::*;
use std::collections::BTreeMap;
use crate::name_map::NameMap;
use crate::table_order::{is_key_order, key_order, ordered_rows};
use crate::value::{names_view, row_view, CellValue, SqlDataType};

verus! {

/// The rows of one table by row key. A table is read in ascending key order.
pub type Table = BTreeMap<i32, Vec<SqlDataType>>;

/// The tables of a database by table name.
pub type Tables = NameMap<Table>;

/// The schema of each table by table name: its column names in the order of
/// the cells of its rows.
pub type Columns = NameMap<Vec<String>>;

/// The mathematical value of a database.
pub struct Database {
    pub tables: Map<Seq<char>, Map<i32, Seq<CellValue>>>,
    pub schemas: Map<Seq<char>, Seq<Seq<char>>>,
}

impl Database {
    /// Both mappings know the same tables, and each row has one cell for each
    /// column of its table.
    pub open spec fn consistent(self) -> bool {
        &&& self.tables.dom() == self.schemas.dom()
        &&& forall|name: Seq<char>, key: i32|
            self.tables.contains_key(name) && #[trigger] self.tables[name].contains_key(key)
                ==> self.tables[name][key].len() == self.schemas[name].len()
    }

    /// Every table has finitely many rows.
    pub open spec fn finite(self) -> bool {
        forall|name: Seq<char>|
            self.tables.contains_key(name) ==> (#[trigger] self.tables[name]).dom().finite()
    }
}

/// The rows of a table as values, by row key.
pub open spec fn table_view(table: Table) -> Map<i32, Seq<CellValue>> {
    table@.map_values(|row: Vec<SqlDataType>| row_view(row@))
}

/// The database that two mappings stand for.
pub open spec fn database_view(tables: &Tables, columns: &Columns) -> Database {
    Database {
        tables: tables@.map_values(|table: Table| table_view(table)),
        schemas: columns@.map_values(|schema: Vec<String>| names_view(schema@)),
    }
}

/// What two mappings stand for has finitely many rows in every table.
pub proof fn lemma_database_finite(tables: &Tables, columns: &Columns)
    ensures
        database_view(tables, columns).finite(),
{
    broadcast use vstd::std_specs::btree::axiom_btree_map_view_finite_dom;

    let db = database_view(tables, columns);
    assert forall|name: Seq<char>| db.tables.contains_key(name) implies (
    #[trigger] db.tables[name]).dom().finite() by {
        assert(db.tables[name].dom() =~= tables@[name]@.dom());
    }
}

/// Whether every row of a table has `width` cells.
fn rows_fit(table: &Table, width: usize) -> (fit: bool)
    ensures
        fit == forall|key: i32| #[trigger]
            table@.contains_key(key) ==> table@[key]@.len() == width,
{
    let rows = ordered_rows(table);
    let ghost keys = key_order(table@.dom());
    let mut j: usize = 0;
    while j < rows.len()
        invariant
            j <= rows@.len(),
            rows@.len() == keys.len(),
            is_key_order(keys, table@.dom()),
            forall|at: int|
                0 <= at < rows@.len() ==> *(#[trigger] rows@[at]) == table@[keys[at]],
            forall|at: int| 0 <= at < j ==> (#[trigger] rows@[at])@.len() == width,
        decreases rows@.len() - j,
    {
        if rows[j].len() != width {
            proof {
                let key = keys[j as int];
                assert(keys.contains(key));
                assert(table@.contains_key(key));
            }
            return false;
        }
        j += 1;
    }
    proof {
        assert forall|key: i32| #[trigger] table@.contains_key(key) implies table@[key]@.len()
            == width by {
            assert(keys.to_set().contains(key));
            let at = choose|at: int| 0 <= at < keys.len() && keys[at] == key;
            assert(*rows@[at] == table@[key]);
        }
    }
    true
}

/// Whether every table has a schema, and each of its rows one cell for each
/// column of that schema.
fn tables_fit(tables: &Tables, columns: &Columns) -> (fit: bool)
    ensures
        fit == forall|name: Seq<char>| #[trigger]
            tables@.contains_key(name) ==> columns@.contains_key(name) && forall|key: i32|
             #[trigger]
                tables@[name]@.contains_key(key) ==> tables@[name]@[key]@.len()
                    == columns@[name]@.len(),
{
    let names = tables.keys();
    let mut i: usize = 0;
    while i < names.len()
        invariant
            i <= names@.len(),
            names_view(names@).to_set() == tables@.dom(),
            forall|at: int|
                0 <= at < i ==> columns@.contains_key(#[trigger] names_view(names@)[at])
                    && forall|key: i32| #[trigger]
                    tables@[names_view(names@)[at]]@.contains_key(key) ==> tables@[names_view(
                        names@,
                    )[at]]@[key]@.len() == columns@[names_view(names@)[at]]@.len(),
        decreases names@.len() - i,
    {
        let ghost name = names_view(names@)[i as int];
        assert(names_view(names@).contains(name));
        assert(tables@.contains_key(name));
        let found_table = tables.get(&names[i]);
        let found_schema = columns.get(&names[i]);
        if found_table.is_none() || found_schema.is_none() {
            return false;
        }
        if !rows_fit(found_table.unwrap(), found_schema.unwrap().len()) {
            return false;
        }
        i += 1;
    }
    proof {
        assert forall|name: Seq<char>| #[trigger]
            tables@.contains_key(name) implies columns@.contains_key(name) && forall|key: i32|
             #[trigger]
                tables@[name]@.contains_key(key) ==> tables@[name]@[key]@.len()
                    == columns@[name]@.len() by {
            assert(names_view(names@).to_set().contains(name));
            let at = choose|at: int| 0 <= at < names@.len() && names_view(names@)[at] == name;
            assert(columns@.contains_key(names_view(names@)[at]));
        }
    }
    true
}

/// Whether every schema belongs to a table.
fn schemas_fit(tables: &Tables, columns: &Columns) -> (fit: bool)
    ensures
        fit == forall|name: Seq<char>| #[trigger]
            columns@.contains_key(name) ==> tables@.contains_key(name),
{
    let names = columns.keys();
    let mut i: usize = 0;
    while i < names.len()
        invariant
            i <= names@.len(),
            names_view(names@).to_set() == columns@.dom(),
            forall|at: int| 0 <= at < i ==> tables@.contains_key(#[trigger] names_view(names@)[at]),
        decreases names@.len() - i,
    {
        let ghost name = names_view(names@)[i as int];
        assert(names_view(names@).contains(name));
        assert(columns@.contains_key(name));
        if !tables.contains_key(&names[i]) {
            return false;
        }
        i += 1;
    }
    proof {
        assert forall|name: Seq<char>| #[trigger]
            columns@.contains_key(name) implies tables@.contains_key(name) by {
            assert(names_view(names@).to_set().contains(name));
            let at = choose|at: int| 0 <= at < names@.len() && names_view(names@)[at] == name;
            assert(tables@.contains_key(names_view(names@)[at]));
        }
    }
    true
}

/// Whether two mappings stand for a consistent database: both know the same
/// tables, and each row has one cell for each column of its table.
pub fn is_consistent(tables: &Tables, columns: &Columns) -> (consistent: bool)
    ensures
        consistent == database_view(tables, columns).consistent(),
{
    let ghost db = database_view(tables, columns);
    let fit = schemas_fit(tables, columns) && tables_fit(tables, columns);
    proof {
        assert(db.tables.dom() =~= tables@.dom());
        assert(db.schemas.dom() =~= columns@.dom());
        if fit {
            assert(db.tables.dom() =~= db.schemas.dom());
            assert forall|name: Seq<char>, key: i32|
                db.tables.contains_key(name) && #[trigger] db.tables[name].contains_key(
                    key,
                ) implies db.tables[name][key].len() == db.schemas[name].len() by {
                assert(tables@.contains_key(name));
                assert(tables@[name]@.contains_key(key));
            }
        } else if db.consistent() {
            assert forall|name: Seq<char>| #[trigger]
                columns@.contains_key(name) implies tables@.contains_key(name) by {
                assert(db.schemas.dom().contains(name));
            }
            assert forall|name: Seq<char>| #[trigger]
                tables@.contains_key(name) implies columns@.contains_key(name) && forall|
                key: i32,
            |
                 #[trigger]
                tables@[name]@.contains_key(key) ==> tables@[name]@[key]@.len()
                    == columns@[name]@.len() by {
                assert(db.tables.dom().contains(name));
                assert forall|key: i32| #[trigger]
                    tables@[name]@.contains_key(key) implies tables@[name]@[key]@.len()
                    == columns@[name]@.len() by {
                    assert(db.tables[name].contains_key(key));
                }
            }
        }
    }
    fit
}

} // verus!

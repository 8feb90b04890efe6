use std::collections::BTreeMap;

use rsql::engine::get_result;
use rsql::fixture::load_data;
use rsql::name_map::NameMap;
use rsql::query::{Fields, SqlQuery};
use rsql::render::{decimal_text, render_row, render_rows};
use rsql::store::{is_consistent, Columns, Table, Tables};
use rsql::value::{SqlData, SqlDataType};

fn names(values: &[&str]) -> Vec<String> {
    values.iter().map(|value| value.to_string()).collect()
}

fn key(name: &str) -> String {
    name.to_string()
}

fn small_database() -> (Tables, Columns) {
    let mut rows: Table = BTreeMap::new();
    rows.insert(
        30,
        vec![SqlDataType::from("c"), SqlDataType::from(3usize), SqlDataType::from(true)],
    );
    rows.insert(
        -5,
        vec![SqlDataType::Null, SqlDataType::from("mixed"), SqlDataType::from(false)],
    );
    rows.insert(
        7,
        vec![SqlDataType::from(7usize), SqlDataType::Null, SqlDataType::from("text")],
    );
    let mut tables: Tables = NameMap::new();
    tables.insert(key("things"), rows);
    let mut columns: Columns = NameMap::new();
    columns.insert(key("things"), names(&["label", "count", "flag"]));
    (tables, columns)
}

#[test]
fn name_map_starts_empty() {
    let map: NameMap<u32> = NameMap::new();
    assert_eq!(map.len(), 0);
    assert!(map.keys().is_empty());
    assert_eq!(map.get(&key("a")), None);
    assert!(!map.contains_key(&key("a")));
}

#[test]
fn name_map_holds_what_was_inserted() {
    let mut map: NameMap<u32> = NameMap::new();
    assert_eq!(map.insert(key("a"), 1), None);
    assert_eq!(map.insert(key("b"), 2), None);
    assert_eq!(map.insert(key("c"), 3), None);
    assert_eq!(map.len(), 3);
    assert_eq!(map.get(&key("a")), Some(&1));
    assert_eq!(map.get(&key("b")), Some(&2));
    assert_eq!(map.get(&key("c")), Some(&3));
    assert_eq!(map.get(&key("A")), None);
    assert!(map.contains_key(&key("b")));
    let mut held = map.keys();
    held.sort();
    assert_eq!(held, names(&["a", "b", "c"]));
}

#[test]
fn name_map_replaces_under_the_same_name() {
    let mut map: NameMap<u32> = NameMap::new();
    assert_eq!(map.insert(key("a"), 1), None);
    assert_eq!(map.insert(key("b"), 2), None);
    assert_eq!(map.insert(key("a"), 10), Some(1));
    assert_eq!(map.len(), 2);
    assert_eq!(map.get(&key("a")), Some(&10));
    assert_eq!(map.get(&key("b")), Some(&2));
    assert_eq!(map.insert(key("b"), 20), Some(2));
    assert_eq!(map.get(&key("b")), Some(&20));
    assert_eq!(map.get(&key("a")), Some(&10));
}

#[test]
fn seed_database_holds_two_tables() {
    let (tables, columns) = load_data();
    assert_eq!(tables.len(), 2);
    assert_eq!(columns.len(), 2);
    assert_eq!(
        columns.get(&key("users")),
        Some(&names(&["id", "name", "age", "is_person"]))
    );
    assert_eq!(columns.get(&key("restaurants")), Some(&names(&["id", "name"])));
    let users = tables.get(&key("users")).unwrap();
    assert_eq!(users.keys().copied().collect::<Vec<i32>>(), vec![1, 2, 3, 4, 5]);
    assert_eq!(
        users.get(&4),
        Some(&vec![
            SqlDataType::Usize(4),
            SqlDataType::String(key("Jom")),
            SqlDataType::Usize(40),
            SqlDataType::Bool(true),
        ])
    );
    let restaurants = tables.get(&key("restaurants")).unwrap();
    assert_eq!(restaurants.len(), 4);
    assert_eq!(
        restaurants.get(&3),
        Some(&vec![SqlDataType::Usize(3), SqlDataType::String(key("Maruichi Select"))])
    );
}

#[test]
fn seed_database_is_consistent() {
    let (tables, columns) = load_data();
    assert!(is_consistent(&tables, &columns));
    let (tables, columns) = small_database();
    assert!(is_consistent(&tables, &columns));
    let tables: Tables = NameMap::new();
    let columns: Columns = NameMap::new();
    assert!(is_consistent(&tables, &columns));
}

#[test]
fn table_without_schema_is_inconsistent() {
    let (mut tables, columns) = load_data();
    tables.insert(key("orphans"), BTreeMap::new());
    assert!(!is_consistent(&tables, &columns));
}

#[test]
fn schema_without_table_is_inconsistent() {
    let (tables, mut columns) = load_data();
    columns.insert(key("ghosts"), names(&["id"]));
    assert!(!is_consistent(&tables, &columns));
}

#[test]
fn row_of_wrong_length_is_inconsistent() {
    let (mut tables, columns) = small_database();
    let mut rows: Table = BTreeMap::new();
    rows.insert(1, vec![SqlDataType::Usize(1), SqlDataType::Usize(2), SqlDataType::Usize(3)]);
    rows.insert(2, vec![SqlDataType::Usize(1), SqlDataType::Usize(2)]);
    tables.insert(key("things"), rows);
    assert!(!is_consistent(&tables, &columns));
}

#[test]
fn rows_come_in_ascending_key_order() {
    let (tables, columns) = small_database();
    let query = SqlQuery::Select(Fields::All, key("things"));
    let (header, rows) = get_result(query, &tables, &columns);
    assert_eq!(header, names(&["label", "count", "flag"]));
    assert_eq!(
        rows,
        vec![
            vec![SqlDataType::Null, SqlDataType::String(key("mixed")), SqlDataType::Bool(false)],
            vec![SqlDataType::Usize(7), SqlDataType::Null, SqlDataType::String(key("text"))],
            vec![SqlDataType::String(key("c")), SqlDataType::Usize(3), SqlDataType::Bool(true)],
        ]
    );
}

#[test]
fn projection_keeps_variants_of_mixed_columns() {
    let (tables, columns) = small_database();
    let query = SqlQuery::Select(Fields::Columns(names(&["flag", "label"])), key("things"));
    let (header, rows) = get_result(query, &tables, &columns);
    assert_eq!(header, names(&["label", "flag"]));
    assert_eq!(
        rows,
        vec![
            vec![SqlDataType::Null, SqlDataType::Bool(false)],
            vec![SqlDataType::Usize(7), SqlDataType::String(key("text"))],
            vec![SqlDataType::String(key("c")), SqlDataType::Bool(true)],
        ]
    );
}

#[test]
fn all_columns_query_counts_every_row() {
    let (tables, columns) = load_data();
    for table in ["users", "restaurants"] {
        let query = SqlQuery::Select(Fields::All, key(table));
        let (header, rows) = get_result(query, &tables, &columns);
        assert_eq!(Some(&header), columns.get(&key(table)));
        assert_eq!(rows.len(), tables.get(&key(table)).unwrap().len());
    }
}

#[test]
fn named_columns_query_stays_inside_the_schema() {
    let (tables, columns) = load_data();
    let requested = names(&["is_person", "zip", "id", "id", "Name"]);
    let query = SqlQuery::Select(Fields::Columns(requested.clone()), key("users"));
    let (header, rows) = get_result(query, &tables, &columns);
    let schema = columns.get(&key("users")).unwrap();
    assert_eq!(header, names(&["id", "is_person"]));
    for name in header.iter() {
        assert!(schema.contains(name));
        assert!(requested.contains(name));
    }
    assert_eq!(rows.len(), 5);
    assert_eq!(rows[3], vec![SqlDataType::Usize(4), SqlDataType::Bool(true)]);
    for row in rows.iter() {
        assert_eq!(row.len(), header.len());
    }
}

#[test]
fn empty_request_yields_empty_header_and_empty_rows() {
    let (tables, columns) = load_data();
    let query = SqlQuery::Select(Fields::Columns(Vec::new()), key("users"));
    let (header, rows) = get_result(query, &tables, &columns);
    assert!(header.is_empty());
    assert_eq!(rows, vec![Vec::<SqlDataType>::new(); 5]);
}

#[test]
fn empty_table_yields_header_and_no_row() {
    let mut tables: Tables = NameMap::new();
    tables.insert(key("empty"), BTreeMap::new());
    let mut columns: Columns = NameMap::new();
    columns.insert(key("empty"), names(&["a", "b"]));
    let query = SqlQuery::Select(Fields::All, key("empty"));
    let (header, rows) = get_result(query, &tables, &columns);
    assert_eq!(header, names(&["a", "b"]));
    assert!(rows.is_empty());
    let query = SqlQuery::Select(Fields::Columns(names(&["b"])), key("empty"));
    let (header, rows) = get_result(query, &tables, &columns);
    assert_eq!(header, names(&["b"]));
    assert!(rows.is_empty());
}

#[test]
fn table_known_to_one_mapping_only_yields_nothing() {
    let mut tables: Tables = NameMap::new();
    let mut rows: Table = BTreeMap::new();
    rows.insert(1, vec![SqlDataType::Usize(1)]);
    tables.insert(key("lonely"), rows);
    let columns: Columns = NameMap::new();
    let query = SqlQuery::Select(Fields::All, key("lonely"));
    let (header, rows) = get_result(query, &tables, &columns);
    assert!(header.is_empty());
    assert!(rows.is_empty());
}

#[test]
fn cells_beyond_the_schema_are_dropped_by_a_projection() {
    let mut tables: Tables = NameMap::new();
    let mut rows: Table = BTreeMap::new();
    rows.insert(1, vec![SqlDataType::Usize(1), SqlDataType::Usize(2), SqlDataType::Usize(3)]);
    rows.insert(2, vec![SqlDataType::Usize(4)]);
    tables.insert(key("ragged"), rows);
    let mut columns: Columns = NameMap::new();
    columns.insert(key("ragged"), names(&["a", "b"]));
    let query = SqlQuery::Select(Fields::Columns(names(&["a", "b"])), key("ragged"));
    let (header, rows) = get_result(query, &tables, &columns);
    assert_eq!(header, names(&["a", "b"]));
    assert_eq!(
        rows,
        vec![vec![SqlDataType::Usize(1), SqlDataType::Usize(2)], vec![SqlDataType::Usize(4)]]
    );
}

#[test]
fn cell_conversions_pick_the_variant() {
    assert_eq!(SqlDataType::from(key("abc")), SqlDataType::String(key("abc")));
    assert_eq!(SqlDataType::from("abc"), SqlDataType::String(key("abc")));
    assert_eq!(SqlDataType::from(true), SqlDataType::Bool(true));
    assert_eq!(SqlDataType::from(12usize), SqlDataType::Usize(12));
}

#[test]
fn defaults_are_zero_and_every_column() {
    assert_eq!(SqlDataType::default(), SqlDataType::Usize(0));
    assert_eq!(SqlData::default(), SqlData::Missing);
    assert_eq!(Fields::default(), Fields::All);
    assert_eq!(SqlQuery::default(), SqlQuery::Select(Fields::All, String::new()));
}

#[test]
fn clones_are_equal() {
    let cell = SqlDataType::String(key("abc"));
    assert_eq!(cell.clone(), cell);
    let data = SqlData::Present(SqlDataType::Usize(3));
    assert_eq!(data.clone(), data);
    let query = SqlQuery::Select(Fields::Columns(names(&["a", "b"])), key("t"));
    assert_eq!(query.clone(), query);
}

#[test]
fn numbers_are_written_in_decimal() {
    assert_eq!(decimal_text(0), "0");
    assert_eq!(decimal_text(7), "7");
    assert_eq!(decimal_text(10), "10");
    assert_eq!(decimal_text(45), "45");
    assert_eq!(decimal_text(1234567890), "1234567890");
    assert_eq!(decimal_text(usize::MAX), usize::MAX.to_string());
}

#[test]
fn cells_are_written_as_text() {
    assert_eq!(SqlDataType::String(key("Joe")).to_text(), "Joe");
    assert_eq!(SqlDataType::String(String::new()).to_text(), "");
    assert_eq!(SqlDataType::Usize(25).to_text(), "25");
    assert_eq!(SqlDataType::Bool(true).to_text(), "true");
    assert_eq!(SqlDataType::Bool(false).to_text(), "false");
    assert_eq!(SqlDataType::Null.to_text(), "Null");
}

#[test]
fn rows_are_written_cell_by_cell() {
    let row = vec![
        SqlDataType::Usize(5),
        SqlDataType::String(key("Boy")),
        SqlDataType::Usize(45),
        SqlDataType::Bool(false),
        SqlDataType::Null,
    ];
    assert_eq!(render_row(&row), names(&["5", "Boy", "45", "false", "Null"]));
    assert_eq!(render_row(&Vec::new()), Vec::<String>::new());
    let rows = vec![row, vec![SqlDataType::Usize(100)]];
    assert_eq!(
        render_rows(&rows),
        vec![names(&["5", "Boy", "45", "false", "Null"]), names(&["100"])]
    );
}

#[test]
fn extreme_keys_keep_their_order() {
    let mut rows: Table = BTreeMap::new();
    rows.insert(i32::MAX, vec![SqlDataType::Usize(3)]);
    rows.insert(0, vec![SqlDataType::Usize(2)]);
    rows.insert(i32::MIN, vec![SqlDataType::Usize(1)]);
    let mut tables: Tables = NameMap::new();
    tables.insert(key("t"), rows);
    let mut columns: Columns = NameMap::new();
    columns.insert(key("t"), names(&["n"]));
    let (_header, rows) = get_result(SqlQuery::Select(Fields::All, key("t")), &tables, &columns);
    assert_eq!(
        rows,
        vec![
            vec![SqlDataType::Usize(1)],
            vec![SqlDataType::Usize(2)],
            vec![SqlDataType::Usize(3)],
        ]
    );
}

#[test]
fn repeated_schema_column_is_kept_at_each_position() {
    let mut rows: Table = BTreeMap::new();
    rows.insert(1, vec![SqlDataType::Usize(1), SqlDataType::Usize(2), SqlDataType::Usize(3)]);
    let mut tables: Tables = NameMap::new();
    tables.insert(key("t"), rows);
    let mut columns: Columns = NameMap::new();
    columns.insert(key("t"), names(&["a", "b", "a"]));
    let query = SqlQuery::Select(Fields::Columns(names(&["a"])), key("t"));
    let (header, rows) = get_result(query, &tables, &columns);
    assert_eq!(header, names(&["a", "a"]));
    assert_eq!(rows, vec![vec![SqlDataType::Usize(1), SqlDataType::Usize(3)]]);
}

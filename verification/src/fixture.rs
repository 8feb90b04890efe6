//! A small seed database: two tables, `users` and `restaurants`.

use vstd::prelude::*;
use std::collections::BTreeMap;
use crate::name_map::NameMap;
use crate::store::{database_view, table_view, Columns, Database, Table, Tables};
use crate::value::{names_view, row_view, CellValue, SqlDataType};

verus! {

/// A row of `users`: id, name, age, and whether the user is a person.
pub open spec fn user_row(id: nat, name: Seq<char>, age: nat, is_person: CellValue) -> Seq<
    CellValue,
> {
    seq![CellValue::Integer(id), CellValue::Text(name), CellValue::Integer(age), is_person]
}

/// A row of `restaurants`: id and name.
pub open spec fn restaurant_row(id: nat, name: Seq<char>) -> Seq<CellValue> {
    seq![CellValue::Integer(id), CellValue::Text(name)]
}

/// The rows of `users`.
pub open spec fn seed_users() -> Map<i32, Seq<CellValue>> {
    Map::<i32, Seq<CellValue>>::empty().insert(
        1i32,
        user_row(1, "Joe"@, 25, CellValue::Null),
    ).insert(2i32, user_row(2, "Jim"@, 30, CellValue::Null)).insert(
        3i32,
        user_row(3, "Bob"@, 35, CellValue::Null),
    ).insert(4i32, user_row(4, "Jom"@, 40, CellValue::Boolean(true))).insert(
        5i32,
        user_row(5, "Boy"@, 45, CellValue::Boolean(false)),
    )
}

/// The rows of `restaurants`.
pub open spec fn seed_restaurants() -> Map<i32, Seq<CellValue>> {
    Map::<i32, Seq<CellValue>>::empty().insert(1i32, restaurant_row(1, "Soup Shack"@)).insert(
        2i32,
        restaurant_row(2, "Hei La Moon"@),
    ).insert(3i32, restaurant_row(3, "Maruichi Select"@)).insert(
        4i32,
        restaurant_row(4, "Shake Shack"@),
    )
}

/// The seed database.
pub open spec fn seed() -> Database {
    Database {
        tables: Map::<Seq<char>, Map<i32, Seq<CellValue>>>::empty().insert(
            "users"@,
            seed_users(),
        ).insert("restaurants"@, seed_restaurants()),
        schemas: Map::<Seq<char>, Seq<Seq<char>>>::empty().insert(
            "users"@,
            seq!["id"@, "name"@, "age"@, "is_person"@],
        ).insert("restaurants"@, seq!["id"@, "name"@]),
    }
}

fn user(id: usize, name: &str, age: usize, is_person: SqlDataType) -> (row: Vec<SqlDataType>)
    ensures
        row_view(row@) == user_row(id as nat, name@, age as nat, is_person@),
{
    let row = vec![
        SqlDataType::from(id),
        SqlDataType::from(name),
        SqlDataType::from(age),
        is_person,
    ];
    assert(row_view(row@) =~= user_row(id as nat, name@, age as nat, is_person@));
    row
}

fn restaurant(id: usize, name: &str) -> (row: Vec<SqlDataType>)
    ensures
        row_view(row@) == restaurant_row(id as nat, name@),
{
    let row = vec![SqlDataType::from(id), SqlDataType::from(name)];
    assert(row_view(row@) =~= restaurant_row(id as nat, name@));
    row
}

fn users_table() -> (table: Table)
    ensures
        table_view(table) == seed_users(),
{
    broadcast use vstd::laws_cmp::group_laws_cmp;

    let mut table: Table = BTreeMap::new();
    table.insert(1, user(1, "Joe", 25, SqlDataType::Null));
    table.insert(2, user(2, "Jim", 30, SqlDataType::Null));
    table.insert(3, user(3, "Bob", 35, SqlDataType::Null));
    table.insert(4, user(4, "Jom", 40, SqlDataType::Bool(true)));
    table.insert(5, user(5, "Boy", 45, SqlDataType::Bool(false)));
    assert(table_view(table) =~= seed_users());
    table
}

fn restaurants_table() -> (table: Table)
    ensures
        table_view(table) == seed_restaurants(),
{
    broadcast use vstd::laws_cmp::group_laws_cmp;

    let mut table: Table = BTreeMap::new();
    table.insert(1, restaurant(1, "Soup Shack"));
    table.insert(2, restaurant(2, "Hei La Moon"));
    table.insert(3, restaurant(3, "Maruichi Select"));
    table.insert(4, restaurant(4, "Shake Shack"));
    assert(table_view(table) =~= seed_restaurants());
    table
}

fn names_of_4(a: &str, b: &str, c: &str, d: &str) -> (names: Vec<String>)
    ensures
        names_view(names@) == seq![a@, b@, c@, d@],
{
    let names = vec![a.to_owned(), b.to_owned(), c.to_owned(), d.to_owned()];
    assert(names_view(names@) =~= seq![a@, b@, c@, d@]);
    names
}

fn names_of_2(a: &str, b: &str) -> (names: Vec<String>)
    ensures
        names_view(names@) == seq![a@, b@],
{
    let names = vec![a.to_owned(), b.to_owned()];
    assert(names_view(names@) =~= seq![a@, b@]);
    names
}

/// Builds the seed database: the rows of its tables, and their schemas.
pub fn load_data() -> (data: (Tables, Columns))
    ensures
        database_view(&data.0, &data.1) == seed(),
{
    let mut tables: Tables = NameMap::new();
    tables.insert("users".to_owned(), users_table());
    tables.insert("restaurants".to_owned(), restaurants_table());
    let mut columns: Columns = NameMap::new();
    columns.insert("users".to_owned(), names_of_4("id", "name", "age", "is_person"));
    columns.insert("restaurants".to_owned(), names_of_2("id", "name"));
    assert(database_view(&tables, &columns).tables =~= seed().tables);
    assert(database_view(&tables, &columns).schemas =~= seed().schemas);
    (tables, columns)
}

} // verus!

//! The query descriptor that the translator emits and the engine executes.

use vstd::prelude::*;
use crate::value::{clone_names, names_view};

verus! {

/// The mathematical value of a projection.
pub enum Projection {
    /// Every column of the table.
    Every,
    /// The named columns, as written: order kept, repeats kept.
    Named(Seq<Seq<char>>),
}

/// Which columns a query asks for.
#[derive(Debug, PartialEq, Eq)]
pub enum Fields {
    All,
    Columns(Vec<String>),
}

impl View for Fields {
    type V = Projection;

    open spec fn view(&self) -> Projection {
        match self {
            Fields::All => Projection::Every,
            Fields::Columns(names) => Projection::Named(names_view(names@)),
        }
    }
}

impl Clone for Fields {
    fn clone(&self) -> (copy: Self)
        ensures
            copy@ == self@,
    {
        match self {
            Fields::All => Fields::All,
            Fields::Columns(names) => Fields::Columns(clone_names(names)),
        }
    }
}

impl Default for Fields {
    fn default() -> (fields: Self)
        ensures
            fields is All,
    {
        Fields::All
    }
}

/// The mathematical value of a query: what is projected, and from which table.
pub struct Selection {
    pub projection: Projection,
    pub table: Seq<char>,
}

/// One translated statement.
#[derive(Debug, PartialEq, Eq)]
pub enum SqlQuery {
    Select(Fields, String),
}

impl View for SqlQuery {
    type V = Selection;

    open spec fn view(&self) -> Selection {
        match self {
            SqlQuery::Select(fields, table) => Selection { projection: fields@, table: table@ },
        }
    }
}

impl Clone for SqlQuery {
    fn clone(&self) -> (copy: Self)
        ensures
            copy@ == self@,
    {
        match self {
            SqlQuery::Select(fields, table) => SqlQuery::Select(fields.clone(), table.clone()),
        }
    }
}

impl Default for SqlQuery {
    fn default() -> (query: Self)
        ensures
            query@ == (Selection { projection: Projection::Every, table: Seq::<char>::empty() }),
    {
        SqlQuery::Select(Fields::All, String::new())
    }
}

} // verus!

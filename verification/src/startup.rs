//! How a session starts: from what loading the two files gave to the
//! database that is used, or to the failure that ends the start.

use vstd::prelude::*;
use crate::store::{database_view, is_consistent, Columns, Database, Tables};

verus! {

/// What loading one file gave.
pub enum Loaded<T> {
    /// There is no such file.
    Missing,
    /// The file could not be read, or its bytes are not the expected value.
    Failed,
    /// The file's value.
    Read(T),
}

/// Why a start fails.
#[derive(Debug, PartialEq, Eq, Clone, Copy)]
pub enum StartFailure {
    /// The file of the tables is missing beside that of the schemas, or
    /// failed to load.
    Tables,
    /// The file of the schemas is missing beside that of the tables, or
    /// failed to load.
    Columns,
    /// Both files loaded, and they do not describe one database.
    Mismatch,
}

/// How a session starts.
pub enum Start {
    /// On the seed database: neither file exists.
    Seed,
    /// On the database that the two files hold.
    Use(Tables, Columns),
    /// Not at all.
    Fail(StartFailure),
}

/// The mathematical value of a start.
pub enum StartShape {
    Seed,
    Use(Database),
    Fail(StartFailure),
}

impl View for Start {
    type V = StartShape;

    open spec fn view(&self) -> StartShape {
        match self {
            Start::Seed => StartShape::Seed,
            Start::Use(tables, columns) => StartShape::Use(database_view(tables, columns)),
            Start::Fail(failure) => StartShape::Fail(*failure),
        }
    }
}

/// How a session starts on what loading the two files gave. Where neither
/// file exists the seed database is used. Where both loaded they are used if
/// they describe one database. Every other outcome ends the start: on the
/// tables where those did not load, on the schemas otherwise.
pub open spec fn start_policy(tables: Loaded<Tables>, columns: Loaded<Columns>) -> StartShape {
    match (tables, columns) {
        (Loaded::Missing, Loaded::Missing) => StartShape::Seed,
        (Loaded::Read(tables), Loaded::Read(columns)) => if database_view(
            &tables,
            &columns,
        ).consistent() {
            StartShape::Use(database_view(&tables, &columns))
        } else {
            StartShape::Fail(StartFailure::Mismatch)
        },
        (Loaded::Read(_), _) => StartShape::Fail(StartFailure::Columns),
        (_, _) => StartShape::Fail(StartFailure::Tables),
    }
}

/// Decides how a session starts.
pub fn start(tables: Loaded<Tables>, columns: Loaded<Columns>) -> (action: Start)
    ensures
        action@ == start_policy(tables, columns),
{
    match (tables, columns) {
        (Loaded::Missing, Loaded::Missing) => Start::Seed,
        (Loaded::Read(tables), Loaded::Read(columns)) => {
            if is_consistent(&tables, &columns) {
                Start::Use(tables, columns)
            } else {
                Start::Fail(StartFailure::Mismatch)
            }
        },
        (Loaded::Read(_), _) => Start::Fail(StartFailure::Columns),
        (_, _) => Start::Fail(StartFailure::Tables),
    }
}

} // verus!

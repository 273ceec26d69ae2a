//! The catalogue's errors, and the HTTP status each one is answered with.

use vstd::prelude::*;

verus! {

/// What can go wrong in the catalogue.
#[derive(Debug, Clone, PartialEq, Eq)]
pub enum RitmoErr {
    RecordNotFound,
    InvalidInput(String),
    ConfigParseError(String),
    ConfigNotFound,
    DatabaseConnection(String),
    DatabaseQuery(String),
    DatabaseMigration(String),
    DatabaseInsert(String),
    DatabaseDelete(String),
    DatabaseTransaction(String),
    DataIntegrity(String),
    FileNotFound(String),
    FileAccess(String),
    PathError(String),
    ImportError(String),
    ExportError(String),
    NameParsingError(String),
    MergeError(String),
    SerializationError(String),
    MLError(String),
    UnknownError(String),
}

/// An error as the web server answers it.
#[derive(Debug, Clone, PartialEq, Eq)]
pub struct WebError(pub RitmoErr);

/// The status of an error: 404 for a missing record; 400 for bad input, a
/// bad setting or a file problem; 500 for everything else.
pub open spec fn status_of(err: RitmoErr) -> u16 {
    match err {
        RitmoErr::RecordNotFound => 404,
        RitmoErr::InvalidInput(_) | RitmoErr::ConfigParseError(_) => 400,
        RitmoErr::FileNotFound(_) | RitmoErr::FileAccess(_) | RitmoErr::PathError(_) => 400,
        _ => 500,
    }
}

impl WebError {
    /// The HTTP status the error is answered with (see `status_of`).
    pub fn status(&self) -> (s: u16)
        ensures
            s == status_of(self.0),
    {
        match &self.0 {
            RitmoErr::RecordNotFound => 404,
            RitmoErr::InvalidInput(_) | RitmoErr::ConfigParseError(_) => 400,
            RitmoErr::ConfigNotFound => 500,
            RitmoErr::DatabaseConnection(_)
            | RitmoErr::DatabaseQuery(_)
            | RitmoErr::DatabaseMigration(_)
            | RitmoErr::DatabaseInsert(_)
            | RitmoErr::DatabaseDelete(_)
            | RitmoErr::DatabaseTransaction(_)
            | RitmoErr::DataIntegrity(_) => 500,
            RitmoErr::FileNotFound(_) | RitmoErr::FileAccess(_) | RitmoErr::PathError(_) => 400,
            RitmoErr::ImportError(_)
            | RitmoErr::ExportError(_)
            | RitmoErr::NameParsingError(_)
            | RitmoErr::MergeError(_)
            | RitmoErr::SerializationError(_)
            | RitmoErr::MLError(_)
            | RitmoErr::UnknownError(_) => 500,
        }
    }
}

} // verus!

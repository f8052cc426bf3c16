//! Synthetic relational data toolkit: a registry of semantic field kinds,
//! a schema compiler that turns table declarations into CREATE TABLE text,
//! a row generator with quote-escaping and length truncation, a bulk insert
//! builder, and a relation linker that distributes primary keys across a
//! secondary table with a wrap-around join.

use vstd::prelude::*;

pub mod config;
pub mod ddl;
pub mod dml;
pub mod fakers;
pub mod kind;
pub mod link;
pub mod registry;
pub mod rows;
pub mod schema;
pub mod text;

verus! {

/// Errors raised by the schema, generation and linking operations.
#[derive(Debug, Clone, PartialEq, Eq, Structural)]
pub enum SynthError {
    /// A field kind did not resolve in the type registry; fatal for the
    /// whole table-level operation.
    UnsupportedFieldKind,
    /// A date bound in a generation config did not parse or is out of range.
    MalformedDateConfig,
    /// The catalog lookup for the primary table's key columns failed.
    CatalogLookupFailed,
    /// Extending the secondary table hit an existing column of the same name.
    DuplicateColumn,
    /// The relation id is not present in the registry.
    RelationNotFound,
    /// The data store reported a failure while populating the new column.
    StoreFailure,
}

impl SynthError {
    /// The text that `message` returns for each variant.
    pub open spec fn spec_message(self) -> Seq<char> {
        match self {
            SynthError::UnsupportedFieldKind => "unsupported field kind"@,
            SynthError::MalformedDateConfig => "malformed date config"@,
            SynthError::CatalogLookupFailed => "catalog lookup failed"@,
            SynthError::DuplicateColumn => "duplicate column"@,
            SynthError::RelationNotFound => "relation not found"@,
            SynthError::StoreFailure => "data store failure"@,
        }
    }

    /// Short diagnostic text for a failed operation.
    pub fn message(&self) -> (r: &'static str)
        ensures
            r@ == self.spec_message(),
    {
        match self {
            SynthError::UnsupportedFieldKind => "unsupported field kind",
            SynthError::MalformedDateConfig => "malformed date config",
            SynthError::CatalogLookupFailed => "catalog lookup failed",
            SynthError::DuplicateColumn => "duplicate column",
            SynthError::RelationNotFound => "relation not found",
            SynthError::StoreFailure => "data store failure",
        }
    }
}

} // verus!

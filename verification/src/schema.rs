//! The caller-declared schema: a table with its ordered fields, each field
//! naming a semantic kind from the registry with its generation config and
//! key attributes.

use vstd::prelude::*;
use crate::config::GenConfig;
use crate::kind;
use crate::kind::FieldKind;

verus! {

/// Key and nullability attributes of one field.
#[derive(Debug, Clone)]
pub struct FieldAttributes {
    /// Part of the primary key when explicitly `Some(true)`.
    pub is_primary: Option<bool>,
    /// The column is nullable only when this is explicitly `Some(false)`;
    /// by default, and when explicitly `Some(true)`, the column definition
    /// carries the NOT NULL marker.
    pub is_not_null: Option<bool>,
}

impl FieldAttributes {
    /// Attributes with neither member set.
    pub fn none() -> (r: FieldAttributes)
        ensures
            r.is_primary is None,
            r.is_not_null is None,
    {
        FieldAttributes { is_primary: None, is_not_null: None }
    }
}

/// One declared field: a unique name, a kind name to resolve in the
/// registry, generation parameters and attributes.
#[derive(Debug, Clone)]
pub struct FieldSpec {
    /// Column name, never empty.
    pub name: String,
    /// Kind name; must resolve in the registry or the table operation
    /// fails.
    pub kind: String,
    /// Generation parameters.
    pub config: GenConfig,
    /// Key and nullability attributes.
    pub attributes: FieldAttributes,
}

/// One declared table: a name, the number of rows to generate, the ordered
/// fields, and an optional literal fragment placed verbatim at the head of
/// the CREATE TABLE body.
#[derive(Debug, Clone)]
pub struct TableSpec {
    /// Table name.
    pub name: String,
    /// Number of rows to generate.
    pub row_count: usize,
    /// Fields in declaration order.
    pub fields: Vec<FieldSpec>,
    /// Caller-trusted literal SQL text, not validated here.
    pub raw_ddl_fragment: Option<String>,
}

/// Whether the field is marked as part of the primary key.
pub open spec fn spec_is_primary(f: FieldSpec) -> bool {
    f.attributes.is_primary == Some(true)
}

/// Whether the field's column definition carries the NOT NULL marker: a
/// field is nullable only when marked so explicitly; the default is
/// non-null.
pub open spec fn spec_marked_not_null(f: FieldSpec) -> bool {
    f.attributes.is_not_null != Some(false)
}

/// The registry entry of the field's kind name.
pub open spec fn spec_field_kind(f: FieldSpec) -> Option<FieldKind> {
    kind::spec_resolve(f.kind@)
}

/// Every field's kind name resolves in the registry.
pub open spec fn spec_all_resolve(fields: Seq<FieldSpec>) -> bool {
    forall|i: int| 0 <= i < fields.len() ==> #[trigger] spec_field_kind(fields[i]) is Some
}

} // verus!

//! Temporal data records.

use vstd::prelude::*;
use vstd::string::*;

use crate::identity::RowId;
use crate::interval::ValidInterval;
use crate::text::{decimal, push_decimal};

verus! {

/// Opaque serialised bytes representing user data. Interpretation is governed by [`SchemaId`].
#[derive(Debug, PartialEq, Eq, Clone)]
pub struct Payload(pub Vec<u8>);

/// SchemaId governs interpretation of the payload stored in the record. SchemaId is local to the database engine.
#[derive(Clone, Copy, PartialEq, Structural, PartialOrd, Eq, Ord, Debug)]
pub struct SchemaId(pub u32);

/// The temporal data record.
#[derive(Debug, PartialEq, Eq, Clone)]
pub struct Record {
    /// Schema version governing payload interpretation. Local to this node's registry.
    pub schema_id: SchemaId,
    /// Globally unique row identifier, assigned by the storage engine at insertion time.
    pub row_id: RowId,
    /// The half-open interval [valid_from, valid_to) during which this record is valid in the real world.
    pub valid_interval: ValidInterval,
    /// Opaque serialised bytes. Interpretation is governed by SchemaId.
    pub payload: Payload,
}

impl SchemaId {
    /// The text of a schema identifier: `"schema:<id>"`.
    pub open spec fn display_text(self) -> Seq<char> {
        "schema:"@ + decimal(self.0 as nat)
    }

    /// Renders this identifier as `"schema:<id>"`.
    pub fn to_string(&self) -> (s: String)
        ensures
            s@ == self.display_text(),
    {
        let mut out = String::from_str("schema:");
        push_decimal(&mut out, self.0 as u64);
        out
    }
}

} // verus!

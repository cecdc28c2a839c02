//! Errors of the wire protocol.

use crate::text;
use vstd::prelude::*;

verus! {

/// What can be wrong with a message.
#[derive(Debug, Clone)]
pub enum ProtocolError {
    InvalidEventTag { tag: String },
    MissingField { field: String },
    InvalidId { id_type: String, value: String },
    SchemaViolation { details: String },
    BackwardCompatibilityViolation { field: String },
}

impl ProtocolError {
    /// The text of the error.
    pub open spec fn message(&self) -> Seq<char> {
        match *self {
            ProtocolError::InvalidEventTag { tag } => "invalid event tag: "@ + tag@,
            ProtocolError::MissingField { field } => "missing required field: "@ + field@,
            ProtocolError::InvalidId { id_type, value } => "invalid "@ + id_type@ + ": "@
                + value@,
            ProtocolError::SchemaViolation { details } => "schema violation: "@ + details@,
            ProtocolError::BackwardCompatibilityViolation { field } =>
                "backward compatibility violation: field '"@ + field@
                + "' changed incompatibly"@,
        }
    }

    pub fn to_string(&self) -> (r: String)
        ensures
            r@ == self.message(),
    {
        match self {
            ProtocolError::InvalidEventTag { tag } => text::cat("invalid event tag: ", tag.as_str()),
            ProtocolError::MissingField { field } => text::cat(
                "missing required field: ",
                field.as_str(),
            ),
            ProtocolError::InvalidId { id_type, value } => {
                let head = text::cat3("invalid ", id_type.as_str(), ": ");
                text::cat(head.as_str(), value.as_str())
            },
            ProtocolError::SchemaViolation { details } => text::cat(
                "schema violation: ",
                details.as_str(),
            ),
            ProtocolError::BackwardCompatibilityViolation { field } => text::cat3(
                "backward compatibility violation: field '",
                field.as_str(),
                "' changed incompatibly",
            ),
        }
    }
}

} // verus!

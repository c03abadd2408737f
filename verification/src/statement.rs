//! The shape check on a submitted identity statement.  A statement is
//! accepted only when it reduces to exactly one claim of kind "attribute
//! not in set", over the reserved residency attribute tag, whose excluded
//! set holds exactly one two-byte country code.  Nothing cryptographic
//! runs before this check has passed.

use vstd::prelude::*;
use crate::message::country_code_bytes;
use crate::service::ProofError;

verus! {

/// The reserved attribute tag for the country of residency.
pub const COUNTRY_OF_RESIDENCY: u8 = 4;

/// One atomic claim about a hidden identity attribute.
pub enum AtomicStatement {
    /// The attribute value is revealed outright.
    RevealAttribute { attribute_tag: u8 },
    /// The attribute value lies in `set`.
    AttributeInSet { attribute_tag: u8, set: Vec<String> },
    /// The attribute value lies outside `set`.
    AttributeNotInSet { attribute_tag: u8, set: Vec<String> },
    /// The attribute value lies between `lower` and `upper`.
    AttributeInRange { attribute_tag: u8, lower: String, upper: String },
}

/// An ordered sequence of atomic claims, submitted together with a proof.
pub struct Statement {
    pub statements: Vec<AtomicStatement>,
}

/// The country code claimed by a statement of exactly the allowed shape,
/// or nothing when the shape is off in any way.
pub open spec fn allowed_country_code(s: Statement) -> Option<Seq<char>> {
    if s.statements@.len() == 1 {
        match s.statements@[0] {
            AtomicStatement::AttributeNotInSet { attribute_tag, set } => {
                if attribute_tag == COUNTRY_OF_RESIDENCY && set@.len() == 1
                    && country_code_bytes(set@[0]@).len() == 2 {
                    Some(set@[0]@)
                } else {
                    None
                }
            },
            _ => None,
        }
    } else {
        None
    }
}

/// Accept a statement of the allowed shape and hand back its country
/// code; reject every other shape with `StatementNotAllowed`.
pub fn validate_statement(statement: &Statement) -> (r: Result<String, ProofError>)
    ensures
        match r {
            Ok(cc) => allowed_country_code(*statement) == Some(cc@),
            Err(e) => allowed_country_code(*statement) is None && e is StatementNotAllowed,
        },
{
    if statement.statements.len() != 1 {
        return Err(ProofError::StatementNotAllowed);
    }
    match &statement.statements[0] {
        AtomicStatement::AttributeNotInSet { attribute_tag, set } => {
            if *attribute_tag == COUNTRY_OF_RESIDENCY && set.len() == 1
                && set[0].as_str().as_bytes().len() == 2 {
                Ok(set[0].clone())
            } else {
                Err(ProofError::StatementNotAllowed)
            }
        },
        _ => Err(ProofError::StatementNotAllowed),
    }
}

} // verus!

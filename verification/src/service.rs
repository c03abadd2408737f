//! The verification service's decision logic: checking the shape of the
//! submitted statement before anything else, matching the submitted
//! credential against the one found on chain, issuing the signed
//! attestation once the zero-knowledge proof has been judged, and mapping
//! every failure to the response sent back over the wire.

use vstd::prelude::*;
use crate::base::{AccountAddress, SecretKeyEd25519};
use crate::crypto::{pk_of, sig_of, sig_valid, sign_message};
use crate::message::{message_bytes, SignatureMessageData};
use crate::statement::{allowed_country_code, Statement};

verus! {

/// Why a proof request was turned down.
#[derive(Debug, Clone)]
pub enum ProofError {
    /// The credential is of the "initial" kind and carries no usable
    /// commitments.
    NotAllowed,
    /// The cryptographic proof check failed.
    InvalidProofs,
    /// The chain node could not be reached; carries the underlying cause.
    NodeAccess(String),
    /// The queried credential is missing or does not match the submitted
    /// one.
    Credential,
    /// The statement does not have the allowed shape.
    StatementNotAllowed,
}

/// The response body sent on failure.
pub struct ErrorResponse {
    pub code: u16,
    pub message: String,
}

/// A 64-byte attestation signature, hex-encoded on the wire.
pub struct HexSignature(pub [u8; 64]);

impl View for HexSignature {
    type V = Seq<u8>;

    open spec fn view(&self) -> Seq<u8> {
        self.0@
    }
}

/// The registration identifier of an account credential, as raw bytes.
pub struct CredentialId(pub Vec<u8>);

impl View for CredentialId {
    type V = Seq<u8>;

    open spec fn view(&self) -> Seq<u8> {
        self.0@
    }
}

/// What the chain holds for an account's first credential, reduced to
/// what the decision logic reads: its kind and its registration id.
pub enum AccountCredential {
    /// Created directly by an identity provider; carries no commitments.
    Initial { cred_id: CredentialId },
    /// A full credential, carrying commitments to the holder's
    /// attributes.
    Normal { cred_id: CredentialId },
}

impl AccountCredential {
    /// The registration id bytes of this credential.
    pub open spec fn spec_cred_id(&self) -> Seq<u8> {
        match self {
            AccountCredential::Initial { cred_id } => cred_id@,
            AccountCredential::Normal { cred_id } => cred_id@,
        }
    }

    /// The registration id of this credential.
    pub fn cred_id(&self) -> (r: &CredentialId)
        ensures
            r@ == self.spec_cred_id(),
    {
        match self {
            AccountCredential::Initial { cred_id } => cred_id,
            AccountCredential::Normal { cred_id } => cred_id,
        }
    }
}

/// The exact outcome of the credential check: the credential must exist,
/// must match the submitted registration id, and must not be of the
/// "initial" kind.
pub open spec fn credential_outcome(
    submitted: Seq<u8>,
    credential: Option<AccountCredential>,
) -> Result<(), ProofError> {
    match credential {
        Option::None => Result::Err(ProofError::Credential),
        Option::Some(c) => if c.spec_cred_id() != submitted {
            Result::Err(ProofError::Credential)
        } else if c is Initial {
            Result::Err(ProofError::NotAllowed)
        } else {
            Result::Ok(())
        },
    }
}

/// Byte-for-byte equality of two byte vectors.
fn bytes_match(a: &Vec<u8>, b: &Vec<u8>) -> (r: bool)
    ensures
        r == (a@ == b@),
{
    if a.len() != b.len() {
        return false;
    }
    let mut i: usize = 0;
    while i < a.len()
        invariant
            i <= a@.len(),
            a@.len() == b@.len(),
            forall|j: int| 0 <= j < i ==> a@[j] == b@[j],
        decreases a@.len() - i,
    {
        if a[i] != b[i] {
            assert(a@ != b@);
            return false;
        }
        i += 1;
    }
    assert(a@ =~= b@);
    true
}

/// Check the queried credential against the submitted registration id.
pub fn check_credential(
    submitted: &CredentialId,
    credential: &Option<AccountCredential>,
) -> (r: Result<(), ProofError>)
    ensures
        r == credential_outcome(submitted@, *credential),
{
    match credential {
        Option::None => Err(ProofError::Credential),
        Option::Some(c) => {
            if !bytes_match(&c.cred_id().0, &submitted.0) {
                Err(ProofError::Credential)
            } else {
                match c {
                    AccountCredential::Initial { .. } => Err(ProofError::NotAllowed),
                    AccountCredential::Normal { .. } => Ok(()),
                }
            }
        },
    }
}

/// The exact outcome of everything a proof request is checked for before
/// the proof itself is judged: first the statement shape, then the
/// credential.  A malformed statement is turned down before anything
/// else is looked at.
pub open spec fn request_outcome(
    submitted: Seq<u8>,
    credential: Option<AccountCredential>,
    statement: Statement,
) -> Result<Seq<char>, ProofError> {
    match allowed_country_code(statement) {
        Option::None => Result::Err(ProofError::StatementNotAllowed),
        Option::Some(cc) => match credential_outcome(submitted, credential) {
            Result::Err(e) => Result::Err(e),
            Result::Ok(_) => Result::Ok(cc),
        },
    }
}

/// Run the statement shape check and the credential check, in that
/// order, and hand back the validated country code.
pub fn check_proof_request(
    submitted: &CredentialId,
    credential: &Option<AccountCredential>,
    statement: &Statement,
) -> (r: Result<String, ProofError>)
    ensures
        r matches Ok(cc) ==> request_outcome(submitted@, *credential, *statement)
            == Result::<Seq<char>, ProofError>::Ok(cc@),
        r matches Err(e) ==> request_outcome(submitted@, *credential, *statement)
            == Result::<Seq<char>, ProofError>::Err(e),
{
    let country_code = match crate::statement::validate_statement(statement) {
        Ok(cc) => cc,
        Err(e) => {
            return Err(e);
        },
    };
    match check_credential(submitted, credential) {
        Err(e) => Err(e),
        Ok(_) => Ok(country_code),
    }
}

/// Issue the attestation for a judged proof: when the proof held, sign
/// the canonical message binding `address` to `country_code`; when it did
/// not, refuse with `InvalidProofs`.
pub fn issue_attestation(
    key: &SecretKeyEd25519,
    address: &AccountAddress,
    country_code: &String,
    proof_valid: bool,
) -> (r: Result<HexSignature, ProofError>)
    ensures
        proof_valid ==> (r matches Ok(sig)
            && sig@ == sig_of(key@, message_bytes(address@, country_code@))
            && sig_valid(pk_of(key@), message_bytes(address@, country_code@), sig@)),
        !proof_valid ==> (r matches Err(e) && e is InvalidProofs),
{
    if !proof_valid {
        return Err(ProofError::InvalidProofs);
    }
    let data = SignatureMessageData {
        account_address: *address,
        country_code: country_code.clone(),
    };
    let message = data.to_bytes();
    let sig = sign_message(key, message.as_slice());
    Ok(HexSignature(sig.0))
}

/// Everything a request can be rejected for, as seen by the transport
/// layer.
pub enum Rejection {
    /// No route matched the request.
    NotFound,
    /// The proof check turned the request down.
    Proof(ProofError),
    /// The request body could not be decoded.
    MalformedBody,
    /// Any other server-side failure.
    Internal,
}

/// Relies on `String::push_str`: appends the characters of `suffix`.
#[verifier::external_body]
fn append_str(s: &mut String, suffix: &str)
    ensures
        final(s)@ == old(s)@ + suffix@,
{
    s.push_str(suffix)
}

/// Map a rejection to the response sent to the caller: a human-readable
/// message and the status code of its category.
pub fn handle_rejection(err: &Rejection) -> (resp: ErrorResponse)
    ensures
        match *err {
            Rejection::NotFound => resp.code == 404 && resp.message@ == "Not found."@,
            Rejection::Proof(ProofError::NotAllowed) => resp.code == 400
                && resp.message@ == "Needs proof."@,
            Rejection::Proof(ProofError::InvalidProofs) => resp.code == 400
                && resp.message@ == "Invalid proofs."@,
            Rejection::Proof(ProofError::StatementNotAllowed) => resp.code == 400
                && resp.message@ == "Statement not allowed."@,
            Rejection::Proof(ProofError::NodeAccess(detail)) => resp.code == 500
                && resp.message@ == "Cannot access the node: "@ + detail@,
            Rejection::Proof(ProofError::Credential) => resp.code == 500
                && resp.message@ == "Internal error."@,
            Rejection::MalformedBody => resp.code == 400
                && resp.message@ == "Malformed body."@,
            Rejection::Internal => resp.code == 500 && resp.message@ == "Internal error."@,
        },
{
    match err {
        Rejection::NotFound => ErrorResponse { code: 404, message: "Not found.".to_owned() },
        Rejection::Proof(ProofError::NotAllowed) => ErrorResponse {
            code: 400,
            message: "Needs proof.".to_owned(),
        },
        Rejection::Proof(ProofError::InvalidProofs) => ErrorResponse {
            code: 400,
            message: "Invalid proofs.".to_owned(),
        },
        Rejection::Proof(ProofError::StatementNotAllowed) => ErrorResponse {
            code: 400,
            message: "Statement not allowed.".to_owned(),
        },
        Rejection::Proof(ProofError::NodeAccess(detail)) => {
            let mut message = "Cannot access the node: ".to_owned();
            append_str(&mut message, detail.as_str());
            ErrorResponse { code: 500, message }
        },
        Rejection::Proof(ProofError::Credential) => ErrorResponse {
            code: 500,
            message: "Internal error.".to_owned(),
        },
        Rejection::MalformedBody => ErrorResponse {
            code: 400,
            message: "Malformed body.".to_owned(),
        },
        Rejection::Internal => ErrorResponse {
            code: 500,
            message: "Internal error.".to_owned(),
        },
    }
}

} // verus!

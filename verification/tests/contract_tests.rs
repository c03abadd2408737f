//! Tests for the voting state machine: the time gate, the option check,
//! the sender check, the signature gate, re-voting, and the tally.

use voting::base::{AccountAddress, Address, ContractAddress, SecretKeyEd25519, SignatureEd25519, Timestamp};
use voting::contract::{init, InitParameter, State, VoteParameter, VotingError, VotingView};
use voting::crypto::public_key_for;
use voting::service::issue_attestation;

/// An account address of all 0s.
const ACC_0: AccountAddress = AccountAddress([0; 32]);
/// An account address of all 1s.
const ACC_1: AccountAddress = AccountAddress([1; 32]);
/// The unix epoch time in milliseconds for noon at Christmas eve 2023.
const CHRISTMAS_EVE_EPOCH: u64 = 1701873444000;

/// The fixed signing key used by the tests' verification service.
fn service_key() -> SecretKeyEd25519 {
    SecretKeyEd25519([7u8; 32])
}

/// An election over ["DK", "DE", "IT"] ending at `CHRISTMAS_EVE_EPOCH`,
/// gated on the public key matching `service_key()`.
fn setup_election() -> State {
    let sk = service_key();
    init(InitParameter {
        description: String::from("Concordium EuroVision"),
        options: vec![String::from("DK"), String::from("DE"), String::from("IT")],
        end_time: Timestamp::from_timestamp_millis(CHRISTMAS_EVE_EPOCH),
        verifier_public_key: public_key_for(&sk),
    })
}

/// A real attestation for (address, country code), signed by the key the
/// elections of these tests are initialized with.
fn attest(addr: &AccountAddress, country_code: &str) -> SignatureEd25519 {
    let sk = service_key();
    match issue_attestation(&sk, addr, &String::from(country_code), true) {
        Ok(hex) => SignatureEd25519(hex.0),
        Err(_) => panic!("a judged-valid proof must yield an attestation"),
    }
}

fn vote_param(country_code: &str, signature: SignatureEd25519) -> VoteParameter {
    VoteParameter { country_code: String::from(country_code), signature }
}

/// The count recorded in a view for one option name, if any.
fn tally_get(view: &VotingView, name: &str) -> Option<u32> {
    for (option, count) in &view.tally {
        if option.as_str() == name {
            return Some(*count);
        }
    }
    None
}

#[test]
fn test_vote_after_end_time() {
    let mut state = setup_election();
    let now = Timestamp::from_timestamp_millis(CHRISTMAS_EVE_EPOCH + 1);
    let param = vote_param("DE", attest(&ACC_0, "DE"));
    let error = state
        .vote(&Address::Account(ACC_0), now, &param)
        .expect_err("Vote fails");
    assert_eq!(error, VotingError::VotingFinished);
    assert_eq!(state.view().tally.len(), 0);
}

#[test]
fn test_vote_on_unknown_option_fails() {
    let mut state = setup_election();
    let now = Timestamp::from_timestamp_millis(0);
    // India is not an option of this election.
    let param = vote_param("IN", attest(&ACC_0, "IN"));
    let error = state
        .vote(&Address::Account(ACC_0), now, &param)
        .expect_err("Vote fails");
    assert_eq!(error, VotingError::InvalidVotingOption);
    assert_eq!(state.view().tally.len(), 0);
}

#[test]
fn test_valid_voting_with_multiple_accounts() {
    let mut state = setup_election();
    let now = Timestamp::from_timestamp_millis(0);

    // ACC_0 votes on Germany.
    state
        .vote(&Address::Account(ACC_0), now, &vote_param("DE", attest(&ACC_0, "DE")))
        .expect("Voting succeeds");
    let view_0 = state.view();
    // There is only a single entry.
    assert_eq!(view_0.tally.len(), 1);
    // There is one vote on Germany.
    assert_eq!(tally_get(&view_0, "DE"), Some(1));

    // ACC_1 votes on Denmark.
    state
        .vote(&Address::Account(ACC_1), now, &vote_param("DK", attest(&ACC_1, "DK")))
        .expect("Voting succeeds");
    let view_1 = state.view();
    // There are now two entries.
    assert_eq!(view_1.tally.len(), 2);
    // There is one vote on Germany.
    assert_eq!(tally_get(&view_1, "DE"), Some(1));
    // .. And one vote on Denmark.
    assert_eq!(tally_get(&view_1, "DK"), Some(1));

    // ACC_0 changes votes to Denmark.
    state
        .vote(&Address::Account(ACC_0), now, &vote_param("DK", attest(&ACC_0, "DK")))
        .expect("Voting succeeds");
    let view_2 = state.view();
    // There is only one entry again.
    assert_eq!(view_2.tally.len(), 1);
    // There are two votes on Denmark.
    assert_eq!(tally_get(&view_2, "DK"), Some(2));
}

#[test]
fn test_vote_exactly_at_end_time_succeeds() {
    let mut state = setup_election();
    let now = Timestamp::from_timestamp_millis(CHRISTMAS_EVE_EPOCH);
    state
        .vote(&Address::Account(ACC_0), now, &vote_param("IT", attest(&ACC_0, "IT")))
        .expect("Voting at the deadline still succeeds");
    assert_eq!(tally_get(&state.view(), "IT"), Some(1));
}

#[test]
fn test_contract_sender_rejected() {
    let mut state = setup_election();
    let now = Timestamp::from_timestamp_millis(0);
    let sender = Address::Contract(ContractAddress { index: 9, subindex: 0 });
    let param = vote_param("DE", attest(&ACC_0, "DE"));
    let error = state.vote(&sender, now, &param).expect_err("Vote fails");
    assert_eq!(error, VotingError::ContractVoter);
    assert_eq!(state.view().tally.len(), 0);
}

#[test]
fn test_tampered_attestation_rejected() {
    let mut state = setup_election();
    let now = Timestamp::from_timestamp_millis(0);
    let good = attest(&ACC_0, "DE");
    // Flipping any single bit of the attestation must be caught.
    for byte in 0..64 {
        for bit in 0..8 {
            let mut bad = good.0;
            bad[byte] ^= 1u8 << bit;
            let param = vote_param("DE", SignatureEd25519(bad));
            let error = state
                .vote(&Address::Account(ACC_0), now, &param)
                .expect_err("Tampered attestation fails");
            assert_eq!(error, VotingError::InvalidSignature);
        }
    }
    assert_eq!(state.view().tally.len(), 0);
}

#[test]
fn test_attestation_bound_to_address_and_option() {
    let mut state = setup_election();
    let now = Timestamp::from_timestamp_millis(0);
    // ACC_1 cannot use an attestation issued for ACC_0.
    let error = state
        .vote(&Address::Account(ACC_1), now, &vote_param("DE", attest(&ACC_0, "DE")))
        .expect_err("Vote fails");
    assert_eq!(error, VotingError::InvalidSignature);
    // ACC_0 cannot use its "DK" attestation to vote "DE".
    let error = state
        .vote(&Address::Account(ACC_0), now, &vote_param("DE", attest(&ACC_0, "DK")))
        .expect_err("Vote fails");
    assert_eq!(error, VotingError::InvalidSignature);
    assert_eq!(state.view().tally.len(), 0);
}

#[test]
fn test_attestation_under_wrong_key_rejected() {
    let mut state = setup_election();
    let now = Timestamp::from_timestamp_millis(0);
    let other = SecretKeyEd25519([8u8; 32]);
    let sig = match issue_attestation(&other, &ACC_0, &String::from("DE"), true) {
        Ok(hex) => SignatureEd25519(hex.0),
        Err(_) => panic!("a judged-valid proof must yield an attestation"),
    };
    let error = state
        .vote(&Address::Account(ACC_0), now, &vote_param("DE", sig))
        .expect_err("Vote fails");
    assert_eq!(error, VotingError::InvalidSignature);
}

#[test]
fn test_revote_keeps_single_entry() {
    let mut state = setup_election();
    let now = Timestamp::from_timestamp_millis(0);
    state
        .vote(&Address::Account(ACC_0), now, &vote_param("DE", attest(&ACC_0, "DE")))
        .expect("Voting succeeds");
    state
        .vote(&Address::Account(ACC_0), now, &vote_param("IT", attest(&ACC_0, "IT")))
        .expect("Re-voting succeeds");
    let view = state.view();
    assert_eq!(view.tally.len(), 1);
    assert_eq!(tally_get(&view, "IT"), Some(1));
    assert_eq!(tally_get(&view, "DE"), None);
}

#[test]
fn test_empty_options_never_votable() {
    let sk = service_key();
    let mut state = init(InitParameter {
        description: String::from("No options at all"),
        options: Vec::new(),
        end_time: Timestamp::from_timestamp_millis(CHRISTMAS_EVE_EPOCH),
        verifier_public_key: public_key_for(&sk),
    });
    let now = Timestamp::from_timestamp_millis(0);
    let error = state
        .vote(&Address::Account(ACC_0), now, &vote_param("DE", attest(&ACC_0, "DE")))
        .expect_err("Vote fails");
    assert_eq!(error, VotingError::InvalidVotingOption);
}

#[test]
fn test_view_reports_election_data() {
    let state = setup_election();
    let view = state.view();
    assert_eq!(view.description.as_str(), "Concordium EuroVision");
    assert_eq!(view.end_time.timestamp_millis(), CHRISTMAS_EVE_EPOCH);
    assert_eq!(view.tally.len(), 0);
}

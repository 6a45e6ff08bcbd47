use fastcrypto_zkp::bn254::zk_login::JwkId;
use zklogin_verifier::jwk::{Jwk, KeyId};
use zklogin_verifier::network::{ProofEnvironment, SuiEnv};
use zklogin_verifier::pipeline::{
    verify, Action, AuthorSource, Event, PayloadKind, SignatureKind, Verification,
};
use zklogin_verifier::request::{IntentScope, VerifyError, VerifyRequest, VerifyResponse};
use zklogin_verifier::store::AppState;

fn request(scope: IntentScope, network: Option<SuiEnv>, curr_epoch: Option<u64>) -> VerifyRequest {
    VerifyRequest {
        signature: "AAEC".to_string(),
        bytes: "/v8=".to_string(),
        intent_scope: scope,
        author: None,
        network,
        curr_epoch,
    }
}

fn answer(verification: &Verification) -> Option<Result<VerifyResponse, VerifyError>> {
    match verification.action() {
        Action::Respond(result) => Some(result),
        _ => None,
    }
}

fn key(n: &str) -> Jwk {
    Jwk { kty: "RSA".to_string(), e: "AQAB".to_string(), n: n.to_string(), alg: "RS256".to_string() }
}

#[test]
fn the_fields_are_decoded_from_base64() {
    let state = AppState::new();
    let v = verify(&state, &request(IntentScope::TransactionData, None, Some(3)));
    match v.action() {
        Action::ParseSignature { bytes } => assert_eq!(bytes, vec![0u8, 1, 2]),
        _ => panic!("the signature is to be read first"),
    }
    let v = v.step(&state, Event::SignatureParsed(SignatureKind::ZkLogin));
    match v.action() {
        Action::ParsePayload { kind, bytes } => {
            assert_eq!(kind, PayloadKind::Transaction);
            assert_eq!(bytes, vec![0xfeu8, 0xff]);
        }
        _ => panic!("the payload is to be read next"),
    }
}

#[test]
fn a_field_that_is_no_base64_ends_the_verification_at_once() {
    let state = AppState::new();
    let mut bad_signature = request(IntentScope::TransactionData, None, None);
    bad_signature.signature = "badsig".to_string();
    assert_eq!(answer(&verify(&state, &bad_signature)), Some(Err(VerifyError::ParsingError)));
    let mut bad_bytes = request(IntentScope::TransactionData, None, Some(1));
    bad_bytes.bytes = "not base64!".to_string();
    assert_eq!(answer(&verify(&state, &bad_bytes)), Some(Err(VerifyError::ParsingError)));
    let mut unpadded = request(IntentScope::TransactionData, None, Some(1));
    unpadded.bytes = "/v8".to_string();
    assert_eq!(answer(&verify(&state, &unpadded)), Some(Err(VerifyError::ParsingError)));
}

#[test]
fn begin_takes_the_decoded_fields() {
    let state = AppState::new();
    let req = request(IntentScope::PersonalMessage, Some(SuiEnv::Devnet), Some(9));
    let v = Verification::begin(&state, &req, Some(vec![5, 6]), Some(vec![7]));
    assert!(matches!(v.action(), Action::ParseSignature { bytes } if bytes == vec![5u8, 6]));
    let v = Verification::begin(&state, &req, None, Some(vec![7]));
    assert_eq!(answer(&v), Some(Err(VerifyError::ParsingError)));
    let v = Verification::begin(&state, &req, Some(vec![5, 6]), None);
    assert_eq!(answer(&v), Some(Err(VerifyError::ParsingError)));
    let v = Verification::begin(&state, &req, None, None);
    assert_eq!(answer(&v), Some(Err(VerifyError::ParsingError)));
}

#[test]
fn without_an_epoch_the_network_of_the_request_is_asked() {
    let state = AppState::new();
    let v = verify(&state, &request(IntentScope::TransactionData, None, None));
    assert!(matches!(
        v.action(),
        Action::FetchEpoch { endpoint: "https://fullnode.mainnet.sui.io:443" }
    ));
    let v = verify(&state, &request(IntentScope::TransactionData, Some(SuiEnv::Localnet), None));
    assert!(matches!(v.action(), Action::FetchEpoch { endpoint: "http://127.0.0.1:9000" }));
    let v = verify(&state, &request(IntentScope::TransactionData, Some(SuiEnv::Testnet), None));
    assert!(matches!(
        v.action(),
        Action::FetchEpoch { endpoint: "https://fullnode.testnet.sui.io:443" }
    ));
    let v = verify(&state, &request(IntentScope::TransactionData, Some(SuiEnv::Devnet), None));
    assert!(matches!(
        v.action(),
        Action::FetchEpoch { endpoint: "https://fullnode.devnet.sui.io:443" }
    ));
}

#[test]
fn an_epoch_that_cannot_be_had_ends_the_verification() {
    let state = AppState::new();
    let v = verify(&state, &request(IntentScope::TransactionData, None, None));
    let v = v.step(&state, Event::EpochFetched(None));
    assert_eq!(answer(&v), Some(Err(VerifyError::GetEpochError)));
}

#[test]
fn a_fetched_epoch_is_the_epoch_of_the_verification() {
    let state = AppState::new();
    let v = verify(&state, &request(IntentScope::TransactionData, Some(SuiEnv::Testnet), None));
    let v = v.step(&state, Event::EpochFetched(Some(412)));
    let v = v.step(&state, Event::SignatureParsed(SignatureKind::ZkLogin));
    let v = v.step(&state, Event::PayloadParsed(true));
    match v.action() {
        Action::CheckProof { kind, author, curr_epoch, params } => {
            assert_eq!(kind, PayloadKind::Transaction);
            assert_eq!(author, AuthorSource::TransactionSender);
            assert_eq!(curr_epoch, 412);
            assert_eq!(params.env, ProofEnvironment::Production);
        }
        _ => panic!("the proof is to be checked"),
    }
}

#[test]
fn a_given_epoch_wins_and_nothing_is_fetched() {
    let state = AppState::new();
    let v = verify(&state, &request(IntentScope::TransactionData, Some(SuiEnv::Devnet), Some(0)));
    let v = v.step(&state, Event::EpochFetched(Some(77)));
    assert!(matches!(v.action(), Action::ParseSignature { .. }));
    let v = v.step(&state, Event::SignatureParsed(SignatureKind::ZkLogin));
    let v = v.step(&state, Event::PayloadParsed(true));
    assert!(matches!(v.action(), Action::CheckProof { curr_epoch: 0, .. }));
}

#[test]
fn the_verifier_is_handed_the_bundle_of_the_request() {
    let mut state = AppState::new();
    state.jwks.upsert_if_absent(KeyId::new("iss".to_string(), "kid".to_string()), key("n"));
    for (network, env) in [
        (SuiEnv::Mainnet, ProofEnvironment::Production),
        (SuiEnv::Testnet, ProofEnvironment::Production),
        (SuiEnv::Devnet, ProofEnvironment::Test),
        (SuiEnv::Localnet, ProofEnvironment::Test),
    ] {
        let v = verify(&state, &request(IntentScope::TransactionData, Some(network), Some(5)));
        let v = v.step(&state, Event::SignatureParsed(SignatureKind::ZkLogin));
        let v = v.step(&state, Event::PayloadParsed(true));
        match v.action() {
            Action::CheckProof { params, curr_epoch, .. } => {
                assert_eq!(curr_epoch, 5);
                assert_eq!(params.env, env);
                assert!(params.provider_list.is_empty());
                assert!(params.verify_legacy_address);
                assert!(params.accept_in_multisig);
                assert_eq!(params.jwks.len(), 1);
                let id = JwkId { iss: "iss".to_string(), kid: "kid".to_string() };
                assert_eq!(params.jwks.get(&id).map(|jwk| jwk.n.clone()), Some("n".to_string()));
            }
            _ => panic!("the proof is to be checked"),
        }
    }
}

#[test]
fn the_keys_are_those_of_the_moment_the_epoch_became_known() {
    let mut state = AppState::new();
    state.jwks.upsert_if_absent(KeyId::new("a".to_string(), "1".to_string()), key("a1"));
    let given = verify(&state, &request(IntentScope::TransactionData, None, Some(5)));
    let fetched = verify(&state, &request(IntentScope::TransactionData, None, None));
    state.jwks.upsert_if_absent(KeyId::new("a".to_string(), "2".to_string()), key("a2"));
    let fetched = fetched.step(&state, Event::EpochFetched(Some(5)));
    state.jwks.upsert_if_absent(KeyId::new("a".to_string(), "3".to_string()), key("a3"));
    let given = given.step(&state, Event::SignatureParsed(SignatureKind::ZkLogin));
    let given = given.step(&state, Event::PayloadParsed(true));
    let fetched = fetched.step(&state, Event::SignatureParsed(SignatureKind::ZkLogin));
    let fetched = fetched.step(&state, Event::PayloadParsed(true));
    assert!(matches!(given.action(), Action::CheckProof { params, .. } if params.jwks.len() == 1));
    assert!(matches!(fetched.action(), Action::CheckProof { params, .. } if params.jwks.len() == 2));
}

#[test]
fn only_a_zklogin_signature_is_verified() {
    let state = AppState::new();
    for kind in [SignatureKind::Other, SignatureKind::Malformed] {
        for scope in [IntentScope::TransactionData, IntentScope::PersonalMessage, IntentScope::Other] {
            let v = verify(&state, &request(scope, None, Some(1)));
            let v = v.step(&state, Event::SignatureParsed(kind));
            assert_eq!(answer(&v), Some(Err(VerifyError::ParsingError)));
        }
    }
}

#[test]
fn a_scope_that_users_do_not_sign_under_is_a_parsing_error() {
    let state = AppState::new();
    let v = verify(&state, &request(IntentScope::Other, Some(SuiEnv::Devnet), Some(1)));
    assert!(matches!(v.action(), Action::ParseSignature { .. }));
    let v = v.step(&state, Event::SignatureParsed(SignatureKind::ZkLogin));
    assert_eq!(answer(&v), Some(Err(VerifyError::ParsingError)));
}

#[test]
fn a_payload_that_is_not_of_its_scope_is_a_parsing_error() {
    let state = AppState::new();
    for scope in [IntentScope::TransactionData, IntentScope::PersonalMessage] {
        let v = verify(&state, &request(scope, None, Some(1)));
        let v = v.step(&state, Event::SignatureParsed(SignatureKind::ZkLogin));
        let v = v.step(&state, Event::PayloadParsed(false));
        assert_eq!(answer(&v), Some(Err(VerifyError::ParsingError)));
    }
}

#[test]
fn the_author_of_a_personal_message_is_derived_from_the_signature() {
    let state = AppState::new();
    let mut req = request(IntentScope::PersonalMessage, Some(SuiEnv::Devnet), Some(1));
    req.author = Some("0x1ca605241c12e673ceefd617923332bda463192e7b86ac737f2776c86b5e8f01".to_string());
    let v = verify(&state, &req);
    let v = v.step(&state, Event::SignatureParsed(SignatureKind::ZkLogin));
    assert!(matches!(
        v.action(),
        Action::ParsePayload { kind: PayloadKind::PersonalMessage, .. }
    ));
    let v = v.step(&state, Event::PayloadParsed(true));
    assert!(matches!(v.action(), Action::DeriveAuthor));
    let v = v.step(&state, Event::AuthorDerived(true));
    assert!(matches!(
        v.action(),
        Action::CheckProof {
            kind: PayloadKind::PersonalMessage,
            author: AuthorSource::SignatureIdentity,
            curr_epoch: 1,
            ..
        }
    ));
    let v = v.step(&state, Event::ProofAccepted);
    assert_eq!(answer(&v), Some(Ok(VerifyResponse { is_verified: true })));
}

#[test]
fn an_address_that_cannot_be_derived_ends_the_verification() {
    let state = AppState::new();
    let v = verify(&state, &request(IntentScope::PersonalMessage, None, Some(1)));
    let v = v.step(&state, Event::SignatureParsed(SignatureKind::ZkLogin));
    let v = v.step(&state, Event::PayloadParsed(true));
    let v = v.step(&state, Event::AuthorDerived(false));
    assert_eq!(answer(&v), Some(Err(VerifyError::AddressDeriveError)));
}

#[test]
fn the_author_of_a_transaction_is_its_sender_whatever_the_caller_says() {
    let state = AppState::new();
    let mut req = request(IntentScope::TransactionData, None, Some(1));
    req.author = Some("0x02".to_string());
    let v = verify(&state, &req);
    let v = v.step(&state, Event::SignatureParsed(SignatureKind::ZkLogin));
    let v = v.step(&state, Event::PayloadParsed(true));
    assert!(matches!(
        v.action(),
        Action::CheckProof { author: AuthorSource::TransactionSender, .. }
    ));
}

#[test]
fn the_words_of_the_verifier_are_passed_on_as_they_are() {
    let state = AppState::new();
    let v = verify(&state, &request(IntentScope::TransactionData, None, Some(1)));
    let v = v.step(&state, Event::SignatureParsed(SignatureKind::ZkLogin));
    let v = v.step(&state, Event::PayloadParsed(true));
    let v = v.step(&state, Event::ProofRejected("Groth16 proof verify failed".to_string()));
    assert_eq!(
        answer(&v),
        Some(Err(VerifyError::GenericError("Groth16 proof verify failed".to_string())))
    );
}

#[test]
fn an_event_the_verification_did_not_ask_for_changes_nothing() {
    let state = AppState::new();
    let v = verify(&state, &request(IntentScope::TransactionData, None, None));
    let v = v.step(&state, Event::ProofAccepted);
    let v = v.step(&state, Event::SignatureParsed(SignatureKind::ZkLogin));
    assert!(matches!(v.action(), Action::FetchEpoch { .. }));
    let v = v.step(&state, Event::EpochFetched(Some(2)));
    let v = v.step(&state, Event::PayloadParsed(true));
    let v = v.step(&state, Event::AuthorDerived(true));
    let v = v.step(&state, Event::ProofRejected("early".to_string()));
    assert!(matches!(v.action(), Action::ParseSignature { bytes } if bytes == vec![0u8, 1, 2]));
    let v = v.step(&state, Event::SignatureParsed(SignatureKind::ZkLogin));
    let v = v.step(&state, Event::AuthorDerived(false));
    assert!(matches!(v.action(), Action::ParsePayload { .. }));
    let v = v.step(&state, Event::PayloadParsed(true));
    let v = v.step(&state, Event::PayloadParsed(false));
    assert!(matches!(v.action(), Action::CheckProof { .. }));
}

#[test]
fn an_answer_once_given_stands() {
    let state = AppState::new();
    let v = verify(&state, &request(IntentScope::TransactionData, None, Some(1)));
    let v = v.step(&state, Event::SignatureParsed(SignatureKind::ZkLogin));
    let v = v.step(&state, Event::PayloadParsed(true));
    let v = v.step(&state, Event::ProofAccepted);
    assert_eq!(answer(&v), Some(Ok(VerifyResponse { is_verified: true })));
    assert_eq!(answer(&v), Some(Ok(VerifyResponse { is_verified: true })));
    let v = v.step(&state, Event::ProofRejected("late".to_string()));
    let v = v.step(&state, Event::EpochFetched(None));
    assert_eq!(answer(&v), Some(Ok(VerifyResponse { is_verified: true })));
}

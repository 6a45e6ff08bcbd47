//! The pipeline that takes one request from its encoded fields to a verdict.
//!
//! A verification goes through its steps in a fixed order, and the first
//! step that fails ends it. What lies outside this crate (asking a network
//! for its epoch, reading a signature or a payload, deriving an address,
//! checking a proof) is asked for as an `Action`, and what came of it is
//! handed back as an `Event`.

use vstd::prelude::*;
use fastcrypto_zkp::bn254::zk_login::{JwkId, JWK};
use im::hashmap::HashMap as ImHashMap;
use crate::encoding::{base64_decode, base64_decoded};
use crate::jwk::KeyMap;
use crate::network::{ProofEnvironment, SuiEnv};
use crate::refresher::Provider;
use crate::request::{
    copy_result, result_view, EpochSource, IntentScope, RequestView, ResultView, VerifyError,
    VerifyErrorView, VerifyRequest, VerifyResponse, VerifyResult,
};
use crate::snapshot::key_set_contents;
use crate::store::{AppState, JwkStore};

verus! {

/// What the bytes of a signature turned out to be.
#[derive(Clone, Copy, Debug, PartialEq, Eq, Structural)]
pub enum SignatureKind {
    /// A zkLogin authenticator.
    ZkLogin,
    /// A signature of another scheme.
    Other,
    /// No signature at all.
    Malformed,
}

/// The two kinds of payload that users sign.
#[derive(Clone, Copy, Debug, PartialEq, Eq, Structural)]
pub enum PayloadKind {
    /// A transaction, signed in the envelope of transactions.
    Transaction,
    /// A personal message, signed in the envelope of personal messages.
    PersonalMessage,
}

/// Where the address of the signer is taken from.
#[derive(Clone, Copy, Debug, PartialEq, Eq, Structural)]
pub enum AuthorSource {
    /// The sender that the transaction names.
    TransactionSender,
    /// The identity that the signature itself holds.
    SignatureIdentity,
}

/// What a verification rests on once its epoch is known.
pub struct ResolvedContext {
    /// The epoch to verify against.
    pub curr_epoch: u64,
    /// The signing keys as the store held them when the epoch became known.
    pub jwks: JwkStore,
    /// The proof parameters of the request's network.
    pub env: ProofEnvironment,
}

/// What a `ResolvedContext` is in contracts.
pub struct ContextView {
    pub curr_epoch: u64,
    pub jwks: KeyMap,
    pub env: ProofEnvironment,
}

impl View for ResolvedContext {
    type V = ContextView;

    open spec fn view(&self) -> ContextView {
        ContextView { curr_epoch: self.curr_epoch, jwks: self.jwks@, env: self.env }
    }
}

/// What the proof verifier is handed besides the message, the author and
/// the epoch.
pub struct VerifyParams {
    /// The signing keys to check the proof against.
    pub jwks: ImHashMap<JwkId, JWK>,
    /// The providers that the verifier is told of. None is ever listed.
    pub provider_list: Vec<Provider>,
    /// The proof parameters.
    pub env: ProofEnvironment,
    /// Whether an address in the older of the two forms is accepted.
    pub verify_legacy_address: bool,
    /// Whether a zkLogin signature is accepted inside a multisig.
    pub accept_in_multisig: bool,
}

/// What `VerifyParams` are in contracts.
pub struct ParamsView {
    pub jwks: KeyMap,
    pub provider_list: Seq<Provider>,
    pub env: ProofEnvironment,
    pub verify_legacy_address: bool,
    pub accept_in_multisig: bool,
}

impl View for VerifyParams {
    type V = ParamsView;

    open spec fn view(&self) -> ParamsView {
        ParamsView {
            jwks: key_set_contents(self.jwks),
            provider_list: self.provider_list@,
            env: self.env,
            verify_legacy_address: self.verify_legacy_address,
            accept_in_multisig: self.accept_in_multisig,
        }
    }
}

impl ContextView {
    /// The parameters that the verifier is handed in this context: the keys
    /// and the proof parameters of the context, no provider listed, and
    /// both allowances granted.
    pub open spec fn params(self) -> ParamsView {
        ParamsView {
            jwks: self.jwks,
            provider_list: Seq::empty(),
            env: self.env,
            verify_legacy_address: true,
            accept_in_multisig: true,
        }
    }
}

impl ResolvedContext {
    /// The parameters that the verifier is handed in this context.
    pub fn params(&self) -> (params: VerifyParams)
        ensures
            params@ == self@.params(),
    {
        VerifyParams {
            jwks: self.jwks.key_set(),
            provider_list: Vec::new(),
            env: self.env,
            verify_legacy_address: true,
            accept_in_multisig: true,
        }
    }
}

/// What a verification asks to be done next.
pub enum Action {
    /// Ask the full node at this address for the current epoch.
    FetchEpoch { endpoint: &'static str },
    /// Read these bytes as a signature.
    ParseSignature { bytes: Vec<u8> },
    /// Read these bytes as a payload of this kind.
    ParsePayload { kind: PayloadKind, bytes: Vec<u8> },
    /// Derive the address of the signer from the signature.
    DeriveAuthor,
    /// Check the proof: over the payload in the envelope of its kind, for
    /// the signer from this source, at this epoch, with these parameters.
    CheckProof { kind: PayloadKind, author: AuthorSource, curr_epoch: u64, params: VerifyParams },
    /// Nothing is left to do: this is the answer.
    Respond(VerifyResult),
}

/// What an `Action` is in contracts.
pub enum ActionView {
    FetchEpoch { endpoint: Seq<char> },
    ParseSignature { bytes: Seq<u8> },
    ParsePayload { kind: PayloadKind, bytes: Seq<u8> },
    DeriveAuthor,
    CheckProof { kind: PayloadKind, author: AuthorSource, curr_epoch: u64, params: ParamsView },
    Respond(ResultView),
}

impl View for Action {
    type V = ActionView;

    open spec fn view(&self) -> ActionView {
        match self {
            Action::FetchEpoch { endpoint } => ActionView::FetchEpoch { endpoint: endpoint@ },
            Action::ParseSignature { bytes } => ActionView::ParseSignature { bytes: bytes@ },
            Action::ParsePayload { kind, bytes } => ActionView::ParsePayload {
                kind: *kind,
                bytes: bytes@,
            },
            Action::DeriveAuthor => ActionView::DeriveAuthor,
            Action::CheckProof { kind, author, curr_epoch, params } => ActionView::CheckProof {
                kind: *kind,
                author: *author,
                curr_epoch: *curr_epoch,
                params: params@,
            },
            Action::Respond(result) => ActionView::Respond(result_view(*result)),
        }
    }
}

/// What came of the last thing a verification asked for.
#[derive(Debug)]
pub enum Event {
    /// The network's current epoch, or nothing where it could not be had.
    EpochFetched(Option<u64>),
    /// What the signature bytes turned out to be.
    SignatureParsed(SignatureKind),
    /// Whether the payload bytes are a payload of the kind asked for.
    PayloadParsed(bool),
    /// Whether an address could be derived from the signature.
    AuthorDerived(bool),
    /// The verifier found the signature valid.
    ProofAccepted,
    /// The verifier turned the signature down, in these words.
    ProofRejected(String),
}

/// What an `Event` is in contracts.
pub enum EventView {
    EpochFetched(Option<u64>),
    SignatureParsed(SignatureKind),
    PayloadParsed(bool),
    AuthorDerived(bool),
    ProofAccepted,
    ProofRejected(Seq<char>),
}

impl View for Event {
    type V = EventView;

    open spec fn view(&self) -> EventView {
        match self {
            Event::EpochFetched(epoch) => EventView::EpochFetched(*epoch),
            Event::SignatureParsed(kind) => EventView::SignatureParsed(*kind),
            Event::PayloadParsed(parsed) => EventView::PayloadParsed(*parsed),
            Event::AuthorDerived(derived) => EventView::AuthorDerived(*derived),
            Event::ProofAccepted => EventView::ProofAccepted,
            Event::ProofRejected(message) => EventView::ProofRejected(message@),
        }
    }
}

/// What a `Verification` is in contracts: how far it has come, with what
/// it still holds.
pub enum VerificationView {
    /// Both fields are decoded; the network's epoch is awaited.
    AwaitingEpoch { signature: Seq<u8>, payload: Seq<u8>, scope: IntentScope, network: SuiEnv },
    /// The context is resolved; what the signature is, is awaited.
    AwaitingSignature {
        signature: Seq<u8>,
        payload: Seq<u8>,
        scope: IntentScope,
        context: ContextView,
    },
    /// The signature is a zkLogin authenticator; the payload is awaited.
    AwaitingPayload { kind: PayloadKind, payload: Seq<u8>, context: ContextView },
    /// The personal message is read; the signer's address is awaited.
    AwaitingAuthor { context: ContextView },
    /// All is there; the verifier's verdict is awaited.
    AwaitingVerdict { kind: PayloadKind, author: AuthorSource, context: ContextView },
    /// The verification has ended, in this result.
    Finished { result: ResultView },
}

/// The result of every request that was turned down for what it holds.
pub open spec fn parsing_error() -> VerificationView {
    VerificationView::Finished { result: Err(VerifyErrorView::ParsingError) }
}

/// A verification whose epoch has just become known: the keys are taken as
/// the store holds them now, the proof parameters from the network.
pub open spec fn resolved(
    signature: Seq<u8>,
    payload: Seq<u8>,
    scope: IntentScope,
    network: SuiEnv,
    curr_epoch: u64,
    keys: KeyMap,
) -> VerificationView {
    VerificationView::AwaitingSignature {
        signature,
        payload,
        scope,
        context: ContextView { curr_epoch, jwks: keys, env: network.proof_environment() },
    }
}

/// A verification at its start, given what the two encoded fields of the
/// request decode to: ended where one of them decodes to nothing, else
/// waiting for the epoch or, where the request gives it, for the signature.
pub open spec fn begin(
    keys: KeyMap,
    request: RequestView,
    signature: Option<Seq<u8>>,
    payload: Option<Seq<u8>>,
) -> VerificationView {
    match (signature, payload) {
        (Some(signature), Some(payload)) => match request.epoch_source() {
            EpochSource::Supplied(curr_epoch) => resolved(
                signature,
                payload,
                request.intent_scope,
                request.target_network(),
                curr_epoch,
                keys,
            ),
            EpochSource::Lookup(network) => VerificationView::AwaitingEpoch {
                signature,
                payload,
                scope: request.intent_scope,
                network,
            },
        },
        _ => parsing_error(),
    }
}

impl VerificationView {
    /// What the verification asks for.
    pub open spec fn action(self) -> ActionView {
        match self {
            VerificationView::AwaitingEpoch { network, .. } => ActionView::FetchEpoch {
                endpoint: network.endpoint(),
            },
            VerificationView::AwaitingSignature { signature, .. } => ActionView::ParseSignature {
                bytes: signature,
            },
            VerificationView::AwaitingPayload { kind, payload, .. } => ActionView::ParsePayload {
                kind,
                bytes: payload,
            },
            VerificationView::AwaitingAuthor { .. } => ActionView::DeriveAuthor,
            VerificationView::AwaitingVerdict { kind, author, context } => ActionView::CheckProof {
                kind,
                author,
                curr_epoch: context.curr_epoch,
                params: context.params(),
            },
            VerificationView::Finished { result } => ActionView::Respond(result),
        }
    }

    /// The verification after an event, with the keys that the store holds
    /// when the event comes. An event that is no answer to what the
    /// verification asks for leaves it as it is.
    pub open spec fn step(self, keys: KeyMap, event: EventView) -> VerificationView {
        match (self, event) {
            (
                VerificationView::AwaitingEpoch { signature, payload, scope, network },
                EventView::EpochFetched(fetched),
            ) => match fetched {
                Some(curr_epoch) => resolved(signature, payload, scope, network, curr_epoch, keys),
                None => VerificationView::Finished { result: Err(VerifyErrorView::GetEpochError) },
            },
            (
                VerificationView::AwaitingSignature { payload, scope, context, .. },
                EventView::SignatureParsed(found),
            ) => match (found, scope) {
                (SignatureKind::ZkLogin, IntentScope::TransactionData) => {
                    VerificationView::AwaitingPayload {
                        kind: PayloadKind::Transaction,
                        payload,
                        context,
                    }
                },
                (SignatureKind::ZkLogin, IntentScope::PersonalMessage) => {
                    VerificationView::AwaitingPayload {
                        kind: PayloadKind::PersonalMessage,
                        payload,
                        context,
                    }
                },
                _ => parsing_error(),
            },
            (
                VerificationView::AwaitingPayload { kind, context, .. },
                EventView::PayloadParsed(parsed),
            ) => if !parsed {
                parsing_error()
            } else {
                match kind {
                    PayloadKind::Transaction => VerificationView::AwaitingVerdict {
                        kind,
                        author: AuthorSource::TransactionSender,
                        context,
                    },
                    PayloadKind::PersonalMessage => VerificationView::AwaitingAuthor { context },
                }
            },
            (VerificationView::AwaitingAuthor { context }, EventView::AuthorDerived(derived)) => {
                if derived {
                    VerificationView::AwaitingVerdict {
                        kind: PayloadKind::PersonalMessage,
                        author: AuthorSource::SignatureIdentity,
                        context,
                    }
                } else {
                    VerificationView::Finished {
                        result: Err(VerifyErrorView::AddressDeriveError),
                    }
                }
            },
            (VerificationView::AwaitingVerdict { .. }, EventView::ProofAccepted) => {
                VerificationView::Finished { result: Ok(VerifyResponse { is_verified: true }) }
            },
            (VerificationView::AwaitingVerdict { .. }, EventView::ProofRejected(message)) => {
                VerificationView::Finished {
                    result: Err(VerifyErrorView::GenericError(message)),
                }
            },
            _ => self,
        }
    }
}

/// How far a verification has come, with what it still holds.
enum Stage {
    AwaitingEpoch { signature: Vec<u8>, payload: Vec<u8>, scope: IntentScope, network: SuiEnv },
    AwaitingSignature {
        signature: Vec<u8>,
        payload: Vec<u8>,
        scope: IntentScope,
        context: ResolvedContext,
    },
    AwaitingPayload { kind: PayloadKind, payload: Vec<u8>, context: ResolvedContext },
    AwaitingAuthor { context: ResolvedContext },
    AwaitingVerdict { kind: PayloadKind, author: AuthorSource, context: ResolvedContext },
    Finished { result: VerifyResult },
}

/// One verification on its way from a request to its answer.
pub struct Verification {
    stage: Stage,
}

impl View for Verification {
    type V = VerificationView;

    closed spec fn view(&self) -> VerificationView {
        match self.stage {
            Stage::AwaitingEpoch { signature, payload, scope, network } => {
                VerificationView::AwaitingEpoch {
                    signature: signature@,
                    payload: payload@,
                    scope,
                    network,
                }
            },
            Stage::AwaitingSignature { signature, payload, scope, context } => {
                VerificationView::AwaitingSignature {
                    signature: signature@,
                    payload: payload@,
                    scope,
                    context: context@,
                }
            },
            Stage::AwaitingPayload { kind, payload, context } => VerificationView::AwaitingPayload {
                kind,
                payload: payload@,
                context: context@,
            },
            Stage::AwaitingAuthor { context } => VerificationView::AwaitingAuthor {
                context: context@,
            },
            Stage::AwaitingVerdict { kind, author, context } => VerificationView::AwaitingVerdict {
                kind,
                author,
                context: context@,
            },
            Stage::Finished { result } => VerificationView::Finished {
                result: result_view(result),
            },
        }
    }
}

/// A copy of a run of bytes.
fn copy_bytes(bytes: &Vec<u8>) -> (copy: Vec<u8>)
    ensures
        copy@ == bytes@,
{
    let mut copy: Vec<u8> = Vec::new();
    let mut i: usize = 0;
    while i < bytes.len()
        invariant
            i <= bytes.len(),
            copy@ == bytes@.take(i as int),
        decreases bytes.len() - i,
    {
        copy.push(bytes[i]);
        proof {
            assert(bytes@.take(i + 1) == bytes@.take(i as int).push(bytes@[i as int]));
        }
        i += 1;
    }
    proof {
        assert(bytes@.take(i as int) == bytes@);
    }
    copy
}

/// What an optional run of bytes is in contracts.
pub open spec fn bytes_view(bytes: Option<Vec<u8>>) -> Option<Seq<u8>> {
    match bytes {
        Some(bytes) => Some(bytes@),
        None => None,
    }
}

impl Verification {
    /// A verification that has ended in an error.
    fn failed(error: VerifyError) -> (ended: Verification)
        ensures
            ended@ == (VerificationView::Finished { result: Err(error@) }),
    {
        Verification { stage: Stage::Finished { result: Err(error) } }
    }

    /// A verification whose epoch has just become known.
    fn resolved(
        state: &AppState,
        signature: Vec<u8>,
        payload: Vec<u8>,
        scope: IntentScope,
        network: SuiEnv,
        curr_epoch: u64,
    ) -> (next: Verification)
        ensures
            next@ == resolved(signature@, payload@, scope, network, curr_epoch, state.jwks@),
    {
        let env = network.get_params().1;
        let context = ResolvedContext { curr_epoch, jwks: state.jwks.read_snapshot(), env };
        Verification { stage: Stage::AwaitingSignature { signature, payload, scope, context } }
    }

    /// Starts the verification of a request whose two encoded fields were
    /// decoded already, each to its bytes or to nothing.
    pub fn begin(
        state: &AppState,
        request: &VerifyRequest,
        signature: Option<Vec<u8>>,
        payload: Option<Vec<u8>>,
    ) -> (started: Verification)
        ensures
            started@ == begin(state.jwks@, request@, bytes_view(signature), bytes_view(payload)),
    {
        match (signature, payload) {
            (Some(signature), Some(payload)) => match request.epoch_source() {
                EpochSource::Supplied(curr_epoch) => Verification::resolved(
                    state,
                    signature,
                    payload,
                    request.intent_scope,
                    request.target_network(),
                    curr_epoch,
                ),
                EpochSource::Lookup(network) => Verification {
                    stage: Stage::AwaitingEpoch {
                        signature,
                        payload,
                        scope: request.intent_scope,
                        network,
                    },
                },
            },
            _ => Verification::failed(VerifyError::ParsingError),
        }
    }

    /// What is to be done next. Once the verification has ended, this is
    /// its answer, and stays so.
    pub fn action(&self) -> (action: Action)
        ensures
            action@ == self@.action(),
    {
        match &self.stage {
            Stage::AwaitingEpoch { network, .. } => Action::FetchEpoch {
                endpoint: network.get_params().0,
            },
            Stage::AwaitingSignature { signature, .. } => Action::ParseSignature {
                bytes: copy_bytes(signature),
            },
            Stage::AwaitingPayload { kind, payload, .. } => Action::ParsePayload {
                kind: *kind,
                bytes: copy_bytes(payload),
            },
            Stage::AwaitingAuthor { .. } => Action::DeriveAuthor,
            Stage::AwaitingVerdict { kind, author, context } => Action::CheckProof {
                kind: *kind,
                author: *author,
                curr_epoch: context.curr_epoch,
                params: context.params(),
            },
            Stage::Finished { result } => Action::Respond(copy_result(result)),
        }
    }

    /// Takes in what came of the last action and moves on. The store is
    /// read at one point only: when the epoch becomes known.
    pub fn step(self, state: &AppState, event: Event) -> (next: Verification)
        ensures
            next@ == self@.step(state.jwks@, event@),
    {
        match self.stage {
            Stage::AwaitingEpoch { signature, payload, scope, network } => match event {
                Event::EpochFetched(Some(curr_epoch)) => Verification::resolved(
                    state,
                    signature,
                    payload,
                    scope,
                    network,
                    curr_epoch,
                ),
                Event::EpochFetched(None) => Verification::failed(VerifyError::GetEpochError),
                _ => Verification {
                    stage: Stage::AwaitingEpoch { signature, payload, scope, network },
                },
            },
            Stage::AwaitingSignature { signature, payload, scope, context } => match event {
                Event::SignatureParsed(found) => match (found, scope) {
                    (SignatureKind::ZkLogin, IntentScope::TransactionData) => Verification {
                        stage: Stage::AwaitingPayload {
                            kind: PayloadKind::Transaction,
                            payload,
                            context,
                        },
                    },
                    (SignatureKind::ZkLogin, IntentScope::PersonalMessage) => Verification {
                        stage: Stage::AwaitingPayload {
                            kind: PayloadKind::PersonalMessage,
                            payload,
                            context,
                        },
                    },
                    _ => Verification::failed(VerifyError::ParsingError),
                },
                _ => Verification {
                    stage: Stage::AwaitingSignature { signature, payload, scope, context },
                },
            },
            Stage::AwaitingPayload { kind, payload, context } => match event {
                Event::PayloadParsed(parsed) => if !parsed {
                    Verification::failed(VerifyError::ParsingError)
                } else {
                    match kind {
                        PayloadKind::Transaction => Verification {
                            stage: Stage::AwaitingVerdict {
                                kind,
                                author: AuthorSource::TransactionSender,
                                context,
                            },
                        },
                        PayloadKind::PersonalMessage => Verification {
                            stage: Stage::AwaitingAuthor { context },
                        },
                    }
                },
                _ => Verification { stage: Stage::AwaitingPayload { kind, payload, context } },
            },
            Stage::AwaitingAuthor { context } => match event {
                Event::AuthorDerived(derived) => if derived {
                    Verification {
                        stage: Stage::AwaitingVerdict {
                            kind: PayloadKind::PersonalMessage,
                            author: AuthorSource::SignatureIdentity,
                            context,
                        },
                    }
                } else {
                    Verification::failed(VerifyError::AddressDeriveError)
                },
                _ => Verification { stage: Stage::AwaitingAuthor { context } },
            },
            Stage::AwaitingVerdict { kind, author, context } => match event {
                Event::ProofAccepted => Verification {
                    stage: Stage::Finished { result: Ok(VerifyResponse { is_verified: true }) },
                },
                Event::ProofRejected(message) => Verification::failed(
                    VerifyError::GenericError(message),
                ),
                _ => Verification { stage: Stage::AwaitingVerdict { kind, author, context } },
            },
            Stage::Finished { result } => Verification { stage: Stage::Finished { result } },
        }
    }
}

/// Starts the verification of a request: decodes its two encoded fields
/// and goes as far as can be gone without anything from outside.
pub fn verify(state: &AppState, payload: &VerifyRequest) -> (started: Verification)
    ensures
        started@ == begin(
            state.jwks@,
            payload@,
            base64_decoded(payload.signature@),
            base64_decoded(payload.bytes@),
        ),
{
    let signature = match base64_decode(payload.signature.as_str()) {
        Ok(bytes) => Some(bytes),
        Err(_) => None,
    };
    let bytes = match base64_decode(payload.bytes.as_str()) {
        Ok(bytes) => Some(bytes),
        Err(_) => None,
    };
    Verification::begin(state, payload, signature, bytes)
}

} // verus!

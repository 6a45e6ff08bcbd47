//! What a verification comes to, said in one piece, and what follows from it.
//!
//! The pipeline moves step by step, each step an answer from outside. Here
//! the answers of one run are taken together, the result of the run is
//! stated over them, and the pipeline is shown to arrive at that result.

use vstd::prelude::*;
use crate::jwk::KeyMap;
use crate::pipeline::{
    begin, ActionView, AuthorSource, EventView, PayloadKind, SignatureKind, VerificationView,
};
use crate::request::{
    EpochSource, IntentScope, RequestView, ResultView, VerifyErrorView, VerifyResponse,
};

verus! {

/// What the proof verifier says of a signature.
pub enum Verdict {
    /// It is valid.
    Accepted,
    /// It is not, in these words.
    Rejected(Seq<char>),
}

/// What the outside has to say in one run of a verification, asked or not.
pub struct Outcomes {
    /// The network's epoch, or nothing where it cannot be had.
    pub fetched_epoch: Option<u64>,
    /// What the signature bytes are.
    pub signature: SignatureKind,
    /// Whether the payload bytes are a payload of the kind of the request.
    pub payload_parsed: bool,
    /// Whether an address can be derived from the signature.
    pub author_derived: bool,
    /// What the proof verifier says.
    pub verdict: Verdict,
}

impl Outcomes {
    /// The event by which the outside answers an action. A verification
    /// that has ended asks for nothing; what it is told then is of no
    /// account, and is taken to be the verdict.
    pub open spec fn answer(self, action: ActionView) -> EventView {
        match action {
            ActionView::FetchEpoch { .. } => EventView::EpochFetched(self.fetched_epoch),
            ActionView::ParseSignature { .. } => EventView::SignatureParsed(self.signature),
            ActionView::ParsePayload { .. } => EventView::PayloadParsed(self.payload_parsed),
            ActionView::DeriveAuthor => EventView::AuthorDerived(self.author_derived),
            ActionView::CheckProof { .. } | ActionView::Respond(_) => match self.verdict {
                Verdict::Accepted => EventView::ProofAccepted,
                Verdict::Rejected(message) => EventView::ProofRejected(message),
            },
        }
    }
}

/// The epoch that a request is verified against, or nothing where the
/// request gives none and the network's cannot be had.
pub open spec fn resolve_epoch(request: RequestView, outcomes: Outcomes) -> Option<u64> {
    match request.epoch_source() {
        EpochSource::Supplied(curr_epoch) => Some(curr_epoch),
        EpochSource::Lookup(_) => outcomes.fetched_epoch,
    }
}

/// The result of verifying a request, given what its two encoded fields
/// decode to and what the outside says. The steps are gates in a fixed
/// order, and the first that fails decides.
pub open spec fn verify_result(
    request: RequestView,
    signature: Option<Seq<u8>>,
    payload: Option<Seq<u8>>,
    outcomes: Outcomes,
) -> ResultView {
    if signature is None || payload is None {
        Err(VerifyErrorView::ParsingError)
    } else if resolve_epoch(request, outcomes) is None {
        Err(VerifyErrorView::GetEpochError)
    } else if outcomes.signature != SignatureKind::ZkLogin {
        Err(VerifyErrorView::ParsingError)
    } else if request.intent_scope == IntentScope::Other {
        Err(VerifyErrorView::ParsingError)
    } else if !outcomes.payload_parsed {
        Err(VerifyErrorView::ParsingError)
    } else if request.intent_scope == IntentScope::PersonalMessage && !outcomes.author_derived {
        Err(VerifyErrorView::AddressDeriveError)
    } else {
        match outcomes.verdict {
            Verdict::Accepted => Ok(VerifyResponse { is_verified: true }),
            Verdict::Rejected(message) => Err(VerifyErrorView::GenericError(message)),
        }
    }
}

/// A verification after so many rounds of asking and being answered, the
/// store holding the same keys throughout.
pub open spec fn run(
    verification: VerificationView,
    keys: KeyMap,
    outcomes: Outcomes,
    rounds: nat,
) -> VerificationView
    decreases rounds,
{
    if rounds == 0 {
        verification
    } else {
        run(
            verification.step(keys, outcomes.answer(verification.action())),
            keys,
            outcomes,
            (rounds - 1) as nat,
        )
    }
}

/// A run of one round more is the run, and then one round.
proof fn lemma_run_last(start: VerificationView, keys: KeyMap, outcomes: Outcomes, rounds: nat)
    ensures
        run(start, keys, outcomes, rounds + 1) == run(start, keys, outcomes, rounds).step(
            keys,
            outcomes.answer(run(start, keys, outcomes, rounds).action()),
        ),
    decreases rounds,
{
    let next = start.step(keys, outcomes.answer(start.action()));
    assert(run(start, keys, outcomes, rounds + 1) == run(next, keys, outcomes, rounds));
    if rounds > 0 {
        lemma_run_last(next, keys, outcomes, (rounds - 1) as nat);
        assert(run(start, keys, outcomes, rounds) == run(
            next,
            keys,
            outcomes,
            (rounds - 1) as nat,
        ));
    } else {
        assert(run(next, keys, outcomes, 0) == next);
    }
}

/// A verification that has ended stays as it ended, whatever it is told.
pub proof fn law_finished_stays(result: ResultView, keys: KeyMap, event: EventView)
    ensures
        (VerificationView::Finished { result }).step(keys, event) == (VerificationView::Finished {
            result,
        }),
        (VerificationView::Finished { result }).action() == ActionView::Respond(result),
{
}

/// Asked and answered five times, a verification has ended, and in the
/// result that `verify_result` states.
pub proof fn law_pipeline_reaches_result(
    keys: KeyMap,
    request: RequestView,
    signature: Option<Seq<u8>>,
    payload: Option<Seq<u8>>,
    outcomes: Outcomes,
)
    ensures
        run(begin(keys, request, signature, payload), keys, outcomes, 5)
            == (VerificationView::Finished {
            result: verify_result(request, signature, payload, outcomes),
        }),
{
    let start = begin(keys, request, signature, payload);
    lemma_run_last(start, keys, outcomes, 0);
    lemma_run_last(start, keys, outcomes, 1);
    lemma_run_last(start, keys, outcomes, 2);
    lemma_run_last(start, keys, outcomes, 3);
    lemma_run_last(start, keys, outcomes, 4);
}

/// A request is answered with a response exactly where every gate is
/// passed: both fields decode, the epoch is had, the signature is a zkLogin
/// authenticator, the scope is one that users sign under, the payload is
/// of that scope, the address can be derived where it has to be, and the
/// verifier accepts. The response then says that the signature is valid.
pub proof fn law_success(
    request: RequestView,
    signature: Option<Seq<u8>>,
    payload: Option<Seq<u8>>,
    outcomes: Outcomes,
)
    ensures
        verify_result(request, signature, payload, outcomes) is Ok <==> {
            &&& signature is Some
            &&& payload is Some
            &&& resolve_epoch(request, outcomes) is Some
            &&& outcomes.signature == SignatureKind::ZkLogin
            &&& request.intent_scope != IntentScope::Other
            &&& outcomes.payload_parsed
            &&& request.intent_scope == IntentScope::PersonalMessage ==> outcomes.author_derived
            &&& outcomes.verdict is Accepted
        },
        verify_result(request, signature, payload, outcomes) is Ok ==> verify_result(
            request,
            signature,
            payload,
            outcomes,
        ) == Ok::<VerifyResponse, VerifyErrorView>(VerifyResponse { is_verified: true }),
{
}

/// A signature that the verifier turns down, in a request that passes
/// every gate before the verifier, is answered with the verifier's words
/// as a `GenericError`, and no other request is answered so.
pub proof fn law_rejection_is_generic_error(
    request: RequestView,
    signature: Option<Seq<u8>>,
    payload: Option<Seq<u8>>,
    outcomes: Outcomes,
)
    ensures
        verify_result(request, signature, payload, outcomes) matches Err(
            VerifyErrorView::GenericError(message),
        ) <==> {
            &&& signature is Some
            &&& payload is Some
            &&& resolve_epoch(request, outcomes) is Some
            &&& outcomes.signature == SignatureKind::ZkLogin
            &&& request.intent_scope != IntentScope::Other
            &&& outcomes.payload_parsed
            &&& request.intent_scope == IntentScope::PersonalMessage ==> outcomes.author_derived
            &&& outcomes.verdict is Rejected
        },
        verify_result(request, signature, payload, outcomes) matches Err(
            VerifyErrorView::GenericError(message),
        ) ==> outcomes.verdict == Verdict::Rejected(message),
{
}

/// The verifier is asked about the epoch of the request and under the
/// proof parameters of the request's network: where the request gives an
/// epoch, that one and no other, whatever the network's epoch is.
pub proof fn law_verifier_is_asked_as_requested(
    keys: KeyMap,
    request: RequestView,
    signature: Option<Seq<u8>>,
    payload: Option<Seq<u8>>,
    outcomes: Outcomes,
    rounds: nat,
)
    requires
        rounds <= 5,
        run(begin(keys, request, signature, payload), keys, outcomes, rounds).action()
            is CheckProof,
    ensures
        run(begin(keys, request, signature, payload), keys, outcomes, rounds).action() matches ActionView::CheckProof {
            kind,
            author,
            curr_epoch,
            params,
        } ==> {
            &&& Some(curr_epoch) == resolve_epoch(request, outcomes)
            &&& params.env == request.target_network().proof_environment()
            &&& params.jwks == keys
            &&& params.provider_list.len() == 0
            &&& params.verify_legacy_address
            &&& params.accept_in_multisig
            &&& kind == PayloadKind::Transaction <==> request.intent_scope
                == IntentScope::TransactionData
            &&& kind == PayloadKind::PersonalMessage <==> request.intent_scope
                == IntentScope::PersonalMessage
            &&& author == AuthorSource::TransactionSender <==> kind == PayloadKind::Transaction
        },
{
    let start = begin(keys, request, signature, payload);
    lemma_run_last(start, keys, outcomes, 0);
    lemma_run_last(start, keys, outcomes, 1);
    lemma_run_last(start, keys, outcomes, 2);
    lemma_run_last(start, keys, outcomes, 3);
    lemma_run_last(start, keys, outcomes, 4);
}

/// A request under a scope that users do not sign under is a parsing
/// error, whatever its payload holds, once its epoch is had.
pub proof fn law_foreign_scope_is_parsing_error(
    request: RequestView,
    signature: Option<Seq<u8>>,
    payload: Option<Seq<u8>>,
    outcomes: Outcomes,
)
    requires
        request.intent_scope == IntentScope::Other,
        resolve_epoch(request, outcomes) is Some || signature is None || payload is None,
    ensures
        verify_result(request, signature, payload, outcomes) == Err::<
            VerifyResponse,
            VerifyErrorView,
        >(VerifyErrorView::ParsingError),
{
}

/// A request whose signature field is no zkLogin authenticator (no Base64,
/// or Base64 of something else) is a parsing error, once its epoch is had.
/// Where the field is no Base64 at all, nothing else is looked at.
pub proof fn law_foreign_signature_is_parsing_error(
    request: RequestView,
    signature: Option<Seq<u8>>,
    payload: Option<Seq<u8>>,
    outcomes: Outcomes,
)
    requires
        signature is None || outcomes.signature != SignatureKind::ZkLogin,
        signature is None || payload is None || resolve_epoch(request, outcomes) is Some,
    ensures
        verify_result(request, signature, payload, outcomes) == Err::<
            VerifyResponse,
            VerifyErrorView,
        >(VerifyErrorView::ParsingError),
{
}

/// Verifying the same request twice, with the same keys in the store and
/// the same answers from outside, goes through the same states to the same
/// result: nothing that a verification does shows in the next.
pub proof fn law_verification_repeats(
    keys: KeyMap,
    request: RequestView,
    signature: Option<Seq<u8>>,
    payload: Option<Seq<u8>>,
    outcomes: Outcomes,
    first: VerificationView,
    second: VerificationView,
    rounds: nat,
)
    requires
        first == begin(keys, request, signature, payload),
        second == begin(keys, request, signature, payload),
    ensures
        run(first, keys, outcomes, rounds) == run(second, keys, outcomes, rounds),
        run(first, keys, outcomes, 5) == (VerificationView::Finished {
            result: verify_result(request, signature, payload, outcomes),
        }),
        run(second, keys, outcomes, 5) == (VerificationView::Finished {
            result: verify_result(request, signature, payload, outcomes),
        }),
{
    law_pipeline_reaches_result(keys, request, signature, payload, outcomes);
}

} // verus!

//! What a caller asks and what the caller is told.

use vstd::prelude::*;
use crate::network::SuiEnv;

verus! {

/// What kind of payload was signed. It decides how the payload bytes are
/// read and which envelope they were signed in.
#[derive(Clone, Copy, Debug, PartialEq, Eq, Structural)]
pub enum IntentScope {
    /// A transaction.
    TransactionData,
    /// A personal message.
    PersonalMessage,
    /// Any scope that users do not sign under.
    Other,
}

/// A request to verify one zkLogin signature.
#[derive(Debug)]
pub struct VerifyRequest {
    /// The signature, in Base64.
    pub signature: String,
    /// The payload that was signed, in Base64.
    pub bytes: String,
    /// How the payload is to be read.
    pub intent_scope: IntentScope,
    /// Who the caller holds the signer to be. It binds nothing: the signer
    /// is always taken from the payload or from the signature.
    pub author: Option<String>,
    /// The network to verify against; Mainnet where none is named.
    pub network: Option<SuiEnv>,
    /// The epoch to verify against; the network is asked where none is given.
    pub curr_epoch: Option<u64>,
}

/// What a `VerifyRequest` is in contracts.
pub struct RequestView {
    pub signature: Seq<char>,
    pub bytes: Seq<char>,
    pub intent_scope: IntentScope,
    pub author: Option<Seq<char>>,
    pub network: Option<SuiEnv>,
    pub curr_epoch: Option<u64>,
}

impl View for VerifyRequest {
    type V = RequestView;

    open spec fn view(&self) -> RequestView {
        RequestView {
            signature: self.signature@,
            bytes: self.bytes@,
            intent_scope: self.intent_scope,
            author: match self.author {
                Some(author) => Some(author@),
                None => None,
            },
            network: self.network,
            curr_epoch: self.curr_epoch,
        }
    }
}

/// Where the epoch of a verification comes from.
#[derive(Clone, Copy, Debug, PartialEq, Eq, Structural)]
pub enum EpochSource {
    /// The caller gave it. It is taken as given.
    Supplied(u64),
    /// The network is to be asked for its current epoch.
    Lookup(SuiEnv),
}

impl RequestView {
    /// The network of the request.
    pub open spec fn target_network(self) -> SuiEnv {
        match self.network {
            Some(network) => network,
            None => SuiEnv::Mainnet,
        }
    }

    /// Where the epoch of the request comes from.
    pub open spec fn epoch_source(self) -> EpochSource {
        match self.curr_epoch {
            Some(epoch) => EpochSource::Supplied(epoch),
            None => EpochSource::Lookup(self.target_network()),
        }
    }
}

impl VerifyRequest {
    /// The network that the request is verified against.
    pub fn target_network(&self) -> (network: SuiEnv)
        ensures
            network == self@.target_network(),
    {
        match self.network {
            Some(network) => network,
            None => SuiEnv::default(),
        }
    }

    /// Where the epoch comes from: from the request where it gives one,
    /// whatever the network's epoch is; else from the request's network.
    pub fn epoch_source(&self) -> (source: EpochSource)
        ensures
            source == self@.epoch_source(),
    {
        match self.curr_epoch {
            Some(epoch) => EpochSource::Supplied(epoch),
            None => EpochSource::Lookup(self.target_network()),
        }
    }
}

/// The answer to a request whose signature was verified.
#[derive(Clone, Copy, Debug, PartialEq, Eq, Structural)]
pub struct VerifyResponse {
    /// Whether the signature is valid. A signature that is not valid is
    /// answered with an error, so this is `true` in every answer.
    pub is_verified: bool,
}

/// Why a request was not answered with a `VerifyResponse`.
#[derive(Debug, PartialEq, Eq)]
pub enum VerifyError {
    /// The proof verifier turned the signature down, in these words.
    GenericError(String),
    /// A field of the request could not be read, or asks for what this
    /// service does not verify.
    ParsingError,
    /// The network did not tell its current epoch.
    GetEpochError,
    /// No address could be derived from the signature.
    AddressDeriveError,
}

/// What a `VerifyError` is in contracts.
pub enum VerifyErrorView {
    GenericError(Seq<char>),
    ParsingError,
    GetEpochError,
    AddressDeriveError,
}

impl View for VerifyError {
    type V = VerifyErrorView;

    open spec fn view(&self) -> VerifyErrorView {
        match self {
            VerifyError::GenericError(message) => VerifyErrorView::GenericError(message@),
            VerifyError::ParsingError => VerifyErrorView::ParsingError,
            VerifyError::GetEpochError => VerifyErrorView::GetEpochError,
            VerifyError::AddressDeriveError => VerifyErrorView::AddressDeriveError,
        }
    }
}

impl VerifyErrorView {
    /// The words in which the error is reported to the caller.
    pub open spec fn message(self) -> Seq<char> {
        match self {
            VerifyErrorView::GenericError(message) => message,
            VerifyErrorView::ParsingError => "Parsing error"@,
            VerifyErrorView::GetEpochError => "Cannot get epoch"@,
            VerifyErrorView::AddressDeriveError => "Address derive error"@,
        }
    }
}

impl Clone for VerifyError {
    fn clone(&self) -> (copy: VerifyError)
        ensures
            copy@ == self@,
    {
        match self {
            VerifyError::GenericError(message) => VerifyError::GenericError(message.clone()),
            VerifyError::ParsingError => VerifyError::ParsingError,
            VerifyError::GetEpochError => VerifyError::GetEpochError,
            VerifyError::AddressDeriveError => VerifyError::AddressDeriveError,
        }
    }
}

/// The HTTP status under which every error is reported: a bad request.
pub const ERROR_STATUS: u16 = 400;

impl VerifyError {
    /// The words in which the error is reported to the caller: the
    /// verifier's own where it turned the signature down, fixed ones else.
    pub fn message(&self) -> (words: String)
        ensures
            words@ == self@.message(),
    {
        match self {
            VerifyError::GenericError(message) => message.clone(),
            VerifyError::ParsingError => "Parsing error".to_string(),
            VerifyError::GetEpochError => "Cannot get epoch".to_string(),
            VerifyError::AddressDeriveError => "Address derive error".to_string(),
        }
    }

    /// The HTTP status under which the error is reported.
    pub fn status_code(&self) -> (status: u16)
        ensures
            status == ERROR_STATUS,
    {
        ERROR_STATUS
    }
}

/// How a verification ended.
pub type VerifyResult = Result<VerifyResponse, VerifyError>;

/// What a `VerifyResult` is in contracts.
pub type ResultView = Result<VerifyResponse, VerifyErrorView>;

/// A result as contracts see it.
pub open spec fn result_view(result: VerifyResult) -> ResultView {
    match result {
        Ok(response) => Ok(response),
        Err(error) => Err(error@),
    }
}

/// A copy of a result.
pub fn copy_result(result: &VerifyResult) -> (copy: VerifyResult)
    ensures
        result_view(copy) == result_view(*result),
{
    match result {
        Ok(response) => Ok(*response),
        Err(error) => Err(error.clone()),
    }
}

} // verus!

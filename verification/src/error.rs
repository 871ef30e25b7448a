//! The errors that a request can end in.
//!
//! An error says what went wrong; its class says how a caller should treat
//! it: which errors are the client's to mend, which may be retried with
//! fresh state, and which are faults of the server's collaborators.

use crate::challenge::ChallengeError;
use crate::crypto::CryptoError;
use vstd::prelude::*;

verus! {

/// What is wrong with a request that is refused as invalid.
#[derive(Clone, Copy, Debug, PartialEq, Eq, Structural)]
pub enum RequestFault {
    AddressInconsistent,
    SigningKeyInconsistent,
    AccountDeactivated,
    CredentialsWithoutDid,
    TooManyWrites,
    SwapCommitConvert,
    SignMessageTimeout,
    StatementCheck,
    SignatureDecode,
    RepoNotFound,
    EncodingCommit,
    StaleRevision,
}

impl RequestFault {
    /// How the fault reads in a response.
    pub open spec fn message_text(self) -> Seq<char> {
        match self {
            RequestFault::AddressInconsistent => "Address is inconsistent with the original"@,
            RequestFault::SigningKeyInconsistent => "Signing key is inconsistent with the did doc"@,
            RequestFault::AccountDeactivated => "Account is deactivated"@,
            RequestFault::CredentialsWithoutDid => "Auth credentials require did "@,
            RequestFault::TooManyWrites => "Too many writes. Max: 200"@,
            RequestFault::SwapCommitConvert => "Swap commit convert error"@,
            RequestFault::SignMessageTimeout => "Sign message timeout"@,
            RequestFault::StatementCheck => "Message statement check error"@,
            RequestFault::SignatureDecode => "Signature decode error"@,
            RequestFault::RepoNotFound => "Could not find repo"@,
            RequestFault::EncodingCommit => "Dag-cbor encoding commit error"@,
            RequestFault::StaleRevision => "Revision does not come after the current one"@,
        }
    }

    /// How the fault reads in a response.
    pub fn message(&self) -> (out: String)
        ensures
            out@ == self.message_text(),
    {
        match self {
            RequestFault::AddressInconsistent => String::from_str("Address is inconsistent with the original"),
            RequestFault::SigningKeyInconsistent => String::from_str("Signing key is inconsistent with the did doc"),
            RequestFault::AccountDeactivated => String::from_str("Account is deactivated"),
            RequestFault::CredentialsWithoutDid => String::from_str("Auth credentials require did "),
            RequestFault::TooManyWrites => String::from_str("Too many writes. Max: 200"),
            RequestFault::SwapCommitConvert => String::from_str("Swap commit convert error"),
            RequestFault::SignMessageTimeout => String::from_str("Sign message timeout"),
            RequestFault::StatementCheck => String::from_str("Message statement check error"),
            RequestFault::SignatureDecode => String::from_str("Signature decode error"),
            RequestFault::RepoNotFound => String::from_str("Could not find repo"),
            RequestFault::EncodingCommit => String::from_str("Dag-cbor encoding commit error"),
            RequestFault::StaleRevision => String::from_str("Revision does not come after the current one"),
        }
    }
}

/// Why a request is refused for want of authority.
#[derive(Clone, Copy, Debug, PartialEq, Eq, Structural)]
pub enum AuthFault {
    MissingCredentials,
    DidInconsistent,
}

impl AuthFault {
    /// How the fault reads in a response.
    pub open spec fn message_text(self) -> Seq<char> {
        match self {
            AuthFault::MissingCredentials => ""@,
            AuthFault::DidInconsistent => "Did is inconsistent with origin"@,
        }
    }

    /// How the fault reads in a response.
    pub fn message(&self) -> (out: String)
        ensures
            out@ == self.message_text(),
    {
        match self {
            AuthFault::MissingCredentials => String::from_str(""),
            AuthFault::DidInconsistent => String::from_str("Did is inconsistent with origin"),
        }
    }
}

/// What went wrong while the ledger was asked for an identity document.
#[derive(Clone, Copy, Debug, PartialEq, Eq, Structural)]
pub enum CkbFault {
    AddressFormat,
    Transport,
    Response,
    ResponseConvert,
    ConvertData,
    ConvertReferringCells,
    ConvertTxHash,
    ConvertCellIndex,
    ConvertHash,
    LiveCell,
    CellInfoNotFound,
    CellDataNotFound,
    DidDataConvert,
    DocumentDecode,
    AlreadyApplied,
}

impl CkbFault {
    /// How the fault reads in a response.
    pub open spec fn message_text(self) -> Seq<char> {
        match self {
            CkbFault::AddressFormat => "Address format invalid"@,
            CkbFault::Transport => "CKB Testnet"@,
            CkbFault::Response => "CKB Testnet Response"@,
            CkbFault::ResponseConvert => "CKB Testnet Response Convert"@,
            CkbFault::ConvertData => "CKB Testnet Response Convert data"@,
            CkbFault::ConvertReferringCells => "CKB Testnet Response Convert referring_cells"@,
            CkbFault::ConvertTxHash => "CKB Testnet Response Convert tx_hash"@,
            CkbFault::ConvertCellIndex => "CKB Testnet Response Convert cell_index"@,
            CkbFault::ConvertHash => "CKB Testnet Response Convert Hash"@,
            CkbFault::LiveCell => "CKB get_live_cell"@,
            CkbFault::CellInfoNotFound => "Cell info not found"@,
            CkbFault::CellDataNotFound => "Cell data not found"@,
            CkbFault::DidDataConvert => "DidWeb5Data convert failed"@,
            CkbFault::DocumentDecode => "Web5DocumentData dog cbor decode failed"@,
            CkbFault::AlreadyApplied => "Already apply did, please change address."@,
        }
    }

    /// How the fault reads in a response.
    pub fn message(&self) -> (out: String)
        ensures
            out@ == self.message_text(),
    {
        match self {
            CkbFault::AddressFormat => String::from_str("Address format invalid"),
            CkbFault::Transport => String::from_str("CKB Testnet"),
            CkbFault::Response => String::from_str("CKB Testnet Response"),
            CkbFault::ResponseConvert => String::from_str("CKB Testnet Response Convert"),
            CkbFault::ConvertData => String::from_str("CKB Testnet Response Convert data"),
            CkbFault::ConvertReferringCells => String::from_str("CKB Testnet Response Convert referring_cells"),
            CkbFault::ConvertTxHash => String::from_str("CKB Testnet Response Convert tx_hash"),
            CkbFault::ConvertCellIndex => String::from_str("CKB Testnet Response Convert cell_index"),
            CkbFault::ConvertHash => String::from_str("CKB Testnet Response Convert Hash"),
            CkbFault::LiveCell => String::from_str("CKB get_live_cell"),
            CkbFault::CellInfoNotFound => String::from_str("Cell info not found"),
            CkbFault::CellDataNotFound => String::from_str("Cell data not found"),
            CkbFault::DidDataConvert => String::from_str("DidWeb5Data convert failed"),
            CkbFault::DocumentDecode => String::from_str("Web5DocumentData dog cbor decode failed"),
            CkbFault::AlreadyApplied => String::from_str("Already apply did, please change address."),
        }
    }
}

/// How a caller should treat an error.
#[derive(Clone, Copy, Debug, PartialEq, Eq, Structural)]
pub enum ErrorClass {
    /// Something asked for does not exist; often expected.
    NotFound,
    /// An input or a document cannot be read.
    Malformed,
    /// The repository moved on since the caller last read it.
    SwapMismatch,
    /// A signature or a key is invalid.
    CryptoError,
    /// A record or a batch of writes is not acceptable.
    RecordInvalid,
    /// An update or a delete names no record key.
    KeyRequired,
    /// The event log did not take an event.
    SequencerError,
    /// The object store or the account store failed.
    StorageError,
    /// The request is refused for another reason that the client can mend.
    Rejected,
}

impl ErrorClass {
    /// Whether the error is a fault of the server's collaborators, after
    /// which nothing downstream may go on.
    pub open spec fn is_fatal(self) -> bool {
        self == ErrorClass::SequencerError || self == ErrorClass::StorageError
    }

    /// Whether the error is a fault of the server's collaborators.
    pub fn fatal(&self) -> (out: bool)
        ensures
            out == self.is_fatal(),
    {
        match self {
            ErrorClass::SequencerError => true,
            ErrorClass::StorageError => true,
            _ => false,
        }
    }
}

/// An error that ends a request.
#[derive(Clone, Copy, Debug, PartialEq, Eq, Structural)]
pub enum ApiError {
    /// The request names no ledger address.
    CkbAddrNotFound,
    /// The ledger answered with nothing for the address.
    CkbAddrNoCell,
    /// The ledger holds no identity document for the address.
    CkbDidocCellNotFound,
    /// The ledger could not be asked, or its answer could not be read.
    InvalidCkbError(CkbFault),
    /// The request is invalid.
    InvalidRequest(RequestFault),
    /// The identity document binds no handle.
    IncompatibleDidDoc,
    /// The handle is not the one that the identity document binds.
    InvalidHandle,
    /// No such account.
    InvalidLogin,
    /// The caller lacks authority.
    AuthRequiredError(AuthFault),
    /// The server knows no domain to put into a challenge.
    UnsupportedDomain,
    /// An invite code is required and none was given.
    InvalidInviteCode,
    /// The handle is taken.
    HandleNotAvailable,
    /// The challenge cannot be read.
    Challenge(ChallengeError),
    /// The repository moved on since the commit was prepared.
    SwapMismatch,
    /// The key or the signature cannot be read.
    Crypto(CryptoError),
    /// A record does not conform to its schema.
    RecordInvalid,
    /// An update or a delete names no record key.
    KeyRequired,
    /// The event log did not take an event.
    Sequencer,
    /// The object store or the account store failed.
    Storage,
    /// The server failed in a way that it does not disclose.
    RuntimeError,
}

impl ApiError {
    /// The class of the error.
    pub open spec fn class_of(self) -> ErrorClass {
        match self {
            ApiError::CkbAddrNotFound => ErrorClass::Rejected,
            ApiError::CkbAddrNoCell => ErrorClass::NotFound,
            ApiError::CkbDidocCellNotFound => ErrorClass::NotFound,
            ApiError::InvalidCkbError(fault) => match fault {
                CkbFault::AddressFormat => ErrorClass::Malformed,
                CkbFault::Transport => ErrorClass::StorageError,
                CkbFault::Response => ErrorClass::StorageError,
                CkbFault::LiveCell => ErrorClass::StorageError,
                CkbFault::AlreadyApplied => ErrorClass::Rejected,
                _ => ErrorClass::Malformed,
            },
            ApiError::InvalidRequest(fault) => match fault {
                RequestFault::TooManyWrites => ErrorClass::RecordInvalid,
                RequestFault::SwapCommitConvert => ErrorClass::Malformed,
                RequestFault::SignatureDecode => ErrorClass::CryptoError,
                RequestFault::RepoNotFound => ErrorClass::NotFound,
                _ => ErrorClass::Rejected,
            },
            ApiError::IncompatibleDidDoc => ErrorClass::Malformed,
            ApiError::InvalidHandle => ErrorClass::Rejected,
            ApiError::InvalidLogin => ErrorClass::Rejected,
            ApiError::AuthRequiredError(_) => ErrorClass::Rejected,
            ApiError::UnsupportedDomain => ErrorClass::Rejected,
            ApiError::InvalidInviteCode => ErrorClass::Rejected,
            ApiError::HandleNotAvailable => ErrorClass::Rejected,
            ApiError::Challenge(e) => match e {
                ChallengeError::ClockUnavailable => ErrorClass::StorageError,
                ChallengeError::Expired => ErrorClass::Rejected,
                _ => ErrorClass::Malformed,
            },
            ApiError::SwapMismatch => ErrorClass::SwapMismatch,
            ApiError::Crypto(_) => ErrorClass::CryptoError,
            ApiError::RecordInvalid => ErrorClass::RecordInvalid,
            ApiError::KeyRequired => ErrorClass::KeyRequired,
            ApiError::Sequencer => ErrorClass::SequencerError,
            ApiError::Storage => ErrorClass::StorageError,
            ApiError::RuntimeError => ErrorClass::StorageError,
        }
    }

    /// The class of the error.
    pub fn class(&self) -> (out: ErrorClass)
        ensures
            out == self.class_of(),
    {
        match self {
            ApiError::CkbAddrNotFound => ErrorClass::Rejected,
            ApiError::CkbAddrNoCell => ErrorClass::NotFound,
            ApiError::CkbDidocCellNotFound => ErrorClass::NotFound,
            ApiError::InvalidCkbError(fault) => match fault {
                CkbFault::AddressFormat => ErrorClass::Malformed,
                CkbFault::Transport => ErrorClass::StorageError,
                CkbFault::Response => ErrorClass::StorageError,
                CkbFault::LiveCell => ErrorClass::StorageError,
                CkbFault::AlreadyApplied => ErrorClass::Rejected,
                _ => ErrorClass::Malformed,
            },
            ApiError::InvalidRequest(fault) => match fault {
                RequestFault::TooManyWrites => ErrorClass::RecordInvalid,
                RequestFault::SwapCommitConvert => ErrorClass::Malformed,
                RequestFault::SignatureDecode => ErrorClass::CryptoError,
                RequestFault::RepoNotFound => ErrorClass::NotFound,
                _ => ErrorClass::Rejected,
            },
            ApiError::IncompatibleDidDoc => ErrorClass::Malformed,
            ApiError::InvalidHandle => ErrorClass::Rejected,
            ApiError::InvalidLogin => ErrorClass::Rejected,
            ApiError::AuthRequiredError(_) => ErrorClass::Rejected,
            ApiError::UnsupportedDomain => ErrorClass::Rejected,
            ApiError::InvalidInviteCode => ErrorClass::Rejected,
            ApiError::HandleNotAvailable => ErrorClass::Rejected,
            ApiError::Challenge(e) => match e {
                ChallengeError::ClockUnavailable => ErrorClass::StorageError,
                ChallengeError::Expired => ErrorClass::Rejected,
                _ => ErrorClass::Malformed,
            },
            ApiError::SwapMismatch => ErrorClass::SwapMismatch,
            ApiError::Crypto(_) => ErrorClass::CryptoError,
            ApiError::RecordInvalid => ErrorClass::RecordInvalid,
            ApiError::KeyRequired => ErrorClass::KeyRequired,
            ApiError::Sequencer => ErrorClass::SequencerError,
            ApiError::Storage => ErrorClass::StorageError,
            ApiError::RuntimeError => ErrorClass::StorageError,
        }
    }
}

impl DeepView for ApiError {
    type V = ApiError;

    open spec fn deep_view(&self) -> ApiError {
        *self
    }
}

/// How a failure to read or accept a challenge ends a request: an expired
/// challenge and a missing statement are refusals of the request, the rest
/// is handed on as it is.
pub open spec fn challenge_failure(e: ChallengeError) -> ApiError {
    match e {
        ChallengeError::Expired => ApiError::InvalidRequest(RequestFault::SignMessageTimeout),
        ChallengeError::StatementMissing => ApiError::InvalidRequest(RequestFault::StatementCheck),
        _ => ApiError::Challenge(e),
    }
}

/// How a failure to read or accept a challenge ends a request.
pub fn from_challenge(e: ChallengeError) -> (out: ApiError)
    ensures
        out == challenge_failure(e),
{
    match e {
        ChallengeError::Expired => ApiError::InvalidRequest(RequestFault::SignMessageTimeout),
        ChallengeError::StatementMissing => ApiError::InvalidRequest(RequestFault::StatementCheck),
        _ => ApiError::Challenge(e),
    }
}

/// How the verifier's answer ends a request, if it does: a signature that
/// is no hexadecimal text is a refusal of the request; unreadable key or
/// signature material, and a signature that does not verify, are
/// cryptographic failures.
pub open spec fn signature_failure(answer: Result<bool, CryptoError>) -> Option<ApiError> {
    match answer {
        Ok(true) => None,
        Ok(false) => Some(ApiError::Crypto(CryptoError::Mismatch)),
        Err(CryptoError::SignatureEncoding) => Some(
            ApiError::InvalidRequest(RequestFault::SignatureDecode),
        ),
        Err(e) => Some(ApiError::Crypto(e)),
    }
}

/// How the verifier's answer ends a request, if it does.
pub fn from_verification(answer: Result<bool, CryptoError>) -> (out: Option<ApiError>)
    ensures
        out == signature_failure(answer),
{
    match answer {
        Ok(true) => None,
        Ok(false) => Some(ApiError::Crypto(CryptoError::Mismatch)),
        Err(CryptoError::SignatureEncoding) => Some(
            ApiError::InvalidRequest(RequestFault::SignatureDecode),
        ),
        Err(e) => Some(ApiError::Crypto(e)),
    }
}

} // verus!

//! Client errors, and how the errors other parts of the network hand the
//! client become them.

use qp2p::RpcError as QuicP2pError;
use sn_data_types::{Error as DtError, PublicKey};
pub use sn_messaging::client::Error as ErrorMessage;
use sn_messaging::client::{Event, QueryResponse};
pub use sn_messaging::Error as MessagingError;
pub use sn_transfers::Error as TransfersError;
use std::io;
use vstd::prelude::*;
use vstd::std_specs::convert::{FromSpec, FromSpecImpl};

verus! {

/// An error the network reports back to a client (`sn_messaging`).
#[verifier::external_type_specification]
#[verifier::external_body]
pub struct ExErrorMessage(sn_messaging::client::Error);

/// An error in (de)serialising a network message (`sn_messaging`).
#[verifier::external_type_specification]
#[verifier::external_body]
pub struct ExMessagingError(sn_messaging::Error);

/// An event the network pushes to a client (`sn_messaging`).
#[verifier::external_type_specification]
#[verifier::external_body]
pub struct ExEvent(sn_messaging::client::Event);

/// The network's answer to a client's query (`sn_messaging`).
#[verifier::external_type_specification]
#[verifier::external_body]
pub struct ExQueryResponse(sn_messaging::client::QueryResponse);

/// An error from the network data types (`sn_data_types`).
#[verifier::external_type_specification]
#[verifier::external_body]
pub struct ExDtError(sn_data_types::Error);

/// A public key of the network (`sn_data_types`).
#[verifier::external_type_specification]
#[verifier::external_body]
pub struct ExPublicKey(sn_data_types::PublicKey);

/// An error of a transfer actor (`sn_transfers`).
#[verifier::external_type_specification]
#[verifier::external_body]
pub struct ExTransfersError(sn_transfers::Error);

/// An error of self-encryption (`self_encryption`).
#[verifier::external_type_specification]
#[verifier::external_body]
pub struct ExSelfEncryptionError(self_encryption::Error);

/// An error reading or writing JSON (`serde_json`).
#[verifier::external_type_specification]
#[verifier::external_body]
pub struct ExJsonError(serde_json::Error);

/// An input or output error (`std::io`).
#[verifier::external_type_specification]
#[verifier::external_body]
pub struct ExIoError(std::io::Error);

/// An error exchanging a message over QUIC (`qp2p`).
#[verifier::external_type_specification]
#[verifier::external_body]
pub struct ExQuicP2pError(qp2p::RpcError);

/// The kind of an error in bincode (de)serialisation (`bincode`).
#[verifier::external_type_specification]
#[verifier::external_body]
pub struct ExBincodeErrorKind(bincode::ErrorKind);

/// Client Errors
#[allow(clippy::large_enum_variant)]
#[derive(Debug)]
#[non_exhaustive]
pub enum ClientError {
    /// Asymmetric Key Decryption Failed.
    AsymmetricDecipherFailure,
    /// Symmetric Key Decryption Failed.
    SymmetricDecipherFailure,
    /// Received unexpected data.
    ReceivedUnexpectedData,
    /// Received unexpected event.
    ReceivedUnexpectedEvent,
    /// Config path is not valid.
    InvalidConfigPath,
    /// Could not query elder.
    ElderQuery,
    /// Could not connect to elder.
    ElderConnection,
    /// Client has not gone trhough qp2p bootstrap process yet
    NotBootstrapped,
    /// Could not connect to sufficient elder to retrieve reliable responses.
    InsufficientElderConnections,
    /// Could not query elder.
    ReceivingQuery,
    /// Could not query elder.
    NoResponse,
    /// No transfer validation listener .
    NoTransferValidationListener,
    /// Unexpected message type receivied while joining.
    UnexpectedMessageOnJoin(String),
    /// Permission set provided is not a PublicPermissionSet.
    NotPublicPermissions,
    /// Permission set provided is not a PrivatePermissionSet.
    NotPrivatePermissions,
    /// Did not receive an incoming connection listener from qp2p
    NoElderListenerEstablished,
    /// Incorrect user permissions were returned
    IncorrectPermissions,
    /// Unexpcted transfer event received
    UnexpectedTransferEvent(Event),
    /// Unexpcted response received
    UnexpectedQueryResponse(QueryResponse),
    /// Unexpected response received
    UnexpectedHistoryResponse(QueryResponse),
    /// Unexpected response received
    UnexpectedStoreCostResponse(QueryResponse),
    /// Unexpected response received
    UnexpectedReplicaKeysResponse(PublicKey),
    /// Transfer actor failed generating a transfer
    NoTransferGenerated,
    /// Transfer actor did not find any events to register locally
    NoTransferEventsForLocalActor,
    /// Could not determine system home dir
    NoHomeDir,
    /// Not in testnet "simulated payout" mode
    NotBuiltWithSimulatedPayouts,
    /// Other sn_data_types errors
    NetworkDataError(DtError),
    /// Transfers errors
    Transfer(TransfersError),
    /// Errors received from the network via sn_messaging
    ErrorMessage(ErrorMessage),
    /// Errors occurred when serialising or deserialising messages
    MessagingProtocol(MessagingError),
    /// self_enryption errors
    SelfEncryption(self_encryption::Error),
    /// Other sn_data_types errors
    ConfigError(serde_json::Error),
    /// Io error.
    IoError(io::Error),
    /// QuicP2p error.
    QuicP2p(QuicP2pError),
    /// Bincode error
    Bincode(Box<bincode::ErrorKind>),
}

/// The error of a transfer command, as the network reports it.
#[derive(Debug)]
pub enum TransferError {
    /// The error of a ValidateTransfer cmd.
    TransferValidation(ErrorMessage),
    /// The error of a RegisterTransfer cmd.
    TransferRegistration(ErrorMessage),
}

/// The error of a command, as the network reports it.
#[derive(Debug)]
pub enum CmdError {
    /// The error of a data command.
    Data(ErrorMessage),
    /// The error of a transfer command.
    Transfer(TransferError),
    /// The error of an authorisation command.
    Auth(ErrorMessage),
}

impl CmdError {
    /// The error message a command error carries, whatever kind of command
    /// failed.
    pub open spec fn message(self) -> ErrorMessage {
        match self {
            CmdError::Data(data_err) => data_err,
            CmdError::Transfer(TransferError::TransferValidation(err)) => err,
            CmdError::Transfer(TransferError::TransferRegistration(err)) => err,
            CmdError::Auth(auth_error) => auth_error,
        }
    }
}

impl From<CmdError> for ClientError {
    fn from(error: CmdError) -> (r: Self)
        ensures
            match error {
                CmdError::Data(m) => r == ClientError::ErrorMessage(m),
                CmdError::Transfer(TransferError::TransferValidation(m)) => r
                    == ClientError::ErrorMessage(m),
                CmdError::Transfer(TransferError::TransferRegistration(m)) => r
                    == ClientError::ErrorMessage(m),
                CmdError::Auth(m) => r == ClientError::ErrorMessage(m),
            },
    {
        let err = match error {
            CmdError::Data(data_err) => data_err,
            CmdError::Transfer(err) => match err {
                TransferError::TransferValidation(err) => err,
                TransferError::TransferRegistration(err) => err,
            },
            CmdError::Auth(auth_error) => auth_error,
        };
        ClientError::ErrorMessage(err)
    }
}

impl FromSpecImpl<CmdError> for ClientError {
    open spec fn obeys_from_spec() -> bool {
        true
    }

    open spec fn from_spec(error: CmdError) -> ClientError {
        ClientError::ErrorMessage(error.message())
    }
}

impl From<DtError> for ClientError {
    /// Wraps an error of the network data types.
    fn from(error: DtError) -> (r: Self)
        ensures
            r == ClientError::NetworkDataError(error),
    {
        ClientError::NetworkDataError(error)
    }
}

impl FromSpecImpl<DtError> for ClientError {
    open spec fn obeys_from_spec() -> bool {
        true
    }

    open spec fn from_spec(error: DtError) -> ClientError {
        ClientError::NetworkDataError(error)
    }
}

impl From<TransfersError> for ClientError {
    /// Wraps an error of a transfer actor.
    fn from(error: TransfersError) -> (r: Self)
        ensures
            r == ClientError::Transfer(error),
    {
        ClientError::Transfer(error)
    }
}

impl FromSpecImpl<TransfersError> for ClientError {
    open spec fn obeys_from_spec() -> bool {
        true
    }

    open spec fn from_spec(error: TransfersError) -> ClientError {
        ClientError::Transfer(error)
    }
}

impl From<ErrorMessage> for ClientError {
    /// Wraps an error the network reported.
    fn from(error: ErrorMessage) -> (r: Self)
        ensures
            r == ClientError::ErrorMessage(error),
    {
        ClientError::ErrorMessage(error)
    }
}

impl FromSpecImpl<ErrorMessage> for ClientError {
    open spec fn obeys_from_spec() -> bool {
        true
    }

    open spec fn from_spec(error: ErrorMessage) -> ClientError {
        ClientError::ErrorMessage(error)
    }
}

impl From<MessagingError> for ClientError {
    /// Wraps an error (de)serialising a message.
    fn from(error: MessagingError) -> (r: Self)
        ensures
            r == ClientError::MessagingProtocol(error),
    {
        ClientError::MessagingProtocol(error)
    }
}

impl FromSpecImpl<MessagingError> for ClientError {
    open spec fn obeys_from_spec() -> bool {
        true
    }

    open spec fn from_spec(error: MessagingError) -> ClientError {
        ClientError::MessagingProtocol(error)
    }
}

impl From<self_encryption::Error> for ClientError {
    /// Wraps an error of self-encryption.
    fn from(error: self_encryption::Error) -> (r: Self)
        ensures
            r == ClientError::SelfEncryption(error),
    {
        ClientError::SelfEncryption(error)
    }
}

impl FromSpecImpl<self_encryption::Error> for ClientError {
    open spec fn obeys_from_spec() -> bool {
        true
    }

    open spec fn from_spec(error: self_encryption::Error) -> ClientError {
        ClientError::SelfEncryption(error)
    }
}

impl From<serde_json::Error> for ClientError {
    /// Wraps an error reading or writing JSON.
    fn from(error: serde_json::Error) -> (r: Self)
        ensures
            r == ClientError::ConfigError(error),
    {
        ClientError::ConfigError(error)
    }
}

impl FromSpecImpl<serde_json::Error> for ClientError {
    open spec fn obeys_from_spec() -> bool {
        true
    }

    open spec fn from_spec(error: serde_json::Error) -> ClientError {
        ClientError::ConfigError(error)
    }
}

impl From<io::Error> for ClientError {
    /// Wraps an input or output error.
    fn from(error: io::Error) -> (r: Self)
        ensures
            r == ClientError::IoError(error),
    {
        ClientError::IoError(error)
    }
}

impl FromSpecImpl<io::Error> for ClientError {
    open spec fn obeys_from_spec() -> bool {
        true
    }

    open spec fn from_spec(error: io::Error) -> ClientError {
        ClientError::IoError(error)
    }
}

impl From<QuicP2pError> for ClientError {
    /// Wraps an error exchanging a message over QUIC.
    fn from(error: QuicP2pError) -> (r: Self)
        ensures
            r == ClientError::QuicP2p(error),
    {
        ClientError::QuicP2p(error)
    }
}

impl FromSpecImpl<QuicP2pError> for ClientError {
    open spec fn obeys_from_spec() -> bool {
        true
    }

    open spec fn from_spec(error: QuicP2pError) -> ClientError {
        ClientError::QuicP2p(error)
    }
}

impl From<Box<bincode::ErrorKind>> for ClientError {
    /// Wraps a bincode (de)serialisation error.
    fn from(error: Box<bincode::ErrorKind>) -> (r: Self)
        ensures
            r == ClientError::Bincode(error),
    {
        ClientError::Bincode(error)
    }
}

impl FromSpecImpl<Box<bincode::ErrorKind>> for ClientError {
    open spec fn obeys_from_spec() -> bool {
        true
    }

    open spec fn from_spec(error: Box<bincode::ErrorKind>) -> ClientError {
        ClientError::Bincode(error)
    }
}

/// Each outside error becomes the client error variant made for it,
/// carrying that very error; and every command error becomes the network's
/// error message it carries, whichever command failed.
pub proof fn client_error_wraps_source(
    dt: DtError,
    transfers: TransfersError,
    message: ErrorMessage,
    messaging: MessagingError,
    self_enc: self_encryption::Error,
    json: serde_json::Error,
    io_err: io::Error,
    quic: QuicP2pError,
    bin: Box<bincode::ErrorKind>,
)
    ensures
        <ClientError as FromSpec<DtError>>::from_spec(dt) == ClientError::NetworkDataError(dt),
        <ClientError as FromSpec<TransfersError>>::from_spec(transfers) == ClientError::Transfer(
            transfers,
        ),
        <ClientError as FromSpec<ErrorMessage>>::from_spec(message) == ClientError::ErrorMessage(
            message,
        ),
        <ClientError as FromSpec<MessagingError>>::from_spec(messaging)
            == ClientError::MessagingProtocol(messaging),
        <ClientError as FromSpec<self_encryption::Error>>::from_spec(self_enc)
            == ClientError::SelfEncryption(self_enc),
        <ClientError as FromSpec<serde_json::Error>>::from_spec(json) == ClientError::ConfigError(
            json,
        ),
        <ClientError as FromSpec<io::Error>>::from_spec(io_err) == ClientError::IoError(io_err),
        <ClientError as FromSpec<QuicP2pError>>::from_spec(quic) == ClientError::QuicP2p(quic),
        <ClientError as FromSpec<Box<bincode::ErrorKind>>>::from_spec(bin) == ClientError::Bincode(
            bin,
        ),
        <ClientError as FromSpec<CmdError>>::from_spec(CmdError::Data(message))
            == ClientError::ErrorMessage(message),
        <ClientError as FromSpec<CmdError>>::from_spec(
            CmdError::Transfer(TransferError::TransferValidation(message)),
        ) == ClientError::ErrorMessage(message),
        <ClientError as FromSpec<CmdError>>::from_spec(
            CmdError::Transfer(TransferError::TransferRegistration(message)),
        ) == ClientError::ErrorMessage(message),
        <ClientError as FromSpec<CmdError>>::from_spec(CmdError::Auth(message))
            == ClientError::ErrorMessage(message),
{
}

} // verus!

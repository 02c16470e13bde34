//! The two error types of the key broker client: what a trust module reports
//! when it cannot decrypt, and what the registry reports around it.

use vstd::prelude::*;

verus! {

/// Why a trust module could not turn an annotation into plaintext.
#[derive(Debug, Clone, PartialEq, Eq)]
pub enum DecryptError {
    /// The annotation, or a message of the key broker service, is malformed.
    ParseError,
    /// The channel to the key broker service could not be set up, or broke.
    ConnectionError,
    /// The attested handshake on a fresh connection failed.
    NegotiationError,
    /// The key broker service answered `Fail`; the string is its message.
    RemoteError(String),
    /// The key broker service answered `OK` without usable data.
    ProtocolViolation,
    /// The key broker service answered with a status that is neither `OK` nor `Fail`.
    UnrecognizedStatus,
    /// The integrity tag of a locally decrypted payload did not verify.
    AuthenticationFailure,
}

/// The mathematical value of a [`DecryptError`].
pub ghost enum DecryptFailure {
    ParseError,
    ConnectionError,
    NegotiationError,
    RemoteError(Seq<char>),
    ProtocolViolation,
    UnrecognizedStatus,
    AuthenticationFailure,
}

impl View for DecryptError {
    type V = DecryptFailure;

    open spec fn view(&self) -> DecryptFailure {
        match *self {
            DecryptError::ParseError => DecryptFailure::ParseError,
            DecryptError::ConnectionError => DecryptFailure::ConnectionError,
            DecryptError::NegotiationError => DecryptFailure::NegotiationError,
            DecryptError::RemoteError(message) => DecryptFailure::RemoteError(message@),
            DecryptError::ProtocolViolation => DecryptFailure::ProtocolViolation,
            DecryptError::UnrecognizedStatus => DecryptFailure::UnrecognizedStatus,
            DecryptError::AuthenticationFailure => DecryptFailure::AuthenticationFailure,
        }
    }
}

/// The text shown for each kind of decryption failure.
pub open spec fn decrypt_failure_text(failure: DecryptFailure) -> Seq<char> {
    match failure {
        DecryptFailure::ParseError => "The annotation or the KBS message is malformed"@,
        DecryptFailure::ConnectionError => "Something wrong when connect to KBS"@,
        DecryptFailure::NegotiationError => "Something wrong when negotiate enclave_tls"@,
        DecryptFailure::RemoteError(message) => message,
        DecryptFailure::ProtocolViolation => "The KBS response status is OK but the data is missing"@,
        DecryptFailure::UnrecognizedStatus => "Can't understand the KBS response status!"@,
        DecryptFailure::AuthenticationFailure => "Decrypt failed!"@,
    }
}

impl DecryptError {
    /// A human-readable message; a remote error shows the service's own words.
    pub fn message(&self) -> (text: String)
        ensures
            text@ == decrypt_failure_text(self@),
    {
        match self {
            DecryptError::ParseError => "The annotation or the KBS message is malformed".to_string(),
            DecryptError::ConnectionError => "Something wrong when connect to KBS".to_string(),
            DecryptError::NegotiationError => "Something wrong when negotiate enclave_tls".to_string(),
            DecryptError::RemoteError(message) => message.clone(),
            DecryptError::ProtocolViolation => "The KBS response status is OK but the data is missing".to_string(),
            DecryptError::UnrecognizedStatus => "Can't understand the KBS response status!".to_string(),
            DecryptError::AuthenticationFailure => "Decrypt failed!".to_string(),
        }
    }
}

/// The mathematical value of what a trust module's `decrypt_payload` returns.
pub open spec fn decrypt_result_view(result: Result<Vec<u8>, DecryptError>) -> Result<
    Seq<u8>,
    DecryptFailure,
> {
    match result {
        Ok(plaintext) => Ok(plaintext@),
        Err(error) => Err(error@),
    }
}

/// Why the registry, or the request layer in front of it, could not serve a request.
#[derive(Debug, Clone, PartialEq, Eq)]
pub enum DispatchError {
    /// No module is registered under the requested name.
    UnknownModule,
    /// The request carries no parameter addressed to this agent.
    InvalidRequestOrigin,
    /// The request itself is malformed.
    ParseError,
    /// The selected module failed; its error is inside.
    ModuleError(DecryptError),
}

/// The mathematical value of a [`DispatchError`].
pub ghost enum DispatchFailure {
    UnknownModule,
    InvalidRequestOrigin,
    ParseError,
    ModuleError(DecryptFailure),
}

impl View for DispatchError {
    type V = DispatchFailure;

    open spec fn view(&self) -> DispatchFailure {
        match *self {
            DispatchError::UnknownModule => DispatchFailure::UnknownModule,
            DispatchError::InvalidRequestOrigin => DispatchFailure::InvalidRequestOrigin,
            DispatchError::ParseError => DispatchFailure::ParseError,
            DispatchError::ModuleError(error) => DispatchFailure::ModuleError(error@),
        }
    }
}

/// The text shown for each kind of dispatch failure.
pub open spec fn dispatch_failure_text(failure: DispatchFailure) -> Seq<char> {
    match failure {
        DispatchFailure::UnknownModule => "AA does not support the given KBC"@,
        DispatchFailure::InvalidRequestOrigin => "The request is not sent to attention agent!"@,
        DispatchFailure::ParseError => "The request is malformed"@,
        DispatchFailure::ModuleError(failure) => decrypt_failure_text(failure),
    }
}

impl DispatchError {
    /// A human-readable message; a module's failure shows the module's message.
    pub fn message(&self) -> (text: String)
        ensures
            text@ == dispatch_failure_text(self@),
    {
        match self {
            DispatchError::UnknownModule => "AA does not support the given KBC".to_string(),
            DispatchError::InvalidRequestOrigin => "The request is not sent to attention agent!".to_string(),
            DispatchError::ParseError => "The request is malformed".to_string(),
            DispatchError::ModuleError(error) => error.message(),
        }
    }
}

/// The mathematical value of what the registry returns for a request.
pub open spec fn dispatch_result_view(result: Result<Vec<u8>, DispatchError>) -> Result<
    Seq<u8>,
    DispatchFailure,
> {
    match result {
        Ok(plaintext) => Ok(plaintext@),
        Err(error) => Err(error@),
    }
}

} // verus!

//! The error taxonomy of the signing core. Every failure surfaces as one of
//! these variants together with a human-readable message.

use vstd::prelude::*;
use vstd::string::StringExecFns;

verus! {

/// What can go wrong while serving a signing request.
#[derive(Debug)]
pub enum SignerError {
    /// Malformed or missing parameters: wrong shapes, wrong byte lengths,
    /// a value that is no numeral.
    InvalidArgument(String),
    /// The JSON-RPC method name is none of the recognized three; carries
    /// the offending name.
    UnsupportedMethod(String),
    /// The custody backend could not be reached, rejected the key, or
    /// failed the signing call; carries the backend's own words.
    BackendUnavailable(String),
    /// The backend returned a recovery byte below 27, which the legacy
    /// convention never produces; carries the offending byte.
    InvalidRecoveryId(u8),
}

impl SignerError {
    /// The message a JSON-RPC error reply carries for this error.
    pub open spec fn spec_message(&self) -> Seq<char> {
        match self {
            SignerError::InvalidArgument(m) => m@,
            SignerError::UnsupportedMethod(m) =>
                "method not supported (only eth_signTransaction, health_status and opsigner_signBlockPayload): "@
                + m@,
            SignerError::BackendUnavailable(m) => "backend unavailable: "@ + m@,
            SignerError::InvalidRecoveryId(v) =>
                "invalid recovery id: expected a value of at least 27, got "@
                + crate::hexfmt::dec_of_u8(*v),
        }
    }

    /// Renders the human-readable message.
    pub fn message(&self) -> (r: String)
        ensures
            r@ == self.spec_message(),
    {
        match self {
            SignerError::InvalidArgument(m) => m.clone(),
            SignerError::UnsupportedMethod(m) => {
                let mut s = String::from_str(
                    "method not supported (only eth_signTransaction, health_status and opsigner_signBlockPayload): ",
                );
                s.append(m.as_str());
                s
            },
            SignerError::BackendUnavailable(m) => {
                let mut s = String::from_str("backend unavailable: ");
                s.append(m.as_str());
                s
            },
            SignerError::InvalidRecoveryId(v) => {
                let mut s = String::from_str(
                    "invalid recovery id: expected a value of at least 27, got ",
                );
                s.append(crate::hexfmt::dec_str_u8(*v).as_str());
                s
            },
        }
    }
}

} // verus!

//! The error taxonomy of the pipeline: recoverable input problems carry
//! the stage they arose at; outside failures carry their cause.  Every
//! error has a fixed user-visible message.

use vstd::prelude::*;

verus! {

/// A decision point of the pipeline.
#[derive(Clone, Copy, Debug, PartialEq, Eq, Structural)]
pub enum Stage {
    Command,
    Currency,
    Mode,
    Server,
    ServerUrl,
    Sender,
    Receiver,
    Amount,
    SignOption,
    SignParams,
    Submit,
}

/// Why a run ended without a composed or signed transaction.
#[derive(Clone, Copy, Debug, PartialEq, Eq, Structural)]
pub enum TransferError {
    /// Non-interactive, and nothing was supplied for the stage.
    MissingInput { stage: Stage },
    /// Non-interactive, and the supplied value failed the stage's check.
    InvalidInput { stage: Stage },
    /// Interactive, but no prompted answer passed the stage's check.
    PromptsExhausted { stage: Stage },
    /// A network query failed in transit.
    Transport,
    /// The credential store holds no key for the account on the network.
    KeychainMiss,
    /// A signing strategy needed live chain data with no endpoint set.
    NetworkRequired,
    /// The signing device refused the transaction.
    DeviceRejected,
    /// The signing device went away while signing.
    DeviceDisconnected,
    /// Supplied key material did not parse.
    MalformedKey,
}

/// The fixed message of each error.
pub open spec fn spec_message(e: TransferError) -> Seq<char> {
    match e {
        TransferError::MissingInput { .. } => "a required value was not supplied"@,
        TransferError::InvalidInput { .. } => "a supplied value was rejected"@,
        TransferError::PromptsExhausted { .. } => "no prompted answer was accepted"@,
        TransferError::Transport => "a network query failed"@,
        TransferError::KeychainMiss => "no key found in the credential store"@,
        TransferError::NetworkRequired => "this signing strategy needs an endpoint"@,
        TransferError::DeviceRejected => "the device rejected the transaction"@,
        TransferError::DeviceDisconnected => "the device disconnected"@,
        TransferError::MalformedKey => "the key material is malformed"@,
    }
}

impl TransferError {
    /// The user-visible message.
    pub fn message(&self) -> (r: &'static str)
        ensures
            r@ == spec_message(*self),
    {
        match self {
            TransferError::MissingInput { .. } => "a required value was not supplied",
            TransferError::InvalidInput { .. } => "a supplied value was rejected",
            TransferError::PromptsExhausted { .. } => "no prompted answer was accepted",
            TransferError::Transport => "a network query failed",
            TransferError::KeychainMiss => "no key found in the credential store",
            TransferError::NetworkRequired => "this signing strategy needs an endpoint",
            TransferError::DeviceRejected => "the device rejected the transaction",
            TransferError::DeviceDisconnected => "the device disconnected",
            TransferError::MalformedKey => "the key material is malformed",
        }
    }
}

} // verus!

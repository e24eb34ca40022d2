//! A verified core for an account-to-account token transfer command-line
//! pipeline: staged construction of an unsigned transfer transaction
//! (network selection, sender, receiver, amount), selection of a signing
//! strategy and a submission strategy, broadcast with timeout retry, and
//! an echo trail that reconstructs an equivalent non-interactive
//! invocation.

pub mod account;
pub mod amount;
pub mod echo;
pub mod endpoint;
pub mod error;
pub mod laws;
pub mod lookup;
pub mod pipeline;
pub mod sign;
pub mod skeleton;
pub mod stages;
pub mod submit;
pub mod text;
pub mod trusted;
pub mod types;

pub use account::AccountId;

//! The signing strategies' work: each consumes the prepared skeleton and
//! either yields a signed transaction blob ready for submission, or — for
//! the manual strategy — the encoded unsigned transaction for display
//! only.  What only the outside world can supply (a stored key, live
//! chain data, a device's answer) comes in as arguments.

use vstd::prelude::*;

use crate::error::TransferError;
use crate::pipeline::{
    SignKeychain, SignLedger, SignManually, SignPrivateKey, SignTransaction,
};
use crate::endpoint::ConnectionConfig;
use crate::skeleton::TransactionSkeleton;
use crate::trusted::{
    encode_tx_with_signature_bytes, encode_unsigned_tx, sign_and_encode_tx, signed_tx_b64,
    signed_tx_with_sig_b64, unsigned_tx_b64,
};
use crate::types::{CryptoHash, PublicKey, SecretKey};

verus! {

/// What a signing strategy produces.
#[derive(Debug)]
pub enum SigningOutcome {
    /// A signed transaction, base64-encoded, ready to broadcast.
    Signed { blob_b64: String },
    /// The unsigned transaction, base64-encoded, to show and stop.
    DisplayOnly { unsigned_b64: String },
}

/// What an attached signing device answered when asked to sign.
#[derive(Debug)]
pub enum DeviceSignOutcome {
    Signed { bytes: Vec<u8> },
    Rejected,
    Disconnected,
}

/// What a strategy needs the skeleton to offer, beyond readiness: exactly
/// the one transfer action this pipeline builds.
pub open spec fn signable(skeleton: &TransactionSkeleton) -> bool {
    &&& skeleton.signer_id is Some
    &&& skeleton.receiver_id is Some
    &&& skeleton.actions@.len() == 1
}

/// What the local-key strategy returns: the skeleton, completed with the
/// strategy's key, nonce and block hash, signed with its private key.
pub open spec fn spec_private_key_blob(p: &SignPrivateKey, skeleton: &TransactionSkeleton) -> Seq<
    char,
> {
    signed_tx_b64(
        skeleton.signer_id->0@,
        p.signer_public_key@,
        p.nonce,
        skeleton.receiver_id->0@,
        p.block_hash@,
        skeleton.actions@[0].deposit,
        p.signer_private_key@,
    )
}

impl SignPrivateKey {
    /// Signs locally with the supplied key material; no network is
    /// touched.  Succeeds on every skeleton this pipeline prepares, the
    /// key material being well-formed by construction, and returns
    /// exactly the signed encoding of the completed skeleton.
    pub fn process(&self, skeleton: &TransactionSkeleton) -> (r: Result<
        SigningOutcome,
        TransferError,
    >)
        requires
            signable(skeleton),
        ensures
            r matches Ok(o) && o matches SigningOutcome::Signed { blob_b64 } && blob_b64@
                == spec_private_key_blob(self, skeleton),
    {
        proof {
            use_type_invariant(&self.signer_public_key);
            use_type_invariant(&self.signer_private_key);
            use_type_invariant(&self.block_hash);
        }
        let signer = match &skeleton.signer_id {
            Some(s) => s,
            None => {
                proof {
                    assert(false);
                }
                return Err(TransferError::MalformedKey);
            },
        };
        let receiver = match &skeleton.receiver_id {
            Some(s) => s,
            None => {
                proof {
                    assert(false);
                }
                return Err(TransferError::MalformedKey);
            },
        };
        proof {
            use_type_invariant(signer);
            use_type_invariant(receiver);
        }
        let deposit = skeleton.actions[0].deposit;
        match sign_and_encode_tx(
            signer.as_text(),
            self.signer_public_key.as_text(),
            self.nonce,
            receiver.as_text(),
            self.block_hash.as_text(),
            deposit,
            self.signer_private_key.as_text(),
        ) {
            Some(blob_b64) => Ok(SigningOutcome::Signed { blob_b64 }),
            None => {
                proof {
                    assert(false);
                }
                Err(TransferError::MalformedKey)
            },
        }
    }
}

/// What the keychain strategy returns on success: the skeleton, completed
/// with the stored key and the fetched chain data, signed with the stored
/// private key.
pub open spec fn spec_keychain_blob(
    stored_key: (PublicKey, SecretKey),
    chain_data: (u64, CryptoHash),
    skeleton: &TransactionSkeleton,
) -> Seq<char> {
    signed_tx_b64(
        skeleton.signer_id->0@,
        stored_key.0@,
        chain_data.0,
        skeleton.receiver_id->0@,
        chain_data.1@,
        skeleton.actions@[0].deposit,
        stored_key.1@,
    )
}

impl SignKeychain {
    /// Signs with a key from the credential store and live chain data.
    /// With no endpoint this strategy cannot run; a store miss or a
    /// failed fetch ends the run with its cause; otherwise the result is
    /// exactly the signed encoding of the completed skeleton.
    pub fn process(
        &self,
        skeleton: &TransactionSkeleton,
        connection_config: &Option<ConnectionConfig>,
        stored_key: Option<(PublicKey, SecretKey)>,
        chain_data: Option<(u64, CryptoHash)>,
    ) -> (r: Result<SigningOutcome, TransferError>)
        requires
            signable(skeleton),
        ensures
            connection_config is None ==> r == Err::<SigningOutcome, TransferError>(
                TransferError::NetworkRequired,
            ),
            connection_config is Some && stored_key is None ==> r == Err::<
                SigningOutcome,
                TransferError,
            >(TransferError::KeychainMiss),
            connection_config is Some && stored_key is Some && chain_data is None ==> r == Err::<
                SigningOutcome,
                TransferError,
            >(TransferError::Transport),
            connection_config is Some && stored_key is Some && chain_data is Some ==> (r matches Ok(
                o,
            ) && o matches SigningOutcome::Signed { blob_b64 } && blob_b64@ == spec_keychain_blob(
                stored_key->0,
                chain_data->0,
                skeleton,
            )),
    {
        if connection_config.is_none() {
            return Err(TransferError::NetworkRequired);
        }
        let (public_key, secret_key) = match stored_key {
            Some(k) => k,
            None => {
                return Err(TransferError::KeychainMiss);
            },
        };
        let (nonce, block_hash) = match chain_data {
            Some(d) => d,
            None => {
                return Err(TransferError::Transport);
            },
        };
        proof {
            use_type_invariant(&public_key);
            use_type_invariant(&secret_key);
            use_type_invariant(&block_hash);
        }
        let signer = match &skeleton.signer_id {
            Some(s) => s,
            None => {
                proof {
                    assert(false);
                }
                return Err(TransferError::MalformedKey);
            },
        };
        let receiver = match &skeleton.receiver_id {
            Some(s) => s,
            None => {
                proof {
                    assert(false);
                }
                return Err(TransferError::MalformedKey);
            },
        };
        proof {
            use_type_invariant(signer);
            use_type_invariant(receiver);
        }
        let deposit = skeleton.actions[0].deposit;
        match sign_and_encode_tx(
            signer.as_text(),
            public_key.as_text(),
            nonce,
            receiver.as_text(),
            block_hash.as_text(),
            deposit,
            secret_key.as_text(),
        ) {
            Some(blob_b64) => Ok(SigningOutcome::Signed { blob_b64 }),
            None => {
                proof {
                    assert(false);
                }
                Err(TransferError::MalformedKey)
            },
        }
    }
}

/// What the device strategy returns on an accepted signature: the
/// skeleton, completed with the device's key and the fetched chain data,
/// carrying the device's signature bytes.
pub open spec fn spec_ledger_blob(
    device_public_key: PublicKey,
    chain_data: (u64, CryptoHash),
    skeleton: &TransactionSkeleton,
    sig: Seq<u8>,
) -> Seq<char> {
    signed_tx_with_sig_b64(
        skeleton.signer_id->0@,
        device_public_key@,
        chain_data.0,
        skeleton.receiver_id->0@,
        chain_data.1@,
        skeleton.actions@[0].deposit,
        sig,
    )
}

impl SignLedger {
    /// Signs on an attached device with live chain data.  With no
    /// endpoint this strategy cannot run; a disconnected device, a failed
    /// fetch, a rejection, or an answer that is not a 64-byte signature
    /// each end the run with their cause.  An accepted 64-byte signature
    /// yields exactly the encoding of the completed skeleton carrying it.
    pub fn process(
        &self,
        skeleton: &TransactionSkeleton,
        connection_config: &Option<ConnectionConfig>,
        device_public_key: Option<PublicKey>,
        chain_data: Option<(u64, CryptoHash)>,
        device_answer: DeviceSignOutcome,
    ) -> (r: Result<SigningOutcome, TransferError>)
        requires
            signable(skeleton),
        ensures
            connection_config is None ==> r == Err::<SigningOutcome, TransferError>(
                TransferError::NetworkRequired,
            ),
            connection_config is Some && device_public_key is None ==> r == Err::<
                SigningOutcome,
                TransferError,
            >(TransferError::DeviceDisconnected),
            connection_config is Some && device_public_key is Some && chain_data is None ==> r
                == Err::<SigningOutcome, TransferError>(TransferError::Transport),
            connection_config is Some && device_public_key is Some && chain_data is Some ==> match device_answer {
                DeviceSignOutcome::Rejected => r == Err::<SigningOutcome, TransferError>(
                    TransferError::DeviceRejected,
                ),
                DeviceSignOutcome::Disconnected => r == Err::<SigningOutcome, TransferError>(
                    TransferError::DeviceDisconnected,
                ),
                DeviceSignOutcome::Signed { bytes } => (if bytes@.len() == 64 {
                    r matches Ok(o) && o matches SigningOutcome::Signed { blob_b64 } && blob_b64@
                        == spec_ledger_blob(device_public_key->0, chain_data->0, skeleton, bytes@)
                } else {
                    r == Err::<SigningOutcome, TransferError>(TransferError::DeviceRejected)
                }),
            },
    {
        if connection_config.is_none() {
            return Err(TransferError::NetworkRequired);
        }
        let public_key = match device_public_key {
            Some(k) => k,
            None => {
                return Err(TransferError::DeviceDisconnected);
            },
        };
        let (nonce, block_hash) = match chain_data {
            Some(d) => d,
            None => {
                return Err(TransferError::Transport);
            },
        };
        let bytes = match device_answer {
            DeviceSignOutcome::Rejected => {
                return Err(TransferError::DeviceRejected);
            },
            DeviceSignOutcome::Disconnected => {
                return Err(TransferError::DeviceDisconnected);
            },
            DeviceSignOutcome::Signed { bytes } => bytes,
        };
        proof {
            use_type_invariant(&public_key);
            use_type_invariant(&block_hash);
        }
        let signer = match &skeleton.signer_id {
            Some(s) => s,
            None => {
                proof {
                    assert(false);
                }
                return Err(TransferError::MalformedKey);
            },
        };
        let receiver = match &skeleton.receiver_id {
            Some(s) => s,
            None => {
                proof {
                    assert(false);
                }
                return Err(TransferError::MalformedKey);
            },
        };
        proof {
            use_type_invariant(signer);
            use_type_invariant(receiver);
        }
        let deposit = skeleton.actions[0].deposit;
        match encode_tx_with_signature_bytes(
            signer.as_text(),
            public_key.as_text(),
            nonce,
            receiver.as_text(),
            block_hash.as_text(),
            deposit,
            &bytes,
        ) {
            Some(blob_b64) => Ok(SigningOutcome::Signed { blob_b64 }),
            None => Err(TransferError::DeviceRejected),
        }
    }
}

impl SignManually {
    /// Produces no signature: encodes the unsigned transaction, with this
    /// strategy's key, nonce and block hash filled in, for display only.
    /// No network is touched, and it never fails.
    pub fn process(&self, skeleton: &TransactionSkeleton) -> (r: Result<
        SigningOutcome,
        TransferError,
    >)
        requires
            signable(skeleton),
        ensures
            r matches Ok(o) && o matches SigningOutcome::DisplayOnly { unsigned_b64 }
                && unsigned_b64@ == unsigned_tx_b64(
                skeleton.signer_id->0@,
                self.signer_public_key@,
                self.nonce,
                skeleton.receiver_id->0@,
                self.block_hash@,
                skeleton.actions@[0].deposit,
            ),
    {
        proof {
            use_type_invariant(&self.signer_public_key);
            use_type_invariant(&self.block_hash);
        }
        let signer = match &skeleton.signer_id {
            Some(s) => s,
            None => {
                proof {
                    assert(false);
                }
                return Err(TransferError::MalformedKey);
            },
        };
        let receiver = match &skeleton.receiver_id {
            Some(s) => s,
            None => {
                proof {
                    assert(false);
                }
                return Err(TransferError::MalformedKey);
            },
        };
        proof {
            use_type_invariant(signer);
            use_type_invariant(receiver);
        }
        let deposit = skeleton.actions[0].deposit;
        match encode_unsigned_tx(
            signer.as_text(),
            self.signer_public_key.as_text(),
            self.nonce,
            receiver.as_text(),
            self.block_hash.as_text(),
            deposit,
        ) {
            Some(unsigned_b64) => Ok(SigningOutcome::DisplayOnly { unsigned_b64 }),
            None => {
                proof {
                    assert(false);
                }
                Err(TransferError::MalformedKey)
            },
        }
    }
}

/// What the outside world supplied for the chosen strategy: the stored
/// key, the live chain data, and the device's answers, each present only
/// when that strategy was run and the call came back.
#[derive(Debug)]
pub struct SigningResources {
    pub stored_key: Option<(PublicKey, SecretKey)>,
    pub chain_data: Option<(u64, CryptoHash)>,
    pub device_public_key: Option<PublicKey>,
    pub device_answer: DeviceSignOutcome,
}

impl SignTransaction {
    /// Runs the chosen strategy, exactly once, on exactly the skeleton and
    /// endpoint it was handed: the result is, per variant, what that
    /// strategy's own contract fixes — so the manual strategy alone yields
    /// the display-only outcome, and at most one signed transaction is
    /// produced per run.
    pub fn process(
        &self,
        skeleton: &TransactionSkeleton,
        connection_config: &Option<ConnectionConfig>,
        resources: SigningResources,
    ) -> (r: Result<SigningOutcome, TransferError>)
        requires
            signable(skeleton),
        ensures
            (match self {
                SignTransaction::SignPrivateKey(p) => r matches Ok(o) && o matches SigningOutcome::Signed {
                    blob_b64,
                } && blob_b64@ == spec_private_key_blob(p, skeleton),
                SignTransaction::SignWithKeychain(_) => {
                    if connection_config is None {
                        r == Err::<SigningOutcome, TransferError>(TransferError::NetworkRequired)
                    } else if resources.stored_key is None {
                        r == Err::<SigningOutcome, TransferError>(TransferError::KeychainMiss)
                    } else if resources.chain_data is None {
                        r == Err::<SigningOutcome, TransferError>(TransferError::Transport)
                    } else {
                        r matches Ok(o) && o matches SigningOutcome::Signed { blob_b64 }
                            && blob_b64@ == spec_keychain_blob(
                            resources.stored_key->0,
                            resources.chain_data->0,
                            skeleton,
                        )
                    }
                },
                SignTransaction::SignWithLedger(_) => {
                    if connection_config is None {
                        r == Err::<SigningOutcome, TransferError>(TransferError::NetworkRequired)
                    } else if resources.device_public_key is None {
                        r == Err::<SigningOutcome, TransferError>(
                            TransferError::DeviceDisconnected,
                        )
                    } else if resources.chain_data is None {
                        r == Err::<SigningOutcome, TransferError>(TransferError::Transport)
                    } else {
                        match resources.device_answer {
                            DeviceSignOutcome::Rejected => r == Err::<
                                SigningOutcome,
                                TransferError,
                            >(TransferError::DeviceRejected),
                            DeviceSignOutcome::Disconnected => r == Err::<
                                SigningOutcome,
                                TransferError,
                            >(TransferError::DeviceDisconnected),
                            DeviceSignOutcome::Signed { bytes } => if bytes@.len() == 64 {
                                r matches Ok(o) && o matches SigningOutcome::Signed { blob_b64 }
                                    && blob_b64@ == spec_ledger_blob(
                                    resources.device_public_key->0,
                                    resources.chain_data->0,
                                    skeleton,
                                    bytes@,
                                )
                            } else {
                                r == Err::<SigningOutcome, TransferError>(
                                    TransferError::DeviceRejected,
                                )
                            },
                        }
                    }
                },
                SignTransaction::SignManually(m) => r matches Ok(o) && o matches SigningOutcome::DisplayOnly {
                    unsigned_b64,
                } && unsigned_b64@ == unsigned_tx_b64(
                    skeleton.signer_id->0@,
                    m.signer_public_key@,
                    m.nonce,
                    skeleton.receiver_id->0@,
                    m.block_hash@,
                    skeleton.actions@[0].deposit,
                ),
            }),
    {
        match self {
            SignTransaction::SignPrivateKey(keys) => keys.process(skeleton),
            SignTransaction::SignWithKeychain(chain) => chain.process(
                skeleton,
                connection_config,
                resources.stored_key,
                resources.chain_data,
            ),
            SignTransaction::SignWithLedger(ledger) => ledger.process(
                skeleton,
                connection_config,
                resources.device_public_key,
                resources.chain_data,
                resources.device_answer,
            ),
            SignTransaction::SignManually(args_manually) => args_manually.process(skeleton),
        }
    }
}

} // verus!

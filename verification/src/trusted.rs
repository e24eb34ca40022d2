//! The trusted boundary: every call into an outside crate that the
//! verified logic relies on, together with the contract its callers are
//! proved against.  Nothing else in the library is taken on trust.

use vstd::prelude::*;

use near_primitives::transaction::{
    Action, SignedTransaction, Transaction, TransactionV0, TransferAction,
};

use crate::account::valid_account_id;

verus! {

/// Whether `near_crypto::PublicKey::from_str` accepts `s`.
pub uninterp spec fn parseable_public_key(s: Seq<char>) -> bool;

/// Whether `near_crypto::SecretKey::from_str` accepts `s` as a key this
/// library signs with: an ed25519 keypair whose public half matches its
/// secret half, or a secp256k1 key.
pub uninterp spec fn usable_secret_key(s: Seq<char>) -> bool;

/// Whether `near_primitives::hash::CryptoHash::from_str` accepts `s`.
pub uninterp spec fn parseable_block_hash(s: Seq<char>) -> bool;

/// The base64 borsh serialization of the unsigned transfer transaction
/// with the given fields and one transfer action.
pub uninterp spec fn unsigned_tx_b64(
    signer: Seq<char>,
    pk: Seq<char>,
    nonce: u64,
    receiver: Seq<char>,
    block_hash: Seq<char>,
    deposit: u128,
) -> Seq<char>;

/// The base64 borsh serialization of the signed transfer transaction
/// with the given fields, signed with the key written as `sk`.  A
/// function of its arguments alone: the keys this library admits sign
/// deterministically (ed25519 per its specification; secp256k1 with the
/// deterministic nonce derivation).
pub uninterp spec fn signed_tx_b64(
    signer: Seq<char>,
    pk: Seq<char>,
    nonce: u64,
    receiver: Seq<char>,
    block_hash: Seq<char>,
    deposit: u128,
    sk: Seq<char>,
) -> Seq<char>;

/// The base64 borsh serialization of the signed transfer transaction
/// with the given fields, carrying the 64 raw signature bytes an outside
/// device produced.
pub uninterp spec fn signed_tx_with_sig_b64(
    signer: Seq<char>,
    pk: Seq<char>,
    nonce: u64,
    receiver: Seq<char>,
    block_hash: Seq<char>,
    deposit: u128,
    sig: Seq<u8>,
) -> Seq<char>;

/// What `shell_words::join` makes of a word list.
pub uninterp spec fn shell_joined(words: Seq<Seq<char>>) -> Seq<char>;

/// Relies on `near_crypto::PublicKey::from_str`: whether `s` parses as a
/// public key.
#[verifier::external_body]
pub(crate) fn check_public_key_text(s: &str) -> (r: bool)
    ensures
        r == parseable_public_key(s@),
{
    s.parse::<near_crypto::PublicKey>().is_ok()
}

/// Relies on `near_crypto::SecretKey::from_str` and
/// `ed25519_dalek::SigningKey::from_keypair_bytes`: whether `s` parses as
/// a secret key that `near_crypto::SecretKey::sign` handles without fault
/// (for an ed25519 key the two halves must be consistent).
#[verifier::external_body]
pub(crate) fn check_secret_key_text(s: &str) -> (r: bool)
    ensures
        r == usable_secret_key(s@),
{
    match s.parse::<near_crypto::SecretKey>() {
        Ok(near_crypto::SecretKey::ED25519(k)) => {
            ed25519_dalek::SigningKey::from_keypair_bytes(&k.0).is_ok()
        },
        Ok(near_crypto::SecretKey::SECP256K1(_)) => true,
        _ => false,
    }
}

/// Relies on `near_primitives::hash::CryptoHash::from_str`: whether `s`
/// parses as a 32-byte hash in base58.
#[verifier::external_body]
pub(crate) fn check_block_hash_text(s: &str) -> (r: bool)
    ensures
        r == parseable_block_hash(s@),
{
    s.parse::<near_primitives::hash::CryptoHash>().is_ok()
}

/// Relies on near-primitives: the borsh serialization of a `TransactionV0`
/// holding one transfer action, rendered with `serialize::to_base64`.  The
/// field parsers accept exactly what the named predicates (and
/// `valid_account_id`, which matches near-account-id's rule) describe.
#[verifier::external_body]
pub(crate) fn encode_unsigned_tx(
    signer: &str,
    pk: &str,
    nonce: u64,
    receiver: &str,
    block_hash: &str,
    deposit: u128,
) -> (r: Option<String>)
    ensures
        r is Some <==> (valid_account_id(signer@) && parseable_public_key(pk@) && valid_account_id(
            receiver@,
        ) && parseable_block_hash(block_hash@)),
        r matches Some(t) ==> t@ == unsigned_tx_b64(
            signer@,
            pk@,
            nonce,
            receiver@,
            block_hash@,
            deposit,
        ),
{
    let tx = Transaction::V0(TransactionV0 {
        signer_id: signer.parse().ok()?,
        public_key: pk.parse().ok()?,
        nonce,
        receiver_id: receiver.parse().ok()?,
        block_hash: block_hash.parse().ok()?,
        actions: vec![Action::Transfer(TransferAction { deposit: near_primitives::types::Balance::from_yoctonear(deposit) })],
    });
    Some(near_primitives::serialize::to_base64(&borsh::to_vec(&tx).ok()?))
}

/// Relies on `near_crypto::SecretKey::sign` over the transaction hash from
/// `Transaction::get_hash_and_size`, and on the near-primitives
/// signed-transaction borsh encoding with `serialize::to_base64`.  The
/// admitted keys sign deterministically, so the result is a function of
/// the arguments alone and is named `signed_tx_b64`.
#[verifier::external_body]
pub(crate) fn sign_and_encode_tx(
    signer: &str,
    pk: &str,
    nonce: u64,
    receiver: &str,
    block_hash: &str,
    deposit: u128,
    secret_key: &str,
) -> (r: Option<String>)
    requires
        usable_secret_key(secret_key@),
    ensures
        r is Some <==> (valid_account_id(signer@) && parseable_public_key(pk@) && valid_account_id(
            receiver@,
        ) && parseable_block_hash(block_hash@)),
        r matches Some(t) ==> t@ == signed_tx_b64(
            signer@,
            pk@,
            nonce,
            receiver@,
            block_hash@,
            deposit,
            secret_key@,
        ),
{
    let v0 = TransactionV0 {
        signer_id: signer.parse().ok()?,
        public_key: pk.parse().ok()?,
        nonce,
        receiver_id: receiver.parse().ok()?,
        block_hash: block_hash.parse().ok()?,
        actions: vec![Action::Transfer(TransferAction { deposit: near_primitives::types::Balance::from_yoctonear(deposit) })],
    };
    let sk: near_crypto::SecretKey = secret_key.parse().ok()?;
    let sig = sk.sign(Transaction::V0(v0.clone()).get_hash_and_size().0.as_ref());
    let st = SignedTransaction::new(sig, Transaction::V0(v0));
    Some(near_primitives::serialize::to_base64(&borsh::to_vec(&st).ok()?))
}

/// Relies on `near_crypto::Signature::from_parts` (an ed25519 signature
/// from raw bytes, accepted exactly when there are 64 of them) and on the
/// near-primitives signed-transaction encoding, for a signature computed
/// by an outside device.
#[verifier::external_body]
pub(crate) fn encode_tx_with_signature_bytes(
    signer: &str,
    pk: &str,
    nonce: u64,
    receiver: &str,
    block_hash: &str,
    deposit: u128,
    sig_bytes: &Vec<u8>,
) -> (r: Option<String>)
    ensures
        r is Some <==> (valid_account_id(signer@) && parseable_public_key(pk@) && valid_account_id(
            receiver@,
        ) && parseable_block_hash(block_hash@) && sig_bytes@.len() == 64),
        r matches Some(t) ==> t@ == signed_tx_with_sig_b64(
            signer@,
            pk@,
            nonce,
            receiver@,
            block_hash@,
            deposit,
            sig_bytes@,
        ),
{
    let v0 = TransactionV0 {
        signer_id: signer.parse().ok()?,
        public_key: pk.parse().ok()?,
        nonce,
        receiver_id: receiver.parse().ok()?,
        block_hash: block_hash.parse().ok()?,
        actions: vec![Action::Transfer(TransferAction { deposit: near_primitives::types::Balance::from_yoctonear(deposit) })],
    };
    let sig = near_crypto::Signature::from_parts(
        near_crypto::KeyType::ED25519,
        sig_bytes.as_slice(),
    ).ok()?;
    let st = SignedTransaction::new(sig, Transaction::V0(v0));
    Some(near_primitives::serialize::to_base64(&borsh::to_vec(&st).ok()?))
}

/// Relies on `shell_words::join`: the given words as one command line that
/// a shell would split back into exactly those words.
#[verifier::external_body]
pub(crate) fn shell_join(words: &Vec<String>) -> (r: String)
    ensures
        r@ == shell_joined(words.deep_view()),
{
    shell_words::join(words)
}

} // verus!

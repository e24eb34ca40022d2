use near_cli::account::AccountId;
use near_cli::endpoint::ConnectionConfig;
use near_cli::error::TransferError;
use near_cli::pipeline::{
    SignKeychain, SignLedger, SignManually, SignPrivateKey, SignTransaction, Submit,
};
use near_cli::sign::{DeviceSignOutcome, SigningOutcome, SigningResources};
use near_cli::skeleton::TransactionSkeleton;
use near_cli::types::{CryptoHash, PublicKey, SecretKey};

const BLOCK_HASH: &str = "11111111111111111111111111111111";

fn keypair(seed: &str) -> (String, String) {
    let sk = near_crypto::SecretKey::from_seed(near_crypto::KeyType::ED25519, seed);
    (sk.public_key().to_string(), sk.to_string())
}

fn skeleton() -> TransactionSkeleton {
    TransactionSkeleton::new_empty()
        .with_signer(AccountId::parse("alice").unwrap())
        .with_receiver(AccountId::parse("bob").unwrap())
        .with_transfer(42)
}

#[test]
fn key_material_types_accept_only_what_parses() {
    let (pk, sk) = keypair("keys");
    assert!(PublicKey::parse(&pk).is_some());
    assert!(SecretKey::parse(&sk).is_some());
    assert!(CryptoHash::parse(BLOCK_HASH).is_some());
    assert!(PublicKey::parse("not a key").is_none());
    assert!(SecretKey::parse("ed25519:zzz").is_none());
    assert!(CryptoHash::parse("0Ol").is_none());
    // an ed25519 key whose halves disagree parses upstream but cannot
    // sign, so it is rejected here
    let sk_b = near_crypto::SecretKey::from_seed(near_crypto::KeyType::ED25519, "b");
    let pk_a = near_crypto::SecretKey::from_seed(near_crypto::KeyType::ED25519, "a").public_key();
    let mixed = match (sk_b, pk_a) {
        (near_crypto::SecretKey::ED25519(kb), near_crypto::PublicKey::ED25519(pa)) => {
            let mut bytes = kb.0;
            bytes[32..].copy_from_slice(&pa.0);
            near_crypto::SecretKey::ED25519(near_crypto::ED25519SecretKey(bytes)).to_string()
        },
        _ => panic!("ed25519 keys were requested"),
    };
    assert!(mixed.parse::<near_crypto::SecretKey>().is_ok());
    assert!(SecretKey::parse(&mixed).is_none());
}

#[test]
fn local_key_signing_yields_a_verifiable_signed_transaction() {
    let (pk, sk) = keypair("local");
    let strategy = SignPrivateKey {
        signer_public_key: PublicKey::parse(&pk).unwrap(),
        signer_private_key: SecretKey::parse(&sk).unwrap(),
        nonce: 3,
        block_hash: CryptoHash::parse(BLOCK_HASH).unwrap(),
        submit: Submit::Display,
    };
    let out = strategy.process(&skeleton()).unwrap();
    let blob = match out {
        SigningOutcome::Signed { blob_b64 } => blob_b64,
        _ => panic!("the local-key strategy signs"),
    };
    // the blob is the borsh serialization of a signed transaction whose
    // signature verifies against the key over the transaction hash
    let bytes = near_primitives::serialize::from_base64(&blob).unwrap();
    let st: near_primitives::transaction::SignedTransaction =
        borsh::BorshDeserialize::try_from_slice(&bytes).unwrap();
    assert_eq!(st.transaction.signer_id().as_str(), "alice");
    assert_eq!(st.transaction.receiver_id().as_str(), "bob");
    assert_eq!(st.transaction.nonce().nonce(), 3);
    let hash = st.transaction.get_hash_and_size().0;
    let public_key: near_crypto::PublicKey = pk.parse().unwrap();
    assert!(st.signature.verify(hash.as_ref(), &public_key));
}

#[test]
fn manual_signing_is_display_only() {
    let (pk, _) = keypair("manual");
    let strategy = SignManually {
        signer_public_key: PublicKey::parse(&pk).unwrap(),
        nonce: 1,
        block_hash: CryptoHash::parse(BLOCK_HASH).unwrap(),
    };
    match strategy.process(&skeleton()).unwrap() {
        SigningOutcome::DisplayOnly { unsigned_b64 } => {
            assert!(!unsigned_b64.is_empty());
        },
        _ => panic!("the manual strategy never signs"),
    }
}

#[test]
fn keychain_signing_demands_its_resources() {
    let (pk, sk) = keypair("chain");
    let strategy = SignKeychain { submit: Submit::Send };
    let stored = (PublicKey::parse(&pk).unwrap(), SecretKey::parse(&sk).unwrap());
    let chain = (9u64, CryptoHash::parse(BLOCK_HASH).unwrap());
    let online = Some(ConnectionConfig::Testnet);
    let r = strategy.process(&skeleton(), &None, Some(stored), Some(chain));
    assert_eq!(r.unwrap_err(), TransferError::NetworkRequired);
    let r = strategy.process(&skeleton(), &online, None, None);
    assert_eq!(r.unwrap_err(), TransferError::KeychainMiss);
    let stored = (PublicKey::parse(&pk).unwrap(), SecretKey::parse(&sk).unwrap());
    let r = strategy.process(&skeleton(), &online, Some(stored), None);
    assert_eq!(r.unwrap_err(), TransferError::Transport);
    let stored = (PublicKey::parse(&pk).unwrap(), SecretKey::parse(&sk).unwrap());
    let chain = (9u64, CryptoHash::parse(BLOCK_HASH).unwrap());
    let r = strategy.process(&skeleton(), &online, Some(stored), Some(chain));
    assert!(matches!(r.unwrap(), SigningOutcome::Signed { .. }));
}

#[test]
fn device_signing_reports_each_failure_mode() {
    let (pk, sk) = keypair("device");
    let strategy = SignLedger {
        seed_phrase_hd_path: "44'/397'/0'/0'/1'".to_string(),
        submit: Submit::Send,
    };
    let online = Some(ConnectionConfig::Testnet);
    let device_pk = || PublicKey::parse(&pk);
    let chain = || Some((5u64, CryptoHash::parse(BLOCK_HASH).unwrap()));
    let r = strategy.process(
        &skeleton(),
        &None,
        device_pk(),
        chain(),
        DeviceSignOutcome::Rejected,
    );
    assert_eq!(r.unwrap_err(), TransferError::NetworkRequired);
    let r = strategy.process(&skeleton(), &online, None, chain(), DeviceSignOutcome::Rejected);
    assert_eq!(r.unwrap_err(), TransferError::DeviceDisconnected);
    let r = strategy.process(&skeleton(), &online, device_pk(), None, DeviceSignOutcome::Rejected);
    assert_eq!(r.unwrap_err(), TransferError::Transport);
    let r = strategy.process(
        &skeleton(),
        &online,
        device_pk(),
        chain(),
        DeviceSignOutcome::Rejected,
    );
    assert_eq!(r.unwrap_err(), TransferError::DeviceRejected);
    let r = strategy.process(
        &skeleton(),
        &online,
        device_pk(),
        chain(),
        DeviceSignOutcome::Disconnected,
    );
    assert_eq!(r.unwrap_err(), TransferError::DeviceDisconnected);
    // a real 64-byte signature from the matching key is accepted
    let near_sk: near_crypto::SecretKey = sk.parse().unwrap();
    let tx = near_primitives::transaction::Transaction::V0(
        near_primitives::transaction::TransactionV0 {
            signer_id: "alice".parse().unwrap(),
            public_key: pk.parse().unwrap(),
            nonce: 5,
            receiver_id: "bob".parse().unwrap(),
            block_hash: BLOCK_HASH.parse().unwrap(),
            actions: vec![near_primitives::transaction::Action::Transfer(
                near_primitives::transaction::TransferAction {
                    deposit: near_primitives::types::Balance::from_yoctonear(42),
                },
            )],
        },
    );
    let sig = near_sk.sign(tx.get_hash_and_size().0.as_ref());
    let sig_bytes: Vec<u8> = match sig {
        near_crypto::Signature::ED25519(s) => s.to_bytes().to_vec(),
        _ => panic!("an ed25519 signature was requested"),
    };
    let r = strategy.process(
        &skeleton(),
        &online,
        device_pk(),
        chain(),
        DeviceSignOutcome::Signed { bytes: sig_bytes },
    );
    assert!(matches!(r.unwrap(), SigningOutcome::Signed { .. }));
    // bytes of the wrong length read as a rejection
    let r = strategy.process(
        &skeleton(),
        &online,
        device_pk(),
        chain(),
        DeviceSignOutcome::Signed { bytes: vec![1, 2, 3] },
    );
    assert_eq!(r.unwrap_err(), TransferError::DeviceRejected);
}

#[test]
fn dispatcher_answers_as_the_chosen_strategy_does() {
    let (pk, sk) = keypair("dispatch");
    let no_resources = || SigningResources {
        stored_key: None,
        chain_data: None,
        device_public_key: None,
        device_answer: DeviceSignOutcome::Disconnected,
    };
    // keychain offline: the dispatcher is bound to the strategy's error
    let keychain = SignTransaction::SignWithKeychain(SignKeychain { submit: Submit::Send });
    let r = keychain.process(&skeleton(), &None, no_resources());
    assert_eq!(r.unwrap_err(), TransferError::NetworkRequired);
    // keychain online with no stored key
    let online = Some(ConnectionConfig::Testnet);
    let r = keychain.process(&skeleton(), &online, no_resources());
    assert_eq!(r.unwrap_err(), TransferError::KeychainMiss);
    // the device path reports its disconnection through the dispatcher
    let ledger = SignTransaction::SignWithLedger(SignLedger {
        seed_phrase_hd_path: "44'/397'/0'/0'/1'".to_string(),
        submit: Submit::Send,
    });
    let r = ledger.process(&skeleton(), &online, no_resources());
    assert_eq!(r.unwrap_err(), TransferError::DeviceDisconnected);
    // the local-key path signs through the dispatcher, and its blob equals
    // the strategy's own answer: the result is a function of its inputs
    let local = SignTransaction::SignPrivateKey(SignPrivateKey {
        signer_public_key: PublicKey::parse(&pk).unwrap(),
        signer_private_key: SecretKey::parse(&sk).unwrap(),
        nonce: 8,
        block_hash: CryptoHash::parse(BLOCK_HASH).unwrap(),
        submit: Submit::Display,
    });
    let via_dispatcher = match local.process(&skeleton(), &None, no_resources()).unwrap() {
        SigningOutcome::Signed { blob_b64 } => blob_b64,
        _ => panic!("the local-key strategy signs"),
    };
    let direct = SignPrivateKey {
        signer_public_key: PublicKey::parse(&pk).unwrap(),
        signer_private_key: SecretKey::parse(&sk).unwrap(),
        nonce: 8,
        block_hash: CryptoHash::parse(BLOCK_HASH).unwrap(),
        submit: Submit::Display,
    };
    let direct_blob = match direct.process(&skeleton()).unwrap() {
        SigningOutcome::Signed { blob_b64 } => blob_b64,
        _ => panic!("the local-key strategy signs"),
    };
    assert_eq!(via_dispatcher, direct_blob);
}

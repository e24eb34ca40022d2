use near_cli::account::AccountId;
use near_cli::amount::NearBalance;
use near_cli::echo::{decode_invocation, echo_command_line, encode_invocation};
use near_cli::lookup::{LookupResult, LookupTable};
use near_cli::pipeline::{
    Args, CliArgs, ModeChoice, PromptScript, ServerChoice, SignChoice, SignTransaction, Submit,
};

const YOCTO: u128 = 1_000_000_000_000_000_000_000_000;

fn id(s: &str) -> AccountId {
    AccountId::parse(s).unwrap()
}

fn keypair(seed: &str) -> (String, String) {
    let sk = near_crypto::SecretKey::from_seed(near_crypto::KeyType::ED25519, seed);
    (sk.public_key().to_string(), sk.to_string())
}

fn interactive_script() -> (PromptScript, LookupTable) {
    let (pk, sk) = keypair("echo");
    let mut table = LookupTable::new();
    table.add(id("alice"), LookupResult::Exists { balance: 100 * YOCTO });
    table.add(id("bob"), LookupResult::Exists { balance: 1 });
    let script = PromptScript {
        mode_choice: Some(ModeChoice::Network),
        server_choice: Some(ServerChoice::Testnet),
        custom_url: None,
        sender_answers: vec![id("alice")],
        receiver_answers: vec![id("bob")],
        amount_answers: vec![NearBalance::parse("2.5 NEAR").unwrap()],
        sign_choice: Some(SignChoice::PrivateKey),
        signer_public_key: near_cli::types::PublicKey::parse(&pk),
        signer_private_key: near_cli::types::SecretKey::parse(&sk),
        nonce: Some(11),
        block_hash: near_cli::types::CryptoHash::parse("11111111111111111111111111111111"),
        seed_phrase_hd_path: None,
        submit_choice: Some(Submit::Send),
    };
    (script, table)
}

fn sign_summary(s: &SignTransaction) -> (u32, Option<Submit>, String) {
    match s {
        SignTransaction::SignPrivateKey(p) => (0, Some(p.submit), format!(
            "{} {} {} {}",
            p.signer_public_key.as_text(),
            p.signer_private_key.as_text(),
            p.nonce,
            p.block_hash.as_text()
        )),
        SignTransaction::SignWithKeychain(k) => (1, Some(k.submit), String::new()),
        SignTransaction::SignWithLedger(l) => (2, Some(l.submit), l.seed_phrase_hd_path.clone()),
        SignTransaction::SignManually(m) => (3, None, format!(
            "{} {} {}",
            m.signer_public_key.as_text(),
            m.nonce,
            m.block_hash.as_text()
        )),
    }
}

#[test]
fn interactive_run_replays_identically_from_its_echo() {
    // a fully interactive run, echoed and replayed with no script, must
    // resolve to the same values at every stage
    let (script, table) = interactive_script();
    let args = Args::from(CliArgs { top_level_command: None }, Some(&script), &table).unwrap();
    let tokens = encode_invocation(&args);
    let cli2 = decode_invocation(&tokens).unwrap();
    let args2 = Args::from(cli2, None, &table).unwrap();
    let p1 = args.process();
    let p2 = args2.process();
    assert_eq!(
        p1.skeleton.signer_id.as_ref().unwrap().as_text(),
        p2.skeleton.signer_id.as_ref().unwrap().as_text()
    );
    assert_eq!(
        p1.skeleton.receiver_id.as_ref().unwrap().as_text(),
        p2.skeleton.receiver_id.as_ref().unwrap().as_text()
    );
    assert_eq!(p1.skeleton.actions[0].deposit, p2.skeleton.actions[0].deposit);
    assert_eq!(p1.connection_config.is_some(), p2.connection_config.is_some());
    assert_eq!(sign_summary(&p1.sign_option), sign_summary(&p2.sign_option));
}

#[test]
fn echo_tokens_spell_out_the_run() {
    let (script, table) = interactive_script();
    let args = Args::from(CliArgs { top_level_command: None }, Some(&script), &table).unwrap();
    let tokens = encode_invocation(&args);
    assert_eq!(tokens[0], "transfer");
    assert_eq!(tokens[1], "near");
    assert_eq!(tokens[2], "network");
    assert_eq!(tokens[3], "testnet");
    assert_eq!(tokens[4], "sender");
    assert_eq!(tokens[5], "alice");
    assert_eq!(tokens[6], "receiver");
    assert_eq!(tokens[7], "bob");
    assert_eq!(tokens[8], "amount");
    assert_eq!(tokens[9], "2.5 NEAR");
    assert_eq!(tokens[10], "sign-private-key");
    assert_eq!(tokens[13], "11");
    assert_eq!(tokens[15], "send");
}

#[test]
fn command_line_splits_back_into_the_echo_tokens() {
    // the printed line, split as a shell would, is exactly the echo trail
    let (script, table) = interactive_script();
    let args = Args::from(CliArgs { top_level_command: None }, Some(&script), &table).unwrap();
    let tokens = encode_invocation(&args);
    let line = echo_command_line(&args);
    let split = shell_words::split(&line).unwrap();
    assert_eq!(split, tokens);
}

#[test]
fn decoder_rejects_what_the_language_excludes() {
    let toks = |v: &[&str]| v.iter().map(|s| s.to_string()).collect::<Vec<String>>();
    assert!(decode_invocation(&toks(&["transfer"])).is_err());
    assert!(decode_invocation(&toks(&["view", "near", "offline"])).is_err());
    assert!(decode_invocation(&toks(&["transfer", "near", "somewhere"])).is_err());
    assert!(decode_invocation(&toks(&[
        "transfer", "near", "offline", "sender", "Alice!", "receiver", "bob", "amount", "5",
        "sign-with-keychain", "display",
    ]))
    .is_err());
    assert!(decode_invocation(&toks(&[
        "transfer", "near", "offline", "sender", "alice", "receiver", "bob", "amount",
        "not-a-number", "sign-with-keychain", "display",
    ]))
    .is_err());
    let ok = decode_invocation(&toks(&[
        "transfer", "near", "offline", "sender", "alice", "receiver", "bob", "amount", "5",
        "sign-with-keychain", "display",
    ]));
    assert!(ok.is_ok());
}

#[test]
fn offline_manual_run_replays_too() {
    let (pk, _) = keypair("echo2");
    let table = LookupTable::new();
    let script = PromptScript {
        mode_choice: Some(ModeChoice::Offline),
        server_choice: None,
        custom_url: None,
        sender_answers: vec![id("alice")],
        receiver_answers: vec![id("bob")],
        amount_answers: vec![NearBalance::parse("7").unwrap()],
        sign_choice: Some(SignChoice::Manually),
        signer_public_key: near_cli::types::PublicKey::parse(&pk),
        signer_private_key: None,
        nonce: Some(2),
        block_hash: near_cli::types::CryptoHash::parse("11111111111111111111111111111111"),
        seed_phrase_hd_path: None,
        submit_choice: None,
    };
    let args = Args::from(CliArgs { top_level_command: None }, Some(&script), &table).unwrap();
    let tokens = encode_invocation(&args);
    assert_eq!(tokens[2], "offline");
    let cli2 = decode_invocation(&tokens).unwrap();
    let args2 = Args::from(cli2, None, &table).unwrap();
    assert_eq!(
        args.process().skeleton.actions[0].deposit,
        args2.process().skeleton.actions[0].deposit
    );
}

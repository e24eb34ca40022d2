use near_cli::account::AccountId;
use near_cli::amount::NearBalance;
use near_cli::endpoint::{AvailableRpcServerUrl, ConnectionConfig};
use near_cli::error::{Stage, TransferError};
use near_cli::lookup::{check_account_id, LookupResult, LookupTable, ValidationResult};
use near_cli::pipeline::{
    Args, CliArgs, CliCurrency, CliCurrencySelection, CliMode, CliNetworkArgs, CliOfflineArgs,
    CliOperationMode, CliReceiver, CliSelectServer, CliSendFrom, CliSendTo, CliSender, CliServer,
    CliSignManually, CliSignTransaction, CliTopLevelCommand, CliTransfer,
    CliTransferNEARTokensAction, Mode, ModeChoice, PromptScript, ServerChoice, SignChoice,
    SignTransaction, Submit,
};
use near_cli::sign::{SigningOutcome, SigningResources};
use near_cli::stages::{amount_prompt_hint, resolve_account, resolve_amount};

const YOCTO: u128 = 1_000_000_000_000_000_000_000_000;

fn id(s: &str) -> AccountId {
    AccountId::parse(s).unwrap()
}

fn pk_text() -> String {
    near_crypto::SecretKey::from_seed(near_crypto::KeyType::ED25519, "manual")
        .public_key()
        .to_string()
}

const BLOCK_HASH: &str = "11111111111111111111111111111111";

fn empty_script() -> PromptScript {
    PromptScript {
        mode_choice: None,
        server_choice: None,
        custom_url: None,
        sender_answers: Vec::new(),
        receiver_answers: Vec::new(),
        amount_answers: Vec::new(),
        sign_choice: None,
        signer_public_key: None,
        signer_private_key: None,
        nonce: None,
        block_hash: None,
        seed_phrase_hd_path: None,
        submit_choice: None,
    }
}

fn manual_sign_cli() -> CliSignTransaction {
    CliSignTransaction::SignManually(CliSignManually {
        signer_public_key: near_cli::types::PublicKey::parse(&pk_text()),
        nonce: Some(7),
        block_hash: near_cli::types::CryptoHash::parse(BLOCK_HASH),
    })
}

fn offline_cli(sender: &str, receiver: &str, amount: &str) -> CliArgs {
    CliArgs {
        top_level_command: Some(CliTopLevelCommand::Transfer(CliCurrency {
            currency_selection: Some(CliCurrencySelection::Near(CliOperationMode {
                mode: Some(CliMode::Offline(CliOfflineArgs {
                    send_from: Some(CliSendFrom::Sender(CliSender {
                        sender_account_id: Some(id(sender)),
                        send_to: Some(CliSendTo::Receiver(CliReceiver {
                            receiver_account_id: Some(id(receiver)),
                            transfer: Some(CliTransfer::Amount(CliTransferNEARTokensAction {
                                amount: Some(NearBalance::parse(amount).unwrap()),
                                sign_option: Some(manual_sign_cli()),
                            })),
                        })),
                    })),
                })),
            })),
        })),
    }
}

fn testnet_cli(sender: &str, receiver: &str, amount: &str) -> CliArgs {
    CliArgs {
        top_level_command: Some(CliTopLevelCommand::Transfer(CliCurrency {
            currency_selection: Some(CliCurrencySelection::Near(CliOperationMode {
                mode: Some(CliMode::Network(CliNetworkArgs {
                    selected_server: Some(CliSelectServer::Testnet(CliServer {
                        send_from: Some(CliSendFrom::Sender(CliSender {
                            sender_account_id: Some(id(sender)),
                            send_to: Some(CliSendTo::Receiver(CliReceiver {
                                receiver_account_id: Some(id(receiver)),
                                transfer: Some(CliTransfer::Amount(
                                    CliTransferNEARTokensAction {
                                        amount: Some(NearBalance::parse(amount).unwrap()),
                                        sign_option: Some(manual_sign_cli()),
                                    },
                                )),
                            })),
                        })),
                    })),
                })),
            })),
        })),
    }
}

#[test]
fn offline_transfer_builds_the_skeleton() {
    // endpoint=None, sender=alice, receiver=bob, amount=5: one transfer
    // action of five whole tokens; manual signing shows the encoding and
    // no network is consulted (the lookup table stays empty).
    let table = LookupTable::new();
    let cli = offline_cli("alice", "bob", "5");
    let args = Args::from(cli, None, &table).unwrap();
    let prepared = args.process();
    assert!(prepared.connection_config.is_none());
    assert_eq!(prepared.skeleton.signer_id.as_ref().unwrap().as_text(), "alice");
    assert_eq!(prepared.skeleton.receiver_id.as_ref().unwrap().as_text(), "bob");
    assert_eq!(prepared.skeleton.actions.len(), 1);
    assert_eq!(prepared.skeleton.actions[0].deposit, 5 * YOCTO);
    let outcome = prepared
        .sign_option
        .process(
            &prepared.skeleton,
            &prepared.connection_config,
            SigningResources {
                stored_key: None,
                chain_data: None,
                device_public_key: None,
                device_answer: near_cli::sign::DeviceSignOutcome::Rejected,
            },
        )
        .unwrap();
    let rendered = match &outcome {
        SigningOutcome::DisplayOnly { unsigned_b64 } => unsigned_b64.clone(),
        SigningOutcome::Signed { .. } => panic!("manual signing must not sign"),
    };
    // the display output holds the unsigned skeleton encoding, exactly as
    // the outside serializer writes it
    let expected_tx = near_primitives::transaction::Transaction::V0(
        near_primitives::transaction::TransactionV0 {
            signer_id: "alice".parse().unwrap(),
            public_key: pk_text().parse().unwrap(),
            nonce: 7,
            receiver_id: "bob".parse().unwrap(),
            block_hash: BLOCK_HASH.parse().unwrap(),
            actions: vec![near_primitives::transaction::Action::Transfer(
                near_primitives::transaction::TransferAction {
                    deposit: near_primitives::types::Balance::from_yoctonear(5 * YOCTO),
                },
            )],
        },
    );
    let expected = near_primitives::serialize::to_base64(&borsh::to_vec(&expected_tx).unwrap());
    assert_eq!(rendered, expected);
    // manual signing concludes in a display, whatever submit would say
    let (concluded, notices) = near_cli::submit::conclude_transfer(
        outcome,
        Submit::Send,
        &prepared.connection_config,
        Vec::new(),
    );
    match concluded.unwrap() {
        near_cli::submit::SubmissionOutcome::Displayed { rendered: r2 } => {
            assert_eq!(r2, expected)
        },
        _ => panic!("manual signing must conclude in a display"),
    }
    assert_eq!(notices, 0);
}

#[test]
fn amount_over_known_balance_is_rejected_with_the_balance_as_ceiling() {
    // endpoint=Testnet, alice holds 100; a supplied 150 is rejected and
    // the re-prompt advertises 100 as the ceiling
    let mut table = LookupTable::new();
    table.add(id("alice"), LookupResult::Exists { balance: 100 * YOCTO });
    table.add(id("bob"), LookupResult::Exists { balance: 1 });
    let cli = testnet_cli("alice", "bob", "150");
    let err = Args::from(cli, None, &table).unwrap_err();
    assert_eq!(err, TransferError::InvalidInput { stage: Stage::Amount });
    let hint = amount_prompt_hint(Some(100 * YOCTO)).unwrap();
    assert_eq!(hint, "100 NEAR");
    // interactively the same run falls back to the prompted answer
    let mut script = empty_script();
    script.amount_answers = vec![NearBalance::parse("60 NEAR").unwrap()];
    let cli = testnet_cli("alice", "bob", "150");
    let args = Args::from(cli, Some(&script), &table).unwrap();
    let prepared = args.process();
    assert_eq!(prepared.skeleton.actions[0].deposit, 60 * YOCTO);
}

#[test]
fn amount_within_known_balance_is_accepted() {
    let mut table = LookupTable::new();
    table.add(id("alice"), LookupResult::Exists { balance: 100 * YOCTO });
    table.add(id("bob"), LookupResult::Exists { balance: 1 });
    let cli = testnet_cli("alice", "bob", "100");
    let args = Args::from(cli, None, &table).unwrap();
    assert_eq!(args.process().skeleton.actions[0].deposit, 100 * YOCTO);
}

#[test]
fn implicit_receiver_is_accepted_without_on_chain_state() {
    // endpoint=Testnet, the receiver is 64-character lowercase hex and the
    // lookup reports not found: accepted without error
    let hex = "ab12cd34ef56ab12cd34ef56ab12cd34ef56ab12cd34ef56ab12cd34ef56ab12";
    let mut table = LookupTable::new();
    table.add(id("alice"), LookupResult::Exists { balance: 100 * YOCTO });
    table.add(id(hex), LookupResult::NotFound);
    let cli = testnet_cli("alice", hex, "5");
    let args = Args::from(cli, None, &table).unwrap();
    let prepared = args.process();
    assert_eq!(prepared.skeleton.receiver_id.as_ref().unwrap().as_text(), hex);
}

#[test]
fn absent_named_receiver_is_rejected() {
    let mut table = LookupTable::new();
    table.add(id("alice"), LookupResult::Exists { balance: 100 * YOCTO });
    let cli = testnet_cli("alice", "ghost.near", "5");
    let err = Args::from(cli, None, &table).unwrap_err();
    assert_eq!(err, TransferError::InvalidInput { stage: Stage::Receiver });
}

#[test]
fn existing_account_is_accepted_without_reprompting() {
    let mut table = LookupTable::new();
    table.add(id("alice"), LookupResult::Exists { balance: 10 });
    let r = resolve_account(Some(id("alice")), None, true, &table, false, Stage::Sender);
    assert_eq!(r.unwrap().as_text(), "alice");
}

#[test]
fn interactive_sender_walks_the_answers_until_one_exists() {
    let mut table = LookupTable::new();
    table.add(id("carol"), LookupResult::Exists { balance: 10 });
    let answers = vec![id("nope"), id("carol")];
    let r = resolve_account(None, Some(answers), true, &table, false, Stage::Sender);
    assert_eq!(r.unwrap().as_text(), "carol");
    let r = resolve_account(None, Some(vec![id("nope")]), true, &table, false, Stage::Sender);
    assert_eq!(r.unwrap_err(), TransferError::PromptsExhausted { stage: Stage::Sender });
}

#[test]
fn transport_failure_on_lookup_is_a_hard_error() {
    let mut table = LookupTable::new();
    table.add(id("alice"), LookupResult::TransportFailure);
    let r = resolve_account(Some(id("alice")), None, true, &table, false, Stage::Sender);
    assert_eq!(r.unwrap_err(), TransferError::Transport);
    // offline, the same id is accepted without any lookup
    let r = resolve_account(Some(id("alice")), None, false, &table, false, Stage::Sender);
    assert!(r.is_ok());
}

#[test]
fn missing_sender_lookup_counts_as_zero_balance() {
    let r = resolve_amount(
        Some(NearBalance::from_yoctonear(1)),
        None,
        true,
        LookupResult::NotFound,
        Stage::Amount,
    );
    assert_eq!(r.unwrap_err(), TransferError::InvalidInput { stage: Stage::Amount });
    let r = resolve_amount(
        Some(NearBalance::from_yoctonear(0)),
        None,
        true,
        LookupResult::NotFound,
        Stage::Amount,
    );
    assert_eq!(r.unwrap().to_yoctonear(), 0);
}

#[test]
fn validator_reports_unknown_without_an_endpoint() {
    let mut table = LookupTable::new();
    table.add(id("alice"), LookupResult::Exists { balance: 3 });
    let r = check_account_id(&None, &table, &id("alice"));
    assert_eq!(r.unwrap(), ValidationResult::Unknown);
    let r = check_account_id(&Some(ConnectionConfig::Testnet), &table, &id("alice"));
    assert_eq!(r.unwrap(), ValidationResult::Exists { balance: 3 });
    let r = check_account_id(&Some(ConnectionConfig::Testnet), &table, &id("ghost"));
    assert_eq!(r.unwrap(), ValidationResult::NotFound);
}

#[test]
fn fully_interactive_run_resolves_from_the_script() {
    let mut table = LookupTable::new();
    table.add(id("alice"), LookupResult::Exists { balance: 100 * YOCTO });
    table.add(id("bob"), LookupResult::Exists { balance: 1 });
    let mut script = empty_script();
    script.mode_choice = Some(ModeChoice::Network);
    script.server_choice = Some(ServerChoice::Testnet);
    script.sender_answers = vec![id("alice")];
    script.receiver_answers = vec![id("bob")];
    script.amount_answers = vec![NearBalance::parse("5").unwrap()];
    script.sign_choice = Some(SignChoice::Keychain);
    script.submit_choice = Some(Submit::Send);
    let cli = CliArgs { top_level_command: None };
    let args = Args::from(cli, Some(&script), &table).unwrap();
    let prepared = args.process();
    assert_eq!(prepared.skeleton.signer_id.as_ref().unwrap().as_text(), "alice");
    assert_eq!(prepared.skeleton.actions[0].deposit, 5 * YOCTO);
    match &prepared.sign_option {
        SignTransaction::SignWithKeychain(k) => assert_eq!(k.submit, Submit::Send),
        _ => panic!("the scripted pick was the keychain strategy"),
    }
}

#[test]
fn offline_submit_menu_offers_display_only() {
    // picking send in an offline interactive run still resolves display
    let table = LookupTable::new();
    let mut script = empty_script();
    script.mode_choice = Some(ModeChoice::Offline);
    script.sender_answers = vec![id("alice")];
    script.receiver_answers = vec![id("bob")];
    script.amount_answers = vec![NearBalance::parse("5").unwrap()];
    script.sign_choice = Some(SignChoice::Keychain);
    script.submit_choice = Some(Submit::Send);
    let args = Args::from(CliArgs { top_level_command: None }, Some(&script), &table).unwrap();
    let prepared = args.process();
    match &prepared.sign_option {
        SignTransaction::SignWithKeychain(k) => assert_eq!(k.submit, Submit::Display),
        _ => panic!("the scripted pick was the keychain strategy"),
    }
}

#[test]
fn custom_server_takes_its_url() {
    let mut table = LookupTable::new();
    table.add(id("alice"), LookupResult::Exists { balance: 100 });
    table.add(id("bob"), LookupResult::Exists { balance: 1 });
    let mut script = empty_script();
    script.mode_choice = Some(ModeChoice::Network);
    script.server_choice = Some(ServerChoice::Custom);
    script.custom_url = AvailableRpcServerUrl::parse("https://rpc.example.com");
    script.sender_answers = vec![id("alice")];
    script.receiver_answers = vec![id("bob")];
    script.amount_answers = vec![NearBalance::from_yoctonear(1)];
    script.sign_choice = Some(SignChoice::Manually);
    script.signer_public_key = near_cli::types::PublicKey::parse(&pk_text());
    script.nonce = Some(1);
    script.block_hash = near_cli::types::CryptoHash::parse(BLOCK_HASH);
    let args = Args::from(CliArgs { top_level_command: None }, Some(&script), &table).unwrap();
    let prepared = args.process();
    match prepared.connection_config.unwrap() {
        ConnectionConfig::Custom { url } => assert_eq!(url.as_text(), "https://rpc.example.com"),
        _ => panic!("the scripted pick was a custom server"),
    }
}

#[test]
fn rpc_urls_are_the_fixed_named_servers() {
    assert_eq!(ConnectionConfig::Testnet.rpc_url(), "https://rpc.testnet.near.org");
    assert_eq!(ConnectionConfig::Mainnet.rpc_url(), "https://rpc.mainnet.near.org");
    assert_eq!(ConnectionConfig::Betanet.rpc_url(), "https://rpc.betanet.near.org");
    let url = AvailableRpcServerUrl::parse("http://localhost:3030").unwrap();
    assert_eq!(ConnectionConfig::from_custom_url(&url).rpc_url(), "http://localhost:3030");
    assert!(AvailableRpcServerUrl::parse("").is_none());
}

#[test]
fn every_error_has_a_message() {
    let errors = [
        TransferError::MissingInput { stage: Stage::Sender },
        TransferError::InvalidInput { stage: Stage::Amount },
        TransferError::PromptsExhausted { stage: Stage::Receiver },
        TransferError::Transport,
        TransferError::KeychainMiss,
        TransferError::NetworkRequired,
        TransferError::DeviceRejected,
        TransferError::DeviceDisconnected,
        TransferError::MalformedKey,
    ];
    for e in errors {
        assert!(!e.message().is_empty());
    }
}

#[test]
fn non_interactive_run_with_nothing_supplied_is_an_error() {
    let table = LookupTable::new();
    let err = Args::from(CliArgs { top_level_command: None }, None, &table).unwrap_err();
    assert_eq!(err, TransferError::MissingInput { stage: Stage::Command });
}

#[test]
fn mode_derives_the_empty_context() {
    let table = LookupTable::new();
    let cli = offline_cli("alice", "bob", "5");
    let args = Args::from(cli, None, &table).unwrap();
    match &args.top_level_command {
        near_cli::pipeline::TopLevelCommand::Transfer(c) => {
            let near_cli::pipeline::CurrencySelection::Near(om) = &c.currency_selection;
            assert!(matches!(om.mode, Mode::Offline(_)));
        },
    }
}

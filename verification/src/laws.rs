//! The laws of the pipeline, stated and proved over the resolution and
//! submission specs: what the stages accept, and that a finished run
//! replays.

use vstd::prelude::*;

use crate::account::{is_implicit_account, AccountId};
use crate::amount::NearBalance;
use crate::endpoint::ConnectionConfig;
use crate::error::{Stage, TransferError};
use crate::lookup::{LookupResult, LookupTable};
use crate::pipeline::{
    Args, CliArgs, CliCurrency, CliCurrencySelection, CliMode, CliNetworkArgs, CliOfflineArgs,
    CliOperationMode, CliReceiver, CliSelectServer, CliSendFrom, CliSendTo, CliSender, CliServer,
    CliCustomServer, CliSignKeychain, CliSignLedger, CliSignManually, CliSignPrivateKey,
    CliSignTransaction, CliTopLevelCommand, CliTransfer, CliTransferNEARTokensAction,
    CurrencySelection, Mode, ModeChoice, PromptScript, Receiver, SelectServer, SendFrom, SendTo,
    Sender, SignTransaction, Submit, TopLevelCommand, Transfer, TransferNEARTokensAction,
    spec_amounts_of, spec_args_from, spec_choose_command, spec_empty_cli_server, spec_ids_of,
    spec_mode_choose, spec_mode_from, spec_mode_of, mode_send_from, spec_opt_url, spec_receiver_from,
    spec_select_server_choose, spec_select_server_from, spec_send_from_choose,
    spec_send_from_from, spec_send_to_from, spec_sender_from, spec_sign_transaction_from,
    spec_top_level_from, spec_transfer_action_from, spec_transfer_from,
};
use crate::stages::{
    account_accepts, amount_accepts, amount_ceiling, spec_resolve_account, spec_resolve_amount,
    spec_resolve_once, spec_scan_accounts, spec_scan_amounts,
};
use crate::submit::{
    spec_broadcast_step, spec_submission, BroadcastResponse, SubmissionOutcome,
};

verus! {

broadcast use vstd::string::group_string_axioms;

/// An account id whose lookup reports that it exists is accepted at once
/// by the sender and receiver stages alike, with no fallback to the
/// prompted answers.
pub proof fn lemma_existing_account_accepted(
    supplied: AccountId,
    answers: Option<Seq<AccountId>>,
    has_endpoint: bool,
    table: &LookupTable,
    hex_exempt: bool,
    stage: Stage,
)
    requires
        table.lookup_of(supplied@) matches LookupResult::Exists { .. },
    ensures
        spec_resolve_account(Some(supplied), answers, has_endpoint, table, hex_exempt, stage)
            == Ok::<AccountId, TransferError>(supplied),
{
}

/// A 64-character lowercase-hexadecimal id is accepted by the receiver
/// stage even when its lookup reports that no such account exists.
pub proof fn lemma_implicit_receiver_accepted(
    supplied: AccountId,
    answers: Option<Seq<AccountId>>,
    has_endpoint: bool,
    table: &LookupTable,
)
    requires
        is_implicit_account(supplied@),
        table.lookup_of(supplied@) is NotFound,
    ensures
        spec_resolve_account(Some(supplied), answers, has_endpoint, table, true, Stage::Receiver)
            == Ok::<AccountId, TransferError>(supplied),
{
}

/// An amount within the known balance is accepted at once; one above it
/// is rejected — a hard error non-interactively, the prompted answers
/// otherwise, with the balance as the advertised ceiling.
pub proof fn lemma_amount_ceiling(
    supplied: NearBalance,
    answers: Option<Seq<NearBalance>>,
    balance: u128,
)
    ensures
        supplied@ <= balance ==> spec_resolve_amount(
            Some(supplied),
            answers,
            true,
            LookupResult::Exists { balance },
            Stage::Amount,
        ) == Ok::<NearBalance, TransferError>(supplied),
        supplied@ > balance ==> spec_resolve_amount(
            Some(supplied),
            answers,
            true,
            LookupResult::Exists { balance },
            Stage::Amount,
        ) == (match answers {
            None => Err::<NearBalance, TransferError>(
                TransferError::InvalidInput { stage: Stage::Amount },
            ),
            Some(ans) => spec_scan_amounts(ans, Some(balance), Stage::Amount),
        }),
        amount_ceiling(true, LookupResult::Exists { balance }) == Some(balance),
{
}

/// Any number of timeouts followed by one success commits exactly once,
/// with one retry notice per timeout.
pub proof fn lemma_timeout_retry_commits(responses: Seq<BroadcastResponse>, k: int)
    requires
        0 <= k < responses.len(),
        forall|i: int| 0 <= i < k ==> spec_broadcast_step(#[trigger] responses[i]) is Retry,
        responses[k] matches BroadcastResponse::Success { outcome },
    ensures
        spec_submission(responses) == (
            Some(SubmissionOutcome::Committed { result: responses[k]->outcome }),
            k as nat,
        ),
    decreases k,
{
    if k == 0 {
    } else {
        assert(spec_broadcast_step(responses[0]) is Retry);
        lemma_timeout_retry_commits(responses.drop_first(), k - 1);
        assert(responses.drop_first()[k - 1] == responses[k]);
    }
}

// ---------------------------------------------------------------------
// Replay: a finished resolution, re-run non-interactively on its own
// resolved values, resolves to exactly the same values with no prompt
// consulted.
// ---------------------------------------------------------------------

/// The fully supplied command tree that echoes a resolved invocation.
pub open spec fn cli_of_sign(s: SignTransaction) -> CliSignTransaction {
    match s {
        SignTransaction::SignPrivateKey(p) => CliSignTransaction::SignPrivateKey(
            CliSignPrivateKey {
                signer_public_key: Some(p.signer_public_key),
                signer_private_key: Some(p.signer_private_key),
                nonce: Some(p.nonce),
                block_hash: Some(p.block_hash),
                submit: Some(p.submit),
            },
        ),
        SignTransaction::SignWithKeychain(k) => CliSignTransaction::SignWithKeychain(
            CliSignKeychain { submit: Some(k.submit) },
        ),
        SignTransaction::SignWithLedger(l) => CliSignTransaction::SignWithLedger(
            CliSignLedger {
                seed_phrase_hd_path: Some(l.seed_phrase_hd_path),
                submit: Some(l.submit),
            },
        ),
        SignTransaction::SignManually(m) => CliSignTransaction::SignManually(
            CliSignManually {
                signer_public_key: Some(m.signer_public_key),
                nonce: Some(m.nonce),
                block_hash: Some(m.block_hash),
            },
        ),
    }
}

/// See [`cli_of_sign`].
pub open spec fn cli_of_transfer(t: Transfer) -> CliTransfer {
    match t {
        Transfer::Amount(a) => CliTransfer::Amount(
            CliTransferNEARTokensAction {
                amount: Some(a.amount),
                sign_option: Some(cli_of_sign(a.sign_option)),
            },
        ),
    }
}

/// See [`cli_of_sign`].
pub open spec fn cli_of_send_to(st: SendTo) -> CliSendTo {
    match st {
        SendTo::Receiver(r) => CliSendTo::Receiver(
            CliReceiver {
                receiver_account_id: Some(r.receiver_account_id),
                transfer: Some(cli_of_transfer(r.transfer)),
            },
        ),
    }
}

/// See [`cli_of_sign`].
pub open spec fn cli_of_send_from(sf: SendFrom) -> CliSendFrom {
    match sf {
        SendFrom::Sender(s) => CliSendFrom::Sender(
            CliSender {
                sender_account_id: Some(s.sender_account_id),
                send_to: Some(cli_of_send_to(s.send_to)),
            },
        ),
    }
}

/// See [`cli_of_sign`].
pub open spec fn cli_of_select_server(ss: SelectServer) -> CliSelectServer {
    match ss {
        SelectServer::Testnet(s) => CliSelectServer::Testnet(
            CliServer { send_from: Some(cli_of_send_from(s.send_from)) },
        ),
        SelectServer::Mainnet(s) => CliSelectServer::Mainnet(
            CliServer { send_from: Some(cli_of_send_from(s.send_from)) },
        ),
        SelectServer::Betanet(s) => CliSelectServer::Betanet(
            CliServer { send_from: Some(cli_of_send_from(s.send_from)) },
        ),
        SelectServer::Custom(c) => CliSelectServer::Custom(
            CliCustomServer {
                url: Some(c.url),
                send_from: Some(cli_of_send_from(c.send_from)),
            },
        ),
    }
}

/// See [`cli_of_sign`].
pub open spec fn cli_of_mode(m: Mode) -> CliMode {
    match m {
        Mode::Network(n) => CliMode::Network(
            CliNetworkArgs { selected_server: Some(cli_of_select_server(n.selected_server)) },
        ),
        Mode::Offline(o) => CliMode::Offline(
            CliOfflineArgs { send_from: Some(cli_of_send_from(o.send_from)) },
        ),
    }
}

/// See [`cli_of_sign`].
pub open spec fn cli_of_args(a: Args) -> CliArgs {
    match a.top_level_command {
        TopLevelCommand::Transfer(c) => CliArgs {
            top_level_command: Some(
                CliTopLevelCommand::Transfer(
                    CliCurrency {
                        currency_selection: Some(
                            match c.currency_selection {
                                CurrencySelection::Near(om) => CliCurrencySelection::Near(
                                    CliOperationMode { mode: Some(cli_of_mode(om.mode)) },
                                ),
                            },
                        ),
                    },
                ),
            ),
        },
    }
}

/// An account accepted by a scan passed its stage's own test.
proof fn lemma_scan_accounts_ok(
    cands: Seq<AccountId>,
    has_endpoint: bool,
    table: &LookupTable,
    hex_exempt: bool,
    stage: Stage,
    id: AccountId,
)
    requires
        spec_scan_accounts(cands, has_endpoint, table, hex_exempt, stage) == Ok::<
            AccountId,
            TransferError,
        >(id),
    ensures
        account_accepts(hex_exempt, has_endpoint, id@, table.lookup_of(id@)),
        !(has_endpoint && table.lookup_of(id@) is TransportFailure),
    decreases cands.len(),
{
    if cands.len() > 0 {
        if has_endpoint && table.lookup_of(cands[0]@) is TransportFailure {
        } else if account_accepts(hex_exempt, has_endpoint, cands[0]@, table.lookup_of(cands[0]@)) {
        } else {
            lemma_scan_accounts_ok(cands.drop_first(), has_endpoint, table, hex_exempt, stage, id);
        }
    }
}

/// An account stage's accepted value passed its own test, so replaying it
/// as the supplied value is accepted at once.
proof fn lemma_resolve_account_ok(
    supplied: Option<AccountId>,
    answers: Option<Seq<AccountId>>,
    has_endpoint: bool,
    table: &LookupTable,
    hex_exempt: bool,
    stage: Stage,
    id: AccountId,
)
    requires
        spec_resolve_account(supplied, answers, has_endpoint, table, hex_exempt, stage) == Ok::<
            AccountId,
            TransferError,
        >(id),
    ensures
        spec_resolve_account(Some(id), None, has_endpoint, table, hex_exempt, stage) == Ok::<
            AccountId,
            TransferError,
        >(id),
{
    match supplied {
        Some(s) => {
            if !(has_endpoint && table.lookup_of(s@) is TransportFailure) && !account_accepts(
                hex_exempt,
                has_endpoint,
                s@,
                table.lookup_of(s@),
            ) {
                match answers {
                    Some(ans) => lemma_scan_accounts_ok(
                        ans,
                        has_endpoint,
                        table,
                        hex_exempt,
                        stage,
                        id,
                    ),
                    None => {},
                }
            }
        },
        None => match answers {
            Some(ans) => lemma_scan_accounts_ok(ans, has_endpoint, table, hex_exempt, stage, id),
            None => {},
        },
    }
}

/// An amount accepted by a scan was within the ceiling.
proof fn lemma_scan_amounts_ok(
    cands: Seq<NearBalance>,
    ceiling: Option<u128>,
    stage: Stage,
    v: NearBalance,
)
    requires
        spec_scan_amounts(cands, ceiling, stage) == Ok::<NearBalance, TransferError>(v),
    ensures
        amount_accepts(ceiling, v@),
    decreases cands.len(),
{
    if cands.len() > 0 {
        if amount_accepts(ceiling, cands[0]@) {
        } else {
            lemma_scan_amounts_ok(cands.drop_first(), ceiling, stage, v);
        }
    }
}

/// The amount stage's accepted value replays.
proof fn lemma_resolve_amount_ok(
    supplied: Option<NearBalance>,
    answers: Option<Seq<NearBalance>>,
    has_endpoint: bool,
    sender_outcome: LookupResult,
    stage: Stage,
    v: NearBalance,
)
    requires
        spec_resolve_amount(supplied, answers, has_endpoint, sender_outcome, stage) == Ok::<
            NearBalance,
            TransferError,
        >(v),
    ensures
        spec_resolve_amount(Some(v), None, has_endpoint, sender_outcome, stage) == Ok::<
            NearBalance,
            TransferError,
        >(v),
{
    let ceiling = amount_ceiling(has_endpoint, sender_outcome);
    match supplied {
        Some(s) => {
            if !amount_accepts(ceiling, s@) {
                match answers {
                    Some(ans) => lemma_scan_amounts_ok(ans, ceiling, stage, v),
                    None => {},
                }
            }
        },
        None => match answers {
            Some(ans) => lemma_scan_amounts_ok(ans, ceiling, stage, v),
            None => {},
        },
    }
}

/// A fully supplied sign-option subtree resolves to itself with no script.
proof fn lemma_replay_sign(s: SignTransaction, has_endpoint: bool)
    ensures
        spec_sign_transaction_from(cli_of_sign(s), has_endpoint, None) == Ok::<
            SignTransaction,
            TransferError,
        >(s),
{
}

/// A finished amount stage replays.
proof fn lemma_replay_transfer_action(
    item: CliTransferNEARTokensAction,
    cfg: Option<ConnectionConfig>,
    sender: AccountId,
    script: Option<&PromptScript>,
    table: &LookupTable,
    t: TransferNEARTokensAction,
)
    requires
        spec_transfer_action_from(item, cfg, sender, script, table) == Ok::<
            TransferNEARTokensAction,
            TransferError,
        >(t),
    ensures
        spec_transfer_action_from(
            CliTransferNEARTokensAction {
                amount: Some(t.amount),
                sign_option: Some(cli_of_sign(t.sign_option)),
            },
            cfg,
            sender,
            None,
            table,
        ) == Ok::<TransferNEARTokensAction, TransferError>(t),
{
    let outcome = table.lookup_of(sender@);
    match spec_resolve_amount(item.amount, spec_amounts_of(script), cfg is Some, outcome, Stage::Amount) {
        Ok(v) => {
            lemma_resolve_amount_ok(
                item.amount,
                spec_amounts_of(script),
                cfg is Some,
                outcome,
                Stage::Amount,
                v,
            );
            lemma_replay_sign(t.sign_option, cfg is Some);
        },
        Err(_) => {},
    }
}

/// A finished transfer subtree replays.
proof fn lemma_replay_transfer(
    item: CliTransfer,
    cfg: Option<ConnectionConfig>,
    sender: AccountId,
    script: Option<&PromptScript>,
    table: &LookupTable,
    t: Transfer,
)
    requires
        spec_transfer_from(item, cfg, sender, script, table) == Ok::<Transfer, TransferError>(t),
    ensures
        spec_transfer_from(cli_of_transfer(t), cfg, sender, None, table) == Ok::<
            Transfer,
            TransferError,
        >(t),
{
    match item {
        CliTransfer::Amount(c) => {
            match spec_transfer_action_from(c, cfg, sender, script, table) {
                Ok(a) => lemma_replay_transfer_action(c, cfg, sender, script, table, a),
                Err(_) => {},
            }
        },
    }
}

/// A finished receiver stage replays.
proof fn lemma_replay_receiver(
    item: CliReceiver,
    cfg: Option<ConnectionConfig>,
    sender: AccountId,
    script: Option<&PromptScript>,
    table: &LookupTable,
    r: Receiver,
)
    requires
        spec_receiver_from(item, cfg, sender, script, table) == Ok::<Receiver, TransferError>(r),
    ensures
        spec_receiver_from(
            CliReceiver {
                receiver_account_id: Some(r.receiver_account_id),
                transfer: Some(cli_of_transfer(r.transfer)),
            },
            cfg,
            sender,
            None,
            table,
        ) == Ok::<Receiver, TransferError>(r),
{
    match spec_resolve_account(
        item.receiver_account_id,
        spec_ids_of(script, true),
        cfg is Some,
        table,
        true,
        Stage::Receiver,
    ) {
        Ok(id) => {
            lemma_resolve_account_ok(
                item.receiver_account_id,
                spec_ids_of(script, true),
                cfg is Some,
                table,
                true,
                Stage::Receiver,
                id,
            );
            match item.transfer {
                Some(tc) => {
                    match spec_transfer_from(tc, cfg, sender, script, table) {
                        Ok(t) => lemma_replay_transfer(tc, cfg, sender, script, table, t),
                        Err(_) => {},
                    }
                },
                None => {
                    let tc = CliTransfer::Amount(
                        CliTransferNEARTokensAction { amount: None, sign_option: None },
                    );
                    match spec_transfer_from(tc, cfg, sender, script, table) {
                        Ok(t) => lemma_replay_transfer(tc, cfg, sender, script, table, t),
                        Err(_) => {},
                    }
                },
            }
        },
        Err(_) => {},
    }
}

/// A finished send-to subtree replays.
proof fn lemma_replay_send_to(
    item: CliSendTo,
    cfg: Option<ConnectionConfig>,
    sender: AccountId,
    script: Option<&PromptScript>,
    table: &LookupTable,
    st: SendTo,
)
    requires
        spec_send_to_from(item, cfg, sender, script, table) == Ok::<SendTo, TransferError>(st),
    ensures
        spec_send_to_from(cli_of_send_to(st), cfg, sender, None, table) == Ok::<
            SendTo,
            TransferError,
        >(st),
{
    match item {
        CliSendTo::Receiver(c) => {
            match spec_receiver_from(c, cfg, sender, script, table) {
                Ok(r) => lemma_replay_receiver(c, cfg, sender, script, table, r),
                Err(_) => {},
            }
        },
    }
}

/// A finished sender stage replays.
proof fn lemma_replay_sender(
    item: CliSender,
    cfg: Option<ConnectionConfig>,
    script: Option<&PromptScript>,
    table: &LookupTable,
    s: Sender,
)
    requires
        spec_sender_from(item, cfg, script, table) == Ok::<Sender, TransferError>(s),
    ensures
        spec_sender_from(
            CliSender {
                sender_account_id: Some(s.sender_account_id),
                send_to: Some(cli_of_send_to(s.send_to)),
            },
            cfg,
            None,
            table,
        ) == Ok::<Sender, TransferError>(s),
{
    match spec_resolve_account(
        item.sender_account_id,
        spec_ids_of(script, false),
        cfg is Some,
        table,
        false,
        Stage::Sender,
    ) {
        Ok(id) => {
            lemma_resolve_account_ok(
                item.sender_account_id,
                spec_ids_of(script, false),
                cfg is Some,
                table,
                false,
                Stage::Sender,
                id,
            );
            match item.send_to {
                Some(stc) => {
                    match spec_send_to_from(stc, cfg, id, script, table) {
                        Ok(st) => lemma_replay_send_to(stc, cfg, id, script, table, st),
                        Err(_) => {},
                    }
                },
                None => {
                    let stc = CliSendTo::Receiver(
                        CliReceiver { receiver_account_id: None, transfer: None },
                    );
                    match spec_send_to_from(stc, cfg, id, script, table) {
                        Ok(st) => lemma_replay_send_to(stc, cfg, id, script, table, st),
                        Err(_) => {},
                    }
                },
            }
        },
        Err(_) => {},
    }
}

/// A finished send-from subtree replays.
proof fn lemma_replay_send_from(
    item: CliSendFrom,
    cfg: Option<ConnectionConfig>,
    script: Option<&PromptScript>,
    table: &LookupTable,
    sf: SendFrom,
)
    requires
        spec_send_from_from(item, cfg, script, table) == Ok::<SendFrom, TransferError>(sf),
    ensures
        spec_send_from_from(cli_of_send_from(sf), cfg, None, table) == Ok::<
            SendFrom,
            TransferError,
        >(sf),
{
    match item {
        CliSendFrom::Sender(c) => {
            match spec_sender_from(c, cfg, script, table) {
                Ok(s) => lemma_replay_sender(c, cfg, script, table, s),
                Err(_) => {},
            }
        },
    }
}

/// A finished server selection replays.
proof fn lemma_replay_select_server(
    item: CliSelectServer,
    script: Option<&PromptScript>,
    table: &LookupTable,
    ss: SelectServer,
)
    requires
        spec_select_server_from(item, script, table) == Ok::<SelectServer, TransferError>(ss),
    ensures
        spec_select_server_from(cli_of_select_server(ss), None, table) == Ok::<
            SelectServer,
            TransferError,
        >(ss),
{
    match item {
        CliSelectServer::Testnet(c) => {
            let cfg = ConnectionConfig::Testnet;
            let below = match c.send_from {
                Some(sf) => spec_send_from_from(sf, Some(cfg), script, table),
                None => spec_send_from_choose(Some(cfg), script, table),
            };
            match below {
                Ok(v) => {
                    match c.send_from {
                        Some(sf) => lemma_replay_send_from(sf, Some(cfg), script, table, v),
                        None => lemma_replay_send_from(
                            CliSendFrom::Sender(CliSender { sender_account_id: None, send_to: None }),
                            Some(cfg),
                            script,
                            table,
                            v,
                        ),
                    }
                },
                Err(_) => {},
            }
        },
        CliSelectServer::Mainnet(c) => {
            let cfg = ConnectionConfig::Mainnet;
            let below = match c.send_from {
                Some(sf) => spec_send_from_from(sf, Some(cfg), script, table),
                None => spec_send_from_choose(Some(cfg), script, table),
            };
            match below {
                Ok(v) => {
                    match c.send_from {
                        Some(sf) => lemma_replay_send_from(sf, Some(cfg), script, table, v),
                        None => lemma_replay_send_from(
                            CliSendFrom::Sender(CliSender { sender_account_id: None, send_to: None }),
                            Some(cfg),
                            script,
                            table,
                            v,
                        ),
                    }
                },
                Err(_) => {},
            }
        },
        CliSelectServer::Betanet(c) => {
            let cfg = ConnectionConfig::Betanet;
            let below = match c.send_from {
                Some(sf) => spec_send_from_from(sf, Some(cfg), script, table),
                None => spec_send_from_choose(Some(cfg), script, table),
            };
            match below {
                Ok(v) => {
                    match c.send_from {
                        Some(sf) => lemma_replay_send_from(sf, Some(cfg), script, table, v),
                        None => lemma_replay_send_from(
                            CliSendFrom::Sender(CliSender { sender_account_id: None, send_to: None }),
                            Some(cfg),
                            script,
                            table,
                            v,
                        ),
                    }
                },
                Err(_) => {},
            }
        },
        CliSelectServer::Custom(c) => {
            match spec_resolve_once(c.url, spec_opt_url(script), Stage::ServerUrl) {
                Ok(url) => {
                    let cfg = ConnectionConfig::Custom { url };
                    let below = match c.send_from {
                        Some(sf) => spec_send_from_from(sf, Some(cfg), script, table),
                        None => spec_send_from_choose(Some(cfg), script, table),
                    };
                    match below {
                        Ok(v) => {
                            match c.send_from {
                                Some(sf) => lemma_replay_send_from(sf, Some(cfg), script, table, v),
                                None => lemma_replay_send_from(
                                    CliSendFrom::Sender(
                                        CliSender { sender_account_id: None, send_to: None },
                                    ),
                                    Some(cfg),
                                    script,
                                    table,
                                    v,
                                ),
                            }
                        },
                        Err(_) => {},
                    }
                },
                Err(_) => {},
            }
        },
    }
}

/// A finished mode replays.
proof fn lemma_replay_mode(
    item: CliMode,
    script: Option<&PromptScript>,
    table: &LookupTable,
    m: Mode,
)
    requires
        spec_mode_from(item, script, table) == Ok::<Mode, TransferError>(m),
    ensures
        spec_mode_from(cli_of_mode(m), None, table) == Ok::<Mode, TransferError>(m),
{
    match item {
        CliMode::Network(c) => {
            let below = match c.selected_server {
                Some(s) => spec_select_server_from(s, script, table),
                None => spec_select_server_choose(script, table),
            };
            match below {
                Ok(ss) => {
                    match c.selected_server {
                        Some(s) => lemma_replay_select_server(s, script, table, ss),
                        None => {
                            match script {
                                Some(sc) => match sc.server_choice {
                                    Some(choice) => lemma_replay_select_server(
                                        spec_empty_cli_server(choice),
                                        script,
                                        table,
                                        ss,
                                    ),
                                    None => {},
                                },
                                None => {},
                            }
                        },
                    }
                },
                Err(_) => {},
            }
        },
        CliMode::Offline(c) => {
            let below = match c.send_from {
                Some(sf) => spec_send_from_from(sf, None, script, table),
                None => spec_send_from_choose(None, script, table),
            };
            match below {
                Ok(v) => {
                    match c.send_from {
                        Some(sf) => lemma_replay_send_from(sf, None, script, table, v),
                        None => lemma_replay_send_from(
                            CliSendFrom::Sender(CliSender { sender_account_id: None, send_to: None }),
                            None,
                            script,
                            table,
                            v,
                        ),
                    }
                },
                Err(_) => {},
            }
        },
    }
}

/// Replay: a resolution that finished, re-run non-interactively on the
/// command tree of its own resolved values, resolves to exactly the same
/// values — no prompt is consulted, and no stage decides differently.
pub proof fn lemma_replay_args(
    cli: CliArgs,
    script: Option<&PromptScript>,
    table: &LookupTable,
    args: Args,
)
    requires
        spec_args_from(cli, script, table) == Ok::<Args, TransferError>(args),
    ensures
        spec_args_from(cli_of_args(args), None, table) == Ok::<Args, TransferError>(args),
{
    let below = match cli.top_level_command {
        Some(c) => spec_top_level_from(c, script, table),
        None => spec_choose_command(script, table),
    };
    match below {
        Ok(TopLevelCommand::Transfer(cur)) => {
            match cur.currency_selection {
                CurrencySelection::Near(om) => {
                    let item_cur: CliCurrency = match cli.top_level_command {
                        Some(CliTopLevelCommand::Transfer(c)) => c,
                        None => CliCurrency { currency_selection: None },
                    };
                    let item_om: CliOperationMode = match item_cur.currency_selection {
                        Some(CliCurrencySelection::Near(c)) => c,
                        None => CliOperationMode { mode: None },
                    };
                    let mode_below = match item_om.mode {
                        Some(mc) => spec_mode_from(mc, script, table),
                        None => spec_mode_choose(script, table),
                    };
                    match mode_below {
                        Ok(m) => {
                            match item_om.mode {
                                Some(mc) => lemma_replay_mode(mc, script, table, m),
                                None => {
                                    match script {
                                        Some(sc) => match sc.mode_choice {
                                            Some(ModeChoice::Network) => lemma_replay_mode(
                                                CliMode::Network(
                                                    CliNetworkArgs { selected_server: None },
                                                ),
                                                script,
                                                table,
                                                m,
                                            ),
                                            Some(ModeChoice::Offline) => lemma_replay_mode(
                                                CliMode::Offline(CliOfflineArgs { send_from: None }),
                                                script,
                                                table,
                                                m,
                                            ),
                                            None => {},
                                        },
                                        None => {},
                                    }
                                },
                            }
                        },
                        Err(_) => {},
                    }
                },
            }
        },
        Err(_) => {},
    }
}


// ---------------------------------------------------------------------
// Replay through the echoed command line: a tree read back from the echo
// tokens resolves, non-interactively, to the same values at every stage.
// ---------------------------------------------------------------------

/// Two resolved signing strategies carry the same values.
pub open spec fn sign_views_agree(a: SignTransaction, b: SignTransaction) -> bool {
    match (a, b) {
        (SignTransaction::SignPrivateKey(p1), SignTransaction::SignPrivateKey(p2)) => {
            &&& p1.signer_public_key@ == p2.signer_public_key@
            &&& p1.signer_private_key@ == p2.signer_private_key@
            &&& p1.nonce == p2.nonce
            &&& p1.block_hash@ == p2.block_hash@
            &&& p1.submit == p2.submit
        },
        (SignTransaction::SignWithKeychain(k1), SignTransaction::SignWithKeychain(k2)) => {
            k1.submit == k2.submit
        },
        (SignTransaction::SignWithLedger(l1), SignTransaction::SignWithLedger(l2)) => {
            l1.seed_phrase_hd_path@ == l2.seed_phrase_hd_path@ && l1.submit == l2.submit
        },
        (SignTransaction::SignManually(m1), SignTransaction::SignManually(m2)) => {
            &&& m1.signer_public_key@ == m2.signer_public_key@
            &&& m1.nonce == m2.nonce
            &&& m1.block_hash@ == m2.block_hash@
        },
        _ => false,
    }
}

/// Two resolved sender subtrees carry the same values.
pub open spec fn send_from_views_agree(a: SendFrom, b: SendFrom) -> bool {
    match (a, b) {
        (SendFrom::Sender(x), SendFrom::Sender(y)) => {
            &&& x.sender_account_id@ == y.sender_account_id@
            &&& (match (x.send_to, y.send_to) {
                (SendTo::Receiver(r1), SendTo::Receiver(r2)) => {
                    &&& r1.receiver_account_id@ == r2.receiver_account_id@
                    &&& (match (r1.transfer, r2.transfer) {
                        (Transfer::Amount(a1), Transfer::Amount(a2)) => {
                            a1.amount@ == a2.amount@ && sign_views_agree(
                                a1.sign_option,
                                a2.sign_option,
                            )
                        },
                    })
                },
            })
        },
    }
}

/// Two whole resolved invocations carry the same values at every stage.
pub open spec fn args_views_agree(a: &Args, b: &Args) -> bool {
    &&& (match (spec_mode_of(a), spec_mode_of(b)) {
        (Mode::Offline(_), Mode::Offline(_)) => true,
        (Mode::Network(n1), Mode::Network(n2)) => match (
            n1.selected_server,
            n2.selected_server,
        ) {
            (SelectServer::Testnet(_), SelectServer::Testnet(_)) => true,
            (SelectServer::Mainnet(_), SelectServer::Mainnet(_)) => true,
            (SelectServer::Betanet(_), SelectServer::Betanet(_)) => true,
            (SelectServer::Custom(c1), SelectServer::Custom(c2)) => c1.url@ == c2.url@,
            _ => false,
        },
        _ => false,
    })
    &&& send_from_views_agree(mode_send_from(&spec_mode_of(a)), mode_send_from(&spec_mode_of(b)))
}

/// A fully supplied sign-option subtree whose values read back as `s`'s.
pub open spec fn cli_echoes_sign(c: CliSignTransaction, s: SignTransaction) -> bool {
    match (c, s) {
        (CliSignTransaction::SignPrivateKey(cp), SignTransaction::SignPrivateKey(p)) => {
            &&& (cp.signer_public_key matches Some(pk) && pk@ == p.signer_public_key@)
            &&& (cp.signer_private_key matches Some(sk) && sk@ == p.signer_private_key@)
            &&& cp.nonce == Some(p.nonce)
            &&& (cp.block_hash matches Some(h) && h@ == p.block_hash@)
            &&& cp.submit == Some(p.submit)
        },
        (CliSignTransaction::SignWithKeychain(ck), SignTransaction::SignWithKeychain(k)) => {
            ck.submit == Some(k.submit)
        },
        (CliSignTransaction::SignWithLedger(cl), SignTransaction::SignWithLedger(l)) => {
            &&& (cl.seed_phrase_hd_path matches Some(p) && p@ == l.seed_phrase_hd_path@)
            &&& cl.submit == Some(l.submit)
        },
        (CliSignTransaction::SignManually(cm), SignTransaction::SignManually(m)) => {
            &&& (cm.signer_public_key matches Some(pk) && pk@ == m.signer_public_key@)
            &&& cm.nonce == Some(m.nonce)
            &&& (cm.block_hash matches Some(h) && h@ == m.block_hash@)
        },
        _ => false,
    }
}

/// A fully supplied sender subtree whose values read back as `v`'s.
pub open spec fn cli_echoes_send_from(c: CliSendFrom, v: SendFrom) -> bool {
    match (c, v) {
        (CliSendFrom::Sender(cs), SendFrom::Sender(s)) => {
            &&& (cs.sender_account_id matches Some(id) && id@ == s.sender_account_id@)
            &&& (match (cs.send_to, s.send_to) {
                (Some(CliSendTo::Receiver(cr)), SendTo::Receiver(r)) => {
                    &&& (cr.receiver_account_id matches Some(id) && id@
                        == r.receiver_account_id@)
                    &&& (match (cr.transfer, r.transfer) {
                        (Some(CliTransfer::Amount(ca)), Transfer::Amount(a)) => {
                            &&& (ca.amount matches Some(x) && x@ == a.amount@)
                            &&& (ca.sign_option matches Some(so) && cli_echoes_sign(
                                so,
                                a.sign_option,
                            ))
                        },
                        _ => false,
                    })
                },
                _ => false,
            })
        },
    }
}

/// An echoing sign-option subtree resolves with no script to the same
/// strategy and values.
proof fn lemma_sign_echo_resolves(c: CliSignTransaction, s: SignTransaction, has_endpoint: bool)
    requires
        cli_echoes_sign(c, s),
    ensures
        spec_sign_transaction_from(c, has_endpoint, None) matches Ok(s2) && sign_views_agree(s2, s),
{
}

/// An echoing sender subtree resolves, with no script, under any endpoint
/// presence equal to the finished run's, to the same values.
proof fn lemma_tail_echo_resolves(
    c: CliSendFrom,
    v: SendFrom,
    cfg1: Option<ConnectionConfig>,
    cfg2: Option<ConnectionConfig>,
    table: &LookupTable,
)
    requires
        cli_echoes_send_from(c, v),
        cfg1 is Some <==> cfg2 is Some,
        spec_send_from_from(cli_of_send_from(v), cfg1, None, table) == Ok::<
            SendFrom,
            TransferError,
        >(v),
    ensures
        spec_send_from_from(c, cfg2, None, table) matches Ok(v2) && send_from_views_agree(v2, v),
{
    let SendFrom::Sender(s) = v;
    let CliSendFrom::Sender(cs) = c;
    let SendTo::Receiver(r) = s.send_to;
    let Transfer::Amount(a) = r.transfer;
    // the finished run's sender passed its own test, at its view
    assert(spec_resolve_account(
        Some(s.sender_account_id),
        None,
        cfg1 is Some,
        table,
        false,
        Stage::Sender,
    ) == Ok::<AccountId, TransferError>(s.sender_account_id));
    let id2 = cs.sender_account_id->0;
    assert(id2@ == s.sender_account_id@);
    assert(spec_resolve_account(Some(id2), None, cfg2 is Some, table, false, Stage::Sender)
        == Ok::<AccountId, TransferError>(id2));
    // the receiver likewise
    let cr = match cs.send_to {
        Some(CliSendTo::Receiver(cr)) => cr,
        _ => arbitrary(),
    };
    let rid2 = cr.receiver_account_id->0;
    assert(spec_resolve_account(
        Some(r.receiver_account_id),
        None,
        cfg1 is Some,
        table,
        true,
        Stage::Receiver,
    ) == Ok::<AccountId, TransferError>(r.receiver_account_id));
    assert(spec_resolve_account(Some(rid2), None, cfg2 is Some, table, true, Stage::Receiver)
        == Ok::<AccountId, TransferError>(rid2));
    // the amount's ceiling depends on the sender's view alone
    let ca = match cr.transfer {
        Some(CliTransfer::Amount(ca)) => ca,
        _ => arbitrary(),
    };
    let x2 = ca.amount->0;
    assert(spec_resolve_amount(
        Some(a.amount),
        None,
        cfg1 is Some,
        table.lookup_of(s.sender_account_id@),
        Stage::Amount,
    ) == Ok::<NearBalance, TransferError>(a.amount));
    assert(spec_resolve_amount(
        Some(x2),
        None,
        cfg2 is Some,
        table.lookup_of(id2@),
        Stage::Amount,
    ) == Ok::<NearBalance, TransferError>(x2));
    lemma_sign_echo_resolves(ca.sign_option->0, a.sign_option, cfg2 is Some);
}


/// A sign-option subtree that matches a strategy's own echo tokens reads
/// back that strategy's values.
proof fn lemma_sign_matches_echoes(so2: CliSignTransaction, s: SignTransaction)
    requires
        crate::echo::sign_matches_tokens(so2, crate::echo::spec_encode_sign(&s)),
    ensures
        cli_echoes_sign(so2, s),
{
    reveal_strlit("sign-private-key");
    reveal_strlit("sign-with-keychain");
    reveal_strlit("sign-with-ledger");
    reveal_strlit("sign-manually");
    reveal_strlit("send");
    reveal_strlit("display");
    let g = crate::echo::spec_encode_sign(&s);
    match s {
        SignTransaction::SignPrivateKey(p) => {
            assert(g[0] == "sign-private-key"@);
            assert(g.len() == 6);
            crate::amount::lemma_dec_str_props(p.nonce as nat);
            match so2 {
                CliSignTransaction::SignPrivateKey(cp) => {
                    assert(g[5] == crate::echo::spec_encode_submit(p.submit)[0]);
                    match p.submit {
                        Submit::Send => {
                            assert(crate::echo::submit_of_tok(g[5]) == Submit::Send);
                        },
                        Submit::Display => {
                            assert(g[5] == "display"@);
                            assert("display"@.len() == 7 && "send"@.len() == 4);
                        },
                    }
                },
                _ => {
                    assert(false);
                },
            }
        },
        SignTransaction::SignWithKeychain(k) => {
            assert(g[0] == "sign-with-keychain"@);
            match so2 {
                CliSignTransaction::SignWithKeychain(_) => {
                    match k.submit {
                        Submit::Send => {},
                        Submit::Display => {
                            assert(g[1] == "display"@);
                            assert("display"@.len() == 7 && "send"@.len() == 4);
                        },
                    }
                },
                _ => {
                    assert(false);
                },
            }
        },
        SignTransaction::SignWithLedger(l) => {
            assert(g[0] == "sign-with-ledger"@);
            match so2 {
                CliSignTransaction::SignWithLedger(_) => {
                    match l.submit {
                        Submit::Send => {},
                        Submit::Display => {
                            assert(g[2] == "display"@);
                            assert("display"@.len() == 7 && "send"@.len() == 4);
                        },
                    }
                },
                _ => {
                    assert(false);
                },
            }
        },
        SignTransaction::SignManually(m) => {
            assert(g[0] == "sign-manually"@);
            crate::amount::lemma_dec_str_props(m.nonce as nat);
            match so2 {
                CliSignTransaction::SignManually(_) => {},
                _ => {
                    assert(false);
                },
            }
        },
    }
}

/// A sender subtree that matches a finished run's echo tokens reads back
/// that run's values.
proof fn lemma_send_from_matches_echoes(sf2: CliSendFrom, v: SendFrom, tl: Seq<Seq<char>>)
    requires
        tl == seq![
            "sender"@,
            crate::pipeline::sf_sender(&v)@,
            "receiver"@,
            crate::pipeline::sf_receiver(&v)@,
            "amount"@,
            crate::amount::spec_format_amount(crate::pipeline::sf_deposit(&v)),
        ] + crate::echo::spec_encode_sign(&crate::pipeline::sf_sign(&v)),
        crate::echo::send_from_matches_tokens(sf2, tl),
    ensures
        cli_echoes_send_from(sf2, v),
{
    let SendFrom::Sender(s) = v;
    let SendTo::Receiver(r) = s.send_to;
    let Transfer::Amount(a) = r.transfer;
    let CliSendFrom::Sender(cs) = sf2;
    assert(tl[1] == s.sender_account_id@);
    assert(tl[3] == r.receiver_account_id@);
    assert(tl[5] == crate::amount::spec_format_amount(a.amount@ as u128));
    crate::amount::lemma_balance_view_range(&a.amount);
    crate::amount::lemma_amount_round_trip(a.amount@ as u128);
    let ca = match cs.send_to {
        Some(CliSendTo::Receiver(cr)) => match cr.transfer {
            Some(CliTransfer::Amount(ca)) => ca,
            _ => arbitrary(),
        },
        _ => arbitrary(),
    };
    let x = ca.amount->0;
    crate::amount::lemma_balance_view_range(&x);
    assert(x@ as u128 == a.amount@ as u128);
    assert(x@ == a.amount@);
    assert(tl.skip(6) =~= crate::echo::spec_encode_sign(&a.sign_option));
    lemma_sign_matches_echoes(ca.sign_option->0, a.sign_option);
}


/// The echo tokens of the run, from the sender stage on.
pub open spec fn sf_tokens_of(v: SendFrom) -> Seq<Seq<char>> {
    seq![
        "sender"@,
        crate::pipeline::sf_sender(&v)@,
        "receiver"@,
        crate::pipeline::sf_receiver(&v)@,
        "amount"@,
        crate::amount::spec_format_amount(crate::pipeline::sf_deposit(&v)),
    ] + crate::echo::spec_encode_sign(&crate::pipeline::sf_sign(&v))
}

/// Replay through the echoed tokens, from the sender stage down: a
/// command tree that matches a finished run's echo tokens — what the
/// decoder returns on them — resolves non-interactively to the same
/// sender, receiver, amount and signing strategy.
pub proof fn lemma_echo_tail_round_trip(
    sf2: CliSendFrom,
    v: SendFrom,
    cfg1: Option<ConnectionConfig>,
    cfg2: Option<ConnectionConfig>,
    table: &LookupTable,
)
    requires
        crate::echo::send_from_matches_tokens(sf2, sf_tokens_of(v)),
        cfg1 is Some <==> cfg2 is Some,
        spec_send_from_from(cli_of_send_from(v), cfg1, None, table) == Ok::<
            SendFrom,
            TransferError,
        >(v),
    ensures
        spec_send_from_from(sf2, cfg2, None, table) matches Ok(v2) && send_from_views_agree(v2, v),
{
    lemma_send_from_matches_echoes(sf2, v, sf_tokens_of(v));
    lemma_tail_echo_resolves(sf2, v, cfg1, cfg2, table);
}


/// The shape of a run's echo tokens: the fixed head naming the mode and
/// server, then the sender-stage tail.
proof fn lemma_encode_shape(args: &Args)
    ensures
        ({
            let tv = crate::echo::spec_encode_args(args);
            let m = spec_mode_of(args);
            let v = mode_send_from(&m);
            &&& tv.len() >= 3
            &&& tv[0] == "transfer"@
            &&& tv[1] == "near"@
            &&& (match m {
                Mode::Offline(_) => tv[2] == "offline"@ && tv.skip(3) == sf_tokens_of(v),
                Mode::Network(n) => tv[2] == "network"@ && (match n.selected_server {
                    SelectServer::Testnet(_) => tv[3] == "testnet"@ && tv.skip(4) == sf_tokens_of(
                        v,
                    ),
                    SelectServer::Mainnet(_) => tv[3] == "mainnet"@ && tv.skip(4) == sf_tokens_of(
                        v,
                    ),
                    SelectServer::Betanet(_) => tv[3] == "betanet"@ && tv.skip(4) == sf_tokens_of(
                        v,
                    ),
                    SelectServer::Custom(c) => tv[3] == "custom"@ && tv[4] == c.url@ && tv.skip(5)
                        == sf_tokens_of(v),
                }),
            })
        }),
{
    reveal(crate::echo::spec_encode_args);
    let tv = crate::echo::spec_encode_args(args);
    let m = spec_mode_of(args);
    let v = mode_send_from(&m);
    match m {
        Mode::Offline(_) => {
            assert(tv.skip(3) =~= sf_tokens_of(v));
        },
        Mode::Network(n) => {
            match n.selected_server {
                SelectServer::Testnet(_) => {
                    assert(tv.skip(4) =~= sf_tokens_of(v));
                },
                SelectServer::Mainnet(_) => {
                    assert(tv.skip(4) =~= sf_tokens_of(v));
                },
                SelectServer::Betanet(_) => {
                    assert(tv.skip(4) =~= sf_tokens_of(v));
                },
                SelectServer::Custom(_) => {
                    assert(tv.skip(5) =~= sf_tokens_of(v));
                },
            }
        },
    }
}

/// The mode and server words of the echo language are pairwise distinct.
proof fn lemma_echo_words_differ()
    ensures
        "offline"@ != "network"@,
        "testnet"@ != "mainnet"@,
        "testnet"@ != "betanet"@,
        "testnet"@ != "custom"@,
        "mainnet"@ != "betanet"@,
        "mainnet"@ != "custom"@,
        "betanet"@ != "custom"@,
{
    reveal_strlit("offline");
    reveal_strlit("network");
    reveal_strlit("testnet");
    reveal_strlit("mainnet");
    reveal_strlit("betanet");
    reveal_strlit("custom");
    assert("offline"@[0] == 'o');
    assert("network"@[0] == 'n');
    assert("testnet"@[0] == 't');
    assert("mainnet"@[0] == 'm');
    assert("betanet"@[0] == 'b');
    assert("custom"@.len() == 6);
    assert("testnet"@.len() == 7);
    assert("mainnet"@.len() == 7);
    assert("betanet"@.len() == 7);
}

/// Replay through the echo: a command tree that matches the echoed tokens
/// of a finished run — what the decoder returns on them — resolves
/// non-interactively to the same values at every stage.
#[verifier::rlimit(100)]
pub proof fn lemma_echo_round_trip(args: &Args, cli2: CliArgs, table: &LookupTable)
    requires
        spec_args_from(cli_of_args(*args), None, table) == Ok::<Args, TransferError>(*args),
        crate::echo::cli_matches_tokens(&cli2, crate::echo::spec_encode_args(args)),
    ensures
        spec_args_from(cli2, None, table) matches Ok(args2) && args_views_agree(&args2, args),
{
    lemma_echo_words_differ();
    lemma_encode_shape(args);
    let tv = crate::echo::spec_encode_args(args);
    let m = spec_mode_of(args);
    let v = mode_send_from(&m);
    match cli2.top_level_command {
        Some(
            CliTopLevelCommand::Transfer(
                CliCurrency {
                    currency_selection: Some(
                        CliCurrencySelection::Near(CliOperationMode { mode: Some(mm) }),
                    ),
                },
            ),
        ) => match mm {
        CliMode::Offline(CliOfflineArgs { send_from: Some(sf2) }) => {
            assert(m is Offline);
            lemma_send_from_matches_echoes(sf2, v, tv.skip(3));
            lemma_tail_echo_resolves(sf2, v, None, None, table);
        },
        CliMode::Network(CliNetworkArgs { selected_server: Some(ss2) }) => {
            assert(m is Network);
            let n = match m {
                Mode::Network(n) => n,
                _ => arbitrary(),
            };
            match ss2 {
                CliSelectServer::Testnet(CliServer { send_from: Some(sf2) }) => {
                    assert(n.selected_server is Testnet);
                    lemma_send_from_matches_echoes(sf2, v, tv.skip(4));
                    lemma_tail_echo_resolves(
                        sf2,
                        v,
                        Some(ConnectionConfig::Testnet),
                        Some(ConnectionConfig::Testnet),
                        table,
                    );
                },
                CliSelectServer::Mainnet(CliServer { send_from: Some(sf2) }) => {
                    assert(n.selected_server is Mainnet);
                    lemma_send_from_matches_echoes(sf2, v, tv.skip(4));
                    lemma_tail_echo_resolves(
                        sf2,
                        v,
                        Some(ConnectionConfig::Mainnet),
                        Some(ConnectionConfig::Mainnet),
                        table,
                    );
                },
                CliSelectServer::Betanet(CliServer { send_from: Some(sf2) }) => {
                    assert(n.selected_server is Betanet);
                    lemma_send_from_matches_echoes(sf2, v, tv.skip(4));
                    lemma_tail_echo_resolves(
                        sf2,
                        v,
                        Some(ConnectionConfig::Betanet),
                        Some(ConnectionConfig::Betanet),
                        table,
                    );
                },
                CliSelectServer::Custom(cc) => {
                    assert(n.selected_server is Custom);
                    let c = match n.selected_server {
                        SelectServer::Custom(c) => c,
                        _ => arbitrary(),
                    };
                    let sf2 = cc.send_from->0;
                    let url2 = cc.url->0;
                    assert(url2@ == c.url@);
                    lemma_send_from_matches_echoes(sf2, v, tv.skip(5));
                    lemma_tail_echo_resolves(
                        sf2,
                        v,
                        Some(ConnectionConfig::Custom { url: c.url }),
                        Some(ConnectionConfig::Custom { url: url2 }),
                        table,
                    );
                },
                _ => {
                    assert(false);
                },
            }
        },
            _ => {
                assert(false);
            },
        },
        _ => {
            assert(false);
        },
    }
}

} // verus!

//! The staged composer: the command tree as supplied (the `Cli` types,
//! every field optional), the fully resolved tree, and the `from`
//! functions that walk one into the other — accepting supplied values
//! that validate, falling back to the interactive script, and erring as
//! the non-interactive policy demands.  The `process` functions then fold
//! the resolved tree into the transaction skeleton.

use vstd::prelude::*;

use crate::account::AccountId;
use crate::amount::NearBalance;
use crate::endpoint::{AvailableRpcServerUrl, ConnectionConfig};
use crate::error::{Stage, TransferError};
use crate::lookup::{LookupResult, LookupTable};
use crate::skeleton::{TransactionSkeleton, TransferActionRecord};
use crate::stages::{
    resolve_account, resolve_amount, resolve_once, spec_resolve_account, spec_resolve_amount,
    spec_resolve_once,
};
use crate::types::{CryptoHash, PublicKey, SecretKey};

verus! {

/// The build context threaded through the stages.
#[derive(Debug)]
pub struct Context {
    pub connection_config: Option<ConnectionConfig>,
    pub sender_account_id: Option<AccountId>,
}

/// A menu pick at the operation-mode stage.
#[derive(Clone, Copy, Debug, PartialEq, Eq, Structural)]
pub enum ModeChoice {
    Network,
    Offline,
}

/// A menu pick at the server stage.
#[derive(Clone, Copy, Debug, PartialEq, Eq, Structural)]
pub enum ServerChoice {
    Testnet,
    Mainnet,
    Betanet,
    Custom,
}

/// A menu pick at the sign-option stage.
#[derive(Clone, Copy, Debug, PartialEq, Eq, Structural)]
pub enum SignChoice {
    PrivateKey,
    Keychain,
    Ledger,
    Manually,
}

/// The submission strategy.
#[derive(Clone, Copy, Debug, PartialEq, Eq, Structural)]
pub enum Submit {
    Send,
    Display,
}

/// What the operator would answer at each prompt of an interactive run.
/// The stages that re-prompt on rejection carry a list of successive
/// answers; the rest at most one.
#[derive(Debug)]
pub struct PromptScript {
    pub mode_choice: Option<ModeChoice>,
    pub server_choice: Option<ServerChoice>,
    pub custom_url: Option<AvailableRpcServerUrl>,
    pub sender_answers: Vec<AccountId>,
    pub receiver_answers: Vec<AccountId>,
    pub amount_answers: Vec<NearBalance>,
    pub sign_choice: Option<SignChoice>,
    pub signer_public_key: Option<PublicKey>,
    pub signer_private_key: Option<SecretKey>,
    pub nonce: Option<u64>,
    pub block_hash: Option<CryptoHash>,
    pub seed_phrase_hd_path: Option<String>,
    pub submit_choice: Option<Submit>,
}

// ---------------------------------------------------------------------
// The supplied (command-line) tree: every stage's value optional.
// ---------------------------------------------------------------------

#[derive(Debug)]
pub struct CliArgs {
    pub top_level_command: Option<CliTopLevelCommand>,
}

#[derive(Debug)]
pub enum CliTopLevelCommand {
    Transfer(CliCurrency),
}

#[derive(Debug)]
pub struct CliCurrency {
    pub currency_selection: Option<CliCurrencySelection>,
}

#[derive(Debug)]
pub enum CliCurrencySelection {
    Near(CliOperationMode),
}

#[derive(Debug)]
pub struct CliOperationMode {
    pub mode: Option<CliMode>,
}

#[derive(Debug)]
pub enum CliMode {
    Network(CliNetworkArgs),
    Offline(CliOfflineArgs),
}

#[derive(Debug)]
pub struct CliNetworkArgs {
    pub selected_server: Option<CliSelectServer>,
}

#[derive(Debug)]
pub enum CliSelectServer {
    Testnet(CliServer),
    Mainnet(CliServer),
    Betanet(CliServer),
    Custom(CliCustomServer),
}

#[derive(Debug)]
pub struct CliServer {
    pub send_from: Option<CliSendFrom>,
}

#[derive(Debug)]
pub struct CliCustomServer {
    pub url: Option<AvailableRpcServerUrl>,
    pub send_from: Option<CliSendFrom>,
}

#[derive(Debug)]
pub struct CliOfflineArgs {
    pub send_from: Option<CliSendFrom>,
}

#[derive(Debug)]
pub enum CliSendFrom {
    Sender(CliSender),
}

#[derive(Debug)]
pub struct CliSender {
    pub sender_account_id: Option<AccountId>,
    pub send_to: Option<CliSendTo>,
}

#[derive(Debug)]
pub enum CliSendTo {
    Receiver(CliReceiver),
}

#[derive(Debug)]
pub struct CliReceiver {
    pub receiver_account_id: Option<AccountId>,
    pub transfer: Option<CliTransfer>,
}

#[derive(Debug)]
pub enum CliTransfer {
    Amount(CliTransferNEARTokensAction),
}

#[derive(Debug)]
pub struct CliTransferNEARTokensAction {
    pub amount: Option<NearBalance>,
    pub sign_option: Option<CliSignTransaction>,
}

#[derive(Debug)]
pub enum CliSignTransaction {
    SignPrivateKey(CliSignPrivateKey),
    SignWithKeychain(CliSignKeychain),
    SignWithLedger(CliSignLedger),
    SignManually(CliSignManually),
}

#[derive(Debug)]
pub struct CliSignPrivateKey {
    pub signer_public_key: Option<PublicKey>,
    pub signer_private_key: Option<SecretKey>,
    pub nonce: Option<u64>,
    pub block_hash: Option<CryptoHash>,
    pub submit: Option<Submit>,
}

#[derive(Debug)]
pub struct CliSignKeychain {
    pub submit: Option<Submit>,
}

#[derive(Debug)]
pub struct CliSignLedger {
    pub seed_phrase_hd_path: Option<String>,
    pub submit: Option<Submit>,
}

#[derive(Debug)]
pub struct CliSignManually {
    pub signer_public_key: Option<PublicKey>,
    pub nonce: Option<u64>,
    pub block_hash: Option<CryptoHash>,
}

// ---------------------------------------------------------------------
// The resolved tree.
// ---------------------------------------------------------------------

#[derive(Debug)]
pub struct Args {
    pub top_level_command: TopLevelCommand,
}

#[derive(Debug)]
pub enum TopLevelCommand {
    Transfer(Currency),
}

#[derive(Debug)]
pub struct Currency {
    pub currency_selection: CurrencySelection,
}

#[derive(Debug)]
pub enum CurrencySelection {
    Near(OperationMode),
}

#[derive(Debug)]
pub struct OperationMode {
    pub mode: Mode,
}

#[derive(Debug)]
pub enum Mode {
    Network(NetworkArgs),
    Offline(OfflineArgs),
}

#[derive(Debug)]
pub struct NetworkArgs {
    pub selected_server: SelectServer,
}

#[derive(Debug)]
pub enum SelectServer {
    Testnet(Server),
    Mainnet(Server),
    Betanet(Server),
    Custom(CustomServer),
}

#[derive(Debug)]
pub struct Server {
    pub connection_config: Option<ConnectionConfig>,
    pub send_from: SendFrom,
}

#[derive(Debug)]
pub struct CustomServer {
    pub url: AvailableRpcServerUrl,
    pub send_from: SendFrom,
}

#[derive(Debug)]
pub struct OfflineArgs {
    pub send_from: SendFrom,
}

#[derive(Debug)]
pub enum SendFrom {
    Sender(Sender),
}

#[derive(Debug)]
pub struct Sender {
    pub sender_account_id: AccountId,
    pub send_to: SendTo,
}

#[derive(Debug)]
pub enum SendTo {
    Receiver(Receiver),
}

#[derive(Debug)]
pub struct Receiver {
    pub receiver_account_id: AccountId,
    pub transfer: Transfer,
}

#[derive(Debug)]
pub enum Transfer {
    Amount(TransferNEARTokensAction),
}

#[derive(Debug)]
pub struct TransferNEARTokensAction {
    pub amount: NearBalance,
    pub sign_option: SignTransaction,
}

#[derive(Debug)]
pub enum SignTransaction {
    SignPrivateKey(SignPrivateKey),
    SignWithKeychain(SignKeychain),
    SignWithLedger(SignLedger),
    SignManually(SignManually),
}

#[derive(Debug)]
pub struct SignPrivateKey {
    pub signer_public_key: PublicKey,
    pub signer_private_key: SecretKey,
    pub nonce: u64,
    pub block_hash: CryptoHash,
    pub submit: Submit,
}

#[derive(Debug)]
pub struct SignKeychain {
    pub submit: Submit,
}

#[derive(Debug)]
pub struct SignLedger {
    pub seed_phrase_hd_path: String,
    pub submit: Submit,
}

#[derive(Debug)]
pub struct SignManually {
    pub signer_public_key: PublicKey,
    pub nonce: u64,
    pub block_hash: CryptoHash,
}

// ---------------------------------------------------------------------
// Reading the script without consuming it.
// ---------------------------------------------------------------------

/// Copies a list of scripted account answers.
fn clone_ids(v: &Vec<AccountId>) -> (r: Vec<AccountId>)
    ensures
        r@ == v@,
{
    let mut out: Vec<AccountId> = Vec::new();
    let n = v.len();
    let mut i: usize = 0;
    while i < n
        invariant
            n == v@.len(),
            0 <= i <= n,
            out@ == v@.take(i as int),
        decreases n - i,
    {
        out.push(v[i].clone());
        proof {
            assert(v@.take(i + 1) =~= v@.take(i as int).push(v@[i as int]));
        }
        i = i + 1;
    }
    proof {
        assert(v@.take(n as int) =~= v@);
    }
    out
}

/// Copies a list of scripted amount answers.
fn clone_amounts(v: &Vec<NearBalance>) -> (r: Vec<NearBalance>)
    ensures
        r@ == v@,
{
    let mut out: Vec<NearBalance> = Vec::new();
    let n = v.len();
    let mut i: usize = 0;
    while i < n
        invariant
            n == v@.len(),
            0 <= i <= n,
            out@ == v@.take(i as int),
        decreases n - i,
    {
        out.push(v[i]);
        proof {
            assert(v@.take(i + 1) =~= v@.take(i as int).push(v@[i as int]));
        }
        i = i + 1;
    }
    proof {
        assert(v@.take(n as int) =~= v@);
    }
    out
}

/// The scripted sender answers, if running interactively.
fn script_sender_answers(script: Option<&PromptScript>) -> (r: Option<Vec<AccountId>>)
    ensures
        script is None ==> r is None,
        script matches Some(sc) ==> r matches Some(v) && v@ == sc.sender_answers@,
{
    match script {
        None => None,
        Some(sc) => Some(clone_ids(&sc.sender_answers)),
    }
}

/// The scripted receiver answers, if running interactively.
fn script_receiver_answers(script: Option<&PromptScript>) -> (r: Option<Vec<AccountId>>)
    ensures
        script is None ==> r is None,
        script matches Some(sc) ==> r matches Some(v) && v@ == sc.receiver_answers@,
{
    match script {
        None => None,
        Some(sc) => Some(clone_ids(&sc.receiver_answers)),
    }
}

/// The scripted amount answers, if running interactively.
fn script_amount_answers(script: Option<&PromptScript>) -> (r: Option<Vec<NearBalance>>)
    ensures
        script is None ==> r is None,
        script matches Some(sc) ==> r matches Some(v) && v@ == sc.amount_answers@,
{
    match script {
        None => None,
        Some(sc) => Some(clone_amounts(&sc.amount_answers)),
    }
}

/// The view of an optional answer list, for the resolution specs.
pub open spec fn spec_ids_of(script: Option<&PromptScript>, receiver: bool) -> Option<
    Seq<AccountId>,
> {
    match script {
        None => None,
        Some(sc) => Some(
            if receiver {
                sc.receiver_answers@
            } else {
                sc.sender_answers@
            },
        ),
    }
}

/// The view of the scripted amounts.
pub open spec fn spec_amounts_of(script: Option<&PromptScript>) -> Option<Seq<NearBalance>> {
    match script {
        None => None,
        Some(sc) => Some(sc.amount_answers@),
    }
}


/// The scripted single answers, viewed for the resolution specs.
pub open spec fn spec_opt_pk(script: Option<&PromptScript>) -> Option<Option<PublicKey>> {
    match script {
        None => None,
        Some(sc) => Some(sc.signer_public_key),
    }
}

/// See [`spec_opt_pk`].
pub open spec fn spec_opt_sk(script: Option<&PromptScript>) -> Option<Option<SecretKey>> {
    match script {
        None => None,
        Some(sc) => Some(sc.signer_private_key),
    }
}

/// See [`spec_opt_pk`].
pub open spec fn spec_opt_nonce(script: Option<&PromptScript>) -> Option<Option<u64>> {
    match script {
        None => None,
        Some(sc) => Some(sc.nonce),
    }
}

/// See [`spec_opt_pk`].
pub open spec fn spec_opt_hash(script: Option<&PromptScript>) -> Option<Option<CryptoHash>> {
    match script {
        None => None,
        Some(sc) => Some(sc.block_hash),
    }
}

/// See [`spec_opt_pk`].
pub open spec fn spec_opt_path(script: Option<&PromptScript>) -> Option<Option<String>> {
    match script {
        None => None,
        Some(sc) => Some(sc.seed_phrase_hd_path),
    }
}

/// See [`spec_opt_pk`].
pub open spec fn spec_opt_url(script: Option<&PromptScript>) -> Option<Option<AvailableRpcServerUrl>> {
    match script {
        None => None,
        Some(sc) => Some(sc.custom_url),
    }
}

fn script_pk(script: Option<&PromptScript>) -> (r: Option<Option<PublicKey>>)
    ensures
        r == spec_opt_pk(script),
{
    match script {
        None => None,
        Some(sc) => Some(
            match &sc.signer_public_key {
                None => None,
                Some(k) => Some(k.clone()),
            },
        ),
    }
}

fn script_sk(script: Option<&PromptScript>) -> (r: Option<Option<SecretKey>>)
    ensures
        r == spec_opt_sk(script),
{
    match script {
        None => None,
        Some(sc) => Some(
            match &sc.signer_private_key {
                None => None,
                Some(k) => Some(k.clone()),
            },
        ),
    }
}

fn script_nonce(script: Option<&PromptScript>) -> (r: Option<Option<u64>>)
    ensures
        r == spec_opt_nonce(script),
{
    match script {
        None => None,
        Some(sc) => Some(sc.nonce),
    }
}

fn script_hash(script: Option<&PromptScript>) -> (r: Option<Option<CryptoHash>>)
    ensures
        r == spec_opt_hash(script),
{
    match script {
        None => None,
        Some(sc) => Some(
            match &sc.block_hash {
                None => None,
                Some(h) => Some(h.clone()),
            },
        ),
    }
}

fn script_path(script: Option<&PromptScript>) -> (r: Option<Option<String>>)
    ensures
        r == spec_opt_path(script),
{
    match script {
        None => None,
        Some(sc) => Some(
            match &sc.seed_phrase_hd_path {
                None => None,
                Some(p) => Some(p.clone()),
            },
        ),
    }
}

fn script_url(script: Option<&PromptScript>) -> (r: Option<Option<AvailableRpcServerUrl>>)
    ensures
        r == spec_opt_url(script),
{
    match script {
        None => None,
        Some(sc) => Some(
            match &sc.custom_url {
                None => None,
                Some(u) => Some(u.clone()),
            },
        ),
    }
}

// ---------------------------------------------------------------------
// Submit-stage resolution.
// ---------------------------------------------------------------------

/// The submit menu's structural rule: with no endpoint, only display is
/// offered, whatever was picked.
pub open spec fn spec_choose_submit(has_endpoint: bool, choice: Submit) -> Submit {
    if has_endpoint {
        choice
    } else {
        Submit::Display
    }
}

/// Resolution of the submit stage.
pub open spec fn spec_resolve_submit(
    supplied: Option<Submit>,
    script: Option<&PromptScript>,
    has_endpoint: bool,
) -> Result<Submit, TransferError> {
    match supplied {
        Some(s) => Ok(s),
        None => match script {
            None => Err(TransferError::MissingInput { stage: Stage::Submit }),
            Some(sc) => match sc.submit_choice {
                None => Err(TransferError::PromptsExhausted { stage: Stage::Submit }),
                Some(c) => Ok(spec_choose_submit(has_endpoint, c)),
            },
        },
    }
}

impl Submit {
    /// Applies the submit menu's structural rule to a pick.
    pub fn choose_submit(connection_config: &Option<ConnectionConfig>, choice: Submit) -> (r:
        Submit)
        ensures
            r == spec_choose_submit(connection_config is Some, choice),
    {
        if connection_config.is_some() {
            choice
        } else {
            Submit::Display
        }
    }
}

/// Resolves the submit stage, per [`spec_resolve_submit`].
pub fn resolve_submit(
    supplied: Option<Submit>,
    script: Option<&PromptScript>,
    connection_config: &Option<ConnectionConfig>,
) -> (r: Result<Submit, TransferError>)
    ensures
        r == spec_resolve_submit(supplied, script, connection_config is Some),
{
    match supplied {
        Some(s) => Ok(s),
        None => match script {
            None => Err(TransferError::MissingInput { stage: Stage::Submit }),
            Some(sc) => match sc.submit_choice {
                None => Err(TransferError::PromptsExhausted { stage: Stage::Submit }),
                Some(c) => Ok(Submit::choose_submit(connection_config, c)),
            },
        },
    }
}

// ---------------------------------------------------------------------
// The signing strategies.
// ---------------------------------------------------------------------

/// Resolution of the local-key strategy's parameters.
pub open spec fn spec_sign_private_key_from(
    item: CliSignPrivateKey,
    has_endpoint: bool,
    script: Option<&PromptScript>,
) -> Result<SignPrivateKey, TransferError> {
    match spec_resolve_once(item.signer_public_key, spec_opt_pk(script), Stage::SignParams) {
        Err(e) => Err(e),
        Ok(pk) => match spec_resolve_once(
            item.signer_private_key,
            spec_opt_sk(script),
            Stage::SignParams,
        ) {
            Err(e) => Err(e),
            Ok(sk) => match spec_resolve_once(item.nonce, spec_opt_nonce(script), Stage::SignParams) {
                Err(e) => Err(e),
                Ok(nonce) => match spec_resolve_once(
                    item.block_hash,
                    spec_opt_hash(script),
                    Stage::SignParams,
                ) {
                    Err(e) => Err(e),
                    Ok(bh) => match spec_resolve_submit(item.submit, script, has_endpoint) {
                        Err(e) => Err(e),
                        Ok(submit) => Ok(
                            SignPrivateKey {
                                signer_public_key: pk,
                                signer_private_key: sk,
                                nonce,
                                block_hash: bh,
                                submit,
                            },
                        ),
                    },
                },
            },
        },
    }
}

impl SignPrivateKey {
    /// Resolves the local-key strategy, per [`spec_sign_private_key_from`].
    pub fn from(
        item: CliSignPrivateKey,
        connection_config: &Option<ConnectionConfig>,
        script: Option<&PromptScript>,
    ) -> (r: Result<SignPrivateKey, TransferError>)
        ensures
            r == spec_sign_private_key_from(item, connection_config is Some, script),
    {
        let pk = match resolve_once(item.signer_public_key, script_pk(script), Stage::SignParams) {
            Ok(v) => v,
            Err(e) => {
                return Err(e);
            },
        };
        let sk = match resolve_once(item.signer_private_key, script_sk(script), Stage::SignParams) {
            Ok(v) => v,
            Err(e) => {
                return Err(e);
            },
        };
        let nonce = match resolve_once(item.nonce, script_nonce(script), Stage::SignParams) {
            Ok(v) => v,
            Err(e) => {
                return Err(e);
            },
        };
        let block_hash = match resolve_once(item.block_hash, script_hash(script), Stage::SignParams) {
            Ok(v) => v,
            Err(e) => {
                return Err(e);
            },
        };
        let submit = match resolve_submit(item.submit, script, connection_config) {
            Ok(v) => v,
            Err(e) => {
                return Err(e);
            },
        };
        Ok(
            SignPrivateKey {
                signer_public_key: pk,
                signer_private_key: sk,
                nonce,
                block_hash,
                submit,
            },
        )
    }
}

/// Resolution of the keychain strategy's parameters.
pub open spec fn spec_sign_keychain_from(
    item: CliSignKeychain,
    has_endpoint: bool,
    script: Option<&PromptScript>,
) -> Result<SignKeychain, TransferError> {
    match spec_resolve_submit(item.submit, script, has_endpoint) {
        Err(e) => Err(e),
        Ok(submit) => Ok(SignKeychain { submit }),
    }
}

impl SignKeychain {
    /// Resolves the keychain strategy, per [`spec_sign_keychain_from`].
    pub fn from(
        item: CliSignKeychain,
        connection_config: &Option<ConnectionConfig>,
        script: Option<&PromptScript>,
    ) -> (r: Result<SignKeychain, TransferError>)
        ensures
            r == spec_sign_keychain_from(item, connection_config is Some, script),
    {
        match resolve_submit(item.submit, script, connection_config) {
            Ok(submit) => Ok(SignKeychain { submit }),
            Err(e) => Err(e),
        }
    }
}

/// Resolution of the hardware-device strategy's parameters.
pub open spec fn spec_sign_ledger_from(
    item: CliSignLedger,
    has_endpoint: bool,
    script: Option<&PromptScript>,
) -> Result<SignLedger, TransferError> {
    match spec_resolve_once(item.seed_phrase_hd_path, spec_opt_path(script), Stage::SignParams) {
        Err(e) => Err(e),
        Ok(path) => match spec_resolve_submit(item.submit, script, has_endpoint) {
            Err(e) => Err(e),
            Ok(submit) => Ok(SignLedger { seed_phrase_hd_path: path, submit }),
        },
    }
}

impl SignLedger {
    /// Resolves the hardware-device strategy, per [`spec_sign_ledger_from`].
    pub fn from(
        item: CliSignLedger,
        connection_config: &Option<ConnectionConfig>,
        script: Option<&PromptScript>,
    ) -> (r: Result<SignLedger, TransferError>)
        ensures
            r == spec_sign_ledger_from(item, connection_config is Some, script),
    {
        let path = match resolve_once(
            item.seed_phrase_hd_path,
            script_path(script),
            Stage::SignParams,
        ) {
            Ok(v) => v,
            Err(e) => {
                return Err(e);
            },
        };
        match resolve_submit(item.submit, script, connection_config) {
            Ok(submit) => Ok(SignLedger { seed_phrase_hd_path: path, submit }),
            Err(e) => Err(e),
        }
    }
}

/// Resolution of the manual strategy's parameters; it has no submit
/// stage, being display-only by nature.
pub open spec fn spec_sign_manually_from(
    item: CliSignManually,
    script: Option<&PromptScript>,
) -> Result<SignManually, TransferError> {
    match spec_resolve_once(item.signer_public_key, spec_opt_pk(script), Stage::SignParams) {
        Err(e) => Err(e),
        Ok(pk) => match spec_resolve_once(item.nonce, spec_opt_nonce(script), Stage::SignParams) {
            Err(e) => Err(e),
            Ok(nonce) => match spec_resolve_once(
                item.block_hash,
                spec_opt_hash(script),
                Stage::SignParams,
            ) {
                Err(e) => Err(e),
                Ok(bh) => Ok(SignManually { signer_public_key: pk, nonce, block_hash: bh }),
            },
        },
    }
}

impl SignManually {
    /// Resolves the manual strategy, per [`spec_sign_manually_from`].
    pub fn from(item: CliSignManually, script: Option<&PromptScript>) -> (r: Result<
        SignManually,
        TransferError,
    >)
        ensures
            r == spec_sign_manually_from(item, script),
    {
        let pk = match resolve_once(item.signer_public_key, script_pk(script), Stage::SignParams) {
            Ok(v) => v,
            Err(e) => {
                return Err(e);
            },
        };
        let nonce = match resolve_once(item.nonce, script_nonce(script), Stage::SignParams) {
            Ok(v) => v,
            Err(e) => {
                return Err(e);
            },
        };
        let block_hash = match resolve_once(item.block_hash, script_hash(script), Stage::SignParams) {
            Ok(v) => v,
            Err(e) => {
                return Err(e);
            },
        };
        Ok(SignManually { signer_public_key: pk, nonce, block_hash })
    }
}

/// Resolution of a supplied sign-option subtree.
pub open spec fn spec_sign_transaction_from(
    item: CliSignTransaction,
    has_endpoint: bool,
    script: Option<&PromptScript>,
) -> Result<SignTransaction, TransferError> {
    match item {
        CliSignTransaction::SignPrivateKey(c) => match spec_sign_private_key_from(
            c,
            has_endpoint,
            script,
        ) {
            Ok(v) => Ok(SignTransaction::SignPrivateKey(v)),
            Err(e) => Err(e),
        },
        CliSignTransaction::SignWithKeychain(c) => match spec_sign_keychain_from(
            c,
            has_endpoint,
            script,
        ) {
            Ok(v) => Ok(SignTransaction::SignWithKeychain(v)),
            Err(e) => Err(e),
        },
        CliSignTransaction::SignWithLedger(c) => match spec_sign_ledger_from(
            c,
            has_endpoint,
            script,
        ) {
            Ok(v) => Ok(SignTransaction::SignWithLedger(v)),
            Err(e) => Err(e),
        },
        CliSignTransaction::SignManually(c) => match spec_sign_manually_from(c, script) {
            Ok(v) => Ok(SignTransaction::SignManually(v)),
            Err(e) => Err(e),
        },
    }
}

/// The empty sign-option subtree for a menu pick.
pub open spec fn spec_empty_cli_sign(c: SignChoice) -> CliSignTransaction {
    match c {
        SignChoice::PrivateKey => CliSignTransaction::SignPrivateKey(
            CliSignPrivateKey {
                signer_public_key: None,
                signer_private_key: None,
                nonce: None,
                block_hash: None,
                submit: None,
            },
        ),
        SignChoice::Keychain => CliSignTransaction::SignWithKeychain(CliSignKeychain { submit: None }),
        SignChoice::Ledger => CliSignTransaction::SignWithLedger(
            CliSignLedger { seed_phrase_hd_path: None, submit: None },
        ),
        SignChoice::Manually => CliSignTransaction::SignManually(
            CliSignManually { signer_public_key: None, nonce: None, block_hash: None },
        ),
    }
}

/// Builds [`spec_empty_cli_sign`].
pub fn empty_cli_sign(c: SignChoice) -> (r: CliSignTransaction)
    ensures
        r == spec_empty_cli_sign(c),
{
    match c {
        SignChoice::PrivateKey => CliSignTransaction::SignPrivateKey(
            CliSignPrivateKey {
                signer_public_key: None,
                signer_private_key: None,
                nonce: None,
                block_hash: None,
                submit: None,
            },
        ),
        SignChoice::Keychain => CliSignTransaction::SignWithKeychain(CliSignKeychain { submit: None }),
        SignChoice::Ledger => CliSignTransaction::SignWithLedger(
            CliSignLedger { seed_phrase_hd_path: None, submit: None },
        ),
        SignChoice::Manually => CliSignTransaction::SignManually(
            CliSignManually { signer_public_key: None, nonce: None, block_hash: None },
        ),
    }
}

/// Resolution of the sign-option menu.
pub open spec fn spec_choose_sign_option(
    has_endpoint: bool,
    script: Option<&PromptScript>,
) -> Result<SignTransaction, TransferError> {
    match script {
        None => Err(TransferError::MissingInput { stage: Stage::SignOption }),
        Some(sc) => match sc.sign_choice {
            None => Err(TransferError::PromptsExhausted { stage: Stage::SignOption }),
            Some(c) => spec_sign_transaction_from(spec_empty_cli_sign(c), has_endpoint, script),
        },
    }
}

/// Resolution of the whole sign-option stage: a supplied subtree, or the
/// menu.
pub open spec fn spec_resolve_sign_option(
    supplied: Option<CliSignTransaction>,
    has_endpoint: bool,
    script: Option<&PromptScript>,
) -> Result<SignTransaction, TransferError> {
    match supplied {
        Some(c) => spec_sign_transaction_from(c, has_endpoint, script),
        None => spec_choose_sign_option(has_endpoint, script),
    }
}

impl SignTransaction {
    /// Resolves a supplied sign-option subtree, per
    /// [`spec_sign_transaction_from`].
    pub fn from(
        item: CliSignTransaction,
        connection_config: &Option<ConnectionConfig>,
        script: Option<&PromptScript>,
    ) -> (r: Result<SignTransaction, TransferError>)
        ensures
            r == spec_sign_transaction_from(item, connection_config is Some, script),
    {
        match item {
            CliSignTransaction::SignPrivateKey(c) => match SignPrivateKey::from(
                c,
                connection_config,
                script,
            ) {
                Ok(v) => Ok(SignTransaction::SignPrivateKey(v)),
                Err(e) => Err(e),
            },
            CliSignTransaction::SignWithKeychain(c) => match SignKeychain::from(
                c,
                connection_config,
                script,
            ) {
                Ok(v) => Ok(SignTransaction::SignWithKeychain(v)),
                Err(e) => Err(e),
            },
            CliSignTransaction::SignWithLedger(c) => match SignLedger::from(
                c,
                connection_config,
                script,
            ) {
                Ok(v) => Ok(SignTransaction::SignWithLedger(v)),
                Err(e) => Err(e),
            },
            CliSignTransaction::SignManually(c) => match SignManually::from(c, script) {
                Ok(v) => Ok(SignTransaction::SignManually(v)),
                Err(e) => Err(e),
            },
        }
    }

    /// Resolves the sign-option menu, per [`spec_choose_sign_option`].
    pub fn choose_sign_option(
        connection_config: &Option<ConnectionConfig>,
        script: Option<&PromptScript>,
    ) -> (r: Result<SignTransaction, TransferError>)
        ensures
            r == spec_choose_sign_option(connection_config is Some, script),
    {
        match script {
            None => Err(TransferError::MissingInput { stage: Stage::SignOption }),
            Some(sc) => match sc.sign_choice {
                None => Err(TransferError::PromptsExhausted { stage: Stage::SignOption }),
                Some(c) => SignTransaction::from(empty_cli_sign(c), connection_config, script),
            },
        }
    }
}


// ---------------------------------------------------------------------
// The account, amount and server stages, walked top-down.
// ---------------------------------------------------------------------

/// Resolution of the amount stage and everything below it.
pub open spec fn spec_transfer_action_from(
    item: CliTransferNEARTokensAction,
    cfg: Option<ConnectionConfig>,
    sender: AccountId,
    script: Option<&PromptScript>,
    table: &LookupTable,
) -> Result<TransferNEARTokensAction, TransferError> {
    match spec_resolve_amount(
        item.amount,
        spec_amounts_of(script),
        cfg is Some,
        table.lookup_of(sender@),
        Stage::Amount,
    ) {
        Err(e) => Err(e),
        Ok(amount) => match spec_resolve_sign_option(item.sign_option, cfg is Some, script) {
            Err(e) => Err(e),
            Ok(sign_option) => Ok(TransferNEARTokensAction { amount, sign_option }),
        },
    }
}

impl TransferNEARTokensAction {
    /// Resolves the amount stage, per [`spec_transfer_action_from`].
    pub fn from(
        item: CliTransferNEARTokensAction,
        context: Context,
        script: Option<&PromptScript>,
        table: &LookupTable,
    ) -> (r: Result<TransferNEARTokensAction, TransferError>)
        requires
            context.sender_account_id is Some,
        ensures
            r == spec_transfer_action_from(
                item,
                context.connection_config,
                context.sender_account_id->0,
                script,
                table,
            ),
    {
        let sender = match context.sender_account_id {
            Some(s) => s,
            None => {
                proof {
                    assert(false);
                }
                return Err(TransferError::Transport);
            },
        };
        let outcome = table.lookup(&sender);
        let amount = match resolve_amount(
            item.amount,
            script_amount_answers(script),
            context.connection_config.is_some(),
            outcome,
            Stage::Amount,
        ) {
            Ok(v) => v,
            Err(e) => {
                return Err(e);
            },
        };
        let sign_option = match item.sign_option {
            Some(c) => match SignTransaction::from(c, &context.connection_config, script) {
                Ok(v) => v,
                Err(e) => {
                    return Err(e);
                },
            },
            None => match SignTransaction::choose_sign_option(&context.connection_config, script) {
                Ok(v) => v,
                Err(e) => {
                    return Err(e);
                },
            },
        };
        Ok(TransferNEARTokensAction { amount, sign_option })
    }
}

/// Resolution of the transfer subtree.
pub open spec fn spec_transfer_from(
    item: CliTransfer,
    cfg: Option<ConnectionConfig>,
    sender: AccountId,
    script: Option<&PromptScript>,
    table: &LookupTable,
) -> Result<Transfer, TransferError> {
    match item {
        CliTransfer::Amount(c) => match spec_transfer_action_from(c, cfg, sender, script, table) {
            Ok(v) => Ok(Transfer::Amount(v)),
            Err(e) => Err(e),
        },
    }
}

/// The transfer menu: its one entry, taken when a script is present.
pub open spec fn spec_choose_transfer(
    cfg: Option<ConnectionConfig>,
    sender: AccountId,
    script: Option<&PromptScript>,
    table: &LookupTable,
) -> Result<Transfer, TransferError> {
    spec_transfer_from(
        CliTransfer::Amount(CliTransferNEARTokensAction { amount: None, sign_option: None }),
        cfg,
        sender,
        script,
        table,
    )
}

impl Transfer {
    /// Resolves a supplied transfer subtree, per [`spec_transfer_from`].
    pub fn from(
        item: CliTransfer,
        context: Context,
        script: Option<&PromptScript>,
        table: &LookupTable,
    ) -> (r: Result<Transfer, TransferError>)
        requires
            context.sender_account_id is Some,
        ensures
            r == spec_transfer_from(
                item,
                context.connection_config,
                context.sender_account_id->0,
                script,
                table,
            ),
    {
        match item {
            CliTransfer::Amount(c) => match TransferNEARTokensAction::from(
                c,
                context,
                script,
                table,
            ) {
                Ok(v) => Ok(Transfer::Amount(v)),
                Err(e) => Err(e),
            },
        }
    }

    /// Resolves the transfer stage with nothing supplied, per
    /// [`spec_choose_transfer`].
    pub fn choose_transfer_near(
        context: Context,
        script: Option<&PromptScript>,
        table: &LookupTable,
    ) -> (r: Result<Transfer, TransferError>)
        requires
            context.sender_account_id is Some,
        ensures
            r == spec_choose_transfer(
                context.connection_config,
                context.sender_account_id->0,
                script,
                table,
            ),
    {
        Transfer::from(
            CliTransfer::Amount(CliTransferNEARTokensAction { amount: None, sign_option: None }),
            context,
            script,
            table,
        )
    }
}

/// Resolution of the receiver stage and everything below it.  The
/// receiver enjoys the implicit-account exemption.
pub open spec fn spec_receiver_from(
    item: CliReceiver,
    cfg: Option<ConnectionConfig>,
    sender: AccountId,
    script: Option<&PromptScript>,
    table: &LookupTable,
) -> Result<Receiver, TransferError> {
    match spec_resolve_account(
        item.receiver_account_id,
        spec_ids_of(script, true),
        cfg is Some,
        table,
        true,
        Stage::Receiver,
    ) {
        Err(e) => Err(e),
        Ok(id) => match item.transfer {
            Some(t) => match spec_transfer_from(t, cfg, sender, script, table) {
                Ok(v) => Ok(Receiver { receiver_account_id: id, transfer: v }),
                Err(e) => Err(e),
            },
            None => match spec_choose_transfer(cfg, sender, script, table) {
                Ok(v) => Ok(Receiver { receiver_account_id: id, transfer: v }),
                Err(e) => Err(e),
            },
        },
    }
}

impl Receiver {
    /// Resolves the receiver stage, per [`spec_receiver_from`].
    pub fn from(
        item: CliReceiver,
        context: Context,
        script: Option<&PromptScript>,
        table: &LookupTable,
    ) -> (r: Result<Receiver, TransferError>)
        requires
            context.sender_account_id is Some,
        ensures
            r == spec_receiver_from(
                item,
                context.connection_config,
                context.sender_account_id->0,
                script,
                table,
            ),
    {
        let id = match resolve_account(
            item.receiver_account_id,
            script_receiver_answers(script),
            context.connection_config.is_some(),
            table,
            true,
            Stage::Receiver,
        ) {
            Ok(v) => v,
            Err(e) => {
                return Err(e);
            },
        };
        let transfer = match item.transfer {
            Some(t) => match Transfer::from(t, context, script, table) {
                Ok(v) => v,
                Err(e) => {
                    return Err(e);
                },
            },
            None => match Transfer::choose_transfer_near(context, script, table) {
                Ok(v) => v,
                Err(e) => {
                    return Err(e);
                },
            },
        };
        Ok(Receiver { receiver_account_id: id, transfer })
    }
}

/// Resolution of the send-to subtree.
pub open spec fn spec_send_to_from(
    item: CliSendTo,
    cfg: Option<ConnectionConfig>,
    sender: AccountId,
    script: Option<&PromptScript>,
    table: &LookupTable,
) -> Result<SendTo, TransferError> {
    match item {
        CliSendTo::Receiver(c) => match spec_receiver_from(c, cfg, sender, script, table) {
            Ok(v) => Ok(SendTo::Receiver(v)),
            Err(e) => Err(e),
        },
    }
}

/// The send-to stage with nothing supplied.
pub open spec fn spec_send_to_choose(
    cfg: Option<ConnectionConfig>,
    sender: AccountId,
    script: Option<&PromptScript>,
    table: &LookupTable,
) -> Result<SendTo, TransferError> {
    spec_send_to_from(
        CliSendTo::Receiver(CliReceiver { receiver_account_id: None, transfer: None }),
        cfg,
        sender,
        script,
        table,
    )
}

impl SendTo {
    /// Resolves a supplied send-to subtree, per [`spec_send_to_from`].
    pub fn from(
        item: CliSendTo,
        context: Context,
        script: Option<&PromptScript>,
        table: &LookupTable,
    ) -> (r: Result<SendTo, TransferError>)
        requires
            context.sender_account_id is Some,
        ensures
            r == spec_send_to_from(
                item,
                context.connection_config,
                context.sender_account_id->0,
                script,
                table,
            ),
    {
        match item {
            CliSendTo::Receiver(c) => match Receiver::from(c, context, script, table) {
                Ok(v) => Ok(SendTo::Receiver(v)),
                Err(e) => Err(e),
            },
        }
    }

    /// Resolves the send-to stage with nothing supplied, per
    /// [`spec_send_to_choose`].
    pub fn send_to(context: Context, script: Option<&PromptScript>, table: &LookupTable) -> (r:
        Result<SendTo, TransferError>)
        requires
            context.sender_account_id is Some,
        ensures
            r == spec_send_to_choose(
                context.connection_config,
                context.sender_account_id->0,
                script,
                table,
            ),
    {
        SendTo::from(
            CliSendTo::Receiver(CliReceiver { receiver_account_id: None, transfer: None }),
            context,
            script,
            table,
        )
    }
}

/// Resolution of the sender stage and everything below it.  No
/// implicit-account exemption here.
pub open spec fn spec_sender_from(
    item: CliSender,
    cfg: Option<ConnectionConfig>,
    script: Option<&PromptScript>,
    table: &LookupTable,
) -> Result<Sender, TransferError> {
    match spec_resolve_account(
        item.sender_account_id,
        spec_ids_of(script, false),
        cfg is Some,
        table,
        false,
        Stage::Sender,
    ) {
        Err(e) => Err(e),
        Ok(id) => match item.send_to {
            Some(st) => match spec_send_to_from(st, cfg, id, script, table) {
                Ok(v) => Ok(Sender { sender_account_id: id, send_to: v }),
                Err(e) => Err(e),
            },
            None => match spec_send_to_choose(cfg, id, script, table) {
                Ok(v) => Ok(Sender { sender_account_id: id, send_to: v }),
                Err(e) => Err(e),
            },
        },
    }
}

impl Sender {
    /// Resolves the sender stage, per [`spec_sender_from`].
    pub fn from(
        item: CliSender,
        context: Context,
        script: Option<&PromptScript>,
        table: &LookupTable,
    ) -> (r: Result<Sender, TransferError>)
        ensures
            r == spec_sender_from(item, context.connection_config, script, table),
    {
        let id = match resolve_account(
            item.sender_account_id,
            script_sender_answers(script),
            context.connection_config.is_some(),
            table,
            false,
            Stage::Sender,
        ) {
            Ok(v) => v,
            Err(e) => {
                return Err(e);
            },
        };
        let ctx2 = Context {
            connection_config: context.connection_config,
            sender_account_id: Some(id.clone()),
        };
        let send_to = match item.send_to {
            Some(st) => match SendTo::from(st, ctx2, script, table) {
                Ok(v) => v,
                Err(e) => {
                    return Err(e);
                },
            },
            None => match SendTo::send_to(ctx2, script, table) {
                Ok(v) => v,
                Err(e) => {
                    return Err(e);
                },
            },
        };
        Ok(Sender { sender_account_id: id, send_to })
    }
}

/// Resolution of the send-from subtree.
pub open spec fn spec_send_from_from(
    item: CliSendFrom,
    cfg: Option<ConnectionConfig>,
    script: Option<&PromptScript>,
    table: &LookupTable,
) -> Result<SendFrom, TransferError> {
    match item {
        CliSendFrom::Sender(c) => match spec_sender_from(c, cfg, script, table) {
            Ok(v) => Ok(SendFrom::Sender(v)),
            Err(e) => Err(e),
        },
    }
}

/// The send-from stage with nothing supplied.
pub open spec fn spec_send_from_choose(
    cfg: Option<ConnectionConfig>,
    script: Option<&PromptScript>,
    table: &LookupTable,
) -> Result<SendFrom, TransferError> {
    spec_send_from_from(
        CliSendFrom::Sender(CliSender { sender_account_id: None, send_to: None }),
        cfg,
        script,
        table,
    )
}

impl SendFrom {
    /// Resolves a supplied send-from subtree, per [`spec_send_from_from`].
    pub fn from(
        item: CliSendFrom,
        context: Context,
        script: Option<&PromptScript>,
        table: &LookupTable,
    ) -> (r: Result<SendFrom, TransferError>)
        ensures
            r == spec_send_from_from(item, context.connection_config, script, table),
    {
        match item {
            CliSendFrom::Sender(c) => match Sender::from(c, context, script, table) {
                Ok(v) => Ok(SendFrom::Sender(v)),
                Err(e) => Err(e),
            },
        }
    }

    /// Resolves the send-from stage with nothing supplied, per
    /// [`spec_send_from_choose`].
    pub fn choose_variant(
        context: Context,
        script: Option<&PromptScript>,
        table: &LookupTable,
    ) -> (r: Result<SendFrom, TransferError>)
        ensures
            r == spec_send_from_choose(context.connection_config, script, table),
    {
        SendFrom::from(
            CliSendFrom::Sender(CliSender { sender_account_id: None, send_to: None }),
            context,
            script,
            table,
        )
    }
}


// ---------------------------------------------------------------------
// The server, mode and top-level stages.
// ---------------------------------------------------------------------

/// Resolution of a named server and everything below it.
pub open spec fn spec_server_into(
    item: CliServer,
    cfg: ConnectionConfig,
    script: Option<&PromptScript>,
    table: &LookupTable,
) -> Result<Server, TransferError> {
    let below = match item.send_from {
        Some(sf) => spec_send_from_from(sf, Some(cfg), script, table),
        None => spec_send_from_choose(Some(cfg), script, table),
    };
    match below {
        Ok(v) => Ok(Server { connection_config: Some(cfg), send_from: v }),
        Err(e) => Err(e),
    }
}

impl CliServer {
    /// Resolves a named server, per [`spec_server_into`].
    pub fn into_server(
        self,
        connection_config: ConnectionConfig,
        context: Context,
        script: Option<&PromptScript>,
        table: &LookupTable,
    ) -> (r: Result<Server, TransferError>)
        ensures
            r == spec_server_into(self, connection_config, script, table),
    {
        let ctx2 = Context {
            connection_config: Some(connection_config.clone()),
            sender_account_id: context.sender_account_id,
        };
        let send_from = match self.send_from {
            Some(sf) => match SendFrom::from(sf, ctx2, script, table) {
                Ok(v) => v,
                Err(e) => {
                    return Err(e);
                },
            },
            None => match SendFrom::choose_variant(ctx2, script, table) {
                Ok(v) => v,
                Err(e) => {
                    return Err(e);
                },
            },
        };
        Ok(Server { connection_config: Some(connection_config), send_from })
    }
}

/// Resolution of a custom server: its URL, then everything below it.
pub open spec fn spec_custom_server_into(
    item: CliCustomServer,
    script: Option<&PromptScript>,
    table: &LookupTable,
) -> Result<CustomServer, TransferError> {
    match spec_resolve_once(item.url, spec_opt_url(script), Stage::ServerUrl) {
        Err(e) => Err(e),
        Ok(url) => {
            let cfg = ConnectionConfig::Custom { url };
            let below = match item.send_from {
                Some(sf) => spec_send_from_from(sf, Some(cfg), script, table),
                None => spec_send_from_choose(Some(cfg), script, table),
            };
            match below {
                Ok(v) => Ok(CustomServer { url, send_from: v }),
                Err(e) => Err(e),
            }
        },
    }
}

impl CliCustomServer {
    /// Resolves a custom server, per [`spec_custom_server_into`].
    pub fn into_custom_server(
        self,
        context: Context,
        script: Option<&PromptScript>,
        table: &LookupTable,
    ) -> (r: Result<CustomServer, TransferError>)
        ensures
            r == spec_custom_server_into(self, script, table),
    {
        let url = match resolve_once(self.url, script_url(script), Stage::ServerUrl) {
            Ok(v) => v,
            Err(e) => {
                return Err(e);
            },
        };
        let cfg = ConnectionConfig::from_custom_url(&url);
        proof {
            assert(cfg == (ConnectionConfig::Custom { url }));
        }
        let ctx2 = Context {
            connection_config: Some(cfg),
            sender_account_id: context.sender_account_id,
        };
        let send_from = match self.send_from {
            Some(sf) => match SendFrom::from(sf, ctx2, script, table) {
                Ok(v) => v,
                Err(e) => {
                    return Err(e);
                },
            },
            None => match SendFrom::choose_variant(ctx2, script, table) {
                Ok(v) => v,
                Err(e) => {
                    return Err(e);
                },
            },
        };
        Ok(CustomServer { url, send_from })
    }
}

/// Resolution of a supplied server selection.
pub open spec fn spec_select_server_from(
    item: CliSelectServer,
    script: Option<&PromptScript>,
    table: &LookupTable,
) -> Result<SelectServer, TransferError> {
    match item {
        CliSelectServer::Testnet(c) => match spec_server_into(
            c,
            ConnectionConfig::Testnet,
            script,
            table,
        ) {
            Ok(v) => Ok(SelectServer::Testnet(v)),
            Err(e) => Err(e),
        },
        CliSelectServer::Mainnet(c) => match spec_server_into(
            c,
            ConnectionConfig::Mainnet,
            script,
            table,
        ) {
            Ok(v) => Ok(SelectServer::Mainnet(v)),
            Err(e) => Err(e),
        },
        CliSelectServer::Betanet(c) => match spec_server_into(
            c,
            ConnectionConfig::Betanet,
            script,
            table,
        ) {
            Ok(v) => Ok(SelectServer::Betanet(v)),
            Err(e) => Err(e),
        },
        CliSelectServer::Custom(c) => match spec_custom_server_into(c, script, table) {
            Ok(v) => Ok(SelectServer::Custom(v)),
            Err(e) => Err(e),
        },
    }
}

/// The empty server subtree for a menu pick.
pub open spec fn spec_empty_cli_server(c: ServerChoice) -> CliSelectServer {
    match c {
        ServerChoice::Testnet => CliSelectServer::Testnet(CliServer { send_from: None }),
        ServerChoice::Mainnet => CliSelectServer::Mainnet(CliServer { send_from: None }),
        ServerChoice::Betanet => CliSelectServer::Betanet(CliServer { send_from: None }),
        ServerChoice::Custom => CliSelectServer::Custom(
            CliCustomServer { url: None, send_from: None },
        ),
    }
}

/// Resolution of the server menu.
pub open spec fn spec_select_server_choose(
    script: Option<&PromptScript>,
    table: &LookupTable,
) -> Result<SelectServer, TransferError> {
    match script {
        None => Err(TransferError::MissingInput { stage: Stage::Server }),
        Some(sc) => match sc.server_choice {
            None => Err(TransferError::PromptsExhausted { stage: Stage::Server }),
            Some(c) => spec_select_server_from(spec_empty_cli_server(c), script, table),
        },
    }
}

impl SelectServer {
    /// Resolves a supplied server selection, per
    /// [`spec_select_server_from`].
    pub fn from(
        item: CliSelectServer,
        context: Context,
        script: Option<&PromptScript>,
        table: &LookupTable,
    ) -> (r: Result<SelectServer, TransferError>)
        ensures
            r == spec_select_server_from(item, script, table),
    {
        match item {
            CliSelectServer::Testnet(c) => match c.into_server(
                ConnectionConfig::Testnet,
                context,
                script,
                table,
            ) {
                Ok(v) => Ok(SelectServer::Testnet(v)),
                Err(e) => Err(e),
            },
            CliSelectServer::Mainnet(c) => match c.into_server(
                ConnectionConfig::Mainnet,
                context,
                script,
                table,
            ) {
                Ok(v) => Ok(SelectServer::Mainnet(v)),
                Err(e) => Err(e),
            },
            CliSelectServer::Betanet(c) => match c.into_server(
                ConnectionConfig::Betanet,
                context,
                script,
                table,
            ) {
                Ok(v) => Ok(SelectServer::Betanet(v)),
                Err(e) => Err(e),
            },
            CliSelectServer::Custom(c) => match c.into_custom_server(context, script, table) {
                Ok(v) => Ok(SelectServer::Custom(v)),
                Err(e) => Err(e),
            },
        }
    }

    /// Resolves the server menu, per [`spec_select_server_choose`].
    pub fn choose_variant(
        context: Context,
        script: Option<&PromptScript>,
        table: &LookupTable,
    ) -> (r: Result<SelectServer, TransferError>)
        ensures
            r == spec_select_server_choose(script, table),
    {
        match script {
            None => Err(TransferError::MissingInput { stage: Stage::Server }),
            Some(sc) => match sc.server_choice {
                None => Err(TransferError::PromptsExhausted { stage: Stage::Server }),
                Some(c) => {
                    let empty = match c {
                        ServerChoice::Testnet => CliSelectServer::Testnet(
                            CliServer { send_from: None },
                        ),
                        ServerChoice::Mainnet => CliSelectServer::Mainnet(
                            CliServer { send_from: None },
                        ),
                        ServerChoice::Betanet => CliSelectServer::Betanet(
                            CliServer { send_from: None },
                        ),
                        ServerChoice::Custom => CliSelectServer::Custom(
                            CliCustomServer { url: None, send_from: None },
                        ),
                    };
                    SelectServer::from(empty, context, script, table)
                },
            },
        }
    }
}

/// Resolution of the online mode.
pub open spec fn spec_network_args_from(
    item: CliNetworkArgs,
    script: Option<&PromptScript>,
    table: &LookupTable,
) -> Result<NetworkArgs, TransferError> {
    let below = match item.selected_server {
        Some(s) => spec_select_server_from(s, script, table),
        None => spec_select_server_choose(script, table),
    };
    match below {
        Ok(v) => Ok(NetworkArgs { selected_server: v }),
        Err(e) => Err(e),
    }
}

impl NetworkArgs {
    /// Resolves the online mode, per [`spec_network_args_from`].
    pub fn from(
        item: CliNetworkArgs,
        context: Context,
        script: Option<&PromptScript>,
        table: &LookupTable,
    ) -> (r: Result<NetworkArgs, TransferError>)
        ensures
            r == spec_network_args_from(item, script, table),
    {
        let selected_server = match item.selected_server {
            Some(s) => match SelectServer::from(s, context, script, table) {
                Ok(v) => v,
                Err(e) => {
                    return Err(e);
                },
            },
            None => match SelectServer::choose_variant(context, script, table) {
                Ok(v) => v,
                Err(e) => {
                    return Err(e);
                },
            },
        };
        Ok(NetworkArgs { selected_server })
    }
}

/// Resolution of the offline mode: no endpoint anywhere below.
pub open spec fn spec_offline_args_from(
    item: CliOfflineArgs,
    script: Option<&PromptScript>,
    table: &LookupTable,
) -> Result<OfflineArgs, TransferError> {
    let below = match item.send_from {
        Some(sf) => spec_send_from_from(sf, None, script, table),
        None => spec_send_from_choose(None, script, table),
    };
    match below {
        Ok(v) => Ok(OfflineArgs { send_from: v }),
        Err(e) => Err(e),
    }
}

impl OfflineArgs {
    /// Resolves the offline mode, per [`spec_offline_args_from`].
    pub fn from(
        item: CliOfflineArgs,
        context: Context,
        script: Option<&PromptScript>,
        table: &LookupTable,
    ) -> (r: Result<OfflineArgs, TransferError>)
        ensures
            r == spec_offline_args_from(item, script, table),
    {
        let ctx2 = Context {
            connection_config: None,
            sender_account_id: context.sender_account_id,
        };
        let send_from = match item.send_from {
            Some(sf) => match SendFrom::from(sf, ctx2, script, table) {
                Ok(v) => v,
                Err(e) => {
                    return Err(e);
                },
            },
            None => match SendFrom::choose_variant(ctx2, script, table) {
                Ok(v) => v,
                Err(e) => {
                    return Err(e);
                },
            },
        };
        Ok(OfflineArgs { send_from })
    }
}

/// Resolution of a supplied mode.
pub open spec fn spec_mode_from(
    item: CliMode,
    script: Option<&PromptScript>,
    table: &LookupTable,
) -> Result<Mode, TransferError> {
    match item {
        CliMode::Network(c) => match spec_network_args_from(c, script, table) {
            Ok(v) => Ok(Mode::Network(v)),
            Err(e) => Err(e),
        },
        CliMode::Offline(c) => match spec_offline_args_from(c, script, table) {
            Ok(v) => Ok(Mode::Offline(v)),
            Err(e) => Err(e),
        },
    }
}

/// Resolution of the mode menu.
pub open spec fn spec_mode_choose(
    script: Option<&PromptScript>,
    table: &LookupTable,
) -> Result<Mode, TransferError> {
    match script {
        None => Err(TransferError::MissingInput { stage: Stage::Mode }),
        Some(sc) => match sc.mode_choice {
            None => Err(TransferError::PromptsExhausted { stage: Stage::Mode }),
            Some(ModeChoice::Network) => spec_mode_from(
                CliMode::Network(CliNetworkArgs { selected_server: None }),
                script,
                table,
            ),
            Some(ModeChoice::Offline) => spec_mode_from(
                CliMode::Offline(CliOfflineArgs { send_from: None }),
                script,
                table,
            ),
        },
    }
}

impl Mode {
    /// Resolves a supplied mode, per [`spec_mode_from`].
    pub fn from(
        item: CliMode,
        context: Context,
        script: Option<&PromptScript>,
        table: &LookupTable,
    ) -> (r: Result<Mode, TransferError>)
        ensures
            r == spec_mode_from(item, script, table),
    {
        match item {
            CliMode::Network(c) => match NetworkArgs::from(c, context, script, table) {
                Ok(v) => Ok(Mode::Network(v)),
                Err(e) => Err(e),
            },
            CliMode::Offline(c) => match OfflineArgs::from(c, context, script, table) {
                Ok(v) => Ok(Mode::Offline(v)),
                Err(e) => Err(e),
            },
        }
    }

    /// Resolves the mode menu, per [`spec_mode_choose`].
    pub fn choose_variant(
        context: Context,
        script: Option<&PromptScript>,
        table: &LookupTable,
    ) -> (r: Result<Mode, TransferError>)
        ensures
            r == spec_mode_choose(script, table),
    {
        match script {
            None => Err(TransferError::MissingInput { stage: Stage::Mode }),
            Some(sc) => match sc.mode_choice {
                None => Err(TransferError::PromptsExhausted { stage: Stage::Mode }),
                Some(ModeChoice::Network) => Mode::from(
                    CliMode::Network(CliNetworkArgs { selected_server: None }),
                    context,
                    script,
                    table,
                ),
                Some(ModeChoice::Offline) => Mode::from(
                    CliMode::Offline(CliOfflineArgs { send_from: None }),
                    context,
                    script,
                    table,
                ),
            },
        }
    }
}

/// Resolution of the operation-mode wrapper.
pub open spec fn spec_operation_mode_from(
    item: CliOperationMode,
    script: Option<&PromptScript>,
    table: &LookupTable,
) -> Result<OperationMode, TransferError> {
    let below = match item.mode {
        Some(m) => spec_mode_from(m, script, table),
        None => spec_mode_choose(script, table),
    };
    match below {
        Ok(v) => Ok(OperationMode { mode: v }),
        Err(e) => Err(e),
    }
}

impl OperationMode {
    /// Resolves the operation mode, per [`spec_operation_mode_from`].
    pub fn from(
        item: CliOperationMode,
        context: Context,
        script: Option<&PromptScript>,
        table: &LookupTable,
    ) -> (r: Result<OperationMode, TransferError>)
        ensures
            r == spec_operation_mode_from(item, script, table),
    {
        let mode = match item.mode {
            Some(m) => match Mode::from(m, context, script, table) {
                Ok(v) => v,
                Err(e) => {
                    return Err(e);
                },
            },
            None => match Mode::choose_variant(context, script, table) {
                Ok(v) => v,
                Err(e) => {
                    return Err(e);
                },
            },
        };
        Ok(OperationMode { mode })
    }
}

/// Resolution of a supplied currency selection.
pub open spec fn spec_currency_selection_from(
    item: CliCurrencySelection,
    script: Option<&PromptScript>,
    table: &LookupTable,
) -> Result<CurrencySelection, TransferError> {
    match item {
        CliCurrencySelection::Near(c) => match spec_operation_mode_from(c, script, table) {
            Ok(v) => Ok(CurrencySelection::Near(v)),
            Err(e) => Err(e),
        },
    }
}

/// Resolution of the currency menu: it has one entry.
pub open spec fn spec_currency_selection_choose(
    script: Option<&PromptScript>,
    table: &LookupTable,
) -> Result<CurrencySelection, TransferError> {
    match script {
        None => Err(TransferError::MissingInput { stage: Stage::Currency }),
        Some(_) => spec_currency_selection_from(
            CliCurrencySelection::Near(CliOperationMode { mode: None }),
            script,
            table,
        ),
    }
}

impl CurrencySelection {
    /// Resolves a supplied currency selection, per
    /// [`spec_currency_selection_from`].
    pub fn from(
        item: CliCurrencySelection,
        context: Context,
        script: Option<&PromptScript>,
        table: &LookupTable,
    ) -> (r: Result<CurrencySelection, TransferError>)
        ensures
            r == spec_currency_selection_from(item, script, table),
    {
        match item {
            CliCurrencySelection::Near(c) => match OperationMode::from(c, context, script, table) {
                Ok(v) => Ok(CurrencySelection::Near(v)),
                Err(e) => Err(e),
            },
        }
    }

    /// Resolves the currency menu, per [`spec_currency_selection_choose`].
    pub fn choose_variant(
        context: Context,
        script: Option<&PromptScript>,
        table: &LookupTable,
    ) -> (r: Result<CurrencySelection, TransferError>)
        ensures
            r == spec_currency_selection_choose(script, table),
    {
        match script {
            None => Err(TransferError::MissingInput { stage: Stage::Currency }),
            Some(_) => CurrencySelection::from(
                CliCurrencySelection::Near(CliOperationMode { mode: None }),
                context,
                script,
                table,
            ),
        }
    }
}

/// Resolution of the currency wrapper.
pub open spec fn spec_currency_from(
    item: CliCurrency,
    script: Option<&PromptScript>,
    table: &LookupTable,
) -> Result<Currency, TransferError> {
    let below = match item.currency_selection {
        Some(c) => spec_currency_selection_from(c, script, table),
        None => spec_currency_selection_choose(script, table),
    };
    match below {
        Ok(v) => Ok(Currency { currency_selection: v }),
        Err(e) => Err(e),
    }
}

impl Currency {
    /// Resolves the currency stage, per [`spec_currency_from`].
    pub fn from(
        item: CliCurrency,
        context: Context,
        script: Option<&PromptScript>,
        table: &LookupTable,
    ) -> (r: Result<Currency, TransferError>)
        ensures
            r == spec_currency_from(item, script, table),
    {
        let currency_selection = match item.currency_selection {
            Some(c) => match CurrencySelection::from(c, context, script, table) {
                Ok(v) => v,
                Err(e) => {
                    return Err(e);
                },
            },
            None => match CurrencySelection::choose_variant(context, script, table) {
                Ok(v) => v,
                Err(e) => {
                    return Err(e);
                },
            },
        };
        Ok(Currency { currency_selection })
    }
}

/// Resolution of a supplied top-level command.
pub open spec fn spec_top_level_from(
    item: CliTopLevelCommand,
    script: Option<&PromptScript>,
    table: &LookupTable,
) -> Result<TopLevelCommand, TransferError> {
    match item {
        CliTopLevelCommand::Transfer(c) => match spec_currency_from(c, script, table) {
            Ok(v) => Ok(TopLevelCommand::Transfer(v)),
            Err(e) => Err(e),
        },
    }
}

/// Resolution of the command menu: it has one entry.
pub open spec fn spec_choose_command(
    script: Option<&PromptScript>,
    table: &LookupTable,
) -> Result<TopLevelCommand, TransferError> {
    match script {
        None => Err(TransferError::MissingInput { stage: Stage::Command }),
        Some(_) => spec_top_level_from(
            CliTopLevelCommand::Transfer(CliCurrency { currency_selection: None }),
            script,
            table,
        ),
    }
}

impl TopLevelCommand {
    /// Resolves a supplied top-level command, per [`spec_top_level_from`].
    pub fn from(
        item: CliTopLevelCommand,
        context: Context,
        script: Option<&PromptScript>,
        table: &LookupTable,
    ) -> (r: Result<TopLevelCommand, TransferError>)
        ensures
            r == spec_top_level_from(item, script, table),
    {
        match item {
            CliTopLevelCommand::Transfer(c) => match Currency::from(c, context, script, table) {
                Ok(v) => Ok(TopLevelCommand::Transfer(v)),
                Err(e) => Err(e),
            },
        }
    }

    /// Resolves the command menu, per [`spec_choose_command`].
    pub fn choose_command(
        context: Context,
        script: Option<&PromptScript>,
        table: &LookupTable,
    ) -> (r: Result<TopLevelCommand, TransferError>)
        ensures
            r == spec_choose_command(script, table),
    {
        match script {
            None => Err(TransferError::MissingInput { stage: Stage::Command }),
            Some(_) => TopLevelCommand::from(
                CliTopLevelCommand::Transfer(CliCurrency { currency_selection: None }),
                context,
                script,
                table,
            ),
        }
    }
}

/// Resolution of a whole invocation.
pub open spec fn spec_args_from(
    cli: CliArgs,
    script: Option<&PromptScript>,
    table: &LookupTable,
) -> Result<Args, TransferError> {
    let below = match cli.top_level_command {
        Some(c) => spec_top_level_from(c, script, table),
        None => spec_choose_command(script, table),
    };
    match below {
        Ok(v) => Ok(Args { top_level_command: v }),
        Err(e) => Err(e),
    }
}

impl Args {
    /// Resolves a whole invocation: every stage in order, from the
    /// supplied values, the script, and the network's answers.
    pub fn from(cli: CliArgs, script: Option<&PromptScript>, table: &LookupTable) -> (r: Result<
        Args,
        TransferError,
    >)
        ensures
            r == spec_args_from(cli, script, table),
    {
        let context = Context { connection_config: None, sender_account_id: None };
        let top_level_command = match cli.top_level_command {
            Some(c) => match TopLevelCommand::from(c, context, script, table) {
                Ok(v) => v,
                Err(e) => {
                    return Err(e);
                },
            },
            None => match TopLevelCommand::choose_command(context, script, table) {
                Ok(v) => v,
                Err(e) => {
                    return Err(e);
                },
            },
        };
        Ok(Args { top_level_command })
    }
}


// ---------------------------------------------------------------------
// Folding the resolved tree into the skeleton.
// ---------------------------------------------------------------------

/// What the composer hands on: the filled skeleton, the endpoint, and the
/// chosen signing strategy.
#[derive(Debug)]
pub struct PreparedTransfer {
    pub skeleton: TransactionSkeleton,
    pub connection_config: Option<ConnectionConfig>,
    pub sign_option: SignTransaction,
}

/// The amount below a transfer subtree, in smallest units.
pub open spec fn tr_deposit(t: &Transfer) -> u128 {
    match t {
        Transfer::Amount(a) => a.amount@ as u128,
    }
}

/// The signing strategy below a transfer subtree.
pub open spec fn tr_sign(t: &Transfer) -> SignTransaction {
    match t {
        Transfer::Amount(a) => a.sign_option,
    }
}

/// The receiver below a send-to subtree.
pub open spec fn st_receiver(st: &SendTo) -> AccountId {
    match st {
        SendTo::Receiver(r) => r.receiver_account_id,
    }
}

/// The amount below a send-to subtree.
pub open spec fn st_deposit(st: &SendTo) -> u128 {
    match st {
        SendTo::Receiver(r) => tr_deposit(&r.transfer),
    }
}

/// The signing strategy below a send-to subtree.
pub open spec fn st_sign(st: &SendTo) -> SignTransaction {
    match st {
        SendTo::Receiver(r) => tr_sign(&r.transfer),
    }
}

/// The sender below a send-from subtree.
pub open spec fn sf_sender(sf: &SendFrom) -> AccountId {
    match sf {
        SendFrom::Sender(s) => s.sender_account_id,
    }
}

/// The receiver below a send-from subtree.
pub open spec fn sf_receiver(sf: &SendFrom) -> AccountId {
    match sf {
        SendFrom::Sender(s) => st_receiver(&s.send_to),
    }
}

/// The amount below a send-from subtree.
pub open spec fn sf_deposit(sf: &SendFrom) -> u128 {
    match sf {
        SendFrom::Sender(s) => st_deposit(&s.send_to),
    }
}

/// The signing strategy below a send-from subtree.
pub open spec fn sf_sign(sf: &SendFrom) -> SignTransaction {
    match sf {
        SendFrom::Sender(s) => st_sign(&s.send_to),
    }
}

/// The endpoint a resolved server selection denotes.
pub open spec fn ss_cfg(ss: &SelectServer) -> Option<ConnectionConfig> {
    match ss {
        SelectServer::Testnet(s) => s.connection_config,
        SelectServer::Mainnet(s) => s.connection_config,
        SelectServer::Betanet(s) => s.connection_config,
        SelectServer::Custom(c) => Some(ConnectionConfig::Custom { url: c.url }),
    }
}

/// The send-from subtree of a server selection.
pub open spec fn ss_send_from(ss: &SelectServer) -> SendFrom {
    match ss {
        SelectServer::Testnet(s) => s.send_from,
        SelectServer::Mainnet(s) => s.send_from,
        SelectServer::Betanet(s) => s.send_from,
        SelectServer::Custom(c) => c.send_from,
    }
}

/// The endpoint a resolved mode denotes: none when offline.
pub open spec fn mode_cfg(m: &Mode) -> Option<ConnectionConfig> {
    match m {
        Mode::Network(n) => ss_cfg(&n.selected_server),
        Mode::Offline(_) => None,
    }
}

/// The send-from subtree of a resolved mode.
pub open spec fn mode_send_from(m: &Mode) -> SendFrom {
    match m {
        Mode::Network(n) => ss_send_from(&n.selected_server),
        Mode::Offline(o) => o.send_from,
    }
}

/// The resolved mode of a whole invocation.
pub open spec fn spec_mode_of(a: &Args) -> Mode {
    match a.top_level_command {
        TopLevelCommand::Transfer(c) => match c.currency_selection {
            CurrencySelection::Near(om) => om.mode,
        },
    }
}

/// The endpoint of a whole invocation.
pub open spec fn spec_cfg_of(a: &Args) -> Option<ConnectionConfig> {
    mode_cfg(&spec_mode_of(a))
}

/// The sender of a whole invocation.
pub open spec fn spec_sender_of(a: &Args) -> AccountId {
    sf_sender(&mode_send_from(&spec_mode_of(a)))
}

/// The receiver of a whole invocation.
pub open spec fn spec_receiver_of(a: &Args) -> AccountId {
    sf_receiver(&mode_send_from(&spec_mode_of(a)))
}

/// The transferred amount of a whole invocation, in smallest units.
pub open spec fn spec_deposit_of(a: &Args) -> u128 {
    sf_deposit(&mode_send_from(&spec_mode_of(a)))
}

/// The signing strategy of a whole invocation.
pub open spec fn spec_sign_of(a: &Args) -> SignTransaction {
    sf_sign(&mode_send_from(&spec_mode_of(a)))
}

impl TransferNEARTokensAction {
    /// Appends the transfer action and hands on the strategy.
    pub fn process(
        self,
        prepopulated_unsigned_transaction: TransactionSkeleton,
        connection_config: Option<ConnectionConfig>,
    ) -> (r: PreparedTransfer)
        ensures
            r.skeleton.actions@ == prepopulated_unsigned_transaction.actions@.push(
                TransferActionRecord { deposit: self.amount@ as u128 },
            ),
            r.skeleton.signer_id == prepopulated_unsigned_transaction.signer_id,
            r.skeleton.receiver_id == prepopulated_unsigned_transaction.receiver_id,
            r.skeleton.public_key == prepopulated_unsigned_transaction.public_key,
            r.skeleton.nonce == prepopulated_unsigned_transaction.nonce,
            r.skeleton.block_hash == prepopulated_unsigned_transaction.block_hash,
            r.connection_config == connection_config,
            r.sign_option == self.sign_option,
    {
        let deposit = self.amount.to_yoctonear();
        let skeleton = prepopulated_unsigned_transaction.with_transfer(deposit);
        PreparedTransfer { skeleton, connection_config, sign_option: self.sign_option }
    }
}

impl Transfer {
    /// Hands the skeleton to the amount stage's action.
    pub fn process(
        self,
        prepopulated_unsigned_transaction: TransactionSkeleton,
        connection_config: Option<ConnectionConfig>,
    ) -> (r: PreparedTransfer)
        ensures
            r.skeleton.actions@ == prepopulated_unsigned_transaction.actions@.push(
                TransferActionRecord { deposit: tr_deposit(&self) },
            ),
            r.skeleton.signer_id == prepopulated_unsigned_transaction.signer_id,
            r.skeleton.receiver_id == prepopulated_unsigned_transaction.receiver_id,
            r.skeleton.public_key == prepopulated_unsigned_transaction.public_key,
            r.skeleton.nonce == prepopulated_unsigned_transaction.nonce,
            r.skeleton.block_hash == prepopulated_unsigned_transaction.block_hash,
            r.connection_config == connection_config,
            r.sign_option == tr_sign(&self),
    {
        match self {
            Transfer::Amount(a) => a.process(prepopulated_unsigned_transaction, connection_config),
        }
    }
}

impl Receiver {
    /// Sets the receiver and hands the skeleton on.
    pub fn process(
        self,
        prepopulated_unsigned_transaction: TransactionSkeleton,
        connection_config: Option<ConnectionConfig>,
    ) -> (r: PreparedTransfer)
        ensures
            r.skeleton.receiver_id == Some(self.receiver_account_id),
            r.skeleton.signer_id == prepopulated_unsigned_transaction.signer_id,
            r.skeleton.actions@ == prepopulated_unsigned_transaction.actions@.push(
                TransferActionRecord { deposit: tr_deposit(&self.transfer) },
            ),
            r.skeleton.public_key == prepopulated_unsigned_transaction.public_key,
            r.skeleton.nonce == prepopulated_unsigned_transaction.nonce,
            r.skeleton.block_hash == prepopulated_unsigned_transaction.block_hash,
            r.connection_config == connection_config,
            r.sign_option == tr_sign(&self.transfer),
    {
        let skeleton = prepopulated_unsigned_transaction.with_receiver(self.receiver_account_id);
        self.transfer.process(skeleton, connection_config)
    }
}

impl SendTo {
    /// Hands the skeleton to the receiver stage.
    pub fn process(
        self,
        prepopulated_unsigned_transaction: TransactionSkeleton,
        connection_config: Option<ConnectionConfig>,
    ) -> (r: PreparedTransfer)
        ensures
            r.skeleton.receiver_id == Some(st_receiver(&self)),
            r.skeleton.signer_id == prepopulated_unsigned_transaction.signer_id,
            r.skeleton.actions@ == prepopulated_unsigned_transaction.actions@.push(
                TransferActionRecord { deposit: st_deposit(&self) },
            ),
            r.skeleton.public_key == prepopulated_unsigned_transaction.public_key,
            r.skeleton.nonce == prepopulated_unsigned_transaction.nonce,
            r.skeleton.block_hash == prepopulated_unsigned_transaction.block_hash,
            r.connection_config == connection_config,
            r.sign_option == st_sign(&self),
    {
        match self {
            SendTo::Receiver(rcv) => rcv.process(
                prepopulated_unsigned_transaction,
                connection_config,
            ),
        }
    }
}

impl Sender {
    /// Sets the signer and hands the skeleton on.
    pub fn process(
        self,
        prepopulated_unsigned_transaction: TransactionSkeleton,
        network_connection_config: Option<ConnectionConfig>,
    ) -> (r: PreparedTransfer)
        ensures
            r.skeleton.signer_id == Some(self.sender_account_id),
            r.skeleton.receiver_id == Some(st_receiver(&self.send_to)),
            r.skeleton.actions@ == prepopulated_unsigned_transaction.actions@.push(
                TransferActionRecord { deposit: st_deposit(&self.send_to) },
            ),
            r.skeleton.public_key == prepopulated_unsigned_transaction.public_key,
            r.skeleton.nonce == prepopulated_unsigned_transaction.nonce,
            r.skeleton.block_hash == prepopulated_unsigned_transaction.block_hash,
            r.connection_config == network_connection_config,
            r.sign_option == st_sign(&self.send_to),
    {
        let skeleton = prepopulated_unsigned_transaction.with_signer(self.sender_account_id);
        self.send_to.process(skeleton, network_connection_config)
    }
}

impl SendFrom {
    /// Hands the skeleton to the sender stage.
    pub fn process(
        self,
        prepopulated_unsigned_transaction: TransactionSkeleton,
        connection_config: Option<ConnectionConfig>,
    ) -> (r: PreparedTransfer)
        ensures
            r.skeleton.signer_id == Some(sf_sender(&self)),
            r.skeleton.receiver_id == Some(sf_receiver(&self)),
            r.skeleton.actions@ == prepopulated_unsigned_transaction.actions@.push(
                TransferActionRecord { deposit: sf_deposit(&self) },
            ),
            r.skeleton.public_key == prepopulated_unsigned_transaction.public_key,
            r.skeleton.nonce == prepopulated_unsigned_transaction.nonce,
            r.skeleton.block_hash == prepopulated_unsigned_transaction.block_hash,
            r.connection_config == connection_config,
            r.sign_option == sf_sign(&self),
    {
        match self {
            SendFrom::Sender(s) => s.process(prepopulated_unsigned_transaction, connection_config),
        }
    }
}

impl Server {
    /// Hands the skeleton on under this server's endpoint.
    pub fn process(self, prepopulated_unsigned_transaction: TransactionSkeleton) -> (r:
        PreparedTransfer)
        ensures
            r.skeleton.signer_id == Some(sf_sender(&self.send_from)),
            r.skeleton.receiver_id == Some(sf_receiver(&self.send_from)),
            r.skeleton.actions@ == prepopulated_unsigned_transaction.actions@.push(
                TransferActionRecord { deposit: sf_deposit(&self.send_from) },
            ),
            r.skeleton.public_key == prepopulated_unsigned_transaction.public_key,
            r.skeleton.nonce == prepopulated_unsigned_transaction.nonce,
            r.skeleton.block_hash == prepopulated_unsigned_transaction.block_hash,
            r.connection_config == self.connection_config,
            r.sign_option == sf_sign(&self.send_from),
    {
        self.send_from.process(prepopulated_unsigned_transaction, self.connection_config)
    }
}

impl CustomServer {
    /// Hands the skeleton on under the custom endpoint.
    pub fn process(self, prepopulated_unsigned_transaction: TransactionSkeleton) -> (r:
        PreparedTransfer)
        ensures
            r.skeleton.signer_id == Some(sf_sender(&self.send_from)),
            r.skeleton.receiver_id == Some(sf_receiver(&self.send_from)),
            r.skeleton.actions@ == prepopulated_unsigned_transaction.actions@.push(
                TransferActionRecord { deposit: sf_deposit(&self.send_from) },
            ),
            r.skeleton.public_key == prepopulated_unsigned_transaction.public_key,
            r.skeleton.nonce == prepopulated_unsigned_transaction.nonce,
            r.skeleton.block_hash == prepopulated_unsigned_transaction.block_hash,
            r.connection_config == Some(ConnectionConfig::Custom { url: self.url }),
            r.sign_option == sf_sign(&self.send_from),
    {
        let connection_config = Some(ConnectionConfig::from_custom_url(&self.url));
        self.send_from.process(prepopulated_unsigned_transaction, connection_config)
    }
}

impl SelectServer {
    /// Hands the skeleton to the selected server.
    pub fn process(self, prepopulated_unsigned_transaction: TransactionSkeleton) -> (r:
        PreparedTransfer)
        ensures
            r.skeleton.signer_id == Some(sf_sender(&ss_send_from(&self))),
            r.skeleton.receiver_id == Some(sf_receiver(&ss_send_from(&self))),
            r.skeleton.actions@ == prepopulated_unsigned_transaction.actions@.push(
                TransferActionRecord { deposit: sf_deposit(&ss_send_from(&self)) },
            ),
            r.skeleton.public_key == prepopulated_unsigned_transaction.public_key,
            r.skeleton.nonce == prepopulated_unsigned_transaction.nonce,
            r.skeleton.block_hash == prepopulated_unsigned_transaction.block_hash,
            r.connection_config == ss_cfg(&self),
            r.sign_option == sf_sign(&ss_send_from(&self)),
    {
        match self {
            SelectServer::Testnet(server) => server.process(prepopulated_unsigned_transaction),
            SelectServer::Mainnet(server) => server.process(prepopulated_unsigned_transaction),
            SelectServer::Betanet(server) => server.process(prepopulated_unsigned_transaction),
            SelectServer::Custom(server) => server.process(prepopulated_unsigned_transaction),
        }
    }
}

impl NetworkArgs {
    /// Hands the skeleton to the server stage.
    pub fn process(self, prepopulated_unsigned_transaction: TransactionSkeleton) -> (r:
        PreparedTransfer)
        ensures
            r.skeleton.signer_id == Some(sf_sender(&ss_send_from(&self.selected_server))),
            r.skeleton.receiver_id == Some(sf_receiver(&ss_send_from(&self.selected_server))),
            r.skeleton.actions@ == prepopulated_unsigned_transaction.actions@.push(
                TransferActionRecord { deposit: sf_deposit(&ss_send_from(&self.selected_server)) },
            ),
            r.skeleton.public_key == prepopulated_unsigned_transaction.public_key,
            r.skeleton.nonce == prepopulated_unsigned_transaction.nonce,
            r.skeleton.block_hash == prepopulated_unsigned_transaction.block_hash,
            r.connection_config == ss_cfg(&self.selected_server),
            r.sign_option == sf_sign(&ss_send_from(&self.selected_server)),
    {
        self.selected_server.process(prepopulated_unsigned_transaction)
    }
}

impl OfflineArgs {
    /// Hands the skeleton on with no endpoint at all.
    pub fn process(self, prepopulated_unsigned_transaction: TransactionSkeleton) -> (r:
        PreparedTransfer)
        ensures
            r.skeleton.signer_id == Some(sf_sender(&self.send_from)),
            r.skeleton.receiver_id == Some(sf_receiver(&self.send_from)),
            r.skeleton.actions@ == prepopulated_unsigned_transaction.actions@.push(
                TransferActionRecord { deposit: sf_deposit(&self.send_from) },
            ),
            r.skeleton.public_key == prepopulated_unsigned_transaction.public_key,
            r.skeleton.nonce == prepopulated_unsigned_transaction.nonce,
            r.skeleton.block_hash == prepopulated_unsigned_transaction.block_hash,
            r.connection_config is None,
            r.sign_option == sf_sign(&self.send_from),
    {
        let selected_server_url = None;
        self.send_from.process(prepopulated_unsigned_transaction, selected_server_url)
    }
}

impl OperationMode {
    /// Hands the skeleton to the chosen mode.
    pub fn process(self, prepopulated_unsigned_transaction: TransactionSkeleton) -> (r:
        PreparedTransfer)
        ensures
            r.skeleton.signer_id == Some(sf_sender(&mode_send_from(&self.mode))),
            r.skeleton.receiver_id == Some(sf_receiver(&mode_send_from(&self.mode))),
            r.skeleton.actions@ == prepopulated_unsigned_transaction.actions@.push(
                TransferActionRecord { deposit: sf_deposit(&mode_send_from(&self.mode)) },
            ),
            r.skeleton.public_key == prepopulated_unsigned_transaction.public_key,
            r.skeleton.nonce == prepopulated_unsigned_transaction.nonce,
            r.skeleton.block_hash == prepopulated_unsigned_transaction.block_hash,
            r.connection_config == mode_cfg(&self.mode),
            r.sign_option == sf_sign(&mode_send_from(&self.mode)),
    {
        match self.mode {
            Mode::Network(n) => n.process(prepopulated_unsigned_transaction),
            Mode::Offline(o) => o.process(prepopulated_unsigned_transaction),
        }
    }
}

impl Currency {
    /// Hands the skeleton to the operation mode.
    pub fn process(self, prepopulated_unsigned_transaction: TransactionSkeleton) -> (r:
        PreparedTransfer)
        ensures
            ({
                let sf = mode_send_from(
                    &match self.currency_selection {
                        CurrencySelection::Near(om) => om.mode,
                    },
                );
                &&& r.skeleton.signer_id == Some(sf_sender(&sf))
                &&& r.skeleton.receiver_id == Some(sf_receiver(&sf))
                &&& r.skeleton.actions@ == prepopulated_unsigned_transaction.actions@.push(
                    TransferActionRecord { deposit: sf_deposit(&sf) },
                )
                &&& r.skeleton.public_key == prepopulated_unsigned_transaction.public_key
                &&& r.skeleton.nonce == prepopulated_unsigned_transaction.nonce
                &&& r.skeleton.block_hash == prepopulated_unsigned_transaction.block_hash
                &&& r.connection_config == mode_cfg(
                    &match self.currency_selection {
                        CurrencySelection::Near(om) => om.mode,
                    },
                )
                &&& r.sign_option == sf_sign(&sf)
            }),
    {
        match self.currency_selection {
            CurrencySelection::Near(om) => om.process(prepopulated_unsigned_transaction),
        }
    }
}

impl TopLevelCommand {
    /// Starts from the empty record and hands it down the tree.
    pub fn process(self) -> (r: PreparedTransfer)
        ensures
            ({
                let a = Args { top_level_command: self };
                &&& r.skeleton.signer_id == Some(spec_sender_of(&a))
                &&& r.skeleton.receiver_id == Some(spec_receiver_of(&a))
                &&& r.skeleton.actions@ =~= seq![
                    TransferActionRecord { deposit: spec_deposit_of(&a) },
                ]
                &&& r.skeleton.public_key is None
                &&& r.skeleton.nonce is None
                &&& r.skeleton.block_hash is None
                &&& r.connection_config == spec_cfg_of(&a)
                &&& r.sign_option == spec_sign_of(&a)
            }),
    {
        let unsigned_transaction = TransactionSkeleton::new_empty();
        let r = match self {
            TopLevelCommand::Transfer(currency) => currency.process(unsigned_transaction),
        };
        proof {
            assert(r.skeleton.actions@ =~= Seq::<TransferActionRecord>::empty().push(
                r.skeleton.actions@.last(),
            ));
        }
        r
    }
}

impl Args {
    /// Folds the whole resolved invocation into a prepared transfer whose
    /// skeleton is ready for a signing strategy.
    pub fn process(self) -> (r: PreparedTransfer)
        ensures
            r.skeleton.signer_id == Some(spec_sender_of(&self)),
            r.skeleton.receiver_id == Some(spec_receiver_of(&self)),
            r.skeleton.actions@ =~= seq![TransferActionRecord { deposit: spec_deposit_of(&self) }],
            r.skeleton.public_key is None,
            r.skeleton.nonce is None,
            r.skeleton.block_hash is None,
            r.connection_config == spec_cfg_of(&self),
            r.sign_option == spec_sign_of(&self),
            r.skeleton.ready_for_signing(),
    {
        self.top_level_command.process()
    }
}


impl SignTransaction {
    /// The submission choice the strategy carries; the manual strategy
    /// has none, being display-only by nature.
    pub fn submit_of(&self) -> (r: Option<Submit>)
        ensures
            r == (match self {
                SignTransaction::SignPrivateKey(p) => Some(p.submit),
                SignTransaction::SignWithKeychain(k) => Some(k.submit),
                SignTransaction::SignWithLedger(l) => Some(l.submit),
                SignTransaction::SignManually(_) => None::<Submit>,
            }),
    {
        match self {
            SignTransaction::SignPrivateKey(p) => Some(p.submit),
            SignTransaction::SignWithKeychain(k) => Some(k.submit),
            SignTransaction::SignWithLedger(l) => Some(l.submit),
            SignTransaction::SignManually(_) => None,
        }
    }
}

} // verus!

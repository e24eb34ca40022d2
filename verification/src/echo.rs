//! The echo trail: a finished run rendered back as the token sequence of
//! an equivalent non-interactive invocation, the decoder that reads such
//! a sequence back, and the single command line shown at exit.

use vstd::prelude::*;

use crate::account::{valid_account_id, AccountId};
use crate::amount::{spec_format_amount, spec_parse_amount, NearBalance};
use crate::endpoint::{valid_url, AvailableRpcServerUrl};
use crate::error::{Stage, TransferError};
use crate::pipeline::{
    Args, CliArgs, CliCurrency, CliCurrencySelection, CliMode, CliNetworkArgs, CliOfflineArgs,
    CliOperationMode, CliReceiver, CliSelectServer, CliSendFrom, CliSendTo, CliSender, CliServer,
    CliCustomServer, CliSignKeychain, CliSignLedger, CliSignManually, CliSignPrivateKey,
    CliSignTransaction, CliTopLevelCommand, CliTransfer, CliTransferNEARTokensAction,
    CurrencySelection, Mode, SelectServer, SendFrom, SendTo, SignTransaction, Submit,
    TopLevelCommand,
};
use crate::text::{all_digits, dec_str, dec_value};
use crate::trusted::{shell_join, shell_joined};

verus! {

/// The tokens of a submission choice.
pub open spec fn spec_encode_submit(s: Submit) -> Seq<Seq<char>> {
    match s {
        Submit::Send => seq!["send"@],
        Submit::Display => seq!["display"@],
    }
}

/// The tokens of a resolved signing strategy.
pub open spec fn spec_encode_sign(s: &SignTransaction) -> Seq<Seq<char>> {
    match s {
        SignTransaction::SignPrivateKey(p) => seq![
            "sign-private-key"@,
            p.signer_public_key@,
            p.signer_private_key@,
            dec_str(p.nonce as nat),
            p.block_hash@,
        ] + spec_encode_submit(p.submit),
        SignTransaction::SignWithKeychain(k) => seq!["sign-with-keychain"@] + spec_encode_submit(
            k.submit,
        ),
        SignTransaction::SignWithLedger(l) => seq!["sign-with-ledger"@, l.seed_phrase_hd_path@]
            + spec_encode_submit(l.submit),
        SignTransaction::SignManually(m) => seq![
            "sign-manually"@,
            m.signer_public_key@,
            dec_str(m.nonce as nat),
            m.block_hash@,
        ],
    }
}

/// The tokens naming the mode and, online, the server.
pub open spec fn spec_encode_mode_prefix(m: &Mode) -> Seq<Seq<char>> {
    match m {
        Mode::Offline(_) => seq!["offline"@],
        Mode::Network(n) => match n.selected_server {
            SelectServer::Testnet(_) => seq!["network"@, "testnet"@],
            SelectServer::Mainnet(_) => seq!["network"@, "mainnet"@],
            SelectServer::Betanet(_) => seq!["network"@, "betanet"@],
            SelectServer::Custom(c) => seq!["network"@, "custom"@, c.url@],
        },
    }
}

/// The full token sequence that echoes a resolved invocation: one group
/// per resolved stage, in stage order.
#[verifier::opaque]
pub open spec fn spec_encode_args(a: &Args) -> Seq<Seq<char>> {
    let m = crate::pipeline::spec_mode_of(a);
    seq!["transfer"@, "near"@] + spec_encode_mode_prefix(&m) + seq![
        "sender"@,
        crate::pipeline::spec_sender_of(a)@,
        "receiver"@,
        crate::pipeline::spec_receiver_of(a)@,
        "amount"@,
        spec_format_amount(crate::pipeline::spec_deposit_of(a)),
    ] + spec_encode_sign(&crate::pipeline::spec_sign_of(a))
}

/// Appends one token.
fn push_token(out: &mut Vec<String>, t: &str)
    ensures
        final(out).deep_view() == old(out).deep_view() + seq![t@],
{
    let ghost base = out.deep_view();
    out.push(String::from_str(t));
    proof {
        assert(out.deep_view() =~~= base + seq![t@]);
    }
}

/// Appends one owned token.
fn push_string(out: &mut Vec<String>, t: String)
    ensures
        final(out).deep_view() == old(out).deep_view() + seq![t@],
{
    let ghost base = out.deep_view();
    let ghost tv = t@;
    out.push(t);
    proof {
        assert(out.deep_view() =~~= base + seq![tv]);
    }
}

/// Appends the submission choice's token.
fn push_submit(out: &mut Vec<String>, s: Submit)
    ensures
        final(out).deep_view() == old(out).deep_view() + spec_encode_submit(s),
{
    let ghost base = out.deep_view();
    match s {
        Submit::Send => push_token(out, "send"),
        Submit::Display => push_token(out, "display"),
    }
    proof {
        assert(out.deep_view() =~~= base + spec_encode_submit(s));
    }
}

/// Appends the decimal notation of a nonce as one token.
fn push_nonce(out: &mut Vec<String>, nonce: u64)
    ensures
        final(out).deep_view() == old(out).deep_view() + seq![dec_str(nonce as nat)],
{
    let ghost base = out.deep_view();
    let mut t = String::new();
    crate::text::append_dec_u128(&mut t, nonce as u128);
    push_string(out, t);
    proof {
        assert(out.deep_view() =~~= base + seq![dec_str(nonce as nat)]);
    }
}

/// Appends the mode tokens and hands back the subtree below them.
fn push_mode_prefix<'a>(out: &mut Vec<String>, m: &'a Mode) -> (sf: &'a SendFrom)
    ensures
        final(out).deep_view() == old(out).deep_view() + spec_encode_mode_prefix(m),
        *sf == crate::pipeline::mode_send_from(m),
{
    let ghost base = out.deep_view();
    match m {
        Mode::Offline(o) => {
            push_token(out, "offline");
            proof {
                assert(out.deep_view() =~~= base + spec_encode_mode_prefix(m));
            }
            &o.send_from
        },
        Mode::Network(n) => {
            push_token(out, "network");
            match &n.selected_server {
                SelectServer::Testnet(s) => {
                    push_token(out, "testnet");
                    proof {
                        assert(out.deep_view() =~~= base + spec_encode_mode_prefix(m));
                    }
                    &s.send_from
                },
                SelectServer::Mainnet(s) => {
                    push_token(out, "mainnet");
                    proof {
                        assert(out.deep_view() =~~= base + spec_encode_mode_prefix(m));
                    }
                    &s.send_from
                },
                SelectServer::Betanet(s) => {
                    push_token(out, "betanet");
                    proof {
                        assert(out.deep_view() =~~= base + spec_encode_mode_prefix(m));
                    }
                    &s.send_from
                },
                SelectServer::Custom(c) => {
                    push_token(out, "custom");
                    push_token(out, c.url.as_text());
                    proof {
                        assert(out.deep_view() =~~= base + spec_encode_mode_prefix(m));
                    }
                    &c.send_from
                },
            }
        },
    }
}

/// Appends the signing strategy's tokens.
fn push_sign(out: &mut Vec<String>, s: &SignTransaction)
    ensures
        final(out).deep_view() == old(out).deep_view() + spec_encode_sign(s),
{
    let ghost base = out.deep_view();
    match s {
        SignTransaction::SignPrivateKey(p) => {
            push_token(out, "sign-private-key");
            push_token(out, p.signer_public_key.as_text());
            push_token(out, p.signer_private_key.as_text());
            proof {
                assert(out.deep_view() =~~= base + seq![
                    "sign-private-key"@,
                    p.signer_public_key@,
                    p.signer_private_key@,
                ]);
            }
            push_nonce(out, p.nonce);
            push_token(out, p.block_hash.as_text());
            proof {
                assert(out.deep_view() =~~= base + seq![
                    "sign-private-key"@,
                    p.signer_public_key@,
                    p.signer_private_key@,
                    dec_str(p.nonce as nat),
                    p.block_hash@,
                ]);
            }
            push_submit(out, p.submit);
            proof {
                assert(out.deep_view() =~~= base + spec_encode_sign(s));
            }
        },
        SignTransaction::SignWithKeychain(k) => {
            push_token(out, "sign-with-keychain");
            push_submit(out, k.submit);
            proof {
                assert(out.deep_view() =~~= base + spec_encode_sign(s));
            }
        },
        SignTransaction::SignWithLedger(l) => {
            push_token(out, "sign-with-ledger");
            push_token(out, l.seed_phrase_hd_path.as_str());
            proof {
                assert(out.deep_view() =~~= base + seq![
                    "sign-with-ledger"@,
                    l.seed_phrase_hd_path@,
                ]);
            }
            push_submit(out, l.submit);
            proof {
                assert(out.deep_view() =~~= base + spec_encode_sign(s));
            }
        },
        SignTransaction::SignManually(m) => {
            push_token(out, "sign-manually");
            push_token(out, m.signer_public_key.as_text());
            push_nonce(out, m.nonce);
            push_token(out, m.block_hash.as_text());
            proof {
                assert(out.deep_view() =~~= base + spec_encode_sign(s));
            }
        },
    }
}

/// Renders the echo trail of a resolved invocation: the token sequence of
/// the equivalent non-interactive invocation.
pub fn encode_invocation(args: &Args) -> (r: Vec<String>)
    ensures
        r.deep_view() == spec_encode_args(args),
{
    let mut out: Vec<String> = Vec::new();
    push_token(&mut out, "transfer");
    push_token(&mut out, "near");
    let TopLevelCommand::Transfer(cur) = &args.top_level_command;
    let CurrencySelection::Near(om) = &cur.currency_selection;
    proof {
        assert(out.deep_view() =~~= seq!["transfer"@, "near"@]);
    }
    let sf = push_mode_prefix(&mut out, &om.mode);
    let SendFrom::Sender(snd) = sf;
    push_token(&mut out, "sender");
    push_token(&mut out, snd.sender_account_id.as_text());
    let SendTo::Receiver(rcv) = &snd.send_to;
    push_token(&mut out, "receiver");
    push_token(&mut out, rcv.receiver_account_id.as_text());
    let crate::pipeline::Transfer::Amount(act) = &rcv.transfer;
    push_token(&mut out, "amount");
    push_string(&mut out, act.amount.to_text());
    proof {
        assert(out.deep_view() =~~= seq!["transfer"@, "near"@] + spec_encode_mode_prefix(
            &crate::pipeline::spec_mode_of(args),
        ) + seq![
            "sender"@,
            crate::pipeline::spec_sender_of(args)@,
            "receiver"@,
            crate::pipeline::spec_receiver_of(args)@,
            "amount"@,
            spec_format_amount(crate::pipeline::spec_deposit_of(args)),
        ]);
    }
    push_sign(&mut out, &act.sign_option);
    proof {
        reveal(spec_encode_args);
        assert(out.deep_view() =~~= spec_encode_args(args));
    }
    out
}

/// The single console line shown at exit: the echoed invocation joined
/// into one shell-safe command line.
pub fn echo_command_line(args: &Args) -> (r: String)
    ensures
        r@ == shell_joined(spec_encode_args(args)),
{
    let tokens = encode_invocation(args);
    shell_join(&tokens)
}


// ---------------------------------------------------------------------
// Reading an echoed invocation back.
// ---------------------------------------------------------------------

/// A token that names a submission choice.
pub open spec fn wf_submit_tok(t: Seq<char>) -> bool {
    t == "send"@ || t == "display"@
}

/// A token that is a nonce in decimal.
pub open spec fn wf_nonce_tok(t: Seq<char>) -> bool {
    t.len() > 0 && all_digits(t) && dec_value(t) <= u64::MAX
}

/// The sign-option tokens of a complete invocation.
pub open spec fn wf_sign_tokens(g: Seq<Seq<char>>) -> bool {
    if g.len() == 0 {
        false
    } else if g[0] == "sign-private-key"@ {
        &&& g.len() == 6
        &&& crate::trusted::parseable_public_key(g[1])
        &&& crate::trusted::usable_secret_key(g[2])
        &&& wf_nonce_tok(g[3])
        &&& crate::trusted::parseable_block_hash(g[4])
        &&& wf_submit_tok(g[5])
    } else if g[0] == "sign-with-keychain"@ {
        g.len() == 2 && wf_submit_tok(g[1])
    } else if g[0] == "sign-with-ledger"@ {
        g.len() == 3 && wf_submit_tok(g[2])
    } else if g[0] == "sign-manually"@ {
        &&& g.len() == 4
        &&& crate::trusted::parseable_public_key(g[1])
        &&& wf_nonce_tok(g[2])
        &&& crate::trusted::parseable_block_hash(g[3])
    } else {
        false
    }
}

/// The sender-to-sign tokens of a complete invocation.
pub open spec fn wf_tail_tokens(tl: Seq<Seq<char>>) -> bool {
    &&& tl.len() >= 6
    &&& tl[0] == "sender"@
    &&& valid_account_id(tl[1])
    &&& tl[2] == "receiver"@
    &&& valid_account_id(tl[3])
    &&& tl[4] == "amount"@
    &&& spec_parse_amount(tl[5]) is Some
    &&& wf_sign_tokens(tl.skip(6))
}

/// The token sequences that name a complete invocation.
pub open spec fn spec_tokens_wf(tv: Seq<Seq<char>>) -> bool {
    &&& tv.len() >= 3
    &&& tv[0] == "transfer"@
    &&& tv[1] == "near"@
    &&& if tv[2] == "offline"@ {
        wf_tail_tokens(tv.skip(3))
    } else if tv[2] == "network"@ {
        tv.len() >= 4 && if tv[3] == "custom"@ {
            tv.len() >= 5 && valid_url(tv[4]) && wf_tail_tokens(tv.skip(5))
        } else {
            (tv[3] == "testnet"@ || tv[3] == "mainnet"@ || tv[3] == "betanet"@) && wf_tail_tokens(
                tv.skip(4),
            )
        }
    } else {
        false
    }
}

/// The submission choice a token names.
pub open spec fn submit_of_tok(t: Seq<char>) -> Submit {
    if t == "send"@ {
        Submit::Send
    } else {
        Submit::Display
    }
}

/// The returned sign-option subtree carries exactly what its tokens say.
pub open spec fn sign_matches_tokens(s: CliSignTransaction, g: Seq<Seq<char>>) -> bool {
    match s {
        CliSignTransaction::SignPrivateKey(p) => {
            &&& g.len() == 6
            &&& g[0] == "sign-private-key"@
            &&& (p.signer_public_key matches Some(pk) && pk@ == g[1])
            &&& (p.signer_private_key matches Some(sk) && sk@ == g[2])
            &&& (p.nonce matches Some(n) && n as nat == dec_value(g[3]))
            &&& (p.block_hash matches Some(h) && h@ == g[4])
            &&& p.submit == Some(submit_of_tok(g[5]))
        },
        CliSignTransaction::SignWithKeychain(k) => {
            &&& g.len() == 2
            &&& g[0] == "sign-with-keychain"@
            &&& k.submit == Some(submit_of_tok(g[1]))
        },
        CliSignTransaction::SignWithLedger(l) => {
            &&& g.len() == 3
            &&& g[0] == "sign-with-ledger"@
            &&& (l.seed_phrase_hd_path matches Some(p) && p@ == g[1])
            &&& l.submit == Some(submit_of_tok(g[2]))
        },
        CliSignTransaction::SignManually(m) => {
            &&& g.len() == 4
            &&& g[0] == "sign-manually"@
            &&& (m.signer_public_key matches Some(pk) && pk@ == g[1])
            &&& (m.nonce matches Some(n) && n as nat == dec_value(g[2]))
            &&& (m.block_hash matches Some(h) && h@ == g[3])
        },
    }
}

/// The returned sender subtree carries exactly what its tokens say.
pub open spec fn send_from_matches_tokens(sf: CliSendFrom, tl: Seq<Seq<char>>) -> bool {
    match sf {
        CliSendFrom::Sender(snd) => {
            &&& (snd.sender_account_id matches Some(s) && s@ == tl[1])
            &&& snd.send_to matches Some(CliSendTo::Receiver(rcv))
            &&& (match snd.send_to {
                Some(CliSendTo::Receiver(rcv)) => {
                    &&& (rcv.receiver_account_id matches Some(r) && r@ == tl[3])
                    &&& (match rcv.transfer {
                        Some(CliTransfer::Amount(act)) => {
                            &&& (act.amount matches Some(a) && Some(a@ as u128)
                                == spec_parse_amount(tl[5]))
                            &&& (act.sign_option matches Some(so) && sign_matches_tokens(
                                so,
                                tl.skip(6),
                            ))
                        },
                        _ => false,
                    })
                },
                _ => false,
            })
        },
    }
}

/// The returned tree carries exactly what the tokens say.
pub open spec fn cli_matches_tokens(cli: &CliArgs, tv: Seq<Seq<char>>) -> bool {
    match cli.top_level_command {
        Some(
            CliTopLevelCommand::Transfer(
                CliCurrency {
                    currency_selection: Some(
                        CliCurrencySelection::Near(CliOperationMode { mode: Some(m) }),
                    ),
                },
            ),
        ) => match m {
            CliMode::Offline(CliOfflineArgs { send_from: Some(sf) }) => {
                tv[2] == "offline"@ && send_from_matches_tokens(sf, tv.skip(3))
            },
            CliMode::Network(CliNetworkArgs { selected_server: Some(ss) }) => {
                tv[2] == "network"@ && match ss {
                    CliSelectServer::Testnet(CliServer { send_from: Some(sf) }) => {
                        tv[3] == "testnet"@ && send_from_matches_tokens(sf, tv.skip(4))
                    },
                    CliSelectServer::Mainnet(CliServer { send_from: Some(sf) }) => {
                        tv[3] == "mainnet"@ && send_from_matches_tokens(sf, tv.skip(4))
                    },
                    CliSelectServer::Betanet(CliServer { send_from: Some(sf) }) => {
                        tv[3] == "betanet"@ && send_from_matches_tokens(sf, tv.skip(4))
                    },
                    CliSelectServer::Custom(c) => {
                        &&& tv[3] == "custom"@
                        &&& (c.url matches Some(u) && u@ == tv[4])
                        &&& (c.send_from matches Some(sf) && send_from_matches_tokens(
                            sf,
                            tv.skip(5),
                        ))
                    },
                    _ => false,
                }
            },
            _ => false,
        },
        _ => false,
    }
}

/// Reads a submission-choice token.
fn decode_submit(t: &String) -> (r: Option<Submit>)
    ensures
        r is Some <==> wf_submit_tok(t@),
        r matches Some(s) ==> s == submit_of_tok(t@),
{
    if crate::text::str_eq(t.as_str(), "send") {
        Some(Submit::Send)
    } else if crate::text::str_eq(t.as_str(), "display") {
        Some(Submit::Display)
    } else {
        None
    }
}

/// Reads a nonce token.
fn decode_nonce(t: &String) -> (r: Option<u64>)
    ensures
        r is Some <==> wf_nonce_tok(t@),
        r matches Some(n) ==> n as nat == dec_value(t@),
{
    let n = t.as_str().unicode_len();
    if n == 0 {
        return None;
    }
    proof {
        assert(t@.subrange(0, t@.len() as int) =~= t@);
    }
    match crate::amount::parse_digits(t.as_str(), 0, n) {
        Some(v) => {
            if v <= 0xffff_ffff_ffff_ffff {
                Some(v as u64)
            } else {
                None
            }
        },
        None => None,
    }
}

/// Reads the sign-option tokens at `g` (the tail of the invocation).
fn decode_sign(tokens: &Vec<String>, g: usize) -> (r: Option<CliSignTransaction>)
    requires
        g <= tokens@.len(),
    ensures
        r is Some <==> wf_sign_tokens(tokens.deep_view().skip(g as int)),
        r matches Some(s) ==> sign_matches_tokens(s, tokens.deep_view().skip(g as int)),
{
    let ghost gv = tokens.deep_view().skip(g as int);
    proof {
        assert(forall|j: int|
            0 <= j < gv.len() ==> gv[j] == #[trigger] tokens.deep_view()[g + j]);
        assert(forall|j: int|
            0 <= j < tokens.deep_view().len() ==> #[trigger] tokens.deep_view()[j] == tokens@[j]@);
    }
    let n = tokens.len();
    if g >= n {
        return None;
    }
    if crate::text::str_eq(tokens[g].as_str(), "sign-private-key") {
        if n - g != 6 {
            return None;
        }
        let pk = match crate::types::PublicKey::parse(tokens[g + 1].as_str()) {
            Some(v) => v,
            None => {
                return None;
            },
        };
        let sk = match crate::types::SecretKey::parse(tokens[g + 2].as_str()) {
            Some(v) => v,
            None => {
                return None;
            },
        };
        let nonce = match decode_nonce(&tokens[g + 3]) {
            Some(v) => v,
            None => {
                return None;
            },
        };
        let bh = match crate::types::CryptoHash::parse(tokens[g + 4].as_str()) {
            Some(v) => v,
            None => {
                return None;
            },
        };
        let submit = match decode_submit(&tokens[g + 5]) {
            Some(v) => v,
            None => {
                return None;
            },
        };
        Some(
            CliSignTransaction::SignPrivateKey(
                CliSignPrivateKey {
                    signer_public_key: Some(pk),
                    signer_private_key: Some(sk),
                    nonce: Some(nonce),
                    block_hash: Some(bh),
                    submit: Some(submit),
                },
            ),
        )
    } else if crate::text::str_eq(tokens[g].as_str(), "sign-with-keychain") {
        if n - g != 2 {
            return None;
        }
        let submit = match decode_submit(&tokens[g + 1]) {
            Some(v) => v,
            None => {
                return None;
            },
        };
        Some(CliSignTransaction::SignWithKeychain(CliSignKeychain { submit: Some(submit) }))
    } else if crate::text::str_eq(tokens[g].as_str(), "sign-with-ledger") {
        if n - g != 3 {
            return None;
        }
        let path = String::from_str(tokens[g + 1].as_str());
        let submit = match decode_submit(&tokens[g + 2]) {
            Some(v) => v,
            None => {
                return None;
            },
        };
        Some(
            CliSignTransaction::SignWithLedger(
                CliSignLedger { seed_phrase_hd_path: Some(path), submit: Some(submit) },
            ),
        )
    } else if crate::text::str_eq(tokens[g].as_str(), "sign-manually") {
        if n - g != 4 {
            return None;
        }
        let pk = match crate::types::PublicKey::parse(tokens[g + 1].as_str()) {
            Some(v) => v,
            None => {
                return None;
            },
        };
        let nonce = match decode_nonce(&tokens[g + 2]) {
            Some(v) => v,
            None => {
                return None;
            },
        };
        let bh = match crate::types::CryptoHash::parse(tokens[g + 3].as_str()) {
            Some(v) => v,
            None => {
                return None;
            },
        };
        Some(
            CliSignTransaction::SignManually(
                CliSignManually {
                    signer_public_key: Some(pk),
                    nonce: Some(nonce),
                    block_hash: Some(bh),
                },
            ),
        )
    } else {
        None
    }
}

/// Reads the sender-to-sign tokens at `tl`.
fn decode_tail(tokens: &Vec<String>, tl: usize) -> (r: Option<CliSendFrom>)
    requires
        tl <= tokens@.len(),
    ensures
        r is Some <==> wf_tail_tokens(tokens.deep_view().skip(tl as int)),
        r matches Some(sf) ==> send_from_matches_tokens(sf, tokens.deep_view().skip(tl as int)),
{
    let ghost tv = tokens.deep_view().skip(tl as int);
    proof {
        assert(forall|j: int|
            0 <= j < tv.len() ==> tv[j] == #[trigger] tokens.deep_view()[tl + j]);
        assert(forall|j: int|
            0 <= j < tokens.deep_view().len() ==> #[trigger] tokens.deep_view()[j] == tokens@[j]@);
    }
    let n = tokens.len();
    if n - tl < 6 {
        return None;
    }
    if !crate::text::str_eq(tokens[tl].as_str(), "sender") {
        return None;
    }
    let sender = match AccountId::parse(tokens[tl + 1].as_str()) {
        Some(v) => v,
        None => {
            return None;
        },
    };
    if !crate::text::str_eq(tokens[tl + 2].as_str(), "receiver") {
        return None;
    }
    let receiver = match AccountId::parse(tokens[tl + 3].as_str()) {
        Some(v) => v,
        None => {
            return None;
        },
    };
    if !crate::text::str_eq(tokens[tl + 4].as_str(), "amount") {
        return None;
    }
    let amount = match NearBalance::parse(tokens[tl + 5].as_str()) {
        Some(v) => v,
        None => {
            return None;
        },
    };
    let sign_option = match decode_sign(tokens, tl + 6) {
        Some(v) => v,
        None => {
            proof {
                assert(tokens.deep_view().skip(tl + 6) =~= tv.skip(6));
            }
            return None;
        },
    };
    proof {
        assert(tokens.deep_view().skip(tl + 6) =~= tv.skip(6));
    }
    Some(
        CliSendFrom::Sender(
            CliSender {
                sender_account_id: Some(sender),
                send_to: Some(
                    CliSendTo::Receiver(
                        CliReceiver {
                            receiver_account_id: Some(receiver),
                            transfer: Some(
                                CliTransfer::Amount(
                                    CliTransferNEARTokensAction {
                                        amount: Some(amount),
                                        sign_option: Some(sign_option),
                                    },
                                ),
                            ),
                        },
                    ),
                ),
            },
        ),
    )
}

/// Reads a complete echoed invocation back into a fully supplied command
/// tree: accepted exactly on the token sequences of the invocation
/// language, and then carrying exactly what the tokens say.
pub fn decode_invocation(tokens: &Vec<String>) -> (r: Result<CliArgs, TransferError>)
    ensures
        r is Ok <==> spec_tokens_wf(tokens.deep_view()),
        r matches Ok(cli) ==> cli_matches_tokens(&cli, tokens.deep_view()),
{
    let ghost tv = tokens.deep_view();
    proof {
        assert(forall|j: int|
            0 <= j < tokens.deep_view().len() ==> #[trigger] tokens.deep_view()[j] == tokens@[j]@);
    }
    let n = tokens.len();
    if n < 3 {
        return Err(TransferError::MissingInput { stage: Stage::Command });
    }
    if !crate::text::str_eq(tokens[0].as_str(), "transfer") || !crate::text::str_eq(
        tokens[1].as_str(),
        "near",
    ) {
        return Err(TransferError::InvalidInput { stage: Stage::Command });
    }
    let mode: CliMode;
    if crate::text::str_eq(tokens[2].as_str(), "offline") {
        let sf = match decode_tail(tokens, 3) {
            Some(v) => v,
            None => {
                return Err(TransferError::InvalidInput { stage: Stage::Sender });
            },
        };
        mode = CliMode::Offline(CliOfflineArgs { send_from: Some(sf) });
    } else if crate::text::str_eq(tokens[2].as_str(), "network") {
        if n < 4 {
            return Err(TransferError::MissingInput { stage: Stage::Server });
        }
        if crate::text::str_eq(tokens[3].as_str(), "custom") {
            if n < 5 {
                return Err(TransferError::MissingInput { stage: Stage::ServerUrl });
            }
            let url = match AvailableRpcServerUrl::parse(tokens[4].as_str()) {
                Some(v) => v,
                None => {
                    return Err(TransferError::InvalidInput { stage: Stage::ServerUrl });
                },
            };
            let sf = match decode_tail(tokens, 5) {
                Some(v) => v,
                None => {
                    return Err(TransferError::InvalidInput { stage: Stage::Sender });
                },
            };
            mode = CliMode::Network(
                CliNetworkArgs {
                    selected_server: Some(
                        CliSelectServer::Custom(
                            CliCustomServer { url: Some(url), send_from: Some(sf) },
                        ),
                    ),
                },
            );
        } else {
            let named: CliSelectServer;
            if crate::text::str_eq(tokens[3].as_str(), "testnet") {
                let sf = match decode_tail(tokens, 4) {
                    Some(v) => v,
                    None => {
                        return Err(TransferError::InvalidInput { stage: Stage::Sender });
                    },
                };
                named = CliSelectServer::Testnet(CliServer { send_from: Some(sf) });
            } else if crate::text::str_eq(tokens[3].as_str(), "mainnet") {
                let sf = match decode_tail(tokens, 4) {
                    Some(v) => v,
                    None => {
                        return Err(TransferError::InvalidInput { stage: Stage::Sender });
                    },
                };
                named = CliSelectServer::Mainnet(CliServer { send_from: Some(sf) });
            } else if crate::text::str_eq(tokens[3].as_str(), "betanet") {
                let sf = match decode_tail(tokens, 4) {
                    Some(v) => v,
                    None => {
                        return Err(TransferError::InvalidInput { stage: Stage::Sender });
                    },
                };
                named = CliSelectServer::Betanet(CliServer { send_from: Some(sf) });
            } else {
                return Err(TransferError::InvalidInput { stage: Stage::Server });
            }
            mode = CliMode::Network(CliNetworkArgs { selected_server: Some(named) });
        }
    } else {
        return Err(TransferError::InvalidInput { stage: Stage::Mode });
    }
    Ok(
        CliArgs {
            top_level_command: Some(
                CliTopLevelCommand::Transfer(
                    CliCurrency {
                        currency_selection: Some(
                            CliCurrencySelection::Near(CliOperationMode { mode: Some(mode) }),
                        ),
                    },
                ),
            ),
        },
    )
}

} // verus!

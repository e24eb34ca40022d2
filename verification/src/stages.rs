//! The per-stage resolution rule: a supplied value is validated and, if
//! it passes, accepted; an invalid or missing value falls back to the
//! interactive answers when a script of them is present, and is a hard
//! error when none is (a non-interactive run).

use vstd::prelude::*;

use crate::account::{is_implicit_account, AccountId};
use crate::amount::{spec_format_amount, NearBalance};
use crate::error::{Stage, TransferError};
use crate::lookup::{LookupResult, LookupTable};

verus! {

/// Whether an account stage accepts `id` given its lookup report: without
/// an endpoint everything is accepted; with one, the account must exist —
/// except that a stage with the implicit-account exemption also accepts
/// the 64-character hexadecimal form.
pub open spec fn account_accepts(
    hex_exempt: bool,
    has_endpoint: bool,
    id: Seq<char>,
    outcome: LookupResult,
) -> bool {
    !has_endpoint || outcome is Exists || (hex_exempt && is_implicit_account(id))
}

/// Decides [`account_accepts`].
pub fn account_accepts_exec(
    hex_exempt: bool,
    has_endpoint: bool,
    id: &AccountId,
    outcome: LookupResult,
) -> (r: bool)
    ensures
        r == account_accepts(hex_exempt, has_endpoint, id@, outcome),
{
    if !has_endpoint {
        true
    } else if matches!(outcome, LookupResult::Exists { .. }) {
        true
    } else {
        hex_exempt && id.is_implicit()
    }
}

/// The first prompted answer an account stage accepts, each candidate
/// looked up in turn; a transport failure on a candidate ends the run.
pub open spec fn spec_scan_accounts(
    cands: Seq<AccountId>,
    has_endpoint: bool,
    table: &LookupTable,
    hex_exempt: bool,
    stage: Stage,
) -> Result<AccountId, TransferError>
    decreases cands.len(),
{
    if cands.len() == 0 {
        Err(TransferError::PromptsExhausted { stage })
    } else if has_endpoint && table.lookup_of(cands[0]@) is TransportFailure {
        Err(TransferError::Transport)
    } else if account_accepts(hex_exempt, has_endpoint, cands[0]@, table.lookup_of(cands[0]@)) {
        Ok(cands[0])
    } else {
        spec_scan_accounts(cands.drop_first(), has_endpoint, table, hex_exempt, stage)
    }
}

/// Resolution of an account stage: the supplied id if it validates, else
/// the prompted answers, else the error the run ends with.
pub open spec fn spec_resolve_account(
    supplied: Option<AccountId>,
    answers: Option<Seq<AccountId>>,
    has_endpoint: bool,
    table: &LookupTable,
    hex_exempt: bool,
    stage: Stage,
) -> Result<AccountId, TransferError> {
    match supplied {
        Some(id) => {
            if has_endpoint && table.lookup_of(id@) is TransportFailure {
                Err(TransferError::Transport)
            } else if account_accepts(hex_exempt, has_endpoint, id@, table.lookup_of(id@)) {
                Ok(id)
            } else {
                match answers {
                    None => Err(TransferError::InvalidInput { stage }),
                    Some(ans) => spec_scan_accounts(ans, has_endpoint, table, hex_exempt, stage),
                }
            }
        },
        None => match answers {
            None => Err(TransferError::MissingInput { stage }),
            Some(ans) => spec_scan_accounts(ans, has_endpoint, table, hex_exempt, stage),
        },
    }
}

/// Walks the prompted answers of an account stage.
fn scan_accounts(
    cands: Vec<AccountId>,
    has_endpoint: bool,
    table: &LookupTable,
    hex_exempt: bool,
    stage: Stage,
) -> (r: Result<AccountId, TransferError>)
    ensures
        r == spec_scan_accounts(cands@, has_endpoint, table, hex_exempt, stage),
{
    let ghost all = cands@;
    let n = cands.len();
    let mut i: usize = 0;
    proof {
        assert(all.skip(0) =~= all);
    }
    while i < n
        invariant
            n == all.len(),
            cands@ == all,
            0 <= i <= n,
            spec_scan_accounts(all, has_endpoint, table, hex_exempt, stage) == spec_scan_accounts(
                all.skip(i as int),
                has_endpoint,
                table,
                hex_exempt,
                stage,
            ),
        decreases n - i,
    {
        proof {
            assert(all.skip(i as int)[0] == all[i as int]);
            assert(all.skip(i as int).drop_first() =~= all.skip(i + 1));
        }
        let id = &cands[i];
        let outcome = table.lookup(id);
        if has_endpoint && matches!(outcome, LookupResult::TransportFailure) {
            return Err(TransferError::Transport);
        }
        if account_accepts_exec(hex_exempt, has_endpoint, id, outcome) {
            return Ok(id.clone());
        }
        i = i + 1;
    }
    proof {
        assert(all.skip(n as int) =~= Seq::<AccountId>::empty());
    }
    Err(TransferError::PromptsExhausted { stage })
}

/// Resolves an account stage, per [`spec_resolve_account`].
pub fn resolve_account(
    supplied: Option<AccountId>,
    answers: Option<Vec<AccountId>>,
    has_endpoint: bool,
    table: &LookupTable,
    hex_exempt: bool,
    stage: Stage,
) -> (r: Result<AccountId, TransferError>)
    ensures
        r == spec_resolve_account(
            supplied,
            match answers {
                Some(v) => Some(v@),
                None => None,
            },
            has_endpoint,
            table,
            hex_exempt,
            stage,
        ),
{
    match supplied {
        Some(id) => {
            let outcome = table.lookup(&id);
            if has_endpoint && matches!(outcome, LookupResult::TransportFailure) {
                return Err(TransferError::Transport);
            }
            if account_accepts_exec(hex_exempt, has_endpoint, &id, outcome) {
                return Ok(id);
            }
            match answers {
                None => Err(TransferError::InvalidInput { stage }),
                Some(ans) => scan_accounts(ans, has_endpoint, table, hex_exempt, stage),
            }
        },
        None => match answers {
            None => Err(TransferError::MissingInput { stage }),
            Some(ans) => scan_accounts(ans, has_endpoint, table, hex_exempt, stage),
        },
    }
}

/// The ceiling the amount stage enforces: none without an endpoint; with
/// one, the sender's balance, an absent account counting as zero.
pub open spec fn amount_ceiling(has_endpoint: bool, sender_outcome: LookupResult) -> Option<u128> {
    if !has_endpoint {
        None
    } else {
        match sender_outcome {
            LookupResult::Exists { balance } => Some(balance),
            _ => Some(0),
        }
    }
}

/// Whether the amount stage accepts `v` under `ceiling`.
pub open spec fn amount_accepts(ceiling: Option<u128>, v: int) -> bool {
    match ceiling {
        None => true,
        Some(c) => v <= c,
    }
}

/// The first prompted amount within the ceiling.
pub open spec fn spec_scan_amounts(
    cands: Seq<NearBalance>,
    ceiling: Option<u128>,
    stage: Stage,
) -> Result<NearBalance, TransferError>
    decreases cands.len(),
{
    if cands.len() == 0 {
        Err(TransferError::PromptsExhausted { stage })
    } else if amount_accepts(ceiling, cands[0]@) {
        Ok(cands[0])
    } else {
        spec_scan_amounts(cands.drop_first(), ceiling, stage)
    }
}

/// Resolution of the amount stage: a transport failure on the sender's
/// balance query ends the run; otherwise the supplied amount if within
/// the ceiling, else the prompted answers.
pub open spec fn spec_resolve_amount(
    supplied: Option<NearBalance>,
    answers: Option<Seq<NearBalance>>,
    has_endpoint: bool,
    sender_outcome: LookupResult,
    stage: Stage,
) -> Result<NearBalance, TransferError> {
    if has_endpoint && sender_outcome is TransportFailure {
        Err(TransferError::Transport)
    } else {
        let ceiling = amount_ceiling(has_endpoint, sender_outcome);
        match supplied {
            Some(v) => {
                if amount_accepts(ceiling, v@) {
                    Ok(v)
                } else {
                    match answers {
                        None => Err(TransferError::InvalidInput { stage }),
                        Some(ans) => spec_scan_amounts(ans, ceiling, stage),
                    }
                }
            },
            None => match answers {
                None => Err(TransferError::MissingInput { stage }),
                Some(ans) => spec_scan_amounts(ans, ceiling, stage),
            },
        }
    }
}

/// Walks the prompted amounts.
fn scan_amounts(cands: Vec<NearBalance>, ceiling: Option<u128>, stage: Stage) -> (r: Result<
    NearBalance,
    TransferError,
>)
    ensures
        r == spec_scan_amounts(cands@, ceiling, stage),
{
    let ghost all = cands@;
    let n = cands.len();
    let mut i: usize = 0;
    proof {
        assert(all.skip(0) =~= all);
    }
    while i < n
        invariant
            n == all.len(),
            cands@ == all,
            0 <= i <= n,
            spec_scan_amounts(all, ceiling, stage) == spec_scan_amounts(
                all.skip(i as int),
                ceiling,
                stage,
            ),
        decreases n - i,
    {
        proof {
            assert(all.skip(i as int)[0] == all[i as int]);
            assert(all.skip(i as int).drop_first() =~= all.skip(i + 1));
        }
        let v = cands[i];
        let ok = match ceiling {
            None => true,
            Some(c) => v.to_yoctonear() <= c,
        };
        if ok {
            return Ok(v);
        }
        i = i + 1;
    }
    proof {
        assert(all.skip(n as int) =~= Seq::<NearBalance>::empty());
    }
    Err(TransferError::PromptsExhausted { stage })
}

/// Resolves the amount stage, per [`spec_resolve_amount`].
pub fn resolve_amount(
    supplied: Option<NearBalance>,
    answers: Option<Vec<NearBalance>>,
    has_endpoint: bool,
    sender_outcome: LookupResult,
    stage: Stage,
) -> (r: Result<NearBalance, TransferError>)
    ensures
        r == spec_resolve_amount(
            supplied,
            match answers {
                Some(v) => Some(v@),
                None => None,
            },
            has_endpoint,
            sender_outcome,
            stage,
        ),
{
    if has_endpoint && matches!(sender_outcome, LookupResult::TransportFailure) {
        return Err(TransferError::Transport);
    }
    let ceiling = if !has_endpoint {
        None
    } else {
        match sender_outcome {
            LookupResult::Exists { balance } => Some(balance),
            _ => Some(0),
        }
    };
    match supplied {
        Some(v) => {
            let ok = match ceiling {
                None => true,
                Some(c) => v.to_yoctonear() <= c,
            };
            if ok {
                return Ok(v);
            }
            match answers {
                None => Err(TransferError::InvalidInput { stage }),
                Some(ans) => scan_amounts(ans, ceiling, stage),
            }
        },
        None => match answers {
            None => Err(TransferError::MissingInput { stage }),
            Some(ans) => scan_amounts(ans, ceiling, stage),
        },
    }
}

/// The ceiling shown when the amount stage re-prompts: the balance it
/// enforces, in the canonical notation.
pub fn amount_prompt_hint(ceiling: Option<u128>) -> (r: Option<String>)
    ensures
        ceiling matches Some(c) ==> r matches Some(h) && h@ == spec_format_amount(c),
        ceiling is None ==> r is None,
{
    match ceiling {
        None => None,
        Some(c) => Some(NearBalance::from_yoctonear(c).to_text()),
    }
}

/// Resolution of a stage that prompts at most once: the supplied value,
/// else the one scripted answer, else the error.
pub open spec fn spec_resolve_once<T>(
    supplied: Option<T>,
    answer: Option<Option<T>>,
    stage: Stage,
) -> Result<T, TransferError> {
    match supplied {
        Some(v) => Ok(v),
        None => match answer {
            None => Err(TransferError::MissingInput { stage }),
            Some(None) => Err(TransferError::PromptsExhausted { stage }),
            Some(Some(v)) => Ok(v),
        },
    }
}

/// Resolves a prompt-once stage, per [`spec_resolve_once`].
pub fn resolve_once<T>(supplied: Option<T>, answer: Option<Option<T>>, stage: Stage) -> (r: Result<
    T,
    TransferError,
>)
    ensures
        r == spec_resolve_once(supplied, answer, stage),
{
    match supplied {
        Some(v) => Ok(v),
        None => match answer {
            None => Err(TransferError::MissingInput { stage }),
            Some(None) => Err(TransferError::PromptsExhausted { stage }),
            Some(Some(v)) => Ok(v),
        },
    }
}

} // verus!

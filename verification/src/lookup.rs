//! The account validator: what a single network query for an account can
//! report, an oracle of such reports for a whole run, and the
//! endpoint-aware validation rule built on them.

use vstd::prelude::*;

use crate::account::AccountId;
use crate::endpoint::ConnectionConfig;
use crate::error::TransferError;

verus! {

/// What one network query for an account reports.
#[derive(Clone, Copy, Debug, PartialEq, Eq, Structural)]
pub enum LookupResult {
    /// The account exists and holds this balance, in smallest units.
    Exists { balance: u128 },
    /// No such account on chain.
    NotFound,
    /// The query itself failed in transit.
    TransportFailure,
}

/// What validation of an account id concludes.
#[derive(Clone, Copy, Debug, PartialEq, Eq, Structural)]
pub enum ValidationResult {
    /// No endpoint: nothing was checked.
    Unknown,
    /// The account exists with this balance, in smallest units.
    Exists { balance: u128 },
    /// The account does not exist.
    NotFound,
}

/// The network's answers for a run, one per account id; an id without an
/// entry reads as not found.
#[derive(Debug)]
pub struct LookupTable {
    pub entries: Vec<(AccountId, LookupResult)>,
}

/// The report for `id` in an entry list: the first matching entry.
pub open spec fn lookup_in(entries: Seq<(AccountId, LookupResult)>, id: Seq<char>) -> LookupResult
    decreases entries.len(),
{
    if entries.len() == 0 {
        LookupResult::NotFound
    } else if entries[0].0@ == id {
        entries[0].1
    } else {
        lookup_in(entries.drop_first(), id)
    }
}

impl LookupTable {
    /// A table with no entries.
    pub fn new() -> (r: LookupTable)
        ensures
            r.entries@.len() == 0,
    {
        LookupTable { entries: Vec::new() }
    }

    /// Records `result` for `id`, after any earlier entries.
    pub fn add(&mut self, id: AccountId, result: LookupResult)
        ensures
            final(self).entries@ == old(self).entries@.push((id, result)),
    {
        self.entries.push((id, result));
    }

    /// The report for `id`.
    pub open spec fn lookup_of(&self, id: Seq<char>) -> LookupResult {
        lookup_in(self.entries@, id)
    }

    /// Finds the report for `id`.
    pub fn lookup(&self, id: &AccountId) -> (r: LookupResult)
        ensures
            r == self.lookup_of(id@),
    {
        let n = self.entries.len();
        let mut i: usize = 0;
        proof {
            assert(self.entries@.skip(0) =~= self.entries@);
        }
        while i < n
            invariant
                n == self.entries@.len(),
                0 <= i <= n,
                lookup_in(self.entries@, id@) == lookup_in(self.entries@.skip(i as int), id@),
            decreases n - i,
        {
            let entry = &self.entries[i];
            proof {
                assert(self.entries@.skip(i as int)[0] == self.entries@[i as int]);
                assert(self.entries@.skip(i as int).drop_first() =~= self.entries@.skip(i + 1));
            }
            if entry.0.same_as(id) {
                return entry.1;
            }
            i = i + 1;
        }
        proof {
            assert(self.entries@.skip(n as int) =~= Seq::<(AccountId, LookupResult)>::empty());
        }
        LookupResult::NotFound
    }
}

/// What validation concludes for `id`: `Unknown` without an endpoint (no
/// query is made); otherwise the table's report, a transport failure
/// propagating as a hard error.
pub open spec fn spec_validate(
    has_endpoint: bool,
    table: &LookupTable,
    id: Seq<char>,
) -> Result<ValidationResult, TransferError> {
    if !has_endpoint {
        Ok(ValidationResult::Unknown)
    } else {
        match table.lookup_of(id) {
            LookupResult::Exists { balance } => Ok(ValidationResult::Exists { balance }),
            LookupResult::NotFound => Ok(ValidationResult::NotFound),
            LookupResult::TransportFailure => Err(TransferError::Transport),
        }
    }
}

/// Validates an account id against the network, per the endpoint-aware
/// rule: no endpoint means no query and `Unknown`.
pub fn check_account_id(
    connection_config: &Option<ConnectionConfig>,
    table: &LookupTable,
    id: &AccountId,
) -> (r: Result<ValidationResult, TransferError>)
    ensures
        r == spec_validate(connection_config is Some, table, id@),
{
    match connection_config {
        None => Ok(ValidationResult::Unknown),
        Some(_) => {
            match table.lookup(id) {
                LookupResult::Exists { balance } => Ok(ValidationResult::Exists { balance }),
                LookupResult::NotFound => Ok(ValidationResult::NotFound),
                LookupResult::TransportFailure => Err(TransferError::Transport),
            }
        },
    }
}

} // verus!

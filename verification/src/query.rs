//! Read-only operations: public projections of the configuration, the
//! counters and the rounds, and the viewing-key- and permit-gated reads of
//! private bet records.

use vstd::prelude::*;

use crate::crypto::{check_viewing_key, spec_key_matches};
use crate::state::{
    is_permit_revoked, read_bet, read_config, read_round, read_state, read_viewing_key,
    spec_bet_lookup, spec_key_lookup, spec_revoked_contains, Storage,
};
use crate::types::{
    clone_asset, Bet, Config, ConfigResponse, Error, Permission, Permit, Round, State,
};

verus! {

/// The public projection of a stored configuration (everything but the key
/// seed).
pub open spec fn config_response_matches(resp: ConfigResponse, cfg: Config) -> bool {
    &&& resp.contract_addr == cfg.contract_addr
    &&& resp.owner_addr == cfg.owner_addr
    &&& resp.operator_addr == cfg.operator_addr
    &&& resp.treasury_addr == cfg.treasury_addr
    &&& resp.bet_asset == cfg.bet_asset
    &&& resp.oracle_addr == cfg.oracle_addr
    &&& resp.oracle_code_hash == cfg.oracle_code_hash
    &&& resp.fee_rate == cfg.fee_rate
    &&& resp.interval == cfg.interval
    &&& resp.grace_interval == cfg.grace_interval
}

/// Whether a permission set contains the owner permission.
pub open spec fn spec_has_owner_permission(perms: Seq<Permission>) -> bool {
    exists|i: int| 0 <= i < perms.len() && perms[i] is Owner
}

impl Storage {
    /// A supplied key is valid for `user` exactly when a key is stored for
    /// `user` and the hashed forms agree.
    pub open spec fn spec_validate_key(&self, user: Seq<char>, key: Seq<char>) -> bool {
        match spec_key_lookup(self.spec_keys(), user) {
            Some(stored) => spec_key_matches(key, stored),
            None => false,
        }
    }

    /// Exact outcome of a key-gated bet read.
    pub open spec fn spec_query_bet_outcome(
        &self,
        epoch: u128,
        user: Seq<char>,
        key: Seq<char>,
    ) -> Result<Bet, Error> {
        if !self.spec_validate_key(user, key) {
            Err(Error::InvalidViewingKey)
        } else {
            match spec_bet_lookup(self.spec_bets(), epoch, user) {
                None => Err(Error::BetNotFound),
                Some(b) => Ok(b),
            }
        }
    }

    /// Exact outcome of a permit-gated bet read: the permit must carry the
    /// owner permission and not have been revoked by its account, and it
    /// only ever reads the account's own bet.
    pub open spec fn spec_permit_query_outcome(
        &self,
        account: Seq<char>,
        permit_name: Seq<char>,
        has_owner: bool,
        epoch: u128,
    ) -> Result<Bet, Error> {
        if spec_revoked_contains(self.spec_revoked(), account, permit_name) {
            Err(Error::PermissionDenied)
        } else if !has_owner {
            Err(Error::PermissionDenied)
        } else {
            match spec_bet_lookup(self.spec_bets(), epoch, account) {
                None => Err(Error::BetNotFound),
                Some(b) => Ok(b),
            }
        }
    }
}

/// Public projection of the configuration.
pub fn query_config(store: &Storage) -> (r: Result<ConfigResponse, Error>)
    ensures
        match r {
            Ok(resp) => match store.spec_config() {
                Some(cfg) => config_response_matches(resp, cfg),
                None => false,
            },
            Err(e) => store.spec_config() is None && e == Error::NotInitialized,
        },
{
    match read_config(store) {
        Ok(cfg) => Ok(
            ConfigResponse {
                contract_addr: cfg.contract_addr.clone(),
                owner_addr: cfg.owner_addr.clone(),
                operator_addr: cfg.operator_addr.clone(),
                treasury_addr: cfg.treasury_addr.clone(),
                bet_asset: clone_asset(&cfg.bet_asset),
                oracle_addr: cfg.oracle_addr.clone(),
                oracle_code_hash: cfg.oracle_code_hash.clone(),
                fee_rate: cfg.fee_rate,
                interval: cfg.interval,
                grace_interval: cfg.grace_interval,
            },
        ),
        Err(e) => Err(e),
    }
}

/// The protocol counters.
pub fn query_state(store: &Storage) -> (r: Result<State, Error>)
    ensures
        match r {
            Ok(st) => store.spec_state() == Some(st),
            Err(e) => store.spec_state() is None && e == Error::NotInitialized,
        },
{
    read_state(store)
}

/// The round stored for `epoch`.
pub fn query_round(store: &Storage, epoch: u128) -> (r: Result<Round, Error>)
    ensures
        match r {
            Ok(round) => store.spec_round(epoch) == Some(round),
            Err(e) => store.spec_round(epoch) is None && e == Error::RoundNotFound,
        },
{
    read_round(store, epoch)
}

/// Whether the supplied key matches `user`'s stored key, comparing the
/// full hashed forms.
pub fn validate_viewing_key(store: &Storage, user: &String, key: &String) -> (r: bool)
    ensures
        r == store.spec_validate_key(user@, key@),
{
    match read_viewing_key(store, user) {
        Some(stored) => check_viewing_key(key.as_str(), stored.as_str()),
        None => false,
    }
}

/// The bet of `(epoch, user)`, gated by `user`'s viewing key.
pub fn query_bet(store: &Storage, epoch: u128, user: &String, key: &String) -> (r: Result<
    Bet,
    Error,
>)
    ensures
        r == store.spec_query_bet_outcome(epoch, user@, key@),
{
    if validate_viewing_key(store, user, key) {
        query_bet_raw(store, epoch, user)
    } else {
        Err(Error::InvalidViewingKey)
    }
}

/// The bet of `(epoch, user)`, with no access gate; never exposed directly.
pub fn query_bet_raw(store: &Storage, epoch: u128, user: &String) -> (r: Result<Bet, Error>)
    ensures
        match r {
            Ok(b) => spec_bet_lookup(store.spec_bets(), epoch, user@) == Some(b),
            Err(e) => spec_bet_lookup(store.spec_bets(), epoch, user@) is None && e
                == Error::BetNotFound,
        },
{
    read_bet(store, epoch, user)
}

/// Whether a permission list carries the owner permission.
pub fn has_owner_permission(perms: &Vec<Permission>) -> (r: bool)
    ensures
        r == spec_has_owner_permission(perms@),
{
    let n = perms.len();
    for i in 0..n
        invariant
            n == perms@.len(),
            forall|j: int| 0 <= j < i ==> !((#[trigger] perms@[j]) is Owner),
    {
        if perms[i] == Permission::Owner {
            return true;
        }
    }
    false
}

/// The bet of the permit's own account for `epoch`, gated by the permit's
/// permissions and revocation record.  The permit arrives here already
/// signature-verified by the external access-control collaborator.
pub fn permit_queries(store: &Storage, permit: &Permit, epoch: u128) -> (r: Result<Bet, Error>)
    ensures
        r == store.spec_permit_query_outcome(
            permit.account@,
            permit.permit_name@,
            spec_has_owner_permission(permit.permissions@),
            epoch,
        ),
{
    if is_permit_revoked(store, &permit.account, &permit.permit_name) {
        return Err(Error::PermissionDenied);
    }
    if !has_owner_permission(&permit.permissions) {
        return Err(Error::PermissionDenied);
    }
    query_bet_raw(store, epoch, &permit.account)
}

} // verus!

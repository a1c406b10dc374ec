//! State-changing operations of the betting ledger and the payout engine:
//! placing a bet, claiming a payout, and managing viewing keys and permit
//! revocations.
//!
//! Every operation has an exact outcome function (which rejection comes on
//! which inputs, in check order) and a transition predicate (how the new
//! state relates to the old one); the dispatch layer reuses both.

use vstd::prelude::*;

use crate::crypto::{derive_viewing_key, spec_derived_key};
use crate::state::{
    read_bet, read_config, read_round, read_state, spec_bet_index, spec_bet_lookup,
    spec_key_index, spec_key_lookup, store_bet, store_revoked_permit, store_round,
    store_viewing_key, BetEntry, KeyEntry, RevokedEntry, Storage,
};
use crate::state::{lemma_bet_index_props, lemma_key_index_props};
use crate::types::{clone_asset, Bet, Env, Error, Position, Round, TransferMsg};

verus! {

impl Storage {
    /// Exact outcome of a `bet` operation: each rejection and the inputs it
    /// is returned on, in the order the checks are made.
    pub open spec fn spec_bet_outcome(&self, time: u64, user: Seq<char>, amount: u128) -> Result<
        (),
        Error,
    > {
        if amount == 0 {
            Err(Error::ZeroAmount)
        } else {
            match self.spec_state() {
                None => Err(Error::NotInitialized),
                Some(st) => {
                    if st.paused {
                        Err(Error::Paused)
                    } else {
                        match self.spec_round(st.epoch) {
                            None => Err(Error::RoundNotFound),
                            Some(round) => {
                                if !round.spec_bettable(time) {
                                    Err(Error::NotBettable)
                                } else if spec_bet_lookup(self.spec_bets(), st.epoch, user)
                                    is Some {
                                    Err(Error::AlreadyBet)
                                } else {
                                    Ok(())
                                }
                            },
                        }
                    }
                },
            }
        }
    }

    /// On the inputs a bet is accepted on, the grown pool must still fit
    /// the amount type (the host's asset supply guarantees this).
    pub open spec fn bet_fits(&self, time: u64, user: Seq<char>, amount: u128) -> bool {
        self.spec_bet_outcome(time, user, amount) is Ok ==> match self.spec_state() {
            Some(st) => match self.spec_round(st.epoch) {
                Some(round) => round.total_amount + amount <= u128::MAX,
                None => true,
            },
            None => true,
        }
    }

    /// Exact outcome of a `claim` operation: the payout on success, or each
    /// rejection and the inputs it is returned on.
    pub open spec fn spec_claim_outcome(&self, time: u64, sender: Seq<char>, epoch: u128) -> Result<
        u128,
        Error,
    > {
        match self.spec_config() {
            None => Err(Error::NotInitialized),
            Some(cfg) => {
                match self.spec_round(epoch) {
                    None => Err(Error::RoundNotFound),
                    Some(round) => {
                        if !round.spec_claimable(time) && !round.spec_refundable(
                            time,
                            cfg.grace_interval,
                        ) {
                            Err(Error::NotClaimable)
                        } else {
                            match spec_bet_lookup(self.spec_bets(), epoch, sender) {
                                None => Err(Error::BetNotFound),
                                Some(b) => {
                                    if b.claimed {
                                        Err(Error::AlreadyClaimed)
                                    } else {
                                        let amount = round.spec_claimable_amount(
                                            time,
                                            b,
                                            cfg.grace_interval,
                                        );
                                        if amount == 0 {
                                            Err(Error::NothingToClaim)
                                        } else {
                                            Ok(amount)
                                        }
                                    }
                                },
                            }
                        }
                    },
                }
            },
        }
    }

    /// A claim consumes the caller's claim right exactly when it gets past
    /// the ledger checks: on success, and on the zero-payout rejection.
    pub open spec fn spec_claim_consumes(&self, time: u64, sender: Seq<char>, epoch: u128) -> bool {
        self.spec_claim_outcome(time, sender, epoch) is Ok || self.spec_claim_outcome(
            time,
            sender,
            epoch,
        ) == Err::<u128, Error>(Error::NothingToClaim)
    }

    /// Exact outcome of a `create_viewing_key` operation: the derived key.
    pub open spec fn spec_create_key_outcome(
        &self,
        time: u64,
        sender: Seq<char>,
        entropy: Seq<char>,
    ) -> Result<Seq<char>, Error> {
        match self.spec_config() {
            None => Err(Error::NotInitialized),
            Some(cfg) => Ok(spec_derived_key(cfg.prng_seed@, time, sender, entropy)),
        }
    }
}

/// How a `bet` changes the state: on acceptance the target round's total
/// and matching side grow by the stake and a fresh unclaimed bet record is
/// appended; on rejection nothing changes.
pub open spec fn bet_transition(
    pre: Storage,
    post: Storage,
    time: u64,
    user: String,
    position: Position,
    amount: u128,
) -> bool {
    if pre.spec_bet_outcome(time, user@, amount) is Ok {
        let st = pre.spec_state()->0;
        let round = pre.spec_round(st.epoch)->0;
        let grown = Round {
            total_amount: (round.total_amount + amount) as u128,
            up_amount: if position is Up {
                (round.up_amount + amount) as u128
            } else {
                round.up_amount
            },
            down_amount: if position is Down {
                (round.down_amount + amount) as u128
            } else {
                round.down_amount
            },
            ..round
        };
        &&& post.spec_rounds() == pre.spec_rounds().update(st.epoch - 1, grown)
        &&& post.spec_bets() == pre.spec_bets().push(
            BetEntry { epoch: st.epoch, user, bet: Bet { amount, position, claimed: false } },
        )
        &&& post.spec_state() == pre.spec_state()
        &&& post.spec_config() == pre.spec_config()
        &&& post.spec_keys() == pre.spec_keys()
        &&& post.spec_revoked() == pre.spec_revoked()
    } else {
        post == pre
    }
}

/// How a `claim` changes the state: whenever the claim right is consumed
/// the caller's bet record is marked claimed, and nothing else ever
/// changes.
pub open spec fn claim_transition(
    pre: Storage,
    post: Storage,
    time: u64,
    sender: String,
    epoch: u128,
) -> bool {
    if pre.spec_claim_consumes(time, sender@, epoch) {
        let i = spec_bet_index(pre.spec_bets(), epoch, sender@);
        let b = pre.spec_bets()[i].bet;
        &&& post.spec_bets() == pre.spec_bets().update(
            i,
            BetEntry {
                epoch,
                user: sender,
                bet: Bet { amount: b.amount, position: b.position, claimed: true },
            },
        )
        &&& post.spec_rounds() == pre.spec_rounds()
        &&& post.spec_state() == pre.spec_state()
        &&& post.spec_config() == pre.spec_config()
        &&& post.spec_keys() == pre.spec_keys()
        &&& post.spec_revoked() == pre.spec_revoked()
    } else {
        post == pre
    }
}

/// How storing a viewing key changes the state: the caller's key record is
/// overwritten or appended, and nothing else changes.
pub open spec fn store_key_transition(pre: Storage, post: Storage, user: String, key: String) -> bool {
    let i = spec_key_index(pre.spec_keys(), user@);
    let entry = KeyEntry { user, key };
    &&& post.spec_keys() == if i >= 0 {
        pre.spec_keys().update(i, entry)
    } else {
        pre.spec_keys().push(entry)
    }
    &&& post.spec_config() == pre.spec_config()
    &&& post.spec_state() == pre.spec_state()
    &&& post.spec_rounds() == pre.spec_rounds()
    &&& post.spec_bets() == pre.spec_bets()
    &&& post.spec_revoked() == pre.spec_revoked()
}

/// How a permit revocation changes the state: one record is appended.
pub open spec fn revoke_transition(pre: Storage, post: Storage, user: String, name: String) -> bool {
    &&& post.spec_revoked() == pre.spec_revoked().push(
        RevokedEntry { user, permit_name: name },
    )
    &&& post.spec_config() == pre.spec_config()
    &&& post.spec_state() == pre.spec_state()
    &&& post.spec_rounds() == pre.spec_rounds()
    &&& post.spec_bets() == pre.spec_bets()
    &&& post.spec_keys() == pre.spec_keys()
}

/// Places `user`'s stake of `amount` on `position` in the round of the
/// current epoch, growing the matching pool.
pub fn bet(store: &mut Storage, env: &Env, user: String, position: Position, amount: u128) -> (r:
    Result<(), Error>)
    requires
        old(store).wf(),
        old(store).bet_fits(env.time, user@, amount),
    ensures
        final(store).wf(),
        r == old(store).spec_bet_outcome(env.time, user@, amount),
        bet_transition(*old(store), *final(store), env.time, user, position, amount),
{
    if amount == 0 {
        return Err(Error::ZeroAmount);
    }
    let st = match read_state(store) {
        Ok(st) => st,
        Err(e) => {
            return Err(e);
        },
    };
    if st.paused {
        return Err(Error::Paused);
    }
    let round = match read_round(store, st.epoch) {
        Ok(round) => round,
        Err(e) => {
            return Err(e);
        },
    };
    if !round.bettable(env.time) {
        return Err(Error::NotBettable);
    }
    if read_bet(store, st.epoch, &user).is_ok() {
        return Err(Error::AlreadyBet);
    }
    proof {
        lemma_bet_index_props(store.spec_bets(), st.epoch, user@);
    }
    let grown = Round {
        total_amount: round.total_amount + amount,
        up_amount: if position == Position::Up {
            round.up_amount + amount
        } else {
            round.up_amount
        },
        down_amount: if position == Position::Down {
            round.down_amount + amount
        } else {
            round.down_amount
        },
        ..round
    };
    store_round(store, st.epoch, grown);
    store_bet(store, st.epoch, user, Bet { amount, position, claimed: false });
    proof {
        assert(final(store).wf()) by {
            let posts = store.spec_bets();
            let pres = old(store).spec_bets();
            assert(forall|j: int| 0 <= j < pres.len() ==> posts[j] == pres[j]);
            assert(forall|i: int|
                0 <= i < old(store).spec_rounds().len() && i != st.epoch - 1
                    ==> final(store).spec_rounds()[i] == old(store).spec_rounds()[i]);
        }
    }
    Ok(())
}

/// Pays the caller what the target round owes them — the proportional
/// reward for a winning bet, or the principal on the refund path — and
/// consumes the claim right.  The right is consumed even when the owed
/// amount turns out to be zero.
pub fn claim(store: &mut Storage, env: &Env, epoch: u128) -> (r: Result<TransferMsg, Error>)
    requires
        old(store).wf(),
    ensures
        final(store).wf(),
        match r {
            Ok(t) => {
                &&& old(store).spec_claim_outcome(env.time, env.sender@, epoch) == Ok::<
                    u128,
                    Error,
                >(t.amount)
                &&& t.recipient == env.sender
                &&& Some(t.asset) == match old(store).spec_config() {
                    Some(cfg) => Some(cfg.bet_asset),
                    None => None,
                }
            },
            Err(e) => old(store).spec_claim_outcome(env.time, env.sender@, epoch) == Err::<
                u128,
                Error,
            >(e),
        },
        claim_transition(*old(store), *final(store), env.time, env.sender, epoch),
{
    let (grace_interval, asset) = match read_config(store) {
        Ok(cfg) => (cfg.grace_interval, clone_asset(&cfg.bet_asset)),
        Err(e) => {
            return Err(e);
        },
    };
    let round = match read_round(store, epoch) {
        Ok(round) => round,
        Err(e) => {
            return Err(e);
        },
    };
    if !round.claimable(env.time) && !round.refundable(env.time, grace_interval) {
        return Err(Error::NotClaimable);
    }
    let user_bet = match read_bet(store, epoch, &env.sender) {
        Ok(b) => b,
        Err(e) => {
            return Err(e);
        },
    };
    if user_bet.claimed {
        return Err(Error::AlreadyClaimed);
    }
    proof {
        lemma_bet_index_props(store.spec_bets(), epoch, env.sender@);
    }
    let updated = Bet { amount: user_bet.amount, position: user_bet.position, claimed: true };
    store_bet(store, epoch, env.sender.clone(), updated);
    proof {
        assert(final(store).wf()) by {
            let posts = store.spec_bets();
            let pres = old(store).spec_bets();
            let i = spec_bet_index(pres, epoch, env.sender@);
            assert(forall|j: int| 0 <= j < pres.len() && j != i ==> posts[j] == pres[j]);
        }
        assert(round.spec_claimable_amount(env.time, updated, grace_interval)
            == round.spec_claimable_amount(env.time, user_bet, grace_interval));
    }
    let claim_amount = round.claimable_amount(env.time, &updated, grace_interval);
    if claim_amount == 0 {
        return Err(Error::NothingToClaim);
    }
    Ok(TransferMsg { asset, recipient: env.sender.clone(), amount: claim_amount })
}

/// Derives a fresh viewing key from the configured seed, the clock, the
/// caller and the supplied entropy, stores it for the caller and discloses
/// it once, in the result.
pub fn create_viewing_key(store: &mut Storage, env: &Env, entropy: String) -> (r: Result<
    String,
    Error,
>)
    requires
        old(store).wf(),
    ensures
        final(store).wf(),
        match r {
            Ok(key) => {
                &&& old(store).spec_create_key_outcome(env.time, env.sender@, entropy@) == Ok::<
                    Seq<char>,
                    Error,
                >(key@)
                &&& store_key_transition(*old(store), *final(store), env.sender, key)
            },
            Err(e) => {
                &&& old(store).spec_create_key_outcome(env.time, env.sender@, entropy@) == Err::<
                    Seq<char>,
                    Error,
                >(e)
                &&& *final(store) == *old(store)
            },
        },
{
    let key = match read_config(store) {
        Ok(cfg) => derive_viewing_key(
            &cfg.prng_seed,
            env.time,
            env.sender.as_str(),
            entropy.as_str(),
        ),
        Err(e) => {
            return Err(e);
        },
    };
    proof {
        lemma_key_index_props(store.spec_keys(), env.sender@);
    }
    store_viewing_key(store, env.sender.clone(), key.clone());
    proof {
        assert(final(store).wf()) by {
            let posts = store.spec_keys();
            let pres = old(store).spec_keys();
            let i = spec_key_index(pres, env.sender@);
            assert(forall|j: int| 0 <= j < pres.len() && j != i ==> posts[j] == pres[j]);
        }
    }
    Ok(key)
}

/// Stores a caller-chosen viewing key verbatim, overwriting any prior key.
pub fn set_viewing_key(store: &mut Storage, env: &Env, key: String) -> (r: Result<(), Error>)
    requires
        old(store).wf(),
    ensures
        final(store).wf(),
        r is Ok,
        store_key_transition(*old(store), *final(store), env.sender, key),
        spec_key_lookup(final(store).spec_keys(), env.sender@) == Some(key@),
{
    proof {
        lemma_key_index_props(store.spec_keys(), env.sender@);
    }
    store_viewing_key(store, env.sender.clone(), key);
    proof {
        assert(final(store).wf()) by {
            let posts = store.spec_keys();
            let pres = old(store).spec_keys();
            let i = spec_key_index(pres, env.sender@);
            assert(forall|j: int| 0 <= j < pres.len() && j != i ==> posts[j] == pres[j]);
        }
    }
    Ok(())
}

/// Records the permit name as revoked for the caller; the external permit
/// verifier consults this record from then on.
pub fn revoke_permit(store: &mut Storage, env: &Env, permit_name: String) -> (r: Result<(), Error>)
    requires
        old(store).wf(),
    ensures
        final(store).wf(),
        r is Ok,
        revoke_transition(*old(store), *final(store), env.sender, permit_name),
{
    store_revoked_permit(store, env.sender.clone(), permit_name);
    Ok(())
}

} // verus!

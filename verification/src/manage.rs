//! Administrative and scheduling operations: configuration updates, the
//! genesis start, round settlement, pausing and fee withdrawal.

use vstd::arithmetic::div_mod::lemma_div_pos_is_pos;
use vstd::prelude::*;

use crate::math::{checked_mul_ratio, lemma_mul_div_le};
use crate::state::{read_config, read_round, read_state, store_config, store_round, store_state, Storage};
use crate::types::{clone_asset, clone_bytes, Config, Env, Error, Round, State, TransferMsg, RATE_SCALE};

verus! {

/// The protocol fee taken from a settled pool: `total * rate / RATE_SCALE`,
/// rounded down.
pub open spec fn spec_fee(total: u128, rate: u128) -> int {
    (total as int) * (rate as int) / (RATE_SCALE as int)
}

/// The fee never exceeds the pool it is taken from.
pub proof fn lemma_fee_bounds(total: u128, rate: u128)
    requires
        rate <= RATE_SCALE,
    ensures
        0 <= spec_fee(total, rate) <= total,
{
    lemma_mul_div_le(total as int, rate as int, RATE_SCALE as int);
    lemma_div_pos_is_pos((total as int) * (rate as int), RATE_SCALE as int);
    assert((total as int) * (rate as int) >= 0) by (nonlinear_arith);
}

impl Storage {
    /// Exact outcome of an `update_config` operation.
    pub open spec fn spec_update_config_outcome(
        &self,
        sender: Seq<char>,
        fee_rate: Option<u128>,
        interval: Option<u64>,
        grace_interval: Option<u64>,
    ) -> Result<(), Error> {
        match self.spec_config() {
            None => Err(Error::NotInitialized),
            Some(cfg) => {
                if sender != cfg.owner_addr@ && sender != cfg.operator_addr@ {
                    Err(Error::Unauthorized)
                } else {
                    let new_fee = if fee_rate is Some {
                        fee_rate->0
                    } else {
                        cfg.fee_rate
                    };
                    let new_interval = if interval is Some {
                        interval->0
                    } else {
                        cfg.interval
                    };
                    let new_grace = if grace_interval is Some {
                        grace_interval->0
                    } else {
                        cfg.grace_interval
                    };
                    if new_fee > RATE_SCALE {
                        Err(Error::InvalidFeeRate)
                    } else if new_grace > new_interval {
                        Err(Error::InvalidGraceInterval)
                    } else {
                        Ok(())
                    }
                }
            },
        }
    }

    /// Exact outcome of a `start_genesis_round` operation.
    pub open spec fn spec_genesis_outcome(&self, sender: Seq<char>) -> Result<(), Error> {
        match self.spec_config() {
            None => Err(Error::NotInitialized),
            Some(cfg) => {
                if sender != cfg.owner_addr@ {
                    Err(Error::Unauthorized)
                } else {
                    match self.spec_state() {
                        None => Err(Error::NotInitialized),
                        Some(st) => {
                            if !st.paused {
                                Err(Error::AlreadyRunning)
                            } else {
                                Ok(())
                            }
                        },
                    }
                }
            },
        }
    }

    /// On the inputs a genesis start is accepted on, the round timing
    /// derived from the clock must fit the time type.
    pub open spec fn genesis_fits(&self, time: u64, sender: Seq<char>) -> bool {
        self.spec_genesis_outcome(sender) is Ok ==> {
            let cfg = self.spec_config()->0;
            &&& cfg.interval <= time
            &&& time + 2 * cfg.interval <= u64::MAX
        }
    }

    /// Exact outcome of an `execute_round` operation: the previous epoch's
    /// round must be past its end, primed with an open price (or genesis),
    /// and not yet settled.
    pub open spec fn spec_execute_outcome(&self, time: u64) -> Result<(), Error> {
        match (self.spec_config(), self.spec_state()) {
            (Some(cfg), Some(st)) => {
                if st.epoch < 2 {
                    Err(Error::NotExecutable)
                } else {
                    match self.spec_round((st.epoch - 1) as u128) {
                        None => Err(Error::NotExecutable),
                        Some(prev) => {
                            if !prev.spec_executable(time) {
                                Err(Error::NotExecutable)
                            } else {
                                Ok(())
                            }
                        },
                    }
                }
            },
            _ => Err(Error::NotInitialized),
        }
    }

    /// On the inputs a settlement is accepted on, the next round's timing
    /// must fit the time type and the accrued fee the amount type.
    pub open spec fn execute_fits(&self, time: u64) -> bool {
        self.spec_execute_outcome(time) is Ok ==> {
            let cfg = self.spec_config()->0;
            let st = self.spec_state()->0;
            let prev = self.spec_round((st.epoch - 1) as u128)->0;
            &&& time + 2 * cfg.interval <= u64::MAX
            &&& (!prev.is_genesis ==> st.total_fee + spec_fee(prev.total_amount, cfg.fee_rate)
                <= u128::MAX)
        }
    }

    /// Exact outcome of a `pause` operation.
    pub open spec fn spec_pause_outcome(&self, sender: Seq<char>) -> Result<(), Error> {
        match self.spec_config() {
            None => Err(Error::NotInitialized),
            Some(cfg) => {
                if sender != cfg.owner_addr@ && sender != cfg.operator_addr@ {
                    Err(Error::Unauthorized)
                } else {
                    match self.spec_state() {
                        None => Err(Error::NotInitialized),
                        Some(st) => {
                            if st.paused {
                                Err(Error::Paused)
                            } else {
                                Ok(())
                            }
                        },
                    }
                }
            },
        }
    }

    /// Exact outcome of a `withdraw` operation: the accrued fee on success.
    pub open spec fn spec_withdraw_outcome(&self, sender: Seq<char>) -> Result<u128, Error> {
        match self.spec_config() {
            None => Err(Error::NotInitialized),
            Some(cfg) => {
                if sender != cfg.operator_addr@ && sender != cfg.treasury_addr@ {
                    Err(Error::Unauthorized)
                } else {
                    match self.spec_state() {
                        None => Err(Error::NotInitialized),
                        Some(st) => {
                            if st.total_fee == 0 {
                                Err(Error::NothingToWithdraw)
                            } else {
                                Ok(st.total_fee)
                            }
                        },
                    }
                }
            },
        }
    }
}

/// How `update_config` changes the state: on acceptance only the supplied
/// fields are overwritten; on rejection nothing changes.
pub open spec fn update_config_transition(
    pre: Storage,
    post: Storage,
    sender: Seq<char>,
    owner_addr: Option<String>,
    operator_addr: Option<String>,
    treasury_addr: Option<String>,
    oracle_addr: Option<String>,
    oracle_code_hash: Option<String>,
    fee_rate: Option<u128>,
    interval: Option<u64>,
    grace_interval: Option<u64>,
) -> bool {
    if pre.spec_update_config_outcome(sender, fee_rate, interval, grace_interval) is Ok {
        let cfg = pre.spec_config()->0;
        &&& post.spec_config() is Some
        &&& ({
            let ncfg = post.spec_config()->0;
            &&& ncfg.contract_addr == cfg.contract_addr
            &&& ncfg.owner_addr == (if owner_addr is Some {
                owner_addr->0
            } else {
                cfg.owner_addr
            })
            &&& ncfg.operator_addr == (if operator_addr is Some {
                operator_addr->0
            } else {
                cfg.operator_addr
            })
            &&& ncfg.treasury_addr == (if treasury_addr is Some {
                treasury_addr->0
            } else {
                cfg.treasury_addr
            })
            &&& ncfg.bet_asset == cfg.bet_asset
            &&& ncfg.oracle_addr == (if oracle_addr is Some {
                oracle_addr->0
            } else {
                cfg.oracle_addr
            })
            &&& ncfg.oracle_code_hash == (if oracle_code_hash is Some {
                oracle_code_hash->0
            } else {
                cfg.oracle_code_hash
            })
            &&& ncfg.fee_rate == (if fee_rate is Some {
                fee_rate->0
            } else {
                cfg.fee_rate
            })
            &&& ncfg.interval == (if interval is Some {
                interval->0
            } else {
                cfg.interval
            })
            &&& ncfg.grace_interval == (if grace_interval is Some {
                grace_interval->0
            } else {
                cfg.grace_interval
            })
            &&& ncfg.prng_seed@ == cfg.prng_seed@
        })
        &&& post.spec_state() == pre.spec_state()
        &&& post.spec_rounds() == pre.spec_rounds()
        &&& post.spec_bets() == pre.spec_bets()
        &&& post.spec_keys() == pre.spec_keys()
        &&& post.spec_revoked() == pre.spec_revoked()
    } else {
        post == pre
    }
}

/// How `start_genesis_round` changes the state: on acceptance the genesis
/// round and the first bettable round are written at epochs 1 and 2, the
/// epoch counter becomes 2 and the protocol unpauses; on rejection nothing
/// changes.
pub open spec fn genesis_transition(pre: Storage, post: Storage, time: u64, sender: Seq<char>) -> bool {
    if pre.spec_genesis_outcome(sender) is Ok {
        let cfg = pre.spec_config()->0;
        let st = pre.spec_state()->0;
        let genesis = Round {
            start_time: (time - cfg.interval) as u64,
            lock_time: time,
            end_time: (time + cfg.interval) as u64,
            open_price: None,
            close_price: None,
            total_amount: 0,
            reward_amount: 0,
            up_amount: 0,
            down_amount: 0,
            is_genesis: true,
        };
        let first = Round {
            start_time: time,
            lock_time: (time + cfg.interval) as u64,
            end_time: (time + 2 * cfg.interval) as u64,
            open_price: None,
            close_price: None,
            total_amount: 0,
            reward_amount: 0,
            up_amount: 0,
            down_amount: 0,
            is_genesis: false,
        };
        &&& post.spec_rounds().len() == if pre.spec_rounds().len() < 2 {
            2int
        } else {
            pre.spec_rounds().len() as int
        }
        &&& post.spec_round(1) == Some(genesis)
        &&& post.spec_round(2) == Some(first)
        &&& forall|i: int|
            2 <= i < pre.spec_rounds().len() ==> post.spec_rounds()[i] == pre.spec_rounds()[i]
        &&& post.spec_state() == Some(State { epoch: 2, total_fee: st.total_fee, paused: false })
        &&& post.spec_config() == pre.spec_config()
        &&& post.spec_bets() == pre.spec_bets()
        &&& post.spec_keys() == pre.spec_keys()
        &&& post.spec_revoked() == pre.spec_revoked()
    } else {
        post == pre
    }
}

/// How `execute_round` changes the state: on acceptance the previous
/// epoch's round is settled with the oracle price, the current round's
/// open price is seeded with the same value, a fresh round is written at
/// the next epoch, the fee accrues and the epoch counter advances; on
/// rejection nothing changes.
pub open spec fn execute_transition(pre: Storage, post: Storage, time: u64, oracle_price: u128) -> bool {
    if pre.spec_execute_outcome(time) is Ok {
        let cfg = pre.spec_config()->0;
        let st = pre.spec_state()->0;
        let prev = pre.spec_round((st.epoch - 1) as u128)->0;
        let cur = pre.spec_round(st.epoch)->0;
        let fee: int = if prev.is_genesis {
            0
        } else {
            spec_fee(prev.total_amount, cfg.fee_rate)
        };
        let settled = Round {
            close_price: Some(oracle_price),
            reward_amount: if prev.is_genesis {
                prev.reward_amount
            } else if prev.up_amount == 0 || prev.down_amount == 0 {
                0u128
            } else {
                (prev.total_amount - fee) as u128
            },
            ..prev
        };
        let primed = Round { open_price: Some(oracle_price), ..cur };
        let next = Round {
            start_time: time,
            lock_time: (time + cfg.interval) as u64,
            end_time: (time + 2 * cfg.interval) as u64,
            open_price: None,
            close_price: None,
            total_amount: 0,
            reward_amount: 0,
            up_amount: 0,
            down_amount: 0,
            is_genesis: false,
        };
        &&& post.spec_rounds().len() == if pre.spec_rounds().len() < st.epoch + 1 {
            st.epoch + 1
        } else {
            pre.spec_rounds().len() as int
        }
        &&& post.spec_round((st.epoch - 1) as u128) == Some(settled)
        &&& post.spec_round(st.epoch) == Some(primed)
        &&& post.spec_round((st.epoch + 1) as u128) == Some(next)
        &&& forall|i: int|
            0 <= i < pre.spec_rounds().len() && i != st.epoch - 2 && i != st.epoch - 1 && i
                != st.epoch ==> post.spec_rounds()[i] == pre.spec_rounds()[i]
        &&& post.spec_state() == Some(
            State {
                epoch: (st.epoch + 1) as u128,
                total_fee: (st.total_fee + fee) as u128,
                paused: st.paused,
            },
        )
        &&& post.spec_config() == pre.spec_config()
        &&& post.spec_bets() == pre.spec_bets()
        &&& post.spec_keys() == pre.spec_keys()
        &&& post.spec_revoked() == pre.spec_revoked()
    } else {
        post == pre
    }
}

/// How `pause` changes the state: on acceptance only the paused flag flips
/// to true; on rejection nothing changes.
pub open spec fn pause_transition(pre: Storage, post: Storage, sender: Seq<char>) -> bool {
    if pre.spec_pause_outcome(sender) is Ok {
        let st = pre.spec_state()->0;
        &&& post.spec_state() == Some(
            State { epoch: st.epoch, total_fee: st.total_fee, paused: true },
        )
        &&& post.spec_config() == pre.spec_config()
        &&& post.spec_rounds() == pre.spec_rounds()
        &&& post.spec_bets() == pre.spec_bets()
        &&& post.spec_keys() == pre.spec_keys()
        &&& post.spec_revoked() == pre.spec_revoked()
    } else {
        post == pre
    }
}

/// How `withdraw` changes the state: on acceptance the fee accumulator is
/// zeroed; on rejection nothing changes.
pub open spec fn withdraw_transition(pre: Storage, post: Storage, sender: Seq<char>) -> bool {
    if pre.spec_withdraw_outcome(sender) is Ok {
        let st = pre.spec_state()->0;
        &&& post.spec_state() == Some(
            State { epoch: st.epoch, total_fee: 0, paused: st.paused },
        )
        &&& post.spec_config() == pre.spec_config()
        &&& post.spec_rounds() == pre.spec_rounds()
        &&& post.spec_bets() == pre.spec_bets()
        &&& post.spec_keys() == pre.spec_keys()
        &&& post.spec_revoked() == pre.spec_revoked()
    } else {
        post == pre
    }
}

/// Overwrites the supplied configuration fields, keeping the others; only
/// the owner or the operator may do so, and the merged values must satisfy
/// the same bounds as at initialization.
pub fn update_config(
    store: &mut Storage,
    env: &Env,
    owner_addr: Option<String>,
    operator_addr: Option<String>,
    treasury_addr: Option<String>,
    oracle_addr: Option<String>,
    oracle_code_hash: Option<String>,
    fee_rate: Option<u128>,
    interval: Option<u64>,
    grace_interval: Option<u64>,
) -> (r: Result<(), Error>)
    requires
        old(store).wf(),
    ensures
        final(store).wf(),
        r == old(store).spec_update_config_outcome(
            env.sender@,
            fee_rate,
            interval,
            grace_interval,
        ),
        update_config_transition(
            *old(store),
            *final(store),
            env.sender@,
            owner_addr,
            operator_addr,
            treasury_addr,
            oracle_addr,
            oracle_code_hash,
            fee_rate,
            interval,
            grace_interval,
        ),
{
    let new_cfg = match read_config(store) {
        Ok(cfg) => {
            if !(env.sender == cfg.owner_addr || env.sender == cfg.operator_addr) {
                return Err(Error::Unauthorized);
            }
            Config {
                contract_addr: cfg.contract_addr.clone(),
                owner_addr: match owner_addr {
                    Some(v) => v,
                    None => cfg.owner_addr.clone(),
                },
                operator_addr: match operator_addr {
                    Some(v) => v,
                    None => cfg.operator_addr.clone(),
                },
                treasury_addr: match treasury_addr {
                    Some(v) => v,
                    None => cfg.treasury_addr.clone(),
                },
                bet_asset: clone_asset(&cfg.bet_asset),
                oracle_addr: match oracle_addr {
                    Some(v) => v,
                    None => cfg.oracle_addr.clone(),
                },
                oracle_code_hash: match oracle_code_hash {
                    Some(v) => v,
                    None => cfg.oracle_code_hash.clone(),
                },
                fee_rate: match fee_rate {
                    Some(v) => v,
                    None => cfg.fee_rate,
                },
                interval: match interval {
                    Some(v) => v,
                    None => cfg.interval,
                },
                grace_interval: match grace_interval {
                    Some(v) => v,
                    None => cfg.grace_interval,
                },
                prng_seed: clone_bytes(&cfg.prng_seed),
            }
        },
        Err(e) => {
            return Err(e);
        },
    };
    if new_cfg.fee_rate > RATE_SCALE {
        return Err(Error::InvalidFeeRate);
    }
    if new_cfg.grace_interval > new_cfg.interval {
        return Err(Error::InvalidGraceInterval);
    }
    store_config(store, new_cfg);
    Ok(())
}

/// Starts the protocol: creates the genesis round (already locked, ending
/// one interval from now) and the first bettable round, sets the epoch
/// counter to the bettable round and unpauses.  Only the owner may start,
/// and only while not already running.
pub fn start_genesis_round(store: &mut Storage, env: &Env) -> (r: Result<(), Error>)
    requires
        old(store).wf(),
        old(store).genesis_fits(env.time, env.sender@),
    ensures
        final(store).wf(),
        r == old(store).spec_genesis_outcome(env.sender@),
        genesis_transition(*old(store), *final(store), env.time, env.sender@),
{
    let interval = match read_config(store) {
        Ok(cfg) => {
            if !(env.sender == cfg.owner_addr) {
                return Err(Error::Unauthorized);
            }
            cfg.interval
        },
        Err(e) => {
            return Err(e);
        },
    };
    let st = match read_state(store) {
        Ok(st) => st,
        Err(e) => {
            return Err(e);
        },
    };
    if !st.paused {
        return Err(Error::AlreadyRunning);
    }
    let genesis = Round {
        start_time: env.time - interval,
        lock_time: env.time,
        end_time: env.time + interval,
        open_price: None,
        close_price: None,
        total_amount: 0,
        reward_amount: 0,
        up_amount: 0,
        down_amount: 0,
        is_genesis: true,
    };
    let first = Round {
        start_time: env.time,
        lock_time: env.time + interval,
        end_time: env.time + interval + interval,
        open_price: None,
        close_price: None,
        total_amount: 0,
        reward_amount: 0,
        up_amount: 0,
        down_amount: 0,
        is_genesis: false,
    };
    store_round(store, 1, genesis);
    store_round(store, 2, first);
    store_state(store, State { epoch: 2, total_fee: st.total_fee, paused: false });
    Ok(())
}

/// Settles the previous epoch's round with the supplied oracle price, seeds
/// the current round's open price with the same value, creates the next
/// bettable round and advances the epoch counter.  Permissionless and
/// time-gated; a settled round is never executable again.
pub fn execute_round(store: &mut Storage, env: &Env, oracle_price: u128) -> (r: Result<(), Error>)
    requires
        old(store).wf(),
        old(store).execute_fits(env.time),
    ensures
        final(store).wf(),
        r == old(store).spec_execute_outcome(env.time),
        execute_transition(*old(store), *final(store), env.time, oracle_price),
{
    let (interval, fee_rate) = match read_config(store) {
        Ok(cfg) => (cfg.interval, cfg.fee_rate),
        Err(e) => {
            return Err(e);
        },
    };
    let st = match read_state(store) {
        Ok(st) => st,
        Err(e) => {
            return Err(e);
        },
    };
    if st.epoch < 2 {
        return Err(Error::NotExecutable);
    }
    let prev = match read_round(store, st.epoch - 1) {
        Ok(round) => round,
        Err(_) => {
            return Err(Error::NotExecutable);
        },
    };
    if !prev.executable(env.time) {
        return Err(Error::NotExecutable);
    }
    let cur = match read_round(store, st.epoch) {
        Ok(round) => round,
        Err(e) => {
            proof {
                assert(false);
            }
            return Err(e);
        },
    };
    let fee: u128 = if prev.is_genesis {
        0
    } else {
        proof {
            lemma_fee_bounds(prev.total_amount, fee_rate);
        }
        match checked_mul_ratio(prev.total_amount, fee_rate, RATE_SCALE) {
            Some(f) => f,
            None => {
                proof {
                    assert(false);
                }
                0
            },
        }
    };
    let settled = Round {
        close_price: Some(oracle_price),
        reward_amount: if prev.is_genesis {
            prev.reward_amount
        } else if prev.up_amount == 0 || prev.down_amount == 0 {
            0
        } else {
            prev.total_amount - fee
        },
        ..prev
    };
    let primed = Round { open_price: Some(oracle_price), ..cur };
    let next = Round {
        start_time: env.time,
        lock_time: env.time + interval,
        end_time: env.time + interval + interval,
        open_price: None,
        close_price: None,
        total_amount: 0,
        reward_amount: 0,
        up_amount: 0,
        down_amount: 0,
        is_genesis: false,
    };
    proof {
        old(store).lemma_rounds_len();
    }
    store_round(store, st.epoch - 1, settled);
    store_round(store, st.epoch, primed);
    store_round(store, st.epoch + 1, next);
    store_state(
        store,
        State { epoch: st.epoch + 1, total_fee: st.total_fee + fee, paused: st.paused },
    );
    Ok(())
}

/// Blocks new bets; in-flight round data is untouched.  Only the owner or
/// the operator may pause, and only while running.
pub fn pause(store: &mut Storage, env: &Env) -> (r: Result<(), Error>)
    requires
        old(store).wf(),
    ensures
        final(store).wf(),
        r == old(store).spec_pause_outcome(env.sender@),
        pause_transition(*old(store), *final(store), env.sender@),
{
    match read_config(store) {
        Ok(cfg) => {
            if !(env.sender == cfg.owner_addr || env.sender == cfg.operator_addr) {
                return Err(Error::Unauthorized);
            }
        },
        Err(e) => {
            return Err(e);
        },
    }
    let st = match read_state(store) {
        Ok(st) => st,
        Err(e) => {
            return Err(e);
        },
    };
    if st.paused {
        return Err(Error::Paused);
    }
    store_state(store, State { epoch: st.epoch, total_fee: st.total_fee, paused: true });
    Ok(())
}

/// Sends the accrued protocol fee to the treasury and zeroes the
/// accumulator.  Only the operator or the treasury may withdraw, and only
/// when something accrued.
pub fn withdraw(store: &mut Storage, env: &Env) -> (r: Result<TransferMsg, Error>)
    requires
        old(store).wf(),
    ensures
        final(store).wf(),
        match r {
            Ok(t) => {
                &&& old(store).spec_withdraw_outcome(env.sender@) == Ok::<u128, Error>(t.amount)
                &&& t.recipient == old(store).spec_config()->0.treasury_addr
                &&& t.asset == old(store).spec_config()->0.bet_asset
            },
            Err(e) => old(store).spec_withdraw_outcome(env.sender@) == Err::<u128, Error>(e),
        },
        withdraw_transition(*old(store), *final(store), env.sender@),
{
    let (asset, treasury) = match read_config(store) {
        Ok(cfg) => {
            if !(env.sender == cfg.operator_addr || env.sender == cfg.treasury_addr) {
                return Err(Error::Unauthorized);
            }
            (clone_asset(&cfg.bet_asset), cfg.treasury_addr.clone())
        },
        Err(e) => {
            return Err(e);
        },
    };
    let st = match read_state(store) {
        Ok(st) => st,
        Err(e) => {
            return Err(e);
        },
    };
    if st.total_fee == 0 {
        return Err(Error::NothingToWithdraw);
    }
    store_state(store, State { epoch: st.epoch, total_fee: 0, paused: st.paused });
    Ok(TransferMsg { asset, recipient: treasury, amount: st.total_fee })
}

} // verus!

//! Entry points: initialization and the exhaustive dispatch of the
//! state-changing and read-only operation sets.

use vstd::prelude::*;

use crate::crypto::sha256;
use crate::handler::{
    bet, bet_transition, claim, claim_transition, create_viewing_key, revoke_permit,
    revoke_transition, set_viewing_key, store_key_transition,
};
use crate::manage::{
    execute_round, execute_transition, genesis_transition, pause, pause_transition,
    start_genesis_round, update_config, update_config_transition, withdraw, withdraw_transition,
};
use crate::query::{permit_queries, query_bet, query_config, query_round, query_state};
use crate::state::{read_config, store_config, store_state, Storage};
use crate::types::{
    AssetInfo, Coin, Config, Cw20HookMsg, Env, Error, HandleMsg, HandleResponse, InitMsg,
    QueryAnswer, QueryMsg, State, RATE_SCALE,
};

verus! {

/// Exact outcome of initialization: the deploy-time parameter bounds.
pub open spec fn spec_init_outcome(fee_rate: u128, interval: u64, grace_interval: u64) -> Result<
    (),
    Error,
> {
    if fee_rate > RATE_SCALE {
        Err(Error::InvalidFeeRate)
    } else if grace_interval > interval {
        Err(Error::InvalidGraceInterval)
    } else {
        Ok(())
    }
}

/// How initialization changes the state: on acceptance the configuration
/// is created (with the key seed stored hashed) and the counters start
/// paused at epoch zero; on rejection nothing changes.
pub open spec fn init_transition(
    pre: Storage,
    post: Storage,
    sender: String,
    contract_addr: String,
    msg: InitMsg,
) -> bool {
    if spec_init_outcome(msg.fee_rate, msg.interval, msg.grace_interval) is Ok {
        &&& post.spec_config() is Some
        &&& ({
            let cfg = post.spec_config()->0;
            &&& cfg.contract_addr == contract_addr
            &&& cfg.owner_addr == sender
            &&& cfg.operator_addr == msg.operator_addr
            &&& cfg.treasury_addr == msg.treasury_addr
            &&& cfg.bet_asset == msg.bet_asset
            &&& cfg.oracle_addr == msg.oracle_addr
            &&& cfg.oracle_code_hash == msg.oracle_code_hash
            &&& cfg.fee_rate == msg.fee_rate
            &&& cfg.interval == msg.interval
            &&& cfg.grace_interval == msg.grace_interval
            &&& cfg.prng_seed@ == crate::crypto::sha256_of(msg.prng_seed@)
        })
        &&& post.spec_state() == Some(State { epoch: 0, total_fee: 0, paused: true })
        &&& post.spec_rounds() == pre.spec_rounds()
        &&& post.spec_bets() == pre.spec_bets()
        &&& post.spec_keys() == pre.spec_keys()
        &&& post.spec_revoked() == pre.spec_revoked()
    } else {
        post == pre
    }
}

/// Creates the configuration and the paused initial counters.  The caller
/// becomes the owner; the supplied key seed is stored in hashed form.
pub fn init(store: &mut Storage, env: &Env, msg: InitMsg) -> (r: Result<(), Error>)
    requires
        old(store).wf(),
    ensures
        final(store).wf(),
        r == spec_init_outcome(msg.fee_rate, msg.interval, msg.grace_interval),
        init_transition(*old(store), *final(store), env.sender, env.contract_addr, msg),
{
    if msg.fee_rate > RATE_SCALE {
        return Err(Error::InvalidFeeRate);
    }
    if msg.grace_interval > msg.interval {
        return Err(Error::InvalidGraceInterval);
    }
    let prng_seed_hashed = sha256(&msg.prng_seed);
    let config = Config {
        contract_addr: env.contract_addr.clone(),
        owner_addr: env.sender.clone(),
        operator_addr: msg.operator_addr,
        treasury_addr: msg.treasury_addr,
        bet_asset: msg.bet_asset,
        oracle_addr: msg.oracle_addr,
        oracle_code_hash: msg.oracle_code_hash,
        fee_rate: msg.fee_rate,
        interval: msg.interval,
        grace_interval: msg.grace_interval,
        prng_seed: prng_seed_hashed,
    };
    store_config(store, config);
    store_state(store, State { epoch: 0, total_fee: 0, paused: true });
    Ok(())
}

/// The first coin of the configured denomination among the attached funds
/// (zero when none was attached).
pub open spec fn spec_find_coin(funds: Seq<Coin>, denom: Seq<char>) -> u128
    decreases funds.len(),
{
    if funds.len() == 0 {
        0
    } else if funds[0].denom@ == denom {
        funds[0].amount
    } else {
        spec_find_coin(funds.drop_first(), denom)
    }
}

proof fn lemma_find_coin_char(funds: Seq<Coin>, denom: Seq<char>, i: int)
    requires
        0 <= i < funds.len(),
        funds[i].denom@ == denom,
        forall|j: int| 0 <= j < i ==> (#[trigger] funds[j]).denom@ != denom,
    ensures
        spec_find_coin(funds, denom) == funds[i].amount,
    decreases funds.len(),
{
    if i > 0 {
        assert(forall|j: int|
            0 <= j < funds.drop_first().len() ==> funds.drop_first()[j] == funds[j + 1]);
        lemma_find_coin_char(funds.drop_first(), denom, i - 1);
    }
}

proof fn lemma_find_coin_none(funds: Seq<Coin>, denom: Seq<char>)
    requires
        forall|j: int| 0 <= j < funds.len() ==> (#[trigger] funds[j]).denom@ != denom,
    ensures
        spec_find_coin(funds, denom) == 0,
    decreases funds.len(),
{
    if funds.len() > 0 {
        assert(forall|j: int|
            0 <= j < funds.drop_first().len() ==> funds.drop_first()[j] == funds[j + 1]);
        lemma_find_coin_none(funds.drop_first(), denom);
    }
}

/// The stake attached in the configured native coin.
fn find_coin(funds: &Vec<Coin>, denom: &String) -> (r: u128)
    ensures
        r == spec_find_coin(funds@, denom@),
{
    let n = funds.len();
    for i in 0..n
        invariant
            n == funds@.len(),
            forall|j: int| 0 <= j < i ==> (#[trigger] funds@[j]).denom@ != denom@,
    {
        if funds[i].denom == *denom {
            proof {
                lemma_find_coin_char(funds@, denom@, i as int);
            }
            return funds[i].amount;
        }
    }
    proof {
        lemma_find_coin_none(funds@, denom@);
    }
    0
}

impl Storage {
    /// Exact outcome of a token-transfer bet: the transfer must embed an
    /// instruction, the configured asset must be a token, and the sending
    /// token contract must be that asset; then the bet rules apply to the
    /// original payer.
    pub open spec fn spec_receive_outcome(
        &self,
        time: u64,
        sender: Seq<char>,
        from: Seq<char>,
        hook: Option<Cw20HookMsg>,
        amount: u128,
    ) -> Result<(), Error> {
        match hook {
            None => Err(Error::MissingHookData),
            Some(Cw20HookMsg::Bet { position }) => match self.spec_config() {
                None => Err(Error::NotInitialized),
                Some(cfg) => match cfg.bet_asset {
                    AssetInfo::NativeToken { denom } => Err(Error::InvalidAsset),
                    AssetInfo::Token { contract_addr } => {
                        if sender != contract_addr@ {
                            Err(Error::InvalidAsset)
                        } else {
                            self.spec_bet_outcome(time, from, amount)
                        }
                    },
                },
            },
        }
    }

    /// Exact outcome of a native-coin bet: the configured asset must be a
    /// native coin, and the stake is what the caller attached in it.
    pub open spec fn spec_try_bet_outcome(
        &self,
        time: u64,
        sender: Seq<char>,
        funds: Seq<Coin>,
    ) -> Result<(), Error> {
        match self.spec_config() {
            None => Err(Error::NotInitialized),
            Some(cfg) => match cfg.bet_asset {
                AssetInfo::Token { contract_addr } => Err(Error::InvalidAsset),
                AssetInfo::NativeToken { denom } => self.spec_bet_outcome(
                    time,
                    sender,
                    spec_find_coin(funds, denom@),
                ),
            },
        }
    }

    /// The panic-freedom obligations of the accepted operation, variant by
    /// variant (growing pools, accrued fees and round timings must fit
    /// their types).
    pub open spec fn handle_fits(&self, env: Env, msg: HandleMsg) -> bool {
        match msg {
            HandleMsg::Receive { from, msg: hook, amount } => self.bet_fits(
                env.time,
                from@,
                amount,
            ),
            HandleMsg::Bet { position } => match self.spec_config() {
                Some(cfg) => match cfg.bet_asset {
                    AssetInfo::NativeToken { denom } => self.bet_fits(
                        env.time,
                        env.sender@,
                        spec_find_coin(env.sent_funds@, denom@),
                    ),
                    _ => true,
                },
                None => true,
            },
            HandleMsg::StartGenesisRound {  } => self.genesis_fits(env.time, env.sender@),
            HandleMsg::ExecuteRound { oracle_price } => self.execute_fits(env.time),
            _ => true,
        }
    }
}

/// How a token-transfer bet changes the state.
pub open spec fn receive_transition(
    pre: Storage,
    post: Storage,
    time: u64,
    sender: Seq<char>,
    from: String,
    hook: Option<Cw20HookMsg>,
    amount: u128,
) -> bool {
    match hook {
        Some(Cw20HookMsg::Bet { position }) => match pre.spec_config() {
            Some(cfg) => match cfg.bet_asset {
                AssetInfo::Token { contract_addr } => {
                    if sender == contract_addr@ {
                        bet_transition(pre, post, time, from, position, amount)
                    } else {
                        post == pre
                    }
                },
                _ => post == pre,
            },
            None => post == pre,
        },
        None => post == pre,
    }
}

/// An empty response: no transfer to issue, no key to disclose.
fn empty_response() -> (r: HandleResponse)
    ensures
        r.messages@ == Seq::<crate::types::TransferMsg>::empty(),
        r.key is None,
{
    HandleResponse { messages: Vec::new(), key: None }
}

/// Dispatches one state-changing operation; the closed operation set, one
/// arm each.
pub fn handle(store: &mut Storage, env: &Env, msg: HandleMsg) -> (r: Result<HandleResponse, Error>)
    requires
        old(store).wf(),
        old(store).handle_fits(*env, msg),
    ensures
        final(store).wf(),
        match msg {
            HandleMsg::Receive { from, msg: hook, amount } => {
                &&& receive_transition(
                    *old(store),
                    *final(store),
                    env.time,
                    env.sender@,
                    from,
                    hook,
                    amount,
                )
                &&& match r {
                    Ok(resp) => old(store).spec_receive_outcome(
                        env.time,
                        env.sender@,
                        from@,
                        hook,
                        amount,
                    ) is Ok && resp.messages@.len() == 0 && resp.key is None,
                    Err(e) => old(store).spec_receive_outcome(
                        env.time,
                        env.sender@,
                        from@,
                        hook,
                        amount,
                    ) == Err::<(), Error>(e),
                }
            },
            HandleMsg::Bet { position } => {
                &&& match old(store).spec_config() {
                    Some(cfg) => match cfg.bet_asset {
                        AssetInfo::NativeToken { denom } => bet_transition(
                            *old(store),
                            *final(store),
                            env.time,
                            env.sender,
                            position,
                            spec_find_coin(env.sent_funds@, denom@),
                        ),
                        _ => *final(store) == *old(store),
                    },
                    None => *final(store) == *old(store),
                }
                &&& match r {
                    Ok(resp) => old(store).spec_try_bet_outcome(env.time, env.sender@, env.sent_funds@)
                        is Ok && resp.messages@.len() == 0 && resp.key is None,
                    Err(e) => old(store).spec_try_bet_outcome(env.time, env.sender@, env.sent_funds@)
                        == Err::<(), Error>(e),
                }
            },
            HandleMsg::UpdateConfig {
                owner_addr,
                operator_addr,
                treasury_addr,
                oracle_addr,
                oracle_code_hash,
                fee_rate,
                interval,
                grace_interval,
            } => {
                &&& update_config_transition(
                    *old(store),
                    *final(store),
                    env.sender@,
                    owner_addr,
                    operator_addr,
                    treasury_addr,
                    oracle_addr,
                    oracle_code_hash,
                    fee_rate,
                    interval,
                    grace_interval,
                )
                &&& match r {
                    Ok(resp) => old(store).spec_update_config_outcome(
                        env.sender@,
                        fee_rate,
                        interval,
                        grace_interval,
                    ) is Ok && resp.messages@.len() == 0 && resp.key is None,
                    Err(e) => old(store).spec_update_config_outcome(
                        env.sender@,
                        fee_rate,
                        interval,
                        grace_interval,
                    ) == Err::<(), Error>(e),
                }
            },
            HandleMsg::Claim { epoch } => {
                &&& claim_transition(*old(store), *final(store), env.time, env.sender, epoch)
                &&& match r {
                    Ok(resp) => {
                        &&& resp.key is None
                        &&& resp.messages@.len() == 1
                        &&& old(store).spec_claim_outcome(env.time, env.sender@, epoch) == Ok::<
                            u128,
                            Error,
                        >(resp.messages@[0].amount)
                        &&& resp.messages@[0].recipient == env.sender
                        &&& resp.messages@[0].asset == old(store).spec_config()->0.bet_asset
                    },
                    Err(e) => old(store).spec_claim_outcome(env.time, env.sender@, epoch) == Err::<
                        u128,
                        Error,
                    >(e),
                }
            },
            HandleMsg::Withdraw {  } => {
                &&& withdraw_transition(*old(store), *final(store), env.sender@)
                &&& match r {
                    Ok(resp) => {
                        &&& resp.key is None
                        &&& resp.messages@.len() == 1
                        &&& old(store).spec_withdraw_outcome(env.sender@) == Ok::<u128, Error>(
                            resp.messages@[0].amount,
                        )
                        &&& resp.messages@[0].recipient == old(
                            store,
                        ).spec_config()->0.treasury_addr
                        &&& resp.messages@[0].asset == old(store).spec_config()->0.bet_asset
                    },
                    Err(e) => old(store).spec_withdraw_outcome(env.sender@) == Err::<u128, Error>(
                        e,
                    ),
                }
            },
            HandleMsg::ExecuteRound { oracle_price } => {
                &&& execute_transition(*old(store), *final(store), env.time, oracle_price)
                &&& match r {
                    Ok(resp) => old(store).spec_execute_outcome(env.time) is Ok
                        && resp.messages@.len() == 0 && resp.key is None,
                    Err(e) => old(store).spec_execute_outcome(env.time) == Err::<(), Error>(e),
                }
            },
            HandleMsg::Pause {  } => {
                &&& pause_transition(*old(store), *final(store), env.sender@)
                &&& match r {
                    Ok(resp) => old(store).spec_pause_outcome(env.sender@) is Ok
                        && resp.messages@.len() == 0 && resp.key is None,
                    Err(e) => old(store).spec_pause_outcome(env.sender@) == Err::<(), Error>(e),
                }
            },
            HandleMsg::StartGenesisRound {  } => {
                &&& genesis_transition(*old(store), *final(store), env.time, env.sender@)
                &&& match r {
                    Ok(resp) => old(store).spec_genesis_outcome(env.sender@) is Ok
                        && resp.messages@.len() == 0 && resp.key is None,
                    Err(e) => old(store).spec_genesis_outcome(env.sender@) == Err::<(), Error>(e),
                }
            },
            HandleMsg::CreateViewingKey { entropy, padding } => {
                match r {
                    Ok(resp) => {
                        &&& resp.messages@.len() == 0
                        &&& resp.key is Some
                        &&& old(store).spec_create_key_outcome(env.time, env.sender@, entropy@)
                            == Ok::<Seq<char>, Error>(resp.key->0@)
                        &&& store_key_transition(
                            *old(store),
                            *final(store),
                            env.sender,
                            resp.key->0,
                        )
                    },
                    Err(e) => {
                        &&& old(store).spec_create_key_outcome(env.time, env.sender@, entropy@)
                            == Err::<Seq<char>, Error>(e)
                        &&& *final(store) == *old(store)
                    },
                }
            },
            HandleMsg::SetViewingKey { key, padding } => {
                &&& store_key_transition(*old(store), *final(store), env.sender, key)
                &&& match r {
                    Ok(resp) => resp.messages@.len() == 0 && resp.key is None,
                    Err(e) => false,
                }
            },
            HandleMsg::RevokePermit { permit_name, padding } => {
                &&& revoke_transition(*old(store), *final(store), env.sender, permit_name)
                &&& match r {
                    Ok(resp) => resp.messages@.len() == 0 && resp.key is None,
                    Err(e) => false,
                }
            },
        },
{
    match msg {
        HandleMsg::Receive { from, msg: hook, amount } => {
            let position = match hook {
                Some(Cw20HookMsg::Bet { position }) => position,
                None => {
                    return Err(Error::MissingHookData);
                },
            };
            match read_config(store) {
                Ok(cfg) => match &cfg.bet_asset {
                    AssetInfo::NativeToken { denom } => {
                        return Err(Error::InvalidAsset);
                    },
                    AssetInfo::Token { contract_addr } => {
                        if !(env.sender == *contract_addr) {
                            return Err(Error::InvalidAsset);
                        }
                    },
                },
                Err(e) => {
                    return Err(e);
                },
            }
            match bet(store, env, from, position, amount) {
                Ok(()) => Ok(empty_response()),
                Err(e) => Err(e),
            }
        },
        HandleMsg::Bet { position } => {
            let denom = match read_config(store) {
                Ok(cfg) => match &cfg.bet_asset {
                    AssetInfo::NativeToken { denom } => denom.clone(),
                    AssetInfo::Token { contract_addr } => {
                        return Err(Error::InvalidAsset);
                    },
                },
                Err(e) => {
                    return Err(e);
                },
            };
            let amount = find_coin(&env.sent_funds, &denom);
            match bet(store, env, env.sender.clone(), position, amount) {
                Ok(()) => Ok(empty_response()),
                Err(e) => Err(e),
            }
        },
        HandleMsg::UpdateConfig {
            owner_addr,
            operator_addr,
            treasury_addr,
            oracle_addr,
            oracle_code_hash,
            fee_rate,
            interval,
            grace_interval,
        } => {
            match update_config(
                store,
                env,
                owner_addr,
                operator_addr,
                treasury_addr,
                oracle_addr,
                oracle_code_hash,
                fee_rate,
                interval,
                grace_interval,
            ) {
                Ok(()) => Ok(empty_response()),
                Err(e) => Err(e),
            }
        },
        HandleMsg::Claim { epoch } => match claim(store, env, epoch) {
            Ok(transfer) => {
                let mut messages = Vec::new();
                messages.push(transfer);
                Ok(HandleResponse { messages, key: None })
            },
            Err(e) => Err(e),
        },
        HandleMsg::Withdraw {  } => match withdraw(store, env) {
            Ok(transfer) => {
                let mut messages = Vec::new();
                messages.push(transfer);
                Ok(HandleResponse { messages, key: None })
            },
            Err(e) => Err(e),
        },
        HandleMsg::ExecuteRound { oracle_price } => match execute_round(store, env, oracle_price) {
            Ok(()) => Ok(empty_response()),
            Err(e) => Err(e),
        },
        HandleMsg::Pause {  } => match pause(store, env) {
            Ok(()) => Ok(empty_response()),
            Err(e) => Err(e),
        },
        HandleMsg::StartGenesisRound {  } => match start_genesis_round(store, env) {
            Ok(()) => Ok(empty_response()),
            Err(e) => Err(e),
        },
        HandleMsg::CreateViewingKey { entropy, padding } => {
            match create_viewing_key(store, env, entropy) {
                Ok(key) => Ok(HandleResponse { messages: Vec::new(), key: Some(key) }),
                Err(e) => Err(e),
            }
        },
        HandleMsg::SetViewingKey { key, padding } => match set_viewing_key(store, env, key) {
            Ok(()) => Ok(empty_response()),
            Err(e) => Err(e),
        },
        HandleMsg::RevokePermit { permit_name, padding } => {
            match revoke_permit(store, env, permit_name) {
                Ok(()) => Ok(empty_response()),
                Err(e) => Err(e),
            }
        },
    }
}

/// Dispatches one read-only operation.
pub fn query(store: &Storage, msg: QueryMsg) -> (r: Result<QueryAnswer, Error>)
    ensures
        match msg {
            QueryMsg::Config {  } => match r {
                Ok(QueryAnswer::Config(resp)) => match store.spec_config() {
                    Some(cfg) => crate::query::config_response_matches(resp, cfg),
                    None => false,
                },
                Ok(_) => false,
                Err(e) => store.spec_config() is None && e == Error::NotInitialized,
            },
            QueryMsg::State {  } => match r {
                Ok(QueryAnswer::State(st)) => store.spec_state() == Some(st),
                Ok(_) => false,
                Err(e) => store.spec_state() is None && e == Error::NotInitialized,
            },
            QueryMsg::Round { epoch } => match r {
                Ok(QueryAnswer::Round(round)) => store.spec_round(epoch) == Some(round),
                Ok(_) => false,
                Err(e) => store.spec_round(epoch) is None && e == Error::RoundNotFound,
            },
            QueryMsg::Bet { epoch, user, key } => match r {
                Ok(QueryAnswer::Bet(b)) => store.spec_query_bet_outcome(epoch, user@, key@)
                    == Ok::<crate::types::Bet, Error>(b),
                Ok(_) => false,
                Err(e) => store.spec_query_bet_outcome(epoch, user@, key@) == Err::<
                    crate::types::Bet,
                    Error,
                >(e),
            },
            QueryMsg::WithPermit { permit, query } => match r {
                Ok(QueryAnswer::Bet(b)) => store.spec_permit_query_outcome(
                    permit.account@,
                    permit.permit_name@,
                    crate::query::spec_has_owner_permission(permit.permissions@),
                    match query {
                        crate::types::QueryWithPermit::Bet { epoch } => epoch,
                    },
                ) == Ok::<crate::types::Bet, Error>(b),
                Ok(_) => false,
                Err(e) => store.spec_permit_query_outcome(
                    permit.account@,
                    permit.permit_name@,
                    crate::query::spec_has_owner_permission(permit.permissions@),
                    match query {
                        crate::types::QueryWithPermit::Bet { epoch } => epoch,
                    },
                ) == Err::<crate::types::Bet, Error>(e),
            },
        },
{
    match msg {
        QueryMsg::Config {  } => match query_config(store) {
            Ok(resp) => Ok(QueryAnswer::Config(resp)),
            Err(e) => Err(e),
        },
        QueryMsg::State {  } => match query_state(store) {
            Ok(st) => Ok(QueryAnswer::State(st)),
            Err(e) => Err(e),
        },
        QueryMsg::Round { epoch } => match query_round(store, epoch) {
            Ok(round) => Ok(QueryAnswer::Round(round)),
            Err(e) => Err(e),
        },
        QueryMsg::Bet { epoch, user, key } => match query_bet(store, epoch, &user, &key) {
            Ok(b) => Ok(QueryAnswer::Bet(b)),
            Err(e) => Err(e),
        },
        QueryMsg::WithPermit { permit, query } => {
            let epoch = match query {
                crate::types::QueryWithPermit::Bet { epoch } => epoch,
            };
            match permit_queries(store, &permit, epoch) {
                Ok(b) => Ok(QueryAnswer::Bet(b)),
                Err(e) => Err(e),
            }
        },
    }
}

} // verus!


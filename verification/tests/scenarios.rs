use prediction::contract::{handle, init};
use prediction::handler::bet;
use prediction::manage::{execute_round, withdraw};
use prediction::query::{permit_queries, query_bet, query_round};
use prediction::state::{read_state, Storage};
use prediction::types::{
    AssetInfo, Coin, Env, Error, HandleMsg, InitMsg, Permission, Permit, Position,
};

const T0: u64 = 1_571_797_419;
const CONTRACT: &str = "cosmos2contract";
const INTERVAL: u64 = 18000;

fn percent(p: u128) -> u128 {
    p * 10_000_000_000_000_000
}

fn env_at(sender: &str, time: u64) -> Env {
    Env {
        time,
        sender: sender.to_string(),
        contract_addr: CONTRACT.to_string(),
        sent_funds: Vec::new(),
    }
}

fn env_with_sscrt(sender: &str, time: u64, amount: u128) -> Env {
    Env {
        time,
        sender: sender.to_string(),
        contract_addr: CONTRACT.to_string(),
        sent_funds: vec![Coin { denom: "sscrt".to_string(), amount }],
    }
}

/// A freshly started market: genesis at epoch 1, bettable round at epoch 2.
fn running_market() -> Storage {
    let mut store = Storage::new();
    let msg = InitMsg {
        operator_addr: "operator_addr".to_string(),
        treasury_addr: "treasury_addr".to_string(),
        bet_asset: AssetInfo::NativeToken { denom: "sscrt".to_string() },
        oracle_addr: "oracle_addr".to_string(),
        oracle_code_hash: "oracle_code_hash".to_string(),
        fee_rate: percent(5),
        interval: INTERVAL,
        grace_interval: INTERVAL,
        prng_seed: "lolz fun yay".as_bytes().to_vec(),
    };
    init(&mut store, &env_at("owner_addr", T0), msg).unwrap();
    handle(&mut store, &env_at("owner_addr", T0), HandleMsg::StartGenesisRound {}).unwrap();
    store
}

#[test]
fn scenario_winning_claim_after_fee() {
    let mut store = running_market();
    // Round 2 is bettable in [T0, T0 + interval].
    let up = env_with_sscrt("alice", T0 + 100, 100);
    handle(&mut store, &up, HandleMsg::Bet { position: Position::Up }).unwrap();
    let down = env_with_sscrt("bob", T0 + 200, 100);
    handle(&mut store, &down, HandleMsg::Bet { position: Position::Down }).unwrap();

    let round = match prediction::contract::query(
        &store,
        prediction::types::QueryMsg::Round { epoch: 2 },
    )
    .unwrap()
    {
        prediction::types::QueryAnswer::Round(r) => r,
        _ => panic!("expected a round answer"),
    };
    assert_eq!(round.total_amount, 200);
    assert_eq!(round.up_amount, 100);
    assert_eq!(round.down_amount, 100);

    // Settle genesis: seeds round 2's open price.
    execute_round(&mut store, &env_at("anyone", T0 + INTERVAL), 10).unwrap();
    // Settle round 2: price moved up, 5% fee of 200 = 10, reward 190.
    execute_round(&mut store, &env_at("anyone", T0 + 2 * INTERVAL), 20).unwrap();

    let st = read_state(&store).unwrap();
    assert_eq!(st.total_fee, 10);
    assert_eq!(st.epoch, 4);

    // The Up bettor claims 100 * (0.95 * 200) / 100 = 190.
    let transfer = handle(
        &mut store,
        &env_at("alice", T0 + 2 * INTERVAL + 1),
        HandleMsg::Claim { epoch: 2 },
    )
    .unwrap();
    assert_eq!(transfer.messages.len(), 1);
    assert_eq!(transfer.messages[0].amount, 190);
    assert_eq!(transfer.messages[0].recipient, "alice");

    // The Down bettor gets nothing, and the failed claim still consumes the
    // claim right.
    let res = handle(
        &mut store,
        &env_at("bob", T0 + 2 * INTERVAL + 1),
        HandleMsg::Claim { epoch: 2 },
    )
    .unwrap_err();
    assert_eq!(res, Error::NothingToClaim);
    let res = handle(
        &mut store,
        &env_at("bob", T0 + 2 * INTERVAL + 2),
        HandleMsg::Claim { epoch: 2 },
    )
    .unwrap_err();
    assert_eq!(res, Error::AlreadyClaimed);

    // The winner cannot claim twice either.
    let res = handle(
        &mut store,
        &env_at("alice", T0 + 2 * INTERVAL + 2),
        HandleMsg::Claim { epoch: 2 },
    )
    .unwrap_err();
    assert_eq!(res, Error::AlreadyClaimed);
}

#[test]
fn scenario_proportional_payout_rounds_down() {
    let mut store = running_market();
    bet(&mut store, &env_at("alice", T0 + 100), "alice".to_string(), Position::Up, 60).unwrap();
    bet(&mut store, &env_at("carol", T0 + 100), "carol".to_string(), Position::Up, 41).unwrap();
    bet(&mut store, &env_at("bob", T0 + 100), "bob".to_string(), Position::Down, 99).unwrap();

    execute_round(&mut store, &env_at("anyone", T0 + INTERVAL), 10).unwrap();
    execute_round(&mut store, &env_at("anyone", T0 + 2 * INTERVAL), 20).unwrap();

    // total = 200, fee = 10, reward = 190, winning pool = 101.
    // alice: floor(190 * 60 / 101) = 112, carol: floor(190 * 41 / 101) = 77.
    let t = handle(&mut store, &env_at("alice", T0 + 2 * INTERVAL), HandleMsg::Claim { epoch: 2 })
        .unwrap();
    assert_eq!(t.messages[0].amount, 112);
    let t = handle(&mut store, &env_at("carol", T0 + 2 * INTERVAL), HandleMsg::Claim { epoch: 2 })
        .unwrap();
    assert_eq!(t.messages[0].amount, 77);
    // 112 + 77 = 189 <= 190: the rounding loss stays in the contract.
}

#[test]
fn scenario_oracle_failure_refunds_stake() {
    let mut store = running_market();
    bet(&mut store, &env_at("alice", T0 + 100), "alice".to_string(), Position::Up, 77).unwrap();
    bet(&mut store, &env_at("bob", T0 + 100), "bob".to_string(), Position::Down, 33).unwrap();

    // The oracle never answers: round 2 passes end + grace with no close price.
    let late = T0 + 2 * INTERVAL + INTERVAL + 1;
    let t = handle(&mut store, &env_at("alice", late), HandleMsg::Claim { epoch: 2 }).unwrap();
    assert_eq!(t.messages[0].amount, 77);
    let t = handle(&mut store, &env_at("bob", late), HandleMsg::Claim { epoch: 2 }).unwrap();
    assert_eq!(t.messages[0].amount, 33);
}

#[test]
fn scenario_push_round_refunds_stake() {
    let mut store = running_market();
    bet(&mut store, &env_at("alice", T0 + 100), "alice".to_string(), Position::Up, 70).unwrap();
    bet(&mut store, &env_at("bob", T0 + 100), "bob".to_string(), Position::Down, 30).unwrap();

    execute_round(&mut store, &env_at("anyone", T0 + INTERVAL), 10).unwrap();
    // The round closes exactly where it opened: a push, everyone refunded.
    execute_round(&mut store, &env_at("anyone", T0 + 2 * INTERVAL), 10).unwrap();

    let t = handle(&mut store, &env_at("alice", T0 + 2 * INTERVAL), HandleMsg::Claim { epoch: 2 })
        .unwrap();
    assert_eq!(t.messages[0].amount, 70);
    let t = handle(&mut store, &env_at("bob", T0 + 2 * INTERVAL), HandleMsg::Claim { epoch: 2 })
        .unwrap();
    assert_eq!(t.messages[0].amount, 30);
}

#[test]
fn scenario_one_sided_round_refunds_after_lock() {
    let mut store = running_market();
    bet(&mut store, &env_at("alice", T0 + 100), "alice".to_string(), Position::Up, 55).unwrap();
    // Nobody took the other side; once the window locks the round is
    // degenerate and the bettor recovers the stake.
    let t = handle(
        &mut store,
        &env_at("alice", T0 + INTERVAL + 1),
        HandleMsg::Claim { epoch: 2 },
    )
    .unwrap();
    assert_eq!(t.messages[0].amount, 55);
}

#[test]
fn test_bet_rejections() {
    let mut store = running_market();
    // Zero stake.
    let res = handle(&mut store, &env_at("alice", T0 + 100), HandleMsg::Bet {
        position: Position::Up,
    })
    .unwrap_err();
    assert_eq!(res, Error::ZeroAmount);
    // Second bet by the same user.
    bet(&mut store, &env_at("alice", T0 + 100), "alice".to_string(), Position::Up, 10).unwrap();
    let res = bet(&mut store, &env_at("alice", T0 + 200), "alice".to_string(), Position::Down, 20)
        .unwrap_err();
    assert_eq!(res, Error::AlreadyBet);
    // Past the lock the round no longer accepts bets.
    let res = bet(&mut store, &env_at("bob", T0 + INTERVAL + 1), "bob".to_string(), Position::Up, 5)
        .unwrap_err();
    assert_eq!(res, Error::NotBettable);
    // While paused no bets are accepted.
    handle(&mut store, &env_at("owner_addr", T0 + 200), HandleMsg::Pause {}).unwrap();
    let res = bet(&mut store, &env_at("bob", T0 + 300), "bob".to_string(), Position::Up, 5)
        .unwrap_err();
    assert_eq!(res, Error::Paused);
}

#[test]
fn test_bet_before_init_rejected() {
    let mut store = Storage::new();
    let res = bet(&mut store, &env_at("alice", T0), "alice".to_string(), Position::Up, 5)
        .unwrap_err();
    assert_eq!(res, Error::NotInitialized);
}

#[test]
fn test_genesis_round_rejects_claims() {
    let mut store = running_market();
    // Nobody can ever have a bet on the genesis round; even once it is
    // refundable by age there is nothing to pay out.
    let res = handle(
        &mut store,
        &env_at("alice", T0 + 3 * INTERVAL),
        HandleMsg::Claim { epoch: 1 },
    )
    .unwrap_err();
    assert_eq!(res, Error::BetNotFound);
}

#[test]
fn test_claim_rejections() {
    let mut store = running_market();
    bet(&mut store, &env_at("alice", T0 + 100), "alice".to_string(), Position::Up, 10).unwrap();
    // Unknown epoch.
    let res = handle(&mut store, &env_at("alice", T0 + 100), HandleMsg::Claim { epoch: 9 })
        .unwrap_err();
    assert_eq!(res, Error::RoundNotFound);
    // The round is still open: neither claimable nor refundable.
    let res = handle(&mut store, &env_at("alice", T0 + 100), HandleMsg::Claim { epoch: 2 })
        .unwrap_err();
    assert_eq!(res, Error::NotClaimable);
    // Settled round, but the caller never bet.
    execute_round(&mut store, &env_at("anyone", T0 + INTERVAL), 10).unwrap();
    execute_round(&mut store, &env_at("anyone", T0 + 2 * INTERVAL), 20).unwrap();
    let res = handle(&mut store, &env_at("mallory", T0 + 2 * INTERVAL), HandleMsg::Claim {
        epoch: 2,
    })
    .unwrap_err();
    assert_eq!(res, Error::BetNotFound);
}

#[test]
fn test_execute_round_rejections() {
    let mut store = Storage::new();
    let res = execute_round(&mut store, &env_at("anyone", T0), 10).unwrap_err();
    assert_eq!(res, Error::NotInitialized);

    let mut store = running_market();
    // The genesis round only ends one interval after the start.
    let res = execute_round(&mut store, &env_at("anyone", T0 + 10), 10).unwrap_err();
    assert_eq!(res, Error::NotExecutable);
    // Once settled, a round is never executable again at the same epoch.
    execute_round(&mut store, &env_at("anyone", T0 + INTERVAL), 10).unwrap();
    let round = match prediction::contract::query(
        &store,
        prediction::types::QueryMsg::Round { epoch: 1 },
    )
    .unwrap()
    {
        prediction::types::QueryAnswer::Round(r) => r,
        _ => panic!("expected a round answer"),
    };
    assert_eq!(round.close_price, Some(10));
    let res = execute_round(&mut store, &env_at("anyone", T0 + INTERVAL + 1), 11).unwrap_err();
    assert_eq!(res, Error::NotExecutable);
}

#[test]
fn test_withdraw_flow() {
    let mut store = running_market();
    // Nothing accrued yet.
    let res = withdraw(&mut store, &env_at("treasury_addr", T0 + 100)).unwrap_err();
    assert_eq!(res, Error::NothingToWithdraw);

    bet(&mut store, &env_at("alice", T0 + 100), "alice".to_string(), Position::Up, 100).unwrap();
    bet(&mut store, &env_at("bob", T0 + 100), "bob".to_string(), Position::Down, 100).unwrap();
    execute_round(&mut store, &env_at("anyone", T0 + INTERVAL), 10).unwrap();
    execute_round(&mut store, &env_at("anyone", T0 + 2 * INTERVAL), 20).unwrap();

    // Only the operator or the treasury may withdraw.
    let res = withdraw(&mut store, &env_at("mallory", T0 + 2 * INTERVAL)).unwrap_err();
    assert_eq!(res, Error::Unauthorized);

    let t = withdraw(&mut store, &env_at("treasury_addr", T0 + 2 * INTERVAL)).unwrap();
    assert_eq!(t.amount, 10);
    assert_eq!(t.recipient, "treasury_addr");
    assert_eq!(read_state(&store).unwrap().total_fee, 0);
    let res = withdraw(&mut store, &env_at("treasury_addr", T0 + 2 * INTERVAL)).unwrap_err();
    assert_eq!(res, Error::NothingToWithdraw);
}

#[test]
fn scenario_viewing_key_gated_query() {
    let mut store = running_market();
    bet(&mut store, &env_at("alice", T0 + 100), "alice".to_string(), Position::Up, 42).unwrap();
    handle(
        &mut store,
        &env_at("alice", T0 + 100),
        HandleMsg::SetViewingKey { key: "open sesame".to_string(), padding: None },
    )
    .unwrap();

    // The correct key reads the bet; any other string is rejected.
    let b = query_bet(&store, 2, &"alice".to_string(), &"open sesame".to_string()).unwrap();
    assert_eq!(b.amount, 42);
    assert_eq!(b.position, Position::Up);
    assert!(!b.claimed);
    let res = query_bet(&store, 2, &"alice".to_string(), &"open sesam".to_string()).unwrap_err();
    assert_eq!(res, Error::InvalidViewingKey);
    // A user with no stored key cannot be read at all.
    let res = query_bet(&store, 2, &"bob".to_string(), &"open sesame".to_string()).unwrap_err();
    assert_eq!(res, Error::InvalidViewingKey);
}

#[test]
fn test_created_key_is_derived_from_hashed_material() {
    let mut store = running_market();
    let env = env_at("alice", T0 + 5);
    let resp = handle(
        &mut store,
        &env,
        HandleMsg::CreateViewingKey { entropy: "tea".to_string(), padding: None },
    )
    .unwrap();
    let key = resp.key.unwrap();

    // Recompute the derivation: hashed seed, then the clock, the caller's
    // code points and the entropy's, hashed again and hex-rendered.
    let mut material = secret_toolkit::crypto::sha_256("lolz fun yay".as_bytes()).to_vec();
    material.extend_from_slice(&(T0 + 5).to_be_bytes());
    for c in "alice".chars() {
        material.extend_from_slice(&(c as u32).to_be_bytes());
    }
    for c in "tea".chars() {
        material.extend_from_slice(&(c as u32).to_be_bytes());
    }
    let digest = secret_toolkit::crypto::sha_256(&material);
    let expected: String = digest.iter().map(|b| format!("{:02x}", b)).collect();
    assert_eq!(key, expected);
    assert_eq!(key.len(), 64);

    // And the created key validates like a set key does.
    assert!(prediction::query::validate_viewing_key(&store, &"alice".to_string(), &key));
}

#[test]
fn test_permit_gated_query() {
    let mut store = running_market();
    bet(&mut store, &env_at("alice", T0 + 100), "alice".to_string(), Position::Down, 13).unwrap();

    let permit = Permit {
        account: "alice".to_string(),
        permit_name: "reader".to_string(),
        permissions: vec![Permission::Owner, Permission::Balance],
    };
    let b = permit_queries(&store, &permit, 2).unwrap();
    assert_eq!(b.amount, 13);

    // Without the owner permission the read is denied.
    let weak = Permit {
        account: "alice".to_string(),
        permit_name: "reader".to_string(),
        permissions: vec![Permission::Balance],
    };
    let res = permit_queries(&store, &weak, 2).unwrap_err();
    assert_eq!(res, Error::PermissionDenied);

    // Revoking the permit name shuts the door for that permit.
    handle(
        &mut store,
        &env_at("alice", T0 + 200),
        HandleMsg::RevokePermit { permit_name: "reader".to_string(), padding: None },
    )
    .unwrap();
    let res = permit_queries(&store, &permit, 2).unwrap_err();
    assert_eq!(res, Error::PermissionDenied);
}

#[test]
fn test_cw20_receive_bet() {
    let mut store = Storage::new();
    let msg = InitMsg {
        operator_addr: "operator_addr".to_string(),
        treasury_addr: "treasury_addr".to_string(),
        bet_asset: AssetInfo::Token { contract_addr: "token_addr".to_string() },
        oracle_addr: "oracle_addr".to_string(),
        oracle_code_hash: "oracle_code_hash".to_string(),
        fee_rate: percent(5),
        interval: INTERVAL,
        grace_interval: INTERVAL,
        prng_seed: "lolz fun yay".as_bytes().to_vec(),
    };
    init(&mut store, &env_at("owner_addr", T0), msg).unwrap();
    handle(&mut store, &env_at("owner_addr", T0), HandleMsg::StartGenesisRound {}).unwrap();

    // A transfer without an embedded instruction is rejected.
    let res = handle(&mut store, &env_at("token_addr", T0 + 10), HandleMsg::Receive {
        from: "alice".to_string(),
        msg: None,
        amount: 25,
    })
    .unwrap_err();
    assert_eq!(res, Error::MissingHookData);

    // Only the configured token contract may report a transfer.
    let res = handle(&mut store, &env_at("impostor", T0 + 10), HandleMsg::Receive {
        from: "alice".to_string(),
        msg: Some(prediction::types::Cw20HookMsg::Bet { position: Position::Up }),
        amount: 25,
    })
    .unwrap_err();
    assert_eq!(res, Error::InvalidAsset);

    // The genuine token contract places the bet for the original payer.
    handle(&mut store, &env_at("token_addr", T0 + 10), HandleMsg::Receive {
        from: "alice".to_string(),
        msg: Some(prediction::types::Cw20HookMsg::Bet { position: Position::Up }),
        amount: 25,
    })
    .unwrap();
    let round = match prediction::contract::query(
        &store,
        prediction::types::QueryMsg::Round { epoch: 2 },
    )
    .unwrap()
    {
        prediction::types::QueryAnswer::Round(r) => r,
        _ => panic!("expected a round answer"),
    };
    assert_eq!(round.up_amount, 25);

    // A native-coin bet against a token market is rejected.
    let res = handle(&mut store, &env_with_sscrt("bob", T0 + 10, 5), HandleMsg::Bet {
        position: Position::Down,
    })
    .unwrap_err();
    assert_eq!(res, Error::InvalidAsset);
}

#[test]
fn test_round_query_unknown_epoch() {
    let store = Storage::new();
    let res = query_round(&store, 1).unwrap_err();
    assert_eq!(res, Error::RoundNotFound);
}

#[test]
fn test_position_names() {
    assert_eq!(Position::Up.to_string(), "up");
    assert_eq!(Position::Down.to_string(), "down");
}

#[test]
fn test_update_config_partial_by_operator() {
    let mut store = running_market();
    // The operator may update too, and omitted fields keep their values.
    let env = env_at("operator_addr", T0 + 5);
    handle(&mut store, &env, HandleMsg::UpdateConfig {
        owner_addr: None,
        operator_addr: None,
        treasury_addr: None,
        oracle_addr: None,
        oracle_code_hash: None,
        fee_rate: Some(percent(7)),
        interval: None,
        grace_interval: None,
    })
    .unwrap();
    let cfg = prediction::state::read_config(&store).unwrap();
    assert_eq!(cfg.fee_rate, percent(7));
    assert_eq!(cfg.owner_addr, "owner_addr");
    assert_eq!(cfg.operator_addr, "operator_addr");
    assert_eq!(cfg.interval, INTERVAL);
    assert_eq!(cfg.grace_interval, INTERVAL);
}

#[test]
fn test_pause_blocks_bets_not_settlement() {
    let mut store = running_market();
    bet(&mut store, &env_at("alice", T0 + 100), "alice".to_string(), Position::Up, 10).unwrap();
    handle(&mut store, &env_at("operator_addr", T0 + 200), HandleMsg::Pause {}).unwrap();
    // Betting stops...
    let res = bet(&mut store, &env_at("bob", T0 + 300), "bob".to_string(), Position::Down, 10)
        .unwrap_err();
    assert_eq!(res, Error::Paused);
    // ...but in-flight rounds still settle on schedule.
    execute_round(&mut store, &env_at("anyone", T0 + INTERVAL), 10).unwrap();
    assert_eq!(read_state(&store).unwrap().epoch, 3);
    assert!(read_state(&store).unwrap().paused);
}

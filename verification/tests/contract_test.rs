use prediction::contract::{handle, init, query};
use prediction::query::validate_viewing_key;
use prediction::state::{read_config, read_viewing_key, Storage};
use prediction::types::{
    AssetInfo, ConfigResponse, Env, Error, HandleMsg, InitMsg, QueryAnswer, QueryMsg, Round, State,
};

const MOCK_TIME: u64 = 1_571_797_419;
const MOCK_CONTRACT_ADDR: &str = "cosmos2contract";

fn percent(p: u128) -> u128 {
    p * 10_000_000_000_000_000
}

fn mock_env(sender: &str) -> Env {
    Env {
        time: MOCK_TIME,
        sender: sender.to_string(),
        contract_addr: MOCK_CONTRACT_ADDR.to_string(),
        sent_funds: Vec::new(),
    }
}

fn default_init_msg() -> InitMsg {
    InitMsg {
        operator_addr: "operator_addr".to_string(),
        treasury_addr: "treasury_addr".to_string(),
        bet_asset: AssetInfo::NativeToken { denom: "sscrt".to_string() },
        oracle_addr: "oracle_addr".to_string(),
        oracle_code_hash: "oracle_code_hash".to_string(),
        fee_rate: percent(5),
        interval: 18000,
        grace_interval: 18000,
        prng_seed: "lolz fun yay".as_bytes().to_vec(),
    }
}

fn init_prediction(store: &mut Storage) {
    let env = mock_env("owner_addr");
    init(store, &env, default_init_msg()).unwrap();
}

fn start_genesis_round(store: &mut Storage) {
    let env = mock_env("owner_addr");
    handle(store, &env, HandleMsg::StartGenesisRound {}).unwrap();
}

#[test]
fn test_init_failed_if_fee_rate_is_greater_than_100() {
    let mut store = Storage::new();
    let mut msg = default_init_msg();
    msg.fee_rate = percent(101);
    let env = mock_env("addr");
    let res = init(&mut store, &env, msg).unwrap_err();
    assert_eq!(Error::InvalidFeeRate, res);
}

#[test]
fn test_init_failed_if_grace_interval_is_greater_than_interval() {
    let mut store = Storage::new();
    let mut msg = default_init_msg();
    msg.fee_rate = percent(3);
    msg.grace_interval = 18001;
    let env = mock_env("addr");
    let res = init(&mut store, &env, msg).unwrap_err();
    assert_eq!(Error::InvalidGraceInterval, res);
}

#[test]
fn test_init() {
    let mut store = Storage::new();
    let env = mock_env("addr");
    init(&mut store, &env, default_init_msg()).unwrap();

    let res = query(&store, QueryMsg::Config {}).unwrap();
    let config = match res {
        QueryAnswer::Config(c) => c,
        _ => panic!("expected a config answer"),
    };
    assert_eq!(
        ConfigResponse {
            contract_addr: MOCK_CONTRACT_ADDR.to_string(),
            owner_addr: "addr".to_string(),
            operator_addr: "operator_addr".to_string(),
            treasury_addr: "treasury_addr".to_string(),
            bet_asset: AssetInfo::NativeToken { denom: "sscrt".to_string() },
            oracle_addr: "oracle_addr".to_string(),
            oracle_code_hash: "oracle_code_hash".to_string(),
            fee_rate: percent(5),
            interval: 18000,
            grace_interval: 18000,
        },
        config
    );

    let res = query(&store, QueryMsg::State {}).unwrap();
    let state = match res {
        QueryAnswer::State(s) => s,
        _ => panic!("expected a state answer"),
    };
    assert_eq!(State { epoch: 0, total_fee: 0, paused: true }, state);

    let config = read_config(&store).unwrap();
    assert_eq!(
        config.prng_seed,
        secret_toolkit::crypto::sha_256("lolz fun yay".as_bytes()).to_vec()
    );
}

fn update_config_msg(fee_rate: u128, interval: u64, grace_interval: u64) -> HandleMsg {
    HandleMsg::UpdateConfig {
        owner_addr: Some("owner_addr1".to_string()),
        operator_addr: Some("operator_addr1".to_string()),
        treasury_addr: Some("treasury_addr1".to_string()),
        oracle_addr: Some("oracle_addr1".to_string()),
        oracle_code_hash: Some("oracle_code_hash1".to_string()),
        fee_rate: Some(fee_rate),
        interval: Some(interval),
        grace_interval: Some(grace_interval),
    }
}

#[test]
fn test_update_config_failed_if_unauthorized() {
    let mut store = Storage::new();
    init_prediction(&mut store);
    let env = mock_env("addr");
    let res = handle(&mut store, &env, update_config_msg(percent(3), 20000, 20000));
    match res {
        Err(Error::Unauthorized) => {},
        _ => panic!("Must return unauthorized error"),
    }
    // A rejected update leaves the configuration untouched.
    let cfg = read_config(&store).unwrap();
    assert_eq!(cfg.owner_addr, "owner_addr");
    assert_eq!(cfg.fee_rate, percent(5));
    assert_eq!(cfg.interval, 18000);
}

#[test]
fn test_update_config_failed_if_fee_rate_is_greater_than_100() {
    let mut store = Storage::new();
    init_prediction(&mut store);
    let env = mock_env("owner_addr");
    let res = handle(&mut store, &env, update_config_msg(percent(101), 20000, 20000)).unwrap_err();
    assert_eq!(Error::InvalidFeeRate, res);
}

#[test]
fn test_update_config_failed_if_grace_interval_is_greater_than_interval() {
    let mut store = Storage::new();
    init_prediction(&mut store);
    let env = mock_env("owner_addr");
    let res = handle(&mut store, &env, update_config_msg(percent(4), 20000, 21000)).unwrap_err();
    assert_eq!(Error::InvalidGraceInterval, res);
}

#[test]
fn test_update_config() {
    let mut store = Storage::new();
    init_prediction(&mut store);
    let env = mock_env("owner_addr");
    let res = handle(&mut store, &env, update_config_msg(percent(4), 20000, 19000)).unwrap();
    assert!(res.messages.is_empty());

    let answer = query(&store, QueryMsg::Config {}).unwrap();
    let config = match answer {
        QueryAnswer::Config(c) => c,
        _ => panic!("expected a config answer"),
    };
    assert_eq!(
        ConfigResponse {
            contract_addr: MOCK_CONTRACT_ADDR.to_string(),
            owner_addr: "owner_addr1".to_string(),
            operator_addr: "operator_addr1".to_string(),
            treasury_addr: "treasury_addr1".to_string(),
            bet_asset: AssetInfo::NativeToken { denom: "sscrt".to_string() },
            oracle_addr: "oracle_addr1".to_string(),
            oracle_code_hash: "oracle_code_hash1".to_string(),
            fee_rate: percent(4),
            interval: 20000,
            grace_interval: 19000,
        },
        config
    );
}

#[test]
fn test_start_genesis_round_failed_if_unauthorized() {
    let mut store = Storage::new();
    init_prediction(&mut store);
    let env = mock_env("addr");
    let res = handle(&mut store, &env, HandleMsg::StartGenesisRound {});
    match res {
        Err(Error::Unauthorized) => {},
        _ => panic!("Must return unauthorized error"),
    }
}

#[test]
fn test_start_genesis_round() {
    let mut store = Storage::new();
    init_prediction(&mut store);
    let env = mock_env("owner_addr");
    handle(&mut store, &env, HandleMsg::StartGenesisRound {}).unwrap();

    let res = query(&store, QueryMsg::State {}).unwrap();
    let state = match res {
        QueryAnswer::State(s) => s,
        _ => panic!("expected a state answer"),
    };
    assert_eq!(State { epoch: 2, total_fee: 0, paused: false }, state);

    let res = query(&store, QueryMsg::Round { epoch: 1 }).unwrap();
    let genesis_round = match res {
        QueryAnswer::Round(r) => r,
        _ => panic!("expected a round answer"),
    };
    assert_eq!(
        Round {
            start_time: env.time - 18000,
            lock_time: env.time,
            end_time: env.time + 18000,
            open_price: None,
            close_price: None,
            total_amount: 0,
            reward_amount: 0,
            up_amount: 0,
            down_amount: 0,
            is_genesis: true,
        },
        genesis_round
    );

    let res = query(&store, QueryMsg::Round { epoch: 2 }).unwrap();
    let first_round = match res {
        QueryAnswer::Round(r) => r,
        _ => panic!("expected a round answer"),
    };
    assert_eq!(
        Round {
            start_time: env.time,
            lock_time: env.time + 18000,
            end_time: env.time + 36000,
            open_price: None,
            close_price: None,
            total_amount: 0,
            reward_amount: 0,
            up_amount: 0,
            down_amount: 0,
            is_genesis: false,
        },
        first_round
    );
}

#[test]
fn test_start_genesis_round_failed_if_already_started() {
    let mut store = Storage::new();
    init_prediction(&mut store);
    start_genesis_round(&mut store);
    let env = mock_env("owner_addr");
    let res = handle(&mut store, &env, HandleMsg::StartGenesisRound {}).unwrap_err();
    assert_eq!(Error::AlreadyRunning, res);
}

#[test]
fn test_pause_failed_if_already_paused() {
    let mut store = Storage::new();
    init_prediction(&mut store);
    let env = mock_env("owner_addr");
    let res = handle(&mut store, &env, HandleMsg::Pause {}).unwrap_err();
    assert_eq!(Error::Paused, res);
}

#[test]
fn test_pause_failed_if_unauthorized() {
    let mut store = Storage::new();
    init_prediction(&mut store);
    start_genesis_round(&mut store);
    let env = mock_env("addr");
    let res = handle(&mut store, &env, HandleMsg::Pause {});
    match res {
        Err(Error::Unauthorized) => {},
        _ => panic!("Must return unauthorized error"),
    }
}

#[test]
fn test_pause() {
    let mut store = Storage::new();
    init_prediction(&mut store);
    start_genesis_round(&mut store);
    let env = mock_env("owner_addr");
    let res = handle(&mut store, &env, HandleMsg::Pause {}).unwrap();
    assert!(res.messages.is_empty());

    let answer = query(&store, QueryMsg::State {}).unwrap();
    let state = match answer {
        QueryAnswer::State(s) => s,
        _ => panic!("expected a state answer"),
    };
    assert_eq!(State { epoch: 2, total_fee: 0, paused: true }, state);
}

#[test]
fn test_create_viewing_key() {
    let mut store = Storage::new();
    init_prediction(&mut store);
    let env = mock_env("user");
    let res = handle(
        &mut store,
        &env,
        HandleMsg::CreateViewingKey { entropy: "".to_string(), padding: None },
    )
    .unwrap();

    let key = read_viewing_key(&store, &"user".to_string()).unwrap();
    assert_eq!(res.key, Some(key));
}

#[test]
fn test_set_viewing_key() {
    let mut store = Storage::new();
    init_prediction(&mut store);
    let actual_vk = "x".to_string().repeat(32);
    let env = mock_env("user");
    let res = handle(
        &mut store,
        &env,
        HandleMsg::SetViewingKey { key: actual_vk.clone(), padding: None },
    )
    .unwrap();
    assert!(res.messages.is_empty());

    let key = read_viewing_key(&store, &"user".to_string()).unwrap();
    assert_eq!(actual_vk, key);
    assert!(validate_viewing_key(&store, &"user".to_string(), &actual_vk));
}

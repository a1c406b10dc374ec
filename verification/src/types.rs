//! Data model: protocol configuration, per-round records, bets, and the
//! request/response types of the externally exposed operations.
//!
//! Fee rates and oracle prices are fixed-point values scaled by
//! `RATE_SCALE` (18 decimal places); amounts are plain `u128` units of the
//! configured bet asset.

use vstd::prelude::*;

use crate::math::checked_mul_ratio;

verus! {

/// One fixed-point unit: a rate of `RATE_SCALE` means 100%.
pub const RATE_SCALE: u128 = 1_000_000_000_000_000_000;

/// The direction a bettor predicts.
#[derive(Clone, Copy, Debug, PartialEq, Eq, Structural)]
pub enum Position {
    Up,
    Down,
}

impl Position {
    /// Lower-case name of the direction, as it appears in operation logs.
    pub fn to_string(&self) -> (r: String)
        ensures
            *self is Up ==> r@ == "up"@,
            *self is Down ==> r@ == "down"@,
    {
        match self {
            Position::Up => "up".to_owned(),
            Position::Down => "down".to_owned(),
        }
    }
}

/// The asset bettors stake: either a native coin or a token contract.
#[derive(Clone, Debug, PartialEq)]
pub enum AssetInfo {
    NativeToken { denom: String },
    Token { contract_addr: String },
}

/// Protocol parameters, created at initialization and changed only by an
/// authorized update.
#[derive(Clone, Debug, PartialEq)]
pub struct Config {
    pub contract_addr: String,
    pub owner_addr: String,
    pub operator_addr: String,
    pub treasury_addr: String,
    pub bet_asset: AssetInfo,
    pub oracle_addr: String,
    pub oracle_code_hash: String,
    /// Fraction of each settled pool kept as protocol fee, scaled by `RATE_SCALE`.
    pub fee_rate: u128,
    /// Length of one round in seconds.
    pub interval: u64,
    /// Extra seconds after `end_time` allowed for settlement before a round
    /// is treated as failed and refundable.
    pub grace_interval: u64,
    /// Hashed seed used to derive viewing keys.
    pub prng_seed: Vec<u8>,
}

impl Config {
    /// Numeric bounds every stored configuration satisfies.
    pub open spec fn valid(self) -> bool {
        &&& self.fee_rate <= RATE_SCALE
        &&& self.grace_interval <= self.interval
    }
}

/// Mutable protocol counters.
#[derive(Clone, Debug, PartialEq)]
pub struct State {
    /// Epoch of the round currently open for bets (0 before genesis).
    pub epoch: u128,
    /// Accumulated, not yet withdrawn, protocol fee.
    pub total_fee: u128,
    /// While paused no bets are accepted; starts true.
    pub paused: bool,
}

/// One bettor's stake in one round.
#[derive(Clone, Copy, Debug, PartialEq, Eq, Structural)]
pub struct Bet {
    pub amount: u128,
    pub position: Position,
    pub claimed: bool,
}

/// One betting window with its timing, outcome prices and pool totals.
#[derive(Clone, Copy, Debug, PartialEq)]
pub struct Round {
    pub start_time: u64,
    pub lock_time: u64,
    pub end_time: u64,
    /// Price at the start of the window; set when the round locks.
    pub open_price: Option<u128>,
    /// Price at the end of the window; set exactly once, at settlement.
    pub close_price: Option<u128>,
    pub total_amount: u128,
    /// Pool distributed to winners: total minus fee, zero for one-sided rounds.
    pub reward_amount: u128,
    pub up_amount: u128,
    pub down_amount: u128,
    /// The seed round created at genesis; never bettable, never pays out.
    pub is_genesis: bool,
}

impl Round {
    /// The pool accounting every round satisfies at all times.
    pub open spec fn wf(self) -> bool {
        &&& self.total_amount == self.up_amount + self.down_amount
        &&& self.reward_amount <= self.total_amount
    }

    pub open spec fn spec_bettable(self, time: u64) -> bool {
        &&& !self.is_genesis
        &&& self.start_time <= time
        &&& time <= self.lock_time
        &&& self.open_price is None
    }

    /// A genuine directional outcome can be claimed against.
    pub open spec fn spec_claimable(self, time: u64) -> bool {
        &&& time >= self.end_time
        &&& self.open_price is Some
        &&& self.close_price is Some
        &&& self.open_price != self.close_price
    }

    /// Stakes are returned when there was no movement, the oracle never
    /// settled within the grace interval, or one side had no counterparty.
    pub open spec fn spec_refundable(self, time: u64, grace_interval: u64) -> bool {
        ||| (time >= self.end_time && self.open_price is Some && self.close_price is Some
            && self.open_price == self.close_price)
        ||| (self.close_price is None && time > self.end_time + grace_interval)
        ||| (time > self.lock_time && (self.up_amount == 0 || self.down_amount == 0))
    }

    pub open spec fn spec_executable(self, time: u64) -> bool {
        &&& time >= self.end_time
        &&& (self.is_genesis || self.open_price is Some)
        &&& self.close_price is None
    }

    pub open spec fn spec_expired(self, time: u64, grace_interval: u64) -> bool {
        &&& time > self.end_time + grace_interval
        &&& self.close_price is None
    }

    /// The pool a bet must be on to win; zero when the bet lost or no
    /// directional outcome exists.
    pub open spec fn spec_winning_pool(self, bet: Bet) -> u128 {
        match (self.open_price, self.close_price) {
            (Some(open), Some(close)) => {
                if close > open && bet.position is Up {
                    self.up_amount
                } else if close < open && bet.position is Down {
                    self.down_amount
                } else {
                    0u128
                }
            },
            _ => 0u128,
        }
    }

    /// Exact amount owed for a bet: the reward pool split proportionally
    /// (rounded down) for winners, the principal on the refund path, zero
    /// otherwise.  A proportional share too large for the amount type is
    /// treated defensively as zero; it cannot arise for a bet recorded in
    /// the round's own pools.
    pub open spec fn spec_claimable_amount(self, time: u64, bet: Bet, grace_interval: u64) -> u128 {
        if self.spec_claimable(time) {
            let win = self.spec_winning_pool(bet);
            if win == 0 {
                0u128
            } else {
                let share = (self.reward_amount as int) * (bet.amount as int) / (win as int);
                if share <= u128::MAX as int {
                    share as u128
                } else {
                    0u128
                }
            }
        } else if self.spec_refundable(time, grace_interval) {
            bet.amount
        } else {
            0u128
        }
    }

    pub fn bettable(&self, time: u64) -> (r: bool)
        ensures
            r == self.spec_bettable(time),
    {
        !self.is_genesis && self.start_time <= time && time <= self.lock_time
            && self.open_price.is_none()
    }

    pub fn claimable(&self, time: u64) -> (r: bool)
        ensures
            r == self.spec_claimable(time),
    {
        time >= self.end_time && match (self.open_price, self.close_price) {
            (Some(open), Some(close)) => open != close,
            _ => false,
        }
    }

    pub fn refundable(&self, time: u64, grace_interval: u64) -> (r: bool)
        ensures
            r == self.spec_refundable(time, grace_interval),
    {
        let push = time >= self.end_time && match (self.open_price, self.close_price) {
            (Some(open), Some(close)) => open == close,
            _ => false,
        };
        let oracle_failed = self.close_price.is_none()
            && (time as u128) > (self.end_time as u128) + (grace_interval as u128);
        let one_sided = time > self.lock_time && (self.up_amount == 0 || self.down_amount == 0);
        push || oracle_failed || one_sided
    }

    pub fn executable(&self, time: u64) -> (r: bool)
        ensures
            r == self.spec_executable(time),
    {
        time >= self.end_time && (self.is_genesis || self.open_price.is_some())
            && self.close_price.is_none()
    }

    pub fn expired(&self, time: u64, grace_interval: u64) -> (r: bool)
        ensures
            r == self.spec_expired(time, grace_interval),
    {
        (time as u128) > (self.end_time as u128) + (grace_interval as u128)
            && self.close_price.is_none()
    }

    pub fn claimable_amount(&self, time: u64, user_bet: &Bet, grace_interval: u64) -> (r: u128)
        ensures
            r == self.spec_claimable_amount(time, *user_bet, grace_interval),
    {
        if self.claimable(time) {
            let win = match (self.open_price, self.close_price) {
                (Some(open), Some(close)) => {
                    if close > open && user_bet.position == Position::Up {
                        self.up_amount
                    } else if close < open && user_bet.position == Position::Down {
                        self.down_amount
                    } else {
                        0u128
                    }
                },
                _ => 0u128,
            };
            if win == 0 {
                0u128
            } else {
                match checked_mul_ratio(self.reward_amount, user_bet.amount, win) {
                    Some(share) => share,
                    None => 0u128,
                }
            }
        } else if self.refundable(time, grace_interval) {
            user_bet.amount
        } else {
            0u128
        }
    }
}

/// A field-preserving copy (the derived clone says nothing to the verifier).
pub fn clone_asset(a: &AssetInfo) -> (r: AssetInfo)
    ensures
        r == *a,
{
    match a {
        AssetInfo::NativeToken { denom } => AssetInfo::NativeToken { denom: denom.clone() },
        AssetInfo::Token { contract_addr } => AssetInfo::Token {
            contract_addr: contract_addr.clone(),
        },
    }
}

/// An element-for-element copy (the derived clone of a byte vector says
/// nothing to the verifier).
pub fn clone_bytes(v: &Vec<u8>) -> (r: Vec<u8>)
    ensures
        r@ == v@,
{
    let mut r: Vec<u8> = Vec::new();
    let n = v.len();
    for i in 0..n
        invariant
            n == v@.len(),
            r@.len() == i,
            forall|j: int| 0 <= j < i ==> r@[j] == v@[j],
    {
        r.push(v[i]);
    }
    proof {
        assert(r@ =~= v@);
    }
    r
}

/// The set of failures an operation can be rejected with.
#[derive(Clone, Copy, Debug, PartialEq, Eq, Structural)]
pub enum Error {
    /// The caller lacks the required identity.
    Unauthorized,
    /// A fee rate above 100% was supplied.
    InvalidFeeRate,
    /// A grace interval longer than the round interval was supplied.
    InvalidGraceInterval,
    /// The protocol has not been initialized yet.
    NotInitialized,
    /// A zero stake was offered.
    ZeroAmount,
    /// The protocol is paused (or was asked to pause while already paused).
    Paused,
    /// The protocol is already running.
    AlreadyRunning,
    /// The target round does not accept bets now.
    NotBettable,
    /// The caller already has a bet in this round.
    AlreadyBet,
    /// The target round is neither claimable nor refundable.
    NotClaimable,
    /// No round exists for the given epoch.
    RoundNotFound,
    /// The caller has no bet in the target round.
    BetNotFound,
    /// The caller's claim right for this round was already consumed.
    AlreadyClaimed,
    /// The computed payout is zero; the claim right is still consumed.
    NothingToClaim,
    /// The previous round cannot be settled yet.
    NotExecutable,
    /// No accumulated fee to withdraw.
    NothingToWithdraw,
    /// The supplied viewing key does not match the stored one.
    InvalidViewingKey,
    /// The permit lacks the required permission or was revoked.
    PermissionDenied,
    /// The payment does not use the configured bet asset.
    InvalidAsset,
    /// A token transfer arrived without an embedded instruction.
    MissingHookData,
}

/// A coin attached to an incoming operation.
#[derive(Clone, Debug, PartialEq)]
pub struct Coin {
    pub denom: String,
    pub amount: u128,
}

/// Per-operation context supplied by the host: the clock, the caller and
/// the funds the caller attached.
#[derive(Clone, Debug)]
pub struct Env {
    pub time: u64,
    pub sender: String,
    pub contract_addr: String,
    pub sent_funds: Vec<Coin>,
}

/// An instruction to the host to move `amount` units of `asset` to
/// `recipient`.
#[derive(Clone, Debug, PartialEq)]
pub struct TransferMsg {
    pub asset: AssetInfo,
    pub recipient: String,
    pub amount: u128,
}

/// Observable outcome of a successful operation: asset transfers to issue
/// and, for key creation, the newly derived viewing key.
#[derive(Clone, Debug, PartialEq)]
pub struct HandleResponse {
    pub messages: Vec<TransferMsg>,
    pub key: Option<String>,
}

/// Deploy-time parameters.
#[derive(Clone, Debug, PartialEq)]
pub struct InitMsg {
    pub operator_addr: String,
    pub treasury_addr: String,
    pub bet_asset: AssetInfo,
    pub oracle_addr: String,
    pub oracle_code_hash: String,
    pub fee_rate: u128,
    pub interval: u64,
    pub grace_interval: u64,
    pub prng_seed: Vec<u8>,
}

/// Instruction embedded in an incoming token transfer.
#[derive(Clone, Copy, Debug, PartialEq, Eq, Structural)]
pub enum Cw20HookMsg {
    Bet { position: Position },
}

/// The closed set of state-changing operations.
#[derive(Clone, Debug)]
pub enum HandleMsg {
    Receive { from: String, msg: Option<Cw20HookMsg>, amount: u128 },
    UpdateConfig {
        owner_addr: Option<String>,
        operator_addr: Option<String>,
        treasury_addr: Option<String>,
        oracle_addr: Option<String>,
        oracle_code_hash: Option<String>,
        fee_rate: Option<u128>,
        interval: Option<u64>,
        grace_interval: Option<u64>,
    },
    Bet { position: Position },
    Claim { epoch: u128 },
    ExecuteRound { oracle_price: u128 },
    Withdraw {},
    Pause {},
    StartGenesisRound {},
    CreateViewingKey { entropy: String, padding: Option<String> },
    SetViewingKey { key: String, padding: Option<String> },
    RevokePermit { permit_name: String, padding: Option<String> },
}

/// A permission carried by a query permit.
#[derive(Clone, Copy, Debug, PartialEq, Eq, Structural)]
pub enum Permission {
    Owner,
    History,
    Balance,
    Allowance,
}

/// A query permit after external signature verification: the recovered
/// identity, the permit's name and the permissions it grants.
#[derive(Clone, Debug)]
pub struct Permit {
    pub account: String,
    pub permit_name: String,
    pub permissions: Vec<Permission>,
}

/// Query selected by a permit.
#[derive(Clone, Copy, Debug)]
pub enum QueryWithPermit {
    Bet { epoch: u128 },
}

/// The closed set of read-only operations.
#[derive(Clone, Debug)]
pub enum QueryMsg {
    Config {},
    State {},
    Round { epoch: u128 },
    Bet { epoch: u128, user: String, key: String },
    WithPermit { permit: Permit, query: QueryWithPermit },
}

/// Public projection of the configuration (the key seed stays private).
#[derive(Clone, Debug, PartialEq)]
pub struct ConfigResponse {
    pub contract_addr: String,
    pub owner_addr: String,
    pub operator_addr: String,
    pub treasury_addr: String,
    pub bet_asset: AssetInfo,
    pub oracle_addr: String,
    pub oracle_code_hash: String,
    pub fee_rate: u128,
    pub interval: u64,
    pub grace_interval: u64,
}

/// Answer to a read-only operation.
#[derive(Clone, Debug, PartialEq)]
pub enum QueryAnswer {
    Config(ConfigResponse),
    State(State),
    Round(Round),
    Bet(Bet),
}

} // verus!

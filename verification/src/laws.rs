//! The library-wide laws: pool accounting, claim idempotence, the payout
//! bound of a settled round, the refund guarantee of a push round, and the
//! inertness of the genesis round.

use vstd::prelude::*;

use crate::handler::{bet_transition, claim_transition};
use crate::manage::{execute_transition, genesis_transition};
use crate::math::{lemma_div_plus_le, lemma_mul_div_le, lemma_mul_div_ordered};
use crate::state::{
    lemma_bet_index_char, lemma_bet_index_props, spec_bet_index, spec_bet_lookup, BetEntry,
    Storage,
};
use crate::types::{Bet, Error, Position, Round};

verus! {

impl Round {
    /// The side that wins a claimable round.
    pub open spec fn spec_winning_position(self) -> Position {
        if self.close_price->0 > self.open_price->0 {
            Position::Up
        } else {
            Position::Down
        }
    }

    /// The pool staked on the winning side of a claimable round.
    pub open spec fn spec_winning_amount(self) -> u128 {
        if self.spec_winning_position() is Up {
            self.up_amount
        } else {
            self.down_amount
        }
    }
}

/// Combined stake of a list of bets.
pub open spec fn sum_amounts(bets: Seq<Bet>) -> int
    decreases bets.len(),
{
    if bets.len() == 0 {
        0
    } else {
        sum_amounts(bets.drop_last()) + bets.last().amount
    }
}

/// Combined payout a round owes a list of bets at one instant.
pub open spec fn sum_claims(round: Round, time: u64, bets: Seq<Bet>, grace_interval: u64) -> int
    decreases bets.len(),
{
    if bets.len() == 0 {
        0
    } else {
        sum_claims(round, time, bets.drop_last(), grace_interval) + round.spec_claimable_amount(
            time,
            bets.last(),
            grace_interval,
        )
    }
}

proof fn lemma_sum_amounts_nonneg(bets: Seq<Bet>)
    ensures
        0 <= sum_amounts(bets),
    decreases bets.len(),
{
    if bets.len() > 0 {
        lemma_sum_amounts_nonneg(bets.drop_last());
    }
}

/// A winning bet's payout is its exact proportional share, and the shares
/// of a list of winning bets staking at most the winning pool sum to at
/// most that pool's share of the reward.
proof fn lemma_sum_claims_le(round: Round, time: u64, bets: Seq<Bet>, grace_interval: u64)
    requires
        round.spec_claimable(time),
        round.spec_winning_amount() > 0,
        forall|i: int|
            0 <= i < bets.len() ==> (#[trigger] bets[i]).position
                == round.spec_winning_position(),
        sum_amounts(bets) <= round.spec_winning_amount(),
    ensures
        0 <= sum_claims(round, time, bets, grace_interval),
        sum_claims(round, time, bets, grace_interval) <= (round.reward_amount as int) * sum_amounts(
            bets,
        ) / (round.spec_winning_amount() as int),
    decreases bets.len(),
{
    let reward = round.reward_amount as int;
    let win = round.spec_winning_amount() as int;
    if bets.len() == 0 {
        vstd::arithmetic::div_mod::lemma_div_pos_is_pos(0, win);
        assert(reward * 0 == 0) by (nonlinear_arith);
    } else {
        let rest = bets.drop_last();
        let last = bets.last();
        lemma_sum_amounts_nonneg(rest);
        lemma_sum_claims_le(round, time, rest, grace_interval);
        // The last bet is on the winning side, so its pool is the winning pool
        // and its share is exactly reward * amount / win, which fits u128.
        assert(round.spec_winning_pool(last) == round.spec_winning_amount());
        lemma_mul_div_le(reward, last.amount as int, win);
        let share = reward * (last.amount as int) / win;
        assert(round.spec_claimable_amount(time, last, grace_interval) == share);
        // Shares of parts never outgrow the share of the whole.
        lemma_mul_div_ordered(reward, sum_amounts(rest), sum_amounts(rest), win);
        assert(reward * sum_amounts(rest) >= 0) by (nonlinear_arith)
            requires
                reward >= 0,
                sum_amounts(rest) >= 0,
        ;
        assert(reward * (last.amount as int) >= 0) by (nonlinear_arith)
            requires
                reward >= 0,
        ;
        lemma_div_plus_le(reward * sum_amounts(rest), reward * (last.amount as int), win);
        assert(reward * sum_amounts(rest) + reward * (last.amount as int) == reward * (sum_amounts(
            rest,
        ) + last.amount)) by (nonlinear_arith);
        assert(sum_amounts(bets) == sum_amounts(rest) + last.amount);
        assert(sum_claims(round, time, bets, grace_interval) == sum_claims(
            round,
            time,
            rest,
            grace_interval,
        ) + share);
    }
}

/// Law: the payouts of a settled round's winning side never exceed its
/// reward pool — rounding down only ever loses value, it never overpays.
/// The bets are any list of winning-side bets whose combined stake is at
/// most the winning pool (as the ledger guarantees, one bet per user).
pub proof fn lemma_claims_never_exceed_reward(
    round: Round,
    time: u64,
    bets: Seq<Bet>,
    grace_interval: u64,
)
    requires
        round.spec_claimable(time),
        round.spec_winning_amount() > 0,
        forall|i: int|
            0 <= i < bets.len() ==> (#[trigger] bets[i]).position
                == round.spec_winning_position(),
        sum_amounts(bets) <= round.spec_winning_amount(),
    ensures
        0 <= sum_claims(round, time, bets, grace_interval) <= round.reward_amount,
{
    let reward = round.reward_amount as int;
    let win = round.spec_winning_amount() as int;
    lemma_sum_claims_le(round, time, bets, grace_interval);
    lemma_sum_amounts_nonneg(bets);
    lemma_mul_div_ordered(reward, sum_amounts(bets), win, win);
    vstd::arithmetic::div_mod::lemma_div_by_multiple(reward, win);
    assert(reward * win == win * reward) by (nonlinear_arith);
}

/// Law: when a round closed exactly where it opened, every bettor in it is
/// owed exactly their original stake, fees untouched.
pub proof fn lemma_push_round_refunds_stake(round: Round, time: u64, bet: Bet, grace_interval: u64)
    requires
        round.open_price is Some,
        round.close_price is Some,
        round.open_price == round.close_price,
        time >= round.end_time,
    ensures
        round.spec_claimable_amount(time, bet, grace_interval) == bet.amount,
{
}

/// Law: claiming is idempotent in effect.  Once a claim succeeded, the same
/// caller's claim for the same epoch is rejected as already claimed at any
/// later instant — there is never a second payout.
pub proof fn lemma_claim_idempotent(
    pre: Storage,
    post: Storage,
    time1: u64,
    time2: u64,
    sender: String,
    epoch: u128,
)
    requires
        pre.wf(),
        pre.spec_claim_outcome(time1, sender@, epoch) is Ok,
        claim_transition(pre, post, time1, sender, epoch),
        time1 <= time2,
    ensures
        post.spec_claim_outcome(time2, sender@, epoch) == Err::<u128, Error>(
            Error::AlreadyClaimed,
        ),
{
    let cfg = pre.spec_config()->0;
    let round = pre.spec_round(epoch)->0;
    let i = spec_bet_index(pre.spec_bets(), epoch, sender@);
    lemma_bet_index_props(pre.spec_bets(), epoch, sender@);
    assert(post.spec_round(epoch) == Some(round));
    // The settlement gate stays open as time moves forward.
    assert(round.spec_claimable(time2) || round.spec_refundable(time2, cfg.grace_interval));
    // The caller's record is found at the same position, now marked claimed.
    lemma_bet_index_char(post.spec_bets(), epoch, sender@, i);
    assert(spec_bet_lookup(post.spec_bets(), epoch, sender@)->0.claimed);
}

/// Law: a bettor has at most one bet per epoch.  Once a bet is accepted,
/// any further bet by the same user is rejected while that epoch is
/// current — as already placed if the betting window is still open.
pub proof fn lemma_second_bet_rejected(
    pre: Storage,
    post: Storage,
    time1: u64,
    time2: u64,
    user: String,
    position: Position,
    amount1: u128,
    amount2: u128,
)
    requires
        pre.wf(),
        pre.spec_bet_outcome(time1, user@, amount1) is Ok,
        bet_transition(pre, post, time1, user, position, amount1),
    ensures
        post.spec_bet_outcome(time2, user@, amount2) is Err,
        (amount2 != 0 && pre.spec_round(pre.spec_state()->0.epoch)->0.spec_bettable(time2))
            ==> post.spec_bet_outcome(time2, user@, amount2) == Err::<(), Error>(
            Error::AlreadyBet,
        ),
{
    let st = pre.spec_state()->0;
    let round = pre.spec_round(st.epoch)->0;
    let posts = post.spec_bets();
    let n = posts.len() - 1;
    assert(posts[n].epoch == st.epoch && posts[n].user@ == user@);
    lemma_bet_index_props(posts, st.epoch, user@);
    assert(spec_bet_index(posts, st.epoch, user@) >= 0);
    assert(spec_bet_lookup(posts, st.epoch, user@) is Some);
    assert(post.spec_state() == pre.spec_state());
    let grown = post.spec_round(st.epoch)->0;
    assert(grown.spec_bettable(time2) == round.spec_bettable(time2));
}

/// Law: in every well-formed state, each round's pool is exactly its up
/// and down sides combined.
pub proof fn lemma_pools_balance(s: Storage, epoch: u128)
    requires
        s.wf(),
        s.spec_round(epoch) is Some,
    ensures
        ({
            let r = s.spec_round(epoch)->0;
            r.total_amount == r.up_amount + r.down_amount
        }),
{
}

/// Law: a genesis round accepts no bet and never pays out.  While it is the
/// current round no bet is accepted, and a claim against it is always
/// rejected — in a well-formed state no bet record for it can even exist.
pub proof fn lemma_genesis_never_bets_never_pays(
    s: Storage,
    time: u64,
    user: Seq<char>,
    amount: u128,
    epoch: u128,
)
    requires
        s.wf(),
        s.spec_round(epoch) is Some,
        s.spec_round(epoch)->0.is_genesis,
    ensures
        (s.spec_state() matches Some(st) && st.epoch == epoch) ==> s.spec_bet_outcome(
            time,
            user,
            amount,
        ) is Err,
        s.spec_claim_outcome(time, user, epoch) is Err,
        s.spec_claim_outcome(time, user, epoch) != Err::<u128, Error>(Error::NothingToClaim),
{
    lemma_bet_index_props(s.spec_bets(), epoch, user);
    let i = spec_bet_index(s.spec_bets(), epoch, user);
    if i >= 0 {
        assert(!s.spec_rounds()[s.spec_bets()[i].epoch - 1].is_genesis);
        assert(false);
    }
    assert(spec_bet_lookup(s.spec_bets(), epoch, user) is None);
}

/// Stake recorded on one side of one epoch, summed over the whole ledger.
pub open spec fn sum_side(bets: Seq<BetEntry>, epoch: u128, position: Position) -> int
    decreases bets.len(),
{
    if bets.len() == 0 {
        0
    } else {
        sum_side(bets.drop_last(), epoch, position) + (
        if bets.last().epoch == epoch && bets.last().bet.position == position {
            bets.last().bet.amount as int
        } else {
            0
        })
    }
}

/// The bets of one epoch on one side, in ledger order.
pub open spec fn side_bets(bets: Seq<BetEntry>, epoch: u128, position: Position) -> Seq<Bet>
    decreases bets.len(),
{
    if bets.len() == 0 {
        Seq::empty()
    } else if bets.last().epoch == epoch && bets.last().bet.position == position {
        side_bets(bets.drop_last(), epoch, position).push(bets.last().bet)
    } else {
        side_bets(bets.drop_last(), epoch, position)
    }
}

proof fn lemma_side_bets_sum(bets: Seq<BetEntry>, epoch: u128, position: Position)
    ensures
        sum_amounts(side_bets(bets, epoch, position)) == sum_side(bets, epoch, position),
        forall|i: int|
            0 <= i < side_bets(bets, epoch, position).len() ==> (#[trigger] side_bets(
                bets,
                epoch,
                position,
            )[i]).position == position,
    decreases bets.len(),
{
    if bets.len() > 0 {
        lemma_side_bets_sum(bets.drop_last(), epoch, position);
        let rest = side_bets(bets.drop_last(), epoch, position);
        if bets.last().epoch == epoch && bets.last().bet.position == position {
            assert(rest.push(bets.last().bet).drop_last() =~= rest);
        }
    }
}

proof fn lemma_sum_side_update(
    s: Seq<BetEntry>,
    i: int,
    entry: BetEntry,
    epoch: u128,
    position: Position,
)
    requires
        0 <= i < s.len(),
        entry.epoch == s[i].epoch,
        entry.bet.position == s[i].bet.position,
        entry.bet.amount == s[i].bet.amount,
    ensures
        sum_side(s.update(i, entry), epoch, position) == sum_side(s, epoch, position),
    decreases s.len(),
{
    let s2 = s.update(i, entry);
    if i == s.len() - 1 {
        assert(s2.drop_last() =~= s.drop_last());
    } else {
        assert(s2.drop_last() =~= s.drop_last().update(i, entry));
        assert(s2.last() == s.last());
        lemma_sum_side_update(s.drop_last(), i, entry, epoch, position);
    }
}

proof fn lemma_sum_side_absent(s: Seq<BetEntry>, epoch: u128, position: Position)
    requires
        forall|j: int| 0 <= j < s.len() ==> (#[trigger] s[j]).epoch != epoch,
    ensures
        sum_side(s, epoch, position) == 0,
    decreases s.len(),
{
    if s.len() > 0 {
        lemma_sum_side_absent(s.drop_last(), epoch, position);
    }
}

/// Law: each stored round's pools are exactly the stakes recorded for it,
/// side by side.  This holds along every history that never restarts the
/// genesis over a used ledger; the lemmas below carry it through each
/// operation.
pub open spec fn ledger_consistent(s: Storage) -> bool {
    forall|e: u128|
        #![trigger s.spec_round(e)]
        1 <= e <= s.spec_rounds().len() ==> {
            &&& sum_side(s.spec_bets(), e, Position::Up) == s.spec_rounds()[e - 1].up_amount
            &&& sum_side(s.spec_bets(), e, Position::Down) == s.spec_rounds()[e - 1].down_amount
        }
}

/// An operation that touches neither the rounds nor the bets keeps the
/// ledger consistent.
pub proof fn lemma_ledger_untouched(pre: Storage, post: Storage)
    requires
        ledger_consistent(pre),
        post.spec_rounds() == pre.spec_rounds(),
        post.spec_bets() == pre.spec_bets(),
    ensures
        ledger_consistent(post),
{
    assert forall|e: u128|
        1 <= e <= post.spec_rounds().len() implies {
        &&& sum_side(post.spec_bets(), e, Position::Up) == post.spec_rounds()[e - 1].up_amount
        &&& sum_side(post.spec_bets(), e, Position::Down) == post.spec_rounds()[e - 1].down_amount
    } by {
        assert(pre.spec_round(e) is Some);
    }
}

/// A bet keeps the ledger consistent: the stake lands in exactly the pool
/// whose recorded sum it joins.
pub proof fn lemma_bet_preserves_ledger(
    pre: Storage,
    post: Storage,
    time: u64,
    user: String,
    position: Position,
    amount: u128,
)
    requires
        pre.wf(),
        pre.bet_fits(time, user@, amount),
        ledger_consistent(pre),
        bet_transition(pre, post, time, user, position, amount),
    ensures
        ledger_consistent(post),
{
    if pre.spec_bet_outcome(time, user@, amount) is Ok {
        let st = pre.spec_state()->0;
        let e0 = st.epoch;
        let entry = BetEntry { epoch: e0, user, bet: Bet { amount, position, claimed: false } };
        let round = pre.spec_round(e0)->0;
        assert(round.wf());
        assert(round.total_amount + amount <= u128::MAX);
        let pb = pre.spec_bets();
        let nb = post.spec_bets();
        assert(nb == pb.push(entry));
        assert(nb.drop_last() =~= pb);
        assert(nb.last() == entry);
        assert forall|e: u128|
            1 <= e <= post.spec_rounds().len() implies {
            &&& sum_side(post.spec_bets(), e, Position::Up) == post.spec_rounds()[e
                - 1].up_amount
            &&& sum_side(post.spec_bets(), e, Position::Down) == post.spec_rounds()[e
                - 1].down_amount
        } by {
            assert(pre.spec_round(e) is Some);
            assert(sum_side(nb, e, Position::Up) == sum_side(pb, e, Position::Up) + (
            if entry.epoch == e && entry.bet.position == Position::Up {
                amount as int
            } else {
                0int
            }));
            assert(sum_side(nb, e, Position::Down) == sum_side(pb, e, Position::Down) + (
            if entry.epoch == e && entry.bet.position == Position::Down {
                amount as int
            } else {
                0int
            }));
            if e == e0 {
                assert(post.spec_rounds()[e0 - 1].up_amount as int == pre.spec_rounds()[e0
                    - 1].up_amount as int + (if position is Up {
                    amount as int
                } else {
                    0int
                }));
                assert(post.spec_rounds()[e0 - 1].down_amount as int == pre.spec_rounds()[e0
                    - 1].down_amount as int + (if position is Down {
                    amount as int
                } else {
                    0int
                }));
            } else {
                assert(post.spec_rounds()[e - 1] == pre.spec_rounds()[e - 1]);
            }
            assert(sum_side(post.spec_bets(), e, Position::Up) == post.spec_rounds()[e
                - 1].up_amount);
            assert(sum_side(post.spec_bets(), e, Position::Down) == post.spec_rounds()[e
                - 1].down_amount);
        }
    } else {
        lemma_ledger_untouched(pre, post);
    }
}

/// A claim keeps the ledger consistent: marking a bet claimed moves no
/// stake.
pub proof fn lemma_claim_preserves_ledger(
    pre: Storage,
    post: Storage,
    time: u64,
    sender: String,
    epoch: u128,
)
    requires
        pre.wf(),
        ledger_consistent(pre),
        claim_transition(pre, post, time, sender, epoch),
    ensures
        ledger_consistent(post),
{
    if pre.spec_claim_consumes(time, sender@, epoch) {
        let i = spec_bet_index(pre.spec_bets(), epoch, sender@);
        lemma_bet_index_props(pre.spec_bets(), epoch, sender@);
        let b = pre.spec_bets()[i].bet;
        let entry = BetEntry {
            epoch,
            user: sender,
            bet: Bet { amount: b.amount, position: b.position, claimed: true },
        };
        assert forall|e: u128|
            1 <= e <= post.spec_rounds().len() implies {
            &&& sum_side(post.spec_bets(), e, Position::Up) == post.spec_rounds()[e
                - 1].up_amount
            &&& sum_side(post.spec_bets(), e, Position::Down) == post.spec_rounds()[e
                - 1].down_amount
        } by {
            assert(pre.spec_round(e) is Some);
            lemma_sum_side_update(pre.spec_bets(), i, entry, e, Position::Up);
            lemma_sum_side_update(pre.spec_bets(), i, entry, e, Position::Down);
        }
    } else {
        lemma_ledger_untouched(pre, post);
    }
}

/// A settlement keeps the ledger consistent along a fresh history (one
/// whose stored rounds are exactly the epochs counted so far): the settled
/// and primed rounds keep their pools, and the fresh round starts empty.
pub proof fn lemma_execute_preserves_ledger(
    pre: Storage,
    post: Storage,
    time: u64,
    oracle_price: u128,
)
    requires
        pre.wf(),
        ledger_consistent(pre),
        execute_transition(pre, post, time, oracle_price),
        pre.spec_state() matches Some(st) ==> pre.spec_rounds().len() == st.epoch,
    ensures
        ledger_consistent(post),
{
    if pre.spec_execute_outcome(time) is Ok {
        let st = pre.spec_state()->0;
        let e0 = st.epoch;
        assert forall|e: u128|
            1 <= e <= post.spec_rounds().len() implies {
            &&& sum_side(post.spec_bets(), e, Position::Up) == post.spec_rounds()[e
                - 1].up_amount
            &&& sum_side(post.spec_bets(), e, Position::Down) == post.spec_rounds()[e
                - 1].down_amount
        } by {
            if e <= e0 {
                assert(pre.spec_round(e) is Some);
                if e == e0 - 1 {
                    assert(post.spec_round(e) is Some);
                } else if e == e0 {
                    assert(post.spec_round(e) is Some);
                } else {
                    assert(post.spec_rounds()[e - 1] == pre.spec_rounds()[e - 1]);
                }
            } else {
                assert(e == e0 + 1);
                assert(post.spec_round(e) is Some);
                assert forall|j: int|
                    0 <= j < pre.spec_bets().len() implies (#[trigger] pre.spec_bets()[j]).epoch
                    != e by {}
                lemma_sum_side_absent(pre.spec_bets(), e, Position::Up);
                lemma_sum_side_absent(pre.spec_bets(), e, Position::Down);
            }
        }
    } else {
        lemma_ledger_untouched(pre, post);
    }
}

/// The first genesis start establishes ledger consistency: both fresh
/// rounds begin with empty pools over an empty bet ledger.
pub proof fn lemma_genesis_establishes_ledger(pre: Storage, post: Storage, time: u64, sender: Seq<char>)
    requires
        pre.wf(),
        ledger_consistent(pre),
        pre.spec_rounds().len() == 0,
        genesis_transition(pre, post, time, sender),
    ensures
        ledger_consistent(post),
{
    if pre.spec_genesis_outcome(sender) is Ok {
        assert forall|e: u128|
            1 <= e <= post.spec_rounds().len() implies {
            &&& sum_side(post.spec_bets(), e, Position::Up) == post.spec_rounds()[e
                - 1].up_amount
            &&& sum_side(post.spec_bets(), e, Position::Down) == post.spec_rounds()[e
                - 1].down_amount
        } by {
            assert(post.spec_round(e) is Some);
            lemma_sum_side_absent(post.spec_bets(), e, Position::Up);
            lemma_sum_side_absent(post.spec_bets(), e, Position::Down);
        }
    } else {
        lemma_ledger_untouched(pre, post);
    }
}

/// Law: in a consistent ledger, the payouts owed to a settled round's whole
/// winning side never exceed its reward pool.
pub proof fn lemma_settled_round_never_overpays(s: Storage, time: u64, epoch: u128, grace_interval: u64)
    requires
        s.wf(),
        ledger_consistent(s),
        s.spec_round(epoch) is Some,
        s.spec_round(epoch)->0.spec_claimable(time),
        s.spec_round(epoch)->0.spec_winning_amount() > 0,
    ensures
        ({
            let round = s.spec_round(epoch)->0;
            let winners = side_bets(s.spec_bets(), epoch, round.spec_winning_position());
            0 <= sum_claims(round, time, winners, grace_interval) <= round.reward_amount
        }),
{
    let round = s.spec_round(epoch)->0;
    let pos = round.spec_winning_position();
    let winners = side_bets(s.spec_bets(), epoch, pos);
    lemma_side_bets_sum(s.spec_bets(), epoch, pos);
    assert(s.spec_round(epoch) is Some);
    assert(sum_amounts(winners) == round.spec_winning_amount());
    lemma_claims_never_exceed_reward(round, time, winners, grace_interval);
}

} // verus!

//! Who wins a matched contract, and who is paid what.

use vstd::prelude::*;
use crate::state::Direction;

verus! {

/// How long after the deadline a claim still goes by the price, in seconds:
/// one day. A later claim is a draw.
pub const GRACE_WINDOW: u32 = 86_400;

/// How a contract ends.
#[derive(Clone, Copy, Debug, PartialEq, Eq, Structural)]
pub enum Winner {
    Maker,
    Taker,
    Draw,
}

/// Who wins. A claim made once the grace window has passed, or at a closing
/// price equal to the benchmark, is a draw. Otherwise the maker wins where
/// the price moved to the maker's side, above the benchmark for `Long` and
/// below it for `Short`, and the taker wins where it did not.
pub open spec fn spec_winner(
    direction: Direction,
    benchmark: int,
    closing: int,
    now: int,
    deadline: int,
) -> Winner {
    if closing == benchmark || now >= deadline + GRACE_WINDOW {
        Winner::Draw
    } else if direction == Direction::Long && closing > benchmark {
        Winner::Maker
    } else if direction == Direction::Short && closing < benchmark {
        Winner::Maker
    } else {
        Winner::Taker
    }
}

/// What the maker is paid out of `payout`: all of it as winner, half of it,
/// rounded down, in a draw.
pub open spec fn spec_maker_share(winner: Winner, payout: nat) -> nat {
    match winner {
        Winner::Maker => payout,
        Winner::Taker => 0,
        Winner::Draw => payout / 2,
    }
}

/// What the taker is paid out of `payout`.
pub open spec fn spec_taker_share(winner: Winner, payout: nat) -> nat {
    match winner {
        Winner::Maker => 0,
        Winner::Taker => payout,
        Winner::Draw => payout / 2,
    }
}

/// Determines the winner of a contract from the maker's side, the two
/// prices, the time of the claim and the deadline.
pub fn determine_winner(
    direction: Direction,
    benchmark: i128,
    closing: i128,
    now: u32,
    deadline: u32,
) -> (winner: Winner)
    ensures
        winner == spec_winner(
            direction,
            benchmark as int,
            closing as int,
            now as int,
            deadline as int,
        ),
{
    let late: bool = now as u64 >= deadline as u64 + GRACE_WINDOW as u64;
    if closing == benchmark || late {
        Winner::Draw
    } else {
        match direction {
            Direction::Long => if closing > benchmark {
                Winner::Maker
            } else {
                Winner::Taker
            },
            Direction::Short => if closing < benchmark {
                Winner::Maker
            } else {
                Winner::Taker
            },
        }
    }
}

/// Splits `payout` between maker and taker.
pub fn shares(winner: Winner, payout: u64) -> (split: (u64, u64))
    ensures
        split.0 == spec_maker_share(winner, payout as nat),
        split.1 == spec_taker_share(winner, payout as nat),
{
    match winner {
        Winner::Maker => (payout, 0),
        Winner::Taker => (0, payout),
        Winner::Draw => (payout / 2, payout / 2),
    }
}

/// The two shares never exceed the payout. A decisive result pays all of
/// it; a draw leaves at most one lamport unpaid.
pub proof fn law_shares_conserve(winner: Winner, payout: nat)
    ensures
        spec_maker_share(winner, payout) + spec_taker_share(winner, payout) <= payout,
        winner != Winner::Draw ==> spec_maker_share(winner, payout) + spec_taker_share(
            winner,
            payout,
        ) == payout,
        winner == Winner::Draw ==> payout - (spec_maker_share(winner, payout) + spec_taker_share(
            winner,
            payout,
        )) == payout % 2,
{
}

/// From the end of the grace window on, every claim is a draw, whatever the
/// prices.
pub proof fn law_late_claim_is_draw(
    direction: Direction,
    benchmark: int,
    closing: int,
    now: int,
    deadline: int,
)
    requires
        now >= deadline + GRACE_WINDOW,
    ensures
        spec_winner(direction, benchmark, closing, now, deadline) == Winner::Draw,
{
}

/// Within the grace window the prices decide: equal prices are a draw, a
/// move to the maker's side is the maker's win, any other move the taker's.
pub proof fn law_price_decides(
    direction: Direction,
    benchmark: int,
    closing: int,
    now: int,
    deadline: int,
)
    requires
        now < deadline + GRACE_WINDOW,
    ensures
        closing == benchmark ==> spec_winner(direction, benchmark, closing, now, deadline)
            == Winner::Draw,
        direction == Direction::Long && closing > benchmark ==> spec_winner(
            direction,
            benchmark,
            closing,
            now,
            deadline,
        ) == Winner::Maker,
        direction == Direction::Long && closing < benchmark ==> spec_winner(
            direction,
            benchmark,
            closing,
            now,
            deadline,
        ) == Winner::Taker,
        direction == Direction::Short && closing < benchmark ==> spec_winner(
            direction,
            benchmark,
            closing,
            now,
            deadline,
        ) == Winner::Maker,
        direction == Direction::Short && closing > benchmark ==> spec_winner(
            direction,
            benchmark,
            closing,
            now,
            deadline,
        ) == Winner::Taker,
{
}

} // verus!

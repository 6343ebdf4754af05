//! What holds of the engine whatever commands it is given.

use vstd::prelude::*;
use crate::address::spec_derive;
use crate::error::TradeError;
use crate::ledger::spec_transfer;
use crate::processor::{
    ended_as, spec_claim, spec_claim_winner, spec_open, spec_payout, spec_process, spec_take,
    AccountsView, ContextView,
};
use crate::instruction::{spec_unpack, InstructionView, MakeView};
use crate::oracle::spec_price;
use crate::settlement::{spec_maker_share, spec_taker_share, Winner};
use crate::state::{spec_stored_len, Direction, Status, Trade, TradeView, UserView};
use crate::tables::{spec_duration_window, spec_escrow_amount};

verus! {

/// How far a contract has come: 0 for `Uninitialized` up to 3 for
/// `Settled`.
pub open spec fn rank(status: Status) -> int {
    match status {
        Status::Uninitialized => 0,
        Status::Open => 1,
        Status::Matched => 2,
        Status::Settled => 3,
    }
}

/// What a record holds once it has come to a status: from `Open` on a
/// known size code, and a slug and a symbol with which it fits in its
/// storage; from `Matched` on a benchmark price, a known duration code and
/// a deadline one window after the match; when `Settled` a closing price.
pub open spec fn well_formed(trade: TradeView) -> bool {
    &&& rank(trade.order_status) >= 1 ==> {
        &&& spec_escrow_amount(trade.contract_size) is Some
        &&& spec_stored_len(trade.slug, trade.symbol) <= Trade::LEN
    }
    &&& rank(trade.order_status) >= 2 ==> {
        &&& trade.benchmark_price != 0
        &&& spec_duration_window(trade.duration) matches Some(window) && trade.unix_end
            == trade.unix_start + window
    }
    &&& rank(trade.order_status) >= 3 ==> trade.closing_price != 0
}

/// The command that the bytes hold: 0 for opening, 1 for matching, 2 for
/// claiming, and -1 where they hold none.
pub open spec fn command(input: Seq<u8>) -> int {
    match spec_unpack(input) {
        Ok(InstructionView::MakeTrade(_)) => 0,
        Ok(InstructionView::TakeTrade(_)) => 1,
        Ok(InstructionView::Claim) => 2,
        Err(_) => -1,
    }
}

/// A command that succeeds moves the contract one step forward, and each
/// command makes its own step: opening leads from `Uninitialized` to
/// `Open`, matching from `Open` to `Matched`, claiming from `Matched` to
/// `Settled`. No command leads back, and a well-formed record stays so.
pub proof fn law_status_moves_forward(
    engine: Seq<u8>,
    context: ContextView,
    before: AccountsView,
    input: Seq<u8>,
    after: AccountsView,
)
    requires
        spec_process(engine, context, before, input) == Ok::<AccountsView, TradeError>(after),
    ensures
        rank(before.trade.order_status) == command(input),
        rank(after.trade.order_status) == command(input) + 1,
        well_formed(before.trade) ==> well_formed(after.trade),
{
}

/// The address of a contract is the one derived from its maker and slug
/// under the engine, with the nonce on record: opening makes it so, and no
/// later command changes it.
pub open spec fn derived_under(engine: Seq<u8>, trade: TradeView) -> bool {
    rank(trade.order_status) >= 1 ==> spec_derive(engine, trade.maker, trade.slug) == Some(
        (trade.trade_account, trade.bump),
    )
}

/// Every command keeps the contract's address the derived one.
pub proof fn law_address_stays_derived(
    engine: Seq<u8>,
    context: ContextView,
    before: AccountsView,
    input: Seq<u8>,
    after: AccountsView,
)
    requires
        derived_under(engine, before.trade),
        spec_process(engine, context, before, input) == Ok::<AccountsView, TradeError>(after),
    ensures
        derived_under(engine, after.trade),
{
}

/// Fresh storage holds a well-formed record.
pub proof fn law_zeroed_is_well_formed()
    ensures
        well_formed(TradeView::zeroed()),
        TradeView::zeroed().order_status == Status::Uninitialized,
{
}

/// Once a contract is open, no command changes who made it, under which
/// slug and address, on what asset, size, side and duration.
pub proof fn law_opening_terms_fixed(
    engine: Seq<u8>,
    context: ContextView,
    before: AccountsView,
    input: Seq<u8>,
    after: AccountsView,
)
    requires
        rank(before.trade.order_status) >= 1,
        spec_process(engine, context, before, input) == Ok::<AccountsView, TradeError>(after),
    ensures
        after.trade.maker == before.trade.maker,
        after.trade.trade_account == before.trade.trade_account,
        after.trade.bump == before.trade.bump,
        after.trade.slug == before.trade.slug,
        after.trade.symbol == before.trade.symbol,
        after.trade.contract_size == before.trade.contract_size,
        after.trade.direction == before.trade.direction,
        after.trade.duration == before.trade.duration,
        after.trade.unix_created == before.trade.unix_created,
{
}

/// Once a contract is matched, no command changes its taker, its benchmark
/// price, the time of the match or the deadline.
pub proof fn law_matching_terms_fixed(
    engine: Seq<u8>,
    context: ContextView,
    before: AccountsView,
    input: Seq<u8>,
    after: AccountsView,
)
    requires
        rank(before.trade.order_status) >= 2,
        spec_process(engine, context, before, input) == Ok::<AccountsView, TradeError>(after),
    ensures
        after.trade.taker == before.trade.taker,
        after.trade.benchmark_price == before.trade.benchmark_price,
        after.trade.unix_start == before.trade.unix_start,
        after.trade.unix_end == before.trade.unix_end,
{
}

/// A settled contract is final: every command on it fails, so that its
/// record, closing price included, and all balances stay as they are.
pub proof fn law_settled_is_final(
    engine: Seq<u8>,
    context: ContextView,
    before: AccountsView,
    input: Seq<u8>,
    after: AccountsView,
    r: Result<(), TradeError>,
)
    requires
        before.trade.order_status == Status::Settled,
        ended_as(spec_process(engine, context, before, input), before, after, r),
    ensures
        r is Err,
        after == before,
{
}

/// Opening fails with `InvalidContractAddress` exactly where the caller
/// signed, the caller and the slug have a derived address, and the caller
/// gave another.
pub proof fn law_open_checks_address(
    engine: Seq<u8>,
    context: ContextView,
    make: MakeView,
    before: AccountsView,
)
    ensures
        spec_open(engine, context, make, before) == Err::<AccountsView, TradeError>(
            TradeError::InvalidContractAddress,
        ) <==> context.is_signer && (spec_derive(
            engine,
            context.caller,
            make.slug,
        ) matches Some((address, _)) && address != context.trade_account),
{
}

/// Opening succeeds exactly where the caller signed and gave the derived
/// address, the oracle reads the contract's asset, the storage is fresh,
/// size and direction codes are known, the caller holds the stake, the
/// record fits in its storage and the user record is the caller's.
pub proof fn law_open_succeeds(
    engine: Seq<u8>,
    context: ContextView,
    make: MakeView,
    before: AccountsView,
)
    ensures
        spec_open(engine, context, make, before) is Ok <==> {
            &&& context.is_signer
            &&& spec_derive(engine, context.caller, make.slug) matches Some(
                (address, _),
            ) && address == context.trade_account
            &&& context.oracle.asset_label == make.symbol
            &&& before.trade.order_status == Status::Uninitialized
            &&& spec_escrow_amount(make.contract_size) matches Some(amount)
                && before.ledger[context.caller] >= amount
            &&& Direction::spec_from_code(make.direction) is Some
            &&& spec_stored_len(make.slug, make.symbol) <= Trade::LEN
            &&& before.user.identity == context.caller
        },
{
}

/// Of two matches in a row the second fails with `AlreadyMatched` and
/// changes nothing, whoever signs it and whatever the oracle reads then.
pub proof fn law_second_take_rejected(
    first: ContextView,
    before: AccountsView,
    matched: AccountsView,
    second: ContextView,
    after: AccountsView,
    r: Result<(), TradeError>,
)
    requires
        spec_take(first, before) == Ok::<AccountsView, TradeError>(matched),
        second.is_signer,
        ended_as(spec_take(second, matched), matched, after, r),
    ensures
        r == Err::<(), TradeError>(TradeError::AlreadyMatched),
        after == matched,
{
}

/// A match succeeds on an open contract only, and leaves it matched.
pub proof fn law_take_needs_open(context: ContextView, before: AccountsView, after: AccountsView)
    requires
        spec_take(context, before) == Ok::<AccountsView, TradeError>(after),
    ensures
        before.trade.order_status == Status::Open,
        after.trade.order_status == Status::Matched,
{
}

/// A signed claim on a contract that is not matched yet fails with
/// `NotMatched`; on a settled one with `AlreadySettled`; on a matched one,
/// by the parties on record, before the deadline, with `ClaimTooEarly`.
/// Each time nothing changes.
pub proof fn law_claim_rejections(
    context: ContextView,
    before: AccountsView,
    after: AccountsView,
    r: Result<(), TradeError>,
)
    requires
        context.is_signer,
        ended_as(spec_claim(context, before), before, after, r),
    ensures
        rank(before.trade.order_status) <= 1 ==> r == Err::<(), TradeError>(
            TradeError::NotMatched,
        ) && after == before,
        before.trade.order_status == Status::Settled ==> r == Err::<(), TradeError>(
            TradeError::AlreadySettled,
        ) && after == before,
        before.trade.order_status == Status::Matched && context.maker == before.trade.maker
            && context.taker == before.trade.taker && context.now < before.trade.unix_end ==> r
            == Err::<(), TradeError>(TradeError::ClaimTooEarly) && after == before,
{
}

/// Of two claims in a row the second fails with `AlreadySettled` and
/// changes nothing.
pub proof fn law_second_claim_rejected(
    first: ContextView,
    before: AccountsView,
    settled: AccountsView,
    second: ContextView,
    after: AccountsView,
    r: Result<(), TradeError>,
)
    requires
        spec_claim(first, before) == Ok::<AccountsView, TradeError>(settled),
        second.is_signer,
        ended_as(spec_claim(second, settled), settled, after, r),
    ensures
        r == Err::<(), TradeError>(TradeError::AlreadySettled),
        after == settled,
{
}

/// What an address gains when `amount` goes from `from` to `to`.
pub open spec fn gain(key: Seq<u8>, to: Seq<u8>, amount: nat) -> int {
    if key == to {
        amount as int
    } else {
        0
    }
}

/// A transfer takes `amount` from `from`, gives it to `to`, and leaves
/// every other balance alone.
pub proof fn law_transfer_moves(
    balances: Map<Seq<u8>, nat>,
    from: Seq<u8>,
    to: Seq<u8>,
    amount: nat,
    key: Seq<u8>,
)
    requires
        balances.dom().contains(key),
        balances.dom().contains(from),
        balances[from] >= amount,
    ensures
        spec_transfer(balances, from, to, amount)[key] == balances[key] + gain(key, to, amount)
            - gain(key, from, amount),
{
}

/// Opening and matching put exactly the stake in escrow: the caller loses
/// it, the contract's address gains it, and no other balance changes.
pub proof fn law_stake_is_escrowed(
    engine: Seq<u8>,
    context: ContextView,
    before: AccountsView,
    input: Seq<u8>,
    after: AccountsView,
    key: Seq<u8>,
)
    requires
        before.ledger.dom().contains(key),
        before.ledger.dom().contains(context.caller),
        rank(before.trade.order_status) <= 1,
        spec_process(engine, context, before, input) == Ok::<AccountsView, TradeError>(after),
    ensures
        spec_escrow_amount(after.trade.contract_size) matches Some(stake) && after.ledger[key]
            == before.ledger[key] + gain(key, after.trade.trade_account, stake as nat) - gain(
            key,
            context.caller,
            stake as nat,
        ),
{
}

/// Settlement conserves the escrow. What the contract's account held is
/// the rent floor plus the payout; maker and taker are credited their
/// shares, the contract's account is debited both, and no other balance
/// changes. The shares make up the payout but for the one lamport that a
/// draw on an odd payout leaves at the contract's address.
pub proof fn law_payout_conserved(
    context: ContextView,
    before: AccountsView,
    after: AccountsView,
    key: Seq<u8>,
)
    requires
        before.ledger.dom().contains(key),
        before.ledger.dom().contains(before.trade.trade_account),
        spec_claim(context, before) == Ok::<AccountsView, TradeError>(after),
    ensures
        ({
            let trade = before.trade;
            let payout = spec_payout(context, before);
            let winner = spec_claim_winner(context, trade, after.trade.closing_price);
            let to_maker = spec_maker_share(winner, payout);
            let to_taker = spec_taker_share(winner, payout);
            &&& spec_price(context.oracle, trade.symbol) == Ok::<int, TradeError>(
                after.trade.closing_price,
            )
            &&& before.ledger[trade.trade_account] == context.rent_floor + payout
            &&& to_maker + to_taker + (if winner == Winner::Draw {
                payout % 2
            } else {
                0
            }) == payout
            &&& after.ledger[key] == before.ledger[key] + gain(key, trade.maker, to_maker) + gain(
                key,
                trade.taker,
                to_taker,
            ) - gain(key, trade.trade_account, to_maker + to_taker)
        }),
{
}

/// One command in the history of a contract: the bytes of the command,
/// what it was run with, and what the ledger and the caller's record held
/// then.
pub struct Step {
    pub input: Seq<u8>,
    pub context: ContextView,
    pub ledger: Map<Seq<u8>, nat>,
    pub user: UserView,
}

/// What a step does to the accounts it finds with this record of the
/// contract.
pub open spec fn step_result(engine: Seq<u8>, step: Step, trade: TradeView) -> Result<
    AccountsView,
    TradeError,
> {
    spec_process(
        engine,
        step.context,
        AccountsView { ledger: step.ledger, user: step.user, trade },
        step.input,
    )
}

/// The record of the contract after a step: rewritten where the step
/// succeeded, the same where it failed.
pub open spec fn record_after(engine: Seq<u8>, step: Step, trade: TradeView) -> TradeView {
    match step_result(engine, step, trade) {
        Ok(after) => after.trade,
        Err(_) => trade,
    }
}

/// How often a command succeeds in a history that starts with this record
/// of the contract.
pub open spec fn successes(
    engine: Seq<u8>,
    which: int,
    history: Seq<Step>,
    trade: TradeView,
) -> nat
    decreases history.len(),
{
    if history.len() == 0 {
        0
    } else {
        let step = history.first();
        let next = record_after(engine, step, trade);
        let rest = successes(engine, which, history.drop_first(), next);
        if command(step.input) == which && step_result(engine, step, trade) is Ok {
            rest + 1
        } else {
            rest
        }
    }
}

/// In the whole history of a contract each command succeeds at most once,
/// whoever sends which commands in which order, and whatever the oracle
/// reads and the accounts hold: one opening, one match, one settlement.
/// None succeeds on a contract that has already come past it.
pub proof fn law_each_command_succeeds_once(
    engine: Seq<u8>,
    which: int,
    history: Seq<Step>,
    trade: TradeView,
)
    ensures
        successes(engine, which, history, trade) <= 1,
        rank(trade.order_status) > which ==> successes(engine, which, history, trade) == 0,
    decreases history.len(),
{
    if history.len() > 0 {
        let step = history.first();
        let next = record_after(engine, step, trade);
        law_each_command_succeeds_once(engine, which, history.drop_first(), next);
        if let Ok(after) = step_result(engine, step, trade) {
            law_status_moves_forward(
                engine,
                step.context,
                AccountsView { ledger: step.ledger, user: step.user, trade },
                step.input,
                after,
            );
        }
    }
}

} // verus!

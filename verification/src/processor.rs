//! The life of a contract: opened by a maker, matched by a taker, claimed
//! by anyone once its window has passed.

use vstd::prelude::*;
use crate::address::{spec_derive, Address, AddressDeriver};
use crate::error::TradeError;
use crate::instruction::{spec_unpack, InstructionView, Make, MakeView, Take, TradeInstruction};
use crate::ledger::{spec_transfer, Ledger};
use crate::oracle::{spec_price, OracleReading, OracleView};
use crate::settlement::{
    determine_winner, shares, spec_maker_share, spec_taker_share, spec_winner, Winner,
};
use crate::state::{spec_stored_len, Direction, Status, Trade, TradeView, User, UserView};
use crate::tables::{
    duration_window, escrow_amount, spec_duration_window, spec_escrow_amount, MAX_WINDOW,
};

verus! {

/// What a command is run with: who calls, which accounts the caller names,
/// and what was observed of the world.
#[derive(Clone, Debug)]
pub struct Context {
    /// The caller.
    pub caller: Address,
    /// Whether the caller signed the command.
    pub is_signer: bool,
    /// The address that the caller gives for the contract.
    pub trade_account: Address,
    /// The maker that a claim names.
    pub maker: Address,
    /// The taker that a claim names.
    pub taker: Address,
    /// The oracle's reading.
    pub oracle: OracleReading,
    /// The time, in seconds.
    pub now: u32,
    /// What a contract's account must keep to pay for its storage.
    pub rent_floor: u64,
}

/// A `Context` as a mathematical value.
pub struct ContextView {
    pub caller: Seq<u8>,
    pub is_signer: bool,
    pub trade_account: Seq<u8>,
    pub maker: Seq<u8>,
    pub taker: Seq<u8>,
    pub oracle: OracleView,
    pub now: int,
    pub rent_floor: nat,
}

impl View for Context {
    type V = ContextView;

    open spec fn view(&self) -> ContextView {
        ContextView {
            caller: self.caller@,
            is_signer: self.is_signer,
            trade_account: self.trade_account@,
            maker: self.maker@,
            taker: self.taker@,
            oracle: self.oracle@,
            now: self.now as int,
            rent_floor: self.rent_floor as nat,
        }
    }
}

/// What a command may change: the balances, the caller's record and the
/// contract's record.
#[derive(Clone, Debug)]
pub struct Accounts {
    pub ledger: Ledger,
    pub user: User,
    pub trade: Trade,
}

/// `Accounts` as a mathematical value.
pub struct AccountsView {
    pub ledger: Map<Seq<u8>, nat>,
    pub user: UserView,
    pub trade: TradeView,
}

impl View for Accounts {
    type V = AccountsView;

    open spec fn view(&self) -> AccountsView {
        AccountsView { ledger: self.ledger@, user: self.user@, trade: self.trade@ }
    }
}

/// The latest time at which a contract can be matched: its deadline must
/// fit in the record.
pub const MAX_MATCH_TIME: u32 = u32::MAX - MAX_WINDOW;

/// What opening a contract does. In this order: the caller must have
/// signed; the caller and the slug must have a derived address, and it must
/// be the address that the caller gave; the oracle's reading must be of the
/// contract's asset; there must be no record at the address yet; the size
/// code must be known; the caller must hold the stake; the direction code
/// must be known; the record must fit in its storage; the user record must
/// be the caller's. Then the stake moves from the caller to the contract,
/// the record is written and the caller's count goes up by one.
pub open spec fn spec_open(
    engine: Seq<u8>,
    context: ContextView,
    make: MakeView,
    accounts: AccountsView,
) -> Result<AccountsView, TradeError> {
    if !context.is_signer {
        Err(TradeError::MissingSignature)
    } else {
        match spec_derive(engine, context.caller, make.slug) {
            None => Err(TradeError::AddressDerivationExhausted),
            Some((address, nonce)) => if address != context.trade_account {
                Err(TradeError::InvalidContractAddress)
            } else if context.oracle.asset_label != make.symbol {
                Err(TradeError::OracleAssetMismatch)
            } else if accounts.trade.order_status != Status::Uninitialized {
                Err(TradeError::AlreadyInitialized)
            } else {
                match spec_escrow_amount(make.contract_size) {
                    None => Err(TradeError::InvalidContractSize),
                    Some(amount) => if accounts.ledger[context.caller] < amount {
                        Err(TradeError::InsufficientFunds)
                    } else {
                        match Direction::spec_from_code(make.direction) {
                            None => Err(TradeError::InvalidTradeData),
                            Some(direction) => if spec_stored_len(make.slug, make.symbol)
                                > Trade::LEN {
                                Err(TradeError::StorageExhausted)
                            } else if accounts.user.identity != context.caller {
                                Err(TradeError::InvalidUserAccount)
                            } else {
                                Ok(
                                    AccountsView {
                                        ledger: spec_transfer(
                                            accounts.ledger,
                                            context.caller,
                                            address,
                                            amount as nat,
                                        ),
                                        user: UserView {
                                            trades_placed: accounts.user.trades_placed + 1,
                                            ..accounts.user
                                        },
                                        trade: TradeView {
                                            maker: context.caller,
                                            trade_account: address,
                                            bump: nonce,
                                            slug: make.slug,
                                            symbol: make.symbol,
                                            contract_size: make.contract_size,
                                            direction,
                                            duration: make.duration,
                                            unix_created: context.now,
                                            order_status: Status::Open,
                                            ..TradeView::zeroed()
                                        },
                                    },
                                )
                            },
                        }
                    },
                }
            },
        }
    }
}

/// What matching a contract does. In this order: the caller must have
/// signed; the contract must be open; the oracle's reading must be of the
/// contract's asset and hold a price; the size code must be known; the
/// caller must hold the stake; the duration code must be known; the user
/// record must be the caller's. Then the stake moves from the caller to the
/// contract, the caller becomes the taker, the price the benchmark, the
/// deadline the time plus the window, and the caller's count goes up by
/// one.
pub open spec fn spec_take(context: ContextView, accounts: AccountsView) -> Result<
    AccountsView,
    TradeError,
> {
    let trade = accounts.trade;
    if !context.is_signer {
        Err(TradeError::MissingSignature)
    } else if trade.order_status == Status::Uninitialized {
        Err(TradeError::InvalidStateForMatch)
    } else if trade.order_status != Status::Open {
        Err(TradeError::AlreadyMatched)
    } else {
        match spec_price(context.oracle, trade.symbol) {
            Err(e) => Err(e),
            Ok(price) => match spec_escrow_amount(trade.contract_size) {
                None => Err(TradeError::InvalidContractSize),
                Some(amount) => if accounts.ledger[context.caller] < amount {
                    Err(TradeError::InsufficientFunds)
                } else {
                    match spec_duration_window(trade.duration) {
                        None => Err(TradeError::InvalidDuration),
                        Some(window) => if accounts.user.identity != context.caller {
                            Err(TradeError::InvalidUserAccount)
                        } else {
                            Ok(
                                AccountsView {
                                    ledger: spec_transfer(
                                        accounts.ledger,
                                        context.caller,
                                        trade.trade_account,
                                        amount as nat,
                                    ),
                                    user: UserView {
                                        trades_placed: accounts.user.trades_placed + 1,
                                        ..accounts.user
                                    },
                                    trade: TradeView {
                                        taker: context.caller,
                                        unix_start: context.now,
                                        unix_end: context.now + window,
                                        benchmark_price: price,
                                        order_status: Status::Matched,
                                        ..trade
                                    },
                                },
                            )
                        },
                    }
                },
            },
        }
    }
}

/// What is paid out when a contract is claimed: what its account holds
/// above the rent floor.
pub open spec fn spec_payout(context: ContextView, accounts: AccountsView) -> nat {
    (accounts.ledger[accounts.trade.trade_account] - context.rent_floor) as nat
}

/// How a claim at this price ends the contract.
pub open spec fn spec_claim_winner(context: ContextView, trade: TradeView, price: int) -> Winner {
    spec_winner(trade.direction, trade.benchmark_price, price, context.now, trade.unix_end)
}

/// What claiming a contract does. In this order: the caller must have
/// signed; the contract must be matched and not settled; the maker and
/// taker that the caller names must be those on record; the deadline must
/// have come; the oracle's reading must be of the contract's asset and hold
/// a price; the contract's account must hold the rent floor. Then the
/// payout moves from the contract to the winner, or half of it to each
/// party in a draw, the price becomes the closing price and the contract
/// is settled.
pub open spec fn spec_claim(context: ContextView, accounts: AccountsView) -> Result<
    AccountsView,
    TradeError,
> {
    let trade = accounts.trade;
    if !context.is_signer {
        Err(TradeError::MissingSignature)
    } else if trade.order_status == Status::Settled {
        Err(TradeError::AlreadySettled)
    } else if trade.order_status != Status::Matched {
        Err(TradeError::NotMatched)
    } else if context.maker != trade.maker || context.taker != trade.taker {
        Err(TradeError::PartyMismatch)
    } else if context.now < trade.unix_end {
        Err(TradeError::ClaimTooEarly)
    } else {
        match spec_price(context.oracle, trade.symbol) {
            Err(e) => Err(e),
            Ok(price) => if accounts.ledger[trade.trade_account] < context.rent_floor {
                Err(TradeError::InsufficientFunds)
            } else {
                let payout = spec_payout(context, accounts);
                let winner = spec_claim_winner(context, trade, price);
                Ok(
                    AccountsView {
                        ledger: spec_transfer(
                            spec_transfer(
                                accounts.ledger,
                                trade.trade_account,
                                trade.maker,
                                spec_maker_share(winner, payout),
                            ),
                            trade.trade_account,
                            trade.taker,
                            spec_taker_share(winner, payout),
                        ),
                        user: accounts.user,
                        trade: TradeView {
                            closing_price: price,
                            order_status: Status::Settled,
                            ..trade
                        },
                    },
                )
            },
        }
    }
}

/// What a command given as bytes does.
pub open spec fn spec_process(
    engine: Seq<u8>,
    context: ContextView,
    accounts: AccountsView,
    input: Seq<u8>,
) -> Result<AccountsView, TradeError> {
    match spec_unpack(input) {
        Err(e) => Err(e),
        Ok(InstructionView::MakeTrade(make)) => spec_open(engine, context, make, accounts),
        Ok(InstructionView::TakeTrade(_)) => spec_take(context, accounts),
        Ok(InstructionView::Claim) => spec_claim(context, accounts),
    }
}

/// Whether what a command given as bytes may write fits in the records:
/// opening and matching count one trade more for the caller, and matching
/// writes a deadline.
pub open spec fn fits(input: Seq<u8>, context: ContextView, accounts: AccountsView) -> bool {
    match spec_unpack(input) {
        Ok(InstructionView::MakeTrade(_)) => accounts.user.trades_placed < u32::MAX,
        Ok(InstructionView::TakeTrade(_)) => accounts.user.trades_placed < u32::MAX
            && context.now <= MAX_MATCH_TIME,
        _ => true,
    }
}

/// A command that was due to end as `expected` did: it succeeded and left
/// the accounts so, or it failed with that error and changed nothing.
pub open spec fn ended_as(
    expected: Result<AccountsView, TradeError>,
    before: AccountsView,
    after: AccountsView,
    r: Result<(), TradeError>,
) -> bool {
    match expected {
        Ok(accounts) => r is Ok && after == accounts,
        Err(e) => r == Err::<(), TradeError>(e) && after == before,
    }
}

/// The engine.
pub struct Processor;

impl Processor {
    /// Reads a command from `instruction_data` and runs it. Fails with
    /// `InvalidInstruction` where the bytes hold no command, and else as
    /// the command does.
    pub fn process(
        program_id: &Address,
        context: &Context,
        accounts: &mut Accounts,
        instruction_data: &[u8],
    ) -> (r: Result<(), TradeError>)
        requires
            old(accounts).ledger.wf(),
            fits(instruction_data@, context@, old(accounts)@),
        ensures
            ended_as(
                spec_process(program_id@, context@, old(accounts)@, instruction_data@),
                old(accounts)@,
                final(accounts)@,
                r,
            ),
            final(accounts).ledger.wf(),
            final(accounts).ledger.supply() == old(accounts).ledger.supply(),
    {
        match TradeInstruction::unpack(instruction_data) {
            Err(e) => Err(e),
            Ok(TradeInstruction::MakeTrade(trade)) => Self::open_trade(
                program_id,
                context,
                accounts,
                trade,
            ),
            Ok(TradeInstruction::TakeTrade(trade)) => Self::take_trade(
                program_id,
                context,
                accounts,
                trade,
            ),
            Ok(TradeInstruction::Claim) => Self::claim_trade(program_id, context, accounts),
        }
    }

    /// Opens a contract for the caller at the address derived from the
    /// caller and the slug, and locks the maker's stake. What is checked, in
    /// which order, and what is written is `spec_open`. A rejected command
    /// changes nothing.
    pub fn open_trade(
        program_id: &Address,
        context: &Context,
        accounts: &mut Accounts,
        trade: Make,
    ) -> (r: Result<(), TradeError>)
        requires
            old(accounts).ledger.wf(),
            old(accounts).user.trades_placed < u32::MAX,
        ensures
            ended_as(
                spec_open(program_id@, context@, trade@, old(accounts)@),
                old(accounts)@,
                final(accounts)@,
                r,
            ),
            final(accounts).ledger.wf(),
            final(accounts).ledger.supply() == old(accounts).ledger.supply(),
    {
        if !context.is_signer {
            return Err(TradeError::MissingSignature);
        }
        let (address, nonce) = match AddressDeriver::new(*program_id).derive(
            &context.caller,
            trade.slug.as_str(),
        ) {
            Ok(found) => found,
            Err(e) => {
                return Err(e);
            },
        };
        if !address.equals(&context.trade_account) {
            return Err(TradeError::InvalidContractAddress);
        }
        if !context.oracle.is_for(&trade.symbol) {
            return Err(TradeError::OracleAssetMismatch);
        }
        if accounts.trade.order_status != Status::Uninitialized {
            return Err(TradeError::AlreadyInitialized);
        }
        let amount = match escrow_amount(trade.contract_size) {
            Ok(amount) => amount,
            Err(e) => {
                return Err(e);
            },
        };
        if accounts.ledger.balance(&context.caller) < amount {
            return Err(TradeError::InsufficientFunds);
        }
        let direction = match Direction::from_code(trade.direction) {
            Some(direction) => direction,
            None => {
                return Err(TradeError::InvalidTradeData);
            },
        };
        let room = Trade::LEN - Trade::FIXED_LEN - trade.slug.as_str().as_bytes().len();
        if trade.symbol.as_str().as_bytes().len() > room {
            return Err(TradeError::StorageExhausted);
        }
        if !accounts.user.identity.equals(&context.caller) {
            return Err(TradeError::InvalidUserAccount);
        }
        // The caller holds the stake, so the transfer goes through.
        let _ = accounts.ledger.transfer(&context.caller, &address, amount);
        let mut record = Trade::new();
        record.maker = context.caller;
        record.trade_account = address;
        record.bump = nonce;
        record.slug = trade.slug;
        record.symbol = trade.symbol;
        record.contract_size = trade.contract_size;
        record.direction = direction;
        record.duration = trade.duration;
        record.unix_created = context.now;
        record.order_status = Status::Open;
        accounts.trade = record;
        accounts.user.trades_placed = accounts.user.trades_placed + 1;
        Ok(())
    }

    /// Matches the open contract for the caller, fixes the benchmark price
    /// and the deadline, and locks the taker's stake. What is checked, in
    /// which order, and what is written is `spec_take`. A rejected command
    /// changes nothing.
    pub fn take_trade(
        _program_id: &Address,
        context: &Context,
        accounts: &mut Accounts,
        _trade: Take,
    ) -> (r: Result<(), TradeError>)
        requires
            old(accounts).ledger.wf(),
            old(accounts).user.trades_placed < u32::MAX,
            context.now <= MAX_MATCH_TIME,
        ensures
            ended_as(spec_take(context@, old(accounts)@), old(accounts)@, final(accounts)@, r),
            final(accounts).ledger.wf(),
            final(accounts).ledger.supply() == old(accounts).ledger.supply(),
    {
        if !context.is_signer {
            return Err(TradeError::MissingSignature);
        }
        match accounts.trade.order_status {
            Status::Uninitialized => {
                return Err(TradeError::InvalidStateForMatch);
            },
            Status::Open => {},
            _ => {
                return Err(TradeError::AlreadyMatched);
            },
        }
        let price = match context.oracle.price_for(&accounts.trade.symbol) {
            Ok(price) => price,
            Err(e) => {
                return Err(e);
            },
        };
        let amount = match escrow_amount(accounts.trade.contract_size) {
            Ok(amount) => amount,
            Err(e) => {
                return Err(e);
            },
        };
        if accounts.ledger.balance(&context.caller) < amount {
            return Err(TradeError::InsufficientFunds);
        }
        let window = match duration_window(accounts.trade.duration) {
            Ok(window) => window,
            Err(e) => {
                return Err(e);
            },
        };
        if !accounts.user.identity.equals(&context.caller) {
            return Err(TradeError::InvalidUserAccount);
        }
        let contract = accounts.trade.trade_account;
        // The caller holds the stake, so the transfer goes through.
        let _ = accounts.ledger.transfer(&context.caller, &contract, amount);
        accounts.trade.taker = context.caller;
        accounts.trade.unix_start = context.now;
        accounts.trade.unix_end = context.now + window;
        accounts.trade.benchmark_price = price;
        accounts.trade.order_status = Status::Matched;
        accounts.user.trades_placed = accounts.user.trades_placed + 1;
        Ok(())
    }

    /// Settles the matched contract once its deadline has come, whoever
    /// calls: names the winner by the oracle's price and pays out what the
    /// contract's account holds above the rent floor. What is checked, in
    /// which order, and what is written is `spec_claim`. A rejected command
    /// changes nothing.
    pub fn claim_trade(
        _program_id: &Address,
        context: &Context,
        accounts: &mut Accounts,
    ) -> (r: Result<(), TradeError>)
        requires
            old(accounts).ledger.wf(),
        ensures
            ended_as(spec_claim(context@, old(accounts)@), old(accounts)@, final(accounts)@, r),
            final(accounts).ledger.wf(),
            final(accounts).ledger.supply() == old(accounts).ledger.supply(),
    {
        if !context.is_signer {
            return Err(TradeError::MissingSignature);
        }
        match accounts.trade.order_status {
            Status::Settled => {
                return Err(TradeError::AlreadySettled);
            },
            Status::Matched => {},
            _ => {
                return Err(TradeError::NotMatched);
            },
        }
        if !context.maker.equals(&accounts.trade.maker) || !context.taker.equals(
            &accounts.trade.taker,
        ) {
            return Err(TradeError::PartyMismatch);
        }
        if context.now < accounts.trade.unix_end {
            return Err(TradeError::ClaimTooEarly);
        }
        let price = match context.oracle.price_for(&accounts.trade.symbol) {
            Ok(price) => price,
            Err(e) => {
                return Err(e);
            },
        };
        let contract = accounts.trade.trade_account;
        let held = accounts.ledger.balance(&contract);
        if held < context.rent_floor {
            return Err(TradeError::InsufficientFunds);
        }
        let payout = held - context.rent_floor;
        let winner = determine_winner(
            accounts.trade.direction,
            accounts.trade.benchmark_price,
            price,
            context.now,
            accounts.trade.unix_end,
        );
        let (to_maker, to_taker) = shares(winner, payout);
        let maker = accounts.trade.maker;
        let taker = accounts.trade.taker;
        // The two shares are within the payout, so both transfers go through.
        let _ = accounts.ledger.transfer(&contract, &maker, to_maker);
        let _ = accounts.ledger.transfer(&contract, &taker, to_taker);
        accounts.trade.closing_price = price;
        accounts.trade.order_status = Status::Settled;
        Ok(())
    }
}

} // verus!

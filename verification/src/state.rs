//! The two kinds of record: a user's, and a contract's.

use vstd::prelude::*;
use vstd::utf8::encode_utf8;
use crate::address::Address;

verus! {

/// Where a contract stands in its life. A contract only moves forward:
/// from `Uninitialized` to `Open`, then `Matched`, then `Settled`.
#[derive(Clone, Copy, Debug, PartialEq, Eq, Structural)]
pub enum Status {
    /// Storage that no contract has been written to.
    Uninitialized,
    /// Opened by a maker, waiting for a taker.
    Open,
    /// Matched by a taker; the window is running or has run out.
    Matched,
    /// Claimed and paid out.
    Settled,
}

impl Status {
    /// The byte under which a status is stored: 0, 1, 2 and 3 in the order
    /// of a contract's life.
    pub open spec fn spec_code(self) -> u8 {
        match self {
            Status::Uninitialized => 0,
            Status::Open => 1,
            Status::Matched => 2,
            Status::Settled => 3,
        }
    }

    /// The byte under which this status is stored.
    #[verifier::when_used_as_spec(spec_code)]
    pub fn code(self) -> (c: u8)
        ensures
            c == self.spec_code(),
    {
        match self {
            Status::Uninitialized => 0,
            Status::Open => 1,
            Status::Matched => 2,
            Status::Settled => 3,
        }
    }

    /// The status that a stored byte stands for, if any.
    pub fn from_code(code: u8) -> (r: Option<Status>)
        ensures
            match r {
                Some(status) => status.spec_code() == code,
                None => code > 3,
            },
    {
        match code {
            0 => Some(Status::Uninitialized),
            1 => Some(Status::Open),
            2 => Some(Status::Matched),
            3 => Some(Status::Settled),
            _ => None,
        }
    }
}

/// The side that the maker takes: `Long` bets that the price will end above
/// the benchmark, `Short` that it will end below.
#[derive(Clone, Copy, Debug, PartialEq, Eq, Structural)]
pub enum Direction {
    Long,
    Short,
}

impl Direction {
    /// The byte under which a direction is stored: 0 for `Long`, 1 for
    /// `Short`.
    pub open spec fn spec_code(self) -> u8 {
        match self {
            Direction::Long => 0,
            Direction::Short => 1,
        }
    }

    /// The direction that a byte stands for, if any.
    pub open spec fn spec_from_code(code: u8) -> Option<Direction> {
        if code == 0 {
            Some(Direction::Long)
        } else if code == 1 {
            Some(Direction::Short)
        } else {
            None
        }
    }

    /// The byte under which this direction is stored.
    #[verifier::when_used_as_spec(spec_code)]
    pub fn code(self) -> (c: u8)
        ensures
            c == self.spec_code(),
    {
        match self {
            Direction::Long => 0,
            Direction::Short => 1,
        }
    }

    /// The direction that a byte stands for, if any.
    #[verifier::when_used_as_spec(spec_from_code)]
    pub fn from_code(code: u8) -> (r: Option<Direction>)
        ensures
            r == Direction::spec_from_code(code),
    {
        match code {
            0 => Some(Direction::Long),
            1 => Some(Direction::Short),
            _ => None,
        }
    }
}

/// A user's record.
#[derive(Clone, Debug)]
pub struct User {
    /// Whose record it is.
    pub identity: Address,
    /// How many trades the user has made or taken.
    pub trades_placed: u32,
}

/// A user's record as a mathematical value.
pub struct UserView {
    pub identity: Seq<u8>,
    pub trades_placed: nat,
}

impl View for User {
    type V = UserView;

    open spec fn view(&self) -> UserView {
        UserView { identity: self.identity@, trades_placed: self.trades_placed as nat }
    }
}

impl User {
    /// The number of bytes that a user's record is stored in: those of the
    /// count. The record is stored in the user's own account, which gives
    /// it its identity.
    pub const LEN: usize = 4;

    /// The record of a user who has not traded yet.
    pub fn new(identity: Address) -> (user: User)
        ensures
            user@ == (UserView { identity: identity@, trades_placed: 0 }),
    {
        User { identity, trades_placed: 0 }
    }
}

/// A contract's record.
#[derive(Clone, Debug)]
pub struct Trade {
    /// Who opened the contract.
    pub maker: Address,
    /// Who matched it; all zero until then.
    pub taker: Address,
    /// The contract's own address, derived from the maker and the slug.
    pub trade_account: Address,
    /// The nonce of that derivation.
    pub bump: u8,
    /// The maker's name for the contract.
    pub slug: String,
    /// The asset whose price decides the contract.
    pub symbol: String,
    /// The size code: which stake each party locks.
    pub contract_size: u8,
    /// The maker's side.
    pub direction: Direction,
    /// The duration code: how long the window is.
    pub duration: u8,
    /// When the contract was opened, in seconds.
    pub unix_created: u32,
    /// When it was matched.
    pub unix_start: u32,
    /// Its deadline: the time of the match plus the window.
    pub unix_end: u32,
    /// The price at the match.
    pub benchmark_price: i128,
    /// The price at the claim.
    pub closing_price: i128,
    /// Where the contract stands.
    pub order_status: Status,
}

/// A contract's record as a mathematical value.
pub struct TradeView {
    pub maker: Seq<u8>,
    pub taker: Seq<u8>,
    pub trade_account: Seq<u8>,
    pub bump: u8,
    pub slug: Seq<char>,
    pub symbol: Seq<char>,
    pub contract_size: u8,
    pub direction: Direction,
    pub duration: u8,
    pub unix_created: int,
    pub unix_start: int,
    pub unix_end: int,
    pub benchmark_price: int,
    pub closing_price: int,
    pub order_status: Status,
}

impl View for Trade {
    type V = TradeView;

    open spec fn view(&self) -> TradeView {
        TradeView {
            maker: self.maker@,
            taker: self.taker@,
            trade_account: self.trade_account@,
            bump: self.bump,
            slug: self.slug@,
            symbol: self.symbol@,
            contract_size: self.contract_size,
            direction: self.direction,
            duration: self.duration,
            unix_created: self.unix_created as int,
            unix_start: self.unix_start as int,
            unix_end: self.unix_end as int,
            benchmark_price: self.benchmark_price as int,
            closing_price: self.closing_price as int,
            order_status: self.order_status,
        }
    }
}

impl TradeView {
    /// The record that fresh, zeroed storage holds.
    pub open spec fn zeroed() -> TradeView {
        TradeView {
            maker: Seq::new(32, |i: int| 0u8),
            taker: Seq::new(32, |i: int| 0u8),
            trade_account: Seq::new(32, |i: int| 0u8),
            bump: 0,
            slug: Seq::empty(),
            symbol: Seq::empty(),
            contract_size: 0,
            direction: Direction::Long,
            duration: 0,
            unix_created: 0,
            unix_start: 0,
            unix_end: 0,
            benchmark_price: 0,
            closing_price: 0,
            order_status: Status::Uninitialized,
        }
    }
}

/// The number of bytes that a record with this slug and symbol is stored
/// in: each string takes its bytes, everything else `Trade::FIXED_LEN`.
pub open spec fn spec_stored_len(slug: Seq<char>, symbol: Seq<char>) -> nat {
    Trade::FIXED_LEN as nat + encode_utf8(slug).len() + encode_utf8(symbol).len()
}

impl Trade {
    /// The number of bytes that the storage of a contract's record is given.
    pub const LEN: usize = 197;

    /// The number of bytes that a stored record takes besides those of its
    /// slug and symbol: three addresses of 32 bytes, three times of 4, two
    /// prices of 16, the length of each string in 4, and one byte each for
    /// nonce, size, direction, duration and status.
    pub const FIXED_LEN: usize = 153;

    /// The record that fresh, zeroed storage holds.
    pub fn new() -> (trade: Trade)
        ensures
            trade@ == TradeView::zeroed(),
    {
        let trade = Trade {
            maker: Address::new([0u8; 32]),
            taker: Address::new([0u8; 32]),
            trade_account: Address::new([0u8; 32]),
            bump: 0,
            slug: String::new(),
            symbol: String::new(),
            contract_size: 0,
            direction: Direction::Long,
            duration: 0,
            unix_created: 0,
            unix_start: 0,
            unix_end: 0,
            benchmark_price: 0,
            closing_price: 0,
            order_status: Status::Uninitialized,
        };
        assert(trade.maker@ =~= Seq::new(32, |i: int| 0u8));
        assert(trade.taker@ =~= Seq::new(32, |i: int| 0u8));
        assert(trade.trade_account@ =~= Seq::new(32, |i: int| 0u8));
        trade
    }
}

} // verus!

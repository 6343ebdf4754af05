use borsh::BorshSerialize;
use solana_program::pubkey::Pubkey;
use trade_escrow::address::{Address, AddressDeriver};
use trade_escrow::error::TradeError;
use trade_escrow::instruction::{Make, Take};
use trade_escrow::ledger::Ledger;
use trade_escrow::oracle::OracleReading;
use trade_escrow::processor::{Accounts, Context, Processor, MAX_MATCH_TIME};
use trade_escrow::state::{Direction, Status, Trade, User};

const UNIT: u64 = 1_000_000_000;
const FLOOR: u64 = 2_200_000;

fn address(byte: u8) -> Address {
    Address::new([byte; 32])
}

fn engine() -> Address {
    address(9)
}

fn maker() -> Address {
    address(1)
}

fn taker() -> Address {
    address(2)
}

fn reading(label: &str, price: i128) -> OracleReading {
    OracleReading { asset_label: label.to_string(), price, decimals: 8, updated_at: 0 }
}

fn context(caller: Address, contract: Address, price: i128, now: u32) -> Context {
    Context {
        caller,
        is_signer: true,
        trade_account: contract,
        maker: maker(),
        taker: taker(),
        oracle: reading("X/USD", price),
        now,
        rent_floor: FLOOR,
    }
}

fn make(slug: &str, size: u8, direction: u8, duration: u8) -> Make {
    Make {
        symbol: "X/USD".to_string(),
        slug: slug.to_string(),
        contract_size: size,
        direction,
        duration,
    }
}

fn make_bytes(trade: &Make) -> Vec<u8> {
    let mut bytes = vec![0u8];
    bytes.extend(trade.symbol.try_to_vec().unwrap());
    bytes.extend(trade.slug.try_to_vec().unwrap());
    bytes.push(trade.contract_size);
    bytes.push(trade.direction);
    bytes.push(trade.duration);
    bytes
}

/// Maker and taker with five units each, and a contract account that holds
/// the floor.
fn funded(contract: &Address) -> Accounts {
    let mut ledger = Ledger::new();
    assert!(ledger.deposit(&maker(), 5 * UNIT));
    assert!(ledger.deposit(&taker(), 5 * UNIT));
    assert!(ledger.deposit(contract, FLOOR));
    Accounts { ledger, user: User::new(maker()), trade: Trade::new() }
}

fn contract_of(slug: &str) -> Address {
    AddressDeriver::new(engine()).derive(&maker(), slug).unwrap().0
}

/// The accounts after the maker opened a contract of the given terms at
/// time 1000.
fn opened(slug: &str, size: u8, direction: u8, duration: u8) -> (Address, Accounts) {
    let contract = contract_of(slug);
    let mut accounts = funded(&contract);
    let result = Processor::open_trade(
        &engine(),
        &context(maker(), contract, 100, 1_000),
        &mut accounts,
        make(slug, size, direction, duration),
    );
    assert_eq!(result, Ok(()));
    (contract, accounts)
}

/// The accounts after the taker matched that contract at price 100 and
/// time 2000.
fn matched(slug: &str, size: u8, direction: u8, duration: u8) -> (Address, Accounts) {
    let (contract, mut accounts) = opened(slug, size, direction, duration);
    accounts.user = User::new(taker());
    let result = Processor::take_trade(
        &engine(),
        &context(taker(), contract, 100, 2_000),
        &mut accounts,
        Take { direction: 1 },
    );
    assert_eq!(result, Ok(()));
    (contract, accounts)
}

fn balances(accounts: &Accounts, contract: &Address) -> (u64, u64, u64) {
    (
        accounts.ledger.balance(&maker()),
        accounts.ledger.balance(&taker()),
        accounts.ledger.balance(contract),
    )
}

fn same_record(a: &Trade, b: &Trade) -> bool {
    a.maker.bytes == b.maker.bytes
        && a.taker.bytes == b.taker.bytes
        && a.trade_account.bytes == b.trade_account.bytes
        && a.bump == b.bump
        && a.slug == b.slug
        && a.symbol == b.symbol
        && a.contract_size == b.contract_size
        && a.direction == b.direction
        && a.duration == b.duration
        && a.unix_created == b.unix_created
        && a.unix_start == b.unix_start
        && a.unix_end == b.unix_end
        && a.benchmark_price == b.benchmark_price
        && a.closing_price == b.closing_price
        && a.order_status == b.order_status
}

#[test]
fn test_sanity() {
    let program_id = Address::new(Pubkey::default().to_bytes());
    let key = Address::new(Pubkey::default().to_bytes());
    let lamports: u64 = 5000000000;
    let slug = String::from("trade1");
    let (trade_pda, _trade_bump) = Pubkey::find_program_address(
        &[b"trade".as_ref(), slug.as_ref(), Pubkey::default().as_ref()],
        &Pubkey::default(),
    );
    let mut ledger = Ledger::new();
    assert!(ledger.deposit(&key, lamports));
    let mut accounts = Accounts { ledger, user: User::new(key), trade: Trade::new() };
    let ix_struct = Make {
        symbol: String::from("SOLUSD"),
        slug,
        contract_size: 1,
        direction: 0,
        duration: 0,
    };
    let mut instruction_data: Vec<u8> = Vec::new();
    instruction_data.push(u8::to_le_bytes(0)[0]);
    instruction_data.append(&mut make_bytes(&ix_struct)[1..].to_vec());
    let context = Context {
        caller: key,
        is_signer: true,
        trade_account: Address::new(trade_pda.to_bytes()),
        maker: key,
        taker: key,
        oracle: reading("SOLUSD", 0),
        now: 0,
        rent_floor: 0,
    };
    Processor::process(&program_id, &context, &mut accounts, &instruction_data).unwrap();
    assert_eq!(accounts.trade.order_status, Status::Open);
    assert_eq!(accounts.trade.trade_account.bytes, trade_pda.to_bytes());
    assert_eq!(accounts.ledger.balance(&key), 4_000_000_000);
    assert_eq!(accounts.ledger.balance(&Address::new(trade_pda.to_bytes())), 1_000_000_000);
}

#[test]
fn make_on_a_fresh_slug_succeeds() {
    let (contract, accounts) = opened("t1", 1, 0, 0);
    let (expected, nonce) = AddressDeriver::new(engine()).derive(&maker(), "t1").unwrap();
    assert_eq!(contract.bytes, expected.bytes);
    let trade = &accounts.trade;
    assert_eq!(trade.order_status, Status::Open);
    assert_eq!(trade.maker.bytes, maker().bytes);
    assert_eq!(trade.taker.bytes, [0u8; 32]);
    assert_eq!(trade.trade_account.bytes, contract.bytes);
    assert_eq!(trade.bump, nonce);
    assert_eq!(trade.slug, "t1");
    assert_eq!(trade.symbol, "X/USD");
    assert_eq!(trade.contract_size, 1);
    assert_eq!(trade.direction, Direction::Long);
    assert_eq!(trade.duration, 0);
    assert_eq!(trade.unix_created, 1_000);
    assert_eq!(trade.unix_start, 0);
    assert_eq!(trade.unix_end, 0);
    assert_eq!(trade.benchmark_price, 0);
    assert_eq!(trade.closing_price, 0);
    assert_eq!(accounts.user.trades_placed, 1);
    assert_eq!(balances(&accounts, &contract), (4 * UNIT, 5 * UNIT, FLOOR + UNIT));
}

#[test]
fn make_of_each_size_locks_its_stake() {
    let (contract, accounts) = opened("small", 0, 1, 2);
    assert_eq!(balances(&accounts, &contract), (5 * UNIT - UNIT / 10, 5 * UNIT, FLOOR + UNIT / 10));
    assert_eq!(accounts.trade.direction, Direction::Short);
    assert_eq!(accounts.trade.duration, 2);
    let (contract, accounts) = opened("large", 2, 0, 1);
    assert_eq!(balances(&accounts, &contract), (0, 5 * UNIT, FLOOR + 5 * UNIT));
}

#[test]
fn make_overwrites_what_fresh_storage_held() {
    let contract = contract_of("t1");
    let mut accounts = funded(&contract);
    accounts.trade.taker = address(7);
    accounts.trade.benchmark_price = 55;
    accounts.trade.unix_end = 77;
    let result = Processor::open_trade(
        &engine(),
        &context(maker(), contract, 100, 1_000),
        &mut accounts,
        make("t1", 1, 0, 0),
    );
    assert_eq!(result, Ok(()));
    assert_eq!(accounts.trade.taker.bytes, [0u8; 32]);
    assert_eq!(accounts.trade.benchmark_price, 0);
    assert_eq!(accounts.trade.unix_end, 0);
}

fn rejected_make(
    change: impl FnOnce(&mut Context, &mut Accounts, &mut Make),
    expected: TradeError,
) {
    rejected_make_with(User::new(maker()), change, expected)
}

fn rejected_make_with(
    user: User,
    change: impl FnOnce(&mut Context, &mut Accounts, &mut Make),
    expected: TradeError,
) {
    let contract = contract_of("t1");
    let mut accounts = funded(&contract);
    accounts.user = user;
    let mut ctx = context(maker(), contract, 100, 1_000);
    let mut trade = make("t1", 1, 0, 0);
    change(&mut ctx, &mut accounts, &mut trade);
    let record = accounts.trade.clone();
    let before = balances(&accounts, &contract);
    assert_eq!(Processor::open_trade(&engine(), &ctx, &mut accounts, trade), Err(expected));
    assert_eq!(balances(&accounts, &contract), before);
    assert!(same_record(&accounts.trade, &record));
    assert_eq!(accounts.user.trades_placed, 0);
}

#[test]
fn make_with_another_target_address_fails() {
    rejected_make(|ctx, _, _| ctx.trade_account = address(3), TradeError::InvalidContractAddress);
    rejected_make(
        |ctx, _, _| ctx.trade_account = contract_of("t2"),
        TradeError::InvalidContractAddress,
    );
    rejected_make(|_, _, trade| trade.slug = "t2".to_string(), TradeError::InvalidContractAddress);
    rejected_make(|ctx, _, _| ctx.caller = taker(), TradeError::InvalidContractAddress);
}

#[test]
fn make_without_a_signature_fails() {
    rejected_make(|ctx, _, _| ctx.is_signer = false, TradeError::MissingSignature);
    rejected_make(
        |ctx, _, _| {
            ctx.is_signer = false;
            ctx.trade_account = address(3);
        },
        TradeError::MissingSignature,
    );
}

#[test]
fn make_with_a_slug_too_long_to_derive_from_fails() {
    rejected_make(
        |_, _, trade| trade.slug = "a".repeat(33),
        TradeError::AddressDerivationExhausted,
    );
}

#[test]
fn make_on_another_asset_than_the_oracle_reads_fails() {
    rejected_make(
        |ctx, _, _| ctx.oracle.asset_label = "Y/USD".to_string(),
        TradeError::OracleAssetMismatch,
    );
    rejected_make(|_, _, trade| trade.symbol = "Y/USD".to_string(), TradeError::OracleAssetMismatch);
}

#[test]
fn make_needs_no_price() {
    let contract = contract_of("t1");
    let mut accounts = funded(&contract);
    let ctx = context(maker(), contract, 0, 1_000);
    assert_eq!(
        Processor::open_trade(&engine(), &ctx, &mut accounts, make("t1", 1, 0, 0)),
        Ok(())
    );
}

#[test]
fn make_where_a_record_exists_fails() {
    for status in [Status::Open, Status::Matched, Status::Settled] {
        rejected_make(
            |_, accounts, _| accounts.trade.order_status = status,
            TradeError::AlreadyInitialized,
        );
    }
    let (contract, mut accounts) = opened("t1", 1, 0, 0);
    let before = balances(&accounts, &contract);
    let again = Processor::open_trade(
        &engine(),
        &context(maker(), contract, 100, 1_500),
        &mut accounts,
        make("t1", 1, 0, 0),
    );
    assert_eq!(again, Err(TradeError::AlreadyInitialized));
    assert_eq!(balances(&accounts, &contract), before);
    assert_eq!(accounts.trade.unix_created, 1_000);
}

#[test]
fn make_with_an_unknown_size_fails() {
    rejected_make(|_, _, trade| trade.contract_size = 3, TradeError::InvalidContractSize);
    rejected_make(|_, _, trade| trade.contract_size = 5, TradeError::InvalidContractSize);
}

#[test]
fn make_without_the_stake_fails() {
    rejected_make(|_, _, trade| {
        trade.contract_size = 2;
        trade.direction = 9;
    }, TradeError::InvalidTradeData);
    rejected_make(
        |_, accounts, _| {
            let mut ledger = Ledger::new();
            assert!(ledger.deposit(&maker(), UNIT - 1));
            accounts.ledger = ledger;
        },
        TradeError::InsufficientFunds,
    );
    rejected_make(
        |_, accounts, trade| {
            accounts.ledger = Ledger::new();
            trade.direction = 9;
        },
        TradeError::InsufficientFunds,
    );
}

#[test]
fn make_of_a_record_too_long_to_store_fails() {
    let long = "x".repeat(43);
    rejected_make(
        |ctx, _, trade| {
            ctx.oracle.asset_label = long.clone();
            trade.symbol = long.clone();
        },
        TradeError::StorageExhausted,
    );
    rejected_make(
        |ctx, accounts, trade| {
            ctx.oracle.asset_label = long.clone();
            trade.symbol = long.clone();
            accounts.user = User::new(taker());
        },
        TradeError::StorageExhausted,
    );
    rejected_make(
        |ctx, _, trade| {
            ctx.oracle.asset_label = long.clone();
            trade.symbol = long.clone();
            trade.direction = 2;
        },
        TradeError::InvalidTradeData,
    );
}

#[test]
fn make_of_a_record_that_just_fits() {
    let contract = contract_of("t1");
    let mut accounts = funded(&contract);
    let mut ctx = context(maker(), contract, 100, 1_000);
    let longest = "x".repeat(42);
    ctx.oracle.asset_label = longest.clone();
    let mut trade = make("t1", 1, 0, 0);
    trade.symbol = longest.clone();
    assert_eq!(Processor::open_trade(&engine(), &ctx, &mut accounts, trade), Ok(()));
    assert_eq!(accounts.trade.symbol, longest);
    assert_eq!(Trade::FIXED_LEN + accounts.trade.slug.len() + accounts.trade.symbol.len(), Trade::LEN);
}

#[test]
fn make_with_the_record_of_another_user_fails() {
    rejected_make_with(User::new(taker()), |_, _, _| {}, TradeError::InvalidUserAccount);
    rejected_make_with(
        User::new(taker()),
        |_, _, trade| trade.direction = 2,
        TradeError::InvalidTradeData,
    );
}

#[test]
fn make_with_an_unknown_direction_fails() {
    rejected_make(|_, _, trade| trade.direction = 2, TradeError::InvalidTradeData);
    rejected_make(|_, _, trade| trade.direction = 255, TradeError::InvalidTradeData);
}

#[test]
fn make_keeps_an_unknown_duration_for_the_match_to_reject() {
    let (contract, mut accounts) = opened("t1", 1, 0, 7);
    assert_eq!(accounts.trade.duration, 7);
    accounts.user = User::new(taker());
    let before = balances(&accounts, &contract);
    let result = Processor::take_trade(
        &engine(),
        &context(taker(), contract, 100, 2_000),
        &mut accounts,
        Take { direction: 0 },
    );
    assert_eq!(result, Err(TradeError::InvalidDuration));
    assert_eq!(balances(&accounts, &contract), before);
    assert_eq!(accounts.trade.order_status, Status::Open);
    assert_eq!(accounts.user.trades_placed, 0);
}

#[test]
fn take_matches_an_open_contract() {
    let (contract, accounts) = matched("t1", 1, 0, 0);
    let trade = &accounts.trade;
    assert_eq!(trade.order_status, Status::Matched);
    assert_eq!(trade.maker.bytes, maker().bytes);
    assert_eq!(trade.taker.bytes, taker().bytes);
    assert_eq!(trade.benchmark_price, 100);
    assert_eq!(trade.unix_created, 1_000);
    assert_eq!(trade.unix_start, 2_000);
    assert_eq!(trade.unix_end, 2_300);
    assert_eq!(trade.closing_price, 0);
    assert_eq!(accounts.user.trades_placed, 1);
    assert_eq!(balances(&accounts, &contract), (4 * UNIT, 4 * UNIT, FLOOR + 2 * UNIT));
}

#[test]
fn take_sets_the_deadline_by_the_duration() {
    assert_eq!(matched("hour", 0, 0, 1).1.trade.unix_end, 2_000 + 3_600);
    assert_eq!(matched("day", 0, 0, 2).1.trade.unix_end, 2_000 + 86_400);
}

#[test]
fn take_at_the_latest_time() {
    let (contract, mut accounts) = opened("t1", 1, 0, 2);
    accounts.user = User::new(taker());
    let result = Processor::take_trade(
        &engine(),
        &context(taker(), contract, 100, MAX_MATCH_TIME),
        &mut accounts,
        Take { direction: 0 },
    );
    assert_eq!(result, Ok(()));
    assert_eq!(accounts.trade.unix_end, u32::MAX);
}

#[test]
fn take_by_the_maker_is_not_refused() {
    let (contract, mut accounts) = opened("t1", 1, 0, 0);
    let result = Processor::take_trade(
        &engine(),
        &context(maker(), contract, 100, 2_000),
        &mut accounts,
        Take { direction: 0 },
    );
    assert_eq!(result, Ok(()));
    assert_eq!(accounts.trade.taker.bytes, maker().bytes);
    assert_eq!(accounts.user.trades_placed, 2);
    assert_eq!(balances(&accounts, &contract), (3 * UNIT, 5 * UNIT, FLOOR + 2 * UNIT));
}

fn rejected_take(change: impl FnOnce(&mut Context, &mut Accounts), expected: TradeError) {
    let (contract, mut accounts) = opened("t1", 1, 0, 0);
    accounts.user = User::new(taker());
    let mut ctx = context(taker(), contract, 100, 2_000);
    change(&mut ctx, &mut accounts);
    let record = accounts.trade.clone();
    let before = balances(&accounts, &contract);
    let result = Processor::take_trade(&engine(), &ctx, &mut accounts, Take { direction: 0 });
    assert_eq!(result, Err(expected));
    assert_eq!(balances(&accounts, &contract), before);
    assert!(same_record(&accounts.trade, &record));
    assert_eq!(accounts.user.trades_placed, 0);
}

#[test]
fn second_take_fails_with_unchanged_balances() {
    let (contract, mut accounts) = matched("t1", 1, 0, 0);
    let record = accounts.trade.clone();
    let before = balances(&accounts, &contract);
    for caller in [taker(), maker(), address(5)] {
        let result = Processor::take_trade(
            &engine(),
            &context(caller, contract, 105, 2_100),
            &mut accounts,
            Take { direction: 0 },
        );
        assert_eq!(result, Err(TradeError::AlreadyMatched));
        assert_eq!(balances(&accounts, &contract), before);
        assert!(same_record(&accounts.trade, &record));
        assert_eq!(accounts.user.trades_placed, 1);
    }
}

#[test]
fn take_on_a_settled_contract_fails() {
    rejected_take(
        |_, accounts| accounts.trade.order_status = Status::Settled,
        TradeError::AlreadyMatched,
    );
}

#[test]
fn take_where_no_contract_is_fails() {
    rejected_take(
        |_, accounts| accounts.trade.order_status = Status::Uninitialized,
        TradeError::InvalidStateForMatch,
    );
    let mut accounts = funded(&address(3));
    let result = Processor::take_trade(
        &engine(),
        &context(taker(), address(3), 100, 2_000),
        &mut accounts,
        Take { direction: 0 },
    );
    assert_eq!(result, Err(TradeError::InvalidStateForMatch));
}

#[test]
fn take_without_a_signature_fails() {
    rejected_take(|ctx, _| ctx.is_signer = false, TradeError::MissingSignature);
}

#[test]
fn take_on_another_asset_than_the_oracle_reads_fails() {
    rejected_take(
        |ctx, _| ctx.oracle.asset_label = "Y/USD".to_string(),
        TradeError::OracleAssetMismatch,
    );
}

#[test]
fn take_without_a_price_fails() {
    rejected_take(|ctx, _| ctx.oracle.price = 0, TradeError::OracleDataUnavailable);
}

#[test]
fn take_without_the_stake_fails() {
    rejected_take(
        |_, accounts| {
            let mut ledger = Ledger::new();
            assert!(ledger.deposit(&taker(), UNIT - 1));
            assert!(ledger.deposit(&maker(), 4 * UNIT));
            accounts.ledger = ledger;
        },
        TradeError::InsufficientFunds,
    );
}

#[test]
fn take_with_the_record_of_another_user_fails() {
    rejected_take(|_, accounts| accounts.user = User::new(maker()), TradeError::InvalidUserAccount);
    rejected_take(
        |_, accounts| {
            accounts.user = User::new(maker());
            accounts.trade.duration = 3;
        },
        TradeError::InvalidDuration,
    );
}

#[test]
fn take_on_a_record_of_unknown_size_fails() {
    rejected_take(|_, accounts| accounts.trade.contract_size = 5, TradeError::InvalidContractSize);
}

fn claim(accounts: &mut Accounts, contract: Address, price: i128, now: u32) -> Result<(), TradeError> {
    Processor::claim_trade(&engine(), &context(address(6), contract, price, now), accounts)
}

#[test]
fn claim_pays_the_maker_when_long_and_the_price_rose() {
    let (contract, mut accounts) = matched("t1", 1, 0, 0);
    assert_eq!(claim(&mut accounts, contract, 110, 2_300), Ok(()));
    assert_eq!(accounts.trade.order_status, Status::Settled);
    assert_eq!(accounts.trade.closing_price, 110);
    assert_eq!(balances(&accounts, &contract), (6 * UNIT, 4 * UNIT, FLOOR));
    assert_eq!(accounts.user.trades_placed, 1);
}

#[test]
fn claim_pays_the_taker_when_long_and_the_price_fell() {
    let (contract, mut accounts) = matched("t1", 1, 0, 0);
    assert_eq!(claim(&mut accounts, contract, 90, 2_300), Ok(()));
    assert_eq!(accounts.trade.closing_price, 90);
    assert_eq!(balances(&accounts, &contract), (4 * UNIT, 6 * UNIT, FLOOR));
}

#[test]
fn claim_pays_by_the_price_when_short() {
    let (contract, mut accounts) = matched("t1", 1, 1, 0);
    assert_eq!(claim(&mut accounts, contract, 90, 2_300), Ok(()));
    assert_eq!(balances(&accounts, &contract), (6 * UNIT, 4 * UNIT, FLOOR));
    let (contract, mut accounts) = matched("t2", 1, 1, 0);
    assert_eq!(claim(&mut accounts, contract, 110, 2_300), Ok(()));
    assert_eq!(balances(&accounts, &contract), (4 * UNIT, 6 * UNIT, FLOOR));
}

#[test]
fn claim_at_the_benchmark_is_a_draw() {
    let (contract, mut accounts) = matched("t1", 1, 0, 0);
    assert_eq!(claim(&mut accounts, contract, 100, 2_300), Ok(()));
    assert_eq!(accounts.trade.closing_price, 100);
    assert_eq!(balances(&accounts, &contract), (5 * UNIT, 5 * UNIT, FLOOR));
}

#[test]
fn claim_after_the_grace_window_is_a_draw() {
    let (contract, mut accounts) = matched("t1", 1, 0, 0);
    assert_eq!(claim(&mut accounts, contract, 110, 2_300 + 86_400), Ok(()));
    assert_eq!(accounts.trade.closing_price, 110);
    assert_eq!(balances(&accounts, &contract), (5 * UNIT, 5 * UNIT, FLOOR));
    let (contract, mut accounts) = matched("t2", 1, 0, 0);
    assert_eq!(claim(&mut accounts, contract, 110, 2_300 + 86_399), Ok(()));
    assert_eq!(balances(&accounts, &contract), (6 * UNIT, 4 * UNIT, FLOOR));
}

#[test]
fn draw_on_an_odd_payout_leaves_one_lamport() {
    let (contract, mut accounts) = matched("t1", 1, 0, 0);
    assert!(accounts.ledger.deposit(&contract, 7));
    assert_eq!(claim(&mut accounts, contract, 100, 2_300), Ok(()));
    assert_eq!(balances(&accounts, &contract), (5 * UNIT + 3, 5 * UNIT + 3, FLOOR + 1));
}

#[test]
fn winner_takes_all_that_is_above_the_floor() {
    let (contract, mut accounts) = matched("t1", 1, 0, 0);
    assert!(accounts.ledger.deposit(&contract, 7));
    assert_eq!(claim(&mut accounts, contract, 110, 2_300), Ok(()));
    assert_eq!(balances(&accounts, &contract), (6 * UNIT + 7, 4 * UNIT, FLOOR));
}

#[test]
fn claim_of_a_contract_that_the_maker_matched() {
    let (contract, mut accounts) = opened("t1", 1, 0, 0);
    let take = Processor::take_trade(
        &engine(),
        &context(maker(), contract, 100, 2_000),
        &mut accounts,
        Take { direction: 0 },
    );
    assert_eq!(take, Ok(()));
    let mut ctx = context(address(6), contract, 100, 2_300);
    ctx.taker = maker();
    assert!(accounts.ledger.deposit(&contract, 1));
    assert_eq!(Processor::claim_trade(&engine(), &ctx, &mut accounts), Ok(()));
    assert_eq!(balances(&accounts, &contract), (5 * UNIT, 5 * UNIT, FLOOR + 1));
}

fn rejected_claim(
    change: impl FnOnce(&mut Context, &mut Accounts),
    expected: TradeError,
) {
    let (contract, mut accounts) = matched("t1", 1, 0, 0);
    let mut ctx = context(address(6), contract, 110, 2_300);
    change(&mut ctx, &mut accounts);
    let record = accounts.trade.clone();
    let before = balances(&accounts, &contract);
    assert_eq!(Processor::claim_trade(&engine(), &ctx, &mut accounts), Err(expected));
    assert_eq!(balances(&accounts, &contract), before);
    assert!(same_record(&accounts.trade, &record));
}

#[test]
fn claim_before_the_deadline_fails() {
    rejected_claim(|ctx, _| ctx.now = 2_299, TradeError::ClaimTooEarly);
    rejected_claim(|ctx, _| ctx.now = 0, TradeError::ClaimTooEarly);
}

#[test]
fn claim_on_an_open_contract_fails() {
    let (contract, mut accounts) = opened("t1", 1, 0, 0);
    let before = balances(&accounts, &contract);
    assert_eq!(claim(&mut accounts, contract, 110, 5_000), Err(TradeError::NotMatched));
    assert_eq!(balances(&accounts, &contract), before);
    assert_eq!(accounts.trade.order_status, Status::Open);
    rejected_claim(
        |_, accounts| accounts.trade.order_status = Status::Uninitialized,
        TradeError::NotMatched,
    );
}

#[test]
fn claim_on_a_settled_contract_fails() {
    rejected_claim(
        |_, accounts| accounts.trade.order_status = Status::Settled,
        TradeError::AlreadySettled,
    );
}

#[test]
fn claim_that_names_other_parties_fails() {
    rejected_claim(|ctx, _| ctx.maker = address(5), TradeError::PartyMismatch);
    rejected_claim(|ctx, _| ctx.taker = address(5), TradeError::PartyMismatch);
    rejected_claim(
        |ctx, _| {
            ctx.maker = taker();
            ctx.taker = maker();
        },
        TradeError::PartyMismatch,
    );
    rejected_claim(
        |ctx, _| {
            ctx.maker = address(5);
            ctx.now = 0;
        },
        TradeError::PartyMismatch,
    );
}

#[test]
fn claim_without_a_signature_fails() {
    rejected_claim(|ctx, _| ctx.is_signer = false, TradeError::MissingSignature);
}

#[test]
fn claim_on_another_asset_than_the_oracle_reads_fails() {
    rejected_claim(
        |ctx, _| ctx.oracle.asset_label = "Y/USD".to_string(),
        TradeError::OracleAssetMismatch,
    );
}

#[test]
fn claim_without_a_price_fails() {
    rejected_claim(|ctx, _| ctx.oracle.price = 0, TradeError::OracleDataUnavailable);
    rejected_claim(
        |ctx, _| {
            ctx.oracle.price = 0;
            ctx.now = 2_299;
        },
        TradeError::ClaimTooEarly,
    );
}

#[test]
fn claim_where_the_account_holds_less_than_the_floor_fails() {
    rejected_claim(|ctx, _| ctx.rent_floor = FLOOR + 2 * UNIT + 1, TradeError::InsufficientFunds);
    let (contract, mut accounts) = matched("t1", 1, 0, 0);
    let mut ctx = context(address(6), contract, 110, 2_300);
    ctx.rent_floor = FLOOR + 2 * UNIT;
    assert_eq!(Processor::claim_trade(&engine(), &ctx, &mut accounts), Ok(()));
    assert_eq!(balances(&accounts, &contract), (4 * UNIT, 4 * UNIT, FLOOR + 2 * UNIT));
}

#[test]
fn end_to_end() {
    let contract = contract_of("t1");
    let mut accounts = funded(&contract);
    let open = make_bytes(&make("t1", 1, 0, 0));
    let at_open = context(maker(), contract, 100, 1_000);
    assert_eq!(Processor::process(&engine(), &at_open, &mut accounts, &open), Ok(()));
    assert_eq!(accounts.trade.order_status, Status::Open);
    let maker_record = accounts.user.clone();

    accounts.user = User::new(taker());
    let at_match = context(taker(), contract, 100, 2_000);
    assert_eq!(Processor::process(&engine(), &at_match, &mut accounts, &[1, 1]), Ok(()));
    assert_eq!(accounts.trade.order_status, Status::Matched);
    assert_eq!(accounts.trade.benchmark_price, 100);
    assert_eq!(accounts.trade.unix_end, 2_300);
    assert_eq!(balances(&accounts, &contract), (4 * UNIT, 4 * UNIT, FLOOR + 2 * UNIT));

    let at_claim = context(address(6), contract, 110, 2_300);
    assert_eq!(Processor::process(&engine(), &at_claim, &mut accounts, &[2]), Ok(()));
    assert_eq!(accounts.trade.order_status, Status::Settled);
    assert_eq!(accounts.trade.closing_price, 110);
    assert_eq!(balances(&accounts, &contract), (4 * UNIT + 2 * UNIT, 4 * UNIT, FLOOR));
    assert_eq!(maker_record.trades_placed, 1);
    assert_eq!(accounts.user.trades_placed, 1);
}

#[test]
fn double_claim() {
    let (contract, mut accounts) = matched("t1", 1, 0, 0);
    assert_eq!(claim(&mut accounts, contract, 110, 2_300), Ok(()));
    let record = accounts.trade.clone();
    let settled = balances(&accounts, &contract);
    assert_eq!(settled, (6 * UNIT, 4 * UNIT, FLOOR));
    assert_eq!(claim(&mut accounts, contract, 110, 2_300), Err(TradeError::AlreadySettled));
    assert_eq!(claim(&mut accounts, contract, 90, 9_000), Err(TradeError::AlreadySettled));
    let at_claim = context(address(6), contract, 90, 9_000);
    assert_eq!(
        Processor::process(&engine(), &at_claim, &mut accounts, &[2]),
        Err(TradeError::AlreadySettled)
    );
    assert_eq!(balances(&accounts, &contract), settled);
    assert!(same_record(&accounts.trade, &record));
}

#[test]
fn process_rejects_what_it_cannot_read() {
    let (contract, mut accounts) = opened("t1", 1, 0, 0);
    let before = balances(&accounts, &contract);
    let ctx = context(taker(), contract, 100, 2_000);
    for bytes in [vec![], vec![3], vec![1], vec![0, 1, 2], vec![1, 0, 0]] {
        assert_eq!(
            Processor::process(&engine(), &ctx, &mut accounts, &bytes),
            Err(TradeError::InvalidInstruction)
        );
    }
    assert_eq!(balances(&accounts, &contract), before);
    assert_eq!(accounts.trade.order_status, Status::Open);
}

#[test]
fn supply_is_the_same_after_a_whole_life() {
    let (contract, mut accounts) = matched("t1", 2, 1, 2);
    assert!(accounts.ledger.deposit(&contract, 9));
    let (m, t, c) = balances(&accounts, &contract);
    assert_eq!(claim(&mut accounts, contract, 100, 2_000 + 86_400), Ok(()));
    let (m2, t2, c2) = balances(&accounts, &contract);
    assert_eq!(m + t + c, m2 + t2 + c2);
    assert_eq!(m + t + c, 10 * UNIT + FLOOR + 9);
    assert_eq!((m2, t2, c2), (5 * UNIT + 4, 5 * UNIT + 4, FLOOR + 1));
}

#[test]
fn each_command_succeeds_once_in_a_history() {
    let contract = contract_of("t1");
    let mut accounts = funded(&contract);
    let open = make_bytes(&make("t1", 0, 1, 0));
    let as_maker = context(maker(), contract, 100, 1_000);
    let as_taker = context(taker(), contract, 100, 2_000);
    let at_claim = context(address(6), contract, 90, 2_300);
    let makers = User::new(maker());
    let takers = User::new(taker());
    let history: Vec<(&Context, &User, Vec<u8>, bool)> = vec![
        (&as_taker, &takers, vec![1, 0], false),
        (&at_claim, &takers, vec![2], false),
        (&as_maker, &makers, open.clone(), true),
        (&as_maker, &makers, open.clone(), false),
        (&at_claim, &takers, vec![2], false),
        (&as_taker, &takers, vec![1, 0], true),
        (&as_taker, &takers, vec![1, 0], false),
        (&as_maker, &makers, open.clone(), false),
        (&at_claim, &takers, vec![2], true),
        (&at_claim, &takers, vec![2], false),
        (&as_taker, &takers, vec![1, 0], false),
        (&as_maker, &makers, open.clone(), false),
    ];
    let mut statuses = vec![];
    for (ctx, user, bytes, succeeds) in history {
        accounts.user = user.clone();
        let before = balances(&accounts, &contract);
        let result = Processor::process(&engine(), ctx, &mut accounts, &bytes);
        assert_eq!(result.is_ok(), succeeds);
        if !succeeds {
            assert_eq!(balances(&accounts, &contract), before);
        }
        statuses.push(accounts.trade.order_status.code());
    }
    assert_eq!(statuses, vec![0, 0, 1, 1, 1, 2, 2, 2, 3, 3, 3, 3]);
    assert_eq!(
        balances(&accounts, &contract),
        (5 * UNIT + UNIT / 10, 5 * UNIT - UNIT / 10, FLOOR)
    );
}

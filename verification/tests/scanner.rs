use arbitrage_bot::address::Address;
use arbitrage_bot::arb::{
    try_arbitrage, ArbitrageOutcome, Buy, LegAccount, MintRecord, TokenAccountRecord,
    TryArbitrageArgs,
};
use arbitrage_bot::error::ArbitrageProgramError;

fn addr(b: u8) -> Address {
    Address { bytes: [b; 32] }
}

fn token(account_index: usize, mint: u8, owner: u8, amount: u64) -> TokenAccountRecord {
    TokenAccountRecord {
        account_index,
        mint: addr(mint),
        owner: addr(owner),
        amount,
    }
}

fn mint(account_index: usize, decimals: u8) -> MintRecord {
    MintRecord {
        account_index,
        decimals,
    }
}

/// Three aligned baskets over `amounts = (user, venue1, venue2)` per
/// asset; account indices are laid out user 0.., venue1 10.., venue2
/// 20.., mints 30..
fn args(assets: &[(u64, u64, u64)], temperature: u8) -> TryArbitrageArgs {
    let user = assets
        .iter()
        .enumerate()
        .map(|(i, a)| token(i, 100 + i as u8, 1, a.0))
        .collect();
    let venue1 = assets
        .iter()
        .enumerate()
        .map(|(i, a)| token(10 + i, 100 + i as u8, 2, a.1))
        .collect();
    let venue2 = assets
        .iter()
        .enumerate()
        .map(|(i, a)| token(20 + i, 100 + i as u8, 3, a.2))
        .collect();
    let mints = assets.iter().enumerate().map(|(i, _)| mint(30 + i, 0)).collect();
    TryArbitrageArgs {
        token_accounts_user: user,
        token_accounts_swap_1: venue1,
        token_accounts_swap_2: venue2,
        mints,
        swap_1_program_id: addr(201),
        swap_2_program_id: addr(202),
        temperature,
    }
}

#[test]
fn first_fit_picks_earliest_pair() {
    // Pairs (0,1) and (0,2) are both actionable; (0,2) has the larger
    // discrepancy, but the scan must stop at (0,1).
    let a = args(&[(100, 1000, 1000), (100, 2000, 100), (100, 3000, 50)], 50);
    let plan = match try_arbitrage(a) {
        Ok(ArbitrageOutcome::Trade(p)) => p,
        other => panic!("expected a trade, got {:?}", other),
    };
    assert_eq!(plan.pay_index, 0);
    assert_eq!(plan.receive_index, 1);
    assert_eq!(plan.direction, Buy::Swap1);
}

#[test]
fn trade_legs_name_accounts_in_order() {
    // Venue 1 pays 181 for the user's 100 of asset 0; venue 2 pays 9.
    let a = args(&[(100, 1000, 1000), (100, 2000, 100)], 50);
    let plan = match try_arbitrage(a) {
        Ok(ArbitrageOutcome::Trade(p)) => p,
        other => panic!("expected a trade, got {:?}", other),
    };
    assert_eq!(plan.direction, Buy::Swap1);
    assert_eq!(plan.buy.program_id.bytes, [201; 32]);
    assert_eq!(plan.buy.amount, 100);
    assert_eq!(
        plan.buy.accounts,
        vec![
            LegAccount::Venue1Pool,
            LegAccount::Loaded(31), // mint of the bought asset
            LegAccount::Loaded(11), // venue-1 holding of the bought asset
            LegAccount::Loaded(1),  // user holding of the bought asset
            LegAccount::Loaded(30), // mint of the paid asset
            LegAccount::Loaded(10), // venue-1 holding of the paid asset
            LegAccount::Loaded(0),  // user holding of the paid asset
            LegAccount::Payer,
            LegAccount::TokenProgram,
        ]
    );
    assert_eq!(plan.sell.program_id.bytes, [202; 32]);
    assert_eq!(plan.sell.amount, 181);
    assert_eq!(
        plan.sell.accounts,
        vec![
            LegAccount::Venue2Pool,
            LegAccount::Loaded(30),
            LegAccount::Loaded(20),
            LegAccount::Loaded(0),
            LegAccount::Loaded(31),
            LegAccount::Loaded(21),
            LegAccount::Loaded(1),
            LegAccount::Payer,
            LegAccount::TokenProgram,
        ]
    );
}

#[test]
fn buy_at_venue_two_when_it_pays_more() {
    let a = args(&[(100, 1000, 1000), (100, 100, 2000)], 50);
    let plan = match try_arbitrage(a) {
        Ok(ArbitrageOutcome::Trade(p)) => p,
        other => panic!("expected a trade, got {:?}", other),
    };
    assert_eq!(plan.direction, Buy::Swap2);
    assert_eq!(plan.buy.program_id.bytes, [202; 32]);
    assert_eq!(plan.buy.amount, 100);
    assert_eq!(plan.buy.accounts[0], LegAccount::Venue2Pool);
    assert_eq!(plan.sell.program_id.bytes, [201; 32]);
    // Venue 2 pays 2000 * 100 / 1100 = 181; the sell leg pays it onward.
    assert_eq!(plan.sell.amount, 181);
    assert_eq!(plan.sell.accounts[0], LegAccount::Venue1Pool);
}

#[test]
fn identical_reserves_yield_no_trade() {
    let a = args(&[(100, 1000, 1000), (100, 2000, 2000), (7, 500, 500)], 100);
    assert!(matches!(try_arbitrage(a), Ok(ArbitrageOutcome::NoArbitrage)));
}

#[test]
fn misaligned_baskets_are_rejected() {
    let mut a = args(&[(100, 1000, 1000), (100, 2000, 100), (1, 1, 1)], 50);
    a.token_accounts_swap_1.pop();
    assert_eq!(
        try_arbitrage(a).map(|_| ()),
        Err(ArbitrageProgramError::InvalidAccountsList)
    );
}

#[test]
fn fewer_than_two_assets_are_rejected() {
    let a = args(&[(100, 1000, 1000)], 50);
    assert_eq!(
        try_arbitrage(a).map(|_| ()),
        Err(ArbitrageProgramError::InvalidAccountsList)
    );
}

#[test]
fn zero_predicted_receive_is_non_actionable() {
    // Venue 2 quotes zero for the pair; the comparator must treat that
    // as defined and non-actionable, even at full sensitivity.
    let a = args(&[(100, 1000, 1000), (100, 2000, 0)], 100);
    assert!(matches!(try_arbitrage(a), Ok(ArbitrageOutcome::NoArbitrage)));
}

#[test]
fn undefined_pricing_aborts_the_scan() {
    // User balance and venue-1 reserve of asset 0 are both zero: the
    // quote is undefined and the scan aborts on its first pair.
    let a = args(&[(0, 0, 1000), (100, 2000, 100)], 50);
    assert_eq!(
        try_arbitrage(a).map(|_| ()),
        Err(ArbitrageProgramError::InsufficientLiquidity)
    );
}

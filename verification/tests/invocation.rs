use arbitrage_bot::address::Address;
use arbitrage_bot::arb::{ArbitrageOutcome, Buy};
use arbitrage_bot::error::ArbitrageProgramError;
use arbitrage_bot::process;
use solana_program::pubkey::Pubkey;

fn addr(b: u8) -> Address {
    Address { bytes: [b; 32] }
}

fn derived_pool(program: &Address) -> Address {
    let key = Pubkey::new_from_array(program.bytes);
    let (derived, _bump) = Pubkey::find_program_address(&[b"liquidity_pool"], &key);
    Address {
        bytes: derived.to_bytes(),
    }
}

fn payload(p1: &Address, pool1: &Address, p2: &Address, pool2: &Address, temperature: u8) -> Vec<u8> {
    let mut data = Vec::new();
    data.extend_from_slice(&p1.bytes);
    data.extend_from_slice(&pool1.bytes);
    data.extend_from_slice(&p2.bytes);
    data.extend_from_slice(&pool2.bytes);
    data.push(temperature);
    data
}

fn token_data(mint: &Address, owner: &Address, amount: u64) -> Vec<u8> {
    let mut d = vec![0u8; 165];
    d[0..32].copy_from_slice(&mint.bytes);
    d[32..64].copy_from_slice(&owner.bytes);
    d[64..72].copy_from_slice(&amount.to_le_bytes());
    d
}

fn mint_data(decimals: u8) -> Vec<u8> {
    let mut d = vec![0u8; 82];
    d[44] = decimals;
    d
}

/// The two-asset setting: user balances, venue-1 reserves and venue-2
/// reserves per asset, both assets with zero decimals, accounts in the
/// order user, user, venue-1, venue-1, venue-2, venue-2, mint, mint.
fn two_asset_accounts(
    payer: &Address,
    pool1: &Address,
    pool2: &Address,
    user: (u64, u64),
    venue1: (u64, u64),
    venue2: (u64, u64),
) -> Vec<Vec<u8>> {
    let mint_a = addr(100);
    let mint_b = addr(101);
    vec![
        token_data(&mint_a, payer, user.0),
        token_data(&mint_b, payer, user.1),
        token_data(&mint_a, pool1, venue1.0),
        token_data(&mint_b, pool1, venue1.1),
        token_data(&mint_a, pool2, venue2.0),
        token_data(&mint_b, pool2, venue2.1),
        mint_data(0),
        mint_data(0),
    ]
}

#[test]
fn scenario_mixed_reserves_below_threshold() {
    // Venue 1 would pay 181 for the user's 100 of asset A, venue 2
    // would pay 136: a 33% discrepancy, short of the 50-point
    // threshold, so no trade fires and no external call is built.
    let p1 = addr(11);
    let p2 = addr(12);
    let pool1 = derived_pool(&p1);
    let pool2 = derived_pool(&p2);
    let payer = addr(1);
    let accounts = two_asset_accounts(&payer, &pool1, &pool2, (100, 0), (1000, 2000), (1000, 1500));
    let data = payload(&p1, &pool1, &p2, &pool2, 50);
    let got = process(&data, &payer, &accounts);
    assert!(matches!(got, Ok(ArbitrageOutcome::NoArbitrage)));
}

#[test]
fn scenario_mixed_reserves_above_threshold() {
    // The same reserves at temperature 70 (threshold 30): the 33%
    // discrepancy now clears it, venue 1 pays more, so the plan buys at
    // venue 1 and sells at venue 2, buy leg first.
    let p1 = addr(11);
    let p2 = addr(12);
    let pool1 = derived_pool(&p1);
    let pool2 = derived_pool(&p2);
    let payer = addr(1);
    let accounts = two_asset_accounts(&payer, &pool1, &pool2, (100, 0), (1000, 2000), (1000, 1500));
    let data = payload(&p1, &pool1, &p2, &pool2, 70);
    let plan = match process(&data, &payer, &accounts) {
        Ok(ArbitrageOutcome::Trade(p)) => p,
        other => panic!("expected a trade, got {:?}", other),
    };
    assert_eq!(plan.direction, Buy::Swap1);
    assert_eq!(plan.buy.program_id.bytes, p1.bytes);
    assert_eq!(plan.buy.amount, 100);
    assert_eq!(plan.sell.program_id.bytes, p2.bytes);
    assert_eq!(plan.sell.amount, 181);
}

#[test]
fn scenario_identical_reserves() {
    // Identical reserves at both venues: no trade, no external calls.
    let p1 = addr(11);
    let p2 = addr(12);
    let pool1 = derived_pool(&p1);
    let pool2 = derived_pool(&p2);
    let payer = addr(1);
    let accounts = two_asset_accounts(&payer, &pool1, &pool2, (100, 50), (1000, 2000), (1000, 2000));
    let data = payload(&p1, &pool1, &p2, &pool2, 100);
    let got = process(&data, &payer, &accounts);
    assert!(matches!(got, Ok(ArbitrageOutcome::NoArbitrage)));
}

#[test]
fn scenario_basket_length_mismatch() {
    // Three mints but only two venue-1 accounts: a fatal configuration
    // error before any pricing runs.
    let p1 = addr(11);
    let p2 = addr(12);
    let pool1 = derived_pool(&p1);
    let pool2 = derived_pool(&p2);
    let payer = addr(1);
    let mint_a = addr(100);
    let mint_b = addr(101);
    let mint_c = addr(102);
    let accounts = vec![
        token_data(&mint_a, &payer, 100),
        token_data(&mint_b, &payer, 100),
        token_data(&mint_c, &payer, 100),
        token_data(&mint_a, &pool1, 1000),
        token_data(&mint_b, &pool1, 2000),
        token_data(&mint_a, &pool2, 1000),
        token_data(&mint_b, &pool2, 1500),
        token_data(&mint_c, &pool2, 700),
        mint_data(0),
        mint_data(0),
        mint_data(0),
    ];
    let data = payload(&p1, &pool1, &p2, &pool2, 50);
    assert_eq!(
        process(&data, &payer, &accounts).map(|_| ()),
        Err(ArbitrageProgramError::InvalidAccountsList)
    );
}

#[test]
fn scenario_zero_venue_two_prediction() {
    // Venue 2 has no reserve of asset B, so its predicted receive is
    // zero: the comparator must not divide by it, and reports the
    // defined non-actionable outcome.
    let p1 = addr(11);
    let p2 = addr(12);
    let pool1 = derived_pool(&p1);
    let pool2 = derived_pool(&p2);
    let payer = addr(1);
    let accounts = two_asset_accounts(&payer, &pool1, &pool2, (100, 0), (1000, 2000), (1000, 0));
    let data = payload(&p1, &pool1, &p2, &pool2, 100);
    let got = process(&data, &payer, &accounts);
    assert!(matches!(got, Ok(ArbitrageOutcome::NoArbitrage)));
}

#[test]
fn out_of_range_temperature_is_rejected() {
    let p1 = addr(11);
    let p2 = addr(12);
    let pool1 = derived_pool(&p1);
    let pool2 = derived_pool(&p2);
    let data = payload(&p1, &pool1, &p2, &pool2, 101);
    assert_eq!(
        process(&data, &addr(1), &Vec::new()).map(|_| ()),
        Err(ArbitrageProgramError::InvalidTemperature)
    );
}

#[test]
fn mismatched_pool_address_is_rejected() {
    let p1 = addr(11);
    let p2 = addr(12);
    let pool2 = derived_pool(&p2);
    let data = payload(&p1, &addr(99), &p2, &pool2, 50);
    assert_eq!(
        process(&data, &addr(1), &Vec::new()).map(|_| ()),
        Err(ArbitrageProgramError::InvalidPoolAddress)
    );
}

#[test]
fn malformed_payload_is_rejected() {
    assert_eq!(
        process(&vec![0u8; 17], &addr(1), &Vec::new()).map(|_| ()),
        Err(ArbitrageProgramError::InvalidInstructionData)
    );
}

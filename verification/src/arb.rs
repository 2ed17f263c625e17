//! Arbitrage opportunity spotting and trade-plan construction.
use vstd::prelude::*;
use vstd::arithmetic::mul::*;
use crate::address::Address;
use crate::error::ArbitrageProgramError;
use crate::swap::{predict_receive, swap_quote};

verus! {

/// Tells the executor which swap pool is the "buy" side.
#[derive(Clone, Copy, Debug, PartialEq, Eq, Structural)]
pub enum Buy {
    /// Buy on Swap #1 and sell on Swap #2.
    Swap1,
    /// Buy on Swap #2 and sell on Swap #1.
    Swap2,
}

/// One loaded token account: a reference back to the caller's account
/// list (by position), plus the fields read from its data.
#[derive(Clone, Copy, Debug)]
pub struct TokenAccountRecord {
    /// Position of the underlying account in the list the loader was given.
    pub account_index: usize,
    /// The mint of the asset this account holds.
    pub mint: Address,
    /// The owner of this account.
    pub owner: Address,
    /// The raw 64-bit balance.
    pub amount: u64,
}

/// One loaded mint: a reference back to the caller's account list, plus
/// its decimal scale.
#[derive(Clone, Copy, Debug)]
pub struct MintRecord {
    /// Position of the underlying account in the list the loader was given.
    pub account_index: usize,
    /// How many raw units make one nominal unit: `10^decimals`.
    pub decimals: u8,
}

/// One account named by a trade leg. The engine does not hold the real
/// accounts; it names each one so the surrounding transaction can resolve
/// it.
#[derive(Clone, Copy, Debug, PartialEq, Eq, Structural)]
pub enum LegAccount {
    /// The pool account of venue 1.
    Venue1Pool,
    /// The pool account of venue 2.
    Venue2Pool,
    /// The account at this position in the list the loader was given.
    Loaded(usize),
    /// The paying user.
    Payer,
    /// The token program.
    TokenProgram,
}

/// One of the two external calls of a trade: the target venue's program,
/// the ordered accounts its instruction touches, and the raw amount to
/// submit.
#[derive(Clone, Debug)]
pub struct Leg {
    /// The target venue's program id.
    pub program_id: Address,
    /// The full ordered account list of the venue's trade instruction.
    pub accounts: Vec<LegAccount>,
    /// The raw amount paid into the venue by this leg.
    pub amount: u64,
}

/// A detected opportunity, ready to execute: the asset pair, the chosen
/// direction, and the two legs in buy-then-sell order.
#[derive(Clone, Debug)]
pub struct TradePlan {
    /// Index of the asset the user pays with (at the buy venue).
    pub pay_index: usize,
    /// Index of the asset bought (received at the buy venue).
    pub receive_index: usize,
    /// Which venue is the buy side.
    pub direction: Buy,
    /// The buy leg, to submit first.
    pub buy: Leg,
    /// The sell leg, to submit second.
    pub sell: Leg,
}

/// What a completed scan reports: either a trade to execute, or the
/// distinguished, non-exceptional "no opportunity" outcome.
#[derive(Clone, Debug)]
pub enum ArbitrageOutcome {
    /// An actionable pair was found; execute this plan.
    Trade(TradePlan),
    /// No pair cleared the threshold. Not an error.
    NoArbitrage,
}

/// Args for the `try_arbitrage` algorithm. The three baskets and the mint
/// list are aligned by asset index.
pub struct TryArbitrageArgs {
    pub token_accounts_user: Vec<TokenAccountRecord>,
    pub token_accounts_swap_1: Vec<TokenAccountRecord>,
    pub token_accounts_swap_2: Vec<TokenAccountRecord>,
    pub mints: Vec<MintRecord>,
    pub swap_1_program_id: Address,
    pub swap_2_program_id: Address,
    pub temperature: u8,
}

/// The sensitivity threshold, in percentage points: higher temperature
/// means a smaller discrepancy suffices.
pub open spec fn trade_threshold(temperature: int) -> int {
    100 - temperature
}

/// `|x - y|`.
pub open spec fn abs_diff(x: int, y: int) -> int {
    if x >= y {
        x - y
    } else {
        y - x
    }
}

/// The comparator's decision on a pair of predicted receive amounts: a
/// trade fires when the relative difference of the two predictions,
/// measured against the venue-2 prediction in percentage points, strictly
/// exceeds the threshold. A larger venue-1 payout means venue 1 is the
/// buy side. A zero venue-2 prediction makes the relative difference
/// undefined and is treated as non-actionable.
pub open spec fn arbitrage_decision(r_swap_1: int, r_swap_2: int, temperature: int) -> Option<
    Buy,
> {
    if r_swap_2 <= 0 {
        None
    } else if abs_diff(r_swap_1, r_swap_2) * 100 > trade_threshold(temperature) * r_swap_2 {
        if r_swap_1 > r_swap_2 {
            Some(Buy::Swap1)
        } else {
            Some(Buy::Swap2)
        }
    } else {
        None
    }
}

/// Evaluates the percent difference in the calculated values for `r` and
/// determines which pool to buy or sell, if any.
///
/// The comparison `|r1 - r2| / r2 * 100 > 100 - temperature` is carried
/// out exactly, multiplied through by `r2`, so no division happens and a
/// zero `r_swap_2` never divides: it simply yields no trade.
pub fn check_for_arbitrage(r_swap_1: u64, r_swap_2: u64, temperature: u8) -> (r: Option<Buy>)
    requires
        temperature <= 100,
    ensures
        r == arbitrage_decision(r_swap_1 as int, r_swap_2 as int, temperature as int),
{
    if r_swap_2 == 0 {
        return None;
    }
    let threshold: u64 = 100 - (temperature as u64);
    let diff: u64 = if r_swap_1 >= r_swap_2 {
        r_swap_1 - r_swap_2
    } else {
        r_swap_2 - r_swap_1
    };
    proof {
        lemma_mul_upper_bound(threshold as int, 100, r_swap_2 as int, u64::MAX as int);
    }
    if (diff as u128) * 100 > (threshold as u128) * (r_swap_2 as u128) {
        if r_swap_1 > r_swap_2 {
            Some(Buy::Swap1)
        } else {
            Some(Buy::Swap2)
        }
    } else {
        None
    }
}

/// Threshold boundary: at temperature 0 (threshold 100) only a
/// more-than-100% relative difference fires; at temperature 100
/// (threshold 0) any difference at all fires, except exact equality.
pub proof fn lemma_threshold_boundary(r_swap_1: int, r_swap_2: int)
    requires
        r_swap_2 > 0,
    ensures
        arbitrage_decision(r_swap_1, r_swap_2, 0) is Some <==> abs_diff(r_swap_1, r_swap_2)
            > r_swap_2,
        arbitrage_decision(r_swap_1, r_swap_2, 100) is Some <==> r_swap_1 != r_swap_2,
{
}

/// Whenever both orientations of the comparator fire, they pick opposite
/// directions.
pub proof fn lemma_decision_antisymmetric(r_swap_1: int, r_swap_2: int, temperature: int)
    requires
        0 <= temperature <= 100,
        arbitrage_decision(r_swap_1, r_swap_2, temperature) is Some,
        arbitrage_decision(r_swap_2, r_swap_1, temperature) is Some,
    ensures
        arbitrage_decision(r_swap_1, r_swap_2, temperature) == Some(Buy::Swap1)
            <==> arbitrage_decision(r_swap_2, r_swap_1, temperature) == Some(Buy::Swap2),
        arbitrage_decision(r_swap_1, r_swap_2, temperature) == Some(Buy::Swap2)
            <==> arbitrage_decision(r_swap_2, r_swap_1, temperature) == Some(Buy::Swap1),
{
    lemma_mul_nonnegative(trade_threshold(temperature), r_swap_2);
    lemma_mul_nonnegative(trade_threshold(temperature), r_swap_1);
}

/// Comparator symmetry. The relative difference is measured against the
/// second argument, so the two orientations compare the same discrepancy
/// against two different denominators; the orientations agree exactly
/// when the discrepancy is on the same side of the threshold for both
/// denominators, which the first premise states. Under it, the two
/// orientations fire together, with opposite directions, and report "no
/// trade" together.
pub proof fn lemma_comparator_symmetry(a: int, b: int, temperature: int)
    requires
        a > 0,
        b > 0,
        0 <= temperature <= 100,
        (abs_diff(a, b) * 100 > trade_threshold(temperature) * a) == (abs_diff(a, b) * 100
            > trade_threshold(temperature) * b),
    ensures
        (arbitrage_decision(a, b, temperature) is Some) == (arbitrage_decision(
            b,
            a,
            temperature,
        ) is Some),
        arbitrage_decision(a, b, temperature) == Some(Buy::Swap1) <==> arbitrage_decision(
            b,
            a,
            temperature,
        ) == Some(Buy::Swap2),
        arbitrage_decision(a, b, temperature) == Some(Buy::Swap2) <==> arbitrage_decision(
            b,
            a,
            temperature,
        ) == Some(Buy::Swap1),
{
    assert(abs_diff(a, b) == abs_diff(b, a));
    lemma_mul_nonnegative(trade_threshold(temperature), a);
    lemma_mul_nonnegative(trade_threshold(temperature), b);
}

/// The baskets are usable: all four lists have the same length.
pub open spec fn baskets_aligned(a: TryArbitrageArgs) -> bool {
    &&& a.token_accounts_user@.len() == a.mints@.len()
    &&& a.token_accounts_swap_1@.len() == a.mints@.len()
    &&& a.token_accounts_swap_2@.len() == a.mints@.len()
}

/// What venue 1 would pay out in asset `j` for the user's whole balance
/// of asset `i`.
pub open spec fn venue1_quote(a: TryArbitrageArgs, i: int, j: int) -> int {
    swap_quote(
        a.token_accounts_swap_1@[j].amount as int,
        a.token_accounts_swap_1@[i].amount as int,
        a.token_accounts_user@[i].amount as int,
    )
}

/// What venue 2 would pay out in asset `j` for the user's whole balance
/// of asset `i`.
pub open spec fn venue2_quote(a: TryArbitrageArgs, i: int, j: int) -> int {
    swap_quote(
        a.token_accounts_swap_2@[j].amount as int,
        a.token_accounts_swap_2@[i].amount as int,
        a.token_accounts_user@[i].amount as int,
    )
}

/// Pricing the pair `(i, j)` fails: at one of the venues, the pay-side
/// reserve and the user's balance are both zero, so that venue's quote is
/// undefined.
pub open spec fn pair_fails(a: TryArbitrageArgs, i: int, j: int) -> bool {
    ||| a.token_accounts_swap_1@[i].amount + a.token_accounts_user@[i].amount == 0
    ||| a.token_accounts_swap_2@[i].amount + a.token_accounts_user@[i].amount == 0
}

/// The comparator's decision on the pair `(i, j)`, meaningful when
/// pricing the pair does not fail.
pub open spec fn pair_decision(a: TryArbitrageArgs, i: int, j: int) -> Option<Buy> {
    arbitrage_decision(venue1_quote(a, i, j), venue2_quote(a, i, j), a.temperature as int)
}

/// The pair `(i, j)` prices fine and yields no trade: the scan walks past
/// it.
pub open spec fn pair_clean(a: TryArbitrageArgs, i: int, j: int) -> bool {
    &&& !pair_fails(a, i, j)
    &&& pair_decision(a, i, j) is None
}

/// `(i1, j1)` comes strictly before `(i2, j2)` in the scan order.
pub open spec fn lex_before(i1: int, j1: int, i2: int, j2: int) -> bool {
    i1 < i2 || (i1 == i2 && j1 < j2)
}

/// The account order of one trade leg: the venue's pool, then the
/// receive-side mint, pool holding and user holding, then the pay-side
/// mint, pool holding and user holding, then the payer and the token
/// program.
pub open spec fn leg_accounts_seq(
    pool: LegAccount,
    mint_receive: usize,
    venue_receive: usize,
    user_receive: usize,
    mint_pay: usize,
    venue_pay: usize,
    user_pay: usize,
) -> Seq<LegAccount> {
    seq![
        pool,
        LegAccount::Loaded(mint_receive),
        LegAccount::Loaded(venue_receive),
        LegAccount::Loaded(user_receive),
        LegAccount::Loaded(mint_pay),
        LegAccount::Loaded(venue_pay),
        LegAccount::Loaded(user_pay),
        LegAccount::Payer,
        LegAccount::TokenProgram,
    ]
}

/// `p` is exactly the plan for trading the pair `(i, j)` in direction
/// `dir`: the buy leg pays the user's balance of asset `i` into the buy
/// venue to receive asset `j`; the sell leg then pays the predicted
/// receive amount of asset `j` into the other venue to receive asset `i`.
pub open spec fn plan_for_pair(
    a: TryArbitrageArgs,
    i: int,
    j: int,
    dir: Buy,
    p: TradePlan,
) -> bool {
    &&& p.pay_index == i
    &&& p.receive_index == j
    &&& p.direction == dir
    &&& p.buy.amount == a.token_accounts_user@[i].amount
    &&& match dir {
        Buy::Swap1 => {
            &&& p.buy.program_id@ == a.swap_1_program_id@
            &&& p.buy.accounts@ == leg_accounts_seq(
                LegAccount::Venue1Pool,
                a.mints@[j].account_index,
                a.token_accounts_swap_1@[j].account_index,
                a.token_accounts_user@[j].account_index,
                a.mints@[i].account_index,
                a.token_accounts_swap_1@[i].account_index,
                a.token_accounts_user@[i].account_index,
            )
            &&& p.sell.program_id@ == a.swap_2_program_id@
            &&& p.sell.accounts@ == leg_accounts_seq(
                LegAccount::Venue2Pool,
                a.mints@[i].account_index,
                a.token_accounts_swap_2@[i].account_index,
                a.token_accounts_user@[i].account_index,
                a.mints@[j].account_index,
                a.token_accounts_swap_2@[j].account_index,
                a.token_accounts_user@[j].account_index,
            )
            &&& p.sell.amount == venue1_quote(a, i, j)
        },
        Buy::Swap2 => {
            &&& p.buy.program_id@ == a.swap_2_program_id@
            &&& p.buy.accounts@ == leg_accounts_seq(
                LegAccount::Venue2Pool,
                a.mints@[j].account_index,
                a.token_accounts_swap_2@[j].account_index,
                a.token_accounts_user@[j].account_index,
                a.mints@[i].account_index,
                a.token_accounts_swap_2@[i].account_index,
                a.token_accounts_user@[i].account_index,
            )
            &&& p.sell.program_id@ == a.swap_1_program_id@
            &&& p.sell.accounts@ == leg_accounts_seq(
                LegAccount::Venue1Pool,
                a.mints@[i].account_index,
                a.token_accounts_swap_1@[i].account_index,
                a.token_accounts_user@[i].account_index,
                a.mints@[j].account_index,
                a.token_accounts_swap_1@[j].account_index,
                a.token_accounts_user@[j].account_index,
            )
            &&& p.sell.amount == venue2_quote(a, i, j)
        },
    }
}

/// Everything `try_arbitrage` promises of its result.
///
/// The scan is first-fit: a returned plan is for an actionable pair, and
/// every pair before it in the scan order priced fine and yielded no
/// trade. A pricing failure aborts the scan at the first failing pair.
pub open spec fn try_arbitrage_post(
    a: TryArbitrageArgs,
    r: Result<ArbitrageOutcome, ArbitrageProgramError>,
) -> bool {
    let n = a.mints@.len() as int;
    &&& (r == Err::<ArbitrageOutcome, ArbitrageProgramError>(
        ArbitrageProgramError::InvalidAccountsList,
    ) <==> !(baskets_aligned(a) && n >= 2))
    &&& (r == Ok::<ArbitrageOutcome, ArbitrageProgramError>(ArbitrageOutcome::NoArbitrage) <==> (
    baskets_aligned(a) && n >= 2 && (forall|i: int, j: int|
        0 <= i < j < n ==> pair_clean(a, i, j))))
    &&& (r matches Ok(ArbitrageOutcome::Trade(p)) ==> {
        let i = p.pay_index as int;
        let j = p.receive_index as int;
        &&& 0 <= i < j < n
        &&& !pair_fails(a, i, j)
        &&& pair_decision(a, i, j) == Some(p.direction)
        &&& plan_for_pair(a, i, j, p.direction, p)
        &&& forall|i2: int, j2: int|
            0 <= i2 < j2 < n && lex_before(i2, j2, i, j) ==> pair_clean(a, i2, j2)
    })
    &&& (r == Err::<ArbitrageOutcome, ArbitrageProgramError>(
        ArbitrageProgramError::InsufficientLiquidity,
    ) ==> exists|i: int, j: int|
        {
            &&& 0 <= i < j < n
            &&& #[trigger] pair_fails(a, i, j)
            &&& forall|i2: int, j2: int|
                0 <= i2 < j2 < n && lex_before(i2, j2, i, j) ==> pair_clean(a, i2, j2)
        })
    &&& (r is Err ==> r == Err::<ArbitrageOutcome, ArbitrageProgramError>(
        ArbitrageProgramError::InvalidAccountsList,
    ) || r == Err::<ArbitrageOutcome, ArbitrageProgramError>(
        ArbitrageProgramError::InsufficientLiquidity,
    ))
}

/// Assembles one leg from the venue's program, its pool tag, the six
/// loaded-account positions in leg order, and the raw amount.
fn build_leg(
    program_id: Address,
    pool: LegAccount,
    mint_receive: usize,
    venue_receive: usize,
    user_receive: usize,
    mint_pay: usize,
    venue_pay: usize,
    user_pay: usize,
    amount: u64,
) -> (l: Leg)
    ensures
        l.program_id == program_id,
        l.amount == amount,
        l.accounts@ == leg_accounts_seq(
            pool,
            mint_receive,
            venue_receive,
            user_receive,
            mint_pay,
            venue_pay,
            user_pay,
        ),
{
    let mut accounts: Vec<LegAccount> = Vec::new();
    accounts.push(pool);
    accounts.push(LegAccount::Loaded(mint_receive));
    accounts.push(LegAccount::Loaded(venue_receive));
    accounts.push(LegAccount::Loaded(user_receive));
    accounts.push(LegAccount::Loaded(mint_pay));
    accounts.push(LegAccount::Loaded(venue_pay));
    accounts.push(LegAccount::Loaded(user_pay));
    accounts.push(LegAccount::Payer);
    accounts.push(LegAccount::TokenProgram);
    proof {
        assert(accounts@ =~= leg_accounts_seq(
            pool,
            mint_receive,
            venue_receive,
            user_receive,
            mint_pay,
            venue_pay,
            user_pay,
        ));
    }
    Leg { program_id, accounts, amount }
}

/// Checks whether there is an arbitrage opportunity between the two
/// pools and, if there is one, builds the trade.
///
/// All index pairs `(i, j)` with `i < j` are scanned in ascending order;
/// for each, both venues' payouts for the user's balance of asset `i`
/// are predicted and the comparator evaluates them. The first actionable
/// pair wins (first-fit, not best-fit) and the scan stops there. A scan
/// that exhausts all pairs reports the distinguished `NoArbitrage`
/// outcome. Misaligned baskets, or fewer than two assets, are a fatal
/// configuration error before any pricing runs; a pair whose pricing is
/// undefined aborts the scan.
pub fn try_arbitrage(args: TryArbitrageArgs) -> (r: Result<
    ArbitrageOutcome,
    ArbitrageProgramError,
>)
    requires
        args.temperature <= 100,
    ensures
        try_arbitrage_post(args, r),
{
    let n = args.mints.len();
    if !(args.token_accounts_user.len() == n && args.token_accounts_swap_1.len() == n
        && args.token_accounts_swap_2.len() == n) || n < 2 {
        return Err(ArbitrageProgramError::InvalidAccountsList);
    }
    let mut i: usize = 0;
    while i < n
        invariant
            i <= n,
            n == args.mints@.len(),
            baskets_aligned(args),
            n >= 2,
            args.temperature <= 100,
            forall|i2: int, j2: int| 0 <= i2 < j2 < n && i2 < i ==> pair_clean(args, i2, j2),
        decreases n - i,
    {
        let user_i = args.token_accounts_user[i];
        let swap_1_i = args.token_accounts_swap_1[i];
        let swap_2_i = args.token_accounts_swap_2[i];
        let mint_i = args.mints[i];
        let mut j: usize = i + 1;
        while j < n
            invariant
                i < n,
                i < j <= n,
                n == args.mints@.len(),
                baskets_aligned(args),
                n >= 2,
                args.temperature <= 100,
                user_i == args.token_accounts_user@[i as int],
                swap_1_i == args.token_accounts_swap_1@[i as int],
                swap_2_i == args.token_accounts_swap_2@[i as int],
                mint_i == args.mints@[i as int],
                forall|i2: int, j2: int| 0 <= i2 < j2 < n && i2 < i ==> pair_clean(args, i2, j2),
                forall|j2: int| i < j2 < j ==> pair_clean(args, i as int, j2),
            decreases n - j,
        {
            let user_j = args.token_accounts_user[j];
            let swap_1_j = args.token_accounts_swap_1[j];
            let swap_2_j = args.token_accounts_swap_2[j];
            let mint_j = args.mints[j];
            let r_swap_1 = match predict_receive(
                swap_1_j.amount,
                mint_j.decimals,
                swap_1_i.amount,
                mint_i.decimals,
                user_i.amount,
            ) {
                Ok(v) => v,
                Err(e) => {
                    proof {
                        assert(pair_fails(args, i as int, j as int));
                        assert(!pair_clean(args, i as int, j as int));
                    }
                    return Err(e);
                },
            };
            let r_swap_2 = match predict_receive(
                swap_2_j.amount,
                mint_j.decimals,
                swap_2_i.amount,
                mint_i.decimals,
                user_i.amount,
            ) {
                Ok(v) => v,
                Err(e) => {
                    proof {
                        assert(pair_fails(args, i as int, j as int));
                        assert(!pair_clean(args, i as int, j as int));
                    }
                    return Err(e);
                },
            };
            match check_for_arbitrage(r_swap_1, r_swap_2, args.temperature) {
                Some(trade) => {
                    proof {
                        assert(!pair_fails(args, i as int, j as int));
                        assert(pair_decision(args, i as int, j as int) == Some(trade));
                        assert(!pair_clean(args, i as int, j as int));
                    }
                    let plan = match trade {
                        Buy::Swap1 => TradePlan {
                            pay_index: i,
                            receive_index: j,
                            direction: trade,
                            buy: build_leg(
                                args.swap_1_program_id,
                                LegAccount::Venue1Pool,
                                mint_j.account_index,
                                swap_1_j.account_index,
                                user_j.account_index,
                                mint_i.account_index,
                                swap_1_i.account_index,
                                user_i.account_index,
                                user_i.amount,
                            ),
                            sell: build_leg(
                                args.swap_2_program_id,
                                LegAccount::Venue2Pool,
                                mint_i.account_index,
                                swap_2_i.account_index,
                                user_i.account_index,
                                mint_j.account_index,
                                swap_2_j.account_index,
                                user_j.account_index,
                                r_swap_1,
                            ),
                        },
                        Buy::Swap2 => TradePlan {
                            pay_index: i,
                            receive_index: j,
                            direction: trade,
                            buy: build_leg(
                                args.swap_2_program_id,
                                LegAccount::Venue2Pool,
                                mint_j.account_index,
                                swap_2_j.account_index,
                                user_j.account_index,
                                mint_i.account_index,
                                swap_2_i.account_index,
                                user_i.account_index,
                                user_i.amount,
                            ),
                            sell: build_leg(
                                args.swap_1_program_id,
                                LegAccount::Venue1Pool,
                                mint_i.account_index,
                                swap_1_i.account_index,
                                user_i.account_index,
                                mint_j.account_index,
                                swap_1_j.account_index,
                                user_j.account_index,
                                r_swap_2,
                            ),
                        },
                    };
                    return Ok(ArbitrageOutcome::Trade(plan));
                },
                None => {
                    proof {
                        assert(pair_clean(args, i as int, j as int));
                    }
                },
            }
            j = j + 1;
        }
        i = i + 1;
    }
    Ok(ArbitrageOutcome::NoArbitrage)
}

} // verus!

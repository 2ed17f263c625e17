//! An arbitrage engine over two constant-product liquidity venues.
//!
//! Given the same pair of assets quoted by two independent venues, the
//! engine predicts what each venue would pay out for the user's holding,
//! decides whether the venues disagree enough to make a round trip
//! profitable, and if so builds the two-leg trade (buy at one venue, sell
//! at the other) for the surrounding transaction to submit atomically.

pub mod address;
pub mod arb;
pub mod error;
pub mod swap;
pub mod util;

use vstd::prelude::*;
use crate::address::Address;
use crate::arb::{
    try_arbitrage, try_arbitrage_post, ArbitrageOutcome, MintRecord, TokenAccountRecord,
    TryArbitrageArgs,
};
use crate::error::ArbitrageProgramError;
use crate::util::{
    check_pool_address, load_arbitrage_accounts, loaded_prefix, pool_pda, scan_prefix_ok,
};

verus! {

/// The per-invocation configuration carried in the instruction payload:
/// the two swap programs to consider arbitrage opportunities between,
/// their pool addresses, and the sensitivity parameter.
#[derive(Clone, Copy, Debug)]
pub struct ArbBotArgs {
    pub swap_1_program_id: Address,
    pub swap_1_pool_address: Address,
    pub swap_2_program_id: Address,
    pub swap_2_pool_address: Address,
    /// The sensitivity parameter, in `[0, 100]`; higher values need a
    /// smaller discrepancy to trigger a trade.
    pub temperature: u8,
}

impl ArbBotArgs {
    /// Decodes the payload: four 32-byte addresses followed by the
    /// temperature byte, 129 bytes exactly.
    pub fn try_from_slice(data: &Vec<u8>) -> (r: Result<ArbBotArgs, ArbitrageProgramError>)
        ensures
            r is Ok <==> data@.len() == 129,
            r matches Ok(a) ==> {
                &&& a.swap_1_program_id@ == data@.subrange(0, 32)
                &&& a.swap_1_pool_address@ == data@.subrange(32, 64)
                &&& a.swap_2_program_id@ == data@.subrange(64, 96)
                &&& a.swap_2_pool_address@ == data@.subrange(96, 128)
                &&& a.temperature == data@[128]
            },
            r is Err ==> r == Err::<ArbBotArgs, ArbitrageProgramError>(
                ArbitrageProgramError::InvalidInstructionData,
            ),
    {
        if data.len() != 129 {
            return Err(ArbitrageProgramError::InvalidInstructionData);
        }
        Ok(
            ArbBotArgs {
                swap_1_program_id: crate::util::read_address(data, 0),
                swap_1_pool_address: crate::util::read_address(data, 32),
                swap_2_program_id: crate::util::read_address(data, 64),
                swap_2_pool_address: crate::util::read_address(data, 96),
                temperature: data[128],
            },
        )
    }
}

/// The scanning-and-execution stage of `process`, once the payload
/// parsed and both pool addresses checked out: either the accounts load
/// into baskets and the result is exactly what `try_arbitrage` promises
/// of them, or a token account with an unknown owner was hit first.
pub open spec fn scan_stage_post(
    datas: Seq<Vec<u8>>,
    payer: Seq<u8>,
    p1_prog: Seq<u8>,
    p1_pool: Seq<u8>,
    p2_prog: Seq<u8>,
    p2_pool: Seq<u8>,
    temperature: u8,
    r: Result<ArbitrageOutcome, ArbitrageProgramError>,
) -> bool {
    ||| exists|
        stop: int,
        user: Vec<TokenAccountRecord>,
        venue1: Vec<TokenAccountRecord>,
        venue2: Vec<TokenAccountRecord>,
        mints: Vec<MintRecord>,
        a1: Address,
        a2: Address,
    |
        #![trigger scan_prefix_ok(datas, payer, p1_pool, p2_pool, stop), loaded_prefix(
            datas,
            payer,
            p1_pool,
            p2_pool,
            stop,
            user@,
            venue1@,
            venue2@,
            mints@,
        ), a1@, a2@]
        {
            &&& scan_prefix_ok(datas, payer, p1_pool, p2_pool, stop)
            &&& loaded_prefix(
                datas,
                payer,
                p1_pool,
                p2_pool,
                stop,
                user@,
                venue1@,
                venue2@,
                mints@,
            )
            &&& a1@ == p1_prog
            &&& a2@ == p2_prog
            &&& try_arbitrage_post(
                TryArbitrageArgs {
                    token_accounts_user: user,
                    token_accounts_swap_1: venue1,
                    token_accounts_swap_2: venue2,
                    mints,
                    swap_1_program_id: a1,
                    swap_2_program_id: a2,
                    temperature,
                },
                r,
            )
        }
    ||| {
        &&& r == Err::<ArbitrageOutcome, ArbitrageProgramError>(
            ArbitrageProgramError::TokenAccountOwnerNotFound,
        )
        &&& exists|k: int|
            {
                &&& 0 <= k < datas.len()
                &&& #[trigger] crate::util::classify(datas[k]@, payer, p1_pool, p2_pool)
                    is UnknownOwner
                &&& forall|m: int|
                    0 <= m < k ==> !(#[trigger] crate::util::classify(
                        datas[m]@,
                        payer,
                        p1_pool,
                        p2_pool,
                    ) is Unrecognized) && !(crate::util::classify(datas[m]@, payer, p1_pool, p2_pool)
                        is UnknownOwner)
            }
    }
}

/// Everything `process` promises: the staged validation errors, exactly
/// in their order — payload shape, temperature range, venue-1 pool
/// derivation, venue-2 pool derivation — and then the scan stage.
pub open spec fn process_post(
    data: Seq<u8>,
    payer: Seq<u8>,
    datas: Seq<Vec<u8>>,
    r: Result<ArbitrageOutcome, ArbitrageProgramError>,
) -> bool {
    if data.len() != 129 {
        r == Err::<ArbitrageOutcome, ArbitrageProgramError>(
            ArbitrageProgramError::InvalidInstructionData,
        )
    } else if data[128] > 100 {
        r == Err::<ArbitrageOutcome, ArbitrageProgramError>(
            ArbitrageProgramError::InvalidTemperature,
        )
    } else if pool_pda(data.subrange(0, 32)) != Some(data.subrange(32, 64)) {
        r == Err::<ArbitrageOutcome, ArbitrageProgramError>(
            ArbitrageProgramError::InvalidPoolAddress,
        )
    } else if pool_pda(data.subrange(64, 96)) != Some(data.subrange(96, 128)) {
        r == Err::<ArbitrageOutcome, ArbitrageProgramError>(
            ArbitrageProgramError::InvalidPoolAddress,
        )
    } else {
        scan_stage_post(
            datas,
            payer,
            data.subrange(0, 32),
            data.subrange(32, 64),
            data.subrange(64, 96),
            data.subrange(96, 128),
            data[128],
            r,
        )
    }
}

/// One whole invocation: decode and validate the payload, check that
/// each venue's pool address is derived from its program id, load and
/// bucket the accounts, and scan for an opportunity.
///
/// `payer_key` is the paying user's address; `account_datas` holds the
/// data of the candidate accounts, in the order the caller supplies
/// them, and positions named by a returned plan refer to that order.
pub fn process(
    instruction_data: &Vec<u8>,
    payer_key: &Address,
    account_datas: &Vec<Vec<u8>>,
) -> (r: Result<ArbitrageOutcome, ArbitrageProgramError>)
    ensures
        process_post(instruction_data@, payer_key@, account_datas@, r),
{
    let args = match ArbBotArgs::try_from_slice(instruction_data) {
        Ok(a) => a,
        Err(e) => { return Err(e) },
    };
    if args.temperature > 100 {
        return Err(ArbitrageProgramError::InvalidTemperature);
    }
    match check_pool_address(args.swap_1_program_id, args.swap_1_pool_address) {
        Ok(_) => (),
        Err(e) => { return Err(e) },
    }
    match check_pool_address(args.swap_2_program_id, args.swap_2_pool_address) {
        Ok(_) => (),
        Err(e) => { return Err(e) },
    }
    let loaded = match load_arbitrage_accounts(
        account_datas,
        payer_key,
        &args.swap_1_pool_address,
        &args.swap_2_pool_address,
    ) {
        Ok(t) => t,
        Err(e) => { return Err(e) },
    };
    let (token_accounts_user, token_accounts_swap_1, token_accounts_swap_2, mints) = loaded;
    let scan_args = TryArbitrageArgs {
        token_accounts_user,
        token_accounts_swap_1,
        token_accounts_swap_2,
        mints,
        swap_1_program_id: args.swap_1_program_id,
        swap_2_program_id: args.swap_2_program_id,
        temperature: args.temperature,
    };
    let ghost gargs = scan_args;
    let result = try_arbitrage(scan_args);
    proof {
        let datas = account_datas@;
        let payer = payer_key@;
        let p1_pool = args.swap_1_pool_address@;
        let p2_pool = args.swap_2_pool_address@;
        let stop = choose|stop: int|
            #[trigger] scan_prefix_ok(datas, payer, p1_pool, p2_pool, stop) && loaded_prefix(
                datas,
                payer,
                p1_pool,
                p2_pool,
                stop,
                gargs.token_accounts_user@,
                gargs.token_accounts_swap_1@,
                gargs.token_accounts_swap_2@,
                gargs.mints@,
            );
        assert(scan_prefix_ok(datas, payer, p1_pool, p2_pool, stop) && loaded_prefix(
            datas,
            payer,
            p1_pool,
            p2_pool,
            stop,
            gargs.token_accounts_user@,
            gargs.token_accounts_swap_1@,
            gargs.token_accounts_swap_2@,
            gargs.mints@,
        ));
    }
    result
}

} // verus!

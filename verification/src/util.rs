//! Account-data decoding, classification, and pool-address validation.
use vstd::prelude::*;
use vstd::bytes::{
    lemma_auto_spec_u64_to_from_le_bytes, spec_u64_from_le_bytes, spec_u64_to_le_bytes,
    u64_from_le_bytes, u64_to_le_bytes,
};
use vstd::slice::slice_subrange;
use crate::address::{address_eq, Address};
use crate::arb::{MintRecord, TokenAccountRecord};
use crate::error::ArbitrageProgramError;

verus! {

/// The leading fields of a token-account record, as laid out in its
/// 165-byte data: the mint at bytes 0..32, the owner at bytes 32..64,
/// the raw balance at bytes 64..72, little endian.
#[derive(Clone, Copy, Debug)]
pub struct PartialTokenAccountState {
    /// The mint of the asset held, bytes 0..32.
    pub mint: Address,
    /// The holder, bytes 32..64.
    pub owner: Address,
    /// The raw balance, bytes 64..72, little endian.
    pub amount: u64,
}

/// The leading fields of a mint record, as laid out in its 82-byte
/// data: a four-byte presence tag, the authority's address at bytes
/// 4..36, the supply at bytes 36..44, little endian. The decimal scale
/// follows at byte 44.
#[derive(Clone, Copy, Debug)]
pub struct PartialMintState {
    /// The mint authority, bytes 4..36.
    pub mint_authority: Address,
    /// The raw total supply, bytes 36..44, little endian.
    pub supply: u64,
}

/// The mint field of token-account data.
pub open spec fn token_mint_of(data: Seq<u8>) -> Seq<u8> {
    data.subrange(0, 32)
}

/// The owner field of token-account data.
pub open spec fn token_owner_of(data: Seq<u8>) -> Seq<u8> {
    data.subrange(32, 64)
}

/// The raw balance field of token-account data.
pub open spec fn token_amount_of(data: Seq<u8>) -> u64 {
    spec_u64_from_le_bytes(data.subrange(64, 72))
}

/// The authority field of mint data.
pub open spec fn mint_authority_of(data: Seq<u8>) -> Seq<u8> {
    data.subrange(4, 36)
}

/// The supply field of mint data.
pub open spec fn mint_supply_of(data: Seq<u8>) -> u64 {
    spec_u64_from_le_bytes(data.subrange(36, 44))
}

/// The decimal-scale byte of mint data.
pub open spec fn mint_decimals_of(data: Seq<u8>) -> u8 {
    data[44]
}

/// Copies 32 bytes out of `data` at `offset` into an address.
pub(crate) fn read_address(data: &Vec<u8>, offset: usize) -> (r: Address)
    requires
        offset + 32 <= data@.len(),
    ensures
        r@ == data@.subrange(offset as int, offset as int + 32),
{
    let mut bytes: [u8; 32] = [0u8; 32];
    let dlen = data.len();
    let mut k: usize = 0;
    while k < 32
        invariant
            k <= 32,
            offset + 32 <= dlen,
            dlen == data@.len(),
            forall|m: int| 0 <= m < k ==> bytes@[m] == data@[offset + m],
        decreases 32 - k,
    {
        bytes[k] = data[offset + k];
        k = k + 1;
    }
    proof {
        assert(bytes@ =~= data@.subrange(offset as int, offset as int + 32));
    }
    Address { bytes }
}

/// Reads the little-endian balance out of token-account data.
fn read_token_amount(data: &Vec<u8>) -> (r: u64)
    requires
        data@.len() >= 72,
    ensures
        r == token_amount_of(data@),
{
    u64_from_le_bytes(slice_subrange(data.as_slice(), 64, 72))
}

/// Decodes the leading token-account fields. The data of a token
/// account is exactly 165 bytes; any other length is not a token
/// account.
pub fn parse_token_account_state(data: &Vec<u8>) -> (r: Option<PartialTokenAccountState>)
    ensures
        r is Some <==> data@.len() == 165,
        r matches Some(s) ==> {
            &&& s.mint@ == token_mint_of(data@)
            &&& s.owner@ == token_owner_of(data@)
            &&& s.amount == token_amount_of(data@)
        },
{
    if data.len() != 165 {
        return None;
    }
    let mint = read_address(data, 0);
    let owner = read_address(data, 32);
    let amount = read_token_amount(data);
    Some(PartialTokenAccountState { mint, owner, amount })
}

/// Decodes the leading mint fields. The data of a mint is exactly 82
/// bytes; any other length is not a mint.
pub fn parse_mint_state(data: &Vec<u8>) -> (r: Option<PartialMintState>)
    ensures
        r is Some <==> data@.len() == 82,
        r matches Some(s) ==> {
            &&& s.mint_authority@ == mint_authority_of(data@)
            &&& s.supply == mint_supply_of(data@)
        },
{
    if data.len() != 82 {
        return None;
    }
    let mint_authority = read_address(data, 4);
    let supply = u64_from_le_bytes(slice_subrange(data.as_slice(), 36, 44));
    Some(PartialMintState { mint_authority, supply })
}

/// How one account's data classifies during loading.
pub enum AccountClass {
    /// A token account owned by the payer.
    User,
    /// A token account owned by the venue-1 pool.
    Venue1,
    /// A token account owned by the venue-2 pool.
    Venue2,
    /// A token account owned by none of the three.
    UnknownOwner,
    /// A mint record.
    Mint,
    /// Neither layout fits: the scan stops here.
    Unrecognized,
}

/// Classifies one account's data by its layout: 165 bytes is a token
/// account, bucketed by owner; 82 bytes is a mint; any other length
/// fits neither layout and ends the scan.
pub open spec fn classify(data: Seq<u8>, payer: Seq<u8>, pool1: Seq<u8>, pool2: Seq<u8>)
    -> AccountClass {
    if data.len() == 165 {
        if token_owner_of(data) == payer {
            AccountClass::User
        } else if token_owner_of(data) == pool1 {
            AccountClass::Venue1
        } else if token_owner_of(data) == pool2 {
            AccountClass::Venue2
        } else {
            AccountClass::UnknownOwner
        }
    } else if data.len() == 82 {
        AccountClass::Mint
    } else {
        AccountClass::Unrecognized
    }
}

/// The positions before `upto`, in order, whose data classifies as `c`.
pub open spec fn class_positions(
    datas: Seq<Vec<u8>>,
    payer: Seq<u8>,
    pool1: Seq<u8>,
    pool2: Seq<u8>,
    c: AccountClass,
    upto: int,
) -> Seq<int>
    decreases upto,
{
    if upto <= 0 {
        Seq::empty()
    } else {
        let pre = class_positions(datas, payer, pool1, pool2, c, upto - 1);
        if classify(datas[upto - 1]@, payer, pool1, pool2) == c {
            pre.push(upto - 1)
        } else {
            pre
        }
    }
}

/// `r` is the token-account record read from `data`, which sits at
/// position `k` of the loaded list.
pub open spec fn token_record_matches(r: TokenAccountRecord, data: Seq<u8>, k: int) -> bool {
    &&& r.account_index == k
    &&& r.mint@ == token_mint_of(data)
    &&& r.owner@ == token_owner_of(data)
    &&& r.amount == token_amount_of(data)
}

/// `r` is the mint record read from `data`, which sits at position `k`
/// of the loaded list.
pub open spec fn mint_record_matches(r: MintRecord, data: Seq<u8>, k: int) -> bool {
    &&& r.account_index == k
    &&& r.decimals == mint_decimals_of(data)
}

/// `recs` holds exactly the token-account records of the positions `ps`,
/// in order.
pub open spec fn token_records_at(
    recs: Seq<TokenAccountRecord>,
    datas: Seq<Vec<u8>>,
    ps: Seq<int>,
) -> bool {
    &&& recs.len() == ps.len()
    &&& forall|m: int| 0 <= m < ps.len() ==> token_record_matches(recs[m], datas[ps[m]]@, ps[m])
}

/// `recs` holds exactly the mint records of the positions `ps`, in
/// order.
pub open spec fn mint_records_at(recs: Seq<MintRecord>, datas: Seq<Vec<u8>>, ps: Seq<int>)
    -> bool {
    &&& recs.len() == ps.len()
    &&& forall|m: int| 0 <= m < ps.len() ==> mint_record_matches(recs[m], datas[ps[m]]@, ps[m])
}

/// The four collections hold exactly the classified records of the first
/// `upto` positions.
pub open spec fn loaded_prefix(
    datas: Seq<Vec<u8>>,
    payer: Seq<u8>,
    pool1: Seq<u8>,
    pool2: Seq<u8>,
    upto: int,
    user: Seq<TokenAccountRecord>,
    venue1: Seq<TokenAccountRecord>,
    venue2: Seq<TokenAccountRecord>,
    mints: Seq<MintRecord>,
) -> bool {
    &&& token_records_at(
        user,
        datas,
        class_positions(datas, payer, pool1, pool2, AccountClass::User, upto),
    )
    &&& token_records_at(
        venue1,
        datas,
        class_positions(datas, payer, pool1, pool2, AccountClass::Venue1, upto),
    )
    &&& token_records_at(
        venue2,
        datas,
        class_positions(datas, payer, pool1, pool2, AccountClass::Venue2, upto),
    )
    &&& mint_records_at(
        mints,
        datas,
        class_positions(datas, payer, pool1, pool2, AccountClass::Mint, upto),
    )
}

/// The scan consumed exactly the first `stop` positions: each of them
/// classified, none with an unknown owner, and the scan ended at the end
/// of the list or at the first unrecognized account.
pub open spec fn scan_prefix_ok(
    datas: Seq<Vec<u8>>,
    payer: Seq<u8>,
    pool1: Seq<u8>,
    pool2: Seq<u8>,
    stop: int,
) -> bool {
    &&& 0 <= stop <= datas.len()
    &&& stop == datas.len() || classify(datas[stop]@, payer, pool1, pool2)
        is Unrecognized
    &&& forall|m: int|
        0 <= m < stop ==> !(#[trigger] classify(datas[m]@, payer, pool1, pool2) is Unrecognized)
            && !(classify(datas[m]@, payer, pool1, pool2) is UnknownOwner)
}

/// Everything `load_arbitrage_accounts` promises of its result.
pub open spec fn load_arbitrage_accounts_post(
    datas: Seq<Vec<u8>>,
    payer: Seq<u8>,
    pool1: Seq<u8>,
    pool2: Seq<u8>,
    r: Result<
        (Vec<TokenAccountRecord>, Vec<TokenAccountRecord>, Vec<TokenAccountRecord>, Vec<MintRecord>),
        ArbitrageProgramError,
    >,
) -> bool {
    &&& (r matches Ok(t) ==> exists|stop: int|
        #[trigger] scan_prefix_ok(datas, payer, pool1, pool2, stop) && loaded_prefix(
            datas,
            payer,
            pool1,
            pool2,
            stop,
            t.0@,
            t.1@,
            t.2@,
            t.3@,
        ))
    &&& (r is Err ==> {
        &&& r == Err::<
            (Vec<TokenAccountRecord>, Vec<TokenAccountRecord>, Vec<TokenAccountRecord>, Vec<MintRecord>),
            ArbitrageProgramError,
        >(ArbitrageProgramError::TokenAccountOwnerNotFound)
        &&& exists|k: int|
            {
                &&& 0 <= k < datas.len()
                &&& #[trigger] classify(datas[k]@, payer, pool1, pool2) is UnknownOwner
                &&& forall|m: int|
                    0 <= m < k ==> !(#[trigger] classify(datas[m]@, payer, pool1, pool2)
                        is Unrecognized) && !(classify(datas[m]@, payer, pool1, pool2)
                        is UnknownOwner)
            }
    })
}

/// Reads each account's data in order and buckets it: token accounts by
/// owner into the user, venue-1 and venue-2 baskets, mints into the mint
/// list with their decimal byte. A token account owned by none of the
/// three holders is a fatal error; the first account that fits neither
/// layout ends the scan, and everything gathered so far is returned.
pub fn load_arbitrage_accounts(
    account_datas: &Vec<Vec<u8>>,
    payer: &Address,
    swap_1_pool: &Address,
    swap_2_pool: &Address,
) -> (r: Result<
    (Vec<TokenAccountRecord>, Vec<TokenAccountRecord>, Vec<TokenAccountRecord>, Vec<MintRecord>),
    ArbitrageProgramError,
>)
    ensures
        load_arbitrage_accounts_post(account_datas@, payer@, swap_1_pool@, swap_2_pool@, r),
{
    let ghost datas = account_datas@;
    let mut token_accounts_user: Vec<TokenAccountRecord> = Vec::new();
    let mut token_accounts_swap_1: Vec<TokenAccountRecord> = Vec::new();
    let mut token_accounts_swap_2: Vec<TokenAccountRecord> = Vec::new();
    let mut mints: Vec<MintRecord> = Vec::new();
    let n = account_datas.len();
    let mut k: usize = 0;
    while k < n
        invariant
            k <= n,
            n == datas.len(),
            datas == account_datas@,
            forall|m: int|
                0 <= m < k ==> !(#[trigger] classify(datas[m]@, payer@, swap_1_pool@, swap_2_pool@)
                    is Unrecognized) && !(classify(datas[m]@, payer@, swap_1_pool@, swap_2_pool@)
                    is UnknownOwner),
            loaded_prefix(
                datas,
                payer@,
                swap_1_pool@,
                swap_2_pool@,
                k as int,
                token_accounts_user@,
                token_accounts_swap_1@,
                token_accounts_swap_2@,
                mints@,
            ),
        decreases n - k,
    {
        let data = &account_datas[k];
        match parse_token_account_state(data) {
            Some(state) => {
                let record = TokenAccountRecord {
                    account_index: k,
                    mint: state.mint,
                    owner: state.owner,
                    amount: state.amount,
                };
                if address_eq(&state.owner, payer) {
                    token_accounts_user.push(record);
                } else if address_eq(&state.owner, swap_1_pool) {
                    token_accounts_swap_1.push(record);
                } else if address_eq(&state.owner, swap_2_pool) {
                    token_accounts_swap_2.push(record);
                } else {
                    return Err(ArbitrageProgramError::TokenAccountOwnerNotFound);
                }
            },
            None => {
                if data.len() == 82 {
                    let decimals = data[44];
                    mints.push(MintRecord { account_index: k, decimals });
                } else {
                    proof {
                        assert(scan_prefix_ok(datas, payer@, swap_1_pool@, swap_2_pool@, k as int));
                    }
                    return Ok(
                        (token_accounts_user, token_accounts_swap_1, token_accounts_swap_2, mints),
                    );
                }
            },
        }
        k = k + 1;
    }
    proof {
        assert(scan_prefix_ok(datas, payer@, swap_1_pool@, swap_2_pool@, n as int));
    }
    Ok((token_accounts_user, token_accounts_swap_1, token_accounts_swap_2, mints))
}

/// Encodes the amount argument of an outbound leg: eight bytes, little
/// endian, the same encoding the inbound payload uses for integers.
pub fn serialize_amount(amount: u64) -> (r: Vec<u8>)
    ensures
        r@ == spec_u64_to_le_bytes(amount),
        r@.len() == 8,
{
    proof {
        lemma_auto_spec_u64_to_from_le_bytes();
    }
    u64_to_le_bytes(amount)
}

/// The pool address that venue programs derive for their liquidity pool,
/// and whether one exists, as a pure function of the program id. The
/// derivation itself (an iterated SHA-256 search) is carried out by the
/// trusted call below.
pub uninterp spec fn pool_pda(program_id: Seq<u8>) -> Option<Seq<u8>>;

/// Relies on `Pubkey::try_find_program_address` of solana-program with
/// the fixed seed `b"liquidity_pool"`: off chain it derives the pool
/// address by a deterministic, iterated SHA-256 search over the seed and
/// the program id alone, returning `None` only when no bump seed yields
/// a valid address.
#[verifier::external_body]
fn derive_pool_address(program_id: &Address) -> (r: Option<Address>)
    ensures
        match r {
            Some(a) => pool_pda(program_id@) == Some(a@),
            None => pool_pda(program_id@) is None,
        },
{
    let key = solana_program::pubkey::Pubkey::new_from_array(program_id.bytes);
    let derived = solana_program::pubkey::Pubkey::try_find_program_address(
        &[b"liquidity_pool"],
        &key,
    );
    derived.map(|(address, _bump)| Address { bytes: address.to_bytes() })
}

/// Asserts the pool address provided is in fact derived from the program
/// ID provided.
pub fn check_pool_address(program_id: Address, pool: Address) -> (r: Result<
    (),
    ArbitrageProgramError,
>)
    ensures
        r is Ok <==> pool_pda(program_id@) == Some(pool@),
        r is Err ==> r == Err::<(), ArbitrageProgramError>(
            ArbitrageProgramError::InvalidPoolAddress,
        ),
{
    match derive_pool_address(&program_id) {
        Some(derived) => {
            if address_eq(&derived, &pool) {
                Ok(())
            } else {
                Err(ArbitrageProgramError::InvalidPoolAddress)
            }
        },
        None => Err(ArbitrageProgramError::InvalidPoolAddress),
    }
}

} // verus!

//! The options-market record and its fixed 249-byte layout.

use vstd::prelude::*;

use crate::le_bytes::{
    i64_from_le, i64_le_bytes, lemma_i64_le_round_trip, lemma_u64_le_round_trip, u64_from_le,
    u64_le_bytes,
};

verus! {

/// Width of an identity key (a 32-byte public key).
pub const PUBLIC_KEY_LEN: usize = 32;

/// Width of each 64-bit integer field.
pub const U64_LEN: usize = 8;

// The field table: the byte offset of each field in the encoded record, the
// running sum of the widths of the fields before it.
pub const OPTION_MINT_OFFSET: usize = 0;
pub const WRITER_TOKEN_MINT_OFFSET: usize = OPTION_MINT_OFFSET + PUBLIC_KEY_LEN;
pub const UNDERLYING_ASSET_MINT_OFFSET: usize = WRITER_TOKEN_MINT_OFFSET + PUBLIC_KEY_LEN;
pub const QUOTE_ASSET_MINT_OFFSET: usize = UNDERLYING_ASSET_MINT_OFFSET + PUBLIC_KEY_LEN;
pub const UNDERLYING_AMOUNT_OFFSET: usize = QUOTE_ASSET_MINT_OFFSET + PUBLIC_KEY_LEN;
pub const QUOTE_AMOUNT_OFFSET: usize = UNDERLYING_AMOUNT_OFFSET + U64_LEN;
pub const EXPIRATION_OFFSET: usize = QUOTE_AMOUNT_OFFSET + U64_LEN;
pub const UNDERLYING_ASSET_POOL_OFFSET: usize = EXPIRATION_OFFSET + U64_LEN;
pub const QUOTE_ASSET_POOL_OFFSET: usize = UNDERLYING_ASSET_POOL_OFFSET + PUBLIC_KEY_LEN;
pub const MINT_FEE_ACCOUNT_OFFSET: usize = QUOTE_ASSET_POOL_OFFSET + PUBLIC_KEY_LEN;
pub const BUMP_SEED_OFFSET: usize = MINT_FEE_ACCOUNT_OFFSET + PUBLIC_KEY_LEN;

/// Total width of an encoded record.
pub const OPTION_MARKET_LEN: usize = BUMP_SEED_OFFSET + 1;

/// All the information needed to maintain an open option market.
///
/// Identity keys are held as their 32 raw bytes.
#[derive(Clone, Copy, Debug, PartialEq, Eq)]
pub struct OptionMarket {
    /// Mint of the tokens that denote an option.
    pub option_mint: [u8; 32],
    /// Mint of the writer tokens that denote a written option.
    pub writer_token_mint: [u8; 32],
    /// Mint of the asset held in the pool when an option is written.
    pub underlying_asset_mint: [u8; 32],
    /// Mint of the asset that denominates the strike price.
    pub quote_asset_mint: [u8; 32],
    /// Amount of the underlying asset behind a single option.
    pub underlying_amount_per_contract: u64,
    /// Amount of the quote asset transferred when an option is exercised.
    pub quote_amount_per_contract: u64,
    /// Unix timestamp at which the contracts of this market expire.
    pub expiration_unix_timestamp: i64,
    /// Pool that holds the underlying asset.
    pub underlying_asset_pool: [u8; 32],
    /// Pool that holds the quote asset once options are exercised.
    pub quote_asset_pool: [u8; 32],
    /// Account that collects fees on mint.
    pub mint_fee_account: [u8; 32],
    /// Seed from which the record's own address is derived.
    pub bump_seed: u8,
}

/// Why a record could not be read.
#[derive(Clone, Copy, Debug, PartialEq, Eq, Structural)]
pub enum MarketError {
    /// The buffer is not exactly one encoded record long.
    MalformedInput,
    /// The storage slot is not owned by the expected program.
    UnauthorizedOwner,
}

/// The encoded record: every field at its offset, packed with no padding.
pub open spec fn encode_spec(m: OptionMarket) -> Seq<u8> {
    m.option_mint@ + m.writer_token_mint@ + m.underlying_asset_mint@ + m.quote_asset_mint@
        + u64_le_bytes(m.underlying_amount_per_contract) + u64_le_bytes(
        m.quote_amount_per_contract,
    ) + i64_le_bytes(m.expiration_unix_timestamp) + m.underlying_asset_pool@
        + m.quote_asset_pool@ + m.mint_fee_account@ + seq![m.bump_seed]
}

/// The bytes of the key field that starts at `off`.
pub open spec fn key_at(b: Seq<u8>, off: usize) -> Seq<u8> {
    b.subrange(off as int, off + PUBLIC_KEY_LEN)
}

/// The bytes of the integer field that starts at `off`.
pub open spec fn int_at(b: Seq<u8>, off: usize) -> Seq<u8> {
    b.subrange(off as int, off + U64_LEN)
}

/// `m` is what the encoded record `b` holds, each field read at its offset.
pub open spec fn decodes_to(b: Seq<u8>, m: OptionMarket) -> bool {
    &&& b.len() == OPTION_MARKET_LEN
    &&& m.option_mint@ == key_at(b, OPTION_MINT_OFFSET)
    &&& m.writer_token_mint@ == key_at(b, WRITER_TOKEN_MINT_OFFSET)
    &&& m.underlying_asset_mint@ == key_at(b, UNDERLYING_ASSET_MINT_OFFSET)
    &&& m.quote_asset_mint@ == key_at(b, QUOTE_ASSET_MINT_OFFSET)
    &&& m.underlying_amount_per_contract == u64_from_le(int_at(b, UNDERLYING_AMOUNT_OFFSET))
    &&& m.quote_amount_per_contract == u64_from_le(int_at(b, QUOTE_AMOUNT_OFFSET))
    &&& m.expiration_unix_timestamp == i64_from_le(int_at(b, EXPIRATION_OFFSET))
    &&& m.underlying_asset_pool@ == key_at(b, UNDERLYING_ASSET_POOL_OFFSET)
    &&& m.quote_asset_pool@ == key_at(b, QUOTE_ASSET_POOL_OFFSET)
    &&& m.mint_fee_account@ == key_at(b, MINT_FEE_ACCOUNT_OFFSET)
    &&& m.bump_seed == b[BUMP_SEED_OFFSET as int]
}

/// Every field of the encoded record lies at its offset in the layout, with its
/// own encoding.
pub proof fn lemma_field_offsets(m: OptionMarket)
    ensures
        encode_spec(m).len() == OPTION_MARKET_LEN,
        key_at(encode_spec(m), OPTION_MINT_OFFSET) == m.option_mint@,
        key_at(encode_spec(m), WRITER_TOKEN_MINT_OFFSET) == m.writer_token_mint@,
        key_at(encode_spec(m), UNDERLYING_ASSET_MINT_OFFSET) == m.underlying_asset_mint@,
        key_at(encode_spec(m), QUOTE_ASSET_MINT_OFFSET) == m.quote_asset_mint@,
        int_at(encode_spec(m), UNDERLYING_AMOUNT_OFFSET) == u64_le_bytes(
            m.underlying_amount_per_contract,
        ),
        int_at(encode_spec(m), QUOTE_AMOUNT_OFFSET) == u64_le_bytes(m.quote_amount_per_contract),
        int_at(encode_spec(m), EXPIRATION_OFFSET) == i64_le_bytes(m.expiration_unix_timestamp),
        key_at(encode_spec(m), UNDERLYING_ASSET_POOL_OFFSET) == m.underlying_asset_pool@,
        key_at(encode_spec(m), QUOTE_ASSET_POOL_OFFSET) == m.quote_asset_pool@,
        key_at(encode_spec(m), MINT_FEE_ACCOUNT_OFFSET) == m.mint_fee_account@,
        encode_spec(m)[BUMP_SEED_OFFSET as int] == m.bump_seed,
{
    let b = encode_spec(m);
    lemma_u64_le_round_trip(m.underlying_amount_per_contract);
    lemma_u64_le_round_trip(m.quote_amount_per_contract);
    lemma_i64_le_round_trip(m.expiration_unix_timestamp);
    assert(key_at(b, OPTION_MINT_OFFSET) =~= m.option_mint@);
    assert(key_at(b, WRITER_TOKEN_MINT_OFFSET) =~= m.writer_token_mint@);
    assert(key_at(b, UNDERLYING_ASSET_MINT_OFFSET) =~= m.underlying_asset_mint@);
    assert(key_at(b, QUOTE_ASSET_MINT_OFFSET) =~= m.quote_asset_mint@);
    assert(int_at(b, UNDERLYING_AMOUNT_OFFSET) =~= u64_le_bytes(m.underlying_amount_per_contract));
    assert(int_at(b, QUOTE_AMOUNT_OFFSET) =~= u64_le_bytes(m.quote_amount_per_contract));
    assert(int_at(b, EXPIRATION_OFFSET) =~= i64_le_bytes(m.expiration_unix_timestamp));
    assert(key_at(b, UNDERLYING_ASSET_POOL_OFFSET) =~= m.underlying_asset_pool@);
    assert(key_at(b, QUOTE_ASSET_POOL_OFFSET) =~= m.quote_asset_pool@);
    assert(key_at(b, MINT_FEE_ACCOUNT_OFFSET) =~= m.mint_fee_account@);
}

/// Round trip: the encoded form of a record decodes to that record, and to no
/// other.
pub proof fn lemma_round_trip(r: OptionMarket)
    ensures
        decodes_to(encode_spec(r), r),
        forall|d: OptionMarket| #[trigger] decodes_to(encode_spec(r), d) ==> d == r,
{
    lemma_field_offsets(r);
    lemma_u64_le_round_trip(r.underlying_amount_per_contract);
    lemma_u64_le_round_trip(r.quote_amount_per_contract);
    lemma_i64_le_round_trip(r.expiration_unix_timestamp);
    assert forall|d: OptionMarket| #[trigger] decodes_to(encode_spec(r), d) implies d == r by {
        assert(d.option_mint =~= r.option_mint);
        assert(d.writer_token_mint =~= r.writer_token_mint);
        assert(d.underlying_asset_mint =~= r.underlying_asset_mint);
        assert(d.quote_asset_mint =~= r.quote_asset_mint);
        assert(d.underlying_asset_pool =~= r.underlying_asset_pool);
        assert(d.quote_asset_pool =~= r.quote_asset_pool);
        assert(d.mint_fee_account =~= r.mint_fee_account);
    }
}

/// Appends the raw bytes of an identity key.
fn push_key(out: &mut Vec<u8>, key: &[u8; 32])
    ensures
        final(out)@ == old(out)@ + key@,
{
    let ghost start = out@;
    let mut i: usize = 0;
    while i < PUBLIC_KEY_LEN
        invariant
            i <= PUBLIC_KEY_LEN,
            out@ == start + key@.subrange(0, i as int),
        decreases PUBLIC_KEY_LEN - i,
    {
        out.push(key[i]);
        proof {
            assert(key@.subrange(0, i + 1) =~= key@.subrange(0, i as int).push(key@[i as int]));
        }
        i = i + 1;
    }
    assert(key@.subrange(0, PUBLIC_KEY_LEN as int) =~= key@);
}

/// Appends the eight little-endian bytes of `v`.
fn push_u64(out: &mut Vec<u8>, v: u64)
    ensures
        final(out)@ == old(out)@ + u64_le_bytes(v),
{
    let ghost start = out@;
    out.push((v & 0xff) as u8);
    out.push(((v >> 8u64) & 0xff) as u8);
    out.push(((v >> 16u64) & 0xff) as u8);
    out.push(((v >> 24u64) & 0xff) as u8);
    out.push(((v >> 32u64) & 0xff) as u8);
    out.push(((v >> 40u64) & 0xff) as u8);
    out.push(((v >> 48u64) & 0xff) as u8);
    out.push(((v >> 56u64) & 0xff) as u8);
    assert(out@ =~= start + u64_le_bytes(v));
}

/// Reads the identity key that starts at `off`.
fn read_key(src: &[u8], off: usize) -> (r: [u8; 32])
    requires
        off + PUBLIC_KEY_LEN <= src@.len(),
    ensures
        r@ == key_at(src@, off),
{
    let n: usize = src.len();
    let mut k: [u8; 32] = [0u8; 32];
    let mut i: usize = 0;
    while i < PUBLIC_KEY_LEN
        invariant
            i <= PUBLIC_KEY_LEN,
            off + PUBLIC_KEY_LEN <= n == src@.len(),
            forall|j: int| 0 <= j < i ==> k@[j] == src@[off + j],
        decreases PUBLIC_KEY_LEN - i,
    {
        k[i] = src[off + i];
        i = i + 1;
    }
    assert(k@ =~= key_at(src@, off));
    k
}

/// Reads the little-endian unsigned integer that starts at `off`.
fn read_u64(src: &[u8], off: usize) -> (r: u64)
    requires
        off + U64_LEN <= src@.len(),
    ensures
        r == u64_from_le(int_at(src@, off)),
{
    let ghost b = int_at(src@, off);
    assert(b[0] == src@[off as int] && b[1] == src@[off + 1] && b[2] == src@[off + 2] && b[3]
        == src@[off + 3] && b[4] == src@[off + 4] && b[5] == src@[off + 5] && b[6] == src@[off
        + 6] && b[7] == src@[off + 7]);
    (src[off] as u64) | ((src[off + 1] as u64) << 8u64) | ((src[off + 2] as u64) << 16u64) | ((
    src[off + 3] as u64) << 24u64) | ((src[off + 4] as u64) << 32u64) | ((src[off + 5] as u64)
        << 40u64) | ((src[off + 6] as u64) << 48u64) | ((src[off + 7] as u64) << 56u64)
}

/// Whether two identity keys hold the same bytes.
fn keys_equal(a: &[u8; 32], b: &[u8; 32]) -> (r: bool)
    ensures
        r == (a@ == b@),
{
    let mut i: usize = 0;
    while i < PUBLIC_KEY_LEN
        invariant
            i <= PUBLIC_KEY_LEN,
            forall|j: int| 0 <= j < i ==> a@[j] == b@[j],
        decreases PUBLIC_KEY_LEN - i,
    {
        if a[i] != b[i] {
            return false;
        }
        i = i + 1;
    }
    assert(a@ =~= b@);
    true
}

impl OptionMarket {
    /// Total width of an encoded record.
    pub const LEN: usize = OPTION_MARKET_LEN;

    /// Encodes the record into a newly allocated buffer.
    pub fn encode(&self) -> (r: Vec<u8>)
        ensures
            r@ == encode_spec(*self),
            r@.len() == OPTION_MARKET_LEN,
    {
        proof {
            lemma_field_offsets(*self);
        }
        let mut out: Vec<u8> = Vec::new();
        push_key(&mut out, &self.option_mint);
        push_key(&mut out, &self.writer_token_mint);
        push_key(&mut out, &self.underlying_asset_mint);
        push_key(&mut out, &self.quote_asset_mint);
        push_u64(&mut out, self.underlying_amount_per_contract);
        push_u64(&mut out, self.quote_amount_per_contract);
        push_u64(&mut out, self.expiration_unix_timestamp as u64);
        push_key(&mut out, &self.underlying_asset_pool);
        push_key(&mut out, &self.quote_asset_pool);
        push_key(&mut out, &self.mint_fee_account);
        out.push(self.bump_seed);
        out
    }

    /// Writes the encoded record over `dst`, which is exactly one record long.
    pub fn pack_into_slice(&self, dst: &mut [u8])
        requires
            old(dst)@.len() == OPTION_MARKET_LEN,
        ensures
            final(dst)@ == encode_spec(*self),
    {
        let enc = self.encode();
        let mut i: usize = 0;
        while i < OPTION_MARKET_LEN
            invariant
                i <= OPTION_MARKET_LEN,
                dst@.len() == OPTION_MARKET_LEN,
                enc@ == encode_spec(*self),
                enc@.len() == OPTION_MARKET_LEN,
                forall|j: int| 0 <= j < i ==> dst@[j] == enc@[j],
            decreases OPTION_MARKET_LEN - i,
        {
            dst[i] = enc[i];
            i = i + 1;
        }
        assert(dst@ =~= enc@);
    }

    /// Writes the encoded record over `dst`, or fails with `MalformedInput`,
    /// leaving `dst` as it was, when `dst` is not exactly one record long.
    pub fn pack(src: OptionMarket, dst: &mut [u8]) -> (r: Result<(), MarketError>)
        ensures
            old(dst)@.len() == OPTION_MARKET_LEN ==> r == Ok::<(), MarketError>(())
                && final(dst)@ == encode_spec(src),
            old(dst)@.len() != OPTION_MARKET_LEN ==> r == Err::<(), MarketError>(
                MarketError::MalformedInput,
            ) && final(dst)@ == old(dst)@,
    {
        if dst.len() != OPTION_MARKET_LEN {
            return Err(MarketError::MalformedInput);
        }
        src.pack_into_slice(dst);
        Ok(())
    }

    /// Reads the record out of `src`, which is exactly one record long.
    pub fn unpack_from_slice(src: &[u8]) -> (r: OptionMarket)
        requires
            src@.len() == OPTION_MARKET_LEN,
        ensures
            decodes_to(src@, r),
    {
        OptionMarket {
            option_mint: read_key(src, OPTION_MINT_OFFSET),
            writer_token_mint: read_key(src, WRITER_TOKEN_MINT_OFFSET),
            underlying_asset_mint: read_key(src, UNDERLYING_ASSET_MINT_OFFSET),
            quote_asset_mint: read_key(src, QUOTE_ASSET_MINT_OFFSET),
            underlying_amount_per_contract: read_u64(src, UNDERLYING_AMOUNT_OFFSET),
            quote_amount_per_contract: read_u64(src, QUOTE_AMOUNT_OFFSET),
            expiration_unix_timestamp: read_u64(src, EXPIRATION_OFFSET) as i64,
            underlying_asset_pool: read_key(src, UNDERLYING_ASSET_POOL_OFFSET),
            quote_asset_pool: read_key(src, QUOTE_ASSET_POOL_OFFSET),
            mint_fee_account: read_key(src, MINT_FEE_ACCOUNT_OFFSET),
            bump_seed: src[BUMP_SEED_OFFSET],
        }
    }

    /// Decodes a record: fails with `MalformedInput` exactly when `src` is not
    /// one record long, and otherwise reads every field at its offset.
    pub fn unpack(src: &[u8]) -> (r: Result<OptionMarket, MarketError>)
        ensures
            src@.len() != OPTION_MARKET_LEN <==> r == Err::<OptionMarket, MarketError>(
                MarketError::MalformedInput,
            ),
            r is Ok <==> src@.len() == OPTION_MARKET_LEN,
            r is Ok ==> decodes_to(src@, r->Ok_0),
    {
        if src.len() != OPTION_MARKET_LEN {
            return Err(MarketError::MalformedInput);
        }
        Ok(OptionMarket::unpack_from_slice(src))
    }

    /// Decodes the record held in a storage slot, given the slot's owner and
    /// contents. The owner is checked first: a slot not owned by `program_id`
    /// fails with `UnauthorizedOwner` whatever it holds; otherwise the
    /// contents are decoded as by `unpack`.
    pub fn from_account_info(
        owner: &[u8; 32],
        data: &[u8],
        program_id: &[u8; 32],
    ) -> (r: Result<OptionMarket, MarketError>)
        ensures
            owner@ != program_id@ ==> r == Err::<OptionMarket, MarketError>(
                MarketError::UnauthorizedOwner,
            ),
            owner@ == program_id@ && data@.len() != OPTION_MARKET_LEN ==> r == Err::<
                OptionMarket,
                MarketError,
            >(MarketError::MalformedInput),
            r is Ok <==> owner@ == program_id@ && data@.len() == OPTION_MARKET_LEN,
            r is Ok ==> decodes_to(data@, r->Ok_0),
    {
        if !keys_equal(owner, program_id) {
            return Err(MarketError::UnauthorizedOwner);
        }
        OptionMarket::unpack(data)
    }
}

} // verus!

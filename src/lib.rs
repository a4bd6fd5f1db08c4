//! Fixed-layout binary codec for the persisted record of an options market.
//!
//! A record encodes to exactly `OptionMarket::LEN` bytes, its fields packed in
//! a fixed order with no padding: identity keys as their 32 raw bytes, 64-bit
//! integers little-endian, and the bump seed as one byte.

mod le_bytes;
mod market;

pub use le_bytes::{
    i64_from_le, i64_le_bytes, lemma_i64_le_round_trip, lemma_u64_le_round_trip, u64_from_le,
    u64_le_bytes,
};
pub use market::{
    decodes_to, encode_spec, int_at, key_at, lemma_field_offsets, lemma_round_trip, MarketError,
    OptionMarket, BUMP_SEED_OFFSET, EXPIRATION_OFFSET, MINT_FEE_ACCOUNT_OFFSET,
    OPTION_MARKET_LEN, OPTION_MINT_OFFSET, PUBLIC_KEY_LEN, QUOTE_AMOUNT_OFFSET,
    QUOTE_ASSET_MINT_OFFSET, QUOTE_ASSET_POOL_OFFSET, U64_LEN, UNDERLYING_AMOUNT_OFFSET,
    UNDERLYING_ASSET_MINT_OFFSET, UNDERLYING_ASSET_POOL_OFFSET, WRITER_TOKEN_MINT_OFFSET,
};

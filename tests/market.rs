use option_market::{
    MarketError, OptionMarket, BUMP_SEED_OFFSET, EXPIRATION_OFFSET, MINT_FEE_ACCOUNT_OFFSET,
    OPTION_MARKET_LEN, OPTION_MINT_OFFSET, PUBLIC_KEY_LEN, QUOTE_AMOUNT_OFFSET,
    QUOTE_ASSET_MINT_OFFSET, QUOTE_ASSET_POOL_OFFSET, U64_LEN, UNDERLYING_AMOUNT_OFFSET,
    UNDERLYING_ASSET_MINT_OFFSET, UNDERLYING_ASSET_POOL_OFFSET, WRITER_TOKEN_MINT_OFFSET,
};

/// A key that differs from every other `n`, with no zero byte.
fn unique_key(n: u8) -> [u8; 32] {
    let mut k = [0u8; 32];
    for (i, b) in k.iter_mut().enumerate() {
        *b = n.wrapping_mul(31).wrapping_add(i as u8) | 1;
    }
    k[0] = n;
    k
}

fn sample_market() -> OptionMarket {
    OptionMarket {
        option_mint: unique_key(1),
        writer_token_mint: unique_key(2),
        underlying_asset_mint: unique_key(3),
        quote_asset_mint: unique_key(4),
        underlying_amount_per_contract: 100,
        quote_amount_per_contract: 5,
        expiration_unix_timestamp: 1607743435,
        underlying_asset_pool: unique_key(5),
        quote_asset_pool: unique_key(6),
        mint_fee_account: unique_key(7),
        bump_seed: 1,
    }
}

fn field(buf: &[u8], off: usize, width: usize) -> &[u8] {
    &buf[off..off + width]
}

#[test]
fn test_pack_unpck_option_market() {
    let bump_seed: u8 = 1;
    let option_mint = unique_key(11);
    let writer_token_mint = unique_key(12);
    let underlying_asset_mint = unique_key(13);
    let quote_asset_mint = unique_key(14);
    let underlying_amount_per_contract: u64 = 100;
    let quote_amount_per_contract: u64 = 5;
    let expiration_unix_timestamp: i64 = 1607743435;
    let underlying_asset_pool = unique_key(15);
    let quote_asset_pool = unique_key(16);
    let mint_fee_account = unique_key(17);

    let option_market = OptionMarket {
        option_mint,
        writer_token_mint,
        underlying_asset_mint,
        quote_asset_mint,
        underlying_amount_per_contract,
        quote_amount_per_contract,
        expiration_unix_timestamp,
        underlying_asset_pool,
        quote_asset_pool,
        mint_fee_account,
        bump_seed,
    };
    let cloned_option_market = option_market.clone();

    let mut serialized_option_market = [0 as u8; OptionMarket::LEN];
    OptionMarket::pack(option_market, &mut serialized_option_market).unwrap();
    let s = &serialized_option_market;
    let k = PUBLIC_KEY_LEN;
    assert_eq!(field(s, OPTION_MINT_OFFSET, k), &option_mint);
    assert_eq!(field(s, WRITER_TOKEN_MINT_OFFSET, k), &writer_token_mint);
    assert_eq!(field(s, UNDERLYING_ASSET_MINT_OFFSET, k), &underlying_asset_mint);
    assert_eq!(field(s, QUOTE_ASSET_MINT_OFFSET, k), &quote_asset_mint);
    assert_eq!(field(s, MINT_FEE_ACCOUNT_OFFSET, k), &mint_fee_account);
    assert_eq!(
        field(s, UNDERLYING_AMOUNT_OFFSET, U64_LEN),
        &underlying_amount_per_contract.to_le_bytes()
    );
    assert_eq!(
        field(s, QUOTE_AMOUNT_OFFSET, U64_LEN),
        &quote_amount_per_contract.to_le_bytes()
    );
    assert_eq!(
        field(s, EXPIRATION_OFFSET, U64_LEN),
        &expiration_unix_timestamp.to_le_bytes()
    );
    assert_eq!(field(s, UNDERLYING_ASSET_POOL_OFFSET, k), &underlying_asset_pool);
    assert_eq!(field(s, QUOTE_ASSET_POOL_OFFSET, k), &quote_asset_pool);

    let deserialized_options_market: OptionMarket =
        OptionMarket::unpack(&serialized_option_market).unwrap();

    assert_eq!(deserialized_options_market, cloned_option_market);
    assert_eq!(field(s, BUMP_SEED_OFFSET, 1), &bump_seed.to_le_bytes());
}

#[test]
fn layout_table_matches_field_widths() {
    assert_eq!(OPTION_MARKET_LEN, 249);
    assert_eq!(OptionMarket::LEN, 249);
    assert_eq!(OPTION_MINT_OFFSET, 0);
    assert_eq!(WRITER_TOKEN_MINT_OFFSET, 32);
    assert_eq!(UNDERLYING_ASSET_MINT_OFFSET, 64);
    assert_eq!(QUOTE_ASSET_MINT_OFFSET, 96);
    assert_eq!(UNDERLYING_AMOUNT_OFFSET, 128);
    assert_eq!(QUOTE_AMOUNT_OFFSET, 136);
    assert_eq!(EXPIRATION_OFFSET, 144);
    assert_eq!(UNDERLYING_ASSET_POOL_OFFSET, 152);
    assert_eq!(QUOTE_ASSET_POOL_OFFSET, 184);
    assert_eq!(MINT_FEE_ACCOUNT_OFFSET, 216);
    assert_eq!(BUMP_SEED_OFFSET, 248);
}

#[test]
fn encode_is_always_full_width() {
    let zero = OptionMarket {
        option_mint: [0; 32],
        writer_token_mint: [0; 32],
        underlying_asset_mint: [0; 32],
        quote_asset_mint: [0; 32],
        underlying_amount_per_contract: 0,
        quote_amount_per_contract: 0,
        expiration_unix_timestamp: 0,
        underlying_asset_pool: [0; 32],
        quote_asset_pool: [0; 32],
        mint_fee_account: [0; 32],
        bump_seed: 0,
    };
    assert_eq!(zero.encode().len(), 249);
    assert_eq!(zero.encode(), vec![0u8; 249]);
    assert_eq!(sample_market().encode().len(), 249);
}

#[test]
fn each_field_sits_at_its_offset() {
    let m = sample_market();
    let b = m.encode();
    assert_eq!(field(&b, 0, 32), &m.option_mint);
    assert_eq!(field(&b, 32, 32), &m.writer_token_mint);
    assert_eq!(field(&b, 64, 32), &m.underlying_asset_mint);
    assert_eq!(field(&b, 96, 32), &m.quote_asset_mint);
    assert_eq!(field(&b, 128, 8), &[100, 0, 0, 0, 0, 0, 0, 0]);
    assert_eq!(field(&b, 136, 8), &[5, 0, 0, 0, 0, 0, 0, 0]);
    assert_eq!(field(&b, 144, 8), &[203, 55, 212, 95, 0, 0, 0, 0]);
    assert_eq!(field(&b, 152, 32), &m.underlying_asset_pool);
    assert_eq!(field(&b, 184, 32), &m.quote_asset_pool);
    assert_eq!(field(&b, 216, 32), &m.mint_fee_account);
    assert_eq!(b[248], 1);
}

#[test]
fn concrete_record_encodes_and_decodes() {
    let m = sample_market();
    let b = m.encode();
    assert_eq!(b.len(), 249);
    assert_eq!(field(&b, UNDERLYING_AMOUNT_OFFSET, 8), &100u64.to_le_bytes());
    assert_eq!(field(&b, QUOTE_AMOUNT_OFFSET, 8), &5u64.to_le_bytes());
    assert_eq!(field(&b, EXPIRATION_OFFSET, 8), &1607743435i64.to_le_bytes());
    assert_eq!(b[BUMP_SEED_OFFSET], 1);
    assert_eq!(OptionMarket::unpack(&b), Ok(m));
}

#[test]
fn negative_timestamp_is_twos_complement() {
    let mut m = sample_market();
    m.expiration_unix_timestamp = -2;
    let b = m.encode();
    assert_eq!(field(&b, 144, 8), &[254, 255, 255, 255, 255, 255, 255, 255]);
    assert_eq!(OptionMarket::unpack(&b).unwrap().expiration_unix_timestamp, -2);
}

#[test]
fn round_trip_at_boundary_values() {
    let low = OptionMarket {
        option_mint: [0; 32],
        writer_token_mint: [0; 32],
        underlying_asset_mint: [0; 32],
        quote_asset_mint: [0; 32],
        underlying_amount_per_contract: 0,
        quote_amount_per_contract: 0,
        expiration_unix_timestamp: i64::MIN,
        underlying_asset_pool: [0; 32],
        quote_asset_pool: [0; 32],
        mint_fee_account: [0; 32],
        bump_seed: 0,
    };
    let high = OptionMarket {
        option_mint: [255; 32],
        writer_token_mint: [255; 32],
        underlying_asset_mint: [255; 32],
        quote_asset_mint: [255; 32],
        underlying_amount_per_contract: 18446744073709551615,
        quote_amount_per_contract: u64::MAX,
        expiration_unix_timestamp: i64::MAX,
        underlying_asset_pool: [255; 32],
        quote_asset_pool: [255; 32],
        mint_fee_account: [255; 32],
        bump_seed: 255,
    };
    for m in [low, high, sample_market()] {
        assert_eq!(OptionMarket::unpack(&m.encode()), Ok(m));
    }
    let b = high.encode();
    assert_eq!(field(&b, 144, 8), &[255, 255, 255, 255, 255, 255, 255, 127]);
    let b = low.encode();
    assert_eq!(field(&b, 144, 8), &[0, 0, 0, 0, 0, 0, 0, 128]);
}

#[test]
fn wrong_lengths_are_malformed() {
    let b = sample_market().encode();
    assert_eq!(OptionMarket::unpack(&b[..248]), Err(MarketError::MalformedInput));
    let mut longer = b.clone();
    longer.push(0);
    assert_eq!(OptionMarket::unpack(&longer), Err(MarketError::MalformedInput));
    assert_eq!(OptionMarket::unpack(&[]), Err(MarketError::MalformedInput));
}

#[test]
fn pack_rejects_wrong_length_and_leaves_buffer() {
    let mut short = [7u8; 248];
    assert_eq!(
        OptionMarket::pack(sample_market(), &mut short),
        Err(MarketError::MalformedInput)
    );
    assert_eq!(short, [7u8; 248]);
    let mut long = [7u8; 250];
    assert_eq!(
        OptionMarket::pack(sample_market(), &mut long),
        Err(MarketError::MalformedInput)
    );
    assert_eq!(long, [7u8; 250]);
}

#[test]
fn pack_into_slice_overwrites_every_byte() {
    let m = sample_market();
    let mut buf = [0xAAu8; 249];
    m.pack_into_slice(&mut buf);
    assert_eq!(buf.to_vec(), m.encode());
    assert_eq!(OptionMarket::unpack_from_slice(&buf), m);
}

#[test]
fn owner_is_checked_before_contents() {
    let program = unique_key(40);
    let stranger = unique_key(41);
    let b = sample_market().encode();
    assert_eq!(
        OptionMarket::from_account_info(&stranger, &b, &program),
        Err(MarketError::UnauthorizedOwner)
    );
    assert_eq!(
        OptionMarket::from_account_info(&stranger, &b[..10], &program),
        Err(MarketError::UnauthorizedOwner)
    );
    assert_eq!(
        OptionMarket::from_account_info(&program, &b[..10], &program),
        Err(MarketError::MalformedInput)
    );
    assert_eq!(
        OptionMarket::from_account_info(&program, &b, &program),
        Ok(sample_market())
    );
}

#[test]
fn owner_differing_in_last_byte_is_refused() {
    let program = unique_key(40);
    let mut near = program;
    near[31] ^= 1;
    let b = sample_market().encode();
    assert_eq!(
        OptionMarket::from_account_info(&near, &b, &program),
        Err(MarketError::UnauthorizedOwner)
    );
}

#[test]
fn clone_is_equal_and_independent() {
    let m = sample_market();
    let mut c = m.clone();
    assert_eq!(c, m);
    c.bump_seed = 9;
    assert_ne!(c, m);
    assert_eq!(m.bump_seed, 1);
}

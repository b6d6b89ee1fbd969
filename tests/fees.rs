use solana_program::program_error::ProgramError;
use swap_fees::bn::U256;
use swap_fees::codec::FEES_LEN;
use swap_fees::fees::Fees;

fn sequential_fees() -> Fees {
    Fees {
        admin_trade_fee_numerator: 1,
        admin_trade_fee_denominator: 2,
        admin_withdraw_fee_numerator: 3,
        admin_withdraw_fee_denominator: 4,
        trade_fee_numerator: 5,
        trade_fee_denominator: 6,
        withdraw_fee_numerator: 7,
        withdraw_fee_denominator: 8,
        reflection_fee_numerator: 9,
        reflection_fee_denominator: 10,
        buyback_fee_numerator: 11,
        buyback_fee_denominator: 12,
        marketing_fee_numerator: 13,
        marketing_fee_denominator: 14,
        developer_fee_numerator: 15,
        developer_fee_denominator: 16,
    }
}

#[test]
fn pack_fees() {
    let admin_trade_fee_numerator: u64 = 1;
    let admin_trade_fee_denominator: u64 = 2;
    let admin_withdraw_fee_numerator: u64 = 3;
    let admin_withdraw_fee_denominator: u64 = 4;
    let trade_fee_numerator: u64 = 5;
    let trade_fee_denominator: u64 = 6;
    let withdraw_fee_numerator: u64 = 7;
    let withdraw_fee_denominator: u64 = 8;
    let reflection_fee_numerator: u64 = 9;
    let reflection_fee_denominator: u64 = 10;
    let buyback_fee_numerator: u64 = 11;
    let buyback_fee_denominator: u64 = 12;
    let marketing_fee_numerator: u64 = 13;
    let marketing_fee_denominator: u64 = 14;
    let developer_fee_numerator: u64 = 15;
    let developer_fee_denominator: u64 = 16;
    let fees = Fees {
        admin_trade_fee_numerator,
        admin_trade_fee_denominator,
        admin_withdraw_fee_numerator,
        admin_withdraw_fee_denominator,
        trade_fee_numerator,
        trade_fee_denominator,
        withdraw_fee_numerator,
        withdraw_fee_denominator,
        reflection_fee_numerator,
        reflection_fee_denominator,
        buyback_fee_numerator,
        buyback_fee_denominator,
        marketing_fee_numerator,
        marketing_fee_denominator,
        developer_fee_numerator,
        developer_fee_denominator,
    };

    let mut packed = [0u8; FEES_LEN];
    fees.pack_into_slice(&mut packed[..]).unwrap();
    let unpacked = Fees::unpack_from_slice(&packed).unwrap();
    assert_eq!(fees, unpacked);

    let mut packed = vec![];
    packed.extend_from_slice(&admin_trade_fee_numerator.to_le_bytes());
    packed.extend_from_slice(&admin_trade_fee_denominator.to_le_bytes());
    packed.extend_from_slice(&admin_withdraw_fee_numerator.to_le_bytes());
    packed.extend_from_slice(&admin_withdraw_fee_denominator.to_le_bytes());
    packed.extend_from_slice(&trade_fee_numerator.to_le_bytes());
    packed.extend_from_slice(&trade_fee_denominator.to_le_bytes());
    packed.extend_from_slice(&withdraw_fee_numerator.to_le_bytes());
    packed.extend_from_slice(&withdraw_fee_denominator.to_le_bytes());
    packed.extend_from_slice(&reflection_fee_numerator.to_le_bytes());
    packed.extend_from_slice(&reflection_fee_denominator.to_le_bytes());
    packed.extend_from_slice(&buyback_fee_numerator.to_le_bytes());
    packed.extend_from_slice(&buyback_fee_denominator.to_le_bytes());
    packed.extend_from_slice(&marketing_fee_numerator.to_le_bytes());
    packed.extend_from_slice(&marketing_fee_denominator.to_le_bytes());
    packed.extend_from_slice(&developer_fee_numerator.to_le_bytes());
    packed.extend_from_slice(&developer_fee_denominator.to_le_bytes());
    let unpacked = Fees::unpack_from_slice(&packed).unwrap();
    assert_eq!(fees, unpacked);
}

#[test]
fn fee_results() {
    let admin_trade_fee_numerator: u64 = 1;
    let admin_trade_fee_denominator: u64 = 2;
    let admin_withdraw_fee_numerator: u64 = 3;
    let admin_withdraw_fee_denominator: u64 = 4;
    let trade_fee_numerator: u64 = 5;
    let trade_fee_denominator: u64 = 6;
    let withdraw_fee_numerator: u64 = 7;
    let withdraw_fee_denominator: u64 = 8;
    let fees = sequential_fees();

    let trade_amount: u64 = 1_000_000_000;
    let expected_trade_fee = trade_amount * trade_fee_numerator / trade_fee_denominator;
    let trade_fee = fees.trade_fee(trade_amount.into()).unwrap();
    assert_eq!(trade_fee, expected_trade_fee.into());
    let expected_admin_trade_fee =
        expected_trade_fee * admin_trade_fee_numerator / admin_trade_fee_denominator;
    assert_eq!(
        fees.admin_trade_fee(trade_fee).unwrap(),
        expected_admin_trade_fee.into()
    );

    let withdraw_amount: u64 = 100_000_000_000;
    let expected_withdraw_fee =
        withdraw_amount * withdraw_fee_numerator / withdraw_fee_denominator;
    let withdraw_fee = fees.withdraw_fee(withdraw_amount.into()).unwrap();
    assert_eq!(withdraw_fee, expected_withdraw_fee.into());
    let expected_admin_withdraw_fee =
        expected_withdraw_fee * admin_withdraw_fee_numerator / admin_withdraw_fee_denominator;
    assert_eq!(
        fees.admin_withdraw_fee(expected_withdraw_fee.into()).unwrap(),
        expected_admin_withdraw_fee.into()
    );

    let n_coins: u64 = 2;
    let adjusted_trade_fee_numerator = trade_fee_numerator * n_coins / (4 * (n_coins - 1));
    let expected_normalized_fee =
        U256::from(trade_amount * adjusted_trade_fee_numerator / trade_fee_denominator);
    assert_eq!(
        fees.normalized_trade_fee(n_coins, trade_amount.into()).unwrap(),
        expected_normalized_fee
    );
}

#[test]
fn simple_fee_exact_values() {
    let fees = sequential_fees();
    assert_eq!(fees.trade_fee(U256::from(1_000_000_000u64)), Some(U256::from(833_333_333u64)));
    assert_eq!(
        fees.admin_trade_fee(U256::from(833_333_333u64)),
        Some(U256::from(416_666_666u64))
    );
    assert_eq!(
        fees.withdraw_fee(U256::from(100_000_000_000u64)),
        Some(U256::from(87_500_000_000u64))
    );
    assert_eq!(
        fees.admin_withdraw_fee(U256::from(87_500_000_000u64)),
        Some(U256::from(65_625_000_000u64))
    );
    assert_eq!(fees.reflection_fee(U256::from(1_000u64)), Some(U256::from(900u64)));
    assert_eq!(fees.buyback_fee(U256::from(1_000u64)), Some(U256::from(916u64)));
    assert_eq!(fees.marketing_fee(U256::from(1_000u64)), Some(U256::from(928u64)));
    assert_eq!(fees.developer_fee(U256::from(1_000u64)), Some(U256::from(937u64)));
}

#[test]
fn zero_denominator_fails_for_every_amount() {
    let fees = Fees::default();
    for amount in [0u64, 1, 1_000_000_000, u64::MAX] {
        let a = U256::from(amount);
        assert_eq!(fees.admin_trade_fee(a), None);
        assert_eq!(fees.admin_withdraw_fee(a), None);
        assert_eq!(fees.trade_fee(a), None);
        assert_eq!(fees.withdraw_fee(a), None);
        assert_eq!(fees.reflection_fee(a), None);
        assert_eq!(fees.buyback_fee(a), None);
        assert_eq!(fees.marketing_fee(a), None);
        assert_eq!(fees.developer_fee(a), None);
        assert_eq!(fees.normalized_trade_fee(2, a), None);
    }
}

#[test]
fn zero_numerator_gives_zero_fee() {
    let mut fees = sequential_fees();
    fees.trade_fee_numerator = 0;
    assert_eq!(fees.trade_fee(U256::max_value()), Some(U256::zero()));
}

#[test]
fn overflow_fails_instead_of_wrapping() {
    let fees = sequential_fees();
    assert_eq!(fees.trade_fee(U256::max_value()), None);
    let half = U256 { limb0: 0, limb1: 0, limb2: 0, limb3: 1u64 << 63 };
    assert_eq!(fees.admin_withdraw_fee(half), None);
    assert_eq!(
        fees.admin_trade_fee(half),
        Some(U256 { limb0: 0, limb1: 0, limb2: 0, limb3: 1u64 << 62 })
    );
    let below_half = U256 { limb0: u64::MAX, limb1: u64::MAX, limb2: u64::MAX, limb3: (1u64 << 63) - 1 };
    assert_eq!(
        fees.admin_trade_fee(below_half),
        Some(U256 { limb0: u64::MAX, limb1: u64::MAX, limb2: u64::MAX, limb3: (1u64 << 62) - 1 })
    );
    let mut unit = Fees::default();
    unit.developer_fee_numerator = 1;
    unit.developer_fee_denominator = 1;
    assert_eq!(unit.developer_fee(U256::max_value()), Some(U256::max_value()));
}

#[test]
fn normalized_fee_values() {
    let fees = sequential_fees();
    let amount = U256::from(1_000_000_000u64);
    assert_eq!(fees.normalized_trade_fee(2, amount), Some(U256::from(333_333_333u64)));
    assert_eq!(fees.normalized_trade_fee(3, amount), Some(U256::from(166_666_666u64)));
    assert_eq!(fees.normalized_trade_fee(5, amount), Some(U256::from(166_666_666u64)));
    assert_eq!(fees.normalized_trade_fee(1, amount), None);
    assert_eq!(fees.normalized_trade_fee(0, amount), None);
    assert_eq!(fees.normalized_trade_fee(1, U256::zero()), None);
    assert_eq!(fees.normalized_trade_fee(u64::MAX, amount), None);
}

#[test]
fn round_trip_all_zero() {
    let fees = Fees::default();
    let mut packed = [0xaau8; FEES_LEN];
    fees.pack_into_slice(&mut packed[..]).unwrap();
    assert_eq!(packed, [0u8; FEES_LEN]);
    assert_eq!(Fees::unpack_from_slice(&packed).unwrap(), fees);
}

#[test]
fn round_trip_large_values() {
    let mut fees = sequential_fees();
    fees.admin_trade_fee_numerator = u64::MAX;
    fees.developer_fee_denominator = 0x0102_0304_0506_0708;
    let mut packed = [0u8; FEES_LEN];
    fees.pack_into_slice(&mut packed[..]).unwrap();
    assert_eq!(&packed[0..8], &[0xff; 8]);
    assert_eq!(&packed[120..128], &[8, 7, 6, 5, 4, 3, 2, 1]);
    assert_eq!(Fees::unpack_from_slice(&packed).unwrap(), fees);
}

#[test]
fn pack_layout_is_little_endian_in_field_order() {
    let fees = sequential_fees();
    let mut packed = [0u8; FEES_LEN];
    fees.pack_into_slice(&mut packed[..]).unwrap();
    for (i, chunk) in packed.chunks(8).enumerate() {
        assert_eq!(chunk, &((i as u64) + 1).to_le_bytes());
    }
}

#[test]
fn pack_into_longer_buffer_keeps_the_tail() {
    let fees = sequential_fees();
    let mut packed = vec![0x5au8; FEES_LEN + 10];
    fees.pack_into_slice(&mut packed[..]).unwrap();
    assert_eq!(&packed[FEES_LEN..], &[0x5a; 10]);
    assert_eq!(Fees::unpack_from_slice(&packed).unwrap(), fees);
}

#[test]
fn short_buffers_are_rejected() {
    let fees = sequential_fees();
    let short = [1u8; FEES_LEN - 1];
    assert_eq!(Fees::unpack_from_slice(&short), Err(ProgramError::InvalidAccountData));
    assert!(Fees::unpack_from_slice(&[]).is_err());
    let mut out = [3u8; FEES_LEN - 1];
    assert_eq!(fees.pack_into_slice(&mut out[..]), Err(ProgramError::InvalidAccountData));
    assert_eq!(out, [3u8; FEES_LEN - 1]);
}

#[test]
fn u256_multiply_and_divide_across_limbs() {
    let max64 = U256::from(u64::MAX);
    let square = max64.checked_mul_u64(u64::MAX).unwrap();
    assert_eq!(square, U256 { limb0: 1, limb1: u64::MAX - 1, limb2: 0, limb3: 0 });
    assert_eq!(square.checked_div_u64(u64::MAX), Some(max64));
    assert_eq!(square.checked_div_u64(0), None);
    assert_eq!(U256::max_value().checked_mul_u64(1), Some(U256::max_value()));
    assert_eq!(U256::max_value().checked_mul_u64(2), None);
    assert_eq!(U256::max_value().checked_mul_u64(0), Some(U256::zero()));
    assert_eq!(
        U256::max_value().checked_div_u64(2),
        Some(U256 { limb0: u64::MAX, limb1: u64::MAX, limb2: u64::MAX, limb3: u64::MAX >> 1 })
    );
}

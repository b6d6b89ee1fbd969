//! The fee record's storage layout: sixteen little-endian 64-bit words, 128
//! bytes in all, in the order of `Fees::stored_fields`.

use crate::fees::Fees;
use solana_program::program_error::ProgramError;
use vstd::prelude::*;

verus! {

/// Declares solana_program's error type so that the codec can return it; it
/// stays opaque.
#[verifier::external_type_specification]
#[verifier::external_body]
pub struct ExProgramError(ProgramError);

/// Relies on solana_program's `ProgramError::InvalidAccountData`, the error
/// that its `Pack` length checks report; nothing is assumed of the value.
#[verifier::external_body]
fn invalid_account_data() -> ProgramError {
    ProgramError::InvalidAccountData
}

/// The length in bytes of a stored fee record.
pub const FEES_LEN: usize = 128;

/// The little-endian bytes of `v`.
pub open spec fn le_bytes(v: u64) -> Seq<u8> {
    seq![
        v as u8,
        (v >> 8u64) as u8,
        (v >> 16u64) as u8,
        (v >> 24u64) as u8,
        (v >> 32u64) as u8,
        (v >> 40u64) as u8,
        (v >> 48u64) as u8,
        (v >> 56u64) as u8,
    ]
}

/// The 64-bit value of the eight little-endian bytes of `b` that start at `at`.
pub open spec fn le_u64(b: Seq<u8>, at: int) -> u64 {
    (b[at] as u64) | ((b[at + 1] as u64) << 8u64) | ((b[at + 2] as u64) << 16u64) | ((b[at
        + 3] as u64) << 24u64) | ((b[at + 4] as u64) << 32u64) | ((b[at + 5] as u64) << 40u64)
        | ((b[at + 6] as u64) << 48u64) | ((b[at + 7] as u64) << 56u64)
}

/// Reading back the bytes of a value gives the value.
pub proof fn lemma_le_u64_of_le_bytes(v: u64)
    ensures
        le_u64(le_bytes(v), 0) == v,
{
    assert(((v as u8) as u64) | ((((v >> 8u64) as u8) as u64) << 8u64) | ((((v >> 16u64) as u8)
        as u64) << 16u64) | ((((v >> 24u64) as u8) as u64) << 24u64) | ((((v >> 32u64) as u8)
        as u64) << 32u64) | ((((v >> 40u64) as u8) as u64) << 40u64) | ((((v >> 48u64) as u8)
        as u64) << 48u64) | ((((v >> 56u64) as u8) as u64) << 56u64) == v) by (bit_vector);
}

/// The record stored in the first 128 bytes of `b`.
pub open spec fn decoded(b: Seq<u8>) -> Fees {
    Fees {
        admin_trade_fee_numerator: le_u64(b, 0),
        admin_trade_fee_denominator: le_u64(b, 8),
        admin_withdraw_fee_numerator: le_u64(b, 16),
        admin_withdraw_fee_denominator: le_u64(b, 24),
        trade_fee_numerator: le_u64(b, 32),
        trade_fee_denominator: le_u64(b, 40),
        withdraw_fee_numerator: le_u64(b, 48),
        withdraw_fee_denominator: le_u64(b, 56),
        reflection_fee_numerator: le_u64(b, 64),
        reflection_fee_denominator: le_u64(b, 72),
        buyback_fee_numerator: le_u64(b, 80),
        buyback_fee_denominator: le_u64(b, 88),
        marketing_fee_numerator: le_u64(b, 96),
        marketing_fee_denominator: le_u64(b, 104),
        developer_fee_numerator: le_u64(b, 112),
        developer_fee_denominator: le_u64(b, 120),
    }
}

/// Reads the eight little-endian bytes of `input` that start at `at`.
fn read_u64_le(input: &[u8], at: usize) -> (r: u64)
    requires
        at + 8 <= input@.len(),
    ensures
        r == le_u64(input@, at as int),
{
    (input[at] as u64) | ((input[at + 1] as u64) << 8u64) | ((input[at + 2] as u64) << 16u64)
        | ((input[at + 3] as u64) << 24u64) | ((input[at + 4] as u64) << 32u64) | ((input[at
        + 5] as u64) << 40u64) | ((input[at + 6] as u64) << 48u64) | ((input[at + 7] as u64)
        << 56u64)
}

/// Writes the little-endian bytes of `v` at `at`, leaving the other bytes as they were.
fn write_u64_le(output: &mut [u8], at: usize, v: u64)
    requires
        at + 8 <= old(output)@.len(),
    ensures
        final(output)@.len() == old(output)@.len(),
        forall|i: int|
            0 <= i < final(output)@.len() ==> #[trigger] final(output)@[i] == if at <= i < at + 8 {
                le_bytes(v)[i - at]
            } else {
                old(output)@[i]
            },
{
    output[at] = v as u8;
    output[at + 1] = (v >> 8u64) as u8;
    output[at + 2] = (v >> 16u64) as u8;
    output[at + 3] = (v >> 24u64) as u8;
    output[at + 4] = (v >> 32u64) as u8;
    output[at + 5] = (v >> 40u64) as u8;
    output[at + 6] = (v >> 48u64) as u8;
    output[at + 7] = (v >> 56u64) as u8;
}

impl Fees {
    /// The 128 bytes that store this record.
    pub open spec fn encoded(self) -> Seq<u8> {
        Seq::new(128, |i: int| le_bytes(self.stored_fields()[i / 8])[i % 8])
    }

    /// Reads a record from the first 128 bytes of `input`; fails where
    /// `input` is shorter. Every bit pattern is a record.
    pub fn unpack_from_slice(input: &[u8]) -> (r: Result<Fees, ProgramError>)
        ensures
            r is Ok <==> input@.len() >= FEES_LEN,
            r matches Ok(f) ==> f == decoded(input@),
    {
        if input.len() < FEES_LEN {
            return Err(invalid_account_data());
        }
        Ok(Fees {
            admin_trade_fee_numerator: read_u64_le(input, 0),
            admin_trade_fee_denominator: read_u64_le(input, 8),
            admin_withdraw_fee_numerator: read_u64_le(input, 16),
            admin_withdraw_fee_denominator: read_u64_le(input, 24),
            trade_fee_numerator: read_u64_le(input, 32),
            trade_fee_denominator: read_u64_le(input, 40),
            withdraw_fee_numerator: read_u64_le(input, 48),
            withdraw_fee_denominator: read_u64_le(input, 56),
            reflection_fee_numerator: read_u64_le(input, 64),
            reflection_fee_denominator: read_u64_le(input, 72),
            buyback_fee_numerator: read_u64_le(input, 80),
            buyback_fee_denominator: read_u64_le(input, 88),
            marketing_fee_numerator: read_u64_le(input, 96),
            marketing_fee_denominator: read_u64_le(input, 104),
            developer_fee_numerator: read_u64_le(input, 112),
            developer_fee_denominator: read_u64_le(input, 120),
        })
    }

    /// Writes the record into the first 128 bytes of `output`; fails, and
    /// leaves `output` as it was, where `output` is shorter.
    pub fn pack_into_slice(&self, output: &mut [u8]) -> (r: Result<(), ProgramError>)
        ensures
            r is Ok <==> old(output)@.len() >= FEES_LEN,
            final(output)@.len() == old(output)@.len(),
            r is Ok ==> final(output)@ =~= self.encoded() + old(output)@.subrange(
                FEES_LEN as int,
                old(output)@.len() as int,
            ),
            r is Err ==> final(output)@ == old(output)@,
    {
        if output.len() < FEES_LEN {
            return Err(invalid_account_data());
        }
        let words: [u64; 16] = [
            self.admin_trade_fee_numerator,
            self.admin_trade_fee_denominator,
            self.admin_withdraw_fee_numerator,
            self.admin_withdraw_fee_denominator,
            self.trade_fee_numerator,
            self.trade_fee_denominator,
            self.withdraw_fee_numerator,
            self.withdraw_fee_denominator,
            self.reflection_fee_numerator,
            self.reflection_fee_denominator,
            self.buyback_fee_numerator,
            self.buyback_fee_denominator,
            self.marketing_fee_numerator,
            self.marketing_fee_denominator,
            self.developer_fee_numerator,
            self.developer_fee_denominator,
        ];
        assert(words@ =~= self.stored_fields());
        let mut j: usize = 0;
        while j < 16
            invariant
                0 <= j <= 16,
                words@ == self.stored_fields(),
                output@.len() == old(output)@.len(),
                old(output)@.len() >= FEES_LEN,
                forall|i: int| 0 <= i < 8 * j ==> #[trigger] output@[i] == self.encoded()[i],
                forall|i: int|
                    FEES_LEN <= i < output@.len() ==> #[trigger] output@[i] == old(output)@[i],
            decreases 16 - j,
        {
            write_u64_le(output, 8 * j, words[j]);
            assert forall|i: int| 0 <= i < 8 * (j + 1) implies #[trigger] output@[i]
                == self.encoded()[i] by {
                if i >= 8 * j {
                    vstd::arithmetic::div_mod::lemma_fundamental_div_mod_converse(
                        i,
                        8,
                        j as int,
                        i - 8 * j,
                    );
                }
            }
            j = j + 1;
        }
        Ok(())
    }
}

proof fn lemma_stored_word(f: Fees, bytes: Seq<u8>, j: int)
    requires
        bytes.len() >= FEES_LEN,
        bytes.subrange(0, FEES_LEN as int) == f.encoded(),
        0 <= j < 16,
    ensures
        le_u64(bytes, 8 * j) == f.stored_fields()[j],
{
    let w = f.stored_fields()[j];
    assert forall|k: int| 0 <= k < 8 implies bytes[8 * j + k] == le_bytes(w)[k] by {
        vstd::arithmetic::div_mod::lemma_fundamental_div_mod_converse(8 * j + k, 8, j, k);
        assert(bytes[8 * j + k] == bytes.subrange(0, FEES_LEN as int)[8 * j + k]);
    }
    lemma_le_u64_of_le_bytes(w);
}

/// Reading back what `pack_into_slice` wrote gives the record that was
/// written: the encoding of `f`, followed by any bytes, decodes to `f`.
pub proof fn lemma_unpack_of_pack(f: Fees, rest: Seq<u8>)
    ensures
        decoded(f.encoded() + rest) == f,
{
    let bytes = f.encoded() + rest;
    assert(bytes.subrange(0, FEES_LEN as int) =~= f.encoded());
    lemma_stored_word(f, bytes, 0);
    lemma_stored_word(f, bytes, 1);
    lemma_stored_word(f, bytes, 2);
    lemma_stored_word(f, bytes, 3);
    lemma_stored_word(f, bytes, 4);
    lemma_stored_word(f, bytes, 5);
    lemma_stored_word(f, bytes, 6);
    lemma_stored_word(f, bytes, 7);
    lemma_stored_word(f, bytes, 8);
    lemma_stored_word(f, bytes, 9);
    lemma_stored_word(f, bytes, 10);
    lemma_stored_word(f, bytes, 11);
    lemma_stored_word(f, bytes, 12);
    lemma_stored_word(f, bytes, 13);
    lemma_stored_word(f, bytes, 14);
    lemma_stored_word(f, bytes, 15);
}

} // verus!

//! The bytes that an NFT vestment record account holds: the account
//! discriminator, then the record's fields in the Borsh layout.

use vstd::prelude::*;
use vstd::string::StringSliceAdditionalSpecFns;
use crate::outside::{sha256, sha256_digest};
use crate::pubkey::Pubkey;
use crate::state::nft_vesting_data::NftVestmentRecord;

verus! {

/// The bytes of `v` in little-endian order.
pub open spec fn le_bytes_u64(v: u64) -> Seq<u8> {
    seq![
        (v & 0xff) as u8,
        ((v >> 8u64) & 0xff) as u8,
        ((v >> 16u64) & 0xff) as u8,
        ((v >> 24u64) & 0xff) as u8,
        ((v >> 32u64) & 0xff) as u8,
        ((v >> 40u64) & 0xff) as u8,
        ((v >> 48u64) & 0xff) as u8,
        ((v >> 56u64) & 0xff) as u8,
    ]
}

/// The Borsh layout of an optional key: a zero byte for none, else a one byte
/// and the key.
pub open spec fn option_key_bytes(k: Option<Pubkey>) -> Seq<u8> {
    match k {
        None => seq![0u8],
        Some(key) => seq![1u8] + key@,
    }
}

/// The Borsh layout of a record: its fields in the order they are declared.
pub open spec fn record_body_bytes(r: NftVestmentRecord) -> Seq<u8> {
    r.nft_mint@ + le_bytes_u64(r.cliff_date as u64) + r.source_token_account@
        + option_key_bytes(r.dedicated_consumer)
}

/// The name that the record accounts' discriminator is the hash of.
pub open spec fn record_discriminator_preimage() -> Seq<u8> {
    "account:NftVestmentRecord".spec_bytes()
}

/// The first eight bytes of the hash of `account:NftVestmentRecord`, which
/// mark an account as holding a record.
pub open spec fn record_discriminator() -> Seq<u8> {
    sha256_digest(record_discriminator_preimage()).take(8)
}

/// The bytes of a record account holding `r`.
pub open spec fn record_account_bytes(r: NftVestmentRecord) -> Seq<u8> {
    record_discriminator() + record_body_bytes(r)
}

fn push_u64_le(out: &mut Vec<u8>, v: u64)
    ensures
        final(out)@ == old(out)@ + le_bytes_u64(v),
{
    out.push((v & 0xff) as u8);
    out.push(((v >> 8u64) & 0xff) as u8);
    out.push(((v >> 16u64) & 0xff) as u8);
    out.push(((v >> 24u64) & 0xff) as u8);
    out.push(((v >> 32u64) & 0xff) as u8);
    out.push(((v >> 40u64) & 0xff) as u8);
    out.push(((v >> 48u64) & 0xff) as u8);
    out.push(((v >> 56u64) & 0xff) as u8);
    assert(final(out)@ =~= old(out)@ + le_bytes_u64(v));
}

pub(crate) fn push_key(out: &mut Vec<u8>, k: &Pubkey)
    ensures
        final(out)@ == old(out)@ + k@,
{
    let ghost start = out@;
    let mut i: usize = 0;
    while i < 32
        invariant
            0 <= i <= 32,
            out@ == start + k@.take(i as int),
        decreases 32 - i,
    {
        out.push(k.bytes[i]);
        assert(k@.take(i + 1) =~= k@.take(i as int).push(k@[i as int]));
        i = i + 1;
    }
    assert(k@.take(32) =~= k@);
}

/// The discriminator of record accounts, computed from its preimage.
pub fn nft_vestment_record_discriminator() -> (r: Vec<u8>)
    ensures
        r@ == record_discriminator(),
        r@.len() == 8,
{
    let digest = sha256("account:NftVestmentRecord".as_bytes());
    let mut r: Vec<u8> = Vec::new();
    let mut i: usize = 0;
    while i < 8
        invariant
            0 <= i <= 8,
            digest@.len() == 32,
            r@ == digest@.take(i as int),
        decreases 8 - i,
    {
        r.push(digest[i]);
        assert(digest@.take(i + 1) =~= digest@.take(i as int).push(digest@[i as int]));
        i = i + 1;
    }
    r
}

/// The bytes of a record account holding `record`: the discriminator, then
/// the record in the Borsh layout.
pub fn encode_nft_vestment_record(record: &NftVestmentRecord) -> (r: Vec<u8>)
    ensures
        r@ == record_account_bytes(*record),
        r@.len() == if record.dedicated_consumer is Some { 113nat } else { 81nat },
        r@.subrange(0, 8) == record_discriminator(),
        r@.subrange(8, 40) == record.nft_mint@,
        le_signed_value(r@.subrange(40, 48)) == record.cliff_date,
        r@.subrange(48, 80) == record.source_token_account@,
        match record.dedicated_consumer {
            None => r@[80] == 0,
            Some(k) => r@[80] == 1 && r@.subrange(81, 113) == k@,
        },
{
    let mut out = nft_vestment_record_discriminator();
    push_key(&mut out, &record.nft_mint);
    push_u64_le(&mut out, record.cliff_date as u64);
    push_key(&mut out, &record.source_token_account);
    match &record.dedicated_consumer {
        None => {
            out.push(0u8);
        },
        Some(key) => {
            out.push(1u8);
            push_key(&mut out, key);
        },
    }
    assert(out@ =~= record_account_bytes(*record));
    proof {
        let body = record_body_bytes(*record);
        lemma_record_body_reads_back(*record);
        assert(out@.subrange(0, 8) =~= record_discriminator());
        assert(out@.subrange(8, 40) =~= body.subrange(0, 32));
        assert(out@.subrange(40, 48) =~= body.subrange(32, 40));
        assert(out@.subrange(48, 80) =~= body.subrange(40, 72));
        assert(out@[80] == body[72]);
        if record.dedicated_consumer is Some {
            assert(out@.subrange(81, 113) =~= body.subrange(73, 105));
        }
    }
    out
}

/// The number whose little-endian bytes are the eight bytes of `b`.
pub open spec fn le_unsigned_value(b: Seq<u8>) -> int {
    b[0] + b[1] * 0x100 + b[2] * 0x10000 + b[3] * 0x1000000 + b[4] * 0x100000000
        + b[5] * 0x10000000000 + b[6] * 0x1000000000000 + b[7] * 0x100000000000000
}

/// The signed number whose little-endian two's-complement bytes are the eight
/// bytes of `b`.
pub open spec fn le_signed_value(b: Seq<u8>) -> int {
    let u = le_unsigned_value(b);
    if u >= 0x8000_0000_0000_0000 {
        u - 0x1_0000_0000_0000_0000
    } else {
        u
    }
}

/// Reading back eight bytes written for an `i64` gives the `i64`.
pub proof fn lemma_i64_bytes_read_back(x: i64)
    ensures
        le_bytes_u64(x as u64).len() == 8,
        le_signed_value(le_bytes_u64(x as u64)) == x,
{
    let v = x as u64;
    assert(v == (v & 0xff) + ((v >> 8u64) & 0xff) * 0x100 + ((v >> 16u64) & 0xff) * 0x10000
        + ((v >> 24u64) & 0xff) * 0x1000000 + ((v >> 32u64) & 0xff) * 0x100000000
        + ((v >> 40u64) & 0xff) * 0x10000000000 + ((v >> 48u64) & 0xff) * 0x1000000000000
        + ((v >> 56u64) & 0xff) * 0x100000000000000) by (bit_vector);
    assert((v & 0xff) < 0x100 && ((v >> 8u64) & 0xff) < 0x100 && ((v >> 16u64) & 0xff) < 0x100
        && ((v >> 24u64) & 0xff) < 0x100 && ((v >> 32u64) & 0xff) < 0x100
        && ((v >> 40u64) & 0xff) < 0x100 && ((v >> 48u64) & 0xff) < 0x100
        && ((v >> 56u64) & 0xff) < 0x100) by (bit_vector);
    assert(x < 0 ==> x + 0x1_0000_0000_0000_0000 == (x as u64)) by (bit_vector);
    assert(x >= 0 ==> x == (x as u64)) by (bit_vector);
    assert(le_unsigned_value(le_bytes_u64(v)) == v);
}

/// The layout of a record reads back to the record: the mint in the first
/// 32 bytes, the cliff date as a little-endian `i64` in the next 8, the
/// source token account in the next 32, then a zero byte where there is no
/// dedicated consumer, or a one byte and the consumer's key.
pub proof fn lemma_record_body_reads_back(r: NftVestmentRecord)
    ensures
        ({
            let b = record_body_bytes(r);
            &&& b.len() == if r.dedicated_consumer is Some { 105int } else { 73int }
            &&& b.subrange(0, 32) == r.nft_mint@
            &&& le_signed_value(b.subrange(32, 40)) == r.cliff_date
            &&& b.subrange(40, 72) == r.source_token_account@
            &&& match r.dedicated_consumer {
                None => b[72] == 0,
                Some(k) => b[72] == 1 && b.subrange(73, 105) == k@,
            }
        }),
{
    let b = record_body_bytes(r);
    lemma_i64_bytes_read_back(r.cliff_date);
    assert(b.subrange(0, 32) =~= r.nft_mint@);
    assert(b.subrange(32, 40) =~= le_bytes_u64(r.cliff_date as u64));
    assert(b.subrange(40, 72) =~= r.source_token_account@);
    match r.dedicated_consumer {
        None => {},
        Some(k) => {
            assert(b.subrange(73, 105) =~= k@);
        },
    }
}

} // verus!

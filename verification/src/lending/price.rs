//! Reading a Pyth price account, and scaling a price by its exponent.
use vstd::prelude::*;
use crate::lending::error::ErrorCode;

verus! {

/// Offset of the little-endian `i32` exponent in a Pyth price account.
pub const EXPO_OFFSET: usize = 20;

/// Offset of the little-endian `i64` price in a Pyth price account.
pub const PRICE_OFFSET: usize = 108;

/// A price account must be strictly longer than this many bytes.
pub const MIN_PRICE_ACCOUNT_LEN: usize = 116;

/// The unsigned value of the four bytes at `off`, least significant first.
pub open spec fn le_u32_at(d: Seq<u8>, off: int) -> int {
    d[off] + d[off + 1] * 0x100 + d[off + 2] * 0x1_0000 + d[off + 3] * 0x100_0000
}

/// The unsigned value of the eight bytes at `off`, least significant first.
pub open spec fn le_u64_at(d: Seq<u8>, off: int) -> int {
    le_u32_at(d, off) + le_u32_at(d, off + 4) * 0x1_0000_0000
}

/// The two's-complement `i32` stored little-endian at `off`.
pub open spec fn le_i32_at(d: Seq<u8>, off: int) -> int {
    let u = le_u32_at(d, off);
    if u < 0x8000_0000 { u } else { u - 0x1_0000_0000 }
}

/// The two's-complement `i64` stored little-endian at `off`.
pub open spec fn le_i64_at(d: Seq<u8>, off: int) -> int {
    let u = le_u64_at(d, off);
    if u < 0x8000_0000_0000_0000 { u } else { u - 0x1_0000_0000_0000_0000 }
}

pub open spec fn abs(x: int) -> int {
    if x < 0 { -x } else { x }
}

/// What a price account holds: the absolute price and the exponent, or
/// `InvalidPrice` when the account is too short or the price is zero.
pub open spec fn pyth_price(d: Seq<u8>) -> Result<(u64, i32), ErrorCode> {
    if d.len() <= MIN_PRICE_ACCOUNT_LEN || le_i64_at(d, PRICE_OFFSET as int) == 0 {
        Err(ErrorCode::InvalidPrice)
    } else {
        Ok((abs(le_i64_at(d, PRICE_OFFSET as int)) as u64, le_i32_at(d, EXPO_OFFSET as int) as i32))
    }
}

fn read_u32_le(data: &[u8], off: usize) -> (r: u32)
    requires
        off + 4 <= data@.len(),
    ensures
        r == le_u32_at(data@, off as int),
{
    let b0 = data[off] as u32;
    let b1 = data[off + 1] as u32;
    let b2 = data[off + 2] as u32;
    let b3 = data[off + 3] as u32;
    b0 + b1 * 0x100 + b2 * 0x1_0000 + b3 * 0x100_0000
}

fn read_u64_le(data: &[u8], off: usize) -> (r: u64)
    requires
        off + 8 <= data@.len(),
    ensures
        r == le_u64_at(data@, off as int),
{
    assert(data@.len() == data.len());
    let lo = read_u32_le(data, off) as u64;
    let hi = read_u32_le(data, off + 4) as u64;
    lo + hi * 0x1_0000_0000
}

/// Decodes the price and exponent of a Pyth price account from its raw bytes.
pub fn read_pyth_price(data: &[u8]) -> (r: Result<(u64, i32), ErrorCode>)
    ensures
        r == pyth_price(data@),
        r matches Ok((price, _)) ==> price > 0,
{
    if data.len() <= MIN_PRICE_ACCOUNT_LEN {
        return Err(ErrorCode::InvalidPrice);
    }
    let raw_expo = read_u32_le(data, EXPO_OFFSET);
    let expo: i32 = if raw_expo < 0x8000_0000 {
        raw_expo as i32
    } else {
        (raw_expo as i64 - 0x1_0000_0000) as i32
    };
    let raw_price = read_u64_le(data, PRICE_OFFSET);
    if raw_price == 0 {
        return Err(ErrorCode::InvalidPrice);
    }
    let price: u64 = if raw_price < 0x8000_0000_0000_0000 {
        raw_price
    } else {
        (u64::MAX - raw_price) + 1
    };
    Ok((price, expo))
}

/// Ten to the power `n`.
pub open spec fn pow10(n: nat) -> nat
    decreases n,
{
    if n == 0 { 1 } else { 10 * pow10((n - 1) as nat) }
}

/// Largest exponent magnitude whose power of ten fits in a `u64`.
pub const MAX_DECIMALS: u32 = 19;

/// A price scaled by `10^(-expo)`, or `None` where that computation overflows
/// (a positive exponent, one below -19, or a product above `u64::MAX`).
pub open spec fn scaled_price(price: u64, expo: i32) -> Option<u64> {
    if -(MAX_DECIMALS as int) <= expo <= 0 && price * pow10((-expo) as nat) <= u64::MAX {
        Some((price * pow10((-expo) as nat)) as u64)
    } else {
        None
    }
}

proof fn lemma_pow10_monotone(i: nat, j: nat)
    requires
        i <= j,
    ensures
        1 <= pow10(i) <= pow10(j),
    decreases j,
{
    if j > 0 {
        if i == j {
            lemma_pow10_monotone((j - 1) as nat, (j - 1) as nat);
        } else {
            lemma_pow10_monotone(i, (j - 1) as nat);
        }
    }
}

/// Scales a price by its (non-positive) exponent; `None` where the scaling
/// overflows a `u64`.
pub fn price_in_wei(price: u64, expo: i32) -> (r: Option<u64>)
    ensures
        r == scaled_price(price, expo),
        r matches Some(w) ==> (price > 0 ==> w > 0),
{
    if expo > 0 || expo < -(MAX_DECIMALS as i32) {
        return None;
    }
    let n: u32 = (-expo) as u32;
    let mut scale: u64 = 1;
    let mut i: u32 = 0;
    assert(pow10(19) == 10_000_000_000_000_000_000nat) by {
        reveal_with_fuel(pow10, 20);
    }
    while i < n
        invariant
            i <= n <= MAX_DECIMALS,
            scale == pow10(i as nat),
            pow10(19) == 10_000_000_000_000_000_000nat,
        decreases n - i,
    {
        proof {
            lemma_pow10_monotone((i + 1) as nat, 19);
        }
        scale = scale * 10;
        i = i + 1;
    }
    proof {
        lemma_pow10_monotone(0, n as nat);
    }
    let r = price.checked_mul(scale);
    proof {
        if price > 0 {
            assert(price * scale >= scale) by (nonlinear_arith)
                requires price > 0, scale >= 1;
        }
    }
    r
}

} // verus!

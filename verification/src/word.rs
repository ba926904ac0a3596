//! The bit fields of a single 32-bit cell, and the joining of two cells into
//! a 64-bit value.
//!
//! The first cell of a PCI address (`phys.hi`) is laid out as
//!
//! ```text
//!  31 30 29 28..26 25 24 23......16 15...11 10..8 7......0
//!   n  p  t  000    s  s  bus        device  func  register
//! ```
//!
//! where `n` is the relocatable flag, `p` the prefetchable flag, `t` the
//! aliased flag and `ss` selects the address space.

use vstd::prelude::*;

verus! {

/// Position of the relocatable flag.
pub const RELOCATABLE_BIT: usize = 31;

/// Position of the prefetchable flag.
pub const PREFETCHABLE_BIT: usize = 30;

/// Position of the aliased flag.
pub const ALIASED_BIT: usize = 29;

/// The address-space selector of a `phys.hi` cell: bits 25 and 24.
pub open spec fn selector(high: u32) -> u32 {
    (high >> 24) & 0x3
}

/// The bus/device/function identifier of a `phys.hi` cell: bits 23 down to 8.
pub open spec fn bdf(high: u32) -> u16 {
    ((high >> 8) & 0xffff) as u16
}

/// Whether bit `n` of `word` is set.
pub open spec fn bit_is_set(word: u32, n: usize) -> bool {
    (word >> n) & 0x1 != 0
}

/// The 64-bit value whose upper half is `high` and whose lower half is `low`.
pub open spec fn join(high: u32, low: u32) -> u64 {
    ((high as u64) << 32) | (low as u64)
}

/// Reads the address-space selector of a `phys.hi` cell.
pub fn space(high: u32) -> (s: u32)
    ensures
        s == selector(high),
        s < 4,
{
    let s: u32 = (high >> 24) & 0x3;
    assert(s < 4) by (bit_vector)
        requires
            s == (high >> 24) & 0x3,
    ;
    s
}

/// The selector is a two-bit field: it takes the values 0 to 3 and no other,
/// and it is the quotient of the cell by 2^24, modulo 4.
pub proof fn lemma_selector(high: u32)
    ensures
        selector(high) < 4,
        selector(high) == (high / 0x100_0000) % 4,
{
    assert((high >> 24) & 0x3 < 4) by (bit_vector);
    assert((high >> 24) & 0x3 == (high / 0x100_0000) % 4) by (bit_vector);
}

/// The bus/device/function identifier is the quotient of the cell by 2^8,
/// modulo 2^16: the cast to 16 bits loses nothing.
pub proof fn lemma_bdf(high: u32)
    ensures
        bdf(high) == (high / 0x100) % 0x1_0000,
        bdf(high) == (high >> 8) & 0xffff,
{
    assert(((high >> 8) & 0xffff) as u16 == (high / 0x100) % 0x1_0000) by (bit_vector);
    assert(((high >> 8) & 0xffff) as u16 == (high >> 8) & 0xffff) by (bit_vector);
}

/// The three flags read as arithmetic on the cell: each is the parity of the
/// quotient by the power of two of its position.
pub proof fn lemma_flag_bits(high: u32)
    ensures
        bit_is_set(high, RELOCATABLE_BIT) <==> high >= 0x8000_0000,
        bit_is_set(high, PREFETCHABLE_BIT) <==> (high / 0x4000_0000) % 2 == 1,
        bit_is_set(high, ALIASED_BIT) <==> (high / 0x2000_0000) % 2 == 1,
{
    assert(((high >> 31usize) & 0x1 != 0) <==> high >= 0x8000_0000) by (bit_vector);
    assert(((high >> 30usize) & 0x1 != 0) <==> (high / 0x4000_0000) % 2 == 1) by (bit_vector);
    assert(((high >> 29usize) & 0x1 != 0) <==> (high / 0x2000_0000) % 2 == 1) by (bit_vector);
}

/// The flags, the selector and the identifier occupy disjoint bits: a cell
/// exists for every choice of them, and in it each field reads back as
/// chosen.
pub proof fn lemma_fields_independent(
    relocatable: bool,
    prefetchable: bool,
    aliased: bool,
    space: u32,
    id: u16,
) -> (high: u32)
    requires
        space < 4,
    ensures
        bit_is_set(high, RELOCATABLE_BIT) == relocatable,
        bit_is_set(high, PREFETCHABLE_BIT) == prefetchable,
        bit_is_set(high, ALIASED_BIT) == aliased,
        selector(high) == space,
        bdf(high) == id,
{
    let n: u32 = if relocatable { 0x8000_0000 } else { 0 };
    let p: u32 = if prefetchable { 0x4000_0000 } else { 0 };
    let t: u32 = if aliased { 0x2000_0000 } else { 0 };
    let high: u32 = n | p | t | (space << 24) | ((id as u32) << 8);
    assert(((high >> 31usize) & 0x1 != 0) == relocatable && ((high >> 30usize) & 0x1 != 0)
        == prefetchable && ((high >> 29usize) & 0x1 != 0) == aliased && (high >> 24) & 0x3 == space
        && ((high >> 8) & 0xffff) as u16 == id) by (bit_vector)
        requires
            space < 4,
            n == (if relocatable { 0x8000_0000u32 } else { 0 }),
            p == (if prefetchable { 0x4000_0000u32 } else { 0 }),
            t == (if aliased { 0x2000_0000u32 } else { 0 }),
            high == n | p | t | (space << 24) | ((id as u32) << 8),
    ;
    high
}

/// Joining puts the two halves into disjoint bits, so `|` and `+` agree, the
/// sum cannot overflow, and both halves can be read back.
pub proof fn lemma_join(high: u32, low: u32)
    ensures
        join(high, low) == high * 0x1_0000_0000 + low,
        join(high, low) == ((high as u64) << 32) + (low as u64),
        join(high, low) >> 32 == high,
        join(high, low) & 0xffff_ffff == low,
{
    assert((((high as u64) << 32) | (low as u64)) == high * 0x1_0000_0000 + low) by (bit_vector);
    assert((((high as u64) << 32) | (low as u64)) == ((high as u64) << 32) + (low as u64))
        by (bit_vector);
    assert((((high as u64) << 32) | (low as u64)) >> 32 == high) by (bit_vector);
    assert((((high as u64) << 32) | (low as u64)) & 0xffff_ffff == low) by (bit_vector);
}

} // verus!

//! Grain and address integers, and the reinterpretation of their bit
//! patterns as signed numbers.

use vstd::prelude::*;

verus! {

/// Unsigned machine word: holds one capability or one data word.
pub type UGran = u64;

/// Signed machine word.
pub type SGran = i64;

/// Unsigned address.
pub type UAddr = u16;

/// Signed address, used for program counter offsets.
pub type SAddr = i16;

/// Bytes in one address.
pub const UADDR_SIZE: u8 = 2;

/// Bytes in one grain.
pub const UGRAN_SIZE: u8 = 8;

/// Bits in one address.
pub const UADDR_BITS: u8 = 16;

/// Bits in one grain.
pub const UGRAN_BITS: u8 = 64;

/// The byte that fills memory nobody has written yet.
pub const UNINIT_BYTE: u8 = 0x55;

/// An address made of uninitialised bytes.
pub const UNINIT: UAddr = 0x5555;

/// The signed number with the same two's complement bit pattern as `u`.
pub open spec fn gran_sign_spec(u: UGran) -> int {
    if u < 0x8000_0000_0000_0000 {
        u as int
    } else {
        u as int - 0x1_0000_0000_0000_0000
    }
}

/// The unsigned number with the same two's complement bit pattern as `s`.
pub open spec fn gran_unsign_spec(s: SGran) -> int {
    if s >= 0 {
        s as int
    } else {
        s as int + 0x1_0000_0000_0000_0000
    }
}

/// The signed number with the same two's complement bit pattern as `u`.
pub open spec fn addr_sign_spec(u: UAddr) -> int {
    if u < 0x8000 {
        u as int
    } else {
        u as int - 0x1_0000
    }
}

/// The unsigned number with the same two's complement bit pattern as `s`.
pub open spec fn addr_unsign_spec(s: SAddr) -> int {
    if s >= 0 {
        s as int
    } else {
        s as int + 0x1_0000
    }
}

/// Reinterprets a grain as signed.
pub fn gran_sign(u: UGran) -> (s: SGran)
    ensures
        s as int == gran_sign_spec(u),
{
    if u < 0x8000_0000_0000_0000 {
        u as i64
    } else {
        let low: u64 = u - 0x8000_0000_0000_0000;
        (low as i64) + i64::MIN
    }
}

/// Reinterprets a signed grain as unsigned.
pub fn gran_unsign(s: SGran) -> (u: UGran)
    ensures
        u as int == gran_unsign_spec(s),
{
    if s >= 0 {
        s as u64
    } else {
        let low: i64 = s - i64::MIN;
        (low as u64) + 0x8000_0000_0000_0000
    }
}

/// Reinterprets an address as signed.
pub fn addr_sign(u: UAddr) -> (s: SAddr)
    ensures
        s as int == addr_sign_spec(u),
{
    if u < 0x8000 {
        u as i16
    } else {
        let low: u16 = u - 0x8000;
        (low as i16) + i16::MIN
    }
}

/// Reinterprets a signed address as unsigned.
pub fn addr_unsign(s: SAddr) -> (u: UAddr)
    ensures
        u as int == addr_unsign_spec(s),
{
    if s >= 0 {
        s as u16
    } else {
        let low: i16 = s - i16::MIN;
        (low as u16) + 0x8000
    }
}

/// Signing and unsigning a grain are inverse to each other.
pub proof fn lemma_gran_sign_round_trip(u: UGran, s: SGran)
    ensures
        gran_unsign_spec(gran_sign_spec(u) as SGran) == u,
        gran_sign_spec(gran_unsign_spec(s) as UGran) == s,
{
}

/// Signing and unsigning an address are inverse to each other.
pub proof fn lemma_addr_sign_round_trip(u: UAddr, s: SAddr)
    ensures
        addr_unsign_spec(addr_sign_spec(u) as SAddr) == u,
        addr_sign_spec(addr_unsign_spec(s) as UAddr) == s,
{
}

} // verus!

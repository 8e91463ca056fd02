//! The layout and byte representation of the primitive types.

use vstd::prelude::*;
use crate::abi::{gran_span, gran_span_spec, tags_of, Align, Layout, Ty};
use crate::bits::TagBits;
use crate::capability::Address;
use crate::endian::{
    le_bytes, le_value, lemma_le_bytes_len, lemma_le_value_bound, lemma_pow256_values, read_le,
    splice, write_le,
};
use crate::exception::Exception;
use crate::ints::{gran_sign, gran_sign_spec, gran_unsign, gran_unsign_spec, UAddr};

verus! {

/// The tags that a write of plain data leaves: all clear.
pub open spec fn cleared(tags: Seq<bool>) -> Seq<bool> {
    Seq::new(tags.len(), |i: int| false)
}

/// Clears the tags of the granules that `size` bytes at `addr` touch.
pub fn clear_tags(tags: &mut TagBits, tpos: usize, addr: Address, size: UAddr)
    requires
        addr.0 + size <= 0x1_0000,
        tpos + gran_span_spec(addr, size) + 1 <= old(tags)@.len(),
    ensures
        final(tags)@ == splice(
            old(tags)@,
            tpos as int,
            cleared(tags_of(old(tags)@, tpos as int, addr, size)),
        ),
{
    let span = gran_span(addr, size);
    let n = tags.len();
    tags.fill(tpos, tpos + span + 1, false);
    proof {
        assert(tags@ =~= splice(
            old(tags)@,
            tpos as int,
            cleared(tags_of(old(tags)@, tpos as int, addr, size)),
        ));
    }
}

/// The layout of an integer of `size` bytes: no alignment asked.
pub fn int_layout(size: UAddr) -> (l: Layout)
    ensures
        l.size == size,
        l.align.exp() == 0,
        l.align.value() == 1,
{
    Layout { size, align: Align::min() }
}

/// The layout of an integer of `size` bytes.
pub open spec fn int_layout_spec(size: UAddr) -> Layout {
    Layout { size, align: Align::min_spec() }
}

impl Ty for u8 {
    open spec fn layout_spec() -> Layout {
        int_layout_spec(1)
    }

    open spec fn read_spec(bytes: Seq<u8>, addr: Address, tags: Seq<bool>) -> Result<Self, Exception> {
        Ok(le_value(bytes) as u8)
    }

    open spec fn write_bytes_spec(self, bytes: Seq<u8>, addr: Address) -> Seq<u8> {
        le_bytes(self as nat, 1)
    }

    open spec fn write_tags_spec(self, addr: Address, tags: Seq<bool>) -> Seq<bool> {
        cleared(tags)
    }

    proof fn lemma_write_len(self, bytes: Seq<u8>, addr: Address, tags: Seq<bool>) {
        lemma_le_bytes_len(self as nat, 1);
    }

    fn layout() -> (l: Layout) {
        int_layout(1)
    }

    fn read(src: &[u8], addr: Address, tags: &TagBits, tpos: usize) -> (r: Result<Self, Exception>) {
        proof {
            lemma_le_value_bound(src@);
            lemma_pow256_values();
        }
        Ok(read_le(src) as u8)
    }

    fn write(self, dst: &mut Vec<u8>, pos: usize, addr: Address, tags: &mut TagBits, tpos: usize) -> (r:
        Result<(), Exception>) {
        clear_tags(tags, tpos, addr, 1);
        write_le(self as u64, 1, dst, pos);
        Ok(())
    }
}

impl Ty for u16 {
    open spec fn layout_spec() -> Layout {
        int_layout_spec(2)
    }

    open spec fn read_spec(bytes: Seq<u8>, addr: Address, tags: Seq<bool>) -> Result<Self, Exception> {
        Ok(le_value(bytes) as u16)
    }

    open spec fn write_bytes_spec(self, bytes: Seq<u8>, addr: Address) -> Seq<u8> {
        le_bytes(self as nat, 2)
    }

    open spec fn write_tags_spec(self, addr: Address, tags: Seq<bool>) -> Seq<bool> {
        cleared(tags)
    }

    proof fn lemma_write_len(self, bytes: Seq<u8>, addr: Address, tags: Seq<bool>) {
        lemma_le_bytes_len(self as nat, 2);
    }

    fn layout() -> (l: Layout) {
        int_layout(2)
    }

    fn read(src: &[u8], addr: Address, tags: &TagBits, tpos: usize) -> (r: Result<Self, Exception>) {
        proof {
            lemma_le_value_bound(src@);
            lemma_pow256_values();
        }
        Ok(read_le(src) as u16)
    }

    fn write(self, dst: &mut Vec<u8>, pos: usize, addr: Address, tags: &mut TagBits, tpos: usize) -> (r:
        Result<(), Exception>) {
        clear_tags(tags, tpos, addr, 2);
        write_le(self as u64, 2, dst, pos);
        Ok(())
    }
}

impl Ty for u32 {
    open spec fn layout_spec() -> Layout {
        int_layout_spec(4)
    }

    open spec fn read_spec(bytes: Seq<u8>, addr: Address, tags: Seq<bool>) -> Result<Self, Exception> {
        Ok(le_value(bytes) as u32)
    }

    open spec fn write_bytes_spec(self, bytes: Seq<u8>, addr: Address) -> Seq<u8> {
        le_bytes(self as nat, 4)
    }

    open spec fn write_tags_spec(self, addr: Address, tags: Seq<bool>) -> Seq<bool> {
        cleared(tags)
    }

    proof fn lemma_write_len(self, bytes: Seq<u8>, addr: Address, tags: Seq<bool>) {
        lemma_le_bytes_len(self as nat, 4);
    }

    fn layout() -> (l: Layout) {
        int_layout(4)
    }

    fn read(src: &[u8], addr: Address, tags: &TagBits, tpos: usize) -> (r: Result<Self, Exception>) {
        proof {
            lemma_le_value_bound(src@);
            lemma_pow256_values();
        }
        Ok(read_le(src) as u32)
    }

    fn write(self, dst: &mut Vec<u8>, pos: usize, addr: Address, tags: &mut TagBits, tpos: usize) -> (r:
        Result<(), Exception>) {
        clear_tags(tags, tpos, addr, 4);
        write_le(self as u64, 4, dst, pos);
        Ok(())
    }
}

impl Ty for u64 {
    open spec fn layout_spec() -> Layout {
        int_layout_spec(8)
    }

    open spec fn read_spec(bytes: Seq<u8>, addr: Address, tags: Seq<bool>) -> Result<Self, Exception> {
        Ok(le_value(bytes) as u64)
    }

    open spec fn write_bytes_spec(self, bytes: Seq<u8>, addr: Address) -> Seq<u8> {
        le_bytes(self as nat, 8)
    }

    open spec fn write_tags_spec(self, addr: Address, tags: Seq<bool>) -> Seq<bool> {
        cleared(tags)
    }

    proof fn lemma_write_len(self, bytes: Seq<u8>, addr: Address, tags: Seq<bool>) {
        lemma_le_bytes_len(self as nat, 8);
    }

    fn layout() -> (l: Layout) {
        int_layout(8)
    }

    fn read(src: &[u8], addr: Address, tags: &TagBits, tpos: usize) -> (r: Result<Self, Exception>) {
        Ok(read_le(src))
    }

    fn write(self, dst: &mut Vec<u8>, pos: usize, addr: Address, tags: &mut TagBits, tpos: usize) -> (r:
        Result<(), Exception>) {
        clear_tags(tags, tpos, addr, 8);
        write_le(self, 8, dst, pos);
        Ok(())
    }
}

impl Ty for i64 {
    open spec fn layout_spec() -> Layout {
        int_layout_spec(8)
    }

    open spec fn read_spec(bytes: Seq<u8>, addr: Address, tags: Seq<bool>) -> Result<Self, Exception> {
        Ok(gran_sign_spec(le_value(bytes) as u64) as i64)
    }

    open spec fn write_bytes_spec(self, bytes: Seq<u8>, addr: Address) -> Seq<u8> {
        le_bytes(gran_unsign_spec(self) as nat, 8)
    }

    open spec fn write_tags_spec(self, addr: Address, tags: Seq<bool>) -> Seq<bool> {
        cleared(tags)
    }

    proof fn lemma_write_len(self, bytes: Seq<u8>, addr: Address, tags: Seq<bool>) {
        lemma_le_bytes_len(gran_unsign_spec(self) as nat, 8);
    }

    fn layout() -> (l: Layout) {
        int_layout(8)
    }

    fn read(src: &[u8], addr: Address, tags: &TagBits, tpos: usize) -> (r: Result<Self, Exception>) {
        Ok(gran_sign(read_le(src)))
    }

    fn write(self, dst: &mut Vec<u8>, pos: usize, addr: Address, tags: &mut TagBits, tpos: usize) -> (r:
        Result<(), Exception>) {
        clear_tags(tags, tpos, addr, 8);
        write_le(gran_unsign(self), 8, dst, pos);
        Ok(())
    }
}

/// The signed number with the same two's complement bit pattern as `u`.
pub open spec fn sign8_spec(u: u8) -> int {
    if u < 0x80 {
        u as int
    } else {
        u as int - 0x100
    }
}

/// The unsigned number with the same two's complement bit pattern as `s`.
pub open spec fn unsign8_spec(s: i8) -> int {
    if s >= 0 {
        s as int
    } else {
        s as int + 0x100
    }
}

fn sign8(u: u8) -> (s: i8)
    ensures
        s as int == sign8_spec(u),
{
    if u < 0x80 {
        u as i8
    } else {
        let low: u8 = u - 0x80;
        (low as i8) + i8::MIN
    }
}

fn unsign8(s: i8) -> (u: u8)
    ensures
        u as int == unsign8_spec(s),
{
    if s >= 0 {
        s as u8
    } else {
        let low: i8 = s - i8::MIN;
        (low as u8) + 0x80
    }
}

impl Ty for i8 {
    open spec fn layout_spec() -> Layout {
        int_layout_spec(1)
    }

    open spec fn read_spec(bytes: Seq<u8>, addr: Address, tags: Seq<bool>) -> Result<Self, Exception> {
        Ok(sign8_spec(le_value(bytes) as u8) as i8)
    }

    open spec fn write_bytes_spec(self, bytes: Seq<u8>, addr: Address) -> Seq<u8> {
        le_bytes(unsign8_spec(self) as nat, 1)
    }

    open spec fn write_tags_spec(self, addr: Address, tags: Seq<bool>) -> Seq<bool> {
        cleared(tags)
    }

    proof fn lemma_write_len(self, bytes: Seq<u8>, addr: Address, tags: Seq<bool>) {
        lemma_le_bytes_len(unsign8_spec(self) as nat, 1);
    }

    fn layout() -> (l: Layout) {
        int_layout(1)
    }

    fn read(src: &[u8], addr: Address, tags: &TagBits, tpos: usize) -> (r: Result<Self, Exception>) {
        proof {
            lemma_le_value_bound(src@);
            lemma_pow256_values();
        }
        Ok(sign8(read_le(src) as u8))
    }

    fn write(self, dst: &mut Vec<u8>, pos: usize, addr: Address, tags: &mut TagBits, tpos: usize) -> (r:
        Result<(), Exception>) {
        clear_tags(tags, tpos, addr, 1);
        write_le(unsign8(self) as u64, 1, dst, pos);
        Ok(())
    }
}

/// The signed number with the same two's complement bit pattern as `u`.
pub open spec fn sign16_spec(u: u16) -> int {
    if u < 0x8000 {
        u as int
    } else {
        u as int - 0x1_0000
    }
}

/// The unsigned number with the same two's complement bit pattern as `s`.
pub open spec fn unsign16_spec(s: i16) -> int {
    if s >= 0 {
        s as int
    } else {
        s as int + 0x1_0000
    }
}

fn sign16(u: u16) -> (s: i16)
    ensures
        s as int == sign16_spec(u),
{
    if u < 0x8000 {
        u as i16
    } else {
        let low: u16 = u - 0x8000;
        (low as i16) + i16::MIN
    }
}

fn unsign16(s: i16) -> (u: u16)
    ensures
        u as int == unsign16_spec(s),
{
    if s >= 0 {
        s as u16
    } else {
        let low: i16 = s - i16::MIN;
        (low as u16) + 0x8000
    }
}

impl Ty for i16 {
    open spec fn layout_spec() -> Layout {
        int_layout_spec(2)
    }

    open spec fn read_spec(bytes: Seq<u8>, addr: Address, tags: Seq<bool>) -> Result<Self, Exception> {
        Ok(sign16_spec(le_value(bytes) as u16) as i16)
    }

    open spec fn write_bytes_spec(self, bytes: Seq<u8>, addr: Address) -> Seq<u8> {
        le_bytes(unsign16_spec(self) as nat, 2)
    }

    open spec fn write_tags_spec(self, addr: Address, tags: Seq<bool>) -> Seq<bool> {
        cleared(tags)
    }

    proof fn lemma_write_len(self, bytes: Seq<u8>, addr: Address, tags: Seq<bool>) {
        lemma_le_bytes_len(unsign16_spec(self) as nat, 2);
    }

    fn layout() -> (l: Layout) {
        int_layout(2)
    }

    fn read(src: &[u8], addr: Address, tags: &TagBits, tpos: usize) -> (r: Result<Self, Exception>) {
        proof {
            lemma_le_value_bound(src@);
            lemma_pow256_values();
        }
        Ok(sign16(read_le(src) as u16))
    }

    fn write(self, dst: &mut Vec<u8>, pos: usize, addr: Address, tags: &mut TagBits, tpos: usize) -> (r:
        Result<(), Exception>) {
        clear_tags(tags, tpos, addr, 2);
        write_le(unsign16(self) as u64, 2, dst, pos);
        Ok(())
    }
}

/// The signed number with the same two's complement bit pattern as `u`.
pub open spec fn sign32_spec(u: u32) -> int {
    if u < 0x8000_0000 {
        u as int
    } else {
        u as int - 0x1_0000_0000
    }
}

/// The unsigned number with the same two's complement bit pattern as `s`.
pub open spec fn unsign32_spec(s: i32) -> int {
    if s >= 0 {
        s as int
    } else {
        s as int + 0x1_0000_0000
    }
}

fn sign32(u: u32) -> (s: i32)
    ensures
        s as int == sign32_spec(u),
{
    if u < 0x8000_0000 {
        u as i32
    } else {
        let low: u32 = u - 0x8000_0000;
        (low as i32) + i32::MIN
    }
}

fn unsign32(s: i32) -> (u: u32)
    ensures
        u as int == unsign32_spec(s),
{
    if s >= 0 {
        s as u32
    } else {
        let low: i32 = s - i32::MIN;
        (low as u32) + 0x8000_0000
    }
}

impl Ty for i32 {
    open spec fn layout_spec() -> Layout {
        int_layout_spec(4)
    }

    open spec fn read_spec(bytes: Seq<u8>, addr: Address, tags: Seq<bool>) -> Result<Self, Exception> {
        Ok(sign32_spec(le_value(bytes) as u32) as i32)
    }

    open spec fn write_bytes_spec(self, bytes: Seq<u8>, addr: Address) -> Seq<u8> {
        le_bytes(unsign32_spec(self) as nat, 4)
    }

    open spec fn write_tags_spec(self, addr: Address, tags: Seq<bool>) -> Seq<bool> {
        cleared(tags)
    }

    proof fn lemma_write_len(self, bytes: Seq<u8>, addr: Address, tags: Seq<bool>) {
        lemma_le_bytes_len(unsign32_spec(self) as nat, 4);
    }

    fn layout() -> (l: Layout) {
        int_layout(4)
    }

    fn read(src: &[u8], addr: Address, tags: &TagBits, tpos: usize) -> (r: Result<Self, Exception>) {
        proof {
            lemma_le_value_bound(src@);
            lemma_pow256_values();
        }
        Ok(sign32(read_le(src) as u32))
    }

    fn write(self, dst: &mut Vec<u8>, pos: usize, addr: Address, tags: &mut TagBits, tpos: usize) -> (r:
        Result<(), Exception>) {
        clear_tags(tags, tpos, addr, 4);
        write_le(unsign32(self) as u64, 4, dst, pos);
        Ok(())
    }
}

impl Ty for bool {
    open spec fn layout_spec() -> Layout {
        int_layout_spec(1)
    }

    open spec fn read_spec(bytes: Seq<u8>, addr: Address, tags: Seq<bool>) -> Result<Self, Exception> {
        Ok(le_value(bytes) != 0)
    }

    open spec fn write_bytes_spec(self, bytes: Seq<u8>, addr: Address) -> Seq<u8> {
        le_bytes(
            if self {
                1
            } else {
                0
            },
            1,
        )
    }

    open spec fn write_tags_spec(self, addr: Address, tags: Seq<bool>) -> Seq<bool> {
        cleared(tags)
    }

    proof fn lemma_write_len(self, bytes: Seq<u8>, addr: Address, tags: Seq<bool>) {
        lemma_le_bytes_len(1, 1);
        lemma_le_bytes_len(0, 1);
    }

    fn layout() -> (l: Layout) {
        int_layout(1)
    }

    fn read(src: &[u8], addr: Address, tags: &TagBits, tpos: usize) -> (r: Result<Self, Exception>) {
        Ok(read_le(src) != 0)
    }

    fn write(self, dst: &mut Vec<u8>, pos: usize, addr: Address, tags: &mut TagBits, tpos: usize) -> (r:
        Result<(), Exception>) {
        let repr: u64 = if self {
            1
        } else {
            0
        };
        clear_tags(tags, tpos, addr, 1);
        write_le(repr, 1, dst, pos);
        Ok(())
    }
}

} // verus!

//! Alignment, layout and the struct layout folder.

use vstd::prelude::*;
use vstd::arithmetic::power2::{pow2, lemma2_to64, lemma_pow2_pos, lemma_pow2_strictly_increases};
use crate::bits::TagBits;
use crate::capability::Address;
use crate::endian::splice;
use crate::exception::Exception;
use crate::ints::UAddr;

pub mod cap_impls;
pub mod core_impls;
pub mod custom;
pub mod structs;

verus! {

/// A power of two, held as its exponent.
#[derive(Clone, Copy, Debug, PartialEq, Eq, Structural)]
pub struct Align(pub(crate) u8);

impl Align {
    #[verifier::type_invariant]
    pub open(crate) spec fn inv(self) -> bool {
        self.0 < 16
    }

    /// The exponent of the power of two.
    pub open(crate) spec fn exp(self) -> nat {
        self.0 as nat
    }

    /// The alignment in bytes: two to the exponent.
    pub open spec fn value(self) -> nat {
        pow2(self.exp())
    }

    /// An alignment exists in executable code only with an exponent that an
    /// address can hold.
    pub open spec fn wf(self) -> bool {
        self.exp() < 16
    }

    /// The alignment of one byte.
    pub open(crate) spec fn min_spec() -> Align {
        Align(0)
    }

    /// The alignment of one byte.
    pub fn min() -> (a: Align)
        ensures
            a == Self::min_spec(),
            a.exp() == 0,
            a.value() == 1,
            a.wf(),
    {
        proof {
            lemma2_to64();
        }
        Align(0)
    }

    /// The alignment with the given exponent.
    pub open(crate) spec fn from_exp_spec(exp: u8) -> Align {
        Align(exp)
    }

    /// The alignment with the given exponent.
    pub fn from_exp(exp: u8) -> (a: Align)
        requires
            exp < 16,
        ensures
            a == Self::from_exp_spec(exp),
            a.exp() == exp,
            a.wf(),
    {
        Align(exp)
    }

    /// The exponent of this alignment.
    pub fn log2(self) -> (e: u8)
        ensures
            e == self.exp(),
            e < 16,
    {
        proof {
            use_type_invariant(&self);
        }
        self.0
    }

    /// The alignment of `align` bytes, if `align` is a power of two.
    pub fn new(align: UAddr) -> (r: Option<Align>)
        ensures
            match r {
                Some(a) => a.value() == align && a.wf(),
                None => forall|e: nat| pow2(e) != align,
            },
    {
        let mut e: u8 = 0;
        let mut p: UAddr = 1;
        proof {
            lemma2_to64();
        }
        while e < 15
            invariant
                e <= 15,
                p == pow2(e as nat),
                forall|k: nat| k < e ==> pow2(k) != align,
            decreases 15 - e,
        {
            if p == align {
                return Some(Align(e));
            }
            proof {
                lemma2_to64();
                vstd::arithmetic::power2::lemma_pow2_unfold((e + 1) as nat);
            }
            p = p * 2;
            e = e + 1;
        }
        if p == align {
            return Some(Align(e));
        }
        proof {
            lemma2_to64();
            assert forall|k: nat| pow2(k) != align by {
                if k > 16 {
                    lemma_pow2_strictly_increases(16, k);
                }
            }
        }
        None
    }

    /// The alignment in bytes.
    pub fn get(self) -> (v: UAddr)
        ensures
            v == self.value(),
            v >= 1,
    {
        proof {
            use_type_invariant(&self);
            lemma2_to64();
        }
        let e = self.0;
        if e == 0 {
            1
        } else if e == 1 {
            2
        } else if e == 2 {
            4
        } else if e == 3 {
            8
        } else if e == 4 {
            16
        } else if e == 5 {
            32
        } else if e == 6 {
            64
        } else if e == 7 {
            128
        } else if e == 8 {
            256
        } else if e == 9 {
            512
        } else if e == 10 {
            1024
        } else if e == 11 {
            2048
        } else if e == 12 {
            4096
        } else if e == 13 {
            8192
        } else if e == 14 {
            16384
        } else {
            32768
        }
    }
}

/// An alignment is never zero.
pub proof fn lemma_align_positive(a: Align)
    ensures
        a.value() >= 1,
{
    lemma_pow2_pos(a.exp());
}

/// Two alignments of the same number of bytes are the same.
pub proof fn lemma_align_value_injective(a: Align, b: Align)
    requires
        a.value() == b.value(),
    ensures
        a == b,
{
    if a.exp() < b.exp() {
        lemma_pow2_strictly_increases(a.exp(), b.exp());
    }
    if b.exp() < a.exp() {
        lemma_pow2_strictly_increases(b.exp(), a.exp());
    }
}

/// Size and alignment of a value in memory.
#[derive(Clone, Copy, Debug, PartialEq, Eq, Structural)]
pub struct Layout {
    pub size: UAddr,
    pub align: Align,
}

/// The least multiple of `align` that is at least `offset`.
pub open spec fn align_up_spec(offset: nat, align: nat) -> nat {
    if align == 0 {
        offset
    } else if offset % align == 0 {
        offset
    } else {
        (offset + align - offset % align) as nat
    }
}

/// `align_up_spec` gives a multiple of the alignment that is not below the
/// offset and less than one alignment above it.
pub proof fn lemma_align_up(offset: nat, align: nat)
    requires
        align > 0,
    ensures
        align_up_spec(offset, align) % align == 0,
        offset <= align_up_spec(offset, align) < offset + align,
{
    let r = offset % align;
    let up = align_up_spec(offset, align);
    vstd::arithmetic::div_mod::lemma_fundamental_div_mod(offset as int, align as int);
    let q = offset as int / align as int;
    if r != 0 {
        assert(up == align * (q + 1)) by (nonlinear_arith)
            requires
                offset == align * q + r,
                up == offset + align - r,
        ;
        vstd::arithmetic::div_mod::lemma_mod_multiples_basic(q + 1, align as int);
        assert((align * (q + 1)) % (align as int) == 0) by (nonlinear_arith)
            requires
                ((q + 1) * align) % (align as int) == 0,
        ;
    }
}

/// No multiple of the alignment lies between the offset and
/// `align_up_spec` of it.
pub proof fn lemma_align_up_least(offset: nat, align: nat, m: nat)
    requires
        align > 0,
        m % align == 0,
        m >= offset,
    ensures
        m >= align_up_spec(offset, align),
{
    let r = offset % align;
    let up = align_up_spec(offset, align);
    vstd::arithmetic::div_mod::lemma_fundamental_div_mod(offset as int, align as int);
    let q = offset as int / align as int;
    if r != 0 && m < up {
        vstd::arithmetic::div_mod::lemma_fundamental_div_mod(m as int, align as int);
        let k = m as int / align as int;
        assert(m == align * k);
        assert(false) by (nonlinear_arith)
            requires
                m == align * k,
                offset == align * q + r,
                0 < r < align,
                offset <= m < offset + align - r,
        ;
    }
}

/// Where a field lands and where the cursor stands after it.
pub struct FieldStep {
    pub field_offset: UAddr,
    pub cur_offset: UAddr,
}

impl FieldStep {
    /// Places a field at the cursor: the cursor is first bumped to the
    /// field's alignment, and the field's size is then added to it.
    pub fn new(field: Layout, cur_offset: UAddr) -> (step: FieldStep)
        requires
            align_up_spec(cur_offset as nat, field.align.value()) + field.size <= UAddr::MAX,
        ensures
            step.field_offset == align_up_spec(cur_offset as nat, field.align.value()),
            step.cur_offset == step.field_offset + field.size,
    {
        let align = field.align.get();
        let rem = cur_offset % align;
        let field_offset = if rem == 0 {
            cur_offset
        } else {
            cur_offset + (align - rem)
        };
        FieldStep { field_offset, cur_offset: field_offset + field.size }
    }
}

/// The offset of field `i` in a struct of the given fields.
pub open spec fn field_offset_spec(fields: Seq<Layout>, i: int) -> nat
    decreases i, 1int,
{
    if i < 0 {
        0
    } else {
        align_up_spec(end_offset_spec(fields, i), fields[i].align.value())
    }
}

/// The cursor after the first `n` fields have been placed.
pub open spec fn end_offset_spec(fields: Seq<Layout>, n: int) -> nat
    decreases n, 0int,
{
    if n <= 0 {
        0
    } else {
        field_offset_spec(fields, n - 1) + fields[n - 1].size as nat
    }
}

/// The greatest alignment among the first `n` fields, at least one byte.
pub open spec fn max_align_spec(fields: Seq<Layout>, n: int) -> nat
    decreases n,
{
    if n <= 0 {
        1
    } else {
        let rest = max_align_spec(fields, n - 1);
        let here = fields[n - 1].align.value();
        if here > rest {
            here
        } else {
            rest
        }
    }
}

/// The cursor never moves back.
pub proof fn lemma_end_offset_monotone(fields: Seq<Layout>, i: int, j: int)
    requires
        0 <= i <= j <= fields.len(),
    ensures
        end_offset_spec(fields, i) <= end_offset_spec(fields, j),
    decreases j - i,
{
    if i < j {
        lemma_end_offset_monotone(fields, i, j - 1);
        lemma_align_positive(fields[j - 1].align);
        lemma_align_up(end_offset_spec(fields, j - 1), fields[j - 1].align.value());
    }
}

/// The layout of a struct whose fields have the given layouts, in order:
/// each field is placed at the cursor bumped to its alignment, the size is
/// the cursor after the last field, and the alignment is the greatest of
/// the fields' alignments.
pub fn layout(fields: &[Layout]) -> (l: Layout)
    requires
        end_offset_spec(fields@, fields@.len() as int) <= UAddr::MAX,
    ensures
        l.size == end_offset_spec(fields@, fields@.len() as int),
        l.align.value() == max_align_spec(fields@, fields@.len() as int),
{
    let mut align = Align::min();
    let mut offset: UAddr = 0;
    let mut idx: usize = 0;
    while idx < fields.len()
        invariant
            idx <= fields@.len(),
            offset == end_offset_spec(fields@, idx as int),
            align.value() == max_align_spec(fields@, idx as int),
            end_offset_spec(fields@, fields@.len() as int) <= UAddr::MAX,
        decreases fields@.len() - idx,
    {
        let field = fields[idx];
        proof {
            lemma_end_offset_monotone(fields@, idx as int + 1, fields@.len() as int);
        }
        offset = FieldStep::new(field, offset).cur_offset;
        if field.align.get() > align.get() {
            align = field.align;
        }
        idx = idx + 1;
    }
    Layout { size: offset, align }
}

/// The number of granule boundaries that a span of `size` bytes at `addr`
/// crosses: the index of its last granule, counted from its first.
pub open spec fn gran_span_spec(addr: Address, size: UAddr) -> nat {
    if size == 0 {
        0
    } else {
        ((addr.0 as int + size as int - 1) / 8 - addr.0 as int / 8) as nat
    }
}

/// Returns the index of the last granule in the given address span,
/// counted from the granule that holds `addr`.
pub fn gran_span(addr: Address, size: UAddr) -> (span: usize)
    requires
        addr.0 as nat + size as nat <= UAddr::MAX as nat + 1,
    ensures
        span == gran_span_spec(addr, size),
        span <= size / 8 + 1,
{
    if size == 0 {
        return 0;
    }
    let last: UAddr = addr.get() + (size - 1);
    let first_gran: UAddr = addr.get() / 8;
    let last_gran: UAddr = last / 8;
    (last_gran - first_gran) as usize
}

/// Whether a value of the given layout at `addr` can be read from or
/// written to `len` bytes at `pos`, with its tags at `tpos` among `n_tags`.
pub open spec fn span_fits(
    layout: Layout,
    len: nat,
    pos: nat,
    addr: Address,
    n_tags: nat,
    tpos: nat,
) -> bool {
    &&& pos + layout.size <= len
    &&& addr.0 + layout.size <= 0x1_0000
    &&& tpos + gran_span_spec(addr, layout.size) + 1 <= n_tags
}

/// The tags of the granules that a value of the given size at `addr`
/// touches, the first of them standing at `tpos`.
pub open spec fn tags_of(tags: Seq<bool>, tpos: int, addr: Address, size: UAddr) -> Seq<bool> {
    tags.subrange(tpos, tpos + gran_span_spec(addr, size) + 1)
}

/// A value with a fixed layout that can be read from and written to bytes
/// and the tags of the granules that the bytes touch.
pub trait Ty: Sized + Copy {
    /// Size and alignment of the type.
    spec fn layout_spec() -> Layout;

    /// The value that `bytes` at `addr` stand for, given the tags of the
    /// granules they touch, or why they stand for none.
    spec fn read_spec(bytes: Seq<u8>, addr: Address, tags: Seq<bool>) -> Result<Self, Exception>;

    /// The bytes that a write of the value over `bytes` at `addr` leaves.
    spec fn write_bytes_spec(self, bytes: Seq<u8>, addr: Address) -> Seq<u8>;

    /// The tags that a write of the value at `addr` leaves in place of
    /// `tags`, the tags of the granules touched.
    spec fn write_tags_spec(self, addr: Address, tags: Seq<bool>) -> Seq<bool>;

    /// A write changes neither the number of bytes nor that of tags.
    proof fn lemma_write_len(self, bytes: Seq<u8>, addr: Address, tags: Seq<bool>)
        requires
            bytes.len() == Self::layout_spec().size,
            addr.0 + Self::layout_spec().size <= 0x1_0000,
            tags.len() == gran_span_spec(addr, Self::layout_spec().size) + 1,
        ensures
            self.write_bytes_spec(bytes, addr).len() == bytes.len(),
            self.write_tags_spec(addr, tags).len() == tags.len(),
    ;

    /// Size and alignment of the type.
    fn layout() -> (l: Layout)
        ensures
            l == Self::layout_spec(),
    ;

    /// Reads a value from `src`, whose first byte has the address `addr`.
    /// The tag of the granule of `addr` stands at `tpos` in `tags`.
    fn read(src: &[u8], addr: Address, tags: &TagBits, tpos: usize) -> (r: Result<Self, Exception>)
        requires
            src@.len() == Self::layout_spec().size,
            span_fits(Self::layout_spec(), src@.len(), 0, addr, tags@.len(), tpos as nat),
        ensures
            r == Self::read_spec(
                src@,
                addr,
                tags_of(tags@, tpos as int, addr, Self::layout_spec().size),
            ),
    ;

    /// Writes the value into `dst` at `pos`, a byte with the address
    /// `addr`, and sets the tags of the granules touched. The tag of the
    /// granule of `addr` stands at `tpos` in `tags`.
    fn write(self, dst: &mut Vec<u8>, pos: usize, addr: Address, tags: &mut TagBits, tpos: usize) -> (r:
        Result<(), Exception>)
        requires
            span_fits(
                Self::layout_spec(),
                old(dst)@.len(),
                pos as nat,
                addr,
                old(tags)@.len(),
                tpos as nat,
            ),
        ensures
            r is Ok,
            final(dst)@ == splice(
                old(dst)@,
                pos as int,
                self.write_bytes_spec(
                    old(dst)@.subrange(pos as int, pos + Self::layout_spec().size),
                    addr,
                ),
            ),
            final(tags)@ == splice(
                old(tags)@,
                tpos as int,
                self.write_tags_spec(
                    addr,
                    tags_of(old(tags)@, tpos as int, addr, Self::layout_spec().size),
                ),
            ),
    ;
}

} // verus!

//! The layout and byte representation of addresses, capabilities and
//! their parts, and of alignments and layouts themselves.

use vstd::prelude::*;
use crate::abi::core_impls::{cleared, clear_tags, int_layout, int_layout_spec};
use crate::abi::structs::{read_field, write_field_bytes, write_field_tags, StructMut, StructRef};
use crate::abi::{
    end_offset_spec, field_offset_spec, layout, lemma_align_value_injective, max_align_spec,
    tags_of, Align, Layout, Ty,
};
use crate::bits::TagBits;
use crate::capability::{cap_decode, cap_encode, Address, Capability, OType, Permissions, TaggedCapability};
use crate::endian::{
    le_bytes, le_value, lemma_le_bytes_len, lemma_le_value_bound, lemma_pow256_values, read_le,
    splice, write_le,
};
use crate::exception::Exception;
use crate::ints::{UAddr, UGran};

verus! {

impl Ty for Address {
    open spec fn layout_spec() -> Layout {
        int_layout_spec(2)
    }

    open spec fn read_spec(bytes: Seq<u8>, addr: Address, tags: Seq<bool>) -> Result<Self, Exception> {
        Ok(Address(le_value(bytes) as UAddr))
    }

    open spec fn write_bytes_spec(self, bytes: Seq<u8>, addr: Address) -> Seq<u8> {
        le_bytes(self.0 as nat, 2)
    }

    open spec fn write_tags_spec(self, addr: Address, tags: Seq<bool>) -> Seq<bool> {
        cleared(tags)
    }

    proof fn lemma_write_len(self, bytes: Seq<u8>, addr: Address, tags: Seq<bool>) {
        lemma_le_bytes_len(self.0 as nat, 2);
    }

    fn layout() -> (l: Layout) {
        int_layout(2)
    }

    fn read(src: &[u8], addr: Address, tags: &TagBits, tpos: usize) -> (r: Result<Self, Exception>) {
        proof {
            lemma_le_value_bound(src@);
            lemma_pow256_values();
        }
        Ok(Address(read_le(src) as UAddr))
    }

    fn write(self, dst: &mut Vec<u8>, pos: usize, addr: Address, tags: &mut TagBits, tpos: usize) -> (r:
        Result<(), Exception>) {
        clear_tags(tags, tpos, addr, 2);
        write_le(self.0 as u64, 2, dst, pos);
        Ok(())
    }
}

impl Ty for OType {
    open spec fn layout_spec() -> Layout {
        int_layout_spec(1)
    }

    open spec fn read_spec(bytes: Seq<u8>, addr: Address, tags: Seq<bool>) -> Result<Self, Exception> {
        Ok(OType(le_value(bytes) as u8))
    }

    open spec fn write_bytes_spec(self, bytes: Seq<u8>, addr: Address) -> Seq<u8> {
        le_bytes(self.0 as nat, 1)
    }

    open spec fn write_tags_spec(self, addr: Address, tags: Seq<bool>) -> Seq<bool> {
        cleared(tags)
    }

    proof fn lemma_write_len(self, bytes: Seq<u8>, addr: Address, tags: Seq<bool>) {
        lemma_le_bytes_len(self.0 as nat, 1);
    }

    fn layout() -> (l: Layout) {
        int_layout(1)
    }

    fn read(src: &[u8], addr: Address, tags: &TagBits, tpos: usize) -> (r: Result<Self, Exception>) {
        proof {
            lemma_le_value_bound(src@);
            lemma_pow256_values();
        }
        Ok(OType(read_le(src) as u8))
    }

    fn write(self, dst: &mut Vec<u8>, pos: usize, addr: Address, tags: &mut TagBits, tpos: usize) -> (r:
        Result<(), Exception>) {
        clear_tags(tags, tpos, addr, 1);
        write_le(self.0 as u64, 1, dst, pos);
        Ok(())
    }
}

impl Ty for Permissions {
    open spec fn layout_spec() -> Layout {
        int_layout_spec(1)
    }

    /// Bits that stand for no permission are dropped.
    open spec fn read_spec(bytes: Seq<u8>, addr: Address, tags: Seq<bool>) -> Result<Self, Exception> {
        Ok(Permissions { bits: (le_value(bytes) as u8) & 0x1F })
    }

    open spec fn write_bytes_spec(self, bytes: Seq<u8>, addr: Address) -> Seq<u8> {
        le_bytes(self.bits as nat, 1)
    }

    open spec fn write_tags_spec(self, addr: Address, tags: Seq<bool>) -> Seq<bool> {
        cleared(tags)
    }

    proof fn lemma_write_len(self, bytes: Seq<u8>, addr: Address, tags: Seq<bool>) {
        lemma_le_bytes_len(self.bits as nat, 1);
    }

    fn layout() -> (l: Layout) {
        int_layout(1)
    }

    fn read(src: &[u8], addr: Address, tags: &TagBits, tpos: usize) -> (r: Result<Self, Exception>) {
        proof {
            lemma_le_value_bound(src@);
            lemma_pow256_values();
        }
        Ok(Permissions::from_bits_truncate(read_le(src) as u8))
    }

    fn write(self, dst: &mut Vec<u8>, pos: usize, addr: Address, tags: &mut TagBits, tpos: usize) -> (r:
        Result<(), Exception>) {
        clear_tags(tags, tpos, addr, 1);
        write_le(self.bits as u64, 1, dst, pos);
        Ok(())
    }
}

impl Ty for Align {
    open spec fn layout_spec() -> Layout {
        int_layout_spec(1)
    }

    /// The byte holds the exponent; only the bits of an exponent that an
    /// address can hold are read.
    open spec fn read_spec(bytes: Seq<u8>, addr: Address, tags: Seq<bool>) -> Result<Self, Exception> {
        Ok(Align::from_exp_spec((le_value(bytes) as u8) & 0x0F))
    }

    open spec fn write_bytes_spec(self, bytes: Seq<u8>, addr: Address) -> Seq<u8> {
        le_bytes(self.exp(), 1)
    }

    open spec fn write_tags_spec(self, addr: Address, tags: Seq<bool>) -> Seq<bool> {
        cleared(tags)
    }

    proof fn lemma_write_len(self, bytes: Seq<u8>, addr: Address, tags: Seq<bool>) {
        lemma_le_bytes_len(self.exp(), 1);
    }

    fn layout() -> (l: Layout) {
        int_layout(1)
    }

    fn read(src: &[u8], addr: Address, tags: &TagBits, tpos: usize) -> (r: Result<Self, Exception>) {
        proof {
            lemma_le_value_bound(src@);
            lemma_pow256_values();
        }
        let repr = read_le(src) as u8;
        let exp = repr & 0x0F;
        proof {
            assert(repr & 0x0F < 16) by (bit_vector);
        }
        Ok(Align::from_exp(exp))
    }

    fn write(self, dst: &mut Vec<u8>, pos: usize, addr: Address, tags: &mut TagBits, tpos: usize) -> (r:
        Result<(), Exception>) {
        clear_tags(tags, tpos, addr, 1);
        write_le(self.log2() as u64, 1, dst, pos);
        Ok(())
    }
}

impl Ty for Capability {
    open spec fn layout_spec() -> Layout {
        int_layout_spec(8)
    }

    open spec fn read_spec(bytes: Seq<u8>, addr: Address, tags: Seq<bool>) -> Result<Self, Exception> {
        Ok(cap_decode(le_value(bytes) as UGran))
    }

    open spec fn write_bytes_spec(self, bytes: Seq<u8>, addr: Address) -> Seq<u8> {
        le_bytes(cap_encode(self) as nat, 8)
    }

    open spec fn write_tags_spec(self, addr: Address, tags: Seq<bool>) -> Seq<bool> {
        cleared(tags)
    }

    proof fn lemma_write_len(self, bytes: Seq<u8>, addr: Address, tags: Seq<bool>) {
        lemma_le_bytes_len(cap_encode(self) as nat, 8);
    }

    fn layout() -> (l: Layout) {
        int_layout(8)
    }

    fn read(src: &[u8], addr: Address, tags: &TagBits, tpos: usize) -> (r: Result<Self, Exception>) {
        Ok(Capability::from_ugran(read_le(src)))
    }

    fn write(self, dst: &mut Vec<u8>, pos: usize, addr: Address, tags: &mut TagBits, tpos: usize) -> (r:
        Result<(), Exception>) {
        clear_tags(tags, tpos, addr, 8);
        write_le(self.to_ugran(), 8, dst, pos);
        Ok(())
    }
}

/// The layout of a tagged capability: one grain, aligned to a grain.
pub open spec fn tagged_layout_spec() -> Layout {
    Layout { size: 8, align: Align::from_exp_spec(3) }
}

impl Ty for TaggedCapability {
    open spec fn layout_spec() -> Layout {
        tagged_layout_spec()
    }

    /// The grain is the capability; the tag of its first granule is the
    /// validity.
    open spec fn read_spec(bytes: Seq<u8>, addr: Address, tags: Seq<bool>) -> Result<Self, Exception> {
        Ok(TaggedCapability { capa: cap_decode(le_value(bytes) as UGran), valid: tags[0] })
    }

    open spec fn write_bytes_spec(self, bytes: Seq<u8>, addr: Address) -> Seq<u8> {
        le_bytes(cap_encode(self.capa) as nat, 8)
    }

    /// The tag of the first granule becomes the validity; any other tag
    /// touched is cleared.
    open spec fn write_tags_spec(self, addr: Address, tags: Seq<bool>) -> Seq<bool> {
        cleared(tags).update(0, self.valid)
    }

    proof fn lemma_write_len(self, bytes: Seq<u8>, addr: Address, tags: Seq<bool>) {
        lemma_le_bytes_len(cap_encode(self.capa) as nat, 8);
    }

    fn layout() -> (l: Layout) {
        Layout { size: 8, align: Align::from_exp(3) }
    }

    fn read(src: &[u8], addr: Address, tags: &TagBits, tpos: usize) -> (r: Result<Self, Exception>) {
        let capa = Capability::from_ugran(read_le(src));
        let valid = tags.get(tpos);
        Ok(TaggedCapability::new(capa, valid))
    }

    fn write(self, dst: &mut Vec<u8>, pos: usize, addr: Address, tags: &mut TagBits, tpos: usize) -> (r:
        Result<(), Exception>) {
        clear_tags(tags, tpos, addr, 8);
        write_le(self.capa.to_ugran(), 8, dst, pos);
        tags.set(tpos, self.valid);
        proof {
            let before = tags_of(old(tags)@, tpos as int, addr, 8);
            assert(tags@ =~= splice(old(tags)@, tpos as int, cleared(before).update(0, self.valid)));
        }
        Ok(())
    }
}

/// The fields of a layout in memory: the size, then the alignment.
pub open spec fn layout_fields_spec() -> Seq<Layout> {
    seq![int_layout_spec(2), int_layout_spec(1)]
}

/// The fields of a layout in memory: the size, then the alignment.
pub fn layout_fields() -> (f: Vec<Layout>)
    ensures
        f@ == layout_fields_spec(),
{
    let mut f: Vec<Layout> = Vec::new();
    f.push(int_layout(2));
    f.push(int_layout(1));
    proof {
        assert(f@ =~= layout_fields_spec());
    }
    f
}

/// Where the fields of a layout lie.
pub proof fn lemma_layout_fields()
    ensures
        field_offset_spec(layout_fields_spec(), 0) == 0,
        field_offset_spec(layout_fields_spec(), 1) == 2,
        end_offset_spec(layout_fields_spec(), 2) == 3,
        max_align_spec(layout_fields_spec(), 2) == 1,
{
    reveal_with_fuel(field_offset_spec, 3);
    reveal_with_fuel(end_offset_spec, 3);
    reveal_with_fuel(max_align_spec, 3);
    vstd::arithmetic::power2::lemma2_to64();
}

impl Ty for Layout {
    open spec fn layout_spec() -> Layout {
        int_layout_spec(3)
    }

    open spec fn read_spec(bytes: Seq<u8>, addr: Address, tags: Seq<bool>) -> Result<Self, Exception> {
        match read_field::<UAddr>(bytes, addr, tags, 0) {
            Ok(size) => match read_field::<Align>(bytes, addr, tags, 2) {
                Ok(align) => Ok(Layout { size, align }),
                Err(e) => Err(e),
            },
            Err(e) => Err(e),
        }
    }

    open spec fn write_bytes_spec(self, bytes: Seq<u8>, addr: Address) -> Seq<u8> {
        write_field_bytes(self.align, write_field_bytes(self.size, bytes, addr, 0), addr, 2)
    }

    open spec fn write_tags_spec(self, addr: Address, tags: Seq<bool>) -> Seq<bool> {
        write_field_tags(self.align, addr, write_field_tags(self.size, addr, tags, 0), 2)
    }

    proof fn lemma_write_len(self, bytes: Seq<u8>, addr: Address, tags: Seq<bool>) {
        lemma_le_bytes_len(self.size as nat, 2);
        lemma_le_bytes_len(self.align.exp(), 1);
    }

    fn layout() -> (l: Layout) {
        let fields = layout_fields();
        proof {
            lemma_layout_fields();
        }
        let l = layout(fields.as_slice());
        proof {
            vstd::arithmetic::power2::lemma2_to64();
            lemma_align_value_injective(l.align, Align::min_spec());
        }
        l
    }

    fn read(src: &[u8], addr: Address, tags: &TagBits, tpos: usize) -> (r: Result<Self, Exception>) {
        let fields = layout_fields();
        proof {
            lemma_layout_fields();
        }
        let mut walker = StructRef::new(src, addr, tags, tpos, fields.as_slice());
        let size = match walker.read_next::<UAddr>() {
            Ok(v) => v,
            Err(e) => {
                return Err(e);
            },
        };
        let align = match walker.read_next::<Align>() {
            Ok(v) => v,
            Err(e) => {
                return Err(e);
            },
        };
        Ok(Layout { size, align })
    }

    fn write(self, dst: &mut Vec<u8>, pos: usize, addr: Address, tags: &mut TagBits, tpos: usize) -> (r:
        Result<(), Exception>) {
        let fields = layout_fields();
        proof {
            lemma_layout_fields();
        }
        let mut walker = StructMut::new(pos, addr, tpos, fields.as_slice());
        let ghost bytes0 = dst@.subrange(pos as int, pos + 3);
        let ghost tags0 = tags_of(tags@, tpos as int, addr, 3);
        let _ = walker.write_next(self.size, dst, tags);
        proof {
            let b1 = write_field_bytes(self.size, bytes0, addr, 0);
            let t1 = write_field_tags(self.size, addr, tags0, 0);
            assert(dst@.subrange(pos as int, pos + 3) =~= b1);
            assert(tags_of(tags@, tpos as int, addr, 3) =~= t1);
        }
        let _ = walker.write_next(self.align, dst, tags);
        proof {
            let b1 = write_field_bytes(self.size, bytes0, addr, 0);
            let t1 = write_field_tags(self.size, addr, tags0, 0);
            assert(dst@ =~= splice(old(dst)@, pos as int, write_field_bytes(self.align, b1, addr, 2)));
            assert(tags@ =~= splice(
                old(tags)@,
                tpos as int,
                write_field_tags(self.align, addr, t1, 2),
            ));
        }
        Ok(())
    }
}

} // verus!

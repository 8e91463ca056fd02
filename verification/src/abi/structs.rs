//! Walking the fields of a struct in memory.

use vstd::prelude::*;
use vstd::slice::slice_subrange;
use crate::abi::{
    end_offset_spec, field_offset_spec, gran_span_spec, lemma_end_offset_monotone, tags_of,
    FieldStep, Layout, Ty,
};
use crate::bits::TagBits;
use crate::capability::Address;
use crate::endian::{lemma_splice_nested, splice};
use crate::exception::Exception;
use crate::ints::UAddr;

verus! {

/// The address of the field at `off` in a struct at `addr`.
pub open spec fn field_addr(addr: Address, off: nat) -> Address {
    Address((addr.0 + off) as UAddr)
}

/// The place, among the tags of a struct at `addr`, of the tag of the
/// granule that holds the field at `off`.
pub open spec fn field_tag(addr: Address, off: nat) -> nat {
    ((addr.0 + off) / 8 - addr.0 / 8) as nat
}

/// The value of the field at `off`, read from the bytes and tags of a
/// struct at `addr`.
pub open spec fn read_field<T: Ty>(bytes: Seq<u8>, addr: Address, tags: Seq<bool>, off: nat)
    -> Result<T, Exception> {
    T::read_spec(
        bytes.subrange(off as int, off + T::layout_spec().size),
        field_addr(addr, off),
        tags_of(tags, field_tag(addr, off) as int, field_addr(addr, off), T::layout_spec().size),
    )
}

/// The bytes of a struct at `addr` after `v` has been written to the field
/// at `off`.
pub open spec fn write_field_bytes<T: Ty>(v: T, bytes: Seq<u8>, addr: Address, off: nat) -> Seq<u8> {
    splice(
        bytes,
        off as int,
        v.write_bytes_spec(
            bytes.subrange(off as int, off + T::layout_spec().size),
            field_addr(addr, off),
        ),
    )
}

/// The tags of a struct at `addr` after `v` has been written to the field
/// at `off`.
pub open spec fn write_field_tags<T: Ty>(v: T, addr: Address, tags: Seq<bool>, off: nat) -> Seq<
    bool,
> {
    splice(
        tags,
        field_tag(addr, off) as int,
        v.write_tags_spec(
            field_addr(addr, off),
            tags_of(
                tags,
                field_tag(addr, off) as int,
                field_addr(addr, off),
                T::layout_spec().size,
            ),
        ),
    )
}

/// A field of a struct touches no granule that the struct does not.
pub proof fn lemma_field_tags_within(addr: Address, size: UAddr, off: nat, fsize: UAddr)
    requires
        fsize > 0,
        off + fsize <= size,
        addr.0 + size <= 0x1_0000,
    ensures
        field_tag(addr, off) + gran_span_spec(field_addr(addr, off), fsize) + 1 <= gran_span_spec(
            addr,
            size,
        ) + 1,
        field_addr(addr, off).0 == addr.0 + off,
{
}

/// The cursor over the fields of a struct: which field comes next, and
/// where the one before it ended.
#[derive(Debug)]
pub struct StructLogic<'fields> {
    pub fields: &'fields [Layout],
    pub idx: usize,
    pub cur_offset: UAddr,
}

impl<'fields> StructLogic<'fields> {
    /// Whether the cursor stands where the fields before it end.
    pub open spec fn wf(self) -> bool {
        &&& self.idx <= self.fields@.len()
        &&& self.cur_offset == end_offset_spec(self.fields@, self.idx as int)
        &&& end_offset_spec(self.fields@, self.fields@.len() as int) <= UAddr::MAX
    }

    /// A cursor before the first field.
    pub fn new(fields: &'fields [Layout]) -> (logic: Self)
        requires
            end_offset_spec(fields@, fields@.len() as int) <= UAddr::MAX,
        ensures
            logic.wf(),
            logic.fields@ == fields@,
            logic.idx == 0,
    {
        StructLogic { fields, idx: 0, cur_offset: 0 }
    }

    /// The layout and the offset of the next field, if there is one.
    pub fn next(&mut self) -> (r: Option<(Layout, UAddr)>)
        requires
            old(self).wf(),
        ensures
            final(self).wf(),
            final(self).fields@ == old(self).fields@,
            match r {
                Some((layout, offset)) => {
                    &&& old(self).idx < old(self).fields@.len()
                    &&& final(self).idx == old(self).idx + 1
                    &&& layout == old(self).fields@[old(self).idx as int]
                    &&& offset == field_offset_spec(old(self).fields@, old(self).idx as int)
                    &&& offset + layout.size <= end_offset_spec(
                        old(self).fields@,
                        old(self).fields@.len() as int,
                    )
                },
                None => old(self).idx == old(self).fields@.len() && final(self).idx == old(
                    self,
                ).idx,
            },
    {
        if self.idx >= self.fields.len() {
            return None;
        }
        let field = self.fields[self.idx];
        proof {
            lemma_end_offset_monotone(
                self.fields@,
                self.idx as int + 1,
                self.fields@.len() as int,
            );
        }
        let step = FieldStep::new(field, self.cur_offset);
        self.cur_offset = step.cur_offset;
        self.idx = self.idx + 1;
        Some((field, step.field_offset))
    }
}

/// Reads the fields of a struct, one after the other.
pub struct StructRef<'fields, 'src, 'valid> {
    pub logic: StructLogic<'fields>,
    pub src: &'src [u8],
    pub addr: Address,
    pub valid: &'valid TagBits,
    pub tpos: usize,
}

impl<'fields, 'src, 'valid> StructRef<'fields, 'src, 'valid> {
    /// The size of the whole struct.
    pub open spec fn size(self) -> nat {
        end_offset_spec(self.logic.fields@, self.logic.fields@.len() as int)
    }

    /// Whether the bytes and tags are those of one struct of the fields.
    pub open spec fn wf(self) -> bool {
        &&& self.logic.wf()
        &&& self.src@.len() == self.size()
        &&& self.addr.0 + self.size() <= 0x1_0000
        &&& self.tpos + gran_span_spec(self.addr, self.size() as UAddr) + 1 <= self.valid@.len()
    }

    /// The tags of the granules that the struct touches.
    pub open spec fn tags(self) -> Seq<bool> {
        tags_of(self.valid@, self.tpos as int, self.addr, self.size() as UAddr)
    }

    /// A reader before the first field of a struct at `addr`, whose bytes
    /// are `src`; the tag of its first granule stands at `tpos` in `valid`.
    pub fn new(
        src: &'src [u8],
        addr: Address,
        valid: &'valid TagBits,
        tpos: usize,
        fields: &'fields [Layout],
    ) -> (r: Self)
        requires
            end_offset_spec(fields@, fields@.len() as int) <= UAddr::MAX,
            src@.len() == end_offset_spec(fields@, fields@.len() as int),
            addr.0 + src@.len() <= 0x1_0000,
            tpos + gran_span_spec(addr, src@.len() as UAddr) + 1 <= valid@.len(),
        ensures
            r.wf(),
            r.logic.idx == 0,
            r.logic.fields@ == fields@,
            r.src@ == src@,
            r.addr == addr,
            r.valid@ == valid@,
            r.tpos == tpos,
    {
        StructRef { logic: StructLogic::new(fields), src, addr, valid, tpos }
    }

    /// Reads the next field, which must be of the type `T`.
    pub fn read_next<T: Ty>(&mut self) -> (r: Result<T, Exception>)
        requires
            old(self).wf(),
            old(self).logic.idx < old(self).logic.fields@.len(),
            old(self).logic.fields@[old(self).logic.idx as int] == T::layout_spec(),
            T::layout_spec().size > 0,
        ensures
            final(self).wf(),
            final(self).logic.idx == old(self).logic.idx + 1,
            final(self).logic.fields@ == old(self).logic.fields@,
            final(self).src@ == old(self).src@,
            final(self).addr == old(self).addr,
            final(self).valid@ == old(self).valid@,
            final(self).tpos == old(self).tpos,
            r == read_field::<T>(
                old(self).src@,
                old(self).addr,
                old(self).tags(),
                field_offset_spec(old(self).logic.fields@, old(self).logic.idx as int),
            ),
    {
        let ghost size = self.size();
        let step = self.logic.next();
        let (layout, offset) = step.unwrap();
        proof {
            lemma_field_tags_within(self.addr, size as UAddr, offset as nat, layout.size);
        }
        let src = slice_subrange(self.src, offset as usize, offset as usize + layout.size as usize);
        let addr = Address(self.addr.0 + offset);
        let shift: UAddr = addr.0 / 8 - self.addr.0 / 8;
        let n_tags = self.valid.len();
        let tpos = self.tpos + shift as usize;
        proof {
            let ftags = tags_of(
                self.tags(),
                field_tag(self.addr, offset as nat) as int,
                addr,
                layout.size,
            );
            assert(ftags =~= tags_of(self.valid@, tpos as int, addr, layout.size));
        }
        T::read(src, addr, self.valid, tpos)
    }
}

/// Writes the fields of a struct, one after the other.
#[derive(Debug)]
pub struct StructMut<'fields> {
    pub logic: StructLogic<'fields>,
    pub pos: usize,
    pub addr: Address,
    pub tpos: usize,
}

impl<'fields> StructMut<'fields> {
    /// The size of the whole struct.
    pub open spec fn size(self) -> nat {
        end_offset_spec(self.logic.fields@, self.logic.fields@.len() as int)
    }

    /// Whether a struct of the fields fits at the writer's place in
    /// `len` bytes and `n_tags` tags.
    pub open spec fn wf(self, len: nat, n_tags: nat) -> bool {
        &&& self.logic.wf()
        &&& self.pos + self.size() <= len
        &&& self.addr.0 + self.size() <= 0x1_0000
        &&& self.tpos + gran_span_spec(self.addr, self.size() as UAddr) + 1 <= n_tags
    }

    /// A writer before the first field of a struct at `addr`, whose bytes
    /// start at `pos`; the tag of its first granule stands at `tpos`.
    pub fn new(pos: usize, addr: Address, tpos: usize, fields: &'fields [Layout]) -> (r: Self)
        requires
            end_offset_spec(fields@, fields@.len() as int) <= UAddr::MAX,
        ensures
            r.logic.wf(),
            r.logic.idx == 0,
            r.logic.fields@ == fields@,
            r.pos == pos,
            r.addr == addr,
            r.tpos == tpos,
    {
        StructMut { logic: StructLogic::new(fields), pos, addr, tpos }
    }

    /// Writes the next field, which must be of the type `T`, into `dst`
    /// and `valid`.
    pub fn write_next<T: Ty>(&mut self, src: T, dst: &mut Vec<u8>, valid: &mut TagBits) -> (r: Result<
        (),
        Exception,
    >)
        requires
            old(self).wf(old(dst)@.len(), old(valid)@.len()),
            old(self).logic.idx < old(self).logic.fields@.len(),
            old(self).logic.fields@[old(self).logic.idx as int] == T::layout_spec(),
            T::layout_spec().size > 0,
        ensures
            r is Ok,
            final(self).wf(final(dst)@.len(), final(valid)@.len()),
            final(self).logic.idx == old(self).logic.idx + 1,
            final(self).logic.fields@ == old(self).logic.fields@,
            final(self).pos == old(self).pos,
            final(self).addr == old(self).addr,
            final(self).tpos == old(self).tpos,
            final(dst)@ == splice(
                old(dst)@,
                old(self).pos as int,
                write_field_bytes(
                    src,
                    old(dst)@.subrange(old(self).pos as int, old(self).pos + old(self).size()),
                    old(self).addr,
                    field_offset_spec(old(self).logic.fields@, old(self).logic.idx as int),
                ),
            ),
            final(valid)@ == splice(
                old(valid)@,
                old(self).tpos as int,
                write_field_tags(
                    src,
                    old(self).addr,
                    tags_of(
                        old(valid)@,
                        old(self).tpos as int,
                        old(self).addr,
                        old(self).size() as UAddr,
                    ),
                    field_offset_spec(old(self).logic.fields@, old(self).logic.idx as int),
                ),
            ),
    {
        let ghost size = self.size();
        let ghost bytes0 = dst@;
        let ghost tags0 = valid@;
        let step = self.logic.next();
        let (layout, offset) = step.unwrap();
        proof {
            lemma_field_tags_within(self.addr, size as UAddr, offset as nat, layout.size);
        }
        let addr = Address(self.addr.0 + offset);
        let shift: UAddr = addr.0 / 8 - self.addr.0 / 8;
        let n_tags = valid.len();
        let n_bytes = dst.len();
        let tpos = self.tpos + shift as usize;
        let pos = self.pos + offset as usize;
        let r = src.write(dst, pos, addr, valid, tpos);
        proof {
            let sbytes = bytes0.subrange(self.pos as int, self.pos + size);
            let fbytes = bytes0.subrange(pos as int, pos + layout.size);
            assert(sbytes.subrange(offset as int, offset + layout.size) =~= fbytes);
            let stags = tags_of(tags0, self.tpos as int, self.addr, size as UAddr);
            let ftags = tags_of(tags0, tpos as int, addr, layout.size);
            assert(tags_of(stags, shift as int, addr, layout.size) =~= ftags);
            src.lemma_write_len(fbytes, addr, ftags);
            lemma_splice_nested(
                bytes0,
                self.pos as int,
                size as int,
                offset as int,
                src.write_bytes_spec(fbytes, addr),
            );
            lemma_splice_nested(
                tags0,
                self.tpos as int,
                (gran_span_spec(self.addr, size as UAddr) + 1) as int,
                shift as int,
                src.write_tags_spec(addr, ftags),
            );
        }
        r
    }
}

} // verus!

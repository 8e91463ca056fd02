//! The bump allocator.

use vstd::prelude::*;
use crate::abi::cap_impls::tagged_layout_spec;
use crate::abi::{align_up_spec, lemma_align_up, Layout, Ty};
use crate::allocator::{AllocErr, AllocErrKind, Header, Stats};
use crate::bits::TagBits;
use crate::capability::{Address, TaggedCapability};
use crate::exception::Exception;
use crate::ints::UAddr;

verus! {

/// The state of a bump allocator: a capability whose bounds are the region
/// it hands out and whose address is the first free byte.
#[derive(Clone, Copy, Debug, PartialEq, Eq, Structural)]
pub struct BumpAlloc {
    pub inner: TaggedCapability,
}

impl BumpAlloc {
    /// The allocator over `region`, with nothing handed out.
    pub open spec fn new_spec(region: TaggedCapability) -> BumpAlloc {
        BumpAlloc { inner: region.set_addr_spec(region.capa.start) }
    }

    /// The bytes between the first free byte and the end of the region.
    pub open spec fn bytes_free_spec(self) -> UAddr {
        if self.inner.capa.endb.0 >= self.inner.capa.addr.0 {
            (self.inner.capa.endb.0 - self.inner.capa.addr.0) as UAddr
        } else {
            0
        }
    }

    /// What the allocator reports of itself.
    pub open spec fn stat_spec(self, header: Header) -> Stats {
        Stats { strategy: header.strat, flags: header.flags, bytes_free: self.bytes_free_spec() }
    }

    /// The first byte of an allocation of the given layout: the first free
    /// byte, bumped to the alignment.
    pub open spec fn next_start(self, layout: Layout) -> nat {
        align_up_spec(self.inner.capa.addr.0 as nat, layout.align.value())
    }

    /// The byte after an allocation of the given layout.
    pub open spec fn next_end(self, layout: Layout) -> nat {
        self.next_start(layout) + layout.size as nat
    }

    /// The allocation of the given layout, where it can be made: the
    /// allocator's capability narrowed to the bytes handed out.
    pub open spec fn allocation(self, layout: Layout) -> TaggedCapability {
        self.inner.set_addr_spec(Address(self.next_start(layout) as UAddr)).set_bounds_spec(
            Address(self.next_start(layout) as UAddr),
            Address(self.next_end(layout) as UAddr),
        )
    }

    /// Why an allocation of the given layout fails, if it does: the
    /// allocator is full, or the allocation would not end within the
    /// region, or the allocator's capability does not allow it.
    pub open spec fn alloc_failure(self, layout: Layout) -> Option<AllocErrKind> {
        if self.inner.capa.addr == self.inner.capa.endb {
            Some(AllocErrKind::Oom)
        } else if self.next_end(layout) > self.inner.capa.endb.0 || !self.allocation(layout).valid {
            Some(AllocErrKind::NotEnoughMem)
        } else {
            None
        }
    }

    /// The allocator after an allocation of the given layout: the first
    /// free byte follows the allocation. A failed allocation changes
    /// nothing.
    pub open spec fn after_alloc(self, layout: Layout) -> BumpAlloc {
        if self.alloc_failure(layout) is None {
            BumpAlloc { inner: self.inner.set_addr_spec(Address(self.next_end(layout) as UAddr)) }
        } else {
            self
        }
    }

    /// The allocator with everything freed.
    pub open spec fn free_all_spec(self) -> BumpAlloc {
        BumpAlloc { inner: self.inner.set_addr_spec(self.inner.capa.start) }
    }

    /// The allocator over `region`, with nothing handed out.
    pub fn new(region: TaggedCapability) -> (b: BumpAlloc)
        ensures
            b == Self::new_spec(region),
    {
        BumpAlloc { inner: region.set_addr(region.start()) }
    }

    /// What the allocator reports of itself.
    pub fn stat(&self, header: Header) -> (s: Stats)
        ensures
            s == self.stat_spec(header),
    {
        Stats { strategy: header.strat, flags: header.flags, bytes_free: self.bytes_free() }
    }

    /// The bytes between the first free byte and the end of the region;
    /// none where the first free byte lies beyond the end.
    pub fn bytes_free(&self) -> (n: UAddr)
        ensures
            n == self.bytes_free_spec(),
    {
        let endb = self.inner.endb().get();
        let addr = self.inner.addr().get();
        if endb >= addr {
            endb - addr
        } else {
            0
        }
    }

    /// Hands out memory of the given layout: the first free byte is bumped
    /// to the alignment, and the allocation ends `size` bytes after it. A
    /// full allocator fails with `Oom`; an allocation that would end
    /// beyond the region fails with `NotEnoughMem`.
    pub fn allocate(&mut self, header: Header, layout: Layout) -> (r: Result<TaggedCapability, AllocErr>)
        ensures
            *final(self) == old(self).after_alloc(layout),
            r == match old(self).alloc_failure(layout) {
                Some(kind) => Err::<TaggedCapability, AllocErr>(
                    AllocErr { stats: old(self).stat_spec(header), requested: layout, kind },
                ),
                None => Ok::<TaggedCapability, AllocErr>(old(self).allocation(layout)),
            },
    {
        let stats = self.stat(header);
        if self.inner.addr().get() == self.inner.endb().get() {
            return Err(AllocErr { stats, requested: layout, kind: AllocErrKind::Oom });
        }
        let align = layout.align.get();
        let addr = self.inner.addr().get();
        let rem = addr % align;
        proof {
            lemma_align_up(addr as nat, align as nat);
        }
        let start: u32 = if rem == 0 {
            addr as u32
        } else {
            addr as u32 + (align - rem) as u32
        };
        let end: u32 = start + layout.size as u32;
        if end > self.inner.endb().get() as u32 {
            return Err(AllocErr { stats, requested: layout, kind: AllocErrKind::NotEnoughMem });
        }
        let ation = self.inner.set_addr(Address(start as UAddr)).set_bounds(
            Address(start as UAddr),
            Address(end as UAddr),
        );
        if ation.is_valid() {
            self.inner = self.inner.set_addr(ation.endb());
            Ok(ation)
        } else {
            Err(AllocErr { stats, requested: layout, kind: AllocErrKind::NotEnoughMem })
        }
    }

    /// Frees everything: the first free byte is the start of the region
    /// again.
    pub fn free_all(&mut self)
        ensures
            *final(self) == old(self).free_all_spec(),
    {
        self.inner = self.inner.set_addr(self.inner.start());
    }
}

/// Two allocations that one bump allocator makes, one after the other, do
/// not overlap: the second starts where the first ends, or after it.
pub proof fn lemma_bump_allocations_disjoint(bump: BumpAlloc, first: Layout, second: Layout)
    requires
        bump.alloc_failure(first) is None,
        bump.after_alloc(first).alloc_failure(second) is None,
    ensures
        bump.allocation(first).capa.start.0 <= bump.allocation(first).capa.endb.0,
        bump.allocation(first).capa.endb.0 <= bump.after_alloc(first).allocation(
            second,
        ).capa.start.0,
        bump.after_alloc(first).allocation(second).capa.start.0 <= bump.after_alloc(
            first,
        ).allocation(second).capa.endb.0,
        bump.after_alloc(first).allocation(second).capa.endb.0 <= bump.inner.capa.endb.0,
{
    crate::abi::lemma_align_positive(first.align);
    crate::abi::lemma_align_positive(second.align);
    lemma_align_up(bump.inner.capa.addr.0 as nat, first.align.value());
    lemma_align_up(bump.after_alloc(first).inner.capa.addr.0 as nat, second.align.value());
}

impl Ty for BumpAlloc {
    open spec fn layout_spec() -> Layout {
        tagged_layout_spec()
    }

    open spec fn read_spec(bytes: Seq<u8>, addr: Address, tags: Seq<bool>) -> Result<Self, Exception> {
        Ok(BumpAlloc { inner: TaggedCapability::read_spec(bytes, addr, tags)->Ok_0 })
    }

    open spec fn write_bytes_spec(self, bytes: Seq<u8>, addr: Address) -> Seq<u8> {
        self.inner.write_bytes_spec(bytes, addr)
    }

    open spec fn write_tags_spec(self, addr: Address, tags: Seq<bool>) -> Seq<bool> {
        self.inner.write_tags_spec(addr, tags)
    }

    proof fn lemma_write_len(self, bytes: Seq<u8>, addr: Address, tags: Seq<bool>) {
        self.inner.lemma_write_len(bytes, addr, tags);
    }

    fn layout() -> (l: Layout) {
        TaggedCapability::layout()
    }

    fn read(src: &[u8], addr: Address, tags: &TagBits, tpos: usize) -> (r: Result<Self, Exception>) {
        match TaggedCapability::read(src, addr, tags, tpos) {
            Ok(inner) => Ok(BumpAlloc { inner }),
            Err(e) => Err(e),
        }
    }

    fn write(self, dst: &mut Vec<u8>, pos: usize, addr: Address, tags: &mut TagBits, tpos: usize) -> (r:
        Result<(), Exception>) {
        self.inner.write(dst, pos, addr, tags, tpos)
    }
}

} // verus!

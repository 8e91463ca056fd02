//! Walking the fields of a struct through a capability.

use vstd::prelude::*;
use crate::abi::{align_up_spec, FieldStep, Ty};
use crate::capability::TaggedCapability;
use crate::exception::Exception;
use crate::ints::UAddr;
use crate::mem::Memory;

verus! {

/// A cursor over the fields of a struct that lies in memory where `base`
/// points.
#[derive(Debug)]
pub struct CustomFields {
    pub base: TaggedCapability,
    pub cur_offset: UAddr,
}

impl CustomFields {
    /// The offset at which a field of the type `T` comes next.
    pub open spec fn field_offset<T: Ty>(self) -> nat {
        align_up_spec(self.cur_offset as nat, T::layout_spec().align.value())
    }

    /// Whether a field of the type `T` can come next without the cursor
    /// leaving the address space.
    pub open spec fn fits<T: Ty>(self) -> bool {
        self.field_offset::<T>() + T::layout_spec().size <= UAddr::MAX
    }

    /// The capability for the next field, of the type `T`: `base` moved to
    /// the field and narrowed to it.
    pub open spec fn peek_spec<T: Ty>(self) -> TaggedCapability {
        let moved = self.base.set_addr_spec(
            self.base.capa.addr.add_spec(self.field_offset::<T>() as UAddr),
        );
        moved.set_bounds_spec(moved.capa.addr, moved.capa.addr.add_spec(T::layout_spec().size))
    }

    /// The cursor after a field of the type `T`.
    pub open spec fn advance_spec<T: Ty>(self) -> CustomFields {
        CustomFields {
            base: self.base,
            cur_offset: (self.field_offset::<T>() + T::layout_spec().size) as UAddr,
        }
    }

    /// A cursor before the first field.
    pub fn new(base: TaggedCapability) -> (c: CustomFields)
        ensures
            c == (CustomFields { base, cur_offset: 0 }),
    {
        CustomFields { base, cur_offset: 0 }
    }

    fn peek_inner<T: Ty>(&self) -> (r: (TaggedCapability, UAddr))
        requires
            self.fits::<T>(),
        ensures
            r.0 == self.peek_spec::<T>(),
            r.1 == self.advance_spec::<T>().cur_offset,
    {
        let layout = T::layout();
        let step = FieldStep::new(layout, self.cur_offset);
        let moved = self.base.set_addr(self.base.addr().add(step.field_offset));
        let cap = moved.set_bounds(moved.addr(), moved.addr().add(layout.size));
        (cap, step.cur_offset)
    }

    /// The capability for the next field, of the type `T`.
    pub fn peek<T: Ty>(&self) -> (cap: TaggedCapability)
        requires
            self.fits::<T>(),
        ensures
            cap == self.peek_spec::<T>(),
    {
        self.peek_inner::<T>().0
    }

    /// Reads the next field, of the type `T`, and moves past it. Where the
    /// read fails the cursor stays.
    pub fn read_next<T: Ty>(&mut self, mem: &Memory) -> (r: Result<T, Exception>)
        requires
            mem.wf(),
            old(self).fits::<T>(),
        ensures
            r == mem@.read_spec::<T>(old(self).peek_spec::<T>()),
            *final(self) == if r is Ok {
                old(self).advance_spec::<T>()
            } else {
                *old(self)
            },
    {
        let (field, cur_offset) = self.peek_inner::<T>();
        match mem.read::<T>(field) {
            Ok(val) => {
                self.cur_offset = cur_offset;
                Ok(val)
            },
            Err(e) => Err(e),
        }
    }

    /// Writes the next field, of the type `T`, and moves past it. Where
    /// the write fails the cursor stays.
    pub fn write_next<T: Ty>(&mut self, src: T, mem: &mut Memory) -> (r: Result<(), Exception>)
        requires
            old(mem).wf(),
            old(self).fits::<T>(),
        ensures
            final(mem).wf(),
            final(mem).root == old(mem).root,
            final(mem)@ == old(mem)@.write_spec(old(self).peek_spec::<T>(), src),
            r == old(mem)@.write_result::<T>(old(self).peek_spec::<T>()),
            *final(self) == if r is Ok {
                old(self).advance_spec::<T>()
            } else {
                *old(self)
            },
    {
        let (field, cur_offset) = self.peek_inner::<T>();
        match mem.write(field, src) {
            Ok(()) => {
                self.cur_offset = cur_offset;
                Ok(())
            },
            Err(e) => Err(e),
        }
    }
}

} // verus!

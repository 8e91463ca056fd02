//! The machine's memory: bytes, registers, tags and the root capability.

use vstd::prelude::*;
use vstd::slice::slice_subrange;
use crate::abi::{gran_span, gran_span_spec, tags_of, Align, Layout, Ty};
use crate::access::{MemAccess, MemAccessKind};
use crate::allocator::{allocate, alloc_spec, init, init_spec, InitFlags, Strategy};
use crate::op::Op;
use crate::bits::TagBits;
use crate::capability::{Address, Capability, Granule, OType, Permissions, TaggedCapability};
use crate::endian::splice;
use crate::exception::Exception;
use crate::ints::{UAddr, UNINIT_BYTE};
use crate::registers::Registers;

verus! {

/// One validity bit for each register and each granule of memory: the
/// registers come first, the granules after them.
pub struct TagController {
    pub mem: TagBits,
}

impl View for TagController {
    type V = Seq<bool>;

    open spec fn view(&self) -> Seq<bool> {
        self.mem@
    }
}

/// The place of a granule's tag in the tag controller.
pub open spec fn gran_tag(gran: nat) -> nat {
    32 + gran
}

impl TagController {
    /// Whether there is a tag for every register.
    pub open spec fn wf(&self) -> bool {
        self@.len() >= 32
    }

    /// The granules that the controller has tags for.
    pub open spec fn granules(&self) -> nat {
        (self@.len() - 32) as nat
    }

    /// A controller for the registers and `granules` granules of memory,
    /// with every tag clear.
    pub fn new(granules: UAddr) -> (t: TagController)
        ensures
            t.wf(),
            t@ == Seq::new(32 + granules as nat, |i: int| false),
    {
        let elems: usize = granules as usize + 32;
        TagController { mem: TagBits::zeroed(elems) }
    }

    /// The number of tags.
    pub fn len(&self) -> (n: usize)
        ensures
            n == self@.len(),
    {
        self.mem.len()
    }

    /// The tag at a place in the controller: the registers first, then the
    /// granules.
    pub fn get(&self, idx: usize) -> (r: Option<bool>)
        ensures
            r == if idx < self@.len() {
                Some(self@[idx as int])
            } else {
                None
            },
    {
        if idx < self.mem.len() {
            Some(self.mem.get(idx))
        } else {
            None
        }
    }

    /// The place of the first tag of `size` bytes at `start`, where the
    /// controller has a tag for every granule that they touch.
    pub fn grans(&self, start: Address, size: UAddr) -> (r: Option<usize>)
        requires
            start.0 + size <= 0x1_0000,
        ensures
            r == if gran_tag(start.0 as nat / 8) + gran_span_spec(start, size) + 1 <= self@.len() {
                Some(gran_tag(start.0 as nat / 8) as usize)
            } else {
                None
            },
    {
        let first: usize = start.gran().0 as usize + 32;
        let span = gran_span(start, size);
        if first + span + 1 <= self.mem.len() {
            Some(first)
        } else {
            None
        }
    }

    /// The place of a register's tag.
    pub fn reg(&self, reg: u8) -> (r: Option<usize>)
        ensures
            r == if reg < 32 && reg < self@.len() {
                Some(reg as usize)
            } else {
                None
            },
    {
        if reg < 32 && (reg as usize) < self.mem.len() {
            Some(reg as usize)
        } else {
            None
        }
    }

    /// The tag of a granule.
    pub fn read_gran(&self, gran: Granule) -> (r: Option<bool>)
        ensures
            r == if gran_tag(gran.0 as nat) < self@.len() {
                Some(self@[gran_tag(gran.0 as nat) as int])
            } else {
                None
            },
    {
        let idx = Self::gran_to_idx(gran);
        if idx < self.mem.len() {
            Some(self.mem.get(idx))
        } else {
            None
        }
    }

    /// Sets the tag of a granule.
    pub fn write_gran(&mut self, gran: Granule, valid: bool) -> (r: Option<()>)
        ensures
            gran_tag(gran.0 as nat) < old(self)@.len() ==> r is Some && final(self)@ == old(
                self,
            )@.update(gran_tag(gran.0 as nat) as int, valid),
            gran_tag(gran.0 as nat) >= old(self)@.len() ==> r is None && final(self)@ == old(
                self,
            )@,
    {
        let idx = Self::gran_to_idx(gran);
        if idx < self.mem.len() {
            self.mem.set(idx, valid);
            Some(())
        } else {
            None
        }
    }

    /// The tag of a register.
    pub fn read_reg(&self, reg: u8) -> (r: Option<bool>)
        ensures
            r == if reg < 32 && reg < self@.len() {
                Some(self@[reg as int])
            } else {
                None
            },
    {
        match self.reg(reg) {
            Some(idx) => Some(self.mem.get(idx)),
            None => None,
        }
    }

    /// Sets the tag of a register.
    pub fn write_reg(&mut self, reg: u8, valid: bool) -> (r: Option<()>)
        ensures
            reg < 32 && reg < old(self)@.len() ==> r is Some && final(self)@ == old(
                self,
            )@.update(reg as int, valid),
            !(reg < 32 && reg < old(self)@.len()) ==> r is None && final(self)@ == old(self)@,
    {
        match self.reg(reg) {
            Some(idx) => {
                self.mem.set(idx, valid);
                Some(())
            },
            None => None,
        }
    }

    /// Clears the tag at a place in the controller.
    pub(crate) fn clear(&mut self, idx: usize)
        requires
            idx < old(self)@.len(),
        ensures
            final(self)@ == old(self)@.update(idx as int, false),
    {
        self.mem.set(idx, false);
    }

    /// The place of a granule's tag.
    pub fn gran_to_idx(gran: Granule) -> (idx: usize)
        ensures
            idx == gran_tag(gran.0 as nat),
    {
        gran.0 as usize + 32
    }

    /// The granule whose tag stands at a place, if it is a granule's.
    pub fn idx_to_gran(idx: usize) -> (r: Option<Granule>)
        ensures
            r == if 32 <= idx && idx - 32 <= UAddr::MAX {
                Some(Granule((idx - 32) as UAddr))
            } else {
                None
            },
    {
        if idx >= 32 && idx - 32 <= 0xFFFF {
            Some(Granule((idx - 32) as UAddr))
        } else {
            None
        }
    }
}

/// What the machine holds: the bytes of memory, the capabilities in the
/// registers, and the tags of both.
pub struct MachineState {
    pub mem: Seq<u8>,
    pub regs: Seq<Capability>,
    pub tags: Seq<bool>,
}

/// The capability that spans `len` bytes of memory with every permission.
pub open spec fn root_spec(len: nat) -> TaggedCapability {
    TaggedCapability {
        capa: Capability {
            addr: Address(0),
            start: Address(0),
            endb: Address(len as UAddr),
            perms: Permissions { bits: 0x1F },
            otype: OType(0xFF),
        },
        valid: true,
    }
}

impl MachineState {
    /// Whether the state is that of a machine: whole granules of memory
    /// that addresses can reach, thirty-two registers, and a tag for each
    /// register and granule.
    pub open spec fn wf(self) -> bool {
        &&& self.mem.len() % 8 == 0
        &&& self.mem.len() <= UAddr::MAX
        &&& self.regs.len() == 32
        &&& self.tags.len() == 32 + self.mem.len() / 8
    }

    /// Whether memory holds `size` bytes at `addr`.
    pub open spec fn holds(self, addr: Address, size: UAddr) -> bool {
        &&& addr.0 + size <= self.mem.len()
        &&& gran_tag(addr.0 as nat / 8) + gran_span_spec(addr, size) + 1 <= self.tags.len()
    }

    /// The access that reads or writes a value of the type `T` through
    /// `cap`.
    pub open spec fn access_of<T: Ty>(cap: TaggedCapability, kind: MemAccessKind) -> MemAccess {
        cap.access_spec(kind, T::layout_spec().align, Some(T::layout_spec().size))
    }

    /// The bytes of a value of the type `T` at `addr`.
    pub open spec fn bytes_at<T: Ty>(self, addr: Address) -> Seq<u8> {
        self.mem.subrange(addr.0 as int, addr.0 + T::layout_spec().size)
    }

    /// The tags of the granules that a value of the type `T` at `addr`
    /// touches.
    pub open spec fn tags_at<T: Ty>(self, addr: Address) -> Seq<bool> {
        tags_of(self.tags, gran_tag(addr.0 as nat / 8) as int, addr, T::layout_spec().size)
    }

    /// What a read of a value of the type `T` through `src` gives.
    pub open spec fn read_spec<T: Ty>(self, src: TaggedCapability) -> Result<T, Exception> {
        let access = Self::access_of::<T>(src, MemAccessKind::Read);
        if src.admits(access) && self.holds(src.capa.addr, T::layout_spec().size) {
            T::read_spec(
                self.bytes_at::<T>(src.capa.addr),
                src.capa.addr,
                self.tags_at::<T>(src.capa.addr),
            )
        } else {
            Err(Exception::InvalidMemAccess { access })
        }
    }

    /// Whether a write of a value of the type `T` through `dst` is let
    /// through.
    pub open spec fn write_allowed<T: Ty>(self, dst: TaggedCapability) -> bool {
        dst.admits(Self::access_of::<T>(dst, MemAccessKind::Write)) && self.holds(
            dst.capa.addr,
            T::layout_spec().size,
        )
    }

    /// The state after a write of `val` through `dst`.
    pub open spec fn write_spec<T: Ty>(self, dst: TaggedCapability, val: T) -> MachineState {
        if self.write_allowed::<T>(dst) {
            MachineState {
                mem: splice(
                    self.mem,
                    dst.capa.addr.0 as int,
                    val.write_bytes_spec(self.bytes_at::<T>(dst.capa.addr), dst.capa.addr),
                ),
                regs: self.regs,
                tags: splice(
                    self.tags,
                    gran_tag(dst.capa.addr.0 as nat / 8) as int,
                    val.write_tags_spec(dst.capa.addr, self.tags_at::<T>(dst.capa.addr)),
                ),
            }
        } else {
            self
        }
    }

    /// What a write of a value of the type `T` through `dst` returns.
    pub open spec fn write_result<T: Ty>(self, dst: TaggedCapability) -> Result<(), Exception> {
        if self.write_allowed::<T>(dst) {
            Ok(())
        } else {
            Err(
                Exception::InvalidMemAccess {
                    access: Self::access_of::<T>(dst, MemAccessKind::Write),
                },
            )
        }
    }

    /// The state and the result after the values have been written one
    /// after the other, each where the one before it ends, from `dst` on.
    /// The first write that fails ends it; what was written stays.
    pub open spec fn write_seq_spec<T: Ty>(self, dst: TaggedCapability, vals: Seq<T>) -> (
        MachineState,
        Result<(), Exception>,
    )
        decreases vals.len(),
    {
        if vals.len() == 0 {
            (self, Ok(()))
        } else {
            match self.write_result::<T>(dst) {
                Err(e) => (self, Err(e)),
                Ok(_) => self.write_spec(dst, vals[0]).write_seq_spec(
                    dst.set_addr_spec(dst.capa.addr.add_spec(T::layout_spec().size)),
                    vals.drop_first(),
                ),
            }
        }
    }

    /// The access that writes `count` values of the type `T` through
    /// `dst`; its length is missing where the bytes cannot be counted in
    /// an address.
    pub open spec fn iter_access<T: Ty>(dst: TaggedCapability, count: nat) -> MemAccess {
        dst.access_spec(
            MemAccessKind::Write,
            T::layout_spec().align,
            if count <= UAddr::MAX && count * T::layout_spec().size <= UAddr::MAX {
                Some((count * T::layout_spec().size) as UAddr)
            } else {
                None
            },
        )
    }

    /// The state and the result after `write_iter`.
    pub open spec fn write_iter_spec<T: Ty>(self, dst: TaggedCapability, vals: Seq<T>) -> (
        MachineState,
        Result<(), Exception>,
    ) {
        let access = Self::iter_access::<T>(dst, vals.len());
        if dst.admits(access) {
            self.write_seq_spec(dst, vals)
        } else {
            (self, Err(Exception::InvalidMemAccess { access }))
        }
    }

    /// The state with a register and its tag set.
    pub open spec fn with_reg(self, reg: u8, cap: TaggedCapability) -> MachineState {
        MachineState {
            mem: self.mem,
            regs: self.regs.update(reg as int, cap.capa),
            tags: self.tags.update(reg as int, cap.valid),
        }
    }

    /// The access that fills `count` bytes through `dst`.
    pub open spec fn memset_access(dst: TaggedCapability, count: UAddr) -> MemAccess {
        dst.access_spec(MemAccessKind::Write, Align::min_spec(), Some(count))
    }

    /// Whether `count` bytes may be filled through `dst`.
    pub open spec fn memset_allowed(self, dst: TaggedCapability, count: UAddr) -> bool {
        dst.admits(Self::memset_access(dst, count)) && dst.capa.addr.0 + count <= self.mem.len()
    }

    /// What filling `count` bytes through `dst` returns.
    pub open spec fn memset_result(self, dst: TaggedCapability, count: UAddr) -> Result<
        (),
        Exception,
    > {
        if self.memset_allowed(dst, count) {
            Ok(())
        } else {
            Err(Exception::InvalidMemAccess { access: Self::memset_access(dst, count) })
        }
    }

    /// The state after `count` bytes have been filled with `byte` through
    /// `dst`: no tag changes.
    pub open spec fn memset_spec(self, dst: TaggedCapability, count: UAddr, byte: u8)
        -> MachineState {
        if self.memset_allowed(dst, count) {
            MachineState {
                mem: splice(
                    self.mem,
                    dst.capa.addr.0 as int,
                    Seq::new(count as nat, |i: int| byte),
                ),
                regs: self.regs,
                tags: self.tags,
            }
        } else {
            self
        }
    }
}

/// Why the machine could not be set up.
#[derive(Clone, Copy, Debug, PartialEq, Eq, Structural)]
#[allow(inconsistent_fields)]
pub enum BootErr {
    /// The bytes of memory cannot be counted in an address.
    AllocatedBytesOverflow,
    /// The operations of the program cannot be counted in an address.
    ProgramLenOverflow,
    /// The bytes of the program cannot be counted in an address.
    ProgramSizeOverflow,
    /// The tags cannot be counted.
    TagCountOverflow,
    /// The root allocator could not be initialized.
    RootAllocator { err: Exception },
    /// The memory for the program could not be allocated.
    AllocProgram { err: Exception },
    /// The program could not be written to its memory.
    WriteProgram { err: Exception },
    /// The call stack could not be allocated.
    AllocStack { err: Exception },
}

/// The machine before anything has been set up: memory of uninitialised
/// bytes, registers of uninitialised bytes, and every tag clear.
pub open spec fn blank_spec(granules: UAddr) -> MachineState {
    MachineState {
        mem: Seq::new((granules * 8) as nat, |i: int| UNINIT_BYTE),
        regs: Seq::new(32, |i: int| Capability::invalid_spec()),
        tags: Seq::new(32 + granules as nat, |i: int| false),
    }
}

/// The flags of the root allocator: it fills on alloc and on free.
pub open spec fn root_flags() -> InitFlags {
    InitFlags { bits: 0x03 }
}

/// The layout of the memory for a program of `bytes` bytes.
pub open spec fn program_layout(bytes: UAddr) -> Layout {
    Layout { size: bytes, align: Align::from_exp_spec(3) }
}

/// The layout of a call stack of `bytes` bytes.
pub open spec fn stack_layout(bytes: UAddr) -> Layout {
    Layout { size: bytes, align: Align::min_spec() }
}

/// The permissions with which a program runs: read and execute.
pub open spec fn program_perms() -> Permissions {
    Permissions { bits: 0x05 }
}

/// The machine after boot, or why it could not be set up. A root bump
/// allocator takes the whole memory; the program's memory is allocated
/// from it, written, and made readable and executable; the call stack is
/// allocated after it. Register `pc` gets the program, register `sp` the
/// end of the stack, and register `z0` the handle of the root allocator.
pub open spec fn boot_spec(granules: UAddr, stack_size: UAddr, program: Seq<Op>) -> Result<
    MachineState,
    BootErr,
> {
    if granules * 8 > UAddr::MAX {
        Err(BootErr::AllocatedBytesOverflow)
    } else if program.len() > UAddr::MAX {
        Err(BootErr::ProgramLenOverflow)
    } else if program.len() * 32 > UAddr::MAX {
        Err(BootErr::ProgramSizeOverflow)
    } else {
        let root = root_spec((granules * 8) as nat);
        let booted = init_spec(blank_spec(granules), Strategy::Bump, root_flags(), root);
        match booted.1 {
            Err(err) => Err(BootErr::RootAllocator { err }),
            Ok(handle) => {
                let loaded = alloc_spec(
                    booted.0,
                    handle,
                    program_layout((program.len() * 32) as UAddr),
                );
                match loaded.1 {
                    Err(err) => Err(BootErr::AllocProgram { err }),
                    Ok(ation) => {
                        let pc = ation.set_perms_spec(Permissions::write());
                        let written = loaded.0.write_iter_spec(pc, program);
                        match written.1 {
                            Err(err) => Err(BootErr::WriteProgram { err }),
                            Ok(_) => {
                                let pc = pc.set_perms_from_spec(program_perms(), root);
                                let stacked = alloc_spec(
                                    written.0.with_reg(1, pc),
                                    handle,
                                    stack_layout(stack_size),
                                );
                                match stacked.1 {
                                    Err(err) => Err(BootErr::AllocStack { err }),
                                    Ok(stack) => Ok(
                                        stacked.0.with_reg(
                                            3,
                                            stack.set_addr_spec(stack.capa.endb),
                                        ).with_reg(31, handle),
                                    ),
                                }
                            },
                        }
                    },
                }
            },
        }
    }
}

/// The machine: its memory, registers and tags, and the root capability
/// from which every other valid capability derives.
pub struct Memory {
    pub mem: Vec<u8>,
    pub regs: Registers,
    pub tags: TagController,
    pub root: TaggedCapability,
}

impl View for Memory {
    type V = MachineState;

    open spec fn view(&self) -> MachineState {
        MachineState { mem: self.mem@, regs: self.regs@, tags: self.tags@ }
    }
}

impl Memory {
    /// Whether the machine's parts fit each other and the root spans the
    /// memory.
    pub open spec fn wf(&self) -> bool {
        &&& self@.wf()
        &&& self.root == root_spec(self.mem@.len())
    }

    /// Sets up a machine of `granules` granules of memory and boots it
    /// with the program `init` and a call stack of `stack_size` bytes.
    pub fn new(granules: UAddr, stack_size: UAddr, init_program: &[Op]) -> (r: Result<
        Memory,
        BootErr,
    >)
        ensures
            match r {
                Ok(m) => m.wf() && m.mem@.len() == granules * 8 && boot_spec(
                    granules,
                    stack_size,
                    init_program@,
                ) == Ok::<MachineState, BootErr>(m@),
                Err(e) => boot_spec(granules, stack_size, init_program@) == Err::<
                    MachineState,
                    BootErr,
                >(e),
            },
    {
        let mem_len: UAddr = match granules.checked_mul(8) {
            Some(len) => len,
            None => {
                return Err(BootErr::AllocatedBytesOverflow);
            },
        };
        if init_program.len() > 0xFFFF {
            return Err(BootErr::ProgramLenOverflow);
        }
        let init_elems: UAddr = init_program.len() as UAddr;
        let init_bytes: UAddr = match init_elems.checked_mul(32) {
            Some(bytes) => bytes,
            None => {
                return Err(BootErr::ProgramSizeOverflow);
            },
        };
        let mut bytes: Vec<u8> = Vec::new();
        let mut i: usize = 0;
        while i < mem_len as usize
            invariant
                i <= mem_len,
                bytes@.len() == i,
                forall|k: int| 0 <= k < i ==> bytes@[k] == UNINIT_BYTE,
            decreases mem_len - i,
        {
            bytes.push(UNINIT_BYTE);
            i = i + 1;
        }
        let root = TaggedCapability::new(
            Capability::new(
                Address(0),
                Address(0),
                Address(mem_len),
                Permissions::all(),
                OType::unsealed(),
            ),
            true,
        );
        let mut mem = Memory {
            mem: bytes,
            regs: Registers::new(),
            tags: TagController::new(granules),
            root,
        };
        proof {
            assert(mem@.mem =~= blank_spec(granules).mem);
            assert(mem@ == blank_spec(granules));
        }
        let flags = InitFlags::init_on_free().union(InitFlags::init_on_alloc());
        proof {
            assert(0x02u8 | 0x01u8 == 0x03u8) by (bit_vector);
        }
        let handle = match init(Strategy::Bump, flags, mem.root, &mut mem) {
            Ok(h) => h,
            Err(err) => {
                return Err(BootErr::RootAllocator { err });
            },
        };
        let program = Layout { size: init_bytes, align: TaggedCapability::layout().align };
        let ation = match allocate(handle, program, &mut mem) {
            Ok(a) => a,
            Err(err) => {
                return Err(BootErr::AllocProgram { err });
            },
        };
        let pc = ation.set_perms(Permissions::write());
        match mem.write_iter(pc, init_program) {
            Ok(()) => {},
            Err(err) => {
                return Err(BootErr::WriteProgram { err });
            },
        }
        let perms = Permissions::read().union(Permissions::exec());
        proof {
            assert(0x01u8 | 0x04u8 == 0x05u8) by (bit_vector);
        }
        let pc = pc.set_perms_from(perms, mem.root);
        let _ = mem.regs.write(&mut mem.tags, 1, pc);
        let stack = match allocate(handle, Layout { size: stack_size, align: Align::min() }, &mut mem)
        {
            Ok(a) => a,
            Err(err) => {
                return Err(BootErr::AllocStack { err });
            },
        };
        let sp = stack.set_addr(stack.endb());
        let _ = mem.regs.write(&mut mem.tags, 3, sp);
        let _ = mem.regs.write(&mut mem.tags, 31, handle);
        Ok(mem)
    }

    /// Whether the machine's parts fit each other and the root spans the
    /// memory.
    pub fn is_well_formed(&self) -> (b: bool)
        ensures
            b == self.wf(),
    {
        let len = self.mem.len();
        if len % 8 != 0 || len > 0xFFFF {
            return false;
        }
        if self.tags.len() != 32 + len / 8 {
            return false;
        }
        let root = self.root;
        root.valid && root.capa.addr.0 == 0 && root.capa.start.0 == 0 && root.capa.endb.0 as usize
            == len && root.capa.perms.bits == 0x1F && root.capa.otype.0 == 0xFF
    }

    /// Reads a value of the type `T` through `src`: the capability must
    /// admit a read of the type's size and alignment, and the memory must
    /// hold the bytes.
    pub fn read<T: Ty>(&self, src: TaggedCapability) -> (r: Result<T, Exception>)
        requires
            self.wf(),
        ensures
            r == self@.read_spec::<T>(src),
    {
        let layout = T::layout();
        let access = src.access(MemAccessKind::Read, layout.align, Some(layout.size));
        match src.check_given_access(access) {
            Ok(()) => {},
            Err(e) => {
                return Err(e);
            },
        }
        let start = src.addr().get() as usize;
        let size = layout.size as usize;
        if start + size > self.mem.len() {
            return Err(Exception::InvalidMemAccess { access });
        }
        let tpos = match self.tags.grans(src.addr(), layout.size) {
            Some(p) => p,
            None => {
                return Err(Exception::InvalidMemAccess { access });
            },
        };
        let bytes = slice_subrange(self.mem.as_slice(), start, start + size);
        T::read(bytes, src.addr(), &self.tags.mem, tpos)
    }

    /// Writes `val` through `dst`: the capability must admit a write of
    /// the type's size and alignment, and the memory must hold the bytes.
    /// The tags of the granules written become what the type's write
    /// leaves.
    pub fn write<T: Ty>(&mut self, dst: TaggedCapability, val: T) -> (r: Result<(), Exception>)
        requires
            old(self).wf(),
        ensures
            final(self).wf(),
            final(self).root == old(self).root,
            final(self)@ == old(self)@.write_spec(dst, val),
            r == old(self)@.write_result::<T>(dst),
    {
        let layout = T::layout();
        let access = dst.access(MemAccessKind::Write, layout.align, Some(layout.size));
        match dst.check_given_access(access) {
            Ok(()) => {},
            Err(e) => {
                return Err(e);
            },
        }
        let start = dst.addr().get() as usize;
        let size = layout.size as usize;
        if start + size > self.mem.len() {
            return Err(Exception::InvalidMemAccess { access });
        }
        let tpos = match self.tags.grans(dst.addr(), layout.size) {
            Some(p) => p,
            None => {
                return Err(Exception::InvalidMemAccess { access });
            },
        };
        proof {
            val.lemma_write_len(
                self@.bytes_at::<T>(dst.capa.addr),
                dst.capa.addr,
                self@.tags_at::<T>(dst.capa.addr),
            );
        }
        let _ = val.write(&mut self.mem, start, dst.addr(), &mut self.tags.mem, tpos);
        Ok(())
    }

    /// Writes the values one after the other from `dst` on. The capability
    /// must admit a write of all their bytes; each value is then written
    /// as `write` writes it, and the first write that fails ends it.
    pub fn write_iter<T: Ty>(&mut self, dst: TaggedCapability, vals: &[T]) -> (r: Result<
        (),
        Exception,
    >)
        requires
            old(self).wf(),
        ensures
            final(self).wf(),
            final(self).root == old(self).root,
            final(self)@ == old(self)@.write_iter_spec(dst, vals@).0,
            r == old(self)@.write_iter_spec(dst, vals@).1,
    {
        let layout = T::layout();
        let n = vals.len();
        let total: Option<UAddr> = if n > 0xFFFF {
            None
        } else {
            (n as UAddr).checked_mul(layout.size)
        };
        let access = dst.access(MemAccessKind::Write, layout.align, total);
        proof {
            if n <= 0xFFFF {
                assert((n as UAddr) * layout.size == vals@.len() * T::layout_spec().size);
            }
            assert(total == MachineState::iter_access::<T>(dst, vals@.len()).len);
            assert(access == MachineState::iter_access::<T>(dst, vals@.len()));
        }
        match dst.check_given_access(access) {
            Ok(()) => {},
            Err(e) => {
                return Err(e);
            },
        }
        let mut at = dst;
        let mut i: usize = 0;
        proof {
            assert(vals@.subrange(0, n as int) =~= vals@);
        }
        while i < n
            invariant
                i <= n,
                n == vals@.len(),
                self.wf(),
                self.root == old(self).root,
                layout == T::layout_spec(),
                dst.admits(MachineState::iter_access::<T>(dst, vals@.len())),
                old(self)@.write_seq_spec(dst, vals@) == self@.write_seq_spec(
                    at,
                    vals@.subrange(i as int, n as int),
                ),
            decreases n - i,
        {
            let ghost rest = vals@.subrange(i as int, n as int);
            proof {
                assert(rest.drop_first() =~= vals@.subrange(i as int + 1, n as int));
                assert(rest[0] == vals@[i as int]);
            }
            let ghost before = self@;
            proof {
                assert(before.write_seq_spec(at, rest) == match before.write_result::<T>(at) {
                    Err(e) => (before, Err::<(), Exception>(e)),
                    Ok(_) => before.write_spec(at, rest[0]).write_seq_spec(
                        at.set_addr_spec(at.capa.addr.add_spec(T::layout_spec().size)),
                        rest.drop_first(),
                    ),
                });
            }
            match self.write(at, vals[i]) {
                Ok(()) => {},
                Err(e) => {
                    return Err(e);
                },
            }
            at = at.set_addr(at.addr().add(layout.size));
            i = i + 1;
        }
        proof {
            assert(vals@.subrange(n as int, n as int).len() == 0);
        }
        Ok(())
    }

    /// Fills `count` bytes with `byte` through `dst`, which must admit a
    /// write of that many bytes. No tag changes.
    pub fn memset(&mut self, dst: TaggedCapability, count: UAddr, byte: u8) -> (r: Result<
        (),
        Exception,
    >)
        requires
            old(self).wf(),
        ensures
            final(self).wf(),
            final(self).root == old(self).root,
            final(self)@ == old(self)@.memset_spec(dst, count, byte),
            r == old(self)@.memset_result(dst, count),
    {
        let access = dst.access(MemAccessKind::Write, Align::min(), Some(count));
        match dst.check_given_access(access) {
            Ok(()) => {},
            Err(e) => {
                return Err(e);
            },
        }
        let start = dst.addr().get() as usize;
        let end = start + count as usize;
        if end > self.mem.len() {
            return Err(Exception::InvalidMemAccess { access });
        }
        let mut i: usize = start;
        while i < end
            invariant
                start <= i <= end <= self.mem@.len(),
                self.mem@.len() == old(self).mem@.len(),
                self.regs == old(self).regs,
                self.tags == old(self).tags,
                self.root == old(self).root,
                forall|k: int|
                    0 <= k < self.mem@.len() ==> self.mem@[k] == if start <= k < i {
                        byte
                    } else {
                        old(self).mem@[k]
                    },
            decreases end - i,
        {
            self.mem.set(i, byte);
            i = i + 1;
        }
        proof {
            assert(self.mem@ =~= splice(
                old(self).mem@,
                start as int,
                Seq::new(count as nat, |i: int| byte),
            ));
        }
        Ok(())
    }
}

} // verus!

//! System calls.

use vstd::prelude::*;
use crate::abi::core_impls::{cleared, clear_tags, int_layout, int_layout_spec};
use crate::abi::{Layout, Ty};
use crate::bits::TagBits;
use crate::capability::Address;
use crate::endian::{
    le_bytes, le_value, lemma_le_bytes_len, lemma_le_value_bound, lemma_pow256_values, read_le,
    write_le,
};
use crate::exception::Exception;

verus! {

/// The system calls. The kind is passed in register `a2`, the arguments
/// from register `a3` on, and what is returned comes in register `a0`.
#[derive(Clone, Copy, Debug, PartialEq, Eq, Structural)]
pub enum SyscallKind {
    /// Exit the process.
    Exit,
    /// Initialize an allocator over the region in register `a5`, with the
    /// strategy in register `a3` and the flags in register `a4`. The handle is
    /// written to register `a0`.
    AllocInit,
    /// De-initialize the allocator in register `a3`. The region that it owned
    /// is written to register `a0`.
    AllocDeInit,
    /// Request an allocation from the allocator in register `a3` with the
    /// layout in register `a4`. The allocation is written to register `a0`.
    AllocAlloc,
    /// Free the allocation in register `a4`, made by the allocator in register
    /// `a3`.
    AllocFree,
    /// Free all allocations of the allocator in register `a3`.
    AllocFreeAll,
    /// Request the stats of the allocator in register `a3`; they are written to
    /// register `a0`.
    AllocStat,
}

impl SyscallKind {
    /// The byte that names the system call.
    pub open spec fn to_byte_spec(self) -> u8 {
        match self {
            SyscallKind::Exit => 0,
            SyscallKind::AllocInit => 1,
            SyscallKind::AllocDeInit => 2,
            SyscallKind::AllocAlloc => 3,
            SyscallKind::AllocFree => 4,
            SyscallKind::AllocFreeAll => 5,
            SyscallKind::AllocStat => 6,
        }
    }

    /// The system call that a byte names.
    pub open spec fn from_byte_spec(byte: u8) -> Result<SyscallKind, Exception> {
        match byte {
            0 => Ok(SyscallKind::Exit),
            1 => Ok(SyscallKind::AllocInit),
            2 => Ok(SyscallKind::AllocDeInit),
            3 => Ok(SyscallKind::AllocAlloc),
            4 => Ok(SyscallKind::AllocFree),
            5 => Ok(SyscallKind::AllocFreeAll),
            6 => Ok(SyscallKind::AllocStat),
            _ => Err(Exception::InvalidSyscall { byte }),
        }
    }

    /// The name of the system call.
    pub open spec fn display_spec(self) -> Seq<char> {
        match self {
            SyscallKind::Exit => "Exit"@,
            SyscallKind::AllocInit => "AllocInit"@,
            SyscallKind::AllocDeInit => "AllocDeInit"@,
            SyscallKind::AllocAlloc => "AllocAlloc"@,
            SyscallKind::AllocFree => "AllocFree"@,
            SyscallKind::AllocFreeAll => "AllocFreeAll"@,
            SyscallKind::AllocStat => "AllocStat"@,
        }
    }

    /// The name of the system call as assembly source writes it.
    pub open spec fn symbol_spec(self) -> Seq<char> {
        match self {
            SyscallKind::Exit => "SYS_EXIT"@,
            SyscallKind::AllocInit => "SYS_ALLOC_INIT"@,
            SyscallKind::AllocDeInit => "SYS_ALLOC_DEINIT"@,
            SyscallKind::AllocAlloc => "SYS_ALLOC_ALLOC"@,
            SyscallKind::AllocFree => "SYS_ALLOC_FREE"@,
            SyscallKind::AllocFreeAll => "SYS_ALLOC_FREE_ALL"@,
            SyscallKind::AllocStat => "SYS_ALLOC_STAT"@,
        }
    }

    /// The byte that names the system call.
    pub fn to_byte(self) -> (b: u8)
        ensures
            b == self.to_byte_spec(),
            Self::from_byte_spec(b) == Ok::<SyscallKind, Exception>(self),
    {
        match self {
            SyscallKind::Exit => 0,
            SyscallKind::AllocInit => 1,
            SyscallKind::AllocDeInit => 2,
            SyscallKind::AllocAlloc => 3,
            SyscallKind::AllocFree => 4,
            SyscallKind::AllocFreeAll => 5,
            SyscallKind::AllocStat => 6,
        }
    }

    /// The system call that a byte names.
    pub fn from_byte(byte: u8) -> (r: Result<SyscallKind, Exception>)
        ensures
            r == Self::from_byte_spec(byte),
    {
        match byte {
            0 => Ok(SyscallKind::Exit),
            1 => Ok(SyscallKind::AllocInit),
            2 => Ok(SyscallKind::AllocDeInit),
            3 => Ok(SyscallKind::AllocAlloc),
            4 => Ok(SyscallKind::AllocFree),
            5 => Ok(SyscallKind::AllocFreeAll),
            6 => Ok(SyscallKind::AllocStat),
            _ => Err(Exception::InvalidSyscall { byte }),
        }
    }

    /// The name of the system call.
    pub fn display(self) -> (s: &'static str)
        ensures
            s@ == self.display_spec(),
    {
        match self {
            SyscallKind::Exit => "Exit",
            SyscallKind::AllocInit => "AllocInit",
            SyscallKind::AllocDeInit => "AllocDeInit",
            SyscallKind::AllocAlloc => "AllocAlloc",
            SyscallKind::AllocFree => "AllocFree",
            SyscallKind::AllocFreeAll => "AllocFreeAll",
            SyscallKind::AllocStat => "AllocStat",
        }
    }

    /// The name of the system call as assembly source writes it.
    pub fn symbol(self) -> (s: &'static str)
        ensures
            s@ == self.symbol_spec(),
    {
        match self {
            SyscallKind::Exit => "SYS_EXIT",
            SyscallKind::AllocInit => "SYS_ALLOC_INIT",
            SyscallKind::AllocDeInit => "SYS_ALLOC_DEINIT",
            SyscallKind::AllocAlloc => "SYS_ALLOC_ALLOC",
            SyscallKind::AllocFree => "SYS_ALLOC_FREE",
            SyscallKind::AllocFreeAll => "SYS_ALLOC_FREE_ALL",
            SyscallKind::AllocStat => "SYS_ALLOC_STAT",
        }
    }
    /// The system call that a byte names, for a byte that names one.
    pub open spec fn kind_of(byte: u8) -> SyscallKind {
        choose|k: SyscallKind| k.to_byte_spec() == byte
    }

    /// The system call with the least byte from `from` on whose symbol is
    /// `name`, as bytes.
    pub open spec fn named_from(name: Seq<u8>, from: int) -> Option<SyscallKind>
        decreases 6 + 1 - from,
    {
        if from < 0 || from > 6 {
            None
        } else if vstd::utf8::encode_utf8(Self::kind_of(from as u8).symbol_spec()) == name {
            Some(Self::kind_of(from as u8))
        } else {
            Self::named_from(name, from + 1)
        }
    }

    /// The system call whose symbol is `name`, as bytes.
    pub open spec fn named(name: Seq<u8>) -> Option<SyscallKind> {
        Self::named_from(name, 0)
    }

    /// The system call whose symbol is `name`, as bytes.
    pub fn from_symbol(name: &[u8]) -> (r: Option<SyscallKind>)
        ensures
            r == Self::named(name@),
    {
        let mut byte: u8 = 0;
        while byte <= 6
            invariant
                byte <= 6 + 1,
                Self::named(name@) == Self::named_from(name@, byte as int),
            decreases 6 + 1 - byte,
        {
            match Self::from_byte(byte) {
                Ok(kind) => {
                    proof {
                        Self::lemma_to_byte_injective(kind, Self::kind_of(byte));
                    }
                    if crate::assembler::bytes_eq(name, kind.symbol().as_bytes()) {
                        return Some(kind);
                    }
                },
                Err(_) => {},
            }
            byte = byte + 1;
        }
        None
    }

    /// No two system calls are named by the same byte.
    pub proof fn lemma_to_byte_injective(a: SyscallKind, b: SyscallKind)
        requires
            a.to_byte_spec() == b.to_byte_spec(),
        ensures
            a == b,
    {
    }
}

impl Ty for SyscallKind {
    open spec fn layout_spec() -> Layout {
        int_layout_spec(1)
    }

    open spec fn read_spec(bytes: Seq<u8>, addr: Address, tags: Seq<bool>) -> Result<Self, Exception> {
        Self::from_byte_spec(le_value(bytes) as u8)
    }

    open spec fn write_bytes_spec(self, bytes: Seq<u8>, addr: Address) -> Seq<u8> {
        le_bytes(self.to_byte_spec() as nat, 1)
    }

    open spec fn write_tags_spec(self, addr: Address, tags: Seq<bool>) -> Seq<bool> {
        cleared(tags)
    }

    proof fn lemma_write_len(self, bytes: Seq<u8>, addr: Address, tags: Seq<bool>) {
        lemma_le_bytes_len(self.to_byte_spec() as nat, 1);
    }

    fn layout() -> (l: Layout) {
        int_layout(1)
    }

    fn read(src: &[u8], addr: Address, tags: &TagBits, tpos: usize) -> (r: Result<Self, Exception>) {
        proof {
            lemma_le_value_bound(src@);
            lemma_pow256_values();
        }
        Self::from_byte(read_le(src) as u8)
    }

    fn write(self, dst: &mut Vec<u8>, pos: usize, addr: Address, tags: &mut TagBits, tpos: usize) -> (r:
        Result<(), Exception>) {
        clear_tags(tags, tpos, addr, 1);
        write_le(self.to_byte() as u64, 1, dst, pos);
        Ok(())
    }
}

} // verus!

//! The register bank.

use vstd::prelude::*;
use crate::abi::core_impls::int_layout;
use crate::abi::{tags_of, Layout, Ty};
use crate::access::RegAccess;
use crate::capability::{
    cap_decode, cap_encode, lemma_cap_decode_encode, Address, Capability, TaggedCapability,
};
use crate::endian::{
    le_bytes, le_value, lemma_le_bytes_len, lemma_le_bytes_prefix, lemma_le_value_of_bytes,
    lemma_le_zero_extend, lemma_pow256_values, read_le, splice, write_le,
};
use crate::exception::Exception;
use crate::ints::{UAddr, UGran};
use crate::mem::TagController;

verus! {

/// The registers: thirty-two slots of one grain each. The first reads as
/// zero whatever it holds.
#[derive(Debug)]
pub struct Registers {
    pub regs: [Capability; 32],
}

impl View for Registers {
    type V = Seq<Capability>;

    open spec fn view(&self) -> Seq<Capability> {
        self.regs@
    }
}

/// What a read of a register gives: the capability it holds with its tag;
/// for register zero, the grain zero as data.
pub open spec fn reg_read_spec(regs: Seq<Capability>, tags: Seq<bool>, reg: u8) -> TaggedCapability {
    if reg == 0 {
        TaggedCapability { capa: cap_decode(0), valid: false }
    } else {
        TaggedCapability { capa: regs[reg as int], valid: tags[reg as int] }
    }
}

/// The grain that a register reads as; zero for register zero.
pub open spec fn reg_data_spec(regs: Seq<Capability>, reg: u8) -> UGran {
    if reg == 0 {
        0
    } else {
        cap_encode(regs[reg as int])
    }
}

/// The access of a whole register.
pub open spec fn reg_access(reg: u8) -> RegAccess {
    RegAccess { reg, len: 8 }
}

/// Eight zero bytes.
pub open spec fn zero_grain() -> Seq<u8> {
    Seq::new(8, |i: int| 0u8)
}

/// The bytes of a register that reads as `data`, cut to the size of `T`.
pub open spec fn reg_bytes<T: Ty>(data: UGran) -> Seq<u8> {
    le_bytes(data as nat, 8).subrange(0, T::layout_spec().size as int)
}

/// The capability that a register holds after a value of the type `T` has
/// been written to it: the value's bytes, then zeros.
pub open spec fn reg_written<T: Ty>(val: T) -> Capability {
    cap_decode(
        le_value(
            splice(
                zero_grain(),
                0,
                val.write_bytes_spec(
                    zero_grain().subrange(0, T::layout_spec().size as int),
                    Address(0),
                ),
            ),
        ) as UGran,
    )
}

/// A byte written to a register is zero-extended to a grain.
pub proof fn lemma_reg_written_u8(val: u8)
    ensures
        reg_written(val) == cap_decode(val as UGran),
{
    lemma_pow256_values();
    lemma_le_zero_extend(val as nat, 1, 8);
    assert(zero_grain() =~= Seq::new(8, |i: int| 0u8));
}

/// Two bytes written to a register are zero-extended to a grain.
pub proof fn lemma_reg_written_u16(val: u16)
    ensures
        reg_written(val) == cap_decode(val as UGran),
        reg_written(Address(val)) == cap_decode(val as UGran),
{
    lemma_pow256_values();
    lemma_le_zero_extend(val as nat, 2, 8);
    assert(zero_grain() =~= Seq::new(8, |i: int| 0u8));
}

/// Four bytes written to a register are zero-extended to a grain.
pub proof fn lemma_reg_written_u32(val: u32)
    ensures
        reg_written(val) == cap_decode(val as UGran),
{
    lemma_pow256_values();
    lemma_le_zero_extend(val as nat, 4, 8);
    assert(zero_grain() =~= Seq::new(8, |i: int| 0u8));
}

/// A grain written to a register is the grain.
pub proof fn lemma_reg_written_u64(val: u64)
    ensures
        reg_written(val) == cap_decode(val),
{
    lemma_pow256_values();
    lemma_le_zero_extend(val as nat, 8, 8);
    assert(zero_grain() =~= Seq::new(8, |i: int| 0u8));
}

/// A truth value written to a register is one or zero.
pub proof fn lemma_reg_written_bool(val: bool)
    ensures
        reg_written(val) == cap_decode(
            if val {
                1
            } else {
                0
            },
        ),
{
    lemma_pow256_values();
    lemma_le_zero_extend(1, 1, 8);
    lemma_le_zero_extend(0, 1, 8);
    assert(zero_grain() =~= Seq::new(8, |i: int| 0u8));
}

/// A value of fewer bytes than a grain is read from the low bytes of a
/// register.
pub proof fn lemma_reg_reads_low_bytes(regs: Seq<Capability>, tags: Seq<bool>, reg: u8)
    requires
        reg < 32,
    ensures
        u8::read_spec(reg_bytes::<u8>(reg_data_spec(regs, reg)), Address(0), seq![tags[reg as int]])
            == Ok::<u8, Exception>((reg_data_spec(regs, reg) % 0x100) as u8),
        u16::read_spec(
            reg_bytes::<u16>(reg_data_spec(regs, reg)),
            Address(0),
            seq![tags[reg as int]],
        ) == Ok::<u16, Exception>((reg_data_spec(regs, reg) % 0x1_0000) as u16),
        Address::read_spec(
            reg_bytes::<Address>(reg_data_spec(regs, reg)),
            Address(0),
            seq![tags[reg as int]],
        ) == Ok::<Address, Exception>(Address((reg_data_spec(regs, reg) % 0x1_0000) as u16)),
        u64::read_spec(
            reg_bytes::<u64>(reg_data_spec(regs, reg)),
            Address(0),
            seq![tags[reg as int]],
        ) == Ok::<u64, Exception>(reg_data_spec(regs, reg)),
{
    let data = reg_data_spec(regs, reg) as nat;
    lemma_pow256_values();
    lemma_le_bytes_prefix(data, 1, 8);
    lemma_le_bytes_prefix(data, 2, 8);
    lemma_le_bytes_prefix(data, 8, 8);
    lemma_le_value_of_bytes(data, 1);
    lemma_le_value_of_bytes(data, 2);
    lemma_le_value_of_bytes(data, 8);
}

impl Registers {
    /// The number of registers.
    pub const COUNT: u8 = 32;

    /// Registers that hold uninitialised memory.
    pub fn new() -> (r: Registers)
        ensures
            r@ == Seq::new(32, |i: int| Capability::invalid_spec()),
    {
        let r = Registers { regs: [Capability::invalid();32] };
        proof {
            assert(r@ =~= Seq::new(32, |i: int| Capability::invalid_spec()));
        }
        r
    }

    /// Reads a register with its tag.
    pub fn read(&self, tags: &TagController, reg: u8) -> (r: Result<TaggedCapability, Exception>)
        requires
            tags.wf(),
        ensures
            r == if reg < 32 {
                Ok::<TaggedCapability, Exception>(reg_read_spec(self@, tags@, reg))
            } else {
                Err::<TaggedCapability, Exception>(
                    Exception::InvalidRegAccess { access: reg_access(reg) },
                )
            },
    {
        let gran = match self.read_data(reg) {
            Ok(g) => g,
            Err(e) => {
                return Err(e);
            },
        };
        let valid = if reg == 0 {
            false
        } else {
            match tags.read_reg(reg) {
                Some(v) => v,
                None => false,
            }
        };
        proof {
            if reg != 0 {
                lemma_cap_decode_encode(self@[reg as int]);
            }
        }
        Ok(TaggedCapability::new(Capability::from_ugran(gran), valid))
    }

    /// Reads the grain of a register; its tag is ignored.
    pub fn read_data(&self, reg: u8) -> (r: Result<UGran, Exception>)
        ensures
            r == if reg < 32 {
                Ok::<UGran, Exception>(reg_data_spec(self@, reg))
            } else {
                Err::<UGran, Exception>(Exception::InvalidRegAccess { access: reg_access(reg) })
            },
    {
        let access = RegAccess { reg, len: 8 };
        match access.check_reg() {
            Ok(()) => {},
            Err(e) => {
                return Err(e);
            },
        }
        if reg == 0 {
            return Ok(0);
        }
        let idx = Self::reg_to_idx(reg);
        Ok(self.regs[idx].to_ugran())
    }

    /// Reads a value of the type `T` from the low bytes of a register.
    pub fn read_ty<T: Ty>(&self, tags: &TagController, reg: u8) -> (r: Result<T, Exception>)
        requires
            tags.wf(),
        ensures
            r == if reg >= 32 {
                Err::<T, Exception>(Exception::InvalidRegAccess { access: reg_access(reg) })
            } else if T::layout_spec().size > 8 {
                Err::<T, Exception>(
                    Exception::InvalidRegAccess {
                        access: RegAccess { reg, len: T::layout_spec().size },
                    },
                )
            } else {
                T::read_spec(
                    reg_bytes::<T>(reg_data_spec(self@, reg)),
                    Address(0),
                    seq![tags@[reg as int]],
                )
            },
    {
        let layout = T::layout();
        let access = RegAccess { reg, len: layout.size };
        let gran = match self.read_data(reg) {
            Ok(g) => g,
            Err(e) => {
                return Err(e);
            },
        };
        match access.check_len() {
            Ok(()) => {},
            Err(e) => {
                return Err(e);
            },
        }
        let mut data: Vec<u8> = Vec::new();
        let mut i: usize = 0;
        while i < 8
            invariant
                i <= 8,
                data@.len() == i,
            decreases 8 - i,
        {
            data.push(0);
            i = i + 1;
        }
        write_le(gran, 8, &mut data, 0);
        proof {
            lemma_le_bytes_len(gran as nat, 8);
            assert(data@ =~= le_bytes(gran as nat, 8));
            assert(tags_of(tags@, reg as int, Address(0), layout.size) =~= seq![tags@[reg as int]]);
        }
        let src = vstd::slice::slice_subrange(data.as_slice(), 0, layout.size as usize);
        T::read(src, Address(0), &tags.mem, reg as usize)
    }

    /// Writes a capability and its tag to a register.
    pub fn write(&mut self, tags: &mut TagController, reg: u8, cap: TaggedCapability) -> (r: Result<
        (),
        Exception,
    >)
        requires
            old(tags).wf(),
        ensures
            final(tags).wf(),
            final(tags)@.len() == old(tags)@.len(),
            final(self)@.len() == 32,
            reg < 32 ==> r is Ok && final(self)@ == old(self)@.update(reg as int, cap.capa)
                && final(tags)@ == old(tags)@.update(reg as int, cap.valid),
            reg >= 32 ==> r == Err::<(), Exception>(
                Exception::InvalidRegAccess { access: reg_access(reg) },
            ) && final(self)@ == old(self)@ && final(tags)@ == old(tags)@,
    {
        let access = RegAccess { reg, len: 8 };
        match access.check_reg() {
            Ok(()) => {},
            Err(e) => {
                return Err(e);
            },
        }
        let idx = Self::reg_to_idx(reg);
        self.regs[idx] = cap.capability();
        let _ = tags.write_reg(reg, cap.is_valid());
        Ok(())
    }

    /// Writes a grain to a register as data: its tag is cleared.
    pub fn write_data(&mut self, tags: &mut TagController, reg: u8, val: UGran) -> (r: Result<
        (),
        Exception,
    >)
        requires
            old(tags).wf(),
        ensures
            final(tags).wf(),
            final(tags)@.len() == old(tags)@.len(),
            final(self)@.len() == 32,
            reg < 32 ==> r is Ok && final(self)@ == old(self)@.update(reg as int, cap_decode(val))
                && final(tags)@ == old(tags)@.update(reg as int, false),
            reg >= 32 ==> r == Err::<(), Exception>(
                Exception::InvalidRegAccess { access: reg_access(reg) },
            ) && final(self)@ == old(self)@ && final(tags)@ == old(tags)@,
    {
        self.write(tags, reg, TaggedCapability::from_ugran(val))
    }

    /// Writes a value of the type `T` to the low bytes of a register; the
    /// bytes above it become zero. The tag becomes what the type's write
    /// leaves.
    pub fn write_ty<T: Ty>(&mut self, tags: &mut TagController, reg: u8, val: T) -> (r: Result<
        (),
        Exception,
    >)
        requires
            old(tags).wf(),
        ensures
            final(tags).wf(),
            final(tags)@.len() == old(tags)@.len(),
            final(self)@.len() == 32,
            reg < 32 && T::layout_spec().size <= 8 ==> r is Ok && final(self)@ == old(
                self,
            )@.update(reg as int, reg_written(val)) && final(tags)@ == splice(
                old(tags)@,
                reg as int,
                val.write_tags_spec(Address(0), seq![old(tags)@[reg as int]]),
            ),
            !(reg < 32 && T::layout_spec().size <= 8) ==> r == Err::<(), Exception>(
                Exception::InvalidRegAccess {
                    access: RegAccess { reg, len: T::layout_spec().size },
                },
            ) && final(self)@ == old(self)@ && final(tags)@ == old(tags)@,
    {
        let layout = T::layout();
        let access = RegAccess { reg, len: layout.size };
        match access.check() {
            Ok(()) => {},
            Err(e) => {
                return Err(e);
            },
        }
        let mut data: Vec<u8> = Vec::new();
        let mut i: usize = 0;
        while i < 8
            invariant
                i <= 8,
                data@.len() == i,
                forall|k: int| 0 <= k < i ==> data@[k] == 0u8,
            decreases 8 - i,
        {
            data.push(0);
            i = i + 1;
        }
        proof {
            assert(data@ =~= zero_grain());
            assert(tags_of(tags@, reg as int, Address(0), layout.size) =~= seq![
                tags@[reg as int],
            ]);
            val.lemma_write_len(
                zero_grain().subrange(0, layout.size as int),
                Address(0),
                seq![tags@[reg as int]],
            );
        }
        let _ = val.write(&mut data, 0, Address(0), &mut tags.mem, reg as usize);
        let gran = read_le(data.as_slice());
        let idx = Self::reg_to_idx(reg);
        self.regs[idx] = Capability::from_ugran(gran);
        Ok(())
    }

    /// Whether the register exists.
    pub fn is_reg_valid(reg: u8) -> (b: bool)
        ensures
            b == (reg < 32),
    {
        reg < 32
    }

    /// Whether `len` bytes fit in a register.
    pub fn is_len_valid(len: UAddr) -> (b: bool)
        ensures
            b == (len <= 8),
    {
        len <= 8
    }

    /// The layout of a register: that of a grain.
    pub fn layout() -> (l: Layout)
        ensures
            l == UGran::layout_spec(),
    {
        int_layout(8)
    }

    /// The slot of a register.
    fn reg_to_idx(reg: u8) -> (idx: usize)
        requires
            reg < 32,
        ensures
            idx == reg,
    {
        reg as usize
    }
}

} // verus!

verus! {

/// The names of the registers.
#[derive(Clone, Copy, Debug, PartialEq, Eq, Structural)]
pub enum Register {
    Zero,
    Pc,
    Ra,
    Sp,
    T0,
    T1,
    T2,
    T3,
    T4,
    T5,
    T6,
    A0,
    A1,
    A2,
    A3,
    A4,
    A5,
    A6,
    A7,
    S0,
    S1,
    S2,
    S3,
    S4,
    S5,
    S6,
    S7,
    S8,
    S9,
    S10,
    S11,
    /// Reserved; by convention it holds the handle of the parent allocator.
    Z0,
}

impl Register {
    /// The number of the register.
    pub open spec fn to_byte_spec(self) -> u8 {
        match self {
            Register::Zero => 0,
            Register::Pc => 1,
            Register::Ra => 2,
            Register::Sp => 3,
            Register::T0 => 4,
            Register::T1 => 5,
            Register::T2 => 6,
            Register::T3 => 7,
            Register::T4 => 8,
            Register::T5 => 9,
            Register::T6 => 10,
            Register::A0 => 11,
            Register::A1 => 12,
            Register::A2 => 13,
            Register::A3 => 14,
            Register::A4 => 15,
            Register::A5 => 16,
            Register::A6 => 17,
            Register::A7 => 18,
            Register::S0 => 19,
            Register::S1 => 20,
            Register::S2 => 21,
            Register::S3 => 22,
            Register::S4 => 23,
            Register::S5 => 24,
            Register::S6 => 25,
            Register::S7 => 26,
            Register::S8 => 27,
            Register::S9 => 28,
            Register::S10 => 29,
            Register::S11 => 30,
            Register::Z0 => 31,
        }
    }

    /// The name of the register.
    pub open spec fn display_spec(self) -> Seq<char> {
        match self {
            Register::Zero => "zero"@,
            Register::Pc => "pc"@,
            Register::Ra => "ra"@,
            Register::Sp => "sp"@,
            Register::T0 => "t0"@,
            Register::T1 => "t1"@,
            Register::T2 => "t2"@,
            Register::T3 => "t3"@,
            Register::T4 => "t4"@,
            Register::T5 => "t5"@,
            Register::T6 => "t6"@,
            Register::A0 => "a0"@,
            Register::A1 => "a1"@,
            Register::A2 => "a2"@,
            Register::A3 => "a3"@,
            Register::A4 => "a4"@,
            Register::A5 => "a5"@,
            Register::A6 => "a6"@,
            Register::A7 => "a7"@,
            Register::S0 => "s0"@,
            Register::S1 => "s1"@,
            Register::S2 => "s2"@,
            Register::S3 => "s3"@,
            Register::S4 => "s4"@,
            Register::S5 => "s5"@,
            Register::S6 => "s6"@,
            Register::S7 => "s7"@,
            Register::S8 => "s8"@,
            Register::S9 => "s9"@,
            Register::S10 => "s10"@,
            Register::S11 => "s11"@,
            Register::Z0 => "z0"@,
        }
    }

    /// The number of the register.
    pub fn to_byte(self) -> (b: u8)
        ensures
            b == self.to_byte_spec(),
            b < 32,
    {
        match self {
            Register::Zero => 0,
            Register::Pc => 1,
            Register::Ra => 2,
            Register::Sp => 3,
            Register::T0 => 4,
            Register::T1 => 5,
            Register::T2 => 6,
            Register::T3 => 7,
            Register::T4 => 8,
            Register::T5 => 9,
            Register::T6 => 10,
            Register::A0 => 11,
            Register::A1 => 12,
            Register::A2 => 13,
            Register::A3 => 14,
            Register::A4 => 15,
            Register::A5 => 16,
            Register::A6 => 17,
            Register::A7 => 18,
            Register::S0 => 19,
            Register::S1 => 20,
            Register::S2 => 21,
            Register::S3 => 22,
            Register::S4 => 23,
            Register::S5 => 24,
            Register::S6 => 25,
            Register::S7 => 26,
            Register::S8 => 27,
            Register::S9 => 28,
            Register::S10 => 29,
            Register::S11 => 30,
            Register::Z0 => 31,
        }
    }

    /// The register with the given number.
    pub fn from_byte(byte: u8) -> (r: Option<Register>)
        ensures
            match r {
                Some(reg) => reg.to_byte_spec() == byte,
                None => byte >= 32,
            },
    {
        match byte {
            0 => Some(Register::Zero),
            1 => Some(Register::Pc),
            2 => Some(Register::Ra),
            3 => Some(Register::Sp),
            4 => Some(Register::T0),
            5 => Some(Register::T1),
            6 => Some(Register::T2),
            7 => Some(Register::T3),
            8 => Some(Register::T4),
            9 => Some(Register::T5),
            10 => Some(Register::T6),
            11 => Some(Register::A0),
            12 => Some(Register::A1),
            13 => Some(Register::A2),
            14 => Some(Register::A3),
            15 => Some(Register::A4),
            16 => Some(Register::A5),
            17 => Some(Register::A6),
            18 => Some(Register::A7),
            19 => Some(Register::S0),
            20 => Some(Register::S1),
            21 => Some(Register::S2),
            22 => Some(Register::S3),
            23 => Some(Register::S4),
            24 => Some(Register::S5),
            25 => Some(Register::S6),
            26 => Some(Register::S7),
            27 => Some(Register::S8),
            28 => Some(Register::S9),
            29 => Some(Register::S10),
            30 => Some(Register::S11),
            31 => Some(Register::Z0),
            _ => None,
        }
    }

    /// The name of the register.
    pub fn display(self) -> (s: &'static str)
        ensures
            s@ == self.display_spec(),
    {
        match self {
            Register::Zero => "zero",
            Register::Pc => "pc",
            Register::Ra => "ra",
            Register::Sp => "sp",
            Register::T0 => "t0",
            Register::T1 => "t1",
            Register::T2 => "t2",
            Register::T3 => "t3",
            Register::T4 => "t4",
            Register::T5 => "t5",
            Register::T6 => "t6",
            Register::A0 => "a0",
            Register::A1 => "a1",
            Register::A2 => "a2",
            Register::A3 => "a3",
            Register::A4 => "a4",
            Register::A5 => "a5",
            Register::A6 => "a6",
            Register::A7 => "a7",
            Register::S0 => "s0",
            Register::S1 => "s1",
            Register::S2 => "s2",
            Register::S3 => "s3",
            Register::S4 => "s4",
            Register::S5 => "s5",
            Register::S6 => "s6",
            Register::S7 => "s7",
            Register::S8 => "s8",
            Register::S9 => "s9",
            Register::S10 => "s10",
            Register::S11 => "s11",
            Register::Z0 => "z0",
        }
    }

    /// The register with the given name: of the registers named `s`, the
    /// one with the least number.
    pub fn from_str(s: &str) -> (r: Option<Register>)
        ensures
            match r {
                Some(reg) => reg.display_spec() == s@ && forall|k: Register|
                    k.to_byte_spec() < reg.to_byte_spec() ==> #[trigger] k.display_spec() != s@,
                None => forall|k: Register| #[trigger] k.display_spec() != s@,
            },
    {
        let wanted = s.to_owned();
        let mut byte: u8 = 0;
        while byte < 32
            invariant
                byte <= 32,
                wanted@ == s@,
                forall|k: Register| k.to_byte_spec() < byte ==> #[trigger] k.display_spec() != s@,
            decreases 32 - byte,
        {
            match Self::from_byte(byte) {
                Some(reg) => {
                    let name = reg.display().to_owned();
                    if name == wanted {
                        return Some(reg);
                    }
                    proof {
                        assert forall|k: Register| k.to_byte_spec() < byte + 1 implies #[trigger] k.display_spec()
                            != s@ by {
                            if k.to_byte_spec() == byte {
                                Self::lemma_to_byte_injective(k, reg);
                            }
                        }
                    }
                },
                None => {},
            }
            byte = byte + 1;
        }
        proof {
            assert forall|k: Register| #[trigger] k.display_spec() != s@ by {
                Self::lemma_to_byte_bound(k);
            }
        }
        None
    }

    /// The register that a byte names, for a byte that names one.
    pub open spec fn kind_of(byte: u8) -> Register {
        choose|k: Register| k.to_byte_spec() == byte
    }

    /// The register with the least byte from `from` on whose name is
    /// `name`, as bytes.
    pub open spec fn named_from(name: Seq<u8>, from: int) -> Option<Register>
        decreases 31 + 1 - from,
    {
        if from < 0 || from > 31 {
            None
        } else if vstd::utf8::encode_utf8(Self::kind_of(from as u8).display_spec()) == name {
            Some(Self::kind_of(from as u8))
        } else {
            Self::named_from(name, from + 1)
        }
    }

    /// The register whose name is `name`, as bytes.
    pub open spec fn named(name: Seq<u8>) -> Option<Register> {
        Self::named_from(name, 0)
    }

    /// The register whose name is `name`, as bytes.
    pub fn from_name(name: &[u8]) -> (r: Option<Register>)
        ensures
            r == Self::named(name@),
    {
        let mut byte: u8 = 0;
        while byte <= 31
            invariant
                byte <= 31 + 1,
                Self::named(name@) == Self::named_from(name@, byte as int),
            decreases 31 + 1 - byte,
        {
            match Self::from_byte(byte) {
                Some(kind) => {
                    proof {
                        Self::lemma_to_byte_injective(kind, Self::kind_of(byte));
                    }
                    if crate::assembler::bytes_eq(name, kind.display().as_bytes()) {
                        return Some(kind);
                    }
                },
                None => {},
            }
            byte = byte + 1;
        }
        None
    }

    /// No two registers have the same number.
    pub proof fn lemma_to_byte_injective(a: Register, b: Register)
        requires
            a.to_byte_spec() == b.to_byte_spec(),
        ensures
            a == b,
    {
    }

    /// Every register's number is below thirty-two.
    pub proof fn lemma_to_byte_bound(k: Register)
        ensures
            k.to_byte_spec() < 32,
    {
    }
}

} // verus!

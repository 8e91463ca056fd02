//! The instruction set: operation kinds and encoded operations.

use vstd::prelude::*;
use vstd::std_specs::cmp::PartialEqSpecImpl;
use crate::abi::cap_impls::tagged_layout_spec;
use crate::abi::core_impls::{cleared, clear_tags, int_layout, int_layout_spec};
use crate::abi::structs::{read_field, write_field_bytes, write_field_tags, StructMut, StructRef};
use crate::abi::{
    end_offset_spec, field_offset_spec, layout, lemma_align_value_injective, max_align_spec,
    tags_of, Align, Layout, Ty,
};
use crate::bits::TagBits;
use crate::capability::{cap_decode, Address, Capability, TaggedCapability};
use crate::endian::{
    le_bytes, le_value, lemma_le_bytes_len, lemma_le_value_bound, lemma_pow256_values, read_le,
    splice, write_le,
};
use crate::exception::Exception;
use crate::ints::UGran;

verus! {

/// Enumeration over all operations.
#[derive(Clone, Copy, Debug, PartialEq, Eq, Structural)]
pub enum OpKind {
    /// No-op.
    Nop,
    /// Load the address value from the capability at register `op2` and store
    /// it in register `op1`.
    CGetAddr,
    /// Assign the address value at register `op2` to the capability in register
    /// `op1`.
    CSetAddr,
    /// Load the start and end bound values from the capability at register
    /// `op3` and store them in registers `op1` and `op2`, respectively.
    CGetBound,
    /// Assign the start and end bound values at registers `op2` and `op3`,
    /// respectively, to the capability in register `op1`. If the new bounds are
    /// wider than the old bounds, the capability will be invalidated.
    CSetBound,
    /// Load the permissions bit field from the capability at register `op2` and
    /// store it in register `op1`.
    CGetPerm,
    /// Assign the permissions bit field at register `op2` to the capability in
    /// register `op1`. If the new permissions are more permissive than the old
    /// permissions, the capability will be invalidated.
    CSetPerm,
    /// Place the value 1 in register `op1` if the capability at register `op2`
    /// is valid, else place 0.
    CGetValid,
    /// Load the object type from the capability at register `op2` and store it
    /// in register `op1`.
    CGetType,
    /// Seal the unsealed capability at register `op2` using the sealing
    /// capability at register `op3` and place the result in register `op1`.
    CSeal,
    /// Unseal the sealed capability at register `op2` using the unsealing
    /// capability at register `op3` and place the result in register `op1`.
    CUnseal,
    /// Load capability from register `op2` to register `op1`.
    Cpy,
    /// Load immediate value `op2` into register `op1`.
    LoadI,
    /// Load 8-bit value from memory at register `op2` and zero-extend before
    /// storing it in register `op1`.
    LoadU8,
    /// Load 16-bit value from memory at register `op2` and zero-extend before
    /// storing it in register `op1`.
    LoadU16,
    /// Load 32-bit value from memory at register `op2` and zero-extend before
    /// storing it in register `op1`.
    LoadU32,
    /// Load 64-bit value from memory at register `op2` into register `op1`.
    LoadU64,
    /// Load capability from memory at register `op2` into register `op1`.
    LoadC,
    /// Store 8-bit value from the low bits of register `op2` to memory at
    /// register `op1`.
    Store8,
    /// Store 16-bit value from the low bits of register `op2` to memory at
    /// register `op1`.
    Store16,
    /// Store 32-bit value from the low bits of register `op2` to memory at
    /// register `op1`.
    Store32,
    /// Store 64-bit value from register `op2` to memory at register `op1`.
    Store64,
    /// Store capability from register `op2` to memory at register `op1`.
    StoreC,
    /// Add immediate `op3` to register `op2` and store the result in register
    /// `op1`. Values wrap upon arithmetic overflow.
    AddI,
    /// Add registers `op3` to `op2` and store the result in register `op1`.
    /// Values wrap upon arithmetic overflow.
    Add,
    /// Subtract registers `op3` from `op2` and store the result in register
    /// `op1`. Values wrap upon arithmetic overflow.
    Sub,
    /// Place the value 1 in register `op1` if register `op2` is less than
    /// immediate `op3` when both are treated as signed numbers, else 0 is
    /// written to `op1`.
    SltsI,
    /// Place the value 1 in register `op1` if register `op2` is less than
    /// immediate `op3` when both are treated as unsigned numbers, else 0 is
    /// written to `op1`.
    SltuI,
    /// Place the value 1 in register `op1` if register `op2` is less than
    /// register `op3` when both are treated as signed numbers, else 0 is
    /// written to `op1`.
    Slts,
    /// Place the value 1 in register `op1` if register `op2` is less than
    /// register `op3` when both are treated as unsigned numbers, else 0 is
    /// written to `op1`.
    Sltu,
    /// Perform bitwise XOR on register `op2` and immediate `op3` and store the
    /// result in register `op1`.
    XorI,
    /// Perform bitwise XOR on registers `op2` and `op3` and store the result in
    /// register `op1`.
    Xor,
    /// Perform bitwise OR on register `op2` and immediate `op3` and store the
    /// result in register `op1`.
    OrI,
    /// Perform bitwise OR on registers `op2` and `op3` and store the result in
    /// register `op1`.
    Or,
    /// Perform bitwise AND on register `op2` and immediate `op3` and store the
    /// result in register `op1`.
    AndI,
    /// Perform bitwise AND on registers `op2` and `op3` and store the result in
    /// register `op1`.
    And,
    /// Perform logical left shift on the value in register `op2` by the shift
    /// amount held in immediate `op3` and store the result in register `op1`.
    SllI,
    /// Perform logical left shift on the value in register `op2` by the shift
    /// amount held in register `op3` and store the result in register `op1`.
    Sll,
    /// Perform logical right shift on the value in register `op2` by the shift
    /// amount held in immediate `op3` and store the result in register `op1`.
    SrlI,
    /// Perform logical right shift on the value in register `op2` by the shift
    /// amount held in register `op3` and store the result in register `op1`.
    Srl,
    /// Perform arithmetic right shift on the value in register `op2` by the
    /// shift amount held in immediate `op3` and store the result in register
    /// `op1`.
    SraI,
    /// Perform arithmetic right shift on the value in register `op2` by the
    /// shift amount held in register `op3` and store the result in register
    /// `op1`.
    Sra,
    /// Offset the program counter address by immediate `op2` and store the
    /// return address in register `op1`.
    Jal,
    /// Set the program counter address to the sum of the signed immediate `op3`
    /// and the address in register `op2` and store the return address in
    /// register `op1`.
    Jalr,
    /// Offset the program counter address by immediate `op3` if the values of
    /// registers `op1` and `op2` are equal.
    Beq,
    /// Offset the program counter address by immediate `op3` if the values of
    /// registers `op1` and `op2` are not equal.
    Bne,
    /// Offset the program counter address by immediate `op3` if the value of
    /// register `op1` is less than that of `op2`, using signed comparison.
    Blts,
    /// Offset the program counter address by immediate `op3` if the value of
    /// register `op1` is greater than or equal to that of `op2`, using signed
    /// comparison.
    Bges,
    /// Offset the program counter address by immediate `op3` if the value of
    /// register `op1` is less than that of `op2`, using unsigned comparison.
    Bltu,
    /// Offset the program counter address by immediate `op3` if the value of
    /// register `op1` is greater than or equal to that of `op2`, using
    /// unsigned comparison.
    Bgeu,
    /// Perform a system call. The kind is determined by the value in register
    /// `a2`.
    Syscall,
}

impl OpKind {
    /// The most operands that an operation takes.
    pub const MAX_OPERANDS: usize = 3;

    /// The greatest byte that names an operation.
    pub const MAX_BYTE: u8 = 50;

    /// The byte that names the operation.
    pub open spec fn to_byte_spec(self) -> u8 {
        match self {
            OpKind::Nop => 0,
            OpKind::CGetAddr => 1,
            OpKind::CSetAddr => 2,
            OpKind::CGetBound => 3,
            OpKind::CSetBound => 4,
            OpKind::CGetPerm => 5,
            OpKind::CSetPerm => 6,
            OpKind::CGetValid => 7,
            OpKind::CGetType => 8,
            OpKind::CSeal => 9,
            OpKind::CUnseal => 10,
            OpKind::Cpy => 11,
            OpKind::LoadI => 12,
            OpKind::LoadU8 => 13,
            OpKind::LoadU16 => 14,
            OpKind::LoadU32 => 15,
            OpKind::LoadU64 => 16,
            OpKind::LoadC => 17,
            OpKind::Store8 => 18,
            OpKind::Store16 => 19,
            OpKind::Store32 => 20,
            OpKind::Store64 => 21,
            OpKind::StoreC => 22,
            OpKind::AddI => 23,
            OpKind::Add => 24,
            OpKind::Sub => 25,
            OpKind::SltsI => 26,
            OpKind::SltuI => 27,
            OpKind::Slts => 28,
            OpKind::Sltu => 29,
            OpKind::XorI => 30,
            OpKind::Xor => 31,
            OpKind::OrI => 32,
            OpKind::Or => 33,
            OpKind::AndI => 34,
            OpKind::And => 35,
            OpKind::SllI => 36,
            OpKind::Sll => 37,
            OpKind::SrlI => 38,
            OpKind::Srl => 39,
            OpKind::SraI => 40,
            OpKind::Sra => 41,
            OpKind::Jal => 42,
            OpKind::Jalr => 43,
            OpKind::Beq => 44,
            OpKind::Bne => 45,
            OpKind::Blts => 46,
            OpKind::Bges => 47,
            OpKind::Bltu => 48,
            OpKind::Bgeu => 49,
            OpKind::Syscall => 50,
        }
    }

    /// The number of operands that the operation takes.
    pub open spec fn operand_count_spec(self) -> u8 {
        match self {
            OpKind::Nop => 0,
            OpKind::CGetAddr => 2,
            OpKind::CSetAddr => 2,
            OpKind::CGetBound => 3,
            OpKind::CSetBound => 3,
            OpKind::CGetPerm => 2,
            OpKind::CSetPerm => 2,
            OpKind::CGetValid => 2,
            OpKind::CGetType => 2,
            OpKind::CSeal => 3,
            OpKind::CUnseal => 3,
            OpKind::Cpy => 2,
            OpKind::LoadI => 2,
            OpKind::LoadU8 => 2,
            OpKind::LoadU16 => 2,
            OpKind::LoadU32 => 2,
            OpKind::LoadU64 => 2,
            OpKind::LoadC => 2,
            OpKind::Store8 => 2,
            OpKind::Store16 => 2,
            OpKind::Store32 => 2,
            OpKind::Store64 => 2,
            OpKind::StoreC => 2,
            OpKind::AddI => 3,
            OpKind::Add => 3,
            OpKind::Sub => 3,
            OpKind::SltsI => 3,
            OpKind::SltuI => 3,
            OpKind::Slts => 3,
            OpKind::Sltu => 3,
            OpKind::XorI => 3,
            OpKind::Xor => 3,
            OpKind::OrI => 3,
            OpKind::Or => 3,
            OpKind::AndI => 3,
            OpKind::And => 3,
            OpKind::SllI => 3,
            OpKind::Sll => 3,
            OpKind::SrlI => 3,
            OpKind::Srl => 3,
            OpKind::SraI => 3,
            OpKind::Sra => 3,
            OpKind::Jal => 2,
            OpKind::Jalr => 3,
            OpKind::Beq => 3,
            OpKind::Bne => 3,
            OpKind::Blts => 3,
            OpKind::Bges => 3,
            OpKind::Bltu => 3,
            OpKind::Bgeu => 3,
            OpKind::Syscall => 0,
        }
    }

    /// The mnemonic of the operation.
    pub open spec fn display_spec(self) -> Seq<char> {
        match self {
            OpKind::Nop => "nop"@,
            OpKind::CGetAddr => "cgetaddr"@,
            OpKind::CSetAddr => "csetaddr"@,
            OpKind::CGetBound => "cgetbound"@,
            OpKind::CSetBound => "csetbound"@,
            OpKind::CGetPerm => "cgetperm"@,
            OpKind::CSetPerm => "csetperm"@,
            OpKind::CGetValid => "cgetvalid"@,
            OpKind::CGetType => "cgettype"@,
            OpKind::CSeal => "cseal"@,
            OpKind::CUnseal => "cunseal"@,
            OpKind::Cpy => "cpy"@,
            OpKind::LoadI => "loadi"@,
            OpKind::LoadU8 => "loadu8"@,
            OpKind::LoadU16 => "loadu16"@,
            OpKind::LoadU32 => "loadu32"@,
            OpKind::LoadU64 => "loadu64"@,
            OpKind::LoadC => "loadc"@,
            OpKind::Store8 => "store8"@,
            OpKind::Store16 => "store16"@,
            OpKind::Store32 => "store32"@,
            OpKind::Store64 => "store64"@,
            OpKind::StoreC => "storec"@,
            OpKind::AddI => "addi"@,
            OpKind::Add => "add"@,
            OpKind::Sub => "sub"@,
            OpKind::SltsI => "sltsi"@,
            OpKind::SltuI => "sltui"@,
            OpKind::Slts => "slts"@,
            OpKind::Sltu => "sltu"@,
            OpKind::XorI => "xori"@,
            OpKind::Xor => "xor"@,
            OpKind::OrI => "ori"@,
            OpKind::Or => "or"@,
            OpKind::AndI => "andi"@,
            OpKind::And => "and"@,
            OpKind::SllI => "slli"@,
            OpKind::Sll => "sll"@,
            OpKind::SrlI => "srli"@,
            OpKind::Srl => "srl"@,
            OpKind::SraI => "srai"@,
            OpKind::Sra => "sra"@,
            OpKind::Jal => "jal"@,
            OpKind::Jalr => "jalr"@,
            OpKind::Beq => "beq"@,
            OpKind::Bne => "bne"@,
            OpKind::Blts => "blts"@,
            OpKind::Bges => "bges"@,
            OpKind::Bltu => "bltu"@,
            OpKind::Bgeu => "bgeu"@,
            OpKind::Syscall => "syscall"@,
        }
    }

    /// The byte that names the operation.
    pub fn to_byte(self) -> (b: u8)
        ensures
            b == self.to_byte_spec(),
            b <= Self::MAX_BYTE,
    {
        match self {
            OpKind::Nop => 0,
            OpKind::CGetAddr => 1,
            OpKind::CSetAddr => 2,
            OpKind::CGetBound => 3,
            OpKind::CSetBound => 4,
            OpKind::CGetPerm => 5,
            OpKind::CSetPerm => 6,
            OpKind::CGetValid => 7,
            OpKind::CGetType => 8,
            OpKind::CSeal => 9,
            OpKind::CUnseal => 10,
            OpKind::Cpy => 11,
            OpKind::LoadI => 12,
            OpKind::LoadU8 => 13,
            OpKind::LoadU16 => 14,
            OpKind::LoadU32 => 15,
            OpKind::LoadU64 => 16,
            OpKind::LoadC => 17,
            OpKind::Store8 => 18,
            OpKind::Store16 => 19,
            OpKind::Store32 => 20,
            OpKind::Store64 => 21,
            OpKind::StoreC => 22,
            OpKind::AddI => 23,
            OpKind::Add => 24,
            OpKind::Sub => 25,
            OpKind::SltsI => 26,
            OpKind::SltuI => 27,
            OpKind::Slts => 28,
            OpKind::Sltu => 29,
            OpKind::XorI => 30,
            OpKind::Xor => 31,
            OpKind::OrI => 32,
            OpKind::Or => 33,
            OpKind::AndI => 34,
            OpKind::And => 35,
            OpKind::SllI => 36,
            OpKind::Sll => 37,
            OpKind::SrlI => 38,
            OpKind::Srl => 39,
            OpKind::SraI => 40,
            OpKind::Sra => 41,
            OpKind::Jal => 42,
            OpKind::Jalr => 43,
            OpKind::Beq => 44,
            OpKind::Bne => 45,
            OpKind::Blts => 46,
            OpKind::Bges => 47,
            OpKind::Bltu => 48,
            OpKind::Bgeu => 49,
            OpKind::Syscall => 50,
        }
    }

    /// The operation that a byte names.
    pub fn from_byte(byte: u8) -> (r: Result<OpKind, Exception>)
        ensures
            match r {
                Ok(kind) => kind.to_byte_spec() == byte,
                Err(e) => byte > Self::MAX_BYTE && e == (Exception::InvalidOpKind { byte }),
            },
    {
        match byte {
            0 => Ok(OpKind::Nop),
            1 => Ok(OpKind::CGetAddr),
            2 => Ok(OpKind::CSetAddr),
            3 => Ok(OpKind::CGetBound),
            4 => Ok(OpKind::CSetBound),
            5 => Ok(OpKind::CGetPerm),
            6 => Ok(OpKind::CSetPerm),
            7 => Ok(OpKind::CGetValid),
            8 => Ok(OpKind::CGetType),
            9 => Ok(OpKind::CSeal),
            10 => Ok(OpKind::CUnseal),
            11 => Ok(OpKind::Cpy),
            12 => Ok(OpKind::LoadI),
            13 => Ok(OpKind::LoadU8),
            14 => Ok(OpKind::LoadU16),
            15 => Ok(OpKind::LoadU32),
            16 => Ok(OpKind::LoadU64),
            17 => Ok(OpKind::LoadC),
            18 => Ok(OpKind::Store8),
            19 => Ok(OpKind::Store16),
            20 => Ok(OpKind::Store32),
            21 => Ok(OpKind::Store64),
            22 => Ok(OpKind::StoreC),
            23 => Ok(OpKind::AddI),
            24 => Ok(OpKind::Add),
            25 => Ok(OpKind::Sub),
            26 => Ok(OpKind::SltsI),
            27 => Ok(OpKind::SltuI),
            28 => Ok(OpKind::Slts),
            29 => Ok(OpKind::Sltu),
            30 => Ok(OpKind::XorI),
            31 => Ok(OpKind::Xor),
            32 => Ok(OpKind::OrI),
            33 => Ok(OpKind::Or),
            34 => Ok(OpKind::AndI),
            35 => Ok(OpKind::And),
            36 => Ok(OpKind::SllI),
            37 => Ok(OpKind::Sll),
            38 => Ok(OpKind::SrlI),
            39 => Ok(OpKind::Srl),
            40 => Ok(OpKind::SraI),
            41 => Ok(OpKind::Sra),
            42 => Ok(OpKind::Jal),
            43 => Ok(OpKind::Jalr),
            44 => Ok(OpKind::Beq),
            45 => Ok(OpKind::Bne),
            46 => Ok(OpKind::Blts),
            47 => Ok(OpKind::Bges),
            48 => Ok(OpKind::Bltu),
            49 => Ok(OpKind::Bgeu),
            50 => Ok(OpKind::Syscall),
            _ => Err(Exception::InvalidOpKind { byte }),
        }
    }

    /// The number of operands that the operation takes.
    pub fn operand_count(self) -> (n: u8)
        ensures
            n == self.operand_count_spec(),
            n <= 3,
    {
        match self {
            OpKind::Nop => 0,
            OpKind::CGetAddr => 2,
            OpKind::CSetAddr => 2,
            OpKind::CGetBound => 3,
            OpKind::CSetBound => 3,
            OpKind::CGetPerm => 2,
            OpKind::CSetPerm => 2,
            OpKind::CGetValid => 2,
            OpKind::CGetType => 2,
            OpKind::CSeal => 3,
            OpKind::CUnseal => 3,
            OpKind::Cpy => 2,
            OpKind::LoadI => 2,
            OpKind::LoadU8 => 2,
            OpKind::LoadU16 => 2,
            OpKind::LoadU32 => 2,
            OpKind::LoadU64 => 2,
            OpKind::LoadC => 2,
            OpKind::Store8 => 2,
            OpKind::Store16 => 2,
            OpKind::Store32 => 2,
            OpKind::Store64 => 2,
            OpKind::StoreC => 2,
            OpKind::AddI => 3,
            OpKind::Add => 3,
            OpKind::Sub => 3,
            OpKind::SltsI => 3,
            OpKind::SltuI => 3,
            OpKind::Slts => 3,
            OpKind::Sltu => 3,
            OpKind::XorI => 3,
            OpKind::Xor => 3,
            OpKind::OrI => 3,
            OpKind::Or => 3,
            OpKind::AndI => 3,
            OpKind::And => 3,
            OpKind::SllI => 3,
            OpKind::Sll => 3,
            OpKind::SrlI => 3,
            OpKind::Srl => 3,
            OpKind::SraI => 3,
            OpKind::Sra => 3,
            OpKind::Jal => 2,
            OpKind::Jalr => 3,
            OpKind::Beq => 3,
            OpKind::Bne => 3,
            OpKind::Blts => 3,
            OpKind::Bges => 3,
            OpKind::Bltu => 3,
            OpKind::Bgeu => 3,
            OpKind::Syscall => 0,
        }
    }

    /// The mnemonic of the operation.
    pub fn display(self) -> (s: &'static str)
        ensures
            s@ == self.display_spec(),
    {
        match self {
            OpKind::Nop => "nop",
            OpKind::CGetAddr => "cgetaddr",
            OpKind::CSetAddr => "csetaddr",
            OpKind::CGetBound => "cgetbound",
            OpKind::CSetBound => "csetbound",
            OpKind::CGetPerm => "cgetperm",
            OpKind::CSetPerm => "csetperm",
            OpKind::CGetValid => "cgetvalid",
            OpKind::CGetType => "cgettype",
            OpKind::CSeal => "cseal",
            OpKind::CUnseal => "cunseal",
            OpKind::Cpy => "cpy",
            OpKind::LoadI => "loadi",
            OpKind::LoadU8 => "loadu8",
            OpKind::LoadU16 => "loadu16",
            OpKind::LoadU32 => "loadu32",
            OpKind::LoadU64 => "loadu64",
            OpKind::LoadC => "loadc",
            OpKind::Store8 => "store8",
            OpKind::Store16 => "store16",
            OpKind::Store32 => "store32",
            OpKind::Store64 => "store64",
            OpKind::StoreC => "storec",
            OpKind::AddI => "addi",
            OpKind::Add => "add",
            OpKind::Sub => "sub",
            OpKind::SltsI => "sltsi",
            OpKind::SltuI => "sltui",
            OpKind::Slts => "slts",
            OpKind::Sltu => "sltu",
            OpKind::XorI => "xori",
            OpKind::Xor => "xor",
            OpKind::OrI => "ori",
            OpKind::Or => "or",
            OpKind::AndI => "andi",
            OpKind::And => "and",
            OpKind::SllI => "slli",
            OpKind::Sll => "sll",
            OpKind::SrlI => "srli",
            OpKind::Srl => "srl",
            OpKind::SraI => "srai",
            OpKind::Sra => "sra",
            OpKind::Jal => "jal",
            OpKind::Jalr => "jalr",
            OpKind::Beq => "beq",
            OpKind::Bne => "bne",
            OpKind::Blts => "blts",
            OpKind::Bges => "bges",
            OpKind::Bltu => "bltu",
            OpKind::Bgeu => "bgeu",
            OpKind::Syscall => "syscall",
        }
    }

    /// The operation with the given mnemonic: of the operations whose
    /// mnemonic is `s`, the one with the least byte.
    pub fn from_str(s: &str) -> (r: Option<OpKind>)
        ensures
            match r {
                Some(kind) => kind.display_spec() == s@ && forall|k: OpKind|
                    k.to_byte_spec() < kind.to_byte_spec() ==> #[trigger] k.display_spec() != s@,
                None => forall|k: OpKind| #[trigger] k.display_spec() != s@,
            },
    {
        let wanted = s.to_owned();
        let mut byte: u8 = 0;
        while byte <= Self::MAX_BYTE
            invariant
                byte <= Self::MAX_BYTE + 1,
                wanted@ == s@,
                forall|k: OpKind| k.to_byte_spec() < byte ==> #[trigger] k.display_spec() != s@,
            decreases Self::MAX_BYTE + 1 - byte,
        {
            match Self::from_byte(byte) {
                Ok(kind) => {
                    let name = kind.display().to_owned();
                    if name == wanted {
                        return Some(kind);
                    }
                    proof {
                        assert forall|k: OpKind| k.to_byte_spec() < byte + 1 implies #[trigger] k.display_spec()
                            != s@ by {
                            if k.to_byte_spec() == byte {
                                Self::lemma_to_byte_injective(k, kind);
                            }
                        }
                    }
                },
                Err(_) => {},
            }
            byte = byte + 1;
        }
        proof {
            assert forall|k: OpKind| #[trigger] k.display_spec() != s@ by {
                Self::lemma_to_byte_bound(k);
            }
        }
        None
    }

    /// The operation that a byte names, for a byte that names one.
    pub open spec fn kind_of(byte: u8) -> OpKind {
        choose|k: OpKind| k.to_byte_spec() == byte
    }

    /// The operation with the least byte from `from` on whose mnemonic is
    /// `name`, as bytes.
    pub open spec fn named_from(name: Seq<u8>, from: int) -> Option<OpKind>
        decreases 50 + 1 - from,
    {
        if from < 0 || from > 50 {
            None
        } else if vstd::utf8::encode_utf8(Self::kind_of(from as u8).display_spec()) == name {
            Some(Self::kind_of(from as u8))
        } else {
            Self::named_from(name, from + 1)
        }
    }

    /// The operation whose mnemonic is `name`, as bytes.
    pub open spec fn named(name: Seq<u8>) -> Option<OpKind> {
        Self::named_from(name, 0)
    }

    /// The operation whose mnemonic is `name`, as bytes.
    pub fn from_name(name: &[u8]) -> (r: Option<OpKind>)
        ensures
            r == Self::named(name@),
    {
        let mut byte: u8 = 0;
        while byte <= 50
            invariant
                byte <= 50 + 1,
                Self::named(name@) == Self::named_from(name@, byte as int),
            decreases 50 + 1 - byte,
        {
            match Self::from_byte(byte) {
                Ok(kind) => {
                    proof {
                        Self::lemma_to_byte_injective(kind, Self::kind_of(byte));
                    }
                    if crate::assembler::bytes_eq(name, kind.display().as_bytes()) {
                        return Some(kind);
                    }
                },
                Err(_) => {},
            }
            byte = byte + 1;
        }
        None
    }

    /// No two operations are named by the same byte.
    pub proof fn lemma_to_byte_injective(a: OpKind, b: OpKind)
        requires
            a.to_byte_spec() == b.to_byte_spec(),
        ensures
            a == b,
    {
    }

    /// Every operation is named by a byte up to the greatest.
    pub proof fn lemma_to_byte_bound(k: OpKind)
        ensures
            k.to_byte_spec() <= Self::MAX_BYTE,
    {
    }
}

impl Ty for OpKind {
    open spec fn layout_spec() -> Layout {
        int_layout_spec(1)
    }

    /// The operation that the byte names, or `InvalidOpKind` with the
    /// byte.
    open spec fn read_spec(bytes: Seq<u8>, addr: Address, tags: Seq<bool>) -> Result<Self, Exception> {
        let byte = le_value(bytes) as u8;
        if byte <= Self::MAX_BYTE {
            Ok(Self::kind_of(byte))
        } else {
            Err(Exception::InvalidOpKind { byte })
        }
    }

    open spec fn write_bytes_spec(self, bytes: Seq<u8>, addr: Address) -> Seq<u8> {
        le_bytes(self.to_byte_spec() as nat, 1)
    }

    open spec fn write_tags_spec(self, addr: Address, tags: Seq<bool>) -> Seq<bool> {
        cleared(tags)
    }

    proof fn lemma_write_len(self, bytes: Seq<u8>, addr: Address, tags: Seq<bool>) {
        lemma_le_bytes_len(self.to_byte_spec() as nat, 1);
    }

    fn layout() -> (l: Layout) {
        int_layout(1)
    }

    fn read(src: &[u8], addr: Address, tags: &TagBits, tpos: usize) -> (r: Result<Self, Exception>) {
        proof {
            lemma_le_value_bound(src@);
            lemma_pow256_values();
        }
        let byte = read_le(src) as u8;
        let r = Self::from_byte(byte);
        proof {
            if let Ok(kind) = r {
                Self::lemma_to_byte_injective(kind, Self::kind_of(byte));
            }
        }
        r
    }

    fn write(self, dst: &mut Vec<u8>, pos: usize, addr: Address, tags: &mut TagBits, tpos: usize) -> (r:
        Result<(), Exception>) {
        clear_tags(tags, tpos, addr, 1);
        write_le(self.to_byte() as u64, 1, dst, pos);
        Ok(())
    }
}

/// One encoded operation: its kind and three operand slots of one grain
/// each. The kind says how many of the slots are used.
#[derive(Clone, Copy, Debug)]
pub struct Op {
    pub kind: OpKind,
    pub op1: TaggedCapability,
    pub op2: TaggedCapability,
    pub op3: TaggedCapability,
}

impl Op {
    /// Whether two operations are of one kind and agree in the operands
    /// that the kind uses.
    pub open spec fn same(self, other: Op) -> bool {
        &&& self.kind == other.kind
        &&& (self.kind.operand_count_spec() >= 1 ==> self.op1 == other.op1)
        &&& (self.kind.operand_count_spec() >= 2 ==> self.op2 == other.op2)
        &&& (self.kind.operand_count_spec() >= 3 ==> self.op3 == other.op3)
    }

    /// The operation of the given kind and operands.
    pub fn new(kind: OpKind, op1: TaggedCapability, op2: TaggedCapability, op3: TaggedCapability) -> (op:
        Op)
        ensures
            op == (Op { kind, op1, op2, op3 }),
    {
        Op { kind, op1, op2, op3 }
    }

    /// The operation that does nothing.
    pub fn nop() -> (op: Op)
        ensures
            op == Self::bare_spec(OpKind::Nop),
    {
        Op {
            kind: OpKind::Nop,
            op1: TaggedCapability::invalid(),
            op2: TaggedCapability::invalid(),
            op3: TaggedCapability::invalid(),
        }
    }

    /// The operation that loads `imm` into the register `dst`.
    pub fn loadi(dst: u8, imm: TaggedCapability) -> (op: Op)
        ensures
            op == (Op {
                kind: OpKind::LoadI,
                op1: TaggedCapability { capa: cap_decode(dst as UGran), valid: false },
                op2: imm,
                op3: Self::unused_slot(),
            }),
    {
        Op {
            kind: OpKind::LoadI,
            op1: TaggedCapability::from_ugran(dst as UGran),
            op2: imm,
            op3: TaggedCapability::invalid(),
        }
    }

    /// The operation that performs a system call.
    pub fn syscall() -> (op: Op)
        ensures
            op == Self::bare_spec(OpKind::Syscall),
    {
        Op {
            kind: OpKind::Syscall,
            op1: TaggedCapability::invalid(),
            op2: TaggedCapability::invalid(),
            op3: TaggedCapability::invalid(),
        }
    }

    /// What an operand slot holds that its operation does not use: an
    /// invalid capability over uninitialised fields.
    pub open spec fn unused_slot() -> TaggedCapability {
        TaggedCapability { capa: Capability::invalid_spec(), valid: false }
    }

    /// The operation of the given kind with no operand slot used.
    pub open spec fn bare_spec(kind: OpKind) -> Op {
        Op {
            kind,
            op1: Self::unused_slot(),
            op2: Self::unused_slot(),
            op3: Self::unused_slot(),
        }
    }
}

impl PartialEq for Op {
    /// Operand slots that the kind does not use are ignored.
    fn eq(&self, other: &Op) -> (b: bool) {
        let n = self.kind.operand_count();
        self.kind == other.kind && (n < 1 || self.op1 == other.op1) && (n < 2 || self.op2
            == other.op2) && (n < 3 || self.op3 == other.op3)
    }
}

impl Eq for Op {

}

impl PartialEqSpecImpl for Op {
    open spec fn obeys_eq_spec() -> bool {
        true
    }

    open spec fn eq_spec(&self, other: &Op) -> bool {
        self.same(*other)
    }
}

/// The fields of an operation in memory: the kind, then the operands.
pub open spec fn op_fields_spec() -> Seq<Layout> {
    seq![int_layout_spec(1), tagged_layout_spec(), tagged_layout_spec(), tagged_layout_spec()]
}

/// The fields of an operation in memory: the kind, then the operands.
pub fn op_fields() -> (f: Vec<Layout>)
    ensures
        f@ == op_fields_spec(),
{
    let mut f: Vec<Layout> = Vec::new();
    f.push(OpKind::layout());
    f.push(TaggedCapability::layout());
    f.push(TaggedCapability::layout());
    f.push(TaggedCapability::layout());
    proof {
        assert(f@ =~= op_fields_spec());
    }
    f
}

/// Where the fields of an operation lie.
pub proof fn lemma_op_fields()
    ensures
        field_offset_spec(op_fields_spec(), 0) == 0,
        field_offset_spec(op_fields_spec(), 1) == 8,
        field_offset_spec(op_fields_spec(), 2) == 16,
        field_offset_spec(op_fields_spec(), 3) == 24,
        end_offset_spec(op_fields_spec(), 4) == 32,
        max_align_spec(op_fields_spec(), 4) == 8,
{
    reveal_with_fuel(field_offset_spec, 5);
    reveal_with_fuel(end_offset_spec, 5);
    reveal_with_fuel(max_align_spec, 5);
    vstd::arithmetic::power2::lemma2_to64();
}

/// The layout of an operation: thirty-two bytes, aligned to a grain.
pub open spec fn op_layout_spec() -> Layout {
    Layout { size: 32, align: Align::from_exp_spec(3) }
}

impl Ty for Op {
    open spec fn layout_spec() -> Layout {
        op_layout_spec()
    }

    open spec fn read_spec(bytes: Seq<u8>, addr: Address, tags: Seq<bool>) -> Result<Self, Exception> {
        match read_field::<OpKind>(bytes, addr, tags, 0) {
            Ok(kind) => Ok(
                Op {
                    kind,
                    op1: read_field::<TaggedCapability>(bytes, addr, tags, 8)->Ok_0,
                    op2: read_field::<TaggedCapability>(bytes, addr, tags, 16)->Ok_0,
                    op3: read_field::<TaggedCapability>(bytes, addr, tags, 24)->Ok_0,
                },
            ),
            Err(e) => Err(e),
        }
    }

    open spec fn write_bytes_spec(self, bytes: Seq<u8>, addr: Address) -> Seq<u8> {
        write_field_bytes(
            self.op3,
            write_field_bytes(
                self.op2,
                write_field_bytes(self.op1, write_field_bytes(self.kind, bytes, addr, 0), addr, 8),
                addr,
                16,
            ),
            addr,
            24,
        )
    }

    open spec fn write_tags_spec(self, addr: Address, tags: Seq<bool>) -> Seq<bool> {
        write_field_tags(
            self.op3,
            addr,
            write_field_tags(
                self.op2,
                addr,
                write_field_tags(self.op1, addr, write_field_tags(self.kind, addr, tags, 0), 8),
                16,
            ),
            24,
        )
    }

    proof fn lemma_write_len(self, bytes: Seq<u8>, addr: Address, tags: Seq<bool>) {
    }

    fn layout() -> (l: Layout) {
        let fields = op_fields();
        proof {
            lemma_op_fields();
        }
        let l = layout(fields.as_slice());
        proof {
            vstd::arithmetic::power2::lemma2_to64();
            lemma_align_value_injective(l.align, Align::from_exp_spec(3));
        }
        l
    }

    fn read(src: &[u8], addr: Address, tags: &TagBits, tpos: usize) -> (r: Result<Self, Exception>) {
        let fields = op_fields();
        proof {
            lemma_op_fields();
        }
        let mut walker = StructRef::new(src, addr, tags, tpos, fields.as_slice());
        let kind = match walker.read_next::<OpKind>() {
            Ok(v) => v,
            Err(e) => {
                return Err(e);
            },
        };
        let op1 = match walker.read_next::<TaggedCapability>() {
            Ok(v) => v,
            Err(e) => {
                return Err(e);
            },
        };
        let op2 = match walker.read_next::<TaggedCapability>() {
            Ok(v) => v,
            Err(e) => {
                return Err(e);
            },
        };
        let op3 = match walker.read_next::<TaggedCapability>() {
            Ok(v) => v,
            Err(e) => {
                return Err(e);
            },
        };
        Ok(Op { kind, op1, op2, op3 })
    }

    fn write(self, dst: &mut Vec<u8>, pos: usize, addr: Address, tags: &mut TagBits, tpos: usize) -> (r:
        Result<(), Exception>) {
        let fields = op_fields();
        proof {
            lemma_op_fields();
        }
        let mut walker = StructMut::new(pos, addr, tpos, fields.as_slice());
        let ghost bytes0 = dst@.subrange(pos as int, pos + 32);
        let ghost tags0 = tags_of(tags@, tpos as int, addr, 32);
        let ghost b1 = write_field_bytes(self.kind, bytes0, addr, 0);
        let ghost t1 = write_field_tags(self.kind, addr, tags0, 0);
        let ghost b2 = write_field_bytes(self.op1, b1, addr, 8);
        let ghost t2 = write_field_tags(self.op1, addr, t1, 8);
        let ghost b3 = write_field_bytes(self.op2, b2, addr, 16);
        let ghost t3 = write_field_tags(self.op2, addr, t2, 16);
        let _ = walker.write_next(self.kind, dst, tags);
        proof {
            assert(dst@.subrange(pos as int, pos + 32) =~= b1);
            assert(tags_of(tags@, tpos as int, addr, 32) =~= t1);
            assert(dst@ =~= splice(old(dst)@, pos as int, b1));
            assert(tags@ =~= splice(old(tags)@, tpos as int, t1));
        }
        let _ = walker.write_next(self.op1, dst, tags);
        proof {
            assert(dst@.subrange(pos as int, pos + 32) =~= b2);
            assert(tags_of(tags@, tpos as int, addr, 32) =~= t2);
            assert(dst@ =~= splice(old(dst)@, pos as int, b2));
            assert(tags@ =~= splice(old(tags)@, tpos as int, t2));
        }
        let _ = walker.write_next(self.op2, dst, tags);
        proof {
            assert(dst@.subrange(pos as int, pos + 32) =~= b3);
            assert(tags_of(tags@, tpos as int, addr, 32) =~= t3);
            assert(dst@ =~= splice(old(dst)@, pos as int, b3));
            assert(tags@ =~= splice(old(tags)@, tpos as int, t3));
        }
        let _ = walker.write_next(self.op3, dst, tags);
        proof {
            assert(dst@ =~= splice(old(dst)@, pos as int, write_field_bytes(self.op3, b3, addr, 24)));
            assert(tags@ =~= splice(
                old(tags)@,
                tpos as int,
                write_field_tags(self.op3, addr, t3, 24),
            ));
        }
        Ok(())
    }
}

} // verus!

//! The execution engine: what each operation does to the machine.

use vstd::prelude::*;
use crate::abi::{Layout, Ty};
use crate::access::{MemAccess, MemAccessKind, RegAccess};
use crate::allocator::{
    alloc_spec, allocate, deinit, deinit_spec, free, free_all, free_all_spec, init, init_spec,
    open_spec, stat, stat_spec, InitFlags, Stats, Strategy,
};
use crate::capability::{cap_decode, cap_encode, Address, Permissions, TaggedCapability};
use crate::endian::splice;
use crate::exception::Exception;
use crate::ints::{addr_sign, addr_sign_spec, gran_sign, gran_sign_spec, SAddr, UAddr, UGran};
use crate::mem::{MachineState, Memory};
use crate::op::{op_layout_spec, Op, OpKind};
use crate::registers::{reg_access, reg_bytes, reg_data_spec, reg_read_spec, reg_written, Register};
use crate::syscall::SyscallKind;

verus! {

/// What one operation leaves: the machine, and either an exception or the
/// address at which execution goes on, where the operation chose one.
pub type Outcome = (MachineState, Result<Option<TaggedCapability>, Exception>);

/// The register that an operand names: the low byte of its grain.
pub open spec fn reg_of(operand: TaggedCapability) -> u8 {
    (cap_encode(operand.capa) % 0x100) as u8
}

/// The offset that an operand holds: the low bits of its grain, as a
/// signed address.
pub open spec fn offset_of(operand: TaggedCapability) -> SAddr {
    addr_sign_spec((cap_encode(operand.capa) % 0x1_0000) as UAddr) as SAddr
}

impl MachineState {
    /// What a read of a register with its tag gives.
    pub open spec fn reg(self, reg: u8) -> Result<TaggedCapability, Exception> {
        if reg < 32 {
            Ok(reg_read_spec(self.regs, self.tags, reg))
        } else {
            Err(Exception::InvalidRegAccess { access: reg_access(reg) })
        }
    }

    /// What a read of a register's grain gives.
    pub open spec fn reg_data(self, reg: u8) -> Result<UGran, Exception> {
        if reg < 32 {
            Ok(reg_data_spec(self.regs, reg))
        } else {
            Err(Exception::InvalidRegAccess { access: reg_access(reg) })
        }
    }

    /// What a read of a value of the type `T` from a register gives.
    pub open spec fn reg_ty<T: Ty>(self, reg: u8) -> Result<T, Exception> {
        if reg >= 32 {
            Err(Exception::InvalidRegAccess { access: reg_access(reg) })
        } else if T::layout_spec().size > 8 {
            Err(
                Exception::InvalidRegAccess {
                    access: RegAccess { reg, len: T::layout_spec().size },
                },
            )
        } else {
            T::read_spec(
                reg_bytes::<T>(reg_data_spec(self.regs, reg)),
                Address(0),
                seq![self.tags[reg as int]],
            )
        }
    }

    /// The machine after a capability has been written to a register.
    pub open spec fn put(self, reg: u8, cap: TaggedCapability) -> Outcome {
        if reg < 32 {
            (self.with_reg(reg, cap), Ok(None))
        } else {
            (self, Err(Exception::InvalidRegAccess { access: reg_access(reg) }))
        }
    }

    /// The machine after a grain has been written to a register as data.
    pub open spec fn put_data(self, reg: u8, val: UGran) -> Outcome {
        self.put(reg, TaggedCapability { capa: cap_decode(val), valid: false })
    }

    /// The machine after a value of the type `T` has been written to a
    /// register.
    pub open spec fn put_ty<T: Ty>(self, reg: u8, val: T) -> Outcome {
        if reg < 32 && T::layout_spec().size <= 8 {
            (
                MachineState {
                    mem: self.mem,
                    regs: self.regs.update(reg as int, reg_written(val)),
                    tags: splice(
                        self.tags,
                        reg as int,
                        val.write_tags_spec(Address(0), seq![self.tags[reg as int]]),
                    ),
                },
                Ok(None),
            )
        } else {
            (
                self,
                Err(
                    Exception::InvalidRegAccess {
                        access: RegAccess { reg, len: T::layout_spec().size },
                    },
                ),
            )
        }
    }
}

/// The operations that read a field of the capability in a register.
pub open spec fn cap_get_spec(st: MachineState, op: Op) -> Outcome {
    let src = if op.kind == OpKind::CGetBound {
        reg_of(op.op3)
    } else {
        reg_of(op.op2)
    };
    match st.reg(src) {
        Err(e) => (st, Err(e)),
        Ok(cap) => match op.kind {
            OpKind::CGetAddr => st.put_ty(reg_of(op.op1), cap.capa.addr),
            OpKind::CGetPerm => st.put_ty(reg_of(op.op1), cap.capa.perms),
            OpKind::CGetType => st.put_ty(reg_of(op.op1), cap.capa.otype),
            OpKind::CGetValid => st.put_ty(reg_of(op.op1), cap.valid),
            OpKind::CGetBound => {
                let first = st.put_ty(reg_of(op.op1), cap.capa.start);
                if first.1 is Err {
                    first
                } else {
                    first.0.put_ty(reg_of(op.op2), cap.capa.endb)
                }
            },
            _ => (st, Ok(None)),
        },
    }
}

/// The operations that derive a capability and put it in a register.
pub open spec fn cap_set_spec(st: MachineState, op: Op) -> Outcome {
    match op.kind {
        OpKind::LoadI => st.put(reg_of(op.op1), op.op2),
        OpKind::Cpy => match st.reg(reg_of(op.op2)) {
            Err(e) => (st, Err(e)),
            Ok(cap) => st.put(reg_of(op.op1), cap),
        },
        OpKind::CSeal => match st.reg(reg_of(op.op2)) {
            Err(e) => (st, Err(e)),
            Ok(cap) => match st.reg(reg_of(op.op3)) {
                Err(e) => (st, Err(e)),
                Ok(key) => st.put(reg_of(op.op1), cap.seal_spec(key)),
            },
        },
        OpKind::CUnseal => match st.reg(reg_of(op.op2)) {
            Err(e) => (st, Err(e)),
            Ok(cap) => match st.reg(reg_of(op.op3)) {
                Err(e) => (st, Err(e)),
                Ok(key) => st.put(reg_of(op.op1), cap.unseal_spec(key)),
            },
        },
        OpKind::CSetAddr => match st.reg(reg_of(op.op1)) {
            Err(e) => (st, Err(e)),
            Ok(cap) => match st.reg_ty::<Address>(reg_of(op.op2)) {
                Err(e) => (st, Err(e)),
                Ok(addr) => st.put(reg_of(op.op1), cap.set_addr_spec(addr)),
            },
        },
        OpKind::CSetBound => match st.reg(reg_of(op.op1)) {
            Err(e) => (st, Err(e)),
            Ok(cap) => match st.reg_ty::<Address>(reg_of(op.op2)) {
                Err(e) => (st, Err(e)),
                Ok(start) => match st.reg_ty::<Address>(reg_of(op.op3)) {
                    Err(e) => (st, Err(e)),
                    Ok(endb) => st.put(reg_of(op.op1), cap.set_bounds_spec(start, endb)),
                },
            },
        },
        OpKind::CSetPerm => match st.reg(reg_of(op.op1)) {
            Err(e) => (st, Err(e)),
            Ok(cap) => match st.reg_ty::<Permissions>(reg_of(op.op2)) {
                Err(e) => (st, Err(e)),
                Ok(perms) => st.put(reg_of(op.op1), cap.set_perms_spec(perms)),
            },
        },
        _ => (st, Ok(None)),
    }
}

/// A load of a value of the type `T`: the capability in the register that
/// `op2` names is read through, and the value is written to the register
/// that `op1` names, zero-extended.
pub open spec fn load_ty_spec<T: Ty>(st: MachineState, op: Op) -> Outcome {
    match st.reg(reg_of(op.op2)) {
        Err(e) => (st, Err(e)),
        Ok(src) => match st.read_spec::<T>(src) {
            Err(e) => (st, Err(e)),
            Ok(val) => st.put_ty(reg_of(op.op1), val),
        },
    }
}

/// The loads.
pub open spec fn load_spec(st: MachineState, op: Op) -> Outcome {
    match op.kind {
        OpKind::LoadU8 => load_ty_spec::<u8>(st, op),
        OpKind::LoadU16 => load_ty_spec::<u16>(st, op),
        OpKind::LoadU32 => load_ty_spec::<u32>(st, op),
        OpKind::LoadU64 => load_ty_spec::<u64>(st, op),
        OpKind::LoadC => match st.reg(reg_of(op.op2)) {
            Err(e) => (st, Err(e)),
            Ok(src) => match st.read_spec::<TaggedCapability>(src) {
                Err(e) => (st, Err(e)),
                Ok(val) => st.put(reg_of(op.op1), val),
            },
        },
        _ => (st, Ok(None)),
    }
}

/// The machine and the result after a write of `val` through `dst`.
pub open spec fn store_val_spec<T: Ty>(st: MachineState, dst: TaggedCapability, val: T) -> Outcome {
    match st.write_result::<T>(dst) {
        Err(e) => (st.write_spec(dst, val), Err(e)),
        Ok(_) => (st.write_spec(dst, val), Ok(None)),
    }
}

/// The stores: the low bytes of the register that `op2` names are written
/// through the capability in the register that `op1` names.
pub open spec fn store_spec(st: MachineState, op: Op) -> Outcome {
    match st.reg(reg_of(op.op1)) {
        Err(e) => (st, Err(e)),
        Ok(dst) => if op.kind == OpKind::StoreC {
            match st.reg(reg_of(op.op2)) {
                Err(e) => (st, Err(e)),
                Ok(cap) => store_val_spec(st, dst, cap),
            }
        } else {
            match st.reg_data(reg_of(op.op2)) {
                Err(e) => (st, Err(e)),
                Ok(data) => match op.kind {
                    OpKind::Store8 => store_val_spec(st, dst, (data % 0x100) as u8),
                    OpKind::Store16 => store_val_spec(st, dst, (data % 0x1_0000) as u16),
                    OpKind::Store32 => store_val_spec(st, dst, (data % 0x1_0000_0000) as u32),
                    OpKind::Store64 => store_val_spec(st, dst, data),
                    _ => (st, Ok(None)),
                },
            }
        },
    }
}

/// Whether the last operand of the operation is an immediate.
pub open spec fn takes_immediate(kind: OpKind) -> bool {
    match kind {
        OpKind::AddI
        | OpKind::SltsI
        | OpKind::SltuI
        | OpKind::XorI
        | OpKind::OrI
        | OpKind::AndI
        | OpKind::SllI
        | OpKind::SrlI
        | OpKind::SraI => true,
        _ => false,
    }
}

/// The grain that an arithmetic operation computes from two grains.
/// Addition and subtraction wrap. A shift takes its amount modulo the bits
/// of a grain; the arithmetic shift right fills with the sign bit.
pub open spec fn alu_spec(kind: OpKind, a: UGran, b: UGran) -> UGran {
    match kind {
        OpKind::AddI | OpKind::Add => ((a + b) % 0x1_0000_0000_0000_0000) as UGran,
        OpKind::Sub => ((a - b) % 0x1_0000_0000_0000_0000) as UGran,
        OpKind::XorI | OpKind::Xor => a ^ b,
        OpKind::OrI | OpKind::Or => a | b,
        OpKind::AndI | OpKind::And => a & b,
        OpKind::SllI | OpKind::Sll => a << (b % 64),
        OpKind::SrlI | OpKind::Srl => a >> (b % 64),
        OpKind::SraI | OpKind::Sra => if a < 0x8000_0000_0000_0000 {
            a >> (b % 64)
        } else {
            !((!a) >> (b % 64))
        },
        _ => a,
    }
}

/// Whether a comparison holds of two grains.
pub open spec fn holds_spec(kind: OpKind, a: UGran, b: UGran) -> bool {
    match kind {
        OpKind::SltsI | OpKind::Slts | OpKind::Blts => gran_sign_spec(a) < gran_sign_spec(b),
        OpKind::SltuI | OpKind::Sltu | OpKind::Bltu => a < b,
        OpKind::Bges => gran_sign_spec(a) >= gran_sign_spec(b),
        OpKind::Bgeu => a >= b,
        OpKind::Beq => a == b,
        OpKind::Bne => a != b,
        _ => false,
    }
}

/// The two grains that an arithmetic or comparing operation works on: the
/// register that `op2` names, and the immediate `op3` or the register that
/// it names.
pub open spec fn operands_spec(st: MachineState, op: Op) -> Result<(UGran, UGran), Exception> {
    match st.reg_data(reg_of(op.op2)) {
        Err(e) => Err(e),
        Ok(a) => if takes_immediate(op.kind) {
            Ok((a, cap_encode(op.op3.capa)))
        } else {
            match st.reg_data(reg_of(op.op3)) {
                Err(e) => Err(e),
                Ok(b) => Ok((a, b)),
            }
        },
    }
}

/// The arithmetic operations: the result is written as data to the
/// register that `op1` names.
pub open spec fn arith_spec(st: MachineState, op: Op) -> Outcome {
    match operands_spec(st, op) {
        Err(e) => (st, Err(e)),
        Ok((a, b)) => st.put_data(reg_of(op.op1), alu_spec(op.kind, a, b)),
    }
}

/// The comparisons: one or zero is written to the register that `op1`
/// names.
pub open spec fn compare_spec(st: MachineState, op: Op) -> Outcome {
    match operands_spec(st, op) {
        Err(e) => (st, Err(e)),
        Ok((a, b)) => st.put_ty(reg_of(op.op1), holds_spec(op.kind, a, b)),
    }
}

/// The jumps and branches. `pc` is the address of the operation, `inc_pc`
/// that of the next one.
pub open spec fn jump_spec(st: MachineState, op: Op, pc: TaggedCapability, inc_pc: TaggedCapability)
    -> Outcome {
    match op.kind {
        OpKind::Jal => {
            let linked = st.put(reg_of(op.op1), inc_pc);
            if linked.1 is Err {
                linked
            } else {
                (
                    linked.0,
                    Ok(Some(pc.set_addr_spec(pc.capa.addr.offset_spec(offset_of(op.op2))))),
                )
            }
        },
        OpKind::Jalr => match st.reg_ty::<UAddr>(reg_of(op.op2)) {
            Err(e) => (st, Err(e)),
            Ok(base) => {
                let linked = st.put(reg_of(op.op1), inc_pc);
                if linked.1 is Err {
                    linked
                } else {
                    (
                        linked.0,
                        Ok(Some(pc.set_addr_spec(Address(base).offset_spec(offset_of(op.op3))))),
                    )
                }
            },
        },
        _ => match st.reg_data(reg_of(op.op1)) {
            Err(e) => (st, Err(e)),
            Ok(a) => match st.reg_data(reg_of(op.op2)) {
                Err(e) => (st, Err(e)),
                Ok(b) => if holds_spec(op.kind, a, b) {
                    (st, Ok(Some(pc.set_addr_spec(pc.capa.addr.offset_spec(offset_of(op.op3))))))
                } else {
                    (st, Ok(None))
                },
            },
        },
    }
}

/// The system call whose kind register `a2` holds. The arguments come in
/// the registers from `a3` on, and what is returned goes to register `a0`.
pub open spec fn syscall_spec(st: MachineState) -> Outcome {
    match st.reg_ty::<SyscallKind>(13) {
        Err(e) => (st, Err(e)),
        Ok(kind) => match kind {
            SyscallKind::Exit => (st, Err(Exception::ProcessExit)),
            SyscallKind::AllocInit => match st.reg_ty::<Strategy>(14) {
                Err(e) => (st, Err(e)),
                Ok(strategy) => match st.reg_ty::<InitFlags>(15) {
                    Err(e) => (st, Err(e)),
                    Ok(flags) => match st.reg(16) {
                        Err(e) => (st, Err(e)),
                        Ok(region) => {
                            let done = init_spec(st, strategy, flags, region);
                            match done.1 {
                                Err(e) => (done.0, Err(e)),
                                Ok(ator) => done.0.put(11, ator),
                            }
                        },
                    },
                },
            },
            SyscallKind::AllocDeInit => match st.reg(14) {
                Err(e) => (st, Err(e)),
                Ok(ator) => {
                    let done = deinit_spec(st, ator);
                    match done.1 {
                        Err(e) => (done.0, Err(e)),
                        Ok(region) => done.0.put(11, region),
                    }
                },
            },
            SyscallKind::AllocAlloc => match st.reg(14) {
                Err(e) => (st, Err(e)),
                Ok(ator) => match st.reg_ty::<Layout>(15) {
                    Err(e) => (st, Err(e)),
                    Ok(layout) => {
                        let done = alloc_spec(st, ator, layout);
                        match done.1 {
                            Err(e) => (done.0, Err(e)),
                            Ok(ation) => done.0.put(11, ation),
                        }
                    },
                },
            },
            SyscallKind::AllocFree => match st.reg(14) {
                Err(e) => (st, Err(e)),
                Ok(ator) => match st.reg(15) {
                    Err(e) => (st, Err(e)),
                    Ok(ation) => match open_spec(st, ator) {
                        Err(e) => (st, Err(e)),
                        Ok(_) => (st, Ok(None)),
                    },
                },
            },
            SyscallKind::AllocFreeAll => match st.reg(14) {
                Err(e) => (st, Err(e)),
                Ok(ator) => {
                    let done = free_all_spec(st, ator);
                    match done.1 {
                        Err(e) => (done.0, Err(e)),
                        Ok(_) => (done.0, Ok(None)),
                    }
                },
            },
            SyscallKind::AllocStat => match st.reg(14) {
                Err(e) => (st, Err(e)),
                Ok(ator) => match stat_spec(st, ator) {
                    Err(e) => (st, Err(e)),
                    Ok(stats) => st.put_ty(11, stats),
                },
            },
        },
    }
}

/// What the operation does, by its kind.
pub open spec fn dispatch_spec(
    st: MachineState,
    op: Op,
    pc: TaggedCapability,
    inc_pc: TaggedCapability,
) -> Outcome {
    match op.kind {
        OpKind::Nop => (st, Ok(None)),
        OpKind::CGetAddr
        | OpKind::CGetBound
        | OpKind::CGetPerm
        | OpKind::CGetType
        | OpKind::CGetValid => cap_get_spec(st, op),
        OpKind::CSetAddr
        | OpKind::CSetBound
        | OpKind::CSetPerm
        | OpKind::CSeal
        | OpKind::CUnseal
        | OpKind::Cpy
        | OpKind::LoadI => cap_set_spec(st, op),
        OpKind::LoadU8 | OpKind::LoadU16 | OpKind::LoadU32 | OpKind::LoadU64 | OpKind::LoadC => load_spec(
            st,
            op,
        ),
        OpKind::Store8
        | OpKind::Store16
        | OpKind::Store32
        | OpKind::Store64
        | OpKind::StoreC => store_spec(st, op),
        OpKind::AddI
        | OpKind::Add
        | OpKind::Sub
        | OpKind::XorI
        | OpKind::Xor
        | OpKind::OrI
        | OpKind::Or
        | OpKind::AndI
        | OpKind::And
        | OpKind::SllI
        | OpKind::Sll
        | OpKind::SrlI
        | OpKind::Srl
        | OpKind::SraI
        | OpKind::Sra => arith_spec(st, op),
        OpKind::SltsI | OpKind::SltuI | OpKind::Slts | OpKind::Sltu => compare_spec(st, op),
        OpKind::Jal
        | OpKind::Jalr
        | OpKind::Beq
        | OpKind::Bne
        | OpKind::Blts
        | OpKind::Bges
        | OpKind::Bltu
        | OpKind::Bgeu => jump_spec(st, op, pc, inc_pc),
        OpKind::Syscall => syscall_spec(st),
    }
}

/// The address of the operation after the one at `pc`.
pub open spec fn next_pc(pc: TaggedCapability) -> TaggedCapability {
    pc.set_addr_spec(pc.capa.addr.add_spec(32))
}

/// The machine and the result after `execute_op`. The program counter is
/// `pc`, or what register `pc` holds where none is given. Where `bump_pc`
/// is set, register `pc` is first advanced to the next operation; the
/// operation is then carried out; and where it chose an address to go on
/// at, register `pc` gets that address. An exception ends it, and what was
/// done before stays.
pub open spec fn execute_op_spec(
    st: MachineState,
    op: Op,
    pc: Option<TaggedCapability>,
    bump_pc: bool,
) -> (MachineState, Result<(), Exception>) {
    let found = match pc {
        Some(cap) => Ok(cap),
        None => st.reg(1),
    };
    match found {
        Err(e) => (st, Err(e)),
        Ok(pc) => {
            let inc_pc = if bump_pc {
                next_pc(pc)
            } else {
                pc
            };
            let bumped = if bump_pc {
                st.with_reg(1, inc_pc)
            } else {
                st
            };
            let done = dispatch_spec(bumped, op, pc, inc_pc);
            match done.1 {
                Err(e) => (done.0, Err(e)),
                Ok(None) => (done.0, Ok(())),
                Ok(Some(ra)) => (done.0.with_reg(1, ra), Ok(())),
            }
        },
    }
}

/// The access that fetches an operation through `pc`.
pub open spec fn fetch_access(pc: TaggedCapability) -> MemAccess {
    pc.access_spec(MemAccessKind::Execute, op_layout_spec().align, Some(op_layout_spec().size))
}

/// The machine and the result after `execute_next`: the operation at the
/// program counter is read, the program counter is checked for a fetch,
/// and the operation is executed.
pub open spec fn execute_next_spec(st: MachineState) -> (MachineState, Result<(), Exception>) {
    let pc = reg_read_spec(st.regs, st.tags, 1);
    match st.read_spec::<Op>(pc) {
        Err(e) => (st, Err(e)),
        Ok(op) => if pc.admits(fetch_access(pc)) {
            execute_op_spec(st, op, Some(pc), true)
        } else {
            (st, Err(Exception::InvalidMemAccess { access: fetch_access(pc) }))
        },
    }
}

/// The register that an operand names.
pub fn reg(tcap: TaggedCapability) -> (r: u8)
    ensures
        r == reg_of(tcap),
{
    (tcap.to_ugran() % 0x100) as u8
}

/// The offset that an operand holds.
pub fn offset(tcap: TaggedCapability) -> (o: SAddr)
    ensures
        o == offset_of(tcap),
{
    addr_sign((tcap.to_ugran() % 0x1_0000) as UAddr)
}

/// The grain that an arithmetic operation computes from two grains.
pub fn alu(kind: OpKind, a: UGran, b: UGran) -> (r: UGran)
    ensures
        r == alu_spec(kind, a, b),
{
    let amount: u64 = b % 64;
    match kind {
        OpKind::AddI | OpKind::Add => {
            let sum: u128 = a as u128 + b as u128;
            (sum % 0x1_0000_0000_0000_0000) as u64
        },
        OpKind::Sub => {
            if a >= b {
                a - b
            } else {
                let gap: u64 = b - a;
                (u64::MAX - gap) + 1
            }
        },
        OpKind::XorI | OpKind::Xor => a ^ b,
        OpKind::OrI | OpKind::Or => a | b,
        OpKind::AndI | OpKind::And => a & b,
        OpKind::SllI | OpKind::Sll => a << amount,
        OpKind::SrlI | OpKind::Srl => a >> amount,
        OpKind::SraI | OpKind::Sra => {
            if a < 0x8000_0000_0000_0000 {
                a >> amount
            } else {
                !((!a) >> amount)
            }
        },
        _ => a,
    }
}

/// Whether a comparison holds of two grains.
pub fn holds(kind: OpKind, a: UGran, b: UGran) -> (r: bool)
    ensures
        r == holds_spec(kind, a, b),
{
    match kind {
        OpKind::SltsI | OpKind::Slts | OpKind::Blts => gran_sign(a) < gran_sign(b),
        OpKind::SltuI | OpKind::Sltu | OpKind::Bltu => a < b,
        OpKind::Bges => gran_sign(a) >= gran_sign(b),
        OpKind::Bgeu => a >= b,
        OpKind::Beq => a == b,
        OpKind::Bne => a != b,
        _ => false,
    }
}

/// Whether the last operand of the operation is an immediate.
pub fn is_immediate(kind: OpKind) -> (r: bool)
    ensures
        r == takes_immediate(kind),
{
    match kind {
        OpKind::AddI
        | OpKind::SltsI
        | OpKind::SltuI
        | OpKind::XorI
        | OpKind::OrI
        | OpKind::AndI
        | OpKind::SllI
        | OpKind::SrlI
        | OpKind::SraI => true,
        _ => false,
    }
}

impl Memory {
    fn put(&mut self, reg: u8, cap: TaggedCapability) -> (r: Result<
        Option<TaggedCapability>,
        Exception,
    >)
        requires
            old(self).wf(),
        ensures
            final(self).wf(),
            final(self).root == old(self).root,
            final(self)@ == old(self)@.put(reg, cap).0,
            r == old(self)@.put(reg, cap).1,
    {
        match self.regs.write(&mut self.tags, reg, cap) {
            Ok(()) => Ok(None),
            Err(e) => Err(e),
        }
    }

    fn put_data(&mut self, reg: u8, val: UGran) -> (r: Result<Option<TaggedCapability>, Exception>)
        requires
            old(self).wf(),
        ensures
            final(self).wf(),
            final(self).root == old(self).root,
            final(self)@ == old(self)@.put_data(reg, val).0,
            r == old(self)@.put_data(reg, val).1,
    {
        match self.regs.write_data(&mut self.tags, reg, val) {
            Ok(()) => Ok(None),
            Err(e) => Err(e),
        }
    }

    fn put_ty<T: Ty>(&mut self, reg: u8, val: T) -> (r: Result<Option<TaggedCapability>, Exception>)
        requires
            old(self).wf(),
        ensures
            final(self).wf(),
            final(self).root == old(self).root,
            final(self)@ == old(self)@.put_ty(reg, val).0,
            r == old(self)@.put_ty(reg, val).1,
    {
        match self.regs.write_ty(&mut self.tags, reg, val) {
            Ok(()) => Ok(None),
            Err(e) => Err(e),
        }
    }

    fn exec_cap_get(&mut self, op: Op) -> (r: Result<Option<TaggedCapability>, Exception>)
        requires
            old(self).wf(),
        ensures
            final(self).wf(),
            final(self).root == old(self).root,
            final(self)@ == cap_get_spec(old(self)@, op).0,
            r == cap_get_spec(old(self)@, op).1,
    {
        let src = match op.kind {
            OpKind::CGetBound => reg(op.op3),
            _ => reg(op.op2),
        };
        let cap = match self.regs.read(&self.tags, src) {
            Ok(c) => c,
            Err(e) => {
                return Err(e);
            },
        };
        match op.kind {
            OpKind::CGetAddr => self.put_ty(reg(op.op1), cap.addr()),
            OpKind::CGetPerm => self.put_ty(reg(op.op1), cap.perms()),
            OpKind::CGetType => self.put_ty(reg(op.op1), cap.otype()),
            OpKind::CGetValid => self.put_ty(reg(op.op1), cap.is_valid()),
            OpKind::CGetBound => {
                match self.put_ty(reg(op.op1), cap.start()) {
                    Ok(_) => {},
                    Err(e) => {
                        return Err(e);
                    },
                }
                self.put_ty(reg(op.op2), cap.endb())
            },
            _ => Ok(None),
        }
    }

    fn exec_cap_set(&mut self, op: Op) -> (r: Result<Option<TaggedCapability>, Exception>)
        requires
            old(self).wf(),
        ensures
            final(self).wf(),
            final(self).root == old(self).root,
            final(self)@ == cap_set_spec(old(self)@, op).0,
            r == cap_set_spec(old(self)@, op).1,
    {
        match op.kind {
            OpKind::LoadI => self.put(reg(op.op1), op.op2),
            OpKind::Cpy => {
                let cap = match self.regs.read(&self.tags, reg(op.op2)) {
                    Ok(c) => c,
                    Err(e) => {
                        return Err(e);
                    },
                };
                self.put(reg(op.op1), cap)
            },
            OpKind::CSeal | OpKind::CUnseal => {
                let cap = match self.regs.read(&self.tags, reg(op.op2)) {
                    Ok(c) => c,
                    Err(e) => {
                        return Err(e);
                    },
                };
                let key = match self.regs.read(&self.tags, reg(op.op3)) {
                    Ok(c) => c,
                    Err(e) => {
                        return Err(e);
                    },
                };
                match op.kind {
                    OpKind::CSeal => self.put(reg(op.op1), cap.seal(key)),
                    _ => self.put(reg(op.op1), cap.unseal(key)),
                }
            },
            OpKind::CSetAddr => {
                let cap = match self.regs.read(&self.tags, reg(op.op1)) {
                    Ok(c) => c,
                    Err(e) => {
                        return Err(e);
                    },
                };
                let addr = match self.regs.read_ty::<Address>(&self.tags, reg(op.op2)) {
                    Ok(a) => a,
                    Err(e) => {
                        return Err(e);
                    },
                };
                self.put(reg(op.op1), cap.set_addr(addr))
            },
            OpKind::CSetBound => {
                let cap = match self.regs.read(&self.tags, reg(op.op1)) {
                    Ok(c) => c,
                    Err(e) => {
                        return Err(e);
                    },
                };
                let start = match self.regs.read_ty::<Address>(&self.tags, reg(op.op2)) {
                    Ok(a) => a,
                    Err(e) => {
                        return Err(e);
                    },
                };
                let endb = match self.regs.read_ty::<Address>(&self.tags, reg(op.op3)) {
                    Ok(a) => a,
                    Err(e) => {
                        return Err(e);
                    },
                };
                self.put(reg(op.op1), cap.set_bounds(start, endb))
            },
            OpKind::CSetPerm => {
                let cap = match self.regs.read(&self.tags, reg(op.op1)) {
                    Ok(c) => c,
                    Err(e) => {
                        return Err(e);
                    },
                };
                let perms = match self.regs.read_ty::<Permissions>(&self.tags, reg(op.op2)) {
                    Ok(p) => p,
                    Err(e) => {
                        return Err(e);
                    },
                };
                self.put(reg(op.op1), cap.set_perms(perms))
            },
            _ => Ok(None),
        }
    }

    fn exec_load_ty<T: Ty>(&mut self, op: Op) -> (r: Result<Option<TaggedCapability>, Exception>)
        requires
            old(self).wf(),
        ensures
            final(self).wf(),
            final(self).root == old(self).root,
            final(self)@ == load_ty_spec::<T>(old(self)@, op).0,
            r == load_ty_spec::<T>(old(self)@, op).1,
    {
        let src = match self.regs.read(&self.tags, reg(op.op2)) {
            Ok(c) => c,
            Err(e) => {
                return Err(e);
            },
        };
        let val: T = match self.read::<T>(src) {
            Ok(v) => v,
            Err(e) => {
                return Err(e);
            },
        };
        self.put_ty(reg(op.op1), val)
    }

    fn exec_load(&mut self, op: Op) -> (r: Result<Option<TaggedCapability>, Exception>)
        requires
            old(self).wf(),
        ensures
            final(self).wf(),
            final(self).root == old(self).root,
            final(self)@ == load_spec(old(self)@, op).0,
            r == load_spec(old(self)@, op).1,
    {
        match op.kind {
            OpKind::LoadU8 => self.exec_load_ty::<u8>(op),
            OpKind::LoadU16 => self.exec_load_ty::<u16>(op),
            OpKind::LoadU32 => self.exec_load_ty::<u32>(op),
            OpKind::LoadU64 => self.exec_load_ty::<u64>(op),
            OpKind::LoadC => {
                let src = match self.regs.read(&self.tags, reg(op.op2)) {
                    Ok(c) => c,
                    Err(e) => {
                        return Err(e);
                    },
                };
                let val: TaggedCapability = match self.read::<TaggedCapability>(src) {
                    Ok(v) => v,
                    Err(e) => {
                        return Err(e);
                    },
                };
                self.put(reg(op.op1), val)
            },
            _ => Ok(None),
        }
    }

    fn store_val<T: Ty>(&mut self, dst: TaggedCapability, val: T) -> (r: Result<
        Option<TaggedCapability>,
        Exception,
    >)
        requires
            old(self).wf(),
        ensures
            final(self).wf(),
            final(self).root == old(self).root,
            final(self)@ == store_val_spec(old(self)@, dst, val).0,
            r == store_val_spec(old(self)@, dst, val).1,
    {
        match self.write(dst, val) {
            Ok(()) => Ok(None),
            Err(e) => Err(e),
        }
    }

    fn exec_store(&mut self, op: Op) -> (r: Result<Option<TaggedCapability>, Exception>)
        requires
            old(self).wf(),
        ensures
            final(self).wf(),
            final(self).root == old(self).root,
            final(self)@ == store_spec(old(self)@, op).0,
            r == store_spec(old(self)@, op).1,
    {
        let dst = match self.regs.read(&self.tags, reg(op.op1)) {
            Ok(c) => c,
            Err(e) => {
                return Err(e);
            },
        };
        match op.kind {
            OpKind::StoreC => {
                let cap = match self.regs.read(&self.tags, reg(op.op2)) {
                    Ok(c) => c,
                    Err(e) => {
                        return Err(e);
                    },
                };
                self.store_val(dst, cap)
            },
            _ => {
                let data = match self.regs.read_data(reg(op.op2)) {
                    Ok(d) => d,
                    Err(e) => {
                        return Err(e);
                    },
                };
                match op.kind {
                    OpKind::Store8 => self.store_val(dst, (data % 0x100) as u8),
                    OpKind::Store16 => self.store_val(dst, (data % 0x1_0000) as u16),
                    OpKind::Store32 => self.store_val(dst, (data % 0x1_0000_0000) as u32),
                    OpKind::Store64 => self.store_val(dst, data),
                    _ => Ok(None),
                }
            },
        }
    }

    fn operands(&self, op: Op) -> (r: Result<(UGran, UGran), Exception>)
        requires
            self.wf(),
        ensures
            r == operands_spec(self@, op),
    {
        let a = match self.regs.read_data(reg(op.op2)) {
            Ok(d) => d,
            Err(e) => {
                return Err(e);
            },
        };
        if is_immediate(op.kind) {
            Ok((a, op.op3.to_ugran()))
        } else {
            match self.regs.read_data(reg(op.op3)) {
                Ok(b) => Ok((a, b)),
                Err(e) => Err(e),
            }
        }
    }

    fn exec_arith(&mut self, op: Op) -> (r: Result<Option<TaggedCapability>, Exception>)
        requires
            old(self).wf(),
        ensures
            final(self).wf(),
            final(self).root == old(self).root,
            final(self)@ == arith_spec(old(self)@, op).0,
            r == arith_spec(old(self)@, op).1,
    {
        match self.operands(op) {
            Ok((a, b)) => self.put_data(reg(op.op1), alu(op.kind, a, b)),
            Err(e) => Err(e),
        }
    }

    fn exec_compare(&mut self, op: Op) -> (r: Result<Option<TaggedCapability>, Exception>)
        requires
            old(self).wf(),
        ensures
            final(self).wf(),
            final(self).root == old(self).root,
            final(self)@ == compare_spec(old(self)@, op).0,
            r == compare_spec(old(self)@, op).1,
    {
        match self.operands(op) {
            Ok((a, b)) => self.put_ty(reg(op.op1), holds(op.kind, a, b)),
            Err(e) => Err(e),
        }
    }

    fn exec_jump(&mut self, op: Op, pc: TaggedCapability, inc_pc: TaggedCapability) -> (r: Result<
        Option<TaggedCapability>,
        Exception,
    >)
        requires
            old(self).wf(),
        ensures
            final(self).wf(),
            final(self).root == old(self).root,
            final(self)@ == jump_spec(old(self)@, op, pc, inc_pc).0,
            r == jump_spec(old(self)@, op, pc, inc_pc).1,
    {
        match op.kind {
            OpKind::Jal => {
                match self.put(reg(op.op1), inc_pc) {
                    Ok(_) => {},
                    Err(e) => {
                        return Err(e);
                    },
                }
                Ok(Some(pc.set_addr(pc.addr().offset(offset(op.op2)))))
            },
            OpKind::Jalr => {
                let base = match self.regs.read_ty::<UAddr>(&self.tags, reg(op.op2)) {
                    Ok(b) => b,
                    Err(e) => {
                        return Err(e);
                    },
                };
                match self.put(reg(op.op1), inc_pc) {
                    Ok(_) => {},
                    Err(e) => {
                        return Err(e);
                    },
                }
                Ok(Some(pc.set_addr(Address(base).offset(offset(op.op3)))))
            },
            _ => {
                let a = match self.regs.read_data(reg(op.op1)) {
                    Ok(d) => d,
                    Err(e) => {
                        return Err(e);
                    },
                };
                let b = match self.regs.read_data(reg(op.op2)) {
                    Ok(d) => d,
                    Err(e) => {
                        return Err(e);
                    },
                };
                if holds(op.kind, a, b) {
                    Ok(Some(pc.set_addr(pc.addr().offset(offset(op.op3)))))
                } else {
                    Ok(None)
                }
            },
        }
    }

    fn exec_syscall(&mut self) -> (r: Result<Option<TaggedCapability>, Exception>)
        requires
            old(self).wf(),
        ensures
            final(self).wf(),
            final(self).root == old(self).root,
            final(self)@ == syscall_spec(old(self)@).0,
            r == syscall_spec(old(self)@).1,
    {
        let kind = match self.regs.read_ty::<SyscallKind>(&self.tags, Register::A2.to_byte()) {
            Ok(k) => k,
            Err(e) => {
                return Err(e);
            },
        };
        let a0 = Register::A0.to_byte();
        let a3 = Register::A3.to_byte();
        let a4 = Register::A4.to_byte();
        let a5 = Register::A5.to_byte();
        match kind {
            SyscallKind::Exit => Err(Exception::ProcessExit),
            SyscallKind::AllocInit => {
                let strategy = match self.regs.read_ty::<Strategy>(&self.tags, a3) {
                    Ok(v) => v,
                    Err(e) => {
                        return Err(e);
                    },
                };
                let flags = match self.regs.read_ty::<InitFlags>(&self.tags, a4) {
                    Ok(v) => v,
                    Err(e) => {
                        return Err(e);
                    },
                };
                let region = match self.regs.read(&self.tags, a5) {
                    Ok(v) => v,
                    Err(e) => {
                        return Err(e);
                    },
                };
                let ator = match init(strategy, flags, region, self) {
                    Ok(v) => v,
                    Err(e) => {
                        return Err(e);
                    },
                };
                self.put(a0, ator)
            },
            SyscallKind::AllocDeInit => {
                let ator = match self.regs.read(&self.tags, a3) {
                    Ok(v) => v,
                    Err(e) => {
                        return Err(e);
                    },
                };
                let region = match deinit(ator, self) {
                    Ok(v) => v,
                    Err(e) => {
                        return Err(e);
                    },
                };
                self.put(a0, region)
            },
            SyscallKind::AllocAlloc => {
                let ator = match self.regs.read(&self.tags, a3) {
                    Ok(v) => v,
                    Err(e) => {
                        return Err(e);
                    },
                };
                let layout = match self.regs.read_ty::<Layout>(&self.tags, a4) {
                    Ok(v) => v,
                    Err(e) => {
                        return Err(e);
                    },
                };
                let ation = match allocate(ator, layout, self) {
                    Ok(v) => v,
                    Err(e) => {
                        return Err(e);
                    },
                };
                self.put(a0, ation)
            },
            SyscallKind::AllocFree => {
                let ator = match self.regs.read(&self.tags, a3) {
                    Ok(v) => v,
                    Err(e) => {
                        return Err(e);
                    },
                };
                let ation = match self.regs.read(&self.tags, a4) {
                    Ok(v) => v,
                    Err(e) => {
                        return Err(e);
                    },
                };
                match free(ator, ation, self) {
                    Ok(()) => Ok(None),
                    Err(e) => Err(e),
                }
            },
            SyscallKind::AllocFreeAll => {
                let ator = match self.regs.read(&self.tags, a3) {
                    Ok(v) => v,
                    Err(e) => {
                        return Err(e);
                    },
                };
                match free_all(ator, self) {
                    Ok(()) => Ok(None),
                    Err(e) => Err(e),
                }
            },
            SyscallKind::AllocStat => {
                let ator = match self.regs.read(&self.tags, a3) {
                    Ok(v) => v,
                    Err(e) => {
                        return Err(e);
                    },
                };
                let stats: Stats = match stat(ator, self) {
                    Ok(v) => v,
                    Err(e) => {
                        return Err(e);
                    },
                };
                self.put_ty(a0, stats)
            },
        }
    }

    fn dispatch(&mut self, op: Op, pc: TaggedCapability, inc_pc: TaggedCapability) -> (r: Result<
        Option<TaggedCapability>,
        Exception,
    >)
        requires
            old(self).wf(),
        ensures
            final(self).wf(),
            final(self).root == old(self).root,
            final(self)@ == dispatch_spec(old(self)@, op, pc, inc_pc).0,
            r == dispatch_spec(old(self)@, op, pc, inc_pc).1,
    {
        match op.kind {
            OpKind::Nop => Ok(None),
            OpKind::CGetAddr
            | OpKind::CGetBound
            | OpKind::CGetPerm
            | OpKind::CGetType
            | OpKind::CGetValid => self.exec_cap_get(op),
            OpKind::CSetAddr
            | OpKind::CSetBound
            | OpKind::CSetPerm
            | OpKind::CSeal
            | OpKind::CUnseal
            | OpKind::Cpy
            | OpKind::LoadI => self.exec_cap_set(op),
            OpKind::LoadU8
            | OpKind::LoadU16
            | OpKind::LoadU32
            | OpKind::LoadU64
            | OpKind::LoadC => self.exec_load(op),
            OpKind::Store8
            | OpKind::Store16
            | OpKind::Store32
            | OpKind::Store64
            | OpKind::StoreC => self.exec_store(op),
            OpKind::AddI
            | OpKind::Add
            | OpKind::Sub
            | OpKind::XorI
            | OpKind::Xor
            | OpKind::OrI
            | OpKind::Or
            | OpKind::AndI
            | OpKind::And
            | OpKind::SllI
            | OpKind::Sll
            | OpKind::SrlI
            | OpKind::Srl
            | OpKind::SraI
            | OpKind::Sra => self.exec_arith(op),
            OpKind::SltsI | OpKind::SltuI | OpKind::Slts | OpKind::Sltu => self.exec_compare(op),
            OpKind::Jal
            | OpKind::Jalr
            | OpKind::Beq
            | OpKind::Bne
            | OpKind::Blts
            | OpKind::Bges
            | OpKind::Bltu
            | OpKind::Bgeu => self.exec_jump(op, pc, inc_pc),
            OpKind::Syscall => self.exec_syscall(),
        }
    }

    /// Executes the operation at the program counter: the operation is
    /// read through the capability in register `pc`, which must admit a
    /// fetch, and is then executed with the program counter advanced.
    pub fn execute_next(&mut self) -> (r: Result<(), Exception>)
        requires
            old(self).wf(),
        ensures
            final(self).wf(),
            final(self).root == old(self).root,
            final(self)@ == execute_next_spec(old(self)@).0,
            r == execute_next_spec(old(self)@).1,
    {
        let pc = match self.regs.read(&self.tags, Register::Pc.to_byte()) {
            Ok(c) => c,
            Err(e) => {
                return Err(e);
            },
        };
        let op: Op = match self.read::<Op>(pc) {
            Ok(o) => o,
            Err(e) => {
                return Err(e);
            },
        };
        let layout = Op::layout();
        match pc.check_access(MemAccessKind::Execute, layout.align, Some(layout.size)) {
            Ok(()) => {},
            Err(e) => {
                return Err(e);
            },
        }
        self.execute_op(op, Some(pc), true)
    }

    /// Executes one operation. The program counter is `pc`, or what
    /// register `pc` holds where none is given. Where `bump_pc` is set,
    /// register `pc` is advanced to the next operation before the
    /// operation is carried out, so that a jump or a branch can overwrite
    /// it. An exception ends the operation; what it did before stays.
    pub fn execute_op(&mut self, op: Op, pc: Option<TaggedCapability>, bump_pc: bool) -> (r: Result<
        (),
        Exception,
    >)
        requires
            old(self).wf(),
        ensures
            final(self).wf(),
            final(self).root == old(self).root,
            final(self)@ == execute_op_spec(old(self)@, op, pc, bump_pc).0,
            r == execute_op_spec(old(self)@, op, pc, bump_pc).1,
    {
        let pc = match pc {
            Some(cap) => cap,
            None => match self.regs.read(&self.tags, Register::Pc.to_byte()) {
                Ok(c) => c,
                Err(e) => {
                    return Err(e);
                },
            },
        };
        let inc_pc = if bump_pc {
            pc.set_addr(pc.addr().add(Op::layout().size))
        } else {
            pc
        };
        if bump_pc {
            let _ = self.regs.write(&mut self.tags, Register::Pc.to_byte(), inc_pc);
        }
        let chosen = match self.dispatch(op, pc, inc_pc) {
            Ok(c) => c,
            Err(e) => {
                return Err(e);
            },
        };
        match chosen {
            Some(ra) => {
                let _ = self.regs.write(&mut self.tags, Register::Pc.to_byte(), ra);
            },
            None => {},
        }
        Ok(())
    }
}

} // verus!

use fruticose::abi::{gran_span, layout, Align, Layout, Ty};
use fruticose::access::{MemAccess, MemAccessFault, MemAccessKind, RegAccess, RegAccessFault};
use fruticose::allocator::bump::BumpAlloc;
use fruticose::allocator::{
    allocate, deinit, free, free_all, init, stat, AllocErrKind, Header, InitFlags, Stats, Strategy,
};
use fruticose::capability::{Address, Capability, Granule, OType, Permissions, TaggedCapability};
use fruticose::exception::Exception;
use fruticose::ints::{addr_sign, addr_unsign, gran_sign, gran_unsign};
use fruticose::mem::{BootErr, Memory, TagController};
use fruticose::op::{Op, OpKind};
use fruticose::registers::{Register, Registers};
use fruticose::revoke;
use fruticose::syscall::SyscallKind;

fn data(v: u64) -> TaggedCapability {
    TaggedCapability::from_ugran(v)
}

fn r(reg: Register) -> TaggedCapability {
    data(reg as u64)
}

fn op(kind: OpKind, a: TaggedCapability, b: TaggedCapability, c: TaggedCapability) -> Op {
    Op::new(kind, a, b, c)
}

fn run(mem: &mut Memory) -> Result<(), Exception> {
    loop {
        match mem.execute_next() {
            Ok(()) => (),
            Err(Exception::ProcessExit) => break Ok(()),
            Err(err) => return Err(err),
        }
    }
}

fn exit() -> [Op; 2] {
    [
        Op::loadi(Register::A2 as u8, data(SyscallKind::Exit as u64)),
        Op::syscall(),
    ]
}

fn reg_val(mem: &Memory, reg: Register) -> TaggedCapability {
    mem.regs.read(&mem.tags, reg as u8).unwrap()
}

#[test]
fn invalidate_cap() -> Result<(), Exception> {
    let mut mem = Memory::new(32, 0, &[]).unwrap();
    let root_alloc = mem.regs.read(&mem.tags, Register::Z0 as _)?;
    let ation = allocate(root_alloc, TaggedCapability::layout(), &mut mem)?;
    mem.write(ation, ation)?;
    let expanded = ation.set_bounds(ation.start(), ation.endb().add(1));
    mem.write(ation, expanded)?;
    let result: TaggedCapability = mem.read(ation)?;
    assert!(!result.is_valid());
    Ok(())
}

#[test]
fn capability_written_and_read_back_keeps_its_tag() {
    let mut mem = Memory::new(32, 0, &[]).unwrap();
    let root_alloc = reg_val(&mem, Register::Z0);
    let ation = allocate(root_alloc, TaggedCapability::layout(), &mut mem).unwrap();
    assert!(ation.is_valid());
    assert_eq!(ation.addr().get() % 8, 0);
    assert_eq!(ation.span_len(), 8);
    mem.write(ation, ation).unwrap();
    let back: TaggedCapability = mem.read(ation).unwrap();
    assert_eq!(back, ation);
    let gran = ation.addr().gran();
    assert_eq!(mem.tags.read_gran(gran), Some(true));
    // a scalar written over it clears the tag
    mem.write(ation, 7u64).unwrap();
    assert_eq!(mem.tags.read_gran(gran), Some(false));
    let back: TaggedCapability = mem.read(ation).unwrap();
    assert!(!back.is_valid());
    assert_eq!(back.to_ugran(), 7);
    let word: u64 = mem.read(ation).unwrap();
    assert_eq!(word, 7);
}

#[test]
fn narrow_write_clears_the_tag_of_its_granule_only() {
    let mut mem = Memory::new(32, 0, &[]).unwrap();
    let root_alloc = reg_val(&mem, Register::Z0);
    let sixteen = Layout { size: 16, align: Align::new(8).unwrap() };
    let ation = allocate(root_alloc, sixteen, &mut mem).unwrap();
    let second = ation.set_addr(ation.addr().add(8));
    mem.write(ation, ation).unwrap();
    mem.write(second, ation).unwrap();
    let g0 = ation.addr().gran();
    let g1 = second.addr().gran();
    assert_eq!(mem.tags.read_gran(g0), Some(true));
    assert_eq!(mem.tags.read_gran(g1), Some(true));
    mem.write(second.set_addr(second.addr().add(3)), 0xabu8).unwrap();
    assert_eq!(mem.tags.read_gran(g0), Some(true));
    assert_eq!(mem.tags.read_gran(g1), Some(false));
    // a write across the boundary of two granules clears both
    mem.write(second, ation).unwrap();
    mem.write(ation.set_addr(ation.addr().add(6)), 0x01020304u32).unwrap();
    assert_eq!(mem.tags.read_gran(g0), Some(false));
    assert_eq!(mem.tags.read_gran(g1), Some(false));
    let bytes: u32 = mem.read(ation.set_addr(ation.addr().add(6))).unwrap();
    assert_eq!(bytes, 0x01020304);
    let low: u8 = mem.read(ation.set_addr(ation.addr().add(6))).unwrap();
    assert_eq!(low, 0x04);
}

#[test]
fn memory_checks_each_access() {
    let mut mem = Memory::new(32, 0, &[]).unwrap();
    let root_alloc = reg_val(&mem, Register::Z0);
    let ation = allocate(root_alloc, Layout { size: 8, align: Align::new(8).unwrap() }, &mut mem)
        .unwrap();
    // untagged
    let forged = TaggedCapability::from_ugran(ation.to_ugran());
    assert!(matches!(
        mem.read::<u8>(forged),
        Err(Exception::InvalidMemAccess { .. })
    ));
    // out of bounds
    let past = ation.set_addr(ation.endb());
    assert!(matches!(
        mem.read::<u8>(past),
        Err(Exception::InvalidMemAccess { .. })
    ));
    assert!(matches!(
        mem.read::<u64>(ation.set_addr(ation.addr().add(1))),
        Err(Exception::InvalidMemAccess { .. })
    ));
    // lacking permission
    let read_only = ation.set_perms(Permissions::read());
    match mem.write(read_only, 1u8) {
        Err(Exception::InvalidMemAccess { access }) => {
            assert!(matches!(access.kind, MemAccessKind::Write));
            assert_eq!(access.len, Some(1));
            assert_eq!(access.tcap, read_only);
            assert!(access.is_bounded());
            assert!(access.is_aligned());
            assert!(!access.perms_grant());
        }
        other => panic!("{other:?}"),
    }
    assert!(mem.read::<u8>(read_only).is_ok());
    // misaligned
    assert!(matches!(
        mem.write(ation.set_addr(ation.addr().add(1)), ation),
        Err(Exception::InvalidMemAccess { .. })
    ));
    // a forged valid capability beyond the memory there is
    let beyond = TaggedCapability::new(
        Capability::new(
            Address(0x1000),
            Address(0x1000),
            Address(0x2000),
            Permissions::all(),
            OType::unsealed(),
        ),
        true,
    );
    assert!(matches!(
        mem.read::<u8>(beyond),
        Err(Exception::InvalidMemAccess { .. })
    ));
    assert!(matches!(
        mem.memset(beyond, 4, 0),
        Err(Exception::InvalidMemAccess { .. })
    ));
}

#[test]
fn memset_fills_bytes_and_leaves_tags() {
    let mut mem = Memory::new(32, 0, &[]).unwrap();
    let root_alloc = reg_val(&mem, Register::Z0);
    let ation = allocate(root_alloc, Layout { size: 16, align: Align::new(8).unwrap() }, &mut mem)
        .unwrap();
    mem.write(ation, ation).unwrap();
    mem.memset(ation.set_addr(ation.addr().add(8)), 4, 0xee).unwrap();
    let word: u64 = mem.read(ation.set_addr(ation.addr().add(8))).unwrap();
    assert_eq!(word, 0x5555_5555_eeee_eeee);
    assert_eq!(mem.tags.read_gran(ation.addr().gran()), Some(true));
    assert!(mem.memset(ation, 17, 0).is_err());
}

#[test]
fn write_iter_writes_one_after_the_other() {
    let mut mem = Memory::new(32, 0, &[]).unwrap();
    let root_alloc = reg_val(&mem, Register::Z0);
    let ation = allocate(root_alloc, Layout { size: 6, align: Align::new(2).unwrap() }, &mut mem)
        .unwrap();
    mem.write_iter(ation, &[0x0102u16, 0x0304, 0x0506]).unwrap();
    let second: u16 = mem.read(ation.set_addr(ation.addr().add(2))).unwrap();
    assert_eq!(second, 0x0304);
    let bytes: u32 = mem.read(ation.set_addr(ation.addr().add(1))).unwrap();
    assert_eq!(bytes, 0x06030401);
    assert!(matches!(
        mem.write_iter(ation, &[1u16, 2, 3, 4]),
        Err(Exception::InvalidMemAccess { .. })
    ));
}

#[test]
fn zero_register_reads_zero_whatever_was_written() {
    let mut mem = Memory::new(32, 0, &[]).unwrap();
    let root_alloc = reg_val(&mem, Register::Z0);
    assert!(root_alloc.is_valid());
    mem.regs.write(&mut mem.tags, 0, root_alloc).unwrap();
    assert_eq!(mem.regs.read(&mem.tags, 0).unwrap(), data(0));
    assert_eq!(mem.regs.read_data(0).unwrap(), 0);
    mem.regs.write_data(&mut mem.tags, 0, 99).unwrap();
    assert_eq!(mem.regs.read(&mem.tags, 0).unwrap(), data(0));
    mem.regs.write_ty(&mut mem.tags, 0, 7u8).unwrap();
    assert_eq!(mem.regs.read_data(0).unwrap(), 0);
    assert!(!mem.regs.read(&mem.tags, 0).unwrap().is_valid());
}

#[test]
fn registers_hold_capabilities_and_data() {
    let mut mem = Memory::new(32, 0, &[]).unwrap();
    let root_alloc = reg_val(&mem, Register::Z0);
    let t0 = Register::T0 as u8;
    mem.regs.write(&mut mem.tags, t0, root_alloc).unwrap();
    assert_eq!(mem.regs.read(&mem.tags, t0).unwrap(), root_alloc);
    assert_eq!(mem.tags.read_reg(t0), Some(true));
    assert_eq!(mem.regs.read_data(t0).unwrap(), root_alloc.to_ugran());
    mem.regs.write_data(&mut mem.tags, t0, 0x0123_4567_89ab_cdef).unwrap();
    assert_eq!(mem.tags.read_reg(t0), Some(false));
    assert_eq!(mem.regs.read_data(t0).unwrap(), 0x0123_4567_89ab_cdef);
    assert_eq!(mem.regs.read_ty::<u8>(&mem.tags, t0).unwrap(), 0xef);
    assert_eq!(mem.regs.read_ty::<u16>(&mem.tags, t0).unwrap(), 0xcdef);
    assert_eq!(mem.regs.read_ty::<u32>(&mem.tags, t0).unwrap(), 0x89ab_cdef);
    assert_eq!(mem.regs.read_ty::<Address>(&mem.tags, t0).unwrap(), Address(0xcdef));
    // a narrow value is zero-extended
    mem.regs.write(&mut mem.tags, t0, root_alloc).unwrap();
    mem.regs.write_ty(&mut mem.tags, t0, 0xabu8).unwrap();
    assert_eq!(mem.regs.read(&mem.tags, t0).unwrap(), data(0xab));
    mem.regs.write_ty(&mut mem.tags, t0, true).unwrap();
    assert_eq!(mem.regs.read(&mem.tags, t0).unwrap(), data(1));
    mem.regs.write_ty(&mut mem.tags, t0, -2i64).unwrap();
    assert_eq!(mem.regs.read_data(t0).unwrap(), u64::MAX - 1);
    assert_eq!(mem.regs.read_ty::<i64>(&mem.tags, t0).unwrap(), -2);
    // a tagged capability keeps its tag
    mem.regs.write_ty(&mut mem.tags, t0, root_alloc).unwrap();
    assert_eq!(mem.regs.read(&mem.tags, t0).unwrap(), root_alloc);
    // no such register
    match mem.regs.read(&mem.tags, 32) {
        Err(Exception::InvalidRegAccess { access }) => {
            assert_eq!(access, RegAccess { reg: 32, len: 8 });
            assert!(!access.is_reg_valid());
            assert!(access.is_len_valid());
            assert!(access.check().is_err());
            assert!(access.check_reg().is_err());
            assert!(access.check_len().is_ok());
        }
        other => panic!("{other:?}"),
    }
    assert!(mem.regs.write(&mut mem.tags, 200, root_alloc).is_err());
    assert!(mem.regs.write_data(&mut mem.tags, 32, 1).is_err());
    // more bytes than a register holds
    match mem.regs.read_ty::<Op>(&mem.tags, t0) {
        Err(Exception::InvalidRegAccess { access }) => {
            assert_eq!(access, RegAccess { reg: t0, len: 32 })
        }
        other => panic!("{other:?}"),
    }
    assert!(mem.regs.write_ty(&mut mem.tags, t0, Op::nop()).is_err());
    assert!(Registers::is_reg_valid(31));
    assert!(!Registers::is_reg_valid(32));
    assert!(Registers::is_len_valid(8));
    assert!(!Registers::is_len_valid(9));
}

#[test]
fn boot_lays_the_machine_out() {
    let program = exit();
    let mem = Memory::new(64, 64, &program).unwrap();
    assert_eq!(mem.mem.len(), 512);
    assert_eq!(mem.tags.len(), 32 + 64);
    assert_eq!(mem.root.start(), Address(0));
    assert_eq!(mem.root.endb(), Address(512));
    assert!(mem.root.is_valid());
    let pc = reg_val(&mem, Register::Pc);
    assert!(pc.is_valid());
    assert_eq!(pc.addr(), Address(16));
    assert_eq!(pc.start(), Address(16));
    assert_eq!(pc.endb(), Address(16 + 64));
    assert_eq!(pc.perms(), Permissions::read().union(Permissions::exec()));
    let sp = reg_val(&mem, Register::Sp);
    assert!(sp.is_valid());
    assert_eq!(sp.start(), Address(80));
    assert_eq!(sp.endb(), Address(144));
    assert_eq!(sp.addr(), Address(144));
    let z0 = reg_val(&mem, Register::Z0);
    assert!(z0.is_valid());
    assert!(z0.otype().is_sealed());
    assert_eq!((z0.start(), z0.endb()), (Address(0), Address(512)));
    let stats = stat(z0, &mem).unwrap();
    assert_eq!(
        stats,
        Stats { strategy: Strategy::Bump, flags: InitFlags::all(), bytes_free: 512 - 144 }
    );
    // the program lies in memory as it was given
    let first: Op = mem.read(pc).unwrap();
    assert_eq!(first, program[0]);
    let second: Op = mem.read(pc.set_addr(pc.addr().add(32))).unwrap();
    assert_eq!(second, program[1]);
    assert_eq!(mem.mem[16], OpKind::LoadI.to_byte());
    assert_eq!(mem.mem[3], 0x55);
    assert_eq!(mem.mem[15], 0xff);
    // a sealed handle cannot be read through
    assert!(mem.read::<u8>(z0).is_err());
}

#[test]
fn boot_fails_where_the_machine_is_too_small() {
    assert_eq!(
        Memory::new(0x2000, 0, &[]).err(),
        Some(BootErr::AllocatedBytesOverflow)
    );
    let program = vec![Op::nop(); 0x800];
    assert_eq!(
        Memory::new(64, 0, &program).err(),
        Some(BootErr::ProgramSizeOverflow)
    );
    assert!(matches!(
        Memory::new(1, 0, &[]),
        Err(BootErr::RootAllocator { err: Exception::InvalidMemAccess { .. } })
    ));
    assert!(matches!(
        Memory::new(2, 0, &[]),
        Err(BootErr::AllocProgram { err: Exception::AllocErr { .. } })
    ));
    match Memory::new(8, 0, &exit()) {
        Err(BootErr::AllocProgram { err: Exception::AllocErr { err } }) => {
            assert_eq!(err.kind, AllocErrKind::NotEnoughMem);
            assert_eq!(err.requested.size, 64);
            assert_eq!(err.stats.bytes_free, 48);
        }
        other => panic!("{:?}", other.err()),
    }
    assert!(matches!(
        Memory::new(16, 200, &exit()),
        Err(BootErr::AllocStack { err: Exception::AllocErr { .. } })
    ));
    match Memory::new(10, 0, &exit()) {
        Err(BootErr::AllocStack { err: Exception::AllocErr { err } }) => {
            assert_eq!(err.kind, AllocErrKind::Oom)
        }
        other => panic!("{:?}", other.err()),
    }
    assert!(Memory::new(0x1fff, 0, &[]).is_ok());
}

#[test]
fn deinit_returns_the_full_region() {
    let mut mem = Memory::new(128, 0, &[]).unwrap();
    let root_alloc = reg_val(&mem, Register::Z0);
    let region = allocate(
        root_alloc,
        Layout { size: 256, align: Align::new(256).unwrap() },
        &mut mem,
    )
    .unwrap();
    assert_eq!(region.span_len(), 256);
    let t0 = Register::T0 as u8;
    mem.regs.write(&mut mem.tags, t0, region).unwrap();
    let ator = init(Strategy::Bump, InitFlags::empty(), region, &mut mem).unwrap();
    // whoever held the region holds it no more
    assert!(!reg_val(&mem, Register::T0).is_valid());
    assert!(ator.is_valid());
    assert!(ator.otype().is_sealed());
    assert_eq!(ator.otype().get_addr(), region.start());
    assert_eq!(
        stat(ator, &mem).unwrap(),
        Stats { strategy: Strategy::Bump, flags: InitFlags::empty(), bytes_free: 240 }
    );
    let a = allocate(ator, Layout { size: 10, align: Align::new(1).unwrap() }, &mut mem).unwrap();
    let b = allocate(ator, Layout { size: 16, align: Align::new(8).unwrap() }, &mut mem).unwrap();
    let c = allocate(ator, Layout { size: 1, align: Align::new(4).unwrap() }, &mut mem).unwrap();
    let base = region.start().get();
    assert_eq!((a.start().get(), a.endb().get()), (base + 16, base + 26));
    assert_eq!((b.start().get(), b.endb().get()), (base + 32, base + 48));
    assert_eq!((c.start().get(), c.endb().get()), (base + 48, base + 49));
    assert!(a.is_valid() && b.is_valid() && c.is_valid());
    assert_eq!(a.perms(), region.perms());
    assert_eq!(stat(ator, &mem).unwrap().bytes_free, 256 - 49);
    assert!(free(ator, a, &mut mem).is_ok());
    mem.write(b, c).unwrap();
    mem.regs.write(&mut mem.tags, t0, a).unwrap();
    let back = deinit(ator, &mut mem).unwrap();
    assert!(back.is_valid());
    assert!(back.otype().is_unsealed());
    assert_eq!((back.start(), back.endb()), (region.start(), region.endb()));
    // what the allocator handed out is revoked
    assert!(!reg_val(&mem, Register::T0).is_valid());
    assert_eq!(mem.tags.read_gran(b.addr().gran()), Some(false));
    let word: TaggedCapability = mem.read(b).unwrap();
    assert_eq!(word.capability(), c.capability());
    assert!(!word.is_valid());
}

#[test]
fn allocators_fill_where_they_were_made_to() {
    let mut mem = Memory::new(128, 0, &[]).unwrap();
    let root_alloc = reg_val(&mem, Register::Z0);
    let region = allocate(
        root_alloc,
        Layout { size: 256, align: Align::new(256).unwrap() },
        &mut mem,
    )
    .unwrap();
    mem.write(region.set_addr(region.start().add(64)), 0u64).unwrap();
    let ator = init(Strategy::Bump, InitFlags::init_on_alloc(), region, &mut mem).unwrap();
    let a = allocate(ator, Layout { size: 64, align: Align::new(8).unwrap() }, &mut mem).unwrap();
    let word: u64 = mem.read(a.set_addr(region.start().add(64))).unwrap();
    assert_eq!(word, 0x5555_5555_5555_5555);
    mem.write(a, 0u64).unwrap();
    let back = deinit(ator, &mut mem).unwrap();
    let word: u64 = mem.read(back.set_addr(a.start())).unwrap();
    assert_eq!(word, 0);
    let ator = init(Strategy::Bump, InitFlags::init_on_free(), back, &mut mem).unwrap();
    let a = allocate(ator, Layout { size: 64, align: Align::new(8).unwrap() }, &mut mem).unwrap();
    let word: u64 = mem.read(a).unwrap();
    assert_eq!(word, 0);
    free_all(ator, &mut mem).unwrap();
    let header: u8 = mem.read(back).unwrap();
    assert_eq!(header, 1);
    let back = deinit(ator, &mut mem).unwrap();
    let word: u64 = mem.read(back.set_addr(a.start())).unwrap();
    assert_eq!(word, 0x5555_5555_5555_5555);
    let header: u8 = mem.read(back).unwrap();
    assert_eq!(header, 0x55);
}

#[test]
fn bump_allocator_runs_out() {
    let mut mem = Memory::new(128, 0, &[]).unwrap();
    let root_alloc = reg_val(&mem, Register::Z0);
    let region = allocate(
        root_alloc,
        Layout { size: 256, align: Align::new(256).unwrap() },
        &mut mem,
    )
    .unwrap();
    let ator = init(Strategy::Bump, InitFlags::empty(), region, &mut mem).unwrap();
    let big = Layout { size: 241, align: Align::new(1).unwrap() };
    match allocate(ator, big, &mut mem) {
        Err(Exception::AllocErr { err }) => {
            assert_eq!(err.kind, AllocErrKind::NotEnoughMem);
            assert_eq!(err.requested, big);
            assert_eq!(err.stats.bytes_free, 240);
        }
        other => panic!("{other:?}"),
    }
    let all = allocate(ator, Layout { size: 240, align: Align::new(1).unwrap() }, &mut mem).unwrap();
    assert_eq!(all.span_len(), 240);
    match allocate(ator, Layout { size: 0, align: Align::new(1).unwrap() }, &mut mem) {
        Err(Exception::AllocErr { err }) => assert_eq!(err.kind, AllocErrKind::Oom),
        other => panic!("{other:?}"),
    }
    // without the flag an allocation is not filled
    mem.write(all, 0u64).unwrap();
    free_all(ator, &mut mem).unwrap();
    // the handle was passed by value, so it still opens the allocator
    assert_eq!(stat(ator, &mem).unwrap().bytes_free, 240);
    let again = allocate(ator, Layout { size: 8, align: Align::new(1).unwrap() }, &mut mem).unwrap();
    assert_eq!(again.start(), all.start());
    let word: u64 = mem.read(again).unwrap();
    assert_eq!(word, 0);
    // an unsealed capability is no handle
    assert!(allocate(region, big, &mut mem).is_err());
    assert!(stat(TaggedCapability::invalid(), &mem).is_err());
}

#[test]
fn init_asks_for_a_region_at_a_sealing_address() {
    let mut mem = Memory::new(128, 0, &[]).unwrap();
    let root_alloc = reg_val(&mem, Register::Z0);
    let region = allocate(
        root_alloc,
        Layout { size: 64, align: Align::new(8).unwrap() },
        &mut mem,
    )
    .unwrap();
    assert!(matches!(
        init(Strategy::Bump, InitFlags::empty(), region, &mut mem),
        Err(Exception::InvalidMemAccess { .. })
    ));
    assert!(matches!(
        init(Strategy::Bump, InitFlags::empty(), region.set_perms(Permissions::read()), &mut mem),
        Err(Exception::InvalidMemAccess { .. })
    ));
}

#[test]
fn bump_state_allocates_in_order() {
    let region = TaggedCapability::new(
        Capability::new(Address(40), Address(16), Address(64), Permissions::all(), OType::unsealed()),
        true,
    );
    let header = Header { strat: Strategy::Bump, flags: InitFlags::empty() };
    let mut bump = BumpAlloc::new(region);
    assert_eq!(bump.inner.addr(), Address(16));
    assert_eq!(bump.bytes_free(), 48);
    let a = bump.allocate(header, Layout { size: 3, align: Align::new(1).unwrap() }).unwrap();
    let b = bump.allocate(header, Layout { size: 8, align: Align::new(8).unwrap() }).unwrap();
    assert_eq!((a.start(), a.endb(), a.addr()), (Address(16), Address(19), Address(16)));
    assert_eq!((b.start(), b.endb(), b.addr()), (Address(24), Address(32), Address(24)));
    assert!(a.endb() .get() <= b.start().get());
    assert_eq!(bump.stat(header).bytes_free, 32);
    let err = bump
        .allocate(header, Layout { size: 33, align: Align::new(1).unwrap() })
        .unwrap_err();
    assert_eq!(err.kind, AllocErrKind::NotEnoughMem);
    assert_eq!(bump.bytes_free(), 32);
    bump.free_all();
    assert_eq!(bump.bytes_free(), 48);
}

#[test]
fn revocation_clears_what_reaches_the_span() {
    let mut mem = Memory::new(32, 0, &[]).unwrap();
    let root_alloc = reg_val(&mem, Register::Z0);
    let l8 = Layout { size: 8, align: Align::new(8).unwrap() };
    let a = allocate(root_alloc, l8, &mut mem).unwrap();
    let b = allocate(root_alloc, l8, &mut mem).unwrap();
    let c = allocate(root_alloc, l8, &mut mem).unwrap();
    assert_eq!((a.start(), b.start(), c.start()), (Address(16), Address(24), Address(32)));
    mem.regs.write(&mut mem.tags, Register::T0 as u8, a).unwrap();
    mem.regs.write(&mut mem.tags, Register::T1 as u8, c).unwrap();
    mem.write(a, c).unwrap();
    mem.write(c, a).unwrap();
    // a span that neither bound of `c` lies in, but both bounds of `a`
    revoke::by_bounds(&mut mem, Address(10), Address(24)).unwrap();
    assert!(!reg_val(&mem, Register::T0).is_valid());
    assert!(reg_val(&mem, Register::T1).is_valid());
    assert_eq!(mem.tags.read_gran(a.addr().gran()), Some(true));
    assert_eq!(mem.tags.read_gran(c.addr().gran()), Some(false));
    // the handle of the root allocator spans more than the span
    assert!(reg_val(&mem, Register::Z0).is_valid());
    // the end bound counts
    revoke::by_bounds(&mut mem, Address(40), Address(41)).unwrap();
    assert!(!reg_val(&mem, Register::T1).is_valid());
    assert_eq!(mem.tags.read_gran(a.addr().gran()), Some(false));
    // data is as it was
    let word: TaggedCapability = mem.read(a).unwrap();
    assert_eq!(word.capability(), c.capability());
}

#[test]
fn tag_controller_maps_registers_and_granules() {
    let mut tags = TagController::new(4);
    assert_eq!(tags.len(), 36);
    assert_eq!(tags.get(35), Some(false));
    assert_eq!(tags.get(36), None);
    assert_eq!(tags.read_reg(31), Some(false));
    assert_eq!(tags.read_reg(32), None);
    assert_eq!(tags.write_reg(5, true), Some(()));
    assert_eq!(tags.write_reg(32, true), None);
    assert_eq!(tags.read_reg(5), Some(true));
    assert_eq!(tags.get(5), Some(true));
    assert_eq!(tags.reg(5), Some(5));
    assert_eq!(tags.write_gran(Granule(3), true), Some(()));
    assert_eq!(tags.write_gran(Granule(4), true), None);
    assert_eq!(tags.read_gran(Granule(3)), Some(true));
    assert_eq!(tags.read_gran(Granule(2)), Some(false));
    assert_eq!(tags.get(35), Some(true));
    assert_eq!(tags.write_gran(Granule(3), false), Some(()));
    assert_eq!(tags.get(35), Some(false));
    assert_eq!(TagController::gran_to_idx(Granule(3)), 35);
    assert_eq!(TagController::idx_to_gran(35), Some(Granule(3)));
    assert_eq!(TagController::idx_to_gran(31), None);
    assert_eq!(tags.grans(Address(8), 8), Some(33));
    assert_eq!(tags.grans(Address(8), 25), None);
    assert_eq!(tags.grans(Address(31), 1), Some(35));
}

#[test]
fn layouts_fold_fields() {
    let byte = Layout { size: 1, align: Align::new(1).unwrap() };
    let grain = Layout { size: 8, align: Align::new(8).unwrap() };
    let half = Layout { size: 2, align: Align::new(2).unwrap() };
    assert_eq!(layout(&[]), Layout { size: 0, align: Align::min() });
    assert_eq!(layout(&[byte, grain, grain, grain]), Layout { size: 32, align: grain.align });
    assert_eq!(layout(&[byte, half, byte]), Layout { size: 5, align: half.align });
    assert_eq!(layout(&[grain, byte, grain]).size, 24);
    assert_eq!(Op::layout(), Layout { size: 32, align: grain.align });
    assert_eq!(Layout::layout().size, 3);
    assert_eq!(Stats::layout().size, 4);
    assert_eq!(Header::layout().size, 2);
    assert_eq!(BumpAlloc::layout(), grain);
    assert_eq!(TaggedCapability::layout(), grain);
    assert_eq!(Capability::layout(), Layout { size: 8, align: Align::min() });
    assert_eq!(gran_span(Address(0), 0), 0);
    assert_eq!(gran_span(Address(0), 8), 0);
    assert_eq!(gran_span(Address(0), 9), 1);
    assert_eq!(gran_span(Address(7), 2), 1);
    assert_eq!(gran_span(Address(8), 32), 3);
}

#[test]
fn signs_are_bit_patterns() {
    assert_eq!(gran_sign(u64::MAX), -1);
    assert_eq!(gran_sign(1 << 63), i64::MIN);
    assert_eq!(gran_sign(5), 5);
    assert_eq!(gran_unsign(-1), u64::MAX);
    assert_eq!(gran_unsign(i64::MIN), 1 << 63);
    assert_eq!(addr_sign(0xffff), -1);
    assert_eq!(addr_sign(0x8000), i16::MIN);
    assert_eq!(addr_unsign(-64), 0xffc0);
    assert_eq!(addr_unsign(7), 7);
}

#[test]
fn bytes_name_kinds() {
    for byte in 0..=255u8 {
        match OpKind::from_byte(byte) {
            Ok(kind) => {
                assert_eq!(kind.to_byte(), byte);
                assert_eq!(kind as u8, byte);
                assert_eq!(OpKind::from_str(kind.display()), Some(kind));
                assert!(kind.operand_count() <= 3);
            }
            Err(Exception::InvalidOpKind { byte: b }) => {
                assert_eq!(b, byte);
                assert!(byte > 50);
            }
            Err(other) => panic!("{other:?}"),
        }
        match SyscallKind::from_byte(byte) {
            Ok(kind) => {
                assert_eq!(kind.to_byte(), byte);
                assert_eq!(kind as u8, byte);
            }
            Err(Exception::InvalidSyscall { byte: b }) => {
                assert_eq!(b, byte);
                assert!(byte > 6);
            }
            Err(other) => panic!("{other:?}"),
        }
        match Register::from_byte(byte) {
            Some(reg) => {
                assert_eq!(reg.to_byte(), byte);
                assert_eq!(reg as u8, byte);
                assert_eq!(Register::from_str(reg.display()), Some(reg));
            }
            None => assert!(byte >= 32),
        }
    }
    assert_eq!(Strategy::from_byte(1), Ok(Strategy::Bump));
    assert_eq!(Strategy::Bump.to_byte(), 1);
    assert_eq!(
        Strategy::from_byte(0),
        Err(Exception::InvalidAllocStrategy { byte: 0 })
    );
    assert_eq!(OpKind::Syscall.to_byte(), 50);
    assert_eq!(OpKind::Jal.display(), "jal");
    assert_eq!(OpKind::from_str("cunseal"), Some(OpKind::CUnseal));
    assert_eq!(OpKind::from_str("Jal"), None);
    assert_eq!(OpKind::CGetBound.operand_count(), 3);
    assert_eq!(OpKind::Jal.operand_count(), 2);
    assert_eq!(OpKind::Nop.operand_count(), 0);
    assert_eq!(Register::Z0.to_byte(), 31);
    assert_eq!(Register::from_str("a2"), Some(Register::A2));
    assert_eq!(Register::from_str("a8"), None);
    assert_eq!(SyscallKind::AllocStat.display(), "AllocStat");
    assert_eq!(MemAccessKind::Execute.display(), "execute");
}

#[test]
fn operations_ignore_unused_operands() {
    let a = op(OpKind::LoadI, r(Register::T0), data(5), data(1));
    let b = op(OpKind::LoadI, r(Register::T0), data(5), data(2));
    let c = op(OpKind::LoadI, r(Register::T0), data(6), data(1));
    assert_eq!(a, b);
    assert_ne!(a, c);
    assert_eq!(Op::nop(), op(OpKind::Nop, data(1), data(2), data(3)));
    assert_ne!(Op::nop(), Op::syscall());
    // a slot that is not used holds an invalid capability
    let unused = TaggedCapability::invalid();
    let nop = Op::nop();
    assert_eq!((nop.kind, nop.op1, nop.op2, nop.op3), (OpKind::Nop, unused, unused, unused));
    let syscall = Op::syscall();
    assert_eq!(
        (syscall.kind, syscall.op1, syscall.op2, syscall.op3),
        (OpKind::Syscall, unused, unused, unused)
    );
    let loadi = Op::loadi(7, data(9));
    assert_eq!(
        (loadi.kind, loadi.op1, loadi.op2, loadi.op3),
        (OpKind::LoadI, data(7), data(9), unused)
    );
    assert_ne!(
        op(OpKind::Add, data(1), data(2), data(3)),
        op(OpKind::Add, data(1), data(2), data(4))
    );
}

#[test]
fn add_by_hand() {
    let mut program = vec![
        Op::loadi(Register::T1 as u8, data(23)),
        Op::loadi(Register::T2 as u8, data(47)),
        op(OpKind::Add, r(Register::T0), r(Register::T1), r(Register::T2)),
    ];
    program.extend(exit());
    let mut mem = Memory::new(64, 64, &program).unwrap();
    run(&mut mem).unwrap();
    assert_eq!(reg_val(&mem, Register::T0), data(70));
    assert_eq!(reg_val(&mem, Register::T1), data(23));
    assert_eq!(reg_val(&mem, Register::T2), data(47));
}

#[test]
fn step_advances_the_program_counter_by_one_operation() {
    let mut program = vec![Op::nop(), Op::loadi(Register::T0 as u8, data(9))];
    program.extend(exit());
    let mut mem = Memory::new(64, 64, &program).unwrap();
    let pc = reg_val(&mem, Register::Pc);
    mem.execute_next().unwrap();
    assert_eq!(reg_val(&mem, Register::Pc), pc.set_addr(pc.addr().add(32)));
    mem.execute_next().unwrap();
    assert_eq!(reg_val(&mem, Register::Pc), pc.set_addr(pc.addr().add(64)));
    assert_eq!(reg_val(&mem, Register::T0), data(9));
    mem.execute_next().unwrap();
    assert_eq!(mem.execute_next(), Err(Exception::ProcessExit));
    // the program counter was advanced before the exception
    assert_eq!(reg_val(&mem, Register::Pc), pc.set_addr(pc.addr().add(128)));
    // and now stands at the end of the program
    assert!(matches!(
        mem.execute_next(),
        Err(Exception::InvalidMemAccess { .. })
    ));
}

fn run_ops(ops: &[Op]) -> Memory {
    let mut program = ops.to_vec();
    program.extend(exit());
    let mut mem = Memory::new(128, 64, &program).unwrap();
    run(&mut mem).unwrap();
    mem
}

fn alu(kind: OpKind, a: u64, b: u64) -> u64 {
    let mem = run_ops(&[
        Op::loadi(Register::T1 as u8, data(a)),
        Op::loadi(Register::T2 as u8, data(b)),
        op(kind, r(Register::T0), r(Register::T1), r(Register::T2)),
    ]);
    let out = reg_val(&mem, Register::T0);
    assert!(!out.is_valid());
    out.to_ugran()
}

fn alu_imm(kind: OpKind, a: u64, b: u64) -> u64 {
    let mem = run_ops(&[
        Op::loadi(Register::T1 as u8, data(a)),
        op(kind, r(Register::T0), r(Register::T1), data(b)),
    ]);
    reg_val(&mem, Register::T0).to_ugran()
}

#[test]
fn arithmetic_wraps_and_shifts() {
    assert_eq!(alu(OpKind::Add, u64::MAX, 2), 1);
    assert_eq!(alu_imm(OpKind::AddI, 40, 2), 42);
    assert_eq!(alu(OpKind::Sub, 1, 2), u64::MAX);
    assert_eq!(alu(OpKind::Sub, 9, 2), 7);
    assert_eq!(alu(OpKind::Xor, 0b1100, 0b1010), 0b0110);
    assert_eq!(alu_imm(OpKind::XorI, 0b1100, 0b1010), 0b0110);
    assert_eq!(alu(OpKind::Or, 0b1100, 0b1010), 0b1110);
    assert_eq!(alu_imm(OpKind::OrI, 0b1100, 0b1010), 0b1110);
    assert_eq!(alu(OpKind::And, 0b1100, 0b1010), 0b1000);
    assert_eq!(alu_imm(OpKind::AndI, 0b1100, 0b1010), 0b1000);
    assert_eq!(alu(OpKind::Sll, 1, 63), 1 << 63);
    assert_eq!(alu(OpKind::Sll, 3, 63), 1 << 63);
    assert_eq!(alu(OpKind::Sll, 1, 64), 1);
    assert_eq!(alu_imm(OpKind::SllI, 5, 2), 20);
    assert_eq!(alu(OpKind::Srl, 1 << 63, 63), 1);
    assert_eq!(alu(OpKind::Srl, u64::MAX, 65), u64::MAX >> 1);
    assert_eq!(alu_imm(OpKind::SrlI, 20, 2), 5);
    assert_eq!(alu(OpKind::Sra, (-16i64) as u64, 2), (-4i64) as u64);
    assert_eq!(alu(OpKind::Sra, (-1i64) as u64, 63), u64::MAX);
    assert_eq!(alu(OpKind::Sra, (-5i64) as u64, 1), (-3i64) as u64);
    assert_eq!(alu(OpKind::Sra, 16, 2), 4);
    assert_eq!(alu_imm(OpKind::SraI, (-16i64) as u64, 66), (-4i64) as u64);
    assert_eq!(alu(OpKind::Slts, (-1i64) as u64, 0), 1);
    assert_eq!(alu(OpKind::Sltu, (-1i64) as u64, 0), 0);
    assert_eq!(alu(OpKind::Slts, 3, 3), 0);
    assert_eq!(alu(OpKind::Sltu, 2, 3), 1);
    assert_eq!(alu_imm(OpKind::SltsI, (-2i64) as u64, (-1i64) as u64), 1);
    assert_eq!(alu_imm(OpKind::SltuI, 2, 1), 0);
}

#[test]
fn capability_operations_read_and_derive() {
    let t0 = r(Register::T0);
    let t1 = r(Register::T1);
    let t2 = r(Register::T2);
    let t3 = r(Register::T3);
    let t4 = r(Register::T4);
    let t5 = r(Register::T5);
    let sp = r(Register::Sp);
    let mem = run_ops(&[
        op(OpKind::Cpy, t0, sp, data(0)),
        op(OpKind::CGetAddr, t1, t0, data(0)),
        op(OpKind::CGetBound, t2, t3, t0),
        op(OpKind::CGetPerm, t4, t0, data(0)),
        op(OpKind::CGetValid, t5, t0, data(0)),
        op(OpKind::CGetType, r(Register::T6), t0, data(0)),
        // narrow the copy to its second grain, read and write only
        Op::loadi(Register::S0 as u8, data(8)),
        op(OpKind::Add, r(Register::S1), t2, r(Register::S0)),
        op(OpKind::Add, r(Register::S2), r(Register::S1), r(Register::S0)),
        op(OpKind::CSetBound, t0, r(Register::S1), r(Register::S2)),
        op(OpKind::CSetAddr, t0, r(Register::S1), data(0)),
        Op::loadi(Register::S3 as u8, data(3)),
        op(OpKind::CSetPerm, t0, r(Register::S3), data(0)),
        // widening a copy invalidates it
        op(OpKind::Cpy, r(Register::S4), t0, data(0)),
        op(OpKind::CSetBound, r(Register::S4), t2, t3),
        op(OpKind::CGetValid, r(Register::S5), r(Register::S4), data(0)),
        // store and load through the narrowed capability
        Op::loadi(Register::S6 as u8, data(0x1122_3344_5566_7788)),
        op(OpKind::Store64, t0, r(Register::S6), data(0)),
        op(OpKind::LoadU8, r(Register::S7), t0, data(0)),
        op(OpKind::LoadU16, r(Register::S8), t0, data(0)),
        op(OpKind::LoadU32, r(Register::S9), t0, data(0)),
        op(OpKind::LoadU64, r(Register::S10), t0, data(0)),
        op(OpKind::Store8, t0, r(Register::S3), data(0)),
        op(OpKind::LoadU64, r(Register::S11), t0, data(0)),
        op(OpKind::StoreC, t0, t0, data(0)),
        op(OpKind::LoadC, r(Register::A7), t0, data(0)),
    ]);
    let sp = reg_val(&mem, Register::Sp);
    assert_eq!(reg_val(&mem, Register::T1), data(sp.addr().get() as u64));
    assert_eq!(reg_val(&mem, Register::T2), data(sp.start().get() as u64));
    assert_eq!(reg_val(&mem, Register::T3), data(sp.endb().get() as u64));
    assert_eq!(reg_val(&mem, Register::T4), data(0x1f));
    assert_eq!(reg_val(&mem, Register::T5), data(1));
    assert_eq!(reg_val(&mem, Register::T6), data(0xff));
    let narrowed = reg_val(&mem, Register::T0);
    assert!(narrowed.is_valid());
    assert_eq!(narrowed.start(), sp.start().add(8));
    assert_eq!(narrowed.endb(), sp.start().add(16));
    assert_eq!(narrowed.addr(), sp.start().add(8));
    assert_eq!(narrowed.perms(), Permissions::read().union(Permissions::write()));
    assert!(!reg_val(&mem, Register::S4).is_valid());
    assert_eq!(reg_val(&mem, Register::S5), data(0));
    assert_eq!(reg_val(&mem, Register::S7), data(0x88));
    assert_eq!(reg_val(&mem, Register::S8), data(0x7788));
    assert_eq!(reg_val(&mem, Register::S9), data(0x5566_7788));
    assert_eq!(reg_val(&mem, Register::S10), data(0x1122_3344_5566_7788));
    assert_eq!(reg_val(&mem, Register::S11), data(0x1122_3344_5566_7703));
    assert_eq!(reg_val(&mem, Register::A7), narrowed);
}

#[test]
fn seal_and_unseal_operations() {
    // the root allocator's handle is sealed; the stack is not, and cannot unseal it
    let mem = run_ops(&[
        op(OpKind::CUnseal, r(Register::T0), r(Register::Z0), r(Register::Sp)),
        op(OpKind::CGetValid, r(Register::T1), r(Register::T0), data(0)),
        op(OpKind::CSeal, r(Register::T2), r(Register::Sp), r(Register::Sp)),
        op(OpKind::CGetValid, r(Register::T3), r(Register::T2), data(0)),
        op(OpKind::CGetType, r(Register::T4), r(Register::Z0), data(0)),
    ]);
    assert_eq!(reg_val(&mem, Register::T1), data(0));
    assert_eq!(reg_val(&mem, Register::T3), data(0));
    assert_eq!(reg_val(&mem, Register::T4), data(0));
    assert!(reg_val(&mem, Register::T0).otype().is_unsealed());
}

#[test]
fn faults_end_the_step() {
    let mut mem = Memory::new(64, 0, &[op(OpKind::Cpy, data(40), r(Register::Sp), data(0))]).unwrap();
    assert_eq!(
        mem.execute_next(),
        Err(Exception::InvalidRegAccess { access: RegAccess { reg: 40, len: 8 } })
    );
    let mut mem = Memory::new(64, 0, &[op(OpKind::LoadU8, r(Register::T0), r(Register::T1), data(0))])
        .unwrap();
    assert!(matches!(
        mem.execute_next(),
        Err(Exception::InvalidMemAccess { .. })
    ));
    let mut mem = Memory::new(
        64,
        0,
        &[Op::loadi(Register::A2 as u8, data(7)), Op::syscall()],
    )
    .unwrap();
    mem.execute_next().unwrap();
    assert_eq!(mem.execute_next(), Err(Exception::InvalidSyscall { byte: 7 }));
    // an unknown kind of operation in memory
    let mut mem = Memory::new(64, 0, &[Op::nop()]).unwrap();
    let pc = reg_val(&mem, Register::Pc);
    mem.mem[pc.addr().get() as usize] = 0xee;
    assert_eq!(mem.execute_next(), Err(Exception::InvalidOpKind { byte: 0xee }));
    assert_eq!(reg_val(&mem, Register::Pc), pc);
    // data in the program counter
    mem.regs.write_data(&mut mem.tags, Register::Pc as u8, pc.to_ugran()).unwrap();
    assert!(matches!(
        mem.execute_next(),
        Err(Exception::InvalidMemAccess { .. })
    ));
}

#[test]
fn execute_op_without_bump_leaves_the_program_counter() {
    let mut mem = Memory::new(64, 0, &[]).unwrap();
    let pc = reg_val(&mem, Register::Pc);
    mem.execute_op(Op::loadi(Register::T0 as u8, data(5)), None, false).unwrap();
    assert_eq!(reg_val(&mem, Register::T0), data(5));
    assert_eq!(reg_val(&mem, Register::Pc), pc);
    mem.execute_op(Op::loadi(Register::T0 as u8, data(6)), Some(pc), true).unwrap();
    assert_eq!(reg_val(&mem, Register::Pc), pc.set_addr(pc.addr().add(32)));
    // a jump links and chooses the address
    let jal = op(OpKind::Jal, r(Register::Ra), data((-64i16) as u16 as u64), data(0));
    let at = pc.set_addr(Address(200));
    mem.execute_op(jal, Some(at), true).unwrap();
    assert_eq!(reg_val(&mem, Register::Ra), at.set_addr(Address(232)));
    assert_eq!(reg_val(&mem, Register::Pc), at.set_addr(Address(136)));
    // a jump through a register is absolute
    mem.regs.write_data(&mut mem.tags, Register::T1 as u8, 300).unwrap();
    let jalr = op(OpKind::Jalr, r(Register::Zero), r(Register::T1), data(4));
    mem.execute_op(jalr, Some(at), true).unwrap();
    assert_eq!(reg_val(&mem, Register::Pc), at.set_addr(Address(304)));
    // a branch not taken falls through
    let beq = op(OpKind::Beq, r(Register::T0), r(Register::T1), data(96));
    mem.execute_op(beq, Some(at), true).unwrap();
    assert_eq!(reg_val(&mem, Register::Pc), at.set_addr(Address(232)));
    let bne = op(OpKind::Bne, r(Register::T0), r(Register::T1), data(96));
    mem.execute_op(bne, Some(at), true).unwrap();
    assert_eq!(reg_val(&mem, Register::Pc), at.set_addr(Address(296)));
    mem.regs.write_data(&mut mem.tags, Register::T0 as u8, u64::MAX).unwrap();
    for (kind, taken) in [
        (OpKind::Blts, true),
        (OpKind::Bges, false),
        (OpKind::Bltu, false),
        (OpKind::Bgeu, true),
    ] {
        let branch = op(kind, r(Register::T0), r(Register::T1), data(96));
        mem.execute_op(branch, Some(at), true).unwrap();
        let want = if taken { 296 } else { 232 };
        assert_eq!(reg_val(&mem, Register::Pc), at.set_addr(Address(want)));
    }
}

#[test]
fn allocator_system_calls() {
    let a0 = r(Register::A0);
    let a2 = Register::A2 as u8;
    let a3 = r(Register::A3);
    let a4 = Register::A4 as u8;
    // layout in a register: two bytes of size, then the exponent of the alignment
    let layout = |size: u64, exp: u64| data(size | exp << 16);
    let mut program = vec![
        // a region of 256 bytes at a sealing address from the root allocator
        Op::loadi(a2, data(SyscallKind::AllocAlloc as u64)),
        op(OpKind::Cpy, a3, r(Register::Z0), data(0)),
        Op::loadi(a4, layout(256, 8)),
        Op::syscall(),
        op(OpKind::Cpy, r(Register::S0), a0, data(0)),
        // an allocator over it
        Op::loadi(a2, data(SyscallKind::AllocInit as u64)),
        Op::loadi(Register::A3 as u8, data(1)),
        Op::loadi(a4, data(0)),
        op(OpKind::Cpy, r(Register::A5), r(Register::S0), data(0)),
        Op::syscall(),
        op(OpKind::Cpy, r(Register::S1), a0, data(0)),
        // twelve bytes from it
        Op::loadi(a2, data(SyscallKind::AllocAlloc as u64)),
        op(OpKind::Cpy, a3, r(Register::S1), data(0)),
        Op::loadi(a4, layout(12, 2)),
        Op::syscall(),
        op(OpKind::Cpy, r(Register::S2), a0, data(0)),
        // its stats
        Op::loadi(a2, data(SyscallKind::AllocStat as u64)),
        Op::syscall(),
        op(OpKind::Cpy, r(Register::S3), a0, data(0)),
        // free one, which frees nothing
        Op::loadi(a2, data(SyscallKind::AllocFree as u64)),
        op(OpKind::Cpy, r(Register::A4), r(Register::S2), data(0)),
        Op::syscall(),
        // and give the region back
        Op::loadi(a2, data(SyscallKind::AllocDeInit as u64)),
        op(OpKind::Cpy, a3, r(Register::S1), data(0)),
        Op::syscall(),
    ];
    program.extend(exit());
    let mut mem = Memory::new(256, 0, &program).unwrap();
    run(&mut mem).unwrap();
    // the region was revoked when the allocator took it
    let region = reg_val(&mem, Register::S0);
    assert!(!region.is_valid());
    assert_eq!(region.start().get() % 256, 0);
    assert_eq!(region.span_len(), 256);
    let ation = reg_val(&mem, Register::S2);
    assert_eq!(ation.start(), region.start().add(16));
    assert_eq!(ation.span_len(), 12);
    // strategy, flags, and the bytes free as two bytes
    assert_eq!(
        reg_val(&mem, Register::S3),
        data(1 | (256 - 28) << 16)
    );
    let back = reg_val(&mem, Register::A0);
    assert!(back.is_valid());
    assert!(back.otype().is_unsealed());
    assert_eq!((back.start(), back.endb()), (region.start(), region.endb()));
    // the allocation did not outlive its allocator
    assert!(!ation.is_valid() || !reg_val(&mem, Register::S2).is_valid());
}

#[test]
fn free_all_system_call_revokes() {
    let mut program = vec![
        Op::loadi(Register::A2 as u8, data(SyscallKind::AllocFreeAll as u64)),
        op(OpKind::Cpy, r(Register::A3), r(Register::Z0), data(0)),
        Op::syscall(),
    ];
    program.extend(exit());
    let mut mem = Memory::new(64, 8, &program).unwrap();
    mem.execute_next().unwrap();
    mem.execute_next().unwrap();
    mem.execute_next().unwrap();
    // everything that the root allocator handed out is gone, the program too
    assert!(!reg_val(&mem, Register::Sp).is_valid());
    assert!(!reg_val(&mem, Register::Pc).is_valid());
    assert!(matches!(
        mem.execute_next(),
        Err(Exception::InvalidMemAccess { .. })
    ));
}

#[test]
fn boot_counts_the_program() {
    let program = vec![Op::nop(); 0x1_0000];
    assert_eq!(
        Memory::new(64, 0, &program).err(),
        Some(BootErr::ProgramLenOverflow)
    );
    // the greatest machine, filled to the last byte but one granule
    let program = vec![Op::nop(); 2046];
    let mem = Memory::new(0x1fff, 32, &program).unwrap();
    assert!(mem.is_well_formed());
    assert_eq!(reg_val(&mem, Register::Sp).endb(), Address(0xfff0));
    let program = vec![Op::nop(); 2047];
    assert!(matches!(
        Memory::new(0x1fff, 16, &program),
        Err(BootErr::AllocStack { .. })
    ));
}

#[test]
fn accesses_name_their_fault() {
    let cap = TaggedCapability::new(
        Capability::new(Address(8), Address(8), Address(16), Permissions::read(), OType::unsealed()),
        true,
    );
    let one = Align::new(1).unwrap();
    let eight = Align::new(8).unwrap();
    let fault = |tcap: TaggedCapability, kind, align, len| {
        let access: MemAccess = tcap.access(kind, align, len);
        assert_eq!(tcap.check_given_access(access).is_ok(), access.fault().is_none());
        assert_eq!(tcap.check_access(kind, align, len).is_ok(), access.fault().is_none());
        access.fault()
    };
    assert_eq!(fault(cap, MemAccessKind::Read, eight, Some(8)), None);
    assert_eq!(
        fault(TaggedCapability::from_ugran(cap.to_ugran()), MemAccessKind::Read, one, Some(1)),
        Some(MemAccessFault::Untagged)
    );
    assert_eq!(
        fault(cap, MemAccessKind::Read, one, Some(9)),
        Some(MemAccessFault::Unbounded)
    );
    assert_eq!(fault(cap, MemAccessKind::Read, one, None), Some(MemAccessFault::Unbounded));
    assert_eq!(
        fault(cap, MemAccessKind::Write, one, Some(1)),
        Some(MemAccessFault::NoPermission)
    );
    assert_eq!(
        fault(cap, MemAccessKind::Execute, one, Some(1)),
        Some(MemAccessFault::NoPermission)
    );
    assert_eq!(
        fault(cap.set_addr(Address(9)), MemAccessKind::Read, eight, Some(1)),
        Some(MemAccessFault::Unaligned)
    );
    let sealed = TaggedCapability::new(
        Capability::new(Address(8), Address(8), Address(16), Permissions::read(), OType::new(1)),
        true,
    );
    assert_eq!(
        fault(sealed, MemAccessKind::Read, one, Some(1)),
        Some(MemAccessFault::Sealed)
    );
    assert_eq!(RegAccess { reg: 3, len: 8 }.fault(), None);
    assert_eq!(
        RegAccess { reg: 32, len: 9 }.fault(),
        Some(RegAccessFault::NoSuchRegister)
    );
    assert_eq!(RegAccess { reg: 31, len: 9 }.fault(), Some(RegAccessFault::TooLong));
}

#[test]
fn values_round_trip_through_registers_and_memory() {
    let mut mem = Memory::new(64, 64, &[]).unwrap();
    let sp = reg_val(&mem, Register::Sp);
    let at = sp.set_addr(sp.start());
    let layout = Layout { size: 0x1234, align: Align::new(0x400).unwrap() };
    mem.write(at, layout).unwrap();
    assert_eq!(mem.read::<Layout>(at).unwrap(), layout);
    assert_eq!(mem.mem[usize::from(at.addr().get()) + 2], 10);
    let stats = Stats { strategy: Strategy::Bump, flags: InitFlags::init_on_free(), bytes_free: 77 };
    mem.write(at, stats).unwrap();
    assert_eq!(mem.read::<Stats>(at).unwrap(), stats);
    let header = Header { strat: Strategy::Bump, flags: InitFlags::all() };
    mem.write(at, header).unwrap();
    assert_eq!(mem.read::<Header>(at).unwrap(), header);
    mem.write(at, 0u8).unwrap();
    assert_eq!(
        mem.read::<Header>(at),
        Err(Exception::InvalidAllocStrategy { byte: 0 })
    );
    mem.write(at, Permissions::from_bits_retain(0xff)).unwrap();
    assert_eq!(mem.read::<Permissions>(at).unwrap(), Permissions::all());
    mem.write(at, OType::new(7)).unwrap();
    assert_eq!(mem.read::<OType>(at).unwrap(), OType::new(7));
    mem.write(at, Address(0xbeef)).unwrap();
    assert_eq!(mem.read::<Address>(at).unwrap(), Address(0xbeef));
    mem.write(at, -3i64).unwrap();
    assert_eq!(mem.read::<i64>(at).unwrap(), -3);
    assert_eq!(mem.read::<i32>(at).unwrap(), -3);
    assert_eq!(mem.read::<i16>(at).unwrap(), -3);
    assert_eq!(mem.read::<i8>(at).unwrap(), -3);
    mem.write(at, i32::MIN).unwrap();
    assert_eq!(mem.read::<u32>(at).unwrap(), 0x8000_0000);
    mem.write(at, -129i16).unwrap();
    assert_eq!(mem.read::<u16>(at).unwrap(), 0xff7f);
    assert_eq!(mem.read::<i8>(at).unwrap(), 127);
    mem.write(at, -128i8).unwrap();
    assert_eq!(mem.read::<i16>(at).unwrap(), -128);
    mem.write(at, -3i64).unwrap();
    assert_eq!(mem.read::<bool>(at).unwrap(), true);
    mem.write(at, false).unwrap();
    assert_eq!(mem.read::<bool>(at).unwrap(), false);
    mem.write(at, 0x35u8).unwrap();
    assert_eq!(mem.read::<Align>(at).unwrap(), Align::new(32).unwrap());
    mem.write(at, SyscallKind::AllocStat).unwrap();
    assert_eq!(mem.read::<SyscallKind>(at).unwrap(), SyscallKind::AllocStat);
    mem.write(at, OpKind::Bgeu).unwrap();
    assert_eq!(mem.read::<OpKind>(at).unwrap(), OpKind::Bgeu);
    let op = op(OpKind::Jalr, sp, data(5), at);
    mem.write(at, op).unwrap();
    let back: Op = mem.read(at).unwrap();
    assert_eq!((back.kind, back.op1, back.op2, back.op3), (op.kind, sp, data(5), at));
    let bump = BumpAlloc::new(sp);
    mem.write(at, bump).unwrap();
    assert_eq!(mem.read::<BumpAlloc>(at).unwrap(), bump);
    // a layout in a register
    mem.regs.write_ty(&mut mem.tags, Register::T0 as u8, layout).unwrap();
    assert_eq!(mem.regs.read_data(Register::T0 as u8).unwrap(), 0x0a_1234);
    assert_eq!(mem.regs.read_ty::<Layout>(&mem.tags, Register::T0 as u8).unwrap(), layout);
}

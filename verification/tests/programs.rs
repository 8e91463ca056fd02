use fruticose::assembler::parse1::ParseErr;
use fruticose::assembler::parse2::Parser2;
use fruticose::capability::TaggedCapability;
use fruticose::exception::Exception;
use fruticose::ints::UGran;
use fruticose::mem::Memory;
use fruticose::op::Op;
use fruticose::registers::Register;

const ADD: &str = "loadi t1, 23\nloadi t2, 47\nadd t0, t1, t2\n; t0 is now 70..\naddi t0, t0, 1\n; t0 is now 71..\n\nloadi a2, SYS_EXIT\nsyscall\n";
const ADD_PLAIN: &str = "loadi t1, 23\nloadi t2, 47\nadd t0, t1, t2\nloadi a2, SYS_EXIT\nsyscall\n";
const CMP: &str = "loadi t1, 47\nloadi t2, 48\nbne t1, t2, NOT_SAME\njal zero, ARE_EQUAL\n\nNOT_SAME:\n loadi t0, 1\n jal zero, DONE\n\nARE_EQUAL:\n loadi t0, 0\n jal zero, DONE\n\nDONE:\n loadi a2, SYS_EXIT\n syscall\n";
const CMP_SHORT: &str = "loadi t1, 47\nloadi t2, 48\nbne   t1, t2, NOT_EQ\njal   zero, DONE\nNOT_EQ:\n  loadi t0, 1\n  jal   zero, DONE\nDONE:\n  loadi a2, SYS_EXIT\n  syscall\n";
const JMP_BACK: &str = "loadi a2, SYS_EXIT\njal zero, FWD\nBACK:\n loadi t0, 53\n syscall\nFWD:\n jal zero, BACK\n";
const FIB_ITER: &str = "\
; a2 holds n; a0 gets the nth number
 cpy t0, a2
 loadi a0, 0
 loadi t1, 1
 loadi t3, 1
LOOP:
 beq t0, zero, DONE
 add t2, a0, t1
 cpy a0, t1
 cpy t1, t2
 sub t0, t0, t3
 jal zero, LOOP
DONE:
 loadi a2, SYS_EXIT
 syscall
";
const FIB_REC: &str = "\
; a2 holds n; a0 gets the nth number
 cpy a1, a2
 jal ra, FIB
 loadi a2, SYS_EXIT
 syscall
FIB:
 loadi t0, 2
 bltu a1, t0, BASE
 ; a frame of three grains: the return address, n, and the number before
 cgetaddr t1, sp
 loadi t2, 24
 sub t1, t1, t2
 csetaddr sp, t1
 storec sp, ra
 addi t1, t1, 8
 cpy t3, sp
 csetaddr t3, t1
 store64 t3, a1
 loadi t2, 1
 sub a1, a1, t2
 jal ra, FIB
 cgetaddr t1, sp
 addi t1, t1, 16
 cpy t3, sp
 csetaddr t3, t1
 store64 t3, a0
 cgetaddr t1, sp
 addi t1, t1, 8
 cpy t3, sp
 csetaddr t3, t1
 loadu64 a1, t3
 loadi t2, 2
 sub a1, a1, t2
 jal ra, FIB
 cgetaddr t1, sp
 addi t1, t1, 16
 cpy t3, sp
 csetaddr t3, t1
 loadu64 t4, t3
 add a0, a0, t4
 loadc ra, sp
 cgetaddr t1, sp
 addi t1, t1, 24
 csetaddr sp, t1
RETURN:
 jalr zero, ra, RETURN
BASE:
 cpy a0, a1
LEAVE:
 jalr zero, ra, LEAVE
";

fn assemble(src: &'static str) -> Result<Vec<Op>, ParseErr<'static>> {
    let mut parser = Parser2::new(src);
    let mut ops = Vec::new();
    while let Some(item) = parser.next() {
        ops.push(item?);
    }
    Ok(ops)
}

fn exec(mem: &mut Memory) -> Result<(), Exception> {
    loop {
        match mem.execute_next() {
            Ok(()) => (),
            Err(err) => match err {
                Exception::ProcessExit => break Ok(()),
                _ => return Err(err),
            },
        }
    }
}

fn expect_in_reg(mem: &mut Memory, reg: Register, tcap: TaggedCapability) {
    let val = mem.regs.read(&mem.tags, reg.to_byte()).unwrap();
    assert_eq!(val, tcap);
}

#[test]
fn add() {
    let ops = assemble(ADD).unwrap();
    let mut mem = Memory::new(32, 0, &ops).unwrap();
    drop(ops);
    exec(&mut mem).unwrap();
    expect_in_reg(&mut mem, Register::T1, TaggedCapability::from_ugran(23));
    expect_in_reg(&mut mem, Register::T2, TaggedCapability::from_ugran(47));
    expect_in_reg(&mut mem, Register::T0, TaggedCapability::from_ugran(71));
}

#[test]
fn add_without_increment() {
    let ops = assemble(ADD_PLAIN).unwrap();
    let mut mem = Memory::new(64, 64, &ops).unwrap();
    exec(&mut mem).unwrap();
    expect_in_reg(&mut mem, Register::T1, TaggedCapability::from_ugran(23));
    expect_in_reg(&mut mem, Register::T2, TaggedCapability::from_ugran(47));
    expect_in_reg(&mut mem, Register::T0, TaggedCapability::from_ugran(70));
}

#[test]
fn cmp() {
    let ops = assemble(CMP).unwrap();
    let mut mem = Memory::new(64, 0, &ops).unwrap();
    drop(ops);
    exec(&mut mem).unwrap();
    expect_in_reg(&mut mem, Register::T1, TaggedCapability::from_ugran(47));
    expect_in_reg(&mut mem, Register::T2, TaggedCapability::from_ugran(48));
    expect_in_reg(&mut mem, Register::T0, TaggedCapability::from_ugran(1));
}

#[test]
fn compare_with_branch_and_jump() {
    let ops = assemble(CMP_SHORT).unwrap();
    let mut mem = Memory::new(64, 64, &ops).unwrap();
    exec(&mut mem).unwrap();
    expect_in_reg(&mut mem, Register::T0, TaggedCapability::from_ugran(1));
}

#[test]
fn jmp_back() {
    let ops = assemble(JMP_BACK).unwrap();
    assert_eq!(ops.len(), 5);
    assert_eq!(
        ops[4].op2,
        TaggedCapability::from_ugran(0u64.wrapping_sub(2 * 32))
    );
    let mut mem = Memory::new(32, 0, &ops).unwrap();
    drop(ops);
    exec(&mut mem).unwrap();
    expect_in_reg(&mut mem, Register::T0, TaggedCapability::from_ugran(53));
}

#[test]
fn fibonacci_iter() -> Result<(), Exception> {
    let ops = assemble(FIB_ITER).unwrap();
    let mut mem = Memory::new(1024, 1024, &ops).unwrap();
    let pc = mem.regs.read(&mem.tags, Register::Pc.to_byte())?;
    for n in 0..94 {
        println!("fib(n = {n})");
        mem.regs.write(&mut mem.tags, Register::Pc.to_byte(), pc)?; // reset execution
        mem.regs.write_data(&mut mem.tags, Register::A2.to_byte(), n)?;
        exec(&mut mem).unwrap();
        expect_in_reg(&mut mem, Register::A0, TaggedCapability::from_ugran(fib(n)));
    }

    Ok(())
}

#[test]
fn fibonacci_recursive() -> Result<(), Exception> {
    let ops = assemble(FIB_REC).unwrap();
    let mut mem = Memory::new(1024, 1024, &ops).unwrap();
    let pc = mem.regs.read(&mem.tags, Register::Pc.to_byte())?;
    for n in 0..10 {
        println!("fib(n = {n})");
        mem.regs.write(&mut mem.tags, Register::Pc.to_byte(), pc)?; // reset execution
        mem.regs.write_data(&mut mem.tags, Register::A2.to_byte(), n)?;
        exec(&mut mem).unwrap();
        expect_in_reg(&mut mem, Register::A0, TaggedCapability::from_ugran(fib(n)));
    }

    Ok(())
}

fn fib(n: UGran) -> UGran {
    let mut f2 = 0;
    if n == 0 {
        return f2;
    };
    let mut f1 = 1;
    let mut f;
    for _ in 2..=n {
        f = f2
            .checked_add(f1)
            .expect("nth fibonacci mustn't overflow UGran");
        f2 = f1;
        f1 = f;
    }
    return f1;
}

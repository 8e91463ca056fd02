//! A software capability machine: tagged memory, a register bank, a
//! capability algebra, an instruction set with its execution engine, a
//! userspace allocator family with revocation, and the assembler that
//! produces programs for it.

pub mod abi;
pub mod access;
pub mod allocator;
pub mod assembler;
pub mod bits;
pub mod capability;
pub mod endian;
pub mod exception;
pub mod ints;
pub mod laws;
pub mod mem;
pub mod op;
pub mod process;
pub mod registers;
pub mod revoke;
pub mod syscall;

//! What can go wrong while the machine runs.

use vstd::prelude::*;
use crate::access::{MemAccess, RegAccess};
use crate::allocator::AllocErr;
use crate::ints::UAddr;

verus! {

/// An exception raised by the machine.
#[derive(Clone, Copy, Debug, PartialEq, Eq, Structural)]
#[allow(inconsistent_fields)]
pub enum Exception {
    /// The byte names no operation.
    InvalidOpKind { byte: u8 },
    /// The byte names no system call.
    InvalidSyscall { byte: u8 },
    /// The byte names no allocation strategy.
    InvalidAllocStrategy { byte: u8 },
    /// The flags are not allocator init flags.
    InvalidAllocInitFlags { flags: u8 },
    /// The alignment is not a power of two.
    InvalidAlign { align: UAddr },
    /// The capability does not admit the access.
    InvalidMemAccess { access: MemAccess },
    /// No such register, or more bytes than a register holds.
    InvalidRegAccess { access: RegAccess },
    /// The allocator could not serve the request.
    AllocErr { err: AllocErr },
    /// The process asked to exit.
    ProcessExit,
}

} // verus!

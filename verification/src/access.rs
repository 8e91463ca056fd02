//! Descriptors of memory and register accesses.

use vstd::prelude::*;
use crate::abi::Align;
use crate::capability::TaggedCapability;
use crate::exception::Exception;
use crate::ints::UAddr;

verus! {

/// What an access does to memory.
#[derive(Clone, Copy, Debug, PartialEq, Eq, Structural)]
pub enum MemAccessKind {
    Read,
    Write,
    Execute,
}

impl MemAccessKind {
    /// The name of the kind, in lower case.
    pub fn display(self) -> (s: &'static str)
        ensures
            s@ == match self {
                MemAccessKind::Read => "read"@,
                MemAccessKind::Write => "write"@,
                MemAccessKind::Execute => "execute"@,
            },
    {
        match self {
            MemAccessKind::Read => "read",
            MemAccessKind::Write => "write",
            MemAccessKind::Execute => "execute",
        }
    }
}

/// An access to memory through a capability.
#[derive(Clone, Copy, Debug, PartialEq, Eq, Structural)]
pub struct MemAccess {
    pub tcap: TaggedCapability,
    /// Bytes accessed; `None` where their number overflowed.
    pub len: Option<UAddr>,
    pub align: Align,
    pub kind: MemAccessKind,
}

impl MemAccess {
    /// Whether the bytes accessed lie within the capability's bounds.
    pub open spec fn is_bounded_spec(self) -> bool {
        match self.len {
            Some(len) => self.tcap.capa.is_bounded_with_len_spec(len),
            None => false,
        }
    }

    /// Whether the capability's permissions grant the kind of access.
    pub open spec fn perms_grant_spec(self) -> bool {
        self.tcap.capa.perms.grants_access_spec(self.kind)
    }

    /// Whether the capability's address is aligned as the access asks.
    pub open spec fn is_aligned_spec(self) -> bool {
        self.tcap.capa.addr.is_aligned_to_spec(self.align)
    }

    /// Whether the bytes accessed lie within the capability's bounds.
    pub fn is_bounded(&self) -> (b: bool)
        ensures
            b == self.is_bounded_spec(),
    {
        match self.len {
            Some(len) => self.tcap.is_bounded_with_len(len),
            None => false,
        }
    }

    /// Whether the capability's permissions grant the kind of access.
    pub fn perms_grant(&self) -> (b: bool)
        ensures
            b == self.perms_grant_spec(),
    {
        self.tcap.perms().grants_access(self.kind)
    }

    /// Whether the capability's address is aligned as the access asks.
    pub fn is_aligned(&self) -> (b: bool)
        ensures
            b == self.is_aligned_spec(),
    {
        self.tcap.addr().is_aligned_to(self.align)
    }
}

/// Why a capability does not admit an access.
#[derive(Clone, Copy, Debug, PartialEq, Eq, Structural)]
pub enum MemAccessFault {
    /// Data was used where a capability is required.
    Untagged,
    /// The bytes accessed do not lie within the bounds.
    Unbounded,
    /// The permissions do not grant the kind of access.
    NoPermission,
    /// The address is not aligned as the access asks.
    Unaligned,
    /// The capability is sealed.
    Sealed,
}

impl MemAccess {
    /// The first reason for which the access is refused: the tag, then the
    /// bounds, the permissions, the alignment and the seal. None where the
    /// capability admits the access.
    pub open spec fn fault_spec(self) -> Option<MemAccessFault> {
        if !self.tcap.valid {
            Some(MemAccessFault::Untagged)
        } else if !self.is_bounded_spec() {
            Some(MemAccessFault::Unbounded)
        } else if !self.perms_grant_spec() {
            Some(MemAccessFault::NoPermission)
        } else if !self.is_aligned_spec() {
            Some(MemAccessFault::Unaligned)
        } else if !self.tcap.capa.otype.is_unsealed_spec() {
            Some(MemAccessFault::Sealed)
        } else {
            None
        }
    }

    /// Why the access is refused, if it is.
    pub fn fault(&self) -> (r: Option<MemAccessFault>)
        ensures
            r == self.fault_spec(),
            r is None <==> self.tcap.admits(*self),
    {
        if !self.tcap.is_valid() {
            Some(MemAccessFault::Untagged)
        } else if !self.is_bounded() {
            Some(MemAccessFault::Unbounded)
        } else if !self.perms_grant() {
            Some(MemAccessFault::NoPermission)
        } else if !self.is_aligned() {
            Some(MemAccessFault::Unaligned)
        } else if !self.tcap.otype().is_unsealed() {
            Some(MemAccessFault::Sealed)
        } else {
            None
        }
    }
}

/// Why a register cannot be accessed.
#[derive(Clone, Copy, Debug, PartialEq, Eq, Structural)]
pub enum RegAccessFault {
    /// There is no such register.
    NoSuchRegister,
    /// The access is of more bytes than a register holds.
    TooLong,
}

/// An access to a register.
#[derive(Clone, Copy, Debug, PartialEq, Eq, Structural)]
pub struct RegAccess {
    pub reg: u8,
    pub len: UAddr,
}

impl RegAccess {
    /// Whether the register exists.
    pub open spec fn is_reg_valid_spec(self) -> bool {
        self.reg < 32
    }

    /// Whether the bytes accessed fit in a register.
    pub open spec fn is_len_valid_spec(self) -> bool {
        self.len <= 8
    }

    /// Whether the register exists.
    pub fn is_reg_valid(&self) -> (b: bool)
        ensures
            b == self.is_reg_valid_spec(),
    {
        self.reg < 32
    }

    /// Whether the bytes accessed fit in a register.
    pub fn is_len_valid(&self) -> (b: bool)
        ensures
            b == self.is_len_valid_spec(),
    {
        self.len <= 8
    }

    /// The first reason for which the access is refused: the register,
    /// then the length. None where the access is in order.
    pub fn fault(&self) -> (r: Option<RegAccessFault>)
        ensures
            r == if !self.is_reg_valid_spec() {
                Some(RegAccessFault::NoSuchRegister)
            } else if !self.is_len_valid_spec() {
                Some(RegAccessFault::TooLong)
            } else {
                None
            },
    {
        if !self.is_reg_valid() {
            Some(RegAccessFault::NoSuchRegister)
        } else if !self.is_len_valid() {
            Some(RegAccessFault::TooLong)
        } else {
            None
        }
    }

    /// Fails unless the register exists.
    pub fn check_reg(self) -> (r: Result<(), Exception>)
        ensures
            r == if self.is_reg_valid_spec() {
                Ok::<(), Exception>(())
            } else {
                Err::<(), Exception>(Exception::InvalidRegAccess { access: self })
            },
    {
        if self.is_reg_valid() {
            Ok(())
        } else {
            Err(Exception::InvalidRegAccess { access: self })
        }
    }

    /// Fails unless the bytes accessed fit in a register.
    pub fn check_len(self) -> (r: Result<(), Exception>)
        ensures
            r == if self.is_len_valid_spec() {
                Ok::<(), Exception>(())
            } else {
                Err::<(), Exception>(Exception::InvalidRegAccess { access: self })
            },
    {
        if self.is_len_valid() {
            Ok(())
        } else {
            Err(Exception::InvalidRegAccess { access: self })
        }
    }

    /// Fails unless the register exists and the bytes accessed fit in it.
    pub fn check(&self) -> (r: Result<(), Exception>)
        ensures
            r == if self.is_reg_valid_spec() && self.is_len_valid_spec() {
                Ok::<(), Exception>(())
            } else {
                Err::<(), Exception>(Exception::InvalidRegAccess { access: *self })
            },
    {
        if self.is_reg_valid() && self.is_len_valid() {
            Ok(())
        } else {
            Err(Exception::InvalidRegAccess { access: *self })
        }
    }
}

} // verus!

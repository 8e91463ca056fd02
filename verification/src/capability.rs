//! Addresses, permissions, object types and capabilities.

use vstd::prelude::*;
use crate::abi::{align_up_spec, lemma_align_up, Align};
use crate::access::{MemAccess, MemAccessKind};
use crate::exception::Exception;
use crate::ints::{SAddr, UAddr, UGran};

verus! {

/// A byte address.
#[derive(Clone, Copy, Debug, PartialEq, Eq, Structural)]
pub struct Address(pub UAddr);

/// The index of one grain-sized, grain-aligned slot of memory.
#[derive(Clone, Copy, Debug, PartialEq, Eq, Structural)]
pub struct Granule(pub UAddr);

impl Address {
    /// Bits of an address that a capability stores.
    pub const BITS: u8 = 16;

    /// The address `offset` bytes above, wrapping at the top of the
    /// address space.
    pub open spec fn add_spec(self, offset: UAddr) -> Address {
        Address(((self.0 as int + offset as int) % 0x1_0000) as UAddr)
    }

    /// The address `offset` bytes below, wrapping at zero.
    pub open spec fn sub_spec(self, offset: UAddr) -> Address {
        Address(((self.0 as int - offset as int) % 0x1_0000) as UAddr)
    }

    /// The address moved by a signed number of bytes, wrapping.
    pub open spec fn offset_spec(self, offset: SAddr) -> Address {
        Address(((self.0 as int + offset as int) % 0x1_0000) as UAddr)
    }

    /// Whether the address is a multiple of the alignment.
    pub open spec fn is_aligned_to_spec(self, align: Align) -> bool {
        self.0 as nat % align.value() == 0
    }

    /// The least aligned address that is not below this one; zero where
    /// that address lies beyond the address space.
    pub open spec fn align_up_spec(self, align: Align) -> Address {
        Address((align_up_spec(self.0 as nat, align.value()) % 0x1_0000) as UAddr)
    }

    /// The greatest aligned address that is not above this one.
    pub open spec fn align_down_spec(self, align: Align) -> Address {
        Address((self.0 as nat - self.0 as nat % align.value()) as UAddr)
    }

    /// The address `offset` bytes above, wrapping.
    pub fn add(self, offset: UAddr) -> (r: Address)
        ensures
            r == self.add_spec(offset),
    {
        let sum: u32 = self.0 as u32 + offset as u32;
        Address((sum % 0x1_0000) as UAddr)
    }

    /// The address `offset` bytes below, wrapping.
    pub fn sub(self, offset: UAddr) -> (r: Address)
        ensures
            r == self.sub_spec(offset),
    {
        if self.0 >= offset {
            Address(self.0 - offset)
        } else {
            let gap: UAddr = offset - self.0;
            // gap is at least one, so this does not overflow
            Address((UAddr::MAX - gap) + 1)
        }
    }

    /// The address moved by a signed number of bytes, wrapping.
    pub fn offset(self, offset: SAddr) -> (r: Address)
        ensures
            r == self.offset_spec(offset),
    {
        let moved: i32 = self.0 as i32 + offset as i32;
        if moved < 0 {
            Address((moved + 0x1_0000) as UAddr)
        } else if moved >= 0x1_0000 {
            Address((moved - 0x1_0000) as UAddr)
        } else {
            Address(moved as UAddr)
        }
    }

    /// The address's value.
    pub fn get(self) -> (a: UAddr)
        ensures
            a == self.0,
    {
        self.0
    }

    /// The granule that holds this address.
    pub fn gran(self) -> (g: Granule)
        ensures
            g.0 == self.0 / 8,
    {
        Granule(self.0 / 8)
    }

    /// Whether the address is a multiple of the alignment.
    pub fn is_aligned_to(self, align: Align) -> (b: bool)
        ensures
            b == self.is_aligned_to_spec(align),
    {
        self.0 % align.get() == 0
    }

    /// The address itself where it is aligned, else the next aligned one.
    pub fn align_to(self, align: Align) -> (r: Address)
        ensures
            r == self.align_up_spec(align),
    {
        if self.is_aligned_to(align) {
            self
        } else {
            self.align_up(align)
        }
    }

    /// The least aligned address that is not below this one, wrapping to
    /// zero at the top of the address space.
    pub fn align_up(self, align: Align) -> (r: Address)
        ensures
            r == self.align_up_spec(align),
    {
        let a = align.get();
        let rem = self.0 % a;
        proof {
            lemma_align_up(self.0 as nat, a as nat);
        }
        if rem == 0 {
            self
        } else {
            let up: u32 = self.0 as u32 + (a - rem) as u32;
            Address((up % 0x1_0000) as UAddr)
        }
    }

    /// The greatest aligned address that is not above this one.
    pub fn align_down(self, align: Align) -> (r: Address)
        ensures
            r == self.align_down_spec(align),
    {
        let a = align.get();
        proof {
            vstd::arithmetic::div_mod::lemma_mod_decreases(self.0 as nat, a as nat);
        }
        Address(self.0 - self.0 % a)
    }
}

impl Granule {
    /// The address of the granule's first byte.
    pub fn addr(self) -> (a: Address)
        requires
            self.0 as int * 8 <= UAddr::MAX,
        ensures
            a.0 == self.0 * 8,
    {
        Address(self.0 * 8)
    }
}

/// A set of permissions, one bit each.
#[derive(Clone, Copy, Debug, PartialEq, Eq, Structural)]
pub struct Permissions {
    pub bits: u8,
}

impl Permissions {
    /// Bits that a capability stores for its permissions.
    pub const BITS: u8 = 8;

    /// Permission to load.
    pub open spec fn read_spec() -> Permissions {
        Permissions { bits: 0x01 }
    }

    /// Permission to load.
    #[verifier::when_used_as_spec(read_spec)]
    pub fn read() -> (p: Permissions)
        ensures
            p == Self::read_spec(),
    {
        Permissions { bits: 0x01 }
    }

    /// Permission to store.
    pub open spec fn write_spec() -> Permissions {
        Permissions { bits: 0x02 }
    }

    /// Permission to store.
    #[verifier::when_used_as_spec(write_spec)]
    pub fn write() -> (p: Permissions)
        ensures
            p == Self::write_spec(),
    {
        Permissions { bits: 0x02 }
    }

    /// Permission to fetch instructions.
    pub open spec fn exec_spec() -> Permissions {
        Permissions { bits: 0x04 }
    }

    /// Permission to fetch instructions.
    #[verifier::when_used_as_spec(exec_spec)]
    pub fn exec() -> (p: Permissions)
        ensures
            p == Self::exec_spec(),
    {
        Permissions { bits: 0x04 }
    }

    /// Permission to seal other capabilities.
    pub open spec fn seal_spec() -> Permissions {
        Permissions { bits: 0x08 }
    }

    /// Permission to seal other capabilities.
    #[verifier::when_used_as_spec(seal_spec)]
    pub fn seal() -> (p: Permissions)
        ensures
            p == Self::seal_spec(),
    {
        Permissions { bits: 0x08 }
    }

    /// Permission to unseal other capabilities.
    pub open spec fn unseal_spec() -> Permissions {
        Permissions { bits: 0x10 }
    }

    /// Permission to unseal other capabilities.
    #[verifier::when_used_as_spec(unseal_spec)]
    pub fn unseal() -> (p: Permissions)
        ensures
            p == Self::unseal_spec(),
    {
        Permissions { bits: 0x10 }
    }

    /// Whether every permission of `other` is in `self`.
    pub open spec fn contains_spec(self, other: Permissions) -> bool {
        self.bits & other.bits == other.bits
    }

    /// The permissions of either set.
    pub open spec fn union_spec(self, other: Permissions) -> Permissions {
        Permissions { bits: self.bits | other.bits }
    }

    /// Whether the set permits the given kind of access.
    pub open spec fn grants_access_spec(self, kind: MemAccessKind) -> bool {
        match kind {
            MemAccessKind::Read => self.bits & 0x01 == 0x01,
            MemAccessKind::Write => self.bits & 0x02 == 0x02,
            MemAccessKind::Execute => self.bits & 0x04 == 0x04,
        }
    }

    /// No permission.
    pub fn empty() -> (p: Permissions)
        ensures
            p.bits == 0,
    {
        Permissions { bits: 0 }
    }

    /// Every permission.
    pub fn all() -> (p: Permissions)
        ensures
            p.bits == 0x1F,
    {
        Permissions { bits: 0x1F }
    }

    /// The bits of the set.
    pub fn bits(self) -> (b: u8)
        ensures
            b == self.bits,
    {
        self.bits
    }

    /// The set with exactly the given bits, known or not.
    pub fn from_bits_retain(bits: u8) -> (p: Permissions)
        ensures
            p.bits == bits,
    {
        Permissions { bits }
    }

    /// The set with the known bits among the given ones.
    pub fn from_bits_truncate(bits: u8) -> (p: Permissions)
        ensures
            p.bits == bits & 0x1F,
    {
        Permissions { bits: bits & 0x1F }
    }

    /// Whether every permission of `other` is in `self`.
    pub fn contains(self, other: Permissions) -> (b: bool)
        ensures
            b == self.contains_spec(other),
    {
        self.bits & other.bits == other.bits
    }

    /// The permissions of either set.
    pub fn union(self, other: Permissions) -> (p: Permissions)
        ensures
            p == self.union_spec(other),
    {
        Permissions { bits: self.bits | other.bits }
    }

    /// Whether the set permits loads.
    pub fn r(self) -> (b: bool)
        ensures
            b == self.grants_access_spec(MemAccessKind::Read),
    {
        self.bits & 0x01 == 0x01
    }

    /// Whether the set permits stores.
    pub fn w(self) -> (b: bool)
        ensures
            b == self.grants_access_spec(MemAccessKind::Write),
    {
        self.bits & 0x02 == 0x02
    }

    /// Whether the set permits instruction fetches.
    pub fn x(self) -> (b: bool)
        ensures
            b == self.grants_access_spec(MemAccessKind::Execute),
    {
        self.bits & 0x04 == 0x04
    }

    /// Whether the set permits the given kind of access.
    pub fn grants_access(&self, kind: MemAccessKind) -> (b: bool)
        ensures
            b == self.grants_access_spec(kind),
    {
        match kind {
            MemAccessKind::Read => self.r(),
            MemAccessKind::Write => self.w(),
            MemAccessKind::Execute => self.x(),
        }
    }
}

/// The object type of a capability: the sealing address divided by the
/// granularity, or the sentinel of an unsealed capability.
#[derive(Clone, Copy, Debug, PartialEq, Eq, Structural)]
pub struct OType(pub u8);

impl OType {
    /// Distance between two sealing addresses.
    pub const GRANULARITY: UAddr = 256;

    /// Bits that a capability stores for its object type.
    pub const BITS: u8 = 8;

    /// The object type of an unsealed capability.
    pub open spec fn unsealed_spec() -> OType {
        OType(0xFF)
    }

    /// The object type of an unsealed capability.
    #[verifier::when_used_as_spec(unsealed_spec)]
    pub fn unsealed() -> (o: OType)
        ensures
            o == Self::unsealed_spec(),
    {
        OType(0xFF)
    }

    /// Whether this is the object type of an unsealed capability.
    pub open spec fn is_unsealed_spec(self) -> bool {
        self.0 == 0xFF
    }

    /// The address that seals with this object type.
    pub open spec fn get_addr_spec(self) -> Address {
        Address((self.0 as nat * 256) as UAddr)
    }

    /// The object type that sealing with `addr` gives, where `addr` is a
    /// valid sealing address.
    pub open spec fn try_new_spec(addr: Address) -> Option<OType> {
        if addr.0 % 256 == 0 {
            Some(OType((addr.0 / 256) as u8))
        } else {
            None
        }
    }

    /// The alignment of a valid sealing address.
    pub fn valid_align() -> (a: Align)
        ensures
            a.value() == 256,
            a.exp() == 8,
            a.wf(),
    {
        proof {
            vstd::arithmetic::power2::lemma2_to64();
        }
        Align::from_exp(8)
    }

    /// The object type with the given representation.
    pub fn new(repr: u8) -> (o: OType)
        ensures
            o.0 == repr,
    {
        OType(repr)
    }

    /// The object type that sealing with `addr` gives, or nothing where
    /// `addr` is not aligned to the granularity.
    pub fn try_new(addr: Address) -> (r: Option<OType>)
        ensures
            r == Self::try_new_spec(addr),
    {
        let align = Self::valid_align();
        if addr.is_aligned_to(align) {
            Some(OType((addr.get() / 256) as u8))
        } else {
            None
        }
    }

    /// The representation.
    pub fn get(self) -> (r: u8)
        ensures
            r == self.0,
    {
        self.0
    }

    /// The address that seals with this object type.
    pub fn get_addr(self) -> (a: Address)
        ensures
            a == self.get_addr_spec(),
    {
        Address(self.0 as UAddr * 256)
    }

    /// Whether a capability of this object type is sealed.
    pub fn is_sealed(self) -> (b: bool)
        ensures
            b == !self.is_unsealed_spec(),
    {
        !self.is_unsealed()
    }

    /// Whether a capability of this object type is unsealed.
    pub fn is_unsealed(self) -> (b: bool)
        ensures
            b == self.is_unsealed_spec(),
    {
        self.0 == 0xFF
    }
}

/// A bounded, permissioned pointer.
#[derive(Clone, Copy, Debug, PartialEq, Eq, Structural)]
pub struct Capability {
    pub addr: Address,
    pub start: Address,
    pub endb: Address,
    pub perms: Permissions,
    pub otype: OType,
}

/// The capability that a grain encodes: three addresses of sixteen bits,
/// then eight bits of permissions, then eight bits of object type, from the
/// least significant bit up.
pub open spec fn cap_decode(g: UGran) -> Capability {
    Capability {
        addr: Address((g & 0xFFFF) as UAddr),
        start: Address(((g >> 16) & 0xFFFF) as UAddr),
        endb: Address(((g >> 32) & 0xFFFF) as UAddr),
        perms: Permissions { bits: ((g >> 48) & 0xFF) as u8 },
        otype: OType(((g >> 56) & 0xFF) as u8),
    }
}

/// The grain that encodes a capability.
pub open spec fn cap_encode(c: Capability) -> UGran {
    (c.addr.0 as UGran) | ((c.start.0 as UGran) << 16) | ((c.endb.0 as UGran) << 32) | ((
    c.perms.bits as UGran) << 48) | ((c.otype.0 as UGran) << 56)
}

impl Capability {
    /// Whether the address lies within the bounds, the end included.
    pub open spec fn is_bounded_spec(self) -> bool {
        self.start.0 <= self.addr.0 <= self.endb.0
    }

    /// Whether `len` bytes from the address on lie within the bounds.
    pub open spec fn is_bounded_with_len_spec(self, len: UAddr) -> bool {
        self.start.0 <= self.addr.0 && self.addr.0 + len <= self.endb.0
    }

    /// The capability with the given address and the other fields kept.
    pub open spec fn set_addr_spec(self, new: Address) -> Capability {
        Capability { addr: new, ..self }
    }

    /// A capability whose every field is uninitialised memory, with no
    /// permission.
    pub open spec fn invalid_spec() -> Capability {
        Capability {
            addr: Address(0x5555),
            start: Address(0x5555),
            endb: Address(0x5555),
            perms: Permissions { bits: 0 },
            otype: OType(0xFF),
        }
    }

    /// A capability whose every field is uninitialised memory, with no
    /// permission.
    pub fn invalid() -> (c: Capability)
        ensures
            c == Self::invalid_spec(),
    {
        Capability {
            addr: Address(0x5555),
            start: Address(0x5555),
            endb: Address(0x5555),
            perms: Permissions { bits: 0 },
            otype: OType(0xFF),
        }
    }

    /// The capability with the given fields.
    pub fn new(addr: Address, start: Address, endb: Address, perms: Permissions, otype: OType) -> (c:
        Capability)
        ensures
            c == (Capability { addr, start, endb, perms, otype }),
    {
        Capability { addr, start, endb, perms, otype }
    }

    /// Decodes a grain.
    pub fn from_ugran(ugran: UGran) -> (c: Capability)
        ensures
            c == cap_decode(ugran),
    {
        let addr: UGran = ugran & 0xFFFF;
        let start: UGran = (ugran >> 16) & 0xFFFF;
        let endb: UGran = (ugran >> 32) & 0xFFFF;
        let perms: UGran = (ugran >> 48) & 0xFF;
        let otype: UGran = (ugran >> 56) & 0xFF;
        Capability {
            addr: Address(addr as UAddr),
            start: Address(start as UAddr),
            endb: Address(endb as UAddr),
            perms: Permissions::from_bits_retain(perms as u8),
            otype: OType::new(otype as u8),
        }
    }

    /// Encodes the capability in a grain.
    pub fn to_ugran(self) -> (g: UGran)
        ensures
            g == cap_encode(self),
    {
        (self.addr.0 as UGran) | ((self.start.0 as UGran) << 16) | ((self.endb.0 as UGran) << 32)
            | ((self.perms.bits as UGran) << 48) | ((self.otype.0 as UGran) << 56)
    }

    pub fn addr(self) -> (a: Address)
        ensures
            a == self.addr,
    {
        self.addr
    }

    /// The capability with the given address.
    #[must_use]
    pub fn set_addr(self, new: Address) -> (c: Capability)
        ensures
            c == self.set_addr_spec(new),
    {
        Capability { addr: new, start: self.start, endb: self.endb, perms: self.perms, otype: self.otype }
    }

    pub fn start(self) -> (a: Address)
        ensures
            a == self.start,
    {
        self.start
    }

    pub fn endb(self) -> (a: Address)
        ensures
            a == self.endb,
    {
        self.endb
    }

    pub fn perms(self) -> (p: Permissions)
        ensures
            p == self.perms,
    {
        self.perms
    }

    pub fn otype(self) -> (o: OType)
        ensures
            o == self.otype,
    {
        self.otype
    }

    /// Bytes between the bounds; zero where they are reversed.
    pub open spec fn span_len_spec(self) -> UAddr {
        if self.endb.0 >= self.start.0 {
            (self.endb.0 - self.start.0) as UAddr
        } else {
            0
        }
    }

    /// Bytes between the bounds; zero where they are reversed.
    pub fn span_len(&self) -> (n: UAddr)
        ensures
            n == self.span_len_spec(),
    {
        if self.endb.0 >= self.start.0 {
            self.endb.0 - self.start.0
        } else {
            0
        }
    }

    /// Whether the address lies within the bounds, the end included.
    pub fn is_bounded(&self) -> (b: bool)
        ensures
            b == self.is_bounded_spec(),
    {
        self.addr.0 >= self.start.0 && self.addr.0 <= self.endb.0
    }

    /// Whether `len` bytes from the address on lie within the bounds.
    pub fn is_bounded_with_len(&self, len: UAddr) -> (b: bool)
        ensures
            b == self.is_bounded_with_len_spec(len),
    {
        if self.endb.0 < self.addr.0 {
            return false;
        }
        let max_len: UAddr = self.endb.0 - self.addr.0;
        if len > max_len {
            return false;
        }
        self.is_bounded()
    }
}

/// Decoding the encoding of a capability gives the capability back, field
/// by field.
pub proof fn lemma_cap_decode_encode(c: Capability)
    ensures
        cap_decode(cap_encode(c)) == c,
{
    let a = c.addr.0;
    let s = c.start.0;
    let e = c.endb.0;
    let p = c.perms.bits;
    let o = c.otype.0;
    let g = cap_encode(c);
    assert(g == (a as u64) | ((s as u64) << 16) | ((e as u64) << 32) | ((p as u64) << 48) | ((
    o as u64) << 56));
    assert(((g & 0xFFFF) as u16) == a && (((g >> 16) & 0xFFFF) as u16) == s && (((g >> 32)
        & 0xFFFF) as u16) == e && (((g >> 48) & 0xFF) as u8) == p && (((g >> 56) & 0xFF) as u8)
        == o) by (bit_vector)
        requires
            g == (a as u64) | ((s as u64) << 16) | ((e as u64) << 32) | ((p as u64) << 48) | ((
            o as u64) << 56),
    ;
}

/// Encoding the capability that a grain decodes to gives the grain back.
pub proof fn lemma_cap_encode_decode(g: UGran)
    ensures
        cap_encode(cap_decode(g)) == g,
{
    assert((((g & 0xFFFF) as u16) as u64) | (((((g >> 16) & 0xFFFF) as u16) as u64) << 16) | (((((g
        >> 32) & 0xFFFF) as u16) as u64) << 32) | (((((g >> 48) & 0xFF) as u8) as u64) << 48) | (((((
    g >> 56) & 0xFF) as u8) as u64) << 56) == g) by (bit_vector);
}

/// A capability together with its validity tag.
#[derive(Clone, Copy, Debug, PartialEq, Eq, Structural)]
#[must_use]
pub struct TaggedCapability {
    pub capa: Capability,
    pub valid: bool,
}

impl TaggedCapability {
    /// The capability with a new address: valid where `self` was valid and
    /// unsealed.
    pub open spec fn set_addr_spec(self, new: Address) -> TaggedCapability {
        TaggedCapability {
            capa: self.capa.set_addr_spec(new),
            valid: self.valid && self.capa.otype.is_unsealed_spec(),
        }
    }

    /// Whether `self` may be narrowed to the bounds `start..endb`.
    pub open spec fn bounds_allowed(self, start: Address, endb: Address) -> bool {
        &&& self.capa.otype.is_unsealed_spec()
        &&& start.0 >= self.capa.start.0
        &&& endb.0 <= self.capa.endb.0
        &&& start.0 <= endb.0
    }

    /// The capability with new bounds: valid where `self` was valid and
    /// the new bounds are allowed.
    pub open spec fn set_bounds_spec(self, start: Address, endb: Address) -> TaggedCapability {
        TaggedCapability {
            capa: Capability { start, endb, ..self.capa },
            valid: self.valid && self.bounds_allowed(start, endb),
        }
    }

    /// Whether `self` may be restricted to the permissions `perms`.
    pub open spec fn perms_allowed(self, perms: Permissions) -> bool {
        &&& self.capa.otype.is_unsealed_spec()
        &&& self.capa.perms.contains_spec(perms)
    }

    /// The capability with new permissions: valid where `self` was valid
    /// and the new permissions are allowed.
    pub open spec fn set_perms_spec(self, perms: Permissions) -> TaggedCapability {
        TaggedCapability {
            capa: Capability { perms, ..self.capa },
            valid: self.valid && self.perms_allowed(perms),
        }
    }

    /// The capability with the address and bounds of `self` and the
    /// permissions `perms`, derived anew from `root`.
    pub open spec fn set_perms_from_spec(self, perms: Permissions, root: TaggedCapability)
        -> TaggedCapability {
        root.set_addr_spec(self.capa.addr).set_bounds_spec(
            self.capa.start,
            self.capa.endb,
        ).set_perms_spec(perms)
    }

    /// Whether `with` may seal or unseal, given the permission that the
    /// operation asks for.
    pub open spec fn is_key(with: TaggedCapability, perm: Permissions) -> bool {
        &&& with.valid
        &&& with.capa.otype.is_unsealed_spec()
        &&& with.capa.is_bounded_spec()
        &&& with.capa.perms.contains_spec(perm)
    }

    /// `self` sealed with `with`.
    pub open spec fn seal_spec(self, with: TaggedCapability) -> TaggedCapability {
        match OType::try_new_spec(with.capa.addr) {
            Some(otype) => TaggedCapability {
                capa: Capability { otype, ..self.capa },
                valid: self.valid && self.capa.otype.is_unsealed_spec() && Self::is_key(
                    with,
                    Permissions::seal(),
                ),
            },
            None => TaggedCapability { capa: self.capa, valid: false },
        }
    }

    /// `self` unsealed with `with`.
    pub open spec fn unseal_spec(self, with: TaggedCapability) -> TaggedCapability {
        TaggedCapability {
            capa: Capability { otype: OType::unsealed(), ..self.capa },
            valid: self.valid && !self.capa.otype.is_unsealed_spec() && Self::is_key(
                with,
                Permissions::unseal(),
            ) && self.capa.otype.get_addr_spec() == with.capa.addr,
        }
    }

    /// Whether `access` is permitted through `self`.
    pub open spec fn admits(self, access: MemAccess) -> bool {
        &&& self.valid
        &&& self.capa.otype.is_unsealed_spec()
        &&& access.is_bounded_spec()
        &&& access.perms_grant_spec()
        &&& access.is_aligned_spec()
    }

    /// The descriptor of an access through `self`.
    pub open spec fn access_spec(self, kind: MemAccessKind, align: Align, len: Option<UAddr>)
        -> MemAccess {
        MemAccess { tcap: self, len, align, kind }
    }

    /// An invalid capability over uninitialised fields.
    pub fn invalid() -> (t: TaggedCapability)
        ensures
            t == (TaggedCapability { capa: Capability::invalid_spec(), valid: false }),
    {
        TaggedCapability { capa: Capability::invalid(), valid: false }
    }

    /// Bundles a capability with a tag. Only the machine's boot may pass
    /// `true` for a capability that it did not derive.
    pub fn new(capability: Capability, valid: bool) -> (t: TaggedCapability)
        ensures
            t == (TaggedCapability { capa: capability, valid }),
    {
        TaggedCapability { capa: capability, valid }
    }

    /// The grain as data: decoded, and not valid.
    pub fn from_ugran(ugran: UGran) -> (t: TaggedCapability)
        ensures
            t == (TaggedCapability { capa: cap_decode(ugran), valid: false }),
    {
        Self::new(Capability::from_ugran(ugran), false)
    }

    /// The grain that encodes the capability; the tag is not part of it.
    pub fn to_ugran(self) -> (g: UGran)
        ensures
            g == cap_encode(self.capa),
    {
        self.capa.to_ugran()
    }

    pub fn capability(self) -> (c: Capability)
        ensures
            c == self.capa,
    {
        self.capa
    }

    pub fn is_valid(&self) -> (b: bool)
        ensures
            b == self.valid,
    {
        self.valid
    }

    pub fn addr(self) -> (a: Address)
        ensures
            a == self.capa.addr,
    {
        self.capa.addr
    }

    /// Moves the address. A sealed capability loses its validity; leaving
    /// the bounds does not, that is checked where memory is accessed.
    pub fn set_addr(self, new: Address) -> (t: TaggedCapability)
        ensures
            t == self.set_addr_spec(new),
    {
        TaggedCapability {
            capa: self.capa.set_addr(new),
            valid: self.valid && self.capa.otype.is_unsealed(),
        }
    }

    pub fn start(self) -> (a: Address)
        ensures
            a == self.capa.start,
    {
        self.capa.start
    }

    pub fn endb(self) -> (a: Address)
        ensures
            a == self.capa.endb,
    {
        self.capa.endb
    }

    /// Sets the bounds. The result is valid only where `self` is valid and
    /// unsealed and the new bounds are ordered and within the old ones.
    pub fn set_bounds(self, start: Address, endb: Address) -> (t: TaggedCapability)
        ensures
            t == self.set_bounds_spec(start, endb),
    {
        let allowed = self.capa.otype.is_unsealed() && start.0 >= self.capa.start.0 && endb.0
            <= self.capa.endb.0 && start.0 <= endb.0;
        TaggedCapability {
            capa: Capability {
                addr: self.capa.addr,
                start,
                endb,
                perms: self.capa.perms,
                otype: self.capa.otype,
            },
            valid: self.valid && allowed,
        }
    }

    pub fn perms(self) -> (p: Permissions)
        ensures
            p == self.capa.perms,
    {
        self.capa.perms
    }

    /// Sets the permissions. The result is valid only where `self` is
    /// valid and unsealed and holds every permission of `perms`.
    pub fn set_perms(self, perms: Permissions) -> (t: TaggedCapability)
        ensures
            t == self.set_perms_spec(perms),
    {
        let allowed = self.capa.otype.is_unsealed() && self.capa.perms.contains(perms);
        TaggedCapability {
            capa: Capability {
                addr: self.capa.addr,
                start: self.capa.start,
                endb: self.capa.endb,
                perms,
                otype: self.capa.otype,
            },
            valid: self.valid && allowed,
        }
    }

    /// Derives from `root` a capability with the address and bounds of
    /// `self` and the permissions `perms`.
    pub fn set_perms_from(self, perms: Permissions, root: TaggedCapability) -> (t: TaggedCapability)
        ensures
            t == self.set_perms_from_spec(perms, root),
    {
        let moved = root.set_addr(self.addr()).set_bounds(self.start(), self.endb());
        moved.set_perms(perms)
    }

    pub fn otype(self) -> (o: OType)
        ensures
            o == self.capa.otype,
    {
        self.capa.otype
    }

    /// Seals `self` with `with`: the object type becomes that of the
    /// sealer's address. The result is valid only where `self` is valid
    /// and unsealed and `with` is valid, unsealed, within its bounds,
    /// permitted to seal and at a sealing address.
    pub fn seal(self, with: TaggedCapability) -> (t: TaggedCapability)
        ensures
            t == self.seal_spec(with),
    {
        let valid = self.valid && self.capa.otype.is_unsealed() && with.valid
            && with.capa.otype.is_unsealed() && with.capa.is_bounded() && with.capa.perms.contains(
            Permissions::seal(),
        );
        match OType::try_new(with.capa.addr) {
            Some(otype) => TaggedCapability {
                capa: Capability {
                    addr: self.capa.addr,
                    start: self.capa.start,
                    endb: self.capa.endb,
                    perms: self.capa.perms,
                    otype,
                },
                valid,
            },
            None => TaggedCapability { capa: self.capa, valid: false },
        }
    }

    /// Unseals `self` with `with`. The result is valid only where `self`
    /// is valid and sealed with the address of `with`, and `with` is
    /// valid, unsealed, within its bounds and permitted to unseal.
    pub fn unseal(self, with: TaggedCapability) -> (t: TaggedCapability)
        ensures
            t == self.unseal_spec(with),
    {
        let valid = self.valid && self.capa.otype.is_sealed() && with.valid
            && with.capa.otype.is_unsealed() && with.capa.is_bounded() && with.capa.perms.contains(
            Permissions::unseal(),
        ) && self.capa.otype.get_addr().0 == with.capa.addr.0;
        TaggedCapability {
            capa: Capability {
                addr: self.capa.addr,
                start: self.capa.start,
                endb: self.capa.endb,
                perms: self.capa.perms,
                otype: OType::unsealed(),
            },
            valid,
        }
    }

    pub fn span_len(&self) -> (n: UAddr)
        ensures
            n == self.capa.span_len_spec(),
    {
        self.capa.span_len()
    }

    pub fn is_bounded(&self) -> (b: bool)
        ensures
            b == self.capa.is_bounded_spec(),
    {
        self.capa.is_bounded()
    }

    pub fn is_bounded_with_len(&self, len: UAddr) -> (b: bool)
        ensures
            b == self.capa.is_bounded_with_len_spec(len),
    {
        self.capa.is_bounded_with_len(len)
    }

    /// Describes an access through `self`.
    pub fn access(self, kind: MemAccessKind, align: Align, len: Option<UAddr>) -> (a: MemAccess)
        ensures
            a == self.access_spec(kind, align, len),
    {
        MemAccess { tcap: self, len, align, kind }
    }

    /// Checks an access: `self` must be valid and unsealed, and the access
    /// bounded, permitted and aligned.
    pub fn check_given_access(&self, access: MemAccess) -> (r: Result<(), Exception>)
        ensures
            r == if self.admits(access) {
                Ok::<(), Exception>(())
            } else {
                Err::<(), Exception>(Exception::InvalidMemAccess { access })
            },
    {
        if self.valid && self.capa.otype.is_unsealed() && access.is_bounded()
            && access.perms_grant() && access.is_aligned() {
            Ok(())
        } else {
            Err(Exception::InvalidMemAccess { access })
        }
    }

    /// Checks an access of the given kind, alignment and length through
    /// `self`.
    pub fn check_access(&self, kind: MemAccessKind, align: Align, len: Option<UAddr>) -> (r: Result<
        (),
        Exception,
    >)
        ensures
            r == if self.admits(self.access_spec(kind, align, len)) {
                Ok::<(), Exception>(())
            } else {
                Err::<(), Exception>(
                    Exception::InvalidMemAccess { access: self.access_spec(kind, align, len) },
                )
            },
    {
        self.check_given_access(self.access(kind, align, len))
    }
}

} // verus!

//! The allocator family: allocators that live in the region they own and
//! are known to their users by a sealed handle.

use vstd::prelude::*;
use crate::abi::core_impls::{cleared, clear_tags, int_layout, int_layout_spec};
use crate::abi::custom::CustomFields;
use crate::abi::structs::{read_field, write_field_bytes, write_field_tags, StructMut, StructRef};
use crate::abi::{
    end_offset_spec, field_offset_spec, layout, lemma_align_value_injective, max_align_spec,
    tags_of, Align, Layout, Ty,
};
use crate::access::MemAccessKind;
use crate::allocator::bump::BumpAlloc;
use crate::bits::TagBits;
use crate::capability::{Address, Capability, OType, Permissions, TaggedCapability};
use crate::endian::{
    le_bytes, le_value, lemma_le_bytes_len, lemma_le_value_bound, lemma_pow256_values, read_le,
    splice, write_le,
};
use crate::exception::Exception;
use crate::ints::{UAddr, UNINIT_BYTE};
use crate::mem::{MachineState, Memory};
use crate::revoke::{by_bounds, revoke_spec};

pub mod bump;

verus! {

/// How an allocator hands out memory.
#[derive(Clone, Copy, Debug, PartialEq, Eq, Structural)]
pub enum Strategy {
    Bump,
}

impl Strategy {
    /// The strategy that a byte names.
    pub open spec fn from_byte_spec(byte: u8) -> Result<Strategy, Exception> {
        if byte == 1 {
            Ok(Strategy::Bump)
        } else {
            Err(Exception::InvalidAllocStrategy { byte })
        }
    }

    /// The byte that names the strategy.
    pub open spec fn to_byte_spec(self) -> u8 {
        1
    }

    /// The byte that names the strategy.
    pub fn to_byte(self) -> (b: u8)
        ensures
            b == self.to_byte_spec(),
            Self::from_byte_spec(b) == Ok::<Strategy, Exception>(self),
    {
        match self {
            Strategy::Bump => 1,
        }
    }

    /// The strategy that a byte names.
    pub fn from_byte(byte: u8) -> (r: Result<Strategy, Exception>)
        ensures
            r == Self::from_byte_spec(byte),
    {
        if byte == 1 {
            Ok(Strategy::Bump)
        } else {
            Err(Exception::InvalidAllocStrategy { byte })
        }
    }
}

/// When an allocator fills memory with the uninitialised pattern.
#[derive(Clone, Copy, Debug, PartialEq, Eq, Structural)]
pub struct InitFlags {
    pub bits: u8,
}

impl InitFlags {
    /// Fill each allocation as it is handed out.
    pub open spec fn init_on_alloc_spec() -> InitFlags {
        InitFlags { bits: 0x01 }
    }

    /// Fill each allocation as it is handed out.
    #[verifier::when_used_as_spec(init_on_alloc_spec)]
    pub fn init_on_alloc() -> (f: InitFlags)
        ensures
            f == Self::init_on_alloc_spec(),
    {
        InitFlags { bits: 0x01 }
    }

    /// Fill the allocator's memory when it is freed.
    pub open spec fn init_on_free_spec() -> InitFlags {
        InitFlags { bits: 0x02 }
    }

    /// Fill the allocator's memory when it is freed.
    #[verifier::when_used_as_spec(init_on_free_spec)]
    pub fn init_on_free() -> (f: InitFlags)
        ensures
            f == Self::init_on_free_spec(),
    {
        InitFlags { bits: 0x02 }
    }

    /// Whether every flag of `other` is set in `self`.
    pub open spec fn contains_spec(self, other: InitFlags) -> bool {
        self.bits & other.bits == other.bits
    }

    /// No flag.
    pub fn empty() -> (f: InitFlags)
        ensures
            f.bits == 0,
    {
        InitFlags { bits: 0 }
    }

    /// Every flag.
    pub fn all() -> (f: InitFlags)
        ensures
            f.bits == 0x03,
    {
        InitFlags { bits: 0x03 }
    }

    /// The bits of the flags.
    pub fn bits(self) -> (b: u8)
        ensures
            b == self.bits,
    {
        self.bits
    }

    /// The known flags among the given bits.
    pub fn from_bits_truncate(bits: u8) -> (f: InitFlags)
        ensures
            f.bits == bits & 0x03,
    {
        InitFlags { bits: bits & 0x03 }
    }

    /// Whether every flag of `other` is set in `self`.
    pub fn contains(self, other: InitFlags) -> (b: bool)
        ensures
            b == self.contains_spec(other),
    {
        self.bits & other.bits == other.bits
    }

    /// The flags of either.
    pub fn union(self, other: InitFlags) -> (f: InitFlags)
        ensures
            f.bits == self.bits | other.bits,
    {
        InitFlags { bits: self.bits | other.bits }
    }
}

/// What an allocator reports of itself.
#[derive(Clone, Copy, Debug, PartialEq, Eq, Structural)]
pub struct Stats {
    pub strategy: Strategy,
    pub flags: InitFlags,
    pub bytes_free: UAddr,
}

/// Why an allocation failed.
#[derive(Clone, Copy, Debug, PartialEq, Eq, Structural)]
pub enum AllocErrKind {
    /// The requested layout cannot be allocated because there aren't
    /// enough bytes free.
    NotEnoughMem,
    /// The allocator reports 0 bytes free.
    Oom,
}

/// A failed allocation.
#[derive(Clone, Copy, Debug, PartialEq, Eq, Structural)]
pub struct AllocErr {
    pub stats: Stats,
    pub requested: Layout,
    pub kind: AllocErrKind,
}

/// What every allocator keeps at the start of its region.
#[derive(Clone, Copy, Debug, PartialEq, Eq, Structural)]
pub struct Header {
    pub strat: Strategy,
    pub flags: InitFlags,
}

impl Ty for Strategy {
    open spec fn layout_spec() -> Layout {
        int_layout_spec(1)
    }

    open spec fn read_spec(bytes: Seq<u8>, addr: Address, tags: Seq<bool>) -> Result<Self, Exception> {
        Self::from_byte_spec(le_value(bytes) as u8)
    }

    open spec fn write_bytes_spec(self, bytes: Seq<u8>, addr: Address) -> Seq<u8> {
        le_bytes(self.to_byte_spec() as nat, 1)
    }

    open spec fn write_tags_spec(self, addr: Address, tags: Seq<bool>) -> Seq<bool> {
        cleared(tags)
    }

    proof fn lemma_write_len(self, bytes: Seq<u8>, addr: Address, tags: Seq<bool>) {
        lemma_le_bytes_len(self.to_byte_spec() as nat, 1);
    }

    fn layout() -> (l: Layout) {
        int_layout(1)
    }

    fn read(src: &[u8], addr: Address, tags: &TagBits, tpos: usize) -> (r: Result<Self, Exception>) {
        proof {
            lemma_le_value_bound(src@);
            lemma_pow256_values();
        }
        Self::from_byte(read_le(src) as u8)
    }

    fn write(self, dst: &mut Vec<u8>, pos: usize, addr: Address, tags: &mut TagBits, tpos: usize) -> (r:
        Result<(), Exception>) {
        clear_tags(tags, tpos, addr, 1);
        write_le(self.to_byte() as u64, 1, dst, pos);
        Ok(())
    }
}

impl Ty for InitFlags {
    open spec fn layout_spec() -> Layout {
        int_layout_spec(1)
    }

    /// Bits that stand for no flag are dropped.
    open spec fn read_spec(bytes: Seq<u8>, addr: Address, tags: Seq<bool>) -> Result<Self, Exception> {
        Ok(InitFlags { bits: (le_value(bytes) as u8) & 0x03 })
    }

    open spec fn write_bytes_spec(self, bytes: Seq<u8>, addr: Address) -> Seq<u8> {
        le_bytes(self.bits as nat, 1)
    }

    open spec fn write_tags_spec(self, addr: Address, tags: Seq<bool>) -> Seq<bool> {
        cleared(tags)
    }

    proof fn lemma_write_len(self, bytes: Seq<u8>, addr: Address, tags: Seq<bool>) {
        lemma_le_bytes_len(self.bits as nat, 1);
    }

    fn layout() -> (l: Layout) {
        int_layout(1)
    }

    fn read(src: &[u8], addr: Address, tags: &TagBits, tpos: usize) -> (r: Result<Self, Exception>) {
        proof {
            lemma_le_value_bound(src@);
            lemma_pow256_values();
        }
        Ok(InitFlags::from_bits_truncate(read_le(src) as u8))
    }

    fn write(self, dst: &mut Vec<u8>, pos: usize, addr: Address, tags: &mut TagBits, tpos: usize) -> (r:
        Result<(), Exception>) {
        clear_tags(tags, tpos, addr, 1);
        write_le(self.bits as u64, 1, dst, pos);
        Ok(())
    }
}

/// The fields of an allocator's stats in memory.
pub open spec fn stats_fields_spec() -> Seq<Layout> {
    seq![int_layout_spec(1), int_layout_spec(1), int_layout_spec(2)]
}

/// The fields of an allocator's stats in memory.
pub fn stats_fields() -> (f: Vec<Layout>)
    ensures
        f@ == stats_fields_spec(),
{
    let mut f: Vec<Layout> = Vec::new();
    f.push(int_layout(1));
    f.push(int_layout(1));
    f.push(int_layout(2));
    proof {
        assert(f@ =~= stats_fields_spec());
    }
    f
}

/// Where the fields of an allocator's stats lie.
pub proof fn lemma_stats_fields()
    ensures
        field_offset_spec(stats_fields_spec(), 0) == 0,
        field_offset_spec(stats_fields_spec(), 1) == 1,
        field_offset_spec(stats_fields_spec(), 2) == 2,
        end_offset_spec(stats_fields_spec(), 3) == 4,
        max_align_spec(stats_fields_spec(), 3) == 1,
{
    reveal_with_fuel(field_offset_spec, 4);
    reveal_with_fuel(end_offset_spec, 4);
    reveal_with_fuel(max_align_spec, 4);
    vstd::arithmetic::power2::lemma2_to64();
}

impl Ty for Stats {
    open spec fn layout_spec() -> Layout {
        int_layout_spec(4)
    }

    open spec fn read_spec(bytes: Seq<u8>, addr: Address, tags: Seq<bool>) -> Result<Self, Exception> {
        match read_field::<Strategy>(bytes, addr, tags, 0) {
            Ok(strategy) => Ok(
                Stats {
                    strategy,
                    flags: read_field::<InitFlags>(bytes, addr, tags, 1)->Ok_0,
                    bytes_free: read_field::<UAddr>(bytes, addr, tags, 2)->Ok_0,
                },
            ),
            Err(e) => Err(e),
        }
    }

    open spec fn write_bytes_spec(self, bytes: Seq<u8>, addr: Address) -> Seq<u8> {
        write_field_bytes(
            self.bytes_free,
            write_field_bytes(
                self.flags,
                write_field_bytes(self.strategy, bytes, addr, 0),
                addr,
                1,
            ),
            addr,
            2,
        )
    }

    open spec fn write_tags_spec(self, addr: Address, tags: Seq<bool>) -> Seq<bool> {
        write_field_tags(
            self.bytes_free,
            addr,
            write_field_tags(self.flags, addr, write_field_tags(self.strategy, addr, tags, 0), 1),
            2,
        )
    }

    proof fn lemma_write_len(self, bytes: Seq<u8>, addr: Address, tags: Seq<bool>) {
    }

    fn layout() -> (l: Layout) {
        let fields = stats_fields();
        proof {
            lemma_stats_fields();
        }
        let l = layout(fields.as_slice());
        proof {
            vstd::arithmetic::power2::lemma2_to64();
            lemma_align_value_injective(l.align, Align::min_spec());
        }
        l
    }

    fn read(src: &[u8], addr: Address, tags: &TagBits, tpos: usize) -> (r: Result<Self, Exception>) {
        let fields = stats_fields();
        proof {
            lemma_stats_fields();
        }
        let mut walker = StructRef::new(src, addr, tags, tpos, fields.as_slice());
        let strategy = match walker.read_next::<Strategy>() {
            Ok(v) => v,
            Err(e) => {
                return Err(e);
            },
        };
        let flags = match walker.read_next::<InitFlags>() {
            Ok(v) => v,
            Err(e) => {
                return Err(e);
            },
        };
        let bytes_free = match walker.read_next::<UAddr>() {
            Ok(v) => v,
            Err(e) => {
                return Err(e);
            },
        };
        Ok(Stats { strategy, flags, bytes_free })
    }

    fn write(self, dst: &mut Vec<u8>, pos: usize, addr: Address, tags: &mut TagBits, tpos: usize) -> (r:
        Result<(), Exception>) {
        let fields = stats_fields();
        proof {
            lemma_stats_fields();
        }
        let mut walker = StructMut::new(pos, addr, tpos, fields.as_slice());
        let ghost bytes0 = dst@.subrange(pos as int, pos + 4);
        let ghost tags0 = tags_of(tags@, tpos as int, addr, 4);
        let ghost b1 = write_field_bytes(self.strategy, bytes0, addr, 0);
        let ghost t1 = write_field_tags(self.strategy, addr, tags0, 0);
        let ghost b2 = write_field_bytes(self.flags, b1, addr, 1);
        let ghost t2 = write_field_tags(self.flags, addr, t1, 1);
        let _ = walker.write_next(self.strategy, dst, tags);
        proof {
            assert(dst@.subrange(pos as int, pos + 4) =~= b1);
            assert(tags_of(tags@, tpos as int, addr, 4) =~= t1);
            assert(dst@ =~= splice(old(dst)@, pos as int, b1));
            assert(tags@ =~= splice(old(tags)@, tpos as int, t1));
        }
        let _ = walker.write_next(self.flags, dst, tags);
        proof {
            assert(dst@.subrange(pos as int, pos + 4) =~= b2);
            assert(tags_of(tags@, tpos as int, addr, 4) =~= t2);
            assert(dst@ =~= splice(old(dst)@, pos as int, b2));
            assert(tags@ =~= splice(old(tags)@, tpos as int, t2));
        }
        let _ = walker.write_next(self.bytes_free, dst, tags);
        proof {
            assert(dst@ =~= splice(
                old(dst)@,
                pos as int,
                write_field_bytes(self.bytes_free, b2, addr, 2),
            ));
            assert(tags@ =~= splice(
                old(tags)@,
                tpos as int,
                write_field_tags(self.bytes_free, addr, t2, 2),
            ));
        }
        Ok(())
    }
}

/// The fields of an allocator's header in memory.
pub open spec fn header_fields_spec() -> Seq<Layout> {
    seq![int_layout_spec(1), int_layout_spec(1)]
}

/// The fields of an allocator's header in memory.
pub fn header_fields() -> (f: Vec<Layout>)
    ensures
        f@ == header_fields_spec(),
{
    let mut f: Vec<Layout> = Vec::new();
    f.push(int_layout(1));
    f.push(int_layout(1));
    proof {
        assert(f@ =~= header_fields_spec());
    }
    f
}

/// Where the fields of an allocator's header lie.
pub proof fn lemma_header_fields()
    ensures
        field_offset_spec(header_fields_spec(), 0) == 0,
        field_offset_spec(header_fields_spec(), 1) == 1,
        end_offset_spec(header_fields_spec(), 2) == 2,
        max_align_spec(header_fields_spec(), 2) == 1,
{
    reveal_with_fuel(field_offset_spec, 3);
    reveal_with_fuel(end_offset_spec, 3);
    reveal_with_fuel(max_align_spec, 3);
    vstd::arithmetic::power2::lemma2_to64();
}

impl Ty for Header {
    open spec fn layout_spec() -> Layout {
        int_layout_spec(2)
    }

    open spec fn read_spec(bytes: Seq<u8>, addr: Address, tags: Seq<bool>) -> Result<Self, Exception> {
        match read_field::<Strategy>(bytes, addr, tags, 0) {
            Ok(strat) => Ok(
                Header { strat, flags: read_field::<InitFlags>(bytes, addr, tags, 1)->Ok_0 },
            ),
            Err(e) => Err(e),
        }
    }

    open spec fn write_bytes_spec(self, bytes: Seq<u8>, addr: Address) -> Seq<u8> {
        write_field_bytes(self.flags, write_field_bytes(self.strat, bytes, addr, 0), addr, 1)
    }

    open spec fn write_tags_spec(self, addr: Address, tags: Seq<bool>) -> Seq<bool> {
        write_field_tags(self.flags, addr, write_field_tags(self.strat, addr, tags, 0), 1)
    }

    proof fn lemma_write_len(self, bytes: Seq<u8>, addr: Address, tags: Seq<bool>) {
    }

    fn layout() -> (l: Layout) {
        let fields = header_fields();
        proof {
            lemma_header_fields();
        }
        let l = layout(fields.as_slice());
        proof {
            vstd::arithmetic::power2::lemma2_to64();
            lemma_align_value_injective(l.align, Align::min_spec());
        }
        l
    }

    fn read(src: &[u8], addr: Address, tags: &TagBits, tpos: usize) -> (r: Result<Self, Exception>) {
        let fields = header_fields();
        proof {
            lemma_header_fields();
        }
        let mut walker = StructRef::new(src, addr, tags, tpos, fields.as_slice());
        let strat = match walker.read_next::<Strategy>() {
            Ok(v) => v,
            Err(e) => {
                return Err(e);
            },
        };
        let flags = match walker.read_next::<InitFlags>() {
            Ok(v) => v,
            Err(e) => {
                return Err(e);
            },
        };
        Ok(Header { strat, flags })
    }

    fn write(self, dst: &mut Vec<u8>, pos: usize, addr: Address, tags: &mut TagBits, tpos: usize) -> (r:
        Result<(), Exception>) {
        let fields = header_fields();
        proof {
            lemma_header_fields();
        }
        let mut walker = StructMut::new(pos, addr, tpos, fields.as_slice());
        let ghost bytes0 = dst@.subrange(pos as int, pos + 2);
        let ghost tags0 = tags_of(tags@, tpos as int, addr, 2);
        let ghost b1 = write_field_bytes(self.strat, bytes0, addr, 0);
        let ghost t1 = write_field_tags(self.strat, addr, tags0, 0);
        let _ = walker.write_next(self.strat, dst, tags);
        proof {
            assert(dst@.subrange(pos as int, pos + 2) =~= b1);
            assert(tags_of(tags@, tpos as int, addr, 2) =~= t1);
            assert(dst@ =~= splice(old(dst)@, pos as int, b1));
            assert(tags@ =~= splice(old(tags)@, tpos as int, t1));
        }
        let _ = walker.write_next(self.flags, dst, tags);
        proof {
            assert(dst@ =~= splice(old(dst)@, pos as int, write_field_bytes(self.flags, b1, addr, 1)));
            assert(tags@ =~= splice(
                old(tags)@,
                tpos as int,
                write_field_tags(self.flags, addr, t1, 1),
            ));
        }
        Ok(())
    }
}

/// The key that seals or unseals the handle of the allocator over `cap`:
/// the capability itself, unsealed and with the permission added.
pub open spec fn magic_key(cap: TaggedCapability, perm: Permissions) -> TaggedCapability {
    TaggedCapability {
        capa: Capability {
            perms: cap.capa.perms.union_spec(perm),
            otype: OType::unsealed(),
            ..cap.capa
        },
        valid: cap.valid,
    }
}

/// The handle of the allocator over `cap`: `cap` sealed with its own key.
pub open spec fn magic_seal_spec(cap: TaggedCapability) -> TaggedCapability {
    cap.seal_spec(magic_key(cap, Permissions::seal()))
}

/// The region behind the handle `cap`: `cap` unsealed with its own key.
pub open spec fn magic_unseal_spec(cap: TaggedCapability) -> TaggedCapability {
    cap.unseal_spec(magic_key(cap, Permissions::unseal()))
}

fn magic_key_of(cap: TaggedCapability, perm: Permissions) -> (key: TaggedCapability)
    ensures
        key == magic_key(cap, perm),
{
    TaggedCapability::new(
        Capability::new(
            cap.addr(),
            cap.start(),
            cap.endb(),
            cap.perms().union(perm),
            OType::unsealed(),
        ),
        cap.is_valid(),
    )
}

/// Seals a region into the handle of its allocator. The key is the region
/// itself with the permission to seal; no one else holds it, because every
/// capability into the region was revoked before.
pub fn magic_seal(cap: TaggedCapability) -> (handle: TaggedCapability)
    ensures
        handle == magic_seal_spec(cap),
{
    cap.seal(magic_key_of(cap, Permissions::seal()))
}

/// Unseals the handle of an allocator into its region.
pub fn magic_unseal(cap: TaggedCapability) -> (region: TaggedCapability)
    ensures
        region == magic_unseal_spec(cap),
{
    cap.unseal(magic_key_of(cap, Permissions::unseal()))
}

/// The capability for the header of the allocator over `region`.
pub open spec fn header_cap(region: TaggedCapability) -> TaggedCapability {
    (CustomFields { base: region, cur_offset: 0 }).peek_spec::<Header>()
}

/// The capability for the state of the bump allocator over `region`.
pub open spec fn state_cap(region: TaggedCapability) -> TaggedCapability {
    (CustomFields { base: region, cur_offset: 2 }).peek_spec::<BumpAlloc>()
}

/// The access that `init` checks: a write of the whole region, which must
/// start at a sealing address.
pub open spec fn init_access(region: TaggedCapability) -> crate::access::MemAccess {
    region.set_addr_spec(region.capa.start).access_spec(
        MemAccessKind::Write,
        Align::from_exp_spec(8),
        Some(region.capa.span_len_spec()),
    )
}

/// The machine and the result after `init`.
pub open spec fn init_spec(
    st: MachineState,
    strat: Strategy,
    flags: InitFlags,
    region: TaggedCapability,
) -> (MachineState, Result<TaggedCapability, Exception>) {
    let region = region.set_addr_spec(region.capa.start);
    if !region.admits(init_access(region)) {
        (st, Err(Exception::InvalidMemAccess { access: init_access(region) }))
    } else {
        let st1 = revoke_spec(st, region.capa.start, region.capa.endb);
        let header = Header { strat, flags };
        let st2 = st1.write_spec(header_cap(region), header);
        match st1.write_result::<Header>(header_cap(region)) {
            Err(e) => (st2, Err(e)),
            Ok(_) => {
                let state = BumpAlloc::new_spec(
                    region.set_bounds_spec(state_cap(region).capa.endb, region.capa.endb),
                );
                let st3 = st2.write_spec(state_cap(region), state);
                match st2.write_result::<BumpAlloc>(state_cap(region)) {
                    Err(e) => (st3, Err(e)),
                    Ok(_) => (st3, Ok(magic_seal_spec(region))),
                }
            },
        }
    }
}

/// Initialize an allocator.
///
/// Pass ownership of `region` to a new allocator with the specified
/// configuration. Every capability that reaches the region is revoked, the
/// header and the strategy's state are written at its start, and the
/// sealed handle is returned.
pub fn init(strat: Strategy, flags: InitFlags, region: TaggedCapability, mem: &mut Memory) -> (r:
    Result<TaggedCapability, Exception>)
    requires
        old(mem).wf(),
    ensures
        final(mem).wf(),
        final(mem).root == old(mem).root,
        (final(mem)@, r) == init_spec(old(mem)@, strat, flags, region),
{
    let region = region.set_addr(region.start());
    match region.check_access(
        MemAccessKind::Write,
        OType::valid_align(),
        Some(region.span_len()),
    ) {
        Ok(()) => {},
        Err(e) => {
            return Err(e);
        },
    }
    let _ = by_bounds(mem, region.start(), region.endb());
    let mut fields = CustomFields::new(region);
    let header = Header { strat, flags };
    proof {
        lemma_field_places(region);
    }
    match fields.write_next(header, mem) {
        Ok(()) => {},
        Err(e) => {
            return Err(e);
        },
    }
    match strat {
        Strategy::Bump => {
            let ator_cap = fields.peek::<BumpAlloc>();
            let ator = BumpAlloc::new(region.set_bounds(ator_cap.endb(), region.endb()));
            match fields.write_next(ator, mem) {
                Ok(()) => {},
                Err(e) => {
                    return Err(e);
                },
            }
        },
    }
    Ok(magic_seal(region))
}

/// Where the header and the state of an allocator lie in its region: the
/// header at the start, the state at the next grain.
pub proof fn lemma_field_places(base: TaggedCapability)
    ensures
        Header::layout_spec().size == 2,
        Header::layout_spec().align.value() == 1,
        BumpAlloc::layout_spec().size == 8,
        BumpAlloc::layout_spec().align.value() == 8,
        (CustomFields { base, cur_offset: 0 }).fits::<Header>(),
        (CustomFields { base, cur_offset: 0 }).field_offset::<Header>() == 0,
        (CustomFields { base, cur_offset: 0 }).advance_spec::<Header>() == (CustomFields {
            base,
            cur_offset: 2,
        }),
        (CustomFields { base, cur_offset: 2 }).fits::<BumpAlloc>(),
        (CustomFields { base, cur_offset: 2 }).field_offset::<BumpAlloc>() == 8,
{
    vstd::arithmetic::power2::lemma2_to64();
}

/// The region, header and state that an operation on the handle `ator`
/// starts from, or why it cannot start.
pub open spec fn open_spec(st: MachineState, ator: TaggedCapability) -> Result<
    (TaggedCapability, Header, BumpAlloc),
    Exception,
> {
    let region = magic_unseal_spec(ator);
    match st.read_spec::<Header>(header_cap(region)) {
        Err(e) => Err(e),
        Ok(header) => match st.read_spec::<BumpAlloc>(state_cap(region)) {
            Err(e) => Err(e),
            Ok(state) => Ok((region, header, state)),
        },
    }
}

/// The machine after `count` bytes have been filled through `dst`, where
/// `fill` asks for it; the machine as it is where not.
pub open spec fn fill_spec(st: MachineState, fill: bool, dst: TaggedCapability) -> MachineState {
    if fill {
        st.memset_spec(dst, dst.capa.span_len_spec(), UNINIT_BYTE)
    } else {
        st
    }
}

/// Why the fill that `fill_spec` describes fails, if it does.
pub open spec fn fill_failure(st: MachineState, fill: bool, dst: TaggedCapability) -> Option<
    Exception,
> {
    if fill && !st.memset_allowed(dst, dst.capa.span_len_spec()) {
        Some(
            Exception::InvalidMemAccess {
                access: MachineState::memset_access(dst, dst.capa.span_len_spec()),
            },
        )
    } else {
        None
    }
}

fn fill_region(mem: &mut Memory, fill: bool, dst: TaggedCapability) -> (r: Result<(), Exception>)
    requires
        old(mem).wf(),
    ensures
        final(mem).wf(),
        final(mem).root == old(mem).root,
        final(mem)@ == fill_spec(old(mem)@, fill, dst),
        r == match fill_failure(old(mem)@, fill, dst) {
            Some(e) => Err::<(), Exception>(e),
            None => Ok::<(), Exception>(()),
        },
{
    if fill {
        mem.memset(dst, dst.span_len(), UNINIT_BYTE)
    } else {
        Ok(())
    }
}

fn open(mem: &Memory, ator: TaggedCapability) -> (r: Result<
    (TaggedCapability, Header, BumpAlloc),
    Exception,
>)
    requires
        mem.wf(),
    ensures
        r == open_spec(mem@, ator),
{
    let region = magic_unseal(ator);
    let mut fields = CustomFields::new(region);
    proof {
        lemma_field_places(region);
    }
    let header: Header = match fields.read_next::<Header>(mem) {
        Ok(h) => h,
        Err(e) => {
            return Err(e);
        },
    };
    match header.strat {
        Strategy::Bump => {
            match fields.read_next::<BumpAlloc>(mem) {
                Ok(state) => Ok((region, header, state)),
                Err(e) => Err(e),
            }
        },
    }
}

fn state_cap_of(region: TaggedCapability) -> (cap: TaggedCapability)
    ensures
        cap == state_cap(region),
{
    proof {
        lemma_field_places(region);
    }
    let fields = CustomFields { base: region, cur_offset: 2 };
    fields.peek::<BumpAlloc>()
}

/// The machine and the result after `deinit`.
pub open spec fn deinit_spec(st: MachineState, ator: TaggedCapability) -> (
    MachineState,
    Result<TaggedCapability, Exception>,
) {
    match open_spec(st, ator) {
        Err(e) => (st, Err(e)),
        Ok((region, header, state)) => {
            let st1 = st.write_spec(state_cap(region), state.free_all_spec());
            match st.write_result::<BumpAlloc>(state_cap(region)) {
                Err(e) => (st1, Err(e)),
                Ok(_) => {
                    let fill = header.flags.contains_spec(InitFlags::init_on_free());
                    let st2 = fill_spec(st1, fill, region);
                    match fill_failure(st1, fill, region) {
                        Some(e) => (st2, Err(e)),
                        None => (revoke_spec(st2, region.capa.start, region.capa.endb), Ok(region)),
                    }
                },
            }
        },
    }
}

/// De-initializes an allocator.
///
/// This frees all memory allocated by the allocator, fills the region
/// where the allocator was made to fill on free, revokes every capability
/// that reaches the region, and returns the region, unsealed.
pub fn deinit(ator: TaggedCapability, mem: &mut Memory) -> (r: Result<TaggedCapability, Exception>)
    requires
        old(mem).wf(),
    ensures
        final(mem).wf(),
        final(mem).root == old(mem).root,
        (final(mem)@, r) == deinit_spec(old(mem)@, ator),
{
    let (region, header, mut state) = match open(mem, ator) {
        Ok(t) => t,
        Err(e) => {
            return Err(e);
        },
    };
    state.free_all();
    match mem.write(state_cap_of(region), state) {
        Ok(()) => {},
        Err(e) => {
            return Err(e);
        },
    }
    match fill_region(mem, header.flags.contains(InitFlags::init_on_free()), region) {
        Ok(()) => {},
        Err(e) => {
            return Err(e);
        },
    }
    let _ = by_bounds(mem, region.start(), region.endb());
    Ok(region)
}

/// The machine and the result after `allocate`.
pub open spec fn alloc_spec(st: MachineState, ator: TaggedCapability, layout: Layout) -> (
    MachineState,
    Result<TaggedCapability, Exception>,
) {
    match open_spec(st, ator) {
        Err(e) => (st, Err(e)),
        Ok((region, header, state)) => match state.alloc_failure(layout) {
            Some(kind) => (
                st,
                Err(
                    Exception::AllocErr {
                        err: AllocErr { stats: state.stat_spec(header), requested: layout, kind },
                    },
                ),
            ),
            None => {
                let ation = state.allocation(layout);
                let st1 = st.write_spec(state_cap(region), state.after_alloc(layout));
                match st.write_result::<BumpAlloc>(state_cap(region)) {
                    Err(e) => (st1, Err(e)),
                    Ok(_) => {
                        let fill = header.flags.contains_spec(InitFlags::init_on_alloc());
                        match fill_failure(st1, fill, ation) {
                            Some(e) => (fill_spec(st1, fill, ation), Err(e)),
                            None => (fill_spec(st1, fill, ation), Ok(ation)),
                        }
                    },
                }
            },
        },
    }
}

/// Requests memory of the given layout from the allocator behind the
/// handle `ator`. The allocation is filled where the allocator was made to
/// fill on alloc.
pub fn allocate(ator: TaggedCapability, layout: Layout, mem: &mut Memory) -> (r: Result<
    TaggedCapability,
    Exception,
>)
    requires
        old(mem).wf(),
    ensures
        final(mem).wf(),
        final(mem).root == old(mem).root,
        (final(mem)@, r) == alloc_spec(old(mem)@, ator, layout),
{
    let (region, header, mut state) = match open(mem, ator) {
        Ok(t) => t,
        Err(e) => {
            return Err(e);
        },
    };
    let ation = match state.allocate(header, layout) {
        Ok(a) => a,
        Err(err) => {
            return Err(Exception::AllocErr { err });
        },
    };
    match mem.write(state_cap_of(region), state) {
        Ok(()) => {},
        Err(e) => {
            return Err(e);
        },
    }
    match fill_region(mem, header.flags.contains(InitFlags::init_on_alloc()), ation) {
        Ok(()) => {},
        Err(e) => {
            return Err(e);
        },
    }
    Ok(ation)
}

/// Frees one allocation of the allocator behind the handle `ator`. A bump
/// allocator frees nothing before everything is freed: the machine does
/// not change. The handle must open.
pub fn free(ator: TaggedCapability, ation: TaggedCapability, mem: &mut Memory) -> (r: Result<
    (),
    Exception,
>)
    requires
        old(mem).wf(),
    ensures
        final(mem).wf(),
        final(mem).root == old(mem).root,
        final(mem)@ == old(mem)@,
        r == match open_spec(old(mem)@, ator) {
            Ok(_) => Ok::<(), Exception>(()),
            Err(e) => Err::<(), Exception>(e),
        },
{
    match open(mem, ator) {
        Ok(_) => Ok(()),
        Err(e) => Err(e),
    }
}

/// The machine and the result after `free_all`.
pub open spec fn free_all_spec(st: MachineState, ator: TaggedCapability) -> (
    MachineState,
    Result<(), Exception>,
) {
    match open_spec(st, ator) {
        Err(e) => (st, Err(e)),
        Ok((region, header, state)) => {
            let freed = state.free_all_spec();
            let st1 = revoke_spec(st, freed.inner.capa.start, freed.inner.capa.endb);
            let fill = header.flags.contains_spec(InitFlags::init_on_free());
            let st2 = fill_spec(st1, fill, freed.inner);
            match fill_failure(st1, fill, freed.inner) {
                Some(e) => (st2, Err(e)),
                None => (
                    st2.write_spec(state_cap(region), freed),
                    st2.write_result::<BumpAlloc>(state_cap(region)),
                ),
            }
        },
    }
}

/// Frees all allocations of the allocator behind the handle `ator`: every
/// capability that reaches the memory it hands out is revoked, the memory
/// is filled where the allocator was made to fill on free, and the
/// allocator starts over.
pub fn free_all(ator: TaggedCapability, mem: &mut Memory) -> (r: Result<(), Exception>)
    requires
        old(mem).wf(),
    ensures
        final(mem).wf(),
        final(mem).root == old(mem).root,
        (final(mem)@, r) == free_all_spec(old(mem)@, ator),
{
    let (region, header, mut state) = match open(mem, ator) {
        Ok(t) => t,
        Err(e) => {
            return Err(e);
        },
    };
    state.free_all();
    let _ = by_bounds(mem, state.inner.start(), state.inner.endb());
    match fill_region(mem, header.flags.contains(InitFlags::init_on_free()), state.inner) {
        Ok(()) => {},
        Err(e) => {
            return Err(e);
        },
    }
    mem.write(state_cap_of(region), state)
}

/// What the allocator behind the handle `ator` reports of itself.
pub open spec fn stat_spec(st: MachineState, ator: TaggedCapability) -> Result<Stats, Exception> {
    match open_spec(st, ator) {
        Err(e) => Err(e),
        Ok((region, header, state)) => Ok(state.stat_spec(header)),
    }
}

/// The strategy, the flags and the free bytes of the allocator behind the
/// handle `ator`.
pub fn stat(ator: TaggedCapability, mem: &Memory) -> (r: Result<Stats, Exception>)
    requires
        mem.wf(),
    ensures
        r == stat_spec(mem@, ator),
{
    match open(mem, ator) {
        Ok((region, header, state)) => Ok(state.stat(header)),
        Err(e) => Err(e),
    }
}

} // verus!

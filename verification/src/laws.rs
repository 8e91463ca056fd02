//! What holds of the machine whatever its state: the laws of the
//! capability algebra, of tagged writes, of the zero register and of the
//! program counter.

use vstd::prelude::*;
use crate::abi::core_impls::cleared;
use crate::abi::{gran_span_spec, Ty};
use crate::abi::structs::{field_tag, read_field, write_field_bytes, write_field_tags};
use crate::access::MemAccessKind;
use crate::capability::{
    cap_encode, lemma_cap_decode_encode, Capability,
};
use crate::endian::{le_bytes, lemma_le_bytes_len, lemma_le_round_trip, lemma_pow256_values};
use crate::allocator::bump::{lemma_bump_allocations_disjoint, BumpAlloc};
use crate::allocator::{
    alloc_spec, deinit_spec, fill_spec, header_cap, init_access, init_spec, lemma_field_places,
    magic_seal_spec, magic_unseal_spec, open_spec, state_cap, Header, InitFlags, Strategy,
};
use crate::abi::Layout;
use crate::capability::{cap_decode, Address, OType, Permissions, TaggedCapability};
use crate::exception::Exception;
use crate::mem::{
    blank_spec, boot_spec, gran_tag, program_layout, program_perms, root_flags, root_spec,
    stack_layout, BootErr, MachineState,
};
use crate::op::{Op, OpKind};
use crate::process::{dispatch_spec, execute_op_spec, next_pc, reg_of};
use crate::revoke::{reaches, revoke_spec, tagged_word};

verus! {

/// Restricting the permissions of a valid capability keeps it valid
/// exactly where it is unsealed and the new permissions are among the old.
pub proof fn lemma_permission_monotonicity(c: TaggedCapability, p: Permissions)
    requires
        c.valid,
    ensures
        c.set_perms_spec(p).valid <==> (c.capa.perms.contains_spec(p)
            && c.capa.otype.is_unsealed_spec()),
        c.set_perms_spec(p).capa.perms == p,
{
}

/// One set of permissions contains another exactly where no permission of
/// the other is missing from it.
pub proof fn lemma_contains_is_subset(held: Permissions, wanted: Permissions)
    ensures
        held.contains_spec(wanted) <==> wanted.bits & !held.bits == 0,
{
    let h = held.bits;
    let w = wanted.bits;
    assert((h & w == w) <==> (w & !h == 0)) by (bit_vector);
}

/// Setting the bounds of a valid capability keeps it valid exactly where
/// it is unsealed and the new bounds are ordered and within the old.
pub proof fn lemma_bound_monotonicity(c: TaggedCapability, s: Address, e: Address)
    requires
        c.valid,
    ensures
        c.set_bounds_spec(s, e).valid <==> (s.0 >= c.capa.start.0 && e.0 <= c.capa.endb.0 && s.0
            <= e.0 && c.capa.otype.is_unsealed_spec()),
        c.set_bounds_spec(s, e).capa.start == s,
        c.set_bounds_spec(s, e).capa.endb == e,
{
}

/// No operation of the capability algebra makes an invalid capability
/// valid.
pub proof fn lemma_validity_only_falls(
    c: TaggedCapability,
    a: Address,
    s: Address,
    e: Address,
    p: Permissions,
    k: TaggedCapability,
)
    requires
        !c.valid,
    ensures
        !c.set_addr_spec(a).valid,
        !c.set_bounds_spec(s, e).valid,
        !c.set_perms_spec(p).valid,
        !c.seal_spec(k).valid,
        !c.unseal_spec(k).valid,
{
}

/// A capability that was sealed and then unsealed is unsealed.
pub proof fn lemma_seal_unseal_otype(c: TaggedCapability, k: TaggedCapability)
    ensures
        c.seal_spec(k).unseal_spec(k).capa.otype == OType::unsealed(),
{
}

/// Unsealing undoes sealing: a valid, unsealed capability that is sealed
/// and unsealed with one key, which may do both and stands at a sealing
/// address that does not give the object type of unsealed capabilities,
/// comes back as it was.
pub proof fn lemma_seal_unseal_inverse(c: TaggedCapability, k: TaggedCapability)
    requires
        c.valid,
        c.capa.otype.is_unsealed_spec(),
        k.valid,
        k.capa.otype.is_unsealed_spec(),
        k.capa.is_bounded_spec(),
        k.capa.perms.contains_spec(Permissions::seal()),
        k.capa.perms.contains_spec(Permissions::unseal()),
        k.capa.addr.0 % 256 == 0,
        k.capa.addr.0 / 256 != 0xFF,
    ensures
        c.seal_spec(k).valid,
        !c.seal_spec(k).capa.otype.is_unsealed_spec(),
        c.seal_spec(k).unseal_spec(k) == c,
{
}

/// A write of a value that carries no capability clears the tag of every
/// granule that it touches, and leaves every other tag.
pub proof fn lemma_data_write_clears_tags<T: Ty>(
    st: MachineState,
    dst: TaggedCapability,
    val: T,
    idx: int,
)
    requires
        st.wf(),
        st.write_allowed::<T>(dst),
        val.write_tags_spec(dst.capa.addr, st.tags_at::<T>(dst.capa.addr)) == cleared(
            st.tags_at::<T>(dst.capa.addr),
        ),
        0 <= idx < st.tags.len(),
    ensures
        st.write_spec(dst, val).tags.len() == st.tags.len(),
        st.write_spec(dst, val).tags[idx] == if gran_tag(dst.capa.addr.0 as nat / 8) <= idx
            <= gran_tag(dst.capa.addr.0 as nat / 8) + gran_span_spec(
            dst.capa.addr,
            T::layout_spec().size,
        ) {
            false
        } else {
            st.tags[idx]
        },
{
}

/// A write of an integer clears the tag of every granule that it touches.
pub proof fn lemma_grain_write_clears_tags(
    st: MachineState,
    dst: TaggedCapability,
    val: u64,
    idx: int,
)
    requires
        st.wf(),
        st.write_allowed::<u64>(dst),
        0 <= idx < st.tags.len(),
    ensures
        st.write_spec(dst, val).tags[idx] == if gran_tag(dst.capa.addr.0 as nat / 8) <= idx
            <= gran_tag(dst.capa.addr.0 as nat / 8) + gran_span_spec(dst.capa.addr, 8) {
            false
        } else {
            st.tags[idx]
        },
{
    lemma_data_write_clears_tags::<u64>(st, dst, val, idx);
}

/// A write of a capability sets exactly one tag, that of the granule
/// written, to the validity of the capability written.
pub proof fn lemma_capability_write_sets_one_tag(
    st: MachineState,
    dst: TaggedCapability,
    val: TaggedCapability,
)
    requires
        st.wf(),
        st.write_allowed::<TaggedCapability>(dst),
    ensures
        dst.capa.addr.0 % 8 == 0,
        st.write_spec(dst, val).tags == st.tags.update(
            gran_tag(dst.capa.addr.0 as nat / 8) as int,
            val.valid,
        ),
{
    vstd::arithmetic::power2::lemma2_to64();
    assert(st.write_spec(dst, val).tags =~= st.tags.update(
        gran_tag(dst.capa.addr.0 as nat / 8) as int,
        val.valid,
    ));
}

/// What is read through a capability right after a write through it is
/// what the bytes and tags that the write left stand for.
pub proof fn lemma_read_after_write<T: Ty>(st: MachineState, dst: TaggedCapability, val: T)
    requires
        st.wf(),
        st.write_allowed::<T>(dst),
        dst.admits(MachineState::access_of::<T>(dst, MemAccessKind::Read)),
    ensures
        st.write_spec(dst, val).wf(),
        st.write_spec(dst, val).read_spec::<T>(dst) == T::read_spec(
            val.write_bytes_spec(st.bytes_at::<T>(dst.capa.addr), dst.capa.addr),
            dst.capa.addr,
            val.write_tags_spec(dst.capa.addr, st.tags_at::<T>(dst.capa.addr)),
        ),
{
    let addr = dst.capa.addr;
    val.lemma_write_len(st.bytes_at::<T>(addr), addr, st.tags_at::<T>(addr));
    let after = st.write_spec(dst, val);
    assert(after.bytes_at::<T>(addr) =~= val.write_bytes_spec(st.bytes_at::<T>(addr), addr));
    assert(after.tags_at::<T>(addr) =~= val.write_tags_spec(addr, st.tags_at::<T>(addr)));
}

/// Values whose size is a multiple of their alignment can be written one
/// after the other wherever the capability admits a write of them all and
/// the memory holds their bytes: every write succeeds, and nothing but
/// memory and its tags changes.
pub proof fn lemma_write_seq_succeeds<T: Ty>(st: MachineState, dst: TaggedCapability, vals: Seq<T>)
    requires
        st.wf(),
        T::layout_spec().size > 0,
        T::layout_spec().size as nat % T::layout_spec().align.value() == 0,
        vals.len() * T::layout_spec().size <= 0xFFFF,
        dst.admits(MachineState::iter_access::<T>(dst, vals.len())),
        dst.capa.addr.0 + vals.len() * T::layout_spec().size <= st.mem.len(),
    ensures
        st.write_seq_spec(dst, vals).1 is Ok,
        st.write_seq_spec(dst, vals).0.wf(),
        st.write_seq_spec(dst, vals).0.regs == st.regs,
        st.write_seq_spec(dst, vals).0.mem.len() == st.mem.len(),
        forall|i: int|
            0 <= i < dst.capa.addr.0 ==> st.write_seq_spec(dst, vals).0.mem[i] == st.mem[i],
        forall|i: int|
            0 <= i < gran_tag(dst.capa.addr.0 as nat / 8) ==> st.write_seq_spec(
                dst,
                vals,
            ).0.tags[i] == st.tags[i],
    decreases vals.len(),
{
    let size = T::layout_spec().size;
    let n = vals.len();
    if n > 0 {
        crate::abi::lemma_align_positive(T::layout_spec().align);
        assert(n * size >= size) by (nonlinear_arith)
            requires
                n >= 1,
                size >= 0,
        ;
        assert(n * size == size + (n - 1) * size) by (nonlinear_arith);
        assert(n <= 0xFFFF) by (nonlinear_arith)
            requires
                n * size <= 0xFFFF,
                size >= 1,
        ;
        let addr = dst.capa.addr;
        assert(st.write_allowed::<T>(dst));
        vals[0].lemma_write_len(st.bytes_at::<T>(addr), addr, st.tags_at::<T>(addr));
        let st1 = st.write_spec(dst, vals[0]);
        let next = dst.set_addr_spec(addr.add_spec(size));
        assert(next.capa.addr.0 == addr.0 + size);
        assert((addr.0 + size) as nat % T::layout_spec().align.value() == 0) by {
            vstd::arithmetic::div_mod::lemma_mod_adds(
                addr.0 as int,
                size as int,
                T::layout_spec().align.value() as int,
            );
        }
        assert(vals.drop_first().len() == n - 1);
        assert((n - 1) * size <= 0xFFFF);
        assert(next.admits(MachineState::iter_access::<T>(next, (n - 1) as nat)));
        lemma_write_seq_succeeds::<T>(st1, next, vals.drop_first());
        let done = st1.write_seq_spec(next, vals.drop_first());
        assert(st.write_seq_spec(dst, vals) == done);
        assert forall|i: int| 0 <= i < addr.0 implies done.0.mem[i] == st.mem[i] by {
            assert(st1.mem[i] == st.mem[i]);
        }
        assert forall|i: int| 0 <= i < gran_tag(addr.0 as nat / 8) implies done.0.tags[i]
            == st.tags[i] by {
            assert(st1.tags[i] == st.tags[i]);
        }
    }
}

/// A grain that was written is read back.
pub proof fn lemma_grain_round_trip(st: MachineState, dst: TaggedCapability, val: u64)
    requires
        st.wf(),
        st.write_allowed::<u64>(dst),
        dst.admits(MachineState::access_of::<u64>(dst, MemAccessKind::Read)),
    ensures
        st.write_spec(dst, val).read_spec::<u64>(dst) == Ok::<u64, Exception>(val),
{
    lemma_read_after_write::<u64>(st, dst, val);
    lemma_pow256_values();
    lemma_le_round_trip(val as nat, 8);
}

/// A capability that was written is read back, with its validity.
pub proof fn lemma_capability_round_trip(
    st: MachineState,
    dst: TaggedCapability,
    val: TaggedCapability,
)
    requires
        st.wf(),
        st.write_allowed::<TaggedCapability>(dst),
        dst.admits(MachineState::access_of::<TaggedCapability>(dst, MemAccessKind::Read)),
    ensures
        st.write_spec(dst, val).read_spec::<TaggedCapability>(dst) == Ok::<
            TaggedCapability,
            Exception,
        >(val),
{
    lemma_read_after_write::<TaggedCapability>(st, dst, val);
    lemma_pow256_values();
    lemma_le_round_trip(cap_encode(val.capa) as nat, 8);
    lemma_cap_decode_encode(val.capa);
}

/// The bytes and tags that a write of an operation leaves stand for the
/// operation, in every operand slot.
pub proof fn lemma_op_encoding_round_trip(op: Op, bytes: Seq<u8>, addr: Address, tags: Seq<bool>)
    requires
        bytes.len() == 32,
        addr.0 % 8 == 0,
        addr.0 + 32 <= 0x1_0000,
        tags.len() == 4,
    ensures
        Op::read_spec(op.write_bytes_spec(bytes, addr), addr, op.write_tags_spec(addr, tags))
            == Ok::<Op, Exception>(op),
{
    lemma_pow256_values();
    let b1 = write_field_bytes(op.kind, bytes, addr, 0);
    let b2 = write_field_bytes(op.op1, b1, addr, 8);
    let b3 = write_field_bytes(op.op2, b2, addr, 16);
    let b4 = write_field_bytes(op.op3, b3, addr, 24);
    let t1 = write_field_tags(op.kind, addr, tags, 0);
    let t2 = write_field_tags(op.op1, addr, t1, 8);
    let t3 = write_field_tags(op.op2, addr, t2, 16);
    let t4 = write_field_tags(op.op3, addr, t3, 24);
    lemma_le_bytes_len(op.kind.to_byte_spec() as nat, 1);
    lemma_le_bytes_len(cap_encode(op.op1.capa) as nat, 8);
    lemma_le_bytes_len(cap_encode(op.op2.capa) as nat, 8);
    lemma_le_bytes_len(cap_encode(op.op3.capa) as nat, 8);
    assert(b4.subrange(0, 1) =~= le_bytes(op.kind.to_byte_spec() as nat, 1));
    assert(b4.subrange(8, 16) =~= le_bytes(cap_encode(op.op1.capa) as nat, 8));
    assert(b4.subrange(16, 24) =~= le_bytes(cap_encode(op.op2.capa) as nat, 8));
    assert(b4.subrange(24, 32) =~= le_bytes(cap_encode(op.op3.capa) as nat, 8));
    lemma_le_round_trip(op.kind.to_byte_spec() as nat, 1);
    lemma_le_round_trip(cap_encode(op.op1.capa) as nat, 8);
    lemma_le_round_trip(cap_encode(op.op2.capa) as nat, 8);
    lemma_le_round_trip(cap_encode(op.op3.capa) as nat, 8);
    lemma_cap_decode_encode(op.op1.capa);
    lemma_cap_decode_encode(op.op2.capa);
    lemma_cap_decode_encode(op.op3.capa);
    OpKind::lemma_to_byte_bound(op.kind);
    OpKind::lemma_to_byte_injective(OpKind::kind_of(op.kind.to_byte_spec()), op.kind);
    assert(field_tag(addr, 0) == 0 && field_tag(addr, 8) == 1 && field_tag(addr, 16) == 2
        && field_tag(addr, 24) == 3);
    assert(t4[1] == op.op1.valid);
    assert(t4[2] == op.op2.valid);
    assert(t4[3] == op.op3.valid);
    assert(read_field::<OpKind>(b4, addr, t4, 0) == Ok::<OpKind, Exception>(op.kind));
    assert(read_field::<TaggedCapability>(b4, addr, t4, 8) == Ok::<TaggedCapability, Exception>(
        op.op1,
    ));
    assert(read_field::<TaggedCapability>(b4, addr, t4, 16) == Ok::<TaggedCapability, Exception>(
        op.op2,
    ));
    assert(read_field::<TaggedCapability>(b4, addr, t4, 24) == Ok::<TaggedCapability, Exception>(
        op.op3,
    ));
}

/// An operation that was written is read back.
pub proof fn lemma_op_round_trip(st: MachineState, dst: TaggedCapability, op: Op)
    requires
        st.wf(),
        st.write_allowed::<Op>(dst),
        dst.admits(MachineState::access_of::<Op>(dst, MemAccessKind::Read)),
    ensures
        st.write_spec(dst, op).read_spec::<Op>(dst) == Ok::<Op, Exception>(op),
{
    lemma_read_after_write::<Op>(st, dst, op);
    vstd::arithmetic::power2::lemma2_to64();
    lemma_op_encoding_round_trip(
        op,
        st.bytes_at::<Op>(dst.capa.addr),
        dst.capa.addr,
        st.tags_at::<Op>(dst.capa.addr),
    );
}

/// A capability whose bounds were widened beyond those it had reads back
/// as invalid, wherever it is written.
pub proof fn lemma_widened_capability_reads_invalid(
    st: MachineState,
    dst: TaggedCapability,
    cap: TaggedCapability,
    start: Address,
    endb: Address,
)
    requires
        st.wf(),
        st.write_allowed::<TaggedCapability>(dst),
        dst.admits(MachineState::access_of::<TaggedCapability>(dst, MemAccessKind::Read)),
        start.0 < cap.capa.start.0 || endb.0 > cap.capa.endb.0,
    ensures
        st.write_spec(dst, cap.set_bounds_spec(start, endb)).read_spec::<TaggedCapability>(dst)
            matches Ok(read) && !read.valid,
{
    lemma_capability_round_trip(st, dst, cap.set_bounds_spec(start, endb));
}

/// Whether the allocator behind the handle `ator` is in order: the handle
/// opens, and the memory that the allocator hands out lies after its
/// header and state.
pub open spec fn allocator_in_order(st: MachineState, ator: TaggedCapability) -> bool {
    match open_spec(st, ator) {
        Ok((region, header, state)) => state.inner.capa.start.0 >= region.capa.addr.0 + 16,
        Err(_) => false,
    }
}

/// The handle that `init` returns opens the allocator, which is in order
/// and has handed out nothing. The region must be readable, and must not
/// start at the one sealing address whose object type is that of unsealed
/// capabilities.
pub proof fn lemma_init_puts_allocator_in_order(
    st: MachineState,
    strat: Strategy,
    flags: InitFlags,
    region: TaggedCapability,
)
    requires
        st.wf(),
        init_spec(st, strat, flags, region).1 is Ok,
        region.capa.start.0 / 256 != 0xFF,
        region.capa.perms.grants_access_spec(MemAccessKind::Read),
    ensures
        init_spec(st, strat, flags, region).0.wf(),
        allocator_in_order(
            init_spec(st, strat, flags, region).0,
            init_spec(st, strat, flags, region).1->Ok_0,
        ),
        open_spec(
            init_spec(st, strat, flags, region).0,
            init_spec(st, strat, flags, region).1->Ok_0,
        ) matches Ok((opened, header, state)) && header == (Header {
            strat,
            flags: InitFlags { bits: flags.bits & 0x03 },
        })
            && opened.capa.start == region.capa.start && opened.capa.endb == region.capa.endb
            && state.inner.capa.addr.0 == region.capa.start.0 + 16 && state.inner.capa.start.0
            == region.capa.start.0 + 16 && state.inner.capa.endb == region.capa.endb
            && state.inner.capa.perms == region.capa.perms
            && state.inner.capa.otype.is_unsealed_spec() && state.inner.valid,
{
    let moved = region.set_addr_spec(region.capa.start);
    let handle = magic_seal_spec(moved);
    vstd::arithmetic::power2::lemma2_to64();
    lemma_field_places(moved);
    assert(moved.admits(init_access(region)));
    assert(init_access(region) == init_access(moved));
    let perms = moved.capa.perms.bits;
    assert((perms | 0x08u8) & 0x08u8 == 0x08u8) by (bit_vector);
    assert((perms | 0x10u8) & 0x10u8 == 0x10u8) by (bit_vector);
    assert(magic_unseal_spec(handle) == moved);
    let st1 = revoke_spec(st, moved.capa.start, moved.capa.endb);
    let header = Header { strat, flags };
    let st2 = st1.write_spec(header_cap(moved), header);
    let state = BumpAlloc::new_spec(
        moved.set_bounds_spec(state_cap(moved).capa.endb, moved.capa.endb),
    );
    let st3 = st2.write_spec(state_cap(moved), state);
    assert(init_spec(st, strat, flags, region).0 == st3);
    lemma_pow256_values();
    // the state reads back
    lemma_read_after_write::<BumpAlloc>(st2, state_cap(moved), state);
    lemma_le_round_trip(cap_encode(state.inner.capa) as nat, 8);
    lemma_cap_decode_encode(state.inner.capa);
    // the header reads back, the state having been written after it
    lemma_read_after_write::<Header>(st1, header_cap(moved), header);
    lemma_header_encoding_round_trip(
        header,
        st1.bytes_at::<Header>(header_cap(moved).capa.addr),
        header_cap(moved).capa.addr,
        st1.tags_at::<Header>(header_cap(moved).capa.addr),
    );
    let hat = header_cap(moved).capa.addr;
    assert(st3.bytes_at::<Header>(hat) =~= st2.bytes_at::<Header>(hat));
    assert(st3.tags_at::<Header>(hat) =~= st2.tags_at::<Header>(hat));
}

/// The bytes and tags that a write of an allocator's header leaves stand
/// for the header, where its flags are flags that there are.
pub proof fn lemma_header_encoding_round_trip(
    header: Header,
    bytes: Seq<u8>,
    addr: Address,
    tags: Seq<bool>,
)
    requires
        bytes.len() == 2,
        addr.0 + 2 <= 0x1_0000,
        tags.len() == gran_span_spec(addr, 2) + 1,
    ensures
        Header::read_spec(header.write_bytes_spec(bytes, addr), addr, header.write_tags_spec(addr, tags))
            == Ok::<Header, Exception>(
            Header { strat: header.strat, flags: InitFlags { bits: header.flags.bits & 0x03 } },
        ),
{
    lemma_pow256_values();
    let b1 = write_field_bytes(header.strat, bytes, addr, 0);
    let b2 = write_field_bytes(header.flags, b1, addr, 1);
    lemma_le_bytes_len(header.strat.to_byte_spec() as nat, 1);
    lemma_le_bytes_len(header.flags.bits as nat, 1);
    assert(b2.subrange(0, 1) =~= le_bytes(header.strat.to_byte_spec() as nat, 1));
    assert(b2.subrange(1, 2) =~= le_bytes(header.flags.bits as nat, 1));
    lemma_le_round_trip(header.strat.to_byte_spec() as nat, 1);
    lemma_le_round_trip(header.flags.bits as nat, 1);
}

/// When `init` returns the handle of a new allocator, no valid capability
/// in a register or in memory reaches the allocator's region, but the one
/// that is the allocator's own state: nobody holds what could open the
/// handle.
pub proof fn lemma_init_leaves_no_capability_into_region(
    st: MachineState,
    strat: Strategy,
    flags: InitFlags,
    region: TaggedCapability,
    idx: int,
)
    requires
        st.wf(),
        init_spec(st, strat, flags, region).1 is Ok,
        0 <= idx < st.tags.len(),
        init_spec(st, strat, flags, region).0.tags[idx],
        idx != gran_tag((region.capa.start.0 as nat + 8) / 8),
    ensures
        !reaches(
            tagged_word(init_spec(st, strat, flags, region).0, idx),
            region.capa.start,
            region.capa.endb,
        ),
{
    let moved = region.set_addr_spec(region.capa.start);
    vstd::arithmetic::power2::lemma2_to64();
    lemma_field_places(moved);
    let st1 = revoke_spec(st, moved.capa.start, moved.capa.endb);
    let header = Header { strat, flags };
    let st2 = st1.write_spec(header_cap(moved), header);
    let state = BumpAlloc::new_spec(
        moved.set_bounds_spec(state_cap(moved).capa.endb, moved.capa.endb),
    );
    let st3 = st2.write_spec(state_cap(moved), state);
    assert(init_spec(st, strat, flags, region).0 == st3);
    let hat = header_cap(moved).capa.addr;
    let sat = state_cap(moved).capa.addr;
    header.lemma_write_len(st1.bytes_at::<Header>(hat), hat, st1.tags_at::<Header>(hat));
    state.lemma_write_len(st2.bytes_at::<BumpAlloc>(sat), sat, st2.tags_at::<BumpAlloc>(sat));
    // the tag is none that either write touched, so it survived the revocation
    assert(idx != gran_tag(hat.0 as nat / 8));
    assert(st3.tags[idx] == st1.tags[idx]);
    assert(st1.tags[idx] ==> !reaches(tagged_word(st, idx), moved.capa.start, moved.capa.endb));
    // and the word behind it is as it was
    if idx >= 32 {
        let at = (idx - 32) * 8;
        assert(st3.mem.subrange(at, at + 8) =~= st.mem.subrange(at, at + 8));
    }
}

/// The handle of an allocator has the bounds of the region that the
/// allocator was given, and what `deinit` returns has them again, unsealed.
pub proof fn lemma_deinit_returns_region(
    st: MachineState,
    strat: Strategy,
    flags: InitFlags,
    region: TaggedCapability,
    later: MachineState,
)
    requires
        init_spec(st, strat, flags, region).1 is Ok,
        deinit_spec(later, init_spec(st, strat, flags, region).1->Ok_0).1 is Ok,
    ensures
        init_spec(st, strat, flags, region).1->Ok_0.capa.start == region.capa.start,
        init_spec(st, strat, flags, region).1->Ok_0.capa.endb == region.capa.endb,
        deinit_spec(later, init_spec(st, strat, flags, region).1->Ok_0).1->Ok_0.capa.start
            == region.capa.start,
        deinit_spec(later, init_spec(st, strat, flags, region).1->Ok_0).1->Ok_0.capa.endb
            == region.capa.endb,
        deinit_spec(
            later,
            init_spec(st, strat, flags, region).1->Ok_0,
        ).1->Ok_0.capa.otype.is_unsealed_spec(),
{
}

/// An allocation leaves the allocator in order, with the state that the
/// bump allocator has after it.
pub proof fn lemma_allocate_keeps_allocator(st: MachineState, ator: TaggedCapability, layout: Layout)
    requires
        st.wf(),
        allocator_in_order(st, ator),
        alloc_spec(st, ator, layout).1 is Ok,
    ensures
        alloc_spec(st, ator, layout).0.wf(),
        allocator_in_order(alloc_spec(st, ator, layout).0, ator),
        open_spec(alloc_spec(st, ator, layout).0, ator)->Ok_0.2 == open_spec(
            st,
            ator,
        )->Ok_0.2.after_alloc(layout),
        alloc_spec(st, ator, layout).1 == Ok::<TaggedCapability, Exception>(
            open_spec(st, ator)->Ok_0.2.allocation(layout),
        ),
{
    let region = magic_unseal_spec(ator);
    let opened = open_spec(st, ator)->Ok_0;
    let header = opened.1;
    let state = opened.2;
    let next = state.after_alloc(layout);
    let ation = state.allocation(layout);
    lemma_field_places(region);
    vstd::arithmetic::power2::lemma2_to64();
    crate::abi::lemma_align_positive(layout.align);
    crate::abi::lemma_align_up(state.inner.capa.addr.0 as nat, layout.align.value());
    let st1 = st.write_spec(state_cap(region), next);
    lemma_read_after_write::<BumpAlloc>(st, state_cap(region), next);
    lemma_pow256_values();
    lemma_le_round_trip(cap_encode(next.inner.capa) as nat, 8);
    lemma_cap_decode_encode(next.inner.capa);
    let fill = header.flags.contains_spec(InitFlags::init_on_alloc());
    let st2 = fill_spec(st1, fill, ation);
    assert(alloc_spec(st, ator, layout).0 == st2);
    let at = state_cap(region).capa.addr;
    assert(st2.bytes_at::<BumpAlloc>(at) =~= st1.bytes_at::<BumpAlloc>(at));
    assert(st2.tags == st1.tags);
    let hat = header_cap(region).capa.addr;
    assert(st2.bytes_at::<Header>(hat) =~= st.bytes_at::<Header>(hat));
    assert(st2.tags_at::<Header>(hat) =~= st1.tags_at::<Header>(hat));
    assert(st1.tags_at::<Header>(hat) =~= st.tags_at::<Header>(hat));
    assert(st2.read_spec::<Header>(header_cap(region)) == st.read_spec::<Header>(
        header_cap(region),
    ));
    assert(st2.read_spec::<BumpAlloc>(state_cap(region)) == Ok::<BumpAlloc, Exception>(next));
}

/// Two allocations that one allocator makes, one after the other, do not
/// overlap: the second starts where the first ends, or after it.
pub proof fn lemma_allocations_disjoint(
    st: MachineState,
    ator: TaggedCapability,
    first: Layout,
    second: Layout,
)
    requires
        st.wf(),
        allocator_in_order(st, ator),
        alloc_spec(st, ator, first).1 is Ok,
        alloc_spec(alloc_spec(st, ator, first).0, ator, second).1 is Ok,
    ensures
        alloc_spec(st, ator, first).1->Ok_0.capa.start.0 <= alloc_spec(
            st,
            ator,
            first,
        ).1->Ok_0.capa.endb.0,
        alloc_spec(st, ator, first).1->Ok_0.capa.endb.0 <= alloc_spec(
            alloc_spec(st, ator, first).0,
            ator,
            second,
        ).1->Ok_0.capa.start.0,
{
    let state = open_spec(st, ator)->Ok_0.2;
    lemma_allocate_keeps_allocator(st, ator, first);
    let st1 = alloc_spec(st, ator, first).0;
    lemma_allocate_keeps_allocator(st1, ator, second);
    lemma_bump_allocations_disjoint(state, first, second);
}

/// What a handle at the start of memory opens depends on the first two
/// granules of memory and their tags alone.
pub proof fn lemma_open_depends_on_first_granules(
    a: MachineState,
    b: MachineState,
    ator: TaggedCapability,
)
    requires
        a.wf(),
        b.wf(),
        a.mem.len() == b.mem.len(),
        ator.capa.addr.0 == 0,
        a.mem.len() >= 16,
        forall|i: int| 0 <= i < 16 ==> a.mem[i] == b.mem[i],
        a.tags[32] == b.tags[32],
        a.tags[33] == b.tags[33],
    ensures
        open_spec(a, ator) == open_spec(b, ator),
{
    let region = magic_unseal_spec(ator);
    vstd::arithmetic::power2::lemma2_to64();
    lemma_field_places(region);
    let hat = header_cap(region).capa.addr;
    let sat = state_cap(region).capa.addr;
    assert(hat.0 == 0 && sat.0 == 8);
    assert(a.bytes_at::<Header>(hat) =~= b.bytes_at::<Header>(hat));
    assert(a.tags_at::<Header>(hat) =~= b.tags_at::<Header>(hat));
    assert(a.bytes_at::<BumpAlloc>(sat) =~= b.bytes_at::<BumpAlloc>(sat));
    assert(a.tags_at::<BumpAlloc>(sat) =~= b.tags_at::<BumpAlloc>(sat));
}

/// The capability for the program of `ops` operations after boot.
pub open spec fn booted_pc(ops: nat) -> TaggedCapability {
    TaggedCapability {
        capa: Capability {
            addr: Address(16),
            start: Address(16),
            endb: Address((16 + 32 * ops) as u16),
            perms: program_perms(),
            otype: OType::unsealed(),
        },
        valid: true,
    }
}

/// The capability for the call stack of `stack_size` bytes after boot,
/// behind a program of `ops` operations: its address is its end.
pub open spec fn booted_sp(ops: nat, stack_size: u16) -> TaggedCapability {
    TaggedCapability {
        capa: Capability {
            addr: Address((16 + 32 * ops + stack_size) as u16),
            start: Address((16 + 32 * ops) as u16),
            endb: Address((16 + 32 * ops + stack_size) as u16),
            perms: Permissions { bits: 0x1F },
            otype: OType::unsealed(),
        },
        valid: true,
    }
}

/// The handle of the root allocator over `len` bytes of memory.
pub open spec fn booted_handle(len: nat) -> TaggedCapability {
    TaggedCapability {
        capa: Capability {
            addr: Address(0),
            start: Address(0),
            endb: Address(len as u16),
            perms: Permissions { bits: 0x1F },
            otype: OType(0),
        },
        valid: true,
    }
}

/// The state of the root allocator over `len` bytes of memory whose first
/// free byte is `addr`.
pub open spec fn root_state(len: nat, addr: nat) -> BumpAlloc {
    BumpAlloc {
        inner: TaggedCapability {
            capa: Capability {
                addr: Address(addr as u16),
                start: Address(16),
                endb: Address(len as u16),
                perms: Permissions { bits: 0x1F },
                otype: OType::unsealed(),
            },
            valid: true,
        },
    }
}

/// Whether the machine holds the root allocator with its first free byte
/// at `addr`.
pub open spec fn holds_root_allocator(st: MachineState, addr: nat) -> bool {
    &&& st.wf()
    &&& st.mem.len() >= 16
    &&& 16 <= addr <= st.mem.len()
    &&& open_spec(st, booted_handle(st.mem.len())) == Ok::<
        (TaggedCapability, Header, BumpAlloc),
        Exception,
    >(
        (
            root_spec(st.mem.len()),
            Header { strat: Strategy::Bump, flags: root_flags() },
            root_state(st.mem.len(), addr),
        ),
    )
}

/// The facts about the bits of permissions and flags that boot rests on.
proof fn lemma_boot_bits()
    ensures
        0x1Fu8 & 0x01 == 0x01,
        0x1Fu8 & 0x02 == 0x02,
        0x1Fu8 & 0x04 == 0x04,
        0x1Fu8 & 0x05 == 0x05,
        0x03u8 & 0x01 == 0x01,
        0x03u8 & 0x02 == 0x02,
        0x03u8 & 0x03 == 0x03,
        0x1Fu8 | 0x08 == 0x1F,
        0x1Fu8 | 0x10 == 0x1F,
        0x1Fu8 & 0x08 == 0x08,
        0x1Fu8 & 0x10 == 0x10,
        0x02u8 & 0x02 == 0x02,
{
    assert(0x02u8 & 0x02 == 0x02) by (bit_vector);
    assert(0x1Fu8 & 0x01 == 0x01 && 0x1Fu8 & 0x02 == 0x02 && 0x1Fu8 & 0x04 == 0x04 && 0x1Fu8
        & 0x05 == 0x05 && 0x03u8 & 0x01 == 0x01 && 0x03u8 & 0x03 == 0x03 && 0x1Fu8 | 0x08
        == 0x1F && 0x1Fu8 | 0x10 == 0x1F && 0x1Fu8 & 0x08 == 0x08 && 0x1Fu8 & 0x10 == 0x10
        && 0x03u8 & 0x02 == 0x02) by (bit_vector);
}

/// On a blank machine of at least two granules the root allocator can be
/// initialized: it takes the whole memory, and its handle is sealed with
/// the address zero.
pub proof fn lemma_boot_init(granules: u16)
    requires
        16 <= granules * 8 <= 0xFFFF,
    ensures
        init_spec(
            blank_spec(granules),
            Strategy::Bump,
            root_flags(),
            root_spec((granules * 8) as nat),
        ).1 == Ok::<TaggedCapability, Exception>(booted_handle((granules * 8) as nat)),
        holds_root_allocator(
            init_spec(
                blank_spec(granules),
                Strategy::Bump,
                root_flags(),
                root_spec((granules * 8) as nat),
            ).0,
            16,
        ),
        init_spec(
            blank_spec(granules),
            Strategy::Bump,
            root_flags(),
            root_spec((granules * 8) as nat),
        ).0.regs == blank_spec(granules).regs,
        init_spec(
            blank_spec(granules),
            Strategy::Bump,
            root_flags(),
            root_spec((granules * 8) as nat),
        ).0.mem.len() == granules * 8,
{
    let len = (granules * 8) as nat;
    let root = root_spec(len);
    let blank = blank_spec(granules);
    vstd::arithmetic::power2::lemma2_to64();
    lemma_boot_bits();
    assert(blank.wf());
    lemma_field_places(root);
    assert(root.set_addr_spec(root.capa.start) == root);
    assert(root.admits(init_access(root)));
    let revoked = revoke_spec(blank, root.capa.start, root.capa.endb);
    assert(revoked.wf());
    assert(revoked.write_allowed::<Header>(header_cap(root)));
    let header = Header { strat: Strategy::Bump, flags: root_flags() };
    header.lemma_write_len(
        revoked.bytes_at::<Header>(header_cap(root).capa.addr),
        header_cap(root).capa.addr,
        revoked.tags_at::<Header>(header_cap(root).capa.addr),
    );
    let headed = revoked.write_spec(header_cap(root), header);
    assert(headed.wf());
    assert(headed.write_allowed::<BumpAlloc>(state_cap(root)));
    let booted = init_spec(blank, Strategy::Bump, root_flags(), root);
    assert(booted.1 is Ok);
    assert(booted.1->Ok_0 == booted_handle(len));
    lemma_init_puts_allocator_in_order(blank, Strategy::Bump, root_flags(), root);
    assert(magic_unseal_spec(booted_handle(len)) == root);
}

/// An allocation from the root allocator that does not fail leaves the
/// allocator with its first free byte behind the allocation, and changes
/// no register.
pub proof fn lemma_root_allocate(st: MachineState, addr: nat, layout: Layout)
    requires
        holds_root_allocator(st, addr),
        root_state(st.mem.len(), addr).alloc_failure(layout) is None,
    ensures
        alloc_spec(st, booted_handle(st.mem.len()), layout).1 == Ok::<TaggedCapability, Exception>(
            root_state(st.mem.len(), addr).allocation(layout),
        ),
        holds_root_allocator(
            alloc_spec(st, booted_handle(st.mem.len()), layout).0,
            root_state(st.mem.len(), addr).next_end(layout),
        ),
        alloc_spec(st, booted_handle(st.mem.len()), layout).0.regs == st.regs,
        alloc_spec(st, booted_handle(st.mem.len()), layout).0.mem.len() == st.mem.len(),
        root_state(st.mem.len(), addr).next_end(layout) <= st.mem.len(),
{
    let len = st.mem.len();
    let handle = booted_handle(len);
    let root = root_spec(len);
    let state = root_state(len, addr);
    vstd::arithmetic::power2::lemma2_to64();
    lemma_boot_bits();
    lemma_field_places(root);
    crate::abi::lemma_align_positive(layout.align);
    crate::abi::lemma_align_up(addr, layout.align.value());
    let ation = state.allocation(layout);
    let next = state.after_alloc(layout);
    next.lemma_write_len(
        st.bytes_at::<BumpAlloc>(state_cap(root).capa.addr),
        state_cap(root).capa.addr,
        st.tags_at::<BumpAlloc>(state_cap(root).capa.addr),
    );
    assert(st.write_allowed::<BumpAlloc>(state_cap(root)));
    let stated = st.write_spec(state_cap(root), next);
    assert(stated.wf());
    assert(stated.memset_allowed(ation, ation.capa.span_len_spec()));
    assert(allocator_in_order(st, handle));
    assert(alloc_spec(st, handle, layout).1 == Ok::<TaggedCapability, Exception>(ation));
    lemma_allocate_keeps_allocator(st, handle, layout);
    assert(next == root_state(len, state.next_end(layout)));
    // the header is as it was
    let after = alloc_spec(st, handle, layout).0;
    let hat = header_cap(root).capa.addr;
    let fill = root_flags().contains_spec(InitFlags::init_on_alloc());
    assert(after == fill_spec(stated, fill, ation));
    assert(after.bytes_at::<Header>(hat) =~= st.bytes_at::<Header>(hat));
    assert(after.tags_at::<Header>(hat) =~= st.tags_at::<Header>(hat));
}

/// The capability through which boot writes the program of `ops`
/// operations: the program's memory, to write only.
pub open spec fn loading_pc(ops: nat) -> TaggedCapability {
    TaggedCapability {
        capa: Capability {
            addr: Address(16),
            start: Address(16),
            endb: Address((16 + 32 * ops) as u16),
            perms: Permissions { bits: 0x02 },
            otype: OType::unsealed(),
        },
        valid: true,
    }
}

/// A program is written behind the root allocator wherever the memory
/// holds it: the allocator stays as it is, and no register changes.
pub proof fn lemma_boot_program(st: MachineState, program: Seq<Op>)
    requires
        holds_root_allocator(st, 16 + 32 * program.len()),
    ensures
        st.write_iter_spec(loading_pc(program.len()), program).1 is Ok,
        holds_root_allocator(
            st.write_iter_spec(loading_pc(program.len()), program).0,
            16 + 32 * program.len(),
        ),
        st.write_iter_spec(loading_pc(program.len()), program).0.regs == st.regs,
        st.write_iter_spec(loading_pc(program.len()), program).0.mem.len() == st.mem.len(),
{
    let n = program.len();
    let pc = loading_pc(n);
    vstd::arithmetic::power2::lemma2_to64();
    lemma_boot_bits();
    assert(n * 32 == 32 * n);
    assert(Op::layout_spec().size == 32);
    assert(Op::layout_spec().align.value() == 8);
    assert(pc.admits(MachineState::iter_access::<Op>(pc, n)));
    lemma_write_seq_succeeds::<Op>(st, pc, program);
    let after = st.write_iter_spec(pc, program).0;
    lemma_open_depends_on_first_granules(st, after, booted_handle(st.mem.len()));
}

/// A machine boots wherever its memory holds the root allocator's header
/// and state, the program and the call stack, and at least one byte is
/// left where the stack is allocated. Register `pc` then holds a valid
/// capability for the program, to read and execute; register `sp` one for
/// the stack; and register `z0` the sealed handle of the root allocator.
#[verifier::rlimit(80)]
pub proof fn lemma_boot_succeeds(granules: u16, stack_size: u16, program: Seq<Op>)
    requires
        granules * 8 <= 0xFFFF,
        16 + 32 * program.len() + stack_size <= granules * 8,
        16 + 32 * program.len() < granules * 8,
    ensures
        boot_spec(granules, stack_size, program) matches Ok(st) && st.wf() && st.mem.len()
            == granules * 8 && st.reg(1) == Ok::<TaggedCapability, Exception>(
            booted_pc(program.len()),
        ) && st.reg(3) == Ok::<TaggedCapability, Exception>(
            booted_sp(program.len(), stack_size),
        ) && st.reg(31) == Ok::<TaggedCapability, Exception>(
            booted_handle((granules * 8) as nat),
        ),
{
    let len = (granules * 8) as nat;
    let n = program.len();
    let root = root_spec(len);
    let handle = booted_handle(len);
    lemma_boot_bits();
    lemma_boot_init(granules);
    let booted = init_spec(blank_spec(granules), Strategy::Bump, root_flags(), root);
    let st1 = booted.0;
    // the program is allocated
    let layout = program_layout((n * 32) as u16);
    lemma_boot_layouts(len, n, stack_size);
    lemma_root_allocate(st1, 16, layout);
    let loaded = alloc_spec(st1, handle, layout);
    let st2 = loaded.0;
    let ation = loaded.1->Ok_0;
    // the program is written
    let pc = ation.set_perms_spec(Permissions::write());
    assert(pc == loading_pc(n));
    lemma_boot_program(st2, program);
    let written = st2.write_iter_spec(pc, program);
    let st3 = written.0;
    let pc = pc.set_perms_from_spec(program_perms(), root);
    assert(pc == booted_pc(n));
    let st4 = st3.with_reg(1, pc);
    lemma_open_depends_on_first_granules(st3, st4, handle);
    assert(holds_root_allocator(st4, 16 + 32 * n));
    // the stack is allocated
    let layout = stack_layout(stack_size);
    lemma_root_allocate(st4, 16 + 32 * n, layout);
    let stacked = alloc_spec(st4, handle, layout);
    let stack = stacked.1->Ok_0;
    assert(stack.set_addr_spec(stack.capa.endb) == booted_sp(n, stack_size));
    let st = stacked.0.with_reg(3, stack.set_addr_spec(stack.capa.endb)).with_reg(31, handle);
    assert(boot_spec(granules, stack_size, program) == Ok::<MachineState, BootErr>(st));
}

/// What the root allocator hands out for the program and for the stack.
proof fn lemma_boot_layouts(len: nat, ops: nat, stack_size: u16)
    requires
        len <= 0xFFFF,
        16 + 32 * ops + stack_size <= len,
        16 + 32 * ops < len,
    ensures
        root_state(len, 16).alloc_failure(program_layout((ops * 32) as u16)) is None,
        root_state(len, 16).next_end(program_layout((ops * 32) as u16)) == 16 + 32 * ops,
        root_state(len, 16).allocation(program_layout((ops * 32) as u16)).set_perms_spec(
            Permissions::write(),
        ) == loading_pc(ops),
        loading_pc(ops).set_perms_from_spec(program_perms(), root_spec(len)) == booted_pc(ops),
        root_state(len, 16 + 32 * ops).alloc_failure(stack_layout(stack_size)) is None,
        root_state(len, 16 + 32 * ops).next_end(stack_layout(stack_size)) == 16 + 32 * ops
            + stack_size,
        root_state(len, 16 + 32 * ops).allocation(stack_layout(stack_size)).set_addr_spec(
            Address((16 + 32 * ops + stack_size) as u16),
        ) == booted_sp(ops, stack_size),
        root_state(len, 16 + 32 * ops).allocation(stack_layout(stack_size)).capa.endb == Address(
            (16 + 32 * ops + stack_size) as u16,
        ),
{
    vstd::arithmetic::power2::lemma2_to64();
    lemma_boot_bits();
}

/// Register zero reads as the grain zero with a clear tag, whatever the
/// machine holds.
pub proof fn lemma_zero_register(st: MachineState)
    ensures
        st.reg(0) == Ok::<TaggedCapability, Exception>(
            TaggedCapability { capa: cap_decode(0), valid: false },
        ),
        st.reg_data(0) == Ok::<u64, Exception>(0),
{
}

/// Whether the operation is a jump or a branch.
pub open spec fn is_jump(kind: OpKind) -> bool {
    match kind {
        OpKind::Jal
        | OpKind::Jalr
        | OpKind::Beq
        | OpKind::Bne
        | OpKind::Blts
        | OpKind::Bges
        | OpKind::Bltu
        | OpKind::Bgeu => true,
        _ => false,
    }
}

/// Whether the operation names the program counter as a register to
/// write to.
pub open spec fn targets_pc(op: Op) -> bool {
    match op.kind {
        OpKind::Nop
        | OpKind::Syscall
        | OpKind::Store8
        | OpKind::Store16
        | OpKind::Store32
        | OpKind::Store64
        | OpKind::StoreC => false,
        OpKind::CGetBound => reg_of(op.op1) == 1 || reg_of(op.op2) == 1,
        _ => reg_of(op.op1) == 1,
    }
}

/// No operation that is not a jump or a branch chooses where execution
/// goes on, and none that does not name the program counter writes to it.
pub proof fn lemma_dispatch_keeps_pc(
    st: MachineState,
    op: Op,
    pc: TaggedCapability,
    inc_pc: TaggedCapability,
)
    requires
        st.wf(),
        !is_jump(op.kind),
        !targets_pc(op),
        dispatch_spec(st, op, pc, inc_pc).1 is Ok,
    ensures
        dispatch_spec(st, op, pc, inc_pc).1 == Ok::<Option<TaggedCapability>, Exception>(None),
        dispatch_spec(st, op, pc, inc_pc).0.regs.len() == 32,
        dispatch_spec(st, op, pc, inc_pc).0.regs[1] == st.regs[1],
{
    match op.kind {
        OpKind::Syscall => {
            lemma_syscall_keeps_pc(st);
        },
        _ => {},
    }
}

/// A system call that succeeds writes to no register but `a0`.
pub proof fn lemma_syscall_keeps_pc(st: MachineState)
    requires
        st.wf(),
        crate::process::syscall_spec(st).1 is Ok,
    ensures
        crate::process::syscall_spec(st).1 == Ok::<Option<TaggedCapability>, Exception>(None),
        crate::process::syscall_spec(st).0.regs.len() == 32,
        crate::process::syscall_spec(st).0.regs[1] == st.regs[1],
{
}

/// After a step that succeeded, and that was neither a jump nor a branch
/// nor named the program counter as its target, the program counter
/// stands exactly one operation further.
pub proof fn lemma_pc_hygiene(st: MachineState, op: Op, pc: TaggedCapability)
    requires
        st.wf(),
        !is_jump(op.kind),
        !targets_pc(op),
        execute_op_spec(st, op, Some(pc), true).1 is Ok,
    ensures
        execute_op_spec(st, op, Some(pc), true).0.regs[1] == next_pc(pc).capa,
        execute_op_spec(st, op, Some(pc), true).0.regs[1].addr == pc.capa.addr.add_spec(32),
{
    let bumped = st.with_reg(1, next_pc(pc));
    lemma_dispatch_keeps_pc(bumped, op, pc, next_pc(pc));
}

} // verus!

//! Revocation: clearing the tag of every capability that reaches a span.

use vstd::prelude::*;
use crate::capability::{cap_decode, lemma_cap_decode_encode, Address, Capability};
use crate::endian::le_value;
use crate::exception::Exception;
use crate::ints::{UAddr, UGran};
use crate::mem::{MachineState, Memory};

verus! {

/// The capability that the word behind a tag stands for: a register's
/// content for the first thirty-two tags, a granule of memory for the
/// others.
pub open spec fn tagged_word(st: MachineState, idx: int) -> Capability {
    if idx < 32 {
        st.regs[idx]
    } else {
        cap_decode(le_value(st.mem.subrange((idx - 32) * 8, (idx - 32) * 8 + 8)) as UGran)
    }
}

/// Whether one of the bounds of `cap` lies in the span from `start` to
/// `endb`, both included.
pub open spec fn reaches(cap: Capability, start: Address, endb: Address) -> bool {
    ||| start.0 <= cap.start.0 <= endb.0
    ||| start.0 <= cap.endb.0 <= endb.0
}

/// The state after revocation: a tag stays set only where the capability
/// behind it does not reach the span.
pub open spec fn revoke_spec(st: MachineState, start: Address, endb: Address) -> MachineState {
    MachineState {
        mem: st.mem,
        regs: st.regs,
        tags: Seq::new(
            st.tags.len(),
            |i: int| st.tags[i] && !reaches(tagged_word(st, i), start, endb),
        ),
    }
}

/// Clears the tag of every valid capability, in a register or in memory,
/// one of whose bounds lies in the span from `start` to `endb`. Nothing
/// else changes.
pub fn by_bounds(mem: &mut Memory, start: Address, endb: Address) -> (r: Result<(), Exception>)
    requires
        old(mem).wf(),
    ensures
        r is Ok,
        final(mem).wf(),
        final(mem).root == old(mem).root,
        final(mem)@ == revoke_spec(old(mem)@, start, endb),
{
    let root = mem.root;
    let n = mem.tags.len();
    let mut idx: usize = 0;
    while idx < n
        invariant
            idx <= n,
            n == mem.tags@.len(),
            mem.wf(),
            root == mem.root,
            mem.root == old(mem).root,
            mem.mem@ == old(mem).mem@,
            mem.regs@ == old(mem).regs@,
            mem.tags@.len() == old(mem).tags@.len(),
            forall|i: int|
                0 <= i < n ==> mem.tags@[i] == if i < idx {
                    old(mem).tags@[i] && !reaches(tagged_word(old(mem)@, i), start, endb)
                } else {
                    old(mem).tags@[i]
                },
        decreases n - idx,
    {
        let set = match mem.tags.get(idx) {
            Some(b) => b,
            None => false,
        };
        if set {
            let cap: Capability = if idx < 32 {
                let held = mem.regs.regs[idx];
                proof {
                    lemma_cap_decode_encode(held);
                }
                Capability::from_ugran(held.to_ugran())
            } else {
                let gran: UAddr = (idx - 32) as UAddr;
                let at = root.set_addr(Address(gran * 8));
                match mem.read::<Capability>(at) {
                    Ok(c) => c,
                    Err(e) => {
                        proof {
                            lemma_root_reads(mem@, gran);
                        }
                        return Err(e);
                    },
                }
            };
            proof {
                if idx >= 32 {
                    lemma_root_reads(mem@, (idx - 32) as UAddr);
                }
            }
            if (cap.start().get() >= start.get() && cap.start().get() <= endb.get()) || (
            cap.endb().get() >= start.get() && cap.endb().get() <= endb.get()) {
                mem.tags.clear(idx);
            }
        }
        idx = idx + 1;
    }
    proof {
        assert(mem@.tags =~= revoke_spec(old(mem)@, start, endb).tags);
    }
    Ok(())
}

/// Through the root capability every granule of memory can be read as a
/// capability: the read gives the word that the granule holds.
pub proof fn lemma_root_reads(st: MachineState, gran: UAddr)
    requires
        st.wf(),
        gran < st.mem.len() / 8,
    ensures
        st.read_spec::<Capability>(
            crate::mem::root_spec(st.mem.len()).set_addr_spec(Address((gran * 8) as UAddr)),
        ) == Ok::<Capability, Exception>(tagged_word(st, gran + 32)),
{
    let at = crate::mem::root_spec(st.mem.len()).set_addr_spec(Address((gran * 8) as UAddr));
    vstd::arithmetic::power2::lemma2_to64();
    assert(0x1Fu8 & 0x01 == 0x01) by (bit_vector);
}

/// After revocation every tag that was set, and whose capability reached
/// the span, is clear; every other tag is as it was.
pub proof fn lemma_revocation_sound(st: MachineState, start: Address, endb: Address, idx: int)
    requires
        0 <= idx < st.tags.len(),
    ensures
        reaches(tagged_word(st, idx), start, endb) ==> !revoke_spec(st, start, endb).tags[idx],
        !reaches(tagged_word(st, idx), start, endb) ==> revoke_spec(st, start, endb).tags[idx]
            == st.tags[idx],
        revoke_spec(st, start, endb).tags.len() == st.tags.len(),
        revoke_spec(st, start, endb).mem == st.mem,
        revoke_spec(st, start, endb).regs == st.regs,
{
}

} // verus!

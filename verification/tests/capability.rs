use fruticose::abi::Align;
use fruticose::capability::{Address, Capability, OType, Permissions, TaggedCapability};
use fruticose::ints::UGran;
use nanorand::{Pcg64, Rng};

fn rw() -> Permissions {
    Permissions::read().union(Permissions::write())
}

#[test]
fn capability() {
    const ROUNDS: u32 = 1_000;
    let mut rng = Pcg64::new_seed(123456789);
    for _ in 0..ROUNDS {
        // fields individually generated
        {
            let addr = Address(rng.generate());
            let start = Address(rng.generate());
            let endb = Address(rng.generate());
            let perms = Permissions::from_bits_truncate(rng.generate());
            let otype = OType::new(rng.generate());
            let cap = Capability::new(addr, start, endb, perms, otype);
            assert_eq!(cap, Capability::from_ugran(cap.to_ugran()));
        }

        // ugran randomly generated
        {
            let ugran: UGran = rng.generate();
            assert_eq!(ugran, Capability::from_ugran(ugran).to_ugran());
        }
    }
}

#[test]
fn is_bounded() {
    let normal = Capability::new(
        Address(8),
        Address(0),
        Address(16),
        Permissions::empty(),
        OType::unsealed(),
    );
    assert!(normal.is_bounded_with_len(0));
    assert!(normal.is_bounded_with_len(8));
    assert!(!normal.is_bounded_with_len(9));
    assert!(!normal.is_bounded_with_len(18));

    let reverse = Capability::new(
        Address(8),
        Address(16),
        Address(0),
        Permissions::empty(),
        OType::unsealed(),
    );
    assert!(!reverse.is_bounded_with_len(0));
    assert!(!reverse.is_bounded_with_len(8));
    assert!(!reverse.is_bounded_with_len(9));
    assert!(!reverse.is_bounded_with_len(18));

    let eq = Capability::new(
        Address(16),
        Address(0),
        Address(16),
        Permissions::empty(),
        OType::unsealed(),
    );
    assert!(eq.is_bounded_with_len(0));
    assert!(!eq.is_bounded_with_len(8));
    assert!(!eq.is_bounded_with_len(9));
    assert!(!eq.is_bounded_with_len(18));

    let oob_right = normal.set_addr(Address(32));
    assert!(!oob_right.is_bounded_with_len(0));
    assert!(!oob_right.is_bounded_with_len(8));
    assert!(!oob_right.is_bounded_with_len(9));
    assert!(!oob_right.is_bounded_with_len(18));

    let oob_left = Capability::new(
        Address(0),
        Address(16),
        Address(32),
        Permissions::empty(),
        OType::unsealed(),
    );
    assert!(!oob_left.is_bounded_with_len(0));
    assert!(!oob_left.is_bounded_with_len(8));
    assert!(!oob_left.is_bounded_with_len(9));
    assert!(!oob_left.is_bounded_with_len(18));
}

#[test]
fn set_perms() {
    let mut cap = TaggedCapability::new(
        Capability::new(
            Address(0),
            Address(0),
            Address(16),
            Permissions::all(),
            OType::unsealed(),
        ),
        true,
    );

    assert!(cap.set_perms(Permissions::read()).is_valid());
    assert!(cap.set_perms(Permissions::write()).is_valid());
    assert!(cap.set_perms(Permissions::exec()).is_valid());
    assert!(cap
        .set_perms(Permissions::read().union(Permissions::write()))
        .is_valid());
    assert!(cap
        .set_perms(Permissions::read().union(Permissions::exec()))
        .is_valid());
    assert!(cap
        .set_perms(Permissions::write().union(Permissions::exec()))
        .is_valid());
    assert!(cap.set_perms(Permissions::all()).is_valid());

    cap = cap.set_perms(Permissions::read().union(Permissions::exec()));

    assert!(cap.set_perms(Permissions::read()).is_valid());
    assert!(!cap.set_perms(Permissions::write()).is_valid());
    assert!(cap.set_perms(Permissions::exec()).is_valid());
    assert!(!cap
        .set_perms(Permissions::read().union(Permissions::write()))
        .is_valid());
    assert!(cap
        .set_perms(Permissions::read().union(Permissions::exec()))
        .is_valid());
    assert!(!cap
        .set_perms(Permissions::write().union(Permissions::exec()))
        .is_valid());
    assert!(!cap.set_perms(Permissions::all()).is_valid());
}

#[test]
fn set_bounds() {
    let cap = TaggedCapability::new(
        Capability::new(
            Address(8),
            Address(8),
            Address(16),
            Permissions::all(),
            OType::unsealed(),
        ),
        true,
    );
    assert!(cap.set_bounds(Address(8), Address(16)).is_valid());
    assert!(cap.set_bounds(Address(9), Address(10)).is_valid());
    assert!(!cap.set_bounds(Address(7), Address(15)).is_valid());
    assert!(!cap.set_bounds(Address(9), Address(17)).is_valid());
    assert!(!cap.set_bounds(Address(0), Address(2)).is_valid());
    assert!(cap.set_bounds(Address(16), Address(16)).is_valid());
    assert!(!cap.set_bounds(Address(16), Address(17)).is_valid());
    assert!(!cap.set_bounds(Address(16), Address(8)).is_valid());
}

#[test]
fn seal() {
    for (cap, sealer, expect_ok) in [
        (
            TaggedCapability::new(
                Capability::new(Address(0), Address(0), Address(16), rw(), OType::unsealed()),
                true,
            ),
            TaggedCapability::new(
                Capability::new(
                    Address(256),
                    Address(256),
                    Address(320),
                    Permissions::seal(),
                    OType::unsealed(),
                ),
                true,
            ),
            true,
        ),
        (
            TaggedCapability::invalid(),
            TaggedCapability::new(
                Capability::new(
                    Address(256),
                    Address(256),
                    Address(320),
                    Permissions::seal(),
                    OType::unsealed(),
                ),
                true,
            ),
            false,
        ),
        (
            TaggedCapability::new(
                Capability::new(
                    Address(0),
                    Address(0),
                    Address(16),
                    Permissions::all(),
                    OType::unsealed(),
                ),
                true,
            ),
            TaggedCapability::invalid(),
            false,
        ),
        (
            TaggedCapability::new(
                Capability::new(Address(0), Address(0), Address(16), rw(), OType::unsealed()),
                true,
            ),
            TaggedCapability::new(
                Capability::new(
                    Address(64), // not a sealing address
                    Address(128),
                    Address(128),
                    Permissions::seal(),
                    OType::unsealed(),
                ),
                true,
            ),
            false,
        ),
    ] {
        let sealed = cap.seal(sealer);
        assert_eq!(sealed.is_valid(), expect_ok);
        if expect_ok {
            assert!(sealed.otype().is_sealed());
        }
    }
}

#[test]
fn unseal() {
    for (cap, unsealer, expect_ok) in [
        (
            TaggedCapability::new(
                Capability::new(
                    Address(0),
                    Address(0),
                    Address(16),
                    rw(),
                    OType::try_new(Address(256)).unwrap(),
                ),
                true,
            ),
            TaggedCapability::new(
                Capability::new(
                    Address(256),
                    Address(256),
                    Address(320),
                    Permissions::unseal(),
                    OType::unsealed(),
                ),
                true,
            ),
            true,
        ),
        (
            TaggedCapability::invalid(),
            TaggedCapability::new(
                Capability::new(
                    Address(256),
                    Address(256),
                    Address(320),
                    Permissions::unseal(),
                    OType::unsealed(),
                ),
                true,
            ),
            false,
        ),
        (
            TaggedCapability::new(
                Capability::new(
                    Address(0),
                    Address(0),
                    Address(16),
                    Permissions::all(),
                    OType::unsealed(),
                ),
                true,
            ),
            TaggedCapability::invalid(),
            false,
        ),
        (
            TaggedCapability::new(
                Capability::new(
                    Address(0),
                    Address(0),
                    Address(16),
                    rw(),
                    OType::try_new(Address(256)).unwrap(),
                ),
                true,
            ),
            TaggedCapability::new(
                Capability::new(
                    Address(64), // not a sealing address
                    Address(128),
                    Address(128),
                    Permissions::seal(),
                    OType::unsealed(),
                ),
                true,
            ),
            false,
        ),
    ] {
        let unsealed = cap.unseal(unsealer);
        assert_eq!(unsealed.is_valid(), expect_ok);
        if expect_ok {
            assert!(unsealed.otype().is_unsealed());
        }
    }
}

#[test]
fn seal_then_unseal_gives_the_capability_back() {
    let cap = TaggedCapability::new(
        Capability::new(Address(4), Address(0), Address(16), rw(), OType::unsealed()),
        true,
    );
    let key = TaggedCapability::new(
        Capability::new(
            Address(512),
            Address(512),
            Address(600),
            Permissions::seal().union(Permissions::unseal()),
            OType::unsealed(),
        ),
        true,
    );
    let sealed = cap.seal(key);
    assert!(sealed.is_valid());
    assert_eq!(sealed.otype().get(), 2);
    assert_eq!(sealed.otype().get_addr(), Address(512));
    assert!(!sealed.set_addr(Address(8)).is_valid());
    assert!(!sealed.set_bounds(Address(0), Address(8)).is_valid());
    assert!(!sealed.set_perms(Permissions::read()).is_valid());
    assert_eq!(sealed.unseal(key), cap);
}

#[test]
fn encoding_packs_fields_from_the_low_bits_up() {
    let cap = Capability::new(
        Address(0x1234),
        Address(0x5678),
        Address(0x9abc),
        Permissions::from_bits_retain(0xde),
        OType::new(0xf0),
    );
    assert_eq!(cap.to_ugran(), 0xf0de_9abc_5678_1234);
    assert_eq!(Capability::from_ugran(0xf0de_9abc_5678_1234), cap);
    assert_eq!(Capability::invalid().to_ugran(), 0xff00_5555_5555_5555);
    assert!(!TaggedCapability::from_ugran(u64::MAX).is_valid());
}

#[test]
fn addresses_wrap_and_align() {
    assert_eq!(Address(0xfffe).add(3), Address(1));
    assert_eq!(Address(1).sub(3), Address(0xfffe));
    assert_eq!(Address(10).offset(-12), Address(0xfffe));
    assert_eq!(Address(0xfff0).offset(32), Address(0x10));
    assert_eq!(Address(100).offset(-64), Address(36));
    let eight = Align::new(8).unwrap();
    assert_eq!(eight.get(), 8);
    assert!(Align::new(12).is_none());
    assert!(Align::new(0).is_none());
    assert_eq!(Align::new(0x8000).unwrap().get(), 0x8000);
    assert!(Address(16).is_aligned_to(eight));
    assert!(!Address(17).is_aligned_to(eight));
    assert_eq!(Address(17).align_up(eight), Address(24));
    assert_eq!(Address(16).align_up(eight), Address(16));
    assert_eq!(Address(17).align_to(eight), Address(24));
    assert_eq!(Address(0xfff9).align_up(eight), Address(0));
    assert_eq!(Address(17).align_down(eight), Address(16));
    assert_eq!(Address(17).gran().0, 2);
    assert_eq!(Address(17).gran().addr(), Address(16));
}

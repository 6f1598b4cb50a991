use auravibe::key::{site_hash, MotionKey, UniqueKeys, FNV_OFFSET, FNV_PRIME};

struct Item {
    name: String,
}

/// The key a call site at `line`/`column` of this file builds.
fn at(line: u32, column: u32) -> MotionKey {
    MotionKey::from_raw(site_hash("key", line, column))
}

#[test]
fn key_takes_a_non_copy_discriminator_by_reference() {
    // One site, called twice, as a rebuild does.
    fn site(by_ref: &Item) -> MotionKey {
        at(18, 9).with(&(&by_ref.name,))
    }

    let item = Item {
        name: String::from("alpha"),
    };
    let a = site(&item);
    let b = site(&item);
    assert_eq!(a, b);
    assert_eq!(
        item.name, "alpha",
        "the discriminator is still owned by the item"
    );
}

#[test]
fn a_reference_hashes_like_the_value() {
    let site = MotionKey::from_raw(1);
    let value = site.with(&7_u32);
    let reference = site.with(&&7_u32);
    assert_eq!(value, reference);
}

#[test]
fn raw_round_trips() {
    assert_eq!(MotionKey::from_raw(42).raw(), 42);
}

#[test]
fn salted_keys_are_stable_and_distinct() {
    let base = MotionKey::from_raw(9);
    assert_eq!(base.salted(7), base.salted(7));
    assert_ne!(base.salted(7), base.salted(8));
    assert_ne!(base.salted(7), base);
}

#[test]
fn key_accepts_any_expression() {
    let a = at(55, 13).with(&(&1_u8,));
    let b = at(56, 13).with(&(&2_u8,));
    assert_ne!(a, b);
}

#[test]
fn keys_are_stable_per_site_and_distinct_per_discriminator() {
    fn site() -> MotionKey {
        at(64, 9)
    }

    fn row(id: u32) -> MotionKey {
        at(68, 9).with(&(&"row", &id))
    }

    let first = at(71, 17);
    let second = at(72, 18);

    assert_ne!(first, second, "two call sites must not collide");
    assert_eq!(site(), site(), "one site must be stable across calls");
    assert_ne!(site(), first, "and distinct from another site");

    assert_ne!(row(1), row(2), "discriminators must separate keys");
    assert_eq!(row(1), row(1), "the same discriminator must be stable");
}

#[test]
fn key_identity_survives_rebuilds() {
    fn key_for(id: u32) -> MotionKey {
        at(85, 9).with(&(&id,))
    }

    assert_eq!(key_for(7), key_for(7));
    assert_ne!(key_for(7), key_for(8));
}

#[test]
fn unique_keys_are_distinct() {
    let mut keys = UniqueKeys::new();
    let a = keys.next();
    let b = keys.next();

    assert_ne!(a, b, "each widget instance must get its own identity");
    assert_ne!(a, at(98, 19), "and never collides with a call site");
}

#[test]
fn site_hash_is_fnv_1a_over_the_path_then_line_then_column() {
    let mut h = FNV_OFFSET;
    for b in "ab".bytes() {
        h = (h ^ u64::from(b)).wrapping_mul(FNV_PRIME);
    }
    h = (h ^ 3).wrapping_mul(FNV_PRIME);
    h = (h ^ 4).wrapping_mul(FNV_PRIME);
    assert_eq!(site_hash("ab", 3, 4), h);
    assert_eq!(
        site_hash("", 0, 0),
        FNV_OFFSET.wrapping_mul(FNV_PRIME).wrapping_mul(FNV_PRIME)
    );
}

#[test]
fn unique_spreads_the_ordinal_across_the_key_space() {
    assert_eq!(
        MotionKey::unique(1).raw(),
        (1 ^ FNV_OFFSET).wrapping_mul(FNV_PRIME)
    );
    assert_eq!(MotionKey::from_raw(5).salted(3).raw(), (5u64 ^ 3).wrapping_mul(FNV_PRIME));
}

#[test]
fn sites_differing_in_one_coordinate_never_collide() {
    assert_ne!(site_hash("app::view", 3, 4), site_hash("app::view", 3, 5));
    assert_ne!(site_hash("app::view", 3, 4), site_hash("app::view", 4, 4));
    assert_eq!(site_hash("app::view", 3, 4), site_hash("app::view", 3, 4));
}

#[test]
fn the_allocator_hands_out_the_ordinals_in_turn() {
    let mut keys = UniqueKeys::new();
    assert!(keys.can_issue());
    let a = keys.next();
    let b = keys.next();
    assert_eq!(a, MotionKey::unique(1));
    assert_eq!(b, MotionKey::unique(2));
    assert_ne!(a, b);
}

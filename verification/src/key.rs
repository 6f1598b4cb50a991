//! Stable identities for animation tracks.

use std::collections::hash_map::DefaultHasher;
use std::hash::{Hash, Hasher};
use vstd::prelude::*;
use vstd::std_specs::hash::DefaultHasherAdditionalSpecFns;
use vstd::string::StringSliceAdditionalSpecFns;

verus! {

/// Offset basis of the 64-bit FNV-1a hash.
pub const FNV_OFFSET: u64 = 0xcbf2_9ce4_8422_2325;

/// Prime of the 64-bit FNV-1a hash.
pub const FNV_PRIME: u64 = 0x0000_0100_0000_01b3;

/// One FNV-1a step: xor in `value`, then multiply by the prime modulo 2^64.
pub open spec fn fnv_step(hash: u64, value: u64) -> u64 {
    vstd::wrapping::u64_specs::wrapping_mul(hash ^ value, FNV_PRIME)
}

/// FNV-1a over `bytes`, starting from the offset basis.
pub open spec fn fnv_bytes(bytes: Seq<u8>) -> u64
    decreases bytes.len(),
{
    if bytes.len() == 0 {
        FNV_OFFSET
    } else {
        fnv_step(fnv_bytes(bytes.drop_last()), bytes.last() as u64)
    }
}

/// The call-site salt of a source location: FNV-1a over the module path's
/// UTF-8 bytes, then the line, then the column.
pub open spec fn site_hash_spec(module: Seq<u8>, line: u32, column: u32) -> u64 {
    fnv_step(fnv_step(fnv_bytes(module), line as u64), column as u64)
}

/// Hashes a source location into a call-site salt.
pub fn site_hash(module: &str, line: u32, column: u32) -> (hash: u64)
    ensures
        hash == site_hash_spec(module.spec_bytes(), line, column),
{
    let bytes = module.as_bytes();
    let mut hash: u64 = FNV_OFFSET;
    let mut i: usize = 0;
    while i < bytes.len()
        invariant
            bytes@ == module.spec_bytes(),
            i <= bytes@.len(),
            hash == fnv_bytes(bytes@.take(i as int)),
        decreases bytes@.len() - i,
    {
        assert(bytes@.take(i + 1).drop_last() =~= bytes@.take(i as int));
        hash = (hash ^ (bytes[i] as u64)).wrapping_mul(FNV_PRIME);
        i = i + 1;
    }
    assert(bytes@.take(i as int) =~= bytes@);
    hash = (hash ^ (line as u64)).wrapping_mul(FNV_PRIME);
    hash = (hash ^ (column as u64)).wrapping_mul(FNV_PRIME);
    hash
}

/// Multiplying by the FNV prime modulo 2^64 loses nothing: the prime is
/// odd, so it has an inverse modulo 2^64.
proof fn lemma_prime_product_injective(a: u64, b: u64)
    requires
        vstd::wrapping::u64_specs::wrapping_mul(a, FNV_PRIME)
            == vstd::wrapping::u64_specs::wrapping_mul(b, FNV_PRIME),
    ensures
        a == b,
{
    assert((a * 0x100000001b3u64) % 0x10000000000000000 == (b * 0x100000001b3u64)
        % 0x10000000000000000 ==> a == b) by (bit_vector);
}

/// One FNV step keeps its inputs apart: for a fixed hash, different values
/// give different results, and for a fixed value, different hashes do.
pub proof fn law_fnv_step_injective(h1: u64, v1: u64, h2: u64, v2: u64)
    ensures
        h1 == h2 && v1 != v2 ==> fnv_step(h1, v1) != fnv_step(h2, v2),
        v1 == v2 && h1 != h2 ==> fnv_step(h1, v1) != fnv_step(h2, v2),
{
    if fnv_step(h1, v1) == fnv_step(h2, v2) {
        lemma_prime_product_injective(h1 ^ v1, h2 ^ v2);
        assert((h1 ^ v1) == (h2 ^ v2) && h1 == h2 ==> v1 == v2) by (bit_vector);
        assert((h1 ^ v1) == (h2 ^ v2) && v1 == v2 ==> h1 == h2) by (bit_vector);
    }
}

/// Two call sites of one module never collide when they differ in only one
/// coordinate: on one line at two columns, or at one column on two lines.
pub proof fn law_sites_of_one_module_are_distinct(
    module: Seq<u8>,
    line1: u32,
    column1: u32,
    line2: u32,
    column2: u32,
)
    requires
        (line1 == line2 && column1 != column2) || (line1 != line2 && column1 == column2),
    ensures
        site_hash_spec(module, line1, column1) != site_hash_spec(module, line2, column2),
{
    let base = fnv_bytes(module);
    law_fnv_step_injective(base, line1 as u64, base, line2 as u64);
    law_fnv_step_injective(
        fnv_step(base, line1 as u64),
        column1 as u64,
        fnv_step(base, line2 as u64),
        column2 as u64,
    );
}

/// Unique keys never repeat: two different ordinals give two different keys.
pub proof fn law_unique_keys_are_distinct(a: u64, b: u64)
    requires
        a != b,
    ensures
        fnv_step(a, FNV_OFFSET) != fnv_step(b, FNV_OFFSET),
{
    law_fnv_step_injective(a, FNV_OFFSET, b, FNV_OFFSET);
    assert((a ^ FNV_OFFSET) == (b ^ FNV_OFFSET) ==> a == b) by (bit_vector);
    if fnv_step(a, FNV_OFFSET) == fnv_step(b, FNV_OFFSET) {
        lemma_prime_product_injective(a ^ FNV_OFFSET, b ^ FNV_OFFSET);
    }
}

/// Salting is stable and separates salts: one key salted twice alike gives
/// one sub-key, and two different salts give two different sub-keys.
pub proof fn law_salts_separate_keys(key: u64, s1: u64, s2: u64)
    ensures
        s1 == s2 <==> fnv_step(key, s1) == fnv_step(key, s2),
{
    law_fnv_step_injective(key, s1, key, s2);
}

/// Whether `bytes` are the eight bytes of `value` in one of the two byte
/// orders: the machine's own order is the one `to_ne_bytes` uses.
pub open spec fn native_bytes(value: u64, bytes: Seq<u8>) -> bool {
    bytes == vstd::bytes::spec_u64_to_le_bytes(value) || bytes
        == vstd::bytes::spec_u64_to_le_bytes(value).reverse()
}

/// Feeds `value` into `hasher` through its `Hash` impl (`Hash::hash`).
/// The impl is handed a generic `H: Hasher` that it can neither build nor
/// replace, so it can only add writes after those already made: what was
/// written before stays a prefix. What it adds depends on the impl and is
/// not claimed.
#[verifier::external_body]
fn hash_into<D: Hash + ?Sized>(value: &D, hasher: &mut DefaultHasher)
    ensures
        old(hasher)@.is_prefix_of(final(hasher)@),
{
    value.hash(hasher)
}

/// Feeds a `u64` into `hasher` through `u64`'s `Hash` impl, which calls
/// `Hasher::write_u64`; `DefaultHasher` keeps the provided `write_u64`,
/// which makes one `write` of `to_ne_bytes()`. The claim is that exactly
/// one write of the value's eight bytes, in the machine's byte order, is
/// added; which order that is depends on the machine and is left open.
#[verifier::external_body]
fn hash_u64_into(value: &u64, hasher: &mut DefaultHasher)
    ensures
        final(hasher)@ == old(hasher)@.push(final(hasher)@.last()),
        native_bytes(*value, final(hasher)@.last()),
{
    value.hash(hasher)
}

/// The address of an animation track within a motion engine.
#[derive(Debug, Clone, Copy, PartialEq, Eq, Hash)]
pub struct MotionKey(u64);

impl View for MotionKey {
    type V = u64;

    /// The raw hash behind the key.
    closed spec fn view(&self) -> u64 {
        self.0
    }
}

impl MotionKey {
    /// Wraps a precomputed hash.
    pub fn from_raw(raw: u64) -> (key: Self)
        ensures
            key@ == raw,
    {
        MotionKey(raw)
    }

    /// Returns the raw hash behind this key.
    pub fn raw(self) -> (raw: u64)
        ensures
            raw == self@,
    {
        self.0
    }

    /// Mixes a runtime discriminator into the key: the key and then the
    /// discriminator are fed to the standard hasher, so a `&String` and a
    /// `&str` with the same text produce the same key. The new key is the
    /// standard hasher's digest of a stream of writes that starts with the
    /// key's eight bytes; what the discriminator writes after them is up to
    /// its `Hash` impl.
    pub fn with<D: Hash + ?Sized>(self, discriminator: &D) -> (key: Self)
        ensures
            exists|first: Seq<u8>, rest: Seq<Seq<u8>>|
                native_bytes(self@, first) && key@ == DefaultHasher::spec_finish(
                    seq![first] + rest,
                ),
    {
        let mut hasher = DefaultHasher::new();
        hash_u64_into(&self.0, &mut hasher);
        let ghost keyed = hasher@;
        hash_into(discriminator, &mut hasher);
        let digest = hasher.finish();
        proof {
            let first = keyed[0];
            let rest = hasher@.skip(1);
            assert(keyed.len() == 1);
            assert(keyed.is_prefix_of(hasher@));
            assert(hasher@[0] == first);
            assert(seq![first] + rest =~= hasher@);
        }
        MotionKey(digest)
    }

    /// The process-unique key numbered `ordinal`: the ordinal spread across
    /// the key space (xor with the offset basis, then times the prime), so a
    /// collision with a hashed key is as unlikely as one between two hashed
    /// keys. The host hands out each ordinal once, counting from 1.
    pub fn unique(ordinal: u64) -> (key: Self)
        ensures
            key@ == fnv_step(ordinal, FNV_OFFSET),
    {
        MotionKey((ordinal ^ FNV_OFFSET).wrapping_mul(FNV_PRIME))
    }

    /// Derives a stable sub-key by mixing in a compile-time salt.
    pub fn salted(self, salt: u64) -> (key: Self)
        ensures
            key@ == fnv_step(self@, salt),
    {
        MotionKey((self.0 ^ salt).wrapping_mul(FNV_PRIME))
    }
}

/// The keys handed out before ordinal `next`: those of the ordinals
/// `1..next`.
pub open spec fn issued_before(next: u64) -> Set<u64> {
    Set::new(|k: u64| exists|o: u64| 1 <= o < next && #[trigger] fnv_step(o, FNV_OFFSET) == k)
}

/// Hands out process-unique keys, for animation state that belongs to the
/// widget tree rather than to the application: the keys of the ordinals
/// 1, 2, 3, … in turn.
#[derive(Debug)]
pub struct UniqueKeys {
    next: u64,
}

impl UniqueKeys {
    /// The ordinal of the next key.
    pub closed spec fn next_ordinal(&self) -> u64 {
        self.next
    }

    /// Every key handed out so far.
    pub open spec fn issued(&self) -> Set<u64> {
        issued_before(self.next_ordinal())
    }

    /// Nothing handed out yet; the first key is that of ordinal 1.
    pub fn new() -> (keys: Self)
        ensures
            keys.next_ordinal() == 1,
            keys.issued() == Set::<u64>::empty(),
    {
        let keys = UniqueKeys { next: 1 };
        assert(keys.issued() =~= Set::<u64>::empty());
        keys
    }

    /// Whether another key can be handed out: the ordinals are not used up.
    pub fn can_issue(&self) -> (ok: bool)
        ensures
            ok == (self.next_ordinal() < u64::MAX),
    {
        self.next < u64::MAX
    }

    /// The next process-unique key: never one handed out before.
    pub fn next(&mut self) -> (key: MotionKey)
        requires
            1 <= old(self).next_ordinal() < u64::MAX,
        ensures
            key@ == fnv_step(old(self).next_ordinal(), FNV_OFFSET),
            !old(self).issued().contains(key@),
            final(self).next_ordinal() == old(self).next_ordinal() + 1,
            final(self).issued() == old(self).issued().insert(key@),
    {
        let ordinal = self.next;
        let key = MotionKey::unique(ordinal);
        self.next = ordinal + 1;
        proof {
            let pre = issued_before(ordinal);
            if pre.contains(key@) {
                let o = choose|o: u64| 1 <= o < ordinal && #[trigger] fnv_step(o, FNV_OFFSET)
                    == key@;
                law_unique_keys_are_distinct(o, ordinal);
            }
            assert forall|k: u64| #[trigger] issued_before(self.next).contains(k) == pre.insert(
                key@,
            ).contains(k) by {
                if issued_before(self.next).contains(k) {
                    let o = choose|o: u64| 1 <= o < self.next && #[trigger] fnv_step(o, FNV_OFFSET)
                        == k;
                    if o < ordinal {
                        assert(pre.contains(k));
                    }
                }
                if pre.contains(k) {
                    let o = choose|o: u64| 1 <= o < ordinal && #[trigger] fnv_step(o, FNV_OFFSET)
                        == k;
                    assert(1 <= o < self.next);
                }
                if k == key@ {
                    assert(1 <= ordinal < self.next && fnv_step(ordinal, FNV_OFFSET) == k);
                }
            }
            assert(issued_before(self.next) =~= pre.insert(key@));
        }
        key
    }
}

} // verus!

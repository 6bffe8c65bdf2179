//! FNV-1a hashing over the two mounted input files.
//!
//! Operation `a` proves that both input files were really read by folding
//! their bytes into one 64-bit FNV-1a hash: the deploy contents first, the
//! execute contents on top of the resulting state.

use vstd::prelude::*;
use vstd::arithmetic::div_mod::lemma_mul_mod_noop_left;
use vstd::arithmetic::div_mod::lemma_mul_mod_noop_right;
use vstd::arithmetic::div_mod::lemma_small_mod;
use vstd::arithmetic::mul::lemma_mul_is_associative;

verus! {

/// The 64-bit FNV-1a offset basis, the hash state before any byte is folded in.
pub const FNV_OFFSET_BASIS: u64 = 0xcbf2_9ce4_8422_2325;

/// The 64-bit FNV-1a prime.
pub const FNV_PRIME: u64 = 0x100_0000_01b3;

/// One FNV-1a step: fold one byte into the running hash state.
pub open spec fn fnv_step(h: u64, b: u8) -> u64 {
    (h ^ (b as u64)).wrapping_mul(FNV_PRIME)
}

/// FNV-1a over a whole byte sequence, starting from hash state `h`.
pub open spec fn fnv_fold(h: u64, s: Seq<u8>) -> u64
    decreases s.len(),
{
    if s.len() == 0 {
        h
    } else {
        fnv_fold(fnv_step(h, s[0]), s.subrange(1, s.len() as int))
    }
}

/// The hash operation `a` computes over the two input files: FNV-1a over the
/// deploy bytes, continued over the execute bytes.
pub open spec fn combined_hash_spec(deploy: Seq<u8>, execute: Seq<u8>) -> u64 {
    fnv_fold(fnv_fold(FNV_OFFSET_BASIS, deploy), execute)
}

/// Folds every byte of `bytes` into the hash state `h`, front to back.
fn fnv_update(h: u64, bytes: &Vec<u8>) -> (r: u64)
    ensures
        r == fnv_fold(h, bytes@),
{
    let ghost s = bytes@;
    proof {
        assert(s.subrange(0, s.len() as int) =~= s);
    }
    let mut acc = h;
    let mut i: usize = 0;
    while i < bytes.len()
        invariant
            i <= s.len(),
            bytes@ == s,
            fnv_fold(acc, s.subrange(i as int, s.len() as int)) == fnv_fold(h, s),
        decreases s.len() - i,
    {
        proof {
            let tail = s.subrange(i as int, s.len() as int);
            assert(tail[0] == s[i as int]);
            assert(tail.subrange(1, tail.len() as int) =~= s.subrange(
                i as int + 1,
                s.len() as int,
            ));
        }
        acc = (acc ^ (bytes[i] as u64)).wrapping_mul(FNV_PRIME);
        i = i + 1;
    }
    proof {
        assert(s.subrange(s.len() as int, s.len() as int) =~= Seq::<u8>::empty());
    }
    acc
}

/// Multiplicative inverse of `FNV_PRIME` modulo 2^64; used only in proofs.
const FNV_PRIME_INVERSE: u64 = 0xce96_5057_aff6_957b;

/// Multiplying by the inverse undoes the modular multiplication by the prime.
proof fn lemma_mod_mul_inverse(x: int)
    requires
        0 <= x < 0x1_0000_0000_0000_0000,
    ensures
        (((x * (FNV_PRIME as int)) % 0x1_0000_0000_0000_0000) * (FNV_PRIME_INVERSE as int))
            % 0x1_0000_0000_0000_0000 == x,
{
    let m: int = 0x1_0000_0000_0000_0000;
    let p: int = FNV_PRIME as int;
    let q: int = FNV_PRIME_INVERSE as int;
    assert((p * q) % m == 1);
    lemma_mul_mod_noop_left(x * p, q, m);
    lemma_mul_is_associative(x, p, q);
    lemma_mul_mod_noop_right(x, p * q, m);
    lemma_small_mod(x as nat, m as nat);
}

/// Wrapping multiplication by the odd `FNV_PRIME` loses no information.
proof fn lemma_wrapping_mul_by_prime_injective(x1: u64, x2: u64)
    requires
        x1.wrapping_mul(FNV_PRIME) == x2.wrapping_mul(FNV_PRIME),
    ensures
        x1 == x2,
{
    let m: int = 0x1_0000_0000_0000_0000;
    let p: int = FNV_PRIME as int;
    let q: int = FNV_PRIME_INVERSE as int;
    let y1: int = (x1 as int * p) % m;
    let y2: int = (x2 as int * p) % m;
    assert(y1 == y2);
    lemma_mod_mul_inverse(x1 as int);
    lemma_mod_mul_inverse(x2 as int);
    assert(x1 as int == (y1 * q) % m);
    assert(x2 as int == (y2 * q) % m);
}

/// Folding the same byte into two different hash states keeps them different.
proof fn lemma_fnv_step_state_injective(h1: u64, h2: u64, b: u8)
    requires
        h1 != h2,
    ensures
        fnv_step(h1, b) != fnv_step(h2, b),
{
    if fnv_step(h1, b) == fnv_step(h2, b) {
        lemma_wrapping_mul_by_prime_injective(h1 ^ (b as u64), h2 ^ (b as u64));
        let u: u64 = b as u64;
        assert((h1 ^ u) == (h2 ^ u) ==> h1 == h2) by (bit_vector);
        assert(false);
    }
}

/// Folding two different bytes into the same hash state gives different results.
proof fn lemma_fnv_step_byte_injective(h: u64, b1: u8, b2: u8)
    requires
        b1 != b2,
    ensures
        fnv_step(h, b1) != fnv_step(h, b2),
{
    if fnv_step(h, b1) == fnv_step(h, b2) {
        lemma_wrapping_mul_by_prime_injective(h ^ (b1 as u64), h ^ (b2 as u64));
        let u1: u64 = b1 as u64;
        let u2: u64 = b2 as u64;
        assert((h ^ u1) == (h ^ u2) ==> u1 == u2) by (bit_vector);
        assert(false);
    }
}

/// Law: two different hash states stay different after both fold in the same
/// byte sequence.  In particular the execute contents can never mask a
/// difference the deploy contents have already made.
pub proof fn lemma_fnv_fold_injective(h1: u64, h2: u64, s: Seq<u8>)
    requires
        h1 != h2,
    ensures
        fnv_fold(h1, s) != fnv_fold(h2, s),
    decreases s.len(),
{
    if s.len() > 0 {
        lemma_fnv_step_state_injective(h1, h2, s[0]);
        lemma_fnv_fold_injective(
            fnv_step(h1, s[0]),
            fnv_step(h2, s[0]),
            s.subrange(1, s.len() as int),
        );
    }
}

/// Folding two sequences of equal length that differ in exactly one position
/// gives different hashes, from any starting state.
proof fn lemma_fold_one_change(h: u64, s1: Seq<u8>, s2: Seq<u8>, k: int)
    requires
        s1.len() == s2.len(),
        0 <= k < s1.len(),
        s1[k] != s2[k],
        forall|j: int| 0 <= j < s1.len() && j != k ==> s1[j] == s2[j],
    ensures
        fnv_fold(h, s1) != fnv_fold(h, s2),
    decreases k,
{
    let n = s1.len() as int;
    let t1 = s1.subrange(1, n);
    let t2 = s2.subrange(1, n);
    if k == 0 {
        lemma_fnv_step_byte_injective(h, s1[0], s2[0]);
        assert(t1 =~= t2);
        lemma_fnv_fold_injective(fnv_step(h, s1[0]), fnv_step(h, s2[0]), t1);
    } else {
        assert(s1[0] == s2[0]);
        assert(t1[k - 1] != t2[k - 1]);
        assert forall|j: int| 0 <= j < t1.len() && j != k - 1 implies t1[j] == t2[j] by {
            assert(t1[j] == s1[j + 1]);
            assert(t2[j] == s2[j + 1]);
        }
        lemma_fold_one_change(fnv_step(h, s1[0]), t1, t2, k - 1);
    }
}

/// Law: changing exactly one byte of the deploy contents, with their length
/// and the execute contents unchanged, changes the combined hash.
pub proof fn lemma_hash_sensitive_to_deploy_change(
    d1: Seq<u8>,
    d2: Seq<u8>,
    execute: Seq<u8>,
    k: int,
)
    requires
        d1.len() == d2.len(),
        0 <= k < d1.len(),
        d1[k] != d2[k],
        forall|j: int| 0 <= j < d1.len() && j != k ==> d1[j] == d2[j],
    ensures
        combined_hash_spec(d1, execute) != combined_hash_spec(d2, execute),
{
    lemma_fold_one_change(FNV_OFFSET_BASIS, d1, d2, k);
    lemma_fnv_fold_injective(
        fnv_fold(FNV_OFFSET_BASIS, d1),
        fnv_fold(FNV_OFFSET_BASIS, d2),
        execute,
    );
}

/// Law: changing exactly one byte of the execute contents, with their length
/// and the deploy contents unchanged, changes the combined hash.
pub proof fn lemma_hash_sensitive_to_execute_change(
    deploy: Seq<u8>,
    e1: Seq<u8>,
    e2: Seq<u8>,
    k: int,
)
    requires
        e1.len() == e2.len(),
        0 <= k < e1.len(),
        e1[k] != e2[k],
        forall|j: int| 0 <= j < e1.len() && j != k ==> e1[j] == e2[j],
    ensures
        combined_hash_spec(deploy, e1) != combined_hash_spec(deploy, e2),
{
    lemma_fold_one_change(fnv_fold(FNV_OFFSET_BASIS, deploy), e1, e2, k);
}

/// Hash over both input files, in the order operation `a` reads them.
pub fn combined_hash(deploy: &Vec<u8>, execute: &Vec<u8>) -> (r: u64)
    ensures
        r == combined_hash_spec(deploy@, execute@),
{
    let after_deploy = fnv_update(FNV_OFFSET_BASIS, deploy);
    fnv_update(after_deploy, execute)
}

} // verus!

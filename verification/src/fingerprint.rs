//! The fingerprint engine: a total, deterministic map from byte sequences to
//! 16-byte digests.
//!
//! The digest is an identity tag, not a commitment: nothing here claims
//! collision resistance. What is claimed is the exact value, bit for bit, so
//! that digests already written to storage stay comparable.
use vstd::prelude::*;

verus! {

/// Seed of the 64-bit rolling accumulator.
pub const ACC_SEED: u64 = 0xcbf29ce484222325;

/// Odd multiplier applied to the accumulator after each byte.
pub const ACC_PRIME: u64 = 0x100000001b3;

/// The digest before any byte is absorbed: position `i` holds `i`.
pub open spec fn initial_digest() -> Seq<u8> {
    Seq::new(16, |i: int| i as u8)
}

/// The accumulator after absorbing `b`: XOR the byte in, then multiply by
/// the prime, keeping the low 64 bits.
pub open spec fn next_acc(acc: u64, b: u8) -> u64 {
    (acc ^ (b as u64)).wrapping_mul(ACC_PRIME)
}

/// The digest after the accumulator `h` (already advanced over `b`) has been
/// scattered into `out`. With `i` the low four bits of `h`, position `i`
/// gains `b` (mod 256), and positions `i+1`, `i+3`, `i+7` (mod 16) are XORed
/// with bytes 1, 2 and 3 of `h`.
pub open spec fn scatter(out: Seq<u8>, h: u64, b: u8) -> Seq<u8> {
    let i = (h % 16) as int;
    let s0 = out.update(i, out[i].wrapping_add(b));
    let s1 = s0.update((i + 1) % 16, s0[(i + 1) % 16] ^ ((h >> 8) as u8));
    let s2 = s1.update((i + 3) % 16, s1[(i + 3) % 16] ^ ((h >> 16) as u8));
    s2.update((i + 7) % 16, s2[(i + 7) % 16] ^ ((h >> 24) as u8))
}

/// Accumulator and digest after absorbing all of `data`, left to right.
pub open spec fn mix(data: Seq<u8>) -> (u64, Seq<u8>)
    decreases data.len(),
{
    if data.len() == 0 {
        (ACC_SEED, initial_digest())
    } else {
        let prev = mix(data.drop_last());
        let h = next_acc(prev.0, data.last());
        (h, scatter(prev.1, h, data.last()))
    }
}

/// The fingerprint of a byte sequence.
pub open spec fn fingerprint(data: Seq<u8>) -> Seq<u8> {
    mix(data).1
}

/// Every fingerprint is exactly 16 bytes wide.
pub proof fn lemma_fingerprint_len(data: Seq<u8>)
    ensures
        fingerprint(data).len() == 16,
    decreases data.len(),
{
    if data.len() > 0 {
        lemma_fingerprint_len(data.drop_last());
    }
}

/// The empty input leaves the digest at its initial ramp 0, 1, ..., 15.
pub proof fn lemma_fingerprint_empty()
    ensures
        fingerprint(Seq::<u8>::empty()) == initial_digest(),
        forall|i: int| 0 <= i < 16 ==> fingerprint(Seq::<u8>::empty())[i] == i,
{
}

/// Absorbing one more byte depends only on the state reached so far: the
/// fingerprint of `data.push(b)` is one scatter step away from that of `data`.
pub proof fn lemma_fingerprint_push(data: Seq<u8>, b: u8)
    ensures
        mix(data.push(b)).0 == next_acc(mix(data).0, b),
        fingerprint(data.push(b)) == scatter(fingerprint(data), next_acc(mix(data).0, b), b),
{
    assert(data.push(b).drop_last() =~= data);
}

/// The fingerprint is a function of the bytes alone: digests computed from
/// equal byte sequences are equal.
pub proof fn lemma_equal_input_equal_digest(a: Seq<u8>, b: Seq<u8>, da: [u8; 16], db: [u8; 16])
    requires
        a =~= b,
        da@ == fingerprint(a),
        db@ == fingerprint(b),
    ensures
        da == db,
{
    assert(da@ =~= db@);
    vstd::array::axiom_array_ext_equal(da, db);
}

/// Computes the fingerprint of `data`.
///
/// Total over all byte slices, the empty one included, and a function of the
/// bytes alone: equal inputs give equal digests.
pub fn md5_hash(data: &[u8]) -> (digest: [u8; 16])
    ensures
        digest@ == fingerprint(data@),
        data@.len() == 0 ==> digest@ == initial_digest(),
{
    let mut result: [u8; 16] = [0u8; 16];
    let mut k: usize = 0;
    while k < 16
        invariant
            k <= 16,
            forall|j: int| 0 <= j < k ==> result@[j] == j as u8,
        decreases 16 - k,
    {
        result[k] = k as u8;
        k += 1;
    }
    assert(result@ =~= initial_digest());

    let mut hash: u64 = ACC_SEED;
    let mut n: usize = 0;
    while n < data.len()
        invariant
            n <= data.len(),
            mix(data@.take(n as int)) == (hash, result@),
        decreases data.len() - n,
    {
        let byte: u8 = data[n];
        let ghost before = result@;
        hash = (hash ^ (byte as u64)).wrapping_mul(ACC_PRIME);
        let idx: usize = (hash % 16) as usize;
        result[idx] = result[idx].wrapping_add(byte);
        let i1: usize = (idx + 1) % 16;
        result[i1] = result[i1] ^ (#[verifier::truncate] ((hash >> 8) as u8));
        let i3: usize = (idx + 3) % 16;
        result[i3] = result[i3] ^ (#[verifier::truncate] ((hash >> 16) as u8));
        let i7: usize = (idx + 7) % 16;
        result[i7] = result[i7] ^ (#[verifier::truncate] ((hash >> 24) as u8));
        proof {
            lemma_fingerprint_push(data@.take(n as int), byte);
            assert(data@.take(n as int).push(byte) =~= data@.take(n + 1));
            assert(result@ =~= scatter(before, hash, byte));
        }
        n += 1;
    }
    assert(data@.take(n as int) =~= data@);
    result
}

} // verus!

//! Proof-of-work arithmetic: the hash of a candidate block, how a hash is
//! compared with a difficulty target, and the miner's nonce counter.
use vstd::prelude::*;

verus! {

/// The BLAKE3 digest of `data` (32 bytes).
pub uninterp spec fn blake3_digest(data: Seq<u8>) -> Seq<u8>;

/// `blake3::hash`: the 32-byte BLAKE3 digest of the input.
#[verifier::external_body]
pub(crate) fn blake3_hash(data: &[u8]) -> (h: Vec<u8>)
    ensures
        h@ == blake3_digest(data@),
        h@.len() == 32,
{
    blake3::hash(data).as_bytes().to_vec()
}

/// The smaller of two lengths.
pub open spec fn min_len(a: int, b: int) -> int {
    if a <= b { a } else { b }
}

/// `hash` is below `target` on their common length: at the first position where
/// they differ within that length, `hash` has the smaller byte. Equal common
/// parts are not below.
pub open spec fn below_target(hash: Seq<u8>, target: Seq<u8>) -> bool {
    exists|i: int|
        0 <= i < min_len(hash.len() as int, target.len() as int) && hash[i] < target[i]
            && (forall|j: int| 0 <= j < i ==> hash[j] == target[j])
}

/// Whether `hash` is below `target` (the pool's difficulty test): compares byte by
/// byte over the common length, most significant first.
pub fn compare_hash_with_target(hash: &[u8], target: &[u8]) -> (valid: bool)
    ensures
        valid == below_target(hash@, target@),
{
    let n = if hash.len() < target.len() { hash.len() } else { target.len() };
    let mut i: usize = 0;
    while i < n
        invariant
            n == min_len(hash@.len() as int, target@.len() as int),
            i <= n,
            forall|j: int| 0 <= j < i ==> hash@[j] == target@[j],
        decreases n - i,
    {
        if hash[i] < target[i] {
            return true;
        }
        if hash[i] > target[i] {
            assert forall|k: int|
                0 <= k < min_len(hash@.len() as int, target@.len() as int) && hash@[k] < target@[k]
                implies !(forall|j: int| 0 <= j < k ==> hash@[j] == target@[j]) by {
                if k > i {
                    assert(hash@[i as int] != target@[i as int]);
                }
            }
            return false;
        }
        i = i + 1;
    }
    false
}

/// The `n` little-endian bytes of `v` (modulo `256^n`).
pub open spec fn le_bytes(v: nat, n: nat) -> Seq<u8>
    decreases n,
{
    if n == 0 {
        Seq::empty()
    } else {
        seq![(v % 256) as u8] + le_bytes(v / 256, (n - 1) as nat)
    }
}

/// `u64::to_le_bytes`.
pub fn u64_le_bytes(v: u64) -> (b: Vec<u8>)
    ensures
        b@ == le_bytes(v as nat, 8),
{
    let mut b: Vec<u8> = Vec::new();
    let mut x: u64 = v;
    let mut i: usize = 0;
    while i < 8
        invariant
            i <= 8,
            b@ + le_bytes(x as nat, (8 - i) as nat) == le_bytes(v as nat, 8),
        decreases 8 - i,
    {
        let ghost old_b = b@;
        b.push((x % 256) as u8);
        assert(le_bytes(x as nat, (8 - i) as nat) == seq![(x % 256) as u8] + le_bytes(
            (x / 256) as nat,
            (8 - i - 1) as nat,
        ));
        assert(old_b + le_bytes(x as nat, (8 - i) as nat) =~= b@ + le_bytes(
            (x / 256) as nat,
            (8 - i - 1) as nat,
        ));
        x = x / 256;
        i = i + 1;
    }
    assert(b@ + le_bytes(x as nat, 0) =~= b@);
    b
}

/// The bytes the pool hashes to check a submitted nonce: parent hash, merkle root,
/// little-endian timestamp, nonce.
pub open spec fn block_header(parent_hash: Seq<u8>, merkle_root: Seq<u8>, timestamp: u64, nonce: Seq<u8>) -> Seq<u8> {
    parent_hash + merkle_root + le_bytes(timestamp as nat, 8) + nonce
}

fn append_bytes(v: &mut Vec<u8>, s: &[u8])
    ensures
        final(v)@ == old(v)@ + s@,
{
    let mut i: usize = 0;
    while i < s.len()
        invariant
            i <= s.len(),
            v@ == old(v)@ + s@.take(i as int),
        decreases s.len() - i,
    {
        v.push(s[i]);
        assert(s@.take(i + 1) =~= s@.take(i as int).push(s@[i as int]));
        i = i + 1;
    }
    assert(s@.take(s.len() as int) =~= s@);
}

/// The block header for a nonce submitted against a work order.
pub fn build_block_header(parent_hash: &[u8], merkle_root: &[u8], timestamp: u64, nonce: &[u8]) -> (h: Vec<u8>)
    ensures
        h@ == block_header(parent_hash@, merkle_root@, timestamp, nonce@),
{
    let ts = u64_le_bytes(timestamp);
    let mut h: Vec<u8> = Vec::new();
    append_bytes(&mut h, parent_hash);
    append_bytes(&mut h, merkle_root);
    append_bytes(&mut h, ts.as_slice());
    append_bytes(&mut h, nonce);
    assert(h@ =~= block_header(parent_hash@, merkle_root@, timestamp, nonce@));
    h
}

/// The hash of the block header for a nonce.
pub fn block_hash(parent_hash: &[u8], merkle_root: &[u8], timestamp: u64, nonce: &[u8]) -> (h: Vec<u8>)
    ensures
        h@ == blake3_digest(block_header(parent_hash@, merkle_root@, timestamp, nonce@)),
        h@.len() == 32,
{
    let header = build_block_header(parent_hash, merkle_root, timestamp, nonce);
    blake3_hash(header.as_slice())
}

/// A nonce meets a work order: the BLAKE3 hash of the block header it makes with
/// the order's parent hash, merkle root and timestamp is below the target.
pub open spec fn nonce_meets(parent_hash: Seq<u8>, merkle_root: Seq<u8>, timestamp: u64, nonce: Seq<u8>, target: Seq<u8>) -> bool {
    below_target(blake3_digest(block_header(parent_hash, merkle_root, timestamp, nonce)), target)
}

/// Whether a nonce solves a work order, judged as the pool judges it: the hash of
/// the block header (parent hash, merkle root, little-endian timestamp, nonce) is
/// below the difficulty target.
pub fn nonce_solves(parent_hash: &[u8], merkle_root: &[u8], timestamp: u64, nonce: &[u8], difficulty_target: &[u8]) -> (r: bool)
    ensures
        r == nonce_meets(parent_hash@, merkle_root@, timestamp, nonce@, difficulty_target@),
        blake3_digest(block_header(parent_hash@, merkle_root@, timestamp, nonce@)).len() == 32,
{
    let hash = block_hash(parent_hash, merkle_root, timestamp, nonce);
    compare_hash_with_target(hash.as_slice(), difficulty_target)
}

/// Length of the miner's nonce counter.
pub const NONCE_LEN: usize = 32;

/// The nonce a mining thread starts from: its index (truncated to a byte) in the
/// first byte, zeros elsewhere.
pub fn initial_nonce(thread_index: u32) -> (n: Vec<u8>)
    ensures
        n@.len() == 32,
        n@[0] == (thread_index % 256) as u8,
        forall|j: int| 1 <= j < 32 ==> n@[j] == 0,
{
    let mut n: Vec<u8> = Vec::new();
    n.push((thread_index % 256) as u8);
    let mut i: usize = 1;
    while i < NONCE_LEN
        invariant
            1 <= i <= 32,
            n@.len() == i,
            n@[0] == (thread_index % 256) as u8,
            forall|j: int| 1 <= j < i ==> n@[j] == 0,
        decreases 32 - i,
    {
        n.push(0);
        i = i + 1;
    }
    n
}

/// The nonce after `n`: a little-endian increment with carry, wrapping to zero
/// after all bytes are 255. Bytes below the first byte that is not 255 become 0,
/// that byte grows by one, the rest stay.
pub open spec fn next_nonce_spec(n: Seq<u8>) -> Seq<u8> {
    Seq::new(n.len(), |j: int|
        if (forall|k: int| 0 <= k < j ==> n[k] == 255) {
            if n[j] == 255 { 0u8 } else { (n[j] + 1) as u8 }
        } else {
            n[j]
        })
}

/// Advances the miner's nonce counter by one.
pub fn next_nonce(nonce: &mut Vec<u8>)
    ensures
        final(nonce)@ == next_nonce_spec(old(nonce)@),
{
    let ghost n0 = nonce@;
    let len = nonce.len();
    let mut i: usize = 0;
    while i < len
        invariant
            len == nonce@.len(),
            len == n0.len(),
            n0 == old(nonce)@,
            i <= len,
            forall|k: int| 0 <= k < i ==> n0[k] == 255 && nonce@[k] == 0,
            forall|k: int| i <= k < len ==> nonce@[k] == n0[k],
        decreases len - i,
    {
        let b = nonce[i];
        let nb: u8 = if b == 255 { 0 } else { b + 1 };
        nonce.set(i, nb);
        if nb != 0 {
            assert(nonce@ =~= next_nonce_spec(n0)) by {
                assert forall|j: int| 0 <= j < len implies nonce@[j] == next_nonce_spec(n0)[j] by {
                    if j < i {
                        assert(forall|k: int| 0 <= k < j ==> n0[k] == 255);
                    } else if j == i {
                        assert(forall|k: int| 0 <= k < j ==> n0[k] == 255);
                    } else {
                        assert(n0[i as int] != 255);
                        assert(!(forall|k: int| 0 <= k < j ==> n0[k] == 255));
                    }
                }
            }
            return;
        }
        i = i + 1;
    }
    assert(nonce@ =~= next_nonce_spec(n0));
}

/// Being below the target is strict: a hash is never below itself, and of two
/// byte strings at most one is below the other.
pub proof fn below_target_is_strict(h: Seq<u8>, t: Seq<u8>)
    ensures
        below_target(h, t) ==> !below_target(t, h),
        !below_target(h, h),
{
    if below_target(h, t) && below_target(t, h) {
        let i = choose|i: int|
            0 <= i < min_len(h.len() as int, t.len() as int) && h[i] < t[i]
                && (forall|j: int| 0 <= j < i ==> h[j] == t[j]);
        let k = choose|k: int|
            0 <= k < min_len(t.len() as int, h.len() as int) && t[k] < h[k]
                && (forall|j: int| 0 <= j < k ==> t[j] == h[j]);
        if i < k {
            assert(t[i] == h[i]);
        } else if k < i {
            assert(h[k] == t[k]);
        }
    }
}

/// The pool's difficulty test is decided by the first byte, within the common
/// length of hash and target, where the two differ: a smaller hash byte there
/// means the hash is below the target and a larger one that it is not, whatever
/// the two lengths are; when the common parts are equal it is not below. So
/// the test only reads the common part.
pub proof fn below_target_is_decided_by_first_difference(h: Seq<u8>, t: Seq<u8>, i: int)
    ensures
        ({
            let m = if h.len() <= t.len() { h.len() as int } else { t.len() as int };
            &&& (0 <= i < m && (forall|j: int| 0 <= j < i ==> h[j] == t[j]) && h[i] < t[i]) ==> below_target(h, t)
            &&& (0 <= i < m && (forall|j: int| 0 <= j < i ==> h[j] == t[j]) && h[i] > t[i]) ==> !below_target(h, t)
            &&& (forall|j: int| 0 <= j < m ==> h[j] == t[j]) ==> !below_target(h, t)
            &&& below_target(h, t) == below_target(h.take(m), t.take(m))
        }),
{
    let m = if h.len() <= t.len() { h.len() as int } else { t.len() as int };
    if 0 <= i < m && (forall|j: int| 0 <= j < i ==> h[j] == t[j]) && h[i] > t[i] {
        if below_target(h, t) {
            let k = choose|k: int|
                0 <= k < min_len(h.len() as int, t.len() as int) && h[k] < t[k]
                    && (forall|j: int| 0 <= j < k ==> h[j] == t[j]);
            if k < i {
                assert(h[k] == t[k]);
            } else if k > i {
                assert(h[i] == t[i]);
            }
        }
    }
    let hm = h.take(m);
    let tm = t.take(m);
    if below_target(h, t) {
        let k = choose|k: int|
            0 <= k < min_len(h.len() as int, t.len() as int) && h[k] < t[k]
                && (forall|j: int| 0 <= j < k ==> h[j] == t[j]);
        assert(hm[k] == h[k] && tm[k] == t[k]);
        assert(forall|j: int| 0 <= j < k ==> hm[j] == tm[j]);
        assert(below_target(hm, tm));
    }
    if below_target(hm, tm) {
        let k = choose|k: int|
            0 <= k < min_len(hm.len() as int, tm.len() as int) && hm[k] < tm[k]
                && (forall|j: int| 0 <= j < k ==> hm[j] == tm[j]);
        assert(hm[k] == h[k] && tm[k] == t[k]);
        assert(forall|j: int| 0 <= j < k ==> h[j] == t[j]) by {
            assert forall|j: int| 0 <= j < k implies h[j] == t[j] by {
                assert(hm[j] == tm[j]);
            }
        }
        assert(below_target(h, t));
    }
}

/// The value of little-endian bytes.
pub open spec fn le_value(b: Seq<u8>) -> nat
    decreases b.len(),
{
    if b.len() == 0 {
        0
    } else {
        (b[0] + 256 * le_value(b.drop_first())) as nat
    }
}

/// `256^n`.
pub open spec fn pow256(n: nat) -> nat
    decreases n,
{
    if n == 0 { 1 } else { 256 * pow256((n - 1) as nat) }
}

proof fn lemma_le_value_below(b: Seq<u8>)
    ensures
        le_value(b) < pow256(b.len()),
    decreases b.len(),
{
    if b.len() > 0 {
        lemma_le_value_below(b.drop_first());
    }
}

/// The miner's nonce counter counts: read as a little-endian number, the next
/// nonce is one more than the nonce, wrapping to zero past the largest value of
/// its length.
pub proof fn next_nonce_counts_up(n: Seq<u8>)
    ensures
        le_value(next_nonce_spec(n)) == (le_value(n) + 1) % pow256(n.len()),
    decreases n.len(),
{
    let m = next_nonce_spec(n);
    if n.len() == 0 {
        assert(pow256(0) == 1);
        assert(m.len() == 0);
        vstd::arithmetic::div_mod::lemma_mod_self_0(1);
    } else {
        let rest = n.drop_first();
        let p = pow256(rest.len());
        assert(pow256(n.len()) == 256 * p);
        lemma_le_value_below(rest);
        if n[0] == 255 {
            next_nonce_counts_up(rest);
            assert(m.drop_first() =~= next_nonce_spec(rest)) by {
                assert forall|j: int| 0 <= j < rest.len() implies m.drop_first()[j] == next_nonce_spec(rest)[j] by {
                    if forall|k: int| 0 <= k < j ==> rest[k] == 255 {
                        assert forall|k: int| 0 <= k < j + 1 implies n[k] == 255 by {
                            if k > 0 {
                                assert(n[k] == rest[k - 1]);
                            }
                        }
                    } else {
                        let k0 = choose|k: int| 0 <= k < j && rest[k] != 255;
                        assert(n[k0 + 1] != 255);
                    }
                }
            }
            assert(m[0] == 0);
            let y = le_value(rest) + 1;
            assert(le_value(n) + 1 == 256 * y);
            assert(le_value(m) == 256 * le_value(next_nonce_spec(rest)));
            if y < p {
                vstd::arithmetic::div_mod::lemma_small_mod(y as nat, p as nat);
                vstd::arithmetic::div_mod::lemma_small_mod((256 * y) as nat, (256 * p) as nat);
            } else {
                assert(y == p);
                vstd::arithmetic::div_mod::lemma_mod_self_0(p as int);
                vstd::arithmetic::div_mod::lemma_mod_self_0((256 * p) as int);
            }
        } else {
            assert(m.drop_first() =~= rest) by {
                assert forall|j: int| 0 <= j < rest.len() implies m.drop_first()[j] == rest[j] by {
                    assert(!(forall|k: int| 0 <= k < j + 1 ==> n[k] == 255));
                }
            }
            assert(m[0] == n[0] + 1);
            assert(le_value(m) == le_value(n) + 1);
            assert(le_value(n) + 1 < 256 * p);
            vstd::arithmetic::div_mod::lemma_small_mod((le_value(n) + 1) as nat, (256 * p) as nat);
        }
    }
}

} // verus!

//! Merkle commitments to (holder, rights amount) pairs, hashed with SHA-256 and
//! domain-separated: leaves start with byte 0x00, inner nodes with byte 0x01, and the
//! two children of a node are ordered so that the smaller one comes first.
use vstd::prelude::*;
use crate::keys::Pubkey;
use sha2::Digest;

verus! {

/// The SHA-256 digest of a byte string.
pub uninterp spec fn sha256_spec(data: Seq<u8>) -> Seq<u8>;

/// `sha2::Sha256::digest`: the SHA-256 digest of `data`. Trusted to be a function of
/// the bytes alone; nothing else about SHA-256 is stated.
#[verifier::external_body]
fn sha256_digest(data: &[u8]) -> (digest: [u8; 32])
    ensures
        digest@ == sha256_spec(data@),
{
    sha2::Sha256::digest(data).into()
}

/// The little-endian bytes of `x`, least significant first.
pub open spec fn le_bytes(x: u64) -> Seq<u8> {
    Seq::new(8, |i: int| (x >> ((8 * i) as u64)) as u8)
}

/// Lexicographic order on byte strings, the order of Rust's `<=` on byte arrays.
pub open spec fn lex_le(a: Seq<u8>, b: Seq<u8>) -> bool
    decreases a.len(),
{
    if a.len() == 0 {
        true
    } else if b.len() == 0 {
        false
    } else if a[0] < b[0] {
        true
    } else if a[0] > b[0] {
        false
    } else {
        lex_le(a.drop_first(), b.drop_first())
    }
}

/// The bytes hashed for a leaf: 0x00, the holder's address, the amount in little endian.
pub open spec fn leaf_preimage_spec(holder: Pubkey, rights_amount: u64) -> Seq<u8> {
    seq![0u8] + holder@ + le_bytes(rights_amount)
}

/// The bytes hashed for an inner node: 0x01, then the smaller child, then the other.
pub open spec fn node_preimage_spec(a: Seq<u8>, b: Seq<u8>) -> Seq<u8> {
    if lex_le(a, b) {
        seq![1u8] + a + b
    } else {
        seq![1u8] + b + a
    }
}

/// The leaf that commits to `rights_amount` rights for `holder`.
pub open spec fn leaf_hash(holder: Pubkey, rights_amount: u64) -> Seq<u8> {
    sha256_spec(leaf_preimage_spec(holder, rights_amount))
}

/// The root reached from `leaf` by hashing it with each sibling of `proof` in turn.
pub open spec fn merkle_fold(leaf: Seq<u8>, proof: Seq<[u8; 32]>) -> Seq<u8>
    decreases proof.len(),
{
    if proof.len() == 0 {
        leaf
    } else {
        sha256_spec(node_preimage_spec(merkle_fold(leaf, proof.drop_last()), proof.last()@))
    }
}

/// Whether `a <= b` as byte arrays.
pub fn bytes32_le(a: &[u8; 32], b: &[u8; 32]) -> (r: bool)
    ensures
        r == lex_le(a@, b@),
{
    let mut i: usize = 0;
    assert(a@.subrange(0, 32) =~= a@);
    assert(b@.subrange(0, 32) =~= b@);
    while i < 32
        invariant
            0 <= i <= 32,
            a@.len() == 32,
            b@.len() == 32,
            lex_le(a@, b@) == lex_le(a@.subrange(i as int, 32), b@.subrange(i as int, 32)),
        decreases 32 - i,
    {
        let ghost sa = a@.subrange(i as int, 32);
        let ghost sb = b@.subrange(i as int, 32);
        assert(sa.drop_first() =~= a@.subrange(i + 1, 32));
        assert(sb.drop_first() =~= b@.subrange(i + 1, 32));
        if a[i] < b[i] {
            return true;
        }
        if a[i] > b[i] {
            return false;
        }
        i = i + 1;
    }
    assert(a@.subrange(32, 32).len() == 0);
    true
}

/// The little-endian bytes of `x`.
pub fn u64_to_le_bytes(x: u64) -> (r: Vec<u8>)
    ensures
        r@ == le_bytes(x),
{
    let mut r: Vec<u8> = Vec::new();
    let mut k: u64 = 0;
    while k < 8
        invariant
            0 <= k <= 8,
            r@.len() == k,
            forall|j: int| 0 <= j < k ==> r@[j] == (x >> ((8 * j) as u64)) as u8,
        decreases 8 - k,
    {
        r.push((x >> (8 * k)) as u8);
        k = k + 1;
    }
    assert(r@ =~= le_bytes(x));
    r
}

/// The bytes hashed for the leaf of `holder` with `rights_amount` rights.
pub fn leaf_preimage(holder: &Pubkey, rights_amount: u64) -> (r: Vec<u8>)
    ensures
        r@ == leaf_preimage_spec(*holder, rights_amount),
{
    let mut r: Vec<u8> = Vec::new();
    r.push(0u8);
    let mut i: usize = 0;
    while i < 32
        invariant
            0 <= i <= 32,
            holder@.len() == 32,
            r@ == seq![0u8] + holder@.subrange(0, i as int),
        decreases 32 - i,
    {
        r.push(holder.0[i]);
        assert(holder@.subrange(0, i + 1) =~= holder@.subrange(0, i as int).push(holder@[i as int]));
        i = i + 1;
    }
    assert(holder@.subrange(0, 32) =~= holder@);
    let amount = u64_to_le_bytes(rights_amount);
    let mut j: usize = 0;
    while j < 8
        invariant
            0 <= j <= 8,
            holder@.len() == 32,
            amount@ == le_bytes(rights_amount),
            r@ == seq![0u8] + holder@ + amount@.subrange(0, j as int),
        decreases 8 - j,
    {
        r.push(amount[j]);
        assert(amount@.subrange(0, j + 1) =~= amount@.subrange(0, j as int).push(amount@[j as int]));
        j = j + 1;
    }
    assert(amount@.subrange(0, 8) =~= amount@);
    r
}

/// The bytes hashed for the parent of `current` and `sibling`.
pub fn node_preimage(current: &[u8; 32], sibling: &[u8; 32]) -> (r: Vec<u8>)
    ensures
        r@ == node_preimage_spec(current@, sibling@),
{
    let (left, right) = if bytes32_le(current, sibling) {
        (current, sibling)
    } else {
        (sibling, current)
    };
    let mut r: Vec<u8> = Vec::new();
    r.push(1u8);
    let mut i: usize = 0;
    while i < 32
        invariant
            0 <= i <= 32,
            left@.len() == 32,
            right@.len() == 32,
            r@ == seq![1u8] + left@.subrange(0, i as int),
        decreases 32 - i,
    {
        r.push(left[i]);
        assert(left@.subrange(0, i + 1) =~= left@.subrange(0, i as int).push(left@[i as int]));
        i = i + 1;
    }
    assert(left@.subrange(0, 32) =~= left@);
    let mut j: usize = 0;
    while j < 32
        invariant
            0 <= j <= 32,
            left@.len() == 32,
            right@.len() == 32,
            r@ == seq![1u8] + left@ + right@.subrange(0, j as int),
        decreases 32 - j,
    {
        r.push(right[j]);
        assert(right@.subrange(0, j + 1) =~= right@.subrange(0, j as int).push(right@[j as int]));
        j = j + 1;
    }
    assert(right@.subrange(0, 32) =~= right@);
    r
}

/// The leaf committing to `rights_amount` rights for `holder`.
pub fn merkle_leaf(holder: &Pubkey, rights_amount: u64) -> (r: [u8; 32])
    ensures
        r@ == leaf_hash(*holder, rights_amount),
{
    let pre = leaf_preimage(holder, rights_amount);
    sha256_digest(pre.as_slice())
}

/// The parent node of `current` and `sibling`.
pub fn merkle_parent(current: &[u8; 32], sibling: &[u8; 32]) -> (r: [u8; 32])
    ensures
        r@ == sha256_spec(node_preimage_spec(current@, sibling@)),
{
    let pre = node_preimage(current, sibling);
    sha256_digest(pre.as_slice())
}

/// The root that `proof` leads to from `leaf`.
pub fn compute_merkle_root(leaf: &[u8; 32], proof: &Vec<[u8; 32]>) -> (r: [u8; 32])
    ensures
        r@ == merkle_fold(leaf@, proof@),
{
    let mut current: [u8; 32] = *leaf;
    let mut i: usize = 0;
    while i < proof.len()
        invariant
            0 <= i <= proof@.len(),
            current@ == merkle_fold(leaf@, proof@.subrange(0, i as int)),
        decreases proof@.len() - i,
    {
        let next = merkle_parent(&current, &proof[i]);
        assert(proof@.subrange(0, i + 1).drop_last() =~= proof@.subrange(0, i as int));
        current = next;
        i = i + 1;
    }
    assert(proof@.subrange(0, proof@.len() as int) =~= proof@);
    current
}

} // verus!

//! Hashing for the VMess handshake: MD5 and SHA-256 behind named results,
//! HMAC-SHA256 built from them, and the layered key-derivation function that
//! expands a master key and a path of context labels into sub-keys.
//!
//! The derivation scheme is a tower of HMACs: the base hash is HMAC-SHA256
//! keyed by a fixed label; each path element adds one more HMAC layer keyed
//! by that element, with the layer below as its hash function; the master
//! key is fed to the top of the tower as the message.

use vstd::prelude::*;
use vstd::string::StringSliceAdditionalSpecFns;
use md5::Md5;
use md5::Digest;
use sha2::Sha256;

verus! {

/// What MD5 digests a byte sequence to: a function of the bytes alone.
pub uninterp spec fn md5_of(m: Seq<u8>) -> Seq<u8>;

/// What SHA-256 digests a byte sequence to: a function of the bytes alone.
pub uninterp spec fn sha256_of(m: Seq<u8>) -> Seq<u8>;

/// Relies on Md5::digest of the md-5 crate: a 16-byte digest that depends
/// on the input bytes alone.
#[verifier::external_body]
pub(crate) fn md5_digest(data: &Vec<u8>) -> (r: Vec<u8>)
    ensures
        r@ == md5_of(data@),
        r@.len() == 16,
{
    Md5::digest(data.as_slice()).to_vec()
}

/// Relies on Sha256::digest of the sha2 crate: a 32-byte digest that
/// depends on the input bytes alone.
#[verifier::external_body]
pub(crate) fn sha256_digest(data: &Vec<u8>) -> (r: Vec<u8>)
    ensures
        r@ == sha256_of(data@),
        r@.len() == 32,
{
    Sha256::digest(data.as_slice()).to_vec()
}

/// The concatenation of a sequence of byte sequences, in order.
pub open spec fn spec_concat(parts: Seq<Seq<u8>>) -> Seq<u8>
    decreases parts.len(),
{
    if parts.len() == 0 {
        Seq::empty()
    } else {
        spec_concat(parts.drop_last()) + parts.last()
    }
}

/// Concatenating a two-element list is appending.
pub proof fn lemma_concat2(a: Seq<u8>, b: Seq<u8>)
    ensures
        spec_concat(seq![a, b]) == a + b,
{
    let s = seq![a, b];
    assert(s.drop_last() =~= seq![a]);
    assert(seq![a].drop_last() =~= Seq::<Seq<u8>>::empty());
    assert(spec_concat(Seq::<Seq<u8>>::empty()) == Seq::<u8>::empty());
    assert(spec_concat(seq![a]) == spec_concat(seq![a].drop_last()) + a);
    assert(Seq::<u8>::empty() + a =~= a);
    assert(spec_concat(s) == spec_concat(s.drop_last()) + b);
    assert(spec_concat(s) =~= a + b);
}

/// Copies a byte vector.
pub fn clone_bytes(v: &Vec<u8>) -> (r: Vec<u8>)
    ensures
        r@ == v@,
{
    let mut r: Vec<u8> = Vec::new();
    let mut i: usize = 0;
    while i < v.len()
        invariant
            i <= v@.len(),
            r@ =~= v@.take(i as int),
        decreases v@.len() - i,
    {
        r.push(v[i]);
        i += 1;
    }
    proof {
        assert(r@ =~= v@);
    }
    r
}

/// Appends the bytes of `src` to `dst`.
pub fn append_bytes(dst: &mut Vec<u8>, src: &Vec<u8>)
    ensures
        final(dst)@ == old(dst)@ + src@,
{
    let mut i: usize = 0;
    while i < src.len()
        invariant
            i <= src@.len(),
            dst@ =~= old(dst)@ + src@.take(i as int),
        decreases src@.len() - i,
    {
        dst.push(src[i]);
        i += 1;
    }
    proof {
        assert(dst@ =~= old(dst)@ + src@);
    }
}

/// Concatenates a list of byte vectors.
pub fn concat_bytes(parts: &Vec<Vec<u8>>) -> (r: Vec<u8>)
    ensures
        r@ == spec_concat(parts@.map_values(|v: Vec<u8>| v@)),
{
    let ghost ps = parts@.map_values(|v: Vec<u8>| v@);
    let mut r: Vec<u8> = Vec::new();
    let mut i: usize = 0;
    while i < parts.len()
        invariant
            i <= parts@.len(),
            ps == parts@.map_values(|v: Vec<u8>| v@),
            r@ == spec_concat(ps.take(i as int)),
        decreases parts@.len() - i,
    {
        proof {
            assert(ps.take(i as int + 1).drop_last() =~= ps.take(i as int));
            assert(ps.take(i as int + 1).last() == parts@[i as int]@);
        }
        append_bytes(&mut r, &parts[i]);
        i += 1;
    }
    proof {
        assert(ps.take(parts@.len() as int) =~= ps);
    }
    r
}

/// MD5 over the concatenation of `parts`, as the hashing helpers of the
/// handshake compose multi-part digests.
pub fn md5_concat(parts: &Vec<Vec<u8>>) -> (r: Vec<u8>)
    ensures
        r@ == md5_of(spec_concat(parts@.map_values(|v: Vec<u8>| v@))),
        r@.len() == 16,
{
    let joined = concat_bytes(parts);
    md5_digest(&joined)
}

/// SHA-256 over the concatenation of `parts`.
pub fn sha256_concat(parts: &Vec<Vec<u8>>) -> (r: Vec<u8>)
    ensures
        r@ == sha256_of(spec_concat(parts@.map_values(|v: Vec<u8>| v@))),
        r@.len() == 32,
{
    let joined = concat_bytes(parts);
    sha256_digest(&joined)
}

/// An HMAC key padded to the 64-byte SHA-256 block and XORed with `x`.
pub open spec fn spec_hmac_pad(k: Seq<u8>, x: u8) -> Seq<u8> {
    Seq::new(64, |i: int| if i < k.len() {
        k[i] ^ x
    } else {
        x
    })
}

/// HMAC-SHA256: a key longer than one block is first digested; the digest of
/// the inner-padded key and message is digested again under the outer-padded
/// key.
pub open spec fn spec_hmac_sha256(key: Seq<u8>, msg: Seq<u8>) -> Seq<u8> {
    let k = if key.len() > 64 {
        sha256_of(key)
    } else {
        key
    };
    sha256_of(spec_hmac_pad(k, 0x5c) + sha256_of(spec_hmac_pad(k, 0x36) + msg))
}

/// Pads `k` to 64 bytes with zeros and XORs every byte with `x`.
fn xor_pad(k: &Vec<u8>, x: u8) -> (r: Vec<u8>)
    requires
        k@.len() <= 64,
    ensures
        r@ == spec_hmac_pad(k@, x),
{
    let mut r: Vec<u8> = Vec::new();
    let mut i: usize = 0;
    while i < 64
        invariant
            i <= 64,
            k@.len() <= 64,
            r@.len() == i,
            forall|j: int| 0 <= j < i ==> r@[j] == spec_hmac_pad(k@, x)[j],
        decreases 64 - i,
    {
        if i < k.len() {
            r.push(k[i] ^ x);
        } else {
            r.push(x);
        }
        i += 1;
    }
    proof {
        assert(r@ =~= spec_hmac_pad(k@, x));
    }
    r
}

/// Computes HMAC-SHA256 of `msg` under `key`.
pub fn hmac_sha256(key: &Vec<u8>, msg: &Vec<u8>) -> (r: Vec<u8>)
    ensures
        r@ == spec_hmac_sha256(key@, msg@),
        r@.len() == 32,
{
    let k: Vec<u8> = if key.len() > 64 {
        sha256_digest(key)
    } else {
        clone_bytes(key)
    };
    let mut inner = xor_pad(&k, 0x36);
    append_bytes(&mut inner, msg);
    let ih = sha256_digest(&inner);
    let mut outer = xor_pad(&k, 0x5c);
    append_bytes(&mut outer, &ih);
    sha256_digest(&outer)
}

/// The fixed label keying the base of the derivation tower.
pub open spec fn spec_kdf_label() -> Seq<u8> {
    "VMess AEAD KDF".spec_bytes()
}

/// The label bytes keying the base of the derivation tower.
fn kdf_label_bytes() -> (r: Vec<u8>)
    ensures
        r@ == spec_kdf_label(),
{
    let s = "VMess AEAD KDF";
    s.as_bytes_vec()
}

/// The hash function at level `path.len()` of the derivation tower, applied
/// to `msg`: with an empty path it is HMAC-SHA256 keyed by the fixed label;
/// each path element wraps one more HMAC layer, keyed by that element, whose
/// hash function is the tower below it (block size 64, output 32).
pub open spec fn spec_kdf_hash(path: Seq<Seq<u8>>, msg: Seq<u8>) -> Seq<u8>
    decreases path.len(),
{
    if path.len() == 0 {
        spec_hmac_sha256(spec_kdf_label(), msg)
    } else {
        let key0 = path.last();
        let parent = path.drop_last();
        let k = if key0.len() > 64 {
            spec_kdf_hash(parent, key0)
        } else {
            key0
        };
        spec_kdf_hash(
            parent,
            spec_hmac_pad(k, 0x5c) + spec_kdf_hash(parent, spec_hmac_pad(k, 0x36) + msg),
        )
    }
}

/// The derived key: the whole tower named by `path`, applied to the master
/// key.
pub open spec fn spec_vmess_kdf(key: Seq<u8>, path: Seq<Seq<u8>>) -> Seq<u8> {
    spec_kdf_hash(path, key)
}

/// Computes the tower hash of `msg` for the first `depth` path elements.
fn kdf_hash(path: &Vec<Vec<u8>>, depth: usize, msg: &Vec<u8>) -> (r: Vec<u8>)
    requires
        depth <= path@.len(),
    ensures
        r@ == spec_kdf_hash(path@.map_values(|v: Vec<u8>| v@).take(depth as int), msg@),
        r@.len() == 32,
    decreases depth,
{
    let ghost p = path@.map_values(|v: Vec<u8>| v@).take(depth as int);
    if depth == 0 {
        proof {
            assert(p =~= Seq::<Seq<u8>>::empty());
        }
        let label = kdf_label_bytes();
        hmac_sha256(&label, msg)
    } else {
        proof {
            assert(p.last() == path@[depth - 1]@);
            assert(p.drop_last() =~= path@.map_values(|v: Vec<u8>| v@).take(depth as int - 1));
        }
        let key0 = &path[depth - 1];
        let k: Vec<u8> = if key0.len() > 64 {
            kdf_hash(path, depth - 1, key0)
        } else {
            clone_bytes(key0)
        };
        let mut inner = xor_pad(&k, 0x36);
        append_bytes(&mut inner, msg);
        let ih = kdf_hash(path, depth - 1, &inner);
        let mut outer = xor_pad(&k, 0x5c);
        append_bytes(&mut outer, &ih);
        kdf_hash(path, depth - 1, &outer)
    }
}

/// Derives a sub-key from a master key and a path of context labels.
pub fn vmess_kdf(key: &Vec<u8>, path: &Vec<Vec<u8>>) -> (r: Vec<u8>)
    ensures
        r@ == spec_vmess_kdf(key@, path@.map_values(|v: Vec<u8>| v@)),
        r@.len() == 32,
{
    proof {
        assert(path@.map_values(|v: Vec<u8>| v@).take(path@.len() as int) =~= path@.map_values(
            |v: Vec<u8>| v@,
        ));
    }
    kdf_hash(path, path.len(), key)
}

} // verus!

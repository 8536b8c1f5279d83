use vstd::prelude::*;

use crate::address::Address;

verus! {

/// The Keccak-256 digest of the concatenation of `parts`.
pub uninterp spec fn keccak_digest(parts: Seq<Seq<u8>>) -> Seq<u8>;

/// Relies on `solana_program::keccak::hashv`: the 32-byte Keccak-256 digest of the parts,
/// a function of their bytes alone.
#[verifier::external_body]
fn keccak_hashv(a: &[u8], b: &[u8]) -> (r: [u8; 32])
    ensures
        r@ == keccak_digest(seq![a@, b@]),
{
    solana_program::keccak::hashv(&[a, b]).to_bytes()
}

/// The number that `s` spells in base 256, most significant byte first.
pub open spec fn be_value(s: Seq<u8>) -> nat
    decreases s.len(),
{
    if s.len() == 0 {
        0
    } else {
        be_value(s.drop_last()) * 256 + s.last() as nat
    }
}

/// The six-digit number drawn from a digest: its first sixteen bytes read as a big-endian
/// integer, modulo one million.
pub open spec fn digest_number(d: Seq<u8>) -> nat {
    be_value(d.take(16)) % 1000000
}

/// The eight bytes of `v`, most significant first.
pub open spec fn u64_be(v: u64) -> Seq<u8> {
    seq![
        ((v >> 56) & 0xff) as u8,
        ((v >> 48) & 0xff) as u8,
        ((v >> 40) & 0xff) as u8,
        ((v >> 32) & 0xff) as u8,
        ((v >> 24) & 0xff) as u8,
        ((v >> 16) & 0xff) as u8,
        ((v >> 8) & 0xff) as u8,
        (v & 0xff) as u8,
    ]
}

/// The pseudo-random six-digit number of a moment and an identity.
pub open spec fn pseudo_random(now: u64, key: Seq<u8>) -> nat {
    digest_number(keccak_digest(seq![u64_be(now), key]))
}

pub fn u64_be_bytes(v: u64) -> (r: Vec<u8>)
    ensures
        r@ == u64_be(v),
{
    let r: Vec<u8> = vec![
        ((v >> 56) & 0xff) as u8,
        ((v >> 48) & 0xff) as u8,
        ((v >> 40) & 0xff) as u8,
        ((v >> 32) & 0xff) as u8,
        ((v >> 24) & 0xff) as u8,
        ((v >> 16) & 0xff) as u8,
        ((v >> 8) & 0xff) as u8,
        (v & 0xff) as u8,
    ];
    assert(r@ =~= u64_be(v));
    r
}

proof fn lemma_mod_step(x: nat, b: nat)
    ensures
        (x * 256 + b) % 1000000 == ((x % 1000000) * 256 + b) % 1000000,
{
    let q = x / 1000000;
    let m = x % 1000000;
    assert(x == q * 1000000 + m);
    assert(x * 256 + b == (m * 256 + b) + (q * 256) * 1000000) by (nonlinear_arith)
        requires
            x == q * 1000000 + m,
    ;
    vstd::arithmetic::div_mod::lemma_mod_multiples_vanish((q * 256) as int, (m * 256 + b) as int, 1000000);
}

/// The six-digit number drawn from the digest `d`.
pub fn number_from_digest(d: &[u8; 32]) -> (r: u64)
    ensures
        r == digest_number(d@),
        r < 1000000,
{
    let mut acc: u64 = 0;
    let mut i: usize = 0;
    while i < 16
        invariant
            i <= 16,
            d@.len() == 32,
            acc == be_value(d@.take(i as int)) % 1000000,
        decreases 16 - i,
    {
        proof {
            let t = d@.take(i as int + 1);
            assert(t.drop_last() =~= d@.take(i as int));
            lemma_mod_step(be_value(d@.take(i as int)), d@[i as int] as nat);
        }
        acc = (acc * 256 + d[i] as u64) % 1000000;
        i = i + 1;
    }
    acc
}

/// The pseudo-random six-digit number of the moment `now` and the identity `key`: a
/// digest of both, reduced modulo one million. Anyone who knows both can compute it.
pub fn pseudo_random_number(now: u64, key: &Address) -> (r: u64)
    ensures
        r == pseudo_random(now, key@),
        r < 1000000,
{
    let t = u64_be_bytes(now);
    let d = keccak_hashv(t.as_slice(), &key.bytes);
    number_from_digest(&d)
}

/// The six decimal digits of `n`, most significant first.
pub open spec fn six_digits(n: nat) -> Seq<u8> {
    seq![
        ((n / 100000) % 10) as u8,
        ((n / 10000) % 10) as u8,
        ((n / 1000) % 10) as u8,
        ((n / 100) % 10) as u8,
        ((n / 10) % 10) as u8,
        (n % 10) as u8,
    ]
}

pub fn digits_of(n: u64) -> (r: [u8; 6])
    ensures
        r@ == six_digits(n as nat),
{
    let r: [u8; 6] = [
        ((n / 100000) % 10) as u8,
        ((n / 10000) % 10) as u8,
        ((n / 1000) % 10) as u8,
        ((n / 100) % 10) as u8,
        ((n / 10) % 10) as u8,
        (n % 10) as u8,
    ];
    assert(r@ =~= six_digits(n as nat));
    r
}

/// The length of the longest common prefix of `a` and `b`.
pub open spec fn common_prefix(a: Seq<u8>, b: Seq<u8>) -> nat
    decreases a.len(),
{
    if a.len() == 0 || b.len() == 0 || a[0] != b[0] {
        0
    } else {
        1 + common_prefix(a.drop_first(), b.drop_first())
    }
}

proof fn lemma_common_prefix(a: Seq<u8>, b: Seq<u8>, i: int)
    requires
        0 <= i <= a.len(),
        i <= b.len(),
        forall|j: int| 0 <= j < i ==> a[j] == b[j],
    ensures
        common_prefix(a, b) == i + common_prefix(a.skip(i), b.skip(i)),
    decreases i,
{
    if i > 0 {
        lemma_common_prefix(a.drop_first(), b.drop_first(), i - 1);
        assert(a.drop_first().skip(i - 1) =~= a.skip(i));
        assert(b.drop_first().skip(i - 1) =~= b.skip(i));
    } else {
        assert(a.skip(0) =~= a);
        assert(b.skip(0) =~= b);
    }
}

/// How many leading positions of `arr1` and `arr2` agree, up to the first difference.
pub fn count_matching_elements_until_difference(arr1: &[u8; 6], arr2: &[u8; 6]) -> (r: usize)
    ensures
        r == common_prefix(arr1@, arr2@),
        r <= 6,
{
    let mut i: usize = 0;
    while i < 6 && arr1[i] == arr2[i]
        invariant
            i <= 6,
            arr1@.len() == 6,
            arr2@.len() == 6,
            forall|j: int| 0 <= j < i ==> arr1@[j] == arr2@[j],
        decreases 6 - i,
    {
        i = i + 1;
    }
    proof {
        lemma_common_prefix(arr1@, arr2@, i as int);
        let a = arr1@.skip(i as int);
        let b = arr2@.skip(i as int);
        if i < 6 {
            assert(a[0] == arr1@[i as int]);
            assert(b[0] == arr2@[i as int]);
        }
    }
    i
}

} // verus!

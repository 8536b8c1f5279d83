use vstd::prelude::*;

verus! {

/// The canonical decimal text of `n`, as ASCII bytes, most significant digit first.
pub open spec fn decimal(n: nat) -> Seq<u8>
    decreases n,
{
    if n < 10 {
        seq![(48 + n) as u8]
    } else {
        decimal(n / 10).push((48 + n % 10) as u8)
    }
}

pub open spec fn is_digit(b: u8) -> bool {
    48 <= b <= 57
}

/// The number that a string of ASCII digits spells.
pub open spec fn digits_value(s: Seq<u8>) -> nat
    decreases s.len(),
{
    if s.len() == 0 {
        0
    } else {
        digits_value(s.drop_last()) * 10 + (s.last() - 48) as nat
    }
}

pub open spec fn pow10(k: nat) -> nat
    decreases k,
{
    if k == 0 {
        1
    } else {
        10 * pow10((k - 1) as nat)
    }
}

proof fn lemma_decimal_shape(n: nat)
    ensures
        1 <= decimal(n).len(),
        forall|i: int| 0 <= i < decimal(n).len() ==> is_digit(#[trigger] decimal(n)[i]),
        digits_value(decimal(n)) == n,
        n < pow10((decimal(n).len() - 1) as nat) * 10,
        decimal(n).len() > 1 ==> n >= pow10((decimal(n).len() - 1) as nat),
    decreases n,
{
    if n < 10 {
        assert(decimal(n).drop_last() =~= Seq::<u8>::empty());
        assert(pow10(0) == 1);
        assert(digits_value(decimal(n)) == digits_value(Seq::<u8>::empty()) * 10 + (decimal(n).last() - 48) as nat);
    } else {
        lemma_decimal_shape(n / 10);
        let d = decimal(n / 10);
        assert(decimal(n).drop_last() =~= d);
        assert forall|i: int| 0 <= i < decimal(n).len() implies is_digit(#[trigger] decimal(n)[i]) by {
            if i < d.len() {
                assert(decimal(n)[i] == d[i]);
            }
        }
        assert(pow10((decimal(n).len() - 1) as nat) == 10 * pow10((d.len() - 1) as nat));
        assert(decimal(n).last() == (48 + n % 10) as u8);
        assert(n == (n / 10) * 10 + n % 10);
        assert(digits_value(decimal(n)) == digits_value(d) * 10 + (decimal(n).last() - 48) as nat);
        if d.len() == 1 {
            assert(pow10(1) == 10) by {
                reveal_with_fuel(pow10, 2);
            }
        }
    }
}

proof fn lemma_pow10_monotone(a: nat, b: nat)
    requires
        a <= b,
    ensures
        pow10(a) <= pow10(b),
    decreases b,
{
    if a < b {
        lemma_pow10_monotone(a, (b - 1) as nat);
    }
}

/// The decimal text of a 64-bit number has at most twenty digits.
proof fn lemma_decimal_len(n: u64)
    ensures
        decimal(n as nat).len() <= 20,
{
    lemma_decimal_shape(n as nat);
    let k = (decimal(n as nat).len() - 1) as nat;
    if k >= 20 {
        lemma_pow10_monotone(20, k);
        reveal_with_fuel(pow10, 21);
        assert(pow10(20) == 100000000000000000000nat);
    }
}

/// Distinct numbers have distinct decimal texts.
pub proof fn lemma_decimal_injective(a: nat, b: nat)
    requires
        decimal(a) == decimal(b),
    ensures
        a == b,
{
    lemma_decimal_shape(a);
    lemma_decimal_shape(b);
}

/// The number whose canonical decimal text is `s`, where there is one.
pub open spec fn round_of_text(s: Seq<u8>) -> u64 {
    choose|n: u64| s == decimal(n as nat)
}

/// `s` is the canonical decimal text of a 64-bit number.
pub open spec fn is_round_text(s: Seq<u8>) -> bool {
    exists|n: u64| s == decimal(n as nat)
}

/// The canonical decimal text of `n`.
pub fn u64_text(n: u64) -> (r: Vec<u8>)
    ensures
        r@ == decimal(n as nat),
    decreases n,
{
    if n < 10 {
        vec![48u8 + n as u8]
    } else {
        let mut v = u64_text(n / 10);
        v.push(48u8 + (n % 10) as u8);
        v
    }
}

fn bytes_equal(a: &[u8], b: &[u8]) -> (r: bool)
    ensures
        r == (a@ == b@),
{
    if a.len() != b.len() {
        return false;
    }
    let mut i: usize = 0;
    while i < a.len()
        invariant
            i <= a@.len(),
            a@.len() == b@.len(),
            forall|j: int| 0 <= j < i ==> a@[j] == b@[j],
        decreases a@.len() - i,
    {
        if a[i] != b[i] {
            return false;
        }
        i = i + 1;
    }
    assert(a@ =~= b@);
    true
}

/// Reads a round number from its canonical decimal text; any other text gives `None`.
pub fn parse_round(s: &[u8]) -> (r: Option<u64>)
    ensures
        match r {
            Some(n) => s@ == decimal(n as nat),
            None => forall|n: u64| s@ != decimal(n as nat),
        },
{
    if s.len() == 0 || s.len() > 20 {
        proof {
            assert forall|n: u64| s@ != decimal(n as nat) by {
                lemma_decimal_shape(n as nat);
                lemma_decimal_len(n);
            }
        }
        return None;
    }
    let mut acc: u128 = 0;
    let mut i: usize = 0;
    while i < s.len()
        invariant
            i <= s@.len() <= 20,
            acc == digits_value(s@.take(i as int)),
            acc < pow10(i as nat),
            forall|j: int| 0 <= j < i ==> is_digit(s@[j]),
        decreases s@.len() - i,
    {
        let c = s[i];
        if c < 48 || c > 57 {
            proof {
                assert forall|n: u64| s@ != decimal(n as nat) by {
                    lemma_decimal_shape(n as nat);
                    if s@ == decimal(n as nat) {
                        assert(is_digit(decimal(n as nat)[i as int]));
                    }
                }
            }
            return None;
        }
        proof {
            lemma_pow10_monotone(i as nat + 1, 20);
            reveal_with_fuel(pow10, 21);
            assert(pow10(20) == 100000000000000000000nat);
            assert(s@.take(i as int + 1).drop_last() =~= s@.take(i as int));
            assert(acc * 10 + 9 < pow10(i as nat + 1)) by (nonlinear_arith)
                requires
                    acc < pow10(i as nat),
                    pow10(i as nat + 1) == 10 * pow10(i as nat),
            ;
        }
        acc = acc * 10 + (c - 48) as u128;
        i = i + 1;
    }
    assert(s@.take(s@.len() as int) =~= s@);
    if acc > 0xffff_ffff_ffff_ffffu128 {
        proof {
            assert forall|n: u64| s@ != decimal(n as nat) by {
                lemma_decimal_shape(n as nat);
            }
        }
        return None;
    }
    let n = acc as u64;
    let t = u64_text(n);
    if bytes_equal(t.as_slice(), s) {
        Some(n)
    } else {
        proof {
            assert forall|m: u64| s@ != decimal(m as nat) by {
                lemma_decimal_shape(m as nat);
            }
        }
        None
    }
}

} // verus!

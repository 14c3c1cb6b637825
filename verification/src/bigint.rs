//! Unbounded signed integers as plain values.
//!
//! Key coordinates and private scalars are carried as a sign plus a
//! big-endian magnitude, viewed in contracts as a mathematical integer.
//! Stored values are canonical: no leading zero byte, and no negative
//! zero, so structural equality coincides with numeric equality.

use vstd::prelude::*;

verus! {

/// 256 to the power `n`: the place value of a big-endian byte.
pub open spec fn pow256(n: nat) -> nat
    decreases n,
{
    if n == 0 {
        1
    } else {
        256 * pow256((n - 1) as nat)
    }
}

/// The non-negative integer a big-endian byte string denotes.
pub open spec fn be_bytes_nat(s: Seq<u8>) -> nat
    decreases s.len(),
{
    if s.len() == 0 {
        0
    } else {
        (s[0] * pow256((s.len() - 1) as nat) + be_bytes_nat(s.subrange(1, s.len() as int))) as nat
    }
}

pub proof fn lemma_pow256_pos(n: nat)
    ensures
        pow256(n) >= 1,
    decreases n,
{
    if n > 0 {
        lemma_pow256_pos((n - 1) as nat);
    }
}

/// A byte string with a non-zero leading byte denotes a non-zero number.
pub proof fn lemma_be_bytes_nonzero(s: Seq<u8>)
    requires
        s.len() > 0,
        s[0] != 0,
    ensures
        be_bytes_nat(s) >= 1,
{
    lemma_pow256_pos((s.len() - 1) as nat);
    assert(s[0] * pow256((s.len() - 1) as nat) >= pow256((s.len() - 1) as nat)) by (nonlinear_arith)
        requires
            s[0] >= 1,
            pow256((s.len() - 1) as nat) >= 1,
    ;
}

/// Dropping a leading zero byte does not change the denoted number.
pub proof fn lemma_be_bytes_drop_leading_zero(s: Seq<u8>)
    requires
        s.len() > 0,
        s[0] == 0,
    ensures
        be_bytes_nat(s) == be_bytes_nat(s.subrange(1, s.len() as int)),
{
}

/// A byte string denotes less than the place value just above it.
pub proof fn lemma_be_bytes_lt_pow(s: Seq<u8>)
    ensures
        be_bytes_nat(s) < pow256(s.len()),
    decreases s.len(),
{
    if s.len() > 0 {
        let t = s.subrange(1, s.len() as int);
        lemma_be_bytes_lt_pow(t);
        assert(s[0] * pow256((s.len() - 1) as nat) <= 255 * pow256((s.len() - 1) as nat))
            by (nonlinear_arith)
            requires
                s[0] <= 255,
                pow256((s.len() - 1) as nat) >= 0,
        ;
        assert(pow256(s.len()) == 256 * pow256((s.len() - 1) as nat));
    }
}

/// A byte string with a non-zero leading byte denotes at least the place
/// value of that byte.
pub proof fn lemma_be_bytes_ge_pow(s: Seq<u8>)
    requires
        s.len() > 0,
        s[0] != 0,
    ensures
        be_bytes_nat(s) >= pow256((s.len() - 1) as nat),
{
    assert(s[0] * pow256((s.len() - 1) as nat) >= pow256((s.len() - 1) as nat)) by (nonlinear_arith)
        requires
            s[0] >= 1,
            pow256((s.len() - 1) as nat) >= 0,
    ;
}

pub proof fn lemma_pow256_monotonic(m: nat, n: nat)
    requires
        m <= n,
    ensures
        pow256(m) <= pow256(n),
    decreases n,
{
    if m < n {
        lemma_pow256_monotonic(m, (n - 1) as nat);
        lemma_pow256_pos((n - 1) as nat);
    }
}

/// Equal-length byte strings denoting the same number are equal.
proof fn lemma_be_bytes_same_len_eq(a: Seq<u8>, b: Seq<u8>)
    requires
        a.len() == b.len(),
        be_bytes_nat(a) == be_bytes_nat(b),
    ensures
        a == b,
    decreases a.len(),
{
    if a.len() == 0 {
        assert(a =~= b);
    } else {
        let at = a.subrange(1, a.len() as int);
        let bt = b.subrange(1, b.len() as int);
        lemma_be_bytes_lt_pow(at);
        lemma_be_bytes_lt_pow(bt);
        let p = pow256((a.len() - 1) as nat) as int;
        let a0 = a[0] as int;
        let b0 = b[0] as int;
        let ta = be_bytes_nat(at) as int;
        let tb = be_bytes_nat(bt) as int;
        assert(be_bytes_nat(a) == a0 * p + ta);
        assert(be_bytes_nat(b) == b0 * p + tb);
        if a[0] != b[0] {
            assert(false) by (nonlinear_arith)
                requires
                    a0 * p + ta == b0 * p + tb,
                    0 <= ta < p,
                    0 <= tb < p,
                    a0 != b0,
            ;
        }
        assert(be_bytes_nat(at) == be_bytes_nat(bt));
        lemma_be_bytes_same_len_eq(at, bt);
        assert forall|i: int| 0 <= i < a.len() implies a[i] == b[i] by {
            if i > 0 {
                assert(at[i - 1] == bt[i - 1]);
            }
        }
        assert(a =~= b);
    }
}

/// Two canonical byte strings denoting the same number are equal.
pub proof fn lemma_be_bytes_canonical_injective(a: Seq<u8>, b: Seq<u8>)
    requires
        a.len() == 0 || a[0] != 0,
        b.len() == 0 || b[0] != 0,
        be_bytes_nat(a) == be_bytes_nat(b),
    ensures
        a == b,
{
    if a.len() == 0 && b.len() > 0 {
        lemma_be_bytes_nonzero(b);
        assert(false);
    } else if b.len() == 0 && a.len() > 0 {
        lemma_be_bytes_nonzero(a);
        assert(false);
    } else if a.len() < b.len() {
        lemma_be_bytes_lt_pow(a);
        lemma_be_bytes_ge_pow(b);
        lemma_pow256_monotonic(a.len(), (b.len() - 1) as nat);
        assert(false);
    } else if b.len() < a.len() {
        lemma_be_bytes_lt_pow(b);
        lemma_be_bytes_ge_pow(a);
        lemma_pow256_monotonic(b.len(), (a.len() - 1) as nat);
        assert(false);
    } else {
        lemma_be_bytes_same_len_eq(a, b);
    }
}

/// Byte-string equality with its meaning over views.
pub fn bytes_eq(a: &Vec<u8>, b: &Vec<u8>) -> (r: bool)
    ensures
        r == (a@ == b@),
{
    if a.len() != b.len() {
        proof {
            if a@ == b@ {
                assert(a@.len() == b@.len());
            }
        }
        return false;
    }
    let mut i: usize = 0;
    while i < a.len()
        invariant
            i <= a.len(),
            a.len() == b.len(),
            forall|j: int| 0 <= j < i ==> a@[j] == b@[j],
        decreases a.len() - i,
    {
        if a[i] != b[i] {
            proof {
                if a@ == b@ {
                    assert(a@[i as int] == b@[i as int]);
                }
            }
            return false;
        }
        i = i + 1;
    }
    proof {
        assert(a@ =~= b@);
    }
    true
}

/// An unbounded signed integer: a sign and a big-endian magnitude.
#[derive(Clone, Debug, Eq, Hash)]
pub struct BigInt {
    pub negative: bool,
    pub magnitude: Vec<u8>,
}

impl View for BigInt {
    type V = int;

    open spec fn view(&self) -> int {
        if self.negative {
            -(be_bytes_nat(self.magnitude@) as int)
        } else {
            be_bytes_nat(self.magnitude@) as int
        }
    }
}

impl BigInt {
    /// Canonical form: no leading zero byte, and a sign only on a
    /// non-zero magnitude.
    pub open spec fn wf(&self) -> bool {
        &&& (self.magnitude@.len() == 0 || self.magnitude@[0] != 0)
        &&& (self.negative ==> self.magnitude@.len() > 0)
    }

    /// Whether the magnitude fits the backend's C-int length limit, the
    /// bound its big-number conversion asserts.
    pub open spec fn fits_backend(&self) -> bool {
        self.magnitude@.len() <= 0x7fff_ffff
    }

    /// Build the canonical integer denoted by a sign and a big-endian
    /// magnitude; leading zeroes are dropped and zero loses its sign.
    pub fn new(negative: bool, magnitude: Vec<u8>) -> (r: BigInt)
        ensures
            r.wf(),
            r@ == (if negative {
                -(be_bytes_nat(magnitude@) as int)
            } else {
                be_bytes_nat(magnitude@) as int
            }),
    {
        let mut start: usize = 0;
        proof {
            assert(magnitude@.subrange(0, magnitude@.len() as int) =~= magnitude@);
        }
        while start < magnitude.len() && magnitude[start] == 0
            invariant
                start <= magnitude.len(),
                be_bytes_nat(magnitude@.subrange(start as int, magnitude@.len() as int))
                    == be_bytes_nat(magnitude@),
            decreases magnitude.len() - start,
        {
            proof {
                let tail = magnitude@.subrange(start as int, magnitude@.len() as int);
                lemma_be_bytes_drop_leading_zero(tail);
                assert(tail.subrange(1, tail.len() as int) =~= magnitude@.subrange(
                    start as int + 1,
                    magnitude@.len() as int,
                ));
            }
            start = start + 1;
        }
        let mut mag: Vec<u8> = Vec::new();
        let mut i: usize = start;
        while i < magnitude.len()
            invariant
                start <= i <= magnitude.len(),
                mag@ == magnitude@.subrange(start as int, i as int),
            decreases magnitude.len() - i,
        {
            let byte = magnitude[i];
            mag.push(byte);
            proof {
                assert(mag@ =~= magnitude@.subrange(start as int, i as int + 1));
            }
            i = i + 1;
        }
        proof {
            assert(mag@ =~= magnitude@.subrange(start as int, magnitude@.len() as int));
        }
        let is_zero = mag.len() == 0;
        BigInt { negative: negative && !is_zero, magnitude: mag }
    }

    /// The integer zero.
    pub fn zero() -> (r: BigInt)
        ensures
            r.wf(),
            r@ == 0,
    {
        BigInt { negative: false, magnitude: Vec::new() }
    }

    /// Whether the integer is negative.
    pub fn is_negative(&self) -> (r: bool)
        requires
            self.wf(),
        ensures
            r == (self@ < 0),
    {
        proof {
            if self.negative {
                lemma_be_bytes_nonzero(self.magnitude@);
            }
        }
        self.negative
    }

    /// The big-endian magnitude, canonical under `wf` (no leading zero).
    pub fn magnitude(&self) -> (r: &Vec<u8>)
        ensures
            r@ == self.magnitude@,
    {
        &self.magnitude
    }

    /// Numeric equality; on canonical values it coincides with equality
    /// of the fields.
    pub fn eq_value(&self, other: &BigInt) -> (r: bool)
        requires
            self.wf(),
            other.wf(),
        ensures
            r == (self@ == other@),
    {
        proof {
            if self.negative != other.negative {
                if self.negative {
                    lemma_be_bytes_nonzero(self.magnitude@);
                } else {
                    lemma_be_bytes_nonzero(other.magnitude@);
                }
            } else if self.magnitude@ != other.magnitude@ && self@ == other@ {
                lemma_be_bytes_canonical_injective(self.magnitude@, other.magnitude@);
            }
        }
        self.negative == other.negative && bytes_eq(&self.magnitude, &other.magnitude)
    }
}

impl PartialEq for BigInt {
    /// Structural equality; on canonical values this is numeric equality.
    fn eq(&self, other: &BigInt) -> (r: bool) {
        self.negative == other.negative && bytes_eq(&self.magnitude, &other.magnitude)
    }
}

impl vstd::std_specs::cmp::PartialEqSpecImpl for BigInt {
    open spec fn obeys_eq_spec() -> bool {
        true
    }

    open spec fn eq_spec(&self, other: &BigInt) -> bool {
        self.negative == other.negative && self.magnitude@ == other.magnitude@
    }
}

} // verus!

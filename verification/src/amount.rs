//! Amounts of the settlement asset, in its smallest unit.
//!
//! An amount is a natural number of arbitrary size. It is kept as its
//! big-endian digits in base 256 without leading zeros, so that two amounts
//! are equal exactly when their digits are.

use vstd::prelude::*;

verus! {

/// The number that a big-endian string of base-256 digits stands for.
pub open spec fn be_value(digits: Seq<u8>) -> nat
    decreases digits.len(),
{
    if digits.len() == 0 {
        0
    } else {
        be_value(digits.drop_last()) * 256 + digits.last() as nat
    }
}

/// A digit string is canonical when it has no leading zero.
pub open spec fn is_canonical(digits: Seq<u8>) -> bool {
    digits.len() == 0 || digits[0] != 0
}

/// The number reached by reading `digits` from the left, starting from `acc`.
spec fn be_value_from(acc: nat, digits: Seq<u8>) -> nat
    decreases digits.len(),
{
    if digits.len() == 0 {
        acc
    } else {
        be_value_from(acc * 256 + digits[0] as nat, digits.drop_first())
    }
}

proof fn lemma_from_push(acc: nat, digits: Seq<u8>, d: u8)
    ensures
        be_value_from(acc, digits.push(d)) == be_value_from(acc, digits) * 256 + d as nat,
    decreases digits.len(),
{
    let pushed = digits.push(d);
    if digits.len() == 0 {
        assert(pushed.drop_first() =~= Seq::<u8>::empty());
        assert(be_value_from(acc, pushed) == be_value_from(acc * 256 + d as nat, pushed.drop_first()));
        assert(be_value_from(acc * 256 + d as nat, Seq::<u8>::empty()) == acc * 256 + d as nat);
    } else {
        assert(pushed.drop_first() =~= digits.drop_first().push(d));
        assert(pushed[0] == digits[0]);
        lemma_from_push(acc * 256 + digits[0] as nat, digits.drop_first(), d);
    }
}

proof fn lemma_from_zero_is_value(digits: Seq<u8>)
    ensures
        be_value_from(0, digits) == be_value(digits),
    decreases digits.len(),
{
    if digits.len() > 0 {
        lemma_from_zero_is_value(digits.drop_last());
        lemma_from_push(0, digits.drop_last(), digits.last());
        assert(digits.drop_last().push(digits.last()) =~= digits);
    }
}

/// A canonical digit string that is not empty stands for a positive number.
pub proof fn lemma_canonical_positive(digits: Seq<u8>)
    requires
        is_canonical(digits),
        digits.len() > 0,
    ensures
        be_value(digits) > 0,
    decreases digits.len(),
{
    if digits.len() > 1 {
        lemma_canonical_positive(digits.drop_last());
    }
}

/// Canonical digit strings that stand for the same number are the same string.
pub proof fn lemma_canonical_injective(a: Seq<u8>, b: Seq<u8>)
    requires
        is_canonical(a),
        is_canonical(b),
        be_value(a) == be_value(b),
    ensures
        a == b,
    decreases a.len(),
{
    if a.len() == 0 {
        if b.len() > 0 {
            lemma_canonical_positive(b);
        }
        assert(a =~= b);
    } else if b.len() == 0 {
        lemma_canonical_positive(a);
    } else {
        lemma_canonical_injective(a.drop_last(), b.drop_last());
        assert(a =~= a.drop_last().push(a.last()));
        assert(b =~= b.drop_last().push(b.last()));
    }
}

/// Leading zeros do not change the number.
proof fn lemma_skip_zeros(digits: Seq<u8>, k: int)
    requires
        0 <= k <= digits.len(),
        forall|j: int| 0 <= j < k ==> digits[j] == 0,
    ensures
        be_value(digits.subrange(k, digits.len() as int)) == be_value(digits),
    decreases k,
{
    let n = digits.len() as int;
    if k == 0 {
        assert(digits.subrange(0, n) =~= digits);
    } else {
        lemma_skip_zeros(digits, k - 1);
        let tail = digits.subrange(k - 1, n);
        assert(tail.drop_first() =~= digits.subrange(k, n));
        lemma_from_zero_is_value(tail);
        lemma_from_zero_is_value(digits.subrange(k, n));
    }
}

/// A non-negative amount of the settlement asset.
#[derive(Debug)]
pub struct Amount {
    digits: Vec<u8>,
}

impl View for Amount {
    type V = nat;

    closed spec fn view(&self) -> nat {
        be_value(self.digits@)
    }
}

impl Amount {
    #[verifier::type_invariant]
    spec fn canonical(self) -> bool {
        is_canonical(self.digits@)
    }

    /// The amount zero.
    pub fn zero() -> (r: Amount)
        ensures
            r@ == 0,
    {
        Amount { digits: Vec::new() }
    }

    /// Whether this amount is zero.
    pub fn is_zero(&self) -> (r: bool)
        ensures
            r == (self@ == 0),
    {
        proof {
            use_type_invariant(self);
            if self.digits@.len() > 0 {
                lemma_canonical_positive(self.digits@);
            }
        }
        self.digits.len() == 0
    }

    /// The amount that the big-endian bytes stand for. Leading zeros are
    /// accepted, and the empty string stands for zero.
    pub fn from_be_bytes(bytes: &[u8]) -> (r: Amount)
        ensures
            r@ == be_value(bytes@),
    {
        let n = bytes.len();
        let mut k: usize = 0;
        while k < n && bytes[k] == 0
            invariant
                k <= n,
                n == bytes@.len(),
                forall|j: int| 0 <= j < k ==> bytes@[j] == 0,
            decreases n - k,
        {
            k += 1;
        }
        let mut digits: Vec<u8> = Vec::new();
        let mut i: usize = k;
        while i < n
            invariant
                k <= i <= n,
                n == bytes@.len(),
                digits@ == bytes@.subrange(k as int, i as int),
            decreases n - i,
        {
            digits.push(bytes[i]);
            assert(digits@ =~= bytes@.subrange(k as int, i + 1));
            i += 1;
        }
        proof {
            lemma_skip_zeros(bytes@, k as int);
        }
        Amount { digits }
    }

    /// The canonical big-endian bytes of this amount: none for zero, and
    /// otherwise starting with a byte that is not zero.
    pub fn to_be_bytes(&self) -> (r: Vec<u8>)
        ensures
            be_value(r@) == self@,
            is_canonical(r@),
    {
        proof {
            use_type_invariant(self);
        }
        let mut out: Vec<u8> = Vec::new();
        let mut i: usize = 0;
        while i < self.digits.len()
            invariant
                i <= self.digits@.len(),
                out@ == self.digits@.subrange(0, i as int),
            decreases self.digits@.len() - i,
        {
            out.push(self.digits[i]);
            assert(out@ =~= self.digits@.subrange(0, i + 1));
            i += 1;
        }
        assert(out@ =~= self.digits@);
        out
    }

    /// The amount `value`.
    pub fn from_u128(value: u128) -> (r: Amount)
        ensures
            r@ == value,
    {
        let mut digits: Vec<u8> = Vec::new();
        let mut rest: u128 = value;
        while rest > 0
            invariant
                be_value_from(rest as nat, digits@) == value,
                rest == 0 ==> is_canonical(digits@),
            decreases rest,
        {
            let digit: u8 = (rest % 256) as u8;
            let ghost before = digits@;
            digits.insert(0, digit);
            assert(digits@.drop_first() =~= before);
            rest = rest / 256;
        }
        proof {
            lemma_from_zero_is_value(digits@);
        }
        Amount { digits }
    }
}

impl Clone for Amount {
    fn clone(&self) -> (r: Amount)
        ensures
            r@ == self@,
    {
        proof {
            use_type_invariant(self);
        }
        let mut digits: Vec<u8> = Vec::new();
        let mut i: usize = 0;
        while i < self.digits.len()
            invariant
                i <= self.digits@.len(),
                digits@ == self.digits@.subrange(0, i as int),
            decreases self.digits@.len() - i,
        {
            digits.push(self.digits[i]);
            assert(digits@ =~= self.digits@.subrange(0, i + 1));
            i += 1;
        }
        assert(digits@ =~= self.digits@);
        Amount { digits }
    }
}

impl PartialEq for Amount {
    fn eq(&self, other: &Amount) -> (r: bool) {
        proof {
            use_type_invariant(self);
            use_type_invariant(other);
            if self@ == other@ {
                lemma_canonical_injective(self.digits@, other.digits@);
            }
        }
        let n = self.digits.len();
        if n != other.digits.len() {
            return false;
        }
        let mut i: usize = 0;
        while i < n
            invariant
                i <= n,
                n == self.digits@.len(),
                n == other.digits@.len(),
                self@ == other@ ==> self.digits@ == other.digits@,
                forall|j: int| 0 <= j < i ==> self.digits@[j] == other.digits@[j],
            decreases n - i,
        {
            if self.digits[i] != other.digits[i] {
                return false;
            }
            i += 1;
        }
        assert(self.digits@ =~= other.digits@);
        true
    }
}

impl Eq for Amount {}

impl vstd::std_specs::cmp::PartialEqSpecImpl for Amount {
    open spec fn obeys_eq_spec() -> bool {
        true
    }

    open spec fn eq_spec(&self, other: &Amount) -> bool {
        self@ == other@
    }
}

} // verus!

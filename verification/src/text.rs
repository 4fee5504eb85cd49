//! Byte-level text utilities: ASCII digit parsing and space trimming.
//!
//! CIF feeds are fixed-width ASCII, so every textual field of a record is a
//! byte string. Numeric fields are unsigned base-10 digit runs; padding is
//! the ASCII space.

use vstd::prelude::*;

verus! {

/// ASCII space, the padding byte of CIF fields.
pub const SP: u8 = 32;

/// ASCII digit `0`.
pub const N0: u8 = 48;

/// ASCII digit `1`.
pub const N1: u8 = 49;

/// ASCII digit `2`.
pub const N2: u8 = 50;

/// ASCII digit `3`.
pub const N3: u8 = 51;

/// ASCII digit `4`.
pub const N4: u8 = 52;

/// ASCII digit `5`.
pub const N5: u8 = 53;

/// ASCII digit `6`.
pub const N6: u8 = 54;

/// ASCII digit `7`.
pub const N7: u8 = 55;

/// ASCII digit `8`.
pub const N8: u8 = 56;

/// ASCII digit `9`.
pub const N9: u8 = 57;

/// ASCII capital `A`.
pub const A: u8 = 65;

/// ASCII capital `B`.
pub const B: u8 = 66;

/// ASCII capital `C`.
pub const C: u8 = 67;

/// ASCII capital `D`.
pub const D: u8 = 68;

/// ASCII capital `E`.
pub const E: u8 = 69;

/// ASCII capital `F`.
pub const F: u8 = 70;

/// ASCII capital `G`.
pub const G: u8 = 71;

/// ASCII capital `H`.
pub const H: u8 = 72;

/// ASCII capital `I`.
pub const I: u8 = 73;

/// ASCII capital `J`.
pub const J: u8 = 74;

/// ASCII capital `K`.
pub const K: u8 = 75;

/// ASCII capital `L`.
pub const L: u8 = 76;

/// ASCII capital `M`.
pub const M: u8 = 77;

/// ASCII capital `N`.
pub const N: u8 = 78;

/// ASCII capital `O`.
pub const O: u8 = 79;

/// ASCII capital `P`.
pub const P: u8 = 80;

/// ASCII capital `Q`.
pub const Q: u8 = 81;

/// ASCII capital `R`.
pub const R: u8 = 82;

/// ASCII capital `S`.
pub const S: u8 = 83;

/// ASCII capital `T`.
pub const T: u8 = 84;

/// ASCII capital `U`.
pub const U: u8 = 85;

/// ASCII capital `V`.
pub const V: u8 = 86;

/// ASCII capital `W`.
pub const W: u8 = 87;

/// ASCII capital `X`.
pub const X: u8 = 88;

/// ASCII capital `Y`.
pub const Y: u8 = 89;

/// ASCII capital `Z`.
pub const Z: u8 = 90;

/// `b` is an ASCII decimal digit.
pub open spec fn is_digit(b: u8) -> bool {
    N0 <= b <= N9
}

/// Every byte of `s` is an ASCII decimal digit.
pub open spec fn all_digits(s: Seq<u8>) -> bool {
    forall|i: int| 0 <= i < s.len() ==> is_digit(#[trigger] s[i])
}

/// The base-10 value of a digit run, most significant digit first.
pub open spec fn digits_value(s: Seq<u8>) -> int
    decreases s.len(),
{
    if s.len() == 0 {
        0
    } else {
        digits_value(s.drop_last()) * 10 + (s.last() - N0)
    }
}

/// 10 to the `n`th power.
pub open spec fn pow10(n: nat) -> int
    decreases n,
{
    if n == 0 {
        1
    } else {
        10 * pow10((n - 1) as nat)
    }
}

/// A digit run's value is non-negative and below 10^len.
pub proof fn lemma_digits_value_bound(s: Seq<u8>)
    requires
        all_digits(s),
    ensures
        0 <= digits_value(s) < pow10(s.len()),
    decreases s.len(),
{
    if s.len() > 0 {
        assert(all_digits(s.drop_last())) by {
            assert(forall|i: int|
                0 <= i < s.len() - 1 ==> is_digit(#[trigger] s.drop_last()[i]) == is_digit(s[i]));
        }
        lemma_digits_value_bound(s.drop_last());
    }
}

/// The whole-string numeric reading of a field: defined exactly when the
/// field is a non-empty digit run.
pub open spec fn parse_number(s: Seq<u8>) -> Option<int> {
    if s.len() > 0 && all_digits(s) {
        Some(digits_value(s))
    } else {
        None
    }
}

/// Reads an unsigned base-10 number from `s`, failing on an empty field or
/// any non-digit byte.
pub fn parse_number_u32(s: &[u8]) -> (r: Option<u32>)
    requires
        s@.len() <= 9,
    ensures
        match r {
            Some(v) => parse_number(s@) == Some(v as int),
            None => parse_number(s@) is None,
        },
{
    if s.len() == 0 {
        return None;
    }
    let mut acc: u32 = 0;
    let mut i: usize = 0;
    while i < s.len()
        invariant
            0 <= i <= s@.len() <= 9,
            all_digits(s@.take(i as int)),
            acc == digits_value(s@.take(i as int)),
            0 <= acc < pow10(i as nat),
        decreases s@.len() - i,
    {
        let b = s[i];
        if b < N0 || b > N9 {
            assert(!is_digit(s@[i as int]));
            return None;
        }
        proof {
            reveal_with_fuel(pow10, 10);
            assert(s@.take(i + 1).drop_last() =~= s@.take(i as int));
            assert(s@.take(i + 1).last() == s@[i as int]);
            assert(all_digits(s@.take(i + 1)));
            lemma_digits_value_bound(s@.take(i + 1));
            lemma_pow10_increases(i as nat, 8);
            lemma_pow10_increases((i + 1) as nat, 9);
            assert(digits_value(s@.take(i + 1)) == acc * 10 + (s@[i as int] - N0));
        }
        acc = acc * 10 + (b - N0) as u32;
        i = i + 1;
    }
    proof {
        assert(s@.take(i as int) =~= s@);
    }
    Some(acc)
}

/// A number capped at 2^32: large fields saturate rather than overflow.
pub open spec fn cap32(n: int) -> int {
    if n < 0x1_0000_0000 {
        n
    } else {
        0x1_0000_0000
    }
}

/// The whole-string numeric reading of a field, capped at 2^32.
pub open spec fn capped_number(s: Seq<u8>) -> Option<int> {
    match parse_number(s) {
        Some(n) => Some(cap32(n)),
        None => None,
    }
}

/// Reads an unsigned base-10 number of any length, capping the value at
/// 2^32 so that a caller can tell overflow from a parse failure.
pub fn parse_number_capped(s: &[u8]) -> (r: Option<u64>)
    ensures
        match r {
            Some(v) => capped_number(s@) == Some(v as int),
            None => capped_number(s@) is None,
        },
{
    if s.len() == 0 {
        return None;
    }
    let mut acc: u64 = 0;
    let mut i: usize = 0;
    while i < s.len()
        invariant
            0 <= i <= s@.len(),
            all_digits(s@.take(i as int)),
            acc == cap32(digits_value(s@.take(i as int))),
        decreases s@.len() - i,
    {
        let b = s[i];
        if b < N0 || b > N9 {
            assert(!is_digit(s@[i as int]));
            return None;
        }
        proof {
            assert(s@.take(i + 1).drop_last() =~= s@.take(i as int));
            assert(s@.take(i + 1).last() == s@[i as int]);
            assert(all_digits(s@.take(i + 1)));
            lemma_digits_value_bound(s@.take(i as int));
            assert(digits_value(s@.take(i + 1)) == digits_value(s@.take(i as int)) * 10 + (s@[
                i as int
            ] - N0));
        }
        if acc >= 0x1_0000_0000 {
            acc = 0x1_0000_0000;
        } else {
            let next = acc * 10 + (b - N0) as u64;
            if next >= 0x1_0000_0000 {
                acc = 0x1_0000_0000;
            } else {
                acc = next;
            }
        }
        i = i + 1;
    }
    proof {
        assert(s@.take(i as int) =~= s@);
    }
    Some(acc)
}

/// `pow10` is monotone in its exponent.
pub proof fn lemma_pow10_increases(m: nat, n: nat)
    requires
        m <= n,
    ensures
        pow10(m) <= pow10(n),
        pow10(m) >= 1,
    decreases n,
{
    if m < n {
        lemma_pow10_increases(m, (n - 1) as nat);
    } else if n > 0 {
        lemma_pow10_increases((m - 1) as nat, (n - 1) as nat);
    }
}

/// `s` without its leading spaces.
pub open spec fn trim_left(s: Seq<u8>) -> Seq<u8>
    decreases s.len(),
{
    if s.len() > 0 && s[0] == SP {
        trim_left(s.drop_first())
    } else {
        s
    }
}

/// `s` without its trailing spaces.
pub open spec fn trim_right(s: Seq<u8>) -> Seq<u8>
    decreases s.len(),
{
    if s.len() > 0 && s.last() == SP {
        trim_right(s.drop_last())
    } else {
        s
    }
}

/// `s` without leading and trailing spaces.
pub open spec fn trim_spaces(s: Seq<u8>) -> Seq<u8> {
    trim_right(trim_left(s))
}

/// `s` carries no leading or trailing space.
pub open spec fn is_trimmed(s: Seq<u8>) -> bool {
    s.len() > 0 ==> s[0] != SP && s.last() != SP
}

proof fn lemma_trim_left_shape(s: Seq<u8>)
    ensures
        trim_left(s).len() <= s.len(),
        trim_left(s) == s.subrange(s.len() - trim_left(s).len(), s.len() as int),
        trim_left(s).len() > 0 ==> trim_left(s)[0] != SP,
    decreases s.len(),
{
    if s.len() > 0 && s[0] == SP {
        lemma_trim_left_shape(s.drop_first());
        assert(s.drop_first().subrange(
            s.drop_first().len() - trim_left(s).len(),
            s.drop_first().len() as int,
        ) =~= s.subrange(s.len() - trim_left(s).len(), s.len() as int));
    } else {
        assert(s =~= s.subrange(0, s.len() as int));
    }
}

proof fn lemma_trim_right_shape(s: Seq<u8>)
    ensures
        trim_right(s).len() <= s.len(),
        trim_right(s) == s.subrange(0, trim_right(s).len() as int),
        trim_right(s).len() > 0 ==> trim_right(s).last() != SP,
    decreases s.len(),
{
    if s.len() > 0 && s.last() == SP {
        lemma_trim_right_shape(s.drop_last());
        assert(s.drop_last().subrange(0, trim_right(s).len() as int) =~= s.subrange(
            0,
            trim_right(s).len() as int,
        ));
    } else {
        assert(s =~= s.subrange(0, s.len() as int));
    }
}

/// Trimming only shortens a field and leaves no space at either edge.
pub proof fn lemma_trim_spaces_shape(s: Seq<u8>)
    ensures
        trim_spaces(s).len() <= s.len(),
        is_trimmed(trim_spaces(s)),
{
    lemma_trim_left_shape(s);
    lemma_trim_right_shape(trim_left(s));
    let t = trim_spaces(s);
    if t.len() > 0 {
        assert(t[0] == trim_left(s)[0]);
    }
}

/// Removes leading and trailing spaces from a field.
pub fn trim_bytes(s: &[u8]) -> (r: Vec<u8>)
    ensures
        r@ == trim_spaces(s@),
{
    let len = s.len();
    proof {
        assert(s@ =~= s@.subrange(0, s@.len() as int));
    }
    let mut lo: usize = 0;
    while lo < len && s[lo] == SP
        invariant
            0 <= lo <= len == s@.len(),
            trim_left(s@) == trim_left(s@.subrange(lo as int, len as int)),
        decreases len - lo,
    {
        proof {
            let cur = s@.subrange(lo as int, len as int);
            assert(cur[0] == s@[lo as int]);
            assert(cur.drop_first() =~= s@.subrange(lo + 1, len as int));
        }
        lo = lo + 1;
    }
    proof {
        let cur = s@.subrange(lo as int, len as int);
        if lo < len {
            assert(cur[0] == s@[lo as int]);
        }
        assert(trim_left(s@) == cur);
    }
    let mut hi: usize = len;
    while hi > lo && s[hi - 1] == SP
        invariant
            0 <= lo <= hi <= len == s@.len(),
            trim_left(s@) == s@.subrange(lo as int, len as int),
            trim_right(trim_left(s@)) == trim_right(s@.subrange(lo as int, hi as int)),
        decreases hi,
    {
        proof {
            let cur = s@.subrange(lo as int, hi as int);
            assert(cur.last() == s@[hi - 1]);
            assert(cur.drop_last() =~= s@.subrange(lo as int, hi - 1));
        }
        hi = hi - 1;
    }
    proof {
        let cur = s@.subrange(lo as int, hi as int);
        if hi > lo {
            assert(cur.last() == s@[hi - 1]);
        }
        assert(trim_spaces(s@) == cur);
    }
    let mut r: Vec<u8> = Vec::new();
    let mut k: usize = lo;
    while k < hi
        invariant
            lo <= k <= hi <= s@.len(),
            r@ == s@.subrange(lo as int, k as int),
        decreases hi - k,
    {
        r.push(s[k]);
        proof {
            assert(s@.subrange(lo as int, k + 1) =~= s@.subrange(lo as int, k as int).push(
                s@[k as int],
            ));
        }
        k = k + 1;
    }
    r
}

/// Byte-for-byte equality of two fields.
pub fn bytes_eq(a: &[u8], b: &[u8]) -> (r: bool)
    ensures
        r == (a@ == b@),
{
    if a.len() != b.len() {
        return false;
    }
    let mut i: usize = 0;
    while i < a.len()
        invariant
            0 <= i <= a@.len() == b@.len(),
            forall|j: int| 0 <= j < i ==> a@[j] == b@[j],
        decreases a@.len() - i,
    {
        if a[i] != b[i] {
            return false;
        }
        i = i + 1;
    }
    proof {
        assert(a@ =~= b@);
    }
    true
}

/// An owned copy of a byte field.
pub fn copy_bytes(s: &[u8]) -> (r: Vec<u8>)
    ensures
        r@ == s@,
{
    let mut r: Vec<u8> = Vec::new();
    let mut i: usize = 0;
    while i < s.len()
        invariant
            0 <= i <= s@.len(),
            r@ == s@.take(i as int),
        decreases s@.len() - i,
    {
        r.push(s[i]);
        proof {
            assert(s@.take(i + 1) =~= s@.take(i as int).push(s@[i as int]));
        }
        i = i + 1;
    }
    proof {
        assert(s@.take(i as int) =~= s@);
    }
    r
}

} // verus!

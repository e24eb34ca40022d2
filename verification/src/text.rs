//! Verified text utilities: string equality, substring search, and
//! conversion between unsigned integers and their decimal notation.

use vstd::prelude::*;

verus! {

/// Decimal digit.
pub open spec fn is_digit(c: char) -> bool {
    '0' as u32 <= c as u32 && c as u32 <= '9' as u32
}

/// Numeric value of a decimal digit.
pub open spec fn digit_val(c: char) -> nat {
    (c as u32 - '0' as u32) as nat
}

/// Every character of `s` is a decimal digit.
pub open spec fn all_digits(s: Seq<char>) -> bool {
    forall|i: int| 0 <= i < s.len() ==> is_digit(#[trigger] s[i])
}

/// The number denoted by a digit string (most significant digit first).
pub open spec fn dec_value(s: Seq<char>) -> nat
    decreases s.len(),
{
    if s.len() == 0 {
        0
    } else {
        dec_value(s.drop_last()) * 10 + digit_val(s.last())
    }
}

/// The digit character for a value below ten.
pub open spec fn digit_char(d: nat) -> char {
    if d == 0 {
        '0'
    } else if d == 1 {
        '1'
    } else if d == 2 {
        '2'
    } else if d == 3 {
        '3'
    } else if d == 4 {
        '4'
    } else if d == 5 {
        '5'
    } else if d == 6 {
        '6'
    } else if d == 7 {
        '7'
    } else if d == 8 {
        '8'
    } else {
        '9'
    }
}

/// Decimal notation of a positive number, without leading zeros.
pub open spec fn dec_str_pos(n: nat) -> Seq<char>
    decreases n,
{
    if n == 0 {
        Seq::empty()
    } else {
        dec_str_pos(n / 10).push(digit_char(n % 10))
    }
}

/// Decimal notation of a number: `"0"` for zero, otherwise no leading zeros.
pub open spec fn dec_str(n: nat) -> Seq<char> {
    if n == 0 {
        seq!['0']
    } else {
        dec_str_pos(n)
    }
}

/// Ten to the `k`.
pub open spec fn pow10(k: nat) -> nat
    decreases k,
{
    if k == 0 {
        1
    } else {
        10 * pow10((k - 1) as nat)
    }
}

/// `needle` occurs contiguously inside `hay`.
pub open spec fn seq_contains(hay: Seq<char>, needle: Seq<char>) -> bool {
    exists|i: int|
        0 <= i <= hay.len() - needle.len() && #[trigger] hay.subrange(i, i + needle.len())
            == needle
}

/// Character-for-character string equality.
pub fn str_eq(a: &str, b: &str) -> (r: bool)
    ensures
        r == (a@ == b@),
{
    let na = a.unicode_len();
    let nb = b.unicode_len();
    if na != nb {
        assert(a@ != b@) by {
            assert(a@.len() != b@.len());
        }
        return false;
    }
    let mut i: usize = 0;
    while i < na
        invariant
            a@.len() == na == nb == b@.len(),
            0 <= i <= na,
            forall|j: int| 0 <= j < i ==> a@[j] == b@[j],
        decreases na - i,
    {
        if a.get_char(i) != b.get_char(i) {
            return false;
        }
        i = i + 1;
    }
    proof {
        assert(a@ =~= b@);
    }
    true
}

/// Whether `needle` occurs contiguously inside `hay`.
pub fn str_contains(hay: &str, needle: &str) -> (r: bool)
    ensures
        r == seq_contains(hay@, needle@),
{
    let nh = hay.unicode_len();
    let nn = needle.unicode_len();
    if nn > nh {
        assert(!seq_contains(hay@, needle@));
        return false;
    }
    let mut i: usize = 0;
    while i <= nh - nn
        invariant
            hay@.len() == nh,
            needle@.len() == nn <= nh,
            0 <= i <= nh - nn + 1,
            forall|k: int|
                0 <= k < i ==> #[trigger] hay@.subrange(k, k + needle@.len()) != needle@,
        decreases nh - nn + 1 - i,
    {
        let mut j: usize = 0;
        let mut matched = true;
        while j < nn
            invariant
                hay@.len() == nh,
                needle@.len() == nn,
                0 <= i <= nh - nn,
                0 <= j <= nn,
                matched == (forall|k: int| 0 <= k < j ==> hay@[i + k] == needle@[k]),
            decreases nn - j,
        {
            if hay.get_char(i + j) != needle.get_char(j) {
                matched = false;
                assert(hay@[i + j as int] != needle@[j as int]);
                j = nn;
            } else {
                j = j + 1;
            }
        }
        if matched {
            assert(hay@.subrange(i as int, i + needle@.len()) =~= needle@);
            return true;
        }
        assert(hay@.subrange(i as int, i + needle@.len()) != needle@) by {
            if hay@.subrange(i as int, i + needle@.len()) == needle@ {
                let k = choose|k: int|
                    0 <= k < nn && hay@[i + k] != needle@[k];
                assert(hay@.subrange(i as int, i + needle@.len())[k] == hay@[i + k]);
            }
        }
        i = i + 1;
    }
    assert(!seq_contains(hay@, needle@));
    false
}

/// Appends the decimal digit `d` to `out`.
pub fn append_digit(out: &mut String, d: u128)
    requires
        d < 10,
    ensures
        final(out)@ == old(out)@.push(digit_char(d as nat)),
{
    proof {
        reveal_strlit("0");
        reveal_strlit("1");
        reveal_strlit("2");
        reveal_strlit("3");
        reveal_strlit("4");
        reveal_strlit("5");
        reveal_strlit("6");
        reveal_strlit("7");
        reveal_strlit("8");
        reveal_strlit("9");
    }
    if d == 0 {
        out.append("0");
    } else if d == 1 {
        out.append("1");
    } else if d == 2 {
        out.append("2");
    } else if d == 3 {
        out.append("3");
    } else if d == 4 {
        out.append("4");
    } else if d == 5 {
        out.append("5");
    } else if d == 6 {
        out.append("6");
    } else if d == 7 {
        out.append("7");
    } else if d == 8 {
        out.append("8");
    } else {
        out.append("9");
    }
    assert(out@ =~= old(out)@.push(digit_char(d as nat)));
}

/// `dec_str_pos` of a quotient extends to the whole number.
proof fn lemma_dec_str_pos_step(m: nat)
    requires
        m > 0,
    ensures
        dec_str_pos(m) == dec_str_pos(m / 10).push(digit_char(m % 10)),
{
}

/// The decimal notation of `n`, appended to `out`.
pub fn append_dec_u128(out: &mut String, n: u128)
    ensures
        final(out)@ == old(out)@ + dec_str(n as nat),
{
    if n == 0 {
        append_digit(out, 0);
        assert(out@ =~= old(out)@ + dec_str(0));
        return ;
    }
    let mut digits: Vec<u128> = Vec::new();
    let mut m: u128 = n;
    while m > 0
        invariant
            0 <= m <= n,
            n > 0,
            forall|k: int| 0 <= k < digits@.len() ==> #[trigger] digits@[k] < 10,
            dec_str_pos(n as nat) == dec_str_pos(m as nat) + rev_digit_chars(digits@),
        decreases m,
    {
        let ghost old_digits = digits@;
        let d = m % 10;
        digits.push(d);
        proof {
            lemma_dec_str_pos_step(m as nat);
            assert(rev_digit_chars(digits@) =~= seq![digit_char((m % 10) as nat)]
                + rev_digit_chars(old_digits));
            assert(dec_str_pos((m / 10) as nat) + rev_digit_chars(digits@) =~= dec_str_pos(
                m as nat,
            ) + rev_digit_chars(old_digits));
        }
        m = m / 10;
    }
    assert(dec_str_pos(n as nat) =~= rev_digit_chars(digits@));
    let k = digits.len();
    let mut i: usize = 0;
    while i < k
        invariant
            k == digits@.len(),
            0 <= i <= k,
            forall|j: int| 0 <= j < digits@.len() ==> #[trigger] digits@[j] < 10,
            out@ == old(out)@ + rev_digit_chars(digits@).subrange(0, i as int),
        decreases k - i,
    {
        let d = digits[k - 1 - i];
        append_digit(out, d);
        proof {
            assert(rev_digit_chars(digits@).subrange(0, i + 1) =~= rev_digit_chars(
                digits@,
            ).subrange(0, i as int).push(digit_char(digits@[k - 1 - i] as nat)));
        }
        i = i + 1;
    }
    proof {
        assert(rev_digit_chars(digits@).subrange(0, digits@.len() as int) =~= rev_digit_chars(
            digits@,
        ));
        assert(out@ =~= old(out)@ + dec_str(n as nat));
    }
}

/// The digit characters of `ds` (least significant first), most significant
/// first.
pub open spec fn rev_digit_chars(ds: Seq<u128>) -> Seq<char> {
    Seq::new(ds.len(), |i: int| digit_char(ds[ds.len() - 1 - i] as nat))
}

} // verus!

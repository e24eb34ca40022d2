//! Token amounts in the smallest denomination (yocto units), with the
//! human notation accepted at the amount stage: a decimal count of whole
//! tokens with an optional fractional part (`5`, `0.5 NEAR`, `10near`),
//! or a raw count of smallest units (`10000 yoctoNEAR`).  One whole token
//! is `10^24` smallest units.

use vstd::prelude::*;

use crate::text::{
    all_digits, dec_str, dec_str_pos, dec_value, digit_char, digit_val, is_digit, pow10,
    append_dec_u128,
};

verus! {

/// Smallest units per whole token.
pub const YOCTO_PER_NEAR: u128 = 1_000_000_000_000_000_000_000_000;

/// `pow10(24)` written out.
pub proof fn lemma_yocto_per_near()
    ensures
        pow10(24) == YOCTO_PER_NEAR,
{
    reveal_with_fuel(pow10, 25);
}

/// Index of the first occurrence of `c` in `s`, or `s.len()` if absent.
pub open spec fn find_char(s: Seq<char>, c: char) -> int
    decreases s.len(),
{
    if s.len() == 0 {
        0
    } else if s[0] == c {
        0
    } else {
        1 + find_char(s.subrange(1, s.len() as int), c)
    }
}

/// Case-insensitive match of `a` against a lowercase letter `b`.
pub open spec fn eq_ci(a: char, b: char) -> bool {
    a == b || ('A' as u32 <= a as u32 && a as u32 <= 'Z' as u32 && a as u32 + 32 == b as u32)
}

/// `s` ends with `pat`, compared case-insensitively against the lowercase
/// pattern.
pub open spec fn suffix_ci(s: Seq<char>, pat: Seq<char>) -> bool {
    s.len() >= pat.len() && forall|i: int|
        0 <= i < pat.len() ==> eq_ci(s[s.len() - pat.len() + i], #[trigger] pat[i])
}

/// The whole-token unit suffix.
pub open spec fn near_pat() -> Seq<char> {
    seq!['n', 'e', 'a', 'r']
}

/// The smallest-unit suffix.
pub open spec fn yocto_pat() -> Seq<char> {
    seq!['y', 'o', 'c', 't', 'o', 'n', 'e', 'a', 'r']
}

/// Drops one space between the number and a unit suffix, if present.
pub open spec fn strip_unit_space(b: Seq<char>) -> Seq<char> {
    if b.len() > 0 && b.last() == ' ' {
        b.drop_last()
    } else {
        b
    }
}

/// The value, in smallest units, of a whole-token decimal numeral: an
/// integer part, optionally followed by `.` and at most 24 fraction
/// digits.  `None` when the numeral is malformed or the value does not
/// fit in a `u128`.
pub open spec fn spec_parse_number(b: Seq<char>) -> Option<u128> {
    let dot = find_char(b, '.');
    if dot == b.len() {
        if b.len() > 0 && all_digits(b) && dec_value(b) * pow10(24) <= u128::MAX {
            Some((dec_value(b) * pow10(24)) as u128)
        } else {
            None
        }
    } else {
        let ip = b.subrange(0, dot);
        let fp = b.subrange(dot + 1, b.len() as int);
        if ip.len() > 0 && 0 < fp.len() <= 24 && all_digits(ip) && all_digits(fp) && dec_value(ip)
            * pow10(24) + dec_value(fp) * pow10((24 - fp.len()) as nat) <= u128::MAX {
            Some((dec_value(ip) * pow10(24) + dec_value(fp) * pow10((24 - fp.len()) as nat)) as u128)
        } else {
            None
        }
    }
}

/// The value, in smallest units, of an amount as the operator writes it.
pub open spec fn spec_parse_amount(s: Seq<char>) -> Option<u128> {
    if suffix_ci(s, yocto_pat()) {
        let b = strip_unit_space(s.take(s.len() - 9));
        if b.len() > 0 && all_digits(b) && dec_value(b) <= u128::MAX {
            Some(dec_value(b) as u128)
        } else {
            None
        }
    } else if suffix_ci(s, near_pat()) {
        spec_parse_number(strip_unit_space(s.take(s.len() - 4)))
    } else {
        spec_parse_number(s)
    }
}

/// Exactly `k` decimal digits of `f`, with leading zeros.
pub open spec fn dec_str_k(f: nat, k: nat) -> Seq<char>
    decreases k,
{
    if k == 0 {
        Seq::empty()
    } else {
        dec_str_k(f / 10, (k - 1) as nat).push(digit_char(f % 10))
    }
}

/// Removes trailing `'0'` characters.
pub open spec fn trim_zeros(s: Seq<char>) -> Seq<char>
    decreases s.len(),
{
    if s.len() > 0 && s.last() == '0' {
        trim_zeros(s.drop_last())
    } else {
        s
    }
}

/// The canonical notation of an amount of `v` smallest units: the
/// whole-token count, a fractional part only when it is non-zero and with
/// trailing zeros removed, and the whole-token unit.
pub open spec fn spec_format_amount(v: u128) -> Seq<char> {
    let whole = v as nat / pow10(24);
    let frac = v as nat % pow10(24);
    if frac == 0 {
        dec_str(whole) + seq![' ', 'N', 'E', 'A', 'R']
    } else {
        dec_str(whole) + seq!['.'] + trim_zeros(dec_str_k(frac, 24)) + seq![' ', 'N', 'E', 'A', 'R']
    }
}

/// Facts about the character of a digit value below ten.
pub proof fn lemma_digit_char(d: nat)
    requires
        d < 10,
    ensures
        is_digit(digit_char(d)),
        digit_val(digit_char(d)) == d,
        d > 0 ==> digit_char(d) != '0',
        digit_char(d) != '.',
        digit_char(d) != ' ',
        d == 0 ==> digit_char(d) == '0',
{
}

/// The positive decimal notation denotes its number.
pub proof fn lemma_dec_str_pos_props(n: nat)
    requires
        n > 0,
    ensures
        all_digits(dec_str_pos(n)),
        dec_value(dec_str_pos(n)) == n,
        dec_str_pos(n).len() >= 1,
        dec_str_pos(n)[0] != '0',
    decreases n,
{
    lemma_digit_char(n % 10);
    if n / 10 == 0 {
        assert(dec_str_pos(n / 10) =~= Seq::<char>::empty());
        assert(dec_str_pos(n) =~= seq![digit_char(n % 10)]);
        assert(dec_str_pos(n).drop_last() =~= Seq::<char>::empty());
        assert(dec_value(Seq::<char>::empty()) == 0);
    } else {
        lemma_dec_str_pos_props(n / 10);
        assert(dec_str_pos(n).drop_last() =~= dec_str_pos(n / 10));
        assert(dec_str_pos(n)[0] == dec_str_pos(n / 10)[0]);
    }
}

/// The decimal notation denotes its number.
pub proof fn lemma_dec_str_props(n: nat)
    ensures
        all_digits(dec_str(n)),
        dec_value(dec_str(n)) == n,
        dec_str(n).len() >= 1,
    decreases n,
{
    if n == 0 {
        lemma_digit_char(0);
        assert(dec_str(0) =~= seq!['0']);
        assert(dec_str(0).drop_last() =~= Seq::<char>::empty());
        assert(dec_value(Seq::<char>::empty()) == 0);
        assert(dec_value(dec_str(0)) == dec_value(Seq::<char>::empty()) * 10 + digit_val('0'));
    } else {
        lemma_dec_str_pos_props(n);
    }
}

/// A digit string of length `k` denotes less than `10^k`.
pub proof fn lemma_dec_value_bound(s: Seq<char>)
    requires
        all_digits(s),
    ensures
        dec_value(s) < pow10(s.len()),
    decreases s.len(),
{
    if s.len() > 0 {
        lemma_dec_value_bound(s.drop_last());
        assert(dec_value(s.drop_last()) <= pow10((s.len() - 1) as nat) - 1);
        assert(dec_value(s) <= (pow10((s.len() - 1) as nat) - 1) * 10 + 9) by (nonlinear_arith)
            requires
                dec_value(s) == dec_value(s.drop_last()) * 10 + digit_val(s.last()),
                dec_value(s.drop_last()) <= pow10((s.len() - 1) as nat) - 1,
                digit_val(s.last()) <= 9,
                pow10((s.len() - 1) as nat) >= 1,
        {
        }
        lemma_pow10_pos((s.len() - 1) as nat);
    }
}

/// `pow10` is positive.
pub proof fn lemma_pow10_pos(k: nat)
    ensures
        pow10(k) >= 1,
    decreases k,
{
    if k > 0 {
        lemma_pow10_pos((k - 1) as nat);
    }
}

/// `pow10` is monotone.
pub proof fn lemma_pow10_mono(i: nat, j: nat)
    requires
        i <= j,
    ensures
        pow10(i) <= pow10(j),
    decreases j,
{
    if i < j {
        lemma_pow10_mono(i, (j - 1) as nat);
        lemma_pow10_pos((j - 1) as nat);
    }
}

/// A prefix of a digit string denotes no more than the whole string.
pub proof fn lemma_dec_value_prefix_mono(s: Seq<char>, i: int)
    requires
        all_digits(s),
        0 <= i <= s.len(),
    ensures
        dec_value(s.take(i)) <= dec_value(s),
    decreases s.len(),
{
    if i < s.len() {
        assert(s.drop_last().take(i) =~= s.take(i));
        assert(forall|j: int| 0 <= j < s.len() - 1 ==> s.drop_last()[j] == s[j]);
        lemma_dec_value_prefix_mono(s.drop_last(), i);
        assert(dec_value(s) >= dec_value(s.drop_last()) * 10) by (nonlinear_arith)
            requires
                dec_value(s) == dec_value(s.drop_last()) * 10 + digit_val(s.last()),
        {
        }
    } else {
        assert(s.take(i) =~= s);
    }
}

/// Any index with the first-occurrence properties is `find_char`.
pub proof fn lemma_find_char_unique(s: Seq<char>, c: char, d: int)
    requires
        0 <= d <= s.len(),
        d < s.len() ==> s[d] == c,
        forall|j: int| 0 <= j < d ==> s[j] != c,
    ensures
        find_char(s, c) == d,
    decreases s.len(),
{
    if s.len() > 0 {
        if s[0] == c {
        } else {
            lemma_find_char_unique(s.subrange(1, s.len() as int), c, d - 1);
        }
    }
}

/// A fixed-width digit rendering denotes its number.
pub proof fn lemma_dec_str_k_props(f: nat, k: nat)
    requires
        f < pow10(k),
    ensures
        all_digits(dec_str_k(f, k)),
        dec_str_k(f, k).len() == k,
        dec_value(dec_str_k(f, k)) == f,
    decreases k,
{
    if k == 0 {
    } else {
        assert(f / 10 < pow10((k - 1) as nat)) by (nonlinear_arith)
            requires
                f < pow10(k),
                pow10(k) == 10 * pow10((k - 1) as nat),
        {
        }
        lemma_dec_str_k_props(f / 10, (k - 1) as nat);
        lemma_digit_char(f % 10);
        assert(dec_str_k(f, k).drop_last() =~= dec_str_k(f / 10, (k - 1) as nat));
    }
}

/// Removing trailing zeros divides the value by the matching power of
/// ten.
pub proof fn lemma_trim_zeros_value(s: Seq<char>)
    requires
        all_digits(s),
    ensures
        all_digits(trim_zeros(s)),
        trim_zeros(s).len() <= s.len(),
        dec_value(s) == dec_value(trim_zeros(s)) * pow10((s.len() - trim_zeros(s).len()) as nat),
        trim_zeros(s).len() > 0 ==> trim_zeros(s).last() != '0',
        dec_value(s) > 0 ==> trim_zeros(s).len() > 0,
    decreases s.len(),
{
    if s.len() > 0 && s.last() == '0' {
        assert(digit_val('0') == 0);
        lemma_trim_zeros_value(s.drop_last());
        let t = trim_zeros(s.drop_last());
        let k = (s.len() - 1 - t.len()) as nat;
        assert(dec_value(s) == dec_value(s.drop_last()) * 10);
        assert(dec_value(t) * pow10(k) * 10 == dec_value(t) * pow10(k + 1)) by (nonlinear_arith)
            requires
                pow10(k + 1) == 10 * pow10(k),
        {
        }
    } else if s.len() > 0 {
        assert(trim_zeros(s) == s);
        assert(pow10(0) == 1);
        assert(dec_value(s) == dec_value(s) * pow10(0));
        assert(s.last() != '0');
        if dec_value(s) > 0 {
        }
    }
}

/// If the last `t` characters are `'0'` and the one before them is not,
/// trimming removes exactly those `t`.
pub proof fn lemma_trim_trailing_zeros(s: Seq<char>, t: int)
    requires
        0 <= t <= s.len(),
        forall|j: int| s.len() - t <= j < s.len() ==> s[j] == '0',
        t == s.len() || s[s.len() - t - 1] != '0',
    ensures
        trim_zeros(s) == s.take(s.len() - t),
    decreases t,
{
    if t == 0 {
        if s.len() > 0 {
            assert(s.last() != '0');
        }
        assert(s.take(s.len() as int) =~= s);
    } else {
        assert(s.last() == '0');
        lemma_trim_trailing_zeros(s.drop_last(), t - 1);
        assert(s.drop_last().take(s.len() - t) =~= s.take(s.len() - t));
    }
}

/// An all-zero digit string denotes zero.
pub proof fn lemma_dec_value_zeros(s: Seq<char>)
    requires
        forall|j: int| 0 <= j < s.len() ==> s[j] == '0',
    ensures
        dec_value(s) == 0,
    decreases s.len(),
{
    if s.len() > 0 {
        lemma_dec_value_zeros(s.drop_last());
        assert(digit_val('0') == 0);
    }
}


/// An exact token amount in smallest units.
#[derive(Clone, Copy, Debug, PartialEq, Eq, Structural)]
pub struct NearBalance {
    yocto: u128,
}

impl View for NearBalance {
    type V = int;

    closed spec fn view(&self) -> int {
        self.yocto as int
    }
}

impl NearBalance {
    /// An amount given directly in smallest units.
    pub fn from_yoctonear(v: u128) -> (r: NearBalance)
        ensures
            r@ == v as int,
    {
        NearBalance { yocto: v }
    }

    /// The amount in smallest units.
    pub fn to_yoctonear(&self) -> (r: u128)
        ensures
            r as int == self@,
    {
        self.yocto
    }

    /// Whether this amount is no more than `other`.
    pub fn le(&self, other: &NearBalance) -> (r: bool)
        ensures
            r == (self@ <= other@),
    {
        self.yocto <= other.yocto
    }

    /// Reads an amount written in the accepted notations.
    pub fn parse(s: &str) -> (r: Option<NearBalance>)
        ensures
            r is Some <==> spec_parse_amount(s@) is Some,
            r matches Some(b) ==> spec_parse_amount(s@) == Some(b.to_yocto_spec()),
    {
        let n = s.unicode_len();
        let pat_yocto: Vec<char> = vec!['y', 'o', 'c', 't', 'o', 'n', 'e', 'a', 'r'];
        let pat_near: Vec<char> = vec!['n', 'e', 'a', 'r'];
        proof {
            assert(pat_yocto@ =~= yocto_pat());
            assert(pat_near@ =~= near_pat());
        }
        if has_suffix_ci(s, &pat_yocto) {
            let end = strip_space_end(s, n - 9);
            if end == 0 {
                return None;
            }
            match parse_digits(s, 0, end) {
                Some(v) => {
                    proof {
                        assert(s@.subrange(0, end as int) =~= s@.take(end as int));
                    }
                    Some(NearBalance { yocto: v })
                },
                None => {
                    proof {
                        assert(s@.subrange(0, end as int) =~= s@.take(end as int));
                    }
                    None
                },
            }
        } else if has_suffix_ci(s, &pat_near) {
            let end = strip_space_end(s, n - 4);
            match parse_number_range(s, end) {
                Some(v) => Some(NearBalance { yocto: v }),
                None => None,
            }
        } else {
            proof {
                assert(s@.take(n as int) =~= s@);
            }
            match parse_number_range(s, n) {
                Some(v) => Some(NearBalance { yocto: v }),
                None => None,
            }
        }
    }

    /// The amount in smallest units, as a mathematical value.
    pub open spec fn to_yocto_spec(&self) -> u128 {
        self@ as u128
    }

    /// Writes the amount in the canonical whole-token notation.
    pub fn to_text(&self) -> (r: String)
        ensures
            r@ == spec_format_amount(self.to_yocto_spec()),
    {
        proof {
            lemma_yocto_per_near();
        }
        let whole = self.yocto / YOCTO_PER_NEAR;
        let frac = self.yocto % YOCTO_PER_NEAR;
        let mut out = String::new();
        append_dec_u128(&mut out, whole);
        if frac != 0 {
            proof {
                reveal_strlit(".");
            }
            out.append(".");
            append_frac(&mut out, frac);
        }
        proof {
            reveal_strlit(" NEAR");
            assert(" NEAR"@ =~= seq![' ', 'N', 'E', 'A', 'R']);
        }
        out.append(" NEAR");
        proof {
            assert(out@ =~= spec_format_amount(self.to_yocto_spec()));
        }
        out
    }
}

/// Drops one trailing space from `s[..end0]`, per [`strip_unit_space`].
fn strip_space_end(s: &str, end0: usize) -> (end: usize)
    requires
        end0 <= s@.len(),
    ensures
        end <= end0,
        s@.take(end as int) == strip_unit_space(s@.take(end0 as int)),
{
    if end0 > 0 && s.get_char(end0 - 1) == ' ' {
        proof {
            assert(s@.take(end0 as int).last() == s@[end0 - 1]);
            assert(s@.take(end0 as int).drop_last() =~= s@.take(end0 - 1));
        }
        end0 - 1
    } else {
        proof {
            if end0 > 0 {
                assert(s@.take(end0 as int).last() == s@[end0 - 1]);
            }
            assert(strip_unit_space(s@.take(end0 as int)) =~= s@.take(end0 as int));
        }
        end0
    }
}

/// `s` ends with `pat`, case-insensitively against the lowercase pattern.
fn has_suffix_ci(s: &str, pat: &Vec<char>) -> (r: bool)
    ensures
        r == suffix_ci(s@, pat@),
{
    let n = s.unicode_len();
    let m = pat.len();
    if n < m {
        return false;
    }
    let mut i: usize = 0;
    while i < m
        invariant
            m == pat@.len() <= n == s@.len(),
            0 <= i <= m,
            forall|j: int| 0 <= j < i ==> eq_ci(s@[n - m + j], #[trigger] pat@[j]),
        decreases m - i,
    {
        let a = s.get_char(n - m + i);
        let b = pat[i];
        let au = a as u32;
        let bu = b as u32;
        let ok = a == b || (65 <= au && au <= 90 && au + 32 == bu);
        if !ok {
            assert(!eq_ci(s@[n - m + i as int], pat@[i as int]));
            return false;
        }
        i = i + 1;
    }
    true
}

/// Reads the digit run `s[a..b]` as a number; `None` on a non-digit or
/// when the value exceeds `u128`.
pub(crate) fn parse_digits(s: &str, a: usize, b: usize) -> (r: Option<u128>)
    requires
        a <= b <= s@.len(),
    ensures
        r is Some <==> (all_digits(s@.subrange(a as int, b as int)) && dec_value(
            s@.subrange(a as int, b as int),
        ) <= u128::MAX),
        r matches Some(v) ==> v as nat == dec_value(s@.subrange(a as int, b as int)),
{
    let ghost sub = s@.subrange(a as int, b as int);
    let mut acc: u128 = 0;
    let mut i: usize = a;
    while i < b
        invariant
            a <= i <= b <= s@.len(),
            sub == s@.subrange(a as int, b as int),
            all_digits(s@.subrange(a as int, i as int)),
            acc as nat == dec_value(s@.subrange(a as int, i as int)),
        decreases b - i,
    {
        let c = s.get_char(i);
        let u = c as u32;
        if !(48 <= u && u <= 57) {
            proof {
                assert(sub[i - a] == s@[i as int]);
                assert(!is_digit(sub[i - a]));
            }
            return None;
        }
        let d = (u - 48) as u128;
        proof {
            assert(digit_val(s@[i as int]) == d as nat);
        }
        let step = acc.checked_mul(10);
        let next = match step {
            Some(x) => x.checked_add(d),
            None => None,
        };
        match next {
            Some(x) => {
                proof {
                    assert(s@.subrange(a as int, i + 1).drop_last() =~= s@.subrange(
                        a as int,
                        i as int,
                    ));
                    assert(s@.subrange(a as int, i + 1).last() == s@[i as int]);
                    assert(forall|j: int|
                        0 <= j < i + 1 - a ==> #[trigger] s@.subrange(a as int, i + 1)[j] == s@[a
                            + j]);
                }
                acc = x;
                i = i + 1;
            },
            None => {
                proof {
                    assert(s@.subrange(a as int, i + 1).drop_last() =~= s@.subrange(
                        a as int,
                        i as int,
                    ));
                    assert(s@.subrange(a as int, i + 1).last() == s@[i as int]);
                    assert(dec_value(s@.subrange(a as int, i + 1)) > u128::MAX);
                    if all_digits(sub) {
                        assert(sub.take(i + 1 - a) =~= s@.subrange(a as int, i + 1));
                        lemma_dec_value_prefix_mono(sub, i + 1 - a);
                    }
                }
                return None;
            },
        }
    }
    proof {
        assert(s@.subrange(a as int, i as int) =~= sub);
    }
    Some(acc)
}

/// Ten to the `k`, executable.
fn pow10_u128(k: usize) -> (r: u128)
    requires
        k <= 24,
    ensures
        r as nat == pow10(k as nat),
{
    let mut acc: u128 = 1;
    let mut i: usize = 0;
    while i < k
        invariant
            0 <= i <= k <= 24,
            acc as nat == pow10(i as nat),
        decreases k - i,
    {
        proof {
            lemma_pow10_mono((i + 1) as nat, 24);
            lemma_yocto_per_near();
        }
        acc = acc * 10;
        i = i + 1;
    }
    acc
}

/// Reads `s[..end]` as a whole-token numeral, per [`spec_parse_number`].
fn parse_number_range(s: &str, end: usize) -> (r: Option<u128>)
    requires
        end <= s@.len(),
    ensures
        r is Some <==> spec_parse_number(s@.take(end as int)) is Some,
        r matches Some(v) ==> spec_parse_number(s@.take(end as int)) == Some(v),
{
    let ghost b = s@.take(end as int);
    proof {
        lemma_yocto_per_near();
    }
    let mut dot: usize = end;
    let mut i: usize = 0;
    while i < end && dot == end
        invariant
            0 <= i <= end <= s@.len(),
            b == s@.take(end as int),
            dot == end ==> forall|j: int| 0 <= j < i ==> b[j] != '.',
            dot != end ==> 0 <= dot < end && b[dot as int] == '.' && (forall|j: int|
                0 <= j < dot ==> b[j] != '.'),
        decreases end - i,
    {
        if s.get_char(i) == '.' {
            dot = i;
            proof {
                assert(b[i as int] == '.');
            }
        } else {
            proof {
                assert(b[i as int] != '.');
            }
        }
        i = i + 1;
    }
    proof {
        if dot == end {
            lemma_find_char_unique(b, '.', end as int);
        } else {
            lemma_find_char_unique(b, '.', dot as int);
        }
    }
    if dot == end {
        if end == 0 {
            return None;
        }
        match parse_digits(s, 0, end) {
            Some(v) => {
                proof {
                    assert(s@.subrange(0, end as int) =~= b);
                }
                match v.checked_mul(YOCTO_PER_NEAR) {
                    Some(total) => Some(total),
                    None => None,
                }
            },
            None => {
                proof {
                    assert(s@.subrange(0, end as int) =~= b);
                }
                None
            },
        }
    } else {
        // integer part before the dot, fraction after it
        let fl = end - dot - 1;
        proof {
            assert(s@.subrange(0, dot as int) =~= b.subrange(0, dot as int));
            assert(s@.subrange(dot + 1, end as int) =~= b.subrange(dot + 1, end as int));
        }
        if dot == 0 || fl == 0 || fl > 24 {
            return None;
        }
        let ip = parse_digits(s, 0, dot);
        let fp = parse_digits(s, dot + 1, end);
        match (ip, fp) {
            (Some(iv), Some(fv)) => {
                let ghost ipx = b.subrange(0, dot as int);
                let ghost fpx = b.subrange(dot + 1, end as int);
                proof {
                    lemma_dec_value_bound(fpx);
                    lemma_pow10_mono(fpx.len() as nat, 24);
                }
                let q = pow10_u128(24 - fl);
                proof {
                    lemma_pow10_pos((24 - fl) as nat);
                    assert((fv as nat) * (q as nat) < pow10(fl as nat) * pow10(
                        (24 - fl) as nat,
                    )) by (nonlinear_arith)
                        requires
                            (fv as nat) < pow10(fl as nat),
                            q as nat == pow10((24 - fl) as nat),
                            pow10((24 - fl) as nat) >= 1,
                    {
                    }
                    lemma_pow10_mul(fl as nat, (24 - fl) as nat);
                }
                let scaled = fv * q;
                match iv.checked_mul(YOCTO_PER_NEAR) {
                    Some(w) => {
                        match w.checked_add(scaled) {
                            Some(total) => Some(total),
                            None => None,
                        }
                    },
                    None => {
                        proof {
                            assert(dec_value(ipx) * pow10(24) + dec_value(fpx) * pow10(
                                (24 - fpx.len()) as nat,
                            ) > u128::MAX) by (nonlinear_arith)
                                requires
                                    dec_value(ipx) * pow10(24) > u128::MAX,
                                    dec_value(fpx) * pow10((24 - fpx.len()) as nat) >= 0,
                            {
                            }
                        }
                        None
                    },
                }
            },
            _ => {
                proof {
                    let ipx = b.subrange(0, dot as int);
                    let fpx = b.subrange(dot + 1, end as int);
                    lemma_pow10_pos(24);
                    lemma_pow10_pos((24 - fpx.len()) as nat);
                    if all_digits(ipx) && dec_value(ipx) > u128::MAX {
                        assert(dec_value(ipx) * pow10(24) >= dec_value(ipx)) by (nonlinear_arith)
                            requires
                                pow10(24) >= 1,
                        {
                        }
                    }
                    if all_digits(fpx) && dec_value(fpx) > u128::MAX {
                        assert(dec_value(fpx) * pow10((24 - fpx.len()) as nat) >= dec_value(
                            fpx,
                        )) by (nonlinear_arith)
                            requires
                                pow10((24 - fpx.len()) as nat) >= 1,
                        {
                        }
                    }
                }
                None
            },
        }
    }
}

/// `pow10` turns addition of exponents into multiplication.
pub proof fn lemma_pow10_mul(i: nat, j: nat)
    ensures
        pow10(i) * pow10(j) == pow10(i + j),
    decreases i,
{
    if i == 0 {
        assert(pow10(0) == 1);
    } else {
        lemma_pow10_mul((i - 1) as nat, j);
        assert(pow10(i) * pow10(j) == 10 * pow10((i - 1) as nat) * pow10(j));
        assert(10 * pow10((i - 1) as nat) * pow10(j) == 10 * (pow10((i - 1) as nat) * pow10(
            j,
        ))) by (nonlinear_arith);
    }
}

/// Appends the non-zero fractional part: 24 digits with leading zeros,
/// trailing zeros removed.
fn append_frac(out: &mut String, frac: u128)
    requires
        0 < frac < YOCTO_PER_NEAR,
    ensures
        final(out)@ == old(out)@ + trim_zeros(dec_str_k(frac as nat, 24)),
{
    proof {
        lemma_yocto_per_near();
        lemma_dec_str_k_props(frac as nat, 24);
    }
    let mut digits: Vec<u128> = Vec::new();
    let mut m: u128 = frac;
    let mut cnt: usize = 0;
    while cnt < 24
        invariant
            0 <= cnt <= 24,
            digits@.len() == cnt,
            forall|k: int| 0 <= k < digits@.len() ==> #[trigger] digits@[k] < 10,
            dec_str_k(frac as nat, 24) == dec_str_k(m as nat, (24 - cnt) as nat)
                + crate::text::rev_digit_chars(digits@),
        decreases 24 - cnt,
    {
        let ghost old_digits = digits@;
        let d = m % 10;
        digits.push(d);
        proof {
            assert(dec_str_k(m as nat, (24 - cnt) as nat) == dec_str_k(
                (m / 10) as nat,
                (24 - cnt - 1) as nat,
            ).push(digit_char((m % 10) as nat)));
            assert(crate::text::rev_digit_chars(digits@) =~= seq![
                digit_char((m % 10) as nat),
            ] + crate::text::rev_digit_chars(old_digits));
            assert(dec_str_k((m / 10) as nat, (24 - cnt - 1) as nat)
                + crate::text::rev_digit_chars(digits@) =~= dec_str_k(
                m as nat,
                (24 - cnt) as nat,
            ) + crate::text::rev_digit_chars(old_digits));
        }
        m = m / 10;
        cnt = cnt + 1;
    }
    proof {
        assert(dec_str_k(m as nat, 0) =~= Seq::<char>::empty());
        assert(dec_str_k(frac as nat, 24) =~= crate::text::rev_digit_chars(digits@));
    }
    let ghost rev = crate::text::rev_digit_chars(digits@);
    // count the low-order zero digits, which are the trailing characters
    let mut t: usize = 0;
    while t < 24 && digits[t] == 0
        invariant
            0 <= t <= 24,
            digits@.len() == 24,
            forall|k: int| 0 <= k < digits@.len() ==> #[trigger] digits@[k] < 10,
            forall|j: int| 0 <= j < t ==> digits@[j] == 0,
        decreases 24 - t,
    {
        t = t + 1;
    }
    proof {
        if t == 24 {
            assert(forall|j: int| 0 <= j < rev.len() ==> rev[j] == '0') by {
                assert(forall|j: int| 0 <= j < 24 ==> digits@[j] == 0);
                assert(forall|j: int|
                    0 <= j < rev.len() ==> rev[j] == digit_char(digits@[23 - j] as nat));
                lemma_digit_char(0);
            }
            lemma_dec_value_zeros(rev);
            assert(dec_value(dec_str_k(frac as nat, 24)) == frac as nat);
            assert(false);
        }
        assert(digits@[t as int] != 0);
        // the last t characters of rev are '0', the one before is not
        assert(forall|j: int| rev.len() - t <= j < rev.len() ==> rev[j] == '0') by {
            lemma_digit_char(0);
            assert(forall|j: int|
                rev.len() - t <= j < rev.len() ==> rev[j] == digit_char(digits@[23 - j] as nat));
        }
        lemma_digit_char(digits@[t as int] as nat);
        assert(rev[rev.len() - t - 1] == digit_char(digits@[t as int] as nat));
        lemma_trim_trailing_zeros(rev, t as int);
    }
    let mut i: usize = 0;
    while i < 24 - t
        invariant
            0 <= i <= 24 - t,
            0 <= t < 24,
            digits@.len() == 24,
            forall|k: int| 0 <= k < digits@.len() ==> #[trigger] digits@[k] < 10,
            rev == crate::text::rev_digit_chars(digits@),
            out@ == old(out)@ + rev.subrange(0, i as int),
        decreases 24 - t - i,
    {
        let d = digits[24 - 1 - i];
        crate::text::append_digit(out, d);
        proof {
            assert(rev.subrange(0, i + 1) =~= rev.subrange(0, i as int).push(digit_char(
                digits@[24 - 1 - i] as nat,
            )));
        }
        i = i + 1;
    }
    proof {
        assert(rev.subrange(0, 24 - t) =~= rev.take(rev.len() - t));
        assert(out@ =~= old(out)@ + trim_zeros(dec_str_k(frac as nat, 24)));
    }
}


/// The canonical notation of an amount reads back as the same amount.
pub proof fn lemma_amount_round_trip(v: u128)
    ensures
        spec_parse_amount(spec_format_amount(v)) == Some(v),
{
    lemma_yocto_per_near();
    let p24 = pow10(24);
    let whole = (v as nat) / p24;
    let frac = (v as nat) % p24;
    assert(whole * p24 + frac == v as nat && frac < p24) by (nonlinear_arith)
        requires
            p24 >= 1,
            whole == (v as nat) / p24,
            frac == (v as nat) % p24,
    {
    }
    lemma_dec_str_props(whole);
    let ds = dec_str(whole);
    let unit = seq![' ', 'N', 'E', 'A', 'R'];
    assert(forall|j: int| 0 <= j < ds.len() ==> #[trigger] ds[j] != '.' && ds[j] != ' ') by {
        assert(forall|j: int| 0 <= j < ds.len() ==> is_digit(#[trigger] ds[j]));
    }
    if frac == 0 {
        let s = ds + unit;
        assert(s =~= spec_format_amount(v));
        lemma_unit_suffix(ds + Seq::<char>::empty(), s);
        assert(ds + Seq::<char>::empty() =~= ds);
        let b0 = s.take(s.len() - 4);
        assert(b0 =~= ds + seq![' ']);
        assert(b0.last() == ' ');
        assert(strip_unit_space(b0) =~= ds);
        lemma_find_char_unique(ds, '.', ds.len() as int);
        assert(spec_parse_number(ds) == Some(v)) by {
            assert(dec_value(ds) * p24 == whole * p24);
        }
    } else {
        assert(frac < p24);
        lemma_dec_str_k_props(frac, 24);
        let pad = dec_str_k(frac, 24);
        lemma_trim_zeros_value(pad);
        let fs = trim_zeros(pad);
        assert(fs.len() > 0);
        assert(forall|j: int| 0 <= j < fs.len() ==> #[trigger] fs[j] != '.' && fs[j] != ' ') by {
            assert(forall|j: int| 0 <= j < fs.len() ==> is_digit(#[trigger] fs[j]));
        }
        let core = ds + seq!['.'] + fs;
        let s = ds + seq!['.'] + fs + unit;
        assert(s =~= spec_format_amount(v));
        lemma_unit_suffix(core, s);
        let b0 = s.take(s.len() - 4);
        assert(b0 =~= core + seq![' ']);
        assert(b0.last() == ' ');
        let b = strip_unit_space(b0);
        assert(b =~= core);
        assert(b[ds.len() as int] == '.');
        assert(forall|j: int| 0 <= j < ds.len() ==> b[j] == ds[j]);
        lemma_find_char_unique(b, '.', ds.len() as int);
        let dot = ds.len() as int;
        assert(b.subrange(0, dot) =~= ds);
        assert(b.subrange(dot + 1, b.len() as int) =~= fs);
        assert(dec_value(fs) * pow10((24 - fs.len()) as nat) == frac);
        assert(dec_value(ds) * p24 + dec_value(fs) * pow10((24 - fs.len()) as nat) == v as nat);
        assert(spec_parse_number(b) == Some(v));
    }
}

/// A string of the shape `core + " NEAR"` carries the whole-token unit
/// suffix and not the smallest-unit one.
proof fn lemma_unit_suffix(core: Seq<char>, s: Seq<char>)
    requires
        s == core + seq![' ', 'N', 'E', 'A', 'R'],
        forall|j: int| 0 <= j < core.len() ==> #[trigger] core[j] != ' ' || j == core.len() - 1,
    ensures
        suffix_ci(s, near_pat()),
        !suffix_ci(s, yocto_pat()),
        spec_parse_amount(s) == spec_parse_number(strip_unit_space(s.take(s.len() - 4))),
{
    assert(s.len() == core.len() + 5);
    assert(s[s.len() - 4] == 'N');
    assert(s[s.len() - 3] == 'E');
    assert(s[s.len() - 2] == 'A');
    assert(s[s.len() - 1] == 'R');
    assert(suffix_ci(s, near_pat())) by {
        assert(eq_ci(s[s.len() - 4 + 0], near_pat()[0]));
        assert(eq_ci(s[s.len() - 4 + 1], near_pat()[1]));
        assert(eq_ci(s[s.len() - 4 + 2], near_pat()[2]));
        assert(eq_ci(s[s.len() - 4 + 3], near_pat()[3]));
    }
    assert(!suffix_ci(s, yocto_pat())) by {
        if suffix_ci(s, yocto_pat()) {
            assert(s.len() >= 9);
            assert(eq_ci(s[s.len() - 9 + 4], yocto_pat()[4]));
            assert(s[s.len() - 5] == ' ');
            assert(!eq_ci(' ', 'o'));
        }
    }
}

/// The view of an amount is its count of smallest units.
pub proof fn lemma_balance_view_range(b: &NearBalance)
    ensures
        0 <= b@ <= u128::MAX,
        b@ == b.to_yocto_spec() as int,
{
}

} // verus!

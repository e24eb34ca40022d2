//! Account identifiers and their syntactic rules.
//!
//! An account id is a sequence of lowercase alphanumeric parts joined by
//! single separators (`.`, `-` or `_`), between 2 and 64 characters long,
//! beginning and ending with an alphanumeric character.  An "implicit
//! account" id is the special 64-character lowercase-hexadecimal form,
//! which is a valid identifier even before any on-chain state exists.

use vstd::prelude::*;

verus! {

/// Lowercase letter or decimal digit.
pub open spec fn is_lower_alnum(c: char) -> bool {
    ('a' as u32 <= c as u32 && c as u32 <= 'z' as u32) || ('0' as u32 <= c as u32 && c as u32
        <= '9' as u32)
}

/// Separator characters allowed between alphanumeric runs of an account id.
pub open spec fn is_separator(c: char) -> bool {
    c == '-' || c == '_' || c == '.'
}

/// Lowercase hexadecimal digit.
pub open spec fn is_hex_digit(c: char) -> bool {
    ('a' as u32 <= c as u32 && c as u32 <= 'f' as u32) || ('0' as u32 <= c as u32 && c as u32
        <= '9' as u32)
}

/// The syntactic validity rule for account ids.
pub open spec fn valid_account_id(s: Seq<char>) -> bool {
    &&& 2 <= s.len() <= 64
    &&& is_lower_alnum(s[0])
    &&& is_lower_alnum(s[s.len() - 1])
    &&& forall|i: int| 0 <= i < s.len() ==> is_lower_alnum(#[trigger] s[i]) || is_separator(s[i])
    &&& forall|i: int|
        0 <= i < s.len() - 1 ==> !(is_separator(#[trigger] s[i]) && is_separator(s[i + 1]))
}

/// A 64-character lowercase-hexadecimal string: the address form of an
/// implicit account.
pub open spec fn is_implicit_account(s: Seq<char>) -> bool {
    s.len() == 64 && forall|i: int| 0 <= i < s.len() ==> is_hex_digit(#[trigger] s[i])
}

/// Every implicit-account address is itself a valid account id.
pub proof fn lemma_implicit_account_is_valid(s: Seq<char>)
    requires
        is_implicit_account(s),
    ensures
        valid_account_id(s),
{
    assert(forall|i: int| 0 <= i < s.len() ==> is_hex_digit(#[trigger] s[i]) ==> is_lower_alnum(
        s[i],
    ));
}

/// A syntactically valid account id.
#[derive(Debug)]
pub struct AccountId {
    text: String,
}

impl View for AccountId {
    type V = Seq<char>;

    closed spec fn view(&self) -> Seq<char> {
        self.text@
    }
}

impl Clone for AccountId {
    fn clone(&self) -> (r: Self)
        ensures
            r == *self,
    {
        proof {
            use_type_invariant(self);
        }
        AccountId { text: self.text.clone() }
    }
}

impl AccountId {
    /// Every value of this type is a valid account id.
    #[verifier::type_invariant]
    pub open spec fn wf(&self) -> bool {
        valid_account_id(self@)
    }

    /// Accepts `s` exactly when it satisfies [`valid_account_id`].
    pub fn parse(s: &str) -> (r: Option<AccountId>)
        ensures
            r is Some <==> valid_account_id(s@),
            r matches Some(a) ==> a@ == s@,
    {
        if !check_account_id_text(s) {
            return None;
        }
        Some(AccountId { text: s.to_owned() })
    }

    /// The textual form of the account id.
    pub fn as_text(&self) -> (r: &str)
        ensures
            r@ == self@,
    {
        self.text.as_str()
    }

    /// Whether two account ids are the same identifier.
    pub fn same_as(&self, other: &AccountId) -> (r: bool)
        ensures
            r == (self@ == other@),
    {
        self.text == other.text
    }

    /// Whether this id is in the implicit-account (64-character hex) form.
    pub fn is_implicit(&self) -> (r: bool)
        ensures
            r == is_implicit_account(self@),
    {
        is_64_len_hex(self.text.as_str())
    }
}

/// Decides [`valid_account_id`] on a string slice.
pub fn check_account_id_text(s: &str) -> (r: bool)
    ensures
        r == valid_account_id(s@),
{
    let n = s.unicode_len();
    if n < 2 || n > 64 {
        return false;
    }
    let mut i: usize = 0;
    let mut prev_sep: bool = false;
    while i < n
        invariant
            0 < n == s@.len() <= 64,
            0 <= i <= n,
            i > 0 ==> is_lower_alnum(s@[0]),
            forall|j: int| 0 <= j < i ==> is_lower_alnum(#[trigger] s@[j]) || is_separator(s@[j]),
            forall|j: int| 0 <= j < i - 1 ==> !(is_separator(#[trigger] s@[j]) && is_separator(s@[j + 1])),
            i > 0 ==> prev_sep == is_separator(s@[i - 1]),
        decreases n - i,
    {
        let c = s.get_char(i);
        let u = c as u32;
        let alnum = (97 <= u && u <= 122) || (48 <= u && u <= 57);
        let sep = c == '-' || c == '_' || c == '.';
        if !alnum && !sep {
            return false;
        }
        if sep && (i == 0 || prev_sep) {
            return false;
        }
        prev_sep = sep;
        i = i + 1;
    }
    let last = s.get_char(n - 1);
    let lu = last as u32;
    ((97 <= lu && lu <= 122) || (48 <= lu && lu <= 57))
}

/// Decides [`is_implicit_account`] on a string slice.
pub fn is_64_len_hex(s: &str) -> (r: bool)
    ensures
        r == is_implicit_account(s@),
{
    let n = s.unicode_len();
    if n != 64 {
        return false;
    }
    let mut i: usize = 0;
    while i < 64
        invariant
            s@.len() == 64,
            0 <= i <= 64,
            forall|j: int| 0 <= j < i ==> is_hex_digit(#[trigger] s@[j]),
        decreases 64 - i,
    {
        let c = s.get_char(i);
        let u = c as u32;
        if !((97 <= u && u <= 102) || (48 <= u && u <= 57)) {
            return false;
        }
        i = i + 1;
    }
    true
}

} // verus!

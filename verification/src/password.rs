//! Password acceptance rule for account registration: the two entries must
//! agree, be at least eight bytes long, consist of ASCII letters, digits and
//! punctuation only, and contain at least one character of each class.
use vstd::prelude::*;
use vstd::string::*;

verus! {

/// Whether a character is an ASCII lower-case letter.
pub open spec fn is_lower(c: char) -> bool {
    97 <= c as int <= 122
}

/// Whether a character is an ASCII upper-case letter.
pub open spec fn is_upper(c: char) -> bool {
    65 <= c as int <= 90
}

/// Whether a character is an ASCII punctuation character.
pub open spec fn is_punct(c: char) -> bool {
    33 <= c as int <= 47 || 58 <= c as int <= 64 || 91 <= c as int <= 96 || 123 <= c as int <= 126
}

/// Whether a character may appear in a password at all.
pub open spec fn is_password_char(c: char) -> bool {
    is_lower(c) || is_upper(c) || crate::text::is_dec_digit(c) || is_punct(c)
}

/// Whether a character sequence makes an acceptable password: at least
/// eight characters, drawn from the ASCII letter, digit and punctuation
/// classes only, with each of the four classes represented.
pub open spec fn good_password(s: Seq<char>) -> bool {
    &&& s.len() >= 8
    &&& forall|i: int| 0 <= i < s.len() ==> is_password_char(#[trigger] s[i])
    &&& exists|i: int| 0 <= i < s.len() && is_lower(#[trigger] s[i])
    &&& exists|i: int| 0 <= i < s.len() && is_upper(#[trigger] s[i])
    &&& exists|i: int| 0 <= i < s.len() && crate::text::is_dec_digit(#[trigger] s[i])
    &&& exists|i: int| 0 <= i < s.len() && is_punct(#[trigger] s[i])
}

/// Accepts a password exactly when the confirmation entry repeats it and
/// the password itself satisfies `good_password`.
pub fn verify_password(p1: &str, p2: &str) -> (r: bool)
    ensures
        r == (p1@ == p2@ && good_password(p1@)),
{
    if !crate::text::str_eq(p1, p2) {
        return false;
    }
    let n = p1.unicode_len();
    if n < 8 {
        return false;
    }
    let mut lowers: usize = 0;
    let mut uppers: usize = 0;
    let mut digits: usize = 0;
    let mut puncts: usize = 0;
    let mut i: usize = 0;
    while i < n
        invariant
            n == p1@.len(),
            0 <= i <= n,
            forall|k: int| 0 <= k < i ==> is_password_char(#[trigger] p1@[k]),
            lowers <= i && uppers <= i && digits <= i && puncts <= i,
            (lowers > 0) == exists|k: int| 0 <= k < i && is_lower(#[trigger] p1@[k]),
            (uppers > 0) == exists|k: int| 0 <= k < i && is_upper(#[trigger] p1@[k]),
            (digits > 0) == exists|k: int|
                0 <= k < i && crate::text::is_dec_digit(#[trigger] p1@[k]),
            (puncts > 0) == exists|k: int| 0 <= k < i && is_punct(#[trigger] p1@[k]),
        decreases n - i,
    {
        let c = p1.get_char(i);
        let cv = c as u32;
        if 97 <= cv && cv <= 122 {
            lowers = lowers + 1;
        } else if 65 <= cv && cv <= 90 {
            uppers = uppers + 1;
        } else if 48 <= cv && cv <= 57 {
            digits = digits + 1;
        } else if 33 <= cv && cv <= 47 || 58 <= cv && cv <= 64 || 91 <= cv && cv <= 96 || 123 <= cv
            && cv <= 126 {
            puncts = puncts + 1;
        } else {
            assert(!is_password_char(p1@[i as int]));
            return false;
        }
        i = i + 1;
    }
    digits > 0 && lowers > 0 && puncts > 0 && uppers > 0
}

/// A password shorter than eight characters is never accepted.
pub proof fn lemma_password_rejects_short(s: Seq<char>)
    requires
        s.len() < 8,
    ensures
        !good_password(s),
{
}

/// A password missing one of the four character classes is never accepted.
pub proof fn lemma_password_requires_each_class(s: Seq<char>)
    ensures
        (forall|i: int| 0 <= i < s.len() ==> !is_lower(#[trigger] s[i])) ==> !good_password(s),
        (forall|i: int| 0 <= i < s.len() ==> !is_upper(#[trigger] s[i])) ==> !good_password(s),
        (forall|i: int|
            0 <= i < s.len() ==> !crate::text::is_dec_digit(#[trigger] s[i])) ==> !good_password(
            s,
        ),
        (forall|i: int| 0 <= i < s.len() ==> !is_punct(#[trigger] s[i])) ==> !good_password(s),
{
}

} // verus!

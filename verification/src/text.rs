//! Decimal formatting and parsing of integers, and substring search:
//! small text utilities the rest of the library builds URLs and labels from.
use vstd::prelude::*;
use vstd::string::*;

verus! {

/// The decimal digit character for a value in 0..=9.
pub open spec fn dec_digit(d: int) -> char {
    ((48 + d) as char)
}

/// The decimal representation of a natural number, most significant digit
/// first, with no leading zeros (a single '0' for zero).
pub open spec fn spec_u64_dec(n: nat) -> Seq<char>
    decreases n,
{
    if n < 10 {
        seq![dec_digit(n as int)]
    } else {
        spec_u64_dec(n / 10) + seq![dec_digit((n % 10) as int)]
    }
}

/// Relies on String::push: appends one character at the end of the string.
#[verifier::external_body]
pub(crate) fn push_char(s: &mut String, c: char)
    ensures
        final(s)@ == old(s)@.push(c),
{
    s.push(c);
}

/// Renders a number in decimal.
pub fn u64_to_string(n: u64) -> (r: String)
    ensures
        r@ == spec_u64_dec(n as nat),
    decreases n,
{
    if n < 10 {
        let mut s = String::new();
        let c: char = (48 + (n as u8)) as char;
        assert(c == dec_digit(n as int));
        push_char(&mut s, c);
        assert(s@ =~= spec_u64_dec(n as nat));
        s
    } else {
        let mut s = u64_to_string(n / 10);
        let d: u8 = (n % 10) as u8;
        let c: char = (48 + d) as char;
        assert(c == dec_digit((n as nat % 10) as int));
        push_char(&mut s, c);
        assert(s@ =~= spec_u64_dec(n as nat));
        s
    }
}

/// Renders a number in decimal.
pub fn u32_to_string(n: u32) -> (r: String)
    ensures
        r@ == spec_u64_dec(n as nat),
{
    u64_to_string(n as u64)
}

/// The decimal representation of an integer: a minus sign before the
/// magnitude for a negative one.
pub open spec fn spec_i64_dec(n: int) -> Seq<char> {
    if n < 0 {
        seq!['-'] + spec_u64_dec((-n) as nat)
    } else {
        spec_u64_dec(n as nat)
    }
}

/// Renders a signed number in decimal.
pub fn i64_to_string(n: i64) -> (r: String)
    ensures
        r@ == spec_i64_dec(n as int),
{
    if n >= 0 {
        u64_to_string(n as u64)
    } else {
        let wide: i128 = -(n as i128);
        let mag: u64 = wide as u64;
        assert(mag == -(n as int));
        let mut s = String::new();
        push_char(&mut s, '-');
        let num = u64_to_string(mag);
        s.append(num.as_str());
        assert(s@ =~= spec_i64_dec(n as int));
        s
    }
}

/// A decimal rendering consists of digit characters only, at least one.
pub proof fn lemma_u64_dec_digits(n: nat)
    ensures
        spec_u64_dec(n).len() >= 1,
        all_dec_digits(spec_u64_dec(n)),
    decreases n,
{
    if n >= 10 {
        lemma_u64_dec_digits(n / 10);
        assert forall|i: int| 0 <= i < spec_u64_dec(n).len() implies is_dec_digit(
            #[trigger] spec_u64_dec(n)[i],
        ) by {
            if i < spec_u64_dec(n / 10).len() {
                assert(spec_u64_dec(n)[i] == spec_u64_dec(n / 10)[i]);
            }
        }
    }
}

/// Reading a decimal rendering back gives the number it renders.
pub proof fn lemma_u64_dec_value(n: nat)
    ensures
        dec_value(spec_u64_dec(n)) == n,
    decreases n,
{
    if n >= 10 {
        lemma_u64_dec_value(n / 10);
        assert(spec_u64_dec(n).drop_last() =~= spec_u64_dec(n / 10));
        assert(spec_u64_dec(n).last() == dec_digit((n % 10) as int));
        assert(dec_digit((n % 10) as int) as int == 48 + n % 10);
        assert(spec_u64_dec(n).len() > 0);
        assert(dec_value(spec_u64_dec(n)) == dec_value(spec_u64_dec(n).drop_last()) * 10
            + spec_u64_dec(n).last() as int - 48);
        assert(dec_value(spec_u64_dec(n).drop_last()) == n / 10);
        assert(dec_value(spec_u64_dec(n)) == (n / 10) * 10 + n % 10);
        assert((n / 10) * 10 + n % 10 == n);
    } else {
        assert(spec_u64_dec(n) =~= seq![dec_digit(n as int)]);
        assert(spec_u64_dec(n).drop_last() =~= Seq::<char>::empty());
        assert(dec_digit(n as int) as int == 48 + n);
        assert(spec_u64_dec(n).len() == 1);
        assert(spec_u64_dec(n).last() == dec_digit(n as int));
        assert(dec_value(Seq::<char>::empty()) == 0);
        assert(dec_value(spec_u64_dec(n)) == dec_value(spec_u64_dec(n).drop_last()) * 10
            + spec_u64_dec(n).last() as int - 48);
        assert(dec_value(spec_u64_dec(n)) == n);
    }
}

/// Whether a character is a decimal digit.
pub open spec fn is_dec_digit(c: char) -> bool {
    48 <= c as int <= 57
}

/// Whether every character of a sequence is a decimal digit.
pub open spec fn all_dec_digits(s: Seq<char>) -> bool {
    forall|i: int| 0 <= i < s.len() ==> is_dec_digit(#[trigger] s[i])
}

/// The numeric value of a digit sequence read in base ten.
pub open spec fn dec_value(s: Seq<char>) -> int
    decreases s.len(),
{
    if s.len() == 0 {
        0
    } else {
        dec_value(s.drop_last()) * 10 + s.last() as int - 48
    }
}

/// A digit string's value never decreases as the string grows to the right.
proof fn lemma_dec_value_nonneg(s: Seq<char>)
    requires
        all_dec_digits(s),
    ensures
        dec_value(s) >= 0,
    decreases s.len(),
{
    if s.len() > 0 {
        assert(all_dec_digits(s.drop_last())) by {
            assert(forall|i: int|
                0 <= i < s.len() - 1 ==> is_dec_digit(#[trigger] s.drop_last()[i]));
        }
        lemma_dec_value_nonneg(s.drop_last());
    }
}

/// Extending a digit string to the right cannot shrink its value.
proof fn lemma_dec_value_prefix(s: Seq<char>, i: int)
    requires
        all_dec_digits(s),
        0 <= i <= s.len(),
    ensures
        dec_value(s.take(i)) <= dec_value(s),
    decreases s.len() - i,
{
    assert(all_dec_digits(s.take(i))) by {
        assert(forall|k: int| 0 <= k < i ==> is_dec_digit(#[trigger] s.take(i)[k]));
    }
    if i < s.len() {
        lemma_dec_value_prefix(s, i + 1);
        assert(s.take(i + 1).drop_last() =~= s.take(i));
        lemma_dec_value_nonneg(s.take(i));
        assert(dec_value(s.take(i + 1)) == dec_value(s.take(i)) * 10 + s[i] as int - 48);
        assert(dec_value(s.take(i)) * 10 >= dec_value(s.take(i))) by {
            lemma_dec_value_nonneg(s.take(i));
        }
    } else {
        assert(s.take(i) =~= s);
    }
}

/// Whether a string of characters parses as a decimal number no larger
/// than the given bound: nonempty, digits only, value within the bound.
pub open spec fn parses_to_u32(s: Seq<char>) -> bool {
    s.len() > 0 && all_dec_digits(s) && dec_value(s) <= u32::MAX
}

/// Reads a base-ten number from a string of digit characters.
/// Returns `None` when the string is empty, holds a non-digit, or names
/// a value above `u32::MAX`.
pub fn parse_u32(s: &str) -> (r: Option<u32>)
    ensures
        parses_to_u32(s@) <==> r is Some,
        r is Some ==> r->0 == dec_value(s@),
{
    let n = s.unicode_len();
    if n == 0 {
        return None;
    }
    let mut acc: u64 = 0;
    let mut i: usize = 0;
    while i < n
        invariant
            0 < n == s@.len(),
            0 <= i <= n,
            all_dec_digits(s@.take(i as int)),
            acc == dec_value(s@.take(i as int)),
            acc <= u32::MAX,
        decreases n - i,
    {
        let c = s.get_char(i);
        let cv = c as u32;
        if cv < 48 || cv > 57 {
            assert(!is_dec_digit(s@[i as int]));
            return None;
        }
        assert(all_dec_digits(s@.take(i + 1))) by {
            assert(forall|k: int|
                0 <= k < i ==> is_dec_digit(#[trigger] s@.take(i + 1)[k]) == is_dec_digit(
                    s@.take(i as int)[k],
                ));
        }
        let d: u64 = (cv - 48) as u64;
        let next: u64 = acc * 10 + d;
        assert(s@.take(i + 1).drop_last() =~= s@.take(i as int));
        assert(next == dec_value(s@.take(i + 1)));
        if next > u32::MAX as u64 {
            proof {
                if all_dec_digits(s@) {
                    lemma_dec_value_prefix(s@, i + 1);
                }
            }
            return None;
        }
        acc = next;
        i = i + 1;
    }
    assert(s@.take(n as int) =~= s@);
    Some(acc as u32)
}

/// Whether two strings hold the same characters.
pub fn str_eq(a: &str, b: &str) -> (r: bool)
    ensures
        r == (a@ == b@),
{
    let n = a.unicode_len();
    if n != b.unicode_len() {
        assert(a@.len() != b@.len());
        return false;
    }
    let mut i: usize = 0;
    while i < n
        invariant
            n == a@.len() == b@.len(),
            0 <= i <= n,
            forall|k: int| 0 <= k < i ==> a@[k] == b@[k],
        decreases n - i,
    {
        if a.get_char(i) != b.get_char(i) {
            return false;
        }
        i = i + 1;
    }
    assert(a@ =~= b@);
    true
}

/// Whether the pattern occurs in the text at the given character position.
pub open spec fn occurs_at(s: Seq<char>, p: Seq<char>, i: int) -> bool {
    0 <= i && i + p.len() <= s.len() && s.subrange(i, i + p.len() as int) == p
}

/// Finds the first occurrence of a pattern in a text, by character position.
pub fn find_sub(s: &str, p: &str) -> (r: Option<usize>)
    ensures
        match r {
            Some(i) => occurs_at(s@, p@, i as int) && forall|j: int|
                0 <= j < i ==> !occurs_at(s@, p@, j),
            None => forall|j: int| !occurs_at(s@, p@, j),
        },
{
    let n = s.unicode_len();
    let m = p.unicode_len();
    if m > n {
        return None;
    }
    let mut i: usize = 0;
    while i <= n - m
        invariant
            m <= n == s@.len(),
            m == p@.len(),
            0 <= i <= n - m + 1,
            forall|j: int| 0 <= j < i ==> !occurs_at(s@, p@, j),
        decreases n + 1 - i,
    {
        let mut j: usize = 0;
        let mut matched = true;
        while j < m && matched
            invariant
                m <= n == s@.len(),
                m == p@.len(),
                0 <= i <= n - m,
                0 <= j <= m,
                matched <==> s@.subrange(i as int, i + j) =~= p@.take(j as int),
            decreases m - j,
        {
            let cs = s.get_char(i + j);
            let cp = p.get_char(j);
            proof {
                assert(s@.subrange(i as int, i + j + 1).drop_last() =~= s@.subrange(
                    i as int,
                    i + j,
                ));
                assert(p@.take(j + 1).drop_last() =~= p@.take(j as int));
                assert(s@.subrange(i as int, i + j + 1).last() == s@[i + j]);
                assert(p@.take(j + 1).last() == p@[j as int]);
            }
            if cs != cp {
                matched = false;
                assert(!(s@.subrange(i as int, i + j + 1) =~= p@.take(j + 1))) by {
                    assert(s@.subrange(i as int, i + j + 1).last() != p@.take(j + 1).last());
                }
            } else {
                assert((s@.subrange(i as int, i + j) =~= p@.take(j as int)) ==> s@.subrange(
                    i as int,
                    i + j + 1,
                ) =~= p@.take(j + 1));
            }
            j = j + 1;
        }
        if matched {
            assert(p@.take(m as int) =~= p@);
            assert(occurs_at(s@, p@, i as int));
            return Some(i);
        }
        assert(!occurs_at(s@, p@, i as int)) by {
            if occurs_at(s@, p@, i as int) {
                assert(s@.subrange(i as int, i + m) == p@);
                assert(s@.subrange(i as int, i + j) =~= p@.take(j as int)) by {
                    assert(forall|k: int|
                        0 <= k < j ==> s@.subrange(i as int, i + j)[k] == #[trigger] s@.subrange(
                            i as int,
                            i + m,
                        )[k]);
                }
            }
        }
        i = i + 1;
    }
    None
}

} // verus!

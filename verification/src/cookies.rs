//! Building of the session cookie header: a trimmed name, a value, the
//! strict same-site policy, a path and a lifetime in days.
use vstd::prelude::*;
use vstd::string::*;

verus! {

/// The string with its leading and trailing whitespace removed.
pub uninterp spec fn trim_of(s: Seq<char>) -> Seq<char>;

/// Relies on str::trim: removes leading and trailing whitespace, a
/// function of the characters alone.
#[verifier::external_body]
fn str_trim(s: &str) -> (r: &str)
    ensures
        r@ == trim_of(s@),
{
    s.trim()
}

/// The header line a cookie renders to: name and value, the strict
/// same-site policy, the path, and the lifetime in seconds.
pub open spec fn cookie_line(
    name: Seq<char>,
    value: Seq<char>,
    path: Seq<char>,
    secs: int,
) -> Seq<char> {
    name + "="@ + value + "; SameSite=Strict; Path="@ + path + "; Max-Age="@
        + crate::text::spec_i64_dec(secs)
}

/// Relies on cookie::Cookie: the builder records the name, value, path,
/// strict same-site policy and a lifetime of whole days, and its display
/// form writes them as "name=value; SameSite=Strict; Path=path;
/// Max-Age=seconds", nothing else being set. time::Duration::days scales
/// the lifetime to seconds and refuses an overflowing count.
#[verifier::external_body]
fn build_cookie_header(name: &str, value: &str, path: &str, max_age: i64) -> (r: String)
    requires
        0 <= max_age,
        max_age * 86400 <= i64::MAX,
    ensures
        r@ == cookie_line(name@, value@, path@, 86400 * max_age),
{
    cookie::Cookie::build((name, value))
        .max_age(time::Duration::days(max_age))
        .same_site(cookie::SameSite::Strict)
        .path(path)
        .build()
        .to_string()
}

/// The header line that stores a cookie: the name is trimmed first, and
/// the lifetime is given in days.
pub fn set_cookie_string(name: &str, value: &str, path: &str, max_age: i64) -> (r: String)
    requires
        0 <= max_age,
        max_age * 86400 <= i64::MAX,
    ensures
        r@ == cookie_line(trim_of(name@), value@, path@, 86400 * max_age),
{
    let trimmed = str_trim(name);
    build_cookie_header(trimmed, value, path, max_age)
}

/// The header line that removes a cookie: an empty value and path with no
/// lifetime left.
pub fn remove_cookie_string(name: &str) -> (r: String)
    ensures
        r@ == cookie_line(trim_of(name@), Seq::<char>::empty(), Seq::<char>::empty(), 0),
{
    proof {
        reveal_strlit("");
    }
    let r = set_cookie_string(name, "", "", 0);
    assert(""@ =~= Seq::<char>::empty());
    r
}

/// The position of the first occurrence of a character, or the length
/// when it does not occur.
pub open spec fn first_in(s: Seq<char>, c: char) -> int
    decreases s.len(),
{
    if s.len() == 0 {
        0
    } else if s[0] == c {
        0
    } else {
        1 + first_in(s.drop_first(), c)
    }
}

/// What `first_in` finds: a position within bounds, holding the character
/// when in range, with no occurrence before it.
pub proof fn lemma_first_in(s: Seq<char>, c: char)
    ensures
        0 <= first_in(s, c) <= s.len(),
        first_in(s, c) < s.len() ==> s[first_in(s, c)] == c,
        forall|j: int| 0 <= j < first_in(s, c) ==> s[j] != c,
    decreases s.len(),
{
    if s.len() > 0 && s[0] != c {
        lemma_first_in(s.drop_first(), c);
        assert(forall|j: int| 0 <= j < first_in(s.drop_first(), c) ==> s.drop_first()[j] != c);
        assert forall|j: int| 0 <= j < first_in(s, c) implies s[j] != c by {
            if j > 0 {
                assert(s.drop_first()[j - 1] != c);
            }
        }
    }
}

/// A position holding the character, with none before it, is the first.
pub proof fn lemma_first_in_at(s: Seq<char>, c: char, i: int)
    requires
        0 <= i < s.len(),
        s[i] == c,
        forall|j: int| 0 <= j < i ==> s[j] != c,
    ensures
        first_in(s, c) == i,
    decreases i,
{
    if i > 0 {
        assert(s[0] != c);
        assert forall|j: int| 0 <= j < i - 1 implies s.drop_first()[j] != c by {
            assert(s[j + 1] != c);
        }
        assert(s.drop_first()[i - 1] == c);
        lemma_first_in_at(s.drop_first(), c, i - 1);
    }
}

/// No occurrence at all puts the first occurrence at the length.
pub proof fn lemma_first_in_absent(s: Seq<char>, c: char)
    requires
        forall|j: int| 0 <= j < s.len() ==> s[j] != c,
    ensures
        first_in(s, c) == s.len(),
{
    lemma_first_in(s, c);
}

/// The pieces of a text between occurrences of a separator, in order.
pub open spec fn split_on(s: Seq<char>, c: char) -> Seq<Seq<char>>
    decreases s.len(),
{
    let i = first_in(s, c);
    if i >= s.len() {
        seq![s]
    } else if i < 0 {
        seq![s]
    } else {
        seq![s.take(i)] + split_on(s.skip(i + 1), c)
    }
}

/// The name a cookie-jar entry binds: the text before its first equals
/// sign, trimmed inside and out.
pub open spec fn entry_name(seg: Seq<char>) -> Seq<char> {
    let t = trim_of(seg);
    let i = first_in(t, '=');
    if i >= t.len() {
        trim_of(t)
    } else {
        trim_of(t.take(i))
    }
}

/// The value a cookie-jar entry binds: the text between its first and
/// second equals signs, trimmed, or nothing when it has no equals sign.
pub open spec fn entry_value(seg: Seq<char>) -> Seq<char> {
    let t = trim_of(seg);
    let i = first_in(t, '=');
    if i >= t.len() {
        Seq::<char>::empty()
    } else {
        let rest = t.skip(i + 1);
        let j = first_in(rest, '=');
        if j >= rest.len() {
            trim_of(rest)
        } else {
            trim_of(rest.take(j))
        }
    }
}

/// Reads one entry: its name and, when the name is the sought one, its
/// value.
fn read_entry(seg: &str, name: &str) -> (r: Option<String>)
    ensures
        r is Some <==> entry_name(seg@) == name@,
        r is Some ==> r->0@ == entry_value(seg@),
{
    let t = str_trim(seg);
    let tn = t.unicode_len();
    proof {
        reveal_strlit("=");
        lemma_first_in(t@, '=');
    }
    let (key, value) = match crate::text::find_sub(t, "=") {
        None => {
            proof {
                assert forall|j: int| 0 <= j < t@.len() implies t@[j] != '=' by {
                    assert(!crate::text::occurs_at(t@, "="@, j));
                    if t@[j] == '=' {
                        assert(t@.subrange(j, j + 1) =~= "="@);
                    }
                }
                lemma_first_in_absent(t@, '=');
            }
            (str_trim(t), String::new())
        },
        Some(i) => {
            proof {
                assert(t@.subrange(i as int, i + 1) == "="@);
                assert(t@[i as int] == '=') by {
                    assert(t@.subrange(i as int, i + 1)[0] == t@[i as int]);
                }
                assert forall|j: int| 0 <= j < i implies t@[j] != '=' by {
                    assert(!crate::text::occurs_at(t@, "="@, j));
                    assert(t@.subrange(j, j + 1)[0] == t@[j]);
                    if t@[j] == '=' {
                        assert(t@.subrange(j, j + 1) =~= "="@);
                    }
                }
                lemma_first_in_at(t@, '=', i as int);
            }
            let key_part = t.substring_char(0, i);
            assert(key_part@ == t@.take(i as int));
            let rest = t.substring_char(i + 1, tn);
            assert(rest@ == t@.skip(i + 1));
            proof {
                reveal_strlit("=");
                lemma_first_in(rest@, '=');
            }
            let value_part = match crate::text::find_sub(rest, "=") {
                None => {
                    proof {
                        assert forall|j: int| 0 <= j < rest@.len() implies rest@[j] != '=' by {
                            assert(!crate::text::occurs_at(rest@, "="@, j));
                            if rest@[j] == '=' {
                                assert(rest@.subrange(j, j + 1) =~= "="@);
                            }
                        }
                        lemma_first_in_absent(rest@, '=');
                    }
                    str_trim(rest)
                },
                Some(j) => {
                    proof {
                        assert(rest@.subrange(j as int, j + 1) == "="@);
                        assert(rest@[j as int] == '=') by {
                            assert(rest@.subrange(j as int, j + 1)[0] == rest@[j as int]);
                        }
                        assert forall|k: int| 0 <= k < j implies rest@[k] != '=' by {
                            assert(!crate::text::occurs_at(rest@, "="@, k));
                            if rest@[k] == '=' {
                                assert(rest@.subrange(k, k + 1) =~= "="@);
                            }
                        }
                        lemma_first_in_at(rest@, '=', j as int);
                    }
                    let v = rest.substring_char(0, j);
                    assert(v@ == rest@.take(j as int));
                    str_trim(v)
                },
            };
            (str_trim(key_part), value_part.to_owned())
        },
    };
    if crate::text::str_eq(key, name) {
        Some(value)
    } else {
        None
    }
}

/// Looks a cookie up in the jar the browser hands back: entries separated
/// by semicolons, each binding a name to a value, a later binding of the
/// same name shadowing an earlier one. Returns the value bound to the
/// name, or nothing when no entry binds it.
pub fn cookie_value(header: &str, name: &str) -> (r: Option<String>)
    ensures
        r is None ==> forall|i: int|
            0 <= i < split_on(header@, ';').len() ==> entry_name(
                #[trigger] split_on(header@, ';')[i],
            ) != name@,
        r matches Some(v) ==> exists|i: int|
            0 <= i < split_on(header@, ';').len() && entry_name(
                #[trigger] split_on(header@, ';')[i],
            ) == name@ && v@ == entry_value(split_on(header@, ';')[i]) && (forall|j: int|
                i < j < split_on(header@, ';').len() ==> entry_name(
                    #[trigger] split_on(header@, ';')[j],
                ) != name@),
{
    let ghost segs = split_on(header@, ';');
    let mut rest: &str = header;
    let ghost mut k: int = 0;
    let mut best: Option<String> = None;
    proof {
        assert(segs.skip(0) =~= segs);
    }
    loop
        invariant_except_break
            0 <= k <= segs.len(),
            split_on(rest@, ';') =~= segs.skip(k),
            segs == split_on(header@, ';'),
            best is None ==> forall|j: int| 0 <= j < k ==> entry_name(#[trigger] segs[j]) != name@,
            best matches Some(v) ==> exists|i: int|
                0 <= i < k && entry_name(#[trigger] segs[i]) == name@ && v@ == entry_value(segs[i])
                    && (forall|j: int| i < j < k ==> entry_name(#[trigger] segs[j]) != name@),
        ensures
            best is None ==> forall|j: int|
                0 <= j < segs.len() ==> entry_name(#[trigger] segs[j]) != name@,
            best matches Some(v) ==> exists|i: int|
                0 <= i < segs.len() && entry_name(#[trigger] segs[i]) == name@ && v@
                    == entry_value(segs[i]) && (forall|j: int|
                    i < j < segs.len() ==> entry_name(#[trigger] segs[j]) != name@),
        decreases rest@.len(),
    {
        let n = rest.unicode_len();
        proof {
            reveal_strlit(";");
            lemma_first_in(rest@, ';');
        }
        match crate::text::find_sub(rest, ";") {
            None => {
                proof {
                    assert forall|j: int| 0 <= j < rest@.len() implies rest@[j] != ';' by {
                        assert(!crate::text::occurs_at(rest@, ";"@, j));
                        if rest@[j] == ';' {
                            assert(rest@.subrange(j, j + 1) =~= ";"@);
                        }
                    }
                    lemma_first_in_absent(rest@, ';');
                    assert(split_on(rest@, ';') =~= seq![rest@]);
                    assert(segs.skip(k) =~= seq![rest@]);
                    assert(segs.skip(k).len() == segs.len() - k);
                    assert(segs.len() == k + 1);
                    assert(segs.skip(k)[0] == segs[k]);
                    assert(seq![rest@][0] == rest@);
                    assert(segs[k] == rest@);
                }
                match read_entry(rest, name) {
                    Some(v) => {
                        best = Some(v);
                    },
                    None => {},
                }
                proof {
                    k = k + 1;
                }
                break ;
            },
            Some(i) => {
                proof {
                    assert(rest@.subrange(i as int, i + 1) == ";"@);
                    assert(rest@[i as int] == ';') by {
                        assert(rest@.subrange(i as int, i + 1)[0] == rest@[i as int]);
                    }
                    assert forall|j: int| 0 <= j < i implies rest@[j] != ';' by {
                        assert(!crate::text::occurs_at(rest@, ";"@, j));
                        if rest@[j] == ';' {
                            assert(rest@.subrange(j, j + 1) =~= ";"@);
                        }
                    }
                    lemma_first_in_at(rest@, ';', i as int);
                    assert(split_on(rest@, ';') =~= seq![rest@.take(i as int)] + split_on(
                        rest@.skip(i + 1),
                        ';',
                    ));
                    assert(segs.skip(k) =~= seq![rest@.take(i as int)] + split_on(
                        rest@.skip(i + 1),
                        ';',
                    ));
                    assert(segs.skip(k).len() == segs.len() - k);
                    assert(k < segs.len());
                    assert(segs.skip(k)[0] == segs[k]);
                    assert((seq![rest@.take(i as int)] + split_on(rest@.skip(i + 1), ';'))[0]
                        == rest@.take(i as int));
                    assert(segs[k] == rest@.take(i as int));
                    assert(segs.skip(k + 1) =~= split_on(rest@.skip(i + 1), ';')) by {
                        assert(segs.len() - (k + 1) == split_on(rest@.skip(i + 1), ';').len());
                        assert forall|m: int|
                            0 <= m < split_on(rest@.skip(i + 1), ';').len() implies #[trigger] segs.skip(
                            k + 1,
                        )[m] == split_on(rest@.skip(i + 1), ';')[m] by {
                            assert(segs.skip(k + 1)[m] == segs[k + 1 + m]);
                            assert(segs.skip(k)[m + 1] == segs[k + 1 + m]);
                            assert(segs.skip(k)[m + 1] == (seq![rest@.take(i as int)] + split_on(
                                rest@.skip(i + 1),
                                ';',
                            ))[m + 1]);
                        }
                    }
                }
                let seg = rest.substring_char(0, i);
                assert(seg@ == rest@.take(i as int));
                match read_entry(seg, name) {
                    Some(v) => {
                        best = Some(v);
                    },
                    None => {},
                }
                let next = rest.substring_char(i + 1, n);
                assert(next@ == rest@.skip(i + 1));
                rest = next;
                proof {
                    k = k + 1;
                }
            },
        }
    }
    best
}

} // verus!

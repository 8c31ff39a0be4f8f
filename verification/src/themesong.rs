//! Parsing of a theme-song line of the form
//! `N: "Title" by Artist (eps 1-12)` into its title, artist and episode
//! range.
use vstd::prelude::*;
use vstd::string::*;

verus! {

use crate::text::{find_sub, occurs_at};

/// Whether the pattern's first occurrence in the text is at `i`.
pub open spec fn found_at(s: Seq<char>, p: Seq<char>, i: int) -> bool {
    occurs_at(s, p, i) && forall|j: int| 0 <= j < i ==> !occurs_at(s, p, j)
}

/// The quote mark that opens the song title.
pub open spec fn quote_pat() -> Seq<char> {
    "\""@
}

/// The word that introduces the artist.
pub open spec fn by_pat() -> Seq<char> {
    "by "@
}

/// The marker that opens the episode range.
pub open spec fn eps_pat() -> Seq<char> {
    "(eps"@
}

/// Whether a line has the two markers the parse cannot do without: a
/// quote mark and the artist marker.
pub open spec fn themesong_ok(s: Seq<char>) -> bool {
    (exists|t: int| found_at(s, quote_pat(), t)) && (exists|a: int| found_at(s, by_pat(), a))
}

/// The view of an optional string.
pub open spec fn opt_str_view(o: Option<String>) -> Option<Seq<char>> {
    match o {
        Some(x) => Some(x@),
        None => None,
    }
}

/// How the parsed pieces relate to the line, given the positions of the
/// quote and artist markers: the title sits between them, and the artist
/// and episode range depend on whether an episode marker occurs.
pub open spec fn themesong_parts_at(
    s: Seq<char>,
    title: Seq<char>,
    artist: Seq<char>,
    eps: Option<Seq<char>>,
    t: int,
    a: int,
) -> bool {
    &&& title == s.subrange(t + 1, a - 2)
    &&& (forall|e: int| !occurs_at(s, eps_pat(), e)) ==> (artist == s.subrange(
        a + 3,
        s.len() as int,
    ) && eps is None)
    &&& forall|e: int|
        found_at(s, eps_pat(), e) ==> (artist == s.subrange(a + 3, e - 1) && eps is Some
            && eps->0 == s.subrange(e + 5, s.len() - 1))
}

/// The pieces parsed out of a theme-song line.
#[derive(Debug)]
pub struct ThemesongParseResult {
    pub artist: String,
    pub title: String,
    pub eps: Option<String>,
}

/// Splits a theme-song line at its markers: the title sits between the
/// first quote mark and the artist marker, the artist runs from there to
/// the episode marker (or the end), and the episode range fills the
/// parentheses. A line without a quote or artist marker is refused.
pub fn parse_themesong(s: &str) -> (r: Result<ThemesongParseResult, &'static str>)
    requires
        forall|t: int, a: int|
            found_at(s@, quote_pat(), t) && found_at(s@, by_pat(), a) ==> t + 3 <= a,
        forall|a: int, e: int|
            found_at(s@, by_pat(), a) && found_at(s@, eps_pat(), e) ==> a + 4 <= e,
        forall|e: int| found_at(s@, eps_pat(), e) ==> e + 6 <= s@.len(),
    ensures
        r is Ok <==> themesong_ok(s@),
        r is Ok ==> forall|t: int, a: int|
            (found_at(s@, quote_pat(), t) && found_at(s@, by_pat(), a)) ==> themesong_parts_at(
                s@,
                r->Ok_0.title@,
                r->Ok_0.artist@,
                opt_str_view(r->Ok_0.eps),
                t,
                a,
            ),
{
    let n = s.unicode_len();
    let e_i = find_sub(s, "(eps");
    let t_i = match find_sub(s, "\"") {
        Some(i) => i,
        None => {
            return Err("Invalid token.");
        },
    };
    let a_i = match find_sub(s, "by ") {
        Some(i) => i,
        None => {
            return Err("Invalid token.");
        },
    };
    proof {
        reveal_strlit("\"");
        reveal_strlit("by ");
        reveal_strlit("(eps");
        assert(found_at(s@, quote_pat(), t_i as int));
        assert(found_at(s@, by_pat(), a_i as int));
    }
    let artist_end: usize = match e_i {
        Some(e) => {
            proof {
                assert(found_at(s@, eps_pat(), e as int));
            }
            e - 1
        },
        None => n,
    };
    let artist = s.substring_char(a_i + 3, artist_end).to_owned();
    let title = s.substring_char(t_i + 1, a_i - 2).to_owned();
    let eps = match e_i {
        Some(e) => Some(s.substring_char(e + 5, n - 1).to_owned()),
        None => None,
    };
    Ok(ThemesongParseResult { artist, title, eps })
}

} // verus!

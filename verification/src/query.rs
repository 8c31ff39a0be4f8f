//! Sort order, ranking and canned result sources for anime queries, and the
//! query-string fragments built from them.
use vstd::prelude::*;
use vstd::string::*;

verus! {

use crate::text::{parse_u32, parses_to_u32, str_eq, dec_value, spec_u64_dec, lemma_u64_dec_digits, lemma_u64_dec_value};

/// The field results are ordered by.
#[derive(Clone, Copy, Debug, PartialEq, Eq, Structural, Default)]
pub enum OrderBy {
    StartDate,
    #[default]
    Score,
    Rank,
}

impl OrderBy {
    /// The query-string name of this ordering.
    pub fn to_str(&self) -> (r: &'static str)
        ensures
            *self is StartDate ==> r@ == "start_date"@,
            *self is Score ==> r@ == "score"@,
            *self is Rank ==> r@ == "rank"@,
    {
        match self {
            OrderBy::StartDate => "start_date",
            OrderBy::Score => "score",
            OrderBy::Rank => "rank",
        }
    }
}

/// The direction results are sorted in.
#[derive(Clone, Copy, Debug, PartialEq, Eq, Structural, Default)]
pub enum Sort {
    Asc,
    #[default]
    Desc,
}

impl Sort {
    /// The query-string name of this direction.
    pub fn to_str(&self) -> (r: &'static str)
        ensures
            *self is Asc ==> r@ == "asc"@,
            *self is Desc ==> r@ == "desc"@,
    {
        match self {
            Sort::Asc => "asc",
            Sort::Desc => "desc",
        }
    }
}

/// A chosen sort direction and ordering field.
#[derive(Clone, Copy, Debug, PartialEq, Eq, Structural, Default)]
pub struct QuerySort {
    pub sort: Sort,
    pub order_by: OrderBy,
}

/// The query-string fragment a sort direction contributes.
pub open spec fn sort_fragment(s: Sort) -> Seq<char> {
    match s {
        Sort::Asc => "&sort=asc"@,
        Sort::Desc => "&sort=desc"@,
    }
}

/// The query-string fragment an ordering field contributes.
pub open spec fn order_fragment(o: OrderBy) -> Seq<char> {
    match o {
        OrderBy::Rank => "&order_by=rank"@,
        OrderBy::Score => "&order_by=score"@,
        OrderBy::StartDate => "&order_by=start_date"@,
    }
}

impl QuerySort {
    /// The query-string fragment for this sort: direction, then ordering.
    pub fn to_params(&self) -> (r: String)
        ensures
            r@ == sort_fragment(self.sort) + order_fragment(self.order_by),
    {
        let mut url = String::new();
        match self.sort {
            Sort::Asc => url.append("&sort=asc"),
            Sort::Desc => url.append("&sort=desc"),
        }
        match self.order_by {
            OrderBy::Rank => url.append("&order_by=rank"),
            OrderBy::Score => url.append("&order_by=score"),
            OrderBy::StartDate => url.append("&order_by=start_date"),
        }
        assert(url@ =~= sort_fragment(self.sort) + order_fragment(self.order_by));
        url
    }

    /// Replaces the direction, keeping the ordering.
    pub fn update_sort(&self, s: Sort) -> (r: Self)
        ensures
            r.sort == s,
            r.order_by == self.order_by,
    {
        Self { sort: s, order_by: self.order_by }
    }

    /// Replaces the ordering, keeping the direction.
    pub fn update_order_by(&self, ord: OrderBy) -> (r: Self)
        ensures
            r.sort == self.sort,
            r.order_by == ord,
    {
        Self { sort: self.sort, order_by: ord }
    }
}

/// A canned result source: the overall top list, the current season, or
/// everything by one genre or producer.
#[derive(Clone, Debug, PartialEq)]
pub enum StdResultType {
    Top(&'static str),
    Seasonal(&'static str),
    Genre(u32),
    Producer(u32),
}

/// The top-list endpoint.
pub const TOP_URL: &'static str = "https://api.jikan.moe/v4/top/anime?";

/// The current-season endpoint.
pub const SEASONAL_URL: &'static str = "https://api.jikan.moe/v4/seasons/now?";

/// The route path of a result source.
pub open spec fn std_route_text(t: StdResultType) -> Seq<char> {
    match t {
        StdResultType::Seasonal(_) => "seasonal"@,
        StdResultType::Top(_) => "top"@,
        StdResultType::Genre(id) => "genre/"@ + spec_u64_dec(id as nat),
        StdResultType::Producer(id) => "producer/"@ + spec_u64_dec(id as nat),
    }
}

/// The query endpoint of a result source.
pub open spec fn std_link_text(t: StdResultType) -> Seq<char> {
    match t {
        StdResultType::Top(s) => s@,
        StdResultType::Seasonal(s) => s@,
        StdResultType::Genre(id) => crate::JIKAN_URL@ + "?genres="@ + spec_u64_dec(id as nat)
            + "&order_by=score&sort=desc"@,
        StdResultType::Producer(id) => crate::JIKAN_URL@ + "?producers="@ + spec_u64_dec(id as nat)
            + "&order_by=score&sort=desc"@,
    }
}

/// Which route strings a source decodes from: more than nine characters
/// reads a producer number after the ninth, more than six (except the word
/// "seasonal") reads a genre number after the sixth, and the words "top"
/// and "seasonal" name the two canned lists.
pub open spec fn std_route_names(s: Seq<char>, t: StdResultType) -> bool {
    if s.len() > 9 {
        t is Producer && t->Producer_0 == dec_value(s.skip(9))
    } else if s.len() > 6 && s != "seasonal"@ {
        t is Genre && t->Genre_0 == dec_value(s.skip(6))
    } else if s == "top"@ {
        t is Top && t->Top_0@ == TOP_URL@
    } else if s == "seasonal"@ {
        t is Seasonal && t->Seasonal_0@ == SEASONAL_URL@
    } else {
        false
    }
}

/// Whether a route string decodes to any source at all: the number part
/// must read as a number, and a short string must be one of the two words.
pub open spec fn std_route_ok(s: Seq<char>) -> bool {
    if s.len() > 9 {
        parses_to_u32(s.skip(9))
    } else if s.len() > 6 && s != "seasonal"@ {
        parses_to_u32(s.skip(6))
    } else {
        s == "top"@ || s == "seasonal"@
    }
}

impl StdResultType {
    /// Reads a result source from its route path. The number after a
    /// "genre/" or "producer/" prefix must read as a number.
    pub fn from_str(s: &str) -> (r: Result<StdResultType, &'static str>)
        requires
            s@.len() > 6 ==> std_route_ok(s@),
        ensures
            r is Ok <==> std_route_ok(s@),
            r is Ok ==> std_route_names(s@, r->Ok_0),
    {
        let n = s.unicode_len();
        proof {
            reveal_strlit("seasonal");
            reveal_strlit("top");
        }
        if n > 9 {
            let num = s.substring_char(9, n);
            assert(num@ == s@.skip(9));
            match parse_u32(num) {
                Some(id) => Ok(StdResultType::Producer(id)),
                None => {
                    proof {
                        assert(false);
                    }
                    Err("Invalid StdResultType.")
                },
            }
        } else if n > 6 && !str_eq(s, "seasonal") {
            let num = s.substring_char(6, n);
            assert(num@ == s@.skip(6));
            match parse_u32(num) {
                Some(id) => Ok(StdResultType::Genre(id)),
                None => {
                    proof {
                        assert(false);
                    }
                    Err("Invalid StdResultType.")
                },
            }
        } else if str_eq(s, "top") {
            Ok(StdResultType::Top(TOP_URL))
        } else if str_eq(s, "seasonal") {
            Ok(StdResultType::Seasonal(SEASONAL_URL))
        } else {
            Err("Invalid StdResultType.")
        }
    }

    /// The route path of this source.
    pub fn route_str(&self) -> (r: String)
        ensures
            r@ == std_route_text(*self),
    {
        match self {
            StdResultType::Seasonal(_) => "seasonal".to_owned(),
            StdResultType::Top(_) => "top".to_owned(),
            StdResultType::Genre(id) => {
                let mut r = "genre/".to_owned();
                let num = crate::text::u32_to_string(*id);
                r.append(num.as_str());
                r
            },
            StdResultType::Producer(id) => {
                let mut r = "producer/".to_owned();
                let num = crate::text::u32_to_string(*id);
                r.append(num.as_str());
                r
            },
        }
    }

    /// The query endpoint of this source.
    pub fn link(&self) -> (r: String)
        ensures
            r@ == std_link_text(*self),
    {
        match self {
            StdResultType::Top(s) => (*s).to_owned(),
            StdResultType::Seasonal(s) => (*s).to_owned(),
            StdResultType::Genre(id) => {
                let mut r = crate::JIKAN_URL.to_owned();
                r.append("?genres=");
                let num = crate::text::u32_to_string(*id);
                r.append(num.as_str());
                r.append("&order_by=score&sort=desc");
                assert(r@ =~= std_link_text(*self));
                r
            },
            StdResultType::Producer(id) => {
                let mut r = crate::JIKAN_URL.to_owned();
                r.append("?producers=");
                let num = crate::text::u32_to_string(*id);
                r.append(num.as_str());
                r.append("&order_by=score&sort=desc");
                assert(r@ =~= std_link_text(*self));
                r
            },
        }
    }
}

/// Decoding a genre or producer source's own route path restores it.
/// A genre needs an identifier below one thousand: a longer one makes the
/// path as long as a producer path, which decoding prefers.
pub proof fn lemma_std_route_roundtrip(t: StdResultType, t2: StdResultType)
    requires
        t is Genre || t is Producer,
        t is Genre ==> t->Genre_0 < 1000,
        std_route_names(std_route_text(t), t2),
    ensures
        t2 == t,
{
    reveal_strlit("genre/");
    reveal_strlit("producer/");
    reveal_strlit("seasonal");
    match t {
        StdResultType::Genre(id) => {
            let s = std_route_text(t);
            lemma_u64_dec_digits(id as nat);
            lemma_u64_dec_value(id as nat);
            lemma_short_dec_len(id as nat);
            assert(s.skip(6) =~= spec_u64_dec(id as nat));
            assert(6 < s.len() <= 9);
            assert(s != "seasonal"@) by {
                assert(s[0] == 'g');
                assert("seasonal"@[0] == 's');
            }
        },
        StdResultType::Producer(id) => {
            let s = std_route_text(t);
            lemma_u64_dec_digits(id as nat);
            lemma_u64_dec_value(id as nat);
            assert(s.skip(9) =~= spec_u64_dec(id as nat));
            assert(s.len() > 9);
        },
        _ => {
        },
    }
}

/// A number below one thousand renders in at most three digits.
proof fn lemma_short_dec_len(n: nat)
    requires
        n < 1000,
    ensures
        spec_u64_dec(n).len() <= 3,
    decreases n,
{
    if n >= 10 {
        lemma_short_dec_len(n / 10);
        if n / 10 >= 10 {
            lemma_short_dec_len(n / 100);
        }
    }
}

/// What the search-result view receives: the query and the page.
#[derive(Clone, Debug, PartialEq)]
pub struct Props {
    pub q: String,
    pub page: u32,
}

} // verus!

//! The explore view's filter: a year range and included and excluded genre
//! lists, with the query-string fragment built from them.
use vstd::prelude::*;
use vstd::string::*;

verus! {

use crate::models::Genre;
use crate::text::{spec_u64_dec, u32_to_string};

/// The identifying view of a genre: its number and its name.
pub open spec fn genre_view(g: Genre) -> (u32, Seq<char>) {
    (g.mal_id, g.name@)
}

/// The identifying views of a genre list.
pub open spec fn genre_views(s: Seq<Genre>) -> Seq<(u32, Seq<char>)> {
    s.map_values(|g: Genre| genre_view(g))
}

/// The predicate that keeps every genre other than the given one.
pub open spec fn genre_keep(gv: (u32, Seq<char>)) -> spec_fn((u32, Seq<char>)) -> bool {
    |t: (u32, Seq<char>)| t != gv
}

/// A copy of a genre.
fn clone_genre(g: &Genre) -> (r: Genre)
    ensures
        genre_view(r) == genre_view(*g),
{
    Genre { mal_id: g.mal_id, name: g.name.clone() }
}

/// The genre numbers of a list in order, a comma after each entry whose
/// position, counted from one, differs from `stop`.
pub open spec fn genre_ids_text(gs: Seq<Genre>, stop: int) -> Seq<char>
    decreases gs.len(),
{
    if gs.len() == 0 {
        Seq::<char>::empty()
    } else {
        genre_ids_text(gs.drop_last(), stop) + spec_u64_dec(gs.last().mal_id as nat) + (
        if gs.len() as int != stop {
            ","@
        } else {
            Seq::<char>::empty()
        })
    }
}

/// A date-range and genre filter on the explore query.
#[derive(Clone, Debug, PartialEq)]
pub struct QueryFilter {
    pub start_date: Option<String>,
    pub end_date: Option<String>,
    pub genres: Vec<Genre>,
    pub genres_exclude: Vec<Genre>,
}

/// The query-string fragment a filter contributes: the two date bounds,
/// then each nonempty genre list behind an extra ampersand. Both lists
/// place their commas by the position of the *included* list's end, as the
/// view has always done.
pub open spec fn filter_params_text(f: QueryFilter) -> Seq<char> {
    (if f.start_date is Some {
        "&start_date="@ + f.start_date->0@
    } else {
        Seq::<char>::empty()
    }) + (if f.end_date is Some {
        "&end_date="@ + f.end_date->0@
    } else {
        Seq::<char>::empty()
    }) + (if f.genres@.len() != 0 {
        seq!['&'] + "&genres="@ + genre_ids_text(f.genres@, f.genres@.len() as int)
    } else {
        Seq::<char>::empty()
    }) + (if f.genres_exclude@.len() != 0 {
        seq!['&'] + "&genres_exclude="@ + genre_ids_text(f.genres_exclude@, f.genres@.len() as int)
    } else {
        Seq::<char>::empty()
    })
}

impl Default for QueryFilter {
    /// The unconstrained filter.
    fn default() -> (r: QueryFilter)
        ensures
            r.start_date is None,
            r.end_date is None,
            r.genres@.len() == 0,
            r.genres_exclude@.len() == 0,
    {
        QueryFilter { start_date: None, end_date: None, genres: Vec::new(), genres_exclude: Vec::new() }
    }
}

impl QueryFilter {
    /// The query-string fragment for this filter.
    #[verifier::rlimit(50)]
    pub fn to_params(&self) -> (r: String)
        ensures
            r@ == filter_params_text(*self),
    {
        let mut url = String::new();
        match &self.start_date {
            Some(d) => {
                url.append("&start_date=");
                url.append(d.as_str());
            },
            None => {},
        }
        match &self.end_date {
            Some(d) => {
                url.append("&end_date=");
                url.append(d.as_str());
            },
            None => {},
        }
        let stop = self.genres.len();
        if self.genres.len() != 0 {
            let genres = self.genre_list_params(&self.genres, stop);
            crate::text::push_char(&mut url, '&');
            url.append(genres.as_str());
        }
        if self.genres_exclude.len() != 0 {
            let genres = self.genre_list_params_exclude(&self.genres_exclude, stop);
            crate::text::push_char(&mut url, '&');
            url.append(genres.as_str());
        }
        assert(url@ =~= filter_params_text(*self));
        url
    }

    /// The body of the included-genres fragment.
    fn genre_list_params(&self, gs: &Vec<Genre>, stop: usize) -> (r: String)
        ensures
            r@ == "&genres="@ + genre_ids_text(gs@, stop as int),
    {
        let mut out = String::new();
        out.append("&genres=");
        let n = gs.len();
        let mut i: usize = 0;
        while i < n
            invariant
                n == gs@.len(),
                0 <= i <= n,
                out@ == "&genres="@ + genre_ids_text(gs@.take(i as int), stop as int),
            decreases n - i,
        {
            let num = u32_to_string(gs[i].mal_id);
            out.append(num.as_str());
            if i + 1 != stop {
                out.append(",");
            }
            proof {
                assert(gs@.take(i + 1).drop_last() =~= gs@.take(i as int));
                assert(gs@.take(i + 1).last() == gs@[i as int]);
                assert(out@ =~= "&genres="@ + genre_ids_text(gs@.take(i + 1), stop as int));
            }
            i = i + 1;
        }
        assert(gs@.take(n as int) =~= gs@);
        out
    }

    /// The body of the excluded-genres fragment.
    fn genre_list_params_exclude(&self, gs: &Vec<Genre>, stop: usize) -> (r: String)
        ensures
            r@ == "&genres_exclude="@ + genre_ids_text(gs@, stop as int),
    {
        let mut out = String::new();
        out.append("&genres_exclude=");
        let n = gs.len();
        let mut i: usize = 0;
        while i < n
            invariant
                n == gs@.len(),
                0 <= i <= n,
                out@ == "&genres_exclude="@ + genre_ids_text(gs@.take(i as int), stop as int),
            decreases n - i,
        {
            let num = u32_to_string(gs[i].mal_id);
            out.append(num.as_str());
            if i + 1 != stop {
                out.append(",");
            }
            proof {
                assert(gs@.take(i + 1).drop_last() =~= gs@.take(i as int));
                assert(gs@.take(i + 1).last() == gs@[i as int]);
                assert(out@ =~= "&genres_exclude="@ + genre_ids_text(gs@.take(i + 1), stop as int));
            }
            i = i + 1;
        }
        assert(gs@.take(n as int) =~= gs@);
        out
    }

    /// Adds a genre at the end of the included list.
    pub fn add_genres(self, g: &Genre) -> (r: Self)
        ensures
            r.start_date == self.start_date,
            r.end_date == self.end_date,
            r.genres_exclude == self.genres_exclude,
            genre_views(r.genres@) == genre_views(self.genres@).push(genre_view(*g)),
    {
        let QueryFilter { start_date, end_date, mut genres, genres_exclude } = self;
        genres.push(clone_genre(g));
        let r = QueryFilter { start_date, end_date, genres, genres_exclude };
        proof {
            assert(genre_views(r.genres@) =~= genre_views(self.genres@).push(genre_view(*g)));
        }
        r
    }

    /// Empties the included list.
    pub fn reset_genres(self) -> (r: Self)
        ensures
            r.start_date == self.start_date,
            r.end_date == self.end_date,
            r.genres_exclude == self.genres_exclude,
            r.genres@.len() == 0,
    {
        let QueryFilter { start_date, end_date, genres: _, genres_exclude } = self;
        QueryFilter { start_date, end_date, genres: Vec::new(), genres_exclude }
    }

    /// Drops every occurrence of a genre from the included list.
    pub fn remove_genres(self, g: &Genre) -> (r: Self)
        ensures
            r.start_date == self.start_date,
            r.end_date == self.end_date,
            r.genres_exclude == self.genres_exclude,
            genre_views(r.genres@) == genre_views(self.genres@).filter(genre_keep(genre_view(*g))),
    {
        let QueryFilter { start_date, end_date, genres, genres_exclude } = self;
        let kept = filter_out_genre(&genres, g);
        QueryFilter { start_date, end_date, genres: kept, genres_exclude }
    }

    /// Adds a genre at the end of the excluded list.
    pub fn add_genres_exclude(self, g: &Genre) -> (r: Self)
        ensures
            r.start_date == self.start_date,
            r.end_date == self.end_date,
            r.genres == self.genres,
            genre_views(r.genres_exclude@) == genre_views(self.genres_exclude@).push(
                genre_view(*g),
            ),
    {
        let QueryFilter { start_date, end_date, genres, mut genres_exclude } = self;
        genres_exclude.push(clone_genre(g));
        let r = QueryFilter { start_date, end_date, genres, genres_exclude };
        proof {
            assert(genre_views(r.genres_exclude@) =~= genre_views(self.genres_exclude@).push(
                genre_view(*g),
            ));
        }
        r
    }

    /// Empties the excluded list.
    pub fn reset_genres_exclude(self) -> (r: Self)
        ensures
            r.start_date == self.start_date,
            r.end_date == self.end_date,
            r.genres == self.genres,
            r.genres_exclude@.len() == 0,
    {
        let QueryFilter { start_date, end_date, genres, genres_exclude: _ } = self;
        QueryFilter { start_date, end_date, genres, genres_exclude: Vec::new() }
    }

    /// Drops every occurrence of a genre from the excluded list.
    pub fn remove_genres_exclude(self, g: &Genre) -> (r: Self)
        ensures
            r.start_date == self.start_date,
            r.end_date == self.end_date,
            r.genres == self.genres,
            genre_views(r.genres_exclude@) == genre_views(self.genres_exclude@).filter(
                genre_keep(genre_view(*g)),
            ),
    {
        let QueryFilter { start_date, end_date, genres, genres_exclude } = self;
        let kept = filter_out_genre(&genres_exclude, g);
        QueryFilter { start_date, end_date, genres, genres_exclude: kept }
    }

    /// Bounds the range below by the first day of the given year.
    pub fn add_start_year(self, y: &str) -> (r: Self)
        ensures
            r.start_date is Some && r.start_date->0@ == y@ + "-01-01"@,
            r.end_date == self.end_date,
            r.genres == self.genres,
            r.genres_exclude == self.genres_exclude,
    {
        let QueryFilter { start_date: _, end_date, genres, genres_exclude } = self;
        let mut d = y.to_owned();
        d.append("-01-01");
        QueryFilter { start_date: Some(d), end_date, genres, genres_exclude }
    }

    /// Removes the lower bound of the range.
    pub fn remove_start_year(self) -> (r: Self)
        ensures
            r.start_date is None,
            r.end_date == self.end_date,
            r.genres == self.genres,
            r.genres_exclude == self.genres_exclude,
    {
        let QueryFilter { start_date: _, end_date, genres, genres_exclude } = self;
        QueryFilter { start_date: None, end_date, genres, genres_exclude }
    }

    /// Bounds the range above by the last day of the given year.
    pub fn add_end_year(self, y: &str) -> (r: Self)
        ensures
            r.end_date is Some && r.end_date->0@ == y@ + "-12-31"@,
            r.start_date == self.start_date,
            r.genres == self.genres,
            r.genres_exclude == self.genres_exclude,
    {
        let QueryFilter { start_date, end_date: _, genres, genres_exclude } = self;
        let mut d = y.to_owned();
        d.append("-12-31");
        QueryFilter { start_date, end_date: Some(d), genres, genres_exclude }
    }

    /// Removes the upper bound of the range.
    pub fn remove_end_year(self) -> (r: Self)
        ensures
            r.end_date is None,
            r.start_date == self.start_date,
            r.genres == self.genres,
            r.genres_exclude == self.genres_exclude,
    {
        let QueryFilter { start_date, end_date: _, genres, genres_exclude } = self;
        QueryFilter { start_date, end_date: None, genres, genres_exclude }
    }
}

/// The genres of a list other than the given one, in order.
fn filter_out_genre(gs: &Vec<Genre>, g: &Genre) -> (r: Vec<Genre>)
    ensures
        genre_views(r@) == genre_views(gs@).filter(genre_keep(genre_view(*g))),
{
    let mut out: Vec<Genre> = Vec::new();
    let n = gs.len();
    let mut i: usize = 0;
    proof {
        reveal(Seq::filter);
        assert(genre_views(gs@.take(0)) =~= Seq::<(u32, Seq<char>)>::empty());
        assert(genre_views(out@) =~= Seq::<(u32, Seq<char>)>::empty());
    }
    while i < n
        invariant
            n == gs@.len(),
            0 <= i <= n,
            genre_views(out@) == genre_views(gs@.take(i as int)).filter(
                genre_keep(genre_view(*g)),
            ),
        decreases n - i,
    {
        let keep = !(gs[i] == *g);
        let ghost prev = genre_views(out@);
        if keep {
            out.push(clone_genre(&gs[i]));
        }
        proof {
            reveal(Seq::filter);
            let vs = genre_views(gs@.take(i + 1));
            assert(vs.drop_last() =~= genre_views(gs@.take(i as int)));
            assert(vs.last() == genre_view(gs@[i as int]));
            assert(keep == (genre_keep(genre_view(*g))(genre_view(gs@[i as int]))));
            if keep {
                assert(genre_views(out@) =~= prev.push(genre_view(gs@[i as int])));
            }
        }
        i = i + 1;
    }
    assert(gs@.take(n as int) =~= gs@);
    out
}

} // verus!

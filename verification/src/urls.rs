//! The request URLs the views fetch from, assembled from the query, the
//! page cursor, the safe-search flag and the explore filters.
use vstd::prelude::*;
use vstd::string::*;

verus! {

use crate::filter::{filter_params_text, QueryFilter};
use crate::models::Filter;
use crate::query::{order_fragment, sort_fragment, std_link_text, QuerySort, StdResultType};
use crate::text::{spec_u64_dec, u32_to_string, u64_to_string};

/// The text of the safe-search flag: the opposite of the adult-content
/// switch.
pub open spec fn sfw_text(nsfw: bool) -> Seq<char> {
    if nsfw {
        "false"@
    } else {
        "true"@
    }
}

/// Appends "true" or "false" for the safe-search flag.
fn append_sfw(url: &mut String, nsfw: bool)
    ensures
        final(url)@ == old(url)@ + sfw_text(nsfw),
{
    if nsfw {
        url.append("false");
    } else {
        url.append("true");
    }
}

/// The URL a free-text search fetches: the query, the page, and safe
/// search unless adult content is allowed.
pub open spec fn search_url_text(q: Seq<char>, page: u32, nsfw: bool) -> Seq<char> {
    "https://api.jikan.moe/v4/anime?q="@ + q + "&page="@ + spec_u64_dec(page as nat) + (if nsfw {
        "&sfw=false"@
    } else {
        "&sfw=true"@
    })
}

/// Builds the URL a free-text search fetches.
pub fn search_url(q: &str, page: u32, nsfw: bool) -> (r: String)
    ensures
        r@ == search_url_text(q@, page, nsfw),
{
    let mut url = "https://api.jikan.moe/v4/anime?q=".to_owned();
    url.append(q);
    url.append("&page=");
    let num = u32_to_string(page);
    url.append(num.as_str());
    if nsfw {
        url.append("&sfw=false");
    } else {
        url.append("&sfw=true");
    }
    assert(url@ =~= search_url_text(q@, page, nsfw));
    url
}

/// The URL the home view's seasonal row fetches.
pub open spec fn seasonal_url_text(nsfw: bool) -> Seq<char> {
    "https://api.jikan.moe/v4/seasons/now?sfw="@ + sfw_text(nsfw)
}

/// Builds the URL the home view's seasonal row fetches.
pub fn seasonal_url(nsfw: bool) -> (r: String)
    ensures
        r@ == seasonal_url_text(nsfw),
{
    let mut url = "https://api.jikan.moe/v4/seasons/now?sfw=".to_owned();
    append_sfw(&mut url, nsfw);
    assert(url@ =~= seasonal_url_text(nsfw));
    url
}

/// The URL the home view's top row fetches.
pub open spec fn top_url_text(nsfw: bool) -> Seq<char> {
    "https://api.jikan.moe/v4/top/anime?sfw="@ + sfw_text(nsfw)
}

/// Builds the URL the home view's top row fetches.
pub fn top_url(nsfw: bool) -> (r: String)
    ensures
        r@ == top_url_text(nsfw),
{
    let mut url = "https://api.jikan.moe/v4/top/anime?sfw=".to_owned();
    append_sfw(&mut url, nsfw);
    assert(url@ =~= top_url_text(nsfw));
    url
}

/// The URL the explore view fetches: safe search, the page, the filter
/// fragment and the sort fragment, a trailing ampersand last.
pub open spec fn explore_url_text(
    nsfw: bool,
    page: u32,
    qf: QueryFilter,
    qs: QuerySort,
) -> Seq<char> {
    "https://api.jikan.moe/v4/anime?sfw="@ + sfw_text(nsfw) + "&page="@ + spec_u64_dec(page as nat)
        + filter_params_text(qf) + sort_fragment(qs.sort) + order_fragment(qs.order_by) + "&"@
}

/// Builds the URL the explore view fetches.
pub fn explore_url(nsfw: bool, page: u32, qf: &QueryFilter, qs: &QuerySort) -> (r: String)
    ensures
        r@ == explore_url_text(nsfw, page, *qf, *qs),
{
    let mut url = "https://api.jikan.moe/v4/anime?sfw=".to_owned();
    append_sfw(&mut url, nsfw);
    url.append("&page=");
    let num = u32_to_string(page);
    url.append(num.as_str());
    let fp = qf.to_params();
    url.append(fp.as_str());
    let sp = qs.to_params();
    url.append(sp.as_str());
    url.append("&");
    assert(url@ =~= explore_url_text(nsfw, page, *qf, *qs));
    url
}

/// The URL a canned result view fetches: the source's endpoint, the page,
/// and the safe-search flag.
pub open spec fn std_result_url_text(t: StdResultType, page: u32, nsfw: bool) -> Seq<char> {
    std_link_text(t) + "&page="@ + spec_u64_dec(page as nat) + "&sfw="@ + sfw_text(nsfw)
}

/// Builds the URL a canned result view fetches.
pub fn std_result_url(t: &StdResultType, page: u32, nsfw: bool) -> (r: String)
    ensures
        r@ == std_result_url_text(*t, page, nsfw),
{
    let mut url = t.link();
    url.append("&page=");
    let num = u32_to_string(page);
    url.append(num.as_str());
    url.append("&sfw=");
    append_sfw(&mut url, nsfw);
    assert(url@ =~= std_result_url_text(*t, page, nsfw));
    url
}

/// The URL the comment section fetches and posts to for one anime.
pub open spec fn comments_url_text(anime_id: i32) -> Seq<char> {
    crate::BASE_URL@ + "/api/v1/anime/"@ + crate::text::spec_i64_dec(anime_id as int)
        + "/comment"@
}

/// Builds the URL the comment section fetches and posts to.
pub fn comments_url(anime_id: i32) -> (r: String)
    ensures
        r@ == comments_url_text(anime_id),
{
    let mut url = crate::BASE_URL.to_owned();
    url.append("/api/v1/anime/");
    let num = crate::text::i64_to_string(anime_id as i64);
    url.append(num.as_str());
    url.append("/comment");
    assert(url@ =~= comments_url_text(anime_id));
    url
}

/// The URL the login form posts to.
pub fn login_url() -> (r: String)
    ensures
        r@ == crate::BASE_URL@ + "/api/v1/users/login"@,
{
    let mut url = crate::BASE_URL.to_owned();
    url.append("/api/v1/users/login");
    url
}

/// The URL the registration form posts to.
pub fn register_url() -> (r: String)
    ensures
        r@ == crate::BASE_URL@ + "/api/v1/users/register"@,
{
    let mut url = crate::BASE_URL.to_owned();
    url.append("/api/v1/users/register");
    url
}

/// The URL the logout button posts to.
pub fn logout_url() -> (r: String)
    ensures
        r@ == crate::BASE_URL@ + "/api/v1/users/logout"@,
{
    let mut url = crate::BASE_URL.to_owned();
    url.append("/api/v1/users/logout");
    url
}

/// The torrent-lookup endpoint: the full listing when asked for whole
/// seasons or when the all-episodes filter is set, the per-episode one
/// otherwise.
pub open spec fn torrent_url_text(filters: Seq<Filter>, full: bool) -> Seq<char> {
    if full || filters.contains(Filter::AllEpisodes) {
        crate::BASE_URL@ + "/api/v1/get_torrent_full"@
    } else {
        crate::BASE_URL@ + "/api/v1/get_torrent"@
    }
}

/// Builds the torrent-lookup URL.
pub fn torrent_url(filters: &Vec<Filter>, full: bool) -> (r: String)
    ensures
        r@ == torrent_url_text(filters@, full),
{
    let mut has_all = false;
    let n = filters.len();
    let mut i: usize = 0;
    while i < n
        invariant
            n == filters@.len(),
            0 <= i <= n,
            has_all == filters@.take(i as int).contains(Filter::AllEpisodes),
        decreases n - i,
    {
        if filters[i] == Filter::AllEpisodes {
            has_all = true;
        }
        proof {
            assert(filters@.take(i + 1).drop_last() =~= filters@.take(i as int));
            assert(filters@.take(i + 1).last() == filters@[i as int]);
            if filters@.take(i as int).contains(Filter::AllEpisodes) || filters@[i as int]
                == Filter::AllEpisodes {
                assert(filters@.take(i + 1).contains(Filter::AllEpisodes)) by {
                    if filters@[i as int] == Filter::AllEpisodes {
                        assert(filters@.take(i + 1)[i as int] == Filter::AllEpisodes);
                    } else {
                        let k = choose|k: int|
                            0 <= k < i && #[trigger] filters@.take(i as int)[k]
                                == Filter::AllEpisodes;
                        assert(filters@.take(i + 1)[k] == Filter::AllEpisodes);
                    }
                }
            } else {
                assert(!filters@.take(i + 1).contains(Filter::AllEpisodes)) by {
                    if filters@.take(i + 1).contains(Filter::AllEpisodes) {
                        let k = choose|k: int|
                            0 <= k <= i && #[trigger] filters@.take(i + 1)[k]
                                == Filter::AllEpisodes;
                        if k < i {
                            assert(filters@.take(i as int)[k] == Filter::AllEpisodes);
                        }
                    }
                }
            }
        }
        i = i + 1;
    }
    assert(filters@.take(n as int) =~= filters@);
    let mut url = crate::BASE_URL.to_owned();
    if full || has_all {
        url.append("/api/v1/get_torrent_full");
    } else {
        url.append("/api/v1/get_torrent");
    }
    url
}

/// A copy of a filter list.
pub fn copy_filters(filters: &Vec<Filter>) -> (r: Vec<Filter>)
    ensures
        r@ == filters@,
{
    let mut out: Vec<Filter> = Vec::new();
    let n = filters.len();
    let mut i: usize = 0;
    while i < n
        invariant
            n == filters@.len(),
            0 <= i <= n,
            out@ == filters@.take(i as int),
        decreases n - i,
    {
        out.push(filters[i]);
        assert(out@ =~= filters@.take(i + 1));
        i = i + 1;
    }
    assert(filters@.take(n as int) =~= filters@);
    out
}

/// The request body of a torrent lookup: both titles, the episode and a
/// copy of the filters.
pub fn make_torrent_request(
    ttl_en: &str,
    ttl_def: &str,
    eps: u16,
    f: &Vec<Filter>,
) -> (r: crate::models::TorrentRequest)
    ensures
        r.ttl_def@ == ttl_def@,
        r.ttl_en@ == ttl_en@,
        r.eps == eps,
        r.filter@ == f@,
{
    crate::models::TorrentRequest {
        ttl_def: ttl_def.to_owned(),
        ttl_en: ttl_en.to_owned(),
        eps,
        filter: copy_filters(f),
    }
}

} // verus!

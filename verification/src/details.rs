//! The detail view's computations: the endpoints it fetches, the episode
//! count assembled from the listing and its pagination, and the favorite
//! submissions sent to the backend.
use vstd::prelude::*;
use vstd::string::*;

verus! {

use crate::auth::{fav_ids, ids_sorted};
use crate::models::{UserAnimeResponse, UserAnimeSubmission};
use crate::text::{spec_u64_dec, str_eq, u64_to_string};
use vstd::multiset::Multiset;

/// The full-record endpoint of one anime.
pub fn anime_full_url(mal_id: u64) -> (r: String)
    ensures
        r@ == "https://api.jikan.moe/v4/anime/"@ + spec_u64_dec(mal_id as nat) + "/full"@,
{
    let mut url = "https://api.jikan.moe/v4/anime/".to_owned();
    let num = u64_to_string(mal_id);
    url.append(num.as_str());
    url.append("/full");
    url
}

/// The character-list endpoint of one anime.
pub fn characters_url(mal_id: u64) -> (r: String)
    ensures
        r@ == "https://api.jikan.moe/v4/anime/"@ + spec_u64_dec(mal_id as nat) + "/characters"@,
{
    let mut url = "https://api.jikan.moe/v4/anime/".to_owned();
    let num = u64_to_string(mal_id);
    url.append(num.as_str());
    url.append("/characters");
    url
}

/// The episode-list endpoint of one anime.
pub fn episodes_url(mal_id: u64) -> (r: String)
    ensures
        r@ == "https://api.jikan.moe/v4/anime/"@ + spec_u64_dec(mal_id as nat) + "/episodes"@,
{
    let mut url = "https://api.jikan.moe/v4/anime/".to_owned();
    let num = u64_to_string(mal_id);
    url.append(num.as_str());
    url.append("/episodes");
    url
}

/// One page of the episode-list endpoint.
pub fn episodes_page_url(mal_id: u64, page: u32) -> (r: String)
    ensures
        r@ == "https://api.jikan.moe/v4/anime/"@ + spec_u64_dec(mal_id as nat) + "/episodes?page="@
            + spec_u64_dec(page as nat),
{
    let mut url = episodes_url(mal_id);
    url.append("?page=");
    let num = crate::text::u32_to_string(page);
    url.append(num.as_str());
    proof {
        reveal_strlit("/episodes");
        reveal_strlit("?page=");
        reveal_strlit("/episodes?page=");
    }
    assert(url@ =~= "https://api.jikan.moe/v4/anime/"@ + spec_u64_dec(mal_id as nat)
        + "/episodes?page="@ + spec_u64_dec(page as nat));
    url
}

/// The recommendation endpoint of one anime.
pub fn recommendations_url(mal_id: u64) -> (r: String)
    ensures
        r@ == "https://api.jikan.moe/v4/anime/"@ + spec_u64_dec(mal_id as nat)
            + "/recommendations"@,
{
    let mut url = "https://api.jikan.moe/v4/anime/".to_owned();
    let num = u64_to_string(mal_id);
    url.append(num.as_str());
    url.append("/recommendations");
    url
}

/// The endpoint a favorite is added through.
pub fn add_anime_url() -> (r: String)
    ensures
        r@ == crate::BASE_URL@ + "/api/v1/users/add_anime"@,
{
    let mut url = crate::BASE_URL.to_owned();
    url.append("/api/v1/users/add_anime");
    url
}

/// The endpoint a favorite is removed through.
pub fn remove_anime_url(mal_id: u64) -> (r: String)
    ensures
        r@ == crate::BASE_URL@ + "/api/v1/users/remove_anime/"@ + spec_u64_dec(mal_id as nat),
{
    let mut url = crate::BASE_URL.to_owned();
    url.append("/api/v1/users/remove_anime/");
    let num = u64_to_string(mal_id);
    url.append(num.as_str());
    url
}

/// Whether the record's own episode count is missing or zero, so that the
/// count must come from the episode listing instead.
pub open spec fn count_from_listing(episodes: Option<u16>) -> bool {
    episodes is None || episodes->0 == 0
}

/// Whether the listing's last page must be fetched before the episode
/// count can be given: only when the record carries no count and the
/// listing has more than one page.
pub fn needs_last_page(episodes: Option<u16>, last_page: u32) -> (r: bool)
    ensures
        r == (count_from_listing(episodes) && last_page > 1),
{
    let eps_info: u16 = match episodes {
        Some(n) => n,
        None => 0,
    };
    eps_info == 0 && last_page > 1
}

/// The episode count shown on the detail view. When the record carries no
/// count, the listing gives it: a hundred per full page plus the entries
/// of the final page (`page_len` is the final page's length, or the first
/// page's when there is only one). A movie with a carried count shows
/// none.
pub fn total_episodes(
    episodes: Option<u16>,
    kind: &Option<String>,
    last_page: u32,
    page_len: usize,
) -> (r: usize)
    requires
        (last_page as int - 1) * 100 + page_len <= u32::MAX,
    ensures
        count_from_listing(episodes) && last_page > 1 ==> r == (last_page - 1) * 100 + page_len,
        count_from_listing(episodes) && last_page <= 1 ==> r == page_len,
        !count_from_listing(episodes) ==> r == (if kind matches Some(t) && t@ == "Movie"@ {
            0int
        } else {
            episodes->0 as int
        }),
{
    let eps_info: u16 = match episodes {
        Some(n) => n,
        None => 0,
    };
    if eps_info == 0 {
        if last_page > 1 {
            (((last_page - 1) * 100) as usize) + page_len
        } else {
            page_len
        }
    } else {
        match kind {
            Some(t) => {
                if str_eq(t.as_str(), "Movie") {
                    0
                } else {
                    eps_info as usize
                }
            },
            None => eps_info as usize,
        }
    }
}

/// The body of an add-favorite request. The anime's identifier is sent
/// truncated to the backend's signed width.
pub fn make_fav_submission(
    uuid: i32,
    mal_id: u64,
    anime_img: Option<String>,
    anime_ttl_en: String,
    anime_ttl_jp: Option<String>,
) -> (r: UserAnimeSubmission)
    ensures
        r.uuid == uuid,
        r.anime_id == mal_id as i32,
        r.anime_img == anime_img,
        r.anime_ttl_en == anime_ttl_en,
        r.anime_ttl_jp == anime_ttl_jp,
{
    UserAnimeSubmission {
        uuid,
        anime_id: mal_id as i32,
        anime_img,
        anime_ttl_en,
        anime_ttl_jp,
    }
}

/// The favorite entry recorded alongside a submission.
pub fn make_fav_response(
    mal_id: u64,
    anime_img: Option<String>,
    anime_ttl_en: String,
    anime_ttl_jp: Option<String>,
) -> (r: UserAnimeResponse)
    ensures
        r.anime_id == mal_id as i32,
        r.anime_img == anime_img,
        r.anime_ttl_en == anime_ttl_en,
        r.anime_ttl_jp == anime_ttl_jp,
{
    UserAnimeResponse { anime_id: mal_id as i32, anime_img, anime_ttl_en, anime_ttl_jp }
}

/// A sorted identifier list with one more identifier: the new one takes
/// its place in the order.
pub fn insert_fav_id(ids: Vec<i32>, id: i32) -> (r: Vec<i32>)
    requires
        ids_sorted(ids@),
    ensures
        ids_sorted(r@),
        r@.to_multiset() == ids@.to_multiset().insert(id),
{
    let mut out = ids;
    let n = out.len();
    let mut i: usize = 0;
    while i < n && out[i] <= id
        invariant
            n == out@.len(),
            0 <= i <= n,
            forall|k: int| 0 <= k < i ==> #[trigger] out@[k] <= id,
        decreases n - i,
    {
        i = i + 1;
    }
    let ghost before = out@;
    out.insert(i, id);
    proof {
        broadcast use vstd::seq_lib::group_to_multiset_ensures;

        assert(out@.remove(i as int) =~= before);
        assert(out@.remove(i as int).to_multiset() =~= out@.to_multiset().remove(id)) by {
            assert(out@[i as int] == id);
        }
        assert(out@.to_multiset().count(id) > 0) by {
            assert(out@[i as int] == id);
            assert(out@.contains(id));
        }
        assert(out@.to_multiset() =~= before.to_multiset().insert(id));
        assert(ids_sorted(out@)) by {
            assert forall|a: int, b: int| 0 <= a < b < out@.len() implies #[trigger] out@[a]
                <= #[trigger] out@[b] by {
                if b < i {
                    assert(out@[a] == before[a]);
                    assert(out@[b] == before[b]);
                } else if b == i {
                    assert(out@[b] == id);
                    assert(out@[a] == before[a]);
                    assert(before[a] <= id);
                } else {
                    assert(out@[b] == before[b - 1]);
                    if a < i {
                        assert(out@[a] == before[a]);
                        assert(a < b - 1);
                        assert(before[a] <= before[b - 1]);
                    } else if a == i {
                        assert(out@[a] == id);
                        assert(i < n);
                        assert(!(before[i as int] <= id));
                        assert(before[i as int] <= before[b - 1]);
                    } else {
                        assert(out@[a] == before[a - 1]);
                        assert(before[a - 1] <= before[b - 1]);
                    }
                }
            }
        }
    }
    out
}

/// The favorite identifiers of a list with one more entry, sorted: what
/// the add-favorite flow stores back.
pub fn fav_ids_with(v: &Vec<UserAnimeResponse>, id: i32) -> (r: Vec<i32>)
    ensures
        ids_sorted(r@),
        r@.to_multiset() == fav_ids(v@).to_multiset().insert(id),
{
    let sorted = crate::auth::sorted_fav_ids(v);
    insert_fav_id(sorted, id)
}

} // verus!

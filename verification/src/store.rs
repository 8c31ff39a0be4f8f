//! The application context: session, preferences, pagination cursor, query
//! and response cache, with copy-on-write updates and a structural hash that
//! reads only the search-relevant slice (page, adult-content flag, query).
use vstd::prelude::*;
use vstd::string::*;
use vstd::wrapping::u64_specs;

verus! {

/// The colour theme.
#[derive(Clone, Copy, Debug, PartialEq, Eq, Structural, Default)]
pub enum Theme {
    Light,
    Dark,
    #[default]
    Auto,
}

/// The title language preference.
#[derive(Clone, Copy, Debug, PartialEq, Eq, Structural, Default)]
pub enum Language {
    #[default]
    EN,
    JP,
}

pub const LIGHT_THEME: Theme = Theme::Light;

pub const DARK_THEME: Theme = Theme::Dark;

pub const AUTO_THEME: Theme = Theme::Auto;

/// Cached responses for the four fixed views.
#[derive(Clone, Debug, PartialEq)]
pub struct Cache {
    pub anime_details: Option<crate::models::AnimeObjAsQueryResult>,
    pub search_result: Option<crate::models::QueryResult>,
    pub anime_result: Option<crate::models::QueryResult>,
    pub home_page_result: Option<(crate::models::QueryResult, crate::models::QueryResult)>,
}

impl Default for Cache {
    /// The empty cache.
    fn default() -> (r: Cache)
        ensures
            r.anime_details is None,
            r.search_result is None,
            r.anime_result is None,
            r.home_page_result is None,
    {
        Cache { anime_details: None, search_result: None, anime_result: None, home_page_result: None }
    }
}

impl Cache {
    /// Replaces the cached detail view, keeping the other slots.
    pub fn update_anime_details(
        self,
        anime_details: Option<crate::models::AnimeObjAsQueryResult>,
    ) -> (r: Cache)
        ensures
            r == (Cache { anime_details, ..self }),
    {
        Cache { anime_details, ..self }
    }

    /// Replaces the cached generic result view, keeping the other slots.
    pub fn update_anime_result(self, anime_result: Option<crate::models::QueryResult>) -> (r:
        Cache)
        ensures
            r == (Cache { anime_result, ..self }),
    {
        Cache { anime_result, ..self }
    }

    /// Replaces the cached search view, keeping the other slots.
    pub fn update_search_result(self, search_result: Option<crate::models::QueryResult>) -> (r:
        Cache)
        ensures
            r == (Cache { search_result, ..self }),
    {
        Cache { search_result, ..self }
    }

    /// Replaces the cached home view, keeping the other slots.
    pub fn update_home_page_result(
        self,
        home_page_result: Option<(crate::models::QueryResult, crate::models::QueryResult)>,
    ) -> (r: Cache)
        ensures
            r == (Cache { home_page_result, ..self }),
    {
        Cache { home_page_result, ..self }
    }
}

/// Seed of the structural hash.
pub const HASH_SEED: u64 = 0xcbf29ce484222325;

/// Multiplier of the structural hash.
pub const HASH_PRIME: u64 = 0x100000001b3;

/// One mixing step of the structural hash.
pub open spec fn spec_hash_step(h: u64, v: u64) -> u64 {
    u64_specs::wrapping_mul(h ^ v, HASH_PRIME)
}

/// The hash after mixing in every character of a sequence, left to right.
pub open spec fn spec_hash_chars(h: u64, s: Seq<char>) -> u64
    decreases s.len(),
{
    if s.len() == 0 {
        h
    } else {
        spec_hash_step(spec_hash_chars(h, s.drop_last()), s.last() as u64)
    }
}

/// The structural hash of a context: a digest of the page cursor, the
/// adult-content flag and the query text, and of nothing else.
pub open spec fn spec_ctx_hash(cur_page: u8, nsfw: bool, query: Seq<char>) -> u64 {
    spec_hash_chars(
        spec_hash_step(
            spec_hash_step(HASH_SEED, cur_page as u64),
            if nsfw {
                1u64
            } else {
                0u64
            },
        ),
        query,
    )
}

/// The whole application context.
#[derive(Clone, Debug, PartialEq)]
pub struct AppCtx {
    pub jwt: Option<String>,
    pub username: Option<String>,
    pub fav_anime: Option<Vec<crate::models::UserAnimeResponse>>,
    pub fav_anime_id: Option<Vec<i32>>,
    pub uuid: Option<i32>,
    pub theme: Theme,
    pub language: Language,
    pub cur_page: u8,
    pub loading_page: bool,
    pub nsfw: bool,
    pub query: String,
    pub cache: Cache,
    pub hash: u64,
}

/// Computes the structural hash of a context. Only the page cursor, the
/// adult-content flag and the query text enter the digest.
pub fn calculate_hash(ctx: &AppCtx) -> (r: u64)
    ensures
        r == spec_ctx_hash(ctx.cur_page, ctx.nsfw, ctx.query@),
{
    let mut h: u64 = HASH_SEED;
    h = (h ^ (ctx.cur_page as u64)).wrapping_mul(HASH_PRIME);
    let flag: u64 = if ctx.nsfw {
        1
    } else {
        0
    };
    h = (h ^ flag).wrapping_mul(HASH_PRIME);
    let q = ctx.query.as_str();
    let n = q.unicode_len();
    let mut i: usize = 0;
    while i < n
        invariant
            n == q@.len(),
            0 <= i <= n,
            h == spec_hash_chars(
                spec_hash_step(
                    spec_hash_step(HASH_SEED, ctx.cur_page as u64),
                    if ctx.nsfw {
                        1u64
                    } else {
                        0u64
                    },
                ),
                q@.take(i as int),
            ),
        decreases n - i,
    {
        let c = q.get_char(i);
        h = (h ^ (c as u64)).wrapping_mul(HASH_PRIME);
        assert(q@.take(i + 1).drop_last() =~= q@.take(i as int));
        i = i + 1;
    }
    assert(q@.take(n as int) =~= q@);
    h
}

/// The structural hash reads only the page cursor, the adult-content flag
/// and the query: two contexts agreeing on those three agree on the hash,
/// whatever their themes, sessions, caches or other fields hold.
pub proof fn lemma_ctx_hash_reads_three_fields(a: AppCtx, b: AppCtx)
    requires
        a.cur_page == b.cur_page,
        a.nsfw == b.nsfw,
        a.query@ == b.query@,
    ensures
        spec_ctx_hash(a.cur_page, a.nsfw, a.query@) == spec_ctx_hash(b.cur_page, b.nsfw, b.query@),
{
}

impl AppCtx {
    /// Replaces the theme, keeping every other field.
    pub fn update_theme_into(self, new_theme: Theme) -> (r: AppCtx)
        ensures
            r == (AppCtx { theme: new_theme, ..self }),
    {
        AppCtx { theme: new_theme, ..self }
    }

    /// Replaces the language, keeping every other field.
    pub fn update_language_into(self, new_lang: Language) -> (r: AppCtx)
        ensures
            r == (AppCtx { language: new_lang, ..self }),
    {
        AppCtx { language: new_lang, ..self }
    }

    /// Replaces the page cursor, keeping every other field. The stored
    /// hash is left as it was, so the change shows up in `has_changed`.
    pub fn update_page_into(self, new_page: u8) -> (r: AppCtx)
        ensures
            r == (AppCtx { cur_page: new_page, ..self }),
    {
        AppCtx { cur_page: new_page, ..self }
    }

    /// Replaces the loading flag, keeping every other field.
    pub fn update_loading_page_into(self, new_status: bool) -> (r: AppCtx)
        ensures
            r == (AppCtx { loading_page: new_status, ..self }),
    {
        AppCtx { loading_page: new_status, ..self }
    }

    /// Replaces the adult-content flag, keeping every other field.
    pub fn update_nsfw_into(self, new_status: bool) -> (r: AppCtx)
        ensures
            r == (AppCtx { nsfw: new_status, ..self }),
    {
        AppCtx { nsfw: new_status, ..self }
    }

    /// Replaces the query text, keeping every other field.
    pub fn update_query_into(self, query: String) -> (r: AppCtx)
        ensures
            r == (AppCtx { query, ..self }),
    {
        AppCtx { query, ..self }
    }

    /// Replaces the cache and refreshes the stored hash so it matches
    /// the (unchanged) search-relevant fields.
    pub fn update_cache_into(self, cache: Cache) -> (r: AppCtx)
        ensures
            r == (AppCtx {
                cache,
                hash: spec_ctx_hash(self.cur_page, self.nsfw, self.query@),
                ..self
            }),
    {
        let ctx = AppCtx { cache, ..self };
        let h = calculate_hash(&ctx);
        ctx.update_hash_into(h)
    }

    /// Replaces the stored hash, keeping every other field.
    pub fn update_hash_into(self, hash: u64) -> (r: AppCtx)
        ensures
            r == (AppCtx { hash, ..self }),
    {
        AppCtx { hash, ..self }
    }

    /// Replaces the session token, keeping every other field.
    pub fn update_jwt_into(self, jwt: Option<String>) -> (r: AppCtx)
        ensures
            r == (AppCtx { jwt, ..self }),
    {
        AppCtx { jwt, ..self }
    }

    /// Replaces the username, keeping every other field.
    pub fn update_username_into(self, username: Option<String>) -> (r: AppCtx)
        ensures
            r == (AppCtx { username, ..self }),
    {
        AppCtx { username, ..self }
    }

    /// Replaces the account identifier, keeping every other field.
    pub fn update_uuid_into(self, uuid: Option<i32>) -> (r: AppCtx)
        ensures
            r == (AppCtx { uuid, ..self }),
    {
        AppCtx { uuid, ..self }
    }

    /// Replaces the favorite list, keeping every other field.
    pub fn update_fav_anime_into(
        self,
        fav_anime: Option<Vec<crate::models::UserAnimeResponse>>,
    ) -> (r: AppCtx)
        ensures
            r == (AppCtx { fav_anime, ..self }),
    {
        AppCtx { fav_anime, ..self }
    }

    /// Replaces the favorite identifier list, keeping every other field.
    pub fn update_fav_anime_id_into(self, fav_anime_id: Option<Vec<i32>>) -> (r: AppCtx)
        ensures
            r == (AppCtx { fav_anime_id, ..self }),
    {
        AppCtx { fav_anime_id, ..self }
    }

    /// The language preference.
    pub fn get_langauge(&self) -> (r: Language)
        ensures
            r == self.language,
    {
        self.language
    }

    /// Whether the search-relevant slice changed since the stored hash was
    /// taken. On a change, also hands back the context with its hash
    /// refreshed; otherwise nothing.
    pub fn has_changed(self) -> (r: (bool, Option<AppCtx>))
        ensures
            r.0 == (self.hash != spec_ctx_hash(self.cur_page, self.nsfw, self.query@)),
            r.0 ==> r.1 == Some(
                (AppCtx { hash: spec_ctx_hash(self.cur_page, self.nsfw, self.query@), ..self }),
            ),
            !r.0 ==> r.1 is None,
    {
        let cur_hash = calculate_hash(&self);
        let result = self.hash != cur_hash;
        if result {
            (true, Some(self.update_hash_into(cur_hash)))
        } else {
            (false, None)
        }
    }

    /// The context a fresh session starts from: dark theme, English titles,
    /// first page, safe search, empty query and cache, and a stored hash
    /// that matches the search-relevant fields.
    pub fn initial() -> (r: AppCtx)
        ensures
            r.jwt is None,
            r.username is None,
            r.fav_anime is None,
            r.fav_anime_id is None,
            r.uuid is None,
            r.theme == Theme::Dark,
            r.language == Language::EN,
            r.cur_page == 1,
            !r.loading_page,
            !r.nsfw,
            r.query@ == Seq::<char>::empty(),
            r.cache.anime_details is None,
            r.cache.search_result is None,
            r.cache.anime_result is None,
            r.cache.home_page_result is None,
            r.hash == spec_ctx_hash(r.cur_page, r.nsfw, r.query@),
    {
        let ctx = AppCtx {
            uuid: None,
            jwt: None,
            fav_anime: None,
            fav_anime_id: None,
            username: None,
            theme: DARK_THEME,
            language: Language::EN,
            cur_page: 1,
            loading_page: false,
            nsfw: false,
            query: String::new(),
            cache: Cache {
                anime_details: None,
                search_result: None,
                anime_result: None,
                home_page_result: None,
            },
            hash: 0,
        };
        let h = calculate_hash(&ctx);
        ctx.update_hash_into(h)
    }
}

/// Whether the search view may reuse its cached response: only when the
/// search-relevant slice is unchanged and a response is cached at all.
pub fn use_cached_search(changed: bool, cache: &Cache) -> (r: bool)
    ensures
        r == (!changed && cache.search_result is Some),
{
    !changed && cache.search_result.is_some()
}

/// Whether the home view may reuse its cached pair of responses.
pub fn use_cached_home(cache: &Cache) -> (r: bool)
    ensures
        r == (cache.home_page_result is Some),
{
    cache.home_page_result.is_some()
}

} // verus!

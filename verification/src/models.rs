//! The data the application receives from the anime-metadata API and the
//! companion backend, modelled as plain values.
use vstd::prelude::*;
use vstd::string::*;

verus! {

/// A title of an anime in one naming scheme.
#[derive(Clone, Debug, PartialEq)]
pub struct Title {
    pub kind: String,
    pub title: String,
}

impl Title {
    /// The naming scheme this title belongs to.
    pub fn get_type(&self) -> (r: String)
        ensures
            r@ == self.kind@,
    {
        self.kind.clone()
    }
}

/// A named entity on the metadata site: a studio, genre or theme.
#[derive(Clone, Debug, PartialEq)]
pub struct MALObj {
    pub mal_id: u32,
    pub kind: String,
    pub name: String,
    pub url: String,
}

/// Image links for one format.
#[derive(Clone, Debug, PartialEq)]
pub struct Images {
    pub image_url: Option<String>,
    pub small_image_url: Option<String>,
    pub large_image_url: Option<String>,
}

/// Image links in both served formats.
#[derive(Clone, Debug, PartialEq)]
pub struct AnimeImages {
    pub jpg: Images,
    pub webp: Images,
}

/// Trailer links of an anime.
#[derive(Clone, Debug, PartialEq)]
pub struct Trailers {
    pub youtube_id: Option<String>,
    pub url: Option<String>,
    pub embed_url: Option<String>,
}

/// Airing status of an anime.
#[derive(Clone, Copy, Debug, PartialEq, Eq, Structural)]
pub enum AnimeStatus {
    FinishedAiring,
    CurrentlyAiring,
    NotYetAiring,
}

/// Reads an airing status from the phrase the metadata API uses for it.
/// Returns `None` exactly when the phrase is none of the three known ones.
pub fn anime_status_from_str(s: &str) -> (r: Option<AnimeStatus>)
    ensures
        s@ == "Finished Airing"@ ==> r == Some(AnimeStatus::FinishedAiring),
        s@ == "Currently Airing"@ ==> r == Some(AnimeStatus::CurrentlyAiring),
        s@ == "Not yet aired"@ ==> r == Some(AnimeStatus::NotYetAiring),
        s@ != "Finished Airing"@ && s@ != "Currently Airing"@ && s@ != "Not yet aired"@ ==> r
            is None,
{
    proof {
        reveal_strlit("Finished Airing");
        reveal_strlit("Currently Airing");
        reveal_strlit("Not yet aired");
        assert("Finished Airing"@.len() == 15);
        assert("Currently Airing"@.len() == 16);
        assert("Not yet aired"@.len() == 13);
    }
    if crate::text::str_eq(s, "Finished Airing") {
        Some(AnimeStatus::FinishedAiring)
    } else if crate::text::str_eq(s, "Currently Airing") {
        Some(AnimeStatus::CurrentlyAiring)
    } else if crate::text::str_eq(s, "Not yet aired") {
        Some(AnimeStatus::NotYetAiring)
    } else {
        None
    }
}

/// The first air date of an anime, as the API serves it.
#[derive(Clone, Debug, PartialEq)]
pub struct AiredDate {
    pub from: Option<String>,
}

/// Opening and ending theme songs of an anime.
#[derive(Clone, Debug, PartialEq)]
pub struct AnimeTheme {
    pub openings: Vec<String>,
    pub endings: Vec<String>,
}

/// The metadata of one anime, as listed in search results.
#[derive(Clone, Debug, PartialEq)]
pub struct AnimeObj {
    pub mal_id: u64,
    pub url: String,
    pub images: AnimeImages,
    pub approved: bool,
    pub titles: Vec<Title>,
    pub title_english: Option<String>,
    pub title_japanese: Option<String>,
    pub source: Option<String>,
    pub episodes: Option<u16>,
    pub status: Option<AnimeStatus>,
    pub airing: bool,
    pub score: Option<String>,
    pub scored_by: Option<u64>,
    pub rank: Option<u32>,
    pub popularity: Option<u32>,
    pub year: Option<u32>,
    pub kind: Option<String>,
    pub synopsis: Option<String>,
    pub background: Option<String>,
    pub studios: Vec<MALObj>,
    pub genres: Vec<MALObj>,
    pub season: Option<String>,
    pub themes: Vec<MALObj>,
    pub aired: AiredDate,
}

/// The metadata of one anime with its theme songs, as the detail view
/// receives it.
#[derive(Clone, Debug, PartialEq)]
pub struct AnimeObjFull {
    pub mal_id: u64,
    pub url: String,
    pub images: AnimeImages,
    pub approved: bool,
    pub titles: Vec<Title>,
    pub title_english: Option<String>,
    pub title_japanese: Option<String>,
    pub source: Option<String>,
    pub episodes: Option<u16>,
    pub status: Option<AnimeStatus>,
    pub airing: bool,
    pub score: Option<String>,
    pub scored_by: Option<u64>,
    pub rank: Option<u32>,
    pub popularity: Option<u32>,
    pub year: Option<u32>,
    pub kind: Option<String>,
    pub synopsis: Option<String>,
    pub background: Option<String>,
    pub studios: Vec<MALObj>,
    pub genres: Vec<MALObj>,
    pub season: Option<String>,
    pub themes: Vec<MALObj>,
    pub theme: AnimeTheme,
    pub aired: AiredDate,
}

impl From<AnimeObjFull> for AnimeObj {
    /// Forgets the theme songs, keeping every other field.
    fn from(v: AnimeObjFull) -> (r: AnimeObj) {
        AnimeObj {
            mal_id: v.mal_id,
            url: v.url,
            images: v.images,
            approved: v.approved,
            titles: v.titles,
            title_english: v.title_english,
            title_japanese: v.title_japanese,
            source: v.source,
            episodes: v.episodes,
            status: v.status,
            airing: v.airing,
            score: v.score,
            scored_by: v.scored_by,
            rank: v.rank,
            popularity: v.popularity,
            year: v.year,
            kind: v.kind,
            synopsis: v.synopsis,
            background: v.background,
            studios: v.studios,
            genres: v.genres,
            season: v.season,
            themes: v.themes,
            aired: v.aired,
        }
    }
}

impl vstd::std_specs::convert::FromSpecImpl<AnimeObjFull> for AnimeObj {
    open spec fn obeys_from_spec() -> bool {
        true
    }

    open spec fn from_spec(v: AnimeObjFull) -> AnimeObj {
        AnimeObj {
            mal_id: v.mal_id,
            url: v.url,
            images: v.images,
            approved: v.approved,
            titles: v.titles,
            title_english: v.title_english,
            title_japanese: v.title_japanese,
            source: v.source,
            episodes: v.episodes,
            status: v.status,
            airing: v.airing,
            score: v.score,
            scored_by: v.scored_by,
            rank: v.rank,
            popularity: v.popularity,
            year: v.year,
            kind: v.kind,
            synopsis: v.synopsis,
            background: v.background,
            studios: v.studios,
            genres: v.genres,
            season: v.season,
            themes: v.themes,
            aired: v.aired,
        }
    }
}

/// A page of anime results with its pagination descriptor.
#[derive(Clone, Debug, PartialEq)]
pub struct QueryResult {
    pub data: Vec<AnimeObj>,
    pub pagination: crate::pagination::PaginationObj,
}

/// One anime handed to a card as a property.
#[derive(Clone, Debug, PartialEq)]
pub struct AnimeObjAsProp {
    pub anime_obj: AnimeObj,
}

/// A single-anime response envelope.
#[derive(Clone, Debug, PartialEq)]
pub struct AnimeObjAsQueryResult {
    pub data: AnimeObj,
}

/// A single-anime response envelope with theme songs.
#[derive(Clone, Debug, PartialEq)]
pub struct AnimeObjFullAsQueryResult {
    pub data: AnimeObjFull,
}

/// Image links of a character, in one format.
#[derive(Clone, Debug, PartialEq)]
pub struct CharImg {
    pub image_url: Option<String>,
    pub small_image_url: Option<String>,
}

/// Image links of a character, in both formats.
#[derive(Clone, Debug, PartialEq)]
pub struct CharImgWrapper {
    pub jpg: CharImg,
    pub webp: CharImg,
}

/// A character of an anime.
#[derive(Clone, Debug, PartialEq)]
pub struct CharObj {
    pub mal_id: u32,
    pub url: String,
    pub images: CharImgWrapper,
    pub name: String,
}

impl CharObj {
    /// The character's numeric identifier.
    pub fn get_mal_id(&self) -> (r: u32)
        ensures
            r == self.mal_id,
    {
        self.mal_id
    }

    /// The character's page link.
    pub fn get_url(&self) -> (r: String)
        ensures
            r@ == self.url@,
    {
        self.url.clone()
    }

    /// The character's JPEG portrait link, when one is listed.
    pub fn get_images_jpg(&self) -> (r: Option<String>)
        ensures
            r is Some <==> self.images.jpg.image_url is Some,
            r is Some ==> r->0@ == self.images.jpg.image_url->0@,
    {
        match &self.images.jpg.image_url {
            Some(s) => Some(s.clone()),
            None => None,
        }
    }

    /// The character's WebP portrait link, when one is listed.
    pub fn get_image_webp(&self) -> (r: Option<String>)
        ensures
            r is Some <==> self.images.webp.image_url is Some,
            r is Some ==> r->0@ == self.images.webp.image_url->0@,
    {
        match &self.images.webp.image_url {
            Some(s) => Some(s.clone()),
            None => None,
        }
    }

    /// The character's name.
    pub fn get_name(&self) -> (r: String)
        ensures
            r@ == self.name@,
    {
        self.name.clone()
    }
}

/// A character together with the role it plays.
#[derive(Clone, Debug, PartialEq)]
pub struct Char {
    pub character: CharObj,
    pub role: String,
}

/// The character list of an anime.
#[derive(Clone, Debug, PartialEq)]
pub struct CharWrapper {
    pub data: Vec<Char>,
}

/// Image links of a recommended anime.
pub type AnimeRecImg = CharImg;

/// A recommended anime.
#[derive(Clone, Debug, PartialEq)]
pub struct AnimeRecObj {
    pub mal_id: u32,
    pub url: String,
    pub title: String,
    pub images: AnimeImages,
}

/// A recommendation entry.
#[derive(Clone, Debug, PartialEq)]
pub struct AnimeRecWrapper {
    pub entry: AnimeRecObj,
}

/// The recommendation list of an anime.
#[derive(Clone, Debug, PartialEq)]
pub struct AnimeRecResult {
    pub data: Vec<AnimeRecWrapper>,
}

/// One episode of an anime.
#[derive(Clone, Debug, PartialEq)]
pub struct AnimeEpisode {
    pub mal_id: u32,
    pub url: Option<String>,
    pub title: String,
    pub title_japanese: Option<String>,
    pub title_romanji: Option<String>,
    pub aired: Option<String>,
    pub forum_url: Option<String>,
}

/// Pagination of an episode list.
#[derive(Clone, Debug, PartialEq, Eq, Structural, Default)]
pub struct AnimeEpisodePagination {
    pub last_visible_page: u32,
    pub has_next_page: bool,
}

/// A page of episodes.
#[derive(Clone, Debug, PartialEq)]
pub struct AnimeEpisodeWrapper {
    pub data: Vec<AnimeEpisode>,
    pub pagination: AnimeEpisodePagination,
}

/// The seasons a year offers.
#[derive(Clone, Debug, PartialEq)]
pub struct SeasonObj {
    pub year: u32,
    pub seasons: Vec<String>,
}

/// A page of season listings.
#[derive(Clone, Debug, PartialEq)]
pub struct SeasonsWrapper {
    pub pagination: AnimeEpisodePagination,
    pub data: Vec<SeasonObj>,
}

/// One torrent listing.
#[derive(Clone, Debug, PartialEq)]
pub struct Torrent {
    pub title: String,
    pub size_mb: String,
    pub link_magnet: String,
    pub link_torrent: String,
    pub link_view: String,
    pub download: String,
}

/// A list of torrent listings.
#[derive(Clone, Debug, PartialEq)]
pub struct TorrentResponse {
    pub data: Vec<Torrent>,
}

/// A torrent lookup request.
#[derive(Clone, Debug, PartialEq)]
pub struct TorrentRequest {
    pub ttl_def: String,
    pub ttl_en: String,
    pub eps: u16,
    pub filter: Vec<Filter>,
}

/// A quality or scope filter on a torrent lookup.
#[derive(Clone, Copy, Debug, PartialEq, Eq, Structural)]
pub enum Filter {
    BDRip,
    HEVC,
    DDP,
    AMZN,
    FLAC,
    AllEpisodes,
}

impl Filter {
    /// The label shown for this filter.
    pub fn as_str(&self) -> (r: &'static str)
        ensures
            *self is BDRip ==> r@ == "BDRip"@,
            *self is HEVC ==> r@ == "HEVC"@,
            *self is AMZN ==> r@ == "AMZN"@,
            *self is DDP ==> r@ == "DDP / AC3 / E-AC3"@,
            *self is FLAC ==> r@ == "FLAC"@,
            *self is AllEpisodes ==> r@ == "All Episodes"@,
    {
        match self {
            Filter::BDRip => "BDRip",
            Filter::HEVC => "HEVC",
            Filter::AMZN => "AMZN",
            Filter::DDP => "DDP / AC3 / E-AC3",
            Filter::FLAC => "FLAC",
            Filter::AllEpisodes => "All Episodes",
        }
    }
}

/// A login or registration request: the username and the password's digest.
#[derive(Clone, Debug, PartialEq)]
pub struct UserRequest {
    pub username: String,
    pub password_hash: String,
}

/// A favorite anime as the backend returns it.
#[derive(Clone, Debug, PartialEq)]
pub struct UserAnimeResponse {
    pub anime_id: i32,
    pub anime_img: Option<String>,
    pub anime_ttl_en: String,
    pub anime_ttl_jp: Option<String>,
}

/// A favorite anime as submitted to the backend.
#[derive(Clone, Debug, PartialEq)]
pub struct UserAnimeSubmission {
    pub uuid: i32,
    pub anime_id: i32,
    pub anime_img: Option<String>,
    pub anime_ttl_en: String,
    pub anime_ttl_jp: Option<String>,
}

/// The account data the backend returns on login.
#[derive(Clone, Debug, PartialEq)]
pub struct UserForResponse {
    pub username: String,
    pub uuid: i32,
    pub fav_anime: Vec<UserAnimeResponse>,
}

/// A comment as fetched for display.
#[derive(Clone, Debug, PartialEq)]
pub struct AnimeCommentGet {
    pub username: String,
    pub comment: String,
    pub date: String,
}

/// A comment as submitted.
#[derive(Clone, Debug, PartialEq)]
pub struct AnimeCommentPost {
    pub comment: String,
}

/// A genre of the metadata site.
#[derive(Clone, Debug)]
pub struct Genre {
    pub mal_id: u32,
    pub name: String,
}

impl PartialEq for Genre {
    /// Two genres are the same when both the identifier and the name agree.
    fn eq(&self, o: &Genre) -> (r: bool) {
        self.mal_id == o.mal_id && self.name == o.name
    }
}

impl vstd::std_specs::cmp::PartialEqSpecImpl for Genre {
    open spec fn obeys_eq_spec() -> bool {
        true
    }

    open spec fn eq_spec(&self, o: &Genre) -> bool {
        self.mal_id == o.mal_id && self.name@ == o.name@
    }
}

/// The free-text query typed into the navigation bar.
#[derive(Clone, Debug, PartialEq)]
pub struct NavbarSearch {
    pub query: String,
}

/// The page the explore view currently shows.
#[derive(Clone, Copy, Debug, PartialEq, Eq, Structural)]
pub struct ExplorePage(pub u32);

impl Default for ExplorePage {
    /// The explore view starts on the first page.
    fn default() -> (r: Self)
        ensures
            r.0 == 1,
    {
        Self(1)
    }
}

/// What the anime-detail view receives: the anime to show.
#[derive(Clone, Debug, PartialEq)]
pub struct Props {
    pub mal_id: u64,
}

/// What the comment section receives: the anime commented on.
#[derive(Clone, Debug, PartialEq)]
pub struct CommentProps {
    pub anime_id: i32,
}

} // verus!

use aninfo::models::{
    anime_status_from_str, AiredDate, AnimeImages, AnimeObj, AnimeObjFull, AnimeStatus,
    AnimeTheme, CharImg, CharImgWrapper, CharObj, ExplorePage, Genre, Images, Title,
};

fn images() -> AnimeImages {
    AnimeImages {
        jpg: Images { image_url: None, small_image_url: None, large_image_url: None },
        webp: Images { image_url: None, small_image_url: None, large_image_url: None },
    }
}

#[test]
fn status_phrases() {
    assert_eq!(anime_status_from_str("Finished Airing"), Some(AnimeStatus::FinishedAiring));
    assert_eq!(anime_status_from_str("Currently Airing"), Some(AnimeStatus::CurrentlyAiring));
    assert_eq!(anime_status_from_str("Not yet aired"), Some(AnimeStatus::NotYetAiring));
    assert_eq!(anime_status_from_str("Cancelled"), None);
    assert_eq!(anime_status_from_str(""), None);
}

#[test]
fn full_record_forgets_only_the_theme() {
    let full = AnimeObjFull {
        mal_id: 21,
        url: "u".to_string(),
        images: images(),
        approved: true,
        titles: vec![Title { kind: "Default".to_string(), title: "One Piece".to_string() }],
        title_english: Some("One Piece".to_string()),
        title_japanese: None,
        source: Some("Manga".to_string()),
        episodes: Some(1000),
        status: Some(AnimeStatus::CurrentlyAiring),
        airing: true,
        score: Some("8.7".to_string()),
        scored_by: Some(100),
        rank: Some(55),
        popularity: Some(1),
        year: Some(1999),
        kind: Some("TV".to_string()),
        synopsis: None,
        background: None,
        studios: Vec::new(),
        genres: Vec::new(),
        season: Some("fall".to_string()),
        themes: Vec::new(),
        theme: AnimeTheme { openings: vec!["op".to_string()], endings: Vec::new() },
        aired: AiredDate { from: None },
    };
    let slim = AnimeObj::from(full.clone());
    assert_eq!(slim.mal_id, full.mal_id);
    assert_eq!(slim.title_english, full.title_english);
    assert_eq!(slim.episodes, full.episodes);
    assert_eq!(slim.season, full.season);
    assert_eq!(slim.titles, full.titles);
}

#[test]
fn character_getters() {
    let c = CharObj {
        mal_id: 40,
        url: "https://example.org/c/40".to_string(),
        images: CharImgWrapper {
            jpg: CharImg { image_url: Some("j.png".to_string()), small_image_url: None },
            webp: CharImg { image_url: None, small_image_url: None },
        },
        name: "Luffy".to_string(),
    };
    assert_eq!(c.get_mal_id(), 40);
    assert_eq!(c.get_url(), "https://example.org/c/40");
    assert_eq!(c.get_images_jpg(), Some("j.png".to_string()));
    assert_eq!(c.get_image_webp(), None);
    assert_eq!(c.get_name(), "Luffy");
    let t = Title { kind: "Default".to_string(), title: "x".to_string() };
    assert_eq!(t.get_type(), "Default");
}

#[test]
fn genre_equality_reads_id_and_name() {
    let a = Genre { mal_id: 1, name: "Action".to_string() };
    let b = Genre { mal_id: 1, name: "Action".to_string() };
    let c = Genre { mal_id: 1, name: "Adventure".to_string() };
    assert!(a == b);
    assert!(a != c);
}

#[test]
fn explore_page_starts_at_one() {
    assert_eq!(ExplorePage::default(), ExplorePage(1));
}

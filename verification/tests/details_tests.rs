use aninfo::details::{
    add_anime_url, anime_full_url, characters_url, episodes_page_url, episodes_url,
    fav_ids_with, insert_fav_id, make_fav_submission, needs_last_page, recommendations_url,
    remove_anime_url, total_episodes,
};
use aninfo::models::UserAnimeResponse;
use aninfo::shortcuts::{shortcut_action, ShortcutAction};

#[test]
fn detail_endpoints() {
    assert_eq!(anime_full_url(21), "https://api.jikan.moe/v4/anime/21/full");
    assert_eq!(characters_url(21), "https://api.jikan.moe/v4/anime/21/characters");
    assert_eq!(episodes_url(21), "https://api.jikan.moe/v4/anime/21/episodes");
    assert_eq!(
        episodes_page_url(21, 11),
        "https://api.jikan.moe/v4/anime/21/episodes?page=11"
    );
    assert_eq!(
        recommendations_url(21),
        "https://api.jikan.moe/v4/anime/21/recommendations"
    );
    assert_eq!(add_anime_url(), "https://aninfo-server.shuttleapp.rs/api/v1/users/add_anime");
    assert_eq!(
        remove_anime_url(21),
        "https://aninfo-server.shuttleapp.rs/api/v1/users/remove_anime/21"
    );
}

#[test]
fn episode_counts() {
    assert!(needs_last_page(None, 2));
    assert!(needs_last_page(Some(0), 5));
    assert!(!needs_last_page(Some(12), 5));
    assert!(!needs_last_page(None, 1));
    // Count taken from the listing: full pages of one hundred plus the rest.
    assert_eq!(total_episodes(None, &None, 11, 86), 1086);
    assert_eq!(total_episodes(Some(0), &None, 1, 42), 42);
    // Count carried by the record, unless it is a movie.
    assert_eq!(total_episodes(Some(26), &Some("TV".to_string()), 1, 0), 26);
    assert_eq!(total_episodes(Some(1), &Some("Movie".to_string()), 1, 0), 0);
    assert_eq!(total_episodes(Some(26), &None, 1, 0), 26);
}

#[test]
fn favorite_submissions_and_ids() {
    let sub = make_fav_submission(7, 21, None, "One Piece".to_string(), None);
    assert_eq!(sub.uuid, 7);
    assert_eq!(sub.anime_id, 21);
    assert_eq!(sub.anime_ttl_en, "One Piece");

    assert_eq!(insert_fav_id(vec![1, 3, 9], 5), vec![1, 3, 5, 9]);
    assert_eq!(insert_fav_id(vec![], 5), vec![5]);
    assert_eq!(insert_fav_id(vec![5, 5], 5), vec![5, 5, 5]);

    let fav = |id: i32| UserAnimeResponse {
        anime_id: id,
        anime_img: None,
        anime_ttl_en: String::new(),
        anime_ttl_jp: None,
    };
    assert_eq!(fav_ids_with(&vec![fav(9), fav(3)], 5), vec![3, 5, 9]);
}

#[test]
fn keyboard_shortcuts() {
    assert_eq!(shortcut_action("q", false, false), ShortcutAction::FocusSearch);
    assert_eq!(shortcut_action("q", true, false), ShortcutAction::Nothing);
    assert_eq!(shortcut_action("x", false, false), ShortcutAction::ToggleTheme);
    assert_eq!(shortcut_action("x", false, true), ShortcutAction::Nothing);
    assert_eq!(shortcut_action("x", true, false), ShortcutAction::Nothing);
    assert_eq!(shortcut_action("a", false, false), ShortcutAction::Nothing);
}

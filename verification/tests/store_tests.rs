use aninfo::store::{calculate_hash, use_cached_home, use_cached_search, AppCtx, Cache, Language, Theme};

#[test]
fn initial_context_reports_no_change() {
    let ctx = AppCtx::initial();
    assert_eq!(ctx.theme, Theme::Dark);
    assert_eq!(ctx.language, Language::EN);
    assert_eq!(ctx.cur_page, 1);
    assert!(!ctx.nsfw);
    assert_eq!(ctx.query, "");
    let (changed, refreshed) = ctx.has_changed();
    assert!(!changed);
    assert!(refreshed.is_none());
}

#[test]
fn page_change_is_detected() {
    let ctx = AppCtx::initial().update_page_into(3);
    let (changed, refreshed) = ctx.has_changed();
    assert!(changed);
    let refreshed = refreshed.unwrap();
    assert_eq!(refreshed.cur_page, 3);
    let (changed_again, _) = refreshed.has_changed();
    assert!(!changed_again);
}

#[test]
fn nsfw_and_query_changes_are_detected() {
    let ctx = AppCtx::initial().update_nsfw_into(true);
    let (changed, _) = ctx.clone().has_changed();
    assert!(changed);

    let ctx = AppCtx::initial().update_query_into("naruto".to_string());
    let (changed, _) = ctx.has_changed();
    assert!(changed);
}

#[test]
fn irrelevant_fields_leave_hash_alone() {
    let base = AppCtx::initial();
    let h = calculate_hash(&base);
    let mutated = base
        .update_theme_into(Theme::Light)
        .update_language_into(Language::JP)
        .update_loading_page_into(true)
        .update_jwt_into(Some("token".to_string()))
        .update_username_into(Some("user".to_string()))
        .update_uuid_into(Some(9))
        .update_fav_anime_into(Some(Vec::new()))
        .update_fav_anime_id_into(Some(vec![1, 2]));
    assert_eq!(calculate_hash(&mutated), h);
    let (changed, _) = mutated.has_changed();
    assert!(!changed);
}

#[test]
fn hash_is_deterministic_over_the_three_fields() {
    let a = AppCtx::initial().update_query_into("bleach".to_string()).update_page_into(2);
    let b = AppCtx::initial()
        .update_theme_into(Theme::Light)
        .update_query_into("bleach".to_string())
        .update_page_into(2);
    assert_eq!(calculate_hash(&a), calculate_hash(&b));
}

#[test]
fn update_cache_refreshes_the_hash() {
    let ctx = AppCtx::initial().update_page_into(5);
    let (changed, _) = ctx.clone().has_changed();
    assert!(changed);
    let ctx = ctx.update_cache_into(Cache::default());
    let (changed_after, _) = ctx.has_changed();
    assert!(!changed_after);
}

#[test]
fn cache_updates_keep_other_slots() {
    let cache = Cache::default();
    assert!(cache.anime_details.is_none());
    assert!(cache.search_result.is_none());
    assert!(cache.anime_result.is_none());
    assert!(cache.home_page_result.is_none());
    let cache = cache.update_search_result(None);
    assert!(cache.search_result.is_none());
    let cache = cache.update_anime_details(None).update_anime_result(None).update_home_page_result(
        None,
    );
    assert!(cache.home_page_result.is_none());
}

#[test]
fn cache_policy_requires_fresh_slice_and_content() {
    let cache = Cache::default();
    assert!(!use_cached_search(false, &cache));
    assert!(!use_cached_search(true, &cache));
    assert!(!use_cached_home(&cache));
}

#[test]
fn get_langauge_returns_the_preference() {
    let ctx = AppCtx::initial().update_language_into(Language::JP);
    assert_eq!(ctx.get_langauge(), Language::JP);
}

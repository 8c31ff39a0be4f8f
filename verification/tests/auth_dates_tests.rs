use aninfo::auth::{
    auth_header_value, bearer_token, login_check_url, login_success_update, logout_update,
    make_user_request, sorted_fav_ids,
};
use aninfo::cookies::{cookie_value, remove_cookie_string, set_cookie_string};
use aninfo::dates::{
    cur_year, days_in_month, handle_date, parse_datetime, season_year_label, weekday,
    weekday_name, DateLine, DateTime,
};
use aninfo::models::{UserAnimeResponse, UserForResponse};
use aninfo::password::verify_password;
use aninfo::retry::{give_up_message, next_fetch_action, FetchStep, MAX_FETCH_ATTEMPTS};
use aninfo::store::{AppCtx, Theme};
use aninfo::themesong::parse_themesong;

#[test]
fn password_rules() {
    // Mismatched entries are rejected.
    assert!(!verify_password("Passw0rd!", "Passw0rd?"));
    // Under eight characters is rejected.
    assert!(!verify_password("Pa0!", "Pa0!"));
    // A missing class is rejected: no digit, no upper case, no punctuation,
    // no lower case.
    assert!(!verify_password("Password!", "Password!"));
    assert!(!verify_password("passw0rd!", "passw0rd!"));
    assert!(!verify_password("Passw0rdX", "Passw0rdX"));
    assert!(!verify_password("PASSW0RD!", "PASSW0RD!"));
    // A character outside the ASCII classes is rejected.
    assert!(!verify_password("Passw0rd!é", "Passw0rd!é"));
    // All four classes present and long enough is accepted.
    assert!(verify_password("Passw0rd!", "Passw0rd!"));
}

#[test]
fn user_request_digests_the_password() {
    let req = make_user_request("luffy", "hello");
    assert_eq!(req.username, "luffy");
    // The digest must be the real hash, not the password handed back.
    assert_eq!(
        req.password_hash,
        "2cf24dba5fb0a30e26e83b2ac5b9e29e1b161e5c1fa7425e73043362938b9824"
    );
    assert_eq!(req.password_hash, sha256::digest("hello"));
}

#[test]
fn bearer_tokens() {
    assert_eq!(bearer_token("Bearer abc.def"), "abc.def");
    assert_eq!(auth_header_value("abc.def"), "Bearer abc.def");
    assert_eq!(bearer_token(&auth_header_value("t0k3n")), "t0k3n");
}

#[test]
fn favorite_ids_sort() {
    let fav = |id: i32| UserAnimeResponse {
        anime_id: id,
        anime_img: None,
        anime_ttl_en: String::new(),
        anime_ttl_jp: None,
    };
    let v = vec![fav(5), fav(-1), fav(5), fav(2)];
    assert_eq!(sorted_fav_ids(&v), vec![-1, 2, 5, 5]);
    assert_eq!(sorted_fav_ids(&Vec::new()), Vec::<i32>::new());
}

#[test]
fn themesong_lines_parse() {
    let r = parse_themesong("1: \"Blue Bird\" by Ikimono-gakari (eps 1-13)").unwrap();
    assert_eq!(r.title, "Blue Bird");
    assert_eq!(r.artist, "Ikimono-gakari");
    assert_eq!(r.eps, Some("1-13".to_string()));

    let r = parse_themesong("\"Again\" by Yui").unwrap();
    assert_eq!(r.title, "Again");
    assert_eq!(r.artist, "Yui");
    assert_eq!(r.eps, None);

    assert!(parse_themesong("no markers here").is_err());
}

#[test]
fn retry_policy() {
    assert_eq!(next_fetch_action(0, true), FetchStep::Done);
    assert_eq!(next_fetch_action(19, true), FetchStep::Done);
    assert_eq!(next_fetch_action(1, false), FetchStep::Retry(100));
    assert_eq!(next_fetch_action(19, false), FetchStep::Retry(100));
    assert_eq!(next_fetch_action(MAX_FETCH_ATTEMPTS, false), FetchStep::GiveUp);
    assert_eq!(next_fetch_action(200, false), FetchStep::GiveUp);
    assert_eq!(give_up_message(), "API error. Please retry again soon.");
}

#[test]
fn retry_policy_gives_up_within_the_ceiling() {
    let mut attempts: u32 = 0;
    loop {
        attempts += 1;
        match next_fetch_action(attempts, false) {
            FetchStep::Retry(delay) => assert_eq!(delay, 100),
            FetchStep::GiveUp => break,
            FetchStep::Done => unreachable!(),
        }
    }
    assert_eq!(attempts, MAX_FETCH_ATTEMPTS);
}

#[test]
fn cookie_lines() {
    assert_eq!(
        set_cookie_string("userdata", "tok", "/", 7),
        "userdata=tok; SameSite=Strict; Path=/; Max-Age=604800"
    );
    assert_eq!(
        set_cookie_string("  spaced  ", "v", "/app", 1),
        "spaced=v; SameSite=Strict; Path=/app; Max-Age=86400"
    );
    assert_eq!(
        remove_cookie_string("userdata"),
        "userdata=; SameSite=Strict; Path=; Max-Age=0"
    );
}

#[test]
fn timestamps_parse_and_render() {
    let dt = parse_datetime("2004-10-05T00:00:00+00:00").unwrap();
    assert_eq!(
        dt,
        DateTime { year: 2004, month: 10, day: 5, hour: 0, minute: 0, second: 0 }
    );
    // The short offset form is accepted too.
    assert!(parse_datetime("2004-10-05T00:00:00+0000").is_some());
    // Bad shapes and impossible dates are refused.
    assert!(parse_datetime("2004-10-05").is_none());
    assert!(parse_datetime("2004-13-05T00:00:00+00:00").is_none());
    assert!(parse_datetime("2023-02-29T00:00:00+00:00").is_none());
    assert!(parse_datetime("2024-02-29T12:30:59+09:00").is_some());
    assert!(parse_datetime("2004-10-05T24:00:00+00:00").is_none());
}

#[test]
fn weekdays_and_month_lengths() {
    // 2004-10-05 was a Tuesday.
    assert_eq!(weekday_name(weekday(2004, 10, 5)), "Tuesday");
    // 1970-01-01 was a Thursday.
    assert_eq!(weekday_name(weekday(1970, 1, 1)), "Thursday");
    // 2000-01-01 was a Saturday.
    assert_eq!(weekday_name(weekday(2000, 1, 1)), "Saturday");
    assert_eq!(days_in_month(2023, 2), 28);
    assert_eq!(days_in_month(2024, 2), 29);
    assert_eq!(days_in_month(1900, 2), 28);
    assert_eq!(days_in_month(2000, 2), 29);
    assert_eq!(days_in_month(2024, 4), 30);
    assert_eq!(days_in_month(2024, 12), 31);
}

#[test]
fn air_date_lines() {
    assert_eq!(handle_date(None), DateLine::Missing);
    assert_eq!(handle_date(Some("not a date".to_string())), DateLine::Unparsable);
    assert_eq!(
        handle_date(Some("2004-10-05T00:00:00+00:00".to_string())),
        DateLine::Airing("Tuesday,  5 October 2004".to_string())
    );
    assert_eq!(
        handle_date(Some("2023-11-24T00:00:00+09:00".to_string())),
        DateLine::Airing("Friday, 24 November 2023".to_string())
    );
}

#[test]
fn season_labels_and_clock() {
    assert_eq!(season_year_label(2024, 1), "Winter 2024");
    assert_eq!(season_year_label(2023, 7), "Summer 2023");
    assert_eq!(season_year_label(2022, 12), "Fall 2022");
    // The clock reads a plausible present-day year.
    assert!(cur_year() >= 2020);
    assert!(!season_year_label(cur_year(), 6).is_empty());
}

#[test]
fn login_updates_the_session() {
    let fav = |id: i32| UserAnimeResponse {
        anime_id: id,
        anime_img: None,
        anime_ttl_en: String::new(),
        anime_ttl_jp: None,
    };
    let user = UserForResponse {
        username: "luffy".to_string(),
        uuid: 77,
        fav_anime: vec![fav(9), fav(3), fav(9)],
    };
    let ctx = AppCtx::initial().update_page_into(4);
    let ctx = login_success_update(ctx, "Bearer abc.def", user);
    assert_eq!(ctx.jwt.as_deref(), Some("abc.def"));
    assert_eq!(ctx.username.as_deref(), Some("luffy"));
    assert_eq!(ctx.uuid, Some(77));
    assert_eq!(ctx.fav_anime.as_ref().map(|v| v.len()), Some(3));
    assert_eq!(ctx.fav_anime_id, Some(vec![3, 9, 9]));
    assert_eq!(ctx.cur_page, 4);
}

#[test]
fn cookie_jar_lookup() {
    let jar = "theme=dark; userdata=abc.def ; lang = en";
    assert_eq!(cookie_value(jar, "userdata").as_deref(), Some("abc.def"));
    assert_eq!(cookie_value(jar, "theme").as_deref(), Some("dark"));
    assert_eq!(cookie_value(jar, "lang").as_deref(), Some("en"));
    assert_eq!(cookie_value(jar, "missing"), None);
    // A later binding shadows an earlier one.
    assert_eq!(cookie_value("a=1; a=2", "a").as_deref(), Some("2"));
    // An entry with extra equals signs keeps only its middle piece.
    assert_eq!(cookie_value("a=b=c", "a").as_deref(), Some("b"));
    // An entry with no equals sign binds its whole text to nothing.
    assert_eq!(cookie_value("flag", "flag").as_deref(), Some(""));
    assert_eq!(cookie_value("", "x"), None);
}

#[test]
fn token_check_and_logout() {
    assert_eq!(login_check_url(), "https://aninfo-server.shuttleapp.rs/api/v1/login_check");
    let ctx = AppCtx::initial()
        .update_theme_into(Theme::Light)
        .update_jwt_into(Some("t".to_string()))
        .update_username_into(Some("u".to_string()))
        .update_uuid_into(Some(1));
    let ctx = logout_update(ctx);
    assert!(ctx.jwt.is_none());
    assert!(ctx.username.is_none());
    assert!(ctx.uuid.is_none());
    assert_eq!(ctx.theme, Theme::Light);
}

use aninfo::filter::QueryFilter;
use aninfo::models::{Filter, Genre};
use aninfo::pagination::{page_buttons, PaginationItems, PaginationObj};
use aninfo::query::{OrderBy, QuerySort, Sort, StdResultType};
use aninfo::urls::{
    comments_url, explore_url, login_url, logout_url, make_torrent_request, register_url,
    search_url, seasonal_url, std_result_url, top_url, torrent_url,
};

fn pagination(last: i32) -> PaginationObj {
    PaginationObj {
        last_visible_page: last,
        has_next_page: last > 1,
        current_page: 1,
        items: PaginationItems { count: 25, total: 100, per_page: 25 },
    }
}

#[test]
fn sort_params_name_direction_and_order() {
    let qs = QuerySort { sort: Sort::Asc, order_by: OrderBy::Rank };
    assert_eq!(qs.to_params(), "&sort=asc&order_by=rank");
    let qs = qs.update_sort(Sort::Desc).update_order_by(OrderBy::StartDate);
    assert_eq!(qs.to_params(), "&sort=desc&order_by=start_date");
    assert_eq!(QuerySort::default().to_params(), "&sort=desc&order_by=score");
    assert_eq!(Sort::Asc.to_str(), "asc");
    assert_eq!(OrderBy::Score.to_str(), "score");
}

#[test]
fn std_result_routes_round_trip() {
    let top = StdResultType::from_str("top").unwrap();
    assert!(matches!(top, StdResultType::Top(_)));
    assert_eq!(top.route_str(), "top");
    let seasonal = StdResultType::from_str("seasonal").unwrap();
    assert!(matches!(seasonal, StdResultType::Seasonal(_)));
    assert_eq!(seasonal.route_str(), "seasonal");
    let genre = StdResultType::from_str("genre/12").unwrap();
    assert_eq!(genre, StdResultType::Genre(12));
    assert_eq!(genre.route_str(), "genre/12");
    let producer = StdResultType::from_str("producer/287").unwrap();
    assert_eq!(producer, StdResultType::Producer(287));
    assert_eq!(producer.route_str(), "producer/287");
    assert!(StdResultType::from_str("bogus").is_err());
}

#[test]
fn std_result_links() {
    assert_eq!(
        StdResultType::Genre(12).link(),
        "https://api.jikan.moe/v4/anime?genres=12&order_by=score&sort=desc"
    );
    assert_eq!(
        StdResultType::Producer(287).link(),
        "https://api.jikan.moe/v4/anime?producers=287&order_by=score&sort=desc"
    );
    let top = StdResultType::from_str("top").unwrap();
    assert_eq!(top.link(), "https://api.jikan.moe/v4/top/anime?");
}

#[test]
fn page_buttons_are_total_and_monotonic() {
    let buttons = page_buttons(&pagination(5), 3);
    assert_eq!(buttons.len(), 5);
    for (i, b) in buttons.iter().enumerate() {
        assert_eq!(b.page as usize, i + 1);
        assert_eq!(b.selected, i + 1 == 3);
    }
    for w in buttons.windows(2) {
        assert!(w[0].page < w[1].page);
    }
}

#[test]
fn single_page_shows_no_buttons() {
    assert!(page_buttons(&pagination(1), 1).is_empty());
    assert!(page_buttons(&pagination(0), 1).is_empty());
    assert!(page_buttons(&pagination(-3), 1).is_empty());
}

#[test]
fn filter_params_compose() {
    let f = QueryFilter::default();
    assert_eq!(f.to_params(), "");
    let f = f.add_start_year("2010").add_end_year("2015");
    assert_eq!(f.to_params(), "&start_date=2010-01-01&end_date=2015-12-31");
    let f = f.remove_start_year().remove_end_year();
    assert_eq!(f.to_params(), "");

    let action = Genre { mal_id: 1, name: "Action".to_string() };
    let comedy = Genre { mal_id: 4, name: "Comedy".to_string() };
    let f = QueryFilter::default().add_genres(&action).add_genres(&comedy);
    assert_eq!(f.to_params(), "&&genres=1,4");
    let f = f.remove_genres(&action);
    assert_eq!(f.genres.len(), 1);
    let f = f.reset_genres();
    assert_eq!(f.to_params(), "");
}

#[test]
fn exclude_commas_follow_the_included_list() {
    let action = Genre { mal_id: 1, name: "Action".to_string() };
    let comedy = Genre { mal_id: 4, name: "Comedy".to_string() };
    // With an empty included list, every excluded entry keeps its comma.
    let f = QueryFilter::default().add_genres_exclude(&action).add_genres_exclude(&comedy);
    assert_eq!(f.to_params(), "&&genres_exclude=1,4,");
    let f = f.remove_genres_exclude(&comedy);
    assert_eq!(f.genres_exclude.len(), 1);
    let f = f.reset_genres_exclude();
    assert_eq!(f.to_params(), "");
}

#[test]
fn search_and_view_urls() {
    assert_eq!(
        search_url("naruto", 2, false),
        "https://api.jikan.moe/v4/anime?q=naruto&page=2&sfw=true"
    );
    assert_eq!(
        search_url("one piece", 1, true),
        "https://api.jikan.moe/v4/anime?q=one piece&page=1&sfw=false"
    );
    assert_eq!(seasonal_url(false), "https://api.jikan.moe/v4/seasons/now?sfw=true");
    assert_eq!(top_url(true), "https://api.jikan.moe/v4/top/anime?sfw=false");
    assert_eq!(
        std_result_url(&StdResultType::Genre(12), 3, false),
        "https://api.jikan.moe/v4/anime?genres=12&order_by=score&sort=desc&page=3&sfw=true"
    );
}

#[test]
fn explore_url_composes_filters_and_sort() {
    let qf = QueryFilter::default().add_start_year("2020");
    let qs = QuerySort { sort: Sort::Desc, order_by: OrderBy::Score };
    assert_eq!(
        explore_url(false, 1, &qf, &qs),
        "https://api.jikan.moe/v4/anime?sfw=true&page=1&start_date=2020-01-01&sort=desc&order_by=score&"
    );
}

#[test]
fn backend_urls() {
    assert_eq!(
        comments_url(21),
        "https://aninfo-server.shuttleapp.rs/api/v1/anime/21/comment"
    );
    assert_eq!(
        comments_url(-3),
        "https://aninfo-server.shuttleapp.rs/api/v1/anime/-3/comment"
    );
    assert_eq!(login_url(), "https://aninfo-server.shuttleapp.rs/api/v1/users/login");
    assert_eq!(register_url(), "https://aninfo-server.shuttleapp.rs/api/v1/users/register");
    assert_eq!(logout_url(), "https://aninfo-server.shuttleapp.rs/api/v1/users/logout");
}

#[test]
fn torrent_lookup_urls_and_request() {
    let none: Vec<Filter> = Vec::new();
    assert_eq!(
        torrent_url(&none, false),
        "https://aninfo-server.shuttleapp.rs/api/v1/get_torrent"
    );
    assert_eq!(
        torrent_url(&none, true),
        "https://aninfo-server.shuttleapp.rs/api/v1/get_torrent_full"
    );
    let all = vec![Filter::BDRip, Filter::AllEpisodes];
    assert_eq!(
        torrent_url(&all, false),
        "https://aninfo-server.shuttleapp.rs/api/v1/get_torrent_full"
    );
    let req = make_torrent_request("Title EN", "Title", 12, &all);
    assert_eq!(req.ttl_en, "Title EN");
    assert_eq!(req.ttl_def, "Title");
    assert_eq!(req.eps, 12);
    assert_eq!(req.filter, all);
    assert_eq!(Filter::DDP.as_str(), "DDP / AC3 / E-AC3");
    assert_eq!(Filter::AllEpisodes.as_str(), "All Episodes");
}

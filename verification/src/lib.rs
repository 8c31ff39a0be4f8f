//! Core logic of an anime-browsing single-page application: the application
//! context store with structural-hash change detection, the response cache,
//! query and filter URL building, pagination buttons, the fetch-retry policy,
//! and assorted pure helpers for presenting API data.
use vstd::prelude::*;

pub mod auth;
pub mod cookies;
pub mod dates;
pub mod details;
pub mod display;
pub mod errors;
pub mod filter;
pub mod models;
pub mod pagination;
pub mod password;
pub mod query;
pub mod retry;
pub mod search;
pub mod shortcuts;
pub mod store;
pub mod text;
pub mod themesong;
pub mod urls;

verus! {

/// Base URL of the companion backend.
pub const BASE_URL: &'static str = "https://aninfo-server.shuttleapp.rs";

/// Base URL of the public anime-metadata API.
pub const JIKAN_URL: &'static str = "https://api.jikan.moe/v4/anime";

} // verus!

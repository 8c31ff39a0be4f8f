//! Pure presentation decisions: rating labels, title shortening, season
//! names, theme classes, and the choice of title or episode name by the
//! language preference.
use vstd::prelude::*;
use vstd::string::*;

verus! {

use crate::models::{AnimeEpisode, AnimeObj, MALObj};
use crate::store::{AppCtx, Language, Theme};
use crate::text::{dec_value, parses_to_u32, parse_u32, spec_u64_dec, str_eq, u64_to_string};

/// The byte length of a string, as `str::len` reports it.
pub open spec fn byte_len(s: &str) -> usize {
    s.spec_bytes().len() as usize
}

/// The label shown beside a score for the number of raters: none when the
/// count is missing, otherwise the count in parentheses, scaled to
/// millions or thousands when large.
pub open spec fn rating_text(scored_by: Option<u64>) -> Seq<char> {
    match scored_by {
        None => Seq::<char>::empty(),
        Some(n) => if n >= 1000000 {
            " ("@ + spec_u64_dec((n / 1000000) as nat) + "m)"@
        } else if n >= 1000 {
            " ("@ + spec_u64_dec((n / 1000) as nat) + "k)"@
        } else {
            " ("@ + spec_u64_dec(n as nat) + ")"@
        },
    }
}

/// Renders the rater-count label.
pub fn handle_rating(scored_by: Option<u64>) -> (r: String)
    ensures
        r@ == rating_text(scored_by),
{
    match scored_by {
        None => String::new(),
        Some(n) => {
            let mut out = " (".to_owned();
            if n >= 1000000 {
                let num = u64_to_string(n / 1000000);
                out.append(num.as_str());
                out.append("m)");
            } else if n >= 1000 {
                let num = u64_to_string(n / 1000);
                out.append(num.as_str());
                out.append("k)");
            } else {
                let num = u64_to_string(n);
                out.append(num.as_str());
                out.append(")");
            }
            assert(out@ =~= rating_text(scored_by));
            out
        },
    }
}

/// How strongly a title must be condensed to fit its card.
#[derive(Clone, Copy, Debug, PartialEq, Eq, Structural)]
pub enum TitleWidth {
    Plain,
    Condensed,
    CondensedMore,
}

/// Chooses the condensation of a full-width title from its byte length:
/// English titles condense from fifty bytes and strongly from sixty-five,
/// Japanese ones from thirty and forty.
pub fn handle_long_title(s: &str, lang: Language) -> (r: TitleWidth)
    ensures
        lang is EN ==> r == (if byte_len(s) >= 65 {
            TitleWidth::CondensedMore
        } else if byte_len(s) >= 50 {
            TitleWidth::Condensed
        } else {
            TitleWidth::Plain
        }),
        lang is JP ==> r == (if byte_len(s) >= 40 {
            TitleWidth::CondensedMore
        } else if byte_len(s) >= 30 {
            TitleWidth::Condensed
        } else {
            TitleWidth::Plain
        }),
{
    let n = s.len();
    match lang {
        Language::EN => if n >= 65 {
            TitleWidth::CondensedMore
        } else if n >= 50 {
            TitleWidth::Condensed
        } else {
            TitleWidth::Plain
        },
        Language::JP => if n >= 40 {
            TitleWidth::CondensedMore
        } else if n >= 30 {
            TitleWidth::Condensed
        } else {
            TitleWidth::Plain
        },
    }
}

/// Chooses the condensation of a compact-card title from its byte length:
/// English titles condense from thirty-five bytes and strongly from fifty,
/// Japanese ones from twenty and thirty.
pub fn handle_long_title_compact(s: &str, lang: Language) -> (r: TitleWidth)
    ensures
        lang is EN ==> r == (if byte_len(s) >= 50 {
            TitleWidth::CondensedMore
        } else if byte_len(s) >= 35 {
            TitleWidth::Condensed
        } else {
            TitleWidth::Plain
        }),
        lang is JP ==> r == (if byte_len(s) >= 30 {
            TitleWidth::CondensedMore
        } else if byte_len(s) >= 20 {
            TitleWidth::Condensed
        } else {
            TitleWidth::Plain
        }),
{
    let n = s.len();
    match lang {
        Language::EN => if n >= 50 {
            TitleWidth::CondensedMore
        } else if n >= 35 {
            TitleWidth::Condensed
        } else {
            TitleWidth::Plain
        },
        Language::JP => if n >= 30 {
            TitleWidth::CondensedMore
        } else if n >= 20 {
            TitleWidth::Condensed
        } else {
            TitleWidth::Plain
        },
    }
}

/// Chooses the condensation of a personal name from its character count:
/// condensed above eighteen characters, strongly above twenty-four.
pub fn handle_long_name(s: &str) -> (r: TitleWidth)
    ensures
        r == (if s@.len() > 24 {
            TitleWidth::CondensedMore
        } else if s@.len() > 18 {
            TitleWidth::Condensed
        } else {
            TitleWidth::Plain
        }),
{
    let n = s.unicode_len();
    if n > 24 {
        TitleWidth::CondensedMore
    } else if n > 18 {
        TitleWidth::Condensed
    } else {
        TitleWidth::Plain
    }
}

/// The CSS class of a theme: "light", "dark", or nothing for automatic.
pub fn handle_theme(app_ctx: &AppCtx) -> (r: String)
    ensures
        app_ctx.theme is Light ==> r@ == "light"@,
        app_ctx.theme is Dark ==> r@ == "dark"@,
        app_ctx.theme is Auto ==> r@ == Seq::<char>::empty(),
{
    match app_ctx.theme {
        Theme::Light => "light".to_owned(),
        Theme::Dark => "dark".to_owned(),
        Theme::Auto => String::new(),
    }
}

/// The safe-search query fragment: filtering on unless adult content is
/// allowed.
pub fn handle_nsfw(app_ctx: &AppCtx) -> (r: &'static str)
    ensures
        app_ctx.nsfw ==> r@ == "&sfw=false"@,
        !app_ctx.nsfw ==> r@ == "&sfw=true"@,
{
    if app_ctx.nsfw {
        "&sfw=false"
    } else {
        "&sfw=true"
    }
}

/// The icon shown on the theme toggle: the moon under the light theme, the
/// sun under the dark one, nothing for automatic.
pub fn handle_theme_icon(cx: &AppCtx) -> (r: &'static str)
    ensures
        cx.theme is Light ==> r@ == "./static/moon.svg"@,
        cx.theme is Dark ==> r@ == "./static/light.svg"@,
        cx.theme is Auto ==> r@ == Seq::<char>::empty(),
{
    match cx.theme {
        Theme::Light => "./static/moon.svg",
        Theme::Dark => "./static/light.svg",
        Theme::Auto => {
            let r = "";
            proof {
                reveal_strlit("");
                assert(r@ =~= Seq::<char>::empty());
            }
            r
        },
    }
}

/// The title text an anime card shows: the English title when one is
/// listed, the first listed title otherwise, whatever the language
/// preference says.
pub fn extract_title_from_cx(ao: &AnimeObj, cx: &AppCtx) -> (r: String)
    requires
        ao.title_english is Some || ao.titles@.len() > 0,
    ensures
        ao.title_english is Some ==> r@ == ao.title_english->0@,
        ao.title_english is None ==> r@ == ao.titles@[0].title@,
{
    match &ao.title_english {
        Some(t) => t.clone(),
        None => ao.titles[0].title.clone(),
    }
}

/// The title text the detail view shows: under the English preference the
/// English title, falling back to the first listed one; under the Japanese
/// preference the Japanese title, falling back the same way.
pub fn handle_title_language(cx: &AppCtx, ao: &AnimeObj) -> (r: String)
    requires
        ao.title_english is Some || ao.titles@.len() > 0,
    ensures
        cx.language is EN ==> r@ == (if ao.title_english is Some {
            ao.title_english->0@
        } else {
            ao.titles@[0].title@
        }),
        cx.language is JP ==> r@ == (if ao.title_japanese is Some {
            ao.title_japanese->0@
        } else if ao.title_english is Some {
            ao.title_english->0@
        } else {
            ao.titles@[0].title@
        }),
{
    match cx.get_langauge() {
        Language::EN => match &ao.title_english {
            Some(t) => t.clone(),
            None => ao.titles[0].title.clone(),
        },
        Language::JP => match &ao.title_japanese {
            Some(t) => t.clone(),
            None => match &ao.title_english {
                Some(t) => t.clone(),
                None => ao.titles[0].title.clone(),
            },
        },
    }
}

/// The episode name shown: the listed one, or under the Japanese
/// preference the Japanese one when present.
pub fn handle_eps_language(cx: &AppCtx, eo: &AnimeEpisode) -> (r: String)
    ensures
        cx.language is EN ==> r@ == eo.title@,
        cx.language is JP ==> r@ == (if eo.title_japanese is Some {
            eo.title_japanese->0@
        } else {
            eo.title@
        }),
{
    match cx.language {
        Language::EN => eo.title.clone(),
        Language::JP => match &eo.title_japanese {
            Some(t) => t.clone(),
            None => eo.title.clone(),
        },
    }
}

/// The poster link a card uses: the WebP image when listed, the JPEG one
/// otherwise.
pub fn extract_img_from_cx(ao: &AnimeObj) -> (r: String)
    requires
        ao.images.webp.image_url is Some || ao.images.jpg.image_url is Some,
    ensures
        ao.images.webp.image_url is Some ==> r@ == ao.images.webp.image_url->0@,
        ao.images.webp.image_url is None ==> r@ == ao.images.jpg.image_url->0@,
{
    match &ao.images.webp.image_url {
        Some(s) => s.clone(),
        None => match &ao.images.jpg.image_url {
            Some(s) => s.clone(),
            None => {
                proof {
                    assert(false);
                }
                String::new()
            },
        },
    }
}

/// The season a two-digit month string falls in.
pub open spec fn season_text(m: Seq<char>) -> Seq<char> {
    if m == "01"@ || m == "02"@ || m == "03"@ {
        "Winter"@
    } else if m == "04"@ || m == "05"@ || m == "06"@ {
        "Spring"@
    } else if m == "07"@ || m == "08"@ || m == "09"@ {
        "Summer"@
    } else if m == "10"@ || m == "11"@ || m == "12"@ {
        "Fall"@
    } else {
        "Invalid Season"@
    }
}

/// Names the season of a zero-padded month string; anything but "01"
/// through "12" names no season.
pub fn season_from_month(m: &str) -> (r: &'static str)
    ensures
        r@ == season_text(m@),
{
    if str_eq(m, "01") || str_eq(m, "02") || str_eq(m, "03") {
        "Winter"
    } else if str_eq(m, "04") || str_eq(m, "05") || str_eq(m, "06") {
        "Spring"
    } else if str_eq(m, "07") || str_eq(m, "08") || str_eq(m, "09") {
        "Summer"
    } else if str_eq(m, "10") || str_eq(m, "11") || str_eq(m, "12") {
        "Fall"
    } else {
        "Invalid Season"
    }
}

/// The season a month number falls in: the year's quarters, winter first.
pub open spec fn season_of_month_num(m: int) -> Seq<char> {
    if 1 <= m <= 3 {
        "Winter"@
    } else if 4 <= m <= 6 {
        "Spring"@
    } else if 7 <= m <= 9 {
        "Summer"@
    } else {
        "Fall"@
    }
}

/// Names the season of a month given in decimal, which must read as a
/// number from one to twelve.
pub fn handle_season(month: &str) -> (r: &'static str)
    requires
        parses_to_u32(month@),
        1 <= dec_value(month@) <= 12,
    ensures
        r@ == season_of_month_num(dec_value(month@)),
{
    match parse_u32(month) {
        Some(v) => {
            if v <= 3 {
                "Winter"
            } else if v <= 6 {
                "Spring"
            } else if v <= 9 {
                "Summer"
            } else {
                "Fall"
            }
        },
        None => {
            proof {
                assert(false);
            }
            "Winter"
        },
    }
}

/// The rating text the detail view shows: nothing when no score is listed
/// or the score reads zero, otherwise the score followed by the
/// rater-count label.
pub open spec fn rating_html_text(rating: Option<Seq<char>>, scored_by: Option<u64>) -> Option<
    Seq<char>,
> {
    match rating {
        None => None,
        Some(s) => if s == "0"@ || s == "0.0"@ {
            None
        } else {
            Some(s + rating_text(scored_by))
        },
    }
}

/// Renders the rating block's text, or nothing when it is hidden.
pub fn handle_rating_html(rating: Option<String>, scored_by: Option<u64>) -> (r: Option<String>)
    ensures
        r is Some <==> rating_html_text(
            match rating {
                Some(s) => Some(s@),
                None => None,
            },
            scored_by,
        ) is Some,
        r is Some ==> Some(r->0@) == rating_html_text(Some(rating->0@), scored_by),
{
    match rating {
        None => None,
        Some(s) => {
            if str_eq(s.as_str(), "0") || str_eq(s.as_str(), "0.0") {
                None
            } else {
                let mut out = s;
                let label = handle_rating(scored_by);
                out.append(label.as_str());
                Some(out)
            }
        },
    }
}

/// The synopsis paragraph: the text itself, or a stand-in line when none
/// is listed.
pub fn handle_synopsis(synopsis: Option<String>) -> (r: String)
    ensures
        synopsis is Some ==> r@ == synopsis->0@,
        synopsis is None ==> r@ == "Synopsis is unavailable."@,
{
    match synopsis {
        Some(s) => s,
        None => "Synopsis is unavailable.".to_owned(),
    }
}

/// The episode count to show, or nothing when it is zero.
pub fn handle_eps(eps: usize) -> (r: Option<usize>)
    ensures
        eps == 0 ==> r is None,
        eps != 0 ==> r == Some(eps),
{
    if eps == 0 {
        None
    } else {
        Some(eps)
    }
}

/// The year to show, or nothing when none is listed.
pub fn handle_year(year: Option<u32>) -> (r: Option<u32>)
    ensures
        r == year,
{
    year
}

/// The names of a list, in order, the separator between neighbours.
pub open spec fn joined_names_text(items: Seq<MALObj>, sep: Seq<char>) -> Seq<char>
    decreases items.len(),
{
    if items.len() == 0 {
        Seq::<char>::empty()
    } else if items.len() == 1 {
        items.last().name@
    } else {
        joined_names_text(items.drop_last(), sep) + sep + items.last().name@
    }
}

/// Joins the names of a list with a separator, as the studio and theme
/// lines of the detail view do.
pub fn join_names(items: &Vec<MALObj>, sep: &str) -> (r: String)
    ensures
        r@ == joined_names_text(items@, sep@),
{
    let mut out = String::new();
    let n = items.len();
    let mut i: usize = 0;
    while i < n
        invariant
            n == items@.len(),
            0 <= i <= n,
            out@ == joined_names_text(items@.take(i as int), sep@),
        decreases n - i,
    {
        if i > 0 {
            out.append(sep);
        }
        out.append(items[i].name.as_str());
        proof {
            assert(items@.take(i + 1).drop_last() =~= items@.take(i as int));
            assert(items@.take(i + 1).last() == items@[i as int]);
            if i > 0 {
                assert(out@ =~= joined_names_text(items@.take(i + 1), sep@));
            } else {
                assert(out@ =~= joined_names_text(items@.take(1), sep@));
            }
        }
        i = i + 1;
    }
    assert(items@.take(n as int) =~= items@);
    out
}

} // verus!

//! The application's error kinds, their user-facing titles and messages,
//! and the two-letter route encoding used to carry an error through a URL.
use vstd::prelude::*;
use vstd::string::*;

verus! {

/// A user-facing error message.
#[derive(Clone, Debug)]
pub struct ErrMsg(pub String);

impl ErrMsg {
    /// The message text.
    pub fn to_string(&self) -> (r: String)
        ensures
            r@ == self.0@,
    {
        self.0.clone()
    }
}

/// One of the application's error kinds, each carrying its message.
#[derive(Clone, Debug)]
pub enum AppErr {
    Js(ErrMsg),
    Gloo(ErrMsg),
    Serde(ErrMsg),
    NotFound(ErrMsg),
}

/// The default message for a browser scripting failure.
pub open spec fn js_default_text() -> Seq<char> {
    "Unexpected application error occured. Please ensure you are using the latest version of Firefox, Edge or Chrome."@
}

/// The default message for a network failure.
pub open spec fn gloo_default_text() -> Seq<char> {
    "Error in getting data from the server. This may occur because your network connection is unstable, or has been interrupted."@
}

/// The default message for a malformed or rate-limited response.
pub open spec fn serde_default_text() -> Seq<char> {
    "Error in formatting data. Usually this occurs because you have made too many requests in a short span of time. You will be redirected to your previous page soon."@
}

/// The message shown for a missing page.
pub open spec fn not_found_text() -> Seq<char> {
    "The feature you're looking for does not exist."@
}

/// The view of the message an error carries.
pub open spec fn err_msg_view(e: AppErr) -> Seq<char> {
    match e {
        AppErr::Js(m) => m.0@,
        AppErr::Gloo(m) => m.0@,
        AppErr::Serde(m) => m.0@,
        AppErr::NotFound(m) => m.0@,
    }
}

/// The two-letter route encoding of an error followed by its message.
pub open spec fn err_route_text(e: AppErr) -> Seq<char> {
    match e {
        AppErr::Js(m) => "js"@ + m.0@,
        AppErr::Gloo(m) => "gl"@ + m.0@,
        AppErr::Serde(m) => "sd"@ + m.0@,
        AppErr::NotFound(m) => "nf"@ + m.0@,
    }
}

/// Whether a route string selects the given error kind's two-letter tag.
pub open spec fn has_tag(s: Seq<char>, c0: char, c1: char) -> bool {
    s.len() >= 2 && s[0] == c0 && s[1] == c1
}

/// Whether a route string carries any of the four error tags.
pub open spec fn err_route_ok(s: Seq<char>) -> bool {
    ||| has_tag(s, 'j', 's')
    ||| has_tag(s, 'g', 'l')
    ||| has_tag(s, 's', 'd')
    ||| has_tag(s, 'n', 'f')
}

/// The error that a route string names: a bare "js" or "gl" tag stands for
/// the kind's default message, a bare "sd" tag falls back to the scripting
/// default, an "nf" tag always carries the missing-page message, and any
/// other tag with a payload carries the payload as its message.
pub open spec fn err_route_names(s: Seq<char>, e: AppErr) -> bool {
    if has_tag(s, 'j', 's') {
        e is Js && err_msg_view(e) == if s.len() == 2 {
            js_default_text()
        } else {
            s.skip(2)
        }
    } else if has_tag(s, 'g', 'l') {
        e is Gloo && err_msg_view(e) == if s.len() == 2 {
            gloo_default_text()
        } else {
            s.skip(2)
        }
    } else if has_tag(s, 's', 'd') {
        if s.len() == 2 {
            e is Js && err_msg_view(e) == js_default_text()
        } else {
            e is Serde && err_msg_view(e) == s.skip(2)
        }
    } else if has_tag(s, 'n', 'f') {
        e is NotFound && err_msg_view(e) == not_found_text()
    } else {
        false
    }
}

impl AppErr {
    /// The scripting error with its default message.
    pub fn js_default() -> (r: AppErr)
        ensures
            r is Js,
            err_msg_view(r) == js_default_text(),
    {
        AppErr::Js(
            ErrMsg(
                "Unexpected application error occured. Please ensure you are using the latest version of Firefox, Edge or Chrome.".to_owned(),
            ),
        )
    }

    /// The network error with its default message.
    pub fn gloo_default() -> (r: AppErr)
        ensures
            r is Gloo,
            err_msg_view(r) == gloo_default_text(),
    {
        AppErr::Gloo(
            ErrMsg(
                "Error in getting data from the server. This may occur because your network connection is unstable, or has been interrupted.".to_owned(),
            ),
        )
    }

    /// The malformed-response error with its default message.
    pub fn serde_default() -> (r: AppErr)
        ensures
            r is Serde,
            err_msg_view(r) == serde_default_text(),
    {
        AppErr::Serde(
            ErrMsg(
                "Error in formatting data. Usually this occurs because you have made too many requests in a short span of time. You will be redirected to your previous page soon.".to_owned(),
            ),
        )
    }

    /// The missing-page error.
    pub fn not_found() -> (r: AppErr)
        ensures
            r is NotFound,
            err_msg_view(r) == not_found_text(),
    {
        AppErr::NotFound(ErrMsg("The feature you're looking for does not exist.".to_owned()))
    }

    /// The heading shown for this error kind.
    pub fn title(&self) -> (r: String)
        ensures
            self is Gloo ==> r@ == "Network error"@,
            self is Js ==> r@ == "Javascript runtime error"@,
            self is Serde ==> r@ == "Too many request"@,
            self is NotFound ==> r@ == "404 Not Found"@,
    {
        match self {
            AppErr::Gloo(_) => "Network error".to_owned(),
            AppErr::Js(_) => "Javascript runtime error".to_owned(),
            AppErr::Serde(_) => "Too many request".to_owned(),
            AppErr::NotFound(_) => "404 Not Found".to_owned(),
        }
    }

    /// The message this error carries.
    pub fn msg(&self) -> (r: String)
        ensures
            r@ == err_msg_view(*self),
    {
        match self {
            AppErr::Gloo(m) => m.to_string(),
            AppErr::Js(m) => m.to_string(),
            AppErr::Serde(m) => m.to_string(),
            AppErr::NotFound(m) => m.to_string(),
        }
    }

    /// The route encoding of this error: its two-letter tag, then its message.
    pub fn route_str(&self) -> (r: String)
        ensures
            r@ == err_route_text(*self),
    {
        let (mut r, m): (String, &ErrMsg) = match self {
            AppErr::Gloo(m) => ("gl".to_owned(), m),
            AppErr::Js(m) => ("js".to_owned(), m),
            AppErr::Serde(m) => ("sd".to_owned(), m),
            AppErr::NotFound(m) => ("nf".to_owned(), m),
        };
        r.append(m.0.as_str());
        r
    }

    /// Reads an error back from its route encoding. Returns `Err` exactly
    /// when the string starts with none of the four tags; a string of less
    /// than two characters is not decoded.
    pub fn from_str(s: &str) -> (r: Result<AppErr, &'static str>)
        requires
            s@.len() >= 2,
        ensures
            r is Ok <==> err_route_ok(s@),
            r is Ok ==> err_route_names(s@, r->Ok_0),
    {
        let n = s.unicode_len();
        let c0 = s.get_char(0);
        let c1 = s.get_char(1);
        if c0 == 'j' && c1 == 's' {
            if n == 2 {
                Ok(AppErr::js_default())
            } else {
                Ok(AppErr::Js(ErrMsg(s.substring_char(2, n).to_owned())))
            }
        } else if c0 == 'g' && c1 == 'l' {
            if n == 2 {
                Ok(AppErr::gloo_default())
            } else {
                Ok(AppErr::Gloo(ErrMsg(s.substring_char(2, n).to_owned())))
            }
        } else if c0 == 's' && c1 == 'd' {
            if n == 2 {
                Ok(AppErr::js_default())
            } else {
                Ok(AppErr::Serde(ErrMsg(s.substring_char(2, n).to_owned())))
            }
        } else if c0 == 'n' && c1 == 'f' {
            Ok(AppErr::not_found())
        } else {
            Err("Unknown argument.")
        }
    }
}

/// Decoding an error's own route encoding restores its kind and message.
/// The one exception is the malformed-response kind with an empty message,
/// whose bare tag decodes to the scripting default instead.
pub proof fn lemma_err_route_roundtrip(e: AppErr, e2: AppErr)
    requires
        !(e is Serde && err_msg_view(e).len() == 0),
        !(e is NotFound && err_msg_view(e) != not_found_text()),
        err_route_names(err_route_text(e), e2),
    ensures
        e is Js <==> e2 is Js,
        e is Gloo <==> e2 is Gloo,
        e is Serde <==> e2 is Serde,
        e is NotFound <==> e2 is NotFound,
        err_msg_view(e).len() > 0 || e is NotFound ==> err_msg_view(e2) == err_msg_view(e),
{
    reveal_strlit("js");
    reveal_strlit("gl");
    reveal_strlit("sd");
    reveal_strlit("nf");
    let s = err_route_text(e);
    match e {
        AppErr::Js(m) => {
            assert(s.skip(2) =~= m.0@);
            if err_msg_view(e).len() == 0 {
                assert(err_msg_view(e2) == js_default_text());
            }
        },
        AppErr::Gloo(m) => {
            assert(s.skip(2) =~= m.0@);
            if err_msg_view(e).len() == 0 {
                assert(err_msg_view(e2) == gloo_default_text());
            }
        },
        AppErr::Serde(m) => {
            assert(s.skip(2) =~= m.0@);
        },
        AppErr::NotFound(m) => {
            assert(s[0] == 'n' && s[1] == 'f');
        },
    }
}

/// What the error page receives: the error to show.
pub struct ErrorProps {
    pub app_err: AppErr,
}

} // verus!

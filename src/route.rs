//! The route table: which action a request path asks for.
use vstd::prelude::*;

verus! {

/// A path parameter: non-empty and free of `/`.
pub open spec fn is_segment(s: Seq<char>) -> bool {
    s.len() > 0 && !s.contains('/')
}

/// The routes a request can match, with their path parameters.
pub enum Route {
    Index,
    Page(String),
    Post(String),
    Attachment(String, String),
    Archives,
    Feed,
    StaticFile(String),
    HealthCheck,
    RobotsTxt,
    Unmatched,
}

pub ghost enum RouteModel {
    Index,
    Page(Seq<char>),
    Post(Seq<char>),
    Attachment(Seq<char>, Seq<char>),
    Archives,
    Feed,
    StaticFile(Seq<char>),
    HealthCheck,
    RobotsTxt,
    Unmatched,
}

impl View for Route {
    type V = RouteModel;

    open spec fn view(&self) -> RouteModel {
        match self {
            Route::Index => RouteModel::Index,
            Route::Page(n) => RouteModel::Page(n@),
            Route::Post(s) => RouteModel::Post(s@),
            Route::Attachment(s, a) => RouteModel::Attachment(s@, a@),
            Route::Archives => RouteModel::Archives,
            Route::Feed => RouteModel::Feed,
            Route::StaticFile(n) => RouteModel::StaticFile(n@),
            Route::HealthCheck => RouteModel::HealthCheck,
            Route::RobotsTxt => RouteModel::RobotsTxt,
            Route::Unmatched => RouteModel::Unmatched,
        }
    }
}

/// What follows `/posts/`: a slug, or a slug and an attachment name.
pub open spec fn post_route(rest: Seq<char>) -> RouteModel {
    match rest.index_of_first('/') {
        None => if rest.len() > 0 {
            RouteModel::Post(rest)
        } else {
            RouteModel::Unmatched
        },
        Some(k) => if k > 0 && is_segment(rest.skip(k + 1)) {
            RouteModel::Attachment(rest.take(k), rest.skip(k + 1))
        } else {
            RouteModel::Unmatched
        },
    }
}

/// The route a path matches; any other path is unmatched.
pub open spec fn route_of(path: Seq<char>) -> RouteModel {
    if "/posts/"@.is_prefix_of(path) {
        post_route(path.skip("/posts/"@.len() as int))
    } else if "/page/"@.is_prefix_of(path) && is_segment(path.skip("/page/"@.len() as int)) {
        RouteModel::Page(path.skip("/page/"@.len() as int))
    } else if "/static/"@.is_prefix_of(path) && is_segment(path.skip("/static/"@.len() as int)) {
        RouteModel::StaticFile(path.skip("/static/"@.len() as int))
    } else if path == "/"@ {
        RouteModel::Index
    } else if path == "/archives"@ {
        RouteModel::Archives
    } else if path == "/rss"@ {
        RouteModel::Feed
    } else if path == "/healthcheck"@ {
        RouteModel::HealthCheck
    } else if path == "/robots.txt"@ {
        RouteModel::RobotsTxt
    } else {
        RouteModel::Unmatched
    }
}

/// Whether two strings hold the same characters.
pub fn same_text(a: &str, b: &str) -> (r: bool)
    ensures
        r == (a@ == b@),
{
    String::from_str(a) == String::from_str(b)
}

/// The rest of `s` after `prefix`, when `s` starts with it.
pub fn strip_prefix<'a>(s: &'a str, prefix: &str) -> (r: Option<&'a str>)
    ensures
        r is Some <==> prefix@.is_prefix_of(s@),
        r matches Some(t) ==> t@ == s@.skip(prefix@.len() as int),
{
    let n = s.unicode_len();
    let m = prefix.unicode_len();
    if m > n {
        return None;
    }
    let mut i: usize = 0;
    while i < m
        invariant
            m <= n,
            n == s@.len(),
            m == prefix@.len(),
            i <= m,
            forall|j: int| 0 <= j < i ==> s@[j] == prefix@[j],
        decreases m - i,
    {
        if s.get_char(i) != prefix.get_char(i) {
            proof {
                assert(s@.subrange(0, m as int)[i as int] != prefix@[i as int]);
            }
            return None;
        }
        i = i + 1;
    }
    proof {
        assert(prefix@ =~= s@.subrange(0, m as int));
    }
    Some(s.substring_char(m, n))
}

/// Where the first `/` of `s` stands.
pub fn first_slash(s: &str) -> (r: Option<usize>)
    ensures
        r matches Some(k) ==> s@.index_of_first('/') == Some(k as int),
        r is None ==> s@.index_of_first('/') is None,
{
    proof {
        s@.index_of_first_ensures('/');
    }
    let n = s.unicode_len();
    let mut i: usize = 0;
    while i < n
        invariant
            n == s@.len(),
            i <= n,
            forall|j: int| 0 <= j < i ==> s@[j] != '/',
        decreases n - i,
    {
        if s.get_char(i) == '/' {
            proof {
                s@.index_of_first_ensures('/');
                let f = s@.index_of_first('/')->0;
                assert(s@.contains('/'));
                if f < i {
                    assert(s@[f] != '/');
                } else if f > i {
                    assert(s@[i as int] == '/');
                }
            }
            return Some(i);
        }
        i = i + 1;
    }
    None
}

/// Whether `s` can stand as a path parameter.
pub fn segment(s: &str) -> (r: bool)
    ensures
        r == is_segment(s@),
{
    proof {
        s@.index_of_first_ensures('/');
    }
    s.unicode_len() > 0 && first_slash(s).is_none()
}

fn owned(s: &str) -> (r: String)
    ensures
        r@ == s@,
{
    String::from_str(s)
}

/// The route that a request path matches.
pub fn route(path: &str) -> (r: Route)
    ensures
        r@ == route_of(path@),
{
    if let Some(rest) = strip_prefix(path, "/posts/") {
        let n = rest.unicode_len();
        proof {
            rest@.index_of_first_ensures('/');
        }
        match first_slash(rest) {
            None => if n > 0 {
                Route::Post(owned(rest))
            } else {
                Route::Unmatched
            },
            Some(k) => {
                let tail = rest.substring_char(k + 1, n);
                if k > 0 && segment(tail) {
                    Route::Attachment(owned(rest.substring_char(0, k)), owned(tail))
                } else {
                    Route::Unmatched
                }
            },
        }
    } else if let Some(rest) = strip_prefix(path, "/page/") {
        if segment(rest) {
            Route::Page(owned(rest))
        } else {
            proof {
                reveal_strlit("/page/");
                reveal_strlit("/static/");
                assert("/page/"@[2] != "/static/"@[2]);
                if "/static/"@.is_prefix_of(path@) {
                    assert(path@[2] == "/static/"@[2]);
                    assert(path@[2] == "/page/"@[2]);
                }
            }
            route_fixed(path)
        }
    } else if let Some(rest) = strip_prefix(path, "/static/") {
        if segment(rest) {
            Route::StaticFile(owned(rest))
        } else {
            route_fixed(path)
        }
    } else {
        route_fixed(path)
    }
}

/// The routes without parameters.
fn route_fixed(path: &str) -> (r: Route)
    requires
        !"/posts/"@.is_prefix_of(path@),
        !("/page/"@.is_prefix_of(path@) && is_segment(path@.skip("/page/"@.len() as int))),
        !("/static/"@.is_prefix_of(path@) && is_segment(path@.skip("/static/"@.len() as int))),
    ensures
        r@ == route_of(path@),
{
    if same_text(path, "/") {
        Route::Index
    } else if same_text(path, "/archives") {
        Route::Archives
    } else if same_text(path, "/rss") {
        Route::Feed
    } else if same_text(path, "/healthcheck") {
        Route::HealthCheck
    } else if same_text(path, "/robots.txt") {
        Route::RobotsTxt
    } else {
        Route::Unmatched
    }
}

} // verus!

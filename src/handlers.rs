//! The actions that requests resolve to, and the response policy for attachments.
use vstd::prelude::*;
use crate::route::{route, route_of, same_text, Route, RouteModel};
use crate::slug::{lower_of, to_lower};
use crate::store::{find_attachment, find_post, keys_of, BlogStore, PostModel};

verus! {

/// What `mime_guess::from_path(p).first_or_octet_stream()` renders as text for a path.
pub uninterp spec fn mime_of_path(path: Seq<char>) -> Seq<char>;

/// Relies on `mime_guess::from_path` and `MimeGuess::first_or_octet_stream`: the
/// media type registered for the path's extension, `application/octet-stream`
/// where none is. No disk access is made; the result depends on the path alone.
#[verifier::external_body]
fn guess_content_type(path: &str) -> (r: String)
    ensures
        r@ == mime_of_path(path@),
{
    mime_guess::from_path(path).first_or_octet_stream().to_string()
}

/// Attachments never change under a given name, so clients may keep them a year.
pub open spec fn one_year_cache() -> Seq<char> {
    "max-age=31536000"@
}

/// The location a non-canonical slug is sent to.
pub open spec fn post_location(slug: Seq<char>) -> Seq<char> {
    "/posts/"@ + lower_of(slug)
}

/// What to send for an attachment that was found.
pub struct AttachmentReply {
    pub path: String,
    pub content_type: String,
    pub cache_control: String,
}

/// What a request resolves to. Rendering and file access are left to the caller.
pub enum Outcome {
    /// A permanent redirect (308) to the location.
    Redirect(String),
    /// Render the posts at these positions of the store, in this order.
    PostList(Vec<usize>),
    /// Render the post at this position of the store.
    ShowPost(usize),
    /// Read the attachment's file and send it.
    SendAttachment(AttachmentReply),
    Archives,
    Feed,
    StaticFile(String),
    HealthCheck,
    RobotsTxt,
    NotFound,
    ServerError,
}

pub ghost enum Action {
    Redirect(Seq<char>),
    PostList(Seq<int>),
    ShowPost(int),
    SendAttachment { path: Seq<char>, content_type: Seq<char>, cache_control: Seq<char> },
    Archives,
    Feed,
    StaticFile(Seq<char>),
    HealthCheck,
    RobotsTxt,
    NotFound,
    ServerError,
}

impl View for Outcome {
    type V = Action;

    open spec fn view(&self) -> Action {
        match self {
            Outcome::Redirect(l) => Action::Redirect(l@),
            Outcome::PostList(v) => Action::PostList(v@.map_values(|i: usize| i as int)),
            Outcome::ShowPost(i) => Action::ShowPost(*i as int),
            Outcome::SendAttachment(a) => Action::SendAttachment {
                path: a.path@,
                content_type: a.content_type@,
                cache_control: a.cache_control@,
            },
            Outcome::Archives => Action::Archives,
            Outcome::Feed => Action::Feed,
            Outcome::StaticFile(n) => Action::StaticFile(n@),
            Outcome::HealthCheck => Action::HealthCheck,
            Outcome::RobotsTxt => Action::RobotsTxt,
            Outcome::NotFound => Action::NotFound,
            Outcome::ServerError => Action::ServerError,
        }
    }
}

/// Listing: every key of the enumeration, resolved to its post, in order.
pub open spec fn list_action(store: Seq<PostModel>) -> Action {
    Action::PostList(
        Seq::new(store.len(), |i: int| find_post(store, keys_of(store)[i])->0),
    )
}

/// A single post, given the slug's lower-case form: redirect a slug that
/// differs from it, else the post or not found.
pub open spec fn post_action_lowered(store: Seq<PostModel>, slug: Seq<char>, lowered: Seq<char>) -> Action {
    if lowered != slug {
        Action::Redirect("/posts/"@ + lowered)
    } else {
        match find_post(store, slug) {
            Some(i) => Action::ShowPost(i),
            None => Action::NotFound,
        }
    }
}

/// A single post: redirect a non-canonical slug, else the post or not found.
pub open spec fn post_action(store: Seq<PostModel>, slug: Seq<char>) -> Action {
    post_action_lowered(store, slug, lower_of(slug))
}

/// An attachment, given the slug's lower-case form: redirect a slug that
/// differs from it, else look the post up, then the name among that post's
/// own attachments.
pub open spec fn attachment_action_lowered(
    store: Seq<PostModel>,
    slug: Seq<char>,
    lowered: Seq<char>,
    name: Seq<char>,
) -> Action {
    if lowered != slug {
        Action::Redirect("/posts/"@ + lowered + "/"@ + name)
    } else {
        match find_post(store, slug) {
            None => Action::NotFound,
            Some(i) => match find_attachment(store[i], name) {
                None => Action::NotFound,
                Some(j) => Action::SendAttachment {
                    path: store[i].attachments[j].path,
                    content_type: mime_of_path(store[i].attachments[j].path),
                    cache_control: one_year_cache(),
                },
            },
        }
    }
}

/// An attachment: redirect a non-canonical slug, else look the post up, then
/// the name among that post's own attachments.
pub open spec fn attachment_action(store: Seq<PostModel>, slug: Seq<char>, name: Seq<char>) -> Action {
    attachment_action_lowered(store, slug, lower_of(slug), name)
}

/// The action for a request; only `GET` is served.
pub open spec fn dispatch_action(store: Seq<PostModel>, method: Seq<char>, path: Seq<char>) -> Action {
    if method != "GET"@ {
        Action::NotFound
    } else {
        match route_of(path) {
            RouteModel::Index => list_action(store),
            RouteModel::Page(_) => list_action(store),
            RouteModel::Post(s) => post_action(store, s),
            RouteModel::Attachment(s, a) => attachment_action(store, s, a),
            RouteModel::Archives => Action::Archives,
            RouteModel::Feed => Action::Feed,
            RouteModel::StaticFile(n) => Action::StaticFile(n),
            RouteModel::HealthCheck => Action::HealthCheck,
            RouteModel::RobotsTxt => Action::RobotsTxt,
            RouteModel::Unmatched => Action::NotFound,
        }
    }
}

/// Lists every post of the store, in the store's enumeration order.
pub fn get_posts(store: &BlogStore) -> (r: Outcome)
    ensures
        r@ == list_action(store@),
{
    let keys = store.list_post_keys();
    let ghost ks = keys_of(store@);
    let mut found: Vec<usize> = Vec::new();
    let mut i: usize = 0;
    while i < keys.len()
        invariant
            i <= keys.len(),
            keys@.map_values(|s: String| s@) == ks,
            ks == keys_of(store@),
            ks.len() == store@.len(),
            found@.len() == i,
            forall|j: int| 0 <= j < i ==> #[trigger] found@[j] as int == find_post(store@, ks[j])->0,
        decreases keys.len() - i,
    {
        proof {
            assert(keys@.map_values(|s: String| s@)[i as int] == keys@[i as int]@);
        }
        match store.get_post(keys[i].as_str()) {
            Some(p) => found.push(p),
            None => return Outcome::ServerError,
        }
        i = i + 1;
    }
    proof {
        assert(found@.map_values(|i: usize| i as int) =~= Seq::new(
            store@.len(),
            |i: int| find_post(store@, keys_of(store@)[i])->0,
        ));
    }
    Outcome::PostList(found)
}

/// Shows one post, given the lower-case form of its slug. A slug that differs
/// from that form is redirected before the store is consulted.
pub fn resolve_post(store: &BlogStore, slug: &str, lowered: &str) -> (r: Outcome)
    ensures
        r@ == post_action_lowered(store@, slug@, lowered@),
{
    if !same_text(slug, lowered) {
        return Outcome::Redirect(String::from_str("/posts/").concat(lowered));
    }
    match store.get_post(slug) {
        Some(i) => Outcome::ShowPost(i),
        None => Outcome::NotFound,
    }
}

/// Shows one post. A slug that is not in canonical form is redirected before
/// the store is consulted.
pub fn get_post(store: &BlogStore, slug: &str) -> (r: Outcome)
    ensures
        r@ == post_action(store@, slug@),
{
    let lowered = to_lower(slug);
    resolve_post(store, slug, lowered.as_str())
}

/// Resolves an attachment of a post, given the lower-case form of the slug, to
/// the file to send and the headers to send it with. A slug that differs from
/// that form is redirected first.
pub fn resolve_attachment(store: &BlogStore, slug: &str, lowered: &str, name: &str) -> (r: Outcome)
    ensures
        r@ == attachment_action_lowered(store@, slug@, lowered@, name@),
{
    if !same_text(slug, lowered) {
        return Outcome::Redirect(String::from_str("/posts/").concat(lowered).concat("/").concat(name));
    }
    let i = match store.get_post(slug) {
        Some(i) => i,
        None => return Outcome::NotFound,
    };
    let post = &store.posts[i];
    proof {
        assert(store@[i as int] == post@);
    }
    let j = match post.get_attachment(name) {
        Some(j) => j,
        None => return Outcome::NotFound,
    };
    let attachment = &post.attachments[j];
    proof {
        assert(post@.attachments[j as int] == attachment@);
    }
    let path = attachment.get_path();
    let content_type = guess_content_type(path);
    Outcome::SendAttachment(AttachmentReply {
        path: String::from_str(path),
        content_type,
        cache_control: String::from_str("max-age=31536000"),
    })
}

/// Resolves an attachment of a post to the file to send and the headers to
/// send it with. A slug that is not in canonical form is redirected first.
pub fn get_attachment(store: &BlogStore, slug: &str, name: &str) -> (r: Outcome)
    ensures
        r@ == attachment_action(store@, slug@, name@),
{
    let lowered = to_lower(slug);
    resolve_attachment(store, slug, lowered.as_str(), name)
}

/// A response that needs neither the renderer nor a file: status, headers, body.
pub struct Response {
    pub status: u16,
    pub headers: Vec<(String, String)>,
    pub body: Vec<u8>,
}

/// The headers of a response, as names and values.
pub open spec fn headers_of(r: Response) -> Seq<(Seq<char>, Seq<char>)> {
    r.headers@.map_values(|h: (String, String)| (h.0@, h.1@))
}

/// The headers that an attachment is sent with.
pub open spec fn attachment_headers(reply: AttachmentReply) -> Seq<(Seq<char>, Seq<char>)> {
    seq![("Cache-Control"@, reply.cache_control@), ("Content-Type"@, reply.content_type@)]
}

/// The response for an attachment, given what reading its file gave: the bytes
/// with the cache and type headers, or a server error where the file could
/// not be read (the attachment is registered, so this is no "not found").
pub fn attachment_response(reply: AttachmentReply, contents: Option<Vec<u8>>) -> (r: Response)
    ensures
        contents is None ==> r.status == 500 && r.headers@.len() == 0 && r.body@.len() == 0,
        contents matches Some(b) ==> {
            &&& r.status == 200
            &&& r.body@ == b@
            &&& headers_of(r) == attachment_headers(reply)
        },
{
    match contents {
        None => Response { status: 500, headers: Vec::new(), body: Vec::new() },
        Some(bytes) => {
            let mut headers: Vec<(String, String)> = Vec::new();
            headers.push((String::from_str("Cache-Control"), reply.cache_control));
            headers.push((String::from_str("Content-Type"), reply.content_type));
            let r = Response { status: 200, headers, body: bytes };
            proof {
                assert(headers_of(r) =~= attachment_headers(reply));
            }
            r
        },
    }
}

/// The permanent redirect to a location.
pub fn redirect_response(location: String) -> (r: Response)
    ensures
        r.status == 308,
        headers_of(r) == seq![("Location"@, location@)],
        r.body@.len() == 0,
{
    let mut headers: Vec<(String, String)> = Vec::new();
    headers.push((String::from_str("Location"), location));
    let r = Response { status: 308, headers, body: Vec::new() };
    proof {
        assert(headers_of(r) =~= seq![("Location"@, location@)]);
    }
    r
}

/// Resolves a request by its method and path.
pub fn dispatch(store: &BlogStore, method: &str, path: &str) -> (r: Outcome)
    ensures
        r@ == dispatch_action(store@, method@, path@),
{
    if String::from_str(method) != String::from_str("GET") {
        return Outcome::NotFound;
    }
    match route(path) {
        Route::Index => get_posts(store),
        Route::Page(_) => get_posts(store),
        Route::Post(s) => get_post(store, s.as_str()),
        Route::Attachment(s, a) => get_attachment(store, s.as_str(), a.as_str()),
        Route::Archives => Outcome::Archives,
        Route::Feed => Outcome::Feed,
        Route::StaticFile(n) => Outcome::StaticFile(n),
        Route::HealthCheck => Outcome::HealthCheck,
        Route::RobotsTxt => Outcome::RobotsTxt,
        Route::Unmatched => Outcome::NotFound,
    }
}

} // verus!

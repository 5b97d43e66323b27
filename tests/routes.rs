use blog_core::handlers::{
    attachment_response, dispatch, get_attachment, get_post, get_posts, redirect_response,
    resolve_attachment, resolve_post, AttachmentReply, Outcome,
};
use blog_core::route::{first_slash, route, segment, strip_prefix, Route};
use blog_core::store::{Attachment, BlogStore, Post};

fn attachment(name: &str, path: &str) -> Attachment {
    Attachment { name: name.to_string(), path: path.to_string() }
}

fn post(slug: &str, attachments: Vec<Attachment>) -> Post {
    Post { slug: slug.to_string(), attachments }
}

fn hello_store() -> BlogStore {
    BlogStore { posts: vec![post("hello-world", vec![attachment("cover.png", "content/hello-world/cover.png")])] }
}

fn two_post_store() -> BlogStore {
    BlogStore {
        posts: vec![
            post("first", vec![attachment("notes.txt", "content/first/notes.txt")]),
            post("second", vec![attachment("photo.jpg", "content/second/photo.jpg")]),
        ],
    }
}

fn reply_of(o: Outcome) -> AttachmentReply {
    match o {
        Outcome::SendAttachment(r) => r,
        _ => panic!("not an attachment"),
    }
}

fn location_of(o: Outcome) -> String {
    match o {
        Outcome::Redirect(l) => l,
        _ => panic!("not a redirect"),
    }
}

#[test]
fn scenario_hello_world() {
    let store = hello_store();
    assert_eq!(location_of(dispatch(&store, "GET", "/posts/Hello-World")), "/posts/hello-world");
    assert!(matches!(dispatch(&store, "GET", "/posts/hello-world"), Outcome::ShowPost(0)));
    let reply = reply_of(dispatch(&store, "GET", "/posts/hello-world/cover.png"));
    assert_eq!(reply.path, "content/hello-world/cover.png");
    assert_eq!(reply.content_type, "image/png");
    assert_eq!(reply.cache_control, "max-age=31536000");
    let bytes = vec![0x89u8, 0x50, 0x4e, 0x47];
    let response = attachment_response(reply, Some(bytes.clone()));
    assert_eq!(response.status, 200);
    assert_eq!(response.body, bytes);
    assert_eq!(
        response.headers,
        vec![
            ("Cache-Control".to_string(), "max-age=31536000".to_string()),
            ("Content-Type".to_string(), "image/png".to_string()),
        ]
    );
    assert!(matches!(dispatch(&store, "GET", "/posts/hello-world/missing.png"), Outcome::NotFound));
    assert!(matches!(dispatch(&store, "GET", "/posts/nope"), Outcome::NotFound));
}

#[test]
fn uppercase_slug_redirects_whatever_the_store() {
    let empty = BlogStore { posts: vec![] };
    assert_eq!(location_of(get_post(&empty, "Hello-World")), "/posts/hello-world");
    assert_eq!(location_of(get_post(&hello_store(), "Hello-World")), "/posts/hello-world");
    assert_eq!(location_of(get_post(&empty, "ABC")), "/posts/abc");
}

#[test]
fn uppercase_slug_with_attachment_keeps_the_name() {
    let store = hello_store();
    assert_eq!(
        location_of(get_attachment(&store, "Hello-World", "cover.png")),
        "/posts/hello-world/cover.png"
    );
    assert_eq!(
        location_of(dispatch(&store, "GET", "/posts/HELLO-world/Cover.PNG")),
        "/posts/hello-world/Cover.PNG"
    );
}

#[test]
fn lowercase_slug_never_redirects() {
    let store = hello_store();
    assert!(matches!(get_post(&store, "hello-world"), Outcome::ShowPost(0)));
    assert!(matches!(get_post(&store, "not-here"), Outcome::NotFound));
    assert!(matches!(get_post(&store, "post-2024"), Outcome::NotFound));
}

#[test]
fn following_a_redirect_settles() {
    let store = hello_store();
    let target = location_of(dispatch(&store, "GET", "/posts/HeLLo-WoRLD"));
    assert_eq!(target, "/posts/hello-world");
    assert!(matches!(dispatch(&store, "GET", &target), Outcome::ShowPost(0)));
}

#[test]
fn missing_post_hides_its_attachments() {
    let store = hello_store();
    assert!(matches!(dispatch(&store, "GET", "/posts/nope"), Outcome::NotFound));
    assert!(matches!(dispatch(&store, "GET", "/posts/nope/cover.png"), Outcome::NotFound));
    assert!(matches!(get_attachment(&store, "nope", "anything"), Outcome::NotFound));
}

#[test]
fn attachment_names_are_scoped_to_their_post() {
    let store = two_post_store();
    assert!(matches!(get_attachment(&store, "first", "photo.jpg"), Outcome::NotFound));
    assert!(matches!(get_attachment(&store, "second", "notes.txt"), Outcome::NotFound));
    let reply = reply_of(get_attachment(&store, "second", "photo.jpg"));
    assert_eq!(reply.path, "content/second/photo.jpg");
    assert_eq!(reply.content_type, "image/jpeg");
}

#[test]
fn content_type_follows_the_extension() {
    let store = BlogStore {
        posts: vec![post(
            "files",
            vec![
                attachment("a.png", "x/a.png"),
                attachment("b.unknownext", "x/b.unknownext"),
                attachment("c", "x/c"),
                attachment("d.txt", "x/d.txt"),
            ],
        )],
    };
    let png = reply_of(get_attachment(&store, "files", "a.png"));
    assert_eq!(png.content_type, "image/png");
    assert_eq!(png.cache_control, "max-age=31536000");
    let unknown = reply_of(get_attachment(&store, "files", "b.unknownext"));
    assert_eq!(unknown.content_type, "application/octet-stream");
    assert_eq!(unknown.cache_control, "max-age=31536000");
    let bare = reply_of(get_attachment(&store, "files", "c"));
    assert_eq!(bare.content_type, "application/octet-stream");
    let text = reply_of(get_attachment(&store, "files", "d.txt"));
    assert_eq!(text.content_type, "text/plain");
}

#[test]
fn unreadable_attachment_is_a_server_error() {
    let reply = reply_of(get_attachment(&hello_store(), "hello-world", "cover.png"));
    let response = attachment_response(reply, None);
    assert_eq!(response.status, 500);
    assert!(response.headers.is_empty());
    assert!(response.body.is_empty());
}

#[test]
fn listing_keeps_enumeration_order() {
    let store = BlogStore {
        posts: vec![post("zeta", vec![]), post("alpha", vec![]), post("mid", vec![])],
    };
    match get_posts(&store) {
        Outcome::PostList(v) => assert_eq!(v, vec![0, 1, 2]),
        _ => panic!("not a listing"),
    }
    assert_eq!(store.list_post_keys(), vec!["zeta".to_string(), "alpha".to_string(), "mid".to_string()]);
    assert!(matches!(dispatch(&store, "GET", "/"), Outcome::PostList(v) if v == vec![0, 1, 2]));
    assert!(matches!(dispatch(&store, "GET", "/page/2"), Outcome::PostList(v) if v == vec![0, 1, 2]));
}

#[test]
fn listing_of_empty_store() {
    let store = BlogStore { posts: vec![] };
    assert!(matches!(get_posts(&store), Outcome::PostList(v) if v.is_empty()));
}

#[test]
fn listing_resolves_repeated_keys_to_the_first_post() {
    let store = BlogStore { posts: vec![post("a", vec![]), post("a", vec![]), post("b", vec![])] };
    assert!(matches!(get_posts(&store), Outcome::PostList(v) if v == vec![0, 0, 2]));
}

#[test]
fn routes_of_paths() {
    assert!(matches!(route("/"), Route::Index));
    assert!(matches!(route("/page/3"), Route::Page(n) if n == "3"));
    assert!(matches!(route("/posts/abc"), Route::Post(s) if s == "abc"));
    assert!(matches!(route("/posts/abc/x.png"), Route::Attachment(s, a) if s == "abc" && a == "x.png"));
    assert!(matches!(route("/archives"), Route::Archives));
    assert!(matches!(route("/rss"), Route::Feed));
    assert!(matches!(route("/static/site.css"), Route::StaticFile(n) if n == "site.css"));
    assert!(matches!(route("/healthcheck"), Route::HealthCheck));
    assert!(matches!(route("/robots.txt"), Route::RobotsTxt));
    assert!(matches!(route("/posts/"), Route::Unmatched));
    assert!(matches!(route("/posts//x"), Route::Unmatched));
    assert!(matches!(route("/posts/a/"), Route::Unmatched));
    assert!(matches!(route("/posts/a/b/c"), Route::Unmatched));
    assert!(matches!(route("/page/"), Route::Unmatched));
    assert!(matches!(route("/static/a/b"), Route::Unmatched));
    assert!(matches!(route("/elsewhere"), Route::Unmatched));
    assert!(matches!(route(""), Route::Unmatched));
}

#[test]
fn fixed_routes_and_methods() {
    let store = hello_store();
    assert!(matches!(dispatch(&store, "GET", "/archives"), Outcome::Archives));
    assert!(matches!(dispatch(&store, "GET", "/rss"), Outcome::Feed));
    assert!(matches!(dispatch(&store, "GET", "/healthcheck"), Outcome::HealthCheck));
    assert!(matches!(dispatch(&store, "GET", "/robots.txt"), Outcome::RobotsTxt));
    assert!(matches!(dispatch(&store, "GET", "/static/app.js"), Outcome::StaticFile(n) if n == "app.js"));
    assert!(matches!(dispatch(&store, "GET", "/unknown/path"), Outcome::NotFound));
    assert!(matches!(dispatch(&store, "POST", "/posts/hello-world"), Outcome::NotFound));
}

#[test]
fn non_ascii_slug_is_lowered() {
    let empty = BlogStore { posts: vec![] };
    assert_eq!(location_of(get_post(&empty, "ÄRGER")), "/posts/ärger");
    assert!(matches!(get_post(&empty, "ärger"), Outcome::NotFound));
}

#[test]
fn resolution_from_a_given_lower_case_form() {
    let store = hello_store();
    assert_eq!(location_of(resolve_post(&store, "Hello-World", "hello-world")), "/posts/hello-world");
    assert!(matches!(resolve_post(&store, "hello-world", "hello-world"), Outcome::ShowPost(0)));
    assert!(matches!(resolve_post(&store, "nope", "nope"), Outcome::NotFound));
    assert_eq!(
        location_of(resolve_attachment(&store, "Hello-World", "hello-world", "cover.png")),
        "/posts/hello-world/cover.png"
    );
    let reply = reply_of(resolve_attachment(&store, "hello-world", "hello-world", "cover.png"));
    assert_eq!(reply.content_type, "image/png");
    assert!(matches!(resolve_attachment(&store, "hello-world", "hello-world", "x.png"), Outcome::NotFound));
}

#[test]
fn text_helpers() {
    assert_eq!(strip_prefix("/posts/x", "/posts/"), Some("x"));
    assert_eq!(strip_prefix("/post", "/posts/"), None);
    assert_eq!(first_slash("ab/c/d"), Some(2));
    assert_eq!(first_slash("abc"), None);
    assert!(segment("abc"));
    assert!(!segment(""));
    assert!(!segment("a/b"));
}

#[test]
fn redirect_response_sets_location() {
    let r = redirect_response("/posts/hello-world".to_string());
    assert_eq!(r.status, 308);
    assert_eq!(r.headers, vec![("Location".to_string(), "/posts/hello-world".to_string())]);
    assert!(r.body.is_empty());
}

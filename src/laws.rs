//! Properties of request resolution that span several requests or all inputs.
use vstd::prelude::*;
use crate::handlers::{
    dispatch_action, list_action, mime_of_path, one_year_cache, post_location, Action,
};
use crate::route::{is_segment, route_of, RouteModel};
use crate::slug::{is_canonical, lower_of};
use crate::store::{find_attachment, find_post, keys_of, lemma_find_key, PostModel};

verus! {

/// `/posts/{s}` is the post route of `s`.
pub proof fn lemma_post_path(s: Seq<char>)
    requires
        is_segment(s),
    ensures
        route_of("/posts/"@ + s) == RouteModel::Post(s),
{
    let p = "/posts/"@ + s;
    assert(p.subrange(0, "/posts/"@.len() as int) =~= "/posts/"@);
    assert(p.skip("/posts/"@.len() as int) =~= s);
    s.index_of_first_ensures('/');
}

/// `/posts/{s}/{a}` is the attachment route of `s` and `a`.
pub proof fn lemma_attachment_path(s: Seq<char>, a: Seq<char>)
    requires
        is_segment(s),
        is_segment(a),
    ensures
        route_of("/posts/"@ + s + "/"@ + a) == RouteModel::Attachment(s, a),
{
    reveal_strlit("/");
    let p = "/posts/"@ + s + "/"@ + a;
    let rest = s + "/"@ + a;
    assert(p =~= "/posts/"@ + rest);
    assert(p.subrange(0, "/posts/"@.len() as int) =~= "/posts/"@);
    assert(p.skip("/posts/"@.len() as int) =~= rest);
    rest.index_of_first_ensures('/');
    assert(rest[s.len() as int] == '/');
    let k = rest.index_of_first('/')->0;
    if k < s.len() {
        assert(rest[k] == s[k]);
        assert(s.contains('/'));
    }
    assert(k == s.len());
    assert(rest.take(k) =~= s);
    assert(rest.skip(k + 1) =~= a);
}

/// A slug that is not in canonical form is sent, with a permanent redirect, to
/// the post path of its lower-case form, whatever the store holds: the store
/// plays no part in the answer.
pub proof fn lemma_noncanonical_slug_redirects(
    store: Seq<PostModel>,
    other: Seq<PostModel>,
    s: Seq<char>,
)
    requires
        is_segment(s),
        !is_canonical(s),
    ensures
        dispatch_action(store, "GET"@, "/posts/"@ + s) == Action::Redirect("/posts/"@ + lower_of(s)),
        dispatch_action(store, "GET"@, "/posts/"@ + s) == dispatch_action(other, "GET"@, "/posts/"@ + s),
{
    lemma_post_path(s);
}

/// A slug already in canonical form is never redirected.
pub proof fn lemma_canonical_slug_not_redirected(store: Seq<PostModel>, s: Seq<char>)
    requires
        is_segment(s),
        is_canonical(s),
    ensures
        !(dispatch_action(store, "GET"@, "/posts/"@ + s) is Redirect),
{
    lemma_post_path(s);
}

/// Following the redirect of a non-canonical slug leads to a path that is not
/// redirected again, for every slug whose lower-case form is again a path
/// parameter and is left unchanged by lowering it once more.
pub proof fn lemma_redirect_settles(store: Seq<PostModel>, s: Seq<char>)
    requires
        is_segment(s),
        !is_canonical(s),
        is_segment(lower_of(s)),
        is_canonical(lower_of(s)),
    ensures
        dispatch_action(store, "GET"@, "/posts/"@ + s) == Action::Redirect(post_location(s)),
        !(dispatch_action(store, "GET"@, post_location(s)) is Redirect),
{
    lemma_post_path(s);
    lemma_post_path(lower_of(s));
}

/// A canonical slug that is not in the store is not found, as a post and with
/// any attachment name: the slug is checked before the attachment.
pub proof fn lemma_missing_post_not_found(store: Seq<PostModel>, s: Seq<char>, a: Seq<char>)
    requires
        is_segment(s),
        is_segment(a),
        is_canonical(s),
        find_post(store, s) is None,
    ensures
        dispatch_action(store, "GET"@, "/posts/"@ + s) == Action::NotFound,
        dispatch_action(store, "GET"@, "/posts/"@ + s + "/"@ + a) == Action::NotFound,
{
    lemma_post_path(s);
    lemma_attachment_path(s, a);
}

/// An attachment name is looked up on its own post only: where that post does
/// not register it, the answer is not found, whatever other posts register.
pub proof fn lemma_attachment_scoped_to_post(
    store: Seq<PostModel>,
    s: Seq<char>,
    a: Seq<char>,
    i: int,
)
    requires
        is_segment(s),
        is_segment(a),
        is_canonical(s),
        find_post(store, s) == Some(i),
        find_attachment(store[i], a) is None,
    ensures
        dispatch_action(store, "GET"@, "/posts/"@ + s + "/"@ + a) == Action::NotFound,
{
    lemma_attachment_path(s, a);
}

/// Every attachment that is sent carries the one-year cache directive and the
/// media type guessed from its path.
pub proof fn lemma_attachment_headers(store: Seq<PostModel>, s: Seq<char>, a: Seq<char>)
    requires
        is_segment(s),
        is_segment(a),
    ensures
        dispatch_action(store, "GET"@, "/posts/"@ + s + "/"@ + a) matches Action::SendAttachment {
            path,
            content_type,
            cache_control,
        } ==> cache_control == one_year_cache() && content_type == mime_of_path(path),
{
    lemma_attachment_path(s, a);
}

/// The listing hands the posts over in the store's enumeration order: its
/// `k`-th post carries the store's `k`-th key.
pub proof fn lemma_listing_keeps_order(store: Seq<PostModel>)
    ensures
        list_action(store) matches Action::PostList(v) && v.len() == store.len() && forall|k: int|
            0 <= k < v.len() ==> 0 <= #[trigger] v[k] < store.len() && store[v[k]].slug
                == store[k].slug,
{
    let v = list_action(store)->PostList_0;
    assert forall|k: int| 0 <= k < v.len() implies 0 <= #[trigger] v[k] < store.len()
        && store[v[k]].slug == store[k].slug by {
        let ks = keys_of(store);
        lemma_find_key(ks, ks[k]);
        assert(ks.contains(ks[k]));
    }
}

} // verus!

//! The blog store: an immutable, ordered collection of posts, each with the
//! attachments registered on it.
use vstd::prelude::*;

verus! {

/// A file registered on a post under a name that is scoped to that post.
pub struct Attachment {
    pub name: String,
    pub path: String,
}

/// A post, identified by its canonical slug.
pub struct Post {
    pub slug: String,
    pub attachments: Vec<Attachment>,
}

/// The posts in the store's enumeration order.
pub struct BlogStore {
    pub posts: Vec<Post>,
}

pub ghost struct AttachmentModel {
    pub name: Seq<char>,
    pub path: Seq<char>,
}

pub ghost struct PostModel {
    pub slug: Seq<char>,
    pub attachments: Seq<AttachmentModel>,
}

impl View for Attachment {
    type V = AttachmentModel;

    open spec fn view(&self) -> AttachmentModel {
        AttachmentModel { name: self.name@, path: self.path@ }
    }
}

impl View for Post {
    type V = PostModel;

    open spec fn view(&self) -> PostModel {
        PostModel { slug: self.slug@, attachments: self.attachments@.map_values(|a: Attachment| a@) }
    }
}

impl View for BlogStore {
    type V = Seq<PostModel>;

    open spec fn view(&self) -> Seq<PostModel> {
        self.posts@.map_values(|p: Post| p@)
    }
}

/// The slugs of the posts, in enumeration order.
pub open spec fn keys_of(posts: Seq<PostModel>) -> Seq<Seq<char>> {
    posts.map_values(|p: PostModel| p.slug)
}

/// The names of the attachments of a post, in registration order.
pub open spec fn names_of(atts: Seq<AttachmentModel>) -> Seq<Seq<char>> {
    atts.map_values(|a: AttachmentModel| a.name)
}

/// `i` is the first position that holds `k`.
pub open spec fn is_first_index(keys: Seq<Seq<char>>, k: Seq<char>, i: int) -> bool {
    &&& 0 <= i < keys.len()
    &&& keys[i] == k
    &&& forall|j: int| 0 <= j < i ==> keys[j] != k
}

/// The first position that holds `k`, if any does.
pub open spec fn find_key(keys: Seq<Seq<char>>, k: Seq<char>) -> Option<int> {
    if exists|i: int| 0 <= i < keys.len() && keys[i] == k {
        Some(choose|i: int| is_first_index(keys, k, i))
    } else {
        None
    }
}

/// Where a slug is found in the store: the first post that carries it.
pub open spec fn find_post(posts: Seq<PostModel>, slug: Seq<char>) -> Option<int> {
    find_key(keys_of(posts), slug)
}

/// Where an attachment name is found on a post: the first one registered under it.
pub open spec fn find_attachment(post: PostModel, name: Seq<char>) -> Option<int> {
    find_key(names_of(post.attachments), name)
}

/// The first position is unique, so `find_key` is determined by it.
pub proof fn lemma_find_key_first(keys: Seq<Seq<char>>, k: Seq<char>, i: int)
    requires
        is_first_index(keys, k, i),
    ensures
        find_key(keys, k) == Some(i),
{
    let c = choose|c: int| is_first_index(keys, k, c);
    assert(is_first_index(keys, k, c));
    if c < i {
        assert(keys[c] != k);
    } else if c > i {
        assert(keys[i] != k);
    }
}

/// What `find_key` returns is the first position of the key, and it returns
/// one whenever the key occurs.
pub proof fn lemma_find_key(keys: Seq<Seq<char>>, k: Seq<char>)
    ensures
        find_key(keys, k) matches Some(i) ==> is_first_index(keys, k, i),
        find_key(keys, k) is None <==> !keys.contains(k),
{
    keys.index_of_first_ensures(k);
    if let Some(i) = keys.index_of_first(k) {
        lemma_find_key_first(keys, k, i);
    }
}

/// Looks a key up by a scan from the front.
fn position_of(keys: &Vec<String>, k: &str) -> (r: Option<usize>)
    ensures
        r matches Some(i) ==> find_key(keys@.map_values(|s: String| s@), k@) == Some(i as int),
        r matches Some(i) ==> i < keys.len() && keys@[i as int]@ == k@,
        r is None ==> find_key(keys@.map_values(|s: String| s@), k@) is None,
{
    let ghost ks = keys@.map_values(|s: String| s@);
    let target = String::from_str(k);
    let mut i: usize = 0;
    while i < keys.len()
        invariant
            i <= keys.len(),
            ks == keys@.map_values(|s: String| s@),
            target@ == k@,
            forall|j: int| 0 <= j < i ==> ks[j] != k@,
        decreases keys.len() - i,
    {
        if keys[i] == target {
            proof {
                lemma_find_key_first(ks, k@, i as int);
            }
            return Some(i);
        }
        i = i + 1;
    }
    None
}

impl BlogStore {
    /// The slugs of all posts, in the store's enumeration order.
    pub fn list_post_keys(&self) -> (r: Vec<String>)
        ensures
            r@.map_values(|s: String| s@) == keys_of(self@),
    {
        let mut keys: Vec<String> = Vec::new();
        let mut i: usize = 0;
        while i < self.posts.len()
            invariant
                i <= self.posts.len(),
                keys@.len() == i,
                forall|j: int| 0 <= j < i ==> #[trigger] keys@[j]@ == self.posts@[j].slug@,
            decreases self.posts.len() - i,
        {
            keys.push(self.posts[i].slug.clone());
            i = i + 1;
        }
        proof {
            assert(keys@.map_values(|s: String| s@) =~= keys_of(self@));
        }
        keys
    }

    /// The position of the post with the given slug.
    pub fn get_post(&self, slug: &str) -> (r: Option<usize>)
        ensures
            r matches Some(i) ==> find_post(self@, slug@) == Some(i as int),
            r matches Some(i) ==> i < self.posts.len() && self@[i as int].slug == slug@,
            r is None ==> find_post(self@, slug@) is None,
    {
        let keys = self.list_post_keys();
        let r = position_of(&keys, slug);
        proof {
            if let Some(i) = r {
                assert(keys@.map_values(|s: String| s@)[i as int] == keys_of(self@)[i as int]);
            }
        }
        r
    }
}

impl Post {
    /// The position of the attachment registered on this post under `name`.
    pub fn get_attachment(&self, name: &str) -> (r: Option<usize>)
        ensures
            r matches Some(i) ==> find_attachment(self@, name@) == Some(i as int),
            r matches Some(i) ==> i < self.attachments.len() && self@.attachments[i as int].name == name@,
            r is None ==> find_attachment(self@, name@) is None,
    {
        let mut names: Vec<String> = Vec::new();
        let mut i: usize = 0;
        while i < self.attachments.len()
            invariant
                i <= self.attachments.len(),
                names@.len() == i,
                forall|j: int| 0 <= j < i ==> #[trigger] names@[j]@ == self.attachments@[j].name@,
            decreases self.attachments.len() - i,
        {
            names.push(self.attachments[i].name.clone());
            i = i + 1;
        }
        proof {
            assert(names@.map_values(|s: String| s@) =~= names_of(self@.attachments));
        }
        position_of(&names, name)
    }
}

impl Attachment {
    /// The filesystem path the attachment resolves to.
    pub fn get_path(&self) -> (r: &str)
        ensures
            r@ == self.path@,
    {
        self.path.as_str()
    }
}

} // verus!

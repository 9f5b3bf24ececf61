//! The collection of posts as the service expects the store to keep it:
//! what a store that works answers to each call, and what it holds
//! afterwards. Nothing here runs; the laws of the crate are stated over it.

use crate::error::is_duplicate_key_text;
use crate::model::{PostDocumentView, PostModelView};
use crate::schema::UpdatePostSchemaView;
use crate::store::{StoreCallView, StoreEventView};
use vstd::prelude::*;

verus! {

/// What a store holds: its posts, in its own order.
pub type Posts = Seq<PostModelView>;

/// What the store decides by itself while it answers: the identifier that it
/// gives to a new post, and the words in which it reports a duplicate key.
pub struct Chance {
    pub fresh_id: Seq<u8>,
    pub fault: Seq<char>,
}

/// Whether some post of `posts` has the identifier `id`.
pub open spec fn holds_id(posts: Posts, id: Seq<u8>) -> bool {
    exists|i: int| 0 <= i < posts.len() && (#[trigger] posts[i]).id == id
}

/// Whether some post of `posts` has the title `title`.
pub open spec fn holds_title(posts: Posts, title: Seq<char>) -> bool {
    exists|i: int| 0 <= i < posts.len() && (#[trigger] posts[i]).title == title
}

/// Whether a post of `posts` other than the one at `at` has the title
/// `title`.
pub open spec fn title_taken_elsewhere(posts: Posts, at: int, title: Seq<char>) -> bool {
    exists|i: int| 0 <= i < posts.len() && i != at && (#[trigger] posts[i]).title == title
}

/// The place of a post with the identifier `id` in `posts`, if there is one.
pub open spec fn position(posts: Posts, id: Seq<u8>) -> int {
    choose|i: int| 0 <= i < posts.len() && (#[trigger] posts[i]).id == id
}

/// The rules that the store keeps: every identifier has twelve bytes, and no
/// two posts share an identifier or a title.
pub open spec fn consistent(posts: Posts) -> bool {
    &&& forall|i: int| 0 <= i < posts.len() ==> (#[trigger] posts[i]).id.len() == 12
    &&& forall|i: int, j: int|
        0 <= i < j < posts.len() ==> (#[trigger] posts[i]).id != (#[trigger] posts[j]).id
    &&& forall|i: int, j: int|
        0 <= i < j < posts.len() ==> (#[trigger] posts[i]).title != (#[trigger] posts[j]).title
}

/// Whether the store may decide `chance` while it holds `posts`: the new
/// identifier has twelve bytes and is not in use, and the words of the fault
/// report a duplicate key.
pub open spec fn possible(chance: Chance, posts: Posts) -> bool {
    &&& chance.fresh_id.len() == 12
    &&& !holds_id(posts, chance.fresh_id)
    &&& is_duplicate_key_text(chance.fault)
}

/// The post that the store holds once `document` is stored under `id`.
pub open spec fn stored(id: Seq<u8>, document: PostDocumentView) -> PostModelView {
    PostModelView {
        id,
        title: document.title,
        body: document.body,
        author: document.author,
        published: Some(document.published),
        created_at: document.created_at,
        updated_at: document.updated_at,
    }
}

/// The post `post` once the fields that `change` holds are set.
pub open spec fn changed(post: PostModelView, change: UpdatePostSchemaView) -> PostModelView {
    PostModelView {
        id: post.id,
        title: match change.title {
            Some(title) => title,
            None => post.title,
        },
        body: match change.body {
            Some(body) => body,
            None => post.body,
        },
        author: match change.author {
            Some(author) => author,
            None => post.author,
        },
        published: match change.published {
            Some(published) => Some(published),
            None => post.published,
        },
        created_at: post.created_at,
        updated_at: post.updated_at,
    }
}

/// The posts that are read when the first `skip` are passed over and at most
/// `limit` are wanted. A limit of zero is no limit; a negative limit counts
/// as its absolute value.
pub open spec fn window(posts: Posts, skip: u64, limit: i64) -> Posts {
    let start: int = if skip <= posts.len() {
        skip as int
    } else {
        posts.len() as int
    };
    let rest: int = posts.len() - start;
    let wanted: int = if limit == 0 {
        rest
    } else if limit > 0 {
        limit as int
    } else {
        -limit
    };
    let count: int = if wanted <= rest {
        wanted
    } else {
        rest
    };
    posts.subrange(start, start + count)
}

/// How a store that works answers `call` while it holds `posts`, and what it
/// holds afterwards. This is what the service expects of the store; the
/// laws of this crate say what follows for the service when the store meets
/// the expectation.
pub open spec fn answer(posts: Posts, call: StoreCallView, chance: Chance) -> (
    StoreEventView,
    Posts,
) {
    match call {
        StoreCallView::EnsureUniqueIndex(_) => (StoreEventView::IndexEnsured, posts),
        StoreCallView::InsertOne(document) => if holds_title(posts, document.title) {
            (StoreEventView::Failed(chance.fault), posts)
        } else {
            (
                StoreEventView::Inserted(chance.fresh_id),
                posts.push(stored(chance.fresh_id, document)),
            )
        },
        StoreCallView::FindOne(id) => if holds_id(posts, id) {
            (StoreEventView::Found(Some(posts[position(posts, id)])), posts)
        } else {
            (StoreEventView::Found(None), posts)
        },
        StoreCallView::FindMany { limit, skip } => (
            StoreEventView::FoundMany(window(posts, skip, limit)),
            posts,
        ),
        StoreCallView::FindOneAndUpdate(id, change) => if !holds_id(posts, id) {
            (StoreEventView::Found(None), posts)
        } else if change.title is Some && title_taken_elsewhere(
            posts,
            position(posts, id),
            change.title->0,
        ) {
            (StoreEventView::Failed(chance.fault), posts)
        } else {
            let at = position(posts, id);
            let after = changed(posts[at], change);
            (StoreEventView::Found(Some(after)), posts.update(at, after))
        },
        StoreCallView::DeleteOne(id) => if holds_id(posts, id) {
            (StoreEventView::Deleted(1), posts.remove(position(posts, id)))
        } else {
            (StoreEventView::Deleted(0), posts)
        },
    }
}

} // verus!

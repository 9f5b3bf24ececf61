//! Posts as the store keeps them.

use crate::ident::PostId;
use vstd::prelude::*;

verus! {

/// A post as it is read from the store. The two times are milliseconds since
/// the Unix epoch.
#[allow(non_snake_case)]
#[derive(Clone, Debug, PartialEq, Eq)]
pub struct PostModel {
    pub id: PostId,
    pub title: String,
    pub body: String,
    pub author: String,
    pub published: Option<bool>,
    pub createdAt: i64,
    pub updatedAt: i64,
}

/// A `PostModel`, with its texts as sequences of characters and its
/// identifier as a sequence of bytes.
pub struct PostModelView {
    pub id: Seq<u8>,
    pub title: Seq<char>,
    pub body: Seq<char>,
    pub author: Seq<char>,
    pub published: Option<bool>,
    pub created_at: i64,
    pub updated_at: i64,
}

impl View for PostModel {
    type V = PostModelView;

    open spec fn view(&self) -> PostModelView {
        PostModelView {
            id: self.id@,
            title: self.title@,
            body: self.body@,
            author: self.author@,
            published: self.published,
            created_at: self.createdAt,
            updated_at: self.updatedAt,
        }
    }
}

/// The posts of a vector, each by its view.
pub open spec fn models_view(posts: Seq<PostModel>) -> Seq<PostModelView> {
    Seq::new(posts.len(), |i: int| posts[i]@)
}

/// A post that is about to be stored: every field but the identifier, which
/// the store generates.
#[allow(non_snake_case)]
#[derive(Clone, Debug, PartialEq, Eq)]
pub struct PostDocument {
    pub title: String,
    pub body: String,
    pub author: String,
    pub published: bool,
    pub createdAt: i64,
    pub updatedAt: i64,
}

/// A `PostDocument`, with its texts as sequences of characters.
pub struct PostDocumentView {
    pub title: Seq<char>,
    pub body: Seq<char>,
    pub author: Seq<char>,
    pub published: bool,
    pub created_at: i64,
    pub updated_at: i64,
}

impl View for PostDocument {
    type V = PostDocumentView;

    open spec fn view(&self) -> PostDocumentView {
        PostDocumentView {
            title: self.title@,
            body: self.body@,
            author: self.author@,
            published: self.published,
            created_at: self.createdAt,
            updated_at: self.updatedAt,
        }
    }
}

} // verus!

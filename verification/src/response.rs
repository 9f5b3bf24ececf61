//! The shapes of what the service answers.

use vstd::prelude::*;

verus! {

/// A status and a message: the body of the health check and of every fault.
#[derive(Clone, Debug, PartialEq, Eq)]
pub struct GenericResponse {
    pub status: String,
    pub message: String,
}

/// A `GenericResponse`, with its texts as sequences of characters.
pub struct GenericResponseView {
    pub status: Seq<char>,
    pub message: Seq<char>,
}

impl View for GenericResponse {
    type V = GenericResponseView;

    open spec fn view(&self) -> GenericResponseView {
        GenericResponseView { status: self.status@, message: self.message@ }
    }
}

/// A post as a client reads it: the stored post with its identifier written
/// as text. The two times are milliseconds since the Unix epoch.
#[allow(non_snake_case)]
#[derive(Clone, Debug, PartialEq, Eq)]
pub struct PostResponse {
    pub id: String,
    pub title: String,
    pub body: String,
    pub author: String,
    pub published: bool,
    pub createdAt: i64,
    pub updatedAt: i64,
}

/// A `PostResponse`, with its texts as sequences of characters.
pub struct PostResponseView {
    pub id: Seq<char>,
    pub title: Seq<char>,
    pub body: Seq<char>,
    pub author: Seq<char>,
    pub published: bool,
    pub created_at: i64,
    pub updated_at: i64,
}

impl View for PostResponse {
    type V = PostResponseView;

    open spec fn view(&self) -> PostResponseView {
        PostResponseView {
            id: self.id@,
            title: self.title@,
            body: self.body@,
            author: self.author@,
            published: self.published,
            created_at: self.createdAt,
            updated_at: self.updatedAt,
        }
    }
}

/// The posts of a vector, each by its view.
pub open spec fn responses_view(posts: Seq<PostResponse>) -> Seq<PostResponseView> {
    Seq::new(posts.len(), |i: int| posts[i]@)
}

/// The payload of an answer that carries one post.
#[derive(Clone, Debug, PartialEq, Eq)]
pub struct PostData {
    pub post: PostResponse,
}

impl View for PostData {
    type V = PostResponseView;

    open spec fn view(&self) -> PostResponseView {
        self.post@
    }
}

/// The answer to a request for one post.
#[derive(Clone, Debug, PartialEq, Eq)]
pub struct SinglePostResponse {
    pub status: &'static str,
    pub data: PostData,
}

/// A `SinglePostResponse`, with its texts as sequences of characters.
pub struct SinglePostResponseView {
    pub status: Seq<char>,
    pub post: PostResponseView,
}

impl View for SinglePostResponse {
    type V = SinglePostResponseView;

    open spec fn view(&self) -> SinglePostResponseView {
        SinglePostResponseView { status: self.status@, post: self.data@ }
    }
}

/// The answer to a request for a page of posts.
#[derive(Clone, Debug, PartialEq, Eq)]
pub struct PostListResponse {
    pub status: &'static str,
    pub results: usize,
    pub posts: Vec<PostResponse>,
}

/// A `PostListResponse`, with its texts as sequences of characters.
pub struct PostListResponseView {
    pub status: Seq<char>,
    pub results: usize,
    pub posts: Seq<PostResponseView>,
}

impl View for PostListResponse {
    type V = PostListResponseView;

    open spec fn view(&self) -> PostListResponseView {
        PostListResponseView {
            status: self.status@,
            results: self.results,
            posts: responses_view(self.posts@),
        }
    }
}

/// The answer that carries `post`, marked as a success.
pub open spec fn single_post(post: PostResponseView) -> SinglePostResponseView {
    SinglePostResponseView { status: "success"@, post }
}

/// The answer that carries `posts`, marked as a success, with their number.
pub open spec fn post_list(posts: Seq<PostResponseView>) -> PostListResponseView {
    PostListResponseView { status: "success"@, results: posts.len() as usize, posts }
}

} // verus!

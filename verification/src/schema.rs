//! The shapes of what a client sends.

use vstd::prelude::*;

verus! {

/// The number of posts on a page when the client names none.
pub const DEFAULT_LIMIT: usize = 10;

/// The page that is shown when the client names none.
pub const DEFAULT_PAGE: usize = 1;

/// What a client sends to create a post. A post is unpublished unless the
/// client says otherwise.
#[derive(Clone, Debug, PartialEq, Eq)]
pub struct CreatePostSchema {
    pub title: String,
    pub body: String,
    pub author: String,
    pub published: Option<bool>,
}

/// A `CreatePostSchema`, with its texts as sequences of characters.
pub struct CreatePostSchemaView {
    pub title: Seq<char>,
    pub body: Seq<char>,
    pub author: Seq<char>,
    pub published: Option<bool>,
}

impl View for CreatePostSchema {
    type V = CreatePostSchemaView;

    open spec fn view(&self) -> CreatePostSchemaView {
        CreatePostSchemaView {
            title: self.title@,
            body: self.body@,
            author: self.author@,
            published: self.published,
        }
    }
}

/// What a client sends to change a post: a value for each field that is to
/// change, and nothing for the others.
#[derive(Clone, Debug, PartialEq, Eq)]
pub struct UpdatePostSchema {
    pub title: Option<String>,
    pub body: Option<String>,
    pub author: Option<String>,
    pub published: Option<bool>,
}

/// An `UpdatePostSchema`, with its texts as sequences of characters.
pub struct UpdatePostSchemaView {
    pub title: Option<Seq<char>>,
    pub body: Option<Seq<char>>,
    pub author: Option<Seq<char>>,
    pub published: Option<bool>,
}

/// The characters of a text that may be absent.
pub open spec fn text_view(text: Option<String>) -> Option<Seq<char>> {
    match text {
        Some(t) => Some(t@),
        None => None,
    }
}

impl View for UpdatePostSchema {
    type V = UpdatePostSchemaView;

    open spec fn view(&self) -> UpdatePostSchemaView {
        UpdatePostSchemaView {
            title: text_view(self.title),
            body: text_view(self.body),
            author: text_view(self.author),
            published: self.published,
        }
    }
}

/// Copies a text that may be absent.
pub fn clone_text(text: &Option<String>) -> (r: Option<String>)
    ensures
        text_view(r) == text_view(*text),
{
    match text {
        Some(t) => Some(t.clone()),
        None => None,
    }
}

impl UpdatePostSchema {
    /// A copy of the change, field by field.
    pub fn duplicate(&self) -> (r: UpdatePostSchema)
        ensures
            r@ == self@,
    {
        UpdatePostSchema {
            title: clone_text(&self.title),
            body: clone_text(&self.body),
            author: clone_text(&self.author),
            published: self.published,
        }
    }
}

/// The page of the list that a client asks for.
#[derive(Clone, Copy, Debug, PartialEq, Eq)]
pub struct FilterOptions {
    pub page: Option<usize>,
    pub limit: Option<usize>,
}

} // verus!

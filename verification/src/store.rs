//! The exchange with the document store: what the service asks of it and
//! what it answers.

use crate::ident::PostId;
use crate::model::{models_view, PostDocument, PostDocumentView, PostModel, PostModelView};
use crate::schema::{UpdatePostSchema, UpdatePostSchemaView};
use vstd::prelude::*;

verus! {

/// A request to the store.
#[derive(Clone, Debug, PartialEq, Eq)]
pub enum StoreCall {
    /// Make sure that an index exists which forbids two posts with the same
    /// value of the named field.
    EnsureUniqueIndex(String),
    /// Store a new post; the store generates its identifier.
    InsertOne(PostDocument),
    /// Read the post with this identifier.
    FindOne(PostId),
    /// Read posts in the order of the store: pass over the first `skip`,
    /// then read at most `limit`.
    FindMany { limit: i64, skip: u64 },
    /// Set the named fields of the post with this identifier, and read the
    /// post as it is afterwards.
    FindOneAndUpdate(PostId, UpdatePostSchema),
    /// Remove the post with this identifier.
    DeleteOne(PostId),
}

/// A `StoreCall` by the views of what it carries.
pub enum StoreCallView {
    EnsureUniqueIndex(Seq<char>),
    InsertOne(PostDocumentView),
    FindOne(Seq<u8>),
    FindMany { limit: i64, skip: u64 },
    FindOneAndUpdate(Seq<u8>, UpdatePostSchemaView),
    DeleteOne(Seq<u8>),
}

impl View for StoreCall {
    type V = StoreCallView;

    open spec fn view(&self) -> StoreCallView {
        match self {
            StoreCall::EnsureUniqueIndex(field) => StoreCallView::EnsureUniqueIndex(field@),
            StoreCall::InsertOne(document) => StoreCallView::InsertOne(document@),
            StoreCall::FindOne(id) => StoreCallView::FindOne(id@),
            StoreCall::FindMany { limit, skip } => StoreCallView::FindMany {
                limit: *limit,
                skip: *skip,
            },
            StoreCall::FindOneAndUpdate(id, change) => StoreCallView::FindOneAndUpdate(
                id@,
                change@,
            ),
            StoreCall::DeleteOne(id) => StoreCallView::DeleteOne(id@),
        }
    }
}

/// An answer of the store.
#[derive(Clone, Debug, PartialEq, Eq)]
pub enum StoreEvent {
    /// The index exists.
    IndexEnsured,
    /// The post was stored under this identifier.
    Inserted(PostId),
    /// The post that was asked for, if the store holds it.
    Found(Option<PostModel>),
    /// The posts that were asked for, in the order of the store.
    FoundMany(Vec<PostModel>),
    /// The number of posts that were removed.
    Deleted(u64),
    /// The store reported a fault, in these words.
    Failed(String),
}

/// A `StoreEvent` by the views of what it carries.
pub enum StoreEventView {
    IndexEnsured,
    Inserted(Seq<u8>),
    Found(Option<PostModelView>),
    FoundMany(Seq<PostModelView>),
    Deleted(u64),
    Failed(Seq<char>),
}

/// The view of a post that may be absent.
pub open spec fn found_view(post: Option<PostModel>) -> Option<PostModelView> {
    match post {
        Some(p) => Some(p@),
        None => None,
    }
}

impl View for StoreEvent {
    type V = StoreEventView;

    open spec fn view(&self) -> StoreEventView {
        match self {
            StoreEvent::IndexEnsured => StoreEventView::IndexEnsured,
            StoreEvent::Inserted(id) => StoreEventView::Inserted(id@),
            StoreEvent::Found(post) => StoreEventView::Found(found_view(*post)),
            StoreEvent::FoundMany(posts) => StoreEventView::FoundMany(models_view(posts@)),
            StoreEvent::Deleted(count) => StoreEventView::Deleted(*count),
            StoreEvent::Failed(text) => StoreEventView::Failed(text@),
        }
    }
}

} // verus!

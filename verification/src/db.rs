//! The data access layer: what is asked of the store for each operation on
//! posts, and what each answer of the store leads to.
//!
//! An operation is a short exchange. Its function returns the first `Step`:
//! either the result at once, or a call for the store together with what is
//! still to do. The driver performs the call and hands the answer to
//! `DB::resume`, which returns the next step.
//!
//! The index that keeps titles unique is asked for once, by `DB::setup`,
//! when the service starts; no later operation asks for it.

use crate::error::{is_duplicate_key_message, is_duplicate_key_text, MyError, MyErrorView};
use crate::ident::{hex_decode, hex_encode, is_hex_id, PostId};
use crate::model::{models_view, PostDocument, PostDocumentView, PostModel, PostModelView};
use crate::response::{
    post_list, responses_view, single_post, PostData, PostListResponse, PostListResponseView,
    PostResponse, PostResponseView, SinglePostResponse, SinglePostResponseView,
};
use crate::schema::{CreatePostSchema, CreatePostSchemaView, UpdatePostSchema, UpdatePostSchemaView};
use crate::store::{StoreCall, StoreCallView, StoreEvent, StoreEventView};
use chrono::Utc;
use vstd::prelude::*;

verus! {

/// The database in which the posts are kept.
pub const DATABASE_NAME: &'static str = "firstDb";

/// The collection in which the posts are kept.
pub const COLLECTION_NAME: &'static str = "posts";

/// The field of a post that no two posts may share.
pub const UNIQUE_FIELD: &'static str = "title";

/// The text of the fault that is reported when the store answers something
/// that is no answer to the call it was given.
pub const UNEXPECTED_ANSWER: &'static str = "unexpected answer from the store";

/// The text of the fault that is reported when a listing names a limit or
/// a page below one, or a page so far on that the posts before it cannot be
/// counted.
pub const NO_SUCH_PAGE: &'static str = "page and limit name no page of the store";

/// What an operation still has to do once the store has answered.
#[derive(Clone, Debug, PartialEq, Eq)]
pub enum Pending {
    /// Setup: the unique index is being ensured.
    Index,
    /// Create: the document is being inserted; the new post is read back
    /// next.
    Insert,
    /// Create: the post stored under this identifier is being read back.
    Reread(PostId),
    /// Get or edit: the post is being read. The text is the identifier as
    /// the caller wrote it.
    Lookup(String),
    /// Delete: the post is being removed. The text is the identifier as the
    /// caller wrote it.
    Delete(String),
    /// List: a page of posts is being read.
    List,
}

/// A `Pending` by the views of what it carries.
pub enum PendingView {
    Index,
    Insert,
    Reread(Seq<u8>),
    Lookup(Seq<char>),
    Delete(Seq<char>),
    List,
}

impl View for Pending {
    type V = PendingView;

    open spec fn view(&self) -> PendingView {
        match self {
            Pending::Index => PendingView::Index,
            Pending::Insert => PendingView::Insert,
            Pending::Reread(id) => PendingView::Reread(id@),
            Pending::Lookup(id) => PendingView::Lookup(id@),
            Pending::Delete(id) => PendingView::Delete(id@),
            Pending::List => PendingView::List,
        }
    }
}

/// What a successful operation hands back.
#[derive(Clone, Debug, PartialEq, Eq)]
pub enum Outcome {
    /// One post: the result of create, get and edit.
    Post(SinglePostResponse),
    /// A page of posts: the result of list.
    List(PostListResponse),
    /// Nothing: the result of delete.
    Deleted,
    /// Nothing: the result of setup. The store is ready for the service.
    Ready,
}

/// An `Outcome` by the views of what it carries.
pub enum OutcomeView {
    Post(SinglePostResponseView),
    List(PostListResponseView),
    Deleted,
    Ready,
}

impl View for Outcome {
    type V = OutcomeView;

    open spec fn view(&self) -> OutcomeView {
        match self {
            Outcome::Post(response) => OutcomeView::Post(response@),
            Outcome::List(response) => OutcomeView::List(response@),
            Outcome::Deleted => OutcomeView::Deleted,
            Outcome::Ready => OutcomeView::Ready,
        }
    }
}

/// The view of the result of an operation.
pub open spec fn result_view(result: Result<Outcome, MyError>) -> Result<OutcomeView, MyErrorView> {
    match result {
        Ok(outcome) => Ok(outcome@),
        Err(error) => Err(error@),
    }
}

/// One step of an operation.
#[derive(Debug, PartialEq, Eq)]
pub enum Step {
    /// The store is to be asked this; the answer goes to `DB::resume`
    /// together with the `Pending`.
    Call(StoreCall, Pending),
    /// The operation has ended with this result.
    Done(Result<Outcome, MyError>),
}

/// A `Step` by the views of what it carries.
pub enum StepView {
    Call(StoreCallView, PendingView),
    Done(Result<OutcomeView, MyErrorView>),
}

impl View for Step {
    type V = StepView;

    open spec fn view(&self) -> StepView {
        match self {
            Step::Call(call, pending) => StepView::Call(call@, pending@),
            Step::Done(result) => StepView::Done(result_view(*result)),
        }
    }
}

/// The post that a client reads for a stored post: the identifier as
/// lower-case hexadecimal text, a missing `published` as `false`, and every
/// other field as it is stored.
pub open spec fn post_response(post: PostModelView) -> PostResponseView {
    PostResponseView {
        id: hex_encode(post.id),
        title: post.title,
        body: post.body,
        author: post.author,
        published: match post.published {
            Some(published) => published,
            None => false,
        },
        created_at: post.created_at,
        updated_at: post.updated_at,
    }
}

/// The posts that a client reads for a sequence of stored posts, in the same
/// order.
pub open spec fn post_responses(posts: Seq<PostModelView>) -> Seq<PostResponseView> {
    Seq::new(posts.len(), |i: int| post_response(posts[i]))
}

/// The document that is stored for a new post at the time `now`: the texts
/// of the client, both times equal to `now`, and `published` as the client
/// gave it or else as the second argument says.
pub open spec fn new_document(
    body: CreatePostSchemaView,
    published: bool,
    now: i64,
) -> PostDocumentView {
    PostDocumentView {
        title: body.title,
        body: body.body,
        author: body.author,
        published: match body.published {
            Some(given) => given,
            None => published,
        },
        created_at: now,
        updated_at: now,
    }
}

/// The number of posts that come before page `page` when a page holds
/// `limit` posts, pages counted from one: `(page - 1) * limit`. `None` where
/// the limit or the page is below one, or where that number is greater than
/// `i64::MAX`: the service lists no such page.
pub open spec fn page_skip(limit: int, page: int) -> Option<u64> {
    if limit >= 1 && page >= 1 && (page - 1) * limit <= i64::MAX {
        Some(((page - 1) * limit) as u64)
    } else {
        None
    }
}

/// The result that reports a fault of the store in the words `text`.
pub open spec fn query_fault(text: Seq<char>) -> StepView {
    StepView::Done(Err(MyErrorView::MongoQueryError(text)))
}

/// The one step of setup: the store is asked to ensure the index that
/// forbids two posts with the same title.
pub open spec fn begin_setup() -> StepView {
    StepView::Call(StoreCallView::EnsureUniqueIndex(UNIQUE_FIELD@), PendingView::Index)
}

/// The first step of listing page `page` with `limit` posts to the page.
/// Where the limit or the page is below one, or the number of posts before
/// the page is greater than `i64::MAX`, the listing is refused at once as a
/// query fault with the text `NO_SUCH_PAGE`, and no call is made.
pub open spec fn begin_fetch(limit: i64, page: i64) -> StepView {
    match page_skip(limit as int, page as int) {
        Some(skip) => StepView::Call(StoreCallView::FindMany { limit, skip }, PendingView::List),
        None => query_fault(NO_SUCH_PAGE@),
    }
}

/// The first step of creating a post at the time `now`: the document is
/// inserted. A post is unpublished unless the client says otherwise.
pub open spec fn begin_create(body: CreatePostSchemaView, now: i64) -> StepView {
    StepView::Call(StoreCallView::InsertOne(new_document(body, false, now)), PendingView::Insert)
}

/// The first step of reading the post with the identifier `id`.
pub open spec fn begin_get(id: Seq<char>) -> StepView {
    if is_hex_id(id) {
        StepView::Call(StoreCallView::FindOne(hex_decode(id)), PendingView::Lookup(id))
    } else {
        StepView::Done(Err(MyErrorView::InvalidIDError(id)))
    }
}

/// The first step of changing the post with the identifier `id`.
pub open spec fn begin_edit(id: Seq<char>, change: UpdatePostSchemaView) -> StepView {
    if is_hex_id(id) {
        StepView::Call(
            StoreCallView::FindOneAndUpdate(hex_decode(id), change),
            PendingView::Lookup(id),
        )
    } else {
        StepView::Done(Err(MyErrorView::InvalidIDError(id)))
    }
}

/// The first step of removing the post with the identifier `id`.
pub open spec fn begin_delete(id: Seq<char>) -> StepView {
    if is_hex_id(id) {
        StepView::Call(StoreCallView::DeleteOne(hex_decode(id)), PendingView::Delete(id))
    } else {
        StepView::Done(Err(MyErrorView::InvalidIDError(id)))
    }
}

/// The step that follows when the store answers `event` to an operation
/// that has `pending` left to do. A fault of the store ends the operation:
/// as a duplicate while inserting if its text says so, else as a query
/// fault. An answer of a kind that the call cannot have ends it as a query
/// fault with the text `UNEXPECTED_ANSWER`.
pub open spec fn next_step(pending: PendingView, event: StoreEventView) -> StepView {
    match (pending, event) {
        (PendingView::Insert, StoreEventView::Failed(text)) => if is_duplicate_key_text(text) {
            StepView::Done(Err(MyErrorView::MongoDuplicateError(text)))
        } else {
            query_fault(text)
        },
        (_, StoreEventView::Failed(text)) => query_fault(text),
        (PendingView::Index, StoreEventView::IndexEnsured) => StepView::Done(
            Ok(OutcomeView::Ready),
        ),
        (PendingView::Insert, StoreEventView::Inserted(id)) => StepView::Call(
            StoreCallView::FindOne(id),
            PendingView::Reread(id),
        ),
        (PendingView::Reread(id), StoreEventView::Found(Some(post))) => StepView::Done(
            Ok(OutcomeView::Post(single_post(post_response(post)))),
        ),
        (PendingView::Reread(id), StoreEventView::Found(None)) => StepView::Done(
            Err(MyErrorView::NotFoundError(hex_encode(id))),
        ),
        (PendingView::Lookup(id), StoreEventView::Found(Some(post))) => StepView::Done(
            Ok(OutcomeView::Post(single_post(post_response(post)))),
        ),
        (PendingView::Lookup(id), StoreEventView::Found(None)) => StepView::Done(
            Err(MyErrorView::NotFoundError(id)),
        ),
        (PendingView::Delete(id), StoreEventView::Deleted(count)) => if count == 0 {
            StepView::Done(Err(MyErrorView::NotFoundError(id)))
        } else {
            StepView::Done(Ok(OutcomeView::Deleted))
        },
        (PendingView::List, StoreEventView::FoundMany(posts)) => StepView::Done(
            Ok(OutcomeView::List(post_list(post_responses(posts)))),
        ),
        _ => query_fault(UNEXPECTED_ANSWER@),
    }
}

/// Calls `Utc::now` of chrono, and `timestamp_millis` on the time it gives:
/// the milliseconds since the Unix epoch on the clock of the machine.
/// Trusted, with nothing stated of the number. `Utc::now` does not return on
/// a machine whose clock stands before the epoch.
#[verifier::external_body]
fn now_millis() -> i64 {
    Utc::now().timestamp_millis()
}

/// The answer that carries `post`, marked as a success.
fn single(post: PostResponse) -> (r: SinglePostResponse)
    ensures
        r@ == single_post(post@),
{
    SinglePostResponse { status: "success", data: PostData { post } }
}

/// The step that ends an operation with a fault of the store.
fn query_failure(text: String) -> (step: Step)
    ensures
        step@ == query_fault(text@),
{
    Step::Done(Err(MyError::MongoQueryError(text)))
}

/// The names under which the posts are kept.
#[derive(Clone, Debug, PartialEq, Eq)]
pub struct DB {
    pub database: String,
    pub collection: String,
}

/// A `DB`, with its names as sequences of characters.
pub struct DBView {
    pub database: Seq<char>,
    pub collection: Seq<char>,
}

impl View for DB {
    type V = DBView;

    open spec fn view(&self) -> DBView {
        DBView { database: self.database@, collection: self.collection@ }
    }
}

impl DB {
    /// The layer for the collection `posts` of the database `firstDb`.
    pub fn init() -> (db: DB)
        ensures
            db@.database == DATABASE_NAME@,
            db@.collection == COLLECTION_NAME@,
    {
        DB { database: DATABASE_NAME.to_owned(), collection: COLLECTION_NAME.to_owned() }
    }

    /// Turns a stored post into the post that a client reads.
    pub fn doc_to_post(&self, post: &PostModel) -> (r: PostResponse)
        ensures
            r@ == post_response(post@),
    {
        PostResponse {
            id: post.id.to_hex(),
            title: post.title.clone(),
            body: post.body.clone(),
            author: post.author.clone(),
            published: match post.published {
                Some(published) => published,
                None => false,
            },
            createdAt: post.createdAt,
            updatedAt: post.updatedAt,
        }
    }

    /// Turns stored posts into the posts that a client reads, in the
    /// same order.
    pub fn docs_to_posts(&self, posts: &Vec<PostModel>) -> (r: Vec<PostResponse>)
        ensures
            responses_view(r@) == post_responses(models_view(posts@)),
    {
        let mut out: Vec<PostResponse> = Vec::new();
        let mut i: usize = 0;
        while i < posts.len()
            invariant
                i <= posts@.len(),
                out@.len() == i,
                forall|j: int| 0 <= j < i ==> out@[j]@ == post_response(posts@[j]@),
            decreases posts@.len() - i,
        {
            let post = self.doc_to_post(&posts[i]);
            out.push(post);
            i += 1;
        }
        assert(responses_view(out@) =~= post_responses(models_view(posts@)));
        out
    }

    /// The document that is stored for a new post at the time `now`.
    pub fn create_post_document_at(
        &self,
        body: &CreatePostSchema,
        published: bool,
        now: i64,
    ) -> (document: PostDocument)
        ensures
            document@ == new_document(body@, published, now),
    {
        PostDocument {
            title: body.title.clone(),
            body: body.body.clone(),
            author: body.author.clone(),
            published: match body.published {
                Some(given) => given,
                None => published,
            },
            createdAt: now,
            updatedAt: now,
        }
    }

    /// The document that is stored for a new post now, by the clock of the
    /// machine.
    pub fn create_post_document(&self, body: &CreatePostSchema, published: bool) -> (document:
        PostDocument)
        ensures
            document@ == new_document(body@, published, document@.created_at),
    {
        let now = now_millis();
        self.create_post_document_at(body, published, now)
    }

    /// The number of posts that come before page `page` when a page holds
    /// `limit` posts; `None` for a page that the service does not list.
    pub fn skip_for(limit: i64, page: i64) -> (skip: Option<u64>)
        ensures
            skip == page_skip(limit as int, page as int),
            skip is Some <==> limit >= 1 && page >= 1 && (page - 1) * limit <= i64::MAX,
            skip matches Some(before) ==> before == (page - 1) * limit,
    {
        if limit < 1 || page < 1 {
            return None;
        }
        let pages: i64 = page - 1;
        assert(0 <= pages * limit) by (nonlinear_arith)
            requires
                0 <= pages,
                1 <= limit,
        ;
        match pages.checked_mul(limit) {
            Some(product) => Some(product as u64),
            None => None,
        }
    }

    /// Begins setup: asks the store to ensure the unique index on the
    /// title. The service runs this once, when it starts.
    pub fn setup(&self) -> (step: Step)
        ensures
            step@ == begin_setup(),
    {
        Step::Call(StoreCall::EnsureUniqueIndex(UNIQUE_FIELD.to_owned()), Pending::Index)
    }

    /// Begins the listing of page `page`, with `limit` posts to the page:
    /// the store is asked to pass over `(page - 1) * limit` posts and to
    /// read at most `limit`. A limit or a page below one, and a page for
    /// which that number is greater than `i64::MAX`, is refused as a query
    /// fault, without a call.
    pub fn fetch_posts(&self, limit: i64, page: i64) -> (step: Step)
        ensures
            step@ == begin_fetch(limit, page),
            limit < 1 || page < 1 || (page - 1) * limit > i64::MAX ==> step@ == StepView::Done(
                Err(MyErrorView::MongoQueryError(NO_SUCH_PAGE@)),
            ),
            page_skip(limit as int, page as int) matches Some(skip) ==> step@ == StepView::Call(
                StoreCallView::FindMany { limit, skip },
                PendingView::List,
            ),
    {
        match Self::skip_for(limit, page) {
            Some(skip) => Step::Call(StoreCall::FindMany { limit, skip }, Pending::List),
            None => query_failure(NO_SUCH_PAGE.to_owned()),
        }
    }

    /// Begins the creation of a post at the time `now`: the document is
    /// inserted, and no index is asked for.
    pub fn create_post_at(&self, body: &CreatePostSchema, now: i64) -> (step: Step)
        ensures
            step@ == begin_create(body@, now),
            step@ == StepView::Call(
                StoreCallView::InsertOne(new_document(body@, false, now)),
                PendingView::Insert,
            ),
    {
        let published = match body.published {
            Some(given) => given,
            None => false,
        };
        let document = self.create_post_document_at(body, published, now);
        Step::Call(StoreCall::InsertOne(document), Pending::Insert)
    }

    /// Begins the creation of a post now, by the clock of the machine. The
    /// step is that of `create_post_at` at the time that the document
    /// carries.
    pub fn create_post(&self, body: &CreatePostSchema) -> (step: Step)
        ensures
            step@ matches StepView::Call(StoreCallView::InsertOne(document), _) && step@
                == begin_create(body@, document.created_at),
    {
        let now = now_millis();
        self.create_post_at(body, now)
    }

    /// Begins the reading of the post with the identifier `id`.
    pub fn get_post(&self, id: &str) -> (step: Step)
        ensures
            step@ == begin_get(id@),
            !is_hex_id(id@) ==> step@ == StepView::Done(Err(MyErrorView::InvalidIDError(id@))),
            is_hex_id(id@) ==> step@ is Call,
    {
        match PostId::parse(id) {
            Some(oid) => Step::Call(StoreCall::FindOne(oid), Pending::Lookup(id.to_owned())),
            None => Step::Done(Err(MyError::InvalidIDError(id.to_owned()))),
        }
    }

    /// Begins the change of the post with the identifier `id`: the fields
    /// that `body` holds are set, the others stay.
    pub fn edit_post(&self, id: &str, body: &UpdatePostSchema) -> (step: Step)
        ensures
            step@ == begin_edit(id@, body@),
            !is_hex_id(id@) ==> step@ == StepView::Done(Err(MyErrorView::InvalidIDError(id@))),
            is_hex_id(id@) ==> step@ is Call,
    {
        match PostId::parse(id) {
            Some(oid) => Step::Call(
                StoreCall::FindOneAndUpdate(oid, body.duplicate()),
                Pending::Lookup(id.to_owned()),
            ),
            None => Step::Done(Err(MyError::InvalidIDError(id.to_owned()))),
        }
    }

    /// Begins the removal of the post with the identifier `id`.
    pub fn delete_post(&self, id: &str) -> (step: Step)
        ensures
            step@ == begin_delete(id@),
            !is_hex_id(id@) ==> step@ == StepView::Done(Err(MyErrorView::InvalidIDError(id@))),
            is_hex_id(id@) ==> step@ is Call,
    {
        match PostId::parse(id) {
            Some(oid) => Step::Call(StoreCall::DeleteOne(oid), Pending::Delete(id.to_owned())),
            None => Step::Done(Err(MyError::InvalidIDError(id.to_owned()))),
        }
    }

    /// Takes the answer of the store to the call of the last step, and
    /// returns the step that follows.
    pub fn resume(&self, pending: Pending, event: StoreEvent) -> (step: Step)
        ensures
            step@ == next_step(pending@, event@),
    {
        match (pending, event) {
            (Pending::Insert, StoreEvent::Failed(text)) => {
                if is_duplicate_key_message(text.as_str()) {
                    Step::Done(Err(MyError::MongoDuplicateError(text)))
                } else {
                    query_failure(text)
                }
            },
            (_, StoreEvent::Failed(text)) => query_failure(text),
            (Pending::Index, StoreEvent::IndexEnsured) => Step::Done(Ok(Outcome::Ready)),
            (Pending::Insert, StoreEvent::Inserted(id)) => Step::Call(
                StoreCall::FindOne(id),
                Pending::Reread(id),
            ),
            (Pending::Reread(id), StoreEvent::Found(Some(post))) => Step::Done(
                Ok(Outcome::Post(single(self.doc_to_post(&post)))),
            ),
            (Pending::Reread(id), StoreEvent::Found(None)) => Step::Done(
                Err(MyError::NotFoundError(id.to_hex())),
            ),
            (Pending::Lookup(id), StoreEvent::Found(Some(post))) => Step::Done(
                Ok(Outcome::Post(single(self.doc_to_post(&post)))),
            ),
            (Pending::Lookup(id), StoreEvent::Found(None)) => Step::Done(
                Err(MyError::NotFoundError(id)),
            ),
            (Pending::Delete(id), StoreEvent::Deleted(count)) => {
                if count == 0 {
                    Step::Done(Err(MyError::NotFoundError(id)))
                } else {
                    Step::Done(Ok(Outcome::Deleted))
                }
            },
            (Pending::List, StoreEvent::FoundMany(posts)) => {
                let posts = self.docs_to_posts(&posts);
                Step::Done(
                    Ok(
                        Outcome::List(
                            PostListResponse { status: "success", results: posts.len(), posts },
                        ),
                    ),
                )
            },
            _ => query_failure(UNEXPECTED_ANSWER.to_owned()),
        }
    }
}

} // verus!

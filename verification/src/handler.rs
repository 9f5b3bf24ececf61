//! The request handlers: which page a listing asks for, and the HTTP reply
//! that each result of the data access layer is answered with.

use crate::db::{Outcome, OutcomeView};
use crate::error::{MyError, MyErrorView};
use crate::response::{
    GenericResponse, GenericResponseView, PostListResponse, PostListResponseView,
    SinglePostResponse, SinglePostResponseView,
};
use crate::schema::{FilterOptions, DEFAULT_LIMIT, DEFAULT_PAGE};
use vstd::prelude::*;

verus! {

/// HTTP status of a read, a change or a listing that succeeded.
pub const STATUS_OK: u16 = 200;

/// HTTP status of a create that succeeded.
pub const STATUS_CREATED: u16 = 201;

/// HTTP status of a delete that succeeded.
pub const STATUS_NO_CONTENT: u16 = 204;

/// The message of the health check.
pub const HEALTH_MESSAGE: &'static str = "RESTful API in Rust using Axum Framework and MongoDB";

/// The body of an HTTP reply.
#[derive(Clone, Debug, PartialEq, Eq)]
pub enum ReplyBody {
    /// No body at all.
    Empty,
    /// A status and a message.
    Message(GenericResponse),
    /// One post.
    Post(SinglePostResponse),
    /// A page of posts.
    Posts(PostListResponse),
}

/// A `ReplyBody` by the views of what it carries.
pub enum ReplyBodyView {
    Empty,
    Message(GenericResponseView),
    Post(SinglePostResponseView),
    Posts(PostListResponseView),
}

impl View for ReplyBody {
    type V = ReplyBodyView;

    open spec fn view(&self) -> ReplyBodyView {
        match self {
            ReplyBody::Empty => ReplyBodyView::Empty,
            ReplyBody::Message(message) => ReplyBodyView::Message(message@),
            ReplyBody::Post(post) => ReplyBodyView::Post(post@),
            ReplyBody::Posts(posts) => ReplyBodyView::Posts(posts@),
        }
    }
}

/// An HTTP reply: the status code and the body, which is sent as JSON.
#[derive(Clone, Debug, PartialEq, Eq)]
pub struct HttpReply {
    pub status: u16,
    pub body: ReplyBody,
}

/// An `HttpReply` by the view of its body.
pub struct HttpReplyView {
    pub status: u16,
    pub body: ReplyBodyView,
}

impl View for HttpReply {
    type V = HttpReplyView;

    open spec fn view(&self) -> HttpReplyView {
        HttpReplyView { status: self.status, body: self.body@ }
    }
}

/// The number that a cast of `value` to `i64` gives: `value` itself where it
/// fits, else `value` less two to the power of sixty-four.
pub open spec fn as_signed(value: usize) -> i64 {
    if value <= i64::MAX {
        value as i64
    } else {
        (value - 0x1_0000_0000_0000_0000) as i64
    }
}

/// The limit and the page of a listing: what the client names, ten posts to
/// the page and the first page where it names none, each cast to `i64`.
pub open spec fn requested_page(options: Option<FilterOptions>) -> (i64, i64) {
    match options {
        Some(FilterOptions { page, limit }) => (
            as_signed(
                match limit {
                    Some(limit) => limit,
                    None => DEFAULT_LIMIT,
                },
            ),
            as_signed(
                match page {
                    Some(page) => page,
                    None => DEFAULT_PAGE,
                },
            ),
        ),
        None => (DEFAULT_LIMIT as i64, DEFAULT_PAGE as i64),
    }
}

/// The body that carries what a successful operation hands back.
pub open spec fn outcome_body(outcome: OutcomeView) -> ReplyBodyView {
    match outcome {
        OutcomeView::Post(post) => ReplyBodyView::Post(post),
        OutcomeView::List(posts) => ReplyBodyView::Posts(posts),
        OutcomeView::Deleted => ReplyBodyView::Empty,
        OutcomeView::Ready => ReplyBodyView::Empty,
    }
}

/// The reply that reports a fault: its status code, and its message under
/// the status `fail`.
pub open spec fn fault_reply(error: MyErrorView) -> HttpReplyView {
    HttpReplyView { status: error.status_code(), body: ReplyBodyView::Message(error.response()) }
}

/// The reply to a result: on success the status `success` and what the
/// operation handed back, on a fault the reply that reports it.
pub open spec fn reply_to(result: Result<OutcomeView, MyErrorView>, success: u16) -> HttpReplyView {
    match result {
        Ok(outcome) => HttpReplyView { status: success, body: outcome_body(outcome) },
        Err(error) => fault_reply(error),
    }
}

/// The reply to the result of a delete: on success no content, on a fault
/// the reply that reports it.
pub open spec fn reply_to_delete(result: Result<OutcomeView, MyErrorView>) -> HttpReplyView {
    match result {
        Ok(_) => HttpReplyView { status: STATUS_NO_CONTENT, body: ReplyBodyView::Empty },
        Err(error) => fault_reply(error),
    }
}

/// The reply of the health check.
pub open spec fn health_reply() -> HttpReplyView {
    HttpReplyView {
        status: STATUS_OK,
        body: ReplyBodyView::Message(
            GenericResponseView { status: "success"@, message: HEALTH_MESSAGE@ },
        ),
    }
}

/// Casts `value` to `i64` as `as` does.
fn to_signed(value: usize) -> (r: i64)
    ensures
        r == as_signed(value),
{
    let wide: u64 = value as u64;
    if wide <= 0x7fff_ffff_ffff_ffff {
        wide as i64
    } else {
        let high: u64 = wide - 0x8000_0000_0000_0000;
        let low: i64 = high as i64;
        low + i64::MIN
    }
}

/// The reply that reports a fault.
fn reply_fault(error: &MyError) -> (reply: HttpReply)
    ensures
        reply@ == fault_reply(error@),
{
    HttpReply { status: error.status_code(), body: ReplyBody::Message(error.response()) }
}

/// The reply to a result, with the status `success` where it is `Ok`.
fn reply(result: Result<Outcome, MyError>, success: u16) -> (reply: HttpReply)
    ensures
        reply@ == reply_to(crate::db::result_view(result), success),
{
    match result {
        Ok(Outcome::Post(post)) => HttpReply { status: success, body: ReplyBody::Post(post) },
        Ok(Outcome::List(posts)) => HttpReply { status: success, body: ReplyBody::Posts(posts) },
        Ok(Outcome::Deleted) => HttpReply { status: success, body: ReplyBody::Empty },
        Ok(Outcome::Ready) => HttpReply { status: success, body: ReplyBody::Empty },
        Err(error) => reply_fault(&error),
    }
}

/// Answers the health check: status 200, with the status `success` and the
/// message of the service.
pub fn health_checker_handler() -> (reply: HttpReply)
    ensures
        reply@ == health_reply(),
{
    HttpReply {
        status: STATUS_OK,
        body: ReplyBody::Message(
            GenericResponse { status: "success".to_owned(), message: HEALTH_MESSAGE.to_owned() },
        ),
    }
}

/// The limit and the page that a listing asks for: ten posts to the page
/// and the first page, unless the client names others.
pub fn page_request(options: Option<FilterOptions>) -> (r: (i64, i64))
    ensures
        r == requested_page(options),
{
    match options {
        Some(options) => {
            let limit = match options.limit {
                Some(limit) => limit,
                None => DEFAULT_LIMIT,
            };
            let page = match options.page {
                Some(page) => page,
                None => DEFAULT_PAGE,
            };
            (to_signed(limit), to_signed(page))
        },
        None => (to_signed(DEFAULT_LIMIT), to_signed(DEFAULT_PAGE)),
    }
}

/// Answers a listing: status 200 with the page, or the reply that reports
/// the fault.
pub fn post_list_handler(result: Result<Outcome, MyError>) -> (reply: HttpReply)
    ensures
        reply@ == reply_to(crate::db::result_view(result), STATUS_OK),
{
    self::reply(result, STATUS_OK)
}

/// Answers a create: status 201 with the new post, or the reply that
/// reports the fault.
pub fn create_post_handler(result: Result<Outcome, MyError>) -> (reply: HttpReply)
    ensures
        reply@ == reply_to(crate::db::result_view(result), STATUS_CREATED),
{
    self::reply(result, STATUS_CREATED)
}

/// Answers a read: status 200 with the post, or the reply that reports the
/// fault.
pub fn get_post_handler(result: Result<Outcome, MyError>) -> (reply: HttpReply)
    ensures
        reply@ == reply_to(crate::db::result_view(result), STATUS_OK),
{
    self::reply(result, STATUS_OK)
}

/// Answers a change: status 200 with the post as it is afterwards, or the
/// reply that reports the fault.
pub fn edit_post_handler(result: Result<Outcome, MyError>) -> (reply: HttpReply)
    ensures
        reply@ == reply_to(crate::db::result_view(result), STATUS_OK),
{
    self::reply(result, STATUS_OK)
}

/// Answers a delete: status 204 without a body, or the reply that reports
/// the fault.
pub fn delete_post_handler(result: Result<Outcome, MyError>) -> (reply: HttpReply)
    ensures
        reply@ == reply_to_delete(crate::db::result_view(result)),
{
    match result {
        Ok(_) => HttpReply { status: STATUS_NO_CONTENT, body: ReplyBody::Empty },
        Err(error) => reply_fault(&error),
    }
}

} // verus!

//! The laws of the service: what holds of its operations whatever the store
//! answers, and what holds of them when the store answers as
//! `collection::answer` says.

use crate::collection::{
    answer, changed, consistent, holds_id, holds_title, position, possible, stored,
    title_taken_elsewhere, window, Chance, Posts,
};
use crate::db::{
    begin_create, begin_delete, begin_edit, begin_fetch, begin_get, begin_setup, new_document,
    next_step, page_skip, post_response, post_responses, OutcomeView, PendingView, StepView,
    NO_SUCH_PAGE,
};
use crate::error::{is_duplicate_key_text, MyErrorView};
use crate::handler::{reply_to, reply_to_delete, ReplyBodyView, STATUS_CREATED, STATUS_OK};
use crate::ident::{hex_decode, hex_encode, is_hex_id, lemma_hex_round_trip};
use crate::response::{post_list, single_post};
use crate::schema::{CreatePostSchemaView, UpdatePostSchemaView};
use crate::store::{StoreCallView, StoreEventView};
use vstd::prelude::*;

verus! {

/// One exchange: the store answers the call of `step`, and the operation
/// takes the answer. A step that has ended stays as it is.
pub open spec fn advance(step: StepView, posts: Posts, chance: Chance) -> (StepView, Posts) {
    match step {
        StepView::Done(_) => (step, posts),
        StepView::Call(call, pending) => {
            let (event, after) = answer(posts, call, chance);
            (next_step(pending, event), after)
        },
    }
}

/// Two exchanges in a row: enough for every operation to end.
pub open spec fn complete(step: StepView, posts: Posts, chance: Chance) -> (StepView, Posts) {
    let (first, after) = advance(step, posts, chance);
    advance(first, after, chance)
}

/// The number of calls that an operation may still make.
pub open spec fn calls_left(step: StepView) -> nat {
    match step {
        StepView::Done(_) => 0,
        StepView::Call(_, PendingView::Insert) => 2,
        StepView::Call(_, _) => 1,
    }
}

/// Whatever the store answers, each answer brings an operation closer to its
/// end, and no operation makes more than two calls.
pub proof fn law_every_answer_brings_the_end_closer(
    call: StoreCallView,
    pending: PendingView,
    event: StoreEventView,
)
    ensures
        calls_left(next_step(pending, event)) < calls_left(StepView::Call(call, pending)) <= 2,
{
}

/// With the place of a post known, the store finds the post there.
proof fn lemma_position(posts: Posts, at: int)
    requires
        consistent(posts),
        0 <= at < posts.len(),
    ensures
        holds_id(posts, posts[at].id),
        position(posts, posts[at].id) == at,
{
    let id = posts[at].id;
    assert(posts[at].id == id);
    let found = position(posts, id);
    assert(0 <= found < posts.len() && posts[found].id == id);
    if found < at {
        assert(posts[found].id != posts[at].id);
    } else if at < found {
        assert(posts[at].id != posts[found].id);
    }
}

/// A post that is created under a title that no post has is stored, and is
/// handed back: under the identifier that the store gave it, with the texts
/// of the client, published only if the client said so, and with both times
/// equal to the time of the create. Reading the post by the identifier that
/// was handed back gives the same post again.
pub proof fn law_created_post_is_read_back(
    posts: Posts,
    body: CreatePostSchemaView,
    now: i64,
    chance: Chance,
    later: Chance,
)
    requires
        consistent(posts),
        possible(chance, posts),
        !holds_title(posts, body.title),
    ensures
        ({
            let (end, after) = complete(begin_create(body, now), posts, chance);
            let post = stored(chance.fresh_id, new_document(body, false, now));
            &&& end == StepView::Done(Ok(OutcomeView::Post(single_post(post_response(post)))))
            &&& post_response(post).id == hex_encode(chance.fresh_id)
            &&& post_response(post).title == body.title
            &&& post_response(post).body == body.body
            &&& post_response(post).author == body.author
            &&& post_response(post).published == (body.published == Some(true))
            &&& post_response(post).created_at == now
            &&& post_response(post).updated_at == now
            &&& after == posts.push(post)
            &&& consistent(after)
            &&& complete(begin_get(post_response(post).id), after, later) == (end, after)
        }),
{
    let post = stored(chance.fresh_id, new_document(body, false, now));
    let after = posts.push(post);
    let last = posts.len() as int;
    assert(after[last] == post);
    assert(consistent(after)) by {
        assert forall|i: int, j: int| 0 <= i < j < after.len() implies {
            &&& (#[trigger] after[i]).id != (#[trigger] after[j]).id
            &&& after[i].title != after[j].title
        } by {
            if j == last {
                assert(after[i] == posts[i]);
                assert(posts[i].id != chance.fresh_id);
                assert(posts[i].title != body.title);
            } else {
                assert(after[i] == posts[i]);
                assert(after[j] == posts[j]);
            }
        }
        assert forall|i: int| 0 <= i < after.len() implies (#[trigger] after[i]).id.len() == 12 by {
            if i < last {
                assert(after[i] == posts[i]);
            }
        }
    }
    lemma_position(after, last);
    lemma_hex_round_trip(chance.fresh_id);
}

/// A create under a title that a post already has ends as a duplicate, in the
/// words of the store, and leaves every post as it was.
pub proof fn law_duplicate_title_is_refused(
    posts: Posts,
    body: CreatePostSchemaView,
    now: i64,
    chance: Chance,
)
    requires
        possible(chance, posts),
        holds_title(posts, body.title),
    ensures
        complete(begin_create(body, now), posts, chance) == (
            StepView::Done(Err(MyErrorView::MongoDuplicateError(chance.fault))),
            posts,
        ),
{
}

/// An identifier that is not twenty-four hexadecimal digits ends get, edit
/// and delete at once, as an invalid identifier in the words of the caller:
/// no call is made.
pub proof fn law_unreadable_id_makes_no_call(id: Seq<char>, change: UpdatePostSchemaView)
    requires
        !is_hex_id(id),
    ensures
        begin_get(id) == StepView::Done(Err(MyErrorView::InvalidIDError(id))),
        begin_edit(id, change) == StepView::Done(Err(MyErrorView::InvalidIDError(id))),
        begin_delete(id) == StepView::Done(Err(MyErrorView::InvalidIDError(id))),
{
}

/// Reading a post under an identifier that is well formed and that no post
/// has ends as not found, with the identifier in the words of the caller.
pub proof fn law_absent_post_is_not_found(posts: Posts, id: Seq<char>, chance: Chance)
    requires
        is_hex_id(id),
        !holds_id(posts, hex_decode(id)),
    ensures
        complete(begin_get(id), posts, chance) == (
            StepView::Done(Err(MyErrorView::NotFoundError(id))),
            posts,
        ),
{
}

/// An edit sets the fields that it names and no other: the post that is
/// handed back, and stored in the place of the old one, has each named field
/// as the edit gives it and each other field, the identifier and both times
/// as before. Every other post stays as it was.
pub proof fn law_edit_sets_only_the_named_fields(
    posts: Posts,
    at: int,
    id: Seq<char>,
    change: UpdatePostSchemaView,
    chance: Chance,
)
    requires
        consistent(posts),
        0 <= at < posts.len(),
        is_hex_id(id),
        hex_decode(id) == posts[at].id,
        change.title is Some ==> !title_taken_elsewhere(posts, at, change.title->0),
    ensures
        ({
            let (end, after) = complete(begin_edit(id, change), posts, chance);
            let before = posts[at];
            let post = changed(before, change);
            &&& end == StepView::Done(Ok(OutcomeView::Post(single_post(post_response(post)))))
            &&& after == posts.update(at, post)
            &&& consistent(after)
            &&& post.id == before.id
            &&& post.created_at == before.created_at
            &&& post.updated_at == before.updated_at
            &&& post.title == if change.title is Some {
                change.title->0
            } else {
                before.title
            }
            &&& post.body == if change.body is Some {
                change.body->0
            } else {
                before.body
            }
            &&& post.author == if change.author is Some {
                change.author->0
            } else {
                before.author
            }
            &&& post.published == if change.published is Some {
                change.published
            } else {
                before.published
            }
        }),
{
    lemma_position(posts, at);
    let post = changed(posts[at], change);
    let after = posts.update(at, post);
    assert forall|i: int, j: int| 0 <= i < j < after.len() implies {
        &&& (#[trigger] after[i]).id != (#[trigger] after[j]).id
        &&& after[i].title != after[j].title
    } by {
        assert(posts[i].id != posts[j].id);
        assert(posts[i].title != posts[j].title);
        if i == at {
            assert(after[j] == posts[j]);
        } else if j == at {
            assert(after[i] == posts[i]);
        } else {
            assert(after[i] == posts[i]);
            assert(after[j] == posts[j]);
        }
    }
    assert forall|i: int| 0 <= i < after.len() implies (#[trigger] after[i]).id.len() == 12 by {
        assert(posts[i].id.len() == 12);
    }
}

/// A delete removes the post; a second delete of the same identifier ends as
/// not found, and removes nothing.
pub proof fn law_second_delete_finds_nothing(
    posts: Posts,
    at: int,
    id: Seq<char>,
    chance: Chance,
    later: Chance,
)
    requires
        consistent(posts),
        0 <= at < posts.len(),
        is_hex_id(id),
        hex_decode(id) == posts[at].id,
    ensures
        ({
            let (end, after) = complete(begin_delete(id), posts, chance);
            &&& end == StepView::Done(Ok(OutcomeView::Deleted))
            &&& after == posts.remove(at)
            &&& consistent(after)
            &&& !holds_id(after, hex_decode(id))
            &&& complete(begin_delete(id), after, later) == (
                StepView::Done(Err(MyErrorView::NotFoundError(id))),
                after,
            )
        }),
{
    lemma_position(posts, at);
    let after = posts.remove(at);
    assert forall|i: int, j: int| 0 <= i < j < after.len() implies {
        &&& (#[trigger] after[i]).id != (#[trigger] after[j]).id
        &&& after[i].title != after[j].title
    } by {
        let from_i = if i < at { i } else { i + 1 };
        let from_j = if j < at { j } else { j + 1 };
        assert(after[i] == posts[from_i]);
        assert(after[j] == posts[from_j]);
        assert(posts[from_i].id != posts[from_j].id);
        assert(posts[from_i].title != posts[from_j].title);
    }
    assert forall|i: int| 0 <= i < after.len() implies (#[trigger] after[i]).id.len() == 12 by {
        let from_i = if i < at { i } else { i + 1 };
        assert(after[i] == posts[from_i]);
        assert(posts[from_i].id.len() == 12);
    }
    assert(!holds_id(after, posts[at].id)) by {
        assert forall|i: int| 0 <= i < after.len() implies (#[trigger] after[i]).id
            != posts[at].id by {
            let from_i = if i < at { i } else { i + 1 };
            assert(after[i] == posts[from_i]);
            if from_i < at {
                assert(posts[from_i].id != posts[at].id);
            } else {
                assert(posts[at].id != posts[from_i].id);
            }
        }
    }
}

/// A listing with a positive limit reads one page: the posts from place
/// `(page - 1) * limit` on, at most `limit` of them and no more than are
/// left, in the order of the store, with their number. It changes nothing.
pub proof fn law_fetch_reads_one_page(posts: Posts, limit: i64, page: i64, chance: Chance)
    requires
        limit > 0,
        page >= 1,
        (page - 1) * limit <= i64::MAX,
    ensures
        ({
            let first: int = (page - 1) * limit;
            let from: int = if first <= posts.len() {
                first
            } else {
                posts.len() as int
            };
            let to: int = if first + limit <= posts.len() {
                first + limit
            } else {
                posts.len() as int
            };
            &&& page_skip(limit as int, page as int) == Some(first as u64)
            &&& complete(begin_fetch(limit, page), posts, chance) == (
                StepView::Done(
                    Ok(OutcomeView::List(post_list(post_responses(posts.subrange(from, to))))),
                ),
                posts,
            )
        }),
{
    let first: int = (page - 1) * limit;
    assert(0 <= first) by (nonlinear_arith)
        requires
            first == (page - 1) * limit,
            limit > 0,
            page >= 1,
    ;
}

/// A listing with a limit or a page below one, or with more posts before
/// the page than `i64::MAX`, is refused as a query fault before any call.
/// Every listing for which the number of posts before the page is negative
/// is among them.
pub proof fn law_page_out_of_reach_is_refused(limit: i64, page: i64)
    requires
        limit < 1 || page < 1 || (page - 1) * limit < 0 || (page - 1) * limit > i64::MAX,
    ensures
        begin_fetch(limit, page) == StepView::Done(
            Err(MyErrorView::MongoQueryError(NO_SUCH_PAGE@)),
        ),
{
    if limit >= 1 && page >= 1 {
        assert((page - 1) * limit >= 0) by (nonlinear_arith)
            requires
                limit >= 1,
                page >= 1,
        ;
    }
}

/// A listing changes no post, whatever limit and page it names.
pub proof fn law_listing_writes_nothing(posts: Posts, limit: i64, page: i64, chance: Chance)
    ensures
        complete(begin_fetch(limit, page), posts, chance).1 == posts,
        complete(begin_fetch(limit, page), posts, chance).0 is Done,
{
}

/// The second page of two posts each holds the third and the fourth post of
/// the store where it has four or more; the third alone where it has three;
/// and nothing, with a count of zero, where it has two or fewer.
pub proof fn law_second_page_of_two(posts: Posts, chance: Chance)
    requires
        posts.len() <= usize::MAX,
    ensures
        ({
            let (end, after) = complete(begin_fetch(2, 2), posts, chance);
            &&& after == posts
            &&& end matches StepView::Done(Ok(OutcomeView::List(list)))
            &&& list.status == "success"@
            &&& list.results == list.posts.len()
            &&& posts.len() >= 4 ==> list.posts == seq![
                post_response(posts[2]),
                post_response(posts[3]),
            ]
            &&& posts.len() == 3 ==> list.posts == seq![post_response(posts[2])]
            &&& posts.len() <= 2 ==> list.posts == Seq::<crate::response::PostResponseView>::empty()
                && list.results == 0
        }),
{
    law_fetch_reads_one_page(posts, 2, 2, chance);
    assert((2 - 1) * 2 == 2);
    let (end, after) = complete(begin_fetch(2, 2), posts, chance);
    let list = post_list(post_responses(window(posts, 2, 2)));
    if posts.len() >= 4 {
        assert(list.posts =~= seq![post_response(posts[2]), post_response(posts[3])]);
    } else if posts.len() == 3 {
        assert(list.posts =~= seq![post_response(posts[2])]);
    } else {
        assert(list.posts =~= Seq::<crate::response::PostResponseView>::empty());
    }
}

/// The step that follows `step` when the store answers `event`, whatever the
/// store holds. A step that has ended stays as it is.
pub open spec fn take(step: StepView, event: StoreEventView) -> StepView {
    match step {
        StepView::Done(_) => step,
        StepView::Call(_, pending) => next_step(pending, event),
    }
}

/// The result with which a step has ended.
pub open spec fn result_of(step: StepView) -> Result<OutcomeView, MyErrorView>
    recommends
        step is Done,
{
    step->Done_0
}

/// A fault of the store ends the operation at once, in the words of the
/// store: as a duplicate where a post was being inserted and the words say
/// so, and as a query fault everywhere else. No fault is passed over and no
/// call is made again.
pub proof fn law_a_fault_of_the_store_ends_the_operation(pending: PendingView, text: Seq<char>)
    ensures
        next_step(pending, StoreEventView::Failed(text)) == StepView::Done(
            Err(
                if pending is Insert && is_duplicate_key_text(text) {
                    MyErrorView::MongoDuplicateError(text)
                } else {
                    MyErrorView::MongoQueryError(text)
                },
            ),
        ),
{
}

/// Whatever the store answers, setup ends with the first answer: as ready
/// where the index is ensured, and else as a query fault. Where the store
/// answers as expected, setup ends as ready and changes no post.
pub proof fn law_setup_ensures_the_index_once(
    event: StoreEventView,
    posts: Posts,
    chance: Chance,
)
    ensures
        take(begin_setup(), event) is Done,
        take(begin_setup(), StoreEventView::IndexEnsured) == StepView::Done(
            Ok(OutcomeView::Ready),
        ),
        event != StoreEventView::IndexEnsured ==> result_of(take(begin_setup(), event)) is Err,
        complete(begin_setup(), posts, chance) == (StepView::Done(Ok(OutcomeView::Ready)), posts),
{
}

/// Whatever the store answers, a create asks for one insert and then for at
/// most one read, of the post under the identifier that the store gave. It
/// never asks for an index.
pub proof fn law_create_asks_for_an_insert_and_a_read(
    body: CreatePostSchemaView,
    now: i64,
    first: StoreEventView,
)
    ensures
        begin_create(body, now) matches StepView::Call(call, _) && call
            == StoreCallView::InsertOne(new_document(body, false, now)),
        take(begin_create(body, now), first) matches StepView::Call(call, pending) ==> {
            &&& first matches StoreEventView::Inserted(id)
            &&& call == StoreCallView::FindOne(id)
            &&& pending == PendingView::Reread(id)
        },
{
}

/// Whatever the store answers, a create ends within two answers, and is
/// then replied to with 201 and a post, or with 409, 404 or 500 and a
/// message.
pub proof fn law_replies_to_create(
    body: CreatePostSchemaView,
    now: i64,
    first: StoreEventView,
    second: StoreEventView,
)
    ensures
        ({
            let end = take(take(begin_create(body, now), first), second);
            let reply = reply_to(result_of(end), STATUS_CREATED);
            &&& end is Done
            &&& reply.status == 201 && reply.body is Post || (reply.status == 409 || reply.status
                == 404 || reply.status == 500) && reply.body is Message
        }),
{
}

/// Whatever the store answers, a read and a change end with the first
/// answer, and are then replied to with 200 and a post, or with 404 or 500
/// and a message. With an identifier that cannot be read they end before any
/// call, and are replied to with 400 and a message.
pub proof fn law_replies_to_get_and_edit(
    id: Seq<char>,
    change: UpdatePostSchemaView,
    event: StoreEventView,
)
    ensures
        ({
            let read = take(begin_get(id), event);
            let edit = take(begin_edit(id, change), event);
            let reply = reply_to(result_of(read), STATUS_OK);
            let edit_reply = reply_to(result_of(edit), STATUS_OK);
            &&& read is Done
            &&& edit == read
            &&& !is_hex_id(id) ==> reply.status == 400 && reply.body is Message
            &&& is_hex_id(id) ==> reply.status == 200 && reply.body is Post || (reply.status == 404
                || reply.status == 500) && reply.body is Message
            &&& edit_reply == reply
        }),
{
}

/// Whatever the store answers, a delete ends with the first answer, and is
/// then replied to with 204 and no body, or with 404 or 500 and a message.
/// With an identifier that cannot be read it ends before any call, and is
/// replied to with 400 and a message.
pub proof fn law_replies_to_delete(id: Seq<char>, event: StoreEventView)
    ensures
        ({
            let end = take(begin_delete(id), event);
            let reply = reply_to_delete(result_of(end));
            &&& end is Done
            &&& !is_hex_id(id) ==> reply.status == 400 && reply.body is Message
            &&& is_hex_id(id) ==> reply.status == 204 && reply.body == ReplyBodyView::Empty
                || (reply.status == 404 || reply.status == 500) && reply.body is Message
        }),
{
}

/// Whatever the store answers, a listing ends with the first answer, and is
/// then replied to with 200 and a page, or with 500 and a message.
pub proof fn law_replies_to_list(limit: i64, page: i64, event: StoreEventView)
    ensures
        ({
            let end = take(begin_fetch(limit, page), event);
            let reply = reply_to(result_of(end), STATUS_OK);
            &&& end is Done
            &&& reply.status == 200 && reply.body is Posts || reply.status == 500
                && reply.body is Message
        }),
{
}

} // verus!

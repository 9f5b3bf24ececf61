use post_service::db::Outcome;
use post_service::error::MyError;
use post_service::handler::{
    create_post_handler, delete_post_handler, edit_post_handler, get_post_handler,
    health_checker_handler, page_request, post_list_handler, HttpReply, ReplyBody,
};
use post_service::response::{
    GenericResponse, PostData, PostListResponse, PostResponse, SinglePostResponse,
};
use post_service::schema::FilterOptions;

fn post() -> SinglePostResponse {
    SinglePostResponse {
        status: "success",
        data: PostData {
            post: PostResponse {
                id: "650abc0123456789abcdefff".to_string(),
                title: "A".to_string(),
                body: "b".to_string(),
                author: "a".to_string(),
                published: false,
                createdAt: 5,
                updatedAt: 5,
            },
        },
    }
}

fn list() -> PostListResponse {
    PostListResponse { status: "success", results: 1, posts: vec![post().data.post] }
}

fn fault(status: u16, message: &str) -> HttpReply {
    HttpReply {
        status,
        body: ReplyBody::Message(GenericResponse {
            status: "fail".to_string(),
            message: message.to_string(),
        }),
    }
}

#[test]
fn health_check_answers_with_the_message_of_the_service() {
    assert_eq!(
        health_checker_handler(),
        HttpReply {
            status: 200,
            body: ReplyBody::Message(GenericResponse {
                status: "success".to_string(),
                message: "RESTful API in Rust using Axum Framework and MongoDB".to_string(),
            }),
        }
    );
}

#[test]
fn page_request_defaults_to_the_first_page_of_ten() {
    assert_eq!(page_request(None), (10, 1));
    assert_eq!(page_request(Some(FilterOptions { page: None, limit: None })), (10, 1));
}

#[test]
fn page_request_takes_what_the_client_names() {
    assert_eq!(page_request(Some(FilterOptions { page: Some(2), limit: Some(2) })), (2, 2));
    assert_eq!(page_request(Some(FilterOptions { page: Some(3), limit: None })), (10, 3));
    assert_eq!(page_request(Some(FilterOptions { page: None, limit: Some(25) })), (25, 1));
    assert_eq!(page_request(Some(FilterOptions { page: Some(0), limit: Some(0) })), (0, 0));
}

#[test]
fn page_request_casts_as_the_language_does() {
    let huge = usize::MAX;
    let half = usize::MAX / 2 + 1;
    assert_eq!(
        page_request(Some(FilterOptions { page: Some(huge), limit: Some(half) })),
        (half as i64, huge as i64)
    );
    assert_eq!(
        page_request(Some(FilterOptions { page: Some(half - 1), limit: Some(half - 1) })),
        ((half - 1) as i64, (half - 1) as i64)
    );
}

#[test]
fn list_handler_answers_200_with_the_page() {
    assert_eq!(
        post_list_handler(Ok(Outcome::List(list()))),
        HttpReply { status: 200, body: ReplyBody::Posts(list()) }
    );
}

#[test]
fn list_handler_reports_a_fault_of_the_store_as_500() {
    assert_eq!(
        post_list_handler(Err(MyError::MongoQueryError("cursor lost".to_string()))),
        fault(500, "cursor lost")
    );
}

#[test]
fn create_handler_answers_201_with_the_post() {
    assert_eq!(
        create_post_handler(Ok(Outcome::Post(post()))),
        HttpReply { status: 201, body: ReplyBody::Post(post()) }
    );
}

#[test]
fn create_handler_reports_a_duplicate_as_409() {
    assert_eq!(
        create_post_handler(Err(MyError::MongoDuplicateError("E11000 ...".to_string()))),
        fault(409, "Post with that title already exists")
    );
    assert_eq!(
        create_post_handler(Err(MyError::MongoQueryError("down".to_string()))),
        fault(500, "down")
    );
}

#[test]
fn get_handler_answers_200_with_the_post() {
    assert_eq!(
        get_post_handler(Ok(Outcome::Post(post()))),
        HttpReply { status: 200, body: ReplyBody::Post(post()) }
    );
}

#[test]
fn get_handler_reports_an_invalid_identifier_as_400_and_a_missing_post_as_404() {
    assert_eq!(
        get_post_handler(Err(MyError::InvalidIDError("not-an-id".to_string()))),
        fault(400, "invalid ID: not-an-id")
    );
    assert_eq!(
        get_post_handler(Err(MyError::NotFoundError("650abc0123456789abcdefff".to_string()))),
        fault(404, "Post with ID: 650abc0123456789abcdefff not found")
    );
}

#[test]
fn edit_handler_answers_200_with_the_post() {
    assert_eq!(
        edit_post_handler(Ok(Outcome::Post(post()))),
        HttpReply { status: 200, body: ReplyBody::Post(post()) }
    );
    assert_eq!(
        edit_post_handler(Err(MyError::NotFoundError("abc".to_string()))),
        fault(404, "Post with ID: abc not found")
    );
}

#[test]
fn delete_handler_answers_204_without_a_body() {
    assert_eq!(
        delete_post_handler(Ok(Outcome::Deleted)),
        HttpReply { status: 204, body: ReplyBody::Empty }
    );
}

#[test]
fn delete_handler_reports_faults() {
    assert_eq!(
        delete_post_handler(Err(MyError::NotFoundError("abc".to_string()))),
        fault(404, "Post with ID: abc not found")
    );
    assert_eq!(
        delete_post_handler(Err(MyError::InvalidIDError("abc".to_string()))),
        fault(400, "invalid ID: abc")
    );
    assert_eq!(
        delete_post_handler(Err(MyError::MongoSerializeBsonError("bad".to_string()))),
        fault(500, "bad")
    );
}

#[test]
fn handlers_carry_whatever_a_success_holds() {
    assert_eq!(
        get_post_handler(Ok(Outcome::Deleted)),
        HttpReply { status: 200, body: ReplyBody::Empty }
    );
    assert_eq!(
        delete_post_handler(Ok(Outcome::Post(post()))),
        HttpReply { status: 204, body: ReplyBody::Empty }
    );
    assert_eq!(
        get_post_handler(Ok(Outcome::Ready)),
        HttpReply { status: 200, body: ReplyBody::Empty }
    );
}

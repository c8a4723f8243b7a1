use posts_api::db::DbError;
use posts_api::handlers::{
    create_post, hello, list_posts, Body, Response, CREATED, INTERNAL_SERVER_ERROR, OK,
};
use posts_api::models::Post;

fn failure() -> DbError {
    DbError { message: "connection closed".to_string() }
}

#[test]
fn status_constants_have_their_standard_values() {
    assert_eq!(OK, 200);
    assert_eq!(CREATED, 201);
    assert_eq!(INTERNAL_SERVER_ERROR, 500);
}

#[test]
fn hello_answers_hello() {
    assert_eq!(hello(), Response { status: 200, body: Body::Text("hello".to_string()) });
}

#[test]
fn hello_answers_the_same_every_time() {
    assert_eq!(hello(), hello());
}

#[test]
fn a_stored_post_is_answered_with_created() {
    assert_eq!(create_post(Ok(1)), Response { status: 201, body: Body::Empty });
    assert_eq!(create_post(Ok(0)), Response { status: 201, body: Body::Empty });
    assert_eq!(create_post(Ok(u64::MAX)), Response { status: 201, body: Body::Empty });
}

#[test]
fn a_failed_insert_is_answered_with_a_server_error() {
    assert_eq!(create_post(Err(failure())), Response { status: 500, body: Body::Empty });
}

#[test]
fn listed_posts_are_answered_in_their_order() {
    let posts = vec![
        Post { id: 2, author: "b".to_string(), message: "second".to_string() },
        Post { id: 1, author: "a".to_string(), message: "first".to_string() },
    ];
    assert_eq!(
        list_posts(Ok(posts.clone())),
        Response { status: 200, body: Body::Posts(posts) }
    );
}

#[test]
fn an_empty_listing_is_an_empty_array() {
    assert_eq!(list_posts(Ok(vec![])), Response { status: 200, body: Body::Posts(vec![]) });
}

#[test]
fn a_failed_listing_is_answered_with_ok_and_a_message() {
    assert_eq!(
        list_posts(Err(failure())),
        Response { status: 200, body: Body::Text("error retrieving posts".to_string()) }
    );
}

#[test]
fn a_failure_is_surfaced_unevenly() {
    let stored = create_post(Err(failure()));
    let listed = list_posts(Err(failure()));
    assert_eq!(stored.status, 500);
    assert_eq!(listed.status, 200);
    assert_ne!(stored.status, listed.status);
    assert!(matches!(listed.body, Body::Text(_)));
    assert_eq!(stored.body, Body::Empty);
}

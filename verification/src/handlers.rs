//! The handlers: what is answered on each route, given what the
//! persistence layer reported.
//!
//! A handler builds the whole answer but does not write it out: the body is
//! kept as the value that is to be sent as JSON.

use vstd::prelude::*;
use crate::db::DbError;
use crate::models::{Post, PostView};

verus! {

/// 200 OK
pub const OK: u16 = 200;

/// 201 Created
pub const CREATED: u16 = 201;

/// 500 Internal Server Error
pub const INTERNAL_SERVER_ERROR: u16 = 500;

/// The body of a response.
#[derive(Debug, Clone, PartialEq, Eq)]
pub enum Body {
    /// No body at all.
    Empty,
    /// A JSON string.
    Text(String),
    /// A JSON array with one object for each post, in this order.
    Posts(Vec<Post>),
}

/// What a [`Body`] stands for.
pub enum BodyView {
    Empty,
    Text(Seq<char>),
    Posts(Seq<PostView>),
}

impl View for Body {
    type V = BodyView;

    open spec fn view(&self) -> BodyView {
        match self {
            Body::Empty => BodyView::Empty,
            Body::Text(text) => BodyView::Text(text@),
            Body::Posts(posts) => BodyView::Posts(posts.deep_view()),
        }
    }
}

/// A response: its status and its body.
#[derive(Debug, Clone, PartialEq, Eq)]
pub struct Response {
    pub status: u16,
    pub body: Body,
}

/// What a [`Response`] stands for.
pub struct ResponseView {
    pub status: u16,
    pub body: BodyView,
}

impl View for Response {
    type V = ResponseView;

    open spec fn view(&self) -> ResponseView {
        ResponseView { status: self.status, body: self.body@ }
    }
}

/// The answer of [`hello`].
pub open spec fn hello_reply() -> ResponseView {
    ResponseView { status: OK, body: BodyView::Text("hello"@) }
}

/// The answer of [`create_post`]: created where the post was stored, and a
/// server error where it was not. Neither has a body.
pub open spec fn create_post_reply(inserted: Result<u64, DbError>) -> ResponseView {
    match inserted {
        Ok(_) => ResponseView { status: CREATED, body: BodyView::Empty },
        Err(_) => ResponseView { status: INTERNAL_SERVER_ERROR, body: BodyView::Empty },
    }
}

/// The answer of [`list_posts`]: the posts where they were read, and a
/// fixed text where they were not. The status is 200 either way.
pub open spec fn list_posts_reply(listed: Result<Seq<PostView>, DbError>) -> ResponseView {
    match listed {
        Ok(posts) => ResponseView { status: OK, body: BodyView::Posts(posts) },
        Err(_) => ResponseView { status: OK, body: BodyView::Text("error retrieving posts"@) },
    }
}

/// What reading the posts gave, with the posts taken by what they stand for.
pub open spec fn listed_view(listed: Result<Vec<Post>, DbError>) -> Result<Seq<PostView>, DbError> {
    match listed {
        Ok(posts) => Ok(posts.deep_view()),
        Err(e) => Err(e),
    }
}

/// Answers `GET /hello`. It takes nothing, so the answer depends on
/// nothing: not on the database, nor on any request before.
pub fn hello() -> (response: Response)
    ensures
        response@ == hello_reply(),
{
    Response { status: OK, body: Body::Text(String::from_str("hello")) }
}

/// Answers `POST /post`, given what storing the post gave.
pub fn create_post(inserted: Result<u64, DbError>) -> (response: Response)
    ensures
        response@ == create_post_reply(inserted),
{
    match inserted {
        Ok(_) => Response { status: CREATED, body: Body::Empty },
        Err(_) => Response { status: INTERNAL_SERVER_ERROR, body: Body::Empty },
    }
}

/// Answers `GET /post`, given what reading the posts gave.
pub fn list_posts(listed: Result<Vec<Post>, DbError>) -> (response: Response)
    ensures
        response@ == list_posts_reply(listed_view(listed)),
{
    match listed {
        Ok(posts) => Response { status: OK, body: Body::Posts(posts) },
        Err(_) => Response {
            status: OK,
            body: Body::Text(String::from_str("error retrieving posts")),
        },
    }
}

/// When the database fails, the two routes that use it answer differently:
/// storing a post reports a server error, while listing the posts reports
/// success and puts a message where the posts would be.
pub proof fn lemma_failure_is_surfaced_unevenly(e: DbError)
    ensures
        create_post_reply(Err(e)).status == 500,
        create_post_reply(Err(e)).body == BodyView::Empty,
        list_posts_reply(Err(e)).status == 200,
        list_posts_reply(Err(e)).body == BodyView::Text("error retrieving posts"@),
        list_posts_reply(Err(e)).body !is Posts,
{
}

} // verus!

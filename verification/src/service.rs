//! One exchange, step by step: what is to be done next for a request, given
//! what the last step gave.
//!
//! The service itself reads no body and runs no statement. Each [`Step`]
//! names the work that its caller is to do, and the function that takes
//! what the work gave. [`Step::Respond`] and [`Step::Reject`] end the
//! exchange.

use vstd::prelude::*;
use crate::db::{DbContext, DbError, posts_of_rows, rows_hold_posts};
use crate::filters::{Method, Rejection, Request, RequestView, Route, body_gate, json_body,
    json_body_outcome, lemma_paths_are_distinct, path_names, posts, posts_route, BODY_LIMIT};
use crate::handlers::{Response, ResponseView, create_post, create_post_reply, hello,
    hello_reply, list_posts, list_posts_reply};
use crate::models::{Post, PostView, Row, SqlValueView, Statement, StatementView,
    insert_statement, select_all_statement};

verus! {

/// What is to be done next for a request.
#[derive(Debug, Clone, PartialEq, Eq)]
pub enum Step {
    /// Send this response.
    Respond(Response),
    /// Turn the request away for this reason.
    Reject(Rejection),
    /// Read the body as the JSON of a post, and go on with [`on_body`].
    ReadBody,
    /// Run this statement for the number of rows that it changes, and go on
    /// with [`on_inserted`].
    Execute(Statement),
    /// Run this statement for its rows, and go on with [`on_rows`].
    Query(Statement),
}

/// What a [`Step`] stands for.
pub enum StepView {
    Respond(ResponseView),
    Reject(Rejection),
    ReadBody,
    Execute(StatementView),
    Query(StatementView),
}

impl View for Step {
    type V = StepView;

    open spec fn view(&self) -> StepView {
        match self {
            Step::Respond(response) => StepView::Respond(response@),
            Step::Reject(rejection) => StepView::Reject(*rejection),
            Step::ReadBody => StepView::ReadBody,
            Step::Execute(statement) => StepView::Execute(statement@),
            Step::Query(statement) => StepView::Query(statement@),
        }
    }
}

/// The first step for a request, by the route that it takes.
pub open spec fn first_step(request: RequestView) -> StepView {
    match posts_route(request) {
        Err(rejection) => StepView::Reject(rejection),
        Ok(Route::Hello) => StepView::Respond(hello_reply()),
        Ok(Route::PostCreate) => StepView::ReadBody,
        Ok(Route::PostList) => StepView::Query(select_all_statement()),
    }
}

/// The step after the body was read. Only a request on its way to the
/// create handler has a use for a body: any other gets its first step
/// again, whatever the body.
pub open spec fn step_on_body(request: RequestView, decoded: Option<PostView>) -> StepView {
    if posts_route(request) == Ok::<Route, Rejection>(Route::PostCreate) {
        match json_body_outcome(request, decoded) {
            Err(rejection) => StepView::Reject(rejection),
            Ok(post) => StepView::Execute(insert_statement(post)),
        }
    } else {
        first_step(request)
    }
}

/// The step after the insert ran.
pub open spec fn step_on_inserted(inserted: Result<u64, DbError>) -> StepView {
    StepView::Respond(create_post_reply(inserted))
}

/// The step after the query ran.
pub open spec fn step_on_rows(queried: Result<Seq<Seq<SqlValueView>>, DbError>) -> StepView {
    StepView::Respond(
        list_posts_reply(
            match queried {
                Ok(rows) => Ok(posts_of_rows(rows)),
                Err(e) => Err(e),
            },
        ),
    )
}

/// What a query gave, with the rows taken by what they stand for.
pub open spec fn queried_view(queried: Result<Vec<Row>, DbError>) -> Result<
    Seq<Seq<SqlValueView>>,
    DbError,
> {
    match queried {
        Ok(rows) => Ok(rows.deep_view()),
        Err(e) => Err(e),
    }
}

/// Takes up a request.
pub fn begin<C>(db: &DbContext<C>, request: &Request) -> (step: Step)
    ensures
        step@ == first_step(request@),
{
    match posts(request) {
        Err(rejection) => Step::Reject(rejection),
        Ok(Route::Hello) => Step::Respond(hello()),
        Ok(Route::PostCreate) => Step::ReadBody,
        Ok(Route::PostList) => Step::Query(db.select_posts()),
    }
}

/// Goes on after [`Step::ReadBody`]. `decoded` is the post that the body
/// holds, `None` where it holds none.
pub fn on_body<C>(db: &DbContext<C>, request: &Request, decoded: Option<Post>) -> (step: Step)
    ensures
        step@ == step_on_body(request@, decoded.deep_view()),
{
    match posts(request) {
        Ok(Route::PostCreate) => match json_body(request, decoded) {
            Err(rejection) => Step::Reject(rejection),
            Ok(create) => Step::Execute(db.insert_post(&create)),
        },
        _ => begin(db, request),
    }
}

/// Goes on after [`Step::Execute`], with what running the statement gave.
pub fn on_inserted(inserted: Result<u64, DbError>) -> (step: Step)
    ensures
        step@ == step_on_inserted(inserted),
{
    Step::Respond(create_post(inserted))
}

/// Goes on after [`Step::Query`], with what running the statement gave.
pub fn on_rows<C>(db: &DbContext<C>, queried: Result<Vec<Row>, DbError>) -> (step: Step)
    requires
        queried matches Ok(rows) ==> rows_hold_posts(rows.deep_view()),
    ensures
        step@ == step_on_rows(queried_view(queried)),
{
    Step::Respond(list_posts(db.get_all_posts(queried)))
}

/// `GET /hello` is answered at once and with the same response every time:
/// no statement is run for it, so the answer cannot depend on the database.
pub proof fn lemma_hello_needs_no_database(request: RequestView)
    requires
        path_names(request.path, "hello"@),
        request.method == Method::Get,
    ensures
        first_step(request) == StepView::Respond(hello_reply()),
{
}

/// A request to store a post whose announced body is over the limit is
/// turned away as too large, at once and again should its body be handed in
/// all the same. Neither step runs a statement: no row is stored.
pub proof fn lemma_oversized_post_stores_nothing(request: RequestView, decoded: Option<PostView>)
    requires
        path_names(request.path, "post"@),
        request.method == Method::Post,
        request.content_length is Some,
        request.content_length->Some_0 > BODY_LIMIT,
    ensures
        first_step(request) == StepView::Reject(Rejection::PayloadTooLarge),
        step_on_body(request, decoded) == StepView::Reject(Rejection::PayloadTooLarge),
        Rejection::PayloadTooLarge.code() == 413,
{
    lemma_paths_are_distinct(request.path);
}

/// A request to store a post whose body is not the JSON of a post is
/// turned away with a client error, which is 400 where the head of the
/// request was in order. No statement is run for it: no row is stored.
pub proof fn lemma_malformed_post_stores_nothing(request: RequestView)
    requires
        path_names(request.path, "post"@),
        request.method == Method::Post,
    ensures
        step_on_body(request, None) is Reject,
        400 <= step_on_body(request, None)->Reject_0.code() < 500,
        body_gate(request) is Ok ==> step_on_body(request, None) == StepView::Reject(
            Rejection::InvalidBody,
        ) && Rejection::InvalidBody.code() == 400,
{
    lemma_paths_are_distinct(request.path);
}

/// An insert is run only for a request that the route table sends to the
/// create handler and whose body held a post, and then it is that post's
/// author and message that are stored.
pub proof fn lemma_only_a_decoded_post_is_stored(request: RequestView, decoded: Option<PostView>)
    ensures
        first_step(request) !is Execute,
        step_on_body(request, decoded) is Execute <==> posts_route(request) == Ok::<
            Route,
            Rejection,
        >(Route::PostCreate) && decoded is Some,
        step_on_body(request, decoded) is Execute ==> step_on_body(request, decoded)
            == StepView::Execute(insert_statement(decoded->Some_0)),
{
}

} // verus!

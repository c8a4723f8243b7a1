//! The route table: which request reaches which handler, and with what a
//! request that reaches none is turned away.
//!
//! A filter looks at the head of a request only. The body is read after a
//! route has been chosen, and [`json_body`] then judges what reading it gave.
//!
//! One thing is taken on trust here: how the value of a `Content-Type`
//! header is read as a media type. That is the `mime` crate's work; see
//! [`media_type_of`].

use vstd::prelude::*;
use crate::models::{Post, PostView};

verus! {

/// The largest body that a request may announce: 16 KiB.
pub const BODY_LIMIT: u64 = 16384;

/// The method of a request. `Other` stands for every method without a
/// variant of its own.
#[derive(Debug, Clone, Copy, PartialEq, Eq)]
pub enum Method {
    Get,
    Head,
    Post,
    Put,
    Delete,
    Connect,
    Options,
    Trace,
    Patch,
    Other,
}

/// The `Content-Type` header of a request.
#[derive(Debug, Clone, PartialEq, Eq)]
pub enum ContentType {
    /// The request has no such header.
    Absent,
    /// The value of the header.
    Value(String),
    /// The header is there, but its value is not text.
    Opaque,
}

/// What a [`ContentType`] stands for.
pub enum ContentTypeView {
    Absent,
    Value(Seq<char>),
    Opaque,
}

impl View for ContentType {
    type V = ContentTypeView;

    open spec fn view(&self) -> ContentTypeView {
        match self {
            ContentType::Absent => ContentTypeView::Absent,
            ContentType::Value(value) => ContentTypeView::Value(value@),
            ContentType::Opaque => ContentTypeView::Opaque,
        }
    }
}

/// The head of a request: its method, the path of its target without the
/// query, the length that it announces for its body, if any, and the media
/// type that it announces for it.
#[derive(Debug, Clone, PartialEq, Eq)]
pub struct Request {
    pub method: Method,
    pub path: String,
    pub content_length: Option<u64>,
    pub content_type: ContentType,
}

/// What a [`Request`] stands for.
pub struct RequestView {
    pub method: Method,
    pub path: Seq<char>,
    pub content_length: Option<u64>,
    pub content_type: ContentTypeView,
}

impl View for Request {
    type V = RequestView;

    open spec fn view(&self) -> RequestView {
        RequestView {
            method: self.method,
            path: self.path@,
            content_length: self.content_length,
            content_type: self.content_type@,
        }
    }
}

/// The handler that a request has reached.
#[derive(Debug, Clone, Copy, PartialEq, Eq)]
pub enum Route {
    /// `GET /hello`
    Hello,
    /// `POST /post`: the body is read next.
    PostCreate,
    /// `GET /post`
    PostList,
}

/// Why a request reached no handler.
#[derive(Debug, Clone, Copy, PartialEq, Eq)]
pub enum Rejection {
    /// No route has this path.
    NotFound,
    /// A route has this path, but not with this method.
    MethodNotAllowed,
    /// The body is not the JSON of a post.
    InvalidBody,
    /// The request announces no body length.
    LengthRequired,
    /// The request announces a body over the limit.
    PayloadTooLarge,
    /// The request announces a body that is not JSON.
    UnsupportedMediaType,
}

impl Rejection {
    /// The status that answers a request turned away for this reason.
    pub open spec fn code(self) -> u16 {
        match self {
            Rejection::NotFound => 404,
            Rejection::MethodNotAllowed => 405,
            Rejection::InvalidBody => 400,
            Rejection::LengthRequired => 411,
            Rejection::PayloadTooLarge => 413,
            Rejection::UnsupportedMediaType => 415,
        }
    }

    /// How much a reason says. That no route has the path says least, that
    /// the method is wrong says little more; among the others the greater
    /// status says more.
    pub open spec fn weight(self) -> int {
        match self {
            Rejection::NotFound => 0,
            Rejection::MethodNotAllowed => 1,
            _ => self.code() as int,
        }
    }

    /// Of two reasons, the one that says more; this one where they say the
    /// same.
    pub open spec fn preferred(self, earlier: Rejection) -> Rejection {
        if earlier.weight() > self.weight() {
            earlier
        } else {
            self
        }
    }

    /// The status that answers a request turned away for this reason.
    pub fn status(&self) -> (status: u16)
        ensures
            status == self.code(),
            400 <= status < 500,
    {
        match self {
            Rejection::NotFound => 404,
            Rejection::MethodNotAllowed => 405,
            Rejection::InvalidBody => 400,
            Rejection::LengthRequired => 411,
            Rejection::PayloadTooLarge => 413,
            Rejection::UnsupportedMediaType => 415,
        }
    }

    /// The one reason that is reported when a route turned the request away
    /// for this reason and a route tried before it did so for `earlier`.
    pub fn combine(self, earlier: Rejection) -> (reported: Rejection)
        ensures
            reported == self.preferred(earlier),
    {
        match (self, earlier) {
            (_, Rejection::NotFound) => self,
            (Rejection::NotFound, _) => earlier,
            (_, Rejection::MethodNotAllowed) => self,
            (Rejection::MethodNotAllowed, _) => earlier,
            _ => if self.status() < earlier.status() {
                earlier
            } else {
                self
            },
        }
    }
}

/// Whether `path` names the route `name`: one slash before the name is
/// skipped, and one slash after it is allowed.
pub open spec fn path_names(path: Seq<char>, name: Seq<char>) -> bool {
    let rest = if path.len() > 0 && path[0] == '/' {
        path.skip(1)
    } else {
        path
    };
    rest == name || rest == name.push('/')
}

/// What a limit says of an announced body length: a request that announces
/// none is turned away, and so is one that announces more than the limit.
pub open spec fn length_gate(limit: u64, content_length: Option<u64>) -> Result<(), Rejection> {
    match content_length {
        None => Err(Rejection::LengthRequired),
        Some(length) => if length <= limit {
            Ok(())
        } else {
            Err(Rejection::PayloadTooLarge)
        },
    }
}

// The type and the subtype that the `mime` crate reads from the value of a
// `Content-Type` header, or `None` where it reads no media type from it.
pub uninterp spec fn media_type_of(value: Seq<char>) -> Option<(Seq<char>, Seq<char>)>;

/// Whether a type and a subtype, as read from a header, are those of JSON.
pub open spec fn names_json(media_type: Option<(Seq<char>, Seq<char>)>) -> bool {
    media_type == Some(("application"@, "json"@))
}

/// What the `Content-Type` header says of a body that is to be JSON: a
/// request without the header is taken at its word, and one whose header
/// names another media type, or none that can be read, is turned away.
pub open spec fn media_gate(content_type: ContentTypeView) -> Result<(), Rejection> {
    match content_type {
        ContentTypeView::Absent => Ok(()),
        ContentTypeView::Value(value) => if names_json(media_type_of(value)) {
            Ok(())
        } else {
            Err(Rejection::UnsupportedMediaType)
        },
        ContentTypeView::Opaque => Err(Rejection::UnsupportedMediaType),
    }
}

/// What the head of a request says of its body, before the body is read:
/// the length is judged first, then the media type.
pub open spec fn body_gate(request: RequestView) -> Result<(), Rejection> {
    match length_gate(BODY_LIMIT, request.content_length) {
        Err(rejection) => Err(rejection),
        Ok(_) => media_gate(request.content_type),
    }
}

/// What [`hello`] decides.
pub open spec fn hello_route(request: RequestView) -> Result<Route, Rejection> {
    if !path_names(request.path, "hello"@) {
        Err(Rejection::NotFound)
    } else if request.method != Method::Get {
        Err(Rejection::MethodNotAllowed)
    } else {
        Ok(Route::Hello)
    }
}

/// What [`post_create`] decides.
pub open spec fn post_create_route(request: RequestView) -> Result<Route, Rejection> {
    if !path_names(request.path, "post"@) {
        Err(Rejection::NotFound)
    } else if request.method != Method::Post {
        Err(Rejection::MethodNotAllowed)
    } else {
        match body_gate(request) {
            Ok(_) => Ok(Route::PostCreate),
            Err(rejection) => Err(rejection),
        }
    }
}

/// What [`post_list`] decides.
pub open spec fn post_list_route(request: RequestView) -> Result<Route, Rejection> {
    if !path_names(request.path, "post"@) {
        Err(Rejection::NotFound)
    } else if request.method != Method::Get {
        Err(Rejection::MethodNotAllowed)
    } else {
        Ok(Route::PostList)
    }
}

/// The route table, read off directly: the path picks the row, the method
/// the column.
pub open spec fn posts_route(request: RequestView) -> Result<Route, Rejection> {
    if path_names(request.path, "hello"@) {
        match request.method {
            Method::Get => Ok(Route::Hello),
            _ => Err(Rejection::MethodNotAllowed),
        }
    } else if path_names(request.path, "post"@) {
        match request.method {
            Method::Get => Ok(Route::PostList),
            Method::Post => match body_gate(request) {
                Ok(_) => Ok(Route::PostCreate),
                Err(rejection) => Err(rejection),
            },
            _ => Err(Rejection::MethodNotAllowed),
        }
    } else {
        Err(Rejection::NotFound)
    }
}

/// What [`json_body`] decides: the head of the request is judged first, and
/// only then what decoding gave.
pub open spec fn json_body_outcome(request: RequestView, decoded: Option<PostView>) -> Result<
    PostView,
    Rejection,
> {
    match body_gate(request) {
        Err(rejection) => Err(rejection),
        Ok(_) => match decoded {
            None => Err(Rejection::InvalidBody),
            Some(post) => Ok(post),
        },
    }
}

/// No path names both routes.
pub proof fn lemma_paths_are_distinct(path: Seq<char>)
    ensures
        !(path_names(path, "hello"@) && path_names(path, "post"@)),
{
    reveal_strlit("hello");
    reveal_strlit("post");
    let rest = if path.len() > 0 && path[0] == '/' {
        path.skip(1)
    } else {
        path
    };
    if path_names(path, "hello"@) {
        assert(rest[0] == 'h');
        if path_names(path, "post"@) {
            assert(rest[0] == 'p');
        }
    }
}

/// Whether `path` names the route `name`.
fn names(path: &String, name: &str) -> (named: bool)
    ensures
        named == path_names(path@, name@),
{
    let rooted = !path.as_str().is_empty() && path.as_str().get_char(0) == '/';
    let plain = if rooted {
        String::from_str("/").concat(name)
    } else {
        String::from_str(name)
    };
    let slashed = plain.clone().concat("/");
    proof {
        reveal_strlit("/");
        assert(slashed@ =~= plain@.push('/'));
        if rooted {
            assert(path@ =~= seq!['/'] + path@.skip(1));
            assert(plain@ =~= seq!['/'] + name@);
            assert(slashed@ =~= seq!['/'] + name@.push('/'));
            assert(plain@.skip(1) =~= name@);
            assert(slashed@.skip(1) =~= name@.push('/'));
        }
    }
    *path == plain || *path == slashed
}

/// Matches a request whose body length is announced and is within `limit`.
pub fn content_length_limit(limit: u64, content_length: Option<u64>) -> (passed: Result<
    (),
    Rejection,
>)
    ensures
        passed == length_gate(limit, content_length),
{
    match content_length {
        None => Err(Rejection::LengthRequired),
        Some(length) => if length <= limit {
            Ok(())
        } else {
            Err(Rejection::PayloadTooLarge)
        },
    }
}

/// Reads the value of a `Content-Type` header with the `mime` crate's
/// parser, `Mime::from_str`, and hands out the type and the subtype that it
/// reports. Taken on trust: that they depend on `value` alone, which is what
/// gives them the name [`media_type_of`]. Nothing is claimed of what they
/// are.
#[verifier::external_body]
fn media_type(value: &str) -> (read: Option<(String, String)>)
    ensures
        read.deep_view() == media_type_of(value@),
{
    let parsed = value.parse::<mime::Mime>().ok()?;
    Some((parsed.type_().as_str().to_string(), parsed.subtype().as_str().to_string()))
}

/// Whether a type and a subtype, as read from a header, are those of JSON.
pub fn is_json(media_type: &Option<(String, String)>) -> (json: bool)
    ensures
        json == names_json(media_type.deep_view()),
{
    match media_type {
        None => false,
        Some((kind, subtype)) => *kind == String::from_str("application") && *subtype
            == String::from_str("json"),
    }
}

/// Matches a request that does not announce a body of another media type
/// than JSON.
pub fn content_type_json(content_type: &ContentType) -> (passed: Result<(), Rejection>)
    ensures
        passed == media_gate(content_type@),
{
    match content_type {
        ContentType::Absent => Ok(()),
        ContentType::Value(value) => if is_json(&media_type(value.as_str())) {
            Ok(())
        } else {
            Err(Rejection::UnsupportedMediaType)
        },
        ContentType::Opaque => Err(Rejection::UnsupportedMediaType),
    }
}

/// Judges the head of a request whose body is to be the JSON of a post.
fn body_announced(request: &Request) -> (passed: Result<(), Rejection>)
    ensures
        passed == body_gate(request@),
{
    match content_length_limit(BODY_LIMIT, request.content_length) {
        Err(rejection) => Err(rejection),
        Ok(_) => content_type_json(&request.content_type),
    }
}

/// The post of a request body. `decoded` is what reading the body as the
/// JSON of a post gave, `None` where it is none. The head of the request is
/// judged before that: a body over [`BODY_LIMIT`] is turned away whatever
/// it holds.
pub fn json_body(request: &Request, decoded: Option<Post>) -> (body: Result<Post, Rejection>)
    ensures
        match json_body_outcome(request@, decoded.deep_view()) {
            Ok(post) => body is Ok && body->Ok_0@ == post && Some(body->Ok_0) == decoded,
            Err(rejection) => body == Err::<Post, Rejection>(rejection),
        },
{
    match body_announced(request) {
        Err(rejection) => Err(rejection),
        Ok(_) => match decoded {
            None => Err(Rejection::InvalidBody),
            Some(post) => Ok(post),
        },
    }
}

/// `GET /hello`.
pub fn hello(request: &Request) -> (matched: Result<Route, Rejection>)
    ensures
        matched == hello_route(request@),
{
    if !names(&request.path, "hello") {
        return Err(Rejection::NotFound);
    }
    match request.method {
        Method::Get => Ok(Route::Hello),
        _ => Err(Rejection::MethodNotAllowed),
    }
}

/// `POST /post`, with a body of at most [`BODY_LIMIT`] bytes that is not
/// announced as anything but JSON.
pub fn post_create(request: &Request) -> (matched: Result<Route, Rejection>)
    ensures
        matched == post_create_route(request@),
{
    if !names(&request.path, "post") {
        return Err(Rejection::NotFound);
    }
    match request.method {
        Method::Post => {},
        _ => {
            return Err(Rejection::MethodNotAllowed);
        },
    }
    match body_announced(request) {
        Ok(_) => Ok(Route::PostCreate),
        Err(rejection) => Err(rejection),
    }
}

/// `GET /post`.
pub fn post_list(request: &Request) -> (matched: Result<Route, Rejection>)
    ensures
        matched == post_list_route(request@),
{
    if !names(&request.path, "post") {
        return Err(Rejection::NotFound);
    }
    match request.method {
        Method::Get => Ok(Route::PostList),
        _ => Err(Rejection::MethodNotAllowed),
    }
}

/// The whole table: the routes are tried in turn, and the first that
/// matches is taken. Where none matches, the reasons are combined into the
/// one that says most.
pub fn posts(request: &Request) -> (matched: Result<Route, Rejection>)
    ensures
        matched == posts_route(request@),
{
    proof {
        lemma_paths_are_distinct(request@.path);
    }
    let first = match hello(request) {
        Ok(route) => {
            return Ok(route);
        },
        Err(rejection) => rejection,
    };
    let second = match post_create(request) {
        Ok(route) => {
            return Ok(route);
        },
        Err(rejection) => rejection,
    };
    let third = match post_list(request) {
        Ok(route) => {
            return Ok(route);
        },
        Err(rejection) => rejection,
    };
    Err(third.combine(second.combine(first)))
}

} // verus!

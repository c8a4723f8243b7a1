//! The `Post` record, the values that travel to and from its table, and the
//! statements that touch that table.
//!
//! Nothing here talks to a database. A [`Statement`] says what is to be run;
//! a [`Row`] holds what came back. Whoever owns the connection runs the one
//! and hands over the other.

use vstd::prelude::*;

verus! {

/// The id that a post carries until the database has assigned one.
pub const UNSAVED_ID: i32 = -1;

/// One value of a statement's parameters or of a result row.
#[derive(Debug, Clone, PartialEq, Eq)]
pub enum SqlValue {
    Null,
    Int(i32),
    Text(String),
}

/// What a [`SqlValue`] stands for.
pub enum SqlValueView {
    Null,
    Int(i32),
    Text(Seq<char>),
}

impl View for SqlValue {
    type V = SqlValueView;

    open spec fn view(&self) -> SqlValueView {
        match self {
            SqlValue::Null => SqlValueView::Null,
            SqlValue::Int(n) => SqlValueView::Int(*n),
            SqlValue::Text(s) => SqlValueView::Text(s@),
        }
    }
}

impl DeepView for SqlValue {
    type V = SqlValueView;

    open spec fn deep_view(&self) -> SqlValueView {
        self@
    }
}

/// One row of a query's result: its values, in column order.
#[derive(Debug, Clone, PartialEq, Eq)]
pub struct Row {
    pub columns: Vec<SqlValue>,
}

impl View for Row {
    type V = Seq<SqlValueView>;

    open spec fn view(&self) -> Seq<SqlValueView> {
        self.columns.deep_view()
    }
}

impl DeepView for Row {
    type V = Seq<SqlValueView>;

    open spec fn deep_view(&self) -> Seq<SqlValueView> {
        self@
    }
}

/// A statement to run: its text, and the values bound to `$1`, `$2`, ...
/// in that order.
#[derive(Debug, Clone, PartialEq, Eq)]
pub struct Statement {
    pub sql: String,
    pub params: Vec<SqlValue>,
}

/// What a [`Statement`] stands for.
pub struct StatementView {
    pub sql: Seq<char>,
    pub params: Seq<SqlValueView>,
}

impl View for Statement {
    type V = StatementView;

    open spec fn view(&self) -> StatementView {
        StatementView { sql: self.sql@, params: self.params.deep_view() }
    }
}

/// One row of the `posts` table.
#[derive(Debug, Clone, PartialEq, Eq)]
pub struct Post {
    pub id: i32,
    pub author: String,
    pub message: String,
}

/// What a [`Post`] stands for.
pub struct PostView {
    pub id: i32,
    pub author: Seq<char>,
    pub message: Seq<char>,
}

impl View for Post {
    type V = PostView;

    open spec fn view(&self) -> PostView {
        PostView { id: self.id, author: self.author@, message: self.message@ }
    }
}

impl DeepView for Post {
    type V = PostView;

    open spec fn deep_view(&self) -> PostView {
        self@
    }
}

/// The text that creates the table, unless it is there already.
pub open spec fn create_table_sql() -> Seq<char> {
    "CREATE TABLE IF NOT EXISTS posts (id SERIAL PRIMARY KEY, author TEXT, message TEXT)"@
}

/// The text that stores one post.
pub open spec fn insert_sql() -> Seq<char> {
    "INSERT INTO posts (author, message) VALUES ($1, $2)"@
}

/// The text that reads every post.
pub open spec fn select_all_sql() -> Seq<char> {
    "SELECT id, author, message FROM posts"@
}

/// The text that removes the post with a given id.
pub open spec fn delete_sql() -> Seq<char> {
    "DELETE FROM posts WHERE id = $1"@
}

/// The statement that creates the table. It binds no values.
pub open spec fn create_table_statement() -> StatementView {
    StatementView { sql: create_table_sql(), params: Seq::empty() }
}

/// The statement that reads every post. It binds no values.
pub open spec fn select_all_statement() -> StatementView {
    StatementView { sql: select_all_sql(), params: Seq::empty() }
}

/// The statement that stores `post`: the author, then the message. The id
/// is not among the parameters.
pub open spec fn insert_statement(post: PostView) -> StatementView {
    StatementView {
        sql: insert_sql(),
        params: seq![SqlValueView::Text(post.author), SqlValueView::Text(post.message)],
    }
}

/// The statement that removes the row with `post`'s id.
pub open spec fn delete_statement(post: PostView) -> StatementView {
    StatementView { sql: delete_sql(), params: seq![SqlValueView::Int(post.id)] }
}

/// Whether a row can be read as a post: an integer, then two texts. Further
/// columns are ignored.
pub open spec fn row_holds_post(row: Seq<SqlValueView>) -> bool {
    &&& row.len() >= 3
    &&& row[0] is Int
    &&& row[1] is Text
    &&& row[2] is Text
}

/// The post that a row holds, column by column: id, author, message.
pub open spec fn post_of_row(row: Seq<SqlValueView>) -> PostView
    recommends
        row_holds_post(row),
{
    PostView { id: row[0]->Int_0, author: row[1]->Text_0, message: row[2]->Text_0 }
}

impl Row {
    /// Whether [`Post::from_row`] can read this row.
    pub fn holds_post(&self) -> (held: bool)
        ensures
            held == row_holds_post(self@),
    {
        self.columns.len() >= 3
            && matches!(self.columns[0], SqlValue::Int(_))
            && matches!(self.columns[1], SqlValue::Text(_))
            && matches!(self.columns[2], SqlValue::Text(_))
    }
}

impl Post {
    /// The statement that creates the table if it is missing. It binds no
    /// values.
    pub fn create_table() -> (statement: Statement)
        ensures
            statement@ == create_table_statement(),
    {
        let statement = Statement {
            sql: String::from_str(
                "CREATE TABLE IF NOT EXISTS posts (id SERIAL PRIMARY KEY, author TEXT, message TEXT)",
            ),
            params: Vec::new(),
        };
        assert(statement@.params =~= create_table_statement().params);
        statement
    }

    /// A post that has not been stored yet: it carries the sentinel id.
    pub fn new(author: String, message: String) -> (post: Post)
        ensures
            post@ == (PostView { id: UNSAVED_ID, author: author@, message: message@ }),
    {
        Post { id: UNSAVED_ID, author, message }
    }

    /// Reads a post from a row by position: id, author, message.
    pub fn from_row(row: &Row) -> (post: Post)
        requires
            row_holds_post(row@),
        ensures
            post@ == post_of_row(row@),
    {
        match (&row.columns[0], &row.columns[1], &row.columns[2]) {
            (SqlValue::Int(id), SqlValue::Text(author), SqlValue::Text(message)) => Post {
                id: *id,
                author: author.clone(),
                message: message.clone(),
            },
            _ => vstd::pervasive::unreached(),
        }
    }

    /// The statement that stores this post. Only the author and the message
    /// are bound: the database assigns the id.
    pub fn insert(&self) -> (statement: Statement)
        ensures
            statement@ == insert_statement(self@),
    {
        let mut params: Vec<SqlValue> = Vec::new();
        params.push(SqlValue::Text(self.author.clone()));
        params.push(SqlValue::Text(self.message.clone()));
        let statement = Statement {
            sql: String::from_str("INSERT INTO posts (author, message) VALUES ($1, $2)"),
            params,
        };
        assert(statement@.params =~= insert_statement(self@).params);
        statement
    }

    /// The statement that reads every post, in whatever order the database
    /// returns them.
    pub fn select_all() -> (statement: Statement)
        ensures
            statement@ == select_all_statement(),
    {
        let statement = Statement {
            sql: String::from_str("SELECT id, author, message FROM posts"),
            params: Vec::new(),
        };
        assert(statement@.params =~= select_all_statement().params);
        statement
    }

    /// The statement that removes the row with this post's id.
    pub fn delete(&self) -> (statement: Statement)
        ensures
            statement@ == delete_statement(self@),
    {
        let mut params: Vec<SqlValue> = Vec::new();
        params.push(SqlValue::Int(self.id));
        let statement = Statement {
            sql: String::from_str("DELETE FROM posts WHERE id = $1"),
            params,
        };
        assert(statement@.params =~= delete_statement(self@).params);
        statement
    }
}

/// Storing a post never sends its id: two posts that differ only in their
/// id give the same statement.
pub proof fn lemma_insert_ignores_id(a: PostView, b: PostView)
    requires
        a.author == b.author,
        a.message == b.message,
    ensures
        insert_statement(a) == insert_statement(b),
{
}

/// What [`Post::insert`] binds, [`Post::from_row`] reads back: the row made
/// of an id and the bound values holds the post with that id and with the
/// author and message that were sent, whatever the id.
pub proof fn lemma_stored_post_reads_back(post: PostView, id: i32)
    ensures
        row_holds_post(seq![SqlValueView::Int(id)] + insert_statement(post).params),
        post_of_row(seq![SqlValueView::Int(id)] + insert_statement(post).params) == (PostView {
            id,
            author: post.author,
            message: post.message,
        }),
{
}

} // verus!

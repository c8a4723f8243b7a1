//! The persistence context: the one owner of the database connection, and
//! the only place that turns requests into statements and result rows into
//! posts.
//!
//! The context does no I/O of its own. It names the statement to run; its
//! caller runs it on the connection and hands back what the database said.

use vstd::prelude::*;
use crate::models::{Post, PostView, Row, SqlValueView, Statement, create_table_statement,
    insert_statement, post_of_row, row_holds_post, select_all_statement};

verus! {

/// A failure that the database, or the connection to it, reported.
#[derive(Debug, Clone, PartialEq, Eq)]
pub struct DbError {
    pub message: String,
}

impl View for DbError {
    type V = Seq<char>;

    open spec fn view(&self) -> Seq<char> {
        self.message@
    }
}

/// The posts that a query's rows hold, row by row, in the rows' order.
pub open spec fn posts_of_rows(rows: Seq<Seq<SqlValueView>>) -> Seq<PostView> {
    rows.map_values(|row: Seq<SqlValueView>| post_of_row(row))
}

/// Whether every row of a result can be read as a post.
pub open spec fn rows_hold_posts(rows: Seq<Seq<SqlValueView>>) -> bool {
    forall|i: int| 0 <= i < rows.len() ==> row_holds_post(#[trigger] rows[i])
}

/// Owns the connection `C`. A context exists only once the table is known
/// to exist: [`DbContext::with_client`] is the only way to make one.
pub struct DbContext<C> {
    client: C,
}

/// The context as the exchanges share it. They only read it: the one
/// connection serves them all.
pub type Db<C> = std::sync::Arc<DbContext<C>>;

impl<C> DbContext<C> {
    /// The connection that this context owns.
    pub closed spec fn connection(&self) -> C {
        self.client
    }

    /// The statement that must have run on a connection before a context
    /// is built around it.
    pub fn create_tables() -> (statement: Statement)
        ensures
            statement@ == create_table_statement(),
    {
        Post::create_table()
    }

    /// Builds the context around `client`, given what running
    /// [`DbContext::create_tables`] on it gave. Without the table there is
    /// no context: the failure is handed on unchanged.
    pub fn with_client(client: C, created: Result<(), DbError>) -> (made: Result<DbContext<C>, DbError>)
        ensures
            match created {
                Ok(_) => made is Ok && made->Ok_0.connection() == client,
                Err(e) => made == Err::<DbContext<C>, DbError>(e),
            },
    {
        match created {
            Ok(_) => Ok(DbContext { client }),
            Err(e) => Err(e),
        }
    }

    /// The connection, for running a statement on it.
    pub fn client(&self) -> (client: &C)
        ensures
            *client == self.connection(),
    {
        &self.client
    }

    /// The statement that stores `p`.
    pub fn insert_post(&self, p: &Post) -> (statement: Statement)
        ensures
            statement@ == insert_statement(p@),
    {
        p.insert()
    }

    /// The statement whose rows [`DbContext::get_all_posts`] reads.
    pub fn select_posts(&self) -> (statement: Statement)
        ensures
            statement@ == select_all_statement(),
    {
        Post::select_all()
    }

    /// Whether [`DbContext::get_all_posts`] can read these rows.
    pub fn can_read(&self, rows: &Vec<Row>) -> (readable: bool)
        ensures
            readable == rows_hold_posts(rows.deep_view()),
    {
        let mut i: usize = 0;
        while i < rows.len()
            invariant
                i <= rows.len(),
                forall|j: int| 0 <= j < i ==> row_holds_post(#[trigger] rows.deep_view()[j]),
            decreases rows.len() - i,
        {
            if !rows[i].holds_post() {
                assert(!row_holds_post(rows.deep_view()[i as int]));
                return false;
            }
            i += 1;
        }
        true
    }

    /// Turns what the query of [`DbContext::select_posts`] gave into posts:
    /// one post for each row, in the order of the rows. A failure is handed
    /// on unchanged.
    pub fn get_all_posts(&self, queried: Result<Vec<Row>, DbError>) -> (listed: Result<
        Vec<Post>,
        DbError,
    >)
        requires
            queried matches Ok(rows) ==> rows_hold_posts(rows.deep_view()),
        ensures
            match queried {
                Ok(rows) => listed is Ok && listed->Ok_0.deep_view() == posts_of_rows(
                    rows.deep_view(),
                ),
                Err(e) => listed == Err::<Vec<Post>, DbError>(e),
            },
    {
        match queried {
            Err(e) => Err(e),
            Ok(rows) => {
                let mut posts: Vec<Post> = Vec::new();
                let mut i: usize = 0;
                while i < rows.len()
                    invariant
                        i <= rows.len(),
                        posts.len() == i,
                        rows_hold_posts(rows.deep_view()),
                        forall|j: int|
                            0 <= j < i ==> (#[trigger] posts[j])@ == post_of_row(rows[j]@),
                    decreases rows.len() - i,
                {
                    assert(row_holds_post(rows.deep_view()[i as int]));
                    let post = Post::from_row(&rows[i]);
                    posts.push(post);
                    i += 1;
                }
                assert(posts.deep_view() =~= posts_of_rows(rows.deep_view()));
                Ok(posts)
            },
        }
    }
}

/// A listing loses no row and adds none: it has one post for each row, the
/// post that the row holds, and the posts come in the order of the rows.
pub proof fn lemma_listing_keeps_every_row(rows: Seq<Seq<SqlValueView>>)
    ensures
        posts_of_rows(rows).len() == rows.len(),
        forall|i: int|
            0 <= i < rows.len() ==> #[trigger] posts_of_rows(rows)[i] == post_of_row(rows[i]),
{
}

} // verus!

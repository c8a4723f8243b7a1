use posts_api::db::{DbContext, DbError};
use posts_api::models::{Post, Row, SqlValue};

fn failure(message: &str) -> DbError {
    DbError { message: message.to_string() }
}

fn row(id: i32, author: &str, message: &str) -> Row {
    Row {
        columns: vec![
            SqlValue::Int(id),
            SqlValue::Text(author.to_string()),
            SqlValue::Text(message.to_string()),
        ],
    }
}

fn context() -> DbContext<u8> {
    match DbContext::with_client(0u8, Ok(())) {
        Ok(context) => context,
        Err(e) => panic!("no context: {:?}", e),
    }
}

/// Stands in for the table: runs an insert statement by appending a row
/// with the next id.
fn store(table: &mut Vec<Row>, post: &Post) -> Result<u64, DbError> {
    let statement = context().insert_post(post);
    assert_eq!(statement.sql, "INSERT INTO posts (author, message) VALUES ($1, $2)");
    assert_eq!(statement.params.len(), 2);
    let mut columns = vec![SqlValue::Int(table.len() as i32 + 1)];
    columns.extend(statement.params);
    table.push(Row { columns });
    Ok(1)
}

#[test]
fn create_tables_is_the_schema_statement() {
    let statement = DbContext::<u8>::create_tables();
    assert_eq!(statement, Post::create_table());
    assert_eq!(
        statement.sql,
        "CREATE TABLE IF NOT EXISTS posts (id SERIAL PRIMARY KEY, author TEXT, message TEXT)"
    );
}

#[test]
fn with_client_keeps_the_client_once_the_table_is_there() {
    let made = DbContext::with_client(String::from("connection"), Ok(()));
    match made {
        Ok(context) => assert_eq!(context.client(), "connection"),
        Err(e) => panic!("no context: {:?}", e),
    }
}

#[test]
fn with_client_fails_when_the_table_could_not_be_created() {
    let made = DbContext::with_client(7u8, Err(failure("connection closed")));
    match made {
        Ok(_) => panic!("a context without its table"),
        Err(e) => assert_eq!(e, failure("connection closed")),
    }
}

#[test]
fn startup_can_be_repeated() {
    let first = DbContext::<u8>::create_tables();
    let second = DbContext::<u8>::create_tables();
    assert_eq!(first, second);
    assert!(DbContext::with_client(1u8, Ok(())).is_ok());
    assert!(DbContext::with_client(1u8, Ok(())).is_ok());
}

#[test]
fn insert_post_is_the_posts_own_statement() {
    let post = Post::new("alice".to_string(), "hi".to_string());
    let statement = context().insert_post(&post);
    assert_eq!(statement, post.insert());
    assert_eq!(
        statement.params,
        vec![SqlValue::Text("alice".to_string()), SqlValue::Text("hi".to_string())]
    );
}

#[test]
fn select_posts_reads_the_three_columns() {
    let statement = context().select_posts();
    assert_eq!(statement.sql, "SELECT id, author, message FROM posts");
    assert!(statement.params.is_empty());
}

#[test]
fn get_all_posts_of_an_empty_table_is_empty() {
    assert_eq!(context().get_all_posts(Ok(vec![])), Ok(vec![]));
}

#[test]
fn get_all_posts_keeps_the_order_of_the_rows() {
    let rows = vec![row(2, "b", "second"), row(1, "a", "first"), row(3, "c", "third")];
    let listed = context().get_all_posts(Ok(rows));
    assert_eq!(
        listed,
        Ok(vec![
            Post { id: 2, author: "b".to_string(), message: "second".to_string() },
            Post { id: 1, author: "a".to_string(), message: "first".to_string() },
            Post { id: 3, author: "c".to_string(), message: "third".to_string() },
        ])
    );
}

#[test]
fn get_all_posts_hands_a_failure_on() {
    let listed = context().get_all_posts(Err(failure("connection closed")));
    assert_eq!(listed, Err(failure("connection closed")));
}

#[test]
fn can_read_tells_rows_that_hold_posts() {
    let db = context();
    assert!(db.can_read(&vec![]));
    assert!(db.can_read(&vec![row(1, "a", "m"), row(2, "b", "n")]));
    assert!(!db.can_read(&vec![row(1, "a", "m"), Row { columns: vec![SqlValue::Int(2)] }]));
    assert!(!db.can_read(&vec![
        Row { columns: vec![SqlValue::Int(1), SqlValue::Null, SqlValue::Text("m".to_string())] },
        row(2, "b", "n"),
    ]));
}

#[test]
fn a_stored_post_comes_back_with_an_id_of_its_own() {
    let mut table = Vec::new();
    let post = Post::new("alice".to_string(), "hi".to_string());
    assert_eq!(store(&mut table, &post), Ok(1));
    let db = context();
    assert!(db.can_read(&table));
    let listed = match db.get_all_posts(Ok(table)) {
        Ok(posts) => posts,
        Err(e) => panic!("listing failed: {:?}", e),
    };
    assert_eq!(listed.len(), 1);
    assert_eq!(listed[0].author, "alice");
    assert_eq!(listed[0].message, "hi");
    assert!(listed[0].id > 0);
    assert_ne!(listed[0].id, post.id);
}

#[test]
fn three_stored_posts_are_all_listed() {
    let mut table = Vec::new();
    for (author, message) in [("a", "first"), ("b", "second"), ("c", "third")] {
        let post = Post::new(author.to_string(), message.to_string());
        assert_eq!(store(&mut table, &post), Ok(1));
    }
    // The database may return the rows in any order.
    table.rotate_left(1);
    let listed = match context().get_all_posts(Ok(table)) {
        Ok(posts) => posts,
        Err(e) => panic!("listing failed: {:?}", e),
    };
    let mut pairs: Vec<(String, String)> =
        listed.into_iter().map(|p| (p.author, p.message)).collect();
    pairs.sort();
    assert_eq!(
        pairs,
        vec![
            ("a".to_string(), "first".to_string()),
            ("b".to_string(), "second".to_string()),
            ("c".to_string(), "third".to_string()),
        ]
    );
}

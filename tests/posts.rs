use post_store::{
    create_post, database_url, delete_post, find_post, post_from_reply, publish_post,
    write_changed, ConfigError, Post, PostTable, RepoError, Reply, Statement, StoreError,
};

fn conn() -> PostTable {
    PostTable::new()
}

#[test]
fn insert() {
    let conn = &mut conn();

    let title = String::from("this is title");
    let body = String::from("this is body");

    let post = create_post(conn, &title, &body);

    println!("{post:?}");
    let post = post.unwrap();
    assert_eq!(post.title, "this is title");
    assert_eq!(post.body, "this is body");
    assert!(!post.published);
}

#[test]
fn find() {
    let conn = &mut conn();
    create_post(conn, "first", "row").unwrap();
    let post = find_post(conn, 1i32);
    println!("{post:?}");
    assert_eq!(post.unwrap().id, 1);
}

#[test]
fn update() {
    let conn = &mut conn();
    for _ in 0..3 {
        create_post(conn, "t", "b").unwrap();
    }
    let post = publish_post(conn, 3i32);
    println!("{post:?}");
    assert!(post);
    assert!(find_post(conn, 3).unwrap().published);
}

#[test]
fn delete() {
    let conn = &mut conn();
    create_post(conn, "t", "b").unwrap();
    delete_post(conn, 1i32);
    assert_eq!(find_post(conn, 1).unwrap_err(), RepoError::NotFound);
}

#[test]
fn hello_world_lifecycle() {
    let conn = &mut conn();
    let post = create_post(conn, "Hello", "World").unwrap();
    assert_eq!(post.id, 1);
    assert_eq!(post.title, "Hello");
    assert_eq!(post.body, "World");
    assert!(!post.published);

    publish_post(conn, 1);
    let found = find_post(conn, 1).unwrap();
    assert_eq!(found.id, 1);
    assert_eq!(found.title, "Hello");
    assert_eq!(found.body, "World");
    assert!(found.published);

    delete_post(conn, 1);
    assert_eq!(find_post(conn, 1).unwrap_err(), RepoError::NotFound);
}

#[test]
fn create_then_find_matches() {
    let conn = &mut conn();
    create_post(conn, "a", "b").unwrap();
    let post = create_post(conn, "ünïcode title", "").unwrap();
    assert_eq!(post.id, 2);
    let found = find_post(conn, post.id).unwrap();
    assert_eq!(found.title, "ünïcode title");
    assert_eq!(found.body, "");
    assert!(!found.published);
}

#[test]
fn publish_twice_stays_published() {
    let conn = &mut conn();
    create_post(conn, "t", "b").unwrap();
    assert!(publish_post(conn, 1));
    assert!(find_post(conn, 1).unwrap().published);
    assert!(publish_post(conn, 1));
    assert!(find_post(conn, 1).unwrap().published);
}

#[test]
fn publish_touches_only_its_row() {
    let conn = &mut conn();
    create_post(conn, "one", "1").unwrap();
    create_post(conn, "two", "2").unwrap();
    publish_post(conn, 2);
    assert!(!find_post(conn, 1).unwrap().published);
    assert!(find_post(conn, 2).unwrap().published);
}

#[test]
fn delete_removes_only_its_row() {
    let conn = &mut conn();
    create_post(conn, "one", "1").unwrap();
    create_post(conn, "two", "2").unwrap();
    create_post(conn, "three", "3").unwrap();
    assert!(delete_post(conn, 2));
    assert_eq!(find_post(conn, 2).unwrap_err(), RepoError::NotFound);
    assert_eq!(find_post(conn, 1).unwrap().title, "one");
    assert_eq!(find_post(conn, 3).unwrap().title, "three");
}

#[test]
fn created_row_is_latest() {
    let conn = &mut conn();
    create_post(conn, "one", "1").unwrap();
    create_post(conn, "two", "2").unwrap();
    delete_post(conn, 2);
    let post = create_post(conn, "three", "3").unwrap();
    assert_eq!(post.id, 3);
    assert_eq!(post.title, "three");
}

#[test]
fn missing_id_is_silent_no_op() {
    let conn = &mut conn();
    create_post(conn, "t", "b").unwrap();
    assert!(!publish_post(conn, 42));
    assert!(!delete_post(conn, 42));
    assert!(!delete_post(conn, -1));
    let post = find_post(conn, 1).unwrap();
    assert_eq!(post.title, "t");
    assert!(!post.published);
}

#[test]
fn find_on_empty_table_is_not_found() {
    let conn = &mut conn();
    assert_eq!(find_post(conn, 1).unwrap_err(), RepoError::NotFound);
    assert_eq!(find_post(conn, i32::MIN).unwrap_err(), RepoError::NotFound);
}

#[test]
fn ids_exhausted_is_store_error() {
    let conn = &mut PostTable::starting_at(i32::MAX - 1);
    let post = create_post(conn, "last", "id").unwrap();
    assert_eq!(post.id, i32::MAX - 1);
    let err = create_post(conn, "one", "more").unwrap_err();
    assert_eq!(err, RepoError::Store(StoreError::IdsExhausted));
    assert_eq!(find_post(conn, i32::MAX - 1).unwrap().title, "last");
    assert_eq!(find_post(conn, i32::MAX).unwrap_err(), RepoError::NotFound);
}

#[test]
fn execute_reports_rows_affected() {
    let conn = &mut conn();
    create_post(conn, "t", "b").unwrap();
    assert!(matches!(conn.execute(Statement::PublishPost(1)), Reply::Affected(1)));
    assert!(matches!(conn.execute(Statement::DeletePost(9)), Reply::Affected(0)));
    assert!(matches!(conn.execute(Statement::SelectPostById(9)), Reply::Row(None)));
    match conn.execute(Statement::SelectLatestPost) {
        Reply::Row(Some(p)) => assert_eq!(p.id, 1),
        other => panic!("unexpected reply {other:?}"),
    }
}

#[test]
fn replies_map_to_outcomes() {
    let post = Post { id: 5, title: String::from("x"), body: String::from("y"), published: true };
    assert_eq!(post_from_reply(Reply::Row(Some(post))).unwrap().id, 5);
    assert_eq!(post_from_reply(Reply::Row(None)).unwrap_err(), RepoError::NotFound);
    assert_eq!(
        post_from_reply(Reply::Failed(StoreError::Rejected)).unwrap_err(),
        RepoError::Store(StoreError::Rejected)
    );
    assert_eq!(post_from_reply(Reply::Affected(1)).unwrap_err(), RepoError::UnexpectedReply);
    assert!(write_changed(&Reply::Affected(1)));
    assert!(!write_changed(&Reply::Affected(0)));
    assert!(!write_changed(&Reply::Failed(StoreError::Rejected)));
    assert!(!write_changed(&Reply::Row(None)));
}

#[test]
fn statement_sql_text() {
    let insert = Statement::InsertPost(post_store::NewPost::new("t", "b"));
    assert_eq!(insert.sql(), "INSERT INTO posts (title, body) VALUES (?, ?)");
    assert_eq!(
        Statement::SelectPostById(1).sql(),
        "SELECT id, title, body, published FROM posts WHERE id = ? LIMIT 1"
    );
    assert_eq!(
        Statement::SelectLatestPost.sql(),
        "SELECT id, title, body, published FROM posts ORDER BY id DESC LIMIT 1"
    );
    assert_eq!(Statement::PublishPost(1).sql(), "UPDATE posts SET published = true WHERE id = ?");
    assert_eq!(Statement::DeletePost(1).sql(), "DELETE FROM posts WHERE id = ?");
}

#[test]
fn missing_database_url_is_refused() {
    assert_eq!(database_url(None).unwrap_err(), ConfigError::MissingDatabaseUrl);
    assert_eq!(
        database_url(Some(String::from("mysql://user@localhost/blog"))).unwrap(),
        "mysql://user@localhost/blog"
    );
}

#[test]
fn new_post_keeps_text_verbatim() {
    let p = post_store::NewPost::new("  spaced  ", "line\nbreak");
    assert_eq!(p.title, "  spaced  ");
    assert_eq!(p.body, "line\nbreak");
}

#[test]
fn duplicate_copies_every_field() {
    let p = Post { id: 7, title: String::from("a"), body: String::from("b"), published: true };
    let q = p.duplicate();
    assert_eq!((q.id, q.title.as_str(), q.body.as_str(), q.published), (7, "a", "b", true));
}

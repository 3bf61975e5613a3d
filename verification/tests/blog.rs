use blog_actix::errors::{AppError, DbError, DbErrorKind};
use blog_actix::models::comment_action::{create_comment, post_comments, user_comments};
use blog_actix::models::database::Database;
use blog_actix::models::post_action::{all_posts, create_post, publish_post, user_posts};
use blog_actix::models::user_action::{create_user, find_user};
use blog_actix::models::{Comment, Post, User, UserKey};
use blog_actix::Blog;

fn user(id: i32, name: &str) -> User {
    User { id, username: name.to_string() }
}

fn post(id: i32, user_id: i32, title: &str, published: bool) -> Post {
    Post { id, user_id, title: title.to_string(), body: format!("body of {}", title), published }
}

fn comment(id: i32, user_id: i32, post_id: i32, body: &str) -> Comment {
    Comment { id, user_id, post_id, body: body.to_string() }
}

#[test]
fn blog_keeps_its_port() {
    assert_eq!(Blog::new(8000).port(), 8000);
}

#[test]
fn users_get_increasing_ids_and_are_found() {
    let mut db = Database::new();
    let alice = create_user(&mut db, "alice").unwrap();
    let bob = create_user(&mut db, "bob").unwrap();
    assert_eq!((alice.id, alice.username.as_str()), (1, "alice"));
    assert_eq!((bob.id, bob.username.as_str()), (2, "bob"));
    let found = find_user(&db, UserKey::Username("bob")).unwrap();
    assert_eq!((found.id, found.username.as_str()), (2, "bob"));
    let found = find_user(&db, UserKey::ID(1)).unwrap();
    assert_eq!(found.username, "alice");
    assert!(matches!(find_user(&db, UserKey::ID(3)), Err(AppError::RecordNotFound)));
    assert!(matches!(find_user(&db, UserKey::Username("carol")), Err(AppError::RecordNotFound)));
}

#[test]
fn new_user_id_follows_the_largest() {
    let mut db = Database::from_rows(vec![user(4, "a"), user(9, "b")], vec![], vec![]).unwrap();
    let c = create_user(&mut db, "c").unwrap();
    assert_eq!(c.id, 10);
    assert_eq!(db.users().len(), 3);
}

#[test]
fn taken_username_is_refused_and_nothing_changes() {
    let mut db = Database::new();
    create_user(&mut db, "alice").unwrap();
    let err = create_user(&mut db, "alice").unwrap_err();
    assert!(matches!(err, AppError::RecordAlreadyExists));
    assert_eq!(err.status_code(), 400);
    assert_eq!(db.users().len(), 1);
}

#[test]
fn id_overflow_is_refused() {
    let mut db = Database::from_rows(vec![user(i32::MAX, "max")], vec![], vec![]).unwrap();
    let err = create_user(&mut db, "next").unwrap_err();
    match &err {
        AppError::DatabaseError(d) => assert_eq!(d.kind, DbErrorKind::Other),
        _ => panic!("expected a database error"),
    }
    assert_eq!(err.message(), "Database error: row id out of the range of a 32-bit integer");
    assert_eq!(err.status_code(), 500);
    assert_eq!(db.users().len(), 1);
}

#[test]
fn posts_are_created_unpublished_and_published() {
    let mut db = Database::new();
    let alice = create_user(&mut db, "alice").unwrap();
    let p = create_post(&mut db, &alice, "Hello", "First words").unwrap();
    assert_eq!((p.id, p.user_id, p.published), (1, 1, false));
    assert_eq!((p.title.as_str(), p.body.as_str()), ("Hello", "First words"));
    assert!(all_posts(&db).unwrap().is_empty());
    let published = publish_post(&mut db, p.id).unwrap();
    assert!(published.published);
    assert_eq!(published.title, "Hello");
    let again = publish_post(&mut db, p.id).unwrap();
    assert!(again.published);
    assert_eq!(db.posts().len(), 1);
    let listed = all_posts(&db).unwrap();
    assert_eq!(listed.len(), 1);
    assert_eq!(listed[0].0 .0.id, 1);
    assert_eq!(listed[0].0 .1.username, "alice");
    assert!(listed[0].1.is_empty());
}

#[test]
fn publishing_a_missing_post_is_not_found() {
    let mut db = Database::new();
    let err = publish_post(&mut db, 7).unwrap_err();
    assert!(matches!(err, AppError::RecordNotFound));
    assert_eq!(err.status_code(), 404);
    assert_eq!(err.message(), "This record does not exist");
}

#[test]
fn all_posts_lists_published_posts_newest_first_with_comments() {
    let db = Database::from_rows(
        vec![user(1, "alice"), user(2, "bob")],
        vec![
            post(1, 1, "one", true),
            post(2, 2, "two", false),
            post(3, 2, "three", true),
            post(4, 5, "orphan", true),
        ],
        vec![
            comment(1, 2, 1, "nice"),
            comment(2, 1, 3, "thanks"),
            comment(3, 1, 1, "reply"),
            comment(4, 9, 1, "ghost"),
        ],
    )
    .unwrap();
    let listed = all_posts(&db).unwrap();
    let ids: Vec<i32> = listed.iter().map(|e| e.0 .0.id).collect();
    assert_eq!(ids, vec![3, 1]);
    assert_eq!(listed[0].0 .1.username, "bob");
    let on_three: Vec<(i32, String)> =
        listed[0].1.iter().map(|(c, u)| (c.id, u.username.clone())).collect();
    assert_eq!(on_three, vec![(2, "alice".to_string())]);
    let on_one: Vec<(i32, String)> =
        listed[1].1.iter().map(|(c, u)| (c.id, u.username.clone())).collect();
    assert_eq!(on_one, vec![(1, "bob".to_string()), (3, "alice".to_string())]);
}

#[test]
fn user_posts_lists_every_post_of_the_user_newest_first() {
    let db = Database::from_rows(
        vec![user(1, "alice"), user(2, "bob")],
        vec![post(1, 2, "a", false), post(2, 1, "b", true), post(5, 2, "c", true)],
        vec![comment(1, 1, 5, "hi")],
    )
    .unwrap();
    let mine = user_posts(&db, 2).unwrap();
    let ids: Vec<i32> = mine.iter().map(|e| e.0.id).collect();
    assert_eq!(ids, vec![5, 1]);
    assert_eq!(mine[0].1.len(), 1);
    assert_eq!(mine[0].1[0].1.username, "alice");
    assert!(mine[1].1.is_empty());
    assert!(user_posts(&db, 3).unwrap().is_empty());
}

#[test]
fn new_post_heads_its_authors_posts() {
    let mut db = Database::from_rows(
        vec![user(1, "alice")],
        vec![post(1, 1, "old", true)],
        vec![],
    )
    .unwrap();
    let alice = find_user(&db, UserKey::ID(1)).unwrap();
    let p = create_post(&mut db, &alice, "new", "text").unwrap();
    assert_eq!(p.id, 2);
    assert_eq!(user_posts(&db, 1).unwrap()[0].0.title, "new");
}

#[test]
fn comments_are_listed_by_post_and_by_user() {
    let mut db = Database::new();
    let alice = create_user(&mut db, "alice").unwrap();
    let bob = create_user(&mut db, "bob").unwrap();
    let p = create_post(&mut db, &alice, "Topic", "Text").unwrap();
    let c1 = create_comment(&mut db, bob.id, p.id, "first").unwrap();
    let c2 = create_comment(&mut db, alice.id, p.id, "second").unwrap();
    let c3 = create_comment(&mut db, bob.id, 42, "lost").unwrap();
    let c4 = create_comment(&mut db, 77, p.id, "stranger").unwrap();
    assert_eq!((c1.id, c2.id, c3.id, c4.id), (1, 2, 3, 4));
    assert_eq!((c1.user_id, c1.post_id, c1.body.as_str()), (2, 1, "first"));
    let on_post = post_comments(&db, p.id).unwrap();
    let seen: Vec<(i32, String)> =
        on_post.iter().map(|(c, u)| (c.id, u.username.clone())).collect();
    assert_eq!(seen, vec![(1, "bob".to_string()), (2, "alice".to_string())]);
    let by_bob = user_comments(&db, bob.id).unwrap();
    assert_eq!(by_bob.len(), 1);
    assert_eq!(by_bob[0].0.id, 1);
    assert_eq!((by_bob[0].1.id, by_bob[0].1.title.as_str(), by_bob[0].1.published), (1, "Topic", false));
    assert_eq!(user_comments(&db, 77).unwrap().len(), 1);
    assert!(user_comments(&db, 5).unwrap().is_empty());
    assert_eq!(post_comments(&db, 42).unwrap()[0].0.id, 3);
    assert!(post_comments(&db, 43).unwrap().is_empty());
}

#[test]
fn rows_that_break_the_tables_rules_are_refused() {
    assert!(Database::from_rows(vec![user(2, "a"), user(1, "b")], vec![], vec![]).is_none());
    assert!(Database::from_rows(vec![user(1, "a"), user(2, "a")], vec![], vec![]).is_none());
    assert!(Database::from_rows(vec![], vec![post(3, 1, "x", false), post(3, 1, "y", false)], vec![])
        .is_none());
    assert!(Database::from_rows(vec![], vec![], vec![comment(5, 1, 1, "x"), comment(4, 1, 1, "y")])
        .is_none());
    let db = Database::from_rows(
        vec![user(1, "a"), user(3, "b")],
        vec![post(2, 1, "x", false)],
        vec![comment(1, 1, 2, "y")],
    )
    .unwrap();
    assert_eq!((db.users().len(), db.posts().len(), db.comments().len()), (2, 1, 1));
}

#[test]
fn database_errors_map_to_app_errors() {
    let unique = AppError::from_db_error(DbError {
        kind: DbErrorKind::UniqueViolation,
        detail: "UNIQUE constraint failed".to_string(),
    });
    assert!(matches!(unique, AppError::RecordAlreadyExists));
    let missing =
        AppError::from_db_error(DbError { kind: DbErrorKind::NotFound, detail: "NotFound".to_string() });
    assert!(matches!(missing, AppError::RecordNotFound));
    let other = AppError::from_db_error(DbError {
        kind: DbErrorKind::Other,
        detail: "QueryBuilderError(\"boom\")".to_string(),
    });
    assert_eq!(other.message(), "Database error: QueryBuilderError(\"boom\")");
    assert_eq!(other.status_code(), 500);
}

#[test]
fn error_messages_and_status_codes() {
    assert_eq!(AppError::RecordAlreadyExists.message(), "This record violates a unique constraint");
    assert_eq!(AppError::RecordNotFound.message(), "This record does not exist");
    assert_eq!(AppError::OperationCanceled.message(), "The running operation was canceled");
    assert_eq!(AppError::canceled().status_code(), 500);
    assert_eq!(AppError::RecordNotFound.status_code(), 404);
    assert_eq!(AppError::RecordAlreadyExists.status_code(), 400);
}

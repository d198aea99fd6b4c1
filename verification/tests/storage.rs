//! The handlers driven against a real users table, held in memory by
//! SQLite: each statement that a handler asks for is run, and its outcome
//! handed back to the handler.

use actix_web::rt::System;
use rand::Rng;
use sqlx::sqlite::{SqlitePool, SqlitePoolOptions, SqliteRow};
use sqlx::Row;
use users_api::models::user_model::{QueryResult, QueryResults, Statement, StorageError, UserRow};
use users_api::services::response::{Body, Response, Status, Step};
use users_api::services::user_service;
use users_api::types::timestamp::Timestamp;
use users_api::types::types::{User, UserForm};

fn generate_random_number() -> String {
    let mut rng = rand::thread_rng();
    rng.gen::<u32>().to_string()
}

fn generate_random_email() -> String {
    let num = generate_random_number();
    format!("my.email-{}@domain.com", num)
}

async fn get_db_pool() -> SqlitePool {
    let pool = SqlitePoolOptions::new()
        .max_connections(1)
        .idle_timeout(None)
        .max_lifetime(None)
        .connect("sqlite::memory:")
        .await
        .expect("failed to create DB pool");
    sqlx::query(
        "CREATE TABLE users (\
            id INTEGER PRIMARY KEY AUTOINCREMENT, \
            email TEXT NOT NULL, \
            phone TEXT NOT NULL, \
            created_at DATETIME DEFAULT CURRENT_TIMESTAMP)",
    )
    .execute(&pool)
    .await
    .expect("failed to create the users table");
    pool
}

fn user_row(row: &SqliteRow) -> UserRow {
    UserRow {
        id: row.get("id"),
        email: row.get("email"),
        phone: row.get("phone"),
        created_at: row.try_get::<Option<String>, _>("created_at").ok().flatten(),
    }
}

fn storage_error(error: sqlx::Error) -> StorageError {
    match error {
        sqlx::Error::RowNotFound => StorageError::NotFound,
        other => StorageError::Failure(format!("{:?}", other)),
    }
}

async fn fetch_one(pool: &SqlitePool, statement: &Statement) -> QueryResult {
    let mut query = sqlx::query(&statement.sql);
    for bind in &statement.binds {
        query = query.bind(bind.as_deref());
    }
    match query.fetch_one(pool).await {
        Ok(row) => Ok(user_row(&row)),
        Err(error) => Err(storage_error(error)),
    }
}

async fn fetch_all(pool: &SqlitePool, statement: &Statement) -> QueryResults {
    let mut query = sqlx::query(&statement.sql);
    for bind in &statement.binds {
        query = query.bind(bind.as_deref());
    }
    match query.fetch_all(pool).await {
        Ok(rows) => Ok(rows.iter().map(user_row).collect()),
        Err(error) => Err(storage_error(error)),
    }
}

fn form(email: &str, phone: &str) -> UserForm {
    UserForm { email: Some(email.to_string()), phone: Some(phone.to_string()) }
}

fn responded(step: Step) -> Response {
    match step {
        Step::Respond(response) => response,
        Step::Query(statement) => panic!("a second statement: {:?}", statement),
    }
}

async fn get_users(pool: &SqlitePool) -> Response {
    match user_service::get_all_users(None) {
        Step::Respond(response) => response,
        Step::Query(statement) => {
            responded(user_service::get_all_users(Some(fetch_all(pool, &statement).await)))
        }
    }
}

async fn get_user_by_id(pool: &SqlitePool, id: &str) -> Response {
    match user_service::get_single_user(id, None) {
        Step::Respond(response) => response,
        Step::Query(statement) => {
            responded(user_service::get_single_user(id, Some(fetch_one(pool, &statement).await)))
        }
    }
}

async fn post_user(pool: &SqlitePool, body: &UserForm) -> Response {
    match user_service::create_user(body, None) {
        Step::Respond(response) => response,
        Step::Query(statement) => {
            responded(user_service::create_user(body, Some(fetch_one(pool, &statement).await)))
        }
    }
}

async fn put_user(pool: &SqlitePool, id: &str, body: &UserForm) -> Response {
    match user_service::update_user(id, body, None) {
        Step::Respond(response) => response,
        Step::Query(statement) => {
            responded(user_service::update_user(id, body, Some(fetch_one(pool, &statement).await)))
        }
    }
}

async fn remove_user(pool: &SqlitePool, id: &str) -> Response {
    match user_service::delete_user(id, None) {
        Step::Respond(response) => response,
        Step::Query(statement) => {
            responded(user_service::delete_user(id, Some(fetch_one(pool, &statement).await)))
        }
    }
}

fn read_user(response: Response) -> User {
    assert_eq!(response.status, Status::Success);
    match response.body {
        Body::User(user) => user,
        other => panic!("not a user: {:?}", other),
    }
}

fn read_users(response: Response) -> Vec<User> {
    assert_eq!(response.status, Status::Success);
    match response.body {
        Body::Users(users) => users,
        other => panic!("not a list of users: {:?}", other),
    }
}

fn read_message(response: Response) -> String {
    match response.body {
        Body::Message(text) => text,
        other => panic!("not a message: {:?}", other),
    }
}

fn moment(time: &Timestamp) -> (i32, u32, u32, u32, u32, u32, u32) {
    (time.year, time.month, time.day, time.hour, time.minute, time.second, time.nanosecond)
}

async fn set_created_at(pool: &SqlitePool, id: i32, created_at: Option<&str>) {
    sqlx::query("UPDATE users SET created_at = $1 WHERE id = $2")
        .bind(created_at)
        .bind(id)
        .execute(pool)
        .await
        .expect("failed to set created_at");
}

#[test]
fn create_user() {
    System::new().block_on(async {
        let conn_pool = get_db_pool().await;
        let phone = generate_random_number();
        let email = generate_random_email();
        let new_user = form(&email, &phone);
        let create_user_resp = post_user(&conn_pool, &new_user).await;
        let created_user: User = read_user(create_user_resp);
        assert_eq!(created_user.phone, phone);
        assert_eq!(created_user.email, email);
    });
}

#[test]
fn get_user() {
    System::new().block_on(async {
        let conn_pool = get_db_pool().await;
        let phone = generate_random_number();
        let email = generate_random_email();
        let new_user = form(&email, &phone);
        let create_user_resp = post_user(&conn_pool, &new_user).await;
        let created_user: User = read_user(create_user_resp);
        let resp = get_user_by_id(&conn_pool, &created_user.id.to_string()).await;
        let user: User = read_user(resp);
        assert_eq!(created_user.phone, phone);
        assert_eq!(created_user.email, email);
        assert_eq!(created_user.id, user.id);
        assert_eq!(created_user, user);
    });
}

#[test]
fn update_user() {
    System::new().block_on(async {
        let conn_pool = get_db_pool().await;
        let email = generate_random_email();
        let phone = generate_random_number();
        let new_user = form(&email, &phone);
        let updated_email = generate_random_email();
        let updated_phone = generate_random_number();
        let updated_user = form(&updated_email, &updated_phone);
        let create_user_resp = post_user(&conn_pool, &new_user).await;
        let created_user: User = read_user(create_user_resp);
        let resp = put_user(&conn_pool, &created_user.id.to_string(), &updated_user).await;
        let user: User = read_user(resp);
        assert_eq!(user.phone, updated_phone);
        assert_eq!(user.email, updated_email);
        assert_eq!(user.id, created_user.id);
        assert_eq!(user.created_at, created_user.created_at);
        let shown = read_user(get_user_by_id(&conn_pool, &created_user.id.to_string()).await);
        assert_eq!(shown, user);
    });
}

#[test]
fn get_all() {
    System::new().block_on(async {
        let conn_pool = get_db_pool().await;
        let phone1 = generate_random_number();
        let email1 = generate_random_email();
        let phone2 = generate_random_number();
        let email2 = generate_random_email();
        let new_user1 = form(&email1, &phone1);
        let new_user2 = form(&email2, &phone2);
        let create_user1_resp = post_user(&conn_pool, &new_user1).await;
        let create_user2_resp = post_user(&conn_pool, &new_user2).await;
        let created_user1: User = read_user(create_user1_resp);
        let created_user2: User = read_user(create_user2_resp);
        let all_response = get_users(&conn_pool).await;
        let all_users: Vec<User> = read_users(all_response);
        assert_eq!(all_users.len(), 2);
        let first_at = moment(created_user1.created_at.as_ref().expect("a creation time"));
        let second_at = moment(created_user2.created_at.as_ref().expect("a creation time"));
        assert!(first_at <= second_at);
        if first_at == second_at {
            // Created within one second: the listing has them as inserted.
            assert_eq!(created_user1.email, all_users[0].email);
            assert_eq!(created_user1.phone, all_users[0].phone);
            assert_eq!(created_user2.email, all_users[1].email);
            assert_eq!(created_user2.phone, all_users[1].phone);
        } else {
            assert_eq!(created_user2, all_users[0]);
            assert_eq!(created_user1, all_users[1]);
        }
    });
}

#[test]
fn delete_user() {
    System::new().block_on(async {
        let conn_pool = get_db_pool().await;
        let phone = generate_random_number();
        let email = generate_random_email();
        let new_user = form(&email, &phone);
        let create_user_resp = post_user(&conn_pool, &new_user).await;
        let created_user: User = read_user(create_user_resp);
        let resp = remove_user(&conn_pool, &created_user.id.to_string()).await;
        let user: User = read_user(resp);
        assert_eq!(created_user.phone, phone);
        assert_eq!(created_user.email, email);
        assert_eq!(created_user.id, user.id);
        assert_eq!(created_user, user);
    });
}

#[test]
fn create_get_update_delete() {
    System::new().block_on(async {
        let pool = get_db_pool().await;
        let created = read_user(post_user(&pool, &form("a@b.com", "555")).await);
        assert_eq!(created.id, 1);
        assert_eq!(created.email, "a@b.com");
        assert_eq!(created.phone, "555");
        assert!(created.created_at.is_some());

        let shown = read_user(get_user_by_id(&pool, "1").await);
        assert_eq!(shown, created);

        let updated = read_user(put_user(&pool, "1", &form("c@d.com", "999")).await);
        assert_eq!(updated.id, 1);
        assert_eq!(updated.email, "c@d.com");
        assert_eq!(updated.phone, "999");
        assert_eq!(updated.created_at, created.created_at);

        let removed = remove_user(&pool, "1").await;
        assert_eq!(removed.status.code(), 200);
        assert_eq!(read_user(removed), updated);

        let gone = get_user_by_id(&pool, "1").await;
        assert_eq!(gone.status.code(), 404);
        assert_eq!(read_message(gone), "User 1 does not exist");
    });
}

#[test]
fn created_ids_are_fresh() {
    System::new().block_on(async {
        let pool = get_db_pool().await;
        let first = read_user(post_user(&pool, &form("a@b.com", "555")).await);
        let second = read_user(post_user(&pool, &form("a@b.com", "555")).await);
        assert_ne!(first.id, second.id);
        read_user(remove_user(&pool, &second.id.to_string()).await);
        let third = read_user(post_user(&pool, &form("e@f.com", "777")).await);
        assert_ne!(third.id, first.id);
        assert_ne!(third.id, second.id);
        assert_eq!(third.email, "e@f.com");
        assert_eq!(third.phone, "777");
    });
}

#[test]
fn update_changes_one_row_only() {
    System::new().block_on(async {
        let pool = get_db_pool().await;
        let first = read_user(post_user(&pool, &form("a@b.com", "555")).await);
        let second = read_user(post_user(&pool, &form("c@d.com", "999")).await);
        let updated =
            read_user(put_user(&pool, &second.id.to_string(), &form("e@f.com", "777")).await);
        assert_eq!(
            updated,
            User {
                id: second.id,
                email: "e@f.com".to_string(),
                phone: "777".to_string(),
                created_at: second.created_at,
            }
        );
        assert_eq!(read_user(get_user_by_id(&pool, &first.id.to_string()).await), first);
        assert_eq!(read_user(get_user_by_id(&pool, &second.id.to_string()).await), updated);
    });
}

#[test]
fn update_of_a_missing_user_is_a_server_error() {
    System::new().block_on(async {
        let pool = get_db_pool().await;
        let response = put_user(&pool, "41", &form("a@b.com", "555")).await;
        assert_eq!(response.status.code(), 500);
        assert_eq!(read_message(response), "FAILED to update user: RowNotFound");
        assert_eq!(read_users(get_users(&pool).await), vec![]);
    });
}

#[test]
fn delete_of_a_missing_user_is_a_server_error() {
    System::new().block_on(async {
        let pool = get_db_pool().await;
        let response = remove_user(&pool, "41").await;
        assert_eq!(response.status.code(), 500);
        assert_eq!(read_message(response), "FAILED to delete user: RowNotFound");
    });
}

#[test]
fn lookup_of_a_missing_user_is_not_found() {
    System::new().block_on(async {
        let pool = get_db_pool().await;
        let response = get_user_by_id(&pool, "41").await;
        assert_eq!(response.status.code(), 404);
        assert_eq!(read_message(response), "User 41 does not exist");
        let response = get_user_by_id(&pool, "no number").await;
        assert_eq!(response.status.code(), 404);
        assert_eq!(read_message(response), "User no number does not exist");
    });
}

#[test]
fn list_of_an_empty_table_is_empty() {
    System::new().block_on(async {
        let pool = get_db_pool().await;
        let response = get_users(&pool).await;
        assert_eq!(response.status.code(), 200);
        assert_eq!(response.body, Body::Users(vec![]));
    });
}

#[test]
fn list_is_newest_first() {
    System::new().block_on(async {
        let pool = get_db_pool().await;
        let oldest = read_user(post_user(&pool, &form("old@domain.com", "1")).await);
        let newest = read_user(post_user(&pool, &form("new@domain.com", "2")).await);
        let middle = read_user(post_user(&pool, &form("mid@domain.com", "3")).await);
        set_created_at(&pool, oldest.id, Some("2024-01-01 10:00:00")).await;
        set_created_at(&pool, newest.id, Some("2024-03-01 09:30:00")).await;
        set_created_at(&pool, middle.id, Some("2024-02-01 23:59:59")).await;
        let at = |month, hour, minute, second| {
            Some(Timestamp { year: 2024, month, day: 1, hour, minute, second, nanosecond: 0 })
        };
        assert_eq!(
            read_users(get_users(&pool).await),
            vec![
                User { created_at: at(3, 9, 30, 0), ..newest },
                User { created_at: at(2, 23, 59, 59), ..middle },
                User { created_at: at(1, 10, 0, 0), ..oldest },
            ]
        );
    });
}

#[test]
fn unreadable_creation_time_is_shown_as_none() {
    System::new().block_on(async {
        let pool = get_db_pool().await;
        let created = read_user(post_user(&pool, &form("a@b.com", "555")).await);
        let id = created.id.to_string();
        set_created_at(&pool, created.id, Some("last tuesday")).await;
        assert_eq!(
            read_user(get_user_by_id(&pool, &id).await),
            User { created_at: None, ..created.clone() }
        );
        set_created_at(&pool, created.id, None).await;
        assert_eq!(
            read_user(get_user_by_id(&pool, &id).await),
            User { created_at: None, ..created.clone() }
        );
        set_created_at(&pool, created.id, Some("1999-12-31 23:59:59")).await;
        assert_eq!(
            read_user(get_user_by_id(&pool, &id).await).created_at,
            Some(Timestamp {
                year: 1999,
                month: 12,
                day: 31,
                hour: 23,
                minute: 59,
                second: 59,
                nanosecond: 0,
            })
        );
    });
}

#[test]
fn refused_form_leaves_the_table_alone() {
    System::new().block_on(async {
        let pool = get_db_pool().await;
        let created = read_user(post_user(&pool, &form("a@b.com", "555")).await);
        let no_email = UserForm { email: None, phone: Some("999".to_string()) };
        let no_phone = UserForm { email: Some("c@d.com".to_string()), phone: None };
        let response = post_user(&pool, &no_email).await;
        assert_eq!(response.status.code(), 400);
        assert_eq!(read_message(response), "Missing user email");
        let response = post_user(&pool, &no_phone).await;
        assert_eq!(response.status.code(), 400);
        assert_eq!(read_message(response), "Missing user phone");
        let response = put_user(&pool, "1", &no_email).await;
        assert_eq!(response.status.code(), 400);
        assert_eq!(read_message(response), "Missing user email");
        let response = put_user(&pool, "1", &no_phone).await;
        assert_eq!(response.status.code(), 400);
        assert_eq!(read_message(response), "Missing user phone");
        assert_eq!(read_users(get_users(&pool).await), vec![created]);
    });
}

#[test]
fn storage_failure_is_reported() {
    System::new().block_on(async {
        let pool = get_db_pool().await;
        sqlx::query("DROP TABLE users").execute(&pool).await.expect("failed to drop");
        let response = get_users(&pool).await;
        assert_eq!(response.status.code(), 500);
        assert!(read_message(response).starts_with("failed to fetch users: "));
        let response = post_user(&pool, &form("a@b.com", "555")).await;
        assert_eq!(response.status.code(), 500);
        assert!(read_message(response).starts_with("FAILED to create user: "));
        let response = get_user_by_id(&pool, "1").await;
        assert_eq!(response.status.code(), 404);
        assert_eq!(read_message(response), "User 1 does not exist");
    });
}

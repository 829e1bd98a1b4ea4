use authcore::db::DB;
use authcore::error::MyError;
use authcore::schema::{CreatePostSchema, CreateUserSchema, LoginSchema};

const KEY: &[u8] = b"LgKp";
const NOW: u64 = 1_700_000_000;
const LIFETIME: u64 = 21 * 3600;

fn store() -> DB {
    DB::new(KEY.to_vec())
}

fn user_schema(email: &str, password: &str, first: &str, last: &str) -> CreateUserSchema {
    CreateUserSchema {
        email: email.to_string(),
        password: password.to_string(),
        firstName: first.to_string(),
        lastName: last.to_string(),
    }
}

fn login_schema(email: &str, password: &str) -> LoginSchema {
    LoginSchema { email: email.to_string(), password: password.to_string() }
}

#[test]
fn register_then_login_resolves_same_account() {
    let mut db = store();
    let reg = db
        .create_user(&user_schema("a@b.c", "secret", "Ada", "Lovelace"), NOW)
        .expect("registration succeeds");
    assert!(reg.ok);
    assert_eq!(reg.data.user.email, "a@b.c");
    let login = db.login(&login_schema("a@b.c", "secret"), NOW + 5).expect("login succeeds");
    assert!(login.ok);
    let sub1 = db.id_from_jwt(&reg.data.token, NOW + 10).expect("registration token resolves");
    let sub2 = db.id_from_jwt(&login.data.token, NOW + 10).expect("login token resolves");
    assert_eq!(sub1, sub2);
    let me = db.connected(Some(&format!("Bearer {}", reg.data.token)), NOW + 10).unwrap();
    assert_eq!(me.data.email, "a@b.c");
    assert_eq!(me.data.firstName, "Ada");
    assert_eq!(me.data.lastName, "Lovelace");
}

#[test]
fn register_twice_duplicate_account() {
    let mut db = store();
    db.create_user(&user_schema("a@b.c", "one", "Ada", "Lovelace"), NOW).unwrap();
    let second = db.create_user(&user_schema("a@b.c", "two", "Grace", "Hopper"), NOW + 1);
    assert!(matches!(second, Err(MyError::MongoDuplicateError())));
    assert_eq!(db.users.len(), 1);
}

#[test]
fn register_empty_field_rejected() {
    let mut db = store();
    let r = db.create_user(&user_schema("", "pw", "Ada", "Lovelace"), NOW);
    assert!(matches!(r, Err(MyError::InvalidIdentifiants())));
    let r = db.create_user(&user_schema("a@b.c", "pw", "", "Lovelace"), NOW);
    assert!(matches!(r, Err(MyError::InvalidIdentifiants())));
    assert_eq!(db.users.len(), 0);
}

#[test]
fn login_failure_causes_are_indistinguishable() {
    let mut db = store();
    db.create_user(&user_schema("a@b.c", "right", "Ada", "Lovelace"), NOW).unwrap();
    let wrong_password = db.login(&login_schema("a@b.c", "wrong"), NOW).unwrap_err();
    let unknown_email = db.login(&login_schema("x@y.z", "right"), NOW).unwrap_err();
    let empty_field = db.login(&login_schema("", "right"), NOW).unwrap_err();
    for e in [&wrong_password, &unknown_email, &empty_field] {
        assert!(matches!(e, MyError::InvalidIdentifiants()));
    }
    let (c1, r1) = wrong_password.response_parts();
    let (c2, r2) = unknown_email.response_parts();
    let (c3, r3) = empty_field.response_parts();
    assert_eq!((c1, &r1.status, &r1.message), (c2, &r2.status, &r2.message));
    assert_eq!((c2, &r2.status, &r2.message), (c3, &r3.status, &r3.message));
    assert_eq!(c1, 401);
    assert_eq!(r1.message, "Bad Identifiants");
}

#[test]
fn password_is_stored_hashed() {
    let mut db = store();
    db.create_user(&user_schema("a@b.c", "plaintext", "Ada", "Lovelace"), NOW).unwrap();
    let stored = &db.users[0].password;
    assert_ne!(stored, "plaintext");
    assert_eq!(stored.len(), 96);
    assert!(stored.chars().all(|c| c.is_ascii_hexdigit()));
}

#[test]
fn expired_token_rejected() {
    let mut db = store();
    let reg = db.create_user(&user_schema("a@b.c", "pw", "Ada", "Lovelace"), NOW).unwrap();
    let token = reg.data.token;
    // Just inside the lifetime plus the 60-second leeway.
    assert!(db.id_from_jwt(&token, NOW + LIFETIME + 60).is_some());
    // One second past it.
    assert!(db.id_from_jwt(&token, NOW + LIFETIME + 61).is_none());
    let r = db.connected(Some(&token), NOW + LIFETIME + 61);
    assert!(matches!(r, Err(MyError::JwtNotFoundError(_))));
}

#[test]
fn tampered_signature_rejected() {
    let mut db = store();
    let reg = db.create_user(&user_schema("a@b.c", "pw", "Ada", "Lovelace"), NOW).unwrap();
    let token = reg.data.token;
    assert!(db.verify_token(&token));
    let last = token.chars().last().unwrap();
    let flipped = if last == 'A' { 'B' } else { 'A' };
    let mut tampered: String = token[..token.len() - 1].to_string();
    tampered.push(flipped);
    assert!(!db.verify_token(&tampered));
    assert!(db.id_from_jwt(&tampered, NOW).is_none());
    assert!(db.id_from_jwt("not-a-token", NOW).is_none());
    assert!(!db.verify_token("a.b"));
}

#[test]
fn bearer_prefix_is_tolerated_not_required() {
    let mut db = store();
    let reg = db.create_user(&user_schema("a@b.c", "pw", "Ada", "Lovelace"), NOW).unwrap();
    let token = reg.data.token;
    assert!(db.resolve_subject(Some(&token), NOW).is_some());
    assert!(db.resolve_subject(Some(&format!("Bearer {}", token)), NOW).is_some());
    // trim_start_matches removes every repetition of the scheme word.
    assert!(db.resolve_subject(Some(&format!("Bearer Bearer {}", token)), NOW).is_some());
    assert!(db.resolve_subject(None, NOW).is_none());
    assert!(db.resolve_subject(Some(""), NOW).is_none());
}

#[test]
fn create_post_stamps_author_and_empty_lists() {
    let mut db = store();
    let reg = db.create_user(&user_schema("a@b.c", "pw", "Ada", "Lovelace"), NOW).unwrap();
    let header = format!("Bearer {}", reg.data.token);
    let body = CreatePostSchema { title: "T".to_string(), content: "C".to_string() };
    let post = db.post(Some(&header), &body, NOW + 1).expect("post succeeds");
    assert!(post.ok);
    assert_eq!(post.data.firstName, "Ada");
    assert_eq!(post.data.title, "T");
    assert_eq!(post.data.content, "C");
    assert!(post.data.comments.is_empty());
    assert!(post.data.upVotes.is_empty());
    assert_eq!(db.posts.len(), 1);
    assert_eq!(db.posts[0].firstName, "Ada");
    assert_eq!(db.posts[0].userId, post.data.userId);
    assert_eq!(db.posts[0].createdAt, NOW + 1);
    // The stamped author name is a snapshot: a later edit does not change it.
    let edit = user_schema("a@b.c", "pw2", "Adelaide", "Lovelace");
    db.edit(Some(&header), &edit, NOW + 2).unwrap();
    assert_eq!(db.posts[0].firstName, "Ada");
}

#[test]
fn post_without_account_not_found() {
    let mut db = store();
    let reg = db.create_user(&user_schema("a@b.c", "pw", "Ada", "Lovelace"), NOW).unwrap();
    let header = format!("Bearer {}", reg.data.token);
    db.remove(Some(&header), NOW).unwrap();
    let body = CreatePostSchema { title: "T".to_string(), content: "C".to_string() };
    let r = db.post(Some(&header), &body, NOW + 1);
    assert!(matches!(r, Err(MyError::NotFoundError(_))));
    let r = db.post(None, &body, NOW + 1);
    assert!(matches!(r, Err(MyError::JwtNotFoundError(_))));
}

#[test]
fn list_posts_by_owner_filters_exactly() {
    let mut db = store();
    let a = db.create_user(&user_schema("a@b.c", "pw", "Ada", "Lovelace"), NOW).unwrap();
    let b = db.create_user(&user_schema("x@y.z", "pw", "Grace", "Hopper"), NOW).unwrap();
    let ha = format!("Bearer {}", a.data.token);
    let hb = format!("Bearer {}", b.data.token);
    let mk = |t: &str| CreatePostSchema { title: t.to_string(), content: "c".to_string() };
    db.post(Some(&ha), &mk("a1"), NOW + 1).unwrap();
    db.post(Some(&hb), &mk("b1"), NOW + 2).unwrap();
    db.post(Some(&ha), &mk("a2"), NOW + 3).unwrap();
    db.post(Some(&ha), &mk("a3"), NOW + 4).unwrap();
    let mine = db.get_user_post(Some(&ha), NOW + 5).unwrap();
    assert!(mine.ok);
    let titles: Vec<&str> = mine.data.iter().map(|p| p.title.as_str()).collect();
    assert_eq!(titles, vec!["a1", "a2", "a3"]);
    let all = db.get_post(Some(&ha), NOW + 5).unwrap();
    assert_eq!(all.data.len(), 4);
    let theirs = db.get_user_post(Some(&hb), NOW + 5).unwrap();
    assert_eq!(theirs.data.len(), 1);
    assert_eq!(theirs.data[0].title, "b1");
}

#[test]
fn get_id_post_ignores_id_but_rejects_placeholder() {
    let mut db = store();
    let a = db.create_user(&user_schema("a@b.c", "pw", "Ada", "Lovelace"), NOW).unwrap();
    let ha = format!("Bearer {}", a.data.token);
    let mk = |t: &str| CreatePostSchema { title: t.to_string(), content: "c".to_string() };
    db.post(Some(&ha), &mk("a1"), NOW + 1).unwrap();
    let r = db.get_id_post(Some(&ha), "undefined", NOW + 2);
    assert!(matches!(r, Err(MyError::InvalidIdentifiants())));
    let by_id = db.get_id_post(Some(&ha), "000000000000000000000099", NOW + 2).unwrap();
    let own = db.get_user_post(Some(&ha), NOW + 2).unwrap();
    assert_eq!(by_id.data.len(), own.data.len());
    assert_eq!(by_id.data[0].title, own.data[0].title);
    let r = db.get_id_post(None, "whatever", NOW + 2);
    assert!(matches!(r, Err(MyError::JwtNotFoundError(_))));
}

#[test]
fn edit_then_login_with_new_password() {
    let mut db = store();
    let reg = db.create_user(&user_schema("a@b.c", "old-pw", "Ada", "Lovelace"), NOW).unwrap();
    let header = format!("Bearer {}", reg.data.token);
    let edited = db
        .edit(Some(&header), &user_schema("new@b.c", "new-pw", "Ada", "King"), NOW + 1)
        .expect("edit succeeds");
    assert!(edited.ok);
    assert_eq!(edited.data.email, "new@b.c");
    assert_eq!(edited.data.lastName, "King");
    let ok = db.login(&login_schema("new@b.c", "new-pw"), NOW + 2).unwrap();
    assert!(ok.ok);
    let old = db.login(&login_schema("new@b.c", "old-pw"), NOW + 2);
    assert!(matches!(old, Err(MyError::InvalidIdentifiants())));
    let stale = db.login(&login_schema("a@b.c", "new-pw"), NOW + 2);
    assert!(matches!(stale, Err(MyError::InvalidIdentifiants())));
}

#[test]
fn edit_to_taken_email_is_store_failure() {
    let mut db = store();
    db.create_user(&user_schema("a@b.c", "pw", "Ada", "Lovelace"), NOW).unwrap();
    let b = db.create_user(&user_schema("x@y.z", "pw", "Grace", "Hopper"), NOW).unwrap();
    let hb = format!("Bearer {}", b.data.token);
    let r = db.edit(Some(&hb), &user_schema("a@b.c", "pw", "Grace", "Hopper"), NOW + 1);
    assert!(matches!(r, Err(MyError::MongoQueryError())));
    // Editing while keeping one's own email is fine.
    let r = db.edit(Some(&hb), &user_schema("x@y.z", "pw2", "Grace", "Hopper"), NOW + 1);
    assert!(r.is_ok());
}

#[test]
fn remove_deletes_exactly_one_and_reports_fields() {
    let mut db = store();
    let a = db.create_user(&user_schema("a@b.c", "pw", "Ada", "Lovelace"), NOW).unwrap();
    db.create_user(&user_schema("x@y.z", "pw", "Grace", "Hopper"), NOW).unwrap();
    let ha = format!("Bearer {}", a.data.token);
    let gone = db.remove(Some(&ha), NOW + 1).expect("removal succeeds");
    assert!(gone.ok);
    assert!(gone.data.removed);
    assert_eq!(gone.data.email, "a@b.c");
    assert_eq!(gone.data.firstName, "Ada");
    assert_eq!(gone.data.lastName, "Lovelace");
    assert_eq!(db.users.len(), 1);
    assert_eq!(db.users[0].email, "x@y.z");
    // The subject is already deleted: the same token now finds nothing.
    let again = db.remove(Some(&ha), NOW + 2);
    assert!(matches!(again, Err(MyError::NotFoundError(_))));
    assert_eq!(db.users.len(), 1);
}

#[test]
fn connected_requires_live_account() {
    let mut db = store();
    let a = db.create_user(&user_schema("a@b.c", "pw", "Ada", "Lovelace"), NOW).unwrap();
    let ha = format!("Bearer {}", a.data.token);
    assert!(db.connected(Some(&ha), NOW).is_ok());
    assert!(matches!(db.connected(None, NOW), Err(MyError::JwtNotFoundError(_))));
    db.remove(Some(&ha), NOW).unwrap();
    assert!(matches!(db.connected(Some(&ha), NOW), Err(MyError::NotFoundError(_))));
}

#[test]
fn error_rendering_is_fixed_per_kind() {
    let (code, body) = MyError::MongoDuplicateError().response_parts();
    assert_eq!(code, 409);
    assert_eq!(body.status, "fail");
    assert_eq!(body.message, "Note with that title already exists");
    let (code, body) = MyError::NotFoundError("abc".to_string()).response_parts();
    assert_eq!(code, 404);
    assert_eq!(body.status, "fail");
    assert_eq!(body.message, "User with ID: abc not found");
    let (code, body) = MyError::JwtNotFoundError("".to_string()).response_parts();
    assert_eq!(code, 401);
    assert_eq!(body.status, "fail");
    assert_eq!(body.message, "Jwt not found: ");
    let (code, body) = MyError::MongoQueryError().response_parts();
    assert_eq!(code, 500);
    assert_eq!(body.status, "error");
    assert_eq!(body.message, "MongoDB error");
    let (code, body) = MyError::InvalidIDError("9".to_string()).response_parts();
    assert_eq!(code, 400);
    assert_eq!(body.status, "fail");
    assert_eq!(body.message, "invalid ID: 9");
}

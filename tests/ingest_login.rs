use quoteyourlife_be::error::{handle_404, AppError, CredentialError, TokenError};
use quoteyourlife_be::gate::jwt_validation;
use quoteyourlife_be::ingest::{field_kind, ingest, FieldKind, NewNFT, Part};
use quoteyourlife_be::login::{check_login, finish_login, login, LoginData, StoredUser};
use quoteyourlife_be::records::ArticleStatus;
use quoteyourlife_be::text::join_path;
use quoteyourlife_be::token::verify_jwt;

fn part(name: &str, value: &str) -> Part {
    Part { name: name.to_string(), value: value.to_string() }
}

#[test]
fn parts_in_any_order_fill_the_record() {
    let orders = vec![
        vec![part("author", "A"), part("title", "T"), part("description", "D"), part("image", "f.png")],
        vec![part("image", "f.png"), part("description", "D"), part("title", "T"), part("author", "A")],
        vec![part("title", "T"), part("other", "x"), part("image", "f.png"), part("author", "A"), part("description", "D")],
    ];
    for parts in orders {
        let r = ingest(parts);
        assert_eq!(r.author, "A");
        assert_eq!(r.title, "T");
        assert_eq!(r.description, "D");
        assert_eq!(r.filename, "f.png");
    }
}

#[test]
fn missing_part_leaves_field_empty() {
    let r = ingest(vec![part("author", "A"), part("image", "f.png")]);
    assert_eq!(r.title, "");
    assert_eq!(r.description, "");
}

#[test]
fn later_part_overwrites_earlier() {
    let r = ingest(vec![part("title", "first"), part("title", "second")]);
    assert_eq!(r.title, "second");
}

#[test]
fn image_part_names_storage_path() {
    let mut rec = NewNFT::new();
    assert_eq!(rec.accept_part(part("image", "f.png"), "public"), Some("public/f.png".to_string()));
    assert_eq!(rec.accept_part(part("author", "A"), "public"), None);
    assert_eq!(rec.accept_part(part("color", "red"), "public"), None);
    assert_eq!(rec.filename, "f.png");
    assert_eq!(rec.author, "A");
    assert_eq!(join_path("public/", "f.png"), "public/f.png");
    assert_eq!(join_path("", "f.png"), "/f.png");
}

#[test]
fn field_names_are_classified() {
    assert_eq!(field_kind("author"), FieldKind::Author);
    assert_eq!(field_kind("title"), FieldKind::Title);
    assert_eq!(field_kind("description"), FieldKind::Description);
    assert_eq!(field_kind("image"), FieldKind::Image);
    assert_eq!(field_kind("Image"), FieldKind::Ignored);
    assert_eq!(field_kind(""), FieldKind::Ignored);
}

fn stored(password: &str) -> StoredUser {
    StoredUser { id: "u-42".to_string(), password_hash: bcrypt::hash(password, 4).unwrap() }
}

fn data(username: &str, password: &str) -> LoginData {
    LoginData { username: username.to_string(), password: password.to_string() }
}

#[test]
fn empty_credentials_are_bad_requests() {
    let r = check_login(&data("", "secret")).unwrap_err();
    assert_eq!(r.status, 400);
    assert_eq!(r.message, "Username/password tidak boleh kosong!");
    assert!(check_login(&data("bob", "")).is_err());
    assert!(check_login(&data("bob", "secret")).is_ok());
    let users = vec![stored("secret")];
    assert_eq!(login(&data("", ""), &users, "k", 1_000).status, 400);
}

#[test]
fn unknown_user_is_not_found() {
    let r = login(&data("bob", "secret"), &vec![], "k", 1_000);
    assert_eq!(r.status, 404);
    assert!(!r.success);
    assert_eq!(r.message, "Username tidak ditemukan!");
}

#[test]
fn wrong_password_is_unauthorized() {
    let r = login(&data("bob", "nope"), &vec![stored("secret")], "k", 1_000);
    assert_eq!(r.status, 401);
    assert_eq!(r.message, "Login Gagal: Password Salah!");
    assert!(r.token.is_none());
}

#[test]
fn malformed_hash_is_internal_error() {
    let users = vec![StoredUser { id: "u-42".to_string(), password_hash: "not-a-hash".to_string() }];
    let r = login(&data("bob", "secret"), &users, "k", 1_000);
    assert_eq!(r.status, 500);
    assert_eq!(finish_login(None, "u-42", "k", 1_000).status, 500);
    assert_eq!(finish_login(Some(false), "u-42", "k", 1_000).status, 401);
}

#[test]
fn login_then_gated_request() {
    let r = login(&data("bob", "secret"), &vec![stored("secret")], "k", 1_000);
    assert_eq!(r.status, 202);
    assert!(r.success);
    assert_eq!(r.message, "Login Berhasil");
    let token = r.token.unwrap();
    assert_eq!(verify_jwt("k", &token, 1_000).unwrap().sub, "u-42");
    let header = format!("Bearer {}", token);
    assert_eq!(jwt_validation(Some(&header), "k", 1_500).unwrap().sub, "u-42");
    let refused = jwt_validation(None, "k", 1_500).unwrap_err();
    assert_eq!(AppError::CredentialError(refused).into_response().status, 401);
}

#[test]
fn error_statuses_follow_taxonomy() {
    let cases = vec![
        (AppError::DatabaseError("x".to_string()), 500),
        (AppError::PoolError("x".to_string()), 500),
        (AppError::AsyncTaskError("x".to_string()), 500),
        (AppError::JWTValidationError(TokenError::Expired), 401),
        (AppError::JWTValidationError(TokenError::Signing), 500),
        (AppError::CredentialError(CredentialError::Malformed), 401),
        (AppError::ValidationError("bad body".to_string()), 400),
        (AppError::NotFound("no such user".to_string()), 404),
        (AppError::GeneralError("oops".to_string()), 500),
    ];
    for (e, status) in cases {
        assert_eq!(e.into_response().status, status);
    }
    assert_eq!(AppError::GeneralError("oops".to_string()).into_response().message, "oops");
    assert_eq!(AppError::DatabaseError("secret detail".to_string()).into_response().message, "A database error occurred");
    let nf = handle_404();
    assert_eq!(nf.status, 404);
    assert_eq!(nf.message, "Route not found");
}

#[test]
fn article_status_labels() {
    assert_eq!(ArticleStatus::parse("draft"), Some(ArticleStatus::Draft));
    assert_eq!(ArticleStatus::parse("published"), Some(ArticleStatus::Published));
    assert_eq!(ArticleStatus::parse("Draft"), None);
    assert_eq!(ArticleStatus::Published.label(), "published");
}

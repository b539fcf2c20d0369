use vstd::prelude::*;
use crate::error::{STATUS_ACCEPTED, STATUS_BAD_REQUEST, STATUS_INTERNAL, STATUS_NOT_FOUND, STATUS_UNAUTHORIZED};
use crate::token::{clock_in_range, create_jwt, jwt_signed, TOKEN_LIFETIME_SECS};

verus! {

/// The body of a login request.
#[derive(Clone, Debug)]
pub struct LoginData {
    pub username: String,
    pub password: String,
}

/// A stored account as the login needs it: its identifier as text and its
/// bcrypt password hash.
#[derive(Clone, Debug)]
pub struct StoredUser {
    pub id: String,
    pub password_hash: String,
}

/// A login response: status code, and the body
/// `{"status": "success"|"fail", "message": ..., "token": ...}`.
#[derive(Clone, Debug)]
pub struct LoginReply {
    pub status: u16,
    pub success: bool,
    pub message: String,
    pub token: Option<String>,
}

pub ghost struct LoginView {
    pub status: u16,
    pub success: bool,
    pub message: Seq<char>,
    pub token: Option<Seq<char>>,
}

impl View for LoginReply {
    type V = LoginView;

    open spec fn view(&self) -> LoginView {
        LoginView {
            status: self.status,
            success: self.success,
            message: self.message@,
            token: match self.token {
                Some(t) => Some(t@),
                None => None,
            },
        }
    }
}

pub open spec fn failed(status: u16, message: Seq<char>) -> LoginView {
    LoginView { status, success: false, message, token: None }
}

/// Whether bcrypt finds that the password matches the hash; `None` when the
/// hash is not a well-formed bcrypt hash.
pub uninterp spec fn bcrypt_verdict(password: Seq<char>, hash: Seq<char>) -> Option<bool>;

/// Relies on bcrypt::verify: the verdict depends on the password and the hash
/// (which carries its own salt and cost) alone.
#[verifier::external_body]
fn password_matches(password: &str, hash: &str) -> (r: Option<bool>)
    ensures
        r == bcrypt_verdict(password@, hash@),
{
    bcrypt::verify(password, hash).ok()
}

/// The reply once the password has been checked against the stored hash.
pub open spec fn after_verdict(verdict: Option<bool>, user_id: Seq<char>, secret: Seq<char>, now: u64) -> LoginView {
    match verdict {
        None => failed(STATUS_INTERNAL, "Login Gagal, Internal server error"@),
        Some(false) => failed(STATUS_UNAUTHORIZED, "Login Gagal: Password Salah!"@),
        Some(true) => match jwt_signed(user_id, now, (now + TOKEN_LIFETIME_SECS) as u64, secret) {
            Some(t) => LoginView { status: STATUS_ACCEPTED, success: true, message: "Login Berhasil"@, token: Some(t) },
            None => failed(STATUS_INTERNAL, "Login Gagal, Internal server error"@),
        },
    }
}

/// The whole login decision, given the accounts that the username lookup
/// found.
pub open spec fn login_outcome(username: Seq<char>, password: Seq<char>, users: Seq<(Seq<char>, Seq<char>)>, secret: Seq<char>, now: u64) -> LoginView {
    if username.len() == 0 || password.len() == 0 {
        failed(STATUS_BAD_REQUEST, "Username/password tidak boleh kosong!"@)
    } else if users.len() == 0 {
        failed(STATUS_NOT_FOUND, "Username tidak ditemukan!"@)
    } else {
        after_verdict(bcrypt_verdict(password, users[0].1), users[0].0, secret, now)
    }
}

/// Refuses a login with an empty username or password, before any lookup.
pub fn check_login(data: &LoginData) -> (r: Result<(), LoginReply>)
    ensures
        r is Err <==> (data.username@.len() == 0 || data.password@.len() == 0),
        r is Err ==> r->Err_0@ == failed(STATUS_BAD_REQUEST, "Username/password tidak boleh kosong!"@),
{
    if data.username.as_str().is_empty() || data.password.as_str().is_empty() {
        Err(LoginReply {
            status: STATUS_BAD_REQUEST,
            success: false,
            message: "Username/password tidak boleh kosong!".to_owned(),
            token: None,
        })
    } else {
        Ok(())
    }
}

/// Answers a login once bcrypt has given its verdict on the password: a match
/// issues a session token for `user_id` (202), a mismatch is refused (401).
pub fn finish_login(verdict: Option<bool>, user_id: &str, secret: &str, now: u64) -> (r: LoginReply)
    requires
        clock_in_range(now),
    ensures
        r@ == after_verdict(verdict, user_id@, secret@, now),
{
    let internal = LoginReply {
        status: STATUS_INTERNAL,
        success: false,
        message: "Login Gagal, Internal server error".to_owned(),
        token: None,
    };
    match verdict {
        None => internal,
        Some(false) => LoginReply {
            status: STATUS_UNAUTHORIZED,
            success: false,
            message: "Login Gagal: Password Salah!".to_owned(),
            token: None,
        },
        Some(true) => match create_jwt(secret, user_id, now) {
            Ok(t) => LoginReply { status: STATUS_ACCEPTED, success: true, message: "Login Berhasil".to_owned(), token: Some(t) },
            Err(_) => internal,
        },
    }
}

/// Logs a user in, given the accounts that the lookup of `data.username`
/// found (the first one counts): 400 for an empty username or password, 404
/// when no account was found, else as `finish_login` with bcrypt's verdict.
pub fn login(data: &LoginData, users: &Vec<StoredUser>, secret: &str, now: u64) -> (r: LoginReply)
    requires
        clock_in_range(now),
    ensures
        r@ == login_outcome(
            data.username@,
            data.password@,
            users@.map_values(|u: StoredUser| (u.id@, u.password_hash@)),
            secret@,
            now,
        ),
{
    match check_login(data) {
        Err(reply) => reply,
        Ok(()) => {
            if users.len() == 0 {
                LoginReply {
                    status: STATUS_NOT_FOUND,
                    success: false,
                    message: "Username tidak ditemukan!".to_owned(),
                    token: None,
                }
            } else {
                let user = &users[0];
                let verdict = password_matches(data.password.as_str(), user.password_hash.as_str());
                finish_login(verdict, user.id.as_str(), secret, now)
            }
        },
    }
}

/// A login with an empty username or an empty password is answered 400,
/// whatever the lookup would have found.
pub proof fn lemma_empty_credentials_rejected(
    username: Seq<char>,
    password: Seq<char>,
    users: Seq<(Seq<char>, Seq<char>)>,
    secret: Seq<char>,
    now: u64,
)
    requires
        username.len() == 0 || password.len() == 0,
    ensures
        login_outcome(username, password, users, secret, now).status == STATUS_BAD_REQUEST,
        login_outcome(username, password, users, secret, now) == login_outcome(username, password, Seq::empty(), secret, now),
{
}

} // verus!

//! Registration and login requests and the user record they return.
use vstd::prelude::*;
use crate::config::opt_view;
use vstd::utf8::encode_utf8;
use crate::error::{AppError, ErrorStatus};
use crate::text::{is_ws, lemma_trimmed_unpadded, trim, trimmed};

verus! {

/// A registration request.
#[derive(Debug)]
pub struct RegisterReq {
    pub username: String,
    pub email: Option<String>,
    pub password: String,
}

/// A login request; `login` is a username or an email.
#[derive(Debug)]
pub struct LoginReq {
    pub login: String,
    pub password: String,
}

/// A user as the API shows it.
#[derive(Debug)]
pub struct UserDto {
    pub id: String,
    pub username: String,
    pub email: Option<String>,
    pub role: String,
}

/// The answer to a successful registration or login.
#[derive(Debug)]
pub struct AuthResp {
    pub token: String,
    pub user: UserDto,
}

/// The number of bytes of the UTF-8 encoding of `s`, as `str::len` gives it.
pub open spec fn byte_len(s: Seq<char>) -> usize {
    encode_utf8(s).len() as usize
}

/// The e-mail address kept from a registration: trimmed, dropped when empty.
pub open spec fn email_spec(email: Option<Seq<char>>) -> Option<Seq<char>> {
    match email {
        Some(e) => if trimmed(e).len() > 0 {
            Some(trimmed(e))
        } else {
            None
        },
        None => None,
    }
}

/// A registration as accepted: trimmed username and the e-mail kept.
#[derive(Debug)]
pub struct NewUser {
    pub username: String,
    pub email: Option<String>,
}

/// The rules for a registration: a trimmed username of at least three bytes,
/// a password of at least six bytes.
pub open spec fn register_spec(req: RegisterReq) -> Result<(Seq<char>, Option<Seq<char>>), Seq<char>> {
    if byte_len(trimmed(req.username@)) < 3 {
        Err("用户名至少 3 个字符"@)
    } else if byte_len(req.password@) < 6 {
        Err("密码至少 6 个字符"@)
    } else {
        Ok((trimmed(req.username@), email_spec(opt_view(req.email))))
    }
}

/// Accepts or refuses a registration request.
pub fn register_input(req: &RegisterReq) -> (r: Result<NewUser, AppError>)
    ensures
        r matches Ok(u) ==> register_spec(*req) == Ok::<(Seq<char>, Option<Seq<char>>), Seq<char>>((u.username@, opt_view(u.email))),
        r matches Err(e) ==> e.status == ErrorStatus::BadRequest && register_spec(*req) == Err::<(Seq<char>, Option<Seq<char>>), Seq<char>>(e.message@),
        r matches Ok(u) ==> u.username@ == trimmed(req.username@),
        r matches Ok(u) ==> (u.email matches Some(e) ==> req.email matches Some(g) && e@ == trimmed(g@) && e@.len() > 0),
{
    let username = trim(req.username.as_str());
    if username.len() < 3 {
        return Err(AppError::bad_request("用户名至少 3 个字符"));
    }
    if req.password.as_str().len() < 6 {
        return Err(AppError::bad_request("密码至少 6 个字符"));
    }
    let email = match &req.email {
        Some(e) => {
            let t = trim(e.as_str());
            if t.unicode_len() > 0 {
                Some(t.to_owned())
            } else {
                None
            }
        },
        None => None,
    };
    Ok(NewUser { username: username.to_owned(), email })
}

/// An accepted registration stores the username exactly as given, trimmed
/// (case kept: a name with no surrounding whitespace is stored unchanged), and
/// a later login with the same text looks up that very username; an e-mail
/// kept is the given one, trimmed and not empty.
pub proof fn lemma_registered_name_is_login_key(req: RegisterReq, login: LoginReq)
    requires
        login.login@ == req.username@,
    ensures
        register_spec(req) matches Ok((u, e)) ==> {
            &&& u == trimmed(req.username@)
            &&& trimmed(login.login@) == u
            &&& (req.username@.len() > 0 && !is_ws(req.username@[0]) && !is_ws(req.username@.last())
                ==> u == req.username@)
            &&& (e matches Some(m) ==> req.email matches Some(g) && m == trimmed(g@) && m.len() > 0)
        },
{
    if req.username@.len() > 0 && !is_ws(req.username@[0]) && !is_ws(req.username@.last()) {
        lemma_trimmed_unpadded(req.username@);
    }
}

/// The name or e-mail looked up at login: the request's, trimmed.
pub fn login_key(req: &LoginReq) -> (k: &str)
    ensures
        k@ == trimmed(req.login@),
{
    trim(req.login.as_str())
}

/// The user record of a fresh registration, with role `user`.
pub fn registered_user(id: String, username: String, email: Option<String>) -> (u: UserDto)
    ensures
        u.id@ == id@,
        u.username@ == username@,
        opt_view(u.email) == opt_view(email),
        u.role@ == "user"@,
{
    UserDto { id, username, email, role: "user".to_owned() }
}

} // verus!

//! Sign-up and login.

use vstd::prelude::*;
use vstd::string::*;
use vstd::utf8::*;
use crate::models::user::{AuthResponse, RegisterRequest, User};
use crate::password::{
    argon2_verifies, hash_failure_prefix, hash_password, is_generated_salt, phc_layout,
    verify_password,
};
use crate::response::{is_error_reply, is_success_reply, ApiResponse, HttpReply};
use crate::stamps::{ends_with_utc_offset, is_uuid_v4_text, new_uuid, now_rfc3339};
use crate::text::{byte_len, lowercase_of, to_lowercase, trim, trimmed};
use crate::validation::{is_strong_password, is_valid_email, password_problem, valid_email};

verus! {

/// An e-mail address as the service compares and stores it: trimmed, then lower-cased.
pub open spec fn normalized_email(email: Seq<char>) -> Seq<char> {
    lowercase_of(trimmed(email))
}

/// Trims and lower-cases an e-mail address.
pub fn normalize_email(email: &str) -> (r: String)
    ensures
        r@ == normalized_email(email@),
{
    let t = trim(email);
    to_lowercase(t.as_str())
}

/// The name and e-mail of a sign-up that passed validation.
pub struct Registration {
    pub nome: String,
    pub email: String,
}

/// Why a sign-up is refused, as the message shown; `None` when it is
/// accepted. The trimmed name must be 1 to 100 bytes, the normalized e-mail
/// valid and the password strong.
pub open spec fn registration_problem(req: RegisterRequest) -> Option<Seq<char>> {
    let nome = trimmed(req.nome@);
    if nome.len() == 0 || encode_utf8(nome).len() > 100 {
        Some("Nome invalido (1-100 caracteres)."@)
    } else if !valid_email(normalized_email(req.email@)) {
        Some("Formato de e-mail invalido."@)
    } else {
        password_problem(req.senha@)
    }
}

/// Validates a sign-up: the trimmed name and normalized e-mail, or the 400
/// reply that names the first problem.
pub fn check_registration(req: &RegisterRequest) -> (r: Result<Registration, HttpReply<()>>)
    ensures
        match registration_problem(*req) {
            Some(m) => r matches Err(rep) && is_error_reply(rep, 400, m),
            None => r matches Ok(reg) && reg.nome@ == trimmed(req.nome@) && reg.email@
                == normalized_email(req.email@),
        },
{
    let nome = trim(req.nome.as_str());
    let email = normalize_email(req.email.as_str());
    let nl = byte_len(nome.as_str());
    if nl == 0 || nl > 100 {
        return Err(ApiResponse::error(400, "Nome invalido (1-100 caracteres)."));
    }
    if !is_valid_email(email.as_str()) {
        return Err(ApiResponse::error(400, "Formato de e-mail invalido."));
    }
    match is_strong_password(req.senha.as_str()) {
        Err(m) => Err(ApiResponse::error(400, m)),
        Ok(()) => Ok(Registration { nome, email }),
    }
}

/// The role of every account created by sign-up.
pub open spec fn member_role() -> Seq<char> {
    "user"@
}

/// Decides a sign-up once the store has said whether the e-mail is taken: a
/// taken e-mail is refused (400); otherwise the password is hashed and the
/// new account built, with a fresh id, the `user` role, active, created now.
/// That succeeds for every password of at most 2^32 - 1 bytes. The stored
/// hash accepts the password it was made from and is laid out as a default
/// Argon2id PHC string with a generated salt.
pub fn open_account(email_taken: bool, reg: Registration, senha: &str) -> (r: Result<
    User,
    HttpReply<()>,
>)
    ensures
        email_taken ==> (r matches Err(rep) && is_error_reply(
            rep,
            400,
            "Este e-mail ja esta cadastrado."@,
        )),
        !email_taken && encode_utf8(senha@).len() <= 0xFFFF_FFFF ==> r is Ok,
        !email_taken ==> match r {
            Ok(u) => {
                &&& is_uuid_v4_text(u.id@)
                &&& u.nome@ == reg.nome@
                &&& u.email@ == reg.email@
                &&& u.role@ == member_role()
                &&& u.ativo
                &&& ends_with_utc_offset(u.criado_em@)
                &&& argon2_verifies(senha@, u.senha_hash@)
                &&& exists|salt: Seq<char>| is_generated_salt(salt) && phc_layout(u.senha_hash@, salt)
            },
            Err(rep) => {
                &&& rep.status == 500
                &&& !rep.body.success
                &&& rep.body.data is None
                &&& rep.body.message@.len() >= hash_failure_prefix().len()
                &&& rep.body.message@.subrange(0, hash_failure_prefix().len() as int)
                    == hash_failure_prefix()
            },
        },
{
    if email_taken {
        return Err(ApiResponse::error(400, "Este e-mail ja esta cadastrado."));
    }
    match hash_password(senha) {
        Err(e) => Err(ApiResponse::error(500, e.as_str())),
        Ok(senha_hash) => Ok(
            User {
                id: new_uuid(),
                nome: reg.nome,
                email: reg.email,
                senha_hash,
                role: String::from_str("user"),
                criado_em: now_rfc3339(),
                ativo: true,
            },
        ),
    }
}

fn auth_body(token: String, user: User) -> (a: AuthResponse)
    ensures
        a.token == token,
        a.user_id == user.id,
        a.nome == user.nome,
        a.role == user.role,
{
    AuthResponse { token, user_id: user.id, nome: user.nome, role: user.role }
}

/// The reply to a sign-up that was stored, with the token issued for it.
pub fn registration_reply(user: User, token: String) -> (r: HttpReply<AuthResponse>)
    ensures
        r.status == 200,
        r.body.success,
        r.body.message@ == "Cadastro realizado com sucesso!"@,
        r.body.data matches Some(a) && a.token == token && a.user_id == user.id && a.nome
            == user.nome && a.role == user.role,
{
    ApiResponse::success("Cadastro realizado com sucesso!", Some(auth_body(token, user)))
}

/// How many failed logins within the window lock an account.
pub const MAX_LOGIN_FAILURES: i64 = 5;

/// The window, in minutes, over which failed logins are counted.
pub const LOGIN_WINDOW_MINUTES: i64 = 15;

/// Lets a login attempt go on unless the account has had
/// [`MAX_LOGIN_FAILURES`] failed logins in the window; then the reply is 429.
pub fn login_gate(recent_failures: i64) -> (r: Result<(), HttpReply<()>>)
    ensures
        recent_failures >= MAX_LOGIN_FAILURES ==> (r matches Err(rep) && is_error_reply(
            rep,
            429,
            "Conta temporariamente bloqueada por excesso de tentativas. Tente em 15 minutos."@,
        )),
        recent_failures < MAX_LOGIN_FAILURES ==> r is Ok,
{
    if recent_failures >= MAX_LOGIN_FAILURES {
        Err(
            ApiResponse::error(
                429,
                "Conta temporariamente bloqueada por excesso de tentativas. Tente em 15 minutos.",
            ),
        )
    } else {
        Ok(())
    }
}

/// The message of every refused login, whether the e-mail is unknown or the
/// password wrong, so that a reply does not tell which.
pub open spec fn bad_credentials_message() -> Seq<char> {
    "E-mail ou senha incorretos."@
}

/// The account a login attempt may open: the account found for the e-mail,
/// when the password matches its hash.
pub open spec fn login_accepts(found: Option<User>, senha: Seq<char>) -> bool {
    found matches Some(u) && argon2_verifies(senha, u.senha_hash@)
}

/// Checks a password against the account found for the e-mail: the account,
/// or the 401 reply, the same for an unknown e-mail and a wrong password.
pub fn check_credentials(found: Option<User>, senha: &str) -> (r: Result<User, HttpReply<()>>)
    ensures
        login_accepts(found, senha@) ==> (r matches Ok(u) && found == Some(u)),
        !login_accepts(found, senha@) ==> (r matches Err(rep) && is_error_reply(
            rep,
            401,
            bad_credentials_message(),
        )),
{
    match found {
        None => Err(ApiResponse::error(401, "E-mail ou senha incorretos.")),
        Some(u) => {
            if verify_password(senha, u.senha_hash.as_str()) {
                Ok(u)
            } else {
                Err(ApiResponse::error(401, "E-mail ou senha incorretos."))
            }
        },
    }
}

/// The reply to an accepted login: the token issued for the account, or the
/// 500 reply with the message of the failure to issue one.
pub fn login_reply(user: User, token: Result<String, String>) -> (r: HttpReply<AuthResponse>)
    ensures
        match token {
            Ok(t) => r.status == 200 && r.body.success && r.body.message@
                == "Login realizado com sucesso!"@ && (r.body.data matches Some(a) && a.token == t
                && a.user_id == user.id && a.nome == user.nome && a.role == user.role),
            Err(e) => is_error_reply(r, 500, e@),
        },
{
    match token {
        Ok(t) => ApiResponse::success("Login realizado com sucesso!", Some(auth_body(t, user))),
        Err(e) => ApiResponse::error(500, e.as_str()),
    }
}

} // verus!

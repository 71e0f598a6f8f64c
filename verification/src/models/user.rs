//! Accounts and the requests that create them or log them in.

use vstd::prelude::*;

verus! {

/// An account as stored.
pub struct User {
    pub id: String,
    pub nome: String,
    pub email: String,
    pub senha_hash: String,
    pub role: String,
    pub criado_em: String,
    pub ativo: bool,
}

/// The contents of a [`User`].
pub struct UserView {
    pub id: Seq<char>,
    pub nome: Seq<char>,
    pub email: Seq<char>,
    pub senha_hash: Seq<char>,
    pub role: Seq<char>,
    pub criado_em: Seq<char>,
    pub ativo: bool,
}

impl View for User {
    type V = UserView;

    open spec fn view(&self) -> UserView {
        UserView {
            id: self.id@,
            nome: self.nome@,
            email: self.email@,
            senha_hash: self.senha_hash@,
            role: self.role@,
            criado_em: self.criado_em@,
            ativo: self.ativo,
        }
    }
}

/// A sign-up request.
pub struct RegisterRequest {
    pub nome: String,
    pub email: String,
    pub senha: String,
}

/// A login request.
pub struct LoginRequest {
    pub email: String,
    pub senha: String,
}

/// What a successful sign-up or login returns.
pub struct AuthResponse {
    pub token: String,
    pub user_id: String,
    pub nome: String,
    pub role: String,
}

} // verus!

//! Requests for service ("chamados") and the requests that create or change them.

use vstd::prelude::*;

verus! {

/// A request for service as stored.
pub struct Chamado {
    pub id: String,
    pub titulo: String,
    pub tipo: String,
    pub descricao: String,
    pub endereco: String,
    pub foto_url: Option<String>,
    pub status: String,
    pub user_id: String,
    pub user_nome: String,
    pub criado_em: String,
    pub atualizado_em: String,
}

/// The contents of a [`Chamado`].
pub struct ChamadoView {
    pub id: Seq<char>,
    pub titulo: Seq<char>,
    pub tipo: Seq<char>,
    pub descricao: Seq<char>,
    pub endereco: Seq<char>,
    pub foto_url: Option<Seq<char>>,
    pub status: Seq<char>,
    pub user_id: Seq<char>,
    pub user_nome: Seq<char>,
    pub criado_em: Seq<char>,
    pub atualizado_em: Seq<char>,
}

impl View for Chamado {
    type V = ChamadoView;

    open spec fn view(&self) -> ChamadoView {
        ChamadoView {
            id: self.id@,
            titulo: self.titulo@,
            tipo: self.tipo@,
            descricao: self.descricao@,
            endereco: self.endereco@,
            foto_url: self.foto_url.deep_view(),
            status: self.status@,
            user_id: self.user_id@,
            user_nome: self.user_nome@,
            criado_em: self.criado_em@,
            atualizado_em: self.atualizado_em@,
        }
    }
}

/// A request to open a new chamado.
pub struct CreateChamadoRequest {
    pub titulo: String,
    pub tipo: String,
    pub descricao: String,
    pub endereco: String,
    pub foto_url: Option<String>,
}

/// A request to change some fields of a chamado; absent fields stay.
pub struct UpdateChamadoRequest {
    pub titulo: Option<String>,
    pub tipo: Option<String>,
    pub descricao: Option<String>,
    pub endereco: Option<String>,
    pub foto_url: Option<String>,
    pub status: Option<String>,
}

/// A request to change the status of a chamado.
pub struct UpdateStatusRequest {
    pub status: String,
}

} // verus!

//! Opening, changing and removing chamados.

use vstd::prelude::*;
use vstd::string::*;
use vstd::utf8::*;
use crate::jwt::{bearer_token, has_bearer_prefix, Claims};
use crate::models::chamado::{
    Chamado, ChamadoView, CreateChamadoRequest, UpdateChamadoRequest, UpdateStatusRequest,
};
use crate::models::user::User;
use crate::response::{is_error_reply, is_success_reply, ApiResponse, HttpReply};
use crate::stamps::{ends_with_utc_offset, is_uuid_v4_text, new_uuid, now_rfc3339};
use crate::text::{byte_len, same_text, trim, trimmed};
use crate::validation::{
    html_escaped, is_known_status, is_known_tipo, is_valid_status, is_valid_tipo, sanitize_text,
};

verus! {

/// The token of the `Authorization` header, or the 401 reply sent when the
/// header carries none.
pub fn require_token(header: &str) -> (r: Result<String, HttpReply<()>>)
    ensures
        match r {
            Ok(t) => has_bearer_prefix(header@) && t@ == header@.subrange(7, header@.len() as int),
            Err(rep) => !has_bearer_prefix(header@) && is_error_reply(
                rep,
                401,
                "Token de autenticacao ausente."@,
            ),
        },
{
    match bearer_token(header) {
        Some(t) => Ok(t),
        None => Err(ApiResponse::error(401, "Token de autenticacao ausente.")),
    }
}

/// User text as stored: without white space at the ends, HTML escaped.
pub open spec fn cleaned(s: Seq<char>) -> Seq<char> {
    html_escaped(trimmed(s))
}

/// Trims `s` and escapes it for HTML.
pub fn clean_text(s: &str) -> (r: String)
    ensures
        r@ == cleaned(s@),
{
    let t = trim(s);
    sanitize_text(t.as_str())
}

fn copy_text(s: &String) -> (r: String)
    ensures
        r@ == s@,
{
    s.clone()
}

fn copy_opt_text(o: &Option<String>) -> (r: Option<String>)
    ensures
        r.deep_view() == o.deep_view(),
{
    match o {
        Some(s) => Some(s.clone()),
        None => None,
    }
}

/// The fields of a new chamado once they have passed validation.
pub struct ChamadoDraft {
    pub titulo: String,
    pub tipo: String,
    pub descricao: String,
    pub endereco: String,
    pub foto_url: Option<String>,
}

/// Why a new chamado is refused, as the message shown; `None` when it is
/// accepted. The title must be 1 to 200 bytes and the description 1 to 2000
/// bytes once cleaned, and the kind must be known.
pub open spec fn new_chamado_problem(req: CreateChamadoRequest) -> Option<Seq<char>> {
    let t = cleaned(req.titulo@);
    let d = cleaned(req.descricao@);
    if t.len() == 0 || encode_utf8(t).len() > 200 {
        Some("Titulo invalido (1-200 caracteres)."@)
    } else if d.len() == 0 || encode_utf8(d).len() > 2000 {
        Some("Descricao invalida (1-2000 caracteres)."@)
    } else if !is_known_tipo(req.tipo@) {
        Some("Tipo de chamado invalido."@)
    } else {
        None
    }
}

/// Validates and cleans a request to open a chamado: the draft to store, or
/// the 400 reply that names the first problem.
pub fn check_new_chamado(req: &CreateChamadoRequest) -> (r: Result<ChamadoDraft, HttpReply<()>>)
    ensures
        match new_chamado_problem(*req) {
            Some(m) => r matches Err(rep) && is_error_reply(rep, 400, m),
            None => r matches Ok(d) && d.titulo@ == cleaned(req.titulo@) && d.descricao@
                == cleaned(req.descricao@) && d.endereco@ == cleaned(req.endereco@) && d.tipo@
                == req.tipo@ && d.foto_url.deep_view() == req.foto_url.deep_view(),
        },
{
    let titulo = clean_text(req.titulo.as_str());
    let descricao = clean_text(req.descricao.as_str());
    let endereco = clean_text(req.endereco.as_str());
    let tl = byte_len(titulo.as_str());
    if tl == 0 || tl > 200 {
        return Err(ApiResponse::error(400, "Titulo invalido (1-200 caracteres)."));
    }
    let dl = byte_len(descricao.as_str());
    if dl == 0 || dl > 2000 {
        return Err(ApiResponse::error(400, "Descricao invalida (1-2000 caracteres)."));
    }
    if !is_valid_tipo(req.tipo.as_str()) {
        return Err(ApiResponse::error(400, "Tipo de chamado invalido."));
    }
    Ok(
        ChamadoDraft {
            titulo,
            tipo: copy_text(&req.tipo),
            descricao,
            endereco,
            foto_url: copy_opt_text(&req.foto_url),
        },
    )
}

/// A stored chamado has a known kind and a known status.
pub open spec fn chamado_well_formed(c: ChamadoView) -> bool {
    is_known_tipo(c.tipo) && is_known_status(c.status)
}

/// The chamado opened from a draft by the holder of `claims`: a fresh id,
/// status `pending`, the author's name (or, for an unknown author, the e-mail
/// of the token) and the current time as creation and update time.
pub fn new_chamado(draft: ChamadoDraft, claims: &Claims, author: Option<User>) -> (c: Chamado)
    ensures
        is_uuid_v4_text(c.id@),
        c.titulo@ == draft.titulo@,
        c.tipo@ == draft.tipo@,
        c.descricao@ == draft.descricao@,
        c.endereco@ == draft.endereco@,
        c.foto_url.deep_view() == draft.foto_url.deep_view(),
        c.status@ == "pending"@,
        c.user_id@ == claims.sub@,
        c.user_nome@ == match author {
            Some(u) => u.nome@,
            None => claims.email@,
        },
        c.atualizado_em@ == c.criado_em@,
        ends_with_utc_offset(c.criado_em@),
        may_modify(c@, *claims),
        is_known_tipo(draft.tipo@) ==> chamado_well_formed(c@),
{
    let user_nome = match author {
        Some(u) => u.nome,
        None => copy_text(&claims.email),
    };
    let now = now_rfc3339();
    let status = String::from_str("pending");
    Chamado {
        id: new_uuid(),
        titulo: draft.titulo,
        tipo: draft.tipo,
        descricao: draft.descricao,
        endereco: draft.endereco,
        foto_url: draft.foto_url,
        status,
        user_id: copy_text(&claims.sub),
        user_nome,
        criado_em: copy_text(&now),
        atualizado_em: now,
    }
}

/// Whether the holder of `claims` may change or remove chamado `c`: its
/// author or an administrator.
pub open spec fn may_modify(c: ChamadoView, claims: Claims) -> bool {
    c.user_id == claims.sub@ || claims.role@ == "admin"@
}

/// Whether the holder of `claims` may change or remove `c`.
pub fn can_modify(c: &Chamado, claims: &Claims) -> (r: bool)
    ensures
        r == may_modify(c@, *claims),
{
    same_text(c.user_id.as_str(), claims.sub.as_str()) || same_text(claims.role.as_str(), "admin")
}

/// Whether the holder of `claims` is an administrator.
pub open spec fn is_admin(claims: Claims) -> bool {
    claims.role@ == "admin"@
}

/// Why a change to `c` by the holder of `claims` is refused, as the status
/// and message of the reply; `None` when it is accepted. A new kind must be
/// known; a status other than the stored one may be set by an administrator
/// only; a new status must be known.
pub open spec fn update_problem(c: ChamadoView, req: UpdateChamadoRequest, claims: Claims) -> Option<
    (u16, Seq<char>),
> {
    if req.tipo is Some && !is_known_tipo(req.tipo->Some_0@) {
        Some((400u16, "Tipo invalido."@))
    } else if req.status is Some && req.status->Some_0@ != c.status && !is_admin(claims) {
        Some((403u16, "Apenas administradores podem alterar o status."@))
    } else if req.status is Some && !is_known_status(req.status->Some_0@) {
        Some((400u16, "Status invalido."@))
    } else {
        None
    }
}

/// `c` after an accepted change made at time `now`: each field the request
/// carries replaces the stored one (title, description and address cleaned),
/// the others stay, and the update time becomes `now`.
pub open spec fn updated_view(c: ChamadoView, req: UpdateChamadoRequest, now: Seq<char>) -> ChamadoView {
    ChamadoView {
        titulo: match req.titulo {
            Some(t) => cleaned(t@),
            None => c.titulo,
        },
        tipo: match req.tipo {
            Some(t) => t@,
            None => c.tipo,
        },
        descricao: match req.descricao {
            Some(t) => cleaned(t@),
            None => c.descricao,
        },
        endereco: match req.endereco {
            Some(t) => cleaned(t@),
            None => c.endereco,
        },
        foto_url: match req.foto_url {
            Some(f) => Some(f@),
            None => c.foto_url,
        },
        status: match req.status {
            Some(s) => s@,
            None => c.status,
        },
        atualizado_em: now,
        ..c
    }
}

/// Applies a change to `c` by the holder of `claims` at time `now`: the
/// changed chamado, or the reply that names the problem.
pub fn apply_update(c: Chamado, req: &UpdateChamadoRequest, claims: &Claims, now: String) -> (r:
    Result<Chamado, HttpReply<()>>)
    ensures
        match update_problem(c@, *req, *claims) {
            Some((status, m)) => r matches Err(rep) && is_error_reply(rep, status, m),
            None => r matches Ok(d) && d@ == updated_view(c@, *req, now@),
        },
{
    let mut c = c;
    if let Some(t) = &req.tipo {
        if !is_valid_tipo(t.as_str()) {
            return Err(ApiResponse::error(400, "Tipo invalido."));
        }
    }
    if let Some(s) = &req.status {
        if !same_text(s.as_str(), c.status.as_str()) && !same_text(claims.role.as_str(), "admin") {
            return Err(ApiResponse::error(403, "Apenas administradores podem alterar o status."));
        }
        if !is_valid_status(s.as_str()) {
            return Err(ApiResponse::error(400, "Status invalido."));
        }
    }
    if let Some(t) = &req.titulo {
        c.titulo = clean_text(t.as_str());
    }
    if let Some(t) = &req.tipo {
        c.tipo = copy_text(t);
    }
    if let Some(d) = &req.descricao {
        c.descricao = clean_text(d.as_str());
    }
    if let Some(e) = &req.endereco {
        c.endereco = clean_text(e.as_str());
    }
    if let Some(f) = &req.foto_url {
        c.foto_url = Some(copy_text(f));
    }
    if let Some(s) = &req.status {
        c.status = copy_text(s);
    }
    c.atualizado_em = now;
    Ok(c)
}

/// Decides a change to a chamado once it has been looked up: 404 when it
/// does not exist, 403 when the holder of `claims` may not change it, else
/// the change applied at the current time (see [`apply_update`]); only an
/// administrator may set a different status.
pub fn edit_chamado(found: Option<Chamado>, claims: &Claims, req: &UpdateChamadoRequest) -> (r:
    Result<Chamado, HttpReply<()>>)
    ensures
        match found {
            None => r matches Err(rep) && is_error_reply(rep, 404, "Chamado nao encontrado."@),
            Some(c) => if !may_modify(c@, *claims) {
                r matches Err(rep) && is_error_reply(
                    rep,
                    403,
                    "Sem permissao para editar este chamado."@,
                )
            } else {
                match update_problem(c@, *req, *claims) {
                    Some((status, m)) => r matches Err(rep) && is_error_reply(rep, status, m),
                    None => r matches Ok(d) && d@ == updated_view(c@, *req, d@.atualizado_em)
                        && ends_with_utc_offset(d.atualizado_em@),
                }
            },
        },
{
    match found {
        None => Err(ApiResponse::error(404, "Chamado nao encontrado.")),
        Some(c) => {
            if !can_modify(&c, claims) {
                return Err(ApiResponse::error(403, "Sem permissao para editar este chamado."));
            }
            apply_update(c, req, claims, now_rfc3339())
        },
    }
}

/// Decides a change of status: only an administrator may make it, and only
/// to a known status.
pub fn check_status_change(claims: &Claims, req: &UpdateStatusRequest) -> (r: Result<
    (),
    HttpReply<()>,
>)
    ensures
        claims.role@ != "admin"@ ==> (r matches Err(rep) && is_error_reply(
            rep,
            403,
            "Apenas administradores podem alterar o status."@,
        )),
        claims.role@ == "admin"@ && !is_known_status(req.status@) ==> (r matches Err(rep)
            && is_error_reply(rep, 400, "Status invalido."@)),
        claims.role@ == "admin"@ && is_known_status(req.status@) ==> r is Ok,
{
    if !same_text(claims.role.as_str(), "admin") {
        return Err(ApiResponse::error(403, "Apenas administradores podem alterar o status."));
    }
    if !is_valid_status(req.status.as_str()) {
        return Err(ApiResponse::error(400, "Status invalido."));
    }
    Ok(())
}

/// The reply to a status change that was stored.
pub fn status_changed_reply(status: &str) -> (r: HttpReply<()>)
    ensures
        is_success_reply(r, "Status atualizado para '"@ + status@ + "'."@, None),
{
    let mut m = String::from_str("Status atualizado para '");
    m.append(status);
    m.append("'.");
    ApiResponse::success(m.as_str(), None)
}

/// Decides the removal of a chamado once it has been looked up: 404 when it
/// does not exist, 403 when the holder of `claims` may not remove it, else
/// the chamado to remove.
pub fn check_removal(found: Option<Chamado>, claims: &Claims) -> (r: Result<Chamado, HttpReply<()>>)
    ensures
        match found {
            None => r matches Err(rep) && is_error_reply(rep, 404, "Chamado nao encontrado."@),
            Some(c) => if may_modify(c@, *claims) {
                r matches Ok(d) && d == c
            } else {
                r matches Err(rep) && is_error_reply(
                    rep,
                    403,
                    "Sem permissao para deletar este chamado."@,
                )
            },
        },
{
    match found {
        None => Err(ApiResponse::error(404, "Chamado nao encontrado.")),
        Some(c) => {
            if can_modify(&c, claims) {
                Ok(c)
            } else {
                Err(ApiResponse::error(403, "Sem permissao para deletar este chamado."))
            }
        },
    }
}

/// An accepted change keeps a well-formed chamado well-formed.
pub proof fn lemma_update_keeps_well_formed(
    c: ChamadoView,
    req: UpdateChamadoRequest,
    claims: Claims,
    now: Seq<char>,
)
    requires
        chamado_well_formed(c),
        update_problem(c, req, claims) is None,
    ensures
        chamado_well_formed(updated_view(c, req, now)),
{
}

/// An accepted change by someone who is no administrator leaves the status
/// as it was.
pub proof fn lemma_only_admins_change_status(
    c: ChamadoView,
    req: UpdateChamadoRequest,
    claims: Claims,
    now: Seq<char>,
)
    requires
        update_problem(c, req, claims) is None,
        !is_admin(claims),
    ensures
        updated_view(c, req, now).status == c.status,
{
}

/// After an accepted change, every field the request carries replaces the
/// stored one (title, description and address trimmed and HTML escaped,
/// kind, photo and status as given), every field it leaves out stays as
/// stored, and the update time is the time of the change.
pub proof fn lemma_update_replaces_present_fields(
    c: ChamadoView,
    req: UpdateChamadoRequest,
    claims: Claims,
    now: Seq<char>,
)
    requires
        update_problem(c, req, claims) is None,
    ensures
        ({
            let d = updated_view(c, req, now);
            &&& req.titulo matches Some(t) ==> d.titulo == html_escaped(trimmed(t@))
            &&& req.titulo is None ==> d.titulo == c.titulo
            &&& req.tipo matches Some(t) ==> d.tipo == t@
            &&& req.tipo is None ==> d.tipo == c.tipo
            &&& req.descricao matches Some(t) ==> d.descricao == html_escaped(trimmed(t@))
            &&& req.descricao is None ==> d.descricao == c.descricao
            &&& req.endereco matches Some(t) ==> d.endereco == html_escaped(trimmed(t@))
            &&& req.endereco is None ==> d.endereco == c.endereco
            &&& req.foto_url matches Some(f) ==> d.foto_url == Some(f@)
            &&& req.foto_url is None ==> d.foto_url == c.foto_url
            &&& req.status matches Some(t) ==> d.status == t@
            &&& req.status is None ==> d.status == c.status
            &&& d.atualizado_em == now
        }),
{
}

/// The author of a chamado may change or remove it, whatever its status; so
/// may an administrator; nobody else may.
pub proof fn lemma_author_or_admin_may_modify(c: ChamadoView, claims: Claims)
    ensures
        c.user_id == claims.sub@ ==> may_modify(c, claims),
        claims.role@ == "admin"@ ==> may_modify(c, claims),
        c.user_id != claims.sub@ && claims.role@ != "admin"@ ==> !may_modify(c, claims),
{
}

/// A request to open a chamado is accepted exactly when its cleaned title is
/// 1 to 200 bytes, its cleaned description 1 to 2000 bytes and its kind one
/// of `iluminacao`, `sinalizacao`, `limpeza`, `areas_verdes`, `agua`,
/// `outro`; it is refused for its kind exactly when title and description
/// pass and the kind is none of those.
pub proof fn lemma_new_chamado_acceptance(req: CreateChamadoRequest)
    ensures
        ({
            let t = html_escaped(trimmed(req.titulo@));
            let d = html_escaped(trimmed(req.descricao@));
            let texts_ok = t.len() > 0 && encode_utf8(t).len() <= 200 && d.len() > 0
                && encode_utf8(d).len() <= 2000;
            let kind_ok = req.tipo@ == "iluminacao"@ || req.tipo@ == "sinalizacao"@ || req.tipo@
                == "limpeza"@ || req.tipo@ == "areas_verdes"@ || req.tipo@ == "agua"@ || req.tipo@
                == "outro"@;
            &&& new_chamado_problem(req) is None <==> texts_ok && kind_ok
            &&& new_chamado_problem(req) == Some("Tipo de chamado invalido."@) <==> texts_ok
                && !kind_ok
        }),
{
    reveal_strlit("Titulo invalido (1-200 caracteres).");
    reveal_strlit("Descricao invalida (1-2000 caracteres).");
    reveal_strlit("Tipo de chamado invalido.");
    assert("Titulo invalido (1-200 caracteres)."@.len() != "Tipo de chamado invalido."@.len());
    assert("Descricao invalida (1-2000 caracteres)."@.len() != "Tipo de chamado invalido."@.len());
    assert("Titulo invalido (1-200 caracteres)."@ != "Tipo de chamado invalido."@);
    assert("Descricao invalida (1-2000 caracteres)."@ != "Tipo de chamado invalido."@);
}

/// A change never touches the id, the author or the creation time.
pub proof fn lemma_update_keeps_identity(c: ChamadoView, req: UpdateChamadoRequest, now: Seq<char>)
    ensures
        updated_view(c, req, now).id == c.id,
        updated_view(c, req, now).user_id == c.user_id,
        updated_view(c, req, now).user_nome == c.user_nome,
        updated_view(c, req, now).criado_em == c.criado_em,
{
}

} // verus!

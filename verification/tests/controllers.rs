use cityissue::controllers::auth::{
    check_credentials, check_registration, login_gate, login_reply, normalize_email,
    open_account, registration_reply, Registration,
};
use cityissue::controllers::chamado::{
    apply_update, can_modify, check_new_chamado, check_removal, check_status_change, clean_text,
    edit_chamado, new_chamado, require_token, status_changed_reply,
};
use cityissue::controllers::user::{require_admin_role, require_admin_token};
use cityissue::jwt::Claims;
use cityissue::models::chamado::{
    Chamado, CreateChamadoRequest, UpdateChamadoRequest, UpdateStatusRequest,
};
use cityissue::models::user::{RegisterRequest, User};
use cityissue::password::{hash_password, verify_password};

fn claims(sub: &str, role: &str) -> Claims {
    Claims { sub: sub.to_string(), email: format!("{}@x.com", sub), role: role.to_string(), exp: 0 }
}

fn chamado(owner: &str) -> Chamado {
    Chamado {
        id: "c1".to_string(),
        titulo: "Buraco".to_string(),
        tipo: "outro".to_string(),
        descricao: "Buraco na rua".to_string(),
        endereco: "Rua A".to_string(),
        foto_url: None,
        status: "pending".to_string(),
        user_id: owner.to_string(),
        user_nome: "Maria".to_string(),
        criado_em: "2024-01-01T00:00:00+00:00".to_string(),
        atualizado_em: "2024-01-01T00:00:00+00:00".to_string(),
    }
}

fn empty_update() -> UpdateChamadoRequest {
    UpdateChamadoRequest {
        titulo: None,
        tipo: None,
        descricao: None,
        endereco: None,
        foto_url: None,
        status: None,
    }
}

fn user_with_password(senha: &str) -> User {
    User {
        id: "u1".to_string(),
        nome: "Maria".to_string(),
        email: "maria@x.com".to_string(),
        senha_hash: hash_password(senha).unwrap(),
        role: "user".to_string(),
        criado_em: "2024".to_string(),
        ativo: true,
    }
}

#[test]
fn bearer_header_is_required() {
    assert_eq!(require_token("Bearer abc.def").ok(), Some("abc.def".to_string()));
    assert_eq!(require_token("Bearer ").ok(), Some(String::new()));
    let e = require_token("bearer abc").err().unwrap();
    assert_eq!(e.status, 401);
    assert_eq!(e.body.message, "Token de autenticacao ausente.");
    assert!(!e.body.success);
    let e = require_admin_token("").err().unwrap();
    assert_eq!(e.status, 401);
    assert_eq!(e.body.message, "Token ausente.");
}

#[test]
fn only_admins_pass_admin_check() {
    assert!(require_admin_role(&claims("u1", "admin")).is_ok());
    let e = require_admin_role(&claims("u1", "user")).err().unwrap();
    assert_eq!(e.status, 403);
    assert_eq!(e.body.message, "Acesso restrito a administradores.");
}

#[test]
fn registration_normalizes_and_validates() {
    let req = RegisterRequest {
        nome: "  Maria  ".to_string(),
        email: "  Maria@Cidade.COM ".to_string(),
        senha: "Abcdef1!".to_string(),
    };
    let reg = check_registration(&req).ok().unwrap();
    assert_eq!(reg.nome, "Maria");
    assert_eq!(reg.email, "maria@cidade.com");

    let bad_name = RegisterRequest { nome: "   ".to_string(), ..req_clone(&req) };
    let e = check_registration(&bad_name).err().unwrap();
    assert_eq!((e.status, e.body.message.as_str()), (400, "Nome invalido (1-100 caracteres)."));

    let long_name = RegisterRequest { nome: "n".repeat(101), ..req_clone(&req) };
    assert!(check_registration(&long_name).is_err());
    let name_100 = RegisterRequest { nome: "n".repeat(100), ..req_clone(&req) };
    assert!(check_registration(&name_100).is_ok());

    let bad_email = RegisterRequest { email: "maria".to_string(), ..req_clone(&req) };
    let e = check_registration(&bad_email).err().unwrap();
    assert_eq!(e.body.message, "Formato de e-mail invalido.");

    let weak = RegisterRequest { senha: "abc".to_string(), ..req_clone(&req) };
    let e = check_registration(&weak).err().unwrap();
    assert_eq!((e.status, e.body.message.as_str()), (400, "A senha deve ter pelo menos 8 caracteres."));
}

fn req_clone(r: &RegisterRequest) -> RegisterRequest {
    RegisterRequest { nome: r.nome.clone(), email: r.email.clone(), senha: r.senha.clone() }
}

#[test]
fn normalize_email_trims_and_lowercases() {
    assert_eq!(normalize_email("\t ABC@Def.Org\n"), "abc@def.org");
}

#[test]
fn new_account_is_a_member_whose_hash_accepts_the_password() {
    let reg = Registration { nome: "Maria".to_string(), email: "maria@x.com".to_string() };
    let u = open_account(false, reg, "Abcdef1!").ok().unwrap();
    assert_eq!(u.role, "user");
    assert!(u.ativo);
    assert!(u.criado_em.ends_with("+00:00"));
    assert_eq!(u.nome, "Maria");
    assert_eq!(u.email, "maria@x.com");
    assert_eq!(u.id.len(), 36);
    assert_eq!(&u.id[14..15], "4");
    assert!(verify_password("Abcdef1!", &u.senha_hash));

    let reg = Registration { nome: "Maria".to_string(), email: "maria@x.com".to_string() };
    let e = open_account(true, reg, "Abcdef1!").err().unwrap();
    assert_eq!((e.status, e.body.message.as_str()), (400, "Este e-mail ja esta cadastrado."));
}

#[test]
fn registration_reply_carries_the_token() {
    let u = user_with_password("Abcdef1!");
    let r = registration_reply(u, "tok".to_string());
    assert_eq!(r.status, 200);
    assert!(r.body.success);
    assert_eq!(r.body.message, "Cadastro realizado com sucesso!");
    let a = r.body.data.unwrap();
    assert_eq!((a.token.as_str(), a.user_id.as_str(), a.nome.as_str(), a.role.as_str()), ("tok", "u1", "Maria", "user"));
}

#[test]
fn login_is_locked_after_five_failures() {
    assert!(login_gate(0).is_ok());
    assert!(login_gate(4).is_ok());
    let e = login_gate(5).err().unwrap();
    assert_eq!(e.status, 429);
    assert_eq!(
        e.body.message,
        "Conta temporariamente bloqueada por excesso de tentativas. Tente em 15 minutos."
    );
    assert!(login_gate(100).is_err());
}

#[test]
fn refused_logins_look_alike() {
    let unknown = check_credentials(None, "Abcdef1!").err().unwrap();
    let wrong = check_credentials(Some(user_with_password("Abcdef1!")), "Errada12!").err().unwrap();
    assert_eq!((unknown.status, unknown.body.message.as_str()), (401, "E-mail ou senha incorretos."));
    assert_eq!((wrong.status, wrong.body.message.as_str()), (unknown.status, unknown.body.message.as_str()));
    let ok = check_credentials(Some(user_with_password("Abcdef1!")), "Abcdef1!").ok().unwrap();
    assert_eq!(ok.id, "u1");
}

#[test]
fn login_reply_success_and_failure() {
    let r = login_reply(user_with_password("Abcdef1!"), Ok("t".to_string()));
    assert_eq!((r.status, r.body.message.as_str()), (200, "Login realizado com sucesso!"));
    assert_eq!(r.body.data.unwrap().token, "t");
    let r = login_reply(user_with_password("Abcdef1!"), Err("falhou".to_string()));
    assert_eq!((r.status, r.body.message.as_str(), r.body.success), (500, "falhou", false));
    assert!(r.body.data.is_none());
}

#[test]
fn new_chamado_is_cleaned_and_validated() {
    let req = CreateChamadoRequest {
        titulo: "  <b>Buraco</b> ".to_string(),
        tipo: "limpeza".to_string(),
        descricao: " Lixo & entulho ".to_string(),
        endereco: " Rua 'A' ".to_string(),
        foto_url: Some("http://f/x.png".to_string()),
    };
    let d = check_new_chamado(&req).ok().unwrap();
    assert_eq!(d.titulo, "&lt;b&gt;Buraco&lt;/b&gt;");
    assert_eq!(d.descricao, "Lixo &amp; entulho");
    assert_eq!(d.endereco, "Rua &#x27;A&#x27;");
    assert_eq!(d.tipo, "limpeza");
    assert_eq!(d.foto_url.as_deref(), Some("http://f/x.png"));

    let c = new_chamado(d, &claims("u9", "user"), None);
    assert_eq!(c.status, "pending");
    assert_eq!(c.user_id, "u9");
    assert_eq!(c.user_nome, "u9@x.com");
    assert_eq!(c.criado_em, c.atualizado_em);
    assert!(c.criado_em.ends_with("+00:00"));
    assert!(c.criado_em.contains('T'));
    assert_eq!(c.id.len(), 36);

    let t = CreateChamadoRequest { titulo: "   ".to_string(), ..create_clone(&req) };
    let e = check_new_chamado(&t).err().unwrap();
    assert_eq!((e.status, e.body.message.as_str()), (400, "Titulo invalido (1-200 caracteres)."));
    // escaping counts: 40 '<' become 160 bytes, 50 become 200, 51 too many
    let t = CreateChamadoRequest { titulo: "<".repeat(50), ..create_clone(&req) };
    assert!(check_new_chamado(&t).is_ok());
    let t = CreateChamadoRequest { titulo: "<".repeat(51), ..create_clone(&req) };
    assert!(check_new_chamado(&t).is_err());
    let t = CreateChamadoRequest { descricao: "".to_string(), ..create_clone(&req) };
    let e = check_new_chamado(&t).err().unwrap();
    assert_eq!(e.body.message, "Descricao invalida (1-2000 caracteres).");
    let t = CreateChamadoRequest { tipo: "esgoto".to_string(), ..create_clone(&req) };
    let e = check_new_chamado(&t).err().unwrap();
    assert_eq!(e.body.message, "Tipo de chamado invalido.");
}

fn create_clone(r: &CreateChamadoRequest) -> CreateChamadoRequest {
    CreateChamadoRequest {
        titulo: r.titulo.clone(),
        tipo: r.tipo.clone(),
        descricao: r.descricao.clone(),
        endereco: r.endereco.clone(),
        foto_url: r.foto_url.clone(),
    }
}

#[test]
fn new_chamado_uses_author_name() {
    let d = check_new_chamado(&CreateChamadoRequest {
        titulo: "T".to_string(),
        tipo: "agua".to_string(),
        descricao: "D".to_string(),
        endereco: "".to_string(),
        foto_url: None,
    })
    .ok()
    .unwrap();
    let author = user_with_password("Abcdef1!");
    let c = new_chamado(d, &claims("u1", "user"), Some(author));
    assert_eq!(c.user_nome, "Maria");
}

#[test]
fn owner_or_admin_may_modify() {
    let c = chamado("u1");
    assert!(can_modify(&c, &claims("u1", "user")));
    assert!(can_modify(&c, &claims("u2", "admin")));
    assert!(!can_modify(&c, &claims("u2", "user")));
}

#[test]
fn update_applies_present_fields() {
    let mut req = empty_update();
    req.titulo = Some(" Novo <titulo> ".to_string());
    req.status = Some("done".to_string());
    req.foto_url = Some("f.png".to_string());
    let d = apply_update(chamado("u1"), &req, &claims("u1", "admin"), "agora".to_string()).ok().unwrap();
    assert_eq!(d.titulo, "Novo &lt;titulo&gt;");
    assert_eq!(d.status, "done");
    assert_eq!(d.foto_url.as_deref(), Some("f.png"));
    assert_eq!(d.descricao, "Buraco na rua");
    assert_eq!(d.atualizado_em, "agora");
    assert_eq!(d.criado_em, "2024-01-01T00:00:00+00:00");
    assert_eq!(d.id, "c1");
}

#[test]
fn update_checks_tipo_before_status() {
    let mut req = empty_update();
    req.tipo = Some("x".to_string());
    req.status = Some("y".to_string());
    let e = apply_update(chamado("u1"), &req, &claims("u1", "admin"), "agora".to_string()).err().unwrap();
    assert_eq!((e.status, e.body.message.as_str()), (400, "Tipo invalido."));
    req.tipo = Some("agua".to_string());
    let e = apply_update(chamado("u1"), &req, &claims("u1", "admin"), "agora".to_string()).err().unwrap();
    assert_eq!(e.body.message, "Status invalido.");
}

#[test]
fn only_admins_change_status_through_update() {
    let mut req = empty_update();
    req.status = Some("done".to_string());
    let e = apply_update(chamado("u1"), &req, &claims("u1", "user"), "agora".to_string()).err().unwrap();
    assert_eq!((e.status, e.body.message.as_str()), (403, "Apenas administradores podem alterar o status."));
    let e = edit_chamado(Some(chamado("u1")), &claims("u1", "user"), &req).err().unwrap();
    assert_eq!(e.status, 403);
    // the unchanged status may be sent back by the owner
    req.status = Some("pending".to_string());
    req.titulo = Some("Outro".to_string());
    let d = edit_chamado(Some(chamado("u1")), &claims("u1", "user"), &req).ok().unwrap();
    assert_eq!((d.status.as_str(), d.titulo.as_str()), ("pending", "Outro"));
    // an invalid status from the owner differs from the stored one: 403 first
    req.status = Some("bogus".to_string());
    let e = edit_chamado(Some(chamado("u1")), &claims("u1", "user"), &req).err().unwrap();
    assert_eq!(e.status, 403);
    req.status = Some("done".to_string());
    let d = edit_chamado(Some(chamado("u1")), &claims("u2", "admin"), &req).ok().unwrap();
    assert_eq!(d.status, "done");
}

#[test]
fn edit_checks_existence_and_permission() {
    let req = empty_update();
    let e = edit_chamado(None, &claims("u1", "user"), &req).err().unwrap();
    assert_eq!((e.status, e.body.message.as_str()), (404, "Chamado nao encontrado."));
    let e = edit_chamado(Some(chamado("u1")), &claims("u2", "user"), &req).err().unwrap();
    assert_eq!((e.status, e.body.message.as_str()), (403, "Sem permissao para editar este chamado."));
    let d = edit_chamado(Some(chamado("u1")), &claims("u2", "admin"), &req).ok().unwrap();
    assert_eq!(d.titulo, "Buraco");
    assert!(d.atualizado_em.ends_with("+00:00"));
    assert_ne!(d.atualizado_em, "2024-01-01T00:00:00+00:00");
}

#[test]
fn status_change_rules() {
    let ok = UpdateStatusRequest { status: "closed".to_string() };
    let bad = UpdateStatusRequest { status: "archived".to_string() };
    let e = check_status_change(&claims("u1", "user"), &ok).err().unwrap();
    assert_eq!((e.status, e.body.message.as_str()), (403, "Apenas administradores podem alterar o status."));
    let e = check_status_change(&claims("u1", "user"), &bad).err().unwrap();
    assert_eq!(e.status, 403);
    let e = check_status_change(&claims("a", "admin"), &bad).err().unwrap();
    assert_eq!((e.status, e.body.message.as_str()), (400, "Status invalido."));
    assert!(check_status_change(&claims("a", "admin"), &ok).is_ok());
    let r = status_changed_reply("closed");
    assert_eq!((r.status, r.body.message.as_str()), (200, "Status atualizado para 'closed'."));
}

#[test]
fn removal_rules() {
    let e = check_removal(None, &claims("u1", "user")).err().unwrap();
    assert_eq!(e.status, 404);
    let e = check_removal(Some(chamado("u1")), &claims("u2", "user")).err().unwrap();
    assert_eq!((e.status, e.body.message.as_str()), (403, "Sem permissao para deletar este chamado."));
    assert_eq!(check_removal(Some(chamado("u1")), &claims("u1", "user")).ok().unwrap().id, "c1");
}

#[test]
fn clean_text_trims_unicode_white_space() {
    assert_eq!(clean_text("\u{3000} a & b \u{a0}"), "a &amp; b");
}

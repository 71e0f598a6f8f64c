use cityissue::validation::{
    is_strong_password, is_valid_email, is_valid_status, is_valid_tipo, sanitize_text,
};

#[test]
fn email_accepts_plain_addresses() {
    assert!(is_valid_email("maria@cidade.gov.br"));
    assert!(is_valid_email("a.b_c%d+e-f@x-y.z.com"));
    assert!(is_valid_email("A@B.CO"));
}

#[test]
fn email_rejects_malformed_addresses() {
    assert!(!is_valid_email(""));
    assert!(!is_valid_email("@cidade.com"));
    assert!(!is_valid_email("maria@"));
    assert!(!is_valid_email("maria@cidade"));
    assert!(!is_valid_email("maria@.com"));
    assert!(!is_valid_email("maria@cidade.c"));
    assert!(!is_valid_email("maria@cidade.c0m"));
    assert!(!is_valid_email("ma ria@cidade.com"));
    assert!(!is_valid_email("maria@@cidade.com"));
    assert!(!is_valid_email("maria@cid@ade.com"));
    assert!(!is_valid_email("maria@cidade.com "));
    assert!(!is_valid_email("mária@cidade.com"));
}

#[test]
fn email_length_limit_is_254_bytes() {
    let local = "a".repeat(64);
    let domain_254 = format!("{}.com", "b".repeat(254 - 64 - 1 - 4));
    let ok = format!("{}@{}", local, domain_254);
    assert_eq!(ok.len(), 254);
    assert!(is_valid_email(&ok));
    let too_long = format!("{}@b{}", local, domain_254);
    assert_eq!(too_long.len(), 255);
    assert!(!is_valid_email(&too_long));
}

#[test]
fn password_rules_in_order() {
    assert_eq!(
        is_strong_password("Ab1!"),
        Err("A senha deve ter pelo menos 8 caracteres.")
    );
    assert_eq!(
        is_strong_password("abcdef1!"),
        Err("A senha deve conter ao menos uma letra maiuscula.")
    );
    assert_eq!(
        is_strong_password("ABCDEF1!"),
        Err("A senha deve conter ao menos uma letra minuscula.")
    );
    assert_eq!(
        is_strong_password("Abcdefg!"),
        Err("A senha deve conter ao menos um digito.")
    );
    assert_eq!(
        is_strong_password("Abcdefg1"),
        Err("A senha deve conter ao menos um caractere especial.")
    );
    assert_eq!(is_strong_password("Abcdef1!"), Ok(()));
}

#[test]
fn password_length_counts_characters() {
    // 7 characters, 9 bytes: too short
    assert_eq!(
        is_strong_password("Éé1!abc"),
        Err("A senha deve ter pelo menos 8 caracteres.")
    );
    // 8 characters with non-ASCII letters: accepted
    assert_eq!(is_strong_password("Éé1!abcd"), Ok(()));
}

#[test]
fn sanitize_escapes_html() {
    assert_eq!(
        sanitize_text("<script>alert(\"x\" & 'y')</script>"),
        "&lt;script&gt;alert(&quot;x&quot; &amp; &#x27;y&#x27;)&lt;/script&gt;"
    );
    assert_eq!(sanitize_text("Rua das Flores, 10"), "Rua das Flores, 10");
    assert_eq!(sanitize_text(""), "");
    assert_eq!(sanitize_text("&amp;"), "&amp;amp;");
}

#[test]
fn sanitized_text_has_no_markup() {
    let out = sanitize_text("a<b>c\"d'e&f");
    assert!(!out.contains('<') && !out.contains('>') && !out.contains('"') && !out.contains('\''));
}

#[test]
fn status_and_tipo_lists() {
    for s in ["pending", "in-progress", "done", "closed"] {
        assert!(is_valid_status(s));
    }
    for s in ["", "Pending", "open", "done "] {
        assert!(!is_valid_status(s));
    }
    for t in ["iluminacao", "sinalizacao", "limpeza", "areas_verdes", "agua", "outro"] {
        assert!(is_valid_tipo(t));
    }
    for t in ["", "agua ", "Agua", "esgoto"] {
        assert!(!is_valid_tipo(t));
    }
}

#[test]
fn accepted_addresses_are_ascii_with_one_at() {
    for e in ["maria@cidade.gov.br", "x+y@a-b.io", "a@..co"] {
        assert!(is_valid_email(e));
        assert!(e.is_ascii());
        assert_eq!(e.len(), e.chars().count());
        assert_eq!(e.matches('@').count(), 1);
    }
}

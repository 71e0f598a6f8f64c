//! Input validation and HTML escaping of user supplied text.

use vstd::prelude::*;
use vstd::utf8::*;
use crate::text::{
    byte_len, chars_of, is_lowercase, is_uppercase, lowercase_property, push_char, same_text,
    uppercase_property,
};

verus! {

// ---------------------------------------------------------------- e-mail

/// `[a-zA-Z]`
pub open spec fn is_ascii_letter(c: char) -> bool {
    ('a' <= c <= 'z') || ('A' <= c <= 'Z')
}

/// `[0-9]`
pub open spec fn is_ascii_digit(c: char) -> bool {
    '0' <= c <= '9'
}

/// `[a-zA-Z0-9._%+\-]`, the characters of the part before `@`.
pub open spec fn is_local_part_char(c: char) -> bool {
    is_ascii_letter(c) || is_ascii_digit(c) || c == '.' || c == '_' || c == '%' || c == '+'
        || c == '-'
}

/// `[a-zA-Z0-9.\-]`, the characters of the part after `@`.
pub open spec fn is_domain_char(c: char) -> bool {
    is_ascii_letter(c) || is_ascii_digit(c) || c == '.' || c == '-'
}

/// `s` splits as `local @ domain . tld`, with `s[at] == '@'` and `s[dot] == '.'`,
/// following the pattern `^[a-zA-Z0-9._%+\-]+@[a-zA-Z0-9.\-]+\.[a-zA-Z]{2,}$`.
pub open spec fn email_split(s: Seq<char>, at: int, dot: int) -> bool {
    &&& 0 < at
    &&& at + 1 < dot
    &&& dot + 2 < s.len()
    &&& s[at] == '@'
    &&& s[dot] == '.'
    &&& forall|k: int| 0 <= k < at ==> is_local_part_char(#[trigger] s[k])
    &&& forall|k: int| at < k < dot ==> is_domain_char(#[trigger] s[k])
    &&& forall|k: int| dot < k < s.len() ==> is_ascii_letter(#[trigger] s[k])
}

/// Whether the whole of `s` is matched by the e-mail pattern.
pub open spec fn matches_email_pattern(s: Seq<char>) -> bool {
    exists|at: int, dot: int| email_split(s, at, dot)
}

/// An accepted e-mail address: at most 254 bytes in UTF-8 and matched by the pattern.
pub open spec fn valid_email(s: Seq<char>) -> bool {
    encode_utf8(s).len() <= 254 && matches_email_pattern(s)
}

fn local_part_char(c: char) -> (r: bool)
    ensures
        r == is_local_part_char(c),
{
    ('a' <= c && c <= 'z') || ('A' <= c && c <= 'Z') || ('0' <= c && c <= '9') || c == '.' || c
        == '_' || c == '%' || c == '+' || c == '-'
}

fn domain_char(c: char) -> (r: bool)
    ensures
        r == is_domain_char(c),
{
    ('a' <= c && c <= 'z') || ('A' <= c && c <= 'Z') || ('0' <= c && c <= '9') || c == '.' || c
        == '-'
}

fn ascii_letter(c: char) -> (r: bool)
    ensures
        r == is_ascii_letter(c),
{
    ('a' <= c && c <= 'z') || ('A' <= c && c <= 'Z')
}

/// Checks the format of an e-mail address.
pub fn is_valid_email(email: &str) -> (r: bool)
    ensures
        r == valid_email(email@),
{
    if byte_len(email) > 254 {
        return false;
    }
    let v = chars_of(email);
    let n = v.len();
    let ghost s = email@;
    // local part: everything up to the first character outside its class
    let mut i: usize = 0;
    while i < n && local_part_char(v[i])
        invariant
            v@ == s,
            s == email@,
            encode_utf8(s).len() <= 254,
            n == v.len(),
            i <= n,
            forall|k: int| 0 <= k < i ==> is_local_part_char(#[trigger] s[k]),
        decreases n - i,
    {
        i = i + 1;
    }
    if i == 0 || i >= n || v[i] != '@' {
        assert forall|at: int, dot: int| !email_split(s, at, dot) by {
            if email_split(s, at, dot) {
                if at < i {
                    assert(is_local_part_char(s[at]));
                } else if at > i {
                    assert(is_local_part_char(s[i as int]));
                }
            }
        }
        return false;
    }
    let at = i;
    // domain part: every later character is a domain character; remember the last '.'
    let mut j: usize = at + 1;
    let mut last_dot: usize = at;
    while j < n
        invariant
            v@ == s,
            s == email@,
            encode_utf8(s).len() <= 254,
            n == v.len(),
            at < j <= n,
            at <= last_dot < j,
            s[at as int] == '@',
            forall|k: int| at < k < j ==> is_domain_char(#[trigger] s[k]),
            last_dot > at ==> s[last_dot as int] == '.',
            forall|k: int| last_dot < k < j ==> s[k] != '.',
        decreases n - j,
    {
        if !domain_char(v[j]) {
            assert forall|a: int, d: int| !email_split(s, a, d) by {
                if email_split(s, a, d) {
                    if a < at {
                        assert(is_local_part_char(s[a]));
                    } else if a > at {
                        assert(is_local_part_char(s[at as int]));
                    }
                    assert(a == at);
                    if j < d {
                        assert(is_domain_char(s[j as int]));
                    } else if j > d {
                        assert(is_ascii_letter(s[j as int]));
                    }
                }
            }
            return false;
        }
        if v[j] == '.' {
            last_dot = j;
        }
        j = j + 1;
    }
    let ok = if last_dot - at < 2 || n - last_dot < 3 {
        false
    } else {
        let mut k: usize = last_dot + 1;
        let mut letters = true;
        while k < n
            invariant
                v@ == s,
                s == email@,
                encode_utf8(s).len() <= 254,
                n == v.len(),
                last_dot < k <= n,
                letters == (forall|m: int| last_dot < m < k ==> is_ascii_letter(#[trigger] s[m])),
            decreases n - k,
        {
            if !ascii_letter(v[k]) {
                letters = false;
            }
            k = k + 1;
        }
        letters
    };
    proof {
        assert(encode_utf8(s).len() <= 254);
        if ok {
            assert(email_split(s, at as int, last_dot as int));
            assert(matches_email_pattern(s));
        } else {
            assert forall|a: int, d: int| !email_split(s, a, d) by {
                if email_split(s, a, d) {
                    if a < at {
                        assert(is_local_part_char(s[a]));
                    } else if a > at {
                        assert(is_local_part_char(s[at as int]));
                    }
                    assert(a == at);
                    if d < last_dot {
                        assert(is_ascii_letter(s[last_dot as int]));
                    } else if d > last_dot {
                        assert(s[d] != '.');
                    }
                    assert(d == last_dot);
                }
            }
            assert(!matches_email_pattern(s));
        }
    }
    ok
}

/// An accepted address is ASCII, so its length in bytes is its length in
/// characters, and it holds exactly one `@`.
pub proof fn lemma_valid_email_is_ascii(s: Seq<char>)
    requires
        valid_email(s),
    ensures
        is_ascii_chars(s),
        encode_utf8(s).len() == s.len(),
        exists|at: int| 0 <= at < s.len() && s[at] == '@' && forall|k: int|
            0 <= k < s.len() && k != at ==> #[trigger] s[k] != '@',
{
    let (at, dot) = choose|at: int, dot: int| email_split(s, at, dot);
    assert forall|k: int| 0 <= k < s.len() implies '\0' <= #[trigger] s[k] <= '\u{7f}' by {
        if k < at {
            assert(is_local_part_char(s[k]));
        } else if at < k < dot {
            assert(is_domain_char(s[k]));
        } else if dot < k {
            assert(is_ascii_letter(s[k]));
        }
    }
    is_ascii_chars_encode_utf8(s);
    assert forall|k: int| 0 <= k < s.len() && k != at implies #[trigger] s[k] != '@' by {
        if k < at {
            assert(is_local_part_char(s[k]));
        } else if at < k < dot {
            assert(is_domain_char(s[k]));
        } else if dot < k {
            assert(is_ascii_letter(s[k]));
        }
    }
}

/// Every address of at most 254 bytes shaped as: a non-empty part made of
/// ASCII letters, ASCII digits and `.`, `_`, `%`, `+`, `-`; then `@`; then a
/// non-empty domain of ASCII letters, ASCII digits, `.` and `-`; then `.`
/// and at least two ASCII letters up to the end, is accepted.
pub proof fn lemma_email_shape_is_accepted(s: Seq<char>, at: int, dot: int)
    requires
        encode_utf8(s).len() <= 254,
        0 < at,
        at + 1 < dot,
        dot + 2 < s.len(),
        s[at] == '@',
        s[dot] == '.',
        forall|k: int|
            0 <= k < at ==> ('a' <= #[trigger] s[k] <= 'z') || ('A' <= s[k] <= 'Z') || ('0' <= s[k]
                <= '9') || s[k] == '.' || s[k] == '_' || s[k] == '%' || s[k] == '+' || s[k] == '-',
        forall|k: int|
            at < k < dot ==> ('a' <= #[trigger] s[k] <= 'z') || ('A' <= s[k] <= 'Z') || ('0' <= s[k]
                <= '9') || s[k] == '.' || s[k] == '-',
        forall|k: int| dot < k < s.len() ==> ('a' <= #[trigger] s[k] <= 'z') || ('A' <= s[k] <= 'Z'),
    ensures
        valid_email(s),
{
    assert(email_split(s, at, dot));
}

// ---------------------------------------------------------------- passwords

/// The characters `!@#$%^&*()-_=+[]{}|;:',.<>?/`~` that count as special in a password.
pub open spec fn is_special_char(c: char) -> bool {
    c == '!' || c == '@' || c == '#' || c == '$' || c == '%' || c == '^' || c == '&' || c == '*'
        || c == '(' || c == ')' || c == '-' || c == '_' || c == '=' || c == '+' || c == '['
        || c == ']' || c == '{' || c == '}' || c == '|' || c == ';' || c == ':' || c == '\''
        || c == ',' || c == '.' || c == '<' || c == '>' || c == '?' || c == '/' || c == '`'
        || c == '~'
}

pub open spec fn has_uppercase(p: Seq<char>) -> bool {
    exists|i: int| 0 <= i < p.len() && uppercase_property(#[trigger] p[i])
}

pub open spec fn has_lowercase(p: Seq<char>) -> bool {
    exists|i: int| 0 <= i < p.len() && lowercase_property(#[trigger] p[i])
}

pub open spec fn has_digit(p: Seq<char>) -> bool {
    exists|i: int| 0 <= i < p.len() && is_ascii_digit(#[trigger] p[i])
}

pub open spec fn has_special(p: Seq<char>) -> bool {
    exists|i: int| 0 <= i < p.len() && is_special_char(#[trigger] p[i])
}

/// The first rule that password `p` breaks, as the message shown to the user;
/// `None` when it keeps them all. The rules, in the order they are checked:
/// at least 8 characters, an upper-case letter, a lower-case letter, an ASCII digit
/// and a special character.
pub open spec fn password_problem(p: Seq<char>) -> Option<Seq<char>> {
    if p.len() < 8 {
        Some("A senha deve ter pelo menos 8 caracteres."@)
    } else if !has_uppercase(p) {
        Some("A senha deve conter ao menos uma letra maiuscula."@)
    } else if !has_lowercase(p) {
        Some("A senha deve conter ao menos uma letra minuscula."@)
    } else if !has_digit(p) {
        Some("A senha deve conter ao menos um digito."@)
    } else if !has_special(p) {
        Some("A senha deve conter ao menos um caractere especial."@)
    } else {
        None
    }
}

fn special_char(c: char) -> (r: bool)
    ensures
        r == is_special_char(c),
{
    c == '!' || c == '@' || c == '#' || c == '$' || c == '%' || c == '^' || c == '&' || c == '*'
        || c == '(' || c == ')' || c == '-' || c == '_' || c == '=' || c == '+' || c == '['
        || c == ']' || c == '{' || c == '}' || c == '|' || c == ';' || c == ':' || c == '\''
        || c == ',' || c == '.' || c == '<' || c == '>' || c == '?' || c == '/' || c == '`'
        || c == '~'
}

/// Checks the strength of a password: `Ok` when it keeps every rule of
/// [`password_problem`], otherwise the message of the first rule it breaks.
pub fn is_strong_password(password: &str) -> (r: Result<(), &'static str>)
    ensures
        match password_problem(password@) {
            None => r is Ok,
            Some(m) => r is Err && r->Err_0@ == m,
        },
{
    let v = chars_of(password);
    if v.len() < 8 {
        return Err("A senha deve ter pelo menos 8 caracteres.");
    }
    let ghost p = password@;
    let mut upper = false;
    let mut lower = false;
    let mut digit = false;
    let mut special = false;
    let mut i: usize = 0;
    while i < v.len()
        invariant
            v@ == p,
            i <= v.len(),
            upper == exists|k: int| 0 <= k < i && uppercase_property(#[trigger] p[k]),
            lower == exists|k: int| 0 <= k < i && lowercase_property(#[trigger] p[k]),
            digit == exists|k: int| 0 <= k < i && is_ascii_digit(#[trigger] p[k]),
            special == exists|k: int| 0 <= k < i && is_special_char(#[trigger] p[k]),
        decreases v.len() - i,
    {
        let c = v[i];
        if is_uppercase(c) {
            upper = true;
        }
        if is_lowercase(c) {
            lower = true;
        }
        if '0' <= c && c <= '9' {
            digit = true;
        }
        if special_char(c) {
            special = true;
        }
        i = i + 1;
    }
    if !upper {
        return Err("A senha deve conter ao menos uma letra maiuscula.");
    }
    if !lower {
        return Err("A senha deve conter ao menos uma letra minuscula.");
    }
    if !digit {
        return Err("A senha deve conter ao menos um digito.");
    }
    if !special {
        return Err("A senha deve conter ao menos um caractere especial.");
    }
    Ok(())
}

/// Every password of at least 8 characters that holds an upper-case letter,
/// a lower-case letter, an ASCII digit and one of the 30 characters
/// `!@#$%^&*()-_=+[]{}|;:',.<>?/`~` is accepted.
pub proof fn lemma_strong_password_is_accepted(p: Seq<char>)
    requires
        p.len() >= 8,
        exists|i: int| 0 <= i < p.len() && uppercase_property(#[trigger] p[i]),
        exists|i: int| 0 <= i < p.len() && lowercase_property(#[trigger] p[i]),
        exists|i: int| 0 <= i < p.len() && '0' <= #[trigger] p[i] <= '9',
        exists|i: int|
            0 <= i < p.len() && "!@#$%^&*()-_=+[]{}|;:',.<>?/`~"@.contains(#[trigger] p[i]),
    ensures
        password_problem(p) is None,
{
    reveal_strlit("!@#$%^&*()-_=+[]{}|;:',.<>?/`~");
    let lit = "!@#$%^&*()-_=+[]{}|;:',.<>?/`~"@;
    let i = choose|i: int| 0 <= i < p.len() && lit.contains(#[trigger] p[i]);
    let j = choose|j: int| 0 <= j < lit.len() && lit[j] == p[i];
    assert(lit.len() == 30);
    assert(is_special_char(lit[j]));
    assert(is_special_char(p[i]));
}

// ---------------------------------------------------------------- escaping

/// The characters that HTML gives a meaning to and that escaping replaces.
pub open spec fn is_html_special(c: char) -> bool {
    c == '&' || c == '<' || c == '>' || c == '"' || c == '\''
}

/// What one character becomes: `&` as `&amp;`, `<` as `&lt;`, `>` as `&gt;`,
/// `"` as `&quot;`, `'` as `&#x27;`; any other character stays.
pub open spec fn html_escape_char(c: char) -> Seq<char> {
    if c == '&' {
        seq!['&', 'a', 'm', 'p', ';']
    } else if c == '<' {
        seq!['&', 'l', 't', ';']
    } else if c == '>' {
        seq!['&', 'g', 't', ';']
    } else if c == '"' {
        seq!['&', 'q', 'u', 'o', 't', ';']
    } else if c == '\'' {
        seq!['&', '#', 'x', '2', '7', ';']
    } else {
        seq![c]
    }
}

/// `s` with every character replaced by [`html_escape_char`].
pub open spec fn html_escaped(s: Seq<char>) -> Seq<char>
    decreases s.len(),
{
    if s.len() == 0 {
        seq![]
    } else {
        html_escaped(s.drop_last()) + html_escape_char(s.last())
    }
}

fn push_escaped(out: &mut String, c: char)
    ensures
        final(out)@ == old(out)@ + html_escape_char(c),
{
    if c == '&' {
        push_char(out, '&');
        push_char(out, 'a');
        push_char(out, 'm');
        push_char(out, 'p');
        push_char(out, ';');
    } else if c == '<' {
        push_char(out, '&');
        push_char(out, 'l');
        push_char(out, 't');
        push_char(out, ';');
    } else if c == '>' {
        push_char(out, '&');
        push_char(out, 'g');
        push_char(out, 't');
        push_char(out, ';');
    } else if c == '"' {
        push_char(out, '&');
        push_char(out, 'q');
        push_char(out, 'u');
        push_char(out, 'o');
        push_char(out, 't');
        push_char(out, ';');
    } else if c == '\'' {
        push_char(out, '&');
        push_char(out, '#');
        push_char(out, 'x');
        push_char(out, '2');
        push_char(out, '7');
        push_char(out, ';');
    } else {
        push_char(out, c);
    }
    assert(final(out)@ =~= old(out)@ + html_escape_char(c));
}

/// Escapes the characters that HTML interprets, so that user text is shown as
/// text (`&`, `<`, `>`, `"` and `'` become entities).
pub fn sanitize_text(input: &str) -> (r: String)
    ensures
        r@ == html_escaped(input@),
{
    let v = chars_of(input);
    let mut out = String::new();
    let mut i: usize = 0;
    while i < v.len()
        invariant
            v@ == input@,
            i <= v.len(),
            out@ == html_escaped(v@.subrange(0, i as int)),
        decreases v.len() - i,
    {
        assert(v@.subrange(0, i + 1).drop_last() =~= v@.subrange(0, i as int));
        push_escaped(&mut out, v[i]);
        i = i + 1;
    }
    assert(v@.subrange(0, v.len() as int) =~= v@);
    out
}

/// Escaped text holds no `<`, `>`, `"` or `'`: every such character of the
/// input has become an entity.
pub proof fn lemma_escaped_text_has_no_markup(s: Seq<char>)
    ensures
        forall|k: int|
            0 <= k < html_escaped(s).len() ==> {
                let c = #[trigger] html_escaped(s)[k];
                c != '<' && c != '>' && c != '"' && c != '\''
            },
    decreases s.len(),
{
    if s.len() > 0 {
        lemma_escaped_text_has_no_markup(s.drop_last());
        let a = html_escaped(s.drop_last());
        let b = html_escape_char(s.last());
        assert forall|k: int| 0 <= k < html_escaped(s).len() implies {
            let c = #[trigger] html_escaped(s)[k];
            c != '<' && c != '>' && c != '"' && c != '\''
        } by {
            if k < a.len() {
                assert(html_escaped(s)[k] == a[k]);
            } else {
                assert(html_escaped(s)[k] == b[k - a.len()]);
            }
        }
    }
}

/// Text without any of the characters that escaping replaces comes out unchanged.
pub proof fn lemma_plain_text_is_unchanged(s: Seq<char>)
    requires
        forall|k: int| 0 <= k < s.len() ==> !is_html_special(#[trigger] s[k]),
    ensures
        html_escaped(s) == s,
    decreases s.len(),
{
    if s.len() > 0 {
        assert(!is_html_special(s[s.len() - 1]));
        lemma_plain_text_is_unchanged(s.drop_last());
        assert(html_escaped(s) =~= s);
    }
}

// ---------------------------------------------------------------- enumerations

/// The states a request can be in: `pending`, `in-progress`, `done`, `closed`.
pub open spec fn is_known_status(s: Seq<char>) -> bool {
    s == "pending"@ || s == "in-progress"@ || s == "done"@ || s == "closed"@
}

/// The kinds of request: `iluminacao`, `sinalizacao`, `limpeza`, `areas_verdes`,
/// `agua`, `outro`.
pub open spec fn is_known_tipo(s: Seq<char>) -> bool {
    s == "iluminacao"@ || s == "sinalizacao"@ || s == "limpeza"@ || s == "areas_verdes"@ || s
        == "agua"@ || s == "outro"@
}

/// Whether `status` is one of the request states.
pub fn is_valid_status(status: &str) -> (r: bool)
    ensures
        r == is_known_status(status@),
{
    same_text(status, "pending") || same_text(status, "in-progress") || same_text(status, "done")
        || same_text(status, "closed")
}

/// Whether `tipo` is one of the request kinds.
pub fn is_valid_tipo(tipo: &str) -> (r: bool)
    ensures
        r == is_known_tipo(tipo@),
{
    same_text(tipo, "iluminacao") || same_text(tipo, "sinalizacao") || same_text(tipo, "limpeza")
        || same_text(tipo, "areas_verdes") || same_text(tipo, "agua") || same_text(tipo, "outro")
}

} // verus!

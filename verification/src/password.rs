//! Password hashing with Argon2id and checking a password against a stored hash.

use vstd::prelude::*;
use vstd::string::*;
use vstd::utf8::*;
use argon2::{PasswordHasher, PasswordVerifier};

verus! {

#[verifier::external_type_specification]
#[verifier::external_body]
pub struct ExPasswordHashError(password_hash::Error);

/// The PHC string that Argon2id with its default parameters (version 19,
/// 19 MiB of memory, 2 passes, 1 lane) produces for `password` and the
/// B64-encoded `salt`, or `None` when hashing fails.
pub uninterp spec fn argon2_phc(password: Seq<char>, salt: Seq<char>) -> Option<Seq<char>>;

/// Whether `phc` parses as a PHC string and Argon2, run again with the
/// algorithm, parameters and salt that it records, computes from
/// `password` the output that it records.
pub uninterp spec fn argon2_verifies(password: Seq<char>, phc: Seq<char>) -> bool;

/// The start of the PHC strings that Argon2id with default parameters writes.
pub open spec fn argon2_default_prefix() -> Seq<char> {
    "$argon2id$v=19$m=19456,t=2,p=1$"@
}

/// `[A-Za-z0-9+/]`, the alphabet of B64.
pub open spec fn is_b64_char(c: char) -> bool {
    ('a' <= c <= 'z') || ('A' <= c <= 'Z') || ('0' <= c <= '9') || c == '+' || c == '/'
}

/// A salt as `SaltString::generate` writes it: the canonical B64 text of 16
/// random bytes, 22 characters whose last one carries 2 bits only and so is
/// one of `A`, `Q`, `g`, `w`.
pub open spec fn is_generated_salt(s: Seq<char>) -> bool {
    &&& s.len() == 22
    &&& forall|k: int| 0 <= k < s.len() ==> is_b64_char(#[trigger] s[k])
    &&& (s[21] == 'A' || s[21] == 'Q' || s[21] == 'g' || s[21] == 'w')
}

/// `phc` is the PHC string of a default Argon2id hash made with `salt`: the
/// fixed prefix, the salt, then `$` and the 32-byte output in B64 (43
/// characters).
pub open spec fn phc_layout(phc: Seq<char>, salt: Seq<char>) -> bool {
    let p = argon2_default_prefix().len() as int;
    &&& phc.len() == p + salt.len() + 44
    &&& phc.subrange(0, p) == argon2_default_prefix()
    &&& phc.subrange(p, p + salt.len()) == salt
    &&& phc[p + salt.len()] == '$'
    &&& forall|k: int| p + salt.len() < k < phc.len() ==> is_b64_char(#[trigger] phc[k])
}

/// The characters a default Argon2id PHC string made with a generated salt
/// can hold: B64 characters and `$`, `=`, `,`.
pub open spec fn is_phc_char(c: char) -> bool {
    is_b64_char(c) || c == '$' || c == '=' || c == ','
}

/// Whether `needle` occurs as a contiguous part of `hay`.
pub open spec fn occurs_in(needle: Seq<char>, hay: Seq<char>) -> bool {
    exists|i: int| 0 <= i && i + needle.len() <= hay.len() && #[trigger] hay.subrange(i, i + needle.len()) == needle
}

/// `SaltString::generate(&mut OsRng)`: a fresh random salt from the operating
/// system. The value is random; the contract states its shape (16 bytes
/// encoded by `SaltString::encode_b64` in canonical B64).
#[verifier::external_body]
fn generate_salt() -> (s: String)
    ensures
        is_generated_salt(s@),
{
    password_hash::SaltString::generate(&mut password_hash::rand_core::OsRng).as_str().to_string()
}

/// `Salt::from_b64` then `Argon2::default().hash_password`, as a PHC string.
/// The result is named by [`argon2_phc`]. Stated besides, as the source of
/// `argon2` and `password-hash` shows it: the string starts with the default
/// prefix, the salt, `$` and the 43 B64 characters of the 32-byte output;
/// checking the same password against it succeeds (verification recomputes
/// the hash from the parameters and salt the string records); and with a
/// salt as `SaltString::generate` writes it (accepted by `Salt::from_b64`,
/// decoding to 16 bytes) and a password of at most `MAX_PWD_LEN` (2^32 - 1)
/// bytes, no check of `hash_password_into` fails, so hashing succeeds.
#[verifier::external_body]
fn argon2_hash(password: &str, salt: &str) -> (r: Result<String, password_hash::Error>)
    ensures
        match r {
            Ok(h) => argon2_phc(password@, salt@) == Some(h@) && phc_layout(h@, salt@)
                && argon2_verifies(password@, h@),
            Err(_) => argon2_phc(password@, salt@) is None,
        },
        is_generated_salt(salt@) && encode_utf8(password@).len() <= 0xFFFF_FFFF ==> r is Ok,
{
    let salt = match password_hash::Salt::from_b64(salt) {
        Ok(s) => s,
        Err(e) => return Err(e),
    };
    match argon2::Argon2::default().hash_password(password.as_bytes(), salt) {
        Ok(h) => Ok(h.to_string()),
        Err(e) => Err(e),
    }
}

/// The text of a `password_hash::Error` (its `Display`); nothing is stated of it.
#[verifier::external_body]
fn hash_error_text(e: &password_hash::Error) -> (r: String) {
    e.to_string()
}

/// `PasswordHash::new(hash)` then `Argon2::default().verify_password`, `true`
/// when both succeed. The result is named by [`argon2_verifies`]; stated
/// besides, as the parser's source shows: a text that does not start with
/// `$` is no PHC string and is refused.
#[verifier::external_body]
fn argon2_check(password: &str, hash: &str) -> (r: bool)
    ensures
        r == argon2_verifies(password@, hash@),
        (hash@.len() == 0 || hash@[0] != '$') ==> !r,
{
    match password_hash::PasswordHash::new(hash) {
        Ok(parsed) => argon2::Argon2::default().verify_password(password.as_bytes(), &parsed).is_ok(),
        Err(_) => false,
    }
}

/// Two hashes made with salts of the same length that differ are different
/// strings: the salt stands at the same place in both.
pub proof fn lemma_distinct_salts_give_distinct_hashes(
    h1: Seq<char>,
    s1: Seq<char>,
    h2: Seq<char>,
    s2: Seq<char>,
)
    requires
        phc_layout(h1, s1),
        phc_layout(h2, s2),
        s1.len() == s2.len(),
        s1 != s2,
    ensures
        h1 != h2,
{
    let p = argon2_default_prefix().len() as int;
    if h1 == h2 {
        assert(s1 =~= h1.subrange(p, p + s1.len()));
        assert(s2 =~= h2.subrange(p, p + s2.len()));
    }
}

/// Every character of a default Argon2id hash made with a generated salt is
/// a B64 character, `$`, `=` or `,`.
pub proof fn lemma_hash_chars(h: Seq<char>, salt: Seq<char>)
    requires
        phc_layout(h, salt),
        is_generated_salt(salt),
    ensures
        forall|k: int| 0 <= k < h.len() ==> is_phc_char(#[trigger] h[k]),
{
    reveal_strlit("$argon2id$v=19$m=19456,t=2,p=1$");
    let p = argon2_default_prefix().len() as int;
    assert(p == 31);
    assert forall|k: int| 0 <= k < h.len() implies is_phc_char(#[trigger] h[k]) by {
        if k < p {
            assert(h[k] == h.subrange(0, p)[k]);
            assert(is_phc_char(argon2_default_prefix()[k]));
        } else if k < p + salt.len() {
            assert(h[k] == h.subrange(p, p + salt.len())[k - p]);
            assert(is_b64_char(salt[k - p]));
        }
    }
}

/// A stored hash never shows a password that holds a character outside the
/// hash's alphabet (such as `!`, a space or any non-ASCII letter): the
/// password does not occur in it.
pub proof fn lemma_hash_hides_password(h: Seq<char>, salt: Seq<char>, password: Seq<char>)
    requires
        phc_layout(h, salt),
        is_generated_salt(salt),
        exists|k: int| 0 <= k < password.len() && !is_phc_char(#[trigger] password[k]),
    ensures
        !occurs_in(password, h),
{
    lemma_hash_chars(h, salt);
    let k = choose|k: int| 0 <= k < password.len() && !is_phc_char(#[trigger] password[k]);
    if occurs_in(password, h) {
        let i = choose|i: int|
            0 <= i && i + password.len() <= h.len() && #[trigger] h.subrange(i, i + password.len())
                == password;
        assert(password[k] == h.subrange(i, i + password.len())[k]);
        assert(is_phc_char(h[i + k]));
    }
}

/// The message prefix of a failed hash.
pub open spec fn hash_failure_prefix() -> Seq<char> {
    "Erro ao gerar hash: "@
}

/// Hashes a password with Argon2id and a fresh random salt, as a PHC string.
/// It succeeds for every password of at most 2^32 - 1 bytes. Whatever the
/// salt drawn: the hash accepts `password` again ([`verify_password`]) and
/// is laid out as the default prefix, the salt, `$` and the output.
pub fn hash_password(password: &str) -> (r: Result<String, String>)
    ensures
        encode_utf8(password@).len() <= 0xFFFF_FFFF ==> r is Ok,
        match r {
            Ok(h) => argon2_verifies(password@, h@) && exists|salt: Seq<char>|
                is_generated_salt(salt) && phc_layout(h@, salt) && argon2_phc(password@, salt)
                    == Some(h@),
            Err(m) => m@.len() >= hash_failure_prefix().len() && m@.subrange(
                0,
                hash_failure_prefix().len() as int,
            ) == hash_failure_prefix(),
        },
{
    let salt = generate_salt();
    match argon2_hash(password, salt.as_str()) {
        Ok(h) => {
            assert(is_generated_salt(salt@) && phc_layout(h@, salt@));
            Ok(h)
        },
        Err(e) => {
            let mut m = String::from_str("Erro ao gerar hash: ");
            let text = hash_error_text(&e);
            m.append(text.as_str());
            proof {
                reveal_strlit("Erro ao gerar hash: ");
                assert(m@.subrange(0, hash_failure_prefix().len() as int) =~= hash_failure_prefix());
            }
            Err(m)
        },
    }
}

/// Whether `password` matches the stored PHC string `hash`; `false` also when
/// `hash` is no PHC string.
pub fn verify_password(password: &str, hash: &str) -> (r: bool)
    ensures
        r == argon2_verifies(password@, hash@),
        (hash@.len() == 0 || hash@[0] != '$') ==> !r,
{
    argon2_check(password, hash)
}

} // verus!

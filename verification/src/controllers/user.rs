//! Access checks of the administration endpoints.

use vstd::prelude::*;
use crate::jwt::{bearer_token, has_bearer_prefix, Claims};
use crate::response::{is_error_reply, ApiResponse, HttpReply};
use crate::text::same_text;

verus! {

/// The token of the `Authorization` header, or the 401 reply sent when the
/// header carries none.
pub fn require_admin_token(header: &str) -> (r: Result<String, HttpReply<()>>)
    ensures
        match r {
            Ok(t) => has_bearer_prefix(header@) && t@ == header@.subrange(7, header@.len() as int),
            Err(rep) => !has_bearer_prefix(header@) && is_error_reply(rep, 401, "Token ausente."@),
        },
{
    match bearer_token(header) {
        Some(t) => Ok(t),
        None => Err(ApiResponse::error(401, "Token ausente.")),
    }
}

/// Lets administrators through and answers everybody else with 403.
pub fn require_admin_role(claims: &Claims) -> (r: Result<(), HttpReply<()>>)
    ensures
        claims.role@ == "admin"@ <==> r is Ok,
        r matches Err(rep) ==> is_error_reply(rep, 403, "Acesso restrito a administradores."@),
{
    if same_text(claims.role.as_str(), "admin") {
        Ok(())
    } else {
        Err(ApiResponse::error(403, "Acesso restrito a administradores."))
    }
}

} // verus!

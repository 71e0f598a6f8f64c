//! The body and status code of every reply the service sends.

use vstd::prelude::*;
use vstd::string::*;

verus! {

/// The JSON body of a reply: whether the request succeeded, a message for the
/// user and, on success, the data asked for.
pub struct ApiResponse<T> {
    pub success: bool,
    pub message: String,
    pub data: Option<T>,
}

/// A reply: its HTTP status code and its body.
pub struct HttpReply<T> {
    pub status: u16,
    pub body: ApiResponse<T>,
}

/// The status code an error reply is sent with: 400, 401, 403, 404 and 429
/// stand as they are; any other code becomes 500.
pub open spec fn error_status(status: u16) -> u16 {
    if status == 400 || status == 401 || status == 403 || status == 404 || status == 429 {
        status
    } else {
        500
    }
}

/// `reply` is a success (200) carrying `message` and `data`.
pub open spec fn is_success_reply<T>(reply: HttpReply<T>, message: Seq<char>, data: Option<T>) -> bool {
    &&& reply.status == 200
    &&& reply.body.success
    &&& reply.body.message@ == message
    &&& reply.body.data == data
}

/// `reply` is a failure with status `status` and message `message`, without data.
pub open spec fn is_error_reply<T>(reply: HttpReply<T>, status: u16, message: Seq<char>) -> bool {
    &&& reply.status == status
    &&& !reply.body.success
    &&& reply.body.message@ == message
    &&& reply.body.data is None
}

impl<T> ApiResponse<T> {
    /// A success reply (status 200) with a message and optional data.
    pub fn success(message: &str, data: Option<T>) -> (r: HttpReply<T>)
        ensures
            is_success_reply(r, message@, data),
    {
        HttpReply {
            status: 200,
            body: ApiResponse { success: true, message: String::from_str(message), data },
        }
    }

    /// An error reply with the given status (see [`error_status`]) and message.
    pub fn error(status: u16, message: &str) -> (r: HttpReply<T>)
        ensures
            is_error_reply(r, error_status(status), message@),
    {
        let code: u16 = if status == 400 || status == 401 || status == 403 || status == 404
            || status == 429 {
            status
        } else {
            500
        };
        HttpReply {
            status: code,
            body: ApiResponse { success: false, message: String::from_str(message), data: None },
        }
    }
}

} // verus!

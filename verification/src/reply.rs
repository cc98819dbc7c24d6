//! Plain-text HTTP replies that the front ends send when no JSON-RPC reply
//! can be formed.

use vstd::prelude::*;

verus! {

/// The status for a request whose body could not be read.
pub const BAD_REQUEST: u16 = 400;

/// A reply made of a status code and a text body.
pub struct PlainReply {
    pub status: u16,
    pub body: String,
}

/// The text that introduces the reason a body could not be read.
pub open spec fn body_failure_prefix() -> Seq<char> {
    "Failed to read request body: "@
}

/// The reply to a request whose body could not be read, `detail` being the
/// reason the transport gave.
pub fn body_read_failure(detail: &str) -> (r: PlainReply)
    ensures
        r.status == BAD_REQUEST,
        r.body@ == body_failure_prefix() + detail@,
{
    let body = String::from_str("Failed to read request body: ").concat(detail);
    PlainReply { status: BAD_REQUEST, body }
}

/// A body that cannot be read is answered with status 400 and the text
/// `Failed to read request body: ` followed by the reason.
pub proof fn lemma_body_failure_reply(detail: Seq<char>)
    ensures
        BAD_REQUEST == 400,
        body_failure_prefix() + detail == "Failed to read request body: "@ + detail,
{
}

} // verus!

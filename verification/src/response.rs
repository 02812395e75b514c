use vstd::prelude::*;

verus! {

/// The JSON-shaped payload that every HTTP endpoint of the bridge
/// answers with.
pub struct ApiResponse {
    pub ok: bool,
    pub message: String,
}

/// A full HTTP-level answer: the status code and the payload.
pub struct HttpReply {
    pub status: u16,
    pub body: ApiResponse,
}

/// The answer of the health endpoint: always a success with the text
/// `ok`, whatever the state of the transport.
pub fn health_reply() -> (r: HttpReply)
    ensures
        r.status == 200,
        r.body.ok == true,
        r.body.message@ == "ok"@,
{
    HttpReply { status: 200, body: ApiResponse { ok: true, message: "ok".to_owned() } }
}

/// The answer to one delivery attempt: a plain success when the
/// transport acknowledged the message, and a server error with the
/// fixed text `smtp send failed` — nothing of the transport's internals
/// leaks out — when it did not.
pub fn delivery_reply(delivered: bool) -> (r: HttpReply)
    ensures
        delivered ==> r.status == 200 && r.body.ok == true && r.body.message@ == "sent"@,
        !delivered ==> r.status == 500 && r.body.ok == false && r.body.message@
            == "smtp send failed"@,
{
    if delivered {
        HttpReply { status: 200, body: ApiResponse { ok: true, message: "sent".to_owned() } }
    } else {
        HttpReply {
            status: 500,
            body: ApiResponse { ok: false, message: "smtp send failed".to_owned() },
        }
    }
}

} // verus!

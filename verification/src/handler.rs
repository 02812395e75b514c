use vstd::prelude::*;
use crate::mailbox::is_valid_mailbox;
use crate::mailbox::parse_mailbox;
use crate::message::build_email;
use crate::response::ApiResponse;
use crate::response::HttpReply;
use crate::text::blank;
use crate::text::is_blank;
use crate::text::trim_seq;
use crate::text::trim_str;

verus! {

/// One email-send request as the HTTP surface carries it.
pub struct SendEmailRequest {
    pub title: String,
    pub to: String,
    pub body: String,
}

/// A per-request failure, recovered by answering the one request with a
/// client error; it never touches other requests.
#[derive(Debug)]
pub enum ValidationError {
    MalformedBody,
    EmptyTitle,
    EmptyBody,
    EmptyRecipient,
    InvalidRecipient,
    InvalidPayload,
}

/// The fixed, ordered chain of field checks, first failure winning:
/// `title`, `body` and `to` must be non-blank, and `to`, trimmed, must
/// conform to the mailbox grammar. `None` means the fields pass.
pub open spec fn field_check(title: Seq<char>, to: Seq<char>, body: Seq<char>) -> Option<
    ValidationError,
> {
    if blank(title) {
        Some(ValidationError::EmptyTitle)
    } else if blank(body) {
        Some(ValidationError::EmptyBody)
    } else if blank(to) {
        Some(ValidationError::EmptyRecipient)
    } else if !is_valid_mailbox(trim_seq(to)) {
        Some(ValidationError::InvalidRecipient)
    } else {
        None
    }
}

/// Validates one request and builds the message to deliver: sender the
/// configured mailbox, recipient the trimmed `to`, subject the title,
/// and the body as given. Exactly the failures of `field_check` are
/// returned, so an `Err` means no message exists and nothing is
/// delivered; and fields that pass always yield a message, since the
/// mail library cannot refuse the single-sender, single-recipient
/// shape built here. The `InvalidPayload` arm below is defensive and
/// is proved never taken.
pub fn prepare_email(from: &lettre::message::Mailbox, req: &SendEmailRequest) -> (r: Result<
    lettre::Message,
    ValidationError,
>)
    ensures
        field_check(req.title@, req.to@, req.body@) matches Some(e) ==> r == Err::<
            lettre::Message,
            ValidationError,
        >(e),
        field_check(req.title@, req.to@, req.body@) is None ==> r is Ok,
{
    if is_blank(req.title.as_str()) {
        return Err(ValidationError::EmptyTitle);
    }
    if is_blank(req.body.as_str()) {
        return Err(ValidationError::EmptyBody);
    }
    if is_blank(req.to.as_str()) {
        return Err(ValidationError::EmptyRecipient);
    }
    let trimmed = trim_str(req.to.as_str());
    match parse_mailbox(trimmed) {
        None => Err(ValidationError::InvalidRecipient),
        Some(to) => match build_email(from, to, req.title.clone(), req.body.clone()) {
            Some(message) => Ok(message),
            None => Err(ValidationError::InvalidPayload),
        },
    }
}

/// The reason string that a validation failure answers with.
pub open spec fn reason_of(e: ValidationError) -> Seq<char> {
    match e {
        ValidationError::MalformedBody => "invalid request body"@,
        ValidationError::EmptyTitle => "title cannot be empty"@,
        ValidationError::EmptyBody => "body cannot be empty"@,
        ValidationError::EmptyRecipient => "to cannot be empty"@,
        ValidationError::InvalidRecipient => "invalid recipient email"@,
        ValidationError::InvalidPayload => "invalid email payload"@,
    }
}

/// The HTTP answer to a validation failure: always a client error,
/// carrying the failure's own reason.
pub fn validation_reply(e: &ValidationError) -> (r: HttpReply)
    ensures
        r.status == 400,
        r.body.ok == false,
        r.body.message@ == reason_of(*e),
{
    let message = match e {
        ValidationError::MalformedBody => "invalid request body".to_owned(),
        ValidationError::EmptyTitle => "title cannot be empty".to_owned(),
        ValidationError::EmptyBody => "body cannot be empty".to_owned(),
        ValidationError::EmptyRecipient => "to cannot be empty".to_owned(),
        ValidationError::InvalidRecipient => "invalid recipient email".to_owned(),
        ValidationError::InvalidPayload => "invalid email payload".to_owned(),
    };
    HttpReply { status: 400, body: ApiResponse { ok: false, message } }
}

/// A request with a blank `title`, `body` or `to` is turned away by the
/// field checks alone — the first blank field in checking order names
/// the reason — so no message is built and no delivery is attempted.
pub proof fn lemma_blank_field_rejected(title: Seq<char>, to: Seq<char>, body: Seq<char>)
    requires
        blank(title) || blank(body) || blank(to),
    ensures
        field_check(title, to, body) is Some,
        blank(title) ==> field_check(title, to, body) == Some(ValidationError::EmptyTitle)
            && reason_of(ValidationError::EmptyTitle) == "title cannot be empty"@,
        !blank(title) && blank(body) ==> field_check(title, to, body) == Some(
            ValidationError::EmptyBody,
        ) && reason_of(ValidationError::EmptyBody) == "body cannot be empty"@,
        !blank(title) && !blank(body) && blank(to) ==> field_check(title, to, body) == Some(
            ValidationError::EmptyRecipient,
        ) && reason_of(ValidationError::EmptyRecipient) == "to cannot be empty"@,
{
}

/// A request whose fields are filled but whose `to`, trimmed, does not
/// conform to the mailbox grammar is turned away as an invalid
/// recipient, with the reason `invalid recipient email`.
pub proof fn lemma_invalid_recipient_rejected(title: Seq<char>, to: Seq<char>, body: Seq<char>)
    requires
        !blank(title),
        !blank(body),
        !blank(to),
        !is_valid_mailbox(trim_seq(to)),
    ensures
        field_check(title, to, body) == Some(ValidationError::InvalidRecipient),
        reason_of(ValidationError::InvalidRecipient) == "invalid recipient email"@,
{
}

} // verus!

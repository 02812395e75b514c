use vstd::prelude::*;

verus! {

#[verifier::external_type_specification]
#[verifier::external_body]
pub struct ExMessage(lettre::Message);

/// Relies on `lettre::Message::builder` and on `MessageBuilder::{from,
/// to, subject, body}`: assembles a message with the one given sender,
/// the one given recipient, the subject and the plain-text body. On
/// this shape — exactly one `From` and one `To` mailbox set — lettre's
/// checks have no failure path: the originator checks pass with a
/// single sender, the envelope gets its one non-empty recipient, and a
/// string body is encodable as it stands; so the assembly always
/// yields a message.
#[verifier::external_body]
pub(crate) fn build_email(
    from: &lettre::message::Mailbox,
    to: lettre::message::Mailbox,
    subject: String,
    body: String,
) -> (r: Option<lettre::Message>)
    ensures
        r is Some,
{
    match lettre::Message::builder().from(from.clone()).to(to).subject(subject).body(body) {
        Ok(message) => Some(message),
        Err(_) => None,
    }
}

} // verus!

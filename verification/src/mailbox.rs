use vstd::prelude::*;

verus! {

#[verifier::external_type_specification]
#[verifier::external_body]
pub struct ExMailbox(lettre::message::Mailbox);

/// Whether `s` conforms to the mailbox grammar — an optional display
/// name and an address — that `lettre::message::Mailbox::from_str`
/// recognizes.
pub uninterp spec fn is_valid_mailbox(s: Seq<char>) -> bool;

/// Relies on `lettre::message::Mailbox::from_str`: the parse reads the
/// input string alone, and it yields a mailbox exactly when the string
/// conforms to the mailbox grammar, named here `is_valid_mailbox`.
#[verifier::external_body]
pub(crate) fn parse_mailbox(s: &str) -> (r: Option<lettre::message::Mailbox>)
    ensures
        r is Some <==> is_valid_mailbox(s@),
{
    match s.parse::<lettre::message::Mailbox>() {
        Ok(mailbox) => Some(mailbox),
        Err(_) => None,
    }
}

} // verus!

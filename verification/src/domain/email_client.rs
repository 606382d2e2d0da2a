use vstd::prelude::*;

use crate::domain::email::Email;

verus! {

/// An outbound email transport. Implementations may fail; nothing is
/// promised about delivery, only the result reports whether the send
/// was accepted.
pub trait EmailClient {
    fn send_email(&self, recipient: &Email, subject: &str, content: &str) -> (r: Result<
        (),
        String,
    >);
}

} // verus!

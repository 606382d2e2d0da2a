use vstd::prelude::*;

use crate::domain::email::Email;
use crate::domain::email_client::EmailClient;

verus! {

/// An email client that accepts every message without sending anything;
/// for test and development use.
pub struct MockEmailClient;

impl EmailClient for MockEmailClient {
    #[allow(unused_variables)]
    fn send_email(&self, recipient: &Email, subject: &str, content: &str) -> (r: Result<
        (),
        String,
    >)
        ensures
            r is Ok,
    {
        Ok(())
    }
}

} // verus!

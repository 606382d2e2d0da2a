use vstd::prelude::*;

use crate::domain::email::Email;
use crate::domain::password::Password;

verus! {

/// The mathematical image of a stored user record.
pub struct UserV {
    pub email: Seq<char>,
    pub password: Seq<char>,
    pub requires_2fa: bool,
}

/// A registered user: a validated email, a validated password, and whether
/// logins for this user must pass a second factor.
#[derive(Debug, PartialEq)]
pub struct User {
    pub email: Email,
    pub password: Password,
    pub requires_2fa: bool,
}

impl View for User {
    type V = UserV;

    open spec fn view(&self) -> UserV {
        UserV { email: self.email@, password: self.password@, requires_2fa: self.requires_2fa }
    }
}

impl User {
    pub fn new(email: Email, password: Password, requires_2fa: bool) -> (r: User)
        ensures
            r.email == email,
            r.password == password,
            r.requires_2fa == requires_2fa,
    {
        User { email, password, requires_2fa }
    }
}

impl Clone for User {
    fn clone(&self) -> (r: Self)
        ensures
            r == *self,
    {
        User {
            email: self.email.clone(),
            password: self.password.clone(),
            requires_2fa: self.requires_2fa,
        }
    }
}

} // verus!

use vstd::prelude::*;
use vstd::string::StrSliceExecFns;
use vstd::string::StringExecFns;

verus! {

/// A password is acceptable when it is at least 8 characters long
/// (counted in characters, not bytes).
pub open spec fn valid_password(s: Seq<char>) -> bool {
    s.len() >= 8
}

/// A validated password. Values can only be obtained through
/// [`Password::parse`], so every `Password` has at least 8 characters.
#[derive(Debug, Eq)]
pub struct Password {
    password: String,
}

impl PartialEq for Password {
    fn eq(&self, other: &Self) -> (r: bool) {
        self.password == other.password
    }
}

impl vstd::std_specs::cmp::PartialEqSpecImpl for Password {
    open spec fn obeys_eq_spec() -> bool {
        true
    }

    open spec fn eq_spec(&self, other: &Self) -> bool {
        self@ == other@
    }
}

impl View for Password {
    type V = Seq<char>;

    closed spec fn view(&self) -> Seq<char> {
        self.password@
    }
}

impl Password {
    #[verifier::type_invariant]
    pub open spec fn wf(self) -> bool {
        valid_password(self@)
    }

    pub fn parse(password: String) -> (r: Result<Password, String>)
        ensures
            r is Ok <==> valid_password(password@),
            r matches Ok(p) ==> p@ == password@,
            r matches Err(m) ==> m@ == "password too short"@,
    {
        if password.as_str().unicode_len() < 8 {
            return Err(String::from_str("password too short"));
        }

        Ok(Password { password })
    }

    pub fn as_ref(&self) -> (r: &str)
        ensures
            r@ == self@,
    {
        self.password.as_str()
    }
}

impl Clone for Password {
    fn clone(&self) -> (r: Self)
        ensures
            r == *self,
    {
        proof {
            use_type_invariant(self);
        }
        Password { password: self.password.clone() }
    }
}

} // verus!

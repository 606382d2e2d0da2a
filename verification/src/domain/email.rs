use vstd::prelude::*;
use vstd::string::StrSliceExecFns;
use vstd::string::StringExecFns;

verus! {

/// A string is an acceptable email address when it contains an `@` that
/// separates a local part from a domain part.
pub open spec fn valid_email(s: Seq<char>) -> bool {
    s.contains('@')
}

/// A validated email address. Values can only be obtained through
/// [`Email::parse`], so every `Email` contains an `@`.
#[derive(Debug, Eq, Hash)]
pub struct Email {
    email: String,
}

impl PartialEq for Email {
    fn eq(&self, other: &Self) -> (r: bool) {
        self.email == other.email
    }
}

impl vstd::std_specs::cmp::PartialEqSpecImpl for Email {
    open spec fn obeys_eq_spec() -> bool {
        true
    }

    open spec fn eq_spec(&self, other: &Self) -> bool {
        self@ == other@
    }
}

impl View for Email {
    type V = Seq<char>;

    closed spec fn view(&self) -> Seq<char> {
        self.email@
    }
}

impl Email {
    #[verifier::type_invariant]
    pub open spec fn wf(self) -> bool {
        valid_email(self@)
    }

    pub fn parse(email: String) -> (r: Result<Email, String>)
        ensures
            r is Ok <==> valid_email(email@),
            r matches Ok(e) ==> e@ == email@,
            r matches Err(m) ==> m@ == email@ + " is not a valid email."@,
    {
        let s = email.as_str();
        let n = s.unicode_len();
        let mut i: usize = 0;
        let mut found = false;
        while i < n
            invariant
                n == email@.len(),
                s@ == email@,
                i <= n,
                found ==> valid_email(email@),
                !found ==> forall|j: int| 0 <= j < i ==> email@[j] != '@',
            decreases n - i,
        {
            if s.get_char(i) == '@' {
                found = true;
            }
            i += 1;
        }
        if found {
            Ok(Email { email })
        } else {
            Err(email.concat(" is not a valid email."))
        }
    }

    pub fn as_ref(&self) -> (r: &str)
        ensures
            r@ == self@,
    {
        self.email.as_str()
    }
}

impl Clone for Email {
    fn clone(&self) -> (r: Self)
        ensures
            r == *self,
    {
        proof {
            use_type_invariant(self);
        }
        Email { email: self.email.clone() }
    }
}

} // verus!

use vstd::prelude::*;
use vstd::string::StrSliceExecFns;
use vstd::string::StringExecFns;

use crate::domain::email::Email;
use crate::domain::password::Password;
use crate::domain::user::{User, UserV};
use crate::utils::decimal::{all_digits, dec_encode, lemma_dec_seq_value, pow10};

verus! {

/// A durable mapping from email to user record.
pub trait UserStore {
    /// The records currently held, keyed by the email's characters.
    open spec fn users(&self) -> Map<Seq<char>, UserV> {
        Map::empty()
    }

    fn add_user(&mut self, user: User) -> (r: Result<(), UserStoreError>)
        ensures
            r is Ok ==> !old(self).users().contains_key(user.email@) && final(self).users()
                == old(self).users().insert(user.email@, user@),
            r is Err ==> final(self).users() == old(self).users(),
            r == Err::<(), UserStoreError>(UserStoreError::UserAlreadyExists) ==> old(
                self,
            ).users().contains_key(user.email@),
    ;

    fn get_user(&self, email: &Email) -> (r: Result<User, UserStoreError>)
        ensures
            r matches Ok(u) ==> self.users().contains_key(email@) && u@ == self.users()[email@]
                && u.email@ == email@,
            r == Err::<User, UserStoreError>(UserStoreError::UserNotFound)
                ==> !self.users().contains_key(email@),
    ;

    fn validate_user(&self, email: &Email, password: &Password) -> (r: Result<
        (),
        UserStoreError,
    >)
        ensures
            r is Ok ==> self.users().contains_key(email@) && self.users()[email@].password
                == password@,
            r == Err::<(), UserStoreError>(UserStoreError::InvalidCredentials)
                ==> self.users().contains_key(email@) && self.users()[email@].password
                != password@,
            r == Err::<(), UserStoreError>(UserStoreError::UserNotFound)
                ==> !self.users().contains_key(email@),
    ;
}

/// A set of revoked session tokens.
pub trait BannedTokenStore {
    /// The tokens currently held, as their character sequences.
    open spec fn tokens(&self) -> Set<Seq<char>> {
        Set::empty()
    }

    fn add_token(&mut self, token: String) -> (r: Result<(), BannedTokenStoreError>)
        ensures
            r is Ok ==> final(self).tokens() == old(self).tokens().insert(token@),
            r is Err ==> final(self).tokens() == old(self).tokens(),
    ;

    fn contains_token(&self, token: &str) -> (r: Result<bool, BannedTokenStoreError>)
        ensures
            r matches Ok(b) ==> b == self.tokens().contains(token@),
    ;
}

#[derive(Debug, PartialEq, Eq, Structural)]
pub enum UserStoreError {
    UserAlreadyExists,
    UserNotFound,
    InvalidCredentials,
    UnexpectedError,
}

#[derive(Debug, PartialEq, Eq, Structural)]
pub enum BannedTokenStoreError {
    UnexpectedError,
}

/// A per-email pending second-factor challenge: at most one per email,
/// and issuing a new one replaces the old.
pub trait TwoFACodeStore {
    /// The pending challenges, keyed by the email's characters; the value is
    /// the pair of the login attempt id and the code.
    open spec fn codes(&self) -> Map<Seq<char>, (Seq<char>, Seq<char>)> {
        Map::empty()
    }

    fn add_code(&mut self, email: Email, login_attempt_id: LoginAttemptId, code: TwoFACode) -> (r:
        Result<(), TwoFACodeStoreError>)
        ensures
            r is Ok ==> final(self).codes() == old(self).codes().insert(
                email@,
                (login_attempt_id@, code@),
            ),
            r is Err ==> final(self).codes() == old(self).codes(),
    ;

    fn remove_code(&mut self, email: &Email) -> (r: Result<(), TwoFACodeStoreError>)
        ensures
            r is Ok ==> final(self).codes() == old(self).codes().remove(email@),
            r is Err ==> final(self).codes() == old(self).codes(),
    ;

    fn get_code(&self, email: &Email) -> (r: Result<
        (LoginAttemptId, TwoFACode),
        TwoFACodeStoreError,
    >)
        ensures
            r matches Ok(p) ==> self.codes().contains_key(email@) && self.codes()[email@] == (
                p.0@,
                p.1@,
            ),
            r == Err::<(LoginAttemptId, TwoFACode), TwoFACodeStoreError>(
                TwoFACodeStoreError::LoginAttemptIdNotFound,
            ) ==> !self.codes().contains_key(email@),
    ;
}

#[derive(Debug, PartialEq, Eq, Structural)]
pub enum TwoFACodeStoreError {
    LoginAttemptIdNotFound,
    UnexpectedError,
}

pub open spec fn is_lower_hex_digit(c: char) -> bool {
    c == '0' || c == '1' || c == '2' || c == '3' || c == '4' || c == '5' || c == '6' || c == '7'
        || c == '8' || c == '9' || c == 'a' || c == 'b' || c == 'c' || c == 'd' || c == 'e' || c
        == 'f'
}

/// The canonical textual form of a login attempt id: 36 characters,
/// hyphens at positions 8, 13, 18 and 23, lowercase hex digits elsewhere.
pub open spec fn canonical_attempt_id(s: Seq<char>) -> bool {
    &&& s.len() == 36
    &&& forall|i: int|
        0 <= i < 36 ==> if i == 8 || i == 13 || i == 18 || i == 23 {
            #[trigger] s[i] == '-'
        } else {
            is_lower_hex_digit(s[i])
        }
}

/// An opaque identifier correlating one login attempt with the challenge
/// issued for it. Only canonical 36-character ids exist.
#[derive(Debug)]
pub struct LoginAttemptId {
    id: String,
}

impl PartialEq for LoginAttemptId {
    fn eq(&self, other: &Self) -> (r: bool) {
        self.id == other.id
    }
}

impl vstd::std_specs::cmp::PartialEqSpecImpl for LoginAttemptId {
    open spec fn obeys_eq_spec() -> bool {
        true
    }

    open spec fn eq_spec(&self, other: &Self) -> bool {
        self@ == other@
    }
}

impl View for LoginAttemptId {
    type V = Seq<char>;

    closed spec fn view(&self) -> Seq<char> {
        self.id@
    }
}

/// Relies on `uuid::Uuid::new_v4` and the `Display` form of `uuid::Uuid`:
/// a fresh random identifier written as 36 hyphenated lowercase hex characters.
#[verifier::external_body]
fn random_uuid_string() -> (r: String)
    ensures
        canonical_attempt_id(r@),
{
    uuid::Uuid::new_v4().to_string()
}

/// Relies on `rand::random_range`: a uniformly random value below the bound.
#[verifier::external_body]
fn random_below(bound: u32) -> (r: u32)
    requires
        0 < bound,
    ensures
        r < bound,
{
    rand::random_range(0..bound)
}

fn is_hex_char(c: char) -> (r: bool)
    ensures
        r == is_lower_hex_digit(c),
{
    c == '0' || c == '1' || c == '2' || c == '3' || c == '4' || c == '5' || c == '6' || c == '7'
        || c == '8' || c == '9' || c == 'a' || c == 'b' || c == 'c' || c == 'd' || c == 'e' || c
        == 'f'
}

impl LoginAttemptId {
    #[verifier::type_invariant]
    pub open spec fn wf(self) -> bool {
        canonical_attempt_id(self@)
    }

    pub fn parse(id: String) -> (r: Result<LoginAttemptId, String>)
        ensures
            r is Ok <==> canonical_attempt_id(id@),
            r matches Ok(v) ==> v@ == id@,
            r matches Err(m) ==> m@ == "Invalid LoginAttemptId"@,
    {
        let s = id.as_str();
        if s.unicode_len() != 36 {
            return Err(String::from_str("Invalid LoginAttemptId"));
        }
        let mut i: usize = 0;
        while i < 36
            invariant
                i <= 36,
                s@ == id@,
                id@.len() == 36,
                forall|j: int|
                    0 <= j < i ==> if j == 8 || j == 13 || j == 18 || j == 23 {
                        #[trigger] id@[j] == '-'
                    } else {
                        is_lower_hex_digit(id@[j])
                    },
            decreases 36 - i,
        {
            let c = s.get_char(i);
            let ok = if i == 8 || i == 13 || i == 18 || i == 23 {
                c == '-'
            } else {
                is_hex_char(c)
            };
            if !ok {
                return Err(String::from_str("Invalid LoginAttemptId"));
            }
            i += 1;
        }
        Ok(LoginAttemptId { id })
    }

    pub fn as_ref(&self) -> (r: &str)
        ensures
            r@ == self@,
    {
        self.id.as_str()
    }
}

impl Default for LoginAttemptId {
    /// A fresh random attempt id in canonical form.
    fn default() -> (r: Self)
        ensures
            canonical_attempt_id(r@),
    {
        LoginAttemptId { id: random_uuid_string() }
    }
}

impl Clone for LoginAttemptId {
    fn clone(&self) -> (r: Self)
        ensures
            r == *self,
    {
        proof {
            use_type_invariant(self);
        }
        LoginAttemptId { id: self.id.clone() }
    }
}

/// The shape of a second-factor code: exactly 6 decimal digits.
pub open spec fn six_digit_code(s: Seq<char>) -> bool {
    s.len() == 6 && all_digits(s)
}

/// A one-time second-factor code. Only 6-digit codes exist.
#[derive(Debug)]
pub struct TwoFACode {
    code: String,
}

impl PartialEq for TwoFACode {
    fn eq(&self, other: &Self) -> (r: bool) {
        self.code == other.code
    }
}

impl vstd::std_specs::cmp::PartialEqSpecImpl for TwoFACode {
    open spec fn obeys_eq_spec() -> bool {
        true
    }

    open spec fn eq_spec(&self, other: &Self) -> bool {
        self@ == other@
    }
}

impl View for TwoFACode {
    type V = Seq<char>;

    closed spec fn view(&self) -> Seq<char> {
        self.code@
    }
}

impl TwoFACode {
    #[verifier::type_invariant]
    pub open spec fn wf(self) -> bool {
        six_digit_code(self@)
    }

    pub fn parse(code: String) -> (r: Result<TwoFACode, String>)
        ensures
            r is Ok <==> six_digit_code(code@),
            r matches Ok(v) ==> v@ == code@,
            r matches Err(m) ==> m@ == "Invalid 2FA code. It must be a 6-digit number."@,
    {
        let s = code.as_str();
        if s.unicode_len() != 6 {
            return Err(String::from_str("Invalid 2FA code. It must be a 6-digit number."));
        }
        let mut i: usize = 0;
        while i < 6
            invariant
                i <= 6,
                s@ == code@,
                code@.len() == 6,
                forall|j: int|
                    0 <= j < i ==> crate::utils::decimal::is_digit(#[trigger] code@[j]),
            decreases 6 - i,
        {
            let c = s.get_char(i);
            if crate::utils::decimal::digit_of(c).is_none() {
                return Err(String::from_str("Invalid 2FA code. It must be a 6-digit number."));
            }
            i += 1;
        }
        Ok(TwoFACode { code })
    }

    pub fn as_ref(&self) -> (r: &str)
        ensures
            r@ == self@,
    {
        self.code.as_str()
    }
}

impl Default for TwoFACode {
    /// A fresh uniformly random 6-digit code.
    fn default() -> (r: Self)
        ensures
            six_digit_code(r@),
    {
        let n = random_below(1000000);
        let code = dec_encode(n as u64, 6);
        proof {
            reveal_with_fuel(pow10, 7);
            lemma_dec_seq_value(n as nat, 6);
        }
        TwoFACode { code }
    }
}

impl Clone for TwoFACode {
    fn clone(&self) -> (r: Self)
        ensures
            r == *self,
    {
        proof {
            use_type_invariant(self);
        }
        TwoFACode { code: self.code.clone() }
    }
}

} // verus!

//! Session tokens: a signed, time-bounded credential binding a subject
//! email and an expiry instant.
//!
//! A token is one string with three parts: 20 decimal digits holding a tag
//! computed from the signing secret, the expiry, and the subject; 20 decimal
//! digits holding the expiry as seconds; and the subject itself. A token is
//! accepted when its tag matches, its expiry lies in the future, and it has
//! not been revoked.

use vstd::prelude::*;
use vstd::string::StrSliceExecFns;
use vstd::string::StringExecFns;

use crate::domain::data_stores::BannedTokenStore;
use crate::domain::email::{valid_email, Email};
use crate::domain::error::AuthAPIError;
use crate::utils::decimal::{
    all_digits, dec_decode, dec_encode, dec_seq, dec_value, is_digit, lemma_dec_seq_value, pow10,
};

verus! {

/// How long an issued token stays valid, in seconds.
pub const TOKEN_TTL_SECONDS: u64 = 600;

/// One mixing step of the token tag.
pub open spec fn spec_mix(h: u64, x: u64) -> u64 {
    vstd::wrapping::u64_specs::wrapping_mul(h ^ x, 0x100000001b3)
}

fn mix(h: u64, x: u64) -> (r: u64)
    ensures
        r == spec_mix(h, x),
{
    (h ^ x).wrapping_mul(0x100000001b3)
}

/// The tag state after folding a sequence of characters into `h`.
pub open spec fn spec_hash_chars(h: u64, s: Seq<char>) -> u64
    decreases s.len(),
{
    if s.len() == 0 {
        h
    } else {
        spec_mix(spec_hash_chars(h, s.drop_last()), s.last() as u64)
    }
}

fn hash_str(h0: u64, s: &str) -> (r: u64)
    ensures
        r == spec_hash_chars(h0, s@),
{
    let n = s.unicode_len();
    let mut h = h0;
    let mut i: usize = 0;
    while i < n
        invariant
            i <= n,
            n == s@.len(),
            h == spec_hash_chars(h0, s@.subrange(0, i as int)),
        decreases n - i,
    {
        proof {
            assert(s@.subrange(0, i + 1).drop_last() =~= s@.subrange(0, i as int));
        }
        let c = s.get_char(i);
        h = mix(h, c as u64);
        i += 1;
    }
    proof {
        assert(s@.subrange(0, n as int) =~= s@);
    }
    h
}

/// The tag binding a signing secret, an expiry, and a subject.
pub open spec fn spec_token_tag(secret: Seq<char>, expiry: u64, subject: Seq<char>) -> u64 {
    spec_hash_chars(spec_mix(spec_hash_chars(0xcbf29ce484222325, secret), expiry), subject)
}

fn token_tag(secret: &str, expiry: u64, subject: &str) -> (r: u64)
    ensures
        r == spec_token_tag(secret@, expiry, subject@),
{
    let h1 = hash_str(0xcbf29ce484222325, secret);
    let h2 = mix(h1, expiry);
    hash_str(h2, subject)
}

/// The character form of the token issued for `subject` with expiry `expiry`.
pub open spec fn token_chars(secret: Seq<char>, subject: Seq<char>, expiry: u64) -> Seq<char> {
    dec_seq(spec_token_tag(secret, expiry, subject) as nat, 20) + dec_seq(expiry as nat, 20)
        + subject
}

pub open spec fn token_subject(token: Seq<char>) -> Seq<char> {
    token.subrange(40, token.len() as int)
}

pub open spec fn token_expiry_val(token: Seq<char>) -> int {
    dec_value(token.subrange(20, 40))
}

pub open spec fn token_tag_val(token: Seq<char>) -> int {
    dec_value(token.subrange(0, 20))
}

/// A token whose shape is right and whose tag matches its contents under
/// the given secret.
pub open spec fn well_signed(secret: Seq<char>, token: Seq<char>) -> bool {
    &&& token.len() >= 40
    &&& all_digits(token.subrange(0, 40))
    &&& token_expiry_val(token) <= u64::MAX
    &&& token_tag_val(token) == spec_token_tag(
        secret,
        token_expiry_val(token) as u64,
        token_subject(token),
    )
    &&& valid_email(token_subject(token))
}

/// The subject a token certifies at instant `now`, if any: the token must be
/// well signed, not yet expired, and not revoked.
pub open spec fn token_validity(
    secret: Seq<char>,
    banned: Set<Seq<char>>,
    now: u64,
    token: Seq<char>,
) -> Option<Seq<char>> {
    if well_signed(secret, token) && now < token_expiry_val(token) && !banned.contains(token) {
        Some(token_subject(token))
    } else {
        None
    }
}

/// Mints the token for `email` that expires `TOKEN_TTL_SECONDS` from `now`.
pub fn generate_auth_token(secret: &str, email: &Email, now: u64) -> (r: String)
    requires
        now + TOKEN_TTL_SECONDS <= u64::MAX,
    ensures
        r@ == token_chars(secret@, email@, (now + TOKEN_TTL_SECONDS) as u64),
{
    let expiry = now + TOKEN_TTL_SECONDS;
    let tag = token_tag(secret, expiry, email.as_ref());
    let mut token = dec_encode(tag, 20);
    let expiry_part = dec_encode(expiry, 20);
    token.append(expiry_part.as_str());
    token.append(email.as_ref());
    proof {
        assert(token@ =~= token_chars(secret@, email@, expiry));
    }
    token
}

/// The seconds a token has left before its expiry instant, read from its
/// expiry digits; `None` for a token without a readable future expiry.
/// A revocation entry only needs to outlive this window.
pub fn token_remaining_validity(token: &str, now: u64) -> (r: Option<u64>)
    ensures
        r matches Some(secs) ==> token@.len() >= 40 && now < token_expiry_val(token@) && secs
            == token_expiry_val(token@) - now,
        r is None ==> token@.len() < 40 || !all_digits(token@.subrange(20, 40))
            || token_expiry_val(token@) > u64::MAX || token_expiry_val(token@) <= now,
{
    let n = token.unicode_len();
    if n < 40 {
        return None;
    }
    let expiry_part = token.substring_char(20, 40);
    let expiry = match dec_decode(expiry_part) {
        Some(v) => v,
        None => {
            return None;
        },
    };
    if expiry <= now {
        return None;
    }
    Some(expiry - now)
}

/// Checks a token at instant `now`: signature and expiry first, then the
/// revoked-token store. Returns the subject email on success; `InvalidToken`
/// exactly when the token certifies nothing; `UnexpectedError` only when the
/// store probe itself failed.
pub fn validate_token<B: BannedTokenStore>(
    secret: &str,
    banned_token_store: &B,
    token: &str,
    now: u64,
) -> (r: Result<Email, AuthAPIError>)
    ensures
        r matches Ok(e) ==> token_validity(secret@, banned_token_store.tokens(), now, token@)
            == Some(e@),
        r == Err::<Email, AuthAPIError>(AuthAPIError::InvalidToken) ==> token_validity(
            secret@,
            banned_token_store.tokens(),
            now,
            token@,
        ) is None,
        r is Ok || r == Err::<Email, AuthAPIError>(AuthAPIError::InvalidToken) || r == Err::<
            Email,
            AuthAPIError,
        >(AuthAPIError::UnexpectedError),
        !well_signed(secret@, token@) || token_expiry_val(token@) <= now ==> r == Err::<
            Email,
            AuthAPIError,
        >(AuthAPIError::InvalidToken),
        well_signed(secret@, token@) && now < token_expiry_val(token@)
            && !banned_token_store.tokens().contains(token@) ==> (r is Ok || r == Err::<
            Email,
            AuthAPIError,
        >(AuthAPIError::UnexpectedError)),
{
    let n = token.unicode_len();
    if n < 40 {
        return Err(AuthAPIError::InvalidToken);
    }
    let tag_part = token.substring_char(0, 20);
    let expiry_part = token.substring_char(20, 40);
    let subject = token.substring_char(40, n);
    let tag = match dec_decode(tag_part) {
        Some(v) => v,
        None => {
            proof {
                lemma_forty_digit_split(token@);
            }
            return Err(AuthAPIError::InvalidToken);
        },
    };
    let expiry = match dec_decode(expiry_part) {
        Some(v) => v,
        None => {
            proof {
                lemma_forty_digit_split(token@);
            }
            return Err(AuthAPIError::InvalidToken);
        },
    };
    let expected = token_tag(secret, expiry, subject);
    if tag != expected {
        return Err(AuthAPIError::InvalidToken);
    }
    let email = match Email::parse(String::from_str(subject)) {
        Ok(e) => e,
        Err(_) => {
            return Err(AuthAPIError::InvalidToken);
        },
    };
    if expiry <= now {
        return Err(AuthAPIError::InvalidToken);
    }
    proof {
        lemma_forty_digit_split(token@);
        assert(well_signed(secret@, token@));
        assert(now < token_expiry_val(token@));
    }
    match banned_token_store.contains_token(token) {
        Ok(true) => Err(AuthAPIError::InvalidToken),
        Ok(false) => Ok(email),
        Err(_) => Err(AuthAPIError::UnexpectedError),
    }
}

/// The first 40 characters are digits exactly when the tag part and the
/// expiry part each consist of digits.
proof fn lemma_forty_digit_split(token: Seq<char>)
    requires
        token.len() >= 40,
    ensures
        all_digits(token.subrange(0, 40)) <==> (all_digits(token.subrange(0, 20)) && all_digits(
            token.subrange(20, 40),
        )),
{
    let whole = token.subrange(0, 40);
    let a = token.subrange(0, 20);
    let b = token.subrange(20, 40);
    if all_digits(whole) {
        assert forall|i: int| 0 <= i < 20 implies is_digit(a[i]) by {
            assert(a[i] == whole[i]);
        }
        assert forall|i: int| 0 <= i < 20 implies is_digit(b[i]) by {
            assert(b[i] == whole[i + 20]);
        }
    }
    if all_digits(a) && all_digits(b) {
        assert forall|i: int| 0 <= i < 40 implies is_digit(whole[i]) by {
            if i < 20 {
                assert(whole[i] == a[i]);
            } else {
                assert(whole[i] == b[i - 20]);
            }
        }
    }
}

/// A token minted at `now_issue` certifies its email at any `now_check`
/// inside the validity window, as long as it has not been revoked.
pub proof fn lemma_issued_token_valid(
    secret: Seq<char>,
    email: Seq<char>,
    banned: Set<Seq<char>>,
    now_issue: u64,
    now_check: u64,
)
    requires
        valid_email(email),
        now_issue + TOKEN_TTL_SECONDS <= u64::MAX,
        now_check < now_issue + TOKEN_TTL_SECONDS,
        !banned.contains(token_chars(secret, email, (now_issue + TOKEN_TTL_SECONDS) as u64)),
    ensures
        token_validity(
            secret,
            banned,
            now_check,
            token_chars(secret, email, (now_issue + TOKEN_TTL_SECONDS) as u64),
        ) == Some(email),
{
    let expiry = (now_issue + TOKEN_TTL_SECONDS) as u64;
    let tag = spec_token_tag(secret, expiry, email);
    let t = token_chars(secret, email, expiry);
    assert(pow10(20) == 100000000000000000000) by {
        reveal_with_fuel(pow10, 21);
    }
    lemma_dec_seq_value(tag as nat, 20);
    lemma_dec_seq_value(expiry as nat, 20);
    assert(t.subrange(0, 20) =~= dec_seq(tag as nat, 20));
    assert(t.subrange(20, 40) =~= dec_seq(expiry as nat, 20));
    assert(t.subrange(40, t.len() as int) =~= email);
    lemma_forty_digit_split(t);
}

/// Revoking a token makes it certify nothing, and changes nothing for any
/// other token.
pub proof fn lemma_revoked_token_invalid(
    secret: Seq<char>,
    banned: Set<Seq<char>>,
    now: u64,
    token: Seq<char>,
    other: Seq<char>,
)
    requires
        other != token,
    ensures
        token_validity(secret, banned.insert(token), now, token) is None,
        token_validity(secret, banned.insert(token), now, other) == token_validity(
            secret,
            banned,
            now,
            other,
        ),
{
}

} // verus!

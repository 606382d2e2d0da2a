//! The computable part of the TTL key-value challenge backend: how an email
//! is mapped to its key, and how the challenge pair is written to and read
//! back from one stored string. The backend itself talks to the key-value
//! server and lives with the application shell.

use vstd::prelude::*;
use vstd::string::StrSliceExecFns;
use vstd::string::StringExecFns;

use crate::domain::data_stores::{LoginAttemptId, TwoFACode};
use crate::domain::email::Email;

verus! {

/// How long a stored challenge stays readable.
pub const TEN_MINUTES_IN_SECONDS: u64 = 600;

/// The key under which an email's challenge is stored: a store-specific
/// prefix to keep this entry family apart from others in the same keyspace.
pub fn get_key(email: &Email) -> (r: String)
    ensures
        r@ == "two_fa_code:"@ + email@,
{
    let mut key = String::from_str("two_fa_code:");
    key.append(email.as_ref());
    key
}

/// The serialized form of a pending challenge: a two-element array of
/// strings.
pub open spec fn two_fa_tuple_chars(login_attempt_id: Seq<char>, code: Seq<char>) -> Seq<char> {
    seq!['[', '"'] + login_attempt_id + seq!['"', ',', '"'] + code + seq!['"', ']']
}

/// The position of the first `"` at or after `from`, or the length if
/// there is none.
pub open spec fn find_quote(s: Seq<char>, from: int) -> int
    decreases s.len() - from when 0 <= from <= s.len()
{
    if from >= s.len() {
        s.len() as int
    } else if s[from] == '"' {
        from
    } else {
        find_quote(s, from + 1)
    }
}

/// The challenge pair a stored string denotes, if it has the serialized
/// shape; the parts themselves are free of `"`.
pub open spec fn parse_two_fa_tuple(s: Seq<char>) -> Option<(Seq<char>, Seq<char>)> {
    let n = s.len() as int;
    if n < 6 || s[0] != '[' || s[1] != '"' {
        None
    } else {
        let p = find_quote(s, 2);
        if p + 2 >= n || s[p + 1] != ',' || s[p + 2] != '"' {
            None
        } else {
            let q = find_quote(s, p + 3);
            if q != n - 2 || s[n - 1] != ']' {
                None
            } else {
                Some((s.subrange(2, p), s.subrange(p + 3, q)))
            }
        }
    }
}

pub fn serialize_two_fa_tuple(login_attempt_id: &LoginAttemptId, code: &TwoFACode) -> (r: String)
    ensures
        r@ == two_fa_tuple_chars(login_attempt_id@, code@),
{
    let mut s = String::from_str("[\"");
    s.append(login_attempt_id.as_ref());
    s.append("\",\"");
    s.append(code.as_ref());
    s.append("\"]");
    proof {
        reveal_strlit("[\"");
        reveal_strlit("\",\"");
        reveal_strlit("\"]");
        assert(s@ =~= two_fa_tuple_chars(login_attempt_id@, code@));
    }
    s
}

fn find_quote_exec(s: &str, from: usize) -> (r: usize)
    requires
        from <= s@.len(),
    ensures
        r == find_quote(s@, from as int),
{
    let n = s.unicode_len();
    let mut i: usize = from;
    while i < n
        invariant
            from <= i <= n,
            n == s@.len(),
            find_quote(s@, from as int) == find_quote(s@, i as int),
        decreases n - i,
    {
        if s.get_char(i) == '"' {
            return i;
        }
        i += 1;
    }
    i
}

pub fn deserialize_two_fa_tuple(s: &str) -> (r: Option<(String, String)>)
    ensures
        match r {
            Some(pair) => parse_two_fa_tuple(s@) == Some((pair.0@, pair.1@)),
            None => parse_two_fa_tuple(s@) is None,
        },
{
    let n = s.unicode_len();
    if n < 6 {
        return None;
    }
    if s.get_char(0) != '[' || s.get_char(1) != '"' {
        return None;
    }
    let p = find_quote_exec(s, 2);
    proof {
        lemma_find_quote_bounds(s@, 2);
    }
    if p >= n - 2 {
        return None;
    }
    if s.get_char(p + 1) != ',' || s.get_char(p + 2) != '"' {
        return None;
    }
    let q = find_quote_exec(s, p + 3);
    proof {
        lemma_find_quote_bounds(s@, p + 3);
    }
    if q != n - 2 {
        return None;
    }
    if s.get_char(n - 1) != ']' {
        return None;
    }
    let login_attempt_id = String::from_str(s.substring_char(2, p));
    let code = String::from_str(s.substring_char(p + 3, q));
    Some((login_attempt_id, code))
}

proof fn lemma_find_quote_bounds(s: Seq<char>, from: int)
    requires
        0 <= from <= s.len(),
    ensures
        from <= find_quote(s, from) <= s.len(),
    decreases s.len() - from,
{
    if from < s.len() && s[from] != '"' {
        lemma_find_quote_bounds(s, from + 1);
    }
}

proof fn lemma_find_quote_first(s: Seq<char>, from: int, k: int)
    requires
        0 <= from <= k < s.len(),
        s[k] == '"',
        forall|i: int| from <= i < k ==> s[i] != '"',
    ensures
        find_quote(s, from) == k,
    decreases k - from,
{
    if from < k {
        lemma_find_quote_first(s, from + 1, k);
    }
}

/// Serialization round-trips through parsing for parts free of `"`.
pub proof fn lemma_two_fa_tuple_round_trip(login_attempt_id: Seq<char>, code: Seq<char>)
    requires
        !login_attempt_id.contains('"'),
        !code.contains('"'),
    ensures
        parse_two_fa_tuple(two_fa_tuple_chars(login_attempt_id, code)) == Some(
            (login_attempt_id, code),
        ),
{
    let t = two_fa_tuple_chars(login_attempt_id, code);
    let m = login_attempt_id.len() as int;
    let n = t.len() as int;
    assert(n == 7 + m + code.len());
    assert(t[0] == '[');
    assert(t[1] == '"');
    assert forall|i: int| 2 <= i < 2 + m implies t[i] != '"' by {
        assert(t[i] == login_attempt_id[i - 2]);
        assert(!login_attempt_id.contains('"'));
    }
    assert(t[2 + m] == '"');
    lemma_find_quote_first(t, 2, 2 + m);
    let p = 2 + m;
    assert(t[p + 1] == ',');
    assert(t[p + 2] == '"');
    assert forall|i: int| p + 3 <= i < n - 2 implies t[i] != '"' by {
        assert(t[i] == code[i - (p + 3)]);
        assert(!code.contains('"'));
    }
    assert(t[n - 2] == '"');
    lemma_find_quote_first(t, p + 3, n - 2);
    assert(t[n - 1] == ']');
    assert(t.subrange(2, p) =~= login_attempt_id);
    assert(t.subrange(p + 3, n - 2) =~= code);
}

} // verus!

use vstd::prelude::*;

use crate::domain::data_stores::{LoginAttemptId, TwoFACode, TwoFACodeStore, TwoFACodeStoreError};
use crate::domain::email::Email;

verus! {

/// The challenge map a sequence of entries denotes; a later entry for the
/// same email shadows an earlier one.
pub open spec fn codes_map(s: Seq<(Email, (LoginAttemptId, TwoFACode))>) -> Map<
    Seq<char>,
    (Seq<char>, Seq<char>),
>
    decreases s.len(),
{
    if s.len() == 0 {
        Map::empty()
    } else {
        codes_map(s.drop_last()).insert(s.last().0@, (s.last().1.0@, s.last().1.1@))
    }
}

proof fn lemma_codes_map_dom(s: Seq<(Email, (LoginAttemptId, TwoFACode))>)
    ensures
        forall|k: Seq<char>| #[trigger]
            codes_map(s).contains_key(k) <==> exists|i: int| 0 <= i < s.len() && s[i].0@ == k,
    decreases s.len(),
{
    if s.len() > 0 {
        lemma_codes_map_dom(s.drop_last());
        assert forall|k: Seq<char>| #[trigger]
            codes_map(s).contains_key(k) implies exists|i: int|
            0 <= i < s.len() && s[i].0@ == k by {
            if k == s.last().0@ {
                assert(s[s.len() - 1].0@ == k);
            } else {
                assert(codes_map(s.drop_last()).contains_key(k));
                let i = choose|i: int| 0 <= i < s.drop_last().len() && s.drop_last()[i].0@ == k;
                assert(s[i].0@ == k);
            }
        }
        assert forall|k: Seq<char>|
            (exists|i: int| 0 <= i < s.len() && s[i].0@ == k) implies #[trigger]
            codes_map(s).contains_key(k) by {
            let i = choose|i: int| 0 <= i < s.len() && s[i].0@ == k;
            if i < s.len() - 1 {
                assert(s.drop_last()[i].0@ == k);
                assert(codes_map(s.drop_last()).contains_key(k));
            }
        }
    }
}

proof fn lemma_codes_map_last_match(s: Seq<(Email, (LoginAttemptId, TwoFACode))>, i: int)
    requires
        0 <= i < s.len(),
        forall|j: int| i < j < s.len() ==> s[j].0@ != s[i].0@,
    ensures
        codes_map(s).contains_key(s[i].0@),
        codes_map(s)[s[i].0@] == (s[i].1.0@, s[i].1.1@),
    decreases s.len(),
{
    if i < s.len() - 1 {
        assert(forall|j: int|
            i < j < s.drop_last().len() ==> s.drop_last()[j].0@ != s.drop_last()[i].0@);
        lemma_codes_map_last_match(s.drop_last(), i);
        assert(s[s.len() - 1].0@ != s[i].0@);
    }
}

/// An in-memory challenge store backed by a growable list of entries;
/// entries never expire, which is acceptable when the process lifetime
/// bounds how long the store is kept.
pub struct HashmapTwoFACodeStore {
    codes: Vec<(Email, (LoginAttemptId, TwoFACode))>,
}

impl HashmapTwoFACodeStore {
    pub fn new() -> (r: Self)
        ensures
            r.codes() == Map::<Seq<char>, (Seq<char>, Seq<char>)>::empty(),
    {
        HashmapTwoFACodeStore { codes: Vec::new() }
    }
}

impl Default for HashmapTwoFACodeStore {
    fn default() -> (r: Self)
        ensures
            r.codes() == Map::<Seq<char>, (Seq<char>, Seq<char>)>::empty(),
    {
        HashmapTwoFACodeStore::new()
    }
}

impl TwoFACodeStore for HashmapTwoFACodeStore {
    closed spec fn codes(&self) -> Map<Seq<char>, (Seq<char>, Seq<char>)> {
        codes_map(self.codes@)
    }

    fn add_code(&mut self, email: Email, login_attempt_id: LoginAttemptId, code: TwoFACode) -> (r:
        Result<(), TwoFACodeStoreError>)
        ensures
            r is Ok,
    {
        let removed = self.remove_code(&email);
        proof {
            assert(removed is Ok);
        }
        let ghost mid = self.codes@;
        self.codes.push((email, (login_attempt_id, code)));
        proof {
            assert(self.codes@.drop_last() =~= mid);
            assert(codes_map(self.codes@) =~= old(self).codes().insert(
                email@,
                (login_attempt_id@, code@),
            ));
        }
        Ok(())
    }

    fn remove_code(&mut self, email: &Email) -> (r: Result<(), TwoFACodeStoreError>)
        ensures
            r is Ok,
    {
        let n = self.codes.len();
        let mut kept: Vec<(Email, (LoginAttemptId, TwoFACode))> = Vec::new();
        let mut i: usize = 0;
        while i < n
            invariant
                *self == *old(self),
                i <= n,
                n == self.codes@.len(),
                codes_map(kept@) == codes_map(self.codes@.subrange(0, i as int)).remove(email@),
            decreases n - i,
        {
            proof {
                assert(self.codes@.subrange(0, i + 1).drop_last() =~= self.codes@.subrange(
                    0,
                    i as int,
                ));
            }
            let same = self.codes[i].0 == *email;
            if !same {
                let ghost kept0 = kept@;
                let entry = &self.codes[i];
                kept.push((entry.0.clone(), (entry.1.0.clone(), entry.1.1.clone())));
                proof {
                    assert(kept@.drop_last() =~= kept0);
                    assert(codes_map(kept@) =~= codes_map(
                        self.codes@.subrange(0, i + 1),
                    ).remove(email@));
                }
            } else {
                proof {
                    assert(codes_map(kept@) =~= codes_map(
                        self.codes@.subrange(0, i + 1),
                    ).remove(email@));
                }
            }
            i += 1;
        }
        proof {
            assert(self.codes@.subrange(0, n as int) =~= self.codes@);
        }
        self.codes = kept;
        Ok(())
    }

    fn get_code(&self, email: &Email) -> (r: Result<
        (LoginAttemptId, TwoFACode),
        TwoFACodeStoreError,
    >)
        ensures
            self.codes().contains_key(email@) ==> r is Ok,
            !self.codes().contains_key(email@) ==> r == Err::<
                (LoginAttemptId, TwoFACode),
                TwoFACodeStoreError,
            >(TwoFACodeStoreError::LoginAttemptIdNotFound),
    {
        let n = self.codes.len();
        let mut i: usize = n;
        while i > 0
            invariant
                i <= n,
                n == self.codes@.len(),
                forall|j: int| i <= j < n ==> self.codes@[j].0@ != email@,
            decreases i,
        {
            i -= 1;
            if self.codes[i].0 == *email {
                proof {
                    lemma_codes_map_last_match(self.codes@, i as int);
                }
                let entry = &self.codes[i];
                return Ok((entry.1.0.clone(), entry.1.1.clone()));
            }
        }
        proof {
            lemma_codes_map_dom(self.codes@);
        }
        Err(TwoFACodeStoreError::LoginAttemptIdNotFound)
    }
}

} // verus!

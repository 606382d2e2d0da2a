use vstd::prelude::*;

use crate::domain::data_stores::{BannedTokenStore, BannedTokenStoreError};
use crate::utils::strings::str_eq;

verus! {

/// The set of token texts a sequence of tokens denotes.
pub open spec fn tokens_set(s: Seq<String>) -> Set<Seq<char>>
    decreases s.len(),
{
    if s.len() == 0 {
        Set::empty()
    } else {
        tokens_set(s.drop_last()).insert(s.last()@)
    }
}

proof fn lemma_tokens_set_elems(s: Seq<String>)
    ensures
        forall|t: Seq<char>| #[trigger]
            tokens_set(s).contains(t) <==> exists|i: int| 0 <= i < s.len() && s[i]@ == t,
    decreases s.len(),
{
    if s.len() > 0 {
        lemma_tokens_set_elems(s.drop_last());
        assert forall|t: Seq<char>| #[trigger]
            tokens_set(s).contains(t) implies exists|i: int| 0 <= i < s.len() && s[i]@ == t by {
            if t == s.last()@ {
                assert(s[s.len() - 1]@ == t);
            } else {
                assert(tokens_set(s.drop_last()).contains(t));
                let i = choose|i: int| 0 <= i < s.drop_last().len() && s.drop_last()[i]@ == t;
                assert(s[i]@ == t);
            }
        }
        assert forall|t: Seq<char>|
            (exists|i: int| 0 <= i < s.len() && s[i]@ == t) implies #[trigger]
            tokens_set(s).contains(t) by {
            let i = choose|i: int| 0 <= i < s.len() && s[i]@ == t;
            if i < s.len() - 1 {
                assert(s.drop_last()[i]@ == t);
                assert(tokens_set(s.drop_last()).contains(t));
            }
        }
    }
}

/// An in-memory revoked-token store backed by a growable list; entries
/// never expire, which is acceptable when the process lifetime bounds
/// how long the store is kept.
pub struct HashsetBannedTokenStore {
    banned_tokens: Vec<String>,
}

impl HashsetBannedTokenStore {
    pub fn new() -> (r: Self)
        ensures
            r.tokens() == Set::<Seq<char>>::empty(),
    {
        HashsetBannedTokenStore { banned_tokens: Vec::new() }
    }
}

impl Default for HashsetBannedTokenStore {
    fn default() -> (r: Self)
        ensures
            r.tokens() == Set::<Seq<char>>::empty(),
    {
        HashsetBannedTokenStore::new()
    }
}

impl BannedTokenStore for HashsetBannedTokenStore {
    closed spec fn tokens(&self) -> Set<Seq<char>> {
        tokens_set(self.banned_tokens@)
    }

    fn add_token(&mut self, token: String) -> (r: Result<(), BannedTokenStoreError>)
        ensures
            r is Ok,
    {
        let n = self.banned_tokens.len();
        let mut i: usize = 0;
        while i < n
            invariant
                *self == *old(self),
                i <= n,
                n == self.banned_tokens@.len(),
                forall|j: int| 0 <= j < i ==> self.banned_tokens@[j]@ != token@,
            decreases n - i,
        {
            if str_eq(self.banned_tokens[i].as_str(), token.as_str()) {
                proof {
                    lemma_tokens_set_elems(self.banned_tokens@);
                    assert(self.tokens().insert(token@) =~= self.tokens());
                }
                return Ok(());
            }
            i += 1;
        }
        self.banned_tokens.push(token);
        proof {
            assert(self.banned_tokens@.drop_last() =~= old(self).banned_tokens@);
        }
        Ok(())
    }

    fn contains_token(&self, token: &str) -> (r: Result<bool, BannedTokenStoreError>)
        ensures
            r is Ok,
    {
        let n = self.banned_tokens.len();
        let mut i: usize = 0;
        while i < n
            invariant
                i <= n,
                n == self.banned_tokens@.len(),
                forall|j: int| 0 <= j < i ==> self.banned_tokens@[j]@ != token@,
            decreases n - i,
        {
            if str_eq(self.banned_tokens[i].as_str(), token) {
                proof {
                    lemma_tokens_set_elems(self.banned_tokens@);
                }
                return Ok(true);
            }
            i += 1;
        }
        proof {
            lemma_tokens_set_elems(self.banned_tokens@);
        }
        Ok(false)
    }
}

} // verus!

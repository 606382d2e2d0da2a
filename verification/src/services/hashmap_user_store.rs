use vstd::prelude::*;

use crate::domain::data_stores::{UserStore, UserStoreError};
use crate::domain::email::Email;
use crate::domain::password::Password;
use crate::domain::user::{User, UserV};

verus! {

/// The record map a sequence of users denotes; a later entry for the same
/// email shadows an earlier one.
pub open spec fn users_map(s: Seq<User>) -> Map<Seq<char>, UserV>
    decreases s.len(),
{
    if s.len() == 0 {
        Map::empty()
    } else {
        users_map(s.drop_last()).insert(s.last().email@, s.last()@)
    }
}

proof fn lemma_users_map_dom(s: Seq<User>)
    ensures
        forall|k: Seq<char>| #[trigger]
            users_map(s).contains_key(k) <==> exists|i: int| 0 <= i < s.len() && s[i].email@ == k,
    decreases s.len(),
{
    if s.len() > 0 {
        lemma_users_map_dom(s.drop_last());
        assert forall|k: Seq<char>| #[trigger]
            users_map(s).contains_key(k) implies exists|i: int|
            0 <= i < s.len() && s[i].email@ == k by {
            if k == s.last().email@ {
                assert(s[s.len() - 1].email@ == k);
            } else {
                assert(users_map(s.drop_last()).contains_key(k));
                let i = choose|i: int|
                    0 <= i < s.drop_last().len() && s.drop_last()[i].email@ == k;
                assert(s[i].email@ == k);
            }
        }
        assert forall|k: Seq<char>|
            (exists|i: int| 0 <= i < s.len() && s[i].email@ == k) implies #[trigger]
            users_map(s).contains_key(k) by {
            let i = choose|i: int| 0 <= i < s.len() && s[i].email@ == k;
            if i < s.len() - 1 {
                assert(s.drop_last()[i].email@ == k);
                assert(users_map(s.drop_last()).contains_key(k));
            }
        }
    }
}

proof fn lemma_users_map_last_match(s: Seq<User>, i: int)
    requires
        0 <= i < s.len(),
        forall|j: int| i < j < s.len() ==> s[j].email@ != s[i].email@,
    ensures
        users_map(s).contains_key(s[i].email@),
        users_map(s)[s[i].email@] == s[i]@,
    decreases s.len(),
{
    if i < s.len() - 1 {
        assert(forall|j: int|
            i < j < s.drop_last().len() ==> s.drop_last()[j].email@ != s.drop_last()[i].email@);
        lemma_users_map_last_match(s.drop_last(), i);
        assert(s[s.len() - 1].email@ != s[i].email@);
    }
}

/// An in-memory user store backed by a growable list of records.
pub struct HashmapUserStore {
    users: Vec<User>,
}

impl HashmapUserStore {
    pub fn new() -> (r: Self)
        ensures
            r.users() == Map::<Seq<char>, UserV>::empty(),
    {
        HashmapUserStore { users: Vec::new() }
    }
}

impl Default for HashmapUserStore {
    fn default() -> (r: Self)
        ensures
            r.users() == Map::<Seq<char>, UserV>::empty(),
    {
        HashmapUserStore::new()
    }
}

impl UserStore for HashmapUserStore {
    closed spec fn users(&self) -> Map<Seq<char>, UserV> {
        users_map(self.users@)
    }

    fn add_user(&mut self, user: User) -> (r: Result<(), UserStoreError>)
        ensures
            old(self).users().contains_key(user.email@) ==> r == Err::<(), UserStoreError>(
                UserStoreError::UserAlreadyExists,
            ),
            !old(self).users().contains_key(user.email@) ==> r is Ok,
    {
        let n = self.users.len();
        let mut i: usize = 0;
        while i < n
            invariant
                *self == *old(self),
                i <= n,
                n == self.users@.len(),
                forall|j: int| 0 <= j < i ==> self.users@[j].email@ != user.email@,
            decreases n - i,
        {
            if self.users[i].email == user.email {
                proof {
                    lemma_users_map_dom(self.users@);
                }
                return Err(UserStoreError::UserAlreadyExists);
            }
            i += 1;
        }
        proof {
            lemma_users_map_dom(self.users@);
        }
        self.users.push(user);
        proof {
            assert(self.users@.drop_last() =~= old(self).users@);
        }
        Ok(())
    }

    fn get_user(&self, email: &Email) -> (r: Result<User, UserStoreError>)
        ensures
            self.users().contains_key(email@) ==> r is Ok,
            !self.users().contains_key(email@) ==> r == Err::<User, UserStoreError>(
                UserStoreError::UserNotFound,
            ),
    {
        let n = self.users.len();
        let mut i: usize = n;
        while i > 0
            invariant
                i <= n,
                n == self.users@.len(),
                forall|j: int| i <= j < n ==> self.users@[j].email@ != email@,
            decreases i,
        {
            i -= 1;
            if self.users[i].email == *email {
                proof {
                    lemma_users_map_last_match(self.users@, i as int);
                }
                return Ok(self.users[i].clone());
            }
        }
        proof {
            lemma_users_map_dom(self.users@);
        }
        Err(UserStoreError::UserNotFound)
    }

    fn validate_user(&self, email: &Email, password: &Password) -> (r: Result<(), UserStoreError>)
        ensures
            self.users().contains_key(email@) && self.users()[email@].password == password@ ==> r
                is Ok,
            self.users().contains_key(email@) && self.users()[email@].password != password@ ==> r
                == Err::<(), UserStoreError>(UserStoreError::InvalidCredentials),
            !self.users().contains_key(email@) ==> r == Err::<(), UserStoreError>(
                UserStoreError::UserNotFound,
            ),
    {
        match self.get_user(email) {
            Ok(user) => {
                if user.password == *password {
                    Ok(())
                } else {
                    Err(UserStoreError::InvalidCredentials)
                }
            },
            Err(_) => Err(UserStoreError::UserNotFound),
        }
    }
}

} // verus!

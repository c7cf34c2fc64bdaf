//! The in-memory reference implementation of the user record store.
use vstd::prelude::*;

use crate::data_stores::UserModel;
use crate::data_stores::UserStore;
use crate::data_stores::UserStoreError;
use crate::email::Email;
use crate::password::Password;
use crate::user::User;

verus! {

/// The map a sequence of user records stands for, keyed by email; a later
/// record wins, though the store never keeps two records for one email.
pub open spec fn user_map(s: Seq<User>) -> Map<Seq<char>, UserModel>
    decreases s.len(),
{
    if s.len() == 0 {
        Map::empty()
    } else {
        user_map(s.drop_last()).insert(s.last().email@, s.last().model())
    }
}

/// No two records in the sequence share an email.
pub open spec fn unique_emails(s: Seq<User>) -> bool {
    forall|i: int, j: int|
        0 <= i < j < s.len() ==> (#[trigger] s[i]).email@ != (#[trigger] s[j]).email@
}

/// The map holds a key exactly when some record carries it.
proof fn lemma_user_map_contains(s: Seq<User>, k: Seq<char>)
    ensures
        user_map(s).contains_key(k) <==> (exists|i: int| 0 <= i < s.len() && (#[trigger] s[i]).email@ == k),
    decreases s.len(),
{
    if s.len() > 0 {
        lemma_user_map_contains(s.drop_last(), k);
        if s.last().email@ == k {
            assert(s[s.len() - 1].email@ == k);
        } else {
            if exists|i: int| 0 <= i < s.len() - 1 && (#[trigger] s.drop_last()[i]).email@ == k {
                let i = choose|i: int|
                    0 <= i < s.len() - 1 && (#[trigger] s.drop_last()[i]).email@ == k;
                assert(s[i].email@ == k);
            }
            if exists|i: int| 0 <= i < s.len() && (#[trigger] s[i]).email@ == k {
                let i = choose|i: int| 0 <= i < s.len() && (#[trigger] s[i]).email@ == k;
                assert(s.drop_last()[i].email@ == k);
            }
        }
    }
}

/// With unique emails, the map sends each record's email to that record.
proof fn lemma_user_map_index(s: Seq<User>, i: int)
    requires
        unique_emails(s),
        0 <= i < s.len(),
    ensures
        user_map(s).contains_key(s[i].email@),
        user_map(s)[s[i].email@] == s[i].model(),
    decreases s.len(),
{
    if i == s.len() - 1 {
    } else {
        assert(unique_emails(s.drop_last())) by {
            assert(forall|x: int, y: int|
                0 <= x < y < s.len() - 1 ==> (#[trigger] s.drop_last()[x]).email@ != (
                #[trigger] s.drop_last()[y]).email@) by {
                assert(forall|x: int|
                    0 <= x < s.len() - 1 ==> (#[trigger] s.drop_last()[x]) == s[x]);
            }
        }
        lemma_user_map_index(s.drop_last(), i);
        assert(s.drop_last()[i] == s[i]);
        assert(s[i].email@ != s.last().email@);
    }
}

/// Appending a record updates the map at the record's email.
proof fn lemma_user_map_push(s: Seq<User>, u: User)
    ensures
        user_map(s.push(u)) == user_map(s).insert(u.email@, u.model()),
{
    assert(s.push(u).drop_last() =~= s);
    assert(s.push(u).last() == u);
}

/// The in-memory reference user store: a flat list of records with unique
/// emails, read by linear search.
pub struct HashmapUserStore {
    users: Vec<User>,
}

impl HashmapUserStore {
    /// The store never keeps two records for one email.
    #[verifier::type_invariant]
    spec fn inv(&self) -> bool {
        unique_emails(self.users@)
    }

    /// The position of the record for an email, if one is held.
    fn find_index(&self, email: &Email) -> (r: Option<usize>)
        ensures
            match r {
                Some(i) => i < self.users@.len() && self.users@[i as int].email@ == email@,
                None => forall|i: int|
                    0 <= i < self.users@.len() ==> (#[trigger] self.users@[i]).email@ != email@,
            },
    {
        let mut i: usize = 0;
        while i < self.users.len()
            invariant
                i <= self.users@.len(),
                forall|j: int| 0 <= j < i ==> (#[trigger] self.users@[j]).email@ != email@,
            decreases self.users@.len() - i,
        {
            if self.users[i].email == *email {
                return Some(i);
            }
            i = i + 1;
        }
        None
    }
}

impl Default for HashmapUserStore {
    /// An empty store.
    fn default() -> (r: Self)
        ensures
            r.users() == Map::<Seq<char>, UserModel>::empty(),
    {
        HashmapUserStore { users: Vec::new() }
    }
}

impl UserStore for HashmapUserStore {
    closed spec fn users(&self) -> Map<Seq<char>, UserModel> {
        user_map(self.users@)
    }

    /// Here, beyond the trait contract: this store has no infrastructure to
    /// fail, so adding succeeds exactly when the email is free.
    fn add_user(&mut self, user: User) -> (r: Result<(), UserStoreError>)
        ensures
            r is Ok <==> !old(self).users().contains_key(user.email@),
    {
        proof {
            use_type_invariant(&*self);
        }
        let ghost s0 = self.users@;
        match self.find_index(&user.email) {
            Some(i) => {
                proof {
                    lemma_user_map_contains(s0, user.email@);
                }
                Err(UserStoreError::UserAlreadyExists)
            },
            None => {
                proof {
                    lemma_user_map_contains(s0, user.email@);
                    lemma_user_map_push(s0, user);
                }
                let mut v: Vec<User> = Vec::new();
                core::mem::swap(&mut v, &mut self.users);
                v.push(user);
                self.users = v;
                Ok(())
            },
        }
    }

    /// Here, beyond the trait contract: the lookup succeeds exactly when
    /// the email is held, and this store keeps passwords as given, so the
    /// returned record carries the stored password.
    fn get_user(&self, email: &Email) -> (r: Result<User, UserStoreError>)
        ensures
            r is Ok <==> self.users().contains_key(email@),
            r matches Ok(u) ==> u.password@ == self.users()[email@].password,
    {
        proof {
            use_type_invariant(self);
        }
        match self.find_index(email) {
            Some(i) => {
                proof {
                    lemma_user_map_index(self.users@, i as int);
                }
                Ok(self.users[i].clone())
            },
            None => {
                proof {
                    lemma_user_map_contains(self.users@, email@);
                }
                Err(UserStoreError::UserNotFound)
            },
        }
    }

    /// Here, beyond the trait contract: every outcome is decided by the
    /// contents alone, so each result is an exact answer.
    fn validate_user(&self, email: &Email, password: &Password) -> (r: Result<
        (),
        UserStoreError,
    >)
        ensures
            r is Ok <==> self.users().contains_key(email@) && self.users()[email@].password
                == password@,
            r == Err::<(), UserStoreError>(UserStoreError::UserNotFound) <==> !self.users().contains_key(
                email@,
            ),
            r == Err::<(), UserStoreError>(UserStoreError::InvalidCredentials) <==> self.users().contains_key(
                email@,
            ) && self.users()[email@].password != password@,
    {
        proof {
            use_type_invariant(self);
        }
        match self.find_index(email) {
            Some(i) => {
                proof {
                    lemma_user_map_index(self.users@, i as int);
                }
                if self.users[i].password == *password {
                    Ok(())
                } else {
                    Err(UserStoreError::InvalidCredentials)
                }
            },
            None => {
                proof {
                    lemma_user_map_contains(self.users@, email@);
                }
                Err(UserStoreError::UserNotFound)
            },
        }
    }
}

} // verus!

//! The in-memory reference implementation of the pending-challenge store.
use vstd::prelude::*;

use crate::data_stores::TwoFACodeStore;
use crate::data_stores::TwoFACodeStoreError;
use crate::email::Email;
use crate::two_fa::LoginAttemptId;
use crate::two_fa::TwoFACode;

verus! {

/// One stored challenge: the key and the pair it maps to.
struct StoredChallenge {
    email: Email,
    attempt_id: LoginAttemptId,
    code: TwoFACode,
}

/// The pair a stored challenge stands for.
spec fn challenge_pair(c: StoredChallenge) -> (Seq<char>, Seq<char>) {
    (c.attempt_id@, c.code@)
}

/// The map a sequence of stored challenges stands for, keyed by email.
spec fn challenge_map(s: Seq<StoredChallenge>) -> Map<Seq<char>, (Seq<char>, Seq<char>)>
    decreases s.len(),
{
    if s.len() == 0 {
        Map::empty()
    } else {
        challenge_map(s.drop_last()).insert(s.last().email@, challenge_pair(s.last()))
    }
}

/// No two stored challenges share an email.
spec fn unique_challenge_emails(s: Seq<StoredChallenge>) -> bool {
    forall|i: int, j: int|
        0 <= i < j < s.len() ==> (#[trigger] s[i]).email@ != (#[trigger] s[j]).email@
}

/// The map holds a key exactly when some stored challenge carries it.
proof fn lemma_challenge_map_contains(s: Seq<StoredChallenge>, k: Seq<char>)
    ensures
        challenge_map(s).contains_key(k) <==> (exists|i: int|
            0 <= i < s.len() && (#[trigger] s[i]).email@ == k),
    decreases s.len(),
{
    if s.len() > 0 {
        lemma_challenge_map_contains(s.drop_last(), k);
        if s.last().email@ == k {
            assert(s[s.len() - 1].email@ == k);
        } else {
            if exists|i: int| 0 <= i < s.len() - 1 && (#[trigger] s.drop_last()[i]).email@ == k {
                let i = choose|i: int|
                    0 <= i < s.len() - 1 && (#[trigger] s.drop_last()[i]).email@ == k;
                assert(s[i].email@ == k);
            }
            if exists|i: int| 0 <= i < s.len() && (#[trigger] s[i]).email@ == k {
                let i = choose|i: int| 0 <= i < s.len() && (#[trigger] s[i]).email@ == k;
                assert(s.drop_last()[i].email@ == k);
            }
        }
    }
}

/// With unique emails, the map sends each entry's email to its pair.
proof fn lemma_challenge_map_index(s: Seq<StoredChallenge>, i: int)
    requires
        unique_challenge_emails(s),
        0 <= i < s.len(),
    ensures
        challenge_map(s).contains_key(s[i].email@),
        challenge_map(s)[s[i].email@] == challenge_pair(s[i]),
    decreases s.len(),
{
    if i < s.len() - 1 {
        assert(forall|x: int| 0 <= x < s.len() - 1 ==> (#[trigger] s.drop_last()[x]) == s[x]);
        lemma_challenge_map_index(s.drop_last(), i);
        assert(s[i].email@ != s.last().email@);
    }
}

/// Appending an entry updates the map at the entry's email.
proof fn lemma_challenge_map_push(s: Seq<StoredChallenge>, c: StoredChallenge)
    ensures
        challenge_map(s.push(c)) == challenge_map(s).insert(c.email@, challenge_pair(c)),
{
    assert(s.push(c).drop_last() =~= s);
    assert(s.push(c).last() == c);
}

/// With unique emails, deleting the entry at a position deletes its email
/// from the map.
proof fn lemma_challenge_map_remove(s: Seq<StoredChallenge>, i: int)
    requires
        unique_challenge_emails(s),
        0 <= i < s.len(),
    ensures
        challenge_map(s.remove(i)) == challenge_map(s).remove(s[i].email@),
    decreases s.len(),
{
    let k = s[i].email@;
    assert(forall|x: int| 0 <= x < s.len() - 1 ==> (#[trigger] s.drop_last()[x]) == s[x]);
    if i == s.len() - 1 {
        assert(s.remove(i) =~= s.drop_last());
        lemma_challenge_map_contains(s.drop_last(), k);
        assert(!challenge_map(s.drop_last()).contains_key(k));
        assert(challenge_map(s).remove(k) =~= challenge_map(s.drop_last()));
        assert(challenge_map(s.remove(i)) == challenge_map(s).remove(k));
    } else {
        lemma_challenge_map_remove(s.drop_last(), i);
        assert(s.remove(i).drop_last() =~= s.drop_last().remove(i));
        assert(s.remove(i).last() == s.last());
        let klast = s.last().email@;
        let vlast = challenge_pair(s.last());
        assert(challenge_map(s.remove(i)) == challenge_map(s.drop_last().remove(i)).insert(
            klast,
            vlast,
        ));
        assert(k != klast);
        assert(challenge_map(s.drop_last()).remove(k).insert(klast, vlast) =~= challenge_map(
            s.drop_last(),
        ).insert(klast, vlast).remove(k));
        assert(challenge_map(s.remove(i)) == challenge_map(s).remove(k));
    }
}

/// Deleting an entry preserves uniqueness, and no surviving entry carries
/// the deleted entry's email.
proof fn lemma_unique_after_remove(s: Seq<StoredChallenge>, i: int)
    requires
        unique_challenge_emails(s),
        0 <= i < s.len(),
    ensures
        unique_challenge_emails(s.remove(i)),
        forall|x: int|
            0 <= x < s.remove(i).len() ==> (#[trigger] s.remove(i)[x]).email@ != s[i].email@,
{
    assert(forall|x: int|
        0 <= x < s.remove(i).len() ==> (#[trigger] s.remove(i)[x]) == (if x < i {
            s[x]
        } else {
            s[x + 1]
        }));
}

/// The in-memory reference pending-challenge store: a flat list of
/// challenges with unique emails, read by linear search. Entries never
/// expire here; expiry is an adapter's concern.
pub struct HashmapTwoFACodeStore {
    codes: Vec<StoredChallenge>,
}

impl HashmapTwoFACodeStore {
    /// The store never keeps two challenges for one email.
    #[verifier::type_invariant]
    spec fn inv(&self) -> bool {
        unique_challenge_emails(self.codes@)
    }

    /// The position of the challenge for an email, if one is held.
    fn find_index(&self, email: &Email) -> (r: Option<usize>)
        ensures
            match r {
                Some(i) => i < self.codes@.len() && self.codes@[i as int].email@ == email@,
                None => forall|i: int|
                    0 <= i < self.codes@.len() ==> (#[trigger] self.codes@[i]).email@ != email@,
            },
    {
        let mut i: usize = 0;
        while i < self.codes.len()
            invariant
                i <= self.codes@.len(),
                forall|j: int| 0 <= j < i ==> (#[trigger] self.codes@[j]).email@ != email@,
            decreases self.codes@.len() - i,
        {
            if self.codes[i].email == *email {
                return Some(i);
            }
            i = i + 1;
        }
        None
    }
}

impl Default for HashmapTwoFACodeStore {
    /// An empty store.
    fn default() -> (r: Self)
        ensures
            r.codes() == Map::<Seq<char>, (Seq<char>, Seq<char>)>::empty(),
    {
        HashmapTwoFACodeStore { codes: Vec::new() }
    }
}

impl TwoFACodeStore for HashmapTwoFACodeStore {
    closed spec fn codes(&self) -> Map<Seq<char>, (Seq<char>, Seq<char>)> {
        challenge_map(self.codes@)
    }

    /// Here, beyond the trait contract: this store has no infrastructure to
    /// fail, so storing a challenge always succeeds.
    fn add_code(&mut self, email: Email, login_attempt_id: LoginAttemptId, code: TwoFACode) -> (r:
        Result<(), TwoFACodeStoreError>)
        ensures
            r is Ok,
    {
        proof {
            use_type_invariant(&*self);
        }
        let ghost s0 = self.codes@;
        let found = self.find_index(&email);
        let entry = StoredChallenge { email, attempt_id: login_attempt_id, code };
        let mut v: Vec<StoredChallenge> = Vec::new();
        core::mem::swap(&mut v, &mut self.codes);
        match found {
            Some(i) => {
                proof {
                    lemma_challenge_map_remove(s0, i as int);
                }
                v.remove(i);
                proof {
                    lemma_unique_after_remove(s0, i as int);
                    lemma_challenge_map_push(s0.remove(i as int), entry);
                    assert(challenge_map(s0).remove(entry.email@).insert(
                        entry.email@,
                        challenge_pair(entry),
                    ) =~= challenge_map(s0).insert(entry.email@, challenge_pair(entry)));
                }
                v.push(entry);
            },
            None => {
                proof {
                    lemma_challenge_map_push(s0, entry);
                }
                v.push(entry);
            },
        }
        self.codes = v;
        Ok(())
    }

    /// Here, beyond the trait contract: deleting always succeeds, whether
    /// or not a challenge was pending.
    fn remove_code(&mut self, email: &Email) -> (r: Result<(), TwoFACodeStoreError>)
        ensures
            r is Ok,
    {
        proof {
            use_type_invariant(&*self);
        }
        let ghost s0 = self.codes@;
        match self.find_index(email) {
            Some(i) => {
                proof {
                    lemma_challenge_map_remove(s0, i as int);
                    lemma_unique_after_remove(s0, i as int);
                }
                let mut v: Vec<StoredChallenge> = Vec::new();
                core::mem::swap(&mut v, &mut self.codes);
                v.remove(i);
                self.codes = v;
                Ok(())
            },
            None => {
                proof {
                    lemma_challenge_map_contains(s0, email@);
                    assert(challenge_map(s0).remove(email@) =~= challenge_map(s0));
                }
                Ok(())
            },
        }
    }

    /// Here, beyond the trait contract: the lookup succeeds exactly when a
    /// challenge is pending for the email.
    fn get_code(&self, email: &Email) -> (r: Result<
        (LoginAttemptId, TwoFACode),
        TwoFACodeStoreError,
    >)
        ensures
            r is Ok <==> self.codes().contains_key(email@),
    {
        proof {
            use_type_invariant(self);
        }
        match self.find_index(email) {
            Some(i) => {
                proof {
                    lemma_challenge_map_index(self.codes@, i as int);
                }
                Ok((self.codes[i].attempt_id.clone(), self.codes[i].code.clone()))
            },
            None => {
                proof {
                    lemma_challenge_map_contains(self.codes@, email@);
                }
                Err(TwoFACodeStoreError::LoginAttemptIdNotFound)
            },
        }
    }
}

} // verus!

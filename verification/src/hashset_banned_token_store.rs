//! The in-memory reference implementation of the revoked-token ledger.
use vstd::prelude::*;

use crate::data_stores::BannedTokenStore;
use crate::data_stores::BannedTokenStoreError;

verus! {

/// The set a sequence of token strings stands for.
pub open spec fn token_set(s: Seq<String>) -> Set<Seq<char>>
    decreases s.len(),
{
    if s.len() == 0 {
        Set::empty()
    } else {
        token_set(s.drop_last()).insert(s.last()@)
    }
}

/// The set holds a token exactly when some entry carries it.
proof fn lemma_token_set_contains(s: Seq<String>, k: Seq<char>)
    ensures
        token_set(s).contains(k) <==> (exists|i: int| 0 <= i < s.len() && (#[trigger] s[i])@ == k),
    decreases s.len(),
{
    if s.len() > 0 {
        lemma_token_set_contains(s.drop_last(), k);
        if s.last()@ == k {
            assert(s[s.len() - 1]@ == k);
        } else {
            if exists|i: int| 0 <= i < s.len() - 1 && (#[trigger] s.drop_last()[i])@ == k {
                let i = choose|i: int| 0 <= i < s.len() - 1 && (#[trigger] s.drop_last()[i])@ == k;
                assert(s[i]@ == k);
            }
            if exists|i: int| 0 <= i < s.len() && (#[trigger] s[i])@ == k {
                let i = choose|i: int| 0 <= i < s.len() && (#[trigger] s[i])@ == k;
                assert(s.drop_last()[i]@ == k);
            }
        }
    }
}

/// Appending an entry adds its token to the set.
proof fn lemma_token_set_push(s: Seq<String>, t: String)
    ensures
        token_set(s.push(t)) == token_set(s).insert(t@),
{
    assert(s.push(t).drop_last() =~= s);
    assert(s.push(t).last() == t);
}

/// The in-memory reference revoked-token ledger: a flat list of tokens read
/// by linear search. Entries never expire here; expiry is an adapter's
/// concern.
pub struct HashsetBannedTokenStore {
    tokens: Vec<String>,
}

impl Default for HashsetBannedTokenStore {
    /// An empty ledger.
    fn default() -> (r: Self)
        ensures
            r.tokens() == Set::<Seq<char>>::empty(),
    {
        HashsetBannedTokenStore { tokens: Vec::new() }
    }
}

impl BannedTokenStore for HashsetBannedTokenStore {
    closed spec fn tokens(&self) -> Set<Seq<char>> {
        token_set(self.tokens@)
    }

    /// Here, beyond the trait contract: this ledger has no infrastructure
    /// to fail, so revoking always succeeds.
    fn add_token(&mut self, token: String) -> (r: Result<(), BannedTokenStoreError>)
        ensures
            r is Ok,
    {
        proof {
            lemma_token_set_push(self.tokens@, token);
        }
        self.tokens.push(token);
        Ok(())
    }

    /// Here, beyond the trait contract: the membership question is always
    /// answered.
    fn contains_token(&self, token: &String) -> (r: Result<bool, BannedTokenStoreError>)
        ensures
            r is Ok,
    {
        let mut i: usize = 0;
        while i < self.tokens.len()
            invariant
                i <= self.tokens@.len(),
                forall|j: int| 0 <= j < i ==> (#[trigger] self.tokens@[j])@ != token@,
            decreases self.tokens@.len() - i,
        {
            if self.tokens[i] == *token {
                proof {
                    lemma_token_set_contains(self.tokens@, token@);
                }
                return Ok(true);
            }
            i = i + 1;
        }
        proof {
            lemma_token_set_contains(self.tokens@, token@);
        }
        Ok(false)
    }
}

} // verus!

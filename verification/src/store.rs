use vstd::prelude::*;

use crate::types::{Token, TokenView};

verus! {

/// The token-mapping cell: entries from token id to record, with pairwise
/// distinct ids, abstracted as a `Map` from id to record view. Inserting an
/// id that is already present replaces its record outright.
pub struct TokenStore {
    entries: Vec<(String, Token)>,
}

/// The map an entry sequence describes, later entries winning.
pub open spec fn assoc_map(s: Seq<(String, Token)>) -> Map<Seq<char>, TokenView>
    decreases s.len(),
{
    if s.len() == 0 {
        Map::empty()
    } else {
        assoc_map(s.drop_last()).insert(s.last().0@, s.last().1@)
    }
}

/// No two entries carry the same token id.
spec fn distinct_keys(s: Seq<(String, Token)>) -> bool {
    forall|i: int, j: int| 0 <= i < j < s.len() ==> s[i].0@ != s[j].0@
}

proof fn lemma_assoc_map_contains(s: Seq<(String, Token)>, k: Seq<char>)
    ensures
        assoc_map(s).contains_key(k) <==> (exists|i: int| 0 <= i < s.len() && s[i].0@ == k),
    decreases s.len(),
{
    if s.len() > 0 {
        lemma_assoc_map_contains(s.drop_last(), k);
        if s.last().0@ == k {
            assert(s[s.len() - 1].0@ == k);
        } else {
            if exists|i: int| 0 <= i < s.len() && s[i].0@ == k {
                let i = choose|i: int| 0 <= i < s.len() && s[i].0@ == k;
                assert(s.drop_last()[i] == s[i]);
            }
            if exists|i: int| 0 <= i < s.drop_last().len() && s.drop_last()[i].0@ == k {
                let i = choose|i: int| 0 <= i < s.drop_last().len() && s.drop_last()[i].0@ == k;
                assert(s[i].0@ == k);
            }
        }
    }
}

proof fn lemma_assoc_map_at(s: Seq<(String, Token)>, i: int)
    requires
        distinct_keys(s),
        0 <= i < s.len(),
    ensures
        assoc_map(s).contains_key(s[i].0@),
        assoc_map(s)[s[i].0@] == s[i].1@,
    decreases s.len(),
{
    if i < s.len() - 1 {
        assert(distinct_keys(s.drop_last()));
        assert(s.drop_last()[i] == s[i]);
        lemma_assoc_map_at(s.drop_last(), i);
        assert(s[i].0@ != s.last().0@);
    }
}

proof fn lemma_assoc_map_update(s: Seq<(String, Token)>, i: int, e: (String, Token))
    requires
        distinct_keys(s),
        0 <= i < s.len(),
        e.0@ == s[i].0@,
    ensures
        assoc_map(s.update(i, e)) == assoc_map(s).insert(e.0@, e.1@),
    decreases s.len(),
{
    let s2 = s.update(i, e);
    if i == s.len() - 1 {
        assert(s2.drop_last() =~= s.drop_last());
        assert(s2.last() == e);
        assert(assoc_map(s.drop_last()).insert(s.last().0@, s.last().1@).insert(e.0@, e.1@)
            =~= assoc_map(s.drop_last()).insert(e.0@, e.1@));
    } else {
        assert(distinct_keys(s.drop_last()));
        assert(s.drop_last()[i] == s[i]);
        lemma_assoc_map_update(s.drop_last(), i, e);
        assert(s2.drop_last() =~= s.drop_last().update(i, e));
        assert(s2.last() == s.last());
        assert(s[i].0@ != s.last().0@);
        assert(assoc_map(s.drop_last()).insert(e.0@, e.1@).insert(s.last().0@, s.last().1@)
            =~= assoc_map(s.drop_last()).insert(s.last().0@, s.last().1@).insert(e.0@, e.1@));
    }
}

/// The position of `token_id` among the entries, if it occurs.
fn find_index(entries: &Vec<(String, Token)>, token_id: &String) -> (r: Option<usize>)
    ensures
        match r {
            Some(i) => i < entries@.len() && entries@[i as int].0@ == token_id@,
            None => forall|j: int| 0 <= j < entries@.len() ==> entries@[j].0@ != token_id@,
        },
{
    let n = entries.len();
    let mut i: usize = 0;
    while i < n
        invariant
            n == entries@.len(),
            i <= n,
            forall|j: int| 0 <= j < i ==> entries@[j].0@ != token_id@,
        decreases n - i,
    {
        if entries[i].0 == *token_id {
            return Some(i);
        }
        i = i + 1;
    }
    None
}

impl View for TokenStore {
    type V = Map<Seq<char>, TokenView>;

    closed spec fn view(&self) -> Map<Seq<char>, TokenView> {
        assoc_map(self.entries@)
    }
}

impl TokenStore {
    #[verifier::type_invariant]
    spec fn wf(self) -> bool {
        distinct_keys(self.entries@)
    }

    /// An empty store.
    pub fn new() -> (s: Self)
        ensures
            s@ == Map::<Seq<char>, TokenView>::empty(),
    {
        TokenStore { entries: Vec::new() }
    }

    /// The record stored under `token_id`, if any.
    pub fn get(&self, token_id: &String) -> (r: Option<&Token>)
        ensures
            match r {
                Some(t) => self@.contains_key(token_id@) && t@ == self@[token_id@],
                None => !self@.contains_key(token_id@),
            },
    {
        proof {
            use_type_invariant(&*self);
        }
        match find_index(&self.entries, token_id) {
            Some(i) => {
                proof {
                    lemma_assoc_map_at(self.entries@, i as int);
                }
                Some(&self.entries[i].1)
            },
            None => {
                proof {
                    lemma_assoc_map_contains(self.entries@, token_id@);
                }
                None
            },
        }
    }

    /// Stores `token` under `token_id`, replacing any record already there.
    pub fn insert(&mut self, token_id: String, token: Token)
        ensures
            final(self)@ == old(self)@.insert(token_id@, token@),
    {
        proof {
            use_type_invariant(&*self);
        }
        let ghost s0 = self.entries@;
        let mut entries: Vec<(String, Token)> = Vec::new();
        core::mem::swap(&mut entries, &mut self.entries);
        let found = find_index(&entries, &token_id);
        let e = (token_id, token);
        match found {
            Some(i) => {
                proof {
                    assert(distinct_keys(s0.update(i as int, e)));
                    lemma_assoc_map_update(s0, i as int, e);
                }
                entries.set(i, e);
            },
            None => {
                proof {
                    assert(distinct_keys(s0.push(e)));
                    assert(s0.push(e).drop_last() =~= s0);
                    assert(s0.push(e).last() == e);
                }
                entries.push(e);
            },
        }
        self.entries = entries;
    }

    /// The store a host hands back after persistence: the entries are
    /// replayed in order, later bindings of an id winning, exactly as
    /// `assoc_map` reads the sequence.
    pub fn from_entries(entries: &Vec<(String, Token)>) -> (s: Self)
        ensures
            s@ == assoc_map(entries@),
    {
        let mut s = TokenStore::new();
        let n = entries.len();
        let mut i: usize = 0;
        while i < n
            invariant
                n == entries@.len(),
                i <= n,
                s@ == assoc_map(entries@.subrange(0, i as int)),
            decreases n - i,
        {
            let id = entries[i].0.clone();
            let tok = entries[i].1.clone();
            proof {
                assert(entries@.subrange(0, i as int + 1).drop_last() =~= entries@.subrange(
                    0,
                    i as int,
                ));
                assert(entries@.subrange(0, i as int + 1).last() == entries@[i as int]);
            }
            s.insert(id, tok);
            i = i + 1;
        }
        proof {
            assert(entries@.subrange(0, n as int) =~= entries@);
        }
        s
    }

    /// Read-only access to the entries, for a host that persists the store.
    /// Each entry is a binding of the abstract map, each bound id occurs,
    /// and no id occurs twice.
    pub fn entries(&self) -> (r: &Vec<(String, Token)>)
        ensures
            assoc_map(r@) == self@,
            forall|i: int|
                0 <= i < r@.len() ==> self@.contains_key(#[trigger] r@[i].0@) && self@[r@[i].0@]
                    == r@[i].1@,
            forall|k: Seq<char>|
                self@.contains_key(k) ==> exists|i: int| 0 <= i < r@.len() && r@[i].0@ == k,
            forall|i: int, j: int| 0 <= i < j < r@.len() ==> r@[i].0@ != r@[j].0@,
    {
        proof {
            use_type_invariant(&*self);
            assert forall|i: int| 0 <= i < self.entries@.len() implies self@.contains_key(
                #[trigger] self.entries@[i].0@,
            ) && self@[self.entries@[i].0@] == self.entries@[i].1@ by {
                lemma_assoc_map_at(self.entries@, i);
            }
            assert forall|k: Seq<char>| self@.contains_key(k) implies exists|i: int|
                0 <= i < self.entries@.len() && self.entries@[i].0@ == k by {
                lemma_assoc_map_contains(self.entries@, k);
            }
        }
        &self.entries
    }
}

} // verus!

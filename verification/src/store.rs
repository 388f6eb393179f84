//! The in-memory store of shortened URLs: a map from integer identifier to
//! the original URL, where identifiers are handed out sequentially.

use std::collections::HashMap;
use vstd::prelude::*;

verus! {

broadcast use vstd::std_specs::hash::group_hash_axioms;

/// The store invariant: identifiers are exactly the integers below the
/// current size, so the id of the next entry equals the entry count and
/// there are no gaps and no duplicates.
pub open spec fn ids_dense(m: Map<u32, Seq<char>>) -> bool {
    &&& m.dom().finite()
    &&& forall|k: u32| m.contains_key(k) <==> (k as nat) < m.len()
}

/// Inserting at the next sequential id keeps the ids dense and grows the
/// store by exactly one entry.
pub proof fn lemma_dense_insert(m: Map<u32, Seq<char>>, u: Seq<char>)
    requires
        ids_dense(m),
        m.len() < u32::MAX,
    ensures
        ({
            let id = m.len() as u32;
            let m2 = m.insert(id, u);
            &&& !m.contains_key(id)
            &&& ids_dense(m2)
            &&& m2.len() == m.len() + 1
        }),
{
    broadcast use vstd::set::group_set_axioms;

    let id = m.len() as u32;
    let m2 = m.insert(id, u);
    assert(!m.contains_key(id));
    assert(m2.dom() =~= m.dom().insert(id));
    assert(m2.len() == m.len() + 1);
    assert forall|k: u32| m2.contains_key(k) <==> (k as nat) < m2.len() by {
        assert(m2.contains_key(k) <==> m.contains_key(k) || k == id);
    };
}

/// The id -> original URL mapping, owned by the process for its lifetime.
/// Entries are immutable once inserted and the store never shrinks.
pub struct Store {
    db: HashMap<u32, String>,
}

impl View for Store {
    type V = Map<u32, Seq<char>>;

    closed spec fn view(&self) -> Map<u32, Seq<char>> {
        self.db@.map_values(|s: String| s@)
    }
}

impl Store {
    proof fn lemma_view_dom(&self)
        ensures
            self@.dom() =~= self.db@.dom(),
            self@.len() == self.db@.len(),
            self@.dom().finite(),
            forall|k: u32| self@.contains_key(k) <==> self.db@.contains_key(k),
            forall|k: u32| self.db@.contains_key(k) ==> self@[k] == self.db@[k]@,
    {
        assert(self@.dom() =~= self.db@.dom());
    }

    /// A fresh store holds no entries.
    pub fn new() -> (s: Store)
        ensures
            s@ == Map::<u32, Seq<char>>::empty(),
            ids_dense(s@),
    {
        let s = Store { db: HashMap::new() };
        proof {
            assert(s@ =~= Map::<u32, Seq<char>>::empty());
            assert(s@.dom() =~= Set::<u32>::empty());
        }
        s
    }

    /// The number of entries, which is also the id the next entry will get.
    pub fn len(&self) -> (n: usize)
        ensures
            n == self@.len(),
    {
        proof {
            self.lemma_view_dom();
        }
        self.db.len()
    }

    /// Insert a URL under the next sequential id and return that id.
    pub fn insert(&mut self, url: String) -> (id: u32)
        requires
            ids_dense(old(self)@),
            old(self)@.len() < u32::MAX,
        ensures
            ids_dense(final(self)@),
            id as nat == old(self)@.len(),
            !old(self)@.contains_key(id),
            final(self)@ == old(self)@.insert(id, url@),
            final(self)@.len() == old(self)@.len() + 1,
    {
        proof {
            self.lemma_view_dom();
        }
        let n: usize = self.db.len();
        let id: u32 = n as u32;
        self.db.insert(id, url);
        proof {
            assert(self@ =~= old(self)@.insert(id, url@));
            lemma_dense_insert(old(self)@, url@);
        }
        id
    }

    /// Look an id up: the stored URL if the id was ever assigned, else nothing.
    pub fn lookup(&self, id: u32) -> (r: Option<&String>)
        ensures
            match r {
                Some(u) => self@.contains_key(id) && u@ == self@[id],
                None => !self@.contains_key(id),
            },
    {
        let r = self.db.get(&id);
        proof {
            self.lemma_view_dom();
        }
        r
    }
}

} // verus!

//! Laws that relate several operations on the store model: sequential id
//! assignment over a whole run of shorten operations, and the
//! shorten/redirect round trip.

use vstd::prelude::*;

use crate::store::{ids_dense, lemma_dense_insert};
use crate::handlers::spec_url_accepted;

verus! {

/// The store model after a run of accepted shorten operations, one per
/// URL in `urls`, each inserting at the next sequential id.
pub open spec fn run_shortens(m: Map<u32, Seq<char>>, urls: Seq<Seq<char>>) -> Map<u32, Seq<char>>
    decreases urls.len(),
{
    if urls.len() == 0 {
        m
    } else {
        run_shortens(m.insert(m.len() as u32, urls[0]), urls.drop_first())
    }
}

/// Sequential id assignment: a run of N accepted shorten operations on a
/// well-formed store of size S yields exactly N new entries whose ids are
/// `S, S+1, ..., S+N-1` in operation order — no id is duplicated or
/// skipped, whatever order the operations were granted in — and every
/// entry already present is untouched. Started from the empty store, the
/// assigned ids are exactly `0 .. N-1`.
pub proof fn lemma_sequential_ids(m: Map<u32, Seq<char>>, urls: Seq<Seq<char>>)
    requires
        ids_dense(m),
        m.len() + urls.len() <= u32::MAX,
    ensures
        ({
            let m2 = run_shortens(m, urls);
            &&& ids_dense(m2)
            &&& m2.len() == m.len() + urls.len()
            &&& forall|j: int|
                0 <= j < urls.len() ==> m2.contains_key((m.len() + j) as u32) && m2[(m.len()
                    + j) as u32] == urls[j]
            &&& forall|k: u32| m.contains_key(k) ==> m2.contains_key(k) && m2[k] == m[k]
        }),
    decreases urls.len(),
{
    if urls.len() == 0 {
    } else {
        let id = m.len() as u32;
        let m1 = m.insert(id, urls[0]);
        lemma_dense_insert(m, urls[0]);
        lemma_sequential_ids(m1, urls.drop_first());
        let m2 = run_shortens(m, urls);
        assert(m2 == run_shortens(m1, urls.drop_first()));
        assert forall|j: int| 0 <= j < urls.len() implies m2.contains_key((m.len() + j) as u32)
            && m2[(m.len() + j) as u32] == urls[j] by {
            if j == 0 {
                assert(m1.contains_key(id) && m1[id] == urls[0]);
            } else {
                assert(urls.drop_first()[j - 1] == urls[j]);
                assert(m2.contains_key((m1.len() + (j - 1)) as u32));
            }
        };
    }
}

/// Lookup round trip: shortening an accepted URL `u` stores it under the
/// freshly assigned id, so a redirect for that id finds exactly `u`.
/// Together with the redirect handler's contract this says the redirect
/// answers 302 with the location set to `u`.
pub proof fn lemma_lookup_round_trip(m: Map<u32, Seq<char>>, u: Seq<char>)
    requires
        ids_dense(m),
        m.len() < u32::MAX,
        spec_url_accepted(u),
    ensures
        ({
            let id = m.len() as u32;
            let m2 = m.insert(id, u);
            &&& m2.contains_key(id)
            &&& m2[id] == u
        }),
{
}

} // verus!

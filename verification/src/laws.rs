//! The laws of the store, stated over its model: the mapping from identifiers
//! to records that `MovieStore::create` and `MovieStore::get` speak of in
//! their contracts.

use vstd::prelude::*;

use crate::movie::MovieView;

verus! {

/// Round trip: a creation that stored `m` under its fresh identifier leaves a
/// mapping in which a lookup of that identifier finds exactly `m`, so `get`
/// after `create` returns the record `create` returned, field for field.
pub proof fn lemma_create_then_get(pre: Map<Seq<char>, MovieView>, m: MovieView)
    ensures
        pre.insert(m.id, m).contains_key(m.id),
        pre.insert(m.id, m)[m.id] == m,
{
}

/// Uniqueness: a successful creation returns an identifier absent from the
/// store before it, and adds it. So of any two successful creations in
/// sequence the identifiers differ, and over any sequence of creations they
/// are pairwise distinct.
pub proof fn lemma_created_ids_distinct(
    pre: Map<Seq<char>, MovieView>,
    m1: MovieView,
    m2: MovieView,
)
    requires
        !pre.contains_key(m1.id),
        !pre.insert(m1.id, m1).contains_key(m2.id),
    ensures
        m1.id != m2.id,
{
}

/// Uniqueness over a whole run: as long as every identifier returned so far is
/// a key of the store, a further successful creation returns an identifier
/// distinct from all of them, and afterwards the returned identifiers are
/// again all keys. So, by induction, any sequence of N creations yields N
/// pairwise distinct identifiers.
pub proof fn lemma_created_id_fresh(
    pre: Map<Seq<char>, MovieView>,
    m: MovieView,
    prior: Set<Seq<char>>,
)
    requires
        prior.subset_of(pre.dom()),
        !pre.contains_key(m.id),
    ensures
        !prior.contains(m.id),
        prior.insert(m.id).subset_of(pre.insert(m.id, m).dom()),
{
}

/// Miss behaviour: an identifier absent from the store and different from the
/// one a creation generated is still absent afterwards. Since creations are
/// the only growth and records are never removed, an identifier that no
/// creation ever returned is never a key, and `get` on it yields `NotFound`.
pub proof fn lemma_miss_preserved(pre: Map<Seq<char>, MovieView>, m: MovieView, id: Seq<char>)
    requires
        !pre.contains_key(id),
        id != m.id,
    ensures
        !pre.insert(m.id, m).contains_key(id),
{
}

/// Immutability: a creation under a fresh identifier leaves every stored
/// record as it was, so repeated `get` calls on an identifier keep returning
/// the same record, whatever is created in between.
pub proof fn lemma_existing_record_unchanged(
    pre: Map<Seq<char>, MovieView>,
    m: MovieView,
    id: Seq<char>,
)
    requires
        pre.contains_key(id),
        !pre.contains_key(m.id),
    ensures
        pre.insert(m.id, m).contains_key(id),
        pre.insert(m.id, m)[id] == pre[id],
{
}

} // verus!

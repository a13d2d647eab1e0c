//! The movie store: a collection of records keyed by their generated
//! identifiers, with creation and exact-match lookup.

use vstd::prelude::*;

use crate::movie::Movie;
use crate::movie::MovieView;

verus! {

/// No two records carry the same identifier.
pub open spec fn distinct_ids(s: Seq<MovieView>) -> bool {
    forall|i: int, j: int| 0 <= i < j < s.len() ==> s[i].id != s[j].id
}

/// The mapping a sequence of records denotes: each record keyed by its
/// identifier.
pub open spec fn records_map(s: Seq<MovieView>) -> Map<Seq<char>, MovieView>
    decreases s.len(),
{
    if s.len() == 0 {
        Map::<Seq<char>, MovieView>::empty()
    } else {
        records_map(s.drop_last()).insert(s.last().id, s.last())
    }
}

/// A lowercase hexadecimal digit.
pub open spec fn is_lower_hex_digit(c: char) -> bool {
    ('0' <= c && c <= '9') || ('a' <= c && c <= 'f')
}

/// The canonical hyphenated form of a version-4 identifier: 36 characters,
/// hyphens at positions 8, 13, 18 and 23, lowercase hexadecimal digits
/// everywhere else, and the version digit '4' at position 14.
pub open spec fn canonical_uuid(s: Seq<char>) -> bool {
    &&& s.len() == 36
    &&& forall|i: int|
        0 <= i < 36 && (i == 8 || i == 13 || i == 18 || i == 23) ==> #[trigger] s[i] == '-'
    &&& forall|i: int|
        0 <= i < 36 && !(i == 8 || i == 13 || i == 18 || i == 23) ==> is_lower_hex_digit(
            #[trigger] s[i],
        )
    &&& s[14] == '4'
}

/// A key is in the mapping exactly when some record carries it as identifier.
pub proof fn lemma_records_map_contains(s: Seq<MovieView>, k: Seq<char>)
    ensures
        records_map(s).contains_key(k) <==> (exists|i: int| 0 <= i < s.len() && s[i].id == k),
    decreases s.len(),
{
    if s.len() > 0 {
        let t = s.drop_last();
        lemma_records_map_contains(t, k);
        if s.last().id == k {
            assert(s[s.len() - 1].id == k);
        } else if records_map(t).contains_key(k) {
            let i = choose|i: int| 0 <= i < t.len() && t[i].id == k;
            assert(s[i].id == k);
        } else if exists|i: int| 0 <= i < s.len() && s[i].id == k {
            let i = choose|i: int| 0 <= i < s.len() && s[i].id == k;
            assert(t[i].id == k);
        }
    }
}

/// Under distinct identifiers, the mapping sends each record's identifier to
/// that record.
pub proof fn lemma_records_map_value(s: Seq<MovieView>, i: int)
    requires
        distinct_ids(s),
        0 <= i < s.len(),
    ensures
        records_map(s).contains_key(s[i].id),
        records_map(s)[s[i].id] == s[i],
    decreases s.len(),
{
    let t = s.drop_last();
    if i == s.len() - 1 {
        assert(records_map(s) == records_map(t).insert(s.last().id, s.last()));
    } else {
        assert(distinct_ids(t));
        lemma_records_map_value(t, i);
        assert(s[i].id != s.last().id);
    }
}

/// The mapping has finitely many keys: at most one per record.
pub proof fn lemma_records_map_dom_finite(s: Seq<MovieView>)
    ensures
        records_map(s).dom().finite(),
    decreases s.len(),
{
    if s.len() > 0 {
        lemma_records_map_dom_finite(s.drop_last());
    }
}

/// The signal that a lookup key has no associated record.
#[derive(Clone, Copy, Debug, PartialEq, Eq, Structural)]
pub struct NotFound;

/// The signal that a generated identifier was already in use. The identifier
/// scheme makes this practically unreachable; it marks a violated uniqueness
/// assumption, not a recoverable condition.
#[derive(Clone, Copy, Debug, PartialEq, Eq, Structural)]
pub struct IdCollision;

/// All movie records of one process, held for its lifetime. Records are never
/// removed and never changed once stored.
pub struct MovieStore {
    records: Vec<Movie>,
}

impl View for MovieStore {
    type V = Map<Seq<char>, MovieView>;

    closed spec fn view(&self) -> Map<Seq<char>, MovieView> {
        records_map(self.records@.map_values(|m: Movie| m@))
    }
}

impl MovieStore {
    /// Distinct records carry distinct identifiers, so each identifier names
    /// one record.
    pub closed spec fn wf(&self) -> bool {
        distinct_ids(self.records@.map_values(|m: Movie| m@))
    }

    /// The store starts empty.
    pub fn new() -> (s: Self)
        ensures
            s.wf(),
            s@ == Map::<Seq<char>, MovieView>::empty(),
    {
        MovieStore { records: Vec::new() }
    }

    /// Looks the identifier up by exact match: the stored record under that
    /// key, as a copy, or `NotFound` exactly when no record carries it.
    pub fn get(&self, id: &String) -> (r: Result<Movie, NotFound>)
        requires
            self.wf(),
        ensures
            match r {
                Ok(m) => self@.contains_key(id@) && m@ == self@[id@] && m@.id == id@,
                Err(_) => !self@.contains_key(id@),
            },
    {
        let ghost s = self.records@.map_values(|m: Movie| m@);
        let n = self.records.len();
        for i in 0..n
            invariant
                n == self.records.len(),
                s == self.records@.map_values(|m: Movie| m@),
                self.wf(),
                forall|j: int| 0 <= j < i ==> s[j].id != id@,
        {
            proof {
                assert(s[i as int] == self.records@[i as int]@);
            }
            if self.records[i].id == *id {
                proof {
                    assert(s[i as int].id == id@);
                    lemma_records_map_value(s, i as int);
                }
                return Ok(self.records[i].clone());
            }
            proof {
                assert(s[i as int].id != id@);
            }
        }
        proof {
            lemma_records_map_contains(s, id@);
        }
        Err(NotFound)
    }

    /// Whether some record already carries the identifier.
    fn contains_id(&self, id: &String) -> (b: bool)
        requires
            self.wf(),
        ensures
            b == self@.contains_key(id@),
    {
        match self.get(id) {
            Ok(_) => true,
            Err(_) => false,
        }
    }

    /// Stores a record under the given identifier, provided no record carries
    /// it yet; `IdCollision` exactly when one does, with the store unchanged.
    pub fn insert_new(&mut self, id: String, name: String, year: u16, was_good: bool) -> (r: Result<
        Movie,
        IdCollision,
    >)
        requires
            old(self).wf(),
        ensures
            final(self).wf(),
            final(self)@.dom().finite(),
            match r {
                Ok(m) => {
                    &&& !old(self)@.contains_key(id@)
                    &&& m@ == (MovieView { id: id@, name: name@, year: year, was_good: was_good })
                    &&& final(self)@ == old(self)@.insert(id@, m@)
                    &&& final(self)@.len() == old(self)@.len() + 1
                },
                Err(_) => old(self)@.contains_key(id@) && *final(self) == *old(self),
            },
    {
        proof {
            lemma_records_map_dom_finite(self.records@.map_values(|m: Movie| m@));
        }
        if self.contains_id(&id) {
            return Err(IdCollision);
        }
        let ghost s = self.records@.map_values(|m: Movie| m@);
        let movie = Movie { id, name, year, was_good };
        let copy = movie.clone();
        proof {
            lemma_records_map_contains(s, movie@.id);
        }
        self.records.push(movie);
        proof {
            let ghost s2 = self.records@.map_values(|m: Movie| m@);
            assert(s2 =~= s.push(copy@));
            assert(s2.drop_last() =~= s);
        }
        Ok(copy)
    }

    /// Creates a record from the caller's fields, taken as-is, under a freshly
    /// generated identifier, and returns a copy of what was stored. `None`
    /// only when the generated identifier collided with a stored one — so
    /// only in a store that already holds a 36-character key, and even there
    /// practically never; the store is then unchanged.
    pub fn create(&mut self, name: String, year: u16, was_good: bool) -> (r: Option<Movie>)
        requires
            old(self).wf(),
        ensures
            final(self).wf(),
            final(self)@.dom().finite(),
            match r {
                Some(m) => {
                    &&& m@.name == name@
                    &&& m@.year == year
                    &&& m@.was_good == was_good
                    &&& canonical_uuid(m@.id)
                    &&& !old(self)@.contains_key(m@.id)
                    &&& final(self)@ == old(self)@.insert(m@.id, m@)
                    &&& final(self)@.len() == old(self)@.len() + 1
                },
                None => {
                    &&& *final(self) == *old(self)
                    &&& (exists|k: Seq<char>|
                        #[trigger] old(self)@.dom().contains(k) && k.len() == 36)
                },
            },
    {
        let ghost pre = *self;
        let id = fresh_id();
        match self.insert_new(id, name, year, was_good) {
            Ok(m) => Some(m),
            Err(_) => {
                proof {
                    assert(pre@.dom().contains(id@));
                }
                None
            },
        }
    }

    /// The store holds finitely many records, so its mapping has finitely
    /// many keys and a meaningful size.
    pub proof fn lemma_dom_finite(&self)
        ensures
            self@.dom().finite(),
    {
        lemma_records_map_dom_finite(self.records@.map_values(|m: Movie| m@));
    }

    /// The store invariant: every key of the mapping equals the `id` field of
    /// its associated record.
    pub proof fn lemma_key_matches_id(&self, k: Seq<char>)
        requires
            self.wf(),
            self@.contains_key(k),
        ensures
            self@[k].id == k,
    {
        let s = self.records@.map_values(|m: Movie| m@);
        lemma_records_map_contains(s, k);
        let i = choose|i: int| 0 <= i < s.len() && s[i].id == k;
        lemma_records_map_value(s, i);
    }
}

/// Relies on `uuid::Uuid::new_v4` and its `Display` form: a random
/// version-4 identifier rendered as the canonical hyphenated string, 32
/// lowercase hexadecimal digits with hyphens at positions 8, 13, 18 and 23
/// and the version digit '4' at position 14.
#[verifier::external_body]
fn fresh_id() -> (r: String)
    ensures
        canonical_uuid(r@),
{
    uuid::Uuid::new_v4().to_string()
}

} // verus!

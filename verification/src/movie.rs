//! The movie record and the request payloads that accompany it.

use vstd::prelude::*;

verus! {

/// The mathematical content of a stored record: the identifier and the three
/// caller-supplied fields, each as a plain value.
pub ghost struct MovieView {
    pub id: Seq<char>,
    pub name: Seq<char>,
    pub year: u16,
    pub was_good: bool,
}

/// A stored movie record. The identifier is assigned by the store when the
/// record is created and never changes afterwards.
#[derive(Debug)]
pub struct Movie {
    pub id: String,
    pub name: String,
    pub year: u16,
    pub was_good: bool,
}

impl View for Movie {
    type V = MovieView;

    open spec fn view(&self) -> MovieView {
        MovieView { id: self.id@, name: self.name@, year: self.year, was_good: self.was_good }
    }
}

impl Clone for Movie {
    fn clone(&self) -> (r: Self)
        ensures
            r == *self,
    {
        Movie {
            id: self.id.clone(),
            name: self.name.clone(),
            year: self.year,
            was_good: self.was_good,
        }
    }
}

/// The fields a caller supplies when creating a record.
pub struct CreateMovie {
    pub name: String,
    pub year: u16,
    pub was_good: bool,
}

/// A lookup request: the identifier of the record asked for.
pub struct GetMovieInput {
    pub movie_id: String,
}

} // verus!

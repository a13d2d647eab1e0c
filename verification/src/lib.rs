//! An in-memory movie store: records with a generated identifier, created
//! once and immutable afterwards, retrieved by exact identifier match.

mod laws;
mod movie;
mod shared;
mod store;

pub use laws::lemma_create_then_get;
pub use laws::lemma_created_id_fresh;
pub use laws::lemma_created_ids_distinct;
pub use laws::lemma_existing_record_unchanged;
pub use laws::lemma_miss_preserved;
pub use movie::CreateMovie;
pub use movie::GetMovieInput;
pub use movie::Movie;
pub use movie::MovieView;
pub use shared::SharedStore;
pub use store::canonical_uuid;
pub use store::is_lower_hex_digit;
pub use store::IdCollision;
pub use store::MovieStore;
pub use store::NotFound;

//! Identifier codec: the platform uses unsigned 64-bit identifiers, the
//! storage layer signed 64-bit integers. The mapping is a lossless
//! bit-reinterpretation, not a range-checked conversion.
use vstd::prelude::*;

verus! {

/// The signed integer under which the store keeps a platform identifier.
pub open spec fn spec_id_to_db(id: u64) -> i64 {
    id as i64
}

/// The platform identifier that a stored signed integer stands for.
pub open spec fn spec_db_to_id(db: i64) -> u64 {
    db as u64
}

/// Reinterpret a platform identifier as the signed integer the store keeps.
pub fn id_to_db(id: u64) -> (r: i64)
    ensures
        r == spec_id_to_db(id),
        r as u64 == id,
{
    proof {
        assert((id as i64) as u64 == id) by (bit_vector);
    }
    #[verifier::truncate]
    (id as i64)
}

/// Reinterpret a stored signed integer as the platform identifier.
pub fn db_to_id(db: i64) -> (r: u64)
    ensures
        r == spec_db_to_id(db),
        r as i64 == db,
{
    proof {
        assert((db as u64) as i64 == db) by (bit_vector);
    }
    #[verifier::truncate]
    (db as u64)
}

/// Round trip: storing an identifier and reading it back is the identity.
pub proof fn lemma_id_round_trip(id: u64, db: i64)
    ensures
        (id as i64) as u64 == id,
        (db as u64) as i64 == db,
{
    assert((id as i64) as u64 == id) by (bit_vector);
    assert((db as u64) as i64 == db) by (bit_vector);
}

} // verus!

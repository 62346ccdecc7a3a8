//! Reading concerts: a single concert by identifier, and the full
//! listing ordered by date.

use crate::domain::Concert;
use crate::domain::sorted_by_date;
use crate::store::Database;
use crate::store::StorageError;
use crate::store::has_concert_id;
use vstd::prelude::*;

verus! {

/// How reading concerts can fail, with the status each failure maps to.
#[derive(Debug)]
pub enum GetConcertError {
    NotFoundError,
    UnexpectedError(StorageError),
}

impl GetConcertError {
    /// The mapping to response status codes.
    pub fn status_code(&self) -> (code: u16)
        ensures
            self is NotFoundError ==> code == 404,
            self is UnexpectedError ==> code == 500,
    {
        match self {
            GetConcertError::NotFoundError => 404,
            GetConcertError::UnexpectedError(_) => 500,
        }
    }
}

/// One concert by identifier; an unknown identifier is not found.
pub fn get_concert(id: u128, pool: &Database) -> (r: Result<Concert, GetConcertError>)
    ensures
        r is Ok <==> has_concert_id(pool.concerts(), id),
        r matches Ok(concert) ==> concert.id == id && pool.concerts().contains(concert),
        r matches Err(e) ==> e is NotFoundError,
{
    match Concert::find_by_id(id, pool) {
        Some(concert) => Ok(concert),
        None => Err(GetConcertError::NotFoundError),
    }
}

/// All concerts, ordered by date ascending.
pub fn get_concerts(pool: &Database) -> (r: Result<Vec<Concert>, GetConcertError>)
    ensures
        r matches Ok(concerts) && sorted_by_date(concerts@) && concerts@.to_multiset()
            == pool.concerts().to_multiset(),
{
    Ok(Concert::find_all(pool))
}

} // verus!

//! Reading artists: a single artist with their concert listing, and the
//! full roster.

use crate::domain::Artist;
use crate::domain::Concert;
use crate::domain::sorted_by_date;
use crate::store::Database;
use crate::store::StorageError;
use crate::store::has_artist_id;
use vstd::prelude::*;

verus! {

/// How reading artists can fail, with the status each failure maps to.
#[derive(Debug)]
pub enum GetArtistError {
    UnexpectedError(StorageError),
    NotFoundError,
}

impl GetArtistError {
    /// The mapping to response status codes.
    pub fn status_code(&self) -> (code: u16)
        ensures
            self is NotFoundError ==> code == 404,
            self is UnexpectedError ==> code == 500,
    {
        match self {
            GetArtistError::NotFoundError => 404,
            GetArtistError::UnexpectedError(_) => 500,
        }
    }
}

/// The data behind an artist's page: the artist and their concerts,
/// ordered by date ascending. An unknown identifier is not found.
pub fn artist_dashboard(id: u128, pool: &Database) -> (r: Result<
    (Artist, Vec<Concert>),
    GetArtistError,
>)
    requires
        pool.wf(),
    ensures
        r is Ok <==> has_artist_id(pool.artists(), id),
        r matches Ok(page) ==> ({
            &&& page.0.id == id
            &&& pool.artists().contains(page.0)
            &&& sorted_by_date(page.1@)
            &&& page.1@.to_multiset() == pool.concerts().filter(
                |c: Concert| c.artist_id == id,
            ).to_multiset()
        }),
        r matches Err(e) ==> e is NotFoundError,
{
    let artist = match Artist::find_by_id(id, pool) {
        Some(artist) => artist,
        None => {
            return Err(GetArtistError::NotFoundError);
        },
    };
    let concerts = pool.concert_rows_for_artist(id);
    Ok((artist, concerts))
}

/// All artists, in insertion order.
pub fn get_artists(pool: &Database) -> (r: Result<Vec<Artist>, GetArtistError>)
    ensures
        r matches Ok(artists) && artists@ == pool.artists(),
{
    Ok(Artist::find_all(pool))
}

} // verus!

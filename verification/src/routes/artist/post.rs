//! Creating an artist.

use crate::domain::Artist;
use crate::domain::ArtistName;
use crate::domain::NewArtist;
use crate::domain::is_valid_artist_name;
use crate::store::Database;
use crate::store::StorageError;
use crate::store::has_artist_id;
use vstd::prelude::*;

verus! {

/// The raw request payload for creating an artist.
pub struct BodyData {
    pub name: String,
    pub sort_name: String,
    pub disambiguation: String,
}

impl NewArtist {
    /// Validate a raw payload into a command object; the first failing
    /// field aborts the conversion with its message.
    pub fn try_from(value: BodyData) -> (r: Result<NewArtist, String>)
        ensures
            r is Ok <==> is_valid_artist_name(value.name@),
            r matches Ok(cmd) ==> ({
                &&& cmd.name@ == value.name@
                &&& cmd.sort_name@ == value.sort_name@
                &&& cmd.disambiguation@ == value.disambiguation@
            }),
    {
        let BodyData { name, sort_name, disambiguation } = value;
        let name = match ArtistName::parse(name) {
            Ok(name) => name,
            Err(e) => {
                return Err(e);
            },
        };
        Ok(NewArtist { name, sort_name, disambiguation })
    }
}

/// How creating an artist can fail, with the status each failure maps
/// to.
#[derive(Debug)]
pub enum ArtistError {
    ValidationError(String),
    UnexpectedError(StorageError),
}

impl ArtistError {
    /// The mapping to response status codes.
    pub fn status_code(&self) -> (code: u16)
        ensures
            self is ValidationError ==> code == 400,
            self is UnexpectedError ==> code == 500,
    {
        match self {
            ArtistError::ValidationError(_) => 400,
            ArtistError::UnexpectedError(_) => 500,
        }
    }
}

/// Create an artist from a raw payload: validate, insert inside a fresh
/// transaction, commit. A rejected payload, or a write refused by the
/// store, leaves the database untouched.
pub fn create(body: BodyData, pool: &mut Database) -> (r: Result<Artist, ArtistError>)
    requires
        old(pool).wf(),
    ensures
        final(pool).wf(),
        r is Err ==> *final(pool) == *old(pool),
        r matches Err(e) ==> (e is ValidationError <==> !is_valid_artist_name(body.name@)),
        r matches Ok(artist) ==> ({
            &&& is_valid_artist_name(body.name@)
            &&& artist.id != 0
            &&& !has_artist_id(old(pool).artists(), artist.id)
            &&& artist.name@ == body.name@
            &&& artist.sort_name@ == body.sort_name@
            &&& artist.disambiguation@ == body.disambiguation@
            &&& final(pool).artists() == old(pool).artists().push(artist)
            &&& final(pool).concerts() == old(pool).concerts()
        }),
        !is_valid_artist_name(body.name@) ==> r is Err,
{
    let new_artist = match NewArtist::try_from(body) {
        Ok(cmd) => cmd,
        Err(e) => {
            return Err(ArtistError::ValidationError(e));
        },
    };
    let mut transaction = pool.begin();
    let artist = match Artist::insert(&new_artist, &mut transaction) {
        Ok(artist) => artist,
        Err(e) => {
            return Err(ArtistError::UnexpectedError(e));
        },
    };
    transaction.commit(pool);
    Ok(artist)
}

} // verus!

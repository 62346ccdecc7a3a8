//! Updating an artist.

use crate::domain::Artist;
use crate::domain::ArtistName;
use crate::domain::UpdateArtist;
use crate::domain::is_valid_artist_name;
use crate::store::Database;
use crate::store::StorageError;
use crate::store::artist_index_of;
use crate::store::has_artist_id;
use vstd::prelude::*;
use vstd::string::StringExecFns;

verus! {

/// The raw request payload for updating an artist: the body carries the
/// identifier too, and it must match the one in the path.
pub struct BodyData {
    pub id: u128,
    pub name: String,
    pub sort_name: String,
    pub disambiguation: String,
}

impl UpdateArtist {
    /// Validate a raw payload into a command object; the first failing
    /// field aborts the conversion with its message.
    pub fn try_from(value: BodyData) -> (r: Result<UpdateArtist, String>)
        ensures
            r is Ok <==> is_valid_artist_name(value.name@),
            r matches Ok(cmd) ==> ({
                &&& cmd.id == value.id
                &&& cmd.name@ == value.name@
                &&& cmd.sort_name@ == value.sort_name@
                &&& cmd.disambiguation@ == value.disambiguation@
            }),
    {
        let BodyData { id, name, sort_name, disambiguation } = value;
        let name = match ArtistName::parse(name) {
            Ok(name) => name,
            Err(e) => {
                return Err(e);
            },
        };
        Ok(UpdateArtist { id, name, sort_name, disambiguation })
    }
}

/// How updating an artist can fail, with the status each failure maps
/// to.
#[derive(Debug)]
pub enum UpdateArtistError {
    ValidationError(String),
    UnexpectedError(StorageError),
}

impl UpdateArtistError {
    /// The mapping to response status codes.
    pub fn status_code(&self) -> (code: u16)
        ensures
            self is ValidationError ==> code == 400,
            self is UnexpectedError ==> code == 500,
    {
        match self {
            UpdateArtistError::ValidationError(_) => 400,
            UpdateArtistError::UnexpectedError(_) => 500,
        }
    }
}

/// Update an artist from a raw payload: validate, check that the body
/// identifier matches the path identifier, overwrite inside a fresh
/// transaction, commit. Every failure leaves the database untouched.
pub fn update_artist(id: u128, artist: BodyData, pool: &mut Database) -> (r: Result<
    Artist,
    UpdateArtistError,
>)
    requires
        old(pool).wf(),
    ensures
        final(pool).wf(),
        r is Err ==> *final(pool) == *old(pool),
        r matches Err(e) ==> (e is ValidationError <==> !is_valid_artist_name(artist.name@)
            || artist.id != id),
        r is Ok <==> is_valid_artist_name(artist.name@) && artist.id == id && has_artist_id(
            old(pool).artists(),
            id,
        ),
        r matches Ok(updated) ==> ({
            &&& updated.id == id
            &&& updated.name@ == artist.name@
            &&& updated.sort_name@ == artist.sort_name@
            &&& updated.disambiguation@ == artist.disambiguation@
            &&& final(pool).artists() == old(pool).artists().update(
                artist_index_of(old(pool).artists(), id),
                updated,
            )
            &&& final(pool).concerts() == old(pool).concerts()
        }),
{
    let artist = match UpdateArtist::try_from(artist) {
        Ok(cmd) => cmd,
        Err(e) => {
            return Err(UpdateArtistError::ValidationError(e));
        },
    };
    if artist.id != id {
        return Err(UpdateArtistError::ValidationError(
            String::from_str("The artist id in the path does not match the artist id in the body"),
        ));
    }
    let mut transaction = pool.begin();
    let result = match Artist::update(&artist, &mut transaction) {
        Ok(updated) => updated,
        Err(e) => {
            return Err(UpdateArtistError::UnexpectedError(e));
        },
    };
    transaction.commit(pool);
    Ok(result)
}

} // verus!

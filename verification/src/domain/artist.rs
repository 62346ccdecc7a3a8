//! The artist entity and its persistence operations.

use crate::domain::NewArtist;
use crate::domain::UpdateArtist;
use crate::ids::generate_id;
use crate::store::Database;
use crate::store::StorageError;
use crate::store::Transaction;
use crate::store::artist_index_of;
use crate::store::has_artist_id;
use vstd::prelude::*;
use vstd::string::StringExecFns;

verus! {

/// A persisted artist row, a transient projection of the store's
/// canonical record.
#[derive(Debug)]
pub struct Artist {
    pub id: u128,
    pub name: String,
    pub sort_name: String,
    pub disambiguation: String,
}

impl Clone for Artist {
    fn clone(&self) -> (res: Self)
        ensures
            res == *self,
    {
        Artist {
            id: self.id,
            name: self.name.clone(),
            sort_name: self.sort_name.clone(),
            disambiguation: self.disambiguation.clone(),
        }
    }
}

impl Artist {
    /// Find an artist given an artist identifier. Absence is not an
    /// error: a never-used identifier simply finds nothing.
    pub fn find_by_id(id: u128, db: &Database) -> (r: Option<Artist>)
        ensures
            r is Some <==> has_artist_id(db.artists(), id),
            r matches Some(artist) ==> artist.id == id && db.artists().contains(artist),
    {
        db.find_artist_row(id)
    }

    /// All artist rows, in insertion order.
    pub fn find_all(db: &Database) -> (r: Vec<Artist>)
        ensures
            r@ == db.artists(),
    {
        db.artist_rows()
    }

    /// Insert a new artist inside the given transaction. The identifier
    /// is generated here, not by the store; the write fails only if the
    /// generated identifier is already taken.
    pub fn insert(item: &NewArtist, transaction: &mut Transaction) -> (r: Result<
        Artist,
        StorageError,
    >)
        requires
            old(transaction).wf(),
        ensures
            final(transaction).wf(),
            r matches Ok(artist) ==> ({
                &&& artist.id != 0
                &&& !has_artist_id(old(transaction).artists(), artist.id)
                &&& artist.name@ == item.name@
                &&& artist.sort_name@ == item.sort_name@
                &&& artist.disambiguation@ == item.disambiguation@
                &&& final(transaction).artists() == old(transaction).artists().push(artist)
                &&& final(transaction).concerts() == old(transaction).concerts()
            }),
            r is Err ==> *final(transaction) == *old(transaction) && r == Err::<
                Artist,
                StorageError,
            >(StorageError::UniqueViolation),
    {
        let id = generate_id();
        Self::insert_with_id(item, id, transaction)
    }

    /// The decision half of `insert`, for a caller-supplied identifier:
    /// succeeds exactly when the identifier is not in use yet.
    pub fn insert_with_id(item: &NewArtist, id: u128, transaction: &mut Transaction) -> (r: Result<
        Artist,
        StorageError,
    >)
        requires
            old(transaction).wf(),
        ensures
            final(transaction).wf(),
            r is Ok <==> !has_artist_id(old(transaction).artists(), id),
            r matches Ok(artist) ==> ({
                &&& artist.id == id
                &&& artist.name@ == item.name@
                &&& artist.sort_name@ == item.sort_name@
                &&& artist.disambiguation@ == item.disambiguation@
                &&& final(transaction).artists() == old(transaction).artists().push(artist)
                &&& final(transaction).concerts() == old(transaction).concerts()
            }),
            r is Err ==> *final(transaction) == *old(transaction) && r == Err::<
                Artist,
                StorageError,
            >(StorageError::UniqueViolation),
    {
        let row = Artist {
            id,
            name: String::from_str(item.name.as_str()),
            sort_name: item.sort_name.clone(),
            disambiguation: item.disambiguation.clone(),
        };
        let returned = row.clone();
        match transaction.insert_artist_row(row) {
            Ok(()) => Ok(returned),
            Err(e) => Err(e),
        }
    }

    /// Overwrite all mutable fields of the row the command identifies,
    /// inside the given transaction. Fails with a not-found-shaped error
    /// when no row carries the identifier.
    pub fn update(item: &UpdateArtist, transaction: &mut Transaction) -> (r: Result<
        Artist,
        StorageError,
    >)
        requires
            old(transaction).wf(),
        ensures
            final(transaction).wf(),
            r is Ok <==> has_artist_id(old(transaction).artists(), item.id),
            r matches Ok(artist) ==> ({
                &&& artist.id == item.id
                &&& artist.name@ == item.name@
                &&& artist.sort_name@ == item.sort_name@
                &&& artist.disambiguation@ == item.disambiguation@
                &&& final(transaction).artists() == old(transaction).artists().update(
                    artist_index_of(old(transaction).artists(), item.id),
                    artist,
                )
                &&& final(transaction).concerts() == old(transaction).concerts()
            }),
            r is Err ==> *final(transaction) == *old(transaction) && r == Err::<
                Artist,
                StorageError,
            >(StorageError::RowNotFound),
    {
        let row = Artist {
            id: item.id,
            name: String::from_str(item.name.as_str()),
            sort_name: item.sort_name.clone(),
            disambiguation: item.disambiguation.clone(),
        };
        let returned = row.clone();
        match transaction.update_artist_row(row) {
            Ok(()) => Ok(returned),
            Err(e) => Err(e),
        }
    }
}

} // verus!

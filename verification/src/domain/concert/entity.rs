//! The concert entity and its persistence operations.

use crate::domain::DateYmd;
use crate::domain::NewConcert;
use crate::domain::UpdateConcert;
use crate::ids::generate_id;
use crate::store::Database;
use crate::store::StorageError;
use crate::store::Transaction;
use crate::store::concert_index_of;
use crate::store::has_artist_id;
use crate::store::has_concert_id;
use vstd::prelude::*;
use vstd::string::StringExecFns;

verus! {

/// A persisted concert row, a transient projection of the store's
/// canonical record. The state column is nullable in the store, so the
/// row carries an option, though every row written here fills it.
#[derive(Debug)]
pub struct Concert {
    pub id: u128,
    pub artist_id: u128,
    pub venue: String,
    pub city: String,
    pub state: Option<String>,
    pub country: String,
    pub date: DateYmd,
}

/// Date order, the order concert listings come back in.
pub open spec fn date_le(a: DateYmd, b: DateYmd) -> bool {
    if a.year != b.year {
        a.year < b.year
    } else if a.month != b.month {
        a.month < b.month
    } else {
        a.day <= b.day
    }
}

pub fn date_le_of(a: DateYmd, b: DateYmd) -> (r: bool)
    ensures
        r == date_le(a, b),
{
    if a.year != b.year {
        a.year < b.year
    } else if a.month != b.month {
        a.month < b.month
    } else {
        a.day <= b.day
    }
}

pub open spec fn sorted_by_date(s: Seq<Concert>) -> bool {
    forall|i: int, j: int|
        0 <= i < j < s.len() ==> date_le((#[trigger] s[i]).date, (#[trigger] s[j]).date)
}

impl Clone for Concert {
    fn clone(&self) -> (res: Self)
        ensures
            res == *self,
    {
        Concert {
            id: self.id,
            artist_id: self.artist_id,
            venue: self.venue.clone(),
            city: self.city.clone(),
            state: match &self.state {
                Some(s) => Some(s.clone()),
                None => None,
            },
            country: self.country.clone(),
            date: self.date,
        }
    }
}

impl Concert {
    /// Find a concert given its identifier. Absence is not an error: a
    /// never-used identifier simply finds nothing.
    pub fn find_by_id(id: u128, db: &Database) -> (r: Option<Concert>)
        ensures
            r is Some <==> has_concert_id(db.concerts(), id),
            r matches Some(concert) ==> concert.id == id && db.concerts().contains(concert),
    {
        db.find_concert_row(id)
    }

    /// All concert rows, ordered by date ascending.
    pub fn find_all(db: &Database) -> (r: Vec<Concert>)
        ensures
            sorted_by_date(r@),
            r@.to_multiset() == db.concerts().to_multiset(),
    {
        db.concert_rows_by_date()
    }

    /// Insert a new concert inside the given transaction. The identifier
    /// is generated here, not by the store; the store checks that the
    /// referenced artist exists.
    pub fn insert(item: &NewConcert, transaction: &mut Transaction) -> (r: Result<
        Concert,
        StorageError,
    >)
        requires
            old(transaction).wf(),
        ensures
            final(transaction).wf(),
            r matches Ok(concert) ==> ({
                &&& concert.id != 0
                &&& !has_concert_id(old(transaction).concerts(), concert.id)
                &&& concert.artist_id == item.artist_id
                &&& concert.venue@ == item.venue@
                &&& concert.city@ == item.city@
                &&& (concert.state matches Some(state) && state@ == item.state@)
                &&& concert.country@ == item.country@
                &&& concert.date == item.date.spec_date()
                &&& final(transaction).concerts() == old(transaction).concerts().push(concert)
                &&& final(transaction).artists() == old(transaction).artists()
            }),
            r is Err ==> *final(transaction) == *old(transaction),
            !has_artist_id(old(transaction).artists(), item.artist_id) ==> r == Err::<
                Concert,
                StorageError,
            >(StorageError::ForeignKeyViolation),
            r matches Err(e) && e == StorageError::UniqueViolation ==> has_artist_id(
                old(transaction).artists(),
                item.artist_id,
            ),
    {
        let id = generate_id();
        Self::insert_with_id(item, id, transaction)
    }

    /// The decision half of `insert`, for a caller-supplied identifier:
    /// succeeds exactly when the identifier is not in use and the
    /// referenced artist exists.
    pub fn insert_with_id(item: &NewConcert, id: u128, transaction: &mut Transaction) -> (r: Result<
        Concert,
        StorageError,
    >)
        requires
            old(transaction).wf(),
        ensures
            final(transaction).wf(),
            r is Ok <==> !has_concert_id(old(transaction).concerts(), id) && has_artist_id(
                old(transaction).artists(),
                item.artist_id,
            ),
            r matches Ok(concert) ==> ({
                &&& concert.id == id
                &&& concert.artist_id == item.artist_id
                &&& concert.venue@ == item.venue@
                &&& concert.city@ == item.city@
                &&& (concert.state matches Some(state) && state@ == item.state@)
                &&& concert.country@ == item.country@
                &&& concert.date == item.date.spec_date()
                &&& final(transaction).concerts() == old(transaction).concerts().push(concert)
                &&& final(transaction).artists() == old(transaction).artists()
            }),
            r is Err ==> *final(transaction) == *old(transaction),
            !has_artist_id(old(transaction).artists(), item.artist_id) ==> r == Err::<
                Concert,
                StorageError,
            >(StorageError::ForeignKeyViolation),
            has_artist_id(old(transaction).artists(), item.artist_id) && has_concert_id(
                old(transaction).concerts(),
                id,
            ) ==> r == Err::<Concert, StorageError>(StorageError::UniqueViolation),
    {
        let row = Concert {
            id,
            artist_id: item.artist_id,
            venue: String::from_str(item.venue.as_str()),
            city: String::from_str(item.city.as_str()),
            state: Some(String::from_str(item.state.as_str())),
            country: String::from_str(item.country.as_str()),
            date: item.date.date(),
        };
        let returned = row.clone();
        match transaction.insert_concert_row(row) {
            Ok(()) => Ok(returned),
            Err(e) => Err(e),
        }
    }

    /// Overwrite all mutable fields of the row the command identifies,
    /// inside the given transaction. Fails with a not-found-shaped error
    /// when no row carries the identifier, and with a constraint error
    /// when the new artist reference does not exist.
    pub fn update(item: &UpdateConcert, transaction: &mut Transaction) -> (r: Result<
        Concert,
        StorageError,
    >)
        requires
            old(transaction).wf(),
        ensures
            final(transaction).wf(),
            r is Ok <==> has_concert_id(old(transaction).concerts(), item.id) && has_artist_id(
                old(transaction).artists(),
                item.artist_id,
            ),
            r matches Ok(concert) ==> ({
                &&& concert.id == item.id
                &&& concert.artist_id == item.artist_id
                &&& concert.venue@ == item.venue@
                &&& concert.city@ == item.city@
                &&& (concert.state matches Some(state) && state@ == item.state@)
                &&& concert.country@ == item.country@
                &&& concert.date == item.date.spec_date()
                &&& final(transaction).concerts() == old(transaction).concerts().update(
                    concert_index_of(old(transaction).concerts(), item.id),
                    concert,
                )
                &&& final(transaction).artists() == old(transaction).artists()
            }),
            r is Err ==> *final(transaction) == *old(transaction),
            !has_concert_id(old(transaction).concerts(), item.id) ==> r == Err::<
                Concert,
                StorageError,
            >(StorageError::RowNotFound),
            has_concert_id(old(transaction).concerts(), item.id) && !has_artist_id(
                old(transaction).artists(),
                item.artist_id,
            ) ==> r == Err::<Concert, StorageError>(StorageError::ForeignKeyViolation),
    {
        let row = Concert {
            id: item.id,
            artist_id: item.artist_id,
            venue: String::from_str(item.venue.as_str()),
            city: String::from_str(item.city.as_str()),
            state: Some(String::from_str(item.state.as_str())),
            country: String::from_str(item.country.as_str()),
            date: item.date.date(),
        };
        let returned = row.clone();
        match transaction.update_concert_row(row) {
            Ok(()) => Ok(returned),
            Err(e) => Err(e),
        }
    }
}

} // verus!

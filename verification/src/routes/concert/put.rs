//! Updating a concert.

use crate::domain::Concert;
use crate::domain::ConcertCity;
use crate::domain::ConcertCountry;
use crate::domain::ConcertDate;
use crate::domain::ConcertState;
use crate::domain::ConcertVenue;
use crate::domain::UpdateConcert;
use crate::domain::date_of_chars;
use crate::domain::is_valid_concert_city;
use crate::domain::is_valid_concert_country;
use crate::domain::is_valid_concert_state;
use crate::domain::is_valid_concert_venue;
use crate::domain::is_valid_date_string;
use crate::store::Database;
use crate::store::StorageError;
use crate::store::concert_index_of;
use crate::store::has_artist_id;
use crate::store::has_concert_id;
use vstd::prelude::*;
use vstd::string::StringExecFns;

verus! {

/// The raw request payload for updating a concert: the body carries the
/// identifier too, and it must match the one in the path.
pub struct UpdateConcertRequest {
    pub id: u128,
    pub artist_id: u128,
    pub venue: String,
    pub city: String,
    pub state: String,
    pub date: String,
    pub country: String,
}

/// Whether every structured field of the payload passes its value
/// type's validation.
pub open spec fn is_valid_update_concert_request(value: UpdateConcertRequest) -> bool {
    &&& is_valid_concert_venue(value.venue@)
    &&& is_valid_concert_city(value.city@)
    &&& is_valid_concert_state(value.state@)
    &&& is_valid_concert_country(value.country@)
    &&& is_valid_date_string(value.date@)
}

impl UpdateConcert {
    /// Validate a raw payload into a command object; the first failing
    /// field aborts the conversion with its message.
    pub fn try_from(request: UpdateConcertRequest) -> (r: Result<UpdateConcert, String>)
        ensures
            r is Ok <==> is_valid_update_concert_request(request),
            r matches Ok(cmd) ==> ({
                &&& cmd.id == request.id
                &&& cmd.artist_id == request.artist_id
                &&& cmd.venue@ == request.venue@
                &&& cmd.city@ == request.city@
                &&& cmd.state@ == request.state@
                &&& cmd.country@ == request.country@
                &&& cmd.date@ == request.date@
                &&& cmd.date.spec_date() == date_of_chars(request.date@)
            }),
    {
        let UpdateConcertRequest { id, artist_id, venue, city, state, date, country } = request;
        let venue = match ConcertVenue::parse(venue) {
            Ok(venue) => venue,
            Err(e) => {
                return Err(e);
            },
        };
        let city = match ConcertCity::parse(city) {
            Ok(city) => city,
            Err(e) => {
                return Err(e);
            },
        };
        let state = match ConcertState::parse(state) {
            Ok(state) => state,
            Err(e) => {
                return Err(e);
            },
        };
        let date = match ConcertDate::parse(date) {
            Ok(date) => date,
            Err(e) => {
                return Err(e);
            },
        };
        let country = match ConcertCountry::parse(country) {
            Ok(country) => country,
            Err(e) => {
                return Err(e);
            },
        };
        Ok(UpdateConcert { id, artist_id, venue, city, state, date, country })
    }
}

/// How updating a concert can fail, with the status each failure maps
/// to.
#[derive(Debug)]
pub enum UpdateConcertError {
    ValidationError(String),
    Unexpected(StorageError),
}

impl UpdateConcertError {
    /// The mapping to response status codes.
    pub fn status_code(&self) -> (code: u16)
        ensures
            self is ValidationError ==> code == 400,
            self is Unexpected ==> code == 500,
    {
        match self {
            UpdateConcertError::ValidationError(_) => 400,
            UpdateConcertError::Unexpected(_) => 500,
        }
    }
}

/// Update a concert from a raw payload: validate every field, check
/// that the body identifier matches the path identifier, overwrite
/// inside a fresh transaction, commit. Every failure leaves the
/// database untouched; in particular a mismatched identifier mutates no
/// row.
pub fn update_concert(id: u128, item: UpdateConcertRequest, pool: &mut Database) -> (r: Result<
    Concert,
    UpdateConcertError,
>)
    requires
        old(pool).wf(),
    ensures
        final(pool).wf(),
        r is Err ==> *final(pool) == *old(pool),
        r matches Err(e) ==> (e is ValidationError <==> !is_valid_update_concert_request(item)
            || item.id != id),
        r is Ok <==> is_valid_update_concert_request(item) && item.id == id && has_concert_id(
            old(pool).concerts(),
            id,
        ) && has_artist_id(old(pool).artists(), item.artist_id),
        r matches Ok(updated) ==> ({
            &&& updated.id == id
            &&& updated.artist_id == item.artist_id
            &&& updated.venue@ == item.venue@
            &&& updated.city@ == item.city@
            &&& (updated.state matches Some(state) && state@ == item.state@)
            &&& updated.country@ == item.country@
            &&& updated.date == date_of_chars(item.date@)
            &&& final(pool).concerts() == old(pool).concerts().update(
                concert_index_of(old(pool).concerts(), id),
                updated,
            )
            &&& final(pool).artists() == old(pool).artists()
        }),
{
    let concert = match UpdateConcert::try_from(item) {
        Ok(cmd) => cmd,
        Err(e) => {
            return Err(UpdateConcertError::ValidationError(e));
        },
    };
    if concert.id != id {
        return Err(UpdateConcertError::ValidationError(
            String::from_str("The object id does not match the id in the URL"),
        ));
    }
    let mut transaction = pool.begin();
    let result = match Concert::update(&concert, &mut transaction) {
        Ok(updated) => updated,
        Err(e) => {
            return Err(UpdateConcertError::Unexpected(e));
        },
    };
    transaction.commit(pool);
    Ok(result)
}

} // verus!

//! Creating a concert.

use crate::domain::Concert;
use crate::domain::ConcertCity;
use crate::domain::ConcertCountry;
use crate::domain::ConcertDate;
use crate::domain::ConcertState;
use crate::domain::ConcertVenue;
use crate::domain::NewConcert;
use crate::domain::date_of_chars;
use crate::domain::is_valid_concert_city;
use crate::domain::is_valid_concert_country;
use crate::domain::is_valid_concert_state;
use crate::domain::is_valid_concert_venue;
use crate::domain::is_valid_date_string;
use crate::store::Database;
use crate::store::StorageError;
use crate::store::has_artist_id;
use crate::store::has_concert_id;
use vstd::prelude::*;

verus! {

/// The raw request payload for creating a concert.
pub struct CreateConcertRequest {
    pub artist_id: u128,
    pub venue: String,
    pub city: String,
    pub state: String,
    pub country: String,
    pub date: String,
}

/// Whether every structured field of the payload passes its value
/// type's validation.
pub open spec fn is_valid_create_concert_request(value: CreateConcertRequest) -> bool {
    &&& is_valid_concert_venue(value.venue@)
    &&& is_valid_concert_city(value.city@)
    &&& is_valid_concert_state(value.state@)
    &&& is_valid_concert_country(value.country@)
    &&& is_valid_date_string(value.date@)
}

impl NewConcert {
    /// Validate a raw payload into a command object; the first failing
    /// field aborts the conversion with its message.
    pub fn try_from(value: CreateConcertRequest) -> (r: Result<NewConcert, String>)
        ensures
            r is Ok <==> is_valid_create_concert_request(value),
            r matches Ok(cmd) ==> ({
                &&& cmd.artist_id == value.artist_id
                &&& cmd.venue@ == value.venue@
                &&& cmd.city@ == value.city@
                &&& cmd.state@ == value.state@
                &&& cmd.country@ == value.country@
                &&& cmd.date@ == value.date@
                &&& cmd.date.spec_date() == date_of_chars(value.date@)
            }),
    {
        let CreateConcertRequest { artist_id, venue, city, state, country, date } = value;
        let venue = match ConcertVenue::parse(venue) {
            Ok(venue) => venue,
            Err(e) => {
                return Err(e);
            },
        };
        let city = match ConcertCity::parse(city) {
            Ok(city) => city,
            Err(e) => {
                return Err(e);
            },
        };
        let state = match ConcertState::parse(state) {
            Ok(state) => state,
            Err(e) => {
                return Err(e);
            },
        };
        let country = match ConcertCountry::parse(country) {
            Ok(country) => country,
            Err(e) => {
                return Err(e);
            },
        };
        let date = match ConcertDate::parse(date) {
            Ok(date) => date,
            Err(e) => {
                return Err(e);
            },
        };
        Ok(NewConcert { artist_id, venue, city, state, country, date })
    }
}

/// How creating a concert can fail, with the status each failure maps
/// to.
#[derive(Debug)]
pub enum CreateConcertError {
    UnexpectedError(StorageError),
    ValidationError(String),
}

impl CreateConcertError {
    /// The mapping to response status codes.
    pub fn status_code(&self) -> (code: u16)
        ensures
            self is ValidationError ==> code == 400,
            self is UnexpectedError ==> code == 500,
    {
        match self {
            CreateConcertError::UnexpectedError(_) => 500,
            CreateConcertError::ValidationError(_) => 400,
        }
    }
}

/// Create a concert from a raw payload: validate every field, insert
/// inside a fresh transaction, commit. A rejected payload, an unknown
/// artist reference, or a write refused by the store leaves the
/// database untouched.
pub fn create_concert(body: CreateConcertRequest, pool: &mut Database) -> (r: Result<
    Concert,
    CreateConcertError,
>)
    requires
        old(pool).wf(),
    ensures
        final(pool).wf(),
        r is Err ==> *final(pool) == *old(pool),
        r matches Err(e) ==> (e is ValidationError <==> !is_valid_create_concert_request(body)),
        r matches Ok(concert) ==> ({
            &&& is_valid_create_concert_request(body)
            &&& concert.id != 0
            &&& !has_concert_id(old(pool).concerts(), concert.id)
            &&& concert.artist_id == body.artist_id
            &&& concert.venue@ == body.venue@
            &&& concert.city@ == body.city@
            &&& (concert.state matches Some(state) && state@ == body.state@)
            &&& concert.country@ == body.country@
            &&& concert.date == date_of_chars(body.date@)
            &&& final(pool).concerts() == old(pool).concerts().push(concert)
            &&& final(pool).artists() == old(pool).artists()
        }),
        is_valid_create_concert_request(body) && !has_artist_id(
            old(pool).artists(),
            body.artist_id,
        ) ==> r == Err::<Concert, CreateConcertError>(
            CreateConcertError::UnexpectedError(StorageError::ForeignKeyViolation),
        ),
{
    let new_concert = match NewConcert::try_from(body) {
        Ok(cmd) => cmd,
        Err(e) => {
            return Err(CreateConcertError::ValidationError(e));
        },
    };
    let mut transaction = pool.begin();
    let concert = match Concert::insert(&new_concert, &mut transaction) {
        Ok(concert) => concert,
        Err(e) => {
            return Err(CreateConcertError::UnexpectedError(e));
        },
    };
    transaction.commit(pool);
    Ok(concert)
}

} // verus!

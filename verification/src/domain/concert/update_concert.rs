//! Command object for overwriting an existing concert.

use crate::domain::ConcertCity;
use crate::domain::ConcertCountry;
use crate::domain::ConcertDate;
use crate::domain::ConcertState;
use crate::domain::ConcertVenue;
use vstd::prelude::*;

verus! {

/// A concert to be updated: the identifier of the existing row together
/// with the new field values, all validated.
pub struct UpdateConcert {
    pub id: u128,
    pub artist_id: u128,
    pub venue: ConcertVenue,
    pub city: ConcertCity,
    pub state: ConcertState,
    pub date: ConcertDate,
    pub country: ConcertCountry,
}

} // verus!

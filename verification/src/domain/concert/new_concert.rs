//! Command object for creating a concert.

use crate::domain::ConcertCity;
use crate::domain::ConcertCountry;
use crate::domain::ConcertDate;
use crate::domain::ConcertState;
use crate::domain::ConcertVenue;
use vstd::prelude::*;

verus! {

/// A concert to be created: validated value types throughout, plus the
/// identifier of the artist it belongs to. The store assigns the
/// concert's own identifier at insert time and checks the artist
/// reference.
pub struct NewConcert {
    pub artist_id: u128,
    pub venue: ConcertVenue,
    pub city: ConcertCity,
    pub state: ConcertState,
    pub country: ConcertCountry,
    pub date: ConcertDate,
}

} // verus!

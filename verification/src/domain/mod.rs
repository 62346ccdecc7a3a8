//! The domain layer: validated value types, command objects, and the
//! entity operations that run against the store.

mod artist;
mod artist_name;
mod concert;
mod new_artist;
mod update_artist;

pub use artist::Artist;
pub use artist_name::ArtistName;
pub use artist_name::is_valid_artist_name;
pub use concert::ConcertCity;
pub use concert::ConcertDate;
pub use concert::DateYmd;
pub use concert::date_chars_of;
pub use concert::date_of_chars;
pub use concert::days_in_month;
pub use concert::is_date_shaped;
pub use concert::is_digit_char;
pub use concert::digit_value;
pub use concert::digit_char;
pub use concert::is_leap_year;
pub use concert::is_valid_date_string;
pub use concert::lemma_date_round_trip;
pub use concert::lemma_date_string_round_trip;
pub use concert::ConcertCountry;
pub use concert::ConcertState;
pub use concert::ConcertVenue;
pub use concert::is_valid_concert_city;
pub use concert::is_valid_concert_country;
pub use concert::is_valid_concert_state;
pub use concert::is_valid_concert_venue;
pub use concert::Concert;
pub use concert::NewConcert;
pub use concert::UpdateConcert;
pub use concert::date_le;
pub use concert::date_le_of;
pub use concert::sorted_by_date;
pub use new_artist::NewArtist;
pub use update_artist::UpdateArtist;

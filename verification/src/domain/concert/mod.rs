//! Concert value types, command objects and the concert entity.

mod concert_city;
mod entity;
mod new_concert;
mod update_concert;
mod concert_country;
mod concert_date;
mod concert_state;
mod concert_venue;

pub use concert_city::ConcertCity;
pub use entity::Concert;
pub use entity::date_le;
pub use entity::date_le_of;
pub use entity::sorted_by_date;
pub use new_concert::NewConcert;
pub use update_concert::UpdateConcert;
pub use concert_date::ConcertDate;
pub use concert_date::DateYmd;
pub use concert_date::date_chars_of;
pub use concert_date::date_of_chars;
pub use concert_date::days_in_month;
pub use concert_date::is_date_shaped;
pub use concert_date::is_digit_char;
pub use concert_date::digit_value;
pub use concert_date::digit_char;
pub use concert_date::is_leap_year;
pub use concert_date::is_valid_date_string;
pub use concert_date::lemma_date_round_trip;
pub use concert_date::lemma_date_string_round_trip;
pub use concert_city::is_valid_concert_city;
pub use concert_country::ConcertCountry;
pub use concert_country::is_valid_concert_country;
pub use concert_state::ConcertState;
pub use concert_state::is_valid_concert_state;
pub use concert_venue::ConcertVenue;
pub use concert_venue::is_valid_concert_venue;

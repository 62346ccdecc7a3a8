//! The request-handling layer: adapters from raw payloads to command
//! objects, the per-route error types with their status-code mapping,
//! and the orchestration of each write as validate, execute, commit.

pub mod artist;
pub mod concert;

pub use artist::ArtistError;
pub use artist::GetArtistError;
pub use artist::UpdateArtistError;
pub use artist::artist_dashboard;
pub use artist::create;
pub use artist::get_artists;
pub use artist::update_artist;
pub use concert::CreateConcertError;
pub use concert::CreateConcertRequest;
pub use concert::GetConcertError;
pub use concert::UpdateConcertError;
pub use concert::UpdateConcertRequest;
pub use concert::create_concert;
pub use concert::get_concert;
pub use concert::get_concerts;
pub use concert::is_valid_create_concert_request;
pub use concert::is_valid_update_concert_request;
pub use concert::update_concert;

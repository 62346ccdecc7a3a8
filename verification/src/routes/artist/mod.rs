//! Artist routes: create, update, and the read-side views.

pub mod get;
pub mod post;
pub mod put;

pub use get::GetArtistError;
pub use get::artist_dashboard;
pub use get::get_artists;
pub use post::ArtistError;
pub use post::create;
pub use put::UpdateArtistError;
pub use put::update_artist;

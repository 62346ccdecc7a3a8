//! Concert routes: create, update, and the read-side views.

pub mod get;
pub mod post;
pub mod put;

pub use get::GetConcertError;
pub use get::get_concert;
pub use get::get_concerts;
pub use post::CreateConcertError;
pub use post::CreateConcertRequest;
pub use post::create_concert;
pub use post::is_valid_create_concert_request;
pub use put::UpdateConcertError;
pub use put::UpdateConcertRequest;
pub use put::is_valid_update_concert_request;
pub use put::update_concert;

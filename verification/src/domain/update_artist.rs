//! Command object for overwriting an existing artist.

use crate::domain::ArtistName;
use vstd::prelude::*;

verus! {

/// An artist to be updated: the identifier of the existing row together
/// with the new field values.
pub struct UpdateArtist {
    pub id: u128,
    pub name: ArtistName,
    pub sort_name: String,
    pub disambiguation: String,
}

} // verus!

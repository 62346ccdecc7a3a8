//! Command object for creating an artist.

use crate::domain::ArtistName;
use vstd::prelude::*;

verus! {

/// An artist to be created: a validated name, plus the raw sort name and
/// disambiguation, which carry no constraints. The store assigns the
/// identifier at insert time.
pub struct NewArtist {
    pub name: ArtistName,
    pub sort_name: String,
    pub disambiguation: String,
}

} // verus!

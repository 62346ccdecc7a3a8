//! The validated concert venue.

use crate::text::all_whitespace;
use crate::text::contains_forbidden_text_char;
use crate::text::count_graphemes;
use crate::text::grapheme_count;
use crate::text::has_forbidden_text_char;
use crate::text::is_blank;
use vstd::prelude::*;
use vstd::string::StringExecFns;

verus! {

/// A venue is accepted when it is non-empty after trimming, at most 256
/// grapheme clusters long, and free of the forbidden characters.
pub open spec fn is_valid_concert_venue(s: Seq<char>) -> bool {
    &&& !all_whitespace(s)
    &&& grapheme_count(s) <= 256
    &&& !contains_forbidden_text_char(s)
}

/// The venue a concert takes place at. There is no other constructor than
/// `parse`, so every value in circulation satisfies
/// `is_valid_concert_venue`.
#[derive(Debug)]
pub struct ConcertVenue(String);

impl View for ConcertVenue {
    type V = Seq<char>;

    closed spec fn view(&self) -> Seq<char> {
        self.0@
    }
}

impl ConcertVenue {
    #[verifier::type_invariant]
    spec fn inv(self) -> bool {
        is_valid_concert_venue(self.0@)
    }

    pub fn parse(s: String) -> (r: Result<ConcertVenue, String>)
        ensures
            r is Ok <==> is_valid_concert_venue(s@),
            r matches Ok(venue) ==> venue@ == s@,
    {
        let is_empty_or_whitespace = is_blank(s.as_str());
        let is_too_long = count_graphemes(s.as_str()) > 256;
        let contains_forbidden_characters = has_forbidden_text_char(s.as_str());

        if is_empty_or_whitespace || is_too_long || contains_forbidden_characters {
            Err(s.concat(" is not a valid venue"))
        } else {
            Ok(ConcertVenue(s))
        }
    }

    pub fn as_str(&self) -> (r: &str)
        ensures
            r@ == self@,
            is_valid_concert_venue(self@),
    {
        proof {
            use_type_invariant(self);
        }
        self.0.as_str()
    }
}

} // verus!

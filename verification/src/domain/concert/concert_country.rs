//! The validated concert country, held to a broader forbidden-symbol set
//! than the other text fields.

use crate::text::all_whitespace;
use crate::text::contains_forbidden_country_char;
use crate::text::count_graphemes;
use crate::text::grapheme_count;
use crate::text::has_forbidden_country_char;
use crate::text::is_blank;
use vstd::prelude::*;
use vstd::string::StringExecFns;

verus! {

/// A country is accepted when it is non-empty after trimming, at most 256
/// grapheme clusters long, and free of the broader symbol set.
pub open spec fn is_valid_concert_country(s: Seq<char>) -> bool {
    &&& !all_whitespace(s)
    &&& grapheme_count(s) <= 256
    &&& !contains_forbidden_country_char(s)
}

/// The country a concert takes place in. There is no other constructor
/// than `parse`, so every value in circulation satisfies
/// `is_valid_concert_country`.
#[derive(Debug)]
pub struct ConcertCountry(String);

impl View for ConcertCountry {
    type V = Seq<char>;

    closed spec fn view(&self) -> Seq<char> {
        self.0@
    }
}

impl ConcertCountry {
    #[verifier::type_invariant]
    spec fn inv(self) -> bool {
        is_valid_concert_country(self.0@)
    }

    pub fn parse(s: String) -> (r: Result<ConcertCountry, String>)
        ensures
            r is Ok <==> is_valid_concert_country(s@),
            r matches Ok(country) ==> country@ == s@,
    {
        let is_empty_or_whitespace = is_blank(s.as_str());
        let is_too_long = count_graphemes(s.as_str()) > 256;
        let contains_forbidden_characters = has_forbidden_country_char(s.as_str());

        if is_empty_or_whitespace || is_too_long || contains_forbidden_characters {
            return Err(s.concat(" is not a valid country"));
        }
        Ok(ConcertCountry(s))
    }

    pub fn as_str(&self) -> (r: &str)
        ensures
            r@ == self@,
            is_valid_concert_country(self@),
    {
        proof {
            use_type_invariant(self);
        }
        self.0.as_str()
    }
}

} // verus!

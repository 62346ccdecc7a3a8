//! Properties that cut across the value types.

use crate::domain::Artist;
use crate::domain::Concert;
use crate::domain::is_date_shaped;
use crate::domain::is_digit_char;
use crate::domain::is_valid_artist_name;
use crate::domain::is_valid_concert_city;
use crate::domain::is_valid_concert_country;
use crate::domain::is_valid_concert_state;
use crate::domain::is_valid_concert_venue;
use crate::domain::is_valid_date_string;
use crate::store::artist_ids_unique;
use crate::store::concert_ids_unique;
use crate::text::all_whitespace;
use crate::text::is_forbidden_country_char;
use crate::text::is_forbidden_text_char;
use crate::text::is_whitespace_char;
use vstd::prelude::*;

verus! {

/// Empty and whitespace-only strings are rejected by every value type:
/// by the five text fields because trimming them leaves nothing, and by
/// the date because no whitespace character is a digit.
pub proof fn lemma_blank_rejected_everywhere(s: Seq<char>)
    requires
        all_whitespace(s),
    ensures
        !is_valid_artist_name(s),
        !is_valid_concert_venue(s),
        !is_valid_concert_city(s),
        !is_valid_concert_state(s),
        !is_valid_concert_country(s),
        !is_valid_date_string(s),
{
    if is_date_shaped(s) {
        assert(is_whitespace_char(s[0]));
        assert(is_digit_char(s[0]));
        assert(false);
    }
}

/// The symbol set the country field rejects strictly contains the set
/// the other text fields reject: everything forbidden elsewhere is
/// forbidden in a country, while `%`, `!` and `'` are forbidden only
/// there.
pub proof fn lemma_country_set_broader()
    ensures
        forall|c: char| is_forbidden_text_char(c) ==> is_forbidden_country_char(c),
        is_forbidden_country_char('%') && !is_forbidden_text_char('%'),
        is_forbidden_country_char('!') && !is_forbidden_text_char('!'),
        is_forbidden_country_char('\'') && !is_forbidden_text_char('\''),
{
}

/// A string containing any character of the country field's forbidden
/// set is rejected as a country.
pub proof fn lemma_country_rejects_symbol(s: Seq<char>, i: int)
    requires
        0 <= i < s.len(),
        is_forbidden_country_char(s[i]),
    ensures
        !is_valid_concert_country(s),
{
}

/// With unique identifiers there is one artist row per identifier, so a
/// row just written and a row a later lookup returns, carrying the same
/// identifier, are the same row: writes are visible to reads.
pub proof fn lemma_artist_id_pins_row(rows: Seq<Artist>, a: Artist, b: Artist)
    requires
        artist_ids_unique(rows),
        rows.contains(a),
        rows.contains(b),
        a.id == b.id,
    ensures
        a == b,
{
    let i = choose|i: int| 0 <= i < rows.len() && rows[i] == a;
    let j = choose|j: int| 0 <= j < rows.len() && rows[j] == b;
    if i != j {
        assert(rows[i].id != rows[j].id);
    }
}

/// With unique identifiers there is one concert row per identifier, so a
/// row just written and a row a later lookup returns, carrying the same
/// identifier, are the same row: writes are visible to reads.
pub proof fn lemma_concert_id_pins_row(rows: Seq<Concert>, a: Concert, b: Concert)
    requires
        concert_ids_unique(rows),
        rows.contains(a),
        rows.contains(b),
        a.id == b.id,
    ensures
        a == b,
{
    let i = choose|i: int| 0 <= i < rows.len() && rows[i] == a;
    let j = choose|j: int| 0 <= j < rows.len() && rows[j] == b;
    if i != j {
        assert(rows[i].id != rows[j].id);
    }
}

} // verus!

use allbands::domain::ConcertCity;
use allbands::domain::ConcertCountry;
use allbands::domain::ConcertDate;
use allbands::domain::ConcertState;
use allbands::domain::ConcertVenue;
use allbands::domain::DateYmd;

#[test]
fn venue_accepts_ordinary_text() {
    let venue = ConcertVenue::parse("The Fillmore".to_string()).unwrap();
    assert_eq!(venue.as_str(), "The Fillmore");
}

#[test]
fn venue_rejects_forbidden_characters() {
    for venue in ["a/b", "a(b", "a)b", "a\"b", "a<b", "a>b", "a{b", "a}b", "a\\b"] {
        assert!(ConcertVenue::parse(venue.to_string()).is_err());
    }
}

#[test]
fn venue_rejects_blank_strings() {
    assert!(ConcertVenue::parse("".to_string()).is_err());
    assert!(ConcertVenue::parse(" \t ".to_string()).is_err());
}

#[test]
fn venue_length_bound_is_256_graphemes() {
    assert!(ConcertVenue::parse("å".repeat(256)).is_ok());
    assert!(ConcertVenue::parse("a".repeat(257)).is_err());
}

#[test]
fn city_accepts_ordinary_text() {
    let city = ConcertCity::parse("San Francisco".to_string()).unwrap();
    assert_eq!(city.as_str(), "San Francisco");
}

#[test]
fn city_rejects_blank_and_forbidden() {
    assert!(ConcertCity::parse("".to_string()).is_err());
    assert!(ConcertCity::parse("   ".to_string()).is_err());
    assert!(ConcertCity::parse("San<Francisco".to_string()).is_err());
}

#[test]
fn state_accepts_two_graphemes_at_most() {
    assert!(ConcertState::parse("CA".to_string()).is_ok());
    assert!(ConcertState::parse("C".to_string()).is_ok());
    assert!(ConcertState::parse("åå".to_string()).is_ok());
    assert!(ConcertState::parse("CAL".to_string()).is_err());
    assert!(ConcertState::parse("aaa".to_string()).is_err());
}

#[test]
fn state_rejects_blank_and_forbidden() {
    assert!(ConcertState::parse(" ".to_string()).is_err());
    assert!(ConcertState::parse("C/".to_string()).is_err());
}

#[test]
fn country_accepts_ordinary_text() {
    let country = ConcertCountry::parse("USA".to_string()).unwrap();
    assert_eq!(country.as_str(), "USA");
}

#[test]
fn country_rejects_broader_symbol_set() {
    // These pass the other text fields but fail the country field.
    for country in ["100% USA", "USA!", "O'Land", "U#A", "U,A", "U;A", "U:A", "U?A", "U~A"] {
        assert!(ConcertCountry::parse(country.to_string()).is_err());
    }
    assert!(ConcertVenue::parse("100% USA".to_string()).is_ok());
    assert!(ConcertVenue::parse("USA!".to_string()).is_ok());
    assert!(ConcertVenue::parse("O'Land".to_string()).is_ok());
}

#[test]
fn country_rejects_blank_and_common_forbidden() {
    assert!(ConcertCountry::parse("".to_string()).is_err());
    assert!(ConcertCountry::parse("  ".to_string()).is_err());
    assert!(ConcertCountry::parse("U<A".to_string()).is_err());
    assert!(ConcertCountry::parse("U\\A".to_string()).is_err());
}

#[test]
fn country_length_bound_is_256_graphemes() {
    assert!(ConcertCountry::parse("å".repeat(256)).is_ok());
    assert!(ConcertCountry::parse("a".repeat(257)).is_err());
}

#[test]
fn date_parses_and_round_trips() {
    let date = ConcertDate::parse("2021-07-17".to_string()).unwrap();
    assert_eq!(date.date(), DateYmd { year: 2021, month: 7, day: 17 });
    assert_eq!(date.as_str(), "2021-07-17");
}

#[test]
fn impossible_dates_are_rejected() {
    assert!(ConcertDate::parse("2021-13-40".to_string()).is_err());
    assert!(ConcertDate::parse("2021-00-10".to_string()).is_err());
    assert!(ConcertDate::parse("2021-04-31".to_string()).is_err());
    assert!(ConcertDate::parse("2021-01-00".to_string()).is_err());
}

#[test]
fn malformed_date_strings_are_rejected() {
    for date in ["", " ", "2021-7-17", "21-07-17", "2021/07/17", "2021-07-17 ", "abcd-ef-gh"] {
        assert!(ConcertDate::parse(date.to_string()).is_err());
    }
}

#[test]
fn leap_years_follow_the_gregorian_rule() {
    assert!(ConcertDate::parse("2020-02-29".to_string()).is_ok());
    assert!(ConcertDate::parse("2000-02-29".to_string()).is_ok());
    assert!(ConcertDate::parse("2021-02-29".to_string()).is_err());
    assert!(ConcertDate::parse("1900-02-29".to_string()).is_err());
    assert!(ConcertDate::parse("2021-02-28".to_string()).is_ok());
}

#[test]
fn month_lengths_are_enforced() {
    assert!(ConcertDate::parse("2021-01-31".to_string()).is_ok());
    assert!(ConcertDate::parse("2021-06-30".to_string()).is_ok());
    assert!(ConcertDate::parse("2021-06-31".to_string()).is_err());
    assert!(ConcertDate::parse("2021-12-31".to_string()).is_ok());
}

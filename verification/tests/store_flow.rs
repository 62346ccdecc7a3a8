use allbands::domain::Artist;
use allbands::domain::Concert;
use allbands::domain::DateYmd;
use allbands::routes::ArtistError;
use allbands::routes::CreateConcertError;
use allbands::routes::CreateConcertRequest;
use allbands::routes::UpdateConcertError;
use allbands::routes::UpdateConcertRequest;
use allbands::routes::artist::post::BodyData;
use allbands::routes::artist::put::BodyData as UpdateBodyData;
use allbands::routes::artist_dashboard;
use allbands::routes::create;
use allbands::routes::create_concert;
use allbands::routes::get_artists;
use allbands::routes::get_concert;
use allbands::routes::get_concerts;
use allbands::routes::update_artist;
use allbands::routes::update_concert;
use allbands::store::Database;
use allbands::store::StorageError;

fn billy() -> BodyData {
    BodyData {
        name: "Billy Strings".to_string(),
        sort_name: "Strings, Billy".to_string(),
        disambiguation: "Bluegrass".to_string(),
    }
}

fn fillmore(artist_id: u128) -> CreateConcertRequest {
    CreateConcertRequest {
        artist_id,
        venue: "The Fillmore".to_string(),
        city: "San Francisco".to_string(),
        state: "CA".to_string(),
        country: "USA".to_string(),
        date: "2021-07-17".to_string(),
    }
}

#[test]
fn creating_an_artist_echoes_the_fields_and_assigns_an_id() {
    let mut db = Database::new();
    let artist = create(billy(), &mut db).unwrap();
    assert_ne!(artist.id, 0);
    assert_eq!(artist.name, "Billy Strings");
    assert_eq!(artist.sort_name, "Strings, Billy");
    assert_eq!(artist.disambiguation, "Bluegrass");

    let found = Artist::find_by_id(artist.id, &db).unwrap();
    assert_eq!(found.id, artist.id);
    assert_eq!(found.name, "Billy Strings");
}

#[test]
fn creating_an_artist_with_an_invalid_name_is_a_400() {
    let mut db = Database::new();
    let body = BodyData {
        name: "Billy <Strings>".to_string(),
        sort_name: "Strings, Billy".to_string(),
        disambiguation: "Bluegrass".to_string(),
    };
    let err = create(body, &mut db).unwrap_err();
    assert!(matches!(err, ArtistError::ValidationError(_)));
    assert_eq!(err.status_code(), 400);
    assert!(get_artists(&db).unwrap().is_empty());
}

#[test]
fn two_created_artists_get_distinct_ids() {
    let mut db = Database::new();
    let first = create(billy(), &mut db).unwrap();
    let second = create(billy(), &mut db).unwrap();
    assert_ne!(first.id, second.id);
    assert_eq!(get_artists(&db).unwrap().len(), 2);
}

#[test]
fn updating_an_artist_overwrites_its_fields() {
    let mut db = Database::new();
    let artist = create(billy(), &mut db).unwrap();
    let body = UpdateBodyData {
        id: artist.id,
        name: "Billy Strings Band".to_string(),
        sort_name: "Strings, Billy".to_string(),
        disambiguation: "Expanded lineup".to_string(),
    };
    let updated = update_artist(artist.id, body, &mut db).unwrap();
    assert_eq!(updated.id, artist.id);
    assert_eq!(updated.name, "Billy Strings Band");

    let found = Artist::find_by_id(artist.id, &db).unwrap();
    assert_eq!(found.name, "Billy Strings Band");
    assert_eq!(found.disambiguation, "Expanded lineup");
}

#[test]
fn updating_an_artist_with_mismatched_ids_is_a_400() {
    let mut db = Database::new();
    let artist = create(billy(), &mut db).unwrap();
    let body = UpdateBodyData {
        id: artist.id,
        name: "Someone Else".to_string(),
        sort_name: "Else, Someone".to_string(),
        disambiguation: "".to_string(),
    };
    let err = update_artist(artist.id.wrapping_add(1), body, &mut db).unwrap_err();
    assert_eq!(err.status_code(), 400);
    let found = Artist::find_by_id(artist.id, &db).unwrap();
    assert_eq!(found.name, "Billy Strings");
}

#[test]
fn updating_a_missing_artist_is_a_500() {
    let mut db = Database::new();
    let body = UpdateBodyData {
        id: 7,
        name: "Billy Strings".to_string(),
        sort_name: "Strings, Billy".to_string(),
        disambiguation: "".to_string(),
    };
    let err = update_artist(7, body, &mut db).unwrap_err();
    assert_eq!(err.status_code(), 500);
}

#[test]
fn creating_a_concert_echoes_the_fields_and_assigns_an_id() {
    let mut db = Database::new();
    let artist = create(billy(), &mut db).unwrap();
    let concert = create_concert(fillmore(artist.id), &mut db).unwrap();
    assert_ne!(concert.id, 0);
    assert_eq!(concert.artist_id, artist.id);
    assert_eq!(concert.venue, "The Fillmore");
    assert_eq!(concert.city, "San Francisco");
    assert_eq!(concert.state, Some("CA".to_string()));
    assert_eq!(concert.country, "USA");
    assert_eq!(concert.date, DateYmd { year: 2021, month: 7, day: 17 });
}

#[test]
fn creating_a_concert_for_an_unknown_artist_is_a_constraint_failure() {
    let mut db = Database::new();
    let err = create_concert(fillmore(42), &mut db).unwrap_err();
    assert!(matches!(
        err,
        CreateConcertError::UnexpectedError(StorageError::ForeignKeyViolation)
    ));
    assert_eq!(err.status_code(), 500);
    assert!(get_concerts(&db).unwrap().is_empty());
}

#[test]
fn creating_a_concert_with_an_invalid_field_is_a_400() {
    let mut db = Database::new();
    let artist = create(billy(), &mut db).unwrap();
    let mut request = fillmore(artist.id);
    request.date = "2021-13-40".to_string();
    let err = create_concert(request, &mut db).unwrap_err();
    assert!(matches!(err, CreateConcertError::ValidationError(_)));
    assert_eq!(err.status_code(), 400);
    assert!(get_concerts(&db).unwrap().is_empty());
}

#[test]
fn update_concert_returns_400_when_id_doesnt_match_body_id() {
    let mut db = Database::new();
    let artist = create(billy(), &mut db).unwrap();
    let concert = create_concert(fillmore(artist.id), &mut db).unwrap();
    let request = UpdateConcertRequest {
        id: concert.id,
        artist_id: artist.id,
        venue: "Red Rocks".to_string(),
        city: "Morrison".to_string(),
        state: "CO".to_string(),
        date: "2021-07-18".to_string(),
        country: "USA".to_string(),
    };
    let err = update_concert(concert.id.wrapping_add(1), request, &mut db).unwrap_err();
    assert!(matches!(err, UpdateConcertError::ValidationError(_)));
    assert_eq!(err.status_code(), 400);

    // No row was mutated.
    let found = get_concert(concert.id, &db).unwrap();
    assert_eq!(found.venue, "The Fillmore");
    assert_eq!(found.date, DateYmd { year: 2021, month: 7, day: 17 });
}

#[test]
fn updating_a_concert_date_is_visible_in_a_later_find() {
    let mut db = Database::new();
    let artist = create(billy(), &mut db).unwrap();
    let concert = create_concert(fillmore(artist.id), &mut db).unwrap();
    let request = UpdateConcertRequest {
        id: concert.id,
        artist_id: artist.id,
        venue: "The Fillmore".to_string(),
        city: "San Francisco".to_string(),
        state: "CA".to_string(),
        date: "2021-07-18".to_string(),
        country: "USA".to_string(),
    };
    let updated = update_concert(concert.id, request, &mut db).unwrap();
    assert_eq!(updated.id, concert.id);
    assert_eq!(updated.date, DateYmd { year: 2021, month: 7, day: 18 });

    let found = Concert::find_by_id(concert.id, &db).unwrap();
    assert_eq!(found.date, DateYmd { year: 2021, month: 7, day: 18 });
}

#[test]
fn finding_a_never_inserted_id_returns_absence_not_an_error() {
    let mut db = Database::new();
    let artist = create(billy(), &mut db).unwrap();
    create_concert(fillmore(artist.id), &mut db).unwrap();
    for _ in 0..8 {
        let random_id = uuid::Uuid::new_v4().as_u128();
        assert!(Artist::find_by_id(random_id, &db).is_none());
        assert!(Concert::find_by_id(random_id, &db).is_none());
    }
}

#[test]
fn getting_a_missing_concert_is_a_404() {
    let db = Database::new();
    let err = get_concert(uuid::Uuid::new_v4().as_u128(), &db).unwrap_err();
    assert_eq!(err.status_code(), 404);
}

#[test]
fn concert_listings_come_back_ordered_by_date() {
    let mut db = Database::new();
    let artist = create(billy(), &mut db).unwrap();
    for date in ["2022-01-05", "2021-07-17", "2021-12-31", "2021-07-16"] {
        let mut request = fillmore(artist.id);
        request.date = date.to_string();
        create_concert(request, &mut db).unwrap();
    }
    let listed = get_concerts(&db).unwrap();
    assert_eq!(listed.len(), 4);
    let dates: Vec<DateYmd> = listed.iter().map(|c| c.date).collect();
    assert_eq!(
        dates,
        vec![
            DateYmd { year: 2021, month: 7, day: 16 },
            DateYmd { year: 2021, month: 7, day: 17 },
            DateYmd { year: 2021, month: 12, day: 31 },
            DateYmd { year: 2022, month: 1, day: 5 },
        ]
    );
}

#[test]
fn an_artist_dashboard_lists_only_that_artists_concerts_in_date_order() {
    let mut db = Database::new();
    let billy_row = create(billy(), &mut db).unwrap();
    let other = create(
        BodyData {
            name: "Molly Tuttle".to_string(),
            sort_name: "Tuttle, Molly".to_string(),
            disambiguation: "".to_string(),
        },
        &mut db,
    )
    .unwrap();
    for date in ["2021-09-01", "2021-03-15"] {
        let mut request = fillmore(billy_row.id);
        request.date = date.to_string();
        create_concert(request, &mut db).unwrap();
    }
    create_concert(fillmore(other.id), &mut db).unwrap();

    let (artist, concerts) = artist_dashboard(billy_row.id, &db).unwrap();
    assert_eq!(artist.id, billy_row.id);
    assert_eq!(concerts.len(), 2);
    assert!(concerts.iter().all(|c| c.artist_id == billy_row.id));
    assert_eq!(concerts[0].date, DateYmd { year: 2021, month: 3, day: 15 });
    assert_eq!(concerts[1].date, DateYmd { year: 2021, month: 9, day: 1 });
}

#[test]
fn a_dashboard_for_a_missing_artist_is_a_404() {
    let db = Database::new();
    let err = artist_dashboard(uuid::Uuid::new_v4().as_u128(), &db).unwrap_err();
    assert_eq!(err.status_code(), 404);
}

#[test]
fn inserting_a_taken_id_is_a_unique_violation() {
    let mut db = Database::new();
    let parsed = allbands::domain::ArtistName::parse("Billy Strings".to_string()).unwrap();
    let command = allbands::domain::NewArtist {
        name: parsed,
        sort_name: "Strings, Billy".to_string(),
        disambiguation: "Bluegrass".to_string(),
    };
    let mut transaction = db.begin();
    let first = Artist::insert_with_id(&command, 7, &mut transaction).unwrap();
    assert_eq!(first.id, 7);
    let err = Artist::insert_with_id(&command, 7, &mut transaction).unwrap_err();
    assert_eq!(err, StorageError::UniqueViolation);
    transaction.commit(&mut db);
    assert_eq!(get_artists(&db).unwrap().len(), 1);
}

#[test]
fn one_transaction_can_carry_several_writes() {
    let mut db = Database::new();
    let name = allbands::domain::ArtistName::parse("Billy Strings".to_string()).unwrap();
    let command = allbands::domain::NewArtist {
        name,
        sort_name: "Strings, Billy".to_string(),
        disambiguation: "Bluegrass".to_string(),
    };
    let mut transaction = db.begin();
    let artist = Artist::insert(&command, &mut transaction).unwrap();
    let concert_command = allbands::domain::NewConcert {
        artist_id: artist.id,
        venue: allbands::domain::ConcertVenue::parse("The Fillmore".to_string()).unwrap(),
        city: allbands::domain::ConcertCity::parse("San Francisco".to_string()).unwrap(),
        state: allbands::domain::ConcertState::parse("CA".to_string()).unwrap(),
        country: allbands::domain::ConcertCountry::parse("USA".to_string()).unwrap(),
        date: allbands::domain::ConcertDate::parse("2021-07-17".to_string()).unwrap(),
    };
    // The concert already sees the artist inserted earlier in the same
    // transaction.
    let concert = Concert::insert(&concert_command, &mut transaction).unwrap();
    transaction.commit(&mut db);

    assert!(Artist::find_by_id(artist.id, &db).is_some());
    let found = Concert::find_by_id(concert.id, &db).unwrap();
    assert_eq!(found.artist_id, artist.id);
}

#[test]
fn an_abandoned_transaction_leaves_the_database_unchanged() {
    let mut db = Database::new();
    let artist = create(billy(), &mut db).unwrap();
    {
        let mut transaction = db.begin();
        let parsed = allbands::domain::ArtistName::parse("Dropped".to_string()).unwrap();
        let command = allbands::domain::NewArtist {
            name: parsed,
            sort_name: "".to_string(),
            disambiguation: "".to_string(),
        };
        Artist::insert(&command, &mut transaction).unwrap();
        // The transaction is dropped here without a commit.
    }
    let remaining = get_artists(&db).unwrap();
    assert_eq!(remaining.len(), 1);
    assert_eq!(remaining[0].id, artist.id);
}

use impedanz_server::errors::{require_affected, ApiError};
use impedanz_server::events::{
    check_listing_access, check_new_event, event_for_viewer, event_record, slug_available,
    validate_payload, validate_slug, validate_url, visible_events, Act, Artist,
    CreateEventRequest, EventLocation, EventPayload, EventRow, ListEventsQuery, StoredActs,
};
use impedanz_server::timestamp::Timestamp;

const EVENT_ID: &str = "0b5c8a36-1d2e-4f3a-9b8c-7d6e5f4a3b2c";

fn validation_message(error: ApiError) -> String {
    match error {
        ApiError::Validation(message) => message,
        other => panic!("expected a validation error, got {other:?}"),
    }
}

fn artist(name: &str, url: Option<&str>) -> Artist {
    Artist { name: String::from(name), url: url.map(String::from) }
}

fn act(artists: Vec<Artist>) -> Act {
    Act { artists, artist_joiner: None, time: None }
}

fn sample_payload() -> EventPayload {
    EventPayload {
        title: String::from("test-event"),
        description: String::from("test event"),
        date_time_start: Timestamp { seconds: 1_785_618_000, nanos: 0 },
        date_time_end: Timestamp { seconds: 1_785_646_800, nanos: 0 },
        location: EventLocation {
            name: String::from("City Club Augsburg"),
            city: String::from("Augsburg"),
            latitude_bits: 48.365419f64.to_bits(),
            longitude_bits: 10.895053f64.to_bits(),
        },
        ticket_link: None,
        genre: String::from("Techno"),
        age_restriction: Some(String::from("18+")),
        image_url: None,
        image_alt: None,
        acts: vec![act(vec![artist(
            "TONSAMMLER",
            Some("https://www.instagram.com/ton.sammler/"),
        )])],
        published: true,
    }
}

fn sample_row(slug: &str, published: i64) -> EventRow {
    EventRow {
        id: String::from(EVENT_ID),
        slug: String::from(slug),
        title: String::from(slug),
        description: String::from("test event"),
        date_time_start: String::from("2026-08-01T23:00:00+02:00"),
        date_time_end: String::from("2026-08-02T07:00:00+02:00"),
        location_name: String::from("City Club Augsburg"),
        location_city: String::from("Augsburg"),
        location_latitude_bits: 48.365419f64.to_bits(),
        location_longitude_bits: 10.895053f64.to_bits(),
        ticket_link: None,
        genre: String::from("Techno"),
        age_restriction: None,
        image_url: None,
        image_alt: None,
        acts: StoredActs::Parsed(vec![act(vec![artist("TONSAMMLER", None)])]),
        published,
        created_at: String::from("2026-01-01T00:00:00Z"),
        updated_at: String::from("2026-01-02T00:00:00Z"),
    }
}

#[test]
fn slugs_are_lowercase_words() {
    assert!(validate_slug("apokalypsis").is_ok());
    assert!(validate_slug("za-005").is_ok());
    assert!(validate_slug("0-start").is_ok());
    assert_eq!(
        validation_message(validate_slug("").unwrap_err()),
        "slug must be between 1 and 64 characters"
    );
    assert!(validate_slug(&"a".repeat(64)).is_ok());
    assert!(validate_slug(&"a".repeat(65)).is_err());
    assert_eq!(
        validation_message(validate_slug("-lead").unwrap_err()),
        "slug must start with a-z or 0-9"
    );
    assert_eq!(
        validation_message(validate_slug("Upper").unwrap_err()),
        "slug must start with a-z or 0-9"
    );
    assert_eq!(
        validation_message(validate_slug("with space").unwrap_err()),
        "slug may only contain a-z, 0-9 and '-'"
    );
}

#[test]
fn links_must_be_https_or_site_relative() {
    assert!(validate_url("ticketLink", "https://tickets.example/", false).is_ok());
    assert_eq!(
        validation_message(validate_url("ticketLink", "http://x", false).unwrap_err()),
        "ticketLink must start with https://"
    );
    assert!(validate_url("imageUrl", "/media/x.png", true).is_ok());
    assert_eq!(
        validation_message(validate_url("imageUrl", "media/x.png", true).unwrap_err()),
        "imageUrl must start with https:// or be site-relative (/...)"
    );
    assert!(validate_url("artist url", "/relative", false).is_err());
}

#[test]
fn a_valid_payload_passes() {
    assert!(validate_payload(&sample_payload(), true).is_ok());
}

#[test]
fn payload_checks_come_in_order() {
    let mut p = sample_payload();
    p.title = String::from(" \t ");
    p.date_time_end = p.date_time_start;
    assert_eq!(
        validation_message(validate_payload(&p, false).unwrap_err()),
        "title must be between 1 and 200 characters"
    );
    p.title = "t".repeat(201);
    assert!(validate_payload(&p, true).is_err());
    p.title = "t".repeat(200);
    assert_eq!(
        validation_message(validate_payload(&p, false).unwrap_err()),
        "dateTimeEnd must be after dateTimeStart"
    );
    p.date_time_end = Timestamp { seconds: p.date_time_start.seconds, nanos: 1 };
    assert_eq!(
        validation_message(validate_payload(&p, false).unwrap_err()),
        "location coordinates are out of range"
    );
    p.location.city = String::from("  ");
    assert_eq!(
        validation_message(validate_payload(&p, true).unwrap_err()),
        "location name and city must not be empty"
    );
    p.location.city = String::from("Augsburg");
    p.ticket_link = Some(String::new());
    assert!(validate_payload(&p, true).is_ok());
    p.ticket_link = Some(String::from("www.tickets.example"));
    assert_eq!(
        validation_message(validate_payload(&p, true).unwrap_err()),
        "ticketLink must start with https://"
    );
    p.ticket_link = None;
    p.image_url = Some(String::from("img.png"));
    assert_eq!(
        validation_message(validate_payload(&p, true).unwrap_err()),
        "imageUrl must start with https:// or be site-relative (/...)"
    );
    p.image_url = Some(String::from("/media/img.png"));
    p.acts.push(act(vec![]));
    assert_eq!(
        validation_message(validate_payload(&p, true).unwrap_err()),
        "every act needs at least one artist"
    );
    p.acts.pop();
    p.acts.push(act(vec![artist("ok", None), artist(" ", None)]));
    assert_eq!(
        validation_message(validate_payload(&p, true).unwrap_err()),
        "artist names must not be empty"
    );
    p.acts.pop();
    p.acts.push(act(vec![artist("ok", Some("ftp://x"))]));
    assert_eq!(
        validation_message(validate_payload(&p, true).unwrap_err()),
        "artist url must start with https://"
    );
}

#[test]
fn an_end_before_the_start_is_refused() {
    let mut p = sample_payload();
    // 2026-08-01T22:00:00+02:00, an hour before the start
    p.date_time_end = Timestamp { seconds: 1_785_614_400, nanos: 0 };
    let request = CreateEventRequest { slug: String::from("invalid-event"), event: p };
    assert_eq!(
        validation_message(check_new_event(&request, true).unwrap_err()),
        "dateTimeEnd must be after dateTimeStart"
    );
    let request = CreateEventRequest { slug: String::from("Bad Slug"), event: sample_payload() };
    assert_eq!(
        validation_message(check_new_event(&request, true).unwrap_err()),
        "slug must start with a-z or 0-9"
    );
    let request = CreateEventRequest { slug: String::from("test-event"), event: sample_payload() };
    assert!(check_new_event(&request, true).is_ok());
}

#[test]
fn duplicate_slugs_conflict() {
    assert!(slug_available(0, "test-event").is_ok());
    match slug_available(1, "test-event") {
        Err(ApiError::Conflict(message)) => {
            assert_eq!(message, "an event with slug \"test-event\" already exists")
        }
        other => panic!("expected a conflict, got {other:?}"),
    }
}

#[test]
fn payloads_are_stored_normalised() {
    let mut p = sample_payload();
    p.title = String::from("  renamed  ");
    p.location.name = String::from(" Club\u{a0}");
    p.ticket_link = Some(String::new());
    p.published = false;
    let record = event_record(p);
    assert_eq!(record.title, "renamed");
    assert_eq!(record.location_name, "Club");
    assert_eq!(record.location_city, "Augsburg");
    assert_eq!(record.ticket_link, None);
    assert_eq!(record.published, 0);
    assert_eq!(record.genre, "Techno");
    assert_eq!(f64::from_bits(record.location_latitude_bits), 48.365419);

    let mut p = sample_payload();
    p.ticket_link = Some(String::from("https://t.example"));
    let record = event_record(p);
    assert_eq!(record.ticket_link.as_deref(), Some("https://t.example"));
    assert_eq!(record.published, 1);
}

#[test]
fn stored_rows_convert_to_events() {
    let event = sample_row("test-event", 1).into_event().unwrap();
    assert_eq!(event.id, 0x0b5c8a36_1d2e_4f3a_9b8c_7d6e5f4a3b2c);
    assert_eq!(event.slug, "test-event");
    assert_eq!(event.date_time_start, Timestamp { seconds: 1_785_618_000, nanos: 0 });
    assert_eq!(event.acts[0].artists[0].name, "TONSAMMLER");
    assert!(event.published);
    assert!(!sample_row("x", 0).into_event().unwrap().published);

    let mut row = sample_row("x", 1);
    row.id = String::from("42");
    assert_eq!(
        validation_message(row.into_event().unwrap_err()),
        "corrupt event id \"42\" in database"
    );
    let mut row = sample_row("x", 1);
    row.acts = StoredActs::Corrupt(String::from("expected value at line 1 column 1"));
    match row.into_event() {
        Err(ApiError::CorruptData(message)) => {
            assert_eq!(message, "expected value at line 1 column 1")
        }
        other => panic!("expected corrupt data, got {other:?}"),
    }
    let mut row = sample_row("x", 1);
    row.updated_at = String::from("later");
    assert!(matches!(row.into_event(), Err(ApiError::CorruptTimestamp(_))));
}

#[test]
fn drafts_need_a_session() {
    let query = ListEventsQuery { include_unpublished: true };
    assert!(matches!(
        check_listing_access(query.include_unpublished, false),
        Err(ApiError::Unauthorized)
    ));
    assert!(check_listing_access(true, true).is_ok());
    assert!(check_listing_access(false, false).is_ok());

    let rows = vec![
        sample_row("apokalypsis", 1),
        sample_row("secret-draft", 0),
        sample_row("older", 1),
    ];
    let public = visible_events(rows, false).unwrap();
    let slugs: Vec<&str> = public.iter().map(|e| e.slug.as_str()).collect();
    assert_eq!(slugs, vec!["apokalypsis", "older"]);

    let rows = vec![sample_row("apokalypsis", 1), sample_row("secret-draft", 0)];
    let all = visible_events(rows, true).unwrap();
    assert!(all.iter().any(|e| e.slug == "secret-draft"));

    assert!(matches!(
        event_for_viewer(Some(sample_row("secret-draft", 0)), false),
        Err(ApiError::NotFound)
    ));
    assert_eq!(
        event_for_viewer(Some(sample_row("secret-draft", 0)), true).unwrap().slug,
        "secret-draft"
    );
    assert!(matches!(event_for_viewer(None, true), Err(ApiError::NotFound)));
}

#[test]
fn a_corrupt_draft_does_not_break_the_public_listing() {
    let mut draft = sample_row("draft", 0);
    draft.id = String::from("broken");
    let public = visible_events(vec![sample_row("a", 1), draft], false).unwrap();
    assert_eq!(public.len(), 1);

    let mut draft = sample_row("draft", 0);
    draft.id = String::from("broken");
    assert!(visible_events(vec![sample_row("a", 1), draft], true).is_err());
}

#[test]
fn updates_and_deletes_of_missing_events_are_not_found() {
    assert!(matches!(require_affected(0), Err(ApiError::NotFound)));
    assert!(require_affected(1).is_ok());
}

#[test]
fn only_rows_stored_as_published_are_listed_publicly() {
    let rows = vec![sample_row("flag-one", 1), sample_row("flag-two", 2), sample_row("draft", 0)];
    let public = visible_events(rows, false).unwrap();
    let slugs: Vec<&str> = public.iter().map(|e| e.slug.as_str()).collect();
    assert_eq!(slugs, vec!["flag-one"]);
}

#[test]
fn the_first_unreadable_listed_row_decides_the_error() {
    let mut bad_id = sample_row("bad-id", 1);
    bad_id.id = String::from("broken");
    let mut bad_time = sample_row("bad-time", 1);
    bad_time.created_at = String::from("yesterday");
    let rows = vec![sample_row("fine", 1), bad_id, bad_time];
    match visible_events(rows, false) {
        Err(ApiError::Validation(m)) => assert_eq!(m, "corrupt event id \"broken\" in database"),
        _ => panic!("the corrupt id comes first"),
    }

    let mut bad_id = sample_row("bad-id", 1);
    bad_id.id = String::from("broken");
    let mut bad_time = sample_row("bad-time", 1);
    bad_time.created_at = String::from("yesterday");
    let rows = vec![bad_time, bad_id];
    assert!(matches!(visible_events(rows, false), Err(ApiError::CorruptTimestamp(_))));
}

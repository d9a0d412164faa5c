//! Member-facing event publishing: create, edit, list, delete.
//!
//! Events carry a `published` flag — unpublished drafts are only
//! visible to logged-in members. The slug is immutable after creation
//! because it is the event's public URL identity.
//!
//! Coordinates are carried as the bit patterns of their `f64` values; the
//! range check on them is made where floating point is available, and its
//! outcome is handed to [`validate_payload`].

use vstd::prelude::*;
use vstd::string::*;

use crate::errors::{is_conflict, is_validation, ApiError};
use crate::ids::{parse_uuid, uuid_value};
use crate::text::{
    all_white_space, ascii_digit, ascii_lowercase, debug_quoted, debug_text, is_ascii_digit,
    is_ascii_lowercase, is_blank, starts_with, starts_with_spec, trim, trim_spec,
};
use crate::timestamp::{not_after, parse_timestamp, rfc3339_instant, Timestamp};

verus! {

broadcast use vstd::string::group_string_axioms;

#[derive(Debug, Clone)]
pub struct Artist {
    pub name: String,
    pub url: Option<String>,
}

#[derive(Debug, Clone)]
pub struct Act {
    pub artists: Vec<Artist>,
    pub artist_joiner: Option<String>,
    pub time: Option<String>,
}

#[derive(Debug, Clone)]
pub struct EventLocation {
    pub name: String,
    pub city: String,
    /// `f64::to_bits` of the latitude.
    pub latitude_bits: u64,
    /// `f64::to_bits` of the longitude.
    pub longitude_bits: u64,
}

#[derive(Debug)]
pub struct Event {
    pub id: u128,
    pub slug: String,
    pub title: String,
    pub description: String,
    pub date_time_start: Timestamp,
    pub date_time_end: Timestamp,
    pub location: EventLocation,
    pub ticket_link: Option<String>,
    pub genre: String,
    pub age_restriction: Option<String>,
    pub image_url: Option<String>,
    pub image_alt: Option<String>,
    pub acts: Vec<Act>,
    pub published: bool,
    pub created_at: Timestamp,
    pub updated_at: Timestamp,
}

/// All mutable fields of an event. Used directly by PUT and embedded
/// in the create request.
#[derive(Debug)]
pub struct EventPayload {
    pub title: String,
    pub description: String,
    pub date_time_start: Timestamp,
    pub date_time_end: Timestamp,
    pub location: EventLocation,
    pub ticket_link: Option<String>,
    pub genre: String,
    pub age_restriction: Option<String>,
    pub image_url: Option<String>,
    pub image_alt: Option<String>,
    pub acts: Vec<Act>,
    pub published: bool,
}

#[derive(Debug)]
pub struct CreateEventRequest {
    /// URL identity of the event (/events/<slug>/). Immutable.
    pub slug: String,
    pub event: EventPayload,
}

pub struct ListEventsQuery {
    /// Also return unpublished drafts. Requires a session.
    pub include_unpublished: bool,
}

/// The `acts` column: the JSON it holds, read into acts, or the parser's
/// message when it does not parse.
pub enum StoredActs {
    Parsed(Vec<Act>),
    Corrupt(String),
}

/// A row of the `events` table.
pub struct EventRow {
    pub id: String,
    pub slug: String,
    pub title: String,
    pub description: String,
    pub date_time_start: String,
    pub date_time_end: String,
    pub location_name: String,
    pub location_city: String,
    pub location_latitude_bits: u64,
    pub location_longitude_bits: u64,
    pub ticket_link: Option<String>,
    pub genre: String,
    pub age_restriction: Option<String>,
    pub image_url: Option<String>,
    pub image_alt: Option<String>,
    pub acts: StoredActs,
    pub published: i64,
    pub created_at: String,
    pub updated_at: String,
}

// --- validation -------------------------------------------------------------

pub open spec fn is_slug_char(c: char) -> bool {
    is_ascii_lowercase(c) || is_ascii_digit(c) || c == '-'
}

/// Why a slug is refused, if it is.
pub open spec fn slug_error(slug: Seq<char>) -> Option<Seq<char>> {
    if !(1 <= slug.len() <= 64) {
        Some("slug must be between 1 and 64 characters"@)
    } else if !(is_ascii_lowercase(slug[0]) || is_ascii_digit(slug[0])) {
        Some("slug must start with a-z or 0-9"@)
    } else if !(forall|i: int| 0 <= i < slug.len() ==> is_slug_char(#[trigger] slug[i])) {
        Some("slug may only contain a-z, 0-9 and '-'"@)
    } else {
        None
    }
}

pub fn validate_slug(slug: &str) -> (r: Result<(), ApiError>)
    ensures
        match slug_error(slug@) {
            None => r is Ok,
            Some(m) => r matches Err(e) && is_validation(e, m),
        },
{
    let chars = crate::text::chars_of(slug);
    let length = chars.len();
    if !(1 <= length && length <= 64) {
        return Err(ApiError::Validation("slug must be between 1 and 64 characters".to_string()));
    }
    let first = chars[0];
    if !ascii_lowercase(first) && !ascii_digit(first) {
        return Err(ApiError::Validation("slug must start with a-z or 0-9".to_string()));
    }
    let mut i: usize = 0;
    while i < length
        invariant
            chars@ == slug@,
            length == slug@.len(),
            1 <= length <= 64,
            is_ascii_lowercase(slug@[0]) || is_ascii_digit(slug@[0]),
            i <= length,
            forall|j: int| 0 <= j < i ==> is_slug_char(#[trigger] slug@[j]),
        decreases length - i,
    {
        let c = chars[i];
        if !(ascii_lowercase(c) || ascii_digit(c) || c == '-') {
            assert(!is_slug_char(slug@[i as int]));
            return Err(ApiError::Validation("slug may only contain a-z, 0-9 and '-'".to_string()));
        }
        i = i + 1;
    }
    Ok(())
}

/// Why a link in `field` is refused, if it is: it must be an https URL, or
/// (where `allow_relative`) a site-relative path.
pub open spec fn url_error(field: Seq<char>, value: Seq<char>, allow_relative: bool) -> Option<
    Seq<char>,
> {
    if starts_with_spec(value, "https://"@) || (allow_relative && starts_with_spec(value, "/"@)) {
        None
    } else {
        Some(
            field + " must start with https://"@ + if allow_relative {
                " or be site-relative (/...)"@
            } else {
                ""@
            },
        )
    }
}

pub fn validate_url(field: &str, value: &str, allow_relative: bool) -> (r: Result<(), ApiError>)
    ensures
        match url_error(field@, value@, allow_relative) {
            None => r is Ok,
            Some(m) => r matches Err(e) && is_validation(e, m),
        },
{
    let valid = starts_with(value, "https://") || (allow_relative && starts_with(value, "/"));
    if !valid {
        let suffix = if allow_relative {
            " or be site-relative (/...)"
        } else {
            ""
        };
        let message = field.to_string().concat(" must start with https://").concat(suffix);
        return Err(ApiError::Validation(message));
    }
    Ok(())
}

/// Why an artist is refused, if it is.
pub open spec fn artist_error(artist: Artist) -> Option<Seq<char>> {
    if all_white_space(artist.name@) {
        Some("artist names must not be empty"@)
    } else {
        match artist.url {
            Some(url) => url_error("artist url"@, url@, false),
            None => None,
        }
    }
}

/// The first refusal among `artists[from..]`.
pub open spec fn artists_error(artists: Seq<Artist>, from: int) -> Option<Seq<char>>
    decreases artists.len() - from,
{
    if from < 0 || from >= artists.len() {
        None
    } else {
        match artist_error(artists[from]) {
            Some(m) => Some(m),
            None => artists_error(artists, from + 1),
        }
    }
}

/// Why an act is refused, if it is.
pub open spec fn act_error(act: Act) -> Option<Seq<char>> {
    if act.artists@.len() == 0 {
        Some("every act needs at least one artist"@)
    } else {
        artists_error(act.artists@, 0)
    }
}

/// The first refusal among `acts[from..]`.
pub open spec fn acts_error(acts: Seq<Act>, from: int) -> Option<Seq<char>>
    decreases acts.len() - from,
{
    if from < 0 || from >= acts.len() {
        None
    } else {
        match act_error(acts[from]) {
            Some(m) => Some(m),
            None => acts_error(acts, from + 1),
        }
    }
}

/// An empty ticket link counts as none.
pub open spec fn ticket_link_error(link: Option<String>) -> Option<Seq<char>> {
    match link {
        Some(l) => if l@.len() == 0 {
            None
        } else {
            url_error("ticketLink"@, l@, false)
        },
        None => None,
    }
}

pub open spec fn image_url_error(image: Option<String>) -> Option<Seq<char>> {
    match image {
        Some(i) => url_error("imageUrl"@, i@, true),
        None => None,
    }
}

/// Why an event payload is refused, if it is: the first failed check, in
/// the order title, dates, coordinates, location, ticket link, image, acts.
pub open spec fn payload_error(payload: EventPayload, coordinates_in_range: bool) -> Option<
    Seq<char>,
> {
    if all_white_space(payload.title@) || payload.title@.len() > 200 {
        Some("title must be between 1 and 200 characters"@)
    } else if not_after(payload.date_time_end, payload.date_time_start) {
        Some("dateTimeEnd must be after dateTimeStart"@)
    } else if !coordinates_in_range {
        Some("location coordinates are out of range"@)
    } else if all_white_space(payload.location.name@) || all_white_space(payload.location.city@) {
        Some("location name and city must not be empty"@)
    } else if ticket_link_error(payload.ticket_link) is Some {
        ticket_link_error(payload.ticket_link)
    } else if image_url_error(payload.image_url) is Some {
        image_url_error(payload.image_url)
    } else {
        acts_error(payload.acts@, 0)
    }
}

fn validate_artist(artist: &Artist) -> (r: Result<(), ApiError>)
    ensures
        match artist_error(*artist) {
            None => r is Ok,
            Some(m) => r matches Err(e) && is_validation(e, m),
        },
{
    if is_blank(artist.name.as_str()) {
        return Err(ApiError::Validation("artist names must not be empty".to_string()));
    }
    match &artist.url {
        Some(url) => validate_url("artist url", url.as_str(), false),
        None => Ok(()),
    }
}

fn validate_act(act: &Act) -> (r: Result<(), ApiError>)
    ensures
        match act_error(*act) {
            None => r is Ok,
            Some(m) => r matches Err(e) && is_validation(e, m),
        },
{
    if act.artists.len() == 0 {
        return Err(ApiError::Validation("every act needs at least one artist".to_string()));
    }
    let n = act.artists.len();
    let mut i: usize = 0;
    while i < n
        invariant
            n == act.artists@.len(),
            n > 0,
            i <= n,
            artists_error(act.artists@, 0) == artists_error(act.artists@, i as int),
        decreases n - i,
    {
        match validate_artist(&act.artists[i]) {
            Ok(()) => {},
            Err(e) => return Err(e),
        }
        i = i + 1;
    }
    Ok(())
}

fn validate_acts(acts: &Vec<Act>) -> (r: Result<(), ApiError>)
    ensures
        match acts_error(acts@, 0) {
            None => r is Ok,
            Some(m) => r matches Err(e) && is_validation(e, m),
        },
{
    let n = acts.len();
    let mut i: usize = 0;
    while i < n
        invariant
            n == acts@.len(),
            i <= n,
            acts_error(acts@, 0) == acts_error(acts@, i as int),
        decreases n - i,
    {
        match validate_act(&acts[i]) {
            Ok(()) => {},
            Err(e) => return Err(e),
        }
        i = i + 1;
    }
    Ok(())
}

/// Checks every field of an event payload; `coordinates_in_range` tells
/// whether the latitude lies in [-90, 90] and the longitude in [-180, 180].
pub fn validate_payload(payload: &EventPayload, coordinates_in_range: bool) -> (r: Result<
    (),
    ApiError,
>)
    ensures
        match payload_error(*payload, coordinates_in_range) {
            None => r is Ok,
            Some(m) => r matches Err(e) && is_validation(e, m),
        },
{
    if is_blank(payload.title.as_str()) || payload.title.as_str().unicode_len() > 200 {
        return Err(ApiError::Validation("title must be between 1 and 200 characters".to_string()));
    }
    if payload.date_time_end.not_after(&payload.date_time_start) {
        return Err(ApiError::Validation("dateTimeEnd must be after dateTimeStart".to_string()));
    }
    if !coordinates_in_range {
        return Err(ApiError::Validation("location coordinates are out of range".to_string()));
    }
    if is_blank(payload.location.name.as_str()) || is_blank(payload.location.city.as_str()) {
        return Err(ApiError::Validation("location name and city must not be empty".to_string()));
    }
    match &payload.ticket_link {
        Some(link) => {
            if !link.as_str().is_empty() {
                match validate_url("ticketLink", link.as_str(), false) {
                    Ok(()) => {},
                    Err(e) => return Err(e),
                }
            }
        },
        None => {},
    }
    match &payload.image_url {
        Some(image) => match validate_url("imageUrl", image.as_str(), true) {
            Ok(()) => {},
            Err(e) => return Err(e),
        },
        None => {},
    }
    validate_acts(&payload.acts)
}

/// Why a create request is refused, if it is: the slug first, then the
/// payload.
pub open spec fn create_error(request: CreateEventRequest, coordinates_in_range: bool) -> Option<
    Seq<char>,
> {
    match slug_error(request.slug@) {
        Some(m) => Some(m),
        None => payload_error(request.event, coordinates_in_range),
    }
}

/// The checks on a create request before the database is asked.
pub fn check_new_event(request: &CreateEventRequest, coordinates_in_range: bool) -> (r: Result<
    (),
    ApiError,
>)
    ensures
        match create_error(*request, coordinates_in_range) {
            None => r is Ok,
            Some(m) => r matches Err(e) && is_validation(e, m),
        },
{
    match validate_slug(request.slug.as_str()) {
        Ok(()) => {},
        Err(e) => return Err(e),
    }
    validate_payload(&request.event, coordinates_in_range)
}

/// A slug is free when no event holds it yet (`existing` events do).
pub fn slug_available(existing: i64, slug: &str) -> (r: Result<(), ApiError>)
    ensures
        r is Ok <==> existing <= 0,
        r matches Err(e) ==> is_conflict(
            e,
            "an event with slug "@ + debug_text(slug@) + " already exists"@,
        ),
{
    if existing > 0 {
        let quoted = debug_quoted(slug);
        return Err(
            ApiError::Conflict(
                "an event with slug ".to_string().concat(quoted.as_str()).concat(" already exists"),
            ),
        );
    }
    Ok(())
}

// --- storage ------------------------------------------------------------------

/// The values an accepted payload is stored with.
#[derive(Debug)]
pub struct EventRecord {
    pub title: String,
    pub description: String,
    pub date_time_start: Timestamp,
    pub date_time_end: Timestamp,
    pub location_name: String,
    pub location_city: String,
    pub location_latitude_bits: u64,
    pub location_longitude_bits: u64,
    pub ticket_link: Option<String>,
    pub genre: String,
    pub age_restriction: Option<String>,
    pub image_url: Option<String>,
    pub image_alt: Option<String>,
    pub acts: Vec<Act>,
    pub published: i64,
}

/// Title, location name and city are stored trimmed, an empty ticket link
/// as none, and the flag as 0 or 1.
pub open spec fn stored_as(record: EventRecord, payload: EventPayload) -> bool {
    &&& record.title@ == trim_spec(payload.title@)
    &&& record.description == payload.description
    &&& record.date_time_start == payload.date_time_start
    &&& record.date_time_end == payload.date_time_end
    &&& record.location_name@ == trim_spec(payload.location.name@)
    &&& record.location_city@ == trim_spec(payload.location.city@)
    &&& record.location_latitude_bits == payload.location.latitude_bits
    &&& record.location_longitude_bits == payload.location.longitude_bits
    &&& record.ticket_link == match payload.ticket_link {
        Some(l) => if l@.len() == 0 {
            None
        } else {
            Some(l)
        },
        None => None,
    }
    &&& record.genre == payload.genre
    &&& record.age_restriction == payload.age_restriction
    &&& record.image_url == payload.image_url
    &&& record.image_alt == payload.image_alt
    &&& record.acts == payload.acts
    &&& record.published == if payload.published {
        1i64
    } else {
        0i64
    }
}

pub fn event_record(payload: EventPayload) -> (r: EventRecord)
    ensures
        stored_as(r, payload),
{
    let title = trim(payload.title.as_str()).to_string();
    let location_name = trim(payload.location.name.as_str()).to_string();
    let location_city = trim(payload.location.city.as_str()).to_string();
    let ticket_link = match payload.ticket_link {
        Some(l) => if l.as_str().is_empty() {
            None
        } else {
            Some(l)
        },
        None => None,
    };
    EventRecord {
        title,
        description: payload.description,
        date_time_start: payload.date_time_start,
        date_time_end: payload.date_time_end,
        location_name,
        location_city,
        location_latitude_bits: payload.location.latitude_bits,
        location_longitude_bits: payload.location.longitude_bits,
        ticket_link,
        genre: payload.genre,
        age_restriction: payload.age_restriction,
        image_url: payload.image_url,
        image_alt: payload.image_alt,
        acts: payload.acts,
        published: if payload.published {
            1
        } else {
            0
        },
    }
}

/// The event a stored row converts to, when every column is readable.
pub open spec fn event_of(row: EventRow) -> Option<Event> {
    match (
        uuid_value(row.id@),
        rfc3339_instant(row.date_time_start@),
        rfc3339_instant(row.date_time_end@),
        row.acts,
        rfc3339_instant(row.created_at@),
        rfc3339_instant(row.updated_at@),
    ) {
        (
            Some(id),
            Some((s1, n1)),
            Some((s2, n2)),
            StoredActs::Parsed(acts),
            Some((s3, n3)),
            Some((s4, n4)),
        ) => Some(
            Event {
                id,
                slug: row.slug,
                title: row.title,
                description: row.description,
                date_time_start: Timestamp { seconds: s1, nanos: n1 },
                date_time_end: Timestamp { seconds: s2, nanos: n2 },
                location: EventLocation {
                    name: row.location_name,
                    city: row.location_city,
                    latitude_bits: row.location_latitude_bits,
                    longitude_bits: row.location_longitude_bits,
                },
                ticket_link: row.ticket_link,
                genre: row.genre,
                age_restriction: row.age_restriction,
                image_url: row.image_url,
                image_alt: row.image_alt,
                acts,
                published: row.published != 0,
                created_at: Timestamp { seconds: s3, nanos: n3 },
                updated_at: Timestamp { seconds: s4, nanos: n4 },
            },
        ),
        _ => None,
    }
}

/// The error a row that does not convert is reported with: the first
/// unreadable column, in the order id, start, end, acts, created, updated.
pub open spec fn event_row_error(row: EventRow, e: ApiError) -> bool {
    if uuid_value(row.id@) is None {
        is_validation(e, "corrupt event id "@ + debug_text(row.id@) + " in database"@)
    } else if rfc3339_instant(row.date_time_start@) is None || rfc3339_instant(
        row.date_time_end@,
    ) is None {
        e is CorruptTimestamp
    } else if row.acts is Corrupt {
        e matches ApiError::CorruptData(m) && m@ == row.acts->Corrupt_0@
    } else {
        e is CorruptTimestamp
    }
}

impl EventRow {
    pub fn into_event(self) -> (r: Result<Event, ApiError>)
        ensures
            match event_of(self) {
                Some(ev) => r == Ok::<Event, ApiError>(ev),
                None => r matches Err(e) && event_row_error(self, e),
            },
    {
        let id = match parse_uuid(self.id.as_str()) {
            Some(id) => id,
            None => {
                let quoted = debug_quoted(self.id.as_str());
                return Err(
                    ApiError::Validation(
                        "corrupt event id ".to_string().concat(quoted.as_str()).concat(
                            " in database",
                        ),
                    ),
                );
            },
        };
        let date_time_start = match parse_timestamp(self.date_time_start.as_str()) {
            Ok(t) => t,
            Err(e) => return Err(e),
        };
        let date_time_end = match parse_timestamp(self.date_time_end.as_str()) {
            Ok(t) => t,
            Err(e) => return Err(e),
        };
        let acts = match self.acts {
            StoredActs::Parsed(acts) => acts,
            StoredActs::Corrupt(message) => return Err(ApiError::CorruptData(message)),
        };
        let created_at = match parse_timestamp(self.created_at.as_str()) {
            Ok(t) => t,
            Err(e) => return Err(e),
        };
        let updated_at = match parse_timestamp(self.updated_at.as_str()) {
            Ok(t) => t,
            Err(e) => return Err(e),
        };
        Ok(
            Event {
                id,
                slug: self.slug,
                title: self.title,
                description: self.description,
                date_time_start,
                date_time_end,
                location: EventLocation {
                    name: self.location_name,
                    city: self.location_city,
                    latitude_bits: self.location_latitude_bits,
                    longitude_bits: self.location_longitude_bits,
                },
                ticket_link: self.ticket_link,
                genre: self.genre,
                age_restriction: self.age_restriction,
                image_url: self.image_url,
                image_alt: self.image_alt,
                acts,
                published: self.published != 0,
                created_at,
                updated_at,
            },
        )
    }
}

// --- who sees what ------------------------------------------------------------------

/// Listing drafts requires a session.
pub fn check_listing_access(include_unpublished: bool, has_session: bool) -> (r: Result<
    (),
    ApiError,
>)
    ensures
        r is Ok <==> (!include_unpublished || has_session),
        r matches Err(e) ==> e is Unauthorized,
{
    if include_unpublished && !has_session {
        return Err(ApiError::Unauthorized);
    }
    Ok(())
}

/// A row belongs in a listing: every row when drafts are asked for, else
/// the rows stored as published (flag 1).
pub open spec fn listed(row: EventRow, include_unpublished: bool) -> bool {
    include_unpublished || row.published == 1
}

/// The listed rows among the first `n`, in order.
pub open spec fn listed_prefix(rows: Seq<EventRow>, include_unpublished: bool, n: int) -> Seq<
    EventRow,
>
    decreases n,
{
    if n <= 0 || n > rows.len() {
        Seq::empty()
    } else if listed(rows[n - 1], include_unpublished) {
        listed_prefix(rows, include_unpublished, n - 1).push(rows[n - 1])
    } else {
        listed_prefix(rows, include_unpublished, n - 1)
    }
}

/// The listed rows, in order.
pub open spec fn listed_rows(rows: Seq<EventRow>, include_unpublished: bool) -> Seq<EventRow> {
    listed_prefix(rows, include_unpublished, rows.len() as int)
}

proof fn lemma_listed_prefix_listed(rows: Seq<EventRow>, include_unpublished: bool, n: int)
    requires
        0 <= n <= rows.len(),
    ensures
        forall|i: int|
            0 <= i < listed_prefix(rows, include_unpublished, n).len() ==> listed(
                #[trigger] listed_prefix(rows, include_unpublished, n)[i],
                include_unpublished,
            ),
    decreases n,
{
    if n > 0 {
        lemma_listed_prefix_listed(rows, include_unpublished, n - 1);
        let shorter = listed_prefix(rows, include_unpublished, n - 1);
        let longer = listed_prefix(rows, include_unpublished, n);
        assert forall|i: int| 0 <= i < longer.len() implies listed(
            #[trigger] longer[i],
            include_unpublished,
        ) by {
            if i < shorter.len() {
                assert(longer[i] == shorter[i]);
            }
        }
    }
}

/// The events of a listing: the rows the database returned (newest first)
/// without the drafts unless they were asked for, converted in order; the
/// first listed row that does not convert decides the error. Without
/// `include_unpublished`, every event listed is published.
pub fn visible_events(rows: Vec<EventRow>, include_unpublished: bool) -> (r: Result<
    Vec<Event>,
    ApiError,
>)
    ensures
        r is Ok <==> forall|i: int|
            0 <= i < listed_rows(rows@, include_unpublished).len() ==> event_of(
                #[trigger] listed_rows(rows@, include_unpublished)[i],
            ) is Some,
        r matches Ok(v) ==> v@.len() == listed_rows(rows@, include_unpublished).len() && forall|
            i: int,
        |
            0 <= i < v@.len() ==> Some(#[trigger] v@[i]) == event_of(
                listed_rows(rows@, include_unpublished)[i],
            ),
        !include_unpublished ==> (r matches Ok(v) ==> forall|i: int|
            0 <= i < v@.len() ==> (#[trigger] v@[i]).published),
        r matches Err(e) ==> exists|i: int|
            0 <= i < listed_rows(rows@, include_unpublished).len() && event_of(
                #[trigger] listed_rows(rows@, include_unpublished)[i],
            ) is None && event_row_error(listed_rows(rows@, include_unpublished)[i], e)
                && forall|j: int|
                0 <= j < i ==> event_of(
                    #[trigger] listed_rows(rows@, include_unpublished)[j],
                ) is Some,
{
    let ghost all = rows@;
    let ghost n = rows@.len() as int;
    let mut out: Vec<Event> = Vec::new();
    for row in it: rows
        invariant
            it.seq() == all,
            n == all.len(),
            out@.len() == listed_prefix(all, include_unpublished, it.index()).len(),
            forall|j: int|
                0 <= j < out@.len() ==> Some(#[trigger] out@[j]) == event_of(
                    listed_prefix(all, include_unpublished, it.index())[j],
                ),
    {
        let ghost k = it.index();
        let ghost before = listed_prefix(all, include_unpublished, k);
        assert(row == all[k]);
        if include_unpublished || row.published == 1 {
            assert(listed_prefix(all, include_unpublished, k + 1) == before.push(all[k]));
            match row.into_event() {
                Ok(ev) => {
                    out.push(ev);
                },
                Err(e) => {
                    proof {
                        lemma_listed_prefix_extends(all, include_unpublished, k + 1, n);
                        let m = before.len() as int;
                        assert(listed_prefix(all, include_unpublished, k + 1)[m] == all[k]);
                        assert(listed_rows(all, include_unpublished) == listed_prefix(
                            all,
                            include_unpublished,
                            n,
                        ));
                        assert(listed_rows(all, include_unpublished)[m] == all[k]);
                        assert forall|j: int| 0 <= j < m implies event_of(
                            #[trigger] listed_rows(all, include_unpublished)[j],
                        ) is Some by {
                            assert(listed_prefix(all, include_unpublished, k + 1)[j] == before[j]);
                            assert(Some(out@[j]) == event_of(before[j]));
                        }
                    }
                    return Err(e);
                },
            }
        } else {
            assert(listed_prefix(all, include_unpublished, k + 1) == before);
        }
    }
    proof {
        assert(listed_rows(all, include_unpublished) == listed_prefix(all, include_unpublished, n));
        lemma_listed_prefix_listed(all, include_unpublished, n);
        assert forall|i: int|
            0 <= i < listed_rows(all, include_unpublished).len() implies event_of(
            #[trigger] listed_rows(all, include_unpublished)[i],
        ) is Some by {
            assert(Some(out@[i]) == event_of(listed_rows(all, include_unpublished)[i]));
        }
        assert forall|i: int| 0 <= i < out@.len() implies (#[trigger] out@[i]).published
            || include_unpublished by {
            let row_i = listed_rows(all, include_unpublished)[i];
            assert(listed(row_i, include_unpublished));
            assert(Some(out@[i]) == event_of(row_i));
        }
    }
    Ok(out)
}

/// Listing more rows never changes the listed rows found so far.
proof fn lemma_listed_prefix_extends(rows: Seq<EventRow>, include_unpublished: bool, m: int, n: int)
    requires
        0 <= m <= n <= rows.len(),
    ensures
        listed_prefix(rows, include_unpublished, m).len() <= listed_prefix(
            rows,
            include_unpublished,
            n,
        ).len(),
        forall|i: int|
            0 <= i < listed_prefix(rows, include_unpublished, m).len() ==> listed_prefix(
                rows,
                include_unpublished,
                n,
            )[i] == #[trigger] listed_prefix(rows, include_unpublished, m)[i],
    decreases n - m,
{
    if m < n {
        lemma_listed_prefix_extends(rows, include_unpublished, m, n - 1);
    }
}

/// Drafts are only visible to logged-in members: without a session, a
/// listing that the access check lets through holds published rows only,
/// and each becomes a published event.
pub proof fn lemma_public_listing_shows_no_drafts(
    rows: Seq<EventRow>,
    include_unpublished: bool,
    has_session: bool,
)
    requires
        !has_session,
        !include_unpublished || has_session,
    ensures
        forall|i: int|
            0 <= i < listed_rows(rows, include_unpublished).len() ==> (#[trigger] listed_rows(
                rows,
                include_unpublished,
            )[i]).published == 1,
        forall|i: int|
            0 <= i < listed_rows(rows, include_unpublished).len() ==> (event_of(
                #[trigger] listed_rows(rows, include_unpublished)[i],
            ) matches Some(ev) ==> ev.published),
{
    lemma_listed_prefix_listed(rows, include_unpublished, rows.len() as int);
}

/// The event a viewer gets for a slug: unknown slugs and, without a
/// session, drafts are both 404. Without a session, the event returned is
/// published.
pub fn event_for_viewer(row: Option<EventRow>, has_session: bool) -> (r: Result<Event, ApiError>)
    ensures
        match row {
            None => r matches Err(ApiError::NotFound),
            Some(row) => if row.published == 0 && !has_session {
                r matches Err(ApiError::NotFound)
            } else {
                match event_of(row) {
                    Some(ev) => r == Ok::<Event, ApiError>(ev),
                    None => r matches Err(e) && event_row_error(row, e),
                }
            },
        },
        !has_session ==> (r matches Ok(ev) ==> ev.published),
{
    let row = match row {
        Some(row) => row,
        None => return Err(ApiError::NotFound),
    };
    if row.published == 0 && !has_session {
        return Err(ApiError::NotFound);
    }
    row.into_event()
}

// --- laws of conversion and validation ---------------------------------------------

/// A stored row converts exactly when each of its id, start, end, acts,
/// creation and update columns is readable, and the event it converts to
/// carries what each column denotes: the UUID of the id, the instant of
/// each timestamp, the parsed acts, every text column unchanged, and
/// `published` for any flag other than 0.
pub proof fn lemma_event_carries_its_columns(row: EventRow)
    ensures
        event_of(row) is Some <==> (uuid_value(row.id@) is Some && rfc3339_instant(
            row.date_time_start@,
        ) is Some && rfc3339_instant(row.date_time_end@) is Some && row.acts is Parsed
            && rfc3339_instant(row.created_at@) is Some && rfc3339_instant(row.updated_at@) is Some),
        event_of(row) matches Some(ev) ==> {
            &&& uuid_value(row.id@) == Some(ev.id)
            &&& rfc3339_instant(row.date_time_start@) == Some(
                (ev.date_time_start.seconds, ev.date_time_start.nanos),
            )
            &&& rfc3339_instant(row.date_time_end@) == Some(
                (ev.date_time_end.seconds, ev.date_time_end.nanos),
            )
            &&& rfc3339_instant(row.created_at@) == Some(
                (ev.created_at.seconds, ev.created_at.nanos),
            )
            &&& rfc3339_instant(row.updated_at@) == Some(
                (ev.updated_at.seconds, ev.updated_at.nanos),
            )
            &&& row.acts == StoredActs::Parsed(ev.acts)
            &&& ev.slug == row.slug
            &&& ev.title == row.title
            &&& ev.description == row.description
            &&& ev.location.name == row.location_name
            &&& ev.location.city == row.location_city
            &&& ev.location.latitude_bits == row.location_latitude_bits
            &&& ev.location.longitude_bits == row.location_longitude_bits
            &&& ev.ticket_link == row.ticket_link
            &&& ev.genre == row.genre
            &&& ev.age_restriction == row.age_restriction
            &&& ev.image_url == row.image_url
            &&& ev.image_alt == row.image_alt
            &&& ev.published == (row.published != 0)
        },
{
}

/// A link is acceptable: an https URL, or (where allowed) site-relative.
pub open spec fn acceptable_link(value: Seq<char>, allow_relative: bool) -> bool {
    starts_with_spec(value, "https://"@) || (allow_relative && starts_with_spec(value, "/"@))
}

/// An artist is acceptable: a name that is not blank, and an https link if
/// any.
pub open spec fn acceptable_artist(artist: Artist) -> bool {
    &&& !all_white_space(artist.name@)
    &&& (artist.url matches Some(url) ==> acceptable_link(url@, false))
}

/// An act is acceptable: at least one artist, each of them acceptable.
pub open spec fn acceptable_act(act: Act) -> bool {
    &&& act.artists@.len() > 0
    &&& forall|j: int| 0 <= j < act.artists@.len() ==> acceptable_artist(#[trigger] act.artists@[j])
}

/// What an event needs to be accepted, field by field.
pub open spec fn acceptable_payload(payload: EventPayload, coordinates_in_range: bool) -> bool {
    &&& !all_white_space(payload.title@)
    &&& payload.title@.len() <= 200
    &&& payload.date_time_start.seconds < payload.date_time_end.seconds || (
    payload.date_time_start.seconds == payload.date_time_end.seconds
        && payload.date_time_start.nanos < payload.date_time_end.nanos)
    &&& coordinates_in_range
    &&& !all_white_space(payload.location.name@)
    &&& !all_white_space(payload.location.city@)
    &&& (payload.ticket_link matches Some(link) ==> link@.len() == 0 || acceptable_link(
        link@,
        false,
    ))
    &&& (payload.image_url matches Some(image) ==> acceptable_link(image@, true))
    &&& forall|i: int| 0 <= i < payload.acts@.len() ==> acceptable_act(#[trigger] payload.acts@[i])
}

proof fn lemma_artists_error(artists: Seq<Artist>, from: int)
    requires
        0 <= from <= artists.len(),
    ensures
        artists_error(artists, from) is None <==> forall|j: int|
            from <= j < artists.len() ==> acceptable_artist(#[trigger] artists[j]),
    decreases artists.len() - from,
{
    if from < artists.len() {
        lemma_artists_error(artists, from + 1);
        if artists_error(artists, from) is None {
            assert forall|j: int| from <= j < artists.len() implies acceptable_artist(
                #[trigger] artists[j],
            ) by {
                if j > from {
                    assert(from + 1 <= j);
                }
            }
        }
    }
}

proof fn lemma_acts_error(acts: Seq<Act>, from: int)
    requires
        0 <= from <= acts.len(),
    ensures
        acts_error(acts, from) is None <==> forall|i: int|
            from <= i < acts.len() ==> acceptable_act(#[trigger] acts[i]),
    decreases acts.len() - from,
{
    if from < acts.len() {
        lemma_acts_error(acts, from + 1);
        lemma_artists_error(acts[from].artists@, 0);
        if acts_error(acts, from) is None {
            assert forall|i: int| from <= i < acts.len() implies acceptable_act(#[trigger] acts[i]) by {
                if i > from {
                    assert(from + 1 <= i);
                }
            }
        }
    }
}

/// A payload is refused exactly when one of its fields is not acceptable:
/// a blank or over-long title, an end not after the start, coordinates out
/// of range, a blank location, a ticket link that is neither empty nor
/// https, an image link that is neither https nor site-relative, or an act
/// without artists or with a blank or non-https artist.
pub proof fn lemma_payload_accepted_exactly_when_acceptable(
    payload: EventPayload,
    coordinates_in_range: bool,
)
    ensures
        payload_error(payload, coordinates_in_range) is None <==> acceptable_payload(
            payload,
            coordinates_in_range,
        ),
{
    lemma_acts_error(payload.acts@, 0);
}


/// A slug is accepted exactly when it has 1 to 64 characters, starts with a
/// lower-case ASCII letter or a digit, and holds only those and `-`.
pub proof fn lemma_slug_rule(slug: Seq<char>)
    ensures
        slug_error(slug) is None <==> (1 <= slug.len() <= 64 && (('a' <= slug[0] <= 'z') || ('0'
            <= slug[0] <= '9')) && forall|i: int|
            0 <= i < slug.len() ==> {
                let c = #[trigger] slug[i];
                ('a' <= c <= 'z') || ('0' <= c <= '9') || c == '-'
            }),
{
}

} // verus!

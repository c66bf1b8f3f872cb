//! Scenario tests for the cache-augmented fetch orchestration, driven by
//! a scripted transport that counts every call it receives.

use libveezi::attr::{Attribute, AttributeId};
use libveezi::client::{Client, ClientBuilder, Transport};
use libveezi::error::{ApiResult, LibVeeziError};
use libveezi::film::{Film, FilmFormat, FilmId, FilmStatus};
use libveezi::package::{FilmPackage, FilmPackageId, PackageFilm};
use libveezi::screen::{Screen, ScreenId};
use libveezi::session::{
    SalesVia, Seating, Session, SessionId, SessionList, SessionStatus, ShowType,
};
use libveezi::site::Site;

/// A scripted transport: serves fixed data and counts its calls.
struct MockTransport {
    calls: u32,
    fail: bool,
    sessions: Vec<Session>,
    films: Vec<Film>,
    packages: Vec<FilmPackage>,
    screens: Vec<Screen>,
    attributes: Vec<Attribute>,
    site: Option<Site>,
}

impl MockTransport {
    fn new() -> Self {
        MockTransport {
            calls: 0,
            fail: false,
            sessions: Vec::new(),
            films: Vec::new(),
            packages: Vec::new(),
            screens: Vec::new(),
            attributes: Vec::new(),
            site: None,
        }
    }

    fn check(&mut self) -> Result<(), LibVeeziError> {
        self.calls += 1;
        if self.fail {
            Err(LibVeeziError::Http("scripted failure".to_string()))
        } else {
            Ok(())
        }
    }
}

impl Transport for MockTransport {
    fn fetch_session_list(&mut self, _path: &str) -> ApiResult<Vec<Session>> {
        self.check()?;
        Ok(self.sessions.clone())
    }

    fn fetch_session(&mut self, path: &str) -> ApiResult<Session> {
        self.check()?;
        let id = path.strip_prefix("v1/session/").unwrap_or("");
        self.sessions
            .iter()
            .find(|s| s.id.into_u32().to_string() == id)
            .cloned()
            .ok_or_else(|| LibVeeziError::Http("not found".to_string()))
    }

    fn fetch_film_list(&mut self, _path: &str) -> ApiResult<Vec<Film>> {
        self.check()?;
        Ok(self.films.clone())
    }

    fn fetch_film(&mut self, path: &str) -> ApiResult<Film> {
        self.check()?;
        let id = path.strip_prefix("v4/film/").unwrap_or("");
        self.films
            .iter()
            .find(|f| f.id.as_str() == id)
            .cloned()
            .ok_or_else(|| LibVeeziError::Http("not found".to_string()))
    }

    fn fetch_film_package_list(&mut self, _path: &str) -> ApiResult<Vec<FilmPackage>> {
        self.check()?;
        Ok(self.packages.clone())
    }

    fn fetch_film_package(&mut self, path: &str) -> ApiResult<FilmPackage> {
        self.check()?;
        let id = path.strip_prefix("v1/filmpackage/").unwrap_or("");
        self.packages
            .iter()
            .find(|p| p.id.into_u32().to_string() == id)
            .cloned()
            .ok_or_else(|| LibVeeziError::Http("not found".to_string()))
    }

    fn fetch_screen_list(&mut self, _path: &str) -> ApiResult<Vec<Screen>> {
        self.check()?;
        Ok(self.screens.clone())
    }

    fn fetch_screen(&mut self, path: &str) -> ApiResult<Screen> {
        self.check()?;
        let id = path.strip_prefix("v1/screen/").unwrap_or("");
        self.screens
            .iter()
            .find(|s| s.id.into_u32().to_string() == id)
            .cloned()
            .ok_or_else(|| LibVeeziError::Http("not found".to_string()))
    }

    fn fetch_site(&mut self, _path: &str) -> ApiResult<Site> {
        self.check()?;
        self.site
            .clone()
            .ok_or_else(|| LibVeeziError::Http("not found".to_string()))
    }

    fn fetch_attribute_list(&mut self, _path: &str) -> ApiResult<Vec<Attribute>> {
        self.check()?;
        Ok(self.attributes.clone())
    }

    fn fetch_attribute(&mut self, path: &str) -> ApiResult<Attribute> {
        self.check()?;
        let id = path.strip_prefix("v1/attribute/").unwrap_or("");
        self.attributes
            .iter()
            .find(|a| a.id.as_str() == id)
            .cloned()
            .ok_or_else(|| LibVeeziError::Http("not found".to_string()))
    }
}

fn make_session(id: u32, film: &str, screen: u32, start: u64) -> Session {
    Session {
        id: SessionId::new(id),
        film_id: FilmId::new(film.to_string()),
        film_package_id: None,
        title: format!("Title {id}"),
        screen_id: ScreenId::new(screen),
        seating: Seating::Open,
        are_complimentaries_allowed: false,
        show_type: ShowType::Public,
        sales_via: SalesVia {
            kiosk: true,
            pos: true,
            www: true,
            mx: false,
            rsp: false,
        },
        status: SessionStatus::Open,
        pre_show_start_time: start,
        sales_cut_off_time: start + 1800,
        feature_start_time: start + 900,
        feature_end_time: start + 7200,
        cleanup_end_time: start + 7800,
        tickets_sold_out: false,
        few_tickets_left: false,
        seats_available: 80,
        seats_held: 0,
        seats_house: 2,
        seats_sold: 10,
        film_format: FilmFormat::Digital2D,
        price_card_name: "Standard".to_string(),
        attributes: Vec::new(),
        audio_language: None,
    }
}

fn make_film(id: &str, title: &str) -> Film {
    Film {
        id: FilmId::new(id.to_string()),
        title: title.to_string(),
        short_name: title.to_string(),
        synopsis: None,
        genre: "Drama".to_string(),
        signage_text: title.to_string(),
        distributor: "Indie".to_string(),
        opening_date: 1_700_000_000,
        rating: Some("PG".to_string()),
        status: FilmStatus::Active,
        content: None,
        duration: 100,
        display_sequence: 1,
        national_code: None,
        format: FilmFormat::Digital2D,
        is_restricted: false,
        people: Vec::new(),
        audio_language: None,
        government_film_title: None,
        film_poster_url: None,
        film_poster_thumbnail_url: "x".to_string(),
        backdrop_image_url: None,
        film_trailer_url: None,
    }
}

fn make_package(id: u32, title: &str, film_ids: &[&str]) -> FilmPackage {
    FilmPackage {
        id: FilmPackageId::new(id),
        title: title.to_string(),
        status: FilmStatus::Active,
        films: film_ids
            .iter()
            .enumerate()
            .map(|(i, f)| PackageFilm {
                film_id: FilmId::new(f.to_string()),
                title: format!("Part {i}"),
                split_percent_bits: 50.0f32.to_bits(),
                trailer_duration: 10,
                clean_up_duration: 15,
                order: i as u32,
            })
            .collect(),
    }
}

fn cached_client(mock: MockTransport) -> Client<MockTransport> {
    ClientBuilder::new_with_http("https://api.example.com/", "SECRET-REDACTED".to_string(), mock)
        .with_default_caching()
        .build()
        .expect("valid base URL")
}

fn bare_client(mock: MockTransport) -> Client<MockTransport> {
    ClientBuilder::new_with_http("https://api.example.com/", "SECRET-REDACTED".to_string(), mock)
        .build()
        .expect("valid base URL")
}

#[test]
fn get_session_twice_within_ttl_hits_the_cache() {
    let mut mock = MockTransport::new();
    mock.sessions = vec![make_session(7, "F1", 1, 1000)];
    let mut client = cached_client(mock);
    let now: u64 = 50_000;

    let first = client.get_session(now, SessionId::new(7)).expect("first fetch");
    assert_eq!(client.transport.calls, 1);
    let second = client.get_session(now + 29, SessionId::new(7)).expect("second fetch");
    assert_eq!(client.transport.calls, 1);
    assert_eq!(first, second);
}

#[test]
fn get_session_after_ttl_expiry_fetches_again() {
    let mut mock = MockTransport::new();
    mock.sessions = vec![make_session(7, "F1", 1, 1000)];
    let mut client = cached_client(mock);
    let now: u64 = 50_000;

    client.get_session(now, SessionId::new(7)).expect("first fetch");
    assert_eq!(client.transport.calls, 1);
    // default session TTL is 30 seconds; at exactly +30 the entry is expired
    client.get_session(now + 30, SessionId::new(7)).expect("second fetch");
    assert_eq!(client.transport.calls, 2);
}

#[test]
fn invalidating_one_session_also_drops_the_list_cache() {
    let mut mock = MockTransport::new();
    mock.sessions = vec![make_session(1, "F1", 1, 1000), make_session(2, "F2", 2, 2000)];
    let mut client = cached_client(mock);
    let now: u64 = 50_000;

    client.list_sessions(now).expect("list");
    assert_eq!(client.transport.calls, 1);
    client.list_sessions(now + 1).expect("list again");
    assert_eq!(client.transport.calls, 1);

    client.invalidate_cached_session(SessionId::new(1));

    // the invalidated item misses
    client.get_session(now + 2, SessionId::new(1)).expect("get");
    assert_eq!(client.transport.calls, 2);
    // and the list cache was dropped along with it, even though its TTL
    // had not passed
    client.list_sessions(now + 3).expect("list after invalidate");
    assert_eq!(client.transport.calls, 3);
}

#[test]
fn list_then_get_each_member_needs_one_call_total() {
    let mut mock = MockTransport::new();
    mock.sessions = vec![
        make_session(1, "F1", 1, 1000),
        make_session(2, "F2", 2, 2000),
        make_session(3, "F3", 3, 3000),
    ];
    let mut client = cached_client(mock);
    let now: u64 = 50_000;

    let list = client.list_sessions(now).expect("list");
    assert_eq!(client.transport.calls, 1);
    for s in list.as_vec() {
        let got = client.get_session(now + 1, s.id).expect("get by id");
        assert_eq!(&got, s);
    }
    assert_eq!(client.transport.calls, 1);
}

#[test]
fn invalidate_all_twice_is_a_no_op_the_second_time() {
    let mut mock = MockTransport::new();
    mock.sessions = vec![make_session(1, "F1", 1, 1000)];
    mock.films = vec![make_film("F1", "Dust")];
    let mut client = cached_client(mock);
    let now: u64 = 50_000;

    client.list_sessions(now).expect("list sessions");
    client.list_films(now).expect("list films");
    assert_eq!(client.transport.calls, 2);

    client.invalidate_all_caches();
    client.invalidate_all_caches();

    client.list_sessions(now + 1).expect("list sessions again");
    client.list_films(now + 1).expect("list films again");
    assert_eq!(client.transport.calls, 4);
}

#[test]
fn without_caching_every_call_reaches_the_transport() {
    let mut mock = MockTransport::new();
    mock.sessions = vec![make_session(1, "F1", 1, 1000)];
    mock.films = vec![make_film("F1", "Dust")];
    let mut client = bare_client(mock);
    let now: u64 = 50_000;

    client.get_session(now, SessionId::new(1)).expect("get");
    client.get_session(now, SessionId::new(1)).expect("get");
    client.list_sessions(now).expect("list");
    client.list_sessions(now).expect("list");
    client.list_films(now).expect("films");
    client.get_film(now, &FilmId::new("F1".to_string())).expect("film");
    assert_eq!(client.transport.calls, 6);
}

#[test]
fn film_package_list_backfills_both_items() {
    let mut mock = MockTransport::new();
    mock.packages = vec![
        make_package(1, "Double A", &["F1", "F2"]),
        make_package(2, "Double B", &["F3", "F4"]),
    ];
    let mut client = cached_client(mock);
    let now: u64 = 50_000;

    let listed = client.list_film_packages(now).expect("list packages");
    assert_eq!(listed.len(), 2);
    assert_eq!(client.transport.calls, 1);

    let p2 = client.get_film_package(now + 1, FilmPackageId::new(2)).expect("get package 2");
    assert_eq!(client.transport.calls, 1);
    assert_eq!(p2, listed[1]);
    let p1 = client.get_film_package(now + 1, FilmPackageId::new(1)).expect("get package 1");
    assert_eq!(client.transport.calls, 1);
    assert_eq!(p1, listed[0]);
}

#[test]
fn films_with_sessions_in_date_range_are_unique_in_first_seen_order() {
    let jan_1: u64 = 19723 * 86400;
    let jan_31: u64 = 19753 * 86400;
    let mut mock = MockTransport::new();
    mock.sessions = vec![
        make_session(1, "F2", 1, jan_1 + 3600),
        make_session(2, "F1", 2, jan_1 + 7200),
        make_session(3, "F2", 3, jan_1 + 9000),
        make_session(4, "F3", 4, jan_31 + 90_000), // the following day: outside
    ];
    mock.films = vec![make_film("F1", "Dust"), make_film("F2", "Echo"), make_film("F3", "Fern")];
    let mut client = cached_client(mock);
    let now: u64 = 50_000;

    let films = client
        .list_films_with_sessions_in_date_range(now, 19723, 19753)
        .expect("films in range");
    let ids: Vec<&str> = films.iter().map(|f| f.id.as_str()).collect();
    assert_eq!(ids, vec!["F2", "F1"]);
}

#[test]
fn web_session_list_seeds_the_shared_session_item_cache() {
    let mut mock = MockTransport::new();
    mock.sessions = vec![make_session(9, "F1", 1, 1000)];
    let mut client = cached_client(mock);
    let now: u64 = 50_000;

    client.list_web_sessions(now).expect("web list");
    assert_eq!(client.transport.calls, 1);
    // the member is now served from the shared session item cache
    client.get_session(now + 1, SessionId::new(9)).expect("get");
    assert_eq!(client.transport.calls, 1);
    // but the ordinary session list cache was not touched
    client.list_sessions(now + 1).expect("list");
    assert_eq!(client.transport.calls, 2);
}

#[test]
fn failed_fetch_leaves_caches_unpoisoned() {
    let mut mock = MockTransport::new();
    mock.sessions = vec![make_session(1, "F1", 1, 1000)];
    mock.fail = true;
    let mut client = cached_client(mock);
    let now: u64 = 50_000;

    let err = client.get_session(now, SessionId::new(1));
    assert!(matches!(err, Err(LibVeeziError::Http(_))));
    assert_eq!(client.transport.calls, 1);

    client.transport.fail = false;
    // nothing was cached by the failure: the next call goes out again
    client.get_session(now + 1, SessionId::new(1)).expect("get after failure");
    assert_eq!(client.transport.calls, 2);
    // and from then on the cache serves
    client.get_session(now + 2, SessionId::new(1)).expect("cached get");
    assert_eq!(client.transport.calls, 2);
}

#[test]
fn site_cache_serves_repeat_requests() {
    let mut mock = MockTransport::new();
    mock.site = Some(Site {
        name: "Grand".to_string(),
        short_name: "GR".to_string(),
        legal_name: "Grand Cinema Ltd".to_string(),
        national_code: None,
        address_1: Some("1 Main St".to_string()),
        address_2: None,
        address_3: None,
        post_code: None,
        phone_1: None,
        phone_2: None,
        fax: None,
        sales_tax_registration: None,
        ticket_message_1: None,
        ticket_message_2: None,
        receipt_message_1: None,
        receipt_message_2: None,
        receipt_message_3: None,
        receipt_message_4: None,
        receipt_message_5: None,
        receipt_message_6: None,
        time_zone_identifier: "America/Chicago".to_string(),
        country: "USA".to_string(),
        screens: vec![1, 2],
    });
    let mut client = cached_client(mock);
    let now: u64 = 50_000;

    let a = client.get_site(now).expect("site");
    let b = client.get_site(now + 1).expect("site again");
    assert_eq!(client.transport.calls, 1);
    assert_eq!(a, b);
    client.invalidate_cached_site();
    client.get_site(now + 2).expect("site after invalidate");
    assert_eq!(client.transport.calls, 2);
}

#[test]
fn item_cache_capacity_evicts_the_oldest_entry() {
    let mut mock = MockTransport::new();
    mock.sessions = vec![make_session(1, "F1", 1, 1000), make_session(2, "F2", 2, 2000)];
    let mut client =
        ClientBuilder::new_with_http("https://api.example.com/", "SECRET-REDACTED".to_string(), mock)
            .with_session_cache(600, 1)
            .build()
            .expect("valid base URL");
    let now: u64 = 50_000;

    client.get_session(now, SessionId::new(1)).expect("get 1");
    client.get_session(now, SessionId::new(2)).expect("get 2");
    assert_eq!(client.transport.calls, 2);
    // session 2 occupies the single slot
    client.get_session(now + 1, SessionId::new(2)).expect("get 2 again");
    assert_eq!(client.transport.calls, 2);
    // session 1 was evicted to make room
    client.get_session(now + 1, SessionId::new(1)).expect("get 1 again");
    assert_eq!(client.transport.calls, 3);
}

#[test]
fn invalid_base_url_is_rejected_at_build_time() {
    let mock = MockTransport::new();
    let err = ClientBuilder::new_with_http("not a url", "SECRET-REDACTED".to_string(), mock).build();
    assert!(matches!(err, Err(LibVeeziError::UrlParse(_))));
}

#[test]
fn derived_film_queries_share_the_film_list_cache() {
    let mut mock = MockTransport::new();
    mock.films = vec![make_film("F1", "Dust"), make_film("F2", "Echo")];
    let mut client = cached_client(mock);
    let now: u64 = 50_000;

    let by_title = client.get_film_by_title(now, "Echo").expect("by title");
    assert_eq!(by_title.expect("found").id.as_str(), "F2");
    assert_eq!(client.transport.calls, 1);
    let by_genre = client.list_films_by_genre(now + 1, "Drama").expect("by genre");
    assert_eq!(by_genre.len(), 2);
    assert_eq!(client.transport.calls, 1);
    let missing = client.get_film_by_title(now + 2, "Nope").expect("by title");
    assert!(missing.is_none());
    assert_eq!(client.transport.calls, 1);
}

#[test]
fn list_sessions_wraps_and_returns_the_fetched_sessions() {
    let mut mock = MockTransport::new();
    mock.sessions = vec![make_session(5, "F9", 3, 4000)];
    let mut client = bare_client(mock);
    let list: SessionList = client.list_sessions(1).expect("list");
    let v = list.as_vec();
    assert_eq!(v.len(), 1);
    assert_eq!(v[0].id.into_u32(), 5);
    assert_eq!(v[0].film_id.as_str(), "F9");
}

#[test]
fn empty_list_fetch_caches_the_empty_list_and_fills_no_items() {
    let mock = MockTransport::new();
    let mut client = cached_client(mock);
    let now: u64 = 50_000;

    let list = client.list_sessions(now).expect("empty list");
    assert_eq!(list.as_vec().len(), 0);
    assert_eq!(client.transport.calls, 1);
    // the empty list itself is cached
    client.list_sessions(now + 1).expect("empty list again");
    assert_eq!(client.transport.calls, 1);
    // but no item was backfilled
    let miss = client.get_session(now + 2, SessionId::new(1));
    assert!(miss.is_err());
    assert_eq!(client.transport.calls, 2);
}

#[test]
fn duplicate_ids_in_a_list_backfill_to_the_last_occurrence() {
    let mut mock = MockTransport::new();
    let mut early = make_session(4, "F1", 1, 1000);
    early.seats_available = 10;
    let mut late = make_session(4, "F1", 1, 1000);
    late.seats_available = 99;
    mock.sessions = vec![early, late];
    let mut client = cached_client(mock);
    let now: u64 = 50_000;

    client.list_sessions(now).expect("list");
    assert_eq!(client.transport.calls, 1);
    let got = client.get_session(now + 1, SessionId::new(4)).expect("cached get");
    assert_eq!(client.transport.calls, 1);
    assert_eq!(got.seats_available, 99);
}

#[test]
fn session_attributes_resolve_in_order_from_the_cache() {
    let mut mock = MockTransport::new();
    mock.attributes = vec![
        Attribute {
            id: AttributeId::new("SUB".to_string()),
            description: "Subtitled".to_string(),
            short_name: "SUB".to_string(),
            font_color: "#fff".to_string(),
            background_color: "#000".to_string(),
            show_on_sessions_with_no_comps: true,
        },
        Attribute {
            id: AttributeId::new("ATMOS".to_string()),
            description: "Dolby Atmos".to_string(),
            short_name: "ATMOS".to_string(),
            font_color: "#fff".to_string(),
            background_color: "#000".to_string(),
            show_on_sessions_with_no_comps: false,
        },
    ];
    let mut session = make_session(1, "F1", 1, 1000);
    session.attributes = vec![
        AttributeId::new("ATMOS".to_string()),
        AttributeId::new("SUB".to_string()),
    ];
    let mut client = cached_client(mock);
    let now: u64 = 50_000;

    // the attribute list call backfills the item cache with both entries
    client.list_attributes(now).expect("list attributes");
    assert_eq!(client.transport.calls, 1);

    let resolved = session.attributes(&mut client, now + 1).expect("resolve");
    assert_eq!(client.transport.calls, 1);
    assert_eq!(resolved.len(), 2);
    assert_eq!(resolved[0].id.as_str(), "ATMOS");
    assert_eq!(resolved[1].id.as_str(), "SUB");
}

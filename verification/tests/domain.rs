//! Tests for the pure domain operations: filters, grouping,
//! deduplication, finders and text formatting.

use libveezi::attr::{Attribute, AttributeId, find_attribute_by_short_name};
use libveezi::client::{attribute_path, film_path, film_package_path, screen_path, session_path};
use libveezi::error::LibVeeziError;
use libveezi::film::{
    Film, FilmFormat, FilmId, FilmStatus, Person, PersonId, find_film_by_title, films_with_genre,
};
use libveezi::package::FilmPackageId;
use libveezi::screen::{Screen, ScreenId};
use libveezi::session::{
    SalesVia, Seating, Session, SessionId, SessionList, SessionStatus, ShowType,
};
use libveezi::text::decimal_string;

fn make_session(id: u32, film: &str, screen: u32, start: u64) -> Session {
    Session {
        id: SessionId::new(id),
        film_id: FilmId::new(film.to_string()),
        film_package_id: None,
        title: format!("Title {id}"),
        screen_id: ScreenId::new(screen),
        seating: Seating::Allocated,
        are_complimentaries_allowed: true,
        show_type: ShowType::Public,
        sales_via: SalesVia {
            kiosk: false,
            pos: true,
            www: true,
            mx: false,
            rsp: false,
        },
        status: SessionStatus::Open,
        pre_show_start_time: start,
        sales_cut_off_time: start + 1800,
        feature_start_time: start + 900,
        feature_end_time: start + 7200,
        cleanup_end_time: start + 7800,
        tickets_sold_out: false,
        few_tickets_left: false,
        seats_available: 100,
        seats_held: 2,
        seats_house: 4,
        seats_sold: 50,
        film_format: FilmFormat::Digital2D,
        price_card_name: "Standard".to_string(),
        attributes: vec![AttributeId::new("ATMOS".to_string())],
        audio_language: None,
    }
}

fn make_film(id: &str, title: &str, genre: &str) -> Film {
    Film {
        id: FilmId::new(id.to_string()),
        title: title.to_string(),
        short_name: title.chars().take(10).collect(),
        synopsis: None,
        genre: genre.to_string(),
        signage_text: title.to_uppercase(),
        distributor: "Indie".to_string(),
        opening_date: 1_700_000_000,
        rating: None,
        status: FilmStatus::Active,
        content: None,
        duration: 125,
        display_sequence: 1,
        national_code: None,
        format: FilmFormat::Digital2D,
        is_restricted: false,
        people: vec![
            Person {
                id: PersonId::new("p1".to_string()),
                first_name: "Greta".to_string(),
                last_name: "Stone".to_string(),
                role: "Director".to_string(),
            },
            Person {
                id: PersonId::new("p2".to_string()),
                first_name: "Ada".to_string(),
                last_name: "Quill".to_string(),
                role: "Actor".to_string(),
            },
            Person {
                id: PersonId::new("p3".to_string()),
                first_name: "Bram".to_string(),
                last_name: "Hale".to_string(),
                role: "Actor".to_string(),
            },
        ],
        audio_language: None,
        government_film_title: None,
        film_poster_url: None,
        film_poster_thumbnail_url: "https://img.example/t.jpg".to_string(),
        backdrop_image_url: None,
        film_trailer_url: None,
    }
}

#[test]
fn open_for_sales_depends_on_status_cutoff_and_seats() {
    let now: u64 = 1_700_000_000;
    let mut s = make_session(1, "F1", 1, now);
    s.status = SessionStatus::Open;
    s.sales_cut_off_time = now + 3600;
    s.seats_available = 5;
    assert!(s.is_open_for_sales(now));

    s.seats_available = 0;
    assert!(!s.is_open_for_sales(now));

    s.seats_available = 5;
    s.status = SessionStatus::Closed;
    assert!(!s.is_open_for_sales(now));

    s.status = SessionStatus::Open;
    assert!(!s.is_open_for_sales(now + 3600));
    assert!(s.is_open_for_sales(now + 3599));
}

#[test]
fn filter_by_screen_keeps_only_matching_sessions() {
    let list = SessionList::from(vec![
        make_session(1, "F1", 1, 100),
        make_session(2, "F2", 2, 200),
        make_session(3, "F3", 1, 300),
    ]);
    let filtered = list.filter_by_screen(ScreenId::new(1));
    let v = filtered.as_vec();
    assert_eq!(v.len(), 2);
    assert_eq!(v[0].id.into_u32(), 1);
    assert_eq!(v[1].id.into_u32(), 3);
}

#[test]
fn filter_by_film_keeps_only_matching_sessions() {
    let list = SessionList::from(vec![
        make_session(1, "F1", 1, 100),
        make_session(2, "F2", 2, 200),
        make_session(3, "F1", 3, 300),
    ]);
    let filtered = list.filter_by_film(&FilmId::new("F1".to_string()));
    let v = filtered.as_vec();
    assert_eq!(v.len(), 2);
    assert_eq!(v[0].id.into_u32(), 1);
    assert_eq!(v[1].id.into_u32(), 3);
}

#[test]
fn filter_containing_attribute_checks_membership() {
    let mut a = make_session(1, "F1", 1, 100);
    a.attributes = vec![
        AttributeId::new("ATMOS".to_string()),
        AttributeId::new("3D".to_string()),
    ];
    let mut b = make_session(2, "F2", 2, 200);
    b.attributes = vec![AttributeId::new("3D".to_string())];
    let list = SessionList::from(vec![a, b]);
    let filtered = list.filter_containing_attribute(&AttributeId::new("ATMOS".to_string()));
    let v = filtered.as_vec();
    assert_eq!(v.len(), 1);
    assert_eq!(v[0].id.into_u32(), 1);
}

#[test]
fn filter_by_time_range_is_inclusive() {
    let list = SessionList::from(vec![
        make_session(1, "F1", 1, 100),
        make_session(2, "F2", 2, 200),
        make_session(3, "F3", 3, 300),
        make_session(4, "F4", 4, 301),
    ]);
    let filtered = list.filter_by_time_range(200, 300);
    let v = filtered.as_vec();
    assert_eq!(v.len(), 2);
    assert_eq!(v[0].id.into_u32(), 2);
    assert_eq!(v[1].id.into_u32(), 3);
}

#[test]
fn filter_by_date_range_includes_the_whole_end_day() {
    // days 19723 and 19753 bound January 2024; every instant of both
    // boundary days is inside the range.
    let jan_1: u64 = 19723 * 86400;
    let jan_31: u64 = 19753 * 86400;
    let feb_1: u64 = 19754 * 86400;
    let list = SessionList::from(vec![
        make_session(1, "F1", 1, jan_1),
        make_session(2, "F2", 2, jan_1 + 7200),
        make_session(3, "F3", 3, jan_31),
        make_session(4, "F4", 4, jan_31 + 79200),
        make_session(5, "F5", 5, jan_1 - 1),
        make_session(6, "F6", 6, feb_1),
    ]);
    let filtered = list.filter_by_date_range(19723, 19753);
    let v = filtered.as_vec();
    assert_eq!(v.len(), 4);
    assert_eq!(v[0].id.into_u32(), 1);
    assert_eq!(v[1].id.into_u32(), 2);
    assert_eq!(v[2].id.into_u32(), 3);
    assert_eq!(v[3].id.into_u32(), 4);
}

#[test]
fn group_by_date_sorts_days_and_keeps_session_order() {
    let day: u64 = 86400;
    let list = SessionList::from(vec![
        make_session(1, "F1", 1, 5 * day + 10),
        make_session(2, "F2", 2, 3 * day + 20),
        make_session(3, "F3", 3, 5 * day + 30),
        make_session(4, "F4", 4, 4 * day),
    ]);
    let groups = list.group_by_date();
    assert_eq!(groups.len(), 3);
    assert_eq!(groups[0].0, 3);
    assert_eq!(groups[1].0, 4);
    assert_eq!(groups[2].0, 5);
    assert_eq!(groups[0].1.len(), 1);
    assert_eq!(groups[0].1[0].id.into_u32(), 2);
    assert_eq!(groups[2].1.len(), 2);
    assert_eq!(groups[2].1[0].id.into_u32(), 1);
    assert_eq!(groups[2].1[1].id.into_u32(), 3);
}

#[test]
fn distinct_film_ids_keeps_first_seen_order() {
    let list = SessionList::from(vec![
        make_session(1, "B", 1, 100),
        make_session(2, "A", 2, 200),
        make_session(3, "B", 3, 300),
        make_session(4, "C", 4, 400),
        make_session(5, "A", 5, 500),
    ]);
    let ids = list.distinct_film_ids();
    let texts: Vec<&str> = ids.iter().map(|i| i.as_str()).collect();
    assert_eq!(texts, vec!["B", "A", "C"]);
}

#[test]
fn sales_via_from_channels_sets_exactly_the_named_flags() {
    let channels = vec![
        "KIOSK".to_string(),
        "WWW".to_string(),
        "UNKNOWN".to_string(),
    ];
    let via = SalesVia::from_channels(&channels);
    assert!(via.kiosk);
    assert!(via.www);
    assert!(!via.pos);
    assert!(!via.mx);
    assert!(!via.rsp);

    let empty: Vec<String> = Vec::new();
    let none = SalesVia::from_channels(&empty);
    assert_eq!(none, SalesVia::none());
}

#[test]
fn formatted_duration_renders_hours_and_minutes() {
    let mut f = make_film("F1", "Dust", "Drama");
    f.duration = 125;
    assert_eq!(f.formatted_duration(), "2h 5m");
    f.duration = 120;
    assert_eq!(f.formatted_duration(), "2h");
    f.duration = 59;
    assert_eq!(f.formatted_duration(), "0h 59m");
}

#[test]
fn film_status_and_format_predicates() {
    let mut f = make_film("F1", "Dust", "Drama");
    assert!(f.is_active());
    assert!(f.is_2d());
    assert!(!f.is_3d());
    f.status = FilmStatus::Deleted;
    f.format = FilmFormat::Digital3DHFR;
    assert!(!f.is_active());
    assert!(f.is_3d());
    assert!(!f.is_2d());
}

#[test]
fn actors_and_directors_are_filtered_and_joined() {
    let f = make_film("F1", "Dust", "Drama");
    assert_eq!(f.actors().len(), 2);
    assert_eq!(f.directors().len(), 1);
    assert_eq!(f.actors_formatted(), "Ada Quill, Bram Hale");
    assert_eq!(f.directors_formatted(), "Greta Stone");
}

#[test]
fn rating_display_defaults_to_nr() {
    let mut f = make_film("F1", "Dust", "Drama");
    assert_eq!(f.rating_display(), "NR");
    f.rating = Some("PG-13".to_string());
    assert_eq!(f.rating_display(), "PG-13");
}

#[test]
fn find_film_by_title_returns_first_match() {
    let films = vec![
        make_film("F1", "Dust", "Drama"),
        make_film("F2", "Echo", "Drama"),
        make_film("F3", "Dust", "Horror"),
    ];
    let found = find_film_by_title(&films, "Dust").expect("should find a film");
    assert_eq!(found.id.as_str(), "F1");
    assert!(find_film_by_title(&films, "Nothing").is_none());
}

#[test]
fn films_with_genre_filters_in_order() {
    let films = vec![
        make_film("F1", "Dust", "Drama"),
        make_film("F2", "Echo", "Horror"),
        make_film("F3", "Fern", "Drama"),
    ];
    let dramas = films_with_genre(&films, "Drama");
    assert_eq!(dramas.len(), 2);
    assert_eq!(dramas[0].id.as_str(), "F1");
    assert_eq!(dramas[1].id.as_str(), "F3");
}

#[test]
fn find_attribute_by_short_name_returns_first_match() {
    let attrs = vec![
        Attribute {
            id: AttributeId::new("A1".to_string()),
            description: "Dolby Atmos".to_string(),
            short_name: "ATMOS".to_string(),
            font_color: "#fff".to_string(),
            background_color: "#000".to_string(),
            show_on_sessions_with_no_comps: false,
        },
        Attribute {
            id: AttributeId::new("A2".to_string()),
            description: "Subtitled".to_string(),
            short_name: "SUB".to_string(),
            font_color: "#fff".to_string(),
            background_color: "#000".to_string(),
            show_on_sessions_with_no_comps: true,
        },
    ];
    let found = find_attribute_by_short_name(&attrs, "SUB").expect("should find");
    assert_eq!(found.id.as_str(), "A2");
    assert!(find_attribute_by_short_name(&attrs, "XX").is_none());
}

#[test]
fn screen_list_round_trip_through_session_list() {
    let sessions = vec![make_session(1, "F1", 7, 100)];
    let list = SessionList::from(sessions);
    let back: Vec<Session> = list.into_vec();
    assert_eq!(back.len(), 1);
    assert_eq!(back[0].screen_id, ScreenId::new(7));
}

#[test]
fn endpoint_paths_follow_the_versioned_layout() {
    assert_eq!(session_path(SessionId::new(123)), "v1/session/123");
    assert_eq!(film_path(&FilmId::new("AbC9".to_string())), "v4/film/AbC9");
    assert_eq!(film_package_path(FilmPackageId::new(0)), "v1/filmpackage/0");
    assert_eq!(screen_path(ScreenId::new(4294967295)), "v1/screen/4294967295");
    assert_eq!(
        attribute_path(&AttributeId::new("ATMOS".to_string())),
        "v1/attribute/ATMOS"
    );
}

#[test]
fn decimal_rendering_matches_std() {
    for n in [0u32, 1, 9, 10, 99, 100, 12345, u32::MAX] {
        assert_eq!(decimal_string(n), n.to_string());
    }
}

#[test]
fn error_messages_carry_their_text() {
    let e = LibVeeziError::Http("boom".to_string());
    assert_eq!(e.message(), "boom");
    let u = LibVeeziError::UrlParse("bad".to_string());
    assert_eq!(u.message(), "bad");
}

#[test]
fn screens_compare_by_value() {
    let s = Screen {
        id: ScreenId::new(1),
        name: "One".to_string(),
        screen_number: "1".to_string(),
        has_custom_layout: false,
        total_seats: 120,
        house_seats: 4,
    };
    let t = s.clone();
    assert_eq!(s, t);
}

//! Types representing individual screening sessions.
//!
//! The primary type is [`Session`], which represents a single screening
//! session of a film at a specific time. All points in time are seconds
//! since the Unix epoch; dates are whole days since the Unix epoch.

use vstd::prelude::*;

use crate::attr::AttributeId;
use crate::cache::{CacheKey, CacheValue};
use crate::film::{FilmFormat, FilmId};
use crate::package::FilmPackageId;
use crate::screen::ScreenId;
use crate::seqs::{dedup_first, lemma_contains_push, lemma_dedup_first_distinct, lemma_filter_none, lemma_filter_push};
use crate::text::{clone_opt_string, opt_str_view, strs_view};

verus! {

/// The number of seconds in one day.
pub const SECONDS_PER_DAY: u64 = 86400;

/// The seating type for a particular [`Session`].
#[derive(Debug, Clone, Copy, PartialEq, Eq, Structural)]
pub enum Seating {
    /// Allocated (reserved) seating.
    Allocated,
    /// Reserved seating with some open (general admission) seats.
    Select,
    /// Unallocated (general admission) seating.
    Open,
}

/// The show type for a particular [`Session`].
#[derive(Debug, Clone, Copy, PartialEq, Eq, Structural)]
pub enum ShowType {
    /// Private show not available to the general public.
    Private,
    /// Public show.
    Public,
}

/// The status of a particular [`Session`].
#[derive(Debug, Clone, Copy, PartialEq, Eq, Structural)]
pub enum SessionStatus {
    /// Open, tickets can be sold.
    Open,
    /// Closed, tickets cannot be sold.
    Closed,
    /// Planned, session is planned but not yet open for sales.
    Planned,
}

/// The sales channels via which tickets for a particular [`Session`] can
/// be sold.
#[derive(Debug, Clone, Copy, PartialEq, Eq, Structural)]
pub struct SalesVia {
    /// Whether tickets can be sold via KIOSK.
    pub kiosk: bool,
    /// Whether tickets can be sold via POS.
    pub pos: bool,
    /// Whether tickets can be sold via WWW (online).
    pub www: bool,
    /// Whether tickets can be sold via MX.
    pub mx: bool,
    /// Whether tickets can be sold via RSP.
    pub rsp: bool,
}

impl SalesVia {
    /// No sales channels at all.
    pub fn none() -> (r: Self)
        ensures
            r == (SalesVia { kiosk: false, pos: false, www: false, mx: false, rsp: false }),
    {
        SalesVia { kiosk: false, pos: false, www: false, mx: false, rsp: false }
    }

    /// The channel flags described by a list of wire channel names: a flag
    /// is set exactly when its name appears in the list; unknown names are
    /// ignored.
    pub fn from_channels(channels: &Vec<String>) -> (r: Self)
        ensures
            r.kiosk == strs_view(channels@).contains("KIOSK"@),
            r.pos == strs_view(channels@).contains("POS"@),
            r.www == strs_view(channels@).contains("WWW"@),
            r.mx == strs_view(channels@).contains("MX"@),
            r.rsp == strs_view(channels@).contains("RSP"@),
    {
        let kiosk_name: String = "KIOSK".to_owned();
        let pos_name: String = "POS".to_owned();
        let www_name: String = "WWW".to_owned();
        let mx_name: String = "MX".to_owned();
        let rsp_name: String = "RSP".to_owned();
        let ghost cs = strs_view(channels@);
        let mut r = SalesVia::none();
        let mut i: usize = 0;
        while i < channels.len()
            invariant
                i <= channels.len(),
                cs == strs_view(channels@),
                kiosk_name@ == "KIOSK"@,
                pos_name@ == "POS"@,
                www_name@ == "WWW"@,
                mx_name@ == "MX"@,
                rsp_name@ == "RSP"@,
                r.kiosk == cs.take(i as int).contains("KIOSK"@),
                r.pos == cs.take(i as int).contains("POS"@),
                r.www == cs.take(i as int).contains("WWW"@),
                r.mx == cs.take(i as int).contains("MX"@),
                r.rsp == cs.take(i as int).contains("RSP"@),
            decreases channels.len() - i,
        {
            let entry = &channels[i];
            proof {
                assert(cs[i as int] == channels@[i as int]@);
            }
            if *entry == kiosk_name {
                r.kiosk = true;
            }
            if *entry == pos_name {
                r.pos = true;
            }
            if *entry == www_name {
                r.www = true;
            }
            if *entry == mx_name {
                r.mx = true;
            }
            if *entry == rsp_name {
                r.rsp = true;
            }
            proof {
                assert(cs.take(i + 1) =~= cs.take(i as int).push(cs[i as int]));
                lemma_contains_push(cs.take(i as int), cs[i as int], "KIOSK"@);
                lemma_contains_push(cs.take(i as int), cs[i as int], "POS"@);
                lemma_contains_push(cs.take(i as int), cs[i as int], "WWW"@);
                lemma_contains_push(cs.take(i as int), cs[i as int], "MX"@);
                lemma_contains_push(cs.take(i as int), cs[i as int], "RSP"@);
            }
            i = i + 1;
        }
        proof {
            assert(cs.take(channels.len() as int) =~= cs);
        }
        r
    }
}

/// The unique ID of a [`Session`].
#[derive(Debug, Clone, Copy, PartialEq, Eq, Structural)]
pub struct SessionId(u32);

impl SessionId {
    /// Wrap a wire identifier.
    pub fn new(id: u32) -> (r: Self)
        ensures
            r@ == id,
    {
        SessionId(id)
    }

    /// The numeric ID of this [`SessionId`].
    pub fn into_u32(self) -> (r: u32)
        ensures
            r == self@,
    {
        self.0
    }
}

impl View for SessionId {
    type V = u32;

    closed spec fn view(&self) -> u32 {
        self.0
    }
}

impl CacheKey for SessionId {
    type Repr = u32;

    open spec fn repr(&self) -> u32 {
        self@
    }

    fn key_eq(&self, other: &Self) -> (r: bool) {
        self.0 == other.0
    }

    fn dup(&self) -> (r: Self) {
        *self
    }
}

/// The mathematical value of an optional [`FilmPackageId`].
pub open spec fn opt_package_id_view(o: Option<FilmPackageId>) -> Option<u32> {
    match o {
        Some(p) => Some(p@),
        None => None,
    }
}

/// The mathematical values of a sequence of [`AttributeId`]s.
pub open spec fn attribute_ids_view(s: Seq<AttributeId>) -> Seq<Seq<char>> {
    s.map_values(|a: AttributeId| a@)
}

/// The mathematical value of a [`Session`].
pub struct SessionView {
    /// The value of [`Session::id`].
    pub id: u32,
    /// The value of [`Session::film_id`].
    pub film_id: Seq<char>,
    /// The value of [`Session::film_package_id`].
    pub film_package_id: Option<u32>,
    /// The value of [`Session::title`].
    pub title: Seq<char>,
    /// The value of [`Session::screen_id`].
    pub screen_id: u32,
    /// The value of [`Session::seating`].
    pub seating: Seating,
    /// The value of [`Session::are_complimentaries_allowed`].
    pub are_complimentaries_allowed: bool,
    /// The value of [`Session::show_type`].
    pub show_type: ShowType,
    /// The value of [`Session::sales_via`].
    pub sales_via: SalesVia,
    /// The value of [`Session::status`].
    pub status: SessionStatus,
    /// The value of [`Session::pre_show_start_time`].
    pub pre_show_start_time: u64,
    /// The value of [`Session::sales_cut_off_time`].
    pub sales_cut_off_time: u64,
    /// The value of [`Session::feature_start_time`].
    pub feature_start_time: u64,
    /// The value of [`Session::feature_end_time`].
    pub feature_end_time: u64,
    /// The value of [`Session::cleanup_end_time`].
    pub cleanup_end_time: u64,
    /// The value of [`Session::tickets_sold_out`].
    pub tickets_sold_out: bool,
    /// The value of [`Session::few_tickets_left`].
    pub few_tickets_left: bool,
    /// The value of [`Session::seats_available`].
    pub seats_available: u32,
    /// The value of [`Session::seats_held`].
    pub seats_held: u32,
    /// The value of [`Session::seats_house`].
    pub seats_house: u32,
    /// The value of [`Session::seats_sold`].
    pub seats_sold: u32,
    /// The value of [`Session::film_format`].
    pub film_format: FilmFormat,
    /// The value of [`Session::price_card_name`].
    pub price_card_name: Seq<char>,
    /// The values of [`Session::attributes`].
    pub attributes: Seq<Seq<char>>,
    /// The value of [`Session::audio_language`].
    pub audio_language: Option<Seq<char>>,
}

/// A particular screening session of a film.
#[derive(Debug, PartialEq)]
pub struct Session {
    /// The unique ID of the session.
    pub id: SessionId,
    /// The ID of the film being shown in this session.
    pub film_id: FilmId,
    /// The ID of the film package (if any) associated with this session.
    pub film_package_id: Option<FilmPackageId>,
    /// The title of the film being shown in this session.
    pub title: String,
    /// The screen ID where this session is being shown.
    pub screen_id: ScreenId,
    /// The seating type for this session.
    pub seating: Seating,
    /// Whether complimentary tickets are allowed for this session.
    pub are_complimentaries_allowed: bool,
    /// The show type for this session.
    pub show_type: ShowType,
    /// The sales channels via which tickets for this session can be sold.
    pub sales_via: SalesVia,
    /// The status of this session.
    pub status: SessionStatus,
    /// The time this session starts, in seconds since the Unix epoch.
    pub pre_show_start_time: u64,
    /// The time this session ends sales, in seconds since the Unix epoch.
    pub sales_cut_off_time: u64,
    /// The time this session's feature starts, in seconds since the Unix
    /// epoch.
    pub feature_start_time: u64,
    /// The time this session's feature ends, in seconds since the Unix
    /// epoch.
    pub feature_end_time: u64,
    /// The time this session's cleanup ends, in seconds since the Unix
    /// epoch.
    pub cleanup_end_time: u64,
    /// Whether tickets for this session are sold out.
    pub tickets_sold_out: bool,
    /// Whether there are few tickets left for this session.
    pub few_tickets_left: bool,
    /// The number of seats available for this session.
    pub seats_available: u32,
    /// The number of seats held for this session.
    pub seats_held: u32,
    /// The number of house seats for this session.
    pub seats_house: u32,
    /// The number of seats sold for this session.
    pub seats_sold: u32,
    /// The format of the film being shown in this session.
    pub film_format: FilmFormat,
    /// The price card name associated with this session.
    pub price_card_name: String,
    /// The list of attribute IDs associated with this session.
    pub attributes: Vec<AttributeId>,
    /// The audio language of the film being shown in this session.
    pub audio_language: Option<String>,
}

impl View for Session {
    type V = SessionView;

    open spec fn view(&self) -> SessionView {
        SessionView {
            id: self.id@,
            film_id: self.film_id@,
            film_package_id: opt_package_id_view(self.film_package_id),
            title: self.title@,
            screen_id: self.screen_id@,
            seating: self.seating,
            are_complimentaries_allowed: self.are_complimentaries_allowed,
            show_type: self.show_type,
            sales_via: self.sales_via,
            status: self.status,
            pre_show_start_time: self.pre_show_start_time,
            sales_cut_off_time: self.sales_cut_off_time,
            feature_start_time: self.feature_start_time,
            feature_end_time: self.feature_end_time,
            cleanup_end_time: self.cleanup_end_time,
            tickets_sold_out: self.tickets_sold_out,
            few_tickets_left: self.few_tickets_left,
            seats_available: self.seats_available,
            seats_held: self.seats_held,
            seats_house: self.seats_house,
            seats_sold: self.seats_sold,
            film_format: self.film_format,
            price_card_name: self.price_card_name@,
            attributes: attribute_ids_view(self.attributes@),
            audio_language: opt_str_view(self.audio_language),
        }
    }
}

impl Clone for Session {
    fn clone(&self) -> (r: Self)
        ensures
            r@ == self@,
    {
        let mut attributes: Vec<AttributeId> = Vec::new();
        let mut i: usize = 0;
        while i < self.attributes.len()
            invariant
                i <= self.attributes.len(),
                attributes@.len() == i,
                forall|j: int| 0 <= j < i ==> attributes@[j]@ == self.attributes@[j]@,
            decreases self.attributes.len() - i,
        {
            attributes.push(self.attributes[i].clone());
            i = i + 1;
        }
        proof {
            assert(attribute_ids_view(attributes@) =~= attribute_ids_view(self.attributes@));
        }
        Session {
            id: self.id,
            film_id: self.film_id.clone(),
            film_package_id: self.film_package_id,
            title: self.title.clone(),
            screen_id: self.screen_id,
            seating: self.seating,
            are_complimentaries_allowed: self.are_complimentaries_allowed,
            show_type: self.show_type,
            sales_via: self.sales_via,
            status: self.status,
            pre_show_start_time: self.pre_show_start_time,
            sales_cut_off_time: self.sales_cut_off_time,
            feature_start_time: self.feature_start_time,
            feature_end_time: self.feature_end_time,
            cleanup_end_time: self.cleanup_end_time,
            tickets_sold_out: self.tickets_sold_out,
            few_tickets_left: self.few_tickets_left,
            seats_available: self.seats_available,
            seats_held: self.seats_held,
            seats_house: self.seats_house,
            seats_sold: self.seats_sold,
            film_format: self.film_format,
            price_card_name: self.price_card_name.clone(),
            attributes,
            audio_language: clone_opt_string(&self.audio_language),
        }
    }
}

impl CacheValue for Session {
    type Repr = SessionView;

    open spec fn repr(&self) -> SessionView {
        self@
    }

    fn dup(&self) -> (r: Self) {
        self.clone()
    }
}

impl Session {
    /// Whether tickets can still be sold for this session at time `now`:
    /// the status is open, `now` is strictly before the sales cut-off
    /// time, and at least one seat is available.
    pub fn is_open_for_sales(&self, now: u64) -> (r: bool)
        ensures
            r == (self@.status == SessionStatus::Open && now < self@.sales_cut_off_time
                && self@.seats_available > 0),
    {
        self.status == SessionStatus::Open && now < self.sales_cut_off_time
            && self.seats_available > 0
    }
}

/// The mathematical values of a sequence of [`Session`]s.
pub open spec fn sessions_view(s: Seq<Session>) -> Seq<SessionView> {
    s.map_values(|x: Session| x@)
}

/// A list of [`Session`]s with some useful helper methods.
#[derive(Debug, PartialEq)]
pub struct SessionList(Vec<Session>);

impl View for SessionList {
    type V = Seq<SessionView>;

    closed spec fn view(&self) -> Seq<SessionView> {
        sessions_view(self.0@)
    }
}

impl From<Vec<Session>> for SessionList {
    fn from(sessions: Vec<Session>) -> (r: Self)
        ensures
            r@ == sessions_view(sessions@),
    {
        SessionList(sessions)
    }
}

impl vstd::std_specs::convert::FromSpecImpl<Vec<Session>> for SessionList {
    open spec fn obeys_from_spec() -> bool {
        true
    }

    closed spec fn from_spec(sessions: Vec<Session>) -> Self {
        SessionList(sessions)
    }
}

impl From<SessionList> for Vec<Session> {
    fn from(list: SessionList) -> (r: Self)
        ensures
            sessions_view(r@) == list@,
    {
        list.0
    }
}

impl vstd::std_specs::convert::FromSpecImpl<SessionList> for Vec<Session> {
    open spec fn obeys_from_spec() -> bool {
        true
    }

    closed spec fn from_spec(list: SessionList) -> Self {
        list.0
    }
}

impl Clone for SessionList {
    fn clone(&self) -> (r: Self)
        ensures
            r@ == self@,
    {
        let mut out: Vec<Session> = Vec::new();
        let mut i: usize = 0;
        while i < self.0.len()
            invariant
                i <= self.0.len(),
                out@.len() == i,
                forall|j: int| 0 <= j < i ==> out@[j]@ == self.0@[j]@,
            decreases self.0.len() - i,
        {
            out.push(self.0[i].clone());
            i = i + 1;
        }
        proof {
            assert(sessions_view(out@) =~= sessions_view(self.0@));
        }
        SessionList(out)
    }
}

impl CacheValue for SessionList {
    type Repr = Seq<SessionView>;

    open spec fn repr(&self) -> Seq<SessionView> {
        self@
    }

    fn dup(&self) -> (r: Self) {
        self.clone()
    }
}

/// The film IDs referenced by a sequence of session values, in order.
pub open spec fn session_film_ids(s: Seq<SessionView>) -> Seq<Seq<char>> {
    s.map_values(|sv: SessionView| sv.film_id)
}

/// The screen IDs referenced by a sequence of session values, in order.
pub open spec fn session_screen_ids(s: Seq<SessionView>) -> Seq<u32> {
    s.map_values(|sv: SessionView| sv.screen_id)
}

/// The mathematical values of a sequence of [`FilmId`]s.
pub open spec fn film_ids_view(s: Seq<FilmId>) -> Seq<Seq<char>> {
    s.map_values(|f: FilmId| f@)
}

/// The mathematical values of a sequence of [`ScreenId`]s.
pub open spec fn screen_ids_view(s: Seq<ScreenId>) -> Seq<u32> {
    s.map_values(|x: ScreenId| x@)
}

/// The day (whole days since the Unix epoch) that the time `t` (seconds
/// since the Unix epoch) falls on.
pub open spec fn day_of(t: u64) -> u64 {
    t / 86400
}

/// The predicate satisfied by sessions whose pre-show start time falls on
/// the given day.
pub open spec fn of_day(d: u64) -> spec_fn(SessionView) -> bool {
    |sv: SessionView| day_of(sv.pre_show_start_time) == d
}

/// Whether some of the first `n` sessions of `s` starts on day `d`.
pub open spec fn day_witnessed(s: Seq<SessionView>, n: int, d: u64) -> bool {
    exists|j: int| 0 <= j < n && day_of((#[trigger] s[j]).pre_show_start_time) == d
}

/// Whether some group in `gs` carries the day `d`.
pub open spec fn has_day(gs: Seq<(u64, Vec<Session>)>, d: u64) -> bool {
    exists|k: int| 0 <= k < gs.len() && (#[trigger] gs[k]).0 == d
}

/// The predicate satisfied by sessions on the given screen.
pub open spec fn on_screen(screen_id: u32) -> spec_fn(SessionView) -> bool {
    |sv: SessionView| sv.screen_id == screen_id
}

/// The predicate satisfied by sessions showing the given film.
pub open spec fn of_film(film_id: Seq<char>) -> spec_fn(SessionView) -> bool {
    |sv: SessionView| sv.film_id == film_id
}

/// The predicate satisfied by sessions carrying the given attribute.
pub open spec fn with_attribute(attribute_id: Seq<char>) -> spec_fn(SessionView) -> bool {
    |sv: SessionView| sv.attributes.contains(attribute_id)
}

/// The predicate satisfied by sessions whose pre-show start time lies in
/// the given inclusive range.
pub open spec fn in_time_range(start: u64, end: u64) -> spec_fn(SessionView) -> bool {
    |sv: SessionView| sv.pre_show_start_time >= start && sv.pre_show_start_time <= end
}

impl SessionList {
    /// Obtain the sessions contained within this [`SessionList`].
    pub fn into_vec(self) -> (r: Vec<Session>)
        ensures
            sessions_view(r@) == self@,
    {
        self.0
    }

    /// A reference to the internal sessions of this [`SessionList`].
    pub fn as_vec(&self) -> (r: &Vec<Session>)
        ensures
            sessions_view(r@) == self@,
    {
        &self.0
    }

    /// The number of sessions in this list.
    pub fn len(&self) -> (r: usize)
        ensures
            r == self@.len(),
    {
        self.0.len()
    }

    /// Filter the sessions by a given screen ID, returning a new
    /// [`SessionList`].
    pub fn filter_by_screen(self, screen_id: ScreenId) -> (r: Self)
        ensures
            r@ == self@.filter(on_screen(screen_id@)),
    {
        let ghost vs = self@;
        let mut out: Vec<Session> = Vec::new();
        let mut i: usize = 0;
        while i < self.0.len()
            invariant
                i <= self.0.len(),
                vs == sessions_view(self.0@),
                sessions_view(out@) == vs.take(i as int).filter(on_screen(screen_id@)),
            decreases self.0.len() - i,
        {
            let ghost out0 = sessions_view(out@);
            let s = &self.0[i];
            proof {
                assert(vs[i as int] == self.0@[i as int]@);
            }
            let m = s.screen_id.key_eq(&screen_id);
            proof {
                assert((on_screen(screen_id@))(vs[i as int]) == m);
            }
            if m {
                out.push(s.clone());
                proof {
                    assert(sessions_view(out@) =~= out0.push(vs[i as int]));
                }
            }
            proof {
                assert(vs.take(i + 1) =~= vs.take(i as int).push(vs[i as int]));
                lemma_filter_push(vs.take(i as int), vs[i as int], on_screen(screen_id@));
            }
            i = i + 1;
        }
        proof {
            assert(vs.take(self.0.len() as int) =~= vs);
        }
        SessionList(out)
    }

    /// Filter the sessions by a given film ID, returning a new
    /// [`SessionList`].
    pub fn filter_by_film(self, film_id: &FilmId) -> (r: Self)
        ensures
            r@ == self@.filter(of_film(film_id@)),
    {
        let ghost vs = self@;
        let mut out: Vec<Session> = Vec::new();
        let mut i: usize = 0;
        while i < self.0.len()
            invariant
                i <= self.0.len(),
                vs == sessions_view(self.0@),
                sessions_view(out@) == vs.take(i as int).filter(of_film(film_id@)),
            decreases self.0.len() - i,
        {
            let ghost out0 = sessions_view(out@);
            let s = &self.0[i];
            proof {
                assert(vs[i as int] == self.0@[i as int]@);
            }
            let m = s.film_id.key_eq(film_id);
            proof {
                assert((of_film(film_id@))(vs[i as int]) == m);
            }
            if m {
                out.push(s.clone());
                proof {
                    assert(sessions_view(out@) =~= out0.push(vs[i as int]));
                }
            }
            proof {
                assert(vs.take(i + 1) =~= vs.take(i as int).push(vs[i as int]));
                lemma_filter_push(vs.take(i as int), vs[i as int], of_film(film_id@));
            }
            i = i + 1;
        }
        proof {
            assert(vs.take(self.0.len() as int) =~= vs);
        }
        SessionList(out)
    }

    /// Filter the sessions to only those containing a given attribute ID,
    /// returning a new [`SessionList`].
    pub fn filter_containing_attribute(self, attribute_id: &AttributeId) -> (r: Self)
        ensures
            r@ == self@.filter(with_attribute(attribute_id@)),
    {
        let ghost vs = self@;
        let mut out: Vec<Session> = Vec::new();
        let mut i: usize = 0;
        while i < self.0.len()
            invariant
                i <= self.0.len(),
                vs == sessions_view(self.0@),
                sessions_view(out@) == vs.take(i as int).filter(with_attribute(attribute_id@)),
            decreases self.0.len() - i,
        {
            let ghost out0 = sessions_view(out@);
            let s = &self.0[i];
            proof {
                assert(vs[i as int] == self.0@[i as int]@);
            }
            let m = Self::has_attribute(&s.attributes, attribute_id);
            proof {
                assert((with_attribute(attribute_id@))(vs[i as int]) == m);
            }
            if m {
                out.push(s.clone());
                proof {
                    assert(sessions_view(out@) =~= out0.push(vs[i as int]));
                }
            }
            proof {
                assert(vs.take(i + 1) =~= vs.take(i as int).push(vs[i as int]));
                lemma_filter_push(vs.take(i as int), vs[i as int], with_attribute(attribute_id@));
            }
            i = i + 1;
        }
        proof {
            assert(vs.take(self.0.len() as int) =~= vs);
        }
        SessionList(out)
    }

    /// Whether `attributes` contains an ID with the value of
    /// `attribute_id`.
    fn has_attribute(attributes: &Vec<AttributeId>, attribute_id: &AttributeId) -> (r: bool)
        ensures
            r == attribute_ids_view(attributes@).contains(attribute_id@),
    {
        let ghost ids = attribute_ids_view(attributes@);
        let mut i: usize = 0;
        while i < attributes.len()
            invariant
                i <= attributes.len(),
                ids == attribute_ids_view(attributes@),
                forall|j: int| 0 <= j < i ==> ids[j] != attribute_id@,
            decreases attributes.len() - i,
        {
            if attributes[i].key_eq(attribute_id) {
                proof {
                    assert(ids[i as int] == attribute_id@);
                }
                return true;
            }
            i = i + 1;
        }
        proof {
            assert forall|j: int| 0 <= j < ids.len() implies ids[j] != attribute_id@ by {}
        }
        false
    }

    /// Filter sessions whose pre-show start time lies within the given
    /// inclusive time range, returning a new [`SessionList`].
    pub fn filter_by_time_range(self, start: u64, end: u64) -> (r: Self)
        ensures
            r@ == self@.filter(in_time_range(start, end)),
    {
        let ghost vs = self@;
        let mut out: Vec<Session> = Vec::new();
        let mut i: usize = 0;
        while i < self.0.len()
            invariant
                i <= self.0.len(),
                vs == sessions_view(self.0@),
                sessions_view(out@) == vs.take(i as int).filter(in_time_range(start, end)),
            decreases self.0.len() - i,
        {
            let ghost out0 = sessions_view(out@);
            let s = &self.0[i];
            proof {
                assert(vs[i as int] == self.0@[i as int]@);
            }
            let m = s.pre_show_start_time >= start && s.pre_show_start_time <= end;
            proof {
                assert((in_time_range(start, end))(vs[i as int]) == m);
            }
            if m {
                out.push(s.clone());
                proof {
                    assert(sessions_view(out@) =~= out0.push(vs[i as int]));
                }
            }
            proof {
                assert(vs.take(i + 1) =~= vs.take(i as int).push(vs[i as int]));
                lemma_filter_push(vs.take(i as int), vs[i as int], in_time_range(start, end));
            }
            i = i + 1;
        }
        proof {
            assert(vs.take(self.0.len() as int) =~= vs);
        }
        SessionList(out)
    }

    /// Group the sessions by the day their pre-show start time falls on,
    /// returning one entry per day in ascending day order. Each entry
    /// carries the day (whole days since the Unix epoch) and the sessions
    /// of that day, in their original order.
    pub fn group_by_date(&self) -> (r: Vec<(u64, Vec<Session>)>)
        ensures
            forall|a: int, b: int| 0 <= a < b < r@.len() ==> r@[a].0 < r@[b].0,
            forall|k: int|
                0 <= k < r@.len() ==> sessions_view(r@[k].1@) == self@.filter(of_day(r@[k].0)),
            forall|j: int|
                0 <= j < self@.len() ==> #[trigger] has_day(
                    r@,
                    day_of(self@[j].pre_show_start_time),
                ),
            forall|k: int|
                0 <= k < r@.len() ==> #[trigger] day_witnessed(self@, self@.len() as int, r@[k].0),
    {
        let ghost vs = self@;
        let mut groups: Vec<(u64, Vec<Session>)> = Vec::new();
        let mut i: usize = 0;
        while i < self.0.len()
            invariant
                i <= self.0.len(),
                vs == sessions_view(self.0@),
                forall|a: int, b: int| 0 <= a < b < groups@.len() ==> groups@[a].0 < groups@[b].0,
                forall|k: int|
                    0 <= k < groups@.len() ==> sessions_view(groups@[k].1@) == vs.take(
                        i as int,
                    ).filter(of_day(groups@[k].0)),
                forall|j: int|
                    0 <= j < i ==> #[trigger] has_day(groups@, day_of(vs[j].pre_show_start_time)),
                forall|k: int|
                    0 <= k < groups@.len() ==> #[trigger] day_witnessed(
                        vs,
                        i as int,
                        groups@[k].0,
                    ),
            decreases self.0.len() - i,
        {
            let ghost gs0 = groups@;
            let s = &self.0[i];
            let d = s.pre_show_start_time / SECONDS_PER_DAY;
            proof {
                assert(vs[i as int] == self.0@[i as int]@);
                assert(day_of(vs[i as int].pre_show_start_time) == d);
            }
            let mut p: usize = 0;
            while p < groups.len() && groups[p].0 < d
                invariant
                    p <= groups@.len(),
                    groups@ == gs0,
                    forall|q: int| 0 <= q < p ==> groups@[q].0 < d,
                decreases groups@.len() - p,
            {
                p = p + 1;
            }
            if p < groups.len() && groups[p].0 == d {
                let (gd, mut gvec) = groups.remove(p);
                gvec.push(s.clone());
                proof {
                    assert(sessions_view(gvec@) =~= sessions_view(gs0[p as int].1@).push(
                        vs[i as int],
                    ));
                }
                groups.insert(p, (gd, gvec));
                proof {
                    assert(groups@ =~= gs0.update(p as int, groups@[p as int]));
                    assert(vs.take(i + 1) =~= vs.take(i as int).push(vs[i as int]));
                    assert forall|k: int| 0 <= k < groups@.len() implies sessions_view(
                        groups@[k].1@,
                    ) == vs.take(i + 1).filter(of_day(groups@[k].0)) by {
                        lemma_filter_push(vs.take(i as int), vs[i as int], of_day(groups@[k].0));
                        if k != p {
                            assert(groups@[k] == gs0[k]);
                            assert(groups@[k].0 != d);
                        }
                    }
                    assert forall|j: int| 0 <= j < i + 1 implies #[trigger] has_day(
                        groups@,
                        day_of(vs[j].pre_show_start_time),
                    ) by {
                        if j == i {
                            assert(groups@[p as int].0 == d);
                        } else {
                            assert(has_day(gs0, day_of(vs[j].pre_show_start_time)));
                            let k = choose|k: int|
                                0 <= k < gs0.len() && (#[trigger] gs0[k]).0 == day_of(
                                    vs[j].pre_show_start_time,
                                );
                            assert(groups@[k].0 == day_of(vs[j].pre_show_start_time));
                        }
                    }
                    assert forall|k: int| 0 <= k < groups@.len() implies #[trigger] day_witnessed(
                        vs,
                        i + 1,
                        groups@[k].0,
                    ) by {
                        if k == p {
                            assert(day_of(vs[i as int].pre_show_start_time) == groups@[k].0);
                        } else {
                            assert(groups@[k] == gs0[k]);
                            assert(day_witnessed(vs, i as int, gs0[k].0));
                            let j = choose|j: int|
                                0 <= j < i && day_of((#[trigger] vs[j]).pre_show_start_time)
                                    == gs0[k].0;
                            assert(day_of(vs[j].pre_show_start_time) == groups@[k].0);
                        }
                    }
                }
            } else {
                proof {
                    assert forall|k: int| 0 <= k < gs0.len() implies gs0[k].0 != d by {
                        if k >= p {
                            assert(gs0[p as int].0 >= d);
                            if k > p {
                                assert(gs0[p as int].0 < gs0[k].0);
                            }
                        }
                    }
                    assert forall|j: int| 0 <= j < i implies !(of_day(d)(
                        vs.take(i as int)[j],
                    )) by {
                        if day_of(vs[j].pre_show_start_time) == d {
                            assert(has_day(gs0, d));
                            let k = choose|k: int| 0 <= k < gs0.len() && (#[trigger] gs0[k]).0 == d;
                        }
                    }
                    lemma_filter_none(vs.take(i as int), of_day(d));
                }
                let mut gvec: Vec<Session> = Vec::new();
                gvec.push(s.clone());
                proof {
                    assert(sessions_view(gvec@) =~= Seq::<SessionView>::empty().push(
                        vs[i as int],
                    ));
                }
                groups.insert(p, (d, gvec));
                proof {
                    assert(vs.take(i + 1) =~= vs.take(i as int).push(vs[i as int]));
                    assert forall|a: int, b: int|
                        0 <= a < b < groups@.len() implies groups@[a].0 < groups@[b].0 by {
                        assert(groups@[a] == if a < p {
                            gs0[a]
                        } else if a == p {
                            groups@[p as int]
                        } else {
                            gs0[a - 1]
                        });
                        assert(groups@[b] == if b < p {
                            gs0[b]
                        } else if b == p {
                            groups@[p as int]
                        } else {
                            gs0[b - 1]
                        });
                        if b == p {
                            assert(gs0[a].0 < d);
                        }
                        if a == p {
                            assert(b - 1 >= p);
                            assert(gs0[b - 1].0 >= d && gs0[b - 1].0 != d);
                        }
                    }
                    assert forall|k: int| 0 <= k < groups@.len() implies sessions_view(
                        groups@[k].1@,
                    ) == vs.take(i + 1).filter(of_day(groups@[k].0)) by {
                        lemma_filter_push(vs.take(i as int), vs[i as int], of_day(groups@[k].0));
                        if k != p {
                            let k0 = if k < p {
                                k
                            } else {
                                k - 1
                            };
                            assert(groups@[k] == gs0[k0]);
                            assert(groups@[k].0 != d);
                        }
                    }
                    assert forall|j: int| 0 <= j < i + 1 implies #[trigger] has_day(
                        groups@,
                        day_of(vs[j].pre_show_start_time),
                    ) by {
                        if j == i {
                            assert(groups@[p as int].0 == d);
                        } else {
                            assert(has_day(gs0, day_of(vs[j].pre_show_start_time)));
                            let k = choose|k: int|
                                0 <= k < gs0.len() && (#[trigger] gs0[k]).0 == day_of(
                                    vs[j].pre_show_start_time,
                                );
                            let k1 = if k < p {
                                k
                            } else {
                                k + 1
                            };
                            assert(groups@[k1].0 == day_of(vs[j].pre_show_start_time));
                        }
                    }
                    assert forall|k: int| 0 <= k < groups@.len() implies #[trigger] day_witnessed(
                        vs,
                        i + 1,
                        groups@[k].0,
                    ) by {
                        if k == p {
                            assert(day_of(vs[i as int].pre_show_start_time) == groups@[k].0);
                        } else {
                            let k0 = if k < p {
                                k
                            } else {
                                k - 1
                            };
                            assert(groups@[k] == gs0[k0]);
                            assert(day_witnessed(vs, i as int, gs0[k0].0));
                            let j = choose|j: int|
                                0 <= j < i && day_of((#[trigger] vs[j]).pre_show_start_time)
                                    == gs0[k0].0;
                            assert(day_of(vs[j].pre_show_start_time) == groups@[k].0);
                        }
                    }
                }
            }
            i = i + 1;
        }
        proof {
            assert(vs.take(self.0.len() as int) =~= vs);
            assert forall|k: int| 0 <= k < groups@.len() implies #[trigger] day_witnessed(
                self@,
                self@.len() as int,
                groups@[k].0,
            ) by {
                assert(day_witnessed(vs, i as int, groups@[k].0));
            }
        }
        groups
    }

    /// The IDs of the films referenced by these sessions, deduplicated,
    /// keeping the first occurrence of each ID in order of first
    /// appearance.
    pub fn distinct_film_ids(&self) -> (r: Vec<FilmId>)
        ensures
            film_ids_view(r@) == dedup_first(session_film_ids(self@)),
            forall|a: int, b: int| 0 <= a < b < r@.len() ==> r@[a]@ != r@[b]@,
    {
        let ghost fids = session_film_ids(self@);
        let mut out: Vec<FilmId> = Vec::new();
        let mut i: usize = 0;
        while i < self.0.len()
            invariant
                i <= self.0.len(),
                fids == session_film_ids(sessions_view(self.0@)),
                film_ids_view(out@) == dedup_first(fids.take(i as int)),
            decreases self.0.len() - i,
        {
            let ghost out0 = film_ids_view(out@);
            let s = &self.0[i];
            proof {
                assert(sessions_view(self.0@)[i as int] == self.0@[i as int]@);
                assert(fids[i as int] == self.0@[i as int].film_id@);
                assert(fids.take(i + 1) =~= fids.take(i as int).push(fids[i as int]));
                assert(fids.take(i + 1).drop_last() =~= fids.take(i as int));
            }
            if !Self::contains_film_id(&out, &s.film_id) {
                out.push(s.film_id.clone());
                proof {
                    assert(film_ids_view(out@) =~= out0.push(fids[i as int]));
                }
            }
            i = i + 1;
        }
        proof {
            assert(fids.take(self.0.len() as int) =~= fids);
            lemma_dedup_first_distinct(fids);
            assert forall|a: int, b: int| 0 <= a < b < out@.len() implies out@[a]@ != out@[b]@ by {
                assert(film_ids_view(out@)[a] == out@[a]@);
                assert(film_ids_view(out@)[b] == out@[b]@);
                assert(dedup_first(fids)[a] != dedup_first(fids)[b]);
            }
        }
        out
    }

    /// Whether `ids` contains an ID with the value of `id`.
    fn contains_film_id(ids: &Vec<FilmId>, id: &FilmId) -> (r: bool)
        ensures
            r == film_ids_view(ids@).contains(id@),
    {
        let ghost vs = film_ids_view(ids@);
        let mut i: usize = 0;
        while i < ids.len()
            invariant
                i <= ids.len(),
                vs == film_ids_view(ids@),
                forall|j: int| 0 <= j < i ==> vs[j] != id@,
            decreases ids.len() - i,
        {
            if ids[i].key_eq(id) {
                proof {
                    assert(vs[i as int] == id@);
                }
                return true;
            }
            i = i + 1;
        }
        proof {
            assert(forall|j: int| 0 <= j < vs.len() ==> vs[j] != id@);
        }
        false
    }

    /// The IDs of the screens referenced by these sessions, deduplicated,
    /// keeping the first occurrence of each ID in order of first
    /// appearance.
    pub fn distinct_screen_ids(&self) -> (r: Vec<ScreenId>)
        ensures
            screen_ids_view(r@) == dedup_first(session_screen_ids(self@)),
            forall|a: int, b: int| 0 <= a < b < r@.len() ==> r@[a]@ != r@[b]@,
    {
        let ghost sids = session_screen_ids(self@);
        let mut out: Vec<ScreenId> = Vec::new();
        let mut i: usize = 0;
        while i < self.0.len()
            invariant
                i <= self.0.len(),
                sids == session_screen_ids(sessions_view(self.0@)),
                screen_ids_view(out@) == dedup_first(sids.take(i as int)),
            decreases self.0.len() - i,
        {
            let ghost out0 = screen_ids_view(out@);
            let s = &self.0[i];
            proof {
                assert(sessions_view(self.0@)[i as int] == self.0@[i as int]@);
                assert(sids[i as int] == self.0@[i as int].screen_id@);
                assert(sids.take(i + 1) =~= sids.take(i as int).push(sids[i as int]));
                assert(sids.take(i + 1).drop_last() =~= sids.take(i as int));
            }
            if !Self::contains_screen_id(&out, &s.screen_id) {
                out.push(s.screen_id);
                proof {
                    assert(screen_ids_view(out@) =~= out0.push(sids[i as int]));
                }
            }
            i = i + 1;
        }
        proof {
            assert(sids.take(self.0.len() as int) =~= sids);
            lemma_dedup_first_distinct(sids);
            assert forall|a: int, b: int| 0 <= a < b < out@.len() implies out@[a]@ != out@[b]@ by {
                assert(screen_ids_view(out@)[a] == out@[a]@);
                assert(screen_ids_view(out@)[b] == out@[b]@);
                assert(dedup_first(sids)[a] != dedup_first(sids)[b]);
            }
        }
        out
    }

    /// Whether `ids` contains an ID with the value of `id`.
    fn contains_screen_id(ids: &Vec<ScreenId>, id: &ScreenId) -> (r: bool)
        ensures
            r == screen_ids_view(ids@).contains(id@),
    {
        let ghost vs = screen_ids_view(ids@);
        let mut i: usize = 0;
        while i < ids.len()
            invariant
                i <= ids.len(),
                vs == screen_ids_view(ids@),
                forall|j: int| 0 <= j < i ==> vs[j] != id@,
            decreases ids.len() - i,
        {
            if ids[i].key_eq(id) {
                proof {
                    assert(vs[i as int] == id@);
                }
                return true;
            }
            i = i + 1;
        }
        proof {
            assert(forall|j: int| 0 <= j < vs.len() ==> vs[j] != id@);
        }
        false
    }

    /// Filter sessions whose pre-show start time falls on a day in the
    /// given inclusive day range: from the first instant of `start_day`
    /// through the last instant of `end_day`. Days count from the Unix
    /// epoch.
    pub fn filter_by_date_range(self, start_day: u32, end_day: u32) -> (r: Self)
        ensures
            r@ == self@.filter(
                in_time_range(
                    (start_day * SECONDS_PER_DAY) as u64,
                    ((end_day + 1) * SECONDS_PER_DAY - 1) as u64,
                ),
            ),
    {
        proof {
            assert(start_day * SECONDS_PER_DAY <= 0xffff_ffffu64 * 86400);
            assert((end_day + 1) * SECONDS_PER_DAY <= 0x1_0000_0000u64 * 86400);
        }
        self.filter_by_time_range(
            (start_day as u64) * SECONDS_PER_DAY,
            ((end_day as u64) + 1) * SECONDS_PER_DAY - 1,
        )
    }
}

} // verus!

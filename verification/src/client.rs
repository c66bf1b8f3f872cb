//! The client for interfacing with the Veezi API: the fetch
//! orchestrator that combines the per-entity caches with an HTTP
//! transport.
//!
//! Every fetch operation takes the current time `now` (seconds since the
//! Unix epoch) and follows the same pattern: with no cache configured the
//! call goes straight to the transport; on a cache hit the cached value
//! is returned and nothing — the transport included — changes; on a miss
//! the transport result is stored before it is returned, and a "list
//! all" response additionally backfills the per-item cache. Invalidating
//! one item also clears the corresponding list cache, since a list with
//! one stale member cannot be kept. Each operation's contract states the
//! exact caches of the client after the call, over the cache models of
//! [`crate::cache`].

use vstd::prelude::*;

use crate::attr::{
    Attribute, AttributeId, AttributeView, attribute_with_description, attribute_with_short_name,
    attributes_view, find_attribute_by_description, find_attribute_by_short_name,
};
use crate::cache::{
    CacheKey, CacheValue, ItemCache, ItemCacheModel, ListCache, ListCacheModel,
    lemma_backfilled_push, lemma_backfilled_wf, opt_item_backfilled, opt_item_cleared,
    opt_item_inserted, opt_item_removed, opt_item_view, opt_item_wf, opt_list_cleared,
    opt_list_filled, opt_list_view,
};
use crate::error::{ApiResult, LibVeeziError};
use crate::film::{
    Film, FilmId, FilmView, film_of_distributor, film_of_genre, film_with_short_name,
    film_with_signage_text, film_with_title, films_view, films_with_distributor, films_with_genre,
    find_film_by_short_name, find_film_by_signage_text, find_film_by_title,
};
use crate::package::{
    FilmPackage, FilmPackageId, FilmPackageView, PackageFilm, containing_film, film_packages_view,
    find_film_package_by_title, package_with_title, packages_containing_film,
};
use crate::screen::{
    Screen, ScreenId, ScreenView, find_screen_by_number, screen_with_number, screens_view,
};
use crate::seqs::{dedup_first, find_first};
use crate::session::{
    Session, SessionId, SessionList, SessionView, attribute_ids_view, film_ids_view, in_time_range,
    of_film, on_screen, screen_ids_view, session_film_ids, session_screen_ids, sessions_view,
    with_attribute,
};
use crate::site::{Site, SiteView};
use crate::text::{dec_digits, push_decimal};

verus! {

/// The HTTP transport consumed by the [`Client`]: an authenticated GET
/// against the configured base URL joined with the given relative path,
/// decoded into the requested entity type. Implementations live outside
/// the verified library; nothing is assumed about their results.
pub trait Transport {
    /// GET a list of sessions from `path`.
    fn fetch_session_list(&mut self, path: &str) -> ApiResult<Vec<Session>>;

    /// GET a single session from `path`.
    fn fetch_session(&mut self, path: &str) -> ApiResult<Session>;

    /// GET a list of films from `path`.
    fn fetch_film_list(&mut self, path: &str) -> ApiResult<Vec<Film>>;

    /// GET a single film from `path`.
    fn fetch_film(&mut self, path: &str) -> ApiResult<Film>;

    /// GET a list of film packages from `path`.
    fn fetch_film_package_list(&mut self, path: &str) -> ApiResult<Vec<FilmPackage>>;

    /// GET a single film package from `path`.
    fn fetch_film_package(&mut self, path: &str) -> ApiResult<FilmPackage>;

    /// GET a list of screens from `path`.
    fn fetch_screen_list(&mut self, path: &str) -> ApiResult<Vec<Screen>>;

    /// GET a single screen from `path`.
    fn fetch_screen(&mut self, path: &str) -> ApiResult<Screen>;

    /// GET the site information from `path`.
    fn fetch_site(&mut self, path: &str) -> ApiResult<Site>;

    /// GET a list of attributes from `path`.
    fn fetch_attribute_list(&mut self, path: &str) -> ApiResult<Vec<Attribute>>;

    /// GET a single attribute from `path`.
    fn fetch_attribute(&mut self, path: &str) -> ApiResult<Attribute>;
}

/// The text of the endpoint path for the session list.
pub fn sessions_path() -> (r: String)
    ensures
        r@ == "v1/session"@,
{
    "v1/session".to_owned()
}

/// The text of the endpoint path for the web session list.
pub fn web_sessions_path() -> (r: String)
    ensures
        r@ == "v1/websession"@,
{
    "v1/websession".to_owned()
}

/// The text of the endpoint path for one session.
pub fn session_path(id: SessionId) -> (r: String)
    ensures
        r@ == "v1/session/"@ + dec_digits(id@ as int),
{
    let mut s: String = "v1/session/".to_owned();
    push_decimal(&mut s, id.into_u32());
    s
}

/// The text of the endpoint path for the film list.
pub fn films_path() -> (r: String)
    ensures
        r@ == "v4/film"@,
{
    "v4/film".to_owned()
}

/// The text of the endpoint path for one film.
pub fn film_path(id: &FilmId) -> (r: String)
    ensures
        r@ == "v4/film/"@ + id@,
{
    let mut s: String = "v4/film/".to_owned();
    s.append(id.as_str());
    s
}

/// The text of the endpoint path for the film package list.
pub fn film_packages_path() -> (r: String)
    ensures
        r@ == "v1/filmpackage"@,
{
    "v1/filmpackage".to_owned()
}

/// The text of the endpoint path for one film package.
pub fn film_package_path(id: FilmPackageId) -> (r: String)
    ensures
        r@ == "v1/filmpackage/"@ + dec_digits(id@ as int),
{
    let mut s: String = "v1/filmpackage/".to_owned();
    push_decimal(&mut s, id.into_u32());
    s
}

/// The text of the endpoint path for the screen list.
pub fn screens_path() -> (r: String)
    ensures
        r@ == "v1/screen"@,
{
    "v1/screen".to_owned()
}

/// The text of the endpoint path for one screen.
pub fn screen_path(id: ScreenId) -> (r: String)
    ensures
        r@ == "v1/screen/"@ + dec_digits(id@ as int),
{
    let mut s: String = "v1/screen/".to_owned();
    push_decimal(&mut s, id.into_u32());
    s
}

/// The text of the endpoint path for the site.
pub fn site_path() -> (r: String)
    ensures
        r@ == "v1/site"@,
{
    "v1/site".to_owned()
}

/// The text of the endpoint path for the attribute list.
pub fn attributes_path() -> (r: String)
    ensures
        r@ == "v1/attribute"@,
{
    "v1/attribute".to_owned()
}

/// The text of the endpoint path for one attribute.
pub fn attribute_path(id: &AttributeId) -> (r: String)
    ensures
        r@ == "v1/attribute/"@ + id@,
{
    let mut s: String = "v1/attribute/".to_owned();
    s.append(id.as_str());
    s
}

/// A structure for building a [`Client`] with various options. A cache
/// setting is a (time-to-live in seconds, maximum entry count) pair — a
/// maximum of zero is treated as one — and the site cache, holding a
/// single value, takes only a time-to-live.
pub struct ClientBuilder<T> {
    /// The underlying HTTP transport.
    pub transport: T,
    /// The base URL for the Veezi API.
    pub base_url: String,
    /// The access token for authenticating with the Veezi API.
    pub token: String,
    /// Enable caching for sessions with the given TTL and max capacity.
    pub session_cache: Option<(u64, u64)>,
    /// Enable caching for films with the given TTL and max capacity.
    pub film_cache: Option<(u64, u64)>,
    /// Enable caching for film packages with the given TTL and max
    /// capacity.
    pub film_package_cache: Option<(u64, u64)>,
    /// Enable caching for screens with the given TTL and max capacity.
    pub screen_cache: Option<(u64, u64)>,
    /// Enable caching for attributes with the given TTL and max capacity.
    pub attribute_cache: Option<(u64, u64)>,
    /// Enable caching for the current site with the given TTL.
    pub site_cache: Option<u64>,
}

impl<T> ClientBuilder<T> {
    /// Create a new [`ClientBuilder`] with the given base URL, access
    /// token, and underlying HTTP transport; the transport is expected to
    /// resolve relative paths against the same base URL and to send the
    /// same token. No caching is enabled.
    pub fn new_with_http(base_url: &str, token: String, transport: T) -> (r: Self)
        ensures
            r.transport == transport,
            r.base_url@ == base_url@,
            r.token == token,
            r.session_cache is None,
            r.film_cache is None,
            r.film_package_cache is None,
            r.screen_cache is None,
            r.attribute_cache is None,
            r.site_cache is None,
    {
        ClientBuilder {
            transport,
            base_url: base_url.to_owned(),
            token,
            session_cache: None,
            film_cache: None,
            film_package_cache: None,
            screen_cache: None,
            attribute_cache: None,
            site_cache: None,
        }
    }

    /// Enable caching for sessions with the given TTL (seconds) and max
    /// capacity. A maximum of zero is treated as one.
    pub fn with_session_cache(self, ttl: u64, max: u64) -> (r: Self)
        ensures
            r.transport == self.transport,
            r.base_url == self.base_url,
            r.token == self.token,
            r.session_cache == Some((ttl, max)),
            r.film_cache == self.film_cache,
            r.film_package_cache == self.film_package_cache,
            r.screen_cache == self.screen_cache,
            r.attribute_cache == self.attribute_cache,
            r.site_cache == self.site_cache,
    {
        ClientBuilder { session_cache: Some((ttl, max)), ..self }
    }

    /// Enable caching for films with the given TTL (seconds) and max
    /// capacity. A maximum of zero is treated as one.
    pub fn with_film_cache(self, ttl: u64, max: u64) -> (r: Self)
        ensures
            r.transport == self.transport,
            r.base_url == self.base_url,
            r.token == self.token,
            r.film_cache == Some((ttl, max)),
            r.session_cache == self.session_cache,
            r.film_package_cache == self.film_package_cache,
            r.screen_cache == self.screen_cache,
            r.attribute_cache == self.attribute_cache,
            r.site_cache == self.site_cache,
    {
        ClientBuilder { film_cache: Some((ttl, max)), ..self }
    }

    /// Enable caching for film packages with the given TTL (seconds) and max
    /// capacity. A maximum of zero is treated as one.
    pub fn with_film_package_cache(self, ttl: u64, max: u64) -> (r: Self)
        ensures
            r.transport == self.transport,
            r.base_url == self.base_url,
            r.token == self.token,
            r.film_package_cache == Some((ttl, max)),
            r.session_cache == self.session_cache,
            r.film_cache == self.film_cache,
            r.screen_cache == self.screen_cache,
            r.attribute_cache == self.attribute_cache,
            r.site_cache == self.site_cache,
    {
        ClientBuilder { film_package_cache: Some((ttl, max)), ..self }
    }

    /// Enable caching for screens with the given TTL (seconds) and max
    /// capacity. A maximum of zero is treated as one.
    pub fn with_screen_cache(self, ttl: u64, max: u64) -> (r: Self)
        ensures
            r.transport == self.transport,
            r.base_url == self.base_url,
            r.token == self.token,
            r.screen_cache == Some((ttl, max)),
            r.session_cache == self.session_cache,
            r.film_cache == self.film_cache,
            r.film_package_cache == self.film_package_cache,
            r.attribute_cache == self.attribute_cache,
            r.site_cache == self.site_cache,
    {
        ClientBuilder { screen_cache: Some((ttl, max)), ..self }
    }

    /// Enable caching for attributes with the given TTL (seconds) and max
    /// capacity. A maximum of zero is treated as one.
    pub fn with_attribute_cache(self, ttl: u64, max: u64) -> (r: Self)
        ensures
            r.transport == self.transport,
            r.base_url == self.base_url,
            r.token == self.token,
            r.attribute_cache == Some((ttl, max)),
            r.session_cache == self.session_cache,
            r.film_cache == self.film_cache,
            r.film_package_cache == self.film_package_cache,
            r.screen_cache == self.screen_cache,
            r.site_cache == self.site_cache,
    {
        ClientBuilder { attribute_cache: Some((ttl, max)), ..self }
    }

    /// Enable caching for the current site with the given TTL (seconds).
    pub fn with_site_cache(self, ttl: u64) -> (r: Self)
        ensures
            r.transport == self.transport,
            r.base_url == self.base_url,
            r.token == self.token,
            r.site_cache == Some(ttl),
            r.session_cache == self.session_cache,
            r.film_cache == self.film_cache,
            r.film_package_cache == self.film_package_cache,
            r.screen_cache == self.screen_cache,
            r.attribute_cache == self.attribute_cache,
    {
        ClientBuilder { site_cache: Some(ttl), ..self }
    }

    /// Enable caching for all supported types with default settings:
    /// sessions 30 s / 1000 entries, films 5 min / 500, film packages
    /// 5 min / 500, screens 1 h / 100, attributes 5 min / 500, site
    /// 5 min.
    pub fn with_default_caching(self) -> (r: Self)
        ensures
            r.transport == self.transport,
            r.base_url == self.base_url,
            r.token == self.token,
            r.session_cache == Some((30u64, 1000u64)),
            r.film_cache == Some((300u64, 500u64)),
            r.film_package_cache == Some((300u64, 500u64)),
            r.screen_cache == Some((3600u64, 100u64)),
            r.attribute_cache == Some((300u64, 500u64)),
            r.site_cache == Some(300u64),
    {
        self.with_session_cache(30, 1000)
            .with_film_cache(300, 500)
            .with_film_package_cache(300, 500)
            .with_screen_cache(3600, 100)
            .with_attribute_cache(300, 500)
            .with_site_cache(300)
    }

    /// Build the [`Client`] from this builder. Fails exactly when the
    /// base URL is not a valid absolute URL.
    pub fn build(self) -> (r: Result<Client<T>, LibVeeziError>)
        ensures
            Client::<T>::from_builder_post(self, r),
    {
        Client::from_builder(self)
    }
}

/// The main client for interacting with the Veezi API: the per-entity
/// caches, the configuration, and the transport.
///
/// The list caches hold full "list all" responses under a single slot;
/// they cannot be reconstructed from the item caches, whose entries
/// expire independently.
pub struct Client<T> {
    /// The underlying HTTP transport.
    pub transport: T,
    /// The validated base URL for the Veezi API.
    pub base_url: String,
    /// The access token for authenticating with the Veezi API.
    pub token: String,
    /// The cache for single sessions.
    pub session_cache: Option<ItemCache<SessionId, Session>>,
    /// The cache for the full session list.
    pub session_list_cache: Option<ListCache<SessionList>>,
    /// The cache for the full web session list.
    pub web_session_list_cache: Option<ListCache<SessionList>>,
    /// The cache for single films.
    pub film_cache: Option<ItemCache<FilmId, Film>>,
    /// The cache for the full film list.
    pub film_list_cache: Option<ListCache<Vec<Film>>>,
    /// The cache for single film packages.
    pub film_package_cache: Option<ItemCache<FilmPackageId, FilmPackage>>,
    /// The cache for the full film package list.
    pub film_package_list_cache: Option<ListCache<Vec<FilmPackage>>>,
    /// The cache for single screens.
    pub screen_cache: Option<ItemCache<ScreenId, Screen>>,
    /// The cache for the full screen list.
    pub screen_list_cache: Option<ListCache<Vec<Screen>>>,
    /// The cache for single attributes.
    pub attribute_cache: Option<ItemCache<AttributeId, Attribute>>,
    /// The cache for the full attribute list.
    pub attribute_list_cache: Option<ListCache<Vec<Attribute>>>,
    /// The cache for the current site.
    pub site_cache: Option<ListCache<Site>>,
}

/// The model of a freshly built item cache for the given setting: empty,
/// with the requested time-to-live and capacity (a zero capacity counts
/// as one).
pub open spec fn item_config<KR, VR>(cfg: Option<(u64, u64)>) -> Option<ItemCacheModel<KR, VR>> {
    match cfg {
        Some(pair) => Some(
            ItemCacheModel {
                ttl: pair.0,
                cap: if pair.1 == 0 {
                    1u64
                } else {
                    pair.1
                },
                entries: Seq::empty(),
            },
        ),
        None => None,
    }
}

/// The model of a freshly built list cache for the given setting: an
/// empty slot with the requested time-to-live.
pub open spec fn list_config<VR>(cfg: Option<(u64, u64)>) -> Option<ListCacheModel<VR>> {
    match cfg {
        Some(pair) => Some(ListCacheModel { ttl: pair.0, slot: None }),
        None => None,
    }
}

/// The model of a freshly built single-slot cache for the given
/// time-to-live setting.
pub open spec fn slot_config<VR>(cfg: Option<u64>) -> Option<ListCacheModel<VR>> {
    match cfg {
        Some(ttl) => Some(ListCacheModel { ttl, slot: None }),
        None => None,
    }
}

/// The (key, value) pairs under which a session list is backfilled into
/// the session item cache: each session under its own ID.
pub open spec fn session_entries(l: Seq<SessionView>) -> Seq<(u32, SessionView)> {
    l.map_values(|sv: SessionView| (sv.id, sv))
}

/// The (key, value) pairs under which a film list is backfilled into the
/// film item cache: each film under its own ID.
pub open spec fn film_entries(l: Seq<FilmView>) -> Seq<(Seq<char>, FilmView)> {
    l.map_values(|fv: FilmView| (fv.id, fv))
}

/// The (key, value) pairs under which a film package list is backfilled
/// into the film package item cache: each package under its own ID.
pub open spec fn film_package_entries(l: Seq<FilmPackageView>) -> Seq<(u32, FilmPackageView)> {
    l.map_values(|pv: FilmPackageView| (pv.id, pv))
}

/// The (key, value) pairs under which a screen list is backfilled into
/// the screen item cache: each screen under its own ID.
pub open spec fn screen_entries(l: Seq<ScreenView>) -> Seq<(u32, ScreenView)> {
    l.map_values(|sv: ScreenView| (sv.id, sv))
}

/// The (key, value) pairs under which an attribute list is backfilled
/// into the attribute item cache: each attribute under its own ID.
pub open spec fn attribute_entries(l: Seq<AttributeView>) -> Seq<(Seq<char>, AttributeView)> {
    l.map_values(|av: AttributeView| (av.id, av))
}

/// The result of parsing the text as an absolute URL, normalized back
/// to text: a value exactly when `url::Url::parse` accepts the input.
/// `url::Url::parse` depends on its argument alone, so the result can be
/// named.
pub uninterp spec fn url_norm(s: Seq<char>) -> Option<Seq<char>>;

/// Relies on url::Url::parse: accepts exactly the strings that parse as
/// absolute URLs; on success the parsed URL is rendered back to text, on
/// failure the parse error is rendered to text.
#[verifier::external_body]
fn parse_base_url(s: &str) -> (r: Result<String, String>)
    ensures
        r matches Ok(u) ==> url_norm(s@) == Some(u@),
        r matches Err(_) ==> url_norm(s@) is None,
{
    match url::Url::parse(s) {
        Ok(u) => Ok(u.as_str().to_owned()),
        Err(e) => Err(format!("{e}")),
    }
}

/// A freshly built optional item cache for the given setting.
fn build_item_cache<K: CacheKey, V: CacheValue>(cfg: &Option<(u64, u64)>) -> (r: Option<
    ItemCache<K, V>,
>)
    ensures
        opt_item_view(r) == item_config::<K::Repr, V::Repr>(*cfg),
        opt_item_wf(opt_item_view(r)),
{
    match cfg {
        Some(pair) => Some(ItemCache::new(pair.0, pair.1)),
        None => None,
    }
}

/// A freshly built optional list cache for the given setting.
fn build_list_cache<V: CacheValue>(cfg: &Option<(u64, u64)>) -> (r: Option<ListCache<V>>)
    ensures
        opt_list_view(r) == list_config::<V::Repr>(*cfg),
{
    match cfg {
        Some(pair) => Some(ListCache::new(pair.0)),
        None => None,
    }
}

/// A freshly built optional single-slot cache for the given setting.
fn build_slot_cache<V: CacheValue>(cfg: &Option<u64>) -> (r: Option<ListCache<V>>)
    ensures
        opt_list_view(r) == slot_config::<V::Repr>(*cfg),
{
    match cfg {
        Some(ttl) => Some(ListCache::new(*ttl)),
        None => None,
    }
}

impl<T> Client<T> {
    /// The model of the session item cache.
    pub open spec fn session_items(self) -> Option<ItemCacheModel<u32, SessionView>> {
        opt_item_view(self.session_cache)
    }

    /// The model of the session list cache.
    pub open spec fn session_list(self) -> Option<ListCacheModel<Seq<SessionView>>> {
        opt_list_view(self.session_list_cache)
    }

    /// The model of the web session list cache.
    pub open spec fn web_session_list(self) -> Option<ListCacheModel<Seq<SessionView>>> {
        opt_list_view(self.web_session_list_cache)
    }

    /// The model of the film item cache.
    pub open spec fn film_items(self) -> Option<ItemCacheModel<Seq<char>, FilmView>> {
        opt_item_view(self.film_cache)
    }

    /// The model of the film list cache.
    pub open spec fn film_list(self) -> Option<ListCacheModel<Seq<FilmView>>> {
        opt_list_view(self.film_list_cache)
    }

    /// The model of the film package item cache.
    pub open spec fn film_package_items(self) -> Option<ItemCacheModel<u32, FilmPackageView>> {
        opt_item_view(self.film_package_cache)
    }

    /// The model of the film package list cache.
    pub open spec fn film_package_list(self) -> Option<ListCacheModel<Seq<FilmPackageView>>> {
        opt_list_view(self.film_package_list_cache)
    }

    /// The model of the screen item cache.
    pub open spec fn screen_items(self) -> Option<ItemCacheModel<u32, ScreenView>> {
        opt_item_view(self.screen_cache)
    }

    /// The model of the screen list cache.
    pub open spec fn screen_list(self) -> Option<ListCacheModel<Seq<ScreenView>>> {
        opt_list_view(self.screen_list_cache)
    }

    /// The model of the attribute item cache.
    pub open spec fn attribute_items(self) -> Option<ItemCacheModel<Seq<char>, AttributeView>> {
        opt_item_view(self.attribute_cache)
    }

    /// The model of the attribute list cache.
    pub open spec fn attribute_list(self) -> Option<ListCacheModel<Seq<AttributeView>>> {
        opt_list_view(self.attribute_list_cache)
    }

    /// The model of the site cache.
    pub open spec fn site_slot(self) -> Option<ListCacheModel<SiteView>> {
        opt_list_view(self.site_cache)
    }

    /// Well-formedness: every configured item cache is well-formed.
    pub open spec fn wf(self) -> bool {
        &&& opt_item_wf(self.session_items())
        &&& opt_item_wf(self.film_items())
        &&& opt_item_wf(self.film_package_items())
        &&& opt_item_wf(self.screen_items())
        &&& opt_item_wf(self.attribute_items())
    }

    /// The configuration (base URL and token) is unchanged between `c0`
    /// and `c1`.
    pub open spec fn same_config(c0: Self, c1: Self) -> bool {
        &&& c0.base_url == c1.base_url
        &&& c0.token == c1.token
    }

    /// The caches of every entity type other than the session
    /// family are unchanged between `c0` and `c1`.
    pub open spec fn non_session_caches_eq(c0: Self, c1: Self) -> bool {
        &&& c0.film_cache == c1.film_cache
        &&& c0.film_list_cache == c1.film_list_cache
        &&& c0.film_package_cache == c1.film_package_cache
        &&& c0.film_package_list_cache == c1.film_package_list_cache
        &&& c0.screen_cache == c1.screen_cache
        &&& c0.screen_list_cache == c1.screen_list_cache
        &&& c0.attribute_cache == c1.attribute_cache
        &&& c0.attribute_list_cache == c1.attribute_list_cache
        &&& c0.site_cache == c1.site_cache
    }

    /// The caches of every entity type other than the film
    /// family are unchanged between `c0` and `c1`.
    pub open spec fn non_film_caches_eq(c0: Self, c1: Self) -> bool {
        &&& c0.session_cache == c1.session_cache
        &&& c0.session_list_cache == c1.session_list_cache
        &&& c0.web_session_list_cache == c1.web_session_list_cache
        &&& c0.film_package_cache == c1.film_package_cache
        &&& c0.film_package_list_cache == c1.film_package_list_cache
        &&& c0.screen_cache == c1.screen_cache
        &&& c0.screen_list_cache == c1.screen_list_cache
        &&& c0.attribute_cache == c1.attribute_cache
        &&& c0.attribute_list_cache == c1.attribute_list_cache
        &&& c0.site_cache == c1.site_cache
    }

    /// The caches of every entity type other than the film package
    /// family are unchanged between `c0` and `c1`.
    pub open spec fn non_film_package_caches_eq(c0: Self, c1: Self) -> bool {
        &&& c0.session_cache == c1.session_cache
        &&& c0.session_list_cache == c1.session_list_cache
        &&& c0.web_session_list_cache == c1.web_session_list_cache
        &&& c0.film_cache == c1.film_cache
        &&& c0.film_list_cache == c1.film_list_cache
        &&& c0.screen_cache == c1.screen_cache
        &&& c0.screen_list_cache == c1.screen_list_cache
        &&& c0.attribute_cache == c1.attribute_cache
        &&& c0.attribute_list_cache == c1.attribute_list_cache
        &&& c0.site_cache == c1.site_cache
    }

    /// The caches of every entity type other than the screen
    /// family are unchanged between `c0` and `c1`.
    pub open spec fn non_screen_caches_eq(c0: Self, c1: Self) -> bool {
        &&& c0.session_cache == c1.session_cache
        &&& c0.session_list_cache == c1.session_list_cache
        &&& c0.web_session_list_cache == c1.web_session_list_cache
        &&& c0.film_cache == c1.film_cache
        &&& c0.film_list_cache == c1.film_list_cache
        &&& c0.film_package_cache == c1.film_package_cache
        &&& c0.film_package_list_cache == c1.film_package_list_cache
        &&& c0.attribute_cache == c1.attribute_cache
        &&& c0.attribute_list_cache == c1.attribute_list_cache
        &&& c0.site_cache == c1.site_cache
    }

    /// The caches of every entity type other than the attribute
    /// family are unchanged between `c0` and `c1`.
    pub open spec fn non_attribute_caches_eq(c0: Self, c1: Self) -> bool {
        &&& c0.session_cache == c1.session_cache
        &&& c0.session_list_cache == c1.session_list_cache
        &&& c0.web_session_list_cache == c1.web_session_list_cache
        &&& c0.film_cache == c1.film_cache
        &&& c0.film_list_cache == c1.film_list_cache
        &&& c0.film_package_cache == c1.film_package_cache
        &&& c0.film_package_list_cache == c1.film_package_list_cache
        &&& c0.screen_cache == c1.screen_cache
        &&& c0.screen_list_cache == c1.screen_list_cache
        &&& c0.site_cache == c1.site_cache
    }

    /// The caches of every entity type other than the site
    /// family are unchanged between `c0` and `c1`.
    pub open spec fn non_site_caches_eq(c0: Self, c1: Self) -> bool {
        &&& c0.session_cache == c1.session_cache
        &&& c0.session_list_cache == c1.session_list_cache
        &&& c0.web_session_list_cache == c1.web_session_list_cache
        &&& c0.film_cache == c1.film_cache
        &&& c0.film_list_cache == c1.film_list_cache
        &&& c0.film_package_cache == c1.film_package_cache
        &&& c0.film_package_list_cache == c1.film_package_list_cache
        &&& c0.screen_cache == c1.screen_cache
        &&& c0.screen_list_cache == c1.screen_list_cache
        &&& c0.attribute_cache == c1.attribute_cache
        &&& c0.attribute_list_cache == c1.attribute_list_cache
    }

    /// What building a client from `b` returns: construction succeeds
    /// exactly when the base URL parses as an absolute URL ([`url_norm`]);
    /// then the client carries the normalized base URL, the requested
    /// transport and token, and freshly built caches. Otherwise the URL
    /// parse error is reported.
    pub open spec fn from_builder_post(b: ClientBuilder<T>, r: Result<Client<T>, LibVeeziError>) -> bool {
        &&& (r is Ok <==> url_norm(b.base_url@) is Some)
        &&& match r {
            Ok(c) => {
                &&& c.wf()
                &&& Some(c.base_url@) == url_norm(b.base_url@)
                &&& c.transport == b.transport
                &&& c.token == b.token
                &&& c.session_items() == item_config::<u32, SessionView>(b.session_cache)
                &&& c.session_list() == list_config::<Seq<SessionView>>(b.session_cache)
                &&& c.web_session_list() == list_config::<Seq<SessionView>>(b.session_cache)
                &&& c.film_items() == item_config::<Seq<char>, FilmView>(b.film_cache)
                &&& c.film_list() == list_config::<Seq<FilmView>>(b.film_cache)
                &&& c.film_package_items() == item_config::<u32, FilmPackageView>(
                    b.film_package_cache,
                )
                &&& c.film_package_list() == list_config::<Seq<FilmPackageView>>(
                    b.film_package_cache,
                )
                &&& c.screen_items() == item_config::<u32, ScreenView>(b.screen_cache)
                &&& c.screen_list() == list_config::<Seq<ScreenView>>(b.screen_cache)
                &&& c.attribute_items() == item_config::<Seq<char>, AttributeView>(
                    b.attribute_cache,
                )
                &&& c.attribute_list() == list_config::<Seq<AttributeView>>(b.attribute_cache)
                &&& c.site_slot() == slot_config::<SiteView>(b.site_cache)
            },
            Err(e) => e matches LibVeeziError::UrlParse(_),
        }
    }

    /// Create a new Veezi API client from a builder. Fails exactly when
    /// the base URL is not a valid absolute URL.
    pub fn from_builder(builder: ClientBuilder<T>) -> (r: Result<Client<T>, LibVeeziError>)
        ensures
            Self::from_builder_post(builder, r),
    {
        let ClientBuilder {
            transport,
            base_url,
            token,
            session_cache,
            film_cache,
            film_package_cache,
            screen_cache,
            attribute_cache,
            site_cache,
        } = builder;
        match parse_base_url(base_url.as_str()) {
            Err(m) => Err(LibVeeziError::UrlParse(m)),
            Ok(base) => Ok(
                Client {
                    transport,
                    base_url: base,
                    token,
                    session_cache: build_item_cache(&session_cache),
                    session_list_cache: build_list_cache(&session_cache),
                    web_session_list_cache: build_list_cache(&session_cache),
                    film_cache: build_item_cache(&film_cache),
                    film_list_cache: build_list_cache(&film_cache),
                    film_package_cache: build_item_cache(&film_package_cache),
                    film_package_list_cache: build_list_cache(&film_package_cache),
                    screen_cache: build_item_cache(&screen_cache),
                    screen_list_cache: build_list_cache(&screen_cache),
                    attribute_cache: build_item_cache(&attribute_cache),
                    attribute_list_cache: build_list_cache(&attribute_cache),
                    site_cache: build_slot_cache(&site_cache),
                },
            ),
        }
    }
}

} // verus!

verus! {

impl<T: Transport> Client<T> {
    /// What a "get session by ID" call leaves behind: with no item cache
    /// the client's caches are untouched; on a live cache hit nothing at
    /// all changes and the cached value is returned; on a miss a
    /// successful fetch is stored under the requested ID before being
    /// returned, and a failed fetch changes no cache.
    pub open spec fn get_session_post(
        c0: Self,
        c1: Self,
        now: u64,
        id: u32,
        r: ApiResult<Session>,
    ) -> bool {
        &&& c1.wf()
        &&& Self::same_config(c0, c1)
        &&& Self::non_session_caches_eq(c0, c1)
        &&& c1.session_list_cache == c0.session_list_cache
        &&& c1.web_session_list_cache == c0.web_session_list_cache
        &&& match c0.session_items() {
            None => c1.session_cache == c0.session_cache,
            Some(m) => match m.lookup(id, now) {
                Some(v) => c1 == c0 && match r {
                    Ok(s) => s@ == v,
                    Err(_) => false,
                },
                None => match r {
                    Ok(s) => c1.session_items() == Some(m.inserted(id, s@, now)),
                    Err(_) => c1.session_cache == c0.session_cache,
                },
            },
        }
    }

    /// Get a specific session by its ID.
    pub fn get_session(&mut self, now: u64, id: SessionId) -> (r: ApiResult<Session>)
        requires
            old(self).wf(),
        ensures
            Self::get_session_post(*old(self), *final(self), now, id@, r),
    {
        let path = session_path(id);
        if self.session_cache.is_none() {
            return self.transport.fetch_session(path.as_str());
        }
        let cached = match &self.session_cache {
            Some(c) => c.get(&id, now),
            None => None,
        };
        if let Some(v) = cached {
            return Ok(v);
        }
        let fetched = self.transport.fetch_session(path.as_str());
        match fetched {
            Ok(item) => {
                let copy = item.dup();
                if let Some(c) = &mut self.session_cache {
                    c.insert(id, copy, now);
                }
                Ok(item)
            },
            Err(e) => Err(e),
        }
    }

    /// Insert every session of `list` into the session item cache, keyed
    /// by its own ID, in list order. A no-op when no item cache is
    /// configured.
    fn backfill_sessions(&mut self, list: &SessionList, now: u64)
        requires
            old(self).wf(),
        ensures
            final(self).wf(),
            final(self).session_items() == opt_item_backfilled(
                old(self).session_items(),
                session_entries(list@),
                now,
            ),
            final(self).transport == old(self).transport,
            Self::same_config(*old(self), *final(self)),
            Self::non_session_caches_eq(*old(self), *final(self)),
            final(self).session_list_cache == old(self).session_list_cache,
            final(self).web_session_list_cache == old(self).web_session_list_cache,
    {
        let ghost m0 = old(self).session_items();
        if self.session_cache.is_none() {
            return ;
        }
        let sessions = list.as_vec();
        let ghost items = session_entries(list@);
        let mut i: usize = 0;
        while i < sessions.len()
            invariant
                i <= sessions.len(),
                m0 is Some,
                m0->0.wf(),
                items == session_entries(sessions_view(sessions@)),
                self.session_items() == opt_item_backfilled(m0, items.take(i as int), now),
                opt_item_wf(self.session_items()),
                self.transport == old(self).transport,
                self.base_url == old(self).base_url,
                self.token == old(self).token,
                self.session_list_cache == old(self).session_list_cache,
                self.web_session_list_cache == old(self).web_session_list_cache,
                Self::non_session_caches_eq(*old(self), *self),
            decreases sessions.len() - i,
        {
            let s = &sessions[i];
            proof {
                assert(sessions_view(sessions@)[i as int] == sessions@[i as int]@);
                assert(items[i as int] == (sessions@[i as int]@.id, sessions@[i as int]@));
                assert(items.take(i + 1) =~= items.take(i as int).push(items[i as int]));
            }
            let copy = s.dup();
            if let Some(c) = &mut self.session_cache {
                c.insert(s.id, copy, now);
            }
            proof {
                lemma_backfilled_push(m0->0, items.take(i as int), items[i as int], now);
                lemma_backfilled_wf(m0->0, items.take(i + 1), now);
            }
            i = i + 1;
        }
        proof {
            assert(items.take(sessions.len() as int) =~= items);
        }
    }

    /// What a "list all sessions" call leaves behind: with no list cache
    /// the caches are untouched; on a live hit nothing changes and the
    /// cached list is returned; on a miss a successful fetch fills the
    /// list cache and backfills the session item cache with every member
    /// of the list, and a failed fetch changes no cache.
    pub open spec fn list_sessions_post(
        c0: Self,
        c1: Self,
        now: u64,
        r: ApiResult<SessionList>,
    ) -> bool {
        &&& c1.wf()
        &&& Self::same_config(c0, c1)
        &&& Self::non_session_caches_eq(c0, c1)
        &&& c1.web_session_list_cache == c0.web_session_list_cache
        &&& match c0.session_list() {
            None => c1.session_cache == c0.session_cache && c1.session_list_cache
                == c0.session_list_cache,
            Some(m) => match m.lookup(now) {
                Some(l) => c1 == c0 && match r {
                    Ok(x) => x@ == l,
                    Err(_) => false,
                },
                None => match r {
                    Ok(x) => c1.session_list() == Some(m.filled(x@, now)) && c1.session_items()
                        == opt_item_backfilled(c0.session_items(), session_entries(x@), now),
                    Err(_) => c1.session_cache == c0.session_cache && c1.session_list_cache
                        == c0.session_list_cache,
                },
            },
        }
    }

    /// Get a list of all future sessions.
    pub fn list_sessions(&mut self, now: u64) -> (r: ApiResult<SessionList>)
        requires
            old(self).wf(),
        ensures
            Self::list_sessions_post(*old(self), *final(self), now, r),
    {
        let path = sessions_path();
        if self.session_list_cache.is_none() {
            let fetched = self.transport.fetch_session_list(path.as_str());
            return match fetched {
                Ok(v) => Ok(SessionList::from(v)),
                Err(e) => Err(e),
            };
        }
        let cached = match &self.session_list_cache {
            Some(c) => c.get(now),
            None => None,
        };
        if let Some(l) = cached {
            return Ok(l);
        }
        let fetched = self.transport.fetch_session_list(path.as_str());
        match fetched {
            Err(e) => Err(e),
            Ok(v) => {
                let list = SessionList::from(v);
                let copy = list.dup();
                if let Some(c) = &mut self.session_list_cache {
                    c.insert(copy, now);
                }
                self.backfill_sessions(&list, now);
                Ok(list)
            },
        }
    }

    /// What a "list web sessions" call leaves behind: as for the session
    /// list, but against the dedicated web session list cache; on a miss
    /// the fetched (server-side filtered) list still backfills the shared
    /// session item cache.
    pub open spec fn list_web_sessions_post(
        c0: Self,
        c1: Self,
        now: u64,
        r: ApiResult<SessionList>,
    ) -> bool {
        &&& c1.wf()
        &&& Self::same_config(c0, c1)
        &&& Self::non_session_caches_eq(c0, c1)
        &&& c1.session_list_cache == c0.session_list_cache
        &&& match c0.web_session_list() {
            None => c1.session_cache == c0.session_cache && c1.web_session_list_cache
                == c0.web_session_list_cache,
            Some(m) => match m.lookup(now) {
                Some(l) => c1 == c0 && match r {
                    Ok(x) => x@ == l,
                    Err(_) => false,
                },
                None => match r {
                    Ok(x) => c1.web_session_list() == Some(m.filled(x@, now)) && c1.session_items()
                        == opt_item_backfilled(c0.session_items(), session_entries(x@), now),
                    Err(_) => c1.session_cache == c0.session_cache && c1.web_session_list_cache
                        == c0.web_session_list_cache,
                },
            },
        }
    }

    /// Get a list of all future sessions that should be available for
    /// online sales. The upstream API filters server-side; on a cache
    /// miss the fetched subset still seeds the shared session item
    /// cache.
    pub fn list_web_sessions(&mut self, now: u64) -> (r: ApiResult<SessionList>)
        requires
            old(self).wf(),
        ensures
            Self::list_web_sessions_post(*old(self), *final(self), now, r),
    {
        let path = web_sessions_path();
        if self.web_session_list_cache.is_none() {
            let fetched = self.transport.fetch_session_list(path.as_str());
            return match fetched {
                Ok(v) => Ok(SessionList::from(v)),
                Err(e) => Err(e),
            };
        }
        let cached = match &self.web_session_list_cache {
            Some(c) => c.get(now),
            None => None,
        };
        if let Some(l) = cached {
            return Ok(l);
        }
        let fetched = self.transport.fetch_session_list(path.as_str());
        match fetched {
            Err(e) => Err(e),
            Ok(v) => {
                let list = SessionList::from(v);
                let copy = list.dup();
                if let Some(c) = &mut self.web_session_list_cache {
                    c.insert(copy, now);
                }
                self.backfill_sessions(&list, now);
                Ok(list)
            },
        }
    }

    /// Invalidate a cached session by its ID. As a side effect, this
    /// also invalidates the full session list cache: a list with one
    /// stale member cannot be kept.
    pub fn invalidate_cached_session(&mut self, id: SessionId)
        requires
            old(self).wf(),
        ensures
            final(self).wf(),
            final(self).transport == old(self).transport,
            Self::same_config(*old(self), *final(self)),
            Self::non_session_caches_eq(*old(self), *final(self)),
            final(self).session_items() == opt_item_removed(old(self).session_items(), id@),
            final(self).session_list() == opt_list_cleared(old(self).session_list()),
            final(self).web_session_list_cache == old(self).web_session_list_cache,
    {
        if let Some(c) = &mut self.session_cache {
            c.invalidate(&id);
        }
        if let Some(c) = &mut self.session_list_cache {
            c.invalidate_all();
        }
    }

    /// Invalidate all cached sessions and the full session list cache.
    pub fn invalidate_all_cached_sessions(&mut self)
        requires
            old(self).wf(),
        ensures
            final(self).wf(),
            final(self).transport == old(self).transport,
            Self::same_config(*old(self), *final(self)),
            Self::non_session_caches_eq(*old(self), *final(self)),
            final(self).session_items() == opt_item_cleared(old(self).session_items()),
            final(self).session_list() == opt_list_cleared(old(self).session_list()),
            final(self).web_session_list_cache == old(self).web_session_list_cache,
    {
        if let Some(c) = &mut self.session_cache {
            c.invalidate_all();
        }
        if let Some(c) = &mut self.session_list_cache {
            c.invalidate_all();
        }
    }

    /// Invalidate the cached web session list.
    pub fn invalidate_all_cached_web_sessions(&mut self)
        requires
            old(self).wf(),
        ensures
            final(self).wf(),
            final(self).transport == old(self).transport,
            Self::same_config(*old(self), *final(self)),
            Self::non_session_caches_eq(*old(self), *final(self)),
            final(self).session_cache == old(self).session_cache,
            final(self).session_list_cache == old(self).session_list_cache,
            final(self).web_session_list() == opt_list_cleared(old(self).web_session_list()),
    {
        if let Some(c) = &mut self.web_session_list_cache {
            c.invalidate_all();
        }
    }
}

} // verus!

verus! {

impl<T: Transport> Client<T> {
    /// What a "get film by ID" call leaves behind: with no item cache
    /// the client's caches are untouched; on a live cache hit nothing at
    /// all changes and the cached value is returned; on a miss a
    /// successful fetch is stored under the requested ID before being
    /// returned, and a failed fetch changes no cache.
    pub open spec fn get_film_post(
        c0: Self,
        c1: Self,
        now: u64,
        id: Seq<char>,
        r: ApiResult<Film>,
    ) -> bool {
        &&& c1.wf()
        &&& Self::same_config(c0, c1)
        &&& Self::non_film_caches_eq(c0, c1)
        &&& c1.film_list_cache == c0.film_list_cache
        &&& match c0.film_items() {
            None => c1.film_cache == c0.film_cache,
            Some(m) => match m.lookup(id, now) {
                Some(v) => c1 == c0 && match r {
                    Ok(s) => s@ == v,
                    Err(_) => false,
                },
                None => match r {
                    Ok(s) => c1.film_items() == Some(m.inserted(id, s@, now)),
                    Err(_) => c1.film_cache == c0.film_cache,
                },
            },
        }
    }

    /// Get a specific film by its ID.
    pub fn get_film(&mut self, now: u64, id: &FilmId) -> (r: ApiResult<Film>)
        requires
            old(self).wf(),
        ensures
            Self::get_film_post(*old(self), *final(self), now, id@, r),
    {
        let path = film_path(id);
        if self.film_cache.is_none() {
            return self.transport.fetch_film(path.as_str());
        }
        let cached = match &self.film_cache {
            Some(c) => c.get(id, now),
            None => None,
        };
        if let Some(v) = cached {
            return Ok(v);
        }
        let fetched = self.transport.fetch_film(path.as_str());
        match fetched {
            Ok(item) => {
                let copy = item.dup();
                if let Some(c) = &mut self.film_cache {
                    c.insert(id.dup(), copy, now);
                }
                Ok(item)
            },
            Err(e) => Err(e),
        }
    }

    /// Insert every film of `list` into the film item cache, keyed
    /// by its own ID, in list order. A no-op when no item cache is
    /// configured.
    fn backfill_films(&mut self, list: &Vec<Film>, now: u64)
        requires
            old(self).wf(),
        ensures
            final(self).wf(),
            final(self).film_items() == opt_item_backfilled(
                old(self).film_items(),
                film_entries(films_view(list@)),
                now,
            ),
            final(self).transport == old(self).transport,
            Self::same_config(*old(self), *final(self)),
            Self::non_film_caches_eq(*old(self), *final(self)),
            final(self).film_list_cache == old(self).film_list_cache,
    {
        let ghost m0 = old(self).film_items();
        if self.film_cache.is_none() {
            return ;
        }
        let ghost items = film_entries(films_view(list@));
        let mut i: usize = 0;
        while i < list.len()
            invariant
                i <= list.len(),
                m0 is Some,
                m0->0.wf(),
                items == film_entries(films_view(list@)),
                self.film_items() == opt_item_backfilled(m0, items.take(i as int), now),
                opt_item_wf(self.film_items()),
                self.transport == old(self).transport,
                self.base_url == old(self).base_url,
                self.token == old(self).token,
                self.film_list_cache == old(self).film_list_cache,
                Self::non_film_caches_eq(*old(self), *self),
            decreases list.len() - i,
        {
            let s = &list[i];
            proof {
                assert(films_view(list@)[i as int] == list@[i as int]@);
                assert(items[i as int] == (list@[i as int]@.id, list@[i as int]@));
                assert(items.take(i + 1) =~= items.take(i as int).push(items[i as int]));
            }
            let copy = s.dup();
            if let Some(c) = &mut self.film_cache {
                c.insert(s.id.dup(), copy, now);
            }
            proof {
                lemma_backfilled_push(m0->0, items.take(i as int), items[i as int], now);
                lemma_backfilled_wf(m0->0, items.take(i + 1), now);
            }
            i = i + 1;
        }
        proof {
            assert(items.take(list.len() as int) =~= items);
        }
    }

    /// What a "list all films" call leaves behind: with no list cache
    /// the caches are untouched; on a live hit nothing changes and the
    /// cached list is returned; on a miss a successful fetch fills the
    /// list cache and backfills the film item cache with every member
    /// of the list, and a failed fetch changes no cache.
    pub open spec fn list_films_post(
        c0: Self,
        c1: Self,
        now: u64,
        r: ApiResult<Vec<Film>>,
    ) -> bool {
        &&& c1.wf()
        &&& Self::same_config(c0, c1)
        &&& Self::non_film_caches_eq(c0, c1)
        &&& match c0.film_list() {
            None => c1.film_cache == c0.film_cache && c1.film_list_cache == c0.film_list_cache,
            Some(m) => match m.lookup(now) {
                Some(l) => c1 == c0 && match r {
                    Ok(x) => films_view(x@) == l,
                    Err(_) => false,
                },
                None => match r {
                    Ok(x) => c1.film_list() == Some(m.filled(films_view(x@), now))
                        && c1.film_items() == opt_item_backfilled(
                        c0.film_items(),
                        film_entries(films_view(x@)),
                        now,
                    ),
                    Err(_) => c1.film_cache == c0.film_cache && c1.film_list_cache
                        == c0.film_list_cache,
                },
            },
        }
    }

    /// Get a list of all films in the Veezi system.
    pub fn list_films(&mut self, now: u64) -> (r: ApiResult<Vec<Film>>)
        requires
            old(self).wf(),
        ensures
            Self::list_films_post(*old(self), *final(self), now, r),
    {
        let path = films_path();
        if self.film_list_cache.is_none() {
            return self.transport.fetch_film_list(path.as_str());
        }
        let cached = match &self.film_list_cache {
            Some(c) => c.get(now),
            None => None,
        };
        if let Some(l) = cached {
            return Ok(l);
        }
        let fetched = self.transport.fetch_film_list(path.as_str());
        match fetched {
            Err(e) => Err(e),
            Ok(v) => {
                let copy = v.dup();
                if let Some(c) = &mut self.film_list_cache {
                    c.insert(copy, now);
                }
                self.backfill_films(&v, now);
                Ok(v)
            },
        }
    }

    /// Invalidate a cached film by its ID. As a side effect, this also
    /// invalidates the full film list cache: a list with one stale
    /// member cannot be kept.
    pub fn invalidate_cached_film(&mut self, id: &FilmId)
        requires
            old(self).wf(),
        ensures
            final(self).wf(),
            final(self).transport == old(self).transport,
            Self::same_config(*old(self), *final(self)),
            Self::non_film_caches_eq(*old(self), *final(self)),
            final(self).film_items() == opt_item_removed(old(self).film_items(), id@),
            final(self).film_list() == opt_list_cleared(old(self).film_list()),
    {
        if let Some(c) = &mut self.film_cache {
            c.invalidate(id);
        }
        if let Some(c) = &mut self.film_list_cache {
            c.invalidate_all();
        }
    }

    /// Invalidate all cached films and the full film list cache.
    pub fn invalidate_all_cached_films(&mut self)
        requires
            old(self).wf(),
        ensures
            final(self).wf(),
            final(self).transport == old(self).transport,
            Self::same_config(*old(self), *final(self)),
            Self::non_film_caches_eq(*old(self), *final(self)),
            final(self).film_items() == opt_item_cleared(old(self).film_items()),
            final(self).film_list() == opt_list_cleared(old(self).film_list()),
    {
        if let Some(c) = &mut self.film_cache {
            c.invalidate_all();
        }
        if let Some(c) = &mut self.film_list_cache {
            c.invalidate_all();
        }
    }

    /// What a "get film package by ID" call leaves behind: with no item cache
    /// the client's caches are untouched; on a live cache hit nothing at
    /// all changes and the cached value is returned; on a miss a
    /// successful fetch is stored under the requested ID before being
    /// returned, and a failed fetch changes no cache.
    pub open spec fn get_film_package_post(
        c0: Self,
        c1: Self,
        now: u64,
        id: u32,
        r: ApiResult<FilmPackage>,
    ) -> bool {
        &&& c1.wf()
        &&& Self::same_config(c0, c1)
        &&& Self::non_film_package_caches_eq(c0, c1)
        &&& c1.film_package_list_cache == c0.film_package_list_cache
        &&& match c0.film_package_items() {
            None => c1.film_package_cache == c0.film_package_cache,
            Some(m) => match m.lookup(id, now) {
                Some(v) => c1 == c0 && match r {
                    Ok(s) => s@ == v,
                    Err(_) => false,
                },
                None => match r {
                    Ok(s) => c1.film_package_items() == Some(m.inserted(id, s@, now)),
                    Err(_) => c1.film_package_cache == c0.film_package_cache,
                },
            },
        }
    }

    /// Get a specific film package by its ID.
    pub fn get_film_package(&mut self, now: u64, id: FilmPackageId) -> (r: ApiResult<FilmPackage>)
        requires
            old(self).wf(),
        ensures
            Self::get_film_package_post(*old(self), *final(self), now, id@, r),
    {
        let path = film_package_path(id);
        if self.film_package_cache.is_none() {
            return self.transport.fetch_film_package(path.as_str());
        }
        let cached = match &self.film_package_cache {
            Some(c) => c.get(&id, now),
            None => None,
        };
        if let Some(v) = cached {
            return Ok(v);
        }
        let fetched = self.transport.fetch_film_package(path.as_str());
        match fetched {
            Ok(item) => {
                let copy = item.dup();
                if let Some(c) = &mut self.film_package_cache {
                    c.insert(id, copy, now);
                }
                Ok(item)
            },
            Err(e) => Err(e),
        }
    }

    /// Insert every film package of `list` into the film package item cache, keyed
    /// by its own ID, in list order. A no-op when no item cache is
    /// configured.
    fn backfill_film_packages(&mut self, list: &Vec<FilmPackage>, now: u64)
        requires
            old(self).wf(),
        ensures
            final(self).wf(),
            final(self).film_package_items() == opt_item_backfilled(
                old(self).film_package_items(),
                film_package_entries(film_packages_view(list@)),
                now,
            ),
            final(self).transport == old(self).transport,
            Self::same_config(*old(self), *final(self)),
            Self::non_film_package_caches_eq(*old(self), *final(self)),
            final(self).film_package_list_cache == old(self).film_package_list_cache,
    {
        let ghost m0 = old(self).film_package_items();
        if self.film_package_cache.is_none() {
            return ;
        }
        let ghost items = film_package_entries(film_packages_view(list@));
        let mut i: usize = 0;
        while i < list.len()
            invariant
                i <= list.len(),
                m0 is Some,
                m0->0.wf(),
                items == film_package_entries(film_packages_view(list@)),
                self.film_package_items() == opt_item_backfilled(m0, items.take(i as int), now),
                opt_item_wf(self.film_package_items()),
                self.transport == old(self).transport,
                self.base_url == old(self).base_url,
                self.token == old(self).token,
                self.film_package_list_cache == old(self).film_package_list_cache,
                Self::non_film_package_caches_eq(*old(self), *self),
            decreases list.len() - i,
        {
            let s = &list[i];
            proof {
                assert(film_packages_view(list@)[i as int] == list@[i as int]@);
                assert(items[i as int] == (list@[i as int]@.id, list@[i as int]@));
                assert(items.take(i + 1) =~= items.take(i as int).push(items[i as int]));
            }
            let copy = s.dup();
            if let Some(c) = &mut self.film_package_cache {
                c.insert(s.id, copy, now);
            }
            proof {
                lemma_backfilled_push(m0->0, items.take(i as int), items[i as int], now);
                lemma_backfilled_wf(m0->0, items.take(i + 1), now);
            }
            i = i + 1;
        }
        proof {
            assert(items.take(list.len() as int) =~= items);
        }
    }

    /// What a "list all film packages" call leaves behind: with no list cache
    /// the caches are untouched; on a live hit nothing changes and the
    /// cached list is returned; on a miss a successful fetch fills the
    /// list cache and backfills the film package item cache with every member
    /// of the list, and a failed fetch changes no cache.
    pub open spec fn list_film_packages_post(
        c0: Self,
        c1: Self,
        now: u64,
        r: ApiResult<Vec<FilmPackage>>,
    ) -> bool {
        &&& c1.wf()
        &&& Self::same_config(c0, c1)
        &&& Self::non_film_package_caches_eq(c0, c1)
        &&& match c0.film_package_list() {
            None => c1.film_package_cache == c0.film_package_cache && c1.film_package_list_cache == c0.film_package_list_cache,
            Some(m) => match m.lookup(now) {
                Some(l) => c1 == c0 && match r {
                    Ok(x) => film_packages_view(x@) == l,
                    Err(_) => false,
                },
                None => match r {
                    Ok(x) => c1.film_package_list() == Some(m.filled(film_packages_view(x@), now))
                        && c1.film_package_items() == opt_item_backfilled(
                        c0.film_package_items(),
                        film_package_entries(film_packages_view(x@)),
                        now,
                    ),
                    Err(_) => c1.film_package_cache == c0.film_package_cache && c1.film_package_list_cache
                        == c0.film_package_list_cache,
                },
            },
        }
    }

    /// Get a list of all film packages in the Veezi system.
    pub fn list_film_packages(&mut self, now: u64) -> (r: ApiResult<Vec<FilmPackage>>)
        requires
            old(self).wf(),
        ensures
            Self::list_film_packages_post(*old(self), *final(self), now, r),
    {
        let path = film_packages_path();
        if self.film_package_list_cache.is_none() {
            return self.transport.fetch_film_package_list(path.as_str());
        }
        let cached = match &self.film_package_list_cache {
            Some(c) => c.get(now),
            None => None,
        };
        if let Some(l) = cached {
            return Ok(l);
        }
        let fetched = self.transport.fetch_film_package_list(path.as_str());
        match fetched {
            Err(e) => Err(e),
            Ok(v) => {
                let copy = v.dup();
                if let Some(c) = &mut self.film_package_list_cache {
                    c.insert(copy, now);
                }
                self.backfill_film_packages(&v, now);
                Ok(v)
            },
        }
    }

    /// Invalidate a cached film package by its ID. As a side effect, this also
    /// invalidates the full film package list cache: a list with one stale
    /// member cannot be kept.
    pub fn invalidate_cached_film_package(&mut self, id: FilmPackageId)
        requires
            old(self).wf(),
        ensures
            final(self).wf(),
            final(self).transport == old(self).transport,
            Self::same_config(*old(self), *final(self)),
            Self::non_film_package_caches_eq(*old(self), *final(self)),
            final(self).film_package_items() == opt_item_removed(old(self).film_package_items(), id@),
            final(self).film_package_list() == opt_list_cleared(old(self).film_package_list()),
    {
        if let Some(c) = &mut self.film_package_cache {
            c.invalidate(&id);
        }
        if let Some(c) = &mut self.film_package_list_cache {
            c.invalidate_all();
        }
    }

    /// Invalidate all cached film packages and the full film package list cache.
    pub fn invalidate_all_cached_film_packages(&mut self)
        requires
            old(self).wf(),
        ensures
            final(self).wf(),
            final(self).transport == old(self).transport,
            Self::same_config(*old(self), *final(self)),
            Self::non_film_package_caches_eq(*old(self), *final(self)),
            final(self).film_package_items() == opt_item_cleared(old(self).film_package_items()),
            final(self).film_package_list() == opt_list_cleared(old(self).film_package_list()),
    {
        if let Some(c) = &mut self.film_package_cache {
            c.invalidate_all();
        }
        if let Some(c) = &mut self.film_package_list_cache {
            c.invalidate_all();
        }
    }

    /// What a "get screen by ID" call leaves behind: with no item cache
    /// the client's caches are untouched; on a live cache hit nothing at
    /// all changes and the cached value is returned; on a miss a
    /// successful fetch is stored under the requested ID before being
    /// returned, and a failed fetch changes no cache.
    pub open spec fn get_screen_post(
        c0: Self,
        c1: Self,
        now: u64,
        id: u32,
        r: ApiResult<Screen>,
    ) -> bool {
        &&& c1.wf()
        &&& Self::same_config(c0, c1)
        &&& Self::non_screen_caches_eq(c0, c1)
        &&& c1.screen_list_cache == c0.screen_list_cache
        &&& match c0.screen_items() {
            None => c1.screen_cache == c0.screen_cache,
            Some(m) => match m.lookup(id, now) {
                Some(v) => c1 == c0 && match r {
                    Ok(s) => s@ == v,
                    Err(_) => false,
                },
                None => match r {
                    Ok(s) => c1.screen_items() == Some(m.inserted(id, s@, now)),
                    Err(_) => c1.screen_cache == c0.screen_cache,
                },
            },
        }
    }

    /// Get a specific screen by its ID.
    pub fn get_screen(&mut self, now: u64, id: ScreenId) -> (r: ApiResult<Screen>)
        requires
            old(self).wf(),
        ensures
            Self::get_screen_post(*old(self), *final(self), now, id@, r),
    {
        let path = screen_path(id);
        if self.screen_cache.is_none() {
            return self.transport.fetch_screen(path.as_str());
        }
        let cached = match &self.screen_cache {
            Some(c) => c.get(&id, now),
            None => None,
        };
        if let Some(v) = cached {
            return Ok(v);
        }
        let fetched = self.transport.fetch_screen(path.as_str());
        match fetched {
            Ok(item) => {
                let copy = item.dup();
                if let Some(c) = &mut self.screen_cache {
                    c.insert(id, copy, now);
                }
                Ok(item)
            },
            Err(e) => Err(e),
        }
    }

    /// Insert every screen of `list` into the screen item cache, keyed
    /// by its own ID, in list order. A no-op when no item cache is
    /// configured.
    fn backfill_screens(&mut self, list: &Vec<Screen>, now: u64)
        requires
            old(self).wf(),
        ensures
            final(self).wf(),
            final(self).screen_items() == opt_item_backfilled(
                old(self).screen_items(),
                screen_entries(screens_view(list@)),
                now,
            ),
            final(self).transport == old(self).transport,
            Self::same_config(*old(self), *final(self)),
            Self::non_screen_caches_eq(*old(self), *final(self)),
            final(self).screen_list_cache == old(self).screen_list_cache,
    {
        let ghost m0 = old(self).screen_items();
        if self.screen_cache.is_none() {
            return ;
        }
        let ghost items = screen_entries(screens_view(list@));
        let mut i: usize = 0;
        while i < list.len()
            invariant
                i <= list.len(),
                m0 is Some,
                m0->0.wf(),
                items == screen_entries(screens_view(list@)),
                self.screen_items() == opt_item_backfilled(m0, items.take(i as int), now),
                opt_item_wf(self.screen_items()),
                self.transport == old(self).transport,
                self.base_url == old(self).base_url,
                self.token == old(self).token,
                self.screen_list_cache == old(self).screen_list_cache,
                Self::non_screen_caches_eq(*old(self), *self),
            decreases list.len() - i,
        {
            let s = &list[i];
            proof {
                assert(screens_view(list@)[i as int] == list@[i as int]@);
                assert(items[i as int] == (list@[i as int]@.id, list@[i as int]@));
                assert(items.take(i + 1) =~= items.take(i as int).push(items[i as int]));
            }
            let copy = s.dup();
            if let Some(c) = &mut self.screen_cache {
                c.insert(s.id, copy, now);
            }
            proof {
                lemma_backfilled_push(m0->0, items.take(i as int), items[i as int], now);
                lemma_backfilled_wf(m0->0, items.take(i + 1), now);
            }
            i = i + 1;
        }
        proof {
            assert(items.take(list.len() as int) =~= items);
        }
    }

    /// What a "list all screens" call leaves behind: with no list cache
    /// the caches are untouched; on a live hit nothing changes and the
    /// cached list is returned; on a miss a successful fetch fills the
    /// list cache and backfills the screen item cache with every member
    /// of the list, and a failed fetch changes no cache.
    pub open spec fn list_screens_post(
        c0: Self,
        c1: Self,
        now: u64,
        r: ApiResult<Vec<Screen>>,
    ) -> bool {
        &&& c1.wf()
        &&& Self::same_config(c0, c1)
        &&& Self::non_screen_caches_eq(c0, c1)
        &&& match c0.screen_list() {
            None => c1.screen_cache == c0.screen_cache && c1.screen_list_cache == c0.screen_list_cache,
            Some(m) => match m.lookup(now) {
                Some(l) => c1 == c0 && match r {
                    Ok(x) => screens_view(x@) == l,
                    Err(_) => false,
                },
                None => match r {
                    Ok(x) => c1.screen_list() == Some(m.filled(screens_view(x@), now))
                        && c1.screen_items() == opt_item_backfilled(
                        c0.screen_items(),
                        screen_entries(screens_view(x@)),
                        now,
                    ),
                    Err(_) => c1.screen_cache == c0.screen_cache && c1.screen_list_cache
                        == c0.screen_list_cache,
                },
            },
        }
    }

    /// Get a list of all screens in the current site.
    pub fn list_screens(&mut self, now: u64) -> (r: ApiResult<Vec<Screen>>)
        requires
            old(self).wf(),
        ensures
            Self::list_screens_post(*old(self), *final(self), now, r),
    {
        let path = screens_path();
        if self.screen_list_cache.is_none() {
            return self.transport.fetch_screen_list(path.as_str());
        }
        let cached = match &self.screen_list_cache {
            Some(c) => c.get(now),
            None => None,
        };
        if let Some(l) = cached {
            return Ok(l);
        }
        let fetched = self.transport.fetch_screen_list(path.as_str());
        match fetched {
            Err(e) => Err(e),
            Ok(v) => {
                let copy = v.dup();
                if let Some(c) = &mut self.screen_list_cache {
                    c.insert(copy, now);
                }
                self.backfill_screens(&v, now);
                Ok(v)
            },
        }
    }

    /// Invalidate a cached screen by its ID. As a side effect, this also
    /// invalidates the full screen list cache: a list with one stale
    /// member cannot be kept.
    pub fn invalidate_cached_screen(&mut self, id: ScreenId)
        requires
            old(self).wf(),
        ensures
            final(self).wf(),
            final(self).transport == old(self).transport,
            Self::same_config(*old(self), *final(self)),
            Self::non_screen_caches_eq(*old(self), *final(self)),
            final(self).screen_items() == opt_item_removed(old(self).screen_items(), id@),
            final(self).screen_list() == opt_list_cleared(old(self).screen_list()),
    {
        if let Some(c) = &mut self.screen_cache {
            c.invalidate(&id);
        }
        if let Some(c) = &mut self.screen_list_cache {
            c.invalidate_all();
        }
    }

    /// Invalidate all cached screens and the full screen list cache.
    pub fn invalidate_all_cached_screens(&mut self)
        requires
            old(self).wf(),
        ensures
            final(self).wf(),
            final(self).transport == old(self).transport,
            Self::same_config(*old(self), *final(self)),
            Self::non_screen_caches_eq(*old(self), *final(self)),
            final(self).screen_items() == opt_item_cleared(old(self).screen_items()),
            final(self).screen_list() == opt_list_cleared(old(self).screen_list()),
    {
        if let Some(c) = &mut self.screen_cache {
            c.invalidate_all();
        }
        if let Some(c) = &mut self.screen_list_cache {
            c.invalidate_all();
        }
    }

    /// What a "get attribute by ID" call leaves behind: with no item cache
    /// the client's caches are untouched; on a live cache hit nothing at
    /// all changes and the cached value is returned; on a miss a
    /// successful fetch is stored under the requested ID before being
    /// returned, and a failed fetch changes no cache.
    pub open spec fn get_attribute_post(
        c0: Self,
        c1: Self,
        now: u64,
        id: Seq<char>,
        r: ApiResult<Attribute>,
    ) -> bool {
        &&& c1.wf()
        &&& Self::same_config(c0, c1)
        &&& Self::non_attribute_caches_eq(c0, c1)
        &&& c1.attribute_list_cache == c0.attribute_list_cache
        &&& match c0.attribute_items() {
            None => c1.attribute_cache == c0.attribute_cache,
            Some(m) => match m.lookup(id, now) {
                Some(v) => c1 == c0 && match r {
                    Ok(s) => s@ == v,
                    Err(_) => false,
                },
                None => match r {
                    Ok(s) => c1.attribute_items() == Some(m.inserted(id, s@, now)),
                    Err(_) => c1.attribute_cache == c0.attribute_cache,
                },
            },
        }
    }

    /// Get a specific attribute by its ID.
    pub fn get_attribute(&mut self, now: u64, id: &AttributeId) -> (r: ApiResult<Attribute>)
        requires
            old(self).wf(),
        ensures
            Self::get_attribute_post(*old(self), *final(self), now, id@, r),
    {
        let path = attribute_path(id);
        if self.attribute_cache.is_none() {
            return self.transport.fetch_attribute(path.as_str());
        }
        let cached = match &self.attribute_cache {
            Some(c) => c.get(id, now),
            None => None,
        };
        if let Some(v) = cached {
            return Ok(v);
        }
        let fetched = self.transport.fetch_attribute(path.as_str());
        match fetched {
            Ok(item) => {
                let copy = item.dup();
                if let Some(c) = &mut self.attribute_cache {
                    c.insert(id.dup(), copy, now);
                }
                Ok(item)
            },
            Err(e) => Err(e),
        }
    }

    /// Insert every attribute of `list` into the attribute item cache, keyed
    /// by its own ID, in list order. A no-op when no item cache is
    /// configured.
    fn backfill_attributes(&mut self, list: &Vec<Attribute>, now: u64)
        requires
            old(self).wf(),
        ensures
            final(self).wf(),
            final(self).attribute_items() == opt_item_backfilled(
                old(self).attribute_items(),
                attribute_entries(attributes_view(list@)),
                now,
            ),
            final(self).transport == old(self).transport,
            Self::same_config(*old(self), *final(self)),
            Self::non_attribute_caches_eq(*old(self), *final(self)),
            final(self).attribute_list_cache == old(self).attribute_list_cache,
    {
        let ghost m0 = old(self).attribute_items();
        if self.attribute_cache.is_none() {
            return ;
        }
        let ghost items = attribute_entries(attributes_view(list@));
        let mut i: usize = 0;
        while i < list.len()
            invariant
                i <= list.len(),
                m0 is Some,
                m0->0.wf(),
                items == attribute_entries(attributes_view(list@)),
                self.attribute_items() == opt_item_backfilled(m0, items.take(i as int), now),
                opt_item_wf(self.attribute_items()),
                self.transport == old(self).transport,
                self.base_url == old(self).base_url,
                self.token == old(self).token,
                self.attribute_list_cache == old(self).attribute_list_cache,
                Self::non_attribute_caches_eq(*old(self), *self),
            decreases list.len() - i,
        {
            let s = &list[i];
            proof {
                assert(attributes_view(list@)[i as int] == list@[i as int]@);
                assert(items[i as int] == (list@[i as int]@.id, list@[i as int]@));
                assert(items.take(i + 1) =~= items.take(i as int).push(items[i as int]));
            }
            let copy = s.dup();
            if let Some(c) = &mut self.attribute_cache {
                c.insert(s.id.dup(), copy, now);
            }
            proof {
                lemma_backfilled_push(m0->0, items.take(i as int), items[i as int], now);
                lemma_backfilled_wf(m0->0, items.take(i + 1), now);
            }
            i = i + 1;
        }
        proof {
            assert(items.take(list.len() as int) =~= items);
        }
    }

    /// What a "list all attributes" call leaves behind: with no list cache
    /// the caches are untouched; on a live hit nothing changes and the
    /// cached list is returned; on a miss a successful fetch fills the
    /// list cache and backfills the attribute item cache with every member
    /// of the list, and a failed fetch changes no cache.
    pub open spec fn list_attributes_post(
        c0: Self,
        c1: Self,
        now: u64,
        r: ApiResult<Vec<Attribute>>,
    ) -> bool {
        &&& c1.wf()
        &&& Self::same_config(c0, c1)
        &&& Self::non_attribute_caches_eq(c0, c1)
        &&& match c0.attribute_list() {
            None => c1.attribute_cache == c0.attribute_cache && c1.attribute_list_cache == c0.attribute_list_cache,
            Some(m) => match m.lookup(now) {
                Some(l) => c1 == c0 && match r {
                    Ok(x) => attributes_view(x@) == l,
                    Err(_) => false,
                },
                None => match r {
                    Ok(x) => c1.attribute_list() == Some(m.filled(attributes_view(x@), now))
                        && c1.attribute_items() == opt_item_backfilled(
                        c0.attribute_items(),
                        attribute_entries(attributes_view(x@)),
                        now,
                    ),
                    Err(_) => c1.attribute_cache == c0.attribute_cache && c1.attribute_list_cache
                        == c0.attribute_list_cache,
                },
            },
        }
    }

    /// Get a list of all attributes set in the site.
    pub fn list_attributes(&mut self, now: u64) -> (r: ApiResult<Vec<Attribute>>)
        requires
            old(self).wf(),
        ensures
            Self::list_attributes_post(*old(self), *final(self), now, r),
    {
        let path = attributes_path();
        if self.attribute_list_cache.is_none() {
            return self.transport.fetch_attribute_list(path.as_str());
        }
        let cached = match &self.attribute_list_cache {
            Some(c) => c.get(now),
            None => None,
        };
        if let Some(l) = cached {
            return Ok(l);
        }
        let fetched = self.transport.fetch_attribute_list(path.as_str());
        match fetched {
            Err(e) => Err(e),
            Ok(v) => {
                let copy = v.dup();
                if let Some(c) = &mut self.attribute_list_cache {
                    c.insert(copy, now);
                }
                self.backfill_attributes(&v, now);
                Ok(v)
            },
        }
    }

    /// Invalidate a cached attribute by its ID. As a side effect, this also
    /// invalidates the full attribute list cache: a list with one stale
    /// member cannot be kept.
    pub fn invalidate_cached_attribute(&mut self, id: &AttributeId)
        requires
            old(self).wf(),
        ensures
            final(self).wf(),
            final(self).transport == old(self).transport,
            Self::same_config(*old(self), *final(self)),
            Self::non_attribute_caches_eq(*old(self), *final(self)),
            final(self).attribute_items() == opt_item_removed(old(self).attribute_items(), id@),
            final(self).attribute_list() == opt_list_cleared(old(self).attribute_list()),
    {
        if let Some(c) = &mut self.attribute_cache {
            c.invalidate(id);
        }
        if let Some(c) = &mut self.attribute_list_cache {
            c.invalidate_all();
        }
    }

    /// Invalidate all cached attributes and the full attribute list cache.
    pub fn invalidate_all_cached_attributes(&mut self)
        requires
            old(self).wf(),
        ensures
            final(self).wf(),
            final(self).transport == old(self).transport,
            Self::same_config(*old(self), *final(self)),
            Self::non_attribute_caches_eq(*old(self), *final(self)),
            final(self).attribute_items() == opt_item_cleared(old(self).attribute_items()),
            final(self).attribute_list() == opt_list_cleared(old(self).attribute_list()),
    {
        if let Some(c) = &mut self.attribute_cache {
            c.invalidate_all();
        }
        if let Some(c) = &mut self.attribute_list_cache {
            c.invalidate_all();
        }
    }

    /// What a "get site" call leaves behind: with no site cache the
    /// caches are untouched; on a live hit nothing changes and the
    /// cached site is returned; on a miss a successful fetch fills the
    /// slot, and a failed fetch changes no cache.
    pub open spec fn get_site_post(c0: Self, c1: Self, now: u64, r: ApiResult<Site>) -> bool {
        &&& c1.wf()
        &&& Self::same_config(c0, c1)
        &&& Self::non_site_caches_eq(c0, c1)
        &&& match c0.site_slot() {
            None => c1.site_cache == c0.site_cache,
            Some(m) => match m.lookup(now) {
                Some(v) => c1 == c0 && match r {
                    Ok(s) => s@ == v,
                    Err(_) => false,
                },
                None => match r {
                    Ok(s) => c1.site_slot() == Some(m.filled(s@, now)),
                    Err(_) => c1.site_cache == c0.site_cache,
                },
            },
        }
    }

    /// Get the site information for the current Veezi site.
    pub fn get_site(&mut self, now: u64) -> (r: ApiResult<Site>)
        requires
            old(self).wf(),
        ensures
            Self::get_site_post(*old(self), *final(self), now, r),
    {
        let path = site_path();
        if self.site_cache.is_none() {
            return self.transport.fetch_site(path.as_str());
        }
        let cached = match &self.site_cache {
            Some(c) => c.get(now),
            None => None,
        };
        if let Some(v) = cached {
            return Ok(v);
        }
        let fetched = self.transport.fetch_site(path.as_str());
        match fetched {
            Ok(item) => {
                let copy = item.dup();
                if let Some(c) = &mut self.site_cache {
                    c.insert(copy, now);
                }
                Ok(item)
            },
            Err(e) => Err(e),
        }
    }

    /// Invalidate the cached site.
    pub fn invalidate_cached_site(&mut self)
        requires
            old(self).wf(),
        ensures
            final(self).wf(),
            final(self).transport == old(self).transport,
            Self::same_config(*old(self), *final(self)),
            Self::non_site_caches_eq(*old(self), *final(self)),
            final(self).site_slot() == opt_list_cleared(old(self).site_slot()),
    {
        if let Some(c) = &mut self.site_cache {
            c.invalidate_all();
        }
    }

    /// Invalidate all cached data of every entity type, the ordinary and
    /// web session list caches included, as one coordinated call.
    /// Invalidation is synchronous local state clearing with no fallible
    /// step, so no intermediate state is observable.
    pub fn invalidate_all_caches(&mut self)
        requires
            old(self).wf(),
        ensures
            final(self).wf(),
            final(self).transport == old(self).transport,
            Self::same_config(*old(self), *final(self)),
            final(self).session_items() == opt_item_cleared(old(self).session_items()),
            final(self).session_list() == opt_list_cleared(old(self).session_list()),
            final(self).web_session_list() == opt_list_cleared(old(self).web_session_list()),
            final(self).film_items() == opt_item_cleared(old(self).film_items()),
            final(self).film_list() == opt_list_cleared(old(self).film_list()),
            final(self).film_package_items() == opt_item_cleared(old(self).film_package_items()),
            final(self).film_package_list() == opt_list_cleared(old(self).film_package_list()),
            final(self).screen_items() == opt_item_cleared(old(self).screen_items()),
            final(self).screen_list() == opt_list_cleared(old(self).screen_list()),
            final(self).attribute_items() == opt_item_cleared(old(self).attribute_items()),
            final(self).attribute_list() == opt_list_cleared(old(self).attribute_list()),
            final(self).site_slot() == opt_list_cleared(old(self).site_slot()),
    {
        self.invalidate_all_cached_sessions();
        self.invalidate_all_cached_web_sessions();
        self.invalidate_all_cached_films();
        self.invalidate_all_cached_film_packages();
        self.invalidate_all_cached_screens();
        self.invalidate_all_cached_attributes();
        self.invalidate_cached_site();
    }
}

} // verus!

verus! {

impl<T: Transport> Client<T> {
    /// The relation a successful "list all films" call establishes
    /// between the old client, the new client, and the view `l` of the
    /// returned list.
    pub open spec fn list_films_ok(c0: Self, c1: Self, now: u64, l: Seq<FilmView>) -> bool {
        &&& c1.wf()
        &&& Self::same_config(c0, c1)
        &&& Self::non_film_caches_eq(c0, c1)
        &&& match c0.film_list() {
            None => c1.film_cache == c0.film_cache && c1.film_list_cache == c0.film_list_cache,
            Some(m) => match m.lookup(now) {
                Some(cached) => l == cached && c1 == c0,
                None => c1.film_list() == Some(m.filled(l, now)) && c1.film_items()
                    == opt_item_backfilled(c0.film_items(), film_entries(l), now),
            },
        }
    }

    /// The relation a successful "list all film packages" call establishes
    /// between the old client, the new client, and the view `l` of the
    /// returned list.
    pub open spec fn list_film_packages_ok(c0: Self, c1: Self, now: u64, l: Seq<FilmPackageView>) -> bool {
        &&& c1.wf()
        &&& Self::same_config(c0, c1)
        &&& Self::non_film_package_caches_eq(c0, c1)
        &&& match c0.film_package_list() {
            None => c1.film_package_cache == c0.film_package_cache && c1.film_package_list_cache == c0.film_package_list_cache,
            Some(m) => match m.lookup(now) {
                Some(cached) => l == cached && c1 == c0,
                None => c1.film_package_list() == Some(m.filled(l, now)) && c1.film_package_items()
                    == opt_item_backfilled(c0.film_package_items(), film_package_entries(l), now),
            },
        }
    }

    /// The relation a successful "list all screens" call establishes
    /// between the old client, the new client, and the view `l` of the
    /// returned list.
    pub open spec fn list_screens_ok(c0: Self, c1: Self, now: u64, l: Seq<ScreenView>) -> bool {
        &&& c1.wf()
        &&& Self::same_config(c0, c1)
        &&& Self::non_screen_caches_eq(c0, c1)
        &&& match c0.screen_list() {
            None => c1.screen_cache == c0.screen_cache && c1.screen_list_cache == c0.screen_list_cache,
            Some(m) => match m.lookup(now) {
                Some(cached) => l == cached && c1 == c0,
                None => c1.screen_list() == Some(m.filled(l, now)) && c1.screen_items()
                    == opt_item_backfilled(c0.screen_items(), screen_entries(l), now),
            },
        }
    }

    /// The relation a successful "list all attributes" call establishes
    /// between the old client, the new client, and the view `l` of the
    /// returned list.
    pub open spec fn list_attributes_ok(c0: Self, c1: Self, now: u64, l: Seq<AttributeView>) -> bool {
        &&& c1.wf()
        &&& Self::same_config(c0, c1)
        &&& Self::non_attribute_caches_eq(c0, c1)
        &&& match c0.attribute_list() {
            None => c1.attribute_cache == c0.attribute_cache && c1.attribute_list_cache == c0.attribute_list_cache,
            Some(m) => match m.lookup(now) {
                Some(cached) => l == cached && c1 == c0,
                None => c1.attribute_list() == Some(m.filled(l, now)) && c1.attribute_items()
                    == opt_item_backfilled(c0.attribute_items(), attribute_entries(l), now),
            },
        }
    }

    /// The relation a successful "list all sessions" call establishes
    /// between the old client, the new client, and the view `l` of the
    /// returned list.
    pub open spec fn list_sessions_ok(c0: Self, c1: Self, now: u64, l: Seq<SessionView>) -> bool {
        &&& c1.wf()
        &&& Self::same_config(c0, c1)
        &&& Self::non_session_caches_eq(c0, c1)
        &&& c1.web_session_list_cache == c0.web_session_list_cache
        &&& match c0.session_list() {
            None => c1.session_cache == c0.session_cache && c1.session_list_cache
                == c0.session_list_cache,
            Some(m) => match m.lookup(now) {
                Some(cached) => l == cached && c1 == c0,
                None => c1.session_list() == Some(m.filled(l, now)) && c1.session_items()
                    == opt_item_backfilled(c0.session_items(), session_entries(l), now),
            },
        }
    }

    /// The relation a successful "list web sessions" call establishes
    /// between the old client, the new client, and the view `l` of the
    /// returned list.
    pub open spec fn list_web_sessions_ok(
        c0: Self,
        c1: Self,
        now: u64,
        l: Seq<SessionView>,
    ) -> bool {
        &&& c1.wf()
        &&& Self::same_config(c0, c1)
        &&& Self::non_session_caches_eq(c0, c1)
        &&& c1.session_list_cache == c0.session_list_cache
        &&& match c0.web_session_list() {
            None => c1.session_cache == c0.session_cache && c1.web_session_list_cache
                == c0.web_session_list_cache,
            Some(m) => match m.lookup(now) {
                Some(cached) => l == cached && c1 == c0,
                None => c1.web_session_list() == Some(m.filled(l, now)) && c1.session_items()
                    == opt_item_backfilled(c0.session_items(), session_entries(l), now),
            },
        }
    }

    /// Get a specific film by its exact title. If several match,
    /// the first one in the fetched list is returned; if none does, the
    /// result is empty.
    pub fn get_film_by_title(&mut self, now: u64, title: &str) -> (r: ApiResult<Option<Film>>)
        requires
            old(self).wf(),
        ensures
            final(self).wf(),
            Self::same_config(*old(self), *final(self)),
            Self::non_film_caches_eq(*old(self), *final(self)),
            match r {
                Ok(o) => exists|l: Seq<FilmView>|
                    #[trigger] Self::list_films_ok(*old(self), *final(self), now, l) && (match o {
                        Some(x) => Some(x@),
                        None => None::<FilmView>,
                    }) == find_first(l, film_with_title(title@)),
                Err(_) => final(self).film_cache == old(self).film_cache
                    && final(self).film_list_cache == old(self).film_list_cache && (old(
                    self,
                ).film_list() matches Some(m) ==> m.lookup(now) is None),
            },
    {
        let items = match self.list_films(now) {
            Ok(v) => v,
            Err(e) => {
                return Err(e);
            },
        };
        proof {
            assert(Self::list_films_ok(*old(self), *self, now, films_view(items@)));
        }
        Ok(find_film_by_title(&items, title))
    }

    /// Get a specific film by its exact short name. If several match,
    /// the first one in the fetched list is returned; if none does, the
    /// result is empty.
    pub fn get_film_by_short_name(&mut self, now: u64, short_name: &str) -> (r: ApiResult<Option<Film>>)
        requires
            old(self).wf(),
        ensures
            final(self).wf(),
            Self::same_config(*old(self), *final(self)),
            Self::non_film_caches_eq(*old(self), *final(self)),
            match r {
                Ok(o) => exists|l: Seq<FilmView>|
                    #[trigger] Self::list_films_ok(*old(self), *final(self), now, l) && (match o {
                        Some(x) => Some(x@),
                        None => None::<FilmView>,
                    }) == find_first(l, film_with_short_name(short_name@)),
                Err(_) => final(self).film_cache == old(self).film_cache
                    && final(self).film_list_cache == old(self).film_list_cache && (old(
                    self,
                ).film_list() matches Some(m) ==> m.lookup(now) is None),
            },
    {
        let items = match self.list_films(now) {
            Ok(v) => v,
            Err(e) => {
                return Err(e);
            },
        };
        proof {
            assert(Self::list_films_ok(*old(self), *self, now, films_view(items@)));
        }
        Ok(find_film_by_short_name(&items, short_name))
    }

    /// Get a specific film by its exact signage text. If several match,
    /// the first one in the fetched list is returned; if none does, the
    /// result is empty.
    pub fn get_film_by_signage_text(&mut self, now: u64, signage_text: &str) -> (r: ApiResult<Option<Film>>)
        requires
            old(self).wf(),
        ensures
            final(self).wf(),
            Self::same_config(*old(self), *final(self)),
            Self::non_film_caches_eq(*old(self), *final(self)),
            match r {
                Ok(o) => exists|l: Seq<FilmView>|
                    #[trigger] Self::list_films_ok(*old(self), *final(self), now, l) && (match o {
                        Some(x) => Some(x@),
                        None => None::<FilmView>,
                    }) == find_first(l, film_with_signage_text(signage_text@)),
                Err(_) => final(self).film_cache == old(self).film_cache
                    && final(self).film_list_cache == old(self).film_list_cache && (old(
                    self,
                ).film_list() matches Some(m) ==> m.lookup(now) is None),
            },
    {
        let items = match self.list_films(now) {
            Ok(v) => v,
            Err(e) => {
                return Err(e);
            },
        };
        proof {
            assert(Self::list_films_ok(*old(self), *self, now, films_view(items@)));
        }
        Ok(find_film_by_signage_text(&items, signage_text))
    }

    /// Get a list of all films whose genre equals `genre`, in the
    /// order of the fetched list.
    pub fn list_films_by_genre(&mut self, now: u64, genre: &str) -> (r: ApiResult<Vec<Film>>)
        requires
            old(self).wf(),
        ensures
            final(self).wf(),
            Self::same_config(*old(self), *final(self)),
            Self::non_film_caches_eq(*old(self), *final(self)),
            match r {
                Ok(v) => exists|l: Seq<FilmView>|
                    #[trigger] Self::list_films_ok(*old(self), *final(self), now, l) && films_view(
                        v@,
                    ) == l.filter(film_of_genre(genre@)),
                Err(_) => final(self).film_cache == old(self).film_cache
                    && final(self).film_list_cache == old(self).film_list_cache && (old(
                    self,
                ).film_list() matches Some(m) ==> m.lookup(now) is None),
            },
    {
        let items = match self.list_films(now) {
            Ok(v) => v,
            Err(e) => {
                return Err(e);
            },
        };
        proof {
            assert(Self::list_films_ok(*old(self), *self, now, films_view(items@)));
        }
        Ok(films_with_genre(&items, genre))
    }

    /// Get a list of all films whose distributor equals `distributor`, in the
    /// order of the fetched list.
    pub fn list_films_by_distributor(&mut self, now: u64, distributor: &str) -> (r: ApiResult<Vec<Film>>)
        requires
            old(self).wf(),
        ensures
            final(self).wf(),
            Self::same_config(*old(self), *final(self)),
            Self::non_film_caches_eq(*old(self), *final(self)),
            match r {
                Ok(v) => exists|l: Seq<FilmView>|
                    #[trigger] Self::list_films_ok(*old(self), *final(self), now, l) && films_view(
                        v@,
                    ) == l.filter(film_of_distributor(distributor@)),
                Err(_) => final(self).film_cache == old(self).film_cache
                    && final(self).film_list_cache == old(self).film_list_cache && (old(
                    self,
                ).film_list() matches Some(m) ==> m.lookup(now) is None),
            },
    {
        let items = match self.list_films(now) {
            Ok(v) => v,
            Err(e) => {
                return Err(e);
            },
        };
        proof {
            assert(Self::list_films_ok(*old(self), *self, now, films_view(items@)));
        }
        Ok(films_with_distributor(&items, distributor))
    }

    /// Get a specific film package by its exact title. If several match,
    /// the first one in the fetched list is returned; if none does, the
    /// result is empty.
    pub fn get_film_package_by_title(&mut self, now: u64, title: &str) -> (r: ApiResult<Option<FilmPackage>>)
        requires
            old(self).wf(),
        ensures
            final(self).wf(),
            Self::same_config(*old(self), *final(self)),
            Self::non_film_package_caches_eq(*old(self), *final(self)),
            match r {
                Ok(o) => exists|l: Seq<FilmPackageView>|
                    #[trigger] Self::list_film_packages_ok(*old(self), *final(self), now, l) && (match o {
                        Some(x) => Some(x@),
                        None => None::<FilmPackageView>,
                    }) == find_first(l, package_with_title(title@)),
                Err(_) => final(self).film_package_cache == old(self).film_package_cache
                    && final(self).film_package_list_cache == old(self).film_package_list_cache
                    && (old(self).film_package_list() matches Some(m) ==> m.lookup(now) is None),
            },
    {
        let items = match self.list_film_packages(now) {
            Ok(v) => v,
            Err(e) => {
                return Err(e);
            },
        };
        proof {
            assert(Self::list_film_packages_ok(*old(self), *self, now, film_packages_view(items@)));
        }
        Ok(find_film_package_by_title(&items, title))
    }

    /// Get a specific attribute by its exact short name. If several match,
    /// the first one in the fetched list is returned; if none does, the
    /// result is empty.
    pub fn get_attribute_by_short_name(&mut self, now: u64, short_name: &str) -> (r: ApiResult<Option<Attribute>>)
        requires
            old(self).wf(),
        ensures
            final(self).wf(),
            Self::same_config(*old(self), *final(self)),
            Self::non_attribute_caches_eq(*old(self), *final(self)),
            match r {
                Ok(o) => exists|l: Seq<AttributeView>|
                    #[trigger] Self::list_attributes_ok(*old(self), *final(self), now, l) && (match o {
                        Some(x) => Some(x@),
                        None => None::<AttributeView>,
                    }) == find_first(l, attribute_with_short_name(short_name@)),
                Err(_) => final(self).attribute_cache == old(self).attribute_cache
                    && final(self).attribute_list_cache == old(self).attribute_list_cache && (old(
                    self,
                ).attribute_list() matches Some(m) ==> m.lookup(now) is None),
            },
    {
        let items = match self.list_attributes(now) {
            Ok(v) => v,
            Err(e) => {
                return Err(e);
            },
        };
        proof {
            assert(Self::list_attributes_ok(*old(self), *self, now, attributes_view(items@)));
        }
        Ok(find_attribute_by_short_name(&items, short_name))
    }

    /// Get a specific attribute by its exact description. If several match,
    /// the first one in the fetched list is returned; if none does, the
    /// result is empty.
    pub fn get_attribute_by_description(&mut self, now: u64, description: &str) -> (r: ApiResult<Option<Attribute>>)
        requires
            old(self).wf(),
        ensures
            final(self).wf(),
            Self::same_config(*old(self), *final(self)),
            Self::non_attribute_caches_eq(*old(self), *final(self)),
            match r {
                Ok(o) => exists|l: Seq<AttributeView>|
                    #[trigger] Self::list_attributes_ok(*old(self), *final(self), now, l) && (match o {
                        Some(x) => Some(x@),
                        None => None::<AttributeView>,
                    }) == find_first(l, attribute_with_description(description@)),
                Err(_) => final(self).attribute_cache == old(self).attribute_cache
                    && final(self).attribute_list_cache == old(self).attribute_list_cache && (old(
                    self,
                ).attribute_list() matches Some(m) ==> m.lookup(now) is None),
            },
    {
        let items = match self.list_attributes(now) {
            Ok(v) => v,
            Err(e) => {
                return Err(e);
            },
        };
        proof {
            assert(Self::list_attributes_ok(*old(self), *self, now, attributes_view(items@)));
        }
        Ok(find_attribute_by_description(&items, description))
    }

    /// Get a list of all film packages containing the given film, in the
    /// order of the fetched list.
    pub fn list_film_packages_by_film_id(&mut self, now: u64, film_id: &FilmId) -> (r: ApiResult<
        Vec<FilmPackage>,
    >)
        requires
            old(self).wf(),
        ensures
            final(self).wf(),
            Self::same_config(*old(self), *final(self)),
            Self::non_film_package_caches_eq(*old(self), *final(self)),
            match r {
                Ok(v) => exists|l: Seq<FilmPackageView>|
                    #[trigger] Self::list_film_packages_ok(*old(self), *final(self), now, l)
                        && film_packages_view(v@) == l.filter(containing_film(film_id@)),
                Err(_) => final(self).film_package_cache == old(self).film_package_cache
                    && final(self).film_package_list_cache == old(self).film_package_list_cache
                    && (old(self).film_package_list() matches Some(m) ==> m.lookup(now) is None),
            },
    {
        let items = match self.list_film_packages(now) {
            Ok(v) => v,
            Err(e) => {
                return Err(e);
            },
        };
        proof {
            assert(Self::list_film_packages_ok(*old(self), *self, now, film_packages_view(items@)));
        }
        Ok(packages_containing_film(&items, film_id))
    }

    /// Get a specific screen by its exact screen number. If several
    /// match, the first one in the fetched list is returned; if none
    /// does, the result is empty.
    pub fn get_screen_by_number(&mut self, now: u64, screen_number: String) -> (r: ApiResult<
        Option<Screen>,
    >)
        requires
            old(self).wf(),
        ensures
            final(self).wf(),
            Self::same_config(*old(self), *final(self)),
            Self::non_screen_caches_eq(*old(self), *final(self)),
            match r {
                Ok(o) => exists|l: Seq<ScreenView>|
                    #[trigger] Self::list_screens_ok(*old(self), *final(self), now, l) && (match o {
                        Some(x) => Some(x@),
                        None => None::<ScreenView>,
                    }) == find_first(l, screen_with_number(screen_number@)),
                Err(_) => final(self).screen_cache == old(self).screen_cache
                    && final(self).screen_list_cache == old(self).screen_list_cache && (old(
                    self,
                ).screen_list() matches Some(m) ==> m.lookup(now) is None),
            },
    {
        let items = match self.list_screens(now) {
            Ok(v) => v,
            Err(e) => {
                return Err(e);
            },
        };
        proof {
            assert(Self::list_screens_ok(*old(self), *self, now, screens_view(items@)));
        }
        Ok(find_screen_by_number(&items, screen_number.as_str()))
    }
}

} // verus!

verus! {

/// Element `k` of `films` is a possible outcome of one
/// "get film by ID" call for `ids[k]`, the calls made in order from
/// client state `c0` and ending in state `c1`.
pub open spec fn films_resolved<T: Transport>(
    c0: Client<T>,
    c1: Client<T>,
    ids: Seq<Seq<char>>,
    now: u64,
    films: Seq<FilmView>,
) -> bool
    decreases ids.len(),
{
    if ids.len() == 0 {
        films.len() == 0 && c1 == c0
    } else {
        films.len() > 0 && exists|x: Film, mid: Client<T>|
            #![all_triggers]
            Client::<T>::get_film_post(c0, mid, now, ids[0], Ok(x)) && films[0] == x@
                && films_resolved(mid, c1, ids.drop_first(), now, films.drop_first())
    }
}

/// Extending a resolution chain by one more successful call.
pub proof fn lemma_films_resolved_snoc<T: Transport>(
    c0: Client<T>,
    c1: Client<T>,
    c2: Client<T>,
    ids: Seq<Seq<char>>,
    id: Seq<char>,
    now: u64,
    films: Seq<FilmView>,
    x: Film,
)
    requires
        films_resolved(c0, c1, ids, now, films),
        Client::<T>::get_film_post(c1, c2, now, id, Ok(x)),
    ensures
        films_resolved(c0, c2, ids.push(id), now, films.push(x@)),
    decreases ids.len(),
{
    if ids.len() == 0 {
        assert(ids.push(id)[0] == id);
        assert(films.push(x@)[0] == x@);
        assert(ids.push(id).drop_first() =~= Seq::<Seq<char>>::empty());
        assert(films.push(x@).drop_first() =~= Seq::<FilmView>::empty());
        assert(films_resolved(
            c2,
            c2,
            ids.push(id).drop_first(),
            now,
            films.push(x@).drop_first(),
        ));
        assert(Client::<T>::get_film_post(c0, c2, now, id, Ok(x)));
    } else {
        let (x0, mid) = choose|x0: Film, mid: Client<T>|
            #![all_triggers]
            Client::<T>::get_film_post(c0, mid, now, ids[0], Ok(x0)) && films[0] == x0@
                && films_resolved(mid, c1, ids.drop_first(), now, films.drop_first());
        lemma_films_resolved_snoc(mid, c1, c2, ids.drop_first(), id, now, films.drop_first(), x);
        assert(ids.push(id)[0] == ids[0]);
        assert(films.push(x@)[0] == films[0]);
        assert(ids.push(id).drop_first() =~= ids.drop_first().push(id));
        assert(films.push(x@).drop_first() =~= films.drop_first().push(x@));
    }
}

/// Element `k` of `screens` is a possible outcome of one
/// "get screen by ID" call for `ids[k]`, the calls made in order from
/// client state `c0` and ending in state `c1`.
pub open spec fn screens_resolved<T: Transport>(
    c0: Client<T>,
    c1: Client<T>,
    ids: Seq<u32>,
    now: u64,
    screens: Seq<ScreenView>,
) -> bool
    decreases ids.len(),
{
    if ids.len() == 0 {
        screens.len() == 0 && c1 == c0
    } else {
        screens.len() > 0 && exists|x: Screen, mid: Client<T>|
            #![all_triggers]
            Client::<T>::get_screen_post(c0, mid, now, ids[0], Ok(x)) && screens[0] == x@
                && screens_resolved(mid, c1, ids.drop_first(), now, screens.drop_first())
    }
}

/// Extending a resolution chain by one more successful call.
pub proof fn lemma_screens_resolved_snoc<T: Transport>(
    c0: Client<T>,
    c1: Client<T>,
    c2: Client<T>,
    ids: Seq<u32>,
    id: u32,
    now: u64,
    screens: Seq<ScreenView>,
    x: Screen,
)
    requires
        screens_resolved(c0, c1, ids, now, screens),
        Client::<T>::get_screen_post(c1, c2, now, id, Ok(x)),
    ensures
        screens_resolved(c0, c2, ids.push(id), now, screens.push(x@)),
    decreases ids.len(),
{
    if ids.len() == 0 {
        assert(ids.push(id)[0] == id);
        assert(screens.push(x@)[0] == x@);
        assert(ids.push(id).drop_first() =~= Seq::<u32>::empty());
        assert(screens.push(x@).drop_first() =~= Seq::<ScreenView>::empty());
        assert(screens_resolved(
            c2,
            c2,
            ids.push(id).drop_first(),
            now,
            screens.push(x@).drop_first(),
        ));
        assert(Client::<T>::get_screen_post(c0, c2, now, id, Ok(x)));
    } else {
        let (x0, mid) = choose|x0: Screen, mid: Client<T>|
            #![all_triggers]
            Client::<T>::get_screen_post(c0, mid, now, ids[0], Ok(x0)) && screens[0] == x0@
                && screens_resolved(mid, c1, ids.drop_first(), now, screens.drop_first());
        lemma_screens_resolved_snoc(mid, c1, c2, ids.drop_first(), id, now, screens.drop_first(), x);
        assert(ids.push(id)[0] == ids[0]);
        assert(screens.push(x@)[0] == screens[0]);
        assert(ids.push(id).drop_first() =~= ids.drop_first().push(id));
        assert(screens.push(x@).drop_first() =~= screens.drop_first().push(x@));
    }
}

/// What resolving the films referenced by `sessions` leaves behind:
/// only the film item cache may change; on success the result holds one
/// film per distinct referenced ID, element `k` the outcome of the
/// fetch-or-cache call for the `k`-th distinct ID in first-seen order;
/// on failure the first failing call's error is reported after a chain
/// of successful ones. When every needed ID is live in the item cache,
/// the call cannot fail, every element is the cached value, and the
/// whole client — the transport included — is left untouched.
pub open spec fn films_of_sessions_post<T: Transport>(
    c0: Client<T>,
    c1: Client<T>,
    sessions: Seq<SessionView>,
    now: u64,
    r: ApiResult<Vec<Film>>,
) -> bool {
    let ids = dedup_first(session_film_ids(sessions));
    &&& c1.wf()
    &&& Client::<T>::same_config(c0, c1)
    &&& Client::<T>::non_film_caches_eq(c0, c1)
    &&& c1.film_list_cache == c0.film_list_cache
    &&& match r {
        Ok(v) => v@.len() == ids.len() && films_resolved(c0, c1, ids, now, films_view(v@)),
        Err(e) => exists|k: int, mid: Client<T>, part: Seq<FilmView>|
            #![all_triggers]
            0 <= k < ids.len() && films_resolved(c0, mid, ids.take(k), now, part)
                && Client::<T>::get_film_post(mid, c1, now, ids[k], Err(e)),
    }
    &&& match c0.film_items() {
        Some(m) => (forall|k: int|
            0 <= k < ids.len() ==> (#[trigger] m.lookup(ids[k], now)) is Some) ==> (c1 == c0
            && match r {
            Ok(v) => films_view(v@) == Seq::new(ids.len(), |k: int| m.lookup(ids[k], now)->0),
            Err(_) => false,
        }),
        None => true,
    }
}

/// What resolving the screens referenced by `sessions` leaves behind:
/// only the screen item cache may change; on success the result holds one
/// screen per distinct referenced ID, element `k` the outcome of the
/// fetch-or-cache call for the `k`-th distinct ID in first-seen order;
/// on failure the first failing call's error is reported after a chain
/// of successful ones. When every needed ID is live in the item cache,
/// the call cannot fail, every element is the cached value, and the
/// whole client — the transport included — is left untouched.
pub open spec fn screens_of_sessions_post<T: Transport>(
    c0: Client<T>,
    c1: Client<T>,
    sessions: Seq<SessionView>,
    now: u64,
    r: ApiResult<Vec<Screen>>,
) -> bool {
    let ids = dedup_first(session_screen_ids(sessions));
    &&& c1.wf()
    &&& Client::<T>::same_config(c0, c1)
    &&& Client::<T>::non_screen_caches_eq(c0, c1)
    &&& c1.screen_list_cache == c0.screen_list_cache
    &&& match r {
        Ok(v) => v@.len() == ids.len() && screens_resolved(c0, c1, ids, now, screens_view(v@)),
        Err(e) => exists|k: int, mid: Client<T>, part: Seq<ScreenView>|
            #![all_triggers]
            0 <= k < ids.len() && screens_resolved(c0, mid, ids.take(k), now, part)
                && Client::<T>::get_screen_post(mid, c1, now, ids[k], Err(e)),
    }
    &&& match c0.screen_items() {
        Some(m) => (forall|k: int|
            0 <= k < ids.len() ==> (#[trigger] m.lookup(ids[k], now)) is Some) ==> (c1 == c0
            && match r {
            Ok(v) => screens_view(v@) == Seq::new(ids.len(), |k: int| m.lookup(ids[k], now)->0),
            Err(_) => false,
        }),
        None => true,
    }
}

impl SessionList {
    /// Resolve the films represented in this [`SessionList`]: one
    /// fetch-or-cache call per distinct film ID, in order of first
    /// appearance. The first failing call aborts the loop and its error
    /// is returned; calls already made stay cached.
    pub fn films<T: Transport>(&self, client: &mut Client<T>, now: u64) -> (r: ApiResult<
        Vec<Film>,
    >)
        requires
            old(client).wf(),
        ensures
            films_of_sessions_post(*old(client), *final(client), self@, now, r),
    {
        let ghost c0 = *old(client);
        let ids = self.distinct_film_ids();
        let ghost idsv = film_ids_view(ids@);
        let mut out: Vec<Film> = Vec::new();
        let mut i: usize = 0;
        while i < ids.len()
            invariant
                c0 == *old(client),
                i <= ids.len(),
                out@.len() == i,
                idsv == film_ids_view(ids@),
                idsv == dedup_first(session_film_ids(self@)),
                client.wf(),
                Client::<T>::same_config(c0, *client),
                Client::<T>::non_film_caches_eq(c0, *client),
                client.film_list_cache == c0.film_list_cache,
                films_resolved(c0, *client, idsv.take(i as int), now, films_view(out@)),
                match c0.film_items() {
                    Some(m) => (forall|k: int|
                        0 <= k < idsv.len() ==> (#[trigger] m.lookup(idsv[k], now)) is Some) ==> (
                    *client == c0 && (forall|k: int|
                        0 <= k < i ==> films_view(out@)[k] == m.lookup(idsv[k], now)->0)),
                    None => true,
                },
            decreases ids.len() - i,
        {
            let ghost pre = *client;
            let ghost out0 = films_view(out@);
            proof {
                assert(idsv[i as int] == ids@[i as int]@);
            }
            match client.get_film(now, &ids[i]) {
                Ok(x) => {
                    proof {
                        lemma_films_resolved_snoc(
                            c0,
                            pre,
                            *client,
                            idsv.take(i as int),
                            idsv[i as int],
                            now,
                            out0,
                            x,
                        );
                        assert(idsv.take(i + 1) =~= idsv.take(i as int).push(idsv[i as int]));
                        match c0.film_items() {
                            Some(m) => {
                                if forall|k: int|
                                    0 <= k < idsv.len() ==> (#[trigger] m.lookup(idsv[k], now))
                                        is Some {
                                    assert(m.lookup(idsv[i as int], now) is Some);
                                    assert(pre == c0);
                                }
                            },
                            None => {},
                        }
                    }
                    out.push(x);
                    proof {
                        assert(films_view(out@) =~= out0.push(out@[i as int]@));
                    }
                },
                Err(e) => {
                    proof {
                        assert(films_resolved(c0, pre, idsv.take(i as int), now, out0));
                        assert(Client::<T>::get_film_post(pre, *client, now, idsv[i as int], Err(e)));
                        assert(exists|k: int, mid: Client<T>, part: Seq<FilmView>|
                            #![all_triggers]
                            0 <= k < idsv.len() && films_resolved(c0, mid, idsv.take(k), now, part)
                                && Client::<T>::get_film_post(mid, *client, now, idsv[k], Err(e)));
                        match c0.film_items() {
                            Some(m) => {
                                if forall|k: int|
                                    0 <= k < idsv.len() ==> (#[trigger] m.lookup(idsv[k], now))
                                        is Some {
                                    assert(m.lookup(idsv[i as int], now) is Some);
                                    assert(pre == c0);
                                    assert(false);
                                }
                            },
                            None => {},
                        }
                    }
                    return Err(e);
                },
            }
            i = i + 1;
        }
        proof {
            assert(idsv.take(ids.len() as int) =~= idsv);
            assert(idsv.len() == ids@.len());
            match c0.film_items() {
                Some(m) => {
                    if forall|k: int|
                        0 <= k < idsv.len() ==> (#[trigger] m.lookup(idsv[k], now)) is Some {
                        assert(films_view(out@) =~= Seq::new(
                            idsv.len(),
                            |k: int| m.lookup(idsv[k], now)->0,
                        ));
                    }
                },
                None => {},
            }
        }
        Ok(out)
    }

    /// Resolve the screens represented in this [`SessionList`]: one
    /// fetch-or-cache call per distinct screen ID, in order of first
    /// appearance. The first failing call aborts the loop and its error
    /// is returned; calls already made stay cached.
    pub fn screens<T: Transport>(&self, client: &mut Client<T>, now: u64) -> (r: ApiResult<
        Vec<Screen>,
    >)
        requires
            old(client).wf(),
        ensures
            screens_of_sessions_post(*old(client), *final(client), self@, now, r),
    {
        let ghost c0 = *old(client);
        let ids = self.distinct_screen_ids();
        let ghost idsv = screen_ids_view(ids@);
        let mut out: Vec<Screen> = Vec::new();
        let mut i: usize = 0;
        while i < ids.len()
            invariant
                c0 == *old(client),
                i <= ids.len(),
                out@.len() == i,
                idsv == screen_ids_view(ids@),
                idsv == dedup_first(session_screen_ids(self@)),
                client.wf(),
                Client::<T>::same_config(c0, *client),
                Client::<T>::non_screen_caches_eq(c0, *client),
                client.screen_list_cache == c0.screen_list_cache,
                screens_resolved(c0, *client, idsv.take(i as int), now, screens_view(out@)),
                match c0.screen_items() {
                    Some(m) => (forall|k: int|
                        0 <= k < idsv.len() ==> (#[trigger] m.lookup(idsv[k], now)) is Some) ==> (
                    *client == c0 && (forall|k: int|
                        0 <= k < i ==> screens_view(out@)[k] == m.lookup(idsv[k], now)->0)),
                    None => true,
                },
            decreases ids.len() - i,
        {
            let ghost pre = *client;
            let ghost out0 = screens_view(out@);
            proof {
                assert(idsv[i as int] == ids@[i as int]@);
            }
            match client.get_screen(now, ids[i]) {
                Ok(x) => {
                    proof {
                        lemma_screens_resolved_snoc(
                            c0,
                            pre,
                            *client,
                            idsv.take(i as int),
                            idsv[i as int],
                            now,
                            out0,
                            x,
                        );
                        assert(idsv.take(i + 1) =~= idsv.take(i as int).push(idsv[i as int]));
                        match c0.screen_items() {
                            Some(m) => {
                                if forall|k: int|
                                    0 <= k < idsv.len() ==> (#[trigger] m.lookup(idsv[k], now))
                                        is Some {
                                    assert(m.lookup(idsv[i as int], now) is Some);
                                    assert(pre == c0);
                                }
                            },
                            None => {},
                        }
                    }
                    out.push(x);
                    proof {
                        assert(screens_view(out@) =~= out0.push(out@[i as int]@));
                    }
                },
                Err(e) => {
                    proof {
                        assert(screens_resolved(c0, pre, idsv.take(i as int), now, out0));
                        assert(Client::<T>::get_screen_post(pre, *client, now, idsv[i as int], Err(e)));
                        assert(exists|k: int, mid: Client<T>, part: Seq<ScreenView>|
                            #![all_triggers]
                            0 <= k < idsv.len() && screens_resolved(c0, mid, idsv.take(k), now, part)
                                && Client::<T>::get_screen_post(mid, *client, now, idsv[k], Err(e)));
                        match c0.screen_items() {
                            Some(m) => {
                                if forall|k: int|
                                    0 <= k < idsv.len() ==> (#[trigger] m.lookup(idsv[k], now))
                                        is Some {
                                    assert(m.lookup(idsv[i as int], now) is Some);
                                    assert(pre == c0);
                                    assert(false);
                                }
                            },
                            None => {},
                        }
                    }
                    return Err(e);
                },
            }
            i = i + 1;
        }
        proof {
            assert(idsv.take(ids.len() as int) =~= idsv);
            assert(idsv.len() == ids@.len());
            match c0.screen_items() {
                Some(m) => {
                    if forall|k: int|
                        0 <= k < idsv.len() ==> (#[trigger] m.lookup(idsv[k], now)) is Some {
                        assert(screens_view(out@) =~= Seq::new(
                            idsv.len(),
                            |k: int| m.lookup(idsv[k], now)->0,
                        ));
                    }
                },
                None => {},
            }
        }
        Ok(out)
    }

}

impl<T: Transport> Client<T> {
    /// Get only the films that have sessions whose pre-show start time
    /// lies in the given inclusive time range: the session list is
    /// fetched (or served from its cache), filtered client-side, and the
    /// distinct referenced films are resolved one by one.
    pub fn list_films_with_sessions_in_time_range(
        &mut self,
        now: u64,
        start: u64,
        end: u64,
    ) -> (r: ApiResult<Vec<Film>>)
        requires
            old(self).wf(),
        ensures
            final(self).wf(),
            Self::same_config(*old(self), *final(self)),
            final(self).film_package_cache == old(self).film_package_cache,
            final(self).film_package_list_cache == old(self).film_package_list_cache,
            final(self).screen_cache == old(self).screen_cache,
            final(self).screen_list_cache == old(self).screen_list_cache,
            final(self).attribute_cache == old(self).attribute_cache,
            final(self).attribute_list_cache == old(self).attribute_list_cache,
            final(self).site_cache == old(self).site_cache,
            final(self).film_list_cache == old(self).film_list_cache,
            final(self).web_session_list_cache == old(self).web_session_list_cache,
            match r {
                Ok(v) => exists|mid: Self, sl: Seq<SessionView>|
                    #[trigger] Self::list_sessions_ok(*old(self), mid, now, sl)
                        && films_of_sessions_post(
                        mid,
                        *final(self),
                        sl.filter(in_time_range(start, end)),
                        now,
                        Ok(v),
                    ),
                Err(e) => Self::list_sessions_post(*old(self), *final(self), now, Err(e)) || (
                exists|mid: Self, sl: Seq<SessionView>|
                    #[trigger] Self::list_sessions_ok(*old(self), mid, now, sl)
                        && films_of_sessions_post(
                        mid,
                        *final(self),
                        sl.filter(in_time_range(start, end)),
                        now,
                        Err(e),
                    )),
            },
    {
        let sessions = match self.list_sessions(now) {
            Ok(l) => l,
            Err(e) => {
                return Err(e);
            },
        };
        let ghost mid = *self;
        proof {
            assert(Self::list_sessions_ok(*old(self), mid, now, sessions@));
        }
        let filtered = sessions.filter_by_time_range(start, end);
        filtered.films(self, now)
    }

    /// Get only the films that have sessions whose pre-show start time
    /// falls on a day in the given inclusive day range (the first
    /// instant of `start_day` through the last instant of `end_day`;
    /// days count from the Unix epoch).
    pub fn list_films_with_sessions_in_date_range(
        &mut self,
        now: u64,
        start_day: u32,
        end_day: u32,
    ) -> (r: ApiResult<Vec<Film>>)
        requires
            old(self).wf(),
        ensures
            final(self).wf(),
            Self::same_config(*old(self), *final(self)),
            final(self).film_package_cache == old(self).film_package_cache,
            final(self).film_package_list_cache == old(self).film_package_list_cache,
            final(self).screen_cache == old(self).screen_cache,
            final(self).screen_list_cache == old(self).screen_list_cache,
            final(self).attribute_cache == old(self).attribute_cache,
            final(self).attribute_list_cache == old(self).attribute_list_cache,
            final(self).site_cache == old(self).site_cache,
            final(self).film_list_cache == old(self).film_list_cache,
            final(self).web_session_list_cache == old(self).web_session_list_cache,
            match r {
                Ok(v) => exists|mid: Self, sl: Seq<SessionView>|
                    #[trigger] Self::list_sessions_ok(*old(self), mid, now, sl)
                        && films_of_sessions_post(
                        mid,
                        *final(self),
                        sl.filter(
                            in_time_range(
                                (start_day * 86400) as u64,
                                ((end_day + 1) * 86400 - 1) as u64,
                            ),
                        ),
                        now,
                        Ok(v),
                    ),
                Err(e) => Self::list_sessions_post(*old(self), *final(self), now, Err(e)) || (
                exists|mid: Self, sl: Seq<SessionView>|
                    #[trigger] Self::list_sessions_ok(*old(self), mid, now, sl)
                        && films_of_sessions_post(
                        mid,
                        *final(self),
                        sl.filter(
                            in_time_range(
                                (start_day * 86400) as u64,
                                ((end_day + 1) * 86400 - 1) as u64,
                            ),
                        ),
                        now,
                        Err(e),
                    )),
            },
    {
        let sessions = match self.list_sessions(now) {
            Ok(l) => l,
            Err(e) => {
                return Err(e);
            },
        };
        let ghost mid = *self;
        proof {
            assert(Self::list_sessions_ok(*old(self), mid, now, sessions@));
        }
        let filtered = sessions.filter_by_date_range(start_day, end_day);
        filtered.films(self, now)
    }
}

} // verus!

verus! {

impl SessionId {
    /// Fetch the full session associated with this [`SessionId`].
    pub fn fetch<T: Transport>(self, client: &mut Client<T>, now: u64) -> (r: ApiResult<Session>)
        requires
            old(client).wf(),
        ensures
            Client::<T>::get_session_post(*old(client), *final(client), now, self@, r),
    {
        client.get_session(now, self)
    }
}

impl FilmId {
    /// Fetch the full film associated with this [`FilmId`].
    pub fn fetch<T: Transport>(&self, client: &mut Client<T>, now: u64) -> (r: ApiResult<Film>)
        requires
            old(client).wf(),
        ensures
            Client::<T>::get_film_post(*old(client), *final(client), now, self@, r),
    {
        client.get_film(now, self)
    }
}

impl FilmPackageId {
    /// Fetch the full film package associated with this
    /// [`FilmPackageId`].
    pub fn fetch<T: Transport>(self, client: &mut Client<T>, now: u64) -> (r: ApiResult<
        FilmPackage,
    >)
        requires
            old(client).wf(),
        ensures
            Client::<T>::get_film_package_post(*old(client), *final(client), now, self@, r),
    {
        client.get_film_package(now, self)
    }
}

impl ScreenId {
    /// Fetch the full screen associated with this [`ScreenId`].
    pub fn fetch<T: Transport>(self, client: &mut Client<T>, now: u64) -> (r: ApiResult<Screen>)
        requires
            old(client).wf(),
        ensures
            Client::<T>::get_screen_post(*old(client), *final(client), now, self@, r),
    {
        client.get_screen(now, self)
    }
}

impl AttributeId {
    /// Fetch the full attribute associated with this [`AttributeId`].
    pub fn fetch<T: Transport>(&self, client: &mut Client<T>, now: u64) -> (r: ApiResult<
        Attribute,
    >)
        requires
            old(client).wf(),
        ensures
            Client::<T>::get_attribute_post(*old(client), *final(client), now, self@, r),
    {
        client.get_attribute(now, self)
    }
}

impl PackageFilm {
    /// Get the full raw film associated with this [`PackageFilm`].
    pub fn film<T: Transport>(&self, client: &mut Client<T>, now: u64) -> (r: ApiResult<Film>)
        requires
            old(client).wf(),
        ensures
            Client::<T>::get_film_post(*old(client), *final(client), now, self.film_id@, r),
    {
        client.get_film(now, &self.film_id)
    }
}

/// Element `k` of `attrs` is a possible outcome of one
/// "get attribute by ID" call for `ids[k]`, the calls made in order from
/// client state `c0` and ending in state `c1`.
pub open spec fn attributes_resolved<T: Transport>(
    c0: Client<T>,
    c1: Client<T>,
    ids: Seq<Seq<char>>,
    now: u64,
    attrs: Seq<AttributeView>,
) -> bool
    decreases ids.len(),
{
    if ids.len() == 0 {
        attrs.len() == 0 && c1 == c0
    } else {
        attrs.len() > 0 && exists|x: Attribute, mid: Client<T>|
            #![all_triggers]
            Client::<T>::get_attribute_post(c0, mid, now, ids[0], Ok(x)) && attrs[0] == x@
                && attributes_resolved(mid, c1, ids.drop_first(), now, attrs.drop_first())
    }
}

/// Extending a resolution chain by one more successful call.
pub proof fn lemma_attributes_resolved_snoc<T: Transport>(
    c0: Client<T>,
    c1: Client<T>,
    c2: Client<T>,
    ids: Seq<Seq<char>>,
    id: Seq<char>,
    now: u64,
    attrs: Seq<AttributeView>,
    x: Attribute,
)
    requires
        attributes_resolved(c0, c1, ids, now, attrs),
        Client::<T>::get_attribute_post(c1, c2, now, id, Ok(x)),
    ensures
        attributes_resolved(c0, c2, ids.push(id), now, attrs.push(x@)),
    decreases ids.len(),
{
    if ids.len() == 0 {
        assert(ids.push(id)[0] == id);
        assert(attrs.push(x@)[0] == x@);
        assert(ids.push(id).drop_first() =~= Seq::<Seq<char>>::empty());
        assert(attrs.push(x@).drop_first() =~= Seq::<AttributeView>::empty());
        assert(attributes_resolved(
            c2,
            c2,
            ids.push(id).drop_first(),
            now,
            attrs.push(x@).drop_first(),
        ));
        assert(Client::<T>::get_attribute_post(c0, c2, now, id, Ok(x)));
    } else {
        let (x0, mid) = choose|x0: Attribute, mid: Client<T>|
            #![all_triggers]
            Client::<T>::get_attribute_post(c0, mid, now, ids[0], Ok(x0)) && attrs[0] == x0@
                && attributes_resolved(mid, c1, ids.drop_first(), now, attrs.drop_first());
        lemma_attributes_resolved_snoc(mid, c1, c2, ids.drop_first(), id, now, attrs.drop_first(), x);
        assert(ids.push(id)[0] == ids[0]);
        assert(attrs.push(x@)[0] == attrs[0]);
        assert(ids.push(id).drop_first() =~= ids.drop_first().push(id));
        assert(attrs.push(x@).drop_first() =~= attrs.drop_first().push(x@));
    }
}

impl Session {
    /// Get the film associated with this session.
    pub fn film<T: Transport>(&self, client: &mut Client<T>, now: u64) -> (r: ApiResult<Film>)
        requires
            old(client).wf(),
        ensures
            Client::<T>::get_film_post(*old(client), *final(client), now, self.film_id@, r),
    {
        client.get_film(now, &self.film_id)
    }

    /// Get the film package associated with this session, if any. A
    /// session without a package resolves to nothing without touching
    /// the client.
    pub fn film_package<T: Transport>(&self, client: &mut Client<T>, now: u64) -> (r: ApiResult<
        Option<FilmPackage>,
    >)
        requires
            old(client).wf(),
        ensures
            self.film_package_id is None ==> *final(client) == *old(client) && r == Ok::<
                Option<FilmPackage>,
                LibVeeziError,
            >(None),
            self.film_package_id matches Some(id) ==> match r {
                Ok(Some(p)) => Client::<T>::get_film_package_post(
                    *old(client),
                    *final(client),
                    now,
                    id@,
                    Ok(p),
                ),
                Ok(None) => false,
                Err(e) => Client::<T>::get_film_package_post(
                    *old(client),
                    *final(client),
                    now,
                    id@,
                    Err(e),
                ),
            },
    {
        match &self.film_package_id {
            Some(id) => {
                match client.get_film_package(now, *id) {
                    Ok(p) => Ok(Some(p)),
                    Err(e) => Err(e),
                }
            },
            None => Ok(None),
        }
    }

    /// Get the screen associated with this session.
    pub fn screen<T: Transport>(&self, client: &mut Client<T>, now: u64) -> (r: ApiResult<Screen>)
        requires
            old(client).wf(),
        ensures
            Client::<T>::get_screen_post(*old(client), *final(client), now, self.screen_id@, r),
    {
        client.get_screen(now, self.screen_id)
    }

    /// Get the attributes associated with this session: one
    /// fetch-or-cache call per attribute ID, in order (duplicate IDs are
    /// resolved again). The first failing call aborts the loop and its
    /// error is returned; calls already made stay cached.
    pub fn attributes<T: Transport>(&self, client: &mut Client<T>, now: u64) -> (r: ApiResult<
        Vec<Attribute>,
    >)
        requires
            old(client).wf(),
        ensures
            final(client).wf(),
            Client::<T>::same_config(*old(client), *final(client)),
            Client::<T>::non_attribute_caches_eq(*old(client), *final(client)),
            final(client).attribute_list_cache == old(client).attribute_list_cache,
            match r {
                Ok(v) => v@.len() == self.attributes@.len() && attributes_resolved(
                    *old(client),
                    *final(client),
                    attribute_ids_view(self.attributes@),
                    now,
                    attributes_view(v@),
                ),
                Err(e) => exists|k: int, mid: Client<T>, part: Seq<AttributeView>|
                    #![all_triggers]
                    0 <= k < self.attributes@.len() && attributes_resolved(
                        *old(client),
                        mid,
                        attribute_ids_view(self.attributes@).take(k),
                        now,
                        part,
                    ) && Client::<T>::get_attribute_post(
                        mid,
                        *final(client),
                        now,
                        attribute_ids_view(self.attributes@)[k],
                        Err(e),
                    ),
            },
            match old(client).attribute_items() {
                Some(m) => (forall|k: int|
                    0 <= k < self.attributes@.len() ==> (#[trigger] m.lookup(
                        attribute_ids_view(self.attributes@)[k],
                        now,
                    )) is Some) ==> (*final(client) == *old(client) && match r {
                    Ok(v) => attributes_view(v@) == Seq::new(
                        self.attributes@.len(),
                        |k: int| m.lookup(attribute_ids_view(self.attributes@)[k], now)->0,
                    ),
                    Err(_) => false,
                }),
                None => true,
            },
    {
        let ghost c0 = *old(client);
        let ghost idsv = attribute_ids_view(self.attributes@);
        let mut attrs: Vec<Attribute> = Vec::new();
        let mut i: usize = 0;
        while i < self.attributes.len()
            invariant
                c0 == *old(client),
                i <= self.attributes.len(),
                attrs@.len() == i,
                idsv == attribute_ids_view(self.attributes@),
                client.wf(),
                Client::<T>::same_config(c0, *client),
                Client::<T>::non_attribute_caches_eq(c0, *client),
                client.attribute_list_cache == c0.attribute_list_cache,
                attributes_resolved(c0, *client, idsv.take(i as int), now, attributes_view(attrs@)),
                match c0.attribute_items() {
                    Some(m) => (forall|k: int|
                        0 <= k < idsv.len() ==> (#[trigger] m.lookup(idsv[k], now)) is Some) ==> (
                    *client == c0 && (forall|k: int|
                        0 <= k < i ==> attributes_view(attrs@)[k] == m.lookup(idsv[k], now)->0)),
                    None => true,
                },
            decreases self.attributes.len() - i,
        {
            let ghost pre = *client;
            let ghost out0 = attributes_view(attrs@);
            proof {
                assert(idsv[i as int] == self.attributes@[i as int]@);
            }
            match client.get_attribute(now, &self.attributes[i]) {
                Ok(x) => {
                    proof {
                        lemma_attributes_resolved_snoc(
                            c0,
                            pre,
                            *client,
                            idsv.take(i as int),
                            idsv[i as int],
                            now,
                            out0,
                            x,
                        );
                        assert(idsv.take(i + 1) =~= idsv.take(i as int).push(idsv[i as int]));
                        match c0.attribute_items() {
                            Some(m) => {
                                if forall|k: int|
                                    0 <= k < idsv.len() ==> (#[trigger] m.lookup(idsv[k], now))
                                        is Some {
                                    assert(m.lookup(idsv[i as int], now) is Some);
                                    assert(pre == c0);
                                }
                            },
                            None => {},
                        }
                    }
                    attrs.push(x);
                    proof {
                        assert(attributes_view(attrs@) =~= out0.push(attrs@[i as int]@));
                    }
                },
                Err(e) => {
                    proof {
                        assert(attributes_resolved(c0, pre, idsv.take(i as int), now, out0));
                        assert(Client::<T>::get_attribute_post(
                            pre,
                            *client,
                            now,
                            idsv[i as int],
                            Err(e),
                        ));
                        assert(exists|k: int, mid: Client<T>, part: Seq<AttributeView>|
                            #![all_triggers]
                            0 <= k < idsv.len() && attributes_resolved(
                                c0,
                                mid,
                                idsv.take(k),
                                now,
                                part,
                            ) && Client::<T>::get_attribute_post(
                                mid,
                                *client,
                                now,
                                idsv[k],
                                Err(e),
                            ));
                        match c0.attribute_items() {
                            Some(m) => {
                                if forall|k: int|
                                    0 <= k < idsv.len() ==> (#[trigger] m.lookup(idsv[k], now))
                                        is Some {
                                    assert(m.lookup(idsv[i as int], now) is Some);
                                    assert(pre == c0);
                                    assert(false);
                                }
                            },
                            None => {},
                        }
                    }
                    return Err(e);
                },
            }
            i = i + 1;
        }
        proof {
            assert(idsv.take(self.attributes.len() as int) =~= idsv);
            match c0.attribute_items() {
                Some(m) => {
                    if forall|k: int|
                        0 <= k < idsv.len() ==> (#[trigger] m.lookup(idsv[k], now)) is Some {
                        assert(attributes_view(attrs@) =~= Seq::new(
                            idsv.len(),
                            |k: int| m.lookup(idsv[k], now)->0,
                        ));
                    }
                },
                None => {},
            }
        }
        Ok(attrs)
    }
}

impl Film {
    /// Get a list of all future sessions for this film.
    pub fn sessions<T: Transport>(&self, client: &mut Client<T>, now: u64) -> (r: ApiResult<
        SessionList,
    >)
        requires
            old(client).wf(),
        ensures
            final(client).wf(),
            Client::<T>::same_config(*old(client), *final(client)),
            Client::<T>::non_session_caches_eq(*old(client), *final(client)),
            match r {
                Ok(x) => exists|sl: Seq<SessionView>|
                    #[trigger] Client::<T>::list_sessions_ok(*old(client), *final(client), now, sl)
                        && x@ == sl.filter(of_film(self.id@)),
                Err(_) => final(client).session_cache == old(client).session_cache && final(client).session_list_cache == old(client).session_list_cache && (old(
                    client,
                ).session_list() matches Some(m) ==> m.lookup(now) is None),
            },
    {
        let list = match client.list_sessions(now) {
            Ok(l) => l,
            Err(e) => {
                return Err(e);
            },
        };
        proof {
            assert(Client::<T>::list_sessions_ok(*old(client), *client, now, list@));
        }
        Ok(list.filter_by_film(&self.id))
    }

    /// Get a list of all future sessions for this film that should be
    /// available for online sales.
    pub fn web_sessions<T: Transport>(&self, client: &mut Client<T>, now: u64) -> (r: ApiResult<
        SessionList,
    >)
        requires
            old(client).wf(),
        ensures
            final(client).wf(),
            Client::<T>::same_config(*old(client), *final(client)),
            Client::<T>::non_session_caches_eq(*old(client), *final(client)),
            match r {
                Ok(x) => exists|sl: Seq<SessionView>|
                    #[trigger] Client::<T>::list_web_sessions_ok(
                        *old(client),
                        *final(client),
                        now,
                        sl,
                    ) && x@ == sl.filter(of_film(self.id@)),
                Err(_) => final(client).session_cache == old(client).session_cache && final(client).web_session_list_cache == old(client).web_session_list_cache && (old(
                    client,
                ).web_session_list() matches Some(m) ==> m.lookup(now) is None),
            },
    {
        let list = match client.list_web_sessions(now) {
            Ok(l) => l,
            Err(e) => {
                return Err(e);
            },
        };
        proof {
            assert(Client::<T>::list_web_sessions_ok(*old(client), *client, now, list@));
        }
        Ok(list.filter_by_film(&self.id))
    }
}

impl Screen {
    /// Get a list of all future sessions for this screen.
    pub fn sessions<T: Transport>(&self, client: &mut Client<T>, now: u64) -> (r: ApiResult<
        SessionList,
    >)
        requires
            old(client).wf(),
        ensures
            final(client).wf(),
            Client::<T>::same_config(*old(client), *final(client)),
            Client::<T>::non_session_caches_eq(*old(client), *final(client)),
            match r {
                Ok(x) => exists|sl: Seq<SessionView>|
                    #[trigger] Client::<T>::list_sessions_ok(*old(client), *final(client), now, sl)
                        && x@ == sl.filter(on_screen(self.id@)),
                Err(_) => final(client).session_cache == old(client).session_cache && final(client).session_list_cache == old(client).session_list_cache && (old(
                    client,
                ).session_list() matches Some(m) ==> m.lookup(now) is None),
            },
    {
        let list = match client.list_sessions(now) {
            Ok(l) => l,
            Err(e) => {
                return Err(e);
            },
        };
        proof {
            assert(Client::<T>::list_sessions_ok(*old(client), *client, now, list@));
        }
        Ok(list.filter_by_screen(self.id))
    }
}

impl Attribute {
    /// Get a list of all future sessions carrying this attribute.
    pub fn sessions<T: Transport>(&self, client: &mut Client<T>, now: u64) -> (r: ApiResult<
        SessionList,
    >)
        requires
            old(client).wf(),
        ensures
            final(client).wf(),
            Client::<T>::same_config(*old(client), *final(client)),
            Client::<T>::non_session_caches_eq(*old(client), *final(client)),
            match r {
                Ok(x) => exists|sl: Seq<SessionView>|
                    #[trigger] Client::<T>::list_sessions_ok(*old(client), *final(client), now, sl)
                        && x@ == sl.filter(with_attribute(self.id@)),
                Err(_) => final(client).session_cache == old(client).session_cache && final(client).session_list_cache == old(client).session_list_cache && (old(
                    client,
                ).session_list() matches Some(m) ==> m.lookup(now) is None),
            },
    {
        let list = match client.list_sessions(now) {
            Ok(l) => l,
            Err(e) => {
                return Err(e);
            },
        };
        proof {
            assert(Client::<T>::list_sessions_ok(*old(client), *client, now, list@));
        }
        Ok(list.filter_containing_attribute(&self.id))
    }
}

} // verus!

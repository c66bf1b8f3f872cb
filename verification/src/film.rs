//! Films in the Veezi system.

use vstd::prelude::*;

use crate::cache::{CacheKey, CacheValue};
use crate::seqs::{find_first, lemma_filter_push, lemma_find_first_hit, lemma_find_first_none};
use crate::text::{clone_opt_string, dec_digits, decimal_string, opt_str_view, push_decimal};

verus! {

/// The status of a particular [`Film`].
#[derive(Debug, Clone, Copy, PartialEq, Eq, Structural)]
pub enum FilmStatus {
    /// Film is active and can be scheduled.
    Active,
    /// Film is inactive and cannot be scheduled.
    Inactive,
    /// Film has been deleted.
    Deleted,
}

/// The format of a particular [`Film`].
#[derive(Debug, Clone, Copy, PartialEq, Eq, Structural)]
pub enum FilmFormat {
    /// A 2D film.
    Film2D,
    /// A 2D digital film.
    Digital2D,
    /// A 3D digital film.
    Digital3D,
    /// A 3D HFR (High Frame Rate) digital film.
    Digital3DHFR,
    /// Not a film (e.g., live event).
    NotAFilm,
}

/// The unique ID of a [`Person`].
#[derive(Debug)]
pub struct PersonId(String);

impl PersonId {
    /// Wrap a wire identifier.
    pub fn new(id: String) -> (r: Self)
        ensures
            r@ == id@,
    {
        PersonId(id)
    }

    /// The string representation of this [`PersonId`].
    pub fn as_str(&self) -> (r: &str)
        ensures
            r@ == self@,
    {
        self.0.as_str()
    }
}

impl View for PersonId {
    type V = Seq<char>;

    closed spec fn view(&self) -> Seq<char> {
        self.0@
    }
}

impl Clone for PersonId {
    fn clone(&self) -> (r: Self)
        ensures
            r@ == self@,
    {
        PersonId(self.0.clone())
    }
}

impl PartialEq for PersonId {
    fn eq(&self, other: &Self) -> (r: bool) {
        self.0 == other.0
    }
}

impl vstd::std_specs::cmp::PartialEqSpecImpl for PersonId {
    open spec fn obeys_eq_spec() -> bool {
        true
    }

    open spec fn eq_spec(&self, other: &Self) -> bool {
        self@ == other@
    }
}

/// The mathematical value of a [`Person`].
pub struct PersonView {
    /// The value of [`Person::id`].
    pub id: Seq<char>,
    /// The value of [`Person::first_name`].
    pub first_name: Seq<char>,
    /// The value of [`Person::last_name`].
    pub last_name: Seq<char>,
    /// The value of [`Person::role`].
    pub role: Seq<char>,
}

/// A particular person associated with a [`Film`].
#[derive(Debug, PartialEq)]
pub struct Person {
    /// The unique ID of the person.
    pub id: PersonId,
    /// The first name of the person.
    pub first_name: String,
    /// The last name of the person.
    pub last_name: String,
    /// The role of the person in the film (e.g., Actor, Director).
    pub role: String,
}

impl View for Person {
    type V = PersonView;

    open spec fn view(&self) -> PersonView {
        PersonView {
            id: self.id@,
            first_name: self.first_name@,
            last_name: self.last_name@,
            role: self.role@,
        }
    }
}

impl Clone for Person {
    fn clone(&self) -> (r: Self)
        ensures
            r@ == self@,
    {
        Person {
            id: self.id.clone(),
            first_name: self.first_name.clone(),
            last_name: self.last_name.clone(),
            role: self.role.clone(),
        }
    }
}

/// The mathematical values of a sequence of [`Person`]s.
pub open spec fn people_view(s: Seq<Person>) -> Seq<PersonView> {
    s.map_values(|x: Person| x@)
}

/// The unique ID of a [`Film`].
#[derive(Debug)]
pub struct FilmId(String);

impl FilmId {
    /// Wrap a wire identifier.
    pub fn new(id: String) -> (r: Self)
        ensures
            r@ == id@,
    {
        FilmId(id)
    }

    /// The string representation of this [`FilmId`].
    pub fn as_str(&self) -> (r: &str)
        ensures
            r@ == self@,
    {
        self.0.as_str()
    }
}

impl View for FilmId {
    type V = Seq<char>;

    closed spec fn view(&self) -> Seq<char> {
        self.0@
    }
}

impl Clone for FilmId {
    fn clone(&self) -> (r: Self)
        ensures
            r@ == self@,
    {
        FilmId(self.0.clone())
    }
}

impl PartialEq for FilmId {
    fn eq(&self, other: &Self) -> (r: bool) {
        self.0 == other.0
    }
}

impl vstd::std_specs::cmp::PartialEqSpecImpl for FilmId {
    open spec fn obeys_eq_spec() -> bool {
        true
    }

    open spec fn eq_spec(&self, other: &Self) -> bool {
        self@ == other@
    }
}

impl CacheKey for FilmId {
    type Repr = Seq<char>;

    open spec fn repr(&self) -> Seq<char> {
        self@
    }

    fn key_eq(&self, other: &Self) -> (r: bool) {
        self.0 == other.0
    }

    fn dup(&self) -> (r: Self) {
        FilmId(self.0.clone())
    }
}

/// The mathematical value of a [`Film`].
pub struct FilmView {
    /// The value of [`Film::id`].
    pub id: Seq<char>,
    /// The value of [`Film::title`].
    pub title: Seq<char>,
    /// The value of [`Film::short_name`].
    pub short_name: Seq<char>,
    /// The value of [`Film::synopsis`].
    pub synopsis: Option<Seq<char>>,
    /// The value of [`Film::genre`].
    pub genre: Seq<char>,
    /// The value of [`Film::signage_text`].
    pub signage_text: Seq<char>,
    /// The value of [`Film::distributor`].
    pub distributor: Seq<char>,
    /// The value of [`Film::opening_date`].
    pub opening_date: u64,
    /// The value of [`Film::rating`].
    pub rating: Option<Seq<char>>,
    /// The value of [`Film::status`].
    pub status: FilmStatus,
    /// The value of [`Film::content`].
    pub content: Option<Seq<char>>,
    /// The value of [`Film::duration`].
    pub duration: u32,
    /// The value of [`Film::display_sequence`].
    pub display_sequence: u32,
    /// The value of [`Film::national_code`].
    pub national_code: Option<Seq<char>>,
    /// The value of [`Film::format`].
    pub format: FilmFormat,
    /// The value of [`Film::is_restricted`].
    pub is_restricted: bool,
    /// The values of [`Film::people`].
    pub people: Seq<PersonView>,
    /// The value of [`Film::audio_language`].
    pub audio_language: Option<Seq<char>>,
    /// The value of [`Film::government_film_title`].
    pub government_film_title: Option<Seq<char>>,
    /// The value of [`Film::film_poster_url`].
    pub film_poster_url: Option<Seq<char>>,
    /// The value of [`Film::film_poster_thumbnail_url`].
    pub film_poster_thumbnail_url: Seq<char>,
    /// The value of [`Film::backdrop_image_url`].
    pub backdrop_image_url: Option<Seq<char>>,
    /// The value of [`Film::film_trailer_url`].
    pub film_trailer_url: Option<Seq<char>>,
}

/// A particular film in the Veezi system.
#[derive(Debug, PartialEq)]
pub struct Film {
    /// The unique ID of the film.
    pub id: FilmId,
    /// The title of the film.
    pub title: String,
    /// The short name of the film.
    pub short_name: String,
    /// The synopsis of the film.
    pub synopsis: Option<String>,
    /// The genre of the film.
    pub genre: String,
    /// The signage display name for the film.
    pub signage_text: String,
    /// The distributor of the film.
    pub distributor: String,
    /// The opening date of the film, in seconds since the Unix epoch.
    pub opening_date: u64,
    /// The rating of the film (e.g., "PG-13"). If `None`, the film is not
    /// rated ("NR").
    pub rating: Option<String>,
    /// The current status of the film.
    pub status: FilmStatus,
    /// The rating's content description.
    pub content: Option<String>,
    /// The duration of the film in minutes.
    pub duration: u32,
    /// The display sequence of the film.
    pub display_sequence: u32,
    /// The film's national code (if any).
    pub national_code: Option<String>,
    /// The format of the film.
    pub format: FilmFormat,
    /// Whether the film is restricted to certain audiences.
    pub is_restricted: bool,
    /// The list of people associated with the film.
    pub people: Vec<Person>,
    /// The primary audio language of the film.
    pub audio_language: Option<String>,
    /// The federal title of the film for box office reporting, if any.
    pub government_film_title: Option<String>,
    /// The film's poster URL, if any.
    pub film_poster_url: Option<String>,
    /// The film's poster thumbnail URL.
    pub film_poster_thumbnail_url: String,
    /// The film's backdrop image URL, if any.
    pub backdrop_image_url: Option<String>,
    /// The film's trailer URL, if any.
    pub film_trailer_url: Option<String>,
}

impl View for Film {
    type V = FilmView;

    open spec fn view(&self) -> FilmView {
        FilmView {
            id: self.id@,
            title: self.title@,
            short_name: self.short_name@,
            synopsis: opt_str_view(self.synopsis),
            genre: self.genre@,
            signage_text: self.signage_text@,
            distributor: self.distributor@,
            opening_date: self.opening_date,
            rating: opt_str_view(self.rating),
            status: self.status,
            content: opt_str_view(self.content),
            duration: self.duration,
            display_sequence: self.display_sequence,
            national_code: opt_str_view(self.national_code),
            format: self.format,
            is_restricted: self.is_restricted,
            people: people_view(self.people@),
            audio_language: opt_str_view(self.audio_language),
            government_film_title: opt_str_view(self.government_film_title),
            film_poster_url: opt_str_view(self.film_poster_url),
            film_poster_thumbnail_url: self.film_poster_thumbnail_url@,
            backdrop_image_url: opt_str_view(self.backdrop_image_url),
            film_trailer_url: opt_str_view(self.film_trailer_url),
        }
    }
}

impl Clone for Film {
    fn clone(&self) -> (r: Self)
        ensures
            r@ == self@,
    {
        let mut people: Vec<Person> = Vec::new();
        let mut i: usize = 0;
        while i < self.people.len()
            invariant
                i <= self.people.len(),
                people@.len() == i,
                forall|j: int| 0 <= j < i ==> people@[j]@ == self.people@[j]@,
            decreases self.people.len() - i,
        {
            people.push(self.people[i].clone());
            i = i + 1;
        }
        proof {
            assert(people_view(people@) =~= people_view(self.people@));
        }
        Film {
            id: self.id.clone(),
            title: self.title.clone(),
            short_name: self.short_name.clone(),
            synopsis: clone_opt_string(&self.synopsis),
            genre: self.genre.clone(),
            signage_text: self.signage_text.clone(),
            distributor: self.distributor.clone(),
            opening_date: self.opening_date,
            rating: clone_opt_string(&self.rating),
            status: self.status,
            content: clone_opt_string(&self.content),
            duration: self.duration,
            display_sequence: self.display_sequence,
            national_code: clone_opt_string(&self.national_code),
            format: self.format,
            is_restricted: self.is_restricted,
            people,
            audio_language: clone_opt_string(&self.audio_language),
            government_film_title: clone_opt_string(&self.government_film_title),
            film_poster_url: clone_opt_string(&self.film_poster_url),
            film_poster_thumbnail_url: self.film_poster_thumbnail_url.clone(),
            backdrop_image_url: clone_opt_string(&self.backdrop_image_url),
            film_trailer_url: clone_opt_string(&self.film_trailer_url),
        }
    }
}

impl CacheValue for Film {
    type Repr = FilmView;

    open spec fn repr(&self) -> FilmView {
        self@
    }

    fn dup(&self) -> (r: Self) {
        self.clone()
    }
}

/// The text of the formatted duration of a film lasting `d` minutes:
/// whole hours followed by "h", then, when the minutes are not zero, a
/// space and the minutes followed by "m".
pub open spec fn formatted_duration_view(d: u32) -> Seq<char> {
    if d % 60 == 0 {
        dec_digits((d / 60) as int) + "h"@
    } else {
        dec_digits((d / 60) as int) + "h "@ + dec_digits((d % 60) as int) + "m"@
    }
}

/// The predicate satisfied by people with the given role.
pub open spec fn with_role(role: Seq<char>) -> spec_fn(PersonView) -> bool {
    |pv: PersonView| pv.role == role
}

/// The full name of a person: first name, a space, last name.
pub open spec fn person_name_view(pv: PersonView) -> Seq<char> {
    pv.first_name + " "@ + pv.last_name
}

/// The full names of `s`, separated by a comma and a space.
pub open spec fn joined_names(s: Seq<PersonView>) -> Seq<char>
    decreases s.len(),
{
    if s.len() == 0 {
        Seq::empty()
    } else if s.len() == 1 {
        person_name_view(s[0])
    } else {
        joined_names(s.drop_last()) + ", "@ + person_name_view(s.last())
    }
}

/// The mathematical values of a sequence of references to [`Person`]s.
pub open spec fn people_refs_view(s: Seq<&Person>) -> Seq<PersonView> {
    s.map_values(|p: &Person| p@)
}

impl Film {
    /// Format the duration of the film as "Xh Ym", or "Xh" when the
    /// minutes are zero.
    pub fn formatted_duration(&self) -> (r: String)
        ensures
            r@ == formatted_duration_view(self.duration),
    {
        let mut s = decimal_string(self.duration / 60);
        if self.duration % 60 == 0 {
            s.append("h");
        } else {
            s.append("h ");
            push_decimal(&mut s, self.duration % 60);
            s.append("m");
        }
        s
    }

    /// Check if the film is currently active.
    pub fn is_active(&self) -> (r: bool)
        ensures
            r == (self@.status == FilmStatus::Active),
    {
        matches!(self.status, FilmStatus::Active)
    }

    /// Check if the film is a 3D film (any 3D format).
    pub fn is_3d(&self) -> (r: bool)
        ensures
            r == (self@.format == FilmFormat::Digital3D || self@.format
                == FilmFormat::Digital3DHFR),
    {
        matches!(self.format, FilmFormat::Digital3D | FilmFormat::Digital3DHFR)
    }

    /// Check if the film is a 2D film (any 2D format).
    pub fn is_2d(&self) -> (r: bool)
        ensures
            r == (self@.format == FilmFormat::Film2D || self@.format == FilmFormat::Digital2D),
    {
        matches!(self.format, FilmFormat::Film2D | FilmFormat::Digital2D)
    }

    /// The people associated with this film whose role is exactly `role`.
    pub fn people_with_role(&self, role: &str) -> (r: Vec<&Person>)
        ensures
            people_refs_view(r@) == people_view(self.people@).filter(with_role(role@)),
    {
        let role_name: String = role.to_owned();
        let ghost vs = people_view(self.people@);
        let mut out: Vec<&Person> = Vec::new();
        let mut i: usize = 0;
        while i < self.people.len()
            invariant
                i <= self.people.len(),
                role_name@ == role@,
                vs == people_view(self.people@),
                people_refs_view(out@) == vs.take(i as int).filter(with_role(role@)),
            decreases self.people.len() - i,
        {
            let ghost out0 = people_refs_view(out@);
            let p = &self.people[i];
            proof {
                assert(vs[i as int] == self.people@[i as int]@);
            }
            let m = p.role == role_name;
            proof {
                assert((with_role(role@))(vs[i as int]) == m);
            }
            if m {
                out.push(p);
                proof {
                    assert(people_refs_view(out@) =~= out0.push(vs[i as int]));
                }
            }
            proof {
                assert(vs.take(i + 1) =~= vs.take(i as int).push(vs[i as int]));
                lemma_filter_push(vs.take(i as int), vs[i as int], with_role(role@));
            }
            i = i + 1;
        }
        proof {
            assert(vs.take(self.people.len() as int) =~= vs);
        }
        out
    }

    /// The list of actors associated with this film.
    pub fn actors(&self) -> (r: Vec<&Person>)
        ensures
            people_refs_view(r@) == people_view(self.people@).filter(with_role("Actor"@)),
    {
        self.people_with_role("Actor")
    }

    /// The list of directors associated with this film.
    pub fn directors(&self) -> (r: Vec<&Person>)
        ensures
            people_refs_view(r@) == people_view(self.people@).filter(with_role("Director"@)),
    {
        self.people_with_role("Director")
    }

    /// A formatted string of the full names of `people`, separated by
    /// commas.
    fn join_names(people: &Vec<&Person>) -> (r: String)
        ensures
            r@ == joined_names(people_refs_view(people@)),
    {
        let ghost vs = people_refs_view(people@);
        let mut s = String::new();
        let mut i: usize = 0;
        while i < people.len()
            invariant
                i <= people.len(),
                vs == people_refs_view(people@),
                s@ == joined_names(vs.take(i as int)),
            decreases people.len() - i,
        {
            let ghost s0 = s@;
            let p = people[i];
            proof {
                assert(vs[i as int] == people@[i as int]@);
            }
            if i > 0 {
                s.append(", ");
            }
            s.append(p.first_name.as_str());
            s.append(" ");
            s.append(p.last_name.as_str());
            proof {
                assert(vs.take(i + 1) =~= vs.take(i as int).push(vs[i as int]));
                assert(vs.take(i + 1).drop_last() =~= vs.take(i as int));
                if i > 0 {
                    assert(s@ =~= joined_names(vs.take(i as int)) + ", "@ + person_name_view(
                        vs[i as int],
                    ));
                } else {
                    assert(s@ =~= person_name_view(vs[i as int]));
                }
            }
            i = i + 1;
        }
        proof {
            assert(vs.take(people.len() as int) =~= vs);
        }
        s
    }

    /// A formatted string of actor names, separated by commas.
    pub fn actors_formatted(&self) -> (r: String)
        ensures
            r@ == joined_names(people_view(self.people@).filter(with_role("Actor"@))),
    {
        let actors = self.actors();
        Self::join_names(&actors)
    }

    /// A formatted string of director names, separated by commas.
    pub fn directors_formatted(&self) -> (r: String)
        ensures
            r@ == joined_names(people_view(self.people@).filter(with_role("Director"@))),
    {
        let directors = self.directors();
        Self::join_names(&directors)
    }

    /// A display-friendly rating string, returning "NR" if no rating is
    /// set.
    pub fn rating_display(&self) -> (r: String)
        ensures
            r@ == match self@.rating {
                Some(x) => x,
                None => "NR"@,
            },
    {
        match &self.rating {
            Some(x) => x.clone(),
            None => "NR".to_owned(),
        }
    }
}

/// The mathematical values of a sequence of [`Film`]s.
pub open spec fn films_view(s: Seq<Film>) -> Seq<FilmView> {
    s.map_values(|x: Film| x@)
}

impl CacheValue for Vec<Film> {
    type Repr = Seq<FilmView>;

    open spec fn repr(&self) -> Seq<FilmView> {
        films_view(self@)
    }

    fn dup(&self) -> (r: Self) {
        let mut out: Vec<Film> = Vec::new();
        let mut i: usize = 0;
        while i < self.len()
            invariant
                i <= self.len(),
                out@.len() == i,
                forall|j: int| 0 <= j < i ==> out@[j]@ == self@[j]@,
            decreases self.len() - i,
        {
            out.push(self[i].clone());
            i = i + 1;
        }
        proof {
            assert(films_view(out@) =~= films_view(self@));
        }
        out
    }
}

} // verus!

verus! {

/// The predicate satisfied by films with the given title.
pub open spec fn film_with_title(needle: Seq<char>) -> spec_fn(FilmView) -> bool {
    |v: FilmView| v.title == needle
}

/// The predicate satisfied by films with the given short name.
pub open spec fn film_with_short_name(needle: Seq<char>) -> spec_fn(FilmView) -> bool {
    |v: FilmView| v.short_name == needle
}

/// The predicate satisfied by films with the given signage text.
pub open spec fn film_with_signage_text(needle: Seq<char>) -> spec_fn(FilmView) -> bool {
    |v: FilmView| v.signage_text == needle
}

/// The predicate satisfied by films of the given genre.
pub open spec fn film_of_genre(needle: Seq<char>) -> spec_fn(FilmView) -> bool {
    |v: FilmView| v.genre == needle
}

/// The predicate satisfied by films by the given distributor.
pub open spec fn film_of_distributor(needle: Seq<char>) -> spec_fn(FilmView) -> bool {
    |v: FilmView| v.distributor == needle
}

/// The first film in `films` whose title equals `needle_text`, if any.
pub fn find_film_by_title(films: &Vec<Film>, needle_text: &str) -> (r: Option<Film>)
    ensures
        match r {
            Some(x) => find_first(films_view(films@), film_with_title(needle_text@)) == Some(x@),
            None => find_first(films_view(films@), film_with_title(needle_text@)) is None,
        },
{
    let needle: String = needle_text.to_owned();
    let ghost vs = films_view(films@);
    let mut i: usize = 0;
    while i < films.len()
        invariant
            i <= films.len(),
            needle@ == needle_text@,
            vs == films_view(films@),
            forall|j: int| 0 <= j < i ==> !((film_with_title(needle_text@))(vs[j])),
        decreases films.len() - i,
    {
        let x = &films[i];
        proof {
            assert(vs[i as int] == films@[i as int]@);
        }
        if x.title == needle {
            proof {
                lemma_find_first_hit(vs, film_with_title(needle_text@), i as int);
            }
            return Some(x.clone());
        }
        i = i + 1;
    }
    proof {
        lemma_find_first_none(vs, film_with_title(needle_text@));
    }
    None
}

/// The first film in `films` whose short name equals `needle_text`, if any.
pub fn find_film_by_short_name(films: &Vec<Film>, needle_text: &str) -> (r: Option<Film>)
    ensures
        match r {
            Some(x) => find_first(films_view(films@), film_with_short_name(needle_text@)) == Some(x@),
            None => find_first(films_view(films@), film_with_short_name(needle_text@)) is None,
        },
{
    let needle: String = needle_text.to_owned();
    let ghost vs = films_view(films@);
    let mut i: usize = 0;
    while i < films.len()
        invariant
            i <= films.len(),
            needle@ == needle_text@,
            vs == films_view(films@),
            forall|j: int| 0 <= j < i ==> !((film_with_short_name(needle_text@))(vs[j])),
        decreases films.len() - i,
    {
        let x = &films[i];
        proof {
            assert(vs[i as int] == films@[i as int]@);
        }
        if x.short_name == needle {
            proof {
                lemma_find_first_hit(vs, film_with_short_name(needle_text@), i as int);
            }
            return Some(x.clone());
        }
        i = i + 1;
    }
    proof {
        lemma_find_first_none(vs, film_with_short_name(needle_text@));
    }
    None
}

/// The first film in `films` whose signage text equals `needle_text`, if any.
pub fn find_film_by_signage_text(films: &Vec<Film>, needle_text: &str) -> (r: Option<Film>)
    ensures
        match r {
            Some(x) => find_first(films_view(films@), film_with_signage_text(needle_text@)) == Some(x@),
            None => find_first(films_view(films@), film_with_signage_text(needle_text@)) is None,
        },
{
    let needle: String = needle_text.to_owned();
    let ghost vs = films_view(films@);
    let mut i: usize = 0;
    while i < films.len()
        invariant
            i <= films.len(),
            needle@ == needle_text@,
            vs == films_view(films@),
            forall|j: int| 0 <= j < i ==> !((film_with_signage_text(needle_text@))(vs[j])),
        decreases films.len() - i,
    {
        let x = &films[i];
        proof {
            assert(vs[i as int] == films@[i as int]@);
        }
        if x.signage_text == needle {
            proof {
                lemma_find_first_hit(vs, film_with_signage_text(needle_text@), i as int);
            }
            return Some(x.clone());
        }
        i = i + 1;
    }
    proof {
        lemma_find_first_none(vs, film_with_signage_text(needle_text@));
    }
    None
}

/// The films in `films` whose genre equals `needle_text`, in order.
pub fn films_with_genre(films: &Vec<Film>, needle_text: &str) -> (r: Vec<Film>)
    ensures
        films_view(r@) == films_view(films@).filter(film_of_genre(needle_text@)),
{
    let needle: String = needle_text.to_owned();
    let ghost vs = films_view(films@);
    let mut out: Vec<Film> = Vec::new();
    let mut i: usize = 0;
    while i < films.len()
        invariant
            i <= films.len(),
            needle@ == needle_text@,
            vs == films_view(films@),
            films_view(out@) == vs.take(i as int).filter(film_of_genre(needle_text@)),
        decreases films.len() - i,
    {
        let ghost out0 = films_view(out@);
        let x = &films[i];
        proof {
            assert(vs[i as int] == films@[i as int]@);
        }
        if x.genre == needle {
            out.push(x.clone());
            proof {
                assert(films_view(out@) =~= out0.push(vs[i as int]));
            }
        }
        proof {
            assert(vs.take(i + 1) =~= vs.take(i as int).push(vs[i as int]));
            lemma_filter_push(vs.take(i as int), vs[i as int], film_of_genre(needle_text@));
        }
        i = i + 1;
    }
    proof {
        assert(vs.take(films.len() as int) =~= vs);
    }
    out
}

/// The films in `films` whose distributor equals `needle_text`, in order.
pub fn films_with_distributor(films: &Vec<Film>, needle_text: &str) -> (r: Vec<Film>)
    ensures
        films_view(r@) == films_view(films@).filter(film_of_distributor(needle_text@)),
{
    let needle: String = needle_text.to_owned();
    let ghost vs = films_view(films@);
    let mut out: Vec<Film> = Vec::new();
    let mut i: usize = 0;
    while i < films.len()
        invariant
            i <= films.len(),
            needle@ == needle_text@,
            vs == films_view(films@),
            films_view(out@) == vs.take(i as int).filter(film_of_distributor(needle_text@)),
        decreases films.len() - i,
    {
        let ghost out0 = films_view(out@);
        let x = &films[i];
        proof {
            assert(vs[i as int] == films@[i as int]@);
        }
        if x.distributor == needle {
            out.push(x.clone());
            proof {
                assert(films_view(out@) =~= out0.push(vs[i as int]));
            }
        }
        proof {
            assert(vs.take(i + 1) =~= vs.take(i as int).push(vs[i as int]));
            lemma_filter_push(vs.take(i as int), vs[i as int], film_of_distributor(needle_text@));
        }
        i = i + 1;
    }
    proof {
        assert(vs.take(films.len() as int) =~= vs);
    }
    out
}

} // verus!

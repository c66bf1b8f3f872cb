//! Film packages (e.g. double features) in the Veezi system.

use vstd::prelude::*;

use crate::cache::{CacheKey, CacheValue};
use crate::film::{FilmId, FilmStatus};
use crate::seqs::{find_first, lemma_filter_push, lemma_find_first_hit, lemma_find_first_none};

verus! {

/// The mathematical value of a [`PackageFilm`].
pub struct PackageFilmView {
    /// The value of [`PackageFilm::film_id`].
    pub film_id: Seq<char>,
    /// The value of [`PackageFilm::title`].
    pub title: Seq<char>,
    /// The value of [`PackageFilm::split_percent_bits`].
    pub split_percent_bits: u32,
    /// The value of [`PackageFilm::trailer_duration`].
    pub trailer_duration: u32,
    /// The value of [`PackageFilm::clean_up_duration`].
    pub clean_up_duration: u32,
    /// The value of [`PackageFilm::order`].
    pub order: u32,
}

/// A particular film within a [`FilmPackage`].
#[derive(Debug, PartialEq)]
pub struct PackageFilm {
    /// The unique ID of the film.
    pub film_id: FilmId,
    /// The title of the film.
    pub title: String,
    /// The raw IEEE-754 bits of the percentage of the box office this
    /// film receives within the package, as received on the wire.
    pub split_percent_bits: u32,
    /// The duration of the trailers for this film in minutes.
    pub trailer_duration: u32,
    /// The duration of the cleaning up after this film in minutes.
    pub clean_up_duration: u32,
    /// The order of this film within the package.
    pub order: u32,
}

impl View for PackageFilm {
    type V = PackageFilmView;

    open spec fn view(&self) -> PackageFilmView {
        PackageFilmView {
            film_id: self.film_id@,
            title: self.title@,
            split_percent_bits: self.split_percent_bits,
            trailer_duration: self.trailer_duration,
            clean_up_duration: self.clean_up_duration,
            order: self.order,
        }
    }
}

impl Clone for PackageFilm {
    fn clone(&self) -> (r: Self)
        ensures
            r@ == self@,
    {
        PackageFilm {
            film_id: self.film_id.clone(),
            title: self.title.clone(),
            split_percent_bits: self.split_percent_bits,
            trailer_duration: self.trailer_duration,
            clean_up_duration: self.clean_up_duration,
            order: self.order,
        }
    }
}

/// The unique ID of a [`FilmPackage`].
#[derive(Debug, Clone, Copy, PartialEq, Eq, Structural)]
pub struct FilmPackageId(u32);

impl FilmPackageId {
    /// Wrap a wire identifier.
    pub fn new(id: u32) -> (r: Self)
        ensures
            r@ == id,
    {
        FilmPackageId(id)
    }

    /// The numeric ID of this [`FilmPackageId`].
    pub fn into_u32(self) -> (r: u32)
        ensures
            r == self@,
    {
        self.0
    }
}

impl View for FilmPackageId {
    type V = u32;

    closed spec fn view(&self) -> u32 {
        self.0
    }
}

impl CacheKey for FilmPackageId {
    type Repr = u32;

    open spec fn repr(&self) -> u32 {
        self@
    }

    fn key_eq(&self, other: &Self) -> (r: bool) {
        self.0 == other.0
    }

    fn dup(&self) -> (r: Self) {
        *self
    }
}

/// The mathematical value of a [`FilmPackage`].
pub struct FilmPackageView {
    /// The value of [`FilmPackage::id`].
    pub id: u32,
    /// The value of [`FilmPackage::title`].
    pub title: Seq<char>,
    /// The value of [`FilmPackage::status`].
    pub status: FilmStatus,
    /// The values of [`FilmPackage::films`].
    pub films: Seq<PackageFilmView>,
}

/// The mathematical values of a sequence of [`PackageFilm`]s.
pub open spec fn package_films_view(s: Seq<PackageFilm>) -> Seq<PackageFilmView> {
    s.map_values(|x: PackageFilm| x@)
}

/// A package of [`PackageFilm`]s in the Veezi system ("double feature").
#[derive(Debug, PartialEq)]
pub struct FilmPackage {
    /// The unique ID of the film package.
    pub id: FilmPackageId,
    /// The title of the film package.
    pub title: String,
    /// The current status of the film package.
    pub status: FilmStatus,
    /// The list of films within this package.
    pub films: Vec<PackageFilm>,
}

impl View for FilmPackage {
    type V = FilmPackageView;

    open spec fn view(&self) -> FilmPackageView {
        FilmPackageView {
            id: self.id@,
            title: self.title@,
            status: self.status,
            films: package_films_view(self.films@),
        }
    }
}

impl Clone for FilmPackage {
    fn clone(&self) -> (r: Self)
        ensures
            r@ == self@,
    {
        let mut films: Vec<PackageFilm> = Vec::new();
        let mut i: usize = 0;
        while i < self.films.len()
            invariant
                i <= self.films.len(),
                films@.len() == i,
                forall|j: int| 0 <= j < i ==> films@[j]@ == self.films@[j]@,
            decreases self.films.len() - i,
        {
            films.push(self.films[i].clone());
            i = i + 1;
        }
        proof {
            assert(package_films_view(films@) =~= package_films_view(self.films@));
        }
        FilmPackage { id: self.id, title: self.title.clone(), status: self.status, films }
    }
}

impl CacheValue for FilmPackage {
    type Repr = FilmPackageView;

    open spec fn repr(&self) -> FilmPackageView {
        self@
    }

    fn dup(&self) -> (r: Self) {
        self.clone()
    }
}

/// The mathematical values of a sequence of [`FilmPackage`]s.
pub open spec fn film_packages_view(s: Seq<FilmPackage>) -> Seq<FilmPackageView> {
    s.map_values(|x: FilmPackage| x@)
}

impl CacheValue for Vec<FilmPackage> {
    type Repr = Seq<FilmPackageView>;

    open spec fn repr(&self) -> Seq<FilmPackageView> {
        film_packages_view(self@)
    }

    fn dup(&self) -> (r: Self) {
        let mut out: Vec<FilmPackage> = Vec::new();
        let mut i: usize = 0;
        while i < self.len()
            invariant
                i <= self.len(),
                out@.len() == i,
                forall|j: int| 0 <= j < i ==> out@[j]@ == self@[j]@,
            decreases self.len() - i,
        {
            out.push(self[i].clone());
            i = i + 1;
        }
        proof {
            assert(film_packages_view(out@) =~= film_packages_view(self@));
        }
        out
    }
}

} // verus!

verus! {

/// The predicate satisfied by film packages with the given title.
pub open spec fn package_with_title(needle: Seq<char>) -> spec_fn(FilmPackageView) -> bool {
    |v: FilmPackageView| v.title == needle
}

/// The first film package in `packages` whose title equals `needle_text`, if any.
pub fn find_film_package_by_title(packages: &Vec<FilmPackage>, needle_text: &str) -> (r: Option<FilmPackage>)
    ensures
        match r {
            Some(x) => find_first(film_packages_view(packages@), package_with_title(needle_text@)) == Some(x@),
            None => find_first(film_packages_view(packages@), package_with_title(needle_text@)) is None,
        },
{
    let needle: String = needle_text.to_owned();
    let ghost vs = film_packages_view(packages@);
    let mut i: usize = 0;
    while i < packages.len()
        invariant
            i <= packages.len(),
            needle@ == needle_text@,
            vs == film_packages_view(packages@),
            forall|j: int| 0 <= j < i ==> !((package_with_title(needle_text@))(vs[j])),
        decreases packages.len() - i,
    {
        let x = &packages[i];
        proof {
            assert(vs[i as int] == packages@[i as int]@);
        }
        if x.title == needle {
            proof {
                lemma_find_first_hit(vs, package_with_title(needle_text@), i as int);
            }
            return Some(x.clone());
        }
        i = i + 1;
    }
    proof {
        lemma_find_first_none(vs, package_with_title(needle_text@));
    }
    None
}

/// Whether the package contains a film with the given film ID.
pub open spec fn package_has_film(pv: FilmPackageView, film_id: Seq<char>) -> bool {
    exists|j: int| 0 <= j < pv.films.len() && (#[trigger] pv.films[j]).film_id == film_id
}

/// The predicate satisfied by film packages containing the given film.
pub open spec fn containing_film(film_id: Seq<char>) -> spec_fn(FilmPackageView) -> bool {
    |pv: FilmPackageView| package_has_film(pv, film_id)
}

/// Whether `package` contains a film whose ID has the value of `id`.
fn package_contains_film(package: &FilmPackage, id: &FilmId) -> (r: bool)
    ensures
        r == package_has_film(package@, id@),
{
    let ghost fs = package_films_view(package.films@);
    let mut i: usize = 0;
    while i < package.films.len()
        invariant
            i <= package.films.len(),
            fs == package_films_view(package.films@),
            forall|j: int| 0 <= j < i ==> fs[j].film_id != id@,
        decreases package.films.len() - i,
    {
        proof {
            assert(fs[i as int] == package.films@[i as int]@);
        }
        if package.films[i].film_id.key_eq(id) {
            proof {
                assert(package@.films[i as int].film_id == id@);
            }
            return true;
        }
        i = i + 1;
    }
    proof {
        assert(forall|j: int| 0 <= j < package@.films.len() ==> package@.films[j].film_id != id@);
    }
    false
}

/// The film packages in `packages` containing the given film, in order.
pub fn packages_containing_film(packages: &Vec<FilmPackage>, film_id: &FilmId) -> (r: Vec<
    FilmPackage,
>)
    ensures
        film_packages_view(r@) == film_packages_view(packages@).filter(containing_film(film_id@)),
{
    let ghost vs = film_packages_view(packages@);
    let mut out: Vec<FilmPackage> = Vec::new();
    let mut i: usize = 0;
    while i < packages.len()
        invariant
            i <= packages.len(),
            vs == film_packages_view(packages@),
            film_packages_view(out@) == vs.take(i as int).filter(containing_film(film_id@)),
        decreases packages.len() - i,
    {
        let ghost out0 = film_packages_view(out@);
        let p = &packages[i];
        proof {
            assert(vs[i as int] == packages@[i as int]@);
        }
        let m = package_contains_film(p, film_id);
        proof {
            assert((containing_film(film_id@))(vs[i as int]) == m);
        }
        if m {
            out.push(p.clone());
            proof {
                assert(film_packages_view(out@) =~= out0.push(vs[i as int]));
            }
        }
        proof {
            assert(vs.take(i + 1) =~= vs.take(i as int).push(vs[i as int]));
            lemma_filter_push(vs.take(i as int), vs[i as int], containing_film(film_id@));
        }
        i = i + 1;
    }
    proof {
        assert(vs.take(packages.len() as int) =~= vs);
    }
    out
}

} // verus!

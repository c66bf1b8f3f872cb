//! A screen (auditorium) on a specific Veezi site.

use vstd::prelude::*;

use crate::cache::{CacheKey, CacheValue};
use crate::seqs::{find_first, lemma_find_first_hit, lemma_find_first_none};

verus! {

/// The unique ID of a [`Screen`].
#[derive(Debug, Clone, Copy, PartialEq, Eq, Structural)]
pub struct ScreenId(u32);

impl ScreenId {
    /// Wrap a wire identifier.
    pub fn new(id: u32) -> (r: Self)
        ensures
            r@ == id,
    {
        ScreenId(id)
    }

    /// The numeric ID of this [`ScreenId`].
    pub fn into_u32(self) -> (r: u32)
        ensures
            r == self@,
    {
        self.0
    }
}

impl View for ScreenId {
    type V = u32;

    closed spec fn view(&self) -> u32 {
        self.0
    }
}

impl CacheKey for ScreenId {
    type Repr = u32;

    open spec fn repr(&self) -> u32 {
        self@
    }

    fn key_eq(&self, other: &Self) -> (r: bool) {
        self.0 == other.0
    }

    fn dup(&self) -> (r: Self) {
        *self
    }
}

/// The mathematical value of a [`Screen`].
pub struct ScreenView {
    /// The value of [`Screen::id`].
    pub id: u32,
    /// The value of [`Screen::name`].
    pub name: Seq<char>,
    /// The value of [`Screen::screen_number`].
    pub screen_number: Seq<char>,
    /// The value of [`Screen::has_custom_layout`].
    pub has_custom_layout: bool,
    /// The value of [`Screen::total_seats`].
    pub total_seats: u32,
    /// The value of [`Screen::house_seats`].
    pub house_seats: u32,
}

/// A particular screen (auditorium) in the Veezi system.
#[derive(Debug, PartialEq)]
pub struct Screen {
    /// The unique ID of the screen.
    pub id: ScreenId,
    /// The name of the screen.
    pub name: String,
    /// The screen number as a string.
    pub screen_number: String,
    /// Whether the screen has a custom layout.
    pub has_custom_layout: bool,
    /// The total number of seats in the screen.
    pub total_seats: u32,
    /// The number of house seats in the screen.
    pub house_seats: u32,
}

impl View for Screen {
    type V = ScreenView;

    open spec fn view(&self) -> ScreenView {
        ScreenView {
            id: self.id@,
            name: self.name@,
            screen_number: self.screen_number@,
            has_custom_layout: self.has_custom_layout,
            total_seats: self.total_seats,
            house_seats: self.house_seats,
        }
    }
}

impl Clone for Screen {
    fn clone(&self) -> (r: Self)
        ensures
            r@ == self@,
    {
        Screen {
            id: self.id,
            name: self.name.clone(),
            screen_number: self.screen_number.clone(),
            has_custom_layout: self.has_custom_layout,
            total_seats: self.total_seats,
            house_seats: self.house_seats,
        }
    }
}

impl CacheValue for Screen {
    type Repr = ScreenView;

    open spec fn repr(&self) -> ScreenView {
        self@
    }

    fn dup(&self) -> (r: Self) {
        self.clone()
    }
}

/// The mathematical values of a sequence of [`Screen`]s.
pub open spec fn screens_view(s: Seq<Screen>) -> Seq<ScreenView> {
    s.map_values(|x: Screen| x@)
}

impl CacheValue for Vec<Screen> {
    type Repr = Seq<ScreenView>;

    open spec fn repr(&self) -> Seq<ScreenView> {
        screens_view(self@)
    }

    fn dup(&self) -> (r: Self) {
        let mut out: Vec<Screen> = Vec::new();
        let mut i: usize = 0;
        while i < self.len()
            invariant
                i <= self.len(),
                out@.len() == i,
                forall|j: int| 0 <= j < i ==> out@[j]@ == self@[j]@,
            decreases self.len() - i,
        {
            out.push(self[i].clone());
            i = i + 1;
        }
        proof {
            assert(screens_view(out@) =~= screens_view(self@));
        }
        out
    }
}

} // verus!

verus! {

/// The predicate satisfied by screens with the given screen number.
pub open spec fn screen_with_number(needle: Seq<char>) -> spec_fn(ScreenView) -> bool {
    |v: ScreenView| v.screen_number == needle
}

/// The first screen in `screens` whose screen number equals `needle_text`, if any.
pub fn find_screen_by_number(screens: &Vec<Screen>, needle_text: &str) -> (r: Option<Screen>)
    ensures
        match r {
            Some(x) => find_first(screens_view(screens@), screen_with_number(needle_text@)) == Some(x@),
            None => find_first(screens_view(screens@), screen_with_number(needle_text@)) is None,
        },
{
    let needle: String = needle_text.to_owned();
    let ghost vs = screens_view(screens@);
    let mut i: usize = 0;
    while i < screens.len()
        invariant
            i <= screens.len(),
            needle@ == needle_text@,
            vs == screens_view(screens@),
            forall|j: int| 0 <= j < i ==> !((screen_with_number(needle_text@))(vs[j])),
        decreases screens.len() - i,
    {
        let x = &screens[i];
        proof {
            assert(vs[i as int] == screens@[i as int]@);
        }
        if x.screen_number == needle {
            proof {
                lemma_find_first_hit(vs, screen_with_number(needle_text@), i as int);
            }
            return Some(x.clone());
        }
        i = i + 1;
    }
    proof {
        lemma_find_first_none(vs, screen_with_number(needle_text@));
    }
    None
}

} // verus!

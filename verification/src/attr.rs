//! Attributes that can be associated with sessions and films.

use vstd::prelude::*;

use crate::cache::{CacheKey, CacheValue};
use crate::seqs::{find_first, lemma_find_first_hit, lemma_find_first_none};

verus! {

/// The unique ID of an [`Attribute`].
#[derive(Debug)]
pub struct AttributeId(String);

impl AttributeId {
    /// Wrap a wire identifier.
    pub fn new(id: String) -> (r: Self)
        ensures
            r@ == id@,
    {
        AttributeId(id)
    }

    /// The string representation of this [`AttributeId`].
    pub fn as_str(&self) -> (r: &str)
        ensures
            r@ == self@,
    {
        self.0.as_str()
    }
}

impl View for AttributeId {
    type V = Seq<char>;

    closed spec fn view(&self) -> Seq<char> {
        self.0@
    }
}

impl Clone for AttributeId {
    fn clone(&self) -> (r: Self)
        ensures
            r@ == self@,
    {
        AttributeId(self.0.clone())
    }
}

impl PartialEq for AttributeId {
    fn eq(&self, other: &Self) -> (r: bool) {
        self.0 == other.0
    }
}

impl vstd::std_specs::cmp::PartialEqSpecImpl for AttributeId {
    open spec fn obeys_eq_spec() -> bool {
        true
    }

    open spec fn eq_spec(&self, other: &Self) -> bool {
        self@ == other@
    }
}

impl CacheKey for AttributeId {
    type Repr = Seq<char>;

    open spec fn repr(&self) -> Seq<char> {
        self@
    }

    fn key_eq(&self, other: &Self) -> (r: bool) {
        self.0 == other.0
    }

    fn dup(&self) -> (r: Self) {
        AttributeId(self.0.clone())
    }
}

/// The mathematical value of an [`Attribute`].
pub struct AttributeView {
    /// The value of [`Attribute::id`].
    pub id: Seq<char>,
    /// The value of [`Attribute::description`].
    pub description: Seq<char>,
    /// The value of [`Attribute::short_name`].
    pub short_name: Seq<char>,
    /// The value of [`Attribute::font_color`].
    pub font_color: Seq<char>,
    /// The value of [`Attribute::background_color`].
    pub background_color: Seq<char>,
    /// The value of [`Attribute::show_on_sessions_with_no_comps`].
    pub show_on_sessions_with_no_comps: bool,
}

/// An attribute that can be associated with sessions.
#[derive(Debug, PartialEq)]
pub struct Attribute {
    /// The unique ID of the attribute.
    pub id: AttributeId,
    /// The name of the attribute.
    pub description: String,
    /// The short name of the attribute.
    pub short_name: String,
    /// The font color associated with the attribute (hex code).
    pub font_color: String,
    /// The background color associated with the attribute (hex code).
    pub background_color: String,
    /// Whether to show this attribute on sessions that have no
    /// complimentary tickets.
    pub show_on_sessions_with_no_comps: bool,
}

impl View for Attribute {
    type V = AttributeView;

    open spec fn view(&self) -> AttributeView {
        AttributeView {
            id: self.id@,
            description: self.description@,
            short_name: self.short_name@,
            font_color: self.font_color@,
            background_color: self.background_color@,
            show_on_sessions_with_no_comps: self.show_on_sessions_with_no_comps,
        }
    }
}

impl Clone for Attribute {
    fn clone(&self) -> (r: Self)
        ensures
            r@ == self@,
    {
        Attribute {
            id: self.id.clone(),
            description: self.description.clone(),
            short_name: self.short_name.clone(),
            font_color: self.font_color.clone(),
            background_color: self.background_color.clone(),
            show_on_sessions_with_no_comps: self.show_on_sessions_with_no_comps,
        }
    }
}

impl CacheValue for Attribute {
    type Repr = AttributeView;

    open spec fn repr(&self) -> AttributeView {
        self@
    }

    fn dup(&self) -> (r: Self) {
        self.clone()
    }
}

/// The mathematical values of a sequence of [`Attribute`]s.
pub open spec fn attributes_view(s: Seq<Attribute>) -> Seq<AttributeView> {
    s.map_values(|a: Attribute| a@)
}

impl CacheValue for Vec<Attribute> {
    type Repr = Seq<AttributeView>;

    open spec fn repr(&self) -> Seq<AttributeView> {
        attributes_view(self@)
    }

    fn dup(&self) -> (r: Self) {
        let mut out: Vec<Attribute> = Vec::new();
        let mut i: usize = 0;
        while i < self.len()
            invariant
                i <= self.len(),
                out@.len() == i,
                forall|j: int| 0 <= j < i ==> out@[j]@ == self@[j]@,
            decreases self.len() - i,
        {
            out.push(self[i].clone());
            i = i + 1;
        }
        proof {
            assert(attributes_view(out@) =~= attributes_view(self@));
        }
        out
    }
}

} // verus!

verus! {

/// The predicate satisfied by attributes with the given short name.
pub open spec fn attribute_with_short_name(needle: Seq<char>) -> spec_fn(AttributeView) -> bool {
    |v: AttributeView| v.short_name == needle
}

/// The predicate satisfied by attributes with the given description.
pub open spec fn attribute_with_description(needle: Seq<char>) -> spec_fn(AttributeView) -> bool {
    |v: AttributeView| v.description == needle
}

/// The first attribute in `attributes` whose short name equals `needle_text`, if any.
pub fn find_attribute_by_short_name(attributes: &Vec<Attribute>, needle_text: &str) -> (r: Option<Attribute>)
    ensures
        match r {
            Some(x) => find_first(attributes_view(attributes@), attribute_with_short_name(needle_text@)) == Some(x@),
            None => find_first(attributes_view(attributes@), attribute_with_short_name(needle_text@)) is None,
        },
{
    let needle: String = needle_text.to_owned();
    let ghost vs = attributes_view(attributes@);
    let mut i: usize = 0;
    while i < attributes.len()
        invariant
            i <= attributes.len(),
            needle@ == needle_text@,
            vs == attributes_view(attributes@),
            forall|j: int| 0 <= j < i ==> !((attribute_with_short_name(needle_text@))(vs[j])),
        decreases attributes.len() - i,
    {
        let x = &attributes[i];
        proof {
            assert(vs[i as int] == attributes@[i as int]@);
        }
        if x.short_name == needle {
            proof {
                lemma_find_first_hit(vs, attribute_with_short_name(needle_text@), i as int);
            }
            return Some(x.clone());
        }
        i = i + 1;
    }
    proof {
        lemma_find_first_none(vs, attribute_with_short_name(needle_text@));
    }
    None
}

/// The first attribute in `attributes` whose description equals `needle_text`, if any.
pub fn find_attribute_by_description(attributes: &Vec<Attribute>, needle_text: &str) -> (r: Option<Attribute>)
    ensures
        match r {
            Some(x) => find_first(attributes_view(attributes@), attribute_with_description(needle_text@)) == Some(x@),
            None => find_first(attributes_view(attributes@), attribute_with_description(needle_text@)) is None,
        },
{
    let needle: String = needle_text.to_owned();
    let ghost vs = attributes_view(attributes@);
    let mut i: usize = 0;
    while i < attributes.len()
        invariant
            i <= attributes.len(),
            needle@ == needle_text@,
            vs == attributes_view(attributes@),
            forall|j: int| 0 <= j < i ==> !((attribute_with_description(needle_text@))(vs[j])),
        decreases attributes.len() - i,
    {
        let x = &attributes[i];
        proof {
            assert(vs[i as int] == attributes@[i as int]@);
        }
        if x.description == needle {
            proof {
                lemma_find_first_hit(vs, attribute_with_description(needle_text@), i as int);
            }
            return Some(x.clone());
        }
        i = i + 1;
    }
    proof {
        lemma_find_first_none(vs, attribute_with_description(needle_text@));
    }
    None
}

} // verus!

//! A particular site, or screening location.

use vstd::prelude::*;

use crate::cache::CacheValue;
use crate::text::{clone_opt_string, opt_str_view};

verus! {

/// The mathematical value of a [`Site`].
pub struct SiteView {
    /// The value of [`Site::name`].
    pub name: Seq<char>,
    /// The value of [`Site::short_name`].
    pub short_name: Seq<char>,
    /// The value of [`Site::legal_name`].
    pub legal_name: Seq<char>,
    /// The value of [`Site::national_code`].
    pub national_code: Option<Seq<char>>,
    /// The value of [`Site::address_1`].
    pub address_1: Option<Seq<char>>,
    /// The value of [`Site::address_2`].
    pub address_2: Option<Seq<char>>,
    /// The value of [`Site::address_3`].
    pub address_3: Option<Seq<char>>,
    /// The value of [`Site::post_code`].
    pub post_code: Option<Seq<char>>,
    /// The value of [`Site::phone_1`].
    pub phone_1: Option<Seq<char>>,
    /// The value of [`Site::phone_2`].
    pub phone_2: Option<Seq<char>>,
    /// The value of [`Site::fax`].
    pub fax: Option<Seq<char>>,
    /// The value of [`Site::sales_tax_registration`].
    pub sales_tax_registration: Option<Seq<char>>,
    /// The value of [`Site::ticket_message_1`].
    pub ticket_message_1: Option<Seq<char>>,
    /// The value of [`Site::ticket_message_2`].
    pub ticket_message_2: Option<Seq<char>>,
    /// The value of [`Site::receipt_message_1`].
    pub receipt_message_1: Option<Seq<char>>,
    /// The value of [`Site::receipt_message_2`].
    pub receipt_message_2: Option<Seq<char>>,
    /// The value of [`Site::receipt_message_3`].
    pub receipt_message_3: Option<Seq<char>>,
    /// The value of [`Site::receipt_message_4`].
    pub receipt_message_4: Option<Seq<char>>,
    /// The value of [`Site::receipt_message_5`].
    pub receipt_message_5: Option<Seq<char>>,
    /// The value of [`Site::receipt_message_6`].
    pub receipt_message_6: Option<Seq<char>>,
    /// The value of [`Site::time_zone_identifier`].
    pub time_zone_identifier: Seq<char>,
    /// The value of [`Site::country`].
    pub country: Seq<char>,
    /// The values of [`Site::screens`].
    pub screens: Seq<u32>,
}

/// Information about the current Veezi site.
#[derive(Debug, PartialEq)]
pub struct Site {
    /// The name of the site.
    pub name: String,
    /// The short name of the site.
    pub short_name: String,
    /// The legal name of the site.
    pub legal_name: String,
    /// The national code of the site.
    pub national_code: Option<String>,
    /// Line 1 of the site's address.
    pub address_1: Option<String>,
    /// Line 2 of the site's address.
    pub address_2: Option<String>,
    /// Line 3 of the site's address.
    pub address_3: Option<String>,
    /// The site's postal code.
    pub post_code: Option<String>,
    /// The site's primary phone number.
    pub phone_1: Option<String>,
    /// The site's secondary phone number.
    pub phone_2: Option<String>,
    /// The site's fax number.
    pub fax: Option<String>,
    /// The site's sales tax registration number.
    pub sales_tax_registration: Option<String>,
    /// Line 1 of the site's ticket message.
    pub ticket_message_1: Option<String>,
    /// Line 2 of the site's ticket message.
    pub ticket_message_2: Option<String>,
    /// Line 1 of the site's receipt message.
    pub receipt_message_1: Option<String>,
    /// Line 2 of the site's receipt message.
    pub receipt_message_2: Option<String>,
    /// Line 3 of the site's receipt message.
    pub receipt_message_3: Option<String>,
    /// Line 4 of the site's receipt message.
    pub receipt_message_4: Option<String>,
    /// Line 5 of the site's receipt message.
    pub receipt_message_5: Option<String>,
    /// Line 6 of the site's receipt message.
    pub receipt_message_6: Option<String>,
    /// The time zone identifier for the site.
    pub time_zone_identifier: String,
    /// The country where the site is located.
    pub country: String,
    /// The list of screen IDs associated with the site.
    pub screens: Vec<u32>,
}

impl View for Site {
    type V = SiteView;

    open spec fn view(&self) -> SiteView {
        SiteView {
            name: self.name@,
            short_name: self.short_name@,
            legal_name: self.legal_name@,
            national_code: opt_str_view(self.national_code),
            address_1: opt_str_view(self.address_1),
            address_2: opt_str_view(self.address_2),
            address_3: opt_str_view(self.address_3),
            post_code: opt_str_view(self.post_code),
            phone_1: opt_str_view(self.phone_1),
            phone_2: opt_str_view(self.phone_2),
            fax: opt_str_view(self.fax),
            sales_tax_registration: opt_str_view(self.sales_tax_registration),
            ticket_message_1: opt_str_view(self.ticket_message_1),
            ticket_message_2: opt_str_view(self.ticket_message_2),
            receipt_message_1: opt_str_view(self.receipt_message_1),
            receipt_message_2: opt_str_view(self.receipt_message_2),
            receipt_message_3: opt_str_view(self.receipt_message_3),
            receipt_message_4: opt_str_view(self.receipt_message_4),
            receipt_message_5: opt_str_view(self.receipt_message_5),
            receipt_message_6: opt_str_view(self.receipt_message_6),
            time_zone_identifier: self.time_zone_identifier@,
            country: self.country@,
            screens: self.screens@,
        }
    }
}

impl Clone for Site {
    fn clone(&self) -> (r: Self)
        ensures
            r@ == self@,
    {
        let mut screens: Vec<u32> = Vec::new();
        let mut i: usize = 0;
        while i < self.screens.len()
            invariant
                i <= self.screens.len(),
                screens@.len() == i,
                forall|j: int| 0 <= j < i ==> screens@[j] == self.screens@[j],
            decreases self.screens.len() - i,
        {
            screens.push(self.screens[i]);
            i = i + 1;
        }
        proof {
            assert(screens@ =~= self.screens@);
        }
        Site {
            name: self.name.clone(),
            short_name: self.short_name.clone(),
            legal_name: self.legal_name.clone(),
            national_code: clone_opt_string(&self.national_code),
            address_1: clone_opt_string(&self.address_1),
            address_2: clone_opt_string(&self.address_2),
            address_3: clone_opt_string(&self.address_3),
            post_code: clone_opt_string(&self.post_code),
            phone_1: clone_opt_string(&self.phone_1),
            phone_2: clone_opt_string(&self.phone_2),
            fax: clone_opt_string(&self.fax),
            sales_tax_registration: clone_opt_string(&self.sales_tax_registration),
            ticket_message_1: clone_opt_string(&self.ticket_message_1),
            ticket_message_2: clone_opt_string(&self.ticket_message_2),
            receipt_message_1: clone_opt_string(&self.receipt_message_1),
            receipt_message_2: clone_opt_string(&self.receipt_message_2),
            receipt_message_3: clone_opt_string(&self.receipt_message_3),
            receipt_message_4: clone_opt_string(&self.receipt_message_4),
            receipt_message_5: clone_opt_string(&self.receipt_message_5),
            receipt_message_6: clone_opt_string(&self.receipt_message_6),
            time_zone_identifier: self.time_zone_identifier.clone(),
            country: self.country.clone(),
            screens,
        }
    }
}

impl CacheValue for Site {
    type Repr = SiteView;

    open spec fn repr(&self) -> SiteView {
        self@
    }

    fn dup(&self) -> (r: Self) {
        self.clone()
    }
}

} // verus!

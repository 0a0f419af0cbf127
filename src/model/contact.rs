use vstd::prelude::*;

use crate::collection::XmlRecord;
use crate::error::DecodeError;
use crate::fields::{attr_or_empty, read_token};
use crate::xml::{
    ElementView, XmlElement, lemma_lookup_concat, lemma_lookup_written, lemma_view_of, pairs,
    written,
};

verus! {

/// How to reach the maker of the software that wrote a document.
#[derive(Debug, PartialEq, Eq)]
pub struct Contact {
    pub name: String,
    pub country: String,
    pub email: String,
    pub internet: String,
}

impl XmlRecord for Contact {
    open spec fn spec_item_tag() -> Seq<char> {
        "CONTACT"@
    }

    open spec fn written_as(x: Self, e: ElementView) -> bool {
        &&& e.name == "CONTACT"@
        &&& e.attributes == written("name"@, x.name@)
            + written("country"@, x.country@)
            + written("email"@, x.email@)
            + written("internet"@, x.internet@)
        &&& e.children.len() == 0
    }

    open spec fn readable(e: ElementView) -> bool {
        true
    }

    open spec fn read_error(e: ElementView) -> DecodeError {
        DecodeError::MalformedXml
    }

    open spec fn read_as(e: ElementView, x: Self) -> bool {
        &&& x.name@ == attr_or_empty(e, "name"@)
        &&& x.country@ == attr_or_empty(e, "country"@)
        &&& x.email@ == attr_or_empty(e, "email"@)
        &&& x.internet@ == attr_or_empty(e, "internet"@)
    }

    open spec fn same(x: Self, y: Self) -> bool {
        &&& x.name@ == y.name@
        &&& x.country@ == y.country@
        &&& x.email@ == y.email@
        &&& x.internet@ == y.internet@
    }

    open spec fn faithful(x: Self) -> bool {
        true
    }

    proof fn lemma_round_trip(x: Self, e: ElementView, y: Self) {
        reveal_strlit("country");
        assert("country"@.len() == 7);
        reveal_strlit("email");
        assert("email"@.len() == 5);
        reveal_strlit("internet");
        assert("internet"@.len() == 8);
        reveal_strlit("name");
        assert("name"@.len() == 4);
        let w0 = written("name"@, x.name@);
        let w1 = written("country"@, x.country@);
        let w2 = written("email"@, x.email@);
        let w3 = written("internet"@, x.internet@);
        assert(e.attributes == w0 + w1 + w2 + w3);
        lemma_lookup_concat(w0 + w1 + w2, w3, "name"@);
        lemma_lookup_concat(w0 + w1, w2, "name"@);
        lemma_lookup_concat(w0, w1, "name"@);
        lemma_lookup_written("name"@, x.name@, "name"@);
        lemma_lookup_written("country"@, x.country@, "name"@);
        lemma_lookup_written("email"@, x.email@, "name"@);
        lemma_lookup_written("internet"@, x.internet@, "name"@);
        lemma_lookup_concat(w0 + w1 + w2, w3, "country"@);
        lemma_lookup_concat(w0 + w1, w2, "country"@);
        lemma_lookup_concat(w0, w1, "country"@);
        lemma_lookup_written("name"@, x.name@, "country"@);
        lemma_lookup_written("country"@, x.country@, "country"@);
        lemma_lookup_written("email"@, x.email@, "country"@);
        lemma_lookup_written("internet"@, x.internet@, "country"@);
        lemma_lookup_concat(w0 + w1 + w2, w3, "email"@);
        lemma_lookup_concat(w0 + w1, w2, "email"@);
        lemma_lookup_concat(w0, w1, "email"@);
        lemma_lookup_written("name"@, x.name@, "email"@);
        lemma_lookup_written("country"@, x.country@, "email"@);
        lemma_lookup_written("email"@, x.email@, "email"@);
        lemma_lookup_written("internet"@, x.internet@, "email"@);
        lemma_lookup_concat(w0 + w1 + w2, w3, "internet"@);
        lemma_lookup_concat(w0 + w1, w2, "internet"@);
        lemma_lookup_concat(w0, w1, "internet"@);
        lemma_lookup_written("name"@, x.name@, "internet"@);
        lemma_lookup_written("country"@, x.country@, "internet"@);
        lemma_lookup_written("email"@, x.email@, "internet"@);
        lemma_lookup_written("internet"@, x.internet@, "internet"@);
        if x.name@.len() == 0 {
            assert(x.name@ =~= Seq::<char>::empty());
        }
        if x.country@.len() == 0 {
            assert(x.country@ =~= Seq::<char>::empty());
        }
        if x.email@.len() == 0 {
            assert(x.email@ =~= Seq::<char>::empty());
        }
        if x.internet@.len() == 0 {
            assert(x.internet@ =~= Seq::<char>::empty());
        }
    }

    fn item_tag() -> (r: &'static str) {
        "CONTACT"
    }

    fn to_element(&self) -> (r: XmlElement) {
        let mut e = XmlElement::new("CONTACT");
        e.push_attribute("name", self.name.clone());
        e.push_attribute("country", self.country.clone());
        e.push_attribute("email", self.email.clone());
        e.push_attribute("internet", self.internet.clone());
        assert(pairs(e.attributes@) =~= written("name"@, self.name@)
            + written("country"@, self.country@)
            + written("email"@, self.email@)
            + written("internet"@, self.internet@));
        proof {
            lemma_view_of(e);
        }
        e
    }

    fn from_element(e: &XmlElement) -> (r: Result<Contact, DecodeError>) {
        let name = String::from_str(read_token(e, "name"));
        let country = String::from_str(read_token(e, "country"));
        let email = String::from_str(read_token(e, "email"));
        let internet = String::from_str(read_token(e, "internet"));
        Ok(Contact { name, country, email, internet })
    }
}

impl Contact {
    /// A value with every field at its default: zero, empty, absent, or the
    /// neutral variant.
    pub fn empty() -> (r: Contact)
        ensures
            r.name@.len() == 0,
            r.country@.len() == 0,
            r.email@.len() == 0,
            r.internet@.len() == 0,
    {
        Contact {
            name: String::new(),
            country: String::new(),
            email: String::new(),
            internet: String::new(),
        }
    }
}

impl Default for Contact {
    fn default() -> (r: Contact)
        ensures
            r.name@.len() == 0,
            r.country@.len() == 0,
            r.email@.len() == 0,
            r.internet@.len() == 0,
    {
        Contact::empty()
    }
}

} // verus!

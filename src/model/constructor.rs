use vstd::prelude::*;

use crate::collection::XmlRecord;
use crate::error::DecodeError;
use crate::fields::{attr_or_empty, read_token};
use crate::model::Contact;
use crate::xml::{
    ElementView, XmlElement, child, lemma_first_named_at, lemma_lookup_concat,
    lemma_lookup_written, lemma_view_of, pairs, written,
};

verus! {

/// The software that wrote a document.
#[derive(Debug, PartialEq, Eq)]
pub struct Constructor {
    pub name: String,
    pub registration: String,
    pub version: String,
    pub contact: Contact,
}

impl XmlRecord for Constructor {
    open spec fn spec_item_tag() -> Seq<char> {
        "CONSTRUCTOR"@
    }

    open spec fn written_as(x: Self, e: ElementView) -> bool {
        &&& e.name == "CONSTRUCTOR"@
        &&& e.attributes == written("name"@, x.name@)
            + written("registration"@, x.registration@)
            + written("version"@, x.version@)
        &&& e.children.len() == 1int
        &&& Contact::written_as(x.contact, e.children[0])
    }

    open spec fn readable(e: ElementView) -> bool {
        &&& child(e, "CONTACT"@) matches Some(c) && Contact::readable(c)
    }

    open spec fn read_error(e: ElementView) -> DecodeError {
        if !(child(e, "CONTACT"@) matches Some(c) && Contact::readable(c)) {
            match child(e, "CONTACT"@) {
                Some(c) => Contact::read_error(c),
                None => DecodeError::MissingElement,
            }
        } else {
            DecodeError::MalformedXml
        }
    }

    open spec fn read_as(e: ElementView, x: Self) -> bool {
        &&& x.name@ == attr_or_empty(e, "name"@)
        &&& x.registration@ == attr_or_empty(e, "registration"@)
        &&& x.version@ == attr_or_empty(e, "version"@)
        &&& child(e, "CONTACT"@) matches Some(c) && Contact::read_as(c, x.contact)
    }

    open spec fn same(x: Self, y: Self) -> bool {
        &&& x.name@ == y.name@
        &&& x.registration@ == y.registration@
        &&& x.version@ == y.version@
        &&& Contact::same(x.contact, y.contact)
    }

    open spec fn faithful(x: Self) -> bool {
        &&& Contact::faithful(x.contact)
    }

    proof fn lemma_round_trip(x: Self, e: ElementView, y: Self) {
        reveal_strlit("CONTACT");
        assert("CONTACT"@.len() == 7);
        assert("CONTACT"@[0] == 'C');
        reveal_strlit("name");
        assert("name"@.len() == 4);
        reveal_strlit("registration");
        assert("registration"@.len() == 12);
        reveal_strlit("version");
        assert("version"@.len() == 7);
        assert("version"@[0] == 'v');
        let w0 = written("name"@, x.name@);
        let w1 = written("registration"@, x.registration@);
        let w2 = written("version"@, x.version@);
        assert(e.attributes == w0 + w1 + w2);
        lemma_lookup_concat(w0 + w1, w2, "name"@);
        lemma_lookup_concat(w0, w1, "name"@);
        lemma_lookup_written("name"@, x.name@, "name"@);
        lemma_lookup_written("registration"@, x.registration@, "name"@);
        lemma_lookup_written("version"@, x.version@, "name"@);
        lemma_lookup_concat(w0 + w1, w2, "registration"@);
        lemma_lookup_concat(w0, w1, "registration"@);
        lemma_lookup_written("name"@, x.name@, "registration"@);
        lemma_lookup_written("registration"@, x.registration@, "registration"@);
        lemma_lookup_written("version"@, x.version@, "registration"@);
        lemma_lookup_concat(w0 + w1, w2, "version"@);
        lemma_lookup_concat(w0, w1, "version"@);
        lemma_lookup_written("name"@, x.name@, "version"@);
        lemma_lookup_written("registration"@, x.registration@, "version"@);
        lemma_lookup_written("version"@, x.version@, "version"@);
        if x.name@.len() == 0 {
            assert(x.name@ =~= Seq::<char>::empty());
        }
        if x.registration@.len() == 0 {
            assert(x.registration@ =~= Seq::<char>::empty());
        }
        if x.version@.len() == 0 {
            assert(x.version@ =~= Seq::<char>::empty());
        }
        assert forall|j: int| 0 <= j < 0 implies (#[trigger] e.children[j]).name != "CONTACT"@ by {
            
        }
        lemma_first_named_at(e.children, "CONTACT"@, 0);
        Contact::lemma_round_trip(x.contact, e.children[0], y.contact);
    }

    fn item_tag() -> (r: &'static str) {
        "CONSTRUCTOR"
    }

    fn to_element(&self) -> (r: XmlElement) {
        let mut e = XmlElement::new("CONSTRUCTOR");
        e.push_attribute("name", self.name.clone());
        e.push_attribute("registration", self.registration.clone());
        e.push_attribute("version", self.version.clone());
        e.children.push(self.contact.to_element());
        assert(pairs(e.attributes@) =~= written("name"@, self.name@)
            + written("registration"@, self.registration@)
            + written("version"@, self.version@));
        proof {
            lemma_view_of(e);
        }
        e
    }

    fn from_element(e: &XmlElement) -> (r: Result<Constructor, DecodeError>) {
        let name = String::from_str(read_token(e, "name"));
        let registration = String::from_str(read_token(e, "registration"));
        let version = String::from_str(read_token(e, "version"));
        let contact = match e.child("CONTACT") {
            Some(c) => Contact::from_element(c)?,
            None => {
                return Err(DecodeError::MissingElement);
            },
        };
        Ok(Constructor { name, registration, version, contact })
    }
}

impl Constructor {
    /// A value with every field at its default: zero, empty, absent, or the
    /// neutral variant.
    pub fn empty() -> (r: Constructor)
        ensures
            r.name@.len() == 0,
            r.registration@.len() == 0,
            r.version@.len() == 0,
    {
        Constructor {
            name: String::new(),
            registration: String::new(),
            version: String::new(),
            contact: Contact::empty(),
        }
    }
}

impl Default for Constructor {
    fn default() -> (r: Constructor)
        ensures
            r.name@.len() == 0,
            r.registration@.len() == 0,
            r.version@.len() == 0,
    {
        Constructor::empty()
    }
}

} // verus!

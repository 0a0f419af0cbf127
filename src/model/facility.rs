use vstd::prelude::*;

use crate::collection::XmlRecord;
use crate::error::DecodeError;
use crate::fields::{attr_or_empty, read_token};
use crate::xml::{
    ElementView, XmlElement, lemma_lookup_concat, lemma_lookup_written, lemma_view_of, pairs,
    written,
};

verus! {

/// Where a meet takes place.
#[derive(Debug, PartialEq, Eq)]
pub struct Facility {
    pub city: String,
    pub name: String,
    pub nation: String,
}

impl XmlRecord for Facility {
    open spec fn spec_item_tag() -> Seq<char> {
        "FACILITY"@
    }

    open spec fn written_as(x: Self, e: ElementView) -> bool {
        &&& e.name == "FACILITY"@
        &&& e.attributes == written("city"@, x.city@)
            + written("name"@, x.name@)
            + written("nation"@, x.nation@)
        &&& e.children.len() == 0
    }

    open spec fn readable(e: ElementView) -> bool {
        true
    }

    open spec fn read_error(e: ElementView) -> DecodeError {
        DecodeError::MalformedXml
    }

    open spec fn read_as(e: ElementView, x: Self) -> bool {
        &&& x.city@ == attr_or_empty(e, "city"@)
        &&& x.name@ == attr_or_empty(e, "name"@)
        &&& x.nation@ == attr_or_empty(e, "nation"@)
    }

    open spec fn same(x: Self, y: Self) -> bool {
        &&& x.city@ == y.city@
        &&& x.name@ == y.name@
        &&& x.nation@ == y.nation@
    }

    open spec fn faithful(x: Self) -> bool {
        true
    }

    proof fn lemma_round_trip(x: Self, e: ElementView, y: Self) {
        reveal_strlit("city");
        assert("city"@.len() == 4);
        assert("city"@[0] == 'c');
        reveal_strlit("name");
        assert("name"@.len() == 4);
        assert("name"@[0] == 'n');
        reveal_strlit("nation");
        assert("nation"@.len() == 6);
        let w0 = written("city"@, x.city@);
        let w1 = written("name"@, x.name@);
        let w2 = written("nation"@, x.nation@);
        assert(e.attributes == w0 + w1 + w2);
        lemma_lookup_concat(w0 + w1, w2, "city"@);
        lemma_lookup_concat(w0, w1, "city"@);
        lemma_lookup_written("city"@, x.city@, "city"@);
        lemma_lookup_written("name"@, x.name@, "city"@);
        lemma_lookup_written("nation"@, x.nation@, "city"@);
        lemma_lookup_concat(w0 + w1, w2, "name"@);
        lemma_lookup_concat(w0, w1, "name"@);
        lemma_lookup_written("city"@, x.city@, "name"@);
        lemma_lookup_written("name"@, x.name@, "name"@);
        lemma_lookup_written("nation"@, x.nation@, "name"@);
        lemma_lookup_concat(w0 + w1, w2, "nation"@);
        lemma_lookup_concat(w0, w1, "nation"@);
        lemma_lookup_written("city"@, x.city@, "nation"@);
        lemma_lookup_written("name"@, x.name@, "nation"@);
        lemma_lookup_written("nation"@, x.nation@, "nation"@);
        if x.city@.len() == 0 {
            assert(x.city@ =~= Seq::<char>::empty());
        }
        if x.name@.len() == 0 {
            assert(x.name@ =~= Seq::<char>::empty());
        }
        if x.nation@.len() == 0 {
            assert(x.nation@ =~= Seq::<char>::empty());
        }
    }

    fn item_tag() -> (r: &'static str) {
        "FACILITY"
    }

    fn to_element(&self) -> (r: XmlElement) {
        let mut e = XmlElement::new("FACILITY");
        e.push_attribute("city", self.city.clone());
        e.push_attribute("name", self.name.clone());
        e.push_attribute("nation", self.nation.clone());
        assert(pairs(e.attributes@) =~= written("city"@, self.city@)
            + written("name"@, self.name@)
            + written("nation"@, self.nation@));
        proof {
            lemma_view_of(e);
        }
        e
    }

    fn from_element(e: &XmlElement) -> (r: Result<Facility, DecodeError>) {
        let city = String::from_str(read_token(e, "city"));
        let name = String::from_str(read_token(e, "name"));
        let nation = String::from_str(read_token(e, "nation"));
        Ok(Facility { city, name, nation })
    }
}

impl Facility {
    /// A value with every field at its default: zero, empty, absent, or the
    /// neutral variant.
    pub fn empty() -> (r: Facility)
        ensures
            r.city@.len() == 0,
            r.name@.len() == 0,
            r.nation@.len() == 0,
    {
        Facility {
            city: String::new(),
            name: String::new(),
            nation: String::new(),
        }
    }
}

impl Default for Facility {
    fn default() -> (r: Facility)
        ensures
            r.city@.len() == 0,
            r.name@.len() == 0,
            r.nation@.len() == 0,
    {
        Facility::empty()
    }
}

} // verus!

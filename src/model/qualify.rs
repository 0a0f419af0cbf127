use vstd::prelude::*;

use crate::collection::XmlRecord;
use crate::error::DecodeError;
use crate::fields::{date_attr, date_of, err_of, read_date};
use crate::time::{Date, chrono_date_fields, date_text_of};
use crate::xml::{ElementView, XmlElement, lemma_lookup_written, lemma_view_of, pairs, written};

verus! {

/// The date from which qualifying times count.
#[derive(Debug, PartialEq, Eq)]
pub struct Qualify {
    pub from: Date,
}

impl XmlRecord for Qualify {
    open spec fn spec_item_tag() -> Seq<char> {
        "QUALIFY"@
    }

    open spec fn written_as(x: Self, e: ElementView) -> bool {
        &&& e.name == "QUALIFY"@
        &&& e.attributes == written("from"@, date_text_of(x.from))
        &&& e.children.len() == 0
    }

    open spec fn readable(e: ElementView) -> bool {
        &&& date_attr(e, "from"@) is Ok
    }

    open spec fn read_error(e: ElementView) -> DecodeError {
        if date_attr(e, "from"@) is Err {
            err_of(date_attr(e, "from"@))
        } else {
            DecodeError::MalformedXml
        }
    }

    open spec fn read_as(e: ElementView, x: Self) -> bool {
        &&& date_attr(e, "from"@) == Ok::<(i32, u32, u32), DecodeError>(date_of(x.from))
    }

    open spec fn same(x: Self, y: Self) -> bool {
        &&& date_of(x.from) == date_of(y.from)
    }

    open spec fn faithful(x: Self) -> bool {
        &&& chrono_date_fields(date_text_of(x.from)) == Some(date_of(x.from))
    }

    proof fn lemma_round_trip(x: Self, e: ElementView, y: Self) {
        reveal_strlit("from");
        assert("from"@.len() == 4);
        let w0 = written("from"@, date_text_of(x.from));
        assert(e.attributes == w0);
        lemma_lookup_written("from"@, date_text_of(x.from), "from"@);
    }

    fn item_tag() -> (r: &'static str) {
        "QUALIFY"
    }

    fn to_element(&self) -> (r: XmlElement) {
        let mut e = XmlElement::new("QUALIFY");
        e.push_attribute("from", self.from.encode());
        assert(pairs(e.attributes@) =~= written("from"@, date_text_of(self.from)));
        proof {
            lemma_view_of(e);
        }
        e
    }

    fn from_element(e: &XmlElement) -> (r: Result<Qualify, DecodeError>) {
        let from = read_date(e, "from")?;
        Ok(Qualify { from })
    }
}

impl Qualify {
    /// A value with every field at its default: zero, empty, absent, or the
    /// neutral variant.
    pub fn empty() -> (r: Qualify)
        ensures
            date_of(r.from) == (1970i32, 1u32, 1u32),
    {
        Qualify {
            from: Date::epoch(),
        }
    }
}

impl Default for Qualify {
    fn default() -> (r: Qualify)
        ensures
            date_of(r.from) == (1970i32, 1u32, 1u32),
    {
        Qualify::empty()
    }
}

} // verus!

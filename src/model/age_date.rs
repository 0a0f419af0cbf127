use vstd::prelude::*;

use crate::collection::XmlRecord;
use crate::error::DecodeError;
use crate::fields::{attr_or_empty, date_attr, date_of, err_of, read_date, read_token};
use crate::time::{Date, chrono_date_fields, date_text_of};
use crate::model::AgeDateType;
use crate::xml::{
    ElementView, XmlElement, lemma_lookup_concat, lemma_lookup_written, lemma_view_of, pairs,
    written,
};

verus! {

/// The date that ages are computed at, and how.
#[derive(Debug, PartialEq, Eq)]
pub struct AgeDate {
    pub value: Date,
    pub age_date_type: AgeDateType,
}

impl XmlRecord for AgeDate {
    open spec fn spec_item_tag() -> Seq<char> {
        "AGEDATE"@
    }

    open spec fn written_as(x: Self, e: ElementView) -> bool {
        &&& e.name == "AGEDATE"@
        &&& e.attributes == written("value"@, date_text_of(x.value))
            + written("type"@, x.age_date_type.spec_token())
        &&& e.children.len() == 0
    }

    open spec fn readable(e: ElementView) -> bool {
        &&& date_attr(e, "value"@) is Ok
    }

    open spec fn read_error(e: ElementView) -> DecodeError {
        if date_attr(e, "value"@) is Err {
            err_of(date_attr(e, "value"@))
        } else {
            DecodeError::MalformedXml
        }
    }

    open spec fn read_as(e: ElementView, x: Self) -> bool {
        &&& date_attr(e, "value"@) == Ok::<(i32, u32, u32), DecodeError>(date_of(x.value))
        &&& x.age_date_type == AgeDateType::spec_from_token(attr_or_empty(e, "type"@))
    }

    open spec fn same(x: Self, y: Self) -> bool {
        &&& date_of(x.value) == date_of(y.value)
        &&& x.age_date_type == y.age_date_type
    }

    open spec fn faithful(x: Self) -> bool {
        &&& chrono_date_fields(date_text_of(x.value)) == Some(date_of(x.value))
    }

    proof fn lemma_round_trip(x: Self, e: ElementView, y: Self) {
        reveal_strlit("type");
        assert("type"@.len() == 4);
        reveal_strlit("value");
        assert("value"@.len() == 5);
        let w0 = written("value"@, date_text_of(x.value));
        let w1 = written("type"@, x.age_date_type.spec_token());
        assert(e.attributes == w0 + w1);
        lemma_lookup_concat(w0, w1, "value"@);
        lemma_lookup_written("value"@, date_text_of(x.value), "value"@);
        lemma_lookup_written("type"@, x.age_date_type.spec_token(), "value"@);
        lemma_lookup_concat(w0, w1, "type"@);
        lemma_lookup_written("value"@, date_text_of(x.value), "type"@);
        lemma_lookup_written("type"@, x.age_date_type.spec_token(), "type"@);
        AgeDateType::lemma_token_round_trip(x.age_date_type);
        if x.age_date_type.spec_token().len() == 0 {
            assert(x.age_date_type.spec_token() =~= Seq::<char>::empty());
        }
    }

    fn item_tag() -> (r: &'static str) {
        "AGEDATE"
    }

    fn to_element(&self) -> (r: XmlElement) {
        let mut e = XmlElement::new("AGEDATE");
        e.push_attribute("value", self.value.encode());
        e.push_attribute("type", String::from_str(self.age_date_type.token()));
        assert(pairs(e.attributes@) =~= written("value"@, date_text_of(self.value))
            + written("type"@, self.age_date_type.spec_token()));
        proof {
            lemma_view_of(e);
        }
        e
    }

    fn from_element(e: &XmlElement) -> (r: Result<AgeDate, DecodeError>) {
        let value = read_date(e, "value")?;
        let age_date_type = AgeDateType::from_token(read_token(e, "type"));
        Ok(AgeDate { value, age_date_type })
    }
}

impl AgeDate {
    /// A value with every field at its default: zero, empty, absent, or the
    /// neutral variant.
    pub fn empty() -> (r: AgeDate)
        ensures
            date_of(r.value) == (1970i32, 1u32, 1u32),
            r.age_date_type == AgeDateType::Date,
    {
        AgeDate {
            value: Date::epoch(),
            age_date_type: AgeDateType::Date,
        }
    }
}

impl Default for AgeDate {
    fn default() -> (r: AgeDate)
        ensures
            date_of(r.value) == (1970i32, 1u32, 1u32),
            r.age_date_type == AgeDateType::Date,
    {
        AgeDate::empty()
    }
}

} // verus!

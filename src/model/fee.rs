use vstd::prelude::*;

use crate::collection::{CollectionItem, XmlRecord};
use crate::error::DecodeError;
use crate::fields::{attr_or_empty, err_of, read_token, read_unsigned, unsigned_attr};
use crate::number::{decimal_string, decimal_text, lemma_decimal_text_reads_back};
use crate::xml::{
    ElementView, XmlElement, lemma_lookup_concat, lemma_lookup_written, lemma_view_of, pairs,
    written,
};

verus! {

/// A fee of a meet: its type label and its amount.
#[derive(Debug, PartialEq, Eq)]
pub struct Fee {
    pub fee_type: String,
    pub value: u64,
}

impl XmlRecord for Fee {
    open spec fn spec_item_tag() -> Seq<char> {
        "FEE"@
    }

    open spec fn written_as(x: Self, e: ElementView) -> bool {
        &&& e.name == "FEE"@
        &&& e.attributes == written("type"@, x.fee_type@)
            + written("value"@, decimal_text(x.value as nat))
        &&& e.children.len() == 0
    }

    open spec fn readable(e: ElementView) -> bool {
        &&& unsigned_attr(e, "value"@, u64::MAX) is Ok
    }

    open spec fn read_error(e: ElementView) -> DecodeError {
        if unsigned_attr(e, "value"@, u64::MAX) is Err {
            err_of(unsigned_attr(e, "value"@, u64::MAX))
        } else {
            DecodeError::MalformedXml
        }
    }

    open spec fn read_as(e: ElementView, x: Self) -> bool {
        &&& x.fee_type@ == attr_or_empty(e, "type"@)
        &&& unsigned_attr(e, "value"@, u64::MAX) == Ok::<u64, DecodeError>(x.value as u64)
    }

    open spec fn same(x: Self, y: Self) -> bool {
        &&& x.fee_type@ == y.fee_type@
        &&& x.value == y.value
    }

    open spec fn faithful(x: Self) -> bool {
        true
    }

    proof fn lemma_round_trip(x: Self, e: ElementView, y: Self) {
        reveal_strlit("type");
        assert("type"@.len() == 4);
        reveal_strlit("value");
        assert("value"@.len() == 5);
        let w0 = written("type"@, x.fee_type@);
        let w1 = written("value"@, decimal_text(x.value as nat));
        assert(e.attributes == w0 + w1);
        lemma_lookup_concat(w0, w1, "type"@);
        lemma_lookup_written("type"@, x.fee_type@, "type"@);
        lemma_lookup_written("value"@, decimal_text(x.value as nat), "type"@);
        lemma_lookup_concat(w0, w1, "value"@);
        lemma_lookup_written("type"@, x.fee_type@, "value"@);
        lemma_lookup_written("value"@, decimal_text(x.value as nat), "value"@);
        if x.fee_type@.len() == 0 {
            assert(x.fee_type@ =~= Seq::<char>::empty());
        }
        lemma_decimal_text_reads_back(x.value as nat);
    }

    fn item_tag() -> (r: &'static str) {
        "FEE"
    }

    fn to_element(&self) -> (r: XmlElement) {
        let mut e = XmlElement::new("FEE");
        e.push_attribute("type", self.fee_type.clone());
        e.push_attribute("value", decimal_string(self.value as u64));
        assert(pairs(e.attributes@) =~= written("type"@, self.fee_type@)
            + written("value"@, decimal_text(self.value as nat)));
        proof {
            lemma_view_of(e);
        }
        e
    }

    fn from_element(e: &XmlElement) -> (r: Result<Fee, DecodeError>) {
        let fee_type = String::from_str(read_token(e, "type"));
        let value = read_unsigned(e, "value", u64::MAX)?;
        Ok(Fee { fee_type, value })
    }
}

impl CollectionItem for Fee {
    open spec fn spec_collection_tag() -> Seq<char> {
        "FEES"@
    }

    fn collection_tag() -> (r: &'static str) {
        "FEES"
    }
}

impl Fee {
    /// A value with every field at its default: zero, empty, absent, or the
    /// neutral variant.
    pub fn empty() -> (r: Fee)
        ensures
            r.fee_type@.len() == 0,
            r.value == 0,
    {
        Fee {
            fee_type: String::new(),
            value: 0,
        }
    }
}

impl Default for Fee {
    fn default() -> (r: Fee)
        ensures
            r.fee_type@.len() == 0,
            r.value == 0,
    {
        Fee::empty()
    }
}

} // verus!

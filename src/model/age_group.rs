use vstd::prelude::*;

use crate::collection::{CollectionItem, XmlRecord};
use crate::error::DecodeError;
use crate::fields::{
    attr_or_empty, err_of, narrow8, opt8, opt_string_text, opt_text, opt_written_text,
    read_opt_text, read_sentinel, read_token, read_unsigned, sentinel_attr, unsigned_attr, widen8,
};
use crate::model::{Calculate, Gender};
use crate::number::{
    decimal_string, decimal_text, encode_sentinel, lemma_decimal_text_reads_back,
    lemma_minus_one_is_absent, sentinel_text,
};
use crate::xml::{
    ElementView, XmlElement, attr, lemma_lookup_concat, lemma_lookup_written, lemma_view_of, pairs,
    written,
};

verus! {

/// An age group of an event. Absent bounds are written `-1`.
#[derive(Debug, PartialEq, Eq)]
pub struct AgeGroup {
    pub id: u32,
    pub age_min: Option<u8>,
    pub age_max: Option<u8>,
    pub gender: Gender,
    pub calculate: Calculate,
    pub name: Option<String>,
}

impl XmlRecord for AgeGroup {
    open spec fn spec_item_tag() -> Seq<char> {
        "AGEGROUP"@
    }

    open spec fn written_as(x: Self, e: ElementView) -> bool {
        &&& e.name == "AGEGROUP"@
        &&& e.attributes == written("agegroupid"@, decimal_text(x.id as nat))
            + written("agemin"@, sentinel_text(opt8(x.age_min)))
            + written("agemax"@, sentinel_text(opt8(x.age_max)))
            + written("gender"@, x.gender.spec_token())
            + written("calculate"@, x.calculate.spec_token())
            + written("name"@, opt_written_text(opt_text(x.name)))
        &&& e.children.len() == 0
    }

    open spec fn readable(e: ElementView) -> bool {
        &&& unsigned_attr(e, "agegroupid"@, u32::MAX as u64) is Ok
        &&& sentinel_attr(e, "agemin"@, u8::MAX as u64) is Ok
        &&& sentinel_attr(e, "agemax"@, u8::MAX as u64) is Ok
    }

    open spec fn read_error(e: ElementView) -> DecodeError {
        if unsigned_attr(e, "agegroupid"@, u32::MAX as u64) is Err {
            err_of(unsigned_attr(e, "agegroupid"@, u32::MAX as u64))
        } else if sentinel_attr(e, "agemin"@, u8::MAX as u64) is Err {
            err_of(sentinel_attr(e, "agemin"@, u8::MAX as u64))
        } else if sentinel_attr(e, "agemax"@, u8::MAX as u64) is Err {
            err_of(sentinel_attr(e, "agemax"@, u8::MAX as u64))
        } else {
            DecodeError::MalformedXml
        }
    }

    open spec fn read_as(e: ElementView, x: Self) -> bool {
        &&& unsigned_attr(e, "agegroupid"@, u32::MAX as u64) == Ok::<u64, DecodeError>(x.id as u64)
        &&& sentinel_attr(e, "agemin"@, u8::MAX as u64) == Ok::<Option<u64>, DecodeError>(opt8(x.age_min))
        &&& sentinel_attr(e, "agemax"@, u8::MAX as u64) == Ok::<Option<u64>, DecodeError>(opt8(x.age_max))
        &&& x.gender == Gender::spec_from_token(attr_or_empty(e, "gender"@))
        &&& x.calculate == Calculate::spec_from_token(attr_or_empty(e, "calculate"@))
        &&& opt_text(x.name) == attr(e, "name"@)
    }

    open spec fn same(x: Self, y: Self) -> bool {
        &&& x.id == y.id
        &&& x.age_min == y.age_min
        &&& x.age_max == y.age_max
        &&& x.gender == y.gender
        &&& x.calculate == y.calculate
        &&& opt_text(x.name) == opt_text(y.name)
    }

    open spec fn faithful(x: Self) -> bool {
        &&& x.name matches Some(v) ==> v@.len() > 0
    }

    proof fn lemma_round_trip(x: Self, e: ElementView, y: Self) {
        reveal_strlit("agegroupid");
        assert("agegroupid"@.len() == 10);
        reveal_strlit("agemax");
        assert("agemax"@.len() == 6);
        assert("agemax"@[0] == 'a');
        assert("agemax"@[1] == 'g');
        assert("agemax"@[2] == 'e');
        assert("agemax"@[3] == 'm');
        assert("agemax"@[4] == 'a');
        reveal_strlit("agemin");
        assert("agemin"@.len() == 6);
        assert("agemin"@[0] == 'a');
        assert("agemin"@[1] == 'g');
        assert("agemin"@[2] == 'e');
        assert("agemin"@[3] == 'm');
        assert("agemin"@[4] == 'i');
        reveal_strlit("calculate");
        assert("calculate"@.len() == 9);
        reveal_strlit("gender");
        assert("gender"@.len() == 6);
        assert("gender"@[0] == 'g');
        reveal_strlit("name");
        assert("name"@.len() == 4);
        let w0 = written("agegroupid"@, decimal_text(x.id as nat));
        let w1 = written("agemin"@, sentinel_text(opt8(x.age_min)));
        let w2 = written("agemax"@, sentinel_text(opt8(x.age_max)));
        let w3 = written("gender"@, x.gender.spec_token());
        let w4 = written("calculate"@, x.calculate.spec_token());
        let w5 = written("name"@, opt_written_text(opt_text(x.name)));
        assert(e.attributes == w0 + w1 + w2 + w3 + w4 + w5);
        lemma_lookup_concat(w0 + w1 + w2 + w3 + w4, w5, "agegroupid"@);
        lemma_lookup_concat(w0 + w1 + w2 + w3, w4, "agegroupid"@);
        lemma_lookup_concat(w0 + w1 + w2, w3, "agegroupid"@);
        lemma_lookup_concat(w0 + w1, w2, "agegroupid"@);
        lemma_lookup_concat(w0, w1, "agegroupid"@);
        lemma_lookup_written("agegroupid"@, decimal_text(x.id as nat), "agegroupid"@);
        lemma_lookup_written("agemin"@, sentinel_text(opt8(x.age_min)), "agegroupid"@);
        lemma_lookup_written("agemax"@, sentinel_text(opt8(x.age_max)), "agegroupid"@);
        lemma_lookup_written("gender"@, x.gender.spec_token(), "agegroupid"@);
        lemma_lookup_written("calculate"@, x.calculate.spec_token(), "agegroupid"@);
        lemma_lookup_written("name"@, opt_written_text(opt_text(x.name)), "agegroupid"@);
        lemma_lookup_concat(w0 + w1 + w2 + w3 + w4, w5, "agemin"@);
        lemma_lookup_concat(w0 + w1 + w2 + w3, w4, "agemin"@);
        lemma_lookup_concat(w0 + w1 + w2, w3, "agemin"@);
        lemma_lookup_concat(w0 + w1, w2, "agemin"@);
        lemma_lookup_concat(w0, w1, "agemin"@);
        lemma_lookup_written("agegroupid"@, decimal_text(x.id as nat), "agemin"@);
        lemma_lookup_written("agemin"@, sentinel_text(opt8(x.age_min)), "agemin"@);
        lemma_lookup_written("agemax"@, sentinel_text(opt8(x.age_max)), "agemin"@);
        lemma_lookup_written("gender"@, x.gender.spec_token(), "agemin"@);
        lemma_lookup_written("calculate"@, x.calculate.spec_token(), "agemin"@);
        lemma_lookup_written("name"@, opt_written_text(opt_text(x.name)), "agemin"@);
        lemma_lookup_concat(w0 + w1 + w2 + w3 + w4, w5, "agemax"@);
        lemma_lookup_concat(w0 + w1 + w2 + w3, w4, "agemax"@);
        lemma_lookup_concat(w0 + w1 + w2, w3, "agemax"@);
        lemma_lookup_concat(w0 + w1, w2, "agemax"@);
        lemma_lookup_concat(w0, w1, "agemax"@);
        lemma_lookup_written("agegroupid"@, decimal_text(x.id as nat), "agemax"@);
        lemma_lookup_written("agemin"@, sentinel_text(opt8(x.age_min)), "agemax"@);
        lemma_lookup_written("agemax"@, sentinel_text(opt8(x.age_max)), "agemax"@);
        lemma_lookup_written("gender"@, x.gender.spec_token(), "agemax"@);
        lemma_lookup_written("calculate"@, x.calculate.spec_token(), "agemax"@);
        lemma_lookup_written("name"@, opt_written_text(opt_text(x.name)), "agemax"@);
        lemma_lookup_concat(w0 + w1 + w2 + w3 + w4, w5, "gender"@);
        lemma_lookup_concat(w0 + w1 + w2 + w3, w4, "gender"@);
        lemma_lookup_concat(w0 + w1 + w2, w3, "gender"@);
        lemma_lookup_concat(w0 + w1, w2, "gender"@);
        lemma_lookup_concat(w0, w1, "gender"@);
        lemma_lookup_written("agegroupid"@, decimal_text(x.id as nat), "gender"@);
        lemma_lookup_written("agemin"@, sentinel_text(opt8(x.age_min)), "gender"@);
        lemma_lookup_written("agemax"@, sentinel_text(opt8(x.age_max)), "gender"@);
        lemma_lookup_written("gender"@, x.gender.spec_token(), "gender"@);
        lemma_lookup_written("calculate"@, x.calculate.spec_token(), "gender"@);
        lemma_lookup_written("name"@, opt_written_text(opt_text(x.name)), "gender"@);
        lemma_lookup_concat(w0 + w1 + w2 + w3 + w4, w5, "calculate"@);
        lemma_lookup_concat(w0 + w1 + w2 + w3, w4, "calculate"@);
        lemma_lookup_concat(w0 + w1 + w2, w3, "calculate"@);
        lemma_lookup_concat(w0 + w1, w2, "calculate"@);
        lemma_lookup_concat(w0, w1, "calculate"@);
        lemma_lookup_written("agegroupid"@, decimal_text(x.id as nat), "calculate"@);
        lemma_lookup_written("agemin"@, sentinel_text(opt8(x.age_min)), "calculate"@);
        lemma_lookup_written("agemax"@, sentinel_text(opt8(x.age_max)), "calculate"@);
        lemma_lookup_written("gender"@, x.gender.spec_token(), "calculate"@);
        lemma_lookup_written("calculate"@, x.calculate.spec_token(), "calculate"@);
        lemma_lookup_written("name"@, opt_written_text(opt_text(x.name)), "calculate"@);
        lemma_lookup_concat(w0 + w1 + w2 + w3 + w4, w5, "name"@);
        lemma_lookup_concat(w0 + w1 + w2 + w3, w4, "name"@);
        lemma_lookup_concat(w0 + w1 + w2, w3, "name"@);
        lemma_lookup_concat(w0 + w1, w2, "name"@);
        lemma_lookup_concat(w0, w1, "name"@);
        lemma_lookup_written("agegroupid"@, decimal_text(x.id as nat), "name"@);
        lemma_lookup_written("agemin"@, sentinel_text(opt8(x.age_min)), "name"@);
        lemma_lookup_written("agemax"@, sentinel_text(opt8(x.age_max)), "name"@);
        lemma_lookup_written("gender"@, x.gender.spec_token(), "name"@);
        lemma_lookup_written("calculate"@, x.calculate.spec_token(), "name"@);
        lemma_lookup_written("name"@, opt_written_text(opt_text(x.name)), "name"@);
        lemma_decimal_text_reads_back(x.id as nat);
        if let Some(v) = x.age_min {
            lemma_decimal_text_reads_back(v as nat);
        } else {
            lemma_minus_one_is_absent(u8::MAX as u64);
        }
        if let Some(v) = x.age_max {
            lemma_decimal_text_reads_back(v as nat);
        } else {
            lemma_minus_one_is_absent(u8::MAX as u64);
        }
        Gender::lemma_token_round_trip(x.gender);
        if x.gender.spec_token().len() == 0 {
            assert(x.gender.spec_token() =~= Seq::<char>::empty());
        }
        Calculate::lemma_token_round_trip(x.calculate);
        if x.calculate.spec_token().len() == 0 {
            assert(x.calculate.spec_token() =~= Seq::<char>::empty());
        }
    }

    fn item_tag() -> (r: &'static str) {
        "AGEGROUP"
    }

    fn to_element(&self) -> (r: XmlElement) {
        let mut e = XmlElement::new("AGEGROUP");
        e.push_attribute("agegroupid", decimal_string(self.id as u64));
        e.push_attribute("agemin", encode_sentinel(widen8(self.age_min)));
        e.push_attribute("agemax", encode_sentinel(widen8(self.age_max)));
        e.push_attribute("gender", String::from_str(self.gender.token()));
        e.push_attribute("calculate", String::from_str(self.calculate.token()));
        e.push_attribute("name", opt_string_text(&self.name));
        assert(pairs(e.attributes@) =~= written("agegroupid"@, decimal_text(self.id as nat))
            + written("agemin"@, sentinel_text(opt8(self.age_min)))
            + written("agemax"@, sentinel_text(opt8(self.age_max)))
            + written("gender"@, self.gender.spec_token())
            + written("calculate"@, self.calculate.spec_token())
            + written("name"@, opt_written_text(opt_text(self.name))));
        proof {
            lemma_view_of(e);
        }
        e
    }

    fn from_element(e: &XmlElement) -> (r: Result<AgeGroup, DecodeError>) {
        let id = read_unsigned(e, "agegroupid", u32::MAX as u64)? as u32;
        let age_min = narrow8(read_sentinel(e, "agemin", u8::MAX as u64)?);
        let age_max = narrow8(read_sentinel(e, "agemax", u8::MAX as u64)?);
        let gender = Gender::from_token(read_token(e, "gender"));
        let calculate = Calculate::from_token(read_token(e, "calculate"));
        let name = read_opt_text(e, "name");
        Ok(AgeGroup { id, age_min, age_max, gender, calculate, name })
    }
}

impl CollectionItem for AgeGroup {
    open spec fn spec_collection_tag() -> Seq<char> {
        "AGEGROUPS"@
    }

    fn collection_tag() -> (r: &'static str) {
        "AGEGROUPS"
    }
}

impl AgeGroup {
    /// A value with every field at its default: zero, empty, absent, or the
    /// neutral variant.
    pub fn empty() -> (r: AgeGroup)
        ensures
            r.id == 0,
            r.age_min is None,
            r.age_max is None,
            r.gender == Gender::All,
            r.calculate == Calculate::Single,
            r.name is None,
    {
        AgeGroup {
            id: 0,
            age_min: None,
            age_max: None,
            gender: Gender::All,
            calculate: Calculate::Single,
            name: None,
        }
    }
}

impl Default for AgeGroup {
    fn default() -> (r: AgeGroup)
        ensures
            r.id == 0,
            r.age_min is None,
            r.age_max is None,
            r.gender == Gender::All,
            r.calculate == Calculate::Single,
            r.name is None,
    {
        AgeGroup::empty()
    }
}

} // verus!

use vstd::prelude::*;

use crate::collection::{
    Collection, CollectionItem, XmlRecord, all_faithful, all_same, collection_read_as,
    collection_read_error, collection_readable, collection_written_as, lemma_collection_values,
};
use crate::error::DecodeError;
use crate::fields::{
    attr_or_empty, date_attr, date_of, err_of, opt_string_text, opt_text, opt_written_text,
    read_date, read_opt_text, read_token, read_unsigned, unsigned_attr,
};
use crate::model::{Entry, Gender};
use crate::number::{decimal_string, decimal_text, lemma_decimal_text_reads_back};
use crate::time::{Date, chrono_date_fields, date_text_of};
use crate::xml::{
    ElementView, XmlElement, attr, child, lemma_first_named_at, lemma_lookup_concat,
    lemma_lookup_written, lemma_view_of, pairs, written,
};

verus! {

/// An athlete of a club, with their entries.
#[derive(Debug, PartialEq, Eq)]
pub struct Athlete {
    pub id: u32,
    pub first_name: String,
    pub last_name: String,
    pub gender: Gender,
    pub license: Option<String>,
    pub birth_date: Date,
    pub entries: Collection<Entry>,
}

impl XmlRecord for Athlete {
    open spec fn spec_item_tag() -> Seq<char> {
        "ATHLETE"@
    }

    open spec fn written_as(x: Self, e: ElementView) -> bool {
        &&& e.name == "ATHLETE"@
        &&& e.attributes == written("athleteid"@, decimal_text(x.id as nat))
            + written("firstname"@, x.first_name@)
            + written("lastname"@, x.last_name@)
            + written("gender"@, x.gender.spec_token())
            + written("license"@, opt_written_text(opt_text(x.license)))
            + written("birthdate"@, date_text_of(x.birth_date))
        &&& e.children.len() == 1int
        &&& collection_written_as(x.entries.items@, e.children[0])
    }

    open spec fn readable(e: ElementView) -> bool {
        &&& unsigned_attr(e, "athleteid"@, u32::MAX as u64) is Ok
        &&& date_attr(e, "birthdate"@) is Ok
        &&& child(e, "ENTRIES"@) matches Some(c) && collection_readable::<Entry>(c)
    }

    open spec fn read_error(e: ElementView) -> DecodeError {
        if unsigned_attr(e, "athleteid"@, u32::MAX as u64) is Err {
            err_of(unsigned_attr(e, "athleteid"@, u32::MAX as u64))
        } else if date_attr(e, "birthdate"@) is Err {
            err_of(date_attr(e, "birthdate"@))
        } else if !(child(e, "ENTRIES"@) matches Some(c) && collection_readable::<Entry>(c)) {
            match child(e, "ENTRIES"@) {
                Some(c) => collection_read_error::<Entry>(c),
                None => DecodeError::MissingElement,
            }
        } else {
            DecodeError::MalformedXml
        }
    }

    open spec fn read_as(e: ElementView, x: Self) -> bool {
        &&& unsigned_attr(e, "athleteid"@, u32::MAX as u64) == Ok::<u64, DecodeError>(x.id as u64)
        &&& x.first_name@ == attr_or_empty(e, "firstname"@)
        &&& x.last_name@ == attr_or_empty(e, "lastname"@)
        &&& x.gender == Gender::spec_from_token(attr_or_empty(e, "gender"@))
        &&& opt_text(x.license) == attr(e, "license"@)
        &&& date_attr(e, "birthdate"@) == Ok::<(i32, u32, u32), DecodeError>(date_of(x.birth_date))
        &&& child(e, "ENTRIES"@) matches Some(c) && collection_read_as(c, x.entries.items@)
    }

    open spec fn same(x: Self, y: Self) -> bool {
        &&& x.id == y.id
        &&& x.first_name@ == y.first_name@
        &&& x.last_name@ == y.last_name@
        &&& x.gender == y.gender
        &&& opt_text(x.license) == opt_text(y.license)
        &&& date_of(x.birth_date) == date_of(y.birth_date)
        &&& all_same(x.entries.items@, y.entries.items@)
    }

    open spec fn faithful(x: Self) -> bool {
        &&& x.license matches Some(v) ==> v@.len() > 0
        &&& chrono_date_fields(date_text_of(x.birth_date)) == Some(date_of(x.birth_date))
        &&& all_faithful(x.entries.items@)
    }

    proof fn lemma_round_trip(x: Self, e: ElementView, y: Self) {
        reveal_strlit("ENTRIES");
        assert("ENTRIES"@.len() == 7);
        assert("ENTRIES"@[0] == 'E');
        reveal_strlit("athleteid");
        assert("athleteid"@.len() == 9);
        assert("athleteid"@[0] == 'a');
        reveal_strlit("birthdate");
        assert("birthdate"@.len() == 9);
        assert("birthdate"@[0] == 'b');
        reveal_strlit("firstname");
        assert("firstname"@.len() == 9);
        assert("firstname"@[0] == 'f');
        reveal_strlit("gender");
        assert("gender"@.len() == 6);
        reveal_strlit("lastname");
        assert("lastname"@.len() == 8);
        reveal_strlit("license");
        assert("license"@.len() == 7);
        assert("license"@[0] == 'l');
        let w0 = written("athleteid"@, decimal_text(x.id as nat));
        let w1 = written("firstname"@, x.first_name@);
        let w2 = written("lastname"@, x.last_name@);
        let w3 = written("gender"@, x.gender.spec_token());
        let w4 = written("license"@, opt_written_text(opt_text(x.license)));
        let w5 = written("birthdate"@, date_text_of(x.birth_date));
        assert(e.attributes == w0 + w1 + w2 + w3 + w4 + w5);
        lemma_lookup_concat(w0 + w1 + w2 + w3 + w4, w5, "athleteid"@);
        lemma_lookup_concat(w0 + w1 + w2 + w3, w4, "athleteid"@);
        lemma_lookup_concat(w0 + w1 + w2, w3, "athleteid"@);
        lemma_lookup_concat(w0 + w1, w2, "athleteid"@);
        lemma_lookup_concat(w0, w1, "athleteid"@);
        lemma_lookup_written("athleteid"@, decimal_text(x.id as nat), "athleteid"@);
        lemma_lookup_written("firstname"@, x.first_name@, "athleteid"@);
        lemma_lookup_written("lastname"@, x.last_name@, "athleteid"@);
        lemma_lookup_written("gender"@, x.gender.spec_token(), "athleteid"@);
        lemma_lookup_written("license"@, opt_written_text(opt_text(x.license)), "athleteid"@);
        lemma_lookup_written("birthdate"@, date_text_of(x.birth_date), "athleteid"@);
        lemma_lookup_concat(w0 + w1 + w2 + w3 + w4, w5, "firstname"@);
        lemma_lookup_concat(w0 + w1 + w2 + w3, w4, "firstname"@);
        lemma_lookup_concat(w0 + w1 + w2, w3, "firstname"@);
        lemma_lookup_concat(w0 + w1, w2, "firstname"@);
        lemma_lookup_concat(w0, w1, "firstname"@);
        lemma_lookup_written("athleteid"@, decimal_text(x.id as nat), "firstname"@);
        lemma_lookup_written("firstname"@, x.first_name@, "firstname"@);
        lemma_lookup_written("lastname"@, x.last_name@, "firstname"@);
        lemma_lookup_written("gender"@, x.gender.spec_token(), "firstname"@);
        lemma_lookup_written("license"@, opt_written_text(opt_text(x.license)), "firstname"@);
        lemma_lookup_written("birthdate"@, date_text_of(x.birth_date), "firstname"@);
        lemma_lookup_concat(w0 + w1 + w2 + w3 + w4, w5, "lastname"@);
        lemma_lookup_concat(w0 + w1 + w2 + w3, w4, "lastname"@);
        lemma_lookup_concat(w0 + w1 + w2, w3, "lastname"@);
        lemma_lookup_concat(w0 + w1, w2, "lastname"@);
        lemma_lookup_concat(w0, w1, "lastname"@);
        lemma_lookup_written("athleteid"@, decimal_text(x.id as nat), "lastname"@);
        lemma_lookup_written("firstname"@, x.first_name@, "lastname"@);
        lemma_lookup_written("lastname"@, x.last_name@, "lastname"@);
        lemma_lookup_written("gender"@, x.gender.spec_token(), "lastname"@);
        lemma_lookup_written("license"@, opt_written_text(opt_text(x.license)), "lastname"@);
        lemma_lookup_written("birthdate"@, date_text_of(x.birth_date), "lastname"@);
        lemma_lookup_concat(w0 + w1 + w2 + w3 + w4, w5, "gender"@);
        lemma_lookup_concat(w0 + w1 + w2 + w3, w4, "gender"@);
        lemma_lookup_concat(w0 + w1 + w2, w3, "gender"@);
        lemma_lookup_concat(w0 + w1, w2, "gender"@);
        lemma_lookup_concat(w0, w1, "gender"@);
        lemma_lookup_written("athleteid"@, decimal_text(x.id as nat), "gender"@);
        lemma_lookup_written("firstname"@, x.first_name@, "gender"@);
        lemma_lookup_written("lastname"@, x.last_name@, "gender"@);
        lemma_lookup_written("gender"@, x.gender.spec_token(), "gender"@);
        lemma_lookup_written("license"@, opt_written_text(opt_text(x.license)), "gender"@);
        lemma_lookup_written("birthdate"@, date_text_of(x.birth_date), "gender"@);
        lemma_lookup_concat(w0 + w1 + w2 + w3 + w4, w5, "license"@);
        lemma_lookup_concat(w0 + w1 + w2 + w3, w4, "license"@);
        lemma_lookup_concat(w0 + w1 + w2, w3, "license"@);
        lemma_lookup_concat(w0 + w1, w2, "license"@);
        lemma_lookup_concat(w0, w1, "license"@);
        lemma_lookup_written("athleteid"@, decimal_text(x.id as nat), "license"@);
        lemma_lookup_written("firstname"@, x.first_name@, "license"@);
        lemma_lookup_written("lastname"@, x.last_name@, "license"@);
        lemma_lookup_written("gender"@, x.gender.spec_token(), "license"@);
        lemma_lookup_written("license"@, opt_written_text(opt_text(x.license)), "license"@);
        lemma_lookup_written("birthdate"@, date_text_of(x.birth_date), "license"@);
        lemma_lookup_concat(w0 + w1 + w2 + w3 + w4, w5, "birthdate"@);
        lemma_lookup_concat(w0 + w1 + w2 + w3, w4, "birthdate"@);
        lemma_lookup_concat(w0 + w1 + w2, w3, "birthdate"@);
        lemma_lookup_concat(w0 + w1, w2, "birthdate"@);
        lemma_lookup_concat(w0, w1, "birthdate"@);
        lemma_lookup_written("athleteid"@, decimal_text(x.id as nat), "birthdate"@);
        lemma_lookup_written("firstname"@, x.first_name@, "birthdate"@);
        lemma_lookup_written("lastname"@, x.last_name@, "birthdate"@);
        lemma_lookup_written("gender"@, x.gender.spec_token(), "birthdate"@);
        lemma_lookup_written("license"@, opt_written_text(opt_text(x.license)), "birthdate"@);
        lemma_lookup_written("birthdate"@, date_text_of(x.birth_date), "birthdate"@);
        lemma_decimal_text_reads_back(x.id as nat);
        if x.first_name@.len() == 0 {
            assert(x.first_name@ =~= Seq::<char>::empty());
        }
        if x.last_name@.len() == 0 {
            assert(x.last_name@ =~= Seq::<char>::empty());
        }
        Gender::lemma_token_round_trip(x.gender);
        if x.gender.spec_token().len() == 0 {
            assert(x.gender.spec_token() =~= Seq::<char>::empty());
        }
        assert forall|j: int| 0 <= j < 0 implies (#[trigger] e.children[j]).name != "ENTRIES"@ by {
            
        }
        lemma_first_named_at(e.children, "ENTRIES"@, 0);
        lemma_collection_values(x.entries.items@, e.children[0], y.entries.items@);
    }

    fn item_tag() -> (r: &'static str) {
        "ATHLETE"
    }

    fn to_element(&self) -> (r: XmlElement) {
        let mut e = XmlElement::new("ATHLETE");
        e.push_attribute("athleteid", decimal_string(self.id as u64));
        e.push_attribute("firstname", self.first_name.clone());
        e.push_attribute("lastname", self.last_name.clone());
        e.push_attribute("gender", String::from_str(self.gender.token()));
        e.push_attribute("license", opt_string_text(&self.license));
        e.push_attribute("birthdate", self.birth_date.encode());
        e.children.push(self.entries.to_element());
        assert(pairs(e.attributes@) =~= written("athleteid"@, decimal_text(self.id as nat))
            + written("firstname"@, self.first_name@)
            + written("lastname"@, self.last_name@)
            + written("gender"@, self.gender.spec_token())
            + written("license"@, opt_written_text(opt_text(self.license)))
            + written("birthdate"@, date_text_of(self.birth_date)));
        proof {
            lemma_view_of(e);
        }
        e
    }

    fn from_element(e: &XmlElement) -> (r: Result<Athlete, DecodeError>) {
        let id = read_unsigned(e, "athleteid", u32::MAX as u64)? as u32;
        let first_name = String::from_str(read_token(e, "firstname"));
        let last_name = String::from_str(read_token(e, "lastname"));
        let gender = Gender::from_token(read_token(e, "gender"));
        let license = read_opt_text(e, "license");
        let birth_date = read_date(e, "birthdate")?;
        let entries = match e.child("ENTRIES") {
            Some(c) => Collection::<Entry>::from_element(c)?,
            None => {
                return Err(DecodeError::MissingElement);
            },
        };
        Ok(Athlete { id, first_name, last_name, gender, license, birth_date, entries })
    }
}

impl CollectionItem for Athlete {
    open spec fn spec_collection_tag() -> Seq<char> {
        "ATHLETES"@
    }

    fn collection_tag() -> (r: &'static str) {
        "ATHLETES"
    }
}

impl Athlete {
    /// A value with every field at its default: zero, empty, absent, or the
    /// neutral variant.
    pub fn empty() -> (r: Athlete)
        ensures
            r.id == 0,
            r.first_name@.len() == 0,
            r.last_name@.len() == 0,
            r.gender == Gender::All,
            r.license is None,
            date_of(r.birth_date) == (1970i32, 1u32, 1u32),
            r.entries.items@.len() == 0,
    {
        Athlete {
            id: 0,
            first_name: String::new(),
            last_name: String::new(),
            gender: Gender::All,
            license: None,
            birth_date: Date::epoch(),
            entries: Collection::new(Vec::new()),
        }
    }
}

impl Default for Athlete {
    fn default() -> (r: Athlete)
        ensures
            r.id == 0,
            r.first_name@.len() == 0,
            r.last_name@.len() == 0,
            r.gender == Gender::All,
            r.license is None,
            date_of(r.birth_date) == (1970i32, 1u32, 1u32),
            r.entries.items@.len() == 0,
    {
        Athlete::empty()
    }
}

} // verus!

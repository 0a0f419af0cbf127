use vstd::prelude::*;

use crate::collection::{
    Collection, CollectionItem, XmlRecord, all_faithful, all_same, collection_read_as,
    collection_read_error, collection_readable, collection_written_as, lemma_collection_values,
};
use crate::error::DecodeError;
use crate::fields::{
    attr_or_empty, err_of, opt_string_text, opt_text, opt_written_text, read_opt_text, read_token,
    read_unsigned, unsigned_attr,
};
use crate::model::Athlete;
use crate::number::{decimal_string, decimal_text, lemma_decimal_text_reads_back};
use crate::xml::{
    ElementView, XmlElement, attr, child, lemma_first_named_at, lemma_lookup_concat,
    lemma_lookup_written, lemma_view_of, pairs, written,
};

verus! {

/// A club taking part in a meet, with its athletes.
#[derive(Debug, PartialEq, Eq)]
pub struct Club {
    pub id: u32,
    pub name: String,
    pub code: Option<String>,
    pub nation: Option<String>,
    pub region: Option<String>,
    pub athletes: Collection<Athlete>,
}

impl XmlRecord for Club {
    open spec fn spec_item_tag() -> Seq<char> {
        "CLUB"@
    }

    open spec fn written_as(x: Self, e: ElementView) -> bool {
        &&& e.name == "CLUB"@
        &&& e.attributes == written("clubid"@, decimal_text(x.id as nat))
            + written("name"@, x.name@)
            + written("code"@, opt_written_text(opt_text(x.code)))
            + written("nation"@, opt_written_text(opt_text(x.nation)))
            + written("region"@, opt_written_text(opt_text(x.region)))
        &&& e.children.len() == 1int
        &&& collection_written_as(x.athletes.items@, e.children[0])
    }

    open spec fn readable(e: ElementView) -> bool {
        &&& unsigned_attr(e, "clubid"@, u32::MAX as u64) is Ok
        &&& child(e, "ATHLETES"@) matches Some(c) && collection_readable::<Athlete>(c)
    }

    open spec fn read_error(e: ElementView) -> DecodeError {
        if unsigned_attr(e, "clubid"@, u32::MAX as u64) is Err {
            err_of(unsigned_attr(e, "clubid"@, u32::MAX as u64))
        } else if !(child(e, "ATHLETES"@) matches Some(c) && collection_readable::<Athlete>(c)) {
            match child(e, "ATHLETES"@) {
                Some(c) => collection_read_error::<Athlete>(c),
                None => DecodeError::MissingElement,
            }
        } else {
            DecodeError::MalformedXml
        }
    }

    open spec fn read_as(e: ElementView, x: Self) -> bool {
        &&& unsigned_attr(e, "clubid"@, u32::MAX as u64) == Ok::<u64, DecodeError>(x.id as u64)
        &&& x.name@ == attr_or_empty(e, "name"@)
        &&& opt_text(x.code) == attr(e, "code"@)
        &&& opt_text(x.nation) == attr(e, "nation"@)
        &&& opt_text(x.region) == attr(e, "region"@)
        &&& child(e, "ATHLETES"@) matches Some(c) && collection_read_as(c, x.athletes.items@)
    }

    open spec fn same(x: Self, y: Self) -> bool {
        &&& x.id == y.id
        &&& x.name@ == y.name@
        &&& opt_text(x.code) == opt_text(y.code)
        &&& opt_text(x.nation) == opt_text(y.nation)
        &&& opt_text(x.region) == opt_text(y.region)
        &&& all_same(x.athletes.items@, y.athletes.items@)
    }

    open spec fn faithful(x: Self) -> bool {
        &&& x.code matches Some(v) ==> v@.len() > 0
        &&& x.nation matches Some(v) ==> v@.len() > 0
        &&& x.region matches Some(v) ==> v@.len() > 0
        &&& all_faithful(x.athletes.items@)
    }

    proof fn lemma_round_trip(x: Self, e: ElementView, y: Self) {
        reveal_strlit("ATHLETES");
        assert("ATHLETES"@.len() == 8);
        reveal_strlit("clubid");
        assert("clubid"@.len() == 6);
        assert("clubid"@[0] == 'c');
        reveal_strlit("code");
        assert("code"@.len() == 4);
        assert("code"@[0] == 'c');
        reveal_strlit("name");
        assert("name"@.len() == 4);
        assert("name"@[0] == 'n');
        reveal_strlit("nation");
        assert("nation"@.len() == 6);
        assert("nation"@[0] == 'n');
        reveal_strlit("region");
        assert("region"@.len() == 6);
        assert("region"@[0] == 'r');
        let w0 = written("clubid"@, decimal_text(x.id as nat));
        let w1 = written("name"@, x.name@);
        let w2 = written("code"@, opt_written_text(opt_text(x.code)));
        let w3 = written("nation"@, opt_written_text(opt_text(x.nation)));
        let w4 = written("region"@, opt_written_text(opt_text(x.region)));
        assert(e.attributes == w0 + w1 + w2 + w3 + w4);
        lemma_lookup_concat(w0 + w1 + w2 + w3, w4, "clubid"@);
        lemma_lookup_concat(w0 + w1 + w2, w3, "clubid"@);
        lemma_lookup_concat(w0 + w1, w2, "clubid"@);
        lemma_lookup_concat(w0, w1, "clubid"@);
        lemma_lookup_written("clubid"@, decimal_text(x.id as nat), "clubid"@);
        lemma_lookup_written("name"@, x.name@, "clubid"@);
        lemma_lookup_written("code"@, opt_written_text(opt_text(x.code)), "clubid"@);
        lemma_lookup_written("nation"@, opt_written_text(opt_text(x.nation)), "clubid"@);
        lemma_lookup_written("region"@, opt_written_text(opt_text(x.region)), "clubid"@);
        lemma_lookup_concat(w0 + w1 + w2 + w3, w4, "name"@);
        lemma_lookup_concat(w0 + w1 + w2, w3, "name"@);
        lemma_lookup_concat(w0 + w1, w2, "name"@);
        lemma_lookup_concat(w0, w1, "name"@);
        lemma_lookup_written("clubid"@, decimal_text(x.id as nat), "name"@);
        lemma_lookup_written("name"@, x.name@, "name"@);
        lemma_lookup_written("code"@, opt_written_text(opt_text(x.code)), "name"@);
        lemma_lookup_written("nation"@, opt_written_text(opt_text(x.nation)), "name"@);
        lemma_lookup_written("region"@, opt_written_text(opt_text(x.region)), "name"@);
        lemma_lookup_concat(w0 + w1 + w2 + w3, w4, "code"@);
        lemma_lookup_concat(w0 + w1 + w2, w3, "code"@);
        lemma_lookup_concat(w0 + w1, w2, "code"@);
        lemma_lookup_concat(w0, w1, "code"@);
        lemma_lookup_written("clubid"@, decimal_text(x.id as nat), "code"@);
        lemma_lookup_written("name"@, x.name@, "code"@);
        lemma_lookup_written("code"@, opt_written_text(opt_text(x.code)), "code"@);
        lemma_lookup_written("nation"@, opt_written_text(opt_text(x.nation)), "code"@);
        lemma_lookup_written("region"@, opt_written_text(opt_text(x.region)), "code"@);
        lemma_lookup_concat(w0 + w1 + w2 + w3, w4, "nation"@);
        lemma_lookup_concat(w0 + w1 + w2, w3, "nation"@);
        lemma_lookup_concat(w0 + w1, w2, "nation"@);
        lemma_lookup_concat(w0, w1, "nation"@);
        lemma_lookup_written("clubid"@, decimal_text(x.id as nat), "nation"@);
        lemma_lookup_written("name"@, x.name@, "nation"@);
        lemma_lookup_written("code"@, opt_written_text(opt_text(x.code)), "nation"@);
        lemma_lookup_written("nation"@, opt_written_text(opt_text(x.nation)), "nation"@);
        lemma_lookup_written("region"@, opt_written_text(opt_text(x.region)), "nation"@);
        lemma_lookup_concat(w0 + w1 + w2 + w3, w4, "region"@);
        lemma_lookup_concat(w0 + w1 + w2, w3, "region"@);
        lemma_lookup_concat(w0 + w1, w2, "region"@);
        lemma_lookup_concat(w0, w1, "region"@);
        lemma_lookup_written("clubid"@, decimal_text(x.id as nat), "region"@);
        lemma_lookup_written("name"@, x.name@, "region"@);
        lemma_lookup_written("code"@, opt_written_text(opt_text(x.code)), "region"@);
        lemma_lookup_written("nation"@, opt_written_text(opt_text(x.nation)), "region"@);
        lemma_lookup_written("region"@, opt_written_text(opt_text(x.region)), "region"@);
        lemma_decimal_text_reads_back(x.id as nat);
        if x.name@.len() == 0 {
            assert(x.name@ =~= Seq::<char>::empty());
        }
        assert forall|j: int| 0 <= j < 0 implies (#[trigger] e.children[j]).name != "ATHLETES"@ by {
            
        }
        lemma_first_named_at(e.children, "ATHLETES"@, 0);
        lemma_collection_values(x.athletes.items@, e.children[0], y.athletes.items@);
    }

    fn item_tag() -> (r: &'static str) {
        "CLUB"
    }

    fn to_element(&self) -> (r: XmlElement) {
        let mut e = XmlElement::new("CLUB");
        e.push_attribute("clubid", decimal_string(self.id as u64));
        e.push_attribute("name", self.name.clone());
        e.push_attribute("code", opt_string_text(&self.code));
        e.push_attribute("nation", opt_string_text(&self.nation));
        e.push_attribute("region", opt_string_text(&self.region));
        e.children.push(self.athletes.to_element());
        assert(pairs(e.attributes@) =~= written("clubid"@, decimal_text(self.id as nat))
            + written("name"@, self.name@)
            + written("code"@, opt_written_text(opt_text(self.code)))
            + written("nation"@, opt_written_text(opt_text(self.nation)))
            + written("region"@, opt_written_text(opt_text(self.region))));
        proof {
            lemma_view_of(e);
        }
        e
    }

    fn from_element(e: &XmlElement) -> (r: Result<Club, DecodeError>) {
        let id = read_unsigned(e, "clubid", u32::MAX as u64)? as u32;
        let name = String::from_str(read_token(e, "name"));
        let code = read_opt_text(e, "code");
        let nation = read_opt_text(e, "nation");
        let region = read_opt_text(e, "region");
        let athletes = match e.child("ATHLETES") {
            Some(c) => Collection::<Athlete>::from_element(c)?,
            None => {
                return Err(DecodeError::MissingElement);
            },
        };
        Ok(Club { id, name, code, nation, region, athletes })
    }
}

impl CollectionItem for Club {
    open spec fn spec_collection_tag() -> Seq<char> {
        "CLUBS"@
    }

    fn collection_tag() -> (r: &'static str) {
        "CLUBS"
    }
}

impl Club {
    /// A value with every field at its default: zero, empty, absent, or the
    /// neutral variant.
    pub fn empty() -> (r: Club)
        ensures
            r.id == 0,
            r.name@.len() == 0,
            r.code is None,
            r.nation is None,
            r.region is None,
            r.athletes.items@.len() == 0,
    {
        Club {
            id: 0,
            name: String::new(),
            code: None,
            nation: None,
            region: None,
            athletes: Collection::new(Vec::new()),
        }
    }
}

impl Default for Club {
    fn default() -> (r: Club)
        ensures
            r.id == 0,
            r.name@.len() == 0,
            r.code is None,
            r.nation is None,
            r.region is None,
            r.athletes.items@.len() == 0,
    {
        Club::empty()
    }
}

} // verus!

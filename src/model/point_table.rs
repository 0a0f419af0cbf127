use vstd::prelude::*;

use crate::collection::XmlRecord;
use crate::error::DecodeError;
use crate::fields::{attr_or_empty, err_of, read_token, read_unsigned, unsigned_attr};
use crate::number::{decimal_string, decimal_text, lemma_decimal_text_reads_back};
use crate::xml::{
    ElementView, XmlElement, lemma_lookup_concat, lemma_lookup_written, lemma_view_of, pairs,
    written,
};

verus! {

/// The point table that a meet scores with.
#[derive(Debug, PartialEq, Eq)]
pub struct PointTable {
    pub id: u32,
    pub name: String,
    pub version: String,
}

impl XmlRecord for PointTable {
    open spec fn spec_item_tag() -> Seq<char> {
        "POINTTABLE"@
    }

    open spec fn written_as(x: Self, e: ElementView) -> bool {
        &&& e.name == "POINTTABLE"@
        &&& e.attributes == written("pointtableid"@, decimal_text(x.id as nat))
            + written("name"@, x.name@)
            + written("version"@, x.version@)
        &&& e.children.len() == 0
    }

    open spec fn readable(e: ElementView) -> bool {
        &&& unsigned_attr(e, "pointtableid"@, u32::MAX as u64) is Ok
    }

    open spec fn read_error(e: ElementView) -> DecodeError {
        if unsigned_attr(e, "pointtableid"@, u32::MAX as u64) is Err {
            err_of(unsigned_attr(e, "pointtableid"@, u32::MAX as u64))
        } else {
            DecodeError::MalformedXml
        }
    }

    open spec fn read_as(e: ElementView, x: Self) -> bool {
        &&& unsigned_attr(e, "pointtableid"@, u32::MAX as u64) == Ok::<u64, DecodeError>(x.id as u64)
        &&& x.name@ == attr_or_empty(e, "name"@)
        &&& x.version@ == attr_or_empty(e, "version"@)
    }

    open spec fn same(x: Self, y: Self) -> bool {
        &&& x.id == y.id
        &&& x.name@ == y.name@
        &&& x.version@ == y.version@
    }

    open spec fn faithful(x: Self) -> bool {
        true
    }

    proof fn lemma_round_trip(x: Self, e: ElementView, y: Self) {
        reveal_strlit("name");
        assert("name"@.len() == 4);
        reveal_strlit("pointtableid");
        assert("pointtableid"@.len() == 12);
        reveal_strlit("version");
        assert("version"@.len() == 7);
        let w0 = written("pointtableid"@, decimal_text(x.id as nat));
        let w1 = written("name"@, x.name@);
        let w2 = written("version"@, x.version@);
        assert(e.attributes == w0 + w1 + w2);
        lemma_lookup_concat(w0 + w1, w2, "pointtableid"@);
        lemma_lookup_concat(w0, w1, "pointtableid"@);
        lemma_lookup_written("pointtableid"@, decimal_text(x.id as nat), "pointtableid"@);
        lemma_lookup_written("name"@, x.name@, "pointtableid"@);
        lemma_lookup_written("version"@, x.version@, "pointtableid"@);
        lemma_lookup_concat(w0 + w1, w2, "name"@);
        lemma_lookup_concat(w0, w1, "name"@);
        lemma_lookup_written("pointtableid"@, decimal_text(x.id as nat), "name"@);
        lemma_lookup_written("name"@, x.name@, "name"@);
        lemma_lookup_written("version"@, x.version@, "name"@);
        lemma_lookup_concat(w0 + w1, w2, "version"@);
        lemma_lookup_concat(w0, w1, "version"@);
        lemma_lookup_written("pointtableid"@, decimal_text(x.id as nat), "version"@);
        lemma_lookup_written("name"@, x.name@, "version"@);
        lemma_lookup_written("version"@, x.version@, "version"@);
        lemma_decimal_text_reads_back(x.id as nat);
        if x.name@.len() == 0 {
            assert(x.name@ =~= Seq::<char>::empty());
        }
        if x.version@.len() == 0 {
            assert(x.version@ =~= Seq::<char>::empty());
        }
    }

    fn item_tag() -> (r: &'static str) {
        "POINTTABLE"
    }

    fn to_element(&self) -> (r: XmlElement) {
        let mut e = XmlElement::new("POINTTABLE");
        e.push_attribute("pointtableid", decimal_string(self.id as u64));
        e.push_attribute("name", self.name.clone());
        e.push_attribute("version", self.version.clone());
        assert(pairs(e.attributes@) =~= written("pointtableid"@, decimal_text(self.id as nat))
            + written("name"@, self.name@)
            + written("version"@, self.version@));
        proof {
            lemma_view_of(e);
        }
        e
    }

    fn from_element(e: &XmlElement) -> (r: Result<PointTable, DecodeError>) {
        let id = read_unsigned(e, "pointtableid", u32::MAX as u64)? as u32;
        let name = String::from_str(read_token(e, "name"));
        let version = String::from_str(read_token(e, "version"));
        Ok(PointTable { id, name, version })
    }
}

impl PointTable {
    /// A value with every field at its default: zero, empty, absent, or the
    /// neutral variant.
    pub fn empty() -> (r: PointTable)
        ensures
            r.id == 0,
            r.name@.len() == 0,
            r.version@.len() == 0,
    {
        PointTable {
            id: 0,
            name: String::new(),
            version: String::new(),
        }
    }
}

impl Default for PointTable {
    fn default() -> (r: PointTable)
        ensures
            r.id == 0,
            r.name@.len() == 0,
            r.version@.len() == 0,
    {
        PointTable::empty()
    }
}

} // verus!

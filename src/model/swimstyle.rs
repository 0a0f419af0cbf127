use vstd::prelude::*;

use crate::collection::XmlRecord;
use crate::error::DecodeError;
use crate::fields::{
    attr_or_empty, err_of, opt_string_text, opt_text, opt_written_text, read_opt_text, read_token,
    read_unsigned, unsigned_attr,
};
use crate::model::Stroke;
use crate::number::{decimal_string, decimal_text, lemma_decimal_text_reads_back};
use crate::xml::{
    ElementView, XmlElement, attr, lemma_lookup_concat, lemma_lookup_written, lemma_view_of, pairs,
    written,
};

verus! {

/// The distance, relay count and stroke that an event is swum with.
#[derive(Debug, PartialEq, Eq)]
pub struct SwimStyle {
    pub id: u64,
    pub distance: u64,
    pub relay_count: u64,
    pub name: Option<String>,
    pub stroke: Stroke,
}

impl XmlRecord for SwimStyle {
    open spec fn spec_item_tag() -> Seq<char> {
        "SWIMSTYLE"@
    }

    open spec fn written_as(x: Self, e: ElementView) -> bool {
        &&& e.name == "SWIMSTYLE"@
        &&& e.attributes == written("swimstyleid"@, decimal_text(x.id as nat))
            + written("distance"@, decimal_text(x.distance as nat))
            + written("relaycount"@, decimal_text(x.relay_count as nat))
            + written("name"@, opt_written_text(opt_text(x.name)))
            + written("stroke"@, x.stroke.spec_token())
        &&& e.children.len() == 0
    }

    open spec fn readable(e: ElementView) -> bool {
        &&& unsigned_attr(e, "swimstyleid"@, u64::MAX) is Ok
        &&& unsigned_attr(e, "distance"@, u64::MAX) is Ok
        &&& unsigned_attr(e, "relaycount"@, u64::MAX) is Ok
    }

    open spec fn read_error(e: ElementView) -> DecodeError {
        if unsigned_attr(e, "swimstyleid"@, u64::MAX) is Err {
            err_of(unsigned_attr(e, "swimstyleid"@, u64::MAX))
        } else if unsigned_attr(e, "distance"@, u64::MAX) is Err {
            err_of(unsigned_attr(e, "distance"@, u64::MAX))
        } else if unsigned_attr(e, "relaycount"@, u64::MAX) is Err {
            err_of(unsigned_attr(e, "relaycount"@, u64::MAX))
        } else {
            DecodeError::MalformedXml
        }
    }

    open spec fn read_as(e: ElementView, x: Self) -> bool {
        &&& unsigned_attr(e, "swimstyleid"@, u64::MAX) == Ok::<u64, DecodeError>(x.id as u64)
        &&& unsigned_attr(e, "distance"@, u64::MAX) == Ok::<u64, DecodeError>(x.distance as u64)
        &&& unsigned_attr(e, "relaycount"@, u64::MAX) == Ok::<u64, DecodeError>(x.relay_count as u64)
        &&& opt_text(x.name) == attr(e, "name"@)
        &&& x.stroke == Stroke::spec_from_token(attr_or_empty(e, "stroke"@))
    }

    open spec fn same(x: Self, y: Self) -> bool {
        &&& x.id == y.id
        &&& x.distance == y.distance
        &&& x.relay_count == y.relay_count
        &&& opt_text(x.name) == opt_text(y.name)
        &&& x.stroke == y.stroke
    }

    open spec fn faithful(x: Self) -> bool {
        &&& x.name matches Some(v) ==> v@.len() > 0
    }

    proof fn lemma_round_trip(x: Self, e: ElementView, y: Self) {
        reveal_strlit("distance");
        assert("distance"@.len() == 8);
        reveal_strlit("name");
        assert("name"@.len() == 4);
        reveal_strlit("relaycount");
        assert("relaycount"@.len() == 10);
        reveal_strlit("stroke");
        assert("stroke"@.len() == 6);
        reveal_strlit("swimstyleid");
        assert("swimstyleid"@.len() == 11);
        let w0 = written("swimstyleid"@, decimal_text(x.id as nat));
        let w1 = written("distance"@, decimal_text(x.distance as nat));
        let w2 = written("relaycount"@, decimal_text(x.relay_count as nat));
        let w3 = written("name"@, opt_written_text(opt_text(x.name)));
        let w4 = written("stroke"@, x.stroke.spec_token());
        assert(e.attributes == w0 + w1 + w2 + w3 + w4);
        lemma_lookup_concat(w0 + w1 + w2 + w3, w4, "swimstyleid"@);
        lemma_lookup_concat(w0 + w1 + w2, w3, "swimstyleid"@);
        lemma_lookup_concat(w0 + w1, w2, "swimstyleid"@);
        lemma_lookup_concat(w0, w1, "swimstyleid"@);
        lemma_lookup_written("swimstyleid"@, decimal_text(x.id as nat), "swimstyleid"@);
        lemma_lookup_written("distance"@, decimal_text(x.distance as nat), "swimstyleid"@);
        lemma_lookup_written("relaycount"@, decimal_text(x.relay_count as nat), "swimstyleid"@);
        lemma_lookup_written("name"@, opt_written_text(opt_text(x.name)), "swimstyleid"@);
        lemma_lookup_written("stroke"@, x.stroke.spec_token(), "swimstyleid"@);
        lemma_lookup_concat(w0 + w1 + w2 + w3, w4, "distance"@);
        lemma_lookup_concat(w0 + w1 + w2, w3, "distance"@);
        lemma_lookup_concat(w0 + w1, w2, "distance"@);
        lemma_lookup_concat(w0, w1, "distance"@);
        lemma_lookup_written("swimstyleid"@, decimal_text(x.id as nat), "distance"@);
        lemma_lookup_written("distance"@, decimal_text(x.distance as nat), "distance"@);
        lemma_lookup_written("relaycount"@, decimal_text(x.relay_count as nat), "distance"@);
        lemma_lookup_written("name"@, opt_written_text(opt_text(x.name)), "distance"@);
        lemma_lookup_written("stroke"@, x.stroke.spec_token(), "distance"@);
        lemma_lookup_concat(w0 + w1 + w2 + w3, w4, "relaycount"@);
        lemma_lookup_concat(w0 + w1 + w2, w3, "relaycount"@);
        lemma_lookup_concat(w0 + w1, w2, "relaycount"@);
        lemma_lookup_concat(w0, w1, "relaycount"@);
        lemma_lookup_written("swimstyleid"@, decimal_text(x.id as nat), "relaycount"@);
        lemma_lookup_written("distance"@, decimal_text(x.distance as nat), "relaycount"@);
        lemma_lookup_written("relaycount"@, decimal_text(x.relay_count as nat), "relaycount"@);
        lemma_lookup_written("name"@, opt_written_text(opt_text(x.name)), "relaycount"@);
        lemma_lookup_written("stroke"@, x.stroke.spec_token(), "relaycount"@);
        lemma_lookup_concat(w0 + w1 + w2 + w3, w4, "name"@);
        lemma_lookup_concat(w0 + w1 + w2, w3, "name"@);
        lemma_lookup_concat(w0 + w1, w2, "name"@);
        lemma_lookup_concat(w0, w1, "name"@);
        lemma_lookup_written("swimstyleid"@, decimal_text(x.id as nat), "name"@);
        lemma_lookup_written("distance"@, decimal_text(x.distance as nat), "name"@);
        lemma_lookup_written("relaycount"@, decimal_text(x.relay_count as nat), "name"@);
        lemma_lookup_written("name"@, opt_written_text(opt_text(x.name)), "name"@);
        lemma_lookup_written("stroke"@, x.stroke.spec_token(), "name"@);
        lemma_lookup_concat(w0 + w1 + w2 + w3, w4, "stroke"@);
        lemma_lookup_concat(w0 + w1 + w2, w3, "stroke"@);
        lemma_lookup_concat(w0 + w1, w2, "stroke"@);
        lemma_lookup_concat(w0, w1, "stroke"@);
        lemma_lookup_written("swimstyleid"@, decimal_text(x.id as nat), "stroke"@);
        lemma_lookup_written("distance"@, decimal_text(x.distance as nat), "stroke"@);
        lemma_lookup_written("relaycount"@, decimal_text(x.relay_count as nat), "stroke"@);
        lemma_lookup_written("name"@, opt_written_text(opt_text(x.name)), "stroke"@);
        lemma_lookup_written("stroke"@, x.stroke.spec_token(), "stroke"@);
        lemma_decimal_text_reads_back(x.id as nat);
        lemma_decimal_text_reads_back(x.distance as nat);
        lemma_decimal_text_reads_back(x.relay_count as nat);
        Stroke::lemma_token_round_trip(x.stroke);
        if x.stroke.spec_token().len() == 0 {
            assert(x.stroke.spec_token() =~= Seq::<char>::empty());
        }
    }

    fn item_tag() -> (r: &'static str) {
        "SWIMSTYLE"
    }

    fn to_element(&self) -> (r: XmlElement) {
        let mut e = XmlElement::new("SWIMSTYLE");
        e.push_attribute("swimstyleid", decimal_string(self.id as u64));
        e.push_attribute("distance", decimal_string(self.distance as u64));
        e.push_attribute("relaycount", decimal_string(self.relay_count as u64));
        e.push_attribute("name", opt_string_text(&self.name));
        e.push_attribute("stroke", String::from_str(self.stroke.token()));
        assert(pairs(e.attributes@) =~= written("swimstyleid"@, decimal_text(self.id as nat))
            + written("distance"@, decimal_text(self.distance as nat))
            + written("relaycount"@, decimal_text(self.relay_count as nat))
            + written("name"@, opt_written_text(opt_text(self.name)))
            + written("stroke"@, self.stroke.spec_token()));
        proof {
            lemma_view_of(e);
        }
        e
    }

    fn from_element(e: &XmlElement) -> (r: Result<SwimStyle, DecodeError>) {
        let id = read_unsigned(e, "swimstyleid", u64::MAX)?;
        let distance = read_unsigned(e, "distance", u64::MAX)?;
        let relay_count = read_unsigned(e, "relaycount", u64::MAX)?;
        let name = read_opt_text(e, "name");
        let stroke = Stroke::from_token(read_token(e, "stroke"));
        Ok(SwimStyle { id, distance, relay_count, name, stroke })
    }
}

impl SwimStyle {
    /// A value with every field at its default: zero, empty, absent, or the
    /// neutral variant.
    pub fn empty() -> (r: SwimStyle)
        ensures
            r.id == 0,
            r.distance == 0,
            r.relay_count == 0,
            r.name is None,
            r.stroke == Stroke::Unknown,
    {
        SwimStyle {
            id: 0,
            distance: 0,
            relay_count: 0,
            name: None,
            stroke: Stroke::Unknown,
        }
    }
}

impl Default for SwimStyle {
    fn default() -> (r: SwimStyle)
        ensures
            r.id == 0,
            r.distance == 0,
            r.relay_count == 0,
            r.name is None,
            r.stroke == Stroke::Unknown,
    {
        SwimStyle::empty()
    }
}

} // verus!

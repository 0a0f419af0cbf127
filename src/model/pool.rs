use vstd::prelude::*;

use crate::collection::XmlRecord;
use crate::error::DecodeError;
use crate::fields::{
    err_of, narrow32, opt32, opt_decimal_string, opt_decimal_text, opt_string_text, opt_text,
    opt_unsigned_attr, opt_written_text, read_opt_text, read_opt_unsigned, widen32,
};
use crate::number::lemma_decimal_text_reads_back;
use crate::xml::{
    ElementView, XmlElement, attr, lemma_lookup_concat, lemma_lookup_written, lemma_view_of, pairs,
    written,
};

verus! {

/// The pool of a meet.
#[derive(Debug, PartialEq, Eq)]
pub struct Pool {
    pub name: Option<String>,
    pub lane_min: Option<u32>,
    pub lane_max: Option<u32>,
}

impl XmlRecord for Pool {
    open spec fn spec_item_tag() -> Seq<char> {
        "POOL"@
    }

    open spec fn written_as(x: Self, e: ElementView) -> bool {
        &&& e.name == "POOL"@
        &&& e.attributes == written("name"@, opt_written_text(opt_text(x.name)))
            + written("lanemin"@, opt_decimal_text(opt32(x.lane_min)))
            + written("lanemax"@, opt_decimal_text(opt32(x.lane_max)))
        &&& e.children.len() == 0
    }

    open spec fn readable(e: ElementView) -> bool {
        &&& opt_unsigned_attr(e, "lanemin"@, u32::MAX as u64) is Ok
        &&& opt_unsigned_attr(e, "lanemax"@, u32::MAX as u64) is Ok
    }

    open spec fn read_error(e: ElementView) -> DecodeError {
        if opt_unsigned_attr(e, "lanemin"@, u32::MAX as u64) is Err {
            err_of(opt_unsigned_attr(e, "lanemin"@, u32::MAX as u64))
        } else if opt_unsigned_attr(e, "lanemax"@, u32::MAX as u64) is Err {
            err_of(opt_unsigned_attr(e, "lanemax"@, u32::MAX as u64))
        } else {
            DecodeError::MalformedXml
        }
    }

    open spec fn read_as(e: ElementView, x: Self) -> bool {
        &&& opt_text(x.name) == attr(e, "name"@)
        &&& opt_unsigned_attr(e, "lanemin"@, u32::MAX as u64) == Ok::<Option<u64>, DecodeError>(opt32(x.lane_min))
        &&& opt_unsigned_attr(e, "lanemax"@, u32::MAX as u64) == Ok::<Option<u64>, DecodeError>(opt32(x.lane_max))
    }

    open spec fn same(x: Self, y: Self) -> bool {
        &&& opt_text(x.name) == opt_text(y.name)
        &&& x.lane_min == y.lane_min
        &&& x.lane_max == y.lane_max
    }

    open spec fn faithful(x: Self) -> bool {
        &&& x.name matches Some(v) ==> v@.len() > 0
    }

    proof fn lemma_round_trip(x: Self, e: ElementView, y: Self) {
        reveal_strlit("lanemax");
        assert("lanemax"@.len() == 7);
        assert("lanemax"@[0] == 'l');
        assert("lanemax"@[1] == 'a');
        assert("lanemax"@[2] == 'n');
        assert("lanemax"@[3] == 'e');
        assert("lanemax"@[4] == 'm');
        assert("lanemax"@[5] == 'a');
        reveal_strlit("lanemin");
        assert("lanemin"@.len() == 7);
        assert("lanemin"@[0] == 'l');
        assert("lanemin"@[1] == 'a');
        assert("lanemin"@[2] == 'n');
        assert("lanemin"@[3] == 'e');
        assert("lanemin"@[4] == 'm');
        assert("lanemin"@[5] == 'i');
        reveal_strlit("name");
        assert("name"@.len() == 4);
        let w0 = written("name"@, opt_written_text(opt_text(x.name)));
        let w1 = written("lanemin"@, opt_decimal_text(opt32(x.lane_min)));
        let w2 = written("lanemax"@, opt_decimal_text(opt32(x.lane_max)));
        assert(e.attributes == w0 + w1 + w2);
        lemma_lookup_concat(w0 + w1, w2, "name"@);
        lemma_lookup_concat(w0, w1, "name"@);
        lemma_lookup_written("name"@, opt_written_text(opt_text(x.name)), "name"@);
        lemma_lookup_written("lanemin"@, opt_decimal_text(opt32(x.lane_min)), "name"@);
        lemma_lookup_written("lanemax"@, opt_decimal_text(opt32(x.lane_max)), "name"@);
        lemma_lookup_concat(w0 + w1, w2, "lanemin"@);
        lemma_lookup_concat(w0, w1, "lanemin"@);
        lemma_lookup_written("name"@, opt_written_text(opt_text(x.name)), "lanemin"@);
        lemma_lookup_written("lanemin"@, opt_decimal_text(opt32(x.lane_min)), "lanemin"@);
        lemma_lookup_written("lanemax"@, opt_decimal_text(opt32(x.lane_max)), "lanemin"@);
        lemma_lookup_concat(w0 + w1, w2, "lanemax"@);
        lemma_lookup_concat(w0, w1, "lanemax"@);
        lemma_lookup_written("name"@, opt_written_text(opt_text(x.name)), "lanemax"@);
        lemma_lookup_written("lanemin"@, opt_decimal_text(opt32(x.lane_min)), "lanemax"@);
        lemma_lookup_written("lanemax"@, opt_decimal_text(opt32(x.lane_max)), "lanemax"@);
        if let Some(v) = x.lane_min {
            lemma_decimal_text_reads_back(v as nat);
        }
        if let Some(v) = x.lane_max {
            lemma_decimal_text_reads_back(v as nat);
        }
    }

    fn item_tag() -> (r: &'static str) {
        "POOL"
    }

    fn to_element(&self) -> (r: XmlElement) {
        let mut e = XmlElement::new("POOL");
        e.push_attribute("name", opt_string_text(&self.name));
        e.push_attribute("lanemin", opt_decimal_string(widen32(self.lane_min)));
        e.push_attribute("lanemax", opt_decimal_string(widen32(self.lane_max)));
        assert(pairs(e.attributes@) =~= written("name"@, opt_written_text(opt_text(self.name)))
            + written("lanemin"@, opt_decimal_text(opt32(self.lane_min)))
            + written("lanemax"@, opt_decimal_text(opt32(self.lane_max))));
        proof {
            lemma_view_of(e);
        }
        e
    }

    fn from_element(e: &XmlElement) -> (r: Result<Pool, DecodeError>) {
        let name = read_opt_text(e, "name");
        let lane_min = narrow32(read_opt_unsigned(e, "lanemin", u32::MAX as u64)?);
        let lane_max = narrow32(read_opt_unsigned(e, "lanemax", u32::MAX as u64)?);
        Ok(Pool { name, lane_min, lane_max })
    }
}

impl Pool {
    /// A value with every field at its default: zero, empty, absent, or the
    /// neutral variant.
    pub fn empty() -> (r: Pool)
        ensures
            r.name is None,
            r.lane_min is None,
            r.lane_max is None,
    {
        Pool {
            name: None,
            lane_min: None,
            lane_max: None,
        }
    }
}

impl Default for Pool {
    fn default() -> (r: Pool)
        ensures
            r.name is None,
            r.lane_min is None,
            r.lane_max is None,
    {
        Pool::empty()
    }
}

impl Pool {
    /// The number of lanes, from the first to the last: `None` unless both
    /// are given.
    pub fn number_of_lane(&self) -> (r: Option<u32>)
        requires
            (self.lane_min, self.lane_max) matches (Some(a), Some(b)) ==> a <= b && b - a < u32::MAX,
        ensures
            r == match (self.lane_min, self.lane_max) {
                (Some(a), Some(b)) => Some((b - a + 1) as u32),
                _ => None,
            },
    {
        match (self.lane_min, self.lane_max) {
            (Some(min), Some(max)) => Some(max - min + 1),
            _ => None,
        }
    }
}

} // verus!

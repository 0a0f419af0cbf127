use vstd::prelude::*;

use crate::collection::{CollectionItem, XmlRecord};
use crate::error::DecodeError;
use crate::fields::{err_of, read_swim, read_unsigned, swim_attr, swim_of, unsigned_attr};
use crate::number::{decimal_string, decimal_text, lemma_decimal_text_reads_back};
use crate::time::{SwimDuration, opt_swim_text, swim_field, swim_text};
use crate::xml::{
    ElementView, XmlElement, lemma_lookup_concat, lemma_lookup_written, lemma_view_of, pairs,
    written,
};

verus! {

/// An athlete's entry in an event, with an optional entry time. The event
/// is named by its id only; nothing checks that such an event exists.
#[derive(Debug, PartialEq, Eq)]
pub struct Entry {
    pub event_id: u32,
    pub entry_time: Option<SwimDuration>,
}

impl XmlRecord for Entry {
    open spec fn spec_item_tag() -> Seq<char> {
        "ENTRY"@
    }

    open spec fn written_as(x: Self, e: ElementView) -> bool {
        &&& e.name == "ENTRY"@
        &&& e.attributes == written("eventid"@, decimal_text(x.event_id as nat))
            + written("entrytime"@, opt_swim_text(x.entry_time))
        &&& e.children.len() == 0
    }

    open spec fn readable(e: ElementView) -> bool {
        &&& unsigned_attr(e, "eventid"@, u32::MAX as u64) is Ok
        &&& swim_attr(e, "entrytime"@) is Ok
    }

    open spec fn read_error(e: ElementView) -> DecodeError {
        if unsigned_attr(e, "eventid"@, u32::MAX as u64) is Err {
            err_of(unsigned_attr(e, "eventid"@, u32::MAX as u64))
        } else if swim_attr(e, "entrytime"@) is Err {
            err_of(swim_attr(e, "entrytime"@))
        } else {
            DecodeError::MalformedXml
        }
    }

    open spec fn read_as(e: ElementView, x: Self) -> bool {
        &&& unsigned_attr(e, "eventid"@, u32::MAX as u64) == Ok::<u64, DecodeError>(x.event_id as u64)
        &&& swim_attr(e, "entrytime"@) == Ok::<Option<u64>, DecodeError>(swim_of(x.entry_time))
    }

    open spec fn same(x: Self, y: Self) -> bool {
        &&& x.event_id == y.event_id
        &&& x.entry_time == y.entry_time
    }

    open spec fn faithful(x: Self) -> bool {
        &&& x.entry_time matches Some(d) ==> swim_field(swim_text(d.milliseconds as nat)) == Ok::<u64, DecodeError>(d.milliseconds)
    }

    proof fn lemma_round_trip(x: Self, e: ElementView, y: Self) {
        reveal_strlit("entrytime");
        assert("entrytime"@.len() == 9);
        reveal_strlit("eventid");
        assert("eventid"@.len() == 7);
        let w0 = written("eventid"@, decimal_text(x.event_id as nat));
        let w1 = written("entrytime"@, opt_swim_text(x.entry_time));
        assert(e.attributes == w0 + w1);
        lemma_lookup_concat(w0, w1, "eventid"@);
        lemma_lookup_written("eventid"@, decimal_text(x.event_id as nat), "eventid"@);
        lemma_lookup_written("entrytime"@, opt_swim_text(x.entry_time), "eventid"@);
        lemma_lookup_concat(w0, w1, "entrytime"@);
        lemma_lookup_written("eventid"@, decimal_text(x.event_id as nat), "entrytime"@);
        lemma_lookup_written("entrytime"@, opt_swim_text(x.entry_time), "entrytime"@);
        lemma_decimal_text_reads_back(x.event_id as nat);
    }

    fn item_tag() -> (r: &'static str) {
        "ENTRY"
    }

    fn to_element(&self) -> (r: XmlElement) {
        let mut e = XmlElement::new("ENTRY");
        e.push_attribute("eventid", decimal_string(self.event_id as u64));
        e.push_attribute("entrytime", match &self.entry_time {
            Some(d) => d.encode(),
            None => String::new(),
        });
        assert(pairs(e.attributes@) =~= written("eventid"@, decimal_text(self.event_id as nat))
            + written("entrytime"@, opt_swim_text(self.entry_time)));
        proof {
            lemma_view_of(e);
        }
        e
    }

    fn from_element(e: &XmlElement) -> (r: Result<Entry, DecodeError>) {
        let event_id = read_unsigned(e, "eventid", u32::MAX as u64)? as u32;
        let entry_time = read_swim(e, "entrytime")?;
        Ok(Entry { event_id, entry_time })
    }
}

impl CollectionItem for Entry {
    open spec fn spec_collection_tag() -> Seq<char> {
        "ENTRIES"@
    }

    fn collection_tag() -> (r: &'static str) {
        "ENTRIES"
    }
}

impl Entry {
    /// A value with every field at its default: zero, empty, absent, or the
    /// neutral variant.
    pub fn empty() -> (r: Entry)
        ensures
            r.event_id == 0,
            r.entry_time is None,
    {
        Entry {
            event_id: 0,
            entry_time: None,
        }
    }
}

impl Default for Entry {
    fn default() -> (r: Entry)
        ensures
            r.event_id == 0,
            r.entry_time is None,
    {
        Entry::empty()
    }
}

impl Entry {
    /// An entry in the event with this id, with an optional entry time.
    pub fn new(event_id: u32, entry_time: Option<SwimDuration>) -> (r: Entry)
        ensures
            r.event_id == event_id,
            r.entry_time == entry_time,
    {
        Entry { event_id, entry_time }
    }
}

} // verus!

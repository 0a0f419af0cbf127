use vstd::prelude::*;

use crate::collection::{
    Collection, CollectionItem, XmlRecord, all_faithful, all_same, collection_read_as,
    collection_read_error, collection_readable, collection_written_as, lemma_collection_values,
};
use crate::error::DecodeError;
use crate::fields::{
    clock_attr, clock_of, err_of, listed, narrow32, opt32, read_clock, read_sentinel,
    read_unsigned, sentinel_attr, unsigned_attr, widen32,
};
use crate::model::{AgeGroup, Gender, Round, SwimStyle};
use crate::number::{
    decimal_string, decimal_text, encode_sentinel, lemma_decimal_text_reads_back,
    lemma_minus_one_is_absent, sentinel_text,
};
use crate::time::{ClockTime, chrono_time_fields, clock_text, opt_clock_text};
use crate::xml::{
    ElementView, XmlElement, attr, child, lemma_first_named_at, lemma_lookup_concat,
    lemma_lookup_written, lemma_view_of, pairs, written,
};

verus! {

/// An event of a session.
#[derive(Debug, PartialEq, Eq)]
pub struct Event {
    pub id: u32,
    pub prev_event_id: Option<u32>,
    pub day_time: Option<ClockTime>,
    pub gender: Option<Gender>,
    pub number: u32,
    pub order: Option<u32>,
    pub round: Option<Round>,
    pub swim_style: SwimStyle,
    pub age_groups: Collection<AgeGroup>,
}

impl XmlRecord for Event {
    open spec fn spec_item_tag() -> Seq<char> {
        "EVENT"@
    }

    open spec fn written_as(x: Self, e: ElementView) -> bool {
        &&& e.name == "EVENT"@
        &&& e.attributes == written("eventid"@, decimal_text(x.id as nat))
            + written("preveventid"@, sentinel_text(opt32(x.prev_event_id)))
            + written("daytime"@, opt_clock_text(x.day_time))
            + written("gender"@, Gender::spec_opt_token(x.gender))
            + written("number"@, decimal_text(x.number as nat))
            + written("order"@, sentinel_text(opt32(x.order)))
            + written("round"@, Round::spec_opt_token(x.round))
        &&& e.children.len() == 1int + listed(x.age_groups.items@)
        &&& SwimStyle::written_as(x.swim_style, e.children[0])
        &&& x.age_groups.items@.len() > 0 ==> collection_written_as(x.age_groups.items@, e.children[1int])
    }

    open spec fn readable(e: ElementView) -> bool {
        &&& unsigned_attr(e, "eventid"@, u32::MAX as u64) is Ok
        &&& sentinel_attr(e, "preveventid"@, u32::MAX as u64) is Ok
        &&& clock_attr(e, "daytime"@) is Ok
        &&& unsigned_attr(e, "number"@, u32::MAX as u64) is Ok
        &&& sentinel_attr(e, "order"@, u32::MAX as u64) is Ok
        &&& child(e, "SWIMSTYLE"@) matches Some(c) && SwimStyle::readable(c)
        &&& match child(e, "AGEGROUPS"@) {
                Some(c) => collection_readable::<AgeGroup>(c),
                None => true,
            }
    }

    open spec fn read_error(e: ElementView) -> DecodeError {
        if unsigned_attr(e, "eventid"@, u32::MAX as u64) is Err {
            err_of(unsigned_attr(e, "eventid"@, u32::MAX as u64))
        } else if sentinel_attr(e, "preveventid"@, u32::MAX as u64) is Err {
            err_of(sentinel_attr(e, "preveventid"@, u32::MAX as u64))
        } else if clock_attr(e, "daytime"@) is Err {
            err_of(clock_attr(e, "daytime"@))
        } else if unsigned_attr(e, "number"@, u32::MAX as u64) is Err {
            err_of(unsigned_attr(e, "number"@, u32::MAX as u64))
        } else if sentinel_attr(e, "order"@, u32::MAX as u64) is Err {
            err_of(sentinel_attr(e, "order"@, u32::MAX as u64))
        } else if !(child(e, "SWIMSTYLE"@) matches Some(c) && SwimStyle::readable(c)) {
            match child(e, "SWIMSTYLE"@) {
                Some(c) => SwimStyle::read_error(c),
                None => DecodeError::MissingElement,
            }
        } else if !(match child(e, "AGEGROUPS"@) {
                Some(c) => collection_readable::<AgeGroup>(c),
                None => true,
            }) {
            match child(e, "AGEGROUPS"@) {
                Some(c) => collection_read_error::<AgeGroup>(c),
                None => DecodeError::MalformedXml,
            }
        } else {
            DecodeError::MalformedXml
        }
    }

    open spec fn read_as(e: ElementView, x: Self) -> bool {
        &&& unsigned_attr(e, "eventid"@, u32::MAX as u64) == Ok::<u64, DecodeError>(x.id as u64)
        &&& sentinel_attr(e, "preveventid"@, u32::MAX as u64) == Ok::<Option<u64>, DecodeError>(opt32(x.prev_event_id))
        &&& clock_attr(e, "daytime"@) == Ok::<Option<(nat, nat)>, DecodeError>(clock_of(x.day_time))
        &&& x.gender == Gender::spec_from_attr(attr(e, "gender"@))
        &&& unsigned_attr(e, "number"@, u32::MAX as u64) == Ok::<u64, DecodeError>(x.number as u64)
        &&& sentinel_attr(e, "order"@, u32::MAX as u64) == Ok::<Option<u64>, DecodeError>(opt32(x.order))
        &&& x.round == Round::spec_from_attr(attr(e, "round"@))
        &&& child(e, "SWIMSTYLE"@) matches Some(c) && SwimStyle::read_as(c, x.swim_style)
        &&& match child(e, "AGEGROUPS"@) {
                Some(c) => collection_read_as(c, x.age_groups.items@),
                None => x.age_groups.items@.len() == 0,
            }
    }

    open spec fn same(x: Self, y: Self) -> bool {
        &&& x.id == y.id
        &&& x.prev_event_id == y.prev_event_id
        &&& clock_of(x.day_time) == clock_of(y.day_time)
        &&& x.gender == y.gender
        &&& x.number == y.number
        &&& x.order == y.order
        &&& x.round == y.round
        &&& SwimStyle::same(x.swim_style, y.swim_style)
        &&& all_same(x.age_groups.items@, y.age_groups.items@)
    }

    open spec fn faithful(x: Self) -> bool {
        &&& x.day_time matches Some(t) ==> chrono_time_fields(clock_text(t.hour_of(), t.minute_of()), "%H:%M"@) matches Some(f) && f.0 == t.hour_of() && f.1 == t.minute_of()
        &&& x.gender matches Some(v) ==> v.spec_token().len() > 0
        &&& x.round matches Some(v) ==> v.spec_token().len() > 0
        &&& SwimStyle::faithful(x.swim_style)
        &&& all_faithful(x.age_groups.items@)
    }

    #[verifier::spinoff_prover]
    #[verifier::rlimit(100)]
    proof fn lemma_round_trip(x: Self, e: ElementView, y: Self) {
        reveal_strlit("AGEGROUPS");
        assert("AGEGROUPS"@.len() == 9);
        assert("AGEGROUPS"@[0] == 'A');
        reveal_strlit("SWIMSTYLE");
        assert("SWIMSTYLE"@.len() == 9);
        assert("SWIMSTYLE"@[0] == 'S');
        reveal_strlit("daytime");
        assert("daytime"@.len() == 7);
        assert("daytime"@[0] == 'd');
        reveal_strlit("eventid");
        assert("eventid"@.len() == 7);
        assert("eventid"@[0] == 'e');
        reveal_strlit("gender");
        assert("gender"@.len() == 6);
        assert("gender"@[0] == 'g');
        reveal_strlit("number");
        assert("number"@.len() == 6);
        assert("number"@[0] == 'n');
        reveal_strlit("order");
        assert("order"@.len() == 5);
        assert("order"@[0] == 'o');
        reveal_strlit("preveventid");
        assert("preveventid"@.len() == 11);
        reveal_strlit("round");
        assert("round"@.len() == 5);
        assert("round"@[0] == 'r');
        let w0 = written("eventid"@, decimal_text(x.id as nat));
        let w1 = written("preveventid"@, sentinel_text(opt32(x.prev_event_id)));
        let w2 = written("daytime"@, opt_clock_text(x.day_time));
        let w3 = written("gender"@, Gender::spec_opt_token(x.gender));
        let w4 = written("number"@, decimal_text(x.number as nat));
        let w5 = written("order"@, sentinel_text(opt32(x.order)));
        let w6 = written("round"@, Round::spec_opt_token(x.round));
        assert(e.attributes == w0 + w1 + w2 + w3 + w4 + w5 + w6);
        lemma_lookup_concat(w0 + w1 + w2 + w3 + w4 + w5, w6, "eventid"@);
        lemma_lookup_concat(w0 + w1 + w2 + w3 + w4, w5, "eventid"@);
        lemma_lookup_concat(w0 + w1 + w2 + w3, w4, "eventid"@);
        lemma_lookup_concat(w0 + w1 + w2, w3, "eventid"@);
        lemma_lookup_concat(w0 + w1, w2, "eventid"@);
        lemma_lookup_concat(w0, w1, "eventid"@);
        lemma_lookup_written("eventid"@, decimal_text(x.id as nat), "eventid"@);
        lemma_lookup_written("preveventid"@, sentinel_text(opt32(x.prev_event_id)), "eventid"@);
        lemma_lookup_written("daytime"@, opt_clock_text(x.day_time), "eventid"@);
        lemma_lookup_written("gender"@, Gender::spec_opt_token(x.gender), "eventid"@);
        lemma_lookup_written("number"@, decimal_text(x.number as nat), "eventid"@);
        lemma_lookup_written("order"@, sentinel_text(opt32(x.order)), "eventid"@);
        lemma_lookup_written("round"@, Round::spec_opt_token(x.round), "eventid"@);
        lemma_lookup_concat(w0 + w1 + w2 + w3 + w4 + w5, w6, "preveventid"@);
        lemma_lookup_concat(w0 + w1 + w2 + w3 + w4, w5, "preveventid"@);
        lemma_lookup_concat(w0 + w1 + w2 + w3, w4, "preveventid"@);
        lemma_lookup_concat(w0 + w1 + w2, w3, "preveventid"@);
        lemma_lookup_concat(w0 + w1, w2, "preveventid"@);
        lemma_lookup_concat(w0, w1, "preveventid"@);
        lemma_lookup_written("eventid"@, decimal_text(x.id as nat), "preveventid"@);
        lemma_lookup_written("preveventid"@, sentinel_text(opt32(x.prev_event_id)), "preveventid"@);
        lemma_lookup_written("daytime"@, opt_clock_text(x.day_time), "preveventid"@);
        lemma_lookup_written("gender"@, Gender::spec_opt_token(x.gender), "preveventid"@);
        lemma_lookup_written("number"@, decimal_text(x.number as nat), "preveventid"@);
        lemma_lookup_written("order"@, sentinel_text(opt32(x.order)), "preveventid"@);
        lemma_lookup_written("round"@, Round::spec_opt_token(x.round), "preveventid"@);
        lemma_lookup_concat(w0 + w1 + w2 + w3 + w4 + w5, w6, "daytime"@);
        lemma_lookup_concat(w0 + w1 + w2 + w3 + w4, w5, "daytime"@);
        lemma_lookup_concat(w0 + w1 + w2 + w3, w4, "daytime"@);
        lemma_lookup_concat(w0 + w1 + w2, w3, "daytime"@);
        lemma_lookup_concat(w0 + w1, w2, "daytime"@);
        lemma_lookup_concat(w0, w1, "daytime"@);
        lemma_lookup_written("eventid"@, decimal_text(x.id as nat), "daytime"@);
        lemma_lookup_written("preveventid"@, sentinel_text(opt32(x.prev_event_id)), "daytime"@);
        lemma_lookup_written("daytime"@, opt_clock_text(x.day_time), "daytime"@);
        lemma_lookup_written("gender"@, Gender::spec_opt_token(x.gender), "daytime"@);
        lemma_lookup_written("number"@, decimal_text(x.number as nat), "daytime"@);
        lemma_lookup_written("order"@, sentinel_text(opt32(x.order)), "daytime"@);
        lemma_lookup_written("round"@, Round::spec_opt_token(x.round), "daytime"@);
        lemma_lookup_concat(w0 + w1 + w2 + w3 + w4 + w5, w6, "gender"@);
        lemma_lookup_concat(w0 + w1 + w2 + w3 + w4, w5, "gender"@);
        lemma_lookup_concat(w0 + w1 + w2 + w3, w4, "gender"@);
        lemma_lookup_concat(w0 + w1 + w2, w3, "gender"@);
        lemma_lookup_concat(w0 + w1, w2, "gender"@);
        lemma_lookup_concat(w0, w1, "gender"@);
        lemma_lookup_written("eventid"@, decimal_text(x.id as nat), "gender"@);
        lemma_lookup_written("preveventid"@, sentinel_text(opt32(x.prev_event_id)), "gender"@);
        lemma_lookup_written("daytime"@, opt_clock_text(x.day_time), "gender"@);
        lemma_lookup_written("gender"@, Gender::spec_opt_token(x.gender), "gender"@);
        lemma_lookup_written("number"@, decimal_text(x.number as nat), "gender"@);
        lemma_lookup_written("order"@, sentinel_text(opt32(x.order)), "gender"@);
        lemma_lookup_written("round"@, Round::spec_opt_token(x.round), "gender"@);
        lemma_lookup_concat(w0 + w1 + w2 + w3 + w4 + w5, w6, "number"@);
        lemma_lookup_concat(w0 + w1 + w2 + w3 + w4, w5, "number"@);
        lemma_lookup_concat(w0 + w1 + w2 + w3, w4, "number"@);
        lemma_lookup_concat(w0 + w1 + w2, w3, "number"@);
        lemma_lookup_concat(w0 + w1, w2, "number"@);
        lemma_lookup_concat(w0, w1, "number"@);
        lemma_lookup_written("eventid"@, decimal_text(x.id as nat), "number"@);
        lemma_lookup_written("preveventid"@, sentinel_text(opt32(x.prev_event_id)), "number"@);
        lemma_lookup_written("daytime"@, opt_clock_text(x.day_time), "number"@);
        lemma_lookup_written("gender"@, Gender::spec_opt_token(x.gender), "number"@);
        lemma_lookup_written("number"@, decimal_text(x.number as nat), "number"@);
        lemma_lookup_written("order"@, sentinel_text(opt32(x.order)), "number"@);
        lemma_lookup_written("round"@, Round::spec_opt_token(x.round), "number"@);
        lemma_lookup_concat(w0 + w1 + w2 + w3 + w4 + w5, w6, "order"@);
        lemma_lookup_concat(w0 + w1 + w2 + w3 + w4, w5, "order"@);
        lemma_lookup_concat(w0 + w1 + w2 + w3, w4, "order"@);
        lemma_lookup_concat(w0 + w1 + w2, w3, "order"@);
        lemma_lookup_concat(w0 + w1, w2, "order"@);
        lemma_lookup_concat(w0, w1, "order"@);
        lemma_lookup_written("eventid"@, decimal_text(x.id as nat), "order"@);
        lemma_lookup_written("preveventid"@, sentinel_text(opt32(x.prev_event_id)), "order"@);
        lemma_lookup_written("daytime"@, opt_clock_text(x.day_time), "order"@);
        lemma_lookup_written("gender"@, Gender::spec_opt_token(x.gender), "order"@);
        lemma_lookup_written("number"@, decimal_text(x.number as nat), "order"@);
        lemma_lookup_written("order"@, sentinel_text(opt32(x.order)), "order"@);
        lemma_lookup_written("round"@, Round::spec_opt_token(x.round), "order"@);
        lemma_lookup_concat(w0 + w1 + w2 + w3 + w4 + w5, w6, "round"@);
        lemma_lookup_concat(w0 + w1 + w2 + w3 + w4, w5, "round"@);
        lemma_lookup_concat(w0 + w1 + w2 + w3, w4, "round"@);
        lemma_lookup_concat(w0 + w1 + w2, w3, "round"@);
        lemma_lookup_concat(w0 + w1, w2, "round"@);
        lemma_lookup_concat(w0, w1, "round"@);
        lemma_lookup_written("eventid"@, decimal_text(x.id as nat), "round"@);
        lemma_lookup_written("preveventid"@, sentinel_text(opt32(x.prev_event_id)), "round"@);
        lemma_lookup_written("daytime"@, opt_clock_text(x.day_time), "round"@);
        lemma_lookup_written("gender"@, Gender::spec_opt_token(x.gender), "round"@);
        lemma_lookup_written("number"@, decimal_text(x.number as nat), "round"@);
        lemma_lookup_written("order"@, sentinel_text(opt32(x.order)), "round"@);
        lemma_lookup_written("round"@, Round::spec_opt_token(x.round), "round"@);
        lemma_decimal_text_reads_back(x.id as nat);
        if let Some(v) = x.prev_event_id {
            lemma_decimal_text_reads_back(v as nat);
        } else {
            lemma_minus_one_is_absent(u32::MAX as u64);
        }
        if let Some(v) = x.gender {
            Gender::lemma_token_round_trip(v);
        }
        lemma_decimal_text_reads_back(x.number as nat);
        if let Some(v) = x.order {
            lemma_decimal_text_reads_back(v as nat);
        } else {
            lemma_minus_one_is_absent(u32::MAX as u64);
        }
        if let Some(v) = x.round {
            Round::lemma_token_round_trip(v);
        }
        assert forall|j: int| 0 <= j < 0 implies (#[trigger] e.children[j]).name != "SWIMSTYLE"@ by {
            
        }
        lemma_first_named_at(e.children, "SWIMSTYLE"@, 0);
        SwimStyle::lemma_round_trip(x.swim_style, e.children[0], y.swim_style);
        if x.age_groups.items@.len() > 0 {
            assert forall|j: int| 0 <= j < 1int implies (#[trigger] e.children[j]).name != "AGEGROUPS"@ by {
                if j == 0 {
                }
            }
            lemma_first_named_at(e.children, "AGEGROUPS"@, 1int);
            lemma_collection_values(x.age_groups.items@, e.children[1int], y.age_groups.items@);
        } else {
            assert forall|j: int| 0 <= j < e.children.len() implies (#[trigger] e.children[j]).name != "AGEGROUPS"@ by {
                if j == 1int {
                } else if j == 0 {
                }
            }
            lemma_first_named_at(e.children, "AGEGROUPS"@, e.children.len() as int);
        }
    }

    fn item_tag() -> (r: &'static str) {
        "EVENT"
    }

    fn to_element(&self) -> (r: XmlElement) {
        let mut e = XmlElement::new("EVENT");
        e.push_attribute("eventid", decimal_string(self.id as u64));
        e.push_attribute("preveventid", encode_sentinel(widen32(self.prev_event_id)));
        e.push_attribute("daytime", match &self.day_time {
            Some(t) => t.encode(),
            None => String::new(),
        });
        e.push_attribute("gender", match &self.gender {
            Some(t) => String::from_str(t.token()),
            None => String::new(),
        });
        e.push_attribute("number", decimal_string(self.number as u64));
        e.push_attribute("order", encode_sentinel(widen32(self.order)));
        e.push_attribute("round", match &self.round {
            Some(t) => String::from_str(t.token()),
            None => String::new(),
        });
        e.children.push(self.swim_style.to_element());
        if self.age_groups.len() > 0 {
            e.children.push(self.age_groups.to_element());
        }
        assert(pairs(e.attributes@) =~= written("eventid"@, decimal_text(self.id as nat))
            + written("preveventid"@, sentinel_text(opt32(self.prev_event_id)))
            + written("daytime"@, opt_clock_text(self.day_time))
            + written("gender"@, Gender::spec_opt_token(self.gender))
            + written("number"@, decimal_text(self.number as nat))
            + written("order"@, sentinel_text(opt32(self.order)))
            + written("round"@, Round::spec_opt_token(self.round)));
        proof {
            lemma_view_of(e);
        }
        e
    }

    fn from_element(e: &XmlElement) -> (r: Result<Event, DecodeError>) {
        let id = read_unsigned(e, "eventid", u32::MAX as u64)? as u32;
        let prev_event_id = narrow32(read_sentinel(e, "preveventid", u32::MAX as u64)?);
        let day_time = read_clock(e, "daytime")?;
        let gender = match e.attribute("gender") {
            Some(v) => Some(Gender::from_token(v.as_str())),
            None => None,
        };
        let number = read_unsigned(e, "number", u32::MAX as u64)? as u32;
        let order = narrow32(read_sentinel(e, "order", u32::MAX as u64)?);
        let round = match e.attribute("round") {
            Some(v) => Some(Round::from_token(v.as_str())),
            None => None,
        };
        let swim_style = match e.child("SWIMSTYLE") {
            Some(c) => SwimStyle::from_element(c)?,
            None => {
                return Err(DecodeError::MissingElement);
            },
        };
        let age_groups = match e.child("AGEGROUPS") {
            Some(c) => Collection::<AgeGroup>::from_element(c)?,
            None => Collection::new(Vec::new()),
        };
        Ok(Event {
            id,
            prev_event_id,
            day_time,
            gender,
            number,
            order,
            round,
            swim_style,
            age_groups,
        })
    }
}

impl CollectionItem for Event {
    open spec fn spec_collection_tag() -> Seq<char> {
        "EVENTS"@
    }

    fn collection_tag() -> (r: &'static str) {
        "EVENTS"
    }
}

impl Event {
    /// A value with every field at its default: zero, empty, absent, or the
    /// neutral variant.
    pub fn empty() -> (r: Event)
        ensures
            r.id == 0,
            r.prev_event_id is None,
            r.day_time is None,
            r.gender is None,
            r.number == 0,
            r.order is None,
            r.round is None,
            r.age_groups.items@.len() == 0,
    {
        Event {
            id: 0,
            prev_event_id: None,
            day_time: None,
            gender: None,
            number: 0,
            order: None,
            round: None,
            swim_style: SwimStyle::empty(),
            age_groups: Collection::new(Vec::new()),
        }
    }
}

impl Default for Event {
    fn default() -> (r: Event)
        ensures
            r.id == 0,
            r.prev_event_id is None,
            r.day_time is None,
            r.gender is None,
            r.number == 0,
            r.order is None,
            r.round is None,
            r.age_groups.items@.len() == 0,
    {
        Event::empty()
    }
}

impl Event {
    /// An event with this id, number and swim style, and every other field
    /// absent or at its default.
    pub fn new(id: u32, number: u32, swim_style: SwimStyle) -> (r: Event)
        ensures
            r.id == id,
            r.number == number,
            r.swim_style == swim_style,
            r.prev_event_id is None,
            r.day_time is None,
            r.gender is None,
            r.order is None,
            r.round is None,
            r.age_groups.items@.len() == 0,
    {
        let mut e = Event::empty();
        e.id = id;
        e.number = number;
        e.swim_style = swim_style;
        e
    }
}

} // verus!

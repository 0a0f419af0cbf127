use vstd::prelude::*;

use crate::collection::{
    Collection, CollectionItem, XmlRecord, all_faithful, all_same, collection_read_as,
    collection_read_error, collection_readable, collection_written_as, lemma_collection_values,
};
use crate::error::DecodeError;
use crate::fields::{
    clock_attr, clock_of, date_attr, date_of, err_of, opt_string_text, opt_text, opt_written_text,
    read_clock, read_date, read_opt_text, read_unsigned, unsigned_attr,
};
use crate::model::Event;
use crate::number::{decimal_string, decimal_text, lemma_decimal_text_reads_back};
use crate::time::{
    ClockTime, Date, chrono_date_fields, chrono_time_fields, clock_text, date_text_of,
    opt_clock_text,
};
use crate::xml::{
    ElementView, XmlElement, attr, child, lemma_first_named_at, lemma_lookup_concat,
    lemma_lookup_written, lemma_view_of, pairs, written,
};

verus! {

/// A session of a meet, with its events in order.
#[derive(Debug, PartialEq, Eq)]
pub struct Session {
    pub date: Date,
    pub day_time: Option<ClockTime>,
    pub end_time: Option<ClockTime>,
    pub name: Option<String>,
    pub number: u32,
    pub team_leader_meeting: Option<ClockTime>,
    pub warmup_from: Option<ClockTime>,
    pub warmup_until: Option<ClockTime>,
    pub timing: Option<String>,
    pub events: Collection<Event>,
}

impl XmlRecord for Session {
    open spec fn spec_item_tag() -> Seq<char> {
        "SESSION"@
    }

    open spec fn written_as(x: Self, e: ElementView) -> bool {
        &&& e.name == "SESSION"@
        &&& e.attributes == written("date"@, date_text_of(x.date))
            + written("daytime"@, opt_clock_text(x.day_time))
            + written("endtime"@, opt_clock_text(x.end_time))
            + written("name"@, opt_written_text(opt_text(x.name)))
            + written("number"@, decimal_text(x.number as nat))
            + written("teamleadermeeting"@, opt_clock_text(x.team_leader_meeting))
            + written("warmupfrom"@, opt_clock_text(x.warmup_from))
            + written("warmupuntil"@, opt_clock_text(x.warmup_until))
            + written("timing"@, opt_written_text(opt_text(x.timing)))
        &&& e.children.len() == 1int
        &&& collection_written_as(x.events.items@, e.children[0])
    }

    open spec fn readable(e: ElementView) -> bool {
        &&& date_attr(e, "date"@) is Ok
        &&& clock_attr(e, "daytime"@) is Ok
        &&& clock_attr(e, "endtime"@) is Ok
        &&& unsigned_attr(e, "number"@, u32::MAX as u64) is Ok
        &&& clock_attr(e, "teamleadermeeting"@) is Ok
        &&& clock_attr(e, "warmupfrom"@) is Ok
        &&& clock_attr(e, "warmupuntil"@) is Ok
        &&& child(e, "EVENTS"@) matches Some(c) && collection_readable::<Event>(c)
    }

    open spec fn read_error(e: ElementView) -> DecodeError {
        if date_attr(e, "date"@) is Err {
            err_of(date_attr(e, "date"@))
        } else if clock_attr(e, "daytime"@) is Err {
            err_of(clock_attr(e, "daytime"@))
        } else if clock_attr(e, "endtime"@) is Err {
            err_of(clock_attr(e, "endtime"@))
        } else if unsigned_attr(e, "number"@, u32::MAX as u64) is Err {
            err_of(unsigned_attr(e, "number"@, u32::MAX as u64))
        } else if clock_attr(e, "teamleadermeeting"@) is Err {
            err_of(clock_attr(e, "teamleadermeeting"@))
        } else if clock_attr(e, "warmupfrom"@) is Err {
            err_of(clock_attr(e, "warmupfrom"@))
        } else if clock_attr(e, "warmupuntil"@) is Err {
            err_of(clock_attr(e, "warmupuntil"@))
        } else if !(child(e, "EVENTS"@) matches Some(c) && collection_readable::<Event>(c)) {
            match child(e, "EVENTS"@) {
                Some(c) => collection_read_error::<Event>(c),
                None => DecodeError::MissingElement,
            }
        } else {
            DecodeError::MalformedXml
        }
    }

    open spec fn read_as(e: ElementView, x: Self) -> bool {
        &&& date_attr(e, "date"@) == Ok::<(i32, u32, u32), DecodeError>(date_of(x.date))
        &&& clock_attr(e, "daytime"@) == Ok::<Option<(nat, nat)>, DecodeError>(clock_of(x.day_time))
        &&& clock_attr(e, "endtime"@) == Ok::<Option<(nat, nat)>, DecodeError>(clock_of(x.end_time))
        &&& opt_text(x.name) == attr(e, "name"@)
        &&& unsigned_attr(e, "number"@, u32::MAX as u64) == Ok::<u64, DecodeError>(x.number as u64)
        &&& clock_attr(e, "teamleadermeeting"@) == Ok::<Option<(nat, nat)>, DecodeError>(clock_of(x.team_leader_meeting))
        &&& clock_attr(e, "warmupfrom"@) == Ok::<Option<(nat, nat)>, DecodeError>(clock_of(x.warmup_from))
        &&& clock_attr(e, "warmupuntil"@) == Ok::<Option<(nat, nat)>, DecodeError>(clock_of(x.warmup_until))
        &&& opt_text(x.timing) == attr(e, "timing"@)
        &&& child(e, "EVENTS"@) matches Some(c) && collection_read_as(c, x.events.items@)
    }

    open spec fn same(x: Self, y: Self) -> bool {
        &&& date_of(x.date) == date_of(y.date)
        &&& clock_of(x.day_time) == clock_of(y.day_time)
        &&& clock_of(x.end_time) == clock_of(y.end_time)
        &&& opt_text(x.name) == opt_text(y.name)
        &&& x.number == y.number
        &&& clock_of(x.team_leader_meeting) == clock_of(y.team_leader_meeting)
        &&& clock_of(x.warmup_from) == clock_of(y.warmup_from)
        &&& clock_of(x.warmup_until) == clock_of(y.warmup_until)
        &&& opt_text(x.timing) == opt_text(y.timing)
        &&& all_same(x.events.items@, y.events.items@)
    }

    open spec fn faithful(x: Self) -> bool {
        &&& chrono_date_fields(date_text_of(x.date)) == Some(date_of(x.date))
        &&& x.day_time matches Some(t) ==> chrono_time_fields(clock_text(t.hour_of(), t.minute_of()), "%H:%M"@) matches Some(f) && f.0 == t.hour_of() && f.1 == t.minute_of()
        &&& x.end_time matches Some(t) ==> chrono_time_fields(clock_text(t.hour_of(), t.minute_of()), "%H:%M"@) matches Some(f) && f.0 == t.hour_of() && f.1 == t.minute_of()
        &&& x.name matches Some(v) ==> v@.len() > 0
        &&& x.team_leader_meeting matches Some(t) ==> chrono_time_fields(clock_text(t.hour_of(), t.minute_of()), "%H:%M"@) matches Some(f) && f.0 == t.hour_of() && f.1 == t.minute_of()
        &&& x.warmup_from matches Some(t) ==> chrono_time_fields(clock_text(t.hour_of(), t.minute_of()), "%H:%M"@) matches Some(f) && f.0 == t.hour_of() && f.1 == t.minute_of()
        &&& x.warmup_until matches Some(t) ==> chrono_time_fields(clock_text(t.hour_of(), t.minute_of()), "%H:%M"@) matches Some(f) && f.0 == t.hour_of() && f.1 == t.minute_of()
        &&& x.timing matches Some(v) ==> v@.len() > 0
        &&& all_faithful(x.events.items@)
    }

    #[verifier::spinoff_prover]
    #[verifier::rlimit(100)]
    proof fn lemma_round_trip(x: Self, e: ElementView, y: Self) {
        reveal_strlit("EVENTS");
        assert("EVENTS"@.len() == 6);
        assert("EVENTS"@[0] == 'E');
        reveal_strlit("date");
        assert("date"@.len() == 4);
        assert("date"@[0] == 'd');
        reveal_strlit("daytime");
        assert("daytime"@.len() == 7);
        assert("daytime"@[0] == 'd');
        reveal_strlit("endtime");
        assert("endtime"@.len() == 7);
        assert("endtime"@[0] == 'e');
        reveal_strlit("name");
        assert("name"@.len() == 4);
        assert("name"@[0] == 'n');
        reveal_strlit("number");
        assert("number"@.len() == 6);
        assert("number"@[0] == 'n');
        reveal_strlit("teamleadermeeting");
        assert("teamleadermeeting"@.len() == 17);
        reveal_strlit("timing");
        assert("timing"@.len() == 6);
        assert("timing"@[0] == 't');
        reveal_strlit("warmupfrom");
        assert("warmupfrom"@.len() == 10);
        reveal_strlit("warmupuntil");
        assert("warmupuntil"@.len() == 11);
        let w0 = written("date"@, date_text_of(x.date));
        let w1 = written("daytime"@, opt_clock_text(x.day_time));
        let w2 = written("endtime"@, opt_clock_text(x.end_time));
        let w3 = written("name"@, opt_written_text(opt_text(x.name)));
        let w4 = written("number"@, decimal_text(x.number as nat));
        let w5 = written("teamleadermeeting"@, opt_clock_text(x.team_leader_meeting));
        let w6 = written("warmupfrom"@, opt_clock_text(x.warmup_from));
        let w7 = written("warmupuntil"@, opt_clock_text(x.warmup_until));
        let w8 = written("timing"@, opt_written_text(opt_text(x.timing)));
        assert(e.attributes == w0 + w1 + w2 + w3 + w4 + w5 + w6 + w7 + w8);
        lemma_lookup_concat(w0 + w1 + w2 + w3 + w4 + w5 + w6 + w7, w8, "date"@);
        lemma_lookup_concat(w0 + w1 + w2 + w3 + w4 + w5 + w6, w7, "date"@);
        lemma_lookup_concat(w0 + w1 + w2 + w3 + w4 + w5, w6, "date"@);
        lemma_lookup_concat(w0 + w1 + w2 + w3 + w4, w5, "date"@);
        lemma_lookup_concat(w0 + w1 + w2 + w3, w4, "date"@);
        lemma_lookup_concat(w0 + w1 + w2, w3, "date"@);
        lemma_lookup_concat(w0 + w1, w2, "date"@);
        lemma_lookup_concat(w0, w1, "date"@);
        lemma_lookup_written("date"@, date_text_of(x.date), "date"@);
        lemma_lookup_written("daytime"@, opt_clock_text(x.day_time), "date"@);
        lemma_lookup_written("endtime"@, opt_clock_text(x.end_time), "date"@);
        lemma_lookup_written("name"@, opt_written_text(opt_text(x.name)), "date"@);
        lemma_lookup_written("number"@, decimal_text(x.number as nat), "date"@);
        lemma_lookup_written("teamleadermeeting"@, opt_clock_text(x.team_leader_meeting), "date"@);
        lemma_lookup_written("warmupfrom"@, opt_clock_text(x.warmup_from), "date"@);
        lemma_lookup_written("warmupuntil"@, opt_clock_text(x.warmup_until), "date"@);
        lemma_lookup_written("timing"@, opt_written_text(opt_text(x.timing)), "date"@);
        lemma_lookup_concat(w0 + w1 + w2 + w3 + w4 + w5 + w6 + w7, w8, "daytime"@);
        lemma_lookup_concat(w0 + w1 + w2 + w3 + w4 + w5 + w6, w7, "daytime"@);
        lemma_lookup_concat(w0 + w1 + w2 + w3 + w4 + w5, w6, "daytime"@);
        lemma_lookup_concat(w0 + w1 + w2 + w3 + w4, w5, "daytime"@);
        lemma_lookup_concat(w0 + w1 + w2 + w3, w4, "daytime"@);
        lemma_lookup_concat(w0 + w1 + w2, w3, "daytime"@);
        lemma_lookup_concat(w0 + w1, w2, "daytime"@);
        lemma_lookup_concat(w0, w1, "daytime"@);
        lemma_lookup_written("date"@, date_text_of(x.date), "daytime"@);
        lemma_lookup_written("daytime"@, opt_clock_text(x.day_time), "daytime"@);
        lemma_lookup_written("endtime"@, opt_clock_text(x.end_time), "daytime"@);
        lemma_lookup_written("name"@, opt_written_text(opt_text(x.name)), "daytime"@);
        lemma_lookup_written("number"@, decimal_text(x.number as nat), "daytime"@);
        lemma_lookup_written("teamleadermeeting"@, opt_clock_text(x.team_leader_meeting), "daytime"@);
        lemma_lookup_written("warmupfrom"@, opt_clock_text(x.warmup_from), "daytime"@);
        lemma_lookup_written("warmupuntil"@, opt_clock_text(x.warmup_until), "daytime"@);
        lemma_lookup_written("timing"@, opt_written_text(opt_text(x.timing)), "daytime"@);
        lemma_lookup_concat(w0 + w1 + w2 + w3 + w4 + w5 + w6 + w7, w8, "endtime"@);
        lemma_lookup_concat(w0 + w1 + w2 + w3 + w4 + w5 + w6, w7, "endtime"@);
        lemma_lookup_concat(w0 + w1 + w2 + w3 + w4 + w5, w6, "endtime"@);
        lemma_lookup_concat(w0 + w1 + w2 + w3 + w4, w5, "endtime"@);
        lemma_lookup_concat(w0 + w1 + w2 + w3, w4, "endtime"@);
        lemma_lookup_concat(w0 + w1 + w2, w3, "endtime"@);
        lemma_lookup_concat(w0 + w1, w2, "endtime"@);
        lemma_lookup_concat(w0, w1, "endtime"@);
        lemma_lookup_written("date"@, date_text_of(x.date), "endtime"@);
        lemma_lookup_written("daytime"@, opt_clock_text(x.day_time), "endtime"@);
        lemma_lookup_written("endtime"@, opt_clock_text(x.end_time), "endtime"@);
        lemma_lookup_written("name"@, opt_written_text(opt_text(x.name)), "endtime"@);
        lemma_lookup_written("number"@, decimal_text(x.number as nat), "endtime"@);
        lemma_lookup_written("teamleadermeeting"@, opt_clock_text(x.team_leader_meeting), "endtime"@);
        lemma_lookup_written("warmupfrom"@, opt_clock_text(x.warmup_from), "endtime"@);
        lemma_lookup_written("warmupuntil"@, opt_clock_text(x.warmup_until), "endtime"@);
        lemma_lookup_written("timing"@, opt_written_text(opt_text(x.timing)), "endtime"@);
        lemma_lookup_concat(w0 + w1 + w2 + w3 + w4 + w5 + w6 + w7, w8, "name"@);
        lemma_lookup_concat(w0 + w1 + w2 + w3 + w4 + w5 + w6, w7, "name"@);
        lemma_lookup_concat(w0 + w1 + w2 + w3 + w4 + w5, w6, "name"@);
        lemma_lookup_concat(w0 + w1 + w2 + w3 + w4, w5, "name"@);
        lemma_lookup_concat(w0 + w1 + w2 + w3, w4, "name"@);
        lemma_lookup_concat(w0 + w1 + w2, w3, "name"@);
        lemma_lookup_concat(w0 + w1, w2, "name"@);
        lemma_lookup_concat(w0, w1, "name"@);
        lemma_lookup_written("date"@, date_text_of(x.date), "name"@);
        lemma_lookup_written("daytime"@, opt_clock_text(x.day_time), "name"@);
        lemma_lookup_written("endtime"@, opt_clock_text(x.end_time), "name"@);
        lemma_lookup_written("name"@, opt_written_text(opt_text(x.name)), "name"@);
        lemma_lookup_written("number"@, decimal_text(x.number as nat), "name"@);
        lemma_lookup_written("teamleadermeeting"@, opt_clock_text(x.team_leader_meeting), "name"@);
        lemma_lookup_written("warmupfrom"@, opt_clock_text(x.warmup_from), "name"@);
        lemma_lookup_written("warmupuntil"@, opt_clock_text(x.warmup_until), "name"@);
        lemma_lookup_written("timing"@, opt_written_text(opt_text(x.timing)), "name"@);
        lemma_lookup_concat(w0 + w1 + w2 + w3 + w4 + w5 + w6 + w7, w8, "number"@);
        lemma_lookup_concat(w0 + w1 + w2 + w3 + w4 + w5 + w6, w7, "number"@);
        lemma_lookup_concat(w0 + w1 + w2 + w3 + w4 + w5, w6, "number"@);
        lemma_lookup_concat(w0 + w1 + w2 + w3 + w4, w5, "number"@);
        lemma_lookup_concat(w0 + w1 + w2 + w3, w4, "number"@);
        lemma_lookup_concat(w0 + w1 + w2, w3, "number"@);
        lemma_lookup_concat(w0 + w1, w2, "number"@);
        lemma_lookup_concat(w0, w1, "number"@);
        lemma_lookup_written("date"@, date_text_of(x.date), "number"@);
        lemma_lookup_written("daytime"@, opt_clock_text(x.day_time), "number"@);
        lemma_lookup_written("endtime"@, opt_clock_text(x.end_time), "number"@);
        lemma_lookup_written("name"@, opt_written_text(opt_text(x.name)), "number"@);
        lemma_lookup_written("number"@, decimal_text(x.number as nat), "number"@);
        lemma_lookup_written("teamleadermeeting"@, opt_clock_text(x.team_leader_meeting), "number"@);
        lemma_lookup_written("warmupfrom"@, opt_clock_text(x.warmup_from), "number"@);
        lemma_lookup_written("warmupuntil"@, opt_clock_text(x.warmup_until), "number"@);
        lemma_lookup_written("timing"@, opt_written_text(opt_text(x.timing)), "number"@);
        lemma_lookup_concat(w0 + w1 + w2 + w3 + w4 + w5 + w6 + w7, w8, "teamleadermeeting"@);
        lemma_lookup_concat(w0 + w1 + w2 + w3 + w4 + w5 + w6, w7, "teamleadermeeting"@);
        lemma_lookup_concat(w0 + w1 + w2 + w3 + w4 + w5, w6, "teamleadermeeting"@);
        lemma_lookup_concat(w0 + w1 + w2 + w3 + w4, w5, "teamleadermeeting"@);
        lemma_lookup_concat(w0 + w1 + w2 + w3, w4, "teamleadermeeting"@);
        lemma_lookup_concat(w0 + w1 + w2, w3, "teamleadermeeting"@);
        lemma_lookup_concat(w0 + w1, w2, "teamleadermeeting"@);
        lemma_lookup_concat(w0, w1, "teamleadermeeting"@);
        lemma_lookup_written("date"@, date_text_of(x.date), "teamleadermeeting"@);
        lemma_lookup_written("daytime"@, opt_clock_text(x.day_time), "teamleadermeeting"@);
        lemma_lookup_written("endtime"@, opt_clock_text(x.end_time), "teamleadermeeting"@);
        lemma_lookup_written("name"@, opt_written_text(opt_text(x.name)), "teamleadermeeting"@);
        lemma_lookup_written("number"@, decimal_text(x.number as nat), "teamleadermeeting"@);
        lemma_lookup_written("teamleadermeeting"@, opt_clock_text(x.team_leader_meeting), "teamleadermeeting"@);
        lemma_lookup_written("warmupfrom"@, opt_clock_text(x.warmup_from), "teamleadermeeting"@);
        lemma_lookup_written("warmupuntil"@, opt_clock_text(x.warmup_until), "teamleadermeeting"@);
        lemma_lookup_written("timing"@, opt_written_text(opt_text(x.timing)), "teamleadermeeting"@);
        lemma_lookup_concat(w0 + w1 + w2 + w3 + w4 + w5 + w6 + w7, w8, "warmupfrom"@);
        lemma_lookup_concat(w0 + w1 + w2 + w3 + w4 + w5 + w6, w7, "warmupfrom"@);
        lemma_lookup_concat(w0 + w1 + w2 + w3 + w4 + w5, w6, "warmupfrom"@);
        lemma_lookup_concat(w0 + w1 + w2 + w3 + w4, w5, "warmupfrom"@);
        lemma_lookup_concat(w0 + w1 + w2 + w3, w4, "warmupfrom"@);
        lemma_lookup_concat(w0 + w1 + w2, w3, "warmupfrom"@);
        lemma_lookup_concat(w0 + w1, w2, "warmupfrom"@);
        lemma_lookup_concat(w0, w1, "warmupfrom"@);
        lemma_lookup_written("date"@, date_text_of(x.date), "warmupfrom"@);
        lemma_lookup_written("daytime"@, opt_clock_text(x.day_time), "warmupfrom"@);
        lemma_lookup_written("endtime"@, opt_clock_text(x.end_time), "warmupfrom"@);
        lemma_lookup_written("name"@, opt_written_text(opt_text(x.name)), "warmupfrom"@);
        lemma_lookup_written("number"@, decimal_text(x.number as nat), "warmupfrom"@);
        lemma_lookup_written("teamleadermeeting"@, opt_clock_text(x.team_leader_meeting), "warmupfrom"@);
        lemma_lookup_written("warmupfrom"@, opt_clock_text(x.warmup_from), "warmupfrom"@);
        lemma_lookup_written("warmupuntil"@, opt_clock_text(x.warmup_until), "warmupfrom"@);
        lemma_lookup_written("timing"@, opt_written_text(opt_text(x.timing)), "warmupfrom"@);
        lemma_lookup_concat(w0 + w1 + w2 + w3 + w4 + w5 + w6 + w7, w8, "warmupuntil"@);
        lemma_lookup_concat(w0 + w1 + w2 + w3 + w4 + w5 + w6, w7, "warmupuntil"@);
        lemma_lookup_concat(w0 + w1 + w2 + w3 + w4 + w5, w6, "warmupuntil"@);
        lemma_lookup_concat(w0 + w1 + w2 + w3 + w4, w5, "warmupuntil"@);
        lemma_lookup_concat(w0 + w1 + w2 + w3, w4, "warmupuntil"@);
        lemma_lookup_concat(w0 + w1 + w2, w3, "warmupuntil"@);
        lemma_lookup_concat(w0 + w1, w2, "warmupuntil"@);
        lemma_lookup_concat(w0, w1, "warmupuntil"@);
        lemma_lookup_written("date"@, date_text_of(x.date), "warmupuntil"@);
        lemma_lookup_written("daytime"@, opt_clock_text(x.day_time), "warmupuntil"@);
        lemma_lookup_written("endtime"@, opt_clock_text(x.end_time), "warmupuntil"@);
        lemma_lookup_written("name"@, opt_written_text(opt_text(x.name)), "warmupuntil"@);
        lemma_lookup_written("number"@, decimal_text(x.number as nat), "warmupuntil"@);
        lemma_lookup_written("teamleadermeeting"@, opt_clock_text(x.team_leader_meeting), "warmupuntil"@);
        lemma_lookup_written("warmupfrom"@, opt_clock_text(x.warmup_from), "warmupuntil"@);
        lemma_lookup_written("warmupuntil"@, opt_clock_text(x.warmup_until), "warmupuntil"@);
        lemma_lookup_written("timing"@, opt_written_text(opt_text(x.timing)), "warmupuntil"@);
        lemma_lookup_concat(w0 + w1 + w2 + w3 + w4 + w5 + w6 + w7, w8, "timing"@);
        lemma_lookup_concat(w0 + w1 + w2 + w3 + w4 + w5 + w6, w7, "timing"@);
        lemma_lookup_concat(w0 + w1 + w2 + w3 + w4 + w5, w6, "timing"@);
        lemma_lookup_concat(w0 + w1 + w2 + w3 + w4, w5, "timing"@);
        lemma_lookup_concat(w0 + w1 + w2 + w3, w4, "timing"@);
        lemma_lookup_concat(w0 + w1 + w2, w3, "timing"@);
        lemma_lookup_concat(w0 + w1, w2, "timing"@);
        lemma_lookup_concat(w0, w1, "timing"@);
        lemma_lookup_written("date"@, date_text_of(x.date), "timing"@);
        lemma_lookup_written("daytime"@, opt_clock_text(x.day_time), "timing"@);
        lemma_lookup_written("endtime"@, opt_clock_text(x.end_time), "timing"@);
        lemma_lookup_written("name"@, opt_written_text(opt_text(x.name)), "timing"@);
        lemma_lookup_written("number"@, decimal_text(x.number as nat), "timing"@);
        lemma_lookup_written("teamleadermeeting"@, opt_clock_text(x.team_leader_meeting), "timing"@);
        lemma_lookup_written("warmupfrom"@, opt_clock_text(x.warmup_from), "timing"@);
        lemma_lookup_written("warmupuntil"@, opt_clock_text(x.warmup_until), "timing"@);
        lemma_lookup_written("timing"@, opt_written_text(opt_text(x.timing)), "timing"@);
        lemma_decimal_text_reads_back(x.number as nat);
        assert forall|j: int| 0 <= j < 0 implies (#[trigger] e.children[j]).name != "EVENTS"@ by {
            
        }
        lemma_first_named_at(e.children, "EVENTS"@, 0);
        lemma_collection_values(x.events.items@, e.children[0], y.events.items@);
    }

    fn item_tag() -> (r: &'static str) {
        "SESSION"
    }

    fn to_element(&self) -> (r: XmlElement) {
        let mut e = XmlElement::new("SESSION");
        e.push_attribute("date", self.date.encode());
        e.push_attribute("daytime", match &self.day_time {
            Some(t) => t.encode(),
            None => String::new(),
        });
        e.push_attribute("endtime", match &self.end_time {
            Some(t) => t.encode(),
            None => String::new(),
        });
        e.push_attribute("name", opt_string_text(&self.name));
        e.push_attribute("number", decimal_string(self.number as u64));
        e.push_attribute("teamleadermeeting", match &self.team_leader_meeting {
            Some(t) => t.encode(),
            None => String::new(),
        });
        e.push_attribute("warmupfrom", match &self.warmup_from {
            Some(t) => t.encode(),
            None => String::new(),
        });
        e.push_attribute("warmupuntil", match &self.warmup_until {
            Some(t) => t.encode(),
            None => String::new(),
        });
        e.push_attribute("timing", opt_string_text(&self.timing));
        e.children.push(self.events.to_element());
        assert(pairs(e.attributes@) =~= written("date"@, date_text_of(self.date))
            + written("daytime"@, opt_clock_text(self.day_time))
            + written("endtime"@, opt_clock_text(self.end_time))
            + written("name"@, opt_written_text(opt_text(self.name)))
            + written("number"@, decimal_text(self.number as nat))
            + written("teamleadermeeting"@, opt_clock_text(self.team_leader_meeting))
            + written("warmupfrom"@, opt_clock_text(self.warmup_from))
            + written("warmupuntil"@, opt_clock_text(self.warmup_until))
            + written("timing"@, opt_written_text(opt_text(self.timing))));
        proof {
            lemma_view_of(e);
        }
        e
    }

    fn from_element(e: &XmlElement) -> (r: Result<Session, DecodeError>) {
        let date = read_date(e, "date")?;
        let day_time = read_clock(e, "daytime")?;
        let end_time = read_clock(e, "endtime")?;
        let name = read_opt_text(e, "name");
        let number = read_unsigned(e, "number", u32::MAX as u64)? as u32;
        let team_leader_meeting = read_clock(e, "teamleadermeeting")?;
        let warmup_from = read_clock(e, "warmupfrom")?;
        let warmup_until = read_clock(e, "warmupuntil")?;
        let timing = read_opt_text(e, "timing");
        let events = match e.child("EVENTS") {
            Some(c) => Collection::<Event>::from_element(c)?,
            None => {
                return Err(DecodeError::MissingElement);
            },
        };
        Ok(Session {
            date,
            day_time,
            end_time,
            name,
            number,
            team_leader_meeting,
            warmup_from,
            warmup_until,
            timing,
            events,
        })
    }
}

impl CollectionItem for Session {
    open spec fn spec_collection_tag() -> Seq<char> {
        "SESSIONS"@
    }

    fn collection_tag() -> (r: &'static str) {
        "SESSIONS"
    }
}

impl Session {
    /// A value with every field at its default: zero, empty, absent, or the
    /// neutral variant.
    pub fn empty() -> (r: Session)
        ensures
            date_of(r.date) == (1970i32, 1u32, 1u32),
            r.day_time is None,
            r.end_time is None,
            r.name is None,
            r.number == 0,
            r.team_leader_meeting is None,
            r.warmup_from is None,
            r.warmup_until is None,
            r.timing is None,
            r.events.items@.len() == 0,
    {
        Session {
            date: Date::epoch(),
            day_time: None,
            end_time: None,
            name: None,
            number: 0,
            team_leader_meeting: None,
            warmup_from: None,
            warmup_until: None,
            timing: None,
            events: Collection::new(Vec::new()),
        }
    }
}

impl Default for Session {
    fn default() -> (r: Session)
        ensures
            date_of(r.date) == (1970i32, 1u32, 1u32),
            r.day_time is None,
            r.end_time is None,
            r.name is None,
            r.number == 0,
            r.team_leader_meeting is None,
            r.warmup_from is None,
            r.warmup_until is None,
            r.timing is None,
            r.events.items@.len() == 0,
    {
        Session::empty()
    }
}

impl Session {
    /// A session with this number, date and events, and every other field
    /// absent.
    pub fn new(number: u32, date: Date, events: Vec<Event>) -> (r: Session)
        ensures
            r.number == number,
            r.date == date,
            r.events.items@ == events@,
            r.day_time is None,
            r.end_time is None,
            r.name is None,
            r.team_leader_meeting is None,
            r.warmup_from is None,
            r.warmup_until is None,
            r.timing is None,
    {
        let mut s = Session::empty();
        s.number = number;
        s.date = date;
        s.events = Collection::new(events);
        s
    }

    /// Sets the time of day the session starts.
    pub fn with_day_time(&mut self, time: ClockTime)
        ensures
            final(self).day_time == Some(time),
            final(self).date == old(self).date,
            final(self).number == old(self).number,
            final(self).end_time == old(self).end_time,
            final(self).warmup_from == old(self).warmup_from,
            final(self).warmup_until == old(self).warmup_until,
            final(self).team_leader_meeting == old(self).team_leader_meeting,
            final(self).name == old(self).name,
            final(self).timing == old(self).timing,
            final(self).events == old(self).events,
    {
        self.day_time = Some(time);
    }

    /// Sets the time of day the session ends.
    pub fn with_end_time(&mut self, time: ClockTime)
        ensures
            final(self).end_time == Some(time),
            final(self).date == old(self).date,
            final(self).number == old(self).number,
            final(self).day_time == old(self).day_time,
            final(self).warmup_from == old(self).warmup_from,
            final(self).warmup_until == old(self).warmup_until,
            final(self).team_leader_meeting == old(self).team_leader_meeting,
            final(self).name == old(self).name,
            final(self).timing == old(self).timing,
            final(self).events == old(self).events,
    {
        self.end_time = Some(time);
    }

    /// Sets the time of day the warm-up starts.
    pub fn with_warmup_from(&mut self, time: ClockTime)
        ensures
            final(self).warmup_from == Some(time),
            final(self).date == old(self).date,
            final(self).number == old(self).number,
            final(self).day_time == old(self).day_time,
            final(self).end_time == old(self).end_time,
            final(self).warmup_until == old(self).warmup_until,
            final(self).team_leader_meeting == old(self).team_leader_meeting,
            final(self).name == old(self).name,
            final(self).timing == old(self).timing,
            final(self).events == old(self).events,
    {
        self.warmup_from = Some(time);
    }

    /// Sets the time of day the warm-up ends.
    pub fn with_warmup_until(&mut self, time: ClockTime)
        ensures
            final(self).warmup_until == Some(time),
            final(self).date == old(self).date,
            final(self).number == old(self).number,
            final(self).day_time == old(self).day_time,
            final(self).end_time == old(self).end_time,
            final(self).warmup_from == old(self).warmup_from,
            final(self).team_leader_meeting == old(self).team_leader_meeting,
            final(self).name == old(self).name,
            final(self).timing == old(self).timing,
            final(self).events == old(self).events,
    {
        self.warmup_until = Some(time);
    }
}

} // verus!

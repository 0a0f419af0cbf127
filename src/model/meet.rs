use vstd::prelude::*;

use crate::collection::{
    Collection, CollectionItem, XmlRecord, all_faithful, all_same, collection_read_as,
    collection_read_error, collection_readable, collection_written_as, lemma_collection_values,
};
use crate::error::DecodeError;
use crate::fields::{
    attr_or_empty, err_of, narrow32, opt32, opt_decimal_string, opt_decimal_text, opt_string_text,
    opt_text, opt_unsigned_attr, opt_written_text, present, read_opt_text, read_opt_unsigned,
    read_token, widen32,
};
use crate::model::{
    AgeDate, Club, Course, Facility, Fee, PointTable, Pool, Qualify, Session, Timing,
};
use crate::number::lemma_decimal_text_reads_back;
use crate::xml::{
    ElementView, XmlElement, attr, child, lemma_first_named_at, lemma_lookup_concat,
    lemma_lookup_written, lemma_view_of, pairs, written,
};

verus! {

/// A meet: where and how it is swum, its fees, sessions and clubs.
#[derive(Debug, PartialEq, Eq)]
pub struct Meet {
    pub name: String,
    pub name_en: Option<String>,
    pub city: String,
    pub city_en: Option<String>,
    pub nation: String,
    pub course: Option<Course>,
    pub reserve_count: Option<u32>,
    pub start_method: Option<u32>,
    pub timing: Option<Timing>,
    pub age_date: Option<AgeDate>,
    pub pool: Option<Pool>,
    pub facility: Option<Facility>,
    pub point_table: Option<PointTable>,
    pub fees: Collection<Fee>,
    pub qualify: Option<Qualify>,
    pub sessions: Collection<Session>,
    pub clubs: Collection<Club>,
}

impl XmlRecord for Meet {
    open spec fn spec_item_tag() -> Seq<char> {
        "MEET"@
    }

    open spec fn written_as(x: Self, e: ElementView) -> bool {
        &&& e.name == "MEET"@
        &&& e.attributes == written("name"@, x.name@)
            + written("name.en"@, opt_written_text(opt_text(x.name_en)))
            + written("city"@, x.city@)
            + written("city.en"@, opt_written_text(opt_text(x.city_en)))
            + written("nation"@, x.nation@)
            + written("course"@, Course::spec_opt_token(x.course))
            + written("reservecount"@, opt_decimal_text(opt32(x.reserve_count)))
            + written("startmethod"@, opt_decimal_text(opt32(x.start_method)))
            + written("timing"@, Timing::spec_opt_token(x.timing))
        &&& e.children.len() == present(x.age_date) + present(x.pool) + present(x.facility) + present(x.point_table) + 1int + present(x.qualify) + 1int + 1int
        &&& x.age_date matches Some(v) ==> AgeDate::written_as(v, e.children[0])
        &&& x.pool matches Some(v) ==> Pool::written_as(v, e.children[present(x.age_date)])
        &&& x.facility matches Some(v) ==> Facility::written_as(v, e.children[present(x.age_date) + present(x.pool)])
        &&& x.point_table matches Some(v) ==> PointTable::written_as(v, e.children[present(x.age_date) + present(x.pool) + present(x.facility)])
        &&& collection_written_as(x.fees.items@, e.children[present(x.age_date) + present(x.pool) + present(x.facility) + present(x.point_table)])
        &&& x.qualify matches Some(v) ==> Qualify::written_as(v, e.children[present(x.age_date) + present(x.pool) + present(x.facility) + present(x.point_table) + 1int])
        &&& collection_written_as(x.sessions.items@, e.children[present(x.age_date) + present(x.pool) + present(x.facility) + present(x.point_table) + 1int + present(x.qualify)])
        &&& collection_written_as(x.clubs.items@, e.children[present(x.age_date) + present(x.pool) + present(x.facility) + present(x.point_table) + 1int + present(x.qualify) + 1int])
    }

    open spec fn readable(e: ElementView) -> bool {
        &&& attr(e, "course"@) is Some ==> Course::spec_from_attr(attr(e, "course"@)) is Some
        &&& opt_unsigned_attr(e, "reservecount"@, u32::MAX as u64) is Ok
        &&& opt_unsigned_attr(e, "startmethod"@, u32::MAX as u64) is Ok
        &&& attr(e, "timing"@) is Some ==> Timing::spec_from_attr(attr(e, "timing"@)) is Some
        &&& match child(e, "AGEDATE"@) {
                Some(c) => AgeDate::readable(c),
                None => true,
            }
        &&& match child(e, "POOL"@) {
                Some(c) => Pool::readable(c),
                None => true,
            }
        &&& match child(e, "FACILITY"@) {
                Some(c) => Facility::readable(c),
                None => true,
            }
        &&& match child(e, "POINTTABLE"@) {
                Some(c) => PointTable::readable(c),
                None => true,
            }
        &&& match child(e, "FEES"@) {
                Some(c) => collection_readable::<Fee>(c),
                None => true,
            }
        &&& match child(e, "QUALIFY"@) {
                Some(c) => Qualify::readable(c),
                None => true,
            }
        &&& child(e, "SESSIONS"@) matches Some(c) && collection_readable::<Session>(c)
        &&& child(e, "CLUBS"@) matches Some(c) && collection_readable::<Club>(c)
    }

    open spec fn read_error(e: ElementView) -> DecodeError {
        if !(attr(e, "course"@) is Some ==> Course::spec_from_attr(attr(e, "course"@)) is Some) {
            DecodeError::UnknownToken
        } else if opt_unsigned_attr(e, "reservecount"@, u32::MAX as u64) is Err {
            err_of(opt_unsigned_attr(e, "reservecount"@, u32::MAX as u64))
        } else if opt_unsigned_attr(e, "startmethod"@, u32::MAX as u64) is Err {
            err_of(opt_unsigned_attr(e, "startmethod"@, u32::MAX as u64))
        } else if !(attr(e, "timing"@) is Some ==> Timing::spec_from_attr(attr(e, "timing"@)) is Some) {
            DecodeError::UnknownToken
        } else if !(match child(e, "AGEDATE"@) {
                Some(c) => AgeDate::readable(c),
                None => true,
            }) {
            match child(e, "AGEDATE"@) {
                Some(c) => AgeDate::read_error(c),
                None => DecodeError::MalformedXml,
            }
        } else if !(match child(e, "POOL"@) {
                Some(c) => Pool::readable(c),
                None => true,
            }) {
            match child(e, "POOL"@) {
                Some(c) => Pool::read_error(c),
                None => DecodeError::MalformedXml,
            }
        } else if !(match child(e, "FACILITY"@) {
                Some(c) => Facility::readable(c),
                None => true,
            }) {
            match child(e, "FACILITY"@) {
                Some(c) => Facility::read_error(c),
                None => DecodeError::MalformedXml,
            }
        } else if !(match child(e, "POINTTABLE"@) {
                Some(c) => PointTable::readable(c),
                None => true,
            }) {
            match child(e, "POINTTABLE"@) {
                Some(c) => PointTable::read_error(c),
                None => DecodeError::MalformedXml,
            }
        } else if !(match child(e, "FEES"@) {
                Some(c) => collection_readable::<Fee>(c),
                None => true,
            }) {
            match child(e, "FEES"@) {
                Some(c) => collection_read_error::<Fee>(c),
                None => DecodeError::MalformedXml,
            }
        } else if !(match child(e, "QUALIFY"@) {
                Some(c) => Qualify::readable(c),
                None => true,
            }) {
            match child(e, "QUALIFY"@) {
                Some(c) => Qualify::read_error(c),
                None => DecodeError::MalformedXml,
            }
        } else if !(child(e, "SESSIONS"@) matches Some(c) && collection_readable::<Session>(c)) {
            match child(e, "SESSIONS"@) {
                Some(c) => collection_read_error::<Session>(c),
                None => DecodeError::MissingElement,
            }
        } else if !(child(e, "CLUBS"@) matches Some(c) && collection_readable::<Club>(c)) {
            match child(e, "CLUBS"@) {
                Some(c) => collection_read_error::<Club>(c),
                None => DecodeError::MissingElement,
            }
        } else {
            DecodeError::MalformedXml
        }
    }

    open spec fn read_as(e: ElementView, x: Self) -> bool {
        &&& x.name@ == attr_or_empty(e, "name"@)
        &&& opt_text(x.name_en) == attr(e, "name.en"@)
        &&& x.city@ == attr_or_empty(e, "city"@)
        &&& opt_text(x.city_en) == attr(e, "city.en"@)
        &&& x.nation@ == attr_or_empty(e, "nation"@)
        &&& x.course == Course::spec_from_attr(attr(e, "course"@))
        &&& opt_unsigned_attr(e, "reservecount"@, u32::MAX as u64) == Ok::<Option<u64>, DecodeError>(opt32(x.reserve_count))
        &&& opt_unsigned_attr(e, "startmethod"@, u32::MAX as u64) == Ok::<Option<u64>, DecodeError>(opt32(x.start_method))
        &&& x.timing == Timing::spec_from_attr(attr(e, "timing"@))
        &&& match child(e, "AGEDATE"@) {
                Some(c) => x.age_date matches Some(v) && AgeDate::read_as(c, v),
                None => x.age_date is None,
            }
        &&& match child(e, "POOL"@) {
                Some(c) => x.pool matches Some(v) && Pool::read_as(c, v),
                None => x.pool is None,
            }
        &&& match child(e, "FACILITY"@) {
                Some(c) => x.facility matches Some(v) && Facility::read_as(c, v),
                None => x.facility is None,
            }
        &&& match child(e, "POINTTABLE"@) {
                Some(c) => x.point_table matches Some(v) && PointTable::read_as(c, v),
                None => x.point_table is None,
            }
        &&& match child(e, "FEES"@) {
                Some(c) => collection_read_as(c, x.fees.items@),
                None => x.fees.items@.len() == 0,
            }
        &&& match child(e, "QUALIFY"@) {
                Some(c) => x.qualify matches Some(v) && Qualify::read_as(c, v),
                None => x.qualify is None,
            }
        &&& child(e, "SESSIONS"@) matches Some(c) && collection_read_as(c, x.sessions.items@)
        &&& child(e, "CLUBS"@) matches Some(c) && collection_read_as(c, x.clubs.items@)
    }

    open spec fn same(x: Self, y: Self) -> bool {
        &&& x.name@ == y.name@
        &&& opt_text(x.name_en) == opt_text(y.name_en)
        &&& x.city@ == y.city@
        &&& opt_text(x.city_en) == opt_text(y.city_en)
        &&& x.nation@ == y.nation@
        &&& x.course == y.course
        &&& x.reserve_count == y.reserve_count
        &&& x.start_method == y.start_method
        &&& x.timing == y.timing
        &&& match (x.age_date, y.age_date) {
            (Some(a), Some(b)) => AgeDate::same(a, b),
            (None, None) => true,
            _ => false,
        }
        &&& match (x.pool, y.pool) {
            (Some(a), Some(b)) => Pool::same(a, b),
            (None, None) => true,
            _ => false,
        }
        &&& match (x.facility, y.facility) {
            (Some(a), Some(b)) => Facility::same(a, b),
            (None, None) => true,
            _ => false,
        }
        &&& match (x.point_table, y.point_table) {
            (Some(a), Some(b)) => PointTable::same(a, b),
            (None, None) => true,
            _ => false,
        }
        &&& all_same(x.fees.items@, y.fees.items@)
        &&& match (x.qualify, y.qualify) {
            (Some(a), Some(b)) => Qualify::same(a, b),
            (None, None) => true,
            _ => false,
        }
        &&& all_same(x.sessions.items@, y.sessions.items@)
        &&& all_same(x.clubs.items@, y.clubs.items@)
    }

    open spec fn faithful(x: Self) -> bool {
        &&& x.name_en matches Some(v) ==> v@.len() > 0
        &&& x.city_en matches Some(v) ==> v@.len() > 0
        &&& x.age_date matches Some(v) ==> AgeDate::faithful(v)
        &&& x.pool matches Some(v) ==> Pool::faithful(v)
        &&& x.facility matches Some(v) ==> Facility::faithful(v)
        &&& x.point_table matches Some(v) ==> PointTable::faithful(v)
        &&& all_faithful(x.fees.items@)
        &&& x.qualify matches Some(v) ==> Qualify::faithful(v)
        &&& all_faithful(x.sessions.items@)
        &&& all_faithful(x.clubs.items@)
    }

    #[verifier::spinoff_prover]
    #[verifier::rlimit(100)]
    proof fn lemma_round_trip(x: Self, e: ElementView, y: Self) {
        reveal_strlit("AGEDATE");
        assert("AGEDATE"@.len() == 7);
        assert("AGEDATE"@[0] == 'A');
        reveal_strlit("CLUBS");
        assert("CLUBS"@.len() == 5);
        reveal_strlit("FACILITY");
        assert("FACILITY"@.len() == 8);
        assert("FACILITY"@[0] == 'F');
        reveal_strlit("FEES");
        assert("FEES"@.len() == 4);
        assert("FEES"@[0] == 'F');
        reveal_strlit("POINTTABLE");
        assert("POINTTABLE"@.len() == 10);
        reveal_strlit("POOL");
        assert("POOL"@.len() == 4);
        assert("POOL"@[0] == 'P');
        reveal_strlit("QUALIFY");
        assert("QUALIFY"@.len() == 7);
        assert("QUALIFY"@[0] == 'Q');
        reveal_strlit("SESSIONS");
        assert("SESSIONS"@.len() == 8);
        assert("SESSIONS"@[0] == 'S');
        reveal_strlit("city");
        assert("city"@.len() == 4);
        assert("city"@[0] == 'c');
        reveal_strlit("city.en");
        assert("city.en"@.len() == 7);
        assert("city.en"@[0] == 'c');
        reveal_strlit("course");
        assert("course"@.len() == 6);
        assert("course"@[0] == 'c');
        reveal_strlit("name");
        assert("name"@.len() == 4);
        assert("name"@[0] == 'n');
        reveal_strlit("name.en");
        assert("name.en"@.len() == 7);
        assert("name.en"@[0] == 'n');
        reveal_strlit("nation");
        assert("nation"@.len() == 6);
        assert("nation"@[0] == 'n');
        reveal_strlit("reservecount");
        assert("reservecount"@.len() == 12);
        reveal_strlit("startmethod");
        assert("startmethod"@.len() == 11);
        reveal_strlit("timing");
        assert("timing"@.len() == 6);
        assert("timing"@[0] == 't');
        let w0 = written("name"@, x.name@);
        let w1 = written("name.en"@, opt_written_text(opt_text(x.name_en)));
        let w2 = written("city"@, x.city@);
        let w3 = written("city.en"@, opt_written_text(opt_text(x.city_en)));
        let w4 = written("nation"@, x.nation@);
        let w5 = written("course"@, Course::spec_opt_token(x.course));
        let w6 = written("reservecount"@, opt_decimal_text(opt32(x.reserve_count)));
        let w7 = written("startmethod"@, opt_decimal_text(opt32(x.start_method)));
        let w8 = written("timing"@, Timing::spec_opt_token(x.timing));
        assert(e.attributes == w0 + w1 + w2 + w3 + w4 + w5 + w6 + w7 + w8);
        lemma_lookup_concat(w0 + w1 + w2 + w3 + w4 + w5 + w6 + w7, w8, "name"@);
        lemma_lookup_concat(w0 + w1 + w2 + w3 + w4 + w5 + w6, w7, "name"@);
        lemma_lookup_concat(w0 + w1 + w2 + w3 + w4 + w5, w6, "name"@);
        lemma_lookup_concat(w0 + w1 + w2 + w3 + w4, w5, "name"@);
        lemma_lookup_concat(w0 + w1 + w2 + w3, w4, "name"@);
        lemma_lookup_concat(w0 + w1 + w2, w3, "name"@);
        lemma_lookup_concat(w0 + w1, w2, "name"@);
        lemma_lookup_concat(w0, w1, "name"@);
        lemma_lookup_written("name"@, x.name@, "name"@);
        lemma_lookup_written("name.en"@, opt_written_text(opt_text(x.name_en)), "name"@);
        lemma_lookup_written("city"@, x.city@, "name"@);
        lemma_lookup_written("city.en"@, opt_written_text(opt_text(x.city_en)), "name"@);
        lemma_lookup_written("nation"@, x.nation@, "name"@);
        lemma_lookup_written("course"@, Course::spec_opt_token(x.course), "name"@);
        lemma_lookup_written("reservecount"@, opt_decimal_text(opt32(x.reserve_count)), "name"@);
        lemma_lookup_written("startmethod"@, opt_decimal_text(opt32(x.start_method)), "name"@);
        lemma_lookup_written("timing"@, Timing::spec_opt_token(x.timing), "name"@);
        lemma_lookup_concat(w0 + w1 + w2 + w3 + w4 + w5 + w6 + w7, w8, "name.en"@);
        lemma_lookup_concat(w0 + w1 + w2 + w3 + w4 + w5 + w6, w7, "name.en"@);
        lemma_lookup_concat(w0 + w1 + w2 + w3 + w4 + w5, w6, "name.en"@);
        lemma_lookup_concat(w0 + w1 + w2 + w3 + w4, w5, "name.en"@);
        lemma_lookup_concat(w0 + w1 + w2 + w3, w4, "name.en"@);
        lemma_lookup_concat(w0 + w1 + w2, w3, "name.en"@);
        lemma_lookup_concat(w0 + w1, w2, "name.en"@);
        lemma_lookup_concat(w0, w1, "name.en"@);
        lemma_lookup_written("name"@, x.name@, "name.en"@);
        lemma_lookup_written("name.en"@, opt_written_text(opt_text(x.name_en)), "name.en"@);
        lemma_lookup_written("city"@, x.city@, "name.en"@);
        lemma_lookup_written("city.en"@, opt_written_text(opt_text(x.city_en)), "name.en"@);
        lemma_lookup_written("nation"@, x.nation@, "name.en"@);
        lemma_lookup_written("course"@, Course::spec_opt_token(x.course), "name.en"@);
        lemma_lookup_written("reservecount"@, opt_decimal_text(opt32(x.reserve_count)), "name.en"@);
        lemma_lookup_written("startmethod"@, opt_decimal_text(opt32(x.start_method)), "name.en"@);
        lemma_lookup_written("timing"@, Timing::spec_opt_token(x.timing), "name.en"@);
        lemma_lookup_concat(w0 + w1 + w2 + w3 + w4 + w5 + w6 + w7, w8, "city"@);
        lemma_lookup_concat(w0 + w1 + w2 + w3 + w4 + w5 + w6, w7, "city"@);
        lemma_lookup_concat(w0 + w1 + w2 + w3 + w4 + w5, w6, "city"@);
        lemma_lookup_concat(w0 + w1 + w2 + w3 + w4, w5, "city"@);
        lemma_lookup_concat(w0 + w1 + w2 + w3, w4, "city"@);
        lemma_lookup_concat(w0 + w1 + w2, w3, "city"@);
        lemma_lookup_concat(w0 + w1, w2, "city"@);
        lemma_lookup_concat(w0, w1, "city"@);
        lemma_lookup_written("name"@, x.name@, "city"@);
        lemma_lookup_written("name.en"@, opt_written_text(opt_text(x.name_en)), "city"@);
        lemma_lookup_written("city"@, x.city@, "city"@);
        lemma_lookup_written("city.en"@, opt_written_text(opt_text(x.city_en)), "city"@);
        lemma_lookup_written("nation"@, x.nation@, "city"@);
        lemma_lookup_written("course"@, Course::spec_opt_token(x.course), "city"@);
        lemma_lookup_written("reservecount"@, opt_decimal_text(opt32(x.reserve_count)), "city"@);
        lemma_lookup_written("startmethod"@, opt_decimal_text(opt32(x.start_method)), "city"@);
        lemma_lookup_written("timing"@, Timing::spec_opt_token(x.timing), "city"@);
        lemma_lookup_concat(w0 + w1 + w2 + w3 + w4 + w5 + w6 + w7, w8, "city.en"@);
        lemma_lookup_concat(w0 + w1 + w2 + w3 + w4 + w5 + w6, w7, "city.en"@);
        lemma_lookup_concat(w0 + w1 + w2 + w3 + w4 + w5, w6, "city.en"@);
        lemma_lookup_concat(w0 + w1 + w2 + w3 + w4, w5, "city.en"@);
        lemma_lookup_concat(w0 + w1 + w2 + w3, w4, "city.en"@);
        lemma_lookup_concat(w0 + w1 + w2, w3, "city.en"@);
        lemma_lookup_concat(w0 + w1, w2, "city.en"@);
        lemma_lookup_concat(w0, w1, "city.en"@);
        lemma_lookup_written("name"@, x.name@, "city.en"@);
        lemma_lookup_written("name.en"@, opt_written_text(opt_text(x.name_en)), "city.en"@);
        lemma_lookup_written("city"@, x.city@, "city.en"@);
        lemma_lookup_written("city.en"@, opt_written_text(opt_text(x.city_en)), "city.en"@);
        lemma_lookup_written("nation"@, x.nation@, "city.en"@);
        lemma_lookup_written("course"@, Course::spec_opt_token(x.course), "city.en"@);
        lemma_lookup_written("reservecount"@, opt_decimal_text(opt32(x.reserve_count)), "city.en"@);
        lemma_lookup_written("startmethod"@, opt_decimal_text(opt32(x.start_method)), "city.en"@);
        lemma_lookup_written("timing"@, Timing::spec_opt_token(x.timing), "city.en"@);
        lemma_lookup_concat(w0 + w1 + w2 + w3 + w4 + w5 + w6 + w7, w8, "nation"@);
        lemma_lookup_concat(w0 + w1 + w2 + w3 + w4 + w5 + w6, w7, "nation"@);
        lemma_lookup_concat(w0 + w1 + w2 + w3 + w4 + w5, w6, "nation"@);
        lemma_lookup_concat(w0 + w1 + w2 + w3 + w4, w5, "nation"@);
        lemma_lookup_concat(w0 + w1 + w2 + w3, w4, "nation"@);
        lemma_lookup_concat(w0 + w1 + w2, w3, "nation"@);
        lemma_lookup_concat(w0 + w1, w2, "nation"@);
        lemma_lookup_concat(w0, w1, "nation"@);
        lemma_lookup_written("name"@, x.name@, "nation"@);
        lemma_lookup_written("name.en"@, opt_written_text(opt_text(x.name_en)), "nation"@);
        lemma_lookup_written("city"@, x.city@, "nation"@);
        lemma_lookup_written("city.en"@, opt_written_text(opt_text(x.city_en)), "nation"@);
        lemma_lookup_written("nation"@, x.nation@, "nation"@);
        lemma_lookup_written("course"@, Course::spec_opt_token(x.course), "nation"@);
        lemma_lookup_written("reservecount"@, opt_decimal_text(opt32(x.reserve_count)), "nation"@);
        lemma_lookup_written("startmethod"@, opt_decimal_text(opt32(x.start_method)), "nation"@);
        lemma_lookup_written("timing"@, Timing::spec_opt_token(x.timing), "nation"@);
        lemma_lookup_concat(w0 + w1 + w2 + w3 + w4 + w5 + w6 + w7, w8, "course"@);
        lemma_lookup_concat(w0 + w1 + w2 + w3 + w4 + w5 + w6, w7, "course"@);
        lemma_lookup_concat(w0 + w1 + w2 + w3 + w4 + w5, w6, "course"@);
        lemma_lookup_concat(w0 + w1 + w2 + w3 + w4, w5, "course"@);
        lemma_lookup_concat(w0 + w1 + w2 + w3, w4, "course"@);
        lemma_lookup_concat(w0 + w1 + w2, w3, "course"@);
        lemma_lookup_concat(w0 + w1, w2, "course"@);
        lemma_lookup_concat(w0, w1, "course"@);
        lemma_lookup_written("name"@, x.name@, "course"@);
        lemma_lookup_written("name.en"@, opt_written_text(opt_text(x.name_en)), "course"@);
        lemma_lookup_written("city"@, x.city@, "course"@);
        lemma_lookup_written("city.en"@, opt_written_text(opt_text(x.city_en)), "course"@);
        lemma_lookup_written("nation"@, x.nation@, "course"@);
        lemma_lookup_written("course"@, Course::spec_opt_token(x.course), "course"@);
        lemma_lookup_written("reservecount"@, opt_decimal_text(opt32(x.reserve_count)), "course"@);
        lemma_lookup_written("startmethod"@, opt_decimal_text(opt32(x.start_method)), "course"@);
        lemma_lookup_written("timing"@, Timing::spec_opt_token(x.timing), "course"@);
        lemma_lookup_concat(w0 + w1 + w2 + w3 + w4 + w5 + w6 + w7, w8, "reservecount"@);
        lemma_lookup_concat(w0 + w1 + w2 + w3 + w4 + w5 + w6, w7, "reservecount"@);
        lemma_lookup_concat(w0 + w1 + w2 + w3 + w4 + w5, w6, "reservecount"@);
        lemma_lookup_concat(w0 + w1 + w2 + w3 + w4, w5, "reservecount"@);
        lemma_lookup_concat(w0 + w1 + w2 + w3, w4, "reservecount"@);
        lemma_lookup_concat(w0 + w1 + w2, w3, "reservecount"@);
        lemma_lookup_concat(w0 + w1, w2, "reservecount"@);
        lemma_lookup_concat(w0, w1, "reservecount"@);
        lemma_lookup_written("name"@, x.name@, "reservecount"@);
        lemma_lookup_written("name.en"@, opt_written_text(opt_text(x.name_en)), "reservecount"@);
        lemma_lookup_written("city"@, x.city@, "reservecount"@);
        lemma_lookup_written("city.en"@, opt_written_text(opt_text(x.city_en)), "reservecount"@);
        lemma_lookup_written("nation"@, x.nation@, "reservecount"@);
        lemma_lookup_written("course"@, Course::spec_opt_token(x.course), "reservecount"@);
        lemma_lookup_written("reservecount"@, opt_decimal_text(opt32(x.reserve_count)), "reservecount"@);
        lemma_lookup_written("startmethod"@, opt_decimal_text(opt32(x.start_method)), "reservecount"@);
        lemma_lookup_written("timing"@, Timing::spec_opt_token(x.timing), "reservecount"@);
        lemma_lookup_concat(w0 + w1 + w2 + w3 + w4 + w5 + w6 + w7, w8, "startmethod"@);
        lemma_lookup_concat(w0 + w1 + w2 + w3 + w4 + w5 + w6, w7, "startmethod"@);
        lemma_lookup_concat(w0 + w1 + w2 + w3 + w4 + w5, w6, "startmethod"@);
        lemma_lookup_concat(w0 + w1 + w2 + w3 + w4, w5, "startmethod"@);
        lemma_lookup_concat(w0 + w1 + w2 + w3, w4, "startmethod"@);
        lemma_lookup_concat(w0 + w1 + w2, w3, "startmethod"@);
        lemma_lookup_concat(w0 + w1, w2, "startmethod"@);
        lemma_lookup_concat(w0, w1, "startmethod"@);
        lemma_lookup_written("name"@, x.name@, "startmethod"@);
        lemma_lookup_written("name.en"@, opt_written_text(opt_text(x.name_en)), "startmethod"@);
        lemma_lookup_written("city"@, x.city@, "startmethod"@);
        lemma_lookup_written("city.en"@, opt_written_text(opt_text(x.city_en)), "startmethod"@);
        lemma_lookup_written("nation"@, x.nation@, "startmethod"@);
        lemma_lookup_written("course"@, Course::spec_opt_token(x.course), "startmethod"@);
        lemma_lookup_written("reservecount"@, opt_decimal_text(opt32(x.reserve_count)), "startmethod"@);
        lemma_lookup_written("startmethod"@, opt_decimal_text(opt32(x.start_method)), "startmethod"@);
        lemma_lookup_written("timing"@, Timing::spec_opt_token(x.timing), "startmethod"@);
        lemma_lookup_concat(w0 + w1 + w2 + w3 + w4 + w5 + w6 + w7, w8, "timing"@);
        lemma_lookup_concat(w0 + w1 + w2 + w3 + w4 + w5 + w6, w7, "timing"@);
        lemma_lookup_concat(w0 + w1 + w2 + w3 + w4 + w5, w6, "timing"@);
        lemma_lookup_concat(w0 + w1 + w2 + w3 + w4, w5, "timing"@);
        lemma_lookup_concat(w0 + w1 + w2 + w3, w4, "timing"@);
        lemma_lookup_concat(w0 + w1 + w2, w3, "timing"@);
        lemma_lookup_concat(w0 + w1, w2, "timing"@);
        lemma_lookup_concat(w0, w1, "timing"@);
        lemma_lookup_written("name"@, x.name@, "timing"@);
        lemma_lookup_written("name.en"@, opt_written_text(opt_text(x.name_en)), "timing"@);
        lemma_lookup_written("city"@, x.city@, "timing"@);
        lemma_lookup_written("city.en"@, opt_written_text(opt_text(x.city_en)), "timing"@);
        lemma_lookup_written("nation"@, x.nation@, "timing"@);
        lemma_lookup_written("course"@, Course::spec_opt_token(x.course), "timing"@);
        lemma_lookup_written("reservecount"@, opt_decimal_text(opt32(x.reserve_count)), "timing"@);
        lemma_lookup_written("startmethod"@, opt_decimal_text(opt32(x.start_method)), "timing"@);
        lemma_lookup_written("timing"@, Timing::spec_opt_token(x.timing), "timing"@);
        if x.name@.len() == 0 {
            assert(x.name@ =~= Seq::<char>::empty());
        }
        if x.city@.len() == 0 {
            assert(x.city@ =~= Seq::<char>::empty());
        }
        if x.nation@.len() == 0 {
            assert(x.nation@ =~= Seq::<char>::empty());
        }
        if let Some(v) = x.course {
            Course::lemma_token_round_trip(v);
        }
        if let Some(v) = x.reserve_count {
            lemma_decimal_text_reads_back(v as nat);
        }
        if let Some(v) = x.start_method {
            lemma_decimal_text_reads_back(v as nat);
        }
        if let Some(v) = x.timing {
            Timing::lemma_token_round_trip(v);
        }
        if x.age_date is Some {
            assert forall|j: int| 0 <= j < 0 implies (#[trigger] e.children[j]).name != "AGEDATE"@ by {
                
            }
            lemma_first_named_at(e.children, "AGEDATE"@, 0);
            AgeDate::lemma_round_trip(x.age_date->Some_0, e.children[0], y.age_date->Some_0);
        } else {
            assert forall|j: int| 0 <= j < e.children.len() implies (#[trigger] e.children[j]).name != "AGEDATE"@ by {
                if j == present(x.age_date) + present(x.pool) + present(x.facility) + present(x.point_table) + 1int + present(x.qualify) + 1int {
                } else if j == present(x.age_date) + present(x.pool) + present(x.facility) + present(x.point_table) + 1int + present(x.qualify) {
                } else if j == present(x.age_date) + present(x.pool) + present(x.facility) + present(x.point_table) + 1int {
                } else if j == present(x.age_date) + present(x.pool) + present(x.facility) + present(x.point_table) {
                } else if j == present(x.age_date) + present(x.pool) + present(x.facility) {
                } else if j == present(x.age_date) + present(x.pool) {
                } else if j == present(x.age_date) {
                } else if j == 0 {
                }
            }
            lemma_first_named_at(e.children, "AGEDATE"@, e.children.len() as int);
        }
        if x.pool is Some {
            assert forall|j: int| 0 <= j < present(x.age_date) implies (#[trigger] e.children[j]).name != "POOL"@ by {
                if j == 0 {
                }
            }
            lemma_first_named_at(e.children, "POOL"@, present(x.age_date));
            Pool::lemma_round_trip(x.pool->Some_0, e.children[present(x.age_date)], y.pool->Some_0);
        } else {
            assert forall|j: int| 0 <= j < e.children.len() implies (#[trigger] e.children[j]).name != "POOL"@ by {
                if j == present(x.age_date) + present(x.pool) + present(x.facility) + present(x.point_table) + 1int + present(x.qualify) + 1int {
                } else if j == present(x.age_date) + present(x.pool) + present(x.facility) + present(x.point_table) + 1int + present(x.qualify) {
                } else if j == present(x.age_date) + present(x.pool) + present(x.facility) + present(x.point_table) + 1int {
                } else if j == present(x.age_date) + present(x.pool) + present(x.facility) + present(x.point_table) {
                } else if j == present(x.age_date) + present(x.pool) + present(x.facility) {
                } else if j == present(x.age_date) + present(x.pool) {
                } else if j == present(x.age_date) {
                } else if j == 0 {
                }
            }
            lemma_first_named_at(e.children, "POOL"@, e.children.len() as int);
        }
        if x.facility is Some {
            assert forall|j: int| 0 <= j < present(x.age_date) + present(x.pool) implies (#[trigger] e.children[j]).name != "FACILITY"@ by {
                if j == present(x.age_date) {
                } else if j == 0 {
                }
            }
            lemma_first_named_at(e.children, "FACILITY"@, present(x.age_date) + present(x.pool));
            Facility::lemma_round_trip(x.facility->Some_0, e.children[present(x.age_date) + present(x.pool)], y.facility->Some_0);
        } else {
            assert forall|j: int| 0 <= j < e.children.len() implies (#[trigger] e.children[j]).name != "FACILITY"@ by {
                if j == present(x.age_date) + present(x.pool) + present(x.facility) + present(x.point_table) + 1int + present(x.qualify) + 1int {
                } else if j == present(x.age_date) + present(x.pool) + present(x.facility) + present(x.point_table) + 1int + present(x.qualify) {
                } else if j == present(x.age_date) + present(x.pool) + present(x.facility) + present(x.point_table) + 1int {
                } else if j == present(x.age_date) + present(x.pool) + present(x.facility) + present(x.point_table) {
                } else if j == present(x.age_date) + present(x.pool) + present(x.facility) {
                } else if j == present(x.age_date) + present(x.pool) {
                } else if j == present(x.age_date) {
                } else if j == 0 {
                }
            }
            lemma_first_named_at(e.children, "FACILITY"@, e.children.len() as int);
        }
        if x.point_table is Some {
            assert forall|j: int| 0 <= j < present(x.age_date) + present(x.pool) + present(x.facility) implies (#[trigger] e.children[j]).name != "POINTTABLE"@ by {
                if j == present(x.age_date) + present(x.pool) {
                } else if j == present(x.age_date) {
                } else if j == 0 {
                }
            }
            lemma_first_named_at(e.children, "POINTTABLE"@, present(x.age_date) + present(x.pool) + present(x.facility));
            PointTable::lemma_round_trip(x.point_table->Some_0, e.children[present(x.age_date) + present(x.pool) + present(x.facility)], y.point_table->Some_0);
        } else {
            assert forall|j: int| 0 <= j < e.children.len() implies (#[trigger] e.children[j]).name != "POINTTABLE"@ by {
                if j == present(x.age_date) + present(x.pool) + present(x.facility) + present(x.point_table) + 1int + present(x.qualify) + 1int {
                } else if j == present(x.age_date) + present(x.pool) + present(x.facility) + present(x.point_table) + 1int + present(x.qualify) {
                } else if j == present(x.age_date) + present(x.pool) + present(x.facility) + present(x.point_table) + 1int {
                } else if j == present(x.age_date) + present(x.pool) + present(x.facility) + present(x.point_table) {
                } else if j == present(x.age_date) + present(x.pool) + present(x.facility) {
                } else if j == present(x.age_date) + present(x.pool) {
                } else if j == present(x.age_date) {
                } else if j == 0 {
                }
            }
            lemma_first_named_at(e.children, "POINTTABLE"@, e.children.len() as int);
        }
        assert forall|j: int| 0 <= j < present(x.age_date) + present(x.pool) + present(x.facility) + present(x.point_table) implies (#[trigger] e.children[j]).name != "FEES"@ by {
            if j == present(x.age_date) + present(x.pool) + present(x.facility) {
            } else if j == present(x.age_date) + present(x.pool) {
            } else if j == present(x.age_date) {
            } else if j == 0 {
            }
        }
        lemma_first_named_at(e.children, "FEES"@, present(x.age_date) + present(x.pool) + present(x.facility) + present(x.point_table));
        lemma_collection_values(x.fees.items@, e.children[present(x.age_date) + present(x.pool) + present(x.facility) + present(x.point_table)], y.fees.items@);
        if x.qualify is Some {
            assert forall|j: int| 0 <= j < present(x.age_date) + present(x.pool) + present(x.facility) + present(x.point_table) + 1int implies (#[trigger] e.children[j]).name != "QUALIFY"@ by {
                if j == present(x.age_date) + present(x.pool) + present(x.facility) + present(x.point_table) {
                } else if j == present(x.age_date) + present(x.pool) + present(x.facility) {
                } else if j == present(x.age_date) + present(x.pool) {
                } else if j == present(x.age_date) {
                } else if j == 0 {
                }
            }
            lemma_first_named_at(e.children, "QUALIFY"@, present(x.age_date) + present(x.pool) + present(x.facility) + present(x.point_table) + 1int);
            Qualify::lemma_round_trip(x.qualify->Some_0, e.children[present(x.age_date) + present(x.pool) + present(x.facility) + present(x.point_table) + 1int], y.qualify->Some_0);
        } else {
            assert forall|j: int| 0 <= j < e.children.len() implies (#[trigger] e.children[j]).name != "QUALIFY"@ by {
                if j == present(x.age_date) + present(x.pool) + present(x.facility) + present(x.point_table) + 1int + present(x.qualify) + 1int {
                } else if j == present(x.age_date) + present(x.pool) + present(x.facility) + present(x.point_table) + 1int + present(x.qualify) {
                } else if j == present(x.age_date) + present(x.pool) + present(x.facility) + present(x.point_table) + 1int {
                } else if j == present(x.age_date) + present(x.pool) + present(x.facility) + present(x.point_table) {
                } else if j == present(x.age_date) + present(x.pool) + present(x.facility) {
                } else if j == present(x.age_date) + present(x.pool) {
                } else if j == present(x.age_date) {
                } else if j == 0 {
                }
            }
            lemma_first_named_at(e.children, "QUALIFY"@, e.children.len() as int);
        }
        assert forall|j: int| 0 <= j < present(x.age_date) + present(x.pool) + present(x.facility) + present(x.point_table) + 1int + present(x.qualify) implies (#[trigger] e.children[j]).name != "SESSIONS"@ by {
            if j == present(x.age_date) + present(x.pool) + present(x.facility) + present(x.point_table) + 1int {
            } else if j == present(x.age_date) + present(x.pool) + present(x.facility) + present(x.point_table) {
            } else if j == present(x.age_date) + present(x.pool) + present(x.facility) {
            } else if j == present(x.age_date) + present(x.pool) {
            } else if j == present(x.age_date) {
            } else if j == 0 {
            }
        }
        lemma_first_named_at(e.children, "SESSIONS"@, present(x.age_date) + present(x.pool) + present(x.facility) + present(x.point_table) + 1int + present(x.qualify));
        lemma_collection_values(x.sessions.items@, e.children[present(x.age_date) + present(x.pool) + present(x.facility) + present(x.point_table) + 1int + present(x.qualify)], y.sessions.items@);
        assert forall|j: int| 0 <= j < present(x.age_date) + present(x.pool) + present(x.facility) + present(x.point_table) + 1int + present(x.qualify) + 1int implies (#[trigger] e.children[j]).name != "CLUBS"@ by {
            if j == present(x.age_date) + present(x.pool) + present(x.facility) + present(x.point_table) + 1int + present(x.qualify) {
            } else if j == present(x.age_date) + present(x.pool) + present(x.facility) + present(x.point_table) + 1int {
            } else if j == present(x.age_date) + present(x.pool) + present(x.facility) + present(x.point_table) {
            } else if j == present(x.age_date) + present(x.pool) + present(x.facility) {
            } else if j == present(x.age_date) + present(x.pool) {
            } else if j == present(x.age_date) {
            } else if j == 0 {
            }
        }
        lemma_first_named_at(e.children, "CLUBS"@, present(x.age_date) + present(x.pool) + present(x.facility) + present(x.point_table) + 1int + present(x.qualify) + 1int);
        lemma_collection_values(x.clubs.items@, e.children[present(x.age_date) + present(x.pool) + present(x.facility) + present(x.point_table) + 1int + present(x.qualify) + 1int], y.clubs.items@);
    }

    fn item_tag() -> (r: &'static str) {
        "MEET"
    }

    #[verifier::rlimit(40)]
    fn to_element(&self) -> (r: XmlElement) {
        let mut e = XmlElement::new("MEET");
        e.push_attribute("name", self.name.clone());
        e.push_attribute("name.en", opt_string_text(&self.name_en));
        e.push_attribute("city", self.city.clone());
        e.push_attribute("city.en", opt_string_text(&self.city_en));
        e.push_attribute("nation", self.nation.clone());
        e.push_attribute("course", match &self.course {
            Some(t) => String::from_str(t.token()),
            None => String::new(),
        });
        e.push_attribute("reservecount", opt_decimal_string(widen32(self.reserve_count)));
        e.push_attribute("startmethod", opt_decimal_string(widen32(self.start_method)));
        e.push_attribute("timing", match &self.timing {
            Some(t) => String::from_str(t.token()),
            None => String::new(),
        });
        match &self.age_date {
            Some(v) => e.children.push(v.to_element()),
            None => {},
        }
        match &self.pool {
            Some(v) => e.children.push(v.to_element()),
            None => {},
        }
        match &self.facility {
            Some(v) => e.children.push(v.to_element()),
            None => {},
        }
        match &self.point_table {
            Some(v) => e.children.push(v.to_element()),
            None => {},
        }
        e.children.push(self.fees.to_element());
        match &self.qualify {
            Some(v) => e.children.push(v.to_element()),
            None => {},
        }
        e.children.push(self.sessions.to_element());
        e.children.push(self.clubs.to_element());
        assert(pairs(e.attributes@) =~= written("name"@, self.name@)
            + written("name.en"@, opt_written_text(opt_text(self.name_en)))
            + written("city"@, self.city@)
            + written("city.en"@, opt_written_text(opt_text(self.city_en)))
            + written("nation"@, self.nation@)
            + written("course"@, Course::spec_opt_token(self.course))
            + written("reservecount"@, opt_decimal_text(opt32(self.reserve_count)))
            + written("startmethod"@, opt_decimal_text(opt32(self.start_method)))
            + written("timing"@, Timing::spec_opt_token(self.timing)));
        proof {
            lemma_view_of(e);
        }
        e
    }

    fn from_element(e: &XmlElement) -> (r: Result<Meet, DecodeError>) {
        let name = String::from_str(read_token(e, "name"));
        let name_en = read_opt_text(e, "name.en");
        let city = String::from_str(read_token(e, "city"));
        let city_en = read_opt_text(e, "city.en");
        let nation = String::from_str(read_token(e, "nation"));
        let course = match e.attribute("course") {
            Some(v) => match Course::from_token(v.as_str()) {
                Some(t) => Some(t),
                None => {
                    return Err(DecodeError::UnknownToken);
                },
            },
            None => None,
        };
        let reserve_count = narrow32(read_opt_unsigned(e, "reservecount", u32::MAX as u64)?);
        let start_method = narrow32(read_opt_unsigned(e, "startmethod", u32::MAX as u64)?);
        let timing = match e.attribute("timing") {
            Some(v) => match Timing::from_token(v.as_str()) {
                Some(t) => Some(t),
                None => {
                    return Err(DecodeError::UnknownToken);
                },
            },
            None => None,
        };
        let age_date = match e.child("AGEDATE") {
            Some(c) => Some(AgeDate::from_element(c)?),
            None => None,
        };
        let pool = match e.child("POOL") {
            Some(c) => Some(Pool::from_element(c)?),
            None => None,
        };
        let facility = match e.child("FACILITY") {
            Some(c) => Some(Facility::from_element(c)?),
            None => None,
        };
        let point_table = match e.child("POINTTABLE") {
            Some(c) => Some(PointTable::from_element(c)?),
            None => None,
        };
        let fees = match e.child("FEES") {
            Some(c) => Collection::<Fee>::from_element(c)?,
            None => Collection::new(Vec::new()),
        };
        let qualify = match e.child("QUALIFY") {
            Some(c) => Some(Qualify::from_element(c)?),
            None => None,
        };
        let sessions = match e.child("SESSIONS") {
            Some(c) => Collection::<Session>::from_element(c)?,
            None => {
                return Err(DecodeError::MissingElement);
            },
        };
        let clubs = match e.child("CLUBS") {
            Some(c) => Collection::<Club>::from_element(c)?,
            None => {
                return Err(DecodeError::MissingElement);
            },
        };
        Ok(Meet {
            name,
            name_en,
            city,
            city_en,
            nation,
            course,
            reserve_count,
            start_method,
            timing,
            age_date,
            pool,
            facility,
            point_table,
            fees,
            qualify,
            sessions,
            clubs,
        })
    }
}

impl CollectionItem for Meet {
    open spec fn spec_collection_tag() -> Seq<char> {
        "MEETS"@
    }

    fn collection_tag() -> (r: &'static str) {
        "MEETS"
    }
}

impl Meet {
    /// A value with every field at its default: zero, empty, absent, or the
    /// neutral variant.
    pub fn empty() -> (r: Meet)
        ensures
            r.name@.len() == 0,
            r.name_en is None,
            r.city@.len() == 0,
            r.city_en is None,
            r.nation@.len() == 0,
            r.course is None,
            r.reserve_count is None,
            r.start_method is None,
            r.timing is None,
            r.age_date is None,
            r.pool is None,
            r.facility is None,
            r.point_table is None,
            r.fees.items@.len() == 0,
            r.qualify is None,
            r.sessions.items@.len() == 0,
            r.clubs.items@.len() == 0,
    {
        Meet {
            name: String::new(),
            name_en: None,
            city: String::new(),
            city_en: None,
            nation: String::new(),
            course: None,
            reserve_count: None,
            start_method: None,
            timing: None,
            age_date: None,
            pool: None,
            facility: None,
            point_table: None,
            fees: Collection::new(Vec::new()),
            qualify: None,
            sessions: Collection::new(Vec::new()),
            clubs: Collection::new(Vec::new()),
        }
    }
}

impl Default for Meet {
    fn default() -> (r: Meet)
        ensures
            r.name@.len() == 0,
            r.name_en is None,
            r.city@.len() == 0,
            r.city_en is None,
            r.nation@.len() == 0,
            r.course is None,
            r.reserve_count is None,
            r.start_method is None,
            r.timing is None,
            r.age_date is None,
            r.pool is None,
            r.facility is None,
            r.point_table is None,
            r.fees.items@.len() == 0,
            r.qualify is None,
            r.sessions.items@.len() == 0,
            r.clubs.items@.len() == 0,
    {
        Meet::empty()
    }
}

impl Meet {
    /// A meet with these name, nation, city and sessions, and every other
    /// field empty or absent.
    pub fn new(name: String, nation: String, city: String, sessions: Vec<Session>) -> (r: Meet)
        ensures
            r.name == name,
            r.nation == nation,
            r.city == city,
            r.sessions.items@ == sessions@,
            r.name_en is None,
            r.city_en is None,
            r.course is None,
            r.reserve_count is None,
            r.start_method is None,
            r.timing is None,
            r.age_date is None,
            r.pool is None,
            r.facility is None,
            r.point_table is None,
            r.fees.items@.len() == 0,
            r.qualify is None,
            r.clubs.items@.len() == 0,
    {
        let mut m = Meet::empty();
        m.name = name;
        m.nation = nation;
        m.city = city;
        m.sessions = Collection::new(sessions);
        m
    }
}

} // verus!

//! Reading one attribute of an element with one codec, and writing it back.
use vstd::prelude::*;

use crate::error::DecodeError;
use crate::number::{
    decimal_string, decimal_text, decode_sentinel, decode_unsigned, decode_version, sentinel_field,
    unsigned_field, version_field,
};
use crate::time::{chrono_date_fields, chrono_time_fields, swim_field, ClockTime, Date, SwimDuration};
use crate::xml::{attr, view_of, ElementView, XmlElement};

verus! {

pub open spec fn opt_text(o: Option<String>) -> Option<Seq<char>> {
    match o {
        Some(s) => Some(s@),
        None => None,
    }
}

/// One for a present value, none for an absent one.
pub open spec fn present<T>(o: Option<T>) -> int {
    if o is Some {
        1
    } else {
        0
    }
}

/// One for a non-empty sequence, none for an empty one.
pub open spec fn listed<T>(s: Seq<T>) -> int {
    if s.len() > 0 {
        1
    } else {
        0
    }
}

/// The error of a failed read.
pub open spec fn err_of<T>(r: Result<T, DecodeError>) -> DecodeError {
    match r {
        Err(e) => e,
        Ok(_) => DecodeError::MalformedXml,
    }
}

/// A required unsigned attribute of at most `max`.
pub open spec fn unsigned_attr(e: ElementView, key: Seq<char>, max: u64) -> Result<u64, DecodeError> {
    match attr(e, key) {
        Some(v) => unsigned_field(v, max),
        None => Err(DecodeError::MissingAttribute),
    }
}

/// An optional unsigned attribute of at most `max`: absent is `None`.
pub open spec fn opt_unsigned_attr(e: ElementView, key: Seq<char>, max: u64) -> Result<
    Option<u64>,
    DecodeError,
> {
    match attr(e, key) {
        Some(v) => match unsigned_field(v, max) {
            Ok(n) => Ok(Some(n)),
            Err(err) => Err(err),
        },
        None => Ok(None),
    }
}

/// An attribute with the sentinel convention: absent, or negative, is `None`.
pub open spec fn sentinel_attr(e: ElementView, key: Seq<char>, max: u64) -> Result<
    Option<u64>,
    DecodeError,
> {
    match attr(e, key) {
        Some(v) => sentinel_field(v, max),
        None => Ok(None),
    }
}

/// An optional clock-time attribute, as hour and minute.
pub open spec fn clock_attr(e: ElementView, key: Seq<char>) -> Result<Option<(nat, nat)>, DecodeError> {
    match attr(e, key) {
        Some(v) => match chrono_time_fields(v, "%H:%M"@) {
            Some(f) => Ok(Some((f.0 as nat, f.1 as nat))),
            None => Err(DecodeError::InvalidTime),
        },
        None => Ok(None),
    }
}

pub open spec fn clock_of(t: Option<ClockTime>) -> Option<(nat, nat)> {
    match t {
        Some(c) => Some((c.hour_of(), c.minute_of())),
        None => None,
    }
}

/// An optional swim-duration attribute, in milliseconds.
pub open spec fn swim_attr(e: ElementView, key: Seq<char>) -> Result<Option<u64>, DecodeError> {
    match attr(e, key) {
        Some(v) => match swim_field(v) {
            Ok(ms) => Ok(Some(ms)),
            Err(err) => Err(err),
        },
        None => Ok(None),
    }
}

pub open spec fn swim_of(d: Option<SwimDuration>) -> Option<u64> {
    match d {
        Some(x) => Some(x.milliseconds),
        None => None,
    }
}

/// A required date attribute, as year, month and day.
pub open spec fn date_attr(e: ElementView, key: Seq<char>) -> Result<(i32, u32, u32), DecodeError> {
    match attr(e, key) {
        Some(v) => match chrono_date_fields(v) {
            Some(f) => Ok(f),
            None => Err(DecodeError::InvalidDate),
        },
        None => Err(DecodeError::MissingAttribute),
    }
}

pub open spec fn date_of(d: Date) -> (i32, u32, u32) {
    (d.year_of(), d.month_of(), d.day_of())
}

/// The text of an attribute, or the empty text where it is absent.
pub open spec fn attr_or_empty(e: ElementView, key: Seq<char>) -> Seq<char> {
    match attr(e, key) {
        Some(v) => v,
        None => Seq::empty(),
    }
}

/// The text written for an optional value: nothing where it is absent.
pub open spec fn opt_written_text(o: Option<Seq<char>>) -> Seq<char> {
    match o {
        Some(v) => v,
        None => Seq::empty(),
    }
}

pub open spec fn opt_decimal_text(o: Option<u64>) -> Seq<char> {
    match o {
        Some(v) => decimal_text(v as nat),
        None => Seq::empty(),
    }
}

pub fn read_opt_text(e: &XmlElement, key: &str) -> (r: Option<String>)
    ensures
        opt_text(r) == attr(view_of(*e), key@),
{
    match e.attribute(key) {
        Some(v) => Some(v.clone()),
        None => None,
    }
}

/// The text of an attribute, or the empty text.
pub fn read_token<'a>(e: &'a XmlElement, key: &str) -> (r: &'a str)
    ensures
        r@ == attr_or_empty(view_of(*e), key@),
{
    match e.attribute(key) {
        Some(v) => v.as_str(),
        None => {
            proof { reveal_strlit(""); }
            ""
        },
    }
}

pub fn read_unsigned(e: &XmlElement, key: &str, max: u64) -> (r: Result<u64, DecodeError>)
    ensures
        r == unsigned_attr(view_of(*e), key@, max),
{
    match e.attribute(key) {
        Some(v) => decode_unsigned(v.as_str(), max),
        None => Err(DecodeError::MissingAttribute),
    }
}

pub fn read_opt_unsigned(e: &XmlElement, key: &str, max: u64) -> (r: Result<Option<u64>, DecodeError>)
    ensures
        r == opt_unsigned_attr(view_of(*e), key@, max),
{
    match e.attribute(key) {
        Some(v) => match decode_unsigned(v.as_str(), max) {
            Ok(n) => Ok(Some(n)),
            Err(err) => Err(err),
        },
        None => Ok(None),
    }
}

pub fn read_sentinel(e: &XmlElement, key: &str, max: u64) -> (r: Result<Option<u64>, DecodeError>)
    ensures
        r == sentinel_attr(view_of(*e), key@, max),
{
    match e.attribute(key) {
        Some(v) => decode_sentinel(v.as_str(), max),
        None => Ok(None),
    }
}

pub fn read_clock(e: &XmlElement, key: &str) -> (r: Result<Option<ClockTime>, DecodeError>)
    ensures
        r is Ok <==> clock_attr(view_of(*e), key@) is Ok,
        r matches Ok(t) ==> clock_attr(view_of(*e), key@) == Ok::<Option<(nat, nat)>, DecodeError>(
            clock_of(t),
        ),
        r matches Err(err) ==> clock_attr(view_of(*e), key@) == Err::<Option<(nat, nat)>, DecodeError>(err),
{
    match e.attribute(key) {
        Some(v) => match ClockTime::decode(v.as_str()) {
            Ok(t) => Ok(Some(t)),
            Err(err) => Err(err),
        },
        None => Ok(None),
    }
}

pub fn read_swim(e: &XmlElement, key: &str) -> (r: Result<Option<SwimDuration>, DecodeError>)
    ensures
        r is Ok <==> swim_attr(view_of(*e), key@) is Ok,
        r matches Ok(d) ==> swim_attr(view_of(*e), key@) == Ok::<Option<u64>, DecodeError>(swim_of(d)),
        r matches Err(err) ==> swim_attr(view_of(*e), key@) == Err::<Option<u64>, DecodeError>(err),
{
    match e.attribute(key) {
        Some(v) => match SwimDuration::decode(v.as_str()) {
            Ok(d) => Ok(Some(d)),
            Err(err) => Err(err),
        },
        None => Ok(None),
    }
}

pub fn read_date(e: &XmlElement, key: &str) -> (r: Result<Date, DecodeError>)
    ensures
        r is Ok <==> date_attr(view_of(*e), key@) is Ok,
        r matches Ok(d) ==> date_attr(view_of(*e), key@) == Ok::<(i32, u32, u32), DecodeError>(date_of(d)),
        r matches Err(err) ==> date_attr(view_of(*e), key@) == Err::<(i32, u32, u32), DecodeError>(err),
{
    match e.attribute(key) {
        Some(v) => Date::decode(v.as_str()),
        None => Err(DecodeError::MissingAttribute),
    }
}

pub fn opt_string_text(o: &Option<String>) -> (r: String)
    ensures
        r@ == opt_written_text(opt_text(*o)),
{
    match o {
        Some(v) => v.clone(),
        None => String::new(),
    }
}

pub fn opt_decimal_string(o: Option<u64>) -> (r: String)
    ensures
        r@ == opt_decimal_text(o),
{
    match o {
        Some(v) => decimal_string(v),
        None => String::new(),
    }
}

/// A required version attribute, in tenths.
pub open spec fn version_attr(e: ElementView, key: Seq<char>) -> Result<u64, DecodeError> {
    match attr(e, key) {
        Some(v) => version_field(v),
        None => Err(DecodeError::MissingAttribute),
    }
}

pub fn read_version(e: &XmlElement, key: &str) -> (r: Result<u64, DecodeError>)
    ensures
        r == version_attr(view_of(*e), key@),
{
    match e.attribute(key) {
        Some(v) => decode_version(v.as_str()),
        None => Err(DecodeError::MissingAttribute),
    }
}

pub open spec fn opt32(o: Option<u32>) -> Option<u64> {
    match o {
        Some(v) => Some(v as u64),
        None => None,
    }
}

pub open spec fn opt8(o: Option<u8>) -> Option<u64> {
    match o {
        Some(v) => Some(v as u64),
        None => None,
    }
}

pub fn widen32(o: Option<u32>) -> (r: Option<u64>)
    ensures
        r == opt32(o),
{
    match o {
        Some(v) => Some(v as u64),
        None => None,
    }
}

pub fn narrow32(o: Option<u64>) -> (r: Option<u32>)
    requires
        o matches Some(v) ==> v <= u32::MAX,
    ensures
        opt32(r) == o,
{
    match o {
        Some(v) => Some(v as u32),
        None => None,
    }
}

pub fn widen8(o: Option<u8>) -> (r: Option<u64>)
    ensures
        r == opt8(o),
{
    match o {
        Some(v) => Some(v as u64),
        None => None,
    }
}

pub fn narrow8(o: Option<u64>) -> (r: Option<u8>)
    requires
        o matches Some(v) ==> v <= u8::MAX,
    ensures
        opt8(r) == o,
{
    match o {
        Some(v) => Some(v as u8),
        None => None,
    }
}

} // verus!

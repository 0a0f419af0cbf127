use lenex::model::{AgeGroup, Calculate, Entry, Event, Fee, Gender, Meet, Session, Stroke, SwimStyle};
use lenex::{
    collection_from_xml, collection_to_xml, record_from_xml, record_to_xml, records_from_xml,
    records_to_xml, ClockTime, Collection, Date, DecodeError, SwimDuration,
};

#[test]
fn deserialize_empty_age_group() {
    let result = record_from_xml::<AgeGroup>(r#"<AGEGROUP/>"#);
    assert!(result.is_err());
}

#[test]
fn deserialize_basic_age_group() {
    let result = record_from_xml::<AgeGroup>(r#"<AGEGROUP agegroupid="123"/>"#);
    assert!(result.is_ok());

    let age_group = result.unwrap();

    assert_eq!(123, age_group.id);
    assert!(age_group.age_min.is_none());
    assert!(age_group.age_max.is_none());
    assert_eq!(Gender::default(), age_group.gender);
    assert_eq!(Calculate::Single, age_group.calculate);
}

#[test]
fn deserialize_vetor() {
    let result = records_from_xml::<AgeGroup>(
        r#"<AGEGROUP agegroupid="123"/><AGEGROUP agegroupid="456"/>"#,
    );
    assert!(result.is_ok());
    let age_groups = result.unwrap();

    assert_eq!(2, age_groups.len());
    assert_eq!(123, age_groups.get(0).unwrap().id);
}

#[test]
fn deserialize_mixed_age_group() {
    let result = record_from_xml::<AgeGroup>(
        r#"<AGEGROUP agegroupid="123" agemin="13" agemax="14" name="13-14 mixed"/>"#,
    );
    assert!(result.is_ok());

    let age_group = result.unwrap();

    assert_eq!(123, age_group.id);

    assert!(age_group.name.is_some());
    assert!(age_group.name.unwrap().eq("13-14 mixed"));

    assert!(age_group.age_min.is_some());
    assert_eq!(13, age_group.age_min.unwrap());
    assert!(age_group.age_max.is_some());
    assert_eq!(14, age_group.age_max.unwrap());

    assert_eq!(Gender::default(), age_group.gender);
    assert_eq!(Calculate::Single, age_group.calculate);
}

#[test]
fn deserialize_male_age_group() {
    let result = record_from_xml::<AgeGroup>(
        r#"<AGEGROUP agegroupid="123" agemin="-1" agemax="-1" gender="M" />"#,
    );
    assert!(result.is_ok());

    let age_group = result.unwrap();

    assert_eq!(123, age_group.id);
    assert!(age_group.age_min.is_none());
    assert!(age_group.age_max.is_none());
    assert_eq!(Gender::Male, age_group.gender);
    assert_eq!(Calculate::Single, age_group.calculate);
}

#[test]
fn serialize_age_group() {
    let age_group = AgeGroup {
        id: 123,
        age_min: Some(13),
        age_max: None,
        gender: Gender::Female,
        name: Some("13+ female".into()),
        ..Default::default()
    };

    let xml = record_to_xml(&age_group);
    assert_eq!(
        r#"<AGEGROUP agegroupid="123" agemin="13" agemax="-1" gender="F" name="13+ female"/>"#,
        xml
    );
}

#[test]
fn serialize_mixed_age_group() {
    let age_group = AgeGroup {
        id: 123,
        age_min: Some(13),
        age_max: None,
        gender: Gender::default(),
        name: Some("13+ female".into()),
        ..Default::default()
    };

    let xml = record_to_xml(&age_group);
    assert_eq!(
        r#"<AGEGROUP agegroupid="123" agemin="13" agemax="-1" name="13+ female"/>"#,
        xml
    );
}

#[test]
fn serialize_vetor() {
    let age_groups = vec![
        AgeGroup {
            id: 123,
            age_min: None,
            age_max: None,
            gender: Gender::default(),
            calculate: Calculate::default(),
            name: Some("age group 1 name".into()),
        },
        AgeGroup {
            id: 456,
            age_min: None,
            age_max: None,
            gender: Gender::default(),
            calculate: Calculate::default(),
            name: Some("age group 2 name".into()),
        },
    ];

    let xml = records_to_xml(&age_groups);
    assert_eq!(
        r#"<AGEGROUP agegroupid="123" agemin="-1" agemax="-1" name="age group 1 name"/><AGEGROUP agegroupid="456" agemin="-1" agemax="-1" name="age group 2 name"/>"#,
        xml
    );
}

#[test]
fn deserialize_entries() {
    let result = collection_from_xml::<Entry>(
        r#"<ENTRIES><ENTRY eventid="150" entrytime="00:00:01.25"/><ENTRY eventid="280"/></ENTRIES>"#,
    );
    assert!(result.is_ok());
    let entries = result.unwrap();
    assert_eq!(2, entries.len());

    let first = entries.first().unwrap();
    assert_eq!(150, first.event_id);
    assert_eq!(1, first.entry_time.unwrap().num_seconds());
    assert_eq!(1250, first.entry_time.unwrap().num_milliseconds());
}

#[test]
fn serialize_entries() {
    let entries = Collection::<Entry>::from(vec![
        Entry {
            event_id: 64,
            ..Default::default()
        },
        Entry {
            event_id: 48,
            entry_time: Some(SwimDuration::from_milliseconds(5 * 1000 + 500)),
        },
    ]);

    let result = collection_to_xml(&entries);
    assert_eq!("<ENTRIES><ENTRY eventid=\"64\"/><ENTRY eventid=\"48\" entrytime=\"00:00:05.50\"/></ENTRIES>", result);
}

#[test]
fn event_deserialize_empty() {
    let result = record_from_xml::<Event>(r#"<EVENT/>"#);
    assert!(result.is_err());
}

#[test]
fn event_deserialize_basic() {
    let result = record_from_xml::<Event>(
        r#"<EVENT eventid="123" number="456"><SWIMSTYLE distance="50" relaycount="1" swimstyleid="5840" stroke="UNKNOWN"/></EVENT>"#,
    );
    assert!(result.is_ok());

    let event = result.unwrap();
    assert_eq!(123, event.id);
    assert_eq!(456, event.number);
}

// An absent previous-event id and order are written with the sentinel `-1`.
#[test]
fn event_serialize_basic_collection() {
    let events = vec![Event {
        id: 123,
        ..Default::default()
    }];

    let xml = records_to_xml(&events);
    assert_eq!(
        r#"<EVENT eventid="123" preveventid="-1" number="0" order="-1"><SWIMSTYLE swimstyleid="0" distance="0" relaycount="0" stroke="UNKNOWN"/></EVENT>"#,
        xml
    );
}

#[test]
fn test_deserialize_fees() {
    let result = record_from_xml::<Meet>(
        "<MEET name=\"\" city=\"\" nation=\"\"><FEES><FEE type=\"my_type\" value=\"0\"/></FEES><SESSIONS/><CLUBS/></MEET>",
    );
    assert!(result.is_ok());

    let meet = result.unwrap();
    assert_eq!(1, meet.fees.len());
}

#[test]
fn test_deserialize_sessions() {
    let result = record_from_xml::<Meet>(
        r#"<MEET name="" city="" nation=""><SESSIONS><SESSION date="2023-02-11" number="123"><EVENTS/></SESSION></SESSIONS><CLUBS/></MEET>"#,
    );
    assert!(result.is_ok());

    let meet = result.unwrap();
    assert_eq!(1, meet.sessions.len());
}

#[test]
fn test_serialize_fees() {
    let meet = Meet {
        fees: vec![Fee::default()].into(),
        ..Default::default()
    };

    let result = record_to_xml(&meet);
    assert_eq!(
        "<MEET><FEES><FEE value=\"0\"/></FEES><SESSIONS/><CLUBS/></MEET>",
        &result
    );
}

#[test]
fn test_serialize_sessions() {
    let meet = Meet {
        sessions: vec![Session::default()].into(),
        ..Default::default()
    };

    let result = record_to_xml(&meet);
    assert_eq!(
        r#"<MEET><FEES/><SESSIONS><SESSION date="1970-01-01" number="0"><EVENTS/></SESSION></SESSIONS><CLUBS/></MEET>"#,
        &result
    );
}

#[test]
fn session_deserialize_empty() {
    let result = record_from_xml::<Session>(r#"<SESSION/>"#);
    assert!(result.is_err());
}

#[test]
fn deserialize_missing_date() {
    let result = record_from_xml::<Session>(r#"<SESSION number="123"><EVENTS/></SESSION>"#);
    assert!(result.is_err());
}

#[test]
fn deserialize_missing_number() {
    let result = record_from_xml::<Session>(r#"<SESSION date="2023-02-11"><EVENTS/></SESSION>"#);
    assert!(result.is_err());
}

#[test]
fn deserialize_missing_events() {
    let result =
        record_from_xml::<Session>(r#"<SESSION date="2023-02-11" number="123"></SESSION>"#);
    assert!(result.is_err());
}

#[test]
fn session_deserialize_basic() {
    let result = record_from_xml::<Session>(
        r#"<SESSION date="2023-02-11" number="123"><EVENTS/></SESSION>"#,
    );
    assert!(result.is_ok());

    let session = result.unwrap();
    assert_eq!(123, session.number);
    assert_eq!(11, session.date.day());
    assert_eq!(02, session.date.month());
    assert_eq!(2023, session.date.year());
    assert_eq!(0, session.events.len());
}

#[test]
fn deserialize_with_times() {
    let result = record_from_xml::<Session>(
        r#"<SESSION date="2023-02-11" number="123" daytime="18:00" endtime="22:00" warmupfrom="16:45" warmupuntil="17:30" teamleadermeeting="07:00"><EVENTS/></SESSION>"#,
    );
    assert!(result.is_ok());

    let session = result.unwrap();
    assert_eq!(123, session.number);
    assert_eq!(11, session.date.day());
    assert_eq!(02, session.date.month());
    assert_eq!(2023, session.date.year());
    assert_eq!(0, session.events.len());

    assert!(session.day_time.is_some());
    let day_time = session.day_time.unwrap();
    assert_eq!(18, day_time.hour());
    assert_eq!(0, day_time.minute());
    assert!(session.end_time.is_some());
    assert!(session.warmup_from.is_some());
    assert!(session.warmup_until.is_some());
    assert!(session.team_leader_meeting.is_some());
}

#[test]
fn deserialize_name() {
    let result = record_from_xml::<Session>(
        r#"<SESSION date="2023-02-11" number="123" name="test session"><EVENTS/></SESSION>"#,
    );
    assert!(result.is_ok());

    let session = result.unwrap();
    assert!(session.name.is_some());
    assert_eq!("test session", session.name.unwrap());
}

#[test]
fn deserialize_event() {
    let result = record_from_xml::<Session>(
        r#"<SESSION date="2023-02-11" number="123" name="test session"><EVENTS><EVENT eventid="1176" daytime="08:30" number="1" order="1" round="TIM" preveventid="-1"><SWIMSTYLE distance="4" relaycount="1" swimstyleid="511" name="4 m  Lancer de précision 10ans et -" stroke="UNKNOWN"/><AGEGROUPS/></EVENT></EVENTS></SESSION>"#,
    );
    assert!(result.is_ok());

    let session = result.unwrap();
    assert!(session.name.is_some());
    assert_eq!("test session", session.name.unwrap());
    assert_eq!(1, session.events.len());
    assert_eq!(1176, session.events.get(0).unwrap().id)
}

#[test]
fn serialize_basic() {
    let session = Session {
        date: Date::default(),
        day_time: None,
        end_time: None,
        name: None,
        number: 123,
        team_leader_meeting: None,
        warmup_from: None,
        warmup_until: None,
        timing: None,
        events: Vec::new().into(),
    };

    let xml = record_to_xml(&session);
    assert_eq!(
        r#"<SESSION date="1970-01-01" number="123"><EVENTS/></SESSION>"#,
        xml
    );
}

#[test]
fn session_serialize_basic_collection() {
    let sessions = vec![
        Session {
            date: Date::default(),
            day_time: None,
            end_time: None,
            name: None,
            number: 123,
            team_leader_meeting: None,
            warmup_from: None,
            warmup_until: None,
            timing: None,
            events: Vec::new().into(),
        },
        Session {
            date: Date::default(),
            day_time: None,
            end_time: None,
            name: None,
            number: 456,
            team_leader_meeting: None,
            warmup_from: None,
            warmup_until: None,
            timing: None,
            events: Vec::new().into(),
        },
    ];

    let xml = records_to_xml(&sessions);
    assert_eq!(
        r#"<SESSION date="1970-01-01" number="123"><EVENTS/></SESSION><SESSION date="1970-01-01" number="456"><EVENTS/></SESSION>"#,
        xml
    );
}

// An absent previous-event id is written with the sentinel `-1`.
#[test]
fn serialize_two_events() {
    let mut events = Vec::new();

    let mut event = Event::new(123, 123, SwimStyle::default());
    event.order = 1.into();
    events.push(event);

    let mut event = Event::new(456, 456, SwimStyle::default());
    event.prev_event_id = 123.into();
    event.order = 2.into();
    events.push(event);

    let session = Session {
        date: Date::default(),
        day_time: None,
        end_time: None,
        name: None,
        number: 123,
        team_leader_meeting: None,
        warmup_from: None,
        warmup_until: None,
        timing: None,
        events: events.into(),
    };

    let xml = record_to_xml(&session);
    assert_eq!(
        r#"<SESSION date="1970-01-01" number="123"><EVENTS><EVENT eventid="123" preveventid="-1" number="123" order="1"><SWIMSTYLE swimstyleid="0" distance="0" relaycount="0" stroke="UNKNOWN"/></EVENT><EVENT eventid="456" preveventid="123" number="456" order="2"><SWIMSTYLE swimstyleid="0" distance="0" relaycount="0" stroke="UNKNOWN"/></EVENT></EVENTS></SESSION>"#,
        xml
    );
}

#[test]
fn swimstyle_deserialize_empty() {
    let result = record_from_xml::<SwimStyle>(r#"<SWIMSTYLE/>"#);
    assert!(result.is_err());
}

#[test]
fn swimstyle_deserialize_basic() {
    let result = record_from_xml::<SwimStyle>(
        r#"<SWIMSTYLE swimstyleid="123" distance="50" relaycount="1" name="50m" stroke="UNKNOWN"/>"#,
    );
    assert!(result.is_ok());

    let swim_style = result.unwrap();

    assert_eq!(123, swim_style.id);
    assert_eq!(50, swim_style.distance);
    assert_eq!(1, swim_style.relay_count);
    assert!(swim_style.name.unwrap().eq("50m"));
    assert_eq!(Stroke::Unknown, swim_style.stroke);
}

#[test]
fn swimstyle_serialize() {
    let swim_style = SwimStyle {
        id: 123,
        distance: 50,
        relay_count: 1,
        name: Some("50m swim".into()),
        stroke: Stroke::Unknown,
    };

    let xml = record_to_xml(&swim_style);
    assert_eq!(
        r#"<SWIMSTYLE swimstyleid="123" distance="50" relaycount="1" name="50m swim" stroke="UNKNOWN"/>"#,
        xml
    );
}

#[test]
fn session_builders_set_times() {
    let mut session = Session::new(7, Date::from_ymd(2024, 5, 4).unwrap(), Vec::new());
    session.with_day_time(ClockTime::from_hm(9, 30).unwrap());
    session.with_warmup_from(ClockTime::from_hm(8, 0).unwrap());
    session.with_warmup_until(ClockTime::from_hm(9, 15).unwrap());
    session.with_end_time(ClockTime::from_hm(12, 0).unwrap());
    assert_eq!(
        r#"<SESSION date="2024-05-04" daytime="09:30" endtime="12:00" number="7" warmupfrom="08:00" warmupuntil="09:15"><EVENTS/></SESSION>"#,
        record_to_xml(&session)
    );
}

#[test]
fn attribute_values_are_escaped_and_read_back() {
    let style = SwimStyle {
        id: 1,
        distance: 100,
        relay_count: 4,
        name: Some("4 x 100 \"free\" <A&B>".into()),
        stroke: Stroke::Free,
    };
    let xml = record_to_xml(&style);
    assert_eq!(
        r#"<SWIMSTYLE swimstyleid="1" distance="100" relaycount="4" name="4 x 100 &quot;free&quot; &lt;A&amp;B&gt;" stroke="FREE"/>"#,
        xml
    );
    let back = record_from_xml::<SwimStyle>(&xml).unwrap();
    assert_eq!(style, back);
}

#[test]
fn decode_errors_name_their_cause() {
    assert_eq!(
        Err(DecodeError::NumericOverflow),
        record_from_xml::<AgeGroup>(r#"<AGEGROUP agegroupid="1" agemin="300"/>"#)
    );
    assert_eq!(
        Err(DecodeError::InvalidNumber),
        record_from_xml::<AgeGroup>(r#"<AGEGROUP agegroupid="x"/>"#)
    );
    assert_eq!(
        Err(DecodeError::MissingAttribute),
        record_from_xml::<AgeGroup>(r#"<AGEGROUP/>"#)
    );
    assert_eq!(
        Err(DecodeError::InvalidTime),
        record_from_xml::<Entry>(r#"<ENTRY eventid="1" entrytime="soon"/>"#)
    );
    assert_eq!(
        Err(DecodeError::InvalidDate),
        record_from_xml::<Session>(r#"<SESSION date="2023-13-01" number="1"><EVENTS/></SESSION>"#)
    );
    assert_eq!(
        Err(DecodeError::MissingElement),
        record_from_xml::<Event>(r#"<EVENT eventid="1" number="1"/>"#)
    );
    assert_eq!(
        Err(DecodeError::UnknownToken),
        record_from_xml::<Meet>(r#"<MEET course="LONG"><SESSIONS/><CLUBS/></MEET>"#)
    );
    assert_eq!(
        Err(DecodeError::MalformedXml),
        record_from_xml::<Fee>(r#"<FEE value="1">"#)
    );
    assert_eq!(
        Err(DecodeError::MalformedXml),
        record_from_xml::<Fee>(r#"<FEE value="1"/><FEE value="2"/>"#)
    );
}

#[test]
fn collection_round_trip_keeps_order_and_ignores_other_children() {
    let fees: Collection<Fee> = vec![
        Fee { fee_type: "a".into(), value: 1 },
        Fee { fee_type: "b".into(), value: 2 },
        Fee { fee_type: "c".into(), value: 3 },
    ]
    .into();
    let xml = collection_to_xml(&fees);
    let back = collection_from_xml::<Fee>(&xml).unwrap();
    assert_eq!(fees, back);

    let empty: Collection<Fee> = Vec::new().into();
    let xml = collection_to_xml(&empty);
    assert_eq!("<FEES/>", xml);
    assert_eq!(empty, collection_from_xml::<Fee>(&xml).unwrap());

    let mixed = collection_from_xml::<Fee>(
        r#"<FEES><NOTE text="x"/><FEE type="a" value="1"/><OTHER/><FEE type="b" value="2"/></FEES>"#,
    )
    .unwrap();
    assert_eq!(2, mixed.len());
    assert_eq!(1, mixed.get(0).unwrap().value);
    assert_eq!(2, mixed.get(1).unwrap().value);
}

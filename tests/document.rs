use lenex::model::{Lenex, Meet, Stroke};
use lenex::record_to_xml;

const MINIMAL: &str = r#"<?xml version="1.0" encoding="UTF-8"?><LENEX version="3.0"><CONSTRUCTOR name="lenex" version="0.1.0"><CONTACT/></CONSTRUCTOR><MEETS><MEET name="Spring Open" city="Quebec" nation="CAN"><FEES/><SESSIONS><SESSION date="2023-02-11" number="1"><EVENTS><EVENT eventid="1" preveventid="-1" number="1" order="-1"><SWIMSTYLE swimstyleid="5840" distance="50" relaycount="1" stroke="UNKNOWN"/></EVENT></EVENTS></SESSION></SESSIONS><CLUBS/></MEET></MEETS></LENEX>"#;

#[test]
fn minimal_document_writes_back_the_same_text() {
    let doc = Lenex::from_xml(MINIMAL).unwrap();
    assert_eq!(30, doc.version);
    assert_eq!(1, doc.meets().len());
    let meet: &Meet = &doc.meets()[0];
    let event = meet.sessions.get(0).unwrap().events.get(0).unwrap();
    assert_eq!(5840, event.swim_style.id);
    assert_eq!(50, event.swim_style.distance);
    assert_eq!(1, event.swim_style.relay_count);
    assert_eq!(Stroke::Unknown, event.swim_style.stroke);
    assert_eq!(MINIMAL, doc.xml());
}

#[test]
fn new_document_reads_back() {
    let mut doc = Lenex::new();
    doc.meets.items.push(Meet::new("Open".into(), "CAN".into(), "Laval".into(), Vec::new()));
    let text = doc.xml();
    assert!(text.starts_with("<?xml version=\"1.0\" encoding=\"UTF-8\"?><LENEX version=\"3.0\">"));
    let back = Lenex::from_xml(&text).unwrap();
    assert_eq!(doc, back);
    assert_eq!(
        r#"<MEET name="Open" city="Laval" nation="CAN"><FEES/><SESSIONS/><CLUBS/></MEET>"#,
        record_to_xml(&back.meets()[0])
    );
}

#[test]
fn gender_outside_the_set_converges_to_all() {
    let group = lenex::record_from_xml::<lenex::model::AgeGroup>(
        r#"<AGEGROUP agegroupid="1" gender="Z"/>"#,
    )
    .unwrap();
    assert_eq!(lenex::model::Gender::All, group.gender);
    assert_eq!(
        r#"<AGEGROUP agegroupid="1" agemin="-1" agemax="-1"/>"#,
        record_to_xml(&group)
    );
}

#[test]
fn doctype_declarations_are_refused() {
    assert_eq!(Err(lenex::DecodeError::MalformedXml), Lenex::from_xml("<!DOCTYPE>"));
    assert_eq!(
        Err(lenex::DecodeError::MalformedXml),
        Lenex::from_xml("<!doctype lenex><LENEX version=\"3.0\"/>")
    );
}

#[test]
fn new_document_names_its_writer() {
    let doc = Lenex::new();
    assert_eq!("lenex-rs", doc.constructor.name);
    assert_eq!("", doc.constructor.registration);
    assert_eq!("CA", doc.constructor.contact.country);
    assert!(doc.xml().contains(r#"<CONSTRUCTOR name="lenex-rs" version="0.1.0"><CONTACT name="Francis Boulet-Rouleau" country="CA" email="francisbouletrouleau@gmail.com" internet="https://github.com/francisbr/lenex-rs"/></CONSTRUCTOR>"#));
}

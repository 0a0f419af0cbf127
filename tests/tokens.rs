use lenex::model::{AgeDateType, Calculate, Course, Gender, Round, Stroke, Timing};

#[test]
fn age_date_serialize() {
    let value = AgeDateType::CanFnq;
    let result = value.token();
    assert_eq!("CAN.FNQ", result);
}

#[test]
fn age_date_deserialize() {
    let result = AgeDateType::from_token("CAN.FNQ");
    assert_eq!(AgeDateType::CanFnq, result);
}

#[test]
fn calculate_serialize() {
    let value = Calculate::Single;
    assert_eq!("", value.token());

    let value = Calculate::Total;
    assert_eq!("TOTAL", value.token());
}

#[test]
fn calculate_deserialize() {
    let result = Calculate::from_token("TOTAL");
    assert_eq!(Calculate::Total, result);
}

#[test]
fn course_serialize() {
    let value = Course::SCM16;
    assert_eq!("SCM16", value.token());

    let value = Course::Open;
    assert_eq!("OPEN", value.token());
}

#[test]
fn course_deserialize() {
    let result = Course::from_token("SCY27");
    assert!(result.is_some());
    assert_eq!(Course::SCY27, result.unwrap());

    let result = Course::from_token("OPEN");
    assert!(result.is_some());
    assert_eq!(Course::Open, result.unwrap());
}

#[test]
fn gender_serialize() {
    let value = Gender::Male;
    assert_eq!("M", value.token());

    let value = Gender::All;
    assert_eq!("", value.token());
}

#[test]
fn gender_deserialize() {
    let result = Gender::from_token("X");
    assert_eq!(Gender::Mixed, result);
}

#[test]
fn round_serialize() {
    let value = Round::TimedFinals;
    assert_eq!("", value.token());

    let value = Round::QuarterFinals;
    assert_eq!("QUA", value.token());
}

#[test]
fn round_deserialize() {
    let result = Round::from_token("SOQ");
    assert_eq!(Round::SwimOffQuarterFinals, result);
}

#[test]
fn stroke_serialize() {
    let value = Stroke::Surface;
    assert_eq!("SURFACE", value.token());
}

#[test]
fn stroke_deserialize() {
    let result = Stroke::from_token("SURFACE");
    assert_eq!(Stroke::Surface, result);
}

#[test]
fn timing_serialize() {
    let value = Timing::Automatic;
    assert_eq!("AUTOMATIC", value.token());
}

#[test]
fn timing_deserialize() {
    let result = Timing::from_token("MANUAL3");
    assert!(result.is_some());
    assert_eq!(Timing::Manual3, result.unwrap());
}

#[test]
fn every_token_reads_back() {
    for v in [Gender::Male, Gender::Female, Gender::Mixed, Gender::All] {
        assert_eq!(v, Gender::from_token(v.token()));
    }
    for v in [Round::TimedFinals, Round::FastestHeat, Round::Finals, Round::SemiFinals,
        Round::QuarterFinals, Round::Prelims, Round::SwimOffPrelims, Round::SwimOffSemiFinals,
        Round::SwimOffQuarterFinals]
    {
        assert_eq!(v, Round::from_token(v.token()));
    }
    for v in [Course::LCM, Course::SCM, Course::SCY, Course::SCM16, Course::SCM20, Course::SCM33,
        Course::SCY20, Course::SCY27, Course::SCY33, Course::SCY36, Course::Open]
    {
        assert_eq!(Some(v), Course::from_token(v.token()));
    }
    for v in [Timing::Automatic, Timing::SemiAutomatic, Timing::Manual1, Timing::Manual2,
        Timing::Manual3]
    {
        assert_eq!(Some(v), Timing::from_token(v.token()));
    }
    for v in [AgeDateType::Year, AgeDateType::Date, AgeDateType::Por, AgeDateType::CanFnq,
        AgeDateType::Lux]
    {
        assert_eq!(v, AgeDateType::from_token(v.token()));
    }
    assert_eq!(Stroke::Imrelay, Stroke::from_token(Stroke::Imrelay.token()));
    assert_eq!(Calculate::Total, Calculate::from_token(Calculate::Total.token()));
}

#[test]
fn neutral_variants_write_the_empty_token() {
    assert_eq!("", Gender::default().token());
    assert_eq!(Gender::All, Gender::from_token(""));
    assert_eq!("", Round::default().token());
    assert_eq!(Round::TimedFinals, Round::from_token(""));
    assert_eq!(Round::TimedFinals, Round::from_token("TIM"));
    assert_eq!("", Calculate::default().token());
    assert_eq!(Calculate::Single, Calculate::from_token(""));
    assert_eq!("", AgeDateType::default().token());
    assert_eq!(AgeDateType::Date, AgeDateType::from_token(""));
    assert_eq!(AgeDateType::Date, AgeDateType::from_token("DATE"));
}

#[test]
fn unknown_gender_reads_as_all_and_writes_empty() {
    let g = Gender::from_token("Q");
    assert_eq!(Gender::All, g);
    assert_eq!("", g.token());
}

#[test]
fn unknown_tokens_without_default_are_refused() {
    assert_eq!(None, Course::from_token("SCM17"));
    assert_eq!(None, Timing::from_token("automatic"));
    assert_eq!(Stroke::Unknown, Stroke::from_token("DOG"));
    assert_eq!(AgeDateType::Date, AgeDateType::from_token("NONE"));
}

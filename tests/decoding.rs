use std::str::FromStr;
use match_events::compound::{FiftyFifty, Tactics};
use match_events::events::{bad_behaviour_parser, fifty_fifty_parser, playpattern_nested, type_from_nested, Event};
use match_events::log::Events;
use match_events::payloads::{BallRecovery, Block, Pass};
use match_events::value::{parse_uint, Value};
use match_events::vocab::{Card, EventSubType, EventType, FiftyFiftyOutcome, Period, PlayPattern};

fn text(s: &str) -> Value {
    Value::Text(s.to_string())
}

fn num(s: &str) -> Value {
    Value::Number(s.to_string())
}

fn obj(entries: Vec<(&str, Value)>) -> Value {
    Value::Object(entries.into_iter().map(|(k, v)| (k.to_string(), v)).collect())
}

fn lookup(id: u32, name: &str) -> Value {
    obj(vec![("id", num(&id.to_string())), ("name", text(name))])
}

fn record(category: &str, extra: Vec<(&str, Value)>) -> Value {
    let mut entries = vec![
        ("id", text("a1")),
        ("index", num("7")),
        ("period", num("1")),
        ("timestamp", text("00:00:01.250")),
        ("minute", num("0")),
        ("second", num("1")),
        ("type", lookup(30, category)),
        ("play_pattern", lookup(1, "Regular Play")),
        ("team", lookup(217, "Barcelona")),
    ];
    entries.extend(extra);
    obj(entries)
}

fn lineup_entry(n: u32) -> Value {
    obj(vec![
        ("player", lookup(n, "Someone")),
        ("position", lookup(1, "Goalkeeper")),
        ("jersey_number", num(&n.to_string())),
    ])
}

fn tactics_with(n: u32) -> Value {
    obj(vec![
        ("formation", num("433")),
        ("lineup", Value::Array((1..=n).map(lineup_entry).collect())),
    ])
}

#[test]
fn recognized_category_decodes_to_its_variant() {
    let e = Event::decode(&record("Pass", vec![])).unwrap();
    assert_eq!(e.event_type, EventType::Pass);
    let e = Event::decode(&record("Ball Receipt*", vec![])).unwrap();
    assert_eq!(e.event_type, EventType::BallReceipt);
    let e = Event::decode(&record("50/50", vec![])).unwrap();
    assert_eq!(e.event_type, EventType::FiftyFifty);
}

#[test]
fn unrecognized_category_is_kept_as_unknown() {
    let e = Event::decode(&record("Goal Celebration", vec![])).unwrap();
    assert_eq!(e.event_type, EventType::Unknown("Goal Celebration".to_string()));
    assert_ne!(e.event_type, EventType::Unknown("Other".to_string()));
}

#[test]
fn event_fields_are_decoded() {
    let e = Event::decode(&record(
        "Pressure",
        vec![
            ("player", lookup(5503, "Lionel Messi")),
            ("location", Value::Array(vec![num("61.0"), num("40.1")])),
            ("duration", num("0.5")),
            ("possession", num("2")),
            ("under_pressure", Value::Bool(true)),
            ("related_events", Value::Array(vec![text("b2"), text("c3")])),
            ("pressure", obj(vec![("counterpress", Value::Bool(true))])),
        ],
    ))
    .unwrap();
    assert_eq!(e.id, "a1");
    assert_eq!(e.index, 7);
    assert_eq!(e.period, Period::FirstHalf);
    assert_eq!(e.timestamp, "00:00:01.250");
    assert_eq!(e.second, 1);
    assert_eq!(e.play_pattern, PlayPattern::RegularPlay);
    assert_eq!(e.team.id, 217);
    assert_eq!(e.team.name, "Barcelona");
    assert_eq!(e.player.as_ref().unwrap().name, "Lionel Messi");
    let loc = e.location.as_ref().unwrap();
    assert_eq!(loc.x.text, "61.0");
    assert_eq!(loc.y.text, "40.1");
    assert_eq!(e.duration.as_ref().unwrap().text, "0.5");
    assert_eq!(e.possession, Some(2));
    assert_eq!(e.under_pressure, Some(true));
    assert_eq!(e.out, None);
    assert_eq!(e.related_events, Some(vec!["b2".to_string(), "c3".to_string()]));
    assert!(e.pressure.as_ref().unwrap().counterpress);
    assert!(e.pass.is_none());
    assert!(e.fifty_fifty.is_none());
    assert!(e.bad_behaviour.is_none());
}

#[test]
fn missing_required_field_fails() {
    let mut v = record("Pass", vec![]);
    if let Value::Object(entries) = &mut v {
        entries.retain(|(k, _)| k != "team");
    }
    assert!(Event::decode(&v).is_err());
    assert!(Event::decode(&text("not a record")).is_err());
}

#[test]
fn period_outside_range_fails() {
    let mut v = record("Pass", vec![]);
    if let Value::Object(entries) = &mut v {
        entries[2].1 = num("6");
    }
    assert!(Event::decode(&v).is_err());
    assert_eq!(Period::from_number(5), Some(Period::PenaltyShootout));
    assert_eq!(Period::from_number(0), None);
}

#[test]
fn omitted_flags_decode_to_false() {
    let b = Block::decode(&obj(vec![])).unwrap();
    assert!(!b.deflection && !b.offensive && !b.save_block && !b.counterpress);
    let b = Block::decode(&obj(vec![("offensive", Value::Bool(true))])).unwrap();
    assert!(b.offensive && !b.deflection);
}

#[test]
fn flag_of_wrong_kind_fails() {
    assert!(Block::decode(&obj(vec![("offensive", text("yes"))])).is_err());
}

#[test]
fn pass_decodes_with_omitted_flags() {
    let p = Pass::decode(&obj(vec![
        ("length", num("12.5")),
        ("angle", num("-0.3")),
        ("height", lookup(1, "Ground Pass")),
        ("end_location", Value::Array(vec![num("70"), num("30")])),
        ("cut-back", Value::Bool(true)),
    ]))
    .unwrap();
    assert!(p.cut_back);
    assert!(!p.cross && !p.switch && !p.goal_assist && !p.shot_assist);
    assert_eq!(p.length.text, "12.5");
    assert_eq!(p.height.name, "Ground Pass");
    assert_eq!(p.end_location.x.text, "70");
    assert!(p.recipient.is_none());
}

#[test]
fn fifty_fifty_wrapper_decodes() {
    let v = obj(vec![(
        "50_50",
        obj(vec![("outcome", lookup(1, "Won")), ("counterpress", Value::Bool(true))]),
    )]);
    let f = fifty_fifty_parser(&v).unwrap().unwrap();
    assert!(matches!(f.outcome, FiftyFiftyOutcome::Won));
    assert_eq!(f.counterpress, Some(true));
}

#[test]
fn fifty_fifty_unknown_outcome_is_kept() {
    let v = obj(vec![(
        "50_50",
        obj(vec![("outcome", lookup(1, "Some Future Value")), ("counterpress", Value::Bool(true))]),
    )]);
    let f = fifty_fifty_parser(&v).unwrap().unwrap();
    match f.outcome {
        FiftyFiftyOutcome::Unknown(s) => assert_eq!(s, "Some Future Value"),
        _ => panic!("expected an unknown outcome"),
    }
    assert!(fifty_fifty_parser(&obj(vec![])).unwrap().is_none());
    let f = FiftyFifty::decode(&obj(vec![("outcome", lookup(4, "Success To Opposition"))])).unwrap();
    assert!(matches!(f.outcome, FiftyFiftyOutcome::SuccessToOpposition));
    assert_eq!(f.counterpress, None);
}

#[test]
fn bad_behaviour_card_decodes() {
    let v = obj(vec![("bad_behaviour", obj(vec![("card", lookup(7, "Yellow Card"))]))]);
    assert!(matches!(bad_behaviour_parser(&v).unwrap(), Some(Card::YellowCard)));
    let v = obj(vec![("bad_behaviour", obj(vec![("card", lookup(6, "Second Yellow"))]))]);
    assert!(matches!(bad_behaviour_parser(&v).unwrap(), Some(Card::SecondYellowCard)));
    let v = obj(vec![("bad_behaviour", obj(vec![("card", lookup(9, "Orange Card"))]))]);
    match bad_behaviour_parser(&v).unwrap() {
        Some(Card::Unknown(s)) => assert_eq!(s, "Orange Card"),
        _ => panic!("expected an unknown card"),
    }
    assert!(bad_behaviour_parser(&obj(vec![])).unwrap().is_none());
    assert!(bad_behaviour_parser(&obj(vec![("bad_behaviour", obj(vec![]))])).is_err());
}

#[test]
fn tactics_needs_exactly_eleven() {
    assert!(Tactics::decode(&tactics_with(10)).is_err());
    assert!(Tactics::decode(&tactics_with(12)).is_err());
    let t = Tactics::decode(&tactics_with(11)).unwrap();
    assert_eq!(t.formation, 433);
    assert_eq!(t.lineup.len(), 11);
    assert_eq!(t.lineup[10].jersey_number, 11);
}

#[test]
fn nested_wrappers_are_flattened() {
    let v = record("Shot", vec![]);
    assert_eq!(type_from_nested(&v).unwrap(), EventType::Shot);
    assert_eq!(playpattern_nested(&v).unwrap(), PlayPattern::RegularPlay);
    let v = obj(vec![("play_pattern", lookup(9, "From Nowhere"))]);
    assert_eq!(playpattern_nested(&v).unwrap(), PlayPattern::Other);
    assert_eq!(PlayPattern::from_name("From Keeper"), PlayPattern::FromKeeper);
    assert!(type_from_nested(&obj(vec![("type", text("Shot"))])).is_err());
}

#[test]
fn lookup_value_decodes() {
    let l = EventSubType::decode(&lookup(4294967295, "Max")).unwrap();
    assert_eq!(l.id, 4294967295);
    assert_eq!(l.name, "Max");
    assert!(EventSubType::decode(&obj(vec![("id", num("4294967296")), ("name", text("x"))])).is_err());
    assert!(EventSubType::decode(&obj(vec![("id", num("1"))])).is_err());
}

#[test]
fn integers_parse_exactly() {
    assert_eq!(parse_uint("0", 10), Some(0));
    assert_eq!(parse_uint("65535", 65535), Some(65535));
    assert_eq!(parse_uint("65536", 65535), None);
    assert_eq!(parse_uint("18446744073709551615", u64::MAX), Some(u64::MAX));
    assert_eq!(parse_uint("18446744073709551616", u64::MAX), None);
    assert_eq!(parse_uint("", 10), None);
    assert_eq!(parse_uint("1.5", 10), None);
    assert_eq!(parse_uint("-1", 10), None);
}

#[test]
fn event_type_from_str_is_total_and_exact() {
    assert_eq!(EventType::from_str("Pass"), Ok(EventType::Pass));
    assert_eq!(EventType::from_str("50/50"), Ok(EventType::FiftyFifty));
    assert_eq!(EventType::from_str("Starting XI"), Ok(EventType::StartingEleven));
    assert_eq!(EventType::from_str("Ball Receipt*"), Ok(EventType::BallReceipt));
    assert_eq!(EventType::from_str("Referee Ball-Drop"), Ok(EventType::RefereeBallDrop));
    assert_eq!(EventType::from_str("Dispossessed"), Ok(EventType::Dispossesed));
    assert_eq!(EventType::from_str("Carry"), Ok(EventType::Carry));
    assert_eq!(EventType::from_str("pass"), Ok(EventType::Unknown("pass".to_string())));
    assert_eq!(EventType::from_str(""), Ok(EventType::Unknown(String::new())));
    assert_eq!(EventType::from_str("Ball Receipt"), Ok(EventType::Unknown("Ball Receipt".to_string())));
}

#[test]
fn play_pattern_from_str_falls_back_to_other() {
    assert_eq!(PlayPattern::from_str("Regular Play"), Ok(PlayPattern::RegularPlay));
    assert_eq!(PlayPattern::from_str("From Counter"), Ok(PlayPattern::FromCounter));
    assert_eq!(PlayPattern::from_str("From Throw In"), Ok(PlayPattern::FromThrowIn));
    assert_eq!(PlayPattern::from_str("Set Piece 2030"), Ok(PlayPattern::Other));
    assert_eq!(PlayPattern::from_str(""), Ok(PlayPattern::Other));
}

#[test]
fn ball_recovery_flags_default_to_false() {
    let r = BallRecovery::decode(&obj(vec![])).unwrap();
    assert!(!r.recovery_failure && !r.offensive);
    let r = BallRecovery::decode(&obj(vec![("recovery_failure", Value::Bool(true))])).unwrap();
    assert!(r.recovery_failure && !r.offensive);
}

#[test]
fn document_with_omitted_flags_and_new_category_decodes() {
    let doc = Value::Array(vec![
        record(
            "Duel",
            vec![("duel", obj(vec![("type", lookup(11, "Tackle"))]))],
        ),
        record("Brand New Category", vec![("ball_recovery", obj(vec![]))]),
    ]);
    let log = Events::decode(&doc).unwrap();
    assert_eq!(log.len(), 2);
    assert!(!log.events[0].duel.as_ref().unwrap().counterpress);
    assert_eq!(log.events[1].event_type, EventType::Unknown("Brand New Category".to_string()));
    let rec = log.events[1].ball_recovery.as_ref().unwrap();
    assert!(!rec.recovery_failure && !rec.offensive);
}

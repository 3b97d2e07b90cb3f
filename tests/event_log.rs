use match_events::events::Event;
use match_events::log::Events;
use match_events::value::Value;
use match_events::vocab::EventType;

fn text(s: &str) -> Value {
    Value::Text(s.to_string())
}

fn num(s: &str) -> Value {
    Value::Number(s.to_string())
}

fn obj(entries: Vec<(&str, Value)>) -> Value {
    Value::Object(entries.into_iter().map(|(k, v)| (k.to_string(), v)).collect())
}

fn lookup(id: u32, name: &str) -> Value {
    obj(vec![("id", num(&id.to_string())), ("name", text(name))])
}

fn raw(id: &str, category: &str, team: &str, player: Option<&str>) -> Value {
    let mut entries = vec![
        ("id", text(id)),
        ("index", num("1")),
        ("period", num("2")),
        ("timestamp", text("00:10:00.000")),
        ("minute", num("55")),
        ("second", num("0")),
        ("type", lookup(1, category)),
        ("play_pattern", lookup(1, "Regular Play")),
        ("team", lookup(1, team)),
    ];
    if let Some(p) = player {
        entries.push(("player", lookup(2, p)));
    }
    obj(entries)
}

fn event(id: &str, category: &str, team: &str, player: Option<&str>) -> Event {
    Event::decode(&raw(id, category, team, player)).unwrap()
}

fn ids(log: &Events) -> Vec<String> {
    log.events.iter().map(|e| e.id.clone()).collect()
}

fn sample() -> Events {
    Events {
        events: vec![
            event("1", "Pass", "Home", Some("Ann")),
            event("2", "Shot", "Away", Some("Bea")),
            event("3", "Pass", "Away", None),
            event("4", "Brand New", "Home", Some("Ann")),
        ],
    }
}

#[test]
fn filter_by_category_selects_in_order() {
    let log = sample();
    let passes = log.filter_by_event_type(EventType::Pass);
    assert_eq!(ids(&passes), vec!["1", "3"]);
    assert_eq!(log.len(), 4);
    let unknown = log.filter_by_event_type(EventType::Unknown("Brand New".to_string()));
    assert_eq!(ids(&unknown), vec!["4"]);
    let other = log.filter_by_event_type(EventType::Unknown("Brand".to_string()));
    assert_eq!(other.len(), 0);
}

#[test]
fn filter_by_category_is_idempotent() {
    let log = sample();
    let once = log.filter_by_event_type(EventType::Pass);
    let twice = once.filter_by_event_type(EventType::Pass);
    assert_eq!(ids(&once), ids(&twice));
    assert_eq!(twice.len(), 2);
}

#[test]
fn filter_by_team_matches_exact_name() {
    let log = sample();
    assert_eq!(ids(&log.filter_by_team("Away")), vec!["2", "3"]);
    assert_eq!(log.filter_by_team("away").len(), 0);
}

#[test]
fn filter_by_player_skips_events_without_player() {
    let log = sample();
    assert_eq!(ids(&log.filter_by_player("Ann")), vec!["1", "4"]);
    assert_eq!(log.filter_by_player("").len(), 0);
    let lone = Events { events: vec![event("9", "Pass", "Home", None)] };
    assert_eq!(lone.filter_by_player("").len(), 0);
    assert_eq!(lone.filter_by_player("Ann").len(), 0);
}

#[test]
fn filter_by_predicate_uses_the_predicate() {
    let log = sample();
    let kept = log.filter_by_predicate(|e: &Event| e.player.is_none());
    assert_eq!(ids(&kept), vec!["3"]);
    assert_eq!(log.filter_by_predicate(|_e: &Event| true).len(), 4);
}

#[test]
fn retain_keeps_matching_events_in_order() {
    let mut log = Events {
        events: vec![
            event("pass-a", "Pass", "Home", None),
            event("shot-a", "Shot", "Home", None),
            event("pass-b", "Pass", "Home", None),
        ],
    };
    log.retain(EventType::Pass);
    assert_eq!(log.len(), 2);
    assert_eq!(ids(&log), vec!["pass-a", "pass-b"]);
}

#[test]
fn extend_concatenates() {
    let mut a = sample();
    let b = Events { events: vec![event("5", "Carry", "Home", None), event("6", "Duel", "Away", None)] };
    a.extend(b);
    assert_eq!(a.len(), 6);
    assert_eq!(ids(&a), vec!["1", "2", "3", "4", "5", "6"]);
}

#[test]
fn indexing_past_the_end_gives_none() {
    let log = sample();
    assert_eq!(log.get(3).unwrap().id, "4");
    assert!(log.get(4).is_none());
}

#[test]
fn document_decodes_as_a_whole() {
    let doc = Value::Array(vec![raw("1", "Pass", "Home", None), raw("2", "Shot", "Away", None)]);
    let log = Events::decode(&doc).unwrap();
    assert_eq!(ids(&log), vec!["1", "2"]);
    let bad = Value::Array(vec![raw("1", "Pass", "Home", None), text("junk")]);
    assert!(Events::decode(&bad).is_err());
    assert!(Events::decode(&obj(vec![])).is_err());
    assert_eq!(Events::decode(&Value::Array(vec![])).unwrap().len(), 0);
}

#[test]
fn owned_iteration_visits_all_in_order() {
    let mut it = sample().into_iter();
    let mut seen = Vec::new();
    while let Some(e) = it.next() {
        seen.push(e.id);
    }
    assert_eq!(seen, vec!["1", "2", "3", "4"]);
    assert!(it.next().is_none());
}

#[test]
fn borrowed_iteration_can_restart() {
    let log = sample();
    for _ in 0..2 {
        let mut it = log.iter();
        let mut seen = Vec::new();
        while let Some(e) = it.next() {
            seen.push(e.id.clone());
        }
        assert_eq!(seen, vec!["1", "2", "3", "4"]);
    }
    assert_eq!(log.len(), 4);
}

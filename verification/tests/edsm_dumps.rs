use edsm::{from_json, json, DecodeError, System};

const WITHOUT_COORDINATES: &str = r#"[
    {"id": 2, "id64": 10477373803, "name": "1 Geminorum", "information": {},
     "date": "2015-05-12 15:29:33"},
    {"id": 4, "id64": 3238296097059, "name": "10 Arietis", "information": {},
     "date": "2015-05-12 15:29:33"}
]"#;

const WITH_COORDINATES: &str = r#"[
    {"id": 8, "id64": 13864825529769, "name": "14 Herculis",
     "coords": {"x": 22, "y": 40.5, "z": 29.125}, "information": {},
     "date": "2015-05-12 15:29:33"},
    {"id": 27, "id64": 10477373803, "name": "Sol",
     "coords": {"x": 0, "y": 0, "z": 0}, "information": {}, "date": "2015-05-12 15:29:33"}
]"#;

const POPULATED: &str = r#"[
    {"id": 27, "id64": 10477373803, "name": "Sol",
     "coords": {"x": 0, "y": 0, "z": 0},
     "allegiance": "Federation", "government": "Democracy", "state": "None",
     "economy": "Refinery", "security": "High", "population": 22780919531,
     "controllingFaction": {"id": 588, "name": "Mother Gaia", "allegiance": "Federation",
                            "government": "Democracy", "isPlayer": false},
     "factions": [
        {"id": 588, "name": "Mother Gaia", "allegiance": "Federation",
         "government": "Democracy", "influence": 0.6, "state": "None",
         "activeStates": [], "recoveringStates": [], "pendingStates": [],
         "happiness": "Happy", "isPlayer": false, "lastUpdate": 1600000000}
     ],
     "stations": [], "date": "2020-10-01 12:00:01"},
    {"id": 1062, "id64": 2009342784882, "name": "Meliae",
     "coords": {"x": -17.3, "y": 49.5, "z": -142.5},
     "allegiance": "Independent", "government": "Corporate", "state": "Boom",
     "economy": "High Tech", "security": "Medium", "population": 5000000,
     "controllingFaction": {"id": 81861, "name": "New Pilots Initiative",
                            "allegiance": "Independent", "government": "Corporate",
                            "isPlayer": true},
     "date": "2020-10-01 12:00:02"}
]"#;

#[test]
fn systems_without_coordinates() {
    let systems = json(WITHOUT_COORDINATES);
    assert!(!systems.is_empty());
}

#[test]
fn systems_with_coordinates() {
    let systems = json(WITH_COORDINATES);
    assert!(!systems.is_empty());
}

#[test]
fn systems_populated() {
    let systems = json(POPULATED);
    assert!(!systems.is_empty());
    for system in systems {
        assert!(system.information.state.is_some());
    }
}

#[test]
fn a_dump_that_lists_no_systems() {
    assert_eq!(json("[]"), vec![]);
    assert_eq!(from_json::<Vec<System>>("[]"), Ok(vec![]));
}

#[test]
fn a_text_that_is_no_dump_is_told_apart_first() {
    let read = |text: &str| from_json::<Vec<System>>(text);
    assert!(matches!(read(""), Err(DecodeError::Syntax(_))));
    // An object where the list would stand.
    assert_eq!(
        read(r#"{"name": "Sol", "state": "None"}"#),
        Err(DecodeError::UnexpectedShape("array".to_string()))
    );
    // One entry that is no system spoils the list: no part of it is handed out.
    assert_eq!(
        read(r#"[{"name": "A", "state": "Boom"}, {"id": 2, "state": "War"}]"#),
        Err(DecodeError::MissingField("name".to_string()))
    );
    assert_eq!(
        read(r#"[{"name": "Sol", "state": "None"}, 27]"#),
        Err(DecodeError::UnexpectedShape("System".to_string()))
    );
    assert_eq!(
        read(r#"[{"name": "Sol"}]"#),
        Err(DecodeError::MissingField("information".to_string()))
    );
    assert_eq!(json(r#"[{"name": "A", "state": "Boom"}]"#).len(), 1);
}

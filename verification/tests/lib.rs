use edsm::json;

const WITHOUT_COORDINATES: &str =
    r#"[{"id": 2, "id64": 10477373803, "name": "1 Geminorum", "information": {},
         "date": "2015-05-12 15:29:33"}]"#;

const WITH_COORDINATES: &str = r#"[{"id": 27, "id64": 10477373803, "name": "Sol",
    "coords": {"x": 0, "y": 0, "z": 0}, "information": {}, "date": "2015-05-12 15:29:33"}]"#;

const POPULATED: &str = r#"[
    {"id": 27, "id64": 10477373803, "name": "Sol", "coords": {"x": 0, "y": 0, "z": 0},
     "allegiance": "Federation", "government": "Democracy", "state": "None",
     "economy": "Refinery", "security": "High", "population": 22780919531,
     "date": "2020-10-01 12:00:01"},
    {"id": 1062, "id64": 2009342784882, "name": "Meliae",
     "coords": {"x": -17.3, "y": 49.5, "z": -142.5},
     "allegiance": "Independent", "government": "Corporate", "state": "Boom",
     "economy": "High Tech", "security": "Medium", "population": 5000000,
     "date": "2020-10-01 12:00:02"}
]"#;

#[test]
fn test_json() {
    let systems = json(WITHOUT_COORDINATES);
    assert!(!systems.is_empty());
    let systems = json(WITH_COORDINATES);
    assert!(!systems.is_empty());
    let systems = json(POPULATED);
    assert!(!systems.is_empty());
    for system in systems {
        assert!(system.information.state.is_some());
    }
}

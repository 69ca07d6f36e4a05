use edsm::faction::{
    ActiveStatesHistory, ControllingFaction, Faction, State, StateHistory, TrendingState,
    TrendingStatesHistory,
};
use edsm::json::Real;
use std::collections::HashMap;
use edsm::{from_json, DecodeError};

#[test]
fn test_state_history() {
    let empty_array = r#"
        []
    "#;
    let state_history: StateHistory = from_json(empty_array).unwrap();
    assert!(matches!(state_history, StateHistory::Empty(_)));
    let object = r#"
        { "123": "foo" }
    "#;
    let state_history: StateHistory = from_json(object).unwrap();
    assert!(matches!(state_history, StateHistory::Table(_)));
}

#[test]
fn state_history_keeps_the_key_as_text() {
    let history: StateHistory = from_json(r#"{"1609459200":"X"}"#).unwrap();
    assert_eq!(
        history,
        StateHistory::Table(vec![("1609459200".to_string(), "X".to_string())])
    );
}

#[test]
fn history_of_another_shape_is_refused() {
    let refused = from_json::<StateHistory>(r#"[1]"#);
    assert_eq!(refused, Err(DecodeError::UnexpectedShape("StateHistory".to_string())));
    let refused = from_json::<StateHistory>(r#"{"1": 2}"#);
    assert_eq!(refused, Err(DecodeError::UnexpectedShape("StateHistory".to_string())));
    let refused = from_json::<ActiveStatesHistory>(r#""soon""#);
    assert_eq!(refused, Err(DecodeError::UnexpectedShape("ActiveStatesHistory".to_string())));
}

#[test]
fn active_and_trending_histories() {
    let active: ActiveStatesHistory =
        from_json(r#"{"10": [{"state": "Boom"}], "20": []}"#).unwrap();
    assert_eq!(
        active,
        ActiveStatesHistory::Table(vec![
            ("10".to_string(), vec![State { state: "Boom".to_string() }]),
            ("20".to_string(), vec![]),
        ])
    );
    let trending: TrendingStatesHistory =
        from_json(r#"{"10": [{"state": "War", "trend": 1}]}"#).unwrap();
    assert_eq!(
        trending,
        TrendingStatesHistory::Table(vec![(
            "10".to_string(),
            vec![TrendingState { state: State { state: "War".to_string() }, trend: 1 }]
        )])
    );
    let empty: TrendingStatesHistory = from_json("[]").unwrap();
    assert!(matches!(empty, TrendingStatesHistory::Empty(_)));
}

#[test]
fn a_faction_with_its_histories() {
    let text = r#"{
        "id": 81861, "name": "New Pilots Initiative", "allegiance": "Independent",
        "government": "Corporate", "influence": 0.5,
        "influenceHistory": {"1592179799": 0.25, "1592266199": 0.5},
        "happieness": "Happy", "happienessHistory": {"1592179799": "Elated"},
        "state": "Boom", "stateHistory": {"1592179799": "None", "1592266199": "Boom"},
        "activeStates": [{"state": "Boom"}],
        "activeStatesHistory": {"1592266199": [{"state": "Boom"}]},
        "recoveringStates": [{"state": "War", "trend": 0}],
        "recoveringStatesHistory": [],
        "pendingStates": [],
        "pendingStatesHistory": {"1592266199": [{"state": "Expansion", "trend": 2}]},
        "isPlayer": true, "lastUpdated": 1592266199
    }"#;
    let faction: Faction = from_json(text).unwrap();
    let state = |name: &str| State { state: name.to_string() };
    assert_eq!(
        faction,
        Faction {
            id: 81861,
            name: "New Pilots Initiative".to_string(),
            allegiance: "Independent".to_string(),
            government: "Corporate".to_string(),
            influence: Real { bits: 0.5f64.to_bits() },
            influence_history: Some(HashMap::from([
                (1592179799, Real { bits: 0.25f64.to_bits() }),
                (1592266199, Real { bits: 0.5f64.to_bits() }),
            ])),
            happieness: Some("Happy".to_string()),
            happieness_history: Some(HashMap::from([(1592179799, "Elated".to_string())])),
            primary_state: "Boom".to_string(),
            primary_state_history: Some(StateHistory::Table(vec![
                ("1592179799".to_string(), "None".to_string()),
                ("1592266199".to_string(), "Boom".to_string()),
            ])),
            active_states: vec![state("Boom")],
            active_states_history: Some(ActiveStatesHistory::Table(vec![(
                "1592266199".to_string(),
                vec![state("Boom")]
            )])),
            recovering_states: vec![TrendingState { state: state("War"), trend: 0 }],
            recovering_states_history: Some(TrendingStatesHistory::Empty([])),
            pending_states: vec![],
            pending_states_history: Some(TrendingStatesHistory::Table(vec![(
                "1592266199".to_string(),
                vec![TrendingState { state: state("Expansion"), trend: 2 }]
            )])),
            is_player: true,
            last_updated: Some(1592266199),
        }
    );
}

const PLAIN: &str = r#"{
    "id": 7, "name": "Plain", "allegiance": "Federation", "government": "Democracy",
    "influence": 1, "state": "None", "activeStates": [], "recoveringStates": [],
    "pendingStates": [], "isPlayer": false
}"#;

#[test]
fn a_faction_without_histories() {
    let faction: Faction = from_json(PLAIN).unwrap();
    assert_eq!(f64::from_bits(faction.influence.bits), 1.0);
    assert_eq!(faction.influence_history, None);
    assert_eq!(faction.happieness, None);
    assert_eq!(faction.happieness_history, None);
    assert_eq!(faction.primary_state_history, None);
    assert_eq!(faction.active_states_history, None);
    assert_eq!(faction.recovering_states_history, None);
    assert_eq!(faction.pending_states_history, None);
    assert_eq!(faction.last_updated, None);
}

#[test]
fn a_faction_that_cannot_be_read() {
    let missing = |key: &str| Err(DecodeError::MissingField(key.to_string()));
    let shape = |place: &str| Err(DecodeError::UnexpectedShape(place.to_string()));
    for key in [
        "id", "name", "allegiance", "government", "influence", "state", "activeStates",
        "recoveringStates", "pendingStates", "isPlayer",
    ] {
        let text = PLAIN.replace(&format!("\"{}\"", key), "\"other\"");
        assert_eq!(from_json::<Faction>(&text), missing(key), "{}", key);
    }
    let with = |field: &str| PLAIN.replacen("{", &format!("{{{}, ", field), 1);
    assert_eq!(from_json::<Faction>(&with(r#""influenceHistory": []"#)), shape("object"));
    assert_eq!(
        from_json::<Faction>(&with(r#""influenceHistory": {"then": 0.5}"#)),
        Err(DecodeError::InvalidValue("then".to_string()))
    );
    assert_eq!(
        from_json::<Faction>(&with(r#""influenceHistory": {"01": 0.5}"#)),
        Err(DecodeError::InvalidValue("01".to_string()))
    );
    assert_eq!(
        from_json::<Faction>(&with(r#""influenceHistory": {"1": "much"}"#)),
        shape("number")
    );
    assert_eq!(
        from_json::<Faction>(&with(r#""happienessHistory": {"1": 5}"#)),
        shape("string")
    );
    assert_eq!(from_json::<Faction>(&with(r#""stateHistory": 5"#)), shape("StateHistory"));
    assert_eq!(
        from_json::<Faction>(&with(r#""pendingStatesHistory": {"1": [{"state": "War"}]}"#)),
        shape("TrendingStatesHistory")
    );
    assert_eq!(from_json::<Faction>(&with(r#""lastUpdated": -5"#)), shape("lastUpdated"));
    let text = PLAIN.replace(r#""activeStates": []"#, r#""activeStates": [{"state": 1}]"#);
    assert_eq!(from_json::<Faction>(&text), shape("state"));
    let text = PLAIN.replace(r#""pendingStates": []"#, r#""pendingStates": [{"state": "War"}]"#);
    assert_eq!(from_json::<Faction>(&text), missing("trend"));
    let text = PLAIN.replace(r#""pendingStates": []"#, r#""pendingStates": ["War"]"#);
    assert_eq!(from_json::<Faction>(&text), shape("TrendingState"));
    assert_eq!(from_json::<Faction>("[]"), shape("Faction"));
}

#[test]
fn the_controlling_faction() {
    let text = r#"{"id": 81861, "name": "New Pilots Initiative", "allegiance": "Independent",
                   "government": "Corporate", "isPlayer": true}"#;
    assert_eq!(
        from_json::<ControllingFaction>(text),
        Ok(ControllingFaction {
            id: 81861,
            name: "New Pilots Initiative".to_string(),
            allegiance: "Independent".to_string(),
            government: "Corporate".to_string(),
        })
    );
    assert_eq!(
        from_json::<ControllingFaction>(r#"{"id": 1, "name": "x", "allegiance": "y"}"#),
        Err(DecodeError::MissingField("government".to_string()))
    );
    assert_eq!(
        from_json::<ControllingFaction>(r#"null"#),
        Err(DecodeError::UnexpectedShape("ControllingFaction".to_string()))
    );
}

#[test]
fn states() {
    assert_eq!(from_json::<State>(r#"{"state": "Boom"}"#), Ok(State { state: "Boom".to_string() }));
    assert_eq!(from_json::<State>(r#"{}"#), Err(DecodeError::MissingField("state".to_string())));
    assert_eq!(
        from_json::<State>(r#""Boom""#),
        Err(DecodeError::UnexpectedShape("State".to_string()))
    );
    assert_eq!(
        from_json::<TrendingState>(r#"{"state": "Boom", "trend": 3}"#),
        Ok(TrendingState { state: State { state: "Boom".to_string() }, trend: 3 })
    );
    assert_eq!(
        from_json::<TrendingState>(r#"{"trend": 3}"#),
        Err(DecodeError::MissingField("state".to_string()))
    );
    assert_eq!(
        from_json::<TrendingState>(r#"{"state": "Boom", "trend": "up"}"#),
        Err(DecodeError::UnexpectedShape("trend".to_string()))
    );
}

#[test]
fn times_as_keys() {
    let text = PLAIN.replacen(
        "{",
        r#"{"influenceHistory": {"0": 1, "18446744073709551615": 0.5, "7": 0.25}, "#,
        1,
    );
    let history = from_json::<Faction>(&text).unwrap().influence_history.unwrap();
    assert_eq!(history.len(), 3);
    assert_eq!(history[&0], Real { bits: 1f64.to_bits() });
    assert_eq!(history[&7], Real { bits: 0.25f64.to_bits() });
    assert_eq!(history[&u64::MAX], Real { bits: 0.5f64.to_bits() });
    let text = PLAIN.replacen("{", r#"{"influenceHistory": {}, "happienessHistory": {}, "#, 1);
    let faction = from_json::<Faction>(&text).unwrap();
    assert_eq!(faction.influence_history, Some(HashMap::new()));
    assert_eq!(faction.happieness_history, Some(HashMap::new()));
    let text = PLAIN.replacen("{", r#"{"influenceHistory": {"18446744073709551616": 1}, "#, 1);
    assert_eq!(
        from_json::<Faction>(&text),
        Err(DecodeError::InvalidValue("18446744073709551616".to_string()))
    );
}

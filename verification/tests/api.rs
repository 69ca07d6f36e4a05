use edsm::api::{
    bodies, deaths, factions, get, receive, status_is_success, system, system_answer, systems,
    systems_answer, systems_cube, systems_sphere, traffic, Error, Request, MAX_RADIUS,
    SYSTEMS_URL, SYSTEM_URL,
};
use edsm::{Coordinate, DecodeError, System};

fn pair(key: &str, value: &str) -> (String, String) {
    (key.to_string(), value.to_string())
}

fn show_all() -> Vec<(String, String)> {
    vec![
        pair("showId", "1"),
        pair("showCoordinates", "1"),
        pair("showPermit", "1"),
        pair("showInformation", "1"),
    ]
}

fn listing(what: &str, name: &str, distances: Vec<(String, String)>) -> Request {
    let mut params = vec![pair("systemName", name)];
    params.extend(distances);
    params.extend(show_all());
    Request { path: format!("{}{}", SYSTEMS_URL, what), params }
}

fn double(value: edsm::json::Real) -> f64 {
    f64::from_bits(value.bits)
}

const SOL: &str = r#"{
    "name": "Sol", "id": 27, "id64": 10477373803,
    "coords": {"x": 0, "y": 0, "z": 0}, "coordsLocked": true,
    "requirePermit": true, "permitName": "Sol",
    "information": {
        "allegiance": "Federation", "government": "Democracy", "faction": "Mother Gaia",
        "factionState": "None", "population": 22780919531, "security": "High",
        "economy": "Refinery", "secondEconomy": "Service", "reserve": "Common"
    }
}"#;

#[test]
fn api_test_systems() {
    assert_eq!(systems("Sol"), listing("/systems", "Sol", vec![]));
    let answer = format!("[{}]", SOL);
    let system: Vec<System> = get(200, &answer).expect("EDSM API");
    assert!(system.len() == 1);

    assert_eq!(systems("Soli"), listing("/systems", "Soli", vec![]));
    let answer = r#"[{"name": "Solibamba", "id": 1, "information": {}},
        {"name": "Solitude", "id": 2, "population": 0}]"#;
    let systems: Vec<System> = get(200, answer).expect("EDSM API");
    assert!(systems.len() > 0);
    assert!(systems.len() > 1);
}

#[test]
fn api_test_systems_sphere_default() {
    let request = systems_sphere("Sol", None, None).expect("EDSM API");
    assert_eq!(request, listing("/sphere-systems", "Sol", vec![]));
}

#[test]
fn api_test_systems_sphere_max() {
    let radius = 100f64.to_string();
    let request = systems_sphere("EV Cancri", Some(&radius), None).expect("EDSM API");
    assert_eq!(request, listing("/sphere-systems", "EV Cancri", vec![pair("radius", "100")]));
}

#[test]
fn api_test_systems_sphere_float_high() {
    let radius = 17.8f64.to_string();
    let request = systems_sphere("Sol", Some(&radius), None).expect("EDSM API");
    assert_eq!(request, listing("/sphere-systems", "Sol", vec![pair("radius", "17.8")]));
}

#[test]
fn api_test_systems_sphere_float_low() {
    let radius = 17.3f64.to_string();
    let request = systems_sphere("Sol", Some(&radius), None).expect("EDSM API");
    assert_eq!(request, listing("/sphere-systems", "Sol", vec![pair("radius", "17.3")]));
}

#[test]
fn api_test_systems_sphere_min_radius() {
    let radius = 17.3f64.to_string();
    let min_radius = 10f64.to_string();
    let request = systems_sphere("Sol", Some(&radius), Some(&min_radius)).expect("EDSM API");
    assert_eq!(
        request,
        listing(
            "/sphere-systems",
            "Sol",
            vec![pair("radius", "17.3"), pair("minRadius", "10")]
        )
    );
}

#[test]
fn api_test_systems_sphere_min_greater_than_max() {
    let radius = 5f64.to_string();
    let min_radius = 10f64.to_string();
    let request =
        systems_sphere("Alpha Centauri", Some(&radius), Some(&min_radius)).expect("EDSM API");
    assert_eq!(
        request,
        listing(
            "/sphere-systems",
            "Alpha Centauri",
            vec![pair("radius", "5"), pair("minRadius", "10")]
        )
    );
}

#[test]
fn api_test_systems_cube_default() {
    let request = systems_cube("EV Cancri", None).expect("EDSM API");
    assert_eq!(request, listing("/cube-systems", "EV Cancri", vec![]));
}

#[test]
fn api_test_systems_cube_max() {
    let size = 200f64.to_string();
    let request = systems_cube("EV Cancri", Some(&size)).expect("EDSM API");
    assert_eq!(request, listing("/cube-systems", "EV Cancri", vec![pair("size", "200")]));
}

#[test]
fn api_test_systems_cube_float_high() {
    let size = 24f64.to_string();
    let request = systems_cube("Sol", Some(&size)).expect("EDSM API");
    assert_eq!(request, listing("/cube-systems", "Sol", vec![pair("size", "24")]));
}

#[test]
fn api_test_systems_cube_float_low() {
    let size = 23.9f64.to_string();
    let request = systems_cube("Sol", Some(&size)).expect("EDSM API");
    assert_eq!(request, listing("/cube-systems", "Sol", vec![pair("size", "23.9")]));
}

#[test]
fn api_test_system() {
    assert_eq!(system("Sol"), listing("/system", "Sol", vec![]));
    let system: System = get(200, SOL).expect("EDSM API");
    assert_eq!("Sol", system.name);
    assert_eq!(Some(27), system.id);
    let coords: Coordinate = system.coords.unwrap();
    assert_eq!((0.0, 0.0, 0.0), (double(coords.x), double(coords.y), double(coords.z)));
    assert_eq!(Some(true), system.require_permit);
}

#[test]
fn api_test_bodies() {
    let request = bodies("Sol");
    assert_eq!(request.path, format!("{}/bodies", SYSTEM_URL));
    assert_eq!(request.params, vec![pair("systemName", "Sol")]);
    let answer = r#"{
        "id": 27, "id64": 10477373803, "name": "Sol", "url": "https://www.edsm.net/",
        "information": {},
        "bodyCount": 2,
        "bodies": [
            {"id": 1, "id64": 10477373803, "bodyId": 0, "name": "Sol", "type": "Star",
             "subType": "G (White-Yellow) Star", "parents": null, "distanceToArrival": 0,
             "isMainStar": true, "isScoopable": true, "age": 4792, "spectralClass": "G2",
             "luminosity": "V", "absoluteMagnitude": 4.83, "solarMasses": 1.0,
             "solarRadius": 1.0, "surfaceTemperature": 5778, "orbitalPeriod": null,
             "semiMajorAxis": null, "orbitalEccentricity": null, "orbitalInclination": null,
             "argOfPeriapsis": null, "rotationalPeriod": 2.583,
             "rotationalPeriodTidallyLocked": false, "axialTilt": 0.0,
             "updateTime": "2020-10-01 12:00:01"},
            {"id": 2, "id64": 36028807496337771, "bodyId": 1, "name": "Mercury",
             "type": "Planet", "subType": "Metal-rich body",
             "parents": [{"Star": 0}], "distanceToArrival": 180, "isLandable": true,
             "gravity": 0.38, "earthMasses": 0.055, "radius": 2439.7,
             "surfaceTemperature": 402, "volcanismType": "No volcanism",
             "atmosphereType": "No atmosphere", "terraformingState": "Not terraformable",
             "solidComposition": {"Metal": 100}, "orbitalPeriod": 87.97,
             "semiMajorAxis": 0.387, "orbitalEccentricity": 0.2056,
             "orbitalInclination": 7.0, "argOfPeriapsis": 29.1, "rotationalPeriod": 58.6,
             "rotationalPeriodTidallyLocked": false, "axialTilt": 0.03,
             "updateTime": "2020-10-01 12:00:02"}
        ]
    }"#;
    let system: System = get(200, answer).expect("EDSM API");
    assert_eq!("Sol", system.name);
    assert_eq!(Some(27), system.id);
    assert!(system.coords.is_none());
    assert!(system.require_permit.is_none());
    let bodies = system.bodies.expect("EDSM API (bodies)");
    assert_eq!(system.body_count.unwrap(), bodies.len() as u64);
}

const MELIAE: &str = r#"{
    "id": 1062, "id64": 2009342784882, "name": "Meliae", "information": {},
    "controllingFaction": {"id": 81861, "name": "New Pilots Initiative",
                           "allegiance": "Independent", "government": "Corporate"},
    "factions": [
        {"id": 81861, "name": "New Pilots Initiative", "allegiance": "Independent",
         "government": "Corporate", "influence": 0.75, "state": "None",
         "activeStates": [], "recoveringStates": [], "pendingStates": [],
         "happiness": "Happy", "isPlayer": true, "lastUpdate": 1600000000},
        {"id": 7, "name": "Meliae Gold Creative Commodities", "allegiance": "Federation",
         "government": "Corporate", "influence": 0.25, "state": "Boom",
         "activeStates": [{"state": "Boom"}],
         "recoveringStates": [{"state": "War", "trend": 0}],
         "pendingStates": [{"state": "Expansion", "trend": 1}],
         "happiness": "Happy", "isPlayer": false, "lastUpdate": 1600000000}
    ]
}"#;

#[test]
fn api_test_factions() {
    let request = factions("Meliae", false);
    assert_eq!(request.path, format!("{}/factions", SYSTEM_URL));
    assert_eq!(request.params, vec![pair("systemName", "Meliae"), pair("showHistory", "0")]);
    let system: System = get(200, MELIAE).expect("EDSM API");
    assert_eq!("Meliae", system.name);
    assert_eq!(Some(1062), system.id);
    let controlling_faction = system.controlling_faction.unwrap();
    assert_eq!(81861, controlling_faction.id);
    assert_eq!("New Pilots Initiative", controlling_faction.name);
    assert_eq!("Independent", controlling_faction.allegiance);
    assert_eq!("Corporate", controlling_faction.government);
    let total_inf: f64 = system.factions.unwrap().iter().map(|f| double(f.influence)).sum();
    assert_eq!(1., total_inf);
}

#[test]
fn api_test_traffic() {
    let request = traffic("Sol");
    assert_eq!(request.path, format!("{}/traffic", SYSTEM_URL));
    assert_eq!(request.params, vec![pair("systemName", "Sol")]);
    let answer = r#"{"id": 27, "name": "Sol", "information": {},
        "traffic": {"total": 417040, "week": 831, "day": 88},
        "breakdown": {"Anaconda": 120, "Cobra MkIII": 15}}"#;
    let system: System = get(200, answer).expect("EDSM API");
    assert_eq!("Sol", system.name);
    let traffic = system.traffic.expect("EDSM API (traffic)");
    assert!(traffic.total < 500000);
    assert!(traffic.week < 1000);
    assert!(traffic.day < 100);
    assert_eq!(
        system.traffic_breakdown,
        Some(vec![("Anaconda".to_string(), 120), ("Cobra MkIII".to_string(), 15)])
    );
}

#[test]
fn api_test_deaths() {
    let request = deaths("Sol");
    assert_eq!(request.path, format!("{}/deaths", SYSTEM_URL));
    assert_eq!(request.params, vec![pair("systemName", "Sol")]);
    let answer = r#"{"id": 27, "name": "Sol", "information": {}, "deaths": {"total": 3612, "week": 9, "day": 1}}"#;
    let system: System = get(200, answer).expect("EDSM API");
    assert_eq!("Sol", system.name);
    let deaths = system.deaths.expect("EDSM API (deaths)");
    assert!(deaths.total < 5000);
    assert!(deaths.week < 100);
    assert!(deaths.day < 10);
}

#[test]
fn factions_with_history_asks_for_it() {
    let request = factions("Meliae", true);
    assert_eq!(request.params, vec![pair("systemName", "Meliae"), pair("showHistory", "1")]);
}

#[test]
fn radius_over_the_limit_is_refused() {
    assert_eq!(MAX_RADIUS, 100);
    for text in ["100.5", "101", "100.0001", "1000", "0100.01", "123456789012345678901234567890"] {
        assert_eq!(
            systems_sphere("Sol", Some(text), None),
            Err(Error::RadiusTooLarge(text.to_string()))
        );
    }
    let over = 100.00000000000001f64.to_string();
    assert_eq!(
        systems_sphere("Sol", Some(&over), Some("1")),
        Err(Error::RadiusTooLarge(over.clone()))
    );
}

#[test]
fn radius_up_to_the_limit_is_sent() {
    for text in ["100", "100.0", "100.000", "99.999", "0", "0.5", "-1", "-200", "00100"] {
        let request = systems_sphere("Sol", Some(text), None).unwrap();
        assert_eq!(request, listing("/sphere-systems", "Sol", vec![pair("radius", text)]));
    }
}

#[test]
fn a_distance_that_is_no_number_is_refused() {
    for text in ["", "-", ".", "1.", ".5", "1e3", "NaN", "inf", "1,5", "+1", "1.2.3", " 1"] {
        assert_eq!(
            systems_sphere("Sol", Some(text), None),
            Err(Error::InvalidNumber(text.to_string()))
        );
        assert_eq!(
            systems_sphere("Sol", Some("1"), Some(text)),
            Err(Error::InvalidNumber(text.to_string()))
        );
        assert_eq!(systems_cube("Sol", Some(text)), Err(Error::InvalidNumber(text.to_string())));
    }
    let not_a_number = f64::NAN.to_string();
    assert_eq!(
        systems_cube("Sol", Some(&not_a_number)),
        Err(Error::InvalidNumber(not_a_number.clone()))
    );
    // The radius is looked at first.
    assert_eq!(
        systems_sphere("Sol", Some("500"), Some("x")),
        Err(Error::RadiusTooLarge("500".to_string()))
    );
    // A minimum is not held to the limit.
    assert!(systems_sphere("Sol", Some("5"), Some("500")).is_ok());
    assert!(systems_cube("Sol", Some("500")).is_ok());
}

#[test]
fn the_address_holds_the_parameters_as_its_query() {
    assert_eq!(
        systems("EV Cancri").url(),
        Some(
            "https://www.edsm.net/api-v1/systems?systemName=EV+Cancri&showId=1\
             &showCoordinates=1&showPermit=1&showInformation=1"
                .to_string()
        )
    );
    assert_eq!(
        factions("Meliae", true).url(),
        Some(
            "https://www.edsm.net/api-system-v1/factions?systemName=Meliae&showHistory=1"
                .to_string()
        )
    );
    let request = Request { path: "no address".to_string(), params: vec![] };
    assert_eq!(request.url(), None);
}

#[test]
fn a_status_other_than_success_is_an_error_that_keeps_it() {
    for status in [0u16, 99, 100, 199, 300, 404, 500, 999, 1000, 65535] {
        assert_eq!(get::<System>(status, SOL), Err(Error::Edsm(status)));
        assert_eq!(get::<System>(status, "not even JSON"), Err(Error::Edsm(status)));
    }
    for status in [200u16, 201, 204, 299] {
        assert_eq!(get::<System>(status, SOL).unwrap().name, "Sol");
    }
}

#[test]
fn an_answer_that_is_no_record_is_a_decode_error() {
    assert!(matches!(
        get::<System>(200, "{"),
        Err(Error::Decode(DecodeError::Syntax(_)))
    ));
    assert_eq!(
        get::<System>(200, "{}"),
        Err(Error::Decode(DecodeError::MissingField("name".to_string())))
    );
    assert_eq!(
        get::<System>(200, "[]"),
        Err(Error::Decode(DecodeError::UnexpectedShape("System".to_string())))
    );
    assert_eq!(
        get::<Vec<System>>(200, "{}"),
        Err(Error::Decode(DecodeError::UnexpectedShape("array".to_string())))
    );
    assert_eq!(get::<Vec<System>>(200, "[]"), Ok(vec![]));
}

#[test]
fn errors_in_words() {
    assert_eq!(Error::Edsm(404).message(), "Not Found");
    assert_eq!(Error::Edsm(500).message(), "Internal Server Error");
    assert_eq!(Error::Edsm(299).message(), "???");
    assert_eq!(Error::Edsm(42).message(), "???");
    assert_eq!(Error::Edsm(404).message_with(None), "???");
    assert_eq!(Error::Edsm(404).message_with(Some("gone".to_string())), "gone");
    assert_eq!(Error::Request("connection refused".to_string()).message(), "connection refused");
    assert_eq!(
        Error::Decode(DecodeError::MissingField("name".to_string())).message(),
        "missing field: name"
    );
    assert_eq!(Error::InvalidNumber("x".to_string()).message(), "not a number: x");
    assert_eq!(Error::RadiusTooLarge("101".to_string()).message(), "radius too large: 101");
    assert_eq!(DecodeError::Syntax("EOF".to_string()).message(), "no JSON document: EOF");
    assert_eq!(DecodeError::InvalidValue("x".to_string()).message(), "invalid value: x");
    assert_eq!(DecodeError::UnexpectedShape("id".to_string()).message(), "unexpected shape: id");
}

#[test]
fn the_error_under_an_error() {
    assert_eq!(Error::Edsm(404).source(), None);
    assert_eq!(Error::Request("timed out".to_string()).source(), Some("timed out".to_string()));
    assert_eq!(
        Error::Decode(DecodeError::MissingField("id".to_string())).source(),
        Some("missing field: id".to_string())
    );
    assert_eq!(Error::RadiusTooLarge("101".to_string()).source(), None);
}

#[test]
fn the_outcome_of_a_request() {
    let answer = Ok((200, SOL.to_string()));
    assert_eq!(receive::<System>(answer).unwrap().id, Some(27));
    let refusal = Ok((503, "<html>busy</html>".to_string()));
    assert_eq!(receive::<System>(refusal), Err(Error::Edsm(503)));
    let nothing = Ok((200, String::new()));
    assert!(matches!(receive::<System>(nothing), Err(Error::Decode(DecodeError::Syntax(_)))));
    let failure = Err("connection refused".to_string());
    assert_eq!(
        receive::<Vec<System>>(failure),
        Err(Error::Request("connection refused".to_string()))
    );
}

#[test]
fn each_request_has_its_reader() {
    let one = Ok((200, SOL.to_string()));
    assert_eq!(system_answer(one).unwrap().name, "Sol");
    let many = Ok((200, format!("[{}, {}]", SOL, SOL)));
    assert_eq!(systems_answer(many).unwrap().len(), 2);
    // A list is no system, and a system no list.
    assert_eq!(
        system_answer(Ok((200, format!("[{}]", SOL)))),
        Err(Error::Decode(DecodeError::UnexpectedShape("System".to_string())))
    );
    assert_eq!(
        systems_answer(Ok((200, SOL.to_string()))),
        Err(Error::Decode(DecodeError::UnexpectedShape("array".to_string())))
    );
    assert_eq!(system_answer(Ok((404, SOL.to_string()))), Err(Error::Edsm(404)));
    assert_eq!(systems_answer(Err("timed out".to_string())), Err(Error::Request("timed out".to_string())));
}

#[test]
fn the_statuses_of_success() {
    for status in [200u16, 201, 250, 299] {
        assert!(status_is_success(status));
    }
    for status in [0u16, 100, 199, 300, 404, 500, 1000, 65535] {
        assert!(!status_is_success(status));
    }
}

#[test]
fn an_answer_without_information_is_no_system() {
    let answer = r#"{"id": 27, "name": "Sol", "deaths": {"total": 3612, "week": 9, "day": 1}}"#;
    assert_eq!(
        get::<System>(200, answer),
        Err(Error::Decode(DecodeError::MissingField("information".to_string())))
    );
}

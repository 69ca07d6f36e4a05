use edsm::body::{Belt, Body, Details, Orbit, Parent};
use edsm::json::Real;
use edsm::serde_utils::Timestamp;
use edsm::{from_json, DecodeError};

fn number(value: f64) -> Real {
    Real { bits: value.to_bits() }
}

fn shape(place: &str) -> DecodeError {
    DecodeError::UnexpectedShape(place.to_string())
}

fn missing(key: &str) -> DecodeError {
    DecodeError::MissingField(key.to_string())
}

const STAR: &str = r#"{
    "id": 1, "id64": 10477373803, "bodyId": 0, "name": "Sol", "type": "Star",
    "subType": "G (White-Yellow) Star", "distanceToArrival": 0,
    "isMainStar": true, "isScoopable": true, "age": 4792, "spectralClass": "G2",
    "luminosity": "V", "absoluteMagnitude": 4.83, "solarMasses": 1.5, "solarRadius": 1.25,
    "surfaceTemperature": 5778, "rotationalPeriod": 2.5,
    "rotationalPeriodTidallyLocked": false, "axialTilt": -0.5,
    "belts": [{"name": "Sol A Belt", "type": "Rocky", "mass": 5.5e10,
               "innerRadius": 1.0e6, "outerRadius": 2.0e6}],
    "earthMasses": 7.0, "isLandable": true,
    "updateTime": "2020-10-01 12:00:01"
}"#;

const PLANET: &str = r#"{
    "id": 2, "name": "Mercury", "type": "Planet", "subType": "Metal-rich body",
    "parents": [{"Star": 0}, {"Null": 4}, {"Planet": 7}], "distanceToArrival": 180,
    "isLandable": true, "gravity": 0.38, "earthMasses": 0.055, "radius": 2439.7,
    "surfaceTemperature": 402.5, "surfacePressure": 0, "volcanismType": "No volcanism",
    "atmosphereType": "No atmosphere", "terraformingState": "Not terraformable",
    "atmosphereComposition": {"Oxygen": 0.5, "Argon": 99.5},
    "solidComposition": {"Metal": 100},
    "orbitalPeriod": 87.97, "semiMajorAxis": 0.387, "orbitalEccentricity": 0.2056,
    "orbitalInclination": 7.0, "argOfPeriapsis": 29.1, "rotationalPeriod": 58.6,
    "rotationalPeriodTidallyLocked": true, "axialTilt": 0.03,
    "age": 1, "isMainStar": false,
    "updateTime": "2019-02-28 23:59:59"
}"#;

#[test]
fn a_star_is_read_with_the_fields_of_a_star() {
    let body: Body = from_json(STAR).unwrap();
    assert_eq!(
        body,
        Body {
            name: "Sol".to_string(),
            id: 1,
            id64: Some(10477373803),
            body_id: Some(0),
            details: Details::Star {
                age: 4792,
                is_main_star: true,
                is_scoopable: true,
                solar_masses: Some(number(1.5)),
                solar_radius: Some(number(1.25)),
                spectral_class: Some("G2".to_string()),
                luminosity: Some("V".to_string()),
                absolute_magnitude: Some(number(4.83)),
            },
            subtype: "G (White-Yellow) Star".to_string(),
            parents: None,
            distance_to_arrival: 0,
            surface_temperature: number(5778.0),
            orbit: Orbit {
                orbital_period: None,
                semi_major_axis: None,
                orbital_eccentricity: None,
                orbital_inclination: None,
                arg_of_periapsis: None,
                rotational_period: Some(number(2.5)),
                rotational_period_tidally_locked: false,
                axial_tilt: Some(number(-0.5)),
            },
            belts: Some(vec![Belt {
                name: "Sol A Belt".to_string(),
                ty: "Rocky".to_string(),
                mass: number(5.5e10),
                inner_radius: number(1.0e6),
                outer_radius: number(2.0e6),
            }]),
            updated_at: Timestamp { year: 2020, month: 10, day: 1, hour: 12, minute: 0, second: 1 },
        }
    );
}

#[test]
fn a_planet_is_read_with_the_fields_of_a_planet() {
    let body: Body = from_json(PLANET).unwrap();
    assert_eq!(
        body.details,
        Details::Planet {
            earth_masses: number(0.055),
            radius: number(2439.7),
            is_landable: true,
            gravity: Some(number(0.38)),
            surface_pressure: Some(number(0.0)),
            volcanism_type: Some("No volcanism".to_string()),
            atmosphere_type: Some("No atmosphere".to_string()),
            atmosphere_composition: Some(vec![
                ("Argon".to_string(), number(99.5)),
                ("Oxygen".to_string(), number(0.5)),
            ]),
            solid_composition: Some(vec![("Metal".to_string(), number(100.0))]),
            terraforming_state: Some("Not terraformable".to_string()),
        }
    );
    assert_eq!(body.parents, Some(vec![Parent::Star(0), Parent::Null(4), Parent::Planet(7)]));
    assert_eq!(body.surface_temperature, number(402.5));
    assert!(body.orbit.rotational_period_tidally_locked);
    assert_eq!(body.orbit.orbital_period, Some(number(87.97)));
    assert_eq!(
        body.updated_at,
        Timestamp { year: 2019, month: 2, day: 28, hour: 23, minute: 59, second: 59 }
    );
}

#[test]
fn a_star_needs_the_required_fields_of_a_star() {
    for key in ["age", "isMainStar", "isScoopable"] {
        let text = STAR.replace(&format!("\"{}\"", key), "\"other\"");
        assert_eq!(from_json::<Details>(&text), Err(missing(key)));
        assert_eq!(from_json::<Body>(&text), Err(missing(key)));
    }
    // A planet's own fields do not stand in for them.
    let text = r#"{"type": "Star", "earthMasses": 1.0, "radius": 2.0, "isLandable": true}"#;
    assert_eq!(from_json::<Details>(text), Err(missing("age")));
}

#[test]
fn a_planet_needs_the_required_fields_of_a_planet() {
    for key in ["earthMasses", "radius", "isLandable"] {
        let text = PLANET.replace(&format!("\"{}\"", key), "\"other\"");
        assert_eq!(from_json::<Details>(&text), Err(missing(key)));
    }
    let text = r#"{"type": "Planet", "age": 1, "isMainStar": true, "isScoopable": true}"#;
    assert_eq!(from_json::<Details>(text), Err(missing("earthMasses")));
}

#[test]
fn the_kind_of_a_body_decides() {
    assert_eq!(from_json::<Details>(r#"{"age": 1}"#), Err(missing("type")));
    assert_eq!(from_json::<Details>(r#"{"type": 1}"#), Err(shape("type")));
    assert_eq!(
        from_json::<Details>(r#"{"type": "Comet"}"#),
        Err(DecodeError::InvalidValue("Comet".to_string()))
    );
    assert_eq!(from_json::<Details>(r#"[]"#), Err(shape("Details")));
    let star: Details =
        from_json(r#"{"type": "Star", "age": 1, "isMainStar": false, "isScoopable": true}"#)
            .unwrap();
    assert_eq!(
        star,
        Details::Star {
            age: 1,
            is_main_star: false,
            is_scoopable: true,
            solar_masses: None,
            solar_radius: None,
            spectral_class: None,
            luminosity: None,
            absolute_magnitude: None,
        }
    );
}

#[test]
fn parents() {
    assert_eq!(from_json::<Parent>(r#"{"Null": 3}"#), Ok(Parent::Null(3)));
    assert_eq!(from_json::<Parent>(r#"{"Star": 0}"#), Ok(Parent::Star(0)));
    assert_eq!(from_json::<Parent>(r#"{"Planet": 18446744073709551615}"#), Ok(Parent::Planet(u64::MAX)));
    assert_eq!(
        from_json::<Parent>(r#"{"Moon": 3}"#),
        Err(DecodeError::InvalidValue("Moon".to_string()))
    );
    assert_eq!(from_json::<Parent>(r#"{"Star": -1}"#), Err(shape("Star")));
    assert_eq!(from_json::<Parent>(r#"{"Star": 1.5}"#), Err(shape("Star")));
    assert_eq!(from_json::<Parent>(r#"{"Star": "0"}"#), Err(shape("Star")));
    assert_eq!(from_json::<Parent>(r#"{}"#), Err(shape("Parent")));
    assert_eq!(from_json::<Parent>(r#"{"Star": 0, "Planet": 1}"#), Err(shape("Parent")));
    assert_eq!(from_json::<Parent>(r#""Star""#), Err(shape("Parent")));
    assert_eq!(from_json::<Vec<Parent>>(r#"[{"Star": 0}, {"Moon": 1}, 7]"#),
        Err(DecodeError::InvalidValue("Moon".to_string())));
}

#[test]
fn belts_and_orbits() {
    assert_eq!(
        from_json::<Belt>(r#"{"name": "A", "type": "Icy", "mass": 1, "innerRadius": 2}"#),
        Err(missing("outerRadius"))
    );
    assert_eq!(
        from_json::<Belt>(
            r#"{"name": "A", "type": "Icy", "mass": "1", "innerRadius": 2, "outerRadius": 3}"#
        ),
        Err(shape("mass"))
    );
    assert_eq!(from_json::<Belt>(r#"7"#), Err(shape("Belt")));
    let orbit: Orbit = from_json(r#"{"rotationalPeriodTidallyLocked": true}"#).unwrap();
    assert!(orbit.rotational_period_tidally_locked);
    assert_eq!(orbit.axial_tilt, None);
    assert_eq!(from_json::<Orbit>(r#"{}"#), Err(missing("rotationalPeriodTidallyLocked")));
    assert_eq!(
        from_json::<Orbit>(r#"{"rotationalPeriodTidallyLocked": true, "axialTilt": "steep"}"#),
        Err(shape("axialTilt"))
    );
    // An integer is a real number too, and keeps its value.
    let orbit: Orbit =
        from_json(r#"{"rotationalPeriodTidallyLocked": false, "orbitalPeriod": -3}"#).unwrap();
    assert_eq!(orbit.orbital_period.map(|p| f64::from_bits(p.bits)), Some(-3.0));
}

#[test]
fn a_body_with_a_time_in_another_form_is_refused() {
    let text = STAR.replace("2020-10-01 12:00:01", "2020-10-01T12:00:01");
    assert_eq!(
        from_json::<Body>(&text),
        Err(DecodeError::InvalidValue("2020-10-01T12:00:01".to_string()))
    );
    let text = STAR.replace("\"2020-10-01 12:00:01\"", "1601553601");
    assert_eq!(from_json::<Body>(&text), Err(shape("datetime")));
    let text = STAR.replace("updateTime", "updated");
    assert_eq!(from_json::<Body>(&text), Err(missing("updateTime")));
}

#[test]
fn the_first_field_that_fails_gives_the_error() {
    // Both the number and the kind are missing: the number is declared first.
    assert_eq!(from_json::<Body>(r#"{"name": "x"}"#), Err(missing("id")));
    assert_eq!(from_json::<Body>(r#"{"id": 1}"#), Err(missing("name")));
    assert_eq!(from_json::<Body>(r#"{"name": "x", "id": 1, "id64": "no"}"#), Err(shape("id64")));
    assert_eq!(from_json::<Body>(r#""Sol""#), Err(shape("Body")));
}

//! The bodies of a system: its stars, planets and moons, with their orbits and belts.

use vstd::prelude::*;
use crate::decode::{
    opt_list, opt_table, optional_list, optional_table, req_record, required_record,
    table_wf, Decode, Record,
};
use crate::error::{invalid, outcome, unexpected, DecodeError, DecodeErrorView};
use crate::json::{
    distinct_keys, lemma_get_beside_entry, object_entries, opt_real, opt_text, opt_u64,
    optional_real, optional_text, optional_u64, req_bool, req_real, req_text, req_u64,
    required_bool, required_real, required_text, required_u64, same_text, tree, value_as_u64,
    value_is_object, with_entry, Json, Real,
};
use crate::serde_utils::Timestamp;

verus! {

/// A reference to another body of the system that this body is bound to by gravity: the other
/// body's number, under the kind of bond. It names the body, and holds nothing of it.
#[derive(Debug, Clone, Copy, PartialEq, Eq)]
pub enum Parent {
    Null(u64),
    Star(u64),
    Planet(u64),
}

impl DeepView for Parent {
    type V = Parent;

    open spec fn deep_view(&self) -> Parent {
        *self
    }
}

impl Decode for Parent {
    /// An object of one entry: the kind as the key, with the other body's number.
    open spec fn decoded(j: Json) -> Result<Parent, DecodeErrorView> {
        match j {
            Json::Object(entries) if entries.len() == 1 => {
                let kind = entries[0].0;
                let number = entries[0].1.as_u64();
                if kind != "Null"@ && kind != "Star"@ && kind != "Planet"@ {
                    Err(DecodeErrorView::InvalidValue(kind))
                } else if number is None {
                    Err(DecodeErrorView::UnexpectedShape(kind))
                } else if kind == "Null"@ {
                    Ok(Parent::Null(number->0))
                } else if kind == "Star"@ {
                    Ok(Parent::Star(number->0))
                } else {
                    Ok(Parent::Planet(number->0))
                }
            },
            _ => Err(DecodeErrorView::UnexpectedShape("Parent"@)),
        }
    }

    open spec fn wf(&self) -> bool {
        true
    }

    fn from_value(v: &serde_json::Value) -> (r: Result<Parent, DecodeError>) {
        let list = match object_entries(v) {
            Some(list) => list,
            None => {
                return Err(unexpected("Parent"));
            },
        };
        if list.len() != 1 {
            return Err(unexpected("Parent"));
        }
        let kind = list[0].0.as_str();
        let null = same_text(kind, "Null");
        let star = same_text(kind, "Star");
        let planet = same_text(kind, "Planet");
        if !null && !star && !planet {
            return Err(invalid(kind));
        }
        let number = match value_as_u64(list[0].1) {
            Some(number) => number,
            None => {
                return Err(unexpected(kind));
            },
        };
        if null {
            Ok(Parent::Null(number))
        } else if star {
            Ok(Parent::Star(number))
        } else {
            Ok(Parent::Planet(number))
        }
    }
}

/// A ring of small objects around a body.
#[derive(Debug, Clone, PartialEq, Eq)]
pub struct Belt {
    pub name: String,
    pub ty: String,
    pub mass: Real,
    pub inner_radius: Real,
    pub outer_radius: Real,
}

/// The mathematical content of a [`Belt`].
pub struct BeltView {
    pub name: Seq<char>,
    pub ty: Seq<char>,
    pub mass: Real,
    pub inner_radius: Real,
    pub outer_radius: Real,
}

impl DeepView for Belt {
    type V = BeltView;

    open spec fn deep_view(&self) -> BeltView {
        BeltView {
            name: self.name@,
            ty: self.ty@,
            mass: self.mass,
            inner_radius: self.inner_radius,
            outer_radius: self.outer_radius,
        }
    }
}

impl Decode for Belt {
    open spec fn decoded(j: Json) -> Result<BeltView, DecodeErrorView> {
        let name = req_text(j, "name"@);
        let ty = req_text(j, "type"@);
        let mass = req_real(j, "mass"@);
        let inner_radius = req_real(j, "innerRadius"@);
        let outer_radius = req_real(j, "outerRadius"@);
        if !(j is Object) {
            Err(DecodeErrorView::UnexpectedShape("Belt"@))
        } else if name is Err {
            Err(name->Err_0)
        } else if ty is Err {
            Err(ty->Err_0)
        } else if mass is Err {
            Err(mass->Err_0)
        } else if inner_radius is Err {
            Err(inner_radius->Err_0)
        } else if outer_radius is Err {
            Err(outer_radius->Err_0)
        } else {
            Ok(
                BeltView {
                    name: name->Ok_0,
                    ty: ty->Ok_0,
                    mass: mass->Ok_0,
                    inner_radius: inner_radius->Ok_0,
                    outer_radius: outer_radius->Ok_0,
                },
            )
        }
    }

    open spec fn wf(&self) -> bool {
        true
    }

    fn from_value(v: &serde_json::Value) -> (r: Result<Belt, DecodeError>) {
        if !value_is_object(v) {
            return Err(unexpected("Belt"));
        }
        let name = required_text(v, "name")?;
        let ty = required_text(v, "type")?;
        let mass = required_real(v, "mass")?;
        let inner_radius = required_real(v, "innerRadius")?;
        let outer_radius = required_real(v, "outerRadius")?;
        Ok(Belt { name, ty, mass, inner_radius, outer_radius })
    }
}

/// How a body moves: its path round its parent and its own rotation.
#[derive(Debug, Clone, PartialEq, Eq)]
pub struct Orbit {
    pub orbital_period: Option<Real>,
    pub semi_major_axis: Option<Real>,
    pub orbital_eccentricity: Option<Real>,
    pub orbital_inclination: Option<Real>,
    pub arg_of_periapsis: Option<Real>,
    pub rotational_period: Option<Real>,
    pub rotational_period_tidally_locked: bool,
    pub axial_tilt: Option<Real>,
}

impl DeepView for Orbit {
    type V = Orbit;

    open spec fn deep_view(&self) -> Orbit {
        *self
    }
}

impl Decode for Orbit {
    open spec fn decoded(j: Json) -> Result<Orbit, DecodeErrorView> {
        let orbital_period = opt_real(j, "orbitalPeriod"@);
        let semi_major_axis = opt_real(j, "semiMajorAxis"@);
        let orbital_eccentricity = opt_real(j, "orbitalEccentricity"@);
        let orbital_inclination = opt_real(j, "orbitalInclination"@);
        let arg_of_periapsis = opt_real(j, "argOfPeriapsis"@);
        let rotational_period = opt_real(j, "rotationalPeriod"@);
        let rotational_period_tidally_locked = req_bool(j, "rotationalPeriodTidallyLocked"@);
        let axial_tilt = opt_real(j, "axialTilt"@);
        if !(j is Object) {
            Err(DecodeErrorView::UnexpectedShape("Orbit"@))
        } else if orbital_period is Err {
            Err(orbital_period->Err_0)
        } else if semi_major_axis is Err {
            Err(semi_major_axis->Err_0)
        } else if orbital_eccentricity is Err {
            Err(orbital_eccentricity->Err_0)
        } else if orbital_inclination is Err {
            Err(orbital_inclination->Err_0)
        } else if arg_of_periapsis is Err {
            Err(arg_of_periapsis->Err_0)
        } else if rotational_period is Err {
            Err(rotational_period->Err_0)
        } else if rotational_period_tidally_locked is Err {
            Err(rotational_period_tidally_locked->Err_0)
        } else if axial_tilt is Err {
            Err(axial_tilt->Err_0)
        } else {
            Ok(
                Orbit {
                    orbital_period: orbital_period->Ok_0,
                    semi_major_axis: semi_major_axis->Ok_0,
                    orbital_eccentricity: orbital_eccentricity->Ok_0,
                    orbital_inclination: orbital_inclination->Ok_0,
                    arg_of_periapsis: arg_of_periapsis->Ok_0,
                    rotational_period: rotational_period->Ok_0,
                    rotational_period_tidally_locked: rotational_period_tidally_locked->Ok_0,
                    axial_tilt: axial_tilt->Ok_0,
                },
            )
        }
    }

    open spec fn wf(&self) -> bool {
        true
    }

    fn from_value(v: &serde_json::Value) -> (r: Result<Orbit, DecodeError>) {
        if !value_is_object(v) {
            return Err(unexpected("Orbit"));
        }
        let orbital_period = optional_real(v, "orbitalPeriod")?;
        let semi_major_axis = optional_real(v, "semiMajorAxis")?;
        let orbital_eccentricity = optional_real(v, "orbitalEccentricity")?;
        let orbital_inclination = optional_real(v, "orbitalInclination")?;
        let arg_of_periapsis = optional_real(v, "argOfPeriapsis")?;
        let rotational_period = optional_real(v, "rotationalPeriod")?;
        let rotational_period_tidally_locked = required_bool(v, "rotationalPeriodTidallyLocked")?;
        let axial_tilt = optional_real(v, "axialTilt")?;
        Ok(
            Orbit {
                orbital_period,
                semi_major_axis,
                orbital_eccentricity,
                orbital_inclination,
                arg_of_periapsis,
                rotational_period,
                rotational_period_tidally_locked,
                axial_tilt,
            },
        )
    }
}

/// What is known of a body according to its kind. The kind stands in the text `type`, beside
/// the body's other fields.
#[derive(Debug, Clone, PartialEq, Eq)]
pub enum Details {
    Star {
        age: u64,
        is_main_star: bool,
        is_scoopable: bool,
        solar_masses: Option<Real>,
        solar_radius: Option<Real>,
        spectral_class: Option<String>,
        luminosity: Option<String>,
        absolute_magnitude: Option<Real>,
    },
    Planet {
        earth_masses: Real,
        radius: Real,
        is_landable: bool,
        gravity: Option<Real>,
        surface_pressure: Option<Real>,
        volcanism_type: Option<String>,
        atmosphere_type: Option<String>,
        /// The share of each gas. No gas occurs twice.
        atmosphere_composition: Option<Vec<(String, Real)>>,
        /// The share of each material. No material occurs twice.
        solid_composition: Option<Vec<(String, Real)>>,
        terraforming_state: Option<String>,
    },
}

/// The mathematical content of [`Details`].
pub enum DetailsView {
    Star {
        age: u64,
        is_main_star: bool,
        is_scoopable: bool,
        solar_masses: Option<Real>,
        solar_radius: Option<Real>,
        spectral_class: Option<Seq<char>>,
        luminosity: Option<Seq<char>>,
        absolute_magnitude: Option<Real>,
    },
    Planet {
        earth_masses: Real,
        radius: Real,
        is_landable: bool,
        gravity: Option<Real>,
        surface_pressure: Option<Real>,
        volcanism_type: Option<Seq<char>>,
        atmosphere_type: Option<Seq<char>>,
        atmosphere_composition: Option<Seq<(Seq<char>, Real)>>,
        solid_composition: Option<Seq<(Seq<char>, Real)>>,
        terraforming_state: Option<Seq<char>>,
    },
}

impl DeepView for Details {
    type V = DetailsView;

    open spec fn deep_view(&self) -> DetailsView {
        match self {
            Details::Star {
                age,
                is_main_star,
                is_scoopable,
                solar_masses,
                solar_radius,
                spectral_class,
                luminosity,
                absolute_magnitude,
            } => DetailsView::Star {
                age: *age,
                is_main_star: *is_main_star,
                is_scoopable: *is_scoopable,
                solar_masses: *solar_masses,
                solar_radius: *solar_radius,
                spectral_class: spectral_class.deep_view(),
                luminosity: luminosity.deep_view(),
                absolute_magnitude: *absolute_magnitude,
            },
            Details::Planet {
                earth_masses,
                radius,
                is_landable,
                gravity,
                surface_pressure,
                volcanism_type,
                atmosphere_type,
                atmosphere_composition,
                solid_composition,
                terraforming_state,
            } => DetailsView::Planet {
                earth_masses: *earth_masses,
                radius: *radius,
                is_landable: *is_landable,
                gravity: *gravity,
                surface_pressure: *surface_pressure,
                volcanism_type: volcanism_type.deep_view(),
                atmosphere_type: atmosphere_type.deep_view(),
                atmosphere_composition: atmosphere_composition.deep_view(),
                solid_composition: solid_composition.deep_view(),
                terraforming_state: terraforming_state.deep_view(),
            },
        }
    }
}

/// What an object holds as the details of a star.
pub open spec fn decoded_star(j: Json) -> Result<DetailsView, DecodeErrorView> {
    let age = req_u64(j, "age"@);
    let is_main_star = req_bool(j, "isMainStar"@);
    let is_scoopable = req_bool(j, "isScoopable"@);
    let solar_masses = opt_real(j, "solarMasses"@);
    let solar_radius = opt_real(j, "solarRadius"@);
    let spectral_class = opt_text(j, "spectralClass"@);
    let luminosity = opt_text(j, "luminosity"@);
    let absolute_magnitude = opt_real(j, "absoluteMagnitude"@);
    if age is Err {
        Err(age->Err_0)
    } else if is_main_star is Err {
        Err(is_main_star->Err_0)
    } else if is_scoopable is Err {
        Err(is_scoopable->Err_0)
    } else if solar_masses is Err {
        Err(solar_masses->Err_0)
    } else if solar_radius is Err {
        Err(solar_radius->Err_0)
    } else if spectral_class is Err {
        Err(spectral_class->Err_0)
    } else if luminosity is Err {
        Err(luminosity->Err_0)
    } else if absolute_magnitude is Err {
        Err(absolute_magnitude->Err_0)
    } else {
        Ok(
            DetailsView::Star {
                age: age->Ok_0,
                is_main_star: is_main_star->Ok_0,
                is_scoopable: is_scoopable->Ok_0,
                solar_masses: solar_masses->Ok_0,
                solar_radius: solar_radius->Ok_0,
                spectral_class: spectral_class->Ok_0,
                luminosity: luminosity->Ok_0,
                absolute_magnitude: absolute_magnitude->Ok_0,
            },
        )
    }
}

/// What an object holds as the details of a planet.
pub open spec fn decoded_planet(j: Json) -> Result<DetailsView, DecodeErrorView> {
    let earth_masses = req_real(j, "earthMasses"@);
    let radius = req_real(j, "radius"@);
    let is_landable = req_bool(j, "isLandable"@);
    let gravity = opt_real(j, "gravity"@);
    let surface_pressure = opt_real(j, "surfacePressure"@);
    let volcanism_type = opt_text(j, "volcanismType"@);
    let atmosphere_type = opt_text(j, "atmosphereType"@);
    let atmosphere_composition = opt_table::<Real>(j, "atmosphereComposition"@);
    let solid_composition = opt_table::<Real>(j, "solidComposition"@);
    let terraforming_state = opt_text(j, "terraformingState"@);
    if earth_masses is Err {
        Err(earth_masses->Err_0)
    } else if radius is Err {
        Err(radius->Err_0)
    } else if is_landable is Err {
        Err(is_landable->Err_0)
    } else if gravity is Err {
        Err(gravity->Err_0)
    } else if surface_pressure is Err {
        Err(surface_pressure->Err_0)
    } else if volcanism_type is Err {
        Err(volcanism_type->Err_0)
    } else if atmosphere_type is Err {
        Err(atmosphere_type->Err_0)
    } else if atmosphere_composition is Err {
        Err(atmosphere_composition->Err_0)
    } else if solid_composition is Err {
        Err(solid_composition->Err_0)
    } else if terraforming_state is Err {
        Err(terraforming_state->Err_0)
    } else {
        Ok(
            DetailsView::Planet {
                earth_masses: earth_masses->Ok_0,
                radius: radius->Ok_0,
                is_landable: is_landable->Ok_0,
                gravity: gravity->Ok_0,
                surface_pressure: surface_pressure->Ok_0,
                volcanism_type: volcanism_type->Ok_0,
                atmosphere_type: atmosphere_type->Ok_0,
                atmosphere_composition: atmosphere_composition->Ok_0,
                solid_composition: solid_composition->Ok_0,
                terraforming_state: terraforming_state->Ok_0,
            },
        )
    }
}

fn star_from_value(v: &serde_json::Value) -> (r: Result<Details, DecodeError>)
    ensures
        outcome(r) == decoded_star(tree(*v)),
        r matches Ok(details) ==> details.wf(),
{
    let age = required_u64(v, "age")?;
    let is_main_star = required_bool(v, "isMainStar")?;
    let is_scoopable = required_bool(v, "isScoopable")?;
    let solar_masses = optional_real(v, "solarMasses")?;
    let solar_radius = optional_real(v, "solarRadius")?;
    let spectral_class = optional_text(v, "spectralClass")?;
    let luminosity = optional_text(v, "luminosity")?;
    let absolute_magnitude = optional_real(v, "absoluteMagnitude")?;
    Ok(
        Details::Star {
            age,
            is_main_star,
            is_scoopable,
            solar_masses,
            solar_radius,
            spectral_class,
            luminosity,
            absolute_magnitude,
        },
    )
}

fn planet_from_value(v: &serde_json::Value) -> (r: Result<Details, DecodeError>)
    ensures
        outcome(r) == decoded_planet(tree(*v)),
        r matches Ok(details) ==> details.wf(),
{
    let earth_masses = required_real(v, "earthMasses")?;
    let radius = required_real(v, "radius")?;
    let is_landable = required_bool(v, "isLandable")?;
    let gravity = optional_real(v, "gravity")?;
    let surface_pressure = optional_real(v, "surfacePressure")?;
    let volcanism_type = optional_text(v, "volcanismType")?;
    let atmosphere_type = optional_text(v, "atmosphereType")?;
    let atmosphere_composition = optional_table::<Real>(v, "atmosphereComposition")?;
    let solid_composition = optional_table::<Real>(v, "solidComposition")?;
    let terraforming_state = optional_text(v, "terraformingState")?;
    Ok(
        Details::Planet {
            earth_masses,
            radius,
            is_landable,
            gravity,
            surface_pressure,
            volcanism_type,
            atmosphere_type,
            atmosphere_composition,
            solid_composition,
            terraforming_state,
        },
    )
}

impl Decode for Details {
    /// The text `type` picks the kind, `Star` or `Planet`, and with it the fields that are
    /// read from the same object.
    open spec fn decoded(j: Json) -> Result<DetailsView, DecodeErrorView> {
        let kind = req_text(j, "type"@);
        if !(j is Object) {
            Err(DecodeErrorView::UnexpectedShape("Details"@))
        } else if kind is Err {
            Err(kind->Err_0)
        } else if kind->Ok_0 == "Star"@ {
            decoded_star(j)
        } else if kind->Ok_0 == "Planet"@ {
            decoded_planet(j)
        } else {
            Err(DecodeErrorView::InvalidValue(kind->Ok_0))
        }
    }

    /// No gas and no material occurs twice in a planet's compositions.
    open spec fn wf(&self) -> bool {
        match self {
            Details::Star { .. } => true,
            Details::Planet { atmosphere_composition, solid_composition, .. } => {
                &&& atmosphere_composition matches Some(table) ==> table_wf(*table)
                &&& solid_composition matches Some(table) ==> table_wf(*table)
            },
        }
    }

    fn from_value(v: &serde_json::Value) -> (r: Result<Details, DecodeError>) {
        if !value_is_object(v) {
            return Err(unexpected("Details"));
        }
        let kind = required_text(v, "type")?;
        if same_text(kind.as_str(), "Star") {
            star_from_value(v)
        } else if same_text(kind.as_str(), "Planet") {
            planet_from_value(v)
        } else {
            Err(invalid(kind.as_str()))
        }
    }
}

/// A celestial body of a system.
#[derive(Debug, Clone, PartialEq, Eq)]
pub struct Body {
    pub name: String,
    pub id: u64,
    pub id64: Option<u64>,
    pub body_id: Option<u64>,
    pub details: Details,
    pub subtype: String,
    pub parents: Option<Vec<Parent>>,
    pub distance_to_arrival: u64,
    pub surface_temperature: Real,
    pub orbit: Orbit,
    pub belts: Option<Vec<Belt>>,
    pub updated_at: Timestamp,
}

/// The mathematical content of a [`Body`].
pub struct BodyView {
    pub name: Seq<char>,
    pub id: u64,
    pub id64: Option<u64>,
    pub body_id: Option<u64>,
    pub details: DetailsView,
    pub subtype: Seq<char>,
    pub parents: Option<Seq<Parent>>,
    pub distance_to_arrival: u64,
    pub surface_temperature: Real,
    pub orbit: Orbit,
    pub belts: Option<Seq<BeltView>>,
    pub updated_at: Timestamp,
}

impl DeepView for Body {
    type V = BodyView;

    open spec fn deep_view(&self) -> BodyView {
        BodyView {
            name: self.name@,
            id: self.id,
            id64: self.id64,
            body_id: self.body_id,
            details: self.details.deep_view(),
            subtype: self.subtype@,
            parents: self.parents.deep_view(),
            distance_to_arrival: self.distance_to_arrival,
            surface_temperature: self.surface_temperature,
            orbit: self.orbit,
            belts: self.belts.deep_view(),
            updated_at: self.updated_at,
        }
    }
}

impl Decode for Body {
    /// An object with the fields of a body under the service's names. The details and the
    /// orbit are read from the body's own object. The fields are read in the order of their
    /// declaration, and the first that fails gives the error.
    open spec fn decoded(j: Json) -> Result<BodyView, DecodeErrorView> {
        let name = req_text(j, "name"@);
        let id = req_u64(j, "id"@);
        let id64 = opt_u64(j, "id64"@);
        let body_id = opt_u64(j, "bodyId"@);
        let details = Details::decoded(j);
        let subtype = req_text(j, "subType"@);
        let parents = opt_list::<Parent>(j, "parents"@);
        let distance_to_arrival = req_u64(j, "distanceToArrival"@);
        let surface_temperature = req_real(j, "surfaceTemperature"@);
        let orbit = Orbit::decoded(j);
        let belts = opt_list::<Belt>(j, "belts"@);
        let updated_at = req_record::<Timestamp>(j, "updateTime"@);
        if !(j is Object) {
            Err(DecodeErrorView::UnexpectedShape("Body"@))
        } else if name is Err {
            Err(name->Err_0)
        } else if id is Err {
            Err(id->Err_0)
        } else if id64 is Err {
            Err(id64->Err_0)
        } else if body_id is Err {
            Err(body_id->Err_0)
        } else if details is Err {
            Err(details->Err_0)
        } else if subtype is Err {
            Err(subtype->Err_0)
        } else if parents is Err {
            Err(parents->Err_0)
        } else if distance_to_arrival is Err {
            Err(distance_to_arrival->Err_0)
        } else if surface_temperature is Err {
            Err(surface_temperature->Err_0)
        } else if orbit is Err {
            Err(orbit->Err_0)
        } else if belts is Err {
            Err(belts->Err_0)
        } else if updated_at is Err {
            Err(updated_at->Err_0)
        } else {
            Ok(
                BodyView {
                    name: name->Ok_0,
                    id: id->Ok_0,
                    id64: id64->Ok_0,
                    body_id: body_id->Ok_0,
                    details: details->Ok_0,
                    subtype: subtype->Ok_0,
                    parents: parents->Ok_0,
                    distance_to_arrival: distance_to_arrival->Ok_0,
                    surface_temperature: surface_temperature->Ok_0,
                    orbit: orbit->Ok_0,
                    belts: belts->Ok_0,
                    updated_at: updated_at->Ok_0,
                },
            )
        }
    }

    /// The details are well formed.
    open spec fn wf(&self) -> bool {
        self.details.wf()
    }

    fn from_value(v: &serde_json::Value) -> (r: Result<Body, DecodeError>) {
        if !value_is_object(v) {
            return Err(unexpected("Body"));
        }
        let name = required_text(v, "name")?;
        let id = required_u64(v, "id")?;
        let id64 = optional_u64(v, "id64")?;
        let body_id = optional_u64(v, "bodyId")?;
        let details = Details::from_value(v)?;
        let subtype = required_text(v, "subType")?;
        let parents = optional_list::<Parent>(v, "parents")?;
        let distance_to_arrival = required_u64(v, "distanceToArrival")?;
        let surface_temperature = required_real(v, "surfaceTemperature")?;
        let orbit = Orbit::from_value(v)?;
        let belts = optional_list::<Belt>(v, "belts")?;
        let updated_at = required_record::<Timestamp>(v, "updateTime")?;
        Ok(
            Body {
                name,
                id,
                id64,
                body_id,
                details,
                subtype,
                parents,
                distance_to_arrival,
                surface_temperature,
                orbit,
                belts,
                updated_at,
            },
        )
    }
}

/// An object of the kind `Star` decodes to the details of a star or to nothing, and to nothing
/// where one of a star's required fields is absent.
pub proof fn lemma_star_kind(j: Json)
    requires
        j is Object,
        j.get("type"@) == Some(Json::Text("Star"@)),
    ensures
        Details::decoded(j) matches Ok(details) ==> details is Star,
        Details::decoded(j) == decoded_star(j),
        (j.get("age"@) is None || j.get("isMainStar"@) is None || j.get("isScoopable"@) is None)
            ==> Details::decoded(j) is Err,
        Body::decoded(j) matches Ok(body) ==> body.details is Star,
{
}

/// An object of the kind `Planet` decodes to the details of a planet or to nothing, and to
/// nothing where one of a planet's required fields is absent.
pub proof fn lemma_planet_kind(j: Json)
    requires
        j is Object,
        j.get("type"@) == Some(Json::Text("Planet"@)),
    ensures
        Details::decoded(j) matches Ok(details) ==> details is Planet,
        Details::decoded(j) == decoded_planet(j),
        (j.get("earthMasses"@) is None || j.get("radius"@) is None || j.get("isLandable"@)
            is None) ==> Details::decoded(j) is Err,
        Body::decoded(j) matches Ok(body) ==> body.details is Planet,
{
    reveal_strlit("Star");
    reveal_strlit("Planet");
    assert("Star"@.len() != "Planet"@.len());
}


/// Whether `key` is one of the keys that a belt is read from.
pub open spec fn belt_reads(key: Seq<char>) -> bool {
    key == "name"@
        || key == "type"@
        || key == "mass"@
        || key == "innerRadius"@
        || key == "outerRadius"@
}

impl Record for Belt {
    open spec fn reads(key: Seq<char>) -> bool {
        belt_reads(key)
    }

    fn reads_key(key: &str) -> (r: bool) {
        same_text(key, "name")
            || same_text(key, "type")
            || same_text(key, "mass")
            || same_text(key, "innerRadius")
            || same_text(key, "outerRadius")
    }
}

/// An entry under a key that a belt is not read from changes nothing of what an object decodes to
/// as a belt: what the service adds to its answers is passed over.
pub proof fn lemma_belt_passes_over(
    entries: Seq<(Seq<char>, Json)>,
    key: Seq<char>,
    value: Json,
)
    requires
        distinct_keys(entries.push((key, value))),
        !belt_reads(key),
    ensures
        Belt::decoded(with_entry(entries, key, value)) == Belt::decoded(Json::Object(entries)),
{
    lemma_get_beside_entry(entries, key, value);
}

/// Whether `key` is one of the keys that an orbit is read from.
pub open spec fn orbit_reads(key: Seq<char>) -> bool {
    key == "orbitalPeriod"@
        || key == "semiMajorAxis"@
        || key == "orbitalEccentricity"@
        || key == "orbitalInclination"@
        || key == "argOfPeriapsis"@
        || key == "rotationalPeriod"@
        || key == "rotationalPeriodTidallyLocked"@
        || key == "axialTilt"@
}

impl Record for Orbit {
    open spec fn reads(key: Seq<char>) -> bool {
        orbit_reads(key)
    }

    fn reads_key(key: &str) -> (r: bool) {
        same_text(key, "orbitalPeriod")
            || same_text(key, "semiMajorAxis")
            || same_text(key, "orbitalEccentricity")
            || same_text(key, "orbitalInclination")
            || same_text(key, "argOfPeriapsis")
            || same_text(key, "rotationalPeriod")
            || same_text(key, "rotationalPeriodTidallyLocked")
            || same_text(key, "axialTilt")
    }
}

/// An entry under a key that an orbit is not read from changes nothing of what an object decodes to
/// as an orbit: what the service adds to its answers is passed over.
pub proof fn lemma_orbit_passes_over(
    entries: Seq<(Seq<char>, Json)>,
    key: Seq<char>,
    value: Json,
)
    requires
        distinct_keys(entries.push((key, value))),
        !orbit_reads(key),
    ensures
        Orbit::decoded(with_entry(entries, key, value)) == Orbit::decoded(Json::Object(entries)),
{
    lemma_get_beside_entry(entries, key, value);
}

/// Whether `key` is one of the keys that the details of a body is read from.
pub open spec fn details_reads(key: Seq<char>) -> bool {
    key == "type"@
        || key == "age"@
        || key == "isMainStar"@
        || key == "isScoopable"@
        || key == "solarMasses"@
        || key == "solarRadius"@
        || key == "spectralClass"@
        || key == "luminosity"@
        || key == "absoluteMagnitude"@
        || key == "earthMasses"@
        || key == "radius"@
        || key == "isLandable"@
        || key == "gravity"@
        || key == "surfacePressure"@
        || key == "volcanismType"@
        || key == "atmosphereType"@
        || key == "atmosphereComposition"@
        || key == "solidComposition"@
        || key == "terraformingState"@
}

impl Record for Details {
    open spec fn reads(key: Seq<char>) -> bool {
        details_reads(key)
    }

    fn reads_key(key: &str) -> (r: bool) {
        same_text(key, "type")
            || same_text(key, "age")
            || same_text(key, "isMainStar")
            || same_text(key, "isScoopable")
            || same_text(key, "solarMasses")
            || same_text(key, "solarRadius")
            || same_text(key, "spectralClass")
            || same_text(key, "luminosity")
            || same_text(key, "absoluteMagnitude")
            || same_text(key, "earthMasses")
            || same_text(key, "radius")
            || same_text(key, "isLandable")
            || same_text(key, "gravity")
            || same_text(key, "surfacePressure")
            || same_text(key, "volcanismType")
            || same_text(key, "atmosphereType")
            || same_text(key, "atmosphereComposition")
            || same_text(key, "solidComposition")
            || same_text(key, "terraformingState")
    }
}

/// An entry under a key that the details of a body is not read from changes nothing of what an
/// object decodes to as a body's details: what the service adds to its answers is passed over.
pub proof fn lemma_details_passes_over(
    entries: Seq<(Seq<char>, Json)>,
    key: Seq<char>,
    value: Json,
)
    requires
        distinct_keys(entries.push((key, value))),
        !details_reads(key),
    ensures
        Details::decoded(with_entry(entries, key, value)) == Details::decoded(
            Json::Object(entries),
        ),
{
    lemma_get_beside_entry(entries, key, value);
}

/// Whether `key` is one of the keys that a body is read from.
pub open spec fn body_reads(key: Seq<char>) -> bool {
    key == "name"@
        || key == "id"@
        || key == "id64"@
        || key == "bodyId"@
        || key == "subType"@
        || key == "parents"@
        || key == "distanceToArrival"@
        || key == "surfaceTemperature"@
        || key == "belts"@
        || key == "updateTime"@
        || details_reads(key)
        || orbit_reads(key)
}

impl Record for Body {
    open spec fn reads(key: Seq<char>) -> bool {
        body_reads(key)
    }

    fn reads_key(key: &str) -> (r: bool) {
        same_text(key, "name")
            || same_text(key, "id")
            || same_text(key, "id64")
            || same_text(key, "bodyId")
            || same_text(key, "subType")
            || same_text(key, "parents")
            || same_text(key, "distanceToArrival")
            || same_text(key, "surfaceTemperature")
            || same_text(key, "belts")
            || same_text(key, "updateTime")
            || Details::reads_key(key)
            || Orbit::reads_key(key)
    }
}

/// An entry under a key that a body is not read from changes nothing of what an object decodes to
/// as a body: what the service adds to its answers is passed over.
pub proof fn lemma_body_passes_over(
    entries: Seq<(Seq<char>, Json)>,
    key: Seq<char>,
    value: Json,
)
    requires
        distinct_keys(entries.push((key, value))),
        !body_reads(key),
    ensures
        Body::decoded(with_entry(entries, key, value)) == Body::decoded(Json::Object(entries)),
{
    let more = with_entry(entries, key, value);
    let less = Json::Object(entries);
    lemma_get_beside_entry(entries, key, value);
    lemma_details_passes_over(entries, key, value);
    lemma_orbit_passes_over(entries, key, value);
    assert(req_text(more, "name"@) == req_text(less, "name"@));
    assert(req_u64(more, "id"@) == req_u64(less, "id"@));
    assert(opt_u64(more, "id64"@) == opt_u64(less, "id64"@));
    assert(opt_u64(more, "bodyId"@) == opt_u64(less, "bodyId"@));
    assert(req_text(more, "subType"@) == req_text(less, "subType"@));
    assert(opt_list::<Parent>(more, "parents"@) == opt_list::<Parent>(less, "parents"@));
    assert(req_u64(more, "distanceToArrival"@) == req_u64(less, "distanceToArrival"@));
    assert(req_real(more, "surfaceTemperature"@) == req_real(less, "surfaceTemperature"@));
    assert(opt_list::<Belt>(more, "belts"@) == opt_list::<Belt>(less, "belts"@));
    assert(req_record::<Timestamp>(more, "updateTime"@) == req_record::<Timestamp>(
        less,
        "updateTime"@,
    ));
}

} // verus!

//! Star systems: a named place in the galaxy with, as far as the service was asked for them,
//! its place in space, its rule and economy, its bodies, its factions and its traffic.

use vstd::prelude::*;
use crate::body::{Body, BodyView};
use crate::decode::{
    all_wf, opt_list, opt_record, opt_table, optional_list, optional_record, optional_table,
    has_field, holds_field, reads_at, table_wf, Decode, Record,
};
use crate::error::{missing, outcome, unexpected, DecodeError, DecodeErrorView};
use crate::faction::{
    ControllingFaction, ControllingFactionView, Faction, FactionView, State, StateView,
};
use crate::json::{
    distinct_keys, holds_key, lemma_get_beside_entry, lemma_get_single, opt_bool, opt_text, opt_u64,
    optional_bool, optional_text, optional_u64, optional_value, req_text, req_u64, required_text,
    required_u64, same_text, tree, value_as_str, value_is_object, with_entry, Json, Real,
};
use crate::terms::{Allegiance, Economy, Government, Security};

verus! {

/// A place in space, in light years along three axes from Sol.
#[derive(Debug, Clone, Copy, PartialEq, Eq)]
pub struct Coordinate {
    pub x: Real,
    pub y: Real,
    pub z: Real,
}

impl DeepView for Coordinate {
    type V = Coordinate;

    open spec fn deep_view(&self) -> Coordinate {
        *self
    }
}

/// The place that `elite_journal` reads from a document, if it reads one.
pub uninterp spec fn journal_coordinate(j: Json) -> Option<Coordinate>;

/// The place that an object with a number under each of `x`, `y` and `z` holds.
pub open spec fn object_coordinate(j: Json) -> Option<Coordinate> {
    match (j.get("x"@), j.get("y"@), j.get("z"@)) {
        (Some(Json::Number(x)), Some(Json::Number(y)), Some(Json::Number(z))) => Some(
            Coordinate { x: x.real, y: y.real, z: z.real },
        ),
        _ => None,
    }
}

/// `serde_json::from_value` at `elite_journal::system::Coordinate`: the three axes that the
/// journal's own rules read from the document, or nothing where they refuse it. The result
/// depends on the document alone. The journal's type is a plain record of three doubles `x`,
/// `y` and `z` with a derived reader: from an object with a number under each of the three
/// keys it reads those numbers as doubles, whatever else the object holds.
#[verifier::external_body]
pub(crate) fn journal_coordinate_of(v: &serde_json::Value) -> (r: Option<Coordinate>)
    ensures
        r == journal_coordinate(tree(*v)),
        object_coordinate(tree(*v)) matches Some(place) ==> r == Some(place),
{
    match serde_json::from_value::<elite_journal::system::Coordinate>(v.clone()) {
        Ok(c) => Some(
            Coordinate {
                x: Real { bits: c.x.to_bits() },
                y: Real { bits: c.y.to_bits() },
                z: Real { bits: c.z.to_bits() },
            },
        ),
        Err(_) => None,
    }
}

impl Coordinate {
    /// What a document is as a place, given what the journal's rules read from it.
    pub open spec fn decoded_with(read: Option<Coordinate>) -> Result<Coordinate, DecodeErrorView> {
        match read {
            Some(place) => Ok(place),
            None => Err(DecodeErrorView::UnexpectedShape("Coordinate"@)),
        }
    }

    /// What a document is as a place: the numbers under `x`, `y` and `z` of an object that
    /// has them; for any other document, what the journal's rules read from it.
    pub open spec fn place_of(j: Json) -> Result<Coordinate, DecodeErrorView> {
        match object_coordinate(j) {
            Some(place) => Ok(place),
            None => Coordinate::decoded_with(journal_coordinate(j)),
        }
    }

    /// Decides what a document is as a place, given what the journal's rules read from it.
    pub fn from_reading(read: Option<Coordinate>) -> (r: Result<Coordinate, DecodeError>)
        ensures
            outcome(r) == Coordinate::decoded_with(read),
    {
        match read {
            Some(place) => Ok(place),
            None => Err(unexpected("Coordinate")),
        }
    }
}

impl Decode for Coordinate {
    open spec fn decoded(j: Json) -> Result<Coordinate, DecodeErrorView> {
        Coordinate::place_of(j)
    }

    open spec fn wf(&self) -> bool {
        true
    }

    fn from_value(v: &serde_json::Value) -> (r: Result<Coordinate, DecodeError>) {
        Coordinate::from_reading(journal_coordinate_of(v))
    }
}

/// How much of something a system saw: ships passing through, or ships lost.
#[derive(Debug, Clone, Copy, PartialEq, Eq)]
pub struct Statistic {
    pub total: u64,
    pub week: u64,
    pub day: u64,
}

impl DeepView for Statistic {
    type V = Statistic;

    open spec fn deep_view(&self) -> Statistic {
        *self
    }
}

impl Decode for Statistic {
    open spec fn decoded(j: Json) -> Result<Statistic, DecodeErrorView> {
        let total = req_u64(j, "total"@);
        let week = req_u64(j, "week"@);
        let day = req_u64(j, "day"@);
        if !(j is Object) {
            Err(DecodeErrorView::UnexpectedShape("Statistic"@))
        } else if total is Err {
            Err(total->Err_0)
        } else if week is Err {
            Err(week->Err_0)
        } else if day is Err {
            Err(day->Err_0)
        } else {
            Ok(Statistic { total: total->Ok_0, week: week->Ok_0, day: day->Ok_0 })
        }
    }

    open spec fn wf(&self) -> bool {
        true
    }

    fn from_value(v: &serde_json::Value) -> (r: Result<Statistic, DecodeError>) {
        if !value_is_object(v) {
            return Err(unexpected("Statistic"));
        }
        let total = required_u64(v, "total")?;
        let week = required_u64(v, "week")?;
        let day = required_u64(v, "day")?;
        Ok(Statistic { total, week, day })
    }
}

/// What is generally known of a system: its rule, its economy and the state of the faction
/// that controls it.
#[derive(Debug, Clone, PartialEq, Eq)]
pub struct Information {
    pub allegiance: Option<Allegiance>,
    pub government: Option<Government>,
    /// The name of the controlling faction.
    pub faction: Option<String>,
    /// The controlling faction's state.
    pub state: Option<State>,
    pub population: Option<u64>,
    pub security: Option<Security>,
    pub economy: Option<Economy>,
    pub second_economy: Option<Economy>,
    pub reserve: Option<String>,
}

/// The mathematical content of [`Information`].
pub struct InformationView {
    pub allegiance: Option<Allegiance>,
    pub government: Option<Government>,
    pub faction: Option<Seq<char>>,
    pub state: Option<StateView>,
    pub population: Option<u64>,
    pub security: Option<Security>,
    pub economy: Option<Economy>,
    pub second_economy: Option<Economy>,
    pub reserve: Option<Seq<char>>,
}

impl DeepView for Information {
    type V = InformationView;

    open spec fn deep_view(&self) -> InformationView {
        InformationView {
            allegiance: self.allegiance,
            government: self.government,
            faction: self.faction.deep_view(),
            state: self.state.deep_view(),
            population: self.population,
            security: self.security,
            economy: self.economy,
            second_economy: self.second_economy,
            reserve: self.reserve.deep_view(),
        }
    }
}

/// The text under `key`, if the object holds a text there.
pub open spec fn text_at(j: Json, key: Seq<char>) -> Option<Seq<char>> {
    match j.get(key) {
        Some(Json::Text(text)) => Some(text),
        _ => None,
    }
}

/// The controlling faction's state. The service writes it under `state`, and under the older
/// name `factionState`; `state` goes first. Anything but a text there is no state.
pub open spec fn state_of(j: Json) -> Option<StateView> {
    match text_at(j, "state"@) {
        Some(text) => Some(StateView { state: text }),
        None => match text_at(j, "factionState"@) {
            Some(text) => Some(StateView { state: text }),
            None => None,
        },
    }
}

/// The text under `key`, if the object holds a text there.
fn text_under(v: &serde_json::Value, key: &str) -> (r: Option<String>)
    ensures
        r.deep_view() == text_at(tree(*v), key@),
{
    match optional_value(v, key) {
        Some(x) => match value_as_str(x) {
            Some(text) => Some(text.to_owned()),
            None => None,
        },
        None => None,
    }
}

/// Reads the controlling faction's state from either of its two names.
pub fn state_from_value(v: &serde_json::Value) -> (r: Option<State>)
    ensures
        r.deep_view() == state_of(tree(*v)),
{
    match text_under(v, "state") {
        Some(state) => Some(State { state }),
        None => match text_under(v, "factionState") {
            Some(state) => Some(State { state }),
            None => None,
        },
    }
}

impl Decode for Information {
    /// An object with the general fields under the service's names, each of which may be
    /// absent. The fields are read in the order of their declaration, and the first that fails
    /// gives the error.
    open spec fn decoded(j: Json) -> Result<InformationView, DecodeErrorView> {
        let allegiance = opt_record::<Allegiance>(j, "allegiance"@);
        let government = opt_record::<Government>(j, "government"@);
        let faction = opt_text(j, "faction"@);
        let population = opt_u64(j, "population"@);
        let security = opt_record::<Security>(j, "security"@);
        let economy = opt_record::<Economy>(j, "economy"@);
        let second_economy = opt_record::<Economy>(j, "secondEconomy"@);
        let reserve = opt_text(j, "reserve"@);
        if !(j is Object) {
            Err(DecodeErrorView::UnexpectedShape("Information"@))
        } else if allegiance is Err {
            Err(allegiance->Err_0)
        } else if government is Err {
            Err(government->Err_0)
        } else if faction is Err {
            Err(faction->Err_0)
        } else if population is Err {
            Err(population->Err_0)
        } else if security is Err {
            Err(security->Err_0)
        } else if economy is Err {
            Err(economy->Err_0)
        } else if second_economy is Err {
            Err(second_economy->Err_0)
        } else if reserve is Err {
            Err(reserve->Err_0)
        } else {
            Ok(
                InformationView {
                    allegiance: allegiance->Ok_0,
                    government: government->Ok_0,
                    faction: faction->Ok_0,
                    state: state_of(j),
                    population: population->Ok_0,
                    security: security->Ok_0,
                    economy: economy->Ok_0,
                    second_economy: second_economy->Ok_0,
                    reserve: reserve->Ok_0,
                },
            )
        }
    }

    open spec fn wf(&self) -> bool {
        true
    }

    fn from_value(v: &serde_json::Value) -> (r: Result<Information, DecodeError>) {
        if !value_is_object(v) {
            return Err(unexpected("Information"));
        }
        let allegiance = optional_record::<Allegiance>(v, "allegiance")?;
        let government = optional_record::<Government>(v, "government")?;
        let faction = optional_text(v, "faction")?;
        let population = optional_u64(v, "population")?;
        let security = optional_record::<Security>(v, "security")?;
        let economy = optional_record::<Economy>(v, "economy")?;
        let second_economy = optional_record::<Economy>(v, "secondEconomy")?;
        let reserve = optional_text(v, "reserve")?;
        let state = state_from_value(v);
        Ok(
            Information {
                allegiance,
                government,
                faction,
                state,
                population,
                security,
                economy,
                second_economy,
                reserve,
            },
        )
    }
}

/// What an object holds as a record that the service writes either among the object's own
/// fields or under the key `information`.
///
/// Where the key is there with a value other than null, the record is read from that value,
/// whatever the object's own fields hold: of two records that are both there, the nested one
/// is taken and nothing is merged. Where the key is not there, the record is read from the
/// object's own fields, if the object has an entry under one of the record's keys. Where it
/// has none, or the record cannot be read from them, the record is missing.
pub open spec fn information_of<T: Record>(j: Json) -> Result<T::V, DecodeErrorView> {
    match j.member("information"@) {
        Some(nested) => T::decoded(nested),
        None => if holds_field::<T>(j) && T::decoded(j) is Ok {
            T::decoded(j)
        } else {
            Err(DecodeErrorView::MissingField("information"@))
        },
    }
}

/// Reads a record that the service writes either among an object's own fields or under the key
/// `information`.
pub fn deserialize_information<T: Record>(v: &serde_json::Value) -> (r: Result<T, DecodeError>)
    ensures
        outcome(r) == information_of::<T>(tree(*v)),
        r matches Ok(record) ==> record.wf(),
{
    match optional_value(v, "information") {
        Some(nested) => T::from_value(nested),
        None => {
            if !has_field::<T>(v) {
                return Err(missing("information"));
            }
            match T::from_value(v) {
                Ok(flat) => Ok(flat),
                Err(_) => Err(missing("information")),
            }
        },
    }
}

/// The object that holds `inner` under the key `information` and nothing else.
pub open spec fn nested(inner: Json) -> Json {
    Json::Object(seq![("information"@, inner)])
}

/// A record that is written among an object's own fields, in an object without the key
/// `information`, is read; and it is the record that is read where the same object stands
/// under the key `information` of another.
pub proof fn lemma_flat_equals_nested<T: Record>(flat: Json)
    requires
        holds_field::<T>(flat),
        flat.get("information"@) is None,
        T::decoded(flat) is Ok,
    ensures
        information_of::<T>(flat) == T::decoded(flat),
        information_of::<T>(nested(flat)) == T::decoded(flat),
{
    lemma_get_single("information"@, flat, "information"@);
}

/// A record is missing where an object holds it neither among its own fields nor under the
/// key `information`: where the key is not there, or holds null, and the object has no entry
/// under a key of the record, or has entries that are no such record.
pub proof fn lemma_neither_is_missing<T: Record>(j: Json)
    requires
        j.member("information"@) is None,
        !holds_field::<T>(j) || T::decoded(j) is Err,
    ensures
        information_of::<T>(j) == Err::<T::V, DecodeErrorView>(
            DecodeErrorView::MissingField("information"@),
        ),
{
}

/// The empty object holds no information, although each field of the information may be
/// absent.
pub proof fn lemma_empty_object_has_no_information()
    ensures
        information_of::<Information>(Json::Object(Seq::empty())) == Err::<
            InformationView,
            DecodeErrorView,
        >(DecodeErrorView::MissingField("information"@)),
{
    let entries = Seq::<(Seq<char>, Json)>::empty();
    assert(forall|i: int| !holds_key(entries, "information"@, i));
    assert(forall|i: int| !reads_at::<Information>(entries, i));
}

/// The information that is read from an object with a text under `state`, or under
/// `factionState`, has a state.
pub proof fn lemma_state_is_present(j: Json)
    requires
        text_at(j, "state"@) is Some || text_at(j, "factionState"@) is Some,
    ensures
        Information::decoded(j) matches Ok(information) ==> information.state is Some,
        j.member("information"@) is None ==> (information_of::<Information>(j) matches Ok(
            information,
        ) ==> information.state is Some),
{
}

/// A star system as the service describes it. Each request fills the fields that it asked for
/// and leaves the others empty.
#[derive(Debug, Clone, PartialEq, Eq)]
pub struct System {
    pub name: String,
    pub id: Option<u64>,
    pub id64: Option<u64>,
    pub coords: Option<Coordinate>,
    pub coords_locked: Option<bool>,
    pub information: Information,
    pub require_permit: Option<bool>,
    pub permit_name: Option<String>,
    pub body_count: Option<u64>,
    pub bodies: Option<Vec<Body>>,
    pub factions: Option<Vec<Faction>>,
    pub controlling_faction: Option<ControllingFaction>,
    pub deaths: Option<Statistic>,
    pub traffic: Option<Statistic>,
    /// The traffic by kind of ship. No kind occurs twice.
    pub traffic_breakdown: Option<Vec<(String, u64)>>,
}

/// The mathematical content of a [`System`].
pub struct SystemView {
    pub name: Seq<char>,
    pub id: Option<u64>,
    pub id64: Option<u64>,
    pub coords: Option<Coordinate>,
    pub coords_locked: Option<bool>,
    pub information: InformationView,
    pub require_permit: Option<bool>,
    pub permit_name: Option<Seq<char>>,
    pub body_count: Option<u64>,
    pub bodies: Option<Seq<BodyView>>,
    pub factions: Option<Seq<FactionView>>,
    pub controlling_faction: Option<ControllingFactionView>,
    pub deaths: Option<Statistic>,
    pub traffic: Option<Statistic>,
    pub traffic_breakdown: Option<Seq<(Seq<char>, u64)>>,
}

impl DeepView for System {
    type V = SystemView;

    open spec fn deep_view(&self) -> SystemView {
        SystemView {
            name: self.name@,
            id: self.id,
            id64: self.id64,
            coords: self.coords,
            coords_locked: self.coords_locked,
            information: self.information.deep_view(),
            require_permit: self.require_permit,
            permit_name: self.permit_name.deep_view(),
            body_count: self.body_count,
            bodies: self.bodies.deep_view(),
            factions: self.factions.deep_view(),
            controlling_faction: self.controlling_faction.deep_view(),
            deaths: self.deaths,
            traffic: self.traffic,
            traffic_breakdown: self.traffic_breakdown.deep_view(),
        }
    }
}

impl Decode for System {
    /// An object with the fields of a system under the service's names. The general
    /// information stands among them or under the key `information`. The fields are read in
    /// the order of their declaration, and the first that fails gives the error.
    open spec fn decoded(j: Json) -> Result<SystemView, DecodeErrorView> {
        let name = req_text(j, "name"@);
        let id = opt_u64(j, "id"@);
        let id64 = opt_u64(j, "id64"@);
        let coords = opt_record::<Coordinate>(j, "coords"@);
        let coords_locked = opt_bool(j, "coordsLocked"@);
        let information = information_of::<Information>(j);
        let require_permit = opt_bool(j, "requirePermit"@);
        let permit_name = opt_text(j, "permitName"@);
        let body_count = opt_u64(j, "bodyCount"@);
        let bodies = opt_list::<Body>(j, "bodies"@);
        let factions = opt_list::<Faction>(j, "factions"@);
        let controlling_faction = opt_record::<ControllingFaction>(j, "controllingFaction"@);
        let deaths = opt_record::<Statistic>(j, "deaths"@);
        let traffic = opt_record::<Statistic>(j, "traffic"@);
        let traffic_breakdown = opt_table::<u64>(j, "breakdown"@);
        if !(j is Object) {
            Err(DecodeErrorView::UnexpectedShape("System"@))
        } else if name is Err {
            Err(name->Err_0)
        } else if id is Err {
            Err(id->Err_0)
        } else if id64 is Err {
            Err(id64->Err_0)
        } else if coords is Err {
            Err(coords->Err_0)
        } else if coords_locked is Err {
            Err(coords_locked->Err_0)
        } else if information is Err {
            Err(information->Err_0)
        } else if require_permit is Err {
            Err(require_permit->Err_0)
        } else if permit_name is Err {
            Err(permit_name->Err_0)
        } else if body_count is Err {
            Err(body_count->Err_0)
        } else if bodies is Err {
            Err(bodies->Err_0)
        } else if factions is Err {
            Err(factions->Err_0)
        } else if controlling_faction is Err {
            Err(controlling_faction->Err_0)
        } else if deaths is Err {
            Err(deaths->Err_0)
        } else if traffic is Err {
            Err(traffic->Err_0)
        } else if traffic_breakdown is Err {
            Err(traffic_breakdown->Err_0)
        } else {
            Ok(
                SystemView {
                    name: name->Ok_0,
                    id: id->Ok_0,
                    id64: id64->Ok_0,
                    coords: coords->Ok_0,
                    coords_locked: coords_locked->Ok_0,
                    information: information->Ok_0,
                    require_permit: require_permit->Ok_0,
                    permit_name: permit_name->Ok_0,
                    body_count: body_count->Ok_0,
                    bodies: bodies->Ok_0,
                    factions: factions->Ok_0,
                    controlling_faction: controlling_faction->Ok_0,
                    deaths: deaths->Ok_0,
                    traffic: traffic->Ok_0,
                    traffic_breakdown: traffic_breakdown->Ok_0,
                },
            )
        }
    }

    /// The bodies and the factions are well formed, and no kind of ship occurs twice in the
    /// traffic.
    open spec fn wf(&self) -> bool {
        &&& self.bodies matches Some(bodies) ==> all_wf(bodies@)
        &&& self.factions matches Some(factions) ==> all_wf(factions@)
        &&& self.traffic_breakdown matches Some(table) ==> table_wf(table)
    }

    fn from_value(v: &serde_json::Value) -> (r: Result<System, DecodeError>) {
        if !value_is_object(v) {
            return Err(unexpected("System"));
        }
        let name = required_text(v, "name")?;
        let id = optional_u64(v, "id")?;
        let id64 = optional_u64(v, "id64")?;
        let coords = optional_record::<Coordinate>(v, "coords")?;
        let coords_locked = optional_bool(v, "coordsLocked")?;
        let information = deserialize_information::<Information>(v)?;
        let require_permit = optional_bool(v, "requirePermit")?;
        let permit_name = optional_text(v, "permitName")?;
        let body_count = optional_u64(v, "bodyCount")?;
        let bodies = optional_list::<Body>(v, "bodies")?;
        let factions = optional_list::<Faction>(v, "factions")?;
        let controlling_faction = optional_record::<ControllingFaction>(v, "controllingFaction")?;
        let deaths = optional_record::<Statistic>(v, "deaths")?;
        let traffic = optional_record::<Statistic>(v, "traffic")?;
        let traffic_breakdown = optional_table::<u64>(v, "breakdown")?;
        Ok(
            System {
                name,
                id,
                id64,
                coords,
                coords_locked,
                information,
                require_permit,
                permit_name,
                body_count,
                bodies,
                factions,
                controlling_faction,
                deaths,
                traffic,
                traffic_breakdown,
            },
        )
    }
}


/// Whether `key` is one of the keys that a statistic is read from.
pub open spec fn statistic_reads(key: Seq<char>) -> bool {
    key == "total"@
        || key == "week"@
        || key == "day"@
}

impl Record for Statistic {
    open spec fn reads(key: Seq<char>) -> bool {
        statistic_reads(key)
    }

    fn reads_key(key: &str) -> (r: bool) {
        same_text(key, "total")
            || same_text(key, "week")
            || same_text(key, "day")
    }
}

/// An entry under a key that a statistic is not read from changes nothing of what an object decodes
/// to as a statistic: what the service adds to its answers is passed over.
pub proof fn lemma_statistic_passes_over(
    entries: Seq<(Seq<char>, Json)>,
    key: Seq<char>,
    value: Json,
)
    requires
        distinct_keys(entries.push((key, value))),
        !statistic_reads(key),
    ensures
        Statistic::decoded(with_entry(entries, key, value)) == Statistic::decoded(
            Json::Object(entries),
        ),
{
    lemma_get_beside_entry(entries, key, value);
}

/// Whether `key` is one of the keys that the information on a system is read from.
pub open spec fn information_reads(key: Seq<char>) -> bool {
    key == "allegiance"@
        || key == "government"@
        || key == "faction"@
        || key == "state"@
        || key == "factionState"@
        || key == "population"@
        || key == "security"@
        || key == "economy"@
        || key == "secondEconomy"@
        || key == "reserve"@
}

impl Record for Information {
    open spec fn reads(key: Seq<char>) -> bool {
        information_reads(key)
    }

    fn reads_key(key: &str) -> (r: bool) {
        same_text(key, "allegiance")
            || same_text(key, "government")
            || same_text(key, "faction")
            || same_text(key, "state")
            || same_text(key, "factionState")
            || same_text(key, "population")
            || same_text(key, "security")
            || same_text(key, "economy")
            || same_text(key, "secondEconomy")
            || same_text(key, "reserve")
    }
}

/// An entry under a key that the information on a system is not read from changes nothing of what
/// an object decodes to as a system's information: what the service adds to its answers is passed
/// over.
pub proof fn lemma_information_passes_over(
    entries: Seq<(Seq<char>, Json)>,
    key: Seq<char>,
    value: Json,
)
    requires
        distinct_keys(entries.push((key, value))),
        !information_reads(key),
    ensures
        Information::decoded(with_entry(entries, key, value)) == Information::decoded(
            Json::Object(entries),
        ),
{
    lemma_get_beside_entry(entries, key, value);
}

/// Whether `key` is one of the keys that a system is read from.
pub open spec fn system_reads(key: Seq<char>) -> bool {
    key == "name"@
        || key == "id"@
        || key == "id64"@
        || key == "coords"@
        || key == "coordsLocked"@
        || key == "information"@
        || key == "requirePermit"@
        || key == "permitName"@
        || key == "bodyCount"@
        || key == "bodies"@
        || key == "factions"@
        || key == "controllingFaction"@
        || key == "deaths"@
        || key == "traffic"@
        || key == "breakdown"@
        || information_reads(key)
}

impl Record for System {
    open spec fn reads(key: Seq<char>) -> bool {
        system_reads(key)
    }

    fn reads_key(key: &str) -> (r: bool) {
        same_text(key, "name")
            || same_text(key, "id")
            || same_text(key, "id64")
            || same_text(key, "coords")
            || same_text(key, "coordsLocked")
            || same_text(key, "information")
            || same_text(key, "requirePermit")
            || same_text(key, "permitName")
            || same_text(key, "bodyCount")
            || same_text(key, "bodies")
            || same_text(key, "factions")
            || same_text(key, "controllingFaction")
            || same_text(key, "deaths")
            || same_text(key, "traffic")
            || same_text(key, "breakdown")
            || Information::reads_key(key)
    }
}

/// An entry under a key that a system is not read from changes nothing of what an object decodes to
/// as a system: what the service adds to its answers is passed over.
pub proof fn lemma_system_passes_over(
    entries: Seq<(Seq<char>, Json)>,
    key: Seq<char>,
    value: Json,
)
    requires
        distinct_keys(entries.push((key, value))),
        !system_reads(key),
    ensures
        System::decoded(with_entry(entries, key, value)) == System::decoded(Json::Object(entries)),
{
    let more = with_entry(entries, key, value);
    let less = Json::Object(entries);
    lemma_get_beside_entry(entries, key, value);
    lemma_information_passes_over(entries, key, value);
    let longer = entries.push((key, value));
    assert(holds_field::<Information>(more) == holds_field::<Information>(less)) by {
        if holds_field::<Information>(more) {
            let i = choose|i: int| reads_at::<Information>(longer, i);
            assert(i < entries.len());
            assert(longer[i] == entries[i]);
            assert(reads_at::<Information>(entries, i));
        }
        if holds_field::<Information>(less) {
            let i = choose|i: int| reads_at::<Information>(entries, i);
            assert(longer[i] == entries[i]);
            assert(reads_at::<Information>(longer, i));
        }
    }
    assert(information_of::<Information>(more) == information_of::<Information>(less));
    assert(req_text(more, "name"@) == req_text(less, "name"@));
    assert(opt_u64(more, "id"@) == opt_u64(less, "id"@));
    assert(opt_u64(more, "id64"@) == opt_u64(less, "id64"@));
    assert(opt_record::<Coordinate>(more, "coords"@) == opt_record::<Coordinate>(
        less,
        "coords"@,
    ));
    assert(opt_bool(more, "coordsLocked"@) == opt_bool(less, "coordsLocked"@));
    assert(opt_bool(more, "requirePermit"@) == opt_bool(less, "requirePermit"@));
    assert(opt_text(more, "permitName"@) == opt_text(less, "permitName"@));
    assert(opt_u64(more, "bodyCount"@) == opt_u64(less, "bodyCount"@));
    assert(opt_list::<Body>(more, "bodies"@) == opt_list::<Body>(less, "bodies"@));
    assert(opt_list::<Faction>(more, "factions"@) == opt_list::<Faction>(less, "factions"@));
    assert(opt_record::<ControllingFaction>(more, "controllingFaction"@) == opt_record::<
        ControllingFaction,
    >(less, "controllingFaction"@));
    assert(opt_record::<Statistic>(more, "deaths"@) == opt_record::<Statistic>(less, "deaths"@));
    assert(opt_record::<Statistic>(more, "traffic"@) == opt_record::<Statistic>(
        less,
        "traffic"@,
    ));
    assert(opt_table::<u64>(more, "breakdown"@) == opt_table::<u64>(less, "breakdown"@));
}

} // verus!

//! Factions: the groups that inhabit systems, their states and the histories of those states.
//!
//! A populated system holds several factions whose influence adds up to one. The faction that
//! controls the main starport controls the system.

use std::collections::HashMap;
use vstd::prelude::*;
use crate::decode::{
    decoded_entries, decoded_table, opt_record, opt_timeline, optional_record,
    optional_timeline, req_list, required_list, table_from_value, table_wf, timeline_wf, Decode,
    Record,
};
use crate::error::{unexpected, DecodeError, DecodeErrorView};
use crate::json::{
    distinct_keys, lemma_collect_ok, lemma_get_beside_entry, opt_text, opt_u64, optional_text,
    optional_u64, req_bool, req_real, req_text, req_u64, required_bool, required_real,
    required_text, required_u64, same_text, tree, value_as_array, value_is_object, with_entry,
    Json, Real,
};

verus! {

/// A condition that a faction is in. Some states take effect in every system where the faction
/// is present.
#[derive(Debug, Clone, PartialEq, Eq)]
pub struct State {
    pub state: String,
}

/// The mathematical content of a [`State`].
pub struct StateView {
    pub state: Seq<char>,
}

impl DeepView for State {
    type V = StateView;

    open spec fn deep_view(&self) -> StateView {
        StateView { state: self.state@ }
    }
}

impl Decode for State {
    /// An object with the text `state`.
    open spec fn decoded(j: Json) -> Result<StateView, DecodeErrorView> {
        let state = req_text(j, "state"@);
        if !(j is Object) {
            Err(DecodeErrorView::UnexpectedShape("State"@))
        } else if state is Err {
            Err(state->Err_0)
        } else {
            Ok(StateView { state: state->Ok_0 })
        }
    }

    open spec fn wf(&self) -> bool {
        true
    }

    fn from_value(v: &serde_json::Value) -> (r: Result<State, DecodeError>) {
        if !value_is_object(v) {
            return Err(unexpected("State"));
        }
        let state = required_text(v, "state")?;
        Ok(State { state })
    }
}

/// A state with its trend.
#[derive(Debug, Clone, PartialEq, Eq)]
pub struct TrendingState {
    pub state: State,
    pub trend: u64,
}

/// The mathematical content of a [`TrendingState`].
pub struct TrendingStateView {
    pub state: StateView,
    pub trend: u64,
}

impl DeepView for TrendingState {
    type V = TrendingStateView;

    open spec fn deep_view(&self) -> TrendingStateView {
        TrendingStateView { state: self.state.deep_view(), trend: self.trend }
    }
}

impl Decode for TrendingState {
    /// An object that holds the state's own field beside the integer `trend`.
    open spec fn decoded(j: Json) -> Result<TrendingStateView, DecodeErrorView> {
        let state = State::decoded(j);
        let trend = req_u64(j, "trend"@);
        if !(j is Object) {
            Err(DecodeErrorView::UnexpectedShape("TrendingState"@))
        } else if state is Err {
            Err(state->Err_0)
        } else if trend is Err {
            Err(trend->Err_0)
        } else {
            Ok(TrendingStateView { state: state->Ok_0, trend: trend->Ok_0 })
        }
    }

    open spec fn wf(&self) -> bool {
        true
    }

    fn from_value(v: &serde_json::Value) -> (r: Result<TrendingState, DecodeError>) {
        if !value_is_object(v) {
            return Err(unexpected("TrendingState"));
        }
        let state = State::from_value(v)?;
        let trend = required_u64(v, "trend")?;
        Ok(TrendingState { state, trend })
    }
}

/// The content of a history: nothing recorded, or what was recorded under each time. The keys
/// are times in seconds, kept as the text that the service sent.
pub enum HistoryView<T> {
    Empty,
    Table(Seq<(Seq<char>, T)>),
}

/// What a document decodes to as a history. The service writes an empty list where nothing is
/// recorded, and an object keyed by time otherwise; any other shape is none of the two.
pub open spec fn decoded_history<T: Decode>(j: Json, name: Seq<char>) -> Result<
    HistoryView<T::V>,
    DecodeErrorView,
> {
    match j {
        Json::Array(items) if items.len() == 0 => Ok(HistoryView::Empty),
        _ => match decoded_table::<T>(j) {
            Ok(table) => Ok(HistoryView::Table(table)),
            Err(_) => Err(DecodeErrorView::UnexpectedShape(name)),
        },
    }
}

/// Tells the two shapes of a history apart: `Ok(None)` for the empty list, the table for an
/// object whose every value decodes, and the error that carries `name` for anything else.
pub fn history_from_value<T: Decode>(v: &serde_json::Value, name: &str) -> (r: Result<
    Option<Vec<(String, T)>>,
    DecodeError,
>)
    ensures
        match r {
            Ok(None) => decoded_history::<T>(tree(*v), name@) == Ok::<
                HistoryView<T::V>,
                DecodeErrorView,
            >(HistoryView::Empty),
            Ok(Some(table)) => decoded_history::<T>(tree(*v), name@) == Ok::<
                HistoryView<T::V>,
                DecodeErrorView,
            >(HistoryView::Table(table.deep_view())) && table_wf(table),
            Err(e) => decoded_history::<T>(tree(*v), name@) == Err::<
                HistoryView<T::V>,
                DecodeErrorView,
            >(e.deep_view()),
        },
{
    match value_as_array(v) {
        Some(items) => {
            if items.len() == 0 {
                return Ok(None);
            }
        },
        None => {},
    }
    match table_from_value::<T>(v) {
        Ok(table) => Ok(Some(table)),
        Err(_) => Err(unexpected(name)),
    }
}

/// The history of a faction's state.
#[derive(Debug, Clone, PartialEq, Eq)]
pub enum StateHistory {
    Empty([(); 0]),
    /// The state under each time. No time occurs twice.
    Table(Vec<(String, String)>),
}

impl DeepView for StateHistory {
    type V = HistoryView<Seq<char>>;

    open spec fn deep_view(&self) -> HistoryView<Seq<char>> {
        match self {
            StateHistory::Empty(_) => HistoryView::Empty,
            StateHistory::Table(table) => HistoryView::Table(table.deep_view()),
        }
    }
}

impl Decode for StateHistory {
    open spec fn decoded(j: Json) -> Result<HistoryView<Seq<char>>, DecodeErrorView> {
        decoded_history::<String>(j, "StateHistory"@)
    }

    /// No time occurs twice.
    open spec fn wf(&self) -> bool {
        self matches StateHistory::Table(table) ==> table_wf(*table)
    }

    fn from_value(v: &serde_json::Value) -> (r: Result<StateHistory, DecodeError>) {
        match history_from_value::<String>(v, "StateHistory")? {
            None => Ok(StateHistory::Empty([])),
            Some(table) => Ok(StateHistory::Table(table)),
        }
    }
}

/// The history of a faction's active states.
#[derive(Debug, Clone, PartialEq, Eq)]
pub enum ActiveStatesHistory {
    Empty([(); 0]),
    /// The active states under each time. No time occurs twice.
    Table(Vec<(String, Vec<State>)>),
}

impl DeepView for ActiveStatesHistory {
    type V = HistoryView<Seq<StateView>>;

    open spec fn deep_view(&self) -> HistoryView<Seq<StateView>> {
        match self {
            ActiveStatesHistory::Empty(_) => HistoryView::Empty,
            ActiveStatesHistory::Table(table) => HistoryView::Table(table.deep_view()),
        }
    }
}

impl Decode for ActiveStatesHistory {
    open spec fn decoded(j: Json) -> Result<HistoryView<Seq<StateView>>, DecodeErrorView> {
        decoded_history::<Vec<State>>(j, "ActiveStatesHistory"@)
    }

    /// No time occurs twice.
    open spec fn wf(&self) -> bool {
        self matches ActiveStatesHistory::Table(table) ==> table_wf(*table)
    }

    fn from_value(v: &serde_json::Value) -> (r: Result<ActiveStatesHistory, DecodeError>) {
        match history_from_value::<Vec<State>>(v, "ActiveStatesHistory")? {
            None => Ok(ActiveStatesHistory::Empty([])),
            Some(table) => Ok(ActiveStatesHistory::Table(table)),
        }
    }
}

/// The history of a faction's states with their trends.
#[derive(Debug, Clone, PartialEq, Eq)]
pub enum TrendingStatesHistory {
    Empty([(); 0]),
    /// The states with their trends under each time. No time occurs twice.
    Table(Vec<(String, Vec<TrendingState>)>),
}

impl DeepView for TrendingStatesHistory {
    type V = HistoryView<Seq<TrendingStateView>>;

    open spec fn deep_view(&self) -> HistoryView<Seq<TrendingStateView>> {
        match self {
            TrendingStatesHistory::Empty(_) => HistoryView::Empty,
            TrendingStatesHistory::Table(table) => HistoryView::Table(table.deep_view()),
        }
    }
}

impl Decode for TrendingStatesHistory {
    open spec fn decoded(j: Json) -> Result<HistoryView<Seq<TrendingStateView>>, DecodeErrorView> {
        decoded_history::<Vec<TrendingState>>(j, "TrendingStatesHistory"@)
    }

    /// No time occurs twice.
    open spec fn wf(&self) -> bool {
        self matches TrendingStatesHistory::Table(table) ==> table_wf(*table)
    }

    fn from_value(v: &serde_json::Value) -> (r: Result<TrendingStatesHistory, DecodeError>) {
        match history_from_value::<Vec<TrendingState>>(v, "TrendingStatesHistory")? {
            None => Ok(TrendingStatesHistory::Empty([])),
            Some(table) => Ok(TrendingStatesHistory::Table(table)),
        }
    }
}

/// An object whose every value decodes is a history that holds, in the order of its entries, each
/// key as the text that it is with its value's record.
pub proof fn lemma_history_keeps_keys<T: Decode>(entries: Seq<(Seq<char>, Json)>, name: Seq<char>)
    requires
        forall|i: int| 0 <= i < entries.len() ==> T::decoded((#[trigger] entries[i]).1) is Ok,
    ensures
        decoded_history::<T>(Json::Object(entries), name) == Ok::<
            HistoryView<T::V>,
            DecodeErrorView,
        >(
            HistoryView::Table(
                Seq::new(
                    entries.len(),
                    |i: int| (entries[i].0, T::decoded(entries[i].1)->Ok_0),
                ),
            ),
        ),
{
    let table = Seq::new(entries.len(), |i: int| (entries[i].0, T::decoded(entries[i].1)->Ok_0));
    assert forall|i: int| 0 <= i < entries.len() implies (#[trigger] decoded_entries::<T>(
        entries,
    )[i]) == Ok::<(Seq<char>, T::V), DecodeErrorView>(table[i]) by {
        assert(T::decoded(entries[i].1) is Ok);
    }
    lemma_collect_ok(decoded_entries::<T>(entries), table);
}

/// An object of one entry with a text is the state history that holds that text under the
/// entry's key.
pub proof fn lemma_single_state_is_kept(key: Seq<char>, state: Seq<char>)
    ensures
        StateHistory::decoded(Json::Object(seq![(key, Json::Text(state))])) == Ok::<
            HistoryView<Seq<char>>,
            DecodeErrorView,
        >(HistoryView::Table(seq![(key, state)])),
{
    let entries = seq![(key, Json::Text(state))];
    assert(entries[0] == (key, Json::Text(state)));
    lemma_history_keeps_keys::<String>(entries, "StateHistory"@);
    assert(Seq::new(
        entries.len(),
        |i: int| (entries[i].0, <String as Decode>::decoded(entries[i].1)->Ok_0),
    ) =~= seq![(key, state)]);
}

/// The empty list decodes to the empty history, whatever the kind of its values.
pub proof fn lemma_empty_list_is_empty_history<T: Decode>(name: Seq<char>)
    ensures
        decoded_history::<T>(Json::Array(Seq::empty()), name) == Ok::<
            HistoryView<T::V>,
            DecodeErrorView,
        >(HistoryView::Empty),
{
}

/// The faction that controls a system: the one that holds its main starport.
#[derive(Debug, Clone, PartialEq, Eq)]
pub struct ControllingFaction {
    pub id: u64,
    pub name: String,
    pub allegiance: String,
    pub government: String,
}

/// The mathematical content of a [`ControllingFaction`].
pub struct ControllingFactionView {
    pub id: u64,
    pub name: Seq<char>,
    pub allegiance: Seq<char>,
    pub government: Seq<char>,
}

impl DeepView for ControllingFaction {
    type V = ControllingFactionView;

    open spec fn deep_view(&self) -> ControllingFactionView {
        ControllingFactionView {
            id: self.id,
            name: self.name@,
            allegiance: self.allegiance@,
            government: self.government@,
        }
    }
}

impl Decode for ControllingFaction {
    open spec fn decoded(j: Json) -> Result<ControllingFactionView, DecodeErrorView> {
        let id = req_u64(j, "id"@);
        let name = req_text(j, "name"@);
        let allegiance = req_text(j, "allegiance"@);
        let government = req_text(j, "government"@);
        if !(j is Object) {
            Err(DecodeErrorView::UnexpectedShape("ControllingFaction"@))
        } else if id is Err {
            Err(id->Err_0)
        } else if name is Err {
            Err(name->Err_0)
        } else if allegiance is Err {
            Err(allegiance->Err_0)
        } else if government is Err {
            Err(government->Err_0)
        } else {
            Ok(
                ControllingFactionView {
                    id: id->Ok_0,
                    name: name->Ok_0,
                    allegiance: allegiance->Ok_0,
                    government: government->Ok_0,
                },
            )
        }
    }

    open spec fn wf(&self) -> bool {
        true
    }

    fn from_value(v: &serde_json::Value) -> (r: Result<ControllingFaction, DecodeError>) {
        if !value_is_object(v) {
            return Err(unexpected("ControllingFaction"));
        }
        let id = required_u64(v, "id")?;
        let name = required_text(v, "name")?;
        let allegiance = required_text(v, "allegiance")?;
        let government = required_text(v, "government")?;
        Ok(ControllingFaction { id, name, allegiance, government })
    }
}

/// A group that inhabits one or more systems, run by players or not.
#[derive(Debug, Clone, PartialEq, Eq)]
pub struct Faction {
    pub id: u64,
    pub name: String,
    pub allegiance: String,
    pub government: String,
    /// The faction's share of the system, from 0 to 1.
    pub influence: Real,
    /// The influence under each time, in seconds.
    pub influence_history: Option<HashMap<u64, Real>>,
    pub happieness: Option<String>,
    /// The happiness under each time, in seconds.
    pub happieness_history: Option<HashMap<u64, String>>,
    pub primary_state: String,
    pub primary_state_history: Option<StateHistory>,
    pub active_states: Vec<State>,
    pub active_states_history: Option<ActiveStatesHistory>,
    pub recovering_states: Vec<TrendingState>,
    pub recovering_states_history: Option<TrendingStatesHistory>,
    pub pending_states: Vec<TrendingState>,
    pub pending_states_history: Option<TrendingStatesHistory>,
    pub is_player: bool,
    pub last_updated: Option<u64>,
}

/// The mathematical content of a [`Faction`].
pub struct FactionView {
    pub id: u64,
    pub name: Seq<char>,
    pub allegiance: Seq<char>,
    pub government: Seq<char>,
    pub influence: Real,
    pub influence_history: Option<Map<u64, Real>>,
    pub happieness: Option<Seq<char>>,
    pub happieness_history: Option<Map<u64, Seq<char>>>,
    pub primary_state: Seq<char>,
    pub primary_state_history: Option<HistoryView<Seq<char>>>,
    pub active_states: Seq<StateView>,
    pub active_states_history: Option<HistoryView<Seq<StateView>>>,
    pub recovering_states: Seq<TrendingStateView>,
    pub recovering_states_history: Option<HistoryView<Seq<TrendingStateView>>>,
    pub pending_states: Seq<TrendingStateView>,
    pub pending_states_history: Option<HistoryView<Seq<TrendingStateView>>>,
    pub is_player: bool,
    pub last_updated: Option<u64>,
}

impl DeepView for Faction {
    type V = FactionView;

    open spec fn deep_view(&self) -> FactionView {
        FactionView {
            id: self.id,
            name: self.name@,
            allegiance: self.allegiance@,
            government: self.government@,
            influence: self.influence,
            influence_history: self.influence_history.deep_view(),
            happieness: self.happieness.deep_view(),
            happieness_history: self.happieness_history.deep_view(),
            primary_state: self.primary_state@,
            primary_state_history: self.primary_state_history.deep_view(),
            active_states: self.active_states.deep_view(),
            active_states_history: self.active_states_history.deep_view(),
            recovering_states: self.recovering_states.deep_view(),
            recovering_states_history: self.recovering_states_history.deep_view(),
            pending_states: self.pending_states.deep_view(),
            pending_states_history: self.pending_states_history.deep_view(),
            is_player: self.is_player,
            last_updated: self.last_updated,
        }
    }
}

impl Decode for Faction {
    /// An object with the fields of a faction under the service's names. The fields are read in
    /// the order of their declaration, and the first that fails gives the error.
    open spec fn decoded(j: Json) -> Result<FactionView, DecodeErrorView> {
        let id = req_u64(j, "id"@);
        let name = req_text(j, "name"@);
        let allegiance = req_text(j, "allegiance"@);
        let government = req_text(j, "government"@);
        let influence = req_real(j, "influence"@);
        let influence_history = opt_timeline::<Real>(j, "influenceHistory"@);
        let happieness = opt_text(j, "happieness"@);
        let happieness_history = opt_timeline::<String>(j, "happienessHistory"@);
        let primary_state = req_text(j, "state"@);
        let primary_state_history = opt_record::<StateHistory>(j, "stateHistory"@);
        let active_states = req_list::<State>(j, "activeStates"@);
        let active_states_history = opt_record::<ActiveStatesHistory>(j, "activeStatesHistory"@);
        let recovering_states = req_list::<TrendingState>(j, "recoveringStates"@);
        let recovering_states_history = opt_record::<TrendingStatesHistory>(
            j,
            "recoveringStatesHistory"@,
        );
        let pending_states = req_list::<TrendingState>(j, "pendingStates"@);
        let pending_states_history = opt_record::<TrendingStatesHistory>(
            j,
            "pendingStatesHistory"@,
        );
        let is_player = req_bool(j, "isPlayer"@);
        let last_updated = opt_u64(j, "lastUpdated"@);
        if !(j is Object) {
            Err(DecodeErrorView::UnexpectedShape("Faction"@))
        } else if id is Err {
            Err(id->Err_0)
        } else if name is Err {
            Err(name->Err_0)
        } else if allegiance is Err {
            Err(allegiance->Err_0)
        } else if government is Err {
            Err(government->Err_0)
        } else if influence is Err {
            Err(influence->Err_0)
        } else if influence_history is Err {
            Err(influence_history->Err_0)
        } else if happieness is Err {
            Err(happieness->Err_0)
        } else if happieness_history is Err {
            Err(happieness_history->Err_0)
        } else if primary_state is Err {
            Err(primary_state->Err_0)
        } else if primary_state_history is Err {
            Err(primary_state_history->Err_0)
        } else if active_states is Err {
            Err(active_states->Err_0)
        } else if active_states_history is Err {
            Err(active_states_history->Err_0)
        } else if recovering_states is Err {
            Err(recovering_states->Err_0)
        } else if recovering_states_history is Err {
            Err(recovering_states_history->Err_0)
        } else if pending_states is Err {
            Err(pending_states->Err_0)
        } else if pending_states_history is Err {
            Err(pending_states_history->Err_0)
        } else if is_player is Err {
            Err(is_player->Err_0)
        } else if last_updated is Err {
            Err(last_updated->Err_0)
        } else {
            Ok(
                FactionView {
                    id: id->Ok_0,
                    name: name->Ok_0,
                    allegiance: allegiance->Ok_0,
                    government: government->Ok_0,
                    influence: influence->Ok_0,
                    influence_history: influence_history->Ok_0,
                    happieness: happieness->Ok_0,
                    happieness_history: happieness_history->Ok_0,
                    primary_state: primary_state->Ok_0,
                    primary_state_history: primary_state_history->Ok_0,
                    active_states: active_states->Ok_0,
                    active_states_history: active_states_history->Ok_0,
                    recovering_states: recovering_states->Ok_0,
                    recovering_states_history: recovering_states_history->Ok_0,
                    pending_states: pending_states->Ok_0,
                    pending_states_history: pending_states_history->Ok_0,
                    is_player: is_player->Ok_0,
                    last_updated: last_updated->Ok_0,
                },
            )
        }
    }

    /// No history holds a time twice.
    open spec fn wf(&self) -> bool {
        &&& self.influence_history matches Some(h) ==> timeline_wf(h)
        &&& self.happieness_history matches Some(h) ==> timeline_wf(h)
        &&& self.primary_state_history matches Some(h) ==> h.wf()
        &&& self.active_states_history matches Some(h) ==> h.wf()
        &&& self.recovering_states_history matches Some(h) ==> h.wf()
        &&& self.pending_states_history matches Some(h) ==> h.wf()
    }

    fn from_value(v: &serde_json::Value) -> (r: Result<Faction, DecodeError>) {
        if !value_is_object(v) {
            return Err(unexpected("Faction"));
        }
        let id = required_u64(v, "id")?;
        let name = required_text(v, "name")?;
        let allegiance = required_text(v, "allegiance")?;
        let government = required_text(v, "government")?;
        let influence = required_real(v, "influence")?;
        let influence_history = optional_timeline::<Real>(v, "influenceHistory")?;
        let happieness = optional_text(v, "happieness")?;
        let happieness_history = optional_timeline::<String>(v, "happienessHistory")?;
        let primary_state = required_text(v, "state")?;
        let primary_state_history = optional_record::<StateHistory>(v, "stateHistory")?;
        let active_states = required_list::<State>(v, "activeStates")?;
        let active_states_history = optional_record::<ActiveStatesHistory>(
            v,
            "activeStatesHistory",
        )?;
        let recovering_states = required_list::<TrendingState>(v, "recoveringStates")?;
        let recovering_states_history = optional_record::<TrendingStatesHistory>(
            v,
            "recoveringStatesHistory",
        )?;
        let pending_states = required_list::<TrendingState>(v, "pendingStates")?;
        let pending_states_history = optional_record::<TrendingStatesHistory>(
            v,
            "pendingStatesHistory",
        )?;
        let is_player = required_bool(v, "isPlayer")?;
        let last_updated = optional_u64(v, "lastUpdated")?;
        Ok(
            Faction {
                id,
                name,
                allegiance,
                government,
                influence,
                influence_history,
                happieness,
                happieness_history,
                primary_state,
                primary_state_history,
                active_states,
                active_states_history,
                recovering_states,
                recovering_states_history,
                pending_states,
                pending_states_history,
                is_player,
                last_updated,
            },
        )
    }
}


/// Whether `key` is one of the keys that a state is read from.
pub open spec fn state_reads(key: Seq<char>) -> bool {
    key == "state"@
}

impl Record for State {
    open spec fn reads(key: Seq<char>) -> bool {
        state_reads(key)
    }

    fn reads_key(key: &str) -> (r: bool) {
        same_text(key, "state")
    }
}

/// An entry under a key that a state is not read from changes nothing of what an object decodes to
/// as a state: what the service adds to its answers is passed over.
pub proof fn lemma_state_passes_over(
    entries: Seq<(Seq<char>, Json)>,
    key: Seq<char>,
    value: Json,
)
    requires
        distinct_keys(entries.push((key, value))),
        !state_reads(key),
    ensures
        State::decoded(with_entry(entries, key, value)) == State::decoded(Json::Object(entries)),
{
    lemma_get_beside_entry(entries, key, value);
}

/// Whether `key` is one of the keys that a trending state is read from.
pub open spec fn trending_state_reads(key: Seq<char>) -> bool {
    key == "state"@
        || key == "trend"@
}

impl Record for TrendingState {
    open spec fn reads(key: Seq<char>) -> bool {
        trending_state_reads(key)
    }

    fn reads_key(key: &str) -> (r: bool) {
        same_text(key, "state")
            || same_text(key, "trend")
    }
}

/// An entry under a key that a trending state is not read from changes nothing of what an object
/// decodes to as a trending state: what the service adds to its answers is passed over.
pub proof fn lemma_trending_state_passes_over(
    entries: Seq<(Seq<char>, Json)>,
    key: Seq<char>,
    value: Json,
)
    requires
        distinct_keys(entries.push((key, value))),
        !trending_state_reads(key),
    ensures
        TrendingState::decoded(with_entry(entries, key, value)) == TrendingState::decoded(
            Json::Object(entries),
        ),
{
    lemma_get_beside_entry(entries, key, value);
}

/// Whether `key` is one of the keys that a controlling faction is read from.
pub open spec fn controlling_faction_reads(key: Seq<char>) -> bool {
    key == "id"@
        || key == "name"@
        || key == "allegiance"@
        || key == "government"@
}

impl Record for ControllingFaction {
    open spec fn reads(key: Seq<char>) -> bool {
        controlling_faction_reads(key)
    }

    fn reads_key(key: &str) -> (r: bool) {
        same_text(key, "id")
            || same_text(key, "name")
            || same_text(key, "allegiance")
            || same_text(key, "government")
    }
}

/// An entry under a key that a controlling faction is not read from changes nothing of what an
/// object decodes to as a controlling faction: what the service adds to its answers is passed over.
pub proof fn lemma_controlling_faction_passes_over(
    entries: Seq<(Seq<char>, Json)>,
    key: Seq<char>,
    value: Json,
)
    requires
        distinct_keys(entries.push((key, value))),
        !controlling_faction_reads(key),
    ensures
        ControllingFaction::decoded(with_entry(entries, key, value)) == ControllingFaction::decoded(
            Json::Object(entries),
        ),
{
    lemma_get_beside_entry(entries, key, value);
}

/// Whether `key` is one of the keys that a faction is read from.
pub open spec fn faction_reads(key: Seq<char>) -> bool {
    key == "id"@
        || key == "name"@
        || key == "allegiance"@
        || key == "government"@
        || key == "influence"@
        || key == "influenceHistory"@
        || key == "happieness"@
        || key == "happienessHistory"@
        || key == "state"@
        || key == "stateHistory"@
        || key == "activeStates"@
        || key == "activeStatesHistory"@
        || key == "recoveringStates"@
        || key == "recoveringStatesHistory"@
        || key == "pendingStates"@
        || key == "pendingStatesHistory"@
        || key == "isPlayer"@
        || key == "lastUpdated"@
}

impl Record for Faction {
    open spec fn reads(key: Seq<char>) -> bool {
        faction_reads(key)
    }

    fn reads_key(key: &str) -> (r: bool) {
        same_text(key, "id")
            || same_text(key, "name")
            || same_text(key, "allegiance")
            || same_text(key, "government")
            || same_text(key, "influence")
            || same_text(key, "influenceHistory")
            || same_text(key, "happieness")
            || same_text(key, "happienessHistory")
            || same_text(key, "state")
            || same_text(key, "stateHistory")
            || same_text(key, "activeStates")
            || same_text(key, "activeStatesHistory")
            || same_text(key, "recoveringStates")
            || same_text(key, "recoveringStatesHistory")
            || same_text(key, "pendingStates")
            || same_text(key, "pendingStatesHistory")
            || same_text(key, "isPlayer")
            || same_text(key, "lastUpdated")
    }
}

/// An entry under a key that a faction is not read from changes nothing of what an object decodes
/// to as a faction: what the service adds to its answers is passed over.
pub proof fn lemma_faction_passes_over(
    entries: Seq<(Seq<char>, Json)>,
    key: Seq<char>,
    value: Json,
)
    requires
        distinct_keys(entries.push((key, value))),
        !faction_reads(key),
    ensures
        Faction::decoded(with_entry(entries, key, value)) == Faction::decoded(
            Json::Object(entries),
        ),
{
    lemma_get_beside_entry(entries, key, value);
}

} // verus!

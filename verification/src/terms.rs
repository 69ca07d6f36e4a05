//! The words in which the service describes a system: whom it sides with, how it is ruled and
//! policed, and what it lives on. The game's journal spells each of them in several ways;
//! `elite_journal` knows the spellings.

use vstd::prelude::*;
use crate::decode::Decode;
use crate::error::{invalid, outcome, unexpected, DecodeError, DecodeErrorView};
use crate::json::{same_text, tree, value_as_str, Json};

verus! {

/// The larger group that a system or a faction sides with.
#[derive(Debug, Clone, Copy, PartialEq, Eq)]
pub enum Allegiance {
    Alliance,
    Empire,
    Federation,
    Guardian,
    Independent,
    PilotsFederation,
    PlayerPilots,
    Thargoid,
    FrontlineSolutions,
    /// The journal's own `None`: nothing of the kind.
    Absent,
}

impl DeepView for Allegiance {
    type V = Allegiance;

    open spec fn deep_view(&self) -> Allegiance {
        *self
    }
}

/// The allegiance that goes by a name.
pub open spec fn allegiance_named(name: Seq<char>) -> Option<Allegiance> {
    if name == "Alliance"@ {
        Some(Allegiance::Alliance)
    } else if name == "Empire"@ {
        Some(Allegiance::Empire)
    } else if name == "Federation"@ {
        Some(Allegiance::Federation)
    } else if name == "Guardian"@ {
        Some(Allegiance::Guardian)
    } else if name == "Independent"@ {
        Some(Allegiance::Independent)
    } else if name == "PilotsFederation"@ {
        Some(Allegiance::PilotsFederation)
    } else if name == "PlayerPilots"@ {
        Some(Allegiance::PlayerPilots)
    } else if name == "Thargoid"@ {
        Some(Allegiance::Thargoid)
    } else if name == "FrontlineSolutions"@ {
        Some(Allegiance::FrontlineSolutions)
    } else if name == "None"@ {
        Some(Allegiance::Absent)
    } else {
        None
    }
}

/// The name of the allegiance that `elite_journal` reads from a document, if it reads one.
pub uninterp spec fn journal_allegiance(j: Json) -> Option<Seq<char>>;

/// `serde_json::from_value` at `elite_journal::Allegiance`, then the variant's `to_string`:
/// the name of the variant that the journal's own rules read from the document, its other
/// spellings included, or nothing where they refuse it. The result depends on the document
/// alone.
#[verifier::external_body]
pub(crate) fn journal_allegiance_name(v: &serde_json::Value) -> (r: Option<String>)
    ensures
        r.deep_view() == journal_allegiance(tree(*v)),
{
    match serde_json::from_value::<elite_journal::Allegiance>(v.clone()) {
        Ok(variant) => Some(variant.to_string()),
        Err(_) => None,
    }
}

impl Allegiance {
    /// The allegiance that goes by the name.
    pub fn from_name(name: &str) -> (r: Option<Allegiance>)
        ensures
            r == allegiance_named(name@),
    {
        if same_text(name, "Alliance") {
            Some(Allegiance::Alliance)
        } else if same_text(name, "Empire") {
            Some(Allegiance::Empire)
        } else if same_text(name, "Federation") {
            Some(Allegiance::Federation)
        } else if same_text(name, "Guardian") {
            Some(Allegiance::Guardian)
        } else if same_text(name, "Independent") {
            Some(Allegiance::Independent)
        } else if same_text(name, "PilotsFederation") {
            Some(Allegiance::PilotsFederation)
        } else if same_text(name, "PlayerPilots") {
            Some(Allegiance::PlayerPilots)
        } else if same_text(name, "Thargoid") {
            Some(Allegiance::Thargoid)
        } else if same_text(name, "FrontlineSolutions") {
            Some(Allegiance::FrontlineSolutions)
        } else if same_text(name, "None") {
            Some(Allegiance::Absent)
        } else {
            None
        }
    }

    /// What a document is as an allegiance, given the name that the journal's rules read from
    /// it.
    pub open spec fn decoded_with(j: Json, read: Option<Seq<char>>) -> Result<
        Allegiance,
        DecodeErrorView,
    > {
        match j.as_text() {
            None => Err(DecodeErrorView::UnexpectedShape("Allegiance"@)),
            Some(text) => match read {
                None => Err(DecodeErrorView::InvalidValue(text)),
                Some(name) => match allegiance_named(name) {
                    Some(value) => Ok(value),
                    None => Err(DecodeErrorView::InvalidValue(text)),
                },
            },
        }
    }

    /// Decides what a document is as an allegiance, given the name that the journal's rules
    /// read from it: a string that they read to a known name is that allegiance; a string that
    /// they refuse is an invalid value that carries the string; anything else has the wrong
    /// shape.
    pub fn from_reading(v: &serde_json::Value, read: Option<String>) -> (r: Result<
        Allegiance,
        DecodeError,
    >)
        ensures
            outcome(r) == Allegiance::decoded_with(tree(*v), read.deep_view()),
    {
        let text = match value_as_str(v) {
            Some(text) => text,
            None => {
                return Err(unexpected("Allegiance"));
            },
        };
        match read {
            None => Err(invalid(text)),
            Some(name) => match Allegiance::from_name(name.as_str()) {
                Some(value) => Ok(value),
                None => Err(invalid(text)),
            },
        }
    }
}

impl Decode for Allegiance {
    open spec fn decoded(j: Json) -> Result<Allegiance, DecodeErrorView> {
        Allegiance::decoded_with(j, journal_allegiance(j))
    }

    open spec fn wf(&self) -> bool {
        true
    }

    fn from_value(v: &serde_json::Value) -> (r: Result<Allegiance, DecodeError>) {
        Allegiance::from_reading(v, journal_allegiance_name(v))
    }
}

/// How a system or a faction is ruled.
#[derive(Debug, Clone, Copy, PartialEq, Eq)]
pub enum Government {
    Anarchy,
    Communism,
    Confederacy,
    Cooperative,
    Corporate,
    Democracy,
    Dictatorship,
    Feudal,
    Patronage,
    Prison,
    PrisonColony,
    Theocracy,
    Engineer,
    Carrier,
    Megaconstruction,
    /// The journal's own `None`: nothing of the kind.
    Absent,
}

impl DeepView for Government {
    type V = Government;

    open spec fn deep_view(&self) -> Government {
        *self
    }
}

/// The government that goes by a name.
pub open spec fn government_named(name: Seq<char>) -> Option<Government> {
    if name == "Anarchy"@ {
        Some(Government::Anarchy)
    } else if name == "Communism"@ {
        Some(Government::Communism)
    } else if name == "Confederacy"@ {
        Some(Government::Confederacy)
    } else if name == "Cooperative"@ {
        Some(Government::Cooperative)
    } else if name == "Corporate"@ {
        Some(Government::Corporate)
    } else if name == "Democracy"@ {
        Some(Government::Democracy)
    } else if name == "Dictatorship"@ {
        Some(Government::Dictatorship)
    } else if name == "Feudal"@ {
        Some(Government::Feudal)
    } else if name == "Patronage"@ {
        Some(Government::Patronage)
    } else if name == "Prison"@ {
        Some(Government::Prison)
    } else if name == "PrisonColony"@ {
        Some(Government::PrisonColony)
    } else if name == "Theocracy"@ {
        Some(Government::Theocracy)
    } else if name == "Engineer"@ {
        Some(Government::Engineer)
    } else if name == "Carrier"@ {
        Some(Government::Carrier)
    } else if name == "Megaconstruction"@ {
        Some(Government::Megaconstruction)
    } else if name == "None"@ {
        Some(Government::Absent)
    } else {
        None
    }
}

/// The name of the government that `elite_journal` reads from a document, if it reads one.
pub uninterp spec fn journal_government(j: Json) -> Option<Seq<char>>;

/// `serde_json::from_value` at `elite_journal::Government`, then the variant's `to_string`:
/// the name of the variant that the journal's own rules read from the document, its other
/// spellings included, or nothing where they refuse it. The result depends on the document
/// alone.
#[verifier::external_body]
pub(crate) fn journal_government_name(v: &serde_json::Value) -> (r: Option<String>)
    ensures
        r.deep_view() == journal_government(tree(*v)),
{
    match serde_json::from_value::<elite_journal::Government>(v.clone()) {
        Ok(variant) => Some(variant.to_string()),
        Err(_) => None,
    }
}

impl Government {
    /// The government that goes by the name.
    pub fn from_name(name: &str) -> (r: Option<Government>)
        ensures
            r == government_named(name@),
    {
        if same_text(name, "Anarchy") {
            Some(Government::Anarchy)
        } else if same_text(name, "Communism") {
            Some(Government::Communism)
        } else if same_text(name, "Confederacy") {
            Some(Government::Confederacy)
        } else if same_text(name, "Cooperative") {
            Some(Government::Cooperative)
        } else if same_text(name, "Corporate") {
            Some(Government::Corporate)
        } else if same_text(name, "Democracy") {
            Some(Government::Democracy)
        } else if same_text(name, "Dictatorship") {
            Some(Government::Dictatorship)
        } else if same_text(name, "Feudal") {
            Some(Government::Feudal)
        } else if same_text(name, "Patronage") {
            Some(Government::Patronage)
        } else if same_text(name, "Prison") {
            Some(Government::Prison)
        } else if same_text(name, "PrisonColony") {
            Some(Government::PrisonColony)
        } else if same_text(name, "Theocracy") {
            Some(Government::Theocracy)
        } else if same_text(name, "Engineer") {
            Some(Government::Engineer)
        } else if same_text(name, "Carrier") {
            Some(Government::Carrier)
        } else if same_text(name, "Megaconstruction") {
            Some(Government::Megaconstruction)
        } else if same_text(name, "None") {
            Some(Government::Absent)
        } else {
            None
        }
    }

    /// What a document is as a government, given the name that the journal's rules read from
    /// it.
    pub open spec fn decoded_with(j: Json, read: Option<Seq<char>>) -> Result<
        Government,
        DecodeErrorView,
    > {
        match j.as_text() {
            None => Err(DecodeErrorView::UnexpectedShape("Government"@)),
            Some(text) => match read {
                None => Err(DecodeErrorView::InvalidValue(text)),
                Some(name) => match government_named(name) {
                    Some(value) => Ok(value),
                    None => Err(DecodeErrorView::InvalidValue(text)),
                },
            },
        }
    }

    /// Decides what a document is as a government, given the name that the journal's rules
    /// read from it: a string that they read to a known name is that government; a string that
    /// they refuse is an invalid value that carries the string; anything else has the wrong
    /// shape.
    pub fn from_reading(v: &serde_json::Value, read: Option<String>) -> (r: Result<
        Government,
        DecodeError,
    >)
        ensures
            outcome(r) == Government::decoded_with(tree(*v), read.deep_view()),
    {
        let text = match value_as_str(v) {
            Some(text) => text,
            None => {
                return Err(unexpected("Government"));
            },
        };
        match read {
            None => Err(invalid(text)),
            Some(name) => match Government::from_name(name.as_str()) {
                Some(value) => Ok(value),
                None => Err(invalid(text)),
            },
        }
    }
}

impl Decode for Government {
    open spec fn decoded(j: Json) -> Result<Government, DecodeErrorView> {
        Government::decoded_with(j, journal_government(j))
    }

    open spec fn wf(&self) -> bool {
        true
    }

    fn from_value(v: &serde_json::Value) -> (r: Result<Government, DecodeError>) {
        Government::from_reading(v, journal_government_name(v))
    }
}

/// How well a system is policed.
#[derive(Debug, Clone, Copy, PartialEq, Eq)]
pub enum Security {
    High,
    Medium,
    Low,
    Anarchy,
    /// The journal's own `None`: nothing of the kind.
    Absent,
}

impl DeepView for Security {
    type V = Security;

    open spec fn deep_view(&self) -> Security {
        *self
    }
}

/// The security that goes by a name.
pub open spec fn security_named(name: Seq<char>) -> Option<Security> {
    if name == "High"@ {
        Some(Security::High)
    } else if name == "Medium"@ {
        Some(Security::Medium)
    } else if name == "Low"@ {
        Some(Security::Low)
    } else if name == "Anarchy"@ {
        Some(Security::Anarchy)
    } else if name == "None"@ {
        Some(Security::Absent)
    } else {
        None
    }
}

/// The name of the security that `elite_journal` reads from a document, if it reads one.
pub uninterp spec fn journal_security(j: Json) -> Option<Seq<char>>;

/// `serde_json::from_value` at `elite_journal::system::Security`, then the variant's `to_string`:
/// the name of the variant that the journal's own rules read from the document, its other
/// spellings included, or nothing where they refuse it. The result depends on the document
/// alone.
#[verifier::external_body]
pub(crate) fn journal_security_name(v: &serde_json::Value) -> (r: Option<String>)
    ensures
        r.deep_view() == journal_security(tree(*v)),
{
    match serde_json::from_value::<elite_journal::system::Security>(v.clone()) {
        Ok(variant) => Some(variant.to_string()),
        Err(_) => None,
    }
}

impl Security {
    /// The security that goes by the name.
    pub fn from_name(name: &str) -> (r: Option<Security>)
        ensures
            r == security_named(name@),
    {
        if same_text(name, "High") {
            Some(Security::High)
        } else if same_text(name, "Medium") {
            Some(Security::Medium)
        } else if same_text(name, "Low") {
            Some(Security::Low)
        } else if same_text(name, "Anarchy") {
            Some(Security::Anarchy)
        } else if same_text(name, "None") {
            Some(Security::Absent)
        } else {
            None
        }
    }

    /// What a document is as a security, given the name that the journal's rules read from
    /// it.
    pub open spec fn decoded_with(j: Json, read: Option<Seq<char>>) -> Result<
        Security,
        DecodeErrorView,
    > {
        match j.as_text() {
            None => Err(DecodeErrorView::UnexpectedShape("Security"@)),
            Some(text) => match read {
                None => Err(DecodeErrorView::InvalidValue(text)),
                Some(name) => match security_named(name) {
                    Some(value) => Ok(value),
                    None => Err(DecodeErrorView::InvalidValue(text)),
                },
            },
        }
    }

    /// Decides what a document is as a security, given the name that the journal's rules
    /// read from it: a string that they read to a known name is that security; a string that
    /// they refuse is an invalid value that carries the string; anything else has the wrong
    /// shape.
    pub fn from_reading(v: &serde_json::Value, read: Option<String>) -> (r: Result<
        Security,
        DecodeError,
    >)
        ensures
            outcome(r) == Security::decoded_with(tree(*v), read.deep_view()),
    {
        let text = match value_as_str(v) {
            Some(text) => text,
            None => {
                return Err(unexpected("Security"));
            },
        };
        match read {
            None => Err(invalid(text)),
            Some(name) => match Security::from_name(name.as_str()) {
                Some(value) => Ok(value),
                None => Err(invalid(text)),
            },
        }
    }
}

impl Decode for Security {
    open spec fn decoded(j: Json) -> Result<Security, DecodeErrorView> {
        Security::decoded_with(j, journal_security(j))
    }

    open spec fn wf(&self) -> bool {
        true
    }

    fn from_value(v: &serde_json::Value) -> (r: Result<Security, DecodeError>) {
        Security::from_reading(v, journal_security_name(v))
    }
}

/// What a system lives on.
#[derive(Debug, Clone, Copy, PartialEq, Eq)]
pub enum Economy {
    Agriculture,
    Colony,
    Extraction,
    HighTech,
    Industrial,
    Military,
    Refinery,
    Service,
    Terraforming,
    Tourism,
    Carrier,
    Prison,
    Rescue,
    Undefined,
    /// The journal's own `None`: nothing of the kind.
    Absent,
}

impl DeepView for Economy {
    type V = Economy;

    open spec fn deep_view(&self) -> Economy {
        *self
    }
}

/// The economy that goes by a name.
pub open spec fn economy_named(name: Seq<char>) -> Option<Economy> {
    if name == "Agriculture"@ {
        Some(Economy::Agriculture)
    } else if name == "Colony"@ {
        Some(Economy::Colony)
    } else if name == "Extraction"@ {
        Some(Economy::Extraction)
    } else if name == "HighTech"@ {
        Some(Economy::HighTech)
    } else if name == "Industrial"@ {
        Some(Economy::Industrial)
    } else if name == "Military"@ {
        Some(Economy::Military)
    } else if name == "Refinery"@ {
        Some(Economy::Refinery)
    } else if name == "Service"@ {
        Some(Economy::Service)
    } else if name == "Terraforming"@ {
        Some(Economy::Terraforming)
    } else if name == "Tourism"@ {
        Some(Economy::Tourism)
    } else if name == "Carrier"@ {
        Some(Economy::Carrier)
    } else if name == "Prison"@ {
        Some(Economy::Prison)
    } else if name == "Rescue"@ {
        Some(Economy::Rescue)
    } else if name == "Undefined"@ {
        Some(Economy::Undefined)
    } else if name == "None"@ {
        Some(Economy::Absent)
    } else {
        None
    }
}

/// The name of the economy that `elite_journal` reads from a document, if it reads one.
pub uninterp spec fn journal_economy(j: Json) -> Option<Seq<char>>;

/// `serde_json::from_value` at `elite_journal::system::Economy`, then the variant's `to_string`:
/// the name of the variant that the journal's own rules read from the document, its other
/// spellings included, or nothing where they refuse it. The result depends on the document
/// alone.
#[verifier::external_body]
pub(crate) fn journal_economy_name(v: &serde_json::Value) -> (r: Option<String>)
    ensures
        r.deep_view() == journal_economy(tree(*v)),
{
    match serde_json::from_value::<elite_journal::system::Economy>(v.clone()) {
        Ok(variant) => Some(variant.to_string()),
        Err(_) => None,
    }
}

impl Economy {
    /// The economy that goes by the name.
    pub fn from_name(name: &str) -> (r: Option<Economy>)
        ensures
            r == economy_named(name@),
    {
        if same_text(name, "Agriculture") {
            Some(Economy::Agriculture)
        } else if same_text(name, "Colony") {
            Some(Economy::Colony)
        } else if same_text(name, "Extraction") {
            Some(Economy::Extraction)
        } else if same_text(name, "HighTech") {
            Some(Economy::HighTech)
        } else if same_text(name, "Industrial") {
            Some(Economy::Industrial)
        } else if same_text(name, "Military") {
            Some(Economy::Military)
        } else if same_text(name, "Refinery") {
            Some(Economy::Refinery)
        } else if same_text(name, "Service") {
            Some(Economy::Service)
        } else if same_text(name, "Terraforming") {
            Some(Economy::Terraforming)
        } else if same_text(name, "Tourism") {
            Some(Economy::Tourism)
        } else if same_text(name, "Carrier") {
            Some(Economy::Carrier)
        } else if same_text(name, "Prison") {
            Some(Economy::Prison)
        } else if same_text(name, "Rescue") {
            Some(Economy::Rescue)
        } else if same_text(name, "Undefined") {
            Some(Economy::Undefined)
        } else if same_text(name, "None") {
            Some(Economy::Absent)
        } else {
            None
        }
    }

    /// What a document is as an economy, given the name that the journal's rules read from
    /// it.
    pub open spec fn decoded_with(j: Json, read: Option<Seq<char>>) -> Result<
        Economy,
        DecodeErrorView,
    > {
        match j.as_text() {
            None => Err(DecodeErrorView::UnexpectedShape("Economy"@)),
            Some(text) => match read {
                None => Err(DecodeErrorView::InvalidValue(text)),
                Some(name) => match economy_named(name) {
                    Some(value) => Ok(value),
                    None => Err(DecodeErrorView::InvalidValue(text)),
                },
            },
        }
    }

    /// Decides what a document is as an economy, given the name that the journal's rules
    /// read from it: a string that they read to a known name is that economy; a string that
    /// they refuse is an invalid value that carries the string; anything else has the wrong
    /// shape.
    pub fn from_reading(v: &serde_json::Value, read: Option<String>) -> (r: Result<
        Economy,
        DecodeError,
    >)
        ensures
            outcome(r) == Economy::decoded_with(tree(*v), read.deep_view()),
    {
        let text = match value_as_str(v) {
            Some(text) => text,
            None => {
                return Err(unexpected("Economy"));
            },
        };
        match read {
            None => Err(invalid(text)),
            Some(name) => match Economy::from_name(name.as_str()) {
                Some(value) => Ok(value),
                None => Err(invalid(text)),
            },
        }
    }
}

impl Decode for Economy {
    open spec fn decoded(j: Json) -> Result<Economy, DecodeErrorView> {
        Economy::decoded_with(j, journal_economy(j))
    }

    open spec fn wf(&self) -> bool {
        true
    }

    fn from_value(v: &serde_json::Value) -> (r: Result<Economy, DecodeError>) {
        Economy::from_reading(v, journal_economy_name(v))
    }
}

} // verus!

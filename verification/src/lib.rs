//! Typed records for the EDSM star-system service, the rules that read them from JSON
//! responses, and the requests that ask for them.
//!
//! The library sends nothing and reads no file. [`api`] makes each request as an address with
//! its parameters, and says what an answer, a status with a body, means. [`system`], [`body`]
//! and [`faction`] hold the records and the rule by which each is read from a document;
//! [`decode`] holds what these rules share, and [`json`] the documents themselves, which
//! `serde_json` parses. Every rule is a specification function over the mathematical content
//! of a document, and every reader is proved to return what its rule says.
//!
//! Real numbers are kept as the bits of their doubles ([`json::Real`]), and distances are
//! given as texts in plain decimal notation.

use vstd::prelude::*;

pub mod api;
pub mod body;
pub mod decimal;
pub mod decode;
pub mod error;
pub mod faction;
pub mod json;
pub mod serde_utils;
pub mod system;
pub mod terms;

pub use self::body::{Belt, Body, Orbit};
pub use self::decode::{from_json, Decode};
pub use self::error::DecodeError;
pub use self::faction::Faction;
pub use self::system::{Coordinate, System};

use self::decode::decoded_text;
use self::error::DecodeErrorView;
use self::system::SystemView;

verus! {

/// Reads the text of a JSON document that lists systems, such as one of the service's dumps.
///
/// The text must be such a document: [`from_json`] tells whether it is, and why not.
pub fn json(text: &str) -> (list: Vec<System>)
    requires
        decoded_text::<Vec<System>>(text@) is Ok,
    ensures
        decoded_text::<Vec<System>>(text@) == Ok::<Seq<SystemView>, DecodeErrorView>(
            list.deep_view(),
        ),
        list.wf(),
{
    match from_json::<Vec<System>>(text) {
        Ok(list) => list,
        Err(_) => unreached(),
    }
}

} // verus!

//! Client logic for looking up named athletes in a public strength-sports
//! ranking database.
//!
//! The crate holds the verified core of the lookup tool: building request
//! URLs routed through a CORS relay, decoding the positional JSON payloads
//! that the ranking service answers with, and driving an ordered batch of
//! name lookups in which one name's failure never disturbs another's result.
//! Fetching bytes over the network and parsing raw JSON text are left to the
//! surrounding application, which hands each response body to this crate as
//! a [`json::JsonValue`].

pub mod api_reader;
pub mod json;
pub mod powerlifter;
pub mod url_builder;

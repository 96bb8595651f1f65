//! Records read from repository requests.
use vstd::prelude::*;

verus! {

/// A record with a required and an optional text.
#[derive(Clone, Debug)]
pub struct Other {
    pub fielda: String,
    pub fieldb: Option<String>,
}

/// A record nesting an [`Other`].
#[derive(Clone, Debug)]
pub struct Test {
    pub fielda: String,
    pub fieldb: Option<String>,
    pub fieldc: Other,
    pub fieldd: String,
}

/// The media type that asks for version 3 of the REST API.
#[derive(Clone, Copy, Debug)]
pub struct ApplicationV3Json;

} // verus!

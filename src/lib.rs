//! An image gateway's request logic: it resolves a request path to a content
//! item and an asset, reads the optional resize query, finds the asset's URI
//! in the content's metadata document, and decides the upstream addresses and
//! the HTTP status of every outcome.

use vstd::prelude::*;

pub mod document;
pub mod gateway;
pub mod params;
pub mod path;
pub mod uri;

verus! {

} // verus!

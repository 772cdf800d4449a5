//! The settings a run is made with.
use vstd::prelude::*;

verus! {

/// The credentials and the model identifier for the generation service.
/// Read once when a run starts and never changed by it.
#[derive(Clone, Debug, PartialEq, Eq)]
pub struct AppConfig {
    pub api_key: String,
    pub model: String,
}

} // verus!

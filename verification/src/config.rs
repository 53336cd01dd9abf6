//! Paths into the tuning configuration.
//!
//! The simulation's named numeric parameters (track radius, search
//! window, control speeds) live in a configuration document owned by an
//! external loader. A `ConfigPath` names one value in that document —
//! a chain of object keys and array indices — together with the type
//! the consumer expects; the loader resolves the path and hands the
//! plain value over.

use vstd::prelude::*;

verus! {

/// The type a consumer expects a configuration value to have.
#[derive(Clone, Copy, Debug, PartialEq, Eq, Structural)]
pub enum ConfigType {
    /// An unsigned integer.
    Int,
    /// A floating-point number.
    Float,
    /// A text value.
    String,
}

/// One step of a path: an object key or an array index.
#[derive(Debug)]
pub enum ConfigPathElem {
    Key(String),
    Index(usize),
}

/// A path to one value in the configuration document, with the type
/// the consumer expects there.
#[derive(Debug)]
pub struct ConfigPath {
    pub path: Vec<ConfigPathElem>,
    pub expected_type: ConfigType,
}

impl ConfigPath {
    /// A path from its steps.
    pub fn new(path: Vec<ConfigPathElem>, expected_type: ConfigType) -> (r: ConfigPath)
        ensures
            r.path == path,
            r.expected_type == expected_type,
    {
        ConfigPath { path, expected_type }
    }

    /// The common one-step path: a single top-level key.
    pub fn key(key: &str, expected_type: ConfigType) -> (r: ConfigPath)
        ensures
            r.path@.len() == 1,
            r.path@[0] matches ConfigPathElem::Key(k) && k@ == key@,
            r.expected_type == expected_type,
    {
        let mut path: Vec<ConfigPathElem> = Vec::new();
        path.push(ConfigPathElem::Key(key.to_owned()));
        ConfigPath { path, expected_type }
    }
}

} // verus!

use vstd::prelude::*;

verus! {

/// A per-plugin fact: the plugin's name and whether it is installed.
///
/// Owned by the configuration collaborator; the checks only read it.
#[derive(Debug)]
pub struct PluginStatus {
    pub name: String,
    pub installed: bool,
}

/// Read-only view of the manager's resolved state at invocation time.
///
/// `plugins` keeps the configuration's discovery order, which is also the
/// order the per-plugin checks run in. `summary` is the renderable form of
/// the configuration, produced upstream and treated as opaque text here.
#[derive(Debug)]
pub struct ConfigSnapshot {
    pub plugins: Vec<PluginStatus>,
    pub activated: bool,
    pub summary: String,
}

/// One environment variable, as captured upstream in enumeration order.
#[derive(Debug)]
pub struct EnvVarEntry {
    pub key: String,
    pub value: String,
}

} // verus!

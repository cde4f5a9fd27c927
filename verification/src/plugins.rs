//! The built-in plugin scaffolding: metadata for registered plugins and
//! the default registration hooks.  Loading external plugins is not
//! implemented; the hooks succeed without doing anything.

use vstd::prelude::*;

use crate::errors::AppError;

verus! {

/// Plugin metadata.
#[derive(Debug)]
pub struct PluginMetadata {
    /// Plugin name
    pub name: String,
    /// Plugin version
    pub version: String,
    /// Plugin author
    pub author: String,
    /// Plugin description
    pub description: String,
    /// Plugin dependencies
    pub dependencies: Vec<String>,
}

/// Basic built-in plugins for the application.
#[derive(Debug)]
pub struct BuiltInPlugins;

impl BuiltInPlugins {
    /// Initialize the built-in plugins.  There are none yet, so this
    /// always succeeds.
    pub fn initialize() -> (r: Result<(), AppError>)
        ensures
            r is Ok,
    {
        Ok(())
    }
}

/// Register the default built-in plugins.  There are none yet, so this
/// always succeeds.
pub fn register_defaults() -> (r: Result<(), AppError>)
    ensures
        r is Ok,
{
    Ok(())
}

} // verus!

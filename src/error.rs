use vstd::prelude::*;

verus! {

/// Everything that can go wrong while loading, using or unloading a handler.
#[derive(Debug, Clone, PartialEq, Eq)]
pub enum PluginError {
    /// The module file could not be found or opened.
    ModuleLoadError(String),
    /// The module does not export the construction function.
    SymbolNotFound(String),
    /// The module could not be released.
    ModuleCloseError(String),
    /// A handler's one-time state was already set.
    AlreadyInitialized,
    /// A handler is already loaded; unload it first.
    AlreadyLoaded,
    /// No handler is loaded.
    NotLoaded,
    /// An error raised by a handler implementation.
    Custom(String),
}

} // verus!

use vstd::prelude::*;
use crate::hooks::HookKind;

verus! {

/// A declared hook's callable could not be bound at construction time.
/// Fatal to plugin instantiation; carries the plugin name and the
/// offending hook.
#[derive(Clone, Debug)]
pub struct ConfigurationError {
    pub plugin: String,
    pub hook: HookKind,
}

/// An invoked callback failed, or the boundary itself failed while
/// crossing for it. The payload keeps the plugin name, the hook that
/// was running, the module id when one was in play, and the original
/// diagnostic message: a callback failure is re-expressed, never
/// swallowed or made opaque.
#[derive(Clone, Debug)]
pub struct BuildError {
    pub plugin: String,
    pub hook: HookKind,
    pub id: Option<String>,
    pub message: String,
}

impl BuildError {
    /// Translates one callback failure into the pipeline's error
    /// domain, tagging it with its origin.
    pub fn from_callback_failure(
        plugin: &String,
        hook: HookKind,
        id: Option<String>,
        message: String,
    ) -> (e: BuildError)
        ensures
            e.plugin@ == plugin@,
            e.hook == hook,
            e.id == id,
            e.message == message,
    {
        BuildError { plugin: plugin.clone(), hook, id, message }
    }

    /// The name of the hook the failure came from, for diagnostics.
    pub fn hook_name(&self) -> (r: String)
        ensures
            r@ == self.hook.spec_name(),
    {
        self.hook.name()
    }
}

} // verus!

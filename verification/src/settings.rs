//! The Bottlerocket settings plugin: the host side's loader.

use vstd::prelude::*;

use crate::loader::{
    after_open, library_file, library_file_name, next_step, outcome_view, LoadState,
    LoadStateView, LoadStep,
};

verus! {

/// The name of the root module that a Bottlerocket settings plugin exports,
/// which also names its library file.
pub const ROOT_MODULE_NAME: &'static str = "settings";

/// The interface that Bottlerocket settings values offer across the plugin
/// boundary: they can be defaulted, compared, cloned, printed, and turned
/// into JSON and back.
pub struct BottlerocketSettingsInterface;

/// Decides when the Bottlerocket settings plugin library is opened and what
/// is reported; it keeps the outcome of the first attempt to open it.
pub struct BottlerocketSettingsPluginLoader {
    state: LoadState,
}

impl View for BottlerocketSettingsPluginLoader {
    type V = LoadStateView;

    closed spec fn view(&self) -> LoadStateView {
        self.state@
    }
}

/// The library file of the Bottlerocket settings plugin.
pub open spec fn plugin_file() -> Seq<char> {
    library_file(ROOT_MODULE_NAME@)
}

impl BottlerocketSettingsPluginLoader {
    /// A loader that has not tried to open the library yet.
    pub fn new() -> (loader: Self)
        ensures
            loader@ == LoadStateView::Unloaded,
    {
        BottlerocketSettingsPluginLoader { state: LoadState::Unloaded }
    }

    /// What to do on a request to load the plugin: open its library if no
    /// attempt was made yet, else report the kept failure, if it is one.
    pub fn load(&self) -> (step: LoadStep)
        ensures
            step@ == next_step(self@, plugin_file()),
    {
        self.state.next_step(library_file_name(ROOT_MODULE_NAME))
    }

    /// Keeps the outcome of opening the library, unless an outcome is kept
    /// already, and says what is then to be done for the request.
    pub fn opened(&mut self, outcome: Result<(), String>) -> (step: LoadStep)
        ensures
            final(self)@ == after_open(old(self)@, outcome_view(outcome)),
            step@ == next_step(final(self)@, plugin_file()),
    {
        self.state.record(outcome);
        self.state.next_step(library_file_name(ROOT_MODULE_NAME))
    }

    /// Whether the plugin's root module is available.
    pub fn is_loaded(&self) -> (res: bool)
        ensures
            res == (self@ is Loaded),
    {
        match self.state {
            LoadState::Loaded => true,
            _ => false,
        }
    }
}

} // verus!

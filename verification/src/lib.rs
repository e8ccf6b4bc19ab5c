//! Settings plugins: deciding when a settings plugin library is opened and
//! what is reported, and the code that the settings derives expand to.

pub mod derive_input;
pub mod expansion;
pub mod expansion_laws;
pub mod loader;
pub mod opaque;
pub mod settings;

# bottlerocket-settings-plugin

Verified core of Bottlerocket's settings plugins.

- `src/loader.rs`: when the plugin library `lib<name>.so` is opened (at most
  once per process) and what is reported when opening it failed, with the
  laws that govern those decisions.
- `src/settings.rs`, `src/opaque.rs`: the loaders of the Bottlerocket and the
  opaque settings plugins, and their bare interface types.
- `src/derive_input.rs`, `src/expansion.rs`: the code that the
  `SettingsPlugin`, `Opaque` and `LinearlyMigrateable` derives expand to,
  read from an item's source text with `syn`.
- `app/`: the `abi_stable` root modules, the erased settings types, JSON
  (de)serialization through `serde_json`, and the derive entry points on
  `proc_macro2` token streams.

//! Laws of the derive expansions, stated over the template texts: each
//! expansion is its whole template with the item's name in the holes, the
//! text outside the holes does not depend on the name, and the code says
//! what a settings plugin (or a single-version settings model) needs.

use vstd::prelude::*;

use crate::expansion::{
    no_migration_expansion, opaque_expansion, settings_plugin_expansion, NO_MIGRATION_PART_0,
    NO_MIGRATION_PART_1, OPAQUE_PART_0, OPAQUE_PART_1, OPAQUE_PART_2, OPAQUE_PART_3,
    SETTINGS_PLUGIN_PART_0, SETTINGS_PLUGIN_PART_1, SETTINGS_PLUGIN_PART_2, SETTINGS_PLUGIN_PART_3,
};

verus! {

/// The `SettingsPlugin` expansion is its whole template: the four template texts,
/// each used entire and in order, with the name in each of the three holes.
pub proof fn law_settings_expansion_is_whole_template(ident: Seq<char>)
    ensures
        settings_plugin_expansion(ident) == SETTINGS_PLUGIN_PART_0@ + ident + SETTINGS_PLUGIN_PART_1@ + ident + SETTINGS_PLUGIN_PART_2@ + ident
            + SETTINGS_PLUGIN_PART_3@,
{
}

/// Only the holes of the `SettingsPlugin` expansion depend on the name: for any two
/// names the expansions agree on every template text between the holes,
/// each hole holds its name, and the lengths differ by three times the
/// difference of the names' lengths.
pub proof fn law_settings_expansion_fixed_outside_name(a: Seq<char>, b: Seq<char>)
    ensures
        settings_plugin_expansion(a).len() - 3 * a.len() == settings_plugin_expansion(b).len() - 3 * b.len(),
        settings_plugin_expansion(a).subrange(0, SETTINGS_PLUGIN_PART_0@.len() as int) == settings_plugin_expansion(b).subrange(0, SETTINGS_PLUGIN_PART_0@.len() as int),
        settings_plugin_expansion(a).subrange(SETTINGS_PLUGIN_PART_0@.len() as int, (SETTINGS_PLUGIN_PART_0@.len() + a.len()) as int) == a,
        settings_plugin_expansion(a).subrange((SETTINGS_PLUGIN_PART_0@.len() + a.len()) as int, (SETTINGS_PLUGIN_PART_0@.len() + a.len() + SETTINGS_PLUGIN_PART_1@.len()) as int)
            == settings_plugin_expansion(b).subrange((SETTINGS_PLUGIN_PART_0@.len() + b.len()) as int, (SETTINGS_PLUGIN_PART_0@.len() + b.len() + SETTINGS_PLUGIN_PART_1@.len()) as int),
        settings_plugin_expansion(a).subrange(settings_plugin_expansion(a).len() - SETTINGS_PLUGIN_PART_3@.len(), settings_plugin_expansion(a).len() as int)
            == settings_plugin_expansion(b).subrange(settings_plugin_expansion(b).len() - SETTINGS_PLUGIN_PART_3@.len(), settings_plugin_expansion(b).len() as int),
{
    let ea = settings_plugin_expansion(a);
    let eb = settings_plugin_expansion(b);
    assert(ea.subrange(0, SETTINGS_PLUGIN_PART_0@.len() as int) =~= SETTINGS_PLUGIN_PART_0@);
    assert(eb.subrange(0, SETTINGS_PLUGIN_PART_0@.len() as int) =~= SETTINGS_PLUGIN_PART_0@);
    assert(ea.subrange(SETTINGS_PLUGIN_PART_0@.len() as int, (SETTINGS_PLUGIN_PART_0@.len() + a.len()) as int) =~= a);
    assert(ea.subrange((SETTINGS_PLUGIN_PART_0@.len() + a.len()) as int, (SETTINGS_PLUGIN_PART_0@.len() + a.len() + SETTINGS_PLUGIN_PART_1@.len()) as int) =~= SETTINGS_PLUGIN_PART_1@);
    assert(eb.subrange((SETTINGS_PLUGIN_PART_0@.len() + b.len()) as int, (SETTINGS_PLUGIN_PART_0@.len() + b.len() + SETTINGS_PLUGIN_PART_1@.len()) as int) =~= SETTINGS_PLUGIN_PART_1@);
    assert(ea.subrange(ea.len() - SETTINGS_PLUGIN_PART_3@.len(), ea.len() as int) =~= SETTINGS_PLUGIN_PART_3@);
    assert(eb.subrange(eb.len() - SETTINGS_PLUGIN_PART_3@.len(), eb.len() as int) =~= SETTINGS_PLUGIN_PART_3@);
}

/// How the `SettingsPlugin` expansion goes on after its impl header and the name: the settings interface it serializes through.
pub const SETTINGS_PLUGIN_INTERFACE: &'static str = " {\ntype Interface = bottlerocket_settings_plugin::BottlerocketSettingsInterface;";

/// The `SettingsPlugin` expansion opens with the `SerializeType` impl for the named
/// struct, serializing through the plugin's settings interface.
pub proof fn law_settings_implements_serialize_type(ident: Seq<char>)
    ensures
        settings_plugin_expansion(ident).subrange(0, (SETTINGS_PLUGIN_PART_0@.len() + ident.len() + SETTINGS_PLUGIN_INTERFACE@.len()) as int)
            == SETTINGS_PLUGIN_PART_0@ + ident + SETTINGS_PLUGIN_INTERFACE@,
{
    reveal_strlit(" {\ntype Interface = bottlerocket_settings_plugin::BottlerocketSettingsInterface;\nfn serialize_impl(&'a self) -> Result<abi_stable::external_types::RawValueBox, abi_stable::std_types::RBoxError> {\nbottlerocket_settings_plugin::serialize_json(self)\n}\n}\n#[abi_stable::sabi_extern_fn]\nfn deserialize_settings(s: abi_stable::std_types::RStr<'_>) -> abi_stable::std_types::RResult<bottlerocket_settings_plugin::BottlerocketSettings, abi_stable::std_types::RBoxError> {\nabi_stable::extern_fn_panic_handling! {\nbottlerocket_settings_plugin::deserialize_json::<");
    reveal_strlit(" {\ntype Interface = bottlerocket_settings_plugin::BottlerocketSettingsInterface;");
    let e = settings_plugin_expansion(ident);
    assert(SETTINGS_PLUGIN_PART_1@.subrange(0, SETTINGS_PLUGIN_INTERFACE@.len() as int) =~= SETTINGS_PLUGIN_INTERFACE@);
    assert(e.subrange(0, (SETTINGS_PLUGIN_PART_0@.len() + ident.len() + SETTINGS_PLUGIN_INTERFACE@.len()) as int) =~= SETTINGS_PLUGIN_PART_0@ + ident
        + SETTINGS_PLUGIN_INTERFACE@);
}

/// The text before the name in the `SettingsPlugin` entry that deserializes settings JSON into the named struct.
pub const SETTINGS_PLUGIN_DESERIALIZE_BEFORE_NAME: &'static str = "bottlerocket_settings_plugin::deserialize_json::<";

/// The text after the name in the `SettingsPlugin` entry that deserializes settings JSON into the named struct.
pub const SETTINGS_PLUGIN_DESERIALIZE_AFTER_NAME: &'static str = ">(s).map(abi_stable::DynTrait::from_value)";

/// The `SettingsPlugin` expansion has an entry that deserializes settings JSON into the named struct.
pub proof fn law_settings_deserialize_names_the_struct(ident: Seq<char>)
    ensures
        exists|i: int|
            0 <= i && i + (SETTINGS_PLUGIN_DESERIALIZE_BEFORE_NAME@ + ident + SETTINGS_PLUGIN_DESERIALIZE_AFTER_NAME@).len() <= settings_plugin_expansion(ident).len()
                && #[trigger] settings_plugin_expansion(ident).subrange(i, i + (SETTINGS_PLUGIN_DESERIALIZE_BEFORE_NAME@ + ident + SETTINGS_PLUGIN_DESERIALIZE_AFTER_NAME@).len())
                == SETTINGS_PLUGIN_DESERIALIZE_BEFORE_NAME@ + ident + SETTINGS_PLUGIN_DESERIALIZE_AFTER_NAME@,
{
    reveal_strlit(" {\ntype Interface = bottlerocket_settings_plugin::BottlerocketSettingsInterface;\nfn serialize_impl(&'a self) -> Result<abi_stable::external_types::RawValueBox, abi_stable::std_types::RBoxError> {\nbottlerocket_settings_plugin::serialize_json(self)\n}\n}\n#[abi_stable::sabi_extern_fn]\nfn deserialize_settings(s: abi_stable::std_types::RStr<'_>) -> abi_stable::std_types::RResult<bottlerocket_settings_plugin::BottlerocketSettings, abi_stable::std_types::RBoxError> {\nabi_stable::extern_fn_panic_handling! {\nbottlerocket_settings_plugin::deserialize_json::<");
    reveal_strlit(">(s).map(abi_stable::DynTrait::from_value)\n}\n}\n#[abi_stable::sabi_extern_fn]\nfn default_settings() -> bottlerocket_settings_plugin::BottlerocketSettings {\nabi_stable::extern_fn_panic_handling! {\nabi_stable::DynTrait::from_value(");
    reveal_strlit("bottlerocket_settings_plugin::deserialize_json::<");
    reveal_strlit(">(s).map(abi_stable::DynTrait::from_value)");
    let e = settings_plugin_expansion(ident);
    let before = SETTINGS_PLUGIN_PART_0@ + ident;
    let i: int = before.len() + SETTINGS_PLUGIN_PART_1@.len() - SETTINGS_PLUGIN_DESERIALIZE_BEFORE_NAME@.len();
    assert(SETTINGS_PLUGIN_PART_1@.subrange(SETTINGS_PLUGIN_PART_1@.len() - SETTINGS_PLUGIN_DESERIALIZE_BEFORE_NAME@.len(), SETTINGS_PLUGIN_PART_1@.len() as int) =~= SETTINGS_PLUGIN_DESERIALIZE_BEFORE_NAME@);
    assert(SETTINGS_PLUGIN_PART_2@.subrange(0, SETTINGS_PLUGIN_DESERIALIZE_AFTER_NAME@.len() as int) =~= SETTINGS_PLUGIN_DESERIALIZE_AFTER_NAME@);
    assert(e.subrange(i, i + (SETTINGS_PLUGIN_DESERIALIZE_BEFORE_NAME@ + ident + SETTINGS_PLUGIN_DESERIALIZE_AFTER_NAME@).len()) =~= SETTINGS_PLUGIN_DESERIALIZE_BEFORE_NAME@ + ident + SETTINGS_PLUGIN_DESERIALIZE_AFTER_NAME@);
}

/// The text before the name in the `SettingsPlugin` entry that makes the default settings from the named struct's `Default`.
pub const SETTINGS_PLUGIN_DEFAULT_BEFORE_NAME: &'static str = "abi_stable::DynTrait::from_value(";

/// The text after the name in the `SettingsPlugin` entry that makes the default settings from the named struct's `Default`.
pub const SETTINGS_PLUGIN_DEFAULT_AFTER_NAME: &'static str = "::default())";

/// The `SettingsPlugin` expansion has an entry that makes the default settings from the named struct's `Default`.
pub proof fn law_settings_default_names_the_struct(ident: Seq<char>)
    ensures
        exists|i: int|
            0 <= i && i + (SETTINGS_PLUGIN_DEFAULT_BEFORE_NAME@ + ident + SETTINGS_PLUGIN_DEFAULT_AFTER_NAME@).len() <= settings_plugin_expansion(ident).len()
                && #[trigger] settings_plugin_expansion(ident).subrange(i, i + (SETTINGS_PLUGIN_DEFAULT_BEFORE_NAME@ + ident + SETTINGS_PLUGIN_DEFAULT_AFTER_NAME@).len())
                == SETTINGS_PLUGIN_DEFAULT_BEFORE_NAME@ + ident + SETTINGS_PLUGIN_DEFAULT_AFTER_NAME@,
{
    reveal_strlit(">(s).map(abi_stable::DynTrait::from_value)\n}\n}\n#[abi_stable::sabi_extern_fn]\nfn default_settings() -> bottlerocket_settings_plugin::BottlerocketSettings {\nabi_stable::extern_fn_panic_handling! {\nabi_stable::DynTrait::from_value(");
    reveal_strlit("::default())\n}\n}\n#[abi_stable::export_root_module]\nfn get_library() -> bottlerocket_settings_plugin::BottlerocketSettingsPluginRef {\nabi_stable::prefix_type::PrefixTypeTrait::leak_into_prefix(\nbottlerocket_settings_plugin::BottlerocketSettingsPlugin {\ndefault_settings,\ndeserialize_settings,\n})\n}\n");
    reveal_strlit("abi_stable::DynTrait::from_value(");
    reveal_strlit("::default())");
    let e = settings_plugin_expansion(ident);
    let before = SETTINGS_PLUGIN_PART_0@ + ident + SETTINGS_PLUGIN_PART_1@ + ident;
    let i: int = before.len() + SETTINGS_PLUGIN_PART_2@.len() - SETTINGS_PLUGIN_DEFAULT_BEFORE_NAME@.len();
    assert(SETTINGS_PLUGIN_PART_2@.subrange(SETTINGS_PLUGIN_PART_2@.len() - SETTINGS_PLUGIN_DEFAULT_BEFORE_NAME@.len(), SETTINGS_PLUGIN_PART_2@.len() as int) =~= SETTINGS_PLUGIN_DEFAULT_BEFORE_NAME@);
    assert(SETTINGS_PLUGIN_PART_3@.subrange(0, SETTINGS_PLUGIN_DEFAULT_AFTER_NAME@.len() as int) =~= SETTINGS_PLUGIN_DEFAULT_AFTER_NAME@);
    assert(e.subrange(i, i + (SETTINGS_PLUGIN_DEFAULT_BEFORE_NAME@ + ident + SETTINGS_PLUGIN_DEFAULT_AFTER_NAME@).len()) =~= SETTINGS_PLUGIN_DEFAULT_BEFORE_NAME@ + ident + SETTINGS_PLUGIN_DEFAULT_AFTER_NAME@);
}

/// The end of the `SettingsPlugin` expansion: the exported root module, made with both the default-settings and the deserialize-settings entries.
pub const SETTINGS_PLUGIN_ROOT_MODULE: &'static str = "#[abi_stable::export_root_module]\nfn get_library() -> bottlerocket_settings_plugin::BottlerocketSettingsPluginRef {\nabi_stable::prefix_type::PrefixTypeTrait::leak_into_prefix(\nbottlerocket_settings_plugin::BottlerocketSettingsPlugin {\ndefault_settings,\ndeserialize_settings,\n})\n}\n";

/// The `SettingsPlugin` expansion ends with the exported root module of the plugin,
/// whose entries are both `default_settings` and `deserialize_settings`.
pub proof fn law_settings_exports_root_module(ident: Seq<char>)
    ensures
        settings_plugin_expansion(ident).len() >= SETTINGS_PLUGIN_ROOT_MODULE@.len(),
        settings_plugin_expansion(ident).subrange(settings_plugin_expansion(ident).len() - SETTINGS_PLUGIN_ROOT_MODULE@.len(), settings_plugin_expansion(ident).len() as int) == SETTINGS_PLUGIN_ROOT_MODULE@,
{
    reveal_strlit("::default())\n}\n}\n#[abi_stable::export_root_module]\nfn get_library() -> bottlerocket_settings_plugin::BottlerocketSettingsPluginRef {\nabi_stable::prefix_type::PrefixTypeTrait::leak_into_prefix(\nbottlerocket_settings_plugin::BottlerocketSettingsPlugin {\ndefault_settings,\ndeserialize_settings,\n})\n}\n");
    reveal_strlit("#[abi_stable::export_root_module]\nfn get_library() -> bottlerocket_settings_plugin::BottlerocketSettingsPluginRef {\nabi_stable::prefix_type::PrefixTypeTrait::leak_into_prefix(\nbottlerocket_settings_plugin::BottlerocketSettingsPlugin {\ndefault_settings,\ndeserialize_settings,\n})\n}\n");
    let e = settings_plugin_expansion(ident);
    assert(SETTINGS_PLUGIN_PART_3@.subrange(SETTINGS_PLUGIN_PART_3@.len() - SETTINGS_PLUGIN_ROOT_MODULE@.len(), SETTINGS_PLUGIN_PART_3@.len() as int) =~= SETTINGS_PLUGIN_ROOT_MODULE@);
    assert(e.subrange(e.len() - SETTINGS_PLUGIN_ROOT_MODULE@.len(), e.len() as int) =~= SETTINGS_PLUGIN_ROOT_MODULE@);
}

/// The `Opaque` expansion is its whole template: the four template texts,
/// each used entire and in order, with the name in each of the three holes.
pub proof fn law_opaque_expansion_is_whole_template(ident: Seq<char>)
    ensures
        opaque_expansion(ident) == OPAQUE_PART_0@ + ident + OPAQUE_PART_1@ + ident + OPAQUE_PART_2@ + ident
            + OPAQUE_PART_3@,
{
}

/// Only the holes of the `Opaque` expansion depend on the name: for any two
/// names the expansions agree on every template text between the holes,
/// each hole holds its name, and the lengths differ by three times the
/// difference of the names' lengths.
pub proof fn law_opaque_expansion_fixed_outside_name(a: Seq<char>, b: Seq<char>)
    ensures
        opaque_expansion(a).len() - 3 * a.len() == opaque_expansion(b).len() - 3 * b.len(),
        opaque_expansion(a).subrange(0, OPAQUE_PART_0@.len() as int) == opaque_expansion(b).subrange(0, OPAQUE_PART_0@.len() as int),
        opaque_expansion(a).subrange(OPAQUE_PART_0@.len() as int, (OPAQUE_PART_0@.len() + a.len()) as int) == a,
        opaque_expansion(a).subrange((OPAQUE_PART_0@.len() + a.len()) as int, (OPAQUE_PART_0@.len() + a.len() + OPAQUE_PART_1@.len()) as int)
            == opaque_expansion(b).subrange((OPAQUE_PART_0@.len() + b.len()) as int, (OPAQUE_PART_0@.len() + b.len() + OPAQUE_PART_1@.len()) as int),
        opaque_expansion(a).subrange(opaque_expansion(a).len() - OPAQUE_PART_3@.len(), opaque_expansion(a).len() as int)
            == opaque_expansion(b).subrange(opaque_expansion(b).len() - OPAQUE_PART_3@.len(), opaque_expansion(b).len() as int),
{
    let ea = opaque_expansion(a);
    let eb = opaque_expansion(b);
    assert(ea.subrange(0, OPAQUE_PART_0@.len() as int) =~= OPAQUE_PART_0@);
    assert(eb.subrange(0, OPAQUE_PART_0@.len() as int) =~= OPAQUE_PART_0@);
    assert(ea.subrange(OPAQUE_PART_0@.len() as int, (OPAQUE_PART_0@.len() + a.len()) as int) =~= a);
    assert(ea.subrange((OPAQUE_PART_0@.len() + a.len()) as int, (OPAQUE_PART_0@.len() + a.len() + OPAQUE_PART_1@.len()) as int) =~= OPAQUE_PART_1@);
    assert(eb.subrange((OPAQUE_PART_0@.len() + b.len()) as int, (OPAQUE_PART_0@.len() + b.len() + OPAQUE_PART_1@.len()) as int) =~= OPAQUE_PART_1@);
    assert(ea.subrange(ea.len() - OPAQUE_PART_3@.len(), ea.len() as int) =~= OPAQUE_PART_3@);
    assert(eb.subrange(eb.len() - OPAQUE_PART_3@.len(), eb.len() as int) =~= OPAQUE_PART_3@);
}

/// How the `Opaque` expansion goes on after its impl header and the name: the settings interface it serializes through.
pub const OPAQUE_INTERFACE: &'static str = " {\ntype Interface = OpaqueSettingsInterface;";

/// The `Opaque` expansion opens with the `SerializeType` impl for the named
/// struct, serializing through the plugin's settings interface.
pub proof fn law_opaque_implements_serialize_type(ident: Seq<char>)
    ensures
        opaque_expansion(ident).subrange(0, (OPAQUE_PART_0@.len() + ident.len() + OPAQUE_INTERFACE@.len()) as int)
            == OPAQUE_PART_0@ + ident + OPAQUE_INTERFACE@,
{
    reveal_strlit(" {\ntype Interface = OpaqueSettingsInterface;\nfn serialize_impl(&'a self) -> Result<RawValueBox, RBoxError> {\nserialize_json(self)\n}\n}\n#[sabi_extern_fn]\nfn deserialize_settings(s: RStr<'_>) -> RResult<OpaqueSettings, RBoxError> {\nextern_fn_panic_handling! {\ndeserialize_json::<");
    reveal_strlit(" {\ntype Interface = OpaqueSettingsInterface;");
    let e = opaque_expansion(ident);
    assert(OPAQUE_PART_1@.subrange(0, OPAQUE_INTERFACE@.len() as int) =~= OPAQUE_INTERFACE@);
    assert(e.subrange(0, (OPAQUE_PART_0@.len() + ident.len() + OPAQUE_INTERFACE@.len()) as int) =~= OPAQUE_PART_0@ + ident
        + OPAQUE_INTERFACE@);
}

/// The text before the name in the `Opaque` entry that deserializes settings JSON into the named struct.
pub const OPAQUE_DESERIALIZE_BEFORE_NAME: &'static str = "deserialize_json::<";

/// The text after the name in the `Opaque` entry that deserializes settings JSON into the named struct.
pub const OPAQUE_DESERIALIZE_AFTER_NAME: &'static str = ">(s).map(DynTrait::from_value)";

/// The `Opaque` expansion has an entry that deserializes settings JSON into the named struct.
pub proof fn law_opaque_deserialize_names_the_struct(ident: Seq<char>)
    ensures
        exists|i: int|
            0 <= i && i + (OPAQUE_DESERIALIZE_BEFORE_NAME@ + ident + OPAQUE_DESERIALIZE_AFTER_NAME@).len() <= opaque_expansion(ident).len()
                && #[trigger] opaque_expansion(ident).subrange(i, i + (OPAQUE_DESERIALIZE_BEFORE_NAME@ + ident + OPAQUE_DESERIALIZE_AFTER_NAME@).len())
                == OPAQUE_DESERIALIZE_BEFORE_NAME@ + ident + OPAQUE_DESERIALIZE_AFTER_NAME@,
{
    reveal_strlit(" {\ntype Interface = OpaqueSettingsInterface;\nfn serialize_impl(&'a self) -> Result<RawValueBox, RBoxError> {\nserialize_json(self)\n}\n}\n#[sabi_extern_fn]\nfn deserialize_settings(s: RStr<'_>) -> RResult<OpaqueSettings, RBoxError> {\nextern_fn_panic_handling! {\ndeserialize_json::<");
    reveal_strlit(">(s).map(DynTrait::from_value)\n}\n}\n#[sabi_extern_fn]\nfn default_settings() -> OpaqueSettings {\nextern_fn_panic_handling! {\nDynTrait::from_value(");
    reveal_strlit("deserialize_json::<");
    reveal_strlit(">(s).map(DynTrait::from_value)");
    let e = opaque_expansion(ident);
    let before = OPAQUE_PART_0@ + ident;
    let i: int = before.len() + OPAQUE_PART_1@.len() - OPAQUE_DESERIALIZE_BEFORE_NAME@.len();
    assert(OPAQUE_PART_1@.subrange(OPAQUE_PART_1@.len() - OPAQUE_DESERIALIZE_BEFORE_NAME@.len(), OPAQUE_PART_1@.len() as int) =~= OPAQUE_DESERIALIZE_BEFORE_NAME@);
    assert(OPAQUE_PART_2@.subrange(0, OPAQUE_DESERIALIZE_AFTER_NAME@.len() as int) =~= OPAQUE_DESERIALIZE_AFTER_NAME@);
    assert(e.subrange(i, i + (OPAQUE_DESERIALIZE_BEFORE_NAME@ + ident + OPAQUE_DESERIALIZE_AFTER_NAME@).len()) =~= OPAQUE_DESERIALIZE_BEFORE_NAME@ + ident + OPAQUE_DESERIALIZE_AFTER_NAME@);
}

/// The text before the name in the `Opaque` entry that makes the default settings from the named struct's `Default`.
pub const OPAQUE_DEFAULT_BEFORE_NAME: &'static str = "DynTrait::from_value(";

/// The text after the name in the `Opaque` entry that makes the default settings from the named struct's `Default`.
pub const OPAQUE_DEFAULT_AFTER_NAME: &'static str = "::default())";

/// The `Opaque` expansion has an entry that makes the default settings from the named struct's `Default`.
pub proof fn law_opaque_default_names_the_struct(ident: Seq<char>)
    ensures
        exists|i: int|
            0 <= i && i + (OPAQUE_DEFAULT_BEFORE_NAME@ + ident + OPAQUE_DEFAULT_AFTER_NAME@).len() <= opaque_expansion(ident).len()
                && #[trigger] opaque_expansion(ident).subrange(i, i + (OPAQUE_DEFAULT_BEFORE_NAME@ + ident + OPAQUE_DEFAULT_AFTER_NAME@).len())
                == OPAQUE_DEFAULT_BEFORE_NAME@ + ident + OPAQUE_DEFAULT_AFTER_NAME@,
{
    reveal_strlit(">(s).map(DynTrait::from_value)\n}\n}\n#[sabi_extern_fn]\nfn default_settings() -> OpaqueSettings {\nextern_fn_panic_handling! {\nDynTrait::from_value(");
    reveal_strlit("::default())\n}\n}\n#[export_root_module]\npub fn get_library() -> OpaqueSettingsPluginRef {\nOpaqueSettingsPlugin {\ndefault_settings,\ndeserialize_settings,\n}\n.leak_into_prefix()\n}\n");
    reveal_strlit("DynTrait::from_value(");
    reveal_strlit("::default())");
    let e = opaque_expansion(ident);
    let before = OPAQUE_PART_0@ + ident + OPAQUE_PART_1@ + ident;
    let i: int = before.len() + OPAQUE_PART_2@.len() - OPAQUE_DEFAULT_BEFORE_NAME@.len();
    assert(OPAQUE_PART_2@.subrange(OPAQUE_PART_2@.len() - OPAQUE_DEFAULT_BEFORE_NAME@.len(), OPAQUE_PART_2@.len() as int) =~= OPAQUE_DEFAULT_BEFORE_NAME@);
    assert(OPAQUE_PART_3@.subrange(0, OPAQUE_DEFAULT_AFTER_NAME@.len() as int) =~= OPAQUE_DEFAULT_AFTER_NAME@);
    assert(e.subrange(i, i + (OPAQUE_DEFAULT_BEFORE_NAME@ + ident + OPAQUE_DEFAULT_AFTER_NAME@).len()) =~= OPAQUE_DEFAULT_BEFORE_NAME@ + ident + OPAQUE_DEFAULT_AFTER_NAME@);
}

/// The end of the `Opaque` expansion: the exported root module, made with both the default-settings and the deserialize-settings entries.
pub const OPAQUE_ROOT_MODULE: &'static str = "#[export_root_module]\npub fn get_library() -> OpaqueSettingsPluginRef {\nOpaqueSettingsPlugin {\ndefault_settings,\ndeserialize_settings,\n}\n.leak_into_prefix()\n}\n";

/// The `Opaque` expansion ends with the exported root module of the plugin,
/// whose entries are both `default_settings` and `deserialize_settings`.
pub proof fn law_opaque_exports_root_module(ident: Seq<char>)
    ensures
        opaque_expansion(ident).len() >= OPAQUE_ROOT_MODULE@.len(),
        opaque_expansion(ident).subrange(opaque_expansion(ident).len() - OPAQUE_ROOT_MODULE@.len(), opaque_expansion(ident).len() as int) == OPAQUE_ROOT_MODULE@,
{
    reveal_strlit("::default())\n}\n}\n#[export_root_module]\npub fn get_library() -> OpaqueSettingsPluginRef {\nOpaqueSettingsPlugin {\ndefault_settings,\ndeserialize_settings,\n}\n.leak_into_prefix()\n}\n");
    reveal_strlit("#[export_root_module]\npub fn get_library() -> OpaqueSettingsPluginRef {\nOpaqueSettingsPlugin {\ndefault_settings,\ndeserialize_settings,\n}\n.leak_into_prefix()\n}\n");
    let e = opaque_expansion(ident);
    assert(OPAQUE_PART_3@.subrange(OPAQUE_PART_3@.len() - OPAQUE_ROOT_MODULE@.len(), OPAQUE_PART_3@.len() as int) =~= OPAQUE_ROOT_MODULE@);
    assert(e.subrange(e.len() - OPAQUE_ROOT_MODULE@.len(), e.len() as int) =~= OPAQUE_ROOT_MODULE@);
}

/// Both migration targets of a single-version settings model: no migration.
pub const NO_MIGRATION_TARGETS: &'static str = "type ForwardMigrationTarget = bottlerocket_settings_sdk::NoMigration;\ntype BackwardMigrationTarget = bottlerocket_settings_sdk::NoMigration;\n";

/// Both migrations of a single-version settings model: each says no migration is defined.
pub const NO_MIGRATION_METHODS: &'static str = "fn migrate_forward(&self) -> Result<Self::ForwardMigrationTarget> {\nbottlerocket_settings_sdk::NoMigration::no_defined_migration()\n}\nfn migrate_backward(&self) -> Result<Self::BackwardMigrationTarget> {\nbottlerocket_settings_sdk::NoMigration::no_defined_migration()\n}\n";

/// The `LinearlyMigrateable` expansion is its whole template: the impl
/// header, the name, and the fixed body.
pub proof fn law_no_migration_expansion_is_whole_template(ident: Seq<char>)
    ensures
        no_migration_expansion(ident) == NO_MIGRATION_PART_0@ + ident + NO_MIGRATION_PART_1@,
{
}

/// The text after the name in the `LinearlyMigrateable` expansion does not
/// depend on the name: for any two names it is the same, before it stands
/// the same impl header, and in the hole stands the name.
pub proof fn law_no_migration_text_after_name_is_fixed(a: Seq<char>, b: Seq<char>)
    ensures
        no_migration_expansion(a).len() - a.len() == no_migration_expansion(b).len() - b.len(),
        no_migration_expansion(a).subrange(0, NO_MIGRATION_PART_0@.len() as int)
            == no_migration_expansion(b).subrange(0, NO_MIGRATION_PART_0@.len() as int),
        no_migration_expansion(a).subrange(
            NO_MIGRATION_PART_0@.len() as int,
            (NO_MIGRATION_PART_0@.len() + a.len()) as int,
        ) == a,
        no_migration_expansion(a).subrange(
            (NO_MIGRATION_PART_0@.len() + a.len()) as int,
            no_migration_expansion(a).len() as int,
        ) == no_migration_expansion(b).subrange(
            (NO_MIGRATION_PART_0@.len() + b.len()) as int,
            no_migration_expansion(b).len() as int,
        ),
{
    let ea = no_migration_expansion(a);
    let eb = no_migration_expansion(b);
    assert(ea.subrange(0, NO_MIGRATION_PART_0@.len() as int) =~= NO_MIGRATION_PART_0@);
    assert(eb.subrange(0, NO_MIGRATION_PART_0@.len() as int) =~= NO_MIGRATION_PART_0@);
    assert(ea.subrange(NO_MIGRATION_PART_0@.len() as int, (NO_MIGRATION_PART_0@.len() + a.len()) as int)
        =~= a);
    assert(ea.subrange((NO_MIGRATION_PART_0@.len() + a.len()) as int, ea.len() as int)
        =~= NO_MIGRATION_PART_1@);
    assert(eb.subrange((NO_MIGRATION_PART_0@.len() + b.len()) as int, eb.len() as int)
        =~= NO_MIGRATION_PART_1@);
}

/// After the name, the `LinearlyMigrateable` expansion declares both
/// migration targets to be `NoMigration` and defines both migrations as
/// having no defined migration, and nothing else.
pub proof fn law_no_migration_declares_no_migrations(ident: Seq<char>)
    ensures
        no_migration_expansion(ident) == NO_MIGRATION_PART_0@ + ident + " {\n"@
            + NO_MIGRATION_TARGETS@ + NO_MIGRATION_METHODS@ + "}\n"@,
{
    reveal_strlit(" {\ntype ForwardMigrationTarget = bottlerocket_settings_sdk::NoMigration;\ntype BackwardMigrationTarget = bottlerocket_settings_sdk::NoMigration;\nfn migrate_forward(&self) -> Result<Self::ForwardMigrationTarget> {\nbottlerocket_settings_sdk::NoMigration::no_defined_migration()\n}\nfn migrate_backward(&self) -> Result<Self::BackwardMigrationTarget> {\nbottlerocket_settings_sdk::NoMigration::no_defined_migration()\n}\n}\n");
    reveal_strlit("type ForwardMigrationTarget = bottlerocket_settings_sdk::NoMigration;\ntype BackwardMigrationTarget = bottlerocket_settings_sdk::NoMigration;\n");
    reveal_strlit("fn migrate_forward(&self) -> Result<Self::ForwardMigrationTarget> {\nbottlerocket_settings_sdk::NoMigration::no_defined_migration()\n}\nfn migrate_backward(&self) -> Result<Self::BackwardMigrationTarget> {\nbottlerocket_settings_sdk::NoMigration::no_defined_migration()\n}\n");
    reveal_strlit(" {\n");
    reveal_strlit("}\n");
    assert(NO_MIGRATION_PART_1@ =~= " {\n"@ + NO_MIGRATION_TARGETS@ + NO_MIGRATION_METHODS@ + "}\n"@);
}

} // verus!

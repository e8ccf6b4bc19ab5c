//! The code that the settings derives expand to.
//!
//! `#[derive(SettingsPlugin)]` and `#[derive(Opaque)]` turn a struct with
//! named fields into a settings plugin: its `SerializeType` impl and the
//! exported root module whose entries create the default settings and
//! deserialize settings from JSON. `#[derive(LinearlyMigrateable)]` declares
//! that a settings model has no migrations. Each expansion is source text in
//! which the deriving item's name fills the holes of a fixed template.

use vstd::prelude::*;

use crate::derive_input::{
    parse_derive_input, reads_as, syn_derive_input, DataShape, DeriveError, DeriveShape, DeriveShapeView,
};

verus! {

pub const SETTINGS_PLUGIN_PART_0: &'static str = "impl<'a> abi_stable::erased_types::SerializeType<'a> for ";

pub const SETTINGS_PLUGIN_PART_1: &'static str = " {
type Interface = bottlerocket_settings_plugin::BottlerocketSettingsInterface;
fn serialize_impl(&'a self) -> Result<abi_stable::external_types::RawValueBox, abi_stable::std_types::RBoxError> {
bottlerocket_settings_plugin::serialize_json(self)
}
}
#[abi_stable::sabi_extern_fn]
fn deserialize_settings(s: abi_stable::std_types::RStr<'_>) -> abi_stable::std_types::RResult<bottlerocket_settings_plugin::BottlerocketSettings, abi_stable::std_types::RBoxError> {
abi_stable::extern_fn_panic_handling! {
bottlerocket_settings_plugin::deserialize_json::<";

pub const SETTINGS_PLUGIN_PART_2: &'static str = ">(s).map(abi_stable::DynTrait::from_value)
}
}
#[abi_stable::sabi_extern_fn]
fn default_settings() -> bottlerocket_settings_plugin::BottlerocketSettings {
abi_stable::extern_fn_panic_handling! {
abi_stable::DynTrait::from_value(";

pub const SETTINGS_PLUGIN_PART_3: &'static str = "::default())
}
}
#[abi_stable::export_root_module]
fn get_library() -> bottlerocket_settings_plugin::BottlerocketSettingsPluginRef {
abi_stable::prefix_type::PrefixTypeTrait::leak_into_prefix(
bottlerocket_settings_plugin::BottlerocketSettingsPlugin {
default_settings,
deserialize_settings,
})
}
";

pub const OPAQUE_PART_0: &'static str = "impl<'a> SerializeType<'a> for ";

pub const OPAQUE_PART_1: &'static str = " {
type Interface = OpaqueSettingsInterface;
fn serialize_impl(&'a self) -> Result<RawValueBox, RBoxError> {
serialize_json(self)
}
}
#[sabi_extern_fn]
fn deserialize_settings(s: RStr<'_>) -> RResult<OpaqueSettings, RBoxError> {
extern_fn_panic_handling! {
deserialize_json::<";

pub const OPAQUE_PART_2: &'static str = ">(s).map(DynTrait::from_value)
}
}
#[sabi_extern_fn]
fn default_settings() -> OpaqueSettings {
extern_fn_panic_handling! {
DynTrait::from_value(";

pub const OPAQUE_PART_3: &'static str = "::default())
}
}
#[export_root_module]
pub fn get_library() -> OpaqueSettingsPluginRef {
OpaqueSettingsPlugin {
default_settings,
deserialize_settings,
}
.leak_into_prefix()
}
";

pub const NO_MIGRATION_PART_0: &'static str = "impl bottlerocket_settings_sdk::LinearlyMigrateable for ";

pub const NO_MIGRATION_PART_1: &'static str = " {
type ForwardMigrationTarget = bottlerocket_settings_sdk::NoMigration;
type BackwardMigrationTarget = bottlerocket_settings_sdk::NoMigration;
fn migrate_forward(&self) -> Result<Self::ForwardMigrationTarget> {
bottlerocket_settings_sdk::NoMigration::no_defined_migration()
}
fn migrate_backward(&self) -> Result<Self::BackwardMigrationTarget> {
bottlerocket_settings_sdk::NoMigration::no_defined_migration()
}
}
";

/// The `SettingsPlugin` expansion for a struct named `ident`.
pub open spec fn settings_plugin_expansion(ident: Seq<char>) -> Seq<char> {
    SETTINGS_PLUGIN_PART_0@ + ident + SETTINGS_PLUGIN_PART_1@ + ident + SETTINGS_PLUGIN_PART_2@
        + ident + SETTINGS_PLUGIN_PART_3@
}

/// The `Opaque` expansion for a struct named `ident`.
pub open spec fn opaque_expansion(ident: Seq<char>) -> Seq<char> {
    OPAQUE_PART_0@ + ident + OPAQUE_PART_1@ + ident + OPAQUE_PART_2@ + ident + OPAQUE_PART_3@
}

/// The `LinearlyMigrateable` expansion for an item named `ident`.
pub open spec fn no_migration_expansion(ident: Seq<char>) -> Seq<char> {
    NO_MIGRATION_PART_0@ + ident + NO_MIGRATION_PART_1@
}

/// Both plugin derives accept exactly the structs with named fields.
pub open spec fn plugin_shape_supported(data: DataShape) -> bool {
    data == DataShape::NamedStruct
}

/// `res` is what a plugin derive whose template is `expansion` gives for
/// the item `shape`.
pub open spec fn plugin_derive_result(
    shape: DeriveShapeView,
    expansion: Seq<char>,
    res: Result<String, DeriveError>,
) -> bool {
    if plugin_shape_supported(shape.data) {
        res matches Ok(code) && code@ == expansion
    } else {
        res matches Err(DeriveError::UnsupportedShape { observed }) && observed == shape.data
    }
}

/// What separates code appended to a token text from the code already there,
/// so that the last token (or line comment) there stays as it was.
pub const TOKEN_SEPARATOR: &'static str = "\n";

/// The token text `old` extended with the code `new`: `new` alone where
/// `old` is empty, else `old`, the separator, and `new`.
pub open spec fn extend_tokens(old: Seq<char>, new: Seq<char>) -> Seq<char> {
    if old.len() == 0 {
        new
    } else {
        old + TOKEN_SEPARATOR@ + new
    }
}

/// Extends `out` with the code made of `parts` whose three holes are each
/// filled with `ident`.
fn fill_three_holes(out: &mut String, parts: (&str, &str, &str, &str), ident: &str)
    ensures
        final(out)@ == extend_tokens(
            old(out)@,
            parts.0@ + ident@ + parts.1@ + ident@ + parts.2@ + ident@ + parts.3@,
        ),
{
    if !out.as_str().is_empty() {
        out.append(TOKEN_SEPARATOR);
    }
    let ghost start = out@;
    out.append(parts.0);
    out.append(ident);
    out.append(parts.1);
    out.append(ident);
    out.append(parts.2);
    out.append(ident);
    out.append(parts.3);
    assert(out@ =~= start + (parts.0@ + ident@ + parts.1@ + ident@ + parts.2@ + ident@
        + parts.3@));
}

/// The receiver of `#[derive(SettingsPlugin)]`: the name of the deriving struct.
pub struct SettingsPlugin {
    pub ident: String,
}

impl SettingsPlugin {
    /// Reads the receiver from a derive input; only structs with named fields
    /// are supported.
    pub fn from_derive_input(shape: &DeriveShape) -> (res: Result<SettingsPlugin, DeriveError>)
        ensures
            plugin_shape_supported(shape.data) ==> (res matches Ok(plugin) && plugin.ident@
                == shape.ident@),
            !plugin_shape_supported(shape.data) ==> (res matches Err(
                DeriveError::UnsupportedShape { observed },
            ) && observed == shape.data),
    {
        match shape.data {
            DataShape::NamedStruct => Ok(SettingsPlugin { ident: shape.ident.clone() }),
            other => Err(DeriveError::UnsupportedShape { observed: other }),
        }
    }

    /// Extends `tokens` with the plugin's code.
    pub fn to_tokens(&self, tokens: &mut String)
        ensures
            final(tokens)@ == extend_tokens(old(tokens)@, settings_plugin_expansion(self.ident@)),
    {
        fill_three_holes(
            tokens,
            (
                SETTINGS_PLUGIN_PART_0,
                SETTINGS_PLUGIN_PART_1,
                SETTINGS_PLUGIN_PART_2,
                SETTINGS_PLUGIN_PART_3,
            ),
            self.ident.as_str(),
        );
    }
}

/// The receiver of `#[derive(Opaque)]`: the name of the deriving struct.
pub struct Opaque {
    pub ident: String,
}

impl Opaque {
    /// Reads the receiver from a derive input; only structs with named fields
    /// are supported.
    pub fn from_derive_input(shape: &DeriveShape) -> (res: Result<Opaque, DeriveError>)
        ensures
            plugin_shape_supported(shape.data) ==> (res matches Ok(plugin) && plugin.ident@
                == shape.ident@),
            !plugin_shape_supported(shape.data) ==> (res matches Err(
                DeriveError::UnsupportedShape { observed },
            ) && observed == shape.data),
    {
        match shape.data {
            DataShape::NamedStruct => Ok(Opaque { ident: shape.ident.clone() }),
            other => Err(DeriveError::UnsupportedShape { observed: other }),
        }
    }

    /// Extends `tokens` with the plugin's code.
    pub fn to_tokens(&self, tokens: &mut String)
        ensures
            final(tokens)@ == extend_tokens(old(tokens)@, opaque_expansion(self.ident@)),
    {
        fill_three_holes(
            tokens,
            (OPAQUE_PART_0, OPAQUE_PART_1, OPAQUE_PART_2, OPAQUE_PART_3),
            self.ident.as_str(),
        );
    }
}

/// The `SettingsPlugin` expansion of an item already read.
pub fn expand_settings_plugin(shape: &DeriveShape) -> (res: Result<String, DeriveError>)
    ensures
        plugin_derive_result(shape@, settings_plugin_expansion(shape.ident@), res),
{
    let plugin = SettingsPlugin::from_derive_input(shape)?;
    let mut tokens = String::new();
    plugin.to_tokens(&mut tokens);
    assert(tokens@ =~= settings_plugin_expansion(shape.ident@));
    Ok(tokens)
}

/// The `Opaque` expansion of an item already read.
pub fn expand_opaque(shape: &DeriveShape) -> (res: Result<String, DeriveError>)
    ensures
        plugin_derive_result(shape@, opaque_expansion(shape.ident@), res),
{
    let plugin = Opaque::from_derive_input(shape)?;
    let mut tokens = String::new();
    plugin.to_tokens(&mut tokens);
    assert(tokens@ =~= opaque_expansion(shape.ident@));
    Ok(tokens)
}

/// The `LinearlyMigrateable` expansion of an item already read; every shape
/// of item is accepted.
pub fn expand_no_migration(shape: &DeriveShape) -> (res: String)
    ensures
        res@ == no_migration_expansion(shape.ident@),
{
    let mut res = String::from_str(NO_MIGRATION_PART_0);
    res.append(shape.ident.as_str());
    res.append(NO_MIGRATION_PART_1);
    res
}

/// `#[derive(SettingsPlugin)]` on the item whose source text is `input`.
/// Text that syn does not read as an item gives a `Parse` error; an item
/// that is not a struct with named fields gives `UnsupportedShape`, on
/// which the derive's entry point panics.
pub fn derive_settings(input: &str) -> (res: Result<String, DeriveError>)
    ensures
        syn_derive_input(input@) is None ==> res matches Err(DeriveError::Parse { .. }),
        syn_derive_input(input@) matches Some(read) ==> plugin_derive_result(
            read,
            settings_plugin_expansion(read.ident),
            res,
        ),
        !(res matches Err(DeriveError::Parse { .. })) ==> exists|shape: DeriveShapeView|
            #[trigger] reads_as(input@, shape) && plugin_derive_result(
                shape,
                settings_plugin_expansion(shape.ident),
                res,
            ),
{
    let shape = parse_derive_input(input)?;
    assert(reads_as(input@, shape@));
    expand_settings_plugin(&shape)
}

/// `#[derive(Opaque)]` on the item whose source text is `input`.
/// Text that syn does not read as an item gives a `Parse` error; an item
/// that is not a struct with named fields gives `UnsupportedShape`, on
/// which the derive's entry point panics.
pub fn derive_opaque(input: &str) -> (res: Result<String, DeriveError>)
    ensures
        syn_derive_input(input@) is None ==> res matches Err(DeriveError::Parse { .. }),
        syn_derive_input(input@) matches Some(read) ==> plugin_derive_result(
            read,
            opaque_expansion(read.ident),
            res,
        ),
        !(res matches Err(DeriveError::Parse { .. })) ==> exists|shape: DeriveShapeView|
            #[trigger] reads_as(input@, shape) && plugin_derive_result(
                shape,
                opaque_expansion(shape.ident),
                res,
            ),
{
    let shape = parse_derive_input(input)?;
    assert(reads_as(input@, shape@));
    expand_opaque(&shape)
}

/// `#[derive(LinearlyMigrateable)]` on the item whose source text is `input`.
pub fn derive_no_migration(input: &str) -> (res: Result<String, DeriveError>)
    ensures
        syn_derive_input(input@) is None ==> res matches Err(DeriveError::Parse { .. }),
        res matches Err(e) ==> e is Parse,
        syn_derive_input(input@) matches Some(read) ==> (res matches Ok(code) && code@
            == no_migration_expansion(read.ident)),
        res matches Ok(code) ==> exists|shape: DeriveShapeView|
            #[trigger] reads_as(input@, shape) && code@ == no_migration_expansion(shape.ident),
{
    let shape = parse_derive_input(input)?;
    assert(reads_as(input@, shape@));
    Ok(expand_no_migration(&shape))
}

} // verus!

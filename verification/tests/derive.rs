use bottlerocket_settings_plugin::derive_input::{parse_derive_input, DataShape, DeriveError, DeriveShape};
use bottlerocket_settings_plugin::expansion::{
    derive_no_migration, derive_opaque, derive_settings, expand_no_migration, expand_opaque,
    expand_settings_plugin, Opaque, SettingsPlugin,
};

fn is_unsupported(res: &Result<String, DeriveError>, shape: DataShape) -> bool {
    matches!(res, Err(DeriveError::UnsupportedShape { observed }) if *observed == shape)
}

#[test]
fn parse_reads_name_and_shape() {
    let shape = parse_derive_input("pub struct Motd { text: String, enabled: bool }").unwrap();
    assert_eq!(shape.ident, "Motd");
    assert_eq!(shape.data, DataShape::NamedStruct);
    assert_eq!(parse_derive_input("struct Pair(u8, u8);").unwrap().data, DataShape::TupleStruct);
    assert_eq!(parse_derive_input("struct Marker;").unwrap().data, DataShape::UnitStruct);
    assert_eq!(parse_derive_input("enum Mode { On, Off }").unwrap().data, DataShape::Enum);
    assert_eq!(parse_derive_input("union Bits { a: u32, b: f32 }").unwrap().data, DataShape::Union);
    let generic = parse_derive_input("#[derive(Default)] struct Wrapper<T> { inner: T }").unwrap();
    assert_eq!(generic.data, DataShape::NamedStruct);
    assert_eq!(generic.ident, "Wrapper");
}

#[test]
fn parse_rejects_text_that_is_no_item() {
    assert!(matches!(parse_derive_input("fn main() {}"), Err(DeriveError::Parse { .. })));
    assert!(matches!(parse_derive_input("struct {"), Err(DeriveError::Parse { .. })));
    match parse_derive_input("") {
        Err(DeriveError::Parse { message }) => assert!(!message.is_empty()),
        _ => panic!("empty input parsed"),
    }
}

#[test]
fn settings_plugin_expansion_for_named_struct() {
    let code = derive_settings("struct MySettings { motd: String }").unwrap();
    assert!(code.starts_with(
        "impl<'a> abi_stable::erased_types::SerializeType<'a> for MySettings {"
    ));
    assert!(code.contains("type Interface = bottlerocket_settings_plugin::BottlerocketSettingsInterface;"));
    assert!(code.contains("bottlerocket_settings_plugin::serialize_json(self)"));
    assert!(code.contains("bottlerocket_settings_plugin::deserialize_json::<MySettings>(s).map(abi_stable::DynTrait::from_value)"));
    assert!(code.contains("abi_stable::DynTrait::from_value(MySettings::default())"));
    assert!(code.contains("#[abi_stable::export_root_module]"));
    assert_eq!(code.matches("MySettings").count(), 3);
    assert!(syn::parse_file(&code).is_ok());
}

#[test]
fn settings_plugin_rejects_other_shapes() {
    assert!(is_unsupported(&derive_settings("struct Pair(u8, u8);"), DataShape::TupleStruct));
    assert!(is_unsupported(&derive_settings("struct Marker;"), DataShape::UnitStruct));
    assert!(is_unsupported(&derive_settings("enum Mode { On, Off }"), DataShape::Enum));
    assert!(is_unsupported(&derive_settings("union Bits { a: u32 }"), DataShape::Union));
    assert!(matches!(derive_settings("impl Foo {}"), Err(DeriveError::Parse { .. })));
}

#[test]
fn opaque_expansion_for_named_struct() {
    let code = derive_opaque("struct Kernel { lockdown: String }").unwrap();
    assert!(code.starts_with("impl<'a> SerializeType<'a> for Kernel {"));
    assert!(code.contains("type Interface = OpaqueSettingsInterface;"));
    assert!(code.contains("deserialize_json::<Kernel>(s).map(DynTrait::from_value)"));
    assert!(code.contains("DynTrait::from_value(Kernel::default())"));
    assert!(code.contains("pub fn get_library() -> OpaqueSettingsPluginRef"));
    assert!(code.contains(".leak_into_prefix()"));
    assert_eq!(code.matches("Kernel").count(), 3);
    assert!(syn::parse_file(&code).is_ok());
}

#[test]
fn opaque_rejects_other_shapes() {
    assert!(is_unsupported(&derive_opaque("struct Pair(u8);"), DataShape::TupleStruct));
    assert!(is_unsupported(&derive_opaque("struct Marker;"), DataShape::UnitStruct));
    assert!(is_unsupported(&derive_opaque("enum Mode { On }"), DataShape::Enum));
    assert!(matches!(derive_opaque("not rust at all"), Err(DeriveError::Parse { .. })));
}

#[test]
fn no_migration_expansion_exact_text() {
    let shape = DeriveShape { ident: "A".to_string(), data: DataShape::UnitStruct };
    let expected = "impl bottlerocket_settings_sdk::LinearlyMigrateable for A {
type ForwardMigrationTarget = bottlerocket_settings_sdk::NoMigration;
type BackwardMigrationTarget = bottlerocket_settings_sdk::NoMigration;
fn migrate_forward(&self) -> Result<Self::ForwardMigrationTarget> {
bottlerocket_settings_sdk::NoMigration::no_defined_migration()
}
fn migrate_backward(&self) -> Result<Self::BackwardMigrationTarget> {
bottlerocket_settings_sdk::NoMigration::no_defined_migration()
}
}
";
    assert_eq!(expand_no_migration(&shape), expected);
}

#[test]
fn no_migration_accepts_every_shape() {
    for input in ["struct ModelA;", "struct ModelA(u8);", "struct ModelA { v: u8 }", "enum ModelA { X }"] {
        let code = derive_no_migration(input).unwrap();
        assert!(code.starts_with("impl bottlerocket_settings_sdk::LinearlyMigrateable for ModelA {"));
        assert_eq!(code.matches("no_defined_migration()").count(), 2);
        assert!(syn::parse_file(&code).is_ok());
    }
    assert!(matches!(derive_no_migration("let x = 1;"), Err(DeriveError::Parse { .. })));
}

#[test]
fn expansion_depends_only_on_the_name() {
    let a = derive_settings("struct Same { x: u8 }").unwrap();
    let b = derive_settings("pub(crate) struct Same { y: String, z: Vec<u8> }").unwrap();
    assert_eq!(a, b);
    let c = derive_settings("struct Other { x: u8 }").unwrap();
    assert_ne!(a, c);
}

#[test]
fn receivers_and_to_tokens() {
    let named = DeriveShape { ident: "Net".to_string(), data: DataShape::NamedStruct };
    let plugin = SettingsPlugin::from_derive_input(&named).unwrap();
    assert_eq!(plugin.ident, "Net");
    let mut tokens = String::from("// head");
    plugin.to_tokens(&mut tokens);
    assert!(tokens.starts_with("// head\nimpl<'a> abi_stable::erased_types::SerializeType<'a> for Net {"));
    assert_eq!(tokens, format!("// head\n{}", expand_settings_plugin(&named).unwrap()));
    assert!(syn::parse_file(&tokens).is_ok());

    let mut tokens = String::from("pub struct Before;");
    plugin.to_tokens(&mut tokens);
    assert!(tokens.starts_with("pub struct Before;\nimpl<'a>"));
    assert!(syn::parse_file(&tokens).is_ok());

    let opaque = Opaque::from_derive_input(&named).unwrap();
    let mut tokens = String::new();
    opaque.to_tokens(&mut tokens);
    assert_eq!(tokens, expand_opaque(&named).unwrap());
    let mut tokens = String::from("pub");
    opaque.to_tokens(&mut tokens);
    assert!(tokens.starts_with("pub\nimpl<'a> SerializeType<'a> for Net {"));

    let unit = DeriveShape { ident: "Net".to_string(), data: DataShape::UnitStruct };
    assert!(matches!(
        SettingsPlugin::from_derive_input(&unit),
        Err(DeriveError::UnsupportedShape { observed: DataShape::UnitStruct })
    ));
    assert!(matches!(
        Opaque::from_derive_input(&unit),
        Err(DeriveError::UnsupportedShape { observed: DataShape::UnitStruct })
    ));
}

#[test]
fn non_ascii_text_keeps_an_ascii_name() {
    let plain = derive_settings("struct Motd { text: String }").unwrap();
    let accented = derive_settings(
        "/// Réglages du message\n#[serde(rename = \"é\")]\nstruct Motd { texte: String }",
    )
    .unwrap();
    assert_eq!(plain, accented);
    let code = derive_no_migration("/// naïve\nenum Motd { A }").unwrap();
    assert!(code.starts_with("impl bottlerocket_settings_sdk::LinearlyMigrateable for Motd {"));
}

use divina::config::{Arch, ConfigError, ConfigField, PackageType};
use divina::plan::Compiler;
use divina::resolve::{resolve_script, ScriptRoot};
use divina::toolchain::HostOs;
use divina::Divina;

#[test]
fn package_script_resolves_to_a_validated_package() {
    let script = r#"
        Package = {
            name = "foo",
            version = "0.1.0",
            minimum_divina_version = "0.1.0",
            type = Divina.Type.Bin,
            arch = Divina.Arch.x86,
            sources = {"main.asm"},
        }
    "#;
    match resolve_script(script).unwrap() {
        ScriptRoot::Package(c) => {
            assert_eq!(c.name.as_deref(), Some("foo"));
            assert_eq!(c.version.as_deref(), Some("0.1.0"));
            assert_eq!(c.minimum_divina_version.as_deref(), Some("0.1.0"));
            assert_eq!(c.package_type, Some(PackageType::Bin));
            assert_eq!(c.arch, Some(Arch::X86));
            assert_eq!(c.sources, Some(vec!["main.asm".to_string()]));
        }
        ScriptRoot::Workspace(_) => panic!("expected a package root"),
    }
}

#[test]
fn script_sees_the_tool_version() {
    let script = r#"
        Package = {
            name = "foo",
            version = Divina.version,
            minimum_divina_version = Divina.version,
            type = Divina.Type.Lib,
            arch = Divina.Arch.x64,
        }
    "#;
    match resolve_script(script).unwrap() {
        ScriptRoot::Package(c) => {
            assert_eq!(c.version.as_deref(), Some(divina::config::TOOL_VERSION));
            assert_eq!(c.package_type, Some(PackageType::Lib));
            assert_eq!(c.arch, Some(Arch::X64));
        }
        ScriptRoot::Workspace(_) => panic!("expected a package root"),
    }
}

#[test]
fn workspace_script_resolves_to_member_directories() {
    let script = r#"
        Workspace = {
            members = {"m1", "m2"},
        }
    "#;
    match resolve_script(script).unwrap() {
        ScriptRoot::Workspace(members) => {
            assert_eq!(members, vec!["m1".to_string(), "m2".to_string()]);
        }
        ScriptRoot::Package(_) => panic!("expected a workspace root"),
    }
}

#[test]
fn workspace_without_members_is_missing_a_required_field() {
    let script = "Workspace = {}";
    assert_eq!(
        resolve_script(script).unwrap_err(),
        ConfigError::MissingRequiredField(ConfigField::Members)
    );
}

#[test]
fn both_root_tables_are_ambiguous() {
    let script = r#"
        Package = { name = "foo" }
        Workspace = { members = {} }
    "#;
    assert_eq!(resolve_script(script).unwrap_err(), ConfigError::AmbiguousRootTable);
}

#[test]
fn neither_root_table_is_ambiguous() {
    assert_eq!(resolve_script("x = 1").unwrap_err(), ConfigError::AmbiguousRootTable);
}

#[test]
fn a_script_that_does_not_execute_is_a_syntax_error() {
    assert_eq!(
        resolve_script("this is not a script").unwrap_err(),
        ConfigError::SyntaxError
    );
}

#[test]
fn missing_required_fields_are_reported_in_field_order() {
    let script = r#"Package = { version = "0.1.0" }"#;
    assert_eq!(
        resolve_script(script).unwrap_err(),
        ConfigError::MissingRequiredField(ConfigField::Name)
    );

    let script = r#"Package = { name = "foo" }"#;
    assert_eq!(
        resolve_script(script).unwrap_err(),
        ConfigError::MissingRequiredField(ConfigField::Version)
    );

    let script = r#"
        Package = {
            name = "foo",
            version = "0.1.0",
            minimum_divina_version = "0.1.0",
            arch = Divina.Arch.x86,
        }
    "#;
    assert_eq!(
        resolve_script(script).unwrap_err(),
        ConfigError::MissingRequiredField(ConfigField::PackageTypeField)
    );
}

#[test]
fn out_of_domain_enum_codes_are_invalid() {
    let script = r#"
        Package = {
            name = "foo",
            version = "0.1.0",
            minimum_divina_version = "0.1.0",
            type = 3,
            arch = Divina.Arch.x86,
        }
    "#;
    assert_eq!(
        resolve_script(script).unwrap_err(),
        ConfigError::InvalidEnumValue(ConfigField::PackageTypeField, 3)
    );

    let script = r#"
        Package = {
            name = "foo",
            version = "0.1.0",
            minimum_divina_version = "0.1.0",
            type = Divina.Type.Bin,
            arch = 9,
        }
    "#;
    assert_eq!(
        resolve_script(script).unwrap_err(),
        ConfigError::InvalidEnumValue(ConfigField::ArchField, 9)
    );
}

#[test]
fn resolved_package_flows_through_planning_and_toolchain() {
    let script = r#"
        Package = {
            name = "foo",
            version = "0.1.0",
            minimum_divina_version = "0.1.0",
            type = Divina.Type.Bin,
            arch = Divina.Arch.x86,
            sources = {"main.asm"},
        }
    "#;
    let config = match resolve_script(script).unwrap() {
        ScriptRoot::Package(c) => c,
        ScriptRoot::Workspace(_) => panic!("expected a package root"),
    };

    let mut divina = Divina::new();
    divina.configure_config(config);

    let mut compiler = Compiler::new();
    compiler.find_sources(divina.expose_config());
    divina.configure_compiler(compiler);

    let compiler = divina.expose_compiler();
    assert!(compiler.is_package);
    let links = compiler.link(HostOs::Unix);
    assert_eq!(links.len(), 1);
    assert_eq!(links[0].output, "out/foo");
    assert_eq!(links[0].objects, vec!["out/main.o".to_string()]);
}

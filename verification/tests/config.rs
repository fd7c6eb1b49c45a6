use divina::config::{Arch, Config, ConfigError, ConfigField, ConfigType, PackageType};
use divina::resolve::{project_package, select_root, RawPackage};

fn raw_package_full() -> RawPackage {
    RawPackage {
        name: Some("foo".to_string()),
        version: Some("0.1.0".to_string()),
        description: None,
        license: None,
        compile_options: None,
        minimum_divina_version: Some("0.1.0".to_string()),
        sources: Some(vec!["main.asm".to_string()]),
        type_code: Some(1),
        arch_code: Some(1),
        compiler: None,
    }
}

#[test]
fn package_type_codes_decode_exhaustively() {
    assert_eq!(PackageType::from_u8(1), Some(PackageType::Bin));
    assert_eq!(PackageType::from_u8(2), Some(PackageType::Lib));
    assert_eq!(PackageType::from_u8(0), None);
    assert_eq!(PackageType::from_u8(3), None);
    assert_eq!(PackageType::from_u8(255), None);
}

#[test]
fn arch_codes_decode_exhaustively() {
    assert_eq!(Arch::from_u8(1), Some(Arch::X86));
    assert_eq!(Arch::from_u8(2), Some(Arch::X64));
    assert_eq!(Arch::from_u8(0), None);
    assert_eq!(Arch::from_u8(3), None);
    assert_eq!(Arch::from_u8(255), None);
}

#[test]
fn arch_round_trips_through_its_code() {
    for arch in [Arch::X86, Arch::X64] {
        let code = match arch {
            Arch::X86 => 1,
            Arch::X64 => 2,
        };
        assert_eq!(Arch::from_u8(code), Some(arch));
    }
}

#[test]
fn arch_width_text() {
    assert_eq!(Arch::from_string(&Arch::X86), "32");
    assert_eq!(Arch::from_string(&Arch::X64), "64");
}

#[test]
fn new_config_is_default_package() {
    let c = Config::new();
    assert!(c.name.is_none());
    assert!(c.version.is_none());
    assert!(c.sources.is_none());
    assert!(c.members.is_none());
    assert!(c.arch.is_none());
    assert_eq!(c.config_type, ConfigType::Package);
}

#[test]
fn with_path_stamps_member_directory() {
    let c = Config::new().with_path("member".to_string());
    assert_eq!(c.path.as_deref(), Some("member"));
    assert_eq!(c.config_type, ConfigType::Package);
}

#[test]
fn workspace_wraps_members() {
    let member = Config::new().with_path("m1".to_string());
    let c = Config::workspace(vec![member]);
    assert_eq!(c.config_type, ConfigType::Workspace);
    let members = c.members.unwrap();
    assert_eq!(members.len(), 1);
    assert_eq!(members[0].path.as_deref(), Some("m1"));
}

#[test]
fn select_root_accepts_exactly_one_table() {
    assert_eq!(select_root(true, false), Ok(ConfigType::Package));
    assert_eq!(select_root(false, true), Ok(ConfigType::Workspace));
    assert_eq!(select_root(true, true), Err(ConfigError::AmbiguousRootTable));
    assert_eq!(select_root(false, false), Err(ConfigError::AmbiguousRootTable));
}

#[test]
fn project_package_accepts_a_full_table() {
    let c = project_package(raw_package_full()).unwrap();
    assert_eq!(c.name.as_deref(), Some("foo"));
    assert_eq!(c.version.as_deref(), Some("0.1.0"));
    assert_eq!(c.minimum_divina_version.as_deref(), Some("0.1.0"));
    assert_eq!(c.package_type, Some(PackageType::Bin));
    assert_eq!(c.arch, Some(Arch::X86));
    assert_eq!(c.config_type, ConfigType::Package);
    assert_eq!(c.sources, Some(vec!["main.asm".to_string()]));
    assert!(c.members.is_none());
    assert!(c.path.is_none());
    assert!(c.compiler.is_none());
}

#[test]
fn project_package_reports_each_missing_required_field() {
    let mut raw = raw_package_full();
    raw.name = None;
    assert_eq!(
        project_package(raw).unwrap_err(),
        ConfigError::MissingRequiredField(ConfigField::Name)
    );

    let mut raw = raw_package_full();
    raw.version = None;
    assert_eq!(
        project_package(raw).unwrap_err(),
        ConfigError::MissingRequiredField(ConfigField::Version)
    );

    let mut raw = raw_package_full();
    raw.minimum_divina_version = None;
    assert_eq!(
        project_package(raw).unwrap_err(),
        ConfigError::MissingRequiredField(ConfigField::MinimumDivinaVersion)
    );

    let mut raw = raw_package_full();
    raw.type_code = None;
    assert_eq!(
        project_package(raw).unwrap_err(),
        ConfigError::MissingRequiredField(ConfigField::PackageTypeField)
    );

    let mut raw = raw_package_full();
    raw.arch_code = None;
    assert_eq!(
        project_package(raw).unwrap_err(),
        ConfigError::MissingRequiredField(ConfigField::ArchField)
    );
}

#[test]
fn project_package_reports_invalid_enum_codes() {
    let mut raw = raw_package_full();
    raw.type_code = Some(3);
    assert_eq!(
        project_package(raw).unwrap_err(),
        ConfigError::InvalidEnumValue(ConfigField::PackageTypeField, 3)
    );

    let mut raw = raw_package_full();
    raw.arch_code = Some(9);
    assert_eq!(
        project_package(raw).unwrap_err(),
        ConfigError::InvalidEnumValue(ConfigField::ArchField, 9)
    );
}

#[test]
fn optional_fields_pass_through() {
    let mut raw = raw_package_full();
    raw.description = Some("a tool".to_string());
    raw.license = Some("GPL-3.0-only".to_string());
    raw.compile_options = Some(vec!["-w".to_string()]);
    raw.compiler = Some("nasm".to_string());
    let c = project_package(raw).unwrap();
    assert_eq!(c.description.as_deref(), Some("a tool"));
    assert_eq!(c.license.as_deref(), Some("GPL-3.0-only"));
    assert_eq!(c.compile_options, Some(vec!["-w".to_string()]));
    assert_eq!(c.compiler.as_deref(), Some("nasm"));
}

#[test]
fn field_keys_match_script_schema() {
    assert_eq!(ConfigField::Name.key(), "name");
    assert_eq!(ConfigField::Version.key(), "version");
    assert_eq!(ConfigField::MinimumDivinaVersion.key(), "minimum_divina_version");
    assert_eq!(ConfigField::PackageTypeField.key(), "type");
    assert_eq!(ConfigField::ArchField.key(), "arch");
    assert_eq!(ConfigField::Members.key(), "members");
}

//! The typed configuration model.
//!
//! A build script resolves into a [`Config`] tree: either a single package
//! (name, version, kind, architecture, sources, ...) or a workspace whose
//! members are themselves package configurations, each stamped with the
//! directory it came from.

use vstd::prelude::*;

verus! {

/// The version string of this tool, exposed read-only to build scripts as
/// `Divina.version`.
pub const TOOL_VERSION: &'static str = "0.1.0";

/// Whether a configuration describes a single package or a workspace of
/// member packages.
#[derive(Debug, Clone, Copy, PartialEq, Eq, Structural)]
pub enum ConfigType {
    Package,
    Workspace,
}

/// What a package builds into. Scripts select a variant by its numeric code:
/// `1` for a binary, `2` for a library.
#[derive(Debug, Clone, Copy, PartialEq, Eq, Structural)]
pub enum PackageType {
    Bin,
    Lib,
}

/// The numeric code under which scripts name a package type.
pub open spec fn package_type_code(t: PackageType) -> u8 {
    match t {
        PackageType::Bin => 1,
        PackageType::Lib => 2,
    }
}

/// The package type a numeric code decodes to, if any.
pub open spec fn decoded_package_type(n: u8) -> Option<PackageType> {
    if n == 1 {
        Some(PackageType::Bin)
    } else if n == 2 {
        Some(PackageType::Lib)
    } else {
        None
    }
}

impl PackageType {
    /// Decode a package type from its numeric code: every code other than
    /// `1` (binary) and `2` (library) is rejected.
    pub fn from_u8(n: u8) -> (r: Option<PackageType>)
        ensures
            r == decoded_package_type(n),
    {
        match n {
            1 => Some(PackageType::Bin),
            2 => Some(PackageType::Lib),
            _ => None,
        }
    }
}

/// The CPU architecture a package targets. Scripts select a variant by its
/// numeric code: `1` for x86, `2` for x64.
#[derive(Debug, Clone, Copy, PartialEq, Eq, Structural)]
pub enum Arch {
    X86,
    X64,
}

/// The numeric code under which scripts name an architecture.
pub open spec fn arch_code(a: Arch) -> u8 {
    match a {
        Arch::X86 => 1,
        Arch::X64 => 2,
    }
}

/// The architecture a numeric code decodes to, if any.
pub open spec fn decoded_arch(n: u8) -> Option<Arch> {
    if n == 1 {
        Some(Arch::X86)
    } else if n == 2 {
        Some(Arch::X64)
    } else {
        None
    }
}

impl Arch {
    /// Decode an architecture from its numeric code: every code other than
    /// `1` (x86) and `2` (x64) is rejected.
    pub fn from_u8(n: u8) -> (r: Option<Arch>)
        ensures
            r == decoded_arch(n),
    {
        match n {
            1 => Some(Arch::X86),
            2 => Some(Arch::X64),
            _ => None,
        }
    }

    /// The register width of an architecture, as the text `"32"` or `"64"`.
    pub fn from_string(arch: &Arch) -> (r: String)
        ensures
            arch is X86 ==> r@ == "32"@,
            arch is X64 ==> r@ == "64"@,
    {
        match arch {
            Arch::X86 => "32".to_owned(),
            Arch::X64 => "64".to_owned(),
        }
    }
}

/// Decoding is left inverse to encoding: the numeric code of an architecture
/// decodes back to that architecture, for both architectures; and every code
/// outside the declared domain decodes to nothing.
pub proof fn lemma_arch_codes_round_trip()
    ensures
        forall|a: Arch| decoded_arch(arch_code(a)) == Some(a),
        forall|n: u8| n != 1 && n != 2 ==> decoded_arch(n) is None,
{
}

/// The same, for package types.
pub proof fn lemma_package_type_codes_round_trip()
    ensures
        forall|t: PackageType| decoded_package_type(package_type_code(t)) == Some(t),
        forall|n: u8| n != 1 && n != 2 ==> decoded_package_type(n) is None,
{
}

/// The fields a build script can define, plus what resolution stamps on.
///
/// For a package configuration, `name`, `version`, `minimum_divina_version`,
/// `package_type` and `arch` are present (resolution fails without them);
/// the rest are optional. For a workspace configuration, `members` holds one
/// resolved package configuration per member directory, in declaration
/// order, each with `path` stamped to that directory.
#[derive(Debug)]
pub struct Config {
    pub name: Option<String>,
    pub version: Option<String>,
    pub description: Option<String>,
    pub license: Option<String>,
    pub compile_options: Option<Vec<String>>,
    pub minimum_divina_version: Option<String>,
    pub sources: Option<Vec<String>>,
    pub config_type: ConfigType,
    pub members: Option<Vec<Config>>,
    pub package_type: Option<PackageType>,
    pub path: Option<String>,
    pub arch: Option<Arch>,
    pub compiler: Option<String>,
    pub visual_studio: Option<String>,
}

/// The default configuration: a package with every field still unset.
pub open spec fn is_default_config(c: Config) -> bool {
    &&& c.name is None
    &&& c.version is None
    &&& c.description is None
    &&& c.license is None
    &&& c.compile_options is None
    &&& c.minimum_divina_version is None
    &&& c.sources is None
    &&& c.config_type is Package
    &&& c.members is None
    &&& c.package_type is None
    &&& c.path is None
    &&& c.arch is None
    &&& c.compiler is None
    &&& c.visual_studio is None
}

impl Config {
    /// Create a new `Config` with every field unset.
    pub fn new() -> (c: Config)
        ensures
            is_default_config(c),
    {
        Config {
            name: None,
            version: None,
            description: None,
            license: None,
            compile_options: None,
            minimum_divina_version: None,
            sources: None,
            config_type: ConfigType::Package,
            members: None,
            package_type: None,
            path: None,
            arch: None,
            compiler: None,
            visual_studio: None,
        }
    }

    /// Stamp the directory a member configuration was resolved from.
    pub fn with_path(self, path: String) -> (c: Config)
        ensures
            c == (Config { path: Some(path), ..self }),
    {
        Config { path: Some(path), ..self }
    }

    /// A workspace configuration over the given resolved members.
    pub fn workspace(members: Vec<Config>) -> (c: Config)
        ensures
            c.config_type is Workspace,
            c.members == Some(members),
            c.name is None,
            c.version is None,
            c.description is None,
            c.license is None,
            c.compile_options is None,
            c.minimum_divina_version is None,
            c.sources is None,
            c.package_type is None,
            c.path is None,
            c.arch is None,
            c.compiler is None,
            c.visual_studio is None,
    {
        Config {
            name: None,
            version: None,
            description: None,
            license: None,
            compile_options: None,
            minimum_divina_version: None,
            sources: None,
            config_type: ConfigType::Workspace,
            members: Some(members),
            package_type: None,
            path: None,
            arch: None,
            compiler: None,
            visual_studio: None,
        }
    }
}

impl Default for Config {
    fn default() -> (c: Config)
        ensures
            is_default_config(c),
    {
        Config::new()
    }
}

/// A field of the package or workspace table that resolution may report as
/// missing or invalid.
#[derive(Debug, Clone, Copy, PartialEq, Eq, Structural)]
pub enum ConfigField {
    Name,
    Version,
    MinimumDivinaVersion,
    PackageTypeField,
    ArchField,
    Members,
}

impl ConfigField {
    /// The key under which scripts define this field.
    pub fn key(&self) -> (r: String)
        ensures
            self is Name ==> r@ == "name"@,
            self is Version ==> r@ == "version"@,
            self is MinimumDivinaVersion ==> r@ == "minimum_divina_version"@,
            self is PackageTypeField ==> r@ == "type"@,
            self is ArchField ==> r@ == "arch"@,
            self is Members ==> r@ == "members"@,
    {
        match self {
            ConfigField::Name => "name".to_owned(),
            ConfigField::Version => "version".to_owned(),
            ConfigField::MinimumDivinaVersion => "minimum_divina_version".to_owned(),
            ConfigField::PackageTypeField => "type".to_owned(),
            ConfigField::ArchField => "arch".to_owned(),
            ConfigField::Members => "members".to_owned(),
        }
    }
}

/// Everything that can go wrong while resolving a build script into a
/// [`Config`].
///
/// `NotFound` and `UnreadableFile` are reported by callers that read script
/// files; the resolver itself reports the other four.
#[derive(Debug, Clone, Copy, PartialEq, Eq, Structural)]
pub enum ConfigError {
    /// The script file does not exist.
    NotFound,
    /// The script file exists but could not be read.
    UnreadableFile,
    /// The script failed to execute.
    SyntaxError,
    /// The script defines both of the root tables `Package` and `Workspace`,
    /// or neither.
    AmbiguousRootTable,
    /// A required field of the root table is not defined.
    MissingRequiredField(ConfigField),
    /// An enum-coded field holds a code outside its declared domain.
    InvalidEnumValue(ConfigField, u8),
}

} // verus!

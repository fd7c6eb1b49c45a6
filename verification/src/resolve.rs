//! The configuration resolver: executing a build script in an embedded Lua
//! interpreter and projecting what it defined into a typed [`Config`].
//!
//! The script's sole purpose is to assign exactly one of the two global
//! tables `Package` and `Workspace`; a small read-only API table exposes
//! the tool's version and the numeric codes for package types and
//! architectures. Executing the script and reading its globals is the
//! embedded interpreter's work, behind trusted wrappers; every decision —
//! which root table counts, which fields are required, which codes decode —
//! is made afterwards, in verified code, over the plain values the wrappers
//! hand back.
//!
//! Reading script files is the caller's work: [`resolve_script`] takes
//! script text and, for a workspace, returns the member directories whose
//! own scripts the caller must resolve in turn and assemble with
//! [`Config::workspace`].

use vstd::prelude::*;
use vstd::string::StringExecFns;

use crate::config::{Arch, Config, ConfigError, ConfigField, ConfigType, PackageType,
    TOOL_VERSION, decoded_arch, decoded_package_type};

verus! {

/// The embedded Lua interpreter, opaque to this crate: scripts run in it
/// and their globals are read back out of it.
#[verifier::external_type_specification]
#[verifier::external_body]
pub struct ExLua(rlua::Lua);

/// Relies on `rlua::Lua::new`: a fresh interpreter with an empty global
/// namespace.
#[verifier::external_body]
fn lua_new() -> rlua::Lua {
    rlua::Lua::new()
}

/// Relies on `rlua::Lua::load` and `rlua::Chunk::exec`: executes a chunk of
/// Lua source, returning whether it loaded and ran without error.
#[verifier::external_body]
fn lua_exec(lua: &rlua::Lua, source: &str) -> bool {
    lua.load(source).exec().is_ok()
}

/// Relies on `rlua::Lua::globals` and `rlua::Table::get`: whether the
/// global namespace holds a table under this name.
#[verifier::external_body]
fn lua_has_table(lua: &rlua::Lua, name: &str) -> bool {
    let t: Result<rlua::Table<'_>, rlua::Error> = lua.globals().get(name);
    t.is_ok()
}

/// Relies on `rlua::Table::get` and Lua's string coercion: the text under
/// `key` in the global table `table`, or nothing when the table or the key
/// is absent or holds no text.
#[verifier::external_body]
fn lua_get_string(lua: &rlua::Lua, table: &str, key: &str) -> Option<String> {
    match lua.globals().get::<_, rlua::Table<'_>>(table) {
        Ok(t) => t.get::<_, String>(key).ok(),
        Err(_) => None,
    }
}

/// Relies on `rlua::Table::get` over a sequence table: the list of texts
/// under `key` in the global table `table`, or nothing when absent or not
/// such a list.
#[verifier::external_body]
fn lua_get_string_list(lua: &rlua::Lua, table: &str, key: &str) -> Option<Vec<String>> {
    match lua.globals().get::<_, rlua::Table<'_>>(table) {
        Ok(t) => t.get::<_, Vec<String>>(key).ok(),
        Err(_) => None,
    }
}

/// Relies on `rlua::Table::get` with integer conversion: the small integer
/// under `key` in the global table `table`, or nothing when absent or not
/// such an integer.
#[verifier::external_body]
fn lua_get_u8(lua: &rlua::Lua, table: &str, key: &str) -> Option<u8> {
    match lua.globals().get::<_, rlua::Table<'_>>(table) {
        Ok(t) => t.get::<_, u8>(key).ok(),
        Err(_) => None,
    }
}

/// The read-only API a script sees, as a Lua prelude run before it: the
/// tool's version and the numeric constants for package types and
/// architectures.
fn api_prelude() -> (r: String)
    ensures
        r@ == "Divina = { version = \""@ + TOOL_VERSION@
            + "\", Type = { Bin = 1, Lib = 2 }, Arch = { x86 = 1, x64 = 2 } }"@,
{
    let mut r = "Divina = { version = \"".to_owned();
    r.append(TOOL_VERSION);
    r.append("\", Type = { Bin = 1, Lib = 2 }, Arch = { x86 = 1, x64 = 2 } }");
    proof {
        assert(r@ =~= "Divina = { version = \""@ + TOOL_VERSION@
            + "\", Type = { Bin = 1, Lib = 2 }, Arch = { x86 = 1, x64 = 2 } }"@);
    }
    r
}

/// The raw content of a script's `Package` table, field by field, exactly
/// as the interpreter handed it back: present or absent, not yet checked.
pub struct RawPackage {
    pub name: Option<String>,
    pub version: Option<String>,
    pub description: Option<String>,
    pub license: Option<String>,
    pub compile_options: Option<Vec<String>>,
    pub minimum_divina_version: Option<String>,
    pub sources: Option<Vec<String>>,
    pub type_code: Option<u8>,
    pub arch_code: Option<u8>,
    pub compiler: Option<String>,
}

/// Which root table a script must be read as, given which of the two it
/// defines: exactly one must be present.
pub open spec fn selected_root(has_package: bool, has_workspace: bool) -> Result<
    ConfigType,
    ConfigError,
> {
    if has_package && !has_workspace {
        Ok(ConfigType::Package)
    } else if has_workspace && !has_package {
        Ok(ConfigType::Workspace)
    } else {
        Err(ConfigError::AmbiguousRootTable)
    }
}

/// Decide the root table of a script: `Package` when it alone is defined,
/// `Workspace` when it alone is defined, and the ambiguous-root error when
/// both or neither are.
pub fn select_root(has_package: bool, has_workspace: bool) -> (r: Result<ConfigType, ConfigError>)
    ensures
        r == selected_root(has_package, has_workspace),
{
    if has_package && !has_workspace {
        Ok(ConfigType::Package)
    } else if has_workspace && !has_package {
        Ok(ConfigType::Workspace)
    } else {
        Err(ConfigError::AmbiguousRootTable)
    }
}

/// The package configuration a raw table projects to, or the first error in
/// field order: a missing `name`, `version`, `minimum_divina_version`,
/// `type` or `arch` is reported as missing; a present `type` or `arch`
/// whose code decodes to no variant is reported as invalid. The optional
/// fields pass through as they are.
pub open spec fn projected_package(raw: RawPackage) -> Result<Config, ConfigError> {
    if raw.name is None {
        Err(ConfigError::MissingRequiredField(ConfigField::Name))
    } else if raw.version is None {
        Err(ConfigError::MissingRequiredField(ConfigField::Version))
    } else if raw.minimum_divina_version is None {
        Err(ConfigError::MissingRequiredField(ConfigField::MinimumDivinaVersion))
    } else if raw.type_code is None {
        Err(ConfigError::MissingRequiredField(ConfigField::PackageTypeField))
    } else if decoded_package_type(raw.type_code->0) is None {
        Err(ConfigError::InvalidEnumValue(ConfigField::PackageTypeField, raw.type_code->0))
    } else if raw.arch_code is None {
        Err(ConfigError::MissingRequiredField(ConfigField::ArchField))
    } else if decoded_arch(raw.arch_code->0) is None {
        Err(ConfigError::InvalidEnumValue(ConfigField::ArchField, raw.arch_code->0))
    } else {
        Ok(
            Config {
                name: raw.name,
                version: raw.version,
                description: raw.description,
                license: raw.license,
                compile_options: raw.compile_options,
                minimum_divina_version: raw.minimum_divina_version,
                sources: raw.sources,
                config_type: ConfigType::Package,
                members: None,
                package_type: decoded_package_type(raw.type_code->0),
                path: None,
                arch: decoded_arch(raw.arch_code->0),
                compiler: raw.compiler,
                visual_studio: None,
            },
        )
    }
}

/// Project a raw package table into a validated package configuration,
/// checking required fields and enum codes.
pub fn project_package(raw: RawPackage) -> (r: Result<Config, ConfigError>)
    ensures
        r == projected_package(raw),
{
    if raw.name.is_none() {
        return Err(ConfigError::MissingRequiredField(ConfigField::Name));
    }
    if raw.version.is_none() {
        return Err(ConfigError::MissingRequiredField(ConfigField::Version));
    }
    if raw.minimum_divina_version.is_none() {
        return Err(ConfigError::MissingRequiredField(ConfigField::MinimumDivinaVersion));
    }
    let package_type = match &raw.type_code {
        None => {
            return Err(ConfigError::MissingRequiredField(ConfigField::PackageTypeField));
        },
        Some(n) => match PackageType::from_u8(*n) {
            None => {
                return Err(ConfigError::InvalidEnumValue(ConfigField::PackageTypeField, *n));
            },
            Some(t) => t,
        },
    };
    let arch = match &raw.arch_code {
        None => {
            return Err(ConfigError::MissingRequiredField(ConfigField::ArchField));
        },
        Some(n) => match Arch::from_u8(*n) {
            None => {
                return Err(ConfigError::InvalidEnumValue(ConfigField::ArchField, *n));
            },
            Some(a) => a,
        },
    };
    Ok(
        Config {
            name: raw.name,
            version: raw.version,
            description: raw.description,
            license: raw.license,
            compile_options: raw.compile_options,
            minimum_divina_version: raw.minimum_divina_version,
            sources: raw.sources,
            config_type: ConfigType::Package,
            members: None,
            package_type: Some(package_type),
            path: None,
            arch: Some(arch),
            compiler: raw.compiler,
            visual_studio: None,
        },
    )
}

/// What a script resolves to: a validated package configuration, or the
/// member directories of a workspace, in declaration order, each of which
/// the caller resolves in turn.
#[derive(Debug)]
pub enum ScriptRoot {
    Package(Config),
    Workspace(Vec<String>),
}

/// A package configuration as resolution hands it out: root table decided,
/// required fields present, enum codes decoded.
pub open spec fn resolved_package(c: Config) -> bool {
    &&& c.config_type is Package
    &&& c.name is Some
    &&& c.version is Some
    &&& c.minimum_divina_version is Some
    &&& c.package_type is Some
    &&& c.arch is Some
    &&& c.members is None
    &&& c.path is None
    &&& c.visual_studio is None
}

/// Resolve the text of a build script.
///
/// The script runs in a fresh interpreter after the read-only API prelude;
/// a script that fails to execute is a syntax error. Exactly one of the
/// global tables `Package` and `Workspace` must then be defined. A
/// `Package` table is projected into a validated package configuration; a
/// `Workspace` table must define `members`, whose directories are returned
/// for the caller to resolve.
///
/// What the script's tables hold comes from the interpreter, so no
/// contract can pin the result to the text; whatever came back, a returned
/// package configuration is validated, and every error is one of the
/// configuration errors.
pub fn resolve_script(source: &str) -> (r: Result<ScriptRoot, ConfigError>)
    ensures
        match r {
            Ok(ScriptRoot::Package(c)) => resolved_package(c),
            Ok(ScriptRoot::Workspace(_)) => true,
            Err(e) => e is SyntaxError || e is AmbiguousRootTable || e is MissingRequiredField
                || e is InvalidEnumValue,
        },
{
    let lua = lua_new();
    let prelude = api_prelude();
    if !lua_exec(&lua, prelude.as_str()) {
        return Err(ConfigError::SyntaxError);
    }
    if !lua_exec(&lua, source) {
        return Err(ConfigError::SyntaxError);
    }
    let has_package = lua_has_table(&lua, "Package");
    let has_workspace = lua_has_table(&lua, "Workspace");
    let root = match select_root(has_package, has_workspace) {
        Ok(t) => t,
        Err(e) => {
            return Err(e);
        },
    };
    match root {
        ConfigType::Package => {
            let raw = RawPackage {
                name: lua_get_string(&lua, "Package", "name"),
                version: lua_get_string(&lua, "Package", "version"),
                description: lua_get_string(&lua, "Package", "description"),
                license: lua_get_string(&lua, "Package", "license"),
                compile_options: lua_get_string_list(&lua, "Package", "compile_options"),
                minimum_divina_version: lua_get_string(
                    &lua,
                    "Package",
                    "minimum_divina_version",
                ),
                sources: lua_get_string_list(&lua, "Package", "sources"),
                type_code: lua_get_u8(&lua, "Package", "type"),
                arch_code: lua_get_u8(&lua, "Package", "arch"),
                compiler: lua_get_string(&lua, "Package", "compiler"),
            };
            match project_package(raw) {
                Ok(c) => Ok(ScriptRoot::Package(c)),
                Err(e) => Err(e),
            }
        },
        ConfigType::Workspace => {
            match lua_get_string_list(&lua, "Workspace", "members") {
                Some(members) => Ok(ScriptRoot::Workspace(members)),
                None => Err(ConfigError::MissingRequiredField(ConfigField::Members)),
            }
        },
    }
}

} // verus!

//! A small build tool for assembly-language projects.
//!
//! A build runs in three stages, each a module of this crate:
//!
//! - [`config`] and [`resolve`]: a declarative build script is executed in an
//!   embedded Lua interpreter and projected into a typed [`config::Config`]
//!   tree, either a single package or a workspace of member packages.
//! - [`plan`]: the configuration is flattened into an ordered list of build
//!   units, one per package, each holding resolved source paths and derived
//!   object-file base names.
//! - [`toolchain`]: every build unit is turned into a deterministic list of
//!   assembler and linker invocations, described as explicit argument arrays
//!   for the host platform.
//!
//! The crate itself performs no input or output: callers read script files,
//! hand their text to [`resolve::resolve_script`], and execute the command
//! lists that [`toolchain`] computes.

use vstd::prelude::*;

pub mod config;
pub mod paths;
pub mod plan;
pub mod resolve;
pub mod toolchain;

use config::Config;
use plan::Compiler;

verus! {

/// The top-level handle of the tool: the configuration of the current
/// invocation together with the compiler state derived from it.
pub struct Divina {
    pub config: Config,
    pub compiler: Compiler,
}

impl Divina {
    /// A fresh handle with a default configuration and an empty compiler.
    pub fn new() -> (d: Divina)
        ensures
            config::is_default_config(d.config),
            d.compiler.sources@.len() == 0,
            !d.compiler.is_package,
    {
        Divina { config: Config::new(), compiler: Compiler::new() }
    }

    /// Reset the configuration to its default, ready to be configured.
    pub fn new_config(&mut self)
        ensures
            config::is_default_config(final(self).config),
            final(self).compiler == old(self).compiler,
    {
        self.config = Config::new();
    }

    /// Install a resolved configuration.
    pub fn configure_config(&mut self, config: Config)
        ensures
            final(self).config == config,
            final(self).compiler == old(self).compiler,
    {
        self.config = config;
    }

    /// The configuration of this invocation.
    pub fn expose_config(&self) -> (c: &Config)
        ensures
            c == self.config,
    {
        &self.config
    }

    /// Install a compiler.
    pub fn configure_compiler(&mut self, compiler: Compiler)
        ensures
            final(self).compiler == compiler,
            final(self).config == old(self).config,
    {
        self.compiler = compiler;
    }

    /// The compiler of this invocation.
    pub fn expose_compiler(&self) -> (c: &Compiler)
        ensures
            c == self.compiler,
    {
        &self.compiler
    }
}

impl Default for Divina {
    fn default() -> (d: Divina)
        ensures
            config::is_default_config(d.config),
            d.compiler.sources@.len() == 0,
            !d.compiler.is_package,
    {
        Divina::new()
    }
}

} // verus!

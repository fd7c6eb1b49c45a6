//! The toolchain driver's decisions: which assembler format, which output
//! paths, and which commands to run for each build unit, on each host
//! platform.
//!
//! Nothing here touches the file system or starts a process. [`Compiler::compile`]
//! and [`Compiler::link`] compute ordered lists of steps — directories to
//! ensure, assembler invocations, linker invocations — and every command is
//! an explicit argument array. Callers execute the steps in order and treat
//! any failure as fatal.

use vstd::prelude::*;
use vstd::string::StringExecFns;

use crate::config::Arch;
use crate::plan::{BuildUnitView, Compiler, SourceView, units_view};

verus! {

/// The host platform a build runs on, detected at runtime by the caller so
/// that planning itself stays platform-agnostic.
#[derive(Debug, Clone, Copy, PartialEq, Eq, Structural)]
pub enum HostOs {
    Unix,
    Windows,
}

/// Everything that can go wrong while the computed steps are performed.
/// Each variant names its subject: the directory that could not be created,
/// or the program that could not be started or exited with a failure. Every
/// one is terminal: the caller reports it and aborts the whole build.
#[derive(Debug, Clone, PartialEq, Eq)]
pub enum ToolchainError {
    DirectoryCreateFailed(String),
    ProcessLaunchFailed(String),
    ProcessExitedNonZero(String),
}

impl ToolchainError {
    /// The human-readable diagnostic to print before aborting.
    pub fn message(&self) -> (r: String)
        ensures
            match self {
                ToolchainError::DirectoryCreateFailed(d) => r@ == "!! could not create directory '"@
                    + d@ + "', check permissions"@,
                ToolchainError::ProcessLaunchFailed(p) => r@ == "!! could not start `"@ + p@
                    + "`, perhaps it isn't installed ?"@,
                ToolchainError::ProcessExitedNonZero(p) => r@ == "!! `"@ + p@
                    + "` exited with a failure, aborting"@,
            },
    {
        match self {
            ToolchainError::DirectoryCreateFailed(d) => {
                let mut r = "!! could not create directory '".to_owned();
                r.append(d.as_str());
                r.append("', check permissions");
                proof {
                    assert(r@ =~= "!! could not create directory '"@ + d@
                        + "', check permissions"@);
                }
                r
            },
            ToolchainError::ProcessLaunchFailed(p) => {
                let mut r = "!! could not start `".to_owned();
                r.append(p.as_str());
                r.append("`, perhaps it isn't installed ?");
                proof {
                    assert(r@ =~= "!! could not start `"@ + p@
                        + "`, perhaps it isn't installed ?"@);
                }
                r
            },
            ToolchainError::ProcessExitedNonZero(p) => {
                let mut r = "!! `".to_owned();
                r.append(p.as_str());
                r.append("` exited with a failure, aborting");
                proof {
                    assert(r@ =~= "!! `"@ + p@ + "` exited with a failure, aborting"@);
                }
                r
            },
        }
    }
}

/// The object format handed to the assembler, chosen by host platform and
/// target architecture.
pub open spec fn object_format_of(os: HostOs, arch: Arch) -> Seq<char> {
    match (os, arch) {
        (HostOs::Unix, Arch::X86) => "elf32"@,
        (HostOs::Unix, Arch::X64) => "elf64"@,
        (HostOs::Windows, Arch::X86) => "win32"@,
        (HostOs::Windows, Arch::X64) => "win64"@,
    }
}

/// Select the assembler's object format for a platform and architecture.
pub fn object_format(os: HostOs, arch: Arch) -> (r: &'static str)
    ensures
        r@ == object_format_of(os, arch),
{
    match (os, arch) {
        (HostOs::Unix, Arch::X86) => "elf32",
        (HostOs::Unix, Arch::X64) => "elf64",
        (HostOs::Windows, Arch::X86) => "win32",
        (HostOs::Windows, Arch::X64) => "win64",
    }
}

/// The file extension of object files on a platform.
pub open spec fn object_extension_of(os: HostOs) -> Seq<char> {
    match os {
        HostOs::Unix => "o"@,
        HostOs::Windows => "obj"@,
    }
}

/// Select the object-file extension for a platform.
pub fn object_extension(os: HostOs) -> (r: &'static str)
    ensures
        r@ == object_extension_of(os),
{
    match os {
        HostOs::Unix => "o",
        HostOs::Windows => "obj",
    }
}

/// The directory a unit's outputs sit in: the output root itself under the
/// flat layout, a per-unit subdirectory otherwise.
pub open spec fn unit_dir_of(name: Seq<char>, flat: bool) -> Seq<char> {
    if flat {
        "out/"@
    } else {
        "out/"@ + name + "/"@
    }
}

/// Compute the output directory of a build unit.
pub fn unit_dir(name: &str, flat: bool) -> (r: String)
    ensures
        r@ == unit_dir_of(name@, flat),
{
    if flat {
        let r = "out/".to_owned();
        r
    } else {
        let mut r = "out/".to_owned();
        r.append(name);
        r.append("/");
        r
    }
}

/// The path of the object file assembled from one source of a unit.
pub open spec fn object_path_of(name: Seq<char>, base: Seq<char>, flat: bool, os: HostOs) -> Seq<
    char,
> {
    unit_dir_of(name, flat) + base + "."@ + object_extension_of(os)
}

/// Compute the object-file path for one source of a build unit.
pub fn object_path(name: &str, base: &str, flat: bool, os: HostOs) -> (r: String)
    ensures
        r@ == object_path_of(name@, base@, flat, os),
{
    let mut r = unit_dir(name, flat);
    r.append(base);
    r.append(".");
    r.append(object_extension(os));
    proof {
        assert(r@ =~= object_path_of(name@, base@, flat, os));
    }
    r
}

/// The path of a unit's linked binary: directly under the output root when
/// the layout is flat, under the per-unit subdirectory otherwise, with
/// `.exe` appended on windows.
pub open spec fn binary_path_of(name: Seq<char>, flat: bool, os: HostOs) -> Seq<char> {
    (if flat {
        "out/"@ + name
    } else {
        "out/"@ + name + "/"@ + name
    }) + (if os is Windows {
        ".exe"@
    } else {
        Seq::<char>::empty()
    })
}

/// Compute the binary path of a build unit.
pub fn binary_path(name: &str, flat: bool, os: HostOs) -> (r: String)
    ensures
        r@ == binary_path_of(name@, flat, os),
{
    let mut r = "out/".to_owned();
    r.append(name);
    if !flat {
        r.append("/");
        r.append(name);
    }
    if os == HostOs::Windows {
        r.append(".exe");
    }
    proof {
        assert(r@ =~= binary_path_of(name@, flat, os));
    }
    r
}

/// Output naming is a pure function of unit name, base filename, layout
/// flag and platform: two invocations against unchanged inputs always
/// compute identical object and binary paths, whatever was on disk before.
pub proof fn lemma_output_naming_idempotent(
    name: Seq<char>,
    base: Seq<char>,
    flat: bool,
    os: HostOs,
    first_object: Seq<char>,
    second_object: Seq<char>,
    first_binary: Seq<char>,
    second_binary: Seq<char>,
)
    requires
        first_object == object_path_of(name, base, flat, os),
        second_object == object_path_of(name, base, flat, os),
        first_binary == binary_path_of(name, flat, os),
        second_binary == binary_path_of(name, flat, os),
    ensures
        first_object == second_object,
        first_binary == second_binary,
{
}

/// One assembler invocation: `<program> -f <format> <input> -o <output>`.
#[derive(Debug, Clone)]
pub struct AssembleCommand {
    pub program: String,
    pub format: String,
    pub input: String,
    pub output: String,
}

/// The character-level content of an [`AssembleCommand`].
#[verifier::ext_equal]
pub ghost struct AssembleCommandView {
    pub program: Seq<char>,
    pub format: Seq<char>,
    pub input: Seq<char>,
    pub output: Seq<char>,
}

impl View for AssembleCommand {
    type V = AssembleCommandView;

    open spec fn view(&self) -> AssembleCommandView {
        AssembleCommandView {
            program: self.program@,
            format: self.format@,
            input: self.input@,
            output: self.output@,
        }
    }
}

/// The content of an argument list, argument by argument.
pub open spec fn argv_view(v: Vec<String>) -> Seq<Seq<char>> {
    v@.map_values(|s: String| s@)
}

/// The argument array of an assembler invocation.
pub open spec fn assemble_argv_of(c: AssembleCommandView) -> Seq<Seq<char>> {
    seq![c.program, "-f"@, c.format, c.input, "-o"@, c.output]
}

impl AssembleCommand {
    /// The argument array to execute, program first.
    pub fn argv(&self) -> (r: Vec<String>)
        ensures
            argv_view(r) == assemble_argv_of(self@),
    {
        let mut r: Vec<String> = Vec::new();
        r.push(self.program.clone());
        r.push("-f".to_owned());
        r.push(self.format.clone());
        r.push(self.input.clone());
        r.push("-o".to_owned());
        r.push(self.output.clone());
        proof {
            assert(argv_view(r) =~= assemble_argv_of(self@));
        }
        r
    }
}

/// One step of the compile stage, to be performed in order: ensure that a
/// directory exists (creating it if absent, never failing when it already
/// does), or run the assembler once.
#[derive(Debug, Clone)]
pub enum CompileStep {
    EnsureDir(String),
    Assemble(AssembleCommand),
}

/// The character-level content of a [`CompileStep`].
#[verifier::ext_equal]
pub ghost enum CompileStepView {
    EnsureDir(Seq<char>),
    Assemble(AssembleCommandView),
}

impl View for CompileStep {
    type V = CompileStepView;

    open spec fn view(&self) -> CompileStepView {
        match self {
            CompileStep::EnsureDir(d) => CompileStepView::EnsureDir(d@),
            CompileStep::Assemble(c) => CompileStepView::Assemble(c@),
        }
    }
}

/// The content of a compile-step list, step by step.
pub open spec fn compile_steps_view(v: Vec<CompileStep>) -> Seq<CompileStepView> {
    v@.map_values(|s: CompileStep| s@)
}

/// The assembler invocation for one source of a unit.
pub open spec fn assemble_of(
    u: BuildUnitView,
    s: SourceView,
    flat: bool,
    os: HostOs,
) -> AssembleCommandView {
    AssembleCommandView {
        program: u.compiler,
        format: object_format_of(os, u.arch),
        input: s.path,
        output: object_path_of(u.name, s.filename, flat, os),
    }
}

/// The compile steps of one unit: ensure its output directory, then
/// assemble each of its sources in declaration order.
pub open spec fn unit_compile_steps(u: BuildUnitView, flat: bool, os: HostOs) -> Seq<
    CompileStepView,
> {
    seq![CompileStepView::EnsureDir(unit_dir_of(u.name, flat))] + Seq::new(
        u.sources.len(),
        |i: int| CompileStepView::Assemble(assemble_of(u, u.sources[i], flat, os)),
    )
}

/// The compile steps of a unit list, unit after unit.
pub open spec fn units_compile_steps(units: Seq<BuildUnitView>, flat: bool, os: HostOs) -> Seq<
    CompileStepView,
>
    decreases units.len(),
{
    if units.len() == 0 {
        Seq::empty()
    } else {
        units_compile_steps(units.drop_last(), flat, os) + unit_compile_steps(
            units.last(),
            flat,
            os,
        )
    }
}

/// The whole compile stage: ensure the output root, then compile every unit
/// in planned order.
pub open spec fn compile_steps_of(units: Seq<BuildUnitView>, flat: bool, os: HostOs) -> Seq<
    CompileStepView,
> {
    seq![CompileStepView::EnsureDir("out/"@)] + units_compile_steps(units, flat, os)
}

/// A unit without sources contributes no assembler invocation to the
/// compile stage — only its directory — and no linker invocation at all.
pub proof fn lemma_empty_unit_builds_nothing(u: BuildUnitView, flat: bool, os: HostOs)
    requires
        u.sources.len() == 0,
    ensures
        unit_compile_steps(u, flat, os) == seq![
            CompileStepView::EnsureDir(unit_dir_of(u.name, flat)),
        ],
        link_steps_of(seq![u], flat, os) == Seq::<LinkStepView>::empty(),
{
    assert(unit_compile_steps(u, flat, os) =~= seq![
        CompileStepView::EnsureDir(unit_dir_of(u.name, flat)),
    ]);
    reveal_with_fuel(link_steps_of, 2);
    assert(seq![u].drop_last() =~= Seq::<BuildUnitView>::empty());
    assert(link_steps_of(seq![u], flat, os) =~= Seq::<LinkStepView>::empty());
}

/// The linker environment a unit links under: the system linker on unix;
/// on windows the unit's explicit developer-environment override when it
/// carries one, else the vendor activation script matching its
/// architecture.
#[derive(Debug, Clone)]
pub enum LinkEnv {
    UnixLd,
    WindowsVcvars32,
    WindowsVcvars64,
    WindowsCustom(String),
}

/// The character-level content of a [`LinkEnv`].
#[verifier::ext_equal]
pub ghost enum LinkEnvView {
    UnixLd,
    WindowsVcvars32,
    WindowsVcvars64,
    WindowsCustom(Seq<char>),
}

impl View for LinkEnv {
    type V = LinkEnvView;

    open spec fn view(&self) -> LinkEnvView {
        match self {
            LinkEnv::UnixLd => LinkEnvView::UnixLd,
            LinkEnv::WindowsVcvars32 => LinkEnvView::WindowsVcvars32,
            LinkEnv::WindowsVcvars64 => LinkEnvView::WindowsVcvars64,
            LinkEnv::WindowsCustom(p) => LinkEnvView::WindowsCustom(p@),
        }
    }
}

/// One linker invocation: the unit it links, the binary it produces, its
/// object files in source order, and the environment to link under.
#[derive(Debug, Clone)]
pub struct LinkStep {
    pub name: String,
    pub output: String,
    pub objects: Vec<String>,
    pub env: LinkEnv,
}

/// The character-level content of a [`LinkStep`].
#[verifier::ext_equal]
pub ghost struct LinkStepView {
    pub name: Seq<char>,
    pub output: Seq<char>,
    pub objects: Seq<Seq<char>>,
    pub env: LinkEnvView,
}

impl View for LinkStep {
    type V = LinkStepView;

    open spec fn view(&self) -> LinkStepView {
        LinkStepView {
            name: self.name@,
            output: self.output@,
            objects: self.objects@.map_values(|s: String| s@),
            env: self.env@,
        }
    }
}

/// The content of a link-step list, step by step.
pub open spec fn link_steps_view(v: Vec<LinkStep>) -> Seq<LinkStepView> {
    v@.map_values(|s: LinkStep| s@)
}

/// The linker environment of a unit on a platform.
pub open spec fn link_env_of(u: BuildUnitView, os: HostOs) -> LinkEnvView {
    match os {
        HostOs::Unix => LinkEnvView::UnixLd,
        HostOs::Windows => match u.visual_studio {
            Some(p) => LinkEnvView::WindowsCustom(p),
            None => if u.arch is X64 {
                LinkEnvView::WindowsVcvars64
            } else {
                LinkEnvView::WindowsVcvars32
            },
        },
    }
}

/// A unit's object files, one per source, in source order.
pub open spec fn unit_objects_of(u: BuildUnitView, flat: bool, os: HostOs) -> Seq<Seq<char>> {
    Seq::new(u.sources.len(), |i: int| object_path_of(u.name, u.sources[i].filename, flat, os))
}

/// The linker invocation of one unit.
pub open spec fn link_step_of(u: BuildUnitView, flat: bool, os: HostOs) -> LinkStepView {
    LinkStepView {
        name: u.name,
        output: binary_path_of(u.name, flat, os),
        objects: unit_objects_of(u, flat, os),
        env: link_env_of(u, os),
    }
}

/// The link steps of a unit list, in planned order; a unit without sources
/// has nothing to link and is skipped.
pub open spec fn link_steps_of(units: Seq<BuildUnitView>, flat: bool, os: HostOs) -> Seq<
    LinkStepView,
>
    decreases units.len(),
{
    if units.len() == 0 {
        Seq::empty()
    } else {
        link_steps_of(units.drop_last(), flat, os) + if units.last().sources.len() > 0 {
            seq![link_step_of(units.last(), flat, os)]
        } else {
            Seq::<LinkStepView>::empty()
        }
    }
}

/// The fixed dynamic-linker path handed to the unix system linker.
pub open spec fn unix_dynamic_linker() -> Seq<char> {
    "/lib64/ld-linux-x86-64.so.2"@
}

/// The argument array of one linker invocation, program first. On unix:
/// `ld -dynamic-linker <fixed path> -lc -o <output> <objects...>`. On
/// windows: `link /subsystem:console /out:<output> <objects...>` followed
/// by the fixed runtime libraries, to be run under the step's environment.
pub open spec fn link_argv_of(s: LinkStepView) -> Seq<Seq<char>> {
    match s.env {
        LinkEnvView::UnixLd => seq![
            "ld"@,
            "-dynamic-linker"@,
            unix_dynamic_linker(),
            "-lc"@,
            "-o"@,
            s.output,
        ] + s.objects,
        _ => seq!["link"@, "/subsystem:console"@, "/out:"@ + s.output] + s.objects + seq![
            "kernel32.lib"@,
            "msvcrt.lib"@,
            "legacy_stdio_definitions.lib"@,
        ],
    }
}

impl LinkStep {
    /// The argument array to execute, program first.
    pub fn argv(&self) -> (r: Vec<String>)
        ensures
            argv_view(r) == link_argv_of(self@),
    {
        let mut r: Vec<String> = Vec::new();
        let unix = match &self.env {
            LinkEnv::UnixLd => true,
            _ => false,
        };
        if unix {
            r.push("ld".to_owned());
            r.push("-dynamic-linker".to_owned());
            r.push("/lib64/ld-linux-x86-64.so.2".to_owned());
            r.push("-lc".to_owned());
            r.push("-o".to_owned());
            r.push(self.output.clone());
            proof {
                assert(argv_view(r) =~= seq![
                    "ld"@,
                    "-dynamic-linker"@,
                    unix_dynamic_linker(),
                    "-lc"@,
                    "-o"@,
                    self@.output,
                ]);
            }
        } else {
            r.push("link".to_owned());
            r.push("/subsystem:console".to_owned());
            let mut out_arg = "/out:".to_owned();
            out_arg.append(self.output.as_str());
            r.push(out_arg);
            proof {
                assert(argv_view(r) =~= seq![
                    "link"@,
                    "/subsystem:console"@,
                    "/out:"@ + self@.output,
                ]);
            }
        }
        let ghost head = argv_view(r);
        let mut i: usize = 0;
        while i < self.objects.len()
            invariant
                0 <= i <= self.objects@.len(),
                unix == (self@.env is UnixLd),
                head == (if unix {
                    seq!["ld"@, "-dynamic-linker"@, unix_dynamic_linker(), "-lc"@, "-o"@, self@.output]
                } else {
                    seq!["link"@, "/subsystem:console"@, "/out:"@ + self@.output]
                }),
                argv_view(r) =~= head + self@.objects.take(i as int),
            decreases self.objects@.len() - i,
        {
            let obj = self.objects[i].clone();
            proof {
                assert(obj@ == self@.objects[i as int]);
            }
            let ghost pre = argv_view(r);
            r.push(obj);
            proof {
                assert(argv_view(r) =~= pre.push(self@.objects[i as int]));
                assert(self@.objects.take(i + 1) =~= self@.objects.take(i as int).push(
                    self@.objects[i as int],
                ));
                assert(argv_view(r) =~= head + self@.objects.take(i + 1));
            }
            i = i + 1;
        }
        proof {
            assert(self@.objects.take(self.objects@.len() as int) =~= self@.objects);
            assert(argv_view(r) =~= head + self@.objects);
        }
        if !unix {
            r.push("kernel32.lib".to_owned());
            r.push("msvcrt.lib".to_owned());
            r.push("legacy_stdio_definitions.lib".to_owned());
        }
        proof {
            assert(argv_view(r) =~= link_argv_of(self@));
        }
        r
    }

    /// The developer-environment activation script to run the linker under,
    /// if the platform needs one: the unit's explicit override, or the
    /// vendor script matching its architecture; none on unix.
    pub fn env_script(&self) -> (r: Option<String>)
        ensures
            match self@.env {
                LinkEnvView::UnixLd => r is None,
                LinkEnvView::WindowsVcvars32 => r is Some && r->0@ == windows_vcvars32(),
                LinkEnvView::WindowsVcvars64 => r is Some && r->0@ == windows_vcvars64(),
                LinkEnvView::WindowsCustom(p) => r is Some && r->0@ == p,
            },
    {
        match &self.env {
            LinkEnv::UnixLd => None,
            LinkEnv::WindowsVcvars32 => Some(
                "C:\\Program Files\\Microsoft Visual Studio\\2022\\Community\\VC\\Auxiliary\\Build\\vcvars32.bat".to_owned(),
            ),
            LinkEnv::WindowsVcvars64 => Some(
                "C:\\Program Files\\Microsoft Visual Studio\\2022\\Community\\VC\\Auxiliary\\Build\\vcvars64.bat".to_owned(),
            ),
            LinkEnv::WindowsCustom(p) => Some(p.clone()),
        }
    }
}

/// The fixed path of the 32-bit vendor developer-environment script.
pub open spec fn windows_vcvars32() -> Seq<char> {
    "C:\\Program Files\\Microsoft Visual Studio\\2022\\Community\\VC\\Auxiliary\\Build\\vcvars32.bat"@
}

/// The fixed path of the 64-bit vendor developer-environment script.
pub open spec fn windows_vcvars64() -> Seq<char> {
    "C:\\Program Files\\Microsoft Visual Studio\\2022\\Community\\VC\\Auxiliary\\Build\\vcvars64.bat"@
}

impl Compiler {
    /// The compile stage over every planned unit: ensure the output root,
    /// then, unit by unit in planned order, ensure the unit's output
    /// directory and assemble each of its sources. A failing step aborts
    /// the whole build; a unit without sources assembles nothing.
    pub fn compile(&self, os: HostOs) -> (steps: Vec<CompileStep>)
        ensures
            compile_steps_view(steps) == compile_steps_of(
                units_view(self.sources),
                self.is_package,
                os,
            ),
    {
        let flat = self.is_package;
        let mut steps: Vec<CompileStep> = Vec::new();
        steps.push(CompileStep::EnsureDir("out/".to_owned()));
        let ghost units = units_view(self.sources);
        let mut i: usize = 0;
        while i < self.sources.len()
            invariant
                0 <= i <= self.sources@.len(),
                flat == self.is_package,
                units == units_view(self.sources),
                units.len() == self.sources@.len(),
                forall|j: int| 0 <= j < self.sources@.len() ==> units[j] == (
                #[trigger] self.sources@[j])@,
                compile_steps_view(steps) =~= seq![CompileStepView::EnsureDir("out/"@)]
                    + units_compile_steps(units.take(i as int), flat, os),
            decreases self.sources@.len() - i,
        {
            let u = &self.sources[i];
            let dir = unit_dir(u.name.as_str(), flat);
            steps.push(CompileStep::EnsureDir(dir));
            let mut j: usize = 0;
            while j < u.sources.len()
                invariant
                    0 <= j <= u.sources@.len(),
                    0 <= i < self.sources@.len(),
                    flat == self.is_package,
                    units == units_view(self.sources),
                    units.len() == self.sources@.len(),
                    u == &self.sources@[i as int],
                    u@ == units[i as int],
                    u@.sources.len() == u.sources@.len(),
                    compile_steps_view(steps) =~= seq![CompileStepView::EnsureDir("out/"@)]
                        + units_compile_steps(units.take(i as int), flat, os) + seq![
                        CompileStepView::EnsureDir(unit_dir_of(u@.name, flat)),
                    ] + Seq::new(
                        j as nat,
                        |k: int| CompileStepView::Assemble(
                            assemble_of(u@, u@.sources[k], flat, os),
                        ),
                    ),
                decreases u.sources@.len() - j,
            {
                let s = &u.sources[j];
                let cmd = AssembleCommand {
                    program: u.compiler.clone(),
                    format: object_format(os, u.arch).to_owned(),
                    input: s.path.clone(),
                    output: object_path(u.name.as_str(), s.filename.as_str(), flat, os),
                };
                proof {
                    assert(u@.sources[j as int] == s@);
                    assert(cmd@ =~= assemble_of(u@, u@.sources[j as int], flat, os));
                }
                let ghost cmdv = cmd@;
                let ghost pre = compile_steps_view(steps);
                steps.push(CompileStep::Assemble(cmd));
                proof {
                    assert(compile_steps_view(steps) =~= pre.push(CompileStepView::Assemble(cmdv)));
                    assert(Seq::new(
                        (j + 1) as nat,
                        |k: int| CompileStepView::Assemble(
                            assemble_of(u@, u@.sources[k], flat, os),
                        ),
                    ) =~= Seq::new(
                        j as nat,
                        |k: int| CompileStepView::Assemble(
                            assemble_of(u@, u@.sources[k], flat, os),
                        ),
                    ).push(CompileStepView::Assemble(assemble_of(u@, u@.sources[j as int], flat, os))));
                    assert(compile_steps_view(steps) =~= seq![CompileStepView::EnsureDir("out/"@)]
                        + units_compile_steps(units.take(i as int), flat, os) + seq![
                        CompileStepView::EnsureDir(unit_dir_of(u@.name, flat)),
                    ] + Seq::new(
                        (j + 1) as nat,
                        |k: int| CompileStepView::Assemble(
                            assemble_of(u@, u@.sources[k], flat, os),
                        ),
                    ));
                }
                j = j + 1;
            }
            proof {
                assert(Seq::new(
                    u@.sources.len(),
                    |k: int| CompileStepView::Assemble(assemble_of(u@, u@.sources[k], flat, os)),
                ) =~= Seq::new(
                    j as nat,
                    |k: int| CompileStepView::Assemble(assemble_of(u@, u@.sources[k], flat, os)),
                ));
                assert(units.take(i + 1).drop_last() =~= units.take(i as int));
                assert(units.take(i + 1).last() == units[i as int]);
                assert(units_compile_steps(units.take(i + 1), flat, os) == units_compile_steps(
                    units.take(i as int),
                    flat,
                    os,
                ) + unit_compile_steps(units[i as int], flat, os));
                assert(compile_steps_view(steps) =~= seq![CompileStepView::EnsureDir("out/"@)]
                    + units_compile_steps(units.take(i + 1), flat, os));
            }
            i = i + 1;
        }
        proof {
            assert(units.take(self.sources@.len() as int) =~= units);
            assert(compile_steps_view(steps) =~= compile_steps_of(units, flat, os));
        }
        steps
    }

    /// The link stage over every planned unit, in planned order: one linker
    /// invocation per unit that has sources, collecting its object files in
    /// source order. A failing step aborts the whole build; a unit without
    /// sources links nothing.
    pub fn link(&self, os: HostOs) -> (steps: Vec<LinkStep>)
        ensures
            link_steps_view(steps) == link_steps_of(units_view(self.sources), self.is_package, os),
    {
        let flat = self.is_package;
        let mut steps: Vec<LinkStep> = Vec::new();
        let ghost units = units_view(self.sources);
        let mut i: usize = 0;
        while i < self.sources.len()
            invariant
                0 <= i <= self.sources@.len(),
                flat == self.is_package,
                units == units_view(self.sources),
                units.len() == self.sources@.len(),
                forall|j: int| 0 <= j < self.sources@.len() ==> units[j] == (
                #[trigger] self.sources@[j])@,
                link_steps_view(steps) =~= link_steps_of(units.take(i as int), flat, os),
            decreases self.sources@.len() - i,
        {
            let u = &self.sources[i];
            if u.sources.len() > 0 {
                let mut objects: Vec<String> = Vec::new();
                let mut j: usize = 0;
                while j < u.sources.len()
                    invariant
                        0 <= j <= u.sources@.len(),
                        0 <= i < self.sources@.len(),
                        flat == self.is_package,
                        u == &self.sources@[i as int],
                        u@.sources.len() == u.sources@.len(),
                        objects@.map_values(|s: String| s@) =~= unit_objects_of(
                            u@,
                            flat,
                            os,
                        ).take(j as int),
                    decreases u.sources@.len() - j,
                {
                    let s = &u.sources[j];
                    let obj = object_path(u.name.as_str(), s.filename.as_str(), flat, os);
                    objects.push(obj);
                    proof {
                        assert(u@.sources[j as int] == s@);
                        assert(unit_objects_of(u@, flat, os).take(j + 1) =~= unit_objects_of(
                            u@,
                            flat,
                            os,
                        ).take(j as int).push(unit_objects_of(u@, flat, os)[j as int]));
                        assert(objects@.map_values(|s: String| s@) =~= unit_objects_of(
                            u@,
                            flat,
                            os,
                        ).take(j + 1));
                    }
                    j = j + 1;
                }
                proof {
                    assert(unit_objects_of(u@, flat, os).take(u.sources@.len() as int)
                        =~= unit_objects_of(u@, flat, os));
                }
                let env = match os {
                    HostOs::Unix => LinkEnv::UnixLd,
                    HostOs::Windows => match &u.visual_studio {
                        Some(p) => LinkEnv::WindowsCustom(p.clone()),
                        None => match u.arch {
                            Arch::X64 => LinkEnv::WindowsVcvars64,
                            Arch::X86 => LinkEnv::WindowsVcvars32,
                        },
                    },
                };
                let step = LinkStep {
                    name: u.name.clone(),
                    output: binary_path(u.name.as_str(), flat, os),
                    objects,
                    env,
                };
                proof {
                    assert(step@ =~= link_step_of(u@, flat, os));
                }
                steps.push(step);
            }
            proof {
                assert(units.take(i + 1).drop_last() =~= units.take(i as int));
                assert(units.take(i + 1).last() == units[i as int]);
                assert(link_steps_of(units.take(i + 1), flat, os) == link_steps_of(
                    units.take(i as int),
                    flat,
                    os,
                ) + if units[i as int].sources.len() > 0 {
                    seq![link_step_of(units[i as int], flat, os)]
                } else {
                    Seq::<LinkStepView>::empty()
                });
                assert(link_steps_view(steps) =~= link_steps_of(units.take(i + 1), flat, os));
            }
            i = i + 1;
        }
        proof {
            assert(units.take(self.sources@.len() as int) =~= units);
        }
        steps
    }
}

} // verus!

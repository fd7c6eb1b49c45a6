//! The build planner: flattening a resolved [`Config`] into an ordered list
//! of build units, one per package.
//!
//! For every non-empty source string of a package the planner resolves the
//! input path — the raw string joined under the package's originating
//! directory, when it has one — and derives the object-file base name by
//! stripping the file extension and then every directory component. The
//! same rule applies to single packages and to workspace members.

use vstd::prelude::*;

use crate::config::{Arch, Config, ConfigType};
use crate::paths::{base_name, base_name_of, join_path, joined_path, strip_extension,
    without_extension};

verus! {

/// One source file of a build unit: the path handed to the assembler, and
/// the base name its object file is named after.
#[derive(Debug, Clone)]
pub struct Source {
    pub filename: String,
    pub path: String,
}

/// The character-level content of a [`Source`].
#[verifier::ext_equal]
pub ghost struct SourceView {
    pub filename: Seq<char>,
    pub path: Seq<char>,
}

impl View for Source {
    type V = SourceView;

    open spec fn view(&self) -> SourceView {
        SourceView { filename: self.filename@, path: self.path@ }
    }
}

/// One package's fully resolved compile and link inputs: its name, its
/// resolved sources in declaration order, its target architecture, the
/// assembler to invoke, and an optional linker-environment override.
#[derive(Debug, Clone)]
pub struct BuildUnit {
    pub name: String,
    pub sources: Vec<Source>,
    pub arch: Arch,
    pub compiler: String,
    pub visual_studio: Option<String>,
}

/// The character-level content of a [`BuildUnit`].
#[verifier::ext_equal]
pub ghost struct BuildUnitView {
    pub name: Seq<char>,
    pub sources: Seq<SourceView>,
    pub arch: Arch,
    pub compiler: Seq<char>,
    pub visual_studio: Option<Seq<char>>,
}

impl View for BuildUnit {
    type V = BuildUnitView;

    open spec fn view(&self) -> BuildUnitView {
        BuildUnitView {
            name: self.name@,
            sources: self.sources@.map_values(|s: Source| s@),
            arch: self.arch,
            compiler: self.compiler@,
            visual_studio: match self.visual_studio {
                Some(s) => Some(s@),
                None => None,
            },
        }
    }
}

/// The source strings a configuration declares, as character sequences; an
/// absent list plans like an empty one.
pub open spec fn raw_sources(sources: Option<Vec<String>>) -> Seq<Seq<char>> {
    match sources {
        Some(v) => v@.map_values(|s: String| s@),
        None => Seq::empty(),
    }
}

/// The planned entry for one raw source string: the input path is the raw
/// string, joined under `dir` when the package has an originating
/// directory; the base name is the raw string with its extension and its
/// directory components stripped.
pub open spec fn planned_source(dir: Option<String>, raw: Seq<char>) -> SourceView {
    SourceView {
        path: match dir {
            Some(d) => joined_path(d@, raw),
            None => raw,
        },
        filename: base_name_of(without_extension(raw)),
    }
}

/// The planned entries for a list of raw source strings, in declaration
/// order; empty strings are skipped.
pub open spec fn planned_sources(dir: Option<String>, raws: Seq<Seq<char>>) -> Seq<SourceView>
    decreases raws.len(),
{
    if raws.len() == 0 {
        Seq::empty()
    } else {
        planned_sources(dir, raws.drop_last()) + if raws.last().len() > 0 {
            seq![planned_source(dir, raws.last())]
        } else {
            Seq::<SourceView>::empty()
        }
    }
}

/// The build unit a package configuration plans into. The assembler
/// defaults to `yasm` when the configuration names none.
pub open spec fn planned_unit(c: Config) -> BuildUnitView {
    BuildUnitView {
        name: c.name->0@,
        sources: planned_sources(c.path, raw_sources(c.sources)),
        arch: c.arch->0,
        compiler: match c.compiler {
            Some(s) => s@,
            None => "yasm"@,
        },
        visual_studio: match c.visual_studio {
            Some(s) => Some(s@),
            None => None,
        },
    }
}

/// A package configuration carries what planning one unit reads: its name
/// and its architecture. Resolution guarantees both.
pub open spec fn package_plannable(c: Config) -> bool {
    c.name is Some && c.arch is Some
}

/// A configuration the planner is total over: a package with its required
/// fields present, or a workspace whose members all have them.
pub open spec fn plannable(c: Config) -> bool {
    match c.config_type {
        ConfigType::Package => package_plannable(c),
        ConfigType::Workspace => c.members is Some && forall|i: int|
            0 <= i < c.members->0@.len() ==> package_plannable(#[trigger] c.members->0@[i]),
    }
}

/// The ordered list of build units a configuration plans into: one for a
/// package, one per member in declaration order for a workspace.
pub open spec fn planned_units(c: Config) -> Seq<BuildUnitView> {
    match c.config_type {
        ConfigType::Package => seq![planned_unit(c)],
        ConfigType::Workspace => c.members->0@.map_values(|m: Config| planned_unit(m)),
    }
}

/// The content of a unit list, unit by unit.
pub open spec fn units_view(v: Vec<BuildUnit>) -> Seq<BuildUnitView> {
    v@.map_values(|u: BuildUnit| u@)
}

/// A package that declares no source strings — an absent or empty list —
/// plans into a build unit with no source entries at all.
pub proof fn lemma_no_sources_plan_empty(c: Config)
    requires
        raw_sources(c.sources).len() == 0,
    ensures
        planned_unit(c).sources.len() == 0,
{
}

/// Decide at runtime whether the planner is total over a configuration, so
/// that unverified callers can test the planner's precondition before
/// calling it.
pub fn is_plannable(c: &Config) -> (r: bool)
    ensures
        r == plannable(*c),
{
    match c.config_type {
        ConfigType::Package => c.name.is_some() && c.arch.is_some(),
        ConfigType::Workspace => match &c.members {
            None => false,
            Some(members) => {
                let mut i: usize = 0;
                while i < members.len()
                    invariant
                        0 <= i <= members@.len(),
                        c.config_type is Workspace,
                        c.members == Some(*members),
                        forall|j: int| 0 <= j < i ==> package_plannable(#[trigger] members@[j]),
                    decreases members@.len() - i,
                {
                    let m = &members[i];
                    if !(m.name.is_some() && m.arch.is_some()) {
                        proof {
                            assert(!package_plannable(c.members->0@[i as int]));
                        }
                        return false;
                    }
                    i = i + 1;
                }
                true
            },
        },
    }
}

/// Plan one package configuration into its build unit.
fn plan_unit(c: &Config) -> (u: BuildUnit)
    requires
        package_plannable(*c),
    ensures
        u@ == planned_unit(*c),
{
    let name = match &c.name {
        Some(n) => n.clone(),
        None => {
            proof {
                assert(false);
            }
            String::new()
        },
    };
    let arch = match &c.arch {
        Some(a) => *a,
        None => {
            proof {
                assert(false);
            }
            Arch::X86
        },
    };
    let compiler = match &c.compiler {
        Some(s) => s.clone(),
        None => "yasm".to_owned(),
    };
    let visual_studio = match &c.visual_studio {
        Some(s) => Some(s.clone()),
        None => None,
    };

    let mut sources: Vec<Source> = Vec::new();
    if let Some(raws) = &c.sources {
        let ghost all = raw_sources(c.sources);
        let mut i: usize = 0;
        while i < raws.len()
            invariant
                0 <= i <= raws.len(),
                all == raw_sources(c.sources),
                c.sources == Some(*raws),
                all.len() == raws@.len(),
                forall|j: int| 0 <= j < raws@.len() ==> all[j] == (#[trigger] raws@[j])@,
                sources@.map_values(|s: Source| s@) =~= planned_sources(c.path, all.take(i as int)),
            decreases raws.len() - i,
        {
            let raw = &raws[i];
            if !raw.as_str().is_empty() {
                let path = match &c.path {
                    Some(d) => join_path(d.as_str(), raw.as_str()),
                    None => raw.clone(),
                };
                let stem = strip_extension(raw.as_str());
                let filename = base_name(stem.as_str());
                sources.push(Source { filename, path });
            }
            proof {
                assert(all.take(i + 1).drop_last() =~= all.take(i as int));
                assert(all.take(i + 1).last() == all[i as int]);
                assert(sources@.map_values(|s: Source| s@) =~= planned_sources(
                    c.path,
                    all.take(i + 1),
                ));
            }
            i = i + 1;
        }
        proof {
            assert(all.take(raws@.len() as int) =~= all);
        }
    } else {
        proof {
            assert(raw_sources(c.sources) =~= Seq::<Seq<char>>::empty());
            assert(sources@.map_values(|s: Source| s@) =~= planned_sources(
                c.path,
                raw_sources(c.sources),
            ));
        }
    }

    let u = BuildUnit { name, sources, arch, compiler, visual_studio };
    proof {
        assert(u@ =~= planned_unit(*c));
    }
    u
}

/// The compiler: the flat list of planned build units, consumed unit by
/// unit by the toolchain stage.
#[derive(Debug, Clone)]
pub struct Compiler {
    pub sources: Vec<BuildUnit>,
    /// True iff exactly one build unit was planned: output files then sit
    /// directly under the output root instead of a per-unit subdirectory.
    pub is_package: bool,
}

impl Compiler {
    /// An empty compiler, before any configuration is planned.
    pub fn new() -> (c: Compiler)
        ensures
            c.sources@.len() == 0,
            !c.is_package,
    {
        Compiler { sources: Vec::new(), is_package: false }
    }

    /// Plan a configuration, appending its build units in order: one unit
    /// for a package, one per member for a workspace. Afterwards the layout
    /// is flat exactly when one unit in total has been planned.
    pub fn find_sources(&mut self, config: &Config) -> (r: &Compiler)
        requires
            plannable(*config),
        ensures
            units_view(final(self).sources) == units_view(old(self).sources) + planned_units(
                *config,
            ),
            final(self).is_package == (final(self).sources@.len() == 1),
            *r == *final(self),
    {
        if config.config_type == ConfigType::Workspace {
            let members = match &config.members {
                Some(m) => m,
                None => {
                    proof {
                        assert(false);
                    }
                    &Vec::new()
                },
            };
            let ghost planned = planned_units(*config);
            let mut i: usize = 0;
            while i < members.len()
                invariant
                    0 <= i <= members.len(),
                    config.members == Some(*members),
                    plannable(*config),
                    config.config_type is Workspace,
                    planned == planned_units(*config),
                    planned.len() == members@.len(),
                    forall|j: int| 0 <= j < members@.len() ==> planned[j] == planned_unit(
                        #[trigger] members@[j],
                    ),
                    units_view(self.sources) =~= units_view(old(self).sources) + planned.take(
                        i as int,
                    ),
                decreases members.len() - i,
            {
                let u = plan_unit(&members[i]);
                proof {
                    assert(u@ == planned_unit(members@[i as int]));
                }
                let ghost pre_units = units_view(self.sources);
                self.sources.push(u);
                proof {
                    assert(units_view(self.sources) =~= pre_units.push(u@));
                    assert(planned.take(i + 1) =~= planned.take(i as int).push(
                        planned_unit(members@[i as int]),
                    ));
                    assert(units_view(self.sources) =~= units_view(old(self).sources)
                        + planned.take(i + 1));
                }
                i = i + 1;
            }
            proof {
                assert(planned.take(members@.len() as int) =~= planned);
                assert(units_view(self.sources) =~= units_view(old(self).sources) + planned);
            }
        } else {
            let u = plan_unit(config);
            self.sources.push(u);
            proof {
                assert(units_view(self.sources) =~= units_view(old(self).sources) + planned_units(
                    *config,
                ));
            }
        }
        self.is_package = self.sources.len() == 1;
        proof {
            assert(units_view(self.sources) == units_view(old(self).sources) + planned_units(
                *config,
            ));
        }
        self
    }
}

impl Default for Compiler {
    fn default() -> (c: Compiler)
        ensures
            c.sources@.len() == 0,
            !c.is_package,
    {
        Compiler::new()
    }
}

} // verus!

use divina::config::{Arch, Config, PackageType};
use divina::paths::{base_name, join_path, strip_extension};
use divina::plan::{is_plannable, Compiler};

fn package(name: &str, arch: Arch, sources: Vec<&str>) -> Config {
    let mut c = Config::new();
    c.name = Some(name.to_string());
    c.version = Some("0.1.0".to_string());
    c.minimum_divina_version = Some("0.1.0".to_string());
    c.package_type = Some(PackageType::Bin);
    c.arch = Some(arch);
    c.sources = Some(sources.into_iter().map(|s| s.to_string()).collect());
    c
}

#[test]
fn strip_extension_keeps_everything_before_the_last_dot() {
    assert_eq!(strip_extension("main.asm"), "main");
    assert_eq!(strip_extension("a.b.c"), "a.b");
    assert_eq!(strip_extension("src/main.asm"), "src/main");
    assert_eq!(strip_extension("main"), "");
    assert_eq!(strip_extension(""), "");
}

#[test]
fn base_name_keeps_everything_after_the_last_slash() {
    assert_eq!(base_name("src/main"), "main");
    assert_eq!(base_name("a/b/c"), "c");
    assert_eq!(base_name("main"), "main");
    assert_eq!(base_name(""), "");
}

#[test]
fn join_path_inserts_one_slash() {
    assert_eq!(join_path("m1", "a.asm"), "m1/a.asm");
    assert_eq!(join_path("", "a.asm"), "/a.asm");
}

#[test]
fn package_plan_yields_one_unit_with_derived_base_names() {
    let config = package("pkg", Arch::X86, vec!["main.asm", "util.asm"]);
    let mut compiler = Compiler::new();
    compiler.find_sources(&config);
    assert_eq!(compiler.sources.len(), 1);
    assert!(compiler.is_package);
    let unit = &compiler.sources[0];
    assert_eq!(unit.name, "pkg");
    assert_eq!(unit.sources.len(), 2);
    assert_eq!(unit.sources[0].filename, "main");
    assert_eq!(unit.sources[0].path, "main.asm");
    assert_eq!(unit.sources[1].filename, "util");
    assert_eq!(unit.sources[1].path, "util.asm");
}

#[test]
fn package_plan_strips_directories_from_base_names() {
    let config = package("pkg", Arch::X86, vec!["src/main.asm"]);
    let mut compiler = Compiler::new();
    compiler.find_sources(&config);
    let unit = &compiler.sources[0];
    assert_eq!(unit.sources[0].path, "src/main.asm");
    assert_eq!(unit.sources[0].filename, "main");
}

#[test]
fn workspace_plan_yields_units_in_member_order() {
    let first = package("first", Arch::X86, vec!["a.asm"]).with_path("m1".to_string());
    let second = package("second", Arch::X64, vec!["b.asm"]).with_path("m2".to_string());
    let config = Config::workspace(vec![first, second]);
    let mut compiler = Compiler::new();
    compiler.find_sources(&config);
    assert_eq!(compiler.sources.len(), 2);
    assert!(!compiler.is_package);
    assert_eq!(compiler.sources[0].name, "first");
    assert_eq!(compiler.sources[0].sources[0].path, "m1/a.asm");
    assert_eq!(compiler.sources[0].sources[0].filename, "a");
    assert_eq!(compiler.sources[1].name, "second");
    assert_eq!(compiler.sources[1].sources[0].path, "m2/b.asm");
    assert_eq!(compiler.sources[1].sources[0].filename, "b");
}

#[test]
fn compiler_defaults_to_yasm() {
    let config = package("pkg", Arch::X86, vec!["main.asm"]);
    let mut compiler = Compiler::new();
    compiler.find_sources(&config);
    assert_eq!(compiler.sources[0].compiler, "yasm");
}

#[test]
fn compiler_override_is_kept() {
    let mut config = package("pkg", Arch::X86, vec!["main.asm"]);
    config.compiler = Some("nasm".to_string());
    let mut compiler = Compiler::new();
    compiler.find_sources(&config);
    assert_eq!(compiler.sources[0].compiler, "nasm");
}

#[test]
fn empty_source_strings_are_skipped() {
    let config = package("pkg", Arch::X86, vec!["", "main.asm", ""]);
    let mut compiler = Compiler::new();
    compiler.find_sources(&config);
    let unit = &compiler.sources[0];
    assert_eq!(unit.sources.len(), 1);
    assert_eq!(unit.sources[0].filename, "main");
}

#[test]
fn empty_source_list_yields_unit_without_sources() {
    let config = package("pkg", Arch::X86, vec![]);
    let mut compiler = Compiler::new();
    compiler.find_sources(&config);
    assert_eq!(compiler.sources.len(), 1);
    assert_eq!(compiler.sources[0].sources.len(), 0);
}

#[test]
fn absent_source_list_plans_like_an_empty_one() {
    let mut config = package("pkg", Arch::X86, vec![]);
    config.sources = None;
    let mut compiler = Compiler::new();
    compiler.find_sources(&config);
    assert_eq!(compiler.sources.len(), 1);
    assert_eq!(compiler.sources[0].sources.len(), 0);
}

#[test]
fn plannable_needs_name_and_architecture() {
    let config = package("pkg", Arch::X86, vec![]);
    assert!(is_plannable(&config));

    let mut nameless = package("pkg", Arch::X86, vec![]);
    nameless.name = None;
    assert!(!is_plannable(&nameless));

    let member = package("m", Arch::X86, vec![]).with_path("m".to_string());
    assert!(is_plannable(&Config::workspace(vec![member])));

    let mut archless = package("m", Arch::X86, vec![]).with_path("m".to_string());
    archless.arch = None;
    assert!(!is_plannable(&Config::workspace(vec![archless])));

    let mut no_members = Config::workspace(vec![]);
    no_members.members = None;
    assert!(!is_plannable(&no_members));
}

#[test]
fn planning_twice_appends_and_updates_layout_flag() {
    let config = package("pkg", Arch::X86, vec!["main.asm"]);
    let mut compiler = Compiler::new();
    compiler.find_sources(&config);
    assert!(compiler.is_package);
    compiler.find_sources(&config);
    assert_eq!(compiler.sources.len(), 2);
    assert!(!compiler.is_package);
}

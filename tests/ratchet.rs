use by_name_ratchet::{
    relative_dir_for_package, relative_file_for_package, shard_for_package, shard_from_lowercase,
    CallPackageArgumentInfo, EditIntent, ManualDefinition, MigrationError, MigrationPlan,
    NixpkgsProblem, Nixpkgs, NodeRange, Package, RatchetState, UsesByName, UsesByNameContext,
    Validation,
};

fn context(path: Option<&str>, empty_arg: bool, file: &str, node: (usize, usize), arg: (usize, usize)) -> UsesByNameContext {
    UsesByNameContext {
        call_package_argument_info: CallPackageArgumentInfo {
            relative_path: path.map(|p| p.to_string()),
            empty_arg,
        },
        file: file.to_string(),
        line: 1,
        syntax_node: NodeRange { start: node.0, end: node.1 },
        argument: NodeRange { start: arg.0, end: arg.1 },
    }
}

fn loose_ctx() -> UsesByNameContext {
    context(Some("pkgs/tools/foo/default.nix"), true, "pkgs/top-level/all-packages.nix", (10, 40), (22, 40))
}

fn tight() -> Package {
    Package { manual_definition: RatchetState::Tight, uses_by_name: RatchetState::Tight }
}

fn loose(ctx: UsesByNameContext) -> Package {
    Package { manual_definition: RatchetState::Tight, uses_by_name: RatchetState::Loose(ctx) }
}

fn snapshot(items: Vec<(&str, Package)>) -> Nixpkgs {
    let mut n = Nixpkgs::new();
    for (name, p) in items {
        assert!(n.insert(name.to_string(), p).is_ok());
    }
    n
}

fn problems(v: Validation) -> Vec<NixpkgsProblem> {
    match v {
        Validation::Success => Vec::new(),
        Validation::Failure(p) => p,
    }
}

fn problem_name(p: &NixpkgsProblem) -> String {
    match p {
        NixpkgsProblem::WrongCallPackage { package_name, .. } => package_name.clone(),
        NixpkgsProblem::MovedOutOfByName { package_name, .. } => package_name.clone(),
        NixpkgsProblem::NewPackageNotUsingByName { package_name, .. } => package_name.clone(),
    }
}

#[test]
fn new_tight_package_succeeds() {
    let v = Nixpkgs::compare(snapshot(vec![]), snapshot(vec![("foo", tight())]));
    assert!(v.is_success());
}

#[test]
fn tight_to_loose_is_regression() {
    let v = Nixpkgs::compare(snapshot(vec![("foo", tight())]), snapshot(vec![("foo", loose(loose_ctx()))]));
    let p = problems(v);
    assert_eq!(p.len(), 1);
    match &p[0] {
        NixpkgsProblem::MovedOutOfByName { package_name, call_package_path, empty_arg } => {
            assert_eq!(package_name, "foo");
            assert_eq!(call_package_path.as_deref(), Some("pkgs/tools/foo/default.nix"));
            assert!(*empty_arg);
        }
        other => panic!("unexpected problem {:?}", other),
    }
}

#[test]
fn new_loose_is_new_violation() {
    let v = Nixpkgs::compare(snapshot(vec![]), snapshot(vec![("foo", loose(loose_ctx()))]));
    let p = problems(v);
    assert_eq!(p.len(), 1);
    assert!(matches!(&p[0], NixpkgsProblem::NewPackageNotUsingByName { package_name, .. } if package_name == "foo"));
}

#[test]
fn loose_to_loose_is_grandfathered() {
    let ctx2 = context(Some("pkgs/other/foo.nix"), false, "pkgs/top-level/aliases.nix", (1, 2), (1, 2));
    let v = Nixpkgs::compare(snapshot(vec![("foo", loose(loose_ctx()))]), snapshot(vec![("foo", loose(ctx2))]));
    assert!(v.is_success());
}

#[test]
fn only_the_loose_package_is_reported() {
    let v = Nixpkgs::compare(
        snapshot(vec![]),
        snapshot(vec![("foo", loose(loose_ctx())), ("bar", tight())]),
    );
    let p = problems(v);
    assert_eq!(p.len(), 1);
    assert_eq!(problem_name(&p[0]), "foo");
}

#[test]
fn settled_target_never_fails() {
    let from = snapshot(vec![("foo", loose(loose_ctx())), ("bar", tight())]);
    let to = snapshot(vec![
        ("foo", Package { manual_definition: RatchetState::NonApplicable, uses_by_name: RatchetState::Tight }),
        ("bar", Package { manual_definition: RatchetState::Tight, uses_by_name: RatchetState::NonApplicable }),
    ]);
    assert!(Nixpkgs::compare(from, to).is_success());
}

#[test]
fn non_applicable_to_loose_is_allowed() {
    let from = snapshot(vec![(
        "foo",
        Package { manual_definition: RatchetState::Tight, uses_by_name: RatchetState::NonApplicable },
    )]);
    let to = snapshot(vec![("foo", loose(loose_ctx()))]);
    assert!(Nixpkgs::compare(from, to).is_success());
}

#[test]
fn problems_follow_order_of_to_and_match_as_a_set() {
    let a = snapshot(vec![("foo", loose(loose_ctx())), ("bar", loose(loose_ctx())), ("baz", tight())]);
    let b = snapshot(vec![("baz", tight()), ("bar", loose(loose_ctx())), ("foo", loose(loose_ctx()))]);
    let pa: Vec<String> = problems(Nixpkgs::compare(snapshot(vec![]), a)).iter().map(problem_name).collect();
    let pb: Vec<String> = problems(Nixpkgs::compare(snapshot(vec![]), b)).iter().map(problem_name).collect();
    assert_eq!(pa, vec!["foo".to_string(), "bar".to_string()]);
    assert_eq!(pb, vec!["bar".to_string(), "foo".to_string()]);
}

#[test]
fn every_slot_of_a_package_is_reported() {
    let to = Package { manual_definition: RatchetState::Loose(()), uses_by_name: RatchetState::Loose(loose_ctx()) };
    let p = problems(Package::compare("Foo", None, &to));
    assert_eq!(p.len(), 2);
    match &p[0] {
        NixpkgsProblem::WrongCallPackage { relative_package_file, package_name } => {
            assert_eq!(relative_package_file, "pkgs/by-name/fo/Foo/package.nix");
            assert_eq!(package_name, "Foo");
        }
        other => panic!("unexpected problem {:?}", other),
    }
    assert!(matches!(&p[1], NixpkgsProblem::NewPackageNotUsingByName { .. }));
}

#[test]
fn slot_compare_transitions() {
    let tight: RatchetState<UsesByName> = RatchetState::Tight;
    let l: RatchetState<UsesByName> = RatchetState::Loose(loose_ctx());
    assert!(RatchetState::compare("foo", Some(&l), &l).is_success());
    assert!(RatchetState::compare("foo", Some(&l), &tight).is_success());
    assert!(RatchetState::compare("foo", None, &tight).is_success());
    assert!(matches!(&problems(RatchetState::compare("foo", Some(&tight), &l))[0], NixpkgsProblem::MovedOutOfByName { .. }));
    let m: RatchetState<ManualDefinition> = RatchetState::Loose(());
    assert_eq!(problems(RatchetState::compare("foo", Some(&RatchetState::Tight), &m)).len(), 1);
}

#[test]
fn migration_without_location_is_manual() {
    let ctx = context(None, true, "pkgs/top-level/all-packages.nix", (10, 40), (22, 40));
    let mut plan = MigrationPlan::new();
    assert!(snapshot(vec![("foo", loose(ctx))]).migrate(&mut plan).is_ok());
    assert!(plan.edits.is_empty());
    assert!(plan.relocations.is_empty());
    assert_eq!(plan.manual, vec!["foo".to_string()]);
}

#[test]
fn migration_with_empty_argument_deletes_the_entry() {
    let mut plan = MigrationPlan::new();
    assert!(snapshot(vec![("foo", loose(loose_ctx()))]).migrate(&mut plan).is_ok());
    assert_eq!(plan.edits.len(), 1);
    assert_eq!(plan.edits[0].file, "pkgs/top-level/all-packages.nix");
    assert_eq!(plan.edits[0].range, NodeRange { start: 10, end: 40 });
    assert_eq!(plan.edits[0].replacement, "");
    assert_eq!(
        plan.relocations,
        vec![("pkgs/tools/foo/default.nix".to_string(), "pkgs/by-name/fo/foo".to_string())]
    );
    assert!(plan.manual.is_empty());
}

#[test]
fn migration_with_overrides_replaces_the_path_argument() {
    let ctx = context(Some("pkgs/tools/bar"), false, "pkgs/top-level/all-packages.nix", (50, 90), (62, 76));
    let mut plan = MigrationPlan::new();
    assert!(snapshot(vec![("Bar", loose(ctx))]).migrate(&mut plan).is_ok());
    assert_eq!(plan.edits.len(), 1);
    assert_eq!(plan.edits[0].range, NodeRange { start: 62, end: 76 });
    assert_eq!(plan.edits[0].replacement, "pkgs/by-name/ba/Bar");
    assert_eq!(plan.relocations[0].1, "pkgs/by-name/ba/Bar");
}

#[test]
fn migration_of_tight_packages_does_nothing() {
    let mut plan = MigrationPlan::new();
    assert!(snapshot(vec![("foo", tight())]).migrate(&mut plan).is_ok());
    assert!(plan.edits.is_empty() && plan.relocations.is_empty() && plan.manual.is_empty());
}

#[test]
fn overlapping_edits_abort_the_migration() {
    let a = context(Some("pkgs/a"), true, "pkgs/top-level/all-packages.nix", (10, 40), (20, 30));
    let b = context(Some("pkgs/b"), true, "pkgs/top-level/all-packages.nix", (30, 60), (40, 50));
    let mut plan = MigrationPlan::new();
    let c = context(None, true, "pkgs/top-level/all-packages.nix", (70, 80), (72, 80));
    let r = snapshot(vec![("a", loose(a)), ("b", loose(b)), ("c", loose(c))]).migrate(&mut plan);
    match r {
        Err(MigrationError::OverlappingEdit(e)) => assert_eq!(e.range, NodeRange { start: 30, end: 60 }),
        other => panic!("unexpected result {:?}", other),
    }
    // The plan is the one left by the packages before the failing one.
    assert_eq!(plan.edits.len(), 1);
    assert_eq!(plan.edits[0].range, NodeRange { start: 10, end: 40 });
    assert_eq!(plan.relocations.len(), 1);
    assert!(plan.manual.is_empty());
}

#[test]
fn same_range_in_other_files_does_not_overlap() {
    let a = context(Some("pkgs/a"), true, "one.nix", (10, 40), (20, 30));
    let b = context(Some("pkgs/b"), true, "two.nix", (10, 40), (20, 30));
    let mut plan = MigrationPlan::new();
    assert!(snapshot(vec![("a", loose(a)), ("b", loose(b))]).migrate(&mut plan).is_ok());
    assert_eq!(plan.edits.len(), 2);
}

#[test]
fn adjacent_edits_do_not_overlap() {
    let mut plan = MigrationPlan::new();
    let e = |s, t| EditIntent { file: "f.nix".to_string(), range: NodeRange { start: s, end: t }, replacement: String::new() };
    assert!(plan.add_edit(e(0, 5)).is_ok());
    assert!(plan.add_edit(e(5, 9)).is_ok());
    assert!(matches!(plan.add_edit(e(4, 6)), Err(MigrationError::OverlappingEdit(_))));
    assert_eq!(plan.edits.len(), 2);
}

#[test]
fn reversed_range_is_refused() {
    let mut plan = MigrationPlan::new();
    let e = EditIntent { file: "f.nix".to_string(), range: NodeRange { start: 7, end: 3 }, replacement: String::new() };
    assert!(matches!(plan.add_edit(e), Err(MigrationError::InvalidRange(_))));
    assert!(plan.edits.is_empty());
}

#[test]
fn duplicate_package_name_is_refused() {
    let mut n = Nixpkgs::new();
    assert!(n.insert("foo".to_string(), tight()).is_ok());
    assert!(n.insert("foo".to_string(), loose(loose_ctx())).is_err());
    assert_eq!(n.package_names.len(), 1);
    assert_eq!(n.find(&"foo".to_string()), Some(0));
    assert!(n.get(&"bar".to_string()).is_none());
}

#[test]
fn package_paths_use_lowercased_shard() {
    assert_eq!(shard_for_package("HeLLo"), "he");
    assert_eq!(shard_for_package("A"), "a");
    assert_eq!(shard_for_package(""), "");
    assert_eq!(shard_from_lowercase("hello"), "he");
    assert_eq!(relative_dir_for_package("Zlib"), "pkgs/by-name/zl/Zlib");
    assert_eq!(relative_file_for_package("zlib"), "pkgs/by-name/zl/zlib/package.nix");
}

#[test]
fn package_migration_hands_on_the_slot_error() {
    let mut plan = MigrationPlan::new();
    let first = EditIntent { file: "pkgs/top-level/all-packages.nix".to_string(), range: NodeRange { start: 0, end: 20 }, replacement: String::new() };
    assert!(plan.add_edit(first).is_ok());
    let r = loose(loose_ctx()).migrate(&mut plan, "foo");
    match r {
        Err(MigrationError::OverlappingEdit(e)) => {
            assert_eq!(e.range, NodeRange { start: 10, end: 40 });
            assert_eq!(e.file, "pkgs/top-level/all-packages.nix");
            assert_eq!(e.replacement, "");
        }
        other => panic!("unexpected result {:?}", other),
    }
    assert_eq!(plan.edits.len(), 1);
    assert!(plan.relocations.is_empty());
}

#[test]
fn context_validity_requires_argument_inside_entry() {
    assert!(loose_ctx().is_wf());
    assert!(!context(Some("p"), false, "f.nix", (10, 20), (15, 25)).is_wf());
    assert!(!context(Some("p"), false, "f.nix", (10, 20), (8, 12)).is_wf());
    assert!(!context(Some("p"), false, "f.nix", (10, 20), (14, 12)).is_wf());
}

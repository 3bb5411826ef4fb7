//! The ratchet checks. Each type has a `compare` function that validates the
//! ratchet checks for that item, and a `migrate` function that requests the
//! edits that tighten its loose ratchets.
use vstd::prelude::*;
use crate::edits::{
    error_of, EditIntent, MigrationError, MigrationOutcome, MigrationPlan, MigrationPlanView,
    NodeRange,
};
use crate::problem::{clone_option, option_view, NixpkgsProblem, ProblemView, Validation};
use crate::structure::{
    relative_dir_for_package, relative_file_for_package, spec_relative_dir_for_package,
    spec_relative_file_for_package,
};

verus! {

pub open spec fn deref_opt<T>(o: Option<&T>) -> Option<T> {
    match o {
        Some(x) => Some(*x),
        None => None,
    }
}

/// A sequence that holds the problem, if there is one.
pub open spec fn opt_seq(o: Option<ProblemView>) -> Seq<ProblemView> {
    match o {
        Some(p) => seq![p],
        None => Seq::empty(),
    }
}

/// A check that can turn its attribute-specific context into a problem, and
/// migrate a loose attribute.
pub trait ToNixpkgsProblem {
    /// Context relating to the Nixpkgs that is being transitioned _to_.
    type ToContext;

    /// The problem for a loose attribute; `regressed` tells whether the
    /// attribute was tight before rather than new.
    spec fn problem_spec(name: Seq<char>, regressed: bool, to: Self::ToContext) -> ProblemView;

    /// Whether a context describes a definition that can be migrated.
    spec fn context_wf(context: Self::ToContext) -> bool;

    /// The outcome of migrating a loose attribute.
    spec fn migrate_spec(
        plan: MigrationPlanView,
        context: Self::ToContext,
        name: Seq<char>,
    ) -> MigrationOutcome;

    /// Converts an attribute-specific error context into a problem.
    fn to_nixpkgs_problem(name: &str, optional_from: Option<()>, to: &Self::ToContext) -> (r:
        NixpkgsProblem)
        ensures
            r@ == Self::problem_spec(name@, optional_from is Some, *to),
    ;

    /// Requests the edits that migrate a loose attribute.
    fn migrate(plan: &mut MigrationPlan, context: &Self::ToContext, name: &str) -> (r: Result<
        (),
        MigrationError,
    >)
        requires
            old(plan).wf(),
            Self::context_wf(*context),
        ensures
            final(plan).wf(),
            final(plan)@ == Self::migrate_spec(old(plan)@, *context, name@).plan,
            error_of(r) == Self::migrate_spec(old(plan)@, *context, name@).error,
    ;
}

/// The ratchet state of a generic ratchet check.
pub enum RatchetState<R: ToNixpkgsProblem> {
    /// The ratchet is loose, it can be tightened more. This is the legacy state
    /// we are moving away from: new instances are not allowed, existing ones are.
    Loose(R::ToContext),
    /// The ratchet is tight, it cannot be tightened any further.
    Tight,
    /// The ratchet does not apply. Transitions from and to it are always allowed.
    NonApplicable,
}

impl<R: ToNixpkgsProblem> RatchetState<R> {
    /// The problem, if any, of moving from `optional_from` (`None` for a new
    /// attribute) to `to`.
    pub open spec fn spec_compare(name: Seq<char>, optional_from: Option<Self>, to: Self) -> Option<
        ProblemView,
    > {
        match to {
            RatchetState::Loose(ctx) => match optional_from {
                None => Some(R::problem_spec(name, false, ctx)),
                Some(RatchetState::Tight) => Some(R::problem_spec(name, true, ctx)),
                Some(_) => None,
            },
            _ => None,
        }
    }

    /// A loose state has a context that can be migrated.
    pub open spec fn wf(self) -> bool {
        self matches RatchetState::Loose(ctx) ==> R::context_wf(ctx)
    }

    pub open spec fn spec_migrate(self, plan: MigrationPlanView, name: Seq<char>) -> MigrationOutcome {
        match self {
            RatchetState::Loose(ctx) => R::migrate_spec(plan, ctx, name),
            _ => MigrationOutcome::done(plan),
        }
    }

    /// Compares the previous ratchet state of an attribute to the new one. The
    /// previous state is `None` where the attribute is new.
    pub fn compare(name: &str, optional_from: Option<&Self>, to: &Self) -> (r: Validation)
        ensures
            r.problems() == opt_seq(Self::spec_compare(name@, deref_opt(optional_from), *to)),
            r is Success <==> Self::spec_compare(name@, deref_opt(optional_from), *to) is None,
    {
        let mut v: Vec<NixpkgsProblem> = Vec::new();
        match (optional_from, to) {
            // Loosening a ratchet is not allowed
            (Some(RatchetState::Tight), RatchetState::Loose(loose_context)) => {
                v.push(R::to_nixpkgs_problem(name, Some(()), loose_context));
            },
            // Introducing a loose ratchet is not allowed either
            (None, RatchetState::Loose(loose_context)) => {
                v.push(R::to_nixpkgs_problem(name, None, loose_context));
            },
            // Everything else is allowed: a loose ratchet staying loose, any
            // ratchet becoming or staying tight, and anything non-applicable
            _ => {},
        }
        assert(v@.map_values(|p: NixpkgsProblem| p@) =~= opt_seq(
            Self::spec_compare(name@, deref_opt(optional_from), *to),
        ));
        Validation::from_problems(v)
    }

    /// Requests the edits that tighten this ratchet, if it is loose.
    pub fn migrate(&self, plan: &mut MigrationPlan, name: &str) -> (r: Result<(), MigrationError>)
        requires
            old(plan).wf(),
            self.wf(),
        ensures
            final(plan).wf(),
            final(plan)@ == self.spec_migrate(old(plan)@, name@).plan,
            error_of(r) == self.spec_migrate(old(plan)@, name@).error,
    {
        match self {
            RatchetState::Loose(context) => R::migrate(plan, context, name),
            RatchetState::Tight => Ok(()),
            RatchetState::NonApplicable => Ok(()),
        }
    }
}

/// The ratchet that checks whether a top-level attribute has or needs a manual
/// definition, e.g. in `all-packages.nix`.
///
/// It is tight for attributes that are not in `pkgs/by-name` and rely on a
/// manual definition, that are in `pkgs/by-name` without a manual definition,
/// or that are in `pkgs/by-name` with a manual definition that provides custom
/// argument overrides. It is loose for attributes in `pkgs/by-name` with a
/// manual definition that has no custom argument overrides.
pub struct ManualDefinition;

impl ToNixpkgsProblem for ManualDefinition {
    type ToContext = ();

    open spec fn problem_spec(name: Seq<char>, regressed: bool, to: ()) -> ProblemView {
        ProblemView::WrongCallPackage {
            relative_package_file: spec_relative_file_for_package(name),
            package_name: name,
        }
    }

    open spec fn context_wf(context: ()) -> bool {
        true
    }

    open spec fn migrate_spec(plan: MigrationPlanView, context: (), name: Seq<char>) -> MigrationOutcome {
        MigrationOutcome::done(plan)
    }

    fn to_nixpkgs_problem(name: &str, optional_from: Option<()>, to: &()) -> (r: NixpkgsProblem) {
        NixpkgsProblem::WrongCallPackage {
            relative_package_file: relative_file_for_package(name),
            package_name: name.to_owned(),
        }
    }

    /// The context carries no location of the manual definition, so nothing is
    /// requested.
    fn migrate(plan: &mut MigrationPlan, context: &(), name: &str) -> (r: Result<
        (),
        MigrationError,
    >) {
        Ok(())
    }
}

/// How a package is passed to `callPackage` in a manual definition.
#[derive(Clone, Debug)]
pub struct CallPackageArgumentInfo {
    /// The path of the package file, relative to the root, where the first
    /// argument is a path.
    pub relative_path: Option<String>,
    /// Whether the second argument is an empty attribute set.
    pub empty_arg: bool,
}

/// The ratchet that checks that new packages use `pkgs/by-name`, and that a
/// package in `pkgs/by-name` does not move back out of it.
pub struct UsesByName;

/// Where a loose `UsesByName` attribute is defined.
#[derive(Clone, Debug)]
pub struct UsesByNameContext {
    pub call_package_argument_info: CallPackageArgumentInfo,
    /// The file that holds the definition.
    pub file: String,
    pub line: usize,
    /// The range of the whole definition entry.
    pub syntax_node: NodeRange,
    /// The range of the first argument of the `callPackage` invocation.
    pub argument: NodeRange,
}

impl UsesByNameContext {
    /// Both ranges are well ordered, and the argument lies inside the entry.
    pub open spec fn wf(&self) -> bool {
        self.syntax_node.start <= self.argument.start <= self.argument.end <= self.syntax_node.end
    }

    /// Whether the context can be migrated.
    pub fn is_wf(&self) -> (r: bool)
        ensures
            r == self.wf(),
    {
        self.syntax_node.start <= self.argument.start && self.argument.start <= self.argument.end
            && self.argument.end <= self.syntax_node.end
    }
}

/// The edit that migrates a definition: with empty arguments the whole entry
/// goes; otherwise its first argument points at the new package directory.
pub open spec fn uses_by_name_edit(context: UsesByNameContext, name: Seq<char>) -> crate::edits::EditIntentView {
    if context.call_package_argument_info.empty_arg {
        crate::edits::EditIntentView {
            file: context.file@,
            start: context.syntax_node.start as nat,
            end: context.syntax_node.end as nat,
            replacement: Seq::empty(),
        }
    } else {
        crate::edits::EditIntentView {
            file: context.file@,
            start: context.argument.start as nat,
            end: context.argument.end as nat,
            replacement: spec_relative_dir_for_package(name),
        }
    }
}

impl ToNixpkgsProblem for UsesByName {
    type ToContext = UsesByNameContext;

    open spec fn problem_spec(name: Seq<char>, regressed: bool, to: UsesByNameContext) -> ProblemView {
        if regressed {
            ProblemView::MovedOutOfByName {
                package_name: name,
                call_package_path: option_view(to.call_package_argument_info.relative_path),
                empty_arg: to.call_package_argument_info.empty_arg,
            }
        } else {
            ProblemView::NewPackageNotUsingByName {
                package_name: name,
                call_package_path: option_view(to.call_package_argument_info.relative_path),
                empty_arg: to.call_package_argument_info.empty_arg,
            }
        }
    }

    open spec fn context_wf(context: UsesByNameContext) -> bool {
        context.wf()
    }

    open spec fn migrate_spec(
        plan: MigrationPlanView,
        context: UsesByNameContext,
        name: Seq<char>,
    ) -> MigrationOutcome {
        match context.call_package_argument_info.relative_path {
            None => MigrationOutcome::done(plan.add_manual(name)),
            Some(path) => {
                let edited = plan.add_edit(uses_by_name_edit(context, name));
                if edited.error is Some {
                    edited
                } else {
                    MigrationOutcome::done(
                        edited.plan.add_relocation(path@, spec_relative_dir_for_package(name)),
                    )
                }
            },
        }
    }

    fn to_nixpkgs_problem(name: &str, optional_from: Option<()>, to: &UsesByNameContext) -> (r:
        NixpkgsProblem) {
        if let Some(()) = optional_from {
            NixpkgsProblem::MovedOutOfByName {
                package_name: name.to_owned(),
                call_package_path: clone_option(&to.call_package_argument_info.relative_path),
                empty_arg: to.call_package_argument_info.empty_arg,
            }
        } else {
            NixpkgsProblem::NewPackageNotUsingByName {
                package_name: name.to_owned(),
                call_package_path: clone_option(&to.call_package_argument_info.relative_path),
                empty_arg: to.call_package_argument_info.empty_arg,
            }
        }
    }

    /// Without a path to move, the package is left for a manual migration.
    fn migrate(plan: &mut MigrationPlan, context: &UsesByNameContext, name: &str) -> (r: Result<
        (),
        MigrationError,
    >) {
        match &context.call_package_argument_info.relative_path {
            None => {
                plan.add_manual(name.to_owned());
                Ok(())
            },
            Some(relative_path) => {
                let target = relative_dir_for_package(name);
                let edit = if context.call_package_argument_info.empty_arg {
                    EditIntent {
                        file: context.file.clone(),
                        range: context.syntax_node,
                        replacement: String::new(),
                    }
                } else {
                    EditIntent {
                        file: context.file.clone(),
                        range: context.argument,
                        replacement: target.clone(),
                    }
                };
                assert(edit@ == uses_by_name_edit(*context, name@));
                match plan.add_edit(edit) {
                    Ok(()) => {},
                    Err(e) => {
                        return Err(e);
                    },
                }
                plan.add_relocation(relative_path.clone(), target);
                Ok(())
            },
        }
    }
}

} // verus!

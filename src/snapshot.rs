//! The ratchet values of a package and of the whole package set.
use vstd::prelude::*;
use crate::edits::{error_of, MigrationError, MigrationOutcome, MigrationPlan, MigrationPlanView};
use crate::problem::{NixpkgsProblem, ProblemView, Validation};
use crate::ratchet::{deref_opt, opt_seq, ManualDefinition, RatchetState, UsesByName};

verus! {

/// The ratchet values of a top-level package.
pub struct Package {
    /// The ratchet value of the check for non-auto-called empty arguments.
    pub manual_definition: RatchetState<ManualDefinition>,
    /// The ratchet value of the check that new packages use `pkgs/by-name`.
    pub uses_by_name: RatchetState<UsesByName>,
}

/// The problems of moving a package from `optional_from` (`None` where it is
/// new) to `to`, one slot after the other.
pub open spec fn package_problems(name: Seq<char>, optional_from: Option<Package>, to: Package) -> Seq<
    ProblemView,
> {
    let (from_manual, from_by_name) = match optional_from {
        Some(p) => (Some(p.manual_definition), Some(p.uses_by_name)),
        None => (None, None),
    };
    opt_seq(RatchetState::<ManualDefinition>::spec_compare(name, from_manual, to.manual_definition))
        + opt_seq(RatchetState::<UsesByName>::spec_compare(name, from_by_name, to.uses_by_name))
}

/// The outcome of migrating both slots of a package in turn; the second slot
/// is not migrated once the first has failed.
pub open spec fn package_migrate(package: Package, plan: MigrationPlanView, name: Seq<char>) -> MigrationOutcome {
    let first = package.manual_definition.spec_migrate(plan, name);
    if first.error is Some {
        first
    } else {
        package.uses_by_name.spec_migrate(first.plan, name)
    }
}

/// Appends the problems of a verdict.
fn append_problems(acc: &mut Vec<NixpkgsProblem>, v: Validation)
    ensures
        final(acc)@.map_values(|p: NixpkgsProblem| p@) == old(acc)@.map_values(
            |p: NixpkgsProblem| p@,
        ) + v.problems(),
{
    match v {
        Validation::Success => {
            assert(acc@.map_values(|p: NixpkgsProblem| p@) =~= old(acc)@.map_values(
                |p: NixpkgsProblem| p@,
            ) + v.problems());
        },
        Validation::Failure(mut problems) => {
            let ghost added = problems@;
            acc.append(&mut problems);
            assert(acc@.map_values(|p: NixpkgsProblem| p@) =~= old(acc)@.map_values(
                |p: NixpkgsProblem| p@,
            ) + added.map_values(|p: NixpkgsProblem| p@));
        },
    }
}

impl Package {
    /// Every loose slot has a context that can be migrated.
    pub open spec fn wf(&self) -> bool {
        self.manual_definition.wf() && self.uses_by_name.wf()
    }

    /// Validates the ratchet checks of a top-level package, reporting the
    /// problems of every slot.
    pub fn compare(name: &str, optional_from: Option<&Self>, to: &Self) -> (r: Validation)
        ensures
            r.problems() == package_problems(name@, deref_opt(optional_from), *to),
            r is Success <==> package_problems(name@, deref_opt(optional_from), *to).len() == 0,
    {
        let (from_manual, from_by_name) = match optional_from {
            Some(p) => (Some(&p.manual_definition), Some(&p.uses_by_name)),
            None => (None, None),
        };
        let mut problems: Vec<NixpkgsProblem> = Vec::new();
        append_problems(
            &mut problems,
            RatchetState::<ManualDefinition>::compare(name, from_manual, &to.manual_definition),
        );
        append_problems(
            &mut problems,
            RatchetState::<UsesByName>::compare(name, from_by_name, &to.uses_by_name),
        );
        assert(problems@.map_values(|p: NixpkgsProblem| p@) =~= package_problems(
            name@,
            deref_opt(optional_from),
            *to,
        ));
        Validation::from_problems(problems)
    }

    /// Requests the edits that tighten the loose ratchets of a package.
    pub fn migrate(&self, plan: &mut MigrationPlan, name: &str) -> (r: Result<(), MigrationError>)
        requires
            old(plan).wf(),
            self.wf(),
        ensures
            final(plan).wf(),
            final(plan)@ == package_migrate(*self, old(plan)@, name@).plan,
            error_of(r) == package_migrate(*self, old(plan)@, name@).error,
    {
        match self.manual_definition.migrate(plan, name) {
            Ok(()) => {},
            Err(e) => {
                return Err(e);
            },
        }
        self.uses_by_name.migrate(plan, name)
    }
}

/// The ratchet values of the whole package set.
pub struct Nixpkgs {
    /// The package names, in the order in which they are reported.
    pub package_names: Vec<String>,
    /// The ratchet values of the packages, one for each name, at the same index.
    pub packages: Vec<Package>,
}

impl Default for Nixpkgs {
    fn default() -> (r: Nixpkgs)
        ensures
            r.wf(),
            r.names().len() == 0,
    {
        Nixpkgs::new()
    }
}

impl Nixpkgs {
    pub open spec fn names(&self) -> Seq<Seq<char>> {
        self.package_names@.map_values(|s: String| s@)
    }

    /// Every name has a package, and no name occurs twice.
    pub open spec fn wf(&self) -> bool {
        &&& self.package_names@.len() == self.packages@.len()
        &&& forall|i: int, j: int|
            0 <= i < self.names().len() && 0 <= j < self.names().len() && i != j
                ==> #[trigger] self.names()[i] != #[trigger] self.names()[j]
    }

    pub open spec fn contains(&self, name: Seq<char>) -> bool {
        exists|i: int| 0 <= i < self.names().len() && #[trigger] self.names()[i] == name
    }

    /// The package called `name`, if there is one.
    pub open spec fn lookup(&self, name: Seq<char>) -> Option<Package> {
        if self.contains(name) {
            Some(
                self.packages@[choose|i: int|
                    0 <= i < self.names().len() && #[trigger] self.names()[i] == name],
            )
        } else {
            None
        }
    }

    /// The problems of the first `n` packages of `to`, in `to`'s order.
    pub open spec fn spec_compare(from: Nixpkgs, to: Nixpkgs, n: int) -> Seq<ProblemView>
        decreases n,
    {
        if n <= 0 {
            Seq::empty()
        } else {
            Self::spec_compare(from, to, n - 1) + package_problems(
                to.names()[n - 1],
                from.lookup(to.names()[n - 1]),
                to.packages@[n - 1],
            )
        }
    }

    /// Every package can be migrated.
    pub open spec fn packages_wf(&self) -> bool {
        forall|i: int| 0 <= i < self.packages@.len() ==> (#[trigger] self.packages@[i]).wf()
    }

    /// The outcome of migrating the first `n` packages in order. After the
    /// first failure no later package adds anything, and its error is kept.
    pub open spec fn spec_migrate(self, plan: MigrationPlanView, n: int) -> MigrationOutcome
        decreases n,
    {
        if n <= 0 {
            MigrationOutcome::done(plan)
        } else {
            let before = self.spec_migrate(plan, n - 1);
            if before.error is Some {
                before
            } else {
                package_migrate(self.packages@[n - 1], before.plan, self.names()[n - 1])
            }
        }
    }

    /// Once a prefix of the packages fails to migrate, every longer prefix has
    /// the same outcome.
    pub proof fn lemma_migrate_stays_failed(self, plan: MigrationPlanView, k: int, n: int)
        requires
            0 <= k <= n,
            self.spec_migrate(plan, k).error is Some,
        ensures
            self.spec_migrate(plan, n) == self.spec_migrate(plan, k),
        decreases n - k,
    {
        if k < n {
            self.lemma_migrate_stays_failed(plan, k, n - 1);
        }
    }

    /// An empty package set.
    pub fn new() -> (r: Nixpkgs)
        ensures
            r.wf(),
            r.names().len() == 0,
    {
        Nixpkgs { package_names: Vec::new(), packages: Vec::new() }
    }

    /// Adds a package. A name that is already present is refused, and the
    /// package is handed back.
    pub fn insert(&mut self, name: String, package: Package) -> (r: Result<(), Package>)
        requires
            old(self).wf(),
        ensures
            final(self).wf(),
            old(self).contains(name@) ==> r == Err::<(), Package>(package) && *final(self) == *old(
                self,
            ),
            !old(self).contains(name@) ==> r is Ok && final(self).names() == old(self).names().push(
                name@,
            ) && final(self).packages@ == old(self).packages@.push(package),
    {
        if self.find(&name).is_some() {
            return Err(package);
        }
        let ghost names = self.names();
        self.package_names.push(name);
        self.packages.push(package);
        assert(self.names() =~= names.push(name@));
        Ok(())
    }

    /// The index of the package called `name`, if there is one.
    pub fn find(&self, name: &String) -> (r: Option<usize>)
        requires
            self.wf(),
        ensures
            r is None <==> !self.contains(name@),
            r matches Some(i) ==> i < self.names().len() && self.names()[i as int] == name@,
    {
        let mut i: usize = 0;
        while i < self.package_names.len()
            invariant
                0 <= i <= self.package_names.len(),
                self.wf(),
                forall|k: int| 0 <= k < i ==> #[trigger] self.names()[k] != name@,
            decreases self.package_names.len() - i,
        {
            assert(self.names()[i as int] == self.package_names@[i as int]@);
            if self.package_names[i] == *name {
                return Some(i);
            }
            i = i + 1;
        }
        None
    }

    /// The package called `name`, if there is one.
    pub fn get(&self, name: &String) -> (r: Option<&Package>)
        requires
            self.wf(),
        ensures
            deref_opt(r) == self.lookup(name@),
    {
        match self.find(name) {
            Some(i) => {
                let ghost j = choose|j: int|
                    0 <= j < self.names().len() && #[trigger] self.names()[j] == name@;
                assert(i == j);
                Some(&self.packages[i])
            },
            None => None,
        }
    }

    /// Validates the ratchet checks of the whole package set. Only the packages
    /// of `to` are checked, in their order; a package missing from `from` is new.
    pub fn compare(from: Self, to: Self) -> (r: Validation)
        requires
            from.wf(),
            to.wf(),
        ensures
            r.problems() == Self::spec_compare(from, to, to.names().len() as int),
            r is Success <==> Self::spec_compare(from, to, to.names().len() as int).len() == 0,
    {
        let mut problems: Vec<NixpkgsProblem> = Vec::new();
        let mut i: usize = 0;
        while i < to.package_names.len()
            invariant
                0 <= i <= to.package_names.len(),
                from.wf(),
                to.wf(),
                problems@.map_values(|p: NixpkgsProblem| p@) == Self::spec_compare(
                    from,
                    to,
                    i as int,
                ),
            decreases to.package_names.len() - i,
        {
            let name = &to.package_names[i];
            assert(to.names()[i as int] == name@);
            append_problems(
                &mut problems,
                Package::compare(name.as_str(), from.get(name), &to.packages[i]),
            );
            i = i + 1;
        }
        Validation::from_problems(problems)
    }

    /// Requests the edits that tighten every loose ratchet, package by package,
    /// and stops at the first error.
    pub fn migrate(&self, plan: &mut MigrationPlan) -> (r: Result<(), MigrationError>)
        requires
            self.wf(),
            self.packages_wf(),
            old(plan).wf(),
        ensures
            final(plan).wf(),
            final(plan)@ == self.spec_migrate(old(plan)@, self.names().len() as int).plan,
            error_of(r) == self.spec_migrate(old(plan)@, self.names().len() as int).error,
    {
        let mut i: usize = 0;
        while i < self.package_names.len()
            invariant
                0 <= i <= self.package_names.len(),
                self.wf(),
                self.packages_wf(),
                plan.wf(),
                self.spec_migrate(old(plan)@, i as int) == MigrationOutcome::done(plan@),
            decreases self.package_names.len() - i,
        {
            let name = &self.package_names[i];
            assert(self.names()[i as int] == name@);
            match self.packages[i].migrate(plan, name.as_str()) {
                Ok(()) => {},
                Err(e) => {
                    proof {
                        self.lemma_migrate_stays_failed(
                            old(plan)@,
                            i as int + 1,
                            self.names().len() as int,
                        );
                    }
                    return Err(e);
                },
            }
            i = i + 1;
        }
        Ok(())
    }
}

} // verus!

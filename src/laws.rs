//! Properties of the ratchet comparison that relate several values or calls.
use vstd::prelude::*;
use vstd::seq_lib::lemma_multiset_commutative;
use crate::edits::{
    conflicts, overlaps, EditIntentView, MigrationErrorView, MigrationOutcome, MigrationPlanView,
};
use crate::problem::ProblemView;
use crate::ratchet::{
    uses_by_name_edit, RatchetState, ToNixpkgsProblem, UsesByName, UsesByNameContext,
};
use crate::snapshot::{package_problems, Nixpkgs, Package};

verus! {

/// A target state that is tight or non-applicable never raises a problem,
/// whatever the previous state was.
pub proof fn lemma_settled_target_has_no_problem<R: ToNixpkgsProblem>(
    name: Seq<char>,
    optional_from: Option<RatchetState<R>>,
    to: RatchetState<R>,
)
    requires
        to is Tight || to is NonApplicable,
    ensures
        RatchetState::<R>::spec_compare(name, optional_from, to) is None,
{
}

/// A package whose slots are all tight or non-applicable has no problem,
/// whether it is new or not.
pub proof fn lemma_settled_package_has_no_problem(
    name: Seq<char>,
    optional_from: Option<Package>,
    to: Package,
)
    requires
        to.manual_definition is Tight || to.manual_definition is NonApplicable,
        to.uses_by_name is Tight || to.uses_by_name is NonApplicable,
    ensures
        package_problems(name, optional_from, to).len() == 0,
{
}

/// A loose target is a new violation for a new attribute, a regression after a
/// tight state, and grandfathered after a loose state.
pub proof fn lemma_loose_target<R: ToNixpkgsProblem>(
    name: Seq<char>,
    context: R::ToContext,
    from_context: R::ToContext,
)
    ensures
        RatchetState::<R>::spec_compare(name, None, RatchetState::Loose(context)) == Some(
            R::problem_spec(name, false, context),
        ),
        RatchetState::<R>::spec_compare(
            name,
            Some(RatchetState::Tight),
            RatchetState::Loose(context),
        ) == Some(R::problem_spec(name, true, context)),
        RatchetState::<R>::spec_compare(
            name,
            Some(RatchetState::Loose(from_context)),
            RatchetState::Loose(context),
        ) is None,
{
}

/// For the `pkgs/by-name` check, a new loose package is reported as not using
/// `pkgs/by-name`, and a loose package that was tight as moved out of it.
pub proof fn lemma_uses_by_name_problem_kinds(name: Seq<char>, context: UsesByNameContext)
    ensures
        RatchetState::<UsesByName>::spec_compare(
            name,
            None,
            RatchetState::Loose(context),
        ) matches Some(ProblemView::NewPackageNotUsingByName { package_name, .. })
            && package_name == name,
        RatchetState::<UsesByName>::spec_compare(
            name,
            Some(RatchetState::Tight),
            RatchetState::Loose(context),
        ) matches Some(ProblemView::MovedOutOfByName { package_name, .. }) && package_name == name,
{
}

/// Whether `p` is a problem of one of the first `n` packages of `to`.
pub open spec fn problem_of_some_package(from: Nixpkgs, to: Nixpkgs, n: int, p: ProblemView) -> bool {
    exists|i: int|
        0 <= i < n && #[trigger] package_problems(
            to.names()[i],
            from.lookup(to.names()[i]),
            to.packages@[i],
        ).contains(p)
}

proof fn lemma_compare_members(from: Nixpkgs, to: Nixpkgs, n: int, p: ProblemView)
    requires
        0 <= n <= to.names().len(),
    ensures
        Nixpkgs::spec_compare(from, to, n).contains(p) <==> problem_of_some_package(from, to, n, p),
    decreases n,
{
    if n > 0 {
        lemma_compare_members(from, to, n - 1, p);
        let a = Nixpkgs::spec_compare(from, to, n - 1);
        let b = package_problems(to.names()[n - 1], from.lookup(to.names()[n - 1]), to.packages@[n - 1]);
        assert(Nixpkgs::spec_compare(from, to, n) == a + b);
        if (a + b).contains(p) {
            let k = choose|k: int| 0 <= k < (a + b).len() && (a + b)[k] == p;
            if k < a.len() {
                assert(a[k] == p);
                let i = choose|i: int|
                    0 <= i < n - 1 && #[trigger] package_problems(
                        to.names()[i],
                        from.lookup(to.names()[i]),
                        to.packages@[i],
                    ).contains(p);
                assert(0 <= i < n);
            } else {
                assert(b[k - a.len()] == p);
                assert(b.contains(p));
            }
        }
        if problem_of_some_package(from, to, n, p) {
            let i = choose|i: int|
                0 <= i < n && #[trigger] package_problems(
                    to.names()[i],
                    from.lookup(to.names()[i]),
                    to.packages@[i],
                ).contains(p);
            if i < n - 1 {
                assert(problem_of_some_package(from, to, n - 1, p));
                let k = choose|k: int| 0 <= k < a.len() && a[k] == p;
                assert((a + b)[k] == p);
            } else {
                let k = choose|k: int| 0 <= k < b.len() && b[k] == p;
                assert((a + b)[a.len() + k] == p);
            }
        }
    }
}

proof fn lemma_lookup_at(to: Nixpkgs, i: int)
    requires
        to.wf(),
        0 <= i < to.names().len(),
    ensures
        to.lookup(to.names()[i]) == Some(to.packages@[i]),
{
    assert(to.contains(to.names()[i]));
    let j = choose|j: int| 0 <= j < to.names().len() && #[trigger] to.names()[j] == to.names()[i];
    assert(i == j);
}

proof fn lemma_problem_carries_over(from: Nixpkgs, to1: Nixpkgs, to2: Nixpkgs, p: ProblemView)
    requires
        to1.wf(),
        to2.wf(),
        forall|name: Seq<char>| #[trigger] to1.lookup(name) == to2.lookup(name),
        problem_of_some_package(from, to1, to1.names().len() as int, p),
    ensures
        problem_of_some_package(from, to2, to2.names().len() as int, p),
{
    let i = choose|i: int|
        0 <= i < to1.names().len() && #[trigger] package_problems(
            to1.names()[i],
            from.lookup(to1.names()[i]),
            to1.packages@[i],
        ).contains(p);
    let name = to1.names()[i];
    lemma_lookup_at(to1, i);
    assert(to1.lookup(name) == to2.lookup(name));
    assert(to2.contains(name));
    let j = choose|j: int| 0 <= j < to2.names().len() && #[trigger] to2.names()[j] == name;
    lemma_lookup_at(to2, j);
    assert(package_problems(to2.names()[j], from.lookup(to2.names()[j]), to2.packages@[j]).contains(
        p,
    ));
}

/// The problems that a comparison reports do not depend on the order of the
/// packages in `to`: two package sets that map the same names to the same
/// packages give the same set of problems.
pub proof fn lemma_compare_order_independent(from: Nixpkgs, to1: Nixpkgs, to2: Nixpkgs)
    requires
        from.wf(),
        to1.wf(),
        to2.wf(),
        forall|name: Seq<char>| #[trigger] to1.lookup(name) == to2.lookup(name),
    ensures
        Nixpkgs::spec_compare(from, to1, to1.names().len() as int).to_set() == Nixpkgs::spec_compare(
            from,
            to2,
            to2.names().len() as int,
        ).to_set(),
{
    let n1 = to1.names().len() as int;
    let n2 = to2.names().len() as int;
    assert forall|p: ProblemView|
        Nixpkgs::spec_compare(from, to1, n1).to_set().contains(p)
            == Nixpkgs::spec_compare(from, to2, n2).to_set().contains(p) by {
        lemma_compare_members(from, to1, n1, p);
        lemma_compare_members(from, to2, n2, p);
        if problem_of_some_package(from, to1, n1, p) {
            lemma_problem_carries_over(from, to1, to2, p);
        }
        if problem_of_some_package(from, to2, n2, p) {
            lemma_problem_carries_over(from, to2, to1, p);
        }
    }
    assert(Nixpkgs::spec_compare(from, to1, n1).to_set() =~= Nixpkgs::spec_compare(from, to2, n2).to_set());
}

/// No two edits of a well-formed plan overlap in the same file.
pub proof fn lemma_plan_edits_never_overlap(plan: MigrationPlanView, i: int, j: int)
    requires
        plan.wf(),
        0 <= i < plan.edits.len(),
        0 <= j < plan.edits.len(),
        i != j,
    ensures
        !overlaps(plan.edits[i], plan.edits[j]),
{
}

/// An edit that overlaps one already in the plan is refused with an overlap
/// error that names it, never merged, and the plan is left as it was. Any other
/// well-ordered edit is accepted into a plan that stays well formed.
pub proof fn lemma_overlapping_edit_refused(plan: MigrationPlanView, e: EditIntentView)
    requires
        plan.wf(),
    ensures
        e.start <= e.end && conflicts(plan.edits, e) ==> plan.add_edit(e) == (MigrationOutcome {
            plan,
            error: Some(MigrationErrorView::OverlappingEdit(e)),
        }),
        e.start <= e.end && !conflicts(plan.edits, e) ==> plan.add_edit(e).error is None
            && plan.add_edit(e).plan.wf() && plan.add_edit(e).plan.edits == plan.edits.push(e),
{
    if e.start <= e.end && !conflicts(plan.edits, e) {
        let p = plan.add_edit(e).plan;
        assert forall|i: int, j: int|
            0 <= i < p.edits.len() && 0 <= j < p.edits.len() && i != j implies !overlaps(
            #[trigger] p.edits[i],
            #[trigger] p.edits[j],
        ) by {
            if i == plan.edits.len() as int {
                assert(!overlaps(plan.edits[j], e));
            } else if j == plan.edits.len() as int {
                assert(!overlaps(plan.edits[i], e));
            }
        }
    }
}

/// A `pkgs/by-name` fix whose edit would overlap an edit already requested in
/// the same file fails with an overlap error naming that edit, and leaves the
/// plan as it was: neither edit is dropped in favour of the other.
pub proof fn lemma_uses_by_name_overlap_is_fatal(
    plan: MigrationPlanView,
    context: UsesByNameContext,
    name: Seq<char>,
)
    requires
        plan.wf(),
        context.wf(),
        context.call_package_argument_info.relative_path is Some,
        conflicts(plan.edits, uses_by_name_edit(context, name)),
    ensures
        UsesByName::migrate_spec(plan, context, name) == (MigrationOutcome {
            plan,
            error: Some(MigrationErrorView::OverlappingEdit(uses_by_name_edit(context, name))),
        }),
{
}

/// The edit that migrates a `pkgs/by-name` definition targets the file of the
/// definition and lies inside the definition entry.
pub proof fn lemma_uses_by_name_edit_within_entry(context: UsesByNameContext, name: Seq<char>)
    requires
        context.wf(),
    ensures
        uses_by_name_edit(context, name).file == context.file@,
        context.syntax_node.start <= uses_by_name_edit(context, name).start
            <= uses_by_name_edit(context, name).end <= context.syntax_node.end,
{
}

/// The problems of packages given as parallel sequences of names and values,
/// in their order.
pub open spec fn problems_of(from: Nixpkgs, names: Seq<Seq<char>>, packages: Seq<Package>) -> Seq<
    ProblemView,
>
    decreases names.len(),
{
    if names.len() == 0 || packages.len() == 0 {
        Seq::empty()
    } else {
        problems_of(from, names.drop_last(), packages.drop_last()) + package_problems(
            names.last(),
            from.lookup(names.last()),
            packages.last(),
        )
    }
}

pub open spec fn unique(names: Seq<Seq<char>>) -> bool {
    forall|i: int, j: int|
        0 <= i < names.len() && 0 <= j < names.len() && i != j ==> #[trigger] names[i]
            != #[trigger] names[j]
}

proof fn lemma_problems_of_prefix(from: Nixpkgs, to: Nixpkgs, n: int)
    requires
        to.wf(),
        0 <= n <= to.names().len(),
    ensures
        Nixpkgs::spec_compare(from, to, n) == problems_of(
            from,
            to.names().take(n),
            to.packages@.take(n),
        ),
    decreases n,
{
    if n > 0 {
        lemma_problems_of_prefix(from, to, n - 1);
        assert(to.names().take(n).drop_last() =~= to.names().take(n - 1));
        assert(to.packages@.take(n).drop_last() =~= to.packages@.take(n - 1));
    }
}

proof fn lemma_problems_of_remove(
    from: Nixpkgs,
    names: Seq<Seq<char>>,
    packages: Seq<Package>,
    j: int,
)
    requires
        names.len() == packages.len(),
        0 <= j < names.len(),
    ensures
        problems_of(from, names, packages).to_multiset() == problems_of(
            from,
            names.remove(j),
            packages.remove(j),
        ).to_multiset().add(
            package_problems(names[j], from.lookup(names[j]), packages[j]).to_multiset(),
        ),
    decreases names.len(),
{
    broadcast use vstd::multiset::group_multiset_axioms;

    let last = package_problems(names.last(), from.lookup(names.last()), packages.last());
    let rest = problems_of(from, names.drop_last(), packages.drop_last());
    lemma_multiset_commutative(rest, last);
    if j == names.len() - 1 {
        assert(names.remove(j) =~= names.drop_last());
        assert(packages.remove(j) =~= packages.drop_last());
    } else {
        lemma_problems_of_remove(from, names.drop_last(), packages.drop_last(), j);
        let rn = names.remove(j);
        let rp = packages.remove(j);
        assert(rn.drop_last() =~= names.drop_last().remove(j));
        assert(rp.drop_last() =~= packages.drop_last().remove(j));
        assert(rn.last() == names.last());
        assert(rp.last() == packages.last());
        let rrest = problems_of(from, rn.drop_last(), rp.drop_last());
        lemma_multiset_commutative(rrest, last);
        let mj = package_problems(names[j], from.lookup(names[j]), packages[j]).to_multiset();
        assert(rest.to_multiset() =~= rrest.to_multiset().add(mj));
        assert((rest + last).to_multiset() =~= (rrest + last).to_multiset().add(mj));
    }
}

/// Whether `name` stands with `package` at some index of the parallel sequences.
pub open spec fn has_entry(names: Seq<Seq<char>>, packages: Seq<Package>, name: Seq<char>, package: Package) -> bool {
    exists|j: int| 0 <= j < names.len() && names[j] == name && packages[j] == package
}

proof fn lemma_problems_of_permutation(
    from: Nixpkgs,
    names1: Seq<Seq<char>>,
    packages1: Seq<Package>,
    names2: Seq<Seq<char>>,
    packages2: Seq<Package>,
)
    requires
        names1.len() == packages1.len(),
        names2.len() == packages2.len(),
        names1.len() == names2.len(),
        unique(names1),
        unique(names2),
        forall|i: int|
            0 <= i < names1.len() ==> #[trigger] has_entry(names2, packages2, names1[i], packages1[i]),
    ensures
        problems_of(from, names1, packages1).to_multiset() == problems_of(
            from,
            names2,
            packages2,
        ).to_multiset(),
    decreases names1.len(),
{
    broadcast use vstd::multiset::group_multiset_axioms;

    if names1.len() == 0 {
        assert(problems_of(from, names2, packages2) == Seq::<ProblemView>::empty());
        assert(problems_of(from, names1, packages1) =~= Seq::<ProblemView>::empty());
        return;
    }
    let n = names1.len() - 1;
    assert(has_entry(names2, packages2, names1[n], packages1[n]));
    let j = choose|j: int|
        0 <= j < names2.len() && names2[j] == names1[n] && packages2[j] == packages1[n];
    let n1 = names1.drop_last();
    let p1 = packages1.drop_last();
    let n2 = names2.remove(j);
    let p2 = packages2.remove(j);
    assert forall|i: int| 0 <= i < n1.len() implies #[trigger] has_entry(n2, p2, n1[i], p1[i]) by {
        assert(n1[i] == names1[i]);
        assert(has_entry(names2, packages2, names1[i], packages1[i]));
        let k = choose|k: int|
            0 <= k < names2.len() && names2[k] == names1[i] && packages2[k] == packages1[i];
        assert(names1[i] != names1[n]);
        assert(k != j);
        let w = if k < j {
            k
        } else {
            k - 1
        };
        assert(n2[w] == names2[k] && p2[w] == packages2[k]);
        assert(0 <= w < n2.len() && n2[w] == n1[i] && p2[w] == p1[i]);
    }
    assert forall|a: int, b: int| 0 <= a < n2.len() && 0 <= b < n2.len() && a != b implies #[trigger] n2[a]
        != #[trigger] n2[b] by {
        let a2 = if a < j { a } else { a + 1 };
        let b2 = if b < j { b } else { b + 1 };
        assert(n2[a] == names2[a2] && n2[b] == names2[b2]);
    }
    assert forall|a: int, b: int| 0 <= a < n1.len() && 0 <= b < n1.len() && a != b implies #[trigger] n1[a]
        != #[trigger] n1[b] by {
        assert(n1[a] == names1[a] && n1[b] == names1[b]);
    }
    lemma_problems_of_permutation(from, n1, p1, n2, p2);
    lemma_problems_of_remove(from, names2, packages2, j);
    lemma_multiset_commutative(
        problems_of(from, n1, p1),
        package_problems(names1.last(), from.lookup(names1.last()), packages1.last()),
    );
}

/// The problems that a comparison reports do not depend on the order of the
/// packages in `to`: when `to2` holds the packages of `to1` in another order,
/// the two comparisons report the same problems, each as often.
pub proof fn lemma_compare_permutation(from: Nixpkgs, to1: Nixpkgs, to2: Nixpkgs)
    requires
        from.wf(),
        to1.wf(),
        to2.wf(),
        to1.names().len() == to2.names().len(),
        forall|name: Seq<char>| #[trigger] to1.lookup(name) == to2.lookup(name),
    ensures
        Nixpkgs::spec_compare(from, to1, to1.names().len() as int).to_multiset()
            == Nixpkgs::spec_compare(from, to2, to2.names().len() as int).to_multiset(),
{
    let n = to1.names().len() as int;
    lemma_problems_of_prefix(from, to1, n);
    lemma_problems_of_prefix(from, to2, n);
    assert(to1.names().take(n) =~= to1.names());
    assert(to2.names().take(n) =~= to2.names());
    assert(to1.packages@.take(n) =~= to1.packages@);
    assert(to2.packages@.take(n) =~= to2.packages@);
    assert forall|i: int| 0 <= i < to1.names().len() implies #[trigger] has_entry(
        to2.names(),
        to2.packages@,
        to1.names()[i],
        to1.packages@[i],
    ) by {
        let name = to1.names()[i];
        lemma_lookup_at(to1, i);
        assert(to1.lookup(name) == to2.lookup(name));
        assert(to2.contains(name));
        let j = choose|j: int| 0 <= j < to2.names().len() && #[trigger] to2.names()[j] == name;
        lemma_lookup_at(to2, j);
        assert(to2.names()[j] == to1.names()[i] && to2.packages@[j] == to1.packages@[i]);
    }
    lemma_problems_of_permutation(
        from,
        to1.names(),
        to1.packages@,
        to2.names(),
        to2.packages@,
    );
}

} // verus!

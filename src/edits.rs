use vstd::prelude::*;

verus! {

/// A half-open range `[start, end)` of byte offsets in a source file.
#[derive(Clone, Copy, Debug, PartialEq, Eq, Structural)]
pub struct NodeRange {
    pub start: usize,
    pub end: usize,
}

/// A requested textual replacement of one range of one file.
#[derive(Clone, Debug)]
pub struct EditIntent {
    pub file: String,
    pub range: NodeRange,
    pub replacement: String,
}

/// The mathematical value of an [`EditIntent`].
pub struct EditIntentView {
    pub file: Seq<char>,
    pub start: nat,
    pub end: nat,
    pub replacement: Seq<char>,
}

impl View for EditIntent {
    type V = EditIntentView;

    open spec fn view(&self) -> EditIntentView {
        EditIntentView {
            file: self.file@,
            start: self.range.start as nat,
            end: self.range.end as nat,
            replacement: self.replacement@,
        }
    }
}

/// Two edits overlap when they touch the same file and their ranges share a position.
pub open spec fn overlaps(a: EditIntentView, b: EditIntentView) -> bool {
    a.file == b.file && a.start < b.end && b.start < a.end
}

/// Whether `e` overlaps one of the edits already in `edits`.
pub open spec fn conflicts(edits: Seq<EditIntentView>, e: EditIntentView) -> bool {
    exists|i: int| 0 <= i < edits.len() && overlaps(#[trigger] edits[i], e)
}

/// Every range is well ordered and no two edits overlap.
pub open spec fn edits_disjoint(edits: Seq<EditIntentView>) -> bool {
    &&& forall|i: int| 0 <= i < edits.len() ==> (#[trigger] edits[i]).start <= edits[i].end
    &&& forall|i: int, j: int|
        0 <= i < edits.len() && 0 <= j < edits.len() && i != j ==> !overlaps(
            #[trigger] edits[i],
            #[trigger] edits[j],
        )
}

/// The error that aborts a migration run.
#[derive(Clone, Debug)]
pub enum MigrationError {
    /// The edit overlaps an edit that the run already requested in the same file.
    OverlappingEdit(EditIntent),
    /// The edit's range ends before it starts.
    InvalidRange(EditIntent),
}

/// The mathematical value of a [`MigrationError`].
pub enum MigrationErrorView {
    OverlappingEdit(EditIntentView),
    InvalidRange(EditIntentView),
}

impl View for MigrationError {
    type V = MigrationErrorView;

    open spec fn view(&self) -> MigrationErrorView {
        match self {
            MigrationError::OverlappingEdit(e) => MigrationErrorView::OverlappingEdit(e@),
            MigrationError::InvalidRange(e) => MigrationErrorView::InvalidRange(e@),
        }
    }
}

/// The error of a migration step, if it failed.
pub open spec fn error_of(r: Result<(), MigrationError>) -> Option<MigrationErrorView> {
    match r {
        Ok(()) => None,
        Err(e) => Some(e@),
    }
}

/// What a migration step leaves behind: the plan, and the error that stopped
/// the run, if any.
pub struct MigrationOutcome {
    pub plan: MigrationPlanView,
    pub error: Option<MigrationErrorView>,
}

impl MigrationOutcome {
    /// A step that succeeded with `plan`.
    pub open spec fn done(plan: MigrationPlanView) -> MigrationOutcome {
        MigrationOutcome { plan, error: None }
    }
}

/// The edits, file moves and manual migrations that one migration run requests.
///
/// All edits are collected first and checked against each other; a
/// collaborator applies them to the files once the run has finished.
#[derive(Clone, Debug)]
pub struct MigrationPlan {
    pub edits: Vec<EditIntent>,
    /// Pairs of (current location, new per-package directory).
    pub relocations: Vec<(String, String)>,
    /// Names of the packages that need to be migrated by hand.
    pub manual: Vec<String>,
}

/// The mathematical value of a [`MigrationPlan`].
pub struct MigrationPlanView {
    pub edits: Seq<EditIntentView>,
    pub relocations: Seq<(Seq<char>, Seq<char>)>,
    pub manual: Seq<Seq<char>>,
}

impl MigrationPlanView {
    pub open spec fn wf(self) -> bool {
        edits_disjoint(self.edits)
    }

    /// The outcome of requesting `e`: a refused edit leaves the plan unchanged.
    pub open spec fn add_edit(self, e: EditIntentView) -> MigrationOutcome {
        if e.end < e.start {
            MigrationOutcome { plan: self, error: Some(MigrationErrorView::InvalidRange(e)) }
        } else if conflicts(self.edits, e) {
            MigrationOutcome { plan: self, error: Some(MigrationErrorView::OverlappingEdit(e)) }
        } else {
            MigrationOutcome::done(MigrationPlanView { edits: self.edits.push(e), ..self })
        }
    }

    pub open spec fn add_relocation(self, from: Seq<char>, to: Seq<char>) -> MigrationPlanView {
        MigrationPlanView { relocations: self.relocations.push((from, to)), ..self }
    }

    pub open spec fn add_manual(self, name: Seq<char>) -> MigrationPlanView {
        MigrationPlanView { manual: self.manual.push(name), ..self }
    }
}

impl View for MigrationPlan {
    type V = MigrationPlanView;

    open spec fn view(&self) -> MigrationPlanView {
        MigrationPlanView {
            edits: self.edits@.map_values(|e: EditIntent| e@),
            relocations: self.relocations@.map_values(|r: (String, String)| (r.0@, r.1@)),
            manual: self.manual@.map_values(|s: String| s@),
        }
    }
}

impl MigrationPlan {
    pub open spec fn wf(&self) -> bool {
        self@.wf()
    }

    /// An empty plan.
    pub fn new() -> (r: MigrationPlan)
        ensures
            r@.edits.len() == 0,
            r@.relocations.len() == 0,
            r@.manual.len() == 0,
            r.wf(),
    {
        MigrationPlan { edits: Vec::new(), relocations: Vec::new(), manual: Vec::new() }
    }

    /// Requests an edit. An edit that overlaps one already requested in the same
    /// file is an error and leaves the plan unchanged.
    pub fn add_edit(&mut self, edit: EditIntent) -> (r: Result<(), MigrationError>)
        requires
            old(self).wf(),
        ensures
            final(self).wf(),
            final(self)@ == old(self)@.add_edit(edit@).plan,
            error_of(r) == old(self)@.add_edit(edit@).error,
            edit.range.end < edit.range.start ==> r == Err::<(), MigrationError>(
                MigrationError::InvalidRange(edit),
            ),
            edit.range.start <= edit.range.end && r is Err ==> r == Err::<(), MigrationError>(
                MigrationError::OverlappingEdit(edit),
            ),
    {
        if edit.range.end < edit.range.start {
            return Err(MigrationError::InvalidRange(edit));
        }
        let ghost edits = self@.edits;
        let mut i: usize = 0;
        while i < self.edits.len()
            invariant
                0 <= i <= self.edits.len(),
                edits == self@.edits,
                *self == *old(self),
                edit.range.start <= edit.range.end,
                self.wf(),
                edits.len() == self.edits.len(),
                forall|k: int| 0 <= k < i ==> !overlaps(#[trigger] edits[k], edit@),
            decreases self.edits.len() - i,
        {
            let other = &self.edits[i];
            assert(edits[i as int] == other@);
            if other.file == edit.file && other.range.start < edit.range.end && edit.range.start
                < other.range.end {
                return Err(MigrationError::OverlappingEdit(edit));
            }
            i = i + 1;
        }
        self.edits.push(edit);
        assert(self@.edits =~= edits.push(edit@));
        Ok(())
    }

    /// Records that the file at `from` moves to the package directory `to`.
    pub fn add_relocation(&mut self, from: String, to: String)
        requires
            old(self).wf(),
        ensures
            final(self).wf(),
            final(self)@ == old(self)@.add_relocation(from@, to@),
    {
        let ghost rel = self@.relocations;
        self.relocations.push((from, to));
        assert(self@.relocations =~= rel.push((from@, to@)));
        assert(self@.edits =~= old(self)@.edits);
    }

    /// Records that the package `name` needs a manual migration.
    pub fn add_manual(&mut self, name: String)
        requires
            old(self).wf(),
        ensures
            final(self).wf(),
            final(self)@ == old(self)@.add_manual(name@),
    {
        let ghost m = self@.manual;
        self.manual.push(name);
        assert(self@.manual =~= m.push(name@));
        assert(self@.edits =~= old(self)@.edits);
    }
}

} // verus!

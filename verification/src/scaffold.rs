//! A plain model of the directory scaffolding every pre-build step
//! performs: a fixed set of output roots is cleared and then repopulated
//! with a fixed set of directories, generated files and resized icons.
//! The model pins down the one guarantee the pipeline gives about the
//! file system: what stands under the cleared roots afterwards is a
//! function of the plan alone, so running a pre-build twice leaves the
//! same structure as running it once.

use vstd::prelude::*;
use vstd::seq_lib::group_seq_lib_default;
use crate::strutil::starts_with;

verus! {

broadcast use group_seq_lib_default;

/// One icon-resize job: the source image is scaled to the given pixel
/// size and written to `dest`.
pub struct IconJob {
    pub source: String,
    pub dest: String,
    pub width: u32,
    pub height: u32,
}

/// The scaffolding a pre-build step performs, as data: the roots it
/// clears, and the directories, generated files and icons it creates
/// under them.
pub struct ScaffoldPlan {
    /// Directory roots whose old contents are cleared away first.
    pub clears: Vec<String>,
    /// Directories created afresh, each under one of the cleared roots.
    pub dirs: Vec<String>,
    /// Files written with generated content, each under a cleared root.
    pub files: Vec<(String, String)>,
    /// Icon files resized from a source image, each under a cleared root.
    pub icons: Vec<IconJob>,
}

/// The directory structure the plan acts on: the paths that exist in the
/// regions of the file system the pipeline touches.
pub struct DirState {
    pub entries: Vec<String>,
}

/// Whether `p` lies under one of the roots in `clears`.
pub open spec fn under_any(clears: Seq<String>, p: Seq<char>) -> bool {
    exists|i: int| 0 <= i < clears.len() && clears[i]@.is_prefix_of(p)
}

/// The entries that survive the clearing phase: those under none of the
/// cleared roots.
pub open spec fn survivors(entries: Seq<String>, clears: Seq<String>) -> Seq<String> {
    entries.filter(|e: String| !under_any(clears, e@))
}

impl ScaffoldPlan {
    /// Every path the plan populates, in creation order.
    pub open spec fn planned_paths(self) -> Seq<String> {
        self.dirs@ + self.files@.map_values(|f: (String, String)| f.0) + self.icons@.map_values(
            |j: IconJob| j.dest,
        )
    }

    /// A plan is well-formed when everything it creates lies under one of
    /// the roots it clears.
    pub open spec fn wf(self) -> bool {
        forall|i: int|
            0 <= i < self.planned_paths().len() ==> under_any(
                self.clears@,
                #[trigger] self.planned_paths()[i]@,
            )
    }

    /// The directory structure after the plan ran on `entries`: what was
    /// under a cleared root is gone, and the planned paths stand in its
    /// place.
    pub open spec fn apply_spec(self, entries: Seq<String>) -> Seq<String> {
        survivors(entries, self.clears@) + self.planned_paths()
    }
}

proof fn lemma_filter_all_false<A>(s: Seq<A>, pred: spec_fn(A) -> bool)
    requires
        forall|i: int| 0 <= i < s.len() ==> !pred(s[i]),
    ensures
        s.filter(pred) == Seq::<A>::empty(),
    decreases s.len(),
{
    reveal(Seq::filter);
    if s.len() > 0 {
        lemma_filter_all_false(s.drop_last(), pred);
    }
}

proof fn lemma_filter_all_true<A>(s: Seq<A>, pred: spec_fn(A) -> bool)
    requires
        forall|i: int| 0 <= i < s.len() ==> pred(s[i]),
    ensures
        s.filter(pred) == s,
    decreases s.len(),
{
    reveal(Seq::filter);
    if s.len() > 0 {
        lemma_filter_all_true(s.drop_last(), pred);
        assert(s.drop_last().push(s.last()) =~= s);
    }
}

/// Directory scaffolding is idempotent: applying a well-formed plan to
/// the structure it already produced changes nothing, so running a
/// pre-build twice in a row leaves the same final directory structure as
/// running it once.
pub proof fn lemma_scaffold_idempotent(plan: ScaffoldPlan, entries: Seq<String>)
    requires
        plan.wf(),
    ensures
        plan.apply_spec(plan.apply_spec(entries)) == plan.apply_spec(entries),
{
    let pred = |e: String| !under_any(plan.clears@, e@);
    let once = plan.apply_spec(entries);
    Seq::filter_distributes_over_add(survivors(entries, plan.clears@), plan.planned_paths(), pred);
    assert forall|i: int|
        0 <= i < survivors(entries, plan.clears@).len() implies pred(
        survivors(entries, plan.clears@)[i],
    ) by {
        Seq::lemma_filter_pred(entries, pred, i);
    }
    lemma_filter_all_true(survivors(entries, plan.clears@), pred);
    lemma_filter_all_false(plan.planned_paths(), pred);
    assert(survivors(once, plan.clears@) =~= survivors(entries, plan.clears@));
}

/// Whether `p` lies under one of the given roots.
pub fn path_under_any(clears: &Vec<String>, p: &str) -> (r: bool)
    ensures
        r == under_any(clears@, p@),
{
    let mut i: usize = 0;
    while i < clears.len()
        invariant
            0 <= i <= clears@.len(),
            forall|k: int| 0 <= k < i ==> !clears@[k]@.is_prefix_of(p@),
        decreases clears@.len() - i,
    {
        if starts_with(p, clears[i].as_str()) {
            return true;
        }
        i += 1;
    }
    false
}

proof fn lemma_filter_push<A>(s: Seq<A>, x: A, pred: spec_fn(A) -> bool)
    ensures
        pred(x) ==> s.push(x).filter(pred) == s.filter(pred).push(x),
        !pred(x) ==> s.push(x).filter(pred) == s.filter(pred),
    decreases s.len(),
{
    reveal(Seq::filter);
    assert(s.push(x).drop_last() =~= s);
    assert(s.push(x).last() == x);
}

impl DirState {
    /// Runs the plan on this directory structure: clears every root the
    /// plan names and creates the planned paths. The result depends only
    /// on the plan and on what stood outside the cleared roots.
    pub fn apply_plan(&mut self, plan: &ScaffoldPlan)
        ensures
            final(self).entries@ == plan.apply_spec(old(self).entries@),
    {
        let ghost pred = |e: String| !under_any(plan.clears@, e@);
        let mut kept: Vec<String> = Vec::new();
        let mut i: usize = 0;
        while i < self.entries.len()
            invariant
                0 <= i <= self.entries@.len(),
                kept@ == self.entries@.subrange(0, i as int).filter(pred),
                pred == (|e: String| !under_any(plan.clears@, e@)),
            decreases self.entries@.len() - i,
        {
            proof {
                assert(self.entries@.subrange(0, i + 1) =~= self.entries@.subrange(
                    0,
                    i as int,
                ).push(self.entries@[i as int]));
                lemma_filter_push(self.entries@.subrange(0, i as int), self.entries@[i as int], pred);
            }
            if !path_under_any(&plan.clears, self.entries[i].as_str()) {
                kept.push(self.entries[i].clone());
            }
            i += 1;
        }
        proof {
            assert(self.entries@.subrange(0, self.entries@.len() as int) =~= self.entries@);
        }
        let mut j: usize = 0;
        while j < plan.dirs.len()
            invariant
                0 <= j <= plan.dirs@.len(),
                kept@ == survivors(old(self).entries@, plan.clears@) + plan.dirs@.subrange(
                    0,
                    j as int,
                ),
            decreases plan.dirs@.len() - j,
        {
            kept.push(plan.dirs[j].clone());
            proof {
                assert(survivors(old(self).entries@, plan.clears@) + plan.dirs@.subrange(
                    0,
                    j + 1,
                ) =~= (survivors(old(self).entries@, plan.clears@) + plan.dirs@.subrange(
                    0,
                    j as int,
                )).push(plan.dirs@[j as int]));
            }
            j += 1;
        }
        let mut k: usize = 0;
        while k < plan.files.len()
            invariant
                0 <= k <= plan.files@.len(),
                kept@ == survivors(old(self).entries@, plan.clears@) + plan.dirs@
                    + plan.files@.subrange(0, k as int).map_values(|f: (String, String)| f.0),
            decreases plan.files@.len() - k,
        {
            kept.push(plan.files[k].0.clone());
            proof {
                assert(plan.files@.subrange(0, k + 1).map_values(|f: (String, String)| f.0)
                    =~= plan.files@.subrange(0, k as int).map_values(
                    |f: (String, String)| f.0,
                ).push(plan.files@[k as int].0));
                assert(survivors(old(self).entries@, plan.clears@) + plan.dirs@
                    + plan.files@.subrange(0, k + 1).map_values(|f: (String, String)| f.0) =~= (
                survivors(old(self).entries@, plan.clears@) + plan.dirs@ + plan.files@.subrange(
                    0,
                    k as int,
                ).map_values(|f: (String, String)| f.0)).push(plan.files@[k as int].0));
            }
            k += 1;
        }
        let mut m: usize = 0;
        while m < plan.icons.len()
            invariant
                0 <= m <= plan.icons@.len(),
                kept@ == survivors(old(self).entries@, plan.clears@) + plan.dirs@
                    + plan.files@.map_values(|f: (String, String)| f.0) + plan.icons@.subrange(
                    0,
                    m as int,
                ).map_values(|j2: IconJob| j2.dest),
            decreases plan.icons@.len() - m,
        {
            kept.push(plan.icons[m].dest.clone());
            proof {
                assert(plan.icons@.subrange(0, m + 1).map_values(|j2: IconJob| j2.dest)
                    =~= plan.icons@.subrange(0, m as int).map_values(|j2: IconJob| j2.dest).push(
                    plan.icons@[m as int].dest,
                ));
                assert(survivors(old(self).entries@, plan.clears@) + plan.dirs@
                    + plan.files@.map_values(|f: (String, String)| f.0) + plan.icons@.subrange(
                    0,
                    m + 1,
                ).map_values(|j2: IconJob| j2.dest) =~= (survivors(old(self).entries@, plan.clears@)
                    + plan.dirs@ + plan.files@.map_values(|f: (String, String)| f.0)
                    + plan.icons@.subrange(0, m as int).map_values(|j2: IconJob| j2.dest)).push(
                    plan.icons@[m as int].dest,
                ));
            }
            m += 1;
        }
        proof {
            assert(plan.files@.subrange(0, plan.files@.len() as int) =~= plan.files@);
            assert(plan.icons@.subrange(0, plan.icons@.len() as int) =~= plan.icons@);
            assert(survivors(old(self).entries@, plan.clears@) + plan.dirs@
                + plan.files@.map_values(|f: (String, String)| f.0) + plan.icons@.map_values(
                |j2: IconJob| j2.dest,
            ) =~= plan.apply_spec(old(self).entries@));
        }
        self.entries = kept;
    }
}

} // verus!
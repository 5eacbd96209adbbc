//! Build results and the error-merge combinator.
//!
//! A batch build over many apps must never hide one app's failure behind
//! another's. `BuildResult` therefore carries *all* failures that occurred,
//! and `merge` combines two results so that every contributing failure is
//! preserved.

use vstd::prelude::*;
use vstd::seq_lib::lemma_multiset_commutative;

verus! {

/// Which class of error an app ran into.
#[derive(Clone, Copy, Debug, PartialEq, Eq, Structural)]
pub enum ErrorKind {
    /// Unknown build-system/target/platform combination or missing toolchain.
    Configuration,
    /// Could not create or remove a directory.
    FileSystem,
    /// The code generator exited with a diagnostic.
    Codegen,
    /// CMake configure step failed.
    Configure,
    /// The compile step (cmake --build, or the native build tool) failed.
    Compile,
    /// CMake install step failed.
    Install,
}

/// One app's failure: which app, which stage, and the captured diagnostic
/// output of the underlying tool (surfaced verbatim, never swallowed).
#[derive(Debug)]
pub struct AppError {
    pub app: String,
    pub kind: ErrorKind,
    pub output: String,
}

/// Outcome of a batch operation: success, or one or more per-app failures.
/// Failures accumulate rather than replace each other.
#[derive(Debug)]
pub enum BuildResult {
    Success,
    Failure(Vec<AppError>),
}

impl BuildResult {
    /// The failures this result carries; a success carries none.
    pub open spec fn failures(&self) -> Seq<AppError> {
        match self {
            BuildResult::Success => Seq::empty(),
            BuildResult::Failure(v) => v@,
        }
    }

    /// Well-formed: a failure result carries at least one failure.
    pub open spec fn wf(&self) -> bool {
        self is Failure ==> self.failures().len() > 0
    }

    pub open spec fn is_success(&self) -> bool {
        self is Success
    }

    /// Executable success test.
    pub fn success(&self) -> (r: bool)
        ensures
            r == self.is_success(),
    {
        match self {
            BuildResult::Success => true,
            BuildResult::Failure(_) => false,
        }
    }
}

/// A failure result built from a single error.
pub fn single_failure(e: AppError) -> (r: BuildResult)
    ensures
        r.wf(),
        r.failures() == seq![e],
        !r.is_success(),
{
    let v: Vec<AppError> = vec![e];
    let r = BuildResult::Failure(v);
    proof {
        assert(r.failures() =~= seq![e]);
    }
    r
}

/// The error-merge combinator: success is the identity, and two failures
/// are combined so that *both* sets of failures are preserved, in order.
pub fn merge(a: BuildResult, b: BuildResult) -> (r: BuildResult)
    requires
        a.wf(),
        b.wf(),
    ensures
        r.wf(),
        r.failures() == a.failures() + b.failures(),
        r.is_success() <==> (a.is_success() && b.is_success()),
{
    match (a, b) {
        (BuildResult::Success, other) => {
            proof {
                assert(other.failures() =~= Seq::<AppError>::empty() + other.failures());
            }
            other
        },
        (other, BuildResult::Success) => {
            proof {
                assert(other.failures() =~= other.failures() + Seq::<AppError>::empty());
            }
            other
        },
        (BuildResult::Failure(mut va), BuildResult::Failure(mut vb)) => {
            va.append(&mut vb);
            BuildResult::Failure(va)
        },
    }
}

/// Error merge is associative with respect to which failures it preserves:
/// merging the failures of three results in either grouping yields exactly
/// the same failures in the same order. Together with `merge`'s postcondition
/// (the merged result's failures are the concatenation of its inputs'),
/// this pins down the failure set of any fold over a batch.
pub proof fn lemma_merge_failures_associative(a: BuildResult, b: BuildResult, c: BuildResult)
    ensures
        (a.failures() + b.failures()) + c.failures() == a.failures() + (b.failures()
            + c.failures()),
{
    assert((a.failures() + b.failures()) + c.failures() =~= a.failures() + (b.failures()
        + c.failures()));
}

/// Error merge is commutative with respect to which failures it preserves:
/// merging two results in either order preserves exactly the same multiset
/// of failures (only their report order differs).
pub proof fn lemma_merge_failures_commutative(a: BuildResult, b: BuildResult)
    ensures
        (a.failures() + b.failures()).to_multiset() == (b.failures()
            + a.failures()).to_multiset(),
{
    lemma_multiset_commutative(a.failures(), b.failures());
    lemma_multiset_commutative(b.failures(), a.failures());
    assert((a.failures() + b.failures()).to_multiset() =~= (b.failures()
        + a.failures()).to_multiset());
}

/// All failures of a sequence of results, concatenated left to right.
pub open spec fn concat_failures(rs: Seq<BuildResult>) -> Seq<AppError>
    decreases rs.len(),
{
    if rs.len() == 0 {
        Seq::empty()
    } else {
        concat_failures(rs.drop_last()) + rs.last().failures()
    }
}

/// Every result in the sequence is a success.
pub open spec fn all_success(rs: Seq<BuildResult>) -> bool {
    forall|i: int| 0 <= i < rs.len() ==> rs[i].is_success()
}

/// A sequence of successes contributes no failures, and conversely a
/// well-formed sequence with no failures is all successes.
pub proof fn lemma_concat_failures_empty(rs: Seq<BuildResult>)
    requires
        forall|i: int| 0 <= i < rs.len() ==> #[trigger] rs[i].wf(),
    ensures
        all_success(rs) <==> concat_failures(rs).len() == 0,
    decreases rs.len(),
{
    if rs.len() > 0 {
        let dl = rs.drop_last();
        assert forall|i: int| 0 <= i < dl.len() implies #[trigger] dl[i].wf() by {
            assert(dl[i] == rs[i]);
        }
        lemma_concat_failures_empty(dl);
        assert(rs.last() == rs[rs.len() - 1]);
        if all_success(rs) {
            assert forall|i: int| 0 <= i < dl.len() implies dl[i].is_success() by {
                assert(dl[i] == rs[i]);
            }
            assert(concat_failures(rs).len() == 0);
        }
        if concat_failures(rs).len() == 0 {
            assert forall|i: int| 0 <= i < rs.len() implies rs[i].is_success() by {
                if i < rs.len() - 1 {
                    assert(dl[i] == rs[i]);
                } else {
                    assert(rs[i] == rs.last());
                    assert(rs.last().failures().len() == 0);
                    assert(rs.last().wf());
                }
            }
        }
    }
}

/// Left fold of a whole batch's results with the error-merge combinator:
/// the final result preserves every failure of every input, in order,
/// and is a success exactly when every input succeeded.
pub fn fold_results(results: Vec<BuildResult>) -> (r: BuildResult)
    requires
        forall|i: int| 0 <= i < results@.len() ==> #[trigger] results@[i].wf(),
    ensures
        r.wf(),
        r.failures() == concat_failures(results@),
        r.is_success() <==> all_success(results@),
{
    let ghost all: Seq<BuildResult> = results@;
    let n = results.len();
    let mut rest = results;
    let mut acc = BuildResult::Success;
    let mut i: usize = 0;
    proof {
        assert(acc.failures() =~= concat_failures(all.take(0)));
        assert(rest@ =~= all.skip(0));
    }
    while i < n
        invariant
            n == all.len(),
            i <= all.len(),
            rest@ == all.skip(i as int),
            forall|j: int| 0 <= j < all.len() ==> #[trigger] all[j].wf(),
            acc.wf(),
            acc.failures() == concat_failures(all.take(i as int)),
            acc.is_success() <==> all_success(all.take(i as int)),
        decreases all.len() - i,
    {
        let next = rest.remove(0);
        proof {
            assert(next == all[i as int]);
            assert(rest@ =~= all.skip(i as int + 1));
            assert(all.take(i as int + 1).drop_last() =~= all.take(i as int));
            assert(all.take(i as int + 1).last() == all[i as int]);
        }
        acc = merge(acc, next);
        proof {
            assert(all_success(all.take(i as int + 1)) <==> (all_success(all.take(i as int))
                && all[i as int].is_success())) by {
                assert(forall|j: int|
                    0 <= j < i as int ==> all.take(i as int + 1)[j] == all.take(i as int)[j]);
                assert(all.take(i as int + 1)[i as int] == all[i as int]);
            }
        }
        i = i + 1;
    }
    proof {
        assert(all.take(all.len() as int) =~= all);
    }
    acc
}

} // verus!

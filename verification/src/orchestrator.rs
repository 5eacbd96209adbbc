//! The batch orchestrator: runs one command against an ordered set of apps
//! through one backend, and decides how to react when an individual app
//! fails.
//!
//! A batch moves through the phases codegen, then either compile or
//! skipped, then a final success or failure. Code generation for all apps
//! completes (or fails) before any app's compile phase starts; the compile
//! phase then processes apps one at a time in selection order. The
//! keep-going flag decides whether a per-app failure stops the batch or
//! only gets recorded while the remaining apps proceed; a failure is never
//! hidden either way.

use vstd::prelude::*;
use crate::backends::{
    Backend, BatchLingoCommand, BuildCommandOptions, CommandInvocation, CommandSpec,
};
use crate::backends::lfc::{codegen_invocation, is_codegen_invocation};
use crate::errors::{all_success, concat_failures, AppError, BuildResult, ErrorKind};
use crate::package::App;

verus! {

/// The first phase a batch command leads to: a codegen pre-pass covering
/// all apps for a build, the removal of each app's output root for a
/// clean, or nothing at all for commands a backend does not orchestrate.
pub enum BatchPhase {
    Codegen(Vec<CommandInvocation>),
    Clean(Vec<String>),
    Skipped,
}

/// Open one batch against one backend: the single decision point that
/// turns the requested command into the batch's first phase. A build's
/// codegen invocations cover every selected app, in selection order,
/// before any compile step may start; a clean names each app's output
/// root, in order; anything else is a no-op success.
pub fn open_batch(backend: &Backend, command: &BatchLingoCommand) -> (r: BatchPhase)
    ensures
        command.task matches CommandSpec::Build(o) ==> (r matches BatchPhase::Codegen(invs)
            && invs@.len() == command.apps@.len() && (forall|i: int|
            0 <= i < command.apps@.len() ==> is_codegen_invocation(
                #[trigger] invs@[i],
                backend.lfc_path_view(),
                o,
                command.apps@[i],
            ))),
        command.task is Clean ==> (r matches BatchPhase::Clean(paths) && paths@.len()
            == command.apps@.len() && (forall|i: int|
            0 <= i < command.apps@.len() ==> #[trigger] paths@[i]@
                == command.apps@[i].output_root@)),
        command.task is Run ==> r is Skipped,
{
    match &command.task {
        CommandSpec::Build(options) => BatchPhase::Codegen(
            codegen_invocations(backend, options, &command.apps),
        ),
        CommandSpec::Clean => BatchPhase::Clean(clean_paths(&command.apps)),
        CommandSpec::Run(_) => BatchPhase::Skipped,
    }
}

/// The code-generation invocations of one batch: one per app, in selection
/// order, each independent of the others (disjoint source and output
/// directories), which is what permits the bounded parallel fan-out.
pub fn codegen_invocations(
    backend: &Backend,
    options: &BuildCommandOptions,
    apps: &Vec<App>,
) -> (r: Vec<CommandInvocation>)
    ensures
        r@.len() == apps@.len(),
        forall|i: int|
            0 <= i < apps@.len() ==> is_codegen_invocation(
                #[trigger] r@[i],
                backend.lfc_path_view(),
                *options,
                apps@[i],
            ),
{
    let mut r: Vec<CommandInvocation> = Vec::new();
    let mut i: usize = 0;
    while i < apps.len()
        invariant
            i <= apps@.len(),
            r@.len() == i,
            forall|j: int|
                0 <= j < i ==> is_codegen_invocation(
                    #[trigger] r@[j],
                    backend.lfc_path_view(),
                    *options,
                    apps@[j],
                ),
        decreases apps@.len() - i,
    {
        r.push(codegen_invocation(backend.lfc_path(), options, &apps[i]));
        i = i + 1;
    }
    r
}

/// The worker bound of the codegen fan-out: one worker per app, but never
/// more than the machine offers, and at least one whenever there is work
/// (a machine reporting no concurrency still gets one worker).
pub open spec fn spec_worker_limit(apps: nat, hardware: nat) -> nat {
    let h = if hardware == 0 {
        1nat
    } else {
        hardware
    };
    if apps <= h {
        apps
    } else {
        h
    }
}

/// How many workers the codegen fan-out may use.
pub fn codegen_worker_limit(apps: usize, hardware: usize) -> (r: usize)
    ensures
        r == spec_worker_limit(apps as nat, hardware as nat),
{
    let h: usize = if hardware == 0 {
        1
    } else {
        hardware
    };
    if apps <= h {
        apps
    } else {
        h
    }
}

/// The failure record for one app whose code generation failed, carrying
/// the code generator's captured diagnostic output verbatim.
pub fn codegen_failure(app: &App, output: String) -> (e: AppError)
    ensures
        e.app@ == app.name@,
        e.kind == ErrorKind::Codegen,
        e.output@ == output@,
{
    AppError { app: app.name.clone(), kind: ErrorKind::Codegen, output }
}

/// The apps of `apps` whose paired result is a success, in order.
pub open spec fn filtered_apps(apps: Seq<App>, results: Seq<BuildResult>) -> Seq<App>
    recommends
        apps.len() == results.len(),
    decreases apps.len(),
{
    if apps.len() == 0 || results.len() == 0 {
        Seq::empty()
    } else {
        filtered_apps(apps.drop_last(), results.drop_last()) + if results.last().is_success() {
            seq![apps.last()]
        } else {
            Seq::empty()
        }
    }
}

/// When every result is a success, filtering drops nothing.
pub proof fn lemma_filtered_all_success(apps: Seq<App>, results: Seq<BuildResult>)
    requires
        apps.len() == results.len(),
        all_success(results),
    ensures
        filtered_apps(apps, results) == apps,
    decreases apps.len(),
{
    if apps.len() > 0 {
        assert forall|i: int| 0 <= i < results.drop_last().len() implies results.drop_last()[i]
            .is_success() by {
            assert(results.drop_last()[i] == results[i]);
        }
        lemma_filtered_all_success(apps.drop_last(), results.drop_last());
        assert(results.last() == results[results.len() - 1]);
        assert(filtered_apps(apps, results) =~= apps);
    }
}

/// Which apps enter the compile phase, given every app's codegen result:
/// none when compilation was not requested (codegen-only mode is terminal);
/// none when keep-going is off and some app's codegen failed (the batch
/// stops before compiling anything); otherwise exactly the apps whose
/// codegen succeeded, in selection order — an app whose codegen failed
/// never enters the compile phase.
pub open spec fn spec_survivors(
    apps: Seq<App>,
    results: Seq<BuildResult>,
    keep_going: bool,
    compile: bool,
) -> Seq<App> {
    if compile && (keep_going || all_success(results)) {
        filtered_apps(apps, results)
    } else {
        Seq::empty()
    }
}

/// The sequential compile phase of one batch: apps are attempted one at a
/// time in a fixed order, every attempt's result is recorded, and the
/// keep-going flag decides whether a failure stops the remaining apps.
/// The accumulated failures always contain every failure recorded so far —
/// the orchestrator decides only whether to continue, never to hide a
/// failure that occurred.
pub struct CompileQueue {
    /// The apps still eligible for compilation, in selection order.
    pub apps: Vec<App>,
    /// Whether to continue past per-app failures.
    pub keep_going: bool,
    /// How many apps have been attempted so far.
    pub idx: usize,
    /// Whether the batch stopped early at a failing app.
    pub stopped: bool,
    /// Every failure of the batch so far, codegen failures included.
    pub acc: Vec<AppError>,
    /// The failures the queue started with (the codegen phase's).
    pub init: Ghost<Seq<AppError>>,
    /// Every per-app result recorded so far, in order.
    pub hist: Ghost<Seq<BuildResult>>,
}

impl CompileQueue {
    /// Invariant of the compile phase: the attempt history matches the
    /// attempt count, the accumulated failures are exactly the initial
    /// ones followed by every recorded failure, an early stop happens only
    /// with keep-going off at a failing attempt, and with keep-going off
    /// every attempt before the last one succeeded.
    pub open spec fn wf(&self) -> bool {
        &&& self.idx <= self.apps@.len()
        &&& self.hist@.len() == self.idx
        &&& (forall|i: int| 0 <= i < self.hist@.len() ==> (#[trigger] self.hist@[i]).wf())
        &&& self.acc@ == self.init@ + concat_failures(self.hist@)
        &&& (self.stopped ==> (!self.keep_going && self.hist@.len() > 0 && !self.hist@.last()
            .is_success()))
        &&& ((!self.keep_going && self.hist@.len() > 0) ==> all_success(
            self.hist@.take(self.hist@.len() - 1),
        ))
        &&& ((!self.keep_going && !self.stopped) ==> all_success(self.hist@))
    }

    /// The compile phase is over: it stopped early, or every app was
    /// attempted.
    pub open spec fn done(&self) -> bool {
        self.stopped || self.idx == self.apps@.len()
    }

    /// A fresh compile phase over the given apps, carrying the failures
    /// the codegen phase already produced.
    pub fn new(apps: Vec<App>, keep_going: bool, init: Vec<AppError>) -> (q: CompileQueue)
        ensures
            q.wf(),
            q.apps@ == apps@,
            q.keep_going == keep_going,
            q.idx == 0,
            !q.stopped,
            q.acc@ == init@,
            q.init@ == init@,
            q.hist@ == Seq::<BuildResult>::empty(),
    {
        let ghost init_view = init@;
        let q = CompileQueue {
            apps,
            keep_going,
            idx: 0,
            stopped: false,
            acc: init,
            init: Ghost(init_view),
            hist: Ghost(Seq::empty()),
        };
        proof {
            assert(q.acc@ =~= q.init@ + concat_failures(q.hist@));
        }
        q
    }

    /// The next app to attempt, or nothing once the phase is over. Until
    /// the phase is over this is always the first never-attempted app, so
    /// every app is attempted at most once and in order.
    pub fn next(&self) -> (r: Option<&App>)
        requires
            self.wf(),
        ensures
            self.done() ==> r is None,
            !self.done() ==> (r matches Some(a) && *a == self.apps@[self.idx as int]),
    {
        if self.stopped || self.idx >= self.apps.len() {
            Option::None
        } else {
            Option::Some(&self.apps[self.idx])
        }
    }

    /// Record the result of the app just attempted. The attempt count
    /// rises by exactly one, every failure the result carries is added to
    /// the accumulated failures (none is discarded), and — keep-going
    /// policy — a failure with keep-going off finishes the batch at once,
    /// while with keep-going on the batch finishes only once every app
    /// has been attempted.
    pub fn record(&mut self, r: BuildResult)
        requires
            old(self).wf(),
            !old(self).done(),
            r.wf(),
        ensures
            final(self).wf(),
            final(self).apps@ == old(self).apps@,
            final(self).keep_going == old(self).keep_going,
            final(self).init@ == old(self).init@,
            final(self).idx == old(self).idx + 1,
            final(self).hist@ == old(self).hist@.push(r),
            final(self).acc@ == old(self).acc@ + r.failures(),
            final(self).stopped == (!old(self).keep_going && !r.is_success()),
            final(self).done() == (old(self).idx + 1 == old(self).apps@.len() || (!old(
                self,
            ).keep_going && !r.is_success())),
    {
        let ghost old_hist = self.hist@;
        let ghost gr = r;
        let failed = !r.success();
        let total = self.apps.len();
        proof {
            assert(self.idx < total);
        }
        self.idx = self.idx + 1;
        match r {
            BuildResult::Success => {},
            BuildResult::Failure(mut v) => {
                self.acc.append(&mut v);
            },
        }
        if !self.keep_going && failed {
            self.stopped = true;
        }
        proof {
            self.hist@ = old_hist.push(gr);
            assert(self.hist@.drop_last() =~= old_hist);
            assert(self.hist@.last() == gr);
            assert forall|i: int| 0 <= i < self.hist@.len() implies (#[trigger] self.hist@[i]).wf()
                by {
                if i < old_hist.len() {
                    assert(self.hist@[i] == old_hist[i]);
                } else {
                    assert(self.hist@[i] == gr);
                }
            }
            assert(concat_failures(self.hist@) == concat_failures(old_hist) + gr.failures());
            assert(self.acc@ =~= old(self).acc@ + gr.failures());
            assert(self.acc@ =~= self.init@ + concat_failures(self.hist@));
            assert(self.hist@.take(self.hist@.len() - 1) =~= old_hist);
            if !self.keep_going && !self.stopped {
                assert forall|i: int| 0 <= i < self.hist@.len() implies self.hist@[i]
                    .is_success() by {
                    if i < old_hist.len() {
                        assert(self.hist@[i] == old_hist[i]);
                    } else {
                        assert(self.hist@[i] == gr);
                    }
                }
            }
        }
    }

    /// The final result of the batch, available once the phase is over:
    /// a success exactly when the codegen phase contributed no failure and
    /// every compile attempt succeeded; otherwise a failure carrying the
    /// codegen phase's failures followed by every recorded compile failure.
    pub fn result(self) -> (r: BuildResult)
        requires
            self.wf(),
            self.done(),
        ensures
            r.wf(),
            r.failures() == self.init@ + concat_failures(self.hist@),
            r.is_success() <==> (self.init@.len() == 0 && all_success(self.hist@)),
    {
        proof {
            crate::errors::lemma_concat_failures_empty(self.hist@);
        }
        if self.acc.len() == 0 {
            proof {
                assert(BuildResult::Success.failures() =~= self.acc@);
            }
            BuildResult::Success
        } else {
            BuildResult::Failure(self.acc)
        }
    }
}

/// Keep-going law: with keep-going on, a finished batch has attempted
/// every eligible app exactly once, and its accumulated failures are
/// exactly the initial ones followed by each attempt's failures — the
/// final result contains every individual app failure that occurred.
pub proof fn lemma_keep_going_complete(q: &CompileQueue)
    requires
        q.wf(),
        q.keep_going,
        q.done(),
    ensures
        q.hist@.len() == q.apps@.len(),
        q.acc@ == q.init@ + concat_failures(q.hist@),
{
}

/// Stop-at-first-failure law: with keep-going off, a finished batch either
/// attempted every app and every attempt succeeded, or it stopped at the
/// first failing app — every attempt before the last succeeded, the last
/// failed, and no app after it was attempted.
pub proof fn lemma_stops_at_first_failure(q: &CompileQueue)
    requires
        q.wf(),
        !q.keep_going,
        q.done(),
    ensures
        q.stopped ==> (q.hist@.len() > 0 && !q.hist@.last().is_success() && all_success(
            q.hist@.take(q.hist@.len() - 1),
        )),
        !q.stopped ==> (q.hist@.len() == q.apps@.len() && all_success(q.hist@)),
{
}

/// Close the codegen phase and open the compile phase: fold every app's
/// codegen result into the batch's failures, and enqueue exactly the apps
/// that may compile (see `spec_survivors`). In codegen-only mode the queue
/// is empty, so no compiler or CMake pipeline is ever invoked.
pub fn start_compile_phase(
    apps: Vec<App>,
    codegen_results: Vec<BuildResult>,
    options: &BuildCommandOptions,
) -> (q: CompileQueue)
    requires
        apps@.len() == codegen_results@.len(),
        forall|i: int| 0 <= i < codegen_results@.len() ==> #[trigger] codegen_results@[i].wf(),
    ensures
        q.wf(),
        q.keep_going == options.keep_going,
        q.idx == 0,
        !q.stopped,
        q.hist@ == Seq::<BuildResult>::empty(),
        q.init@ == concat_failures(codegen_results@),
        q.acc@ == concat_failures(codegen_results@),
        q.apps@ == spec_survivors(
            apps@,
            codegen_results@,
            options.keep_going,
            options.compile_target_code,
        ),
        !options.compile_target_code ==> q.apps@.len() == 0,
        (options.compile_target_code && all_success(codegen_results@)) ==> q.apps@ == apps@,
{
    let ghost apps0 = apps@;
    let ghost res0 = codegen_results@;
    let n = codegen_results.len();

    let mut ok = true;
    let mut i: usize = 0;
    while i < n
        invariant
            n == res0.len(),
            i <= n,
            codegen_results@ == res0,
            ok == all_success(res0.take(i as int)),
        decreases n - i,
    {
        proof {
            assert(res0.take(i as int + 1).drop_last() =~= res0.take(i as int));
            assert(res0.take(i as int + 1)[i as int] == res0[i as int]);
            assert(forall|j: int|
                0 <= j < i as int ==> res0.take(i as int + 1)[j] == res0.take(i as int)[j]);
        }
        if !codegen_results[i].success() {
            ok = false;
            proof {
                assert(!all_success(res0.take(i as int + 1)));
            }
        } else {
            proof {
                if all_success(res0.take(i as int)) {
                    assert forall|j: int|
                        0 <= j < i as int + 1 implies #[trigger] res0.take(i as int + 1)[j]
                        .is_success() by {
                        if j < i as int {
                            assert(res0.take(i as int + 1)[j] == res0.take(i as int)[j]);
                        }
                    }
                }
            }
        }
        i = i + 1;
    }
    proof {
        assert(res0.take(n as int) =~= res0);
    }

    let push_apps = options.compile_target_code && (options.keep_going || ok);
    let mut survivors: Vec<App> = Vec::new();
    let mut init: Vec<AppError> = Vec::new();
    let mut rest_a = apps;
    let mut rest_r = codegen_results;
    let mut k: usize = 0;
    proof {
        assert(rest_a@ =~= apps0.skip(0));
        assert(rest_r@ =~= res0.skip(0));
        assert(init@ =~= concat_failures(res0.take(0)));
        assert(survivors@ =~= filtered_apps(apps0.take(0), res0.take(0)));
    }
    while k < n
        invariant
            n == res0.len(),
            apps0.len() == res0.len(),
            k <= n,
            rest_a@ == apps0.skip(k as int),
            rest_r@ == res0.skip(k as int),
            forall|j: int| 0 <= j < res0.len() ==> #[trigger] res0[j].wf(),
            init@ == concat_failures(res0.take(k as int)),
            survivors@ == if push_apps {
                filtered_apps(apps0.take(k as int), res0.take(k as int))
            } else {
                Seq::<App>::empty()
            },
        decreases n - k,
    {
        let a = rest_a.remove(0);
        let r = rest_r.remove(0);
        proof {
            assert(a == apps0[k as int]);
            assert(r == res0[k as int]);
            assert(rest_a@ =~= apps0.skip(k as int + 1));
            assert(rest_r@ =~= res0.skip(k as int + 1));
            assert(res0.take(k as int + 1).drop_last() =~= res0.take(k as int));
            assert(res0.take(k as int + 1).last() == res0[k as int]);
            assert(apps0.take(k as int + 1).drop_last() =~= apps0.take(k as int));
            assert(apps0.take(k as int + 1).last() == apps0[k as int]);
        }
        let good = r.success();
        match r {
            BuildResult::Success => {},
            BuildResult::Failure(mut v) => {
                init.append(&mut v);
            },
        }
        proof {
            assert(init@ =~= concat_failures(res0.take(k as int + 1)));
        }
        if push_apps && good {
            survivors.push(a);
            proof {
                assert(survivors@ =~= filtered_apps(
                    apps0.take(k as int + 1),
                    res0.take(k as int + 1),
                ));
            }
        } else {
            proof {
                if push_apps {
                    assert(survivors@ =~= filtered_apps(
                        apps0.take(k as int + 1),
                        res0.take(k as int + 1),
                    ));
                }
            }
        }
        k = k + 1;
    }
    proof {
        assert(apps0.take(n as int) =~= apps0);
        assert(res0.take(n as int) =~= res0);
        if all_success(res0) {
            lemma_filtered_all_success(apps0, res0);
        }
    }
    CompileQueue::new(survivors, options.keep_going, init)
}

/// How a clean attempt on one app ended in the filesystem: the output
/// root was removed, was already absent, or could not be removed.
#[derive(Debug)]
pub enum CleanOutcome {
    Removed,
    AlreadyAbsent,
    Failed(String),
}

/// The result of cleaning one app: removing the output root succeeds, an
/// output root that is already absent is success too — which is what makes
/// a second clean in a row on the same app error-free — and only an actual
/// removal failure is the app's failure, carrying the diagnostic output.
pub fn clean_result(app: &App, outcome: CleanOutcome) -> (r: BuildResult)
    ensures
        r.wf(),
        r.is_success() <==> !(outcome is Failed),
        outcome matches CleanOutcome::Failed(o) ==> (r.failures().len() == 1 && r.failures()[0].app@
            == app.name@ && r.failures()[0].kind == ErrorKind::FileSystem
            && r.failures()[0].output@ == o@),
{
    match outcome {
        CleanOutcome::Removed => BuildResult::Success,
        CleanOutcome::AlreadyAbsent => BuildResult::Success,
        CleanOutcome::Failed(o) => crate::errors::single_failure(
            AppError { app: app.name.clone(), kind: ErrorKind::FileSystem, output: o },
        ),
    }
}

/// The paths a clean command removes: each selected app's output root,
/// in selection order.
pub fn clean_paths(apps: &Vec<App>) -> (r: Vec<String>)
    ensures
        r@.len() == apps@.len(),
        forall|i: int| 0 <= i < apps@.len() ==> #[trigger] r@[i]@ == apps@[i].output_root@,
{
    let mut r: Vec<String> = Vec::new();
    let mut i: usize = 0;
    while i < apps.len()
        invariant
            i <= apps@.len(),
            r@.len() == i,
            forall|j: int| 0 <= j < i ==> #[trigger] r@[j]@ == apps@[j].output_root@,
        decreases apps@.len() - i,
    {
        r.push(apps[i].output_root.clone());
        i = i + 1;
    }
    r
}

} // verus!

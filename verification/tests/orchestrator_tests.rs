use lingo::args::{BuildSystem, Platform, TargetLanguage};
use lingo::backends::{
    select_backend, BatchLingoCommand, BuildCommandOptions, BuildProfile, CommandSpec,
};
use lingo::errors::{single_failure, AppError, BuildResult, ErrorKind};
use lingo::orchestrator::{
    clean_paths, clean_result, codegen_failure, codegen_worker_limit, open_batch,
    start_compile_phase, BatchPhase, CleanOutcome,
};
use lingo::package::{App, LFCProperties};

fn app(name: &str) -> App {
    App {
        name: name.to_string(),
        root_path: format!("/proj/{}", name),
        output_root: format!("/proj/target/{}", name),
    }
}

fn options(compile: bool, keep_going: bool) -> BuildCommandOptions {
    BuildCommandOptions {
        profile: BuildProfile::Debug,
        language: TargetLanguage::Cpp,
        platform: Platform::Native,
        toolchain: None,
        compile_target_code: compile,
        keep_going,
    }
}

fn fail(name: &str, kind: ErrorKind, out: &str) -> BuildResult {
    single_failure(AppError { app: name.to_string(), kind, output: out.to_string() })
}

fn failure_apps(r: &BuildResult) -> Vec<String> {
    match r {
        BuildResult::Success => Vec::new(),
        BuildResult::Failure(v) => v.iter().map(|e| e.app.clone()).collect(),
    }
}

#[test]
fn empty_selection_is_immediate_success() {
    // An empty app selection is valid and yields an unconditional success.
    let q = start_compile_phase(Vec::new(), Vec::new(), &options(true, false));
    assert!(q.next().is_none());
    let r = q.result();
    assert!(r.success());
}

#[test]
fn codegen_only_mode_compiles_nothing() {
    // compile_target_code = false: after codegen nothing else runs, so the
    // compile queue never offers an app and no build directory is created.
    let apps = vec![app("X"), app("Y")];
    let results = vec![BuildResult::Success, BuildResult::Success];
    let q = start_compile_phase(apps, results, &options(false, false));
    assert!(q.next().is_none());
    let r = q.result();
    assert!(r.success());
}

#[test]
fn codegen_failure_without_keep_going_stops_batch() {
    // Scenario: apps [X, Y], X's codegen fails, keep-going off: Y is never
    // attempted and the result is X's failure.
    let apps = vec![app("X"), app("Y")];
    let results = vec![fail("X", ErrorKind::Codegen, "bad reactor"), BuildResult::Success];
    let q = start_compile_phase(apps, results, &options(true, false));
    assert!(q.next().is_none());
    let r = q.result();
    assert!(!r.success());
    assert_eq!(failure_apps(&r), vec!["X".to_string()]);
}

#[test]
fn codegen_failure_with_keep_going_still_compiles_the_rest() {
    // Scenario: same batch, keep-going on, X codegen fails, Y succeeds
    // fully: Y is still attempted, and the final result reports exactly
    // X's failure.
    let apps = vec![app("X"), app("Y")];
    let results = vec![fail("X", ErrorKind::Codegen, "bad reactor"), BuildResult::Success];
    let mut q = start_compile_phase(apps, results, &options(true, true));
    let next = q.next().expect("Y must still be attempted");
    assert_eq!(next.name, "Y");
    q.record(BuildResult::Success);
    assert!(q.next().is_none());
    let r = q.result();
    assert!(!r.success());
    assert_eq!(failure_apps(&r), vec!["X".to_string()]);
}

#[test]
fn compile_failure_without_keep_going_stops_at_first_failing_app() {
    // Apps after the failing one are never offered for compilation.
    let apps = vec![app("A"), app("B"), app("C")];
    let results = vec![BuildResult::Success, BuildResult::Success, BuildResult::Success];
    let mut q = start_compile_phase(apps, results, &options(true, false));
    assert_eq!(q.next().expect("A first").name, "A");
    q.record(BuildResult::Success);
    assert_eq!(q.next().expect("B second").name, "B");
    q.record(fail("B", ErrorKind::Compile, "link error"));
    assert!(q.next().is_none());
    let r = q.result();
    assert_eq!(failure_apps(&r), vec!["B".to_string()]);
}

#[test]
fn keep_going_attempts_every_app_and_reports_every_failure() {
    // With keep-going on every app is attempted exactly once and the final
    // result contains every individual failure that occurred.
    let apps = vec![app("A"), app("B"), app("C")];
    let results = vec![BuildResult::Success, BuildResult::Success, BuildResult::Success];
    let mut q = start_compile_phase(apps, results, &options(true, true));
    let mut attempted = Vec::new();
    let mut step = 0;
    while let Some(a) = q.next() {
        attempted.push(a.name.clone());
        let res = if step == 1 {
            fail("B", ErrorKind::Compile, "b broke")
        } else if step == 2 {
            fail("C", ErrorKind::Install, "c broke")
        } else {
            BuildResult::Success
        };
        step += 1;
        q.record(res);
    }
    assert_eq!(attempted, vec!["A".to_string(), "B".to_string(), "C".to_string()]);
    let r = q.result();
    assert_eq!(failure_apps(&r), vec!["B".to_string(), "C".to_string()]);
}

#[test]
fn codegen_failed_app_never_enters_compile_phase() {
    // Codegen is a hard prerequisite: under keep-going, the app whose
    // codegen failed is skipped while the others still compile.
    let apps = vec![app("A"), app("B"), app("C")];
    let results = vec![
        BuildResult::Success,
        fail("B", ErrorKind::Codegen, "no gen"),
        BuildResult::Success,
    ];
    let mut q = start_compile_phase(apps, results, &options(true, true));
    assert_eq!(q.next().expect("A compiles").name, "A");
    q.record(BuildResult::Success);
    assert_eq!(q.next().expect("C compiles, B is skipped").name, "C");
    q.record(BuildResult::Success);
    assert!(q.next().is_none());
    let r = q.result();
    assert_eq!(failure_apps(&r), vec!["B".to_string()]);
}

#[test]
fn keep_going_reports_codegen_and_compile_failures_together() {
    // X's codegen fails, Z's compile fails: the final result carries both
    // failures, codegen's first, and Y's success is not reported as one.
    let apps = vec![app("X"), app("Y"), app("Z")];
    let results = vec![
        fail("X", ErrorKind::Codegen, "x gen"),
        BuildResult::Success,
        BuildResult::Success,
    ];
    let mut q = start_compile_phase(apps, results, &options(true, true));
    assert_eq!(q.next().expect("Y compiles").name, "Y");
    q.record(BuildResult::Success);
    assert_eq!(q.next().expect("Z compiles").name, "Z");
    q.record(fail("Z", ErrorKind::Compile, "z compile"));
    assert!(q.next().is_none());
    let r = q.result();
    assert_eq!(failure_apps(&r), vec!["X".to_string(), "Z".to_string()]);
}

#[test]
fn clean_of_absent_output_root_is_success() {
    // Clean is idempotent: an output root already removed by an earlier
    // clean is success, not an error.
    let a = app("X");
    let first = clean_result(&a, CleanOutcome::Removed);
    assert!(first.success());
    let second = clean_result(&a, CleanOutcome::AlreadyAbsent);
    assert!(second.success());
}

#[test]
fn clean_failure_is_a_filesystem_error_of_that_app() {
    let a = app("X");
    let r = clean_result(&a, CleanOutcome::Failed("permission denied".to_string()));
    assert!(!r.success());
    match r {
        BuildResult::Failure(v) => {
            assert_eq!(v.len(), 1);
            assert_eq!(v[0].app, "X");
            assert!(matches!(v[0].kind, ErrorKind::FileSystem));
            assert_eq!(v[0].output, "permission denied");
        }
        BuildResult::Success => panic!("expected a failure"),
    }
}

#[test]
fn clean_paths_are_the_output_roots_in_order() {
    let apps = vec![app("A"), app("B")];
    let paths = clean_paths(&apps);
    assert_eq!(paths, vec!["/proj/target/A".to_string(), "/proj/target/B".to_string()]);
}

#[test]
fn worker_limit_is_bounded_by_apps_and_hardware() {
    assert_eq!(codegen_worker_limit(10, 4), 4);
    assert_eq!(codegen_worker_limit(2, 4), 2);
    assert_eq!(codegen_worker_limit(0, 4), 0);
    assert_eq!(codegen_worker_limit(3, 0), 1);
}

#[test]
fn open_batch_build_opens_with_codegen_for_every_app() {
    let apps = vec![app("A"), app("B")];
    let props = LFCProperties { path: "/opt/lfc/bin/lfc".to_string() };
    let backend = select_backend(&BuildSystem::LFC, &apps[0], &props);
    let command = BatchLingoCommand { task: CommandSpec::Build(options(true, false)), apps };
    match open_batch(&backend, &command) {
        BatchPhase::Codegen(invs) => {
            assert_eq!(invs.len(), 2);
            assert_eq!(invs[0].program, "/opt/lfc/bin/lfc");
            assert_eq!(invs[0].args[6], "--no-compile");
        }
        _ => panic!("a build must open with the codegen phase"),
    }
}

#[test]
fn open_batch_clean_names_each_output_root() {
    let apps = vec![app("A"), app("B")];
    let props = LFCProperties { path: "lfc".to_string() };
    let backend = select_backend(&BuildSystem::CMake, &apps[0], &props);
    let command = BatchLingoCommand { task: CommandSpec::Clean, apps };
    match open_batch(&backend, &command) {
        BatchPhase::Clean(paths) => {
            assert_eq!(paths, vec!["/proj/target/A".to_string(), "/proj/target/B".to_string()]);
        }
        _ => panic!("a clean must name the output roots"),
    }
}

#[test]
fn open_batch_run_is_skipped_by_backends() {
    let apps = vec![app("A")];
    let props = LFCProperties { path: "lfc".to_string() };
    let backend = select_backend(&BuildSystem::CMake, &apps[0], &props);
    let command = BatchLingoCommand { task: CommandSpec::Run(options(true, false)), apps };
    assert!(matches!(open_batch(&backend, &command), BatchPhase::Skipped));
}

#[test]
fn codegen_failure_record_names_the_app() {
    let a = app("X");
    let e = codegen_failure(&a, "stderr of lfc".to_string());
    assert_eq!(e.app, "X");
    assert!(matches!(e.kind, ErrorKind::Codegen));
    assert_eq!(e.output, "stderr of lfc");
}

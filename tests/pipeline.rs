use zirco_runner::models::{exit_code_of, JobResult, TaskType};
use zirco_runner::pipeline::{
    discards_stdout, first_stage, next_step, spawn_failure_message, stage_command,
    stage_timeout_secs, timeout_message, Stage, StageOutcome, Step, WorkPaths,
};

fn exited(stdout: &str, stderr: &str, code: Option<i32>) -> StageOutcome {
    StageOutcome::Exited { stdout: stdout.to_string(), stderr: stderr.to_string(), code }
}

fn finished_ok(step: Step) -> JobResult {
    match step {
        Step::Finish(Ok(r)) => r,
        other => panic!("expected a result, got {:?}", other),
    }
}

#[test]
fn first_stage_per_task() {
    assert_eq!(first_stage(TaskType::Execute), Stage::Compile);
    assert_eq!(first_stage(TaskType::Lint), Stage::Lint);
    assert_eq!(first_stage(TaskType::Tast), Stage::TypeTree);
    assert_eq!(first_stage(TaskType::Llvm), Stage::IrEmit);
}

#[test]
fn timeouts_per_stage() {
    assert_eq!(stage_timeout_secs(Stage::Run), 30);
    for s in [Stage::Lint, Stage::TypeTree, Stage::IrEmit, Stage::Compile, Stage::Link] {
        assert_eq!(stage_timeout_secs(s), 10);
    }
}

#[test]
fn exit_code_without_code_is_minus_one() {
    assert_eq!(exit_code_of(None), -1);
    assert_eq!(exit_code_of(Some(3)), 3);
}

#[test]
fn compile_failure_keeps_compiler_code_and_empty_stdout() {
    let r = finished_ok(next_step(Stage::Compile, exited("noise", "error: bad", Some(2))));
    assert_eq!(r.stdout, "");
    assert_eq!(r.stderr, "error: bad");
    assert_eq!(r.exit_code, 2);
}

#[test]
fn compile_success_goes_to_link_then_run() {
    assert!(matches!(next_step(Stage::Compile, exited("", "", Some(0))), Step::Run(Stage::Link)));
    assert!(matches!(next_step(Stage::Link, exited("", "", Some(0))), Step::Run(Stage::Run)));
}

#[test]
fn link_failure_stops() {
    let r = finished_ok(next_step(Stage::Link, exited("x", "undefined symbol", Some(1))));
    assert_eq!(r.stdout, "");
    assert_eq!(r.stderr, "undefined symbol");
    assert_eq!(r.exit_code, 1);
}

#[test]
fn run_output_is_the_result() {
    let r = finished_ok(next_step(Stage::Run, exited("hello\n", "warn", Some(7))));
    assert_eq!(r.stdout, "hello\n");
    assert_eq!(r.stderr, "warn");
    assert_eq!(r.exit_code, 7);
    let killed = finished_ok(next_step(Stage::Run, exited("", "", None)));
    assert_eq!(killed.exit_code, -1);
}

#[test]
fn run_timeout_gives_minus_one_and_message() {
    let r = finished_ok(next_step(Stage::Run, StageOutcome::TimedOut));
    assert_eq!(r.exit_code, -1);
    assert_eq!(r.stdout, "");
    assert!(r.stderr.contains("timed out"));
    assert_eq!(r.stderr, "Execution timed out after 30 seconds");
}

#[test]
fn timeout_messages_name_the_stage() {
    assert_eq!(timeout_message(Stage::Lint), "Linting timed out after 10 seconds");
    assert_eq!(timeout_message(Stage::TypeTree), "TAST generation timed out after 10 seconds");
    assert_eq!(timeout_message(Stage::IrEmit), "LLVM IR generation timed out after 10 seconds");
    assert_eq!(timeout_message(Stage::Compile), "Compilation timed out after 10 seconds");
    assert_eq!(timeout_message(Stage::Link), "Linking timed out after 10 seconds");
}

#[test]
fn spawn_failure_is_a_service_failure() {
    match next_step(Stage::Lint, StageOutcome::SpawnFailed { detail: "not found".to_string() }) {
        Step::Finish(Err(m)) => assert_eq!(m, "Failed to spawn linting process: not found"),
        other => panic!("unexpected {:?}", other),
    }
    assert_eq!(
        spawn_failure_message(Stage::Run, "denied"),
        "Failed to spawn execution process: denied"
    );
}

#[test]
fn analysis_tasks_stop_after_one_stage() {
    for task in [TaskType::Lint, TaskType::Tast, TaskType::Llvm] {
        let stage = first_stage(task);
        assert!(matches!(next_step(stage, exited("out", "", Some(0))), Step::Finish(Ok(_))));
        assert!(matches!(next_step(stage, exited("", "e", Some(1))), Step::Finish(Ok(_))));
        let r = finished_ok(next_step(stage, exited("tree", "", Some(0))));
        assert_eq!(r.stdout, "tree");
        let cmd = stage_command(stage, &WorkPaths::for_job(1), "/abs");
        assert_eq!(cmd[0], "prlimit");
        assert!(!cmd.iter().any(|a| a == "clang" || a == "nsjail"));
    }
}

#[test]
fn work_paths_use_hyphenated_id() {
    let p = WorkPaths::for_job(0x67e5504410b1426f9247bb680e5fe0c8);
    assert_eq!(p.dir, "./work/67e55044-10b1-426f-9247-bb680e5fe0c8");
    assert_eq!(p.source, "./work/67e55044-10b1-426f-9247-bb680e5fe0c8/main.zr");
    assert_eq!(p.object, "./work/67e55044-10b1-426f-9247-bb680e5fe0c8/main.o");
    assert_eq!(p.executable, "./work/67e55044-10b1-426f-9247-bb680e5fe0c8/main");
}

#[test]
fn command_lines() {
    let p = WorkPaths::for_job(5);
    let lint = stage_command(Stage::Lint, &p, "/abs");
    assert_eq!(lint[5], "./zrc-nightly/bin/zircop");
    assert_eq!(lint.last().unwrap(), &p.source);
    let tast = stage_command(Stage::TypeTree, &p, "/abs");
    assert!(tast.windows(2).any(|w| w[0] == "--emit" && w[1] == "tast"));
    let llvm = stage_command(Stage::IrEmit, &p, "/abs");
    assert!(llvm.windows(2).any(|w| w[0] == "--emit" && w[1] == "llvm"));
    let compile = stage_command(Stage::Compile, &p, "/abs");
    assert!(compile.windows(2).any(|w| w[0] == "--emit" && w[1] == "object"));
    assert_eq!(compile[compile.len() - 3], p.object);
    let link = stage_command(Stage::Link, &p, "/abs");
    assert_eq!(link[5], "clang");
    assert_eq!(link[6], p.object);
    assert_eq!(link[8], p.executable);
    let run = stage_command(Stage::Run, &p, "/srv/work/x");
    assert_eq!(run.len(), 20);
    assert_eq!(run[0], "nsjail");
    assert_eq!(run[3], "/srv/work/x:/work");
    assert_eq!(run[19], "/work/main");
    assert!(discards_stdout(Stage::Compile) && discards_stdout(Stage::Link));
    assert!(!discards_stdout(Stage::Run) && !discards_stdout(Stage::Lint));
}

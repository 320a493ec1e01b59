use vstd::prelude::*;
use vstd::arithmetic::power2::pow2;
use crate::models::{TaskType, JobResult, NO_EXIT, exit_code_of, recorded_exit_code};

verus! {

/// One external process of the pipeline.
#[derive(Debug, Clone, Copy, PartialEq, Eq, Structural)]
pub enum Stage {
    /// The lint tool on the source file.
    Lint,
    /// The compiler, emitting its typed syntax tree.
    TypeTree,
    /// The compiler, emitting intermediate representation.
    IrEmit,
    /// The compiler, emitting an object file.
    Compile,
    /// The linker, turning the object file into an executable.
    Link,
    /// The executable, inside the sandbox.
    Run,
}

/// How one stage's process ended, as observed by whoever ran it.
#[derive(Debug)]
pub enum StageOutcome {
    /// The process exited (or was ended by a signal, `code == None`).
    Exited { stdout: String, stderr: String, code: Option<i32> },
    /// The process could not be started.
    SpawnFailed { detail: String },
    /// The wall-clock limit passed and the process was killed.
    TimedOut,
}

/// What the pipeline does next: run another stage, or stop with a result or
/// with a failure of the service itself. The work directory is removed
/// whenever the pipeline stops.
#[derive(Debug)]
pub enum Step {
    Run(Stage),
    Finish(Result<JobResult, String>),
}

/// Wall-clock limit of a tool stage, in seconds.
pub const TOOL_TIMEOUT_SECS: u64 = 10;

/// Wall-clock limit of the sandboxed run, in seconds.
pub const RUN_TIMEOUT_SECS: u64 = 30;

pub open spec fn first_stage_of(task: TaskType) -> Stage {
    match task {
        TaskType::Execute => Stage::Compile,
        TaskType::Lint => Stage::Lint,
        TaskType::Tast => Stage::TypeTree,
        TaskType::Llvm => Stage::IrEmit,
    }
}

/// The stage that follows `stage` after `outcome`, if the pipeline goes on:
/// only a compile or a link that exited with code zero does.
pub open spec fn following_stage(stage: Stage, outcome: StageOutcome) -> Option<Stage> {
    match outcome {
        StageOutcome::Exited { code, .. } => {
            if code == Some(0i32) {
                match stage {
                    Stage::Compile => Some(Stage::Link),
                    Stage::Link => Some(Stage::Run),
                    _ => None,
                }
            } else {
                None
            }
        },
        _ => None,
    }
}

/// A stage whose output is the job's result as it stands.
pub open spec fn is_final_stage(stage: Stage) -> bool {
    stage == Stage::Lint || stage == Stage::TypeTree || stage == Stage::IrEmit || stage == Stage::Run
}

pub open spec fn timeout_secs_of(stage: Stage) -> u64 {
    if stage == Stage::Run {
        RUN_TIMEOUT_SECS
    } else {
        TOOL_TIMEOUT_SECS
    }
}

pub open spec fn timeout_text(stage: Stage) -> Seq<char> {
    match stage {
        Stage::Lint => "Linting timed out after 10 seconds"@,
        Stage::TypeTree => "TAST generation timed out after 10 seconds"@,
        Stage::IrEmit => "LLVM IR generation timed out after 10 seconds"@,
        Stage::Compile => "Compilation timed out after 10 seconds"@,
        Stage::Link => "Linking timed out after 10 seconds"@,
        Stage::Run => "Execution timed out after 30 seconds"@,
    }
}

pub open spec fn spawn_failure_prefix(stage: Stage) -> Seq<char> {
    match stage {
        Stage::Lint => "Failed to spawn linting process: "@,
        Stage::TypeTree => "Failed to spawn TAST generation process: "@,
        Stage::IrEmit => "Failed to spawn LLVM IR generation process: "@,
        Stage::Compile => "Failed to spawn compilation process: "@,
        Stage::Link => "Failed to spawn linking process: "@,
        Stage::Run => "Failed to spawn execution process: "@,
    }
}

/// The stage a job of kind `task` starts with.
pub fn first_stage(task: TaskType) -> (r: Stage)
    ensures
        r == first_stage_of(task),
{
    match task {
        TaskType::Execute => Stage::Compile,
        TaskType::Lint => Stage::Lint,
        TaskType::Tast => Stage::TypeTree,
        TaskType::Llvm => Stage::IrEmit,
    }
}

/// The wall-clock limit of a stage, in seconds.
pub fn stage_timeout_secs(stage: Stage) -> (r: u64)
    ensures
        r == timeout_secs_of(stage),
{
    if let Stage::Run = stage {
        RUN_TIMEOUT_SECS
    } else {
        TOOL_TIMEOUT_SECS
    }
}

fn text(s: &str) -> (r: String)
    ensures
        r@ == s@,
{
    String::from_str(s)
}

/// The message recorded when a stage runs past its wall-clock limit.
pub fn timeout_message(stage: Stage) -> (r: String)
    ensures
        r@ == timeout_text(stage),
{
    match stage {
        Stage::Lint => text("Linting timed out after 10 seconds"),
        Stage::TypeTree => text("TAST generation timed out after 10 seconds"),
        Stage::IrEmit => text("LLVM IR generation timed out after 10 seconds"),
        Stage::Compile => text("Compilation timed out after 10 seconds"),
        Stage::Link => text("Linking timed out after 10 seconds"),
        Stage::Run => text("Execution timed out after 30 seconds"),
    }
}

/// The failure reported when a stage's process cannot be started.
pub fn spawn_failure_message(stage: Stage, detail: &str) -> (r: String)
    ensures
        r@ == spawn_failure_prefix(stage) + detail@,
{
    let prefix = match stage {
        Stage::Lint => text("Failed to spawn linting process: "),
        Stage::TypeTree => text("Failed to spawn TAST generation process: "),
        Stage::IrEmit => text("Failed to spawn LLVM IR generation process: "),
        Stage::Compile => text("Failed to spawn compilation process: "),
        Stage::Link => text("Failed to spawn linking process: "),
        Stage::Run => text("Failed to spawn execution process: "),
    };
    prefix.concat(detail)
}

/// Decides what follows once `stage` has ended with `outcome`.
pub fn next_step(stage: Stage, outcome: StageOutcome) -> (r: Step)
    ensures
        following_stage(stage, outcome) is Some <==> r is Run,
        r matches Step::Run(s) ==> following_stage(stage, outcome) == Some(s),
        outcome is TimedOut ==> (r matches Step::Finish(Ok(res)) && res.stdout@.len() == 0
            && res.stderr@ == timeout_text(stage) && res.exit_code == NO_EXIT),
        outcome matches StageOutcome::SpawnFailed { detail } ==> (r matches Step::Finish(Err(m))
            && m@ == spawn_failure_prefix(stage) + detail@),
        outcome matches StageOutcome::Exited { stdout, stderr, code } ==> {
            if is_final_stage(stage) {
                r matches Step::Finish(Ok(res)) && res.stdout@ == stdout@ && res.stderr@ == stderr@
                    && res.exit_code == recorded_exit_code(code)
            } else if code != Some(0i32) {
                r matches Step::Finish(Ok(res)) && res.stdout@.len() == 0 && res.stderr@ == stderr@
                    && res.exit_code == recorded_exit_code(code)
            } else {
                true
            }
        },
{
    match outcome {
        StageOutcome::TimedOut => Step::Finish(Ok(JobResult::failure(timeout_message(stage)))),
        StageOutcome::SpawnFailed { detail } => Step::Finish(
            Err(spawn_failure_message(stage, detail.as_str())),
        ),
        StageOutcome::Exited { stdout, stderr, code } => {
            let succeeded = match code {
                Some(c) => c == 0,
                None => false,
            };
            match stage {
                Stage::Compile => {
                    if succeeded {
                        Step::Run(Stage::Link)
                    } else {
                        Step::Finish(Ok(JobResult::new(String::new(), stderr, exit_code_of(code))))
                    }
                },
                Stage::Link => {
                    if succeeded {
                        Step::Run(Stage::Run)
                    } else {
                        Step::Finish(Ok(JobResult::new(String::new(), stderr, exit_code_of(code))))
                    }
                },
                _ => Step::Finish(Ok(JobResult::new(stdout, stderr, exit_code_of(code)))),
            }
        },
    }
}

/// Nibble `k` of `id`, counted from the most significant (`0 <= k < 32`).
pub open spec fn nibble_of(id: u128, k: int) -> int {
    (id as int / pow2((4 * (31 - k)) as nat) as int) % 16
}

/// The hex digit that stands at text position `i` of the hyphenated form.
pub open spec fn digit_index(i: int) -> int {
    if i > 23 {
        i - 4
    } else if i > 18 {
        i - 3
    } else if i > 13 {
        i - 2
    } else if i > 8 {
        i - 1
    } else {
        i
    }
}

/// The text form of a job identifier: the UUID's 32 lowercase hex digits,
/// most significant first, with hyphens after the 8th, 12th, 16th and 20th.
pub open spec fn hyphenated_id(id: u128) -> Seq<char> {
    Seq::new(
        36,
        |i: int|
            if i == 8 || i == 13 || i == 18 || i == 23 {
                '-'
            } else {
                "0123456789abcdef"@[nibble_of(id, digit_index(i))]
            },
    )
}

/// Relies on `uuid::Uuid::from_u128` (the value's big-endian bytes) and the
/// `Display` of `Uuid`, which writes their lowercase hyphenated form.
#[verifier::external_body]
fn job_id_text(id: u128) -> (r: String)
    ensures
        r@ == hyphenated_id(id),
{
    uuid::Uuid::from_u128(id).to_string()
}

/// The scratch files of one job, all inside its own directory.
#[derive(Debug)]
pub struct WorkPaths {
    pub dir: String,
    pub source: String,
    pub object: String,
    pub executable: String,
}

pub open spec fn work_dir_of(id: u128) -> Seq<char> {
    "./work/"@ + hyphenated_id(id)
}

impl WorkPaths {
    /// The paths under `./work/<id>/`: the source `main.zr`, the object
    /// `main.o` and the executable `main`.
    pub fn for_job(id: u128) -> (r: WorkPaths)
        ensures
            r.dir@ == work_dir_of(id),
            r.source@ == work_dir_of(id) + "/main.zr"@,
            r.object@ == work_dir_of(id) + "/main.o"@,
            r.executable@ == work_dir_of(id) + "/main"@,
    {
        let dir = text("./work/").concat(job_id_text(id).as_str());
        let source = dir.clone().concat("/main.zr");
        let object = dir.clone().concat("/main.o");
        let executable = dir.clone().concat("/main");
        WorkPaths { dir, source, object, executable }
    }
}

/// The program that a stage starts: every tool goes through the resource
/// limiter, and only the run goes through the sandbox.
pub open spec fn program_of(stage: Stage) -> Seq<char> {
    if stage == Stage::Run {
        "nsjail"@
    } else {
        "prlimit"@
    }
}

/// The program that a stage's wrapper finally starts.
pub open spec fn tool_of(stage: Stage) -> Seq<char> {
    match stage {
        Stage::Lint => "./zrc-nightly/bin/zircop"@,
        Stage::Link => "clang"@,
        Stage::Run => "/work/main"@,
        _ => "./zrc-nightly/bin/zrc"@,
    }
}

/// Where the tool stands in the command line.
pub open spec fn tool_position(stage: Stage) -> int {
    if stage == Stage::Run {
        19
    } else {
        5
    }
}

/// The stages whose standard output is discarded, as only their exit matters.
pub fn discards_stdout(stage: Stage) -> (r: bool)
    ensures
        r <==> (stage == Stage::Compile || stage == Stage::Link),
{
    match stage {
        Stage::Compile => true,
        Stage::Link => true,
        _ => false,
    }
}

fn limited(tool: &str) -> (r: Vec<String>)
    ensures
        r@.len() == 6,
        r@[0]@ == "prlimit"@,
        r@[4]@ == "--"@,
        r@[5]@ == tool@,
{
    vec![
        text("prlimit"),
        text("--as=536870912"),
        text("--cpu=10"),
        text("--fsize=104857600"),
        text("--"),
        text(tool),
    ]
}

fn push_text(v: &mut Vec<String>, s: &str)
    ensures
        final(v)@.len() == old(v)@.len() + 1,
        forall|i: int| 0 <= i < old(v)@.len() ==> final(v)@[i] == old(v)@[i],
        final(v)@[old(v)@.len() as int]@ == s@,
{
    v.push(text(s));
}

/// The command line of a stage (program first) for the job whose files are
/// `paths`; `mount_dir` is the absolute form of the job's directory, which
/// the sandbox binds at `/work`.
pub fn stage_command(stage: Stage, paths: &WorkPaths, mount_dir: &str) -> (r: Vec<String>)
    ensures
        r@.len() > tool_position(stage),
        r@[0]@ == program_of(stage),
        r@[tool_position(stage) - 1]@ == "--"@,
        r@[tool_position(stage)]@ == tool_of(stage),
        stage != Stage::Link && stage != Stage::Run ==> r@.last()@ == paths.source@,
        stage == Stage::Compile ==> r@[r@.len() - 3]@ == paths.object@,
        stage == Stage::Link ==> r@[6]@ == paths.object@ && r@[8]@ == paths.executable@,
        stage == Stage::Run ==> r@.len() == 20 && r@[3]@ == mount_dir@ + ":/work"@,
{
    match stage {
        Stage::Run => {
            let mount = text(mount_dir).concat(":/work");
            vec![
                text("nsjail"),
                text("--quiet"),
                text("--bindmount"),
                mount,
                text("--time_limit"),
                text("30"),
                text("--rlimit_as"),
                text("536870912"),
                text("--rlimit_cpu"),
                text("30"),
                text("--rlimit_nofile"),
                text("20"),
                text("--seccomp_policy"),
                text("./seccomp.policy"),
                text("--user"),
                text("9999"),
                text("--group"),
                text("9999"),
                text("--"),
                text("/work/main"),
            ]
        },
        Stage::Link => {
            let mut v = limited("clang");
            push_text(&mut v, paths.object.as_str());
            push_text(&mut v, "-o");
            push_text(&mut v, paths.executable.as_str());
            push_text(&mut v, "./zrc-nightly/libzr/lib/libzr.a");
            push_text(&mut v, "-lc");
            push_text(&mut v, "-static");
            v
        },
        _ => {
            let tool = if let Stage::Lint = stage {
                "./zrc-nightly/bin/zircop"
            } else {
                "./zrc-nightly/bin/zrc"
            };
            let mut v = limited(tool);
            push_text(&mut v, "-I");
            push_text(&mut v, "./zrc-nightly/include");
            push_text(&mut v, "-I");
            push_text(&mut v, "./zrc-nightly/libzr/include");
            match stage {
                Stage::TypeTree => {
                    push_text(&mut v, "--emit");
                    push_text(&mut v, "tast");
                },
                Stage::IrEmit => {
                    push_text(&mut v, "--emit");
                    push_text(&mut v, "llvm");
                },
                Stage::Compile => {
                    push_text(&mut v, "--emit");
                    push_text(&mut v, "object");
                    push_text(&mut v, "-o");
                    push_text(&mut v, paths.object.as_str());
                },
                _ => {},
            }
            push_text(&mut v, "--forbid-unlisted-includes");
            push_text(&mut v, paths.source.as_str());
            v
        },
    }
}

/// Stages that a job of kind `task` can reach: its first stage, and every
/// stage that follows a reachable one after some outcome.
pub open spec fn reachable(task: TaskType, stage: Stage) -> bool {
    stage == first_stage_of(task) || (task == TaskType::Execute
        && (stage == Stage::Link || stage == Stage::Run))
}

/// A job that does not ask for execution stops after its first stage,
/// whatever that stage's outcome: it never reaches the linker nor the
/// sandbox, and none of its stages starts the sandbox or the linker.
pub proof fn lemma_analysis_never_runs(task: TaskType, outcome: StageOutcome, stage: Stage)
    requires
        task != TaskType::Execute,
    ensures
        following_stage(first_stage_of(task), outcome) is None,
        reachable(task, stage) ==> stage != Stage::Link && stage != Stage::Run,
        reachable(task, stage) ==> program_of(stage) == "prlimit"@ && tool_of(stage) != "clang"@,
{
    if reachable(task, stage) {
        assert(tool_of(stage) != "clang"@) by {
            reveal_strlit("clang");
            reveal_strlit("./zrc-nightly/bin/zircop");
            reveal_strlit("./zrc-nightly/bin/zrc");
            assert("clang"@.len() != "./zrc-nightly/bin/zrc"@.len());
            assert("clang"@.len() != "./zrc-nightly/bin/zircop"@.len());
        }
    }
}

/// Every stage that `next_step` can lead to from a reachable stage is reachable.
pub proof fn lemma_reachable_closed(task: TaskType, stage: Stage, outcome: StageOutcome)
    requires
        reachable(task, stage),
    ensures
        following_stage(stage, outcome) matches Some(s) ==> reachable(task, s),
{
}

} // verus!

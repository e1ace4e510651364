use vstd::prelude::*;

use crate::boards::Board;
use crate::env_config::EnvConfig;
use crate::patches::{status_step, DateTime, PatchMeta, PatchStatus};
use crate::text::{replace_char, replace_char_in};

verus! {

/// Why the pipeline stopped before the end.
#[derive(Debug)]
pub enum CompilationError {
    /// The code generator exited with a failure; what it printed is kept.
    Pd2dsyFailed { stdout: String },
    MakeFailed,
    MoveFailed,
    RemoveFailed,
    /// A tool could not be started or waited for.
    UnknownIOError(String),
}

impl CompilationError {
    /// The short human-readable summary of the error.
    pub open spec fn summary_spec(self) -> Seq<char> {
        match self {
            CompilationError::Pd2dsyFailed { .. } => "pd2dsy failed"@,
            CompilationError::MakeFailed => "make command failed"@,
            CompilationError::MoveFailed => "move command failed"@,
            CompilationError::RemoveFailed => "rm command failed"@,
            CompilationError::UnknownIOError(_) => "I/O error occurred"@,
        }
    }

    pub fn summary(&self) -> (r: String)
        ensures
            r@ == self.summary_spec(),
    {
        match self {
            CompilationError::Pd2dsyFailed { .. } => "pd2dsy failed".to_string(),
            CompilationError::MakeFailed => "make command failed".to_string(),
            CompilationError::MoveFailed => "move command failed".to_string(),
            CompilationError::RemoveFailed => "rm command failed".to_string(),
            CompilationError::UnknownIOError(_) => "I/O error occurred".to_string(),
        }
    }
}

pub open spec fn is_ascii_digit(c: char) -> bool {
    '0' <= c <= '9'
}

/// How many ASCII digits `s` starts with.
pub open spec fn digit_run(s: Seq<char>) -> nat
    decreases s.len(),
{
    if s.len() > 0 && is_ascii_digit(s[0]) {
        1 + digit_run(s.drop_first())
    } else {
        0
    }
}

/// The length of the terminal color sequence that starts `s` (`ESC [`, digits,
/// optionally `;` and more digits, then `m`); 0 when `s` starts with none.
pub open spec fn escape_at_start(s: Seq<char>) -> nat {
    if s.len() >= 2 && s[0] == '\x1b' && s[1] == '[' {
        let rest = s.skip(2);
        let d1 = digit_run(rest);
        let after = rest.skip(d1 as int);
        if d1 == 0 || after.len() == 0 {
            0
        } else if after[0] == 'm' {
            3 + d1
        } else if after[0] == ';' {
            let tail = after.drop_first();
            let d2 = digit_run(tail);
            if d2 > 0 && d2 < tail.len() && tail[d2 as int] == 'm' {
                4 + d1 + d2
            } else {
                0
            }
        } else {
            0
        }
    } else {
        0
    }
}

/// `s` without its terminal color sequences, read from the left.
pub open spec fn strip_escape_sequences(s: Seq<char>) -> Seq<char>
    decreases s.len(),
{
    if s.len() == 0 {
        s
    } else if 0 < escape_at_start(s) <= s.len() {
        strip_escape_sequences(s.skip(escape_at_start(s) as int))
    } else {
        seq![s[0]] + strip_escape_sequences(s.drop_first())
    }
}

/// Relies on `regex::Regex::new` and `Regex::replace_all` with an empty
/// replacement, which removes every match, leftmost first and without overlap.
/// For the color-sequence pattern that the caller passes, a match at a
/// position is exactly the sequence that `escape_at_start` measures there.
#[verifier::external_body]
fn regex_remove_all(pattern: &str, text: &str) -> (r: String)
    requires
        pattern@ == r"\x1b\[([0-9]+;)?[0-9]+m"@,
    ensures
        r@ == strip_escape_sequences(text@),
{
    regex::Regex::new(pattern).unwrap().replace_all(text, "").to_string()
}

/// Removes the terminal color sequences from captured tool output.
pub fn remove_escape_sequences(terminal_output: &str) -> (r: String)
    ensures
        r@ == strip_escape_sequences(terminal_output@),
{
    regex_remove_all(r"\x1b\[([0-9]+;)?[0-9]+m", terminal_output)
}

/// The stages of the pipeline, in the order they run.
#[derive(Clone, Copy, Debug, PartialEq, Eq, Structural)]
pub enum Stage {
    Generate,
    Build,
    Relocate,
    Cleanup,
}

/// The stage that runs after `stage` succeeds; `None` after the last.
pub open spec fn next_stage(stage: Stage) -> Option<Stage> {
    match stage {
        Stage::Generate => Some(Stage::Build),
        Stage::Build => Some(Stage::Relocate),
        Stage::Relocate => Some(Stage::Cleanup),
        Stage::Cleanup => None,
    }
}

pub fn following_stage(stage: Stage) -> (r: Option<Stage>)
    ensures
        r == next_stage(stage),
{
    match stage {
        Stage::Generate => Some(Stage::Build),
        Stage::Build => Some(Stage::Relocate),
        Stage::Relocate => Some(Stage::Cleanup),
        Stage::Cleanup => None,
    }
}

/// What becomes of a tool's standard output and error.
#[derive(Clone, Copy, Debug, PartialEq, Eq, Structural)]
pub enum OutputMode {
    /// Collected and handed back with the outcome.
    Capture,
    /// Thrown away.
    Discard,
    /// Passed through to the service's own output.
    Inherit,
}

/// One argument of a tool: plain text, or a path given as the directory
/// names to join one after the other.
#[derive(Debug)]
pub enum CommandArg {
    Text(String),
    Path(Vec<String>),
}

/// A tool invocation: program, arguments, working directory (inherited when
/// `None`), and what to do with its output.
#[derive(Debug)]
pub struct StageCommand {
    pub program: String,
    pub args: Vec<CommandArg>,
    pub current_dir: Option<Vec<String>>,
    pub output: OutputMode,
}

/// What a `CommandArg` stands for: text, or a path as its list of components.
pub enum ArgModel {
    Text(Seq<char>),
    Path(Seq<Seq<char>>),
}

/// What a `StageCommand` stands for.
pub struct CommandModel {
    pub program: Seq<char>,
    pub args: Seq<ArgModel>,
    pub current_dir: Option<Seq<Seq<char>>>,
    pub output: OutputMode,
}

/// The path components that `v` holds.
pub open spec fn segments(v: Seq<String>) -> Seq<Seq<char>> {
    v.map_values(|s: String| s@)
}

impl View for CommandArg {
    type V = ArgModel;

    open spec fn view(&self) -> ArgModel {
        match self {
            CommandArg::Text(s) => ArgModel::Text(s@),
            CommandArg::Path(p) => ArgModel::Path(segments(p@)),
        }
    }
}

impl View for StageCommand {
    type V = CommandModel;

    open spec fn view(&self) -> CommandModel {
        CommandModel {
            program: self.program@,
            args: self.args@.map_values(|a: CommandArg| a@),
            current_dir: match self.current_dir {
                Some(d) => Some(segments(d@)),
                None => None,
            },
            output: self.output,
        }
    }
}

/// The job's own build directory, under the generator's root.
pub open spec fn build_dir_spec(patch_id: Seq<char>, env: EnvConfig) -> Seq<Seq<char>> {
    seq![env.dir_pd2dsy@, "builds"@, patch_id]
}

/// The uploaded patch of the job.
pub open spec fn upload_path_spec(patch_id: Seq<char>, env: EnvConfig) -> Seq<Seq<char>> {
    seq![env.dir_workspace@, "uploads"@, patch_id + ".pd"@]
}

/// The binary that the build leaves in the job's build directory.
pub open spec fn built_binary_spec(patch_id: Seq<char>, env: EnvConfig) -> Seq<Seq<char>> {
    build_dir_spec(patch_id, env) + seq![
        "build"@,
        "HeavyDaisy_"@ + replace_char(patch_id, '-', '_') + ".bin"@,
    ]
}

/// Where the job's binary is offered for download.
pub open spec fn download_path_spec(patch_id: Seq<char>, env: EnvConfig) -> Seq<Seq<char>> {
    seq![env.dir_workspace@, "downloads"@, "daisy-"@ + patch_id + ".bin"@]
}

/// The output of the build tools goes through only when the configuration asks
/// for it.
pub open spec fn tool_output(env: EnvConfig) -> OutputMode {
    if env.display_compilation_output {
        OutputMode::Inherit
    } else {
        OutputMode::Discard
    }
}

/// The tool invocation of each stage for a job.
pub open spec fn stage_command_spec(
    stage: Stage,
    patch_id: Seq<char>,
    board: Board,
    env: EnvConfig,
) -> CommandModel {
    match stage {
        Stage::Generate => CommandModel {
            program: "python3"@,
            args: seq![
                ArgModel::Path(seq![env.dir_pd2dsy@, "pd2dsy.py"@]),
                ArgModel::Text("--board"@),
                ArgModel::Text(board.name()),
                ArgModel::Text("--directory"@),
                ArgModel::Text("builds"@),
                ArgModel::Text("--libdaisy-depth"@),
                ArgModel::Text("2"@),
                ArgModel::Text("--no-build"@),
                ArgModel::Path(upload_path_spec(patch_id, env)),
            ],
            current_dir: Some(seq![env.dir_pd2dsy@]),
            output: OutputMode::Capture,
        },
        Stage::Build => CommandModel {
            program: "make"@,
            args: seq![],
            current_dir: Some(build_dir_spec(patch_id, env)),
            output: tool_output(env),
        },
        Stage::Relocate => CommandModel {
            program: "mv"@,
            args: seq![
                ArgModel::Path(built_binary_spec(patch_id, env)),
                ArgModel::Path(download_path_spec(patch_id, env)),
            ],
            current_dir: None,
            output: tool_output(env),
        },
        Stage::Cleanup => CommandModel {
            program: "rm"@,
            args: seq![ArgModel::Text("-rf"@), ArgModel::Path(build_dir_spec(patch_id, env))],
            current_dir: None,
            output: tool_output(env),
        },
    }
}

fn quiet_or_inherit(env_config: &EnvConfig) -> (r: OutputMode)
    ensures
        r == tool_output(*env_config),
{
    if env_config.display_compilation_output {
        OutputMode::Inherit
    } else {
        OutputMode::Discard
    }
}

/// The job's own build directory.
pub fn get_dir_patch_build(patch_id: &str, env_config: &EnvConfig) -> (r: Vec<String>)
    ensures
        segments(r@) == build_dir_spec(patch_id@, *env_config),
{
    let mut dir: Vec<String> = Vec::new();
    dir.push(env_config.dir_pd2dsy.clone());
    dir.push("builds".to_string());
    dir.push(patch_id.to_string());
    assert(segments(dir@) =~= build_dir_spec(patch_id@, *env_config));
    dir
}

/// The code generator run: it turns the uploaded patch into C++ for the board.
pub fn generate_cpp_code(patch_id: &str, board: Board, env_config: &EnvConfig) -> (r:
    StageCommand)
    ensures
        r@ == stage_command_spec(Stage::Generate, patch_id@, board, *env_config),
{
    let mut script: Vec<String> = Vec::new();
    script.push(env_config.dir_pd2dsy.clone());
    script.push("pd2dsy.py".to_string());
    let mut patch_file: Vec<String> = Vec::new();
    patch_file.push(env_config.dir_workspace.clone());
    patch_file.push("uploads".to_string());
    patch_file.push(patch_id.to_string().concat(".pd"));
    let mut root: Vec<String> = Vec::new();
    root.push(env_config.dir_pd2dsy.clone());
    let mut args: Vec<CommandArg> = Vec::new();
    args.push(CommandArg::Path(script));
    args.push(CommandArg::Text("--board".to_string()));
    args.push(CommandArg::Text(board.to_str()));
    args.push(CommandArg::Text("--directory".to_string()));
    args.push(CommandArg::Text("builds".to_string()));
    args.push(CommandArg::Text("--libdaisy-depth".to_string()));
    args.push(CommandArg::Text("2".to_string()));
    args.push(CommandArg::Text("--no-build".to_string()));
    args.push(CommandArg::Path(patch_file));
    let r = StageCommand {
        program: "python3".to_string(),
        args,
        current_dir: Some(root),
        output: OutputMode::Capture,
    };
    proof {
        let m = stage_command_spec(Stage::Generate, patch_id@, board, *env_config);
        assert(segments(root@) =~= seq![env_config.dir_pd2dsy@]);
        assert(segments(script@) =~= seq![env_config.dir_pd2dsy@, "pd2dsy.py"@]);
        assert(segments(patch_file@) =~= upload_path_spec(patch_id@, *env_config));
        assert(r@.args =~= m.args);
    }
    r
}

/// The build run, inside the job's build directory.
pub fn compile_binary(patch_id: &str, env_config: &EnvConfig) -> (r: StageCommand)
    ensures
        r@ == stage_command_spec(Stage::Build, patch_id@, Board::Pod, *env_config),
{
    let r = StageCommand {
        program: "make".to_string(),
        args: Vec::new(),
        current_dir: Some(get_dir_patch_build(patch_id, env_config)),
        output: quiet_or_inherit(env_config),
    };
    assert(r@.args =~= seq![]);
    r
}

/// The move of the built binary to its download place.
pub fn move_binary_into_workspace(patch_id: &str, env_config: &EnvConfig) -> (r: StageCommand)
    ensures
        r@ == stage_command_spec(Stage::Relocate, patch_id@, Board::Pod, *env_config),
{
    let mut binary = get_dir_patch_build(patch_id, env_config);
    binary.push("build".to_string());
    let id_underscored = replace_char_in(patch_id, '-', '_');
    binary.push("HeavyDaisy_".to_string().concat(id_underscored.as_str()).concat(".bin"));
    let mut download: Vec<String> = Vec::new();
    download.push(env_config.dir_workspace.clone());
    download.push("downloads".to_string());
    download.push("daisy-".to_string().concat(patch_id).concat(".bin"));
    let mut args: Vec<CommandArg> = Vec::new();
    args.push(CommandArg::Path(binary));
    args.push(CommandArg::Path(download));
    let r = StageCommand {
        program: "mv".to_string(),
        args,
        current_dir: None,
        output: quiet_or_inherit(env_config),
    };
    proof {
        let m = stage_command_spec(Stage::Relocate, patch_id@, Board::Pod, *env_config);
        assert(segments(binary@) =~= built_binary_spec(patch_id@, *env_config));
        assert(segments(download@) =~= download_path_spec(patch_id@, *env_config));
        assert(r@.args =~= m.args);
    }
    r
}

/// The removal of the job's build directory.
pub fn remove_build_dir(patch_id: &str, env_config: &EnvConfig) -> (r: StageCommand)
    ensures
        r@ == stage_command_spec(Stage::Cleanup, patch_id@, Board::Pod, *env_config),
{
    let mut args: Vec<CommandArg> = Vec::new();
    args.push(CommandArg::Text("-rf".to_string()));
    args.push(CommandArg::Path(get_dir_patch_build(patch_id, env_config)));
    let r = StageCommand {
        program: "rm".to_string(),
        args,
        current_dir: None,
        output: quiet_or_inherit(env_config),
    };
    proof {
        let m = stage_command_spec(Stage::Cleanup, patch_id@, Board::Pod, *env_config);
        assert(r@.args =~= m.args);
    }
    r
}

/// The tool invocation of `stage` for a job.
pub fn stage_command(stage: Stage, patch_id: &str, board: Board, env_config: &EnvConfig) -> (r:
    StageCommand)
    ensures
        r@ == stage_command_spec(stage, patch_id@, board, *env_config),
{
    match stage {
        Stage::Generate => generate_cpp_code(patch_id, board, env_config),
        Stage::Build => compile_binary(patch_id, env_config),
        Stage::Relocate => move_binary_into_workspace(patch_id, env_config),
        Stage::Cleanup => remove_build_dir(patch_id, env_config),
    }
}

/// How a stage's tool run ended, as the runner saw it.
#[derive(Debug)]
pub enum StageOutcome {
    /// The tool ran to the end; `stdout` is what it printed, when captured.
    Exited { success: bool, stdout: String },
    /// The tool could not be started or waited for.
    SpawnFailed(String),
}

/// What a stage's outcome means for the job.
pub open spec fn stage_result_spec(stage: Stage, outcome: StageOutcome) -> Result<
    (),
    CompilationError,
> {
    match outcome {
        StageOutcome::SpawnFailed(message) => Err(CompilationError::UnknownIOError(message)),
        StageOutcome::Exited { success, stdout } => {
            if success {
                Ok(())
            } else {
                Err(
                    match stage {
                        Stage::Generate => CompilationError::Pd2dsyFailed { stdout },
                        Stage::Build => CompilationError::MakeFailed,
                        Stage::Relocate => CompilationError::MoveFailed,
                        Stage::Cleanup => CompilationError::RemoveFailed,
                    },
                )
            }
        },
    }
}

/// Reads a stage's outcome: success, or the error of that stage.
pub fn stage_result(stage: Stage, outcome: StageOutcome) -> (r: Result<(), CompilationError>)
    ensures
        r == stage_result_spec(stage, outcome),
{
    match outcome {
        StageOutcome::SpawnFailed(message) => Err(CompilationError::UnknownIOError(message)),
        StageOutcome::Exited { success, stdout } => {
            if success {
                Ok(())
            } else {
                Err(
                    match stage {
                        Stage::Generate => CompilationError::Pd2dsyFailed { stdout },
                        Stage::Build => CompilationError::MakeFailed,
                        Stage::Relocate => CompilationError::MoveFailed,
                        Stage::Cleanup => CompilationError::RemoveFailed,
                    },
                )
            }
        },
    }
}

/// The record of a job that the worker has just picked up at `now`.
pub open spec fn compiling_record(patch: PatchMeta, now: DateTime) -> PatchMeta {
    PatchMeta { status: PatchStatus::Compiling, time_compile_start: Some(now), ..patch }
}

/// `status` is the `Failed` status that `err` leads to: its summary, and for a
/// generator failure the generator's output without color sequences.
pub open spec fn failed_status_for(status: PatchStatus, err: CompilationError) -> bool {
    match status {
        PatchStatus::Failed { summary, details } => {
            &&& summary@ == err.summary_spec()
            &&& match err {
                CompilationError::Pd2dsyFailed { stdout } => details matches Some(d) && d@
                    == strip_escape_sequences(stdout@),
                _ => details is None,
            }
        },
        _ => false,
    }
}

/// `after` is `before` once the pipeline ended with `result` at `now`: the
/// terminal status that `result` leads to and the end time stamped, all else
/// kept.
pub open spec fn finished_record(
    before: PatchMeta,
    after: PatchMeta,
    result: Result<(), CompilationError>,
    now: DateTime,
) -> bool {
    &&& after.id == before.id
    &&& after.board == before.board
    &&& after.filename == before.filename
    &&& after.time_upload == before.time_upload
    &&& after.time_compile_start == before.time_compile_start
    &&& after.time_compile_end == Some(now)
    &&& match result {
        Ok(()) => after.status is Compiled,
        Err(e) => failed_status_for(after.status, e),
    }
}

/// The record moved to `Compiling`, with its start time.
pub fn mark_compiling(patch: &PatchMeta, now: DateTime) -> (r: PatchMeta)
    ensures
        r == compiling_record(*patch, now),
{
    let mut r = patch.duplicate();
    r.status = PatchStatus::Compiling;
    r.time_compile_start = Some(now);
    r
}

/// The record moved to the terminal status that `result` leads to, with its
/// end time.
pub fn mark_finished(patch: &PatchMeta, result: &Result<(), CompilationError>, now: DateTime) -> (r:
    PatchMeta)
    ensures
        finished_record(*patch, r, *result, now),
{
    let mut r = patch.duplicate();
    r.status = match result {
        Ok(()) => PatchStatus::Compiled,
        Err(err) => {
            let details = match err {
                CompilationError::Pd2dsyFailed { stdout } => Some(
                    remove_escape_sequences(stdout.as_str()),
                ),
                _ => None,
            };
            PatchStatus::Failed { summary: err.summary(), details }
        },
    };
    r.time_compile_end = Some(now);
    r
}

/// A job in the worker's hands: its record as last written, and the stage to
/// run next.
#[derive(Debug)]
pub struct CompilationJob {
    pub record: PatchMeta,
    pub stage: Stage,
}

/// What the worker does after a stage: run the next one, or write the final
/// record back.
#[derive(Debug)]
pub enum JobStep {
    Continue(CompilationJob),
    Finished(PatchMeta),
}

impl CompilationJob {
    /// Picks up a record at `now`: the job starts at the generator, and its
    /// record, now `Compiling`, is the one to write back.
    pub fn start(patch: &PatchMeta, now: DateTime) -> (r: CompilationJob)
        ensures
            r.stage == Stage::Generate,
            r.record == compiling_record(*patch, now),
    {
        CompilationJob { record: mark_compiling(patch, now), stage: Stage::Generate }
    }

    /// The tool invocation of the stage to run next.
    pub fn command(&self, env_config: &EnvConfig) -> (r: StageCommand)
        ensures
            r@ == stage_command_spec(self.stage, self.record.id@, self.record.board, *env_config),
    {
        stage_command(self.stage, self.record.id.as_str(), self.record.board, env_config)
    }

    /// Takes in the outcome of the current stage, at time `now`. A success
    /// moves on to the next stage; the end of the pipeline, or any failure,
    /// finishes the job. No stage is retried.
    pub fn advance(self, outcome: StageOutcome, now: DateTime) -> (r: JobStep)
        ensures
            match stage_result_spec(self.stage, outcome) {
                Ok(()) => match next_stage(self.stage) {
                    Some(n) => r matches JobStep::Continue(job) && job.stage == n && job.record
                        == self.record,
                    None => r matches JobStep::Finished(rec) && finished_record(
                        self.record,
                        rec,
                        Ok(()),
                        now,
                    ),
                },
                Err(e) => r matches JobStep::Finished(rec) && finished_record(
                    self.record,
                    rec,
                    Err(e),
                    now,
                ),
            },
    {
        let result = stage_result(self.stage, outcome);
        match result {
            Ok(()) => match following_stage(self.stage) {
                Some(n) => JobStep::Continue(CompilationJob { record: self.record, stage: n }),
                None => JobStep::Finished(mark_finished(&self.record, &result, now)),
            },
            Err(_) => JobStep::Finished(mark_finished(&self.record, &result, now)),
        }
    }
}

/// Every step the status machine allows moves one rank forward and leaves a
/// non-terminal status: statuses are visited in the order `Uploaded`,
/// `Compiling`, then `Compiled` or `Failed`, and none is visited twice.
pub proof fn lemma_status_step_advances(from: PatchStatus, to: PatchStatus)
    requires
        status_step(from, to),
    ensures
        to.rank() == from.rank() + 1,
        !from.is_terminal(),
{
}

/// Over a whole run: any series of records written for one job that starts
/// `Uploaded` and in which each write is a step the status machine allows
/// (as `start` and `advance` make them) has at most three records, with
/// statuses `Uploaded`, `Compiling`, then a terminal one, in that order.
pub proof fn lemma_status_history(history: Seq<PatchStatus>)
    requires
        history.len() > 0,
        history[0] is Uploaded,
        forall|i: int| 0 < i < history.len() ==> status_step(history[i - 1], #[trigger] history[i]),
    ensures
        history.len() <= 3,
        forall|i: int| 0 <= i < history.len() ==> #[trigger] history[i].rank() == i,
        history.len() == 3 ==> history[2].is_terminal(),
{
    assert forall|i: int| 0 <= i < history.len() implies #[trigger] history[i].rank() == i by {
        lemma_history_rank(history, i);
    }
    if history.len() > 3 {
        assert(history[2].rank() == 2);
        assert(status_step(history[2], history[3]));
    }
}

proof fn lemma_history_rank(history: Seq<PatchStatus>, i: int)
    requires
        0 <= i < history.len(),
        history[0] is Uploaded,
        forall|j: int| 0 < j < history.len() ==> status_step(history[j - 1], #[trigger] history[j]),
    ensures
        history[i].rank() == i,
    decreases i,
{
    if i > 0 {
        lemma_history_rank(history, i - 1);
        assert(status_step(history[i - 1], history[i]));
    }
}

/// A job that the worker picks up while `Uploaded` goes to `Compiling`, and
/// from there, whatever the pipeline's result, to a terminal status: each
/// change is a step that the status machine allows.
pub proof fn lemma_job_status_path(
    patch: PatchMeta,
    start: DateTime,
    result: Result<(), CompilationError>,
    after: PatchMeta,
    end: DateTime,
)
    requires
        patch.status is Uploaded,
        finished_record(compiling_record(patch, start), after, result, end),
    ensures
        status_step(patch.status, compiling_record(patch, start).status),
        status_step(compiling_record(patch, start).status, after.status),
        after.status.is_terminal(),
{
}

/// A job that reaches a terminal status has its end time set, and when the
/// clock did not go back between upload, start and end, the end is no earlier
/// than the start, which is no earlier than the upload.
pub proof fn lemma_job_stamps(
    patch: PatchMeta,
    start: DateTime,
    result: Result<(), CompilationError>,
    after: PatchMeta,
    end: DateTime,
)
    requires
        patch.status is Uploaded,
        patch.stamps_match_status(),
        patch.time_upload.instant() <= start.instant(),
        start.instant() <= end.instant(),
        finished_record(compiling_record(patch, start), after, result, end),
    ensures
        compiling_record(patch, start).stamps_match_status(),
        compiling_record(patch, start).stamps_in_order(),
        after.stamps_match_status(),
        after.stamps_in_order(),
        after.time_compile_end is Some,
{
}

} // verus!

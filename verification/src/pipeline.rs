//! The operations of the pipeline, each as a plan: from the configuration
//! and what the caller found on disk to what is to be done.
//!
//! The caller asks `probe_targets` where to look, collects what is on disk
//! in a `DiskFacts`, asks for the plan, carries it out, and hands the exit
//! code to `conclude_step` or `gpu_test_outcome`.

use vstd::prelude::*;
use vstd::string::*;
use crate::config::{common_prelude, missing_setting, CommonConfigData, LauncherConfig};
use crate::layout::{
    active_data_dir, active_data_path, copy_data_dir, data_dir_text, default_source_dir,
    default_source_path, default_source_text, exec_location, executable_path,
    executable_text, get_data_dir, get_exec_location, missing_binary_text, missing_data_text,
    print_path, toolchain_path, MirrorJob,
};
use crate::outcome::{texts, CommandError, InstallStepOutput};
use crate::steps::{
    extract_args, extract_arguments, gpu_test_args, gpu_test_arguments, launch_args,
    launch_arguments, repl_args, repl_arguments, source_or_default, chosen_source, tool_args,
    tool_arguments, tooling_missing, tooling_missing_text, ToolMode,
};
use crate::version::{resolved_version, semver_numbers, tooling_version, without_prefix};

verus! {

/// What the caller found on disk before an operation, at the places that
/// `probe_targets` names.
#[derive(Debug, Clone)]
pub struct DiskFacts {
    /// Whether the platform is Windows: executables carry the `.exe` ending
    /// and paths are printed with a backslash.
    pub windows: bool,
    /// Whether the game's working data directory exists.
    pub data_dir_exists: bool,
    /// Whether the executable that the operation runs exists.
    pub executable_exists: bool,
    /// Whether the source given to extraction is a directory.
    pub source_is_dir: bool,
}

/// The operations of the pipeline.
#[derive(Clone, Copy, Debug, PartialEq, Eq, Structural)]
pub enum Operation {
    Extract,
    Decompile,
    Compile,
    Launch,
    Repl,
    GpuTest,
}

/// The executable that an operation needs: the extractor for the three
/// install steps, the game runtime for launch and GPU probe, the compiler
/// for the interactive session.
pub open spec fn tool_name(operation: Operation) -> Seq<char> {
    match operation {
        Operation::Extract => "extractor"@,
        Operation::Decompile => "extractor"@,
        Operation::Compile => "extractor"@,
        Operation::Launch => "gk"@,
        Operation::Repl => "goalc"@,
        Operation::GpuTest => "gk"@,
    }
}

/// The places that the caller has to look at before an operation.
#[derive(Debug, Clone)]
pub struct ProbeTargets {
    pub data_dir: Vec<String>,
    pub executable: Vec<String>,
    pub default_source: Vec<String>,
}

/// Says where the caller has to look before an operation on a game.
pub fn probe_targets(
    config_info: &CommonConfigData,
    game_name: &str,
    operation: Operation,
    windows: bool,
) -> (r: ProbeTargets)
    ensures
        texts(r.data_dir@) == active_data_path(*config_info, game_name@),
        texts(r.executable@) == executable_path(*config_info, tool_name(operation), windows),
        texts(r.default_source@) == default_source_path(*config_info, game_name@),
{
    let name = match operation {
        Operation::Extract => "extractor",
        Operation::Decompile => "extractor",
        Operation::Compile => "extractor",
        Operation::Launch => "gk",
        Operation::Repl => "goalc",
        Operation::GpuTest => "gk",
    };
    ProbeTargets {
        data_dir: active_data_dir(config_info, game_name),
        executable: exec_location(config_info, name, windows).executable_path,
        default_source: default_source_dir(config_info, game_name),
    }
}

/// The end of a log file: its name and how many of its last lines to show.
#[derive(Debug, Clone)]
pub struct LogTail {
    pub name: String,
    pub lines: usize,
}

/// What the front end shows of the install log: the last 250 lines of the
/// extractor's log.
pub fn get_end_of_logs() -> (r: LogTail)
    ensures
        r.name@ == "extractor.log"@,
        r.lines == 250,
{
    LogTail { name: "extractor.log".to_owned(), lines: 250 }
}

/// The name of the file that the GPU probe leaves its findings in, inside
/// the application's own data directory.
pub fn gpu_result_file() -> (r: String)
    ensures
        r@ == "gpu-test-result.json"@,
{
    "gpu-test-result.json".to_owned()
}

/// The log file of an invocation, and whether it is appended to or reset.
#[derive(Debug, Clone)]
pub struct LogPlan {
    pub name: String,
    pub append: bool,
}

/// The failure of an operation that has a log to write and no directory to
/// keep it in.
pub fn log_dir_failure() -> (e: CommandError)
    ensures
        e.is_installation(),
        e.text() == "Could not determine path to save installation logs"@,
{
    CommandError::Installation("Could not determine path to save installation logs".to_owned())
}

/// One invocation of a program. Its output goes to the log, if there is one.
#[derive(Debug, Clone)]
pub struct Invocation {
    pub program: Vec<String>,
    pub working_dir: Vec<String>,
    pub args: Vec<String>,
    pub log: Option<LogPlan>,
    /// Whether the caller waits for the exit code; otherwise the process is
    /// started and left alone.
    pub wait: bool,
}

impl Invocation {
    /// Whether this runs the toolchain executable `name` in the toolchain
    /// directory with exactly the arguments `args`.
    pub open spec fn runs(
        &self,
        config: CommonConfigData,
        name: Seq<char>,
        windows: bool,
        args: Seq<Seq<char>>,
    ) -> bool {
        &&& texts(self.program@) == executable_path(config, name, windows)
        &&& texts(self.working_dir@) == toolchain_path(config)
        &&& texts(self.args@) == args
    }

    /// Whether the output goes to the log `name`, appended or not.
    pub open spec fn logs_to(&self, name: Seq<char>, append: bool) -> bool {
        match self.log {
            Some(log) => log.name@ == name && log.append == append,
            None => false,
        }
    }
}

/// How a step goes on once its data directory is in place.
#[derive(Debug)]
pub enum NextMove {
    /// Nothing is run: the step has this result already.
    Finish(InstallStepOutput),
    /// The tool is run, and its exit code decides the result.
    Run(Invocation),
}

/// The plan of an install step: the mirror to carry out first, if any, and
/// how to go on. A mirror that fails ends the operation (see `copy_failure`).
#[derive(Debug)]
pub struct StepPlan {
    pub refresh: Option<MirrorJob>,
    pub next: NextMove,
}

/// The snapshot that a complete configuration gives.
pub open spec fn snapshot(config: LauncherConfig) -> CommonConfigData {
    CommonConfigData {
        install_path: config.installation_dir.unwrap(),
        active_version: config.active_version.unwrap(),
        active_version_folder: config.active_version_folder.unwrap(),
    }
}

/// Whether `next` runs the extractor with `args` and waits, where the
/// executable exists, and else ends the step with the reinstall message.
pub open spec fn runs_extractor(
    next: NextMove,
    config: CommonConfigData,
    facts: DiskFacts,
    args: Seq<Seq<char>>,
    append: bool,
) -> bool {
    match next {
        NextMove::Run(inv) => {
            &&& facts.executable_exists
            &&& inv.runs(config, "extractor"@, facts.windows, args)
            &&& inv.logs_to("extractor.log"@, append)
            &&& inv.wait
        },
        NextMove::Finish(out) => {
            &&& !facts.executable_exists
            &&& !out.success
            &&& out.text() == Some(tooling_missing_text())
        },
    }
}

/// Why an operation that needs the data directory cannot start, if it
/// cannot: the first unset setting, else the missing directory.
pub open spec fn data_failure(
    config: LauncherConfig,
    game_name: Seq<char>,
    facts: DiskFacts,
) -> Option<Seq<char>> {
    if missing_setting(config).is_some() {
        missing_setting(config)
    } else if !facts.data_dir_exists {
        Some(missing_data_text(data_dir_text(snapshot(config), game_name, facts.windows)))
    } else {
        None
    }
}

/// Why an operation that needs the data directory and then the executable
/// `tool` cannot start, if it cannot.
pub open spec fn run_failure(
    config: LauncherConfig,
    game_name: Seq<char>,
    tool: Seq<char>,
    facts: DiskFacts,
) -> Option<Seq<char>> {
    if data_failure(config, game_name, facts).is_some() {
        data_failure(config, game_name, facts)
    } else if !facts.executable_exists {
        Some(missing_binary_text(executable_text(snapshot(config), tool, facts.windows)))
    } else {
        None
    }
}

/// Why the GPU probe cannot start, if it cannot.
pub open spec fn probe_failure(
    config: LauncherConfig,
    facts: DiskFacts,
    out_path: Option<Seq<char>>,
) -> Option<Seq<char>> {
    if missing_setting(config).is_some() {
        missing_setting(config)
    } else if !facts.executable_exists {
        Some(missing_binary_text(executable_text(snapshot(config), "gk"@, facts.windows)))
    } else if out_path.is_none() {
        Some("Could not determine path to save GPU test results"@)
    } else {
        None
    }
}

fn extractor_move(
    config_info: &CommonConfigData,
    facts: &DiskFacts,
    args: Vec<String>,
    append: bool,
) -> (next: NextMove)
    ensures
        runs_extractor(next, *config_info, *facts, texts(args@), append),
{
    match get_exec_location(
        config_info,
        "extractor",
        facts.windows,
        facts.executable_exists,
    ) {
        Ok(location) => NextMove::Run(
            Invocation {
                program: location.executable_path,
                working_dir: location.executable_dir,
                args,
                log: Some(LogPlan { name: "extractor.log".to_owned(), append }),
                wait: true,
            },
        ),
        Err(_) => NextMove::Finish(tooling_missing()),
    }
}

/// Plans the refresh of a game's working data from the toolchain's data.
/// Once the mirror is done the operation has succeeded.
pub fn update_data_directory(config: &LauncherConfig, game_name: &str) -> (r: Result<
    MirrorJob,
    CommandError,
>)
    ensures
        match r {
            Ok(job) => missing_setting(*config).is_none() && job.refreshes(
                snapshot(*config),
                game_name@,
            ),
            Err(e) => e.is_binary_execution() && missing_setting(*config) == Some(e.text()),
        },
{
    let config_info = match common_prelude(config) {
        Ok(data) => data,
        Err(e) => {
            return Err(e);
        },
    };
    Ok(copy_data_dir(&config_info, game_name))
}

/// Plans extraction, the first step of an install. The data directory is
/// always mirrored afresh, before anything else; the log is reset; a source
/// that is a directory gets the directory flag.
pub fn extract_and_validate_iso(
    config: &LauncherConfig,
    path_to_iso: &str,
    game_name: &str,
    facts: &DiskFacts,
) -> (r: Result<StepPlan, CommandError>)
    ensures
        match r {
            Ok(plan) => {
                &&& missing_setting(*config).is_none()
                &&& plan.refresh.is_some()
                &&& plan.refresh.unwrap().refreshes(snapshot(*config), game_name@)
                &&& runs_extractor(
                    plan.next,
                    snapshot(*config),
                    *facts,
                    extract_arguments(
                        path_to_iso@,
                        data_dir_text(snapshot(*config), game_name@, facts.windows),
                        facts.source_is_dir,
                    ),
                    false,
                )
            },
            Err(e) => e.is_binary_execution() && missing_setting(*config) == Some(e.text()),
        },
{
    let config_info = match common_prelude(config) {
        Ok(data) => data,
        Err(e) => {
            return Err(e);
        },
    };
    let dir = match get_data_dir(
        &config_info,
        game_name,
        true,
        facts.windows,
        facts.data_dir_exists,
    ) {
        Ok(dir) => dir,
        Err(e) => {
            return Err(e);
        },
    };
    let data_dir = print_path(&dir.path, facts.windows);
    let args = extract_args(path_to_iso, data_dir.as_str(), facts.source_is_dir);
    let next = extractor_move(&config_info, facts, args, false);
    Ok(StepPlan { refresh: dir.refresh, next })
}

/// Plans decompiling or compiling. The data directory must exist and is not
/// refreshed; the source defaults to the extracted data of the game; the log
/// is appended to unless `truncate_logs` is set.
pub fn run_tool(
    config: &LauncherConfig,
    path_to_iso: &str,
    game_name: &str,
    truncate_logs: bool,
    mode: ToolMode,
    facts: &DiskFacts,
) -> (r: Result<StepPlan, CommandError>)
    ensures
        match r {
            Ok(plan) => {
                &&& data_failure(*config, game_name@, *facts).is_none()
                &&& plan.refresh.is_none()
                &&& runs_extractor(
                    plan.next,
                    snapshot(*config),
                    *facts,
                    tool_arguments(
                        chosen_source(
                            path_to_iso@,
                            default_source_text(snapshot(*config), game_name@, facts.windows),
                        ),
                        mode,
                        data_dir_text(snapshot(*config), game_name@, facts.windows),
                    ),
                    !truncate_logs,
                )
            },
            Err(e) => e.is_binary_execution() && data_failure(*config, game_name@, *facts) == Some(e.text()),
        },
{
    let config_info = match common_prelude(config) {
        Ok(data) => data,
        Err(e) => {
            return Err(e);
        },
    };
    let dir = match get_data_dir(
        &config_info,
        game_name,
        false,
        facts.windows,
        facts.data_dir_exists,
    ) {
        Ok(dir) => dir,
        Err(e) => {
            return Err(e);
        },
    };
    let data_dir = print_path(&dir.path, facts.windows);
    let default_source = print_path(&default_source_dir(&config_info, game_name), facts.windows);
    let source = source_or_default(path_to_iso, default_source.as_str());
    let args = tool_args(source.as_str(), mode, data_dir.as_str());
    let next = extractor_move(&config_info, facts, args, !truncate_logs);
    Ok(StepPlan { refresh: dir.refresh, next })
}

/// Plans decompiling: `run_tool` in the mode `Decompile`.
pub fn run_decompiler(
    config: &LauncherConfig,
    path_to_iso: &str,
    game_name: &str,
    truncate_logs: bool,
    facts: &DiskFacts,
) -> (r: Result<StepPlan, CommandError>)
    ensures
        match r {
            Ok(plan) => {
                &&& data_failure(*config, game_name@, *facts).is_none()
                &&& plan.refresh.is_none()
                &&& runs_extractor(
                    plan.next,
                    snapshot(*config),
                    *facts,
                    tool_arguments(
                        chosen_source(
                            path_to_iso@,
                            default_source_text(snapshot(*config), game_name@, facts.windows),
                        ),
                        ToolMode::Decompile,
                        data_dir_text(snapshot(*config), game_name@, facts.windows),
                    ),
                    !truncate_logs,
                )
            },
            Err(e) => e.is_binary_execution() && data_failure(*config, game_name@, *facts) == Some(e.text()),
        },
{
    run_tool(config, path_to_iso, game_name, truncate_logs, ToolMode::Decompile, facts)
}

/// Plans compiling: `run_tool` in the mode `Compile`.
pub fn run_compiler(
    config: &LauncherConfig,
    path_to_iso: &str,
    game_name: &str,
    truncate_logs: bool,
    facts: &DiskFacts,
) -> (r: Result<StepPlan, CommandError>)
    ensures
        match r {
            Ok(plan) => {
                &&& data_failure(*config, game_name@, *facts).is_none()
                &&& plan.refresh.is_none()
                &&& runs_extractor(
                    plan.next,
                    snapshot(*config),
                    *facts,
                    tool_arguments(
                        chosen_source(
                            path_to_iso@,
                            default_source_text(snapshot(*config), game_name@, facts.windows),
                        ),
                        ToolMode::Compile,
                        data_dir_text(snapshot(*config), game_name@, facts.windows),
                    ),
                    !truncate_logs,
                )
            },
            Err(e) => e.is_binary_execution() && data_failure(*config, game_name@, *facts) == Some(e.text()),
        },
{
    run_tool(config, path_to_iso, game_name, truncate_logs, ToolMode::Compile, facts)
}

/// Plans the launch of the game: the runtime is started and left alone, its
/// output goes to a log that is reset, and the shape of the arguments
/// follows the toolchain version read from the active version string.
pub fn launch_game(config: &LauncherConfig, game_name: &str, in_debug: bool, facts: &DiskFacts) -> (r:
    Result<Invocation, CommandError>)
    ensures
        match r {
            Ok(inv) => {
                &&& run_failure(*config, game_name@, "gk"@, *facts).is_none()
                &&& inv.runs(
                    snapshot(*config),
                    "gk"@,
                    facts.windows,
                    launch_arguments(
                        resolved_version(
                            semver_numbers(without_prefix(snapshot(*config).active_version@)),
                        ),
                        game_name@,
                        data_dir_text(snapshot(*config), game_name@, facts.windows),
                        in_debug,
                    ),
                )
                &&& inv.logs_to("game.log"@, false)
                &&& !inv.wait
            },
            Err(e) => e.is_binary_execution() && run_failure(*config, game_name@, "gk"@, *facts) == Some(e.text()),
        },
{
    let config_info = match common_prelude(config) {
        Ok(data) => data,
        Err(e) => {
            return Err(e);
        },
    };
    let version = tooling_version(config_info.active_version.as_str());
    match get_data_dir(
        &config_info,
        game_name,
        false,
        facts.windows,
        facts.data_dir_exists,
    ) {
        Ok(_) => {},
        Err(e) => {
            return Err(e);
        },
    }
    let location = match get_exec_location(
        &config_info,
        "gk",
        facts.windows,
        facts.executable_exists,
    ) {
        Ok(location) => location,
        Err(e) => {
            return Err(e);
        },
    };
    let data_dir = print_path(&active_data_dir(&config_info, game_name), facts.windows);
    let args = launch_args(&version, game_name, data_dir.as_str(), in_debug);
    Ok(
        Invocation {
            program: location.executable_path,
            working_dir: location.executable_dir,
            args,
            log: Some(LogPlan { name: "game.log".to_owned(), append: false }),
            wait: false,
        },
    )
}

/// Plans the interactive compiler session: a console of its own, started in
/// the toolchain directory and left alone, with no log.
pub fn open_repl(config: &LauncherConfig, game_name: &str, facts: &DiskFacts) -> (r: Result<
    Invocation,
    CommandError,
>)
    ensures
        match r {
            Ok(inv) => {
                &&& run_failure(*config, game_name@, "goalc"@, *facts).is_none()
                &&& texts(inv.program@) == seq!["cmd"@]
                &&& texts(inv.working_dir@) == toolchain_path(snapshot(*config))
                &&& texts(inv.args@) == repl_arguments(
                    data_dir_text(snapshot(*config), game_name@, facts.windows),
                    facts.windows,
                )
                &&& inv.log.is_none()
                &&& !inv.wait
            },
            Err(e) => e.is_binary_execution() && run_failure(*config, game_name@, "goalc"@, *facts) == Some(e.text()),
        },
{
    let config_info = match common_prelude(config) {
        Ok(data) => data,
        Err(e) => {
            return Err(e);
        },
    };
    match get_data_dir(
        &config_info,
        game_name,
        false,
        facts.windows,
        facts.data_dir_exists,
    ) {
        Ok(_) => {},
        Err(e) => {
            return Err(e);
        },
    }
    let location = match get_exec_location(
        &config_info,
        "goalc",
        facts.windows,
        facts.executable_exists,
    ) {
        Ok(location) => location,
        Err(e) => {
            return Err(e);
        },
    };
    let program = vec!["cmd".to_owned()];
    assert(texts(program@) =~= seq!["cmd"@]);
    Ok(
        Invocation {
            program,
            working_dir: location.executable_dir,
            args: repl_args(
                print_path(&active_data_dir(&config_info, game_name), facts.windows).as_str(),
                facts.windows,
            ),
            log: None,
            wait: false,
        },
    )
}

/// Plans the GPU capability probe: the runtime is run once in its test mode
/// and waited for, and writes its findings to `out_path`. `None` says that
/// the caller has no place for that file.
pub fn run_game_gpu_test(config: &LauncherConfig, out_path: Option<&str>, facts: &DiskFacts) -> (r:
    Result<Invocation, CommandError>)
    ensures
        match r {
            Ok(inv) => {
                &&& out_path.is_some()
                &&& probe_failure(*config, *facts, Some(out_path.unwrap()@)).is_none()
                &&& inv.runs(
                    snapshot(*config),
                    "gk"@,
                    facts.windows,
                    gpu_test_arguments(out_path.unwrap()@),
                )
                &&& inv.log.is_none()
                &&& inv.wait
            },
            Err(e) => e.is_binary_execution() && probe_failure(
                *config,
                *facts,
                match out_path {
                    Some(p) => Some(p@),
                    None => None,
                },
            ) == Some(e.text()),
        },
{
    let config_info = match common_prelude(config) {
        Ok(data) => data,
        Err(e) => {
            return Err(e);
        },
    };
    let location = match get_exec_location(
        &config_info,
        "gk",
        facts.windows,
        facts.executable_exists,
    ) {
        Ok(location) => location,
        Err(e) => {
            return Err(e);
        },
    };
    let path = match out_path {
        Some(path) => path,
        None => {
            return Err(
                CommandError::BinaryExecution(
                    "Could not determine path to save GPU test results".to_owned(),
                ),
            );
        },
    };
    Ok(
        Invocation {
            program: location.executable_path,
            working_dir: location.executable_dir,
            args: gpu_test_args(path),
            log: None,
            wait: true,
        },
    )
}

} // verus!

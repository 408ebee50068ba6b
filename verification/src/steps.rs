//! The pipeline steps: what to run, with which arguments, and what an exit
//! code means.
//!
//! Each step is decided in two parts. The first takes the configuration and
//! what the caller found on disk and says what to do: which directory to
//! mirror, which program to run and how. The second takes the exit code and
//! the contents of the error catalog and gives the step's result.

use vstd::prelude::*;
use vstd::string::*;
use crate::catalog::{catalog_of_file, get_error_codes, ErrorCatalog};
use crate::layout::{bin_ext, bin_name};
use crate::outcome::{joined, texts, InstallStepOutput};
use crate::version::{shape_for, LaunchShape, ToolVersion};

verus! {

/// The character of a decimal digit.
pub open spec fn digit_char(d: int) -> char {
    seq!['0', '1', '2', '3', '4', '5', '6', '7', '8', '9'][d]
}

/// A natural number in decimal, without leading zeros.
pub open spec fn decimal_digits(n: nat) -> Seq<char>
    decreases n,
{
    if n < 10 {
        seq![digit_char(n as int)]
    } else {
        decimal_digits(n / 10).push(digit_char((n % 10) as int))
    }
}

/// An integer in decimal, with `-` before a negative one.
pub open spec fn decimal_text(n: int) -> Seq<char> {
    if n < 0 {
        seq!['-'] + decimal_digits((-n) as nat)
    } else {
        decimal_digits(n as nat)
    }
}

fn digit_text(d: u32) -> (r: &'static str)
    requires
        d < 10,
    ensures
        r@ == seq![digit_char(d as int)],
{
    proof {
        reveal_strlit("0");
        reveal_strlit("1");
        reveal_strlit("2");
        reveal_strlit("3");
        reveal_strlit("4");
        reveal_strlit("5");
        reveal_strlit("6");
        reveal_strlit("7");
        reveal_strlit("8");
        reveal_strlit("9");
    }
    let r = if d == 0 {
        "0"
    } else if d == 1 {
        "1"
    } else if d == 2 {
        "2"
    } else if d == 3 {
        "3"
    } else if d == 4 {
        "4"
    } else if d == 5 {
        "5"
    } else if d == 6 {
        "6"
    } else if d == 7 {
        "7"
    } else if d == 8 {
        "8"
    } else {
        "9"
    };
    assert(r@ =~= seq![digit_char(d as int)]);
    r
}

/// Writes a natural number in decimal.
pub fn number_text(n: u32) -> (r: String)
    ensures
        r@ == decimal_digits(n as nat),
    decreases n,
{
    if n < 10 {
        digit_text(n).to_owned()
    } else {
        number_text(n / 10).concat(digit_text(n % 10))
    }
}

/// Writes an exit code in decimal.
pub fn code_text(code: i32) -> (r: String)
    ensures
        r@ == decimal_text(code as int),
{
    if code < 0 {
        let magnitude: u32 = (-(code as i64)) as u32;
        proof {
            reveal_strlit("-");
            assert("-"@ =~= seq!['-']);
        }
        joined("-", number_text(magnitude).as_str())
    } else {
        number_text(code as u32)
    }
}

/// The message of a step whose executable is not where it should be.
pub open spec fn tooling_missing_text() -> Seq<char> {
    "Tooling appears to be missing critical files. This may be caused by antivirus software. You will need to redownload the version and try again."@
}

/// The message for an exit code that the catalog does not know.
pub open spec fn fallback_text(code: int) -> Seq<char> {
    "Unexpected error occurred with code "@ + decimal_text(code)
}

/// The message for a process that ended without an exit code.
pub open spec fn abnormal_text() -> Seq<char> {
    "Unexpected error occurred"@
}

/// What an exit code means: success flag and message.
pub open spec fn step_outcome(code: Option<i32>, catalog: Map<i32, Seq<char>>) -> (
    bool,
    Option<Seq<char>>,
) {
    match code {
        Some(c) => if c == 0 {
            (true, None)
        } else if catalog.contains_key(c) {
            (false, Some(catalog[c]))
        } else {
            (false, Some(fallback_text(c as int)))
        },
        None => (false, Some(abnormal_text())),
    }
}

/// The result of a step whose executable is missing.
pub fn tooling_missing() -> (r: InstallStepOutput)
    ensures
        !r.success,
        r.text() == Some(tooling_missing_text()),
        r.well_formed(),
{
    InstallStepOutput::failed(
        "Tooling appears to be missing critical files. This may be caused by antivirus software. You will need to redownload the version and try again.".to_owned(),
    )
}

/// Whether the catalog has to be read to explain this exit code: only for a
/// code other than zero.
pub fn needs_catalog(code: Option<i32>) -> (r: bool)
    ensures
        r == (code.is_some() && code.unwrap() != 0),
{
    match code {
        Some(c) => c != 0,
        None => false,
    }
}

/// Turns the exit code of extract, decompile or compile into the step's
/// result. Zero is success whatever the catalog holds; another code fails
/// with the catalog's message, or with a message that names the code; no
/// code at all fails with a fixed message and the catalog is not asked.
pub fn interpret_exit(code: Option<i32>, catalog: &ErrorCatalog) -> (r: InstallStepOutput)
    ensures
        (r.success, r.text()) == step_outcome(code, catalog@),
        r.well_formed(),
{
    match code {
        Some(c) => {
            if c == 0 {
                return InstallStepOutput::succeeded();
            }
            match catalog.get(c) {
                Some(message) => InstallStepOutput::failed(message),
                None => {
                    let number = code_text(c);
                    InstallStepOutput::failed(
                        joined("Unexpected error occurred with code ", number.as_str()),
                    )
                },
            }
        },
        None => InstallStepOutput::failed("Unexpected error occurred".to_owned()),
    }
}

/// Turns the exit code into the step's result, given the contents of the
/// catalog file (`None` where it is missing or unreadable).
pub fn conclude_step(code: Option<i32>, catalog_file: Option<&str>) -> (r: InstallStepOutput)
    ensures
        (r.success, r.text()) == step_outcome(
            code,
            catalog_of_file(
                match catalog_file {
                    Some(text) => Some(text@),
                    None => None,
                },
            ),
        ),
        r.well_formed(),
{
    let catalog = get_error_codes(catalog_file);
    interpret_exit(code, &catalog)
}

/// The arguments of extraction; `--folder` is added for a directory source.
pub open spec fn extract_arguments(source: Seq<char>, data_dir: Seq<char>, source_is_dir: bool) -> Seq<
    Seq<char>,
> {
    let base = seq![source, "--extract"@, "--validate"@, "--proj-path"@, data_dir];
    if source_is_dir {
        base.push("--folder"@)
    } else {
        base
    }
}

/// The two modes of the extractor that work on extracted data.
#[derive(Clone, Copy, Debug, PartialEq, Eq, Structural)]
pub enum ToolMode {
    Decompile,
    Compile,
}

pub open spec fn mode_flag(mode: ToolMode) -> Seq<char> {
    match mode {
        ToolMode::Decompile => "--decompile"@,
        ToolMode::Compile => "--compile"@,
    }
}

/// The source of decompiling and compiling: the one given, or the default
/// where none is given.
pub open spec fn chosen_source(given: Seq<char>, default_source: Seq<char>) -> Seq<char> {
    if given.len() == 0 {
        default_source
    } else {
        given
    }
}

/// The arguments of decompiling and compiling.
pub open spec fn tool_arguments(source: Seq<char>, mode: ToolMode, data_dir: Seq<char>) -> Seq<
    Seq<char>,
> {
    seq![source, mode_flag(mode), "--proj-path"@, data_dir]
}

/// The launch arguments of toolchains before 0.1.35.
pub open spec fn legacy_launch_arguments(data_dir: Seq<char>, in_debug: bool) -> Seq<Seq<char>> {
    let base = seq!["-boot"@, "-fakeiso"@, "-proj-path"@, data_dir];
    if in_debug {
        base.push("-debug"@)
    } else {
        base
    }
}

/// The launch arguments of toolchains from 0.1.35 on.
pub open spec fn current_launch_arguments(
    game_name: Seq<char>,
    data_dir: Seq<char>,
    in_debug: bool,
) -> Seq<Seq<char>> {
    let base = seq![
        "-v"@,
        "--game"@,
        game_name,
        "--proj-path"@,
        data_dir,
        "--"@,
        "-boot"@,
        "-fakeiso"@,
    ];
    if in_debug {
        base.push("-debug"@)
    } else {
        base
    }
}

/// The launch arguments of a shape.
pub open spec fn shaped_arguments(
    shape: LaunchShape,
    game_name: Seq<char>,
    data_dir: Seq<char>,
    in_debug: bool,
) -> Seq<Seq<char>> {
    match shape {
        LaunchShape::Legacy => legacy_launch_arguments(data_dir, in_debug),
        LaunchShape::Current => current_launch_arguments(game_name, data_dir, in_debug),
    }
}

/// The launch arguments for a toolchain version.
pub open spec fn launch_arguments(
    version: ToolVersion,
    game_name: Seq<char>,
    data_dir: Seq<char>,
    in_debug: bool,
) -> Seq<Seq<char>> {
    shaped_arguments(shape_for(version), game_name, data_dir, in_debug)
}

/// The arguments of the GPU capability probe.
pub open spec fn gpu_test_arguments(out_path: Seq<char>) -> Seq<Seq<char>> {
    seq!["-v"@, "--gpu-test"@, "opengl"@, "--gpu-test-out-path"@, out_path]
}

/// The arguments that open the interactive compiler in a console of its own.
pub open spec fn repl_arguments(data_dir: Seq<char>, windows: bool) -> Seq<Seq<char>> {
    seq!["/K"@, "start"@, bin_name("goalc"@, windows), "--proj-path"@, data_dir]
}

/// Builds the arguments of extraction.
pub fn extract_args(source: &str, data_dir: &str, source_is_dir: bool) -> (r: Vec<String>)
    ensures
        texts(r@) == extract_arguments(source@, data_dir@, source_is_dir),
{
    let mut args = vec![
        source.to_owned(),
        "--extract".to_owned(),
        "--validate".to_owned(),
        "--proj-path".to_owned(),
        data_dir.to_owned(),
    ];
    if source_is_dir {
        args.push("--folder".to_owned());
    }
    assert(texts(args@) =~= extract_arguments(source@, data_dir@, source_is_dir));
    args
}

/// Picks the source of decompiling and compiling.
pub fn source_or_default(given: &str, default_source: &str) -> (r: String)
    ensures
        r@ == chosen_source(given@, default_source@),
{
    if given.is_empty() {
        default_source.to_owned()
    } else {
        given.to_owned()
    }
}

/// Builds the arguments of decompiling or compiling.
pub fn tool_args(source: &str, mode: ToolMode, data_dir: &str) -> (r: Vec<String>)
    ensures
        texts(r@) == tool_arguments(source@, mode, data_dir@),
{
    let flag = match mode {
        ToolMode::Decompile => "--decompile".to_owned(),
        ToolMode::Compile => "--compile".to_owned(),
    };
    let args = vec![source.to_owned(), flag, "--proj-path".to_owned(), data_dir.to_owned()];
    assert(texts(args@) =~= tool_arguments(source@, mode, data_dir@));
    args
}

/// Builds the launch arguments of a shape. Their order matters to the game
/// runtime.
pub fn shaped_args(shape: LaunchShape, game_name: &str, data_dir: &str, in_debug: bool) -> (r:
    Vec<String>)
    ensures
        texts(r@) == shaped_arguments(shape, game_name@, data_dir@, in_debug),
{
    let mut args = match shape {
        LaunchShape::Legacy => vec![
            "-boot".to_owned(),
            "-fakeiso".to_owned(),
            "-proj-path".to_owned(),
            data_dir.to_owned(),
        ],
        LaunchShape::Current => vec![
            "-v".to_owned(),
            "--game".to_owned(),
            game_name.to_owned(),
            "--proj-path".to_owned(),
            data_dir.to_owned(),
            "--".to_owned(),
            "-boot".to_owned(),
            "-fakeiso".to_owned(),
        ],
    };
    if in_debug {
        args.push("-debug".to_owned());
    }
    assert(texts(args@) =~= shaped_arguments(shape, game_name@, data_dir@, in_debug));
    args
}

/// Builds the launch arguments for a toolchain version.
pub fn launch_args(version: &ToolVersion, game_name: &str, data_dir: &str, in_debug: bool) -> (r:
    Vec<String>)
    ensures
        texts(r@) == launch_arguments(*version, game_name@, data_dir@, in_debug),
{
    shaped_args(version.launch_shape(), game_name, data_dir, in_debug)
}

/// Builds the arguments of the GPU capability probe.
pub fn gpu_test_args(out_path: &str) -> (r: Vec<String>)
    ensures
        texts(r@) == gpu_test_arguments(out_path@),
{
    let args = vec![
        "-v".to_owned(),
        "--gpu-test".to_owned(),
        "opengl".to_owned(),
        "--gpu-test-out-path".to_owned(),
        out_path.to_owned(),
    ];
    assert(texts(args@) =~= gpu_test_arguments(out_path@));
    args
}

/// Builds the arguments that open the interactive compiler.
pub fn repl_args(data_dir: &str, windows: bool) -> (r: Vec<String>)
    ensures
        texts(r@) == repl_arguments(data_dir@, windows),
{
    let args = vec![
        "/K".to_owned(),
        "start".to_owned(),
        bin_ext("goalc", windows),
        "--proj-path".to_owned(),
        data_dir.to_owned(),
    ];
    assert(texts(args@) =~= repl_arguments(data_dir@, windows));
    args
}

} // verus!

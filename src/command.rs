use vstd::prelude::*;

use crate::outcome::InvokeError;

verus! {

/// How a snippet of code reaches the interpreter.
#[derive(Clone, Copy, Debug, PartialEq, Eq, Structural)]
pub enum Strategy {
    /// Start `<bin> <project>/artisan tinker` and write the code to its stdin;
    /// the result is everything on stdout followed by everything on stderr.
    Repl,
    /// Start `<bin> -d allow_url_fopen=On -d allow_url_include=On -r <script>`,
    /// where the script loads the project's autoloader and then runs the code;
    /// the result is stdout on success and stderr otherwise.
    InlineEval,
}

/// The file that marks a project root for the given strategy, relative to it.
pub open spec fn marker_suffix(strategy: Strategy) -> Seq<char> {
    match strategy {
        Strategy::Repl => "/artisan"@,
        Strategy::InlineEval => "/vendor/autoload.php"@,
    }
}

/// Path of the marker file under `project_path`.
pub open spec fn marker_path_of(strategy: Strategy, project_path: Seq<char>) -> Seq<char> {
    project_path + marker_suffix(strategy)
}

/// The file whose presence shows that `project_path` is a project root.
pub fn marker_path(strategy: Strategy, project_path: &str) -> (r: String)
    ensures
        r@ == marker_path_of(strategy, project_path@),
{
    let base = String::from_str(project_path);
    match strategy {
        Strategy::Repl => base.concat("/artisan"),
        Strategy::InlineEval => base.concat("/vendor/autoload.php"),
    }
}

/// How the child's streams and exit status become the text result.
#[derive(Clone, Copy, Debug, PartialEq, Eq, Structural)]
pub enum OutputRule {
    /// Everything on stdout followed by everything on stderr, whatever the
    /// exit status.
    Concatenate,
    /// stdout when the child exits successfully, its stderr otherwise.
    StdoutOrStderr,
}

/// The output rule that belongs to a strategy.
pub open spec fn rule_of(strategy: Strategy) -> OutputRule {
    match strategy {
        Strategy::Repl => OutputRule::Concatenate,
        Strategy::InlineEval => OutputRule::StdoutOrStderr,
    }
}

/// The output rule that belongs to a strategy.
pub fn output_rule(strategy: Strategy) -> (r: OutputRule)
    ensures
        r == rule_of(strategy),
{
    match strategy {
        Strategy::Repl => OutputRule::Concatenate,
        Strategy::InlineEval => OutputRule::StdoutOrStderr,
    }
}

/// The interpreter started when the caller names none.
pub open spec fn default_binary() -> Seq<char> {
    "php"@
}

/// The interpreter to start: the one the caller named, exactly as given, or
/// the default when the caller named none.
pub open spec fn binary_of(bin: Option<String>) -> Seq<char> {
    match bin {
        Some(b) => b@,
        None => default_binary(),
    }
}

/// The argument list for running `code` in the project at `project_path`.
pub open spec fn run_code_args_of(
    strategy: Strategy,
    code: Seq<char>,
    project_path: Seq<char>,
) -> Seq<Seq<char>> {
    match strategy {
        Strategy::Repl => seq![marker_path_of(strategy, project_path), "tinker"@],
        Strategy::InlineEval => seq![
            "-d"@,
            "allow_url_fopen=On"@,
            "-d"@,
            "allow_url_include=On"@,
            "-r"@,
            inline_script_of(project_path, code),
        ],
    }
}

/// The script evaluated by the inline strategy: load the project's
/// autoloader, then run `code`.
pub open spec fn inline_script_of(project_path: Seq<char>, code: Seq<char>) -> Seq<char> {
    "require '"@ + marker_path_of(Strategy::InlineEval, project_path) + "'; "@ + code
}

/// What the REPL strategy writes to the child's stdin: the code itself; the
/// inline strategy passes the code as an argument and writes nothing.
pub open spec fn run_code_stdin_of(strategy: Strategy, code: Seq<char>) -> Seq<char> {
    match strategy {
        Strategy::Repl => code,
        Strategy::InlineEval => Seq::empty(),
    }
}

/// Everything needed to start one child process and reduce its output.
#[derive(Clone, Debug, PartialEq, Eq)]
pub struct SpawnPlan {
    /// The program to start.
    pub program: String,
    /// Its arguments, in order.
    pub args: Vec<String>,
    /// The working directory of the child; `None` keeps the host's own.
    pub current_dir: Option<String>,
    /// Bytes written to the child's stdin, which is then closed so that the
    /// child sees the end of its input.
    pub stdin: String,
    /// How the child's output becomes the result.
    pub output: OutputRule,
}

/// The binary to start for an optional caller choice.
pub fn resolve_binary(bin: Option<String>) -> (r: String)
    ensures
        r@ == binary_of(bin),
{
    match bin {
        Some(b) => b,
        None => String::from_str("php"),
    }
}

/// The arguments that run `code` in the project at `project_path`.
pub fn run_code_args(strategy: Strategy, code: &str, project_path: &str) -> (r: Vec<String>)
    ensures
        r.deep_view() == run_code_args_of(strategy, code@, project_path@),
{
    let mut args: Vec<String> = Vec::new();
    match strategy {
        Strategy::Repl => {
            args.push(marker_path(strategy, project_path));
            args.push(String::from_str("tinker"));
        },
        Strategy::InlineEval => {
            args.push(String::from_str("-d"));
            args.push(String::from_str("allow_url_fopen=On"));
            args.push(String::from_str("-d"));
            args.push(String::from_str("allow_url_include=On"));
            args.push(String::from_str("-r"));
            let script = String::from_str("require '").concat(
                marker_path(Strategy::InlineEval, project_path).as_str(),
            ).concat("'; ").concat(code);
            args.push(script);
        },
    }
    assert(args.deep_view() =~= run_code_args_of(strategy, code@, project_path@));
    args
}

/// Decides how to run `code` in the project at `project_path`, given whether
/// the strategy's marker file exists there. Without the marker there is
/// nothing to start and the result is `ProjectMarkerNotFound`.
pub fn plan_run_code(
    strategy: Strategy,
    code: &str,
    project_path: &str,
    bin: Option<String>,
    marker_exists: bool,
) -> (r: Result<SpawnPlan, InvokeError>)
    ensures
        !marker_exists <==> r is Err,
        !marker_exists ==> r == Err::<SpawnPlan, InvokeError>(InvokeError::ProjectMarkerNotFound),
        r matches Ok(plan) ==> {
            &&& plan.program@ == binary_of(bin)
            &&& plan.args.deep_view() == run_code_args_of(strategy, code@, project_path@)
            &&& plan.current_dir is None
            &&& plan.stdin@ == run_code_stdin_of(strategy, code@)
            &&& plan.output == rule_of(strategy)
        },
{
    if !marker_exists {
        return Err(InvokeError::ProjectMarkerNotFound);
    }
    let stdin = match strategy {
        Strategy::Repl => String::from_str(code),
        Strategy::InlineEval => String::new(),
    };
    Ok(
        SpawnPlan {
            program: resolve_binary(bin),
            args: run_code_args(strategy, code, project_path),
            current_dir: None,
            stdin,
            output: output_rule(strategy),
        },
    )
}

/// Decides how to run the management command `command` of the project at
/// `project_path`: `<bin> artisan <command>` in that directory, with an empty
/// stdin, the output reduced by the strategy's rule.
pub fn plan_management_command(
    strategy: Strategy,
    command: &str,
    project_path: &str,
    bin: Option<String>,
) -> (r: SpawnPlan)
    ensures
        r.program@ == binary_of(bin),
        r.args.deep_view() == seq!["artisan"@, command@],
        r.current_dir matches Some(d) && d@ == project_path@,
        r.stdin@ == Seq::<char>::empty(),
        r.output == rule_of(strategy),
{
    let mut args: Vec<String> = Vec::new();
    args.push(String::from_str("artisan"));
    args.push(String::from_str(command));
    assert(args.deep_view() =~= seq!["artisan"@, command@]);
    SpawnPlan {
        program: resolve_binary(bin),
        args,
        current_dir: Some(String::from_str(project_path)),
        stdin: String::new(),
        output: output_rule(strategy),
    }
}

} // verus!

//! Decision logic for running a PHP project's REPL ("tinker") and its
//! "artisan" management tool as a child process.
//!
//! The library never touches the operating system. It says which file marks
//! a project, which program to start with which arguments, working directory
//! and standard input, and how the child's streams and exit status become the
//! single text result shown to the user. A host starts the process, feeds it,
//! reads it, and hands what it observed back to the library.
pub mod command;
pub mod outcome;

pub use command::{
    marker_path, output_rule, plan_management_command, plan_run_code, resolve_binary, run_code_args,
    OutputRule, SpawnPlan, Strategy,
};
pub use outcome::{outcome_text, stream_name, time_is_up, ChildReport, InvokeError, Stream};

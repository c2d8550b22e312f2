//! Checker invocation: the exact argument tokens of the external validation
//! command, and the classification of a finished check into success or
//! failure. Spawning the process itself is I/O and stays outside the library;
//! callers hand the captured exit status and output back in.

use vstd::prelude::*;
use crate::registry::Exercise;

verus! {

/// Captured output of one run of the external checker.
#[derive(Debug)]
pub struct ExerciseOutput {
    pub stdout: String,
    pub stderr: String,
}

/// The tokens of the external checker invocation for one exercise: the
/// program and each argument as a separate token, never one concatenated
/// shell string, with the exercise's path as the final argument.
pub fn checker_command(exercise: &Exercise) -> (r: Vec<String>)
    ensures
        r@.len() == 4,
        r@[0]@ == "nix"@,
        r@[1]@ == "flake"@,
        r@[2]@ == "check"@,
        r@[3]@ == exercise.path@,
{
    let mut tokens: Vec<String> = Vec::new();
    tokens.push("nix".to_owned());
    tokens.push("flake".to_owned());
    tokens.push("check".to_owned());
    tokens.push(exercise.path.clone());
    tokens
}

/// Classifies a finished checker run: a zero exit status (`success`) yields
/// `Ok`, any other exit status yields `Err`; the captured output is carried
/// either way. A run that merely reported failure is a normal outcome, never
/// an error of the invoker.
pub fn classify_check(success: bool, stdout: String, stderr: String) -> (r: Result<
    ExerciseOutput,
    ExerciseOutput,
>)
    ensures
        (r is Ok) <==> success,
        (match r {
            Ok(o) => o.stdout == stdout && o.stderr == stderr,
            Err(o) => o.stdout == stdout && o.stderr == stderr,
        }),
{
    let output = ExerciseOutput { stdout, stderr };
    if success {
        Ok(output)
    } else {
        Err(output)
    }
}

} // verus!

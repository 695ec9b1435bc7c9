use vstd::prelude::*;
use vstd::utf8::{decode_utf8, valid_utf8};
use crate::categories::name_views;

verus! {

/// Why no fortune could be had.
#[derive(Clone, Copy, Debug, PartialEq, Eq, Structural)]
pub enum FortuneError {
    /// The fortune program could not be started or did not exit normally.
    ExecutionFailed,
    /// The fortune program's output is not UTF-8 text.
    DecodeFailed,
}

/// The text that a reply carries for an error.
pub open spec fn error_message(e: FortuneError) -> Seq<char> {
    match e {
        FortuneError::ExecutionFailed => "Fail to load fortune"@,
        FortuneError::DecodeFailed => "Fail to parse fortune"@,
    }
}

impl FortuneError {
    /// The text that a reply carries for this error.
    pub fn message(&self) -> (r: String)
        ensures
            r@ == error_message(*self),
    {
        match self {
            FortuneError::ExecutionFailed => "Fail to load fortune".to_owned(),
            FortuneError::DecodeFailed => "Fail to parse fortune".to_owned(),
        }
    }
}

/// What a run of the fortune program gave back, once it was started.
pub struct ProgramRun {
    /// The program exited normally, with a success status.
    pub succeeded: bool,
    /// What it wrote to its standard output.
    pub stdout: Vec<u8>,
}

/// The flag that lets the fortune program draw from every category.
pub open spec fn all_flag() -> Seq<char> {
    "-a"@
}

/// The arguments handed to the fortune program for `category`: the flag,
/// then the category as it stands, as one argument. An empty category leaves
/// the choice to the program.
pub open spec fn fortune_args_of(category: Seq<char>) -> Seq<Seq<char>> {
    seq![all_flag(), category]
}

/// The outcome of asking for a fortune, given what the program's run gave
/// back (`None` when it could not be started).
pub open spec fn fortune_outcome(run: Option<(bool, Seq<u8>)>) -> Result<Seq<char>, FortuneError> {
    match run {
        None => Err(FortuneError::ExecutionFailed),
        Some((succeeded, stdout)) => if !succeeded {
            Err(FortuneError::ExecutionFailed)
        } else if !valid_utf8(stdout) {
            Err(FortuneError::DecodeFailed)
        } else {
            Ok(decode_utf8(stdout))
        },
    }
}

/// The plain values of a run.
pub open spec fn run_view(run: Option<ProgramRun>) -> Option<(bool, Seq<u8>)> {
    match run {
        None => None,
        Some(r) => Some((r.succeeded, r.stdout@)),
    }
}

/// The plain values of a fortune outcome.
pub open spec fn outcome_view(r: Result<String, FortuneError>) -> Result<Seq<char>, FortuneError> {
    match r {
        Ok(s) => Ok(s@),
        Err(e) => Err(e),
    }
}

/// Relies on String::from_utf8: it accepts exactly the byte strings that are
/// well-formed UTF-8 and keeps the characters they encode.
#[verifier::external_body]
fn text_from_utf8(bytes: Vec<u8>) -> (r: Option<String>)
    ensures
        r is Some <==> valid_utf8(bytes@),
        r is Some ==> r->0@ == decode_utf8(bytes@),
{
    String::from_utf8(bytes).ok()
}

/// The arguments with which to run the fortune program for `category`.
pub fn fortune_args(category: &str) -> (r: Vec<String>)
    ensures
        name_views(r@) == fortune_args_of(category@),
{
    let mut args: Vec<String> = Vec::new();
    args.push("-a".to_owned());
    args.push(category.to_owned());
    assert(name_views(args@) =~= fortune_args_of(category@));
    args
}

/// The fortune, or why there is none, from what the program's run gave back.
/// The text is the program's output as it stands, trailing white space
/// included.
pub fn fortune_from_run(run: Option<ProgramRun>) -> (r: Result<String, FortuneError>)
    ensures
        outcome_view(r) == fortune_outcome(run_view(run)),
{
    match run {
        None => Err(FortuneError::ExecutionFailed),
        Some(run) => {
            if !run.succeeded {
                Err(FortuneError::ExecutionFailed)
            } else {
                match text_from_utf8(run.stdout) {
                    Some(text) => Ok(text),
                    None => Err(FortuneError::DecodeFailed),
                }
            }
        },
    }
}

} // verus!

//! The program's command line, once it has been read: what was asked for
//! and what a run comes to.

use vstd::prelude::*;
use vstd::string::*;

verus! {

/// What the program can be asked to do in place of starting a session.
#[derive(Debug, Clone, Copy, PartialEq, Eq, Structural)]
pub enum Command {
    /// Update to the latest version.
    Update,
}

/// The command line as values.
#[derive(Debug, Clone, Copy, PartialEq, Eq, Structural)]
pub struct Cli {
    pub command: Option<Command>,
}

/// What is reported of an update: its failure with the reason after the
/// words `Update failed: `.
pub open spec fn reported(result: Result<(), String>) -> Result<(), Seq<char>> {
    match result {
        Ok(()) => Ok(()),
        Err(reason) => Err("Update failed: "@ + reason@),
    }
}

/// Turns the outcome of an update into what is reported of it.
pub fn update_report(result: Result<(), String>) -> (r: Result<(), String>)
    ensures
        match r {
            Ok(()) => reported(result) == Ok::<(), Seq<char>>(()),
            Err(message) => reported(result) == Err::<(), Seq<char>>(message@),
        },
{
    match result {
        Ok(()) => Ok(()),
        Err(reason) => {
            let mut message = String::from_str("Update failed: ");
            message.append(reason.as_str());
            Err(message)
        },
    }
}

/// Does what the command line asks in place of a session. Without a
/// command there is nothing to do and the result is `None`: a session is to
/// start. With a command, the work is done through `perform_update` and the
/// result tells how it went; a failure is a reason to end the program with
/// an error.
pub fn run<F: FnOnce() -> Result<(), String>>(cli: &Cli, perform_update: F) -> (r: Option<
    Result<(), String>,
>)
    requires
        call_requires(perform_update, ()),
    ensures
        cli.command is None ==> r is None,
        cli.command is Some ==> r is Some && exists|outcome: Result<(), String>| #[trigger]
            call_ensures(perform_update, (), outcome) && match r->0 {
                Ok(()) => reported(outcome) == Ok::<(), Seq<char>>(()),
                Err(message) => reported(outcome) == Err::<(), Seq<char>>(message@),
            },
{
    match cli.command {
        None => None,
        Some(Command::Update) => {
            let outcome = perform_update();
            Some(update_report(outcome))
        },
    }
}

} // verus!

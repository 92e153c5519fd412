//! The command line: which command the arguments name, what carrying it out
//! yields, and the exit code that reports it.

use vstd::prelude::*;
use crate::outcome::{Outcome, RunResult};
use crate::registry::{RegistryError, has_id, is_listing_of, position_of};
use crate::runner::{Runner, all_succeeded, batch_of, exit_code, exit_code_one, views_of};

verus! {

/// What the user asks for.
#[derive(Debug, PartialEq, Eq)]
pub enum Command {
    /// Execute every lesson.
    RunAll,
    /// Execute the lesson with this identifier.
    RunOne(String),
    /// Show the identifier and the title of every lesson.
    List,
}

/// The mathematical value of a `Command`.
pub ghost enum CommandView {
    RunAll,
    RunOne(Seq<char>),
    List,
}

impl View for Command {
    type V = CommandView;

    open spec fn view(&self) -> CommandView {
        match self {
            Command::RunAll => CommandView::RunAll,
            Command::RunOne(id) => CommandView::RunOne(id@),
            Command::List => CommandView::List,
        }
    }
}

/// Why the arguments name no command.
#[derive(Clone, Copy, Debug, PartialEq, Eq, Structural)]
pub enum UsageError {
    /// The first argument is neither `run` nor `list`.
    UnknownCommand,
    /// More arguments follow the command than it takes.
    TooManyArguments,
}

/// The command that the arguments `args` name (the program's own name left out):
/// nothing, `run` and `run --all` ask for every lesson, `run` with another word
/// for the lesson of that name, `list` for the listing.
pub open spec fn parsed(args: Seq<Seq<char>>) -> Result<CommandView, UsageError> {
    if args.len() == 0 {
        Ok(CommandView::RunAll)
    } else if args[0] == "run"@ {
        if args.len() == 1 {
            Ok(CommandView::RunAll)
        } else if args.len() > 2 {
            Err(UsageError::TooManyArguments)
        } else if args[1] == "--all"@ {
            Ok(CommandView::RunAll)
        } else {
            Ok(CommandView::RunOne(args[1]))
        }
    } else if args[0] == "list"@ {
        if args.len() == 1 {
            Ok(CommandView::List)
        } else {
            Err(UsageError::TooManyArguments)
        }
    } else {
        Err(UsageError::UnknownCommand)
    }
}

/// The views of `args`, in order.
pub open spec fn words_of(args: Seq<String>) -> Seq<Seq<char>> {
    Seq::new(args.len(), |i: int| args[i]@)
}

/// Reads the command that `args` name.
pub fn parse_command(args: &[String]) -> (res: Result<Command, UsageError>)
    ensures
        match res {
            Ok(command) => parsed(words_of(args@)) == Ok::<CommandView, UsageError>(command@),
            Err(e) => parsed(words_of(args@)) == Err::<CommandView, UsageError>(e),
        },
{
    if args.len() == 0 {
        return Ok(Command::RunAll);
    }
    assert(words_of(args@)[0] == args@[0]@);
    if args[0] == "run".to_owned() {
        if args.len() == 1 {
            return Ok(Command::RunAll);
        }
        if args.len() > 2 {
            return Err(UsageError::TooManyArguments);
        }
        assert(words_of(args@)[1] == args@[1]@);
        if args[1] == "--all".to_owned() {
            Ok(Command::RunAll)
        } else {
            Ok(Command::RunOne(args[1].clone()))
        }
    } else if args[0] == "list".to_owned() {
        if args.len() == 1 {
            Ok(Command::List)
        } else {
            Err(UsageError::TooManyArguments)
        }
    } else {
        Err(UsageError::UnknownCommand)
    }
}

/// What carrying out a command yields.
#[derive(Debug, PartialEq, Eq)]
pub enum Report {
    /// One record for each lesson, in registration order.
    Batch(Vec<RunResult>),
    /// The record of the one lesson asked for, or why there is none.
    Single(Result<RunResult, RegistryError>),
    /// The identifier and the title of each lesson, in registration order.
    Listing(Vec<(String, String)>),
}

impl Report {
    /// The exit code that a report stands for: 0 for a listing, for a batch in
    /// which every lesson succeeded, and for a single lesson that was found and
    /// succeeded; 1 otherwise.
    pub open spec fn code(&self) -> int {
        match self {
            Report::Batch(results) => if all_succeeded(views_of(results@)) {
                0
            } else {
                1
            },
            Report::Single(outcome) => if outcome is Ok && outcome.unwrap().succeeded {
                0
            } else {
                1
            },
            Report::Listing(_) => 0,
        }
    }

    /// The exit code with which the program reports this outcome.
    pub fn exit_code(&self) -> (code: u8)
        ensures
            code == self.code(),
    {
        match self {
            Report::Batch(results) => exit_code(results.as_slice()),
            Report::Single(outcome) => exit_code_one(outcome),
            Report::Listing(_) => 0,
        }
    }
}

impl<'a, F: Fn() -> Outcome> Runner<'a, F> {
    /// Whether `report` can come from carrying out `command` on these lessons.
    pub open spec fn may_report(&self, command: CommandView, report: Report) -> bool {
        match command {
            CommandView::RunAll => report is Batch && batch_of(
                self@,
                views_of(report->Batch_0@),
            ),
            CommandView::RunOne(id) => report is Single && match report->Single_0 {
                Ok(r) => has_id(self@, id) && self@[position_of(self@, id)].may_yield(r@),
                Err(e) => !has_id(self@, id) && e == RegistryError::NotFound,
            },
            CommandView::List => report is Listing && is_listing_of(self@, report->Listing_0@),
        }
    }

    /// Carries out `command`: runs what it asks for, or lists the lessons.
    pub fn perform(&self, command: &Command) -> (report: Report)
        requires
            self.wf(),
        ensures
            self.may_report(command@, report),
    {
        match command {
            Command::RunAll => Report::Batch(self.run_all()),
            Command::RunOne(id) => Report::Single(self.run_one(id.as_str())),
            Command::List => Report::Listing(self.listing()),
        }
    }
}

} // verus!

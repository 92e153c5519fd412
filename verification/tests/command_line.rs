use crash_course::cli::{parse_command, Command, Report, UsageError};
use crash_course::lesson::Lesson;
use crash_course::outcome::{Outcome, RunResult};
use crash_course::registry::{Registry, RegistryError};
use crash_course::runner::Runner;

type Action = fn() -> Outcome;

fn shows_variables() -> Outcome {
    Outcome::success(String::from("let x = 5;\n"))
}

fn breaks() -> Outcome {
    Outcome::failure(String::new(), String::from("deliberate failure"))
}

fn words(args: &[&str]) -> Vec<String> {
    args.iter().map(|a| a.to_string()).collect()
}

fn two_lessons() -> Registry<Action> {
    let mut registry: Registry<Action> = Registry::new();
    registry.register(Lesson::new("a", "Variables", shows_variables as Action).unwrap()).unwrap();
    registry.register(Lesson::new("b", "Enums", breaks as Action).unwrap()).unwrap();
    registry
}

#[test]
fn no_argument_asks_for_all() {
    assert_eq!(parse_command(&words(&[])), Ok(Command::RunAll));
}

#[test]
fn run_alone_asks_for_all() {
    assert_eq!(parse_command(&words(&["run"])), Ok(Command::RunAll));
}

#[test]
fn run_all_flag_asks_for_all() {
    assert_eq!(parse_command(&words(&["run", "--all"])), Ok(Command::RunAll));
}

#[test]
fn run_with_an_id_asks_for_that_lesson() {
    assert_eq!(
        parse_command(&words(&["run", "enums"])),
        Ok(Command::RunOne(String::from("enums")))
    );
    assert_eq!(parse_command(&words(&["run", "all"])), Ok(Command::RunOne(String::from("all"))));
    assert_eq!(parse_command(&words(&["run", "run"])), Ok(Command::RunOne(String::from("run"))));
    assert_eq!(parse_command(&words(&["run", "list"])), Ok(Command::RunOne(String::from("list"))));
}

#[test]
fn list_asks_for_the_listing() {
    assert_eq!(parse_command(&words(&["list"])), Ok(Command::List));
}

#[test]
fn other_words_are_no_command() {
    assert_eq!(parse_command(&words(&["walk"])), Err(UsageError::UnknownCommand));
    assert_eq!(parse_command(&words(&["--all"])), Err(UsageError::UnknownCommand));
    assert_eq!(parse_command(&words(&["Run"])), Err(UsageError::UnknownCommand));
    assert_eq!(parse_command(&words(&[""])), Err(UsageError::UnknownCommand));
    assert_eq!(parse_command(&words(&["enums", "run"])), Err(UsageError::UnknownCommand));
}

#[test]
fn surplus_arguments_are_refused() {
    assert_eq!(parse_command(&words(&["run", "a", "b"])), Err(UsageError::TooManyArguments));
    assert_eq!(parse_command(&words(&["run", "--all", "a"])), Err(UsageError::TooManyArguments));
    assert_eq!(parse_command(&words(&["list", "a"])), Err(UsageError::TooManyArguments));
}

#[test]
fn performing_run_all_reports_the_batch() {
    let registry = two_lessons();
    let report = Runner::new(&registry).perform(&Command::RunAll);
    assert_eq!(
        report,
        Report::Batch(vec![
            RunResult::from_outcome("a", shows_variables()),
            RunResult::from_outcome("b", breaks()),
        ])
    );
    assert_eq!(report.exit_code(), 1);
}

#[test]
fn performing_run_one_reports_that_lesson() {
    let registry = two_lessons();
    let runner = Runner::new(&registry);
    let report = runner.perform(&Command::RunOne(String::from("a")));
    assert_eq!(report, Report::Single(Ok(RunResult::from_outcome("a", shows_variables()))));
    assert_eq!(report.exit_code(), 0);
    let report = runner.perform(&Command::RunOne(String::from("b")));
    assert_eq!(report, Report::Single(Ok(RunResult::from_outcome("b", breaks()))));
    assert_eq!(report.exit_code(), 1);
}

#[test]
fn performing_run_one_of_an_unknown_id_reports_not_found() {
    let registry = two_lessons();
    let report = Runner::new(&registry).perform(&Command::RunOne(String::from("missing")));
    assert_eq!(report, Report::Single(Err(RegistryError::NotFound)));
    assert_eq!(report.exit_code(), 1);
}

#[test]
fn performing_list_reports_ids_and_titles() {
    let registry = two_lessons();
    let report = Runner::new(&registry).perform(&Command::List);
    assert_eq!(
        report,
        Report::Listing(vec![
            (String::from("a"), String::from("Variables")),
            (String::from("b"), String::from("Enums")),
        ])
    );
    assert_eq!(report.exit_code(), 0);
}

#[test]
fn a_batch_of_successes_exits_with_zero() {
    let mut registry: Registry<Action> = Registry::new();
    registry.register(Lesson::new("a", "Variables", shows_variables as Action).unwrap()).unwrap();
    let report = Runner::new(&registry).perform(&Command::RunAll);
    assert_eq!(report.exit_code(), 0);
}

#[test]
fn an_empty_batch_exits_with_zero() {
    let report = Report::Batch(Vec::new());
    assert_eq!(report.exit_code(), 0);
}

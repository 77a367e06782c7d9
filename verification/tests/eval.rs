use sillycord_bot::commands::eval::{
    eval, eval_compiled, eval_started, eval_step, is_owner, stray_request, Build, ChatLine,
    Ending, EvalAction, EvalEvent, EvalFlow, EvalStage, EvalStep,
};
use sillycord_bot::error::WorkflowError;

fn line(author: u64, bot: bool, content: &str) -> ChatLine {
    ChatLine { author, bot, content: content.to_string() }
}

#[test]
fn owners_are_those_on_the_list() {
    let owners = vec![1017196087276220447, 272871217256726531, 1033331958291369984];
    assert!(is_owner(&owners, 1017196087276220447));
    assert!(is_owner(&owners, 1033331958291369984));
    assert!(!is_owner(&owners, 5));
    assert!(!is_owner(&vec![], 5));
}

#[test]
fn stray_request_is_the_first_that_matches() {
    let lines = vec![
        line(7, false, "hello"),
        line(8, false, "~eval fn main() {}"),
        line(7, true, "~eval by a bot"),
        line(7, false, "~eval first"),
        line(7, false, "~eval second"),
    ];
    assert_eq!(stray_request(&lines, 7), Some(3));
    assert_eq!(stray_request(&lines, 8), Some(1));
}

#[test]
fn stray_request_is_nothing_where_none_matches() {
    let lines = vec![
        line(7, false, "hello ~eval"),
        line(7, true, "~eval"),
        line(8, false, "~eval"),
        line(7, false, "~eva"),
    ];
    assert_eq!(stray_request(&lines, 7), None);
    assert_eq!(stray_request(&lines, 9), None);
    assert_eq!(stray_request(&vec![], 7), None);
}

#[test]
fn report_of_a_write_failure() {
    assert_eq!(
        eval(&Build::Unwritten("disk full".to_string())),
        "<:error:1310650177056538655> Error writing to file: disk full"
    );
}

#[test]
fn report_of_a_missing_compiler() {
    assert_eq!(
        eval(&Build::NoCompiler("No such file or directory".to_string())),
        "<:error:1310650177056538655> Error invoking rustc: No such file or directory"
    );
}

#[test]
fn report_of_a_refused_compilation() {
    assert_eq!(
        eval(&Build::Rejected("error[E0425]".to_string())),
        "<:error:1310650177056538655> Compilation failed:\n```\nerror[E0425]\n```"
    );
}

#[test]
fn report_of_a_program_that_did_not_start() {
    assert_eq!(
        eval(&Build::Unrunnable("permission denied".to_string())),
        "<:error:1310650177056538655> Error running executable: permission denied"
    );
}

#[test]
fn report_of_a_silent_run() {
    assert_eq!(
        eval(&Build::Ran { stdout: String::new(), stderr: String::new() }),
        "<:success:1310650176037453834> Exection successful"
    );
}

#[test]
fn report_of_a_run_that_printed_on_both_streams() {
    assert_eq!(
        eval(&Build::Ran { stdout: "out".to_string(), stderr: "err".to_string() }),
        "<:success:1310650176037453834> Exection successful\n\n**stdout**:\n```\nout\n```\n\n**stderr**:\n```\nerr\n```"
    );
}

#[test]
fn report_of_a_run_that_printed_on_one_stream() {
    assert_eq!(
        eval(&Build::Ran { stdout: "out".to_string(), stderr: String::new() }),
        "<:success:1310650176037453834> Exection successful\n\n**stdout**:\n```\nout\n```"
    );
    assert_eq!(
        eval(&Build::Ran { stdout: String::new(), stderr: "err".to_string() }),
        "<:success:1310650176037453834> Exection successful\n\n**stderr**:\n```\nerr\n```"
    );
}

#[test]
fn interim_texts() {
    assert_eq!(eval_started(), ":gear: Processing...");
    assert_eq!(
        eval_compiled(),
        "<:success:1310650176037453834> Compilation successful. Running the executable..."
    );
}

const OWNER: u64 = 1017196087276220447;

fn owners() -> Vec<u64> {
    vec![OWNER, 272871217256726531, 1033331958291369984]
}

/// Hands `events` to a request one by one; what was asked for, and the end.
fn run_eval(author: u64, events: Vec<EvalEvent>) -> (Vec<EvalAction>, Option<Result<(), WorkflowError>>) {
    let mut asked = Vec::new();
    let mut flow = EvalFlow::new("fn main() {}".to_string());
    for event in events {
        match eval_step(&owners(), author, flow, event) {
            EvalStep::Next { flow: onward, action } => {
                asked.push(action);
                flow = onward;
            }
            EvalStep::Finished(end) => return (asked, Some(end)),
        }
    }
    (asked, None)
}

fn names(asked: &[EvalAction]) -> Vec<&'static str> {
    asked
        .iter()
        .map(|action| match action {
            EvalAction::Recent { .. } => "recent",
            EvalAction::Delete { .. } => "delete",
            EvalAction::Say(_) => "say",
            EvalAction::Revise(_) => "revise",
            EvalAction::Write(_) => "write",
            EvalAction::Compile => "compile",
            EvalAction::Run => "run",
            EvalAction::Clean => "clean",
        })
        .collect()
}

fn failed(why: &str) -> EvalEvent {
    EvalEvent::Failed(why.to_string())
}

#[test]
fn a_stranger_has_the_own_request_deleted_and_nothing_run() {
    let lines = vec![
        line(8, false, "~eval other"),
        line(7, false, "~eval mine, newest"),
        line(7, false, "~eval mine, older"),
    ];
    let (asked, end) = run_eval(
        7,
        vec![EvalEvent::Begin, EvalEvent::Lines(lines), EvalEvent::Done, EvalEvent::Done],
    );
    assert_eq!(end, Some(Ok(())));
    assert_eq!(names(&asked), vec!["recent", "delete"]);
    assert!(matches!(asked[0], EvalAction::Recent { limit: 100 }));
    assert!(matches!(asked[1], EvalAction::Delete { line: 1 }));
}

#[test]
fn a_stranger_without_a_request_in_sight_has_nothing_done() {
    let lines = vec![line(8, false, "~eval other"), line(7, false, "hello")];
    let (asked, end) = run_eval(7, vec![EvalEvent::Begin, EvalEvent::Lines(lines)]);
    assert_eq!(end, Some(Ok(())));
    assert_eq!(names(&asked), vec!["recent"]);
}

#[test]
fn a_stranger_whose_channel_cannot_be_read_gets_an_error() {
    let (asked, end) = run_eval(7, vec![EvalEvent::Begin, failed("no access")]);
    assert_eq!(end, Some(Err(WorkflowError::ExternalServiceFailure)));
    assert_eq!(names(&asked), vec!["recent"]);
}

#[test]
fn a_stranger_gets_nothing_run_whatever_the_answers_are() {
    let (asked, _) = run_eval(
        7,
        vec![
            EvalEvent::Begin,
            EvalEvent::Done,
            EvalEvent::Compiled { success: true, stderr: String::new() },
            EvalEvent::Ran { stdout: String::new(), stderr: String::new() },
        ],
    );
    assert_eq!(names(&asked), vec!["recent"]);
}

#[test]
fn an_owners_code_is_written_compiled_run_and_removed() {
    let (asked, end) = run_eval(
        OWNER,
        vec![
            EvalEvent::Begin,
            EvalEvent::Done,
            EvalEvent::Done,
            EvalEvent::Compiled { success: true, stderr: String::new() },
            EvalEvent::Done,
            EvalEvent::Ran { stdout: "hi".to_string(), stderr: String::new() },
            EvalEvent::Done,
            EvalEvent::Done,
        ],
    );
    assert_eq!(end, Some(Ok(())));
    assert_eq!(
        names(&asked),
        vec!["say", "write", "compile", "revise", "run", "revise", "clean"]
    );
    assert!(matches!(&asked[0], EvalAction::Say(text) if text == ":gear: Processing..."));
    assert!(matches!(&asked[1], EvalAction::Write(code) if code == "fn main() {}"));
    assert!(matches!(
        &asked[3],
        EvalAction::Revise(text)
            if text == "<:success:1310650176037453834> Compilation successful. Running the executable..."
    ));
    assert!(matches!(
        &asked[5],
        EvalAction::Revise(text)
            if text == "<:success:1310650176037453834> Exection successful\n\n**stdout**:\n```\nhi\n```"
    ));
}

#[test]
fn refused_code_is_not_run_and_the_files_are_removed() {
    let (asked, end) = run_eval(
        OWNER,
        vec![
            EvalEvent::Begin,
            EvalEvent::Done,
            EvalEvent::Done,
            EvalEvent::Compiled { success: false, stderr: "error[E0425]".to_string() },
            EvalEvent::Done,
            EvalEvent::Done,
        ],
    );
    assert_eq!(end, Some(Ok(())));
    assert_eq!(names(&asked), vec!["say", "write", "compile", "revise", "clean"]);
    assert!(matches!(
        &asked[3],
        EvalAction::Revise(text)
            if text == "<:error:1310650177056538655> Compilation failed:\n```\nerror[E0425]\n```"
    ));
}

#[test]
fn a_missing_compiler_is_reported_and_the_files_are_removed() {
    let (asked, end) = run_eval(
        OWNER,
        vec![
            EvalEvent::Begin,
            EvalEvent::Done,
            EvalEvent::Done,
            failed("not found"),
            EvalEvent::Done,
            EvalEvent::Done,
        ],
    );
    assert_eq!(end, Some(Ok(())));
    assert_eq!(names(&asked), vec!["say", "write", "compile", "revise", "clean"]);
    assert!(matches!(
        &asked[3],
        EvalAction::Revise(text)
            if text == "<:error:1310650177056538655> Error invoking rustc: not found"
    ));
}

#[test]
fn a_failed_write_is_reported_and_nothing_is_compiled() {
    let (asked, end) = run_eval(
        OWNER,
        vec![EvalEvent::Begin, EvalEvent::Done, failed("disk full"), EvalEvent::Done, EvalEvent::Done],
    );
    assert_eq!(end, Some(Ok(())));
    assert_eq!(names(&asked), vec!["say", "write", "revise", "clean"]);
    assert!(matches!(
        &asked[2],
        EvalAction::Revise(text)
            if text == "<:error:1310650177056538655> Error writing to file: disk full"
    ));
}

#[test]
fn a_program_that_does_not_start_is_reported() {
    let (asked, end) = run_eval(
        OWNER,
        vec![
            EvalEvent::Begin,
            EvalEvent::Done,
            EvalEvent::Done,
            EvalEvent::Compiled { success: true, stderr: String::new() },
            EvalEvent::Done,
            failed("permission denied"),
            EvalEvent::Done,
            EvalEvent::Done,
        ],
    );
    assert_eq!(end, Some(Ok(())));
    assert_eq!(
        names(&asked),
        vec!["say", "write", "compile", "revise", "run", "revise", "clean"]
    );
    assert!(matches!(
        &asked[5],
        EvalAction::Revise(text)
            if text == "<:error:1310650177056538655> Error running executable: permission denied"
    ));
}

#[test]
fn an_owner_who_cannot_be_told_of_the_start_gets_nothing_written() {
    let (asked, end) = run_eval(OWNER, vec![EvalEvent::Begin, failed("no reply")]);
    assert_eq!(end, Some(Err(WorkflowError::NotificationFailure)));
    assert_eq!(names(&asked), vec!["say"]);
}

#[test]
fn an_announcement_that_fails_stops_the_run_and_the_files_are_removed() {
    let (asked, end) = run_eval(
        OWNER,
        vec![
            EvalEvent::Begin,
            EvalEvent::Done,
            EvalEvent::Done,
            EvalEvent::Compiled { success: true, stderr: String::new() },
            failed("no edit"),
            EvalEvent::Done,
        ],
    );
    assert_eq!(end, Some(Err(WorkflowError::NotificationFailure)));
    assert_eq!(names(&asked), vec!["say", "write", "compile", "revise", "clean"]);
}

#[test]
fn a_report_that_fails_is_an_error_after_the_files_are_removed() {
    let (asked, end) = run_eval(
        OWNER,
        vec![
            EvalEvent::Begin,
            EvalEvent::Done,
            EvalEvent::Done,
            EvalEvent::Compiled { success: false, stderr: String::new() },
            failed("no edit"),
            EvalEvent::Done,
        ],
    );
    assert_eq!(end, Some(Err(WorkflowError::NotificationFailure)));
    assert_eq!(names(&asked).last(), Some(&"clean"));
}

#[test]
fn an_answer_that_makes_no_sense_is_an_error_after_the_files_are_removed() {
    let (asked, end) = run_eval(
        OWNER,
        vec![EvalEvent::Begin, EvalEvent::Done, EvalEvent::Done, EvalEvent::Done, EvalEvent::Done],
    );
    assert_eq!(end, Some(Err(WorkflowError::ExternalServiceFailure)));
    assert_eq!(names(&asked), vec!["say", "write", "compile", "clean"]);
}

#[test]
fn a_request_that_is_removing_its_files_ends_as_said() {
    for (ending, result) in [
        (Ending::Well, Ok(())),
        (Ending::Unsaid, Err(WorkflowError::NotificationFailure)),
        (Ending::Broken, Err(WorkflowError::ExternalServiceFailure)),
    ] {
        let flow = EvalFlow { stage: EvalStage::Cleaning(ending), code: String::new() };
        match eval_step(&owners(), OWNER, flow, EvalEvent::Done) {
            EvalStep::Finished(end) => assert_eq!(end, result),
            EvalStep::Next { action, .. } => panic!("went on with {:?}", action),
        }
    }
}

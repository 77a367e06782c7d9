use crate::error::WorkflowError;
use crate::text::begins_with;
use vstd::prelude::*;

verus! {

/// Whether `author` is among the `owners`, who alone may have code run.
pub fn is_owner(owners: &Vec<u64>, author: u64) -> (yes: bool)
    ensures
        yes == owners@.contains(author),
{
    let mut i: usize = 0;
    while i < owners.len()
        invariant
            i <= owners.len(),
            forall|k: int| 0 <= k < i ==> owners@[k] != author,
        decreases owners.len() - i,
    {
        if owners[i] == author {
            return true;
        }
        i += 1;
    }
    false
}

/// A message in a channel, as far as the search for a request reads it.
#[derive(Debug)]
pub struct ChatLine {
    pub author: u64,
    /// Whether the author is a bot.
    pub bot: bool,
    pub content: String,
}

/// Whether `line` is a request to run code that `author` wrote in person.
pub open spec fn is_request_of(line: ChatLine, author: u64) -> bool {
    !line.bot && "~eval"@.is_prefix_of(line.content@) && line.author == author
}

/// `at` is where the first of `lines` stands that is a request to run code
/// by `author`.
pub open spec fn is_first_request(lines: Seq<ChatLine>, author: u64, at: int) -> bool {
    &&& 0 <= at < lines.len()
    &&& is_request_of(lines[at], author)
    &&& forall|k: int| 0 <= k < at ==> !is_request_of(#[trigger] lines[k], author)
}

/// Where the first of `lines` stands that is a request to run code by
/// `author`, if there is one.
pub open spec fn first_request(lines: Seq<ChatLine>, author: u64) -> Option<int> {
    if exists|at: int| is_first_request(lines, author, at) {
        Some(choose|at: int| is_first_request(lines, author, at))
    } else {
        None
    }
}

/// The first of `lines` that is a request to run code by `author`, who may
/// not have code run: the request is to be deleted.
pub fn stray_request(lines: &Vec<ChatLine>, author: u64) -> (found: Option<usize>)
    ensures
        match found {
            Some(i) => Some(i as int),
            None => None,
        } == first_request(lines@, author),
        found matches Some(i) ==> is_first_request(lines@, author, i as int),
        found is None ==> forall|k: int|
            0 <= k < lines@.len() ==> !is_request_of(#[trigger] lines@[k], author),
{
    let mut i: usize = 0;
    while i < lines.len()
        invariant
            i <= lines.len(),
            forall|k: int| 0 <= k < i ==> !is_request_of(#[trigger] lines@[k], author),
        decreases lines.len() - i,
    {
        let line = &lines[i];
        if !line.bot && begins_with(line.content.as_str(), "~eval") && line.author == author {
            proof {
                assert(is_first_request(lines@, author, i as int));
                let chosen = choose|at: int| is_first_request(lines@, author, at);
                assert(is_first_request(lines@, author, chosen));
                if chosen < i {
                    assert(!is_request_of(lines@[chosen], author));
                } else if i < chosen {
                    assert(!is_request_of(lines@[i as int], author));
                }
            }
            return Some(i);
        }
        i += 1;
    }
    proof {
        assert forall|at: int| !is_first_request(lines@, author, at) by {
            if 0 <= at < lines@.len() {
                assert(!is_request_of(lines@[at], author));
            }
        }
    }
    None
}

/// How an attempt to build and run a piece of code went.
#[derive(Debug)]
pub enum Build {
    /// The code could not be written to a file; why.
    Unwritten(String),
    /// The compiler could not be started; why.
    NoCompiler(String),
    /// The compiler refused the code; what it printed.
    Rejected(String),
    /// The program could not be started; why.
    Unrunnable(String),
    /// The program ran; what it printed.
    Ran { stdout: String, stderr: String },
}

/// What a `Build` stands for.
pub enum BuildView {
    Unwritten(Seq<char>),
    NoCompiler(Seq<char>),
    Rejected(Seq<char>),
    Unrunnable(Seq<char>),
    Ran { stdout: Seq<char>, stderr: Seq<char> },
}

impl View for Build {
    type V = BuildView;

    open spec fn view(&self) -> BuildView {
        match *self {
            Build::Unwritten(why) => BuildView::Unwritten(why@),
            Build::NoCompiler(why) => BuildView::NoCompiler(why@),
            Build::Rejected(printed) => BuildView::Rejected(printed@),
            Build::Unrunnable(why) => BuildView::Unrunnable(why@),
            Build::Ran { stdout, stderr } => BuildView::Ran { stdout: stdout@, stderr: stderr@ },
        }
    }
}

/// What a program printed on one of its streams, under the stream's
/// heading and in a code block; nothing for a stream that stayed empty.
pub open spec fn stream_part(heading: Seq<char>, printed: Seq<char>) -> Seq<char> {
    if printed.len() == 0 {
        Seq::empty()
    } else {
        "\n\n**"@ + heading + "**:\n```\n"@ + printed + "\n```"@
    }
}

/// What the owner reads about how the code fared.
pub open spec fn eval_report(build: BuildView) -> Seq<char> {
    match build {
        BuildView::Unwritten(why) => "<:error:1310650177056538655> Error writing to file: "@ + why,
        BuildView::NoCompiler(why) => "<:error:1310650177056538655> Error invoking rustc: "@ + why,
        BuildView::Rejected(printed) => "<:error:1310650177056538655> Compilation failed:\n```\n"@
            + printed + "\n```"@,
        BuildView::Unrunnable(why) => "<:error:1310650177056538655> Error running executable: "@
            + why,
        BuildView::Ran { stdout, stderr } => "<:success:1310650176037453834> Exection successful"@
            + stream_part("stdout"@, stdout) + stream_part("stderr"@, stderr),
    }
}

fn append_stream(text: &mut String, heading: &str, printed: &str)
    ensures
        final(text)@ == old(text)@ + stream_part(heading@, printed@),
{
    let ghost before = text@;
    if printed.unicode_len() == 0 {
        assert(text@ =~= before + stream_part(heading@, printed@));
    } else {
        text.append("\n\n**");
        text.append(heading);
        text.append("**:\n```\n");
        text.append(printed);
        text.append("\n```");
        assert(text@ =~= before + stream_part(heading@, printed@));
    }
}

/// What the owner reads about how the code fared.
pub fn eval(build: &Build) -> (report: String)
    ensures
        report@ == eval_report(build@),
{
    match build {
        Build::Unwritten(why) => {
            let mut text = String::from_str("<:error:1310650177056538655> Error writing to file: ");
            text.append(why.as_str());
            text
        },
        Build::NoCompiler(why) => {
            let mut text = String::from_str("<:error:1310650177056538655> Error invoking rustc: ");
            text.append(why.as_str());
            text
        },
        Build::Rejected(printed) => {
            let mut text = String::from_str(
                "<:error:1310650177056538655> Compilation failed:\n```\n",
            );
            text.append(printed.as_str());
            text.append("\n```");
            text
        },
        Build::Unrunnable(why) => {
            let mut text = String::from_str(
                "<:error:1310650177056538655> Error running executable: ",
            );
            text.append(why.as_str());
            text
        },
        Build::Ran { stdout, stderr } => {
            let mut text = String::from_str("<:success:1310650176037453834> Exection successful");
            append_stream(&mut text, "stdout", stdout.as_str());
            append_stream(&mut text, "stderr", stderr.as_str());
            text
        },
    }
}

/// What the owner reads while the code is being built.
pub fn eval_started() -> (text: String)
    ensures
        text@ == ":gear: Processing..."@,
{
    String::from_str(":gear: Processing...")
}

/// What the owner reads when the code was compiled and is about to run.
pub fn eval_compiled() -> (text: String)
    ensures
        text@ == "<:success:1310650176037453834> Compilation successful. Running the executable..."@,
{
    String::from_str(
        "<:success:1310650176037453834> Compilation successful. Running the executable...",
    )
}

/// How a request to run code ends.
#[derive(Clone, Copy, Debug, PartialEq, Eq, Structural)]
pub enum Ending {
    /// Well.
    Well,
    /// A reply to the one who asked did not get through.
    Unsaid,
    /// The platform or the machine gave an answer that makes no sense.
    Broken,
}

/// The result that an ending stands for.
pub open spec fn ending_result(ending: Ending) -> Result<(), WorkflowError> {
    match ending {
        Ending::Well => Ok(()),
        Ending::Unsaid => Err(WorkflowError::NotificationFailure),
        Ending::Broken => Err(WorkflowError::ExternalServiceFailure),
    }
}

/// How far a request to run code has come.
#[derive(Clone, Copy, Debug, PartialEq, Eq, Structural)]
pub enum EvalStage {
    /// Nothing was done yet.
    Start,
    /// The author may not have code run; the channel's last lines are being
    /// read.
    Searching,
    /// The author's request is being deleted.
    Deleting,
    /// The owner is being told that the work has begun.
    Greeting,
    /// The code is being written to a file.
    Writing,
    /// The file is being compiled.
    Compiling,
    /// The owner is being told that the code compiled.
    Announcing,
    /// The program is running.
    Running,
    /// The owner is being told how the code fared.
    Reporting,
    /// The files are being removed; the request then ends as said.
    Cleaning(Ending),
}

/// A request to run code under way.
#[derive(Debug)]
pub struct EvalFlow {
    pub stage: EvalStage,
    pub code: String,
}

/// What an `EvalFlow` stands for.
pub struct EvalFlowView {
    pub stage: EvalStage,
    pub code: Seq<char>,
}

impl View for EvalFlow {
    type V = EvalFlowView;

    open spec fn view(&self) -> EvalFlowView {
        EvalFlowView { stage: self.stage, code: self.code@ }
    }
}

impl EvalFlow {
    /// A request to run `code` that has not begun.
    pub fn new(code: String) -> (flow: EvalFlow)
        ensures
            flow@ == (EvalFlowView { stage: EvalStage::Start, code: code@ }),
    {
        EvalFlow { stage: EvalStage::Start, code }
    }
}

/// What a request to run code asks for next.
#[derive(Debug)]
pub enum EvalAction {
    /// Read the last `limit` lines of the channel.
    Recent { limit: u8 },
    /// Delete the line that stands at `line` among those that were read.
    Delete { line: usize },
    /// Say this to the one who asked.
    Say(String),
    /// Put this in the place of what was said before.
    Revise(String),
    /// Write this code to the source file.
    Write(String),
    /// Compile the source file.
    Compile,
    /// Run the program.
    Run,
    /// Remove the source file and the program.
    Clean,
}

/// What an `EvalAction` stands for.
pub enum EvalActionView {
    Recent { limit: u8 },
    Delete { line: int },
    Say(Seq<char>),
    Revise(Seq<char>),
    Write(Seq<char>),
    Compile,
    Run,
    Clean,
}

impl View for EvalAction {
    type V = EvalActionView;

    open spec fn view(&self) -> EvalActionView {
        match *self {
            EvalAction::Recent { limit } => EvalActionView::Recent { limit },
            EvalAction::Delete { line } => EvalActionView::Delete { line: line as int },
            EvalAction::Say(text) => EvalActionView::Say(text@),
            EvalAction::Revise(text) => EvalActionView::Revise(text@),
            EvalAction::Write(code) => EvalActionView::Write(code@),
            EvalAction::Compile => EvalActionView::Compile,
            EvalAction::Run => EvalActionView::Run,
            EvalAction::Clean => EvalActionView::Clean,
        }
    }
}

/// What came of the last action.
#[derive(Debug)]
pub enum EvalEvent {
    /// Nothing was asked yet.
    Begin,
    /// The lines that were read, newest first.
    Lines(Vec<ChatLine>),
    /// The action was carried out.
    Done,
    /// The action could not be carried out; why.
    Failed(String),
    /// The compiler ran; whether it accepted the code, and what it printed.
    Compiled { success: bool, stderr: String },
    /// The program ran; what it printed.
    Ran { stdout: String, stderr: String },
}

/// What an `EvalEvent` stands for.
pub enum EvalEventView {
    Begin,
    Lines(Seq<ChatLine>),
    Done,
    Failed(Seq<char>),
    Compiled { success: bool, stderr: Seq<char> },
    Ran { stdout: Seq<char>, stderr: Seq<char> },
}

impl View for EvalEvent {
    type V = EvalEventView;

    open spec fn view(&self) -> EvalEventView {
        match *self {
            EvalEvent::Begin => EvalEventView::Begin,
            EvalEvent::Lines(lines) => EvalEventView::Lines(lines@),
            EvalEvent::Done => EvalEventView::Done,
            EvalEvent::Failed(why) => EvalEventView::Failed(why@),
            EvalEvent::Compiled { success, stderr } => EvalEventView::Compiled {
                success,
                stderr: stderr@,
            },
            EvalEvent::Ran { stdout, stderr } => EvalEventView::Ran {
                stdout: stdout@,
                stderr: stderr@,
            },
        }
    }
}

/// A request to run code after one step.
#[derive(Debug)]
pub enum EvalStep {
    /// It goes on, and asks for an action.
    Next { flow: EvalFlow, action: EvalAction },
    /// It has ended.
    Finished(Result<(), WorkflowError>),
}

/// What an `EvalStep` stands for.
pub enum EvalStepView {
    Next { flow: EvalFlowView, action: EvalActionView },
    Finished(Result<(), WorkflowError>),
}

impl View for EvalStep {
    type V = EvalStepView;

    open spec fn view(&self) -> EvalStepView {
        match *self {
            EvalStep::Next { flow, action } => EvalStepView::Next { flow: flow@, action: action@ },
            EvalStep::Finished(result) => EvalStepView::Finished(result),
        }
    }
}

/// The request goes on at `stage` and asks for `action`.
pub open spec fn onward(flow: EvalFlowView, stage: EvalStage, action: EvalActionView) -> EvalStepView {
    EvalStepView::Next { flow: EvalFlowView { stage, ..flow }, action }
}

/// The files are removed, and the request then ends as `ending` says.
pub open spec fn clean_up(flow: EvalFlowView, ending: Ending) -> EvalStepView {
    onward(flow, EvalStage::Cleaning(ending), EvalActionView::Clean)
}

/// The owner is told `report`; the files are removed after that.
pub open spec fn report(flow: EvalFlowView, build: BuildView) -> EvalStepView {
    onward(flow, EvalStage::Reporting, EvalActionView::Revise(eval_report(build)))
}

/// One step of a request by `author` to run code.
///
/// For an author who is no owner, the channel's last hundred lines are read
/// and the first of them that is a request by the author in person is
/// deleted; nothing else is done, and nothing is said. For an owner, the
/// work is announced, the code written to a file and compiled; the program
/// is run only when the compiler accepted the code and the owner was told
/// so; the owner is told how the code fared. Once the writing was asked
/// for, the request ends only after the files were removed, whatever went
/// wrong in between.
pub open spec fn eval_model(
    owners: Seq<u64>,
    author: u64,
    flow: EvalFlowView,
    event: EvalEventView,
) -> EvalStepView {
    match flow.stage {
        EvalStage::Start => if owners.contains(author) {
            onward(flow, EvalStage::Greeting, EvalActionView::Say(":gear: Processing..."@))
        } else {
            onward(flow, EvalStage::Searching, EvalActionView::Recent { limit: 100 })
        },
        EvalStage::Searching => match event {
            EvalEventView::Lines(lines) => match first_request(lines, author) {
                Some(line) => onward(flow, EvalStage::Deleting, EvalActionView::Delete { line }),
                None => EvalStepView::Finished(Ok(())),
            },
            _ => EvalStepView::Finished(Err(WorkflowError::ExternalServiceFailure)),
        },
        EvalStage::Deleting => EvalStepView::Finished(Ok(())),
        EvalStage::Greeting => if event is Done {
            onward(flow, EvalStage::Writing, EvalActionView::Write(flow.code))
        } else {
            EvalStepView::Finished(Err(WorkflowError::NotificationFailure))
        },
        EvalStage::Writing => match event {
            EvalEventView::Done => onward(flow, EvalStage::Compiling, EvalActionView::Compile),
            EvalEventView::Failed(why) => report(flow, BuildView::Unwritten(why)),
            _ => clean_up(flow, Ending::Broken),
        },
        EvalStage::Compiling => match event {
            EvalEventView::Compiled { success, stderr } => if success {
                onward(
                    flow,
                    EvalStage::Announcing,
                    EvalActionView::Revise(
                        "<:success:1310650176037453834> Compilation successful. Running the executable..."@,
                    ),
                )
            } else {
                report(flow, BuildView::Rejected(stderr))
            },
            EvalEventView::Failed(why) => report(flow, BuildView::NoCompiler(why)),
            _ => clean_up(flow, Ending::Broken),
        },
        EvalStage::Announcing => if event is Done {
            onward(flow, EvalStage::Running, EvalActionView::Run)
        } else {
            clean_up(flow, Ending::Unsaid)
        },
        EvalStage::Running => match event {
            EvalEventView::Ran { stdout, stderr } => report(flow, BuildView::Ran { stdout, stderr }),
            EvalEventView::Failed(why) => report(flow, BuildView::Unrunnable(why)),
            _ => clean_up(flow, Ending::Broken),
        },
        EvalStage::Reporting => if event is Done {
            clean_up(flow, Ending::Well)
        } else {
            clean_up(flow, Ending::Unsaid)
        },
        EvalStage::Cleaning(ending) => EvalStepView::Finished(ending_result(ending)),
    }
}

fn go_on(code: String, stage: EvalStage, action: EvalAction) -> (step: EvalStep)
    ensures
        step@ == (EvalStepView::Next {
            flow: EvalFlowView { stage, code: code@ },
            action: action@,
        }),
{
    EvalStep::Next { flow: EvalFlow { stage, code }, action }
}

fn tell(code: String, build: Build) -> (step: EvalStep)
    ensures
        step@ == report(EvalFlowView { stage: EvalStage::Start, code: code@ }, build@),
{
    let text = eval(&build);
    go_on(code, EvalStage::Reporting, EvalAction::Revise(text))
}

/// One step of a request by `author` to run code.
pub fn eval_step(owners: &Vec<u64>, author: u64, flow: EvalFlow, event: EvalEvent) -> (next:
    EvalStep)
    ensures
        next@ == eval_model(owners@, author, flow@, event@),
{
    let EvalFlow { stage, code } = flow;
    match stage {
        EvalStage::Start => {
            if is_owner(owners, author) {
                go_on(code, EvalStage::Greeting, EvalAction::Say(eval_started()))
            } else {
                go_on(code, EvalStage::Searching, EvalAction::Recent { limit: 100 })
            }
        },
        EvalStage::Searching => match event {
            EvalEvent::Lines(lines) => match stray_request(&lines, author) {
                Some(line) => go_on(code, EvalStage::Deleting, EvalAction::Delete { line }),
                None => EvalStep::Finished(Ok(())),
            },
            _ => EvalStep::Finished(Err(WorkflowError::ExternalServiceFailure)),
        },
        EvalStage::Deleting => EvalStep::Finished(Ok(())),
        EvalStage::Greeting => match event {
            EvalEvent::Done => {
                let written = code.clone();
                go_on(code, EvalStage::Writing, EvalAction::Write(written))
            },
            _ => EvalStep::Finished(Err(WorkflowError::NotificationFailure)),
        },
        EvalStage::Writing => match event {
            EvalEvent::Done => go_on(code, EvalStage::Compiling, EvalAction::Compile),
            EvalEvent::Failed(why) => tell(code, Build::Unwritten(why)),
            _ => go_on(code, EvalStage::Cleaning(Ending::Broken), EvalAction::Clean),
        },
        EvalStage::Compiling => match event {
            EvalEvent::Compiled { success, stderr } => {
                if success {
                    go_on(code, EvalStage::Announcing, EvalAction::Revise(eval_compiled()))
                } else {
                    tell(code, Build::Rejected(stderr))
                }
            },
            EvalEvent::Failed(why) => tell(code, Build::NoCompiler(why)),
            _ => go_on(code, EvalStage::Cleaning(Ending::Broken), EvalAction::Clean),
        },
        EvalStage::Announcing => match event {
            EvalEvent::Done => go_on(code, EvalStage::Running, EvalAction::Run),
            _ => go_on(code, EvalStage::Cleaning(Ending::Unsaid), EvalAction::Clean),
        },
        EvalStage::Running => match event {
            EvalEvent::Ran { stdout, stderr } => tell(code, Build::Ran { stdout, stderr }),
            EvalEvent::Failed(why) => tell(code, Build::Unrunnable(why)),
            _ => go_on(code, EvalStage::Cleaning(Ending::Broken), EvalAction::Clean),
        },
        EvalStage::Reporting => match event {
            EvalEvent::Done => go_on(code, EvalStage::Cleaning(Ending::Well), EvalAction::Clean),
            _ => go_on(code, EvalStage::Cleaning(Ending::Unsaid), EvalAction::Clean),
        },
        EvalStage::Cleaning(ending) => match ending {
            Ending::Well => EvalStep::Finished(Ok(())),
            Ending::Unsaid => EvalStep::Finished(Err(WorkflowError::NotificationFailure)),
            Ending::Broken => EvalStep::Finished(Err(WorkflowError::ExternalServiceFailure)),
        },
    }
}

} // verus!

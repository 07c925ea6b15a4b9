use vstd::prelude::*;
use crate::names::{EnvKey, Tool, Hint};
use crate::error::{OpsError, ErrorView};
use crate::text::string_views;
use vstd::utf8::encode_utf8;

verus! {

/// The program a command runs.
#[derive(Clone, Copy, Debug, PartialEq, Eq, Structural)]
pub enum Program {
    /// The tool's executable, installed next to this tool's own executable.
    Tool(Tool),
    /// `git`, found on the search path.
    Git,
}

/// A program with its arguments.
pub struct Command {
    pub program: Program,
    pub args: Vec<String>,
}

pub struct CommandView {
    pub program: Program,
    pub args: Seq<Seq<char>>,
}

impl View for Command {
    type V = CommandView;

    open spec fn view(&self) -> CommandView {
        CommandView { program: self.program, args: string_views(self.args@) }
    }
}

/// How a finished process exited.
#[derive(Clone, Copy, Debug, PartialEq, Eq)]
pub struct ExitStatus {
    pub success: bool,
    pub code: Option<i32>,
}

/// A finished process's exit status and standard output.
pub struct ProbeOutput {
    pub status: ExitStatus,
    pub stdout: Vec<u8>,
}

/// An object-storage bucket and the credentials to reach it.
pub struct BucketParams {
    pub root: String,
    pub access_key_id: String,
    pub access_key_secret: String,
    pub bucket: String,
    pub endpoint: String,
    /// Objects are stored with a content type guessed from their names.
    pub guess_mime: bool,
}

pub struct BucketView {
    pub root: Seq<char>,
    pub access_key_id: Seq<char>,
    pub access_key_secret: Seq<char>,
    pub bucket: Seq<char>,
    pub endpoint: Seq<char>,
    pub guess_mime: bool,
}

impl View for BucketParams {
    type V = BucketView;

    open spec fn view(&self) -> BucketView {
        BucketView {
            root: self.root@,
            access_key_id: self.access_key_id@,
            access_key_secret: self.access_key_secret@,
            bucket: self.bucket@,
            endpoint: self.endpoint@,
            guess_mime: self.guess_mime,
        }
    }
}

/// The outside work an operation asks for next. Paths are relative to the
/// current directory unless said otherwise.
pub enum Action {
    /// Read an environment variable; answered by `Event::Env`.
    ReadEnv(EnvKey),
    /// Run a command and capture its output; answered by `Event::Probed`.
    Probe(Command),
    /// Run a command and wait for it; answered by `Event::Exited`.
    Run(Command),
    /// Connect to the system service of the tool; answered by `Event::Done`.
    ConnectService(Tool),
    /// Stop the connected service; answered by `Event::Done`.
    StopService,
    /// Start the connected service; answered by `Event::Done`.
    StartService,
    /// Fetch a URL; answered by `Event::Fetched`.
    Download(String),
    /// Write a file next to this tool's own executable; answered by `Event::Done`.
    InstallTool(String, Vec<u8>),
    /// Make the file next to this tool's own executable executable; answered by `Event::Done`.
    MakeExecutable(String),
    /// Write a file; answered by `Event::Done`.
    WriteFile(String, Vec<u8>),
    /// Remove a directory tree if there is one; answered by `Event::Done`.
    RemoveDirIfPresent(String),
    /// Remove a directory tree; answered by `Event::Done`.
    RemoveDir(String),
    /// Change the current directory; answered by `Event::Done`.
    ChangeDir(String),
    /// Copy a directory into another; answered by `Event::Done`.
    CopyDir(String, String),
    /// Whether a path is a regular file; answered by `Event::Flag`.
    IsFile(String),
    /// Read a file; answered by `Event::Fetched`.
    ReadFile(String),
    /// Open a bucket for the object actions that follow; answered by `Event::Done`.
    OpenBucket(BucketParams),
    /// Store an object; answered by `Event::Done`.
    PutObject(String, Vec<u8>),
    /// Store, under the key, the configuration that names only this Caddy
    /// version, as pretty TOML; answered by `Event::Done`.
    PutVersionConfig(String, String),
    /// Fetch an object; answered by `Event::Fetched`.
    GetObject(String),
    /// Upload these files of the current directory; answered by `Event::Done`.
    PutFiles(Vec<String>),
    /// Upload a directory of the current directory; answered by `Event::Done`.
    SyncDir(String),
    /// Announce a command in the log with this line, in which secrets are
    /// masked; answered by `Event::Done`.
    Log(String),
    /// The operation is over, with this outcome.
    Finish(Result<(), OpsError>),
}

pub enum ActionView {
    ReadEnv(EnvKey),
    Probe(CommandView),
    Run(CommandView),
    ConnectService(Tool),
    StopService,
    StartService,
    Download(Seq<char>),
    InstallTool(Seq<char>, Seq<u8>),
    MakeExecutable(Seq<char>),
    WriteFile(Seq<char>, Seq<u8>),
    RemoveDirIfPresent(Seq<char>),
    RemoveDir(Seq<char>),
    ChangeDir(Seq<char>),
    CopyDir(Seq<char>, Seq<char>),
    IsFile(Seq<char>),
    ReadFile(Seq<char>),
    OpenBucket(BucketView),
    PutObject(Seq<char>, Seq<u8>),
    PutVersionConfig(Seq<char>, Seq<char>),
    GetObject(Seq<char>),
    PutFiles(Seq<Seq<char>>),
    SyncDir(Seq<char>),
    Log(Seq<char>),
    Finish(Result<(), ErrorView>),
}

impl View for Action {
    type V = ActionView;

    open spec fn view(&self) -> ActionView {
        match self {
            Action::ReadEnv(k) => ActionView::ReadEnv(*k),
            Action::Probe(c) => ActionView::Probe(c@),
            Action::Run(c) => ActionView::Run(c@),
            Action::ConnectService(t) => ActionView::ConnectService(*t),
            Action::StopService => ActionView::StopService,
            Action::StartService => ActionView::StartService,
            Action::Download(u) => ActionView::Download(u@),
            Action::InstallTool(n, b) => ActionView::InstallTool(n@, b@),
            Action::MakeExecutable(n) => ActionView::MakeExecutable(n@),
            Action::WriteFile(p, b) => ActionView::WriteFile(p@, b@),
            Action::RemoveDirIfPresent(p) => ActionView::RemoveDirIfPresent(p@),
            Action::RemoveDir(p) => ActionView::RemoveDir(p@),
            Action::ChangeDir(p) => ActionView::ChangeDir(p@),
            Action::CopyDir(f, t) => ActionView::CopyDir(f@, t@),
            Action::IsFile(p) => ActionView::IsFile(p@),
            Action::ReadFile(p) => ActionView::ReadFile(p@),
            Action::OpenBucket(b) => ActionView::OpenBucket(b@),
            Action::PutObject(k, b) => ActionView::PutObject(k@, b@),
            Action::PutVersionConfig(k, v) => ActionView::PutVersionConfig(k@, v@),
            Action::GetObject(k) => ActionView::GetObject(k@),
            Action::PutFiles(f) => ActionView::PutFiles(string_views(f@)),
            Action::SyncDir(d) => ActionView::SyncDir(d@),
            Action::Log(l) => ActionView::Log(l@),
            Action::Finish(r) => ActionView::Finish(
                match r {
                    Ok(()) => Ok(()),
                    Err(e) => Err(e@),
                },
            ),
        }
    }
}

/// The answer to an action.
pub enum Event {
    Env(Option<String>),
    Probed(Option<ProbeOutput>),
    Exited(Result<ExitStatus, String>),
    Done(Result<(), String>),
    Fetched(Result<Vec<u8>, String>),
    Flag(bool),
}

pub enum EventView {
    Env(Option<Seq<char>>),
    Probed(Option<(ExitStatus, Seq<u8>)>),
    Exited(Result<ExitStatus, Seq<char>>),
    Done(Result<(), Seq<char>>),
    Fetched(Result<Seq<u8>, Seq<char>>),
    Flag(bool),
}

impl View for Event {
    type V = EventView;

    open spec fn view(&self) -> EventView {
        match self {
            Event::Env(v) => EventView::Env(
                match v {
                    Some(s) => Some(s@),
                    None => None,
                },
            ),
            Event::Probed(p) => EventView::Probed(
                match p {
                    Some(o) => Some((o.status, o.stdout@)),
                    None => None,
                },
            ),
            Event::Exited(r) => EventView::Exited(
                match r {
                    Ok(s) => Ok(*s),
                    Err(m) => Err(m@),
                },
            ),
            Event::Done(r) => EventView::Done(
                match r {
                    Ok(()) => Ok(()),
                    Err(m) => Err(m@),
                },
            ),
            Event::Fetched(r) => EventView::Fetched(
                match r {
                    Ok(b) => Ok(b@),
                    Err(m) => Err(m@),
                },
            ),
            Event::Flag(b) => EventView::Flag(*b),
        }
    }
}

/// Which kind of event answers the pending action.
#[derive(Clone, Copy, Debug, PartialEq, Eq, Structural)]
pub enum EventKind {
    Env,
    Probed,
    Exited,
    Done,
    Fetched,
    Flag,
    /// The operation is over; no event is expected.
    Over,
}

pub open spec fn event_kind(e: EventView) -> EventKind {
    match e {
        EventView::Env(_) => EventKind::Env,
        EventView::Probed(_) => EventKind::Probed,
        EventView::Exited(_) => EventKind::Exited,
        EventView::Done(_) => EventKind::Done,
        EventView::Fetched(_) => EventKind::Fetched,
        EventView::Flag(_) => EventKind::Flag,
    }
}

/// The kind of event that answers an action.
pub open spec fn answer_kind(a: ActionView) -> EventKind {
    match a {
        ActionView::ReadEnv(_) => EventKind::Env,
        ActionView::Probe(_) => EventKind::Probed,
        ActionView::Run(_) => EventKind::Exited,
        ActionView::Download(_) | ActionView::ReadFile(_) | ActionView::GetObject(_) => EventKind::Fetched,
        ActionView::IsFile(_) => EventKind::Flag,
        ActionView::Finish(_) => EventKind::Over,
        _ => EventKind::Done,
    }
}

impl Event {
    /// The kind of this event.
    pub fn kind(&self) -> (res: EventKind)
        ensures
            res == event_kind(self@),
    {
        match self {
            Event::Env(_) => EventKind::Env,
            Event::Probed(_) => EventKind::Probed,
            Event::Exited(_) => EventKind::Exited,
            Event::Done(_) => EventKind::Done,
            Event::Fetched(_) => EventKind::Fetched,
            Event::Flag(_) => EventKind::Flag,
        }
    }
}

impl Action {
    /// The kind of event that answers this action.
    pub fn answer(&self) -> (res: EventKind)
        ensures
            res == answer_kind(self@),
    {
        match self {
            Action::ReadEnv(_) => EventKind::Env,
            Action::Probe(_) => EventKind::Probed,
            Action::Run(_) => EventKind::Exited,
            Action::Download(_) | Action::ReadFile(_) | Action::GetObject(_) => EventKind::Fetched,
            Action::IsFile(_) => EventKind::Flag,
            Action::Finish(_) => EventKind::Over,
            _ => EventKind::Done,
        }
    }
}

/// How the answer to a step of a script is judged.
#[derive(Clone, Copy, Debug, PartialEq, Eq, Structural)]
pub enum Check {
    /// The work must have succeeded.
    Done,
    /// The command must have exited successfully; a failure is reported under the hint.
    Status(Hint),
    /// A `git commit`: when it exits unsuccessfully there was nothing to
    /// commit, and the step after it (the push) is skipped.
    Commit,
}

/// A step of a script: an action and how its answer is judged.
pub struct Step {
    pub action: Action,
    pub check: Check,
}

pub struct StepView {
    pub action: ActionView,
    pub check: Check,
}

impl View for Step {
    type V = StepView;

    open spec fn view(&self) -> StepView {
        StepView { action: self.action@, check: self.check }
    }
}

pub open spec fn steps_view(steps: Seq<Step>) -> Seq<StepView> {
    steps.map_values(|s: Step| s@)
}

/// The kind of event a check judges.
pub open spec fn check_kind(c: Check) -> EventKind {
    match c {
        Check::Done => EventKind::Done,
        _ => EventKind::Exited,
    }
}

/// The outcome of a command that was waited for: success, or the failure reported under the hint.
pub open spec fn status_outcome(s: ExitStatus, h: Hint) -> Result<(), ErrorView> {
    if s.success {
        Ok(())
    } else {
        Err(ErrorView::CommandFailed(h, s.code))
    }
}

/// Judges the answer to a step: the failure it reports, or how many of the
/// following steps to skip.
pub open spec fn verdict(c: Check, e: EventView) -> Result<nat, ErrorView> {
    match (c, e) {
        (Check::Done, EventView::Done(Ok(()))) => Ok(0),
        (Check::Done, EventView::Done(Err(m))) => Err(ErrorView::Other(m)),
        (Check::Status(h), EventView::Exited(Ok(s))) => match status_outcome(s, h) {
            Ok(()) => Ok(0),
            Err(err) => Err(err),
        },
        (Check::Commit, EventView::Exited(Ok(s))) => if s.success { Ok(0) } else { Ok(1) },
        (_, EventView::Exited(Err(m))) => Err(ErrorView::Other(m)),
        // An answer of another kind is ruled out by the precondition on event kinds.
        _ => Err(ErrorView::Todo),
    }
}

/// What running a script gives after the answer to its current step.
pub enum Advance {
    Failed(OpsError),
    Next(Action, Check),
    Finished,
}

pub enum AdvanceView {
    Failed(ErrorView),
    Next(ActionView, Check),
    Finished,
}

impl View for Advance {
    type V = AdvanceView;

    open spec fn view(&self) -> AdvanceView {
        match self {
            Advance::Failed(e) => AdvanceView::Failed(e@),
            Advance::Next(a, c) => AdvanceView::Next(a@, *c),
            Advance::Finished => AdvanceView::Finished,
        }
    }
}

/// The remaining steps after dropping up to `n` of them.
pub open spec fn skip_steps(rest: Seq<StepView>, n: nat) -> Seq<StepView> {
    if n <= rest.len() { rest.skip(n as int) } else { Seq::empty() }
}

/// Running a script: judge the answer to the current step; on failure stop
/// there; otherwise skip what the verdict says and take the next step, or
/// finish when none is left.
pub open spec fn advance_spec(rest: Seq<StepView>, c: Check, e: EventView) -> (Seq<StepView>, AdvanceView) {
    match verdict(c, e) {
        Err(err) => (rest, AdvanceView::Failed(err)),
        Ok(n) => {
            let r = skip_steps(rest, n);
            if r.len() == 0 {
                (r, AdvanceView::Finished)
            } else {
                (r.drop_first(), AdvanceView::Next(r[0].action, r[0].check))
            }
        },
    }
}

/// The outcome of a command that was waited for: success, or
/// `CommandFailed` with the hint and the exit code.
pub fn check_status(status: ExitStatus, hint: Hint) -> (res: Result<(), OpsError>)
    ensures
        match res {
            Ok(()) => status_outcome(status, hint) == Ok::<(), ErrorView>(()),
            Err(e) => status_outcome(status, hint) == Err::<(), ErrorView>(e@),
        },
{
    if status.success {
        Ok(())
    } else {
        Err(OpsError::CommandFailed(hint, status.code))
    }
}

/// Runs a script one answer further (see `advance_spec`).
pub fn advance(c: Check, rest: &mut Vec<Step>, event: Event) -> (res: Advance)
    requires
        event_kind(event@) == check_kind(c),
    ensures
        (steps_view(final(rest)@), res@) == advance_spec(steps_view(old(rest)@), c, event@),
{
    let ghost old_view = steps_view(rest@);
    let skip: usize = match (c, event) {
        (Check::Done, Event::Done(Ok(()))) => 0,
        (Check::Done, Event::Done(Err(m))) => { return Advance::Failed(OpsError::Other(m)); },
        (Check::Status(h), Event::Exited(Ok(s))) => {
            match check_status(s, h) {
                Ok(()) => 0,
                Err(e) => { return Advance::Failed(e); },
            }
        },
        (Check::Commit, Event::Exited(Ok(s))) => if s.success { 0 } else { 1 },
        (_, Event::Exited(Err(m))) => { return Advance::Failed(OpsError::Other(m)); },
        // An answer of another kind is ruled out by the precondition on event kinds.
        _ => { return Advance::Failed(OpsError::Todo); },
    };
    if skip == 1 && rest.len() > 0 {
        rest.remove(0);
        assert(steps_view(rest@) =~= old_view.skip(1));
    } else if skip == 1 {
        assert(steps_view(rest@) =~= Seq::<StepView>::empty());
    } else {
        assert(steps_view(rest@) =~= old_view.skip(0));
    }
    if rest.len() == 0 {
        Advance::Finished
    } else {
        let ghost before = steps_view(rest@);
        let step = rest.remove(0);
        assert(steps_view(rest@) =~= before.drop_first());
        Advance::Next(step.action, step.check)
    }
}

/// One string.
pub fn strings1(a: &str) -> (res: Vec<String>)
    ensures
        string_views(res@) == seq![a@],
{
    let mut v: Vec<String> = Vec::new();
    v.push(a.to_owned());
    assert(string_views(v@) =~= seq![a@]);
    v
}

/// Two strings, in order.
pub fn strings2(a: &str, b: &str) -> (res: Vec<String>)
    ensures
        string_views(res@) == seq![a@, b@],
{
    let mut v: Vec<String> = Vec::new();
    v.push(a.to_owned());
    v.push(b.to_owned());
    assert(string_views(v@) =~= seq![a@, b@]);
    v
}

/// Three strings, in order.
pub fn strings3(a: &str, b: &str, c: &str) -> (res: Vec<String>)
    ensures
        string_views(res@) == seq![a@, b@, c@],
{
    let mut v: Vec<String> = Vec::new();
    v.push(a.to_owned());
    v.push(b.to_owned());
    v.push(c.to_owned());
    assert(string_views(v@) =~= seq![a@, b@, c@]);
    v
}

/// The UTF-8 bytes of a text.
pub fn text_bytes(s: &String) -> (res: Vec<u8>)
    ensures
        res@ == encode_utf8(s@),
{
    vstd::slice::slice_to_vec(s.as_str().as_bytes())
}

/// `git` with arguments.
pub open spec fn git(args: Seq<Seq<char>>) -> CommandView {
    CommandView { program: Program::Git, args }
}

/// A step of a script.
pub open spec fn step(action: ActionView, check: Check) -> StepView {
    StepView { action, check }
}

/// No step of the script ends the operation.
pub open spec fn no_finish(rest: Seq<StepView>) -> bool {
    forall|i: int| 0 <= i < rest.len() ==> !(#[trigger] rest[i].action is Finish)
}

/// Running a script never hands out a `Finish`, and what is left of the
/// script still holds none.
pub proof fn advance_keeps_no_finish(rest: Seq<StepView>, c: Check, e: EventView)
    requires
        no_finish(rest),
    ensures
        no_finish(advance_spec(rest, c, e).0),
        advance_spec(rest, c, e).1 matches AdvanceView::Next(a, _) ==> !(a is Finish),
{
    match verdict(c, e) {
        Err(_) => {},
        Ok(n) => {
            let r = skip_steps(rest, n);
            assert forall|i: int| 0 <= i < r.len() implies !(#[trigger] r[i].action is Finish) by {
                assert(r[i] == rest[i + n]);
            };
            if r.len() > 0 {
                assert forall|i: int| 0 <= i < r.drop_first().len() implies !(#[trigger] r.drop_first()[i].action is Finish) by {
                    assert(r.drop_first()[i] == r[i + 1]);
                };
            }
        },
    }
}

} // verus!

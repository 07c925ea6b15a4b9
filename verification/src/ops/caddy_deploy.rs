use vstd::prelude::*;
use vstd::utf8::encode_utf8;
use crate::config::Config;
use crate::error::{OpsError, ErrorView};
use crate::names::{Section, EnvKey, Hint};
use crate::ops::caddy::{get_config, caddy_valid, caddyfile_text};
use crate::plan::{
    Action, ActionView, Event, EventView, EventKind, Command, Program, BucketParams, BucketView, Step,
    StepView, Check, Advance, AdvanceView, advance, advance_spec, steps_view, check_kind, event_kind,
    strings1, strings2, strings3, text_bytes, git, step, no_finish, advance_keeps_no_finish,
};
use crate::text::string_views;

verus! {

/// Where a Caddy deploy stands.
#[derive(Clone, Copy, Debug, PartialEq, Eq, Structural)]
pub enum CaddyDeployStage {
    /// Reading the `n`-th credential from the environment.
    Env(usize),
    /// Running the publishing script; its current step is judged so.
    Script(Check),
    /// Asking whether `sync.toml` exists.
    CheckingSync,
    /// Reading `sync.toml`.
    ReadingSync,
    /// Uploading `sync.toml`.
    PuttingSync,
    Over,
}

/// A deploy of the Caddy configuration: it reads the bucket credentials
/// from the environment, writes and commits the generated Caddyfile, pushes
/// it when there was a change, and uploads the Caddyfile, a configuration
/// holding only the Caddy version, and `sync.toml` if there is one.
pub struct CaddyDeploy {
    pub version: String,
    pub root: String,
    pub caddyfile: Result<String, OpsError>,
    pub values: Vec<String>,
    pub rest: Vec<Step>,
    pub stage: CaddyDeployStage,
}

pub struct CaddyDeployView {
    pub version: Seq<char>,
    pub root: Seq<char>,
    pub caddyfile: Result<Seq<char>, ErrorView>,
    pub values: Seq<Seq<char>>,
    pub rest: Seq<StepView>,
    pub stage: CaddyDeployStage,
}

impl View for CaddyDeploy {
    type V = CaddyDeployView;

    open spec fn view(&self) -> CaddyDeployView {
        CaddyDeployView {
            version: self.version@,
            root: self.root@,
            caddyfile: match &self.caddyfile {
                Ok(t) => Ok(t@),
                Err(e) => Err(e@),
            },
            values: string_views(self.values@),
            rest: steps_view(self.rest@),
            stage: self.stage,
        }
    }
}

/// The credentials a Caddy deploy reads, in order.
pub open spec fn caddy_deploy_key(i: int) -> EnvKey {
    if i == 0 {
        EnvKey::OssAccessKeyId
    } else if i == 1 {
        EnvKey::OssAccessKeySecret
    } else if i == 2 {
        EnvKey::OssOpsBucket
    } else {
        EnvKey::OssOpsEndpoint
    }
}

/// The operations bucket, reached with the credentials read in order.
pub open spec fn ops_bucket(root: Seq<char>, values: Seq<Seq<char>>) -> BucketView {
    BucketView {
        root,
        access_key_id: values[0],
        access_key_secret: values[1],
        bucket: values[2],
        endpoint: values[3],
        guess_mime: true,
    }
}

/// The publishing script: write the Caddyfile, `git add` and `git commit`
/// it, `git push` unless there was nothing to commit, then upload the
/// Caddyfile and the version-only configuration.
pub open spec fn caddy_deploy_script(text: Seq<char>, version: Seq<char>, bucket: BucketView) -> Seq<StepView> {
    seq![
        step(ActionView::WriteFile("Caddyfile"@, encode_utf8(text)), Check::Done),
        step(ActionView::Run(git(seq!["add"@, "Caddyfile"@])), Check::Status(Hint::Git)),
        step(ActionView::Run(git(seq!["commit"@, "-m"@, "版本控制生成的Caddyfile"@])), Check::Commit),
        step(ActionView::Run(git(seq!["push"@])), Check::Status(Hint::Git)),
        step(ActionView::OpenBucket(bucket), Check::Done),
        step(ActionView::PutObject("Caddyfile"@, encode_utf8(text)), Check::Done),
        step(ActionView::PutVersionConfig("gitops.toml"@, version), Check::Done),
    ]
}

pub open spec fn over(s: CaddyDeployView, r: Result<(), ErrorView>) -> (CaddyDeployView, ActionView) {
    (CaddyDeployView { stage: CaddyDeployStage::Over, ..s }, ActionView::Finish(r))
}

/// How a Caddy deploy begins: it needs the `[caddy]` and `[caddy.deploy]`
/// sections, renders the Caddyfile (whose failure is reported once the
/// credentials are read), and reads the first credential.
pub open spec fn caddy_deploy_start(config: Config, s: CaddyDeployView, a: ActionView) -> bool {
    match config.caddy {
        None => s.stage == CaddyDeployStage::Over && a == ActionView::Finish(Err(ErrorView::MissingSection(Section::Caddy))),
        Some(c) => match c.deploy {
            None => s.stage == CaddyDeployStage::Over
                && a == ActionView::Finish(Err(ErrorView::MissingSection(Section::CaddyDeploy))),
            Some(d) => {
                &&& s.stage == CaddyDeployStage::Env(0)
                &&& a == ActionView::ReadEnv(caddy_deploy_key(0))
                &&& s.version == c.version@
                &&& s.root == d.oss.root@
                &&& s.values.len() == 0
                &&& s.rest.len() == 0
                &&& s.caddyfile == if caddy_valid(c) {
                    Ok::<Seq<char>, ErrorView>(caddyfile_text(c))
                } else {
                    Err::<Seq<char>, ErrorView>(ErrorView::EmptyAddrs)
                }
            },
        },
    }
}

/// While reading credentials, the ones read so far are kept in order.
pub open spec fn caddy_deploy_wf(s: CaddyDeployView) -> bool {
    &&& (s.stage matches CaddyDeployStage::Env(i) ==> i <= 3 && s.values.len() == i)
    &&& no_finish(s.rest)
}

/// The kind of event each stage waits for.
pub open spec fn caddy_deploy_expects(stage: CaddyDeployStage) -> EventKind {
    match stage {
        CaddyDeployStage::Env(_) => EventKind::Env,
        CaddyDeployStage::Script(c) => check_kind(c),
        CaddyDeployStage::CheckingSync => EventKind::Flag,
        CaddyDeployStage::ReadingSync => EventKind::Fetched,
        CaddyDeployStage::PuttingSync => EventKind::Done,
        CaddyDeployStage::Over => EventKind::Over,
    }
}

/// One step of a Caddy deploy.
pub open spec fn caddy_deploy_next(s: CaddyDeployView, e: EventView) -> (CaddyDeployView, ActionView) {
    match (s.stage, e) {
        (CaddyDeployStage::Env(i), EventView::Env(None)) => over(s, Err(ErrorView::MissingEnv(caddy_deploy_key(i as int)))),
        (CaddyDeployStage::Env(i), EventView::Env(Some(v))) => {
            let s2 = CaddyDeployView { values: s.values.push(v), ..s };
            if i < 3 {
                (CaddyDeployView { stage: CaddyDeployStage::Env((i + 1) as usize), ..s2 }, ActionView::ReadEnv(caddy_deploy_key(i + 1)))
            } else {
                match s.caddyfile {
                    Err(err) => over(s2, Err(err)),
                    Ok(text) => {
                        let script = caddy_deploy_script(text, s.version, ops_bucket(s.root, s2.values));
                        (CaddyDeployView { rest: script.drop_first(), stage: CaddyDeployStage::Script(script[0].check), ..s2 },
                         script[0].action)
                    },
                }
            }
        },
        (CaddyDeployStage::Script(c), _) => {
            let (rest, adv) = advance_spec(s.rest, c, e);
            let s2 = CaddyDeployView { rest, ..s };
            match adv {
                AdvanceView::Failed(err) => over(s2, Err(err)),
                AdvanceView::Next(a, c2) => (CaddyDeployView { stage: CaddyDeployStage::Script(c2), ..s2 }, a),
                AdvanceView::Finished => (CaddyDeployView { stage: CaddyDeployStage::CheckingSync, ..s2 }, ActionView::IsFile("sync.toml"@)),
            }
        },
        (CaddyDeployStage::CheckingSync, EventView::Flag(true)) =>
            (CaddyDeployView { stage: CaddyDeployStage::ReadingSync, ..s }, ActionView::ReadFile("sync.toml"@)),
        (CaddyDeployStage::CheckingSync, EventView::Flag(false)) => over(s, Ok(())),
        (CaddyDeployStage::ReadingSync, EventView::Fetched(Ok(b))) =>
            (CaddyDeployView { stage: CaddyDeployStage::PuttingSync, ..s }, ActionView::PutObject("sync.toml"@, b)),
        (CaddyDeployStage::PuttingSync, EventView::Done(Ok(()))) => over(s, Ok(())),
        (_, EventView::Done(Err(m))) => over(s, Err(ErrorView::Other(m))),
        (_, EventView::Fetched(Err(m))) => over(s, Err(ErrorView::Other(m))),
        // An answer of another kind is ruled out by the precondition on event kinds.
        _ => over(s, Err(ErrorView::Todo)),
    }
}

fn env_key(i: usize) -> (res: EnvKey)
    ensures
        res == caddy_deploy_key(i as int),
{
    if i == 0 {
        EnvKey::OssAccessKeyId
    } else if i == 1 {
        EnvKey::OssAccessKeySecret
    } else if i == 2 {
        EnvKey::OssOpsBucket
    } else {
        EnvKey::OssOpsEndpoint
    }
}

fn script(text: String, version: &String, bucket: BucketParams) -> (res: (Action, Check, Vec<Step>))
    ensures
        ({
            let sc = caddy_deploy_script(text@, version@, bucket@);
            res.0@ == sc[0].action && res.1 == sc[0].check && steps_view(res.2@) == sc.drop_first()
        }),
        no_finish(steps_view(res.2@)),
{
    let bytes = text_bytes(&text);
    let mut rest: Vec<Step> = Vec::new();
    rest.push(Step { action: Action::Run(Command { program: Program::Git, args: strings2("add", "Caddyfile") }), check: Check::Status(Hint::Git) });
    rest.push(Step { action: Action::Run(Command { program: Program::Git, args: strings3("commit", "-m", "版本控制生成的Caddyfile") }), check: Check::Commit });
    rest.push(Step { action: Action::Run(Command { program: Program::Git, args: strings1("push") }), check: Check::Status(Hint::Git) });
    rest.push(Step { action: Action::OpenBucket(bucket), check: Check::Done });
    rest.push(Step { action: Action::PutObject("Caddyfile".to_owned(), text_bytes(&text)), check: Check::Done });
    rest.push(Step { action: Action::PutVersionConfig("gitops.toml".to_owned(), version.clone()), check: Check::Done });
    proof {
        let sc = caddy_deploy_script(text@, version@, bucket@);
        assert(steps_view(rest@) =~= sc.drop_first());
        assert(no_finish(sc.drop_first()));
    }
    (Action::WriteFile("Caddyfile".to_owned(), bytes), Check::Done, rest)
}

impl CaddyDeploy {
    /// The kind of event the deploy waits for, as the view names it.
    pub open spec fn expects(&self) -> EventKind {
        caddy_deploy_expects(self.stage)
    }

    /// The kind of event the deploy waits for.
    pub fn expected(&self) -> (res: EventKind)
        ensures
            res == self.expects(),
    {
        match self.stage {
            CaddyDeployStage::Env(_) => EventKind::Env,
            CaddyDeployStage::Script(Check::Done) => EventKind::Done,
            CaddyDeployStage::Script(_) => EventKind::Exited,
            CaddyDeployStage::CheckingSync => EventKind::Flag,
            CaddyDeployStage::ReadingSync => EventKind::Fetched,
            CaddyDeployStage::PuttingSync => EventKind::Done,
            CaddyDeployStage::Over => EventKind::Over,
        }
    }

    fn over(self, r: Result<(), OpsError>) -> (res: (CaddyDeploy, Action))
        ensures
            (res.0@, res.1@) == over(self@, match r { Ok(()) => Ok(()), Err(e) => Err(e@) }),
    {
        (CaddyDeploy { stage: CaddyDeployStage::Over, ..self }, Action::Finish(r))
    }

    /// Takes the answer to the pending action and gives the next one (see `caddy_deploy_next`).
    pub fn next(self, event: Event) -> (res: (CaddyDeploy, Action))
        requires
            event_kind(event@) == self.expects(),
            caddy_deploy_wf(self@),
        ensures
            (res.0@, res.1@) == caddy_deploy_next(self@, event@),
            caddy_deploy_wf(res.0@),
    {
        let mut s = self;
        match (s.stage, event) {
            (CaddyDeployStage::Env(i), Event::Env(None)) => s.over(Err(OpsError::MissingEnv(env_key(i)))),
            (CaddyDeployStage::Env(i), Event::Env(Some(v))) => {
                let ghost before = string_views(s.values@);
                s.values.push(v);
                assert(string_views(s.values@) =~= before.push(v@));
                if i < 3 {
                    let key = env_key(i + 1);
                    (CaddyDeploy { stage: CaddyDeployStage::Env(i + 1), ..s }, Action::ReadEnv(key))
                } else {
                    match &s.caddyfile {
                        Err(err) => {
                            let err = err.clone();
                            s.over(Err(err))
                        },
                        Ok(text) => {
                            let text = text.clone();
                            let bucket = BucketParams {
                                root: s.root.clone(),
                                access_key_id: s.values[0].clone(),
                                access_key_secret: s.values[1].clone(),
                                bucket: s.values[2].clone(),
                                endpoint: s.values[3].clone(),
                                guess_mime: true,
                            };
                            proof {
                                let vs = string_views(s.values@);
                                assert(bucket@ == ops_bucket(s.root@, vs));
                            }
                            let (action, check, rest) = script(text, &s.version, bucket);
                            (CaddyDeploy { rest, stage: CaddyDeployStage::Script(check), ..s }, action)
                        },
                    }
                }
            },
            (CaddyDeployStage::Script(c), event) => {
                proof { advance_keeps_no_finish(steps_view(s.rest@), c, event@); }
                match advance(c, &mut s.rest, event) {
                    Advance::Failed(err) => s.over(Err(err)),
                    Advance::Next(a, c2) => (CaddyDeploy { stage: CaddyDeployStage::Script(c2), ..s }, a),
                    Advance::Finished => (CaddyDeploy { stage: CaddyDeployStage::CheckingSync, ..s }, Action::IsFile("sync.toml".to_owned())),
                }
            },
            (CaddyDeployStage::CheckingSync, Event::Flag(true)) =>
                (CaddyDeploy { stage: CaddyDeployStage::ReadingSync, ..s }, Action::ReadFile("sync.toml".to_owned())),
            (CaddyDeployStage::CheckingSync, Event::Flag(false)) => s.over(Ok(())),
            (CaddyDeployStage::ReadingSync, Event::Fetched(Ok(b))) =>
                (CaddyDeploy { stage: CaddyDeployStage::PuttingSync, ..s }, Action::PutObject("sync.toml".to_owned(), b)),
            (CaddyDeployStage::PuttingSync, Event::Done(Ok(()))) => s.over(Ok(())),
            (_, Event::Done(Err(m))) => s.over(Err(OpsError::Other(m))),
            (_, Event::Fetched(Err(m))) => s.over(Err(OpsError::Other(m))),
            // An answer of another kind is ruled out by the precondition on event kinds.
            _ => s.over(Err(OpsError::Todo)),
        }
    }
}

fn finished(r: Result<(), OpsError>) -> (res: (CaddyDeploy, Action))
    ensures
        res.0@.stage == CaddyDeployStage::Over,
        res.0@.rest.len() == 0,
        res.1@ == ActionView::Finish(match r { Ok(()) => Ok(()), Err(e) => Err(e@) }),
{
    let s = CaddyDeploy {
        version: String::new(),
        root: String::new(),
        caddyfile: Ok(String::new()),
        values: Vec::new(),
        rest: Vec::new(),
        stage: CaddyDeployStage::Over,
    };
    assert(steps_view(s.rest@) =~= Seq::<StepView>::empty());
    (s, Action::Finish(r))
}

/// Starts deploying the Caddy configuration (see `caddy_deploy_start` and `caddy_deploy_next`).
pub fn deploy(config: &Config) -> (res: (CaddyDeploy, Action))
    ensures
        caddy_deploy_start(*config, res.0@, res.1@),
        caddy_deploy_wf(res.0@),
{
    let c = match get_config(config) {
        Ok(c) => c,
        Err(e) => { return finished(Err(e)); },
    };
    let d = match &c.deploy {
        Some(d) => d,
        None => { return finished(Err(OpsError::MissingSection(Section::CaddyDeploy))); },
    };
    let caddyfile = c.get_caddyfile();
    let s = CaddyDeploy {
        version: c.version.clone(),
        root: d.oss.root.clone(),
        caddyfile,
        values: Vec::new(),
        rest: Vec::new(),
        stage: CaddyDeployStage::Env(0),
    };
    proof {
        assert(string_views(s.values@) =~= Seq::<Seq<char>>::empty());
        assert(steps_view(s.rest@) =~= Seq::<StepView>::empty());
    }
    (s, Action::ReadEnv(EnvKey::OssAccessKeyId))
}

} // verus!

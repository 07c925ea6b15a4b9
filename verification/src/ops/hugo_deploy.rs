use vstd::prelude::*;
use crate::config::Config;
use crate::error::{OpsError, ErrorView};
use crate::names::{Section, EnvKey, Hint, Tool, Platform};
use crate::ops::hugo::{Hugo, hugo_upgrade_start};
use crate::ops::upgrade::{Upgrade, UpgradeView, upgrade_next};
use crate::plan::{
    Action, ActionView, Event, EventView, EventKind, Command, CommandView, Program, BucketParams, BucketView,
    Step, StepView, Check, Advance, AdvanceView, advance, advance_spec, steps_view, check_kind, event_kind,
    strings1, strings2, strings3, git, step, no_finish, advance_keeps_no_finish,
};
use crate::text::{string_views, join_seqs, join_strings, replace_seq, replace_all};

verus! {

/// Where a Hugo deploy stands. `bool` fields tell the draft pass (true)
/// from the production pass (false).
#[derive(Clone, Copy, Debug, PartialEq, Eq, Structural)]
pub enum HugoDeployStage {
    /// Hugo itself is being upgraded.
    Upgrading,
    /// Reading the `n`-th deploy credential from the environment.
    Env(usize),
    /// Removing the old `public` directory before a pass.
    Clearing(bool),
    /// Reading the draft site's base URL.
    BaseUrl,
    /// Building the site and publishing it to GitHub; the current step is judged so.
    Publishing(bool, Check),
    /// Reading the pass's bucket name.
    Bucket(bool),
    /// Reading the pass's bucket endpoint.
    Endpoint(bool),
    /// Uploading the site to the bucket; the current step is judged so.
    Uploading(bool, Check),
    Over,
}

/// A deploy of the Hugo site: it upgrades Hugo, reads the deploy
/// credentials, then makes two passes, draft then production. Each pass
/// removes `public`, builds the site (the draft with drafts and future posts
/// and the draft base URL), publishes it to the GitHub repository (on its
/// `draft` branch for the draft pass), and uploads it to the pass's bucket.
pub struct HugoDeploy {
    pub upgrade: Upgrade,
    pub has_deploy: bool,
    pub username: String,
    pub org: String,
    pub repo: String,
    pub root: String,
    pub files: Vec<String>,
    pub dirs: Vec<String>,
    pub values: Vec<String>,
    pub bucket: String,
    pub rest: Vec<Step>,
    pub stage: HugoDeployStage,
}

pub struct HugoDeployView {
    pub upgrade: UpgradeView,
    pub has_deploy: bool,
    pub username: Seq<char>,
    pub org: Seq<char>,
    pub repo: Seq<char>,
    pub root: Seq<char>,
    pub files: Seq<Seq<char>>,
    pub dirs: Seq<Seq<char>>,
    pub values: Seq<Seq<char>>,
    pub bucket: Seq<char>,
    pub rest: Seq<StepView>,
    pub stage: HugoDeployStage,
}

impl View for HugoDeploy {
    type V = HugoDeployView;

    open spec fn view(&self) -> HugoDeployView {
        HugoDeployView {
            upgrade: self.upgrade@,
            has_deploy: self.has_deploy,
            username: self.username@,
            org: self.org@,
            repo: self.repo@,
            root: self.root@,
            files: string_views(self.files@),
            dirs: string_views(self.dirs@),
            values: string_views(self.values@),
            bucket: self.bucket@,
            rest: steps_view(self.rest@),
            stage: self.stage,
        }
    }
}

/// The deploy credentials, in the order they are read.
pub open spec fn hugo_deploy_key(i: int) -> EnvKey {
    if i == 0 {
        EnvKey::DeployGithubAccessToken
    } else if i == 1 {
        EnvKey::DeployGithubUserEmail
    } else if i == 2 {
        EnvKey::DeployGithubUserName
    } else if i == 3 {
        EnvKey::OssAccessKeyId
    } else {
        EnvKey::OssAccessKeySecret
    }
}

pub open spec fn bucket_key(draft: bool) -> EnvKey {
    if draft { EnvKey::OssDraftBucket } else { EnvKey::OssProdBucket }
}

pub open spec fn endpoint_key(draft: bool) -> EnvKey {
    if draft { EnvKey::OssDraftEndpoint } else { EnvKey::OssProdEndpoint }
}

/// The repository URL with the access token as password.
pub open spec fn repo_url(username: Seq<char>, token: Seq<char>, org: Seq<char>, repo: Seq<char>) -> Seq<char> {
    "https://"@ + username + ":"@ + token + "@github.com/"@ + org + "/"@ + repo + ".git"@
}

/// Hugo's arguments: the draft pass builds drafts and future posts for the draft base URL.
pub open spec fn hugo_args(draft: bool, base_url: Seq<char>) -> Seq<Seq<char>> {
    if draft { seq!["-b"@, base_url, "-D"@, "-F"@] } else { Seq::empty() }
}

/// The log line that announces the Hugo build: the draft pass shows its
/// arguments with the base URL masked.
pub open spec fn hugo_log_line(draft: bool, base_url: Seq<char>) -> Seq<char> {
    if draft {
        "正在执行：hugo "@ + replace_seq(join_seqs(hugo_args(true, base_url), " "@), base_url, "****"@)
    } else {
        "正在执行：hugo"@
    }
}

/// The log line that announces the clone, with the access token masked.
pub open spec fn clone_log_line(url: Seq<char>, token: Seq<char>) -> Seq<char> {
    "正在执行：git clone "@ + replace_seq(url, token, "****"@)
}

/// Announce and build the site, then publish it: clone the repository
/// (announced with the token masked), set the
/// committer, switch to `draft` for the draft pass, replace its `public`
/// with the built one, commit, push unless there was nothing to commit,
/// leave and remove the clone, and enter the built `public`.
pub open spec fn publish_script(s: HugoDeployView, draft: bool, base_url: Seq<char>) -> Seq<StepView> {
    seq![
        step(ActionView::Log(hugo_log_line(draft, base_url)), Check::Done),
        step(ActionView::Run(CommandView { program: Program::Tool(Tool::Hugo), args: hugo_args(draft, base_url) }), Check::Status(Hint::Hugo)),
        step(ActionView::Log(clone_log_line(repo_url(s.username, s.values[0], s.org, s.repo), s.values[0])), Check::Done),
        step(ActionView::Run(git(seq!["clone"@, repo_url(s.username, s.values[0], s.org, s.repo)])), Check::Status(Hint::Git)),
        step(ActionView::ChangeDir(s.repo), Check::Done),
        step(ActionView::Run(git(seq!["config"@, "user.email"@, s.values[1]])), Check::Status(Hint::Git)),
        step(ActionView::Run(git(seq!["config"@, "user.name"@, s.values[2]])), Check::Status(Hint::Git)),
    ] + (if draft {
        seq![step(ActionView::Run(git(seq!["checkout"@, "draft"@])), Check::Status(Hint::Git))]
    } else {
        Seq::empty()
    }) + seq![
        step(ActionView::RemoveDirIfPresent("public"@), Check::Done),
        step(ActionView::CopyDir("../public"@, ""@), Check::Done),
        step(ActionView::Run(git(seq!["add"@, "."@])), Check::Status(Hint::Git)),
        step(ActionView::Run(git(seq!["commit"@, "-m"@, "Deploy"@])), Check::Commit),
        step(ActionView::Run(git(seq!["push"@])), Check::Status(Hint::Git)),
        step(ActionView::ChangeDir(".."@), Check::Done),
        step(ActionView::RemoveDir(s.repo), Check::Done),
        step(ActionView::ChangeDir("public"@), Check::Done),
    ]
}

/// The pass's bucket, reached with the object-storage credentials.
pub open spec fn site_bucket(s: HugoDeployView, endpoint: Seq<char>) -> BucketView {
    BucketView {
        root: s.root,
        access_key_id: s.values[3],
        access_key_secret: s.values[4],
        bucket: s.bucket,
        endpoint,
        guess_mime: true,
    }
}

/// Upload the single files, keep each directory in sync, and leave `public`.
pub open spec fn upload_script(s: HugoDeployView, endpoint: Seq<char>) -> Seq<StepView> {
    seq![
        step(ActionView::OpenBucket(site_bucket(s, endpoint)), Check::Done),
        step(ActionView::PutFiles(s.files), Check::Done),
    ] + s.dirs.map_values(|d: Seq<char>| step(ActionView::SyncDir(d), Check::Done))
      + seq![step(ActionView::ChangeDir(".."@), Check::Done)]
}

pub open spec fn hd_over(s: HugoDeployView, r: Result<(), ErrorView>) -> (HugoDeployView, ActionView) {
    (HugoDeployView { stage: HugoDeployStage::Over, ..s }, ActionView::Finish(r))
}

/// Taking the first step of a script and keeping the rest.
pub open spec fn run_script(s: HugoDeployView, script: Seq<StepView>, publishing: bool, draft: bool) -> (HugoDeployView, ActionView) {
    (HugoDeployView {
        rest: script.drop_first(),
        stage: if publishing { HugoDeployStage::Publishing(draft, script[0].check) } else { HugoDeployStage::Uploading(draft, script[0].check) },
        ..s
    }, script[0].action)
}

/// Starting a pass by removing `public`.
pub open spec fn begin_pass(s: HugoDeployView, draft: bool) -> (HugoDeployView, ActionView) {
    (HugoDeployView { stage: HugoDeployStage::Clearing(draft), ..s }, ActionView::RemoveDirIfPresent("public"@))
}

/// After Hugo is upgraded: the `[hugo.deploy]` section must be there, and
/// the first credential is read.
pub open spec fn begin_deploy(s: HugoDeployView) -> (HugoDeployView, ActionView) {
    if s.has_deploy {
        (HugoDeployView { stage: HugoDeployStage::Env(0), ..s }, ActionView::ReadEnv(hugo_deploy_key(0)))
    } else {
        hd_over(s, Err(ErrorView::MissingSection(Section::HugoDeploy)))
    }
}

/// Passing on what the upgrade asks for, until it is over.
pub open spec fn lift(s: HugoDeployView, a: ActionView) -> (HugoDeployView, ActionView) {
    match a {
        ActionView::Finish(Ok(())) => begin_deploy(s),
        ActionView::Finish(Err(err)) => hd_over(s, Err(err)),
        _ => (s, a),
    }
}

/// How a Hugo deploy begins: with the Hugo upgrade, remembering the
/// `[hugo.deploy]` section if there is one.
pub open spec fn hugo_deploy_start(config: Config, platform: Platform, s: HugoDeployView, a: ActionView) -> bool {
    let (u, ua) = hugo_upgrade_start(config, platform);
    let s0 = HugoDeployView { upgrade: u, stage: HugoDeployStage::Upgrading, ..s };
    &&& (s, a) == lift(s0, ua)
    &&& s.values.len() == 0
    &&& s.rest.len() == 0
    &&& s.has_deploy == (config.hugo matches Some(h) && h.deploy is Some)
    &&& match config.hugo {
        Some(h) => match h.deploy {
            Some(d) => {
                &&& s.username == d.github.username@
                &&& s.org == d.github.org@
                &&& s.repo == d.github.repo@
                &&& s.root == d.oss.sync.root@
                &&& s.files == string_views(d.oss.sync.files@)
                &&& s.dirs == string_views(d.oss.sync.dirs@)
            },
            None => true,
        },
        None => true,
    }
}

/// The credentials read so far are kept in order, and the passes have all of them.
pub open spec fn hugo_deploy_wf(s: HugoDeployView) -> bool {
    &&& no_finish(s.rest)
    &&& match s.stage {
        HugoDeployStage::Upgrading => s.values.len() == 0,
        HugoDeployStage::Env(i) => i <= 4 && s.values.len() == i,
        HugoDeployStage::Over => true,
        _ => s.values.len() == 5,
    }
}

/// The kind of event each stage waits for.
pub open spec fn hugo_deploy_expects(s: HugoDeployView) -> EventKind {
    match s.stage {
        HugoDeployStage::Upgrading => crate::ops::upgrade::upgrade_expects(s.upgrade.stage),
        HugoDeployStage::Env(_) | HugoDeployStage::BaseUrl | HugoDeployStage::Bucket(_) | HugoDeployStage::Endpoint(_) => EventKind::Env,
        HugoDeployStage::Clearing(_) => EventKind::Done,
        HugoDeployStage::Publishing(_, c) | HugoDeployStage::Uploading(_, c) => check_kind(c),
        HugoDeployStage::Over => EventKind::Over,
    }
}

/// One step of a Hugo deploy.
pub open spec fn hugo_deploy_next(s: HugoDeployView, e: EventView) -> (HugoDeployView, ActionView) {
    match (s.stage, e) {
        (HugoDeployStage::Upgrading, _) => {
            let (u, a) = upgrade_next(s.upgrade, e);
            lift(HugoDeployView { upgrade: u, ..s }, a)
        },
        (HugoDeployStage::Env(i), EventView::Env(None)) => hd_over(s, Err(ErrorView::MissingEnv(hugo_deploy_key(i as int)))),
        (HugoDeployStage::Env(i), EventView::Env(Some(v))) => {
            let s2 = HugoDeployView { values: s.values.push(v), ..s };
            if i < 4 {
                (HugoDeployView { stage: HugoDeployStage::Env((i + 1) as usize), ..s2 }, ActionView::ReadEnv(hugo_deploy_key(i + 1)))
            } else {
                begin_pass(s2, true)
            }
        },
        (HugoDeployStage::Clearing(draft), EventView::Done(Ok(()))) => if draft {
            (HugoDeployView { stage: HugoDeployStage::BaseUrl, ..s }, ActionView::ReadEnv(EnvKey::HugoDraftBaseUrl))
        } else {
            run_script(s, publish_script(s, false, Seq::empty()), true, false)
        },
        (HugoDeployStage::BaseUrl, EventView::Env(None)) => hd_over(s, Err(ErrorView::MissingEnv(EnvKey::HugoDraftBaseUrl))),
        (HugoDeployStage::BaseUrl, EventView::Env(Some(url))) => run_script(s, publish_script(s, true, url), true, true),
        (HugoDeployStage::Publishing(draft, c), _) => {
            let (rest, adv) = advance_spec(s.rest, c, e);
            let s2 = HugoDeployView { rest, ..s };
            match adv {
                AdvanceView::Failed(err) => hd_over(s2, Err(err)),
                AdvanceView::Next(a, c2) => (HugoDeployView { stage: HugoDeployStage::Publishing(draft, c2), ..s2 }, a),
                AdvanceView::Finished => (HugoDeployView { stage: HugoDeployStage::Bucket(draft), ..s2 }, ActionView::ReadEnv(bucket_key(draft))),
            }
        },
        (HugoDeployStage::Bucket(draft), EventView::Env(None)) => hd_over(s, Err(ErrorView::MissingEnv(bucket_key(draft)))),
        (HugoDeployStage::Bucket(draft), EventView::Env(Some(b))) =>
            (HugoDeployView { bucket: b, stage: HugoDeployStage::Endpoint(draft), ..s }, ActionView::ReadEnv(endpoint_key(draft))),
        (HugoDeployStage::Endpoint(draft), EventView::Env(None)) => hd_over(s, Err(ErrorView::MissingEnv(endpoint_key(draft)))),
        (HugoDeployStage::Endpoint(draft), EventView::Env(Some(ep))) => run_script(s, upload_script(s, ep), false, draft),
        (HugoDeployStage::Uploading(draft, c), _) => {
            let (rest, adv) = advance_spec(s.rest, c, e);
            let s2 = HugoDeployView { rest, ..s };
            match adv {
                AdvanceView::Failed(err) => hd_over(s2, Err(err)),
                AdvanceView::Next(a, c2) => (HugoDeployView { stage: HugoDeployStage::Uploading(draft, c2), ..s2 }, a),
                AdvanceView::Finished => if draft { begin_pass(s2, false) } else { hd_over(s2, Ok(())) },
            }
        },
        (_, EventView::Done(Err(m))) => hd_over(s, Err(ErrorView::Other(m))),
        // An answer of another kind is ruled out by the precondition on event kinds.
        _ => hd_over(s, Err(ErrorView::Todo)),
    }
}

fn repo_url_string(username: &String, token: &String, org: &String, repo: &String) -> (res: String)
    ensures
        res@ == repo_url(username@, token@, org@, repo@),
{
    let mut u = "https://".to_owned();
    u.append(username.as_str());
    u.append(":");
    u.append(token.as_str());
    u.append("@github.com/");
    u.append(org.as_str());
    u.append("/");
    u.append(repo.as_str());
    u.append(".git");
    u
}

fn git_step(args: Vec<String>, check: Check) -> (res: Step)
    ensures
        res@ == step(ActionView::Run(git(string_views(args@))), check),
{
    Step { action: Action::Run(Command { program: Program::Git, args }), check }
}

fn plain_step(action: Action) -> (res: Step)
    ensures
        res@ == step(action@, Check::Done),
{
    Step { action, check: Check::Done }
}

fn publish_steps(s: &HugoDeploy, draft: bool, base_url: String) -> (res: (Action, Check, Vec<Step>))
    requires
        s@.values.len() == 5,
    ensures
        ({
            let sc = publish_script(s@, draft, base_url@);
            res.0@ == sc[0].action && res.1 == sc[0].check && steps_view(res.2@) == sc.drop_first()
        }),
        no_finish(steps_view(res.2@)),
{
    let ghost sv = s@;
    let mut hargs: Vec<String> = Vec::new();
    if draft {
        hargs.push("-b".to_owned());
        hargs.push(base_url);
        hargs.push("-D".to_owned());
        hargs.push("-F".to_owned());
    }
    let ghost ha = string_views(hargs@);
    assert(ha =~= hugo_args(draft, base_url@));
    let mut line = if draft { "正在执行：hugo ".to_owned() } else { "正在执行：hugo".to_owned() };
    if draft {
        let joined = join_strings(&hargs, " ");
        assert(ha[1] == hargs@[1]@);
        line.append(replace_all(joined.as_str(), hargs[1].as_str(), "****").as_str());
    }
    assert(line@ == hugo_log_line(draft, base_url@));
    let first = Action::Log(line);
    let mut rest: Vec<Step> = Vec::new();
    rest.push(Step { action: Action::Run(Command { program: Hugo::installed().0, args: hargs }), check: Check::Status(Hint::Hugo) });
    let url = repo_url_string(&s.username, &s.values[0], &s.org, &s.repo);
    let mut clone_line = "正在执行：git clone ".to_owned();
    clone_line.append(replace_all(url.as_str(), s.values[0].as_str(), "****").as_str());
    assert(clone_line@ == clone_log_line(repo_url(sv.username, sv.values[0], sv.org, sv.repo), sv.values[0]));
    rest.push(plain_step(Action::Log(clone_line)));
    let mut clone_args: Vec<String> = Vec::new();
    clone_args.push("clone".to_owned());
    clone_args.push(url);
    assert(string_views(clone_args@) =~= seq!["clone"@, repo_url(sv.username, sv.values[0], sv.org, sv.repo)]);
    rest.push(git_step(clone_args, Check::Status(Hint::Git)));
    rest.push(plain_step(Action::ChangeDir(s.repo.clone())));
    rest.push(git_step(strings3("config", "user.email", s.values[1].as_str()), Check::Status(Hint::Git)));
    rest.push(git_step(strings3("config", "user.name", s.values[2].as_str()), Check::Status(Hint::Git)));
    if draft {
        rest.push(git_step(strings2("checkout", "draft"), Check::Status(Hint::Git)));
    }
    rest.push(plain_step(Action::RemoveDirIfPresent("public".to_owned())));
    rest.push(plain_step(Action::CopyDir("../public".to_owned(), "".to_owned())));
    rest.push(git_step(strings2("add", "."), Check::Status(Hint::Git)));
    rest.push(git_step(strings3("commit", "-m", "Deploy"), Check::Commit));
    rest.push(git_step(strings1("push"), Check::Status(Hint::Git)));
    rest.push(plain_step(Action::ChangeDir("..".to_owned())));
    rest.push(plain_step(Action::RemoveDir(s.repo.clone())));
    rest.push(plain_step(Action::ChangeDir("public".to_owned())));
    proof {
        let sc = publish_script(sv, draft, base_url@);
        assert(steps_view(rest@) =~= sc.drop_first());
        assert(no_finish(sc.drop_first()));
    }
    (first, Check::Done, rest)
}

fn upload_steps(s: &HugoDeploy, endpoint: String) -> (res: (Action, Check, Vec<Step>))
    requires
        s@.values.len() == 5,
    ensures
        ({
            let sc = upload_script(s@, endpoint@);
            res.0@ == sc[0].action && res.1 == sc[0].check && steps_view(res.2@) == sc.drop_first()
        }),
        no_finish(steps_view(res.2@)),
{
    let ghost sv = s@;
    let bucket = BucketParams {
        root: s.root.clone(),
        access_key_id: s.values[3].clone(),
        access_key_secret: s.values[4].clone(),
        bucket: s.bucket.clone(),
        endpoint,
        guess_mime: true,
    };
    let first = Action::OpenBucket(bucket);
    let mut rest: Vec<Step> = Vec::new();
    rest.push(plain_step(Action::PutFiles(s.files.clone())));
    proof {
        assert(string_views(s.files@) == sv.files);
    }
    let n = s.dirs.len();
    let mut i: usize = 0;
    while i < n
        invariant
            n == s.dirs@.len(),
            sv == s@,
            i <= n,
            steps_view(rest@) =~= seq![step(ActionView::PutFiles(sv.files), Check::Done)]
                + sv.dirs.take(i as int).map_values(|d: Seq<char>| step(ActionView::SyncDir(d), Check::Done)),
        decreases n - i,
    {
        let ghost before = steps_view(rest@);
        rest.push(plain_step(Action::SyncDir(s.dirs[i].clone())));
        proof {
            let f = |d: Seq<char>| step(ActionView::SyncDir(d), Check::Done);
            assert(sv.dirs.take(i + 1) =~= sv.dirs.take(i as int).push(sv.dirs[i as int]));
            assert(sv.dirs.take(i + 1).map_values(f) =~= sv.dirs.take(i as int).map_values(f).push(f(sv.dirs[i as int])));
            assert(steps_view(rest@) =~= before.push(f(sv.dirs[i as int])));
        }
        i = i + 1;
    }
    rest.push(plain_step(Action::ChangeDir("..".to_owned())));
    proof {
        let sc = upload_script(sv, endpoint@);
        let f = |d: Seq<char>| step(ActionView::SyncDir(d), Check::Done);
        assert(sv.dirs.take(n as int) =~= sv.dirs);
        let head = seq![step(ActionView::OpenBucket(site_bucket(sv, endpoint@)), Check::Done),
            step(ActionView::PutFiles(sv.files), Check::Done)];
        let tail = seq![step(ActionView::ChangeDir(".."@), Check::Done)];
        assert(sc == head + sv.dirs.map_values(f) + tail);
        assert(sc.drop_first() =~= seq![step(ActionView::PutFiles(sv.files), Check::Done)] + sv.dirs.map_values(f) + tail);
        assert(steps_view(rest@) =~= sc.drop_first());
        assert forall|i: int| 0 <= i < sc.drop_first().len() implies !(#[trigger] sc.drop_first()[i].action is Finish) by {
            if 1 <= i < sc.drop_first().len() - 1 {
                assert(sc.drop_first()[i] == f(sv.dirs[i - 1]));
            }
        };
    }
    (first, Check::Done, rest)
}

fn deploy_key(i: usize) -> (res: EnvKey)
    ensures
        res == hugo_deploy_key(i as int),
{
    if i == 0 {
        EnvKey::DeployGithubAccessToken
    } else if i == 1 {
        EnvKey::DeployGithubUserEmail
    } else if i == 2 {
        EnvKey::DeployGithubUserName
    } else if i == 3 {
        EnvKey::OssAccessKeyId
    } else {
        EnvKey::OssAccessKeySecret
    }
}

impl HugoDeploy {
    /// The kind of event the deploy waits for, as the view names it.
    pub open spec fn expects(&self) -> EventKind {
        hugo_deploy_expects(self@)
    }

    /// The kind of event the deploy waits for.
    pub fn expected(&self) -> (res: EventKind)
        ensures
            res == self.expects(),
    {
        match self.stage {
            HugoDeployStage::Upgrading => self.upgrade.expected(),
            HugoDeployStage::Env(_) | HugoDeployStage::BaseUrl | HugoDeployStage::Bucket(_) | HugoDeployStage::Endpoint(_) => EventKind::Env,
            HugoDeployStage::Clearing(_) => EventKind::Done,
            HugoDeployStage::Publishing(_, Check::Done) | HugoDeployStage::Uploading(_, Check::Done) => EventKind::Done,
            HugoDeployStage::Publishing(_, _) | HugoDeployStage::Uploading(_, _) => EventKind::Exited,
            HugoDeployStage::Over => EventKind::Over,
        }
    }

    fn over(self, r: Result<(), OpsError>) -> (res: (HugoDeploy, Action))
        ensures
            (res.0@, res.1@) == hd_over(self@, match r { Ok(()) => Ok(()), Err(e) => Err(e@) }),
    {
        (HugoDeploy { stage: HugoDeployStage::Over, ..self }, Action::Finish(r))
    }

    fn lift(self, a: Action) -> (res: (HugoDeploy, Action))
        ensures
            (res.0@, res.1@) == lift(self@, a@),
    {
        match a {
            Action::Finish(Ok(())) => {
                if self.has_deploy {
                    (HugoDeploy { stage: HugoDeployStage::Env(0), ..self }, Action::ReadEnv(EnvKey::DeployGithubAccessToken))
                } else {
                    self.over(Err(OpsError::MissingSection(Section::HugoDeploy)))
                }
            },
            Action::Finish(Err(err)) => self.over(Err(err)),
            a => (self, a),
        }
    }

    /// Takes the answer to the pending action and gives the next one (see `hugo_deploy_next`).
    pub fn next(self, event: Event) -> (res: (HugoDeploy, Action))
        requires
            event_kind(event@) == self.expects(),
            hugo_deploy_wf(self@),
        ensures
            (res.0@, res.1@) == hugo_deploy_next(self@, event@),
            hugo_deploy_wf(res.0@),
    {
        let mut s = self;
        match (s.stage, event) {
            (HugoDeployStage::Upgrading, event) => {
                let (u, a) = s.upgrade.next(event);
                HugoDeploy { upgrade: u, ..s }.lift(a)
            },
            (HugoDeployStage::Env(i), Event::Env(None)) => s.over(Err(OpsError::MissingEnv(deploy_key(i)))),
            (HugoDeployStage::Env(i), Event::Env(Some(v))) => {
                let ghost before = string_views(s.values@);
                s.values.push(v);
                assert(string_views(s.values@) =~= before.push(v@));
                if i < 4 {
                    let key = deploy_key(i + 1);
                    (HugoDeploy { stage: HugoDeployStage::Env(i + 1), ..s }, Action::ReadEnv(key))
                } else {
                    (HugoDeploy { stage: HugoDeployStage::Clearing(true), ..s }, Action::RemoveDirIfPresent("public".to_owned()))
                }
            },
            (HugoDeployStage::Clearing(draft), Event::Done(Ok(()))) => {
                if draft {
                    (HugoDeploy { stage: HugoDeployStage::BaseUrl, ..s }, Action::ReadEnv(EnvKey::HugoDraftBaseUrl))
                } else {
                    let (a, c, rest) = publish_steps(&s, false, String::new());
                    (HugoDeploy { rest, stage: HugoDeployStage::Publishing(false, c), ..s }, a)
                }
            },
            (HugoDeployStage::BaseUrl, Event::Env(None)) => s.over(Err(OpsError::MissingEnv(EnvKey::HugoDraftBaseUrl))),
            (HugoDeployStage::BaseUrl, Event::Env(Some(url))) => {
                let (a, c, rest) = publish_steps(&s, true, url);
                (HugoDeploy { rest, stage: HugoDeployStage::Publishing(true, c), ..s }, a)
            },
            (HugoDeployStage::Publishing(draft, c), event) => {
                proof { advance_keeps_no_finish(steps_view(s.rest@), c, event@); }
                match advance(c, &mut s.rest, event) {
                    Advance::Failed(err) => s.over(Err(err)),
                    Advance::Next(a, c2) => (HugoDeploy { stage: HugoDeployStage::Publishing(draft, c2), ..s }, a),
                    Advance::Finished => {
                        let key = if draft { EnvKey::OssDraftBucket } else { EnvKey::OssProdBucket };
                        (HugoDeploy { stage: HugoDeployStage::Bucket(draft), ..s }, Action::ReadEnv(key))
                    },
                }
            },
            (HugoDeployStage::Bucket(draft), Event::Env(None)) => {
                let key = if draft { EnvKey::OssDraftBucket } else { EnvKey::OssProdBucket };
                s.over(Err(OpsError::MissingEnv(key)))
            },
            (HugoDeployStage::Bucket(draft), Event::Env(Some(b))) => {
                let key = if draft { EnvKey::OssDraftEndpoint } else { EnvKey::OssProdEndpoint };
                (HugoDeploy { bucket: b, stage: HugoDeployStage::Endpoint(draft), ..s }, Action::ReadEnv(key))
            },
            (HugoDeployStage::Endpoint(draft), Event::Env(None)) => {
                let key = if draft { EnvKey::OssDraftEndpoint } else { EnvKey::OssProdEndpoint };
                s.over(Err(OpsError::MissingEnv(key)))
            },
            (HugoDeployStage::Endpoint(draft), Event::Env(Some(ep))) => {
                let (a, c, rest) = upload_steps(&s, ep);
                (HugoDeploy { rest, stage: HugoDeployStage::Uploading(draft, c), ..s }, a)
            },
            (HugoDeployStage::Uploading(draft, c), event) => {
                proof { advance_keeps_no_finish(steps_view(s.rest@), c, event@); }
                match advance(c, &mut s.rest, event) {
                    Advance::Failed(err) => s.over(Err(err)),
                    Advance::Next(a, c2) => (HugoDeploy { stage: HugoDeployStage::Uploading(draft, c2), ..s }, a),
                    Advance::Finished => {
                        if draft {
                            (HugoDeploy { stage: HugoDeployStage::Clearing(false), ..s }, Action::RemoveDirIfPresent("public".to_owned()))
                        } else {
                            s.over(Ok(()))
                        }
                    },
                }
            },
            (_, Event::Done(Err(m))) => s.over(Err(OpsError::Other(m))),
            // An answer of another kind is ruled out by the precondition on event kinds.
            _ => s.over(Err(OpsError::Todo)),
        }
    }
}

/// Starts deploying the Hugo site (see `hugo_deploy_start` and `hugo_deploy_next`).
pub fn deploy(config: &Config, platform: Platform) -> (res: (HugoDeploy, Action))
    ensures
        hugo_deploy_start(*config, platform, res.0@, res.1@),
        hugo_deploy_wf(res.0@),
{
    let (u, a) = Hugo::upgrade(config, platform);
    let mut s = HugoDeploy {
        upgrade: u,
        has_deploy: false,
        username: String::new(),
        org: String::new(),
        repo: String::new(),
        root: String::new(),
        files: Vec::new(),
        dirs: Vec::new(),
        values: Vec::new(),
        bucket: String::new(),
        rest: Vec::new(),
        stage: HugoDeployStage::Upgrading,
    };
    if let Some(h) = &config.hugo {
        if let Some(d) = &h.deploy {
            s.has_deploy = true;
            s.username = d.github.username.clone();
            s.org = d.github.org.clone();
            s.repo = d.github.repo.clone();
            s.root = d.oss.sync.root.clone();
            s.files = d.oss.sync.files.clone();
            s.dirs = d.oss.sync.dirs.clone();
            proof {
                assert(string_views(s.files@) =~= string_views(d.oss.sync.files@));
                assert(string_views(s.dirs@) =~= string_views(d.oss.sync.dirs@));
            }
        }
    }
    proof {
        assert(string_views(s.values@) =~= Seq::<Seq<char>>::empty());
        assert(steps_view(s.rest@) =~= Seq::<StepView>::empty());
    }
    s.lift(a)
}

} // verus!

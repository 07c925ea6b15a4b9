use vstd::prelude::*;
use crate::error::{OpsError, ErrorView, error_message};
use crate::text::{join_seqs, string_views, join_strings};

verus! {

/// What an operation acts on.
#[derive(Clone, Copy, Debug, PartialEq, Eq, Structural)]
pub enum Target {
    Hugo,
    Caddy,
}

/// Why an alarm is raised.
#[derive(Clone, Copy, Debug, PartialEq, Eq, Structural)]
pub enum Alarm {
    Login,
    ConnectRemote,
    ConnectLocal,
    Unlock,
}

/// The operation requested on the command line.
#[derive(Debug)]
pub enum Op {
    Upgrade(Target),
    Deploy(Target),
    Sync,
    Alarm { reason: Alarm, host: String },
}

/// The command line: the operation and the configuration file to read.
#[derive(Debug)]
pub struct Cli {
    pub op: Op,
    pub config: String,
}

/// Where notifications go, if anywhere.
pub enum Pushover {
    Silent,
    Notify { user_key: String, app_token: String },
}

/// The sound a notification plays.
#[derive(Clone, Copy, Debug, PartialEq, Eq, Structural)]
pub enum Sound {
    Bike,
    Falling,
}

/// A notification to send.
pub struct PushoverRequest {
    pub user_key: String,
    pub app_token: String,
    pub message: String,
    pub sound: Sound,
}

/// The operation sends notifications: deploys and alarms do.
pub open spec fn needs_pushover(op: Op) -> bool {
    op is Deploy || op is Alarm
}

/// The configuration file read when none is named.
pub open spec fn default_config_path() -> Seq<char> {
    "gitops.toml"@
}

/// How a deploy is written in the start notification.
pub open spec fn target_debug(t: Target) -> Seq<char> {
    match t {
        Target::Hugo => "Deploy(Hugo)"@,
        Target::Caddy => "Deploy(Caddy)"@,
    }
}

/// The start notification of a deploy.
pub open spec fn deploy_start_text(t: Target) -> Seq<char> {
    "开始执行GitOps："@ + target_debug(t)
}

/// The failure notification for an error with the given message.
pub open spec fn failure_text(reason: Seq<char>) -> Seq<char> {
    "GitOps执行失败！原因：\r\n"@ + reason
}

/// `req` is the notification of `message` with `sound` to the recipient of `p`,
/// and there is one exactly when `p` names a recipient.
pub open spec fn request_for(p: Pushover, message: Seq<char>, sound: Sound, req: Option<PushoverRequest>) -> bool {
    match p {
        Pushover::Silent => req is None,
        Pushover::Notify { user_key, app_token } => req matches Some(r) && r.user_key@ == user_key@
            && r.app_token@ == app_token@ && r.message@ == message && r.sound == sound,
    }
}

impl Op {
    /// Whether the operation sends notifications.
    pub fn need_pushover(&self) -> (res: bool)
        ensures
            res == needs_pushover(*self),
    {
        match self {
            Op::Deploy(_) | Op::Alarm { reason: _, host: _ } => true,
            _ => false,
        }
    }

    /// Whether the operation is a deploy.
    pub fn is_deploy(&self) -> (res: bool)
        ensures
            res == (*self is Deploy),
    {
        if let Op::Deploy(_) = self {
            true
        } else {
            false
        }
    }

    /// The notification that announces a deploy; none for other operations.
    pub fn deploy_start_message(&self) -> (res: Option<String>)
        ensures
            match *self {
                Op::Deploy(t) => res matches Some(m) && m@ == deploy_start_text(t),
                _ => res is None,
            },
    {
        match self {
            Op::Deploy(t) => {
                let mut m = "开始执行GitOps：".to_owned();
                match t {
                    Target::Hugo => m.append("Deploy(Hugo)"),
                    Target::Caddy => m.append("Deploy(Caddy)"),
                }
                Some(m)
            },
            _ => None,
        }
    }
}

impl Cli {
    /// The command line, reading `gitops.toml` when no configuration file is named.
    pub fn init(op: Op, config: Option<String>) -> (res: Cli)
        ensures
            res.op == op,
            res.config@ == match config {
                Some(c) => c@,
                None => default_config_path(),
            },
    {
        let config = match config {
            Some(c) => c,
            None => "gitops.toml".to_owned(),
        };
        Cli { op, config }
    }

    /// The notification recipient: none when the operation sends no
    /// notifications, otherwise the user key and application token read from
    /// the environment, failing on the first that could not be read.
    pub fn get_pushover(&self, user_key: Result<String, String>, app_token: Result<String, String>) -> (res: Result<Pushover, OpsError>)
        ensures
            !needs_pushover(self.op) ==> res matches Ok(Pushover::Silent),
            needs_pushover(self.op) ==> match (user_key, app_token) {
                (Err(m), _) => res matches Err(e) && e@ == ErrorView::Other(m@),
                (Ok(_), Err(m)) => res matches Err(e) && e@ == ErrorView::Other(m@),
                (Ok(u), Ok(a)) => res matches Ok(Pushover::Notify { user_key, app_token })
                    && user_key@ == u@ && app_token@ == a@,
            },
    {
        if self.op.need_pushover() {
            let user_key = match user_key {
                Ok(u) => u,
                Err(m) => { return Err(OpsError::Other(m)); },
            };
            let app_token = match app_token {
                Ok(a) => a,
                Err(m) => { return Err(OpsError::Other(m)); },
            };
            Ok(Pushover::Notify { user_key, app_token })
        } else {
            Ok(Pushover::Silent)
        }
    }
}

impl Pushover {
    /// The notification to send for `message` with `sound`; none when there
    /// is no recipient.
    pub fn send_if_some(&self, message: &str, sound: Sound) -> (res: Option<PushoverRequest>)
        ensures
            request_for(*self, message@, sound, res),
    {
        match self {
            Pushover::Silent => None,
            Pushover::Notify { user_key, app_token } => Some(PushoverRequest {
                user_key: user_key.clone(),
                app_token: app_token.clone(),
                message: message.to_owned(),
                sound,
            }),
        }
    }
}

/// What sending a notification amounts to: success when the service reported
/// no errors, otherwise its errors one per line, or the transport failure.
pub fn pushover_outcome(reply: Result<Option<Vec<String>>, String>) -> (res: Result<(), OpsError>)
    ensures
        match reply {
            Ok(None) => res is Ok,
            Ok(Some(errs)) => res matches Err(e) && e@ == ErrorView::Other(join_seqs(string_views(errs@), "\r\n"@)),
            Err(m) => res matches Err(e) && e@ == ErrorView::Other(m@),
        },
{
    match reply {
        Ok(None) => Ok(()),
        Ok(Some(errs)) => Err(OpsError::Other(join_strings(&errs, "\r\n"))),
        Err(m) => Err(OpsError::Other(m)),
    }
}

/// The failure notification for `reason`.
pub fn failure_message(reason: &str) -> (res: String)
    ensures
        res@ == failure_text(reason@),
{
    let mut m = "GitOps执行失败！原因：\r\n".to_owned();
    m.append(reason);
    m
}

/// The notification that reports `res` when it failed: the failure message
/// with the falling sound, to the recipient of `pushover`, if any.
pub fn hook_err<T>(res: &Result<T, OpsError>, pushover: &Pushover) -> (req: Option<PushoverRequest>)
    ensures
        match res {
            Ok(_) => req is None,
            Err(e) => request_for(*pushover, failure_text(error_message(e@)), Sound::Falling, req),
        },
{
    match res {
        Ok(_) => None,
        Err(e) => pushover.send_if_some(failure_message(e.message().as_str()).as_str(), Sound::Falling),
    }
}

/// Every deploy is an operation that sends notifications: what makes
/// `is_deploy` true also makes `need_pushover` true, so a deploy's start
/// notification always has its recipient read from the environment.
pub proof fn deploy_always_notifies(op: Op)
    ensures
        op is Deploy ==> needs_pushover(op),
{
}

} // verus!

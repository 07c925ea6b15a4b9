use vstd::prelude::*;
use vstd::utf8::encode_utf8;
use crate::names::{Tool, Platform, Hint, tool_name};
use crate::error::{OpsError, ErrorView};
use crate::archive::{ArchiveKind, unzip, unzip_outcome, is_byte_prefix, starts_with};
use crate::plan::{Action, ActionView, Event, EventView, EventKind, Command, CommandView, Program, check_status, status_outcome, event_kind};
use crate::text::string_views;

verus! {

/// Where an upgrade stands.
pub enum UpgradeStage {
    /// `<tool> version` was run.
    Probing,
    /// The system service is being connected to.
    Connecting,
    /// The release archive is being fetched.
    Downloading,
    /// The service is being stopped; the extracted executable waits to be written.
    Stopping(String, Vec<u8>),
    /// The extracted executable is being written under this name.
    Installing(String),
    /// The written executable is being made executable.
    Chmod,
    /// `caddy stop` was run.
    StoppingCaddy,
    /// `caddy start` was run.
    StartingCaddy,
    /// The system service is being started.
    StartingService,
    /// The upgrade is over.
    Over,
}

pub enum UpgradeStageView {
    Probing,
    Connecting,
    Downloading,
    Stopping(Seq<char>, Seq<u8>),
    Installing(Seq<char>),
    Chmod,
    StoppingCaddy,
    StartingCaddy,
    StartingService,
    Over,
}

/// An upgrade of a tool to a wanted version: it runs `<tool> version`, and
/// when the installed version is not the wanted one it downloads the release
/// archive, extracts the executable next to this tool's own, and (for Caddy)
/// restarts the server.
pub struct Upgrade {
    pub tool: Tool,
    pub platform: Platform,
    pub version: String,
    pub stage: UpgradeStage,
}

pub struct UpgradeView {
    pub tool: Tool,
    pub platform: Platform,
    pub version: Seq<char>,
    pub stage: UpgradeStageView,
}

impl View for Upgrade {
    type V = UpgradeView;

    open spec fn view(&self) -> UpgradeView {
        UpgradeView {
            tool: self.tool,
            platform: self.platform,
            version: self.version@,
            stage: match &self.stage {
                UpgradeStage::Probing => UpgradeStageView::Probing,
                UpgradeStage::Connecting => UpgradeStageView::Connecting,
                UpgradeStage::Downloading => UpgradeStageView::Downloading,
                UpgradeStage::Stopping(n, c) => UpgradeStageView::Stopping(n@, c@),
                UpgradeStage::Installing(n) => UpgradeStageView::Installing(n@),
                UpgradeStage::Chmod => UpgradeStageView::Chmod,
                UpgradeStage::StoppingCaddy => UpgradeStageView::StoppingCaddy,
                UpgradeStage::StartingCaddy => UpgradeStageView::StartingCaddy,
                UpgradeStage::StartingService => UpgradeStageView::StartingService,
                UpgradeStage::Over => UpgradeStageView::Over,
            },
        }
    }
}

/// What the installed tool's `version` output starts with when it is the wanted version.
pub open spec fn version_prefix(tool: Tool, version: Seq<char>) -> Seq<char> {
    match tool {
        Tool::Caddy => "v"@ + version,
        Tool::Hugo => "hugo v"@ + version,
    }
}

/// The last part of a release archive's name.
pub open spec fn release_suffix(tool: Tool, platform: Platform) -> Seq<char> {
    match (tool, platform) {
        (Tool::Caddy, Platform::Windows) => "windows_amd64.zip"@,
        (Tool::Caddy, _) => "linux_amd64.tar.gz"@,
        (Tool::Hugo, Platform::Windows) => "windows-amd64.zip"@,
        (Tool::Hugo, Platform::MacOs) => "darwin-universal.tar.gz"@,
        (Tool::Hugo, Platform::Linux) => "Linux-64bit.tar.gz"@,
    }
}

/// The URL of a release archive on GitHub.
pub open spec fn release_url(tool: Tool, platform: Platform, version: Seq<char>) -> Seq<char> {
    match tool {
        Tool::Caddy => "https://github.com/caddyserver/caddy/releases/download/v"@ + version + "/caddy_"@
            + version + "_"@ + release_suffix(tool, platform),
        Tool::Hugo => "https://github.com/gohugoio/hugo/releases/download/v"@ + version + "/hugo_extended_"@
            + version + "_"@ + release_suffix(tool, platform),
    }
}

/// Release archives are zip files on Windows and gzip-compressed tar files elsewhere.
pub open spec fn platform_archive(platform: Platform) -> ArchiveKind {
    if platform == Platform::Windows { ArchiveKind::Zip } else { ArchiveKind::TarGz }
}

/// Caddy on Windows runs as a system service, elsewhere as a background process.
pub open spec fn uses_service(tool: Tool, platform: Platform) -> bool {
    tool == Tool::Caddy && platform == Platform::Windows
}

/// `<tool> version`.
pub open spec fn version_command(tool: Tool) -> CommandView {
    CommandView { program: Program::Tool(tool), args: seq!["version"@] }
}

/// `caddy <arg>`.
pub open spec fn caddy_command(arg: Seq<char>) -> CommandView {
    CommandView { program: Program::Tool(Tool::Caddy), args: seq![arg] }
}

pub open spec fn with_stage(s: UpgradeView, stage: UpgradeStageView) -> UpgradeView {
    UpgradeView { stage, ..s }
}

pub open spec fn finish(s: UpgradeView, r: Result<(), ErrorView>) -> (UpgradeView, ActionView) {
    (with_stage(s, UpgradeStageView::Over), ActionView::Finish(r))
}

/// Starting the download: connect to the service first where there is one.
pub open spec fn fetch(s: UpgradeView) -> (UpgradeView, ActionView) {
    if uses_service(s.tool, s.platform) {
        (with_stage(s, UpgradeStageView::Connecting), ActionView::ConnectService(s.tool))
    } else {
        (with_stage(s, UpgradeStageView::Downloading), ActionView::Download(release_url(s.tool, s.platform, s.version)))
    }
}

/// After the executable is written under `name`: make that file executable
/// except on Windows; on Windows start the Caddy service again, or finish for Hugo.
pub open spec fn after_install(s: UpgradeView, name: Seq<char>) -> (UpgradeView, ActionView) {
    if s.platform != Platform::Windows {
        (with_stage(s, UpgradeStageView::Chmod), ActionView::MakeExecutable(name))
    } else if s.tool == Tool::Caddy {
        (with_stage(s, UpgradeStageView::StartingService), ActionView::StartService)
    } else {
        finish(s, Ok(()))
    }
}

/// The kind of event each stage waits for.
pub open spec fn upgrade_expects(stage: UpgradeStageView) -> EventKind {
    match stage {
        UpgradeStageView::Probing => EventKind::Probed,
        UpgradeStageView::Downloading => EventKind::Fetched,
        UpgradeStageView::StoppingCaddy | UpgradeStageView::StartingCaddy => EventKind::Exited,
        UpgradeStageView::Over => EventKind::Over,
        _ => EventKind::Done,
    }
}

/// One step of an upgrade.
pub open spec fn upgrade_next(s: UpgradeView, e: EventView) -> (UpgradeView, ActionView) {
    match (s.stage, e) {
        (UpgradeStageView::Probing, EventView::Probed(None)) => if s.tool == Tool::Caddy {
            finish(s, Err(ErrorView::NoInitialCaddy))
        } else {
            fetch(s)
        },
        (UpgradeStageView::Probing, EventView::Probed(Some((status, stdout)))) => if !status.success {
            finish(s, Err(ErrorView::VersionFailed(s.tool, status.code)))
        } else if is_byte_prefix(encode_utf8(version_prefix(s.tool, s.version)), stdout) {
            finish(s, Ok(()))
        } else {
            fetch(s)
        },
        (UpgradeStageView::Connecting, EventView::Done(Ok(()))) =>
            (with_stage(s, UpgradeStageView::Downloading), ActionView::Download(release_url(s.tool, s.platform, s.version))),
        (UpgradeStageView::Downloading, EventView::Fetched(Ok(bytes))) => if bytes.len() == 0 {
            finish(s, Err(ErrorView::EmptyDownload))
        } else {
            match unzip_outcome(platform_archive(s.platform), bytes, tool_name(s.tool)) {
                Err(err) => finish(s, Err(err)),
                Ok((name, contents)) => if uses_service(s.tool, s.platform) {
                    (with_stage(s, UpgradeStageView::Stopping(name, contents)), ActionView::StopService)
                } else {
                    (with_stage(s, UpgradeStageView::Installing(name)), ActionView::InstallTool(name, contents))
                },
            }
        },
        (UpgradeStageView::Stopping(name, contents), EventView::Done(Ok(()))) =>
            (with_stage(s, UpgradeStageView::Installing(name)), ActionView::InstallTool(name, contents)),
        (UpgradeStageView::Installing(name), EventView::Done(Ok(()))) => after_install(s, name),
        (UpgradeStageView::Chmod, EventView::Done(Ok(()))) => if s.tool == Tool::Caddy {
            (with_stage(s, UpgradeStageView::StoppingCaddy), ActionView::Run(caddy_command("stop"@)))
        } else {
            finish(s, Ok(()))
        },
        (UpgradeStageView::StoppingCaddy, EventView::Exited(Ok(status))) => match status_outcome(status, Hint::CaddyStop) {
            Ok(()) => (with_stage(s, UpgradeStageView::StartingCaddy), ActionView::Run(caddy_command("start"@))),
            Err(err) => finish(s, Err(err)),
        },
        (UpgradeStageView::StartingCaddy, EventView::Exited(Ok(status))) => finish(s, status_outcome(status, Hint::CaddyStart)),
        (UpgradeStageView::StartingService, EventView::Done(Ok(()))) => finish(s, Ok(())),
        (_, EventView::Done(Err(m))) => finish(s, Err(ErrorView::Other(m))),
        (_, EventView::Fetched(Err(m))) => finish(s, Err(ErrorView::Other(m))),
        (_, EventView::Exited(Err(m))) => finish(s, Err(ErrorView::Other(m))),
        // An answer of another kind is ruled out by the precondition on event kinds.
        _ => finish(s, Err(ErrorView::Todo)),
    }
}

fn release_url_string(tool: Tool, platform: Platform, version: &String) -> (res: String)
    ensures
        res@ == release_url(tool, platform, version@),
{
    let mut u = match tool {
        Tool::Caddy => "https://github.com/caddyserver/caddy/releases/download/v".to_owned(),
        Tool::Hugo => "https://github.com/gohugoio/hugo/releases/download/v".to_owned(),
    };
    u.append(version.as_str());
    match tool {
        Tool::Caddy => u.append("/caddy_"),
        Tool::Hugo => u.append("/hugo_extended_"),
    }
    u.append(version.as_str());
    u.append("_");
    let suffix = match (tool, platform) {
        (Tool::Caddy, Platform::Windows) => "windows_amd64.zip",
        (Tool::Caddy, _) => "linux_amd64.tar.gz",
        (Tool::Hugo, Platform::Windows) => "windows-amd64.zip",
        (Tool::Hugo, Platform::MacOs) => "darwin-universal.tar.gz",
        (Tool::Hugo, Platform::Linux) => "Linux-64bit.tar.gz",
    };
    u.append(suffix);
    u
}

fn single_arg_command(program: Program, arg: &str) -> (res: Command)
    ensures
        res@ == (CommandView { program, args: seq![arg@] }),
{
    let mut args: Vec<String> = Vec::new();
    args.push(arg.to_owned());
    assert(string_views(args@) =~= seq![arg@]);
    Command { program, args }
}

impl Upgrade {
    /// The stage as the view names it.
    pub open spec fn expects(&self) -> EventKind {
        upgrade_expects(self@.stage)
    }

    /// The kind of event the upgrade waits for.
    pub fn expected(&self) -> (res: EventKind)
        ensures
            res == self.expects(),
    {
        match &self.stage {
            UpgradeStage::Probing => EventKind::Probed,
            UpgradeStage::Downloading => EventKind::Fetched,
            UpgradeStage::StoppingCaddy | UpgradeStage::StartingCaddy => EventKind::Exited,
            UpgradeStage::Over => EventKind::Over,
            _ => EventKind::Done,
        }
    }

    /// An upgrade that first runs `<tool> version`.
    pub fn probe(tool: Tool, platform: Platform, version: String) -> (res: (Upgrade, Action))
        ensures
            res.0@ == (UpgradeView { tool, platform, version: version@, stage: UpgradeStageView::Probing }),
            res.1@ == ActionView::Probe(version_command(tool)),
    {
        (Upgrade { tool, platform, version, stage: UpgradeStage::Probing }, Action::Probe(single_arg_command(Program::Tool(tool), "version")))
    }

    /// An upgrade that is already over with `err`.
    pub fn failed(tool: Tool, platform: Platform, err: OpsError) -> (res: (Upgrade, Action))
        ensures
            res.0@ == (UpgradeView { tool, platform, version: Seq::empty(), stage: UpgradeStageView::Over }),
            res.1@ == ActionView::Finish(Err(err@)),
    {
        (Upgrade { tool, platform, version: String::new(), stage: UpgradeStage::Over }, Action::Finish(Err(err)))
    }

    fn finish(self, r: Result<(), OpsError>) -> (res: (Upgrade, Action))
        ensures
            (res.0@, res.1@) == finish(self@, match r { Ok(()) => Ok(()), Err(e) => Err(e@) }),
    {
        (Upgrade { stage: UpgradeStage::Over, ..self }, Action::Finish(r))
    }

    fn fetch(self) -> (res: (Upgrade, Action))
        ensures
            (res.0@, res.1@) == fetch(self@),
    {
        if self.tool == Tool::Caddy && self.platform == Platform::Windows {
            let tool = self.tool;
            (Upgrade { stage: UpgradeStage::Connecting, ..self }, Action::ConnectService(tool))
        } else {
            let url = release_url_string(self.tool, self.platform, &self.version);
            (Upgrade { stage: UpgradeStage::Downloading, ..self }, Action::Download(url))
        }
    }

    /// Takes the answer to the pending action and gives the next one (see `upgrade_next`).
    pub fn next(self, event: Event) -> (res: (Upgrade, Action))
        requires
            event_kind(event@) == self.expects(),
        ensures
            (res.0@, res.1@) == upgrade_next(self@, event@),
    {
        let tool = self.tool;
        let platform = self.platform;
        match (self.stage, event) {
            (UpgradeStage::Probing, Event::Probed(None)) => {
                let s = Upgrade { stage: UpgradeStage::Probing, ..self };
                if tool == Tool::Caddy {
                    s.finish(Err(OpsError::NoInitialCaddy))
                } else {
                    s.fetch()
                }
            },
            (UpgradeStage::Probing, Event::Probed(Some(out))) => {
                let s = Upgrade { stage: UpgradeStage::Probing, ..self };
                if !out.status.success {
                    s.finish(Err(OpsError::VersionFailed(tool, out.status.code)))
                } else {
                    let mut prefix = match tool {
                        Tool::Caddy => "v".to_owned(),
                        Tool::Hugo => "hugo v".to_owned(),
                    };
                    prefix.append(s.version.as_str());
                    let bytes = prefix.as_str().as_bytes();
                    if starts_with(out.stdout.as_slice(), bytes) {
                        s.finish(Ok(()))
                    } else {
                        s.fetch()
                    }
                }
            },
            (UpgradeStage::Connecting, Event::Done(Ok(()))) => {
                let url = release_url_string(tool, platform, &self.version);
                (Upgrade { stage: UpgradeStage::Downloading, ..self }, Action::Download(url))
            },
            (UpgradeStage::Downloading, Event::Fetched(Ok(bytes))) => {
                let s = Upgrade { stage: UpgradeStage::Downloading, ..self };
                if bytes.len() == 0 {
                    s.finish(Err(OpsError::EmptyDownload))
                } else {
                    let kind = if platform == Platform::Windows { ArchiveKind::Zip } else { ArchiveKind::TarGz };
                    match unzip(bytes.as_slice(), tool.name(), kind) {
                        Err(err) => s.finish(Err(err)),
                        Ok((name, contents)) => {
                            if tool == Tool::Caddy && platform == Platform::Windows {
                                (Upgrade { stage: UpgradeStage::Stopping(name, contents), ..s }, Action::StopService)
                            } else {
                                let file = name.clone();
                                (Upgrade { stage: UpgradeStage::Installing(name), ..s }, Action::InstallTool(file, contents))
                            }
                        },
                    }
                }
            },
            (UpgradeStage::Stopping(name, contents), Event::Done(Ok(()))) => {
                let file = name.clone();
                (Upgrade { stage: UpgradeStage::Installing(name), ..self }, Action::InstallTool(file, contents))
            },
            (UpgradeStage::Installing(name), Event::Done(Ok(()))) => {
                if platform != Platform::Windows {
                    (Upgrade { stage: UpgradeStage::Chmod, ..self }, Action::MakeExecutable(name))
                } else if tool == Tool::Caddy {
                    (Upgrade { stage: UpgradeStage::StartingService, ..self }, Action::StartService)
                } else {
                    (Upgrade { stage: UpgradeStage::Over, ..self }, Action::Finish(Ok(())))
                }
            },
            (UpgradeStage::Chmod, Event::Done(Ok(()))) => {
                if tool == Tool::Caddy {
                    (Upgrade { stage: UpgradeStage::StoppingCaddy, ..self }, Action::Run(single_arg_command(Program::Tool(Tool::Caddy), "stop")))
                } else {
                    (Upgrade { stage: UpgradeStage::Over, ..self }, Action::Finish(Ok(())))
                }
            },
            (UpgradeStage::StoppingCaddy, Event::Exited(Ok(status))) => {
                match check_status(status, Hint::CaddyStop) {
                    Ok(()) => (Upgrade { stage: UpgradeStage::StartingCaddy, ..self }, Action::Run(single_arg_command(Program::Tool(Tool::Caddy), "start"))),
                    Err(err) => (Upgrade { stage: UpgradeStage::Over, ..self }, Action::Finish(Err(err))),
                }
            },
            (UpgradeStage::StartingCaddy, Event::Exited(Ok(status))) => {
                (Upgrade { stage: UpgradeStage::Over, ..self }, Action::Finish(check_status(status, Hint::CaddyStart)))
            },
            (UpgradeStage::StartingService, Event::Done(Ok(()))) => {
                (Upgrade { stage: UpgradeStage::Over, ..self }, Action::Finish(Ok(())))
            },
            (_, Event::Done(Err(m))) => (Upgrade { stage: UpgradeStage::Over, ..self }, Action::Finish(Err(OpsError::Other(m)))),
            (_, Event::Fetched(Err(m))) => (Upgrade { stage: UpgradeStage::Over, ..self }, Action::Finish(Err(OpsError::Other(m)))),
            (_, Event::Exited(Err(m))) => (Upgrade { stage: UpgradeStage::Over, ..self }, Action::Finish(Err(OpsError::Other(m)))),
            // An answer of another kind is ruled out by the precondition on event kinds.
            _ => (Upgrade { stage: UpgradeStage::Over, ..self }, Action::Finish(Err(OpsError::Todo))),
        }
    }
}

} // verus!

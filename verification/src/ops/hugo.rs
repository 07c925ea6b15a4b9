use vstd::prelude::*;
use crate::config::Config;
use crate::error::{OpsError, ErrorView};
use crate::names::{Section, Tool, Platform};
use crate::ops::upgrade::{Upgrade, UpgradeView, UpgradeStageView, version_command};
use crate::plan::{Action, ActionView, Program};
pub use crate::ops::hugo_deploy::deploy;

verus! {

/// The `[hugo]` section: the wanted Hugo version and where the site is published.
pub struct HugoConfig {
    pub version: String,
    pub deploy: Option<DeployConfig>,
}

/// The `[hugo.deploy]` section.
pub struct DeployConfig {
    pub github: GithubConfig,
    pub oss: OssConfig,
}

/// The GitHub repository that receives the built site. The token and the
/// committer identity come from the environment when a deploy runs.
pub struct GithubConfig {
    pub username: String,
    pub org: String,
    pub repo: String,
    pub access_token: Option<String>,
    pub user_email: Option<String>,
    pub user_name: Option<String>,
}

/// The object-storage buckets that receive the built site. The keys come
/// from the environment when a deploy runs.
pub struct OssConfig {
    pub sync: OssSyncConfig,
    pub access_key_id: Option<String>,
    pub access_key_secret: Option<String>,
}

/// What is uploaded: single files, and directories kept in sync.
pub struct OssSyncConfig {
    pub root: String,
    pub files: Vec<String>,
    pub dirs: Vec<String>,
}

/// The Hugo executable that deploys run: the one installed next to this
/// tool's own executable.
pub struct Hugo(pub Program);

/// How a Hugo upgrade begins: it needs the `[hugo]` section and first runs
/// `hugo version`.
pub open spec fn hugo_upgrade_start(config: Config, platform: Platform) -> (UpgradeView, ActionView) {
    match config.hugo {
        None => (UpgradeView { tool: Tool::Hugo, platform, version: Seq::empty(), stage: UpgradeStageView::Over },
            ActionView::Finish(Err(ErrorView::MissingSection(Section::Hugo)))),
        Some(h) => (UpgradeView { tool: Tool::Hugo, platform, version: h.version@, stage: UpgradeStageView::Probing },
            ActionView::Probe(version_command(Tool::Hugo))),
    }
}

impl Hugo {
    /// The Hugo executable that an upgrade installs.
    pub fn installed() -> (res: Hugo)
        ensures
            res.0 == Program::Tool(Tool::Hugo),
    {
        Hugo(Program::Tool(Tool::Hugo))
    }

    /// Starts upgrading Hugo to the version of the `[hugo]` section (see
    /// `hugo_upgrade_start` and `upgrade_next`); a missing Hugo is simply downloaded.
    pub fn upgrade(config: &Config, platform: Platform) -> (res: (Upgrade, Action))
        ensures
            (res.0@, res.1@) == hugo_upgrade_start(*config, platform),
    {
        match &config.hugo {
            None => Upgrade::failed(Tool::Hugo, platform, OpsError::MissingSection(Section::Hugo)),
            Some(h) => Upgrade::probe(Tool::Hugo, platform, h.version.clone()),
        }
    }
}

} // verus!

use vstd::prelude::*;

verus! {

/// A section of the configuration file whose absence stops an operation.
#[derive(Clone, Copy, Debug, PartialEq, Eq, Structural)]
pub enum Section {
    Caddy,
    CaddyDeploy,
    Hugo,
    HugoDeploy,
    Sync,
}

pub open spec fn section_name(s: Section) -> Seq<char> {
    match s {
        Section::Caddy => "caddy"@,
        Section::CaddyDeploy => "caddy.deploy"@,
        Section::Hugo => "hugo"@,
        Section::HugoDeploy => "hugo.deploy"@,
        Section::Sync => "sync"@,
    }
}

impl Section {
    /// The section's dotted name in the configuration file.
    pub fn name(&self) -> (res: &'static str)
        ensures
            res@ == section_name(*self),
    {
        match self {
            Section::Caddy => "caddy",
            Section::CaddyDeploy => "caddy.deploy",
            Section::Hugo => "hugo",
            Section::HugoDeploy => "hugo.deploy",
            Section::Sync => "sync",
        }
    }
}

/// An environment variable that an operation reads.
#[derive(Clone, Copy, Debug, PartialEq, Eq, Structural)]
pub enum EnvKey {
    PushoverUserKey,
    PushoverAppToken,
    OssAccessKeyId,
    OssAccessKeySecret,
    OssOpsBucket,
    OssOpsEndpoint,
    OssDraftBucket,
    OssDraftEndpoint,
    OssProdBucket,
    OssProdEndpoint,
    HugoDraftBaseUrl,
    DeployGithubAccessToken,
    DeployGithubUserEmail,
    DeployGithubUserName,
}

pub open spec fn env_key_name(k: EnvKey) -> Seq<char> {
    match k {
        EnvKey::PushoverUserKey => "PUSHOVER_USER_KEY"@,
        EnvKey::PushoverAppToken => "PUSHOVER_APP_TOKEN"@,
        EnvKey::OssAccessKeyId => "OSS_ACCESS_KEY_ID"@,
        EnvKey::OssAccessKeySecret => "OSS_ACCESS_KEY_SECRET"@,
        EnvKey::OssOpsBucket => "OSS_OPS_BUCKET"@,
        EnvKey::OssOpsEndpoint => "OSS_OPS_ENDPOINT"@,
        EnvKey::OssDraftBucket => "OSS_DRAFT_BUCKET"@,
        EnvKey::OssDraftEndpoint => "OSS_DRAFT_ENDPOINT"@,
        EnvKey::OssProdBucket => "OSS_PROD_BUCKET"@,
        EnvKey::OssProdEndpoint => "OSS_PROD_ENDPOINT"@,
        EnvKey::HugoDraftBaseUrl => "HUGO_DRAFT_BASE_URL"@,
        EnvKey::DeployGithubAccessToken => "DEPLOY_GITHUB_ACCESS_TOKEN"@,
        EnvKey::DeployGithubUserEmail => "DEPLOY_GITHUB_USER_EMAIL"@,
        EnvKey::DeployGithubUserName => "DEPLOY_GITHUB_USER_NAME"@,
    }
}

impl EnvKey {
    /// The variable's name in the process environment.
    pub fn name(&self) -> (res: &'static str)
        ensures
            res@ == env_key_name(*self),
    {
        match self {
            EnvKey::PushoverUserKey => "PUSHOVER_USER_KEY",
            EnvKey::PushoverAppToken => "PUSHOVER_APP_TOKEN",
            EnvKey::OssAccessKeyId => "OSS_ACCESS_KEY_ID",
            EnvKey::OssAccessKeySecret => "OSS_ACCESS_KEY_SECRET",
            EnvKey::OssOpsBucket => "OSS_OPS_BUCKET",
            EnvKey::OssOpsEndpoint => "OSS_OPS_ENDPOINT",
            EnvKey::OssDraftBucket => "OSS_DRAFT_BUCKET",
            EnvKey::OssDraftEndpoint => "OSS_DRAFT_ENDPOINT",
            EnvKey::OssProdBucket => "OSS_PROD_BUCKET",
            EnvKey::OssProdEndpoint => "OSS_PROD_ENDPOINT",
            EnvKey::HugoDraftBaseUrl => "HUGO_DRAFT_BASE_URL",
            EnvKey::DeployGithubAccessToken => "DEPLOY_GITHUB_ACCESS_TOKEN",
            EnvKey::DeployGithubUserEmail => "DEPLOY_GITHUB_USER_EMAIL",
            EnvKey::DeployGithubUserName => "DEPLOY_GITHUB_USER_NAME",
        }
    }
}

/// A program that is installed next to this tool's own executable.
#[derive(Clone, Copy, Debug, PartialEq, Eq, Structural)]
pub enum Tool {
    Caddy,
    Hugo,
}

pub open spec fn tool_name(t: Tool) -> Seq<char> {
    match t {
        Tool::Caddy => "caddy"@,
        Tool::Hugo => "hugo"@,
    }
}

impl Tool {
    /// The executable's file name, which is also the name archives use for it.
    pub fn name(&self) -> (res: &'static str)
        ensures
            res@ == tool_name(*self),
    {
        match self {
            Tool::Caddy => "caddy",
            Tool::Hugo => "hugo",
        }
    }
}

/// The label under which a failed command is reported.
#[derive(Clone, Copy, Debug, PartialEq, Eq, Structural)]
pub enum Hint {
    Git,
    Hugo,
    CaddyStop,
    CaddyStart,
}

pub open spec fn hint_name(h: Hint) -> Seq<char> {
    match h {
        Hint::Git => "git"@,
        Hint::Hugo => "hugo"@,
        Hint::CaddyStop => "caddy stop"@,
        Hint::CaddyStart => "caddy start"@,
    }
}

impl Hint {
    /// The label's text.
    pub fn name(&self) -> (res: &'static str)
        ensures
            res@ == hint_name(*self),
    {
        match self {
            Hint::Git => "git",
            Hint::Hugo => "hugo",
            Hint::CaddyStop => "caddy stop",
            Hint::CaddyStart => "caddy start",
        }
    }
}

/// The operating system the tool runs on; it selects release archives and
/// how the Caddy service is stopped and started.
#[derive(Clone, Copy, Debug, PartialEq, Eq, Structural)]
pub enum Platform {
    Linux,
    Windows,
    MacOs,
}

} // verus!

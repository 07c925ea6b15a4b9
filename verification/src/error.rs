use vstd::prelude::*;
use crate::names::{Section, EnvKey, Tool, Hint, section_name, env_key_name, tool_name, hint_name};
use crate::text::{int_decimal, i32_decimal};

verus! {

/// Why an operation failed.
#[derive(Debug, PartialEq, Eq)]
pub enum OpsError {
    /// A site block lists no address.
    EmptyAddrs,
    /// A configuration section is absent.
    MissingSection(Section),
    /// An environment variable is unset or not valid Unicode.
    MissingEnv(EnvKey),
    /// `<tool> version` ran and exited unsuccessfully, with this exit code if any.
    VersionFailed(Tool, Option<i32>),
    /// There is no Caddy executable to upgrade.
    NoInitialCaddy,
    /// A download returned no bytes.
    EmptyDownload,
    /// The operation is not offered on this platform.
    UnsupportedPlatform,
    /// A command exited unsuccessfully, with this exit code if any.
    CommandFailed(Hint, Option<i32>),
    /// An archive entry's path leaves the extraction directory.
    UnenclosedPath,
    /// An archive entry's path has no file name.
    MissingFileName,
    /// An archive entry's file name is not valid UTF-8.
    FileNameEncoding,
    /// No archive entry's file name starts with this name.
    ExecutableNotFound(String),
    /// An outside crate or service failed with this message.
    Other(String),
    /// The requested operation is not wired up yet.
    Todo,
}

/// `OpsError` with its text as character sequences.
pub enum ErrorView {
    EmptyAddrs,
    MissingSection(Section),
    MissingEnv(EnvKey),
    VersionFailed(Tool, Option<i32>),
    NoInitialCaddy,
    EmptyDownload,
    UnsupportedPlatform,
    CommandFailed(Hint, Option<i32>),
    UnenclosedPath,
    MissingFileName,
    FileNameEncoding,
    ExecutableNotFound(Seq<char>),
    Other(Seq<char>),
    Todo,
}

impl View for OpsError {
    type V = ErrorView;

    open spec fn view(&self) -> ErrorView {
        match self {
            OpsError::EmptyAddrs => ErrorView::EmptyAddrs,
            OpsError::MissingSection(s) => ErrorView::MissingSection(*s),
            OpsError::MissingEnv(k) => ErrorView::MissingEnv(*k),
            OpsError::VersionFailed(t, c) => ErrorView::VersionFailed(*t, *c),
            OpsError::NoInitialCaddy => ErrorView::NoInitialCaddy,
            OpsError::EmptyDownload => ErrorView::EmptyDownload,
            OpsError::UnsupportedPlatform => ErrorView::UnsupportedPlatform,
            OpsError::CommandFailed(h, c) => ErrorView::CommandFailed(*h, *c),
            OpsError::UnenclosedPath => ErrorView::UnenclosedPath,
            OpsError::MissingFileName => ErrorView::MissingFileName,
            OpsError::FileNameEncoding => ErrorView::FileNameEncoding,
            OpsError::ExecutableNotFound(n) => ErrorView::ExecutableNotFound(n@),
            OpsError::Other(m) => ErrorView::Other(m@),
            OpsError::Todo => ErrorView::Todo,
        }
    }
}

/// An exit code as it appears in messages: its decimal form, or `None`.
pub open spec fn code_text(code: Option<i32>) -> Seq<char> {
    match code {
        Some(c) => int_decimal(c as int),
        None => "None"@,
    }
}

/// The message that reports an error.
pub open spec fn error_message(e: ErrorView) -> Seq<char> {
    match e {
        ErrorView::EmptyAddrs => "addrs不能为空！"@,
        ErrorView::MissingSection(s) => "找不到["@ + section_name(s) + "]字段！"@,
        ErrorView::MissingEnv(k) => "找不到环境变量：\""@ + env_key_name(k) + "\""@,
        ErrorView::VersionFailed(t, c) => tool_name(t) + " version执行失败！退出码："@ + code_text(c),
        ErrorView::NoInitialCaddy => "需要先手动部署一个初始版本的caddy！"@,
        ErrorView::EmptyDownload => "未下载任何内容！"@,
        ErrorView::UnsupportedPlatform => "不支持macOS！"@,
        ErrorView::CommandFailed(h, c) => hint_name(h) + "命令执行失败！退出码："@ + code_text(c),
        ErrorView::UnenclosedPath => "压缩文件路径异常！"@,
        ErrorView::MissingFileName => "压缩文件名异常！"@,
        ErrorView::FileNameEncoding => "压缩文件名编码异常！"@,
        ErrorView::ExecutableNotFound(n) => "压缩包中未找到"@ + n + "执行文件！"@,
        ErrorView::Other(m) => m,
        ErrorView::Todo => "暂时todo！"@,
    }
}

fn code_string(code: Option<i32>) -> (res: String)
    ensures
        res@ == code_text(code),
{
    match code {
        Some(c) => i32_decimal(c),
        None => "None".to_owned(),
    }
}

impl OpsError {
    /// The message that reports this error.
    pub fn message(&self) -> (res: String)
        ensures
            res@ == error_message(self@),
    {
        match self {
            OpsError::EmptyAddrs => "addrs不能为空！".to_owned(),
            OpsError::MissingSection(s) => {
                let mut m = "找不到[".to_owned();
                m.append(s.name());
                m.append("]字段！");
                m
            },
            OpsError::MissingEnv(k) => {
                let mut m = "找不到环境变量：\"".to_owned();
                m.append(k.name());
                m.append("\"");
                m
            },
            OpsError::VersionFailed(t, c) => {
                let mut m = t.name().to_owned();
                m.append(" version执行失败！退出码：");
                m.append(code_string(*c).as_str());
                m
            },
            OpsError::NoInitialCaddy => "需要先手动部署一个初始版本的caddy！".to_owned(),
            OpsError::EmptyDownload => "未下载任何内容！".to_owned(),
            OpsError::UnsupportedPlatform => "不支持macOS！".to_owned(),
            OpsError::CommandFailed(h, c) => {
                let mut m = h.name().to_owned();
                m.append("命令执行失败！退出码：");
                m.append(code_string(*c).as_str());
                m
            },
            OpsError::UnenclosedPath => "压缩文件路径异常！".to_owned(),
            OpsError::MissingFileName => "压缩文件名异常！".to_owned(),
            OpsError::FileNameEncoding => "压缩文件名编码异常！".to_owned(),
            OpsError::ExecutableNotFound(n) => {
                let mut m = "压缩包中未找到".to_owned();
                m.append(n.as_str());
                m.append("执行文件！");
                m
            },
            OpsError::Other(m) => m.clone(),
            OpsError::Todo => "暂时todo！".to_owned(),
        }
    }
}

impl Clone for OpsError {
    /// The same error.
    fn clone(&self) -> (res: Self)
        ensures
            res@ == self@,
    {
        match self {
            OpsError::EmptyAddrs => OpsError::EmptyAddrs,
            OpsError::MissingSection(s) => OpsError::MissingSection(*s),
            OpsError::MissingEnv(k) => OpsError::MissingEnv(*k),
            OpsError::VersionFailed(t, c) => OpsError::VersionFailed(*t, *c),
            OpsError::NoInitialCaddy => OpsError::NoInitialCaddy,
            OpsError::EmptyDownload => OpsError::EmptyDownload,
            OpsError::UnsupportedPlatform => OpsError::UnsupportedPlatform,
            OpsError::CommandFailed(h, c) => OpsError::CommandFailed(*h, *c),
            OpsError::UnenclosedPath => OpsError::UnenclosedPath,
            OpsError::MissingFileName => OpsError::MissingFileName,
            OpsError::FileNameEncoding => OpsError::FileNameEncoding,
            OpsError::ExecutableNotFound(n) => OpsError::ExecutableNotFound(n.clone()),
            OpsError::Other(m) => OpsError::Other(m.clone()),
            OpsError::Todo => OpsError::Todo,
        }
    }
}

} // verus!

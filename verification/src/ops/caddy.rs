use vstd::prelude::*;
use crate::error::{OpsError, ErrorView};
use crate::text::{join_seqs, string_views, join_strings};
use crate::names::{Section, Tool, Platform};
use crate::ops::upgrade::{Upgrade, UpgradeView, UpgradeStageView, version_command};
use crate::plan::{Action, ActionView};
pub use crate::ops::caddy_deploy::deploy;
use crate::config::Config;

verus! {

/// The `[caddy]` section: the wanted Caddy version, where the generated
/// files are published, and the sites to serve.
pub struct CaddyConfig {
    pub version: String,
    pub deploy: Option<DeployConfig>,
    pub routes: Option<Routes>,
}

/// The `[caddy.deploy]` section.
pub struct DeployConfig {
    pub oss: OssConfig,
}

/// The object-storage bucket that receives the generated files. The keys,
/// bucket and endpoint come from the environment when a deploy runs.
pub struct OssConfig {
    pub root: String,
    pub access_key_id: Option<String>,
    pub access_key_secret: Option<String>,
    pub ops_bucket: Option<String>,
    pub ops_endpoint: Option<String>,
}

/// The sites of the Caddyfile, by kind.
pub struct Routes {
    pub fs: Option<Vec<FileServer>>,
    pub redirs: Option<Vec<AddrsBackend>>,
    pub rev_proxies: Option<Vec<AddrsBackend>>,
}

/// A site that serves a directory with a browsable file server.
pub struct FileServer {
    pub addrs: Vec<String>,
    pub dir: String,
}

/// A site that redirects to, or reverse-proxies, a backend.
pub struct AddrsBackend {
    pub addrs: Vec<String>,
    pub backend: String,
}

/// The site addresses as a Caddyfile lists them.
pub open spec fn addrs_text(addrs: Seq<String>) -> Seq<char> {
    join_seqs(string_views(addrs), ", "@)
}

/// The site block of a file server.
pub open spec fn fs_block(f: FileServer) -> Seq<char> {
    addrs_text(f.addrs@) + " {\r\n  root "@ + f.dir@ + "\r\n  file_server browse\r\n}"@
}

/// The site block of a redirect.
pub open spec fn redir_block(b: AddrsBackend) -> Seq<char> {
    addrs_text(b.addrs@) + " {\r\n  redir https://"@ + b.backend@ + "{uri}\r\n}"@
}

/// The site block of a reverse proxy.
pub open spec fn proxy_block(b: AddrsBackend) -> Seq<char> {
    addrs_text(b.addrs@) + " {\r\n  reverse_proxy "@ + b.backend@ + "\r\n}"@
}

/// What rendering a site block gives: the block when the site has an
/// address, `EmptyAddrs` when it has none.
pub open spec fn block_outcome(has_addrs: bool, block: Seq<char>, res: Result<String, OpsError>) -> bool {
    match res {
        Ok(s) => has_addrs && s@ == block,
        Err(e) => !has_addrs && e@ == ErrorView::EmptyAddrs,
    }
}

pub open spec fn fs_blocks(fs: Option<Vec<FileServer>>) -> Seq<Seq<char>> {
    match fs {
        Some(v) => v@.map_values(|f: FileServer| fs_block(f)),
        None => Seq::empty(),
    }
}

pub open spec fn redir_blocks(r: Option<Vec<AddrsBackend>>) -> Seq<Seq<char>> {
    match r {
        Some(v) => v@.map_values(|b: AddrsBackend| redir_block(b)),
        None => Seq::empty(),
    }
}

pub open spec fn proxy_blocks(r: Option<Vec<AddrsBackend>>) -> Seq<Seq<char>> {
    match r {
        Some(v) => v@.map_values(|b: AddrsBackend| proxy_block(b)),
        None => Seq::empty(),
    }
}

/// Every file server of the list has an address.
pub open spec fn fs_valid(fs: Option<Vec<FileServer>>) -> bool {
    match fs {
        Some(v) => forall|i: int| 0 <= i < v@.len() ==> #[trigger] v@[i].addrs@.len() > 0,
        None => true,
    }
}

/// Every site of the list has an address.
pub open spec fn backends_valid(r: Option<Vec<AddrsBackend>>) -> bool {
    match r {
        Some(v) => forall|i: int| 0 <= i < v@.len() ==> #[trigger] v@[i].addrs@.len() > 0,
        None => true,
    }
}

/// Every site of the routes has an address.
pub open spec fn routes_valid(r: Routes) -> bool {
    fs_valid(r.fs) && backends_valid(r.redirs) && backends_valid(r.rev_proxies)
}

/// The site blocks of the routes: file servers, then redirects, then reverse proxies.
pub open spec fn route_blocks(r: Routes) -> Seq<Seq<char>> {
    fs_blocks(r.fs) + redir_blocks(r.redirs) + proxy_blocks(r.rev_proxies)
}

/// The site blocks of the routes, separated by blank lines.
pub open spec fn routes_text(r: Routes) -> Seq<char> {
    join_seqs(route_blocks(r), "\r\n\r\n"@)
}

/// Every site of the configuration has an address.
pub open spec fn caddy_valid(c: CaddyConfig) -> bool {
    match c.routes {
        Some(r) => routes_valid(r),
        None => true,
    }
}

/// The Caddyfile of a configuration.
pub open spec fn caddyfile_text(c: CaddyConfig) -> Seq<char> {
    match c.routes {
        Some(r) => routes_text(r) + "\r\n"@,
        None => "\r\n"@,
    }
}

/// Fails with `EmptyAddrs` when a site lists no address.
pub fn check_addrs(addrs: &[String]) -> (res: Result<(), OpsError>)
    ensures
        res is Ok <==> addrs@.len() > 0,
        res matches Err(e) ==> e@ == ErrorView::EmptyAddrs,
{
    if addrs.len() == 0 {
        Err(OpsError::EmptyAddrs)
    } else {
        Ok(())
    }
}

impl FileServer {
    /// The site block that serves `dir` on the site's addresses.
    pub fn to_fs_site_block(&self) -> (res: Result<String, OpsError>)
        ensures
            block_outcome(self.addrs@.len() > 0, fs_block(*self), res),
    {
        check_addrs(self.addrs.as_slice())?;
        let mut s = join_strings(&self.addrs, ", ");
        s.append(" {\r\n  root ");
        s.append(self.dir.as_str());
        s.append("\r\n  file_server browse\r\n}");
        Ok(s)
    }
}

impl AddrsBackend {
    /// The site block that redirects the site's addresses to the backend over HTTPS.
    pub fn to_redir_site_block(&self) -> (res: Result<String, OpsError>)
        ensures
            block_outcome(self.addrs@.len() > 0, redir_block(*self), res),
    {
        check_addrs(self.addrs.as_slice())?;
        let mut s = join_strings(&self.addrs, ", ");
        s.append(" {\r\n  redir https://");
        s.append(self.backend.as_str());
        s.append("{uri}\r\n}");
        Ok(s)
    }

    /// The site block that reverse-proxies the site's addresses to the backend.
    pub fn to_proxy_site_block(&self) -> (res: Result<String, OpsError>)
        ensures
            block_outcome(self.addrs@.len() > 0, proxy_block(*self), res),
    {
        check_addrs(self.addrs.as_slice())?;
        let mut s = join_strings(&self.addrs, ", ");
        s.append(" {\r\n  reverse_proxy ");
        s.append(self.backend.as_str());
        s.append("\r\n}");
        Ok(s)
    }
}

/// Renders each item of `r` with `f` and appends the blocks to `blocks`, in
/// order, stopping at the first failure, which it returns.
pub fn push_site_blocks<T>(
    r: &Vec<T>,
    blocks: &mut Vec<String>,
    f: impl Fn(&T) -> Result<String, OpsError>,
) -> (res: Result<(), OpsError>)
    requires
        forall|i: int| 0 <= i < r@.len() ==> f.requires((&#[trigger] r@[i],)),
    ensures
        final(blocks)@.take(old(blocks)@.len() as int) == old(blocks)@,
        res is Ok ==> final(blocks)@.len() == old(blocks)@.len() + r@.len(),
        res matches Err(e) ==> old(blocks)@.len() <= final(blocks)@.len() < old(blocks)@.len() + r@.len()
            && f.ensures((&r@[final(blocks)@.len() - old(blocks)@.len()],), Err(e)),
        forall|i: int| 0 <= i < final(blocks)@.len() - old(blocks)@.len()
            ==> f.ensures((&#[trigger] r@[i],), Ok(final(blocks)@[old(blocks)@.len() + i])),
{
    let ghost start = blocks@.len();
    let n = r.len();
    let mut i: usize = 0;
    while i < n
        invariant
            n == r@.len(),
            i <= n,
            forall|j: int| 0 <= j < r@.len() ==> f.requires((&#[trigger] r@[j],)),
            blocks@.len() == start + i,
            blocks@.take(start as int) == old(blocks)@,
            start == old(blocks)@.len(),
            forall|j: int| 0 <= j < i ==> f.ensures((&#[trigger] r@[j],), Ok(blocks@[start + j])),
        decreases n - i,
    {
        let b = f(&r[i]);
        match b {
            Ok(s) => {
                let ghost before = blocks@;
                blocks.push(s);
                assert(blocks@.take(start as int) =~= before.take(start as int));
                assert(blocks@[start + i] == s);
            },
            Err(e) => {
                return Err(e);
            },
        }
        i = i + 1;
    }
    Ok(())
}

impl Routes {
    /// All site blocks, separated by blank lines: file servers first, then
    /// redirects, then reverse proxies.
    pub fn join_site_blocks(&self) -> (res: Result<String, OpsError>)
        ensures
            match res {
                Ok(s) => routes_valid(*self) && s@ == routes_text(*self),
                Err(e) => !routes_valid(*self) && e@ == ErrorView::EmptyAddrs,
            },
    {
        let mut blocks: Vec<String> = Vec::new();
        if let Some(fs) = &self.fs {
            match push_site_blocks(fs, &mut blocks, FileServer::to_fs_site_block) {
                Ok(()) => {},
                Err(e) => {
                    let ghost k = blocks@.len() as int;
                    assert(fs@[k].addrs@.len() == 0);
                    return Err(e);
                },
            }
        }
        assert(string_views(blocks@) =~= fs_blocks(self.fs));
        let ghost after_fs = blocks@;
        if let Some(redirs) = &self.redirs {
            match push_site_blocks(redirs, &mut blocks, AddrsBackend::to_redir_site_block) {
                Ok(()) => {},
                Err(e) => {
                    let ghost k = blocks@.len() - after_fs.len();
                    assert(redirs@[k].addrs@.len() == 0);
                    return Err(e);
                },
            }
            assert(string_views(blocks@) =~= string_views(after_fs) + redir_blocks(self.redirs)) by {
                assert forall|i: int| after_fs.len() <= i < blocks@.len() implies
                    #[trigger] blocks@[i]@ == redir_block(redirs@[i - after_fs.len()]) by {
                    let j = i - after_fs.len();
                    assert(blocks@[after_fs.len() + j] == blocks@[i]);
                };
                assert forall|i: int| 0 <= i < after_fs.len() implies
                    #[trigger] blocks@[i] == after_fs[i] by {
                    assert(blocks@.take(after_fs.len() as int)[i] == blocks@[i]);
                };
            };
        }
        assert(string_views(blocks@) =~= fs_blocks(self.fs) + redir_blocks(self.redirs));
        let ghost after_redirs = blocks@;
        if let Some(proxies) = &self.rev_proxies {
            match push_site_blocks(proxies, &mut blocks, AddrsBackend::to_proxy_site_block) {
                Ok(()) => {},
                Err(e) => {
                    let ghost k = blocks@.len() - after_redirs.len();
                    assert(proxies@[k].addrs@.len() == 0);
                    return Err(e);
                },
            }
            assert(string_views(blocks@) =~= string_views(after_redirs) + proxy_blocks(self.rev_proxies)) by {
                assert forall|i: int| after_redirs.len() <= i < blocks@.len() implies
                    #[trigger] blocks@[i]@ == proxy_block(proxies@[i - after_redirs.len()]) by {
                    let j = i - after_redirs.len();
                    assert(blocks@[after_redirs.len() + j] == blocks@[i]);
                };
                assert forall|i: int| 0 <= i < after_redirs.len() implies
                    #[trigger] blocks@[i] == after_redirs[i] by {
                    assert(blocks@.take(after_redirs.len() as int)[i] == blocks@[i]);
                };
            };
        }
        assert(string_views(blocks@) =~= route_blocks(*self));
        Ok(join_strings(&blocks, "\r\n\r\n"))
    }
}

} // verus!

verus! {

impl Default for CaddyConfig {
    /// An empty version with no deploy target and no routes.
    fn default() -> (res: Self)
        ensures
            res.version@ == Seq::<char>::empty(),
            res.deploy is None,
            res.routes is None,
    {
        CaddyConfig { version: String::new(), deploy: None, routes: None }
    }
}

impl CaddyConfig {
    /// The Caddyfile: the site blocks separated by blank lines, then a line break.
    pub fn get_caddyfile(&self) -> (res: Result<String, OpsError>)
        ensures
            match res {
                Ok(s) => caddy_valid(*self) && s@ == caddyfile_text(*self),
                Err(e) => !caddy_valid(*self) && e@ == ErrorView::EmptyAddrs,
            },
    {
        let mut s = match &self.routes {
            Some(r) => r.join_site_blocks()?,
            None => String::new(),
        };
        s.append("\r\n");
        Ok(s)
    }

    /// A configuration that names only a version.
    pub fn version(version: &str) -> (res: Self)
        ensures
            res.version@ == version@,
            res.deploy is None,
            res.routes is None,
    {
        let d = Self::default();
        CaddyConfig { version: version.to_owned(), deploy: d.deploy, routes: d.routes }
    }
}

/// The `[caddy]` section, or `MissingSection(Caddy)` when it is absent.
pub fn get_config(config: &Config) -> (res: Result<&CaddyConfig, OpsError>)
    ensures
        match res {
            Ok(c) => config.caddy == Some(*c),
            Err(e) => config.caddy is None && e@ == ErrorView::MissingSection(Section::Caddy),
        },
{
    match &config.caddy {
        Some(c) => Ok(c),
        None => Err(OpsError::MissingSection(Section::Caddy)),
    }
}

} // verus!

verus! {

/// How a Caddy upgrade begins: not offered on macOS; otherwise it needs the
/// `[caddy]` section and first runs `caddy version`.
pub open spec fn caddy_upgrade_start(config: Config, platform: Platform) -> (UpgradeView, ActionView) {
    if platform == Platform::MacOs {
        (UpgradeView { tool: Tool::Caddy, platform, version: Seq::empty(), stage: UpgradeStageView::Over },
         ActionView::Finish(Err(ErrorView::UnsupportedPlatform)))
    } else {
        match config.caddy {
            None => (UpgradeView { tool: Tool::Caddy, platform, version: Seq::empty(), stage: UpgradeStageView::Over },
                ActionView::Finish(Err(ErrorView::MissingSection(Section::Caddy)))),
            Some(c) => (UpgradeView { tool: Tool::Caddy, platform, version: c.version@, stage: UpgradeStageView::Probing },
                ActionView::Probe(version_command(Tool::Caddy))),
        }
    }
}

/// Starts upgrading Caddy to the version of the `[caddy]` section (see
/// `caddy_upgrade_start` and `upgrade_next`).
pub fn upgrade(config: &Config, platform: Platform) -> (res: (Upgrade, Action))
    ensures
        (res.0@, res.1@) == caddy_upgrade_start(*config, platform),
{
    if platform == Platform::MacOs {
        return Upgrade::failed(Tool::Caddy, platform, OpsError::UnsupportedPlatform);
    }
    match get_config(config) {
        Err(e) => Upgrade::failed(Tool::Caddy, platform, e),
        Ok(c) => Upgrade::probe(Tool::Caddy, platform, c.version.clone()),
    }
}

} // verus!

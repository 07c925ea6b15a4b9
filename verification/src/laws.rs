use vstd::prelude::*;
use vstd::utf8::{encode_utf8, decode_utf8};
use crate::archive::{
    ArchiveKind, SlotView, NameView, unzip_outcome, entry_count, entry_slot, entry_contents, first_stop,
    is_byte_prefix,
};
use crate::names::Tool;
use crate::plan::{EventView, EventKind, StepView, Check, AdvanceView, ExitStatus, ActionView, advance_spec, event_kind};
use crate::ops::upgrade::{UpgradeView, upgrade_next, version_prefix, uses_service, release_url};
use crate::ops::caddy_deploy::{CaddyDeployView, CaddyDeployStage, caddy_deploy_next, caddy_deploy_wf};
use crate::ops::hugo_deploy::{HugoDeployView, HugoDeployStage, hugo_deploy_next, hugo_deploy_wf};
use crate::ops::sync::{SyncView, SyncStage, sync_next};
use crate::error::ErrorView;

verus! {

/// No answer is expected once an operation is over: no event is of the kind `Over`.
pub proof fn over_takes_no_event(e: EventView)
    ensures
        event_kind(e) != EventKind::Over,
{
}

/// An upgrade says `Finish` exactly when it moves to its final stage.
pub proof fn upgrade_finishes_when_over(s: UpgradeView, e: EventView)
    ensures
        (upgrade_next(s, e).1 is Finish) <==> (upgrade_next(s, e).0.stage is Over),
{
}

/// A Caddy deploy says `Finish` exactly when it moves to its final stage.
pub proof fn caddy_deploy_finishes_when_over(s: CaddyDeployView, e: EventView)
    requires
        caddy_deploy_wf(s),
    ensures
        (caddy_deploy_next(s, e).1 is Finish) <==> (caddy_deploy_next(s, e).0.stage is Over),
{
    if let CaddyDeployStage::Script(c) = s.stage {
        crate::plan::advance_keeps_no_finish(s.rest, c, e);
    }
}

/// A Hugo deploy says `Finish` exactly when it moves to its final stage; the
/// end of the Hugo upgrade it starts with is not the end of the deploy.
pub proof fn hugo_deploy_finishes_when_over(s: HugoDeployView, e: EventView)
    requires
        hugo_deploy_wf(s),
    ensures
        (hugo_deploy_next(s, e).1 is Finish) <==> (hugo_deploy_next(s, e).0.stage is Over),
{
    match s.stage {
        HugoDeployStage::Publishing(_, c) | HugoDeployStage::Uploading(_, c) => {
            crate::plan::advance_keeps_no_finish(s.rest, c, e);
        },
        _ => {},
    }
}

/// A sync says `Finish` exactly when it moves to its final stage.
pub proof fn sync_finishes_when_over(s: SyncView, e: EventView)
    ensures
        (sync_next(s, e).1 is Finish) <==> (sync_next(s, e).0.stage is Over),
{
}

/// When `<tool> version` reports the wanted version, the upgrade ends
/// successfully without downloading anything.
pub proof fn current_version_is_kept(s: UpgradeView, status: ExitStatus, stdout: Seq<u8>)
    requires
        s.stage is Probing,
        status.success,
        is_byte_prefix(encode_utf8(version_prefix(s.tool, s.version)), stdout),
    ensures
        upgrade_next(s, EventView::Probed(Some((status, stdout)))).1 == ActionView::Finish(Ok(())),
{
}

/// When the installed version is another one, the release of the wanted
/// version is fetched (on Windows, Caddy's service is connected to first).
pub proof fn other_version_is_fetched(s: UpgradeView, status: ExitStatus, stdout: Seq<u8>)
    requires
        s.stage is Probing,
        status.success,
        !is_byte_prefix(encode_utf8(version_prefix(s.tool, s.version)), stdout),
    ensures
        upgrade_next(s, EventView::Probed(Some((status, stdout)))).1 == if uses_service(s.tool, s.platform) {
            ActionView::ConnectService(s.tool)
        } else {
            ActionView::Download(release_url(s.tool, s.platform, s.version))
        },
{
}

/// Caddy must already be installed to be upgraded, while a missing Hugo is
/// simply fetched.
pub proof fn missing_tool(s: UpgradeView)
    requires
        s.stage is Probing,
    ensures
        s.tool == Tool::Caddy ==> upgrade_next(s, EventView::Probed(None)).1 == ActionView::Finish(Err(ErrorView::NoInitialCaddy)),
        s.tool == Tool::Hugo ==> !(upgrade_next(s, EventView::Probed(None)).1 is Finish),
{
}

/// An empty download is never installed.
pub proof fn empty_download_is_refused(s: UpgradeView)
    requires
        s.stage is Downloading,
    ensures
        upgrade_next(s, EventView::Fetched(Ok(Seq::empty()))).1 == ActionView::Finish(Err(ErrorView::EmptyDownload)),
{
}

/// Where Caddy runs as a service, the executable is only overwritten after
/// the service was stopped.
pub proof fn service_stopped_before_install(s: UpgradeView, e: EventView)
    requires
        uses_service(s.tool, s.platform),
        upgrade_next(s, e).1 is InstallTool,
    ensures
        s.stage is Stopping,
{
}

/// A commit that finds nothing to commit skips exactly the push after it;
/// every other successful step is followed by the next one.
pub proof fn empty_commit_skips_push(rest: Seq<StepView>, status: ExitStatus)
    requires
        !status.success,
        rest.len() >= 2,
    ensures
        advance_spec(rest, Check::Commit, EventView::Exited(Ok(status))).1
            == AdvanceView::Next(rest[1].action, rest[1].check),
        advance_spec(rest, Check::Commit, EventView::Exited(Ok(status))).0 == rest.skip(2),
{
    assert(rest.skip(1).drop_first() =~= rest.skip(2));
}

/// After a step succeeds, a script takes its next step in order.
pub proof fn scripts_run_in_order(rest: Seq<StepView>)
    requires
        rest.len() >= 1,
    ensures
        advance_spec(rest, Check::Done, EventView::Done(Ok(()))) == (rest.drop_first(), AdvanceView::Next(rest[0].action, rest[0].check)),
{
    assert(rest.skip(0) =~= rest);
}

/// The draft site is published before the production site: the production
/// pass only begins when the draft pass's upload has finished.
pub proof fn draft_before_production(s: HugoDeployView, e: EventView)
    requires
        hugo_deploy_next(s, e).0.stage == HugoDeployStage::Clearing(false),
        s.stage != HugoDeployStage::Clearing(false),
    ensures
        s.stage matches HugoDeployStage::Uploading(draft, _) && draft,
{
}

/// A sync writes each fetched file under the path it was fetched by.
pub proof fn fetched_files_are_written(s: SyncView, i: usize, bytes: Seq<u8>)
    requires
        s.stage == SyncStage::Getting(i),
    ensures
        sync_next(s, EventView::Fetched(Ok(bytes))).1 == ActionView::WriteFile(s.files[i as int], bytes),
{
}

/// The executable taken from an archive is the first entry, in archive
/// order, whose file name starts with the wanted name; every entry before it
/// has a readable UTF-8 name that does not.
pub proof fn archive_takes_first_match(kind: ArchiveKind, z: Seq<u8>, e_name: Seq<char>)
    ensures
        unzip_outcome(kind, z, e_name) matches Ok((name, contents)) ==> exists|k: int| {
            &&& #[trigger] first_stop(kind, z, encode_utf8(e_name), entry_count(kind, z)->Ok_0 as int, k)
            &&& entry_slot(kind, z, k) matches SlotView::Entry(NameView::Bytes(b))
            &&& is_byte_prefix(encode_utf8(e_name), b)
            &&& name == decode_utf8(b)
            &&& entry_contents(kind, z, k) == Ok::<Seq<u8>, Seq<char>>(contents)
        },
{
    let prefix = encode_utf8(e_name);
    if let Ok(n) = entry_count(kind, z) {
        if exists|k: int| first_stop(kind, z, prefix, n as int, k) {
            let k = choose|k: int| first_stop(kind, z, prefix, n as int, k);
            assert(first_stop(kind, z, prefix, n as int, k));
        }
    }
}

} // verus!

verus! {

/// The Caddyfile has one site block per configured site: file servers
/// first, then redirects, then reverse proxies, each list in its order.
pub proof fn one_block_per_site(r: crate::ops::caddy::Routes)
    ensures
        crate::ops::caddy::route_blocks(r).len() == crate::ops::caddy::fs_blocks(r.fs).len()
            + crate::ops::caddy::redir_blocks(r.redirs).len() + crate::ops::caddy::proxy_blocks(r.rev_proxies).len(),
        r.fs matches Some(v) ==> forall|i: int| 0 <= i < v@.len()
            ==> crate::ops::caddy::route_blocks(r)[i] == crate::ops::caddy::fs_block(#[trigger] v@[i]),
{
}

/// A Caddy deploy writes nothing before all four credentials are read: while
/// reading them it only reads the next one or stops.
pub proof fn credentials_before_side_effects(s: CaddyDeployView, e: EventView)
    requires
        s.stage matches CaddyDeployStage::Env(i) && i < 3,
    ensures
        caddy_deploy_next(s, e).1 is ReadEnv || caddy_deploy_next(s, e).1 is Finish,
{
}

} // verus!

verus! {

/// A pass of a Hugo deploy opens the bucket it read from the environment at
/// the endpoint it read from the environment, with the configured root and
/// the object-storage keys read earlier (4th and 5th credentials).
pub proof fn site_bucket_is_the_one_read(s: HugoDeployView, draft: bool, b: Seq<char>, ep: Seq<char>)
    requires
        s.stage == HugoDeployStage::Bucket(draft),
        s.values.len() == 5,
    ensures
        ({
            let (s1, a1) = hugo_deploy_next(s, EventView::Env(Some(b)));
            let (s2, a2) = hugo_deploy_next(s1, EventView::Env(Some(ep)));
            &&& a1 == ActionView::ReadEnv(if draft { crate::names::EnvKey::OssDraftEndpoint } else { crate::names::EnvKey::OssProdEndpoint })
            &&& a2 matches ActionView::OpenBucket(bv)
            &&& bv.bucket == b
            &&& bv.endpoint == ep
            &&& bv.root == s.root
            &&& bv.access_key_id == s.values[3]
            &&& bv.access_key_secret == s.values[4]
        }),
{
}

/// A Caddy deploy uploads under `Caddyfile` exactly the bytes it writes to
/// the local `Caddyfile`: the UTF-8 text of the Caddyfile rendered from the
/// `[caddy]` section, once the four credentials are read.
pub proof fn uploaded_caddyfile_is_the_written_one(
    config: crate::config::Config,
    s0: CaddyDeployView,
    a0: ActionView,
    v0: Seq<char>,
    v1: Seq<char>,
    v2: Seq<char>,
    v3: Seq<char>,
)
    requires
        crate::ops::caddy_deploy::caddy_deploy_start(config, s0, a0),
        config.caddy matches Some(c) && c.deploy is Some && crate::ops::caddy::caddy_valid(c),
    ensures
        ({
            let c = config.caddy->Some_0;
            let text = encode_utf8(crate::ops::caddy::caddyfile_text(c));
            let (s1, a1) = caddy_deploy_next(s0, EventView::Env(Some(v0)));
            let (s2, a2) = caddy_deploy_next(s1, EventView::Env(Some(v1)));
            let (s3, a3) = caddy_deploy_next(s2, EventView::Env(Some(v2)));
            let (s4, a4) = caddy_deploy_next(s3, EventView::Env(Some(v3)));
            &&& a4 == ActionView::WriteFile("Caddyfile"@, text)
            &&& exists|i: int| 0 <= i < s4.rest.len()
                && #[trigger] s4.rest[i].action == ActionView::PutObject("Caddyfile"@, text)
            &&& forall|i: int| 0 <= i < s4.rest.len() && (#[trigger] s4.rest[i]).action is PutObject
                && s4.rest[i].action->PutObject_0 == "Caddyfile"@ ==> s4.rest[i].action->PutObject_1 == text
        }),
{
    let c = config.caddy->Some_0;
    let text = encode_utf8(crate::ops::caddy::caddyfile_text(c));
    let (s1, a1) = caddy_deploy_next(s0, EventView::Env(Some(v0)));
    let (s2, a2) = caddy_deploy_next(s1, EventView::Env(Some(v1)));
    let (s3, a3) = caddy_deploy_next(s2, EventView::Env(Some(v2)));
    let (s4, a4) = caddy_deploy_next(s3, EventView::Env(Some(v3)));
    assert(s4.rest[4].action == ActionView::PutObject("Caddyfile"@, text));
}

/// When `caddy stop` fails, the upgrade stops there with that failure and its
/// exit code: `caddy start` is not run. When it succeeds, `caddy start` is run.
pub proof fn failed_stop_ends_upgrade(s: UpgradeView, status: ExitStatus)
    requires
        s.stage is StoppingCaddy,
    ensures
        !status.success ==> upgrade_next(s, EventView::Exited(Ok(status))).1
            == ActionView::Finish(Err(ErrorView::CommandFailed(crate::names::Hint::CaddyStop, status.code)))
            && upgrade_next(s, EventView::Exited(Ok(status))).0.stage is Over,
        status.success ==> upgrade_next(s, EventView::Exited(Ok(status))).1
            == ActionView::Run(crate::plan::CommandView { program: crate::plan::Program::Tool(Tool::Caddy), args: seq!["start"@] }),
{
}

/// The release of a version on GitHub, written out per tool and platform.
pub open spec fn github_release(tool: Tool, platform: crate::names::Platform, v: Seq<char>) -> Seq<char> {
    match (tool, platform) {
        (Tool::Hugo, crate::names::Platform::Linux) => "https://github.com/gohugoio/hugo/releases/download/v"@ + v
            + "/hugo_extended_"@ + v + "_"@ + "Linux-64bit.tar.gz"@,
        (Tool::Hugo, crate::names::Platform::MacOs) => "https://github.com/gohugoio/hugo/releases/download/v"@ + v
            + "/hugo_extended_"@ + v + "_"@ + "darwin-universal.tar.gz"@,
        (Tool::Hugo, crate::names::Platform::Windows) => "https://github.com/gohugoio/hugo/releases/download/v"@ + v
            + "/hugo_extended_"@ + v + "_"@ + "windows-amd64.zip"@,
        (Tool::Caddy, crate::names::Platform::Windows) => "https://github.com/caddyserver/caddy/releases/download/v"@ + v
            + "/caddy_"@ + v + "_"@ + "windows_amd64.zip"@,
        (Tool::Caddy, _) => "https://github.com/caddyserver/caddy/releases/download/v"@ + v
            + "/caddy_"@ + v + "_"@ + "linux_amd64.tar.gz"@,
    }
}

/// `hugo version` output that starts with `hugo v<wanted version>` keeps the
/// installed Hugo; any other successful output downloads the wanted release.
pub proof fn hugo_version_decides_download(s: UpgradeView, status: ExitStatus, stdout: Seq<u8>)
    requires
        s.tool == Tool::Hugo,
        s.stage is Probing,
        status.success,
    ensures
        is_byte_prefix(encode_utf8("hugo v"@ + s.version), stdout) ==>
            upgrade_next(s, EventView::Probed(Some((status, stdout)))).1 == ActionView::Finish(Ok(())),
        !is_byte_prefix(encode_utf8("hugo v"@ + s.version), stdout) ==>
            upgrade_next(s, EventView::Probed(Some((status, stdout)))).1
                == ActionView::Download(github_release(Tool::Hugo, s.platform, s.version)),
{
    assert(release_url(s.tool, s.platform, s.version) =~= github_release(Tool::Hugo, s.platform, s.version));
}

/// `caddy version` output that starts with `v<wanted version>` keeps the
/// installed Caddy; any other successful output fetches the wanted release
/// (on Windows after connecting to the service).
pub proof fn caddy_version_decides_download(s: UpgradeView, status: ExitStatus, stdout: Seq<u8>)
    requires
        s.tool == Tool::Caddy,
        s.stage is Probing,
        status.success,
    ensures
        is_byte_prefix(encode_utf8("v"@ + s.version), stdout) ==>
            upgrade_next(s, EventView::Probed(Some((status, stdout)))).1 == ActionView::Finish(Ok(())),
        !is_byte_prefix(encode_utf8("v"@ + s.version), stdout) && s.platform != crate::names::Platform::Windows ==>
            upgrade_next(s, EventView::Probed(Some((status, stdout)))).1
                == ActionView::Download(github_release(Tool::Caddy, s.platform, s.version)),
{
    assert(release_url(s.tool, s.platform, s.version) =~= github_release(Tool::Caddy, s.platform, s.version));
}

/// The bucket a sync opens is the `[sync]` section's bucket, endpoint and
/// root, reached with the two keys read from the environment, without
/// content-type guessing.
pub proof fn sync_opens_configured_bucket(
    config: crate::config::Config,
    s0: SyncView,
    a0: ActionView,
    id: Seq<char>,
    secret: Seq<char>,
)
    requires
        crate::ops::sync::sync_start(config, s0, a0),
        config.sync is Some,
    ensures
        ({
            let c = config.sync->Some_0;
            let (s1, a1) = sync_next(s0, EventView::Env(Some(id)));
            let (s2, a2) = sync_next(s1, EventView::Env(Some(secret)));
            &&& a0 == ActionView::ReadEnv(crate::names::EnvKey::OssAccessKeyId)
            &&& a1 == ActionView::ReadEnv(crate::names::EnvKey::OssAccessKeySecret)
            &&& a2 matches ActionView::OpenBucket(bv)
            &&& bv.root == c.root@
            &&& bv.bucket == c.bucket@
            &&& bv.endpoint == c.endpoint@
            &&& bv.access_key_id == id
            &&& bv.access_key_secret == secret
            &&& !bv.guess_mime
        }),
{
    let (s1, a1) = sync_next(s0, EventView::Env(Some(id)));
    assert(s1.values =~= seq![id]);
    let (s2, a2) = sync_next(s1, EventView::Env(Some(secret)));
    assert(s2.values =~= seq![id, secret]);
}

} // verus!

verus! {

/// A Caddy deploy opens the operations bucket under the `[caddy.deploy]`
/// root with the four credentials in the order read (key id, key secret,
/// bucket, endpoint), guessing content types, and uploads `gitops.toml` with
/// the `[caddy]` section's version.
pub proof fn ops_bucket_is_the_one_read(
    config: crate::config::Config,
    s0: CaddyDeployView,
    a0: ActionView,
    v0: Seq<char>,
    v1: Seq<char>,
    v2: Seq<char>,
    v3: Seq<char>,
)
    requires
        crate::ops::caddy_deploy::caddy_deploy_start(config, s0, a0),
        config.caddy matches Some(c) && c.deploy is Some && crate::ops::caddy::caddy_valid(c),
    ensures
        ({
            let c = config.caddy->Some_0;
            let d = c.deploy->Some_0;
            let (s1, a1) = caddy_deploy_next(s0, EventView::Env(Some(v0)));
            let (s2, a2) = caddy_deploy_next(s1, EventView::Env(Some(v1)));
            let (s3, a3) = caddy_deploy_next(s2, EventView::Env(Some(v2)));
            let (s4, a4) = caddy_deploy_next(s3, EventView::Env(Some(v3)));
            &&& a0 == ActionView::ReadEnv(crate::names::EnvKey::OssAccessKeyId)
            &&& a1 == ActionView::ReadEnv(crate::names::EnvKey::OssAccessKeySecret)
            &&& a2 == ActionView::ReadEnv(crate::names::EnvKey::OssOpsBucket)
            &&& a3 == ActionView::ReadEnv(crate::names::EnvKey::OssOpsEndpoint)
            &&& exists|i: int| 0 <= i < s4.rest.len()
                && #[trigger] s4.rest[i].action == ActionView::OpenBucket(crate::plan::BucketView {
                    root: d.oss.root@,
                    access_key_id: v0,
                    access_key_secret: v1,
                    bucket: v2,
                    endpoint: v3,
                    guess_mime: true,
                })
            &&& exists|i: int| 0 <= i < s4.rest.len()
                && #[trigger] s4.rest[i].action == ActionView::PutVersionConfig("gitops.toml"@, c.version@)
        }),
{
    let (s1, a1) = caddy_deploy_next(s0, EventView::Env(Some(v0)));
    let (s2, a2) = caddy_deploy_next(s1, EventView::Env(Some(v1)));
    let (s3, a3) = caddy_deploy_next(s2, EventView::Env(Some(v2)));
    let (s4, a4) = caddy_deploy_next(s3, EventView::Env(Some(v3)));
    let c = config.caddy->Some_0;
    let d = c.deploy->Some_0;
    assert(s1.values =~= seq![v0]);
    assert(s2.values =~= seq![v0, v1]);
    assert(s3.values =~= seq![v0, v1, v2]);
    assert(s4.values =~= seq![v0, v1, v2, v3]);
    let bv = crate::plan::BucketView { root: d.oss.root@, access_key_id: v0, access_key_secret: v1, bucket: v2, endpoint: v3, guess_mime: true };
    assert(crate::ops::caddy_deploy::ops_bucket(s3.root, s4.values) == bv);
    assert(s4.rest[3].action == ActionView::OpenBucket(bv));
    assert(s4.rest[5].action == ActionView::PutVersionConfig("gitops.toml"@, c.version@));
}

/// The draft pass builds with `hugo -b <base URL> -D -F`, clones
/// `https://<user>:<token>@github.com/<org>/<repo>.git` with the token read
/// first, and commits as the e-mail and name read second and third.
pub proof fn draft_build_and_clone(s: HugoDeployView, url: Seq<char>)
    requires
        s.stage == HugoDeployStage::BaseUrl,
        s.values.len() == 5,
    ensures
        ({
            let (s1, a1) = hugo_deploy_next(s, EventView::Env(Some(url)));
            let all = seq![crate::plan::step(a1, Check::Done)] + s1.rest;
            let clone_url = "https://"@ + s.username + ":"@ + s.values[0] + "@github.com/"@ + s.org + "/"@ + s.repo + ".git"@;
            &&& exists|i: int| 0 <= i < all.len()
                && #[trigger] all[i].action == ActionView::Run(crate::plan::CommandView {
                    program: crate::plan::Program::Tool(Tool::Hugo),
                    args: seq!["-b"@, url, "-D"@, "-F"@],
                })
            &&& exists|i: int| 0 <= i < all.len()
                && #[trigger] all[i].action == ActionView::Run(crate::plan::CommandView {
                    program: crate::plan::Program::Git,
                    args: seq!["clone"@, clone_url],
                })
            &&& exists|i: int| 0 <= i < all.len()
                && #[trigger] all[i].action == ActionView::Run(crate::plan::CommandView {
                    program: crate::plan::Program::Git,
                    args: seq!["config"@, "user.email"@, s.values[1]],
                })
            &&& exists|i: int| 0 <= i < all.len()
                && #[trigger] all[i].action == ActionView::Run(crate::plan::CommandView {
                    program: crate::plan::Program::Git,
                    args: seq!["config"@, "user.name"@, s.values[2]],
                })
        }),
{
    let (s1, a1) = hugo_deploy_next(s, EventView::Env(Some(url)));
    let all = seq![crate::plan::step(a1, Check::Done)] + s1.rest;
    let clone_url = "https://"@ + s.username + ":"@ + s.values[0] + "@github.com/"@ + s.org + "/"@ + s.repo + ".git"@;
    assert(all[1].action == ActionView::Run(crate::plan::CommandView {
        program: crate::plan::Program::Tool(Tool::Hugo), args: seq!["-b"@, url, "-D"@, "-F"@] }));
    assert(all[3].action == ActionView::Run(crate::plan::CommandView {
        program: crate::plan::Program::Git, args: seq!["clone"@, clone_url] }));
    assert(all[5].action == ActionView::Run(crate::plan::CommandView {
        program: crate::plan::Program::Git, args: seq!["config"@, "user.email"@, s.values[1]] }));
    assert(all[6].action == ActionView::Run(crate::plan::CommandView {
        program: crate::plan::Program::Git, args: seq!["config"@, "user.name"@, s.values[2]] }));
}

} // verus!

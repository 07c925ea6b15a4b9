use vstd::prelude::*;
use crate::config::Config;
use crate::error::{OpsError, ErrorView};
use crate::names::{Section, EnvKey};
use crate::plan::{Action, ActionView, Event, EventView, EventKind, BucketParams, BucketView, event_kind};
use crate::text::string_views;

verus! {

/// The `[sync]` section: the bucket to fetch from and the files to fetch.
/// The keys come from the environment when a sync runs.
pub struct SyncConfig {
    pub bucket: String,
    pub endpoint: String,
    pub root: String,
    pub files: Vec<String>,
    pub access_key_id: Option<String>,
    pub access_key_secret: Option<String>,
}

/// Where a sync stands.
#[derive(Clone, Copy, Debug, PartialEq, Eq, Structural)]
pub enum SyncStage {
    /// Reading the `n`-th credential from the environment.
    Env(usize),
    /// Opening the bucket.
    Opening,
    /// Fetching the `n`-th file.
    Getting(usize),
    /// Writing the `n`-th file.
    Writing(usize),
    Over,
}

/// A sync: it reads the bucket credentials from the environment, then
/// fetches each listed file from the bucket and writes it under the same
/// path, in order.
pub struct SyncRun {
    pub bucket: String,
    pub endpoint: String,
    pub root: String,
    pub files: Vec<String>,
    pub values: Vec<String>,
    pub stage: SyncStage,
}

pub struct SyncView {
    pub bucket: Seq<char>,
    pub endpoint: Seq<char>,
    pub root: Seq<char>,
    pub files: Seq<Seq<char>>,
    pub values: Seq<Seq<char>>,
    pub stage: SyncStage,
}

impl View for SyncRun {
    type V = SyncView;

    open spec fn view(&self) -> SyncView {
        SyncView {
            bucket: self.bucket@,
            endpoint: self.endpoint@,
            root: self.root@,
            files: string_views(self.files@),
            values: string_views(self.values@),
            stage: self.stage,
        }
    }
}

/// The credentials a sync reads, in order.
pub open spec fn sync_key(i: int) -> EnvKey {
    if i == 0 { EnvKey::OssAccessKeyId } else { EnvKey::OssAccessKeySecret }
}

/// The bucket of the `[sync]` section, reached with the credentials read.
pub open spec fn sync_bucket(s: SyncView) -> BucketView {
    BucketView {
        root: s.root,
        access_key_id: s.values[0],
        access_key_secret: s.values[1],
        bucket: s.bucket,
        endpoint: s.endpoint,
        guess_mime: false,
    }
}

/// The stage numbers stay within the credentials and the file list.
pub open spec fn sync_wf(s: SyncView) -> bool {
    match s.stage {
        SyncStage::Env(i) => i <= 1 && s.values.len() == i,
        SyncStage::Opening => s.values.len() == 2,
        SyncStage::Getting(i) | SyncStage::Writing(i) => i < s.files.len(),
        SyncStage::Over => true,
    }
}

/// How a sync begins: it needs the `[sync]` section and reads the first credential.
pub open spec fn sync_start(config: Config, s: SyncView, a: ActionView) -> bool {
    match config.sync {
        None => s.stage == SyncStage::Over && a == ActionView::Finish(Err(ErrorView::MissingSection(Section::Sync))),
        Some(c) => {
            &&& s.stage == SyncStage::Env(0)
            &&& a == ActionView::ReadEnv(sync_key(0))
            &&& s.bucket == c.bucket@
            &&& s.endpoint == c.endpoint@
            &&& s.root == c.root@
            &&& s.files == string_views(c.files@)
            &&& s.values.len() == 0
        },
    }
}

pub open spec fn sync_over(s: SyncView, r: Result<(), ErrorView>) -> (SyncView, ActionView) {
    (SyncView { stage: SyncStage::Over, ..s }, ActionView::Finish(r))
}

/// Fetching the `i`-th file, or finishing when there is none.
pub open spec fn sync_fetch(s: SyncView, i: int) -> (SyncView, ActionView) {
    if i < s.files.len() {
        (SyncView { stage: SyncStage::Getting(i as usize), ..s }, ActionView::GetObject(s.files[i]))
    } else {
        sync_over(s, Ok(()))
    }
}

/// The kind of event each stage waits for.
pub open spec fn sync_expects(stage: SyncStage) -> EventKind {
    match stage {
        SyncStage::Env(_) => EventKind::Env,
        SyncStage::Getting(_) => EventKind::Fetched,
        SyncStage::Over => EventKind::Over,
        _ => EventKind::Done,
    }
}

/// One step of a sync.
pub open spec fn sync_next(s: SyncView, e: EventView) -> (SyncView, ActionView) {
    match (s.stage, e) {
        (SyncStage::Env(i), EventView::Env(None)) => sync_over(s, Err(ErrorView::MissingEnv(sync_key(i as int)))),
        (SyncStage::Env(i), EventView::Env(Some(v))) => {
            let s2 = SyncView { values: s.values.push(v), ..s };
            if i < 1 {
                (SyncView { stage: SyncStage::Env((i + 1) as usize), ..s2 }, ActionView::ReadEnv(sync_key(i + 1)))
            } else {
                (SyncView { stage: SyncStage::Opening, ..s2 }, ActionView::OpenBucket(sync_bucket(s2)))
            }
        },
        (SyncStage::Opening, EventView::Done(Ok(()))) => sync_fetch(s, 0),
        (SyncStage::Getting(i), EventView::Fetched(Ok(b))) =>
            (SyncView { stage: SyncStage::Writing(i), ..s }, ActionView::WriteFile(s.files[i as int], b)),
        (SyncStage::Writing(i), EventView::Done(Ok(()))) => sync_fetch(s, i + 1),
        (_, EventView::Done(Err(m))) => sync_over(s, Err(ErrorView::Other(m))),
        (_, EventView::Fetched(Err(m))) => sync_over(s, Err(ErrorView::Other(m))),
        // An answer of another kind is ruled out by the precondition on event kinds.
        _ => sync_over(s, Err(ErrorView::Todo)),
    }
}

impl SyncRun {
    /// The kind of event the sync waits for, as the view names it.
    pub open spec fn expects(&self) -> EventKind {
        sync_expects(self.stage)
    }

    /// The kind of event the sync waits for.
    pub fn expected(&self) -> (res: EventKind)
        ensures
            res == self.expects(),
    {
        match self.stage {
            SyncStage::Env(_) => EventKind::Env,
            SyncStage::Getting(_) => EventKind::Fetched,
            SyncStage::Over => EventKind::Over,
            _ => EventKind::Done,
        }
    }

    fn over(self, r: Result<(), OpsError>) -> (res: (SyncRun, Action))
        ensures
            (res.0@, res.1@) == sync_over(self@, match r { Ok(()) => Ok(()), Err(e) => Err(e@) }),
    {
        (SyncRun { stage: SyncStage::Over, ..self }, Action::Finish(r))
    }

    fn fetch(self, i: usize) -> (res: (SyncRun, Action))
        ensures
            (res.0@, res.1@) == sync_fetch(self@, i as int),
    {
        if i < self.files.len() {
            let key = self.files[i].clone();
            (SyncRun { stage: SyncStage::Getting(i), ..self }, Action::GetObject(key))
        } else {
            self.over(Ok(()))
        }
    }

    /// Takes the answer to the pending action and gives the next one (see `sync_next`).
    pub fn next(self, event: Event) -> (res: (SyncRun, Action))
        requires
            event_kind(event@) == self.expects(),
            sync_wf(self@),
        ensures
            (res.0@, res.1@) == sync_next(self@, event@),
            sync_wf(res.0@),
    {
        let mut s = self;
        match (s.stage, event) {
            (SyncStage::Env(i), Event::Env(None)) => {
                let key = if i == 0 { EnvKey::OssAccessKeyId } else { EnvKey::OssAccessKeySecret };
                s.over(Err(OpsError::MissingEnv(key)))
            },
            (SyncStage::Env(i), Event::Env(Some(v))) => {
                let ghost before = string_views(s.values@);
                s.values.push(v);
                assert(string_views(s.values@) =~= before.push(v@));
                if i < 1 {
                    (SyncRun { stage: SyncStage::Env(i + 1), ..s }, Action::ReadEnv(EnvKey::OssAccessKeySecret))
                } else {
                    let bucket = BucketParams {
                        root: s.root.clone(),
                        access_key_id: s.values[0].clone(),
                        access_key_secret: s.values[1].clone(),
                        bucket: s.bucket.clone(),
                        endpoint: s.endpoint.clone(),
                        guess_mime: false,
                    };
                    (SyncRun { stage: SyncStage::Opening, ..s }, Action::OpenBucket(bucket))
                }
            },
            (SyncStage::Opening, Event::Done(Ok(()))) => s.fetch(0),
            (SyncStage::Getting(i), Event::Fetched(Ok(b))) => {
                let path = s.files[i].clone();
                (SyncRun { stage: SyncStage::Writing(i), ..s }, Action::WriteFile(path, b))
            },
            (SyncStage::Writing(i), Event::Done(Ok(()))) => {
                let n = s.files.len();
                assert(i < n);
                s.fetch(i + 1)
            },
            (_, Event::Done(Err(m))) => s.over(Err(OpsError::Other(m))),
            (_, Event::Fetched(Err(m))) => s.over(Err(OpsError::Other(m))),
            // An answer of another kind is ruled out by the precondition on event kinds.
            _ => s.over(Err(OpsError::Todo)),
        }
    }
}

/// Starts a sync (see `sync_start` and `sync_next`).
pub fn sync(config: &Config) -> (res: (SyncRun, Action))
    ensures
        sync_start(*config, res.0@, res.1@),
        sync_wf(res.0@),
{
    match &config.sync {
        None => (SyncRun {
            bucket: String::new(),
            endpoint: String::new(),
            root: String::new(),
            files: Vec::new(),
            values: Vec::new(),
            stage: SyncStage::Over,
        }, Action::Finish(Err(OpsError::MissingSection(Section::Sync)))),
        Some(c) => {
            let s = SyncRun {
                bucket: c.bucket.clone(),
                endpoint: c.endpoint.clone(),
                root: c.root.clone(),
                files: c.files.clone(),
                values: Vec::new(),
                stage: SyncStage::Env(0),
            };
            proof {
                assert(string_views(s.values@) =~= Seq::<Seq<char>>::empty());
                assert(string_views(s.files@) =~= string_views(c.files@));
            }
            (s, Action::ReadEnv(EnvKey::OssAccessKeyId))
        },
    }
}

} // verus!

//! Installing and updating one plugin. The git work (clone, open, fetch,
//! resolve, walk, fast-forward) is done by the caller; the decisions between
//! those steps are made here, one event at a time.
use vstd::prelude::*;

use crate::plugin::{commit_url_of, compare_url_of, with_trailing_slash, Plugin};
use crate::status::{opt_view, PluginChange, PluginStatus, PluginUpdateStatus};
use crate::text::{prefix_upto, str_eq, str_prefix_upto};

verus! {

/// Why a plugin could not be installed or updated. Each git failure carries
/// the underlying message.
#[derive(Debug, Clone, PartialEq, Eq)]
pub enum SyncError {
    PathNotFound { path: String },
    CloneFailed { message: String },
    RepositoryOpenFailed { message: String },
    FetchFailed { message: String },
    BranchResolutionFailed { message: String },
    HistoryWalkFailed { message: String },
    CheckoutFailed { message: String },
}

pub open spec fn error_text(e: SyncError) -> Seq<char> {
    match e {
        SyncError::PathNotFound { path } => "Plugin path "@ + path@ + " does not exist"@,
        SyncError::CloneFailed { message } => "Failed to clone repository: "@ + message@,
        SyncError::RepositoryOpenFailed { message } => "Failed to open repository: "@ + message@,
        SyncError::FetchFailed { message } => "Failed to fetch from remote: "@ + message@,
        SyncError::BranchResolutionFailed { message } => "Failed to resolve tracking branch: "@
            + message@,
        SyncError::HistoryWalkFailed { message } => "Failed to walk commits: "@ + message@,
        SyncError::CheckoutFailed { message } => "Failed to checkout: "@ + message@,
    }
}

fn prefixed(prefix: &str, s: &String) -> (r: String)
    ensures
        r@ == prefix@ + s@,
{
    let mut r = String::from_str(prefix);
    r.append(s.as_str());
    r
}

impl SyncError {
    /// The message shown for this error.
    pub fn message(&self) -> (r: String)
        ensures
            r@ == error_text(*self),
    {
        match self {
            SyncError::PathNotFound { path } => {
                let mut r = prefixed("Plugin path ", path);
                r.append(" does not exist");
                r
            },
            SyncError::CloneFailed { message } => prefixed("Failed to clone repository: ", message),
            SyncError::RepositoryOpenFailed { message } => prefixed(
                "Failed to open repository: ",
                message,
            ),
            SyncError::FetchFailed { message } => prefixed("Failed to fetch from remote: ", message),
            SyncError::BranchResolutionFailed { message } => prefixed(
                "Failed to resolve tracking branch: ",
                message,
            ),
            SyncError::HistoryWalkFailed { message } => prefixed("Failed to walk commits: ", message),
            SyncError::CheckoutFailed { message } => prefixed("Failed to checkout: ", message),
        }
    }
}

/// The displayed form of a commit id: its first seven characters.
pub open spec fn short_of(id: Seq<char>) -> Seq<char> {
    prefix_upto(id, 7)
}

pub fn short_id(id: &str) -> (r: String)
    ensures
        r@ == short_of(id@),
{
    str_prefix_upto(id, 7)
}

/// A commit as read from the repository.
#[derive(Debug, Clone, PartialEq, Eq)]
pub struct CommitInfo {
    pub full_id: String,
    /// The first line of the message, if the commit has one.
    pub summary: Option<String>,
    /// Seconds since the Unix epoch.
    pub time: i64,
}

/// What a commit without a message is listed as.
pub open spec fn summary_of(s: Option<Seq<char>>) -> Seq<char> {
    match s {
        Some(t) => if t.len() > 0 {
            t
        } else {
            "(no commit message)"@
        },
        None => "(no commit message)"@,
    }
}

/// `c` is how the commit `w` of the plugin at `url` is listed.
pub open spec fn lists_commit(url: Option<crate::plugin::RemoteUrl>, c: PluginChange, w: CommitInfo) -> bool {
    &&& c.id@ == short_of(w.full_id@)
    &&& c.full_id@ == w.full_id@
    &&& c.summary@ == summary_of(opt_view(w.summary))
    &&& c.time == w.time
    &&& opt_view(c.url) == commit_url_of(url, w.full_id@)
}

/// `cs` lists the commits `ws` one for one, in the same order.
pub open spec fn lists_commits(
    url: Option<crate::plugin::RemoteUrl>,
    cs: Seq<PluginChange>,
    ws: Seq<CommitInfo>,
) -> bool {
    cs.len() == ws.len() && forall|i: int| 0 <= i < cs.len() ==> lists_commit(url, #[trigger] cs[i], ws[i])
}

/// Lists one commit.
pub fn change_of(plugin: &Plugin, w: &CommitInfo) -> (r: PluginChange)
    ensures
        lists_commit(plugin.url, r, *w),
{
    let summary = match &w.summary {
        Some(t) => if t.as_str().unicode_len() > 0 {
            t.clone()
        } else {
            String::from_str("(no commit message)")
        },
        None => String::from_str("(no commit message)"),
    };
    PluginChange {
        id: short_id(w.full_id.as_str()),
        full_id: w.full_id.clone(),
        summary,
        time: w.time,
        url: plugin.commit_url(w.full_id.as_str()),
    }
}

/// Lists the commits of a history walk, keeping the walk's order (newest first).
pub fn changes_from_walk(plugin: &Plugin, walk: &Vec<CommitInfo>) -> (r: Vec<PluginChange>)
    ensures
        lists_commits(plugin.url, r@, walk@),
{
    let mut r: Vec<PluginChange> = Vec::new();
    let mut i: usize = 0;
    while i < walk.len()
        invariant
            i <= walk@.len(),
            lists_commits(plugin.url, r@, walk@.subrange(0, i as int)),
        decreases walk@.len() - i,
    {
        let c = change_of(plugin, &walk[i]);
        r.push(c);
        i = i + 1;
    }
    assert(walk@.subrange(0, walk@.len() as int) =~= walk@);
    r
}

/// Whether the commits between `from` and `to` have to be walked: not when
/// there is no earlier commit, nor when nothing moved.
pub fn needs_walk(from: &Option<String>, to: &str) -> (r: bool)
    ensures
        r == (from matches Some(f) && f@ != to@),
{
    match from {
        Some(f) => !str_eq(f.as_str(), to),
        None => false,
    }
}

/// The commits brought in between `from` and `to`, given the walk of
/// `from..to` when one was needed.
pub fn collect_changes(
    plugin: &Plugin,
    from: &Option<String>,
    to: &str,
    walk: &Vec<CommitInfo>,
) -> (r: Vec<PluginChange>)
    ensures
        !(from matches Some(f) && f@ != to@) ==> r@.len() == 0,
        (from matches Some(f) && f@ != to@) ==> lists_commits(plugin.url, r@, walk@),
{
    if needs_walk(from, to) {
        changes_from_walk(plugin, walk)
    } else {
        Vec::new()
    }
}

/// What installing needs next.
#[derive(Debug, PartialEq, Eq)]
pub enum InstallStep {
    /// Installing is over: `Ok(true)` when something was cloned, `Ok(false)` when it was there already.
    Done(Result<bool, SyncError>),
    /// Clone `url` into `target`, then report with `clone_result`.
    Clone { url: String, target: String },
}

/// A plugin names either a local path or a remote URL.
pub open spec fn has_source(p: Plugin) -> bool {
    p.path is Some || p.url is Some
}

impl Plugin {
    /// The first install decision, given whether the plugin's directory exists.
    pub fn install(&self, plugins_root: &str, exists: bool) -> (r: InstallStep)
        requires
            has_source(*self),
        ensures
            self.path matches Some(p) ==> (exists ==> r == InstallStep::Done(Ok(false))),
            self.path matches Some(p) ==> (!exists ==> (r matches InstallStep::Done(
                Err(SyncError::PathNotFound { path }),
            ) && path@ == p@)),
            self.path is None ==> (exists ==> r == InstallStep::Done(Ok(false))),
            self.path is None ==> (!exists ==> (r matches InstallStep::Clone { url, target }
                && url@ == self.url->Some_0.text_view() && target@ == with_trailing_slash(
                plugins_root@,
            ) + self.name@)),
    {
        match &self.path {
            Some(p) => {
                if exists {
                    InstallStep::Done(Ok(false))
                } else {
                    InstallStep::Done(Err(SyncError::PathNotFound { path: p.clone() }))
                }
            },
            None => {
                if exists {
                    InstallStep::Done(Ok(false))
                } else {
                    let url = match &self.url {
                        Some(u) => u.text.clone(),
                        None => String::new(),
                    };
                    InstallStep::Clone { url, target: self.install_path(plugins_root) }
                }
            },
        }
    }

    /// What is on disk for this plugin, given whether its directory exists and, for an
    /// installed remote plugin, the full id of the commit HEAD points at.
    pub fn status(&self, path: &str, exists: bool, head: Option<String>) -> (r: PluginStatus)
        ensures
            self.path is Some ==> (r matches PluginStatus::Local { exists: e, path: p } && e == exists && p@ == path@),
            (self.path is None && !exists) ==> (r matches PluginStatus::Remote { installed, commit } && !installed && commit is None),
            (self.path is None && exists) ==> (r matches PluginStatus::Remote { installed, commit } && installed && opt_view(commit) == match head {
                Some(h) => Some(short_of(h@)),
                None => None,
            }),
    {
        if self.path.is_some() {
            PluginStatus::Local { exists, path: String::from_str(path) }
        } else if !exists {
            PluginStatus::Remote { installed: false, commit: None }
        } else {
            let commit = match head {
                Some(h) => Some(short_id(h.as_str())),
                None => None,
            };
            PluginStatus::Remote { installed: true, commit }
        }
    }

    /// Starts updating this plugin, whose directory is under `plugins_root` when remote.
    pub fn update(self, plugins_root: &str) -> (r: UpdateSession)
        ensures
            r.plugin == self,
            self.path matches Some(p) ==> r.path@ == p@,
            self.path is None ==> r.path@ == with_trailing_slash(plugins_root@) + self.name@,
            r.phase == Phase::Begin,
            r.wf(),
            !r.fresh,
            r.changes@.len() == 0,
    {
        UpdateSession::new(self, plugins_root)
    }
}

/// The outcome of an install, given how the clone went.
pub fn clone_result(result: Result<(), String>) -> (r: Result<bool, SyncError>)
    ensures
        result is Ok ==> r == Ok::<bool, SyncError>(true),
        result matches Err(m) ==> (r matches Err(SyncError::CloneFailed { message }) && message@ == m@),
{
    match result {
        Ok(()) => Ok(true),
        Err(m) => Err(SyncError::CloneFailed { message: m }),
    }
}

/// The state of HEAD in an opened repository.
#[derive(Debug, Clone, PartialEq, Eq)]
pub struct Head {
    /// The branch HEAD is on; `None` when HEAD is detached.
    pub branch: Option<String>,
    /// The full id of the commit HEAD points at.
    pub commit: String,
}

/// Where an update stands, between two pieces of git work.
#[derive(Debug, Clone, Copy, PartialEq, Eq, Structural)]
pub enum Phase {
    Begin,
    AwaitPath,
    AwaitInstalled,
    AwaitClone,
    AwaitHead,
    AwaitFetch,
    AwaitUpstream,
    AwaitRef,
    AwaitWalk,
    AwaitFastForward,
    Done,
}

/// What the caller reports after doing the work an action asked for.
#[derive(Debug, PartialEq, Eq)]
pub enum UpdateEvent {
    /// Whether the directory that `CheckPath` or `CheckInstalled` named exists.
    PathChecked(bool),
    Cloned(Result<(), String>),
    HeadRead(Result<Head, String>),
    Fetched(Result<(), String>),
    /// The commit of the branch's configured upstream; `None` when none is configured.
    UpstreamRead(Option<Result<String, String>>),
    RefRead(Result<String, String>),
    HistoryWalked(Result<Vec<CommitInfo>, String>),
    FastForwarded(Result<(), String>),
}

/// The git work an update needs next, or its result.
#[derive(Debug, PartialEq, Eq)]
pub enum UpdateAction {
    /// Whether the local plugin's directory exists.
    CheckPath { path: String },
    /// Whether the remote plugin's directory exists.
    CheckInstalled { path: String },
    /// Clone `url` into `target`.
    Clone { url: String, target: String },
    /// Open the repository and read HEAD.
    ReadHead { path: String },
    /// Fetch `origin` with its default refspecs.
    Fetch { path: String },
    /// Read the commit of the configured upstream of `branch`.
    ReadUpstream { path: String, branch: String },
    /// Read the commit that `reference` points at.
    ReadRef { path: String, reference: String },
    /// Walk the commits reachable from `to` but not from `from`, newest first.
    WalkHistory { path: String, from: String, to: String },
    /// Point `branch` at `to`, set HEAD to the branch and force a checkout.
    FastForward { path: String, branch: String, to: String },
    Finish(Result<PluginUpdateStatus, SyncError>),
}

/// One plugin's update, driven by `start` and then `step` once per event.
pub struct UpdateSession {
    pub plugin: Plugin,
    /// The plugin's directory.
    pub path: String,
    pub phase: Phase,
    /// The plugin was cloned by this update.
    pub fresh: bool,
    pub branch: String,
    /// The commit the branch was on before the fetch.
    pub local: String,
    /// The commit the branch tracks after the fetch.
    pub upstream: String,
    pub changes: Vec<PluginChange>,
}

/// The action that finishes with `Updated` and no changes, at `head`.
pub open spec fn finishes_at_head(a: UpdateAction, head: Seq<char>) -> bool {
    a matches UpdateAction::Finish(Ok(PluginUpdateStatus::Updated { from, to, changes, range_url }))
        && from is None && to@ == short_of(head) && changes@.len() == 0 && range_url is None
}

/// The URL a remote plugin is cloned from.
pub open spec fn clone_source(p: Plugin) -> Seq<char> {
    match p.url {
        Some(u) => u.text_view(),
        None => Seq::empty(),
    }
}

/// The reference a branch falls back to when no upstream is configured.
pub open spec fn fallback_ref(branch: Seq<char>) -> Seq<char> {
    "refs/remotes/origin/"@ + branch
}

/// The event is the kind that the phase waits for.
pub open spec fn accepts_event(phase: Phase, e: UpdateEvent) -> bool {
    match phase {
        Phase::AwaitPath | Phase::AwaitInstalled => e is PathChecked,
        Phase::AwaitClone => e is Cloned,
        Phase::AwaitHead => e is HeadRead,
        Phase::AwaitFetch => e is Fetched,
        Phase::AwaitUpstream => e is UpstreamRead,
        Phase::AwaitRef => e is RefRead,
        Phase::AwaitWalk => e is HistoryWalked,
        Phase::AwaitFastForward => e is FastForwarded,
        _ => false,
    }
}

/// A finished update takes no further event, so nothing can move or check out
/// a plugin after it has been found up to date, or after any other result.
pub proof fn lemma_finished_update_takes_no_event(e: UpdateEvent)
    ensures
        !accepts_event(Phase::Done, e),
{
}

/// The outcome once the tracking commit `upstream` is known: up to date when
/// it is the local commit, else a walk of what lies between.
pub open spec fn on_tracking(old_s: UpdateSession, new_s: UpdateSession, a: UpdateAction, upstream: Seq<char>) -> bool {
    &&& upstream == old_s.local@ ==> {
        &&& new_s.phase == Phase::Done
        &&& a matches UpdateAction::Finish(Ok(PluginUpdateStatus::UpToDate { commit }))
        &&& commit@ == short_of(old_s.local@)
    }
    &&& new_s.local@ == old_s.local@
    &&& new_s.branch@ == old_s.branch@
    &&& upstream != old_s.local@ ==> {
        &&& new_s.phase == Phase::AwaitWalk
        &&& new_s.upstream@ == upstream
        &&& a matches UpdateAction::WalkHistory { path, from, to }
        &&& path@ == old_s.path@ && from@ == old_s.local@ && to@ == upstream
    }
}

impl UpdateSession {
    /// Once the tracking commit is known to differ from the local one, it stays so.
    pub open spec fn wf(&self) -> bool {
        (self.phase == Phase::AwaitWalk || self.phase == Phase::AwaitFastForward) ==> self.upstream@
            != self.local@
    }

    /// The session's own values are kept through a step, but for those the step sets.
    pub open spec fn keeps(&self, other: &UpdateSession) -> bool {
        &&& other.plugin == self.plugin
        &&& other.path@ == self.path@
    }

    /// A session for `plugin`, whose directory is under `plugins_root` when remote.
    pub fn new(plugin: Plugin, plugins_root: &str) -> (r: UpdateSession)
        ensures
            r.plugin == plugin,
            plugin.path matches Some(p) ==> r.path@ == p@,
            plugin.path is None ==> r.path@ == with_trailing_slash(plugins_root@) + plugin.name@,
            r.phase == Phase::Begin,
            r.wf(),
            !r.fresh,
            r.changes@.len() == 0,
    {
        let path = plugin.install_path(plugins_root);
        UpdateSession {
            plugin,
            path,
            phase: Phase::Begin,
            fresh: false,
            branch: String::new(),
            local: String::new(),
            upstream: String::new(),
            changes: Vec::new(),
        }
    }

    /// The first action: check the directory, local or remote.
    pub fn start(&mut self) -> (a: UpdateAction)
        requires
            old(self).phase == Phase::Begin,
        ensures
            old(self).keeps(final(self)),
            final(self).wf(),
            !final(self).fresh,
            old(self).plugin.path is Some ==> final(self).phase == Phase::AwaitPath && (a matches UpdateAction::CheckPath { path } && path@ == old(self).path@),
            old(self).plugin.path is None ==> final(self).phase == Phase::AwaitInstalled && (a matches UpdateAction::CheckInstalled { path } && path@ == old(self).path@),
    {
        self.fresh = false;
        if self.plugin.path.is_some() {
            self.phase = Phase::AwaitPath;
            UpdateAction::CheckPath { path: self.path.clone() }
        } else {
            self.phase = Phase::AwaitInstalled;
            UpdateAction::CheckInstalled { path: self.path.clone() }
        }
    }

    /// Whether `step` takes `e` now.
    pub fn accepts(&self, e: &UpdateEvent) -> (r: bool)
        ensures
            r == accepts_event(self.phase, *e),
    {
        match self.phase {
            Phase::AwaitPath | Phase::AwaitInstalled => matches!(e, UpdateEvent::PathChecked(_)),
            Phase::AwaitClone => matches!(e, UpdateEvent::Cloned(_)),
            Phase::AwaitHead => matches!(e, UpdateEvent::HeadRead(_)),
            Phase::AwaitFetch => matches!(e, UpdateEvent::Fetched(_)),
            Phase::AwaitUpstream => matches!(e, UpdateEvent::UpstreamRead(_)),
            Phase::AwaitRef => matches!(e, UpdateEvent::RefRead(_)),
            Phase::AwaitWalk => matches!(e, UpdateEvent::HistoryWalked(_)),
            Phase::AwaitFastForward => matches!(e, UpdateEvent::FastForwarded(_)),
            _ => false,
        }
    }

    fn on_tracking_commit(&mut self, upstream: String) -> (a: UpdateAction)
        ensures
            old(self).keeps(final(self)),
            final(self).wf(),
            final(self).fresh == old(self).fresh,
            final(self).local@ == old(self).local@,
            final(self).branch@ == old(self).branch@,
            final(self).changes@ == old(self).changes@,
            on_tracking(*old(self), *final(self), a, upstream@),
    {
        if str_eq(upstream.as_str(), self.local.as_str()) {
            self.phase = Phase::Done;
            UpdateAction::Finish(Ok(PluginUpdateStatus::UpToDate { commit: short_id(self.local.as_str()) }))
        } else {
            self.phase = Phase::AwaitWalk;
            let to = upstream.clone();
            self.upstream = upstream;
            UpdateAction::WalkHistory { path: self.path.clone(), from: self.local.clone(), to }
        }
    }

    /// Takes the result of the last action and says what comes next.
    pub fn step(&mut self, e: UpdateEvent) -> (a: UpdateAction)
        requires
            old(self).wf(),
            accepts_event(old(self).phase, e),
        ensures
            old(self).keeps(final(self)),
            final(self).wf(),
            // A local plugin is only checked, never written to.
            old(self).phase == Phase::AwaitPath ==> final(self).phase == Phase::Done,
            (old(self).phase == Phase::AwaitPath && e == UpdateEvent::PathChecked(true)) ==> (
            a matches UpdateAction::Finish(Ok(PluginUpdateStatus::Local { path }))
                && path@ == old(self).path@),
            (old(self).phase == Phase::AwaitPath && e == UpdateEvent::PathChecked(false)) ==> (
            a matches UpdateAction::Finish(Err(SyncError::PathNotFound { path }))
                && path@ == old(self).path@),
            // A remote plugin that is not there yet is cloned first.
            (old(self).phase == Phase::AwaitInstalled && e == UpdateEvent::PathChecked(true)) ==> (
            final(self).phase == Phase::AwaitHead && !final(self).fresh && (a matches UpdateAction::ReadHead { path }
                && path@ == old(self).path@)),
            (old(self).phase == Phase::AwaitInstalled && e == UpdateEvent::PathChecked(false)) ==> (
            final(self).phase == Phase::AwaitClone && (a matches UpdateAction::Clone { url, target }
                && url@ == clone_source(old(self).plugin) && target@ == old(self).path@)),
            (old(self).phase == Phase::AwaitClone && e matches UpdateEvent::Cloned(Ok(_))) ==> (
            final(self).phase == Phase::AwaitHead && final(self).fresh && (a matches UpdateAction::ReadHead { path }
                && path@ == old(self).path@)),
            old(self).phase == Phase::AwaitClone ==> (e matches UpdateEvent::Cloned(Err(m)) ==> (
            final(self).phase == Phase::Done && (a matches UpdateAction::Finish(Err(SyncError::CloneFailed { message }))
                && message@ == m@))),
            // A detached HEAD, or a fresh clone, ends the update at HEAD.
            old(self).phase == Phase::AwaitHead ==> (e matches UpdateEvent::HeadRead(Err(m)) ==> (
            final(self).phase == Phase::Done && (a matches UpdateAction::Finish(Err(SyncError::RepositoryOpenFailed { message }))
                && message@ == m@))),
            old(self).phase == Phase::AwaitHead ==> (e matches UpdateEvent::HeadRead(Ok(h)) ==> (
            (h.branch is None || old(self).fresh) ==> final(self).phase == Phase::Done
                && finishes_at_head(a, h.commit@))),
            old(self).phase == Phase::AwaitHead ==> (e matches UpdateEvent::HeadRead(Ok(h)) ==> (
            (h.branch is Some && !old(self).fresh) ==> final(self).phase == Phase::AwaitFetch
                && final(self).branch@ == h.branch->Some_0@ && final(self).local@ == h.commit@
                && (a matches UpdateAction::Fetch { path } && path@ == old(self).path@))),
            old(self).phase == Phase::AwaitFetch ==> (e matches UpdateEvent::Fetched(Err(m)) ==> (
            final(self).phase == Phase::Done && (a matches UpdateAction::Finish(Err(SyncError::FetchFailed { message }))
                && message@ == m@))),
            (old(self).phase == Phase::AwaitFetch && e matches UpdateEvent::Fetched(Ok(_))) ==> (
            final(self).phase == Phase::AwaitUpstream && final(self).local@ == old(self).local@
                && final(self).branch@ == old(self).branch@ && (a matches UpdateAction::ReadUpstream { path, branch }
                && path@ == old(self).path@ && branch@ == old(self).branch@)),
            // The configured upstream is preferred; `origin/<branch>` is the fallback.
            old(self).phase == Phase::AwaitUpstream ==> (e matches UpdateEvent::UpstreamRead(Some(Err(m))) ==> (
            final(self).phase == Phase::Done && (a matches UpdateAction::Finish(Err(SyncError::BranchResolutionFailed { message }))
                && message@ == m@))),
            old(self).phase == Phase::AwaitUpstream ==> (e matches UpdateEvent::UpstreamRead(Some(Ok(c))) ==> on_tracking(
                *old(self),
                *final(self),
                a,
                c@,
            )),
            (old(self).phase == Phase::AwaitUpstream && e == UpdateEvent::UpstreamRead(None)) ==> (
            final(self).phase == Phase::AwaitRef && final(self).local@ == old(self).local@
                && final(self).branch@ == old(self).branch@ && (a matches UpdateAction::ReadRef { path, reference }
                && path@ == old(self).path@ && reference@ == fallback_ref(old(self).branch@))),
            old(self).phase == Phase::AwaitRef ==> (e matches UpdateEvent::RefRead(Err(m)) ==> (
            final(self).phase == Phase::Done && (a matches UpdateAction::Finish(Err(SyncError::BranchResolutionFailed { message }))
                && message@ == m@))),
            old(self).phase == Phase::AwaitRef ==> (e matches UpdateEvent::RefRead(Ok(c)) ==> on_tracking(
                *old(self),
                *final(self),
                a,
                c@,
            )),
            // The changes are listed before the branch moves.
            old(self).phase == Phase::AwaitWalk ==> (e matches UpdateEvent::HistoryWalked(Err(m)) ==> (
            final(self).phase == Phase::Done && (a matches UpdateAction::Finish(Err(SyncError::HistoryWalkFailed { message }))
                && message@ == m@))),
            old(self).phase == Phase::AwaitWalk ==> (e matches UpdateEvent::HistoryWalked(Ok(w)) ==> (
            final(self).phase == Phase::AwaitFastForward && final(self).local@ == old(self).local@
                && final(self).upstream@ == old(self).upstream@ && final(self).branch@ == old(self).branch@
                && lists_commits(old(self).plugin.url, final(self).changes@, w@)
                && (a matches UpdateAction::FastForward { path, branch, to } && path@ == old(self).path@
                && branch@ == old(self).branch@ && to@ == old(self).upstream@))),
            old(self).phase == Phase::AwaitFastForward ==> final(self).phase == Phase::Done,
            old(self).phase == Phase::AwaitFastForward ==> (e matches UpdateEvent::FastForwarded(Err(m)) ==> (
            a matches UpdateAction::Finish(Err(SyncError::CheckoutFailed { message })) && message@ == m@)),
            (old(self).phase == Phase::AwaitFastForward && e matches UpdateEvent::FastForwarded(Ok(_))) ==> (
            a matches UpdateAction::Finish(Ok(PluginUpdateStatus::Updated { from, to, changes, range_url }))
                && opt_view(from) == Some(short_of(old(self).local@)) && to@ == short_of(old(self).upstream@)
                && changes@ == old(self).changes@
                && opt_view(range_url) == compare_url_of(old(self).plugin.url, old(self).local@, old(self).upstream@)),
            // The branch moves only to a commit other than the local one.
            a is FastForward ==> final(self).upstream@ != final(self).local@,
    {
        match e {
            UpdateEvent::PathChecked(exists) => {
                if self.phase == Phase::AwaitPath {
                    self.phase = Phase::Done;
                    if exists {
                        UpdateAction::Finish(Ok(PluginUpdateStatus::Local { path: self.path.clone() }))
                    } else {
                        UpdateAction::Finish(Err(SyncError::PathNotFound { path: self.path.clone() }))
                    }
                } else if exists {
                    self.phase = Phase::AwaitHead;
                    self.fresh = false;
                    UpdateAction::ReadHead { path: self.path.clone() }
                } else {
                    self.phase = Phase::AwaitClone;
                    let url = match &self.plugin.url {
                        Some(u) => u.text.clone(),
                        None => String::new(),
                    };
                    UpdateAction::Clone { url, target: self.path.clone() }
                }
            },
            UpdateEvent::Cloned(result) => match result {
                Ok(()) => {
                    self.phase = Phase::AwaitHead;
                    self.fresh = true;
                    UpdateAction::ReadHead { path: self.path.clone() }
                },
                Err(m) => {
                    self.phase = Phase::Done;
                    UpdateAction::Finish(Err(SyncError::CloneFailed { message: m }))
                },
            },
            UpdateEvent::HeadRead(result) => match result {
                Ok(h) => match h.branch {
                    Some(b) => {
                        if self.fresh {
                            self.phase = Phase::Done;
                            UpdateAction::Finish(Ok(PluginUpdateStatus::Updated { from: None, to: short_id(h.commit.as_str()), changes: Vec::new(), range_url: None }))
                        } else {
                            self.phase = Phase::AwaitFetch;
                            self.branch = b;
                            self.local = h.commit;
                            UpdateAction::Fetch { path: self.path.clone() }
                        }
                    },
                    None => {
                        self.phase = Phase::Done;
                        UpdateAction::Finish(Ok(PluginUpdateStatus::Updated { from: None, to: short_id(h.commit.as_str()), changes: Vec::new(), range_url: None }))
                    },
                },
                Err(m) => {
                    self.phase = Phase::Done;
                    UpdateAction::Finish(Err(SyncError::RepositoryOpenFailed { message: m }))
                },
            },
            UpdateEvent::Fetched(result) => match result {
                Ok(()) => {
                    self.phase = Phase::AwaitUpstream;
                    UpdateAction::ReadUpstream { path: self.path.clone(), branch: self.branch.clone() }
                },
                Err(m) => {
                    self.phase = Phase::Done;
                    UpdateAction::Finish(Err(SyncError::FetchFailed { message: m }))
                },
            },
            UpdateEvent::UpstreamRead(found) => match found {
                Some(Ok(c)) => self.on_tracking_commit(c),
                Some(Err(m)) => {
                    self.phase = Phase::Done;
                    UpdateAction::Finish(Err(SyncError::BranchResolutionFailed { message: m }))
                },
                None => {
                    self.phase = Phase::AwaitRef;
                    let mut reference = String::from_str("refs/remotes/origin/");
                    reference.append(self.branch.as_str());
                    UpdateAction::ReadRef { path: self.path.clone(), reference }
                },
            },
            UpdateEvent::RefRead(result) => match result {
                Ok(c) => self.on_tracking_commit(c),
                Err(m) => {
                    self.phase = Phase::Done;
                    UpdateAction::Finish(Err(SyncError::BranchResolutionFailed { message: m }))
                },
            },
            UpdateEvent::HistoryWalked(result) => match result {
                Ok(w) => {
                    self.phase = Phase::AwaitFastForward;
                    self.changes = changes_from_walk(&self.plugin, &w);
                    UpdateAction::FastForward { path: self.path.clone(), branch: self.branch.clone(), to: self.upstream.clone() }
                },
                Err(m) => {
                    self.phase = Phase::Done;
                    UpdateAction::Finish(Err(SyncError::HistoryWalkFailed { message: m }))
                },
            },
            UpdateEvent::FastForwarded(result) => {
                self.phase = Phase::Done;
                match result {
                    Ok(()) => {
                        let from = short_id(self.local.as_str());
                        let to = short_id(self.upstream.as_str());
                        let range_url = self.plugin.compare_url(self.local.as_str(), self.upstream.as_str());
                        let mut changes: Vec<PluginChange> = Vec::new();
                        core::mem::swap(&mut changes, &mut self.changes);
                        UpdateAction::Finish(Ok(PluginUpdateStatus::Updated { from: Some(from), to, changes, range_url }))
                    },
                    Err(m) => UpdateAction::Finish(Err(SyncError::CheckoutFailed { message: m })),
                }
            },
        }
    }
}

} // verus!

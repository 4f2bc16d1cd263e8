use muxi::plugin::Plugin;
use muxi::status::{PluginStatus, PluginUpdateStatus};
use muxi::sync::{
    change_of, changes_from_walk, clone_result, collect_changes, needs_walk, short_id,
    CommitInfo, Head, InstallStep, SyncError, UpdateAction, UpdateEvent,
    UpdateSession,
};

const LOCAL: &str = "1111111aaaaaaaaaaaaaaaaaaaaaaaaaaaaaaaaa";
const UPSTREAM: &str = "2222222bbbbbbbbbbbbbbbbbbbbbbbbbbbbbbbbb";

fn remote() -> Plugin {
    Plugin::parse("tmux-plugins/tmux-yank").unwrap()
}

fn head(branch: Option<&str>, commit: &str) -> Head {
    Head {
        branch: branch.map(str::to_string),
        commit: commit.to_string(),
    }
}

fn commit(id: &str, summary: Option<&str>, time: i64) -> CommitInfo {
    CommitInfo {
        full_id: id.to_string(),
        summary: summary.map(str::to_string),
        time,
    }
}

/// Drives an installed remote plugin up to the point where its tracking commit is asked for.
fn fetched_session() -> UpdateSession {
    let mut session = remote().update("/plugins");
    assert_eq!(
        session.start(),
        UpdateAction::CheckInstalled { path: "/plugins/tmux-yank".to_string() }
    );
    assert_eq!(
        session.step(UpdateEvent::PathChecked(true)),
        UpdateAction::ReadHead { path: "/plugins/tmux-yank".to_string() }
    );
    assert_eq!(
        session.step(UpdateEvent::HeadRead(Ok(head(Some("main"), LOCAL)))),
        UpdateAction::Fetch { path: "/plugins/tmux-yank".to_string() }
    );
    assert_eq!(
        session.step(UpdateEvent::Fetched(Ok(()))),
        UpdateAction::ReadUpstream {
            path: "/plugins/tmux-yank".to_string(),
            branch: "main".to_string()
        }
    );
    session
}

#[test]
fn test_install_local_plugin_missing_path_errors() {
    let plugin = Plugin::new_local("/tmp/muxi-test-missing", "/home/user", None);
    let step = plugin.install("/plugins", false);
    match step {
        InstallStep::Done(Err(error)) => assert!(error.message().contains("does not exist")),
        other => panic!("expected install to fail, got {other:?}"),
    }
}

#[test]
fn test_install_local_plugin_existing_path_is_noop() {
    let plugin = Plugin::new_local("/tmp/muxi-test-present", "/home/user", None);
    assert_eq!(plugin.install("/plugins", true), InstallStep::Done(Ok(false)));
}

#[test]
fn test_update_local_plugin_missing_path_errors() {
    let plugin = Plugin::new_local("/tmp/muxi-test-missing", "/home/user", None);
    let mut session = UpdateSession::new(plugin, "/plugins");
    assert_eq!(
        session.start(),
        UpdateAction::CheckPath { path: "/tmp/muxi-test-missing".to_string() }
    );
    match session.step(UpdateEvent::PathChecked(false)) {
        UpdateAction::Finish(Err(error)) => assert!(error.message().contains("does not exist")),
        other => panic!("expected update to fail, got {other:?}"),
    }
}

#[test]
fn test_update_local_plugin_existing_path_returns_status() {
    let plugin = Plugin::new_local("/tmp/muxi-test-present", "/home/user", None);
    let mut session = UpdateSession::new(plugin, "/plugins");
    session.start();
    match session.step(UpdateEvent::PathChecked(true)) {
        UpdateAction::Finish(Ok(PluginUpdateStatus::Local { path })) => {
            assert!(path.contains("muxi-test-present"));
        }
        other => panic!("unexpected status: {other:?}"),
    }
}

#[test]
fn remote_install_clones_into_plugins_root() {
    let step = remote().install("/plugins", false);
    assert_eq!(
        step,
        InstallStep::Clone {
            url: "https://github.com/tmux-plugins/tmux-yank".to_string(),
            target: "/plugins/tmux-yank".to_string()
        }
    );
    assert_eq!(remote().install("/plugins", true), InstallStep::Done(Ok(false)));
}

#[test]
fn clone_outcome_is_reported() {
    assert_eq!(clone_result(Ok(())), Ok(true));
    assert_eq!(
        clone_result(Err("no route".to_string())),
        Err(SyncError::CloneFailed { message: "no route".to_string() })
    );
}

#[test]
fn up_to_date_when_tracking_commit_is_local() {
    let mut session = fetched_session();
    let action = session.step(UpdateEvent::UpstreamRead(Some(Ok(LOCAL.to_string()))));
    assert_eq!(
        action,
        UpdateAction::Finish(Ok(PluginUpdateStatus::UpToDate { commit: "1111111".to_string() }))
    );
}

#[test]
fn up_to_date_through_fallback_reference() {
    let mut session = fetched_session();
    assert_eq!(
        session.step(UpdateEvent::UpstreamRead(None)),
        UpdateAction::ReadRef {
            path: "/plugins/tmux-yank".to_string(),
            reference: "refs/remotes/origin/main".to_string()
        }
    );
    assert_eq!(
        session.step(UpdateEvent::RefRead(Ok(LOCAL.to_string()))),
        UpdateAction::Finish(Ok(PluginUpdateStatus::UpToDate { commit: "1111111".to_string() }))
    );
}

#[test]
fn fresh_clone_finishes_at_head() {
    let mut session = UpdateSession::new(remote(), "/plugins/");
    session.start();
    assert_eq!(
        session.step(UpdateEvent::PathChecked(false)),
        UpdateAction::Clone {
            url: "https://github.com/tmux-plugins/tmux-yank".to_string(),
            target: "/plugins/tmux-yank".to_string()
        }
    );
    assert_eq!(
        session.step(UpdateEvent::Cloned(Ok(()))),
        UpdateAction::ReadHead { path: "/plugins/tmux-yank".to_string() }
    );
    assert_eq!(
        session.step(UpdateEvent::HeadRead(Ok(head(Some("master"), UPSTREAM)))),
        UpdateAction::Finish(Ok(PluginUpdateStatus::Updated {
            from: None,
            to: "2222222".to_string(),
            changes: Vec::new(),
            range_url: None
        }))
    );
}

#[test]
fn detached_head_finishes_without_fetch() {
    let mut session = UpdateSession::new(remote(), "/plugins");
    session.start();
    session.step(UpdateEvent::PathChecked(true));
    assert_eq!(
        session.step(UpdateEvent::HeadRead(Ok(head(None, LOCAL)))),
        UpdateAction::Finish(Ok(PluginUpdateStatus::Updated {
            from: None,
            to: "1111111".to_string(),
            changes: Vec::new(),
            range_url: None
        }))
    );
}

#[test]
fn update_fast_forwards_and_lists_changes() {
    let mut session = fetched_session();
    assert_eq!(
        session.step(UpdateEvent::UpstreamRead(Some(Ok(UPSTREAM.to_string())))),
        UpdateAction::WalkHistory {
            path: "/plugins/tmux-yank".to_string(),
            from: LOCAL.to_string(),
            to: UPSTREAM.to_string()
        }
    );
    let walk = vec![
        commit(UPSTREAM, Some("Second change"), 200),
        commit("3333333ccccccccccccccccccccccccccccccccc", None, 100),
    ];
    assert_eq!(
        session.step(UpdateEvent::HistoryWalked(Ok(walk))),
        UpdateAction::FastForward {
            path: "/plugins/tmux-yank".to_string(),
            branch: "main".to_string(),
            to: UPSTREAM.to_string()
        }
    );
    match session.step(UpdateEvent::FastForwarded(Ok(()))) {
        UpdateAction::Finish(Ok(PluginUpdateStatus::Updated { from, to, changes, range_url })) => {
            assert_eq!(from.as_deref(), Some("1111111"));
            assert_eq!(to, "2222222");
            assert_eq!(changes.len(), 2);
            assert_eq!(changes[0].id, "2222222");
            assert_eq!(changes[0].full_id, UPSTREAM);
            assert_eq!(changes[0].summary, "Second change");
            assert_eq!(changes[0].time, 200);
            assert_eq!(
                changes[0].url.as_deref(),
                Some("https://github.com/tmux-plugins/tmux-yank/commit/2222222bbbbbbbbbbbbbbbbbbbbbbbbbbbbbbbbb")
            );
            assert_eq!(changes[1].id, "3333333");
            assert_eq!(changes[1].summary, "(no commit message)");
            assert_eq!(
                range_url.as_deref(),
                Some("https://github.com/tmux-plugins/tmux-yank/compare/1111111aaaaaaaaaaaaaaaaaaaaaaaaaaaaaaaaa...2222222bbbbbbbbbbbbbbbbbbbbbbbbbbbbbbbbb")
            );
        }
        other => panic!("unexpected action: {other:?}"),
    }
}

#[test]
fn each_git_failure_has_its_error() {
    let mut open = UpdateSession::new(remote(), "/plugins");
    open.start();
    open.step(UpdateEvent::PathChecked(true));
    assert_eq!(
        open.step(UpdateEvent::HeadRead(Err("bad repo".to_string()))),
        UpdateAction::Finish(Err(SyncError::RepositoryOpenFailed { message: "bad repo".to_string() }))
    );

    let mut clone = UpdateSession::new(remote(), "/plugins");
    clone.start();
    clone.step(UpdateEvent::PathChecked(false));
    assert_eq!(
        clone.step(UpdateEvent::Cloned(Err("offline".to_string()))),
        UpdateAction::Finish(Err(SyncError::CloneFailed { message: "offline".to_string() }))
    );

    let mut fetch = UpdateSession::new(remote(), "/plugins");
    fetch.start();
    fetch.step(UpdateEvent::PathChecked(true));
    fetch.step(UpdateEvent::HeadRead(Ok(head(Some("main"), LOCAL))));
    assert_eq!(
        fetch.step(UpdateEvent::Fetched(Err("unreachable".to_string()))),
        UpdateAction::Finish(Err(SyncError::FetchFailed { message: "unreachable".to_string() }))
    );

    let mut upstream = fetched_session();
    assert_eq!(
        upstream.step(UpdateEvent::UpstreamRead(Some(Err("gone".to_string())))),
        UpdateAction::Finish(Err(SyncError::BranchResolutionFailed { message: "gone".to_string() }))
    );

    let mut fallback = fetched_session();
    fallback.step(UpdateEvent::UpstreamRead(None));
    assert_eq!(
        fallback.step(UpdateEvent::RefRead(Err("no ref".to_string()))),
        UpdateAction::Finish(Err(SyncError::BranchResolutionFailed { message: "no ref".to_string() }))
    );

    let mut walk = fetched_session();
    walk.step(UpdateEvent::UpstreamRead(Some(Ok(UPSTREAM.to_string()))));
    assert_eq!(
        walk.step(UpdateEvent::HistoryWalked(Err("corrupt".to_string()))),
        UpdateAction::Finish(Err(SyncError::HistoryWalkFailed { message: "corrupt".to_string() }))
    );

    let mut checkout = fetched_session();
    checkout.step(UpdateEvent::UpstreamRead(Some(Ok(UPSTREAM.to_string()))));
    checkout.step(UpdateEvent::HistoryWalked(Ok(Vec::new())));
    assert_eq!(
        checkout.step(UpdateEvent::FastForwarded(Err("dirty".to_string()))),
        UpdateAction::Finish(Err(SyncError::CheckoutFailed { message: "dirty".to_string() }))
    );
}

#[test]
fn error_messages() {
    assert_eq!(
        SyncError::PathNotFound { path: "/x".to_string() }.message(),
        "Plugin path /x does not exist"
    );
    assert_eq!(
        SyncError::FetchFailed { message: "m".to_string() }.message(),
        "Failed to fetch from remote: m"
    );
    assert_eq!(
        SyncError::CheckoutFailed { message: "m".to_string() }.message(),
        "Failed to checkout: m"
    );
}

#[test]
fn step_rejects_unexpected_event() {
    let mut session = UpdateSession::new(remote(), "/plugins");
    session.start();
    assert!(session.accepts(&UpdateEvent::PathChecked(true)));
    assert!(!session.accepts(&UpdateEvent::Fetched(Ok(()))));
}

#[test]
fn short_ids() {
    assert_eq!(short_id("0123456789abcdef"), "0123456");
    assert_eq!(short_id("abc"), "abc");
}

#[test]
fn collect_of_equal_commits_is_empty() {
    let walk = vec![commit(UPSTREAM, Some("x"), 1)];
    let a = Some(LOCAL.to_string());
    assert!(!needs_walk(&a, LOCAL));
    assert!(!needs_walk(&None, LOCAL));
    assert!(needs_walk(&a, UPSTREAM));
    assert!(collect_changes(&remote(), &a, LOCAL, &walk).is_empty());
    assert!(collect_changes(&remote(), &None, LOCAL, &walk).is_empty());
}

#[test]
fn collect_keeps_walk_order_newest_first() {
    let walk = vec![
        commit("cccccccccc", Some("third"), 30),
        commit("bbbbbbbbbb", Some("second"), 20),
        commit("aaaaaaaaaa", Some(""), 10),
    ];
    let changes = collect_changes(&remote(), &Some(LOCAL.to_string()), "cccccccccc", &walk);
    let ids: Vec<&str> = changes.iter().map(|c| c.id.as_str()).collect();
    assert_eq!(ids, vec!["ccccccc", "bbbbbbb", "aaaaaaa"]);
    assert_eq!(changes[2].summary, "(no commit message)");
    assert_eq!(changes_from_walk(&remote(), &walk), changes);
}

#[test]
fn change_without_known_host_has_no_url() {
    let plugin = Plugin::parse("https://example.com/a/b").unwrap();
    let change = change_of(&plugin, &commit("abcdef0123", Some("msg"), 5));
    assert_eq!(change.url, None);
    assert_eq!(change.id, "abcdef0");
}

#[test]
fn status_snapshots() {
    let local = Plugin::new_local("/opt/p", "/home/user", None);
    assert_eq!(
        local.status("/opt/p", false, None),
        PluginStatus::Local { exists: false, path: "/opt/p".to_string() }
    );
    assert_eq!(
        remote().status("/plugins/tmux-yank", false, None),
        PluginStatus::Remote { installed: false, commit: None }
    );
    assert_eq!(
        remote().status("/plugins/tmux-yank", true, Some(LOCAL.to_string())),
        PluginStatus::Remote { installed: true, commit: Some("1111111".to_string()) }
    );
}

use muxi::paths::plugins_dir;
use muxi::plugin::{Plugin, RemoteUrl};

#[test]
fn model_test_plugin_parse_short_form() {
    let plugin = Plugin::parse("tmux-plugins/tmux-continuum").unwrap();
    assert_eq!(
        plugin.url.unwrap().as_str(),
        "https://github.com/tmux-plugins/tmux-continuum"
    );
}

#[test]
fn model_test_plugin_parse_full_url() {
    let plugin = Plugin::parse("https://github.com/tmux-plugins/tmux-continuum").unwrap();
    assert_eq!(
        plugin.url.unwrap().as_str(),
        "https://github.com/tmux-plugins/tmux-continuum"
    );
}

#[test]
fn model_test_plugin_parse_custom_git_url() {
    let plugin = Plugin::parse("https://gitlab.com/user/repo").unwrap();
    assert_eq!(plugin.url.unwrap().as_str(), "https://gitlab.com/user/repo");
}

#[test]
fn model_test_plugin_repo_name() {
    let plugin = Plugin::parse("tmux-plugins/tmux-continuum").unwrap();
    assert_eq!(plugin.name, "tmux-continuum");
}

#[test]
fn model_test_plugin_repo_name_with_git_suffix() {
    let plugin = Plugin::parse("https://github.com/user/repo.git").unwrap();
    assert_eq!(plugin.name, "repo");
}

#[test]
fn model_test_plugin_install_path() {
    let plugin = Plugin::parse("tmux-plugins/tmux-continuum").unwrap();
    let root = plugins_dir("/home/user/.config/muxi");

    assert_eq!(
        plugin.install_path(&root),
        "/home/user/.config/muxi/plugins/tmux-continuum"
    );
}

#[test]
fn plugin_test_plugin_parse_short_form() {
    let plugin = Plugin::parse("tmux-plugins/tmux-continuum").unwrap();
    assert_eq!(
        plugin.url.unwrap().as_str(),
        "https://github.com/tmux-plugins/tmux-continuum"
    );
}

#[test]
fn plugin_test_plugin_parse_full_url() {
    let plugin = Plugin::parse("https://github.com/tmux-plugins/tmux-continuum").unwrap();
    assert_eq!(
        plugin.url.unwrap().as_str(),
        "https://github.com/tmux-plugins/tmux-continuum"
    );
}

#[test]
fn plugin_test_plugin_parse_custom_git_url() {
    let plugin = Plugin::parse("https://gitlab.com/user/repo").unwrap();
    assert_eq!(plugin.url.unwrap().as_str(), "https://gitlab.com/user/repo");
}

#[test]
fn plugin_test_plugin_repo_name() {
    let plugin = Plugin::parse("tmux-plugins/tmux-continuum").unwrap();
    assert_eq!(plugin.repo_name(), "tmux-continuum");
}

#[test]
fn plugin_test_plugin_repo_name_with_git_suffix() {
    let plugin = Plugin::parse("https://github.com/user/repo.git").unwrap();
    assert_eq!(plugin.repo_name(), "repo");
}

#[test]
fn plugin_test_plugin_install_path() {
    let plugin = Plugin::parse("tmux-plugins/tmux-continuum").unwrap();
    let root = plugins_dir("/home/user/.config/muxi/");

    assert_eq!(
        plugin.install_path(&root),
        "/home/user/.config/muxi/plugins/tmux-continuum"
    );
}

#[test]
fn test_plugin_local_path_only() {
    let plugin = Plugin::new_local("~/dev/my-plugin", "/home/user", None);
    assert!(plugin.url.is_none());
    assert!(plugin.path.is_some());
    assert_eq!(plugin.name, "my-plugin");
}

#[test]
fn test_compare_url_github() {
    let plugin = Plugin::parse("tmux-plugins/tmux-continuum").unwrap();
    let from = "aaaaaaaaaaaaaaaaaaaaaaaaaaaaaaaaaaaaaaaa";
    let to = "bbbbbbbbbbbbbbbbbbbbbbbbbbbbbbbbbbbbbbbb";

    let url = plugin.compare_url(from, to).expect("expected github url");

    assert_eq!(
        url,
        "https://github.com/tmux-plugins/tmux-continuum/compare/aaaaaaaaaaaaaaaaaaaaaaaaaaaaaaaaaaaaaaaa...bbbbbbbbbbbbbbbbbbbbbbbbbbbbbbbbbbbbbbbb"
    );
}

#[test]
fn test_compare_url_gitlab() {
    let plugin = Plugin::parse("https://gitlab.com/user/repo").unwrap();
    let from = "1234567890abcdef1234567890abcdef12345678";
    let to = "87654321fedcba0987654321fedcba0987654321";

    let url = plugin.compare_url(from, to).expect("expected gitlab url");

    assert_eq!(
        url,
        "https://gitlab.com/user/repo/-/compare/1234567890abcdef1234567890abcdef12345678...87654321fedcba0987654321fedcba0987654321"
    );
}

#[test]
fn test_compare_url_unknown_host_returns_none() {
    let plugin = Plugin::parse("https://example.com/user/repo").unwrap();
    let from = "aaaaaaaaaaaaaaaaaaaaaaaaaaaaaaaaaaaaaaaa";
    let to = "bbbbbbbbbbbbbbbbbbbbbbbbbbbbbbbbbbbbbbbb";

    assert!(plugin.compare_url(from, to).is_none());
}

#[test]
fn shorthand_becomes_github_url() {
    let plugin = Plugin::parse("owner/repo").unwrap();
    assert_eq!(plugin.url.unwrap().as_str(), "https://github.com/owner/repo");
    assert_eq!(plugin.name, "repo");
    assert!(plugin.path.is_none());
    assert!(plugin.options.is_empty());
}

#[test]
fn full_url_is_kept() {
    let plugin = Plugin::parse("https://example.org/x/y").unwrap();
    assert_eq!(plugin.url.unwrap().as_str(), "https://example.org/x/y");
}

#[test]
fn name_drops_git_suffix_once() {
    let with_suffix = Plugin::parse("https://github.com/a/b.git").unwrap();
    let without = Plugin::parse("https://github.com/a/b").unwrap();
    assert_eq!(with_suffix.name, "b");
    assert_eq!(without.name, "b");
}

#[test]
fn word_without_slash_is_an_error() {
    assert!(Plugin::parse("justaword").is_err());
}

#[test]
fn scheme_separator_is_not_a_shorthand() {
    assert!(Plugin::parse("://owner/repo").is_err());
}

#[test]
fn url_parts_are_read() {
    let url = RemoteUrl::parse("https://GitHub.com/a/b.git").unwrap();
    assert_eq!(url.as_str(), "https://github.com/a/b.git");
    assert_eq!(url.host.as_deref(), Some("github.com"));
    assert_eq!(url.last_segment.as_deref(), Some("b.git"));
}

#[test]
fn compare_url_strips_git_suffix_and_ignores_host_case() {
    let plugin = Plugin::parse("https://www.GITHUB.com/a/b.GIT").unwrap();
    assert_eq!(
        plugin.compare_url("f", "t").as_deref(),
        Some("https://www.github.com/a/b/compare/f...t")
    );
}

#[test]
fn commit_url_per_host() {
    let github = Plugin::parse("a/b").unwrap();
    let gitlab = Plugin::parse("https://gitlab.com/a/b.git").unwrap();
    let other = Plugin::parse("https://example.com/a/b").unwrap();
    assert_eq!(github.commit_url("abc").as_deref(), Some("https://github.com/a/b/commit/abc"));
    assert_eq!(gitlab.commit_url("abc").as_deref(), Some("https://gitlab.com/a/b/-/commit/abc"));
    assert_eq!(other.commit_url("abc"), None);
}

#[test]
fn local_plugin_keeps_absolute_path() {
    let plugin = Plugin::new_local("/opt/plugins/tool/", "/home/user", None);
    assert_eq!(plugin.path.as_deref(), Some("/opt/plugins/tool/"));
    assert_eq!(plugin.name, "tool");
    assert_eq!(plugin.install_path("/ignored"), "/opt/plugins/tool/");
}

#[test]
fn plugin_display() {
    assert_eq!(Plugin::parse("a/b").unwrap().display(), "https://github.com/a/b");
    assert_eq!(Plugin::new_local("/x/y", "/home", None).display(), "/x/y");
}

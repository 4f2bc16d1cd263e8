use muxi::batch::ReportEvent;
use muxi::listing::{format_options, progress_line, status_line};
use muxi::options::PluginOptions;
use muxi::plugin::{DescriptorError, Plugin};
use muxi::status::PluginStatus;

#[test]
fn descriptor_needs_exactly_one_source() {
    assert_eq!(
        Plugin::from_descriptor(None, None, PluginOptions::new(), "/home/u").unwrap_err(),
        DescriptorError::MissingSource
    );
    assert_eq!(
        Plugin::from_descriptor(Some("a/b"), Some("~/p"), PluginOptions::new(), "/home/u").unwrap_err(),
        DescriptorError::ConflictingSource
    );
    assert!(matches!(
        Plugin::from_descriptor(Some("nothing"), None, PluginOptions::new(), "/home/u"),
        Err(DescriptorError::InvalidUrl(_))
    ));
}

#[test]
fn descriptor_with_url_and_options() {
    let mut options = PluginOptions::new();
    options.0.insert("copy_mode_put".to_string(), "Space".to_string());
    let plugin =
        Plugin::from_descriptor(Some("tmux-plugins/tmux-yank"), None, options.clone(), "/home/u")
            .unwrap();
    assert_eq!(plugin.name, "tmux-yank");
    assert_eq!(
        plugin.url.unwrap().as_str(),
        "https://github.com/tmux-plugins/tmux-yank"
    );
    assert_eq!(plugin.options, options);
}

#[test]
fn descriptor_with_path() {
    let plugin =
        Plugin::from_descriptor(None, Some("~/dev/my-plugin"), PluginOptions::new(), "/home/u")
            .unwrap();
    assert_eq!(plugin.path.as_deref(), Some("/home/u/dev/my-plugin"));
    assert_eq!(plugin.name, "my-plugin");
    assert!(plugin.url.is_none());
}

#[test]
fn status_lines() {
    assert_eq!(
        status_line(
            "yank",
            &PluginStatus::Remote { installed: true, commit: Some("abc1234".to_string()) }
        ),
        "\u{1b}[1m\u{1b}[32m✔\u{1b}[39m\u{1b}[0m yank \u{1b}[2m(abc1234)\u{1b}[0m"
    );
    assert_eq!(
        status_line("yank", &PluginStatus::Remote { installed: true, commit: None }),
        "\u{1b}[1m\u{1b}[32m✔\u{1b}[39m\u{1b}[0m yank"
    );
    assert_eq!(
        status_line("yank", &PluginStatus::Remote { installed: false, commit: None }),
        "\u{1b}[2m○\u{1b}[0m \u{1b}[2myank\u{1b}[0m \u{1b}[2m(not installed)\u{1b}[0m"
    );
    assert_eq!(
        status_line("mine", &PluginStatus::Local { exists: false, path: "/p".to_string() }),
        "\u{1b}[2m○\u{1b}[0m \u{1b}[2mmine\u{1b}[0m \u{1b}[2m(/p)\u{1b}[0m"
    );
}

#[test]
fn options_tree() {
    let mut options = PluginOptions::new();
    assert_eq!(options.display(), "");
    options.0.insert("b".to_string(), "2".to_string());
    options.0.insert("a".to_string(), "1".to_string());
    assert_eq!(
        options.display(),
        "\u{1b}[2m├──\u{1b}[0m \u{1b}[2m@a\u{1b}[0m \u{1b}[1m\u{1b}[32m1\u{1b}[39m\u{1b}[0m\n\u{1b}[2m└──\u{1b}[0m \u{1b}[2m@b\u{1b}[0m \u{1b}[1m\u{1b}[32m2\u{1b}[39m\u{1b}[0m"
    );
    assert_eq!(
        format_options(&vec![("k".to_string(), "v".to_string())]),
        "\u{1b}[2m└──\u{1b}[0m \u{1b}[2m@k\u{1b}[0m \u{1b}[1m\u{1b}[32mv\u{1b}[39m\u{1b}[0m"
    );
}


#[test]
fn progress_lines() {
    assert_eq!(
        progress_line("yank", &ReportEvent::Success(Some("a..b".to_string()))),
        "\u{1b}[1m\u{1b}[32m✔\u{1b}[39m\u{1b}[0m yank \u{1b}[2m(a..b)\u{1b}[0m"
    );
    assert_eq!(
        progress_line("yank", &ReportEvent::AlreadyInstalled),
        "\u{1b}[1m\u{1b}[34m⊙\u{1b}[39m\u{1b}[0m yank \u{1b}[2m(already installed)\u{1b}[0m"
    );
    assert_eq!(
        progress_line("yank", &ReportEvent::UpToDate(None)),
        "\u{1b}[1m\u{1b}[34m≡\u{1b}[39m\u{1b}[0m yank"
    );
    assert_eq!(
        progress_line("yank", &ReportEvent::Error),
        "\u{1b}[1m\u{1b}[31m✗\u{1b}[39m\u{1b}[0m yank"
    );
}

#[test]
fn test_plugin_parse_with_options() {
    let opts: PluginOptions = PluginOptions(
        [
            ("copy_mode_put".to_string(), "Space".to_string()),
            ("yank_selection_mouse".to_string(), "clipboard".to_string()),
        ]
        .into_iter()
        .collect(),
    );
    let plugin =
        Plugin::from_descriptor(Some("tmux-plugins/tmux-yank"), None, opts, "/home/u").unwrap();

    assert_eq!(plugin.name, "tmux-yank");

    let expected: PluginOptions = PluginOptions(
        [
            ("copy_mode_put".to_string(), "Space".to_string()),
            ("yank_selection_mouse".to_string(), "clipboard".to_string()),
        ]
        .into_iter()
        .collect(),
    );

    assert_eq!(plugin.options, expected);
}

use pellx_monitor::config::{
    join_path, parent_dir, resolve_config_file, split_resource_lines, FileConfig,
};
use pellx_monitor::settings::Settings;

#[test]
fn parent_dir_takes_everything_before_the_last_slash() {
    assert_eq!(parent_dir("/home/user/.config/pellx_monitor/config.toml"),
        "/home/user/.config/pellx_monitor");
    assert_eq!(parent_dir("a/b/c"), "a/b");
    assert_eq!(parent_dir("a/"), "a");
    assert_eq!(parent_dir("abc"), "");
    assert_eq!(parent_dir(""), "");
}

#[test]
fn join_path_inserts_exactly_one_slash() {
    assert_eq!(join_path("/etc/pellx", "batsigns"), "/etc/pellx/batsigns");
    assert_eq!(join_path("/etc/pellx/", "batsigns"), "/etc/pellx/batsigns");
    assert_eq!(join_path("", "batsigns"), "batsigns");
}

#[test]
fn resolve_config_file_prefers_the_given_name() {
    let r = resolve_config_file(&Some("my.toml".to_string()));
    assert_eq!(r, Some("my.toml".to_string()));
}

#[test]
fn split_resource_lines_trims_and_drops_comments_and_blanks() {
    let text = "https://batsign.me/u/one\n# a comment\n\n   https://batsign.me/u/two  \n";
    let lines = split_resource_lines(text);
    assert_eq!(
        lines,
        vec![
            "https://batsign.me/u/one".to_string(),
            "https://batsign.me/u/two".to_string(),
        ]
    );
}

#[test]
fn split_resource_lines_of_empty_text_is_empty() {
    assert!(split_resource_lines("").is_empty());
    assert!(split_resource_lines("   \n# only a comment\n").is_empty());
}

#[test]
fn split_resource_lines_keeps_last_line_without_newline() {
    let lines = split_resource_lines("one\ntwo");
    assert_eq!(lines, vec!["one".to_string(), "two".to_string()]);
}

#[test]
fn file_config_default_overrides_nothing() {
    let f = FileConfig::default();
    assert!(f.pin_number.is_none());
    assert!(f.poll_interval.is_none());
    assert!(f.hold.is_none());
    assert!(f.time_between_batsigns.is_none());
    assert!(f.time_between_batsigns_retry.is_none());
}

#[test]
fn file_config_from_settings_captures_every_field() {
    let mut s = Settings::default();
    s.pin_number = 17;
    s.hold = 5_000;
    let f = FileConfig::from(&s);
    assert_eq!(f.pin_number, Some(17));
    assert_eq!(f.poll_interval, Some(1_000));
    assert_eq!(f.hold, Some(5_000));
    assert_eq!(f.time_between_batsigns, Some(21_600_000));
    assert_eq!(f.time_between_batsigns_retry, Some(300_000));
}

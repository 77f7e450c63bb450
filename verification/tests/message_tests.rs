use pellx_monitor::message::format_batsign_message;
use pellx_monitor::settings::Settings;

fn test_settings() -> Settings {
    let mut s = Settings::default();
    s.pin_number = 24;
    s.poll_interval = 1_000; // 1s
    s.hold = 10_000; // 10s
    s.time_between_batsigns = 21_600_000; // 6h
    s.time_between_batsigns_retry = 300_000; // 5m
    s
}

#[test]
fn known_placeholders_are_substituted() {
    let s = test_settings();
    let rendered = format_batsign_message(
        "Pin {pin_number} has been HIGH for {since}.",
        &s,
        90_000,
    );
    assert_eq!(rendered, "Pin 24 has been HIGH for 1m 30s.");
}

#[test]
fn every_placeholder_kind_is_substituted() {
    let s = test_settings();
    let rendered = format_batsign_message(
        "{since}|{pin_number}|{poll_interval}|{hold}|{time_between_batsigns}|{time_between_batsigns_retry}",
        &s,
        10_000,
    );
    assert_eq!(rendered, "10s|24|1s|10s|6h|5m");
}

#[test]
fn unknown_placeholders_are_left_verbatim() {
    let s = test_settings();
    let rendered = format_batsign_message("Hello {nobody}, pin {pin_number}.", &s, 0);
    assert_eq!(rendered, "Hello {nobody}, pin 24.");
}

#[test]
fn template_without_placeholders_is_unchanged() {
    let s = test_settings();
    let rendered = format_batsign_message("Subject: PellX Alarm\n", &s, 0);
    assert_eq!(rendered, "Subject: PellX Alarm\n");
}

#[test]
fn repeated_placeholder_is_substituted_everywhere() {
    let s = test_settings();
    let rendered = format_batsign_message("{pin_number} and {pin_number}", &s, 0);
    assert_eq!(rendered, "24 and 24");
}

#[test]
fn subsecond_durations_render_with_milliseconds() {
    let s = test_settings();
    let rendered = format_batsign_message("{since}", &s, 1_500);
    assert_eq!(rendered, "1s 500ms");
}

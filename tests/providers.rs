use fetch_rs::info::{
    color_table, colorize_logo, host_text, kernel_from_release, kernel_text, os_text, uptime_text,
};
use fetch_rs::plugin::{plugin_text, sort_loads};

#[test]
fn os_text_with_all_parts() {
    assert_eq!(
        os_text("ExampleOS", "1.0", Some("Stable"), Some("x86_64")),
        "OS: ExampleOS 1.0 (Stable) x86_64"
    );
}

#[test]
fn os_text_with_unknown_parts() {
    assert_eq!(
        os_text("Fedora", "40", None, None),
        "OS: Fedora 40 (Unknown Edition) Unknown Architecture"
    );
}

#[test]
fn kernel_text_strips_line_ending() {
    assert_eq!(kernel_text(b"6.6.32\n"), "Kernel: 6.6.32");
}

#[test]
fn kernel_text_empty_output() {
    assert_eq!(kernel_text(b""), "");
}

#[test]
fn kernel_text_replaces_bad_bytes() {
    assert_eq!(kernel_text(b"6.\xff\n"), "Kernel: 6.\u{FFFD}");
}

#[test]
fn host_text_strips_line_endings() {
    assert_eq!(host_text("ASUSTeK\n", "PRIME B450\n"), "Host: ASUSTeK PRIME B450");
    assert_eq!(host_text("", "board\n"), "");
}

#[test]
fn uptime_text_splits_seconds() {
    assert_eq!(uptime_text(3725), "Uptime: 1hr 2m 5s");
    assert_eq!(uptime_text(0), "Uptime: 0hr 0m 0s");
    assert_eq!(uptime_text(90061), "Uptime: 25hr 1m 1s");
}

#[test]
fn uptime_text_largest() {
    assert_eq!(
        uptime_text(u64::MAX),
        format!("Uptime: {}hr {}m {}s", u64::MAX / 3600, (u64::MAX / 60) % 60, u64::MAX % 60)
    );
}

#[test]
fn plugin_text_valid_utf8() {
    assert_eq!(plugin_text("Packages: 42".as_bytes()), "Packages: 42");
    assert_eq!(plugin_text("héllo".as_bytes()), "héllo");
}

#[test]
fn plugin_text_invalid_utf8_is_empty() {
    assert_eq!(plugin_text(&[0x50, 0xff, 0xfe]), "");
}

#[test]
fn failed_plugin_candidate_is_skipped_with_one_warning() {
    let outcomes = vec![
        ("/p/a.so".to_string(), Some(1u32)),
        ("/p/readme.txt".to_string(), None),
        ("/p/b.so".to_string(), Some(2u32)),
    ];
    let (loaded, failed) = sort_loads(outcomes);
    assert_eq!(loaded, vec![1, 2]);
    assert_eq!(failed, vec!["/p/readme.txt".to_string()]);
}

#[test]
fn no_plugin_candidates() {
    let (loaded, failed) = sort_loads::<u32>(Vec::new());
    assert!(loaded.is_empty());
    assert!(failed.is_empty());
}

#[test]
fn kernel_from_release_cases() {
    assert_eq!(kernel_from_release("6.8.0-45-generic\n"), "Kernel: 6.8.0-45-generic");
    assert_eq!(kernel_from_release(""), "");
}

#[test]
fn colorize_logo_replaces_every_color_name() {
    assert_eq!(colorize_logo("NBLU//BCYN\\\\NBLU"), "\x1B[34m//\x1B[36m\\\\\x1B[34m");
    assert_eq!(colorize_logo("plain"), "plain");
    assert_eq!(colorize_logo(""), "");
}

#[test]
fn color_table_has_normal_and_bright_colors() {
    let t = color_table();
    assert_eq!(t.len(), 16);
    assert_eq!(t[0], ("NBLK", "\x1B[30m"));
    assert_eq!(t[7], ("NWHT", "\x1B[37m"));
    assert_eq!(t[15], ("BWHT", "\x1B[37m"));
}

use process_watcher::config::{
    join_words, parse_delay, resolve_launch, usage_brief, Launch, DEFAULT_DELAY_MS,
};

fn words(w: &[&str]) -> Vec<String> {
    w.iter().map(|s| s.to_string()).collect()
}

#[test]
fn delay_parsing() {
    assert_eq!(parse_delay("2500"), Some(2500));
    assert_eq!(parse_delay("0"), Some(0));
    assert_eq!(parse_delay("+7"), Some(7));
    assert_eq!(parse_delay("007"), Some(7));
    assert_eq!(parse_delay("18446744073709551615"), Some(u64::MAX));
    assert_eq!(parse_delay("18446744073709551616"), None);
    assert_eq!(parse_delay("99999999999999999999x"), None);
    assert_eq!(parse_delay(""), None);
    assert_eq!(parse_delay("+"), None);
    assert_eq!(parse_delay("-1"), None);
    assert_eq!(parse_delay("12a"), None);
    assert_eq!(parse_delay(" 12"), None);
}

#[test]
fn name_words_joined() {
    assert_eq!(join_words(&words(&["my", "app"])), "my app");
    assert_eq!(join_words(&words(&["firefox"])), "firefox");
    assert_eq!(join_words(&words(&[])), "");
}

#[test]
fn usage_line() {
    assert_eq!(usage_brief("watcher"), "Usage: watcher PROCESS_NAME [options]");
}

#[test]
fn version_and_help_come_first() {
    let w = words(&["x"]);
    assert!(matches!(resolve_launch(&w, true, true, false, None), Launch::ShowVersion));
    assert!(matches!(resolve_launch(&w, true, false, false, None), Launch::ShowUsage));
    assert!(matches!(resolve_launch(&words(&[]), false, false, false, None), Launch::ShowUsage));
}

#[test]
fn watch_with_default_delay() {
    match resolve_launch(&words(&["my", "app"]), false, false, true, None) {
        Launch::Watch(t) => {
            assert_eq!(t.name(), "my app");
            assert_eq!(t.delay_ms(), DEFAULT_DELAY_MS);
            assert_eq!(t.delay_ms(), 2500);
            assert!(t.invert());
        }
        other => panic!("unexpected {:?}", other),
    }
}

#[test]
fn watch_with_given_delay() {
    match resolve_launch(&words(&["app"]), false, false, false, Some("100")) {
        Launch::Watch(t) => {
            assert_eq!(t.delay_ms(), 100);
            assert!(!t.invert());
        }
        other => panic!("unexpected {:?}", other),
    }
}

#[test]
fn bad_delay_refused() {
    assert!(matches!(
        resolve_launch(&words(&["app"]), false, false, false, Some("soon")),
        Launch::InvalidDelay
    ));
}

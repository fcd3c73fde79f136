use clip_to_mpv::monitor::{preflight, LaunchRequest, Monitor, Preflight, WAIT_MILLIS};
use clip_to_mpv::policy::{contains_str, heuristic_is_playable, is_playable, Policy};

#[test]
fn heuristic_rejects_plain_text() {
    assert!(!heuristic_is_playable("not a url"));
}

#[test]
fn heuristic_accepts_www_marker() {
    assert!(heuristic_is_playable("check www.example.com now"));
}

#[test]
fn heuristic_accepts_scheme_prefixes() {
    assert!(heuristic_is_playable("http://example.test/v"));
    assert!(heuristic_is_playable("https://example.test/v"));
    assert!(!heuristic_is_playable(""));
}

#[test]
fn strict_rejects_schemeless() {
    assert!(!is_playable(Policy::Strict, "youtu.be/9FLRHejWAo8"));
}

#[test]
fn strict_accepts_absolute_url() {
    assert!(is_playable(Policy::Strict, "https://youtu.be/9FLRHejWAo8"));
}

#[test]
fn strict_rejects_plain_text() {
    assert!(!is_playable(Policy::Strict, "not a url"));
}

#[test]
fn contains_pattern_at_either_end() {
    assert!(contains_str("www.", "www."));
    assert!(contains_str("abc.com", ".com"));
    assert!(contains_str(".organised", ".org"));
    assert!(!contains_str("ab", "abc"));
    assert!(contains_str("anything", ""));
}

#[test]
fn change_detection_two_launches() {
    let mut watcher = Monitor::new(Policy::Strict);
    let readings = [
        "",
        "https://a.example/x",
        "https://a.example/x",
        "https://b.example/y",
    ];
    let mut launches: Vec<String> = Vec::new();
    for r in readings {
        if let Some(url) = watcher.observe(Some(r.to_string())) {
            launches.push(url);
        }
    }
    assert_eq!(
        launches,
        vec![
            "https://a.example/x".to_string(),
            "https://b.example/y".to_string()
        ]
    );
}

#[test]
fn repeated_value_never_relaunches() {
    let mut watcher = Monitor::new(Policy::Strict);
    assert!(watcher
        .observe(Some("https://a.example/x".to_string()))
        .is_some());
    for _ in 0..5 {
        assert!(watcher
            .observe(Some("https://a.example/x".to_string()))
            .is_none());
    }
}

#[test]
fn failed_read_is_no_change() {
    let mut watcher = Monitor::new(Policy::Strict);
    assert!(watcher
        .observe(Some("https://a.example/x".to_string()))
        .is_some());
    assert!(watcher.observe(None).is_none());
    // the failed read did not disturb the recorded value
    assert!(watcher
        .observe(Some("https://a.example/x".to_string()))
        .is_none());
}

#[test]
fn empty_text_never_launches() {
    let mut watcher = Monitor::new(Policy::Strict);
    assert!(watcher.observe(Some(String::new())).is_none());
    assert!(watcher.observe(None).is_none());
}

#[test]
fn invalid_text_does_not_overwrite_last() {
    let mut watcher = Monitor::new(Policy::Strict);
    assert!(watcher
        .observe(Some("https://a.example/x".to_string()))
        .is_some());
    assert!(watcher.observe(Some("not a url".to_string())).is_none());
    // the rejected text left the recorded value alone
    assert!(watcher
        .observe(Some("https://a.example/x".to_string()))
        .is_none());
}

#[test]
fn alternating_values_relaunch() {
    let mut watcher = Monitor::new(Policy::Strict);
    assert!(watcher
        .observe(Some("https://a.example/x".to_string()))
        .is_some());
    assert!(watcher
        .observe(Some("https://b.example/y".to_string()))
        .is_some());
    // only the single last value is kept, so returning to the first launches
    assert!(watcher
        .observe(Some("https://a.example/x".to_string()))
        .is_some());
}

#[test]
fn launch_failure_does_not_stop_polling() {
    // the monitor hands out the launch and forgets it: even when the caller's
    // spawn fails, a later valid URL still gets a launch
    let mut watcher = Monitor::new(Policy::Strict);
    let first = watcher.observe(Some("https://a.example/x".to_string()));
    assert_eq!(first, Some("https://a.example/x".to_string()));
    // caller's spawn of `first` failed; nothing is reported back
    let second = watcher.observe(Some("https://b.example/y".to_string()));
    assert_eq!(second, Some("https://b.example/y".to_string()));
}

#[test]
fn preflight_all_found() {
    assert_eq!(
        preflight(true, true, true),
        Preflight::Ready {
            ffmpeg_warning: false
        }
    );
}

#[test]
fn preflight_optional_missing_warns() {
    assert_eq!(
        preflight(true, true, false),
        Preflight::Ready {
            ffmpeg_warning: true
        }
    );
}

#[test]
fn preflight_required_missing_refuses() {
    assert_eq!(
        preflight(false, true, true),
        Preflight::MissingRequired {
            mpv_missing: true,
            yt_dlp_missing: false
        }
    );
    assert_eq!(
        preflight(true, false, false),
        Preflight::MissingRequired {
            mpv_missing: false,
            yt_dlp_missing: true
        }
    );
    assert_eq!(
        preflight(false, false, true),
        Preflight::MissingRequired {
            mpv_missing: true,
            yt_dlp_missing: true
        }
    );
}

#[test]
fn launch_request_shape() {
    let request = LaunchRequest::new("https://a.example/x".to_string());
    assert_eq!(request.program(), "mpv");
    assert_eq!(
        request.args(),
        vec!["--mute".to_string(), "https://a.example/x".to_string()]
    );
}

#[test]
fn wait_interval_is_fixed() {
    assert_eq!(WAIT_MILLIS, 250);
}

#[test]
fn monitor_policy_is_fixed_per_watcher() {
    let mut heuristic = Monitor::new(Policy::Heuristic);
    let mut strict = Monitor::new(Policy::Strict);
    // the heuristic accepts a bare marker that the strict grammar rejects
    assert!(heuristic
        .observe(Some("watch www.example.com".to_string()))
        .is_some());
    assert!(strict
        .observe(Some("watch www.example.com".to_string()))
        .is_none());
}

#[test]
fn observe_all_collects_launches_in_order() {
    let mut watcher = Monitor::new(Policy::Strict);
    let readings = vec![
        Some(String::new()),
        Some("https://a.example/x".to_string()),
        None,
        Some("https://a.example/x".to_string()),
        Some("not a url".to_string()),
        Some("https://b.example/y".to_string()),
    ];
    let launched = watcher.observe_all(&readings);
    assert_eq!(
        launched,
        vec![
            "https://a.example/x".to_string(),
            "https://b.example/y".to_string()
        ]
    );
}

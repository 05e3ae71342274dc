use downdetector::{
    alert_message, Action, Config, Event, Monitor, Overrides, Phase, Probe, RawConfig,
    RawConfigOptions, SiteList,
};

const HOOK: &str = "https://discord.com/api/webhooks/1/secret";

fn config(webhook: Option<&str>, discord_id: Option<u64>, urls: &[&str]) -> Config {
    let raw = RawConfig {
        config: RawConfigOptions {
            timeout_secs: 5,
            check_interval_secs: 60,
            webhook_url: webhook.map(|w| w.to_string()),
            discord_id,
        },
        sites: SiteList { urls: urls.iter().map(|u| u.to_string()).collect() },
    };
    Config::resolve(raw, Overrides::default()).unwrap()
}

fn start(m: &mut Monitor) -> Action {
    m.step(Event::CycleStart { cancelled: false })
}

fn expect_check(a: Action, url: &str) {
    match a {
        Action::Check { url: u, timeout_secs } => {
            assert_eq!(u, url);
            assert_eq!(timeout_secs, 5);
        }
        other => panic!("expected a check of {url}, got {other:?}"),
    }
}

#[test]
fn down_result_sends_one_alert_naming_the_url() {
    let mut m = Monitor::new(config(Some(HOOK), Some(77), &["http://down.example", "https://up.example"]));
    expect_check(start(&mut m), "http://down.example");
    match m.step(Event::Checked { outcome: Probe::Unreachable }) {
        Action::Notify { webhook_url, content } => {
            assert_eq!(webhook_url, HOOK);
            assert_eq!(content, "<@77> Alert: http://down.example is DOWN!");
        }
        other => panic!("expected an alert, got {other:?}"),
    }
    assert_eq!(m.phase, Phase::Notifying { index: 0 });
    expect_check(m.step(Event::Notified { delivered: false }), "https://up.example");
    match m.step(Event::Checked { outcome: Probe::Responded { success: true } }) {
        Action::Sleep { secs } => assert_eq!(secs, 60),
        other => panic!("expected sleep, got {other:?}"),
    }
}

#[test]
fn up_result_sends_no_alert() {
    let mut m = Monitor::new(config(Some(HOOK), None, &["https://a.example", "https://b.example"]));
    expect_check(start(&mut m), "https://a.example");
    expect_check(
        m.step(Event::Checked { outcome: Probe::Responded { success: true } }),
        "https://b.example",
    );
}

#[test]
fn error_status_counts_as_down() {
    let mut m = Monitor::new(config(Some(HOOK), None, &["https://a.example"]));
    start(&mut m);
    match m.step(Event::Checked { outcome: Probe::Responded { success: false } }) {
        Action::Notify { content, .. } => {
            assert_eq!(content, "Alert: https://a.example is DOWN!")
        }
        other => panic!("expected an alert, got {other:?}"),
    }
}

#[test]
fn unreachable_site_is_down_without_failing_the_cycle() {
    let mut m = Monitor::new(config(Some(HOOK), None, &["http://nonexistent.invalid.test", "https://www.google.com"]));
    start(&mut m);
    assert!(matches!(m.step(Event::Checked { outcome: Probe::Unreachable }), Action::Notify { .. }));
    expect_check(m.step(Event::Notified { delivered: true }), "https://www.google.com");
}

#[test]
fn client_failure_is_skipped_without_alert() {
    let mut m = Monitor::new(config(Some(HOOK), None, &["https://a.example", "https://b.example"]));
    start(&mut m);
    expect_check(m.step(Event::Checked { outcome: Probe::ClientFailed }), "https://b.example");
}

#[test]
fn down_without_webhook_sends_no_alert() {
    let mut m = Monitor::new(config(None, Some(5), &["https://a.example"]));
    start(&mut m);
    assert!(matches!(m.step(Event::Checked { outcome: Probe::Unreachable }), Action::Sleep { secs: 60 }));
}

#[test]
fn cancellation_before_cycle_stops_without_checks() {
    let mut m = Monitor::new(config(Some(HOOK), None, &["https://a.example"]));
    assert!(matches!(m.step(Event::CycleStart { cancelled: true }), Action::Stop));
    assert!(m.is_stopped());
    assert!(matches!(m.step(Event::CycleStart { cancelled: false }), Action::Stop));
    assert!(m.is_stopped());
}

#[test]
fn cancellation_during_sleep_stops_at_once() {
    let mut m = Monitor::new(config(None, None, &["https://a.example"]));
    start(&mut m);
    assert!(matches!(
        m.step(Event::Checked { outcome: Probe::Responded { success: true } }),
        Action::Sleep { .. }
    ));
    assert_eq!(m.phase, Phase::Sleeping);
    assert!(matches!(m.step(Event::Cancelled), Action::Stop));
    assert_eq!(m.phase, Phase::Stopped);
}

#[test]
fn cycle_repeats_after_sleep() {
    let mut m = Monitor::new(config(None, None, &["https://a.example"]));
    start(&mut m);
    m.step(Event::Checked { outcome: Probe::Responded { success: true } });
    assert!(matches!(m.step(Event::SleepElapsed), Action::BeginCycle));
    assert_eq!(m.phase, Phase::Idle);
    expect_check(start(&mut m), "https://a.example");
}

#[test]
fn empty_site_list_goes_straight_to_sleep() {
    let mut m = Monitor::new(config(None, None, &[]));
    assert!(matches!(start(&mut m), Action::Sleep { secs: 60 }));
}

#[test]
fn cancellation_mid_check_is_not_honoured_until_the_next_cycle() {
    let mut m = Monitor::new(config(None, None, &["https://a.example"]));
    start(&mut m);
    assert!(matches!(m.step(Event::Cancelled), Action::Wait));
    assert_eq!(m.phase, Phase::Checking { index: 0 });
}

#[test]
fn duplicate_urls_are_each_checked() {
    let mut m = Monitor::new(config(Some(HOOK), None, &["https://a.example", "https://a.example"]));
    expect_check(start(&mut m), "https://a.example");
    expect_check(
        m.step(Event::Checked { outcome: Probe::Responded { success: true } }),
        "https://a.example",
    );
    assert_eq!(m.phase, Phase::Checking { index: 1 });
}

#[test]
fn alert_message_text() {
    assert_eq!(alert_message("https://x.example", None), "Alert: https://x.example is DOWN!");
    assert_eq!(
        alert_message("https://x.example", Some(1234567890)),
        "<@1234567890> Alert: https://x.example is DOWN!"
    );
    assert_eq!(alert_message("u", Some(0)), "<@0> Alert: u is DOWN!");
}

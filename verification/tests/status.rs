use usage_core::clock::{millis_of, secs_of};
use usage_core::auth::Session;
use usage_core::cache::{Settings, Theme, UsageCache, DEFAULT_OPACITY_BITS};
use usage_core::status::{
    autostart_change, login_result, poll_interval_secs, status_from_stale, step_after_credentials, step_after_credentials_at,
    step_after_poll, tray_command, AutostartChange, CredentialsRead, PollStep, StatusStep, TrayCommand, UsageStatus,
};
use usage_core::usage::{RateWindow, UsageSnapshot};

fn session(expires_at_ms: i64) -> Session {
    Session {
        access_token: "test-token-abc".to_string(),
        expires_at_ms,
        subscription_type: Some("pro".to_string()),
        rate_limit_tier: Some("default_claude_ai".to_string()),
    }
}

fn now_ms() -> i64 {
    std::time::SystemTime::now().duration_since(std::time::UNIX_EPOCH).unwrap().as_millis() as i64
}

fn snapshot() -> UsageSnapshot {
    UsageSnapshot {
        five_hour: Some(RateWindow {
            status: Some("allowed".into()),
            reset_unix: Some(123),
            utilization: Some(0.42f64.to_bits()),
            estimated_full_unix: None,
        }),
        seven_day: None,
        overage: None,
        representative_claim: Some("five_hour".into()),
        fetched_at_unix: 100,
    }
}

#[test]
fn session_expires_at_its_expiry_instant() {
    let s = session(1_000);
    assert!(!s.is_expired_at(999));
    assert!(s.is_expired_at(1_000));
    assert!(s.is_expired_at(1_001));
}

#[test]
fn future_session_is_not_expired() {
    assert!(!session(now_ms() + 3_600_000).is_expired());
}

#[test]
fn past_session_is_expired() {
    assert!(session(now_ms() - 1_000).is_expired());
}

#[test]
fn missing_credentials_answer_not_logged_in() {
    match step_after_credentials(CredentialsRead::Missing) {
        StatusStep::Answer(UsageStatus::NotLoggedIn) => {}
        other => panic!("unexpected {other:?}"),
    }
}

#[test]
fn unreadable_credentials_fail_with_their_message() {
    match step_after_credentials_at(CredentialsRead::Failed("bad json".into()), 0) {
        StatusStep::Fail(message) => assert_eq!(message, "bad json"),
        other => panic!("unexpected {other:?}"),
    }
}

#[test]
fn expired_session_is_answered_without_polling() {
    match step_after_credentials_at(CredentialsRead::Loaded(session(500)), 500) {
        StatusStep::Answer(UsageStatus::SessionExpired) => {}
        other => panic!("unexpected {other:?}"),
    }
    match step_after_credentials(CredentialsRead::Loaded(session(now_ms() - 1_000))) {
        StatusStep::Answer(UsageStatus::SessionExpired) => {}
        other => panic!("unexpected {other:?}"),
    }
}

#[test]
fn live_session_is_polled_with_its_token() {
    match step_after_credentials(CredentialsRead::Loaded(session(now_ms() + 3_600_000))) {
        StatusStep::Poll { access_token, subscription_type } => {
            assert_eq!(access_token, "test-token-abc");
            assert_eq!(subscription_type.as_deref(), Some("pro"));
        }
        other => panic!("unexpected {other:?}"),
    }
}

#[test]
fn successful_poll_is_stored_and_shown() {
    match step_after_poll(Ok(snapshot()), Some("max".into())) {
        PollStep::StoreAndAnswer { cache, status } => {
            assert_eq!(cache, UsageCache { last_snapshot: Some(snapshot()) });
            match status {
                UsageStatus::Current { snapshot: shown, subscription_type } => {
                    assert_eq!(shown, snapshot());
                    assert_eq!(subscription_type.as_deref(), Some("max"));
                }
                other => panic!("unexpected {other:?}"),
            }
        }
        other => panic!("unexpected {other:?}"),
    }
}

#[test]
fn failed_poll_falls_back_to_the_stored_snapshot() {
    let message = match step_after_poll(Err("network down".into()), None) {
        PollStep::ReadCache { message } => message,
        other => panic!("unexpected {other:?}"),
    };
    match status_from_stale(message.clone(), Some(UsageCache { last_snapshot: Some(snapshot()) })) {
        UsageStatus::Error { message, stale_snapshot } => {
            assert_eq!(message, "network down");
            assert_eq!(stale_snapshot, Some(snapshot()));
        }
        other => panic!("unexpected {other:?}"),
    }
    match status_from_stale(message, None) {
        UsageStatus::Error { stale_snapshot, .. } => assert_eq!(stale_snapshot, None),
        other => panic!("unexpected {other:?}"),
    }
}

#[test]
fn autostart_is_touched_only_when_it_differs() {
    assert_eq!(autostart_change(true, false), AutostartChange::Enable);
    assert_eq!(autostart_change(false, true), AutostartChange::Disable);
    assert_eq!(autostart_change(true, true), AutostartChange::Keep);
    assert_eq!(autostart_change(false, false), AutostartChange::Keep);
}

#[test]
fn tray_entries_map_to_commands() {
    assert_eq!(tray_command("refresh"), TrayCommand::Refresh);
    assert_eq!(tray_command("settings"), TrayCommand::ShowSettings);
    assert_eq!(tray_command("quit"), TrayCommand::Quit);
    assert_eq!(tray_command("Quit"), TrayCommand::Ignore);
    assert_eq!(tray_command("refreshing"), TrayCommand::Ignore);
    assert_eq!(tray_command(""), TrayCommand::Ignore);
}

#[test]
fn poll_interval_is_at_least_a_minute() {
    assert_eq!(poll_interval_secs(None), 300);
    assert_eq!(poll_interval_secs(Some(600)), 600);
    assert_eq!(poll_interval_secs(Some(60)), 60);
    assert_eq!(poll_interval_secs(Some(59)), 60);
    assert_eq!(poll_interval_secs(Some(0)), 60);
}

#[test]
fn default_settings() {
    let s = Settings::default();
    assert_eq!(s.theme, Theme::System);
    assert_eq!(s.accent_color, "#d97757");
    assert!(!s.compact_layout);
    assert!(s.always_on_top);
    assert_eq!(f32::from_bits(s.opacity), 0.96f32);
    assert_eq!(s.opacity, DEFAULT_OPACITY_BITS);
    assert_eq!(s.poll_interval_secs, 300);
    assert_eq!(s.window_x, None);
    assert_eq!(s.window_y, None);
    assert!(!s.autostart);
}

#[test]
fn recorded_window_position_is_restored() {
    let mut s = Settings::default();
    assert_eq!(s.window_position(), None);
    s.window_x = Some(5);
    assert_eq!(s.window_position(), None);
    s.record_window_position(120, -40);
    assert_eq!(s.window_position(), Some((120, -40)));
    assert_eq!(s.theme, Theme::System);
    assert_eq!(s.poll_interval_secs, 300);
}

#[test]
fn settings_compare_opacity_as_a_float() {
    let mut a = Settings::default();
    let mut b = Settings::default();
    assert_eq!(a, b);
    a.opacity = 0.0f32.to_bits();
    b.opacity = (-0.0f32).to_bits();
    assert_eq!(a, b);
    a.opacity = f32::NAN.to_bits();
    b.opacity = f32::NAN.to_bits();
    assert_ne!(a, b);
    b.opacity = 0.5f32.to_bits();
    assert_ne!(a, b);
    a.opacity = 0.5f32.to_bits();
    a.accent_color = "#000000".into();
    assert_ne!(a, b);
}

#[test]
fn windows_compare_utilization_as_a_float() {
    let window = |utilization: Option<f64>| RateWindow {
        status: Some("allowed".into()),
        reset_unix: Some(1),
        utilization: utilization.map(f64::to_bits),
        estimated_full_unix: None,
    };
    assert_eq!(window(Some(0.25)), window(Some(0.25)));
    assert_eq!(window(Some(0.0)), window(Some(-0.0)));
    assert_ne!(window(Some(f64::NAN)), window(Some(f64::NAN)));
    assert_ne!(window(Some(0.25)), window(None));
    assert_eq!(window(None), window(None));
    let mut a = snapshot();
    let b = snapshot();
    assert_eq!(a, b);
    a.five_hour = Some(window(Some(f64::NAN)));
    assert_ne!(a.clone(), a);
}

#[test]
fn login_outcome_follows_the_exit_status() {
    assert_eq!(login_result(true), Ok(()));
    assert_eq!(login_result(false), Err("Login wurde nicht erfolgreich abgeschlossen.".to_string()));
}

#[test]
fn clock_readings_convert_to_whole_units() {
    assert_eq!(millis_of(None), 0);
    assert_eq!(secs_of(None), 0);
    assert_eq!(millis_of(Some((1_785_400_000, 999_999_999))), 1_785_400_000_999);
    assert_eq!(millis_of(Some((2, 1_999_999))), 2_001);
    assert_eq!(secs_of(Some((1_785_400_000, 999_999_999))), 1_785_400_000);
    assert_eq!(secs_of(Some((u64::MAX, 0))), -1);
}

#[test]
fn expiry_is_judged_at_the_reading_in_milliseconds() {
    let s = session(5_002);
    assert!(!s.expired_at_reading(None));
    assert!(!s.expired_at_reading(Some((5, 1_999_999))));
    assert!(s.expired_at_reading(Some((5, 2_000_000))));
    assert!(s.expired_at_reading(Some((6, 0))));
}

use muku::notifier::{
    check_due_task, default_due_minutes_before, default_enabled, default_notify_on_overdue,
    default_periodic_end, default_periodic_interval, default_periodic_start, elapsed_since,
    minutes_before_instant, minutes_duration_valid, parse_instant, plan_tick, reminder_stamp, tick_periodic, within_time_window, DueCheck,
    Instant, NotificationSettings, PeriodicState,
};

fn at(text: &str) -> Instant {
    parse_instant(Some(text)).expect("valid RFC 3339 time")
}

fn settings() -> NotificationSettings {
    NotificationSettings::default()
}

fn texts(c: DueCheck) -> Option<(String, String)> {
    match c {
        DueCheck::Notify(n) => Some((n.toast, n.chat)),
        _ => None,
    }
}

#[test]
fn default_settings() {
    let s = NotificationSettings::default();
    assert!(s.enabled && default_enabled());
    assert_eq!(s.due_minutes_before, 15);
    assert_eq!(default_due_minutes_before(), 15);
    assert!(s.notify_on_overdue && default_notify_on_overdue());
    assert_eq!(s.periodic_interval_minutes, 180);
    assert_eq!(default_periodic_interval(), 180);
    assert_eq!((s.periodic_start_hour, s.periodic_end_hour), (9, 22));
    assert_eq!((default_periodic_start(), default_periodic_end()), (9, 22));
}

#[test]
fn time_window_hours() {
    assert!(within_time_window(9, 9, 22));
    assert!(within_time_window(21, 9, 22));
    assert!(!within_time_window(22, 9, 22));
    assert!(!within_time_window(8, 9, 22));
    assert!(within_time_window(23, 22, 6));
    assert!(within_time_window(3, 22, 6));
    assert!(!within_time_window(6, 22, 6));
    assert!(!within_time_window(12, 22, 6));
    for h in 0..24 {
        assert!(within_time_window(h, 5, 5));
        assert_ne!(within_time_window(h, 9, 22), within_time_window(h, 22, 9));
    }
}

#[test]
fn tick_plans() {
    let mut s = settings();
    let p = plan_tick(&s, 10);
    assert!(p.check_due && p.check_periodic);
    let p = plan_tick(&s, 23);
    assert!(p.check_due && !p.check_periodic);
    s.periodic_interval_minutes = 0;
    assert!(!plan_tick(&s, 10).check_periodic);
    s.enabled = false;
    let p = plan_tick(&s, 10);
    assert!(!p.check_due && !p.check_periodic);
}

#[test]
fn parsing_times() {
    let a = at("2026-04-16T09:00:00+09:00");
    assert_eq!(a, Instant { secs: 1776297600, frac: 0 });
    assert_eq!(at("2026-04-16T00:00:00.5Z"), Instant { secs: 1776297600, frac: 500_000_000 });
    assert_eq!(parse_instant(Some("明日まで")), None);
    assert_eq!(parse_instant(None), None);
}

#[test]
fn elapsed_time_between_instants() {
    let a = at("2026-04-16T09:00:00+09:00");
    let b = at("2026-04-16T09:10:30.25+09:00");
    assert_eq!(elapsed_since(b, a), 630_250_000_000);
    assert_eq!(elapsed_since(a, b), -630_250_000_000);
    let leap = at("2016-12-31T23:59:60.5Z");
    assert_eq!(leap.frac, 1_500_000_000);
}

const SAMPLES: [&str; 10] = [
    "2016-12-31T23:59:60.5Z",
    "2017-01-01T00:00:00Z",
    "2016-12-31T12:00:60Z",
    "2016-12-31T12:01:00Z",
    "2016-12-31T12:00:59.25Z",
    "2026-04-16T09:00:00+09:00",
    "2026-04-16T09:10:30.25+09:00",
    "1969-12-31T23:59:59.75Z",
    "0001-01-01T00:00:00Z",
    "9999-12-31T23:59:60.999999999Z",
];

#[test]
fn elapsed_time_agrees_with_chrono() {
    for a in SAMPLES {
        for b in SAMPLES {
            let ca = chrono::DateTime::parse_from_rfc3339(a).unwrap();
            let cb = chrono::DateTime::parse_from_rfc3339(b).unwrap();
            let expected = ca.signed_duration_since(cb);
            let expected_nanos = expected.num_seconds() as i128 * 1_000_000_000 + expected.subsec_nanos() as i128;
            assert_eq!(elapsed_since(at(a), at(b)), expected_nanos, "{} - {}", a, b);
        }
    }
}

#[test]
fn window_start_and_order_agree_with_chrono() {
    for a in SAMPLES {
        for m in [1i64, 15, 59, 1440, -30] {
            let ca = chrono::DateTime::parse_from_rfc3339(a).unwrap();
            let Some(start) = ca.checked_sub_signed(chrono::TimeDelta::minutes(m)) else { continue };
            let (secs, frac) = minutes_before_instant(at(a), m);
            assert_eq!((secs, frac), (start.timestamp() as i128, start.timestamp_subsec_nanos()), "{} - {}m", a, m);
            for b in SAMPLES {
                let cb = chrono::DateTime::parse_from_rfc3339(b).unwrap();
                let ib = at(b);
                let before = (ib.secs as i128) < secs || ((ib.secs as i128) == secs && ib.frac < frac);
                assert_eq!(before, cb < start, "{} < {} - {}m", b, a, m);
            }
        }
    }
}

#[test]
fn upcoming_reminder_texts() {
    let now = at("2026-04-16T09:00:00+09:00");
    let c = check_due_task("資料作成", Some("2026-04-16T09:10:00+09:00"), None, now, &settings());
    let (toast, chat) = texts(c).expect("reminder");
    assert_eq!(toast, "あと 10 分で期限: 資料作成");
    assert_eq!(chat, "「資料作成」、あと 10 分で期限です。準備できそう？");
    let c = check_due_task("x", Some("2026-04-16T09:14:59.9+09:00"), None, now, &settings());
    assert_eq!(texts(c).unwrap().0, "あと 14 分で期限: x");
}

#[test]
fn no_reminder_outside_window_or_without_due_date() {
    let now = at("2026-04-16T09:00:00+09:00");
    assert!(matches!(check_due_task("x", Some("2026-04-16T09:15:00.001+09:00"), None, now, &settings()), DueCheck::Quiet));
    assert!(matches!(check_due_task("x", None, None, now, &settings()), DueCheck::Quiet));
    assert!(matches!(check_due_task("x", Some("今日中"), None, now, &settings()), DueCheck::Quiet));
}

#[test]
fn upcoming_reminder_sent_once_per_window() {
    let now = at("2026-04-16T09:00:00+09:00");
    let due = Some("2026-04-16T09:10:00+09:00");
    let earlier = Some("2026-04-16T08:50:00+09:00");
    assert!(matches!(check_due_task("x", due, earlier, now, &settings()), DueCheck::Notify(_)));
    let inside = Some("2026-04-16T08:56:00+09:00");
    assert!(matches!(check_due_task("x", due, inside, now, &settings()), DueCheck::Quiet));
    let same = Some("2026-04-16T09:00:00+09:00");
    assert!(matches!(check_due_task("x", due, same, now, &settings()), DueCheck::Quiet));
}

#[test]
fn overdue_reminder_every_six_hours() {
    let now = at("2026-04-16T12:00:00+09:00");
    let due = Some("2026-04-16T09:00:00+09:00");
    let (toast, chat) = texts(check_due_task("買い物", due, None, now, &settings())).unwrap();
    assert_eq!(toast, "期限超過: 買い物");
    assert_eq!(chat, "「買い物」の期限が過ぎたよ。今日中にいけそう？");
    let recent = Some("2026-04-16T09:00:00+09:00");
    assert!(matches!(check_due_task("x", due, recent, now, &settings()), DueCheck::Quiet));
    let later = at("2026-04-16T15:00:00+09:00");
    assert!(matches!(check_due_task("x", due, recent, later, &settings()), DueCheck::Notify(_)));
    let almost = at("2026-04-16T14:59:59.999+09:00");
    assert!(matches!(check_due_task("x", due, recent, almost, &settings()), DueCheck::Quiet));
    let exactly_due = at("2026-04-16T09:00:00+09:00");
    assert!(matches!(check_due_task("x", due, None, exactly_due, &settings()), DueCheck::Notify(_)));
    let mut off = settings();
    off.notify_on_overdue = false;
    assert!(matches!(check_due_task("x", due, None, now, &off), DueCheck::Quiet));
}

#[test]
fn window_start_outside_chrono_dates() {
    let mut s = settings();
    s.due_minutes_before = 150_000_000_000_000;
    assert!(minutes_duration_valid(s.due_minutes_before));
    let now = at("2026-04-16T09:00:00+09:00");
    let c = check_due_task("x", Some("2026-04-16T10:00:00+09:00"), Some("2026-04-01T00:00:00Z"), now, &s);
    assert!(matches!(c, DueCheck::OutOfRange));
    let c = check_due_task("x", Some("2026-04-16T10:00:00+09:00"), None, now, &s);
    assert!(matches!(c, DueCheck::Notify(_)));
}

#[test]
fn minute_durations_in_range() {
    assert!(minutes_duration_valid(0));
    assert!(minutes_duration_valid(153_722_867_280_912));
    assert!(!minutes_duration_valid(153_722_867_280_913));
    assert!(minutes_duration_valid(-153_722_867_280_912));
    assert!(!minutes_duration_valid(i64::MIN));
}

#[test]
fn periodic_reminder() {
    let s = settings();
    let mut state = PeriodicState { last_sent_at: None };
    let t0 = at("2026-04-16T09:00:00+09:00");
    assert_eq!(tick_periodic(&mut state, 0, &s, t0), None);
    assert_eq!(state.last_sent_at, None);
    assert_eq!(tick_periodic(&mut state, 3, &s, t0), Some("アクティブなタスク 3 件".to_string()));
    assert_eq!(state.last_sent_at, Some(t0));
    assert_eq!(tick_periodic(&mut state, 3, &s, t0), None);
    let t1 = at("2026-04-16T11:59:59+09:00");
    assert_eq!(tick_periodic(&mut state, 3, &s, t1), None);
    assert_eq!(state.last_sent_at, Some(t0));
    let t2 = at("2026-04-16T12:00:00+09:00");
    assert_eq!(tick_periodic(&mut state, 12, &s, t2), Some("アクティブなタスク 12 件".to_string()));
    assert_eq!(state.last_sent_at, Some(t2));
}

#[test]
fn overdue_reminder_follows_upcoming_one() {
    let due = Some("2026-04-16T09:10:00+09:00");
    let pre = at("2026-04-16T09:00:00+09:00");
    assert!(matches!(check_due_task("x", due, None, pre, &settings()), DueCheck::Notify(_)));
    let stamp = reminder_stamp(pre, 9 * 3600).unwrap();
    let after = at("2026-04-16T09:10:30+09:00");
    let (toast, _) = texts(check_due_task("x", due, Some(&stamp), after, &settings())).unwrap();
    assert_eq!(toast, "期限超過: x");
    let over_stamp = reminder_stamp(after, 9 * 3600).unwrap();
    let soon = at("2026-04-16T10:10:30+09:00");
    assert!(matches!(check_due_task("x", due, Some(&over_stamp), soon, &settings()), DueCheck::Quiet));
}

#[test]
fn stamps_in_whole_seconds() {
    let t = at("2026-04-16T09:00:05.75+09:00");
    assert_eq!(reminder_stamp(t, 9 * 3600).as_deref(), Some("2026-04-16T09:00:05+09:00"));
    assert_eq!(reminder_stamp(t, 0).as_deref(), Some("2026-04-16T00:00:05+00:00"));
    assert_eq!(reminder_stamp(t, 86_400), None);
    assert_eq!(reminder_stamp(Instant { secs: i64::MAX, frac: 0 }, 0), None);
    assert_eq!(parse_instant(Some("2026-04-16T09:00:05+09:00")), Some(Instant { secs: t.secs, frac: 0 }));
}

#[test]
fn stamps_read_back_as_whole_seconds() {
    for text in ["2026-04-16T09:00:05.75+09:00", "0000-01-01T00:00:00+00:00", "9999-12-31T23:59:59.5-05:30"] {
        let t = at(text);
        let offset = chrono::DateTime::parse_from_rfc3339(text).unwrap().offset().local_minus_utc();
        let stamp = reminder_stamp(t, offset).unwrap();
        assert_eq!(parse_instant(Some(&stamp)), Some(Instant { secs: t.secs, frac: 0 }), "{}", text);
    }
    let t = at("2026-04-16T09:00:05+09:00");
    let odd = reminder_stamp(t, 3601).unwrap();
    assert_ne!(parse_instant(Some(&odd)), Some(t));
}

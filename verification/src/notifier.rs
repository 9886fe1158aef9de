//! Reminder rules: notification settings and their defaults, the daily
//! time window, the due-date reminder of a task, and the periodic reminder
//! of the active task count.
//!
//! Points in time are held as chrono holds them: `secs` is the Unix
//! timestamp in non-leap seconds and `frac` the nanoseconds within the
//! second, which reach past one second only inside a leap second.
use vstd::prelude::*;
use vstd::string::*;
use crate::text::{signed_decimal, signed_decimal_string};

verus! {

/// User settings of the reminders.
#[derive(Clone, Copy, Debug)]
pub struct NotificationSettings {
    pub enabled: bool,
    pub due_minutes_before: i64,
    pub notify_on_overdue: bool,
    pub periodic_interval_minutes: i64,
    pub periodic_start_hour: i64,
    pub periodic_end_hour: i64,
}

pub fn default_enabled() -> (r: bool)
    ensures
        r == true,
{
    true
}

pub fn default_due_minutes_before() -> (r: i64)
    ensures
        r == 15,
{
    15
}

pub fn default_notify_on_overdue() -> (r: bool)
    ensures
        r == true,
{
    true
}

pub fn default_periodic_interval() -> (r: i64)
    ensures
        r == 180,
{
    180
}

pub fn default_periodic_start() -> (r: i64)
    ensures
        r == 9,
{
    9
}

pub fn default_periodic_end() -> (r: i64)
    ensures
        r == 22,
{
    22
}

/// The settings in force when none are stored.
pub open spec fn default_settings() -> NotificationSettings {
    NotificationSettings {
        enabled: true,
        due_minutes_before: 15,
        notify_on_overdue: true,
        periodic_interval_minutes: 180,
        periodic_start_hour: 9,
        periodic_end_hour: 22,
    }
}

impl Default for NotificationSettings {
    fn default() -> (s: Self)
        ensures
            s == default_settings(),
    {
        NotificationSettings {
            enabled: default_enabled(),
            due_minutes_before: default_due_minutes_before(),
            notify_on_overdue: default_notify_on_overdue(),
            periodic_interval_minutes: default_periodic_interval(),
            periodic_start_hour: default_periodic_start(),
            periodic_end_hour: default_periodic_end(),
        }
    }
}

/// Whether an hour of the day lies in the daily window from `start`
/// (inclusive) to `end` (exclusive); a window that ends before it starts
/// runs over midnight, and one that ends where it starts is the whole day.
pub open spec fn in_time_window(hour: int, start: int, end: int) -> bool {
    if start == end {
        true
    } else if start < end {
        start <= hour && hour < end
    } else {
        hour >= start || hour < end
    }
}

/// Whether the local hour `hour` lies in the reminder window.
pub fn within_time_window(hour: u32, start: i64, end: i64) -> (r: bool)
    ensures
        r == in_time_window(hour as int, start as int, end as int),
{
    let h = hour as i64;
    if start == end {
        return true;
    }
    if start < end {
        h >= start && h < end
    } else {
        h >= start || h < end
    }
}

/// Outside a whole-day window, an hour lies in the window from `start` to
/// `end` exactly when it does not lie in the window from `end` to `start`.
pub proof fn lemma_time_window_complement(hour: int, start: int, end: int)
    requires
        start != end,
    ensures
        in_time_window(hour, start, end) == !in_time_window(hour, end, start),
{
}

/// A window holds its starting hour, and, unless it is the whole day, not
/// its ending hour.
pub proof fn lemma_time_window_edges(start: int, end: int)
    ensures
        in_time_window(start, start, end),
        start != end ==> !in_time_window(end, start, end),
{
}

/// A window that ends where it starts holds every hour.
pub proof fn lemma_time_window_whole_day(hour: int, start: int)
    ensures
        in_time_window(hour, start, start),
{
}

/// What one tick of the reminder loop does with the settings in force.
#[derive(Clone, Copy, Debug, PartialEq, Eq, Structural)]
pub struct TickPlan {
    /// Check the due dates of the open tasks.
    pub check_due: bool,
    /// Consider the periodic reminder of the active task count.
    pub check_periodic: bool,
}

/// Decides what a tick of the reminder loop does at local hour `hour`:
/// nothing while reminders are disabled; otherwise the due dates are
/// checked, and the periodic reminder is considered when it has a positive
/// interval and the hour is in its window.
pub fn plan_tick(settings: &NotificationSettings, hour: u32) -> (r: TickPlan)
    ensures
        r.check_due == settings.enabled,
        r.check_periodic == (settings.enabled && settings.periodic_interval_minutes > 0
            && in_time_window(hour as int, settings.periodic_start_hour as int, settings.periodic_end_hour as int)),
{
    if !settings.enabled {
        return TickPlan { check_due: false, check_periodic: false };
    }
    let periodic = settings.periodic_interval_minutes > 0 && within_time_window(
        hour,
        settings.periodic_start_hour,
        settings.periodic_end_hour,
    );
    TickPlan { check_due: true, check_periodic: periodic }
}

/// A point in time, as a Unix timestamp and the nanoseconds past it.
#[derive(Clone, Copy, Debug, PartialEq, Eq, Structural)]
pub struct Instant {
    pub secs: i64,
    pub frac: u32,
}

pub const NANOS_PER_SEC: i128 = 1_000_000_000;

pub const NANOS_PER_MINUTE: i128 = 60_000_000_000;

/// The first second of the earliest date that chrono represents.
pub const MIN_TIMESTAMP: i128 = -8_334_601_315_200;

/// The first second after the latest date that chrono represents.
pub const END_TIMESTAMP: i128 = 8_210_266_876_800;

/// The largest number of seconds that a chrono duration holds.
pub const MAX_DELTA_SECS: i128 = 9_223_372_036_854_775;

impl Instant {
    /// The nanoseconds within the second stay below two seconds (the second
    /// one only inside a leap second), as in chrono.
    pub open spec fn wf(self) -> bool {
        self.frac < 2_000_000_000
    }
}

/// The second of the day of a timestamp.
pub open spec fn second_of_day(secs: int) -> int {
    secs % 86400
}

/// The signed nanoseconds from `earlier` to `later` (chrono's
/// `signed_duration_since`), counting a leap second that lies between them.
pub open spec fn elapsed_nanos(later: Instant, earlier: Instant) -> int {
    let a = second_of_day(later.secs as int);
    let b = second_of_day(earlier.secs as int);
    let leap: int = if a > b && earlier.frac >= NANOS_PER_SEC {
        1
    } else if a < b && later.frac >= NANOS_PER_SEC {
        -1
    } else {
        0
    };
    (later.secs - earlier.secs + leap) * NANOS_PER_SEC + later.frac - earlier.frac
}

/// Whether a number of minutes makes a chrono duration without panicking.
pub open spec fn minutes_in_range(m: int) -> bool {
    -MAX_DELTA_SECS <= m * 60 <= MAX_DELTA_SECS
}

/// The point `m` minutes before `t` (chrono's `DateTime - TimeDelta`), as
/// a timestamp and nanoseconds; stepping back out of a leap second moves to
/// the start of the second after it.
pub open spec fn minutes_before(t: Instant, m: int) -> (int, int) {
    let w = m * 60;
    if w == 0 {
        (t.secs as int, t.frac as int)
    } else if t.frac >= NANOS_PER_SEC {
        if w > 0 {
            (t.secs + 1 - w, t.frac - NANOS_PER_SEC)
        } else {
            (t.secs - w, t.frac - NANOS_PER_SEC)
        }
    } else {
        (t.secs - w, t.frac as int)
    }
}

/// Whether a timestamp falls on a date that chrono represents.
pub open spec fn timestamp_in_range(secs: int) -> bool {
    MIN_TIMESTAMP <= secs < END_TIMESTAMP
}

/// Whether a time given as timestamp and nanoseconds comes before another.
pub open spec fn pair_before(a: (int, int), b: (int, int)) -> bool {
    a.0 < b.0 || (a.0 == b.0 && a.1 < b.1)
}

/// The pause after which an overdue task is reminded again: six hours.
pub const OVERDUE_COOLDOWN_NANOS: i128 = 21_600_000_000_000;

/// Which reminder a task with a due date gets.
#[derive(Clone, Copy, Debug, PartialEq, Eq, Structural)]
pub enum DueAlert {
    /// The due date is within the reminder window; whole minutes left.
    Upcoming { minutes_left: i64 },
    /// The due date has passed.
    Overdue,
}

/// Whether the upcoming check of a task reaches the start of its reminder
/// window, which is computed only when the due date is ahead within the
/// window and the task was reminded before.
pub open spec fn window_start_needed(
    due: Instant,
    last: Option<Instant>,
    now: Instant,
    settings: NotificationSettings,
) -> bool {
    let delta = elapsed_nanos(due, now);
    &&& delta > 0
    &&& delta <= settings.due_minutes_before * NANOS_PER_MINUTE
    &&& last is Some
}

/// Whether the reminder check of a task stays within what chrono computes
/// without panicking.
pub open spec fn due_check_in_range(
    due: Instant,
    last: Option<Instant>,
    now: Instant,
    settings: NotificationSettings,
) -> bool {
    window_start_needed(due, last, now, settings) ==> timestamp_in_range(
        minutes_before(due, settings.due_minutes_before as int).0,
    )
}

/// The reminder a task due at `due`, last reminded at `last`, gets at
/// `now`: an upcoming reminder when the due date is ahead by at most the
/// window and the task was not reminded since the window opened; otherwise
/// an overdue reminder, when those are enabled, the due date has passed and
/// the task was not reminded since it fell due or that reminder is at least
/// six hours old; otherwise none. A reminder sent ahead of the due date thus
/// does not hold back the first overdue reminder.
pub open spec fn due_alert(
    due: Instant,
    last: Option<Instant>,
    now: Instant,
    settings: NotificationSettings,
) -> Option<DueAlert> {
    let delta = elapsed_nanos(due, now);
    let window = settings.due_minutes_before * NANOS_PER_MINUTE;
    let upcoming = delta > 0 && delta <= window && match last {
        None => true,
        Some(t) => pair_before(
            (t.secs as int, t.frac as int),
            minutes_before(due, settings.due_minutes_before as int),
        ),
    };
    let overdue = settings.notify_on_overdue && delta <= 0 && match last {
        None => true,
        Some(t) => pair_before((t.secs as int, t.frac as int), (due.secs as int, due.frac as int))
            || elapsed_nanos(now, t) >= OVERDUE_COOLDOWN_NANOS,
    };
    if upcoming {
        Some(DueAlert::Upcoming { minutes_left: (delta / (NANOS_PER_MINUTE as int)) as i64 })
    } else if overdue {
        Some(DueAlert::Overdue)
    } else {
        None
    }
}

/// The texts of a reminder: one for the desktop notification and one that
/// is posted into the chat.
#[derive(Clone, Debug)]
pub struct DueNotice {
    pub toast: String,
    pub chat: String,
}

/// The notification text of a reminder for the task titled `title`.
pub open spec fn toast_text(alert: DueAlert, title: Seq<char>) -> Seq<char> {
    match alert {
        DueAlert::Upcoming { minutes_left } => "あと "@ + signed_decimal(
            if minutes_left > 0 { minutes_left as int } else { 0 },
        ) + " 分で期限: "@ + title,
        DueAlert::Overdue => "期限超過: "@ + title,
    }
}

/// The chat text of a reminder for the task titled `title`.
pub open spec fn chat_text(alert: DueAlert, title: Seq<char>) -> Seq<char> {
    match alert {
        DueAlert::Upcoming { minutes_left } => "「"@ + title + "」、あと "@ + signed_decimal(
            if minutes_left > 0 { minutes_left as int } else { 0 },
        ) + " 分で期限です。準備できそう？"@,
        DueAlert::Overdue => "「"@ + title + "」の期限が過ぎたよ。今日中にいけそう？"@,
    }
}

/// Whether `m` minutes make a chrono duration (which otherwise panics).
pub fn minutes_duration_valid(m: i64) -> (r: bool)
    ensures
        r == minutes_in_range(m as int),
{
    let w: i128 = (m as i128) * 60;
    -9_223_372_036_854_775i128 <= w && w <= 9_223_372_036_854_775i128
}

/// The signed nanoseconds from `earlier` to `later`.
pub fn elapsed_since(later: Instant, earlier: Instant) -> (r: i128)
    ensures
        r == elapsed_nanos(later, earlier),
{
    let a = later.secs.checked_rem_euclid(86400).unwrap();
    let b = earlier.secs.checked_rem_euclid(86400).unwrap();
    let leap: i128 = if a > b && earlier.frac >= 1_000_000_000 {
        1
    } else if a < b && later.frac >= 1_000_000_000 {
        -1
    } else {
        0
    };
    ((later.secs as i128) - (earlier.secs as i128) + leap) * 1_000_000_000 + (later.frac as i128)
        - (earlier.frac as i128)
}

/// The point `m` minutes before `t`, as a timestamp and nanoseconds.
pub fn minutes_before_instant(t: Instant, m: i64) -> (r: (i128, u32))
    requires
        t.wf(),
    ensures
        r.0 == minutes_before(t, m as int).0,
        r.1 == minutes_before(t, m as int).1,
{
    let w: i128 = (m as i128) * 60;
    if w == 0 {
        (t.secs as i128, t.frac)
    } else if t.frac >= 1_000_000_000 {
        if w > 0 {
            ((t.secs as i128) + 1 - w, t.frac - 1_000_000_000)
        } else {
            ((t.secs as i128) - w, t.frac - 1_000_000_000)
        }
    } else {
        ((t.secs as i128) - w, t.frac)
    }
}

/// The reminder a task gets at `now`, from its parsed due date and last
/// reminder time.
pub fn due_alert_at(
    due: Instant,
    last: Option<Instant>,
    now: Instant,
    settings: &NotificationSettings,
) -> (r: Option<DueAlert>)
    requires
        due.wf(),
        minutes_in_range(settings.due_minutes_before as int),
        due_check_in_range(due, last, now, *settings),
    ensures
        r == due_alert(due, last, now, *settings),
{
    let delta = elapsed_since(due, now);
    let window: i128 = (settings.due_minutes_before as i128) * 60_000_000_000;
    let upcoming = if delta > 0 && delta <= window {
        match last {
            None => true,
            Some(t) => {
                let start = minutes_before_instant(due, settings.due_minutes_before);
                (t.secs as i128) < start.0 || ((t.secs as i128) == start.0 && t.frac < start.1)
            },
        }
    } else {
        false
    };
    let overdue = settings.notify_on_overdue && delta <= 0 && match last {
        None => true,
        Some(t) => t.secs < due.secs || (t.secs == due.secs && t.frac < due.frac)
            || elapsed_since(now, t) >= 21_600_000_000_000,
    };
    if upcoming {
        assert(delta / 60_000_000_000 <= window / 60_000_000_000) by (nonlinear_arith)
            requires delta <= window, delta > 0;
        assert(window / 60_000_000_000 == settings.due_minutes_before) by (nonlinear_arith)
            requires window == settings.due_minutes_before * 60_000_000_000;
        let minutes = (delta / 60_000_000_000) as i64;
        Some(DueAlert::Upcoming { minutes_left: minutes })
    } else if overdue {
        Some(DueAlert::Overdue)
    } else {
        None
    }
}

/// The texts of a reminder for the task titled `title`.
pub fn notice_texts(alert: DueAlert, title: &str) -> (r: DueNotice)
    ensures
        r.toast@ == toast_text(alert, title@),
        r.chat@ == chat_text(alert, title@),
{
    match alert {
        DueAlert::Upcoming { minutes_left } => {
            let m: i64 = if minutes_left > 0 { minutes_left } else { 0 };
            let minutes = signed_decimal_string(m);
            let mut toast: String = "あと ".to_owned();
            toast.append(minutes.as_str());
            toast.append(" 分で期限: ");
            toast.append(title);
            let mut chat: String = "「".to_owned();
            chat.append(title);
            chat.append("」、あと ");
            chat.append(minutes.as_str());
            chat.append(" 分で期限です。準備できそう？");
            DueNotice { toast, chat }
        },
        DueAlert::Overdue => {
            let mut toast: String = "期限超過: ".to_owned();
            toast.append(title);
            let mut chat: String = "「".to_owned();
            chat.append(title);
            chat.append("」の期限が過ぎたよ。今日中にいけそう？");
            DueNotice { toast, chat }
        },
    }
}

/// The outcome of checking one open task with a due date.
#[derive(Clone, Debug)]
pub enum DueCheck {
    /// Send this reminder and stamp the task with the current time.
    Notify(DueNotice),
    /// The task gets no reminder at this tick.
    Quiet,
    /// The start of the reminder window falls outside the dates that chrono
    /// represents, where its subtraction panics.
    OutOfRange,
}

/// What chrono's RFC 3339 parser (`DateTime::parse_from_rfc3339`) gives
/// for a text: the Unix timestamp and the nanoseconds of the parsed time,
/// or nothing when the text is not an RFC 3339 date and time.
pub uninterp spec fn rfc3339_timestamp(text: Seq<char>) -> Option<(i64, u32)>;

/// Parses an RFC 3339 date and time with chrono's
/// `DateTime::parse_from_rfc3339`, keeping its timestamp and
/// `timestamp_subsec_nanos`. The contract names the parse result and states
/// only that the nanoseconds stay below two seconds, which chrono's time of
/// day always keeps.
#[verifier::external_body]
fn parse_iso(s: &str) -> (r: Option<(i64, u32)>)
    ensures
        r == rfc3339_timestamp(s@),
        r matches Some(p) ==> p.1 < 2_000_000_000,
{
    match chrono::DateTime::parse_from_rfc3339(s) {
        Ok(d) => Some((d.timestamp(), d.timestamp_subsec_nanos())),
        Err(_) => None,
    }
}

/// What chrono writes for the time `secs` and `nanos` after the Unix epoch
/// seen at UTC offset `offset_secs`, in the form `%Y-%m-%dT%H:%M:%S%:z`
/// (whole seconds, offset as `+hh:mm`), or nothing when chrono does not
/// represent that time or offset.
pub uninterp spec fn stamp_text(secs: i64, nanos: u32, offset_secs: i32) -> Option<Seq<char>>;

/// The first second of the year 0000, and the first second of the year
/// 10000, as Unix timestamps: the years that `%Y` writes with four digits.
pub const FIRST_FOUR_DIGIT_YEAR: i128 = -62_167_219_200;

pub const END_FOUR_DIGIT_YEAR: i128 = 253_402_300_800;

/// Whether a time at an offset is written as a stamp that reads back: no
/// nanoseconds past a whole second that chrono rejects (none at or beyond a
/// leap second), an offset of whole minutes under one day, and a local date
/// with a four-digit year.
pub open spec fn stampable(secs: int, nanos: int, offset_secs: int) -> bool {
    &&& 0 <= nanos < NANOS_PER_SEC
    &&& -86400 < offset_secs < 86400
    &&& offset_secs % 60 == 0
    &&& FIRST_FOUR_DIGIT_YEAR <= secs + offset_secs < END_FOUR_DIGIT_YEAR
}

/// Writes a time as chrono does with `DateTime::from_timestamp`,
/// `FixedOffset::east_opt`, `with_timezone` and `format` in the form
/// `%Y-%m-%dT%H:%M:%S%:z`. The contract names the text, and states that for
/// a time and offset that `stampable` admits the text exists and chrono's
/// RFC 3339 parser reads it back as the same whole second: chrono accepts
/// such a timestamp, nanoseconds and offset; `%Y` writes the year with four
/// digits, `%S` the whole second, and `%:z` the offset in hours and minutes,
/// which is exact for whole minutes. Which other inputs give a text is not
/// stated.
#[verifier::external_body]
fn format_stamp(secs: i64, nanos: u32, offset_secs: i32) -> (r: Option<String>)
    ensures
        r is Some <==> stamp_text(secs, nanos, offset_secs) is Some,
        r is Some ==> stamp_text(secs, nanos, offset_secs) == Some(r->Some_0@),
        stampable(secs as int, nanos as int, offset_secs as int) ==> r is Some && rfc3339_timestamp(
            r->Some_0@,
        ) == Some((secs, 0u32)),
{
    match (chrono::DateTime::from_timestamp(secs, nanos), chrono::FixedOffset::east_opt(offset_secs)) {
        (Some(d), Some(o)) => Some(d.with_timezone(&o).format("%Y-%m-%dT%H:%M:%S%:z").to_string()),
        _ => None,
    }
}

/// The view of an optional string.
pub open spec fn opt_string(o: Option<String>) -> Option<Seq<char>> {
    match o {
        Some(s) => Some(s@),
        None => None,
    }
}

/// The text stored on a task when it is reminded at `now`, seen at UTC
/// offset `offset_secs`; the same text serves as the current time in the
/// model's system message.
pub fn reminder_stamp(now: Instant, offset_secs: i32) -> (r: Option<String>)
    ensures
        opt_string(r) == stamp_text(now.secs, now.frac, offset_secs),
        stampable(now.secs as int, now.frac as int, offset_secs as int) ==> r is Some
            && parsed_instant(Some(r->Some_0@)) == Some(stamp_of(now)),
{
    format_stamp(now.secs, now.frac, offset_secs)
}

/// The view of an optional text.
pub open spec fn opt_text(o: Option<&str>) -> Option<Seq<char>> {
    match o {
        Some(s) => Some(s@),
        None => None,
    }
}

/// The point in time that an optional stored text names, if it parses.
pub open spec fn parsed_instant(text: Option<Seq<char>>) -> Option<Instant> {
    match text {
        Some(t) => match rfc3339_timestamp(t) {
            Some(p) => Some(Instant { secs: p.0, frac: p.1 }),
            None => None,
        },
        None => None,
    }
}

/// Parses an optional stored RFC 3339 text into a point in time.
pub fn parse_instant(text: Option<&str>) -> (r: Option<Instant>)
    ensures
        r == parsed_instant(opt_text(text)),
        r matches Some(i) ==> i.wf(),
{
    match text {
        Some(t) => match parse_iso(t) {
            Some(p) => Some(Instant { secs: p.0, frac: p.1 }),
            None => None,
        },
        None => None,
    }
}

/// The outcome of the check of a task with a parsed due date.
pub open spec fn due_check_matches(
    r: DueCheck,
    title: Seq<char>,
    due: Instant,
    last: Option<Instant>,
    now: Instant,
    settings: NotificationSettings,
) -> bool {
    if !due_check_in_range(due, last, now, settings) {
        r is OutOfRange
    } else {
        match due_alert(due, last, now, settings) {
            None => r is Quiet,
            Some(a) => r matches DueCheck::Notify(n) && n.toast@ == toast_text(a, title)
                && n.chat@ == chat_text(a, title),
        }
    }
}

/// Whether the check of a task stays within chrono's date range.
pub fn due_check_within_range(
    due: Instant,
    last: Option<Instant>,
    now: Instant,
    settings: &NotificationSettings,
) -> (r: bool)
    requires
        due.wf(),
    ensures
        r == due_check_in_range(due, last, now, *settings),
{
    let delta = elapsed_since(due, now);
    let window: i128 = (settings.due_minutes_before as i128) * 60_000_000_000;
    if delta > 0 && delta <= window && last.is_some() {
        let start = minutes_before_instant(due, settings.due_minutes_before);
        -8_334_601_315_200i128 <= start.0 && start.0 < 8_210_266_876_800i128
    } else {
        true
    }
}

/// The reminder check at `now` of a task with a parsed due date.
pub fn due_notice(
    title: &str,
    due: Instant,
    last: Option<Instant>,
    now: Instant,
    settings: &NotificationSettings,
) -> (r: DueCheck)
    requires
        due.wf(),
        minutes_in_range(settings.due_minutes_before as int),
    ensures
        due_check_matches(r, title@, due, last, now, *settings),
{
    if !due_check_within_range(due, last, now, settings) {
        return DueCheck::OutOfRange;
    }
    match due_alert_at(due, last, now, settings) {
        None => DueCheck::Quiet,
        Some(a) => DueCheck::Notify(notice_texts(a, title)),
    }
}

/// The reminder check at `now` of an open task, from its stored due date
/// and last reminder time: a task without a due date, or whose due date
/// does not parse, gets no reminder.
pub fn check_due_task(
    title: &str,
    due_at: Option<&str>,
    last_notified_at: Option<&str>,
    now: Instant,
    settings: &NotificationSettings,
) -> (r: DueCheck)
    requires
        minutes_in_range(settings.due_minutes_before as int),
    ensures
        match parsed_instant(opt_text(due_at)) {
            None => r is Quiet,
            Some(due) => due_check_matches(
                r,
                title@,
                due,
                parsed_instant(opt_text(last_notified_at)),
                now,
                *settings,
            ),
        },
{
    let due = match parse_instant(due_at) {
        Some(d) => d,
        None => return DueCheck::Quiet,
    };
    let last = parse_instant(last_notified_at);
    due_notice(title, due, last, now, settings)
}

/// A task due outside a leap second and reminded at some moment outside a
/// leap second gets no second reminder at that same moment.
pub proof fn lemma_no_repeat_at_same_time(due: Instant, now: Instant, settings: NotificationSettings)
    requires
        due.frac < NANOS_PER_SEC,
        now.frac < NANOS_PER_SEC,
    ensures
        due_alert(due, Some(now), now, settings) is None,
{
    let delta = elapsed_nanos(due, now);
    let m = settings.due_minutes_before as int;
    if delta > 0 && delta <= m * NANOS_PER_MINUTE {
        assert(delta == (due.secs - now.secs) * NANOS_PER_SEC + due.frac - now.frac);
        assert(!pair_before((now.secs as int, now.frac as int), minutes_before(due, m)));
    }
    assert(elapsed_nanos(now, now) == 0);
}

/// An overdue task is reminded at most once every six hours: within six
/// hours of a reminder sent at or after its due date, it gets none.
pub proof fn lemma_overdue_cooldown(due: Instant, last: Instant, now: Instant, settings: NotificationSettings)
    requires
        elapsed_nanos(due, now) <= 0,
        !pair_before((last.secs as int, last.frac as int), (due.secs as int, due.frac as int)),
        elapsed_nanos(now, last) < OVERDUE_COOLDOWN_NANOS,
    ensures
        due_alert(due, Some(last), now, settings) is None,
{
}

/// The first overdue reminder is not held back by a reminder sent ahead of
/// the due date: once the due date has passed, a task last reminded before
/// it gets an overdue reminder, when those are enabled.
pub proof fn lemma_overdue_after_upcoming(due: Instant, last: Instant, now: Instant, settings: NotificationSettings)
    requires
        settings.notify_on_overdue,
        elapsed_nanos(due, now) <= 0,
        pair_before((last.secs as int, last.frac as int), (due.secs as int, due.frac as int)),
    ensures
        due_alert(due, Some(last), now, settings) == Some(DueAlert::Overdue),
{
}

/// The time stored with a reminder: the moment cut to whole seconds.
pub open spec fn stamp_of(t: Instant) -> Instant {
    Instant { secs: t.secs, frac: 0 }
}

/// An upcoming reminder is sent once per window: after one is sent at
/// `sent` and stamped with its whole second, no later check gives another
/// upcoming reminder (due date in whole seconds, moments outside leap
/// seconds).
pub proof fn lemma_upcoming_once(
    due: Instant,
    last: Option<Instant>,
    sent: Instant,
    later: Instant,
    settings: NotificationSettings,
)
    requires
        due.frac == 0,
        sent.frac < NANOS_PER_SEC,
        due_alert(due, last, sent, settings) matches Some(DueAlert::Upcoming { .. }),
    ensures
        !(due_alert(due, Some(stamp_of(sent)), later, settings) matches Some(DueAlert::Upcoming { .. })),
{
    let m = settings.due_minutes_before as int;
    assert(elapsed_nanos(due, sent) == (due.secs - sent.secs) * NANOS_PER_SEC - sent.frac);
    assert(!pair_before((sent.secs as int, 0), minutes_before(due, m)));
}

/// An overdue reminder is not repeated within six hours less one second of
/// it, counted from the moment it was sent, even though only its whole
/// second is stored; nor does an upcoming reminder follow it (due date in
/// whole seconds, moments outside leap seconds).
pub proof fn lemma_overdue_not_repeated(
    due: Instant,
    last: Option<Instant>,
    sent: Instant,
    later: Instant,
    settings: NotificationSettings,
)
    requires
        due.frac == 0,
        sent.frac < NANOS_PER_SEC,
        later.frac < NANOS_PER_SEC,
        due_alert(due, last, sent, settings) == Some(DueAlert::Overdue),
        0 <= elapsed_nanos(later, sent) < OVERDUE_COOLDOWN_NANOS - NANOS_PER_SEC,
    ensures
        due_alert(due, Some(stamp_of(sent)), later, settings) is None,
{
    assert(elapsed_nanos(due, sent) == (due.secs - sent.secs) * NANOS_PER_SEC - sent.frac);
    assert(elapsed_nanos(later, sent) == (later.secs - sent.secs) * NANOS_PER_SEC + later.frac - sent.frac);
    assert(elapsed_nanos(due, later) == (due.secs - later.secs) * NANOS_PER_SEC - later.frac);
    assert(elapsed_nanos(later, stamp_of(sent)) == (later.secs - sent.secs) * NANOS_PER_SEC + later.frac);
}

/// Through the stored text: once a task is reminded ahead of its due date
/// at `sent` and the stamp written for `sent` is stored, the check of any
/// later tick, which parses that stamp back, gives no second upcoming
/// reminder (due date in whole seconds).
pub proof fn lemma_upcoming_once_stored(
    due: Instant,
    last: Option<Instant>,
    sent: Instant,
    stamp: Seq<char>,
    later: Instant,
    settings: NotificationSettings,
)
    requires
        due.frac == 0,
        sent.frac < NANOS_PER_SEC,
        parsed_instant(Some(stamp)) == Some(stamp_of(sent)),
        due_alert(due, last, sent, settings) matches Some(DueAlert::Upcoming { .. }),
    ensures
        !(due_alert(due, parsed_instant(Some(stamp)), later, settings) matches Some(DueAlert::Upcoming { .. })),
{
    lemma_upcoming_once(due, last, sent, later, settings);
}

/// Through the stored text: once an overdue reminder is sent at `sent` and
/// its stamp is stored, the check of a tick less than six hours less one
/// second later, which parses that stamp back, gives no reminder at all
/// (due date in whole seconds, moments outside leap seconds).
pub proof fn lemma_overdue_not_repeated_stored(
    due: Instant,
    last: Option<Instant>,
    sent: Instant,
    stamp: Seq<char>,
    later: Instant,
    settings: NotificationSettings,
)
    requires
        due.frac == 0,
        sent.frac < NANOS_PER_SEC,
        later.frac < NANOS_PER_SEC,
        parsed_instant(Some(stamp)) == Some(stamp_of(sent)),
        due_alert(due, last, sent, settings) == Some(DueAlert::Overdue),
        0 <= elapsed_nanos(later, sent) < OVERDUE_COOLDOWN_NANOS - NANOS_PER_SEC,
    ensures
        due_alert(due, parsed_instant(Some(stamp)), later, settings) is None,
{
    lemma_overdue_not_repeated(due, last, sent, later, settings);
}

/// A task is reminded ahead of its due date only within the reminder
/// window, and is told no more whole minutes than the window holds.
pub proof fn lemma_upcoming_within_window(
    due: Instant,
    last: Option<Instant>,
    now: Instant,
    settings: NotificationSettings,
)
    requires
        due_alert(due, last, now, settings) matches Some(DueAlert::Upcoming { .. }),
    ensures
        0 < elapsed_nanos(due, now) <= settings.due_minutes_before * NANOS_PER_MINUTE,
        due_alert(due, last, now, settings)->Some_0->minutes_left <= settings.due_minutes_before,
{
    let delta = elapsed_nanos(due, now);
    let m = settings.due_minutes_before as int;
    assert(delta / (NANOS_PER_MINUTE as int) <= m) by (nonlinear_arith)
        requires
            0 < delta <= m * 60_000_000_000,
            NANOS_PER_MINUTE == 60_000_000_000;
}

/// An overdue task keeps being reminded: once its due date has passed and
/// six hours have gone by since its last reminder, it gets an overdue
/// reminder, however long ago the due date was.
pub proof fn lemma_overdue_repeats(due: Instant, last: Instant, now: Instant, settings: NotificationSettings)
    requires
        settings.notify_on_overdue,
        elapsed_nanos(due, now) <= 0,
        elapsed_nanos(now, last) >= OVERDUE_COOLDOWN_NANOS,
    ensures
        due_alert(due, Some(last), now, settings) == Some(DueAlert::Overdue),
{
}

/// A task never reminded gets an overdue reminder as soon as its due date
/// has passed, when those are enabled; when they are disabled, a task whose
/// due date has passed gets no reminder at all.
pub proof fn lemma_overdue_at_due(due: Instant, last: Option<Instant>, now: Instant, settings: NotificationSettings)
    requires
        elapsed_nanos(due, now) <= 0,
    ensures
        settings.notify_on_overdue && last is None ==> due_alert(due, last, now, settings) == Some(DueAlert::Overdue),
        !settings.notify_on_overdue ==> due_alert(due, last, now, settings) is None,
{
}

/// A task never reminded whose due date lies ahead within the window gets
/// an upcoming reminder telling the whole minutes left: `minutes_left`
/// minutes fit into the time left and one more does not. A due date ahead
/// by more than the window gives no reminder.
pub proof fn lemma_upcoming_minutes(due: Instant, last: Option<Instant>, now: Instant, settings: NotificationSettings)
    requires
        elapsed_nanos(due, now) > 0,
    ensures
        elapsed_nanos(due, now) <= settings.due_minutes_before * NANOS_PER_MINUTE && last is None ==> (
        due_alert(due, last, now, settings) matches Some(DueAlert::Upcoming { minutes_left })
            && minutes_left * NANOS_PER_MINUTE <= elapsed_nanos(due, now) < (minutes_left + 1)
            * NANOS_PER_MINUTE),
        elapsed_nanos(due, now) > settings.due_minutes_before * NANOS_PER_MINUTE ==> due_alert(
            due,
            last,
            now,
            settings,
        ) is None,
{
    let delta = elapsed_nanos(due, now);
    let m = settings.due_minutes_before as int;
    if delta <= m * NANOS_PER_MINUTE && last is None {
        let q = delta / (NANOS_PER_MINUTE as int);
        assert(q * 60_000_000_000 <= delta < (q + 1) * 60_000_000_000) by (nonlinear_arith)
            requires
                delta > 0,
                q == delta / 60_000_000_000,
        ;
        assert(q <= m) by (nonlinear_arith)
            requires
                delta <= m * 60_000_000_000,
                q == delta / 60_000_000_000,
                delta > 0,
        ;
        assert(q >= 0) by (nonlinear_arith)
            requires
                q == delta / 60_000_000_000,
                delta > 0,
        ;
    }
}

/// The time from one moment to another is minus the time back, and zero
/// from a moment to itself.
pub proof fn lemma_elapsed_antisymmetric(a: Instant, b: Instant)
    ensures
        elapsed_nanos(a, b) == -elapsed_nanos(b, a),
        elapsed_nanos(a, a) == 0,
{
}

/// Outside leap seconds, the time between two moments is the plain
/// difference of their timestamps and nanoseconds.
pub proof fn lemma_elapsed_plain(a: Instant, b: Instant)
    requires
        a.frac < NANOS_PER_SEC,
        b.frac < NANOS_PER_SEC,
    ensures
        elapsed_nanos(a, b) == (a.secs - b.secs) * NANOS_PER_SEC + a.frac - b.frac,
{
}

/// The reminder texts name the task: the notification ends with its title
/// and the chat text quotes it at the start.
pub proof fn lemma_texts_name_task(alert: DueAlert, title: Seq<char>)
    ensures
        toast_text(alert, title).len() >= title.len(),
        toast_text(alert, title).subrange(toast_text(alert, title).len() - title.len(), toast_text(alert, title).len() as int)
            == title,
        chat_text(alert, title).len() >= title.len() + 1,
        chat_text(alert, title).subrange(0, (title.len() + 1) as int) == seq!['「'] + title,
{
    reveal_strlit("「");
    let t = toast_text(alert, title);
    assert(t.subrange(t.len() - title.len(), t.len() as int) =~= title);
    let c = chat_text(alert, title);
    assert(c.subrange(0, (title.len() + 1) as int) =~= seq!['「'] + title);
}

/// The state of the periodic reminder: when it was last sent.
#[derive(Clone, Copy, Debug)]
pub struct PeriodicState {
    pub last_sent_at: Option<Instant>,
}

/// Whether the periodic reminder fires at `now` for `count` active tasks:
/// never without active tasks, otherwise when it was never sent or the
/// interval has passed since it was last sent.
pub open spec fn periodic_fires(last: Option<Instant>, count: int, interval_minutes: int, now: Instant) -> bool {
    count != 0 && match last {
        None => true,
        Some(t) => elapsed_nanos(now, t) >= interval_minutes * NANOS_PER_MINUTE,
    }
}

/// The text of the periodic reminder.
pub open spec fn periodic_text(count: int) -> Seq<char> {
    "アクティブなタスク "@ + signed_decimal(count) + " 件"@
}

/// One periodic reminder step: returns the reminder text when it fires and
/// then records `now` as the time it was sent; otherwise leaves the state.
pub fn tick_periodic(
    state: &mut PeriodicState,
    active_count: i64,
    settings: &NotificationSettings,
    now: Instant,
) -> (r: Option<String>)
    requires
        active_count != 0 && old(state).last_sent_at is Some ==> minutes_in_range(
            settings.periodic_interval_minutes as int,
        ),
    ensures
        periodic_fires(old(state).last_sent_at, active_count as int, settings.periodic_interval_minutes as int, now)
            ==> r is Some && r->Some_0@ == periodic_text(active_count as int)
            && final(state).last_sent_at == Some(now),
        !periodic_fires(old(state).last_sent_at, active_count as int, settings.periodic_interval_minutes as int, now)
            ==> r is None && *final(state) == *old(state),
{
    if active_count == 0 {
        return None;
    }
    let fire = match state.last_sent_at {
        None => true,
        Some(last) => elapsed_since(now, last) >= (settings.periodic_interval_minutes as i128)
            * 60_000_000_000,
    };
    if !fire {
        return None;
    }
    let mut text: String = "アクティブなタスク ".to_owned();
    let count = signed_decimal_string(active_count);
    text.append(count.as_str());
    text.append(" 件");
    state.last_sent_at = Some(now);
    Some(text)
}

/// The periodic reminder fires for any number of active tasks but zero when
/// it was never sent, never fires without active tasks, and otherwise fires
/// exactly when the interval has passed since it was last sent.
pub proof fn lemma_periodic_when(last: Option<Instant>, count: int, interval_minutes: int, now: Instant)
    ensures
        count != 0 && last is None ==> periodic_fires(last, count, interval_minutes, now),
        count == 0 ==> !periodic_fires(last, count, interval_minutes, now),
        count != 0 && last is Some ==> (periodic_fires(last, count, interval_minutes, now) <==> elapsed_nanos(
            now,
            last->Some_0,
        ) >= interval_minutes * NANOS_PER_MINUTE),
{
}

/// Once the periodic reminder with a positive interval has fired at `now`,
/// it does not fire again at that same moment.
pub proof fn lemma_periodic_not_repeated(count: int, interval_minutes: int, now: Instant)
    requires
        interval_minutes > 0,
    ensures
        !periodic_fires(Some(now), count, interval_minutes, now),
{
}

} // verus!

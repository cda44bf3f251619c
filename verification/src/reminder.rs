use vstd::prelude::*;
use vstd::utf8::encode_utf8;
use crate::clock::{parse_rfc3339_utc, rfc3339_parse};
use crate::text::{chars_of, ltrim_index, push_str, rtrim_index, str_eq, string_from_range, string_of, trim};

verus! {

/// Input of a new reminder.
#[derive(Debug)]
pub struct CreateReminderInput {
    pub title: String,
    pub description: Option<String>,
    /// RFC 3339 timestamp.
    pub scheduled_at: String,
    /// "daily" | "weekly" | "monthly".
    pub recurrence_frequency: Option<String>,
    pub recurrence_interval: Option<u32>,
}

/// How often a reminder repeats.
#[derive(PartialEq, Eq, Structural, Clone, Copy, Debug)]
pub enum RecurrenceFrequency {
    Daily,
    Weekly,
    Monthly,
}

/// A repetition rule: every `interval` days, weeks or months.
#[derive(PartialEq, Eq, Structural, Clone, Copy, Debug)]
pub struct ReminderRecurrence {
    pub frequency: RecurrenceFrequency,
    pub interval: u32,
}

/// A reminder input that passed validation.
#[derive(Debug)]
pub struct ValidatedReminder {
    pub title: String,
    pub description: String,
    /// Unix seconds and nanoseconds, UTC.
    pub scheduled_at: (i64, u32),
    pub recurrence: Option<ReminderRecurrence>,
}

/// Why a reminder input was refused.
#[derive(Debug)]
pub enum ReminderInputError {
    /// The title is blank.
    TitleEmpty,
    /// The title is longer than 200 bytes.
    TitleTooLong,
    /// The time is not RFC 3339; chrono's message.
    BadDate(String),
    /// The frequency is not daily, weekly or monthly.
    BadFrequency,
}

impl ReminderInputError {
    /// The message the command reports.
    pub fn message(&self) -> (r: String)
        ensures
            r@ == match self {
                ReminderInputError::TitleEmpty => "提醒标题不能为空"@,
                ReminderInputError::TitleTooLong => "提醒标题不能超过 200 个字符"@,
                ReminderInputError::BadDate(e) => "日期格式错误: "@ + e@,
                ReminderInputError::BadFrequency => "recurrence_frequency 须为 daily/weekly/monthly"@,
            },
    {
        match self {
            ReminderInputError::TitleEmpty => string_of("提醒标题不能为空"),
            ReminderInputError::TitleTooLong => string_of("提醒标题不能超过 200 个字符"),
            ReminderInputError::BadDate(e) => {
                let mut r = string_of("日期格式错误: ");
                push_str(&mut r, e.as_str());
                r
            },
            ReminderInputError::BadFrequency => string_of(
                "recurrence_frequency 须为 daily/weekly/monthly",
            ),
        }
    }
}

pub enum InputCheckV {
    Valid(Seq<char>, Seq<char>, (i64, u32), Option<ReminderRecurrence>),
    TitleEmpty,
    TitleTooLong,
    BadDate(Seq<char>),
    BadFrequency,
}

pub open spec fn frequency_of(f: Seq<char>) -> Option<RecurrenceFrequency> {
    if f == "daily"@ {
        Some(RecurrenceFrequency::Daily)
    } else if f == "weekly"@ {
        Some(RecurrenceFrequency::Weekly)
    } else if f == "monthly"@ {
        Some(RecurrenceFrequency::Monthly)
    } else {
        None
    }
}

/// The outcome of validating a reminder input, checks in order: title
/// (trimmed) not blank, at most 200 bytes, time parses, and a frequency
/// that is given together with a positive interval is a known one.
pub open spec fn reminder_check(i: CreateReminderInput) -> InputCheckV {
    let title = trim(i.title@);
    if title.len() == 0 {
        InputCheckV::TitleEmpty
    } else if encode_utf8(title).len() > 200 {
        InputCheckV::TitleTooLong
    } else {
        match rfc3339_parse(i.scheduled_at@) {
            Err(e) => InputCheckV::BadDate(e),
            Ok(at) => {
                let desc = trim(match i.description {
                    Some(d) => d@,
                    None => seq![],
                });
                match (i.recurrence_frequency, i.recurrence_interval) {
                    (Some(f), Some(n)) if n > 0 => match frequency_of(f@) {
                        Some(fr) => InputCheckV::Valid(
                            title,
                            desc,
                            at,
                            Some(ReminderRecurrence { frequency: fr, interval: n }),
                        ),
                        None => InputCheckV::BadFrequency,
                    },
                    _ => InputCheckV::Valid(title, desc, at, None),
                }
            },
        }
    }
}

fn trimmed(s: &str) -> (r: String)
    ensures
        r@ == trim(s@),
{
    let v = chars_of(s);
    let a = ltrim_index(&v, 0, v.len());
    let b = rtrim_index(&v, a, v.len());
    assert(v@.subrange(0, v.len() as int) =~= v@);
    string_from_range(&v, a, b)
}

/// Byte length of `s` in UTF-8 (`str::len`).
fn utf8_byte_len(s: &String) -> (n: usize)
    requires
        encode_utf8(s@).len() <= usize::MAX,
    ensures
        n == encode_utf8(s@).len(),
{
    s.as_str().len()
}

/// Validates a reminder input (see `reminder_check`).
pub fn validate_reminder_input(input: &CreateReminderInput) -> (r: Result<ValidatedReminder, ReminderInputError>)
    requires
        encode_utf8(trim(input.title@)).len() <= usize::MAX,
    ensures
        match (r, reminder_check(*input)) {
            (Ok(v), InputCheckV::Valid(t, d, at, rec)) => v.title@ == t && v.description@ == d
                && v.scheduled_at == at && v.recurrence == rec,
            (Err(ReminderInputError::TitleEmpty), InputCheckV::TitleEmpty) => true,
            (Err(ReminderInputError::TitleTooLong), InputCheckV::TitleTooLong) => true,
            (Err(ReminderInputError::BadDate(e)), InputCheckV::BadDate(m)) => e@ == m,
            (Err(ReminderInputError::BadFrequency), InputCheckV::BadFrequency) => true,
            _ => false,
        },
{
    let title = trimmed(input.title.as_str());
    if title.as_str().is_empty() {
        return Err(ReminderInputError::TitleEmpty);
    }
    if utf8_byte_len(&title) > 200 {
        return Err(ReminderInputError::TitleTooLong);
    }
    let at = match parse_rfc3339_utc(input.scheduled_at.as_str()) {
        Ok(p) => p,
        Err(e) => return Err(ReminderInputError::BadDate(e)),
    };
    let recurrence = match (&input.recurrence_frequency, input.recurrence_interval) {
        (Some(f), Some(n)) => {
            if n > 0 {
                let frequency = if str_eq(f.as_str(), "daily") {
                    RecurrenceFrequency::Daily
                } else if str_eq(f.as_str(), "weekly") {
                    RecurrenceFrequency::Weekly
                } else if str_eq(f.as_str(), "monthly") {
                    RecurrenceFrequency::Monthly
                } else {
                    return Err(ReminderInputError::BadFrequency);
                };
                Some(ReminderRecurrence { frequency, interval: n })
            } else {
                None
            }
        },
        _ => None,
    };
    let description = match &input.description {
        Some(d) => trimmed(d.as_str()),
        None => trimmed(""),
    };
    proof {
        reveal_strlit("");
    }
    Ok(ValidatedReminder { title, description, scheduled_at: at, recurrence })
}

/// A reminder as the front end shows it (times in RFC 3339).
#[derive(Debug)]
pub struct ReminderItem {
    pub id: String,
    pub title: String,
    pub description: String,
    pub scheduled_at: String,
    pub completed: bool,
    pub recurrence: Option<ReminderRecurrence>,
    pub created_at: String,
}

/// All reminders: active ones, completed ones and pending notifications.
#[derive(Debug)]
pub struct ReminderListResult {
    pub active: Vec<ReminderItem>,
    pub completed: Vec<ReminderItem>,
    pub pending_notifications: Vec<ReminderNotificationItem>,
}

/// A pending reminder notification as the front end shows it.
#[derive(Debug)]
pub struct ReminderNotificationItem {
    pub notification_id: String,
    pub reminder_id: String,
    pub reminder_title: String,
    pub triggered_at: String,
    pub acknowledged: bool,
}

/// The answer to acknowledging a notification.
#[derive(Debug)]
pub struct AcknowledgeResult {
    pub acknowledged: bool,
    pub notification_id: String,
}

/// The answer once notification `notification_id` is acknowledged.
pub fn acknowledge_result(notification_id: String) -> (r: AcknowledgeResult)
    ensures
        r.acknowledged,
        r.notification_id@ == notification_id@,
{
    AcknowledgeResult { acknowledged: true, notification_id }
}

/// How many completed reminders a cleanup removed.
pub fn cleanup_count(before: usize, after: usize) -> (r: u64)
    requires
        after <= before,
    ensures
        r == before - after,
{
    (before - after) as u64
}

} // verus!

verus! {

/// Law: the recurrence of a validated reminder is the one its input names.
/// A frequency given with a positive interval yields that interval and the
/// variant of that name ("daily" is `Daily`, "weekly" is `Weekly`,
/// "monthly" is `Monthly`, so distinct texts get distinct variants); any
/// other text is refused as `BadFrequency`; without a frequency or a
/// positive interval the reminder does not repeat.
pub proof fn law_recurrence_is_the_named_one(i: CreateReminderInput)
    ensures
        match reminder_check(i) {
            InputCheckV::Valid(_, _, _, rec) => match (i.recurrence_frequency, i.recurrence_interval) {
                (Some(f), Some(n)) if n > 0 => match rec {
                    Some(r) => r.interval == n && (r.frequency == RecurrenceFrequency::Daily <==> f@ == "daily"@)
                        && (r.frequency == RecurrenceFrequency::Weekly <==> f@ == "weekly"@) && (r.frequency
                        == RecurrenceFrequency::Monthly <==> f@ == "monthly"@),
                    None => false,
                },
                _ => rec is None,
            },
            InputCheckV::BadFrequency => match (i.recurrence_frequency, i.recurrence_interval) {
                (Some(f), Some(n)) => n > 0 && f@ != "daily"@ && f@ != "weekly"@ && f@ != "monthly"@,
                _ => false,
            },
            _ => true,
        },
        (trim(i.title@).len() > 0 && encode_utf8(trim(i.title@)).len() <= 200 && rfc3339_parse(
            i.scheduled_at@,
        ) is Ok) ==> (reminder_check(i) is Valid || reminder_check(i) is BadFrequency),
{
    reveal_strlit("daily");
    reveal_strlit("weekly");
    reveal_strlit("monthly");
    assert("daily"@ != "weekly"@ && "daily"@ != "monthly"@ && "weekly"@ != "monthly"@) by {
        assert("daily"@[0] != "weekly"@[0]);
        assert("daily"@[0] != "monthly"@[0]);
        assert("weekly"@[0] != "monthly"@[0]);
    }
}

} // verus!

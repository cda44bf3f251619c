use vstd::prelude::*;
use crate::text::{chars_of, decimal, push_char, push_decimal, push_str, str_eq, string_of};
use crate::workflow::copy_string;

verus! {

/// Horizon of a stock recommendation.
#[derive(PartialEq, Eq, Structural, Clone, Copy, Debug)]
pub enum Period {
    Short,
    Mid,
    Long,
}

/// Settings of a recommendation cron job (stored as the job's prompt).
#[derive(Debug)]
pub struct RecoCronConfig {
    pub periods: Vec<Period>,
    pub min_confidence: u8,
    pub top_n: usize,
}

/// The settings a job falls back to when its stored ones do not parse:
/// short horizon, confidence 60, top 5.
pub fn default_reco_config() -> (c: RecoCronConfig)
    ensures
        c.periods@ == seq![Period::Short],
        c.min_confidence == 60,
        c.top_n == 5,
{
    RecoCronConfig { periods: vec![Period::Short], min_confidence: 60, top_n: 5 }
}

/// Why a recommendation cron request was refused.
#[derive(PartialEq, Eq, Structural, Clone, Copy, Debug)]
pub enum RecoCronError {
    NoPeriods,
    ZeroTopN,
}

impl RecoCronError {
    /// The message the command reports.
    pub fn message(&self) -> (r: String)
        ensures
            r@ == match *self {
                RecoCronError::NoPeriods => "periods 不能为空"@,
                RecoCronError::ZeroTopN => "top_n 必须大于 0"@,
            },
    {
        match self {
            RecoCronError::NoPeriods => string_of("periods 不能为空"),
            RecoCronError::ZeroTopN => string_of("top_n 必须大于 0"),
        }
    }
}

/// Checks a new job's settings: at least one period, then a positive top N.
pub fn validate_reco_cron_request(periods: &Vec<Period>, top_n: usize) -> (r: Result<(), RecoCronError>)
    ensures
        periods.len() == 0 ==> r == Err::<(), RecoCronError>(RecoCronError::NoPeriods),
        periods.len() > 0 && top_n == 0 ==> r == Err::<(), RecoCronError>(RecoCronError::ZeroTopN),
        periods.len() > 0 && top_n > 0 ==> r is Ok,
{
    if periods.len() == 0 {
        return Err(RecoCronError::NoPeriods);
    }
    if top_n == 0 {
        return Err(RecoCronError::ZeroTopN);
    }
    Ok(())
}

/// The description of a new job.
pub fn reco_cron_description(min_confidence: u8, top_n: usize) -> (r: String)
    ensures
        r@ == "荐股定时推送 (置信度≥"@ + decimal(min_confidence as nat) + "%, 前"@ + decimal(top_n as nat)
            + "只)"@,
{
    let mut r = string_of("荐股定时推送 (置信度≥");
    push_decimal(&mut r, min_confidence as u64);
    push_str(&mut r, "%, 前");
    push_decimal(&mut r, top_n as u64);
    push_str(&mut r, "只)");
    r
}

/// The task type of recommendation jobs.
pub const RECO_TASK_TYPE: &'static str = "stock-recommendation";

/// Whether a cron job is a recommendation job.
pub fn is_reco_job(task_type: Option<&str>) -> (r: bool)
    ensures
        r == match task_type {
            Some(t) => t@ == RECO_TASK_TYPE@,
            None => false,
        },
{
    match task_type {
        Some(t) => str_eq(t, RECO_TASK_TYPE),
        None => false,
    }
}

/// Status of a cron job.
#[derive(PartialEq, Eq, Structural, Clone, Copy, Debug)]
pub enum CronJobStatus {
    Active,
    Paused,
}

/// The status a toggle sets.
pub fn toggled_status(enabled: bool) -> (s: CronJobStatus)
    ensures
        s == if enabled {
            CronJobStatus::Active
        } else {
            CronJobStatus::Paused
        },
{
    if enabled {
        CronJobStatus::Active
    } else {
        CronJobStatus::Paused
    }
}

pub open spec fn ascii_lower(c: char) -> char {
    if 'A' <= c && c <= 'Z' {
        ((c as u32) + 32) as char
    } else {
        c
    }
}

/// The status as the front end shows it: its name in lower case.
pub fn status_label(name: &str) -> (r: String)
    ensures
        r@ == name@.map_values(|c: char| ascii_lower(c)),
{
    let v = chars_of(name);
    let mut r = String::new();
    let mut i: usize = 0;
    while i < v.len()
        invariant
            i <= v.len(),
            v@ == name@,
            r@ == name@.take(i as int).map_values(|c: char| ascii_lower(c)),
        decreases v.len() - i,
    {
        let c = v[i];
        let l = if 'A' <= c && c <= 'Z' {
            char_from_upper(c)
        } else {
            c
        };
        push_char(&mut r, l);
        assert(name@.take(i + 1).map_values(|c: char| ascii_lower(c)) =~= name@.take(i as int).map_values(
            |c: char| ascii_lower(c),
        ).push(ascii_lower(c)));
        i = i + 1;
    }
    assert(name@.take(v.len() as int) =~= name@);
    r
}

fn char_from_upper(c: char) -> (r: char)
    requires
        'A' <= c && c <= 'Z',
    ensures
        r == ascii_lower(c),
{
    if c == 'A' { 'a' } else if c == 'B' { 'b' } else if c == 'C' { 'c' } else if c == 'D' { 'd' }
    else if c == 'E' { 'e' } else if c == 'F' { 'f' } else if c == 'G' { 'g' } else if c == 'H' { 'h' }
    else if c == 'I' { 'i' } else if c == 'J' { 'j' } else if c == 'K' { 'k' } else if c == 'L' { 'l' }
    else if c == 'M' { 'm' } else if c == 'N' { 'n' } else if c == 'O' { 'o' } else if c == 'P' { 'p' }
    else if c == 'Q' { 'q' } else if c == 'R' { 'r' } else if c == 'S' { 's' } else if c == 'T' { 't' }
    else if c == 'U' { 'u' } else if c == 'V' { 'v' } else if c == 'W' { 'w' } else if c == 'X' { 'x' }
    else if c == 'Y' { 'y' } else { 'z' }
}

/// What `serde_json` reads from `text` as the unsigned integer under the
/// top-level key `key` (nothing when the text is not JSON, not an object,
/// lacks the key, or the value is not an unsigned integer).
pub uninterp spec fn json_u64_field(text: Seq<char>, key: Seq<char>) -> Option<u64>;

/// Reads an unsigned integer field of a JSON object
/// (`serde_json::from_str::<Value>(text).ok()?.get(key)?.as_u64()`); the
/// result is named `json_u64_field`.
#[verifier::external_body]
fn read_json_u64_field(text: &str, key: &str) -> (r: Option<u64>)
    ensures
        r == json_u64_field(text@, key@),
{
    match serde_json::from_str::<serde_json::Value>(text) {
        Ok(v) => v.get(key).and_then(|n| n.as_u64()),
        Err(_) => None,
    }
}

/// How many picks the last run pushed, read from its stored summary
/// (the `pushed` field of the JSON output).
pub fn last_picks_count(output: Option<&str>) -> (r: Option<u64>)
    ensures
        r == match output {
            Some(o) => json_u64_field(o@, "pushed"@),
            None => None,
        },
{
    match output {
        Some(o) => read_json_u64_field(o, "pushed"),
        None => None,
    }
}

/// What the response shows of a stored cron job.
#[derive(Debug)]
pub struct CronJobRecord {
    pub id: String,
    pub name: String,
    pub description: String,
    pub schedule: String,
    /// The job status by name (`Active`, `Paused`, ...).
    pub status_name: String,
    pub recurring: bool,
    pub run_count: u32,
    pub last_run_at: Option<i64>,
    pub next_run_at: Option<i64>,
    /// The output of the last run, if it produced one.
    pub last_output: Option<String>,
}

/// A recommendation cron job as the front end shows it.
#[derive(Debug)]
pub struct RecoCronJobResponse {
    pub id: String,
    pub name: String,
    pub description: String,
    pub schedule: String,
    pub status: String,
    pub recurring: bool,
    pub run_count: u32,
    pub last_run_at: Option<i64>,
    pub next_run_at: Option<i64>,
    /// The job's settings (the defaults when its prompt did not parse).
    pub config: RecoCronConfig,
    /// How many picks the last run pushed.
    pub last_picks_count: Option<usize>,
}

/// The picks count as the response holds it.
pub open spec fn picks_as_usize(n: Option<u64>) -> Option<usize> {
    match n {
        Some(k) => Some(k as usize),
        None => None,
    }
}

impl RecoCronJobResponse {
    /// Builds the response for job `j`; `parsed` is the job's prompt read
    /// as settings, `None` when it did not parse (the defaults are shown).
    pub fn from_job(j: &CronJobRecord, parsed: Option<RecoCronConfig>) -> (r: Self)
        ensures
            r.id@ == j.id@,
            r.name@ == j.name@,
            r.description@ == j.description@,
            r.schedule@ == j.schedule@,
            r.status@ == j.status_name@.map_values(|c: char| ascii_lower(c)),
            r.recurring == j.recurring,
            r.run_count == j.run_count,
            r.last_run_at == j.last_run_at,
            r.next_run_at == j.next_run_at,
            match parsed {
                Some(c) => r.config.periods@ == c.periods@ && r.config.min_confidence == c.min_confidence
                    && r.config.top_n == c.top_n,
                None => r.config.periods@ == seq![Period::Short] && r.config.min_confidence == 60
                    && r.config.top_n == 5,
            },
            r.last_picks_count == picks_as_usize(
                match j.last_output {
                    Some(o) => json_u64_field(o@, "pushed"@),
                    None => None,
                },
            ),
    {
        let config = match parsed {
            Some(c) => c,
            None => default_reco_config(),
        };
        let out: Option<&str> = match &j.last_output {
            Some(o) => Some(o.as_str()),
            None => None,
        };
        let picks = match last_picks_count(out) {
            Some(n) => Some(n as usize),
            None => None,
        };
        RecoCronJobResponse {
            id: copy_string(&j.id),
            name: copy_string(&j.name),
            description: copy_string(&j.description),
            schedule: copy_string(&j.schedule),
            status: status_label(j.status_name.as_str()),
            recurring: j.recurring,
            run_count: j.run_count,
            last_run_at: j.last_run_at,
            next_run_at: j.next_run_at,
            config,
            last_picks_count: picks,
        }
    }
}

} // verus!

verus! {

/// A recommendation a scan found (what the pushed report reads of it).
#[derive(Debug)]
pub struct RecoPick {
    pub stock_code: String,
    pub stock_name: String,
    /// Confidence, in percent.
    pub confidence: u8,
}

/// A stock line of the pushed report; its confidence as a fraction is
/// `score / 100`, which the host fills in.
#[derive(Debug)]
pub struct ReportStock {
    pub stock_code: String,
    pub stock_name: String,
    pub action: String,
    pub score: u32,
}

/// The title and body pushed when a scan finds no recommendation.
pub fn no_picks_report() -> (r: (String, String))
    ensures
        r.0@ == "智能荐股更新"@,
        r.1@ == "本次未发现符合条件的新推荐"@,
{
    (string_of("智能荐股更新"), string_of("本次未发现符合条件的新推荐"))
}

/// The action text of a pick: `置信度 {confidence}`.
pub open spec fn pick_action(confidence: u8) -> Seq<char> {
    "置信度 "@ + decimal(confidence as nat)
}

/// The stock lines of the report, one per pick, in order.
pub fn report_stocks(picks: &Vec<RecoPick>) -> (r: Vec<ReportStock>)
    ensures
        r.len() == picks.len(),
        forall|k: int|
            0 <= k < picks.len() ==> {
                let s = #[trigger] r@[k];
                &&& s.stock_code@ == picks@[k].stock_code@
                &&& s.stock_name@ == picks@[k].stock_name@
                &&& s.action@ == pick_action(picks@[k].confidence)
                &&& s.score == picks@[k].confidence as u32
            },
{
    let mut r: Vec<ReportStock> = Vec::new();
    let mut k: usize = 0;
    while k < picks.len()
        invariant
            k <= picks.len(),
            r.len() == k,
            forall|j: int|
                0 <= j < k ==> {
                    let s = #[trigger] r@[j];
                    &&& s.stock_code@ == picks@[j].stock_code@
                    &&& s.stock_name@ == picks@[j].stock_name@
                    &&& s.action@ == pick_action(picks@[j].confidence)
                    &&& s.score == picks@[j].confidence as u32
                },
        decreases picks.len() - k,
    {
        let p = &picks[k];
        let mut action = string_of("置信度 ");
        push_decimal(&mut action, p.confidence as u64);
        r.push(
            ReportStock {
                stock_code: copy_string(&p.stock_code),
                stock_name: copy_string(&p.stock_name),
                action,
                score: p.confidence as u32,
            },
        );
        k = k + 1;
    }
    r
}

} // verus!

verus! {

/// Law: a status label lowers each capital letter to the small letter of
/// the same place in the alphabet and leaves every other character; so
/// labelling a label changes nothing.
pub proof fn law_status_label_lowers_letters(c: char)
    ensures
        ('A' <= c && c <= 'Z') ==> ('a' <= ascii_lower(c) && ascii_lower(c) <= 'z' && ascii_lower(c) as int
            - 'a' as int == c as int - 'A' as int),
        !('A' <= c && c <= 'Z') ==> ascii_lower(c) == c,
        ascii_lower(ascii_lower(c)) == ascii_lower(c),
{
}

} // verus!

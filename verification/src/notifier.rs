//! What the notifier does with a pushed feed: which video it is about,
//! whether the stored record changes, what is announced now and what is
//! scheduled for later.
//!
//! The functions here decide; the caller talks to the store, the video
//! platform, the chat and the timer engine, and carries out the steps that
//! `process_url` lists, in their order.

use crate::clock::{formatted_west, utc_fields, write_west};
use crate::cron::{cron_schedule, cron_text};
use crate::data::models::{Livestream, LivestreamView};
use crate::pubsub::{challenge_echo, Feed, OK};
use crate::text::{chars_of, str_eq};
use crate::youtube::VideoMetadata;
use vstd::prelude::*;
use vstd::string::*;

verus! {

/// The channel that hears of a stream being scheduled, and of its reminder.
pub const NOTIFICATIONS_CHANNEL: &'static str = "hololive-notifications";

/// The channel that hears of a stream starting.
pub const STARTED_CHANNEL: &'static str = "hololive-stream-started";

/// What the key of a reminder job adds to the key of its stream.
pub const REMINDER_SUFFIX: &'static str = "-reminder";

/// How long before the start the reminder comes due, in seconds.
pub const REMINDER_LEAD: i64 = 900;

/// The zone in which a start is announced, in seconds west of Greenwich.
pub const ANNOUNCEMENT_ZONE_WEST: i32 = 25_200;

/// The pattern after which the start is written in an announcement.
pub const ANNOUNCEMENT_PATTERN: &'static str = "%a, %b %e, %l:%M %p UTC%z";

/// A message for a channel of the chat.
#[derive(Debug)]
pub struct Announcement {
    pub channel: String,
    pub text: String,
}

/// A job for the timer engine: the key that owns it, the cron expression at
/// which it comes due, and the message it releases.
#[derive(Debug)]
pub struct NotificationJob {
    pub key: String,
    pub schedule: String,
    pub announcement: Announcement,
}

/// The whole seconds of an instant given in milliseconds, rounded towards
/// the epoch.
pub open spec fn whole_seconds(millis: i64) -> i64 {
    if millis >= 0 {
        (millis / 1000) as i64
    } else {
        (-((-millis) / 1000)) as i64
    }
}

/// The text that announces a scheduled stream; `when` is its start as
/// written for the announcement.
pub open spec fn will_livestream_text(author: Seq<char>, when: Seq<char>, url: Seq<char>) -> Seq<
    char,
> {
    "["@ + author + "] will livestream on ["@ + when + "] - ["@ + url + "]"@
}

/// The text that reminds of a stream a quarter of an hour before it starts.
pub open spec fn reminder_text(author: Seq<char>, url: Seq<char>) -> Seq<char> {
    "["@ + author + "] Livestream starting in 15 minutes! - ["@ + url + "]"@
}

/// The text that announces a stream as it starts.
pub open spec fn is_live_text(author: Seq<char>, url: Seq<char>) -> Seq<char> {
    "["@ + author + "] Livestream starting! "@ + url
}

/// The text that tells the developer that a pushed video was dealt with.
pub open spec fn processed_text(url: Seq<char>) -> Seq<char> {
    "Processed livestream: "@ + url
}

/// The text that shows the developer a pushed feed; `json` is the feed
/// written as JSON.
pub open spec fn feed_report_text(json: Seq<char>) -> Seq<char> {
    "Processing feed:\n```json\n"@ + json + "\n```"@
}

/// Whether `a` is the message `text` for `channel`.
pub open spec fn announces(a: Announcement, channel: Seq<char>, text: Seq<char>) -> bool {
    a.channel@ == channel && a.text@ == text
}

/// The announcement of a scheduled stream whose start is written `when`.
pub fn will_livestream_message(author: &str, when: &str, url: &str) -> (r: Announcement)
    ensures
        announces(r, NOTIFICATIONS_CHANNEL@, will_livestream_text(author@, when@, url@)),
{
    let mut text = String::from_str("[");
    text.append(author);
    text.append("] will livestream on [");
    text.append(when);
    text.append("] - [");
    text.append(url);
    text.append("]");
    assert(text@ =~= will_livestream_text(author@, when@, url@));
    Announcement { channel: String::from_str(NOTIFICATIONS_CHANNEL), text }
}

/// The announcement of a scheduled stream, with its start written in the
/// zone and after the pattern of announcements; `None` where the start
/// cannot be written: see `formatted_west`.
pub fn send_will_livestream_message(livestream: &Livestream) -> (r: Option<Announcement>)
    ensures
        match r {
            Some(a) => formatted_west(
                whole_seconds(livestream.date),
                ANNOUNCEMENT_ZONE_WEST,
                ANNOUNCEMENT_PATTERN@,
            ) matches Some(when) && announces(
                a,
                NOTIFICATIONS_CHANNEL@,
                will_livestream_text(livestream.author@, when, livestream.url@),
            ),
            None => formatted_west(
                whole_seconds(livestream.date),
                ANNOUNCEMENT_ZONE_WEST,
                ANNOUNCEMENT_PATTERN@,
            ) is None,
        },
{
    let secs: i64 = livestream.date / 1000;
    match write_west(secs, ANNOUNCEMENT_ZONE_WEST, ANNOUNCEMENT_PATTERN) {
        Some(when) => Some(
            will_livestream_message(
                livestream.author.as_str(),
                when.as_str(),
                livestream.url.as_str(),
            ),
        ),
        None => None,
    }
}

/// The reminder of a stream that starts in a quarter of an hour.
pub fn send_livestream_reminder(livestream: &Livestream) -> (r: Announcement)
    ensures
        announces(r, NOTIFICATIONS_CHANNEL@, reminder_text(livestream.author@, livestream.url@)),
{
    let mut text = String::from_str("[");
    text.append(livestream.author.as_str());
    text.append("] Livestream starting in 15 minutes! - [");
    text.append(livestream.url.as_str());
    text.append("]");
    assert(text@ =~= reminder_text(livestream.author@, livestream.url@));
    Announcement { channel: String::from_str(NOTIFICATIONS_CHANNEL), text }
}

/// The announcement of a stream that starts.
pub fn send_is_live_message(livestream: &Livestream) -> (r: Announcement)
    ensures
        announces(r, STARTED_CHANNEL@, is_live_text(livestream.author@, livestream.url@)),
{
    let mut text = String::from_str("[");
    text.append(livestream.author.as_str());
    text.append("] Livestream starting! ");
    text.append(livestream.url.as_str());
    assert(text@ =~= is_live_text(livestream.author@, livestream.url@));
    Announcement { channel: String::from_str(STARTED_CHANNEL), text }
}

/// The note to the developer that the video at `url` was dealt with.
pub fn processed_message(url: &str) -> (r: String)
    ensures
        r@ == processed_text(url@),
{
    let mut text = String::from_str("Processed livestream: ");
    text.append(url);
    text
}

/// The note that shows the developer a pushed feed, written as `json`.
pub fn feed_report(json: &str) -> (r: String)
    ensures
        r@ == feed_report_text(json@),
{
    let mut text = String::from_str("Processing feed:\n```json\n");
    text.append(json);
    text.append("\n```");
    text
}

/// Whether `job` is the job of `key` with `suffix` that comes due `lead`
/// seconds before the instant `secs` and releases `announcement`.
pub open spec fn job_for(
    job: NotificationJob,
    key: Seq<char>,
    suffix: Seq<char>,
    secs: i64,
    lead: i64,
    announcement: Announcement,
) -> bool {
    &&& job.key@ == key + suffix
    &&& i64::MIN <= secs - lead <= i64::MAX
    &&& utc_fields((secs - lead) as i64) matches Some(f) && job.schedule@ == cron_text(f)
    &&& job.announcement == announcement
}

/// Whether there is an instant `lead` seconds before `secs` that the
/// calendar can hold.
pub open spec fn can_schedule(secs: i64, lead: i64) -> bool {
    i64::MIN <= secs - lead <= i64::MAX && utc_fields((secs - lead) as i64) is Some
}

/// The job that releases `announcement` `lead` seconds before the instant
/// `secs`, under the key `key` followed by `suffix`. Any lead time is a job
/// like any other, told apart by its key alone. `None` where the calendar
/// cannot hold the instant at which the job would come due.
pub fn notification_job(
    key: &str,
    suffix: &str,
    secs: i64,
    lead: i64,
    announcement: Announcement,
) -> (r: Option<NotificationJob>)
    ensures
        match r {
            Some(job) => job_for(job, key@, suffix@, secs, lead, announcement),
            None => !can_schedule(secs, lead),
        },
{
    let due = match secs.checked_sub(lead) {
        Some(due) => due,
        None => {
            return None;
        },
    };
    let schedule = match cron_schedule(due) {
        Some(schedule) => schedule,
        None => {
            return None;
        },
    };
    let mut full = String::from_str(key);
    full.append(suffix);
    Some(NotificationJob { key: full, schedule, announcement })
}

/// Whether `jobs` are the two jobs of a stream: the one that announces its
/// start, under its address, due at the start; and the reminder, under its
/// address followed by `-reminder`, due a quarter of an hour earlier.
pub open spec fn jobs_of(jobs: (NotificationJob, NotificationJob), livestream: LivestreamView) -> bool {
    let secs = whole_seconds(livestream.date);
    &&& job_for(jobs.0, livestream.url, Seq::empty(), secs, 0, jobs.0.announcement)
    &&& announces(
        jobs.0.announcement,
        STARTED_CHANNEL@,
        is_live_text(livestream.author, livestream.url),
    )
    &&& job_for(jobs.1, livestream.url, REMINDER_SUFFIX@, secs, REMINDER_LEAD, jobs.1.announcement)
    &&& announces(
        jobs.1.announcement,
        NOTIFICATIONS_CHANNEL@,
        reminder_text(livestream.author, livestream.url),
    )
}

/// The two jobs of a stream have different keys: in the table of jobs
/// neither takes the place of the other, and each comes due by itself.
pub proof fn law_reminder_has_its_own_key(
    jobs: (NotificationJob, NotificationJob),
    livestream: LivestreamView,
)
    requires
        jobs_of(jobs, livestream),
    ensures
        jobs.0.key@ != jobs.1.key@,
{
    reveal_strlit("-reminder");
    assert(jobs.0.key@.len() == livestream.url.len());
    assert(jobs.1.key@.len() == livestream.url.len() + 9);
}

/// Whether both jobs of a stream that starts at `millis` can be scheduled.
pub open spec fn can_notify(millis: i64) -> bool {
    can_schedule(whole_seconds(millis), 0) && can_schedule(whole_seconds(millis), REMINDER_LEAD)
}

/// The two jobs of a stream, the start first and the reminder second, or
/// `None` where the calendar cannot hold one of their instants.
pub fn setup_livestream_notifications(livestream: &Livestream) -> (r: Option<
    (NotificationJob, NotificationJob),
>)
    ensures
        match r {
            Some(jobs) => jobs_of(jobs, livestream@),
            None => !can_notify(livestream.date),
        },
{
    let secs: i64 = livestream.date / 1000;
    let live = match notification_job(
        livestream.url.as_str(),
        "",
        secs,
        0,
        send_is_live_message(livestream),
    ) {
        Some(job) => job,
        None => {
            return None;
        },
    };
    let reminder = match notification_job(
        livestream.url.as_str(),
        REMINDER_SUFFIX,
        secs,
        REMINDER_LEAD,
        send_livestream_reminder(livestream),
    ) {
        Some(job) => job,
        None => {
            return None;
        },
    };
    proof {
        reveal_strlit("");
        assert(""@ =~= Seq::<char>::empty());
    }
    Some((live, reminder))
}

/// Whether the text `v=` and a character other than `&` stand at `i`.
pub open spec fn id_starts_at(s: Seq<char>, i: int) -> bool {
    0 <= i && i + 2 < s.len() && s[i] == 'v' && s[i + 1] == '=' && s[i + 2] != '&'
}

/// Whether `i` is the first place at which an identifier starts.
pub open spec fn first_id_at(s: Seq<char>, i: int) -> bool {
    id_starts_at(s, i) && forall|j: int| 0 <= j < i ==> !id_starts_at(s, j)
}

/// Whether the characters from `from` up to `end` hold no `&`, and `end` is
/// where the text ends or the next `&` stands.
pub open spec fn run_until(s: Seq<char>, from: int, end: int) -> bool {
    &&& from <= end <= s.len()
    &&& forall|k: int| from <= k < end ==> s[k] != '&'
    &&& end == s.len() || s[end] == '&'
}

/// Whether `id` is the video identifier in the address `s`: what follows
/// the first `v=` that is followed by anything but `&`, up to the next `&` or
/// the end; the empty text where there is no such `v=`.
pub open spec fn is_video_id(s: Seq<char>, id: Seq<char>) -> bool {
    ||| exists|i: int, end: int| #[trigger] captured(s, i, end, id)
    ||| (forall|i: int| !id_starts_at(s, i)) && id == Seq::<char>::empty()
}

/// Whether the first identifier of `s` starts at `i`, and `id` is what
/// follows its `v=` up to `end`, where the text ends or the next `&` stands.
pub open spec fn captured(s: Seq<char>, i: int, end: int, id: Seq<char>) -> bool {
    first_id_at(s, i) && run_until(s, i + 2, end) && id == s.subrange(i + 2, end)
}

/// The video identifier in the address of a video.
pub fn video_id(url: &str) -> (r: String)
    ensures
        is_video_id(url@, r@),
{
    let chars = chars_of(url);
    let n: usize = chars.len();
    let mut i: usize = 0;
    while i < n && n - i > 2
        invariant
            n == chars@.len(),
            chars@ == url@,
            forall|j: int| 0 <= j < i ==> !id_starts_at(url@, j),
        decreases n - i,
    {
        if chars[i] == 'v' && chars[i + 1] == '=' && chars[i + 2] != '&' {
            let mut end: usize = i + 3;
            while end < n && chars[end] != '&'
                invariant
                    n == chars@.len(),
                    chars@ == url@,
                    i + 2 < end <= n,
                    chars@[i + 2] != '&',
                    forall|k: int| i + 2 <= k < end ==> chars@[k] != '&',
                decreases n - end,
            {
                end += 1;
            }
            let id = url.substring_char(i + 2, end).to_owned();
            assert(captured(url@, i as int, end as int, id@));
            return id;
        }
        i += 1;
    }
    String::new()
}

/// What the caller is to do about a pushed video, one step after another.
#[derive(Debug)]
pub enum Step {
    /// Store a record that was not there.
    Insert(Livestream),
    /// Store a record in place of the one with its address.
    Upsert(Livestream),
    /// Send a message to a channel.
    Announce(Announcement),
    /// Schedule a job under its key, in place of any job there.
    Schedule(NotificationJob),
    /// Tell the developer.
    Report(String),
}

/// Why nothing can be done about a pushed video.
#[derive(Clone, Copy, Debug, PartialEq, Eq, Structural)]
pub enum ProcessError {
    /// The start of the stream cannot be written or scheduled: the calendar
    /// cannot hold it, or the instant a quarter of an hour before it.
    StartOutOfRange,
}

/// Whether the start of a stream at `millis` can be written for an
/// announcement.
pub open spec fn can_announce(millis: i64) -> bool {
    formatted_west(whole_seconds(millis), ANNOUNCEMENT_ZONE_WEST, ANNOUNCEMENT_PATTERN@) is Some
}

/// Whether the record of a stream has to be written: there is none, or the
/// one there differs from what the platform says, in the start, the title or
/// the title of the channel.
pub open spec fn record_changes(stored: Option<Livestream>, metadata: VideoMetadata) -> bool {
    match stored {
        Some(known) => known.date != metadata.livestream_start_dt || known.title@
            != metadata.title@ || known.author@ != metadata.channel_title@,
        None => true,
    }
}

/// The record to write: title, author and start as the platform gives them,
/// the instant of the feed entry, and the address of the record that was
/// there, or else the address that was pushed.
pub open spec fn new_record(
    url: Seq<char>,
    updated_ts_ms: i64,
    stored: Option<Livestream>,
    metadata: VideoMetadata,
) -> LivestreamView {
    LivestreamView {
        author: metadata.channel_title@,
        url: match stored {
            Some(known) => known.url@,
            None => url,
        },
        date: metadata.livestream_start_dt,
        title: metadata.title@,
        updated: updated_ts_ms,
    }
}

/// Whether `steps` are the steps that writing, announcing and scheduling the
/// record `record` take, with the report at the end.
pub open spec fn steps_of_change(
    steps: Seq<Step>,
    url: Seq<char>,
    stored: Option<Livestream>,
    record: LivestreamView,
) -> bool {
    &&& steps.len() == 5
    &&& match stored {
        Some(_) => steps[0] matches Step::Upsert(l) && l@ == record,
        None => steps[0] matches Step::Insert(l) && l@ == record,
    }
    &&& steps[1] matches Step::Announce(a) && (formatted_west(
        whole_seconds(record.date),
        ANNOUNCEMENT_ZONE_WEST,
        ANNOUNCEMENT_PATTERN@,
    ) matches Some(when) && announces(
        a,
        NOTIFICATIONS_CHANNEL@,
        will_livestream_text(record.author, when, record.url),
    ))
    &&& steps[2] matches Step::Schedule(live) && (steps[3] matches Step::Schedule(reminder)
        && jobs_of((live, reminder), record))
    &&& steps[4] matches Step::Report(text) && text@ == processed_text(url)
}

/// What `process_url` answers.
pub open spec fn processed(
    url: Seq<char>,
    updated_ts_ms: i64,
    stored: Option<Livestream>,
    metadata: VideoMetadata,
    now_ms: i64,
    r: Result<Vec<Step>, ProcessError>,
) -> bool {
    let start = metadata.livestream_start_dt;
    if start < now_ms {
        r matches Ok(steps) && steps@.len() == 0
    } else if !record_changes(stored, metadata) {
        r matches Ok(steps) && steps@.len() == 1 && (steps@[0] matches Step::Report(text) && text@
            == processed_text(url))
    } else if can_announce(start) && can_notify(start) {
        r matches Ok(steps) && steps_of_change(
            steps@,
            url,
            stored,
            new_record(url, updated_ts_ms, stored, metadata),
        )
    } else {
        r == Err::<Vec<Step>, ProcessError>(ProcessError::StartOutOfRange)
    }
}

/// Decides what to do about the video at `livestream_url`, pushed by a feed
/// entry of the instant `updated_ts_ms`: `stored` is the record that the
/// store has under the address, `metadata` what the platform says of the
/// video, `now_ms` the time.
///
/// A stream whose start lies before now is left alone. A stream that is
/// stored with the start, the title and the channel title it has is reported
/// to the developer and nothing else. Any other, new or changed, is written
/// to the store as the platform gives it, announced, scheduled twice (its
/// start, and the reminder before it, each in place of the job that its key
/// owned) and reported, in this order.
pub fn process_url(
    livestream_url: &str,
    updated_ts_ms: i64,
    stored: Option<Livestream>,
    metadata: VideoMetadata,
    now_ms: i64,
) -> (r: Result<Vec<Step>, ProcessError>)
    ensures
        processed(livestream_url@, updated_ts_ms, stored, metadata, now_ms, r),
{
    let mut steps: Vec<Step> = Vec::new();
    let start: i64 = metadata.livestream_start_dt;
    if start < now_ms {
        return Ok(steps);
    }
    let url = match &stored {
        Some(known) => {
            if known.date == start && str_eq(known.title.as_str(), metadata.title.as_str())
                && str_eq(known.author.as_str(), metadata.channel_title.as_str()) {
                steps.push(Step::Report(processed_message(livestream_url)));
                return Ok(steps);
            }
            known.url.clone()
        },
        None => livestream_url.to_owned(),
    };
    let record = Livestream {
        author: metadata.channel_title,
        url,
        date: start,
        title: metadata.title,
        updated: updated_ts_ms,
    };
    let announcement = match send_will_livestream_message(&record) {
        Some(announcement) => announcement,
        None => {
            return Err(ProcessError::StartOutOfRange);
        },
    };
    let (live, reminder) = match setup_livestream_notifications(&record) {
        Some(jobs) => jobs,
        None => {
            return Err(ProcessError::StartOutOfRange);
        },
    };
    assert(record@ == new_record(livestream_url@, updated_ts_ms, stored, metadata));
    steps.push(
        if stored.is_some() {
            Step::Upsert(record)
        } else {
            Step::Insert(record)
        },
    );
    steps.push(Step::Announce(announcement));
    steps.push(Step::Schedule(live));
    steps.push(Step::Schedule(reminder));
    steps.push(Step::Report(processed_message(livestream_url)));
    Ok(steps)
}

/// Why a pushed payload was not processed.
#[derive(Clone, Copy, Debug, PartialEq, Eq, Structural)]
pub enum HandlerInvocationError {
    /// The payload is not a feed document.
    MalformedPayload,
    /// The feed has no entry.
    NoEntry,
    /// The first entry of the feed has no instant of update that can be read.
    NoUpdateTime,
}

/// What a pushed feed is about: the address of a video, and the instant of
/// the entry that names it, in milliseconds since the epoch.
#[derive(Debug)]
pub struct Notice {
    pub livestream_url: String,
    pub updated_ts_ms: i64,
}

/// What a pushed feed comes to: the video of its first entry, or the reason
/// why it names none.
pub open spec fn noticed(feed: Option<&Feed>, r: Result<Notice, HandlerInvocationError>) -> bool {
    match feed {
        None => r == Err::<Notice, HandlerInvocationError>(HandlerInvocationError::MalformedPayload),
        Some(feed) => if feed.entry@.len() == 0 {
            r == Err::<Notice, HandlerInvocationError>(HandlerInvocationError::NoEntry)
        } else {
            match feed.entry@[0].updated {
                None => r == Err::<Notice, HandlerInvocationError>(
                    HandlerInvocationError::NoUpdateTime,
                ),
                Some(instant) => r matches Ok(notice) && notice.livestream_url@
                    == feed.entry@[0].link.href@ && notice.updated_ts_ms == instant,
            }
        },
    }
}

/// Answers a push of a feed, given what reading the payload came to: the
/// status of the reply, always 200, and the video to process, or the reason
/// why there is none. No failure reaches the reply.
pub fn yt_pubsub_callback(feed: Option<&Feed>) -> (r: (u16, Result<Notice, HandlerInvocationError>))
    ensures
        r.0 == OK,
        noticed(feed, r.1),
{
    let feed = match feed {
        Some(feed) => feed,
        None => {
            return (OK, Err(HandlerInvocationError::MalformedPayload));
        },
    };
    if feed.entry.len() == 0 {
        return (OK, Err(HandlerInvocationError::NoEntry));
    }
    let entry = &feed.entry[0];
    match entry.updated {
        Some(instant) => (
            OK,
            Ok(Notice { livestream_url: entry.link.href.clone(), updated_ts_ms: instant }),
        ),
        None => (OK, Err(HandlerInvocationError::NoUpdateTime)),
    }
}

/// The query of a verification request from the hub of the video platform.
#[derive(Debug)]
pub struct YTCallbackParams {
    pub challenge: Option<String>,
    pub mode: Option<String>,
    pub topic: Option<String>,
    pub lease_seconds: Option<i64>,
}

/// Answers a verification request: status 200 and the challenge as the body,
/// whatever else the request says.
pub fn yt_pubsub_challenge_handler(params: &YTCallbackParams) -> (r: (u16, String))
    ensures
        r.0 == OK,
        r.1@ == challenge_echo(params.challenge),
{
    match &params.challenge {
        Some(text) => (OK, text.clone()),
        None => (OK, String::new()),
    }
}

} // verus!

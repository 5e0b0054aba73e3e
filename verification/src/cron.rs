//! One-shot notification jobs, one per key.
//!
//! The timer engine lives outside this crate. It registers a job for a cron
//! expression and answers with a handle; when the job is due it reports the
//! handle back. `LivestreamScheduler` is the table that says which handle a
//! key owns and which action a reported handle releases. A key owns at most
//! one job, a job is released at most once, and replacing the job of a key
//! silences the job it had before, whatever the engine still holds.
//!
//! The caller asks the engine and tells the table what it answered. To
//! cancel: `handle_of`, the engine's removal, `cancel_livestream_notification`.
//! To schedule: a cancellation, the engine's registration,
//! `schedule_livestream_notification`. When the engine reports a handle:
//! `fire`.

use crate::clock::{read_utc, utc_fields, UtcFields};
use crate::text::{decimal, push_decimal};
use vstd::prelude::*;
use vstd::string::*;

verus! {

/// The six-field cron expression (second, minute, hour, day of month, month,
/// any weekday) that matches the reading `f`.
pub open spec fn cron_text(f: UtcFields) -> Seq<char> {
    decimal(f.second as nat) + seq![' '] + decimal(f.minute as nat) + seq![' '] + decimal(
        f.hour as nat,
    ) + seq![' '] + decimal(f.day as nat) + seq![' '] + decimal(f.month as nat) + seq![' ', '*']
}

/// Writes the cron expression of a reading.
pub fn cron_expression(f: &UtcFields) -> (r: String)
    ensures
        r@ == cron_text(*f),
{
    let mut out = String::new();
    proof {
        reveal_strlit(" ");
        reveal_strlit(" *");
    }
    push_decimal(&mut out, f.second as u64);
    out.append(" ");
    push_decimal(&mut out, f.minute as u64);
    out.append(" ");
    push_decimal(&mut out, f.hour as u64);
    out.append(" ");
    push_decimal(&mut out, f.day as u64);
    out.append(" ");
    push_decimal(&mut out, f.month as u64);
    out.append(" *");
    assert(out@ =~= cron_text(*f));
    out
}

/// The cron expression that comes due at the instant `secs` (seconds since
/// the epoch, UTC), or `None` where the calendar cannot hold the instant.
pub fn cron_schedule(secs: i64) -> (r: Option<String>)
    ensures
        match r {
            Some(s) => utc_fields(secs) matches Some(f) && s@ == cron_text(f),
            None => utc_fields(secs) is None,
        },
{
    match read_utc(secs) {
        Some(f) => Some(cron_expression(&f)),
        None => None,
    }
}

/// What the timer engine calls a job it has registered.
#[derive(Clone, Copy, Debug, PartialEq, Eq, Structural)]
pub struct JobHandle(pub u128);

/// Why the timer engine did not do what it was asked.
#[derive(Clone, Copy, Debug, PartialEq, Eq, Structural)]
pub enum EngineFault {
    /// It could not read the cron expression.
    InvalidSchedule,
    /// It refused or failed for any other reason.
    Unavailable,
}

/// A scheduling request that did not go through.
#[derive(Clone, Copy, Debug, PartialEq, Eq, Structural)]
pub enum SchedulerError {
    /// The engine did not register the new job.
    Add(EngineFault),
    /// The engine did not remove the job that was to be replaced or cancelled.
    Remove(EngineFault),
}

/// Where a key stands: it owns no job, a job that is yet to come due, or a
/// job that has fired and stays until the key is scheduled again or
/// cancelled.
#[derive(Clone, Copy, Debug, PartialEq, Eq, Structural)]
pub enum JobState {
    Absent,
    Scheduled,
    Fired,
}

/// A job as the table holds it. `run` is the action that the job releases
/// when it comes due; once released it is `None` and the job has fired.
pub struct ScheduledJob<A> {
    pub key: String,
    pub schedule: String,
    pub handle: JobHandle,
    pub run: Option<A>,
}

/// The mathematical content of a job, without its key.
pub struct JobView<A> {
    pub schedule: Seq<char>,
    pub handle: JobHandle,
    pub run: Option<A>,
}

impl<A> ScheduledJob<A> {
    /// The job without its key.
    pub open spec fn record(self) -> JobView<A> {
        JobView { schedule: self.schedule@, handle: self.handle, run: self.run }
    }
}

/// The key of the `i`-th job.
spec fn key_at<A>(jobs: Seq<ScheduledJob<A>>, i: int) -> Seq<char> {
    jobs[i].key@
}

/// The handle of the `i`-th job.
spec fn handle_at<A>(jobs: Seq<ScheduledJob<A>>, i: int) -> JobHandle {
    jobs[i].handle
}

/// No two jobs share a key, and no two share a handle.
spec fn distinct<A>(jobs: Seq<ScheduledJob<A>>) -> bool {
    &&& forall|i: int, j: int|
        0 <= i < j < jobs.len() ==> #[trigger] key_at(jobs, i) != #[trigger] key_at(jobs, j)
    &&& forall|i: int, j: int|
        0 <= i < j < jobs.len() ==> #[trigger] handle_at(jobs, i) != #[trigger] handle_at(jobs, j)
}

/// Whether some job has the key.
spec fn has_key<A>(jobs: Seq<ScheduledJob<A>>, key: Seq<char>) -> bool {
    exists|i: int| 0 <= i < jobs.len() && #[trigger] key_at(jobs, i) == key
}

/// The place of a job with the key.
spec fn place_of<A>(jobs: Seq<ScheduledJob<A>>, key: Seq<char>) -> int {
    choose|i: int| 0 <= i < jobs.len() && #[trigger] key_at(jobs, i) == key
}

/// The jobs as a map from key to job.
spec fn table<A>(jobs: Seq<ScheduledJob<A>>) -> Map<Seq<char>, JobView<A>> {
    Map::new(|k: Seq<char>| has_key(jobs, k), |k: Seq<char>| jobs[place_of(jobs, k)].record())
}

/// The key whose job owns the handle, if there is one.
pub open spec fn holder<A>(m: Map<Seq<char>, JobView<A>>, handle: JobHandle) -> Option<Seq<char>> {
    if exists|k: Seq<char>| m.contains_key(k) && #[trigger] m[k].handle == handle {
        Some(choose|k: Seq<char>| m.contains_key(k) && #[trigger] m[k].handle == handle)
    } else {
        None
    }
}

/// No handle is owned by the jobs of two keys.
pub open spec fn handles_distinct<A>(m: Map<Seq<char>, JobView<A>>) -> bool {
    forall|k1: Seq<char>, k2: Seq<char>|
        m.contains_key(k1) && m.contains_key(k2) && #[trigger] m[k1].handle == #[trigger] m[k2].handle
            ==> k1 == k2
}

/// Where `key` stands in the table.
pub open spec fn job_state<A>(m: Map<Seq<char>, JobView<A>>, key: Seq<char>) -> JobState {
    if !m.contains_key(key) {
        JobState::Absent
    } else if m[key].run is Some {
        JobState::Scheduled
    } else {
        JobState::Fired
    }
}

/// What holds of the jobs of every table: there are finitely many, and each
/// handle is owned under one key.
pub open spec fn valid_table<A>(m: Map<Seq<char>, JobView<A>>) -> bool {
    m.dom().finite() && handles_distinct(m)
}

/// The job that `key` owns after an action was released from it: the same
/// job, fired.
pub open spec fn fired<A>(job: JobView<A>) -> JobView<A> {
    JobView { schedule: job.schedule, handle: job.handle, run: None }
}

proof fn lemma_table_at<A>(jobs: Seq<ScheduledJob<A>>, i: int)
    requires
        distinct(jobs),
        0 <= i < jobs.len(),
    ensures
        table(jobs).contains_key(key_at(jobs, i)),
        table(jobs)[key_at(jobs, i)] == jobs[i].record(),
        place_of(jobs, key_at(jobs, i)) == i,
{
    let k = key_at(jobs, i);
    assert(has_key(jobs, k));
    let p = place_of(jobs, k);
    assert(0 <= p < jobs.len() && key_at(jobs, p) == k);
    if p < i {
        assert(key_at(jobs, p) != key_at(jobs, i));
    } else if i < p {
        assert(key_at(jobs, i) != key_at(jobs, p));
    }
}

proof fn lemma_table_remove<A>(jobs: Seq<ScheduledJob<A>>, i: int)
    requires
        distinct(jobs),
        0 <= i < jobs.len(),
    ensures
        distinct(jobs.remove(i)),
        !has_key(jobs.remove(i), key_at(jobs, i)),
        table(jobs.remove(i)) == table(jobs).remove(key_at(jobs, i)),
{
    let rest = jobs.remove(i);
    let k = key_at(jobs, i);
    if has_key(rest, k) {
        let a = place_of(rest, k);
        let a0 = if a < i { a } else { a + 1 };
        assert(key_at(jobs, a0) == k);
        if a0 < i {
            assert(key_at(jobs, a0) != key_at(jobs, i));
        } else {
            assert(key_at(jobs, i) != key_at(jobs, a0));
        }
    }
    assert forall|a: int, b: int| 0 <= a < b < rest.len() implies #[trigger] key_at(rest, a)
        != #[trigger] key_at(rest, b) by {
        let a0 = if a < i { a } else { a + 1 };
        let b0 = if b < i { b } else { b + 1 };
        assert(key_at(rest, a) == key_at(jobs, a0));
        assert(key_at(rest, b) == key_at(jobs, b0));
    }
    assert forall|a: int, b: int| 0 <= a < b < rest.len() implies #[trigger] handle_at(rest, a)
        != #[trigger] handle_at(rest, b) by {
        let a0 = if a < i { a } else { a + 1 };
        let b0 = if b < i { b } else { b + 1 };
        assert(handle_at(rest, a) == handle_at(jobs, a0));
        assert(handle_at(rest, b) == handle_at(jobs, b0));
    }
    assert forall|q: Seq<char>| #[trigger] table(rest).contains_key(q) <==> table(jobs).remove(
        k,
    ).contains_key(q) by {
        if has_key(rest, q) {
            let a = place_of(rest, q);
            let a0 = if a < i { a } else { a + 1 };
            assert(key_at(jobs, a0) == q);
            if a0 < i {
                assert(key_at(jobs, a0) != key_at(jobs, i));
            } else {
                assert(key_at(jobs, i) != key_at(jobs, a0));
            }
        }
        if has_key(jobs, q) && q != k {
            let a0 = place_of(jobs, q);
            let a = if a0 < i { a0 } else { a0 - 1 };
            assert(key_at(rest, a) == q);
        }
    }
    assert forall|q: Seq<char>| #[trigger] table(rest).contains_key(q) implies table(rest)[q]
        == table(jobs).remove(k)[q] by {
        let a = place_of(rest, q);
        let a0 = if a < i { a } else { a + 1 };
        assert(key_at(jobs, a0) == q);
        lemma_table_at(jobs, a0);
        lemma_table_at(rest, a);
    }
    assert(table(rest) =~= table(jobs).remove(k));
}

proof fn lemma_table_push<A>(jobs: Seq<ScheduledJob<A>>, job: ScheduledJob<A>)
    requires
        distinct(jobs),
        !has_key(jobs, job.key@),
        forall|i: int| 0 <= i < jobs.len() ==> #[trigger] handle_at(jobs, i) != job.handle,
    ensures
        distinct(jobs.push(job)),
        table(jobs.push(job)) == table(jobs).insert(job.key@, job.record()),
{
    let more = jobs.push(job);
    let n = jobs.len() as int;
    assert forall|a: int, b: int| 0 <= a < b < more.len() implies #[trigger] key_at(more, a)
        != #[trigger] key_at(more, b) by {
        if b == n {
            assert(key_at(jobs, a) == key_at(more, a));
        } else {
            assert(key_at(jobs, a) == key_at(more, a));
            assert(key_at(jobs, b) == key_at(more, b));
        }
    }
    assert forall|a: int, b: int| 0 <= a < b < more.len() implies #[trigger] handle_at(more, a)
        != #[trigger] handle_at(more, b) by {
        if b == n {
            assert(handle_at(jobs, a) == handle_at(more, a));
        } else {
            assert(handle_at(jobs, a) == handle_at(more, a));
            assert(handle_at(jobs, b) == handle_at(more, b));
        }
    }
    assert forall|q: Seq<char>| #[trigger] table(more).contains_key(q) <==> table(jobs).insert(
        job.key@,
        job.record(),
    ).contains_key(q) by {
        if has_key(more, q) {
            let a = place_of(more, q);
            if a < n {
                assert(key_at(jobs, a) == q);
            }
        }
        if has_key(jobs, q) {
            let a = place_of(jobs, q);
            assert(key_at(more, a) == q);
        }
        if q == job.key@ {
            assert(key_at(more, n) == q);
        }
    }
    assert forall|q: Seq<char>| #[trigger] table(more).contains_key(q) implies table(more)[q]
        == table(jobs).insert(job.key@, job.record())[q] by {
        let a = place_of(more, q);
        lemma_table_at(more, a);
        if a < n {
            assert(key_at(jobs, a) == q);
            lemma_table_at(jobs, a);
        }
    }
    assert(table(more) =~= table(jobs).insert(job.key@, job.record()));
}



proof fn lemma_table_handles<A>(jobs: Seq<ScheduledJob<A>>)
    requires
        distinct(jobs),
    ensures
        handles_distinct(table(jobs)),
        forall|i: int|
            0 <= i < jobs.len() ==> holder(table(jobs), #[trigger] handle_at(jobs, i)) == Some(
                key_at(jobs, i),
            ),
        forall|h: JobHandle|
            (forall|i: int| 0 <= i < jobs.len() ==> #[trigger] handle_at(jobs, i) != h) ==> holder(
                table(jobs),
                h,
            ) is None,
{
    let m = table(jobs);
    assert forall|k1: Seq<char>, k2: Seq<char>|
        m.contains_key(k1) && m.contains_key(k2) && #[trigger] m[k1].handle == #[trigger] m[k2].handle
        implies k1 == k2 by {
        let here = place_of(jobs, k1);
        let there = place_of(jobs, k2);
        assert(handle_at(jobs, here) == m[k1].handle);
        assert(handle_at(jobs, there) == m[k2].handle);
        if here < there {
            assert(handle_at(jobs, here) != handle_at(jobs, there));
        } else if there < here {
            assert(handle_at(jobs, there) != handle_at(jobs, here));
        }
    }
    assert forall|i: int| 0 <= i < jobs.len() implies holder(m, #[trigger] handle_at(jobs, i))
        == Some(key_at(jobs, i)) by {
        lemma_table_at(jobs, i);
        let k = key_at(jobs, i);
        assert(m.contains_key(k) && m[k].handle == handle_at(jobs, i));
    }
    assert forall|h: JobHandle|
        (forall|i: int| 0 <= i < jobs.len() ==> #[trigger] handle_at(jobs, i) != h) implies holder(
        m,
        h,
    ) is None by {
        if exists|k: Seq<char>| m.contains_key(k) && #[trigger] m[k].handle == h {
            let k = choose|k: Seq<char>| m.contains_key(k) && #[trigger] m[k].handle == h;
            let p = place_of(jobs, k);
            assert(handle_at(jobs, p) == h);
        }
    }
}

/// The table of notification jobs: for each key at most one job, with the
/// handle that the timer engine gave it and the action it has yet to release.
///
/// The jobs are kept in a list. They are few, they are looked up by key and
/// by handle alike, and a job that fires hands its action out: a map keyed by
/// strings, as the verifier knows it, can be neither walked nor made to give
/// up a value.
pub struct LivestreamScheduler<A> {
    jobs: Vec<ScheduledJob<A>>,
}

impl<A> View for LivestreamScheduler<A> {
    type V = Map<Seq<char>, JobView<A>>;

    /// The jobs by key.
    closed spec fn view(&self) -> Map<Seq<char>, JobView<A>> {
        table(self.jobs@)
    }
}

impl<A> LivestreamScheduler<A> {
    /// The invariant of the table: no key and no handle occurs twice. `new`
    /// establishes it, and every method keeps it.
    pub closed spec fn wf(&self) -> bool {
        distinct(self.jobs@)
    }

    /// A table without jobs.
    pub fn new() -> (r: Self)
        ensures
            r.wf(),
            r@ == Map::<Seq<char>, JobView<A>>::empty(),
    {
        let r = LivestreamScheduler { jobs: Vec::new() };
        assert(r@ =~= Map::<Seq<char>, JobView<A>>::empty());
        r
    }

    /// Of every well-formed table: its keys are finitely many, and no handle
    /// is owned under two keys.
    pub proof fn lemma_valid(&self)
        requires
            self.wf(),
        ensures
            valid_table(self@),
    {
        lemma_table_handles(self.jobs@);
        lemma_table_finite(self.jobs@);
    }

    fn find_key(&self, key: &String) -> (r: Option<usize>)
        requires
            self.wf(),
        ensures
            match r {
                Some(i) => i < self.jobs@.len() && key_at(self.jobs@, i as int) == key@,
                None => !has_key(self.jobs@, key@),
            },
    {
        let mut i: usize = 0;
        while i < self.jobs.len()
            invariant
                i <= self.jobs@.len(),
                forall|j: int| 0 <= j < i ==> #[trigger] key_at(self.jobs@, j) != key@,
            decreases self.jobs@.len() - i,
        {
            if self.jobs[i].key == *key {
                return Some(i);
            }
            i += 1;
        }
        None
    }

    fn find_handle(&self, handle: JobHandle) -> (r: Option<usize>)
        requires
            self.wf(),
        ensures
            match r {
                Some(i) => i < self.jobs@.len() && handle_at(self.jobs@, i as int) == handle,
                None => forall|j: int|
                    0 <= j < self.jobs@.len() ==> #[trigger] handle_at(self.jobs@, j) != handle,
            },
    {
        let mut i: usize = 0;
        while i < self.jobs.len()
            invariant
                i <= self.jobs@.len(),
                forall|j: int| 0 <= j < i ==> #[trigger] handle_at(self.jobs@, j) != handle,
            decreases self.jobs@.len() - i,
        {
            if self.jobs[i].handle.0 == handle.0 {
                return Some(i);
            }
            i += 1;
        }
        None
    }

    /// The number of jobs in the table, fired ones included.
    pub fn len(&self) -> (r: usize)
        requires
            self.wf(),
        ensures
            r == self@.dom().len(),
    {
        proof {
            lemma_table_finite(self.jobs@);
        }
        self.jobs.len()
    }

    /// The handle that `key` owns, if it owns a job.
    pub fn handle_of(&self, key: &str) -> (r: Option<JobHandle>)
        requires
            self.wf(),
        ensures
            r == (if self@.contains_key(key@) {
                Some(self@[key@].handle)
            } else {
                None
            }),
    {
        let owned = key.to_owned();
        match self.find_key(&owned) {
            Some(i) => {
                proof {
                    lemma_table_at(self.jobs@, i as int);
                }
                Some(self.jobs[i].handle)
            },
            None => None,
        }
    }

    /// Where `key` stands.
    pub fn state_of(&self, key: &str) -> (r: JobState)
        requires
            self.wf(),
        ensures
            r == job_state(self@, key@),
    {
        let owned = key.to_owned();
        match self.find_key(&owned) {
            Some(i) => {
                proof {
                    lemma_table_at(self.jobs@, i as int);
                }
                if self.jobs[i].run.is_some() {
                    JobState::Scheduled
                } else {
                    JobState::Fired
                }
            },
            None => JobState::Absent,
        }
    }

    /// Whether `key` owns a job that has not fired yet.
    pub fn is_pending(&self, key: &str) -> (r: bool)
        requires
            self.wf(),
        ensures
            r == (self@.contains_key(key@) && self@[key@].run is Some),
    {
        let owned = key.to_owned();
        match self.find_key(&owned) {
            Some(i) => {
                proof {
                    lemma_table_at(self.jobs@, i as int);
                }
                self.jobs[i].run.is_some()
            },
            None => false,
        }
    }

    /// The cron expression under which the job of `key` was registered.
    pub fn schedule_of(&self, key: &str) -> (r: Option<String>)
        requires
            self.wf(),
        ensures
            match r {
                Some(s) => self@.contains_key(key@) && s@ == self@[key@].schedule,
                None => !self@.contains_key(key@),
            },
    {
        let owned = key.to_owned();
        match self.find_key(&owned) {
            Some(i) => {
                proof {
                    lemma_table_at(self.jobs@, i as int);
                }
                Some(self.jobs[i].schedule.clone())
            },
            None => None,
        }
    }

    /// Records the answer of the timer engine to a request to remove the job
    /// that `key` owns (see `handle_of`).
    ///
    /// Where the engine removed it, the job leaves the table, and the result
    /// is its handle. Where the engine failed, its fault comes back as a
    /// typed error and the job stays as it was, in the table as in the
    /// engine. Without a job under `key` nothing was to be removed, and
    /// nothing changes.
    pub fn cancel_livestream_notification(
        &mut self,
        key: &str,
        removed: Result<(), EngineFault>,
    ) -> (r: Result<Option<JobHandle>, SchedulerError>)
        requires
            old(self).wf(),
        ensures
            final(self).wf(),
            r == cancel_outcome(old(self)@, key@, removed),
            final(self)@ == (if r is Ok {
                old(self)@.remove(key@)
            } else {
                old(self)@
            }),
    {
        let owned = key.to_owned();
        match self.find_key(&owned) {
            Some(i) => {
                proof {
                    lemma_table_at(self.jobs@, i as int);
                    lemma_table_remove(self.jobs@, i as int);
                }
                match removed {
                    Ok(()) => {
                        let job = self.jobs.remove(i);
                        Ok(Some(job.handle))
                    },
                    Err(fault) => Err(SchedulerError::Remove(fault)),
                }
            },
            None => {
                assert(self@.remove(key@) =~= self@);
                Ok(None)
            },
        }
    }

    /// Records the answer of the timer engine to a request to register a job
    /// for `key`.
    ///
    /// Where the engine registered it, the job takes the place of whatever
    /// `key` owned, in one step: at no time does `key` own two jobs, and from
    /// this call on a report of the old handle releases nothing. The result
    /// is the handle of the job that was replaced, if `key` still owned one,
    /// for the caller to remove from the engine. A handle names one job of
    /// the engine: where the table still held the new handle under another
    /// key, that job is gone from the engine and leaves the table. Where the
    /// engine failed, its fault comes back as a typed error and the table
    /// stays as it was.
    pub fn schedule_livestream_notification(
        &mut self,
        key: &str,
        schedule: &str,
        run: A,
        added: Result<JobHandle, EngineFault>,
    ) -> (r: Result<Option<JobHandle>, SchedulerError>)
        requires
            old(self).wf(),
        ensures
            final(self).wf(),
            r == schedule_outcome(old(self)@, key@, added),
            r is Ok <==> added is Ok,
            final(self)@ == (if r is Ok {
                scheduled(old(self)@, key@, schedule@, added->Ok_0, run)
            } else {
                old(self)@
            }),
    {
        let handle = match added {
            Ok(handle) => handle,
            Err(fault) => {
                return Err(SchedulerError::Add(fault));
            },
        };
        let owned = key.to_owned();
        let ghost before = self.jobs@;
        proof {
            lemma_table_handles(before);
        }
        match self.find_handle(handle) {
            Some(j) => {
                proof {
                    lemma_table_at(before, j as int);
                    lemma_only_owner(before, j as int);
                }
                if self.jobs[j].key != owned {
                    proof {
                        lemma_table_remove(before, j as int);
                        lemma_removed_handles(before, j as int, handle);
                    }
                    let _ = self.jobs.remove(j);
                }
            },
            None => {},
        }
        let ghost mid = self.jobs@;
        assert(table(mid) == displaced(table(before), key@, handle));
        assert forall|x: int| 0 <= x < mid.len() && #[trigger] handle_at(mid, x) == handle implies key_at(
            mid,
            x,
        ) == key@ by {}
        let previous = match self.find_key(&owned) {
            Some(i) => {
                proof {
                    lemma_table_at(mid, i as int);
                    lemma_table_remove(mid, i as int);
                    assert forall|x: int| 0 <= x < mid.len() && x != i implies #[trigger] handle_at(
                        mid,
                        x,
                    ) != handle by {
                        if handle_at(mid, x) == handle {
                            if x < i {
                                assert(key_at(mid, x) != key_at(mid, i as int));
                            } else {
                                assert(key_at(mid, i as int) != key_at(mid, x));
                            }
                        }
                    }
                    lemma_removed_handles(mid, i as int, handle);
                }
                let job = self.jobs.remove(i);
                Some(job.handle)
            },
            None => {
                proof {
                    assert forall|x: int| 0 <= x < mid.len() implies #[trigger] handle_at(mid, x)
                        != handle by {
                        if handle_at(mid, x) == handle {
                            assert(key_at(mid, x) == key@);
                        }
                    }
                    assert(table(mid).remove(key@) =~= table(mid));
                }
                None
            },
        };
        let job = ScheduledJob {
            key: owned,
            schedule: schedule.to_owned(),
            handle,
            run: Some(run),
        };
        proof {
            lemma_table_push(self.jobs@, job);
            assert(table(self.jobs@.push(job)) =~= table(mid).insert(key@, job.record()));
        }
        self.jobs.push(job);
        Ok(previous)
    }

    /// Releases the action of the job that owns `handle`, when the timer
    /// engine reports that job due. The job stays in the table, fired, until
    /// its key is scheduled again or cancelled; a second report releases
    /// nothing, and neither does a handle that no job in the table owns.
    pub fn fire(&mut self, handle: JobHandle) -> (r: Option<A>)
        requires
            old(self).wf(),
        ensures
            final(self).wf(),
            r == released(old(self)@, handle),
            final(self)@ == after_fire(old(self)@, handle),
    {
        proof {
            lemma_table_handles(self.jobs@);
        }
        let ghost before = self.jobs@;
        match self.find_handle(handle) {
            Some(i) => {
                proof {
                    lemma_table_at(self.jobs@, i as int);
                    lemma_table_remove(self.jobs@, i as int);
                }
                let job = self.jobs.remove(i);
                let ScheduledJob { key, schedule, handle, run } = job;
                let spent = ScheduledJob { key, schedule, handle, run: None };
                proof {
                    assert forall|j: int| 0 <= j < before.len() && j != i implies #[trigger] handle_at(
                        before,
                        j,
                    ) != handle by {
                        if j < i {
                            assert(handle_at(before, j) != handle_at(before, i as int));
                        } else {
                            assert(handle_at(before, i as int) != handle_at(before, j));
                        }
                    }
                    lemma_removed_handles(before, i as int, handle);
                    lemma_table_push(self.jobs@, spent);
                    assert(table(self.jobs@.push(spent)) =~= table(before).insert(
                        key_at(before, i as int),
                        fired(table(before)[key_at(before, i as int)]),
                    ));
                }
                self.jobs.push(spent);
                run
            },
            None => None,
        }
    }
}

/// What a request to cancel the job of `key` comes to, given the engine's
/// answer: the handle of the job that was removed, the engine's fault, or
/// nothing where `key` owns no job.
pub open spec fn cancel_outcome<A>(
    before: Map<Seq<char>, JobView<A>>,
    key: Seq<char>,
    removed: Result<(), EngineFault>,
) -> Result<Option<JobHandle>, SchedulerError> {
    if !before.contains_key(key) {
        Ok(None)
    } else {
        match removed {
            Ok(()) => Ok(Some(before[key].handle)),
            Err(fault) => Err(SchedulerError::Remove(fault)),
        }
    }
}

/// What a request to schedule under `key` comes to, given the engine's
/// answer: the engine's fault, or else the handle of the job that `key`
/// owned before, if it owned one. A request that the engine granted is
/// granted by the table.
pub open spec fn schedule_outcome<A>(
    before: Map<Seq<char>, JobView<A>>,
    key: Seq<char>,
    added: Result<JobHandle, EngineFault>,
) -> Result<Option<JobHandle>, SchedulerError> {
    match added {
        Err(fault) => Err(SchedulerError::Add(fault)),
        Ok(_) => if before.contains_key(key) {
            Ok(Some(before[key].handle))
        } else {
            Ok(None)
        },
    }
}

/// The table without the job that owns `handle` under a key other than
/// `key`, if there is one: the engine has given the handle to a new job, so
/// the job that the table held for it is no longer in the engine.
pub open spec fn displaced<A>(
    before: Map<Seq<char>, JobView<A>>,
    key: Seq<char>,
    handle: JobHandle,
) -> Map<Seq<char>, JobView<A>> {
    match holder(before, handle) {
        Some(k) => if k != key {
            before.remove(k)
        } else {
            before
        },
        None => before,
    }
}

/// The table after a job for `key` was recorded: `key` owns the new job and
/// nothing else, no other key owns its handle, and every other key owns what
/// it owned.
pub open spec fn scheduled<A>(
    before: Map<Seq<char>, JobView<A>>,
    key: Seq<char>,
    schedule: Seq<char>,
    handle: JobHandle,
    run: A,
) -> Map<Seq<char>, JobView<A>> {
    displaced(before, key, handle).insert(key, JobView { schedule, handle, run: Some(run) })
}

/// The action that a report of `handle` releases: that of the job that owns
/// the handle, if there is one and it has not fired.
pub open spec fn released<A>(before: Map<Seq<char>, JobView<A>>, handle: JobHandle) -> Option<A> {
    match holder(before, handle) {
        Some(k) => before[k].run,
        None => None,
    }
}

/// The table after a report of `handle`: the job that owns it has fired.
pub open spec fn after_fire<A>(
    before: Map<Seq<char>, JobView<A>>,
    handle: JobHandle,
) -> Map<Seq<char>, JobView<A>> {
    match holder(before, handle) {
        Some(k) => before.insert(k, fired(before[k])),
        None => before,
    }
}

/// A job that is recorded leaves the table valid, and its key is the one
/// that owns its handle.
pub proof fn lemma_scheduled_valid<A>(
    before: Map<Seq<char>, JobView<A>>,
    key: Seq<char>,
    schedule: Seq<char>,
    handle: JobHandle,
    run: A,
)
    requires
        valid_table(before),
    ensures
        valid_table(scheduled(before, key, schedule, handle, run)),
        holder(scheduled(before, key, schedule, handle, run), handle) == Some(key),
        forall|k: Seq<char>|
            k != key && #[trigger] scheduled(before, key, schedule, handle, run).contains_key(k)
                ==> before.contains_key(k) && before[k] == scheduled(
                before,
                key,
                schedule,
                handle,
                run,
            )[k] && before[k].handle != handle,
{
    let rest = displaced(before, key, handle);
    let after = scheduled(before, key, schedule, handle, run);
    assert forall|k: Seq<char>| k != key && #[trigger] rest.contains_key(k) implies before[k].handle
        != handle by {
        if before[k].handle == handle {
            lemma_holder(before, k);
        }
    }
    assert forall|k1: Seq<char>, k2: Seq<char>|
        after.contains_key(k1) && after.contains_key(k2) && #[trigger] after[k1].handle
            == #[trigger] after[k2].handle implies k1 == k2 by {
        if k1 != key && k2 != key {
            assert(rest.contains_key(k1) && rest.contains_key(k2));
            assert(before[k1].handle == before[k2].handle);
        } else if k1 != key {
            assert(rest.contains_key(k1));
        } else if k2 != key {
            assert(rest.contains_key(k2));
        }
    }
    lemma_holder(after, key);
}

/// Scheduling twice in succession under one key leaves that key exactly one
/// job, the second. Whatever the table held and whatever handles the engine
/// gave, both requests are granted; the second handle is the only one that
/// the key owns; a report of it releases the second action; and whatever a
/// report releases under the key is the second action, never the first.
pub proof fn law_reschedule_replaces<A>(
    before: Map<Seq<char>, JobView<A>>,
    key: Seq<char>,
    schedule1: Seq<char>,
    handle1: JobHandle,
    run1: A,
    schedule2: Seq<char>,
    handle2: JobHandle,
    run2: A,
)
    requires
        valid_table(before),
    ensures
        ({
            let once = scheduled(before, key, schedule1, handle1, run1);
            let twice = scheduled(once, key, schedule2, handle2, run2);
            &&& schedule_outcome(before, key, Ok(handle1)) is Ok
            &&& schedule_outcome(once, key, Ok(handle2)) == Ok::<Option<JobHandle>, SchedulerError>(
                Some(handle1),
            )
            &&& valid_table(twice)
            &&& twice[key] == (JobView { schedule: schedule2, handle: handle2, run: Some(run2) })
            &&& job_state(twice, key) == JobState::Scheduled
            &&& forall|h: JobHandle| holder(twice, h) == Some(key) <==> h == handle2
            &&& released(twice, handle2) == Some(run2)
            &&& handle1 != handle2 ==> released(twice, handle1) is None
            &&& forall|h: JobHandle| holder(twice, h) == Some(key) ==> released(twice, h) == Some(run2)
        }),
{
    let once = scheduled(before, key, schedule1, handle1, run1);
    let twice = scheduled(once, key, schedule2, handle2, run2);
    lemma_scheduled_valid(before, key, schedule1, handle1, run1);
    lemma_scheduled_valid(once, key, schedule2, handle2, run2);
    assert forall|h: JobHandle| holder(twice, h) == Some(key) implies h == handle2 by {
        let k = choose|k: Seq<char>| twice.contains_key(k) && #[trigger] twice[k].handle == h;
        assert(twice[key].handle == handle2);
    }
    if handle1 != handle2 {
        if exists|k: Seq<char>| twice.contains_key(k) && #[trigger] twice[k].handle == handle1 {
            let k = choose|k: Seq<char>| twice.contains_key(k) && #[trigger] twice[k].handle == handle1;
            assert(k != key);
            assert(once.contains_key(k) && once[k].handle == handle1);
            assert(once[key].handle == handle1);
        }
    }
}

/// Jobs under different keys come due independently. With a job under
/// `key1` and another under `key2` in the table, a report of the second
/// handle releases the action of the second job and no other; the first job
/// is as it was, and a later report of its handle releases its action.
pub proof fn law_jobs_fire_independently<A>(
    table: Map<Seq<char>, JobView<A>>,
    key1: Seq<char>,
    key2: Seq<char>,
)
    requires
        valid_table(table),
        table.contains_key(key1),
        table.contains_key(key2),
        key1 != key2,
    ensures
        ({
            let after = after_fire(table, table[key2].handle);
            &&& table[key1].handle != table[key2].handle
            &&& released(table, table[key2].handle) == table[key2].run
            &&& after == table.insert(key2, fired(table[key2]))
            &&& after[key1] == table[key1]
            &&& valid_table(after)
            &&& released(after, table[key1].handle) == table[key1].run
            &&& released(after, table[key2].handle) is None
        }),
{
    let h1 = table[key1].handle;
    let h2 = table[key2].handle;
    lemma_holder(table, key1);
    lemma_holder(table, key2);
    let after = after_fire(table, h2);
    assert(after.dom() =~= table.dom());
    assert forall|k1: Seq<char>, k2: Seq<char>|
        after.contains_key(k1) && after.contains_key(k2) && #[trigger] after[k1].handle
            == #[trigger] after[k2].handle implies k1 == k2 by {
        assert(table[k1].handle == table[k2].handle);
    }
    lemma_holder(after, key1);
    lemma_holder(after, key2);
}

/// The life of a key. Scheduling puts it in the state `Scheduled`, from any
/// state; the report of its handle takes it from `Scheduled` to `Fired` and
/// releases its action; `Fired` is final under reports, which release
/// nothing more and change nothing; cancelling takes it to `Absent`, where
/// its old handle releases nothing.
pub proof fn law_key_states<A>(
    table: Map<Seq<char>, JobView<A>>,
    key: Seq<char>,
    schedule: Seq<char>,
    handle: JobHandle,
    run: A,
)
    requires
        valid_table(table),
    ensures
        ({
            let scheduled = scheduled(table, key, schedule, handle, run);
            let fired = after_fire(scheduled, handle);
            let cancelled = scheduled.remove(key);
            &&& job_state(scheduled, key) == JobState::Scheduled
            &&& released(scheduled, handle) == Some(run)
            &&& job_state(fired, key) == JobState::Fired
            &&& valid_table(fired)
            &&& released(fired, handle) is None
            &&& after_fire(fired, handle) == fired
            &&& job_state(cancelled, key) == JobState::Absent
            &&& released(cancelled, handle) is None
            &&& job_state(fired.remove(key), key) == JobState::Absent
        }),
{
    let scheduled = scheduled(table, key, schedule, handle, run);
    lemma_scheduled_valid(table, key, schedule, handle, run);
    let fired = after_fire(scheduled, handle);
    assert(fired.dom() =~= scheduled.dom());
    assert forall|k1: Seq<char>, k2: Seq<char>|
        fired.contains_key(k1) && fired.contains_key(k2) && #[trigger] fired[k1].handle
            == #[trigger] fired[k2].handle implies k1 == k2 by {
        assert(scheduled[k1].handle == scheduled[k2].handle);
    }
    lemma_holder(fired, key);
    assert(after_fire(fired, handle) =~= fired);
    let cancelled = scheduled.remove(key);
    if exists|k: Seq<char>| cancelled.contains_key(k) && #[trigger] cancelled[k].handle == handle {
        let k = choose|k: Seq<char>| cancelled.contains_key(k) && #[trigger] cancelled[k].handle == handle;
        assert(scheduled[k].handle == scheduled[key].handle);
    }
}

/// In a valid table, the holder of a job's handle is the job's key.
pub proof fn lemma_holder<A>(table: Map<Seq<char>, JobView<A>>, key: Seq<char>)
    requires
        handles_distinct(table),
        table.contains_key(key),
    ensures
        holder(table, table[key].handle) == Some(key),
{
    let h = table[key].handle;
    assert(table.contains_key(key) && table[key].handle == h);
    let k = choose|k: Seq<char>| table.contains_key(k) && #[trigger] table[k].handle == h;
    assert(table[k].handle == table[key].handle);
}

/// Among distinct jobs, the one at `i` is the only one with its handle.
proof fn lemma_only_owner<A>(jobs: Seq<ScheduledJob<A>>, i: int)
    requires
        distinct(jobs),
        0 <= i < jobs.len(),
    ensures
        forall|x: int|
            0 <= x < jobs.len() && x != i ==> #[trigger] handle_at(jobs, x) != handle_at(jobs, i),
{
    assert forall|x: int| 0 <= x < jobs.len() && x != i implies #[trigger] handle_at(jobs, x)
        != handle_at(jobs, i) by {
        if x < i {
            assert(handle_at(jobs, x) != handle_at(jobs, i));
        } else {
            assert(handle_at(jobs, i) != handle_at(jobs, x));
        }
    }
}

proof fn lemma_removed_handles<A>(jobs: Seq<ScheduledJob<A>>, i: int, handle: JobHandle)
    requires
        distinct(jobs),
        0 <= i < jobs.len(),
        forall|j: int| 0 <= j < jobs.len() && j != i ==> #[trigger] handle_at(jobs, j) != handle,
    ensures
        forall|j: int|
            0 <= j < jobs.remove(i).len() ==> #[trigger] handle_at(jobs.remove(i), j) != handle,
{
    let rest = jobs.remove(i);
    assert forall|j: int| 0 <= j < rest.len() implies #[trigger] handle_at(rest, j) != handle by {
        let j0 = if j < i { j } else { j + 1 };
        assert(handle_at(rest, j) == handle_at(jobs, j0));
    }
}

proof fn lemma_table_finite<A>(jobs: Seq<ScheduledJob<A>>)
    requires
        distinct(jobs),
    ensures
        table(jobs).dom().finite(),
        table(jobs).dom().len() == jobs.len(),
    decreases jobs.len(),
{
    if jobs.len() == 0 {
        assert(table(jobs).dom() =~= Set::<Seq<char>>::empty());
    } else {
        let i = jobs.len() - 1;
        lemma_table_at(jobs, i);
        lemma_table_remove(jobs, i);
        lemma_table_finite(jobs.remove(i));
        let k = key_at(jobs, i);
        assert(table(jobs).dom() =~= table(jobs.remove(i)).dom().insert(k));
    }
}

} // verus!

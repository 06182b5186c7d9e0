//! Batched tracking of job events (views and search appearances).
//!
//! Events are aggregated in memory per job and day, and flushed to the
//! database either periodically or when the tracker is asked to stop. The
//! waiting, the channels and the database writes are driven from outside the
//! library; the decisions they take are made here:
//! [`aggregator_step`] decides what the aggregator does with each input and
//! [`plan_flush`] decides what the flusher writes.

use vstd::prelude::*;

use crate::tally::{
    count_of, lemma_count_after, lemma_occurrences_contains, lemma_occurrences_single, occurrences,
    prepare_batch_data,
    rows_match, rows_sorted, tally_after, tally_fits, JobId, Tally, TallyKey, Total,
};

verus! {

/// Format used to represent the day of an event, e.g. "2024-06-01".
pub const DATE_FORMAT: &'static str = "[year]-[month]-[day]";

/// Declares `time::OffsetDateTime` to the verifier; values are carried, never inspected.
#[verifier::external_type_specification]
#[verifier::external_body]
pub struct ExOffsetDateTime(time::OffsetDateTime);

/// Calls `time::OffsetDateTime::now_utc`, the current date and time in UTC.
/// It depends on the clock, so nothing is claimed of it.
#[verifier::external_body]
fn now_utc() -> time::OffsetDateTime {
    time::OffsetDateTime::now_utc()
}

/// Why the current day could not be rendered.
#[derive(Debug, Clone, Copy, PartialEq, Eq)]
pub enum DayError {
    /// The day format description was rejected.
    InvalidFormat,
    /// The current date could not be rendered with it.
    FormatFailed,
}

/// Whether `time::format_description::parse` accepts a format description
/// (the crate's format description grammar).
pub uninterp spec fn format_description_parses(description: Seq<char>) -> bool;

/// A decimal digit.
pub open spec fn is_digit(c: char) -> bool {
    '0' <= c && c <= '9'
}

/// The number written by two decimal digits.
pub open spec fn two_digits(a: char, b: char) -> int {
    (a as int - '0' as int) * 10 + (b as int - '0' as int)
}

/// A date as `[year]-[month]-[day]` renders it: the year's sign when it is
/// negative, its four digits, `-`, the month (`01` to `12`), `-` and the day
/// of the month (`01` to `31`), e.g. "2024-06-01".
pub open spec fn day_text(s: Seq<char>) -> bool {
    let d = if s.len() == 11 && s[0] == '-' {
        s.drop_first()
    } else {
        s
    };
    &&& d.len() == 10
    &&& is_digit(d[0]) && is_digit(d[1]) && is_digit(d[2]) && is_digit(d[3])
    &&& d[4] == '-' && d[7] == '-'
    &&& is_digit(d[5]) && is_digit(d[6]) && is_digit(d[8]) && is_digit(d[9])
    &&& 1 <= two_digits(d[5], d[6]) <= 12
    &&& 1 <= two_digits(d[8], d[9]) <= 31
}

/// Calls `time::format_description::parse` on `description` and, when it
/// parses, `time::OffsetDateTime::format` with the items it gave. Claims that
/// the description is rejected exactly when it does not parse, and that the
/// description `[year]-[month]-[day]` always parses and always formats, into a
/// day as [`day_text`] describes: its components default to zero padding,
/// the year carries a sign only when negative and has four digits (years
/// stay within ±9999 without the crate's `large-dates` feature), and writing
/// into a `String` cannot fail. The date rendered depends on `moment` and is
/// not named.
#[verifier::external_body]
#[allow(deprecated)]
fn format_date_time(moment: time::OffsetDateTime, description: &str) -> (r: Result<
    String,
    DayError,
>)
    ensures
        r matches Err(DayError::InvalidFormat) <==> !format_description_parses(description@),
        r is Ok <== description@ == "[year]-[month]-[day]"@,
        r matches Ok(day) ==> (description@ == "[year]-[month]-[day]"@ ==> day_text(day@)),
{
    let items = match time::format_description::parse(description) {
        Ok(items) => items,
        Err(_) => return Err(DayError::InvalidFormat),
    };
    match moment.format(&items) {
        Ok(day) => Ok(day),
        Err(_) => Err(DayError::FormatFailed),
    }
}

/// The current day in UTC, rendered with [`DATE_FORMAT`] (e.g. "2024-06-01").
/// It depends on the clock, so no contract states which day it is; it always
/// succeeds, with a day in `[year]-[month]-[day]` form.
pub fn current_day() -> (r: Result<String, DayError>)
    ensures
        r matches Ok(day) && day_text(day@),
{
    format_date_time(now_utc(), DATE_FORMAT)
}

/// Represents different types of events that can be tracked.
#[derive(Debug, Clone, PartialEq, Eq)]
pub enum Event {
    /// A single job view event.
    JobView { job_id: JobId },
    /// Multiple jobs appearing in search results.
    SearchAppearances { job_ids: Vec<JobId> },
}

/// Container for batches of aggregated events, separated by event type.
#[derive(Debug)]
pub struct Batches {
    /// Aggregated job view events.
    pub job_views: Tally,
    /// Aggregated search appearance events.
    pub search_appearances: Tally,
}

/// Recording `event` on `day` keeps every counter within its type.
pub open spec fn event_fits(batches: Batches, event: Event, day: Seq<char>) -> bool {
    match event {
        Event::JobView { job_id } => count_of(batches.job_views@, (job_id, day)) < u32::MAX,
        Event::SearchAppearances { job_ids } => tally_fits(
            batches.search_appearances@,
            job_ids@,
            day,
        ),
    }
}

/// The batches after recording `event` on `day`: a job view adds one to the
/// job's view counter for the day; a search appearance adds one to the
/// appearance counter of each job listed (as many times as it is listed).
pub open spec fn recorded(
    old: Batches,
    new: Batches,
    event: Event,
    day: Seq<char>,
) -> bool {
    match event {
        Event::JobView { job_id } => {
            &&& new.job_views@ == tally_after(old.job_views@, seq![job_id], day)
            &&& new.search_appearances@ == old.search_appearances@
        },
        Event::SearchAppearances { job_ids } => {
            &&& new.job_views@ == old.job_views@
            &&& new.search_appearances@ == tally_after(old.search_appearances@, job_ids@, day)
        },
    }
}

/// Both batches hold the same counters.
pub open spec fn same_counters(a: Batches, b: Batches) -> bool {
    a.job_views@ == b.job_views@ && a.search_appearances@ == b.search_appearances@
}

impl Batches {
    /// Creates a new empty Batches container.
    pub fn new() -> (b: Self)
        ensures
            b.job_views@ == Map::<(JobId, Seq<char>), Total>::empty(),
            b.search_appearances@ == Map::<(JobId, Seq<char>), Total>::empty(),
    {
        Batches { job_views: Tally::new(), search_appearances: Tally::new() }
    }

    /// Returns true if both containers are empty.
    pub fn is_empty(&self) -> (r: bool)
        ensures
            r == (self.job_views@.len() == 0 && self.search_appearances@.len() == 0),
    {
        self.job_views.is_empty() && self.search_appearances.is_empty()
    }

    /// Clears both containers.
    pub fn clear(&mut self)
        ensures
            final(self).job_views@ == Map::<(JobId, Seq<char>), Total>::empty(),
            final(self).search_appearances@ == Map::<(JobId, Seq<char>), Total>::empty(),
    {
        self.job_views.clear();
        self.search_appearances.clear();
    }

    /// A copy of both containers.
    pub fn duplicate(&self) -> (b: Self)
        ensures
            same_counters(b, *self),
    {
        Batches {
            job_views: self.job_views.duplicate(),
            search_appearances: self.search_appearances.duplicate(),
        }
    }

    /// Whether recording `event` on `day` keeps every counter within its type.
    pub fn can_record(&self, event: &Event, day: &String) -> (r: bool)
        ensures
            r == event_fits(*self, *event, day@),
    {
        match event {
            Event::JobView { job_id } => self.job_views.get(*job_id, day) < u32::MAX,
            Event::SearchAppearances { job_ids } => tally_can_take(
                &self.search_appearances,
                job_ids,
                day,
            ),
        }
    }

    /// Aggregates one event that happened on `day`.
    pub fn record(&mut self, event: &Event, day: &String)
        requires
            event_fits(*old(self), *event, day@),
        ensures
            recorded(*old(self), *final(self), *event, day@),
    {
        match event {
            Event::JobView { job_id } => {
                self.job_views.add(*job_id, day);
            },
            Event::SearchAppearances { job_ids } => {
                self.search_appearances.add_all(job_ids, day);
            },
        }
    }
}

/// Number of times `id` occurs in `ids`.
fn count_occurrences(ids: &Vec<JobId>, id: JobId) -> (n: u64)
    ensures
        n == crate::tally::occurrences(ids@, id),
{
    let len = ids.len();
    let mut n: u64 = 0;
    let mut i: usize = 0;
    while i < len
        invariant
            len == ids@.len(),
            i <= len,
            n == crate::tally::occurrences(ids@.take(i as int), id),
            n <= i,
        decreases len - i,
    {
        assert(ids@.take(i + 1).drop_last() =~= ids@.take(i as int));
        if ids[i] == id {
            n = n + 1;
        }
        i = i + 1;
    }
    assert(ids@.take(len as int) =~= ids@);
    n
}

/// Whether counting one event per entry of `job_ids` on `day` keeps every
/// counter of `tally` within its type.
fn tally_can_take(tally: &Tally, job_ids: &Vec<JobId>, day: &String) -> (r: bool)
    ensures
        r == tally_fits(tally@, job_ids@, day@),
{
    let len = job_ids.len();
    let mut i: usize = 0;
    while i < len
        invariant
            len == job_ids@.len(),
            i <= len,
            forall|j: int|
                0 <= j < i ==> count_of(tally@, (#[trigger] job_ids@[j], day@))
                    + crate::tally::occurrences(job_ids@, job_ids@[j]) <= u32::MAX,
        decreases len - i,
    {
        let id = job_ids[i];
        let current = tally.get(id, day) as u64;
        let extra = count_occurrences(job_ids, id);
        if extra > u32::MAX as u64 || current + extra > u32::MAX as u64 {
            assert(job_ids@.contains(id));
            return false;
        }
        i = i + 1;
    }
    assert forall|id: JobId| job_ids@.contains(id) implies count_of(tally@, (id, day@))
        + crate::tally::occurrences(job_ids@, id) <= u32::MAX by {
        let j = choose|j: int| 0 <= j < job_ids@.len() && job_ids@[j] == id;
        assert(count_of(tally@, (job_ids@[j], day@)) + crate::tally::occurrences(
            job_ids@,
            job_ids@[j],
        ) <= u32::MAX);
    }
    true
}

/// What the aggregator worker can be woken up by.
#[derive(Debug)]
pub enum AggregatorInput {
    /// The periodic flush interval elapsed.
    Tick,
    /// An event arrived; `day` is the day it was received on.
    Track { event: Event, day: String },
    /// The aggregator has been asked to stop.
    Cancelled,
}

/// What the aggregator worker must do after handling an input.
#[derive(Debug)]
pub enum AggregatorAction {
    /// Nothing to do; wait for the next input.
    Wait,
    /// Send this batch to the flusher, then report with [`flush_sent`] whether
    /// it was delivered.
    Flush(Batches),
    /// Send this last batch to the flusher and stop.
    FlushAndStop(Batches),
    /// Stop; there is nothing left to flush.
    Stop,
}

/// Handles one input of the aggregator worker, updating the pending batches
/// and deciding what to do next.
///
/// On a tick a copy of the pending batches is flushed when there is any event
/// pending (they are cleared only once the flusher got them, see
/// [`flush_sent`]); each event is aggregated; when asked to stop, whatever is
/// pending is flushed one last time.
pub fn aggregator_step(batches: &mut Batches, input: AggregatorInput) -> (action: AggregatorAction)
    requires
        input matches AggregatorInput::Track { event, day } ==> event_fits(*old(batches), event, day@),
    ensures
        match input {
            AggregatorInput::Tick => {
                &&& same_counters(*final(batches), *old(batches))
                &&& if old(batches).is_empty_spec() {
                    action is Wait
                } else {
                    action matches AggregatorAction::Flush(b) && same_counters(b, *old(batches))
                }
            },
            AggregatorInput::Track { event, day } => {
                &&& recorded(*old(batches), *final(batches), event, day@)
                &&& action is Wait
            },
            AggregatorInput::Cancelled => {
                &&& same_counters(*final(batches), *old(batches))
                &&& if old(batches).is_empty_spec() {
                    action is Stop
                } else {
                    action matches AggregatorAction::FlushAndStop(b) && same_counters(
                        b,
                        *old(batches),
                    )
                }
            },
        },
{
    match input {
        AggregatorInput::Tick => {
            if batches.is_empty() {
                AggregatorAction::Wait
            } else {
                AggregatorAction::Flush(batches.duplicate())
            }
        },
        AggregatorInput::Track { event, day } => {
            batches.record(&event, &day);
            AggregatorAction::Wait
        },
        AggregatorInput::Cancelled => {
            if batches.is_empty() {
                AggregatorAction::Stop
            } else {
                AggregatorAction::FlushAndStop(batches.duplicate())
            }
        },
    }
}

/// Reports whether the batch handed to the flusher on a tick was delivered:
/// once it was, the pending batches start again from empty; otherwise they are
/// kept and flushed on a later tick.
pub fn flush_sent(batches: &mut Batches, delivered: bool)
    ensures
        delivered ==> final(batches).job_views@.len() == 0,
        delivered ==> final(batches).search_appearances@.len() == 0,
        delivered ==> final(batches).job_views@ == Map::<(JobId, Seq<char>), Total>::empty()
            && final(batches).search_appearances@ == Map::<(JobId, Seq<char>), Total>::empty(),
        !delivered ==> same_counters(*final(batches), *old(batches)),
{
    if delivered {
        batches.clear();
    }
}

/// An event can be recorded exactly when recording it keeps every counter
/// within `Total` (`u32`): a job view when that job's view count for the day
/// is below `u32::MAX`; a search appearance when every job's appearance count
/// for the day, plus the times the search lists it, stays at most
/// `u32::MAX`.
pub proof fn law_event_fits_exactly_without_overflow(b: Batches, e: Event, day: Seq<char>)
    ensures
        event_fits(b, e, day) <==> match e {
            Event::JobView { job_id } => forall|k: TallyKey|
                #![trigger count_of(b.job_views@, k)]
                count_of(b.job_views@, k) + (if k == (job_id, day) {
                    1int
                } else {
                    0int
                }) <= u32::MAX,
            Event::SearchAppearances { job_ids } => forall|k: TallyKey|
                #![trigger count_of(b.search_appearances@, k)]
                count_of(b.search_appearances@, k) + (if k.1 == day {
                    occurrences(job_ids@, k.0) as int
                } else {
                    0int
                }) <= u32::MAX,
        },
{
    match e {
        Event::JobView { job_id } => {
            let m = b.job_views@;
            if event_fits(b, e, day) {
                assert forall|k: TallyKey| #[trigger] count_of(m, k) + (if k == (job_id, day) {
                    1int
                } else {
                    0int
                }) <= u32::MAX by {
                    if m.contains_key(k) {
                        assert(m[k] <= u32::MAX);
                    }
                }
            } else {
                assert(count_of(m, (job_id, day)) + 1 > u32::MAX);
            }
        },
        Event::SearchAppearances { job_ids } => {
            let m = b.search_appearances@;
            let ids = job_ids@;
            if event_fits(b, e, day) {
                assert forall|k: TallyKey| #[trigger] count_of(m, k) + (if k.1 == day {
                    occurrences(ids, k.0) as int
                } else {
                    0int
                }) <= u32::MAX by {
                    if m.contains_key(k) {
                        assert(m[k] <= u32::MAX);
                    }
                    lemma_occurrences_contains(ids, k.0);
                    if k.1 == day && ids.contains(k.0) {
                        assert(k == (k.0, day));
                    }
                }
            } else {
                let id = choose|id: JobId|
                    ids.contains(id) && !(count_of(m, (id, day)) + occurrences(ids, id)
                        <= u32::MAX);
                assert(count_of(m, (id, day)) + occurrences(ids, id) > u32::MAX);
            }
        },
    }
}

/// Recording an event adds to each count the number of times the event
/// counts for it and leaves every other count alone: a job view adds one to
/// that job's views for the day; a search appearance adds to each job's
/// appearances for the day the number of times the search lists it.
pub proof fn law_record_counts(old: Batches, new: Batches, e: Event, day: Seq<char>, k: TallyKey)
    requires
        event_fits(old, e, day),
        recorded(old, new, e, day),
    ensures
        match e {
            Event::JobView { job_id } => {
                &&& count_of(new.job_views@, k) == count_of(old.job_views@, k) + if k == (
                    job_id,
                    day,
                ) {
                    1int
                } else {
                    0int
                }
                &&& count_of(new.search_appearances@, k) == count_of(old.search_appearances@, k)
            },
            Event::SearchAppearances { job_ids } => {
                &&& count_of(new.job_views@, k) == count_of(old.job_views@, k)
                &&& count_of(new.search_appearances@, k) == count_of(old.search_appearances@, k)
                    + if k.1 == day {
                    occurrences(job_ids@, k.0) as int
                } else {
                    0int
                }
            },
        },
{
    match e {
        Event::JobView { job_id } => {
            lemma_occurrences_single(job_id, k.0);
            assert forall|id: JobId| seq![job_id].contains(id) implies count_of(
                old.job_views@,
                (id, day),
            ) + occurrences(seq![job_id], id) <= u32::MAX by {
                assert(seq![job_id][0] == job_id);
                lemma_occurrences_single(job_id, id);
            }
            lemma_count_after(old.job_views@, seq![job_id], day, k);
        },
        Event::SearchAppearances { job_ids } => {
            lemma_count_after(old.search_appearances@, job_ids@, day, k);
        },
    }
}

/// A periodic flush neither loses nor duplicates events: for every job and
/// day, what a tick hands to the flusher (when the flusher took it) plus what
/// is still pending afterwards is what was pending before the tick.
pub proof fn law_tick_conserves_events(
    before: Batches,
    flushed: Batches,
    after: Batches,
    delivered: bool,
    key: TallyKey,
)
    requires
        same_counters(flushed, before),
        delivered ==> after.job_views@ == Map::<TallyKey, Total>::empty()
            && after.search_appearances@ == Map::<TallyKey, Total>::empty(),
        !delivered ==> same_counters(after, before),
    ensures
        (if delivered {
            count_of(flushed.job_views@, key)
        } else {
            0
        }) + count_of(after.job_views@, key) == count_of(before.job_views@, key),
        (if delivered {
            count_of(flushed.search_appearances@, key)
        } else {
            0
        }) + count_of(after.search_appearances@, key) == count_of(
            before.search_appearances@,
            key,
        ),
{
}

/// One step of the aggregator worker when every batch handed to the flusher
/// is delivered, as [`aggregator_step`] and, after a flush on a tick,
/// [`flush_sent`] leave it: `sent` is the batch handed to the flusher at this
/// step, if any, and `after` the batches pending afterwards.
pub open spec fn aggregator_moves(
    before: Batches,
    input: AggregatorInput,
    sent: Option<Batches>,
    after: Batches,
) -> bool {
    match input {
        AggregatorInput::Tick => if before.is_empty_spec() {
            sent is None && same_counters(after, before)
        } else {
            &&& sent matches Some(b) && same_counters(b, before)
            &&& after.job_views@ == Map::<TallyKey, Total>::empty()
            &&& after.search_appearances@ == Map::<TallyKey, Total>::empty()
        },
        AggregatorInput::Track { event, day } => {
            &&& event_fits(before, event, day@)
            &&& recorded(before, after, event, day@)
            &&& sent is None
        },
        AggregatorInput::Cancelled => if before.is_empty_spec() {
            sent is None
        } else {
            sent matches Some(b) && same_counters(b, before)
        },
    }
}

/// Job views counted for `key` by the events tracked among `inputs`.
pub open spec fn tracked_views(inputs: Seq<AggregatorInput>, key: TallyKey) -> int
    decreases inputs.len(),
{
    if inputs.len() == 0 {
        0
    } else {
        tracked_views(inputs.drop_last(), key) + match inputs.last() {
            AggregatorInput::Track { event: Event::JobView { job_id }, day } => if job_id == key.0
                && day@ == key.1 {
                1int
            } else {
                0int
            },
            _ => 0int,
        }
    }
}

/// Search appearances counted for `key` by the events tracked among `inputs`
/// (a job listed twice in one search counts twice).
pub open spec fn tracked_appearances(inputs: Seq<AggregatorInput>, key: TallyKey) -> int
    decreases inputs.len(),
{
    if inputs.len() == 0 {
        0
    } else {
        tracked_appearances(inputs.drop_last(), key) + match inputs.last() {
            AggregatorInput::Track { event: Event::SearchAppearances { job_ids }, day } => if day@
                == key.1 {
                occurrences(job_ids@, key.0) as int
            } else {
                0int
            },
            _ => 0int,
        }
    }
}

/// Job views for `key` summed over the batches handed to the flusher.
pub open spec fn sent_views(sent: Seq<Option<Batches>>, key: TallyKey) -> int
    decreases sent.len(),
{
    if sent.len() == 0 {
        0
    } else {
        sent_views(sent.drop_last(), key) + match sent.last() {
            Some(b) => count_of(b.job_views@, key),
            None => 0int,
        }
    }
}

/// Search appearances for `key` summed over the batches handed to the
/// flusher.
pub open spec fn sent_appearances(sent: Seq<Option<Batches>>, key: TallyKey) -> int
    decreases sent.len(),
{
    if sent.len() == 0 {
        0
    } else {
        sent_appearances(sent.drop_last(), key) + match sent.last() {
            Some(b) => count_of(b.search_appearances@, key),
            None => 0int,
        }
    }
}

/// The pending counters of a valid `Batches` are finite maps.
pub open spec fn batches_finite(b: Batches) -> bool {
    b.job_views@.dom().finite() && b.search_appearances@.dom().finite()
}

/// Over a run that starts empty and tracks events until it is stopped, with
/// every step as the aggregator takes it: what is sent or still pending
/// after the first `n` steps is what those steps tracked.
proof fn lemma_run_prefix(
    inputs: Seq<AggregatorInput>,
    states: Seq<Batches>,
    sent: Seq<Option<Batches>>,
    key: TallyKey,
    n: int,
)
    requires
        0 <= n < inputs.len(),
        states.len() == inputs.len() + 1,
        sent.len() == inputs.len(),
        states[0].job_views@ == Map::<TallyKey, Total>::empty(),
        states[0].search_appearances@ == Map::<TallyKey, Total>::empty(),
        forall|i: int|
            0 <= i < inputs.len() ==> aggregator_moves(
                states[i],
                #[trigger] inputs[i],
                sent[i],
                states[i + 1],
            ),
        forall|i: int| 0 <= i < inputs.len() - 1 ==> !(#[trigger] inputs[i] is Cancelled),
        forall|i: int| 0 <= i < states.len() ==> batches_finite(#[trigger] states[i]),
    ensures
        sent_views(sent.take(n), key) + count_of(states[n].job_views@, key) == tracked_views(
            inputs.take(n),
            key,
        ),
        sent_appearances(sent.take(n), key) + count_of(states[n].search_appearances@, key)
            == tracked_appearances(inputs.take(n), key),
    decreases n,
{
    if n > 0 {
        let p = n - 1;
        lemma_run_prefix(inputs, states, sent, key, p);
        assert(inputs.take(n).drop_last() =~= inputs.take(p));
        assert(sent.take(n).drop_last() =~= sent.take(p));
        assert(inputs.take(n).last() == inputs[p]);
        assert(sent.take(n).last() == sent[p]);
        let before = states[p];
        let after = states[n];
        assert(aggregator_moves(before, inputs[p], sent[p], after));
        assert(batches_finite(before));
        match inputs[p] {
            AggregatorInput::Tick => {
                if before.is_empty_spec() {
                    assert(before.job_views@.dom() =~= Set::<TallyKey>::empty());
                    assert(before.search_appearances@.dom() =~= Set::<TallyKey>::empty());
                }
            },
            AggregatorInput::Track { event, day } => {
                match event {
                    Event::JobView { job_id } => {
                        lemma_occurrences_single(job_id, key.0);
                        assert forall|id: JobId| seq![job_id].contains(id) implies count_of(
                            before.job_views@,
                            (id, day@),
                        ) + occurrences(seq![job_id], id) <= u32::MAX by {
                            assert(seq![job_id][0] == job_id);
                            lemma_occurrences_single(job_id, id);
                        }
                        lemma_count_after(before.job_views@, seq![job_id], day@, key);
                    },
                    Event::SearchAppearances { job_ids } => {
                        lemma_count_after(before.search_appearances@, job_ids@, day@, key);
                    },
                }
            },
            AggregatorInput::Cancelled => {},
        }
    }
}

/// Over a whole run of the aggregator worker (it starts with nothing pending,
/// handles ticks and tracked events, and is finally asked to stop), when
/// every batch handed to the flusher is delivered: for every job and day,
/// the job views and search appearances summed over all the batches handed
/// to the flusher are exactly those of the events tracked (a job listed
/// twice in one search counting twice), and no batch handed over is empty.
pub proof fn law_run_conserves_events(
    inputs: Seq<AggregatorInput>,
    states: Seq<Batches>,
    sent: Seq<Option<Batches>>,
    key: TallyKey,
)
    requires
        inputs.len() > 0,
        states.len() == inputs.len() + 1,
        sent.len() == inputs.len(),
        states[0].job_views@ == Map::<TallyKey, Total>::empty(),
        states[0].search_appearances@ == Map::<TallyKey, Total>::empty(),
        forall|i: int|
            0 <= i < inputs.len() ==> aggregator_moves(
                states[i],
                #[trigger] inputs[i],
                sent[i],
                states[i + 1],
            ),
        inputs.last() is Cancelled,
        forall|i: int| 0 <= i < inputs.len() - 1 ==> !(#[trigger] inputs[i] is Cancelled),
        forall|i: int| 0 <= i < states.len() ==> batches_finite(#[trigger] states[i]),
    ensures
        sent_views(sent, key) == tracked_views(inputs, key),
        sent_appearances(sent, key) == tracked_appearances(inputs, key),
        forall|i: int| 0 <= i < sent.len() && (#[trigger] sent[i]) is Some ==> !sent[i]->0.is_empty_spec(),
{
    let p = inputs.len() - 1;
    lemma_run_prefix(inputs, states, sent, key, p);
    assert(inputs.drop_last() =~= inputs.take(p));
    assert(sent.drop_last() =~= sent.take(p));
    assert(sent.last() == sent[p]);
    let before = states[p];
    assert(aggregator_moves(before, inputs[p], sent[p], states[p + 1]));
    assert(batches_finite(before));
    if before.is_empty_spec() {
        assert(before.job_views@.dom() =~= Set::<TallyKey>::empty());
        assert(before.search_appearances@.dom() =~= Set::<TallyKey>::empty());
    }
    assert forall|i: int| 0 <= i < sent.len() && (#[trigger] sent[i]) is Some implies !sent[
        i
    ]->0.is_empty_spec() by {
        assert(aggregator_moves(states[i], inputs[i], sent[i], states[i + 1]));
    }
}

impl Batches {
    /// Both containers are empty.
    pub open spec fn is_empty_spec(&self) -> bool {
        self.job_views@.len() == 0 && self.search_appearances@.len() == 0
    }
}

/// What the flusher writes to the database for one batch.
#[derive(Debug)]
pub struct FlushPlan {
    /// Rows for the job views table, when there is any.
    pub job_views: Option<Vec<(JobId, String, Total)>>,
    /// Rows for the search appearances table, when there is any.
    pub search_appearances: Option<Vec<(JobId, String, Total)>>,
}

/// Decides what the flusher writes for a batch: each kind of event is written
/// only when there is some, as rows sorted by job and day.
pub fn plan_flush(batches: &Batches) -> (plan: FlushPlan)
    ensures
        plan.job_views is Some <==> batches.job_views@.len() > 0,
        plan.search_appearances is Some <==> batches.search_appearances@.len() > 0,
        plan.job_views matches Some(rows) ==> rows_sorted(rows@) && rows_match(
            rows@,
            batches.job_views@,
        ),
        plan.search_appearances matches Some(rows) ==> rows_sorted(rows@) && rows_match(
            rows@,
            batches.search_appearances@,
        ),
{
    let job_views = if !batches.job_views.is_empty() {
        Some(prepare_batch_data(&batches.job_views))
    } else {
        None
    };
    let search_appearances = if !batches.search_appearances.is_empty() {
        Some(prepare_batch_data(&batches.search_appearances))
    } else {
        None
    };
    FlushPlan { job_views, search_appearances }
}

} // verus!

//! Per-job, per-day event counters.
//!
//! A `Tally` maps a `(job id, day)` key to the number of events seen for that
//! job on that day. It is the in-memory aggregate the event tracker keeps
//! between two flushes to the database.

use vstd::prelude::*;

use crate::text::{lemma_text_lt_total, lemma_text_lt_transitive, text_less, text_lt};

verus! {

/// A job's unique identifier (the 128-bit value of its UUID).
pub type JobId = u128;

/// Number of events for a job on a given day.
pub type Total = u32;

/// Key of a counter: a job and a day (`YYYY-MM-DD`).
pub type TallyKey = (JobId, Seq<char>);

/// One counter of a tally.
#[derive(Debug)]
pub struct TallyEntry {
    pub job_id: JobId,
    pub day: String,
    pub total: Total,
}

/// The key an entry counts for.
pub open spec fn entry_key(e: TallyEntry) -> TallyKey {
    (e.job_id, e.day@)
}

/// No two entries count for the same key.
pub open spec fn keys_unique(s: Seq<TallyEntry>) -> bool {
    forall|i: int, j: int|
        0 <= i < s.len() && 0 <= j < s.len() && i != j ==> entry_key(s[i]) != entry_key(s[j])
}

/// The counters held by a sequence of entries.
pub open spec fn entries_map(s: Seq<TallyEntry>) -> Map<TallyKey, Total>
    decreases s.len(),
{
    if s.len() == 0 {
        Map::empty()
    } else {
        entries_map(s.drop_last()).insert(entry_key(s.last()), s.last().total)
    }
}

/// The count held for `k`, zero when there is none.
pub open spec fn count_of(m: Map<TallyKey, Total>, k: TallyKey) -> int {
    if m.contains_key(k) {
        m[k] as int
    } else {
        0
    }
}

/// Number of times `id` occurs in `ids`.
pub open spec fn occurrences(ids: Seq<JobId>, id: JobId) -> nat
    decreases ids.len(),
{
    if ids.len() == 0 {
        0
    } else {
        occurrences(ids.drop_last(), id) + if ids.last() == id {
            1nat
        } else {
            0nat
        }
    }
}

/// The counters after one event for each entry of `ids` on `day`: every job's
/// counter for that day grows by the number of times the job occurs in `ids`;
/// every other counter stays as it was.
pub open spec fn tally_after(m: Map<TallyKey, Total>, ids: Seq<JobId>, day: Seq<char>) -> Map<
    TallyKey,
    Total,
> {
    Map::new(
        |k: TallyKey| m.contains_key(k) || (k.1 == day && ids.contains(k.0)),
        |k: TallyKey|
            (count_of(m, k) + if k.1 == day {
                occurrences(ids, k.0) as int
            } else {
                0int
            }) as Total,
    )
}

/// Counting the events in `ids` on `day` keeps every counter within `Total`.
pub open spec fn tally_fits(m: Map<TallyKey, Total>, ids: Seq<JobId>, day: Seq<char>) -> bool {
    forall|id: JobId| ids.contains(id) ==> count_of(m, (id, day)) + occurrences(ids, id) <= u32::MAX
}

/// Strict order of counter keys: by job id, then by day as text.
pub open spec fn key_lt(a: TallyKey, b: TallyKey) -> bool {
    a.0 < b.0 || (a.0 == b.0 && text_lt(a.1, b.1))
}

/// The key a database row counts for.
pub open spec fn row_key(r: (JobId, String, Total)) -> TallyKey {
    (r.0, r.1@)
}

/// Rows strictly ascending by key.
pub open spec fn rows_sorted(rows: Seq<(JobId, String, Total)>) -> bool {
    forall|i: int, j: int| 0 <= i < j < rows.len() ==> key_lt(row_key(rows[i]), row_key(rows[j]))
}

/// Rows that hold exactly the counters of `m`: one row per counter, with its
/// total.
pub open spec fn rows_match(rows: Seq<(JobId, String, Total)>, m: Map<TallyKey, Total>) -> bool {
    &&& rows.len() == m.len()
    &&& forall|i: int|
        0 <= i < rows.len() ==> m.contains_key(#[trigger] row_key(rows[i])) && m[row_key(rows[i])]
            == rows[i].2
    &&& forall|k: TallyKey|
        m.contains_key(k) ==> exists|i: int| 0 <= i < rows.len() && #[trigger] row_key(rows[i]) == k
}

// Lemmas on the representation.

proof fn lemma_entries_map_dom(s: Seq<TallyEntry>, k: TallyKey)
    ensures
        entries_map(s).contains_key(k) <==> exists|i: int|
            0 <= i < s.len() && #[trigger] entry_key(s[i]) == k,
    decreases s.len(),
{
    if s.len() > 0 {
        lemma_entries_map_dom(s.drop_last(), k);
        if entries_map(s.drop_last()).contains_key(k) {
            let i = choose|i: int| 0 <= i < s.drop_last().len() && entry_key(s.drop_last()[i]) == k;
            assert(entry_key(s[i]) == k);
        }
        if entry_key(s.last()) == k {
            assert(entry_key(s[s.len() - 1]) == k);
        }
        if exists|i: int| 0 <= i < s.len() && #[trigger] entry_key(s[i]) == k {
            let i = choose|i: int| 0 <= i < s.len() && #[trigger] entry_key(s[i]) == k;
            if i < s.len() - 1 {
                assert(entry_key(s.drop_last()[i]) == k);
            }
        }
    }
}

proof fn lemma_entries_map_value(s: Seq<TallyEntry>, i: int)
    requires
        keys_unique(s),
        0 <= i < s.len(),
    ensures
        entries_map(s).contains_key(entry_key(s[i])),
        entries_map(s)[entry_key(s[i])] == s[i].total,
    decreases s.len(),
{
    if i < s.len() - 1 {
        assert(keys_unique(s.drop_last()));
        lemma_entries_map_value(s.drop_last(), i);
        assert(entry_key(s[i]) != entry_key(s.last()));
        assert(s.drop_last()[i] == s[i]);
    }
}

proof fn lemma_entries_map_finite_len(s: Seq<TallyEntry>)
    requires
        keys_unique(s),
    ensures
        entries_map(s).dom().finite(),
        entries_map(s).len() == s.len(),
    decreases s.len(),
{
    if s.len() > 0 {
        let t = s.drop_last();
        assert(keys_unique(t));
        lemma_entries_map_finite_len(t);
        lemma_entries_map_dom(t, entry_key(s.last()));
        if entries_map(t).contains_key(entry_key(s.last())) {
            let i = choose|i: int| 0 <= i < t.len() && #[trigger] entry_key(t[i]) == entry_key(s.last());
            assert(entry_key(s[i]) == entry_key(s[s.len() - 1]));
        }
    }
}

proof fn lemma_entries_map_update(s: Seq<TallyEntry>, p: int, e: TallyEntry)
    requires
        keys_unique(s),
        0 <= p < s.len(),
        entry_key(e) == entry_key(s[p]),
    ensures
        keys_unique(s.update(p, e)),
        entries_map(s.update(p, e)) =~= entries_map(s).insert(entry_key(e), e.total),
{
    let t = s.update(p, e);
    assert(forall|i: int| 0 <= i < s.len() ==> entry_key(#[trigger] t[i]) == entry_key(s[i]));
    assert(keys_unique(t));
    assert forall|k: TallyKey| #[trigger] entries_map(t).contains_key(k) <==> entries_map(
        s,
    ).insert(entry_key(e), e.total).contains_key(k) by {
        lemma_entries_map_dom(s, k);
        lemma_entries_map_dom(t, k);
        if exists|i: int| 0 <= i < s.len() && #[trigger] entry_key(s[i]) == k {
            let i = choose|i: int| 0 <= i < s.len() && #[trigger] entry_key(s[i]) == k;
            assert(entry_key(t[i]) == k);
        }
        if exists|i: int| 0 <= i < t.len() && #[trigger] entry_key(t[i]) == k {
            let i = choose|i: int| 0 <= i < t.len() && #[trigger] entry_key(t[i]) == k;
            assert(entry_key(s[i]) == k);
        }
        if k == entry_key(e) {
            assert(entry_key(s[p]) == k);
        }
    }
    assert forall|k: TallyKey| #[trigger]
        entries_map(t).contains_key(k) implies entries_map(t)[k] == entries_map(s).insert(
        entry_key(e),
        e.total,
    )[k] by {
        lemma_entries_map_dom(t, k);
        let i = choose|i: int| 0 <= i < t.len() && #[trigger] entry_key(t[i]) == k;
        lemma_entries_map_value(t, i);
        if i != p {
            lemma_entries_map_value(s, i);
        }
    }
}

proof fn lemma_entries_map_push_fresh(s: Seq<TallyEntry>, e: TallyEntry)
    requires
        keys_unique(s),
        !entries_map(s).contains_key(entry_key(e)),
    ensures
        keys_unique(s.push(e)),
        entries_map(s.push(e)) == entries_map(s).insert(entry_key(e), e.total),
{
    let t = s.push(e);
    assert(t.drop_last() =~= s);
    assert forall|i: int| 0 <= i < s.len() implies entry_key(#[trigger] s[i]) != entry_key(e) by {
        lemma_entries_map_dom(s, entry_key(e));
    }
    assert(forall|i: int| 0 <= i < s.len() ==> t[i] == s[i]);
}

proof fn lemma_occurrences_push(ids: Seq<JobId>, x: JobId, id: JobId)
    ensures
        occurrences(ids.push(x), id) == occurrences(ids, id) + if x == id {
            1nat
        } else {
            0nat
        },
{
    assert(ids.push(x).drop_last() =~= ids);
}

proof fn lemma_occurrences_prefix(ids: Seq<JobId>, n: int, id: JobId)
    requires
        0 <= n <= ids.len(),
    ensures
        occurrences(ids.take(n), id) <= occurrences(ids, id),
    decreases ids.len() - n,
{
    if n < ids.len() {
        lemma_occurrences_prefix(ids, n + 1, id);
        assert(ids.take(n + 1) =~= ids.take(n).push(ids[n]));
        lemma_occurrences_push(ids.take(n), ids[n], id);
    } else {
        assert(ids.take(n) =~= ids);
    }
}

/// A job occurs in a list of jobs exactly when it is counted there at least once.
pub proof fn lemma_occurrences_contains(ids: Seq<JobId>, id: JobId)
    ensures
        occurrences(ids, id) > 0 <==> ids.contains(id),
    decreases ids.len(),
{
    if ids.len() > 0 {
        let t = ids.drop_last();
        lemma_occurrences_contains(t, id);
        assert(ids =~= t.push(ids.last()));
        if t.contains(id) {
            let j = choose|j: int| 0 <= j < t.len() && t[j] == id;
            assert(ids[j] == id);
        }
        if ids.contains(id) {
            let j = choose|j: int| 0 <= j < ids.len() && ids[j] == id;
            if j < ids.len() - 1 {
                assert(t[j] == id);
            }
        }
    }
}

/// Counting one more event for `ids.last()` after counting the rest.
proof fn lemma_tally_after_push(m: Map<TallyKey, Total>, ids: Seq<JobId>, x: JobId, day: Seq<char>)
    requires
        tally_fits(m, ids.push(x), day),
    ensures
        count_of(tally_after(m, ids, day), (x, day)) < u32::MAX,
        tally_after(m, ids.push(x), day) =~= tally_after(m, ids, day).insert(
            (x, day),
            (count_of(tally_after(m, ids, day), (x, day)) + 1) as Total,
        ),
{
    let t = ids.push(x);
    lemma_occurrences_push(ids, x, x);
    assert(t.contains(x)) by {
        assert(t[t.len() - 1] == x);
    }
    assert forall|k: TallyKey| #[trigger] tally_after(m, t, day).contains_key(k) <==> tally_after(
        m,
        ids,
        day,
    ).insert((x, day), 0).contains_key(k) by {
        if k.1 == day && t.contains(k.0) && k.0 != x {
            let j = choose|j: int| 0 <= j < t.len() && t[j] == k.0;
            assert(ids[j] == k.0);
        }
        if k.1 == day && ids.contains(k.0) {
            let j = choose|j: int| 0 <= j < ids.len() && ids[j] == k.0;
            assert(t[j] == k.0);
        }
    }
    assert forall|k: TallyKey| #[trigger] tally_after(m, t, day).contains_key(k) implies tally_after(
        m,
        t,
        day,
    )[k] == tally_after(m, ids, day).insert(
        (x, day),
        (count_of(tally_after(m, ids, day), (x, day)) + 1) as Total,
    )[k] by {
        lemma_occurrences_push(ids, x, k.0);
        lemma_occurrences_contains(ids, k.0);
    }
    lemma_occurrences_contains(ids, x);
}

proof fn lemma_occurrences_concat(a: Seq<JobId>, b: Seq<JobId>, id: JobId)
    ensures
        occurrences(a + b, id) == occurrences(a, id) + occurrences(b, id),
    decreases b.len(),
{
    if b.len() == 0 {
        assert(a + b =~= a);
    } else {
        lemma_occurrences_concat(a, b.drop_last(), id);
        assert((a + b).drop_last() =~= a + b.drop_last());
    }
}

proof fn lemma_occurrences_count(s: Seq<JobId>, id: JobId)
    ensures
        occurrences(s, id) == s.to_multiset().count(id),
    decreases s.len(),
{
    broadcast use vstd::seq_lib::group_to_multiset_ensures;

    if s.len() == 0 {
        assert(s.to_multiset() =~= vstd::multiset::Multiset::<JobId>::empty());
    } else {
        lemma_occurrences_count(s.drop_last(), id);
        assert(s =~= s.drop_last().push(s.last()));
    }
}

/// The count for a key after counting the events in `ids` on `day`: it grows
/// by the number of times the key's job occurs in `ids` when the key is for
/// that day, and is unchanged otherwise.
pub proof fn lemma_count_after(m: Map<TallyKey, Total>, ids: Seq<JobId>, day: Seq<char>, k: TallyKey)
    requires
        tally_fits(m, ids, day),
    ensures
        count_of(tally_after(m, ids, day), k) == count_of(m, k) + if k.1 == day {
            occurrences(ids, k.0) as int
        } else {
            0int
        },
{
    lemma_occurrences_contains(ids, k.0);
    if k.1 == day && ids.contains(k.0) {
        assert(count_of(m, (k.0, day)) + occurrences(ids, k.0) <= u32::MAX);
    }
}

/// One event for a single job counts once for that job.
pub proof fn lemma_occurrences_single(x: JobId, id: JobId)
    ensures
        occurrences(seq![x], id) == if x == id {
            1nat
        } else {
            0nat
        },
{
    let s = seq![x];
    assert(s.drop_last() =~= Seq::<JobId>::empty());
    assert(s.last() == x);
    assert(occurrences(Seq::<JobId>::empty(), id) == 0);
}

/// Counting the events of `a` and then those of `b` leaves the same counters
/// as counting the events of `a + b` in one go.
pub proof fn law_tally_concat(m: Map<TallyKey, Total>, a: Seq<JobId>, b: Seq<JobId>, day: Seq<char>)
    requires
        tally_fits(m, a + b, day),
    ensures
        tally_after(tally_after(m, a, day), b, day) == tally_after(m, a + b, day),
{
    let inner = tally_after(m, a, day);
    assert forall|x: JobId| #[trigger] (a + b).contains(x) <==> a.contains(x) || b.contains(x) by {
        if (a + b).contains(x) {
            let j = choose|j: int| 0 <= j < (a + b).len() && (a + b)[j] == x;
            if j < a.len() {
                assert(a[j] == x);
            } else {
                assert(b[j - a.len()] == x);
            }
        }
        if a.contains(x) {
            let j = choose|j: int| 0 <= j < a.len() && a[j] == x;
            assert((a + b)[j] == x);
        }
        if b.contains(x) {
            let j = choose|j: int| 0 <= j < b.len() && b[j] == x;
            assert((a + b)[j + a.len()] == x);
        }
    }
    assert forall|k: TallyKey| #[trigger] inner.contains_key(k) implies count_of(inner, k) == count_of(m, k)
        + if k.1 == day {
        occurrences(a, k.0) as int
    } else {
        0int
    } by {
        if k.1 == day && (m.contains_key(k) || a.contains(k.0)) {
            lemma_occurrences_concat(a, b, k.0);
            lemma_occurrences_contains(a, k.0);
            assert((a + b).contains(k.0) || m.contains_key(k));
            if !(a + b).contains(k.0) {
                lemma_occurrences_contains(a + b, k.0);
                lemma_occurrences_contains(b, k.0);
            }
        }
    }
    assert forall|k: TallyKey| !inner.contains_key(k) implies count_of(m, k) + if k.1 == day {
        occurrences(a, k.0) as int
    } else {
        0int
    } == 0 by {
        lemma_occurrences_contains(a, k.0);
    }
    assert forall|k: TallyKey| #[trigger] tally_after(inner, b, day).contains_key(k) implies tally_after(
        inner,
        b,
        day,
    )[k] == tally_after(m, a + b, day)[k] by {
        lemma_occurrences_concat(a, b, k.0);
        if k.1 == day && (a + b).contains(k.0) {
            lemma_occurrences_contains(a + b, k.0);
        }
    }
    assert(tally_after(inner, b, day) =~= tally_after(m, a + b, day));
}

/// The counters depend only on how many times each job occurs among the
/// events, not on the order in which the events arrive.
pub proof fn law_tally_order_irrelevant(
    m: Map<TallyKey, Total>,
    a: Seq<JobId>,
    b: Seq<JobId>,
    day: Seq<char>,
)
    requires
        a.to_multiset() == b.to_multiset(),
    ensures
        tally_after(m, a, day) == tally_after(m, b, day),
{
    broadcast use vstd::seq_lib::group_to_multiset_ensures;

    assert forall|x: JobId| #[trigger] occurrences(a, x) == occurrences(b, x) by {
        lemma_occurrences_count(a, x);
        lemma_occurrences_count(b, x);
    }
    assert forall|x: JobId| #[trigger] a.contains(x) <==> b.contains(x) by {
        assert(a.contains(x) <==> a.to_multiset().count(x) > 0);
        assert(b.contains(x) <==> b.to_multiset().count(x) > 0);
    }
    assert(tally_after(m, a, day) =~= tally_after(m, b, day));
}

// Ordering facts used by the sort.

proof fn lemma_key_lt_transitive(a: TallyKey, b: TallyKey, c: TallyKey)
    requires
        key_lt(a, b),
        key_lt(b, c),
    ensures
        key_lt(a, c),
{
    if a.0 == b.0 && b.0 == c.0 {
        lemma_text_lt_transitive(a.1, b.1, c.1);
    }
}

proof fn lemma_key_lt_total(a: TallyKey, b: TallyKey)
    requires
        a != b,
    ensures
        key_lt(a, b) || key_lt(b, a),
{
    if a.0 == b.0 {
        lemma_text_lt_total(a.1, b.1);
    }
}

/// Aggregated event counters, one per job and day.
#[derive(Debug)]
pub struct Tally {
    entries: Vec<TallyEntry>,
}

impl View for Tally {
    type V = Map<TallyKey, Total>;

    closed spec fn view(&self) -> Map<TallyKey, Total> {
        entries_map(self.entries@)
    }
}

impl Tally {
    #[verifier::type_invariant]
    spec fn entries_unique(self) -> bool {
        keys_unique(self.entries@)
    }

    /// A tally with no counters.
    pub fn new() -> (t: Self)
        ensures
            t@ == Map::<TallyKey, Total>::empty(),
    {
        Tally { entries: Vec::new() }
    }

    /// Returns true if the tally holds no counter.
    pub fn is_empty(&self) -> (r: bool)
        ensures
            r == (self@.len() == 0),
            self@.dom().finite(),
    {
        proof {
            use_type_invariant(self);
            lemma_entries_map_finite_len(self.entries@);
        }
        self.entries.len() == 0
    }

    /// Number of counters held.
    pub fn len(&self) -> (n: usize)
        ensures
            n == self@.len(),
            self@.dom().finite(),
    {
        proof {
            use_type_invariant(self);
            lemma_entries_map_finite_len(self.entries@);
        }
        self.entries.len()
    }

    /// Drops every counter.
    pub fn clear(&mut self)
        ensures
            final(self)@ == Map::<TallyKey, Total>::empty(),
    {
        self.entries = Vec::new();
    }

    /// The count held for a job on a day (zero when there is none).
    pub fn get(&self, job_id: JobId, day: &String) -> (r: Total)
        ensures
            r == count_of(self@, (job_id, day@)),
    {
        proof {
            use_type_invariant(self);
        }
        match Self::position(&self.entries, job_id, day) {
            Some(p) => {
                proof {
                    lemma_entries_map_value(self.entries@, p as int);
                }
                self.entries[p].total
            },
            None => 0,
        }
    }

    /// Index of the entry counting for `(job_id, day)`, if any.
    fn position(entries: &Vec<TallyEntry>, job_id: JobId, day: &String) -> (r: Option<usize>)
        ensures
            r matches Some(p) ==> p < entries@.len() && entry_key(entries@[p as int]) == (
                job_id,
                day@,
            ),
            r is None ==> !entries_map(entries@).contains_key((job_id, day@)),
    {
        let n = entries.len();
        let mut i: usize = 0;
        while i < n
            invariant
                n == entries@.len(),
                i <= n,
                forall|j: int| 0 <= j < i ==> entry_key(#[trigger] entries@[j]) != (job_id, day@),
            decreases n - i,
        {
            if entries[i].job_id == job_id && entries[i].day == *day {
                return Some(i);
            }
            i = i + 1;
        }
        proof {
            lemma_entries_map_dom(entries@, (job_id, day@));
        }
        None
    }

    /// Counts one event on `day` for each entry of `job_ids` (a job listed
    /// twice gets two events).
    pub fn add_all(&mut self, job_ids: &Vec<JobId>, day: &String)
        requires
            tally_fits(old(self)@, job_ids@, day@),
        ensures
            final(self)@ == tally_after(old(self)@, job_ids@, day@),
    {
        proof {
            use_type_invariant(&*self);
        }
        let ghost m0 = self@;
        let mut entries: Vec<TallyEntry> = Vec::new();
        std::mem::swap(&mut entries, &mut self.entries);
        assert(entries_map(entries@) =~= tally_after(m0, job_ids@.take(0), day@));
        let n = job_ids.len();
        let mut i: usize = 0;
        while i < n
            invariant
                n == job_ids@.len(),
                i <= n,
                keys_unique(entries@),
                tally_fits(m0, job_ids@, day@),
                entries_map(entries@) == tally_after(m0, job_ids@.take(i as int), day@),
            decreases n - i,
        {
            let id = job_ids[i];
            let ghost done = job_ids@.take(i as int);
            proof {
                assert(job_ids@.take(i + 1) =~= done.push(id));
                assert forall|x: JobId| done.push(id).contains(x) implies count_of(m0, (x, day@))
                    + occurrences(done.push(id), x) <= u32::MAX by {
                    lemma_occurrences_prefix(job_ids@, i + 1, x);
                    assert(job_ids@.contains(x)) by {
                        let j = choose|j: int| 0 <= j < done.push(id).len() && done.push(id)[j] == x;
                        assert(job_ids@[j] == x);
                    }
                }
                lemma_tally_after_push(m0, done, id, day@);
            }
            match Self::position(&entries, id, day) {
                Some(p) => {
                    proof {
                        lemma_entries_map_value(entries@, p as int);
                    }
                    let total = entries[p].total + 1;
                    let e = TallyEntry { job_id: id, day: day.clone(), total };
                    proof {
                        lemma_entries_map_update(entries@, p as int, e);
                    }
                    entries.set(p, e);
                },
                None => {
                    let e = TallyEntry { job_id: id, day: day.clone(), total: 1 };
                    proof {
                        lemma_entries_map_push_fresh(entries@, e);
                    }
                    entries.push(e);
                },
            }
            i = i + 1;
        }
        assert(job_ids@.take(n as int) =~= job_ids@);
        self.entries = entries;
    }

    /// Counts one event for `job_id` on `day`.
    pub fn add(&mut self, job_id: JobId, day: &String)
        requires
            count_of(old(self)@, (job_id, day@)) < u32::MAX,
        ensures
            final(self)@ == tally_after(old(self)@, seq![job_id], day@),
            final(self)@ == old(self)@.insert(
                (job_id, day@),
                (count_of(old(self)@, (job_id, day@)) + 1) as Total,
            ),
    {
        let mut ids: Vec<JobId> = Vec::new();
        ids.push(job_id);
        proof {
            let s = ids@;
            assert(s =~= seq![job_id]);
            assert(s =~= Seq::<JobId>::empty().push(job_id));
            assert(Seq::<JobId>::empty().push(job_id).drop_last() =~= Seq::<JobId>::empty());
            assert forall|x: JobId| s.contains(x) implies count_of(old(self)@, (x, day@))
                + occurrences(s, x) <= u32::MAX by {
                assert(s[0] == x);
                lemma_occurrences_push(Seq::<JobId>::empty(), job_id, x);
            }
            lemma_tally_after_push(old(self)@, Seq::<JobId>::empty(), job_id, day@);
            assert(tally_after(old(self)@, Seq::<JobId>::empty(), day@) =~= old(self)@);
        }
        self.add_all(&ids, day);
    }

    /// A copy of this tally.
    pub fn duplicate(&self) -> (t: Self)
        ensures
            t@ == self@,
    {
        proof {
            use_type_invariant(self);
        }
        let n = self.entries.len();
        let mut copy: Vec<TallyEntry> = Vec::new();
        let mut i: usize = 0;
        while i < n
            invariant
                n == self.entries@.len(),
                i <= n,
                copy@ == self.entries@.take(i as int),
            decreases n - i,
        {
            let e = &self.entries[i];
            copy.push(TallyEntry { job_id: e.job_id, day: e.day.clone(), total: e.total });
            assert(self.entries@.take(i + 1) =~= self.entries@.take(i as int).push(self.entries@[i as int]));
            i = i + 1;
        }
        assert(self.entries@.take(n as int) =~= self.entries@);
        Tally { entries: copy }
    }

}

/// Converts aggregated counters into rows ready for the database: one
/// `(job, day, total)` row per counter, ascending by job id and then by day.
#[verifier::rlimit(40)]
pub fn prepare_batch_data(data: &Tally) -> (rows: Vec<(JobId, String, Total)>)
    ensures
        rows_sorted(rows@),
        rows_match(rows@, data@),
{
        proof {
            use_type_invariant(data);
            lemma_entries_map_finite_len(data.entries@);
        }
        let ghost es = data.entries@;
        let n = data.entries.len();
        let mut rows: Vec<(JobId, String, Total)> = Vec::new();
        let mut i: usize = 0;
        while i < n
            invariant
                n == es.len(),
                es == data.entries@,
                keys_unique(es),
                i <= n,
                rows@.len() == i,
                rows_sorted(rows@),
                forall|q: int|
                    0 <= q < rows@.len() ==> exists|j: int|
                        0 <= j < i && #[trigger] row_key(rows@[q]) == entry_key(es[j])
                            && rows@[q].2 == es[j].total,
                forall|j: int|
                    0 <= j < i ==> exists|q: int|
                        0 <= q < rows@.len() && #[trigger] row_key(rows@[q]) == entry_key(
                            #[trigger] es[j],
                        ),
            decreases n - i,
        {
            let e = &data.entries[i];
            let row = (e.job_id, e.day.clone(), e.total);
            let ghost k = entry_key(es[i as int]);
            assert(row_key(row) == k);
            // The new key differs from every key placed so far.
            assert forall|q: int| 0 <= q < rows@.len() implies row_key(rows@[q]) != k by {
                let j = choose|j: int|
                    0 <= j < i && #[trigger] row_key(rows@[q]) == entry_key(es[j])
                        && rows@[q].2 == es[j].total;
                assert(j != i);
            }
            let mut p: usize = 0;
            while p < rows.len() && row_less(&rows[p], &row)
                invariant
                    p <= rows@.len(),
                    forall|q: int| 0 <= q < p ==> key_lt(#[trigger] row_key(rows@[q]), k),
                    row_key(row) == k,
                decreases rows@.len() - p,
            {
                p = p + 1;
            }
            let ghost old_rows = rows@;
            proof {
                if p < old_rows.len() {
                    lemma_key_lt_total(row_key(old_rows[p as int]), k);
                }
                assert forall|q: int| p <= q < old_rows.len() implies key_lt(
                    k,
                    #[trigger] row_key(old_rows[q]),
                ) by {
                    if q > p {
                        lemma_key_lt_transitive(k, row_key(old_rows[p as int]), row_key(old_rows[q]));
                    }
                }
            }
            rows.insert(p, row);
            proof {
                let nr = rows@;
                assert(nr == old_rows.insert(p as int, row));
                assert(forall|q: int| 0 <= q < p ==> nr[q] == old_rows[q]);
                assert(forall|q: int| p < q < nr.len() ==> nr[q] == old_rows[q - 1]);
                assert(nr[p as int] == row);
                assert forall|a: int, b: int| 0 <= a < b < nr.len() implies key_lt(
                    row_key(nr[a]),
                    row_key(nr[b]),
                ) by {
                    if a < p && b > p {
                        lemma_key_lt_transitive(row_key(nr[a]), k, row_key(nr[b]));
                    }
                }
                assert forall|q: int| 0 <= q < nr.len() implies exists|j: int|
                    0 <= j < i + 1 && #[trigger] row_key(nr[q]) == entry_key(es[j]) && nr[q].2
                        == es[j].total by {
                    if q == p {
                        assert(row_key(nr[q]) == entry_key(es[i as int]));
                    } else if q < p {
                        let j = choose|j: int|
                            0 <= j < i && #[trigger] row_key(old_rows[q]) == entry_key(es[j])
                                && old_rows[q].2 == es[j].total;
                        assert(row_key(nr[q]) == entry_key(es[j]));
                    } else {
                        let j = choose|j: int|
                            0 <= j < i && #[trigger] row_key(old_rows[q - 1]) == entry_key(es[j])
                                && old_rows[q - 1].2 == es[j].total;
                        assert(row_key(nr[q]) == entry_key(es[j]));
                    }
                }
                assert forall|j: int| 0 <= j < i + 1 implies exists|q: int|
                    0 <= q < nr.len() && #[trigger] row_key(nr[q]) == entry_key(#[trigger] es[j]) by {
                    if j == i {
                        assert(row_key(nr[p as int]) == entry_key(es[j]));
                    } else {
                        let q = choose|q: int|
                            0 <= q < old_rows.len() && #[trigger] row_key(old_rows[q]) == entry_key(
                                es[j],
                            );
                        if q < p {
                            assert(row_key(nr[q]) == entry_key(es[j]));
                        } else {
                            assert(row_key(nr[q + 1]) == entry_key(es[j]));
                        }
                    }
                }
            }
            i = i + 1;
        }
        proof {
            let m = entries_map(es);
            assert forall|q: int| 0 <= q < rows@.len() implies m.contains_key(
                #[trigger] row_key(rows@[q]),
            ) && m[row_key(rows@[q])] == rows@[q].2 by {
                let j = choose|j: int|
                    0 <= j < n && #[trigger] row_key(rows@[q]) == entry_key(es[j]) && rows@[q].2
                        == es[j].total;
                lemma_entries_map_value(es, j);
            }
            assert forall|k: TallyKey| m.contains_key(k) implies exists|q: int|
                0 <= q < rows@.len() && #[trigger] row_key(rows@[q]) == k by {
                lemma_entries_map_dom(es, k);
                let j = choose|j: int| 0 <= j < es.len() && #[trigger] entry_key(es[j]) == k;
                assert(entry_key(es[j]) == k);
            }
        }
        rows
}

/// Whether row `a` comes strictly before row `b` (by job id, then by day).
pub fn row_less(a: &(JobId, String, Total), b: &(JobId, String, Total)) -> (r: bool)
    ensures
        r == key_lt(row_key(*a), row_key(*b)),
{
    if a.0 < b.0 {
        true
    } else if a.0 == b.0 {
        text_less(&a.1, &b.1)
    } else {
        false
    }
}


/// Sorted rows come by ascending job id, and the rows of one job by
/// ascending day as text, no two rows for the same job and day.
pub proof fn law_rows_sorted_order(rows: Seq<(JobId, String, Total)>, i: int, j: int)
    requires
        rows_sorted(rows),
        0 <= i < j < rows.len(),
    ensures
        rows[i].0 <= rows[j].0,
        rows[i].0 == rows[j].0 ==> text_lt(rows[i].1@, rows[j].1@),
        rows[i].0 != rows[j].0 || rows[i].1@ != rows[j].1@,
{
    assert(key_lt(row_key(rows[i]), row_key(rows[j])));
    if rows[i].0 == rows[j].0 && rows[i].1@ == rows[j].1@ {
        crate::text::law_text_order(rows[i].1@, rows[j].1@);
        assert(!(rows[i].1@.len() < rows[j].1@.len()));
        if exists|k: int|
            0 <= k < rows[i].1@.len() && k < rows[j].1@.len() && #[trigger] rows[i].1@.take(k)
                == rows[j].1@.take(k) && (rows[i].1@[k] as int) < (rows[j].1@[k] as int) {
            let k = choose|k: int|
                0 <= k < rows[i].1@.len() && k < rows[j].1@.len() && #[trigger] rows[i].1@.take(k)
                    == rows[j].1@.take(k) && (rows[i].1@[k] as int) < (rows[j].1@[k] as int);
            assert(rows[i].1@[k] == rows[j].1@[k]);
        }
    }
}

} // verus!

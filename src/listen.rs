//! Deciding which stretches of playback count as a listen.

use vstd::prelude::*;

use crate::clock::{now_timestamp, EARLIEST_TIMESTAMP};
use crate::song::{Song, SongStatus, SongView, StatusView};

verus! {

/// A span that has reached this position (in milliseconds) counts as a listen.
pub const EMIT_AFTER_MS: u64 = 20_000;

/// A span that has reached this share (in percent) of the track's length counts as a listen.
pub const EMIT_PERCENT: u64 = 60;

/// Coming back below this position (in milliseconds), after having been at or past it, is a
/// restart of the track.
pub const RESTART_BELOW_MS: u64 = 5_000;

/// Whether a span that reached `max_elapsed` counts as a listen of a track of length `duration`.
/// The share of the length only counts when the length is known, that is, not zero.
pub open spec fn qualifies(max_elapsed: u64, duration: u64) -> bool {
    ||| max_elapsed >= EMIT_AFTER_MS
    ||| (duration > 0 && max_elapsed * 100 >= duration * EMIT_PERCENT)
}

/// Whether an observation at `elapsed` means the track was started over.
pub open spec fn restarted(elapsed: u64, max_elapsed: u64) -> bool {
    elapsed < RESTART_BELOW_MS && max_elapsed >= RESTART_BELOW_MS
}

/// A span that reached the time threshold counts as a listen, whatever share of a track of at
/// least that length it covers.
pub proof fn lemma_time_threshold_suffices(duration: u64)
    requires
        duration >= EMIT_AFTER_MS,
    ensures
        qualifies(EMIT_AFTER_MS, duration),
{
}

/// A span that covered at least the threshold share of the track counts as a listen, however
/// short it was.
pub proof fn lemma_share_threshold_suffices(max_elapsed: u64, duration: u64)
    requires
        duration > 0,
        max_elapsed * 100 >= duration * EMIT_PERCENT,
    ensures
        qualifies(max_elapsed, duration),
{
}

/// A span of a track of known length that stayed under the time threshold and under the
/// threshold share does not count.
pub proof fn lemma_short_span_of_known_track_does_not_count(max_elapsed: u64, duration: u64)
    requires
        duration > 0,
        max_elapsed < EMIT_AFTER_MS,
        max_elapsed * 100 < duration * EMIT_PERCENT,
    ensures
        !qualifies(max_elapsed, duration),
{
}

/// When the length of the track is unknown (zero), only the time threshold counts.
pub proof fn lemma_short_span_of_unknown_track_does_not_count(max_elapsed: u64)
    requires
        max_elapsed < EMIT_AFTER_MS,
    ensures
        !qualifies(max_elapsed, 0),
{
}

/// The span of playback that is being followed: the track, when the span began (seconds since
/// the Unix epoch) and the furthest position (milliseconds) reached in it.
pub struct SpanView {
    pub song: SongView,
    pub start: i64,
    pub max_elapsed: u64,
}

/// A finished listen: the track and when its span began.
pub struct RecordView {
    pub song: SongView,
    pub start: i64,
}

/// The span that an observation at time `now` opens.
pub open spec fn opened(s: StatusView, now: i64) -> SpanView {
    SpanView { song: s.song, start: now, max_elapsed: s.elapsed }
}

/// What closing `span` yields, judged against the length `duration` reported at that moment.
pub open spec fn closing(span: SpanView, duration: u64) -> Option<RecordView> {
    if qualifies(span.max_elapsed, duration) {
        Some(RecordView { song: span.song, start: span.start })
    } else {
        None
    }
}

/// One transition: the span followed after observation `s` at time `now`, and the listen that
/// it finishes, if any.
pub open spec fn next_state(cur: Option<SpanView>, s: StatusView, now: i64) -> (Option<SpanView>, Option<RecordView>) {
    match cur {
        None => (Some(opened(s, now)), None),
        Some(span) => if span.song.file != s.song.file {
            (Some(opened(s, now)), closing(span, s.duration))
        } else if restarted(s.elapsed, span.max_elapsed) {
            (
                Some(SpanView { song: span.song, start: now, max_elapsed: s.elapsed }),
                closing(span, s.duration),
            )
        } else {
            let max_elapsed = if s.elapsed > span.max_elapsed {
                s.elapsed
            } else {
                span.max_elapsed
            };
            (Some(SpanView { song: span.song, start: span.start, max_elapsed }), None)
        },
    }
}

/// While the same track plays on without a restart, the span keeps its start, nothing is handed
/// out, and the furthest position reached never falls.
pub proof fn lemma_high_water_mark_never_falls(span: SpanView, s: StatusView, now: i64)
    requires
        span.song.file == s.song.file,
        !restarted(s.elapsed, span.max_elapsed),
    ensures
        ({
            let (next, r) = next_state(Some(span), s, now);
            &&& r is None
            &&& next matches Some(n) && n.start == span.start && n.max_elapsed >= span.max_elapsed
                && n.max_elapsed >= s.elapsed
        }),
{
}

/// Every observation in `samples` taken in turn from `state`, the i-th made at time `times[i]`:
/// the span followed at the end, and the listens handed out, in the order they came.
pub open spec fn run(state: Option<SpanView>, samples: Seq<StatusView>, times: Seq<i64>) -> (Option<SpanView>, Seq<RecordView>)
    decreases samples.len(),
{
    if samples.len() == 0 {
        (state, Seq::empty())
    } else {
        let n = samples.len() - 1;
        let (mid, records) = run(state, samples.take(n), times);
        let (end, r) = next_state(mid, samples[n], times[n]);
        match r {
            Some(rec) => (end, records.push(rec)),
            None => (end, records),
        }
    }
}

/// Listens come out in the order in which their spans began, and none began after the span that
/// is still open, when the clock never runs backwards.
pub proof fn lemma_records_in_start_order(state: Option<SpanView>, samples: Seq<StatusView>, times: Seq<i64>)
    requires
        times.len() >= samples.len(),
        forall|i: int, j: int| 0 <= i < j < samples.len() ==> times[i] <= times[j],
        samples.len() > 0 ==> (state matches Some(span) ==> span.start <= times[0]),
    ensures
        ({
            let (end, records) = run(state, samples, times);
            &&& forall|i: int, j: int|
                0 <= i < j < records.len() ==> records[i].start <= records[j].start
            &&& end matches Some(span) ==> forall|i: int|
                0 <= i < records.len() ==> records[i].start <= span.start
            &&& samples.len() > 0 ==> (end matches Some(span) && span.start <= times[samples.len() - 1])
        }),
    decreases samples.len(),
{
    if samples.len() > 0 {
        let n = samples.len() - 1;
        lemma_records_in_start_order(state, samples.take(n), times);
    }
}

/// With a clock that always moves forward, every listen handed out comes from a span of its
/// own: their start times strictly increase, and all lie before the start of the span that is
/// still open.
pub proof fn lemma_each_span_recorded_once(state: Option<SpanView>, samples: Seq<StatusView>, times: Seq<i64>)
    requires
        times.len() >= samples.len(),
        forall|i: int, j: int| 0 <= i < j < samples.len() ==> times[i] < times[j],
        samples.len() > 0 ==> (state matches Some(span) ==> span.start < times[0]),
    ensures
        ({
            let (end, records) = run(state, samples, times);
            &&& forall|i: int, j: int|
                0 <= i < j < records.len() ==> records[i].start < records[j].start
            &&& end matches Some(span) ==> forall|i: int|
                0 <= i < records.len() ==> records[i].start < span.start
            &&& samples.len() > 0 ==> (end matches Some(span) && span.start <= times[samples.len() - 1])
        }),
    decreases samples.len(),
{
    if samples.len() > 0 {
        let n = samples.len() - 1;
        lemma_each_span_recorded_once(state, samples.take(n), times);
    }
}

pub open spec fn record_view(r: Option<SongListenRecord>) -> Option<RecordView> {
    match r {
        Some(rec) => Some(rec@),
        None => None,
    }
}

pub open spec fn records_view(r: Seq<SongListenRecord>) -> Seq<RecordView> {
    r.map_values(|rec: SongListenRecord| rec@)
}

pub open spec fn observed(obs: Seq<(SongStatus, i64)>) -> Seq<StatusView> {
    obs.map_values(|o: (SongStatus, i64)| o.0@)
}

pub open spec fn observed_at(obs: Seq<(SongStatus, i64)>) -> Seq<i64> {
    obs.map_values(|o: (SongStatus, i64)| o.1)
}

/// Follows the player's observations one at a time and hands out each listen as it finishes.
#[derive(Debug)]
pub struct ListenIterator {
    current_listen: Option<CurrentListen>,
}

impl View for ListenIterator {
    type V = Option<SpanView>;

    closed spec fn view(&self) -> Option<SpanView> {
        match self.current_listen {
            Some(c) => Some(c@),
            None => None,
        }
    }
}

impl ListenIterator {
    pub fn new() -> (r: ListenIterator)
        ensures
            r@ is None,
    {
        ListenIterator { current_listen: None }
    }

    /// The span being followed, if any.
    pub fn current(&self) -> (r: Option<&CurrentListen>)
        ensures
            match r {
                Some(c) => self@ == Some(c@),
                None => self@ is None,
            },
    {
        match &self.current_listen {
            Some(c) => Some(c),
            None => None,
        }
    }

    pub fn should_emit(max_elapsed: u64, total_duration: u64) -> (r: bool)
        ensures
            r == qualifies(max_elapsed, total_duration),
    {
        let time_threshold_met = max_elapsed >= EMIT_AFTER_MS;
        let duration = total_duration as u128;
        assert(duration * (EMIT_PERCENT as u128) <= 100 * u64::MAX) by (nonlinear_arith)
            requires
                duration <= u64::MAX,
                EMIT_PERCENT <= 100,
        ;
        let percentage_threshold_met = total_duration > 0 && (max_elapsed as u128) * 100
            >= duration * (EMIT_PERCENT as u128);
        time_threshold_met || percentage_threshold_met
    }

    pub fn is_restart(elapsed: u64, max_elapsed: u64) -> (r: bool)
        ensures
            r == restarted(elapsed, max_elapsed),
    {
        elapsed < RESTART_BELOW_MS && max_elapsed >= RESTART_BELOW_MS
    }

    /// Takes in the observation `status`, made at time `now`, and returns the listen that it
    /// finishes, if any.
    pub fn observe_at(&mut self, status: SongStatus, now: i64) -> (r: Option<SongListenRecord>)
        ensures
            (final(self)@, record_view(r)) == next_state(old(self)@, status@, now),
    {
        match self.current_listen.take() {
            None => {
                self.current_listen = Some(
                    CurrentListen { song: status.song, start: now, max_elapsed: status.elapsed },
                );
                None
            },
            Some(listen) => {
                if listen.song.file == status.song.file {
                    if Self::is_restart(status.elapsed, listen.max_elapsed) {
                        // Played again from the top: the first play ends here.
                        let should_emit = Self::should_emit(listen.max_elapsed, status.duration);
                        self.current_listen = Some(
                            CurrentListen {
                                song: listen.song.duplicate(),
                                start: now,
                                max_elapsed: status.elapsed,
                            },
                        );
                        if should_emit {
                            Some(SongListenRecord { song: listen.song, start: listen.start })
                        } else {
                            None
                        }
                    } else {
                        // A step back that is not a restart leaves the furthest position alone.
                        let mut listen = listen;
                        if status.elapsed > listen.max_elapsed {
                            listen.max_elapsed = status.elapsed;
                        }
                        self.current_listen = Some(listen);
                        None
                    }
                } else {
                    let should_emit = Self::should_emit(listen.max_elapsed, status.duration);
                    self.current_listen = Some(
                        CurrentListen { song: status.song, start: now, max_elapsed: status.elapsed },
                    );
                    if should_emit {
                        Some(SongListenRecord { song: listen.song, start: listen.start })
                    } else {
                        None
                    }
                }
            },
        }
    }

    /// Takes in the observation `status`, made now by the wall clock, and returns the listen
    /// that it finishes, if any.
    pub fn observe(&mut self, status: SongStatus) -> (r: Option<SongListenRecord>)
        ensures
            exists|now: i64|
                now >= EARLIEST_TIMESTAMP && (final(self)@, record_view(r)) == #[trigger] next_state(
                    old(self)@,
                    status@,
                    now,
                ),
    {
        let now = now_timestamp();
        self.observe_at(status, now)
    }
    /// Takes in each observation of `observations`, in order, each with the time it was made, and
    /// returns the listens they finish, in the order they were handed out. When the times never
    /// decrease (and none lies before the start of the span already open), the listens come out
    /// in the order their spans began; when the times strictly increase, no span is handed out
    /// twice, and none while it is still open.
    pub fn observe_all(&mut self, observations: Vec<(SongStatus, i64)>) -> (r: Vec<SongListenRecord>)
        ensures
            (final(self)@, records_view(r@)) == run(
                old(self)@,
                observed(observations@),
                observed_at(observations@),
            ),
            ({
                let times = observed_at(observations@);
                let recs = records_view(r@);
                (forall|i: int, j: int| 0 <= i < j < times.len() ==> times[i] <= times[j]) && (
                times.len() > 0 ==> (old(self)@ matches Some(span) ==> span.start <= times[0]))
                    ==> (forall|i: int, j: int| 0 <= i < j < recs.len() ==> recs[i].start <= recs[j].start)
                    && (final(self)@ matches Some(span) ==> forall|i: int|
                    0 <= i < recs.len() ==> recs[i].start <= span.start)
            }),
            ({
                let times = observed_at(observations@);
                let recs = records_view(r@);
                (forall|i: int, j: int| 0 <= i < j < times.len() ==> times[i] < times[j]) && (
                times.len() > 0 ==> (old(self)@ matches Some(span) ==> span.start < times[0]))
                    ==> (forall|i: int, j: int| 0 <= i < j < recs.len() ==> recs[i].start < recs[j].start)
                    && (final(self)@ matches Some(span) ==> forall|i: int|
                    0 <= i < recs.len() ==> recs[i].start < span.start)
            }),
    {
        let ghost start = self@;
        let ghost all = observations@;
        let ghost samples = observed(all);
        let ghost times = observed_at(all);
        let count = observations.len();
        assert(all.len() == count);
        let mut rest = observations;
        let mut records: Vec<SongListenRecord> = Vec::new();
        let mut i: usize = 0;
        while rest.len() > 0
            invariant
                i + rest@.len() == all.len(),
                all.len() <= usize::MAX,
                rest@ == all.skip(i as int),
                samples == observed(all),
                times == observed_at(all),
                (self@, records_view(records@)) == run(start, samples.take(i as int), times),
            decreases rest@.len(),
        {
            let (status, now) = rest.remove(0);
            proof {
                assert(samples.take(i + 1).take(i as int) =~= samples.take(i as int));
                assert(all[i as int] == (status, now));
            }
            let ghost before = records@;
            match self.observe_at(status, now) {
                Some(rec) => {
                    records.push(rec);
                    assert(records_view(records@) =~= records_view(before).push(rec@));
                },
                None => {},
            }
            i = i + 1;
        }
        proof {
            assert(samples.take(i as int) =~= samples);
            if (forall|a: int, b: int| 0 <= a < b < times.len() ==> times[a] <= times[b]) && (
            times.len() > 0 ==> (start matches Some(span) ==> span.start <= times[0])) {
                lemma_records_in_start_order(start, samples, times);
            }
            if (forall|a: int, b: int| 0 <= a < b < times.len() ==> times[a] < times[b]) && (
            times.len() > 0 ==> (start matches Some(span) ==> span.start < times[0])) {
                lemma_each_span_recorded_once(start, samples, times);
            }
        }
        records
    }
}

/// The span being followed: the track, when the span began and the furthest position reached.
#[derive(Debug)]
pub struct CurrentListen {
    song: Song,
    start: i64,
    max_elapsed: u64,
}

impl View for CurrentListen {
    type V = SpanView;

    closed spec fn view(&self) -> SpanView {
        SpanView { song: self.song@, start: self.start, max_elapsed: self.max_elapsed }
    }
}

impl CurrentListen {
    pub fn song(&self) -> (r: &Song)
        ensures
            r@ == self@.song,
    {
        &self.song
    }

    pub fn start(&self) -> (r: i64)
        ensures
            r == self@.start,
    {
        self.start
    }

    pub fn max_elapsed(&self) -> (r: u64)
        ensures
            r == self@.max_elapsed,
    {
        self.max_elapsed
    }
}

/// A finished listen of `song`, whose span began at `start` (seconds since the Unix epoch).
#[derive(Debug)]
pub struct SongListenRecord {
    pub song: Song,
    pub start: i64,
}

impl View for SongListenRecord {
    type V = RecordView;

    open spec fn view(&self) -> RecordView {
        RecordView { song: self.song@, start: self.start }
    }
}

} // verus!

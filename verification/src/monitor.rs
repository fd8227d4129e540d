//! The monitor of one torrent: it is shown what each poll found and
//! decides what to send to the subscriber, whether to stop the torrent and
//! when the stream is over. Unchanged readings are not sent twice.

use crate::snapshot::Fraction;
use vstd::prelude::*;

verus! {

/// The poll interval of a monitor that was given none, in milliseconds.
pub const DEFAULT_REFRESH_MILLIS: u64 = 500;

/// Whether a monitor that was not told stops the torrent on completion.
pub const DEFAULT_AUTO_STOP: bool = true;

/// What one poll of the registry found.
#[derive(Debug)]
pub enum Observation {
    /// The torrent is no longer in the registry.
    Absent,
    /// The torrent is there.
    Present {
        /// The canonical encoding of the reading, where it could be made.
        encoded: Option<Vec<u8>>,
        /// Percent of the desired download completed.
        percent_done: Fraction,
    },
}

/// The mathematical content of an [`Observation`].
pub ghost enum ObservationView {
    Absent,
    Present { encoded: Option<Seq<u8>>, percent_done: Fraction },
}

impl View for Observation {
    type V = ObservationView;

    open spec fn view(&self) -> ObservationView {
        match self {
            Observation::Absent => ObservationView::Absent,
            Observation::Present { encoded, percent_done } => ObservationView::Present {
                encoded: match encoded {
                    Some(bytes) => Some(bytes@),
                    None => None,
                },
                percent_done: *percent_done,
            },
        }
    }
}

/// What the caller is to do after one poll.
#[derive(Clone, Copy, Debug, PartialEq, Eq, Structural)]
pub struct TickAction {
    /// Send the reading to the subscriber.
    pub emit: bool,
    /// Tell the engine to stop the torrent.
    pub stop: bool,
    /// Close the stream; no further poll is due.
    pub end: bool,
}

impl TickAction {
    /// The action of a monitor whose stream is over: nothing is sent and
    /// nothing is stopped.
    pub open spec fn finished() -> TickAction {
        TickAction { emit: false, stop: false, end: true }
    }
}

/// The state of one subscription.
#[derive(Debug)]
pub struct StreamSession {
    torrent_id: i32,
    refresh_duration_millis: u64,
    auto_stop: bool,
    last_sent: Option<Vec<u8>>,
    ended: bool,
}

/// The mathematical content of a [`StreamSession`].
pub ghost struct SessionView {
    pub torrent_id: i32,
    pub refresh_duration_millis: u64,
    pub auto_stop: bool,
    /// The encoding of the reading sent last, if one was sent.
    pub last_sent: Option<Seq<u8>>,
    /// Whether the stream is over.
    pub ended: bool,
}

impl SessionView {
    /// A session before its first poll.
    pub open spec fn fresh(
        torrent_id: i32,
        auto_stop: bool,
        refresh_duration_millis: u64,
    ) -> SessionView {
        SessionView {
            torrent_id,
            refresh_duration_millis,
            auto_stop,
            last_sent: None,
            ended: false,
        }
    }

    /// Whether a poll that found `observation` sends it: the stream is not
    /// over, the reading has an encoding, and that encoding differs from
    /// the one sent last.
    pub open spec fn emits(self, observation: ObservationView) -> bool {
        &&& !self.ended
        &&& observation matches ObservationView::Present { encoded: Some(bytes), .. }
        &&& self.last_sent != Some(bytes)
    }

    /// Whether a poll that found `observation` is the last one: the
    /// torrent is gone, or its download is complete.
    pub open spec fn completes(self, observation: ObservationView) -> bool {
        match observation {
            ObservationView::Absent => true,
            ObservationView::Present { percent_done, .. } => percent_done.reaches_one(),
        }
    }

    /// The action that a poll which found `observation` asks for.
    pub open spec fn action(self, observation: ObservationView) -> TickAction {
        if self.ended {
            TickAction::finished()
        } else {
            TickAction {
                emit: self.emits(observation),
                stop: self.auto_stop && observation is Present && self.completes(observation),
                end: self.completes(observation),
            }
        }
    }

    /// The session after a poll that found `observation`.
    pub open spec fn next(self, observation: ObservationView) -> SessionView {
        if self.ended {
            self
        } else {
            SessionView {
                last_sent: if self.emits(observation) {
                    observation->encoded
                } else {
                    self.last_sent
                },
                ended: self.completes(observation),
                ..self
            }
        }
    }
}

impl View for StreamSession {
    type V = SessionView;

    closed spec fn view(&self) -> SessionView {
        SessionView {
            torrent_id: self.torrent_id,
            refresh_duration_millis: self.refresh_duration_millis,
            auto_stop: self.auto_stop,
            last_sent: match self.last_sent {
                Some(bytes) => Some(bytes@),
                None => None,
            },
            ended: self.ended,
        }
    }
}

impl StreamSession {
    /// Opens a session on the torrent `torrent_id`.
    pub fn new(torrent_id: i32, auto_stop: bool, refresh_duration_millis: u64) -> (session:
        StreamSession)
        ensures
            session@ == SessionView::fresh(torrent_id, auto_stop, refresh_duration_millis),
    {
        StreamSession {
            torrent_id,
            refresh_duration_millis,
            auto_stop,
            last_sent: None,
            ended: false,
        }
    }

    /// The torrent this session watches.
    pub fn torrent_id(&self) -> (id: i32)
        ensures
            id == self@.torrent_id,
    {
        self.torrent_id
    }

    /// The time to wait before each poll, in milliseconds.
    pub fn refresh_duration_millis(&self) -> (millis: u64)
        ensures
            millis == self@.refresh_duration_millis,
    {
        self.refresh_duration_millis
    }

    /// Whether the torrent is stopped once its download is complete.
    pub fn auto_stop(&self) -> (flag: bool)
        ensures
            flag == self@.auto_stop,
    {
        self.auto_stop
    }

    /// Whether the stream is over.
    pub fn is_ended(&self) -> (flag: bool)
        ensures
            flag == self@.ended,
    {
        self.ended
    }

    /// Takes what one poll found and says what to do.
    ///
    /// A reading is sent where its encoding differs from the one sent last,
    /// and is then remembered. The stream ends where the torrent is gone or
    /// its download is complete; in the latter case the torrent is stopped
    /// too, if the session was opened with `auto_stop`. Once the stream is
    /// over nothing more is asked for.
    pub fn tick(&mut self, observation: Observation) -> (action: TickAction)
        ensures
            action == old(self)@.action(observation@),
            final(self)@ == old(self)@.next(observation@),
    {
        if self.ended {
            return TickAction { emit: false, stop: false, end: true };
        }
        match observation {
            Observation::Absent => {
                self.ended = true;
                TickAction { emit: false, stop: false, end: true }
            },
            Observation::Present { encoded, percent_done } => {
                let mut emit = false;
                if let Some(bytes) = encoded {
                    let changed = match &self.last_sent {
                        Some(last) => !same_bytes(last, &bytes),
                        None => true,
                    };
                    if changed {
                        self.last_sent = Some(bytes);
                        emit = true;
                    }
                }
                let complete = percent_done.is_complete();
                self.ended = complete;
                TickAction { emit, stop: self.auto_stop && complete, end: complete }
            },
        }
    }
}

/// Compares two encodings byte for byte.
fn same_bytes(a: &Vec<u8>, b: &Vec<u8>) -> (r: bool)
    ensures
        r == (a@ == b@),
{
    if a.len() != b.len() {
        return false;
    }
    let mut i: usize = 0;
    while i < a.len()
        invariant
            a.len() == b.len(),
            i <= a.len(),
            forall|j: int| 0 <= j < i ==> a@[j] == b@[j],
        decreases a.len() - i,
    {
        if a[i] != b[i] {
            return false;
        }
        i += 1;
    }
    assert(a@ =~= b@);
    true
}

/// The session after a run of polls that found `observations`, in order.
pub open spec fn after_run(start: SessionView, observations: Seq<ObservationView>) -> SessionView
    decreases observations.len(),
{
    if observations.len() == 0 {
        start
    } else {
        after_run(start, observations.drop_last()).next(observations.last())
    }
}

/// The action asked for after the last poll of a run.
pub open spec fn last_action(start: SessionView, observations: Seq<ObservationView>) -> TickAction
    recommends
        observations.len() > 0,
{
    after_run(start, observations.drop_last()).action(observations.last())
}

/// How many readings a run of polls sends to the subscriber.
pub open spec fn emissions(start: SessionView, observations: Seq<ObservationView>) -> nat
    decreases observations.len(),
{
    if observations.len() == 0 {
        0
    } else {
        emissions(start, observations.drop_last()) + if last_action(start, observations).emit {
            1nat
        } else {
            0nat
        }
    }
}

/// How many stop commands a run of polls issues.
pub open spec fn stops(start: SessionView, observations: Seq<ObservationView>) -> nat
    decreases observations.len(),
{
    if observations.len() == 0 {
        0
    } else {
        stops(start, observations.drop_last()) + if last_action(start, observations).stop {
            1nat
        } else {
            0nat
        }
    }
}

/// A stream that is over stays over: whatever later polls find, nothing is
/// sent, nothing is stopped and the session does not change.
pub proof fn lemma_ended_stream_is_silent(start: SessionView, observations: Seq<ObservationView>)
    requires
        start.ended,
    ensures
        after_run(start, observations) == start,
        emissions(start, observations) == 0,
        stops(start, observations) == 0,
    decreases observations.len(),
{
    if observations.len() > 0 {
        lemma_ended_stream_is_silent(start, observations.drop_last());
    }
}

/// While the reading does not change, it is sent once and not once per
/// poll: over a run of polls that all find the same encoded reading, one
/// reading is sent if the first poll sends it, and none otherwise.
pub proof fn lemma_unchanged_reading_is_sent_once(
    start: SessionView,
    reading: ObservationView,
    observations: Seq<ObservationView>,
)
    requires
        reading matches ObservationView::Present { encoded: Some(_), .. },
        observations.len() > 0,
        forall|i: int| 0 <= i < observations.len() ==> observations[i] == reading,
    ensures
        emissions(start, observations) == if start.emits(reading) {
            1nat
        } else {
            0nat
        },
        !after_run(start, observations).emits(reading),
    decreases observations.len(),
{
    let earlier = observations.drop_last();
    if earlier.len() == 0 {
        assert(emissions(start, earlier) == 0);
    } else {
        lemma_unchanged_reading_is_sent_once(start, reading, earlier);
    }
}

/// A fresh session sends an unchanging reading exactly once.
pub proof fn lemma_fresh_session_sends_one(
    torrent_id: i32,
    auto_stop: bool,
    refresh_duration_millis: u64,
    reading: ObservationView,
    observations: Seq<ObservationView>,
)
    requires
        reading matches ObservationView::Present { encoded: Some(_), .. },
        observations.len() > 0,
        forall|i: int| 0 <= i < observations.len() ==> observations[i] == reading,
    ensures
        emissions(
            SessionView::fresh(torrent_id, auto_stop, refresh_duration_millis),
            observations,
        ) == 1,
{
    lemma_unchanged_reading_is_sent_once(
        SessionView::fresh(torrent_id, auto_stop, refresh_duration_millis),
        reading,
        observations,
    );
}

/// The poll that finds the download complete ends the stream: it stops the
/// torrent exactly where the session was opened with `auto_stop`, and
/// whatever later polls find, nothing more is sent or stopped.
pub proof fn lemma_completion_ends_the_stream(
    start: SessionView,
    reading: ObservationView,
    later: Seq<ObservationView>,
)
    requires
        !start.ended,
        reading matches ObservationView::Present { percent_done, .. }
            && percent_done.reaches_one(),
    ensures
        start.action(reading).end,
        start.action(reading).stop == start.auto_stop,
        start.next(reading).ended,
        emissions(start.next(reading), later) == 0,
        stops(start.next(reading), later) == 0,
{
    lemma_ended_stream_is_silent(start.next(reading), later);
}

/// No run of polls issues more than one stop command, and none is issued
/// once the stream is over.
pub proof fn lemma_at_most_one_stop(start: SessionView, observations: Seq<ObservationView>)
    ensures
        stops(start, observations) <= 1,
        stops(start, observations) == 1 ==> after_run(start, observations).ended,
    decreases observations.len(),
{
    if observations.len() > 0 {
        lemma_at_most_one_stop(start, observations.drop_last());
    }
}

} // verus!

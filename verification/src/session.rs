//! One guild's voice session: the connected channel, the mute and deafen
//! flags, the playback queue, a generation marker that invalidates stale
//! timers, and the position of the idle-timeout chain.  Every mutation
//! returns the intents the driver must forward to the transport or the
//! audio engine; the session itself performs no input or output.

use vstd::prelude::*;
use crate::queue::Queue;
use crate::queue::QueueModel;

verus! {

/// Position of a live session in the idle-timeout chain: running normally,
/// or force-paused by the long-session timer and awaiting the recheck.
#[derive(Clone, Copy, PartialEq, Eq, Structural, Debug)]
pub enum IdleState {
    Active,
    AutoPaused,
}

/// An intent handed back to the unverified driver: what to tell the voice
/// transport, the audio engine, or the timer wheel.  The session and the
/// registry only decide; the driver performs.
#[derive(Clone, Copy, PartialEq, Eq, Structural, Debug)]
pub enum Action {
    /// Connect the transport to this voice channel.
    Connect(u64),
    /// Close the transport.
    Disconnect,
    /// Start playback of this source.
    Play(u64),
    /// Suspend the current source.
    Pause,
    /// Continue the current source.
    Resume,
    /// Stop the current source the session just skipped past.  The engine
    /// answers such a stop with a completion event of its own; the session
    /// counts it as expected and swallows it.
    Skip,
    /// Halt playback entirely; the engine's answering completion event is
    /// counted as expected and swallowed.
    Stop,
    /// Arm the one-shot long-session timer, tagged with this generation.
    ArmLongTimer(u64),
    /// Arm the one-shot recheck timer, tagged with this generation.
    ArmRecheckTimer(u64),
    /// Tell the channel its session was paused for running too long.
    NotifyAutoPaused,
}

/// Mathematical view of a [`Session`].  `pending_stops` counts the engine
/// stops the session has ordered whose completion events have not arrived
/// yet: the engine reports a manually stopped track as ended, and such an
/// echo must not be mistaken for a genuine completion.
#[verifier::ext_equal]
pub struct SessionModel {
    pub channel: u64,
    pub muted: bool,
    pub deafened: bool,
    pub queue: QueueModel,
    pub generation: u64,
    pub chain_armed: bool,
    pub idle: IdleState,
    pub pending_stops: u64,
}

/// The state of a session just created for a channel: empty queue, flags
/// clear, no timer chain armed.
pub open spec fn fresh_session(channel: u64, generation: u64) -> SessionModel {
    SessionModel {
        channel,
        muted: false,
        deafened: false,
        queue: QueueModel { entries: Seq::empty(), paused: false },
        generation,
        chain_armed: false,
        idle: IdleState::Active,
        pending_stops: 0,
    }
}

/// The session reconnected to another channel.
pub open spec fn with_channel(s: SessionModel, channel: u64) -> SessionModel {
    SessionModel { channel, ..s }
}

/// The session with its mute flag set to `muted`.
pub open spec fn with_muted(s: SessionModel, muted: bool) -> SessionModel {
    SessionModel { muted, ..s }
}

/// The session with its deafen flag set to `deafened`.
pub open spec fn with_deafened(s: SessionModel, deafened: bool) -> SessionModel {
    SessionModel { deafened, ..s }
}

/// The session after appending `sources`: the queue grows at the tail, and
/// the idle chain counts as armed as soon as the session has work.
pub open spec fn after_enqueue(s: SessionModel, sources: Seq<u64>) -> SessionModel {
    SessionModel {
        queue: QueueModel { entries: s.queue.entries + sources, paused: s.queue.paused },
        chain_armed: s.chain_armed || s.queue.entries.len() + sources.len() > 0,
        ..s
    }
}

/// The intents of an enqueue: start playback when nothing was playing, and
/// arm the long-session timer exactly once per became-active transition.
pub open spec fn enqueue_actions(s: SessionModel, sources: Seq<u64>) -> Seq<Action> {
    (if s.queue.entries.len() == 0 && sources.len() > 0 {
        seq![Action::Play(sources[0])]
    } else {
        Seq::empty()
    }) + (if !s.chain_armed && s.queue.entries.len() + sources.len() > 0 {
        seq![Action::ArmLongTimer(s.generation)]
    } else {
        Seq::empty()
    })
}

/// The session after a skip: the head is discarded, and when one was there
/// to discard, the engine stop ordered for it is counted as an expected
/// echo.
pub open spec fn after_skip(s: SessionModel) -> SessionModel {
    SessionModel {
        queue: QueueModel {
            entries: if s.queue.entries.len() == 0 {
                s.queue.entries
            } else {
                s.queue.entries.drop_first()
            },
            paused: s.queue.paused,
        },
        pending_stops: if s.queue.entries.len() == 0 {
            s.pending_stops
        } else {
            (s.pending_stops + 1) as u64
        },
        ..s
    }
}

/// The intents of a skip: stop the discarded head, and start the entry that
/// moved up to the head, when there is one.
pub open spec fn skip_actions(s: SessionModel) -> Seq<Action> {
    if s.queue.entries.len() == 0 {
        Seq::empty()
    } else if s.queue.entries.len() == 1 {
        seq![Action::Skip]
    } else {
        seq![Action::Skip, Action::Play(s.queue.entries[1])]
    }
}

/// The session after a stop: the queue is empty and running, the timer
/// chain is cancelled, and the generation moves to `fresh_gen` so that every
/// timer armed before the stop becomes a no-op.  The engine stop ordered
/// for a playing head is counted as an expected echo.
pub open spec fn after_stop(s: SessionModel, fresh_gen: u64) -> SessionModel {
    SessionModel {
        queue: QueueModel { entries: Seq::empty(), paused: false },
        generation: fresh_gen,
        chain_armed: false,
        idle: IdleState::Active,
        pending_stops: if s.queue.entries.len() == 0 {
            s.pending_stops
        } else {
            (s.pending_stops + 1) as u64
        },
        ..s
    }
}

/// The session with its head suspended.
pub open spec fn after_pause(s: SessionModel) -> SessionModel {
    SessionModel { queue: QueueModel { entries: s.queue.entries, paused: true }, ..s }
}

/// The session with its head running again.
pub open spec fn after_resume(s: SessionModel) -> SessionModel {
    SessionModel { queue: QueueModel { entries: s.queue.entries, paused: false }, ..s }
}

/// The session after the long-session timer fired while it was active:
/// force-paused, awaiting the recheck.
pub open spec fn after_auto_pause(s: SessionModel) -> SessionModel {
    SessionModel {
        queue: QueueModel { entries: s.queue.entries, paused: true },
        idle: IdleState::AutoPaused,
        ..s
    }
}

/// The session after the recheck found it resumed: back to running
/// normally, with the exhausted timer chain cancelled.
pub open spec fn after_recheck_resumed(s: SessionModel) -> SessionModel {
    SessionModel { idle: IdleState::Active, chain_armed: false, ..s }
}

/// The session after a genuine completion of its current track: the head
/// is discarded; no engine stop was ordered, so no echo is expected.
pub open spec fn after_track_advance(s: SessionModel) -> SessionModel {
    SessionModel {
        queue: QueueModel {
            entries: if s.queue.entries.len() == 0 {
                s.queue.entries
            } else {
                s.queue.entries.drop_first()
            },
            paused: s.queue.paused,
        },
        ..s
    }
}

/// The session after one expected engine-stop echo arrived and was
/// swallowed.
pub open spec fn with_stop_consumed(s: SessionModel) -> SessionModel {
    SessionModel { pending_stops: (s.pending_stops - 1) as u64, ..s }
}

/// What of a session a shuffle is allowed to change: nothing but the order
/// of the pending tail of its queue, which keeps its multiset of entries;
/// the head stays in place and is running again afterwards.
pub open spec fn shuffled_session(a: SessionModel, b: SessionModel) -> bool {
    &&& b.channel == a.channel
    &&& b.muted == a.muted
    &&& b.deafened == a.deafened
    &&& b.generation == a.generation
    &&& b.chain_armed == a.chain_armed
    &&& b.idle == a.idle
    &&& b.pending_stops == a.pending_stops
    &&& b.queue.entries.len() == a.queue.entries.len()
    &&& a.queue.entries.len() > 0 ==> b.queue.entries[0] == a.queue.entries[0]
    &&& a.queue.entries.len() > 0 ==> b.queue.entries.drop_first().to_multiset()
        == a.queue.entries.drop_first().to_multiset()
    &&& a.queue.entries.len() == 0 ==> b.queue.entries == a.queue.entries
    &&& !b.queue.paused
}

/// One guild's session state.  All mutations are meant to run serialized:
/// the registry, which owns every session, hands a session out to exactly
/// one operation at a time.
pub struct Session {
    channel: u64,
    muted: bool,
    deafened: bool,
    queue: Queue,
    generation: u64,
    chain_armed: bool,
    idle: IdleState,
    pending_stops: u64,
}

impl View for Session {
    type V = SessionModel;

    closed spec fn view(&self) -> SessionModel {
        SessionModel {
            channel: self.channel,
            muted: self.muted,
            deafened: self.deafened,
            queue: self.queue@,
            generation: self.generation,
            chain_armed: self.chain_armed,
            idle: self.idle,
            pending_stops: self.pending_stops,
        }
    }
}

impl Session {
    /// A session just created for `channel`, carrying `generation` as its
    /// timer marker.
    pub fn new(channel: u64, generation: u64) -> (s: Session)
        ensures
            s@ == fresh_session(channel, generation),
    {
        let s = Session {
            channel,
            muted: false,
            deafened: false,
            queue: Queue::new(),
            generation,
            chain_armed: false,
            idle: IdleState::Active,
            pending_stops: 0,
        };
        proof {
            assert(s@ =~= fresh_session(channel, generation));
        }
        s
    }

    /// The channel this session is connected to.
    pub fn channel(&self) -> (c: u64)
        ensures
            c == self@.channel,
    {
        self.channel
    }

    /// The generation current timers must carry to act.
    pub fn generation(&self) -> (g: u64)
        ensures
            g == self@.generation,
    {
        self.generation
    }

    /// How many engine-stop echoes are still expected.
    pub fn pending_stops(&self) -> (n: u64)
        ensures
            n == self@.pending_stops,
    {
        self.pending_stops
    }

    /// Number of queued entries, the playing head included.
    pub fn queue_len(&self) -> (n: usize)
        ensures
            n == self@.queue.entries.len(),
    {
        self.queue.length()
    }

    /// Whether the head is suspended.
    pub fn queue_paused(&self) -> (b: bool)
        ensures
            b == self@.queue.paused,
    {
        self.queue.is_paused()
    }

    /// The queued entries in playback order, head first.
    pub fn queue_entries(&self) -> (v: Vec<u64>)
        ensures
            v@ == self@.queue.entries,
    {
        self.queue.to_vec()
    }

    /// Whether the session is running normally.
    pub fn is_active(&self) -> (b: bool)
        ensures
            b == (self@.idle is Active),
    {
        match self.idle {
            IdleState::Active => true,
            IdleState::AutoPaused => false,
        }
    }

    /// The currently playing source, if any.
    pub fn current(&self) -> (c: Option<u64>)
        ensures
            c == if self@.queue.entries.len() == 0 {
                None::<u64>
            } else {
                Some(self@.queue.entries[0])
            },
    {
        self.queue.current()
    }

    /// Moves the session to another channel.
    pub fn set_channel(&mut self, channel: u64)
        ensures
            final(self)@ == with_channel(old(self)@, channel),
    {
        self.channel = channel;
        proof {
            assert(self@ =~= with_channel(old(self)@, channel));
        }
    }

    /// Whether setting the mute flag to `target` would change anything; a
    /// repeated request is reported as already-in-that-state, not re-issued.
    pub fn mute_change_needed(&self, target: bool) -> (r: bool)
        ensures
            r == (self@.muted != target),
    {
        self.muted != target
    }

    /// Records that the transport accepted the mute flag `target`.
    pub fn record_mute(&mut self, target: bool)
        ensures
            final(self)@ == with_muted(old(self)@, target),
    {
        self.muted = target;
        proof {
            assert(self@ =~= with_muted(old(self)@, target));
        }
    }

    /// Whether setting the deafen flag to `target` would change anything.
    pub fn deafen_change_needed(&self, target: bool) -> (r: bool)
        ensures
            r == (self@.deafened != target),
    {
        self.deafened != target
    }

    /// Records that the transport accepted the deafen flag `target`.
    pub fn record_deafen(&mut self, target: bool)
        ensures
            final(self)@ == with_deafened(old(self)@, target),
    {
        self.deafened = target;
        proof {
            assert(self@ =~= with_deafened(old(self)@, target));
        }
    }

    /// Appends `sources` to the queue.  If nothing was playing, asks for
    /// playback of the first new source; if no idle chain was armed yet,
    /// asks for the long-session timer, exactly once per became-active
    /// transition.
    pub fn enqueue_and_play(&mut self, sources: &Vec<u64>) -> (acts: Vec<Action>)
        ensures
            final(self)@ == after_enqueue(old(self)@, sources@),
            acts@ == enqueue_actions(old(self)@, sources@),
    {
        let was_empty = self.queue.is_empty();
        let had_chain = self.chain_armed;
        let mut acts: Vec<Action> = Vec::new();
        if was_empty && sources.len() > 0 {
            acts.push(Action::Play(sources[0]));
        }
        let mut i: usize = 0;
        while i < sources.len()
            invariant
                i <= sources@.len(),
                self@.queue.entries == old(self)@.queue.entries + sources@.subrange(0, i as int),
                self@.queue.paused == old(self)@.queue.paused,
                self@.channel == old(self)@.channel,
                self@.muted == old(self)@.muted,
                self@.deafened == old(self)@.deafened,
                self@.generation == old(self)@.generation,
                self@.chain_armed == old(self)@.chain_armed,
                self@.idle == old(self)@.idle,
                self@.pending_stops == old(self)@.pending_stops,
            decreases sources@.len() - i,
        {
            self.queue.enqueue(sources[i]);
            proof {
                assert(self@.queue.entries =~= old(self)@.queue.entries + sources@.subrange(
                    0,
                    i + 1,
                ));
            }
            i += 1;
        }
        proof {
            assert(sources@.subrange(0, sources@.len() as int) =~= sources@);
        }
        if !had_chain && self.queue.length() > 0 {
            self.chain_armed = true;
            acts.push(Action::ArmLongTimer(self.generation));
        }
        proof {
            assert(self@ =~= after_enqueue(old(self)@, sources@));
            assert(acts@ =~= enqueue_actions(old(self)@, sources@));
        }
        acts
    }

    /// Discards the head and reports the new length.  The engine is asked
    /// to stop the discarded source — its answering completion event is
    /// counted as expected — and to start the entry that moved up to the
    /// head, when there is one.
    pub fn skip(&mut self) -> (r: (usize, Vec<Action>))
        requires
            old(self)@.queue.entries.len() > 0 ==> old(self)@.pending_stops < u64::MAX,
        ensures
            final(self)@ == after_skip(old(self)@),
            r.0 == final(self)@.queue.entries.len(),
            r.1@ == skip_actions(old(self)@),
    {
        let was_empty = self.queue.is_empty();
        let n = self.queue.skip();
        let mut acts: Vec<Action> = Vec::new();
        if !was_empty {
            self.pending_stops = self.pending_stops + 1;
            acts.push(Action::Skip);
            match self.queue.current() {
                None => {},
                Some(next) => {
                    acts.push(Action::Play(next));
                },
            }
        }
        proof {
            assert(self@ =~= after_skip(old(self)@));
            assert(acts@ =~= skip_actions(old(self)@));
        }
        (n, acts)
    }

    /// Discards the head after the engine reported a genuine completion,
    /// and reports the next source to play, if any.
    pub fn advance_track(&mut self) -> (next: Option<u64>)
        ensures
            final(self)@ == after_track_advance(old(self)@),
            next == if final(self)@.queue.entries.len() == 0 {
                None::<u64>
            } else {
                Some(final(self)@.queue.entries[0])
            },
    {
        self.queue.skip();
        proof {
            assert(self@ =~= after_track_advance(old(self)@));
        }
        self.queue.current()
    }

    /// Swallows one expected engine-stop echo.
    pub fn consume_stop(&mut self)
        requires
            old(self)@.pending_stops > 0,
        ensures
            final(self)@ == with_stop_consumed(old(self)@),
    {
        self.pending_stops = self.pending_stops - 1;
        proof {
            assert(self@ =~= with_stop_consumed(old(self)@));
        }
    }

    /// Clears the queue, cancels the timer chain by moving to `fresh_gen`,
    /// and asks the engine to halt; the completion event that halt provokes
    /// for a playing head is counted as expected.
    pub fn stop(&mut self, fresh_gen: u64) -> (acts: Vec<Action>)
        requires
            old(self)@.queue.entries.len() > 0 ==> old(self)@.pending_stops < u64::MAX,
        ensures
            final(self)@ == after_stop(old(self)@, fresh_gen),
            acts@ == seq![Action::Stop],
    {
        if !self.queue.is_empty() {
            self.pending_stops = self.pending_stops + 1;
        }
        self.queue.stop();
        self.generation = fresh_gen;
        self.chain_armed = false;
        self.idle = IdleState::Active;
        let mut acts: Vec<Action> = Vec::new();
        acts.push(Action::Stop);
        proof {
            assert(self@ =~= after_stop(old(self)@, fresh_gen));
        }
        acts
    }

    /// Suspends the head; a second pause changes nothing and asks nothing.
    pub fn pause(&mut self) -> (acts: Vec<Action>)
        ensures
            final(self)@ == after_pause(old(self)@),
            acts@ == if old(self)@.queue.paused {
                Seq::<Action>::empty()
            } else {
                seq![Action::Pause]
            },
    {
        let was_paused = self.queue.is_paused();
        self.queue.pause();
        let mut acts: Vec<Action> = Vec::new();
        if !was_paused {
            acts.push(Action::Pause);
        }
        proof {
            assert(self@ =~= after_pause(old(self)@));
        }
        acts
    }

    /// Continues the head; a second resume changes nothing and asks nothing.
    pub fn resume(&mut self) -> (acts: Vec<Action>)
        ensures
            final(self)@ == after_resume(old(self)@),
            acts@ == if old(self)@.queue.paused {
                seq![Action::Resume]
            } else {
                Seq::<Action>::empty()
            },
    {
        let was_paused = self.queue.is_paused();
        self.queue.resume();
        let mut acts: Vec<Action> = Vec::new();
        if was_paused {
            acts.push(Action::Resume);
        }
        proof {
            assert(self@ =~= after_resume(old(self)@));
        }
        acts
    }

    /// Randomly permutes the pending tail of the queue.  The head is paused
    /// while the order changes and resumed afterwards, so the engine never
    /// observes a torn ordering.
    pub fn shuffle(&mut self) -> (acts: Vec<Action>)
        ensures
            shuffled_session(old(self)@, final(self)@),
            acts@ == seq![Action::Pause, Action::Resume],
    {
        self.queue.shuffle();
        let mut acts: Vec<Action> = Vec::new();
        acts.push(Action::Pause);
        acts.push(Action::Resume);
        acts
    }

    /// Force-pauses the session after the long-session timer fired.
    pub fn auto_pause(&mut self)
        ensures
            final(self)@ == after_auto_pause(old(self)@),
    {
        self.queue.pause();
        self.idle = IdleState::AutoPaused;
        proof {
            assert(self@ =~= after_auto_pause(old(self)@));
        }
    }

    /// Returns the session to normal running after the recheck found it
    /// resumed; the exhausted timer chain is cancelled.
    pub fn recheck_resumed(&mut self)
        ensures
            final(self)@ == after_recheck_resumed(old(self)@),
    {
        self.idle = IdleState::Active;
        self.chain_armed = false;
        proof {
            assert(self@ =~= after_recheck_resumed(old(self)@));
        }
    }
}

} // verus!

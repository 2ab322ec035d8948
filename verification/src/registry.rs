//! The process-wide registry: one session per guild, created on join,
//! removed on leave or idle-reclaim.  The registry is the command surface:
//! every user command, track-completion notification and timer firing is a
//! verified function here that looks the guild's session up, decides, and
//! returns the intents the unverified driver must carry out.  Emptiness
//! checks and removals happen inside one call, so a reclaim can never
//! discard a session that just received new work.

use std::collections::HashMap;
use vstd::prelude::*;
use crate::session::Action;
use crate::session::IdleState;
use crate::session::Session;
use crate::session::SessionModel;
use crate::session::after_auto_pause;
use crate::session::after_enqueue;
use crate::session::after_pause;
use crate::session::after_recheck_resumed;
use crate::session::after_resume;
use crate::session::after_skip;
use crate::session::after_stop;
use crate::session::after_track_advance;
use crate::session::enqueue_actions;
use crate::session::fresh_session;
use crate::session::shuffled_session;
use crate::session::skip_actions;
use crate::session::with_stop_consumed;
use crate::session::with_channel;
use crate::session::with_deafened;
use crate::session::with_muted;

verus! {

broadcast use vstd::std_specs::hash::group_hash_axioms;

/// Which delayed callback fired: the one-shot long-session timer, or the
/// shorter recheck armed when the session was force-paused.
#[derive(Clone, Copy, PartialEq, Eq, Structural, Debug)]
pub enum TimerKind {
    LongSession,
    Recheck,
}

/// What a join request found.
#[derive(Clone, Copy, PartialEq, Eq, Structural, Debug)]
pub enum JoinOutcome {
    /// No session existed: one was created for the channel.
    Created,
    /// A session existed on another channel: it moves to the requested one.
    Reconnected,
    /// A session already sat on the requested channel: nothing to do.
    AlreadyConnected,
}

/// The registry after a join: an absent guild gets a fresh session with the
/// fresh generation, a guild sitting on another channel is moved, and a
/// guild already on the requested channel is left alone.
pub open spec fn spec_join(
    m: Map<u64, SessionModel>,
    g: u64,
    ch: u64,
    fresh_gen: u64,
) -> Map<u64, SessionModel> {
    if !m.contains_key(g) {
        m.insert(g, fresh_session(ch, fresh_gen))
    } else if m[g].channel != ch {
        m.insert(g, with_channel(m[g], ch))
    } else {
        m
    }
}

/// The intents of a join: connect unless the session already sits on the
/// requested channel.
pub open spec fn join_actions(m: Map<u64, SessionModel>, g: u64, ch: u64) -> Seq<Action> {
    if m.contains_key(g) && m[g].channel == ch {
        Seq::empty()
    } else {
        seq![Action::Connect(ch)]
    }
}

/// What a join for guild `g`, channel `ch` reports.
pub open spec fn join_outcome(m: Map<u64, SessionModel>, g: u64, ch: u64) -> JoinOutcome {
    if !m.contains_key(g) {
        JoinOutcome::Created
    } else if m[g].channel != ch {
        JoinOutcome::Reconnected
    } else {
        JoinOutcome::AlreadyConnected
    }
}

/// The registry after a completion event for guild `g`.  An event that is
/// only the echo of a stop the session itself ordered is swallowed: one
/// expected echo is consumed and nothing else changes.  A genuine
/// completion discards the head; if that leaves the queue empty the
/// session is reclaimed — removed in the same step, so no enqueue can slip
/// between the emptiness check and the removal.
pub open spec fn spec_track_end(m: Map<u64, SessionModel>, g: u64) -> Map<u64, SessionModel> {
    if !m.contains_key(g) {
        m
    } else if m[g].pending_stops > 0 {
        m.insert(g, with_stop_consumed(m[g]))
    } else if m[g].queue.entries.len() <= 1 {
        m.remove(g)
    } else {
        m.insert(g, after_track_advance(m[g]))
    }
}

/// The intents of a completion event: nothing for a swallowed echo,
/// disconnect on reclaim, otherwise start the next pending source.
pub open spec fn track_end_actions(m: Map<u64, SessionModel>, g: u64) -> Seq<Action> {
    if !m.contains_key(g) || m[g].pending_stops > 0 {
        Seq::empty()
    } else if m[g].queue.entries.len() <= 1 {
        seq![Action::Disconnect]
    } else {
        seq![Action::Play(m[g].queue.entries[1])]
    }
}

/// The registry after a timer fired for guild `g` carrying `generation`.
/// A timer whose guild has no session, or whose generation no longer
/// matches, does nothing.  A long-session timer force-pauses an active
/// session; a recheck reclaims a force-paused session still paused, and
/// returns one the users resumed to normal running.
pub open spec fn spec_on_timer(
    m: Map<u64, SessionModel>,
    g: u64,
    kind: TimerKind,
    generation: u64,
) -> Map<u64, SessionModel> {
    if !m.contains_key(g) || m[g].generation != generation {
        m
    } else {
        match kind {
            TimerKind::LongSession => if m[g].idle is Active {
                m.insert(g, after_auto_pause(m[g]))
            } else {
                m
            },
            TimerKind::Recheck => if m[g].idle is AutoPaused {
                if m[g].queue.paused {
                    m.remove(g)
                } else {
                    m.insert(g, after_recheck_resumed(m[g]))
                }
            } else {
                m
            },
        }
    }
}

/// The intents of a timer firing; a stale timer asks for nothing.
pub open spec fn timer_actions(
    m: Map<u64, SessionModel>,
    g: u64,
    kind: TimerKind,
    generation: u64,
) -> Seq<Action> {
    if !m.contains_key(g) || m[g].generation != generation {
        Seq::empty()
    } else {
        match kind {
            TimerKind::LongSession => if m[g].idle is Active {
                seq![Action::Pause, Action::NotifyAutoPaused, Action::ArmRecheckTimer(generation)]
            } else {
                Seq::empty()
            },
            TimerKind::Recheck => if m[g].idle is AutoPaused && m[g].queue.paused {
                seq![Action::Disconnect]
            } else {
                Seq::empty()
            },
        }
    }
}

/// The keyed session registry, plus the counter that hands every created or
/// restarted session a generation no live session has carried before.
pub struct Registry {
    sessions: HashMap<u64, Session>,
    next_generation: u64,
}

impl View for Registry {
    type V = Map<u64, SessionModel>;

    closed spec fn view(&self) -> Map<u64, SessionModel> {
        Map::new(
            |g: u64| self.sessions@.contains_key(g),
            |g: u64| self.sessions@[g]@,
        )
    }
}

impl Registry {
    /// The generation the next created or restarted session will carry.
    pub closed spec fn gen_bound(&self) -> u64 {
        self.next_generation
    }

    /// Every registered session's generation lies below the counter, so a
    /// generation drawn from the counter is fresh.
    pub open spec fn inv(&self) -> bool {
        forall|g: u64|
            #[trigger] self@.contains_key(g) ==> self@[g].generation < self.gen_bound()
    }

    /// An empty registry, its generation counter at zero.
    pub fn new() -> (r: Registry)
        ensures
            r@ == Map::<u64, SessionModel>::empty(),
            r.inv(),
            r.gen_bound() == 0,
    {
        let r = Registry { sessions: HashMap::new(), next_generation: 0 };
        proof {
            assert(r@ =~= Map::<u64, SessionModel>::empty());
        }
        r
    }

    /// The generation counter's current value; callers that create or
    /// restart sessions must leave room for one more generation.
    pub fn generation_counter(&self) -> (g: u64)
        ensures
            g == self.gen_bound(),
    {
        self.next_generation
    }

    /// How many engine-stop echoes `guild`'s session still expects, or
    /// nothing when no session is registered.
    pub fn pending_stops(&self, guild: u64) -> (r: Option<u64>)
        ensures
            r == if self@.contains_key(guild) {
                Some(self@[guild].pending_stops)
            } else {
                None::<u64>
            },
    {
        match self.sessions.get(&guild) {
            None => None,
            Some(s) => Some(s.pending_stops()),
        }
    }

    /// Whether a session is registered for `guild`.
    pub fn is_connected(&self, guild: u64) -> (b: bool)
        ensures
            b == self@.contains_key(guild),
    {
        self.sessions.contains_key(&guild)
    }

    /// The queue length of `guild`'s session, or nothing when no session is
    /// registered.
    pub fn queue_len(&self, guild: u64) -> (r: Option<usize>)
        ensures
            r == if self@.contains_key(guild) {
                Some(self@[guild].queue.entries.len() as usize)
            } else {
                None::<usize>
            },
    {
        match self.sessions.get(&guild) {
            None => None,
            Some(s) => Some(s.queue_len()),
        }
    }

    /// The entries of `guild`'s queue in playback order, head first, or
    /// nothing when no session is registered.
    pub fn queue_entries(&self, guild: u64) -> (r: Option<Vec<u64>>)
        ensures
            r is Some <==> self@.contains_key(guild),
            r matches Some(v) ==> v@ == self@[guild].queue.entries,
    {
        match self.sessions.get(&guild) {
            None => None,
            Some(s) => Some(s.queue_entries()),
        }
    }

    /// Whether `guild`'s queue head is suspended, or nothing when no
    /// session is registered.
    pub fn queue_paused(&self, guild: u64) -> (r: Option<bool>)
        ensures
            r == if self@.contains_key(guild) {
                Some(self@[guild].queue.paused)
            } else {
                None::<bool>
            },
    {
        match self.sessions.get(&guild) {
            None => None,
            Some(s) => Some(s.queue_paused()),
        }
    }

    /// The source `guild`'s session is currently playing, or nothing when
    /// no session is registered or its queue is empty.
    pub fn current_track(&self, guild: u64) -> (r: Option<u64>)
        ensures
            r == if self@.contains_key(guild) && self@[guild].queue.entries.len() > 0 {
                Some(self@[guild].queue.entries[0])
            } else {
                None::<u64>
            },
    {
        match self.sessions.get(&guild) {
            None => None,
            Some(s) => s.current(),
        }
    }

    /// Looks the guild's session up, creating it for `channel` when absent;
    /// exactly one session per guild ever exists, a racing second caller
    /// observes the first one's.  Returns what was found and the connect
    /// intent when the transport must (re)connect.
    pub fn get_or_create(&mut self, guild: u64, channel: u64) -> (r: (JoinOutcome, Vec<Action>))
        requires
            old(self).inv(),
            old(self).gen_bound() < u64::MAX,
        ensures
            final(self).inv(),
            final(self)@ == spec_join(old(self)@, guild, channel, old(self).gen_bound()),
            r.0 == join_outcome(old(self)@, guild, channel),
            r.1@ == join_actions(old(self)@, guild, channel),
            final(self).gen_bound() == if old(self)@.contains_key(guild) {
                old(self).gen_bound() as int
            } else {
                old(self).gen_bound() + 1
            },
    {
        let existing_channel: Option<u64> = match self.sessions.get(&guild) {
            None => None,
            Some(s) => Some(s.channel()),
        };
        match existing_channel {
            None => {
                let s = Session::new(channel, self.next_generation);
                self.sessions.insert(guild, s);
                self.next_generation = self.next_generation + 1;
                let mut acts: Vec<Action> = Vec::new();
                acts.push(Action::Connect(channel));
                proof {
                    assert(self@ =~= spec_join(old(self)@, guild, channel, old(self).gen_bound()));
                    assert forall|g2: u64| #[trigger] self@.contains_key(g2)
                        implies self@[g2].generation < self.gen_bound() by {
                        if g2 != guild {
                            assert(old(self)@.contains_key(g2));
                        }
                    }
                }
                (JoinOutcome::Created, acts)
            },
            Some(c) => {
                if c == channel {
                    let acts: Vec<Action> = Vec::new();
                    proof {
                        assert(self@ =~= spec_join(old(self)@, guild, channel, old(self).gen_bound()));
                        assert(acts@ =~= join_actions(old(self)@, guild, channel));
                    }
                    (JoinOutcome::AlreadyConnected, acts)
                } else {
                    let mut s = self.sessions.remove(&guild).unwrap();
                    s.set_channel(channel);
                    self.sessions.insert(guild, s);
                    let mut acts: Vec<Action> = Vec::new();
                    acts.push(Action::Connect(channel));
                    proof {
                        assert(self@ =~= spec_join(old(self)@, guild, channel, old(self).gen_bound()));
                        assert forall|g2: u64| #[trigger] self@.contains_key(g2)
                            implies self@[g2].generation < self.gen_bound() by {
                            if g2 != guild {
                                assert(old(self)@.contains_key(g2));
                            } else {
                                assert(old(self)@.contains_key(guild));
                            }
                        }
                    }
                    (JoinOutcome::Reconnected, acts)
                }
            },
        }
    }

    /// Tears the guild's session down after the transport reported that
    /// the connect it was asked for failed: a session whose connection
    /// could not be established is not kept registered.  Reports whether a
    /// session was there to tear down.
    pub fn on_connect_failed(&mut self, guild: u64) -> (removed: bool)
        requires
            old(self).inv(),
        ensures
            final(self).inv(),
            final(self)@ == old(self)@.remove(guild),
            removed == old(self)@.contains_key(guild),
            final(self).gen_bound() == old(self).gen_bound(),
    {
        let removed = self.sessions.remove(&guild).is_some();
        proof {
            assert(self@ =~= old(self)@.remove(guild));
        }
        removed
    }

    /// Removes the guild's session, asking for a disconnect; used by the
    /// explicit leave command and by the idle reclaim.  Nothing to do when
    /// no session is registered.
    pub fn remove(&mut self, guild: u64) -> (r: Option<Vec<Action>>)
        requires
            old(self).inv(),
        ensures
            final(self).inv(),
            final(self)@ == old(self)@.remove(guild),
            r is Some <==> old(self)@.contains_key(guild),
            r matches Some(acts) ==> acts@ == seq![Action::Disconnect],
            final(self).gen_bound() == old(self).gen_bound(),
    {
        match self.sessions.remove(&guild) {
            None => {
                proof {
                    assert(self@ =~= old(self)@.remove(guild));
                }
                None
            },
            Some(_) => {
                let mut acts: Vec<Action> = Vec::new();
                acts.push(Action::Disconnect);
                proof {
                    assert(self@ =~= old(self)@.remove(guild));
                }
                Some(acts)
            },
        }
    }

    /// Appends `sources` to the guild's queue, starting playback and arming
    /// the idle chain as [`Session::enqueue_and_play`] says; reports the new
    /// queue length.  Nothing to do when no session is registered.
    pub fn enqueue_and_play(&mut self, guild: u64, sources: &Vec<u64>) -> (r: Option<
        (usize, Vec<Action>),
    >)
        requires
            old(self).inv(),
        ensures
            final(self).inv(),
            final(self)@ == if old(self)@.contains_key(guild) {
                old(self)@.insert(guild, after_enqueue(old(self)@[guild], sources@))
            } else {
                old(self)@
            },
            r is Some <==> old(self)@.contains_key(guild),
            r matches Some(p) ==> {
                &&& p.0 == after_enqueue(old(self)@[guild], sources@).queue.entries.len()
                &&& p.1@ == enqueue_actions(old(self)@[guild], sources@)
            },
            final(self).gen_bound() == old(self).gen_bound(),
    {
        match self.sessions.remove(&guild) {
            None => {
                proof {
                    assert(self@ =~= old(self)@);
                }
                None
            },
            Some(mut s) => {
                let acts = s.enqueue_and_play(sources);
                let n = s.queue_len();
                self.sessions.insert(guild, s);
                proof {
                    assert(self@ =~= old(self)@.insert(
                        guild,
                        after_enqueue(old(self)@[guild], sources@),
                    ));
                    self.lemma_reinsert_keeps_inv(old(self), guild);
                }
                Some((n, acts))
            },
        }
    }

    /// Skips the guild's current track, asking the engine to stop it and to
    /// start the entry that moved up; reports the new queue length.
    /// Nothing to do when no session is registered.
    pub fn skip(&mut self, guild: u64) -> (r: Option<(usize, Vec<Action>)>)
        requires
            old(self).inv(),
            old(self)@.contains_key(guild) && old(self)@[guild].queue.entries.len() > 0
                ==> old(self)@[guild].pending_stops < u64::MAX,
        ensures
            final(self).inv(),
            final(self)@ == if old(self)@.contains_key(guild) {
                old(self)@.insert(guild, after_skip(old(self)@[guild]))
            } else {
                old(self)@
            },
            r is Some <==> old(self)@.contains_key(guild),
            r matches Some(p) ==> {
                &&& p.0 == after_skip(old(self)@[guild]).queue.entries.len()
                &&& p.1@ == skip_actions(old(self)@[guild])
            },
            final(self).gen_bound() == old(self).gen_bound(),
    {
        match self.sessions.remove(&guild) {
            None => {
                proof {
                    assert(self@ =~= old(self)@);
                }
                None
            },
            Some(mut s) => {
                let (n, acts) = s.skip();
                self.sessions.insert(guild, s);
                proof {
                    assert(self@ =~= old(self)@.insert(guild, after_skip(old(self)@[guild])));
                    self.lemma_reinsert_keeps_inv(old(self), guild);
                }
                Some((n, acts))
            },
        }
    }

    /// Clears the guild's queue and halts playback; the generation moves to
    /// a fresh value, so every timer armed before the stop becomes a no-op.
    /// Nothing to do when no session is registered.
    pub fn stop(&mut self, guild: u64) -> (r: Option<Vec<Action>>)
        requires
            old(self).inv(),
            old(self).gen_bound() < u64::MAX,
            old(self)@.contains_key(guild) && old(self)@[guild].queue.entries.len() > 0
                ==> old(self)@[guild].pending_stops < u64::MAX,
        ensures
            final(self).inv(),
            final(self)@ == if old(self)@.contains_key(guild) {
                old(self)@.insert(guild, after_stop(old(self)@[guild], old(self).gen_bound()))
            } else {
                old(self)@
            },
            r is Some <==> old(self)@.contains_key(guild),
            r matches Some(acts) ==> acts@ == seq![Action::Stop],
            final(self).gen_bound() == if old(self)@.contains_key(guild) {
                old(self).gen_bound() + 1
            } else {
                old(self).gen_bound() as int
            },
    {
        match self.sessions.remove(&guild) {
            None => {
                proof {
                    assert(self@ =~= old(self)@);
                }
                None
            },
            Some(mut s) => {
                let acts = s.stop(self.next_generation);
                self.sessions.insert(guild, s);
                self.next_generation = self.next_generation + 1;
                proof {
                    assert(self@ =~= old(self)@.insert(
                        guild,
                        after_stop(old(self)@[guild], old(self).gen_bound()),
                    ));
                    assert forall|g2: u64| #[trigger] self@.contains_key(g2)
                        implies self@[g2].generation < self.gen_bound() by {
                        if g2 != guild {
                            assert(old(self)@.contains_key(g2));
                        }
                    }
                }
                Some(acts)
            },
        }
    }

    /// Suspends the guild's current track.  Nothing to do when no session
    /// is registered.
    pub fn pause(&mut self, guild: u64) -> (r: Option<Vec<Action>>)
        requires
            old(self).inv(),
        ensures
            final(self).inv(),
            final(self)@ == if old(self)@.contains_key(guild) {
                old(self)@.insert(guild, after_pause(old(self)@[guild]))
            } else {
                old(self)@
            },
            r is Some <==> old(self)@.contains_key(guild),
            r matches Some(acts) ==> acts@ == if old(self)@[guild].queue.paused {
                Seq::<Action>::empty()
            } else {
                seq![Action::Pause]
            },
            final(self).gen_bound() == old(self).gen_bound(),
    {
        match self.sessions.remove(&guild) {
            None => {
                proof {
                    assert(self@ =~= old(self)@);
                }
                None
            },
            Some(mut s) => {
                let acts = s.pause();
                self.sessions.insert(guild, s);
                proof {
                    assert(self@ =~= old(self)@.insert(guild, after_pause(old(self)@[guild])));
                    self.lemma_reinsert_keeps_inv(old(self), guild);
                }
                Some(acts)
            },
        }
    }

    /// Continues the guild's suspended track; what a user does to escape the
    /// auto-pause.  Nothing to do when no session is registered.
    pub fn resume(&mut self, guild: u64) -> (r: Option<Vec<Action>>)
        requires
            old(self).inv(),
        ensures
            final(self).inv(),
            final(self)@ == if old(self)@.contains_key(guild) {
                old(self)@.insert(guild, after_resume(old(self)@[guild]))
            } else {
                old(self)@
            },
            r is Some <==> old(self)@.contains_key(guild),
            r matches Some(acts) ==> acts@ == if old(self)@[guild].queue.paused {
                seq![Action::Resume]
            } else {
                Seq::<Action>::empty()
            },
            final(self).gen_bound() == old(self).gen_bound(),
    {
        match self.sessions.remove(&guild) {
            None => {
                proof {
                    assert(self@ =~= old(self)@);
                }
                None
            },
            Some(mut s) => {
                let acts = s.resume();
                self.sessions.insert(guild, s);
                proof {
                    assert(self@ =~= old(self)@.insert(guild, after_resume(old(self)@[guild])));
                    self.lemma_reinsert_keeps_inv(old(self), guild);
                }
                Some(acts)
            },
        }
    }

    /// Randomly permutes the pending tail of the guild's queue; the head
    /// keeps playing the same source and the tail keeps its multiset of
    /// entries.  Nothing to do when no session is registered.
    pub fn shuffle(&mut self, guild: u64) -> (r: Option<Vec<Action>>)
        requires
            old(self).inv(),
        ensures
            final(self).inv(),
            !old(self)@.contains_key(guild) ==> final(self)@ == old(self)@,
            old(self)@.contains_key(guild) ==> {
                &&& final(self)@.contains_key(guild)
                &&& final(self)@.remove(guild) == old(self)@.remove(guild)
                &&& shuffled_session(old(self)@[guild], final(self)@[guild])
            },
            r is Some <==> old(self)@.contains_key(guild),
            r matches Some(acts) ==> acts@ == seq![Action::Pause, Action::Resume],
            final(self).gen_bound() == old(self).gen_bound(),
    {
        match self.sessions.remove(&guild) {
            None => {
                proof {
                    assert(self@ =~= old(self)@);
                }
                None
            },
            Some(mut s) => {
                let acts = s.shuffle();
                self.sessions.insert(guild, s);
                proof {
                    assert(self@.remove(guild) =~= old(self)@.remove(guild));
                    assert forall|g2: u64| #[trigger] self@.contains_key(g2)
                        implies self@[g2].generation < self.gen_bound() by {
                        if g2 != guild {
                            assert(old(self)@.contains_key(g2));
                        } else {
                            assert(old(self)@.contains_key(guild));
                        }
                    }
                }
                Some(acts)
            },
        }
    }

    /// Whether setting the guild's mute flag to `target` would change
    /// anything; a repeated request is reported as already-in-that-state.
    pub fn mute_change_needed(&self, guild: u64, target: bool) -> (r: Option<bool>)
        ensures
            r == if self@.contains_key(guild) {
                Some(self@[guild].muted != target)
            } else {
                None::<bool>
            },
    {
        match self.sessions.get(&guild) {
            None => None,
            Some(s) => Some(s.mute_change_needed(target)),
        }
    }

    /// Records that the transport accepted the guild's mute flag `target`;
    /// reports whether a session was there to record it on.
    pub fn record_mute(&mut self, guild: u64, target: bool) -> (ok: bool)
        requires
            old(self).inv(),
        ensures
            final(self).inv(),
            ok == old(self)@.contains_key(guild),
            final(self)@ == if old(self)@.contains_key(guild) {
                old(self)@.insert(guild, with_muted(old(self)@[guild], target))
            } else {
                old(self)@
            },
            final(self).gen_bound() == old(self).gen_bound(),
    {
        match self.sessions.remove(&guild) {
            None => {
                proof {
                    assert(self@ =~= old(self)@);
                }
                false
            },
            Some(mut s) => {
                s.record_mute(target);
                self.sessions.insert(guild, s);
                proof {
                    assert(self@ =~= old(self)@.insert(guild, with_muted(old(self)@[guild], target)));
                    self.lemma_reinsert_keeps_inv(old(self), guild);
                }
                true
            },
        }
    }

    /// Whether setting the guild's deafen flag to `target` would change
    /// anything; a repeated request is reported as already-in-that-state.
    pub fn deafen_change_needed(&self, guild: u64, target: bool) -> (r: Option<bool>)
        ensures
            r == if self@.contains_key(guild) {
                Some(self@[guild].deafened != target)
            } else {
                None::<bool>
            },
    {
        match self.sessions.get(&guild) {
            None => None,
            Some(s) => Some(s.deafen_change_needed(target)),
        }
    }

    /// Records that the transport accepted the guild's deafen flag
    /// `target`; reports whether a session was there to record it on.
    pub fn record_deafen(&mut self, guild: u64, target: bool) -> (ok: bool)
        requires
            old(self).inv(),
        ensures
            final(self).inv(),
            ok == old(self)@.contains_key(guild),
            final(self)@ == if old(self)@.contains_key(guild) {
                old(self)@.insert(guild, with_deafened(old(self)@[guild], target))
            } else {
                old(self)@
            },
            final(self).gen_bound() == old(self).gen_bound(),
    {
        match self.sessions.remove(&guild) {
            None => {
                proof {
                    assert(self@ =~= old(self)@);
                }
                false
            },
            Some(mut s) => {
                s.record_deafen(target);
                self.sessions.insert(guild, s);
                proof {
                    assert(self@ =~= old(self)@.insert(
                        guild,
                        with_deafened(old(self)@[guild], target),
                    ));
                    self.lemma_reinsert_keeps_inv(old(self), guild);
                }
                true
            },
        }
    }

    /// Handles the engine's report that a track of the guild's ended.  An
    /// event that is only the echo of a stop this session ordered (a skip
    /// or a halt) is swallowed.  On a genuine completion the head is
    /// discarded, the next source is started, and a session left with an
    /// empty queue is reclaimed — checked and removed in this same call, so
    /// an enqueue can never slip in between.
    pub fn on_track_end(&mut self, guild: u64) -> (acts: Vec<Action>)
        requires
            old(self).inv(),
        ensures
            final(self).inv(),
            final(self)@ == spec_track_end(old(self)@, guild),
            acts@ == track_end_actions(old(self)@, guild),
            final(self).gen_bound() == old(self).gen_bound(),
    {
        match self.sessions.remove(&guild) {
            None => {
                let acts: Vec<Action> = Vec::new();
                proof {
                    assert(self@ =~= spec_track_end(old(self)@, guild));
                }
                acts
            },
            Some(mut s) => {
                if s.pending_stops() > 0 {
                    s.consume_stop();
                    self.sessions.insert(guild, s);
                    let acts: Vec<Action> = Vec::new();
                    proof {
                        assert(self@ =~= spec_track_end(old(self)@, guild));
                        self.lemma_reinsert_keeps_inv(old(self), guild);
                    }
                    return acts;
                }
                let next = s.advance_track();
                let mut acts: Vec<Action> = Vec::new();
                match next {
                    None => {
                        // the queue ran dry: reclaim, dropping the session
                        acts.push(Action::Disconnect);
                        proof {
                            assert(self@ =~= spec_track_end(old(self)@, guild));
                        }
                        acts
                    },
                    Some(next_source) => {
                        acts.push(Action::Play(next_source));
                        self.sessions.insert(guild, s);
                        proof {
                            assert(self@ =~= spec_track_end(old(self)@, guild));
                            self.lemma_reinsert_keeps_inv(old(self), guild);
                        }
                        acts
                    },
                }
            },
        }
    }

    /// Handles a fired timer carrying `generation`.  A timer for an absent
    /// guild or a stale generation does nothing observable: the registry is
    /// unchanged and no intent is asked for.
    pub fn on_timer(&mut self, guild: u64, kind: TimerKind, generation: u64) -> (acts: Vec<
        Action,
    >)
        requires
            old(self).inv(),
        ensures
            final(self).inv(),
            final(self)@ == spec_on_timer(old(self)@, guild, kind, generation),
            acts@ == timer_actions(old(self)@, guild, kind, generation),
            final(self).gen_bound() == old(self).gen_bound(),
    {
        match self.sessions.remove(&guild) {
            None => {
                let acts: Vec<Action> = Vec::new();
                proof {
                    assert(self@ =~= spec_on_timer(old(self)@, guild, kind, generation));
                }
                acts
            },
            Some(mut s) => {
                let mut acts: Vec<Action> = Vec::new();
                if s.generation() != generation {
                    self.sessions.insert(guild, s);
                    proof {
                        assert(self@ =~= spec_on_timer(old(self)@, guild, kind, generation));
                        self.lemma_reinsert_keeps_inv(old(self), guild);
                    }
                    acts
                } else {
                    match kind {
                        TimerKind::LongSession => {
                            if s.is_active() {
                                s.auto_pause();
                                acts.push(Action::Pause);
                                acts.push(Action::NotifyAutoPaused);
                                acts.push(Action::ArmRecheckTimer(generation));
                            }
                            self.sessions.insert(guild, s);
                            proof {
                                assert(self@ =~= spec_on_timer(
                                    old(self)@,
                                    guild,
                                    kind,
                                    generation,
                                ));
                                self.lemma_reinsert_keeps_inv(old(self), guild);
                            }
                            acts
                        },
                        TimerKind::Recheck => {
                            if s.is_active() {
                                self.sessions.insert(guild, s);
                                proof {
                                    assert(self@ =~= spec_on_timer(
                                        old(self)@,
                                        guild,
                                        kind,
                                        generation,
                                    ));
                                    self.lemma_reinsert_keeps_inv(old(self), guild);
                                }
                                acts
                            } else if s.queue_paused() {
                                // still paused since the auto-pause: reclaim
                                acts.push(Action::Disconnect);
                                proof {
                                    assert(self@ =~= spec_on_timer(
                                        old(self)@,
                                        guild,
                                        kind,
                                        generation,
                                    ));
                                }
                                acts
                            } else {
                                s.recheck_resumed();
                                self.sessions.insert(guild, s);
                                proof {
                                    assert(self@ =~= spec_on_timer(
                                        old(self)@,
                                        guild,
                                        kind,
                                        generation,
                                    ));
                                    self.lemma_reinsert_keeps_inv(old(self), guild);
                                }
                                acts
                            }
                        },
                    }
                }
            },
        }
    }

    /// After putting back a session whose generation did not change, the
    /// generation bound still dominates every registered session.
    proof fn lemma_reinsert_keeps_inv(&self, prev: &Registry, guild: u64)
        requires
            prev.inv(),
            self.gen_bound() == prev.gen_bound(),
            forall|g2: u64|
                #[trigger] self@.contains_key(g2) ==> if g2 == guild {
                    prev@.contains_key(g2) && self@[g2].generation == prev@[g2].generation
                } else {
                    prev@.contains_key(g2) && self@[g2] == prev@[g2]
                },
        ensures
            self.inv(),
    {
    }
}

/// Law: joins for the same guild create exactly one session.  After a first
/// join, a second join to the same channel changes nothing, whatever fresh
/// generation it would have drawn: the second caller observes the session
/// the first one made.
pub proof fn lemma_join_single_session(
    m: Map<u64, SessionModel>,
    g: u64,
    ch: u64,
    f1: u64,
    f2: u64,
)
    ensures
        spec_join(spec_join(m, g, ch, f1), g, ch, f2) == spec_join(m, g, ch, f1),
{
    let m1 = spec_join(m, g, ch, f1);
    assert(m1.contains_key(g));
    assert(m1[g].channel == ch);
}

/// Law: a genuine track-completion notification that finds the queue empty
/// removes the session from the registry exactly once.  A second
/// notification, or one that lost the race against an explicit leave,
/// finds nothing and changes nothing.
pub proof fn lemma_reclaim_once(m: Map<u64, SessionModel>, g: u64)
    requires
        m.contains_key(g),
        m[g].queue.entries.len() == 0,
        m[g].pending_stops == 0,
    ensures
        spec_track_end(m, g) == m.remove(g),
        spec_track_end(spec_track_end(m, g), g) == spec_track_end(m, g),
        spec_track_end(m.remove(g), g) == m.remove(g),
{
    assert(!m.remove(g).contains_key(g));
}

/// Law: a completion event that is only the echo of a stop the session
/// ordered neither advances the queue, nor reclaims the session, nor asks
/// for any intent: one expected echo is consumed and all else stands.
pub proof fn lemma_echoed_stop_is_swallowed(m: Map<u64, SessionModel>, g: u64)
    requires
        m.contains_key(g),
        m[g].pending_stops > 0,
    ensures
        spec_track_end(m, g) == m.insert(g, with_stop_consumed(m[g])),
        spec_track_end(m, g).contains_key(g),
        spec_track_end(m, g)[g].queue == m[g].queue,
        track_end_actions(m, g) == Seq::<Action>::empty(),
{
}

/// Law (idle chain): a session that receives no user activity is
/// force-paused when the long-session timer fires and removed from the
/// registry when the recheck still finds it paused; a resume between the
/// two keeps it registered and returns it to normal running.
pub proof fn lemma_idle_chain(m: Map<u64, SessionModel>, g: u64, generation: u64)
    requires
        m.contains_key(g),
        m[g].generation == generation,
        m[g].idle is Active,
    ensures
        ({
            let m1 = spec_on_timer(m, g, TimerKind::LongSession, generation);
            &&& m1.contains_key(g)
            &&& m1[g].idle is AutoPaused
            &&& m1[g].queue.paused
            &&& !spec_on_timer(m1, g, TimerKind::Recheck, generation).contains_key(g)
            &&& ({
                let m2 = m1.insert(g, after_resume(m1[g]));
                let m3 = spec_on_timer(m2, g, TimerKind::Recheck, generation);
                m3.contains_key(g) && m3[g].idle is Active
            })
        }),
{
}

/// Law: a timer fired against a generation that no longer matches the
/// guild's session, or against a guild with no session at all, performs no
/// observable action: the registry is unchanged and no intent is produced.
pub proof fn lemma_stale_timer_noop(
    m: Map<u64, SessionModel>,
    g: u64,
    kind: TimerKind,
    generation: u64,
)
    requires
        !m.contains_key(g) || m[g].generation != generation,
    ensures
        spec_on_timer(m, g, kind, generation) == m,
        timer_actions(m, g, kind, generation) == Seq::<Action>::empty(),
{
}

} // verus!

// Scenario tests for the queue, the session registry, and the idle-timeout
// chain, exercising the library exactly as an unverified driver would: every
// observation goes through the returned intents and the public queries.

use voicecore::queue::Queue;
use voicecore::registry::JoinOutcome;
use voicecore::registry::Registry;
use voicecore::registry::TimerKind;
use voicecore::session::Action;

fn sorted(mut v: Vec<u64>) -> Vec<u64> {
    v.sort();
    v
}

/// Pulls the generation out of the arm-long-timer intent of an enqueue.
fn armed_generation(acts: &[Action]) -> Option<u64> {
    for a in acts {
        if let Action::ArmLongTimer(g) = a {
            return Some(*g);
        }
    }
    None
}

#[test]
fn queue_accounting_over_operation_runs() {
    // 4 enqueues, 2 effective skips, 1 skip on empty, 1 stop:
    // length always equals enqueues minus discarded entries.
    let mut q = Queue::new();
    assert_eq!(q.length(), 0);
    assert!(q.is_empty());
    q.enqueue(10);
    q.enqueue(11);
    q.enqueue(12);
    assert_eq!(q.length(), 3);
    assert_eq!(q.skip(), 2);
    assert_eq!(q.skip(), 1);
    q.enqueue(13);
    assert_eq!(q.length(), 2);
    q.stop();
    assert_eq!(q.length(), 0);
    assert_eq!(q.skip(), 0); // skip on empty stays a no-op
    assert_eq!(q.length(), 0);
}

#[test]
fn queue_skip_advances_head() {
    let mut q = Queue::new();
    q.enqueue(7);
    q.enqueue(8);
    q.enqueue(9);
    assert_eq!(q.current(), Some(7));
    q.skip();
    assert_eq!(q.current(), Some(8));
    assert_eq!(q.to_vec(), vec![8, 9]);
}

#[test]
fn queue_pause_resume_idempotent() {
    let mut q = Queue::new();
    q.enqueue(1);
    assert!(!q.is_paused());
    q.pause();
    assert!(q.is_paused());
    q.pause(); // pausing a paused queue stays a no-op
    assert!(q.is_paused());
    assert_eq!(q.length(), 1);
    q.resume();
    assert!(!q.is_paused());
    q.resume();
    assert!(!q.is_paused());
}

#[test]
fn shuffle_keeps_head_and_pending_multiset() {
    let mut q = Queue::new();
    for x in [5, 1, 4, 2, 3] {
        q.enqueue(x);
    }
    let before = q.to_vec();
    q.pause();
    q.shuffle();
    let after = q.to_vec();
    assert_eq!(after.len(), before.len());
    assert_eq!(after[0], before[0]); // the playing head never moves
    assert_eq!(sorted(after[1..].to_vec()), sorted(before[1..].to_vec()));
    assert!(!q.is_paused()); // shuffle resumes after permuting
}

#[test]
fn shuffle_on_short_queues_is_harmless() {
    let mut empty = Queue::new();
    empty.shuffle();
    assert_eq!(empty.length(), 0);
    let mut one = Queue::new();
    one.enqueue(42);
    one.shuffle();
    assert_eq!(one.to_vec(), vec![42]);
}

#[test]
fn get_or_create_creates_exactly_one_session() {
    let mut r = Registry::new();
    assert!(!r.is_connected(9));
    let (first, acts1) = r.get_or_create(9, 100);
    assert_eq!(first, JoinOutcome::Created);
    assert_eq!(acts1, vec![Action::Connect(100)]);
    // every later caller racing to the same guild observes the first session
    for _ in 0..5 {
        let (second, acts2) = r.get_or_create(9, 100);
        assert_eq!(second, JoinOutcome::AlreadyConnected);
        assert!(acts2.is_empty());
    }
    assert!(r.is_connected(9));
    // a join to another channel moves the one session, creating nothing
    let (third, acts3) = r.get_or_create(9, 200);
    assert_eq!(third, JoinOutcome::Reconnected);
    assert_eq!(acts3, vec![Action::Connect(200)]);
}

#[test]
fn enqueue_starts_playback_and_arms_chain_once() {
    let mut r = Registry::new();
    r.get_or_create(3, 50);
    let (n, acts) = r.enqueue_and_play(3, &vec![21, 22]).unwrap();
    assert_eq!(n, 2);
    assert_eq!(acts[0], Action::Play(21));
    let gen = armed_generation(&acts).expect("first enqueue arms the chain");
    // a second enqueue neither restarts playback nor re-arms the chain
    let (n2, acts2) = r.enqueue_and_play(3, &vec![23]).unwrap();
    assert_eq!(n2, 3);
    assert!(acts2.is_empty());
    // the chain was armed with the session's generation
    let pause_acts = r.on_timer(3, TimerKind::LongSession, gen);
    assert!(pause_acts.contains(&Action::Pause));
}

#[test]
fn enqueue_without_session_reports_not_connected() {
    let mut r = Registry::new();
    assert!(r.enqueue_and_play(77, &vec![1]).is_none());
    assert!(r.skip(77).is_none());
    assert!(r.stop(77).is_none());
    assert!(r.pause(77).is_none());
    assert!(r.resume(77).is_none());
    assert!(r.shuffle(77).is_none());
    assert!(r.remove(77).is_none());
    assert!(r.queue_len(77).is_none());
    assert!(r.mute_change_needed(77, true).is_none());
}

#[test]
fn track_end_on_empty_queue_reclaims_exactly_once() {
    let mut r = Registry::new();
    r.get_or_create(4, 60);
    // empty queue: the completion reclaims the session with one disconnect
    let acts = r.on_track_end(4);
    assert_eq!(acts, vec![Action::Disconnect]);
    assert!(!r.is_connected(4));
    // the racing second notification finds nothing and does nothing
    let acts2 = r.on_track_end(4);
    assert!(acts2.is_empty());
    // as does a leave that lost the race
    assert!(r.remove(4).is_none());
}

#[test]
fn leave_winning_the_race_leaves_nothing_for_track_end() {
    let mut r = Registry::new();
    r.get_or_create(5, 61);
    let leave_acts = r.remove(5).unwrap();
    assert_eq!(leave_acts, vec![Action::Disconnect]);
    let acts = r.on_track_end(5);
    assert!(acts.is_empty());
    assert!(!r.is_connected(5));
}

#[test]
fn track_end_advances_to_next_source() {
    let mut r = Registry::new();
    r.get_or_create(6, 62);
    r.enqueue_and_play(6, &vec![31, 32]).unwrap();
    let acts = r.on_track_end(6);
    assert_eq!(acts, vec![Action::Play(32)]);
    assert_eq!(r.queue_len(6), Some(1));
    // the last track completing empties the queue and reclaims
    let acts2 = r.on_track_end(6);
    assert_eq!(acts2, vec![Action::Disconnect]);
    assert!(!r.is_connected(6));
}

#[test]
fn skip_echo_is_swallowed_and_second_source_survives() {
    let mut r = Registry::new();
    r.get_or_create(50, 95);
    r.enqueue_and_play(50, &vec![1, 2]).unwrap();
    // skip stops the first source and starts the second at once
    let (n, acts) = r.skip(50).unwrap();
    assert_eq!(n, 1);
    assert_eq!(acts, vec![Action::Skip, Action::Play(2)]);
    // the engine answers the ordered stop with an end event: swallowed
    let echo = r.on_track_end(50);
    assert!(echo.is_empty());
    assert!(r.is_connected(50));
    assert_eq!(r.queue_len(50), Some(1));
    assert_eq!(r.current_track(50), Some(2));
    // the genuine completion of the second source then reclaims
    let done = r.on_track_end(50);
    assert_eq!(done, vec![Action::Disconnect]);
    assert!(!r.is_connected(50));
}

#[test]
fn stop_echo_does_not_reclaim_session() {
    let mut r = Registry::new();
    r.get_or_create(51, 96);
    r.enqueue_and_play(51, &vec![3]).unwrap();
    let acts = r.stop(51).unwrap();
    assert_eq!(acts, vec![Action::Stop]);
    // the end event the halt provokes must not tear the session down
    let echo = r.on_track_end(51);
    assert!(echo.is_empty());
    assert!(r.is_connected(51));
    assert_eq!(r.queue_len(51), Some(0));
}

#[test]
fn stop_then_enqueue_keeps_first_new_source() {
    let mut r = Registry::new();
    r.get_or_create(52, 97);
    r.enqueue_and_play(52, &vec![4, 5]).unwrap();
    // the play command's pattern: halt everything, then queue fresh sources
    r.stop(52).unwrap();
    let (n, acts) = r.enqueue_and_play(52, &vec![6, 7]).unwrap();
    assert_eq!(n, 2);
    assert_eq!(acts[0], Action::Play(6));
    // the halt's echo arrives after the new sources were queued: swallowed
    let echo = r.on_track_end(52);
    assert!(echo.is_empty());
    assert!(r.is_connected(52));
    assert_eq!(r.queue_len(52), Some(2));
    assert_eq!(r.current_track(52), Some(6));
}

#[test]
fn failed_connect_tears_session_down() {
    let mut r = Registry::new();
    let (first, acts) = r.get_or_create(53, 98);
    assert_eq!(first, JoinOutcome::Created);
    assert_eq!(acts, vec![Action::Connect(98)]);
    // the transport reports the connect failed: nothing stays registered
    assert!(r.on_connect_failed(53));
    assert!(!r.is_connected(53));
    assert!(r.queue_len(53).is_none());
    // reporting a failure twice finds nothing the second time
    assert!(!r.on_connect_failed(53));
}

#[test]
fn idle_chain_reclaims_untouched_session() {
    let mut r = Registry::new();
    r.get_or_create(8, 70);
    let (_, acts) = r.enqueue_and_play(8, &vec![40]).unwrap();
    let gen = armed_generation(&acts).unwrap();
    // the long-session timer fires: force-pause, notify, arm the recheck
    let pause_acts = r.on_timer(8, TimerKind::LongSession, gen);
    assert_eq!(
        pause_acts,
        vec![Action::Pause, Action::NotifyAutoPaused, Action::ArmRecheckTimer(gen)]
    );
    assert_eq!(r.queue_paused(8), Some(true));
    // nobody resumes; the recheck fires and reclaims the session
    let recheck_acts = r.on_timer(8, TimerKind::Recheck, gen);
    assert_eq!(recheck_acts, vec![Action::Disconnect]);
    assert!(!r.is_connected(8));
}

#[test]
fn resume_between_pause_and_recheck_keeps_session() {
    let mut r = Registry::new();
    r.get_or_create(12, 71);
    let (_, acts) = r.enqueue_and_play(12, &vec![41]).unwrap();
    let gen = armed_generation(&acts).unwrap();
    r.on_timer(12, TimerKind::LongSession, gen);
    // a user resumes before the recheck
    let resume_acts = r.resume(12).unwrap();
    assert_eq!(resume_acts, vec![Action::Resume]);
    // the recheck finds playback running and reclaims nothing
    let recheck_acts = r.on_timer(12, TimerKind::Recheck, gen);
    assert!(recheck_acts.is_empty());
    assert!(r.is_connected(12));
    assert_eq!(r.queue_paused(12), Some(false));
}

#[test]
fn stale_timer_performs_no_observable_action() {
    let mut r = Registry::new();
    r.get_or_create(14, 72);
    let (_, acts) = r.enqueue_and_play(14, &vec![42, 43]).unwrap();
    let gen = armed_generation(&acts).unwrap();
    // a wrong generation: nothing happens, no intents at all
    let stale = r.on_timer(14, TimerKind::LongSession, gen.wrapping_add(1));
    assert!(stale.is_empty());
    assert!(r.is_connected(14));
    assert_eq!(r.queue_paused(14), Some(false));
    assert_eq!(r.queue_len(14), Some(2));
    // a timer against a guild with no session is just as silent
    let absent = r.on_timer(999, TimerKind::Recheck, gen);
    assert!(absent.is_empty());
}

#[test]
fn stop_invalidates_previously_armed_timers() {
    let mut r = Registry::new();
    r.get_or_create(15, 73);
    let (_, acts) = r.enqueue_and_play(15, &vec![44]).unwrap();
    let gen = armed_generation(&acts).unwrap();
    let stop_acts = r.stop(15).unwrap();
    assert_eq!(stop_acts, vec![Action::Stop]);
    assert_eq!(r.queue_len(15), Some(0));
    // the timer armed before the stop now carries a stale generation
    let stale = r.on_timer(15, TimerKind::LongSession, gen);
    assert!(stale.is_empty());
    assert_eq!(r.queue_paused(15), Some(false));
    assert!(r.is_connected(15));
}

#[test]
fn end_to_end_three_sources_skip_then_stop() {
    let mut r = Registry::new();
    r.get_or_create(20, 80);
    let (n, acts) = r.enqueue_and_play(20, &vec![101, 102, 103]).unwrap();
    assert_eq!(n, 3);
    assert_eq!(acts[0], Action::Play(101));
    assert_eq!(r.queue_len(20), Some(3));
    // skip: length 2, the engine stops the first source and starts the second
    let (n2, skip_acts) = r.skip(20).unwrap();
    assert_eq!(n2, 2);
    assert_eq!(skip_acts, vec![Action::Skip, Action::Play(102)]);
    assert_eq!(r.current_track(20), Some(102));
    // stop: length 0 and the engine receives a halt intent
    let stop_acts = r.stop(20).unwrap();
    assert_eq!(stop_acts, vec![Action::Stop]);
    assert_eq!(r.queue_len(20), Some(0));
    assert_eq!(r.current_track(20), None);
}

#[test]
fn shuffle_through_registry_pauses_and_resumes() {
    let mut r = Registry::new();
    r.get_or_create(21, 81);
    r.enqueue_and_play(21, &vec![1, 2, 3, 4, 5, 6]).unwrap();
    let before = r.queue_entries(21).unwrap();
    let acts = r.shuffle(21).unwrap();
    assert_eq!(acts, vec![Action::Pause, Action::Resume]);
    let after = r.queue_entries(21).unwrap();
    assert_eq!(after[0], before[0]);
    assert_eq!(sorted(after[1..].to_vec()), sorted(before[1..].to_vec()));
    assert_eq!(r.queue_paused(21), Some(false));
}

#[test]
fn mute_and_deafen_report_already_in_state() {
    let mut r = Registry::new();
    r.get_or_create(30, 90);
    // fresh session: not muted, so muting changes something
    assert_eq!(r.mute_change_needed(30, true), Some(true));
    assert!(r.record_mute(30, true));
    // a repeated mute is already-in-that-state, not re-issued
    assert_eq!(r.mute_change_needed(30, true), Some(false));
    assert_eq!(r.mute_change_needed(30, false), Some(true));
    // deafen tracks its own flag
    assert_eq!(r.deafen_change_needed(30, true), Some(true));
    assert!(r.record_deafen(30, true));
    assert_eq!(r.deafen_change_needed(30, true), Some(false));
    assert!(!r.record_mute(31, true)); // no session, nothing recorded
}

#[test]
fn pause_resume_intents_follow_state() {
    let mut r = Registry::new();
    r.get_or_create(40, 91);
    r.enqueue_and_play(40, &vec![9]).unwrap();
    assert_eq!(r.pause(40).unwrap(), vec![Action::Pause]);
    // pausing a paused queue asks for nothing
    assert!(r.pause(40).unwrap().is_empty());
    assert_eq!(r.resume(40).unwrap(), vec![Action::Resume]);
    assert!(r.resume(40).unwrap().is_empty());
}

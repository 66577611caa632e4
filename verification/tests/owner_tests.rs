use midi_sender::scheduler::types::{KeyStateStore, MidiEvent, NOTE_OFF_MSG, NOTE_ON_MSG};
use midi_sender::scheduler::{
    apply_state_change, plan_cancel, plan_play, wait_time, KeyCancel, KeyPlay, KeyStateChange,
    MutexMessage, MutexQuery, StateChangeMessage, StepResult,
};
use tokio::sync::oneshot;

/// Acquire a slot's generation the way a scheduling task does: round-trip a
/// `MutexUpdate` through the state owner and read the one-shot reply.
fn acquire(store: &mut KeyStateStore, channel: u8, note: u8, now: u64) -> MutexMessage {
    let (tx, mut rx) = oneshot::channel();
    let step = apply_state_change(
        store,
        KeyStateChange::MutexUpdate(MutexQuery::new(tx, channel, note)),
        now,
    );
    let reply = rx.try_recv().expect("the owner answers before continuing");
    assert_eq!(step, StepResult::Replied(reply));
    reply
}

#[test]
fn mutex_request_reads_without_bumping() {
    let mut store = KeyStateStore::new();

    let (tx, mut rx) = oneshot::channel();
    let step = apply_state_change(
        &mut store,
        KeyStateChange::MutexRequest(MutexQuery::new(tx, 3, 70)),
        0,
    );
    let reply = rx.try_recv().expect("reply must arrive");
    assert_eq!(reply, MutexMessage::new(0, 0));
    assert_eq!(step, StepResult::Replied(reply));

    // A second read still sees generation zero: nothing was bumped.
    let (tx2, mut rx2) = oneshot::channel();
    apply_state_change(
        &mut store,
        KeyStateChange::MutexRequest(MutexQuery::new(tx2, 3, 70)),
        0,
    );
    assert_eq!(rx2.try_recv().unwrap(), MutexMessage::new(0, 0));
}

#[test]
fn mutex_update_bumps_and_replies() {
    let mut store = KeyStateStore::new();
    assert_eq!(acquire(&mut store, 1, 60, 0), MutexMessage::new(1, 0));
    assert_eq!(acquire(&mut store, 1, 60, 0), MutexMessage::new(2, 0));
    // Another slot has its own counter.
    assert_eq!(acquire(&mut store, 1, 61, 0), MutexMessage::new(1, 0));
}

#[test]
fn abandoned_reply_channel_is_not_fatal() {
    let mut store = KeyStateStore::new();
    let (tx, rx) = oneshot::channel::<MutexMessage>();
    drop(rx);
    // The requester is gone; the owner carries on normally.
    let step = apply_state_change(
        &mut store,
        KeyStateChange::MutexUpdate(MutexQuery::new(tx, 0, 0)),
        0,
    );
    assert_eq!(step, StepResult::Replied(MutexMessage::new(1, 0)));
}

#[test]
fn close_stops_consuming() {
    let mut store = KeyStateStore::new();
    assert_eq!(
        apply_state_change(&mut store, KeyStateChange::Close, 0),
        StepResult::Closed
    );
}

#[test]
fn sync_update_rebases_anchor() {
    let mut store = KeyStateStore::new();
    let step = apply_state_change(&mut store, KeyStateChange::SyncUpdate, 42_000);
    assert_eq!(step, StepResult::Quiet);
    // The next acquisition carries the new anchor.
    assert_eq!(acquire(&mut store, 0, 1, 42_000), MutexMessage::new(1, 42_000));
}

#[test]
fn scenario_single_play() {
    // Play(offset=0, duration=600ms, ch=1, note=60, vel=80) alone:
    // exactly two events, note-on at the anchor and note-off 600ms later.
    let mut store = KeyStateStore::new();
    let action = KeyPlay::new(0, 600_000_000, 1, 60, 80);

    let reply = acquire(&mut store, action.channel, action.note, 0);
    let plan = plan_play(&action, &reply);
    assert_eq!(plan.play_at, 0);
    assert_eq!(plan.stop_at, 600_000_000);

    let mut events: Vec<MidiEvent> = Vec::new();
    match apply_state_change(&mut store, KeyStateChange::Play(plan.message), 0) {
        StepResult::Emit(event) => events.push(event),
        _ => {}
    }
    match apply_state_change(&mut store, KeyStateChange::Stop(plan.message), 0) {
        StepResult::Emit(event) => events.push(event),
        _ => {}
    }

    assert_eq!(
        events,
        vec![
            MidiEvent::Raw([NOTE_ON_MSG, 60, 80]),
            MidiEvent::Raw([NOTE_OFF_MSG, 60, 80]),
        ]
    );
}

#[test]
fn scenario_rapid_retrigger() {
    // Play A (600ms) immediately followed by play B (300ms) on the same
    // slot: both acquire at schedule time, B last, so only B's pair is
    // emitted - 2 events in total, never 4.
    let mut store = KeyStateStore::new();
    let play_a = KeyPlay::new(0, 600_000_000, 1, 60, 80);
    let play_b = KeyPlay::new(0, 300_000_000, 1, 60, 80);

    let reply_a = acquire(&mut store, 1, 60, 0);
    let reply_b = acquire(&mut store, 1, 60, 0);
    let plan_a = plan_play(&play_a, &reply_a);
    let plan_b = plan_play(&play_b, &reply_b);

    let mut events: Vec<MidiEvent> = Vec::new();
    // Both play deadlines are at the anchor; arrival order A then B.
    // B's stop deadline (300ms) passes before A's (600ms).
    let order = [
        KeyStateChange::Play(plan_a.message),
        KeyStateChange::Play(plan_b.message),
        KeyStateChange::Stop(plan_b.message),
        KeyStateChange::Stop(plan_a.message),
    ];
    for change in order {
        if let StepResult::Emit(event) = apply_state_change(&mut store, change, 0) {
            events.push(event);
        }
    }

    assert_eq!(
        events,
        vec![
            MidiEvent::Raw([NOTE_ON_MSG, 60, 80]),
            MidiEvent::Raw([NOTE_OFF_MSG, 60, 80]),
        ]
    );
    assert_eq!(plan_b.message.id, 2);
}

#[test]
fn scenario_sync_reset_is_not_retroactive() {
    // A sync reset issued after a play task captured its deadlines does not
    // retroactively change them; only later acquisitions see the new anchor.
    let mut store = KeyStateStore::new();
    apply_state_change(&mut store, KeyStateChange::SyncUpdate, 1_000);

    let action = KeyPlay::new(5, 10, 1, 60, 80);
    let reply = acquire(&mut store, 1, 60, 1_000);
    let plan = plan_play(&action, &reply);
    assert_eq!(plan.play_at, 1_005);
    assert_eq!(plan.stop_at, 1_015);

    apply_state_change(&mut store, KeyStateChange::SyncUpdate, 50_000);

    // The captured deadlines stand as computed.
    assert_eq!(plan.play_at, 1_005);
    assert_eq!(plan.stop_at, 1_015);

    // A task that acquires after the reset anchors against the new value.
    let late_reply = acquire(&mut store, 1, 60, 50_000);
    let late_plan = plan_play(&action, &late_reply);
    assert_eq!(late_plan.play_at, 50_005);
    assert_eq!(late_plan.stop_at, 50_015);
}

#[test]
fn cancel_plan_and_invalidation() {
    let mut store = KeyStateStore::new();

    // A play task acquires and captures its generation.
    let play_reply = acquire(&mut store, 2, 40, 0);
    let message = StateChangeMessage::new(play_reply.mutex, 2, 40, 99);

    // A cancel task reads the anchor, waits out its offset, then bumps.
    let cancel = KeyCancel::new(7, 2, 40);
    let deadline = plan_cancel(&cancel, &play_reply);
    assert_eq!(deadline, 7);
    acquire(&mut store, cancel.channel, cancel.note, 0);

    // The play task's deferred transitions now produce zero events.
    assert_eq!(
        apply_state_change(&mut store, KeyStateChange::Play(message), 0),
        StepResult::Quiet
    );
    assert_eq!(
        apply_state_change(&mut store, KeyStateChange::Stop(message), 0),
        StepResult::Quiet
    );
}

#[test]
fn wait_time_is_zero_once_past() {
    assert_eq!(wait_time(100, 40), 60);
    assert_eq!(wait_time(100, 100), 0);
    assert_eq!(wait_time(100, 250), 0);
    assert_eq!(wait_time(0, 0), 0);
}

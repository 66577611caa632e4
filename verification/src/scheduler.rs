use vstd::prelude::*;

pub mod types;

use crate::scheduler::types::{
    KeyStateStore, MidiEvent, CHANNEL_COUNT, NOTE_COUNT, note_on, note_off,
};

verus! {

/// An inbound play command: a relative start offset and duration (both in
/// nanoseconds against the shared anchor) and the note to sound.
pub struct KeyPlay {
    pub at: u64,
    pub duration: u64,
    pub channel: u8,
    pub note: u8,
    pub velocity: u8,
}

impl KeyPlay {
    pub fn new(at: u64, duration: u64, channel: u8, note: u8, velocity: u8) -> (r: KeyPlay)
        ensures
            r.at == at,
            r.duration == duration,
            r.channel == channel,
            r.note == note,
            r.velocity == velocity,
    {
        KeyPlay { at, duration, channel, note, velocity }
    }
}

/// An inbound cancel command: a relative offset and the slot whose pending
/// work it invalidates.
pub struct KeyCancel {
    pub at: u64,
    pub channel: u8,
    pub note: u8,
}

impl KeyCancel {
    pub fn new(at: u64, channel: u8, note: u8) -> (r: KeyCancel)
        ensures
            r.at == at,
            r.channel == channel,
            r.note == note,
    {
        KeyCancel { at, channel, note }
    }
}

/// The closed vocabulary of inbound commands.
pub enum KeyEvent {
    Play(KeyPlay),
    Cancel(KeyCancel),
}

/// A deferred transition request: the generation captured at acquisition
/// time, carried through so the state owner can check it is still current.
#[derive(Debug, Copy, Clone)]
pub struct StateChangeMessage {
    pub id: u32,
    pub channel: u8,
    pub note: u8,
    pub velocity: u8,
}

impl StateChangeMessage {
    pub fn new(id: u32, channel: u8, note: u8, velocity: u8) -> (r: StateChangeMessage)
        ensures
            r.id == id,
            r.channel == channel,
            r.note == note,
            r.velocity == velocity,
    {
        StateChangeMessage { id, note, channel, velocity }
    }
}

/// The reply to a mutex query: the slot's generation (bumped or merely read)
/// and the shared time anchor at reply time.
#[derive(Debug, Copy, Clone, PartialEq, Eq, Structural)]
pub struct MutexMessage {
    pub mutex: u32,
    pub sync: u64,
}

impl MutexMessage {
    pub fn new(mutex: u32, sync: u64) -> (r: MutexMessage)
        ensures
            r.mutex == mutex,
            r.sync == sync,
    {
        MutexMessage { mutex, sync }
    }
}

/// Relies on tokio::sync::oneshot::Sender, the sending half of a single-use
/// reply channel. Opaque here: it is only carried inside a query and consumed
/// by one send.
#[verifier::external_type_specification]
#[verifier::external_body]
#[verifier::reject_recursive_types(T)]
pub struct ExOneshotSender<T>(tokio::sync::oneshot::Sender<T>);

/// A mutex query: which slot to read or bump, paired with the single-use
/// reply channel the answer goes back on.
pub struct MutexQuery {
    pub reply: tokio::sync::oneshot::Sender<MutexMessage>,
    pub channel: u8,
    pub note: u8,
}

impl MutexQuery {
    pub fn new(reply: tokio::sync::oneshot::Sender<MutexMessage>, channel: u8, note: u8) -> (r:
        MutexQuery)
        ensures
            r.reply == reply,
            r.channel == channel,
            r.note == note,
    {
        MutexQuery { reply, channel, note }
    }
}

/// The closed vocabulary the state owner accepts.
pub enum KeyStateChange {
    Play(StateChangeMessage),
    Stop(StateChangeMessage),
    MutexRequest(MutexQuery),
    MutexUpdate(MutexQuery),
    SyncUpdate,
    Close,
}

/// What one dispatched command asks of the surrounding loop: forward an
/// event to the output relay, carry on quietly, or stop consuming.
/// `Replied` reports the exact reply that was handed to a querying task.
#[derive(Debug, PartialEq)]
pub enum StepResult {
    Emit(MidiEvent),
    Replied(MutexMessage),
    Quiet,
    Closed,
}

/// Relies on tokio::sync::oneshot::Sender::send: it consumes the sender,
/// delivers the message if the receiver still listens, and gives the same
/// message back in `Err` when the receiver is gone. Either outcome is safe:
/// an abandoned reply channel is expected and silent.
#[verifier::external_body]
fn send_reply(reply: tokio::sync::oneshot::Sender<MutexMessage>, msg: MutexMessage) -> (r: Result<
    (),
    MutexMessage,
>)
    ensures
        r matches Err(m) ==> m == msg,
{
    reply.send(msg)
}

/// The addresses a command carries lie inside the grid, and a bump does not
/// overflow the slot's generation counter. Address validation is the
/// decoder's duty: out-of-range input is a contract violation, not an error
/// the owner reports.
pub open spec fn request_in_bounds(store: KeyStateStore, change: KeyStateChange) -> bool {
    match change {
        KeyStateChange::Play(m) => m.channel < CHANNEL_COUNT && m.note < NOTE_COUNT,
        KeyStateChange::Stop(m) => m.channel < CHANNEL_COUNT && m.note < NOTE_COUNT,
        KeyStateChange::MutexRequest(q) => q.channel < CHANNEL_COUNT && q.note < NOTE_COUNT,
        KeyStateChange::MutexUpdate(q) => q.channel < CHANNEL_COUNT && q.note < NOTE_COUNT
            && store.slot(q.channel as int, q.note as int).generation() < u32::MAX,
        KeyStateChange::SyncUpdate => true,
        KeyStateChange::Close => true,
    }
}

/// All slots agree between two grids except possibly the addressed one.
pub open spec fn slots_agree_except(
    pre: KeyStateStore,
    post: KeyStateStore,
    channel: int,
    note: int,
) -> bool {
    forall|c: int, n: int|
        0 <= c < CHANNEL_COUNT && 0 <= n < NOTE_COUNT && !(c == channel && n == note)
            ==> (#[trigger] post.slot(c, n)) == pre.slot(c, n)
}

/// No slot differs between two grids.
pub open spec fn slots_agree(pre: KeyStateStore, post: KeyStateStore) -> bool {
    forall|c: int, n: int|
        0 <= c < CHANNEL_COUNT && 0 <= n < NOTE_COUNT ==> (#[trigger] post.slot(c, n)) == pre.slot(
            c,
            n,
        )
}

/// Exactly how one command moves the grid and what it asks of the loop.
/// `now` is the monotonic reading the owner re-bases the anchor to on
/// `SyncUpdate`; no other command reads it.
pub open spec fn state_change_applied(
    pre: KeyStateStore,
    post: KeyStateStore,
    change: KeyStateChange,
    now: u64,
    r: StepResult,
) -> bool {
    match change {
        KeyStateChange::Play(m) => {
            let s0 = pre.slot(m.channel as int, m.note as int);
            let s1 = post.slot(m.channel as int, m.note as int);
            &&& post.sync == pre.sync
            &&& slots_agree_except(pre, post, m.channel as int, m.note as int)
            &&& s1.generation() == s0.generation()
            &&& s1.is_on() == (s0.play_fires(m.id) || s0.is_on())
            &&& r == (if s0.play_fires(m.id) {
                StepResult::Emit(note_on(m.note, m.velocity))
            } else {
                StepResult::Quiet
            })
        },
        KeyStateChange::Stop(m) => {
            let s0 = pre.slot(m.channel as int, m.note as int);
            let s1 = post.slot(m.channel as int, m.note as int);
            &&& post.sync == pre.sync
            &&& slots_agree_except(pre, post, m.channel as int, m.note as int)
            &&& s1.generation() == s0.generation()
            &&& s1.is_on() == (s0.is_on() && !s0.stop_fires(m.id))
            &&& r == (if s0.stop_fires(m.id) {
                StepResult::Emit(note_off(m.note, m.velocity))
            } else {
                StepResult::Quiet
            })
        },
        KeyStateChange::MutexRequest(q) => {
            &&& post.sync == pre.sync
            &&& slots_agree(pre, post)
            &&& r == StepResult::Replied(
                (MutexMessage {
                    mutex: pre.slot(q.channel as int, q.note as int).generation(),
                    sync: pre.sync,
                }),
            )
        },
        KeyStateChange::MutexUpdate(q) => {
            let s0 = pre.slot(q.channel as int, q.note as int);
            let s1 = post.slot(q.channel as int, q.note as int);
            &&& post.sync == pre.sync
            &&& slots_agree_except(pre, post, q.channel as int, q.note as int)
            &&& s1.generation() == s0.generation() + 1
            &&& s1.is_on() == s0.is_on()
            &&& r == StepResult::Replied(
                (MutexMessage { mutex: (s0.generation() + 1) as u32, sync: pre.sync }),
            )
        },
        KeyStateChange::SyncUpdate => {
            &&& post.channels == pre.channels
            &&& post.sync == now
            &&& r == StepResult::Quiet
        },
        KeyStateChange::Close => {
            &&& post == pre
            &&& r == StepResult::Closed
        },
    }
}

/// The state owner's dispatch: apply one command to the grid, in arrival
/// order, and say what the surrounding loop must do with the outcome.
/// Replies to mutex queries are sent here, on the query's own channel; a
/// failed reply send (the requester abandoned the query) is not a fault.
pub fn apply_state_change(
    store: &mut KeyStateStore,
    change_request: KeyStateChange,
    now: u64,
) -> (r: StepResult)
    requires
        old(store).wf(),
        request_in_bounds(*old(store), change_request),
    ensures
        final(store).wf(),
        state_change_applied(*old(store), *final(store), change_request, now, r),
{
    match change_request {
        KeyStateChange::Play(play) => {
            let outcome = store.key_state(play.channel, play.note).play(
                play.id,
                play.note,
                play.velocity,
            );
            match outcome {
                Some(event) => StepResult::Emit(event),
                None => StepResult::Quiet,
            }
        },
        KeyStateChange::Stop(stop) => {
            let outcome = store.key_state(stop.channel, stop.note).stop(
                stop.id,
                stop.note,
                stop.velocity,
            );
            match outcome {
                Some(event) => StepResult::Emit(event),
                None => StepResult::Quiet,
            }
        },
        KeyStateChange::MutexRequest(request) => {
            let generation = store.key_state(request.channel, request.note).mutex();
            let msg = MutexMessage::new(generation, store.sync);
            let _ = send_reply(request.reply, msg);
            StepResult::Replied(msg)
        },
        KeyStateChange::MutexUpdate(request) => {
            let generation = store.key_state(request.channel, request.note).update_mutex();
            let msg = MutexMessage::new(generation, store.sync);
            let _ = send_reply(request.reply, msg);
            StepResult::Replied(msg)
        },
        KeyStateChange::SyncUpdate => {
            store.set_sync(now);
            StepResult::Quiet
        },
        KeyStateChange::Close => StepResult::Closed,
    }
}

/// Everything a play task decides once it holds the slot: the transition
/// message both deferred sends will carry, and the two absolute deadlines.
/// Both deadlines are anchored to the sync value captured in the reply, so
/// scheduling jitter never drifts the note's total sounding duration, and a
/// later re-basing of the shared anchor cannot alter them.
#[derive(Debug, Copy, Clone)]
pub struct PlayPlan {
    pub message: StateChangeMessage,
    pub play_at: u64,
    pub stop_at: u64,
}

/// A play task's decisions, from the inbound command and the acquisition
/// reply: capture the generation, and turn the relative offset and duration
/// into absolute deadlines against the replied anchor.
pub fn plan_play(action: &KeyPlay, mutex: &MutexMessage) -> (r: PlayPlan)
    requires
        mutex.sync + action.at + action.duration <= u64::MAX,
    ensures
        r.message.id == mutex.mutex,
        r.message.channel == action.channel,
        r.message.note == action.note,
        r.message.velocity == action.velocity,
        r.play_at == mutex.sync + action.at,
        r.stop_at == mutex.sync + action.at + action.duration,
{
    let message = StateChangeMessage::new(mutex.mutex, action.channel, action.note, action.velocity);
    let play_at = mutex.sync + action.at;
    let stop_at = play_at + action.duration;
    PlayPlan { message, play_at, stop_at }
}

/// A cancel task's one decision before it bumps the slot: the absolute
/// deadline to suspend until, against the anchor captured in the reply.
pub fn plan_cancel(action: &KeyCancel, mutex: &MutexMessage) -> (r: u64)
    requires
        mutex.sync + action.at <= u64::MAX,
    ensures
        r == mutex.sync + action.at,
{
    mutex.sync + action.at
}

/// How long a task still has to suspend for an absolute deadline: zero when
/// the deadline is already past, so the task proceeds immediately.
pub fn wait_time(deadline: u64, now: u64) -> (r: u64)
    ensures
        r == if deadline > now {
            deadline - now
        } else {
            0
        },
{
    if deadline > now {
        deadline - now
    } else {
        0
    }
}

} // verus!

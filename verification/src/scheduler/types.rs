use vstd::prelude::*;

verus! {

pub const NOTE_ON_MSG: u8 = 0x90;

pub const NOTE_OFF_MSG: u8 = 0x80;

/// A low-level output event: either three raw status/data bytes for the
/// output device, or the shutdown signal for the output relay.
#[derive(Debug, PartialEq)]
pub enum MidiEvent {
    Raw([u8; 3]),
    Close,
}

/// The note-on event a slot emits for a validated play transition.
pub open spec fn note_on(note: u8, velocity: u8) -> MidiEvent {
    MidiEvent::Raw([NOTE_ON_MSG, note, velocity])
}

/// The note-off event a slot emits for a validated stop transition.
pub open spec fn note_off(note: u8, velocity: u8) -> MidiEvent {
    MidiEvent::Raw([NOTE_OFF_MSG, note, velocity])
}

/// One slot of mutable truth for a (channel, note) address: a generation
/// counter used for mutual exclusion and the on/off flag for the key.
#[derive(Debug, Copy, Clone, PartialEq, Eq, Structural)]
pub struct KeyState {
    event_counter: u32,
    key_on: bool,
}

impl KeyState {
    /// The slot's current generation counter.
    pub closed spec fn generation(self) -> u32 {
        self.event_counter
    }

    /// Whether the key is currently sounding.
    pub closed spec fn is_on(self) -> bool {
        self.key_on
    }

    /// A play transition fires only when its captured generation is still
    /// current and the key is not already on.
    pub open spec fn play_fires(self, id: u32) -> bool {
        id == self.generation() && !self.is_on()
    }

    /// A stop transition fires only when its captured generation is still
    /// current and the key is on.
    pub open spec fn stop_fires(self, id: u32) -> bool {
        id == self.generation() && self.is_on()
    }

    pub fn new() -> (r: KeyState)
        ensures
            r.generation() == 0,
            !r.is_on(),
    {
        KeyState { event_counter: 0, key_on: false }
    }

    /// Exclusive acquire: bump the generation, invalidating every previously
    /// captured generation for this slot, and return the new value.
    pub fn update_mutex(&mut self) -> (r: u32)
        requires
            old(self).generation() < u32::MAX,
        ensures
            final(self).generation() == old(self).generation() + 1,
            final(self).is_on() == old(self).is_on(),
            r == final(self).generation(),
    {
        self.event_counter += 1;
        self.event_counter
    }

    /// Read the generation without acquiring it.
    pub fn mutex(&mut self) -> (r: u32)
        ensures
            *final(self) == *old(self),
            r == old(self).generation(),
    {
        self.event_counter
    }

    /// Whether a captured generation is still the slot's current one.
    pub fn compare_event_id(&mut self, id: u32) -> (r: bool)
        ensures
            *final(self) == *old(self),
            r == (old(self).generation() == id),
    {
        self.event_counter == id
    }

    /// Validated play transition: emits a note-on iff the captured generation
    /// is current and the key is off; any mismatch is a silent no-op.
    pub fn play(&mut self, id: u32, note: u8, velocity: u8) -> (r: Option<MidiEvent>)
        ensures
            *final(self) == old(self).step((SlotAction::Play { id, note, velocity })),
            r == old(self).step_event((SlotAction::Play { id, note, velocity })),
            old(self).play_fires(id) ==> {
                &&& final(self).is_on()
                &&& final(self).generation() == old(self).generation()
                &&& r == Some(note_on(note, velocity))
            },
            !old(self).play_fires(id) ==> {
                &&& *final(self) == *old(self)
                &&& r is None
            },
    {
        if self.compare_event_id(id) && !self.key_on {
            self.key_on = true;
            Some(MidiEvent::Raw([NOTE_ON_MSG, note, velocity]))
        } else {
            None
        }
    }

    /// Validated stop transition: emits a note-off iff the captured generation
    /// is current and the key is on; any mismatch is a silent no-op.
    pub fn stop(&mut self, id: u32, note: u8, velocity: u8) -> (r: Option<MidiEvent>)
        ensures
            *final(self) == old(self).step((SlotAction::Stop { id, note, velocity })),
            r == old(self).step_event((SlotAction::Stop { id, note, velocity })),
            old(self).stop_fires(id) ==> {
                &&& !final(self).is_on()
                &&& final(self).generation() == old(self).generation()
                &&& r == Some(note_off(note, velocity))
            },
            !old(self).stop_fires(id) ==> {
                &&& *final(self) == *old(self)
                &&& r is None
            },
    {
        if self.compare_event_id(id) && self.key_on {
            self.key_on = false;
            Some(MidiEvent::Raw([NOTE_OFF_MSG, note, velocity]))
        } else {
            None
        }
    }
}

/// A deferred transition as it arrives at a slot: the generation captured at
/// acquisition time together with the note data it would emit.
pub enum SlotAction {
    Play { id: u32, note: u8, velocity: u8 },
    Stop { id: u32, note: u8, velocity: u8 },
}

impl SlotAction {
    /// The generation the transition captured when it was scheduled.
    pub open spec fn id(self) -> u32 {
        match self {
            SlotAction::Play { id, .. } => id,
            SlotAction::Stop { id, .. } => id,
        }
    }
}

impl KeyState {
    /// Whether a deferred transition is validated against this slot state.
    pub open spec fn fires(self, action: SlotAction) -> bool {
        match action {
            SlotAction::Play { id, .. } => self.play_fires(id),
            SlotAction::Stop { id, .. } => self.stop_fires(id),
        }
    }

    /// The slot state after one deferred transition is checked against it:
    /// a validated play turns the key on, a validated stop turns it off,
    /// and a stale transition leaves the slot untouched.
    pub closed spec fn step(self, action: SlotAction) -> KeyState {
        if self.fires(action) {
            match action {
                SlotAction::Play { .. } => KeyState { key_on: true, ..self },
                SlotAction::Stop { .. } => KeyState { key_on: false, ..self },
            }
        } else {
            self
        }
    }

    /// The event one deferred transition emits against this slot state.
    pub open spec fn step_event(self, action: SlotAction) -> Option<MidiEvent> {
        if self.fires(action) {
            match action {
                SlotAction::Play { note, velocity, .. } => Some(note_on(note, velocity)),
                SlotAction::Stop { note, velocity, .. } => Some(note_off(note, velocity)),
            }
        } else {
            None
        }
    }

    /// The slot state after a whole run of deferred transitions, applied in
    /// arrival order.
    pub open spec fn run(self, actions: Seq<SlotAction>) -> KeyState
        decreases actions.len(),
    {
        if actions.len() == 0 {
            self
        } else {
            self.step(actions[0]).run(actions.drop_first())
        }
    }

    /// What each transition of a run emits, in arrival order: one entry per
    /// transition, `None` where it was dropped as stale.
    pub open spec fn run_events(self, actions: Seq<SlotAction>) -> Seq<Option<MidiEvent>>
        decreases actions.len(),
    {
        if actions.len() == 0 {
            Seq::empty()
        } else {
            seq![self.step_event(actions[0])] + self.step(actions[0]).run_events(
                actions.drop_first(),
            )
        }
    }
}

pub const CHANNEL_COUNT: usize = 16;

pub const NOTE_COUNT: usize = 127;

/// One universe of slots: a fixed grid of 16 channels by 127 notes, plus the
/// shared monotonic time anchor (in nanoseconds) that relative offsets are
/// measured against. Exclusively owned and mutated by the state owner.
pub struct KeyStateStore {
    pub channels: Vec<Vec<KeyState>>,
    pub sync: u64,
}

impl KeyStateStore {
    /// The grid has its fixed 16 by 127 shape.
    pub open spec fn wf(self) -> bool {
        &&& self.channels@.len() == CHANNEL_COUNT
        &&& forall|c: int|
            0 <= c < CHANNEL_COUNT ==> (#[trigger] self.channels@[c])@.len() == NOTE_COUNT
    }

    /// The slot stored at a (channel, note) address.
    pub open spec fn slot(self, channel: int, note: int) -> KeyState {
        self.channels@[channel]@[note]
    }

    /// Every slot is at generation zero with its key off.
    pub open spec fn all_slots_initial(self) -> bool {
        forall|c: int, n: int|
            0 <= c < CHANNEL_COUNT && 0 <= n < NOTE_COUNT ==> (#[trigger] self.slot(
                c,
                n,
            )).generation() == 0 && !self.slot(c, n).is_on()
    }

    pub fn new() -> (r: KeyStateStore)
        ensures
            r.wf(),
            r.sync == 0,
            r.all_slots_initial(),
    {
        let mut channels: Vec<Vec<KeyState>> = Vec::new();
        while channels.len() < CHANNEL_COUNT
            invariant
                channels@.len() <= CHANNEL_COUNT,
                forall|c: int|
                    0 <= c < channels@.len() ==> (#[trigger] channels@[c])@.len() == NOTE_COUNT,
                forall|c: int, n: int|
                    0 <= c < channels@.len() && 0 <= n < NOTE_COUNT
                        ==> (#[trigger] channels@[c]@[n]).generation() == 0
                        && !channels@[c]@[n].is_on(),
            decreases CHANNEL_COUNT - channels.len(),
        {
            let mut row: Vec<KeyState> = Vec::new();
            while row.len() < NOTE_COUNT
                invariant
                    row@.len() <= NOTE_COUNT,
                    forall|n: int|
                        0 <= n < row@.len() ==> (#[trigger] row@[n]).generation() == 0
                            && !row@[n].is_on(),
                decreases NOTE_COUNT - row.len(),
            {
                row.push(KeyState::new());
            }
            channels.push(row);
        }
        KeyStateStore { channels, sync: 0 }
    }

    /// Hand out the slot for a (channel, note) address. The caller guarantees
    /// the address is in range; only the addressed slot can change through
    /// the returned reference.
    pub fn key_state(&mut self, channel: u8, note: u8) -> (r: &mut KeyState)
        requires
            old(self).wf(),
            channel < CHANNEL_COUNT,
            note < NOTE_COUNT,
        ensures
            *r == old(self).slot(channel as int, note as int),
            final(self).wf(),
            final(self).sync == old(self).sync,
            final(self).slot(channel as int, note as int) == *final(r),
            forall|c: int, n: int|
                0 <= c < CHANNEL_COUNT && 0 <= n < NOTE_COUNT && !(c == channel && n == note)
                    ==> final(self).slot(c, n) == old(self).slot(c, n),
    {
        &mut self.channels[channel as usize][note as usize]
    }

    /// Re-base the shared time anchor to the given monotonic reading.
    /// Slots are untouched, and deadlines already computed from an earlier
    /// anchor are not retroactively altered.
    pub fn set_sync(&mut self, now: u64)
        ensures
            final(self).sync == now,
            final(self).channels == old(self).channels,
    {
        self.sync = now;
    }
}

/// No transition ever changes a slot's generation: only an acquisition does.
pub proof fn lemma_step_preserves_generation(s: KeyState, action: SlotAction)
    ensures
        s.step(action).generation() == s.generation(),
{
}

/// Law (idempotence): repeating an already-applied transition with the same
/// generation is a no-op the second time: it no longer fires, emits nothing,
/// and leaves the slot exactly as the first application left it.
pub proof fn lemma_transition_idempotent(s: KeyState, action: SlotAction)
    requires
        s.fires(action),
    ensures
        !s.step(action).fires(action),
        s.step(action).step_event(action) is None,
        s.step(action).step(action) == s.step(action),
{
}

/// Law (stale suppression): a transition whose captured generation is not the
/// slot's current one emits nothing and changes nothing.
pub proof fn lemma_stale_transition_is_noop(s: KeyState, action: SlotAction)
    requires
        action.id() != s.generation(),
    ensures
        s.step(action) == s,
        s.step_event(action) is None,
{
}

/// Law (last-writer-wins core): however a run of deferred transitions is
/// interleaved, every event it emits comes from a transition that captured
/// the slot's current generation, and the generation never moves.
pub proof fn lemma_only_current_generation_emits(s: KeyState, actions: Seq<SlotAction>)
    ensures
        s.run(actions).generation() == s.generation(),
        s.run_events(actions).len() == actions.len(),
        forall|i: int|
            0 <= i < actions.len() && s.run_events(actions)[i] is Some ==> actions[i].id()
                == s.generation(),
    decreases actions.len(),
{
    if actions.len() > 0 {
        let s1 = s.step(actions[0]);
        lemma_only_current_generation_emits(s1, actions.drop_first());
        assert forall|i: int|
            0 <= i < actions.len() && s.run_events(actions)[i] is Some implies actions[i].id()
            == s.generation() by {
            if i == 0 {
                assert(s.run_events(actions)[0] == s.step_event(actions[0]));
            } else {
                assert(s.run_events(actions)[i] == s1.run_events(actions.drop_first())[i - 1]);
                assert(actions[i] == actions.drop_first()[i - 1]);
            }
        }
    }
}

/// Law (last-writer-wins): after two plays race for a slot and the later
/// acquirer holds generation `g2`, a run mixing both tasks' transitions only
/// ever emits the later acquirer's events; the earlier task's play and stop
/// are dropped silently.
pub proof fn lemma_last_writer_wins(s: KeyState, g1: u32, g2: u32, actions: Seq<SlotAction>)
    requires
        s.generation() == g2,
        g1 != g2,
        forall|i: int| 0 <= i < actions.len() ==> (#[trigger] actions[i]).id() == g1
            || actions[i].id() == g2,
    ensures
        forall|i: int|
            0 <= i < actions.len() && s.run_events(actions)[i] is Some ==> actions[i].id() == g2,
{
    lemma_only_current_generation_emits(s, actions);
}

/// Law (last-writer-wins, both halves): in the canonical race - play A and
/// play B both acquired at schedule time, B last, then the deferred
/// transitions arrive with B's stop first (its duration is shorter or equal)
/// - exactly B's note-on and note-off are emitted and nothing of A's.
pub proof fn lemma_last_writer_wins_pair(s: KeyState, g1: u32, g2: u32, note: u8, v1: u8, v2: u8)
    requires
        s.generation() == g2,
        !s.is_on(),
        g1 != g2,
    ensures
        ({
            let actions = seq![
                (SlotAction::Play { id: g2, note, velocity: v2 }),
                (SlotAction::Play { id: g1, note, velocity: v1 }),
                (SlotAction::Stop { id: g1, note, velocity: v1 }),
                (SlotAction::Stop { id: g2, note, velocity: v2 }),
            ];
            s.run_events(actions) =~= seq![
                Some(note_on(note, v2)),
                None,
                None,
                Some(note_off(note, v2)),
            ]
        }),
{
    reveal_with_fuel(KeyState::run_events, 5);
    let a_on = SlotAction::Play { id: g1, note, velocity: v1 };
    let a_off = SlotAction::Stop { id: g1, note, velocity: v1 };
    let b_on = SlotAction::Play { id: g2, note, velocity: v2 };
    let b_off = SlotAction::Stop { id: g2, note, velocity: v2 };
    let actions = seq![b_on, a_on, a_off, b_off];
    let s1 = s.step(b_on);
    assert(actions.drop_first() =~= seq![a_on, a_off, b_off]);
    assert(actions.drop_first().drop_first() =~= seq![a_off, b_off]);
    assert(actions.drop_first().drop_first().drop_first() =~= seq![b_off]);
    assert(s1.step(a_on) == s1 && s1.step(a_off) == s1);
}

/// Law (cancel invalidation): once a cancel has bumped the slot past the
/// generation `g` a play task captured, that task's deferred play and stop
/// both produce zero output events.
pub proof fn lemma_cancel_invalidates(s: KeyState, g: u32, actions: Seq<SlotAction>)
    requires
        s.generation() != g,
        forall|i: int| 0 <= i < actions.len() ==> (#[trigger] actions[i]).id() == g,
    ensures
        forall|i: int| 0 <= i < actions.len() ==> s.run_events(actions)[i] is None,
{
    lemma_only_current_generation_emits(s, actions);
    assert forall|i: int| 0 <= i < actions.len() implies s.run_events(actions)[i] is None by {
        if s.run_events(actions)[i] is Some {
            assert(actions[i].id() == s.generation());
        }
    }
}

} // verus!

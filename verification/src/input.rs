//! Input state shared between capture and simulation.
//!
//! Keyboard state is one flag per key code. Mouse position and delta form a
//! pair that must change together — the delta is the difference applied by
//! the most recent position update, never cumulative — so the pair lives
//! behind one reader/writer lock; button state is a bitfield with one bit
//! per button index. Events flow through a lock-free multi-producer queue
//! and are consumed in arrival order; no event is ever read twice.
//!
//! Positions are integer coordinates as delivered by the capture layer;
//! deltas are wider so that the difference of any two positions is exact.
//!
//! What is verified here is the sequential meaning of every operation; the
//! concurrency claims — per-key atomicity, the lock around the pair, the
//! lock-free queue — are modeled through the state each operation leaves,
//! not enforced by the proofs, which see one caller with exclusive access.

use vstd::prelude::*;

verus! {

/// An input event with the monotonic timestamp (in microseconds) of its
/// capture. Key codes are one byte of range per the keyboard table; button
/// indices address the bits of the button bitfield.
#[derive(Debug, Clone, Copy, PartialEq, Eq, Structural)]
pub enum InputEvent {
    KeyPressed { key: u16, timestamp_us: u64 },
    KeyReleased { key: u16, timestamp_us: u64 },
    MouseMoved { dx: i64, dy: i64, timestamp_us: u64 },
    MousePressed { button: u8, timestamp_us: u64 },
    MouseReleased { button: u8, timestamp_us: u64 },
}

/// How many key codes the keyboard table tracks.
pub const KEY_COUNT: u16 = 256;

/// How many buttons the mouse button bitfield tracks.
pub const BUTTON_COUNT: u8 = 64;

/// One boolean flag per key code. In the concurrent design each flag is a
/// word written by one producer and read without locking; here the table is
/// verified as plain data under exclusive access, which models that design
/// without enforcing it.
pub struct AtomicKeyboardState {
    keys: Vec<bool>,
}

impl View for AtomicKeyboardState {
    type V = Seq<bool>;

    closed spec fn view(&self) -> Seq<bool> {
        self.keys@
    }
}

impl AtomicKeyboardState {
    /// A fresh table with every key released.
    pub fn new() -> (r: AtomicKeyboardState)
        ensures
            r@.len() == KEY_COUNT,
            forall|i: int| 0 <= i < r@.len() ==> !r@[i],
    {
        let mut keys: Vec<bool> = Vec::new();
        let mut i: u16 = 0;
        while i < KEY_COUNT
            invariant
                i <= KEY_COUNT,
                keys@.len() == i,
                forall|j: int| 0 <= j < keys@.len() ==> !keys@[j],
            decreases KEY_COUNT - i,
        {
            keys.push(false);
            i += 1;
        }
        AtomicKeyboardState { keys }
    }

    /// Sets one key's flag. A key code outside the table is ignored, as the
    /// capture layer can deliver codes the table does not track.
    pub fn set_key_state(&mut self, key: u16, pressed: bool)
        requires
            old(self)@.len() == KEY_COUNT,
        ensures
            final(self)@.len() == KEY_COUNT,
            key < KEY_COUNT ==> final(self)@ == old(self)@.update(key as int, pressed),
            key >= KEY_COUNT ==> final(self)@ == old(self)@,
    {
        if key < KEY_COUNT {
            self.keys[key as usize] = pressed;
        }
    }

    /// Reads one key's flag; a key code outside the table reads as
    /// released.
    pub fn key_pressed(&self, key: u16) -> (r: bool)
        requires
            self@.len() == KEY_COUNT,
        ensures
            r == (key < KEY_COUNT && self@[key as int]),
    {
        if key < KEY_COUNT {
            self.keys[key as usize]
        } else {
            false
        }
    }
}

/// The mouse state as one plain value: the position, the delta applied by
/// the most recent position update, and the button bitfield.
#[derive(Debug, Clone, Copy, PartialEq, Eq, Structural)]
pub struct MouseSnapshot {
    pub pos_x: i32,
    pub pos_y: i32,
    pub delta_x: i64,
    pub delta_y: i64,
    pub buttons: u64,
}

/// The snapshot after a position update: the delta is the difference from
/// the previous position — overwritten, never accumulated — and the
/// position is the new one.
pub open spec fn mouse_position_step(s: MouseSnapshot, x: i32, y: i32) -> MouseSnapshot {
    MouseSnapshot {
        pos_x: x,
        pos_y: y,
        delta_x: (x - s.pos_x) as i64,
        delta_y: (y - s.pos_y) as i64,
        buttons: s.buttons,
    }
}

/// The snapshot after a button change: the button's bit is set or cleared,
/// position and delta untouched.
pub open spec fn mouse_button_step(s: MouseSnapshot, button: u8, pressed: bool) -> MouseSnapshot
    recommends
        button < BUTTON_COUNT,
{
    MouseSnapshot {
        buttons: if pressed {
            s.buttons | (1u64 << button)
        } else {
            s.buttons & !(1u64 << button)
        },
        ..s
    }
}

/// Mouse delta correctness: across two consecutive position updates the
/// delta always equals the difference of the latest two positions — after
/// the first update the first difference, after the second the second —
/// never their accumulation.
pub proof fn lemma_mouse_delta_not_cumulative(s0: MouseSnapshot, x1: i32, y1: i32, x2: i32, y2: i32)
    ensures
        mouse_position_step(s0, x1, y1).delta_x == x1 - s0.pos_x,
        mouse_position_step(s0, x1, y1).delta_y == y1 - s0.pos_y,
        mouse_position_step(mouse_position_step(s0, x1, y1), x2, y2).delta_x == x2 - x1,
        mouse_position_step(mouse_position_step(s0, x1, y1), x2, y2).delta_y == y2 - y1,
{
}

impl MouseSnapshot {
    /// The all-zero state: origin position, no delta, no button down.
    pub fn zeroed() -> (r: MouseSnapshot)
        ensures
            r.pos_x == 0 && r.pos_y == 0 && r.delta_x == 0 && r.delta_y == 0 && r.buttons == 0,
    {
        MouseSnapshot { pos_x: 0, pos_y: 0, delta_x: 0, delta_y: 0, buttons: 0 }
    }
}

/// The value a mouse lock currently holds.
pub uninterp spec fn mouse_cell_value(c: parking_lot::RwLock<MouseSnapshot>) -> MouseSnapshot;

#[verifier::external_type_specification]
#[verifier::external_body]
pub struct ExRawRwLock(parking_lot::RawRwLock);

#[verifier::external_type_specification]
#[verifier::external_body]
#[verifier::reject_recursive_types(R)]
#[verifier::reject_recursive_types(T)]
pub struct ExRwLock<R, T: ?Sized>(lock_api::RwLock<R, T>);

/// Relies on lock_api's RwLock::new (parking_lot's RwLock): the fresh lock
/// holds the given value.
#[verifier::external_body]
fn mouse_cell_new(v: MouseSnapshot) -> (c: parking_lot::RwLock<MouseSnapshot>)
    ensures
        mouse_cell_value(c) == v,
{
    parking_lot::RwLock::new(v)
}

/// Relies on lock_api's RwLock::read: returns a copy of the value the lock
/// holds.
#[verifier::external_body]
fn mouse_cell_read(c: &parking_lot::RwLock<MouseSnapshot>) -> (v: MouseSnapshot)
    ensures
        v == mouse_cell_value(*c),
{
    *c.read()
}

/// Relies on lock_api's RwLock::write: replaces the value the lock holds.
#[verifier::external_body]
fn mouse_cell_replace(c: &mut parking_lot::RwLock<MouseSnapshot>, v: MouseSnapshot)
    ensures
        mouse_cell_value(*final(c)) == v,
{
    *c.write() = v;
}

/// The mouse position/delta pair and the button bitfield, kept behind one
/// reader/writer lock so the pair changes together: this is the one lock in
/// an otherwise lock-free input design, since computing the delta needs the
/// previous position.
pub struct AtomicMouseState {
    cell: parking_lot::RwLock<MouseSnapshot>,
}

impl AtomicMouseState {
    /// The spec-level value of this state.
    pub closed spec fn value(&self) -> MouseSnapshot {
        mouse_cell_value(self.cell)
    }

    /// A fresh state at the origin with no button down.
    pub fn new() -> (r: AtomicMouseState)
        ensures
            r.value() == (MouseSnapshot {
                pos_x: 0,
                pos_y: 0,
                delta_x: 0,
                delta_y: 0,
                buttons: 0,
            }),
    {
        AtomicMouseState { cell: mouse_cell_new(MouseSnapshot::zeroed()) }
    }

    /// Applies a position update: under the lock, the delta becomes the
    /// difference from the previous position and the position becomes the
    /// new one.
    pub fn update_position(&mut self, x: i32, y: i32)
        ensures
            final(self).value() == mouse_position_step(old(self).value(), x, y),
    {
        let current = mouse_cell_read(&self.cell);
        let next = MouseSnapshot {
            pos_x: x,
            pos_y: y,
            delta_x: x as i64 - current.pos_x as i64,
            delta_y: y as i64 - current.pos_y as i64,
            buttons: current.buttons,
        };
        mouse_cell_replace(&mut self.cell, next);
    }

    /// Sets or clears one button's bit in the bitfield.
    pub fn set_button_state(&mut self, button: u8, pressed: bool)
        requires
            button < BUTTON_COUNT,
        ensures
            final(self).value() == mouse_button_step(old(self).value(), button, pressed),
    {
        let current = mouse_cell_read(&self.cell);
        let button_bit: u64 = 1u64 << button;
        let buttons = if pressed {
            current.buttons | button_bit
        } else {
            current.buttons & !button_bit
        };
        mouse_cell_replace(&mut self.cell, MouseSnapshot { buttons, ..current });
    }

    /// Whether one button's bit is set.
    pub fn is_button_pressed(&self, button: u8) -> (r: bool)
        requires
            button < BUTTON_COUNT,
        ensures
            r == ((self.value().buttons & (1u64 << button)) != 0),
    {
        let current = mouse_cell_read(&self.cell);
        (current.buttons & (1u64 << button)) != 0
    }

    /// The current position.
    pub fn position(&self) -> (r: (i32, i32))
        ensures
            r.0 == self.value().pos_x,
            r.1 == self.value().pos_y,
    {
        let current = mouse_cell_read(&self.cell);
        (current.pos_x, current.pos_y)
    }

    /// The delta applied by the most recent position update.
    pub fn delta(&self) -> (r: (i64, i64))
        ensures
            r.0 == self.value().delta_x,
            r.1 == self.value().delta_y,
    {
        let current = mouse_cell_read(&self.cell);
        (current.delta_x, current.delta_y)
    }
}

#[verifier::external_type_specification]
#[verifier::external_body]
#[verifier::reject_recursive_types(T)]
pub struct ExSegQueue<T>(crossbeam::queue::SegQueue<T>);

/// The events a queue currently holds, oldest first.
pub uninterp spec fn queue_events(q: crossbeam::queue::SegQueue<InputEvent>) -> Seq<InputEvent>;

/// Relies on crossbeam's SegQueue::new: the fresh queue is empty.
#[verifier::external_body]
fn event_queue_new() -> (q: crossbeam::queue::SegQueue<InputEvent>)
    ensures
        queue_events(q) == Seq::<InputEvent>::empty(),
{
    crossbeam::queue::SegQueue::new()
}

/// Relies on crossbeam's SegQueue::push: appends the element at the tail.
#[verifier::external_body]
fn event_queue_push(q: &mut crossbeam::queue::SegQueue<InputEvent>, e: InputEvent)
    ensures
        queue_events(*final(q)) == queue_events(*old(q)).push(e),
{
    q.push(e);
}

/// Relies on crossbeam's SegQueue::pop: removes and returns the element at
/// the head — the oldest one — or returns nothing when the queue is empty.
#[verifier::external_body]
fn event_queue_pop(q: &mut crossbeam::queue::SegQueue<InputEvent>) -> (r: Option<InputEvent>)
    ensures
        match r {
            Some(e) => queue_events(*old(q)).len() > 0 && e == queue_events(*old(q))[0]
                && queue_events(*final(q)) == queue_events(*old(q)).drop_first(),
            None => queue_events(*old(q)).len() == 0 && queue_events(*final(q)) == queue_events(
                *old(q),
            ),
        },
{
    q.pop()
}

/// Relies on crossbeam's SegQueue::len: the number of elements held.
#[verifier::external_body]
fn event_queue_len(q: &crossbeam::queue::SegQueue<InputEvent>) -> (r: usize)
    ensures
        r == queue_events(*q).len(),
{
    q.len()
}

/// The input manager owned by the simulation side: keyboard and mouse state
/// plus the event queue, polled at a 1000 Hz target rate. The queue's
/// contracts assume the exclusive access that `&mut` gives: code that
/// reaches the queue field directly and pushes through a shared reference
/// steps outside what the proofs cover.
pub struct InputManager {
    pub keyboard_state: AtomicKeyboardState,
    pub mouse_state: AtomicMouseState,
    pub input_buffer: crossbeam::queue::SegQueue<InputEvent>,
    pub polling_rate: u32,
}

/// The manager's internal invariant: the keyboard table has its full size.
pub open spec fn input_manager_wf(m: InputManager) -> bool {
    m.keyboard_state@.len() == KEY_COUNT
}

impl InputManager {
    /// The events the manager's queue currently holds, oldest first.
    pub closed spec fn events(&self) -> Seq<InputEvent> {
        queue_events(self.input_buffer)
    }

    /// A fresh manager: all keys released, the mouse at the origin, an
    /// empty event queue, and the 1000 Hz target polling rate.
    pub fn new() -> (r: InputManager)
        ensures
            input_manager_wf(r),
            forall|i: int| 0 <= i < r.keyboard_state@.len() ==> !r.keyboard_state@[i],
            r.mouse_state.value() == (MouseSnapshot {
                pos_x: 0,
                pos_y: 0,
                delta_x: 0,
                delta_y: 0,
                buttons: 0,
            }),
            r.events() == Seq::<InputEvent>::empty(),
            r.polling_rate == 1000,
    {
        InputManager {
            keyboard_state: AtomicKeyboardState::new(),
            mouse_state: AtomicMouseState::new(),
            input_buffer: event_queue_new(),
            polling_rate: 1000,
        }
    }

    /// Whether a key is currently pressed; a key code outside the table
    /// reads as released.
    pub fn is_key_pressed(&self, key: u16) -> (r: bool)
        requires
            input_manager_wf(*self),
        ensures
            r == (key < KEY_COUNT && self.keyboard_state@[key as int]),
    {
        self.keyboard_state.key_pressed(key)
    }

    /// The current mouse position.
    pub fn mouse_position(&self) -> (r: (i32, i32))
        ensures
            r.0 == self.mouse_state.value().pos_x,
            r.1 == self.mouse_state.value().pos_y,
    {
        self.mouse_state.position()
    }

    /// The mouse delta applied by the most recent position update.
    pub fn mouse_delta(&self) -> (r: (i64, i64))
        ensures
            r.0 == self.mouse_state.value().delta_x,
            r.1 == self.mouse_state.value().delta_y,
    {
        self.mouse_state.delta()
    }

    /// A producer pushes one event at the tail of the queue.
    pub fn push_event(&mut self, e: InputEvent)
        ensures
            final(self).events() == old(self).events().push(e),
            final(self).keyboard_state == old(self).keyboard_state,
            final(self).mouse_state == old(self).mouse_state,
            final(self).polling_rate == old(self).polling_rate,
    {
        event_queue_push(&mut self.input_buffer, e);
    }

    /// The consumer removes and returns the oldest event, or learns that
    /// the queue is empty.
    pub fn pop_event(&mut self) -> (r: Option<InputEvent>)
        ensures
            match r {
                Some(e) => old(self).events().len() > 0 && e == old(self).events()[0]
                    && final(self).events() == old(self).events().drop_first(),
                None => old(self).events().len() == 0 && final(self).events() == old(
                    self,
                ).events(),
            },
            final(self).keyboard_state == old(self).keyboard_state,
            final(self).mouse_state == old(self).mouse_state,
            final(self).polling_rate == old(self).polling_rate,
    {
        event_queue_pop(&mut self.input_buffer)
    }

    /// How many events are waiting in the queue.
    pub fn pending_events(&self) -> (r: usize)
        ensures
            r == self.events().len(),
    {
        event_queue_len(&self.input_buffer)
    }
}

} // verus!

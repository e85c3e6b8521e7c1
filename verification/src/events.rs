//! The input-event policy: how raw terminal events are classified and
//! routed, the fixed keystroke table, and the bounded keystroke buffer with
//! its shedding-newest backpressure policy.
//!
//! A background listener reads raw events and routes them: keystrokes into
//! the bounded buffer — full means the incoming keystroke is dropped, never
//! an older one, and the listener never blocks — and everything else into an
//! unbounded queue. The single-threaded update loop drains at most one item
//! from each per iteration.

use vstd::prelude::*;

verus! {

/// A key, as far as the engine cares: a printable character or anything
/// else.
#[derive(Clone, Copy, Debug, PartialEq, Eq, Structural)]
pub enum KeyCode {
    Character(char),
    Other,
}

/// One raw terminal event: a keystroke, a resize to the given width and
/// height, or something the engine ignores.
#[derive(Clone, Copy, Debug, PartialEq, Eq, Structural)]
pub enum InputEvent {
    Key(KeyCode),
    Resize(u16, u16),
    Other,
}

/// What a keystroke asks of the engine.
#[derive(Clone, Copy, Debug, PartialEq, Eq, Structural)]
pub enum KeyAction {
    Quit,
    SelectNext,
    SelectPrevious,
    SelectRight,
    SelectLeft,
    Ignore,
}

/// Which queue an event belongs on: keystrokes go to the bounded buffer,
/// all else to the unbounded one.
#[derive(Clone, Copy, Debug, PartialEq, Eq, Structural)]
pub enum EventRoute {
    Keystroke(KeyCode),
    General(InputEvent),
}

/// The fixed keystroke table: quit, the two cursor moves, descend, and step
/// out; every other key is ignored.
pub open spec fn classify_key_spec(code: KeyCode) -> KeyAction {
    match code {
        KeyCode::Character(c) => if c == 'q' {
            KeyAction::Quit
        } else if c == 'j' {
            KeyAction::SelectNext
        } else if c == 'k' {
            KeyAction::SelectPrevious
        } else if c == 'l' {
            KeyAction::SelectRight
        } else if c == 'h' {
            KeyAction::SelectLeft
        } else {
            KeyAction::Ignore
        },
        KeyCode::Other => KeyAction::Ignore,
    }
}

/// The action a keystroke maps to, by exact match in the fixed table.
pub fn classify_key(code: KeyCode) -> (a: KeyAction)
    ensures
        a == classify_key_spec(code),
{
    match code {
        KeyCode::Character(c) => if c == 'q' {
            KeyAction::Quit
        } else if c == 'j' {
            KeyAction::SelectNext
        } else if c == 'k' {
            KeyAction::SelectPrevious
        } else if c == 'l' {
            KeyAction::SelectRight
        } else if c == 'h' {
            KeyAction::SelectLeft
        } else {
            KeyAction::Ignore
        },
        KeyCode::Other => KeyAction::Ignore,
    }
}

/// Where an event is routed: a keystroke to the bounded buffer, anything
/// else to the unbounded queue.
pub open spec fn route_event_spec(ev: InputEvent) -> EventRoute {
    match ev {
        InputEvent::Key(k) => EventRoute::Keystroke(k),
        _ => EventRoute::General(ev),
    }
}

/// Route one raw event.
pub fn route_event(ev: InputEvent) -> (r: EventRoute)
    ensures
        r == route_event_spec(ev),
{
    match ev {
        InputEvent::Key(k) => EventRoute::Keystroke(k),
        _ => EventRoute::General(ev),
    }
}

/// How many keystrokes the bounded buffer holds at most.
pub const KEY_QUEUE_CAPACITY: usize = 3;

/// What offering a keystroke to the buffer leaves behind: appended while
/// there is room, and the buffer unchanged — the incoming keystroke shed —
/// once it is full.
pub open spec fn enqueue_view(q: Seq<KeyCode>, key: KeyCode) -> Seq<KeyCode> {
    if q.len() < KEY_QUEUE_CAPACITY {
        q.push(key)
    } else {
        q
    }
}

/// The bounded keystroke buffer, oldest first. Offering to a full buffer
/// drops the offered keystroke without blocking; draining takes the oldest.
pub struct KeyEventQueue {
    items: Vec<KeyCode>,
}

impl View for KeyEventQueue {
    type V = Seq<KeyCode>;

    closed spec fn view(&self) -> Seq<KeyCode> {
        self.items@
    }
}

impl KeyEventQueue {
    /// The buffer never outgrows its capacity.
    pub open spec fn wf(&self) -> bool {
        self@.len() <= KEY_QUEUE_CAPACITY
    }

    /// An empty buffer.
    pub fn new() -> (r: KeyEventQueue)
        ensures
            r.wf(),
            r@ == Seq::<KeyCode>::empty(),
    {
        let r = KeyEventQueue { items: Vec::new() };
        proof {
            assert(r@ =~= Seq::<KeyCode>::empty());
        }
        r
    }

    /// How many keystrokes wait in the buffer.
    pub fn len(&self) -> (r: usize)
        ensures
            r == self@.len(),
    {
        self.items.len()
    }

    /// Offer one keystroke: appended and accepted while there is room;
    /// dropped, the buffer untouched, once it is full. Never blocks.
    pub fn try_enqueue(&mut self, key: KeyCode) -> (accepted: bool)
        requires
            old(self).wf(),
        ensures
            final(self).wf(),
            final(self)@ == enqueue_view(old(self)@, key),
            accepted == (old(self)@.len() < KEY_QUEUE_CAPACITY),
    {
        if self.items.len() < KEY_QUEUE_CAPACITY {
            self.items.push(key);
            true
        } else {
            false
        }
    }

    /// Drain the oldest waiting keystroke, if any. Never blocks.
    pub fn try_dequeue(&mut self) -> (r: Option<KeyCode>)
        requires
            old(self).wf(),
        ensures
            final(self).wf(),
            match r {
                Some(key) => old(self)@.len() > 0 && key == old(self)@[0] && final(self)@
                    == old(self)@.subrange(1, old(self)@.len() as int),
                None => old(self)@.len() == 0 && final(self)@ == old(self)@,
            },
    {
        if self.items.len() == 0 {
            None
        } else {
            let key = self.items.remove(0);
            proof {
                assert(self.items@ =~= old(self).items@.subrange(1, old(self).items@.len() as int));
            }
            Some(key)
        }
    }
}

/// Keystroke shedding law: three keystrokes enqueued without a drain fill
/// the buffer in arrival order; a fourth offer is shed — the buffer keeps
/// the three it holds, never grows past its capacity, and the offer does
/// not block the listener.
pub proof fn lemma_keystroke_shedding(k1: KeyCode, k2: KeyCode, k3: KeyCode, k4: KeyCode)
    ensures
        ({
            let q3 = enqueue_view(
                enqueue_view(enqueue_view(Seq::<KeyCode>::empty(), k1), k2),
                k3,
            );
            let q4 = enqueue_view(q3, k4);
            q3 == seq![k1, k2, k3] && q4 == q3 && q4.len() == KEY_QUEUE_CAPACITY
        }),
{
    let q3 = enqueue_view(enqueue_view(enqueue_view(Seq::<KeyCode>::empty(), k1), k2), k3);
    assert(q3 =~= seq![k1, k2, k3]);
}

} // verus!

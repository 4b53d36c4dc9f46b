//! Event handling for DRM windows.
//!
//! A [`DrmEventManager`] owns an event source and the queue of events that
//! were received but not yet handled this frame. Polling appends what the
//! source delivers to the end of the queue; draining hands the queue over in
//! arrival order and leaves it empty.

use vstd::prelude::*;
use std::sync::mpsc::{Receiver, Sender};

verus! {

/// The receiving half of a standard channel, carried opaquely.
#[verifier::external_type_specification]
#[verifier::external_body]
#[verifier::reject_recursive_types(T)]
pub struct ExReceiver<T>(Receiver<T>);

/// The sending half of a standard channel, carried opaquely.
#[verifier::external_type_specification]
#[verifier::external_body]
#[verifier::reject_recursive_types(T)]
pub struct ExSender<T>(Sender<T>);

/// Creates a new asynchronous channel (`std::sync::mpsc::channel`).
///
/// Nothing is claimed of the two halves beyond their types; in particular
/// that they are connected to each other is not stated.
#[verifier::external_body]
fn open_channel<T>() -> (Sender<T>, Receiver<T>) {
    std::sync::mpsc::channel()
}

/// Takes every value that is waiting in the channel at the time of the
/// call, in the order it was sent, without blocking
/// (`std::sync::mpsc::Receiver::try_iter`, collected into a `Vec`).
///
/// What comes back depends on other threads, so nothing is claimed of it.
#[verifier::external_body]
fn receive_pending<T>(receiver: &Receiver<T>) -> Vec<T> {
    receiver.try_iter().collect()
}

/// Event source for Linux evdev input devices (keyboard, mouse,
/// touchscreen).
pub struct EvdevEventSource {
    _devices: Vec<String>,
}

impl EvdevEventSource {
    /// The device paths this source was created for.
    pub closed spec fn devices(self) -> Seq<String> {
        self._devices@
    }

    /// Creates an evdev source for the given device paths.
    pub fn new(devices: Vec<String>) -> (r: Result<Self, std::io::Error>)
        ensures
            r matches Ok(source) && source.devices() == devices@,
    {
        Ok(Self { _devices: devices })
    }

    /// Reads pending input from the devices and appends it to `events`,
    /// after the events already there.
    ///
    /// What the devices deliver is left open; the decoding of device input
    /// into events is not implemented yet, so at present nothing is
    /// appended.
    pub fn poll_events<E>(&mut self, events: &mut Vec<E>)
        ensures
            final(self).devices() == old(self).devices(),
            exists|delivered: Seq<E>| final(events)@ == old(events)@ + delivered,
    {
        assert(events@ == events@ + Seq::<E>::empty());
    }
}

/// Event source for DRM windows.
#[verifier::reject_recursive_types(E)]
pub enum DrmEventSource<E> {
    /// No event input (default for headless rendering).
    NoInput,
    /// Linux evdev input devices (keyboard, mouse, touchscreen).
    Evdev(EvdevEventSource),
    /// Custom event source (user-provided channel).
    Custom(Receiver<E>),
}

/// Manager for DRM events.
#[verifier::reject_recursive_types(E)]
pub struct DrmEventManager<E> {
    source: DrmEventSource<E>,
    /// Accumulated unhandled events from this frame.
    unhandled_events: Vec<E>,
}

impl<E> View for DrmEventManager<E> {
    type V = Seq<E>;

    /// The unhandled events, oldest first.
    closed spec fn view(&self) -> Seq<E> {
        self.unhandled_events@
    }
}

impl<E> DrmEventManager<E> {
    /// The source this manager polls.
    pub closed spec fn event_source(self) -> DrmEventSource<E> {
        self.source
    }

    /// Creates a new event manager with no input source.
    pub fn new_headless() -> (m: Self)
        ensures
            m@ == Seq::<E>::empty(),
            m.event_source() is NoInput,
    {
        Self { source: DrmEventSource::NoInput, unhandled_events: Vec::new() }
    }

    /// Creates a new event manager with evdev input from the given devices.
    pub fn new_with_evdev(devices: Vec<String>) -> (r: Result<Self, std::io::Error>)
        ensures
            r matches Ok(m) && m@ == Seq::<E>::empty() && (m.event_source() matches DrmEventSource::Evdev(
                source,
            ) && source.devices() == devices@),
    {
        match EvdevEventSource::new(devices) {
            Ok(source) => Ok(Self { source: DrmEventSource::Evdev(source), unhandled_events: Vec::new() }),
            Err(e) => Err(e),
        }
    }

    /// Creates a new event manager fed by a custom event channel.
    pub fn new_with_custom(receiver: Receiver<E>) -> (m: Self)
        ensures
            m@ == Seq::<E>::empty(),
            m.event_source() matches DrmEventSource::Custom(r) && r == receiver,
    {
        Self { source: DrmEventSource::Custom(receiver), unhandled_events: Vec::new() }
    }

    /// Appends `events` to the end of the unhandled queue, in order.
    pub fn enqueue_events(&mut self, events: Vec<E>)
        ensures
            final(self)@ == old(self)@ + events@,
            final(self).event_source() == old(self).event_source(),
    {
        let mut events = events;
        self.unhandled_events.append(&mut events);
    }

    /// Polls the source for new events without blocking and appends them to
    /// the unhandled queue.
    ///
    /// Events already queued stay queued, in their order, ahead of the new
    /// ones. A headless source adds nothing; what a channel or input devices
    /// deliver is left open.
    pub fn poll_events(&mut self)
        ensures
            old(self).event_source() is NoInput ==> final(self).event_source() == old(self).event_source(),
            old(self).event_source() is Custom ==> final(self).event_source() == old(self).event_source(),
            old(self).event_source() matches DrmEventSource::Evdev(before) ==> ({
                let after_source = final(self).event_source();
                after_source matches DrmEventSource::Evdev(after) && after.devices() == before.devices()
            }),
            exists|received: Seq<E>| final(self)@ == old(self)@ + received,
            old(self).event_source() is NoInput ==> final(self)@ == old(self)@,
    {
        let ghost before = self.unhandled_events@;
        let ghost mut added: Seq<E> = Seq::empty();
        let received: Option<Vec<E>> = match &mut self.source {
            DrmEventSource::NoInput => None,
            DrmEventSource::Evdev(evdev) => {
                evdev.poll_events(&mut self.unhandled_events);
                proof {
                    added = choose|d: Seq<E>| self.unhandled_events@ == before + d;
                }
                None
            },
            DrmEventSource::Custom(receiver) => Some(receive_pending(receiver)),
        };
        match received {
            Some(events) => {
                proof {
                    added = events@;
                }
                self.enqueue_events(events);
            },
            None => {},
        }
        assert(self.unhandled_events@ =~= before + added);
        assert(self@ == old(self)@ + added);
    }

    /// Takes all unhandled events, oldest first, and empties the queue.
    pub fn drain_events(&mut self) -> (drained: Vec<E>)
        ensures
            drained@ == old(self)@,
            final(self)@ == Seq::<E>::empty(),
            final(self).event_source() == old(self).event_source(),
    {
        let mut drained: Vec<E> = Vec::new();
        std::mem::swap(&mut drained, &mut self.unhandled_events);
        drained
    }

    /// The unhandled events, oldest first, left in place.
    pub fn unhandled_events(&self) -> (events: &[E])
        ensures
            events@ == self@,
    {
        self.unhandled_events.as_slice()
    }

    /// The unhandled event at position `index` (0 is the oldest), if there
    /// is one; the queue is left in place.
    pub fn event_at(&self, index: usize) -> (event: Option<E>) where E: Copy
        ensures
            index < self@.len() ==> event == Some(self@[index as int]),
            index >= self@.len() ==> event is None,
    {
        if index < self.unhandled_events.len() {
            Some(self.unhandled_events[index])
        } else {
            None
        }
    }

    /// Clears all unhandled events.
    pub fn clear(&mut self)
        ensures
            final(self)@ == Seq::<E>::empty(),
            final(self).event_source() == old(self).event_source(),
    {
        self.unhandled_events.clear();
    }
}

/// Creates a custom event channel: the sender half, and an event manager
/// with no unhandled events that polls the receiving half.
pub fn create_custom_event_channel<E>() -> (r: (Sender<E>, DrmEventManager<E>))
    ensures
        r.1@ == Seq::<E>::empty(),
        r.1.event_source() is Custom,
{
    let (sender, receiver) = open_channel();
    let manager = DrmEventManager::new_with_custom(receiver);
    (sender, manager)
}

/// A position in a manager's unhandled events, for reading them one by one,
/// oldest first, without removing them.
pub struct DrmEventCursor {
    index: usize,
}

impl DrmEventCursor {
    /// How many events this cursor has passed.
    pub closed spec fn position(self) -> nat {
        self.index as nat
    }

    /// A cursor before the oldest event.
    pub fn new() -> (cursor: Self)
        ensures
            cursor.position() == 0,
    {
        DrmEventCursor { index: 0 }
    }

    /// The event at the cursor, if there is one, moving the cursor past it.
    pub fn next<E: Copy>(&mut self, manager: &DrmEventManager<E>) -> (event: Option<E>)
        ensures
            old(self).position() < manager@.len() ==> event == Some(manager@[old(self).position() as int])
                && final(self).position() == old(self).position() + 1,
            old(self).position() >= manager@.len() ==> event is None && final(self).position()
                == old(self).position(),
    {
        if self.index < manager.unhandled_events.len() {
            let event = manager.event_at(self.index);
            self.index = self.index + 1;
            event
        } else {
            None
        }
    }
}

} // verus!

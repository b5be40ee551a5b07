//! Window descriptor state: title, visibility, minimized flag and a queue of
//! pending events that the runtime drains on each tick.

use vstd::prelude::*;
use crate::events::{FsEvent, WindowEvent};

verus! {

/// Abstract state of a window descriptor.
pub struct WindowState {
    pub title: Seq<char>,
    pub visible: bool,
    pub minimized: bool,
    pub pending: Seq<FsEvent>,
}

impl WindowState {
    /// A freshly created window: visible, not minimized, nothing queued.
    pub open spec fn initial(title: Seq<char>) -> WindowState {
        WindowState { title, visible: true, minimized: false, pending: Seq::empty() }
    }

    /// `show`: visible and not minimized; nothing queued.
    pub open spec fn shown(self) -> WindowState {
        WindowState { visible: true, minimized: false, ..self }
    }

    /// `hide`: not visible; the minimized flag and the queue are kept.
    pub open spec fn hidden(self) -> WindowState {
        WindowState { visible: false, ..self }
    }

    /// `minimize`: minimized, and a `Minimized` event is queued.
    pub open spec fn minimized_state(self) -> WindowState {
        WindowState {
            minimized: true,
            pending: self.pending.push(FsEvent::Window(WindowEvent::Minimized)),
            ..self
        }
    }

    /// `restore`: visible and not minimized, and a `Restored` event is queued.
    pub open spec fn restored(self) -> WindowState {
        WindowState {
            visible: true,
            minimized: false,
            pending: self.pending.push(FsEvent::Window(WindowEvent::Restored)),
            ..self
        }
    }

    /// `close`: not visible, and a `CloseRequested` event is queued.
    pub open spec fn closed(self) -> WindowState {
        WindowState {
            visible: false,
            pending: self.pending.push(FsEvent::Window(WindowEvent::CloseRequested)),
            ..self
        }
    }

    /// `set_title`: only the title changes.
    pub open spec fn retitled(self, title: Seq<char>) -> WindowState {
        WindowState { title, ..self }
    }

    /// `on_event`: the event is appended to the queue.
    pub open spec fn with_event(self, event: FsEvent) -> WindowState {
        WindowState { pending: self.pending.push(event), ..self }
    }

    /// `drain_events`: the queue is emptied, everything else is kept.
    pub open spec fn drained(self) -> WindowState {
        WindowState { pending: Seq::empty(), ..self }
    }
}

/// State of an iced-backed window.
///
/// Mutations are recorded as pending events that the runtime drains.
#[derive(Debug)]
pub struct IcedWindow {
    title: String,
    visible: bool,
    minimized: bool,
    pending_events: Vec<FsEvent>,
}

impl View for IcedWindow {
    type V = WindowState;

    closed spec fn view(&self) -> WindowState {
        WindowState {
            title: self.title@,
            visible: self.visible,
            minimized: self.minimized,
            pending: self.pending_events@,
        }
    }
}

impl IcedWindow {
    /// Create a new window descriptor: visible, not minimized, no events.
    pub fn new(title: &str) -> (w: Self)
        ensures
            w@ == WindowState::initial(title@),
    {
        IcedWindow {
            title: title.to_owned(),
            visible: true,
            minimized: false,
            pending_events: Vec::new(),
        }
    }

    /// Create a window descriptor that takes ownership of `title`.
    pub fn with_title(title: String) -> (w: Self)
        ensures
            w@ == WindowState::initial(title@),
    {
        IcedWindow { title, visible: true, minimized: false, pending_events: Vec::new() }
    }

    /// Remove and return all pending events, oldest first.
    pub fn drain_events(&mut self) -> (events: Vec<FsEvent>)
        ensures
            events@ == old(self)@.pending,
            final(self)@ == old(self)@.drained(),
    {
        let mut events: Vec<FsEvent> = Vec::new();
        std::mem::swap(&mut events, &mut self.pending_events);
        events
    }

    /// Whether the window is currently minimized.
    pub fn is_minimized(&self) -> (r: bool)
        ensures
            r == self@.minimized,
    {
        self.minimized
    }

    /// The window title.
    pub fn title(&self) -> (r: &str)
        ensures
            r@ == self@.title,
    {
        self.title.as_str()
    }

    /// Whether the window is visible.
    pub fn is_visible(&self) -> (r: bool)
        ensures
            r == self@.visible,
    {
        self.visible
    }

    /// Make the window visible and not minimized.
    pub fn show(&mut self)
        ensures
            final(self)@ == old(self)@.shown(),
    {
        self.visible = true;
        self.minimized = false;
    }

    /// Hide the window.
    pub fn hide_window(&mut self)
        ensures
            final(self)@ == old(self)@.hidden(),
    {
        self.visible = false;
    }

    /// Minimize the window and queue a `Minimized` event.
    pub fn minimize(&mut self)
        ensures
            final(self)@ == old(self)@.minimized_state(),
    {
        self.minimized = true;
        self.pending_events.push(FsEvent::Window(WindowEvent::Minimized));
    }

    /// Restore the window and queue a `Restored` event.
    pub fn restore(&mut self)
        ensures
            final(self)@ == old(self)@.restored(),
    {
        self.minimized = false;
        self.visible = true;
        self.pending_events.push(FsEvent::Window(WindowEvent::Restored));
    }

    /// Hide the window and queue a `CloseRequested` event.
    pub fn close(&mut self)
        ensures
            final(self)@ == old(self)@.closed(),
    {
        self.visible = false;
        self.pending_events.push(FsEvent::Window(WindowEvent::CloseRequested));
    }

    /// Replace the window title.
    pub fn set_title(&mut self, title: String)
        ensures
            final(self)@ == old(self)@.retitled(title@),
    {
        self.title = title;
    }

    /// Queue an event for the next drain.
    pub fn on_event(&mut self, event: FsEvent)
        ensures
            final(self)@ == old(self)@.with_event(event),
            final(self)@.pending.len() == old(self)@.pending.len() + 1,
            final(self)@.pending.last() == event,
    {
        self.pending_events.push(event);
    }
}

/// Hiding and then showing a window leaves it visible and not minimized,
/// whatever its state before.
pub proof fn lemma_hide_then_show_visible(w: WindowState)
    ensures
        w.hidden().shown().visible,
        !w.hidden().shown().minimized,
        w.hidden().shown().pending == w.pending,
{
}

/// Minimizing and then restoring a window leaves it visible and not
/// minimized, with a `Minimized` and then a `Restored` event queued.
pub proof fn lemma_minimize_then_restore(w: WindowState)
    ensures
        w.minimized_state().minimized,
        !w.minimized_state().restored().minimized,
        w.minimized_state().restored().visible,
        w.minimized_state().restored().pending == w.pending.push(
            FsEvent::Window(WindowEvent::Minimized),
        ).push(FsEvent::Window(WindowEvent::Restored)),
{
}

/// Closing a window hides it and leaves `CloseRequested` as the newest event.
pub proof fn lemma_close_queues_close_requested(w: WindowState)
    ensures
        !w.closed().visible,
        w.closed().pending.len() == w.pending.len() + 1,
        w.closed().pending.last() == FsEvent::Window(WindowEvent::CloseRequested),
{
}

/// Events queued after a drain come out of the next drain in the order they
/// were queued, and a drain right after a drain yields nothing.
pub proof fn lemma_drain_returns_queued_in_order(w: WindowState, a: FsEvent, b: FsEvent)
    ensures
        w.drained().with_event(a).with_event(b).pending == seq![a, b],
        w.drained().drained().pending.len() == 0,
        w.drained().with_event(a).with_event(b).drained().drained().pending.len() == 0,
{
    assert(w.drained().with_event(a).with_event(b).pending =~= seq![a, b]);
}

/// The title read after `set_title` is the one that was set; visibility,
/// minimized flag and queue are unchanged.
pub proof fn lemma_set_title_reads_back(w: WindowState, t: Seq<char>)
    ensures
        w.retitled(t).title == t,
        w.retitled(t).visible == w.visible,
        w.retitled(t).minimized == w.minimized,
        w.retitled(t).pending == w.pending,
{
}

/// The state after queuing `events` one by one with `on_event`.
pub open spec fn queue_events(w: WindowState, events: Seq<FsEvent>) -> WindowState
    decreases events.len(),
{
    if events.len() == 0 {
        w
    } else {
        queue_events(w, events.drop_last()).with_event(events.last())
    }
}

/// `on_event` always appends: the queue grows by one, its newest entry is
/// the event, the earlier entries are untouched, and nothing else changes.
pub proof fn lemma_on_event_appends(w: WindowState, e: FsEvent)
    ensures
        w.with_event(e).pending.len() == w.pending.len() + 1,
        w.with_event(e).pending.last() == e,
        w.with_event(e).pending.take(w.pending.len() as int) == w.pending,
        w.with_event(e).title == w.title,
        w.with_event(e).visible == w.visible,
        w.with_event(e).minimized == w.minimized,
{
    assert(w.with_event(e).pending.take(w.pending.len() as int) =~= w.pending);
}

/// Queuing any number of events one by one after a drain, the next drain
/// returns exactly those events in the order they were queued.
pub proof fn lemma_drain_returns_everything_queued(w: WindowState, events: Seq<FsEvent>)
    ensures
        queue_events(w.drained(), events).pending == events,
        queue_events(w, events).pending == w.pending + events,
    decreases events.len(),
{
    if events.len() > 0 {
        lemma_drain_returns_everything_queued(w, events.drop_last());
        assert(events.drop_last().push(events.last()) =~= events);
        assert((w.pending + events.drop_last()).push(events.last()) =~= w.pending + events);
    } else {
        assert(w.pending + events =~= w.pending);
    }
}

/// Minimize, restore and close each queue exactly one event, the matching
/// one, after the events already queued; show, hide and set_title queue
/// nothing.
pub proof fn lemma_state_changes_queue_their_event(w: WindowState, t: Seq<char>)
    ensures
        w.minimized_state().pending.len() == w.pending.len() + 1,
        w.minimized_state().pending.last() == FsEvent::Window(WindowEvent::Minimized),
        w.minimized_state().pending.take(w.pending.len() as int) == w.pending,
        w.restored().pending.len() == w.pending.len() + 1,
        w.restored().pending.last() == FsEvent::Window(WindowEvent::Restored),
        w.restored().pending.take(w.pending.len() as int) == w.pending,
        w.closed().pending.take(w.pending.len() as int) == w.pending,
        w.shown().pending == w.pending,
        w.hidden().pending == w.pending,
        w.retitled(t).pending == w.pending,
{
    assert(w.minimized_state().pending.take(w.pending.len() as int) =~= w.pending);
    assert(w.restored().pending.take(w.pending.len() as int) =~= w.pending);
    assert(w.closed().pending.take(w.pending.len() as int) =~= w.pending);
}

/// What each operation does to visibility, the minimized flag and the title:
/// a new window is visible and not minimized; show makes it visible and not
/// minimized; hide and close make it invisible and keep the minimized flag;
/// minimize sets the flag and keeps visibility; restore makes it visible and
/// not minimized; only set_title changes the title; a drain empties the queue
/// and changes nothing else.
pub proof fn lemma_window_flags(w: WindowState, t: Seq<char>, e: FsEvent)
    ensures
        WindowState::initial(t).visible && !WindowState::initial(t).minimized,
        WindowState::initial(t).title == t && WindowState::initial(t).pending.len() == 0,
        w.shown().visible && !w.shown().minimized && w.shown().title == w.title,
        !w.hidden().visible && w.hidden().minimized == w.minimized && w.hidden().title == w.title,
        !w.closed().visible && w.closed().minimized == w.minimized && w.closed().title == w.title,
        w.minimized_state().minimized && w.minimized_state().visible == w.visible
            && w.minimized_state().title == w.title,
        w.restored().visible && !w.restored().minimized && w.restored().title == w.title,
        w.retitled(t).title == t,
        w.drained().pending.len() == 0 && w.drained().visible == w.visible && w.drained().minimized
            == w.minimized && w.drained().title == w.title,
{
}

} // verus!

//! The message router: how each notification changes a window's state and
//! what the window procedure answers.

use vstd::prelude::*;

use crate::event::Event;
use crate::input::Key;
use crate::message::Notification;

verus! {

/// Something the window procedure has to do on the platform's side while it
/// handles a notification.
#[derive(Clone, Copy, Debug, PartialEq, Eq, Structural)]
pub enum PlatformAction {
    /// Nothing beyond returning the result.
    Nothing,
    /// Run an empty paint cycle (begin, then end) so that the update region
    /// is validated.
    ValidatePaint,
    /// Capture the mouse, so that the release is seen even outside the window.
    Capture,
    /// Give the mouse capture up.
    ReleaseCapture,
}

/// The window procedure's answer to one notification.
#[derive(Clone, Copy, Debug, PartialEq, Eq, Structural)]
pub enum Reply {
    /// The notification is dealt with: perform `action`, return `result`.
    Handled { action: PlatformAction, result: isize },
    /// Hand the message to the platform's default handling and return what
    /// that returns.
    Forward,
}

/// The state of one window as the router sees it: the close flag and the
/// events of the current batch, oldest first.
pub struct WindowState {
    pub close_requested: bool,
    pub events: Seq<Event>,
}

/// Whether a notification reports a size, settled or live.
pub open spec fn is_resize(note: Notification) -> bool {
    note is Size || note is Sizing
}

/// The width and height that a resize notification reports.
pub open spec fn resize_dims(note: Notification) -> (u32, u32) {
    match note {
        Notification::Size(w, h) => (w, h),
        Notification::Sizing(w, h) => (w, h),
        _ => (0, 0),
    }
}

/// The event a wheel rotation becomes: up for a positive distance, down for
/// zero and below.
pub open spec fn wheel_event(delta: i16) -> Event {
    if delta > 0 {
        Event::MouseWheelUp
    } else {
        Event::MouseWheelDown
    }
}

/// The event that a notification contributes to the batch, if it
/// contributes one.
pub open spec fn event_of(note: Notification) -> Option<Event> {
    match note {
        Notification::KeyDown(code) => match Key::of_code(code) {
            Some(key) => Some(Event::KeyboardDown(key)),
            None => None,
        },
        Notification::KeyUp(code) => match Key::of_code(code) {
            Some(key) => Some(Event::KeyboardUp(key)),
            None => None,
        },
        Notification::ButtonDown(button) => Some(Event::MouseButtonDown(button)),
        Notification::ButtonUp(button) => Some(Event::MouseButtonUp(button)),
        Notification::Wheel(delta) => Some(wheel_event(delta)),
        Notification::Size(width, height) => Some(Event::Resize(width, height)),
        Notification::Sizing(width, height) => Some(Event::Resize(width, height)),
        _ => None,
    }
}

/// The answer owed to a notification. It depends on the notification alone.
pub open spec fn reply_to(note: Notification) -> Reply {
    match note {
        Notification::Paint => Reply::Handled { action: PlatformAction::ValidatePaint, result: 0 },
        Notification::EraseBackground => Reply::Handled {
            action: PlatformAction::Nothing,
            result: 1,
        },
        Notification::Close => Reply::Handled { action: PlatformAction::Nothing, result: 0 },
        Notification::KeyDown(_) => Reply::Handled { action: PlatformAction::Nothing, result: 0 },
        Notification::KeyUp(_) => Reply::Handled { action: PlatformAction::Nothing, result: 0 },
        Notification::ButtonDown(_) => Reply::Handled {
            action: PlatformAction::Capture,
            result: 0,
        },
        Notification::ButtonUp(_) => Reply::Handled {
            action: PlatformAction::ReleaseCapture,
            result: 0,
        },
        Notification::Wheel(_) => Reply::Handled { action: PlatformAction::Nothing, result: 0 },
        Notification::Size(_, _) => Reply::Forward,
        Notification::Sizing(_, _) => Reply::Forward,
        Notification::Other => Reply::Forward,
    }
}

impl WindowState {
    /// The state of a window that has just been created.
    pub open spec fn fresh() -> WindowState {
        WindowState { close_requested: false, events: Seq::empty() }
    }

    /// The state with one more event at the end of the batch.
    pub open spec fn push(self, event: Event) -> WindowState {
        WindowState { events: self.events.push(event), ..self }
    }

    /// The state after a size was reported: a resize event at the end of the
    /// batch takes the new size, otherwise a new resize event is appended.
    pub open spec fn resized(self, width: u32, height: u32) -> WindowState {
        if self.events.len() > 0 && self.events.last() is Resize {
            WindowState {
                events: self.events.drop_last().push(Event::Resize(width, height)),
                ..self
            }
        } else {
            self.push(Event::Resize(width, height))
        }
    }

    /// The state after the application asked for the window to close.
    pub open spec fn request_close(self) -> WindowState {
        WindowState { close_requested: true, ..self }
    }

    /// The state after one notification.
    pub open spec fn route(self, note: Notification) -> WindowState {
        match note {
            Notification::Paint => self,
            Notification::EraseBackground => self,
            Notification::Close => self.request_close(),
            Notification::KeyDown(code) => match Key::of_code(code) {
                Some(key) => self.push(Event::KeyboardDown(key)),
                None => self,
            },
            Notification::KeyUp(code) => match Key::of_code(code) {
                Some(key) => self.push(Event::KeyboardUp(key)),
                None => self,
            },
            Notification::ButtonDown(button) => self.push(Event::MouseButtonDown(button)),
            Notification::ButtonUp(button) => self.push(Event::MouseButtonUp(button)),
            Notification::Wheel(delta) => self.push(wheel_event(delta)),
            Notification::Size(width, height) => self.resized(width, height),
            Notification::Sizing(width, height) => self.resized(width, height),
            Notification::Other => self,
        }
    }

    /// The state after a sequence of notifications, taken in order.
    pub open spec fn route_all(self, notes: Seq<Notification>) -> WindowState
        decreases notes.len(),
    {
        if notes.len() == 0 {
            self
        } else {
            self.route_all(notes.drop_last()).route(notes.last())
        }
    }

    /// The state at the start of a poll: the previous batch is gone.
    pub open spec fn begin_poll(self) -> WindowState {
        WindowState { events: Seq::empty(), ..self }
    }

    /// The state after one whole poll that delivered `notes`.
    pub open spec fn poll(self, notes: Seq<Notification>) -> WindowState {
        self.begin_poll().route_all(notes)
    }
}

/// The events that a sequence of notifications contributes, in the order
/// of delivery and with nothing folded.
pub open spec fn delivered(notes: Seq<Notification>) -> Seq<Event>
    decreases notes.len(),
{
    if notes.len() == 0 {
        Seq::empty()
    } else {
        match event_of(notes.last()) {
            Some(event) => delivered(notes.drop_last()).push(event),
            None => delivered(notes.drop_last()),
        }
    }
}

/// A sequence of events with every run of resize events folded into the
/// last event of the run.
pub open spec fn coalesced(events: Seq<Event>) -> Seq<Event>
    decreases events.len(),
{
    if events.len() == 0 {
        Seq::empty()
    } else {
        let earlier = events.drop_last();
        if events.last() is Resize && earlier.len() > 0 && earlier.last() is Resize {
            coalesced(earlier).drop_last().push(events.last())
        } else {
            coalesced(earlier).push(events.last())
        }
    }
}

/// The per-window record that the window procedure updates: whether closing
/// was requested, and the events gathered since the current poll began.
#[derive(Debug)]
pub struct WindowData {
    close_requested: bool,
    events: Vec<Event>,
}

impl View for WindowData {
    type V = WindowState;

    closed spec fn view(&self) -> WindowState {
        WindowState { close_requested: self.close_requested, events: self.events@ }
    }
}

impl Default for WindowData {
    fn default() -> (data: WindowData)
        ensures
            data@ == WindowState::fresh(),
    {
        WindowData { close_requested: false, events: Vec::new() }
    }
}

impl WindowData {
    /// Whether closing the window was requested, by the user or by the
    /// application.
    pub fn close_requested(&self) -> (requested: bool)
        ensures
            requested == self@.close_requested,
    {
        self.close_requested
    }

    /// Requests closing on behalf of the application. No event is queued.
    pub fn request_close(&mut self)
        ensures
            final(self)@ == old(self)@.request_close(),
    {
        self.close_requested = true;
    }

    /// The events of the current batch, oldest first.
    pub fn events(&self) -> (events: &Vec<Event>)
        ensures
            events@ == self@.events,
    {
        &self.events
    }

    /// Starts a new batch: drops the events of the previous one and leaves
    /// the close flag as it is.
    pub fn begin_poll(&mut self)
        ensures
            final(self)@ == old(self)@.begin_poll(),
    {
        self.events.clear();
    }

    /// Records a reported size, overwriting a resize event at the end of the
    /// batch instead of queueing another one.
    fn record_resize(&mut self, width: u32, height: u32)
        ensures
            final(self)@ == old(self)@.resized(width, height),
    {
        let len: usize = self.events.len();
        if len > 0 {
            if let Event::Resize(_, _) = self.events[len - 1] {
                self.events.set(len - 1, Event::Resize(width, height));
                assert(self.events@ =~= old(self).events@.drop_last().push(
                    Event::Resize(width, height),
                ));
                return ;
            }
        }
        self.events.push(Event::Resize(width, height));
    }

    /// Handles one notification: updates the close flag and the batch, and
    /// tells the window procedure what to do and to return.
    ///
    /// Key codes that stand for no key are dropped without a trace. A size
    /// overwrites a resize event that ends the batch, so a run of size
    /// reports leaves one event.
    pub fn route(&mut self, note: Notification) -> (reply: Reply)
        ensures
            final(self)@ == old(self)@.route(note),
            reply == reply_to(note),
    {
        match note {
            Notification::Paint => Reply::Handled {
                action: PlatformAction::ValidatePaint,
                result: 0,
            },
            Notification::EraseBackground => Reply::Handled {
                action: PlatformAction::Nothing,
                result: 1,
            },
            Notification::Close => {
                self.close_requested = true;
                Reply::Handled { action: PlatformAction::Nothing, result: 0 }
            },
            Notification::KeyDown(code) => {
                if let Some(key) = Key::from_winapi(code) {
                    self.events.push(Event::KeyboardDown(key));
                }
                Reply::Handled { action: PlatformAction::Nothing, result: 0 }
            },
            Notification::KeyUp(code) => {
                if let Some(key) = Key::from_winapi(code) {
                    self.events.push(Event::KeyboardUp(key));
                }
                Reply::Handled { action: PlatformAction::Nothing, result: 0 }
            },
            Notification::ButtonDown(button) => {
                self.events.push(Event::MouseButtonDown(button));
                Reply::Handled { action: PlatformAction::Capture, result: 0 }
            },
            Notification::ButtonUp(button) => {
                self.events.push(Event::MouseButtonUp(button));
                Reply::Handled { action: PlatformAction::ReleaseCapture, result: 0 }
            },
            Notification::Wheel(delta) => {
                if delta > 0 {
                    self.events.push(Event::MouseWheelUp);
                } else {
                    self.events.push(Event::MouseWheelDown);
                }
                Reply::Handled { action: PlatformAction::Nothing, result: 0 }
            },
            Notification::Size(width, height) => {
                self.record_resize(width, height);
                Reply::Forward
            },
            Notification::Sizing(width, height) => {
                self.record_resize(width, height);
                Reply::Forward
            },
            Notification::Other => Reply::Forward,
        }
    }
}

/// A close request from the application raises the flag and queues nothing.
pub proof fn lemma_request_close_sets_flag_only(state: WindowState)
    ensures
        state.request_close().close_requested,
        state.request_close().events == state.events,
{
}

/// A key notification whose code stands for no key changes nothing: no
/// event is queued and no queued event is touched.
pub proof fn lemma_unmapped_key_is_dropped(state: WindowState, code: u8)
    requires
        !Key::is_mapped(code),
    ensures
        state.route(Notification::KeyDown(code)) == state,
        state.route(Notification::KeyUp(code)) == state,
{
}

/// A key notification whose code stands for a key queues that key's event
/// behind the events already there.
pub proof fn lemma_mapped_key_is_queued(state: WindowState, key: Key)
    ensures
        state.route(Notification::KeyDown(key.code())) == state.push(Event::KeyboardDown(key)),
        state.route(Notification::KeyUp(key.code())) == state.push(Event::KeyboardUp(key)),
{
    Key::lemma_of_code_round_trip(key);
}

/// One notification never shortens the batch and never reorders it: every
/// event but the last stays where it was, and the last one changes only
/// when a size report overwrites a resize event.
pub proof fn lemma_route_keeps_order(state: WindowState, note: Notification)
    ensures
        state.route(note).events.len() >= state.events.len(),
        state.route(note).events.len() <= state.events.len() + 1,
        forall|i: int|
            0 <= i < state.events.len() - 1 ==> state.route(note).events[i] == state.events[i],
        !(is_resize(note) && state.events.len() > 0 && state.events.last() is Resize)
            ==> state.route(note).events.subrange(0, state.events.len() as int)
            == state.events,
        state.route(note).close_requested == (state.close_requested || note is Close),
{
    if !(is_resize(note) && state.events.len() > 0 && state.events.last() is Resize) {
        assert(state.route(note).events.subrange(0, state.events.len() as int)
            =~= state.events);
    }
}

/// Routing two sequences one after the other is routing their concatenation.
pub proof fn lemma_route_all_concat(
    state: WindowState,
    first: Seq<Notification>,
    second: Seq<Notification>,
)
    ensures
        state.route_all(first + second) == state.route_all(first).route_all(second),
    decreases second.len(),
{
    if second.len() == 0 {
        assert(first + second =~= first);
    } else {
        assert((first + second).drop_last() =~= first + second.drop_last());
        assert((first + second).last() == second.last());
        lemma_route_all_concat(state, first, second.drop_last());
    }
}

/// A poll during which nothing arrives yields an empty batch, whatever the
/// poll before it gathered, and leaves the close flag alone.
pub proof fn lemma_idle_poll_is_empty(state: WindowState, earlier: Seq<Notification>)
    ensures
        state.poll(Seq::empty()).events == Seq::<Event>::empty(),
        state.poll(earlier).poll(Seq::empty()).events == Seq::<Event>::empty(),
        state.poll(earlier).poll(Seq::empty()).close_requested == state.poll(
            earlier,
        ).close_requested,
{
}

/// Reporting a size twice in a row leaves what reporting the second size
/// alone would have left.
pub proof fn lemma_resize_overwrites(state: WindowState, first: (u32, u32), second: (u32, u32))
    ensures
        state.resized(first.0, first.1).resized(second.0, second.1) == state.resized(
            second.0,
            second.1,
        ),
{
    let once = state.resized(first.0, first.1);
    assert(once.events.len() > 0 && once.events.last() is Resize);
    if state.events.len() > 0 && state.events.last() is Resize {
        assert(once.events.drop_last() =~= state.events.drop_last());
    } else {
        assert(once.events.drop_last() =~= state.events);
    }
}

/// A run of size reports, however long, has the effect of its last report
/// alone: the batch gains or keeps exactly one trailing resize event, and
/// that event carries the last reported width and height.
pub proof fn lemma_resize_run_coalesces(state: WindowState, run: Seq<Notification>)
    requires
        run.len() > 0,
        forall|i: int| 0 <= i < run.len() ==> is_resize(#[trigger] run[i]),
    ensures
        state.route_all(run) == state.resized(
            resize_dims(run.last()).0,
            resize_dims(run.last()).1,
        ),
    decreases run.len(),
{
    let last = run.last();
    let before = run.drop_last();
    assert(is_resize(last));
    if before.len() == 0 {
        assert(state.route_all(before) == state);
    } else {
        assert forall|i: int| 0 <= i < before.len() implies is_resize(#[trigger] before[i]) by {
            assert(before[i] == run[i]);
        }
        lemma_resize_run_coalesces(state, before);
        lemma_resize_overwrites(state, resize_dims(before.last()), resize_dims(last));
    }
}

/// A poll that delivers nothing but size reports, at least one of them,
/// yields a batch of exactly one resize event with the size reported last.
pub proof fn lemma_poll_of_resizes(state: WindowState, run: Seq<Notification>)
    requires
        run.len() > 0,
        forall|i: int| 0 <= i < run.len() ==> is_resize(#[trigger] run[i]),
    ensures
        state.poll(run).events == seq![
            Event::Resize(resize_dims(run.last()).0, resize_dims(run.last()).1),
        ],
        state.poll(run).close_requested == state.close_requested,
{
    lemma_resize_run_coalesces(state.begin_poll(), run);
    assert(state.begin_poll().push(
        Event::Resize(resize_dims(run.last()).0, resize_dims(run.last()).1),
    ).events =~= seq![Event::Resize(resize_dims(run.last()).0, resize_dims(run.last()).1)]);
}

/// A run of size reports inside a poll, after whatever came before it in
/// that poll, folds into one trailing resize event with the last size.
pub proof fn lemma_resize_run_within_poll(
    state: WindowState,
    before: Seq<Notification>,
    run: Seq<Notification>,
)
    requires
        run.len() > 0,
        forall|i: int| 0 <= i < run.len() ==> is_resize(#[trigger] run[i]),
    ensures
        state.poll(before + run) == state.poll(before).resized(
            resize_dims(run.last()).0,
            resize_dims(run.last()).1,
        ),
{
    lemma_route_all_concat(state.begin_poll(), before, run);
    lemma_resize_run_coalesces(state.poll(before), run);
}

/// Folding keeps the last event and empties nothing.
pub proof fn lemma_coalesced_keeps_last(events: Seq<Event>)
    ensures
        coalesced(events).len() <= events.len(),
        events.len() > 0 ==> coalesced(events).len() > 0 && coalesced(events).last()
            == events.last(),
    decreases events.len(),
{
    if events.len() > 0 {
        lemma_coalesced_keeps_last(events.drop_last());
    }
}

/// A folded sequence holds no two resize events next to each other.
pub proof fn lemma_coalesced_has_no_adjacent_resizes(events: Seq<Event>)
    ensures
        forall|i: int|
            0 <= i < coalesced(events).len() - 1 ==> !(#[trigger] coalesced(events)[i] is Resize
                && coalesced(events)[i + 1] is Resize),
    decreases events.len(),
{
    if events.len() > 0 {
        let earlier = events.drop_last();
        lemma_coalesced_has_no_adjacent_resizes(earlier);
        lemma_coalesced_keeps_last(earlier);
        let folded = coalesced(earlier);
        assert forall|i: int| 0 <= i < coalesced(events).len() - 1 implies !(
        #[trigger] coalesced(events)[i] is Resize && coalesced(events)[i + 1] is Resize) by {
            if events.last() is Resize && earlier.len() > 0 && earlier.last() is Resize {
                assert(coalesced(events) == folded.drop_last().push(events.last()));
                if i + 1 < folded.len() - 1 {
                    assert(coalesced(events)[i] == folded[i]);
                    assert(coalesced(events)[i + 1] == folded[i + 1]);
                } else {
                    assert(coalesced(events)[i] == folded[i]);
                    assert(folded[i + 1] is Resize);
                }
            } else {
                assert(coalesced(events) == folded.push(events.last()));
                if i + 1 < folded.len() {
                    assert(coalesced(events)[i] == folded[i]);
                    assert(coalesced(events)[i + 1] == folded[i + 1]);
                } else {
                    assert(coalesced(events)[i] == folded.last());
                }
            }
        }
    }
}

/// The batch of a poll is what its notifications contribute, in the order
/// of delivery, with every run of resize events folded into the last of
/// the run. The close flag is up afterwards if it was up before or a close
/// notification was among them.
pub proof fn lemma_batch_is_coalesced_delivery(state: WindowState, notes: Seq<Notification>)
    ensures
        state.poll(notes).events == coalesced(delivered(notes)),
        state.poll(notes).close_requested == (state.close_requested || exists|i: int|
            0 <= i < notes.len() && #[trigger] notes[i] is Close),
    decreases notes.len(),
{
    if notes.len() > 0 {
        let before = notes.drop_last();
        let last = notes.last();
        lemma_batch_is_coalesced_delivery(state, before);
        lemma_coalesced_keeps_last(delivered(before));
        let sent = delivered(before);
        match event_of(last) {
            Some(event) => {
                assert(delivered(notes) == sent.push(event));
                assert(delivered(notes).drop_last() =~= sent);
            },
            None => {},
        }
        if state.poll(before).close_requested || last is Close {
            if last is Close {
                assert(notes[notes.len() - 1] is Close);
            } else if !state.close_requested {
                let i = choose|i: int| 0 <= i < before.len() && #[trigger] before[i] is Close;
                assert(notes[i] is Close);
            }
        } else {
            assert forall|i: int| 0 <= i < notes.len() implies !(#[trigger] notes[i] is Close) by {
                if i < before.len() {
                    assert(before[i] == notes[i]);
                }
            }
        }
    }
}

/// No batch of a poll holds two resize events next to each other.
pub proof fn lemma_batch_has_no_adjacent_resizes(state: WindowState, notes: Seq<Notification>)
    ensures
        forall|i: int|
            0 <= i < state.poll(notes).events.len() - 1 ==> !(
            #[trigger] state.poll(notes).events[i] is Resize && state.poll(notes).events[i
                + 1] is Resize),
{
    lemma_batch_is_coalesced_delivery(state, notes);
    lemma_coalesced_has_no_adjacent_resizes(delivered(notes));
}

} // verus!

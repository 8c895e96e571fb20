//! Recording selected input events into an append-only log.

use vstd::prelude::*;

verus! {

/// An input event as delivered to a widget. Pointer events carry a mouse
/// payload `M`, keyboard events a key payload `K`.
#[derive(Debug, Clone)]
pub enum InputEvent<M, K> {
    MouseDown(M),
    MouseUp(M),
    MouseMove(M),
    Wheel(M),
    KeyDown(K),
    KeyUp(K),
    /// Any event that is neither a pointer nor a keyboard event.
    Other,
}

/// The four kinds of input event that the log records.
#[derive(Debug, Clone, Copy, PartialEq, Eq, Structural)]
pub enum EventT {
    KeyDown,
    KeyUp,
    MouseDown,
    MouseUp,
}

/// A snapshot of a recorded input event: its kind, and the mouse or key
/// payload kept for display.
#[derive(Debug, Clone)]
pub struct EventL<M, K> {
    pub typ: EventT,
    pub mouse: Option<M>,
    pub key: Option<K>,
}

/// The entry recorded for `event`, if it is of one of the four logged kinds.
pub open spec fn spec_entry<M, K>(event: InputEvent<M, K>) -> Option<EventL<M, K>> {
    match event {
        InputEvent::MouseUp(m) => Some(EventL { typ: EventT::MouseUp, mouse: Some(m), key: None }),
        InputEvent::MouseDown(m) => Some(
            EventL { typ: EventT::MouseDown, mouse: Some(m), key: None },
        ),
        InputEvent::KeyUp(k) => Some(EventL { typ: EventT::KeyUp, mouse: None, key: Some(k) }),
        InputEvent::KeyDown(k) => Some(EventL { typ: EventT::KeyDown, mouse: None, key: Some(k) }),
        _ => None,
    }
}

/// The display name of each kind of recorded event.
pub open spec fn spec_kind_name(typ: EventT) -> Seq<char> {
    match typ {
        EventT::KeyDown => "KeyDown"@,
        EventT::KeyUp => "KeyUp"@,
        EventT::MouseDown => "MouseDown"@,
        EventT::MouseUp => "MouseUp"@,
    }
}

impl<M, K> EventL<M, K> {
    /// A mouse entry holds a mouse payload and no key payload; a key entry
    /// the other way round.
    pub open spec fn wf(&self) -> bool {
        match self.typ {
            EventT::MouseDown | EventT::MouseUp => self.mouse is Some && self.key is None,
            EventT::KeyDown | EventT::KeyUp => self.mouse is None && self.key is Some,
        }
    }

    /// The entry to record for `event`, or `None` for an event of a kind
    /// that is not logged.
    pub fn try_from_event(event: InputEvent<M, K>) -> (r: Option<Self>)
        ensures
            r == spec_entry(event),
            r matches Some(l) ==> l.wf(),
    {
        let to_log = match event {
            InputEvent::MouseUp(mouse) => Some((EventT::MouseUp, Some(mouse), None)),
            InputEvent::MouseDown(mouse) => Some((EventT::MouseDown, Some(mouse), None)),
            InputEvent::KeyUp(key) => Some((EventT::KeyUp, None, Some(key))),
            InputEvent::KeyDown(key) => Some((EventT::KeyDown, None, Some(key))),
            _ => None,
        };
        match to_log {
            Some((typ, mouse, key)) => Some(EventL { typ, mouse, key }),
            None => None,
        }
    }

    /// The name of the recorded event's kind.
    pub fn name(&self) -> (r: String)
        ensures
            r@ == spec_kind_name(self.typ),
    {
        let s: &str = match self.typ {
            EventT::KeyDown => "KeyDown",
            EventT::KeyUp => "KeyUp",
            EventT::MouseDown => "MouseDown",
            EventT::MouseUp => "MouseUp",
        };
        s.to_owned()
    }
}

/// The log after `event` is offered to it: the event's entry appended, or
/// the log unchanged for an event of a kind that is not logged.
pub open spec fn spec_logged<M, K>(events: Seq<EventL<M, K>>, event: InputEvent<M, K>) -> Seq<
    EventL<M, K>,
> {
    match spec_entry(event) {
        Some(l) => events.push(l),
        None => events,
    }
}

/// The log after each of `offered` is offered to it in turn.
pub open spec fn spec_logged_all<M, K>(
    events: Seq<EventL<M, K>>,
    offered: Seq<InputEvent<M, K>>,
) -> Seq<EventL<M, K>>
    decreases offered.len(),
{
    if offered.len() == 0 {
        events
    } else {
        spec_logged_all(spec_logged(events, offered[0]), offered.drop_first())
    }
}

/// How many of `offered` are of a logged kind.
pub open spec fn spec_count_logged<M, K>(offered: Seq<InputEvent<M, K>>) -> nat
    decreases offered.len(),
{
    if offered.len() == 0 {
        0
    } else {
        (if spec_entry(offered[0]) is Some {
            1nat
        } else {
            0nat
        }) + spec_count_logged(offered.drop_first())
    }
}

/// Application state: free text input and the log of recorded events.
#[derive(Debug, Clone)]
pub struct AppState<M, K> {
    pub text_input: String,
    pub events: Vec<EventL<M, K>>,
}

impl<M, K> AppState<M, K> {
    /// Every entry of the log is well formed.
    pub open spec fn wf(&self) -> bool {
        forall|i: int| 0 <= i < self.events@.len() ==> (#[trigger] self.events@[i]).wf()
    }

    /// The state with no text and an empty log.
    pub fn new() -> (r: Self)
        ensures
            r.text_input@ == Seq::<char>::empty(),
            r.events@ == Seq::<EventL<M, K>>::empty(),
            r.wf(),
    {
        AppState { text_input: String::new(), events: Vec::new() }
    }

    /// Record `event` if it is of one of the four logged kinds.
    pub fn log_event(&mut self, event: InputEvent<M, K>)
        ensures
            final(self).events@ == spec_logged(old(self).events@, event),
            final(self).text_input == old(self).text_input,
            old(self).wf() ==> final(self).wf(),
    {
        if let Some(to_log) = EventL::try_from_event(event) {
            self.events.push(to_log);
        }
    }
}

/// Whether `event` is a key press or a key release.
pub fn is_key_event<M, K>(event: &InputEvent<M, K>) -> (r: bool)
    ensures
        r == (event is KeyDown || event is KeyUp),
{
    match event {
        InputEvent::KeyDown(_) | InputEvent::KeyUp(_) => true,
        _ => false,
    }
}

/// Whether `event` is a mouse button press or release.
pub fn is_mouse_button_event<M, K>(event: &InputEvent<M, K>) -> (r: bool)
    ensures
        r == (event is MouseDown || event is MouseUp),
{
    match event {
        InputEvent::MouseDown(_) | InputEvent::MouseUp(_) => true,
        _ => false,
    }
}

/// Records into the state's log the events that its filter accepts.
pub struct EventLogger<F> {
    filter: F,
}

impl<F> EventLogger<F> {
    /// The filter deciding which events are recorded.
    pub closed spec fn filter(&self) -> F {
        self.filter
    }

    /// A logger that records the events `f` accepts.
    pub fn new(f: F) -> (r: Self)
        ensures
            r.filter() == f,
    {
        EventLogger { filter: f }
    }

    /// Offer `event` to the logger: when the filter accepts it, it is
    /// recorded in `data`. Returns the filter's verdict.
    pub fn event<M, K>(&self, event: InputEvent<M, K>, data: &mut AppState<M, K>) -> (accepted:
        bool) where F: Fn(&InputEvent<M, K>) -> bool
        requires
            self.filter().requires((&event,)),
        ensures
            self.filter().ensures((&event,), accepted),
            final(data).events@ == if accepted {
                spec_logged(old(data).events@, event)
            } else {
                old(data).events@
            },
            final(data).text_input == old(data).text_input,
            old(data).wf() ==> final(data).wf(),
    {
        let accepted = (self.filter)(&event);
        if accepted {
            data.log_event(event);
        }
        accepted
    }
}

/// The log only ever grows at its end: offering one event keeps every
/// earlier entry in place and adds exactly one entry when the event is of a
/// logged kind, none otherwise.
pub proof fn lemma_log_appends<M, K>(events: Seq<EventL<M, K>>, event: InputEvent<M, K>)
    ensures
        spec_logged(events, event).len() == events.len() + if spec_entry(event) is Some {
            1int
        } else {
            0int
        },
        spec_logged(events, event).subrange(0, events.len() as int) == events,
{
    assert(spec_logged(events, event).subrange(0, events.len() as int) =~= events);
}

/// Over any run of offered events, the log keeps its earlier entries as a
/// prefix and grows by one entry per event of a logged kind.
pub proof fn lemma_log_grows_per_logged_event<M, K>(
    events: Seq<EventL<M, K>>,
    offered: Seq<InputEvent<M, K>>,
)
    ensures
        spec_logged_all(events, offered).len() == events.len() + spec_count_logged(offered),
        spec_logged_all(events, offered).subrange(0, events.len() as int) == events,
    decreases offered.len(),
{
    if offered.len() > 0 {
        let next = spec_logged(events, offered[0]);
        lemma_log_appends(events, offered[0]);
        lemma_log_grows_per_logged_event(next, offered.drop_first());
        let all = spec_logged_all(events, offered);
        assert(all.subrange(0, events.len() as int) =~= next.subrange(0, events.len() as int));
    }
}

} // verus!

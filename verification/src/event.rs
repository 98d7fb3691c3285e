//! The event loop: what one pass over the queued input events asks for.

use vstd::prelude::*;

verus! {

/// The key of a key press, as far as the loop tells keys apart.
#[derive(Clone, Copy, Debug, PartialEq, Eq, Structural)]
pub enum Key {
    Escape,
    Other,
}

/// An input event, as far as the loop tells events apart.
#[derive(Clone, Copy, Debug, PartialEq, Eq, Structural)]
pub enum Event {
    /// The user asked the program to quit.
    Quit,
    /// A key went down.
    KeyDown { key: Key },
    /// The pointer moved to a position in the window.
    PointerMotion { x: i32, y: i32 },
    /// Any other event.
    Other,
}

/// What the loop asks of the program that runs it.
#[derive(Clone, Copy, Debug, PartialEq, Eq, Structural)]
pub enum Action {
    /// Report that the pointer is at a position.
    Report { x: i32, y: i32 },
    /// Render one frame and present it, then poll again.
    Render,
    /// Leave the loop.
    Stop,
}

impl Event {
    /// Whether the event is a stop signal: a quit request or a press of the
    /// escape key, and nothing else.
    pub open spec fn spec_stops(&self) -> bool {
        *self == Event::Quit || *self == (Event::KeyDown { key: Key::Escape })
    }

    /// Whether the event is a stop signal.
    #[verifier::when_used_as_spec(spec_stops)]
    pub fn stops(&self) -> (stops: bool)
        ensures
            stops == self.spec_stops(),
    {
        match self {
            Event::Quit => true,
            Event::KeyDown { key: Key::Escape } => true,
            _ => false,
        }
    }
}

/// The position of the first stop signal among `events`, or their number
/// where there is none.
pub open spec fn first_stop(events: Seq<Event>) -> int
    decreases events.len(),
{
    if events.len() == 0 {
        0
    } else if events[0].spec_stops() {
        0
    } else {
        1 + first_stop(events.drop_first())
    }
}

/// The reports that `events` ask for: one for each pointer motion, in the
/// order of arrival, and nothing for any other event.
pub open spec fn reports(events: Seq<Event>) -> Seq<Action>
    decreases events.len(),
{
    if events.len() == 0 {
        Seq::empty()
    } else {
        match events.last() {
            Event::PointerMotion { x, y } => reports(events.drop_last()).push(
                Action::Report { x, y },
            ),
            _ => reports(events.drop_last()),
        }
    }
}

/// The actions of one pass over `events`, the events that were queued when
/// the pass began, in the order of arrival.
///
/// The events before the first stop signal are handled in order. Then the
/// pass ends: with [`Action::Stop`] at a stop signal, after which no event
/// is looked at and no frame is rendered; with [`Action::Render`], once,
/// where the queue held no stop signal.
pub open spec fn pass(events: Seq<Event>) -> Seq<Action> {
    let handled = events.take(first_stop(events));
    if first_stop(events) < events.len() {
        reports(handled).push(Action::Stop)
    } else {
        reports(handled).push(Action::Render)
    }
}

/// `first_stop` is what its name says: it lies within the events, no event
/// before it is a stop signal, and where it is not the end the event there
/// is one.
pub proof fn lemma_first_stop(events: Seq<Event>)
    ensures
        0 <= first_stop(events) <= events.len(),
        forall|at: int| 0 <= at < first_stop(events) ==> !events[at].spec_stops(),
        first_stop(events) < events.len() ==> events[first_stop(events)].spec_stops(),
    decreases events.len(),
{
    if events.len() > 0 && !events[0].spec_stops() {
        let rest = events.drop_first();
        lemma_first_stop(rest);
        assert forall|at: int| 0 <= at < first_stop(events) implies !events[at].spec_stops() by {
            if at > 0 {
                assert(events[at] == rest[at - 1]);
            }
        }
        assert(first_stop(rest) < rest.len() ==> rest[first_stop(rest)] == events[first_stop(
            events,
        )]);
    }
}

proof fn lemma_first_stop_at(events: Seq<Event>, at: int)
    requires
        0 <= at <= events.len(),
        forall|before: int| 0 <= before < at ==> !events[before].spec_stops(),
        at < events.len() ==> events[at].spec_stops(),
    ensures
        first_stop(events) == at,
{
    lemma_first_stop(events);
}

proof fn lemma_reports_are_reports(events: Seq<Event>)
    ensures
        forall|at: int| 0 <= at < reports(events).len() ==> reports(events)[at] is Report,
    decreases events.len(),
{
    if events.len() > 0 {
        lemma_reports_are_reports(events.drop_last());
    }
}

/// A pass ends once, and in one of two ways. Its last action is
/// [`Action::Stop`] exactly where some queued event is a stop signal, and
/// [`Action::Render`] exactly where none is; every action before the last
/// is a report. So a pass with a stop signal renders no frame.
pub proof fn lemma_pass_ends_once(events: Seq<Event>)
    ensures
        pass(events).len() >= 1,
        pass(events).last() == Action::Stop <==> exists|at: int|
            0 <= at < events.len() && events[at].spec_stops(),
        pass(events).last() == Action::Render <==> forall|at: int|
            0 <= at < events.len() ==> !events[at].spec_stops(),
        forall|at: int| 0 <= at < pass(events).len() - 1 ==> pass(events)[at] is Report,
{
    lemma_first_stop(events);
    lemma_reports_are_reports(events.take(first_stop(events)));
}

/// A stop signal ends the pass it is found in. Where the event at `at` is a
/// stop signal the pass ends in [`Action::Stop`] and asks for no frame, and
/// it is the pass over the events up to the first stop signal: what was
/// queued behind that has no part in it.
pub proof fn lemma_stop_ends_pass(events: Seq<Event>, at: int)
    requires
        0 <= at < events.len(),
        events[at].spec_stops(),
    ensures
        pass(events).last() == Action::Stop,
        forall|step: int| 0 <= step < pass(events).len() ==> pass(events)[step] != Action::Render,
        first_stop(events) <= at,
        pass(events) == pass(events.take(first_stop(events) + 1)),
{
    lemma_pass_ends_once(events);
    lemma_first_stop(events);
    let cut = first_stop(events);
    let kept = events.take(cut + 1);
    assert(kept.take(cut) =~= events.take(cut));
    assert forall|before: int| 0 <= before < cut implies !kept[before].spec_stops() by {
        assert(kept[before] == events[before]);
    }
    lemma_first_stop_at(kept, cut);
}

/// One pass over `events`, the events that were queued when the pass began,
/// in the order of arrival.
pub fn drain(events: &Vec<Event>) -> (actions: Vec<Action>)
    ensures
        actions@ == pass(events@),
{
    let mut actions: Vec<Action> = Vec::new();
    let mut at: usize = 0;
    while at < events.len()
        invariant
            at <= events.len(),
            forall|before: int| 0 <= before < at ==> !events@[before].spec_stops(),
            actions@ == reports(events@.take(at as int)),
        decreases events.len() - at,
    {
        let event = events[at];
        if event.stops() {
            proof {
                lemma_first_stop_at(events@, at as int);
            }
            actions.push(Action::Stop);
            return actions;
        }
        proof {
            assert(events@.take(at + 1).drop_last() =~= events@.take(at as int));
            assert(events@.take(at + 1).last() == event);
        }
        match event {
            Event::PointerMotion { x, y } => {
                actions.push(Action::Report { x, y });
            },
            _ => {},
        }
        at = at + 1;
    }
    proof {
        lemma_first_stop_at(events@, at as int);
        assert(events@.take(at as int) =~= events@);
    }
    actions.push(Action::Render);
    actions
}

} // verus!

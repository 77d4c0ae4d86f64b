//! What holds of the adapter on every input.

use vstd::prelude::*;
use crate::devices::{lemma_identities_stay_distinct, lemma_identity_is_stable};
use crate::geometry::{Point, Size};
use crate::input::{Button, ButtonArgs, ButtonState, EventView, InputView, Motion};
use crate::keyboard::key_of;
use crate::model::{Lookahead, Tracker, WindowModel, is_escape_press, step};
use crate::native::{ElementState, KeyEventView, RawEventView};
use crate::translate::is_repeat;

verus! {

/// Whether the engine models a raw event at all.
pub open spec fn is_modelled(event: RawEventView) -> bool {
    !(event is Unsupported)
}

/// The number of raw events in a queue that the engine models.
pub open spec fn count_modelled(queue: Seq<RawEventView>) -> nat
    decreases queue.len(),
{
    if queue.len() == 0 {
        0
    } else {
        (if is_modelled(queue[0]) {
            1nat
        } else {
            0nat
        }) + count_modelled(queue.drop_first())
    }
}

/// The event that reports an input, as a sequence; nothing for no input.
pub open spec fn reported(input: Option<InputView>) -> Seq<EventView> {
    match input {
        Some(i) => seq![EventView::Input(i, None)],
        None => Seq::empty(),
    }
}

/// The event that reports the lookahead, as a sequence.
pub open spec fn paired(lookahead: Lookahead) -> Seq<EventView> {
    match lookahead.motion() {
        Some(m) => seq![EventView::Input(InputView::Move(m), None)],
        None => Seq::empty(),
    }
}

/// The tracking state with nothing waiting to be reported.
pub open spec fn cleared(t: Tracker) -> Tracker {
    Tracker { lookahead: Lookahead::Empty, ..t }
}

/// What a queue of raw events gives rise to, event by event in arrival
/// order: for each raw event its own input, if it has one, directly
/// followed by the motion that was synthesized with it, if any.
pub open spec fn reports(t: Tracker, queue: Seq<RawEventView>) -> Seq<EventView>
    decreases queue.len(),
{
    if queue.len() == 0 {
        Seq::empty()
    } else {
        let (after, input) = step(t, queue[0]);
        reported(input) + paired(after.lookahead) + reports(cleared(after), queue.drop_first())
    }
}

/// The inputs of a queue of raw events, in arrival order, without the
/// synthesized motions.
pub open spec fn translations(t: Tracker, queue: Seq<RawEventView>) -> Seq<EventView>
    decreases queue.len(),
{
    if queue.len() == 0 {
        Seq::empty()
    } else {
        let (after, input) = step(t, queue[0]);
        reported(input) + translations(after, queue.drop_first())
    }
}

/// The raw events that the engine models and that still do not yield
/// exactly one event in the state `t`: a press of the escape key that
/// closes the window, a repeated key press, a captured cursor move that
/// only sets the baseline, a free cursor move that is followed by its
/// relative motion, and an axis motion of a device that can get no
/// identity.
pub open spec fn is_exceptional(t: Tracker, event: RawEventView) -> bool {
    match event {
        RawEventView::KeyboardInput(key) => (t.exit_on_esc && is_escape_press(key)) || is_repeat(
            key,
            t.keyboard_ignore_modifiers,
            t.held,
        ),
        RawEventView::CursorMoved(_) => if t.capturing {
            t.last_cursor is None
        } else {
            t.last_cursor is Some
        },
        RawEventView::AxisMotion { device, axis, value } => t.devices.identity(device) is None,
        _ => false,
    }
}

/// No raw event of the queue is exceptional in the state in which it is
/// translated.
pub open spec fn is_plain_run(t: Tracker, queue: Seq<RawEventView>) -> bool
    decreases queue.len(),
{
    queue.len() == 0 || (!is_exceptional(t, queue[0]) && is_plain_run(
        step(t, queue[0]).0,
        queue.drop_first(),
    ))
}

/// A raw event that is not exceptional yields an input exactly if the
/// engine models it, and no synthesized motion.
pub proof fn lemma_plain_step(t: Tracker, event: RawEventView)
    requires
        t.lookahead is Empty,
        !is_exceptional(t, event),
    ensures
        step(t, event).1 is Some <==> is_modelled(event),
        step(t, event).0.lookahead is Empty,
{
}

/// An exceptional raw event does not yield exactly one event: it yields
/// no input, or an input and a synthesized motion to follow it.
pub proof fn lemma_exceptional_step(t: Tracker, event: RawEventView)
    requires
        t.lookahead is Empty,
        is_exceptional(t, event),
    ensures
        is_modelled(event),
        step(t, event).1 is None || !(step(t, event).0.lookahead is Empty),
{
}

/// A raw event that yields no input leaves no synthesized motion either.
pub proof fn lemma_silent_step(t: Tracker, event: RawEventView)
    requires
        t.lookahead is Empty,
        step(t, event).1 is None,
    ensures
        step(t, event).0.lookahead is Empty,
{
}

/// Polling until nothing is reported yields, for each queued raw event in
/// arrival order, the input of that event and then the motion synthesized
/// with it, and nothing else. A raw event that the engine does not model
/// contributes nothing.
pub proof fn lemma_drain_in_arrival_order(m: WindowModel)
    requires
        m.tracker.lookahead is Empty,
    ensures
        m.drain() == reports(m.tracker, m.queue),
    decreases m.queue.len(),
{
    if m.queue.len() > 0 {
        let (after, input) = step(m.tracker, m.queue[0]);
        let rest = WindowModel { tracker: after, queue: m.queue.drop_first(), ..m };
        let calm = rest.with_tracker(cleared(after));
        lemma_drain_in_arrival_order(calm);
        match input {
            Some(i) => {
                assert(m.poll() == (rest, Some(EventView::Input(i, None))));
                if after.lookahead.motion() is Some {
                    assert(rest.poll().0 == calm);
                    assert(rest.drain() =~= paired(after.lookahead) + calm.drain());
                } else {
                    assert(calm == rest);
                }
                assert(m.drain() =~= reports(m.tracker, m.queue));
            },
            None => {
                lemma_silent_step(m.tracker, m.queue[0]);
                assert(calm == rest);
                assert(m.poll() == rest.poll());
                assert(m.drain() =~= reports(m.tracker, m.queue));
            },
        }
    } else {
        assert(m.drain() =~= reports(m.tracker, m.queue));
    }
}

/// In a queue without exceptional events, there are as many inputs as
/// raw events that the engine models.
pub proof fn lemma_translations_len(t: Tracker, queue: Seq<RawEventView>)
    requires
        t.lookahead is Empty,
        is_plain_run(t, queue),
    ensures
        translations(t, queue).len() == count_modelled(queue),
        translations(t, queue) == reports(t, queue),
    decreases queue.len(),
{
    if queue.len() > 0 {
        lemma_plain_step(t, queue[0]);
        let after = step(t, queue[0]).0;
        assert(cleared(after) == after);
        lemma_translations_len(after, queue.drop_first());
        assert(translations(t, queue) =~= reports(t, queue));
    }
}

/// Polling until nothing is reported yields exactly one event for each
/// queued raw event that the engine models, in arrival order, and none for
/// the others, provided that no raw event is exceptional when its turn
/// comes.
pub proof fn lemma_one_event_per_raw_event(m: WindowModel)
    requires
        m.tracker.lookahead is Empty,
        is_plain_run(m.tracker, m.queue),
    ensures
        m.drain() == translations(m.tracker, m.queue),
        m.drain().len() == count_modelled(m.queue),
{
    lemma_drain_in_arrival_order(m);
    lemma_translations_len(m.tracker, m.queue);
}

/// A synthesized motion that waits is reported by the next poll, before
/// any queued raw event is translated, and then waits no longer.
pub proof fn lemma_lookahead_comes_first(m: WindowModel)
    requires
        !(m.tracker.lookahead is Empty),
    ensures
        m.poll().1 == Some(
            EventView::Input(InputView::Move(m.tracker.lookahead.motion().unwrap()), None),
        ),
        m.poll().0 == m.with_tracker(cleared(m.tracker)),
        m.poll().0.queue == m.queue,
{
}

/// A raw event that the engine does not model is dropped: polling goes on
/// with the event behind it.
pub proof fn lemma_unmodelled_is_skipped(m: WindowModel)
    requires
        m.tracker.lookahead is Empty,
        m.queue.len() > 0,
        !is_modelled(m.queue[0]),
    ensures
        m.poll() == (WindowModel { queue: m.queue.drop_first(), ..m }).poll(),
{
    let rest = WindowModel { queue: m.queue.drop_first(), ..m };
    assert(step(m.tracker, m.queue[0]).0 == m.tracker);
}

/// A poll never reports an idle event, and never an event with a time
/// stamp.
pub proof fn lemma_poll_reports_inputs(m: WindowModel)
    ensures
        match m.poll().1 {
            Some(EventView::Input(_, stamp)) => stamp is None,
            Some(EventView::Idle) => false,
            None => true,
        },
    decreases m.queue.len(),
{
    if m.tracker.lookahead is Empty && m.queue.len() > 0 {
        let (after, input) = step(m.tracker, m.queue[0]);
        if input is None {
            lemma_poll_reports_inputs(
                WindowModel { tracker: after, queue: m.queue.drop_first(), ..m },
            );
        }
    }
}

/// A raw event whose cursor position is within the coordinate bound
/// leaves the tracking state well formed.
pub proof fn lemma_step_keeps_wf(t: Tracker, event: RawEventView)
    requires
        t.wf(),
        event.in_range(),
    ensures
        step(t, event).0.wf(),
{
    lemma_step_keeps_identities(t, event, 0);
}

/// Polling keeps the adapter well formed.
pub proof fn lemma_poll_keeps_wf(m: WindowModel)
    requires
        m.wf(),
    ensures
        m.poll().0.wf(),
    decreases m.queue.len(),
{
    if m.tracker.lookahead is Empty && m.queue.len() > 0 {
        let (after, input) = step(m.tracker, m.queue[0]);
        let rest = WindowModel { tracker: after, queue: m.queue.drop_first(), ..m };
        assert(m.queue[0].in_range());
        lemma_step_keeps_identities(m.tracker, m.queue[0], 0);
        assert forall|i: int| 0 <= i < rest.queue.len() implies (#[trigger] rest.queue[i]).in_range() by {
            assert(rest.queue[i] == m.queue[i + 1]);
        }
        if input is None {
            lemma_poll_keeps_wf(rest);
        }
    }
}

/// A request to close, once made, stays through every poll.
pub proof fn lemma_poll_keeps_should_close(m: WindowModel)
    requires
        m.tracker.should_close,
    ensures
        m.poll().0.tracker.should_close,
    decreases m.queue.len(),
{
    if m.tracker.lookahead is Empty && m.queue.len() > 0 {
        let (after, input) = step(m.tracker, m.queue[0]);
        if input is None {
            lemma_poll_keeps_should_close(
                WindowModel { tracker: after, queue: m.queue.drop_first(), ..m },
            );
        }
    }
}

/// Where the window exits on escape, a press of the escape key is not
/// reported as a button event: the poll that meets it asks the window to
/// close and goes on with the event behind it.
pub proof fn lemma_escape_closes(m: WindowModel, key: KeyEventView)
    requires
        m.tracker.lookahead is Empty,
        m.tracker.exit_on_esc,
        is_escape_press(key),
        m.queue.len() > 0,
        m.queue[0] == RawEventView::KeyboardInput(key),
    ensures
        step(m.tracker, m.queue[0]) == (Tracker { should_close: true, ..m.tracker }, None::<InputView>),
        m.poll() == (WindowModel {
            tracker: Tracker { should_close: true, ..m.tracker },
            queue: m.queue.drop_first(),
            ..m
        }).poll(),
        m.poll().0.tracker.should_close,
{
    let rest = WindowModel {
        tracker: Tracker { should_close: true, ..m.tracker },
        queue: m.queue.drop_first(),
        ..m
    };
    lemma_poll_keeps_should_close(rest);
}

/// A second press of a key, with no release between, yields nothing and
/// changes nothing; after the key's release a press is reported again.
pub proof fn lemma_key_repeat(t: Tracker, press: KeyEventView, release: KeyEventView)
    requires
        press.state == ElementState::Pressed,
        release.state == ElementState::Released,
        release.logical_key == press.logical_key,
        !(t.exit_on_esc && is_escape_press(press)),
    ensures
        ({
            let pressed = step(t, RawEventView::KeyboardInput(press)).0;
            let released = step(pressed, RawEventView::KeyboardInput(release)).0;
            let button = ButtonArgs {
                state: ButtonState::Press,
                button: Button::Keyboard(key_of(press.logical_key, t.keyboard_ignore_modifiers)),
                scancode: press.scancode,
            };
            &&& step(pressed, RawEventView::KeyboardInput(press)) == (pressed, None::<InputView>)
            &&& step(released, RawEventView::KeyboardInput(press)).1 == Some(
                InputView::Button(button),
            )
        }),
{
}

/// With the cursor free and a previous position known, a raw cursor move
/// is reported as the absolute position, and the very next poll reports
/// the displacement from the previous position, whatever else is queued.
pub proof fn lemma_cursor_motion_pairing(m: WindowModel, position: Point, previous: Point)
    requires
        m.tracker.lookahead is Empty,
        !m.tracker.capturing,
        m.tracker.last_cursor == Some(previous),
        m.queue.len() > 0,
        m.queue[0] == RawEventView::CursorMoved(position),
    ensures
        m.poll().1 == Some(
            EventView::Input(InputView::Move(Motion::MouseCursor(position)), None),
        ),
        m.poll().0.poll().1 == Some(
            EventView::Input(
                InputView::Move(Motion::MouseRelative(position.offset_from(previous))),
                None,
            ),
        ),
        m.poll().0.poll().0 == (WindowModel {
            tracker: Tracker { last_cursor: Some(position), ..m.tracker },
            queue: m.queue.drop_first(),
            ..m
        }),
{
}

/// While the cursor is captured, no poll reports an absolute cursor
/// position that comes from a raw cursor move.
pub proof fn lemma_captured_move_is_relative(t: Tracker, position: Point)
    requires
        t.capturing,
    ensures
        match step(t, RawEventView::CursorMoved(position)).1 {
            Some(input) => t.last_cursor is Some && input == InputView::Move(
                Motion::MouseRelative(position.offset_from(t.last_cursor.unwrap())),
            ),
            None => t.last_cursor is None,
        },
        step(t, RawEventView::CursorMoved(position)).0.last_cursor == Some(position),
        step(t, RawEventView::CursorMoved(position)).0.lookahead == t.lookahead,
{
}

/// Whether an event reports an absolute cursor position.
pub open spec fn is_cursor_position(event: EventView) -> bool {
    event matches EventView::Input(InputView::Move(Motion::MouseCursor(_)), _)
}

/// While the cursor is captured, the raw events of a queue give rise to no
/// report of an absolute cursor position.
pub proof fn lemma_captured_reports(t: Tracker, queue: Seq<RawEventView>)
    requires
        t.capturing,
        t.lookahead is Empty,
    ensures
        forall|i: int|
            0 <= i < reports(t, queue).len() ==> !is_cursor_position(#[trigger] reports(t, queue)[i]),
    decreases queue.len(),
{
    if queue.len() > 0 {
        let (after, input) = step(t, queue[0]);
        assert(after.capturing && after.lookahead is Empty);
        assert(cleared(after) == after);
        lemma_captured_reports(after, queue.drop_first());
        let rest = reports(after, queue.drop_first());
        assert(reports(t, queue) =~= reported(input) + rest);
        assert forall|i: int| 0 <= i < reports(t, queue).len() implies !is_cursor_position(
            #[trigger] reports(t, queue)[i],
        ) by {
            if i >= reported(input).len() {
                assert(reports(t, queue)[i] == rest[i - reported(input).len()]);
            }
        }
    }
}

/// While the cursor is captured, polling until nothing is reported never
/// reports an absolute cursor position.
pub proof fn lemma_capture_hides_position(m: WindowModel)
    requires
        m.tracker.capturing,
        m.tracker.lookahead is Empty,
    ensures
        forall|i: int|
            0 <= i < m.drain().len() ==> !is_cursor_position(#[trigger] m.drain()[i]),
{
    lemma_drain_in_arrival_order(m);
    lemma_captured_reports(m.tracker, m.queue);
}

/// Switching capture on and at once off again synthesizes no motion, asks
/// for no move of the cursor, and leaves the recorded cursor position and
/// the queue as they were: the adapter is as if capture had only been
/// switched off.
pub proof fn lemma_capture_toggle(m: WindowModel, size: Size)
    ensures
        ({
            let toggled = m.with_tracker(m.tracker.set_capture(true).set_capture(false));
            &&& toggled == m.with_tracker(m.tracker.set_capture(false))
            &&& toggled.tracker.last_cursor == m.tracker.last_cursor
            &&& toggled.tracker.lookahead == m.tracker.lookahead
            &&& toggled.queue == m.queue
            &&& toggled.tracker.recentre_target(size) is None
        }),
{
}

/// No raw event takes an identity from a device or gives one identity to
/// two devices.
pub proof fn lemma_step_keeps_identities(t: Tracker, event: RawEventView, device: u64)
    requires
        t.devices.wf(),
        t.devices.distinct(),
    ensures
        step(t, event).0.devices.wf(),
        step(t, event).0.devices.distinct(),
        step(t, event).0.devices.devices >= t.devices.devices,
        t.devices.ids.contains_key(device) ==> step(t, event).0.devices.ids.contains_key(device)
            && step(t, event).0.devices.ids[device] == t.devices.ids[device],
{
    match event {
        RawEventView::AxisMotion { device: moved, axis, value } => {
            lemma_identities_stay_distinct(t.devices, moved);
            if t.devices.ids.contains_key(device) {
                lemma_identity_is_stable(t.devices, device, moved);
            }
        },
        _ => {},
    }
}

/// A close request is always reported; it asks the window to close only
/// where the window closes automatically.
pub proof fn lemma_close_request(t: Tracker)
    ensures
        step(t, RawEventView::CloseRequested).1 == Some(InputView::Close),
        step(t, RawEventView::CloseRequested).0 == (Tracker {
            should_close: t.should_close || t.automatic_close,
            ..t
        }),
{
}

} // verus!

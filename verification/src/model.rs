//! The adapter as a mathematical state machine.
//!
//! A [`WindowModel`] is the value of a window adapter: its settings, its
//! cursor and keyboard tracking state, and the raw events that wait to be
//! translated. The functions here say what each operation of the adapter
//! does to that value and what it reports.

use vstd::prelude::*;
use crate::devices::DeviceTableView;
use crate::geometry::{Offset, Point, Size};
use crate::input::{EventView, InputView, Motion};
use crate::keyboard::{Key, KeyboardIgnoreModifiers, LogicalKeyView, NamedKey};
use crate::native::{ElementState, KeyEventView, RawEventView};
use crate::translate::translate;

verus! {

/// A synthesized motion that is reported before any further raw event is
/// translated. There is never more than one.
#[derive(Clone, Copy, PartialEq, Eq, Structural, Debug)]
pub enum Lookahead {
    Empty,
    /// An absolute cursor position to report.
    Absolute(Point),
    /// A relative cursor motion to report.
    Relative(Offset),
}

impl Lookahead {
    /// The motion that waits to be reported, if any.
    pub open spec fn motion(self) -> Option<Motion> {
        match self {
            Lookahead::Empty => None,
            Lookahead::Absolute(p) => Some(Motion::MouseCursor(p)),
            Lookahead::Relative(d) => Some(Motion::MouseRelative(d)),
        }
    }
}

/// The state that the translation of raw events reads and updates.
pub struct Tracker {
    pub keyboard_ignore_modifiers: KeyboardIgnoreModifiers,
    pub exit_on_esc: bool,
    pub automatic_close: bool,
    pub should_close: bool,
    /// Whether the cursor is captured: only relative motion is reported.
    pub capturing: bool,
    /// The position of the most recent cursor sample.
    pub last_cursor: Option<Point>,
    pub lookahead: Lookahead,
    /// A captured cursor move was seen and the cursor has not been moved
    /// back to the centre since.
    pub recentre_due: bool,
    /// The key whose repeated presses are suppressed.
    pub held: Option<Key>,
    pub devices: DeviceTableView,
}

/// The value of a window adapter.
pub struct WindowModel {
    pub title: Seq<char>,
    pub tracker: Tracker,
    /// The raw events not yet translated, oldest first.
    pub queue: Seq<RawEventView>,
}

/// Whether a keyboard event is a press of the escape key.
pub open spec fn is_escape_press(key: KeyEventView) -> bool {
    key.state == ElementState::Pressed && key.logical_key == LogicalKeyView::Named(
        NamedKey::Escape,
    )
}

/// The effect of a raw cursor move to `position`.
///
/// With a previous position known, the move is a displacement from it:
/// while capturing, only the displacement is reported and the cursor is due
/// to be moved back to the centre; otherwise the absolute position is
/// reported and the displacement follows as the lookahead. The first
/// position seen is reported as it is, unless the cursor is captured: then
/// it only becomes the baseline.
pub open spec fn cursor_step(t: Tracker, position: Point) -> (Tracker, Option<InputView>) {
    match t.last_cursor {
        Some(previous) => {
            let delta = position.offset_from(previous);
            if t.capturing {
                (
                    Tracker { last_cursor: Some(position), recentre_due: true, ..t },
                    Some(InputView::Move(Motion::MouseRelative(delta))),
                )
            } else {
                (
                    Tracker {
                        last_cursor: Some(position),
                        lookahead: Lookahead::Relative(delta),
                        ..t
                    },
                    Some(InputView::Move(Motion::MouseCursor(position))),
                )
            }
        },
        None => (
            Tracker { last_cursor: Some(position), ..t },
            if t.capturing {
                None
            } else {
                Some(InputView::Move(Motion::MouseCursor(position)))
            },
        ),
    }
}

/// The effect of one raw event: the state afterwards, and the input that
/// is reported for it, if any.
///
/// A press of the escape key, where the window exits on escape, asks the
/// window to close and is not reported. A close request is reported, and
/// asks the window to close only where it closes automatically.
pub open spec fn step(t: Tracker, event: RawEventView) -> (Tracker, Option<InputView>) {
    match event {
        RawEventView::CursorMoved(position) => cursor_step(t, position),
        RawEventView::KeyboardInput(key) if t.exit_on_esc && is_escape_press(key) => (
            Tracker { should_close: true, ..t },
            None,
        ),
        _ => {
            let tr = translate(event, t.keyboard_ignore_modifiers, t.held, t.devices);
            (
                Tracker {
                    should_close: t.should_close || (t.automatic_close && is_close(event)),
                    held: tr.held,
                    devices: tr.devices,
                    ..t
                },
                tr.input,
            )
        },
    }
}

/// Whether a raw event says that the window is to close or has gone.
pub open spec fn is_close(event: RawEventView) -> bool {
    event is CloseRequested || event is Destroyed
}

impl Tracker {
    /// The state of a new adapter.
    pub open spec fn initial(exit_on_esc: bool, automatic_close: bool) -> Tracker {
        Tracker {
            keyboard_ignore_modifiers: KeyboardIgnoreModifiers::Keep,
            exit_on_esc,
            automatic_close,
            should_close: false,
            capturing: false,
            last_cursor: None,
            lookahead: Lookahead::Empty,
            recentre_due: false,
            held: None,
            devices: DeviceTableView::empty(),
        }
    }

    /// The recorded cursor position is within the coordinate bound, and
    /// the devices seen have identities of their own, all given out.
    pub open spec fn wf(self) -> bool {
        &&& match self.last_cursor {
            Some(p) => p.in_range(),
            None => true,
        }
        &&& self.devices.wf()
        &&& self.devices.distinct()
    }

    /// The state after capture was switched on or off. Switching it off
    /// also ends any pending return of the cursor to the centre.
    pub open spec fn set_capture(self, value: bool) -> Tracker {
        Tracker { capturing: value, recentre_due: self.recentre_due && value, ..self }
    }

    /// Where the cursor is to be moved now: to the centre of the window,
    /// if capture is on, a captured move was seen since the last return,
    /// and the cursor is not at the centre already.
    pub open spec fn recentre_target(self, size: Size) -> Option<Point> {
        if self.capturing && self.recentre_due && self.last_cursor is Some
            && self.last_cursor != Some(size.centre()) {
            Some(size.centre())
        } else {
            None
        }
    }
}

impl WindowModel {
    /// The value of a new adapter.
    pub open spec fn initial(
        title: Seq<char>,
        exit_on_esc: bool,
        automatic_close: bool,
    ) -> WindowModel {
        WindowModel {
            title,
            tracker: Tracker::initial(exit_on_esc, automatic_close),
            queue: Seq::empty(),
        }
    }

    /// The tracking state is well formed, and every queued cursor position
    /// is within the coordinate bound.
    pub open spec fn wf(self) -> bool {
        &&& self.tracker.wf()
        &&& forall|i: int| 0 <= i < self.queue.len() ==> (#[trigger] self.queue[i]).in_range()
    }

    /// The adapter after a raw event arrived.
    pub open spec fn push(self, event: RawEventView) -> WindowModel {
        WindowModel { queue: self.queue.push(event), ..self }
    }

    /// The adapter with another tracking state.
    pub open spec fn with_tracker(self, tracker: Tracker) -> WindowModel {
        WindowModel { tracker, ..self }
    }

    /// One poll: the adapter afterwards and the event reported.
    ///
    /// A synthesized motion that waits is reported first. Otherwise raw
    /// events are taken from the queue, oldest first, until one yields an
    /// input; those that yield none are dropped. With the queue exhausted
    /// nothing is reported.
    pub open spec fn poll(self) -> (WindowModel, Option<EventView>)
        decreases self.queue.len(),
    {
        match self.tracker.lookahead.motion() {
            Some(motion) => (
                self.with_tracker(Tracker { lookahead: Lookahead::Empty, ..self.tracker }),
                Some(EventView::Input(InputView::Move(motion), None)),
            ),
            None => if self.queue.len() == 0 {
                (self, None)
            } else {
                let (tracker, input) = step(self.tracker, self.queue[0]);
                let rest = WindowModel { tracker, queue: self.queue.drop_first(), ..self };
                match input {
                    Some(i) => (rest, Some(EventView::Input(i, None))),
                    None => rest.poll(),
                }
            },
        }
    }

    /// How much there is left to report at most: two events for each
    /// queued raw event, and the synthesized motion that waits.
    pub open spec fn backlog(self) -> nat {
        2 * self.queue.len() + if self.tracker.lookahead.motion() is Some {
            1nat
        } else {
            0nat
        }
    }

    /// A poll that reports an event leaves less to report.
    pub proof fn lemma_poll_shrinks(self)
        ensures
            self.poll().0.backlog() <= self.backlog(),
            self.poll().1 is Some ==> self.poll().0.backlog() < self.backlog(),
        decreases self.queue.len(),
    {
        if self.tracker.lookahead.motion() is None && self.queue.len() > 0 {
            let (tracker, input) = step(self.tracker, self.queue[0]);
            let rest = WindowModel { tracker, queue: self.queue.drop_first(), ..self };
            if input is None {
                rest.lemma_poll_shrinks();
            }
        }
    }

    /// The events that successive polls report, up to the first poll that
    /// reports nothing.
    pub open spec fn drain(self) -> Seq<EventView>
        decreases self.backlog(),
    {
        let (next, event) = self.poll();
        match event {
            Some(e) => {
                proof {
                    self.lemma_poll_shrinks();
                }
                seq![e] + next.drain()
            },
            None => Seq::empty(),
        }
    }
}

} // verus!

//! The window adapter: a queue of raw events and the state that turns
//! them into engine events.

use std::collections::VecDeque;
use vstd::prelude::*;
use crate::devices::DeviceTable;
use crate::geometry::{Point, Size};
use crate::input::{Event, Input, Motion, event_value, input_value};
use crate::keyboard::{Key, KeyboardIgnoreModifiers, LogicalKey, NamedKey};
use crate::laws::lemma_step_keeps_wf;
use crate::model::{Lookahead, Tracker, WindowModel, cursor_step, is_escape_press, step};
use crate::native::{ElementState, KeyEvent, RawEvent, RawEventView};
use crate::settings::WindowSettings;
use crate::translate::map_window_event;

verus! {

/// Custom events for the front end's event loop.
#[derive(Debug, PartialEq, Eq)]
pub enum UserEvent {
    /// Do nothing, just spin the event loop.
    WakeUp,
}

/// Contains the state of a game window.
pub struct GlutinWindow {
    keyboard_ignore_modifiers: KeyboardIgnoreModifiers,
    // Keeps track of connected devices.
    devices: DeviceTable,
    // The native layer does not remember the title.
    title: String,
    exit_on_esc: bool,
    should_close: bool,
    automatic_close: bool,
    // Used to fake capturing of cursor,
    // to get relative mouse events.
    is_capturing_cursor: bool,
    recentre_due: bool,
    // Stores the last known cursor position.
    last_cursor_pos: Option<Point>,
    // Stores the motion to emit on next poll.
    lookahead: Lookahead,
    // Used to filter repeated key presses (does not affect text repeat).
    last_key_pressed: Option<Key>,
    // Stores list of raw events ready for processing.
    events: VecDeque<RawEvent>,
}

/// The values of the raw events in a queue.
pub open spec fn queue_value(events: Seq<RawEvent>) -> Seq<RawEventView> {
    events.map_values(|e: RawEvent| e@)
}

impl View for GlutinWindow {
    type V = WindowModel;

    closed spec fn view(&self) -> WindowModel {
        WindowModel {
            title: self.title@,
            tracker: Tracker {
                keyboard_ignore_modifiers: self.keyboard_ignore_modifiers,
                exit_on_esc: self.exit_on_esc,
                automatic_close: self.automatic_close,
                should_close: self.should_close,
                capturing: self.is_capturing_cursor,
                last_cursor: self.last_cursor_pos,
                lookahead: self.lookahead,
                recentre_due: self.recentre_due,
                held: self.last_key_pressed,
                devices: self.devices@,
            },
            queue: queue_value(self.events@),
        }
    }
}

fn is_escape(input: &KeyEvent) -> (escape: bool)
    ensures
        escape == is_escape_press(input@),
{
    let pressed = match input.state {
        ElementState::Pressed => true,
        ElementState::Released => false,
    };
    let named = match &input.logical_key {
        LogicalKey::Named(NamedKey::Escape) => true,
        _ => false,
    };
    pressed && named
}

impl GlutinWindow {
    /// Creates the state of a new game window.
    pub fn new(settings: &WindowSettings) -> (window: GlutinWindow)
        ensures
            window@ == WindowModel::initial(
                settings.title@,
                settings.exit_on_esc,
                settings.automatic_close,
            ),
            window@.wf(),
    {
        let window = GlutinWindow {
            keyboard_ignore_modifiers: KeyboardIgnoreModifiers::Keep,
            devices: DeviceTable::new(),
            title: settings.title.clone(),
            exit_on_esc: settings.exit_on_esc,
            should_close: false,
            automatic_close: settings.automatic_close,
            is_capturing_cursor: false,
            recentre_due: false,
            last_cursor_pos: None,
            lookahead: Lookahead::Empty,
            last_key_pressed: None,
            events: VecDeque::new(),
        };
        assert(queue_value(window.events@) =~= Seq::empty());
        window
    }

    // These events are emitted before popping a new event from the queue.
    fn pre_pop_front_event(&mut self) -> (input: Option<Input>)
        ensures
            input_value(input) == (match old(self)@.tracker.lookahead.motion() {
                Some(m) => Some(crate::input::InputView::Move(m)),
                None => None,
            }),
            final(self)@ == old(self)@.with_tracker(
                Tracker { lookahead: Lookahead::Empty, ..old(self)@.tracker },
            ),
    {
        let pending = self.lookahead;
        self.lookahead = Lookahead::Empty;
        match pending {
            Lookahead::Absolute(pos) => Some(Input::Move(Motion::MouseCursor(pos))),
            Lookahead::Relative(delta) => Some(Input::Move(Motion::MouseRelative(delta))),
            Lookahead::Empty => None,
        }
    }

    fn cursor_moved(&mut self, position: Point) -> (input: Option<Input>)
        requires
            old(self)@.tracker.wf(),
            position.in_range(),
        ensures
            input_value(input) == cursor_step(old(self)@.tracker, position).1,
            final(self)@ == old(self)@.with_tracker(cursor_step(old(self)@.tracker, position).0),
    {
        match self.last_cursor_pos {
            Some(pos) => {
                let delta = position.delta_from(&pos);
                self.last_cursor_pos = Some(position);
                if self.is_capturing_cursor {
                    // Skip normal mouse movement and emit relative motion only.
                    self.recentre_due = true;
                    return Some(Input::Move(Motion::MouseRelative(delta)));
                }
                // Send relative mouse movement next time.
                self.lookahead = Lookahead::Relative(delta);
            },
            None => {
                self.last_cursor_pos = Some(position);
                if self.is_capturing_cursor {
                    // Mouse positions are not emitted when capturing cursor.
                    return None;
                }
            },
        }
        Some(Input::Move(Motion::MouseCursor(position)))
    }

    /// Converts an incoming raw event to engine input, updating cursor
    /// and keyboard state.
    fn handle_event(&mut self, event: RawEvent) -> (input: Option<Input>)
        requires
            old(self)@.tracker.wf(),
            event@.in_range(),
        ensures
            input_value(input) == step(old(self)@.tracker, event@).1,
            final(self)@ == old(self)@.with_tracker(step(old(self)@.tracker, event@).0),
    {
        let mut close = false;
        match &event {
            RawEvent::KeyboardInput(ev) => {
                if self.exit_on_esc && is_escape(ev) {
                    self.should_close = true;
                    return None;
                }
            },
            RawEvent::CursorMoved(position) => {
                return self.cursor_moved(*position);
            },
            RawEvent::CloseRequested => {
                close = true;
            },
            RawEvent::Destroyed => {
                close = true;
            },
            _ => {},
        }
        let input = map_window_event(
            event,
            self.keyboard_ignore_modifiers,
            &mut self.last_key_pressed,
            &mut self.devices,
        );
        if close && self.automatic_close {
            self.should_close = true;
        }
        input
    }

    /// Decides whether the cursor is to be moved back to the centre of a
    /// window of the given size, and to where.
    ///
    /// The front end moves the cursor to the returned position and, if that
    /// succeeds, reports it with [`GlutinWindow::cursor_warped`]. A failed
    /// move is not reported: the baseline then stays where it is.
    pub fn fake_capture(&mut self, size: Size) -> (target: Option<Point>)
        ensures
            target == old(self)@.tracker.recentre_target(size),
            final(self)@ == old(self)@.with_tracker(
                Tracker { recentre_due: false, ..old(self)@.tracker },
            ),
    {
        let due = self.recentre_due && self.is_capturing_cursor;
        self.recentre_due = false;
        if !due {
            return None;
        }
        match self.last_cursor_pos {
            Some(pos) => {
                let centre = size.center();
                if centre.x != pos.x || centre.y != pos.y {
                    Some(centre)
                } else {
                    None
                }
            },
            None => None,
        }
    }

    /// Records that the front end moved the cursor to `position`, which
    /// becomes the baseline of the next relative motion.
    pub fn cursor_warped(&mut self, position: Point)
        requires
            position.in_range(),
        ensures
            final(self)@ == old(self)@.with_tracker(
                Tracker { last_cursor: Some(position), ..old(self)@.tracker },
            ),
    {
        self.last_cursor_pos = Some(position);
    }

    /// Switches the faked capture of the cursor on or off.
    ///
    /// While it is on, the front end hides the cursor and only relative
    /// motion is reported.
    pub fn set_capture_cursor(&mut self, value: bool)
        ensures
            final(self)@ == old(self)@.with_tracker(old(self)@.tracker.set_capture(value)),
    {
        self.is_capturing_cursor = value;
        if !value {
            self.recentre_due = false;
        }
    }

    /// Whether the cursor is captured.
    pub fn get_capture_cursor(&self) -> (value: bool)
        ensures
            value == self@.tracker.capturing,
    {
        self.is_capturing_cursor
    }

    /// The position of the most recent cursor sample.
    pub fn last_cursor_position(&self) -> (position: Option<Point>)
        ensures
            position == self@.tracker.last_cursor,
    {
        self.last_cursor_pos
    }

    /// Whether a synthesized motion waits to be reported.
    pub fn has_pending_motion(&self) -> (pending: bool)
        ensures
            pending == self@.tracker.lookahead.motion().is_some(),
    {
        match self.lookahead {
            Lookahead::Empty => false,
            _ => true,
        }
    }

    /// Whether the window is to close.
    pub fn should_close(&self) -> (value: bool)
        ensures
            value == self@.tracker.should_close,
    {
        self.should_close
    }

    /// Sets whether the window is to close.
    pub fn set_should_close(&mut self, value: bool)
        ensures
            final(self)@ == old(self)@.with_tracker(
                Tracker { should_close: value, ..old(self)@.tracker },
            ),
    {
        self.should_close = value;
    }

    /// The window's title.
    pub fn get_title(&self) -> (title: String)
        ensures
            title@ == self@.title,
    {
        self.title.clone()
    }

    /// Remembers a new title.
    pub fn set_title(&mut self, value: String)
        ensures
            final(self)@ == (WindowModel { title: value@, ..old(self)@ }),
    {
        self.title = value;
    }

    /// Whether a press of the escape key closes the window.
    pub fn get_exit_on_esc(&self) -> (value: bool)
        ensures
            value == self@.tracker.exit_on_esc,
    {
        self.exit_on_esc
    }

    /// Sets whether a press of the escape key closes the window.
    pub fn set_exit_on_esc(&mut self, value: bool)
        ensures
            final(self)@ == old(self)@.with_tracker(
                Tracker { exit_on_esc: value, ..old(self)@.tracker },
            ),
    {
        self.exit_on_esc = value;
    }

    /// Whether a close request closes the window by itself.
    pub fn get_automatic_close(&self) -> (value: bool)
        ensures
            value == self@.tracker.automatic_close,
    {
        self.automatic_close
    }

    /// Sets whether a close request closes the window by itself.
    pub fn set_automatic_close(&mut self, value: bool)
        ensures
            final(self)@ == old(self)@.with_tracker(
                Tracker { automatic_close: value, ..old(self)@.tracker },
            ),
    {
        self.automatic_close = value;
    }

    /// How key codes are chosen for keys that modifiers affect.
    pub fn get_keyboard_ignore_modifiers(&self) -> (value: KeyboardIgnoreModifiers)
        ensures
            value == self@.tracker.keyboard_ignore_modifiers,
    {
        self.keyboard_ignore_modifiers
    }

    /// Sets how key codes are chosen for keys that modifiers affect.
    pub fn set_keyboard_ignore_modifiers(&mut self, value: KeyboardIgnoreModifiers)
        ensures
            final(self)@ == old(self)@.with_tracker(
                Tracker { keyboard_ignore_modifiers: value, ..old(self)@.tracker },
            ),
    {
        self.keyboard_ignore_modifiers = value;
    }

    /// Whether the next poll would find nothing to work on: no synthesized
    /// motion waits and the queue is empty. The front end then asks the
    /// native layer for more events before it polls.
    pub fn needs_events(&self) -> (needed: bool)
        ensures
            needed == (self@.tracker.lookahead.motion() is None && self@.queue.len() == 0),
    {
        let waiting = match self.lookahead {
            Lookahead::Empty => false,
            _ => true,
        };
        !waiting && self.events.len() == 0
    }

    /// The number of raw events that wait to be translated.
    pub fn pending_events(&self) -> (n: usize)
        ensures
            n == self@.queue.len(),
    {
        self.events.len()
    }

    /// The number of devices that were given an identity.
    pub fn devices(&self) -> (n: u32)
        ensures
            n == self@.tracker.devices.devices,
    {
        self.devices.devices()
    }

    /// The identity that was given to a device, if it was seen.
    pub fn device_id(&self, device: u64) -> (id: Option<u32>)
        ensures
            id == if self@.tracker.devices.ids.contains_key(device) {
                Some(self@.tracker.devices.ids[device])
            } else {
                None::<u32>
            },
    {
        self.devices.get(device)
    }

    /// Queues a raw event that arrived from the native layer.
    pub fn window_event(&mut self, event: RawEvent)
        requires
            old(self)@.wf(),
            event@.in_range(),
        ensures
            final(self)@ == old(self)@.push(event@),
            final(self)@.wf(),
    {
        self.events.push_back(event);
        assert(queue_value(self.events@) =~= queue_value(old(self).events@).push(event@));
    }

    /// Returns the next engine event, or `None` once no queued raw event
    /// yields one.
    pub fn poll_event(&mut self) -> (event: Option<Event>)
        requires
            old(self)@.wf(),
        ensures
            event_value(event) == old(self)@.poll().1,
            final(self)@ == old(self)@.poll().0,
            final(self)@.wf(),
    {
        if let Some(input) = self.pre_pop_front_event() {
            return Some(Event::Input(input, None));
        }
        loop
            invariant
                self@.wf(),
                self@.tracker.lookahead is Empty,
                self@.poll() == old(self)@.poll(),
            decreases self.events.len(),
        {
            let ghost before = self@;
            match self.events.pop_front() {
                None => {
                    return None;
                },
                Some(raw) => {
                    assert(raw@ == before.queue[0]);
                    assert(queue_value(self.events@) =~= before.queue.drop_first());
                    proof {
                        lemma_step_keeps_wf(before.tracker, raw@);
                    }
                    if let Some(input) = self.handle_event(raw) {
                        return Some(Event::Input(input, None));
                    }
                },
            }
        }
    }

    /// Returns the next engine event, or an idle event where there is none.
    pub fn wait_event(&mut self) -> (event: Event)
        requires
            old(self)@.wf(),
        ensures
            event@ == (match old(self)@.poll().1 {
                Some(e) => e,
                None => crate::input::EventView::Idle,
            }),
            final(self)@ == old(self)@.poll().0,
            final(self)@.wf(),
    {
        match self.poll_event() {
            Some(event) => event,
            None => Event::Idle,
        }
    }
}

} // verus!

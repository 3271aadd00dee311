//! The events that drive the front end.

use crate::time::duration_of_millis;
use std::time::Duration;
use vstd::prelude::*;

verus! {

/// The key of a key press, as far as the front end tells keys apart.
#[derive(Debug, Clone, Copy, PartialEq, Eq, Structural)]
pub enum KeyCode {
    Char(char),
    Tab,
    BackTab,
    Enter,
    Esc,
    Left,
    Right,
    Up,
    Down,
    Other,
}

/// A key press: the key, and whether the control key was held.
#[derive(Debug, Clone, Copy, PartialEq, Eq, Structural)]
pub struct KeyEvent {
    pub code: KeyCode,
    pub control: bool,
}

impl KeyEvent {
    /// The press of `code`, with the control key held or not.
    pub fn new(code: KeyCode, control: bool) -> (key: KeyEvent)
        ensures
            key == (KeyEvent { code, control }),
    {
        KeyEvent { code, control }
    }
}

/// What waiting for the terminal came to.
#[derive(Debug, Clone, Copy, PartialEq, Eq, Structural)]
pub enum Input {
    /// Waiting itself failed.
    PollFailed,
    /// Nothing happened within the tick.
    Idle,
    /// Something happened and could not be read.
    ReadFailed,
    /// A key was pressed.
    Key(KeyEvent),
    /// The terminal was resized to so many columns and rows.
    Resize(u16, u16),
    /// Something else happened.
    Other,
}

/// What the front end reacts to.
#[derive(Debug, Clone, Copy, PartialEq, Eq, Structural)]
pub enum Event {
    Key(KeyEvent),
    Tick,
    Resize(u16, u16),
    Quit,
}

/// The source of events: it waits one tick at a time.
#[derive(Debug, Clone, Copy)]
pub struct EventHandler {
    tick_rate: Duration,
}

/// The event that an input stands for, if any: `q` quits, any other key is
/// passed on, a resize is passed on, and whatever else happens or fails to
/// happen within the tick counts as a tick. A failure to wait or to read
/// stands for no event.
pub open spec fn event_of(input: Input) -> Option<Event> {
    match input {
        Input::PollFailed => None,
        Input::Idle => Some(Event::Tick),
        Input::ReadFailed => None,
        Input::Key(key) => if key.code == KeyCode::Char('q') {
            Some(Event::Quit)
        } else {
            Some(Event::Key(key))
        },
        Input::Resize(columns, rows) => Some(Event::Resize(columns, rows)),
        Input::Other => Some(Event::Tick),
    }
}

impl EventHandler {
    /// The length of a tick, in milliseconds.
    pub open spec fn tick_millis() -> u64 {
        250
    }

    /// The length of a tick.
    pub closed spec fn tick(&self) -> Duration {
        self.tick_rate
    }

    /// A source of events with a tick of a quarter of a second.
    pub fn new() -> (handler: Self)
        ensures
            handler.tick() == duration_of_millis(EventHandler::tick_millis()),
    {
        EventHandler { tick_rate: Duration::from_millis(250) }
    }

    /// How long to wait for the terminal before a tick is due.
    pub fn tick_rate(&self) -> (tick: Duration)
        ensures
            tick == self.tick(),
    {
        self.tick_rate
    }

    /// The event that what waiting came to stands for.
    pub fn next(&mut self, input: Input) -> (event: Option<Event>)
        ensures
            event == event_of(input),
            final(self).tick() == old(self).tick(),
    {
        match input {
            Input::PollFailed => None,
            Input::Idle => Some(Event::Tick),
            Input::ReadFailed => None,
            Input::Key(key) => {
                match key.code {
                    KeyCode::Char(c) => {
                        if c == 'q' {
                            Some(Event::Quit)
                        } else {
                            Some(Event::Key(key))
                        }
                    },
                    _ => Some(Event::Key(key)),
                }
            },
            Input::Resize(columns, rows) => Some(Event::Resize(columns, rows)),
            Input::Other => Some(Event::Tick),
        }
    }
}

impl Default for EventHandler {
    fn default() -> (handler: Self)
        ensures
            handler.tick() == duration_of_millis(EventHandler::tick_millis()),
    {
        EventHandler::new()
    }
}

} // verus!

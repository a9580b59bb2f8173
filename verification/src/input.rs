//! Key presses and the wait for a quit key.

use crossterm::event::KeyModifiers;
use vstd::prelude::*;

verus! {

/// How long to wait for input before resting, and how long to rest, in
/// milliseconds.
pub const WATCH_TIMEOUT_MS: u64 = 100;

/// The keys the watcher tells apart.
#[derive(Clone, Copy, Debug, PartialEq, Eq, Structural)]
pub enum Key {
    /// A key that types a character.
    Char(char),
    /// The escape key.
    Esc,
    /// Any other key.
    Other,
}

/// One key event: the key, and the modifier keys held with it as a set of
/// bits (shift 1, control 2, alt 4, and so on upward).
#[derive(Clone, Copy, Debug, PartialEq, Eq, Structural)]
pub struct KeyPress {
    pub key: Key,
    pub modifiers: u8,
}

/// Whether the control key is among the modifiers.
pub open spec fn control_held(modifiers: u8) -> bool {
    modifiers & 2 == 2
}

/// The quit keys: `q`, escape, and `c` with control held. There is one
/// such set, and it applies to every key event, whichever read delivered
/// it.
pub open spec fn is_quit_press(press: KeyPress) -> bool {
    ||| press.key == Key::Char('q')
    ||| press.key == Key::Esc
    ||| (press.key == Key::Char('c') && control_held(press.modifiers))
}

/// Asks crossterm whether a modifier set holds control:
/// `KeyModifiers::contains` with `KeyModifiers::CONTROL`, on the set that
/// `KeyModifiers::from_bits_retain` makes of the bits.
///
/// The contract claims that `CONTROL` is the bit of value 2 and that
/// `contains` tests whether that bit is set.
#[verifier::external_body]
fn modifiers_hold_control(modifiers: u8) -> (held: bool)
    ensures
        held == control_held(modifiers),
{
    KeyModifiers::from_bits_retain(modifiers).contains(KeyModifiers::CONTROL)
}

/// Whether a key event asks to quit.
pub fn is_quit_key(press: &KeyPress) -> (quit: bool)
    ensures
        quit == is_quit_press(*press),
{
    match press.key {
        Key::Esc => true,
        Key::Char(c) => c == 'q' || (c == 'c' && modifiers_hold_control(press.modifiers)),
        Key::Other => false,
    }
}

/// The two states of the wait.
#[derive(Clone, Copy, Debug, PartialEq, Eq, Structural)]
pub enum WatchState {
    /// No quit key has been seen.
    Waiting,
    /// A quit key has been seen. Nothing leaves this state.
    Done,
}

/// What the caller reports to the watcher.
#[derive(Clone, Copy, Debug, PartialEq, Eq, Structural)]
pub enum InputEvent {
    /// A read returned a key event.
    Key(KeyPress),
    /// A read returned an event that is no key event.
    Other,
    /// A poll found an event waiting to be read.
    Ready,
    /// A poll ran out of time with no event.
    Idle,
    /// A rest is over.
    Rested,
}

/// What the watcher asks of the caller next.
#[derive(Clone, Copy, Debug, PartialEq, Eq, Structural)]
pub enum WatchAction {
    /// Read the next event, blocking until there is one.
    Read,
    /// Wait up to so many milliseconds for an event, without reading it.
    Poll(u64),
    /// Rest for so many milliseconds.
    Sleep(u64),
    /// Stop: a quit key was pressed.
    Quit,
}

/// The wait for a quit key, as plain values.
pub struct WatcherView {
    pub state: WatchState,
    /// The one timeout of the wait: a poll lasts this long at most, and so
    /// does the rest after a poll that found nothing. In milliseconds.
    pub timeout_ms: u64,
}

/// The wait before any event.
pub open spec fn watch_start(timeout_ms: u64) -> WatcherView {
    WatcherView { state: WatchState::Waiting, timeout_ms }
}

/// What the wait begins with: a read, unless it is over already.
pub open spec fn watch_begin(watcher: WatcherView) -> WatchAction {
    if watcher.state == WatchState::Done {
        WatchAction::Quit
    } else {
        WatchAction::Read
    }
}

/// One step of the wait: the state after `event`, and what to do next.
///
/// A key event ends the wait if it is a quit key and is dropped if not. An
/// event that is no key event leads to a poll, a poll that finds nothing
/// to a rest, and everything else back to a blocking read.
pub open spec fn watch_step(watcher: WatcherView, event: InputEvent) -> (WatcherView, WatchAction) {
    match watcher.state {
        WatchState::Done => (watcher, WatchAction::Quit),
        WatchState::Waiting => match event {
            InputEvent::Key(press) => if is_quit_press(press) {
                (WatcherView { state: WatchState::Done, ..watcher }, WatchAction::Quit)
            } else {
                (watcher, WatchAction::Read)
            },
            InputEvent::Other => (watcher, WatchAction::Poll(watcher.timeout_ms)),
            InputEvent::Ready => (watcher, WatchAction::Read),
            InputEvent::Idle => (watcher, WatchAction::Sleep(watcher.timeout_ms)),
            InputEvent::Rested => (watcher, WatchAction::Read),
        },
    }
}

/// The wait for a quit key.
#[derive(Clone, Copy, Debug)]
pub struct Watcher {
    state: WatchState,
    timeout_ms: u64,
}

impl View for Watcher {
    type V = WatcherView;

    closed spec fn view(&self) -> WatcherView {
        WatcherView { state: self.state, timeout_ms: self.timeout_ms }
    }
}

impl Watcher {
    /// A watcher that waits, with the given timeout in milliseconds.
    pub fn new(timeout_ms: u64) -> (watcher: Watcher)
        ensures
            watcher@ == watch_start(timeout_ms),
    {
        Watcher { state: WatchState::Waiting, timeout_ms }
    }

    /// Which of its two states the wait is in.
    pub fn state(&self) -> (state: WatchState)
        ensures
            state == self@.state,
    {
        self.state
    }

    /// The timeout of the wait, in milliseconds.
    pub fn timeout_ms(&self) -> (timeout_ms: u64)
        ensures
            timeout_ms == self@.timeout_ms,
    {
        self.timeout_ms
    }

    /// Whether a quit key has been seen.
    pub fn is_done(&self) -> (done: bool)
        ensures
            done == (self@.state == WatchState::Done),
    {
        match self.state {
            WatchState::Done => true,
            WatchState::Waiting => false,
        }
    }

    /// What to do when the wait begins.
    pub fn begin(&self) -> (action: WatchAction)
        ensures
            action == watch_begin(self@),
    {
        match self.state {
            WatchState::Done => WatchAction::Quit,
            WatchState::Waiting => WatchAction::Read,
        }
    }

    /// Takes in what happened and says what to do next.
    pub fn on_event(&mut self, event: InputEvent) -> (action: WatchAction)
        ensures
            (final(self)@, action) == watch_step(old(self)@, event),
    {
        match self.state {
            WatchState::Done => WatchAction::Quit,
            WatchState::Waiting => match event {
                InputEvent::Key(press) => {
                    if is_quit_key(&press) {
                        self.state = WatchState::Done;
                        WatchAction::Quit
                    } else {
                        WatchAction::Read
                    }
                },
                InputEvent::Other => WatchAction::Poll(self.timeout_ms),
                InputEvent::Ready => WatchAction::Read,
                InputEvent::Idle => WatchAction::Sleep(self.timeout_ms),
                InputEvent::Rested => WatchAction::Read,
            },
        }
    }
}

/// A key that is no quit key changes nothing: the watcher stays as it was
/// and asks for the next read.
pub proof fn lemma_other_key_keeps_waiting(watcher: WatcherView, press: KeyPress)
    requires
        watcher.state == WatchState::Waiting,
        !is_quit_press(press),
    ensures
        watch_step(watcher, InputEvent::Key(press)) == (watcher, WatchAction::Read),
{
}

/// A quit key ends the wait: the watcher is done and says to quit.
pub proof fn lemma_quit_key_ends_wait(watcher: WatcherView, press: KeyPress)
    requires
        watcher.state == WatchState::Waiting,
        is_quit_press(press),
    ensures
        watch_step(watcher, InputEvent::Key(press)).0.state == WatchState::Done,
        watch_step(watcher, InputEvent::Key(press)).1 == WatchAction::Quit,
{
}

/// Only a quit key ends the wait, a finished wait stays finished, and the
/// watcher says to quit exactly when the wait is finished.
pub proof fn lemma_done_only_by_quit_key(watcher: WatcherView, event: InputEvent)
    ensures
        watch_step(watcher, event).0.state == WatchState::Done <==> (watcher.state
            == WatchState::Done || (event matches InputEvent::Key(press) && is_quit_press(press))),
        watch_step(watcher, event).1 == WatchAction::Quit <==> watch_step(watcher, event).0.state
            == WatchState::Done,
{
}

} // verus!

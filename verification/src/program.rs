//! The run of the whole program, one action at a time.
//!
//! The program clears the screen, takes the terminal into raw mode, plays
//! its animation, waits for a quit key, restores the terminal, clears the
//! screen again and exits. The caller carries out each action and reports
//! how it went; `Program::step` then names the next one. Whatever goes
//! wrong on the way, the terminal is restored before the program exits.

use crate::animation::{
    animation_after, animation_step, gauge_schedule, gauge_start, lemma_animation_after,
    lemma_gauge_follows_schedule, lemma_typing_follows_schedule, typing_schedule, typing_start,
    Animation, AnimationView, Command, CommandView, LineView, Model, ModelView, FULL_PERCENT,
};
use crate::input::{
    is_quit_press, watch_begin, watch_start, watch_step, InputEvent, KeyPress, WatchAction,
    WatchState, Watcher, WatcherView,
};
use vstd::prelude::*;

verus! {

/// What can go wrong. None of it is retried.
#[derive(Clone, Copy, Debug, PartialEq, Eq, Structural)]
pub enum Failure {
    /// The terminal could not be taken into raw mode.
    TerminalInit,
    /// A frame could not be written to the terminal.
    RenderIo,
    /// Reading or polling for input failed.
    InputRead,
}

/// How the program ends.
#[derive(Clone, Copy, Debug, PartialEq, Eq, Structural)]
pub enum ExitStatus {
    Success,
    Failure(Failure),
}

impl ExitStatus {
    /// The status code to leave the process with: 0 for success, 1 for
    /// any failure.
    pub fn code(&self) -> (code: u8)
        ensures
            code == (if *self == ExitStatus::Success {
                0u8
            } else {
                1u8
            }),
    {
        match self {
            ExitStatus::Success => 0,
            ExitStatus::Failure(_) => 1,
        }
    }
}

impl Failure {
    /// A line for the user that says what failed.
    pub fn message(&self) -> (message: &'static str)
        ensures
            message@ == match *self {
                Failure::TerminalInit => "could not take the terminal into raw mode"@,
                Failure::RenderIo => "could not write a frame to the terminal"@,
                Failure::InputRead => "could not read input from the terminal"@,
            },
    {
        match self {
            Failure::TerminalInit => "could not take the terminal into raw mode",
            Failure::RenderIo => "could not write a frame to the terminal",
            Failure::InputRead => "could not read input from the terminal",
        }
    }
}

/// The control sequence that clears the screen and puts the cursor at its
/// top left: escape, `[2J`, escape, `[1;1H`.
pub fn clear_screen_sequence() -> (sequence: &'static str)
    ensures
        sequence@ == seq!['\u{1b}', '[', '2', 'J', '\u{1b}', '[', '1', ';', '1', 'H'],
{
    let sequence = "\u{1b}[2J\u{1b}[1;1H";
    proof {
        reveal_strlit("\u{1b}[2J\u{1b}[1;1H");
    }
    sequence
}

/// Where the program stands.
#[derive(Clone, Copy, Debug, PartialEq, Eq, Structural)]
pub enum Stage {
    /// Nothing has been asked for yet.
    Start,
    /// The first clearing of the screen is under way.
    Opening,
    /// Raw mode has been asked for.
    Entering,
    /// A frame or a pause of the animation is under way.
    Animating,
    /// The animation is over; a read, a poll or a rest is under way.
    Watching,
    /// The terminal is being restored.
    Restoring,
    /// The last clearing of the screen is under way.
    Closing,
    /// The program has been told to exit.
    Exited,
}

/// How the action last asked for went.
#[derive(Clone, Copy, Debug, PartialEq, Eq, Structural)]
pub enum Outcome {
    /// It was carried out.
    Done,
    /// It failed.
    Failed,
    /// A read returned a key event.
    Key(KeyPress),
    /// A read returned an event that is no key event.
    NotKey,
    /// A poll found an event waiting to be read.
    Ready,
    /// A poll ran out of time with no event.
    Idle,
}

/// An action, as plain values.
pub enum ActionView {
    ClearScreen,
    EnterRawMode,
    Render(ModelView),
    Sleep(u64),
    Read,
    Poll(u64),
    Restore,
    Exit(ExitStatus),
}

/// What the caller is to do next.
#[derive(Debug)]
pub enum Action {
    /// Clear the screen and put the cursor at its top left.
    ClearScreen,
    /// Take the terminal into raw mode.
    EnterRawMode,
    /// Paint one frame that shows this.
    Render(Model),
    /// Do nothing for so many milliseconds.
    Sleep(u64),
    /// Read the next input event, blocking until there is one.
    Read,
    /// Wait up to so many milliseconds for an input event, without
    /// reading it.
    Poll(u64),
    /// Take the terminal out of raw mode and show the cursor again.
    Restore,
    /// Leave, with this status.
    Exit(ExitStatus),
}

impl View for Action {
    type V = ActionView;

    open spec fn view(&self) -> ActionView {
        match self {
            Action::ClearScreen => ActionView::ClearScreen,
            Action::EnterRawMode => ActionView::EnterRawMode,
            Action::Render(model) => ActionView::Render(model@),
            Action::Sleep(ms) => ActionView::Sleep(*ms),
            Action::Read => ActionView::Read,
            Action::Poll(ms) => ActionView::Poll(*ms),
            Action::Restore => ActionView::Restore,
            Action::Exit(status) => ActionView::Exit(*status),
        }
    }
}

/// The program, as plain values.
pub struct ProgramView {
    pub stage: Stage,
    pub animation: AnimationView,
    pub watcher: WatcherView,
    /// How the program will end, as far as is known: success, unless
    /// something has failed.
    pub status: ExitStatus,
}

/// The program before its first action.
pub open spec fn program_start(animation: AnimationView, timeout_ms: u64) -> ProgramView {
    ProgramView {
        stage: Stage::Start,
        animation,
        watcher: watch_start(timeout_ms),
        status: ExitStatus::Success,
    }
}

/// Does what the watcher asks. When the watcher says to quit, the terminal
/// is restored.
pub open spec fn follow_step(program: ProgramView, asked: WatchAction) -> (
    ProgramView,
    ActionView,
) {
    match asked {
        WatchAction::Read => (program, ActionView::Read),
        WatchAction::Poll(ms) => (program, ActionView::Poll(ms)),
        WatchAction::Sleep(ms) => (program, ActionView::Sleep(ms)),
        WatchAction::Quit => (
            ProgramView { stage: Stage::Restoring, ..program },
            ActionView::Restore,
        ),
    }
}

/// Takes the next command of the animation. When the animation is over,
/// the wait for a quit key begins, with a read.
pub open spec fn play_step(program: ProgramView) -> (ProgramView, ActionView) {
    let animation = animation_step(program.animation).0;
    match animation_step(program.animation).1 {
        CommandView::Render(model) => (
            ProgramView { stage: Stage::Animating, animation, ..program },
            ActionView::Render(model),
        ),
        CommandView::Pause(ms) => (
            ProgramView { stage: Stage::Animating, animation, ..program },
            ActionView::Sleep(ms),
        ),
        CommandView::Finished => follow_step(
            ProgramView { stage: Stage::Watching, animation, ..program },
            watch_begin(program.watcher),
        ),
    }
}

/// Gives up: the terminal is restored, and the program will exit with
/// this failure.
pub open spec fn fail_step(program: ProgramView, failure: Failure) -> (ProgramView, ActionView) {
    (
        ProgramView { stage: Stage::Restoring, status: ExitStatus::Failure(failure), ..program },
        ActionView::Restore,
    )
}

/// What an outcome tells the watcher.
pub open spec fn as_input(outcome: Outcome) -> InputEvent {
    match outcome {
        Outcome::Key(press) => InputEvent::Key(press),
        Outcome::NotKey => InputEvent::Other,
        Outcome::Ready => InputEvent::Ready,
        Outcome::Idle => InputEvent::Idle,
        Outcome::Done => InputEvent::Rested,
        Outcome::Failed => InputEvent::Rested,
    }
}

/// One step of the wait for a quit key. When the wait ends, the terminal
/// is restored.
pub open spec fn wait_step(program: ProgramView, outcome: Outcome) -> (ProgramView, ActionView) {
    follow_step(
        ProgramView { watcher: watch_step(program.watcher, as_input(outcome)).0, ..program },
        watch_step(program.watcher, as_input(outcome)).1,
    )
}

/// One step of the program: the state after `outcome`, and the action to
/// carry out next.
///
/// A failure to enter raw mode, to paint a frame or to read input ends the
/// program by way of restoring the terminal: whatever fails while the
/// animation plays counts as a failure to paint, whatever fails during
/// the wait as a failure to read. Failures to clear the screen or to
/// restore the terminal are passed over. While the animation plays, input
/// changes nothing.
pub open spec fn program_step(program: ProgramView, outcome: Outcome) -> (ProgramView, ActionView) {
    match program.stage {
        Stage::Start => (ProgramView { stage: Stage::Opening, ..program }, ActionView::ClearScreen),
        Stage::Opening => (
            ProgramView { stage: Stage::Entering, ..program },
            ActionView::EnterRawMode,
        ),
        Stage::Entering => if outcome == Outcome::Failed {
            fail_step(program, Failure::TerminalInit)
        } else {
            play_step(program)
        },
        Stage::Animating => if outcome == Outcome::Failed {
            fail_step(program, Failure::RenderIo)
        } else {
            play_step(program)
        },
        Stage::Watching => if outcome == Outcome::Failed {
            fail_step(program, Failure::InputRead)
        } else {
            wait_step(program, outcome)
        },
        Stage::Restoring => (
            ProgramView { stage: Stage::Closing, ..program },
            ActionView::ClearScreen,
        ),
        Stage::Closing => (
            ProgramView { stage: Stage::Exited, ..program },
            ActionView::Exit(program.status),
        ),
        Stage::Exited => (program, ActionView::Exit(program.status)),
    }
}

/// The whole program: an animation, then the wait for a quit key.
#[derive(Debug)]
pub struct Program {
    stage: Stage,
    animation: Animation,
    watcher: Watcher,
    status: ExitStatus,
}

impl View for Program {
    type V = ProgramView;

    closed spec fn view(&self) -> ProgramView {
        ProgramView {
            stage: self.stage,
            animation: self.animation@,
            watcher: self.watcher@,
            status: self.status,
        }
    }
}

impl Program {
    /// What holds of every program: its animation is in order.
    pub closed spec fn wf(&self) -> bool {
        self.animation.wf()
    }

    /// A program that plays `animation` and then waits for a quit key,
    /// polling and resting for `timeout_ms` milliseconds at a time.
    pub fn new(animation: Animation, timeout_ms: u64) -> (program: Program)
        requires
            animation.wf(),
        ensures
            program.wf(),
            program@ == program_start(animation@, timeout_ms),
    {
        Program {
            stage: Stage::Start,
            animation,
            watcher: Watcher::new(timeout_ms),
            status: ExitStatus::Success,
        }
    }

    /// Where the program stands.
    pub fn stage(&self) -> (stage: Stage)
        ensures
            stage == self@.stage,
    {
        self.stage
    }

    /// How the program will end, as far as is known.
    pub fn status(&self) -> (status: ExitStatus)
        ensures
            status == self@.status,
    {
        self.status
    }

    fn play(&mut self) -> (action: Action)
        requires
            old(self).wf(),
        ensures
            final(self).wf(),
            (final(self)@, action@) == play_step(old(self)@),
    {
        match self.animation.advance() {
            Command::Render(model) => {
                self.stage = Stage::Animating;
                Action::Render(model)
            },
            Command::Pause(ms) => {
                self.stage = Stage::Animating;
                Action::Sleep(ms)
            },
            Command::Finished => {
                self.stage = Stage::Watching;
                let asked = self.watcher.begin();
                self.follow(asked)
            },
        }
    }

    fn follow(&mut self, asked: WatchAction) -> (action: Action)
        requires
            old(self).wf(),
        ensures
            final(self).wf(),
            (final(self)@, action@) == follow_step(old(self)@, asked),
    {
        match asked {
            WatchAction::Read => Action::Read,
            WatchAction::Poll(ms) => Action::Poll(ms),
            WatchAction::Sleep(ms) => Action::Sleep(ms),
            WatchAction::Quit => {
                self.stage = Stage::Restoring;
                Action::Restore
            },
        }
    }

    fn fail(&mut self, failure: Failure) -> (action: Action)
        requires
            old(self).wf(),
        ensures
            final(self).wf(),
            (final(self)@, action@) == fail_step(old(self)@, failure),
    {
        self.stage = Stage::Restoring;
        self.status = ExitStatus::Failure(failure);
        Action::Restore
    }

    fn wait(&mut self, outcome: Outcome) -> (action: Action)
        requires
            old(self).wf(),
        ensures
            final(self).wf(),
            (final(self)@, action@) == wait_step(old(self)@, outcome),
    {
        let event = match outcome {
            Outcome::Key(press) => InputEvent::Key(press),
            Outcome::NotKey => InputEvent::Other,
            Outcome::Ready => InputEvent::Ready,
            Outcome::Idle => InputEvent::Idle,
            Outcome::Done => InputEvent::Rested,
            Outcome::Failed => InputEvent::Rested,
        };
        let asked = self.watcher.on_event(event);
        self.follow(asked)
    }

    /// Takes in how the last action went and names the next one. The
    /// first call, before any action, may be given any outcome.
    pub fn step(&mut self, outcome: Outcome) -> (action: Action)
        requires
            old(self).wf(),
        ensures
            final(self).wf(),
            (final(self)@, action@) == program_step(old(self)@, outcome),
    {
        let failed = match outcome {
            Outcome::Failed => true,
            _ => false,
        };
        match self.stage {
            Stage::Start => {
                self.stage = Stage::Opening;
                Action::ClearScreen
            },
            Stage::Opening => {
                self.stage = Stage::Entering;
                Action::EnterRawMode
            },
            Stage::Entering => {
                if failed {
                    self.fail(Failure::TerminalInit)
                } else {
                    self.play()
                }
            },
            Stage::Animating => {
                if failed {
                    self.fail(Failure::RenderIo)
                } else {
                    self.play()
                }
            },
            Stage::Watching => {
                if failed {
                    self.fail(Failure::InputRead)
                } else {
                    self.wait(outcome)
                }
            },
            Stage::Restoring => {
                self.stage = Stage::Closing;
                Action::ClearScreen
            },
            Stage::Closing => {
                self.stage = Stage::Exited;
                Action::Exit(self.status)
            },
            Stage::Exited => Action::Exit(self.status),
        }
    }
}

/// The stages at which the terminal has been restored, or is being.
pub open spec fn is_past_restore(stage: Stage) -> bool {
    stage == Stage::Restoring || stage == Stage::Closing || stage == Stage::Exited
}

/// What holds of the program at every point of every run: until the
/// terminal is restored nothing has failed and no quit key has been seen,
/// and a quit key is only ever followed by success.
pub open spec fn program_inv(program: ProgramView) -> bool {
    &&& !is_past_restore(program.stage) ==> program.status == ExitStatus::Success
        && program.watcher.state == WatchState::Waiting
    &&& program.watcher.state == WatchState::Done ==> program.status == ExitStatus::Success
}

/// The program after these outcomes, reported in turn.
pub open spec fn program_after(program: ProgramView, outcomes: Seq<Outcome>) -> ProgramView
    decreases outcomes.len(),
{
    if outcomes.len() == 0 {
        program
    } else {
        program_step(program_after(program, outcomes.drop_last()), outcomes.last()).0
    }
}

/// The actions that the program asks for when these outcomes are reported
/// in turn: one action for each outcome.
pub open spec fn program_run(program: ProgramView, outcomes: Seq<Outcome>) -> Seq<ActionView>
    decreases outcomes.len(),
{
    if outcomes.len() == 0 {
        Seq::empty()
    } else {
        program_run(program, outcomes.drop_last()).push(
            program_step(program_after(program, outcomes.drop_last()), outcomes.last()).1,
        )
    }
}

/// How many of the actions restore the terminal.
pub open spec fn restorations(actions: Seq<ActionView>) -> nat
    decreases actions.len(),
{
    if actions.len() == 0 {
        0
    } else {
        restorations(actions.drop_last()) + (if actions.last() == ActionView::Restore {
            1nat
        } else {
            0
        })
    }
}

/// The action by which the program carries out a command of its
/// animation. When the animation is over, the program reads input.
pub open spec fn action_for(command: CommandView) -> ActionView {
    match command {
        CommandView::Render(model) => ActionView::Render(model),
        CommandView::Pause(ms) => ActionView::Sleep(ms),
        CommandView::Finished => ActionView::Read,
    }
}

/// A step keeps what holds of the program.
pub proof fn lemma_step_keeps_inv(program: ProgramView, outcome: Outcome)
    requires
        program_inv(program),
    ensures
        program_inv(program_step(program, outcome).0),
{
}

/// What holds of the program holds from its start on, whatever is
/// reported to it.
pub proof fn lemma_run_keeps_inv(animation: AnimationView, timeout_ms: u64, outcomes: Seq<Outcome>)
    ensures
        program_inv(program_after(program_start(animation, timeout_ms), outcomes)),
    decreases outcomes.len(),
{
    if outcomes.len() > 0 {
        lemma_run_keeps_inv(animation, timeout_ms, outcomes.drop_last());
        lemma_step_keeps_inv(
            program_after(program_start(animation, timeout_ms), outcomes.drop_last()),
            outcomes.last(),
        );
    }
}

/// While the animation plays, what is reported makes no difference unless
/// it is a failure: no key skips a frame or cuts a pause short.
pub proof fn lemma_animation_ignores_input(program: ProgramView, one: Outcome, other: Outcome)
    requires
        program.stage == Stage::Entering || program.stage == Stage::Animating,
        one != Outcome::Failed,
        other != Outcome::Failed,
    ensures
        program_step(program, one) == program_step(program, other),
{
}

/// A key that is no quit key, pressed during the wait, changes nothing:
/// the program stays as it was and reads on.
pub proof fn lemma_other_key_changes_nothing(program: ProgramView, press: KeyPress)
    requires
        program_inv(program),
        program.stage == Stage::Watching,
        !is_quit_press(press),
    ensures
        program_step(program, Outcome::Key(press)) == (program, ActionView::Read),
{
}

/// A quit key pressed during the wait ends it for good: the terminal is
/// restored, then the screen is cleared, then the program exits with
/// success, however the restoring and the clearing go.
pub proof fn lemma_quit_key_restores_and_exits(
    program: ProgramView,
    press: KeyPress,
    restored: Outcome,
    cleared: Outcome,
)
    requires
        program_inv(program),
        program.stage == Stage::Watching,
        is_quit_press(press),
    ensures
        ({
            let quit = program_step(program, Outcome::Key(press));
            let restore = program_step(quit.0, restored);
            let clear = program_step(restore.0, cleared);
            &&& quit.0.watcher.state == WatchState::Done
            &&& quit.1 == ActionView::Restore
            &&& restore.1 == ActionView::ClearScreen
            &&& clear.1 == ActionView::Exit(ExitStatus::Success)
            &&& clear.0.stage == Stage::Exited
        }),
{
}

/// A run has one action for each outcome.
pub proof fn lemma_run_length(program: ProgramView, outcomes: Seq<Outcome>)
    ensures
        program_run(program, outcomes).len() == outcomes.len(),
    decreases outcomes.len(),
{
    if outcomes.len() > 0 {
        lemma_run_length(program, outcomes.drop_last());
    }
}

/// The action at each place of a run is the step taken from where the
/// outcomes before it led, and the run up to a place is the run of the
/// outcomes up to it.
pub proof fn lemma_run_by_place(program: ProgramView, outcomes: Seq<Outcome>, place: int)
    requires
        0 <= place < outcomes.len(),
    ensures
        program_run(program, outcomes).len() == outcomes.len(),
        program_run(program, outcomes)[place] == program_step(
            program_after(program, outcomes.take(place)),
            outcomes[place],
        ).1,
        program_run(program, outcomes).take(place) == program_run(program, outcomes.take(place)),
    decreases outcomes.len(),
{
    let shorter = outcomes.drop_last();
    lemma_run_length(program, shorter);
    if place < outcomes.len() - 1 {
        lemma_run_by_place(program, shorter, place);
        assert(shorter.take(place) =~= outcomes.take(place));
        assert(program_run(program, outcomes).take(place) =~= program_run(program, shorter).take(
            place,
        ));
    }
}

/// From a program that has not restored the terminal, a run restores it
/// once if it gets that far, and not at all if it does not.
pub proof fn lemma_restorations_follow_stage(program: ProgramView, outcomes: Seq<Outcome>)
    requires
        !is_past_restore(program.stage),
    ensures
        restorations(program_run(program, outcomes)) == (if is_past_restore(
            program_after(program, outcomes).stage,
        ) {
            1nat
        } else {
            0
        }),
    decreases outcomes.len(),
{
    if outcomes.len() > 0 {
        let shorter = outcomes.drop_last();
        lemma_restorations_follow_stage(program, shorter);
        let run = program_run(program, outcomes);
        assert(run.drop_last() =~= program_run(program, shorter));
    }
}

/// Once the terminal has been restored, every longer run finds it so.
pub proof fn lemma_restore_is_kept(program: ProgramView, shorter: Seq<Outcome>, longer: Seq<Outcome>)
    requires
        shorter.len() <= longer.len(),
        shorter == longer.take(shorter.len() as int),
        is_past_restore(program_after(program, shorter).stage),
    ensures
        is_past_restore(program_after(program, longer).stage),
    decreases longer.len(),
{
    if shorter.len() < longer.len() {
        assert(longer.drop_last().take(shorter.len() as int) =~= shorter);
        lemma_restore_is_kept(program, shorter, longer.drop_last());
    } else {
        assert(longer =~= shorter);
    }
}

/// In every run of the program, whatever is reported to it, the terminal
/// is restored at most once; and wherever the run says to exit, the
/// terminal has been restored exactly once before that, and never is
/// again.
pub proof fn lemma_restored_exactly_once(
    animation: AnimationView,
    timeout_ms: u64,
    outcomes: Seq<Outcome>,
    place: int,
)
    requires
        0 <= place < outcomes.len(),
    ensures
        restorations(program_run(program_start(animation, timeout_ms), outcomes)) <= 1,
        program_run(program_start(animation, timeout_ms), outcomes)[place] is Exit ==> {
            &&& restorations(
                program_run(program_start(animation, timeout_ms), outcomes).take(place),
            ) == 1
            &&& restorations(program_run(program_start(animation, timeout_ms), outcomes)) == 1
        },
{
    let start = program_start(animation, timeout_ms);
    lemma_restorations_follow_stage(start, outcomes);
    lemma_restorations_follow_stage(start, outcomes.take(place));
    lemma_run_by_place(start, outcomes, place);
    if program_run(start, outcomes)[place] is Exit {
        lemma_restore_is_kept(start, outcomes.take(place), outcomes);
    }
}

/// Where the program stands once the screen is cleared, raw mode is
/// entered and `played` commands of the animation are out, none of them
/// having failed.
pub proof fn lemma_program_while_playing(
    animation: AnimationView,
    timeout_ms: u64,
    outcomes: Seq<Outcome>,
    played: nat,
)
    requires
        played + 2 <= outcomes.len(),
        forall|i: int| 2 <= i < played + 2 ==> outcomes[i] != Outcome::Failed,
        forall|m: nat|
            m < played ==> animation_step(#[trigger] animation_after(animation, m)).1
                != CommandView::Finished,
    ensures
        program_after(program_start(animation, timeout_ms), outcomes.take(played + 2int))
            == (ProgramView {
            stage: if played == 0 {
                Stage::Entering
            } else {
                Stage::Animating
            },
            animation: animation_after(animation, played),
            ..program_start(animation, timeout_ms)
        }),
    decreases played,
{
    let start = program_start(animation, timeout_ms);
    if played == 0 {
        assert(outcomes.take(2).drop_last() =~= outcomes.take(1));
        assert(outcomes.take(1).drop_last() =~= outcomes.take(0));
        assert(program_after(start, outcomes.take(0)) == start);
        assert(program_after(start, outcomes.take(1)).stage == Stage::Opening);
    } else {
        let before = (played - 1) as nat;
        lemma_program_while_playing(animation, timeout_ms, outcomes, before);
        assert(outcomes.take(played + 2int).drop_last() =~= outcomes.take(before + 2int));
    }
}

/// The program plays its animation as the animation gives it: after the
/// screen is cleared and raw mode is entered, the action at each place is
/// the animation's command at that place, as long as nothing has failed.
/// Input reported meanwhile changes nothing, so no frame and no pause is
/// skipped.
pub proof fn lemma_program_plays_animation(
    animation: AnimationView,
    timeout_ms: u64,
    outcomes: Seq<Outcome>,
    place: nat,
)
    requires
        place + 2 < outcomes.len(),
        forall|i: int| 2 <= i <= place + 2 ==> outcomes[i] != Outcome::Failed,
        forall|m: nat|
            m < place ==> animation_step(#[trigger] animation_after(animation, m)).1
                != CommandView::Finished,
    ensures
        program_run(program_start(animation, timeout_ms), outcomes)[place + 2int] == action_for(
            animation_step(animation_after(animation, place)).1,
        ),
{
    lemma_program_while_playing(animation, timeout_ms, outcomes, place);
    lemma_run_by_place(program_start(animation, timeout_ms), outcomes, place + 2int);
}

/// With the typing animation of N lines and nothing failing, the program
/// paints exactly the N frames of the schedule, each followed by its
/// pause, and then reads input.
pub proof fn lemma_program_types_lines(
    lines: Seq<LineView>,
    delay_ms: u64,
    timeout_ms: u64,
    outcomes: Seq<Outcome>,
    place: nat,
)
    requires
        place <= 2 * lines.len(),
        place + 2 < outcomes.len(),
        forall|i: int| 2 <= i <= place + 2 ==> outcomes[i] != Outcome::Failed,
    ensures
        program_run(
            program_start(AnimationView::Typing(typing_start(lines, delay_ms)), timeout_ms),
            outcomes,
        )[place + 2int] == action_for(typing_schedule(lines, delay_ms, place)),
{
    let animation = AnimationView::Typing(typing_start(lines, delay_ms));
    assert forall|m: nat| m <= place implies animation_step(
        #[trigger] animation_after(animation, m),
    ).1 == typing_schedule(lines, delay_ms, m) by {
        lemma_animation_after(animation, m);
        lemma_typing_follows_schedule(lines, delay_ms, m);
    }
    lemma_program_plays_animation(animation, timeout_ms, outcomes, place);
}

/// With the gauge animation and nothing failing, the program paints
/// exactly the 101 frames of the schedule, each followed by its pause,
/// and then reads input.
pub proof fn lemma_program_fills_gauge(
    delay_ms: u64,
    timeout_ms: u64,
    outcomes: Seq<Outcome>,
    place: nat,
)
    requires
        place <= 2 * (FULL_PERCENT + 1),
        place + 2 < outcomes.len(),
        forall|i: int| 2 <= i <= place + 2 ==> outcomes[i] != Outcome::Failed,
    ensures
        program_run(
            program_start(AnimationView::Gauge(gauge_start(delay_ms)), timeout_ms),
            outcomes,
        )[place + 2int] == action_for(gauge_schedule(delay_ms, place)),
{
    let animation = AnimationView::Gauge(gauge_start(delay_ms));
    assert forall|m: nat| m <= place implies animation_step(
        #[trigger] animation_after(animation, m),
    ).1 == gauge_schedule(delay_ms, m) by {
        lemma_animation_after(animation, m);
        lemma_gauge_follows_schedule(delay_ms, m);
    }
    lemma_program_plays_animation(animation, timeout_ms, outcomes, place);
}

} // verus!

use profile_card::animation::{
    declare_lines, Animation, GaugeAnimation, LineStyle, Model, Tint, TypingAnimation,
};
use profile_card::input::{Key, KeyPress};
use profile_card::program::{
    clear_screen_sequence, Action, ExitStatus, Failure, Outcome, Program, Stage,
};

const NO_MODIFIERS: u8 = 0;
const CONTROL: u8 = 2;

fn card(list: &[&str]) -> Program {
    let texts: Vec<String> = list.iter().map(|text| text.to_string()).collect();
    let lines = declare_lines(&texts, LineStyle { tint: Tint::Plain, bold: false });
    let animation = TypingAnimation::new(lines, 200).expect("lines in order");
    Program::new(Animation::Typing(animation), 100)
}

fn loading_bar() -> Program {
    Program::new(Animation::Gauge(GaugeAnimation::new(50)), 100)
}

fn key(key: Key, modifiers: u8) -> Outcome {
    Outcome::Key(KeyPress { key, modifiers })
}

fn is_render_of(action: &Action, text: &str) -> bool {
    match action {
        Action::Render(Model::Text(reveal)) => reveal.content() == text,
        _ => false,
    }
}

fn restores(actions: &[Action]) -> usize {
    actions.iter().filter(|action| matches!(action, Action::Restore)).count()
}

/// Steps the program through the outcomes and returns every action.
fn run(program: &mut Program, outcomes: &[Outcome]) -> Vec<Action> {
    outcomes.iter().map(|outcome| program.step(*outcome)).collect()
}

/// Steps the program to the end of its animation, reporting success.
fn play_through(program: &mut Program) -> Vec<Action> {
    let mut actions = Vec::new();
    loop {
        let action = program.step(Outcome::Done);
        let reading = matches!(action, Action::Read);
        actions.push(action);
        if reading {
            return actions;
        }
    }
}

#[test]
fn clear_screen_sequence_is_erase_and_home() {
    assert_eq!(clear_screen_sequence(), "\x1B[2J\x1B[1;1H");
}

#[test]
fn exit_codes_are_zero_for_success_and_one_for_failure() {
    assert_eq!(ExitStatus::Success.code(), 0);
    assert_eq!(ExitStatus::Failure(Failure::TerminalInit).code(), 1);
    assert_eq!(ExitStatus::Failure(Failure::RenderIo).code(), 1);
    assert_eq!(ExitStatus::Failure(Failure::InputRead).code(), 1);
}

#[test]
fn failures_have_a_message_each() {
    assert_eq!(Failure::TerminalInit.message(), "could not take the terminal into raw mode");
    assert_eq!(Failure::RenderIo.message(), "could not write a frame to the terminal");
    assert_eq!(Failure::InputRead.message(), "could not read input from the terminal");
}

#[test]
fn a_new_program_stands_at_the_start() {
    let program = card(&["a"]);
    assert_eq!(program.stage(), Stage::Start);
    assert_eq!(program.status(), ExitStatus::Success);
}

#[test]
fn the_card_runs_from_clear_to_exit() {
    let mut program = card(&["one", "two"]);
    assert!(matches!(program.step(Outcome::Done), Action::ClearScreen));
    assert_eq!(program.stage(), Stage::Opening);
    assert!(matches!(program.step(Outcome::Done), Action::EnterRawMode));
    assert_eq!(program.stage(), Stage::Entering);
    assert!(is_render_of(&program.step(Outcome::Done), "one\n"));
    assert_eq!(program.stage(), Stage::Animating);
    assert!(matches!(program.step(Outcome::Done), Action::Sleep(200)));
    assert!(is_render_of(&program.step(Outcome::Done), "one\ntwo\n"));
    assert!(matches!(program.step(Outcome::Done), Action::Sleep(200)));
    assert_eq!(program.stage(), Stage::Animating);
    assert!(matches!(program.step(Outcome::Done), Action::Read));
    assert_eq!(program.stage(), Stage::Watching);
    assert!(matches!(program.step(key(Key::Char('q'), NO_MODIFIERS)), Action::Restore));
    assert_eq!(program.stage(), Stage::Restoring);
    assert!(matches!(program.step(Outcome::Done), Action::ClearScreen));
    assert_eq!(program.stage(), Stage::Closing);
    assert!(matches!(program.step(Outcome::Done), Action::Exit(ExitStatus::Success)));
    assert_eq!(program.stage(), Stage::Exited);
    assert!(matches!(program.step(Outcome::Done), Action::Exit(ExitStatus::Success)));
    assert_eq!(program.stage(), Stage::Exited);
    assert_eq!(program.status(), ExitStatus::Success);
}

#[test]
fn the_loading_bar_paints_101_frames_before_it_reads() {
    let mut program = loading_bar();
    let actions = play_through(&mut program);
    assert!(matches!(actions[0], Action::ClearScreen));
    assert!(matches!(actions[1], Action::EnterRawMode));
    assert_eq!(actions.len(), 2 + 202 + 1);
    let mut slept_ms = 0;
    for percent in 0..=100usize {
        match &actions[2 + 2 * percent] {
            Action::Render(Model::Gauge(progress)) => {
                assert_eq!(progress.percent() as usize, percent)
            }
            other => panic!("expected a frame of the gauge, got {other:?}"),
        }
        match &actions[3 + 2 * percent] {
            Action::Sleep(ms) => slept_ms += ms,
            other => panic!("expected a pause, got {other:?}"),
        }
    }
    assert_eq!(slept_ms, 5050);
    assert!(matches!(actions[204], Action::Read));
    assert_eq!(program.stage(), Stage::Watching);
}

#[test]
fn a_card_of_ten_lines_paints_ten_frames_and_sleeps_two_seconds() {
    let list = ["0", "1", "2", "3", "4", "5", "6", "7", "8", "9"];
    let mut program = card(&list);
    let actions = play_through(&mut program);
    let frames = actions.iter().filter(|action| matches!(action, Action::Render(_))).count();
    let slept_ms: u64 = actions
        .iter()
        .map(|action| match action {
            Action::Sleep(ms) => *ms,
            _ => 0,
        })
        .sum();
    assert_eq!(frames, 10);
    assert_eq!(slept_ms, 2000);
    assert!(is_render_of(&actions[2 + 18], "0\n1\n2\n3\n4\n5\n6\n7\n8\n9\n"));
}

#[test]
fn input_during_the_animation_changes_nothing() {
    let mut program = card(&["a", "b"]);
    let outcomes = [
        Outcome::Done,
        Outcome::Done,
        key(Key::Char('q'), NO_MODIFIERS),
        key(Key::Esc, NO_MODIFIERS),
        key(Key::Char('c'), CONTROL),
        Outcome::NotKey,
        Outcome::Ready,
    ];
    let actions = run(&mut program, &outcomes);
    assert!(is_render_of(&actions[2], "a\n"));
    assert!(matches!(actions[3], Action::Sleep(200)));
    assert!(is_render_of(&actions[4], "a\nb\n"));
    assert!(matches!(actions[5], Action::Sleep(200)));
    assert!(matches!(actions[6], Action::Read));
    assert_eq!(restores(&actions), 0);
}

#[test]
fn unrecognized_keys_keep_the_program_reading() {
    let mut program = card(&[]);
    play_through(&mut program);
    let others = [
        key(Key::Char('x'), NO_MODIFIERS),
        key(Key::Char('c'), NO_MODIFIERS),
        key(Key::Char('c'), 1),
        key(Key::Char('Q'), 1),
        key(Key::Other, CONTROL),
    ];
    for other in others {
        assert!(matches!(program.step(other), Action::Read));
        assert_eq!(program.stage(), Stage::Watching);
        assert_eq!(program.status(), ExitStatus::Success);
    }
}

#[test]
fn each_quit_key_restores_then_exits_with_success() {
    let quits = [
        key(Key::Char('q'), NO_MODIFIERS),
        key(Key::Esc, NO_MODIFIERS),
        key(Key::Char('c'), CONTROL),
    ];
    for quit in quits {
        let mut program = card(&["a"]);
        let mut actions = play_through(&mut program);
        actions.extend(run(&mut program, &[quit, Outcome::Done, Outcome::Done]));
        let n = actions.len();
        assert!(matches!(actions[n - 3], Action::Restore));
        assert!(matches!(actions[n - 2], Action::ClearScreen));
        assert!(matches!(actions[n - 1], Action::Exit(ExitStatus::Success)));
        assert_eq!(restores(&actions), 1);
    }
}

#[test]
fn quit_keys_count_on_the_polled_path_too() {
    let mut program = card(&[]);
    play_through(&mut program);
    assert!(matches!(program.step(Outcome::NotKey), Action::Poll(100)));
    assert!(matches!(program.step(Outcome::Ready), Action::Read));
    assert!(matches!(program.step(key(Key::Char('q'), NO_MODIFIERS)), Action::Restore));
}

#[test]
fn the_wait_polls_and_rests_when_nothing_comes() {
    let mut program = card(&[]);
    play_through(&mut program);
    assert!(matches!(program.step(Outcome::NotKey), Action::Poll(100)));
    assert!(matches!(program.step(Outcome::Idle), Action::Sleep(100)));
    assert!(matches!(program.step(Outcome::Done), Action::Read));
    assert!(matches!(program.step(Outcome::NotKey), Action::Poll(100)));
    assert!(matches!(program.step(Outcome::Ready), Action::Read));
    assert_eq!(program.stage(), Stage::Watching);
}

#[test]
fn failing_to_enter_raw_mode_restores_once_and_fails() {
    let mut program = card(&["a"]);
    let outcomes = [Outcome::Done, Outcome::Done, Outcome::Failed, Outcome::Done, Outcome::Done];
    let actions = run(&mut program, &outcomes);
    assert!(matches!(actions[0], Action::ClearScreen));
    assert!(matches!(actions[1], Action::EnterRawMode));
    assert!(matches!(actions[2], Action::Restore));
    assert!(matches!(actions[3], Action::ClearScreen));
    assert!(matches!(actions[4], Action::Exit(ExitStatus::Failure(Failure::TerminalInit))));
    assert_eq!(restores(&actions), 1);
    assert_eq!(program.status(), ExitStatus::Failure(Failure::TerminalInit));
}

#[test]
fn failing_to_paint_restores_once_and_fails() {
    let mut program = card(&["a", "b"]);
    let outcomes = [
        Outcome::Done,
        Outcome::Done,
        Outcome::Done,
        Outcome::Done,
        Outcome::Done,
        Outcome::Failed,
        Outcome::Done,
        Outcome::Done,
        Outcome::Done,
    ];
    let actions = run(&mut program, &outcomes);
    assert!(is_render_of(&actions[4], "a\nb\n"));
    assert!(matches!(actions[5], Action::Restore));
    assert!(matches!(actions[6], Action::ClearScreen));
    assert!(matches!(actions[7], Action::Exit(ExitStatus::Failure(Failure::RenderIo))));
    assert!(matches!(actions[8], Action::Exit(ExitStatus::Failure(Failure::RenderIo))));
    assert_eq!(restores(&actions), 1);
}

#[test]
fn failing_to_read_restores_once_and_fails() {
    let mut program = card(&[]);
    let mut actions = play_through(&mut program);
    actions.extend(run(&mut program, &[Outcome::Failed, Outcome::Done, Outcome::Done]));
    let n = actions.len();
    assert!(matches!(actions[n - 3], Action::Restore));
    assert!(matches!(actions[n - 2], Action::ClearScreen));
    assert!(matches!(actions[n - 1], Action::Exit(ExitStatus::Failure(Failure::InputRead))));
    assert_eq!(restores(&actions), 1);
}

#[test]
fn failing_to_poll_restores_once_and_fails() {
    let mut program = card(&[]);
    play_through(&mut program);
    assert!(matches!(program.step(Outcome::NotKey), Action::Poll(100)));
    assert!(matches!(program.step(Outcome::Failed), Action::Restore));
    assert_eq!(program.status(), ExitStatus::Failure(Failure::InputRead));
}

#[test]
fn a_failing_restore_does_not_change_the_ending() {
    let mut program = card(&[]);
    play_through(&mut program);
    let actions = run(
        &mut program,
        &[key(Key::Esc, NO_MODIFIERS), Outcome::Failed, Outcome::Failed, Outcome::Failed],
    );
    assert!(matches!(actions[0], Action::Restore));
    assert!(matches!(actions[1], Action::ClearScreen));
    assert!(matches!(actions[2], Action::Exit(ExitStatus::Success)));
    assert!(matches!(actions[3], Action::Exit(ExitStatus::Success)));
    assert_eq!(restores(&actions), 1);

    let mut failed = card(&["a"]);
    let actions = run(
        &mut failed,
        &[Outcome::Done, Outcome::Done, Outcome::Failed, Outcome::Failed, Outcome::Failed],
    );
    assert!(matches!(actions[4], Action::Exit(ExitStatus::Failure(Failure::TerminalInit))));
    assert_eq!(restores(&actions), 1);
}

#[test]
fn no_run_restores_twice() {
    let reports = [
        Outcome::Done,
        Outcome::Failed,
        Outcome::NotKey,
        Outcome::Ready,
        Outcome::Idle,
        key(Key::Char('q'), NO_MODIFIERS),
        key(Key::Char('x'), NO_MODIFIERS),
    ];
    // Every run of six reports, each drawn from the seven above.
    for code in 0..7usize.pow(6) {
        let mut program = card(&["a"]);
        let mut rest = code;
        let mut restored = 0;
        let mut exited = false;
        for _ in 0..6 {
            let action = program.step(reports[rest % 7]);
            rest /= 7;
            match action {
                Action::Restore => {
                    assert!(!exited);
                    restored += 1;
                }
                Action::Exit(_) => {
                    assert_eq!(restored, 1);
                    exited = true;
                }
                _ => {}
            }
        }
        assert!(restored <= 1);
    }
}

use locklogic::display::{Controller, State};
use locklogic::frame::{Align, Color, Point, TextStyle};
use locklogic::sim::{SimDisplay, TextCmd};
use locklogic::Component;

const SMALL: TextStyle = TextStyle { glyph_width: 6, glyph_height: 10 };
const LARGE: TextStyle = TextStyle { glyph_width: 10, glyph_height: 20 };
const CENTER: Point = Point { x: 64, y: 32 };

fn texts(ctrl: &Controller<SimDisplay>) -> Vec<String> {
    ctrl.target_ref()
        .visible_cmds()
        .iter()
        .map(|c| c.text.clone())
        .collect()
}

#[test]
fn initial_state_is_idle() {
    let mut ctrl = Controller::new(SimDisplay::new());
    ctrl.tick(0);
    assert_eq!(texts(&ctrl), vec!["You shall not pass!".to_string()]);
}

#[test]
fn idle_prompt_frame() {
    let mut ctrl = Controller::new(SimDisplay::new());
    ctrl.set_state(State::Idle);
    ctrl.tick(0);
    let screen = ctrl.target_ref();
    assert_eq!(screen.visible_background(), Color::Off);
    let cmds = screen.visible_cmds();
    assert_eq!(cmds.len(), 1);
    assert_eq!(cmds[0].text, "You shall not pass!");
    assert_eq!(cmds[0].style, SMALL);
    assert_eq!(cmds[0].align, Align::Center);
    assert_eq!(cmds[0].pos, CENTER);
    assert!(!cmds[0].text.contains('*'));
}

#[test]
fn pin_marker_strings() {
    let expected = ["       ", "*      ", "* *    ", "* * *  ", "* * * *"];
    for digits in 0..=4u32 {
        let mut ctrl = Controller::new(SimDisplay::new());
        ctrl.set_state(State::PIN { digits });
        ctrl.tick(0);
        let cmds = ctrl.target_ref().visible_cmds();
        assert_eq!(cmds.len(), 2);
        assert_eq!(cmds[0].text, "_ _ _ _");
        assert_eq!(cmds[0].style, LARGE);
        assert_eq!(cmds[0].pos, CENTER);
        assert_eq!(cmds[1].text, expected[digits as usize]);
        assert_eq!(cmds[1].style, LARGE);
        assert_eq!(cmds[1].pos, CENTER);
        assert_eq!(cmds[1].text.matches('*').count(), digits as usize);
        assert_eq!(cmds[1].text.len(), 7);
    }
}

#[test]
fn pin_zero_digits_shows_no_asterisk() {
    let mut ctrl = Controller::new(SimDisplay::new());
    ctrl.set_state(State::PIN { digits: 0 });
    ctrl.tick(0);
    let cmds = ctrl.target_ref().visible_cmds();
    assert!(!cmds[1].text.contains('*'));
}

#[test]
fn pin_four_digits_fills_every_slot() {
    let mut ctrl = Controller::new(SimDisplay::new());
    ctrl.set_state(State::PIN { digits: 4 });
    ctrl.tick(0);
    let cmds = ctrl.target_ref().visible_cmds();
    assert_eq!(cmds[1].text, "* * * *");
    assert_eq!(cmds[1].text.matches('*').count(), 4);
    assert!(!cmds[1].text.contains("  "));
}

#[test]
fn wrong_and_correct_are_fixed_and_distinct() {
    let mut wrong = Controller::new(SimDisplay::new());
    wrong.set_state(State::Wrong);
    wrong.tick(123);
    let wrong_texts = texts(&wrong);
    assert_eq!(wrong_texts, vec!["Wrong PIN,".to_string()]);

    let mut correct = Controller::new(SimDisplay::new());
    correct.set_state(State::Correct);
    correct.tick(456);
    let correct_texts = texts(&correct);
    assert_eq!(correct_texts, vec!["Welcome back!".to_string()]);

    assert_ne!(wrong_texts, correct_texts);
}

#[test]
fn tick_clears_previous_frame() {
    let mut ctrl = Controller::new(SimDisplay::new());
    ctrl.set_state(State::PIN { digits: 3 });
    ctrl.tick(0);
    assert_eq!(ctrl.target_ref().visible_cmds().len(), 2);

    ctrl.set_state(State::Wrong);
    ctrl.tick(1);
    let cmds = ctrl.target_ref().visible_cmds();
    assert_eq!(ctrl.target_ref().visible_background(), Color::Off);
    assert_eq!(cmds.len(), 1);
    assert_eq!(cmds[0].text, "Wrong PIN,");
}

#[test]
fn second_set_state_wins_before_tick() {
    let mut ctrl = Controller::new(SimDisplay::new());
    ctrl.set_state(State::Correct);
    ctrl.set_state(State::Wrong);
    ctrl.tick(0);
    assert_eq!(texts(&ctrl), vec!["Wrong PIN,".to_string()]);
}

#[test]
fn tick_twice_same_state_is_pixel_identical() {
    let mut ctrl = Controller::new(SimDisplay::new());
    ctrl.set_state(State::PIN { digits: 3 });
    ctrl.tick(5);
    let first: Vec<TextCmd> = ctrl.target_ref().visible_cmds().clone();
    let first_bg = ctrl.target_ref().visible_background();
    ctrl.tick(999_999);
    let second = ctrl.target_ref().visible_cmds();
    assert_eq!(&first, second);
    assert_eq!(first_bg, ctrl.target_ref().visible_background());
}

#[test]
fn end_to_end_scenario() {
    let mut ctrl = Controller::new(SimDisplay::new());

    ctrl.set_state(State::Idle);
    ctrl.tick(0);
    let frame1 = texts(&ctrl);
    assert_eq!(frame1, vec!["You shall not pass!".to_string()]);

    ctrl.set_state(State::PIN { digits: 2 });
    ctrl.tick(1000);
    let frame2 = texts(&ctrl);
    assert_eq!(
        frame2,
        vec!["_ _ _ _".to_string(), "* *    ".to_string()]
    );

    ctrl.set_state(State::Wrong);
    ctrl.tick(2000);
    let frame3 = texts(&ctrl);
    assert_eq!(frame3, vec!["Wrong PIN,".to_string()]);

    assert_ne!(frame1, frame2);
    assert_ne!(frame2, frame3);
    assert_ne!(frame1, frame3);
}

#[test]
fn styles_match_state_kind() {
    let mut ctrl = Controller::new(SimDisplay::new());
    ctrl.tick(0);
    assert_eq!(ctrl.target_ref().visible_cmds()[0].style, SMALL);

    ctrl.set_state(State::PIN { digits: 1 });
    ctrl.tick(1);
    for cmd in ctrl.target_ref().visible_cmds() {
        assert_eq!(cmd.style, LARGE);
    }
}

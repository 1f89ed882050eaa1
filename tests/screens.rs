use rig_control::calibration::Calibration;
use rig_control::lcd::{LCDArg, LCDCommand, LCDProgramm};
use rig_control::position::Direction;
use rig_control::screen::{
    label_of, pad3, span_of, underline, underline_for, Button, Buttons, Effect, Reaction, Screen, UiPages,
};

const NONE: Buttons = Buttons { home: false, left: false, right: false, enter: false };

fn only(b: Button) -> Buttons {
    match b {
        Button::Home => Buttons { home: true, ..NONE },
        Button::Left => Buttons { left: true, ..NONE },
        Button::Right => Buttons { right: true, ..NONE },
        Button::Enter => Buttons { enter: true, ..NONE },
    }
}

#[test]
fn underline_rows() {
    assert_eq!(underline(0, 1), "_               ");
    assert_eq!(underline(2, 7), "  _____         ");
    assert_eq!(underline(15, 16), "               _");
    assert_eq!(underline(3, 3), "                ");
    assert_eq!(underline_for(UiPages::Menu2, 1), "       _______  ");
    assert_eq!(underline_for(UiPages::MoveToTarget, 7), "              _ ");
    assert_eq!(span_of(UiPages::CalibrationPage, 0), (12, 16));
}

#[test]
fn labels_fill_the_line() {
    let pages = [
        UiPages::Menu1,
        UiPages::Menu2,
        UiPages::Menu3,
        UiPages::ManualControll,
        UiPages::LedColor,
        UiPages::LedBrightness,
        UiPages::LedMode,
        UiPages::CalibrationPage,
        UiPages::MoveToTarget,
        UiPages::SettingsMenu,
    ];
    for p in pages {
        assert_eq!(label_of(p).chars().count(), 16);
    }
    assert_eq!(label_of(UiPages::Menu1), "< mPos.   Led.  ");
}

#[test]
fn three_digit_padding() {
    assert_eq!(pad3(0), "000");
    assert_eq!(pad3(7), "007");
    assert_eq!(pad3(42), "042");
    assert_eq!(pad3(359), "359");
}

#[test]
fn selection_clamps_without_wrapping() {
    let mut s = Screen::open(UiPages::Menu1, 0, 0, 0);
    assert_eq!(s.current_selection, 0);
    assert_eq!(s.press(Button::Left), Reaction { next: None, effect: None });
    assert_eq!(s.current_selection, 0);
    s.press(Button::Right);
    s.press(Button::Right);
    assert_eq!(s.current_selection, 2);
    s.press(Button::Right);
    assert_eq!(s.current_selection, 2);
    s.press(Button::Left);
    assert_eq!(s.current_selection, 1);
}

#[test]
fn menus_lead_to_their_options() {
    let mut s = Screen::open(UiPages::Menu1, 0, 0, 0);
    s.press(Button::Right);
    assert_eq!(s.press(Button::Enter).next, Some(UiPages::ManualControll));
    let mut s = Screen::open(UiPages::Menu2, 0, 0, 0);
    assert_eq!(s.current_selection, 2);
    assert_eq!(s.press(Button::Enter).next, Some(UiPages::Menu1));
    s.press(Button::Left);
    assert_eq!(s.press(Button::Enter).next, Some(UiPages::MoveToTarget));
    let mut s = Screen::open(UiPages::Menu3, 0, 0, 0);
    s.press(Button::Right);
    assert_eq!(s.press(Button::Enter).next, Some(UiPages::CalibrationPage));
}

#[test]
fn home_returns_to_main_menu() {
    let mut s = Screen::open(UiPages::ManualControll, 0, 0, 0);
    assert_eq!(s.press(Button::Home).next, Some(UiPages::Menu1));
    let mut s = Screen::open(UiPages::SettingsMenu, 0, 0, 0);
    assert_eq!(s.press(Button::Home).next, Some(UiPages::Menu1));
    let mut s = Screen::open(UiPages::Menu2, 0, 0, 0);
    assert_eq!(s.press(Button::Home).next, None);
    let mut s = Screen::open(UiPages::CalibrationPage, 0, 0, 0);
    assert_eq!(s.press(Button::Home).next, None);
}

#[test]
fn manual_control_jogs_and_saves() {
    let mut s = Screen::open(UiPages::ManualControll, 0, 0, 0);
    assert_eq!(s.press(Button::Enter), Reaction { next: None, effect: Some(Effect::Jog(Direction::Clockwise)) });
    s.press(Button::Right);
    assert_eq!(
        s.press(Button::Enter),
        Reaction { next: Some(UiPages::Menu1), effect: Some(Effect::SavePosition) }
    );
    s.press(Button::Right);
    assert_eq!(
        s.press(Button::Enter),
        Reaction { next: None, effect: Some(Effect::Jog(Direction::CounterClockwise)) }
    );
}

#[test]
fn colour_editor_turns_hue() {
    let mut s = Screen::open(UiPages::LedColor, 355, 40, 0);
    s.press(Button::Right);
    assert_eq!(s.press(Button::Enter), Reaction { next: None, effect: Some(Effect::ShowLed) });
    assert_eq!(s.hue, 5);
    assert_eq!(s.info_text(), "005/360");
    s.press(Button::Right);
    s.press(Button::Enter);
    s.press(Button::Enter);
    assert_eq!(s.hue, 345);
    s.press(Button::Right);
    assert_eq!(s.press(Button::Enter).next, Some(UiPages::LedMode));
}

#[test]
fn brightness_editor_clamps() {
    let mut s = Screen::open(UiPages::LedBrightness, 0, 95, 0);
    s.press(Button::Right);
    s.press(Button::Enter);
    assert_eq!(s.brightness, 100);
    assert_eq!(s.info_text(), "100%");
    s.press(Button::Left);
    assert_eq!(s.press(Button::Enter).next, Some(UiPages::LedMode));
    let s = Screen::open(UiPages::LedBrightness, 0, 250, 0);
    assert_eq!(s.brightness, 100);
    let s = Screen::open(UiPages::LedMode, 0, 10, 0);
    assert_eq!(s.info_text(), "NA");
}

#[test]
fn first_tick_underlines_and_runs_pre_loop_hook() {
    let mut s = Screen::open(UiPages::LedColor, 120, 10, 0);
    let t = s.tick(NONE, None);
    assert_eq!(t.next, None);
    assert_eq!(t.effects, vec![Effect::Underline(0), Effect::ShowInfo]);
    let t = s.tick(NONE, None);
    assert_eq!(t.effects, vec![]);
    let t = s.tick(only(Button::Right), None);
    assert_eq!(t.effects, vec![Effect::Underline(1), Effect::ShowInfo]);
}

#[test]
fn leaving_an_editor_saves_it() {
    let mut s = Screen::open(UiPages::LedBrightness, 0, 10, 0);
    s.tick(NONE, None);
    let t = s.tick(only(Button::Enter), None);
    assert_eq!(t.next, Some(UiPages::LedMode));
    assert_eq!(t.effects, vec![Effect::SaveLed]);
}

#[test]
fn preemption_ends_any_screen() {
    let mut s = Screen::open(UiPages::Menu1, 0, 0, 0);
    let t = s.tick(only(Button::Right), Some(UiPages::MoveToTarget));
    assert_eq!(t.next, Some(UiPages::MoveToTarget));
    assert_eq!(t.effects, vec![]);
    assert_eq!(s.current_selection, 0);
    let mut s = Screen::open(UiPages::LedColor, 0, 0, 0);
    let t = s.tick(NONE, Some(UiPages::MoveToTarget));
    assert_eq!(t.effects, vec![Effect::SaveLed]);
}

#[test]
fn all_held_buttons_run_first_result_wins() {
    let mut s = Screen::open(UiPages::ManualControll, 0, 0, 0);
    s.tick(NONE, None);
    let t = s.tick(Buttons { home: true, left: false, right: true, enter: true }, None);
    assert_eq!(t.next, Some(UiPages::Menu1));
    assert_eq!(s.current_selection, 1);
    assert_eq!(t.effects, vec![Effect::SavePosition]);
}

#[test]
fn preset_target_moves_without_input() {
    let mut s = Screen::open(UiPages::MoveToTarget, 0, 0, 3);
    let t = s.tick(NONE, None);
    assert_eq!(t.next, Some(UiPages::Menu1));
    assert_eq!(t.effects, vec![Effect::Underline(0), Effect::MoveTo(3)]);
}

#[test]
fn picked_slot_moves_to_its_preset() {
    let mut s = Screen::open(UiPages::MoveToTarget, 0, 0, 0);
    assert_eq!(s.tick(NONE, None).next, None);
    s.tick(only(Button::Right), None);
    s.tick(only(Button::Right), None);
    let t = s.tick(only(Button::Enter), None);
    assert_eq!(t.next, Some(UiPages::Menu1));
    assert_eq!(t.effects, vec![Effect::MoveTo(3)]);
}

#[test]
fn calibration_screen_runs_procedure() {
    let mut s = Screen::open(UiPages::CalibrationPage, 0, 0, 0);
    let t = s.tick(NONE, None);
    assert_eq!(t.effects, vec![Effect::Underline(0), Effect::RunCalibration]);
    assert_eq!(s.calibration_finished(Calibration::Done(3200)), None);
    assert_eq!(s.calibration_finished(Calibration::Cancelled), Some(UiPages::Menu1));
    assert_eq!(s.tick(only(Button::Enter), None).next, Some(UiPages::Menu1));
}

#[test]
fn lcd_commands_carry_named_arguments() {
    let c = LCDCommand::move_to(4, 1);
    assert_eq!(c.cmd, LCDProgramm::Move);
    let args = c.args.unwrap();
    assert_eq!(args.len(), 2);
    assert_eq!(args[0].0, "y");
    assert!(matches!(args[0].1, LCDArg::Int(1)));
    assert_eq!(args[1].0, "x");
    assert!(matches!(args[1].1, LCDArg::Int(4)));
    let w = LCDCommand::write("hi".to_string());
    assert_eq!(w.cmd, LCDProgramm::Write);
    let args = w.args.unwrap();
    assert_eq!(args[0].0, "text");
    assert!(matches!(&args[0].1, LCDArg::String(t) if t == "hi"));
    assert!(LCDCommand::clear().args.is_none());
    assert_eq!(LCDCommand::home().cmd, LCDProgramm::Home);
}

//! The button-driven screens.
//!
//! Each screen shows a 16-character label and underlines the selected option.
//! Four buttons (home, left, right, enter) drive it. A screen's reaction to a
//! button is a next screen to go to, an effect for the hardware side to carry
//! out, or both; the hardware side performs the effect and keeps polling.
use vstd::prelude::*;
use crate::position::Direction;
use crate::led::{adjust_brightness, adjust_hue, brightness_step, hue_step, HUE_CIRCLE};
use crate::calibration::Calibration;

verus! {

/// Width of the display in characters.
pub const LINE_WIDTH: u8 = 16;

/// The screens.
#[derive(Clone, Copy, Debug, PartialEq, Eq, Structural)]
pub enum UiPages {
    Menu1,
    Menu2,
    Menu3,
    ManualControll,
    LedColor,
    LedBrightness,
    LedMode,
    CalibrationPage,
    MoveToTarget,
    SettingsMenu,
}

/// The four buttons, in the order they are polled.
#[derive(Clone, Copy, Debug, PartialEq, Eq, Structural)]
pub enum Button {
    Home,
    Left,
    Right,
    Enter,
}

/// Work for the hardware side.
#[derive(Clone, Copy, Debug, PartialEq, Eq, Structural)]
pub enum Effect {
    /// Walk full rotations in this direction while enter is held, then store
    /// the wrapped position.
    Jog(Direction),
    /// Store the current motor position as the active preset's position.
    SavePosition,
    /// Show the editor's colour and brightness on the strip.
    ShowLed,
    /// Write the editor's value line ([`Screen::info_text`]).
    ShowInfo,
    /// Store the editor's colour, brightness and mode for the active preset.
    SaveLed,
    /// Run the calibration procedure and report it to [`Screen::calibration_finished`].
    RunCalibration,
    /// Travel to this preset, show its LEDs and make it the active preset.
    MoveTo(i32),
    /// Redraw the underline for this option ([`underline_for`]).
    Underline(usize),
}

/// What a screen does in response to one event.
#[derive(Clone, Copy, Debug, PartialEq, Eq, Structural)]
pub struct Reaction {
    pub next: Option<UiPages>,
    pub effect: Option<Effect>,
}

/// Which of the four buttons are held this tick.
#[derive(Clone, Copy, Debug, PartialEq, Eq, Structural)]
pub struct Buttons {
    pub home: bool,
    pub left: bool,
    pub right: bool,
    pub enter: bool,
}

/// The result of one polling tick.
pub struct TickOutcome {
    /// The screen to go to, when this screen is done.
    pub next: Option<UiPages>,
    /// The effects to carry out, in order.
    pub effects: Vec<Effect>,
}

/// The number of options a screen underlines.
pub open spec fn option_count(page: UiPages) -> nat {
    match page {
        UiPages::Menu1 => 3,
        UiPages::Menu2 => 3,
        UiPages::Menu3 => 2,
        UiPages::ManualControll => 3,
        UiPages::LedColor | UiPages::LedBrightness | UiPages::LedMode => 4,
        UiPages::CalibrationPage => 1,
        UiPages::MoveToTarget => 8,
        UiPages::SettingsMenu => 3,
    }
}

/// Where enter leads from each option of a menu.
pub open spec fn menu_targets(page: UiPages) -> Seq<UiPages> {
    match page {
        UiPages::Menu1 => seq![UiPages::Menu2, UiPages::ManualControll, UiPages::LedColor],
        UiPages::Menu2 => seq![UiPages::CalibrationPage, UiPages::MoveToTarget, UiPages::Menu1],
        UiPages::Menu3 => seq![UiPages::Menu1, UiPages::CalibrationPage],
        _ => Seq::empty(),
    }
}

/// The sibling editor that enter on an LED editor's outer options leads to:
/// the first option moves on to the next editor, the last one back.
pub open spec fn editor_sibling(page: UiPages, selection: int) -> Option<UiPages> {
    match page {
        UiPages::LedColor => if selection == 0 {
            Some(UiPages::LedBrightness)
        } else if selection == 3 {
            Some(UiPages::LedMode)
        } else {
            None
        },
        UiPages::LedBrightness => if selection == 0 {
            Some(UiPages::LedMode)
        } else if selection == 3 {
            Some(UiPages::LedColor)
        } else {
            None
        },
        UiPages::LedMode => if selection == 0 {
            Some(UiPages::LedColor)
        } else if selection == 3 {
            Some(UiPages::LedBrightness)
        } else {
            None
        },
        _ => None,
    }
}

/// Screens that react to the lifecycle hooks.
pub open spec fn is_reactive(page: UiPages) -> bool {
    page == UiPages::LedColor || page == UiPages::LedBrightness || page == UiPages::LedMode
        || page == UiPages::CalibrationPage || page == UiPages::MoveToTarget
}

/// Screens that edit an LED appearance.
pub open spec fn is_editor(page: UiPages) -> bool {
    page == UiPages::LedColor || page == UiPages::LedBrightness || page == UiPages::LedMode
}

/// Screens that are menus.
pub open spec fn is_menu(page: UiPages) -> bool {
    page == UiPages::Menu1 || page == UiPages::Menu2 || page == UiPages::Menu3
}

/// The number of options of `page`.
pub fn options_len(page: UiPages) -> (n: usize)
    ensures
        n == option_count(page),
{
    match page {
        UiPages::Menu1 => 3,
        UiPages::Menu2 => 3,
        UiPages::Menu3 => 2,
        UiPages::ManualControll => 3,
        UiPages::LedColor | UiPages::LedBrightness | UiPages::LedMode => 4,
        UiPages::CalibrationPage => 1,
        UiPages::MoveToTarget => 8,
        UiPages::SettingsMenu => 3,
    }
}

/// The column span `[start, end)` under the option `selection` of `page`.
pub open spec fn option_span(page: UiPages, selection: int) -> (u8, u8) {
    match page {
        UiPages::Menu1 => if selection == 0 {
            (0u8, 1u8)
        } else if selection == 1 {
            (2u8, 7u8)
        } else {
            (10u8, 14u8)
        },
        UiPages::Menu2 => if selection == 0 {
            (0u8, 6u8)
        } else if selection == 1 {
            (7u8, 14u8)
        } else {
            (15u8, 16u8)
        },
        UiPages::Menu3 => if selection == 0 {
            (0u8, 1u8)
        } else {
            (6u8, 16u8)
        },
        UiPages::ManualControll => if selection == 0 {
            (0u8, 3u8)
        } else if selection == 1 {
            (5u8, 9u8)
        } else {
            (11u8, 16u8)
        },
        UiPages::LedColor | UiPages::LedBrightness | UiPages::LedMode => if selection == 0 {
            (0u8, 1u8)
        } else if selection == 1 {
            (1u8, 2u8)
        } else if selection == 2 {
            (14u8, 15u8)
        } else {
            (15u8, 16u8)
        },
        UiPages::CalibrationPage => (12u8, 16u8),
        UiPages::MoveToTarget => ((2 * selection) as u8, (2 * selection + 1) as u8),
        UiPages::SettingsMenu => if selection == 0 {
            (0u8, 1u8)
        } else if selection == 1 {
            (2u8, 7u8)
        } else {
            (9u8, 15u8)
        },
    }
}

/// The span under an option; every span lies within the line.
pub fn span_of(page: UiPages, selection: usize) -> (r: (u8, u8))
    requires
        selection < option_count(page),
    ensures
        r == option_span(page, selection as int),
        r.0 < r.1 <= LINE_WIDTH,
{
    match page {
        UiPages::Menu1 => if selection == 0 {
            (0, 1)
        } else if selection == 1 {
            (2, 7)
        } else {
            (10, 14)
        },
        UiPages::Menu2 => if selection == 0 {
            (0, 6)
        } else if selection == 1 {
            (7, 14)
        } else {
            (15, 16)
        },
        UiPages::Menu3 => if selection == 0 {
            (0, 1)
        } else {
            (6, 16)
        },
        UiPages::ManualControll => if selection == 0 {
            (0, 3)
        } else if selection == 1 {
            (5, 9)
        } else {
            (11, 16)
        },
        UiPages::LedColor | UiPages::LedBrightness | UiPages::LedMode => if selection == 0 {
            (0, 1)
        } else if selection == 1 {
            (1, 2)
        } else if selection == 2 {
            (14, 15)
        } else {
            (15, 16)
        },
        UiPages::CalibrationPage => (12, 16),
        UiPages::MoveToTarget => ((2 * selection) as u8, (2 * selection + 1) as u8),
        UiPages::SettingsMenu => if selection == 0 {
            (0, 1)
        } else if selection == 1 {
            (2, 7)
        } else {
            (9, 15)
        },
    }
}

/// The label of each screen.
pub open spec fn label_text(page: UiPages) -> Seq<char> {
    match page {
        UiPages::Menu1 => "< mPos.   Led.  "@,
        UiPages::Menu2 => "Calib. Preset. >"@,
        UiPages::Menu3 => "<    Calibration"@,
        UiPages::ManualControll => "<UP  SAVE  DOWN>"@,
        UiPages::LedColor => "<^   Color    v>"@,
        UiPages::LedBrightness => "<^ Brightness v>"@,
        UiPages::LedMode => "<^    Mode    v>"@,
        UiPages::CalibrationPage => "Calibrating STOP"@,
        UiPages::MoveToTarget => "1 2 3 4 5 6 7 8 "@,
        UiPages::SettingsMenu => "< Auto.  Delay. "@,
    }
}

/// The label of `page`, one full line.
pub fn label_of(page: UiPages) -> (r: &'static str)
    ensures
        r@ == label_text(page),
{
    match page {
        UiPages::Menu1 => "< mPos.   Led.  ",
        UiPages::Menu2 => "Calib. Preset. >",
        UiPages::Menu3 => "<    Calibration",
        UiPages::ManualControll => "<UP  SAVE  DOWN>",
        UiPages::LedColor => "<^   Color    v>",
        UiPages::LedBrightness => "<^ Brightness v>",
        UiPages::LedMode => "<^    Mode    v>",
        UiPages::CalibrationPage => "Calibrating STOP",
        UiPages::MoveToTarget => "1 2 3 4 5 6 7 8 ",
        UiPages::SettingsMenu => "< Auto.  Delay. ",
    }
}

/// `n` copies of the character `c`.
pub open spec fn repeat_char(c: char, n: nat) -> Seq<char> {
    Seq::new(n, |i: int| c)
}

/// The underline row for the span `[start, end)`: blanks, underscores under
/// the span, blanks to the end of the line.
pub open spec fn underline_row(start: nat, end: nat) -> Seq<char> {
    repeat_char(' ', start) + repeat_char('_', (end - start) as nat) + repeat_char(' ', (16 - end) as nat)
}

/// Appends `n` copies of the one-character string `piece`.
fn append_repeated(s: &mut String, piece: &str, n: u8)
    requires
        piece@.len() == 1,
    ensures
        final(s)@ == old(s)@ + repeat_char(piece@[0], n as nat),
{
    let mut i: u8 = 0;
    while i < n
        invariant
            i <= n,
            piece@.len() == 1,
            s@ == old(s)@ + repeat_char(piece@[0], i as nat),
        decreases n - i,
    {
        let ghost before = s@;
        s.append(piece);
        proof {
            assert(repeat_char(piece@[0], (i + 1) as nat) =~= repeat_char(piece@[0], i as nat) + piece@);
            assert(s@ =~= old(s)@ + repeat_char(piece@[0], (i + 1) as nat));
        }
        i = i + 1;
    }
}

/// The underline row for the span `[start, end)`.
pub fn underline(start: u8, end: u8) -> (r: String)
    requires
        start <= end <= LINE_WIDTH,
    ensures
        r@ == underline_row(start as nat, end as nat),
        r@.len() == LINE_WIDTH,
{
    proof {
        reveal_strlit(" ");
        reveal_strlit("_");
    }
    let mut s = String::new();
    append_repeated(&mut s, " ", start);
    append_repeated(&mut s, "_", end - start);
    append_repeated(&mut s, " ", LINE_WIDTH - end);
    assert(s@ =~= underline_row(start as nat, end as nat));
    s
}

/// The underline row for option `selection` of `page`.
pub fn underline_for(page: UiPages, selection: usize) -> (r: String)
    requires
        selection < option_count(page),
    ensures
        r@ == underline_row(option_span(page, selection as int).0 as nat, option_span(page, selection as int).1 as nat),
{
    let (start, end) = span_of(page, selection);
    underline(start, end)
}

/// The decimal digit character of `d`.
pub open spec fn digit_char(d: int) -> char {
    if d == 0 { '0' } else if d == 1 { '1' } else if d == 2 { '2' } else if d == 3 { '3' } else if d == 4 {
        '4'
    } else if d == 5 { '5' } else if d == 6 { '6' } else if d == 7 { '7' } else if d == 8 { '8' } else { '9' }
}

/// `n` written with exactly three decimal digits.
pub open spec fn three_digits(n: int) -> Seq<char> {
    seq![digit_char(n / 100), digit_char((n / 10) % 10), digit_char(n % 10)]
}

/// Appends the digit `d`.
fn append_digit(s: &mut String, d: u16)
    requires
        d < 10,
    ensures
        final(s)@ == old(s)@.push(digit_char(d as int)),
{
    proof {
        reveal_strlit("0");
        reveal_strlit("1");
        reveal_strlit("2");
        reveal_strlit("3");
        reveal_strlit("4");
        reveal_strlit("5");
        reveal_strlit("6");
        reveal_strlit("7");
        reveal_strlit("8");
        reveal_strlit("9");
    }
    let piece = if d == 0 { "0" } else if d == 1 { "1" } else if d == 2 { "2" } else if d == 3 { "3" } else if d
        == 4 { "4" } else if d == 5 { "5" } else if d == 6 { "6" } else if d == 7 { "7" } else if d == 8 {
        "8"
    } else { "9" };
    s.append(piece);
    assert(s@ =~= old(s)@.push(digit_char(d as int)));
}

/// `n` with three digits, zero-padded on the left.
pub fn pad3(n: u16) -> (r: String)
    requires
        n < 1000,
    ensures
        r@ == three_digits(n as int),
{
    let mut s = String::new();
    append_digit(&mut s, n / 100);
    append_digit(&mut s, (n / 10) % 10);
    append_digit(&mut s, n % 10);
    assert(s@ =~= three_digits(n as int));
    s
}

/// The state of the screen being shown.
#[derive(Clone, Copy, Debug, PartialEq, Eq, Structural)]
pub struct Screen {
    pub page: UiPages,
    /// The highlighted option.
    pub current_selection: usize,
    /// The option underlined at the last redraw, `None` before the first.
    pub last_selection: Option<usize>,
    /// The hue being edited, in degrees.
    pub hue: u16,
    /// The brightness being edited, in percent.
    pub brightness: u8,
    /// The preset to move to; `0` when the operator picks one.
    pub target: i32,
    /// Enter was pressed on the target picker and awaits the change hook.
    pub enter_pressed: bool,
}

/// The screen after one button press, with its reaction.
#[verifier::opaque]
pub open spec fn react(s: Screen, b: Button) -> (Screen, Reaction) {
    let none = Reaction { next: None, effect: None };
    match b {
        Button::Home => if is_menu(s.page) || s.page == UiPages::CalibrationPage {
            (s, none)
        } else {
            (s, Reaction { next: Some(UiPages::Menu1), effect: None })
        },
        Button::Left => if s.current_selection > 0 {
            (Screen { current_selection: (s.current_selection - 1) as usize, ..s }, none)
        } else {
            (s, none)
        },
        Button::Right => if s.current_selection + 1 < option_count(s.page) {
            (Screen { current_selection: (s.current_selection + 1) as usize, ..s }, none)
        } else {
            (s, none)
        },
        Button::Enter => react_enter(s),
    }
}

/// The screen after an enter press, with its reaction.
#[verifier::opaque]
pub open spec fn react_enter(s: Screen) -> (Screen, Reaction) {
    let none = Reaction { next: None, effect: None };
    let sel = s.current_selection as int;
    match s.page {
        UiPages::Menu1 | UiPages::Menu2 | UiPages::Menu3 => if sel < menu_targets(s.page).len() {
            (s, Reaction { next: Some(menu_targets(s.page)[sel]), effect: None })
        } else {
            (s, none)
        },
        UiPages::ManualControll => if sel == 0 {
            (s, Reaction { next: None, effect: Some(Effect::Jog(Direction::Clockwise)) })
        } else if sel == 1 {
            (s, Reaction { next: Some(UiPages::Menu1), effect: Some(Effect::SavePosition) })
        } else if sel == 2 {
            (s, Reaction { next: None, effect: Some(Effect::Jog(Direction::CounterClockwise)) })
        } else {
            (s, none)
        },
        UiPages::LedColor | UiPages::LedBrightness | UiPages::LedMode => if editor_sibling(s.page, sel).is_some() {
            (s, Reaction { next: editor_sibling(s.page, sel), effect: None })
        } else if s.page == UiPages::LedColor && (sel == 1 || sel == 2) {
            (Screen { hue: hue_step(s.hue as int, sel == 1) as u16, ..s }, Reaction { next: None, effect: Some(Effect::ShowLed) })
        } else if s.page == UiPages::LedBrightness && (sel == 1 || sel == 2) {
            (
                Screen { brightness: brightness_step(s.brightness as int, sel == 1) as u8, ..s },
                Reaction { next: None, effect: Some(Effect::ShowLed) },
            )
        } else {
            (s, none)
        },
        UiPages::CalibrationPage => (s, Reaction { next: Some(UiPages::Menu1), effect: None }),
        UiPages::MoveToTarget => (Screen { enter_pressed: true, ..s }, none),
        UiPages::SettingsMenu => (s, none),
    }
}

/// What leaving a screen stores: an LED editor stores its appearance.
pub open spec fn teardown_effect(page: UiPages) -> Option<Effect> {
    if is_editor(page) {
        Some(Effect::SaveLed)
    } else {
        None
    }
}

/// The hook run once, right after the first underline is drawn.
#[verifier::opaque]
pub open spec fn pre_loop(s: Screen) -> (Screen, Reaction) {
    let none = Reaction { next: None, effect: None };
    if is_editor(s.page) {
        (s, Reaction { next: None, effect: Some(Effect::ShowInfo) })
    } else if s.page == UiPages::CalibrationPage {
        (s, Reaction { next: None, effect: Some(Effect::RunCalibration) })
    } else if s.page == UiPages::MoveToTarget && s.target != 0 {
        (s, Reaction { next: Some(UiPages::Menu1), effect: Some(Effect::MoveTo(s.target)) })
    } else {
        (s, none)
    }
}

/// The hook run after a tick in which a button was handled.
#[verifier::opaque]
pub open spec fn on_change(s: Screen) -> (Screen, Reaction) {
    let none = Reaction { next: None, effect: None };
    if is_editor(s.page) {
        (s, Reaction { next: None, effect: Some(Effect::ShowInfo) })
    } else if s.page == UiPages::MoveToTarget && s.enter_pressed {
        let target = (s.current_selection + 1) as i32;
        (
            Screen { enter_pressed: false, target: target, ..s },
            Reaction { next: Some(UiPages::Menu1), effect: Some(Effect::MoveTo(target)) },
        )
    } else {
        (s, none)
    }
}

/// The effects of a reaction, as a sequence.
pub open spec fn effects_of(r: Reaction) -> Seq<Effect> {
    match r.effect {
        Some(e) => seq![e],
        None => Seq::empty(),
    }
}

/// The effects on leaving `page`, as a sequence.
pub open spec fn teardown_effects(page: UiPages) -> Seq<Effect> {
    match teardown_effect(page) {
        Some(e) => seq![e],
        None => Seq::empty(),
    }
}

/// State of a tick part way through: the screen, the first next screen any
/// reaction asked for, the effects so far, and whether a button was handled.
pub struct TickState {
    pub screen: Screen,
    pub next: Option<UiPages>,
    pub effects: Seq<Effect>,
    pub changed: bool,
}

/// Handles button `b` if `held`: every held button is handled, and the first
/// next screen asked for is the one kept.
pub open spec fn press_if(t: TickState, b: Button, held: bool) -> TickState {
    if held {
        let (s2, r) = react(t.screen, b);
        TickState {
            screen: s2,
            next: if t.next.is_some() {
                t.next
            } else {
                r.next
            },
            effects: t.effects + effects_of(r),
            changed: true,
        }
    } else {
        t
    }
}

/// The buttons handled in polling order.
pub open spec fn after_buttons(s: Screen, b: Buttons) -> TickState {
    let t0 = TickState { screen: s, next: None, effects: Seq::empty(), changed: false };
    press_if(press_if(press_if(press_if(t0, Button::Home, b.home), Button::Left, b.left), Button::Right, b.right), Button::Enter, b.enter)
}

/// One whole tick of a screen: `(screen after, next screen, effects)`.
///
/// A preemption signal ends the screen at once. Otherwise the held buttons are
/// handled; a next screen from them ends the screen. Otherwise a changed
/// selection is underlined, the first underline runs the pre-loop hook, and a
/// handled button runs the change hook; either hook may end the screen too.
/// Every end of the screen runs its teardown.
pub open spec fn tick_spec(s: Screen, b: Buttons, preempt: Option<UiPages>) -> (Screen, Option<UiPages>, Seq<Effect>) {
    if preempt.is_some() {
        (s, preempt, teardown_effects(s.page))
    } else {
        tick_rest(s.page, after_buttons(s, b))
    }
}

/// The part of a tick after the buttons were handled, on a screen of `page`.
pub open spec fn tick_rest(page: UiPages, t: TickState) -> (Screen, Option<UiPages>, Seq<Effect>) {
    if t.next.is_some() {
        (t.screen, t.next, t.effects + teardown_effects(page))
    } else {
        let s1 = t.screen;
        let redraw = s1.last_selection != Some(s1.current_selection);
        let first = s1.last_selection.is_none();
        let s2 = Screen { last_selection: Some(s1.current_selection), ..s1 };
        let e1 = if redraw {
            t.effects.push(Effect::Underline(s1.current_selection))
        } else {
            t.effects
        };
        let (s3, r3) = if first && is_reactive(page) {
            pre_loop(s2)
        } else {
            (s2, Reaction { next: None, effect: None })
        };
        let e3 = e1 + effects_of(r3);
        if r3.next.is_some() {
            (s3, r3.next, e3 + teardown_effects(page))
        } else if t.changed {
            let (s4, r4) = on_change(s3);
            let e4 = e3 + effects_of(r4);
            if r4.next.is_some() {
                (s4, r4.next, e4 + teardown_effects(page))
            } else {
                (s4, None, e4)
            }
        } else {
            (s3, None, e3)
        }
    }
}

impl Screen {
    /// The selection is one of the page's options and the edited values are
    /// in range.
    pub open spec fn wf(self) -> bool {
        &&& self.current_selection < option_count(self.page)
        &&& self.last_selection matches Some(l) ==> l < option_count(self.page)
        &&& self.hue < HUE_CIRCLE
        &&& self.brightness <= 100
    }

    /// Opens `page`. The second menu starts on its last option, every other
    /// screen on its first. `hue` is taken modulo a full turn, `brightness`
    /// is held to at most `100`; `target` is the preset a move screen goes to
    /// on its own, `0` for none.
    pub fn open(page: UiPages, hue: u16, brightness: u8, target: i32) -> (s: Screen)
        ensures
            s.wf(),
            s.page == page,
            s.current_selection == (if page == UiPages::Menu2 {
                2usize
            } else {
                0usize
            }),
            s.last_selection.is_none(),
            s.hue == hue % HUE_CIRCLE,
            s.brightness == (if brightness > 100 {
                100
            } else {
                brightness
            }),
            s.target == target,
            !s.enter_pressed,
    {
        Screen {
            page,
            current_selection: if let UiPages::Menu2 = page {
                2
            } else {
                0
            },
            last_selection: None,
            hue: hue % HUE_CIRCLE,
            brightness: if brightness > 100 {
                100
            } else {
                brightness
            },
            target,
            enter_pressed: false,
        }
    }

    /// Reacts to one button press.
    pub fn press(&mut self, b: Button) -> (r: Reaction)
        requires
            old(self).wf(),
        ensures
            final(self).wf(),
            final(self).page == old(self).page,
            (*final(self), r) == react(*old(self), b),
    {
        reveal(react);
        let none = Reaction { next: None, effect: None };
        match b {
            Button::Home => match self.page {
                UiPages::Menu1 | UiPages::Menu2 | UiPages::Menu3 | UiPages::CalibrationPage => none,
                _ => Reaction { next: Some(UiPages::Menu1), effect: None },
            },
            Button::Left => {
                if self.current_selection > 0 {
                    self.current_selection = self.current_selection - 1;
                }
                none
            },
            Button::Right => {
                if self.current_selection + 1 < options_len(self.page) {
                    self.current_selection = self.current_selection + 1;
                }
                none
            },
            Button::Enter => self.press_enter(),
        }
    }

    fn press_enter(&mut self) -> (r: Reaction)
        requires
            old(self).wf(),
        ensures
            final(self).wf(),
            final(self).page == old(self).page,
            (*final(self), r) == react_enter(*old(self)),
    {
        reveal(react_enter);
        let none = Reaction { next: None, effect: None };
        let sel = self.current_selection;
        match self.page {
            UiPages::Menu1 => Reaction {
                next: Some(if sel == 0 {
                    UiPages::Menu2
                } else if sel == 1 {
                    UiPages::ManualControll
                } else {
                    UiPages::LedColor
                }),
                effect: None,
            },
            UiPages::Menu2 => Reaction {
                next: Some(if sel == 0 {
                    UiPages::CalibrationPage
                } else if sel == 1 {
                    UiPages::MoveToTarget
                } else {
                    UiPages::Menu1
                }),
                effect: None,
            },
            UiPages::Menu3 => Reaction {
                next: Some(if sel == 0 {
                    UiPages::Menu1
                } else {
                    UiPages::CalibrationPage
                }),
                effect: None,
            },
            UiPages::ManualControll => if sel == 0 {
                Reaction { next: None, effect: Some(Effect::Jog(Direction::Clockwise)) }
            } else if sel == 1 {
                Reaction { next: Some(UiPages::Menu1), effect: Some(Effect::SavePosition) }
            } else {
                Reaction { next: None, effect: Some(Effect::Jog(Direction::CounterClockwise)) }
            },
            UiPages::LedColor | UiPages::LedBrightness | UiPages::LedMode => {
                if sel == 0 || sel == 3 {
                    let next = match self.page {
                        UiPages::LedColor => if sel == 0 {
                            UiPages::LedBrightness
                        } else {
                            UiPages::LedMode
                        },
                        UiPages::LedBrightness => if sel == 0 {
                            UiPages::LedMode
                        } else {
                            UiPages::LedColor
                        },
                        _ => if sel == 0 {
                            UiPages::LedColor
                        } else {
                            UiPages::LedBrightness
                        },
                    };
                    Reaction { next: Some(next), effect: None }
                } else if let UiPages::LedColor = self.page {
                    self.hue = adjust_hue(self.hue, sel == 1);
                    Reaction { next: None, effect: Some(Effect::ShowLed) }
                } else if let UiPages::LedBrightness = self.page {
                    self.brightness = adjust_brightness(self.brightness, sel == 1);
                    Reaction { next: None, effect: Some(Effect::ShowLed) }
                } else {
                    none
                }
            },
            UiPages::CalibrationPage => Reaction { next: Some(UiPages::Menu1), effect: None },
            UiPages::MoveToTarget => {
                self.enter_pressed = true;
                none
            },
            UiPages::SettingsMenu => none,
        }
    }

    fn teardown(&self) -> (r: Option<Effect>)
        ensures
            r == teardown_effect(self.page),
    {
        match self.page {
            UiPages::LedColor | UiPages::LedBrightness | UiPages::LedMode => Some(Effect::SaveLed),
            _ => None,
        }
    }

    fn run_pre_loop(&mut self) -> (r: Reaction)
        requires
            old(self).wf(),
        ensures
            final(self).wf(),
            final(self).page == old(self).page,
            (*final(self), r) == pre_loop(*old(self)),
    {
        reveal(pre_loop);
        match self.page {
            UiPages::LedColor | UiPages::LedBrightness | UiPages::LedMode => Reaction {
                next: None,
                effect: Some(Effect::ShowInfo),
            },
            UiPages::CalibrationPage => Reaction { next: None, effect: Some(Effect::RunCalibration) },
            UiPages::MoveToTarget => if self.target != 0 {
                Reaction { next: Some(UiPages::Menu1), effect: Some(Effect::MoveTo(self.target)) }
            } else {
                Reaction { next: None, effect: None }
            },
            _ => Reaction { next: None, effect: None },
        }
    }

    fn run_change(&mut self) -> (r: Reaction)
        requires
            old(self).wf(),
        ensures
            final(self).wf(),
            final(self).page == old(self).page,
            (*final(self), r) == on_change(*old(self)),
    {
        reveal(on_change);
        match self.page {
            UiPages::LedColor | UiPages::LedBrightness | UiPages::LedMode => Reaction {
                next: None,
                effect: Some(Effect::ShowInfo),
            },
            UiPages::MoveToTarget => if self.enter_pressed {
                let target = self.current_selection as i32 + 1;
                self.enter_pressed = false;
                self.target = target;
                Reaction { next: Some(UiPages::Menu1), effect: Some(Effect::MoveTo(target)) }
            } else {
                Reaction { next: None, effect: None }
            },
            _ => Reaction { next: None, effect: None },
        }
    }

    /// Handles `b` when `held`, folding its reaction into the tick so far.
    fn press_held(&mut self, b: Button, held: bool, next: &mut Option<UiPages>, effects: &mut Vec<Effect>, changed: &mut bool)
        requires
            old(self).wf(),
        ensures
            final(self).wf(),
            final(self).page == old(self).page,
            ({
                let t = press_if(
                    TickState { screen: *old(self), next: *old(next), effects: old(effects)@, changed: *old(changed) },
                    b,
                    held,
                );
                &&& *final(self) == t.screen
                &&& *final(next) == t.next
                &&& final(effects)@ == t.effects
                &&& *final(changed) == t.changed
            }),
    {
        if held {
            let r = self.press(b);
            if next.is_none() {
                *next = r.next;
            }
            if let Some(e) = r.effect {
                effects.push(e);
            }
            *changed = true;
            assert(effects@ =~= old(effects)@ + effects_of(r));
        }
    }

    /// Runs one polling tick: `preempt` is the preemption signal, `buttons`
    /// the buttons held this tick. Returns the next screen, when this one is
    /// done, and the effects to carry out in order.
    pub fn tick(&mut self, buttons: Buttons, preempt: Option<UiPages>) -> (r: TickOutcome)
        requires
            old(self).wf(),
        ensures
            final(self).wf(),
            (*final(self), r.next, r.effects@) == tick_spec(*old(self), buttons, preempt),
    {
        let page = self.page;
        let mut effects: Vec<Effect> = Vec::new();
        if preempt.is_some() {
            if let Some(e) = self.teardown() {
                effects.push(e);
            }
            assert(effects@ =~= teardown_effects(page));
            return TickOutcome { next: preempt, effects };
        }
        let mut next: Option<UiPages> = None;
        let mut changed = false;
        self.press_held(Button::Home, buttons.home, &mut next, &mut effects, &mut changed);
        self.press_held(Button::Left, buttons.left, &mut next, &mut effects, &mut changed);
        self.press_held(Button::Right, buttons.right, &mut next, &mut effects, &mut changed);
        self.press_held(Button::Enter, buttons.enter, &mut next, &mut effects, &mut changed);
        assert(effects@ =~= Seq::<Effect>::empty() + effects@);
        self.finish_tick(page, next, effects, changed)
    }

    /// Completes a tick once the buttons are handled: ends the screen on a
    /// requested next screen, else redraws and runs the hooks.
    fn finish_tick(&mut self, page: UiPages, next: Option<UiPages>, effects: Vec<Effect>, changed: bool) -> (r: TickOutcome)
        requires
            old(self).wf(),
            old(self).page == page,
        ensures
            final(self).wf(),
            (*final(self), r.next, r.effects@) == tick_rest(
                page,
                TickState { screen: *old(self), next: next, effects: effects@, changed: changed },
            ),
    {
        let mut effects = effects;
        if next.is_some() {
            let ghost before = effects@;
            if let Some(e) = self.teardown() {
                effects.push(e);
            }
            assert(effects@ =~= before + teardown_effects(page));
            return TickOutcome { next, effects };
        }
        let sel = self.current_selection;
        let first = self.last_selection.is_none();
        let redraw = match self.last_selection {
            Some(l) => l != sel,
            None => true,
        };
        if redraw {
            effects.push(Effect::Underline(sel));
        }
        self.last_selection = Some(sel);
        let reactive = match page {
            UiPages::LedColor | UiPages::LedBrightness | UiPages::LedMode | UiPages::CalibrationPage
            | UiPages::MoveToTarget => true,
            _ => false,
        };
        let r3 = if first && reactive {
            self.run_pre_loop()
        } else {
            Reaction { next: None, effect: None }
        };
        let ghost e1 = effects@;
        if let Some(e) = r3.effect {
            effects.push(e);
        }
        assert(effects@ =~= e1 + effects_of(r3));
        if r3.next.is_some() {
            let ghost before = effects@;
            if let Some(e) = self.teardown() {
                effects.push(e);
            }
            assert(effects@ =~= before + teardown_effects(page));
            return TickOutcome { next: r3.next, effects };
        }
        if changed {
            let r4 = self.run_change();
            let ghost e3 = effects@;
            if let Some(e) = r4.effect {
                effects.push(e);
            }
            assert(effects@ =~= e3 + effects_of(r4));
            if r4.next.is_some() {
                let ghost before = effects@;
                if let Some(e) = self.teardown() {
                    effects.push(e);
                }
                assert(effects@ =~= before + teardown_effects(page));
                return TickOutcome { next: r4.next, effects };
            }
        }
        TickOutcome { next: None, effects }
    }

    /// The value line of an LED editor: the hue as `ddd/360`, the brightness
    /// as `ddd%`, `NA` on the mode editor and elsewhere.
    pub fn info_text(&self) -> (r: String)
        requires
            self.wf(),
        ensures
            self.page == UiPages::LedColor ==> r@ == three_digits(self.hue as int) + "/360"@,
            self.page == UiPages::LedBrightness ==> r@ == three_digits(self.brightness as int) + "%"@,
            self.page != UiPages::LedColor && self.page != UiPages::LedBrightness ==> r@ == "NA"@,
    {
        match self.page {
            UiPages::LedColor => {
                let mut s = pad3(self.hue);
                s.append("/360");
                s
            },
            UiPages::LedBrightness => {
                let mut s = pad3(self.brightness as u16);
                s.append("%");
                s
            },
            _ => String::from_str("NA"),
        }
    }

    /// Where the calibration screen goes once the procedure has stopped: back
    /// to the main menu when it did not produce a rotation length; it stays,
    /// showing the result, when it did.
    pub fn calibration_finished(&self, outcome: Calibration) -> (r: Option<UiPages>)
        ensures
            r == (if outcome is Done {
                None::<UiPages>
            } else {
                Some(UiPages::Menu1)
            }),
    {
        if let Calibration::Done(_) = outcome {
            None
        } else {
            Some(UiPages::Menu1)
        }
    }
}

} // verus!

//! LED appearance: the editor's hue and brightness steps, the strip's fill
//! colour, and the stored LED record with its fallback.
//!
//! Hue wraps around the colour circle (`355 + 10` gives `5`), so that a full
//! turn of thirty-six `+10` steps comes back to the starting hue. Brightness
//! is a percentage and clamps at `0` and `100`.
use vstd::prelude::*;

verus! {

/// One press of an adjust button changes the value by this much.
pub const ADJUST_STEP: u16 = 10;

/// Degrees in the colour circle.
pub const HUE_CIRCLE: u16 = 360;

/// The brightness of a fresh or missing LED record, in percent.
pub const DEFAULT_BRIGHTNESS: i32 = 10;

/// Brightness after one step up or down, clamped to `[0, 100]`.
pub open spec fn brightness_step(b: int, up: bool) -> int {
    let raw = if up {
        b + 10
    } else {
        b - 10
    };
    if raw > 100 {
        100
    } else if raw < 0 {
        0
    } else {
        raw
    }
}

/// Adjusts a brightness percentage by one step; values beyond `100` come
/// back to `100` at the first step.
pub fn adjust_brightness(brightness: u8, up: bool) -> (r: u8)
    ensures
        r == brightness_step(brightness as int, up),
        r <= 100,
{
    let raw: i16 = if up {
        brightness as i16 + ADJUST_STEP as i16
    } else {
        brightness as i16 - ADJUST_STEP as i16
    };
    if raw > 100 {
        100
    } else if raw < 0 {
        0
    } else {
        raw as u8
    }
}

/// Brightness after a sequence of steps, `true` for up.
pub open spec fn brightness_after(b: int, steps: Seq<bool>) -> int
    decreases steps.len(),
{
    if steps.len() == 0 {
        b
    } else {
        brightness_step(brightness_after(b, steps.drop_last()), steps.last())
    }
}

/// Any sequence of at least one step leaves the brightness within `[0, 100]`,
/// and from a value within `[0, 100]` every sequence does.
pub proof fn lemma_brightness_stays_in_range(b: int, steps: Seq<bool>)
    requires
        steps.len() > 0 || 0 <= b <= 100,
    ensures
        0 <= brightness_after(b, steps) <= 100,
    decreases steps.len(),
{
    if steps.len() > 0 {
        if steps.len() > 1 {
            lemma_brightness_stays_in_range(b, steps.drop_last());
        }
    }
}

/// Hue after one step up or down, wrapping around the colour circle.
pub open spec fn hue_step(h: int, up: bool) -> int {
    if up {
        if h + 10 >= 360 {
            h + 10 - 360
        } else {
            h + 10
        }
    } else {
        if h < 10 {
            h + 350
        } else {
            h - 10
        }
    }
}

/// Adjusts a hue in degrees by one step, wrapping at `0` and `360`.
pub fn adjust_hue(hue: u16, up: bool) -> (r: u16)
    requires
        hue < HUE_CIRCLE,
    ensures
        r == hue_step(hue as int, up),
        r < HUE_CIRCLE,
{
    if up {
        if hue + ADJUST_STEP >= HUE_CIRCLE {
            hue + ADJUST_STEP - HUE_CIRCLE
        } else {
            hue + ADJUST_STEP
        }
    } else {
        if hue < ADJUST_STEP {
            hue + (HUE_CIRCLE - ADJUST_STEP)
        } else {
            hue - ADJUST_STEP
        }
    }
}

/// Hue after `n` steps up.
pub open spec fn hue_after_ups(h: int, n: nat) -> int
    decreases n,
{
    if n == 0 {
        h
    } else {
        hue_step(hue_after_ups(h, (n - 1) as nat), true)
    }
}

/// Up to a full turn, `n` steps up add `10 * n` degrees, less one turn once
/// the sum passes `360`.
pub proof fn lemma_hue_after_ups(h: int, n: nat)
    requires
        0 <= h < 360,
        n <= 36,
    ensures
        hue_after_ups(h, n) == if h + 10 * n >= 360 {
            h + 10 * n - 360
        } else {
            h + 10 * n
        },
    decreases n,
{
    if n > 0 {
        lemma_hue_after_ups(h, (n - 1) as nat);
    }
}

/// Thirty-six steps up make a full turn and give back the starting hue.
pub proof fn lemma_full_turn_of_hue(h: int)
    requires
        0 <= h < 360,
    ensures
        hue_after_ups(h, 36) == h,
{
    lemma_hue_after_ups(h, 36);
}

/// One colour channel scaled by a brightness percentage, rounded to the
/// nearest integer with halves rounded up.
pub open spec fn scaled(channel: int, brightness: int) -> int {
    (channel * brightness + 50) / 100
}

/// Scales one colour channel by `brightness` percent.
pub fn scale_channel(channel: u8, brightness: u8) -> (r: u8)
    requires
        brightness <= 100,
    ensures
        r == scaled(channel as int, brightness as int),
{
    proof {
        assert(channel as int * brightness as int <= 255 * 100) by (nonlinear_arith)
            requires
                channel <= 255,
                brightness <= 100,
        ;
    }
    ((channel as u32 * brightness as u32 + 50) / 100) as u8
}

/// How the strip shows an LED appearance.
#[derive(Clone, Copy, Debug, PartialEq, Eq, Structural)]
pub enum LedMode {
    /// Every pixel shows the colour.
    Solid,
    /// A mode this firmware does not drive: the strip is left as it is.
    Unsupported,
}

/// Reads a stored mode name: `"solid"` is [`LedMode::Solid`], any other
/// name is not driven.
pub fn mode_from_name(name: &str) -> (m: LedMode)
    ensures
        (m == LedMode::Solid) <==> name@ == "solid"@,
{
    proof {
        reveal_strlit("solid");
    }
    let solid = "solid";
    let n = name.unicode_len();
    if n != 5 {
        return LedMode::Unsupported;
    }
    let mut i: usize = 0;
    while i < 5
        invariant
            n == name@.len(),
            n == 5,
            solid@ == "solid"@,
            solid@.len() == 5,
            i <= 5,
            forall|j: int| 0 <= j < i ==> name@[j] == solid@[j],
        decreases 5 - i,
    {
        if name.get_char(i) != solid.get_char(i) {
            return LedMode::Unsupported;
        }
        i = i + 1;
    }
    assert(name@ =~= "solid"@);
    LedMode::Solid
}

/// What the strip is filled with for an appearance: the colour scaled by the
/// brightness when the mode is solid and a colour is given, nothing otherwise.
pub fn strip_fill(mode: LedMode, color: Option<[u8; 3]>, brightness: Option<u8>) -> (r: Option<[u8; 3]>)
    requires
        brightness matches Some(b) ==> b <= 100,
    ensures
        (mode == LedMode::Unsupported || color.is_none()) ==> r.is_none(),
        mode == LedMode::Solid && color.is_some() ==> (r matches Some(out) && ({
            let c = color.unwrap();
            match brightness {
                Some(b) => forall|k: int| 0 <= k < 3 ==> out[k] as int == scaled(c[k] as int, b as int),
                None => out == c,
            }
        })),
{
    match mode {
        LedMode::Unsupported => None,
        LedMode::Solid => match color {
            None => None,
            Some(c) => match brightness {
                None => Some(c),
                Some(b) => {
                    let out = [scale_channel(c[0], b), scale_channel(c[1], b), scale_channel(c[2], b)];
                    Some(out)
                },
            },
        },
    }
}

/// A stored LED appearance of a preset.
#[derive(Clone, Debug)]
pub struct Led {
    pub id: i32,
    /// Six hexadecimal digits, red, green, blue.
    pub color: String,
    /// Percent.
    pub brightness: i32,
    pub mode: String,
    pub associated_preset: Option<i32>,
}

/// The appearance used when a preset has no LED record: red, dim, solid.
pub fn default_led(preset: i32) -> (l: Led)
    ensures
        l.id == 0,
        l.color@ == "ff0000"@,
        l.brightness == DEFAULT_BRIGHTNESS,
        l.mode@ == "solid"@,
        l.associated_preset == Some(preset),
{
    Led {
        id: 0,
        color: String::from_str("ff0000"),
        brightness: DEFAULT_BRIGHTNESS,
        mode: String::from_str("solid"),
        associated_preset: Some(preset),
    }
}

/// The appearance of `preset` given its stored LED records: the first one,
/// or [`default_led`] when there is none.
pub fn led_state_or_default(leds: Vec<Led>, preset: i32) -> (l: Led)
    ensures
        leds@.len() > 0 ==> l == leds@[0],
        leds@.len() == 0 ==> {
            &&& l.id == 0
            &&& l.color@ == "ff0000"@
            &&& l.brightness == DEFAULT_BRIGHTNESS
            &&& l.mode@ == "solid"@
            &&& l.associated_preset == Some(preset)
        },
{
    let mut leds = leds;
    if leds.len() > 0 {
        leds.swap_remove(0)
    } else {
        default_led(preset)
    }
}

} // verus!

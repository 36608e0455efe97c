//! The fade: the keyboard backlight moves from where it is to a target one
//! percent at a time, so that the change looks smooth.

use vstd::prelude::*;
use crate::command::{
    GetKeyboardBacklightResponse, LedBrightnesses, LedControl, LedFlags, LedId,
    SetKeyboardBacklight,
};
use crate::wire::zeros;

verus! {

/// Pause after each step of a fade, in milliseconds.
pub const STEP_DELAY_MS: u64 = 3;

/// What a step of a fade does to the power LED. Software can only switch
/// that LED off or hand it back to the controller: it cannot dim it.
#[derive(Debug, Clone, Copy, PartialEq, Eq, Structural)]
pub enum LedAction {
    /// Switch the LED off.
    Off,
    /// Let the controller drive the LED again.
    Auto,
}

/// One step of a fade: the LED command, where there is one, is issued first,
/// then the backlight is set to `percent`.
#[derive(Debug, Clone, Copy, PartialEq, Eq, Structural)]
pub struct FadeStep {
    pub percent: u8,
    pub led: Option<LedAction>,
}

/// The brightness a fade starts from: the reported one, or 0 where the
/// backlight is disabled.
pub open spec fn spec_fade_start(state: GetKeyboardBacklightResponse) -> u8 {
    if state.enabled != 0 {
        state.percent
    } else {
        0
    }
}

/// Number of steps from `cur` to `target`.
pub open spec fn fade_len(cur: u8, target: u8) -> nat {
    if cur <= target {
        (target - cur) as nat
    } else {
        (cur - target) as nat
    }
}

/// The brightness that step `i` of the fade from `cur` to `target` sets,
/// counting from 0.
pub open spec fn fade_percent(cur: u8, target: u8, i: int) -> u8 {
    if cur <= target {
        (cur + 1 + i) as u8
    } else {
        (cur - 1 - i) as u8
    }
}

/// What the step that sets the brightness to `percent` does to the power
/// LED: off at 0, back to the controller at 1, nothing at any other value,
/// and nothing at all unless the LED is under control.
pub open spec fn spec_led_action(power: bool, percent: u8) -> Option<LedAction> {
    if power && percent == 0 {
        Some(LedAction::Off)
    } else if power && percent == 1 {
        Some(LedAction::Auto)
    } else {
        None
    }
}

/// The step that sets the brightness to `percent`.
pub open spec fn spec_step(power: bool, percent: u8) -> FadeStep {
    FadeStep { percent, led: spec_led_action(power, percent) }
}

/// The steps of the fade from `cur` to `target`, in order.
pub open spec fn fade_sequence(cur: u8, target: u8, power: bool) -> Seq<FadeStep> {
    Seq::new(fade_len(cur, target), |i: int| spec_step(power, fade_percent(cur, target, i)))
}

impl LedAction {
    /// The command that carries out this action on the power LED.
    pub fn command(self) -> (cmd: LedControl)
        ensures
            cmd.led_id@ == 1,
            cmd.flags@ == (match self {
                LedAction::Off => 0u8,
                LedAction::Auto => 2u8,
            }),
            cmd.brightness@ == zeros(6),
    {
        LedControl {
            led_id: LedId::power(),
            flags: match self {
                LedAction::Off => LedFlags::none(),
                LedAction::Auto => LedFlags::auto(),
            },
            brightness: LedBrightnesses::default(),
        }
    }
}

impl FadeStep {
    /// The command that sets the backlight to the brightness of this step.
    pub fn command(&self) -> (cmd: SetKeyboardBacklight)
        ensures
            cmd.percent == self.percent,
    {
        SetKeyboardBacklight { percent: self.percent }
    }
}

/// The brightness a fade starts from, given the state that the controller
/// reported.
pub fn fade_start(state: &GetKeyboardBacklightResponse) -> (cur: u8)
    ensures
        cur == spec_fade_start(*state),
{
    if state.enabled != 0 {
        state.percent
    } else {
        0
    }
}

/// The next step of a fade that stands at `cur`, or `None` where the target
/// is reached.
pub fn fade_step(cur: u8, target: u8, power: bool) -> (step: Option<FadeStep>)
    ensures
        cur == target ==> step is None,
        cur != target ==> step == Some(fade_sequence(cur, target, power)[0]),
{
    if cur == target {
        return None;
    }
    let percent: u8 = if cur > target {
        cur - 1
    } else {
        cur + 1
    };
    let led = if power && percent == 0 {
        Some(LedAction::Off)
    } else if power && percent == 1 {
        Some(LedAction::Auto)
    } else {
        None
    };
    Some(FadeStep { percent, led })
}

/// The steps that take the backlight from the reported `state` to `target`.
/// With `power` set the power LED follows: it is switched off by the step
/// that reaches 0 and handed back to the controller by the step that reaches
/// 1.
pub fn fade_to(state: &GetKeyboardBacklightResponse, target: u8, power: bool) -> (steps: Vec<
    FadeStep,
>)
    ensures
        steps@ == fade_sequence(spec_fade_start(*state), target, power),
{
    let start = fade_start(state);
    let mut cur = start;
    let mut steps: Vec<FadeStep> = Vec::new();
    loop
        invariant
            steps@.len() + fade_len(cur, target) == fade_len(start, target),
            start <= target ==> start <= cur <= target,
            start > target ==> target <= cur <= start,
            steps@ == fade_sequence(start, target, power).subrange(0, steps@.len() as int),
        ensures
            steps@ == fade_sequence(start, target, power),
        decreases fade_len(cur, target),
    {
        match fade_step(cur, target, power) {
            None => {
                assert(fade_sequence(start, target, power).subrange(0, steps@.len() as int)
                    =~= fade_sequence(start, target, power));
                break ;
            },
            Some(step) => {
                let ghost done = steps@.len() as int;
                assert(step == fade_sequence(start, target, power)[done]);
                steps.push(step);
                cur = step.percent;
                assert(steps@ =~= fade_sequence(start, target, power).subrange(0, done + 1));
            },
        }
    }
    steps
}

/// A fade moves by exactly one percent per step, always toward the target,
/// never beyond it, and ends on the target.
pub proof fn lemma_fade_monotonic(cur: u8, target: u8, power: bool)
    ensures
        fade_sequence(cur, target, power).len() == fade_len(cur, target),
        cur == target <==> fade_sequence(cur, target, power).len() == 0,
        cur < target ==> fade_sequence(cur, target, power)[0].percent == cur + 1,
        cur > target ==> fade_sequence(cur, target, power)[0].percent == cur - 1,
        cur != target ==> fade_sequence(cur, target, power).last().percent == target,
        forall|i: int|
            0 <= i < fade_len(cur, target) - 1 ==> #[trigger] fade_sequence(cur, target, power)[i
                + 1].percent - fade_sequence(cur, target, power)[i].percent == (if cur < target {
                1int
            } else {
                -1int
            }),
        forall|i: int|
            0 <= i < fade_len(cur, target) ==> {
                let p = #[trigger] fade_sequence(cur, target, power)[i].percent;
                (cur <= p <= target) || (target <= p <= cur)
            },
{
}

/// With the power LED under control, a fade switches it off exactly where a
/// step reaches 0, hands it back to the controller exactly where a step
/// reaches 1, and leaves it alone at every other step. Without, no step
/// touches it.
pub proof fn lemma_led_thresholds(cur: u8, target: u8, power: bool)
    ensures
        forall|i: int|
            0 <= i < fade_len(cur, target) ==> {
                let step = #[trigger] fade_sequence(cur, target, power)[i];
                &&& step.led == Some(LedAction::Off) <==> power && step.percent == 0
                &&& step.led == Some(LedAction::Auto) <==> power && step.percent == 1
                &&& step.led is None <==> !power || step.percent > 1
            },
        power ==> ((exists|i: int|
            0 <= i < fade_len(cur, target) && (#[trigger] fade_sequence(cur, target, power)[i]).led
                == Some(LedAction::Off)) <==> (exists|i: int|
            0 <= i < fade_len(cur, target) && (#[trigger] fade_sequence(
                cur,
                target,
                power,
            )[i]).percent == 0)),
        power ==> ((exists|i: int|
            0 <= i < fade_len(cur, target) && (#[trigger] fade_sequence(cur, target, power)[i]).led
                == Some(LedAction::Auto)) <==> (exists|i: int|
            0 <= i < fade_len(cur, target) && (#[trigger] fade_sequence(
                cur,
                target,
                power,
            )[i]).percent == 1)),
{
}

} // verus!

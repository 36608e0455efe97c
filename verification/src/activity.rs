//! Activity and idleness.
//!
//! Listeners on the input devices record the time of the last input in a
//! shared clock. The brightness controller waits on that clock: a wait that
//! ends because the clock moved means activity, one that ends because the
//! timeout elapsed means idleness. Whenever that classification changes, the
//! controller asks for a fade, to the configured brightness or to darkness.

use vstd::prelude::*;
use vstd::string::*;

verus! {

/// Pause of a listener between two fetches of input events, in
/// milliseconds, so that it does not spin.
pub const LISTENER_DELAY_MS: u64 = 500;

/// Whether the user has been seen recently.
#[derive(Debug, Clone, Copy, PartialEq, Eq, Structural)]
pub enum Activity {
    Active,
    Idle,
}

/// The time of the last observed input. It never moves backwards.
#[derive(Debug)]
pub struct ActivityClock {
    last_activity: u64,
}

impl View for ActivityClock {
    type V = u64;

    closed spec fn view(&self) -> u64 {
        self.last_activity
    }
}

impl ActivityClock {
    /// A clock that starts at `now`.
    pub fn new(now: u64) -> (clock: Self)
        ensures
            clock@ == now,
    {
        ActivityClock { last_activity: now }
    }

    /// The time of the last observed input.
    pub fn last_activity(&self) -> (last: u64)
        ensures
            last == self@,
    {
        self.last_activity
    }

    /// Records input observed at `now`. A time that lies before the one
    /// already recorded leaves the clock as it is.
    pub fn record(&mut self, now: u64)
        ensures
            final(self)@ == (if now >= old(self)@ {
                now
            } else {
                old(self)@
            }),
    {
        if now >= self.last_activity {
            self.last_activity = now;
        }
    }
}

/// What a waiter does next.
#[derive(Debug, Clone, Copy, PartialEq, Eq, Structural)]
pub enum Wait {
    /// Neither has the clock moved nor has the timeout elapsed: sleep for
    /// at most the remaining time, or until woken, and look again.
    Continue { remaining: u64 },
    /// The wait is over with this classification.
    Done(Activity),
}

/// What a waiter does next, given the time `seen` that the clock showed when
/// the wait began, the time `last` that it shows now, the time `elapsed`
/// since the wait began and the `timeout`, both in the same unit. A clock
/// that moved means activity, however long it took. An unchanged clock means
/// idleness once the timeout has elapsed, and more waiting before.
pub open spec fn spec_wait_step(seen: u64, last: u64, elapsed: u64, timeout: u64) -> Wait {
    if last != seen {
        Wait::Done(Activity::Active)
    } else if elapsed >= timeout {
        Wait::Done(Activity::Idle)
    } else {
        Wait::Continue { remaining: (timeout - elapsed) as u64 }
    }
}

/// What a waiter on `clock` does next; see `spec_wait_step`.
pub fn wait_step(clock: &ActivityClock, seen: u64, elapsed: u64, timeout: u64) -> (next: Wait)
    ensures
        next == spec_wait_step(seen, clock@, elapsed, timeout),
{
    if clock.last_activity != seen {
        Wait::Done(Activity::Active)
    } else if elapsed >= timeout {
        Wait::Done(Activity::Idle)
    } else {
        Wait::Continue { remaining: timeout - elapsed }
    }
}

/// The brightness that the backlight fades to on entering `activity`.
pub open spec fn spec_target(activity: Activity, brightness: u8) -> u8 {
    match activity {
        Activity::Active => brightness,
        Activity::Idle => 0,
    }
}

/// The target of the fade that a classification calls for: none where it
/// confirms the recorded state.
pub open spec fn spec_fade_target(state: Option<Activity>, activity: Activity, brightness: u8)
    -> Option<u8> {
    if state == Some(activity) {
        None
    } else {
        Some(spec_target(activity, brightness))
    }
}

/// What the brightness controller knows.
pub struct ControllerState {
    /// The last classification, or `None` before the first.
    pub state: Option<Activity>,
    /// The brightness while the user is active.
    pub brightness: u8,
}

/// The state machine that turns classifications into fades.
#[derive(Debug)]
pub struct BrightnessController {
    state: Option<Activity>,
    brightness: u8,
}

impl View for BrightnessController {
    type V = ControllerState;

    closed spec fn view(&self) -> ControllerState {
        ControllerState { state: self.state, brightness: self.brightness }
    }
}

impl BrightnessController {
    /// A controller that has classified nothing yet.
    pub fn new(brightness: u8) -> (controller: Self)
        ensures
            controller@.state is None,
            controller@.brightness == brightness,
    {
        BrightnessController { state: None, brightness }
    }

    /// The last classification, or `None` before the first.
    pub fn state(&self) -> (state: Option<Activity>)
        ensures
            state == self@.state,
    {
        self.state
    }

    /// Records the classification that a wait ended with. Returns the target
    /// of the fade to run where the classification differs from the recorded
    /// one, and `None` where it confirms it.
    pub fn observe(&mut self, activity: Activity) -> (fade: Option<u8>)
        ensures
            fade == spec_fade_target(old(self)@.state, activity, old(self)@.brightness),
            final(self)@.state == Some(activity),
            final(self)@.brightness == old(self)@.brightness,
    {
        let unchanged = match self.state {
            Some(Activity::Active) => match activity {
                Activity::Active => true,
                Activity::Idle => false,
            },
            Some(Activity::Idle) => match activity {
                Activity::Active => false,
                Activity::Idle => true,
            },
            None => false,
        };
        if unchanged {
            None
        } else {
            self.state = Some(activity);
            match activity {
                Activity::Active => Some(self.brightness),
                Activity::Idle => Some(0),
            }
        }
    }
}

/// While the clock stands still, a wait classifies nothing before the
/// timeout has elapsed and classifies idleness from then on; that calls for
/// a fade to darkness unless the controller is idle already.
pub proof fn lemma_idle_after_timeout(
    seen: u64,
    elapsed: u64,
    timeout: u64,
    state: Option<Activity>,
    brightness: u8,
)
    ensures
        elapsed < timeout ==> spec_wait_step(seen, seen, elapsed, timeout) is Continue,
        elapsed >= timeout ==> spec_wait_step(seen, seen, elapsed, timeout) == Wait::Done(
            Activity::Idle,
        ),
        state != Some(Activity::Idle) ==> spec_fade_target(state, Activity::Idle, brightness)
            == Some(0u8),
        state == Some(Activity::Idle) ==> spec_fade_target(state, Activity::Idle, brightness)
            is None,
{
}

/// A clock that moved ends the wait with activity, whether or not the
/// timeout has elapsed; that calls for a fade to the configured brightness
/// unless the controller is active already.
pub proof fn lemma_active_after_input(
    seen: u64,
    last: u64,
    elapsed: u64,
    timeout: u64,
    state: Option<Activity>,
    brightness: u8,
)
    requires
        last != seen,
    ensures
        spec_wait_step(seen, last, elapsed, timeout) == Wait::Done(Activity::Active),
        state != Some(Activity::Active) ==> spec_fade_target(state, Activity::Active, brightness)
            == Some(brightness),
        state == Some(Activity::Active) ==> spec_fade_target(state, Activity::Active, brightness)
            is None,
{
}

/// A classification that repeats the one before it calls for no fade: the
/// controller fires once per change of state.
pub proof fn lemma_no_double_fire(
    state: Option<Activity>,
    activity: Activity,
    brightness: u8,
)
    ensures
        spec_fade_target(Some(activity), activity, brightness) is None,
        spec_fade_target(state, activity, brightness) is Some <==> state != Some(activity),
{
}

/// Whether input events are listened for on the device called `name`: only
/// on the built-in touchpad and the built-in keyboard.
pub fn is_builtin_input(name: &str) -> (listen: bool)
    ensures
        listen == (name@ == "PIXA3854:00 093A:0274 Touchpad"@ || name@
            == "AT Translated Set 2 keyboard"@),
{
    let name = String::from_str(name);
    name == String::from_str("PIXA3854:00 093A:0274 Touchpad") || name == String::from_str(
        "AT Translated Set 2 keyboard",
    )
}

} // verus!

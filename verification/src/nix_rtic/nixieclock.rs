//! The decisions of one clock tick: what to show for the current mode, and how
//! the up and down buttons adjust the time while it is being set.
use vstd::prelude::*;
use crate::nix_rtic::bcd::{Bcd, Wrapping, lemma_bcd_value_bound};
use crate::nix_rtic::buttons::{ButtonStates, PinLevel};
use crate::nix_rtic::ext::{ExternalData, ExternalDigits};
use crate::nix_rtic::mode::{DigitPair, Mode, SetTimeMask, Source};
use crate::nix_rtic::time::{
    Time, TimeUnit, is_valid_bcd_time, law_count_stays_valid, law_count_up_down_inverse,
};

verus! {

/// What a tick does with the display once the mode has been advanced.
#[derive(Clone, Copy)]
pub enum ClockAction {
    /// Read the time from the clock chip and show it.
    ShowTime,
    /// Read the clock chip's temperature and show it.
    ShowInternalTemperature,
    /// Show the temperature from the last external frame.
    ShowExternal(ExternalDigits),
    /// Darken all tubes.
    Clear,
    /// Read the time, adjust the given pair by the buttons, write it back and
    /// show it with the tubes that the blinking mask leaves lit.
    SetTime(DigitPair, SetTimeMask),
}

/// The display action for a mode, given the last external reading if any.
pub open spec fn action_for(mode: Mode, external_data: Option<ExternalData>) -> ClockAction {
    match mode {
        Mode::DisplayTime => ClockAction::ShowTime,
        Mode::DisplayTemp(Source::Internal) => ClockAction::ShowInternalTemperature,
        Mode::DisplayTemp(Source::External) => match external_data {
            Some(external) => ClockAction::ShowExternal(external.temperature),
            None => ClockAction::Clear,
        },
        Mode::SetTime(digit_pair, _, blanking) => ClockAction::SetTime(digit_pair, blanking),
    }
}

/// Decides what to show for `mode`.
pub fn clock_action(mode: &Mode, external_data: &Option<ExternalData>) -> (r: ClockAction)
    ensures
        r == action_for(*mode, *external_data),
{
    match *mode {
        Mode::DisplayTime => ClockAction::ShowTime,
        Mode::DisplayTemp(source) => match source {
            Source::Internal => ClockAction::ShowInternalTemperature,
            Source::External => {
                if let Some(external) = external_data {
                    ClockAction::ShowExternal(external.temperature)
                } else {
                    ClockAction::Clear
                }
            },
        },
        Mode::SetTime(digit_pair, _, blanking) => ClockAction::SetTime(digit_pair, blanking),
    }
}

/// The time after one set-time tick: up counts the adjusted pair up, down
/// counts it down (up wins when both are held), and either one zeroes the
/// seconds; with neither held the time stays.
pub open spec fn adjusted(time: Time<Bcd>, digit_pair: DigitPair, buttons: ButtonStates) -> Time<Bcd> {
    if buttons.up.level == PinLevel::High {
        Time {
            seconds: TimeUnit(Bcd(0)),
            minutes: if digit_pair == DigitPair::Minutes {
                time.minutes.counted_up()
            } else {
                time.minutes
            },
            hours: if digit_pair == DigitPair::Hours {
                time.hours.counted_up()
            } else {
                time.hours
            },
        }
    } else if buttons.down.level == PinLevel::High {
        Time {
            seconds: TimeUnit(Bcd(0)),
            minutes: if digit_pair == DigitPair::Minutes {
                time.minutes.counted_down()
            } else {
                time.minutes
            },
            hours: if digit_pair == DigitPair::Hours {
                time.hours.counted_down()
            } else {
                time.hours
            },
        }
    } else {
        time
    }
}

/// Adjusts the time by the buttons for one set-time tick.
pub fn adjust_time(time: &mut Time<Bcd>, digit_pair: DigitPair, buttons: &ButtonStates)
    ensures
        *final(time) == adjusted(*old(time), digit_pair, *buttons),
{
    proof {
        lemma_bcd_value_bound(time.minutes.0.0);
        lemma_bcd_value_bound(time.hours.0.0);
    }
    if buttons.up.is_pressed(0) {
        match digit_pair {
            DigitPair::Minutes => {
                time.minutes.increment();
            },
            DigitPair::Hours => {
                time.hours.increment();
            },
        }
        time.seconds.set(0);
    } else if buttons.down.is_pressed(0) {
        match digit_pair {
            DigitPair::Minutes => {
                time.minutes.decrement();
            },
            DigitPair::Hours => {
                time.hours.decrement();
            },
        }
        time.seconds.set(0);
    }
}

/// The digits with those of unlit tubes taken away.
pub fn masked_digits(digits: [Option<u8>; 4], mask: &[bool; 4]) -> (r: [Option<u8>; 4])
    ensures
        forall|i: int|
            0 <= i < 4 ==> #[trigger] r@[i] == if mask@[i] {
                digits@[i]
            } else {
                None
            },
{
    let mut r = digits;
    let mut i: usize = 0;
    while i < 4
        invariant
            i <= 4,
            forall|j: int|
                0 <= j < 4 ==> #[trigger] r@[j] == if j < i && !mask@[j] {
                    None
                } else {
                    digits@[j]
                },
        decreases 4 - i,
    {
        if !mask[i] {
            r[i] = None;
        }
        i = i + 1;
    }
    r
}

/// Adjusting a valid time gives a valid time.
pub proof fn law_adjust_keeps_valid(time: Time<Bcd>, digit_pair: DigitPair, buttons: ButtonStates)
    requires
        is_valid_bcd_time(time),
    ensures
        is_valid_bcd_time(adjusted(time, digit_pair, buttons)),
{
    law_count_stays_valid(time.minutes);
    law_count_stays_valid(time.hours);
}

/// On a valid time, a tick with up held followed by a tick with down held
/// (or the other way round) restores the minutes and hours and zeroes the
/// seconds.
pub proof fn law_adjust_inverse(
    time: Time<Bcd>,
    digit_pair: DigitPair,
    up: ButtonStates,
    down: ButtonStates,
)
    requires
        is_valid_bcd_time(time),
        up.up.level == PinLevel::High,
        down.up.level != PinLevel::High,
        down.down.level == PinLevel::High,
    ensures
        adjusted(adjusted(time, digit_pair, up), digit_pair, down) == (Time {
            seconds: TimeUnit(Bcd(0)),
            ..time
        }),
        adjusted(adjusted(time, digit_pair, down), digit_pair, up) == (Time {
            seconds: TimeUnit(Bcd(0)),
            ..time
        }),
{
    law_count_up_down_inverse(time.minutes);
    law_count_up_down_inverse(time.hours);
}

/// Each mode gets its own action: showing time reads the time; showing the
/// internal temperature reads the clock chip's; showing the external
/// temperature shows the last frame's reading, or darkens the tubes without
/// one; setting time adjusts and blinks the very pair and mask of the mode.
pub proof fn law_action_follows_mode(
    digit_pair: DigitPair,
    timeout: usize,
    blanking: SetTimeMask,
    external: ExternalData,
)
    ensures
        action_for(Mode::SetTime(digit_pair, timeout, blanking), None) == ClockAction::SetTime(
            digit_pair,
            blanking,
        ),
        action_for(Mode::SetTime(digit_pair, timeout, blanking), Some(external))
            == ClockAction::SetTime(digit_pair, blanking),
        action_for(Mode::DisplayTime, Some(external)) == ClockAction::ShowTime,
        action_for(Mode::DisplayTime, None) == ClockAction::ShowTime,
        action_for(Mode::DisplayTemp(Source::Internal), Some(external))
            == ClockAction::ShowInternalTemperature,
        action_for(Mode::DisplayTemp(Source::Internal), None) == ClockAction::ShowInternalTemperature,
        action_for(Mode::DisplayTemp(Source::External), Some(external)) == ClockAction::ShowExternal(
            external.temperature,
        ),
        action_for(Mode::DisplayTemp(Source::External), None) == ClockAction::Clear,
{
}

/// A set-time tick on a valid time changes only the selected pair: up moves
/// its number one forward and down one back, wrapping at 60 for minutes and at
/// 24 for hours; the other pair stays and the seconds become 0. With neither
/// button held nothing changes.
pub proof fn law_adjust_moves_selected_pair(
    time: Time<Bcd>,
    digit_pair: DigitPair,
    buttons: ButtonStates,
)
    requires
        is_valid_bcd_time(time),
    ensures
        ({
            let a = adjusted(time, digit_pair, buttons);
            let up = buttons.up.level == PinLevel::High;
            let down = !up && buttons.down.level == PinLevel::High;
            let m = time.minutes.number() as int;
            let h = time.hours.number() as int;
            &&& (up || down) ==> a.seconds.number() == 0
            &&& (up || down) && digit_pair == DigitPair::Minutes ==> a.hours == time.hours
            &&& (up || down) && digit_pair == DigitPair::Hours ==> a.minutes == time.minutes
            &&& up && digit_pair == DigitPair::Minutes ==> a.minutes.number() == (m + 1) % 60
            &&& down && digit_pair == DigitPair::Minutes ==> (a.minutes.number() + 1) % 60 == m
            &&& up && digit_pair == DigitPair::Hours ==> a.hours.number() == (h + 1) % 24
            &&& down && digit_pair == DigitPair::Hours ==> (a.hours.number() + 1) % 24 == h
            &&& !(up || down) ==> a == time
        }),
{
    lemma_bcd_value_bound(0);
    law_count_stays_valid(time.minutes);
    law_count_stays_valid(time.hours);
    let m = time.minutes.number() as int;
    let h = time.hours.number() as int;
    lemma_wrap_back(m, 60);
    lemma_wrap_back(h, 24);
}

/// One count back and one count forward cancel, wrapping at the base.
proof fn lemma_wrap_back(n: int, b: int)
    requires
        0 <= n < b,
    ensures
        ((if n == 0 {
            b - 1
        } else {
            n - 1
        }) + 1) % b == n,
{
    if n == 0 {
        vstd::arithmetic::div_mod::lemma_mod_self_0(b);
    } else {
        vstd::arithmetic::div_mod::lemma_small_mod(n as nat, b as nat);
    }
}

} // verus!

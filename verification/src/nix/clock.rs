//! The decisions of the first firmware's main loop: the display mode, the
//! tick counters for the set-time timeout and blinking, and time adjustment.
use vstd::prelude::*;
use crate::nix::nixiedigits::NixiePresentation;
use crate::nix::time::Time;
use crate::nix_rtic::buttons::{ButtonState, PinLevel};

verus! {

/// Which pair of tubes the set-time display adjusts.
#[derive(Clone, Copy, PartialEq, Eq, Structural)]
pub enum DigitPair {
    Minutes,
    Hours,
}

/// The display mode.
#[derive(Clone, Copy, PartialEq, Eq, Structural)]
pub enum Mode {
    DisplayTime,
    DisplayTemp,
    SetTime(DigitPair),
}

/// Counts ticks and reports every `interval`-th one; also keeps a flag that
/// flips on every such report.
pub struct Counter {
    pub counter: u32,
    pub interval: u32,
    pub toggle: bool,
}

impl Counter {
    /// The counter after one tick, and whether the tick completed the interval.
    pub open spec fn counted(counter: u32, interval: u32) -> (u32, bool) {
        if counter + 1 >= interval {
            (0, true)
        } else {
            ((counter + 1) as u32, false)
        }
    }

    pub fn new(interval: u32) -> (r: Counter)
        ensures
            r.counter == 0,
            r.interval == interval,
            !r.toggle,
    {
        Counter { counter: 0, interval, toggle: false }
    }

    /// Counts one tick; true when it completes the interval, which restarts
    /// the count.
    pub fn finished(&mut self) -> (r: bool)
        requires
            old(self).counter < u32::MAX,
        ensures
            (final(self).counter, r) == Counter::counted(old(self).counter, old(self).interval),
            final(self).interval == old(self).interval,
            final(self).toggle == old(self).toggle,
    {
        self.counter += 1;
        if self.counter >= self.interval {
            self.counter = 0;
            return true;
        }
        return false;
    }

    /// Counts one tick, flips the flag if it completes the interval, and
    /// returns the flag.
    pub fn toggled(&mut self) -> (r: bool)
        requires
            old(self).counter < u32::MAX,
        ensures
            final(self).counter == Counter::counted(old(self).counter, old(self).interval).0,
            final(self).interval == old(self).interval,
            final(self).toggle == (old(self).toggle != Counter::counted(
                old(self).counter,
                old(self).interval,
            ).1),
            r == final(self).toggle,
    {
        if self.finished() {
            self.toggle = !self.toggle;
        }
        self.toggle
    }
}

/// Whether a button has just been released after a short press.
pub open spec fn short_press(b: ButtonState) -> bool {
    b.level == PinLevel::Falling && b.count < 5
}

/// Whether a button has been held down for more than ten polls.
pub open spec fn long_press(b: ButtonState) -> bool {
    b.level == PinLevel::High && b.count > 10
}

impl Mode {
    pub fn new() -> (r: Mode)
        ensures
            r == Mode::DisplayTime,
    {
        Mode::DisplayTime
    }

    /// The mode after one tick, given the set button and whether the set-time
    /// timeout completed on this tick.
    /// - Showing time: a short press shows temperature, a long press starts
    ///   setting the minutes.
    /// - Showing temperature: a short press shows time.
    /// - Setting time: when the timeout completes, time is shown; otherwise a
    ///   short press switches between minutes and hours.
    pub open spec fn next_mode(self, set: ButtonState, timed_out: bool) -> Mode {
        match self {
            Mode::DisplayTime => if short_press(set) {
                Mode::DisplayTemp
            } else if long_press(set) {
                Mode::SetTime(DigitPair::Minutes)
            } else {
                self
            },
            Mode::DisplayTemp => if short_press(set) {
                Mode::DisplayTime
            } else {
                self
            },
            Mode::SetTime(digit_pair) => if timed_out {
                Mode::DisplayTime
            } else if short_press(set) {
                match digit_pair {
                    DigitPair::Minutes => Mode::SetTime(DigitPair::Hours),
                    DigitPair::Hours => Mode::SetTime(DigitPair::Minutes),
                }
            } else {
                self
            },
        }
    }

    /// Advances the mode by one tick; in the set-time mode this counts one tick
    /// of the set-time timeout.
    pub fn update(&mut self, set: &ButtonState, set_timeout: &mut Counter)
        requires
            *old(self) is SetTime ==> old(set_timeout).counter < u32::MAX,
        ensures
            *old(self) is SetTime ==> {
                let (count, done) = Counter::counted(old(set_timeout).counter, old(set_timeout).interval);
                &&& final(set_timeout).counter == count
                &&& *final(self) == old(self).next_mode(*set, done)
            },
            !(*old(self) is SetTime) ==> final(set_timeout).counter == old(set_timeout).counter
                && *final(self) == old(self).next_mode(*set, false),
            final(set_timeout).interval == old(set_timeout).interval,
            final(set_timeout).toggle == old(set_timeout).toggle,
    {
        *self = match *self {
            Mode::DisplayTime => match set.level {
                PinLevel::Falling if set.count < 5 => Mode::DisplayTemp,
                PinLevel::High if set.count > 10 => Mode::SetTime(DigitPair::Minutes),
                _ => *self,
            },
            Mode::DisplayTemp => match set.level {
                PinLevel::Falling if set.count < 5 => Mode::DisplayTime,
                _ => *self,
            },
            Mode::SetTime(digit_pair) => {
                if set_timeout.finished() {
                    Mode::DisplayTime
                } else {
                    match set.level {
                        PinLevel::Falling if set.count < 5 => {
                            match digit_pair {
                                DigitPair::Minutes => Mode::SetTime(DigitPair::Hours),
                                DigitPair::Hours => Mode::SetTime(DigitPair::Minutes),
                            }
                        },
                        _ => *self,
                    }
                }
            },
        };
    }
}

/// The time after one set-time tick of the main loop, or `None` when neither
/// button is held: the increment button counts the adjusted field up (from 59
/// or 23, and from any out-of-range value, to 0), the decrement button counts
/// it down (from 0 to 59 or 23); either one zeroes the seconds. The increment
/// button wins when both are held.
pub open spec fn adjusted_time(time: Time, digit_pair: DigitPair, inc: bool, dec: bool) -> Option<Time> {
    if !inc && !dec {
        None
    } else {
        let up = inc;
        Some(
            match digit_pair {
                DigitPair::Minutes => Time {
                    seconds: 0,
                    minutes: if up {
                        if time.minutes < 59 {
                            (time.minutes + 1) as u8
                        } else {
                            0
                        }
                    } else {
                        if time.minutes > 0 {
                            (time.minutes - 1) as u8
                        } else {
                            59
                        }
                    },
                    hours: time.hours,
                },
                DigitPair::Hours => Time {
                    seconds: 0,
                    minutes: time.minutes,
                    hours: if up {
                        if time.hours < 23 {
                            (time.hours + 1) as u8
                        } else {
                            0
                        }
                    } else {
                        if time.hours > 0 {
                            (time.hours - 1) as u8
                        } else {
                            23
                        }
                    },
                },
            },
        )
    }
}

/// Adjusts the time for one set-time tick; true when it changed, in which case
/// the main loop writes it to the clock chip and restarts the set-time timeout.
pub fn set_time_step(time: &mut Time, digit_pair: DigitPair, inc: &ButtonState, dec: &ButtonState) -> (r:
    bool)
    ensures
        r == (inc.level == PinLevel::High || dec.level == PinLevel::High),
        r ==> Some(*final(time)) == adjusted_time(
            *old(time),
            digit_pair,
            inc.level == PinLevel::High,
            dec.level == PinLevel::High,
        ),
        !r ==> *final(time) == *old(time),
{
    match digit_pair {
        DigitPair::Minutes => {
            if inc.is_pressed(0) {
                if time.minutes < 59 {
                    time.minutes += 1;
                } else {
                    time.minutes = 0;
                }
                time.seconds = 0;
                true
            } else if dec.is_pressed(0) {
                if time.minutes > 0 {
                    time.minutes -= 1;
                } else {
                    time.minutes = 59;
                }
                time.seconds = 0;
                true
            } else {
                false
            }
        },
        DigitPair::Hours => {
            if inc.is_pressed(0) {
                if time.hours < 23 {
                    time.hours += 1;
                } else {
                    time.hours = 0;
                }
                time.seconds = 0;
                true
            } else if dec.is_pressed(0) {
                if time.hours > 0 {
                    time.hours -= 1;
                } else {
                    time.hours = 23;
                }
                time.seconds = 0;
                true
            } else {
                false
            }
        },
    }
}

/// The digits with the pair being adjusted darkened.
pub open spec fn blanked(digits: Seq<Option<u8>>, digit_pair: DigitPair) -> Seq<Option<u8>> {
    match digit_pair {
        DigitPair::Minutes => digits.update(0, None).update(1, None),
        DigitPair::Hours => digits.update(2, None).update(3, None),
    }
}

/// Darkens the tubes of the pair being adjusted: the first two tubes for
/// minutes, the last two for hours.
pub fn blank_pair(digits: &mut [Option<u8>; 4], digit_pair: DigitPair)
    ensures
        final(digits)@ == blanked(old(digits)@, digit_pair),
{
    match digit_pair {
        DigitPair::Minutes => {
            digits[0] = None;
            digits[1] = None;
        },
        DigitPair::Hours => {
            digits[2] = None;
            digits[3] = None;
        },
    }
}

/// What the polling loop puts on the tubes after a tick.
pub enum Shown {
    /// These digits.
    Digits([Option<u8>; 4]),
    /// The temperature read from the clock chip.
    Temperature,
}

/// The set-time part of a tick: in the set-time mode the buttons adjust the
/// time, and an adjustment restarts the set-time timeout; true when the time
/// changed and has to be written to the clock chip. Other modes change
/// nothing.
pub fn set_time_tick(
    mode: Mode,
    time: &mut Time,
    inc: &ButtonState,
    dec: &ButtonState,
    set_timeout: &mut Counter,
) -> (r: bool)
    ensures
        mode matches Mode::SetTime(digit_pair) ==> {
            &&& r == (inc.level == PinLevel::High || dec.level == PinLevel::High)
            &&& r ==> Some(*final(time)) == adjusted_time(
                *old(time),
                digit_pair,
                inc.level == PinLevel::High,
                dec.level == PinLevel::High,
            )
        },
        !(mode is SetTime) ==> !r,
        !r ==> *final(time) == *old(time),
        final(set_timeout).counter == if r {
            0
        } else {
            old(set_timeout).counter
        },
        final(set_timeout).interval == old(set_timeout).interval,
        final(set_timeout).toggle == old(set_timeout).toggle,
{
    if let Mode::SetTime(digit_pair) = mode {
        if set_time_step(time, digit_pair, inc, dec) {
            set_timeout.counter = 0;
            return true;
        }
    }
    false
}

/// The display part of a tick: the time's digits when showing time; in the
/// set-time mode the same digits with the adjusted pair darkened whenever the
/// blink flag, ticked once, is set; the temperature otherwise. The blink
/// counter only ticks in the set-time mode.
pub fn display_tick(mode: Mode, time: &Time, blinking: &mut Counter) -> (r: Shown)
    requires
        mode is SetTime ==> old(blinking).counter < u32::MAX,
    ensures
        match mode {
            Mode::DisplayTime => *final(blinking) == *old(blinking) && (r matches Shown::Digits(d)
                && d@ == time.digits()),
            Mode::DisplayTemp => r is Temperature && *final(blinking) == *old(blinking),
            Mode::SetTime(digit_pair) => {
                let (count, done) = Counter::counted(old(blinking).counter, old(blinking).interval);
                let flag = old(blinking).toggle != done;
                &&& final(blinking).counter == count
                &&& final(blinking).interval == old(blinking).interval
                &&& final(blinking).toggle == flag
                &&& r matches Shown::Digits(d) && d@ == if flag {
                    blanked(time.digits(), digit_pair)
                } else {
                    time.digits()
                }
            },
        },
{
    match mode {
        Mode::DisplayTime => Shown::Digits(time.to_digits()),
        Mode::SetTime(digit_pair) => {
            let mut digits = time.to_digits();
            if blinking.toggled() {
                blank_pair(&mut digits, digit_pair);
            }
            Shown::Digits(digits)
        },
        Mode::DisplayTemp => Shown::Temperature,
    }
}

/// A counter below its interval stays below it, and a tick completes the
/// interval exactly when it brings the count up to the interval.
pub proof fn law_counter_period(counter: u32, interval: u32)
    requires
        counter < interval,
    ensures
        Counter::counted(counter, interval).0 < interval,
        Counter::counted(counter, interval).1 == (counter + 1 == interval),
{
}

/// Adjusting a valid time gives a valid time.
pub proof fn law_adjust_keeps_valid(time: Time, digit_pair: DigitPair, inc: bool, dec: bool)
    requires
        time.is_valid(),
    ensures
        adjusted_time(time, digit_pair, inc, dec) matches Some(t) ==> t.is_valid(),
{
}

/// On a valid time, one increment followed by one decrement of the same pair
/// (or the other way round) restores the minutes and hours and zeroes the
/// seconds.
pub proof fn law_adjust_inverse(time: Time, digit_pair: DigitPair)
    requires
        time.is_valid(),
    ensures
        ({
            let up = adjusted_time(time, digit_pair, true, false)->Some_0;
            let back = adjusted_time(up, digit_pair, false, true)->Some_0;
            back == Time { seconds: 0, ..time }
        }),
        ({
            let down = adjusted_time(time, digit_pair, false, true)->Some_0;
            let back = adjusted_time(down, digit_pair, true, false)->Some_0;
            back == Time { seconds: 0, ..time }
        }),
{
}

/// While setting time, when the timeout does not complete on this tick, a
/// short press of set switches to the other pair of digits; a second such
/// press switches back to the pair before.
pub proof fn law_short_press_switches_pair(digit_pair: DigitPair, set: ButtonState)
    requires
        set.level == PinLevel::Falling,
        set.count < 5,
    ensures
        Mode::SetTime(digit_pair).next_mode(set, false) is SetTime,
        Mode::SetTime(digit_pair).next_mode(set, false)->SetTime_0 != digit_pair,
        Mode::SetTime(digit_pair).next_mode(set, false).next_mode(set, false) == Mode::SetTime(
            digit_pair,
        ),
{
}

/// When the set-time timeout completes, the clock goes back to showing time,
/// whatever the set button does; other modes ignore the timeout.
pub proof fn law_timeout_ends_setting(mode: Mode, set: ButtonState)
    ensures
        mode is SetTime ==> mode.next_mode(set, true) == Mode::DisplayTime,
        !(mode is SetTime) ==> mode.next_mode(set, true) == mode.next_mode(set, false),
{
}

/// Showing time: a short press shows the temperature and a second one shows
/// time again; a hold of more than ten polls starts setting the minutes; with
/// set untouched the mode stays.
pub proof fn law_display_presses(set: ButtonState, timed_out: bool)
    ensures
        set.level == PinLevel::Falling && set.count < 5 ==> Mode::DisplayTime.next_mode(set, timed_out)
            == Mode::DisplayTemp && Mode::DisplayTemp.next_mode(set, timed_out) == Mode::DisplayTime,
        set.level == PinLevel::High && set.count > 10 ==> Mode::DisplayTime.next_mode(set, timed_out)
            == Mode::SetTime(DigitPair::Minutes),
        set.level == PinLevel::Low || set.level == PinLevel::Rising ==> {
            &&& Mode::DisplayTime.next_mode(set, timed_out) == Mode::DisplayTime
            &&& Mode::DisplayTemp.next_mode(set, timed_out) == Mode::DisplayTemp
            &&& forall|p: DigitPair| #[trigger] Mode::SetTime(p).next_mode(set, false) == Mode::SetTime(p)
        },
{
}

/// A set-time step on a valid time changes only the selected field: the
/// increment button moves it one forward and the decrement button one back,
/// wrapping at 60 for minutes and 24 for hours; the other field stays and the
/// seconds become 0.
pub proof fn law_adjust_moves_selected_field(time: Time, digit_pair: DigitPair, inc: bool, dec: bool)
    requires
        time.is_valid(),
        inc || dec,
    ensures
        ({
            let a = adjusted_time(time, digit_pair, inc, dec)->Some_0;
            &&& a.seconds == 0
            &&& digit_pair == DigitPair::Minutes ==> a.hours == time.hours
            &&& digit_pair == DigitPair::Hours ==> a.minutes == time.minutes
            &&& inc && digit_pair == DigitPair::Minutes ==> a.minutes == (time.minutes + 1) % 60
            &&& !inc && digit_pair == DigitPair::Minutes ==> (a.minutes + 1) % 60 == time.minutes
            &&& inc && digit_pair == DigitPair::Hours ==> a.hours == (time.hours + 1) % 24
            &&& !inc && digit_pair == DigitPair::Hours ==> (a.hours + 1) % 24 == time.hours
        }),
{
}

/// Blinking darkens exactly the two tubes of the pair: the first two for
/// minutes, the last two for hours; the other tubes keep their digits.
pub proof fn law_blanked_tubes(digits: Seq<Option<u8>>, digit_pair: DigitPair)
    requires
        digits.len() == 4,
    ensures
        forall|i: int|
            0 <= i < 4 ==> (#[trigger] blanked(digits, digit_pair)[i] == if (i < 2) == (digit_pair
                == DigitPair::Minutes) {
                None
            } else {
                digits[i]
            }),
{
}

} // verus!

//! What the clock displays, and how button presses move between displays.
use vstd::prelude::*;
use crate::nix_rtic::buttons::{ButtonState, ButtonStates, PinLevel};

verus! {

/// Which pair of digits the set-time display adjusts.
#[derive(Clone, Copy, PartialEq, Eq, Structural)]
pub enum DigitPair {
    Minutes,
    Hours,
}

/// Where a displayed temperature comes from.
#[derive(Clone, Copy, PartialEq, Eq, Structural)]
pub enum Source {
    Internal,
    External,
}

/// Ticks spent in the set-time display since the last adjustment.
pub type Counter = usize;

/// The display mode.
#[derive(Clone, Copy)]
pub enum Mode {
    DisplayTime,
    DisplayTemp(Source),
    SetTime(DigitPair, Counter, SetTimeMask),
}

/// Blinking of the digit pair being adjusted: the pair goes dark and lit in
/// turn, each phase lasting `period` ticks.
#[derive(Clone, Copy)]
pub struct SetTimeMask {
    pub counter: usize,
    pub period: usize,
    pub blank: bool,
}

/// The number of ticks without an adjustment after which the set-time
/// display gives up.
pub const SET_TIME_TIMEOUT: usize = 50;

/// Whether a button has just been released after a short press.
pub open spec fn short_press(b: ButtonState) -> bool {
    b.level == PinLevel::Falling && b.count < 5
}

/// Whether a button has been held down for more than ten polls.
pub open spec fn long_press(b: ButtonState) -> bool {
    b.level == PinLevel::High && b.count > 10
}

/// Whether the up or the down button is held down.
pub open spec fn up_or_down(buttons: ButtonStates) -> bool {
    buttons.down.level == PinLevel::High || buttons.up.level == PinLevel::High
}

impl SetTimeMask {
    /// The mask after one tick: the phase flips when the counter reaches the period.
    pub open spec fn ticked(self) -> SetTimeMask {
        if self.counter + 1 >= self.period {
            SetTimeMask { counter: 0, period: self.period, blank: !self.blank }
        } else {
            SetTimeMask { counter: (self.counter + 1) as usize, period: self.period, blank: self.blank }
        }
    }

    /// Which tubes are lit: all of them, except the adjusted pair while it is dark.
    pub open spec fn lit(self, digit_pair: DigitPair) -> Seq<bool> {
        if self.blank {
            match digit_pair {
                DigitPair::Minutes => seq![false, false, true, true],
                DigitPair::Hours => seq![true, true, false, false],
            }
        } else {
            seq![true, true, true, true]
        }
    }

    pub fn mask(&self, digit_pair: &DigitPair) -> (r: [bool; 4])
        ensures
            r@ == self.lit(*digit_pair),
    {
        if self.blank {
            match digit_pair {
                DigitPair::Minutes => [false, false, true, true],
                DigitPair::Hours => [true, true, false, false],
            }
        } else {
            [true, true, true, true]
        }
    }

    fn update(&mut self)
        requires
            old(self).counter < usize::MAX,
        ensures
            *final(self) == old(self).ticked(),
    {
        self.counter += 1;
        if self.counter >= self.period {
            self.counter = 0;
            self.blank = !self.blank;
        }
    }

    fn reset(&mut self)
        ensures
            *final(self) == SetTimeMask::new_spec(old(self).period),
    {
        *self = Self::new(self.period);
    }

    /// A lit mask at the start of its phase.
    pub open spec fn new_spec(period: usize) -> SetTimeMask {
        SetTimeMask { counter: 0, period, blank: false }
    }

    fn new(period: usize) -> (r: Self)
        ensures
            r == SetTimeMask::new_spec(period),
    {
        SetTimeMask { counter: 0, period, blank: false }
    }
}

impl Mode {
    /// The set-time state after its in-place update for one tick: an
    /// up or down press restarts the timeout and the blinking, otherwise both
    /// advance. Other modes are not changed in place.
    pub open spec fn ticked(self, buttons: ButtonStates) -> Mode {
        match self {
            Mode::SetTime(digit_pair, timeout, blanking) => if up_or_down(buttons) {
                Mode::SetTime(digit_pair, 0, SetTimeMask::new_spec(blanking.period))
            } else {
                Mode::SetTime(digit_pair, (timeout + 1) as usize, blanking.ticked())
            },
            _ => self,
        }
    }

    /// The mode after one tick.
    /// - Showing time: a short press of set shows the internal temperature; a
    ///   long press starts setting the minutes.
    /// - Showing temperature: up or down switches between internal and external
    ///   temperature; otherwise a short press of set shows time.
    /// - Setting time: after the timeout, time is shown; a short press of set
    ///   switches between minutes and hours with a fresh timeout.
    pub open spec fn next_mode(self, buttons: ButtonStates) -> Mode {
        let set = buttons.set;
        match self {
            Mode::DisplayTime => if short_press(set) {
                Mode::DisplayTemp(Source::Internal)
            } else if long_press(set) {
                Mode::SetTime(DigitPair::Minutes, 0, SetTimeMask::new_spec(4))
            } else {
                self
            },
            Mode::DisplayTemp(source) => if up_or_down(buttons) {
                match source {
                    Source::Internal => Mode::DisplayTemp(Source::External),
                    Source::External => Mode::DisplayTemp(Source::Internal),
                }
            } else if short_press(set) {
                Mode::DisplayTime
            } else {
                self
            },
            Mode::SetTime(digit_pair, _, _) => {
                let t = self.ticked(buttons);
                if t->SetTime_1 > SET_TIME_TIMEOUT {
                    Mode::DisplayTime
                } else if short_press(set) {
                    Mode::SetTime(
                        match digit_pair {
                            DigitPair::Minutes => DigitPair::Hours,
                            DigitPair::Hours => DigitPair::Minutes,
                        },
                        0,
                        t->SetTime_2,
                    )
                } else {
                    t
                }
            },
        }
    }

    /// Whether the counters of the set-time state can advance one more tick.
    pub open spec fn can_tick(self, buttons: ButtonStates) -> bool {
        self matches Mode::SetTime(_, timeout, blanking) ==> (up_or_down(buttons) || (timeout
            < usize::MAX && blanking.counter < usize::MAX))
    }

    pub fn new() -> (r: Mode)
        ensures
            r is DisplayTime,
    {
        Mode::DisplayTime
    }

    /// Whether `next` can count this tick without overflowing.
    pub fn tick_fits(&self, buttons: &ButtonStates) -> (r: bool)
        ensures
            r == self.can_tick(*buttons),
    {
        match *self {
            Mode::SetTime(_, timeout, blanking) => buttons.down.is_pressed(0) || buttons.up.is_pressed(0)
                || (timeout < usize::MAX && blanking.counter < usize::MAX),
            _ => true,
        }
    }

    /// Advances the set-time counters in place and returns the next mode.
    pub fn next(&mut self, buttons: &ButtonStates) -> (r: Self)
        requires
            old(self).can_tick(*buttons),
        ensures
            *final(self) == old(self).ticked(*buttons),
            r == old(self).next_mode(*buttons),
    {
        let set = buttons.set;
        let up_or_down = buttons.down.is_pressed(0) || buttons.up.is_pressed(0);
        match *self {
            Mode::DisplayTime => match set.level {
                PinLevel::Falling if set.count < 5 => Mode::DisplayTemp(Source::Internal),
                PinLevel::High if set.count > 10 => {
                    Mode::SetTime(DigitPair::Minutes, 0, SetTimeMask::new(4))
                },
                _ => *self,
            },
            Mode::DisplayTemp(source) => match source {
                Source::Internal if up_or_down => Mode::DisplayTemp(Source::External),
                Source::External if up_or_down => Mode::DisplayTemp(Source::Internal),
                _ => match set.level {
                    PinLevel::Falling if set.count < 5 => Mode::DisplayTime,
                    _ => *self,
                },
            },
            Mode::SetTime(digit_pair, timeout, blanking) => {
                let mut timeout = timeout;
                let mut blanking = blanking;
                if up_or_down {
                    timeout = 0;
                    blanking.reset();
                } else {
                    timeout += 1;
                    blanking.update();
                }
                *self = Mode::SetTime(digit_pair, timeout, blanking);

                if timeout > SET_TIME_TIMEOUT {
                    Mode::DisplayTime
                } else {
                    match set.level {
                        PinLevel::Falling if set.count < 5 => match digit_pair {
                            DigitPair::Minutes => Mode::SetTime(DigitPair::Hours, 0, blanking),
                            DigitPair::Hours => Mode::SetTime(DigitPair::Minutes, 0, blanking),
                        },
                        _ => *self,
                    }
                }
            },
        }
    }
}

/// The mode after `n` ticks with the same button states.
pub open spec fn run(mode: Mode, buttons: ButtonStates, n: nat) -> Mode
    decreases n,
{
    if n == 0 {
        mode
    } else {
        run(mode.next_mode(buttons), buttons, (n - 1) as nat)
    }
}

/// Left alone (up and down released, set not just released after a short
/// press), the set-time display returns to showing time once the timeout has
/// passed: after `51 - t` ticks from a timeout count of `t`.
pub proof fn law_set_time_times_out(
    digit_pair: DigitPair,
    timeout: usize,
    blanking: SetTimeMask,
    buttons: ButtonStates,
)
    requires
        buttons.up.level != PinLevel::High,
        buttons.down.level != PinLevel::High,
        !(buttons.set.level == PinLevel::Falling && buttons.set.count < 5),
        timeout <= 50,
    ensures
        run(Mode::SetTime(digit_pair, timeout, blanking), buttons, (51 - timeout) as nat) is DisplayTime,
        forall|k: nat|
            k < 51 - timeout ==> #[trigger] run(Mode::SetTime(digit_pair, timeout, blanking), buttons, k) is SetTime,
    decreases 50 - timeout,
{
    let m = Mode::SetTime(digit_pair, timeout, blanking);
    if timeout < 50 {
        law_set_time_times_out(digit_pair, (timeout + 1) as usize, blanking.ticked(), buttons);
        assert(m.next_mode(buttons) == Mode::SetTime(digit_pair, (timeout + 1) as usize, blanking.ticked()));
        assert forall|k: nat| k < 51 - timeout implies #[trigger] run(m, buttons, k) is SetTime by {
            if k > 0 {
                assert(run(m, buttons, k) == run(m.next_mode(buttons), buttons, (k - 1) as nat));
            }
        }
    } else {
        assert(run(m.next_mode(buttons), buttons, 0) is DisplayTime);
        assert forall|k: nat| k < 51 - timeout implies #[trigger] run(m, buttons, k) is SetTime by {
            assert(k == 0);
        }
    }
}

/// While up or down is held, the set-time display never times out: it stays
/// in setting time, with the timeout restarted.
pub proof fn law_adjusting_keeps_set_time(mode: Mode, buttons: ButtonStates)
    requires
        mode is SetTime,
        buttons.up.level == PinLevel::High || buttons.down.level == PinLevel::High,
    ensures
        mode.next_mode(buttons) is SetTime,
        mode.next_mode(buttons)->SetTime_1 == 0,
{
}

/// While setting time, before the timeout, a short press of set switches to
/// the other pair of digits with the timeout restarted and the blinking period
/// kept; a second short press switches back to the pair before.
pub proof fn law_short_press_switches_pair(
    digit_pair: DigitPair,
    timeout: usize,
    blanking: SetTimeMask,
    buttons: ButtonStates,
)
    requires
        buttons.set.level == PinLevel::Falling,
        buttons.set.count < 5,
        timeout < 50 || buttons.up.level == PinLevel::High || buttons.down.level == PinLevel::High,
    ensures
        ({
            let once = Mode::SetTime(digit_pair, timeout, blanking).next_mode(buttons);
            let twice = once.next_mode(buttons);
            &&& once is SetTime
            &&& once->SetTime_0 != digit_pair
            &&& once->SetTime_1 == 0
            &&& once->SetTime_2.period == blanking.period
            &&& twice is SetTime
            &&& twice->SetTime_0 == digit_pair
            &&& twice->SetTime_1 == 0
        }),
{
}

/// A long hold of set (more than ten polls) while showing time starts setting
/// the minutes, with a fresh timeout and a lit mask that blinks every four
/// ticks.
pub proof fn law_long_press_sets_minutes(buttons: ButtonStates)
    requires
        buttons.set.level == PinLevel::High,
        buttons.set.count > 10,
    ensures
        Mode::DisplayTime.next_mode(buttons) == Mode::SetTime(
            DigitPair::Minutes,
            0,
            SetTimeMask { counter: 0, period: 4, blank: false },
        ),
{
}

/// While showing temperature, holding up or down switches between the
/// internal and the external source; doing it twice gives the source back.
pub proof fn law_up_down_switches_source(source: Source, buttons: ButtonStates)
    requires
        buttons.up.level == PinLevel::High || buttons.down.level == PinLevel::High,
    ensures
        Mode::DisplayTemp(source).next_mode(buttons) is DisplayTemp,
        Mode::DisplayTemp(source).next_mode(buttons)->DisplayTemp_0 != source,
        Mode::DisplayTemp(source).next_mode(buttons).next_mode(buttons) == Mode::DisplayTemp(source),
{
}

/// Two short presses of set, with up and down released, go from showing time
/// to showing the internal temperature and back.
pub proof fn law_short_presses_cycle(buttons: ButtonStates)
    requires
        buttons.set.level == PinLevel::Falling,
        buttons.set.count < 5,
        buttons.up.level != PinLevel::High,
        buttons.down.level != PinLevel::High,
    ensures
        run(Mode::DisplayTime, buttons, 1) == Mode::DisplayTemp(Source::Internal),
        run(Mode::DisplayTime, buttons, 2) is DisplayTime,
{
    reveal_with_fuel(run, 3);
}

/// The mask after `n` ticks.
pub open spec fn ticked_times(mask: SetTimeMask, n: nat) -> SetTimeMask
    decreases n,
{
    if n == 0 {
        mask
    } else {
        ticked_times(mask.ticked(), (n - 1) as nat)
    }
}

/// Ticks that stay below the period only advance the counter.
proof fn lemma_ticks_within_phase(mask: SetTimeMask, k: nat)
    requires
        mask.counter + k < mask.period,
    ensures
        ticked_times(mask, k) == (SetTimeMask { counter: (mask.counter + k) as usize, ..mask }),
    decreases k,
{
    if k > 0 {
        lemma_ticks_within_phase(mask.ticked(), (k - 1) as nat);
    }
}

/// `a + b` ticks are `a` ticks followed by `b` ticks.
proof fn lemma_ticks_compose(mask: SetTimeMask, a: nat, b: nat)
    ensures
        ticked_times(mask, a + b) == ticked_times(ticked_times(mask, a), b),
    decreases a,
{
    if a > 0 {
        lemma_ticks_compose(mask.ticked(), (a - 1) as nat, b);
        assert(ticked_times(mask, a + b) == ticked_times(mask.ticked(), (a - 1 + b) as nat));
    }
}

/// A mask whose counter is below its period keeps it below after a tick.
pub proof fn law_mask_counter_stays_below_period(mask: SetTimeMask)
    requires
        mask.counter < mask.period,
    ensures
        mask.ticked().counter < mask.ticked().period,
        mask.ticked().period == mask.period,
{
}

/// Blinking: `period` ticks of a mask whose counter is below its period flip
/// the phase exactly once and bring the counter back to where it was.
pub proof fn law_mask_period_flips_once(mask: SetTimeMask)
    requires
        1 <= mask.period,
        mask.counter < mask.period,
    ensures
        ticked_times(mask, mask.period as nat) == (SetTimeMask { blank: !mask.blank, ..mask }),
{
    let p = mask.period as nat;
    let c = mask.counter as nat;
    let before = (p - c - 1) as nat;
    lemma_ticks_within_phase(mask, before);
    let last = ticked_times(mask, before);
    assert(last == (SetTimeMask { counter: (p - 1) as usize, ..mask }));
    lemma_ticks_compose(mask, before, 1);
    assert(ticked_times(last, 1) == last.ticked()) by {
        reveal_with_fuel(ticked_times, 2);
    }
    let flipped = last.ticked();
    assert(flipped == (SetTimeMask { counter: 0, blank: !mask.blank, ..mask }));
    lemma_ticks_compose(mask, before + 1, c);
    lemma_ticks_within_phase(flipped, c);
    assert(before + 1 + c == p);
}

/// While dark, the mask leaves unlit exactly the two tubes of the pair being
/// adjusted (the first two show minutes, the last two hours); while lit, every
/// tube is lit.
pub proof fn law_mask_darkens_adjusted_pair(mask: SetTimeMask, digit_pair: DigitPair)
    ensures
        mask.lit(digit_pair).len() == 4,
        forall|i: int|
            0 <= i < 4 ==> #[trigger] mask.lit(digit_pair)[i] == !(mask.blank && ((i < 2) == (digit_pair
                == DigitPair::Minutes))),
{
}

} // verus!
